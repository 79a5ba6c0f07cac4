use vstd::prelude::*;

verus! {

use crate::ParserError;
use crate::xml::{XmlElement, attr_of, attrs_within, tags_within, tagged_children, names_view,
    opt_view, check_attrs_within, check_tags_within, children_tagged, derefs};
use crate::schema::req_attr;

/// One free-form name/value pair: the generic escape hatch for vendor
/// extensions.
#[derive(Debug)]
pub struct Attribute {
    pub name: String,
    pub value: String,
}

pub open spec fn attribute_attr_names() -> Seq<Seq<char>> {
    seq!["name"@, "value"@]
}

/// Whether an attribute element maps without a structural error: both
/// attributes present, and nothing undeclared (this entity rejects
/// unrecognized content).
pub open spec fn attribute_ok(e: XmlElement) -> bool {
    &&& attr_of(e, "name"@) is Some
    &&& attr_of(e, "value"@) is Some
    &&& attrs_within(e.attrs@, attribute_attr_names())
    &&& tags_within(e.children@, Seq::empty())
}

/// How an attribute element maps onto the record.
pub open spec fn attribute_matches(e: XmlElement, a: Attribute) -> bool {
    &&& attr_of(e, "name"@) == Some(a.name@)
    &&& attr_of(e, "value"@) == Some(a.value@)
}

impl Attribute {
    pub fn from_element(e: &XmlElement) -> (r: Result<Attribute, ParserError>)
        ensures
            r matches Err(err) ==> err is Xml,
            r matches Ok(a) ==> attribute_matches(*e, a),
            r is Ok <==> attribute_ok(*e),
    {
        let attr_names: [&str; 2] = ["name", "value"];
        let child_names: [&str; 0] = [];
        if !check_attrs_within(e, &attr_names) || !check_tags_within(e, &child_names) {
            proof {
                assert(names_view(attr_names@) =~= attribute_attr_names());
                assert(names_view(child_names@) =~= Seq::<Seq<char>>::empty());
            }
            return Err(crate::xml_error("unrecognized content on an attribute element"));
        }
        proof {
            assert(names_view(attr_names@) =~= attribute_attr_names());
            assert(names_view(child_names@) =~= Seq::<Seq<char>>::empty());
        }
        let name = req_attr(e, "name")?;
        let value = req_attr(e, "value")?;
        Ok(Attribute { name, value })
    }

    pub fn name(&self) -> (r: &str)
        ensures
            r@ == self.name@,
    {
        self.name.as_str()
    }

    pub fn value(&self) -> (r: &str)
        ensures
            r@ == self.value@,
    {
        self.value.as_str()
    }
}

/// Whether every attribute child of `e` maps without error.
pub open spec fn attribute_list_ok(e: XmlElement) -> bool {
    forall|i: int|
        0 <= i < tagged_children(e.children@, "attribute"@).len() ==> attribute_ok(
            #[trigger] tagged_children(e.children@, "attribute"@)[i],
        )
}

/// How the attribute children of `e` map onto the collected list, in document
/// order.
pub open spec fn attribute_list_matches(e: XmlElement, v: Seq<Attribute>) -> bool {
    let tc = tagged_children(e.children@, "attribute"@);
    &&& v.len() == tc.len()
    &&& forall|i: int| 0 <= i < tc.len() ==> attribute_matches(#[trigger] tc[i], v[i])
}

/// Collects every attribute child of `e`, in document order.
pub fn collect_attributes(e: &XmlElement) -> (r: Result<Vec<Attribute>, ParserError>)
    ensures
        r matches Err(err) ==> err is Xml,
        r matches Ok(v) ==> attribute_list_matches(*e, v@),
        r is Ok <==> attribute_list_ok(*e),
{
    let elems = children_tagged(e, "attribute");
    let ghost tc = tagged_children(e.children@, "attribute"@);
    let n = elems.len();
    let mut out: Vec<Attribute> = Vec::new();
    let mut i: usize = 0;
    while i < n
        invariant
            n == elems@.len(),
            derefs(elems@) == tc,
            tc == tagged_children(e.children@, "attribute"@),
            i <= n,
            out@.len() == i,
            forall|j: int| 0 <= j < i ==> attribute_matches(#[trigger] tc[j], out@[j]),
            forall|j: int| 0 <= j < i ==> attribute_ok(#[trigger] tc[j]),
        decreases n - i,
    {
        proof {
            assert(tc[i as int] == derefs(elems@)[i as int]);
        }
        match Attribute::from_element(elems[i]) {
            Ok(a) => {
                out.push(a);
            },
            Err(er) => {
                return Err(er);
            },
        }
        i += 1;
    }
    Ok(out)
}

/// The value of the first pair named `name`, if any: the derived lookup by a
/// well-known name.
pub open spec fn attribute_lookup(attrs: Seq<Attribute>, name: Seq<char>) -> Option<Seq<char>>
    decreases attrs.len(),
{
    if attrs.len() == 0 {
        None
    } else if attrs[0].name@ == name {
        Some(attrs[0].value@)
    } else {
        attribute_lookup(attrs.skip(1), name)
    }
}

pub fn lookup_attribute<'a>(attrs: &'a [Attribute], name: &str) -> (r: Option<&'a str>)
    ensures
        opt_view(r) == attribute_lookup(attrs@, name@),
{
    let n = attrs.len();
    let mut i: usize = 0;
    proof {
        assert(attrs@.skip(0) =~= attrs@);
    }
    while i < n
        invariant
            n == attrs@.len(),
            i <= n,
            attribute_lookup(attrs@, name@) == attribute_lookup(attrs@.skip(i as int), name@),
        decreases n - i,
    {
        proof {
            assert(attrs@.skip(i as int)[0] == attrs@[i as int]);
            assert(attrs@.skip(i as int).skip(1) =~= attrs@.skip(i as int + 1));
        }
        if crate::xml::str_eq(attrs[i].name.as_str(), name) {
            return Some(attrs[i].value.as_str());
        }
        i += 1;
    }
    proof {
        assert(attrs@.skip(n as int) =~= Seq::<Attribute>::empty());
    }
    None
}

} // verus!
