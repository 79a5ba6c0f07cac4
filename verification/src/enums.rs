use vstd::prelude::*;

verus! {

use crate::ParserError;
use crate::attribute::{Attribute, attribute_list_ok, attribute_list_matches, collect_attributes};
use crate::documentation::{Docs, docs_ok, docs_matches};
use crate::traits::{Documentable, Attributable, Info, InfoAttrs, info_ok, info_matches};
use crate::schema::{req_attr_spec, opt_bool_attr, req_attr, attr_opt_bool};
use crate::xml::{XmlElement, attr_of, attrs_within, tags_within, first_tagged, tagged_children,
    names_view, opt_view, opt_deref, check_attrs_within, check_tags_within, first_child,
    children_tagged, derefs, attr_string, opt_as_str};
use crate::function::{Function, function_ok, function_matches, FunctionInline,
    function_inline_ok, function_inline_matches};
use crate::member::{Member, member_ok, member_matches};

/// An enumeration declaration: named values with their functions.
#[derive(Debug)]
pub struct Enumeration {
    pub name: String,
    pub c_type: String,
    pub g_get_type: Option<String>,
    pub g_type_name: Option<String>,
    pub g_error_domain: Option<String>,
    pub docs: Docs,
    pub info: InfoAttrs,
    pub attributes: Vec<Attribute>,
    pub members: Vec<Member>,
    pub functions: Vec<Function>,
    pub inline_functions: Vec<FunctionInline>,
}

pub open spec fn enumeration_attr_names() -> Seq<Seq<char>> {
    seq!["name"@, "c:type"@, "glib:get-type"@, "glib:type-name"@, "glib:error-domain"@, "introspectable"@, "deprecated"@, "version"@, "deprecated-version"@, "stability"@]
}

pub open spec fn enumeration_child_names() -> Seq<Seq<char>> {
    seq!["doc"@, "doc-deprecated"@, "doc-stability"@, "doc-version"@, "source-position"@, "attribute"@, "member"@, "function"@, "function-inline"@]
}

/// Whether a enumeration element maps onto the record without a structural error.
pub open spec fn enumeration_ok(e: XmlElement) -> bool {
    &&& attrs_within(e.attrs@, enumeration_attr_names())
    &&& tags_within(e.children@, enumeration_child_names())
    &&& req_attr_spec(e, "name"@) is Ok
    &&& req_attr_spec(e, "c:type"@) is Ok
    &&& docs_ok(e)
    &&& info_ok(e)
    &&& attribute_list_ok(e)
    &&& forall|i: int|
        0 <= i < tagged_children(e.children@, "member"@).len() ==> member_ok(
            #[trigger] tagged_children(e.children@, "member"@)[i],
        )
    &&& forall|i: int|
        0 <= i < tagged_children(e.children@, "function"@).len() ==> function_ok(
            #[trigger] tagged_children(e.children@, "function"@)[i],
        )
    &&& forall|i: int|
        0 <= i < tagged_children(e.children@, "function-inline"@).len() ==> function_inline_ok(
            #[trigger] tagged_children(e.children@, "function-inline"@)[i],
        )
}

/// How a enumeration element maps onto the record, field for field.
pub open spec fn enumeration_matches(e: XmlElement, x: Enumeration) -> bool {
    &&& req_attr_spec(e, "name"@) == Ok::<_, ()>(x.name@)
    &&& req_attr_spec(e, "c:type"@) == Ok::<_, ()>(x.c_type@)
    &&& opt_view(x.g_get_type) == attr_of(e, "glib:get-type"@)
    &&& opt_view(x.g_type_name) == attr_of(e, "glib:type-name"@)
    &&& opt_view(x.g_error_domain) == attr_of(e, "glib:error-domain"@)
    &&& docs_matches(e, x.docs)
    &&& info_matches(e, x.info)
    &&& attribute_list_matches(e, x.attributes@)
    &&& x.members@.len() == tagged_children(e.children@, "member"@).len()
    &&& forall|i: int|
        0 <= i < tagged_children(e.children@, "member"@).len() ==> member_matches(
            #[trigger] tagged_children(e.children@, "member"@)[i],
            x.members@[i],
        )
    &&& x.functions@.len() == tagged_children(e.children@, "function"@).len()
    &&& forall|i: int|
        0 <= i < tagged_children(e.children@, "function"@).len() ==> function_matches(
            #[trigger] tagged_children(e.children@, "function"@)[i],
            x.functions@[i],
        )
    &&& x.inline_functions@.len() == tagged_children(e.children@, "function-inline"@).len()
    &&& forall|i: int|
        0 <= i < tagged_children(e.children@, "function-inline"@).len() ==> function_inline_matches(
            #[trigger] tagged_children(e.children@, "function-inline"@)[i],
            x.inline_functions@[i],
        )
}

fn collect_members_of_enumeration(e: &XmlElement) -> (r: Result<Vec<Member>, ParserError>)
    ensures
        r matches Err(err) ==> err is Xml,
        r matches Ok(v) ==> v@.len() == tagged_children(e.children@, "member"@).len()
            && forall|i: int|
            0 <= i < tagged_children(e.children@, "member"@).len() ==> member_matches(
                #[trigger] tagged_children(e.children@, "member"@)[i],
                v@[i],
            ),
        r is Ok <==> forall|i: int|
            0 <= i < tagged_children(e.children@, "member"@).len() ==> member_ok(
                #[trigger] tagged_children(e.children@, "member"@)[i],
            ),
{
    let elems = children_tagged(e, "member");
    let ghost tc = tagged_children(e.children@, "member"@);
    let n = elems.len();
    let mut out: Vec<Member> = Vec::new();
    let mut i: usize = 0;
    while i < n
        invariant
            n == elems@.len(),
            derefs(elems@) == tc,
            tc == tagged_children(e.children@, "member"@),
            i <= n,
            out@.len() == i,
            forall|j: int| 0 <= j < i ==> member_matches(#[trigger] tc[j], out@[j]),
            forall|j: int| 0 <= j < i ==> member_ok(#[trigger] tc[j]),
        decreases n - i,
    {
        proof {
            assert(tc[i as int] == derefs(elems@)[i as int]);
        }
        match Member::from_element(elems[i]) {
            Ok(a) => {
                out.push(a);
            },
            Err(er) => {
                return Err(er);
            },
        }
        i += 1;
    }
    Ok(out)
}

fn collect_functions_of_enumeration(e: &XmlElement) -> (r: Result<Vec<Function>, ParserError>)
    ensures
        r matches Err(err) ==> err is Xml,
        r matches Ok(v) ==> v@.len() == tagged_children(e.children@, "function"@).len()
            && forall|i: int|
            0 <= i < tagged_children(e.children@, "function"@).len() ==> function_matches(
                #[trigger] tagged_children(e.children@, "function"@)[i],
                v@[i],
            ),
        r is Ok <==> forall|i: int|
            0 <= i < tagged_children(e.children@, "function"@).len() ==> function_ok(
                #[trigger] tagged_children(e.children@, "function"@)[i],
            ),
{
    let elems = children_tagged(e, "function");
    let ghost tc = tagged_children(e.children@, "function"@);
    let n = elems.len();
    let mut out: Vec<Function> = Vec::new();
    let mut i: usize = 0;
    while i < n
        invariant
            n == elems@.len(),
            derefs(elems@) == tc,
            tc == tagged_children(e.children@, "function"@),
            i <= n,
            out@.len() == i,
            forall|j: int| 0 <= j < i ==> function_matches(#[trigger] tc[j], out@[j]),
            forall|j: int| 0 <= j < i ==> function_ok(#[trigger] tc[j]),
        decreases n - i,
    {
        proof {
            assert(tc[i as int] == derefs(elems@)[i as int]);
        }
        match Function::from_element(elems[i]) {
            Ok(a) => {
                out.push(a);
            },
            Err(er) => {
                return Err(er);
            },
        }
        i += 1;
    }
    Ok(out)
}

fn collect_inline_functions_of_enumeration(e: &XmlElement) -> (r: Result<Vec<FunctionInline>, ParserError>)
    ensures
        r matches Err(err) ==> err is Xml,
        r matches Ok(v) ==> v@.len() == tagged_children(e.children@, "function-inline"@).len()
            && forall|i: int|
            0 <= i < tagged_children(e.children@, "function-inline"@).len() ==> function_inline_matches(
                #[trigger] tagged_children(e.children@, "function-inline"@)[i],
                v@[i],
            ),
        r is Ok <==> forall|i: int|
            0 <= i < tagged_children(e.children@, "function-inline"@).len() ==> function_inline_ok(
                #[trigger] tagged_children(e.children@, "function-inline"@)[i],
            ),
{
    let elems = children_tagged(e, "function-inline");
    let ghost tc = tagged_children(e.children@, "function-inline"@);
    let n = elems.len();
    let mut out: Vec<FunctionInline> = Vec::new();
    let mut i: usize = 0;
    while i < n
        invariant
            n == elems@.len(),
            derefs(elems@) == tc,
            tc == tagged_children(e.children@, "function-inline"@),
            i <= n,
            out@.len() == i,
            forall|j: int| 0 <= j < i ==> function_inline_matches(#[trigger] tc[j], out@[j]),
            forall|j: int| 0 <= j < i ==> function_inline_ok(#[trigger] tc[j]),
        decreases n - i,
    {
        proof {
            assert(tc[i as int] == derefs(elems@)[i as int]);
        }
        match FunctionInline::from_element(elems[i]) {
            Ok(a) => {
                out.push(a);
            },
            Err(er) => {
                return Err(er);
            },
        }
        i += 1;
    }
    Ok(out)
}

impl Enumeration {
    pub fn from_element(e: &XmlElement) -> (r: Result<Enumeration, ParserError>)
        ensures
            r matches Err(err) ==> err is Xml,
            r matches Ok(x) ==> enumeration_matches(*e, x),
            r is Ok <==> enumeration_ok(*e),
    {
        let attr_names: [&str; 10] = [
            "name",
            "c:type",
            "glib:get-type",
            "glib:type-name",
            "glib:error-domain",
            "introspectable",
            "deprecated",
            "version",
            "deprecated-version",
            "stability",
        ];
        let child_names: [&str; 9] = [
            "doc",
            "doc-deprecated",
            "doc-stability",
            "doc-version",
            "source-position",
            "attribute",
            "member",
            "function",
            "function-inline",
        ];
        let within = check_attrs_within(e, &attr_names) && check_tags_within(e, &child_names);
        proof {
            assert(names_view(attr_names@) =~= enumeration_attr_names());
            assert(names_view(child_names@) =~= enumeration_child_names());
        }
        if !within {
            return Err(crate::xml_error("unrecognized content on an element"));
        }
        let name = req_attr(e, "name")?;
        let c_type = req_attr(e, "c:type")?;
        let g_get_type = attr_string(e, "glib:get-type");
        let g_type_name = attr_string(e, "glib:type-name");
        let g_error_domain = attr_string(e, "glib:error-domain");
        let docs = Docs::from_children(e)?;
        let info = InfoAttrs::from_attrs(e)?;
        let attributes = collect_attributes(e)?;
        let members = collect_members_of_enumeration(e)?;
        let functions = collect_functions_of_enumeration(e)?;
        let inline_functions = collect_inline_functions_of_enumeration(e)?;
        Ok(Enumeration { name, c_type, g_get_type, g_type_name, g_error_domain, docs, info, attributes, members, functions, inline_functions })
    }

    pub fn name(&self) -> (r: &str)
        ensures
            r@ == self.name@,
    {
        self.name.as_str()
    }

    pub fn c_type(&self) -> (r: &str)
        ensures
            r@ == self.c_type@,
    {
        self.c_type.as_str()
    }

    pub fn g_get_type(&self) -> (r: Option<&str>)
        ensures
            opt_view(r) == opt_view(self.g_get_type),
    {
        opt_as_str(&self.g_get_type)
    }

    pub fn g_type_name(&self) -> (r: Option<&str>)
        ensures
            opt_view(r) == opt_view(self.g_type_name),
    {
        opt_as_str(&self.g_type_name)
    }

    pub fn g_error_domain(&self) -> (r: Option<&str>)
        ensures
            opt_view(r) == opt_view(self.g_error_domain),
    {
        opt_as_str(&self.g_error_domain)
    }

    pub fn members(&self) -> (r: &[Member])
        ensures
            r@ == self.members@,
    {
        self.members.as_slice()
    }

    pub fn functions(&self) -> (r: &[Function])
        ensures
            r@ == self.functions@,
    {
        self.functions.as_slice()
    }

    pub fn inlined_functions(&self) -> (r: &[FunctionInline])
        ensures
            r@ == self.inline_functions@,
    {
        self.inline_functions.as_slice()
    }

}

impl Documentable for Enumeration {
    open spec fn docs_spec(&self) -> Docs {
        self.docs
    }

    fn docs_group(&self) -> (r: &Docs) {
        &self.docs
    }
}

impl Attributable for Enumeration {
    open spec fn attributes_spec(&self) -> Seq<Attribute> {
        self.attributes@
    }

    fn attributes(&self) -> (r: &[Attribute]) {
        self.attributes.as_slice()
    }
}

impl Info for Enumeration {
    open spec fn info_spec(&self) -> InfoAttrs {
        self.info
    }

    fn info_group(&self) -> (r: &InfoAttrs) {
        &self.info
    }
}

} // verus!
