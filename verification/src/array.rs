use vstd::prelude::*;

verus! {

use crate::ParserError;
use crate::ty::{AnyType, any_type_ok, any_type_matches, any_type_tags};
use crate::schema::{opt_bool_attr, opt_uint_attr, attr_opt_bool, attr_opt_usize};
use crate::xml::{XmlElement, attr_of, attrs_within, tags_within, first_tagged_any, names_view,
    opt_view, opt_view_nat_usize, check_attrs_within, check_tags_within, first_child_any,
    attr_string, opt_as_str, lemma_first_tagged_any_contained, lemma_child_decreases};

/// An array shape in a type position: the element type plus the optional
/// fixed-size or length-parameter-index sizing.
#[derive(Debug)]
pub struct Array {
    pub name: Option<String>,
    pub c_type: Option<String>,
    pub length: Option<usize>,
    pub zero_terminated: Option<bool>,
    pub fixed_size: Option<usize>,
    pub introspectable: Option<bool>,
    pub ty: Box<AnyType>,
}

pub open spec fn array_attr_names() -> Seq<Seq<char>> {
    seq!["name"@, "c:type"@, "length"@, "zero-terminated"@, "fixed-size"@, "introspectable"@]
}

/// An array element maps without error when its typed attributes read back,
/// nothing undeclared is present, and its one type-position child is there and
/// maps itself.
pub open spec fn array_ok(e: XmlElement) -> bool
    decreases e, 0int,
    when true
    via array_ok_decreases
{
    &&& attrs_within(e.attrs@, array_attr_names())
    &&& tags_within(e.children@, any_type_tags())
    &&& opt_uint_attr(e, "length"@, usize::MAX as nat) is Ok
    &&& opt_bool_attr(e, "zero-terminated"@) is Ok
    &&& opt_uint_attr(e, "fixed-size"@, usize::MAX as nat) is Ok
    &&& opt_bool_attr(e, "introspectable"@) is Ok
    &&& match first_tagged_any(e.children@, any_type_tags()) {
        Some(c) => any_type_ok(c),
        None => false,
    }
}

#[via_fn]
proof fn array_ok_decreases(e: XmlElement) {
    match first_tagged_any(e.children@, any_type_tags()) {
        Some(c) => {
            lemma_first_tagged_any_contained(e.children@, any_type_tags());
            lemma_child_decreases(e, c);
        },
        None => {},
    }
}

pub open spec fn array_matches(e: XmlElement, a: Array) -> bool
    decreases e, 0int,
    when true
    via array_matches_decreases
{
    &&& opt_view(a.name) == attr_of(e, "name"@)
    &&& opt_view(a.c_type) == attr_of(e, "c:type"@)
    &&& opt_uint_attr(e, "length"@, usize::MAX as nat) == Ok::<_, ()>(opt_view_nat_usize(a.length))
    &&& opt_bool_attr(e, "zero-terminated"@) == Ok::<_, ()>(a.zero_terminated)
    &&& opt_uint_attr(e, "fixed-size"@, usize::MAX as nat) == Ok::<_, ()>(
        opt_view_nat_usize(a.fixed_size),
    )
    &&& opt_bool_attr(e, "introspectable"@) == Ok::<_, ()>(a.introspectable)
    &&& match first_tagged_any(e.children@, any_type_tags()) {
        Some(c) => any_type_matches(c, *a.ty),
        None => false,
    }
}

#[via_fn]
proof fn array_matches_decreases(e: XmlElement, a: Array) {
    match first_tagged_any(e.children@, any_type_tags()) {
        Some(c) => {
            lemma_first_tagged_any_contained(e.children@, any_type_tags());
            lemma_child_decreases(e, c);
        },
        None => {},
    }
}

impl Array {
    pub fn from_element(e: &XmlElement) -> (r: Result<Array, ParserError>)
        ensures
            r matches Err(err) ==> err is Xml,
            r matches Ok(a) ==> array_matches(*e, a),
            r is Ok <==> array_ok(*e),
        decreases *e, 0int,
    {
        let attr_names: [&str; 6] = [
            "name",
            "c:type",
            "length",
            "zero-terminated",
            "fixed-size",
            "introspectable",
        ];
        let child_names: [&str; 2] = ["type", "array"];
        let within = check_attrs_within(e, &attr_names) && check_tags_within(e, &child_names);
        proof {
            assert(names_view(attr_names@) =~= array_attr_names());
            assert(names_view(child_names@) =~= any_type_tags());
        }
        if !within {
            return Err(crate::xml_error("unrecognized content on an array element"));
        }
        let name = attr_string(e, "name");
        let c_type = attr_string(e, "c:type");
        let length = attr_opt_usize(e, "length")?;
        let zero_terminated = attr_opt_bool(e, "zero-terminated")?;
        let fixed_size = attr_opt_usize(e, "fixed-size")?;
        let introspectable = attr_opt_bool(e, "introspectable")?;
        let ty = match first_child_any(e, &child_names) {
            Some(c) => {
                proof {
                    lemma_first_tagged_any_contained(e.children@, any_type_tags());
                    lemma_child_decreases(*e, *c);
                }
                Box::new(AnyType::from_element(c)?)
            },
            None => {
                return Err(crate::xml_error("an array element has no element type"));
            },
        };
        Ok(Array { name, c_type, length, zero_terminated, fixed_size, introspectable, ty })
    }

    pub fn name(&self) -> (r: Option<&str>)
        ensures
            opt_view(r) == opt_view(self.name),
    {
        opt_as_str(&self.name)
    }

    pub fn c_type(&self) -> (r: Option<&str>)
        ensures
            opt_view(r) == opt_view(self.c_type),
    {
        opt_as_str(&self.c_type)
    }

    pub fn length(&self) -> (r: Option<usize>)
        ensures
            r == self.length,
    {
        self.length
    }

    pub fn is_zero_terminated(&self) -> (r: bool)
        ensures
            r == self.zero_terminated.unwrap_or(false),
    {
        self.zero_terminated.unwrap_or(false)
    }

    pub fn fixed_size(&self) -> (r: Option<usize>)
        ensures
            r == self.fixed_size,
    {
        self.fixed_size
    }

    pub fn is_introspectable(&self) -> (r: bool)
        ensures
            r == self.introspectable.unwrap_or(true),
    {
        self.introspectable.unwrap_or(true)
    }

    pub fn ty(&self) -> (r: &AnyType)
        ensures
            *r == *self.ty,
    {
        &self.ty
    }
}

} // verus!
