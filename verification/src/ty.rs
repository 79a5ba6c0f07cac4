use vstd::prelude::*;

verus! {

use crate::ParserError;
use crate::array::{Array, array_ok, array_matches};
use crate::documentation::{Docs, docs_ok, docs_matches};
use crate::schema::{opt_bool_attr, attr_opt_bool};
use crate::traits::Documentable;
use crate::xml::{XmlElement, attr_of, attr_string, opt_view, opt_as_str};

/// A plain type position: a type referenced by name, not an owning reference.
#[derive(Debug)]
pub struct Type {
    pub name: Option<String>,
    pub c_type: Option<String>,
    pub introspectable: Option<bool>,
    pub docs: Docs,
}

/// A type element maps without error when its typed attributes and its
/// documentation children read back; it ignores unrecognized content for
/// forward compatibility.
pub open spec fn type_ok(e: XmlElement) -> bool {
    &&& opt_bool_attr(e, "introspectable"@) is Ok
    &&& docs_ok(e)
}

pub open spec fn type_matches(e: XmlElement, t: Type) -> bool {
    &&& opt_view(t.name) == attr_of(e, "name"@)
    &&& opt_view(t.c_type) == attr_of(e, "c:type"@)
    &&& opt_bool_attr(e, "introspectable"@) == Ok::<_, ()>(t.introspectable)
    &&& docs_matches(e, t.docs)
}

impl Type {
    pub fn from_element(e: &XmlElement) -> (r: Result<Type, ParserError>)
        ensures
            r matches Err(err) ==> err is Xml,
            r matches Ok(t) ==> type_matches(*e, t),
            r is Ok <==> type_ok(*e),
    {
        let name = attr_string(e, "name");
        let c_type = attr_string(e, "c:type");
        let introspectable = attr_opt_bool(e, "introspectable")?;
        let docs = Docs::from_children(e)?;
        Ok(Type { name, c_type, introspectable, docs })
    }

    pub fn name(&self) -> (r: Option<&str>)
        ensures
            opt_view(r) == opt_view(self.name),
    {
        opt_as_str(&self.name)
    }

    pub fn c_type(&self) -> (r: Option<&str>)
        ensures
            opt_view(r) == opt_view(self.c_type),
    {
        opt_as_str(&self.c_type)
    }

    pub fn is_introspectable(&self) -> (r: bool)
        ensures
            r == self.introspectable.unwrap_or(true),
    {
        self.introspectable.unwrap_or(true)
    }
}

impl Documentable for Type {
    open spec fn docs_spec(&self) -> Docs {
        self.docs
    }

    fn docs_group(&self) -> (r: &Docs) {
        &self.docs
    }
}

/// A type position that is either a plain type or an array: an untagged,
/// tag-dispatched choice.
#[derive(Debug)]
pub enum AnyType {
    Type(Type),
    Array(Array),
}

/// The tags an any-type position dispatches on.
pub open spec fn any_type_tags() -> Seq<Seq<char>> {
    seq!["type"@, "array"@]
}

/// Whether an element in an any-type position maps without error: its tag
/// picks the variant.
pub open spec fn any_type_ok(e: XmlElement) -> bool
    decreases e, 1int,
{
    if e.tag@ == "type"@ {
        type_ok(e)
    } else if e.tag@ == "array"@ {
        array_ok(e)
    } else {
        false
    }
}

/// How an element in an any-type position maps onto the variant.
pub open spec fn any_type_matches(e: XmlElement, t: AnyType) -> bool
    decreases e, 1int,
{
    match t {
        AnyType::Type(x) => e.tag@ == "type"@ && type_matches(e, x),
        AnyType::Array(a) => e.tag@ == "array"@ && array_matches(e, a),
    }
}

impl AnyType {
    /// Maps an element whose tag already matched the any-type dispatch.
    pub fn from_element(e: &XmlElement) -> (r: Result<AnyType, ParserError>)
        ensures
            r matches Err(err) ==> err is Xml,
            r matches Ok(t) ==> any_type_matches(*e, t),
            r is Ok <==> any_type_ok(*e),
        decreases *e, 1int,
    {
        if crate::xml::str_eq(e.tag.as_str(), "type") {
            match Type::from_element(e) {
                Ok(t) => Ok(AnyType::Type(t)),
                Err(er) => Err(er),
            }
        } else if crate::xml::str_eq(e.tag.as_str(), "array") {
            match Array::from_element(e) {
                Ok(a) => Ok(AnyType::Array(a)),
                Err(er) => Err(er),
            }
        } else {
            Err(crate::xml_error("an element does not fit a type position"))
        }
    }

    pub fn is_array(&self) -> (r: bool)
        ensures
            r == (*self is Array),
    {
        matches!(self, AnyType::Array(_))
    }

    pub fn as_array(&self) -> (r: &Array)
        requires
            *self is Array,
        ensures
            *self == AnyType::Array(*r),
    {
        match self {
            AnyType::Array(a) => a,
            AnyType::Type(_) => unreached(),
        }
    }

    pub fn is_type(&self) -> (r: bool)
        ensures
            r == (*self is Type),
    {
        matches!(self, AnyType::Type(_))
    }

    pub fn as_type(&self) -> (r: &Type)
        requires
            *self is Type,
        ensures
            *self == AnyType::Type(*r),
    {
        match self {
            AnyType::Type(t) => t,
            AnyType::Array(_) => unreached(),
        }
    }
}

} // verus!
