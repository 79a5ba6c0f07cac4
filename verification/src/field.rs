use vstd::prelude::*;

verus! {

use crate::ParserError;
use crate::attribute::{Attribute, attribute_list_ok, attribute_list_matches, collect_attributes};
use crate::documentation::{Docs, docs_ok, docs_matches};
use crate::traits::{Documentable, Attributable, Info, InfoAttrs, info_ok, info_matches};
use crate::schema::{req_attr_spec, opt_bool_attr, req_attr, attr_opt_bool};
use crate::xml::{XmlElement, attr_of, attrs_within, tags_within, first_tagged, names_view,
    opt_view, opt_deref, check_attrs_within, check_tags_within, first_child, attr_string,
    opt_as_str};
use crate::array::{Array, array_ok, array_matches};
use crate::callback::{Callback, callback_ok, callback_matches};
use crate::ty::{Type, type_ok, type_matches};
use crate::schema::{opt_uint_attr, attr_opt_u8};
use crate::xml::{first_tagged_any, first_child_any, opt_view_nat, str_eq};

/// The tagged choice a field's type position dispatches on.
#[derive(Debug)]
pub enum FieldType {
    Type(Type),
    Callback(Callback),
    Array(Array),
}

pub open spec fn field_type_tags() -> Seq<Seq<char>> {
    seq!["type"@, "callback"@, "array"@]
}

pub open spec fn field_type_ok(e: XmlElement) -> bool {
    if e.tag@ == "type"@ {
        type_ok(e)
    } else if e.tag@ == "callback"@ {
        callback_ok(e)
    } else if e.tag@ == "array"@ {
        array_ok(e)
    } else {
        false
    }
}

pub open spec fn field_type_matches(e: XmlElement, t: FieldType) -> bool {
    match t {
        FieldType::Type(x) => e.tag@ == "type"@ && type_matches(e, x),
        FieldType::Callback(c) => e.tag@ == "callback"@ && callback_matches(e, c),
        FieldType::Array(a) => e.tag@ == "array"@ && array_matches(e, a),
    }
}

impl FieldType {
    /// Maps an element whose tag already matched the dispatch set.
    pub fn from_element(e: &XmlElement) -> (r: Result<FieldType, ParserError>)
        ensures
            r matches Err(err) ==> err is Xml,
            r matches Ok(t) ==> field_type_matches(*e, t),
            r is Ok <==> field_type_ok(*e),
    {
        if str_eq(e.tag.as_str(), "type") {
            match Type::from_element(e) {
                Ok(t) => Ok(FieldType::Type(t)),
                Err(er) => Err(er),
            }
        } else if str_eq(e.tag.as_str(), "callback") {
            match Callback::from_element(e) {
                Ok(c) => Ok(FieldType::Callback(c)),
                Err(er) => Err(er),
            }
        } else if str_eq(e.tag.as_str(), "array") {
            match Array::from_element(e) {
                Ok(a) => Ok(FieldType::Array(a)),
                Err(er) => Err(er),
            }
        } else {
            Err(crate::xml_error("an element does not fit a field type position"))
        }
    }

    pub fn is_type(&self) -> (r: bool)
        ensures
            r == (*self is Type),
    {
        matches!(self, FieldType::Type(_))
    }

    /// The plain type this field holds.
    pub fn as_type(&self) -> (r: &Type)
        requires
            *self is Type,
        ensures
            *self == FieldType::Type(*r),
    {
        match self {
            FieldType::Type(t) => t,
            _ => unreached(),
        }
    }

    pub fn is_callback(&self) -> (r: bool)
        ensures
            r == (*self is Callback),
    {
        matches!(self, FieldType::Callback(_))
    }

    /// The callback this field holds.
    pub fn as_callback(&self) -> (r: &Callback)
        requires
            *self is Callback,
        ensures
            *self == FieldType::Callback(*r),
    {
        match self {
            FieldType::Callback(c) => c,
            _ => unreached(),
        }
    }

    pub fn is_array(&self) -> (r: bool)
        ensures
            r == (*self is Array),
    {
        matches!(self, FieldType::Array(_))
    }

    /// The array shape this field holds.
    pub fn as_array(&self) -> (r: &Array)
        requires
            *self is Array,
        ensures
            *self == FieldType::Array(*r),
    {
        match self {
            FieldType::Array(a) => a,
            _ => unreached(),
        }
    }
}

/// One field of a record, union, class or interface: a tagged choice of a plain type, a callback, or an array shape.
#[derive(Debug)]
pub struct Field {
    pub name: String,
    pub readable: Option<bool>,
    pub writable: Option<bool>,
    pub nullable: Option<bool>,
    pub private: Option<bool>,
    pub bits: Option<u8>,
    pub docs: Docs,
    pub info: InfoAttrs,
    pub attributes: Vec<Attribute>,
    pub type_: FieldType,
}

pub open spec fn field_attr_names() -> Seq<Seq<char>> {
    seq!["name"@, "readable"@, "writable"@, "nullable"@, "private"@, "bits"@, "introspectable"@, "deprecated"@, "version"@, "deprecated-version"@, "stability"@]
}

pub open spec fn field_child_names() -> Seq<Seq<char>> {
    seq!["doc"@, "doc-deprecated"@, "doc-stability"@, "doc-version"@, "source-position"@, "attribute"@, "type"@, "callback"@, "array"@]
}

/// Whether a field element maps onto the record without a structural error.
pub open spec fn field_ok(e: XmlElement) -> bool {
    &&& attrs_within(e.attrs@, field_attr_names())
    &&& tags_within(e.children@, field_child_names())
    &&& req_attr_spec(e, "name"@) is Ok
    &&& opt_bool_attr(e, "readable"@) is Ok
    &&& opt_bool_attr(e, "writable"@) is Ok
    &&& opt_bool_attr(e, "nullable"@) is Ok
    &&& opt_bool_attr(e, "private"@) is Ok
    &&& opt_uint_attr(e, "bits"@, u8::MAX as nat) is Ok
    &&& docs_ok(e)
    &&& info_ok(e)
    &&& attribute_list_ok(e)
    &&& match first_tagged_any(e.children@, field_type_tags()) {
        Some(c) => field_type_ok(c),
        None => false,
    }
}

/// How a field element maps onto the record, field for field.
pub open spec fn field_matches(e: XmlElement, x: Field) -> bool {
    &&& req_attr_spec(e, "name"@) == Ok::<_, ()>(x.name@)
    &&& opt_bool_attr(e, "readable"@) == Ok::<_, ()>(x.readable)
    &&& opt_bool_attr(e, "writable"@) == Ok::<_, ()>(x.writable)
    &&& opt_bool_attr(e, "nullable"@) == Ok::<_, ()>(x.nullable)
    &&& opt_bool_attr(e, "private"@) == Ok::<_, ()>(x.private)
    &&& opt_uint_attr(e, "bits"@, u8::MAX as nat) == Ok::<_, ()>(opt_view_nat(x.bits))
    &&& docs_matches(e, x.docs)
    &&& info_matches(e, x.info)
    &&& attribute_list_matches(e, x.attributes@)
    &&& match first_tagged_any(e.children@, field_type_tags()) {
        Some(c) => field_type_matches(c, x.type_),
        None => false,
    }
}

impl Field {
    pub fn from_element(e: &XmlElement) -> (r: Result<Field, ParserError>)
        ensures
            r matches Err(err) ==> err is Xml,
            r matches Ok(x) ==> field_matches(*e, x),
            r is Ok <==> field_ok(*e),
    {
        let attr_names: [&str; 11] = [
            "name",
            "readable",
            "writable",
            "nullable",
            "private",
            "bits",
            "introspectable",
            "deprecated",
            "version",
            "deprecated-version",
            "stability",
        ];
        let child_names: [&str; 9] = [
            "doc",
            "doc-deprecated",
            "doc-stability",
            "doc-version",
            "source-position",
            "attribute",
            "type",
            "callback",
            "array",
        ];
        let within = check_attrs_within(e, &attr_names) && check_tags_within(e, &child_names);
        proof {
            assert(names_view(attr_names@) =~= field_attr_names());
            assert(names_view(child_names@) =~= field_child_names());
        }
        if !within {
            return Err(crate::xml_error("unrecognized content on an element"));
        }
        let name = req_attr(e, "name")?;
        let readable = attr_opt_bool(e, "readable")?;
        let writable = attr_opt_bool(e, "writable")?;
        let nullable = attr_opt_bool(e, "nullable")?;
        let private = attr_opt_bool(e, "private")?;
        let bits = attr_opt_u8(e, "bits")?;
        let docs = Docs::from_children(e)?;
        let info = InfoAttrs::from_attrs(e)?;
        let attributes = collect_attributes(e)?;
        let tag_names: [&str; 3] = ["type", "callback", "array"];
        proof {
            assert(names_view(tag_names@) =~= field_type_tags());
        }
        let type_ = match first_child_any(e, &tag_names) {
            Some(c) => FieldType::from_element(c)?,
            None => {
                return Err(crate::xml_error("a required child element is absent"));
            },
        };
        Ok(Field { name, readable, writable, nullable, private, bits, docs, info, attributes, type_ })
    }

    pub fn name(&self) -> (r: &str)
        ensures
            r@ == self.name@,
    {
        self.name.as_str()
    }

    pub fn is_readable(&self) -> (r: bool)
        ensures
            r == self.readable.unwrap_or(false),
    {
        self.readable.unwrap_or(false)
    }

    pub fn is_writable(&self) -> (r: bool)
        ensures
            r == self.writable.unwrap_or(false),
    {
        self.writable.unwrap_or(false)
    }

    pub fn is_private(&self) -> (r: bool)
        ensures
            r == self.private.unwrap_or(false),
    {
        self.private.unwrap_or(false)
    }

    pub fn bits(&self) -> (r: Option<u8>)
        ensures
            r == self.bits,
    {
        self.bits
    }

    pub fn ty(&self) -> (r: &FieldType)
        ensures
            *r == self.type_,
    {
        &self.type_
    }

}

impl Documentable for Field {
    open spec fn docs_spec(&self) -> Docs {
        self.docs
    }

    fn docs_group(&self) -> (r: &Docs) {
        &self.docs
    }
}

impl Attributable for Field {
    open spec fn attributes_spec(&self) -> Seq<Attribute> {
        self.attributes@
    }

    fn attributes(&self) -> (r: &[Attribute]) {
        self.attributes.as_slice()
    }
}

impl Info for Field {
    open spec fn info_spec(&self) -> InfoAttrs {
        self.info
    }

    fn info_group(&self) -> (r: &InfoAttrs) {
        &self.info
    }
}

} // verus!
