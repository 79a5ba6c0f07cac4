use vstd::prelude::*;

verus! {

use crate::ParserError;
use crate::attribute::{Attribute, attribute_list_ok, attribute_list_matches, collect_attributes};
use crate::documentation::{Docs, docs_ok, docs_matches};
use crate::traits::{Documentable, Attributable, Info, InfoAttrs, info_ok, info_matches};
use crate::schema::{req_attr_spec, opt_bool_attr, req_attr, attr_opt_bool};
use crate::xml::{XmlElement, attr_of, first_tagged, names_view, opt_view, opt_deref,
    first_child, attr_string, opt_as_str};
use crate::ty::{AnyType, any_type_ok, any_type_matches, any_type_tags};
use crate::xml::{first_tagged_any, first_child_any};

/// A constant declaration with its value and its type position.
#[derive(Debug)]
pub struct Constant {
    pub name: String,
    pub value: String,
    pub c_type: Option<String>,
    pub c_identifier: Option<String>,
    pub docs: Docs,
    pub info: InfoAttrs,
    pub attributes: Vec<Attribute>,
    pub type_: AnyType,
}

/// Whether a constant element maps onto the record without a structural error;
/// unrecognized attributes and children are ignored for forward compatibility.
pub open spec fn constant_ok(e: XmlElement) -> bool {
    &&& req_attr_spec(e, "name"@) is Ok
    &&& req_attr_spec(e, "value"@) is Ok
    &&& docs_ok(e)
    &&& info_ok(e)
    &&& attribute_list_ok(e)
    &&& match first_tagged_any(e.children@, any_type_tags()) {
        Some(c) => any_type_ok(c),
        None => false,
    }
}

/// How a constant element maps onto the record, field for field.
pub open spec fn constant_matches(e: XmlElement, x: Constant) -> bool {
    &&& req_attr_spec(e, "name"@) == Ok::<_, ()>(x.name@)
    &&& req_attr_spec(e, "value"@) == Ok::<_, ()>(x.value@)
    &&& opt_view(x.c_type) == attr_of(e, "c:type"@)
    &&& opt_view(x.c_identifier) == attr_of(e, "c:identifier"@)
    &&& docs_matches(e, x.docs)
    &&& info_matches(e, x.info)
    &&& attribute_list_matches(e, x.attributes@)
    &&& match first_tagged_any(e.children@, any_type_tags()) {
        Some(c) => any_type_matches(c, x.type_),
        None => false,
    }
}

impl Constant {
    pub fn from_element(e: &XmlElement) -> (r: Result<Constant, ParserError>)
        ensures
            r matches Err(err) ==> err is Xml,
            r matches Ok(x) ==> constant_matches(*e, x),
            r is Ok <==> constant_ok(*e),
    {
        let name = req_attr(e, "name")?;
        let value = req_attr(e, "value")?;
        let c_type = attr_string(e, "c:type");
        let c_identifier = attr_string(e, "c:identifier");
        let docs = Docs::from_children(e)?;
        let info = InfoAttrs::from_attrs(e)?;
        let attributes = collect_attributes(e)?;
        let tag_names: [&str; 2] = ["type", "array"];
        proof {
            assert(names_view(tag_names@) =~= any_type_tags());
        }
        let type_ = match first_child_any(e, &tag_names) {
            Some(c) => AnyType::from_element(c)?,
            None => {
                return Err(crate::xml_error("a required child element is absent"));
            },
        };
        Ok(Constant { name, value, c_type, c_identifier, docs, info, attributes, type_ })
    }

    pub fn name(&self) -> (r: &str)
        ensures
            r@ == self.name@,
    {
        self.name.as_str()
    }

    pub fn value(&self) -> (r: &str)
        ensures
            r@ == self.value@,
    {
        self.value.as_str()
    }

    pub fn c_type(&self) -> (r: Option<&str>)
        ensures
            opt_view(r) == opt_view(self.c_type),
    {
        opt_as_str(&self.c_type)
    }

    pub fn c_identifier(&self) -> (r: Option<&str>)
        ensures
            opt_view(r) == opt_view(self.c_identifier),
    {
        opt_as_str(&self.c_identifier)
    }

    pub fn ty(&self) -> (r: &AnyType)
        ensures
            *r == self.type_,
    {
        &self.type_
    }

}

impl Documentable for Constant {
    open spec fn docs_spec(&self) -> Docs {
        self.docs
    }

    fn docs_group(&self) -> (r: &Docs) {
        &self.docs
    }
}

impl Attributable for Constant {
    open spec fn attributes_spec(&self) -> Seq<Attribute> {
        self.attributes@
    }

    fn attributes(&self) -> (r: &[Attribute]) {
        self.attributes.as_slice()
    }
}

impl Info for Constant {
    open spec fn info_spec(&self) -> InfoAttrs {
        self.info
    }

    fn info_group(&self) -> (r: &InfoAttrs) {
        &self.info
    }
}

} // verus!
