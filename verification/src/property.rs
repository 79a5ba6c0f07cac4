use vstd::prelude::*;

verus! {

use crate::ParserError;
use crate::attribute::{Attribute, attribute_list_ok, attribute_list_matches, collect_attributes};
use crate::documentation::{Docs, docs_ok, docs_matches};
use crate::traits::{Documentable, Attributable, Info, InfoAttrs, info_ok, info_matches};
use crate::schema::{req_attr_spec, opt_bool_attr, req_attr, attr_opt_bool};
use crate::xml::{XmlElement, attr_of, first_tagged, names_view, opt_view, opt_deref,
    first_child, attr_string, opt_as_str};
use crate::TransferOwnership;
use crate::ty::{AnyType, any_type_ok, any_type_matches, any_type_tags};
use crate::schema::{opt_transfer_attr, attr_opt_transfer};
use crate::xml::{first_tagged_any, first_child_any};

/// A property declaration of a class or interface.
#[derive(Debug)]
pub struct Property {
    pub name: String,
    pub readable: Option<bool>,
    pub writable: Option<bool>,
    pub construct: Option<bool>,
    pub construct_only: Option<bool>,
    pub setter: Option<String>,
    pub getter: Option<String>,
    pub default_value: Option<String>,
    pub transfer_ownership: Option<TransferOwnership>,
    pub docs: Docs,
    pub info: InfoAttrs,
    pub attributes: Vec<Attribute>,
    pub type_: AnyType,
}

/// Whether a property element maps onto the record without a structural error;
/// unrecognized attributes and children are ignored for forward compatibility.
pub open spec fn property_ok(e: XmlElement) -> bool {
    &&& req_attr_spec(e, "name"@) is Ok
    &&& opt_bool_attr(e, "readable"@) is Ok
    &&& opt_bool_attr(e, "writable"@) is Ok
    &&& opt_bool_attr(e, "construct"@) is Ok
    &&& opt_bool_attr(e, "construct-only"@) is Ok
    &&& opt_transfer_attr(e, "transfer-ownership"@) is Ok
    &&& docs_ok(e)
    &&& info_ok(e)
    &&& attribute_list_ok(e)
    &&& match first_tagged_any(e.children@, any_type_tags()) {
        Some(c) => any_type_ok(c),
        None => false,
    }
}

/// How a property element maps onto the record, field for field.
pub open spec fn property_matches(e: XmlElement, x: Property) -> bool {
    &&& req_attr_spec(e, "name"@) == Ok::<_, ()>(x.name@)
    &&& opt_bool_attr(e, "readable"@) == Ok::<_, ()>(x.readable)
    &&& opt_bool_attr(e, "writable"@) == Ok::<_, ()>(x.writable)
    &&& opt_bool_attr(e, "construct"@) == Ok::<_, ()>(x.construct)
    &&& opt_bool_attr(e, "construct-only"@) == Ok::<_, ()>(x.construct_only)
    &&& opt_view(x.setter) == attr_of(e, "setter"@)
    &&& opt_view(x.getter) == attr_of(e, "getter"@)
    &&& opt_view(x.default_value) == attr_of(e, "default-value"@)
    &&& opt_transfer_attr(e, "transfer-ownership"@) == Ok::<_, ()>(x.transfer_ownership)
    &&& docs_matches(e, x.docs)
    &&& info_matches(e, x.info)
    &&& attribute_list_matches(e, x.attributes@)
    &&& match first_tagged_any(e.children@, any_type_tags()) {
        Some(c) => any_type_matches(c, x.type_),
        None => false,
    }
}

impl Property {
    pub fn from_element(e: &XmlElement) -> (r: Result<Property, ParserError>)
        ensures
            r matches Err(err) ==> err is Xml,
            r matches Ok(x) ==> property_matches(*e, x),
            r is Ok <==> property_ok(*e),
    {
        let name = req_attr(e, "name")?;
        let readable = attr_opt_bool(e, "readable")?;
        let writable = attr_opt_bool(e, "writable")?;
        let construct = attr_opt_bool(e, "construct")?;
        let construct_only = attr_opt_bool(e, "construct-only")?;
        let setter = attr_string(e, "setter");
        let getter = attr_string(e, "getter");
        let default_value = attr_string(e, "default-value");
        let transfer_ownership = attr_opt_transfer(e, "transfer-ownership")?;
        let docs = Docs::from_children(e)?;
        let info = InfoAttrs::from_attrs(e)?;
        let attributes = collect_attributes(e)?;
        let tag_names: [&str; 2] = ["type", "array"];
        proof {
            assert(names_view(tag_names@) =~= any_type_tags());
        }
        let type_ = match first_child_any(e, &tag_names) {
            Some(c) => AnyType::from_element(c)?,
            None => {
                return Err(crate::xml_error("a required child element is absent"));
            },
        };
        Ok(Property { name, readable, writable, construct, construct_only, setter, getter, default_value, transfer_ownership, docs, info, attributes, type_ })
    }

    pub fn name(&self) -> (r: &str)
        ensures
            r@ == self.name@,
    {
        self.name.as_str()
    }

    pub fn is_readable(&self) -> (r: bool)
        ensures
            r == self.readable.unwrap_or(true),
    {
        self.readable.unwrap_or(true)
    }

    pub fn is_writable(&self) -> (r: bool)
        ensures
            r == self.writable.unwrap_or(false),
    {
        self.writable.unwrap_or(false)
    }

    pub fn is_construct(&self) -> (r: bool)
        ensures
            r == self.construct.unwrap_or(false),
    {
        self.construct.unwrap_or(false)
    }

    pub fn is_construct_only(&self) -> (r: bool)
        ensures
            r == self.construct_only.unwrap_or(false),
    {
        self.construct_only.unwrap_or(false)
    }

    pub fn getter(&self) -> (r: Option<&str>)
        ensures
            opt_view(r) == opt_view(self.getter),
    {
        opt_as_str(&self.getter)
    }

    pub fn setter(&self) -> (r: Option<&str>)
        ensures
            opt_view(r) == opt_view(self.setter),
    {
        opt_as_str(&self.setter)
    }

    pub fn default_value(&self) -> (r: Option<&str>)
        ensures
            opt_view(r) == opt_view(self.default_value),
    {
        opt_as_str(&self.default_value)
    }

    pub fn ty(&self) -> (r: &AnyType)
        ensures
            *r == self.type_,
    {
        &self.type_
    }

    /// The declared ownership transfer, none unless declared otherwise.
    pub fn transfer_ownership(&self) -> (r: TransferOwnership)
        ensures
            r == self.transfer_ownership.unwrap_or(TransferOwnership::NoTransfer),
    {
        self.transfer_ownership.unwrap_or(TransferOwnership::NoTransfer)
    }

}

impl Documentable for Property {
    open spec fn docs_spec(&self) -> Docs {
        self.docs
    }

    fn docs_group(&self) -> (r: &Docs) {
        &self.docs
    }
}

impl Attributable for Property {
    open spec fn attributes_spec(&self) -> Seq<Attribute> {
        self.attributes@
    }

    fn attributes(&self) -> (r: &[Attribute]) {
        self.attributes.as_slice()
    }
}

impl Info for Property {
    open spec fn info_spec(&self) -> InfoAttrs {
        self.info
    }

    fn info_group(&self) -> (r: &InfoAttrs) {
        &self.info
    }
}

} // verus!
