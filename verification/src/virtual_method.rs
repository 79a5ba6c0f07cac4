use vstd::prelude::*;

verus! {

use crate::ParserError;
use crate::attribute::{Attribute, attribute_list_ok, attribute_list_matches, collect_attributes};
use crate::documentation::{Docs, docs_ok, docs_matches};
use crate::traits::{Documentable, Attributable, Info, Callable, InfoAttrs, CallableAttrs,
    info_ok, info_matches, callable_ok, callable_matches};
use crate::schema::{req_attr_spec, opt_bool_attr, req_attr, attr_opt_bool};
use crate::xml::{XmlElement, attr_of, attrs_within, tags_within, first_tagged, names_view,
    opt_view, opt_deref, check_attrs_within, check_tags_within, first_child, attr_string,
    opt_as_str};
use crate::parameter::{Parameters, parameters_ok, parameters_matches, parameters_is_default};
use crate::return_value::{ReturnValue, return_value_ok, return_value_matches};

/// A virtual method of a class or interface.
#[derive(Debug)]
pub struct VirtualMethod {
    pub invoker: Option<String>,
    pub docs: Docs,
    pub info: InfoAttrs,
    pub callable: CallableAttrs,
    pub attributes: Vec<Attribute>,
    pub return_value: ReturnValue,
    pub parameters: Parameters,
}

/// Whether a virtual-method element maps onto the record without a structural error.
pub open spec fn virtual_method_ok(e: XmlElement) -> bool {
    &&& docs_ok(e)
    &&& info_ok(e)
    &&& callable_ok(e)
    &&& attribute_list_ok(e)
    &&& match first_tagged(e.children@, "return-value"@) {
        Some(c) => return_value_ok(c),
        None => false,
    }
    &&& match first_tagged(e.children@, "parameters"@) {
        Some(c) => parameters_ok(c),
        None => true,
    }
}

/// How a virtual-method element maps onto the record, field for field.
pub open spec fn virtual_method_matches(e: XmlElement, x: VirtualMethod) -> bool {
    &&& opt_view(x.invoker) == attr_of(e, "invoker"@)
    &&& docs_matches(e, x.docs)
    &&& info_matches(e, x.info)
    &&& callable_matches(e, x.callable)
    &&& attribute_list_matches(e, x.attributes@)
    &&& match first_tagged(e.children@, "return-value"@) {
        Some(c) => return_value_matches(c, x.return_value),
        None => false,
    }
    &&& match first_tagged(e.children@, "parameters"@) {
        Some(c) => parameters_matches(c, x.parameters),
        None => parameters_is_default(x.parameters),
    }
}

impl VirtualMethod {
    pub fn from_element(e: &XmlElement) -> (r: Result<VirtualMethod, ParserError>)
        ensures
            r matches Err(err) ==> err is Xml,
            r matches Ok(x) ==> virtual_method_matches(*e, x),
            r is Ok <==> virtual_method_ok(*e),
    {
        let invoker = attr_string(e, "invoker");
        let docs = Docs::from_children(e)?;
        let info = InfoAttrs::from_attrs(e)?;
        let callable = CallableAttrs::from_attrs(e)?;
        let attributes = collect_attributes(e)?;
        let return_value = match first_child(e, "return-value") {
            Some(c) => ReturnValue::from_element(c)?,
            None => {
                return Err(crate::xml_error("a required child element is absent"));
            },
        };
        let parameters = match first_child(e, "parameters") {
            Some(c) => Parameters::from_element(c)?,
            None => Parameters::default(),
        };
        Ok(VirtualMethod { invoker, docs, info, callable, attributes, return_value, parameters })
    }

    pub fn invoker(&self) -> (r: Option<&str>)
        ensures
            opt_view(r) == opt_view(self.invoker),
    {
        opt_as_str(&self.invoker)
    }

    pub fn parameters(&self) -> (r: &Parameters)
        ensures
            *r == self.parameters,
    {
        &self.parameters
    }

    pub fn return_value(&self) -> (r: &ReturnValue)
        ensures
            *r == self.return_value,
    {
        &self.return_value
    }

}

impl Documentable for VirtualMethod {
    open spec fn docs_spec(&self) -> Docs {
        self.docs
    }

    fn docs_group(&self) -> (r: &Docs) {
        &self.docs
    }
}

impl Attributable for VirtualMethod {
    open spec fn attributes_spec(&self) -> Seq<Attribute> {
        self.attributes@
    }

    fn attributes(&self) -> (r: &[Attribute]) {
        self.attributes.as_slice()
    }
}

impl Info for VirtualMethod {
    open spec fn info_spec(&self) -> InfoAttrs {
        self.info
    }

    fn info_group(&self) -> (r: &InfoAttrs) {
        &self.info
    }
}

impl Callable for VirtualMethod {
    open spec fn callable_spec(&self) -> CallableAttrs {
        self.callable
    }

    fn callable_group(&self) -> (r: &CallableAttrs) {
        &self.callable
    }
}

} // verus!
