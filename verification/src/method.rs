use vstd::prelude::*;

verus! {

use crate::ParserError;
use crate::attribute::{Attribute, attribute_list_ok, attribute_list_matches, collect_attributes};
use crate::documentation::{Docs, docs_ok, docs_matches};
use crate::traits::{Documentable, Attributable, Info, Callable, InfoAttrs, CallableAttrs,
    info_ok, info_matches, callable_ok, callable_matches};
use crate::schema::{req_attr_spec, opt_bool_attr, req_attr, attr_opt_bool};
use crate::xml::{XmlElement, attr_of, attrs_within, tags_within, first_tagged, names_view,
    opt_view, opt_deref, check_attrs_within, check_tags_within, first_child, attr_string,
    opt_as_str};
use crate::parameter::{Parameters, parameters_ok, parameters_matches, parameters_is_default};
use crate::return_value::{ReturnValue, return_value_ok, return_value_matches};

/// A method declaration on a type.
#[derive(Debug)]
pub struct Method {
    pub get_property: Option<String>,
    pub set_property: Option<String>,
    pub docs: Docs,
    pub info: InfoAttrs,
    pub callable: CallableAttrs,
    pub attributes: Vec<Attribute>,
    pub return_value: ReturnValue,
    pub parameters: Parameters,
}

pub open spec fn method_attr_names() -> Seq<Seq<char>> {
    seq!["glib:get-property"@, "glib:set-property"@, "introspectable"@, "deprecated"@, "version"@, "deprecated-version"@, "stability"@, "name"@, "c:identifier"@, "shadows"@, "shadowed-by"@, "throws"@, "moved-to"@, "glib:async-func"@, "glib:finish-func"@, "glib:sync-func"@]
}

pub open spec fn method_child_names() -> Seq<Seq<char>> {
    seq!["doc"@, "doc-deprecated"@, "doc-stability"@, "doc-version"@, "source-position"@, "attribute"@, "return-value"@, "parameters"@]
}

/// Whether a method element maps onto the record without a structural error.
pub open spec fn method_ok(e: XmlElement) -> bool {
    &&& attrs_within(e.attrs@, method_attr_names())
    &&& tags_within(e.children@, method_child_names())
    &&& docs_ok(e)
    &&& info_ok(e)
    &&& callable_ok(e)
    &&& attribute_list_ok(e)
    &&& match first_tagged(e.children@, "return-value"@) {
        Some(c) => return_value_ok(c),
        None => false,
    }
    &&& match first_tagged(e.children@, "parameters"@) {
        Some(c) => parameters_ok(c),
        None => true,
    }
}

/// How a method element maps onto the record, field for field.
pub open spec fn method_matches(e: XmlElement, x: Method) -> bool {
    &&& opt_view(x.get_property) == attr_of(e, "glib:get-property"@)
    &&& opt_view(x.set_property) == attr_of(e, "glib:set-property"@)
    &&& docs_matches(e, x.docs)
    &&& info_matches(e, x.info)
    &&& callable_matches(e, x.callable)
    &&& attribute_list_matches(e, x.attributes@)
    &&& match first_tagged(e.children@, "return-value"@) {
        Some(c) => return_value_matches(c, x.return_value),
        None => false,
    }
    &&& match first_tagged(e.children@, "parameters"@) {
        Some(c) => parameters_matches(c, x.parameters),
        None => parameters_is_default(x.parameters),
    }
}

impl Method {
    pub fn from_element(e: &XmlElement) -> (r: Result<Method, ParserError>)
        ensures
            r matches Err(err) ==> err is Xml,
            r matches Ok(x) ==> method_matches(*e, x),
            r is Ok <==> method_ok(*e),
    {
        let attr_names: [&str; 16] = [
            "glib:get-property",
            "glib:set-property",
            "introspectable",
            "deprecated",
            "version",
            "deprecated-version",
            "stability",
            "name",
            "c:identifier",
            "shadows",
            "shadowed-by",
            "throws",
            "moved-to",
            "glib:async-func",
            "glib:finish-func",
            "glib:sync-func",
        ];
        let child_names: [&str; 8] = [
            "doc",
            "doc-deprecated",
            "doc-stability",
            "doc-version",
            "source-position",
            "attribute",
            "return-value",
            "parameters",
        ];
        let within = check_attrs_within(e, &attr_names) && check_tags_within(e, &child_names);
        proof {
            assert(names_view(attr_names@) =~= method_attr_names());
            assert(names_view(child_names@) =~= method_child_names());
        }
        if !within {
            return Err(crate::xml_error("unrecognized content on an element"));
        }
        let get_property = attr_string(e, "glib:get-property");
        let set_property = attr_string(e, "glib:set-property");
        let docs = Docs::from_children(e)?;
        let info = InfoAttrs::from_attrs(e)?;
        let callable = CallableAttrs::from_attrs(e)?;
        let attributes = collect_attributes(e)?;
        let return_value = match first_child(e, "return-value") {
            Some(c) => ReturnValue::from_element(c)?,
            None => {
                return Err(crate::xml_error("a required child element is absent"));
            },
        };
        let parameters = match first_child(e, "parameters") {
            Some(c) => Parameters::from_element(c)?,
            None => Parameters::default(),
        };
        Ok(Method { get_property, set_property, docs, info, callable, attributes, return_value, parameters })
    }

    pub fn get_property(&self) -> (r: Option<&str>)
        ensures
            opt_view(r) == opt_view(self.get_property),
    {
        opt_as_str(&self.get_property)
    }

    pub fn set_property(&self) -> (r: Option<&str>)
        ensures
            opt_view(r) == opt_view(self.set_property),
    {
        opt_as_str(&self.set_property)
    }

    pub fn parameters(&self) -> (r: &Parameters)
        ensures
            *r == self.parameters,
    {
        &self.parameters
    }

    pub fn return_value(&self) -> (r: &ReturnValue)
        ensures
            *r == self.return_value,
    {
        &self.return_value
    }

}

impl Documentable for Method {
    open spec fn docs_spec(&self) -> Docs {
        self.docs
    }

    fn docs_group(&self) -> (r: &Docs) {
        &self.docs
    }
}

impl Attributable for Method {
    open spec fn attributes_spec(&self) -> Seq<Attribute> {
        self.attributes@
    }

    fn attributes(&self) -> (r: &[Attribute]) {
        self.attributes.as_slice()
    }
}

impl Info for Method {
    open spec fn info_spec(&self) -> InfoAttrs {
        self.info
    }

    fn info_group(&self) -> (r: &InfoAttrs) {
        &self.info
    }
}

impl Callable for Method {
    open spec fn callable_spec(&self) -> CallableAttrs {
        self.callable
    }

    fn callable_group(&self) -> (r: &CallableAttrs) {
        &self.callable
    }
}

/// A method declared inline in a header.
#[derive(Debug)]
pub struct MethodInline {
    pub docs: Docs,
    pub info: InfoAttrs,
    pub callable: CallableAttrs,
    pub attributes: Vec<Attribute>,
    pub return_value: ReturnValue,
    pub parameters: Parameters,
}

pub open spec fn method_inline_attr_names() -> Seq<Seq<char>> {
    seq!["introspectable"@, "deprecated"@, "version"@, "deprecated-version"@, "stability"@, "name"@, "c:identifier"@, "shadows"@, "shadowed-by"@, "throws"@, "moved-to"@, "glib:async-func"@, "glib:finish-func"@, "glib:sync-func"@]
}

pub open spec fn method_inline_child_names() -> Seq<Seq<char>> {
    seq!["doc"@, "doc-deprecated"@, "doc-stability"@, "doc-version"@, "source-position"@, "attribute"@, "return-value"@, "parameters"@]
}

/// Whether a method-inline element maps onto the record without a structural error.
pub open spec fn method_inline_ok(e: XmlElement) -> bool {
    &&& attrs_within(e.attrs@, method_inline_attr_names())
    &&& tags_within(e.children@, method_inline_child_names())
    &&& docs_ok(e)
    &&& info_ok(e)
    &&& callable_ok(e)
    &&& attribute_list_ok(e)
    &&& match first_tagged(e.children@, "return-value"@) {
        Some(c) => return_value_ok(c),
        None => false,
    }
    &&& match first_tagged(e.children@, "parameters"@) {
        Some(c) => parameters_ok(c),
        None => true,
    }
}

/// How a method-inline element maps onto the record, field for field.
pub open spec fn method_inline_matches(e: XmlElement, x: MethodInline) -> bool {
    &&& docs_matches(e, x.docs)
    &&& info_matches(e, x.info)
    &&& callable_matches(e, x.callable)
    &&& attribute_list_matches(e, x.attributes@)
    &&& match first_tagged(e.children@, "return-value"@) {
        Some(c) => return_value_matches(c, x.return_value),
        None => false,
    }
    &&& match first_tagged(e.children@, "parameters"@) {
        Some(c) => parameters_matches(c, x.parameters),
        None => parameters_is_default(x.parameters),
    }
}

impl MethodInline {
    pub fn from_element(e: &XmlElement) -> (r: Result<MethodInline, ParserError>)
        ensures
            r matches Err(err) ==> err is Xml,
            r matches Ok(x) ==> method_inline_matches(*e, x),
            r is Ok <==> method_inline_ok(*e),
    {
        let attr_names: [&str; 14] = [
            "introspectable",
            "deprecated",
            "version",
            "deprecated-version",
            "stability",
            "name",
            "c:identifier",
            "shadows",
            "shadowed-by",
            "throws",
            "moved-to",
            "glib:async-func",
            "glib:finish-func",
            "glib:sync-func",
        ];
        let child_names: [&str; 8] = [
            "doc",
            "doc-deprecated",
            "doc-stability",
            "doc-version",
            "source-position",
            "attribute",
            "return-value",
            "parameters",
        ];
        let within = check_attrs_within(e, &attr_names) && check_tags_within(e, &child_names);
        proof {
            assert(names_view(attr_names@) =~= method_inline_attr_names());
            assert(names_view(child_names@) =~= method_inline_child_names());
        }
        if !within {
            return Err(crate::xml_error("unrecognized content on an element"));
        }
        let docs = Docs::from_children(e)?;
        let info = InfoAttrs::from_attrs(e)?;
        let callable = CallableAttrs::from_attrs(e)?;
        let attributes = collect_attributes(e)?;
        let return_value = match first_child(e, "return-value") {
            Some(c) => ReturnValue::from_element(c)?,
            None => {
                return Err(crate::xml_error("a required child element is absent"));
            },
        };
        let parameters = match first_child(e, "parameters") {
            Some(c) => Parameters::from_element(c)?,
            None => Parameters::default(),
        };
        Ok(MethodInline { docs, info, callable, attributes, return_value, parameters })
    }

    pub fn parameters(&self) -> (r: &Parameters)
        ensures
            *r == self.parameters,
    {
        &self.parameters
    }

    pub fn return_value(&self) -> (r: &ReturnValue)
        ensures
            *r == self.return_value,
    {
        &self.return_value
    }

}

impl Documentable for MethodInline {
    open spec fn docs_spec(&self) -> Docs {
        self.docs
    }

    fn docs_group(&self) -> (r: &Docs) {
        &self.docs
    }
}

impl Attributable for MethodInline {
    open spec fn attributes_spec(&self) -> Seq<Attribute> {
        self.attributes@
    }

    fn attributes(&self) -> (r: &[Attribute]) {
        self.attributes.as_slice()
    }
}

impl Info for MethodInline {
    open spec fn info_spec(&self) -> InfoAttrs {
        self.info
    }

    fn info_group(&self) -> (r: &InfoAttrs) {
        &self.info
    }
}

impl Callable for MethodInline {
    open spec fn callable_spec(&self) -> CallableAttrs {
        self.callable
    }

    fn callable_group(&self) -> (r: &CallableAttrs) {
        &self.callable
    }
}

} // verus!
