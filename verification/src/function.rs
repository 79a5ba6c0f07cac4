use vstd::prelude::*;

verus! {

use crate::ParserError;
use crate::attribute::{Attribute, attribute_list_ok, attribute_list_matches, collect_attributes};
use crate::documentation::{Docs, docs_ok, docs_matches};
use crate::traits::{Documentable, Attributable, Info, Callable, InfoAttrs, CallableAttrs,
    info_ok, info_matches, callable_ok, callable_matches};
use crate::schema::{req_attr_spec, opt_bool_attr, req_attr, attr_opt_bool};
use crate::xml::{XmlElement, attr_of, attrs_within, tags_within, first_tagged, names_view,
    opt_view, opt_deref, check_attrs_within, check_tags_within, first_child, attr_string,
    opt_as_str};
use crate::parameter::{Parameters, parameters_ok, parameters_matches, parameters_is_default};
use crate::return_value::{ReturnValue, return_value_ok, return_value_matches};

/// A free function declaration.
#[derive(Debug)]
pub struct Function {
    pub docs: Docs,
    pub info: InfoAttrs,
    pub callable: CallableAttrs,
    pub attributes: Vec<Attribute>,
    pub return_value: ReturnValue,
    pub parameters: Parameters,
}

pub open spec fn function_attr_names() -> Seq<Seq<char>> {
    seq!["introspectable"@, "deprecated"@, "version"@, "deprecated-version"@, "stability"@, "name"@, "c:identifier"@, "shadows"@, "shadowed-by"@, "throws"@, "moved-to"@, "glib:async-func"@, "glib:finish-func"@, "glib:sync-func"@]
}

pub open spec fn function_child_names() -> Seq<Seq<char>> {
    seq!["doc"@, "doc-deprecated"@, "doc-stability"@, "doc-version"@, "source-position"@, "attribute"@, "return-value"@, "parameters"@]
}

/// Whether a function element maps onto the record without a structural error.
pub open spec fn function_ok(e: XmlElement) -> bool {
    &&& attrs_within(e.attrs@, function_attr_names())
    &&& tags_within(e.children@, function_child_names())
    &&& docs_ok(e)
    &&& info_ok(e)
    &&& callable_ok(e)
    &&& attribute_list_ok(e)
    &&& match first_tagged(e.children@, "return-value"@) {
        Some(c) => return_value_ok(c),
        None => false,
    }
    &&& match first_tagged(e.children@, "parameters"@) {
        Some(c) => parameters_ok(c),
        None => true,
    }
}

/// How a function element maps onto the record, field for field.
pub open spec fn function_matches(e: XmlElement, x: Function) -> bool {
    &&& docs_matches(e, x.docs)
    &&& info_matches(e, x.info)
    &&& callable_matches(e, x.callable)
    &&& attribute_list_matches(e, x.attributes@)
    &&& match first_tagged(e.children@, "return-value"@) {
        Some(c) => return_value_matches(c, x.return_value),
        None => false,
    }
    &&& match first_tagged(e.children@, "parameters"@) {
        Some(c) => parameters_matches(c, x.parameters),
        None => parameters_is_default(x.parameters),
    }
}

impl Function {
    pub fn from_element(e: &XmlElement) -> (r: Result<Function, ParserError>)
        ensures
            r matches Err(err) ==> err is Xml,
            r matches Ok(x) ==> function_matches(*e, x),
            r is Ok <==> function_ok(*e),
    {
        let attr_names: [&str; 14] = [
            "introspectable",
            "deprecated",
            "version",
            "deprecated-version",
            "stability",
            "name",
            "c:identifier",
            "shadows",
            "shadowed-by",
            "throws",
            "moved-to",
            "glib:async-func",
            "glib:finish-func",
            "glib:sync-func",
        ];
        let child_names: [&str; 8] = [
            "doc",
            "doc-deprecated",
            "doc-stability",
            "doc-version",
            "source-position",
            "attribute",
            "return-value",
            "parameters",
        ];
        let within = check_attrs_within(e, &attr_names) && check_tags_within(e, &child_names);
        proof {
            assert(names_view(attr_names@) =~= function_attr_names());
            assert(names_view(child_names@) =~= function_child_names());
        }
        if !within {
            return Err(crate::xml_error("unrecognized content on an element"));
        }
        let docs = Docs::from_children(e)?;
        let info = InfoAttrs::from_attrs(e)?;
        let callable = CallableAttrs::from_attrs(e)?;
        let attributes = collect_attributes(e)?;
        let return_value = match first_child(e, "return-value") {
            Some(c) => ReturnValue::from_element(c)?,
            None => {
                return Err(crate::xml_error("a required child element is absent"));
            },
        };
        let parameters = match first_child(e, "parameters") {
            Some(c) => Parameters::from_element(c)?,
            None => Parameters::default(),
        };
        Ok(Function { docs, info, callable, attributes, return_value, parameters })
    }

    pub fn parameters(&self) -> (r: &Parameters)
        ensures
            *r == self.parameters,
    {
        &self.parameters
    }

    pub fn return_value(&self) -> (r: &ReturnValue)
        ensures
            *r == self.return_value,
    {
        &self.return_value
    }

}

impl Documentable for Function {
    open spec fn docs_spec(&self) -> Docs {
        self.docs
    }

    fn docs_group(&self) -> (r: &Docs) {
        &self.docs
    }
}

impl Attributable for Function {
    open spec fn attributes_spec(&self) -> Seq<Attribute> {
        self.attributes@
    }

    fn attributes(&self) -> (r: &[Attribute]) {
        self.attributes.as_slice()
    }
}

impl Info for Function {
    open spec fn info_spec(&self) -> InfoAttrs {
        self.info
    }

    fn info_group(&self) -> (r: &InfoAttrs) {
        &self.info
    }
}

impl Callable for Function {
    open spec fn callable_spec(&self) -> CallableAttrs {
        self.callable
    }

    fn callable_group(&self) -> (r: &CallableAttrs) {
        &self.callable
    }
}

/// A function declared inline in a header.
#[derive(Debug)]
pub struct FunctionInline {
    pub docs: Docs,
    pub info: InfoAttrs,
    pub callable: CallableAttrs,
    pub attributes: Vec<Attribute>,
    pub return_value: ReturnValue,
    pub parameters: Parameters,
}

pub open spec fn function_inline_attr_names() -> Seq<Seq<char>> {
    seq!["introspectable"@, "deprecated"@, "version"@, "deprecated-version"@, "stability"@, "name"@, "c:identifier"@, "shadows"@, "shadowed-by"@, "throws"@, "moved-to"@, "glib:async-func"@, "glib:finish-func"@, "glib:sync-func"@]
}

pub open spec fn function_inline_child_names() -> Seq<Seq<char>> {
    seq!["doc"@, "doc-deprecated"@, "doc-stability"@, "doc-version"@, "source-position"@, "attribute"@, "return-value"@, "parameters"@]
}

/// Whether a function-inline element maps onto the record without a structural error.
pub open spec fn function_inline_ok(e: XmlElement) -> bool {
    &&& attrs_within(e.attrs@, function_inline_attr_names())
    &&& tags_within(e.children@, function_inline_child_names())
    &&& docs_ok(e)
    &&& info_ok(e)
    &&& callable_ok(e)
    &&& attribute_list_ok(e)
    &&& match first_tagged(e.children@, "return-value"@) {
        Some(c) => return_value_ok(c),
        None => false,
    }
    &&& match first_tagged(e.children@, "parameters"@) {
        Some(c) => parameters_ok(c),
        None => true,
    }
}

/// How a function-inline element maps onto the record, field for field.
pub open spec fn function_inline_matches(e: XmlElement, x: FunctionInline) -> bool {
    &&& docs_matches(e, x.docs)
    &&& info_matches(e, x.info)
    &&& callable_matches(e, x.callable)
    &&& attribute_list_matches(e, x.attributes@)
    &&& match first_tagged(e.children@, "return-value"@) {
        Some(c) => return_value_matches(c, x.return_value),
        None => false,
    }
    &&& match first_tagged(e.children@, "parameters"@) {
        Some(c) => parameters_matches(c, x.parameters),
        None => parameters_is_default(x.parameters),
    }
}

impl FunctionInline {
    pub fn from_element(e: &XmlElement) -> (r: Result<FunctionInline, ParserError>)
        ensures
            r matches Err(err) ==> err is Xml,
            r matches Ok(x) ==> function_inline_matches(*e, x),
            r is Ok <==> function_inline_ok(*e),
    {
        let attr_names: [&str; 14] = [
            "introspectable",
            "deprecated",
            "version",
            "deprecated-version",
            "stability",
            "name",
            "c:identifier",
            "shadows",
            "shadowed-by",
            "throws",
            "moved-to",
            "glib:async-func",
            "glib:finish-func",
            "glib:sync-func",
        ];
        let child_names: [&str; 8] = [
            "doc",
            "doc-deprecated",
            "doc-stability",
            "doc-version",
            "source-position",
            "attribute",
            "return-value",
            "parameters",
        ];
        let within = check_attrs_within(e, &attr_names) && check_tags_within(e, &child_names);
        proof {
            assert(names_view(attr_names@) =~= function_inline_attr_names());
            assert(names_view(child_names@) =~= function_inline_child_names());
        }
        if !within {
            return Err(crate::xml_error("unrecognized content on an element"));
        }
        let docs = Docs::from_children(e)?;
        let info = InfoAttrs::from_attrs(e)?;
        let callable = CallableAttrs::from_attrs(e)?;
        let attributes = collect_attributes(e)?;
        let return_value = match first_child(e, "return-value") {
            Some(c) => ReturnValue::from_element(c)?,
            None => {
                return Err(crate::xml_error("a required child element is absent"));
            },
        };
        let parameters = match first_child(e, "parameters") {
            Some(c) => Parameters::from_element(c)?,
            None => Parameters::default(),
        };
        Ok(FunctionInline { docs, info, callable, attributes, return_value, parameters })
    }

    pub fn parameters(&self) -> (r: &Parameters)
        ensures
            *r == self.parameters,
    {
        &self.parameters
    }

    pub fn return_value(&self) -> (r: &ReturnValue)
        ensures
            *r == self.return_value,
    {
        &self.return_value
    }

}

impl Documentable for FunctionInline {
    open spec fn docs_spec(&self) -> Docs {
        self.docs
    }

    fn docs_group(&self) -> (r: &Docs) {
        &self.docs
    }
}

impl Attributable for FunctionInline {
    open spec fn attributes_spec(&self) -> Seq<Attribute> {
        self.attributes@
    }

    fn attributes(&self) -> (r: &[Attribute]) {
        self.attributes.as_slice()
    }
}

impl Info for FunctionInline {
    open spec fn info_spec(&self) -> InfoAttrs {
        self.info
    }

    fn info_group(&self) -> (r: &InfoAttrs) {
        &self.info
    }
}

impl Callable for FunctionInline {
    open spec fn callable_spec(&self) -> CallableAttrs {
        self.callable
    }

    fn callable_group(&self) -> (r: &CallableAttrs) {
        &self.callable
    }
}

} // verus!
