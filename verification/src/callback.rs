use vstd::prelude::*;

verus! {

use crate::ParserError;
use crate::attribute::{Attribute, attribute_list_ok, attribute_list_matches, collect_attributes};
use crate::documentation::{Docs, docs_ok, docs_matches};
use crate::traits::{Documentable, Attributable, Info, Callable, InfoAttrs, CallableAttrs,
    info_ok, info_matches, callable_ok, callable_matches};
use crate::schema::{req_attr_spec, opt_bool_attr, req_attr, attr_opt_bool};
use crate::xml::{XmlElement, attr_of, attrs_within, tags_within, first_tagged, names_view,
    opt_view, opt_deref, check_attrs_within, check_tags_within, first_child, attr_string,
    opt_as_str};
use crate::parameter::{Parameters, parameters_ok, parameters_matches, parameters_is_default};
use crate::return_value::{ReturnValue, return_value_ok, return_value_matches};

/// A callback declaration: a named function type.
#[derive(Debug)]
pub struct Callback {
    pub name: String,
    pub c_type: Option<String>,
    pub throws: Option<bool>,
    pub docs: Docs,
    pub info: InfoAttrs,
    pub attributes: Vec<Attribute>,
    pub return_value: ReturnValue,
    pub parameters: Parameters,
}

pub open spec fn callback_attr_names() -> Seq<Seq<char>> {
    seq!["name"@, "c:type"@, "throws"@, "introspectable"@, "deprecated"@, "version"@, "deprecated-version"@, "stability"@]
}

pub open spec fn callback_child_names() -> Seq<Seq<char>> {
    seq!["doc"@, "doc-deprecated"@, "doc-stability"@, "doc-version"@, "source-position"@, "attribute"@, "return-value"@, "parameters"@]
}

/// Whether a callback element maps onto the record without a structural error.
pub open spec fn callback_ok(e: XmlElement) -> bool {
    &&& attrs_within(e.attrs@, callback_attr_names())
    &&& tags_within(e.children@, callback_child_names())
    &&& req_attr_spec(e, "name"@) is Ok
    &&& opt_bool_attr(e, "throws"@) is Ok
    &&& docs_ok(e)
    &&& info_ok(e)
    &&& attribute_list_ok(e)
    &&& match first_tagged(e.children@, "return-value"@) {
        Some(c) => return_value_ok(c),
        None => false,
    }
    &&& match first_tagged(e.children@, "parameters"@) {
        Some(c) => parameters_ok(c),
        None => true,
    }
}

/// How a callback element maps onto the record, field for field.
pub open spec fn callback_matches(e: XmlElement, x: Callback) -> bool {
    &&& req_attr_spec(e, "name"@) == Ok::<_, ()>(x.name@)
    &&& opt_view(x.c_type) == attr_of(e, "c:type"@)
    &&& opt_bool_attr(e, "throws"@) == Ok::<_, ()>(x.throws)
    &&& docs_matches(e, x.docs)
    &&& info_matches(e, x.info)
    &&& attribute_list_matches(e, x.attributes@)
    &&& match first_tagged(e.children@, "return-value"@) {
        Some(c) => return_value_matches(c, x.return_value),
        None => false,
    }
    &&& match first_tagged(e.children@, "parameters"@) {
        Some(c) => parameters_matches(c, x.parameters),
        None => parameters_is_default(x.parameters),
    }
}

impl Callback {
    pub fn from_element(e: &XmlElement) -> (r: Result<Callback, ParserError>)
        ensures
            r matches Err(err) ==> err is Xml,
            r matches Ok(x) ==> callback_matches(*e, x),
            r is Ok <==> callback_ok(*e),
    {
        let attr_names: [&str; 8] = [
            "name",
            "c:type",
            "throws",
            "introspectable",
            "deprecated",
            "version",
            "deprecated-version",
            "stability",
        ];
        let child_names: [&str; 8] = [
            "doc",
            "doc-deprecated",
            "doc-stability",
            "doc-version",
            "source-position",
            "attribute",
            "return-value",
            "parameters",
        ];
        let within = check_attrs_within(e, &attr_names) && check_tags_within(e, &child_names);
        proof {
            assert(names_view(attr_names@) =~= callback_attr_names());
            assert(names_view(child_names@) =~= callback_child_names());
        }
        if !within {
            return Err(crate::xml_error("unrecognized content on an element"));
        }
        let name = req_attr(e, "name")?;
        let c_type = attr_string(e, "c:type");
        let throws = attr_opt_bool(e, "throws")?;
        let docs = Docs::from_children(e)?;
        let info = InfoAttrs::from_attrs(e)?;
        let attributes = collect_attributes(e)?;
        let return_value = match first_child(e, "return-value") {
            Some(c) => ReturnValue::from_element(c)?,
            None => {
                return Err(crate::xml_error("a required child element is absent"));
            },
        };
        let parameters = match first_child(e, "parameters") {
            Some(c) => Parameters::from_element(c)?,
            None => Parameters::default(),
        };
        Ok(Callback { name, c_type, throws, docs, info, attributes, return_value, parameters })
    }

    pub fn name(&self) -> (r: &str)
        ensures
            r@ == self.name@,
    {
        self.name.as_str()
    }

    pub fn c_type(&self) -> (r: Option<&str>)
        ensures
            opt_view(r) == opt_view(self.c_type),
    {
        opt_as_str(&self.c_type)
    }

    pub fn throws(&self) -> (r: Option<bool>)
        ensures
            r == self.throws,
    {
        self.throws
    }

    pub fn parameters(&self) -> (r: &Parameters)
        ensures
            *r == self.parameters,
    {
        &self.parameters
    }

    pub fn return_value(&self) -> (r: &ReturnValue)
        ensures
            *r == self.return_value,
    {
        &self.return_value
    }

}

impl Documentable for Callback {
    open spec fn docs_spec(&self) -> Docs {
        self.docs
    }

    fn docs_group(&self) -> (r: &Docs) {
        &self.docs
    }
}

impl Attributable for Callback {
    open spec fn attributes_spec(&self) -> Seq<Attribute> {
        self.attributes@
    }

    fn attributes(&self) -> (r: &[Attribute]) {
        self.attributes.as_slice()
    }
}

impl Info for Callback {
    open spec fn info_spec(&self) -> InfoAttrs {
        self.info
    }

    fn info_group(&self) -> (r: &InfoAttrs) {
        &self.info
    }
}

} // verus!
