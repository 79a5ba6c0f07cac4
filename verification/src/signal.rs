use vstd::prelude::*;

verus! {

use crate::ParserError;
use crate::attribute::{Attribute, attribute_list_ok, attribute_list_matches, collect_attributes};
use crate::documentation::{Docs, docs_ok, docs_matches};
use crate::traits::{Documentable, Attributable, Info, InfoAttrs, info_ok, info_matches};
use crate::schema::{req_attr_spec, opt_bool_attr, req_attr, attr_opt_bool};
use crate::xml::{XmlElement, attr_of, attrs_within, tags_within, first_tagged, names_view,
    opt_view, opt_deref, check_attrs_within, check_tags_within, first_child, attr_string,
    opt_as_str};
use crate::SignalEmission;
use crate::parameter::{Parameters, parameters_ok, parameters_matches, parameters_is_default};
use crate::return_value::{ReturnValue, return_value_ok, return_value_matches};

/// A typed optional emission-stage attribute.
pub open spec fn opt_emission_attr(e: XmlElement, name: Seq<char>) -> Result<
    Option<SignalEmission>,
    (),
> {
    match attr_of(e, name) {
        None => Ok(None),
        Some(s) => match crate::emission_of(s) {
            Some(v) => Ok(Some(v)),
            None => Err(()),
        },
    }
}

pub fn attr_opt_emission(e: &XmlElement, name: &str) -> (r: Result<
    Option<SignalEmission>,
    ParserError,
>)
    ensures
        r matches Err(err) ==> err is Xml,
        r matches Ok(v) ==> opt_emission_attr(*e, name@) == Ok::<_, ()>(v),
        r is Err <==> opt_emission_attr(*e, name@) is Err,
{
    match crate::xml::find_attr(e, name) {
        None => Ok(None),
        Some(s) => match SignalEmission::parse(s.as_str()) {
            Some(v) => Ok(Some(v)),
            None => Err(crate::xml_error("an emission-stage attribute does not parse")),
        },
    }
}

/// A signal declaration of a class or interface.
#[derive(Debug)]
pub struct Signal {
    pub name: String,
    pub detailed: Option<bool>,
    pub when: Option<SignalEmission>,
    pub action: Option<bool>,
    pub no_hooks: Option<bool>,
    pub no_recurse: Option<bool>,
    pub docs: Docs,
    pub info: InfoAttrs,
    pub attributes: Vec<Attribute>,
    pub return_value: ReturnValue,
    pub parameters: Parameters,
}

pub open spec fn signal_attr_names() -> Seq<Seq<char>> {
    seq!["name"@, "detailed"@, "when"@, "action"@, "no-hooks"@, "no-recurse"@, "introspectable"@, "deprecated"@, "version"@, "deprecated-version"@, "stability"@]
}

pub open spec fn signal_child_names() -> Seq<Seq<char>> {
    seq!["doc"@, "doc-deprecated"@, "doc-stability"@, "doc-version"@, "source-position"@, "attribute"@, "return-value"@, "parameters"@]
}

/// Whether a glib:signal element maps onto the record without a structural error.
pub open spec fn signal_ok(e: XmlElement) -> bool {
    &&& attrs_within(e.attrs@, signal_attr_names())
    &&& tags_within(e.children@, signal_child_names())
    &&& req_attr_spec(e, "name"@) is Ok
    &&& opt_bool_attr(e, "detailed"@) is Ok
    &&& opt_emission_attr(e, "when"@) is Ok
    &&& opt_bool_attr(e, "action"@) is Ok
    &&& opt_bool_attr(e, "no-hooks"@) is Ok
    &&& opt_bool_attr(e, "no-recurse"@) is Ok
    &&& docs_ok(e)
    &&& info_ok(e)
    &&& attribute_list_ok(e)
    &&& match first_tagged(e.children@, "return-value"@) {
        Some(c) => return_value_ok(c),
        None => false,
    }
    &&& match first_tagged(e.children@, "parameters"@) {
        Some(c) => parameters_ok(c),
        None => true,
    }
}

/// How a glib:signal element maps onto the record, field for field.
pub open spec fn signal_matches(e: XmlElement, x: Signal) -> bool {
    &&& req_attr_spec(e, "name"@) == Ok::<_, ()>(x.name@)
    &&& opt_bool_attr(e, "detailed"@) == Ok::<_, ()>(x.detailed)
    &&& opt_emission_attr(e, "when"@) == Ok::<_, ()>(x.when)
    &&& opt_bool_attr(e, "action"@) == Ok::<_, ()>(x.action)
    &&& opt_bool_attr(e, "no-hooks"@) == Ok::<_, ()>(x.no_hooks)
    &&& opt_bool_attr(e, "no-recurse"@) == Ok::<_, ()>(x.no_recurse)
    &&& docs_matches(e, x.docs)
    &&& info_matches(e, x.info)
    &&& attribute_list_matches(e, x.attributes@)
    &&& match first_tagged(e.children@, "return-value"@) {
        Some(c) => return_value_matches(c, x.return_value),
        None => false,
    }
    &&& match first_tagged(e.children@, "parameters"@) {
        Some(c) => parameters_matches(c, x.parameters),
        None => parameters_is_default(x.parameters),
    }
}

impl Signal {
    pub fn from_element(e: &XmlElement) -> (r: Result<Signal, ParserError>)
        ensures
            r matches Err(err) ==> err is Xml,
            r matches Ok(x) ==> signal_matches(*e, x),
            r is Ok <==> signal_ok(*e),
    {
        let attr_names: [&str; 11] = [
            "name",
            "detailed",
            "when",
            "action",
            "no-hooks",
            "no-recurse",
            "introspectable",
            "deprecated",
            "version",
            "deprecated-version",
            "stability",
        ];
        let child_names: [&str; 8] = [
            "doc",
            "doc-deprecated",
            "doc-stability",
            "doc-version",
            "source-position",
            "attribute",
            "return-value",
            "parameters",
        ];
        let within = check_attrs_within(e, &attr_names) && check_tags_within(e, &child_names);
        proof {
            assert(names_view(attr_names@) =~= signal_attr_names());
            assert(names_view(child_names@) =~= signal_child_names());
        }
        if !within {
            return Err(crate::xml_error("unrecognized content on an element"));
        }
        let name = req_attr(e, "name")?;
        let detailed = attr_opt_bool(e, "detailed")?;
        let when = attr_opt_emission(e, "when")?;
        let action = attr_opt_bool(e, "action")?;
        let no_hooks = attr_opt_bool(e, "no-hooks")?;
        let no_recurse = attr_opt_bool(e, "no-recurse")?;
        let docs = Docs::from_children(e)?;
        let info = InfoAttrs::from_attrs(e)?;
        let attributes = collect_attributes(e)?;
        let return_value = match first_child(e, "return-value") {
            Some(c) => ReturnValue::from_element(c)?,
            None => {
                return Err(crate::xml_error("a required child element is absent"));
            },
        };
        let parameters = match first_child(e, "parameters") {
            Some(c) => Parameters::from_element(c)?,
            None => Parameters::default(),
        };
        Ok(Signal { name, detailed, when, action, no_hooks, no_recurse, docs, info, attributes, return_value, parameters })
    }

    pub fn name(&self) -> (r: &str)
        ensures
            r@ == self.name@,
    {
        self.name.as_str()
    }

    pub fn is_detailed(&self) -> (r: bool)
        ensures
            r == self.detailed.unwrap_or(false),
    {
        self.detailed.unwrap_or(false)
    }

    pub fn is_action(&self) -> (r: bool)
        ensures
            r == self.action.unwrap_or(false),
    {
        self.action.unwrap_or(false)
    }

    pub fn is_no_hooks(&self) -> (r: bool)
        ensures
            r == self.no_hooks.unwrap_or(false),
    {
        self.no_hooks.unwrap_or(false)
    }

    pub fn is_no_recurse(&self) -> (r: bool)
        ensures
            r == self.no_recurse.unwrap_or(false),
    {
        self.no_recurse.unwrap_or(false)
    }

    pub fn when(&self) -> (r: Option<SignalEmission>)
        ensures
            r == self.when,
    {
        self.when
    }

    pub fn parameters(&self) -> (r: &Parameters)
        ensures
            *r == self.parameters,
    {
        &self.parameters
    }

    pub fn return_value(&self) -> (r: &ReturnValue)
        ensures
            *r == self.return_value,
    {
        &self.return_value
    }

}

impl Documentable for Signal {
    open spec fn docs_spec(&self) -> Docs {
        self.docs
    }

    fn docs_group(&self) -> (r: &Docs) {
        &self.docs
    }
}

impl Attributable for Signal {
    open spec fn attributes_spec(&self) -> Seq<Attribute> {
        self.attributes@
    }

    fn attributes(&self) -> (r: &[Attribute]) {
        self.attributes.as_slice()
    }
}

impl Info for Signal {
    open spec fn info_spec(&self) -> InfoAttrs {
        self.info
    }

    fn info_group(&self) -> (r: &InfoAttrs) {
        &self.info
    }
}

} // verus!
