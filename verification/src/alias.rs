use vstd::prelude::*;

verus! {

use crate::ParserError;
use crate::attribute::{Attribute, attribute_list_ok, attribute_list_matches, collect_attributes};
use crate::documentation::{Docs, docs_ok, docs_matches};
use crate::traits::{Documentable, Attributable, Info, InfoAttrs, info_ok, info_matches};
use crate::schema::{req_attr_spec, opt_bool_attr, req_attr, attr_opt_bool};
use crate::xml::{XmlElement, attr_of, attrs_within, tags_within, first_tagged, names_view,
    opt_view, opt_deref, check_attrs_within, check_tags_within, first_child, attr_string,
    opt_as_str};
use crate::ty::{AnyType, any_type_ok, any_type_matches, any_type_tags};
use crate::xml::{first_tagged_any, first_child_any};

/// A named alias for another type position.
#[derive(Debug)]
pub struct Alias {
    pub name: String,
    pub c_type: String,
    pub docs: Docs,
    pub info: InfoAttrs,
    pub attributes: Vec<Attribute>,
    pub type_: Option<AnyType>,
}

pub open spec fn alias_attr_names() -> Seq<Seq<char>> {
    seq!["name"@, "c:type"@, "introspectable"@, "deprecated"@, "version"@, "deprecated-version"@, "stability"@]
}

pub open spec fn alias_child_names() -> Seq<Seq<char>> {
    seq!["doc"@, "doc-deprecated"@, "doc-stability"@, "doc-version"@, "source-position"@, "attribute"@, "type"@, "array"@]
}

/// Whether a alias element maps onto the record without a structural error.
pub open spec fn alias_ok(e: XmlElement) -> bool {
    &&& attrs_within(e.attrs@, alias_attr_names())
    &&& tags_within(e.children@, alias_child_names())
    &&& req_attr_spec(e, "name"@) is Ok
    &&& req_attr_spec(e, "c:type"@) is Ok
    &&& docs_ok(e)
    &&& info_ok(e)
    &&& attribute_list_ok(e)
    &&& match first_tagged_any(e.children@, any_type_tags()) {
        Some(c) => any_type_ok(c),
        None => true,
    }
}

/// How a alias element maps onto the record, field for field.
pub open spec fn alias_matches(e: XmlElement, x: Alias) -> bool {
    &&& req_attr_spec(e, "name"@) == Ok::<_, ()>(x.name@)
    &&& req_attr_spec(e, "c:type"@) == Ok::<_, ()>(x.c_type@)
    &&& docs_matches(e, x.docs)
    &&& info_matches(e, x.info)
    &&& attribute_list_matches(e, x.attributes@)
    &&& match first_tagged_any(e.children@, any_type_tags()) {
        Some(c) => x.type_ matches Some(w) && any_type_matches(c, w),
        None => x.type_ is None,
    }
}

impl Alias {
    pub fn from_element(e: &XmlElement) -> (r: Result<Alias, ParserError>)
        ensures
            r matches Err(err) ==> err is Xml,
            r matches Ok(x) ==> alias_matches(*e, x),
            r is Ok <==> alias_ok(*e),
    {
        let attr_names: [&str; 7] = [
            "name",
            "c:type",
            "introspectable",
            "deprecated",
            "version",
            "deprecated-version",
            "stability",
        ];
        let child_names: [&str; 8] = [
            "doc",
            "doc-deprecated",
            "doc-stability",
            "doc-version",
            "source-position",
            "attribute",
            "type",
            "array",
        ];
        let within = check_attrs_within(e, &attr_names) && check_tags_within(e, &child_names);
        proof {
            assert(names_view(attr_names@) =~= alias_attr_names());
            assert(names_view(child_names@) =~= alias_child_names());
        }
        if !within {
            return Err(crate::xml_error("unrecognized content on an element"));
        }
        let name = req_attr(e, "name")?;
        let c_type = req_attr(e, "c:type")?;
        let docs = Docs::from_children(e)?;
        let info = InfoAttrs::from_attrs(e)?;
        let attributes = collect_attributes(e)?;
        let tag_names: [&str; 2] = ["type", "array"];
        proof {
            assert(names_view(tag_names@) =~= any_type_tags());
        }
        let type_ = match first_child_any(e, &tag_names) {
            Some(c) => Some(AnyType::from_element(c)?),
            None => None,
        };
        Ok(Alias { name, c_type, docs, info, attributes, type_ })
    }

    pub fn name(&self) -> (r: &str)
        ensures
            r@ == self.name@,
    {
        self.name.as_str()
    }

    pub fn c_type(&self) -> (r: &str)
        ensures
            r@ == self.c_type@,
    {
        self.c_type.as_str()
    }

    pub fn ty(&self) -> (r: Option<&AnyType>)
        ensures
            opt_deref(r) == self.type_,
    {
        self.type_.as_ref()
    }

}

impl Documentable for Alias {
    open spec fn docs_spec(&self) -> Docs {
        self.docs
    }

    fn docs_group(&self) -> (r: &Docs) {
        &self.docs
    }
}

impl Attributable for Alias {
    open spec fn attributes_spec(&self) -> Seq<Attribute> {
        self.attributes@
    }

    fn attributes(&self) -> (r: &[Attribute]) {
        self.attributes.as_slice()
    }
}

impl Info for Alias {
    open spec fn info_spec(&self) -> InfoAttrs {
        self.info
    }

    fn info_group(&self) -> (r: &InfoAttrs) {
        &self.info
    }
}

} // verus!
