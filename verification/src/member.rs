use vstd::prelude::*;

verus! {

use crate::ParserError;
use crate::attribute::{Attribute, attribute_list_ok, attribute_list_matches, collect_attributes};
use crate::documentation::{Docs, docs_ok, docs_matches};
use crate::traits::{Documentable, Attributable, Info, InfoAttrs, info_ok, info_matches};
use crate::schema::{req_attr_spec, opt_bool_attr, req_attr, attr_opt_bool};
use crate::xml::{XmlElement, attr_of, attrs_within, tags_within, first_tagged, names_view,
    opt_view, opt_deref, check_attrs_within, check_tags_within, first_child, attr_string,
    opt_as_str};

/// One named value of a bit field or enumeration.
#[derive(Debug)]
pub struct Member {
    pub name: String,
    pub value: String,
    pub c_identifier: String,
    pub g_nick: Option<String>,
    pub g_name: Option<String>,
    pub docs: Docs,
    pub info: InfoAttrs,
    pub attributes: Vec<Attribute>,
}

pub open spec fn member_attr_names() -> Seq<Seq<char>> {
    seq!["name"@, "value"@, "c:identifier"@, "glib:nick"@, "glib:name"@, "introspectable"@, "deprecated"@, "version"@, "deprecated-version"@, "stability"@]
}

pub open spec fn member_child_names() -> Seq<Seq<char>> {
    seq!["doc"@, "doc-deprecated"@, "doc-stability"@, "doc-version"@, "source-position"@, "attribute"@]
}

/// Whether a member element maps onto the record without a structural error.
pub open spec fn member_ok(e: XmlElement) -> bool {
    &&& attrs_within(e.attrs@, member_attr_names())
    &&& tags_within(e.children@, member_child_names())
    &&& req_attr_spec(e, "name"@) is Ok
    &&& req_attr_spec(e, "value"@) is Ok
    &&& req_attr_spec(e, "c:identifier"@) is Ok
    &&& docs_ok(e)
    &&& info_ok(e)
    &&& attribute_list_ok(e)
}

/// How a member element maps onto the record, field for field.
pub open spec fn member_matches(e: XmlElement, x: Member) -> bool {
    &&& req_attr_spec(e, "name"@) == Ok::<_, ()>(x.name@)
    &&& req_attr_spec(e, "value"@) == Ok::<_, ()>(x.value@)
    &&& req_attr_spec(e, "c:identifier"@) == Ok::<_, ()>(x.c_identifier@)
    &&& opt_view(x.g_nick) == attr_of(e, "glib:nick"@)
    &&& opt_view(x.g_name) == attr_of(e, "glib:name"@)
    &&& docs_matches(e, x.docs)
    &&& info_matches(e, x.info)
    &&& attribute_list_matches(e, x.attributes@)
}

impl Member {
    pub fn from_element(e: &XmlElement) -> (r: Result<Member, ParserError>)
        ensures
            r matches Err(err) ==> err is Xml,
            r matches Ok(x) ==> member_matches(*e, x),
            r is Ok <==> member_ok(*e),
    {
        let attr_names: [&str; 10] = [
            "name",
            "value",
            "c:identifier",
            "glib:nick",
            "glib:name",
            "introspectable",
            "deprecated",
            "version",
            "deprecated-version",
            "stability",
        ];
        let child_names: [&str; 6] = [
            "doc",
            "doc-deprecated",
            "doc-stability",
            "doc-version",
            "source-position",
            "attribute",
        ];
        let within = check_attrs_within(e, &attr_names) && check_tags_within(e, &child_names);
        proof {
            assert(names_view(attr_names@) =~= member_attr_names());
            assert(names_view(child_names@) =~= member_child_names());
        }
        if !within {
            return Err(crate::xml_error("unrecognized content on an element"));
        }
        let name = req_attr(e, "name")?;
        let value = req_attr(e, "value")?;
        let c_identifier = req_attr(e, "c:identifier")?;
        let g_nick = attr_string(e, "glib:nick");
        let g_name = attr_string(e, "glib:name");
        let docs = Docs::from_children(e)?;
        let info = InfoAttrs::from_attrs(e)?;
        let attributes = collect_attributes(e)?;
        Ok(Member { name, value, c_identifier, g_nick, g_name, docs, info, attributes })
    }

    pub fn name(&self) -> (r: &str)
        ensures
            r@ == self.name@,
    {
        self.name.as_str()
    }

    pub fn value(&self) -> (r: &str)
        ensures
            r@ == self.value@,
    {
        self.value.as_str()
    }

    pub fn c_identifier(&self) -> (r: &str)
        ensures
            r@ == self.c_identifier@,
    {
        self.c_identifier.as_str()
    }

    pub fn g_nick(&self) -> (r: Option<&str>)
        ensures
            opt_view(r) == opt_view(self.g_nick),
    {
        opt_as_str(&self.g_nick)
    }

    pub fn g_name(&self) -> (r: Option<&str>)
        ensures
            opt_view(r) == opt_view(self.g_name),
    {
        opt_as_str(&self.g_name)
    }

}

impl Documentable for Member {
    open spec fn docs_spec(&self) -> Docs {
        self.docs
    }

    fn docs_group(&self) -> (r: &Docs) {
        &self.docs
    }
}

impl Attributable for Member {
    open spec fn attributes_spec(&self) -> Seq<Attribute> {
        self.attributes@
    }

    fn attributes(&self) -> (r: &[Attribute]) {
        self.attributes.as_slice()
    }
}

impl Info for Member {
    open spec fn info_spec(&self) -> InfoAttrs {
        self.info
    }

    fn info_group(&self) -> (r: &InfoAttrs) {
        &self.info
    }
}

} // verus!
