use vstd::prelude::*;

verus! {

use crate::ParserError;
use crate::Stability;
use crate::attribute::{Attribute, attribute_lookup, lookup_attribute};
use crate::documentation::{Docs, Documentation, DocDeprecated, DocStability, DocVersion,
    SourcePosition};
use crate::version::Version;
use crate::xml::{XmlElement, opt_view, opt_deref, opt_as_str};
use crate::schema::{opt_bool_attr, opt_stability_attr, opt_version_attr, req_attr_spec,
    attr_opt_bool, attr_opt_stability, attr_opt_version, req_attr};
use crate::xml::attr_string;

/// The info capability group: introspectability, deprecation and stability
/// bookkeeping shared by most entities.
#[derive(Debug)]
pub struct InfoAttrs {
    pub introspectable: Option<bool>,
    pub deprecated: Option<bool>,
    pub version: Option<Version>,
    pub deprecated_version: Option<Version>,
    pub stability: Option<Stability>,
}

pub open spec fn info_ok(e: XmlElement) -> bool {
    &&& opt_bool_attr(e, "introspectable"@) is Ok
    &&& opt_bool_attr(e, "deprecated"@) is Ok
    &&& opt_stability_attr(e, "stability"@) is Ok
}

pub open spec fn info_matches(e: XmlElement, i: InfoAttrs) -> bool {
    &&& opt_bool_attr(e, "introspectable"@) == Ok::<_, ()>(i.introspectable)
    &&& opt_bool_attr(e, "deprecated"@) == Ok::<_, ()>(i.deprecated)
    &&& i.version == opt_version_attr(e, "version"@)
    &&& i.deprecated_version == opt_version_attr(e, "deprecated-version"@)
    &&& opt_stability_attr(e, "stability"@) == Ok::<_, ()>(i.stability)
}

impl InfoAttrs {
    pub fn from_attrs(e: &XmlElement) -> (r: Result<InfoAttrs, ParserError>)
        ensures
            r matches Err(err) ==> err is Xml,
            r matches Ok(i) ==> info_matches(*e, i),
            r is Ok <==> info_ok(*e),
    {
        let introspectable = attr_opt_bool(e, "introspectable")?;
        let deprecated = attr_opt_bool(e, "deprecated")?;
        let version = attr_opt_version(e, "version");
        let deprecated_version = attr_opt_version(e, "deprecated-version");
        let stability = attr_opt_stability(e, "stability")?;
        Ok(InfoAttrs { introspectable, deprecated, version, deprecated_version, stability })
    }
}

/// The callable capability group: naming and companion-function
/// cross-references shared by function-like entities.
#[derive(Debug)]
pub struct CallableAttrs {
    pub name: String,
    pub c_identifier: Option<String>,
    pub shadows: Option<String>,
    pub shadowed_by: Option<String>,
    pub throws: Option<bool>,
    pub moved_to: Option<String>,
    pub async_func: Option<String>,
    pub finish_func: Option<String>,
    pub sync_func: Option<String>,
}

pub open spec fn callable_ok(e: XmlElement) -> bool {
    &&& req_attr_spec(e, "name"@) is Ok
    &&& opt_bool_attr(e, "throws"@) is Ok
}

pub open spec fn callable_matches(e: XmlElement, c: CallableAttrs) -> bool {
    &&& req_attr_spec(e, "name"@) == Ok::<_, ()>(c.name@)
    &&& opt_view(c.c_identifier) == crate::xml::attr_of(e, "c:identifier"@)
    &&& opt_view(c.shadows) == crate::xml::attr_of(e, "shadows"@)
    &&& opt_view(c.shadowed_by) == crate::xml::attr_of(e, "shadowed-by"@)
    &&& opt_bool_attr(e, "throws"@) == Ok::<_, ()>(c.throws)
    &&& opt_view(c.moved_to) == crate::xml::attr_of(e, "moved-to"@)
    &&& opt_view(c.async_func) == crate::xml::attr_of(e, "glib:async-func"@)
    &&& opt_view(c.finish_func) == crate::xml::attr_of(e, "glib:finish-func"@)
    &&& opt_view(c.sync_func) == crate::xml::attr_of(e, "glib:sync-func"@)
}

impl CallableAttrs {
    pub fn from_attrs(e: &XmlElement) -> (r: Result<CallableAttrs, ParserError>)
        ensures
            r matches Err(err) ==> err is Xml,
            r matches Ok(c) ==> callable_matches(*e, c),
            r is Ok <==> callable_ok(*e),
    {
        let name = req_attr(e, "name")?;
        let c_identifier = attr_string(e, "c:identifier");
        let shadows = attr_string(e, "shadows");
        let shadowed_by = attr_string(e, "shadowed-by");
        let throws = attr_opt_bool(e, "throws")?;
        let moved_to = attr_string(e, "moved-to");
        let async_func = attr_string(e, "glib:async-func");
        let finish_func = attr_string(e, "glib:finish-func");
        let sync_func = attr_string(e, "glib:sync-func");
        Ok(CallableAttrs {
            name,
            c_identifier,
            shadows,
            shadowed_by,
            throws,
            moved_to,
            async_func,
            finish_func,
            sync_func,
        })
    }
}

/// An entity that carries the documentation capability group.
pub trait Documentable {
    spec fn docs_spec(&self) -> Docs;

    fn docs_group(&self) -> (r: &Docs)
        ensures
            *r == self.docs_spec(),
    ;

    fn doc(&self) -> (r: Option<&Documentation>)
        ensures
            opt_deref(r) == self.docs_spec().doc,
    {
        self.docs_group().doc.as_ref()
    }

    fn doc_deprecated(&self) -> (r: Option<&DocDeprecated>)
        ensures
            opt_deref(r) == self.docs_spec().doc_deprecated,
    {
        self.docs_group().doc_deprecated.as_ref()
    }

    fn doc_stability(&self) -> (r: Option<&DocStability>)
        ensures
            opt_deref(r) == self.docs_spec().doc_stability,
    {
        self.docs_group().doc_stability.as_ref()
    }

    fn doc_version(&self) -> (r: Option<&DocVersion>)
        ensures
            opt_deref(r) == self.docs_spec().doc_version,
    {
        self.docs_group().doc_version.as_ref()
    }

    fn source_position(&self) -> (r: Option<&SourcePosition>)
        ensures
            opt_deref(r) == self.docs_spec().source_position,
    {
        self.docs_group().source_position.as_ref()
    }
}

/// An entity that carries the free-form attribute list, with the derived
/// lookups by well-known names.
pub trait Attributable {
    spec fn attributes_spec(&self) -> Seq<Attribute>;

    fn attributes(&self) -> (r: &[Attribute])
        ensures
            r@ == self.attributes_spec(),
    ;

    fn gtk_property_get(&self) -> (r: Option<&str>)
        ensures
            opt_view(r) == attribute_lookup(self.attributes_spec(), "org.gtk.Property.get"@),
    {
        lookup_attribute(self.attributes(), "org.gtk.Property.get")
    }

    fn gtk_property_set(&self) -> (r: Option<&str>)
        ensures
            opt_view(r) == attribute_lookup(self.attributes_spec(), "org.gtk.Property.set"@),
    {
        lookup_attribute(self.attributes(), "org.gtk.Property.set")
    }

    fn gtk_method_get_property(&self) -> (r: Option<&str>)
        ensures
            opt_view(r) == attribute_lookup(self.attributes_spec(), "org.gtk.Method.get_property"@),
    {
        lookup_attribute(self.attributes(), "org.gtk.Method.get_property")
    }

    fn gtk_method_set_property(&self) -> (r: Option<&str>)
        ensures
            opt_view(r) == attribute_lookup(self.attributes_spec(), "org.gtk.Method.set_property"@),
    {
        lookup_attribute(self.attributes(), "org.gtk.Method.set_property")
    }
}

/// An entity that carries the info capability group. The flags read with their
/// schema defaults: introspectable defaults to true, deprecated to false.
pub trait Info: Documentable + Attributable {
    spec fn info_spec(&self) -> InfoAttrs;

    fn info_group(&self) -> (r: &InfoAttrs)
        ensures
            *r == self.info_spec(),
    ;

    fn is_introspectable(&self) -> (r: bool)
        ensures
            r == self.info_spec().introspectable.unwrap_or(true),
    {
        self.info_group().introspectable.unwrap_or(true)
    }

    fn is_deprecated(&self) -> (r: bool)
        ensures
            r == self.info_spec().deprecated.unwrap_or(false),
    {
        self.info_group().deprecated.unwrap_or(false)
    }

    fn version(&self) -> (r: Option<&Version>)
        ensures
            opt_deref(r) == self.info_spec().version,
    {
        self.info_group().version.as_ref()
    }

    fn deprecated_version(&self) -> (r: Option<&Version>)
        ensures
            opt_deref(r) == self.info_spec().deprecated_version,
    {
        self.info_group().deprecated_version.as_ref()
    }

    fn stability(&self) -> (r: Option<Stability>)
        ensures
            r == self.info_spec().stability,
    {
        self.info_group().stability
    }
}

/// An entity that carries the callable capability group.
pub trait Callable: Info {
    spec fn callable_spec(&self) -> CallableAttrs;

    fn callable_group(&self) -> (r: &CallableAttrs)
        ensures
            *r == self.callable_spec(),
    ;

    fn name(&self) -> (r: &str)
        ensures
            r@ == self.callable_spec().name@,
    {
        self.callable_group().name.as_str()
    }

    fn c_identifier(&self) -> (r: Option<&str>)
        ensures
            opt_view(r) == opt_view(self.callable_spec().c_identifier),
    {
        opt_as_str(&self.callable_group().c_identifier)
    }

    fn shadows(&self) -> (r: Option<&str>)
        ensures
            opt_view(r) == opt_view(self.callable_spec().shadows),
    {
        opt_as_str(&self.callable_group().shadows)
    }

    fn shadowed_by(&self) -> (r: Option<&str>)
        ensures
            opt_view(r) == opt_view(self.callable_spec().shadowed_by),
    {
        opt_as_str(&self.callable_group().shadowed_by)
    }

    fn throws(&self) -> (r: bool)
        ensures
            r == self.callable_spec().throws.unwrap_or(false),
    {
        self.callable_group().throws.unwrap_or(false)
    }

    fn moved_to(&self) -> (r: Option<&str>)
        ensures
            opt_view(r) == opt_view(self.callable_spec().moved_to),
    {
        opt_as_str(&self.callable_group().moved_to)
    }

    fn async_func(&self) -> (r: Option<&str>)
        ensures
            opt_view(r) == opt_view(self.callable_spec().async_func),
    {
        opt_as_str(&self.callable_group().async_func)
    }

    fn finish_func(&self) -> (r: Option<&str>)
        ensures
            opt_view(r) == opt_view(self.callable_spec().finish_func),
    {
        opt_as_str(&self.callable_group().finish_func)
    }

    fn sync_func(&self) -> (r: Option<&str>)
        ensures
            opt_view(r) == opt_view(self.callable_spec().sync_func),
    {
        opt_as_str(&self.callable_group().sync_func)
    }
}

} // verus!
