use vstd::prelude::*;

verus! {

use crate::ParserError;
use crate::attribute::{Attribute, attribute_list_ok, attribute_list_matches, collect_attributes};
use crate::documentation::{Docs, docs_ok, docs_matches};
use crate::traits::{Documentable, Attributable, Info, Callable, InfoAttrs, CallableAttrs,
    info_ok, info_matches, callable_ok, callable_matches};
use crate::schema::{req_attr_spec, opt_bool_attr, req_attr, attr_opt_bool};
use crate::xml::{XmlElement, attr_of, attrs_within, tags_within, first_tagged, names_view,
    opt_view, opt_deref, check_attrs_within, check_tags_within, first_child, attr_string,
    opt_as_str};
use crate::{TransferOwnership, FunctionScope};
use crate::ty::{AnyType, any_type_ok, any_type_matches, any_type_tags};
use crate::schema::{opt_uint_attr, opt_transfer_attr, opt_scope_attr, attr_opt_usize,
    attr_opt_transfer, attr_opt_scope};
use crate::xml::{first_tagged_any, first_child_any, opt_view_nat_usize};

/// The one return value of a callable.
#[derive(Debug)]
pub struct ReturnValue {
    pub introspectable: Option<bool>,
    pub nullable: Option<bool>,
    pub closure: Option<usize>,
    pub scope: Option<FunctionScope>,
    pub destroy: Option<usize>,
    pub skip: Option<bool>,
    pub allow_none: Option<bool>,
    pub transfer: Option<TransferOwnership>,
    pub docs: Docs,
    pub attributes: Vec<Attribute>,
    pub type_: AnyType,
}

pub open spec fn return_value_attr_names() -> Seq<Seq<char>> {
    seq!["introspectable"@, "nullable"@, "closure"@, "scope"@, "destroy"@, "skip"@, "allow-none"@, "transfer-ownership"@]
}

pub open spec fn return_value_child_names() -> Seq<Seq<char>> {
    seq!["doc"@, "doc-deprecated"@, "doc-stability"@, "doc-version"@, "source-position"@, "attribute"@, "type"@, "array"@]
}

/// Whether a return-value element maps onto the record without a structural error.
pub open spec fn return_value_ok(e: XmlElement) -> bool {
    &&& attrs_within(e.attrs@, return_value_attr_names())
    &&& tags_within(e.children@, return_value_child_names())
    &&& opt_bool_attr(e, "introspectable"@) is Ok
    &&& opt_bool_attr(e, "nullable"@) is Ok
    &&& opt_uint_attr(e, "closure"@, usize::MAX as nat) is Ok
    &&& opt_scope_attr(e, "scope"@) is Ok
    &&& opt_uint_attr(e, "destroy"@, usize::MAX as nat) is Ok
    &&& opt_bool_attr(e, "skip"@) is Ok
    &&& opt_bool_attr(e, "allow-none"@) is Ok
    &&& opt_transfer_attr(e, "transfer-ownership"@) is Ok
    &&& docs_ok(e)
    &&& attribute_list_ok(e)
    &&& match first_tagged_any(e.children@, any_type_tags()) {
        Some(c) => any_type_ok(c),
        None => false,
    }
}

/// How a return-value element maps onto the record, field for field.
pub open spec fn return_value_matches(e: XmlElement, x: ReturnValue) -> bool {
    &&& opt_bool_attr(e, "introspectable"@) == Ok::<_, ()>(x.introspectable)
    &&& opt_bool_attr(e, "nullable"@) == Ok::<_, ()>(x.nullable)
    &&& opt_uint_attr(e, "closure"@, usize::MAX as nat) == Ok::<_, ()>(opt_view_nat_usize(x.closure))
    &&& opt_scope_attr(e, "scope"@) == Ok::<_, ()>(x.scope)
    &&& opt_uint_attr(e, "destroy"@, usize::MAX as nat) == Ok::<_, ()>(opt_view_nat_usize(x.destroy))
    &&& opt_bool_attr(e, "skip"@) == Ok::<_, ()>(x.skip)
    &&& opt_bool_attr(e, "allow-none"@) == Ok::<_, ()>(x.allow_none)
    &&& opt_transfer_attr(e, "transfer-ownership"@) == Ok::<_, ()>(x.transfer)
    &&& docs_matches(e, x.docs)
    &&& attribute_list_matches(e, x.attributes@)
    &&& match first_tagged_any(e.children@, any_type_tags()) {
        Some(c) => any_type_matches(c, x.type_),
        None => false,
    }
}

impl ReturnValue {
    pub fn from_element(e: &XmlElement) -> (r: Result<ReturnValue, ParserError>)
        ensures
            r matches Err(err) ==> err is Xml,
            r matches Ok(x) ==> return_value_matches(*e, x),
            r is Ok <==> return_value_ok(*e),
    {
        let attr_names: [&str; 8] = [
            "introspectable",
            "nullable",
            "closure",
            "scope",
            "destroy",
            "skip",
            "allow-none",
            "transfer-ownership",
        ];
        let child_names: [&str; 8] = [
            "doc",
            "doc-deprecated",
            "doc-stability",
            "doc-version",
            "source-position",
            "attribute",
            "type",
            "array",
        ];
        let within = check_attrs_within(e, &attr_names) && check_tags_within(e, &child_names);
        proof {
            assert(names_view(attr_names@) =~= return_value_attr_names());
            assert(names_view(child_names@) =~= return_value_child_names());
        }
        if !within {
            return Err(crate::xml_error("unrecognized content on an element"));
        }
        let introspectable = attr_opt_bool(e, "introspectable")?;
        let nullable = attr_opt_bool(e, "nullable")?;
        let closure = attr_opt_usize(e, "closure")?;
        let scope = attr_opt_scope(e, "scope")?;
        let destroy = attr_opt_usize(e, "destroy")?;
        let skip = attr_opt_bool(e, "skip")?;
        let allow_none = attr_opt_bool(e, "allow-none")?;
        let transfer = attr_opt_transfer(e, "transfer-ownership")?;
        let docs = Docs::from_children(e)?;
        let attributes = collect_attributes(e)?;
        let tag_names: [&str; 2] = ["type", "array"];
        proof {
            assert(names_view(tag_names@) =~= any_type_tags());
        }
        let type_ = match first_child_any(e, &tag_names) {
            Some(c) => AnyType::from_element(c)?,
            None => {
                return Err(crate::xml_error("a required child element is absent"));
            },
        };
        Ok(ReturnValue { introspectable, nullable, closure, scope, destroy, skip, allow_none, transfer, docs, attributes, type_ })
    }

    pub fn is_introspectable(&self) -> (r: bool)
        ensures
            r == self.introspectable.unwrap_or(true),
    {
        self.introspectable.unwrap_or(true)
    }

    pub fn is_nullable(&self) -> (r: Option<bool>)
        ensures
            r == self.nullable,
    {
        self.nullable
    }

    pub fn closure(&self) -> (r: Option<usize>)
        ensures
            r == self.closure,
    {
        self.closure
    }

    pub fn scope(&self) -> (r: Option<FunctionScope>)
        ensures
            r == self.scope,
    {
        self.scope
    }

    pub fn destroy(&self) -> (r: Option<usize>)
        ensures
            r == self.destroy,
    {
        self.destroy
    }

    pub fn is_skip(&self) -> (r: Option<bool>)
        ensures
            r == self.skip,
    {
        self.skip
    }

    pub fn is_allow_none(&self) -> (r: Option<bool>)
        ensures
            r == self.allow_none,
    {
        self.allow_none
    }

    pub fn transfer_ownership(&self) -> (r: Option<TransferOwnership>)
        ensures
            r == self.transfer,
    {
        self.transfer
    }

    pub fn ty(&self) -> (r: &AnyType)
        ensures
            *r == self.type_,
    {
        &self.type_
    }

}

impl Documentable for ReturnValue {
    open spec fn docs_spec(&self) -> Docs {
        self.docs
    }

    fn docs_group(&self) -> (r: &Docs) {
        &self.docs
    }
}

impl Attributable for ReturnValue {
    open spec fn attributes_spec(&self) -> Seq<Attribute> {
        self.attributes@
    }

    fn attributes(&self) -> (r: &[Attribute]) {
        self.attributes.as_slice()
    }
}

} // verus!
