use vstd::prelude::*;

verus! {

use crate::ParserError;
use crate::xml::{XmlElement, attr_of, find_attr, opt_view};
use crate::scalar::{bool_of, parse_bool, uint_of, parse_uint};
use crate::version::{Version, version_of};
use crate::{Stability, stability_of, TransferOwnership, transfer_of, FunctionScope, scope_of};

/// A required attribute field: absent means a structural error.
pub open spec fn req_attr_spec(e: XmlElement, name: Seq<char>) -> Result<Seq<char>, ()> {
    match attr_of(e, name) {
        Some(s) => Ok(s),
        None => Err(()),
    }
}

/// A typed optional boolean attribute: absent is fine, an unreadable value is
/// a structural error.
pub open spec fn opt_bool_attr(e: XmlElement, name: Seq<char>) -> Result<Option<bool>, ()> {
    match attr_of(e, name) {
        None => Ok(None),
        Some(s) => match bool_of(s) {
            Some(b) => Ok(Some(b)),
            None => Err(()),
        },
    }
}

/// A typed optional unsigned attribute bounded by `max`.
pub open spec fn opt_uint_attr(e: XmlElement, name: Seq<char>, max: nat) -> Result<
    Option<nat>,
    (),
> {
    match attr_of(e, name) {
        None => Ok(None),
        Some(s) => match uint_of(s, max) {
            Some(v) => Ok(Some(v)),
            None => Err(()),
        },
    }
}

/// An optional version attribute; the version scalar reads leniently and never
/// fails.
pub open spec fn opt_version_attr(e: XmlElement, name: Seq<char>) -> Option<Version> {
    match attr_of(e, name) {
        None => None,
        Some(s) => Some(version_of(s)),
    }
}

/// A typed optional stability attribute.
pub open spec fn opt_stability_attr(e: XmlElement, name: Seq<char>) -> Result<
    Option<Stability>,
    (),
> {
    match attr_of(e, name) {
        None => Ok(None),
        Some(s) => match stability_of(s) {
            Some(v) => Ok(Some(v)),
            None => Err(()),
        },
    }
}

/// A typed optional ownership-transfer attribute.
pub open spec fn opt_transfer_attr(e: XmlElement, name: Seq<char>) -> Result<
    Option<TransferOwnership>,
    (),
> {
    match attr_of(e, name) {
        None => Ok(None),
        Some(s) => match transfer_of(s) {
            Some(v) => Ok(Some(v)),
            None => Err(()),
        },
    }
}

/// A typed optional function-scope attribute.
pub open spec fn opt_scope_attr(e: XmlElement, name: Seq<char>) -> Result<
    Option<FunctionScope>,
    (),
> {
    match attr_of(e, name) {
        None => Ok(None),
        Some(s) => match scope_of(s) {
            Some(v) => Ok(Some(v)),
            None => Err(()),
        },
    }
}

pub fn req_attr(e: &XmlElement, name: &str) -> (r: Result<String, ParserError>)
    ensures
        r matches Err(err) ==> err is Xml,
        r matches Ok(v) ==> req_attr_spec(*e, name@) == Ok::<_, ()>(v@),
        r is Err <==> req_attr_spec(*e, name@) is Err,
{
    match find_attr(e, name) {
        Some(v) => Ok(v.clone()),
        None => Err(crate::xml_error("a required attribute is absent")),
    }
}

pub fn attr_opt_bool(e: &XmlElement, name: &str) -> (r: Result<Option<bool>, ParserError>)
    ensures
        r matches Err(err) ==> err is Xml,
        r matches Ok(v) ==> opt_bool_attr(*e, name@) == Ok::<_, ()>(v),
        r is Err <==> opt_bool_attr(*e, name@) is Err,
{
    match find_attr(e, name) {
        None => Ok(None),
        Some(s) => match parse_bool(s.as_str()) {
            Some(b) => Ok(Some(b)),
            None => Err(crate::xml_error("a boolean attribute does not parse")),
        },
    }
}

pub fn attr_opt_u8(e: &XmlElement, name: &str) -> (r: Result<Option<u8>, ParserError>)
    ensures
        r matches Err(err) ==> err is Xml,
        r matches Ok(v) ==> opt_uint_attr(*e, name@, u8::MAX as nat) == Ok::<_, ()>(
            crate::xml::opt_view_nat(v),
        ),
        r is Err <==> opt_uint_attr(*e, name@, u8::MAX as nat) is Err,
{
    match find_attr(e, name) {
        None => Ok(None),
        Some(s) => match parse_uint(s.as_str(), 255) {
            Some(v) => Ok(Some(v as u8)),
            None => Err(crate::xml_error("an unsigned attribute does not parse")),
        },
    }
}

pub fn attr_opt_usize(e: &XmlElement, name: &str) -> (r: Result<Option<usize>, ParserError>)
    ensures
        r matches Err(err) ==> err is Xml,
        r matches Ok(v) ==> opt_uint_attr(*e, name@, usize::MAX as nat) == Ok::<_, ()>(
            crate::xml::opt_view_nat_usize(v),
        ),
        r is Err <==> opt_uint_attr(*e, name@, usize::MAX as nat) is Err,
{
    match find_attr(e, name) {
        None => Ok(None),
        Some(s) => match parse_uint(s.as_str(), usize::MAX as u64) {
            Some(v) => Ok(Some(v as usize)),
            None => Err(crate::xml_error("an unsigned attribute does not parse")),
        },
    }
}

pub fn attr_opt_version(e: &XmlElement, name: &str) -> (r: Option<Version>)
    ensures
        r == opt_version_attr(*e, name@),
{
    match find_attr(e, name) {
        None => None,
        Some(s) => Some(Version::parse(s.as_str())),
    }
}

pub fn attr_opt_stability(e: &XmlElement, name: &str) -> (r: Result<
    Option<Stability>,
    ParserError,
>)
    ensures
        r matches Err(err) ==> err is Xml,
        r matches Ok(v) ==> opt_stability_attr(*e, name@) == Ok::<_, ()>(v),
        r is Err <==> opt_stability_attr(*e, name@) is Err,
{
    match find_attr(e, name) {
        None => Ok(None),
        Some(s) => match Stability::parse(s.as_str()) {
            Some(v) => Ok(Some(v)),
            None => Err(crate::xml_error("a stability attribute does not parse")),
        },
    }
}

pub fn attr_opt_transfer(e: &XmlElement, name: &str) -> (r: Result<
    Option<TransferOwnership>,
    ParserError,
>)
    ensures
        r matches Err(err) ==> err is Xml,
        r matches Ok(v) ==> opt_transfer_attr(*e, name@) == Ok::<_, ()>(v),
        r is Err <==> opt_transfer_attr(*e, name@) is Err,
{
    match find_attr(e, name) {
        None => Ok(None),
        Some(s) => match TransferOwnership::parse(s.as_str()) {
            Some(v) => Ok(Some(v)),
            None => Err(crate::xml_error("a transfer-ownership attribute does not parse")),
        },
    }
}

pub fn attr_opt_scope(e: &XmlElement, name: &str) -> (r: Result<
    Option<FunctionScope>,
    ParserError,
>)
    ensures
        r matches Err(err) ==> err is Xml,
        r matches Ok(v) ==> opt_scope_attr(*e, name@) == Ok::<_, ()>(v),
        r is Err <==> opt_scope_attr(*e, name@) is Err,
{
    match find_attr(e, name) {
        None => Ok(None),
        Some(s) => match FunctionScope::parse(s.as_str()) {
            Some(v) => Ok(Some(v)),
            None => Err(crate::xml_error("a scope attribute does not parse")),
        },
    }
}

} // verus!
