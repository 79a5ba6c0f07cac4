//! A reader for GObject-Introspection Repository documents: an XML dialect
//! describing a native library's types, functions, signals and properties.
//!
//! One document is mapped, element by element, onto a typed, read-only object
//! model; a directory of interdependent documents is resolved, include by
//! include, into a consistent set of parsed repositories. The mapping rules --
//! which attribute and child each field takes, which positions dispatch on the
//! child's tag, which entities reject unrecognized content -- are stated as
//! specifications beside each entity and proved of the code that applies them.
//! Only the generic XML tokenizer is taken on trust.

use vstd::prelude::*;

pub mod alias;
pub mod array;
pub mod attribute;
pub mod bitfield;
pub mod boxed;
pub mod callback;
pub mod class;
pub mod constant;
pub mod documentation;
pub mod enums;
pub mod field;
pub mod function;
pub mod function_macro;
pub mod interface;
pub mod member;
pub mod method;
pub mod namespace;
pub mod parameter;
pub mod prelude;
pub mod property;
pub mod record;
pub mod repository;
pub mod return_value;
pub mod scalar;
pub mod schema;
pub mod signal;
pub mod traits;
pub mod ty;
pub mod union;
pub mod version;
pub mod virtual_method;
pub mod xml;
pub mod xmlio;


pub use alias::Alias;
pub use array::Array;
pub use attribute::Attribute;
pub use bitfield::BitField;
pub use boxed::Boxed;
pub use callback::Callback;
pub use class::{Class, ClassField, Implements};
pub use constant::Constant;
pub use documentation::{DocDeprecated, DocStability, DocVersion, Docs, Documentation,
    SourcePosition};
pub use enums::Enumeration;
pub use field::{Field, FieldType};
pub use function::{Function, FunctionInline};
pub use function_macro::FunctionMacro;
pub use interface::{Interface, InterfaceField, Prerequisite};
pub use member::Member;
pub use method::{Method, MethodInline};
pub use namespace::Namespace;
pub use parameter::{AnyParameter, Direction, InstanceParameter, Parameter, ParameterType,
    Parameters};
pub use property::Property;
pub use record::{Record, RecordField};
pub use repository::{DocFormat, GirDirectory, GirFile, HeaderInclude, NamespaceInclude, Package,
    Repository, RepositoryMap};
pub use return_value::ReturnValue;
pub use signal::Signal;
pub use traits::{Attributable, Callable, CallableAttrs, Documentable, Info, InfoAttrs};
pub use ty::{AnyType, Type};
pub use union::{Union, UnionField};
pub use version::Version;
pub use virtual_method::VirtualMethod;

verus! {

/// The failure kinds of this library: an I/O failure reported by whatever read
/// the document text, a structural failure found while mapping a document onto
/// the typed model, and the explicit cycle defect raised by the dependency
/// resolver.
#[derive(Debug)]
pub enum ParserError {
    IO(String),
    Xml(String),
    Cycle(String),
}

impl ParserError {
    /// The failure described for a reader, with the kind named first.
    pub fn message(&self) -> (r: String)
        ensures
            r@ == match self {
                ParserError::IO(m) => "I/O operation failed "@ + m@,
                ParserError::Xml(m) => "Failed to parse xml file: "@ + m@,
                ParserError::Cycle(m) => "Cyclic include chain: "@ + m@,
            },
    {
        match self {
            ParserError::IO(m) => {
                let mut s = "I/O operation failed ".to_owned();
                s.append(m.as_str());
                s
            },
            ParserError::Xml(m) => {
                let mut s = "Failed to parse xml file: ".to_owned();
                s.append(m.as_str());
                s
            },
            ParserError::Cycle(m) => {
                let mut s = "Cyclic include chain: ".to_owned();
                s.append(m.as_str());
                s
            },
        }
    }
}

pub(crate) fn xml_error(msg: &str) -> (r: ParserError)
    ensures
        r matches ParserError::Xml(m) && m@ == msg@,
{
    ParserError::Xml(msg.to_owned())
}

/// The stability scalar: a closed, fixed string-keyed enumeration.
#[derive(Debug, Copy, Clone, PartialEq, Eq, PartialOrd, Ord)]
pub enum Stability {
    Stable,
    Unstable,
    Private,
}

pub open spec fn stability_of(s: Seq<char>) -> Option<Stability> {
    if s == "Stable"@ {
        Some(Stability::Stable)
    } else if s == "Unstable"@ {
        Some(Stability::Unstable)
    } else if s == "Private"@ {
        Some(Stability::Private)
    } else {
        None
    }
}

pub open spec fn stability_str(v: Stability) -> Seq<char> {
    match v {
        Stability::Stable => "Stable"@,
        Stability::Unstable => "Unstable"@,
        Stability::Private => "Private"@,
    }
}

impl Stability {
    /// Reads the scalar; a string outside the declared literals does not
    /// parse.
    pub fn parse(s: &str) -> (r: Option<Stability>)
        ensures
            r == stability_of(s@),
    {
        if crate::xml::str_eq(s, "Stable") {
            Some(Stability::Stable)
        } else if crate::xml::str_eq(s, "Unstable") {
            Some(Stability::Unstable)
        } else if crate::xml::str_eq(s, "Private") {
            Some(Stability::Private)
        } else {
            None
        }
    }

    /// Renders the scalar's declared literal.
    pub fn as_str(&self) -> (r: &'static str)
        ensures
            r@ == stability_str(*self),
    {
        match self {
            Stability::Stable => "Stable",
            Stability::Unstable => "Unstable",
            Stability::Private => "Private",
        }
    }
}

/// The stability codec round-trips: rendering then reading gives the value
/// back.
pub proof fn lemma_stability_round_trip(v: Stability)
    ensures
        stability_of(stability_str(v)) == Some(v),
{
    reveal_strlit("Stable");
    reveal_strlit("Unstable");
    reveal_strlit("Private");
    assert("Stable"@.len() == 6 && "Unstable"@.len() == 8 && "Private"@.len() == 7);
}

/// The ownership-transfer scalar: which side of a call becomes responsible for
/// releasing a value.
#[derive(Debug, Copy, Clone, PartialEq, Eq, PartialOrd, Ord)]
pub enum TransferOwnership {
    NoTransfer,
    Container,
    Full,
}

pub open spec fn transfer_of(s: Seq<char>) -> Option<TransferOwnership> {
    if s == "none"@ {
        Some(TransferOwnership::NoTransfer)
    } else if s == "container"@ {
        Some(TransferOwnership::Container)
    } else if s == "full"@ {
        Some(TransferOwnership::Full)
    } else {
        None
    }
}

pub open spec fn transfer_str(v: TransferOwnership) -> Seq<char> {
    match v {
        TransferOwnership::NoTransfer => "none"@,
        TransferOwnership::Container => "container"@,
        TransferOwnership::Full => "full"@,
    }
}

impl TransferOwnership {
    pub fn parse(s: &str) -> (r: Option<TransferOwnership>)
        ensures
            r == transfer_of(s@),
    {
        if crate::xml::str_eq(s, "none") {
            Some(TransferOwnership::NoTransfer)
        } else if crate::xml::str_eq(s, "container") {
            Some(TransferOwnership::Container)
        } else if crate::xml::str_eq(s, "full") {
            Some(TransferOwnership::Full)
        } else {
            None
        }
    }

    pub fn as_str(&self) -> (r: &'static str)
        ensures
            r@ == transfer_str(*self),
    {
        match self {
            TransferOwnership::NoTransfer => "none",
            TransferOwnership::Container => "container",
            TransferOwnership::Full => "full",
        }
    }

    pub fn is_none(&self) -> (r: bool)
        ensures
            r == (*self == TransferOwnership::NoTransfer),
    {
        matches!(self, TransferOwnership::NoTransfer)
    }

    pub fn is_full(&self) -> (r: bool)
        ensures
            r == (*self == TransferOwnership::Full),
    {
        matches!(self, TransferOwnership::Full)
    }

    pub fn is_container(&self) -> (r: bool)
        ensures
            r == (*self == TransferOwnership::Container),
    {
        matches!(self, TransferOwnership::Container)
    }
}

/// The ownership-transfer codec round-trips.
pub proof fn lemma_transfer_round_trip(v: TransferOwnership)
    ensures
        transfer_of(transfer_str(v)) == Some(v),
{
    reveal_strlit("none");
    reveal_strlit("container");
    reveal_strlit("full");
    assert("none"@.len() == 4 && "container"@.len() == 9 && "full"@.len() == 4);
    assert("none"@[0] == 'n' && "full"@[0] == 'f');
}

/// The function-scope scalar: how long a passed callback stays valid.
#[derive(Debug, Copy, Clone, PartialEq, Eq, PartialOrd, Ord)]
pub enum FunctionScope {
    Call,
    Notified,
    Async,
    Forever,
}

pub open spec fn scope_of(s: Seq<char>) -> Option<FunctionScope> {
    if s == "call"@ {
        Some(FunctionScope::Call)
    } else if s == "notified"@ {
        Some(FunctionScope::Notified)
    } else if s == "async"@ {
        Some(FunctionScope::Async)
    } else if s == "forever"@ {
        Some(FunctionScope::Forever)
    } else {
        None
    }
}

pub open spec fn scope_str(v: FunctionScope) -> Seq<char> {
    match v {
        FunctionScope::Call => "call"@,
        FunctionScope::Notified => "notified"@,
        FunctionScope::Async => "async"@,
        FunctionScope::Forever => "forever"@,
    }
}

impl FunctionScope {
    pub fn parse(s: &str) -> (r: Option<FunctionScope>)
        ensures
            r == scope_of(s@),
    {
        if crate::xml::str_eq(s, "call") {
            Some(FunctionScope::Call)
        } else if crate::xml::str_eq(s, "notified") {
            Some(FunctionScope::Notified)
        } else if crate::xml::str_eq(s, "async") {
            Some(FunctionScope::Async)
        } else if crate::xml::str_eq(s, "forever") {
            Some(FunctionScope::Forever)
        } else {
            None
        }
    }

    pub fn as_str(&self) -> (r: &'static str)
        ensures
            r@ == scope_str(*self),
    {
        match self {
            FunctionScope::Call => "call",
            FunctionScope::Notified => "notified",
            FunctionScope::Async => "async",
            FunctionScope::Forever => "forever",
        }
    }

    pub fn is_call(&self) -> (r: bool)
        ensures
            r == (*self == FunctionScope::Call),
    {
        matches!(self, FunctionScope::Call)
    }

    pub fn is_notified(&self) -> (r: bool)
        ensures
            r == (*self == FunctionScope::Notified),
    {
        matches!(self, FunctionScope::Notified)
    }

    pub fn is_async(&self) -> (r: bool)
        ensures
            r == (*self == FunctionScope::Async),
    {
        matches!(self, FunctionScope::Async)
    }

    pub fn is_forever(&self) -> (r: bool)
        ensures
            r == (*self == FunctionScope::Forever),
    {
        matches!(self, FunctionScope::Forever)
    }
}

/// The function-scope codec round-trips.
pub proof fn lemma_scope_round_trip(v: FunctionScope)
    ensures
        scope_of(scope_str(v)) == Some(v),
{
    reveal_strlit("call");
    reveal_strlit("notified");
    reveal_strlit("async");
    reveal_strlit("forever");
    assert("call"@.len() == 4 && "notified"@.len() == 8 && "async"@.len() == 5 && "forever"@.len()
        == 7);
    assert("call"@[0] == 'c' && "async"@[0] == 'a');
}

/// The signal-emission-stage scalar.
#[derive(Debug, Copy, Clone, PartialEq, Eq, PartialOrd, Ord)]
pub enum SignalEmission {
    First,
    Last,
    Cleanup,
}

pub open spec fn emission_of(s: Seq<char>) -> Option<SignalEmission> {
    if s == "first"@ {
        Some(SignalEmission::First)
    } else if s == "last"@ {
        Some(SignalEmission::Last)
    } else if s == "cleanup"@ {
        Some(SignalEmission::Cleanup)
    } else {
        None
    }
}

pub open spec fn emission_str(v: SignalEmission) -> Seq<char> {
    match v {
        SignalEmission::First => "first"@,
        SignalEmission::Last => "last"@,
        SignalEmission::Cleanup => "cleanup"@,
    }
}

impl SignalEmission {
    pub fn parse(s: &str) -> (r: Option<SignalEmission>)
        ensures
            r == emission_of(s@),
    {
        if crate::xml::str_eq(s, "first") {
            Some(SignalEmission::First)
        } else if crate::xml::str_eq(s, "last") {
            Some(SignalEmission::Last)
        } else if crate::xml::str_eq(s, "cleanup") {
            Some(SignalEmission::Cleanup)
        } else {
            None
        }
    }

    pub fn as_str(&self) -> (r: &'static str)
        ensures
            r@ == emission_str(*self),
    {
        match self {
            SignalEmission::First => "first",
            SignalEmission::Last => "last",
            SignalEmission::Cleanup => "cleanup",
        }
    }
}

/// The signal-emission codec round-trips.
pub proof fn lemma_emission_round_trip(v: SignalEmission)
    ensures
        emission_of(emission_str(v)) == Some(v),
{
    reveal_strlit("first");
    reveal_strlit("last");
    reveal_strlit("cleanup");
    assert("first"@.len() == 5 && "last"@.len() == 4 && "cleanup"@.len() == 7);
}

} // verus!
