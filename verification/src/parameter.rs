use vstd::prelude::*;

verus! {

use crate::ParserError;
use crate::{TransferOwnership, FunctionScope};
use crate::attribute::{Attribute, attribute_list_ok, attribute_list_matches, collect_attributes};
use crate::documentation::{Docs, docs_ok, docs_matches};
use crate::array::{Array, array_ok, array_matches};
use crate::ty::{Type, type_ok, type_matches};
use crate::traits::{Documentable, Attributable};
use crate::schema::{req_attr_spec, opt_bool_attr, opt_uint_attr, opt_transfer_attr,
    opt_scope_attr, req_attr, attr_opt_bool, attr_opt_usize, attr_opt_transfer, attr_opt_scope};
use crate::xml::{XmlElement, attr_of, attrs_within, tags_within, first_tagged, first_tagged_any,
    tagged_children, names_view, opt_view, opt_view_nat_usize, opt_deref, check_attrs_within,
    check_tags_within, first_child, first_child_any, children_tagged, derefs, attr_string,
    opt_as_str, str_eq};

/// The direction scalar of a parameter.
#[derive(Debug, Copy, Clone, PartialEq, Eq, PartialOrd, Ord)]
pub enum Direction {
    In,
    Out,
    InOut,
}

pub open spec fn direction_of(s: Seq<char>) -> Option<Direction> {
    if s == "in"@ {
        Some(Direction::In)
    } else if s == "out"@ {
        Some(Direction::Out)
    } else if s == "inout"@ {
        Some(Direction::InOut)
    } else {
        None
    }
}

pub open spec fn direction_str(v: Direction) -> Seq<char> {
    match v {
        Direction::In => "in"@,
        Direction::Out => "out"@,
        Direction::InOut => "inout"@,
    }
}

impl Direction {
    pub fn parse(s: &str) -> (r: Option<Direction>)
        ensures
            r == direction_of(s@),
    {
        if str_eq(s, "in") {
            Some(Direction::In)
        } else if str_eq(s, "out") {
            Some(Direction::Out)
        } else if str_eq(s, "inout") {
            Some(Direction::InOut)
        } else {
            None
        }
    }

    pub fn as_str(&self) -> (r: &'static str)
        ensures
            r@ == direction_str(*self),
    {
        match self {
            Direction::In => "in",
            Direction::Out => "out",
            Direction::InOut => "inout",
        }
    }
}

/// The direction codec round-trips.
pub proof fn lemma_direction_round_trip(v: Direction)
    ensures
        direction_of(direction_str(v)) == Some(v),
{
    reveal_strlit("in");
    reveal_strlit("out");
    reveal_strlit("inout");
    assert("in"@.len() == 2 && "out"@.len() == 3 && "inout"@.len() == 5);
}

/// A typed optional direction attribute.
pub open spec fn opt_direction_attr(e: XmlElement, name: Seq<char>) -> Result<
    Option<Direction>,
    (),
> {
    match attr_of(e, name) {
        None => Ok(None),
        Some(s) => match direction_of(s) {
            Some(v) => Ok(Some(v)),
            None => Err(()),
        },
    }
}

pub fn attr_opt_direction(e: &XmlElement, name: &str) -> (r: Result<Option<Direction>, ParserError>)
    ensures
        r matches Err(err) ==> err is Xml,
        r matches Ok(v) ==> opt_direction_attr(*e, name@) == Ok::<_, ()>(v),
        r is Err <==> opt_direction_attr(*e, name@) is Err,
{
    match crate::xml::find_attr(e, name) {
        None => Ok(None),
        Some(s) => match Direction::parse(s.as_str()) {
            Some(v) => Ok(Some(v)),
            None => Err(crate::xml_error("a direction attribute does not parse")),
        },
    }
}

/// The shape of a parameter's type position: a plain type, an array, or the
/// content-less variadic marker, dispatched on the child's tag.
#[derive(Debug)]
pub enum ParameterType {
    Type(Type),
    Array(Array),
    VarArgs,
}

pub open spec fn parameter_type_tags() -> Seq<Seq<char>> {
    seq!["type"@, "array"@, "varargs"@]
}

pub open spec fn parameter_type_ok(e: XmlElement) -> bool {
    if e.tag@ == "type"@ {
        type_ok(e)
    } else if e.tag@ == "array"@ {
        array_ok(e)
    } else if e.tag@ == "varargs"@ {
        true
    } else {
        false
    }
}

pub open spec fn parameter_type_matches(e: XmlElement, t: ParameterType) -> bool {
    match t {
        ParameterType::Type(x) => e.tag@ == "type"@ && type_matches(e, x),
        ParameterType::Array(a) => e.tag@ == "array"@ && array_matches(e, a),
        ParameterType::VarArgs => e.tag@ == "varargs"@,
    }
}

impl ParameterType {
    /// Maps an element whose tag already matched the dispatch set.
    pub fn from_element(e: &XmlElement) -> (r: Result<ParameterType, ParserError>)
        ensures
            r matches Err(err) ==> err is Xml,
            r matches Ok(t) ==> parameter_type_matches(*e, t),
            r is Ok <==> parameter_type_ok(*e),
    {
        if str_eq(e.tag.as_str(), "type") {
            match Type::from_element(e) {
                Ok(t) => Ok(ParameterType::Type(t)),
                Err(er) => Err(er),
            }
        } else if str_eq(e.tag.as_str(), "array") {
            match Array::from_element(e) {
                Ok(a) => Ok(ParameterType::Array(a)),
                Err(er) => Err(er),
            }
        } else if str_eq(e.tag.as_str(), "varargs") {
            Ok(ParameterType::VarArgs)
        } else {
            Err(crate::xml_error("an element does not fit a parameter type position"))
        }
    }
}

impl From<Type> for ParameterType {
    fn from(value: Type) -> (r: Self) {
        ParameterType::Type(value)
    }
}

impl vstd::std_specs::convert::FromSpecImpl<Type> for ParameterType {
    open spec fn obeys_from_spec() -> bool {
        true
    }

    open spec fn from_spec(value: Type) -> Self {
        ParameterType::Type(value)
    }
}

impl From<crate::ty::AnyType> for ParameterType {
    fn from(value: crate::ty::AnyType) -> (r: Self) {
        match value {
            crate::ty::AnyType::Type(t) => ParameterType::Type(t),
            crate::ty::AnyType::Array(a) => ParameterType::Array(a),
        }
    }
}

impl vstd::std_specs::convert::FromSpecImpl<crate::ty::AnyType> for ParameterType {
    open spec fn obeys_from_spec() -> bool {
        true
    }

    open spec fn from_spec(value: crate::ty::AnyType) -> Self {
        match value {
            crate::ty::AnyType::Type(t) => ParameterType::Type(t),
            crate::ty::AnyType::Array(a) => ParameterType::Array(a),
        }
    }
}

/// One declared parameter of a callable.
#[derive(Debug)]
pub struct Parameter {
    pub name: String,
    pub transfer: Option<TransferOwnership>,
    pub nullable: Option<bool>,
    pub allow_none: Option<bool>,
    pub introspectable: Option<bool>,
    pub scope: Option<FunctionScope>,
    pub closure: Option<usize>,
    pub destroy: Option<usize>,
    pub direction: Option<Direction>,
    pub caller_allocates: Option<bool>,
    pub optional: Option<bool>,
    pub skip: Option<bool>,
    pub docs: Docs,
    pub attributes: Vec<Attribute>,
    pub type_: Option<ParameterType>,
}

pub open spec fn parameter_attr_names() -> Seq<Seq<char>> {
    seq!["name"@, "transfer-ownership"@, "nullable"@, "allow-none"@, "introspectable"@, "scope"@, "closure"@, "destroy"@, "direction"@, "caller-allocates"@, "optional"@, "skip"@]
}

pub open spec fn parameter_child_names() -> Seq<Seq<char>> {
    seq!["doc"@, "doc-deprecated"@, "doc-stability"@, "doc-version"@, "source-position"@, "attribute"@, "type"@, "array"@, "varargs"@]
}

/// Whether a parameter element maps onto the record without a structural error.
pub open spec fn parameter_ok(e: XmlElement) -> bool {
    &&& attrs_within(e.attrs@, parameter_attr_names())
    &&& tags_within(e.children@, parameter_child_names())
    &&& req_attr_spec(e, "name"@) is Ok
    &&& opt_transfer_attr(e, "transfer-ownership"@) is Ok
    &&& opt_bool_attr(e, "nullable"@) is Ok
    &&& opt_bool_attr(e, "allow-none"@) is Ok
    &&& opt_bool_attr(e, "introspectable"@) is Ok
    &&& opt_scope_attr(e, "scope"@) is Ok
    &&& opt_uint_attr(e, "closure"@, usize::MAX as nat) is Ok
    &&& opt_uint_attr(e, "destroy"@, usize::MAX as nat) is Ok
    &&& opt_direction_attr(e, "direction"@) is Ok
    &&& opt_bool_attr(e, "caller-allocates"@) is Ok
    &&& opt_bool_attr(e, "optional"@) is Ok
    &&& opt_bool_attr(e, "skip"@) is Ok
    &&& docs_ok(e)
    &&& attribute_list_ok(e)
    &&& match first_tagged_any(e.children@, parameter_type_tags()) {
        Some(c) => parameter_type_ok(c),
        None => true,
    }
}

/// How a parameter element maps onto the record, field for field.
pub open spec fn parameter_matches(e: XmlElement, x: Parameter) -> bool {
    &&& req_attr_spec(e, "name"@) == Ok::<_, ()>(x.name@)
    &&& opt_transfer_attr(e, "transfer-ownership"@) == Ok::<_, ()>(x.transfer)
    &&& opt_bool_attr(e, "nullable"@) == Ok::<_, ()>(x.nullable)
    &&& opt_bool_attr(e, "allow-none"@) == Ok::<_, ()>(x.allow_none)
    &&& opt_bool_attr(e, "introspectable"@) == Ok::<_, ()>(x.introspectable)
    &&& opt_scope_attr(e, "scope"@) == Ok::<_, ()>(x.scope)
    &&& opt_uint_attr(e, "closure"@, usize::MAX as nat) == Ok::<_, ()>(opt_view_nat_usize(x.closure))
    &&& opt_uint_attr(e, "destroy"@, usize::MAX as nat) == Ok::<_, ()>(opt_view_nat_usize(x.destroy))
    &&& opt_direction_attr(e, "direction"@) == Ok::<_, ()>(x.direction)
    &&& opt_bool_attr(e, "caller-allocates"@) == Ok::<_, ()>(x.caller_allocates)
    &&& opt_bool_attr(e, "optional"@) == Ok::<_, ()>(x.optional)
    &&& opt_bool_attr(e, "skip"@) == Ok::<_, ()>(x.skip)
    &&& docs_matches(e, x.docs)
    &&& attribute_list_matches(e, x.attributes@)
    &&& match first_tagged_any(e.children@, parameter_type_tags()) {
        Some(c) => x.type_ matches Some(w) && parameter_type_matches(c, w),
        None => x.type_ is None,
    }
}

impl Parameter {
    pub fn from_element(e: &XmlElement) -> (r: Result<Parameter, ParserError>)
        ensures
            r matches Err(err) ==> err is Xml,
            r matches Ok(x) ==> parameter_matches(*e, x),
            r is Ok <==> parameter_ok(*e),
    {
        let attr_names: [&str; 12] = [
            "name",
            "transfer-ownership",
            "nullable",
            "allow-none",
            "introspectable",
            "scope",
            "closure",
            "destroy",
            "direction",
            "caller-allocates",
            "optional",
            "skip",
        ];
        let child_names: [&str; 9] = [
            "doc",
            "doc-deprecated",
            "doc-stability",
            "doc-version",
            "source-position",
            "attribute",
            "type",
            "array",
            "varargs",
        ];
        let within = check_attrs_within(e, &attr_names) && check_tags_within(e, &child_names);
        proof {
            assert(names_view(attr_names@) =~= parameter_attr_names());
            assert(names_view(child_names@) =~= parameter_child_names());
        }
        if !within {
            return Err(crate::xml_error("unrecognized content on an element"));
        }
        let name = req_attr(e, "name")?;
        let transfer = attr_opt_transfer(e, "transfer-ownership")?;
        let nullable = attr_opt_bool(e, "nullable")?;
        let allow_none = attr_opt_bool(e, "allow-none")?;
        let introspectable = attr_opt_bool(e, "introspectable")?;
        let scope = attr_opt_scope(e, "scope")?;
        let closure = attr_opt_usize(e, "closure")?;
        let destroy = attr_opt_usize(e, "destroy")?;
        let direction = attr_opt_direction(e, "direction")?;
        let caller_allocates = attr_opt_bool(e, "caller-allocates")?;
        let optional = attr_opt_bool(e, "optional")?;
        let skip = attr_opt_bool(e, "skip")?;
        let docs = Docs::from_children(e)?;
        let attributes = collect_attributes(e)?;
        let tag_names: [&str; 3] = ["type", "array", "varargs"];
        proof {
            assert(names_view(tag_names@) =~= parameter_type_tags());
        }
        let type_ = match first_child_any(e, &tag_names) {
            Some(c) => Some(ParameterType::from_element(c)?),
            None => None,
        };
        Ok(Parameter { name, transfer, nullable, allow_none, introspectable, scope, closure, destroy, direction, caller_allocates, optional, skip, docs, attributes, type_ })
    }

    pub fn name(&self) -> (r: &str)
        ensures
            r@ == self.name@,
    {
        self.name.as_str()
    }

    pub fn is_nullable(&self) -> (r: Option<bool>)
        ensures
            r == self.nullable,
    {
        self.nullable
    }

    pub fn is_allow_none(&self) -> (r: Option<bool>)
        ensures
            r == self.allow_none,
    {
        self.allow_none
    }

    pub fn is_introspectable(&self) -> (r: bool)
        ensures
            r == self.introspectable.unwrap_or(true),
    {
        self.introspectable.unwrap_or(true)
    }

    pub fn scope(&self) -> (r: Option<FunctionScope>)
        ensures
            r == self.scope,
    {
        self.scope
    }

    pub fn closure(&self) -> (r: Option<usize>)
        ensures
            r == self.closure,
    {
        self.closure
    }

    pub fn destroy(&self) -> (r: Option<usize>)
        ensures
            r == self.destroy,
    {
        self.destroy
    }

    pub fn direction(&self) -> (r: Option<Direction>)
        ensures
            r == self.direction,
    {
        self.direction
    }

    pub fn is_caller_allocates(&self) -> (r: Option<bool>)
        ensures
            r == self.caller_allocates,
    {
        self.caller_allocates
    }

    pub fn is_optional(&self) -> (r: Option<bool>)
        ensures
            r == self.optional,
    {
        self.optional
    }

    pub fn is_skip(&self) -> (r: Option<bool>)
        ensures
            r == self.skip,
    {
        self.skip
    }

    pub fn transfer_ownership(&self) -> (r: Option<TransferOwnership>)
        ensures
            r == self.transfer,
    {
        self.transfer
    }

    pub fn ty(&self) -> (r: Option<&ParameterType>)
        ensures
            opt_deref(r) == self.type_,
    {
        self.type_.as_ref()
    }

}

impl Documentable for Parameter {
    open spec fn docs_spec(&self) -> Docs {
        self.docs
    }

    fn docs_group(&self) -> (r: &Docs) {
        &self.docs
    }
}

impl Attributable for Parameter {
    open spec fn attributes_spec(&self) -> Seq<Attribute> {
        self.attributes@
    }

    fn attributes(&self) -> (r: &[Attribute]) {
        self.attributes.as_slice()
    }
}

/// The instance parameter of a method.
#[derive(Debug)]
pub struct InstanceParameter {
    pub name: String,
    pub transfer: Option<TransferOwnership>,
    pub nullable: Option<bool>,
    pub allow_none: Option<bool>,
    pub direction: Option<Direction>,
    pub caller_allocates: Option<bool>,
    pub docs: Docs,
    pub type_: Option<Type>,
}

pub open spec fn instance_parameter_attr_names() -> Seq<Seq<char>> {
    seq!["name"@, "transfer-ownership"@, "nullable"@, "allow-none"@, "direction"@, "caller-allocates"@]
}

pub open spec fn instance_parameter_child_names() -> Seq<Seq<char>> {
    seq!["doc"@, "doc-deprecated"@, "doc-stability"@, "doc-version"@, "source-position"@, "type"@]
}

/// Whether a instance-parameter element maps onto the record without a structural error.
pub open spec fn instance_parameter_ok(e: XmlElement) -> bool {
    &&& attrs_within(e.attrs@, instance_parameter_attr_names())
    &&& tags_within(e.children@, instance_parameter_child_names())
    &&& req_attr_spec(e, "name"@) is Ok
    &&& opt_transfer_attr(e, "transfer-ownership"@) is Ok
    &&& opt_bool_attr(e, "nullable"@) is Ok
    &&& opt_bool_attr(e, "allow-none"@) is Ok
    &&& opt_direction_attr(e, "direction"@) is Ok
    &&& opt_bool_attr(e, "caller-allocates"@) is Ok
    &&& docs_ok(e)
    &&& match first_tagged(e.children@, "type"@) {
        Some(c) => type_ok(c),
        None => true,
    }
}

/// How a instance-parameter element maps onto the record, field for field.
pub open spec fn instance_parameter_matches(e: XmlElement, x: InstanceParameter) -> bool {
    &&& req_attr_spec(e, "name"@) == Ok::<_, ()>(x.name@)
    &&& opt_transfer_attr(e, "transfer-ownership"@) == Ok::<_, ()>(x.transfer)
    &&& opt_bool_attr(e, "nullable"@) == Ok::<_, ()>(x.nullable)
    &&& opt_bool_attr(e, "allow-none"@) == Ok::<_, ()>(x.allow_none)
    &&& opt_direction_attr(e, "direction"@) == Ok::<_, ()>(x.direction)
    &&& opt_bool_attr(e, "caller-allocates"@) == Ok::<_, ()>(x.caller_allocates)
    &&& docs_matches(e, x.docs)
    &&& match first_tagged(e.children@, "type"@) {
        Some(c) => x.type_ matches Some(w) && type_matches(c, w),
        None => x.type_ is None,
    }
}

impl InstanceParameter {
    pub fn from_element(e: &XmlElement) -> (r: Result<InstanceParameter, ParserError>)
        ensures
            r matches Err(err) ==> err is Xml,
            r matches Ok(x) ==> instance_parameter_matches(*e, x),
            r is Ok <==> instance_parameter_ok(*e),
    {
        let attr_names: [&str; 6] = [
            "name",
            "transfer-ownership",
            "nullable",
            "allow-none",
            "direction",
            "caller-allocates",
        ];
        let child_names: [&str; 6] = [
            "doc",
            "doc-deprecated",
            "doc-stability",
            "doc-version",
            "source-position",
            "type",
        ];
        let within = check_attrs_within(e, &attr_names) && check_tags_within(e, &child_names);
        proof {
            assert(names_view(attr_names@) =~= instance_parameter_attr_names());
            assert(names_view(child_names@) =~= instance_parameter_child_names());
        }
        if !within {
            return Err(crate::xml_error("unrecognized content on an element"));
        }
        let name = req_attr(e, "name")?;
        let transfer = attr_opt_transfer(e, "transfer-ownership")?;
        let nullable = attr_opt_bool(e, "nullable")?;
        let allow_none = attr_opt_bool(e, "allow-none")?;
        let direction = attr_opt_direction(e, "direction")?;
        let caller_allocates = attr_opt_bool(e, "caller-allocates")?;
        let docs = Docs::from_children(e)?;
        let type_ = match first_child(e, "type") {
            Some(c) => Some(Type::from_element(c)?),
            None => None,
        };
        Ok(InstanceParameter { name, transfer, nullable, allow_none, direction, caller_allocates, docs, type_ })
    }

    pub fn name(&self) -> (r: &str)
        ensures
            r@ == self.name@,
    {
        self.name.as_str()
    }

    pub fn is_nullable(&self) -> (r: Option<bool>)
        ensures
            r == self.nullable,
    {
        self.nullable
    }

    pub fn is_allow_none(&self) -> (r: Option<bool>)
        ensures
            r == self.allow_none,
    {
        self.allow_none
    }

    pub fn direction(&self) -> (r: Option<Direction>)
        ensures
            r == self.direction,
    {
        self.direction
    }

    pub fn is_caller_allocates(&self) -> (r: Option<bool>)
        ensures
            r == self.caller_allocates,
    {
        self.caller_allocates
    }

    pub fn transfer_ownership(&self) -> (r: Option<TransferOwnership>)
        ensures
            r == self.transfer,
    {
        self.transfer
    }

    pub fn ty(&self) -> (r: Option<&Type>)
        ensures
            opt_deref(r) == self.type_,
    {
        self.type_.as_ref()
    }

}

impl Documentable for InstanceParameter {
    open spec fn docs_spec(&self) -> Docs {
        self.docs
    }

    fn docs_group(&self) -> (r: &Docs) {
        &self.docs
    }
}

/// The parameter list of a callable: at most one instance parameter, then the
/// regular parameters in document order.
#[derive(Debug)]
pub struct Parameters {
    pub instance_parameter: Option<InstanceParameter>,
    pub parameter: Vec<Parameter>,
}

impl Default for Parameters {
    fn default() -> (r: Self)
        ensures
            parameters_is_default(r),
    {
        Parameters { instance_parameter: None, parameter: Vec::new() }
    }
}

/// The empty parameter list, used when a callable declares none.
pub open spec fn parameters_is_default(p: Parameters) -> bool {
    &&& p.instance_parameter is None
    &&& p.parameter@ == Seq::<Parameter>::empty()
}

pub open spec fn parameters_ok(e: XmlElement) -> bool {
    &&& attrs_within(e.attrs@, Seq::empty())
    &&& tags_within(e.children@, seq!["instance-parameter"@, "parameter"@])
    &&& match first_tagged(e.children@, "instance-parameter"@) {
        Some(c) => instance_parameter_ok(c),
        None => true,
    }
    &&& forall|i: int|
        0 <= i < tagged_children(e.children@, "parameter"@).len() ==> parameter_ok(
            #[trigger] tagged_children(e.children@, "parameter"@)[i],
        )
}

pub open spec fn parameters_matches(e: XmlElement, p: Parameters) -> bool {
    &&& match first_tagged(e.children@, "instance-parameter"@) {
        Some(c) => p.instance_parameter matches Some(w) && instance_parameter_matches(c, w),
        None => p.instance_parameter is None,
    }
    &&& p.parameter@.len() == tagged_children(e.children@, "parameter"@).len()
    &&& forall|i: int|
        0 <= i < tagged_children(e.children@, "parameter"@).len() ==> parameter_matches(
            #[trigger] tagged_children(e.children@, "parameter"@)[i],
            p.parameter@[i],
        )
}

fn collect_parameter_of_parameters(e: &XmlElement) -> (r: Result<Vec<Parameter>, ParserError>)
    ensures
        r matches Err(err) ==> err is Xml,
        r matches Ok(v) ==> v@.len() == tagged_children(e.children@, "parameter"@).len()
            && forall|i: int|
            0 <= i < tagged_children(e.children@, "parameter"@).len() ==> parameter_matches(
                #[trigger] tagged_children(e.children@, "parameter"@)[i],
                v@[i],
            ),
        r is Ok <==> forall|i: int|
            0 <= i < tagged_children(e.children@, "parameter"@).len() ==> parameter_ok(
                #[trigger] tagged_children(e.children@, "parameter"@)[i],
            ),
{
    let elems = children_tagged(e, "parameter");
    let ghost tc = tagged_children(e.children@, "parameter"@);
    let n = elems.len();
    let mut out: Vec<Parameter> = Vec::new();
    let mut i: usize = 0;
    while i < n
        invariant
            n == elems@.len(),
            derefs(elems@) == tc,
            tc == tagged_children(e.children@, "parameter"@),
            i <= n,
            out@.len() == i,
            forall|j: int| 0 <= j < i ==> parameter_matches(#[trigger] tc[j], out@[j]),
            forall|j: int| 0 <= j < i ==> parameter_ok(#[trigger] tc[j]),
        decreases n - i,
    {
        proof {
            assert(tc[i as int] == derefs(elems@)[i as int]);
        }
        match Parameter::from_element(elems[i]) {
            Ok(a) => {
                out.push(a);
            },
            Err(er) => {
                return Err(er);
            },
        }
        i += 1;
    }
    Ok(out)
}

impl Parameters {
    pub fn from_element(e: &XmlElement) -> (r: Result<Parameters, ParserError>)
        ensures
            r matches Err(err) ==> err is Xml,
            r matches Ok(p) ==> parameters_matches(*e, p),
            r is Ok <==> parameters_ok(*e),
    {
        let attr_names: [&str; 0] = [];
        let child_names: [&str; 2] = ["instance-parameter", "parameter"];
        let within = check_attrs_within(e, &attr_names) && check_tags_within(e, &child_names);
        proof {
            assert(names_view(attr_names@) =~= Seq::<Seq<char>>::empty());
            assert(names_view(child_names@) =~= seq!["instance-parameter"@, "parameter"@]);
        }
        if !within {
            return Err(crate::xml_error("unrecognized content on a parameters element"));
        }
        let instance_parameter = match first_child(e, "instance-parameter") {
            Some(c) => Some(InstanceParameter::from_element(c)?),
            None => None,
        };
        let parameter = collect_parameter_of_parameters(e)?;
        Ok(Parameters { instance_parameter, parameter })
    }

    pub fn is_empty(&self) -> (r: bool)
        ensures
            r == (self.instance_parameter is None && self.parameter@.len() == 0),
    {
        self.instance_parameter.is_none() && self.parameter.len() == 0
    }

    pub fn instance(&self) -> (r: Option<&InstanceParameter>)
        ensures
            opt_deref(r) == self.instance_parameter,
    {
        self.instance_parameter.as_ref()
    }

    pub fn inner(&self) -> (r: &[Parameter])
        ensures
            r@ == self.parameter@,
    {
        self.parameter.as_slice()
    }

    /// Every parameter, the instance parameter first where there is one.
    pub fn all(&self) -> (r: Vec<AnyParameter<'_>>)
        ensures
            r@.len() == (if self.instance_parameter is Some {
                1int
            } else {
                0int
            }) + self.parameter@.len(),
            self.instance_parameter matches Some(ip) ==> r@[0] matches AnyParameter::Instance(p)
                && *p == ip,
            forall|i: int|
                (if self.instance_parameter is Some {
                    1int
                } else {
                    0int
                }) <= i < r@.len() ==> (#[trigger] r@[i] matches AnyParameter::Regular(q) && *q
                    == self.parameter@[i - (if self.instance_parameter is Some {
                    1int
                } else {
                    0int
                })]),
    {
        let ghost base: int = if self.instance_parameter is Some { 1int } else { 0int };
        let mut out: Vec<AnyParameter<'_>> = Vec::new();
        match &self.instance_parameter {
            Some(p) => {
                out.push(AnyParameter::Instance(p));
            },
            None => {},
        }
        let n = self.parameter.len();
        let mut i: usize = 0;
        while i < n
            invariant
                n == self.parameter@.len(),
                i <= n,
                base == if self.instance_parameter is Some { 1int } else { 0int },
                out@.len() == base + i,
                self.instance_parameter matches Some(ip) ==> out@[0] matches
                    AnyParameter::Instance(p) && *p == ip,
                forall|j: int|
                    base <= j < out@.len() ==> (#[trigger] out@[j] matches AnyParameter::Regular(
                        q,
                    ) && *q == self.parameter@[j - base]),
            decreases n - i,
        {
            out.push(AnyParameter::Regular(&self.parameter[i]));
            i += 1;
        }
        out
    }
}

/// Either the instance parameter or a regular parameter.
#[derive(Debug, Clone, Copy)]
pub enum AnyParameter<'a> {
    Instance(&'a InstanceParameter),
    Regular(&'a Parameter),
}

impl<'a> AnyParameter<'a> {
    pub fn name(&self) -> (r: &'a str)
        ensures
            r@ == match *self {
                AnyParameter::Instance(p) => p.name@,
                AnyParameter::Regular(p) => p.name@,
            },
    {
        match self {
            AnyParameter::Instance(p) => p.name.as_str(),
            AnyParameter::Regular(p) => p.name.as_str(),
        }
    }

    pub fn is_instance(&self) -> (r: bool)
        ensures
            r == (*self is Instance),
    {
        matches!(self, AnyParameter::Instance(_))
    }

    pub fn is_regular(&self) -> (r: bool)
        ensures
            r == (*self is Regular),
    {
        matches!(self, AnyParameter::Regular(_))
    }

    /// The instance parameter this stands for.
    pub fn as_instance(&self) -> (r: &'a InstanceParameter)
        requires
            *self is Instance,
        ensures
            *self == AnyParameter::Instance(r),
    {
        match self {
            AnyParameter::Instance(p) => p,
            AnyParameter::Regular(_) => unreached(),
        }
    }

    /// The regular parameter this stands for.
    pub fn as_regular(&self) -> (r: &'a Parameter)
        requires
            *self is Regular,
        ensures
            *self == AnyParameter::Regular(r),
    {
        match self {
            AnyParameter::Regular(p) => p,
            AnyParameter::Instance(_) => unreached(),
        }
    }

    pub fn is_nullable(&self) -> (r: Option<bool>)
        ensures
            r == match *self {
                AnyParameter::Instance(p) => p.nullable,
                AnyParameter::Regular(p) => p.nullable,
            },
    {
        match self {
            AnyParameter::Instance(p) => p.nullable,
            AnyParameter::Regular(p) => p.nullable,
        }
    }

    pub fn is_allow_none(&self) -> (r: Option<bool>)
        ensures
            r == match *self {
                AnyParameter::Instance(p) => p.allow_none,
                AnyParameter::Regular(p) => p.allow_none,
            },
    {
        match self {
            AnyParameter::Instance(p) => p.allow_none,
            AnyParameter::Regular(p) => p.allow_none,
        }
    }

    pub fn direction(&self) -> (r: Option<Direction>)
        ensures
            r == match *self {
                AnyParameter::Instance(p) => p.direction,
                AnyParameter::Regular(p) => p.direction,
            },
    {
        match self {
            AnyParameter::Instance(p) => p.direction,
            AnyParameter::Regular(p) => p.direction,
        }
    }

    pub fn is_caller_allocates(&self) -> (r: Option<bool>)
        ensures
            r == match *self {
                AnyParameter::Instance(p) => p.caller_allocates,
                AnyParameter::Regular(p) => p.caller_allocates,
            },
    {
        match self {
            AnyParameter::Instance(p) => p.caller_allocates,
            AnyParameter::Regular(p) => p.caller_allocates,
        }
    }

    pub fn transfer_ownership(&self) -> (r: Option<TransferOwnership>)
        ensures
            r == match *self {
                AnyParameter::Instance(p) => p.transfer,
                AnyParameter::Regular(p) => p.transfer,
            },
    {
        match self {
            AnyParameter::Instance(p) => p.transfer,
            AnyParameter::Regular(p) => p.transfer,
        }
    }
}

} // verus!
