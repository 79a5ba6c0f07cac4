use vstd::prelude::*;

verus! {

use crate::ParserError;
use crate::attribute::{Attribute, attribute_list_ok, attribute_list_matches, collect_attributes};
use crate::documentation::{Docs, docs_ok, docs_matches};
use crate::traits::{Documentable, Attributable, Info, InfoAttrs, info_ok, info_matches};
use crate::schema::{req_attr_spec, opt_bool_attr, req_attr, attr_opt_bool};
use crate::xml::{XmlElement, attr_of, attrs_within, tags_within, first_tagged, tagged_children,
    tagged_any, names_view, opt_view, opt_deref, check_attrs_within, check_tags_within,
    first_child, children_tagged, children_tagged_any, derefs, attr_string, opt_as_str, str_eq};
use crate::callback::{Callback, callback_ok, callback_matches};
use crate::constant::{Constant, constant_ok, constant_matches};
use crate::field::{Field, field_ok, field_matches};
use crate::function::{Function, function_ok, function_matches, FunctionInline,
    function_inline_ok, function_inline_matches};
use crate::method::{Method, method_ok, method_matches, MethodInline, method_inline_ok,
    method_inline_matches};
use crate::property::{Property, property_ok, property_matches};
use crate::record::{Record, record_ok, record_matches};
use crate::signal::{Signal, signal_ok, signal_matches};
use crate::union::{Union, union_ok, union_matches};
use crate::virtual_method::{VirtualMethod, virtual_method_ok, virtual_method_matches};

/// A reference by name to an interface this interface requires.
#[derive(Debug)]
pub struct Prerequisite {
    pub name: String,
}

pub open spec fn prerequisite_ok(e: XmlElement) -> bool {
    &&& req_attr_spec(e, "name"@) is Ok
    &&& attrs_within(e.attrs@, seq!["name"@])
    &&& tags_within(e.children@, Seq::empty())
}

pub open spec fn prerequisite_matches(e: XmlElement, x: Prerequisite) -> bool {
    req_attr_spec(e, "name"@) == Ok::<_, ()>(x.name@)
}

impl Prerequisite {
    pub fn from_element(e: &XmlElement) -> (r: Result<Prerequisite, ParserError>)
        ensures
            r matches Err(err) ==> err is Xml,
            r matches Ok(x) ==> prerequisite_matches(*e, x),
            r is Ok <==> prerequisite_ok(*e),
    {
        let attr_names: [&str; 1] = ["name"];
        let child_names: [&str; 0] = [];
        let within = check_attrs_within(e, &attr_names) && check_tags_within(e, &child_names);
        proof {
            assert(names_view(attr_names@) =~= seq!["name"@]);
            assert(names_view(child_names@) =~= Seq::<Seq<char>>::empty());
        }
        if !within {
            return Err(crate::xml_error("unrecognized content on a prerequisite element"));
        }
        let name = req_attr(e, "name")?;
        Ok(Prerequisite { name })
    }

    pub fn name(&self) -> (r: &str)
        ensures
            r@ == self.name@,
    {
        self.name.as_str()
    }
}

/// One entry of the ordered heterogeneous body of a interface: the relative
/// order of the interleaved declarations is preserved.
#[derive(Debug)]
pub enum InterfaceField {
    Field(Field),
    Union(Union),
    Record(Record),
    Callback(Callback),
}

pub open spec fn interface_field_tags() -> Seq<Seq<char>> {
    seq!["field"@, "union"@, "record"@, "callback"@]
}

pub open spec fn interface_field_ok(e: XmlElement) -> bool {
    if e.tag@ == "field"@ {
        field_ok(e)
    } else if e.tag@ == "union"@ {
        union_ok(e)
    } else if e.tag@ == "record"@ {
        record_ok(e)
    } else if e.tag@ == "callback"@ {
        callback_ok(e)
    } else {
        false
    }
}

pub open spec fn interface_field_matches(e: XmlElement, t: InterfaceField) -> bool {
    match t {
        InterfaceField::Field(x) => e.tag@ == "field"@ && field_matches(e, x),
        InterfaceField::Union(x) => e.tag@ == "union"@ && union_matches(e, x),
        InterfaceField::Record(x) => e.tag@ == "record"@ && record_matches(e, x),
        InterfaceField::Callback(x) => e.tag@ == "callback"@ && callback_matches(e, x),
    }
}

impl InterfaceField {
    /// Maps an element whose tag already matched the dispatch set.
    pub fn from_element(e: &XmlElement) -> (r: Result<InterfaceField, ParserError>)
        ensures
            r matches Err(err) ==> err is Xml,
            r matches Ok(t) ==> interface_field_matches(*e, t),
            r is Ok <==> interface_field_ok(*e),
    {
        if str_eq(e.tag.as_str(), "field") {
            match Field::from_element(e) {
                Ok(t) => Ok(InterfaceField::Field(t)),
                Err(er) => Err(er),
            }
        } else if str_eq(e.tag.as_str(), "union") {
            match Union::from_element(e) {
                Ok(t) => Ok(InterfaceField::Union(t)),
                Err(er) => Err(er),
            }
        } else if str_eq(e.tag.as_str(), "record") {
            match Record::from_element(e) {
                Ok(t) => Ok(InterfaceField::Record(t)),
                Err(er) => Err(er),
            }
        } else if str_eq(e.tag.as_str(), "callback") {
            match Callback::from_element(e) {
                Ok(t) => Ok(InterfaceField::Callback(t)),
                Err(er) => Err(er),
            }
        } else {
            Err(crate::xml_error("an element does not fit this body position"))
        }
    }
}

/// An interface declaration: prerequisites by name, its callable surface, and an ordered heterogeneous field list.
#[derive(Debug)]
pub struct Interface {
    pub name: String,
    pub symbol_prefix: Option<String>,
    pub c_type: Option<String>,
    pub g_type_name: String,
    pub g_get_type: String,
    pub g_type_struct: Option<String>,
    pub docs: Docs,
    pub info: InfoAttrs,
    pub attributes: Vec<Attribute>,
    pub prerequisites: Vec<Prerequisite>,
    pub implements: Vec<crate::class::Implements>,
    pub functions: Vec<Function>,
    pub inline_functions: Vec<FunctionInline>,
    pub constructors: Vec<Function>,
    pub methods: Vec<Method>,
    pub inline_methods: Vec<MethodInline>,
    pub virtual_methods: Vec<VirtualMethod>,
    pub properties: Vec<Property>,
    pub signals: Vec<Signal>,
    pub constants: Vec<Constant>,
    pub fields: Vec<InterfaceField>,
}

pub open spec fn interface_attr_names() -> Seq<Seq<char>> {
    seq!["name"@, "c:symbol-prefix"@, "c:type"@, "glib:type-name"@, "glib:get-type"@, "glib:type-struct"@, "introspectable"@, "deprecated"@, "version"@, "deprecated-version"@, "stability"@]
}

pub open spec fn interface_child_names() -> Seq<Seq<char>> {
    seq!["doc"@, "doc-deprecated"@, "doc-stability"@, "doc-version"@, "source-position"@, "attribute"@, "prerequisite"@, "implements"@, "function"@, "function-inline"@, "constructor"@, "method"@, "inline-methods"@, "virtual-method"@, "property"@, "glib:signal"@, "constant"@, "field"@, "union"@, "record"@, "callback"@]
}

/// Whether a interface element maps onto the record without a structural error.
pub open spec fn interface_ok(e: XmlElement) -> bool {
    &&& attrs_within(e.attrs@, interface_attr_names())
    &&& tags_within(e.children@, interface_child_names())
    &&& req_attr_spec(e, "name"@) is Ok
    &&& req_attr_spec(e, "glib:type-name"@) is Ok
    &&& req_attr_spec(e, "glib:get-type"@) is Ok
    &&& docs_ok(e)
    &&& info_ok(e)
    &&& attribute_list_ok(e)
    &&& forall|i: int|
        0 <= i < tagged_children(e.children@, "prerequisite"@).len() ==> prerequisite_ok(
            #[trigger] tagged_children(e.children@, "prerequisite"@)[i],
        )
    &&& forall|i: int|
        0 <= i < tagged_children(e.children@, "implements"@).len() ==> crate::class::implements_ok(
            #[trigger] tagged_children(e.children@, "implements"@)[i],
        )
    &&& forall|i: int|
        0 <= i < tagged_children(e.children@, "function"@).len() ==> function_ok(
            #[trigger] tagged_children(e.children@, "function"@)[i],
        )
    &&& forall|i: int|
        0 <= i < tagged_children(e.children@, "function-inline"@).len() ==> function_inline_ok(
            #[trigger] tagged_children(e.children@, "function-inline"@)[i],
        )
    &&& forall|i: int|
        0 <= i < tagged_children(e.children@, "constructor"@).len() ==> function_ok(
            #[trigger] tagged_children(e.children@, "constructor"@)[i],
        )
    &&& forall|i: int|
        0 <= i < tagged_children(e.children@, "method"@).len() ==> method_ok(
            #[trigger] tagged_children(e.children@, "method"@)[i],
        )
    &&& forall|i: int|
        0 <= i < tagged_children(e.children@, "inline-methods"@).len() ==> method_inline_ok(
            #[trigger] tagged_children(e.children@, "inline-methods"@)[i],
        )
    &&& forall|i: int|
        0 <= i < tagged_children(e.children@, "virtual-method"@).len() ==> virtual_method_ok(
            #[trigger] tagged_children(e.children@, "virtual-method"@)[i],
        )
    &&& forall|i: int|
        0 <= i < tagged_children(e.children@, "property"@).len() ==> property_ok(
            #[trigger] tagged_children(e.children@, "property"@)[i],
        )
    &&& forall|i: int|
        0 <= i < tagged_children(e.children@, "glib:signal"@).len() ==> signal_ok(
            #[trigger] tagged_children(e.children@, "glib:signal"@)[i],
        )
    &&& forall|i: int|
        0 <= i < tagged_children(e.children@, "constant"@).len() ==> constant_ok(
            #[trigger] tagged_children(e.children@, "constant"@)[i],
        )
    &&& forall|i: int|
        0 <= i < tagged_any(e.children@, interface_field_tags()).len() ==> interface_field_ok(
            #[trigger] tagged_any(e.children@, interface_field_tags())[i],
        )
}

/// How a interface element maps onto the record, field for field.
pub open spec fn interface_matches(e: XmlElement, x: Interface) -> bool {
    &&& req_attr_spec(e, "name"@) == Ok::<_, ()>(x.name@)
    &&& opt_view(x.symbol_prefix) == attr_of(e, "c:symbol-prefix"@)
    &&& opt_view(x.c_type) == attr_of(e, "c:type"@)
    &&& req_attr_spec(e, "glib:type-name"@) == Ok::<_, ()>(x.g_type_name@)
    &&& req_attr_spec(e, "glib:get-type"@) == Ok::<_, ()>(x.g_get_type@)
    &&& opt_view(x.g_type_struct) == attr_of(e, "glib:type-struct"@)
    &&& docs_matches(e, x.docs)
    &&& info_matches(e, x.info)
    &&& attribute_list_matches(e, x.attributes@)
    &&& x.prerequisites@.len() == tagged_children(e.children@, "prerequisite"@).len()
    &&& forall|i: int|
        0 <= i < tagged_children(e.children@, "prerequisite"@).len() ==> prerequisite_matches(
            #[trigger] tagged_children(e.children@, "prerequisite"@)[i],
            x.prerequisites@[i],
        )
    &&& x.implements@.len() == tagged_children(e.children@, "implements"@).len()
    &&& forall|i: int|
        0 <= i < tagged_children(e.children@, "implements"@).len() ==> crate::class::implements_matches(
            #[trigger] tagged_children(e.children@, "implements"@)[i],
            x.implements@[i],
        )
    &&& x.functions@.len() == tagged_children(e.children@, "function"@).len()
    &&& forall|i: int|
        0 <= i < tagged_children(e.children@, "function"@).len() ==> function_matches(
            #[trigger] tagged_children(e.children@, "function"@)[i],
            x.functions@[i],
        )
    &&& x.inline_functions@.len() == tagged_children(e.children@, "function-inline"@).len()
    &&& forall|i: int|
        0 <= i < tagged_children(e.children@, "function-inline"@).len() ==> function_inline_matches(
            #[trigger] tagged_children(e.children@, "function-inline"@)[i],
            x.inline_functions@[i],
        )
    &&& x.constructors@.len() == tagged_children(e.children@, "constructor"@).len()
    &&& forall|i: int|
        0 <= i < tagged_children(e.children@, "constructor"@).len() ==> function_matches(
            #[trigger] tagged_children(e.children@, "constructor"@)[i],
            x.constructors@[i],
        )
    &&& x.methods@.len() == tagged_children(e.children@, "method"@).len()
    &&& forall|i: int|
        0 <= i < tagged_children(e.children@, "method"@).len() ==> method_matches(
            #[trigger] tagged_children(e.children@, "method"@)[i],
            x.methods@[i],
        )
    &&& x.inline_methods@.len() == tagged_children(e.children@, "inline-methods"@).len()
    &&& forall|i: int|
        0 <= i < tagged_children(e.children@, "inline-methods"@).len() ==> method_inline_matches(
            #[trigger] tagged_children(e.children@, "inline-methods"@)[i],
            x.inline_methods@[i],
        )
    &&& x.virtual_methods@.len() == tagged_children(e.children@, "virtual-method"@).len()
    &&& forall|i: int|
        0 <= i < tagged_children(e.children@, "virtual-method"@).len() ==> virtual_method_matches(
            #[trigger] tagged_children(e.children@, "virtual-method"@)[i],
            x.virtual_methods@[i],
        )
    &&& x.properties@.len() == tagged_children(e.children@, "property"@).len()
    &&& forall|i: int|
        0 <= i < tagged_children(e.children@, "property"@).len() ==> property_matches(
            #[trigger] tagged_children(e.children@, "property"@)[i],
            x.properties@[i],
        )
    &&& x.signals@.len() == tagged_children(e.children@, "glib:signal"@).len()
    &&& forall|i: int|
        0 <= i < tagged_children(e.children@, "glib:signal"@).len() ==> signal_matches(
            #[trigger] tagged_children(e.children@, "glib:signal"@)[i],
            x.signals@[i],
        )
    &&& x.constants@.len() == tagged_children(e.children@, "constant"@).len()
    &&& forall|i: int|
        0 <= i < tagged_children(e.children@, "constant"@).len() ==> constant_matches(
            #[trigger] tagged_children(e.children@, "constant"@)[i],
            x.constants@[i],
        )
    &&& x.fields@.len() == tagged_any(e.children@, interface_field_tags()).len()
    &&& forall|i: int|
        0 <= i < tagged_any(e.children@, interface_field_tags()).len() ==> interface_field_matches(
            #[trigger] tagged_any(e.children@, interface_field_tags())[i],
            x.fields@[i],
        )
}

fn collect_prerequisites_of_interface(e: &XmlElement) -> (r: Result<Vec<Prerequisite>, ParserError>)
    ensures
        r matches Err(err) ==> err is Xml,
        r matches Ok(v) ==> v@.len() == tagged_children(e.children@, "prerequisite"@).len()
            && forall|i: int|
            0 <= i < tagged_children(e.children@, "prerequisite"@).len() ==> prerequisite_matches(
                #[trigger] tagged_children(e.children@, "prerequisite"@)[i],
                v@[i],
            ),
        r is Ok <==> forall|i: int|
            0 <= i < tagged_children(e.children@, "prerequisite"@).len() ==> prerequisite_ok(
                #[trigger] tagged_children(e.children@, "prerequisite"@)[i],
            ),
{
    let elems = children_tagged(e, "prerequisite");
    let ghost tc = tagged_children(e.children@, "prerequisite"@);
    let n = elems.len();
    let mut out: Vec<Prerequisite> = Vec::new();
    let mut i: usize = 0;
    while i < n
        invariant
            n == elems@.len(),
            derefs(elems@) == tc,
            tc == tagged_children(e.children@, "prerequisite"@),
            i <= n,
            out@.len() == i,
            forall|j: int| 0 <= j < i ==> prerequisite_matches(#[trigger] tc[j], out@[j]),
            forall|j: int| 0 <= j < i ==> prerequisite_ok(#[trigger] tc[j]),
        decreases n - i,
    {
        proof {
            assert(tc[i as int] == derefs(elems@)[i as int]);
        }
        match Prerequisite::from_element(elems[i]) {
            Ok(a) => {
                out.push(a);
            },
            Err(er) => {
                return Err(er);
            },
        }
        i += 1;
    }
    Ok(out)
}

fn collect_implements_of_interface(e: &XmlElement) -> (r: Result<Vec<crate::class::Implements>, ParserError>)
    ensures
        r matches Err(err) ==> err is Xml,
        r matches Ok(v) ==> v@.len() == tagged_children(e.children@, "implements"@).len()
            && forall|i: int|
            0 <= i < tagged_children(e.children@, "implements"@).len() ==> crate::class::implements_matches(
                #[trigger] tagged_children(e.children@, "implements"@)[i],
                v@[i],
            ),
        r is Ok <==> forall|i: int|
            0 <= i < tagged_children(e.children@, "implements"@).len() ==> crate::class::implements_ok(
                #[trigger] tagged_children(e.children@, "implements"@)[i],
            ),
{
    let elems = children_tagged(e, "implements");
    let ghost tc = tagged_children(e.children@, "implements"@);
    let n = elems.len();
    let mut out: Vec<crate::class::Implements> = Vec::new();
    let mut i: usize = 0;
    while i < n
        invariant
            n == elems@.len(),
            derefs(elems@) == tc,
            tc == tagged_children(e.children@, "implements"@),
            i <= n,
            out@.len() == i,
            forall|j: int| 0 <= j < i ==> crate::class::implements_matches(#[trigger] tc[j], out@[j]),
            forall|j: int| 0 <= j < i ==> crate::class::implements_ok(#[trigger] tc[j]),
        decreases n - i,
    {
        proof {
            assert(tc[i as int] == derefs(elems@)[i as int]);
        }
        match crate::class::Implements::from_element(elems[i]) {
            Ok(a) => {
                out.push(a);
            },
            Err(er) => {
                return Err(er);
            },
        }
        i += 1;
    }
    Ok(out)
}

fn collect_functions_of_interface(e: &XmlElement) -> (r: Result<Vec<Function>, ParserError>)
    ensures
        r matches Err(err) ==> err is Xml,
        r matches Ok(v) ==> v@.len() == tagged_children(e.children@, "function"@).len()
            && forall|i: int|
            0 <= i < tagged_children(e.children@, "function"@).len() ==> function_matches(
                #[trigger] tagged_children(e.children@, "function"@)[i],
                v@[i],
            ),
        r is Ok <==> forall|i: int|
            0 <= i < tagged_children(e.children@, "function"@).len() ==> function_ok(
                #[trigger] tagged_children(e.children@, "function"@)[i],
            ),
{
    let elems = children_tagged(e, "function");
    let ghost tc = tagged_children(e.children@, "function"@);
    let n = elems.len();
    let mut out: Vec<Function> = Vec::new();
    let mut i: usize = 0;
    while i < n
        invariant
            n == elems@.len(),
            derefs(elems@) == tc,
            tc == tagged_children(e.children@, "function"@),
            i <= n,
            out@.len() == i,
            forall|j: int| 0 <= j < i ==> function_matches(#[trigger] tc[j], out@[j]),
            forall|j: int| 0 <= j < i ==> function_ok(#[trigger] tc[j]),
        decreases n - i,
    {
        proof {
            assert(tc[i as int] == derefs(elems@)[i as int]);
        }
        match Function::from_element(elems[i]) {
            Ok(a) => {
                out.push(a);
            },
            Err(er) => {
                return Err(er);
            },
        }
        i += 1;
    }
    Ok(out)
}

fn collect_inline_functions_of_interface(e: &XmlElement) -> (r: Result<Vec<FunctionInline>, ParserError>)
    ensures
        r matches Err(err) ==> err is Xml,
        r matches Ok(v) ==> v@.len() == tagged_children(e.children@, "function-inline"@).len()
            && forall|i: int|
            0 <= i < tagged_children(e.children@, "function-inline"@).len() ==> function_inline_matches(
                #[trigger] tagged_children(e.children@, "function-inline"@)[i],
                v@[i],
            ),
        r is Ok <==> forall|i: int|
            0 <= i < tagged_children(e.children@, "function-inline"@).len() ==> function_inline_ok(
                #[trigger] tagged_children(e.children@, "function-inline"@)[i],
            ),
{
    let elems = children_tagged(e, "function-inline");
    let ghost tc = tagged_children(e.children@, "function-inline"@);
    let n = elems.len();
    let mut out: Vec<FunctionInline> = Vec::new();
    let mut i: usize = 0;
    while i < n
        invariant
            n == elems@.len(),
            derefs(elems@) == tc,
            tc == tagged_children(e.children@, "function-inline"@),
            i <= n,
            out@.len() == i,
            forall|j: int| 0 <= j < i ==> function_inline_matches(#[trigger] tc[j], out@[j]),
            forall|j: int| 0 <= j < i ==> function_inline_ok(#[trigger] tc[j]),
        decreases n - i,
    {
        proof {
            assert(tc[i as int] == derefs(elems@)[i as int]);
        }
        match FunctionInline::from_element(elems[i]) {
            Ok(a) => {
                out.push(a);
            },
            Err(er) => {
                return Err(er);
            },
        }
        i += 1;
    }
    Ok(out)
}

fn collect_constructors_of_interface(e: &XmlElement) -> (r: Result<Vec<Function>, ParserError>)
    ensures
        r matches Err(err) ==> err is Xml,
        r matches Ok(v) ==> v@.len() == tagged_children(e.children@, "constructor"@).len()
            && forall|i: int|
            0 <= i < tagged_children(e.children@, "constructor"@).len() ==> function_matches(
                #[trigger] tagged_children(e.children@, "constructor"@)[i],
                v@[i],
            ),
        r is Ok <==> forall|i: int|
            0 <= i < tagged_children(e.children@, "constructor"@).len() ==> function_ok(
                #[trigger] tagged_children(e.children@, "constructor"@)[i],
            ),
{
    let elems = children_tagged(e, "constructor");
    let ghost tc = tagged_children(e.children@, "constructor"@);
    let n = elems.len();
    let mut out: Vec<Function> = Vec::new();
    let mut i: usize = 0;
    while i < n
        invariant
            n == elems@.len(),
            derefs(elems@) == tc,
            tc == tagged_children(e.children@, "constructor"@),
            i <= n,
            out@.len() == i,
            forall|j: int| 0 <= j < i ==> function_matches(#[trigger] tc[j], out@[j]),
            forall|j: int| 0 <= j < i ==> function_ok(#[trigger] tc[j]),
        decreases n - i,
    {
        proof {
            assert(tc[i as int] == derefs(elems@)[i as int]);
        }
        match Function::from_element(elems[i]) {
            Ok(a) => {
                out.push(a);
            },
            Err(er) => {
                return Err(er);
            },
        }
        i += 1;
    }
    Ok(out)
}

fn collect_methods_of_interface(e: &XmlElement) -> (r: Result<Vec<Method>, ParserError>)
    ensures
        r matches Err(err) ==> err is Xml,
        r matches Ok(v) ==> v@.len() == tagged_children(e.children@, "method"@).len()
            && forall|i: int|
            0 <= i < tagged_children(e.children@, "method"@).len() ==> method_matches(
                #[trigger] tagged_children(e.children@, "method"@)[i],
                v@[i],
            ),
        r is Ok <==> forall|i: int|
            0 <= i < tagged_children(e.children@, "method"@).len() ==> method_ok(
                #[trigger] tagged_children(e.children@, "method"@)[i],
            ),
{
    let elems = children_tagged(e, "method");
    let ghost tc = tagged_children(e.children@, "method"@);
    let n = elems.len();
    let mut out: Vec<Method> = Vec::new();
    let mut i: usize = 0;
    while i < n
        invariant
            n == elems@.len(),
            derefs(elems@) == tc,
            tc == tagged_children(e.children@, "method"@),
            i <= n,
            out@.len() == i,
            forall|j: int| 0 <= j < i ==> method_matches(#[trigger] tc[j], out@[j]),
            forall|j: int| 0 <= j < i ==> method_ok(#[trigger] tc[j]),
        decreases n - i,
    {
        proof {
            assert(tc[i as int] == derefs(elems@)[i as int]);
        }
        match Method::from_element(elems[i]) {
            Ok(a) => {
                out.push(a);
            },
            Err(er) => {
                return Err(er);
            },
        }
        i += 1;
    }
    Ok(out)
}

fn collect_inline_methods_of_interface(e: &XmlElement) -> (r: Result<Vec<MethodInline>, ParserError>)
    ensures
        r matches Err(err) ==> err is Xml,
        r matches Ok(v) ==> v@.len() == tagged_children(e.children@, "inline-methods"@).len()
            && forall|i: int|
            0 <= i < tagged_children(e.children@, "inline-methods"@).len() ==> method_inline_matches(
                #[trigger] tagged_children(e.children@, "inline-methods"@)[i],
                v@[i],
            ),
        r is Ok <==> forall|i: int|
            0 <= i < tagged_children(e.children@, "inline-methods"@).len() ==> method_inline_ok(
                #[trigger] tagged_children(e.children@, "inline-methods"@)[i],
            ),
{
    let elems = children_tagged(e, "inline-methods");
    let ghost tc = tagged_children(e.children@, "inline-methods"@);
    let n = elems.len();
    let mut out: Vec<MethodInline> = Vec::new();
    let mut i: usize = 0;
    while i < n
        invariant
            n == elems@.len(),
            derefs(elems@) == tc,
            tc == tagged_children(e.children@, "inline-methods"@),
            i <= n,
            out@.len() == i,
            forall|j: int| 0 <= j < i ==> method_inline_matches(#[trigger] tc[j], out@[j]),
            forall|j: int| 0 <= j < i ==> method_inline_ok(#[trigger] tc[j]),
        decreases n - i,
    {
        proof {
            assert(tc[i as int] == derefs(elems@)[i as int]);
        }
        match MethodInline::from_element(elems[i]) {
            Ok(a) => {
                out.push(a);
            },
            Err(er) => {
                return Err(er);
            },
        }
        i += 1;
    }
    Ok(out)
}

fn collect_virtual_methods_of_interface(e: &XmlElement) -> (r: Result<Vec<VirtualMethod>, ParserError>)
    ensures
        r matches Err(err) ==> err is Xml,
        r matches Ok(v) ==> v@.len() == tagged_children(e.children@, "virtual-method"@).len()
            && forall|i: int|
            0 <= i < tagged_children(e.children@, "virtual-method"@).len() ==> virtual_method_matches(
                #[trigger] tagged_children(e.children@, "virtual-method"@)[i],
                v@[i],
            ),
        r is Ok <==> forall|i: int|
            0 <= i < tagged_children(e.children@, "virtual-method"@).len() ==> virtual_method_ok(
                #[trigger] tagged_children(e.children@, "virtual-method"@)[i],
            ),
{
    let elems = children_tagged(e, "virtual-method");
    let ghost tc = tagged_children(e.children@, "virtual-method"@);
    let n = elems.len();
    let mut out: Vec<VirtualMethod> = Vec::new();
    let mut i: usize = 0;
    while i < n
        invariant
            n == elems@.len(),
            derefs(elems@) == tc,
            tc == tagged_children(e.children@, "virtual-method"@),
            i <= n,
            out@.len() == i,
            forall|j: int| 0 <= j < i ==> virtual_method_matches(#[trigger] tc[j], out@[j]),
            forall|j: int| 0 <= j < i ==> virtual_method_ok(#[trigger] tc[j]),
        decreases n - i,
    {
        proof {
            assert(tc[i as int] == derefs(elems@)[i as int]);
        }
        match VirtualMethod::from_element(elems[i]) {
            Ok(a) => {
                out.push(a);
            },
            Err(er) => {
                return Err(er);
            },
        }
        i += 1;
    }
    Ok(out)
}

fn collect_properties_of_interface(e: &XmlElement) -> (r: Result<Vec<Property>, ParserError>)
    ensures
        r matches Err(err) ==> err is Xml,
        r matches Ok(v) ==> v@.len() == tagged_children(e.children@, "property"@).len()
            && forall|i: int|
            0 <= i < tagged_children(e.children@, "property"@).len() ==> property_matches(
                #[trigger] tagged_children(e.children@, "property"@)[i],
                v@[i],
            ),
        r is Ok <==> forall|i: int|
            0 <= i < tagged_children(e.children@, "property"@).len() ==> property_ok(
                #[trigger] tagged_children(e.children@, "property"@)[i],
            ),
{
    let elems = children_tagged(e, "property");
    let ghost tc = tagged_children(e.children@, "property"@);
    let n = elems.len();
    let mut out: Vec<Property> = Vec::new();
    let mut i: usize = 0;
    while i < n
        invariant
            n == elems@.len(),
            derefs(elems@) == tc,
            tc == tagged_children(e.children@, "property"@),
            i <= n,
            out@.len() == i,
            forall|j: int| 0 <= j < i ==> property_matches(#[trigger] tc[j], out@[j]),
            forall|j: int| 0 <= j < i ==> property_ok(#[trigger] tc[j]),
        decreases n - i,
    {
        proof {
            assert(tc[i as int] == derefs(elems@)[i as int]);
        }
        match Property::from_element(elems[i]) {
            Ok(a) => {
                out.push(a);
            },
            Err(er) => {
                return Err(er);
            },
        }
        i += 1;
    }
    Ok(out)
}

fn collect_signals_of_interface(e: &XmlElement) -> (r: Result<Vec<Signal>, ParserError>)
    ensures
        r matches Err(err) ==> err is Xml,
        r matches Ok(v) ==> v@.len() == tagged_children(e.children@, "glib:signal"@).len()
            && forall|i: int|
            0 <= i < tagged_children(e.children@, "glib:signal"@).len() ==> signal_matches(
                #[trigger] tagged_children(e.children@, "glib:signal"@)[i],
                v@[i],
            ),
        r is Ok <==> forall|i: int|
            0 <= i < tagged_children(e.children@, "glib:signal"@).len() ==> signal_ok(
                #[trigger] tagged_children(e.children@, "glib:signal"@)[i],
            ),
{
    let elems = children_tagged(e, "glib:signal");
    let ghost tc = tagged_children(e.children@, "glib:signal"@);
    let n = elems.len();
    let mut out: Vec<Signal> = Vec::new();
    let mut i: usize = 0;
    while i < n
        invariant
            n == elems@.len(),
            derefs(elems@) == tc,
            tc == tagged_children(e.children@, "glib:signal"@),
            i <= n,
            out@.len() == i,
            forall|j: int| 0 <= j < i ==> signal_matches(#[trigger] tc[j], out@[j]),
            forall|j: int| 0 <= j < i ==> signal_ok(#[trigger] tc[j]),
        decreases n - i,
    {
        proof {
            assert(tc[i as int] == derefs(elems@)[i as int]);
        }
        match Signal::from_element(elems[i]) {
            Ok(a) => {
                out.push(a);
            },
            Err(er) => {
                return Err(er);
            },
        }
        i += 1;
    }
    Ok(out)
}

fn collect_constants_of_interface(e: &XmlElement) -> (r: Result<Vec<Constant>, ParserError>)
    ensures
        r matches Err(err) ==> err is Xml,
        r matches Ok(v) ==> v@.len() == tagged_children(e.children@, "constant"@).len()
            && forall|i: int|
            0 <= i < tagged_children(e.children@, "constant"@).len() ==> constant_matches(
                #[trigger] tagged_children(e.children@, "constant"@)[i],
                v@[i],
            ),
        r is Ok <==> forall|i: int|
            0 <= i < tagged_children(e.children@, "constant"@).len() ==> constant_ok(
                #[trigger] tagged_children(e.children@, "constant"@)[i],
            ),
{
    let elems = children_tagged(e, "constant");
    let ghost tc = tagged_children(e.children@, "constant"@);
    let n = elems.len();
    let mut out: Vec<Constant> = Vec::new();
    let mut i: usize = 0;
    while i < n
        invariant
            n == elems@.len(),
            derefs(elems@) == tc,
            tc == tagged_children(e.children@, "constant"@),
            i <= n,
            out@.len() == i,
            forall|j: int| 0 <= j < i ==> constant_matches(#[trigger] tc[j], out@[j]),
            forall|j: int| 0 <= j < i ==> constant_ok(#[trigger] tc[j]),
        decreases n - i,
    {
        proof {
            assert(tc[i as int] == derefs(elems@)[i as int]);
        }
        match Constant::from_element(elems[i]) {
            Ok(a) => {
                out.push(a);
            },
            Err(er) => {
                return Err(er);
            },
        }
        i += 1;
    }
    Ok(out)
}

fn collect_fields_of_interface(e: &XmlElement) -> (r: Result<Vec<InterfaceField>, ParserError>)
    ensures
        r matches Err(err) ==> err is Xml,
        r matches Ok(v) ==> v@.len() == tagged_any(e.children@, interface_field_tags()).len()
            && forall|i: int|
            0 <= i < tagged_any(e.children@, interface_field_tags()).len() ==> interface_field_matches(
                #[trigger] tagged_any(e.children@, interface_field_tags())[i],
                v@[i],
            ),
        r is Ok <==> forall|i: int|
            0 <= i < tagged_any(e.children@, interface_field_tags()).len() ==> interface_field_ok(
                #[trigger] tagged_any(e.children@, interface_field_tags())[i],
            ),
{
    let tag_names: [&str; 4] = ["field", "union", "record", "callback"];
    proof {
        assert(names_view(tag_names@) =~= interface_field_tags());
    }
    let elems = children_tagged_any(e, &tag_names);
    let ghost tc = tagged_any(e.children@, interface_field_tags());
    let n = elems.len();
    let mut out: Vec<InterfaceField> = Vec::new();
    let mut i: usize = 0;
    while i < n
        invariant
            n == elems@.len(),
            derefs(elems@) == tc,
            tc == tagged_any(e.children@, interface_field_tags()),
            i <= n,
            out@.len() == i,
            forall|j: int| 0 <= j < i ==> interface_field_matches(#[trigger] tc[j], out@[j]),
            forall|j: int| 0 <= j < i ==> interface_field_ok(#[trigger] tc[j]),
        decreases n - i,
    {
        proof {
            assert(tc[i as int] == derefs(elems@)[i as int]);
        }
        match InterfaceField::from_element(elems[i]) {
            Ok(a) => {
                out.push(a);
            },
            Err(er) => {
                return Err(er);
            },
        }
        i += 1;
    }
    Ok(out)
}

impl Interface {
    pub fn from_element(e: &XmlElement) -> (r: Result<Interface, ParserError>)
        ensures
            r matches Err(err) ==> err is Xml,
            r matches Ok(x) ==> interface_matches(*e, x),
            r is Ok <==> interface_ok(*e),
    {
        let attr_names: [&str; 11] = [
            "name",
            "c:symbol-prefix",
            "c:type",
            "glib:type-name",
            "glib:get-type",
            "glib:type-struct",
            "introspectable",
            "deprecated",
            "version",
            "deprecated-version",
            "stability",
        ];
        let child_names: [&str; 21] = [
            "doc",
            "doc-deprecated",
            "doc-stability",
            "doc-version",
            "source-position",
            "attribute",
            "prerequisite",
            "implements",
            "function",
            "function-inline",
            "constructor",
            "method",
            "inline-methods",
            "virtual-method",
            "property",
            "glib:signal",
            "constant",
            "field",
            "union",
            "record",
            "callback",
        ];
        let within = check_attrs_within(e, &attr_names) && check_tags_within(e, &child_names);
        proof {
            assert(names_view(attr_names@) =~= interface_attr_names());
            assert(names_view(child_names@) =~= interface_child_names());
        }
        if !within {
            return Err(crate::xml_error("unrecognized content on an element"));
        }
        let name = req_attr(e, "name")?;
        let symbol_prefix = attr_string(e, "c:symbol-prefix");
        let c_type = attr_string(e, "c:type");
        let g_type_name = req_attr(e, "glib:type-name")?;
        let g_get_type = req_attr(e, "glib:get-type")?;
        let g_type_struct = attr_string(e, "glib:type-struct");
        let docs = Docs::from_children(e)?;
        let info = InfoAttrs::from_attrs(e)?;
        let attributes = collect_attributes(e)?;
        let prerequisites = collect_prerequisites_of_interface(e)?;
        let implements = collect_implements_of_interface(e)?;
        let functions = collect_functions_of_interface(e)?;
        let inline_functions = collect_inline_functions_of_interface(e)?;
        let constructors = collect_constructors_of_interface(e)?;
        let methods = collect_methods_of_interface(e)?;
        let inline_methods = collect_inline_methods_of_interface(e)?;
        let virtual_methods = collect_virtual_methods_of_interface(e)?;
        let properties = collect_properties_of_interface(e)?;
        let signals = collect_signals_of_interface(e)?;
        let constants = collect_constants_of_interface(e)?;
        let fields = collect_fields_of_interface(e)?;
        Ok(Interface { name, symbol_prefix, c_type, g_type_name, g_get_type, g_type_struct, docs, info, attributes, prerequisites, implements, functions, inline_functions, constructors, methods, inline_methods, virtual_methods, properties, signals, constants, fields })
    }

    pub fn name(&self) -> (r: &str)
        ensures
            r@ == self.name@,
    {
        self.name.as_str()
    }

    pub fn symbol_prefix(&self) -> (r: Option<&str>)
        ensures
            opt_view(r) == opt_view(self.symbol_prefix),
    {
        opt_as_str(&self.symbol_prefix)
    }

    pub fn c_type(&self) -> (r: Option<&str>)
        ensures
            opt_view(r) == opt_view(self.c_type),
    {
        opt_as_str(&self.c_type)
    }

    pub fn g_type_name(&self) -> (r: &str)
        ensures
            r@ == self.g_type_name@,
    {
        self.g_type_name.as_str()
    }

    pub fn g_get_type(&self) -> (r: &str)
        ensures
            r@ == self.g_get_type@,
    {
        self.g_get_type.as_str()
    }

    pub fn g_type_struct(&self) -> (r: Option<&str>)
        ensures
            opt_view(r) == opt_view(self.g_type_struct),
    {
        opt_as_str(&self.g_type_struct)
    }

    pub fn prerequisites(&self) -> (r: &[Prerequisite])
        ensures
            r@ == self.prerequisites@,
    {
        self.prerequisites.as_slice()
    }

    pub fn implements(&self) -> (r: &[crate::class::Implements])
        ensures
            r@ == self.implements@,
    {
        self.implements.as_slice()
    }

    pub fn constructors(&self) -> (r: &[Function])
        ensures
            r@ == self.constructors@,
    {
        self.constructors.as_slice()
    }

    pub fn methods(&self) -> (r: &[Method])
        ensures
            r@ == self.methods@,
    {
        self.methods.as_slice()
    }

    pub fn inlined_methods(&self) -> (r: &[MethodInline])
        ensures
            r@ == self.inline_methods@,
    {
        self.inline_methods.as_slice()
    }

    pub fn functions(&self) -> (r: &[Function])
        ensures
            r@ == self.functions@,
    {
        self.functions.as_slice()
    }

    pub fn inlined_functions(&self) -> (r: &[FunctionInline])
        ensures
            r@ == self.inline_functions@,
    {
        self.inline_functions.as_slice()
    }

    pub fn virtual_methods(&self) -> (r: &[VirtualMethod])
        ensures
            r@ == self.virtual_methods@,
    {
        self.virtual_methods.as_slice()
    }

    pub fn fields(&self) -> (r: &[InterfaceField])
        ensures
            r@ == self.fields@,
    {
        self.fields.as_slice()
    }

    pub fn properties(&self) -> (r: &[Property])
        ensures
            r@ == self.properties@,
    {
        self.properties.as_slice()
    }

    pub fn signals(&self) -> (r: &[Signal])
        ensures
            r@ == self.signals@,
    {
        self.signals.as_slice()
    }

    pub fn constants(&self) -> (r: &[Constant])
        ensures
            r@ == self.constants@,
    {
        self.constants.as_slice()
    }

}

impl Documentable for Interface {
    open spec fn docs_spec(&self) -> Docs {
        self.docs
    }

    fn docs_group(&self) -> (r: &Docs) {
        &self.docs
    }
}

impl Attributable for Interface {
    open spec fn attributes_spec(&self) -> Seq<Attribute> {
        self.attributes@
    }

    fn attributes(&self) -> (r: &[Attribute]) {
        self.attributes.as_slice()
    }
}

impl Info for Interface {
    open spec fn info_spec(&self) -> InfoAttrs {
        self.info
    }

    fn info_group(&self) -> (r: &InfoAttrs) {
        &self.info
    }
}

} // verus!
