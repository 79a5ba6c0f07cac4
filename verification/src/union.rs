use vstd::prelude::*;

verus! {

use crate::ParserError;
use crate::attribute::{Attribute, attribute_list_ok, attribute_list_matches, collect_attributes};
use crate::documentation::{Docs, docs_ok, docs_matches};
use crate::traits::{Documentable, Attributable, Info, InfoAttrs, info_ok, info_matches};
use crate::schema::{req_attr_spec, opt_bool_attr, req_attr, attr_opt_bool};
use crate::xml::{XmlElement, attr_of, attrs_within, tags_within, first_tagged, tagged_children,
    tagged_any, names_view, opt_view, opt_deref, check_attrs_within, check_tags_within,
    first_child, children_tagged, children_tagged_any, derefs, attr_string, opt_as_str, str_eq,
    lemma_tagged_any_elem_contained, lemma_child_decreases};
use crate::callback::{Callback, callback_ok, callback_matches};
use crate::field::{Field, field_ok, field_matches};
use crate::function::{Function, function_ok, function_matches, FunctionInline,
    function_inline_ok, function_inline_matches};
use crate::method::{Method, method_ok, method_matches, MethodInline, method_inline_ok,
    method_inline_matches};

/// One entry of the ordered heterogeneous body of a union: the relative
/// order of the interleaved declarations is preserved.
#[derive(Debug)]
pub enum UnionField {
    Field(Field),
    Union(Union),
    Record(crate::record::Record),
    Callback(Callback),
}

pub open spec fn union_field_tags() -> Seq<Seq<char>> {
    seq!["field"@, "union"@, "record"@, "callback"@]
}

pub open spec fn union_field_ok(e: XmlElement) -> bool
    decreases e, 2int,
{
    if e.tag@ == "field"@ {
        field_ok(e)
    } else if e.tag@ == "union"@ {
        union_ok(e)
    } else if e.tag@ == "record"@ {
        crate::record::record_ok(e)
    } else if e.tag@ == "callback"@ {
        callback_ok(e)
    } else {
        false
    }
}

pub open spec fn union_field_matches(e: XmlElement, t: UnionField) -> bool
    decreases e, 2int,
{
    match t {
        UnionField::Field(x) => e.tag@ == "field"@ && field_matches(e, x),
        UnionField::Union(x) => e.tag@ == "union"@ && union_matches(e, x),
        UnionField::Record(x) => e.tag@ == "record"@ && crate::record::record_matches(e, x),
        UnionField::Callback(x) => e.tag@ == "callback"@ && callback_matches(e, x),
    }
}

impl UnionField {
    /// Maps an element whose tag already matched the dispatch set.
    pub fn from_element(e: &XmlElement) -> (r: Result<UnionField, ParserError>)
        ensures
            r matches Err(err) ==> err is Xml,
            r matches Ok(t) ==> union_field_matches(*e, t),
            r is Ok <==> union_field_ok(*e),
        decreases *e, 2int,
    {
        if str_eq(e.tag.as_str(), "field") {
            match Field::from_element(e) {
                Ok(t) => Ok(UnionField::Field(t)),
                Err(er) => Err(er),
            }
        } else if str_eq(e.tag.as_str(), "union") {
            match Union::from_element(e) {
                Ok(t) => Ok(UnionField::Union(t)),
                Err(er) => Err(er),
            }
        } else if str_eq(e.tag.as_str(), "record") {
            match crate::record::Record::from_element(e) {
                Ok(t) => Ok(UnionField::Record(t)),
                Err(er) => Err(er),
            }
        } else if str_eq(e.tag.as_str(), "callback") {
            match Callback::from_element(e) {
                Ok(t) => Ok(UnionField::Callback(t)),
                Err(er) => Err(er),
            }
        } else {
            Err(crate::xml_error("an element does not fit this body position"))
        }
    }
}

/// A union declaration: overlapping fields with methods and functions.
#[derive(Debug)]
pub struct Union {
    pub name: Option<String>,
    pub c_type: Option<String>,
    pub c_symbol_prefix: Option<String>,
    pub g_type_name: Option<String>,
    pub g_get_type: Option<String>,
    pub copy_function: Option<String>,
    pub free_function: Option<String>,
    pub docs: Docs,
    pub info: InfoAttrs,
    pub attributes: Vec<Attribute>,
    pub constructors: Vec<Function>,
    pub functions: Vec<Function>,
    pub inline_functions: Vec<FunctionInline>,
    pub methods: Vec<Method>,
    pub inline_methods: Vec<MethodInline>,
    pub fields: Vec<UnionField>,
}

pub open spec fn union_attr_names() -> Seq<Seq<char>> {
    seq!["name"@, "c:type"@, "c:symbol-prefix"@, "glib:type-name"@, "glib:get-type"@, "copy-function"@, "free-function"@, "introspectable"@, "deprecated"@, "version"@, "deprecated-version"@, "stability"@]
}

pub open spec fn union_child_names() -> Seq<Seq<char>> {
    seq!["doc"@, "doc-deprecated"@, "doc-stability"@, "doc-version"@, "source-position"@, "attribute"@, "constructor"@, "function"@, "function-inline"@, "method"@, "method-inline"@, "field"@, "union"@, "record"@, "callback"@]
}

/// Whether a union element maps onto the record without a structural error.
pub open spec fn union_ok(e: XmlElement) -> bool
    decreases e, 1int,
    when true
    via union_ok_decreases
{
    &&& attrs_within(e.attrs@, union_attr_names())
    &&& tags_within(e.children@, union_child_names())
    &&& docs_ok(e)
    &&& info_ok(e)
    &&& attribute_list_ok(e)
    &&& forall|i: int|
        0 <= i < tagged_children(e.children@, "constructor"@).len() ==> function_ok(
            #[trigger] tagged_children(e.children@, "constructor"@)[i],
        )
    &&& forall|i: int|
        0 <= i < tagged_children(e.children@, "function"@).len() ==> function_ok(
            #[trigger] tagged_children(e.children@, "function"@)[i],
        )
    &&& forall|i: int|
        0 <= i < tagged_children(e.children@, "function-inline"@).len() ==> function_inline_ok(
            #[trigger] tagged_children(e.children@, "function-inline"@)[i],
        )
    &&& forall|i: int|
        0 <= i < tagged_children(e.children@, "method"@).len() ==> method_ok(
            #[trigger] tagged_children(e.children@, "method"@)[i],
        )
    &&& forall|i: int|
        0 <= i < tagged_children(e.children@, "method-inline"@).len() ==> method_inline_ok(
            #[trigger] tagged_children(e.children@, "method-inline"@)[i],
        )
    &&& forall|i: int|
        0 <= i < tagged_any(e.children@, union_field_tags()).len() ==> union_field_ok(
            #[trigger] tagged_any(e.children@, union_field_tags())[i],
        )
}

/// How a union element maps onto the record, field for field.
pub open spec fn union_matches(e: XmlElement, x: Union) -> bool
    decreases e, 1int,
    when true
    via union_matches_decreases
{
    &&& opt_view(x.name) == attr_of(e, "name"@)
    &&& opt_view(x.c_type) == attr_of(e, "c:type"@)
    &&& opt_view(x.c_symbol_prefix) == attr_of(e, "c:symbol-prefix"@)
    &&& opt_view(x.g_type_name) == attr_of(e, "glib:type-name"@)
    &&& opt_view(x.g_get_type) == attr_of(e, "glib:get-type"@)
    &&& opt_view(x.copy_function) == attr_of(e, "copy-function"@)
    &&& opt_view(x.free_function) == attr_of(e, "free-function"@)
    &&& docs_matches(e, x.docs)
    &&& info_matches(e, x.info)
    &&& attribute_list_matches(e, x.attributes@)
    &&& x.constructors@.len() == tagged_children(e.children@, "constructor"@).len()
    &&& forall|i: int|
        0 <= i < tagged_children(e.children@, "constructor"@).len() ==> function_matches(
            #[trigger] tagged_children(e.children@, "constructor"@)[i],
            x.constructors@[i],
        )
    &&& x.functions@.len() == tagged_children(e.children@, "function"@).len()
    &&& forall|i: int|
        0 <= i < tagged_children(e.children@, "function"@).len() ==> function_matches(
            #[trigger] tagged_children(e.children@, "function"@)[i],
            x.functions@[i],
        )
    &&& x.inline_functions@.len() == tagged_children(e.children@, "function-inline"@).len()
    &&& forall|i: int|
        0 <= i < tagged_children(e.children@, "function-inline"@).len() ==> function_inline_matches(
            #[trigger] tagged_children(e.children@, "function-inline"@)[i],
            x.inline_functions@[i],
        )
    &&& x.methods@.len() == tagged_children(e.children@, "method"@).len()
    &&& forall|i: int|
        0 <= i < tagged_children(e.children@, "method"@).len() ==> method_matches(
            #[trigger] tagged_children(e.children@, "method"@)[i],
            x.methods@[i],
        )
    &&& x.inline_methods@.len() == tagged_children(e.children@, "method-inline"@).len()
    &&& forall|i: int|
        0 <= i < tagged_children(e.children@, "method-inline"@).len() ==> method_inline_matches(
            #[trigger] tagged_children(e.children@, "method-inline"@)[i],
            x.inline_methods@[i],
        )
    &&& x.fields@.len() == tagged_any(e.children@, union_field_tags()).len()
    &&& forall|i: int|
        0 <= i < tagged_any(e.children@, union_field_tags()).len() ==> union_field_matches(
            #[trigger] tagged_any(e.children@, union_field_tags())[i],
            x.fields@[i],
        )
}

fn collect_constructors_of_union(e: &XmlElement) -> (r: Result<Vec<Function>, ParserError>)
    ensures
        r matches Err(err) ==> err is Xml,
        r matches Ok(v) ==> v@.len() == tagged_children(e.children@, "constructor"@).len()
            && forall|i: int|
            0 <= i < tagged_children(e.children@, "constructor"@).len() ==> function_matches(
                #[trigger] tagged_children(e.children@, "constructor"@)[i],
                v@[i],
            ),
        r is Ok <==> forall|i: int|
            0 <= i < tagged_children(e.children@, "constructor"@).len() ==> function_ok(
                #[trigger] tagged_children(e.children@, "constructor"@)[i],
            ),
{
    let elems = children_tagged(e, "constructor");
    let ghost tc = tagged_children(e.children@, "constructor"@);
    let n = elems.len();
    let mut out: Vec<Function> = Vec::new();
    let mut i: usize = 0;
    while i < n
        invariant
            n == elems@.len(),
            derefs(elems@) == tc,
            tc == tagged_children(e.children@, "constructor"@),
            i <= n,
            out@.len() == i,
            forall|j: int| 0 <= j < i ==> function_matches(#[trigger] tc[j], out@[j]),
            forall|j: int| 0 <= j < i ==> function_ok(#[trigger] tc[j]),
        decreases n - i,
    {
        proof {
            assert(tc[i as int] == derefs(elems@)[i as int]);
        }
        match Function::from_element(elems[i]) {
            Ok(a) => {
                out.push(a);
            },
            Err(er) => {
                return Err(er);
            },
        }
        i += 1;
    }
    Ok(out)
}

fn collect_functions_of_union(e: &XmlElement) -> (r: Result<Vec<Function>, ParserError>)
    ensures
        r matches Err(err) ==> err is Xml,
        r matches Ok(v) ==> v@.len() == tagged_children(e.children@, "function"@).len()
            && forall|i: int|
            0 <= i < tagged_children(e.children@, "function"@).len() ==> function_matches(
                #[trigger] tagged_children(e.children@, "function"@)[i],
                v@[i],
            ),
        r is Ok <==> forall|i: int|
            0 <= i < tagged_children(e.children@, "function"@).len() ==> function_ok(
                #[trigger] tagged_children(e.children@, "function"@)[i],
            ),
{
    let elems = children_tagged(e, "function");
    let ghost tc = tagged_children(e.children@, "function"@);
    let n = elems.len();
    let mut out: Vec<Function> = Vec::new();
    let mut i: usize = 0;
    while i < n
        invariant
            n == elems@.len(),
            derefs(elems@) == tc,
            tc == tagged_children(e.children@, "function"@),
            i <= n,
            out@.len() == i,
            forall|j: int| 0 <= j < i ==> function_matches(#[trigger] tc[j], out@[j]),
            forall|j: int| 0 <= j < i ==> function_ok(#[trigger] tc[j]),
        decreases n - i,
    {
        proof {
            assert(tc[i as int] == derefs(elems@)[i as int]);
        }
        match Function::from_element(elems[i]) {
            Ok(a) => {
                out.push(a);
            },
            Err(er) => {
                return Err(er);
            },
        }
        i += 1;
    }
    Ok(out)
}

fn collect_inline_functions_of_union(e: &XmlElement) -> (r: Result<Vec<FunctionInline>, ParserError>)
    ensures
        r matches Err(err) ==> err is Xml,
        r matches Ok(v) ==> v@.len() == tagged_children(e.children@, "function-inline"@).len()
            && forall|i: int|
            0 <= i < tagged_children(e.children@, "function-inline"@).len() ==> function_inline_matches(
                #[trigger] tagged_children(e.children@, "function-inline"@)[i],
                v@[i],
            ),
        r is Ok <==> forall|i: int|
            0 <= i < tagged_children(e.children@, "function-inline"@).len() ==> function_inline_ok(
                #[trigger] tagged_children(e.children@, "function-inline"@)[i],
            ),
{
    let elems = children_tagged(e, "function-inline");
    let ghost tc = tagged_children(e.children@, "function-inline"@);
    let n = elems.len();
    let mut out: Vec<FunctionInline> = Vec::new();
    let mut i: usize = 0;
    while i < n
        invariant
            n == elems@.len(),
            derefs(elems@) == tc,
            tc == tagged_children(e.children@, "function-inline"@),
            i <= n,
            out@.len() == i,
            forall|j: int| 0 <= j < i ==> function_inline_matches(#[trigger] tc[j], out@[j]),
            forall|j: int| 0 <= j < i ==> function_inline_ok(#[trigger] tc[j]),
        decreases n - i,
    {
        proof {
            assert(tc[i as int] == derefs(elems@)[i as int]);
        }
        match FunctionInline::from_element(elems[i]) {
            Ok(a) => {
                out.push(a);
            },
            Err(er) => {
                return Err(er);
            },
        }
        i += 1;
    }
    Ok(out)
}

fn collect_methods_of_union(e: &XmlElement) -> (r: Result<Vec<Method>, ParserError>)
    ensures
        r matches Err(err) ==> err is Xml,
        r matches Ok(v) ==> v@.len() == tagged_children(e.children@, "method"@).len()
            && forall|i: int|
            0 <= i < tagged_children(e.children@, "method"@).len() ==> method_matches(
                #[trigger] tagged_children(e.children@, "method"@)[i],
                v@[i],
            ),
        r is Ok <==> forall|i: int|
            0 <= i < tagged_children(e.children@, "method"@).len() ==> method_ok(
                #[trigger] tagged_children(e.children@, "method"@)[i],
            ),
{
    let elems = children_tagged(e, "method");
    let ghost tc = tagged_children(e.children@, "method"@);
    let n = elems.len();
    let mut out: Vec<Method> = Vec::new();
    let mut i: usize = 0;
    while i < n
        invariant
            n == elems@.len(),
            derefs(elems@) == tc,
            tc == tagged_children(e.children@, "method"@),
            i <= n,
            out@.len() == i,
            forall|j: int| 0 <= j < i ==> method_matches(#[trigger] tc[j], out@[j]),
            forall|j: int| 0 <= j < i ==> method_ok(#[trigger] tc[j]),
        decreases n - i,
    {
        proof {
            assert(tc[i as int] == derefs(elems@)[i as int]);
        }
        match Method::from_element(elems[i]) {
            Ok(a) => {
                out.push(a);
            },
            Err(er) => {
                return Err(er);
            },
        }
        i += 1;
    }
    Ok(out)
}

fn collect_inline_methods_of_union(e: &XmlElement) -> (r: Result<Vec<MethodInline>, ParserError>)
    ensures
        r matches Err(err) ==> err is Xml,
        r matches Ok(v) ==> v@.len() == tagged_children(e.children@, "method-inline"@).len()
            && forall|i: int|
            0 <= i < tagged_children(e.children@, "method-inline"@).len() ==> method_inline_matches(
                #[trigger] tagged_children(e.children@, "method-inline"@)[i],
                v@[i],
            ),
        r is Ok <==> forall|i: int|
            0 <= i < tagged_children(e.children@, "method-inline"@).len() ==> method_inline_ok(
                #[trigger] tagged_children(e.children@, "method-inline"@)[i],
            ),
{
    let elems = children_tagged(e, "method-inline");
    let ghost tc = tagged_children(e.children@, "method-inline"@);
    let n = elems.len();
    let mut out: Vec<MethodInline> = Vec::new();
    let mut i: usize = 0;
    while i < n
        invariant
            n == elems@.len(),
            derefs(elems@) == tc,
            tc == tagged_children(e.children@, "method-inline"@),
            i <= n,
            out@.len() == i,
            forall|j: int| 0 <= j < i ==> method_inline_matches(#[trigger] tc[j], out@[j]),
            forall|j: int| 0 <= j < i ==> method_inline_ok(#[trigger] tc[j]),
        decreases n - i,
    {
        proof {
            assert(tc[i as int] == derefs(elems@)[i as int]);
        }
        match MethodInline::from_element(elems[i]) {
            Ok(a) => {
                out.push(a);
            },
            Err(er) => {
                return Err(er);
            },
        }
        i += 1;
    }
    Ok(out)
}

fn collect_fields_of_union(e: &XmlElement) -> (r: Result<Vec<UnionField>, ParserError>)
    ensures
        r matches Err(err) ==> err is Xml,
        r matches Ok(v) ==> v@.len() == tagged_any(e.children@, union_field_tags()).len()
            && forall|i: int|
            0 <= i < tagged_any(e.children@, union_field_tags()).len() ==> union_field_matches(
                #[trigger] tagged_any(e.children@, union_field_tags())[i],
                v@[i],
            ),
        r is Ok <==> forall|i: int|
            0 <= i < tagged_any(e.children@, union_field_tags()).len() ==> union_field_ok(
                #[trigger] tagged_any(e.children@, union_field_tags())[i],
            ),
    decreases *e, 0int,
{
    let tag_names: [&str; 4] = ["field", "union", "record", "callback"];
    proof {
        assert(names_view(tag_names@) =~= union_field_tags());
    }
    let elems = children_tagged_any(e, &tag_names);
    let ghost tc = tagged_any(e.children@, union_field_tags());
    let n = elems.len();
    let mut out: Vec<UnionField> = Vec::new();
    let mut i: usize = 0;
    while i < n
        invariant
            n == elems@.len(),
            derefs(elems@) == tc,
            tc == tagged_any(e.children@, union_field_tags()),
            i <= n,
            out@.len() == i,
            forall|j: int| 0 <= j < i ==> union_field_matches(#[trigger] tc[j], out@[j]),
            forall|j: int| 0 <= j < i ==> union_field_ok(#[trigger] tc[j]),
        decreases n - i,
    {
        proof {
            assert(tc[i as int] == derefs(elems@)[i as int]);
            lemma_tagged_any_elem_contained(e.children@, union_field_tags(), i as int);
            lemma_child_decreases(*e, tc[i as int]);
        }
        match UnionField::from_element(elems[i]) {
            Ok(a) => {
                out.push(a);
            },
            Err(er) => {
                return Err(er);
            },
        }
        i += 1;
    }
    Ok(out)
}

#[via_fn]
proof fn union_ok_decreases(e: XmlElement) {
    assert forall|i: int| 0 <= i < tagged_any(e.children@, union_field_tags()).len() implies (
    decreases_to!(e, 1int => tagged_any(e.children@, union_field_tags())[i], 2int)) by {
        lemma_tagged_any_elem_contained(e.children@, union_field_tags(), i);
        lemma_child_decreases(e, tagged_any(e.children@, union_field_tags())[i]);
    }
}

#[via_fn]
proof fn union_matches_decreases(e: XmlElement, x: Union) {
    assert forall|i: int| 0 <= i < tagged_any(e.children@, union_field_tags()).len() implies (
    decreases_to!(e, 1int => tagged_any(e.children@, union_field_tags())[i], 2int)) by {
        lemma_tagged_any_elem_contained(e.children@, union_field_tags(), i);
        lemma_child_decreases(e, tagged_any(e.children@, union_field_tags())[i]);
    }
}

impl Union {
    pub fn from_element(e: &XmlElement) -> (r: Result<Union, ParserError>)
        ensures
            r matches Err(err) ==> err is Xml,
            r matches Ok(x) ==> union_matches(*e, x),
            r is Ok <==> union_ok(*e),
        decreases *e, 1int,
    {
        let attr_names: [&str; 12] = [
            "name",
            "c:type",
            "c:symbol-prefix",
            "glib:type-name",
            "glib:get-type",
            "copy-function",
            "free-function",
            "introspectable",
            "deprecated",
            "version",
            "deprecated-version",
            "stability",
        ];
        let child_names: [&str; 15] = [
            "doc",
            "doc-deprecated",
            "doc-stability",
            "doc-version",
            "source-position",
            "attribute",
            "constructor",
            "function",
            "function-inline",
            "method",
            "method-inline",
            "field",
            "union",
            "record",
            "callback",
        ];
        let within = check_attrs_within(e, &attr_names) && check_tags_within(e, &child_names);
        proof {
            assert(names_view(attr_names@) =~= union_attr_names());
            assert(names_view(child_names@) =~= union_child_names());
        }
        if !within {
            return Err(crate::xml_error("unrecognized content on an element"));
        }
        let name = attr_string(e, "name");
        let c_type = attr_string(e, "c:type");
        let c_symbol_prefix = attr_string(e, "c:symbol-prefix");
        let g_type_name = attr_string(e, "glib:type-name");
        let g_get_type = attr_string(e, "glib:get-type");
        let copy_function = attr_string(e, "copy-function");
        let free_function = attr_string(e, "free-function");
        let docs = Docs::from_children(e)?;
        let info = InfoAttrs::from_attrs(e)?;
        let attributes = collect_attributes(e)?;
        let constructors = collect_constructors_of_union(e)?;
        let functions = collect_functions_of_union(e)?;
        let inline_functions = collect_inline_functions_of_union(e)?;
        let methods = collect_methods_of_union(e)?;
        let inline_methods = collect_inline_methods_of_union(e)?;
        let fields = collect_fields_of_union(e)?;
        Ok(Union { name, c_type, c_symbol_prefix, g_type_name, g_get_type, copy_function, free_function, docs, info, attributes, constructors, functions, inline_functions, methods, inline_methods, fields })
    }

    pub fn name(&self) -> (r: Option<&str>)
        ensures
            opt_view(r) == opt_view(self.name),
    {
        opt_as_str(&self.name)
    }

    pub fn c_type(&self) -> (r: Option<&str>)
        ensures
            opt_view(r) == opt_view(self.c_type),
    {
        opt_as_str(&self.c_type)
    }

    pub fn c_symbol_prefix(&self) -> (r: Option<&str>)
        ensures
            opt_view(r) == opt_view(self.c_symbol_prefix),
    {
        opt_as_str(&self.c_symbol_prefix)
    }

    pub fn g_type_name(&self) -> (r: Option<&str>)
        ensures
            opt_view(r) == opt_view(self.g_type_name),
    {
        opt_as_str(&self.g_type_name)
    }

    pub fn g_get_type(&self) -> (r: Option<&str>)
        ensures
            opt_view(r) == opt_view(self.g_get_type),
    {
        opt_as_str(&self.g_get_type)
    }

    pub fn copy_function(&self) -> (r: Option<&str>)
        ensures
            opt_view(r) == opt_view(self.copy_function),
    {
        opt_as_str(&self.copy_function)
    }

    pub fn free_function(&self) -> (r: Option<&str>)
        ensures
            opt_view(r) == opt_view(self.free_function),
    {
        opt_as_str(&self.free_function)
    }

    pub fn fields(&self) -> (r: &[UnionField])
        ensures
            r@ == self.fields@,
    {
        self.fields.as_slice()
    }

    pub fn constructors(&self) -> (r: &[Function])
        ensures
            r@ == self.constructors@,
    {
        self.constructors.as_slice()
    }

    pub fn inlined_methods(&self) -> (r: &[MethodInline])
        ensures
            r@ == self.inline_methods@,
    {
        self.inline_methods.as_slice()
    }

    pub fn methods(&self) -> (r: &[Method])
        ensures
            r@ == self.methods@,
    {
        self.methods.as_slice()
    }

    pub fn inlined_functions(&self) -> (r: &[FunctionInline])
        ensures
            r@ == self.inline_functions@,
    {
        self.inline_functions.as_slice()
    }

    pub fn functions(&self) -> (r: &[Function])
        ensures
            r@ == self.functions@,
    {
        self.functions.as_slice()
    }

}

impl Documentable for Union {
    open spec fn docs_spec(&self) -> Docs {
        self.docs
    }

    fn docs_group(&self) -> (r: &Docs) {
        &self.docs
    }
}

impl Attributable for Union {
    open spec fn attributes_spec(&self) -> Seq<Attribute> {
        self.attributes@
    }

    fn attributes(&self) -> (r: &[Attribute]) {
        self.attributes.as_slice()
    }
}

impl Info for Union {
    open spec fn info_spec(&self) -> InfoAttrs {
        self.info
    }

    fn info_group(&self) -> (r: &InfoAttrs) {
        &self.info
    }
}

} // verus!
