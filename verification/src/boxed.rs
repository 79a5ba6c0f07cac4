use vstd::prelude::*;

verus! {

use crate::ParserError;
use crate::attribute::{Attribute, attribute_list_ok, attribute_list_matches, collect_attributes};
use crate::documentation::{Docs, docs_ok, docs_matches};
use crate::traits::{Documentable, Attributable, Info, InfoAttrs, info_ok, info_matches};
use crate::schema::{req_attr_spec, opt_bool_attr, req_attr, attr_opt_bool};
use crate::xml::{XmlElement, attr_of, attrs_within, tags_within, first_tagged, tagged_children,
    names_view, opt_view, opt_deref, check_attrs_within, check_tags_within, first_child,
    children_tagged, derefs, attr_string, opt_as_str};
use crate::function::{Function, function_ok, function_matches, FunctionInline,
    function_inline_ok, function_inline_matches};
use crate::member::{Member, member_ok, member_matches};

/// A boxed type declaration: an opaque value type registered by name.
#[derive(Debug)]
pub struct Boxed {
    pub g_name: String,
    pub g_type_name: Option<String>,
    pub g_get_type: Option<String>,
    pub symbol_prefix: Option<String>,
    pub foreign: Option<bool>,
    pub g_is_gtype_struct_for: Option<String>,
    pub copy_function: Option<String>,
    pub free_function: Option<String>,
    pub docs: Docs,
    pub info: InfoAttrs,
    pub attributes: Vec<Attribute>,
    pub functions: Vec<Function>,
    pub inline_functions: Vec<FunctionInline>,
}

pub open spec fn boxed_attr_names() -> Seq<Seq<char>> {
    seq!["glib:name"@, "glib:type-name"@, "glib:get-type"@, "c:symbol-prefix"@, "foreign"@, "glib:is-gtype-struct-for"@, "copy-function"@, "free-function"@, "introspectable"@, "deprecated"@, "version"@, "deprecated-version"@, "stability"@]
}

pub open spec fn boxed_child_names() -> Seq<Seq<char>> {
    seq!["doc"@, "doc-deprecated"@, "doc-stability"@, "doc-version"@, "source-position"@, "attribute"@, "function"@, "function-inline"@]
}

/// Whether a glib:boxed element maps onto the record without a structural error.
pub open spec fn boxed_ok(e: XmlElement) -> bool {
    &&& attrs_within(e.attrs@, boxed_attr_names())
    &&& tags_within(e.children@, boxed_child_names())
    &&& req_attr_spec(e, "glib:name"@) is Ok
    &&& opt_bool_attr(e, "foreign"@) is Ok
    &&& docs_ok(e)
    &&& info_ok(e)
    &&& attribute_list_ok(e)
    &&& forall|i: int|
        0 <= i < tagged_children(e.children@, "function"@).len() ==> function_ok(
            #[trigger] tagged_children(e.children@, "function"@)[i],
        )
    &&& forall|i: int|
        0 <= i < tagged_children(e.children@, "function-inline"@).len() ==> function_inline_ok(
            #[trigger] tagged_children(e.children@, "function-inline"@)[i],
        )
}

/// How a glib:boxed element maps onto the record, field for field.
pub open spec fn boxed_matches(e: XmlElement, x: Boxed) -> bool {
    &&& req_attr_spec(e, "glib:name"@) == Ok::<_, ()>(x.g_name@)
    &&& opt_view(x.g_type_name) == attr_of(e, "glib:type-name"@)
    &&& opt_view(x.g_get_type) == attr_of(e, "glib:get-type"@)
    &&& opt_view(x.symbol_prefix) == attr_of(e, "c:symbol-prefix"@)
    &&& opt_bool_attr(e, "foreign"@) == Ok::<_, ()>(x.foreign)
    &&& opt_view(x.g_is_gtype_struct_for) == attr_of(e, "glib:is-gtype-struct-for"@)
    &&& opt_view(x.copy_function) == attr_of(e, "copy-function"@)
    &&& opt_view(x.free_function) == attr_of(e, "free-function"@)
    &&& docs_matches(e, x.docs)
    &&& info_matches(e, x.info)
    &&& attribute_list_matches(e, x.attributes@)
    &&& x.functions@.len() == tagged_children(e.children@, "function"@).len()
    &&& forall|i: int|
        0 <= i < tagged_children(e.children@, "function"@).len() ==> function_matches(
            #[trigger] tagged_children(e.children@, "function"@)[i],
            x.functions@[i],
        )
    &&& x.inline_functions@.len() == tagged_children(e.children@, "function-inline"@).len()
    &&& forall|i: int|
        0 <= i < tagged_children(e.children@, "function-inline"@).len() ==> function_inline_matches(
            #[trigger] tagged_children(e.children@, "function-inline"@)[i],
            x.inline_functions@[i],
        )
}

fn collect_functions_of_boxed(e: &XmlElement) -> (r: Result<Vec<Function>, ParserError>)
    ensures
        r matches Err(err) ==> err is Xml,
        r matches Ok(v) ==> v@.len() == tagged_children(e.children@, "function"@).len()
            && forall|i: int|
            0 <= i < tagged_children(e.children@, "function"@).len() ==> function_matches(
                #[trigger] tagged_children(e.children@, "function"@)[i],
                v@[i],
            ),
        r is Ok <==> forall|i: int|
            0 <= i < tagged_children(e.children@, "function"@).len() ==> function_ok(
                #[trigger] tagged_children(e.children@, "function"@)[i],
            ),
{
    let elems = children_tagged(e, "function");
    let ghost tc = tagged_children(e.children@, "function"@);
    let n = elems.len();
    let mut out: Vec<Function> = Vec::new();
    let mut i: usize = 0;
    while i < n
        invariant
            n == elems@.len(),
            derefs(elems@) == tc,
            tc == tagged_children(e.children@, "function"@),
            i <= n,
            out@.len() == i,
            forall|j: int| 0 <= j < i ==> function_matches(#[trigger] tc[j], out@[j]),
            forall|j: int| 0 <= j < i ==> function_ok(#[trigger] tc[j]),
        decreases n - i,
    {
        proof {
            assert(tc[i as int] == derefs(elems@)[i as int]);
        }
        match Function::from_element(elems[i]) {
            Ok(a) => {
                out.push(a);
            },
            Err(er) => {
                return Err(er);
            },
        }
        i += 1;
    }
    Ok(out)
}

fn collect_inline_functions_of_boxed(e: &XmlElement) -> (r: Result<Vec<FunctionInline>, ParserError>)
    ensures
        r matches Err(err) ==> err is Xml,
        r matches Ok(v) ==> v@.len() == tagged_children(e.children@, "function-inline"@).len()
            && forall|i: int|
            0 <= i < tagged_children(e.children@, "function-inline"@).len() ==> function_inline_matches(
                #[trigger] tagged_children(e.children@, "function-inline"@)[i],
                v@[i],
            ),
        r is Ok <==> forall|i: int|
            0 <= i < tagged_children(e.children@, "function-inline"@).len() ==> function_inline_ok(
                #[trigger] tagged_children(e.children@, "function-inline"@)[i],
            ),
{
    let elems = children_tagged(e, "function-inline");
    let ghost tc = tagged_children(e.children@, "function-inline"@);
    let n = elems.len();
    let mut out: Vec<FunctionInline> = Vec::new();
    let mut i: usize = 0;
    while i < n
        invariant
            n == elems@.len(),
            derefs(elems@) == tc,
            tc == tagged_children(e.children@, "function-inline"@),
            i <= n,
            out@.len() == i,
            forall|j: int| 0 <= j < i ==> function_inline_matches(#[trigger] tc[j], out@[j]),
            forall|j: int| 0 <= j < i ==> function_inline_ok(#[trigger] tc[j]),
        decreases n - i,
    {
        proof {
            assert(tc[i as int] == derefs(elems@)[i as int]);
        }
        match FunctionInline::from_element(elems[i]) {
            Ok(a) => {
                out.push(a);
            },
            Err(er) => {
                return Err(er);
            },
        }
        i += 1;
    }
    Ok(out)
}

impl Boxed {
    pub fn from_element(e: &XmlElement) -> (r: Result<Boxed, ParserError>)
        ensures
            r matches Err(err) ==> err is Xml,
            r matches Ok(x) ==> boxed_matches(*e, x),
            r is Ok <==> boxed_ok(*e),
    {
        let attr_names: [&str; 13] = [
            "glib:name",
            "glib:type-name",
            "glib:get-type",
            "c:symbol-prefix",
            "foreign",
            "glib:is-gtype-struct-for",
            "copy-function",
            "free-function",
            "introspectable",
            "deprecated",
            "version",
            "deprecated-version",
            "stability",
        ];
        let child_names: [&str; 8] = [
            "doc",
            "doc-deprecated",
            "doc-stability",
            "doc-version",
            "source-position",
            "attribute",
            "function",
            "function-inline",
        ];
        let within = check_attrs_within(e, &attr_names) && check_tags_within(e, &child_names);
        proof {
            assert(names_view(attr_names@) =~= boxed_attr_names());
            assert(names_view(child_names@) =~= boxed_child_names());
        }
        if !within {
            return Err(crate::xml_error("unrecognized content on an element"));
        }
        let g_name = req_attr(e, "glib:name")?;
        let g_type_name = attr_string(e, "glib:type-name");
        let g_get_type = attr_string(e, "glib:get-type");
        let symbol_prefix = attr_string(e, "c:symbol-prefix");
        let foreign = attr_opt_bool(e, "foreign")?;
        let g_is_gtype_struct_for = attr_string(e, "glib:is-gtype-struct-for");
        let copy_function = attr_string(e, "copy-function");
        let free_function = attr_string(e, "free-function");
        let docs = Docs::from_children(e)?;
        let info = InfoAttrs::from_attrs(e)?;
        let attributes = collect_attributes(e)?;
        let functions = collect_functions_of_boxed(e)?;
        let inline_functions = collect_inline_functions_of_boxed(e)?;
        Ok(Boxed { g_name, g_type_name, g_get_type, symbol_prefix, foreign, g_is_gtype_struct_for, copy_function, free_function, docs, info, attributes, functions, inline_functions })
    }

    pub fn g_name(&self) -> (r: &str)
        ensures
            r@ == self.g_name@,
    {
        self.g_name.as_str()
    }

    pub fn is_foreign(&self) -> (r: bool)
        ensures
            r == self.foreign.unwrap_or(false),
    {
        self.foreign.unwrap_or(false)
    }

    pub fn g_is_gtype_struct_for(&self) -> (r: Option<&str>)
        ensures
            opt_view(r) == opt_view(self.g_is_gtype_struct_for),
    {
        opt_as_str(&self.g_is_gtype_struct_for)
    }

    pub fn g_type_name(&self) -> (r: Option<&str>)
        ensures
            opt_view(r) == opt_view(self.g_type_name),
    {
        opt_as_str(&self.g_type_name)
    }

    pub fn g_get_type(&self) -> (r: Option<&str>)
        ensures
            opt_view(r) == opt_view(self.g_get_type),
    {
        opt_as_str(&self.g_get_type)
    }

    pub fn symbol_prefix(&self) -> (r: Option<&str>)
        ensures
            opt_view(r) == opt_view(self.symbol_prefix),
    {
        opt_as_str(&self.symbol_prefix)
    }

    pub fn copy_function(&self) -> (r: Option<&str>)
        ensures
            opt_view(r) == opt_view(self.copy_function),
    {
        opt_as_str(&self.copy_function)
    }

    pub fn free_function(&self) -> (r: Option<&str>)
        ensures
            opt_view(r) == opt_view(self.free_function),
    {
        opt_as_str(&self.free_function)
    }

    pub fn functions(&self) -> (r: &[Function])
        ensures
            r@ == self.functions@,
    {
        self.functions.as_slice()
    }

    pub fn inlined_functions(&self) -> (r: &[FunctionInline])
        ensures
            r@ == self.inline_functions@,
    {
        self.inline_functions.as_slice()
    }

}

impl Documentable for Boxed {
    open spec fn docs_spec(&self) -> Docs {
        self.docs
    }

    fn docs_group(&self) -> (r: &Docs) {
        &self.docs
    }
}

impl Attributable for Boxed {
    open spec fn attributes_spec(&self) -> Seq<Attribute> {
        self.attributes@
    }

    fn attributes(&self) -> (r: &[Attribute]) {
        self.attributes.as_slice()
    }
}

impl Info for Boxed {
    open spec fn info_spec(&self) -> InfoAttrs {
        self.info
    }

    fn info_group(&self) -> (r: &InfoAttrs) {
        &self.info
    }
}

} // verus!
