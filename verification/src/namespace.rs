use vstd::prelude::*;

verus! {

use crate::ParserError;
use crate::alias::{Alias, alias_ok, alias_matches};
use crate::bitfield::{BitField, bit_field_ok, bit_field_matches};
use crate::boxed::{Boxed, boxed_ok, boxed_matches};
use crate::callback::{Callback, callback_ok, callback_matches};
use crate::class::{Class, class_ok, class_matches};
use crate::constant::{Constant, constant_ok, constant_matches};
use crate::enums::{Enumeration, enumeration_ok, enumeration_matches};
use crate::function::{Function, function_ok, function_matches, FunctionInline,
    function_inline_ok, function_inline_matches};
use crate::function_macro::{FunctionMacro, function_macro_ok, function_macro_matches};
use crate::interface::{Interface, interface_ok, interface_matches};
use crate::record::{Record, record_ok, record_matches};
use crate::union::{Union, union_ok, union_matches};
use crate::version::{head_segment, tail_after, lemma_tail_after_shorter, split_sep};
use crate::schema::{req_attr_spec, req_attr};
use crate::xml::{XmlElement, attr_of, tagged_children, opt_view, check_attrs_within,
    check_tags_within, names_view, children_tagged, derefs, attr_string, opt_as_str, str_eq};

/// The views of a list of strings.
pub open spec fn strs_view(v: Seq<String>) -> Seq<Seq<char>> {
    Seq::new(v.len(), |i: int| v[i]@)
}

/// The nonempty separator-delimited parts of a string, in order.
pub open spec fn split_nonempty(s: Seq<char>, sep: char) -> Seq<Seq<char>>
    decreases s.len(),
    when true
    via split_nonempty_decreases
{
    match tail_after(s, sep) {
        None => if s.len() > 0 {
            seq![s]
        } else {
            Seq::empty()
        },
        Some(t) => {
            let h = head_segment(s, sep);
            (if h.len() > 0 {
                seq![h]
            } else {
                Seq::empty()
            }) + split_nonempty(t, sep)
        },
    }
}

#[via_fn]
proof fn split_nonempty_decreases(s: Seq<char>, sep: char) {
    match tail_after(s, sep) {
        Some(t) => {
            lemma_tail_after_shorter(s, sep);
        },
        None => {},
    }
}

/// A string without the separator splits as itself.
proof fn lemma_head_when_no_sep(s: Seq<char>, sep: char)
    requires
        tail_after(s, sep) is None,
    ensures
        head_segment(s, sep) == s,
    decreases s.len(),
{
    if s.len() > 0 {
        lemma_head_when_no_sep(s.skip(1), sep);
        assert(head_segment(s, sep) =~= s);
    } else {
        assert(head_segment(s, sep) =~= s);
    }
}

/// Splits a string into its nonempty separator-delimited parts.
pub fn split_list(s: &str, sep: char) -> (r: Vec<String>)
    ensures
        strs_view(r@) == split_nonempty(s@, sep),
{
    let mut out: Vec<String> = Vec::new();
    let mut rem: String = s.to_owned();
    proof {
        assert(strs_view(out@) =~~= Seq::<Seq<char>>::empty());
        assert(split_nonempty(s@, sep) =~~= strs_view(out@) + split_nonempty(rem@, sep));
    }
    loop
        invariant
            split_nonempty(s@, sep) == strs_view(out@) + split_nonempty(rem@, sep),
        decreases rem@.len(),
    {
        let (head, tailopt) = split_sep(rem.as_str(), sep);
        let ghost old_out = out@;
        let ghost old_rem = rem@;
        match tailopt {
            None => {
                proof {
                    lemma_head_when_no_sep(rem@, sep);
                }
                if head.unicode_len() > 0 {
                    out.push(head);
                    proof {
                        assert(strs_view(out@).len() == out@.len());
                        assert(strs_view(out@) =~~= strs_view(old_out) + seq![old_rem]);
                        assert(split_nonempty(old_rem, sep) =~~= seq![old_rem]);
                        assert(strs_view(out@) =~~= split_nonempty(s@, sep));
                    }
                } else {
                    proof {
                        assert(split_nonempty(old_rem, sep) =~~= Seq::<Seq<char>>::empty());
                        assert(strs_view(out@) =~~= split_nonempty(s@, sep));
                    }
                }
                return out;
            },
            Some(tail) => {
                proof {
                    lemma_tail_after_shorter(old_rem, sep);
                }
                if head.unicode_len() > 0 {
                    out.push(head);
                    proof {
                        assert(strs_view(out@).len() == out@.len());
                        assert(strs_view(out@) =~~= strs_view(old_out) + seq![
                            head_segment(old_rem, sep),
                        ]);
                        assert(split_nonempty(old_rem, sep) =~~= seq![
                            head_segment(old_rem, sep),
                        ] + split_nonempty(tail@, sep));
                        assert(strs_view(old_out) + split_nonempty(old_rem, sep) =~~= strs_view(
                            out@,
                        ) + split_nonempty(tail@, sep));
                    }
                } else {
                    proof {
                        assert(split_nonempty(old_rem, sep) =~~= split_nonempty(tail@, sep));
                        assert(strs_view(old_out) + split_nonempty(old_rem, sep) =~~= strs_view(
                            out@,
                        ) + split_nonempty(tail@, sep));
                    }
                }
                rem = tail;
            },
        }
    }
}

/// The single top-level library description inside one document, with the full catalogue of its declarations. Unrecognized content is ignored for forward compatibility.
#[derive(Debug)]
pub struct Namespace {
    pub name: String,
    pub version: String,
    pub shared_library: Option<String>,
    pub c_identifier_prefixes: Option<String>,
    pub c_symbol_prefixes: Option<String>,
    pub aliases: Vec<Alias>,
    pub classes: Vec<Class>,
    pub interfaces: Vec<Interface>,
    pub records: Vec<Record>,
    pub unions: Vec<Union>,
    pub bit_fields: Vec<BitField>,
    pub enumerations: Vec<Enumeration>,
    pub boxeds: Vec<Boxed>,
    pub callbacks: Vec<Callback>,
    pub functions: Vec<Function>,
    pub inline_functions: Vec<FunctionInline>,
    pub function_macros: Vec<FunctionMacro>,
    pub constants: Vec<Constant>,
}

/// Whether a namespace element maps onto the record without a structural error.
pub open spec fn namespace_ok(e: XmlElement) -> bool {
    &&& req_attr_spec(e, "name"@) is Ok
    &&& req_attr_spec(e, "version"@) is Ok
    &&& forall|i: int|
        0 <= i < tagged_children(e.children@, "alias"@).len() ==> alias_ok(
            #[trigger] tagged_children(e.children@, "alias"@)[i],
        )
    &&& forall|i: int|
        0 <= i < tagged_children(e.children@, "class"@).len() ==> class_ok(
            #[trigger] tagged_children(e.children@, "class"@)[i],
        )
    &&& forall|i: int|
        0 <= i < tagged_children(e.children@, "interface"@).len() ==> interface_ok(
            #[trigger] tagged_children(e.children@, "interface"@)[i],
        )
    &&& forall|i: int|
        0 <= i < tagged_children(e.children@, "record"@).len() ==> record_ok(
            #[trigger] tagged_children(e.children@, "record"@)[i],
        )
    &&& forall|i: int|
        0 <= i < tagged_children(e.children@, "union"@).len() ==> union_ok(
            #[trigger] tagged_children(e.children@, "union"@)[i],
        )
    &&& forall|i: int|
        0 <= i < tagged_children(e.children@, "bitfield"@).len() ==> bit_field_ok(
            #[trigger] tagged_children(e.children@, "bitfield"@)[i],
        )
    &&& forall|i: int|
        0 <= i < tagged_children(e.children@, "enumeration"@).len() ==> enumeration_ok(
            #[trigger] tagged_children(e.children@, "enumeration"@)[i],
        )
    &&& forall|i: int|
        0 <= i < tagged_children(e.children@, "glib:boxed"@).len() ==> boxed_ok(
            #[trigger] tagged_children(e.children@, "glib:boxed"@)[i],
        )
    &&& forall|i: int|
        0 <= i < tagged_children(e.children@, "callback"@).len() ==> callback_ok(
            #[trigger] tagged_children(e.children@, "callback"@)[i],
        )
    &&& forall|i: int|
        0 <= i < tagged_children(e.children@, "function"@).len() ==> function_ok(
            #[trigger] tagged_children(e.children@, "function"@)[i],
        )
    &&& forall|i: int|
        0 <= i < tagged_children(e.children@, "function-inline"@).len() ==> function_inline_ok(
            #[trigger] tagged_children(e.children@, "function-inline"@)[i],
        )
    &&& forall|i: int|
        0 <= i < tagged_children(e.children@, "function-macro"@).len() ==> function_macro_ok(
            #[trigger] tagged_children(e.children@, "function-macro"@)[i],
        )
    &&& forall|i: int|
        0 <= i < tagged_children(e.children@, "constant"@).len() ==> constant_ok(
            #[trigger] tagged_children(e.children@, "constant"@)[i],
        )
}

/// How a namespace element maps onto the record, field for field.
pub open spec fn namespace_matches(e: XmlElement, x: Namespace) -> bool {
    &&& req_attr_spec(e, "name"@) == Ok::<_, ()>(x.name@)
    &&& req_attr_spec(e, "version"@) == Ok::<_, ()>(x.version@)
    &&& opt_view(x.shared_library) == attr_of(e, "shared-library"@)
    &&& opt_view(x.c_identifier_prefixes) == attr_of(e, "c:identifier-prefixes"@)
    &&& opt_view(x.c_symbol_prefixes) == attr_of(e, "c:symbol-prefixes"@)
    &&& x.aliases@.len() == tagged_children(e.children@, "alias"@).len()
    &&& forall|i: int|
        0 <= i < tagged_children(e.children@, "alias"@).len() ==> alias_matches(
            #[trigger] tagged_children(e.children@, "alias"@)[i],
            x.aliases@[i],
        )
    &&& x.classes@.len() == tagged_children(e.children@, "class"@).len()
    &&& forall|i: int|
        0 <= i < tagged_children(e.children@, "class"@).len() ==> class_matches(
            #[trigger] tagged_children(e.children@, "class"@)[i],
            x.classes@[i],
        )
    &&& x.interfaces@.len() == tagged_children(e.children@, "interface"@).len()
    &&& forall|i: int|
        0 <= i < tagged_children(e.children@, "interface"@).len() ==> interface_matches(
            #[trigger] tagged_children(e.children@, "interface"@)[i],
            x.interfaces@[i],
        )
    &&& x.records@.len() == tagged_children(e.children@, "record"@).len()
    &&& forall|i: int|
        0 <= i < tagged_children(e.children@, "record"@).len() ==> record_matches(
            #[trigger] tagged_children(e.children@, "record"@)[i],
            x.records@[i],
        )
    &&& x.unions@.len() == tagged_children(e.children@, "union"@).len()
    &&& forall|i: int|
        0 <= i < tagged_children(e.children@, "union"@).len() ==> union_matches(
            #[trigger] tagged_children(e.children@, "union"@)[i],
            x.unions@[i],
        )
    &&& x.bit_fields@.len() == tagged_children(e.children@, "bitfield"@).len()
    &&& forall|i: int|
        0 <= i < tagged_children(e.children@, "bitfield"@).len() ==> bit_field_matches(
            #[trigger] tagged_children(e.children@, "bitfield"@)[i],
            x.bit_fields@[i],
        )
    &&& x.enumerations@.len() == tagged_children(e.children@, "enumeration"@).len()
    &&& forall|i: int|
        0 <= i < tagged_children(e.children@, "enumeration"@).len() ==> enumeration_matches(
            #[trigger] tagged_children(e.children@, "enumeration"@)[i],
            x.enumerations@[i],
        )
    &&& x.boxeds@.len() == tagged_children(e.children@, "glib:boxed"@).len()
    &&& forall|i: int|
        0 <= i < tagged_children(e.children@, "glib:boxed"@).len() ==> boxed_matches(
            #[trigger] tagged_children(e.children@, "glib:boxed"@)[i],
            x.boxeds@[i],
        )
    &&& x.callbacks@.len() == tagged_children(e.children@, "callback"@).len()
    &&& forall|i: int|
        0 <= i < tagged_children(e.children@, "callback"@).len() ==> callback_matches(
            #[trigger] tagged_children(e.children@, "callback"@)[i],
            x.callbacks@[i],
        )
    &&& x.functions@.len() == tagged_children(e.children@, "function"@).len()
    &&& forall|i: int|
        0 <= i < tagged_children(e.children@, "function"@).len() ==> function_matches(
            #[trigger] tagged_children(e.children@, "function"@)[i],
            x.functions@[i],
        )
    &&& x.inline_functions@.len() == tagged_children(e.children@, "function-inline"@).len()
    &&& forall|i: int|
        0 <= i < tagged_children(e.children@, "function-inline"@).len() ==> function_inline_matches(
            #[trigger] tagged_children(e.children@, "function-inline"@)[i],
            x.inline_functions@[i],
        )
    &&& x.function_macros@.len() == tagged_children(e.children@, "function-macro"@).len()
    &&& forall|i: int|
        0 <= i < tagged_children(e.children@, "function-macro"@).len() ==> function_macro_matches(
            #[trigger] tagged_children(e.children@, "function-macro"@)[i],
            x.function_macros@[i],
        )
    &&& x.constants@.len() == tagged_children(e.children@, "constant"@).len()
    &&& forall|i: int|
        0 <= i < tagged_children(e.children@, "constant"@).len() ==> constant_matches(
            #[trigger] tagged_children(e.children@, "constant"@)[i],
            x.constants@[i],
        )
}

fn collect_aliases_of_namespace(e: &XmlElement) -> (r: Result<Vec<Alias>, ParserError>)
    ensures
        r matches Err(err) ==> err is Xml,
        r matches Ok(v) ==> v@.len() == tagged_children(e.children@, "alias"@).len()
            && forall|i: int|
            0 <= i < tagged_children(e.children@, "alias"@).len() ==> alias_matches(
                #[trigger] tagged_children(e.children@, "alias"@)[i],
                v@[i],
            ),
        r is Ok <==> forall|i: int|
            0 <= i < tagged_children(e.children@, "alias"@).len() ==> alias_ok(
                #[trigger] tagged_children(e.children@, "alias"@)[i],
            ),
{
    let elems = children_tagged(e, "alias");
    let ghost tc = tagged_children(e.children@, "alias"@);
    let n = elems.len();
    let mut out: Vec<Alias> = Vec::new();
    let mut i: usize = 0;
    while i < n
        invariant
            n == elems@.len(),
            derefs(elems@) == tc,
            tc == tagged_children(e.children@, "alias"@),
            i <= n,
            out@.len() == i,
            forall|j: int| 0 <= j < i ==> alias_matches(#[trigger] tc[j], out@[j]),
            forall|j: int| 0 <= j < i ==> alias_ok(#[trigger] tc[j]),
        decreases n - i,
    {
        proof {
            assert(tc[i as int] == derefs(elems@)[i as int]);
        }
        match Alias::from_element(elems[i]) {
            Ok(a) => {
                out.push(a);
            },
            Err(er) => {
                return Err(er);
            },
        }
        i += 1;
    }
    Ok(out)
}

fn collect_classes_of_namespace(e: &XmlElement) -> (r: Result<Vec<Class>, ParserError>)
    ensures
        r matches Err(err) ==> err is Xml,
        r matches Ok(v) ==> v@.len() == tagged_children(e.children@, "class"@).len()
            && forall|i: int|
            0 <= i < tagged_children(e.children@, "class"@).len() ==> class_matches(
                #[trigger] tagged_children(e.children@, "class"@)[i],
                v@[i],
            ),
        r is Ok <==> forall|i: int|
            0 <= i < tagged_children(e.children@, "class"@).len() ==> class_ok(
                #[trigger] tagged_children(e.children@, "class"@)[i],
            ),
{
    let elems = children_tagged(e, "class");
    let ghost tc = tagged_children(e.children@, "class"@);
    let n = elems.len();
    let mut out: Vec<Class> = Vec::new();
    let mut i: usize = 0;
    while i < n
        invariant
            n == elems@.len(),
            derefs(elems@) == tc,
            tc == tagged_children(e.children@, "class"@),
            i <= n,
            out@.len() == i,
            forall|j: int| 0 <= j < i ==> class_matches(#[trigger] tc[j], out@[j]),
            forall|j: int| 0 <= j < i ==> class_ok(#[trigger] tc[j]),
        decreases n - i,
    {
        proof {
            assert(tc[i as int] == derefs(elems@)[i as int]);
        }
        match Class::from_element(elems[i]) {
            Ok(a) => {
                out.push(a);
            },
            Err(er) => {
                return Err(er);
            },
        }
        i += 1;
    }
    Ok(out)
}

fn collect_interfaces_of_namespace(e: &XmlElement) -> (r: Result<Vec<Interface>, ParserError>)
    ensures
        r matches Err(err) ==> err is Xml,
        r matches Ok(v) ==> v@.len() == tagged_children(e.children@, "interface"@).len()
            && forall|i: int|
            0 <= i < tagged_children(e.children@, "interface"@).len() ==> interface_matches(
                #[trigger] tagged_children(e.children@, "interface"@)[i],
                v@[i],
            ),
        r is Ok <==> forall|i: int|
            0 <= i < tagged_children(e.children@, "interface"@).len() ==> interface_ok(
                #[trigger] tagged_children(e.children@, "interface"@)[i],
            ),
{
    let elems = children_tagged(e, "interface");
    let ghost tc = tagged_children(e.children@, "interface"@);
    let n = elems.len();
    let mut out: Vec<Interface> = Vec::new();
    let mut i: usize = 0;
    while i < n
        invariant
            n == elems@.len(),
            derefs(elems@) == tc,
            tc == tagged_children(e.children@, "interface"@),
            i <= n,
            out@.len() == i,
            forall|j: int| 0 <= j < i ==> interface_matches(#[trigger] tc[j], out@[j]),
            forall|j: int| 0 <= j < i ==> interface_ok(#[trigger] tc[j]),
        decreases n - i,
    {
        proof {
            assert(tc[i as int] == derefs(elems@)[i as int]);
        }
        match Interface::from_element(elems[i]) {
            Ok(a) => {
                out.push(a);
            },
            Err(er) => {
                return Err(er);
            },
        }
        i += 1;
    }
    Ok(out)
}

fn collect_records_of_namespace(e: &XmlElement) -> (r: Result<Vec<Record>, ParserError>)
    ensures
        r matches Err(err) ==> err is Xml,
        r matches Ok(v) ==> v@.len() == tagged_children(e.children@, "record"@).len()
            && forall|i: int|
            0 <= i < tagged_children(e.children@, "record"@).len() ==> record_matches(
                #[trigger] tagged_children(e.children@, "record"@)[i],
                v@[i],
            ),
        r is Ok <==> forall|i: int|
            0 <= i < tagged_children(e.children@, "record"@).len() ==> record_ok(
                #[trigger] tagged_children(e.children@, "record"@)[i],
            ),
{
    let elems = children_tagged(e, "record");
    let ghost tc = tagged_children(e.children@, "record"@);
    let n = elems.len();
    let mut out: Vec<Record> = Vec::new();
    let mut i: usize = 0;
    while i < n
        invariant
            n == elems@.len(),
            derefs(elems@) == tc,
            tc == tagged_children(e.children@, "record"@),
            i <= n,
            out@.len() == i,
            forall|j: int| 0 <= j < i ==> record_matches(#[trigger] tc[j], out@[j]),
            forall|j: int| 0 <= j < i ==> record_ok(#[trigger] tc[j]),
        decreases n - i,
    {
        proof {
            assert(tc[i as int] == derefs(elems@)[i as int]);
        }
        match Record::from_element(elems[i]) {
            Ok(a) => {
                out.push(a);
            },
            Err(er) => {
                return Err(er);
            },
        }
        i += 1;
    }
    Ok(out)
}

fn collect_unions_of_namespace(e: &XmlElement) -> (r: Result<Vec<Union>, ParserError>)
    ensures
        r matches Err(err) ==> err is Xml,
        r matches Ok(v) ==> v@.len() == tagged_children(e.children@, "union"@).len()
            && forall|i: int|
            0 <= i < tagged_children(e.children@, "union"@).len() ==> union_matches(
                #[trigger] tagged_children(e.children@, "union"@)[i],
                v@[i],
            ),
        r is Ok <==> forall|i: int|
            0 <= i < tagged_children(e.children@, "union"@).len() ==> union_ok(
                #[trigger] tagged_children(e.children@, "union"@)[i],
            ),
{
    let elems = children_tagged(e, "union");
    let ghost tc = tagged_children(e.children@, "union"@);
    let n = elems.len();
    let mut out: Vec<Union> = Vec::new();
    let mut i: usize = 0;
    while i < n
        invariant
            n == elems@.len(),
            derefs(elems@) == tc,
            tc == tagged_children(e.children@, "union"@),
            i <= n,
            out@.len() == i,
            forall|j: int| 0 <= j < i ==> union_matches(#[trigger] tc[j], out@[j]),
            forall|j: int| 0 <= j < i ==> union_ok(#[trigger] tc[j]),
        decreases n - i,
    {
        proof {
            assert(tc[i as int] == derefs(elems@)[i as int]);
        }
        match Union::from_element(elems[i]) {
            Ok(a) => {
                out.push(a);
            },
            Err(er) => {
                return Err(er);
            },
        }
        i += 1;
    }
    Ok(out)
}

fn collect_bit_fields_of_namespace(e: &XmlElement) -> (r: Result<Vec<BitField>, ParserError>)
    ensures
        r matches Err(err) ==> err is Xml,
        r matches Ok(v) ==> v@.len() == tagged_children(e.children@, "bitfield"@).len()
            && forall|i: int|
            0 <= i < tagged_children(e.children@, "bitfield"@).len() ==> bit_field_matches(
                #[trigger] tagged_children(e.children@, "bitfield"@)[i],
                v@[i],
            ),
        r is Ok <==> forall|i: int|
            0 <= i < tagged_children(e.children@, "bitfield"@).len() ==> bit_field_ok(
                #[trigger] tagged_children(e.children@, "bitfield"@)[i],
            ),
{
    let elems = children_tagged(e, "bitfield");
    let ghost tc = tagged_children(e.children@, "bitfield"@);
    let n = elems.len();
    let mut out: Vec<BitField> = Vec::new();
    let mut i: usize = 0;
    while i < n
        invariant
            n == elems@.len(),
            derefs(elems@) == tc,
            tc == tagged_children(e.children@, "bitfield"@),
            i <= n,
            out@.len() == i,
            forall|j: int| 0 <= j < i ==> bit_field_matches(#[trigger] tc[j], out@[j]),
            forall|j: int| 0 <= j < i ==> bit_field_ok(#[trigger] tc[j]),
        decreases n - i,
    {
        proof {
            assert(tc[i as int] == derefs(elems@)[i as int]);
        }
        match BitField::from_element(elems[i]) {
            Ok(a) => {
                out.push(a);
            },
            Err(er) => {
                return Err(er);
            },
        }
        i += 1;
    }
    Ok(out)
}

fn collect_enumerations_of_namespace(e: &XmlElement) -> (r: Result<Vec<Enumeration>, ParserError>)
    ensures
        r matches Err(err) ==> err is Xml,
        r matches Ok(v) ==> v@.len() == tagged_children(e.children@, "enumeration"@).len()
            && forall|i: int|
            0 <= i < tagged_children(e.children@, "enumeration"@).len() ==> enumeration_matches(
                #[trigger] tagged_children(e.children@, "enumeration"@)[i],
                v@[i],
            ),
        r is Ok <==> forall|i: int|
            0 <= i < tagged_children(e.children@, "enumeration"@).len() ==> enumeration_ok(
                #[trigger] tagged_children(e.children@, "enumeration"@)[i],
            ),
{
    let elems = children_tagged(e, "enumeration");
    let ghost tc = tagged_children(e.children@, "enumeration"@);
    let n = elems.len();
    let mut out: Vec<Enumeration> = Vec::new();
    let mut i: usize = 0;
    while i < n
        invariant
            n == elems@.len(),
            derefs(elems@) == tc,
            tc == tagged_children(e.children@, "enumeration"@),
            i <= n,
            out@.len() == i,
            forall|j: int| 0 <= j < i ==> enumeration_matches(#[trigger] tc[j], out@[j]),
            forall|j: int| 0 <= j < i ==> enumeration_ok(#[trigger] tc[j]),
        decreases n - i,
    {
        proof {
            assert(tc[i as int] == derefs(elems@)[i as int]);
        }
        match Enumeration::from_element(elems[i]) {
            Ok(a) => {
                out.push(a);
            },
            Err(er) => {
                return Err(er);
            },
        }
        i += 1;
    }
    Ok(out)
}

fn collect_boxeds_of_namespace(e: &XmlElement) -> (r: Result<Vec<Boxed>, ParserError>)
    ensures
        r matches Err(err) ==> err is Xml,
        r matches Ok(v) ==> v@.len() == tagged_children(e.children@, "glib:boxed"@).len()
            && forall|i: int|
            0 <= i < tagged_children(e.children@, "glib:boxed"@).len() ==> boxed_matches(
                #[trigger] tagged_children(e.children@, "glib:boxed"@)[i],
                v@[i],
            ),
        r is Ok <==> forall|i: int|
            0 <= i < tagged_children(e.children@, "glib:boxed"@).len() ==> boxed_ok(
                #[trigger] tagged_children(e.children@, "glib:boxed"@)[i],
            ),
{
    let elems = children_tagged(e, "glib:boxed");
    let ghost tc = tagged_children(e.children@, "glib:boxed"@);
    let n = elems.len();
    let mut out: Vec<Boxed> = Vec::new();
    let mut i: usize = 0;
    while i < n
        invariant
            n == elems@.len(),
            derefs(elems@) == tc,
            tc == tagged_children(e.children@, "glib:boxed"@),
            i <= n,
            out@.len() == i,
            forall|j: int| 0 <= j < i ==> boxed_matches(#[trigger] tc[j], out@[j]),
            forall|j: int| 0 <= j < i ==> boxed_ok(#[trigger] tc[j]),
        decreases n - i,
    {
        proof {
            assert(tc[i as int] == derefs(elems@)[i as int]);
        }
        match Boxed::from_element(elems[i]) {
            Ok(a) => {
                out.push(a);
            },
            Err(er) => {
                return Err(er);
            },
        }
        i += 1;
    }
    Ok(out)
}

fn collect_callbacks_of_namespace(e: &XmlElement) -> (r: Result<Vec<Callback>, ParserError>)
    ensures
        r matches Err(err) ==> err is Xml,
        r matches Ok(v) ==> v@.len() == tagged_children(e.children@, "callback"@).len()
            && forall|i: int|
            0 <= i < tagged_children(e.children@, "callback"@).len() ==> callback_matches(
                #[trigger] tagged_children(e.children@, "callback"@)[i],
                v@[i],
            ),
        r is Ok <==> forall|i: int|
            0 <= i < tagged_children(e.children@, "callback"@).len() ==> callback_ok(
                #[trigger] tagged_children(e.children@, "callback"@)[i],
            ),
{
    let elems = children_tagged(e, "callback");
    let ghost tc = tagged_children(e.children@, "callback"@);
    let n = elems.len();
    let mut out: Vec<Callback> = Vec::new();
    let mut i: usize = 0;
    while i < n
        invariant
            n == elems@.len(),
            derefs(elems@) == tc,
            tc == tagged_children(e.children@, "callback"@),
            i <= n,
            out@.len() == i,
            forall|j: int| 0 <= j < i ==> callback_matches(#[trigger] tc[j], out@[j]),
            forall|j: int| 0 <= j < i ==> callback_ok(#[trigger] tc[j]),
        decreases n - i,
    {
        proof {
            assert(tc[i as int] == derefs(elems@)[i as int]);
        }
        match Callback::from_element(elems[i]) {
            Ok(a) => {
                out.push(a);
            },
            Err(er) => {
                return Err(er);
            },
        }
        i += 1;
    }
    Ok(out)
}

fn collect_functions_of_namespace(e: &XmlElement) -> (r: Result<Vec<Function>, ParserError>)
    ensures
        r matches Err(err) ==> err is Xml,
        r matches Ok(v) ==> v@.len() == tagged_children(e.children@, "function"@).len()
            && forall|i: int|
            0 <= i < tagged_children(e.children@, "function"@).len() ==> function_matches(
                #[trigger] tagged_children(e.children@, "function"@)[i],
                v@[i],
            ),
        r is Ok <==> forall|i: int|
            0 <= i < tagged_children(e.children@, "function"@).len() ==> function_ok(
                #[trigger] tagged_children(e.children@, "function"@)[i],
            ),
{
    let elems = children_tagged(e, "function");
    let ghost tc = tagged_children(e.children@, "function"@);
    let n = elems.len();
    let mut out: Vec<Function> = Vec::new();
    let mut i: usize = 0;
    while i < n
        invariant
            n == elems@.len(),
            derefs(elems@) == tc,
            tc == tagged_children(e.children@, "function"@),
            i <= n,
            out@.len() == i,
            forall|j: int| 0 <= j < i ==> function_matches(#[trigger] tc[j], out@[j]),
            forall|j: int| 0 <= j < i ==> function_ok(#[trigger] tc[j]),
        decreases n - i,
    {
        proof {
            assert(tc[i as int] == derefs(elems@)[i as int]);
        }
        match Function::from_element(elems[i]) {
            Ok(a) => {
                out.push(a);
            },
            Err(er) => {
                return Err(er);
            },
        }
        i += 1;
    }
    Ok(out)
}

fn collect_inline_functions_of_namespace(e: &XmlElement) -> (r: Result<Vec<FunctionInline>, ParserError>)
    ensures
        r matches Err(err) ==> err is Xml,
        r matches Ok(v) ==> v@.len() == tagged_children(e.children@, "function-inline"@).len()
            && forall|i: int|
            0 <= i < tagged_children(e.children@, "function-inline"@).len() ==> function_inline_matches(
                #[trigger] tagged_children(e.children@, "function-inline"@)[i],
                v@[i],
            ),
        r is Ok <==> forall|i: int|
            0 <= i < tagged_children(e.children@, "function-inline"@).len() ==> function_inline_ok(
                #[trigger] tagged_children(e.children@, "function-inline"@)[i],
            ),
{
    let elems = children_tagged(e, "function-inline");
    let ghost tc = tagged_children(e.children@, "function-inline"@);
    let n = elems.len();
    let mut out: Vec<FunctionInline> = Vec::new();
    let mut i: usize = 0;
    while i < n
        invariant
            n == elems@.len(),
            derefs(elems@) == tc,
            tc == tagged_children(e.children@, "function-inline"@),
            i <= n,
            out@.len() == i,
            forall|j: int| 0 <= j < i ==> function_inline_matches(#[trigger] tc[j], out@[j]),
            forall|j: int| 0 <= j < i ==> function_inline_ok(#[trigger] tc[j]),
        decreases n - i,
    {
        proof {
            assert(tc[i as int] == derefs(elems@)[i as int]);
        }
        match FunctionInline::from_element(elems[i]) {
            Ok(a) => {
                out.push(a);
            },
            Err(er) => {
                return Err(er);
            },
        }
        i += 1;
    }
    Ok(out)
}

fn collect_function_macros_of_namespace(e: &XmlElement) -> (r: Result<Vec<FunctionMacro>, ParserError>)
    ensures
        r matches Err(err) ==> err is Xml,
        r matches Ok(v) ==> v@.len() == tagged_children(e.children@, "function-macro"@).len()
            && forall|i: int|
            0 <= i < tagged_children(e.children@, "function-macro"@).len() ==> function_macro_matches(
                #[trigger] tagged_children(e.children@, "function-macro"@)[i],
                v@[i],
            ),
        r is Ok <==> forall|i: int|
            0 <= i < tagged_children(e.children@, "function-macro"@).len() ==> function_macro_ok(
                #[trigger] tagged_children(e.children@, "function-macro"@)[i],
            ),
{
    let elems = children_tagged(e, "function-macro");
    let ghost tc = tagged_children(e.children@, "function-macro"@);
    let n = elems.len();
    let mut out: Vec<FunctionMacro> = Vec::new();
    let mut i: usize = 0;
    while i < n
        invariant
            n == elems@.len(),
            derefs(elems@) == tc,
            tc == tagged_children(e.children@, "function-macro"@),
            i <= n,
            out@.len() == i,
            forall|j: int| 0 <= j < i ==> function_macro_matches(#[trigger] tc[j], out@[j]),
            forall|j: int| 0 <= j < i ==> function_macro_ok(#[trigger] tc[j]),
        decreases n - i,
    {
        proof {
            assert(tc[i as int] == derefs(elems@)[i as int]);
        }
        match FunctionMacro::from_element(elems[i]) {
            Ok(a) => {
                out.push(a);
            },
            Err(er) => {
                return Err(er);
            },
        }
        i += 1;
    }
    Ok(out)
}

fn collect_constants_of_namespace(e: &XmlElement) -> (r: Result<Vec<Constant>, ParserError>)
    ensures
        r matches Err(err) ==> err is Xml,
        r matches Ok(v) ==> v@.len() == tagged_children(e.children@, "constant"@).len()
            && forall|i: int|
            0 <= i < tagged_children(e.children@, "constant"@).len() ==> constant_matches(
                #[trigger] tagged_children(e.children@, "constant"@)[i],
                v@[i],
            ),
        r is Ok <==> forall|i: int|
            0 <= i < tagged_children(e.children@, "constant"@).len() ==> constant_ok(
                #[trigger] tagged_children(e.children@, "constant"@)[i],
            ),
{
    let elems = children_tagged(e, "constant");
    let ghost tc = tagged_children(e.children@, "constant"@);
    let n = elems.len();
    let mut out: Vec<Constant> = Vec::new();
    let mut i: usize = 0;
    while i < n
        invariant
            n == elems@.len(),
            derefs(elems@) == tc,
            tc == tagged_children(e.children@, "constant"@),
            i <= n,
            out@.len() == i,
            forall|j: int| 0 <= j < i ==> constant_matches(#[trigger] tc[j], out@[j]),
            forall|j: int| 0 <= j < i ==> constant_ok(#[trigger] tc[j]),
        decreases n - i,
    {
        proof {
            assert(tc[i as int] == derefs(elems@)[i as int]);
        }
        match Constant::from_element(elems[i]) {
            Ok(a) => {
                out.push(a);
            },
            Err(er) => {
                return Err(er);
            },
        }
        i += 1;
    }
    Ok(out)
}

impl Namespace {
    pub fn from_element(e: &XmlElement) -> (r: Result<Namespace, ParserError>)
        ensures
            r matches Err(err) ==> err is Xml,
            r matches Ok(x) ==> namespace_matches(*e, x),
            r is Ok <==> namespace_ok(*e),
    {
        let name = req_attr(e, "name")?;
        let version = req_attr(e, "version")?;
        let shared_library = attr_string(e, "shared-library");
        let c_identifier_prefixes = attr_string(e, "c:identifier-prefixes");
        let c_symbol_prefixes = attr_string(e, "c:symbol-prefixes");
        let aliases = collect_aliases_of_namespace(e)?;
        let classes = collect_classes_of_namespace(e)?;
        let interfaces = collect_interfaces_of_namespace(e)?;
        let records = collect_records_of_namespace(e)?;
        let unions = collect_unions_of_namespace(e)?;
        let bit_fields = collect_bit_fields_of_namespace(e)?;
        let enumerations = collect_enumerations_of_namespace(e)?;
        let boxeds = collect_boxeds_of_namespace(e)?;
        let callbacks = collect_callbacks_of_namespace(e)?;
        let functions = collect_functions_of_namespace(e)?;
        let inline_functions = collect_inline_functions_of_namespace(e)?;
        let function_macros = collect_function_macros_of_namespace(e)?;
        let constants = collect_constants_of_namespace(e)?;
        Ok(Namespace { name, version, shared_library, c_identifier_prefixes, c_symbol_prefixes, aliases, classes, interfaces, records, unions, bit_fields, enumerations, boxeds, callbacks, functions, inline_functions, function_macros, constants })
    }

    pub fn name(&self) -> (r: &str)
        ensures
            r@ == self.name@,
    {
        self.name.as_str()
    }

    pub fn version(&self) -> (r: &str)
        ensures
            r@ == self.version@,
    {
        self.version.as_str()
    }

    pub fn shared_library(&self) -> (r: Option<&str>)
        ensures
            opt_view(r) == opt_view(self.shared_library),
    {
        opt_as_str(&self.shared_library)
    }

    /// The comma-separated C identifier prefixes, split into their parts.
    pub fn c_identifier_prefixes(&self) -> (r: Vec<String>)
        ensures
            strs_view(r@) == match self.c_identifier_prefixes {
                Some(s) => split_nonempty(s@, ','),
                None => Seq::<Seq<char>>::empty(),
            },
    {
        match &self.c_identifier_prefixes {
            Some(s) => split_list(s.as_str(), ','),
            None => {
                let r: Vec<String> = Vec::new();
                proof {
                    assert(strs_view(r@) =~~= Seq::<Seq<char>>::empty());
                }
                r
            },
        }
    }

    /// The comma-separated C symbol prefixes, split into their parts.
    pub fn c_symbol_prefixes(&self) -> (r: Vec<String>)
        ensures
            strs_view(r@) == match self.c_symbol_prefixes {
                Some(s) => split_nonempty(s@, ','),
                None => Seq::<Seq<char>>::empty(),
            },
    {
        match &self.c_symbol_prefixes {
            Some(s) => split_list(s.as_str(), ','),
            None => {
                let r: Vec<String> = Vec::new();
                proof {
                    assert(strs_view(r@) =~~= Seq::<Seq<char>>::empty());
                }
                r
            },
        }
    }

    pub fn aliases(&self) -> (r: &[Alias])
        ensures
            r@ == self.aliases@,
    {
        self.aliases.as_slice()
    }

    pub fn classes(&self) -> (r: &[Class])
        ensures
            r@ == self.classes@,
    {
        self.classes.as_slice()
    }

    pub fn interfaces(&self) -> (r: &[Interface])
        ensures
            r@ == self.interfaces@,
    {
        self.interfaces.as_slice()
    }

    pub fn records(&self) -> (r: &[Record])
        ensures
            r@ == self.records@,
    {
        self.records.as_slice()
    }

    pub fn unions(&self) -> (r: &[Union])
        ensures
            r@ == self.unions@,
    {
        self.unions.as_slice()
    }

    pub fn bit_fields(&self) -> (r: &[BitField])
        ensures
            r@ == self.bit_fields@,
    {
        self.bit_fields.as_slice()
    }

    pub fn enumerations(&self) -> (r: &[Enumeration])
        ensures
            r@ == self.enumerations@,
    {
        self.enumerations.as_slice()
    }

    pub fn boxeds(&self) -> (r: &[Boxed])
        ensures
            r@ == self.boxeds@,
    {
        self.boxeds.as_slice()
    }

    pub fn callbacks(&self) -> (r: &[Callback])
        ensures
            r@ == self.callbacks@,
    {
        self.callbacks.as_slice()
    }

    pub fn functions(&self) -> (r: &[Function])
        ensures
            r@ == self.functions@,
    {
        self.functions.as_slice()
    }

    pub fn inlined_functions(&self) -> (r: &[FunctionInline])
        ensures
            r@ == self.inline_functions@,
    {
        self.inline_functions.as_slice()
    }

    pub fn function_macros(&self) -> (r: &[FunctionMacro])
        ensures
            r@ == self.function_macros@,
    {
        self.function_macros.as_slice()
    }

    pub fn constants(&self) -> (r: &[Constant])
        ensures
            r@ == self.constants@,
    {
        self.constants.as_slice()
    }

}

} // verus!
