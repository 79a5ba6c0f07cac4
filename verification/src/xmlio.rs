use vstd::prelude::*;

verus! {

use quick_xml::events::Event;
use quick_xml::XmlVersion;

/// One tokenizer step, already converted to plain values. A tokenized
/// document holds only `Open`, `Close` and `Text` steps; the other variants
/// exist to carry one reader step out of the trusted boundary.
pub enum RawEvent {
    Open(String, Vec<(String, String)>, bool),
    Close,
    Text(String),
    Skip,
    Eof,
    Failed(String),
}

/// Declares quick_xml's reader type, so that a reader can be held and handed
/// between the trusted tokenizer items; nothing inside it is visible here.
#[verifier::external_type_specification]
#[verifier::external_body]
#[verifier::reject_recursive_types(R)]
pub struct ExReader<R>(quick_xml::reader::Reader<R>);

/// Declares quick_xml's start-tag event payload, opaque here.
#[verifier::external_type_specification]
#[verifier::external_body]
pub struct ExBytesStart<'i>(quick_xml::events::BytesStart<'i>);

/// Declares quick_xml's entity-reference event payload, opaque here.
#[verifier::external_type_specification]
#[verifier::external_body]
pub struct ExBytesRef<'i>(quick_xml::events::BytesRef<'i>);

/// Relies on quick_xml::Reader::from_str: makes a reader over the text.
#[verifier::external_body]
fn reader_from_str<'a>(s: &'a str) -> quick_xml::reader::Reader<&'a [u8]> {
    quick_xml::reader::Reader::from_str(s)
}

/// Relies on quick_xml::Reader::read_event: yields the next tokenizer event,
/// with each variant converted to plain values arm by arm.
#[verifier::external_body]
fn read_next(rd: &mut quick_xml::reader::Reader<&[u8]>) -> RawEvent {
    match rd.read_event() {
        Ok(Event::Start(b)) => open_event(&b, false),
        Ok(Event::Empty(b)) => open_event(&b, true),
        Ok(Event::End(_)) => RawEvent::Close,
        Ok(Event::Text(t)) => RawEvent::Text(t.xml10_content().into_owned()),
        Ok(Event::CData(t)) => RawEvent::Text(t.into_inner().into_owned()),
        Ok(Event::GeneralRef(r)) => ref_event(&r),
        Ok(Event::Comment(_)) | Ok(Event::Decl(_)) | Ok(Event::PI(_)) | Ok(Event::DocType(_)) => RawEvent::Skip,
        Ok(Event::Eof) => RawEvent::Eof,
        Err(e) => RawEvent::Failed(e.to_string()),
    }
}

/// Relies on quick_xml's BytesStart::name and Attributes: copies the tag and
/// the attribute pairs out of a start tag, unescaping each value.
#[verifier::external_body]
fn open_event(b: &quick_xml::events::BytesStart<'_>, self_closing: bool) -> RawEvent {
    let tag = b.name().as_ref().to_string();
    let mut attrs: Vec<(String, String)> = Vec::new();
    for a in b.attributes() {
        match a.map_err(|e| e.to_string()).and_then(|a| match a.normalized_value(XmlVersion::Implicit1_0) {
            Ok(v) => Ok((a.key.as_ref().to_string(), v.into_owned())),
            Err(e) => Err(e.to_string()),
        }) {
            Ok(p) => attrs.push(p),
            Err(e) => return RawEvent::Failed(e),
        }
    }
    RawEvent::Open(tag, attrs, self_closing)
}

/// Relies on quick_xml's BytesRef: resolves a character or predefined entity
/// reference to its text.
#[verifier::external_body]
fn ref_event(r: &quick_xml::events::BytesRef<'_>) -> RawEvent {
    match r.resolve_char_ref() {
        Ok(Some(c)) => RawEvent::Text(c.to_string()),
        Ok(None) => match quick_xml::escape::resolve_predefined_entity(r) {
            Some(s) => RawEvent::Text(s.to_string()),
            None => RawEvent::Failed("unknown entity reference".to_string()),
        },
        Err(e) => RawEvent::Failed(e.to_string()),
    }
}

/// The tokenizer's result on a text: the opening, closing and character-data
/// events of the document, in document order, or the reader's error message.
/// The result of tokenizing an in-memory text depends on that text alone, so
/// it bears a name; what the events are on a given text is not stated.
pub uninterp spec fn xml_events_of(text: Seq<char>) -> Result<Seq<RawEvent>, Seq<char>>;

/// Pulls every event of the text, in document order. Relies on quick_xml's
/// `Reader` driven from the start of the text to `Eof`: the whole text-to-event
/// step is the assumed tokenizer primitive, so the pump stands inside the
/// trusted boundary and its result carries the tokenizer's name.
#[verifier::external_body]
pub(crate) fn tokenize(text: &str) -> (r: Result<Vec<RawEvent>, String>)
    ensures
        match r {
            Ok(v) => xml_events_of(text@) == Ok::<Seq<RawEvent>, Seq<char>>(v@),
            Err(m) => xml_events_of(text@) == Err::<Seq<RawEvent>, Seq<char>>(m@),
        },
{
    let mut rd = reader_from_str(text);
    let mut out: Vec<RawEvent> = Vec::new();
    loop {
        match read_next(&mut rd) {
            RawEvent::Eof => return Ok(out),
            RawEvent::Failed(m) => return Err(m),
            RawEvent::Skip => {},
            ev => out.push(ev),
        }
    }
}

} // verus!

verus! {

use crate::xml::{XmlAttr, XmlElement, XmlNode};

/// The attribute records a list of tokenizer pairs converts to, one for one.
pub open spec fn attrs_of_pairs(a: Seq<(String, String)>) -> Seq<XmlAttr> {
    Seq::new(a.len(), |i: int| XmlAttr { name: a[i].0, value: a[i].1 })
}

/// The position just past the element opened at `pos`, and whether that
/// element is well formed: an opening event, then well-formed content, then
/// the matching closing event.
pub open spec fn elem_scan(evs: Seq<RawEvent>, pos: int) -> (int, bool)
    decreases evs.len() - pos, 0int,
{
    if pos < 0 || evs.len() <= pos {
        (pos + 1, false)
    } else {
        match evs[pos] {
            RawEvent::Open(_, _, sc) => if sc {
                (pos + 1, true)
            } else {
                children_scan(evs, pos + 1)
            },
            _ => (pos + 1, false),
        }
    }
}

/// The position just past the closing event that ends the content starting at
/// `cur`, and whether that content is well formed.
pub open spec fn children_scan(evs: Seq<RawEvent>, cur: int) -> (int, bool)
    decreases evs.len() - cur, 1int,
{
    if cur < 0 || evs.len() <= cur {
        (cur + 1, false)
    } else {
        match evs[cur] {
            RawEvent::Close => (cur + 1, true),
            RawEvent::Text(_) => children_scan(evs, cur + 1),
            RawEvent::Open(_, _, _) => {
                let (e, ok1) = elem_scan(evs, cur);
                let e2 = if cur + 1 <= e && e <= evs.len() {
                    e
                } else {
                    cur + 1
                };
                let (end, ok2) = children_scan(evs, e2);
                (end, ok1 && ok2)
            },
            _ => (cur + 1, false),
        }
    }
}

/// How the events from `pos` (exclusive of `end`) build the element `e`: the
/// element's tag, attributes and children are exactly what the events carry.
pub open spec fn elem_rep(evs: Seq<RawEvent>, pos: int, end: int, e: XmlElement) -> bool
    decreases e, 0int,
    when true
    via elem_rep_decreases
{
    &&& 0 <= pos < evs.len()
    &&& pos < end <= evs.len()
    &&& match evs[pos] {
        RawEvent::Open(t, a, sc) => {
            &&& e.tag == t
            &&& e.attrs@ == attrs_of_pairs(a@)
            &&& if sc {
                end == pos + 1 && e.children@ == Seq::<XmlNode>::empty()
            } else {
                &&& evs[end - 1] is Close
                &&& children_rep(evs, pos + 1, end - 1, e.children@)
            }
        },
        _ => false,
    }
}

#[via_fn]
proof fn elem_rep_decreases(evs: Seq<RawEvent>, pos: int, end: int, e: XmlElement) {
    broadcast use vstd::std_specs::vec::axiom_vec_decreases_to_view;

    assert(decreases_to!(e => e.children));
    assert(decreases_to!(e.children => e.children@));
}

/// How the events from `i` up to `j` build the child list `cs`, in document
/// order.
pub open spec fn children_rep(evs: Seq<RawEvent>, i: int, j: int, cs: Seq<XmlNode>) -> bool
    decreases cs, 1int,
    when true
    via children_rep_decreases
{
    if cs.len() == 0 {
        i == j
    } else {
        match cs[0] {
            XmlNode::Text(s) => {
                &&& 0 <= i < evs.len()
                &&& i < j
                &&& evs[i] matches RawEvent::Text(t) && s == t
                &&& children_rep(evs, i + 1, j, cs.skip(1))
            },
            XmlNode::Element(c) => {
                let m = elem_scan(evs, i).0;
                &&& m <= j
                &&& elem_rep(evs, i, m, c)
                &&& children_rep(evs, m, j, cs.skip(1))
            },
        }
    }
}

#[via_fn]
proof fn children_rep_decreases(evs: Seq<RawEvent>, i: int, j: int, cs: Seq<XmlNode>) {
    broadcast use vstd::seq::axiom_seq_index_decreases;

    if cs.len() > 0 {
        assert(decreases_to!(cs => cs[0]));
        match cs[0] {
            XmlNode::Element(c) => {
                assert(decreases_to!(cs[0] => cs[0]->Element_0));
            },
            XmlNode::Text(_) => {},
        }
        assert(cs.skip(1) =~= cs.subrange(1, cs.len() as int));
        vstd::seq::axiom_seq_subrange_decreases(cs, 1, cs.len() as int);
    }
}

/// The scan makes progress: the end position lies past the start, and a
/// well-formed end lies within the events.
proof fn lemma_scan_bounds(evs: Seq<RawEvent>, pos: int)
    ensures
        elem_scan(evs, pos).0 > pos,
        elem_scan(evs, pos).1 ==> elem_scan(evs, pos).0 <= evs.len(),
        children_scan(evs, pos).0 > pos,
        children_scan(evs, pos).1 ==> children_scan(evs, pos).0 <= evs.len(),
    decreases evs.len() - pos, 2int,
{
    if 0 <= pos < evs.len() {
        match evs[pos] {
            RawEvent::Open(_, _, sc) => {
                if !sc {
                    lemma_scan_bounds(evs, pos + 1);
                }
                let (e, ok1) = elem_scan(evs, pos);
                let e2 = if pos + 1 <= e && e <= evs.len() {
                    e
                } else {
                    pos + 1
                };
                lemma_scan_bounds(evs, e2);
            },
            _ => {},
        }
        if pos + 1 <= evs.len() {
            lemma_scan_bounds(evs, pos + 1);
        }
    }
}

/// Appending one represented node to a represented child list keeps the list
/// represented over the widened range.
proof fn lemma_children_rep_snoc(
    evs: Seq<RawEvent>,
    i: int,
    m: int,
    j: int,
    cs: Seq<XmlNode>,
    n: XmlNode,
)
    requires
        children_rep(evs, i, m, cs),
        match n {
            XmlNode::Text(s) => j == m + 1 && 0 <= m < evs.len() && (evs[m] matches
                RawEvent::Text(t) && s == t),
            XmlNode::Element(c) => m < j && j == elem_scan(evs, m).0 && elem_rep(evs, m, j, c),
        },
    ensures
        children_rep(evs, i, j, cs.push(n)),
    decreases cs.len(),
{
    if cs.len() == 0 {
        assert(cs.push(n)[0] == n);
        assert(cs.push(n).skip(1) =~= Seq::<XmlNode>::empty());
        match n {
            XmlNode::Text(s) => {
                assert(children_rep(evs, i + 1, j, cs.push(n).skip(1)));
            },
            XmlNode::Element(c) => {
                assert(elem_rep(evs, i, j, c));
                assert(children_rep(evs, j, j, cs.push(n).skip(1)));
            },
        }
    } else {
        assert(cs.push(n)[0] == cs[0]);
        assert(cs.push(n).skip(1) =~= cs.skip(1).push(n));
        match cs[0] {
            XmlNode::Text(_) => {
                lemma_children_rep_snoc(evs, i + 1, m, j, cs.skip(1), n);
            },
            XmlNode::Element(c0) => {
                let m0 = elem_scan(evs, i).0;
                lemma_children_rep_snoc(evs, m0, m, j, cs.skip(1), n);
            },
        }
    }
}

/// Copies tokenizer attribute pairs into attribute records, one for one.
fn convert_attrs(pairs: &Vec<(String, String)>) -> (r: Vec<XmlAttr>)
    ensures
        r@ == attrs_of_pairs(pairs@),
{
    let n = pairs.len();
    let mut out: Vec<XmlAttr> = Vec::new();
    let mut i: usize = 0;
    proof {
        assert(out@ =~= attrs_of_pairs(pairs@).take(0));
    }
    while i < n
        invariant
            n == pairs@.len(),
            i <= n,
            out@ == attrs_of_pairs(pairs@).take(i as int),
        decreases n - i,
    {
        proof {
            assert(attrs_of_pairs(pairs@).take(i as int).len() == i);
            assert(out@.len() == i);
        }
        let name = pairs[i].0.clone();
        let value = pairs[i].1.clone();
        out.push(XmlAttr { name, value });
        proof {
            assert(out@ =~= attrs_of_pairs(pairs@).take(i as int + 1));
        }
        i += 1;
    }
    proof {
        assert(attrs_of_pairs(pairs@).take(n as int) =~= attrs_of_pairs(pairs@));
    }
    out
}

/// Builds the element opened at `pos` and returns it with the position just
/// past its closing event: it succeeds exactly where the scan says the element
/// is well formed, and the result is exactly what the events carry.
fn build_element(evs: &Vec<RawEvent>, pos: usize) -> (r: Result<(XmlElement, usize), String>)
    requires
        pos < evs@.len(),
    ensures
        r is Ok <==> elem_scan(evs@, pos as int).1,
        r matches Ok(p) ==> {
            &&& p.1 == elem_scan(evs@, pos as int).0
            &&& pos < p.1 <= evs@.len()
            &&& elem_rep(evs@, pos as int, p.1 as int, p.0)
        },
    decreases evs@.len() - pos,
{
    // Pins the event count to a machine length before the cursor arithmetic.
    let _evs_len: usize = evs.len();
    let (tag, attrs, self_closing) = match &evs[pos] {
        RawEvent::Open(t, a, s) => (t.clone(), convert_attrs(a), *s),
        _ => {
            return Err(String::from_str("expected an opening tag"));
        },
    };
    let mut children: Vec<XmlNode> = Vec::new();
    let mut cur: usize = pos + 1;
    if self_closing {
        proof {
            assert(children@ =~= Seq::<XmlNode>::empty());
        }
        return Ok((XmlElement { tag, attrs, children }, cur));
    }
    proof {
        assert(children_rep(evs@, pos as int + 1, cur as int, children@));
    }
    loop
        invariant
            pos < cur <= evs@.len(),
            pos < evs@.len(),
            evs@[pos as int] matches RawEvent::Open(t, a, sc) && !sc && tag == t && attrs@
                == attrs_of_pairs(a@),
            children_rep(evs@, pos as int + 1, cur as int, children@),
            children_scan(evs@, pos as int + 1) == children_scan(evs@, cur as int),
        decreases evs@.len() - cur,
    {
        if cur >= evs.len() {
            proof {
                assert(!children_scan(evs@, cur as int).1);
            }
            return Err(String::from_str("an element is not closed"));
        }
        match &evs[cur] {
            RawEvent::Close => {
                proof {
                    assert(children_scan(evs@, cur as int) == (cur as int + 1, true));
                    assert(elem_scan(evs@, pos as int) == (cur as int + 1, true));
                }
                return Ok((XmlElement { tag, attrs, children }, cur + 1));
            },
            RawEvent::Text(s) => {
                let node = XmlNode::Text(s.clone());
                proof {
                    lemma_children_rep_snoc(
                        evs@,
                        pos as int + 1,
                        cur as int,
                        cur as int + 1,
                        children@,
                        node,
                    );
                }
                children.push(node);
                cur += 1;
            },
            RawEvent::Open(_, _, _) => {
                match build_element(evs, cur) {
                    Ok((c, nxt)) => {
                        proof {
                            lemma_children_rep_snoc(
                                evs@,
                                pos as int + 1,
                                cur as int,
                                nxt as int,
                                children@,
                                XmlNode::Element(c),
                            );
                            assert(children_scan(evs@, cur as int) == children_scan(
                                evs@,
                                nxt as int,
                            ));
                        }
                        children.push(XmlNode::Element(c));
                        cur = nxt;
                    },
                    Err(m) => {
                        proof {
                            assert(!children_scan(evs@, cur as int).1);
                        }
                        return Err(m);
                    },
                }
            },
            _ => {
                proof {
                    assert(!children_scan(evs@, cur as int).1);
                }
                return Err(String::from_str("unexpected token inside an element"));
            },
        }
    }
}

/// The position of the first event that is not character data.
pub open spec fn first_content(evs: Seq<RawEvent>, i: int) -> int
    decreases evs.len() - i,
{
    if i < 0 || evs.len() <= i {
        i
    } else {
        match evs[i] {
            RawEvent::Text(_) => first_content(evs, i + 1),
            _ => i,
        }
    }
}

/// Whether an event stream holds a document: character data, then one
/// well-formed root element. What follows the root is ignored.
pub open spec fn document_scan(evs: Seq<RawEvent>) -> bool {
    let p = first_content(evs, 0);
    &&& p < evs.len()
    &&& evs[p] is Open
    &&& elem_scan(evs, p).1
}

/// How an event stream builds the root element.
pub open spec fn document_rep(evs: Seq<RawEvent>, root: XmlElement) -> bool {
    let p = first_content(evs, 0);
    elem_rep(evs, p, elem_scan(evs, p).0, root)
}

/// Whether a text tokenizes to a document.
pub open spec fn text_document_scan(text: Seq<char>) -> bool {
    match xml_events_of(text) {
        Ok(evs) => document_scan(evs),
        Err(_) => false,
    }
}

/// How a text builds its root element, through the tokenizer's named result.
pub open spec fn text_document_rep(text: Seq<char>, root: XmlElement) -> bool {
    match xml_events_of(text) {
        Ok(evs) => document_rep(evs, root),
        Err(_) => false,
    }
}

/// Reads one document from text: tokenizes it and builds the tree of its root
/// element. It succeeds exactly when the text tokenizes and its events hold a
/// well-formed root element, and the result is exactly what the events carry.
pub fn parse_document(text: &str) -> (r: Result<XmlElement, String>)
    ensures
        r is Ok <==> text_document_scan(text@),
        r matches Ok(root) ==> text_document_rep(text@, root),
{
    let evs = match tokenize(text) {
        Ok(v) => v,
        Err(m) => {
            return Err(m);
        },
    };
    let n = evs.len();
    let mut i: usize = 0;
    while i < n
        invariant
            n == evs@.len(),
            i <= n,
            xml_events_of(text@) == Ok::<Seq<RawEvent>, Seq<char>>(evs@),
            first_content(evs@, 0) == first_content(evs@, i as int),
        decreases n - i,
    {
        match &evs[i] {
            RawEvent::Open(_, _, _) => {
                proof {
                    assert(first_content(evs@, 0) == i as int);
                }
                return match build_element(&evs, i) {
                    Ok((e, _)) => Ok(e),
                    Err(m) => Err(m),
                };
            },
            RawEvent::Text(_) => {
                i += 1;
            },
            _ => {
                proof {
                    assert(first_content(evs@, 0) == i as int);
                }
                return Err(String::from_str("malformed document before the root element"));
            },
        }
    }
    proof {
        assert(first_content(evs@, 0) == n as int);
    }
    Err(String::from_str("the document has no root element"))
}

} // verus!
