use vstd::prelude::*;
use core::cmp::Ordering;
use std::str::FromStr;

verus! {

use crate::scalar::{dec_str, dec_val, uint_of, parse_uint, uint_to_string, all_digits,
    lemma_dec_str_reads_back};

/// An ordered triple (major, optional minor, optional patch) of unsigned
/// 16-bit components.
#[derive(Debug, Default, Clone, Copy, Hash, PartialEq, Eq)]
pub struct Version(pub u16, pub Option<u16>, pub Option<u16>);

/// The segment before the first separator.
pub open spec fn head_segment(s: Seq<char>, sep: char) -> Seq<char>
    decreases s.len(),
{
    if s.len() == 0 {
        Seq::empty()
    } else if s[0] == sep {
        Seq::empty()
    } else {
        seq![s[0]] + head_segment(s.skip(1), sep)
    }
}

/// What follows the first separator, or nothing when there is none.
pub open spec fn tail_after(s: Seq<char>, sep: char) -> Option<Seq<char>>
    decreases s.len(),
{
    if s.len() == 0 {
        None
    } else if s[0] == sep {
        Some(s.skip(1))
    } else {
        tail_after(s.skip(1), sep)
    }
}

/// What follows a separator is shorter than the whole.
pub proof fn lemma_tail_after_shorter(s: Seq<char>, sep: char)
    requires
        tail_after(s, sep) is Some,
    ensures
        tail_after(s, sep)->Some_0.len() < s.len(),
    decreases s.len(),
{
    if s.len() > 0 && s[0] != sep {
        lemma_tail_after_shorter(s.skip(1), sep);
    }
}

pub open spec fn u16_of(s: Seq<char>) -> Option<nat> {
    uint_of(s, 0xffff)
}

/// The lenient, total reading of a version string: up to three leading
/// dot-separated numeric segments; the first segment that fails to read, and
/// everything after it, is absent; segments beyond the third are ignored.
pub open spec fn version_of(s: Seq<char>) -> Version {
    match tail_after(s, '.') {
        None => match u16_of(s) {
            Some(maj) => Version(maj as u16, None, None),
            None => Version(0u16, None, None),
        },
        Some(rest1) => match u16_of(head_segment(s, '.')) {
            None => Version(0u16, None, None),
            Some(maj) => match u16_of(head_segment(rest1, '.')) {
                None => Version(maj as u16, None, None),
                Some(min) => match tail_after(rest1, '.') {
                    None => Version(maj as u16, Some(min as u16), None),
                    Some(rest2) => match u16_of(head_segment(rest2, '.')) {
                        None => Version(maj as u16, Some(min as u16), None),
                        Some(p) => Version(maj as u16, Some(min as u16), Some(p as u16)),
                    },
                },
            },
        },
    }
}

/// The shortest textual form: only the present prefix is rendered, except that
/// a present patch behind an absent minor renders the minor as zero.
pub open spec fn version_render(v: Version) -> Seq<char> {
    match (v.1, v.2) {
        (None, None) => dec_str(v.0 as nat),
        (Some(mi), None) => dec_str(v.0 as nat) + seq!['.'] + dec_str(mi as nat),
        (None, Some(p)) => dec_str(v.0 as nat) + seq!['.'] + dec_str(0) + seq!['.'] + dec_str(
            p as nat,
        ),
        (Some(mi), Some(p)) => dec_str(v.0 as nat) + seq!['.'] + dec_str(mi as nat) + seq!['.']
            + dec_str(p as nat),
    }
}

pub proof fn lemma_head_tail(s: Seq<char>, sep: char, i: int)
    requires
        0 <= i <= s.len(),
        forall|j: int| 0 <= j < i ==> s[j] != sep,
        i < s.len() ==> s[i] == sep,
    ensures
        head_segment(s, sep) == s.subrange(0, i),
        tail_after(s, sep) == if i < s.len() {
            Some(s.subrange(i + 1, s.len() as int))
        } else {
            None::<Seq<char>>
        },
    decreases s.len(),
{
    if s.len() == 0 {
        assert(head_segment(s, sep) =~= s.subrange(0, i));
    } else if i == 0 {
        if s[0] == sep {
            assert(head_segment(s, sep) =~= s.subrange(0, 0));
            assert(s.skip(1) =~= s.subrange(1, s.len() as int));
        }
    } else {
        lemma_head_tail(s.skip(1), sep, i - 1);
        assert(seq![s[0]] + s.skip(1).subrange(0, i - 1) =~= s.subrange(0, i));
        if i < s.len() {
            assert(s.skip(1).subrange(i, s.skip(1).len() as int) =~= s.subrange(
                i + 1,
                s.len() as int,
            ));
        }
    }
}

/// Splits off the part before the first separator and the part after it.
pub fn split_sep(s: &str, sep: char) -> (r: (String, Option<String>))
    ensures
        r.0@ == head_segment(s@, sep),
        crate::xml::opt_view(r.1) == tail_after(s@, sep),
{
    let len = s.unicode_len();
    let mut i: usize = 0;
    while i < len
        invariant
            len == s@.len(),
            0 <= i <= len,
            forall|j: int| 0 <= j < i ==> s@[j] != sep,
        decreases len - i,
    {
        if s.get_char(i) == sep {
            let head = s.substring_char(0, i).to_owned();
            let tail = s.substring_char(i + 1, len).to_owned();
            proof {
                lemma_head_tail(s@, sep, i as int);
            }
            return (head, Some(tail));
        }
        i += 1;
    }
    proof {
        lemma_head_tail(s@, sep, len as int);
        assert(s@.subrange(0, len as int) =~= s@);
    }
    (s.to_owned(), None)
}

fn parse_u16(s: &str) -> (r: Option<u16>)
    ensures
        match r {
            Some(v) => u16_of(s@) == Some(v as nat),
            None => u16_of(s@) is None,
        },
{
    match parse_uint(s, 0xffff) {
        Some(v) => Some(v as u16),
        None => None,
    }
}

impl Version {
    pub fn new(major: u16, minor: u16, patch: u16) -> (r: Self)
        ensures
            r == Version(major, Some(minor), Some(patch)),
    {
        Version(major, Some(minor), Some(patch))
    }

    pub fn major(self) -> (r: u16)
        ensures
            r == self.0,
    {
        self.0
    }

    pub fn minor(self) -> (r: Option<u16>)
        ensures
            r == self.1,
    {
        self.1
    }

    pub fn patch(self) -> (r: Option<u16>)
        ensures
            r == self.2,
    {
        self.2
    }

    /// Reads a version string; this reading is total and never fails.
    pub fn parse(s: &str) -> (r: Version)
        ensures
            r == version_of(s@),
    {
        let (seg1, rest1) = split_sep(s, '.');
        match rest1 {
            None => match parse_u16(s) {
                Some(maj) => Version(maj, None, None),
                None => Version(0, None, None),
            },
            Some(rest1) => match parse_u16(seg1.as_str()) {
                None => Version(0, None, None),
                Some(maj) => {
                    let (seg2, rest2) = split_sep(rest1.as_str(), '.');
                    match parse_u16(seg2.as_str()) {
                        None => Version(maj, None, None),
                        Some(min) => match rest2 {
                            None => Version(maj, Some(min), None),
                            Some(rest2) => {
                                let (seg3, _) = split_sep(rest2.as_str(), '.');
                                match parse_u16(seg3.as_str()) {
                                    None => Version(maj, Some(min), None),
                                    Some(p) => Version(maj, Some(min), Some(p)),
                                }
                            },
                        },
                    }
                },
            },
        }
    }

    /// Renders the shortest equivalent textual form.
    pub fn to_string(&self) -> (r: String)
        ensures
            r@ == version_render(*self),
    {
        proof {
            reveal_strlit(".");
        }
        let mut out = uint_to_string(self.0 as u64);
        match (self.1, self.2) {
            (None, None) => {},
            (Some(mi), None) => {
                out.append(".");
                let m = uint_to_string(mi as u64);
                out.append(m.as_str());
            },
            (None, Some(p)) => {
                out.append(".");
                out.append("0");
                out.append(".");
                let ps = uint_to_string(p as u64);
                out.append(ps.as_str());
                proof {
                    reveal_strlit("0");
                    assert("0"@ =~= dec_str(0));
                }
            },
            (Some(mi), Some(p)) => {
                out.append(".");
                let m = uint_to_string(mi as u64);
                out.append(m.as_str());
                out.append(".");
                let ps = uint_to_string(p as u64);
                out.append(ps.as_str());
            },
        }
        proof {
            assert("."@ =~= seq!['.']);
            assert(out@ =~= version_render(*self));
        }
        out
    }
}

impl FromStr for Version {
    type Err = String;

    fn from_str(s: &str) -> Result<Self, String> {
        Ok(Version::parse(s))
    }
}

impl PartialEq<str> for Version {
    fn eq(&self, other: &str) -> (r: bool) {
        let v = Version::parse(other);
        self.0 == v.0 && eq_opt_u16(self.1, v.1) && eq_opt_u16(self.2, v.2)
    }
}

impl vstd::std_specs::cmp::PartialEqSpecImpl<str> for Version {
    open spec fn obeys_eq_spec() -> bool {
        true
    }

    open spec fn eq_spec(&self, other: &str) -> bool {
        *self == version_of(other@)
    }
}

fn eq_opt_u16(a: Option<u16>, b: Option<u16>) -> (r: bool)
    ensures
        r == (a == b),
{
    match (a, b) {
        (None, None) => true,
        (Some(x), Some(y)) => x == y,
        _ => false,
    }
}

/// Lexicographic order of optional components: an absent component sorts
/// strictly below any present value.
pub open spec fn opt_u16_cmp(a: Option<u16>, b: Option<u16>) -> Ordering {
    match (a, b) {
        (None, None) => Ordering::Equal,
        (None, Some(_)) => Ordering::Less,
        (Some(_), None) => Ordering::Greater,
        (Some(x), Some(y)) => if x < y {
            Ordering::Less
        } else if x == y {
            Ordering::Equal
        } else {
            Ordering::Greater
        },
    }
}

/// Lexicographic order over (major, minor, patch).
pub open spec fn version_cmp(a: Version, b: Version) -> Ordering {
    if a.0 < b.0 {
        Ordering::Less
    } else if a.0 > b.0 {
        Ordering::Greater
    } else if opt_u16_cmp(a.1, b.1) != Ordering::Equal {
        opt_u16_cmp(a.1, b.1)
    } else {
        opt_u16_cmp(a.2, b.2)
    }
}

fn cmp_opt_u16(a: Option<u16>, b: Option<u16>) -> (r: Ordering)
    ensures
        r == opt_u16_cmp(a, b),
{
    match (a, b) {
        (None, None) => Ordering::Equal,
        (None, Some(_)) => Ordering::Less,
        (Some(_), None) => Ordering::Greater,
        (Some(x), Some(y)) => if x < y {
            Ordering::Less
        } else if x == y {
            Ordering::Equal
        } else {
            Ordering::Greater
        },
    }
}

impl PartialOrd for Version {
    fn partial_cmp(&self, other: &Version) -> (r: Option<Ordering>) {
        let r = if self.0 < other.0 {
            Ordering::Less
        } else if self.0 > other.0 {
            Ordering::Greater
        } else {
            let m = cmp_opt_u16(self.1, other.1);
            match m {
                Ordering::Equal => cmp_opt_u16(self.2, other.2),
                _ => m,
            }
        };
        Some(r)
    }
}

impl vstd::std_specs::cmp::PartialOrdSpecImpl for Version {
    open spec fn obeys_partial_cmp_spec() -> bool {
        true
    }

    open spec fn partial_cmp_spec(&self, other: &Version) -> Option<Ordering> {
        Some(version_cmp(*self, *other))
    }
}

/// Ordering law: the major component dominates, then the minor, then the
/// patch.
pub proof fn lemma_version_order_dominates(a: Version, b: Version)
    ensures
        a.0 < b.0 ==> version_cmp(a, b) == Ordering::Less,
        a.0 == b.0 && opt_u16_cmp(a.1, b.1) == Ordering::Less ==> version_cmp(a, b)
            == Ordering::Less,
        a.0 == b.0 && a.1 == b.1 ==> version_cmp(a, b) == opt_u16_cmp(a.2, b.2),
{
    if a.0 == b.0 && a.1 == b.1 {
        match a.1 {
            None => {},
            Some(x) => {},
        }
    }
}

/// Ordering law: an absent component is strictly less than a present zero at
/// the same position.
pub proof fn lemma_version_absent_below_present(a: Version, b: Version)
    ensures
        a.0 == b.0 && a.1 is None && b.1 is Some ==> version_cmp(a, b) == Ordering::Less,
        a.0 == b.0 && a.1 == b.1 && a.2 is None && b.2 is Some ==> version_cmp(a, b)
            == Ordering::Less,
{
    if a.0 == b.0 && a.1 == b.1 {
        match a.1 {
            None => {},
            Some(x) => {},
        }
    }
}

proof fn lemma_digits_no_dot(s: Seq<char>)
    requires
        all_digits(s),
    ensures
        forall|j: int| 0 <= j < s.len() ==> s[j] != '.',
{
    assert forall|j: int| 0 <= j < s.len() implies s[j] != '.' by {
        assert(crate::scalar::is_digit(s[j]));
    }
}

/// The codec round trip: rendering a version and reading it back yields the
/// same version, for every version whose minor is present wherever its patch
/// is. (A version with a patch behind an absent minor renders that minor as
/// zero, and reads back with the minor present.)
pub proof fn lemma_version_round_trip(v: Version)
    requires
        v.1 is None ==> v.2 is None,
    ensures
        version_of(version_render(v)) == v,
{
    lemma_dec_str_reads_back(v.0 as nat);
    let maj = dec_str(v.0 as nat);
    lemma_digits_no_dot(maj);
    match (v.1, v.2) {
        (None, None) => {
            lemma_head_tail(maj, '.', maj.len() as int);
            assert(maj.subrange(0, maj.len() as int) =~= maj);
            assert(u16_of(maj) == Some(v.0 as nat)) by {
                crate::scalar::lemma_uint_round_trip(v.0 as nat, 0xffff);
            }
        },
        (Some(mi), None) => {
            let mis = dec_str(mi as nat);
            lemma_dec_str_reads_back(mi as nat);
            lemma_digits_no_dot(mis);
            let s = maj + seq!['.'] + mis;
            assert(s[maj.len() as int] == '.');
            lemma_head_tail(s, '.', maj.len() as int);
            assert(s.subrange(0, maj.len() as int) =~= maj);
            assert(s.subrange(maj.len() as int + 1, s.len() as int) =~= mis);
            lemma_head_tail(mis, '.', mis.len() as int);
            assert(mis.subrange(0, mis.len() as int) =~= mis);
            crate::scalar::lemma_uint_round_trip(v.0 as nat, 0xffff);
            crate::scalar::lemma_uint_round_trip(mi as nat, 0xffff);
        },
        (None, Some(_)) => {
        },
        (Some(mi), Some(p)) => {
            let mis = dec_str(mi as nat);
            lemma_dec_str_reads_back(mi as nat);
            lemma_digits_no_dot(mis);
            let ps = dec_str(p as nat);
            lemma_dec_str_reads_back(p as nat);
            lemma_digits_no_dot(ps);
            let s = maj + seq!['.'] + mis + seq!['.'] + ps;
            assert(version_render(v) =~= s);
            assert(s[maj.len() as int] == '.');
            lemma_head_tail(s, '.', maj.len() as int);
            assert(s.subrange(0, maj.len() as int) =~= maj);
            let rest1 = mis + seq!['.'] + ps;
            assert(s.subrange(maj.len() as int + 1, s.len() as int) =~= rest1);
            assert(rest1[mis.len() as int] == '.');
            lemma_head_tail(rest1, '.', mis.len() as int);
            assert(rest1.subrange(0, mis.len() as int) =~= mis);
            let rest2 = ps;
            assert(rest1.subrange(mis.len() as int + 1, rest1.len() as int) =~= rest2);
            lemma_head_tail(rest2, '.', rest2.len() as int);
            assert(rest2.subrange(0, rest2.len() as int) =~= rest2);
            crate::scalar::lemma_uint_round_trip(v.0 as nat, 0xffff);
            crate::scalar::lemma_uint_round_trip(mi as nat, 0xffff);
            crate::scalar::lemma_uint_round_trip(p as nat, 0xffff);
        },
    }
}

} // verus!

verus! {

proof fn lemma_no_dot_indexwise(a: Seq<char>)
    requires
        !a.contains('.'),
    ensures
        forall|j: int| 0 <= j < a.len() ==> a[j] != '.',
{
    assert forall|j: int| 0 <= j < a.len() implies a[j] != '.' by {
        if a[j] == '.' {
            assert(a.contains('.'));
        }
    }
}

/// Splitting law for one dot: the head and tail of `a ++ "." ++ rest` are `a`
/// and `rest`, for a dotless `a`.
proof fn lemma_split_at_dot(a: Seq<char>, rest: Seq<char>)
    requires
        !a.contains('.'),
    ensures
        head_segment(a + seq!['.'] + rest, '.') == a,
        tail_after(a + seq!['.'] + rest, '.') == Some(rest),
{
    let s = a + seq!['.'] + rest;
    lemma_no_dot_indexwise(a);
    assert(s[a.len() as int] == '.');
    lemma_head_tail(s, '.', a.len() as int);
    assert(s.subrange(0, a.len() as int) =~= a);
    assert(s.subrange(a.len() as int + 1, s.len() as int) =~= rest);
}

/// Reading law: for a version string of four or more dot-separated segments,
/// everything beyond the third segment is ignored.
pub proof fn lemma_segments_beyond_third_ignored(
    a: Seq<char>,
    b: Seq<char>,
    c: Seq<char>,
    r1: Seq<char>,
    r2: Seq<char>,
)
    requires
        !a.contains('.'),
        !b.contains('.'),
        !c.contains('.'),
    ensures
        version_of(a + seq!['.'] + b + seq!['.'] + c + seq!['.'] + r1) == version_of(
            a + seq!['.'] + b + seq!['.'] + c + seq!['.'] + r2,
        ),
{
    lemma_split_tail_shape(a, b, c, r1);
    lemma_split_tail_shape(a, b, c, r2);
}

proof fn lemma_split_tail_shape(a: Seq<char>, b: Seq<char>, c: Seq<char>, r: Seq<char>)
    requires
        !a.contains('.'),
        !b.contains('.'),
        !c.contains('.'),
    ensures
        version_of(a + seq!['.'] + b + seq!['.'] + c + seq!['.'] + r) == (
        match u16_of(a) {
            None => Version(0u16, None, None),
            Some(maj) => match u16_of(b) {
                None => Version(maj as u16, None, None),
                Some(min) => match u16_of(c) {
                    None => Version(maj as u16, Some(min as u16), None),
                    Some(p) => Version(maj as u16, Some(min as u16), Some(p as u16)),
                },
            },
        }),
{
    let s = a + seq!['.'] + b + seq!['.'] + c + seq!['.'] + r;
    let rest1 = b + seq!['.'] + c + seq!['.'] + r;
    let rest2 = c + seq!['.'] + r;
    assert(s =~= a + seq!['.'] + rest1);
    lemma_split_at_dot(a, rest1);
    assert(rest1 =~= b + seq!['.'] + rest2);
    lemma_split_at_dot(b, rest2);
    lemma_split_at_dot(c, r);
}

/// Reading law: a segment that does not read as a number ends the reading;
/// that segment and everything after it are absent.
pub proof fn lemma_unreadable_segment_ends_the_reading(a: Seq<char>, b: Seq<char>, rest: Seq<char>)
    requires
        !a.contains('.'),
        !b.contains('.'),
        u16_of(b) is None,
    ensures
        version_of(a + seq!['.'] + b + seq!['.'] + rest) == (match u16_of(a) {
            Some(maj) => Version(maj as u16, None, None),
            None => Version(0u16, None, None),
        }),
{
    let s = a + seq!['.'] + b + seq!['.'] + rest;
    let rest1 = b + seq!['.'] + rest;
    assert(s =~= a + seq!['.'] + rest1);
    lemma_split_at_dot(a, rest1);
    lemma_split_at_dot(b, rest);
}

} // verus!
