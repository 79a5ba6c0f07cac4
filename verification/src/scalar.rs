use vstd::prelude::*;

verus! {

use crate::xml::str_eq;

pub open spec fn is_digit(c: char) -> bool {
    '0' <= c && c <= '9'
}

pub open spec fn digit_val(c: char) -> nat {
    (c as nat - '0' as nat) as nat
}

pub open spec fn all_digits(s: Seq<char>) -> bool {
    forall|i: int| 0 <= i < s.len() ==> is_digit(#[trigger] s[i])
}

/// The value of a digit string, read left to right.
pub open spec fn dec_val(s: Seq<char>) -> nat
    decreases s.len(),
{
    if s.len() == 0 {
        0
    } else {
        dec_val(s.drop_last()) * 10 + digit_val(s.last())
    }
}

/// The digits of an unsigned number after the optional leading plus sign.
pub open spec fn digits_part(s: Seq<char>) -> Seq<char> {
    if s.len() > 0 && s[0] == '+' {
        s.skip(1)
    } else {
        s
    }
}

/// The unsigned-integer scalar codec: an optional plus sign, then one or more
/// digits, read as a value of at most `max`; anything else does not parse.
pub open spec fn uint_of(s: Seq<char>, max: nat) -> Option<nat> {
    let d = digits_part(s);
    if d.len() > 0 && all_digits(d) && dec_val(d) <= max {
        Some(dec_val(d))
    } else {
        None
    }
}

proof fn lemma_dec_val_prefix_grows(d: Seq<char>, k: int)
    requires
        0 <= k < d.len(),
    ensures
        dec_val(d.take(k + 1)) == dec_val(d.take(k)) * 10 + digit_val(d[k]),
{
    assert(d.take(k + 1).drop_last() =~= d.take(k));
    assert(d.take(k + 1).last() == d[k]);
}

/// Reads an unsigned integer of at most `max`, exactly as the codec says.
pub fn parse_uint(s: &str, max: u64) -> (r: Option<u64>)
    ensures
        match r {
            Some(v) => uint_of(s@, max as nat) == Some(v as nat),
            None => uint_of(s@, max as nat) is None,
        },
{
    let len = s.unicode_len();
    let start: usize = if len > 0 && s.get_char(0) == '+' {
        1
    } else {
        0
    };
    let ghost d = digits_part(s@);
    proof {
        assert(d =~= s@.skip(start as int));
    }
    if start >= len {
        return None;
    }
    let mut acc: u64 = 0;
    let mut over: bool = false;
    let mut i: usize = start;
    while i < len
        invariant
            len == s@.len(),
            start <= i <= len,
            start < len,
            d == digits_part(s@),
            d == s@.skip(start as int),
            d.len() == len - start,
            forall|j: int| 0 <= j < i - start ==> is_digit(#[trigger] d[j]),
            !over ==> acc as nat == dec_val(d.take(i - start)) && acc <= max,
            over ==> dec_val(d.take(i - start)) > max,
        decreases len - i,
    {
        let c = s.get_char(i);
        let cu = c as u32;
        proof {
            assert(d[i - start] == s@[i as int]);
        }
        if cu < 48 || cu > 57 {
            proof {
                assert(c as u32 == c as int);
                assert(!is_digit(d[i - start]));
                assert(!all_digits(d));
            }
            return None;
        }
        let dv = (cu - 48) as u64;
        proof {
            assert(c as u32 == c as int);
            assert(is_digit(d[i - start]));
            assert(digit_val(d[i - start]) == dv as nat);
            lemma_dec_val_prefix_grows(d, i - start);
        }
        if dv > max {
            proof {
                assert(dec_val(d.take(i - start + 1)) >= digit_val(d[i - start])) by (nonlinear_arith)
                    requires
                        dec_val(d.take(i - start + 1)) == dec_val(d.take(i - start)) * 10
                            + digit_val(d[i - start]),
                ;
                if over {
                    assert(dec_val(d.take(i - start)) * 10 > max) by (nonlinear_arith)
                        requires
                            dec_val(d.take(i - start)) > max as nat,
                    ;
                }
            }
            over = true;
        } else if over {
            proof {
                assert(dec_val(d.take(i - start + 1)) >= dec_val(d.take(i - start)) * 10) by (nonlinear_arith)
                    requires
                        dec_val(d.take(i - start + 1)) == dec_val(d.take(i - start)) * 10
                            + digit_val(d[i - start]),
                ;
                assert(dec_val(d.take(i - start)) * 10 > max) by (nonlinear_arith)
                    requires
                        dec_val(d.take(i - start)) > max as nat,
                ;
            }
        } else if acc > (max - dv) / 10 {
            proof {
                assert(acc * 10 + dv > max) by (nonlinear_arith)
                    requires
                        acc > (max - dv) / 10,
                        dv <= max,
                ;
            }
            over = true;
        } else {
            proof {
                assert(acc * 10 + dv <= max) by (nonlinear_arith)
                    requires
                        acc <= (max - dv) / 10,
                        dv <= 9,
                        dv <= max,
                ;
            }
            acc = acc * 10 + dv;
        }
        i += 1;
    }
    proof {
        assert(d.take(len - start) =~= d);
    }
    if over {
        None
    } else {
        Some(acc)
    }
}

/// The shortest decimal rendering of a number.
pub open spec fn dec_str(n: nat) -> Seq<char>
    decreases n,
{
    if n < 10 {
        seq![digit_char(n)]
    } else {
        dec_str(n / 10).push(digit_char(n % 10))
    }
}

pub open spec fn digit_char(d: nat) -> char {
    if d == 0 {
        '0'
    } else if d == 1 {
        '1'
    } else if d == 2 {
        '2'
    } else if d == 3 {
        '3'
    } else if d == 4 {
        '4'
    } else if d == 5 {
        '5'
    } else if d == 6 {
        '6'
    } else if d == 7 {
        '7'
    } else if d == 8 {
        '8'
    } else {
        '9'
    }
}

fn digit_str(d: u64) -> (r: &'static str)
    requires
        d < 10,
    ensures
        r@ =~= seq![digit_char(d as nat)],
{
    proof {
        reveal_strlit("0");
        reveal_strlit("1");
        reveal_strlit("2");
        reveal_strlit("3");
        reveal_strlit("4");
        reveal_strlit("5");
        reveal_strlit("6");
        reveal_strlit("7");
        reveal_strlit("8");
        reveal_strlit("9");
    }
    if d == 0 {
        "0"
    } else if d == 1 {
        "1"
    } else if d == 2 {
        "2"
    } else if d == 3 {
        "3"
    } else if d == 4 {
        "4"
    } else if d == 5 {
        "5"
    } else if d == 6 {
        "6"
    } else if d == 7 {
        "7"
    } else if d == 8 {
        "8"
    } else {
        "9"
    }
}

/// Renders a number in its shortest decimal form.
pub fn uint_to_string(n: u64) -> (r: String)
    ensures
        r@ == dec_str(n as nat),
    decreases n,
{
    if n < 10 {
        let r = String::from_str(digit_str(n));
        proof {
            assert(r@ =~= dec_str(n as nat));
        }
        r
    } else {
        let mut r = uint_to_string(n / 10);
        r.append(digit_str(n % 10));
        proof {
            assert(r@ =~= dec_str(n as nat));
        }
        r
    }
}

/// The rendering of a number reads back as that number: the unsigned scalar
/// codec round-trips.
pub proof fn lemma_dec_str_reads_back(n: nat)
    ensures
        all_digits(dec_str(n)),
        dec_str(n).len() >= 1,
        dec_val(dec_str(n)) == n,
        dec_str(n)[0] != '+',
    decreases n,
{
    if n < 10 {
        assert(dec_str(n) =~= seq![digit_char(n)]);
        assert(dec_str(n).drop_last() =~= Seq::<char>::empty());
        assert(dec_str(n).last() == digit_char(n));
        assert(dec_val(Seq::<char>::empty()) == 0);
        assert(dec_val(dec_str(n)) == digit_val(digit_char(n)));
    } else {
        lemma_dec_str_reads_back(n / 10);
        let p = dec_str(n / 10);
        let c = digit_char(n % 10);
        assert(p.push(c).drop_last() =~= p);
        assert(p.push(c).last() == c);
        assert(dec_val(dec_str(n)) == dec_val(p) * 10 + digit_val(c));
        assert(dec_val(p) * 10 + n % 10 == n) by (nonlinear_arith)
            requires
                dec_val(p) == n / 10,
        ;
        assert(forall|i: int|
            0 <= i < p.push(c).len() ==> is_digit(#[trigger] p.push(c)[i]));
    }
}

/// The round trip of the unsigned codec, stated over the codec itself.
pub proof fn lemma_uint_round_trip(n: nat, max: nat)
    requires
        n <= max,
    ensures
        uint_of(dec_str(n), max) == Some(n),
{
    lemma_dec_str_reads_back(n);
    assert(digits_part(dec_str(n)) =~= dec_str(n));
}

/// The boolean scalar codec: the literals of the XML schema boolean.
pub open spec fn bool_of(s: Seq<char>) -> Option<bool> {
    if s == "1"@ || s == "true"@ {
        Some(true)
    } else if s == "0"@ || s == "false"@ {
        Some(false)
    } else {
        None
    }
}

pub open spec fn bool_str(b: bool) -> Seq<char> {
    if b {
        "1"@
    } else {
        "0"@
    }
}

pub fn parse_bool(s: &str) -> (r: Option<bool>)
    ensures
        r == bool_of(s@),
{
    if str_eq(s, "1") || str_eq(s, "true") {
        Some(true)
    } else if str_eq(s, "0") || str_eq(s, "false") {
        Some(false)
    } else {
        None
    }
}

pub fn bool_to_str(b: bool) -> (r: &'static str)
    ensures
        r@ == bool_str(b),
{
    if b {
        "1"
    } else {
        "0"
    }
}

/// The rendering of a boolean reads back as that boolean.
pub proof fn lemma_bool_round_trip(b: bool)
    ensures
        bool_of(bool_str(b)) == Some(b),
{
    reveal_strlit("1");
    reveal_strlit("0");
    reveal_strlit("true");
    assert("0"@.len() == 1 && "1"@.len() == 1 && "true"@.len() == 4);
    assert("0"@[0] == '0' && "1"@[0] == '1');
}

} // verus!
