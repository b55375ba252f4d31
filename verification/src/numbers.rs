//! Decimal parsing and formatting of signed 8-bit metric values.
//!
//! The classifier parses a raw metric string as a signed 8-bit integer with
//! an explicit sentinel for "unparseable", and re-renders the parsed value
//! for coverage labels. Both directions are implemented and verified here,
//! together with the round-trip lemma that formatting then parsing returns
//! the original value.

use vstd::prelude::*;
use vstd::string::StrSliceExecFns;
use vstd::string::StringExecFns;

verus! {

/// True of the ten decimal digit characters.
pub open spec fn is_digit_char(c: char) -> bool {
    48 <= c as int && c as int <= 57
}

/// The numeric value of a decimal digit character.
pub open spec fn digit_of(c: char) -> int {
    c as int - 48
}

/// Every character of the sequence is a decimal digit.
pub open spec fn all_digits(s: Seq<char>) -> bool {
    forall|i: int| 0 <= i < s.len() ==> is_digit_char(#[trigger] s[i])
}

/// The value of a sequence of decimal digit characters, most significant
/// first; the empty sequence has value 0.
pub open spec fn digits_val(s: Seq<char>) -> int
    decreases s.len(),
{
    if s.len() == 0 {
        0
    } else {
        digits_val(s.drop_last()) * 10 + digit_of(s.last())
    }
}

/// What parsing a string as a signed 8-bit decimal integer yields: an
/// optional `+` or `-` sign followed by at least one digit, with the value
/// in `[-128, 127]`; anything else fails.
pub open spec fn spec_parse_i8(s: Seq<char>) -> Option<int> {
    let neg = s.len() > 0 && s[0] == '-';
    let body = if s.len() > 0 && (s[0] == '-' || s[0] == '+') {
        s.subrange(1, s.len() as int)
    } else {
        s
    };
    if body.len() > 0 && all_digits(body) {
        let v = if neg {
            -digits_val(body)
        } else {
            digits_val(body)
        };
        if -128 <= v && v <= 127 {
            Some(v)
        } else {
            None
        }
    } else {
        None
    }
}

/// Appending one more digit multiplies the value by ten and adds the digit.
proof fn lemma_digits_val_snoc(s: Seq<char>, i: int, j: int)
    requires
        0 <= i <= j < s.len(),
    ensures
        digits_val(s.subrange(i, j + 1)) == digits_val(s.subrange(i, j)) * 10 + digit_of(s[j]),
{
    assert(s.subrange(i, j + 1).drop_last() =~= s.subrange(i, j));
    assert(s.subrange(i, j + 1).last() == s[j]);
}

/// Parse a string as a signed 8-bit decimal integer, exactly as
/// `spec_parse_i8` describes.
pub fn parse_i8(s: &str) -> (r: Option<i8>)
    ensures
        r is Some <==> spec_parse_i8(s@) is Some,
        r is Some ==> r->0 as int == spec_parse_i8(s@)->0,
{
    let len = s.unicode_len();
    let mut i: usize = 0;
    let mut neg = false;
    if len > 0 {
        let c0 = s.get_char(0);
        if c0 == '-' {
            neg = true;
            i = 1;
        } else if c0 == '+' {
            i = 1;
        }
    }
    if i >= len {
        return None;
    }
    let mut acc: u32 = 0;
    let mut over = false;
    let mut j: usize = i;
    while j < len
        invariant
            i <= j <= len,
            len == s@.len(),
            i <= 1,
            (i == 1) <==> (s@.len() > 0 && (s@[0] == '-' || s@[0] == '+')),
            neg <==> (s@.len() > 0 && s@[0] == '-'),
            i < len,
            forall|k: int| i <= k < j ==> is_digit_char(#[trigger] s@[k]),
            !over ==> acc == digits_val(s@.subrange(i as int, j as int)) && acc <= 128,
            over ==> digits_val(s@.subrange(i as int, j as int)) > 128,
        decreases len - j,
    {
        let c = s.get_char(j);
        let cv = c as u32;
        if cv < 48 || cv > 57 {
            proof {
                let ghost body = if i == 1 {
                    s@.subrange(1, s@.len() as int)
                } else {
                    s@
                };
                if i == 0 {
                    assert(s@.subrange(0, s@.len() as int) =~= s@);
                }
                assert(body[j - i] == s@[j as int]);
                assert(!is_digit_char(body[j - i]));
            }
            return None;
        }
        let d: u32 = cv - 48;
        proof {
            lemma_digits_val_snoc(s@, i as int, j as int);
            assert(digit_of(s@[j as int]) == d as int);
        }
        if !over {
            let next: u32 = acc * 10 + d;
            if next > 128 {
                over = true;
            } else {
                acc = next;
            }
        }
        proof {
            assert(s@.subrange(i as int, j as int + 1)
                =~= s@.subrange(i as int, j + 1 as int));
        }
        j += 1;
    }
    proof {
        let ghost body = if i == 1 {
            s@.subrange(1, s@.len() as int)
        } else {
            s@
        };
        if i == 0 {
            assert(s@.subrange(0, s@.len() as int) =~= s@);
        }
        assert(body =~= s@.subrange(i as int, len as int));
        assert(all_digits(body));
    }
    if over {
        None
    } else if neg {
        Some((-(acc as i32)) as i8)
    } else if acc <= 127 {
        Some(acc as i8)
    } else {
        None
    }
}

/// The character for a decimal digit value.
pub open spec fn digit_char(d: int) -> char {
    if d == 0 {
        '0'
    } else if d == 1 {
        '1'
    } else if d == 2 {
        '2'
    } else if d == 3 {
        '3'
    } else if d == 4 {
        '4'
    } else if d == 5 {
        '5'
    } else if d == 6 {
        '6'
    } else if d == 7 {
        '7'
    } else if d == 8 {
        '8'
    } else {
        '9'
    }
}

/// The decimal digit characters of a nonnegative value, most significant
/// first, with no leading zeros (a lone zero for 0).
pub open spec fn dec_digits(n: int) -> Seq<char>
    recommends
        n >= 0,
    decreases n,
{
    if n < 10 {
        seq![digit_char(n)]
    } else {
        dec_digits(n / 10).push(digit_char(n % 10))
    }
}

/// The decimal rendering of a signed value: a `-` sign for negatives,
/// then the digits of the magnitude.
pub open spec fn dec_i8(v: int) -> Seq<char> {
    if v < 0 {
        seq!['-'] + dec_digits(-v)
    } else {
        dec_digits(v)
    }
}

/// The digit string of a nonnegative value is nonempty, consists of digits
/// only, and parses back to the value itself.
pub proof fn lemma_dec_digits_ok(n: int)
    requires
        n >= 0,
    ensures
        dec_digits(n).len() >= 1,
        all_digits(dec_digits(n)),
        digits_val(dec_digits(n)) == n,
    decreases n,
{
    if n < 10 {
        let s = dec_digits(n);
        assert(s == seq![digit_char(n)]);
        assert(s.drop_last() =~= Seq::<char>::empty());
        assert(digits_val(Seq::<char>::empty()) == 0);
        assert(s.last() == digit_char(n));
        assert(digits_val(s) == digits_val(s.drop_last()) * 10 + digit_of(s.last()));
        assert(digit_of(digit_char(n)) == n);
    } else {
        lemma_dec_digits_ok(n / 10);
        let p = dec_digits(n / 10);
        let s = dec_digits(n);
        assert(s == p.push(digit_char(n % 10)));
        assert(s.drop_last() =~= p);
        assert(s.last() == digit_char(n % 10));
        assert(digit_of(digit_char(n % 10)) == n % 10);
        assert(forall|k: int| 0 <= k < s.len() ==> is_digit_char(#[trigger] s[k]));
        assert(digits_val(s) == digits_val(p) * 10 + n % 10);
        assert(n / 10 * 10 + n % 10 == n);
    }
}

/// Round trip: rendering a signed 8-bit value in decimal and parsing the
/// result yields the value again.
pub proof fn lemma_parse_dec_i8(v: int)
    requires
        -128 <= v <= 127,
    ensures
        spec_parse_i8(dec_i8(v)) == Some(v),
{
    if v >= 0 {
        lemma_dec_digits_ok(v);
        let s = dec_i8(v);
        assert(s == dec_digits(v));
        assert(is_digit_char(s[0]));
        assert(s[0] != '-' && s[0] != '+');
    } else {
        lemma_dec_digits_ok(-v);
        let s = dec_i8(v);
        assert(s == seq!['-'] + dec_digits(-v));
        assert(s[0] == '-');
        assert(s.subrange(1, s.len() as int) =~= dec_digits(-v));
    }
}

/// The single-character string for a decimal digit value.
fn digit_str(d: u32) -> (r: &'static str)
    requires
        d < 10,
    ensures
        r@ == seq![digit_char(d as int)],
{
    let r: &'static str = if d == 0 {
        "0"
    } else if d == 1 {
        "1"
    } else if d == 2 {
        "2"
    } else if d == 3 {
        "3"
    } else if d == 4 {
        "4"
    } else if d == 5 {
        "5"
    } else if d == 6 {
        "6"
    } else if d == 7 {
        "7"
    } else if d == 8 {
        "8"
    } else {
        "9"
    };
    proof {
        reveal_strlit("0");
        reveal_strlit("1");
        reveal_strlit("2");
        reveal_strlit("3");
        reveal_strlit("4");
        reveal_strlit("5");
        reveal_strlit("6");
        reveal_strlit("7");
        reveal_strlit("8");
        reveal_strlit("9");
        assert(r@ =~= seq![digit_char(d as int)]);
    }
    r
}

/// Render a signed 8-bit value in decimal, exactly as `dec_i8` describes.
pub fn i8_to_string(v: i8) -> (r: String)
    ensures
        r@ == dec_i8(v as int),
{
    let m: u32 = if v < 0 {
        (-(v as i32)) as u32
    } else {
        v as u32
    };
    let mut r = String::new();
    if v < 0 {
        r.append("-");
        proof {
            reveal_strlit("-");
            assert(r@ =~= seq!['-']);
        }
    }
    if m >= 100 {
        r.append(digit_str(m / 100));
        r.append(digit_str((m / 10) % 10));
        r.append(digit_str(m % 10));
        proof {
            assert(m / 10 / 10 == m / 100) by (nonlinear_arith)
                requires m <= 128;
            assert(dec_digits(m as int) == dec_digits(m as int / 10).push(
                digit_char(m as int % 10)));
            assert(dec_digits(m as int / 10) == dec_digits(m as int / 10 / 10).push(
                digit_char(m as int / 10 % 10)));
            assert(dec_digits(m as int / 100) == seq![digit_char(m as int / 100)]);
            assert(r@ =~= dec_i8(v as int));
        }
    } else if m >= 10 {
        r.append(digit_str(m / 10));
        r.append(digit_str(m % 10));
        proof {
            assert(dec_digits(m as int) == dec_digits(m as int / 10).push(
                digit_char(m as int % 10)));
            assert(dec_digits(m as int / 10) == seq![digit_char(m as int / 10)]);
            assert(r@ =~= dec_i8(v as int));
        }
    } else {
        r.append(digit_str(m));
        proof {
            assert(dec_digits(m as int) == seq![digit_char(m as int)]);
            assert(r@ =~= dec_i8(v as int));
        }
    }
    r
}

} // verus!
