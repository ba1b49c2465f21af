//! Startup configuration: parsing the listening-port value. A port string is
//! accepted exactly when it is a non-empty run of decimal digits, after an
//! optional leading plus sign, whose value fits a 16-bit unsigned integer;
//! anything else must keep the server from starting.
use vstd::prelude::*;

verus! {

/// Whether a character is a decimal digit.
pub open spec fn is_decimal_digit(c: char) -> bool {
    48 <= c as int && c as int <= 57
}

/// The numeric value of a decimal digit character.
pub open spec fn digit_value(c: char) -> int {
    c as int - 48
}

/// The value of a digit run read in base ten.
pub open spec fn digits_value(s: Seq<char>) -> int
    decreases s.len(),
{
    if s.len() == 0 {
        0
    } else {
        digits_value(s.drop_last()) * 10 + digit_value(s.last())
    }
}

/// Whether every character of the run is a decimal digit.
pub open spec fn all_digits(s: Seq<char>) -> bool {
    forall|i: int| 0 <= i < s.len() ==> is_decimal_digit(s[i])
}

/// The digit run of a port string: the whole string, or what follows a
/// leading plus sign.
pub open spec fn port_digits(s: Seq<char>) -> Seq<char> {
    if s.len() > 0 && s[0] == '+' {
        s.drop_first()
    } else {
        s
    }
}

/// Whether a string is a valid port: its digit run is non-empty, all digits,
/// and its value is at most 65535.
pub open spec fn valid_port_str(s: Seq<char>) -> bool {
    &&& port_digits(s).len() > 0
    &&& all_digits(port_digits(s))
    &&& digits_value(port_digits(s)) <= 65535
}

/// The numeric value of a valid port string.
pub open spec fn port_value(s: Seq<char>) -> int {
    digits_value(port_digits(s))
}

/// Reading one more digit multiplies the value by ten and adds that digit.
proof fn lemma_digits_value_take_one_more(s: Seq<char>, k: int)
    requires
        0 <= k < s.len(),
    ensures
        digits_value(s.take(k + 1)) == digits_value(s.take(k)) * 10 + digit_value(s[k]),
{
    let t = s.take(k + 1);
    assert(t.drop_last() =~= s.take(k));
    assert(t.last() == s[k]);
}

/// The value of a digit run is never negative.
proof fn lemma_digits_value_nonneg(s: Seq<char>)
    requires
        all_digits(s),
    ensures
        digits_value(s) >= 0,
    decreases s.len(),
{
    if s.len() > 0 {
        assert(all_digits(s.drop_last()));
        lemma_digits_value_nonneg(s.drop_last());
    }
}

/// Reading further digits never shrinks the value: the value of a prefix is
/// at most the value of the whole run.
proof fn lemma_digits_value_take_le(s: Seq<char>, k: int)
    requires
        0 <= k <= s.len(),
        all_digits(s),
    ensures
        digits_value(s.take(k)) <= digits_value(s),
    decreases s.len() - k,
{
    if k == s.len() {
        assert(s.take(k) =~= s);
    } else {
        lemma_digits_value_take_one_more(s, k);
        assert(all_digits(s.take(k)));
        lemma_digits_value_nonneg(s.take(k));
        assert(digits_value(s.take(k)) <= digits_value(s.take(k + 1)));
        lemma_digits_value_take_le(s, k + 1);
    }
}

/// Parses a listening-port value. Returns the port exactly when the string is
/// a valid port; every other string — empty, non-numeric, or out of range —
/// is rejected, so startup on such a value can only fail, never silently
/// default.
pub fn parse_port(s: &str) -> (r: Option<u16>)
    ensures
        r is Some <==> valid_port_str(s@),
        r matches Some(p) ==> p as int == port_value(s@),
{
    let n = s.unicode_len();
    let mut start: usize = 0;
    if n > 0 && s.get_char(0) == '+' {
        start = 1;
    }
    let ghost d = port_digits(s@);
    proof {
        assert(d =~= s@.skip(start as int));
    }
    if start == n {
        // The digit run is empty.
        return None;
    }
    let mut value: u32 = 0;
    let mut i: usize = start;
    while i < n
        invariant
            start <= i <= n,
            n == s@.len(),
            d == port_digits(s@),
            d =~= s@.skip(start as int),
            all_digits(d.take(i - start)),
            value as int == digits_value(d.take(i - start)),
            value <= 65535,
        decreases n - i,
    {
        let c = s.get_char(i);
        let code: u32 = c as u32;
        if code < 48 || code > 57 {
            // A non-digit character: the string is not a valid port.
            proof {
                assert(d[i - start] == s@[i as int]);
                assert(!is_decimal_digit(d[i - start]));
            }
            return None;
        }
        let digit: u32 = code - 48;
        let next: u32 = value * 10 + digit;
        proof {
            lemma_digits_value_take_one_more(d, i - start);
            assert(next as int == digits_value(d.take(i - start + 1)));
        }
        if next > 65535 {
            // The value already exceeds what a 16-bit port can hold; however
            // the string continues, it cannot be valid.
            proof {
                if all_digits(d) {
                    lemma_digits_value_take_le(d, i - start + 1);
                }
            }
            return None;
        }
        value = next;
        proof {
            assert(all_digits(d.take(i - start + 1)));
        }
        i += 1;
    }
    proof {
        assert(d.take(n - start) =~= d);
    }
    Some(value as u16)
}

} // verus!
