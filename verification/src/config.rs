//! Decimal parsing for bootstrap configuration values.
//!
//! The listen address and port arrive as text; the octets of a dotted quad
//! and the port number are plain decimal numerals with an upper bound. The
//! parsers here accept exactly the non-empty all-digit numerals whose value
//! fits the bound, and return exactly that value.

use vstd::prelude::*;

verus! {

/// The byte is an ASCII decimal digit.
pub open spec fn is_ascii_digit(b: u8) -> bool {
    48 <= b <= 57
}

/// Every byte of the sequence is an ASCII decimal digit.
pub open spec fn all_ascii_digits(s: Seq<u8>) -> bool {
    forall|i: int| 0 <= i < s.len() ==> is_ascii_digit(#[trigger] s[i])
}

/// The value of a sequence of digit bytes read as a decimal numeral.
pub open spec fn decimal_value(s: Seq<u8>) -> int
    decreases s.len(),
{
    if s.len() == 0 {
        0
    } else {
        decimal_value(s.drop_last()) * 10 + (s.last() - 48)
    }
}

/// The sequence is a well-formed decimal numeral for a value up to `max`:
/// non-empty, all digits, and within the bound.
pub open spec fn names_decimal_up_to(s: Seq<u8>, max: int) -> bool {
    s.len() > 0 && all_ascii_digits(s) && decimal_value(s) <= max
}

proof fn lemma_decimal_value_nonneg(s: Seq<u8>)
    requires
        all_ascii_digits(s),
    ensures
        decimal_value(s) >= 0,
    decreases s.len(),
{
    if s.len() > 0 {
        assert(all_ascii_digits(s.drop_last())) by {
            assert forall|i: int| 0 <= i < s.drop_last().len() implies is_ascii_digit(
                #[trigger] s.drop_last()[i],
            ) by {
                assert(s.drop_last()[i] == s[i]);
            }
        }
        lemma_decimal_value_nonneg(s.drop_last());
        assert(is_ascii_digit(s.last()));
    }
}

proof fn lemma_decimal_value_prefix(s: Seq<u8>, i: int)
    requires
        0 <= i <= s.len(),
        all_ascii_digits(s),
    ensures
        decimal_value(s.take(i)) <= decimal_value(s),
    decreases s.len() - i,
{
    if i < s.len() {
        assert(s.take(i + 1).drop_last() =~= s.take(i));
        assert(s.take(i + 1).last() == s[i]);
        assert(all_ascii_digits(s.take(i))) by {
            assert forall|j: int| 0 <= j < s.take(i).len() implies is_ascii_digit(
                #[trigger] s.take(i)[j],
            ) by {
                assert(s.take(i)[j] == s[j]);
            }
        }
        lemma_decimal_value_nonneg(s.take(i));
        assert(is_ascii_digit(s[i]));
        assert(decimal_value(s.take(i)) <= decimal_value(s.take(i + 1)));
        lemma_decimal_value_prefix(s, i + 1);
        assert(s.take(s.len() as int) =~= s);
    } else {
        assert(s.take(i) =~= s);
    }
}

/// Parse a decimal numeral with a cap: returns its value exactly when the
/// bytes name a value up to `max`, and nothing otherwise.
fn parse_decimal(s: &[u8], max: u32) -> (r: Option<u32>)
    requires
        1 <= max <= 65535,
    ensures
        names_decimal_up_to(s@, max as int) ==> (r matches Some(v) && v as int == decimal_value(
            s@,
        )),
        !names_decimal_up_to(s@, max as int) ==> r is None,
{
    if s.len() == 0 {
        return None;
    }
    let ghost gs = s@;
    let mut acc: u32 = 0;
    let mut i: usize = 0;
    while i < s.len()
        invariant
            s@ == gs,
            i <= s@.len(),
            1 <= max <= 65535,
            acc <= max,
            all_ascii_digits(s@.take(i as int)),
            acc as int == decimal_value(s@.take(i as int)),
        decreases s@.len() - i,
    {
        let b = s[i];
        if b < 48 || b > 57 {
            assert(!is_ascii_digit(s@[i as int]));
            return None;
        }
        let d = (b - 48) as u32;
        let next = acc * 10 + d;
        proof {
            assert(s@.take(i as int + 1).drop_last() =~= s@.take(i as int));
            assert(s@.take(i as int + 1).last() == s@[i as int]);
        }
        if next > max {
            proof {
                if all_ascii_digits(s@) {
                    lemma_decimal_value_prefix(s@, i as int + 1);
                }
            }
            return None;
        }
        acc = next;
        i = i + 1;
    }
    proof {
        assert(s@.take(s@.len() as int) =~= s@);
    }
    Some(acc)
}

/// Parse one octet of a dotted-quad address: a decimal numeral up to 255.
pub fn parse_octet(s: &[u8]) -> (r: Option<u8>)
    ensures
        names_decimal_up_to(s@, 255) ==> (r matches Some(v) && v as int == decimal_value(s@)),
        !names_decimal_up_to(s@, 255) ==> r is None,
{
    match parse_decimal(s, 255) {
        Some(v) => Some(v as u8),
        None => None,
    }
}

/// Parse a port number: a decimal numeral up to 65535.
pub fn parse_port(s: &[u8]) -> (r: Option<u16>)
    ensures
        names_decimal_up_to(s@, 65535) ==> (r matches Some(v) && v as int == decimal_value(s@)),
        !names_decimal_up_to(s@, 65535) ==> r is None,
{
    match parse_decimal(s, 65535) {
        Some(v) => Some(v as u16),
        None => None,
    }
}

} // verus!
