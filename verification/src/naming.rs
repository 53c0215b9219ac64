//! Display names and payload descriptors.
//!
//! Byte submissions are tracked under a synthetic descriptor that carries the
//! payload length; file submissions without a caller-chosen name fall back to
//! a fresh random identifier.

use vstd::prelude::*;

use crate::media::media_type_of;
use crate::text::is_prefix_of;

verus! {

/// The decimal digit characters.
pub open spec fn digit_char(d: int) -> char {
    if d == 0 {
        '0'
    } else if d == 1 {
        '1'
    } else if d == 2 {
        '2'
    } else if d == 3 {
        '3'
    } else if d == 4 {
        '4'
    } else if d == 5 {
        '5'
    } else if d == 6 {
        '6'
    } else if d == 7 {
        '7'
    } else if d == 8 {
        '8'
    } else {
        '9'
    }
}

/// The usual decimal rendering of a non-negative integer.
pub open spec fn decimal_of(n: int) -> Seq<char>
    decreases n,
{
    if n < 10 {
        seq![digit_char(n)]
    } else {
        decimal_of(n / 10).push(digit_char(n % 10))
    }
}

/// Render `n` in decimal.
pub fn u64_to_decimal(n: u64) -> (r: String)
    ensures
        r@ == decimal_of(n as int),
    decreases n,
{
    let digit: &str = match n % 10 {
        0 => "0",
        1 => "1",
        2 => "2",
        3 => "3",
        4 => "4",
        5 => "5",
        6 => "6",
        7 => "7",
        8 => "8",
        _ => "9",
    };
    proof {
        reveal_strlit("0");
        reveal_strlit("1");
        reveal_strlit("2");
        reveal_strlit("3");
        reveal_strlit("4");
        reveal_strlit("5");
        reveal_strlit("6");
        reveal_strlit("7");
        reveal_strlit("8");
        reveal_strlit("9");
        assert(digit@ =~= seq![digit_char(n as int % 10)]);
    }
    if n < 10 {
        String::from_str(digit)
    } else {
        let mut s = u64_to_decimal(n / 10);
        s.append(digit);
        proof {
            assert(s@ =~= decimal_of(n as int));
        }
        s
    }
}

/// The descriptor under which a byte payload of `len` bytes is tracked.
pub open spec fn bytes_descriptor(len: int) -> Seq<char> {
    "<bytes:"@ + decimal_of(len) + " bytes>"@
}

/// The raw-bytes descriptor always classifies as the raw media type.
pub proof fn lemma_bytes_descriptor_is_raw(len: int)
    ensures
        media_type_of(bytes_descriptor(len)) == "application/vnd.cups-raw"@,
{
    assert(bytes_descriptor(len).subrange(0, "<bytes:"@.len() as int) =~= "<bytes:"@);
    assert(is_prefix_of("<bytes:"@, bytes_descriptor(len)));
}

/// Build the tracking descriptor for a byte payload.
pub fn make_bytes_descriptor(len: usize) -> (r: String)
    ensures
        r@ == bytes_descriptor(len as int),
{
    let mut s = String::from_str("<bytes:");
    let num = u64_to_decimal(len as u64);
    s.append(num.as_str());
    s.append(" bytes>");
    proof {
        assert(s@ =~= bytes_descriptor(len as int));
    }
    s
}

/// Relies on `uuid::Uuid::new_v4` and its `simple` formatter: a fresh random
/// version-4 identifier rendered as exactly 32 hexadecimal characters. The
/// value is random, so nothing is promised beyond its length.
#[verifier::external_body]
pub fn fresh_job_name() -> (r: String)
    ensures
        r@.len() == 32,
{
    uuid::Uuid::new_v4().simple().to_string()
}

} // verus!
