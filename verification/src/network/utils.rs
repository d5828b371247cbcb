//! Conversions between the textual and the binary form of a hardware address.
//!
//! The text of an address is six octets of two hexadecimal digits each, with
//! a colon between one octet and the next. Written by this module the digits
//! are lower case; read, they may be of either case.

use crate::device::Address;
use crate::network::error::{EndpointError, ErrorKind, Operation};
use vstd::prelude::*;

verus! {

/// Number of octets in a hardware address.
pub const MAC_ADDR_LEN: usize = 6;

/// Number of characters in the text of a hardware address.
pub const MAC_TEXT_LEN: usize = 17;

/// The sixteen digits, in the case in which they are written.
pub open spec fn hex_digits() -> Seq<char> {
    seq!['0', '1', '2', '3', '4', '5', '6', '7', '8', '9', 'a', 'b', 'c', 'd', 'e', 'f']
}

/// The digit that stands for `n`, for `n` below sixteen.
pub open spec fn hex_char(n: int) -> char
    recommends
        0 <= n < 16,
{
    hex_digits()[n]
}

/// The value of a hexadecimal digit, of either case; `None` for any other
/// character.
pub open spec fn hex_value(c: char) -> Option<u8> {
    if '0' <= c <= '9' {
        Some((c as u8 - '0' as u8) as u8)
    } else if 'a' <= c <= 'f' {
        Some((c as u8 - 'a' as u8 + 10) as u8)
    } else if 'A' <= c <= 'F' {
        Some((c as u8 - 'A' as u8 + 10) as u8)
    } else {
        None
    }
}

/// The text of the address `b`: at every third place a colon, before it the
/// high and the low digit of one octet.
pub open spec fn mac_text(b: Seq<u8>) -> Seq<char>
    recommends
        b.len() == 6,
{
    Seq::new(
        17,
        |i: int|
            if i % 3 == 2 {
                ':'
            } else if i % 3 == 0 {
                hex_char(b[i / 3] as int / 16)
            } else {
                hex_char(b[i / 3] as int % 16)
            },
    )
}

/// Whether the character at place `i` of `s` is what the text of an address
/// has there: a colon at every third place, a digit elsewhere.
pub open spec fn mac_char_ok(s: Seq<char>, i: int) -> bool {
    if i % 3 == 2 {
        s[i] == ':'
    } else {
        hex_value(s[i]) is Some
    }
}

/// Whether `s` is the text of some address.
pub open spec fn is_mac_text(s: Seq<char>) -> bool {
    &&& s.len() == 17
    &&& forall|i: int| 0 <= i < 17 ==> #[trigger] mac_char_ok(s, i)
}

/// The octet that the two digits at place `k` of the text `s` stand for.
pub open spec fn octet_value(s: Seq<char>, k: int) -> u8 {
    (hex_value(s[3 * k])->0 as int * 16 + hex_value(s[3 * k + 1])->0 as int) as u8
}

/// The address that the text `s` stands for.
pub open spec fn mac_bytes(s: Seq<char>) -> Seq<u8>
    recommends
        is_mac_text(s),
{
    Seq::new(6, |k: int| octet_value(s, k))
}

/// Reads one hexadecimal digit.
pub fn hex_digit_value(c: char) -> (r: Option<u8>)
    ensures
        r == hex_value(c),
{
    if '0' <= c && c <= '9' {
        Some(c as u8 - '0' as u8)
    } else if 'a' <= c && c <= 'f' {
        Some(c as u8 - 'a' as u8 + 10)
    } else if 'A' <= c && c <= 'F' {
        Some(c as u8 - 'A' as u8 + 10)
    } else {
        None
    }
}

/// The digit that stands for `n`, as a one-character string.
fn hex_digit_str(n: u8) -> (r: &'static str)
    requires
        n < 16,
    ensures
        r@ == seq![hex_char(n as int)],
{
    proof {
        reveal_strlit("0");
        reveal_strlit("1");
        reveal_strlit("2");
        reveal_strlit("3");
        reveal_strlit("4");
        reveal_strlit("5");
        reveal_strlit("6");
        reveal_strlit("7");
        reveal_strlit("8");
        reveal_strlit("9");
        reveal_strlit("a");
        reveal_strlit("b");
        reveal_strlit("c");
        reveal_strlit("d");
        reveal_strlit("e");
        reveal_strlit("f");
    }
    let r = match n {
        0 => "0",
        1 => "1",
        2 => "2",
        3 => "3",
        4 => "4",
        5 => "5",
        6 => "6",
        7 => "7",
        8 => "8",
        9 => "9",
        10 => "a",
        11 => "b",
        12 => "c",
        13 => "d",
        14 => "e",
        _ => "f",
    };
    assert(r@ =~= seq![hex_char(n as int)]);
    r
}

/// Writes a binary hardware address as text.
///
/// Fails with `InvalidAddress` exactly when `b` is not six octets long.
pub fn format_mac(b: &[u8]) -> (r: Result<String, EndpointError>)
    ensures
        match r {
            Ok(s) => b@.len() == 6 && s@ == mac_text(b@),
            Err(e) => b@.len() != 6 && e.kind == ErrorKind::InvalidAddress && e.context@ == seq![
                Operation::GetMacAddr,
            ],
        },
{
    if b.len() != MAC_ADDR_LEN {
        return Err(EndpointError::new(ErrorKind::InvalidAddress, Operation::GetMacAddr));
    }
    let mut s = String::new();
    let mut k: usize = 0;
    while k < MAC_ADDR_LEN
        invariant
            b@.len() == 6,
            k <= 6,
            s@.len() == (if k == 0 {
                0
            } else {
                3 * k - 1
            }),
            s@ =~= mac_text(b@).subrange(0, s@.len() as int),
        decreases 6 - k,
    {
        if k > 0 {
            proof {
                reveal_strlit(":");
            }
            s.append(":");
        }
        let octet = b[k];
        s.append(hex_digit_str(octet / 16));
        s.append(hex_digit_str(octet % 16));
        k += 1;
    }
    assert(s@ =~= mac_text(b@));
    Ok(s)
}

/// Reads the octet that stands at place `k` of an address text.
fn octet_at(text: &str, k: usize) -> (r: Option<u8>)
    requires
        text@.len() == 17,
        k < 6,
    ensures
        r is Some <==> hex_value(text@[3 * k]) is Some && hex_value(text@[3 * k + 1]) is Some,
        r is Some ==> r->0 == octet_value(text@, k as int),
{
    let high = hex_digit_value(text.get_char(3 * k));
    let low = hex_digit_value(text.get_char(3 * k + 1));
    match (high, low) {
        (Some(h), Some(l)) => Some(h * 16 + l),
        _ => None,
    }
}

/// Reads a hardware address from text.
///
/// Succeeds exactly on six octets of two hexadecimal digits each with a
/// colon between them, and fails with `InvalidAddress` on anything else.
pub fn parse_mac(text: &str) -> (r: Result<Address, EndpointError>)
    ensures
        match r {
            Ok(a) => is_mac_text(text@) && a@ == mac_bytes(text@),
            Err(e) => !is_mac_text(text@) && e.kind == ErrorKind::InvalidAddress && e.context@
                == seq![Operation::ParseMacAddress],
        },
{
    if text.unicode_len() != MAC_TEXT_LEN {
        return Err(EndpointError::new(ErrorKind::InvalidAddress, Operation::ParseMacAddress));
    }
    let mut octets: Vec<u8> = Vec::new();
    let mut k: usize = 0;
    while k < MAC_ADDR_LEN
        invariant
            text@.len() == 17,
            k <= 6,
            octets@.len() == k,
            forall|i: int| 0 <= i < 3 * k - 1 ==> #[trigger] mac_char_ok(text@, i),
            forall|j: int| 0 <= j < k ==> octets@[j] == octet_value(text@, j),
        decreases 6 - k,
    {
        if k > 0 && text.get_char(3 * k - 1) != ':' {
            assert(!mac_char_ok(text@, 3 * k - 1));
            return Err(EndpointError::new(ErrorKind::InvalidAddress, Operation::ParseMacAddress));
        }
        match octet_at(text, k) {
            Some(octet) => {
                octets.push(octet);
            },
            None => {
                assert(!mac_char_ok(text@, 3 * k) || !mac_char_ok(text@, 3 * k + 1));
                return Err(
                    EndpointError::new(ErrorKind::InvalidAddress, Operation::ParseMacAddress),
                );
            },
        }
        assert(mac_char_ok(text@, 3 * k as int));
        assert(mac_char_ok(text@, 3 * k + 1));
        k += 1;
    }
    let address = Address([octets[0], octets[1], octets[2], octets[3], octets[4], octets[5]]);
    assert(address@ =~= mac_bytes(text@));
    Ok(address)
}

/// The value of the digit that stands for `n` is `n`.
pub proof fn lemma_hex_value_of_hex_char(n: int)
    requires
        0 <= n < 16,
    ensures
        hex_value(hex_char(n)) == Some(n as u8),
{
    assert(hex_digits().len() == 16);
    if n < 4 {
        assert(hex_value(hex_char(n)) == Some(n as u8));
    } else if n < 8 {
        assert(hex_value(hex_char(n)) == Some(n as u8));
    } else if n < 12 {
        assert(hex_value(hex_char(n)) == Some(n as u8));
    } else {
        assert(hex_value(hex_char(n)) == Some(n as u8));
    }
}

/// Reading what was written gives the address back: the text of any six
/// octets is the text of an address, and stands for those octets.
pub proof fn lemma_parse_of_format(b: Seq<u8>)
    requires
        b.len() == 6,
    ensures
        is_mac_text(mac_text(b)),
        mac_bytes(mac_text(b)) == b,
{
    let s = mac_text(b);
    assert forall|i: int| 0 <= i < 17 implies #[trigger] mac_char_ok(s, i) by {
        if i % 3 == 0 {
            lemma_hex_value_of_hex_char(b[i / 3] as int / 16);
        } else if i % 3 == 1 {
            lemma_hex_value_of_hex_char(b[i / 3] as int % 16);
        }
    }
    assert forall|k: int| 0 <= k < 6 implies #[trigger] mac_bytes(s)[k] == b[k] by {
        lemma_hex_value_of_hex_char(b[k] as int / 16);
        lemma_hex_value_of_hex_char(b[k] as int % 16);
        assert((3 * k) % 3 == 0 && (3 * k) / 3 == k);
        assert((3 * k + 1) % 3 == 1 && (3 * k + 1) / 3 == k);
    }
    assert(mac_bytes(s) =~= b);
}

/// A text is not that of an address exactly when its length is wrong, or a
/// separator is not a colon, or a digit is not hexadecimal.
pub proof fn lemma_malformed_text(s: Seq<char>)
    ensures
        !is_mac_text(s) <==> {
            ||| s.len() != 17
            ||| exists|i: int| 0 <= i < 17 && i % 3 == 2 && #[trigger] s[i] != ':'
            ||| exists|i: int| 0 <= i < 17 && i % 3 != 2 && hex_value(#[trigger] s[i]) is None
        },
{
    if s.len() == 17 {
        if !is_mac_text(s) {
            let i = choose|i: int| 0 <= i < 17 && !#[trigger] mac_char_ok(s, i);
            if i % 3 == 2 {
                assert(s[i] != ':');
            } else {
                assert(hex_value(s[i]) is None);
            }
        }
        if exists|i: int| 0 <= i < 17 && i % 3 == 2 && #[trigger] s[i] != ':' {
            let i = choose|i: int| 0 <= i < 17 && i % 3 == 2 && #[trigger] s[i] != ':';
            assert(!mac_char_ok(s, i));
        }
        if exists|i: int| 0 <= i < 17 && i % 3 != 2 && hex_value(#[trigger] s[i]) is None {
            let i = choose|i: int| 0 <= i < 17 && i % 3 != 2 && hex_value(#[trigger] s[i]) is None;
            assert(!mac_char_ok(s, i));
        }
    }
}

} // verus!
