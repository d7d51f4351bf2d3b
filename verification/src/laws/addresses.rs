//! What holds of addresses, however they are written.

use vstd::prelude::*;

use crate::address::{
    address_from_le_bytes, address_text, colon_separated, fmt_bt_addr, hex_digits, hex_number,
    is_hex, octets, parse_bt_addr,
};
use crate::laws::texts::is_upper_digit;

verus! {

/// What a character stands for as a hexadecimal digit, or -1 if it is none.
pub open spec fn digit_of(c: char) -> int {
    let n = c as int;
    if 48 <= n <= 57 {
        n - 48
    } else if 65 <= n <= 70 {
        n - 55
    } else if 97 <= n <= 102 {
        n - 87
    } else {
        -1
    }
}

/// The hexadecimal digits in a text, in order.
pub open spec fn digits_in(s: Seq<char>) -> Seq<char> {
    s.filter(|c: char| digit_of(c) >= 0)
}

/// The number that twelve digits stand for.
pub open spec fn twelve_digits(d: Seq<char>) -> int {
    digit_of(d[0]) * 0x1000_0000_0000 + digit_of(d[1]) * 0x100_0000_0000 + digit_of(d[2])
        * 0x10_0000_0000 + digit_of(d[3]) * 0x1_0000_0000 + digit_of(d[4]) * 0x1000_0000 + digit_of(
        d[5],
    ) * 0x100_0000 + digit_of(d[6]) * 0x10_0000 + digit_of(d[7]) * 0x1_0000 + digit_of(d[8])
        * 0x1000 + digit_of(d[9]) * 0x100 + digit_of(d[10]) * 0x10 + digit_of(d[11])
}

proof fn lemma_digits_in(s: Seq<char>)
    ensures
        digits_in(s) == hex_digits(s),
        forall|i: int| 0 <= i < digits_in(s).len() ==> is_hex(#[trigger] digits_in(s)[i]),
    decreases s.len(),
{
    reveal(Seq::filter);
    if s.len() > 0 {
        lemma_digits_in(s.drop_last());
    }
}

proof fn lemma_next_digit(d: Seq<char>, n: int)
    requires
        0 <= n < d.len(),
        is_hex(d[n]),
    ensures
        hex_number(d.take(n + 1)) == 16 * hex_number(d.take(n)) + digit_of(d[n]),
        0 <= digit_of(d[n]) < 16,
{
    assert(d.take(n + 1).drop_last() =~= d.take(n));
    assert(d.take(n + 1).last() == d[n]);
}

proof fn lemma_twelve_digits(d: Seq<char>)
    requires
        d.len() == 12,
        forall|i: int| 0 <= i < d.len() ==> is_hex(#[trigger] d[i]),
    ensures
        hex_number(d) == twelve_digits(d),
        0 <= twelve_digits(d) < 0x1_0000_0000_0000,
{
    lemma_next_digit(d, 0);
    lemma_next_digit(d, 1);
    lemma_next_digit(d, 2);
    lemma_next_digit(d, 3);
    lemma_next_digit(d, 4);
    lemma_next_digit(d, 5);
    lemma_next_digit(d, 6);
    lemma_next_digit(d, 7);
    lemma_next_digit(d, 8);
    lemma_next_digit(d, 9);
    lemma_next_digit(d, 10);
    lemma_next_digit(d, 11);
    assert(hex_number(d.take(0)) == 0);
    assert(d.take(12) =~= d);
}

/// Whether a text holds this address: there are twelve hexadecimal digits in it, which stand for it.
pub open spec fn holds_address(s: Seq<char>, a: u64) -> bool {
    digits_in(s).len() == 12 && twelve_digits(digits_in(s)) == a
}

/// The address that a text is read as is the one that it holds.
pub proof fn lemma_parsed_address(s: Seq<char>, a: u64)
    ensures
        crate::address::parsed_address(s) == Some(a) <==> holds_address(s, a),
{
    lemma_digits_in(s);
    if digits_in(s).len() == 12 {
        lemma_twelve_digits(digits_in(s));
    }
}

/// A text holds an address exactly if there are twelve hexadecimal digits in it, of either case
/// and whatever stands between them; it is the number that they stand for.
pub proof fn lemma_address_read(s: &str, r: Option<u64>)
    requires
        call_ensures(parse_bt_addr, (s,), r),
    ensures
        r is Some <==> digits_in(s@).len() == 12,
        r matches Some(a) ==> a as int == twelve_digits(digits_in(s@)),
{
    lemma_digits_in(s@);
    if digits_in(s@).len() == 12 {
        lemma_twelve_digits(digits_in(s@));
    }
}

/// What is no hexadecimal digit does not matter to an address, wherever it stands.
pub proof fn lemma_separators_ignored(
    front: Seq<char>,
    other: char,
    back: Seq<char>,
    with: &str,
    without: &str,
    a: Option<u64>,
    b: Option<u64>,
)
    requires
        digit_of(other) < 0,
        with@ == front.push(other) + back,
        without@ == front + back,
        call_ensures(parse_bt_addr, (with,), a),
        call_ensures(parse_bt_addr, (without,), b),
    ensures
        a == b,
{
    lemma_address_read(with, a);
    lemma_address_read(without, b);
    let keep = |c: char| digit_of(c) >= 0;
    Seq::filter_distributes_over_add(front.push(other), back, keep);
    Seq::filter_distributes_over_add(front, back, keep);
    assert(front.push(other).filter(keep) == front.filter(keep)) by {
        reveal(Seq::filter);
        assert(front.push(other).drop_last() =~= front);
    }
}

/// The byte of an address that is shown at place `i`, the most significant one first.
pub open spec fn shown_byte(addr: int, i: int) -> int {
    if i == 0 {
        addr / 0x100_0000_0000 % 0x100
    } else if i == 1 {
        addr / 0x1_0000_0000 % 0x100
    } else if i == 2 {
        addr / 0x100_0000 % 0x100
    } else if i == 3 {
        addr / 0x1_0000 % 0x100
    } else if i == 4 {
        addr / 0x100 % 0x100
    } else {
        addr % 0x100
    }
}

/// Whether a text shows six bytes: two upper-case digits each, with a colon between neighbours.
pub open spec fn shows_bytes(s: Seq<char>, bytes: Seq<int>) -> bool {
    &&& s.len() == 17
    &&& forall|i: int|
        0 <= i < 6 ==> {
            &&& is_upper_digit(s[3 * i], #[trigger] bytes[i] / 16)
            &&& is_upper_digit(s[3 * i + 1], bytes[i] % 16)
            &&& i < 5 ==> s[3 * i + 2] == ':'
        }
}

proof fn lemma_colon_separated(bytes: Seq<int>)
    requires
        forall|i: int| 0 <= i < bytes.len() ==> 0 <= #[trigger] bytes[i] < 256,
        bytes.len() >= 1,
    ensures
        colon_separated(bytes).len() == 3 * bytes.len() - 1,
        forall|i: int|
            0 <= i < bytes.len() ==> {
                let s = colon_separated(bytes);
                &&& is_upper_digit(s[3 * i], #[trigger] bytes[i] / 16)
                &&& is_upper_digit(s[3 * i + 1], bytes[i] % 16)
                &&& i < bytes.len() - 1 ==> s[3 * i + 2] == ':'
            },
    decreases bytes.len(),
{
    let s = colon_separated(bytes);
    if bytes.len() > 1 {
        let front = bytes.drop_last();
        lemma_colon_separated(front);
        let head = colon_separated(front);
        assert forall|i: int| 0 <= i < bytes.len() implies {
            &&& is_upper_digit(s[3 * i], #[trigger] bytes[i] / 16)
            &&& is_upper_digit(s[3 * i + 1], bytes[i] % 16)
            &&& i < bytes.len() - 1 ==> s[3 * i + 2] == ':'
        } by {
            if i < front.len() {
                assert(front[i] == bytes[i]);
                assert(s[3 * i] == head[3 * i] && s[3 * i + 1] == head[3 * i + 1]);
                if i < front.len() - 1 {
                    assert(s[3 * i + 2] == head[3 * i + 2]);
                }
            }
        }
    }
}

/// The text of an address shows its lower six bytes, the most significant one first.
pub proof fn lemma_address_text_shows(addr: u64)
    ensures
        shows_bytes(address_text(addr), Seq::new(6, |i: int| shown_byte(addr as int, i))),
{
    let bytes = Seq::new(6, |i: int| shown_byte(addr as int, i));
    assert(octets(addr) =~= bytes);
    lemma_colon_separated(bytes);
}

/// An address is shown as its lower six bytes, the most significant one first.
pub proof fn lemma_address_shown(addr: u64, s: String)
    requires
        call_ensures(fmt_bt_addr, (addr,), s),
    ensures
        shows_bytes(s@, Seq::new(6, |i: int| shown_byte(addr as int, i))),
{
    lemma_address_text_shows(addr);
}

/// An address that was put together from bytes is shown as those bytes, the last one first.
pub proof fn lemma_bytes_shown(b: [u8; 6], addr: u64, s: String)
    requires
        call_ensures(address_from_le_bytes, (b,), addr),
        call_ensures(fmt_bt_addr, (addr,), s),
    ensures
        addr < 0x1_0000_0000_0000,
        shows_bytes(s@, Seq::new(6, |i: int| b@[5 - i] as int)),
{
    lemma_address_shown(addr, s);
    let bytes = Seq::new(6, |i: int| b@[5 - i] as int);
    crate::address::lemma_address_of_bytes_text(b@, addr);
    assert(b@.reverse().map_values(|x: u8| x as int) =~= bytes);
    lemma_colon_separated(bytes);
}

/// What is shown of an address reads back as the address.
pub proof fn lemma_shown_address_reads_back(addr: u64, s: String, shown: &str, r: Option<u64>)
    requires
        addr < 0x1_0000_0000_0000,
        call_ensures(fmt_bt_addr, (addr,), s),
        shown@ == s@,
        call_ensures(parse_bt_addr, (shown,), r),
    ensures
        r == Some(addr),
{
    crate::address::lemma_address_roundtrip(addr);
}

} // verus!
