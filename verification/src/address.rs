//! Bluetooth device addresses: 48 bits held in a `u64`.

use vstd::prelude::*;
use vstd::string::*;

use crate::text::{char_code, chars_of, hex_byte, hex_char, push_hex_byte};

verus! {

/// Number of hexadecimal digits in an address.
pub const ADDRESS_DIGITS: usize = 12;

/// A hexadecimal digit, in either case.
pub open spec fn is_hex(c: char) -> bool {
    ('0' <= c <= '9') || ('a' <= c <= 'f') || ('A' <= c <= 'F')
}

/// What a hexadecimal digit stands for.
pub open spec fn hex_value(c: char) -> int {
    if c <= '9' {
        c as int - '0' as int
    } else if c <= 'F' {
        c as int - 'A' as int + 10
    } else {
        c as int - 'a' as int + 10
    }
}

/// The number that hexadecimal digits stand for, most significant first.
pub open spec fn hex_number(digits: Seq<char>) -> int
    decreases digits.len(),
{
    if digits.len() == 0 {
        0
    } else {
        16 * hex_number(digits.drop_last()) + hex_value(digits.last())
    }
}

/// The hexadecimal digits among the characters of a text.
pub open spec fn hex_digits(s: Seq<char>) -> Seq<char> {
    s.filter(|c: char| is_hex(c))
}

/// The address that a text holds: its hexadecimal digits, whatever separates them, if there
/// are exactly twelve.
pub open spec fn parsed_address(s: Seq<char>) -> Option<u64> {
    if hex_digits(s).len() == ADDRESS_DIGITS {
        Some(hex_number(hex_digits(s)) as u64)
    } else {
        None
    }
}

pub open spec fn power_of_16(n: nat) -> int
    decreases n,
{
    if n == 0 {
        1
    } else {
        16 * power_of_16((n - 1) as nat)
    }
}

proof fn lemma_hex_number_bound(digits: Seq<char>)
    requires
        forall|i: int| 0 <= i < digits.len() ==> is_hex(#[trigger] digits[i]),
    ensures
        0 <= hex_number(digits) < power_of_16(digits.len()),
    decreases digits.len(),
{
    if digits.len() > 0 {
        assert forall|i: int| 0 <= i < digits.drop_last().len() implies is_hex(
            #[trigger] digits.drop_last()[i],
        ) by {
            assert(is_hex(digits[i]));
        }
        lemma_hex_number_bound(digits.drop_last());
        assert(is_hex(digits.last()));
    }
}

proof fn lemma_hex_digits_push(s: Seq<char>, c: char)
    ensures
        hex_digits(s.push(c)) == if is_hex(c) {
            hex_digits(s).push(c)
        } else {
            hex_digits(s)
        },
{
    reveal(Seq::filter);
    assert(s.push(c).drop_last() == s);
}

proof fn lemma_hex_digits_add(a: Seq<char>, b: Seq<char>)
    ensures
        hex_digits(a + b) == hex_digits(a) + hex_digits(b),
{
    Seq::filter_distributes_over_add(a, b, |c: char| is_hex(c));
}

proof fn lemma_hex_digits_are_hex(s: Seq<char>)
    ensures
        forall|i: int| 0 <= i < hex_digits(s).len() ==> is_hex(#[trigger] hex_digits(s)[i]),
{
    assert forall|i: int| 0 <= i < hex_digits(s).len() implies is_hex(
        #[trigger] hex_digits(s)[i],
    ) by {
        s.lemma_filter_pred(|c: char| is_hex(c), i);
    }
}

/// The value of a hexadecimal digit, or nothing for any other character.
fn digit_value(c: char) -> (d: Option<u64>)
    ensures
        d is Some <==> is_hex(c),
        d matches Some(v) ==> v == hex_value(c) && v < 16,
{
    let n: u32 = char_code(c);
    if 48 <= n && n <= 57 {
        Some((n - 48) as u64)
    } else if 65 <= n && n <= 70 {
        Some((n - 55) as u64)
    } else if 97 <= n && n <= 102 {
        Some((n - 87) as u64)
    } else {
        None
    }
}

/// Reads an address such as `aa:bb:cc:dd:ee:ff` or `AABBCCDDEEFF`. Whatever is not a
/// hexadecimal digit is passed over; any other number of digits than twelve is no address.
pub fn parse_bt_addr(s: &str) -> (r: Option<u64>)
    ensures
        r == parsed_address(s@),
        r matches Some(a) ==> a < 0x1_0000_0000_0000,
{
    let text = chars_of(s);
    let mut count: usize = 0;
    let mut value: u64 = 0;
    let mut i: usize = 0;
    proof {
        reveal(Seq::filter);
        assert(power_of_16(12) == 0x1_0000_0000_0000) by {
            reveal_with_fuel(power_of_16, 13);
        }
    }
    while i < text.len()
        invariant
            text@ == s@,
            i <= text.len(),
            count <= ADDRESS_DIGITS,
            count == hex_digits(s@.take(i as int)).len(),
            value == hex_number(hex_digits(s@.take(i as int))),
            value < 0x1_0000_0000_0000,
            power_of_16(12) == 0x1_0000_0000_0000,
        decreases text.len() - i,
    {
        let c: char = text[i];
        assert(s@.take(i + 1) == s@.take(i as int).push(c));
        proof {
            lemma_hex_digits_push(s@.take(i as int), c);
            lemma_hex_digits_add(s@.take(i + 1), s@.skip(i + 1));
            assert(s@.take(i + 1) + s@.skip(i + 1) == s@);
            lemma_hex_digits_are_hex(s@.take(i + 1));
            lemma_hex_number_bound(hex_digits(s@.take(i + 1)));
        }
        if let Some(d) = digit_value(c) {
            if count == ADDRESS_DIGITS {
                return None;
            }
            proof {
                let before = hex_digits(s@.take(i as int));
                assert(before.push(c).drop_last() == before);
                lemma_power_of_16_monotonic((count + 1) as nat, 12);
            }
            value = value * 16 + d;
            count += 1;
        }
        i += 1;
    }
    assert(s@.take(i as int) == s@);
    if count == ADDRESS_DIGITS {
        Some(value)
    } else {
        None
    }
}

proof fn lemma_power_of_16_monotonic(m: nat, n: nat)
    requires
        m <= n,
    ensures
        0 < power_of_16(m) <= power_of_16(n),
    decreases n,
{
    if m < n {
        lemma_power_of_16_monotonic(m, (n - 1) as nat);
    } else if m > 0 {
        lemma_power_of_16_monotonic((m - 1) as nat, (m - 1) as nat);
    }
}

/// The six bytes of an address, most significant first.
pub open spec fn octets(addr: u64) -> Seq<int> {
    let a = addr as int;
    seq![
        a / 0x100_0000_0000 % 0x100,
        a / 0x1_0000_0000 % 0x100,
        a / 0x100_0000 % 0x100,
        a / 0x1_0000 % 0x100,
        a / 0x100 % 0x100,
        a % 0x100,
    ]
}

/// The hexadecimal bytes, two digits each, with a colon between neighbours.
pub open spec fn colon_separated(bytes: Seq<int>) -> Seq<char>
    decreases bytes.len(),
{
    if bytes.len() == 0 {
        Seq::empty()
    } else if bytes.len() == 1 {
        hex_byte(bytes[0])
    } else {
        colon_separated(bytes.drop_last()) + seq![':'] + hex_byte(bytes.last())
    }
}

/// How an address is shown: `AA:BB:CC:DD:EE:FF`, of its lower 48 bits.
pub open spec fn address_text(addr: u64) -> Seq<char> {
    colon_separated(octets(addr))
}

proof fn lemma_octet_shifts(addr: u64)
    ensures
        (addr >> 40u64) & 0xff == octets(addr)[0],
        (addr >> 32u64) & 0xff == octets(addr)[1],
        (addr >> 24u64) & 0xff == octets(addr)[2],
        (addr >> 16u64) & 0xff == octets(addr)[3],
        (addr >> 8u64) & 0xff == octets(addr)[4],
        addr & 0xff == octets(addr)[5],
{
    assert((addr >> 40u64) & 0xff == addr / 0x100_0000_0000 % 0x100) by (bit_vector);
    assert((addr >> 32u64) & 0xff == addr / 0x1_0000_0000 % 0x100) by (bit_vector);
    assert((addr >> 24u64) & 0xff == addr / 0x100_0000 % 0x100) by (bit_vector);
    assert((addr >> 16u64) & 0xff == addr / 0x1_0000 % 0x100) by (bit_vector);
    assert((addr >> 8u64) & 0xff == addr / 0x100 % 0x100) by (bit_vector);
    assert(addr & 0xff == addr % 0x100) by (bit_vector);
}

/// Writes an address as six hexadecimal bytes with colons between them.
pub fn fmt_bt_addr(addr: u64) -> (s: String)
    ensures
        s@ == address_text(addr),
{
    let bytes: [u64; 6] = [
        (addr >> 40) & 0xff,
        (addr >> 32) & 0xff,
        (addr >> 24) & 0xff,
        (addr >> 16) & 0xff,
        (addr >> 8) & 0xff,
        addr & 0xff,
    ];
    proof {
        lemma_octet_shifts(addr);
        reveal_strlit(":");
    }
    let mut s = String::new();
    push_hex_byte(&mut s, bytes[0] as u8);
    assert(octets(addr).take(1) == seq![octets(addr)[0]]);
    assert(s@ == colon_separated(octets(addr).take(1)));
    let mut i: usize = 1;
    while i < 6
        invariant
            1 <= i <= 6,
            ":"@ == seq![':'],
            forall|k: int| 0 <= k < 6 ==> #[trigger] bytes@[k] == octets(addr)[k],
            s@ == colon_separated(octets(addr).take(i as int)),
        decreases 6 - i,
    {
        s.append(":");
        push_hex_byte(&mut s, bytes[i] as u8);
        assert(octets(addr).take(i + 1).drop_last() == octets(addr).take(i as int));
        i += 1;
    }
    assert(octets(addr).take(6) == octets(addr));
    s
}

proof fn lemma_hex_char_roundtrip(d: int)
    requires
        0 <= d < 16,
    ensures
        is_hex(hex_char(d)),
        hex_value(hex_char(d)) == d,
{
}

proof fn lemma_hex_digits_of_byte(b: int)
    requires
        0 <= b < 256,
    ensures
        hex_digits(hex_byte(b)) == hex_byte(b),
{
    lemma_hex_char_roundtrip(b / 16);
    lemma_hex_char_roundtrip(b % 16);
    let none = Seq::<char>::empty();
    lemma_hex_digits_push(none, hex_char(b / 16));
    lemma_hex_digits_push(none.push(hex_char(b / 16)), hex_char(b % 16));
    assert(none.push(hex_char(b / 16)).push(hex_char(b % 16)) == hex_byte(b));
    assert(hex_digits(none) == none) by {
        reveal(Seq::filter);
    }
}

/// The number that bytes stand for, most significant first.
pub open spec fn byte_number(bytes: Seq<int>) -> int
    decreases bytes.len(),
{
    if bytes.len() == 0 {
        0
    } else {
        256 * byte_number(bytes.drop_last()) + bytes.last()
    }
}

proof fn lemma_hex_number_push_byte(digits: Seq<char>, b: int)
    requires
        0 <= b < 256,
    ensures
        hex_number(digits + hex_byte(b)) == 256 * hex_number(digits) + b,
{
    lemma_hex_char_roundtrip(b / 16);
    lemma_hex_char_roundtrip(b % 16);
    let once = digits.push(hex_char(b / 16));
    let twice = once.push(hex_char(b % 16));
    assert(digits + hex_byte(b) == twice);
    assert(twice.drop_last() == once);
    assert(once.drop_last() == digits);
    assert(hex_number(once) == 16 * hex_number(digits) + b / 16);
    assert(hex_number(twice) == 16 * hex_number(once) + b % 16);
}

proof fn lemma_colon_separated_digits(bytes: Seq<int>)
    requires
        forall|i: int| 0 <= i < bytes.len() ==> 0 <= #[trigger] bytes[i] < 256,
    ensures
        hex_digits(colon_separated(bytes)).len() == 2 * bytes.len(),
        hex_number(hex_digits(colon_separated(bytes))) == byte_number(bytes),
    decreases bytes.len(),
{
    if bytes.len() == 0 {
        reveal(Seq::filter);
    } else if bytes.len() == 1 {
        lemma_hex_digits_of_byte(bytes[0]);
        lemma_hex_number_push_byte(Seq::empty(), bytes[0]);
        assert(Seq::<char>::empty() + hex_byte(bytes[0]) == hex_byte(bytes[0]));
        assert(byte_number(bytes.drop_last()) == 0);
    } else {
        let front = bytes.drop_last();
        let head = colon_separated(front);
        let colon = seq![':'];
        let b = bytes.last();
        lemma_colon_separated_digits(front);
        lemma_hex_digits_add(head + colon, hex_byte(b));
        lemma_hex_digits_add(head, colon);
        lemma_hex_digits_of_byte(b);
        assert(hex_digits(colon) == Seq::<char>::empty()) by {
            reveal(Seq::filter);
            lemma_hex_digits_push(Seq::empty(), ':');
            assert(Seq::<char>::empty().push(':') == colon);
        }
        assert(hex_digits(head) + Seq::<char>::empty() == hex_digits(head));
        lemma_hex_number_push_byte(hex_digits(head), b);
    }
}

proof fn lemma_octets_number(addr: u64)
    ensures
        byte_number(octets(addr)) == addr as int % 0x1_0000_0000_0000,
{
    let o = octets(addr);
    assert(byte_number(o) == ((((o[0] * 256 + o[1]) * 256 + o[2]) * 256 + o[3]) * 256 + o[4]) * 256
        + o[5]) by {
        assert(o.drop_last() =~= o.take(5));
        assert(o.take(5).drop_last() =~= o.take(4));
        assert(o.take(4).drop_last() =~= o.take(3));
        assert(o.take(3).drop_last() =~= o.take(2));
        assert(o.take(2).drop_last() =~= o.take(1));
        assert(o.take(1).drop_last() =~= o.take(0));
        reveal_with_fuel(byte_number, 7);
    }
    let a = addr as int;
    let q1 = a / 0x100;
    let q2 = q1 / 0x100;
    let q3 = q2 / 0x100;
    let q4 = q3 / 0x100;
    let q5 = q4 / 0x100;
    let q6 = q5 / 0x100;
    assert(q2 == a / 0x1_0000 && q3 == a / 0x100_0000 && q4 == a / 0x1_0000_0000 && q5 == a
        / 0x100_0000_0000 && q6 == a / 0x1_0000_0000_0000);
}

/// Reading back the text of an address gives the address, of which the text shows the lower
/// 48 bits.
pub proof fn lemma_address_roundtrip(addr: u64)
    ensures
        parsed_address(address_text(addr)) == Some((addr % 0x1_0000_0000_0000) as u64),
        addr < 0x1_0000_0000_0000 ==> parsed_address(address_text(addr)) == Some(addr),
{
    lemma_colon_separated_digits(octets(addr));
    lemma_octets_number(addr);
}

/// Different 48-bit addresses are shown differently.
pub proof fn lemma_address_text_injective(a: u64, b: u64)
    requires
        a < 0x1_0000_0000_0000,
        b < 0x1_0000_0000_0000,
        address_text(a) == address_text(b),
    ensures
        a == b,
{
    lemma_address_roundtrip(a);
    lemma_address_roundtrip(b);
}

/// The number that six bytes stand for, least significant first.
pub open spec fn le_number(b: Seq<u8>) -> int {
    b[0] + 0x100 * b[1] + 0x1_0000 * b[2] + 0x100_0000 * b[3] + 0x1_0000_0000 * b[4]
        + 0x100_0000_0000 * b[5]
}

/// Puts together an address from its bytes, least significant first.
pub fn address_from_le_bytes(b: [u8; 6]) -> (addr: u64)
    ensures
        addr == le_number(b@),
        addr < 0x1_0000_0000_0000,
{
    let (b0, b1, b2, b3, b4, b5) = (b[0], b[1], b[2], b[3], b[4], b[5]);
    assert(((b5 as u64) << 40 | (b4 as u64) << 32 | (b3 as u64) << 24 | (b2 as u64) << 16 | (
    b1 as u64) << 8 | (b0 as u64)) == b0 + 0x100 * b1 + 0x1_0000 * b2 + 0x100_0000 * b3
        + 0x1_0000_0000 * b4 + 0x100_0000_0000 * b5) by (bit_vector);
    (b5 as u64) << 40 | (b4 as u64) << 32 | (b3 as u64) << 24 | (b2 as u64) << 16 | (b1 as u64)
        << 8 | (b0 as u64)
}

/// An address that was put together from bytes is shown as those bytes, the last one first.
pub proof fn lemma_address_of_bytes_text(b: Seq<u8>, addr: u64)
    requires
        b.len() == 6,
        addr == le_number(b),
    ensures
        address_text(addr) == colon_separated(b.reverse().map_values(|x: u8| x as int)),
{
    let (b0, b1, b2, b3, b4, b5) = (b[0], b[1], b[2], b[3], b[4], b[5]);
    let a = (b0 + 0x100 * b1 + 0x1_0000 * b2 + 0x100_0000 * b3 + 0x1_0000_0000 * b4
        + 0x100_0000_0000 * b5) as u64;
    assert(a / 0x100_0000_0000 % 0x100 == b5 && a / 0x1_0000_0000 % 0x100 == b4 && a / 0x100_0000
        % 0x100 == b3 && a / 0x1_0000 % 0x100 == b2 && a / 0x100 % 0x100 == b1 && a % 0x100 == b0)
        by (bit_vector)
        requires
            a == b0 + 0x100 * b1 + 0x1_0000 * b2 + 0x100_0000 * b3 + 0x1_0000_0000 * b4
                + 0x100_0000_0000 * b5,
    ;
    assert(a == addr);
    assert(octets(addr) =~= b.reverse().map_values(|x: u8| x as int));
}

} // verus!
