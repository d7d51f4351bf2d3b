//! What holds of numbers, texts and words, whatever they are written from.

use vstd::prelude::*;

use crate::bt::{DeviceKind, RadioState};
use crate::clock::Span;
use crate::labels::{
    bar_fill, bar_level, choose_fill, cod_label, kind_label, may_come_of, radio_label,
    radio_label_colored, rssi_text_with_age, Rgb, Rgba,
};
use crate::text::{
    chars_of, decimal, decimal_text, hex_char, push_hex_byte, signed_decimal, signed_decimal_text,
    starts_with, text_le, text_not_after, utf16_text,
};

verus! {

/// The number that decimal digits stand for.
pub open spec fn numeral_value(s: Seq<char>) -> int
    decreases s.len(),
{
    if s.len() == 0 {
        0
    } else {
        10 * numeral_value(s.drop_last()) + (s.last() as int - 48)
    }
}

/// Whether `s` is how a natural number is written: digits that stand for it, and no zero in front
/// of others.
pub open spec fn is_numeral(s: Seq<char>, n: int) -> bool {
    &&& s.len() >= 1
    &&& forall|i: int| 0 <= i < s.len() ==> 48 <= (#[trigger] s[i]) as int <= 57
    &&& s.len() > 1 ==> s[0] != '0'
    &&& numeral_value(s) == n
}

/// Whether `s` is how an integer is written.
pub open spec fn is_signed_numeral(s: Seq<char>, i: int) -> bool {
    if i < 0 {
        s.len() >= 1 && s[0] == '-' && is_numeral(s.skip(1), -i)
    } else {
        is_numeral(s, i)
    }
}

/// The decimal numeral of a number is how it is written.
pub proof fn lemma_decimal_is_numeral(n: nat)
    ensures
        is_numeral(decimal(n), n as int),
        n > 0 ==> decimal(n)[0] != '0',
    decreases n,
{
    let s = decimal(n);
    if n >= 10 {
        lemma_decimal_is_numeral(n / 10);
        let front = decimal(n / 10);
        assert(s == front.push(hex_char((n % 10) as int)));
        assert(s.drop_last() =~= front);
        assert forall|i: int| 0 <= i < s.len() implies 48 <= (#[trigger] s[i]) as int <= 57 by {
            if i < front.len() {
                assert(s[i] == front[i]);
            }
        }
    } else {
        assert(numeral_value(s.drop_last()) == 0);
    }
}

/// The decimal numeral of an integer is how it is written.
pub proof fn lemma_signed_decimal_is_numeral(i: int)
    ensures
        is_signed_numeral(signed_decimal(i), i),
{
    if i < 0 {
        lemma_decimal_is_numeral((-i) as nat);
        assert(signed_decimal(i).skip(1) =~= decimal((-i) as nat));
    } else {
        lemma_decimal_is_numeral(i as nat);
    }
}

/// A natural number is written in digits that stand for it.
pub proof fn lemma_number_written(n: u64, s: String)
    requires
        call_ensures(decimal_text, (n,), s),
    ensures
        is_numeral(s@, n as int),
{
    lemma_decimal_is_numeral(n as nat);
}

/// An integer is written in digits that stand for it, with a minus in front where it is negative.
pub proof fn lemma_integer_written(i: i32, s: String)
    requires
        call_ensures(signed_decimal_text, (i,), s),
    ensures
        is_signed_numeral(s@, i as int),
{
    lemma_signed_decimal_is_numeral(i as int);
}

/// Whether `c` is the upper-case hexadecimal digit for `n`.
pub open spec fn is_upper_digit(c: char, n: int) -> bool {
    if n < 10 {
        c as int == 48 + n
    } else {
        c as int == 55 + n
    }
}

/// A byte is written in two upper-case hexadecimal digits behind what is there.
pub proof fn lemma_byte_written(s: &mut String, b: u8)
    requires
        call_ensures(push_hex_byte, (s, b), ()),
    ensures
        final(s)@.len() == old(s)@.len() + 2,
        final(s)@.take(old(s)@.len() as int) == old(s)@,
        is_upper_digit(final(s)@[old(s)@.len() as int], b as int / 16),
        is_upper_digit(final(s)@[old(s)@.len() as int + 1], b as int % 16),
{
    assert(final(s)@.take(old(s)@.len() as int) =~= old(s)@);
}

/// A text begins with another exactly if it is that other one and something more.
pub proof fn lemma_prefix(s: &str, prefix: &str, r: bool)
    requires
        call_ensures(starts_with, (s, prefix), r),
    ensures
        r <==> exists|rest: Seq<char>| s@ == prefix@ + rest,
{
    let n = prefix@.len() as int;
    if r {
        assert(s@ =~= prefix@ + s@.skip(n));
    }
    if exists|rest: Seq<char>| s@ == prefix@ + rest {
        assert(s@.take(n) =~= prefix@);
    }
}

proof fn lemma_order_at_difference(a: Seq<char>, b: Seq<char>, n: int)
    requires
        0 <= n <= a.len(),
        n <= b.len(),
        a.take(n) == b.take(n),
    ensures
        n == a.len() ==> text_le(a, b),
        n < a.len() && n == b.len() ==> !text_le(a, b),
        n < a.len() && n < b.len() && a[n] != b[n] ==> text_le(a, b) == ((a[n] as int) < (
        b[n] as int)),
    decreases n,
{
    if n > 0 {
        assert(a[0] == a.take(n)[0] && b[0] == b.take(n)[0]);
        assert(a.drop_first().take(n - 1) =~= a.take(n).drop_first());
        assert(b.drop_first().take(n - 1) =~= b.take(n).drop_first());
        lemma_order_at_difference(a.drop_first(), b.drop_first(), n - 1);
    }
}

/// Texts are ordered by the first character in which they differ, and a text stands before every
/// longer one that begins with it.
pub proof fn lemma_text_order(a: Seq<char>, b: Seq<char>, n: int)
    requires
        0 <= n <= a.len(),
        n <= b.len(),
        a.take(n) == b.take(n),
    ensures
        n == a.len() ==> text_le(a, b),
        n < a.len() && n == b.len() ==> !text_le(a, b),
        n < a.len() && n < b.len() && a[n] != b[n] ==> text_le(a, b) == ((a[n] as int) < (
        b[n] as int)),
{
    lemma_order_at_difference(a, b, n);
}

/// The comparison of two texts tells which of them stands first by that order.
pub proof fn lemma_texts_compared(a: Vec<char>, b: Vec<char>, n: int, r: bool)
    requires
        call_ensures(text_not_after, (&a, &b), r),
        0 <= n <= a@.len(),
        n <= b@.len(),
        a@.take(n) == b@.take(n),
    ensures
        n == a@.len() ==> r,
        n < a@.len() && n == b@.len() ==> !r,
        n < a@.len() && n < b@.len() && a@[n] != b@[n] ==> r == ((a@[n] as int) < (b@[n] as int)),
{
    lemma_order_at_difference(a@, b@, n);
}

/// The characters of a text are those of the text.
pub proof fn lemma_characters(s: &str, v: Vec<char>)
    requires
        call_ensures(chars_of, (s,), v),
    ensures
        v@.len() == s@.len(),
        forall|i: int| 0 <= i < s@.len() ==> #[trigger] v@[i] == s@[i],
{
}

/// Code units of UTF-16 that are no halves of pairs stand for one character each.
pub proof fn lemma_utf16_one_for_one(v: Seq<u16>)
    requires
        forall|i: int| 0 <= i < v.len() ==> !(0xD800 <= #[trigger] v[i] <= 0xDFFF),
    ensures
        utf16_text(v).len() == v.len(),
        forall|i: int| 0 <= i < v.len() ==> (#[trigger] utf16_text(v)[i]) as int == v[i] as int,
    decreases v.len(),
{
    if v.len() > 0 {
        let rest = v.skip(1);
        assert forall|i: int| 0 <= i < rest.len() implies !(0xD800 <= #[trigger] rest[i] <= 0xDFFF) by {
            assert(rest[i] == v[i + 1]);
        }
        lemma_utf16_one_for_one(rest);
        assert(!(0xD800 <= v[0] <= 0xDFFF));
        assert forall|i: int| 0 <= i < v.len() implies (#[trigger] utf16_text(v)[i]) as int
            == v[i] as int by {
            if i > 0 {
                assert(utf16_text(v)[i] == utf16_text(rest)[i - 1]);
                assert(rest[i - 1] == v[i]);
            }
        }
    }
}

/// Two halves of a pair stand for one character, a half that stands alone for the replacement
/// character, and what follows is read as if nothing stood before it.
pub proof fn lemma_utf16_pairs(high: u16, low: u16, rest: Seq<u16>)
    requires
        0xD800 <= high <= 0xDBFF,
        0xDC00 <= low <= 0xDFFF,
    ensures
        ({
            let text = utf16_text(seq![high, low] + rest);
            &&& text.len() == 1 + utf16_text(rest).len()
            &&& text[0] as int == 0x10000 + (high - 0xD800) * 0x400 + (low - 0xDC00)
            &&& text.skip(1) == utf16_text(rest)
        }),
        ({
            let text = utf16_text(seq![low] + rest);
            &&& text[0] as int == 0xFFFD
            &&& text.skip(1) == utf16_text(rest)
        }),
        rest.len() == 0 || !(0xDC00 <= rest[0] <= 0xDFFF) ==> {
            let text = utf16_text(seq![high] + rest);
            &&& text[0] as int == 0xFFFD
            &&& text.skip(1) == utf16_text(rest)
        },
{
    let pair = seq![high, low] + rest;
    assert(pair.skip(2) =~= rest);
    assert(utf16_text(pair).skip(1) =~= utf16_text(rest));
    let lone = seq![low] + rest;
    assert(lone.skip(1) =~= rest);
    assert(utf16_text(lone).skip(1) =~= utf16_text(rest));
    let open = seq![high] + rest;
    assert(open.skip(1) =~= rest);
    if rest.len() == 0 || !(0xDC00 <= rest[0] <= 0xDFFF) {
        assert(rest.len() > 0 ==> open[1] == rest[0]);
        assert(utf16_text(open).skip(1) =~= utf16_text(rest));
    }
}

/// The whole seconds in an age, or none where there is no age.
pub open spec fn whole_seconds(age: Option<Span>) -> int {
    match age {
        Some(a) => a.nanos as int / 1_000_000_000,
        None => 0,
    }
}

/// Whether a text tells a signal strength: its number, and from five seconds on its age in whole
/// seconds.
pub open spec fn tells_signal(s: Seq<char>, rssi: Option<i32>, age: Option<Span>) -> bool {
    match rssi {
        Some(v) => exists|number: Seq<char>, secs: Seq<char>|
            {
                &&& #[trigger] is_signed_numeral(number, v as int)
                &&& #[trigger] is_numeral(secs, whole_seconds(age))
                &&& s == if age is Some && age->0.nanos >= 5_000_000_000 {
                    number + " dBm ("@ + secs + "s 前)"@
                } else {
                    number + " dBm"@
                }
            },
        None => s == "-- dBm"@,
    }
}

/// The words for a signal strength tell it.
pub proof fn lemma_rssi_text_tells(rssi: Option<i32>, age: Option<Span>)
    ensures
        tells_signal(crate::labels::rssi_text(rssi, age), rssi, age),
{
    if let Some(v) = rssi {
        lemma_signed_decimal_is_numeral(v as int);
        lemma_decimal_is_numeral(whole_seconds(age) as nat);
        assert(is_signed_numeral(signed_decimal(v as int), v as int));
        assert(is_numeral(decimal(whole_seconds(age) as nat), whole_seconds(age)));
    }
}

/// A signal strength is written as its number, and from five seconds on with its age in whole
/// seconds.
pub proof fn lemma_signal_written(rssi: Option<i32>, age: Option<Span>, s: String)
    requires
        call_ensures(rssi_text_with_age, (rssi, age), s),
    ensures
        tells_signal(s@, rssi, age),
{
    lemma_rssi_text_tells(rssi, age);
}

/// The bar is empty at -100 dBm and below, full at 0 dBm and above, and in between one dBm more is
/// one hundredth more.
pub proof fn lemma_bar_of_signal(a: i32, b: i32, x: u8, y: u8)
    requires
        call_ensures(bar_level, (a,), x),
        call_ensures(bar_level, (b,), y),
    ensures
        a <= -100 ==> x == 0,
        a >= 0 ==> x == 100,
        -100 <= a <= 0 && -100 <= b <= 0 ==> y - x == b - a,
        a <= b ==> x <= y,
{
}

/// The five bits above the lowest eight name the class of a device.
pub proof fn lemma_classes_named(cod: u32, s: &'static str)
    requires
        call_ensures(cod_label, (cod,), s),
    ensures
        ({
            let major = cod as int / 256 % 32;
            &&& major == 1 ==> s@ == "Computer"@
            &&& major == 2 ==> s@ == "Phone"@
            &&& major == 3 ==> s@ == "LAN/Access Point"@
            &&& major == 4 ==> s@ == "Audio/Video"@
            &&& major == 5 ==> s@ == "Peripheral (Mouse/KB)"@
            &&& major == 6 ==> s@ == "Imaging (Printer)"@
            &&& major == 7 ==> s@ == "Wearable"@
            &&& major == 8 ==> s@ == "Toy"@
            &&& major == 9 ==> s@ == "Health"@
            &&& major == 0 || major >= 10 ==> s@ == "Uncategorized"@
        }),
{
}

/// The families are called by their names.
pub proof fn lemma_families_named(k: DeviceKind, s: &'static str)
    requires
        call_ensures(kind_label, (k,), s),
    ensures
        k == DeviceKind::Ble ==> s@ == "BLE"@,
        k == DeviceKind::Classic ==> s@ == "Classic"@,
{
}

/// The states of the radio have names, which do not depend on the background; and colours, which
/// do: one where it is on, one where it is not known, and one wherever it cannot be used.
pub proof fn lemma_radio_named(
    r: RadioState,
    dark: bool,
    plain: &'static str,
    coloured: (&'static str, Rgb),
)
    requires
        call_ensures(radio_label, (r,), plain),
        call_ensures(radio_label_colored, (r, dark), coloured),
    ensures
        coloured.0@ == plain@,
        r == RadioState::On ==> plain@ == "ON"@,
        r == RadioState::Off ==> plain@ == "OFF"@,
        r == RadioState::Disabled ==> plain@ == "無効"@,
        r == RadioState::Absent ==> plain@ == "無し"@,
        r == RadioState::Unknown ==> plain@ == "?"@,
        r == RadioState::On && dark ==> coloured.1 == (Rgb { r: 120, g: 220, b: 140 }),
        r == RadioState::On && !dark ==> coloured.1 == (Rgb { r: 30, g: 130, b: 60 }),
        r == RadioState::Unknown && dark ==> coloured.1 == (Rgb { r: 200, g: 200, b: 200 }),
        r == RadioState::Unknown && !dark ==> coloured.1 == (Rgb { r: 80, g: 80, b: 80 }),
        r != RadioState::On && r != RadioState::Unknown && dark ==> coloured.1 == (Rgb {
            r: 240,
            g: 130,
            b: 130,
        }),
        r != RadioState::On && r != RadioState::Unknown && !dark ==> coloured.1 == (Rgb {
            r: 180,
            g: 40,
            b: 40,
        }),
{
}

/// A fresh bar is opaque and keeps its colour; an old one has the translucent channels.
pub proof fn lemma_bar_filled(colour: Rgb, dim: bool, translucent: [u8; 4], c: Rgba)
    requires
        call_ensures(choose_fill, (colour, dim, translucent), c),
    ensures
        !dim ==> c.r == colour.r && c.g == colour.g && c.b == colour.b && c.a == 255,
        dim ==> c.r == translucent@[0] && c.g == translucent@[1] && c.b == translucent@[2] && c.a
            == translucent@[3],
{
}

/// A bar is filled with its own colour, opaque, while its signal strength is fresh, and with what
/// that colour becomes at an opacity of 100 in 255 once it is old.
pub proof fn lemma_bar_dimmed(colour: Rgb, dim: bool, c: Rgba)
    requires
        call_ensures(bar_fill, (colour, dim), c),
    ensures
        !dim ==> c.r == colour.r && c.g == colour.g && c.b == colour.b && c.a == 255,
        dim ==> c.a == 100,
        dim ==> exists|t: [u8; 4]| #[trigger]
            may_come_of(colour, 100, t) && t@[0] == c.r && t@[1] == c.g && t@[2] == c.b && t@[3]
                == c.a,
{
    let t = choose|t: [u8; 4]|
        {
            &&& #[trigger] may_come_of(colour, 100, t)
            &&& c == crate::labels::fill_colour(colour, dim, t@)
        };
    crate::labels::lemma_multiplied_channels(colour, 100, t);
}

} // verus!
