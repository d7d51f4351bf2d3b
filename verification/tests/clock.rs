use simplebluetooth::clock::{Moment, Span};

#[test]
fn time_does_not_run_backwards() {
    let a = Moment { nanos: 3 };
    let b = Moment { nanos: 10 };
    assert_eq!(b.duration_since(a), Span { nanos: 7 });
    assert_eq!(a.duration_since(b), Span { nanos: 0 });
}

#[test]
fn nothing_lies_before_the_origin() {
    let t = Moment { nanos: 10 };
    assert_eq!(t.checked_sub(4), Some(Moment { nanos: 6 }));
    assert_eq!(t.checked_sub(10), Some(Moment { nanos: 0 }));
    assert_eq!(t.checked_sub(11), None);
}

#[test]
fn seconds_are_whole() {
    assert_eq!(Span { nanos: 999_999_999 }.as_secs(), 0);
    assert_eq!(Span { nanos: 1_000_000_000 }.as_secs(), 1);
    assert_eq!(Span { nanos: 61_500_000_000 }.as_secs(), 61);
}
