use cell_front::span::Span;
use cell_front::Spanned;

#[test]
fn new_keeps_both_offsets() {
    let s = Span::new(2, 7);
    assert_eq!(s.start(), 2);
    assert_eq!(s.end(), 7);
    assert_eq!(s.len(), 5);
}

#[test]
fn end_is_never_before_start() {
    let spans = vec![Span::new(0, 0), Span::new(1, 4), Span::new(9, 9), Span::new(3, 100)];
    for s in spans {
        assert!(s.end() >= s.start());
    }
}

#[test]
fn default_is_empty_at_zero() {
    let s = Span::default();
    assert_eq!(s.start(), 0);
    assert_eq!(s.end(), 0);
    assert_eq!(s.len(), 0);
}

#[test]
fn range_covers_the_same_offsets() {
    let s = Span::new(2, 7);
    assert_eq!(s.range(), 2..7);
    let text = "hello etc";
    assert_eq!(&text[Span::new(0, 5).range()], "hello");
}

#[test]
fn contains_is_half_open() {
    let s = Span::new(2, 5);
    assert!(!s.contains(1));
    assert!(s.contains(2));
    assert!(s.contains(4));
    assert!(!s.contains(5));
}

#[test]
fn contains_range_needs_full_inclusion() {
    let s = Span::new(2, 8);
    assert!(s.contains_range(Span::new(2, 8)));
    assert!(s.contains_range(Span::new(3, 5)));
    assert!(!s.contains_range(Span::new(1, 5)));
    assert!(!s.contains_range(Span::new(3, 9)));
}

#[test]
fn intersect_of_touching_ranges_is_empty_span_at_touch_point() {
    let a = Span::new(0, 3);
    let b = Span::new(3, 5);
    let i = a.intersect(b).expect("touching ranges intersect");
    assert_eq!(i.start(), 3);
    assert_eq!(i.end(), 3);
    assert_eq!(i.len(), 0);
}

#[test]
fn intersect_of_overlapping_ranges_is_their_overlap() {
    let a = Span::new(1, 6);
    let b = Span::new(4, 9);
    let i = a.intersect(b).expect("overlapping ranges intersect");
    assert_eq!(i.start(), 4);
    assert_eq!(i.end(), 6);
}

#[test]
fn intersect_of_disjoint_ranges_is_none() {
    let a = Span::new(0, 3);
    let b = Span::new(4, 5);
    assert!(a.intersect(b).is_none());
}

#[test]
fn spanned_keeps_data_and_span() {
    let s = Spanned::new(41u32, Span::new(1, 3));
    assert_eq!(*s.data(), 41);
    assert_eq!(s.span().start(), 1);
    let mapped = s.map(|x| x + 1);
    assert_eq!(*mapped.data(), 42);
    assert_eq!(mapped.span().start(), 1);
    assert_eq!(mapped.span().end(), 3);
    let (data, span) = mapped.destruct();
    assert_eq!(data, 42);
    assert_eq!(span.end(), 3);
}
