use shaderfront::span::Span;

#[test]
fn test_span_new() {
    Span::new(0, 0);
    Span::new(0, 1);
    Span::new(1, 2);
    Span::new(2, 3);
}

#[test]
fn test_span_len() {
    let span = Span::new(0, 5);
    assert_eq!(span.len(), 5);
}

#[test]
fn test_span_is_empty() {
    let span = Span::new(0, 0);
    assert_eq!(span.is_empty(), true);

    let span = Span::new(0, 1);
    assert_eq!(span.is_empty(), false);
}

#[test]
fn test_span_contains() {
    let span = Span::new(0, 5);
    assert_eq!(span.contains(0), true);
    assert_eq!(span.contains(4), true);
    assert_eq!(span.contains(5), false);
}

#[test]
fn test_span_contains_span() {
    let span1 = Span::new(10, 15);
    let span2 = Span::new(11, 14);
    assert_eq!(span1.contains_span(span2), true);

    let span3 = Span::new(5, 12);
    assert_eq!(!span1.contains_span(span3), true);

    let span4 = Span::new(13, 16);
    assert_eq!(!span1.contains_span(span4), true);
}

#[test]
fn test_span_expand_to() {
    let span = Span::new(0, 5);
    let expanded_span = span.expand_to(10);
    assert_eq!(expanded_span, Span::new(0, 10));

    let expanded_span = span.expand_to(3);
    assert_eq!(expanded_span, Span::new(0, 5));
}

#[test]
fn test_span_expand_to_unknown_sentinel() {
    let span = Span::new(0, 5);
    assert_eq!(span.expand_to(u32::MAX), span);
}

#[test]
fn test_span_merge() {
    let span1 = Span::new(0, 5);
    let span2 = Span::new(3, 10);
    let merged_span = Span::merge(span1, span2);
    assert_eq!(merged_span, Span::new(0, 10));
}

#[test]
fn test_span_merge_disjoint() {
    let merged = Span::merge(Span::new(7, 9), Span::new(2, 3));
    assert_eq!(merged, Span::new(2, 9));
}
