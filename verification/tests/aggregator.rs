use builder_core::errors::{Diagnostic, SyntaxErrors};
use builder_core::span::Span;

#[test]
fn new_aggregator_is_empty() {
    let errors = SyntaxErrors::default();
    assert!(errors.is_empty());
    assert_eq!(errors.len(), 0);
}

#[test]
fn finish_of_empty_is_ok() {
    assert!(SyntaxErrors::default().finish().is_ok());
}

#[test]
fn diagnostic_holds_location_and_message() {
    let d = Diagnostic::new(Span::new(1, 2), "bad");
    assert_eq!(d.span, Span::new(1, 2));
    assert_eq!(d.message, "bad");
}

#[test]
fn add_keeps_order() {
    let mut errors = SyntaxErrors::default();
    errors.add(Span::new(1, 2), "first");
    errors.add(Span::new(3, 4), "second");
    assert!(!errors.is_empty());
    assert_eq!(errors.len(), 2);
    let list = Vec::from(errors);
    assert_eq!(list[0].span, Span::new(1, 2));
    assert_eq!(list[0].message, "first");
    assert_eq!(list[1].span, Span::new(3, 4));
    assert_eq!(list[1].message, "second");
}

#[test]
fn extend_appends_after_what_is_held() {
    let mut errors = SyntaxErrors::default();
    errors.add(Span::new(0, 1), "a");
    errors.extend(vec![Diagnostic::new(Span::new(2, 3), "b"), Diagnostic::new(Span::new(4, 5), "c")]);
    errors.extend(vec![]);
    errors.add(Span::new(6, 7), "d");
    let list = Vec::from(errors);
    let messages: Vec<&str> = list.iter().map(|d| d.message.as_str()).collect();
    assert_eq!(messages, vec!["a", "b", "c", "d"]);
    assert_eq!(list[2].span, Span::new(4, 5));
}

#[test]
fn merging_two_aggregators_drops_nothing() {
    let mut left = SyntaxErrors::default();
    left.add(Span::new(0, 1), "l");
    let mut right = SyntaxErrors::default();
    right.add(Span::new(2, 3), "r1");
    right.add(Span::new(4, 5), "r2");
    left.merge(right);
    assert_eq!(left.len(), 3);
    let list = Vec::from(left);
    assert_eq!(list[0].message, "l");
    assert_eq!(list[1].message, "r1");
    assert_eq!(list[2].message, "r2");
}

#[test]
fn finish_of_non_empty_yields_every_error() {
    let mut errors = SyntaxErrors::default();
    errors.add(Span::new(1, 2), "x");
    errors.add(Span::new(3, 4), "y");
    let sealed = errors.finish().unwrap_err();
    assert_eq!(sealed.len(), 2);
    let list = Vec::from(sealed);
    assert_eq!(list[0].message, "x");
    assert_eq!(list[1].message, "y");
}

#[test]
fn aggregator_from_list_round_trip() {
    let errors = SyntaxErrors::from(vec![
        Diagnostic::new(Span::new(1, 2), "x"),
        Diagnostic::new(Span::new(3, 4), "y"),
    ]);
    assert_eq!(errors.len(), 2);
    let list: Vec<Diagnostic> = errors.into();
    assert_eq!(list.len(), 2);
    assert_eq!(list[0].message, "x");
    assert_eq!(list[1].span, Span::new(3, 4));
}
