use shaderfront::diagnostics::{stringify_item, Item, ItemLevel, ItemOrigin, ItemSender, SubItem};
use shaderfront::span::{SourceMap, Span};

#[test]
fn test_stringify_item() {
    let mut map = SourceMap::new();
    let file = map.add_file("foo\nbar\nbaz\nbazz", "foo.txt", Some("foo.txt".to_string()));
    let item = Item {
        code: 0,
        level: ItemLevel::Error,
        message: "test".into(),
        origin: Some(ItemOrigin {
            file: file.clone(),
            span: Span::new(0, 1),
        }),
        sub_items: vec![],
    };

    let stringified = stringify_item(&item, false);
    println!("{}", stringified);
    assert_eq!(
        stringified,
        "error: test
at foo.txt:1:1
 1 | foo
     ^ test
 2 | bar

"
    );
}

#[test]
fn test_stringify_item_without_origin() {
    let item = Item {
        code: 7,
        level: ItemLevel::Warning,
        message: "just a note".into(),
        origin: None,
        sub_items: vec![],
    };
    assert_eq!(stringify_item(&item, false), " warn: just a note\n");
}

#[test]
fn test_stringify_item_with_sub_item() {
    let mut map = SourceMap::new();
    let file = map.add_file("foo\nbar", "foo.txt", Some("foo.txt".to_string()));
    let item = Item {
        code: 3,
        level: ItemLevel::Error,
        message: "first".into(),
        origin: Some(ItemOrigin {
            file: file.clone(),
            span: Span::new(4, 5),
        }),
        sub_items: vec![SubItem {
            level: ItemLevel::Hint,
            message: "second".into(),
            origin: None,
        }],
    };
    let stringified = stringify_item(&item, false);
    assert_eq!(
        stringified,
        "error: first\nat foo.txt:2:1\n 1 | foo\n 2 | bar\n     ^ first\n\n hint: second\n"
    );
}

#[test]
fn test_stringify_item_multiline_span() {
    let mut map = SourceMap::new();
    let file = map.add_file("aa\nbb\ncc\ndd\nee", "f", None);
    let item = Item {
        code: 1,
        level: ItemLevel::Hint,
        message: "wide".into(),
        origin: Some(ItemOrigin {
            file: file.clone(),
            span: Span::new(0, 10),
        }),
        sub_items: vec![],
    };
    let stringified = stringify_item(&item, false);
    assert_eq!(
        stringified,
        " hint: wide\nat ?:1:1\n 1 | aa\n     ^^\n ...\n 4 | dd\n     ^ wide\n 5 | ee\n\n"
    );
}

#[test]
fn test_stringify_item_styled_keeps_message() {
    let mut map = SourceMap::new();
    let file = map.add_file("foo\nbar", "foo.txt", Some("foo.txt".to_string()));
    let item = Item {
        code: 0,
        level: ItemLevel::Error,
        message: "test".into(),
        origin: Some(ItemOrigin {
            file: file.clone(),
            span: Span::new(0, 1),
        }),
        sub_items: vec![],
    };
    let stringified = stringify_item(&item, true);
    assert!(stringified.contains("test"));
    assert!(stringified.contains("foo.txt:1:1"));
}

#[test]
fn test_item_sender_roundtrip() {
    let mut map = SourceMap::new();
    let file = map.add_file("foo\nbar", "foo.txt", None);
    let (tx, mut rx) = tokio::sync::mpsc::unbounded_channel();
    let sender = ItemSender::new(file.clone(), tx);
    sender.error(9, Span::new(4, 5), "broken".to_string());
    sender.hint_simple("context".to_string());
    let first = rx.try_recv().ok().unwrap();
    assert_eq!(first.code, 9);
    assert_eq!(first.level, ItemLevel::Error);
    assert_eq!(first.message, "broken");
    assert_eq!(first.origin.as_ref().unwrap().span, Span::new(4, 5));
    let second = rx.try_recv().ok().unwrap();
    assert_eq!(second.code, 0);
    assert_eq!(second.level, ItemLevel::Hint);
    assert!(second.origin.is_none());
    assert!(rx.try_recv().ok().is_none());
}

#[test]
fn test_item_sender_sub_items() {
    let mut map = SourceMap::new();
    let file = map.add_file("foo", "foo.txt", None);
    let (tx, mut rx) = tokio::sync::mpsc::unbounded_channel();
    let sender = ItemSender::new(file.clone(), tx);
    let sub = sender.sub_hint(Span::new(1, 2), "first defined here".to_string());
    assert_eq!(sub.level, ItemLevel::Hint);
    assert_eq!(sub.origin.as_ref().unwrap().span, Span::new(1, 2));
    sender.warning_sub(4, Span::new(0, 1), "shadowed".to_string(), vec![sub]);
    let item = rx.try_recv().ok().unwrap();
    assert_eq!(item.sub_items.len(), 1);
    assert_eq!(item.sub_items[0].message, "first defined here");
}
