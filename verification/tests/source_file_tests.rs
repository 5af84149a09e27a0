use rand::RngExt;
use shaderfront::span::{LineCol, SourceFile, SourceMap, Span};

fn span_low() -> u32 {
    rand::rng().random_range(0..=u32::MAX / 2)
}

#[test]
fn test_source_file_span() {
    let span_low = span_low();
    let file = SourceFile::new(span_low, "hello, world!", "test", None);
    assert_eq!(file.span(), Span::new(span_low, span_low + 13));
}

#[test]
fn test_source_file_content() {
    let span_low = span_low();
    let file = SourceFile::new(span_low, "hello, world!", "test", None);
    assert_eq!(file.content(), "hello, world!");
}

#[test]
fn test_source_file_line_lows() {
    let span_low = span_low();
    let file = SourceFile::new(span_low, "hello, world!\nfoo\nbar\nbaz\nbazz", "test", None);
    assert_eq!(
        file.line_lows().as_slice(),
        &[
            span_low + 0,
            span_low + 14,
            span_low + 18,
            span_low + 22,
            span_low + 26
        ]
    );
}

#[test]
fn test_source_file_name() {
    let span_low = span_low();
    let file = SourceFile::new(span_low, "hello, world!\nfoo\nbar\nbaz\nbazz", "test", None);
    assert_eq!(file.name(), "test");
}

#[test]
fn test_source_file_path() {
    let span_low = span_low();
    let file = SourceFile::new(span_low, "hello, world!\nfoo\nbar\nbaz\nbazz", "test", None);
    assert_eq!(file.path(), None);

    let file = SourceFile::new(
        span_low,
        "hello, world!\nfoo\nbar\nbaz\nbazz",
        "test",
        Some(String::from("test")),
    );
    assert_eq!(file.path(), Some(&String::from("test")));
}

#[test]
fn test_source_file_line_span() {
    let span_low = span_low();
    let file = SourceFile::new(span_low, "hello, world!\nfoo\nbar\nbaz\nbazz", "test", None);
    assert_eq!(file.line_span(0), Span::new(span_low + 0, span_low + 14));
    assert_eq!(file.line_span(1), Span::new(span_low + 14, span_low + 18));
    assert_eq!(file.line_span(2), Span::new(span_low + 18, span_low + 22));
    assert_eq!(file.line_span(3), Span::new(span_low + 22, span_low + 26));
    assert_eq!(file.line_span(4), Span::new(span_low + 26, span_low + 30));
}

#[test]
fn test_source_file_find_line() {
    let span_low = span_low();
    let file = SourceFile::new(span_low, "hello, world!\nfoo\nbar\nbaz\nbazz", "test", None);
    for off in 0..14 {
        assert_eq!(file.find_line(span_low + off), 0);
    }
    for off in 14..18 {
        assert_eq!(file.find_line(span_low + off), 1);
    }
    for off in 18..22 {
        assert_eq!(file.find_line(span_low + off), 2);
    }
    for off in 22..26 {
        assert_eq!(file.find_line(span_low + off), 3);
    }
    for off in 26..30 {
        assert_eq!(file.find_line(span_low + off), 4);
    }
}

#[test]
fn test_source_file_find_line_col() {
    let span_low = span_low();
    let file = SourceFile::new(span_low, "hello, world!\nfoo\nbar\nbaz\nbazz", "test", None);
    assert_eq!(file.find_line_col(span_low + 0), LineCol::new(0, 0));
    assert_eq!(file.find_line_col(span_low + 1), LineCol::new(0, 1));
    assert_eq!(file.find_line_col(span_low + 13), LineCol::new(0, 13));

    assert_eq!(file.find_line_col(span_low + 14), LineCol::new(1, 0));
    assert_eq!(file.find_line_col(span_low + 15), LineCol::new(1, 1));
    assert_eq!(file.find_line_col(span_low + 17), LineCol::new(1, 3));

    assert_eq!(file.find_line_col(span_low + 18), LineCol::new(2, 0));
    assert_eq!(file.find_line_col(span_low + 19), LineCol::new(2, 1));
    assert_eq!(file.find_line_col(span_low + 21), LineCol::new(2, 3));

    assert_eq!(file.find_line_col(span_low + 22), LineCol::new(3, 0));
    assert_eq!(file.find_line_col(span_low + 23), LineCol::new(3, 1));
    assert_eq!(file.find_line_col(span_low + 25), LineCol::new(3, 3));

    assert_eq!(file.find_line_col(span_low + 26), LineCol::new(4, 0));
    assert_eq!(file.find_line_col(span_low + 27), LineCol::new(4, 1));
    assert_eq!(file.find_line_col(span_low + 29), LineCol::new(4, 3));
}

#[test]
fn test_source_file_find_line_col_roundtrip() {
    let file = SourceFile::new(0, "hello, world!\nfoo\nbar\nbaz\nbazz", "test", None);
    for pos in 0..30 {
        let lc = file.find_line_col(pos);
        let rederived = file.line_lows()[lc.line as usize] + lc.col;
        assert_eq!(rederived, pos);
    }
}

#[test]
fn test_source_file_slice() {
    let span_low = span_low();
    let file = SourceFile::new(span_low, "hello, world!\nfoo\nbar\nbaz\nbazz", "test", None);
    assert_eq!(file.slice(file.span()), file.content());
    assert_eq!(
        file.slice(Span::new(span_low + 0, span_low + 13)),
        "hello, world!"
    );
    assert_eq!(file.slice(Span::new(span_low + 14, span_low + 17)), "foo");
    assert_eq!(file.slice(Span::new(span_low + 18, span_low + 21)), "bar");
    assert_eq!(file.slice(Span::new(span_low + 22, span_low + 25)), "baz");
    assert_eq!(file.slice(Span::new(span_low + 26, span_low + 30)), "bazz");
}

#[test]
fn test_source_file_slice_len_matches_span_len() {
    let file = SourceFile::new(0, "hello, world!\nfoo\nbar\nbaz\nbazz", "test", None);
    let spans = [
        Span::new(0, 13),
        Span::new(14, 17),
        Span::new(3, 25),
        Span::new(0, 30),
        Span::new(9, 9),
    ];
    for span in spans {
        assert_eq!(file.slice(span).len(), span.len() as usize);
    }
}

#[test]
fn test_source_file_slice_multibyte_len_matches_span_len() {
    // Two two-byte characters and one three-byte character.
    let file = SourceFile::new(0, "a\u{00e9}\u{00e9}\u{20ac}b", "test", None);
    assert_eq!(file.span(), Span::new(0, 9));
    let span = Span::new(1, 5);
    assert_eq!(file.slice(span), "\u{00e9}\u{00e9}");
    assert_eq!(file.slice(span).len(), span.len() as usize);
}

#[test]
fn test_source_file_slice_line() {
    let span_low = span_low();
    let file = SourceFile::new(span_low, "hello, world!\nfoo\nbar\nbaz\nbazz", "test", None);
    assert_eq!(file.slice_line(0), "hello, world!\n");
    assert_eq!(file.slice_line(1), "foo\n");
    assert_eq!(file.slice_line(2), "bar\n");
    assert_eq!(file.slice_line(3), "baz\n");
    assert_eq!(file.slice_line(4), "bazz");
}

#[test]
fn test_source_file_line_span_and_slice_line_len_equals() {
    let span_low = span_low();
    let file = SourceFile::new(span_low, "hello, world!\nfoo\nbar\nbaz\nbazz", "test", None);
    assert_eq!(file.line_span(0).len() as usize, file.slice_line(0).len());
    assert_eq!(file.line_span(1).len() as usize, file.slice_line(1).len());
    assert_eq!(file.line_span(2).len() as usize, file.slice_line(2).len());
    assert_eq!(file.line_span(3).len() as usize, file.slice_line(3).len());
    assert_eq!(file.line_span(4).len() as usize, file.slice_line(4).len());
}

#[test]
fn test_source_map_add_file() {
    let mut source_map = SourceMap::new();
    let file = source_map.add_file("content", "name", None);
    assert_eq!(file.span().low(), 0);
    assert_eq!(file.span().high(), 7);
    assert_eq!(file.content(), "content");
    assert_eq!(file.name(), "name");
    assert_eq!(file.path(), None);
}

#[test]
fn test_source_map_files_do_not_collide() {
    let mut source_map = SourceMap::new();
    let a = source_map.add_file("one\n", "a", None);
    let b = source_map.add_file("two", "b", None);
    assert_eq!(a.span(), Span::new(0, 4));
    assert_eq!(b.span(), Span::new(4, 7));
    assert_eq!(b.slice(Span::new(4, 7)), "two");
}
