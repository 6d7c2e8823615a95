use exc::diagnostic::{
    layout, Diagnostics, DiagnosticsLevel, DiagnosticsSender, Excerpt, Marked,
};
use exc::resolve::SourceFileResolveError;
use exc::span::{LineCol, Pos, SourceMap, Span};

#[test]
fn span_len_is_distance() {
    let span = Span::new(Pos::new(3), Pos::new(10));
    assert_eq!(span.len(), 7);
    assert!(span.contains_pos(Pos::new(3)));
    assert!(span.contains_pos(Pos::new(10)));
    assert!(!span.contains_pos(Pos::new(11)));
}

#[test]
fn excerpt_of_a_span_in_one_line() {
    let shown = layout(LineCol::new(3, 4), LineCol::new(3, 9), 7, 20);
    assert_eq!(
        shown,
        Excerpt {
            before: Some(2),
            first: None,
            gap: false,
            last: Marked { line: 3, offset: 4, marks: 5 },
            after: Some(4),
        }
    );
}

#[test]
fn excerpt_at_the_ends_of_a_file() {
    let shown = layout(LineCol::new(0, 0), LineCol::new(0, 0), 0, 0);
    assert_eq!(
        shown,
        Excerpt {
            before: None,
            first: None,
            gap: false,
            last: Marked { line: 0, offset: 0, marks: 0 },
            after: None,
        }
    );
}

#[test]
fn excerpt_of_a_span_over_lines() {
    let two = layout(LineCol::new(1, 6), LineCol::new(2, 0), 2, 10);
    assert_eq!(
        two,
        Excerpt {
            before: Some(0),
            first: Some(Marked { line: 1, offset: 6, marks: 4 }),
            gap: false,
            last: Marked { line: 2, offset: 0, marks: 1 },
            after: None,
        }
    );
    let many = layout(LineCol::new(0, 12), LineCol::new(5, 3), 9, 10);
    assert_eq!(
        many,
        Excerpt {
            before: None,
            first: Some(Marked { line: 0, offset: 12, marks: 0 }),
            gap: true,
            last: Marked { line: 5, offset: 0, marks: 3 },
            after: Some(6),
        }
    );
}

fn sender() -> DiagnosticsSender {
    let mut source_map = SourceMap::new();
    let file =
        source_map.add_source_file("one two".to_string(), "t.exc".to_string(), None).unwrap();
    DiagnosticsSender::new(file)
}

#[test]
fn diagnostics_keep_level_code_and_place() {
    let sender = sender();
    let span = Span::new(Pos::new(4), Pos::new(7));
    let mut log: Vec<Diagnostics> = Vec::new();
    sender.hint(&mut log, span, "a hint".to_string());
    sender.warning(&mut log, 7, span, "a warning".to_string());
    sender.error(&mut log, 8, span, "an error".to_string());
    sender.hint_simple(&mut log, "nowhere".to_string());
    sender.warning_simple(&mut log, 9, "nowhere".to_string());
    sender.error_simple(&mut log, 10, "nowhere".to_string());
    let rows: Vec<(DiagnosticsLevel, u32, &str, Option<Span>, usize)> = log
        .iter()
        .map(|d| {
            (
                d.level,
                d.code,
                d.message.as_str(),
                d.origin.as_ref().map(|o| o.span),
                d.sub_diagnostics.len(),
            )
        })
        .collect();
    assert_eq!(
        rows,
        vec![
            (DiagnosticsLevel::Hint, 0, "a hint", Some(span), 0),
            (DiagnosticsLevel::Warning, 7, "a warning", Some(span), 0),
            (DiagnosticsLevel::Error, 8, "an error", Some(span), 0),
            (DiagnosticsLevel::Hint, 0, "nowhere", None, 0),
            (DiagnosticsLevel::Warning, 9, "nowhere", None, 0),
            (DiagnosticsLevel::Error, 10, "nowhere", None, 0),
        ]
    );
    assert_eq!(log[0].origin.as_ref().unwrap().file.id(), sender.file().id());
    assert_eq!(sender.duplicate().file().id(), sender.file().id());
}

#[test]
fn diagnostics_carry_their_notes() {
    let sender = sender();
    let span = Span::new(Pos::new(0), Pos::new(3));
    let other = Span::new(Pos::new(4), Pos::new(7));
    let mut log: Vec<Diagnostics> = Vec::new();
    sender.hint_sub(
        &mut log,
        span,
        "first".to_string(),
        vec![sender.sub_hint(other, "h".to_string()), sender.sub_hint_simple("hs".to_string())],
    );
    sender.warning_sub(
        &mut log,
        3,
        span,
        "second".to_string(),
        vec![sender.sub_warning(other, "w".to_string()), sender.sub_warning_simple("ws".to_string())],
    );
    sender.error_sub(
        &mut log,
        4,
        span,
        "third".to_string(),
        vec![sender.sub_error(other, "e".to_string()), sender.sub_error_simple("es".to_string())],
    );
    let notes: Vec<Vec<(DiagnosticsLevel, &str, Option<Span>)>> = log
        .iter()
        .map(|d| {
            d.sub_diagnostics
                .iter()
                .map(|sub| (sub.level, sub.message.as_str(), sub.origin.as_ref().map(|o| o.span)))
                .collect()
        })
        .collect();
    assert_eq!(
        notes,
        vec![
            vec![(DiagnosticsLevel::Hint, "h", Some(other)), (DiagnosticsLevel::Hint, "hs", None)],
            vec![
                (DiagnosticsLevel::Warning, "w", Some(other)),
                (DiagnosticsLevel::Warning, "ws", None)
            ],
            vec![(DiagnosticsLevel::Error, "e", Some(other)), (DiagnosticsLevel::Error, "es", None)],
        ]
    );
    let heads: Vec<(DiagnosticsLevel, u32)> = log.iter().map(|d| (d.level, d.code)).collect();
    assert_eq!(
        heads,
        vec![
            (DiagnosticsLevel::Hint, 0),
            (DiagnosticsLevel::Warning, 3),
            (DiagnosticsLevel::Error, 4)
        ]
    );
}

#[test]
fn source_file_errors_in_words() {
    assert_eq!(
        SourceFileResolveError::IOError("gone".to_string()).message(),
        "io error: gone"
    );
    assert_eq!(
        SourceFileResolveError::PathIsAbsolute("/a/b.exc".to_string()).message(),
        "path `/a/b.exc` is absolute; relative paths are expected"
    );
    assert_eq!(
        SourceFileResolveError::PathHasNoFileName("..".to_string()).message(),
        "path `..` has no file name"
    );
    assert_eq!(
        SourceFileResolveError::InvalidUTF8("a/?.exc".to_string()).message(),
        "path `a/?.exc` contains invalid UTF-8"
    );
}
