use exc::span::{FileId, LineCol, Pos, SourceFile, SourceMap, Span};
use rand::{distributions::Uniform, thread_rng, Rng};
use std::sync::Arc;

fn add_random_source_file(source_map: &mut SourceMap) -> Arc<SourceFile> {
    let content = thread_rng()
        .sample_iter(&Uniform::new_inclusive(char::from_u32(20).unwrap(), char::MAX))
        .map(char::from)
        .take(thread_rng().gen_range(0..4096))
        .collect::<String>();
    let name = thread_rng()
        .sample_iter(&Uniform::new_inclusive(char::from_u32(20).unwrap(), char::MAX))
        .map(char::from)
        .take(thread_rng().gen_range(0..32))
        .collect::<String>();
    let path = thread_rng()
        .sample_iter(&Uniform::new_inclusive(char::from_u32(20).unwrap(), char::MAX))
        .map(char::from)
        .take(thread_rng().gen_range(0..128))
        .collect::<String>();
    return source_map.add_source_file(content, name, Some(path)).unwrap();
}

#[test]
fn should_work() {
    let mut source_map = SourceMap::new();

    let source_file_1 = add_random_source_file(&mut source_map);
    let source_file_2 = add_random_source_file(&mut source_map);

    assert_eq!(source_file_1.span().low, Pos::from(0));
    assert_eq!(
        source_file_1.span().high,
        Pos::from(source_file_1.content().len() as u32)
    );

    assert_eq!(
        source_file_2.span().low,
        Pos::from(source_file_1.content().len() as u32)
    );
    assert_eq!(
        source_file_2.span().high,
        Pos::from((source_file_1.content().len() + source_file_2.content().len()) as u32)
    );
}

fn one_file(content: &str) -> Arc<SourceFile> {
    let mut source_map = SourceMap::new();
    source_map.add_source_file(content.to_string(), "one.exc".to_string(), None).unwrap()
}

#[test]
fn position_arithmetic() {
    assert_eq!(Pos::new(3) + 4, Pos::new(7));
    assert_eq!(Pos::new(3) + Pos::new(4), Pos::new(7));
    assert_eq!(Pos::new(7) - 4, Pos::new(3));
    assert_eq!(Pos::new(7) - Pos::new(4), Pos::new(3));
    assert_eq!(u32::from(Pos::from(9)), 9);
    assert_eq!(Pos::zero().get(), 0);
    assert!(Pos::new(3) < Pos::new(4));
}

#[test]
fn span_joins_and_containment() {
    let a = Span::new(Pos::new(2), Pos::new(5));
    let b = Span::new(Pos::new(4), Pos::new(9));
    assert_eq!(a.to(b), Span::new(Pos::new(2), Pos::new(9)));
    assert_eq!(a.merge(b), Span::new(Pos::new(2), Pos::new(9)));
    assert_eq!(b.merge(a), Span::new(Pos::new(2), Pos::new(9)));
    assert!(a.merge(b).contains_span(a));
    assert!(a.merge(b).contains_span(b));
    assert!(!a.contains_span(b));
    assert!(!a.contains_pos(Pos::new(1)));
    assert_eq!(Span::zero().len(), 0);
    assert_eq!(b.len(), 5);
}

#[test]
fn line_positions_follow_line_feeds() {
    let file = one_file("ab\ncd\r\n\nxyz");
    let starts: Vec<u32> = file.line_positions().iter().map(|p| p.get()).collect();
    assert_eq!(starts, vec![0, 3, 7, 8]);
    assert_eq!(file.line_span(0), Span::new(Pos::new(0), Pos::new(3)));
    assert_eq!(file.line_span(1), Span::new(Pos::new(3), Pos::new(7)));
    assert_eq!(file.line_span(2), Span::new(Pos::new(7), Pos::new(8)));
    assert_eq!(file.line_span(3), Span::new(Pos::new(8), Pos::new(11)));
    assert_eq!(file.slice_line(0), "ab");
    assert_eq!(file.slice_line(1), "cd");
    assert_eq!(file.slice_line(2), "");
    assert_eq!(file.slice_line(3), "xyz");
}

#[test]
fn empty_file_has_one_line() {
    let file = one_file("");
    assert_eq!(file.line_positions().len(), 1);
    assert_eq!(file.span(), Span::new(Pos::new(0), Pos::new(0)));
    assert_eq!(file.find_line(Pos::new(0)), 0);
    assert_eq!(file.find_line_col(Pos::new(0)), LineCol::new(0, 0));
    assert_eq!(file.slice_line(0), "");
}

#[test]
fn line_and_column_of_a_position() {
    let file = one_file("ab\ncd\r\n\nxyz");
    let at: Vec<(u32, u32)> = (0..=11)
        .map(|p| {
            let lc = file.find_line_col(Pos::new(p));
            (lc.line, lc.column)
        })
        .collect();
    assert_eq!(
        at,
        vec![
            (0, 0),
            (0, 1),
            (0, 2),
            (1, 0),
            (1, 1),
            (1, 2),
            (1, 3),
            (2, 0),
            (3, 0),
            (3, 1),
            (3, 2),
            (3, 3)
        ]
    );
}

#[test]
fn columns_count_characters_not_bytes() {
    // Two bytes each: é, ü.
    let file = one_file("é\nüb");
    assert_eq!(file.span().high, Pos::new(6));
    assert_eq!(file.find_line_col(Pos::new(2)), LineCol::new(0, 1));
    assert_eq!(file.find_line_col(Pos::new(5)), LineCol::new(1, 1));
    assert_eq!(file.find_line_col(Pos::new(6)), LineCol::new(1, 2));
    assert_eq!(file.slice(Span::new(Pos::new(3), Pos::new(5))), "ü");
    assert_eq!(file.slice_line(1), "üb");
}

#[test]
fn second_file_starts_where_the_first_ends() {
    let mut source_map = SourceMap::new();
    let first = source_map
        .add_source_file("one\ntwo".to_string(), "a.exc".to_string(), Some("dir/a.exc".to_string()))
        .unwrap();
    let second =
        source_map.add_source_file("x\nyz".to_string(), "b.exc".to_string(), None).unwrap();
    assert_eq!(first.id(), FileId(0));
    assert_eq!(second.id(), FileId(1));
    assert_eq!(first.name(), "a.exc");
    assert_eq!(first.display(), "a.exc (dir/a.exc)");
    assert_eq!(second.display(), "b.exc");
    assert_eq!(first.path().map(|p| p.as_str()), Some("dir/a.exc"));
    assert_eq!(second.path(), None);
    assert_eq!(second.span(), Span::new(Pos::new(7), Pos::new(11)));
    assert_eq!(second.span_begin(), Span::new(Pos::new(7), Pos::new(7)));
    assert_eq!(second.span_end(), Span::new(Pos::new(11), Pos::new(11)));
    let starts: Vec<u32> = second.line_positions().iter().map(|p| p.get()).collect();
    assert_eq!(starts, vec![7, 9]);
    assert_eq!(second.find_line_col(Pos::new(10)), LineCol::new(1, 1));
    assert_eq!(second.slice(Span::new(Pos::new(9), Pos::new(11))), "yz");
    assert_eq!(source_map.end_pos(), Pos::new(11));
    assert_eq!(source_map.len(), 2);
    assert_eq!(source_map.get(FileId(1)).unwrap().name(), "b.exc");
    assert!(source_map.get(FileId(2)).is_none());
}
