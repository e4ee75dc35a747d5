use houls::errors::BackendError;
use houls::model::{map_node_range, map_point, NodeSpan, SymbolCategory, WeekMatch};
use houls::query::{span_of, to_week_matches, week_query_source};
use houls::symbols::{assemble_symbols, decode_span};

fn span(
    start_byte: usize,
    end_byte: usize,
    start_row: usize,
    start_col: usize,
    end_row: usize,
    end_col: usize,
) -> NodeSpan {
    NodeSpan { start_byte, end_byte, start_row, start_col, end_row, end_col }
}

#[test]
fn two_week_blocks_yield_two_symbols_in_order() {
    let text = b"week(2024-01-01)\nweek(2024-01-08)\n".to_vec();
    let matches = vec![
        WeekMatch { week: span(0, 16, 0, 0, 0, 16), date: span(5, 15, 0, 5, 0, 15) },
        WeekMatch { week: span(17, 33, 1, 0, 1, 16), date: span(22, 32, 1, 5, 1, 15) },
    ];
    let symbols = assemble_symbols(&text, &matches).unwrap();
    assert_eq!(symbols.len(), 2);
    assert_eq!(symbols[0].name, "2024-01-01");
    assert_eq!(symbols[1].name, "2024-01-08");
    assert_eq!(symbols[0].range.start.line, 0);
    assert_eq!(symbols[0].range.start.character, 0);
    assert_eq!(symbols[0].range.end.line, 0);
    assert_eq!(symbols[0].range.end.character, 16);
    assert_eq!(symbols[1].range.start.line, 1);
    assert_eq!(symbols[1].range.end.line, 1);
    assert_eq!(symbols[1].range.end.character, 16);
    assert!(matches!(symbols[0].kind, SymbolCategory::Variable));
    assert_eq!(symbols[0].selection_range, symbols[0].range);
}

#[test]
fn zero_matches_yield_empty_present_outline() {
    let text = b"nothing here".to_vec();
    let matches: Vec<WeekMatch> = Vec::new();
    let symbols = assemble_symbols(&text, &matches).unwrap();
    assert_eq!(symbols.len(), 0);
}

#[test]
fn symbol_rows_copy_the_outer_span_exactly() {
    let text = b"week(\n2024-01-01\n)".to_vec();
    let matches =
        vec![WeekMatch { week: span(0, 18, 0, 0, 2, 1), date: span(6, 16, 1, 0, 1, 10) }];
    let symbols = assemble_symbols(&text, &matches).unwrap();
    assert_eq!(symbols[0].range.start.line, 0);
    assert_eq!(symbols[0].range.end.line, 2);
    assert_eq!(symbols[0].range.start.character, 0);
    assert_eq!(symbols[0].range.end.character, 1);
}

#[test]
fn name_is_the_exact_bytes_between_the_date_offsets() {
    let text = b"week(2024-01-01)".to_vec();
    let matches =
        vec![WeekMatch { week: span(0, 16, 0, 0, 0, 16), date: span(5, 15, 0, 5, 0, 15) }];
    let symbols = assemble_symbols(&text, &matches).unwrap();
    assert_eq!(symbols[0].name.as_bytes(), &text[5..15]);
}

#[test]
fn multi_byte_name_decodes_exactly() {
    let text = "week(caf\u{e9})".as_bytes().to_vec();
    let name = decode_span(&text, 5, 10).unwrap();
    assert_eq!(name, "caf\u{e9}");
    assert_eq!(name.as_bytes(), &text[5..10]);
}

#[test]
fn span_splitting_a_character_is_a_decode_error() {
    let text = "week(caf\u{e9})".as_bytes().to_vec();
    let r = decode_span(&text, 5, 9);
    assert!(matches!(r, Err(BackendError::DecodeError(_))));
}

#[test]
fn span_past_the_buffer_is_a_decode_error() {
    let text = b"week".to_vec();
    assert!(matches!(decode_span(&text, 0, 5), Err(BackendError::DecodeError(_))));
    assert!(matches!(decode_span(&text, 3, 2), Err(BackendError::DecodeError(_))));
}

#[test]
fn bad_date_span_aborts_the_whole_request() {
    let text = b"week(2024-01-01)".to_vec();
    let matches = vec![
        WeekMatch { week: span(0, 16, 0, 0, 0, 16), date: span(5, 15, 0, 5, 0, 15) },
        WeekMatch { week: span(0, 16, 0, 0, 0, 16), date: span(5, 99, 0, 5, 0, 15) },
    ];
    let r = assemble_symbols(&text, &matches);
    assert!(matches!(r, Err(BackendError::DecodeError(_))));
}

#[test]
fn match_order_is_preserved() {
    let text = b"week(a)week(b)week(c)".to_vec();
    let matches = vec![
        WeekMatch { week: span(0, 7, 0, 0, 0, 7), date: span(5, 6, 0, 5, 0, 6) },
        WeekMatch { week: span(7, 14, 0, 7, 0, 14), date: span(12, 13, 0, 12, 0, 13) },
        WeekMatch { week: span(14, 21, 0, 14, 0, 21), date: span(19, 20, 0, 19, 0, 20) },
    ];
    let symbols = assemble_symbols(&text, &matches).unwrap();
    let names: Vec<&str> = symbols.iter().map(|s| s.name.as_str()).collect();
    assert_eq!(names, vec!["a", "b", "c"]);
}

#[test]
fn raw_matches_use_slot_zero_as_outer_and_slot_one_as_inner() {
    let outer = span(0, 16, 0, 0, 0, 16);
    let inner = span(5, 15, 0, 5, 0, 15);
    let extra = span(1, 2, 0, 1, 0, 2);
    let raw = vec![vec![outer, inner, extra]];
    let ms = to_week_matches(&raw).unwrap();
    assert_eq!(ms.len(), 1);
    assert_eq!(ms[0].week, outer);
    assert_eq!(ms[0].date, inner);
}

#[test]
fn raw_match_with_a_missing_slot_is_refused() {
    let raw = vec![vec![span(0, 16, 0, 0, 0, 16)]];
    assert!(matches!(to_week_matches(&raw), Err(BackendError::InternalError(_))));
}

#[test]
fn point_mapping_is_a_field_for_field_copy() {
    let p = map_point(3, 7);
    assert_eq!(p.line, 3);
    assert_eq!(p.character, 7);
    let r = map_node_range(&span(2, 9, 4, 1, 6, 5));
    assert_eq!(r.start.line, 4);
    assert_eq!(r.start.character, 1);
    assert_eq!(r.end.line, 6);
    assert_eq!(r.end.character, 5);
}

#[test]
fn engine_coordinates_copy_into_the_library_span() {
    let r = tree_sitter::Range {
        start_byte: 11,
        end_byte: 29,
        start_point: tree_sitter::Point { row: 1, column: 4 },
        end_point: tree_sitter::Point { row: 2, column: 8 },
    };
    let s = span_of(r);
    assert_eq!(s, span(11, 29, 1, 4, 2, 8));
}

#[test]
fn week_pattern_text_is_the_fixed_two_capture_query() {
    assert_eq!(week_query_source(), "(week (date) @date) @full_week");
}
