use outrider::paint_model::{
    code_line, runs_from_spans, truncate_to_budget, wrap_code_line, wrap_doc, wrap_to_budget,
    HighlightSpan,
};
use outrider::theme::{HighlightKind, SYNTAX_KEYWORD, SYNTAX_FUNCTION, TEXT_PRIMARY};

#[test]
fn wrap_fits_short_text_on_one_row() {
    assert_eq!(wrap_to_budget("hello world", 11), vec!["hello world".to_string()]);
}

#[test]
fn wrap_greedy_at_word_boundaries() {
    assert_eq!(wrap_to_budget("alpha beta gamma", 10), vec!["alpha beta", "gamma"]);
}

#[test]
fn wrap_hard_splits_over_budget_words() {
    assert_eq!(
        wrap_to_budget("abcdefghijklmnopqrstuvwxy", 10),
        vec!["abcdefghij", "klmnopqrst", "uvwxy"]
    );
    assert_eq!(wrap_to_budget("abcdefghijklmno", 10), vec!["abcdefghij", "klmno"]);
}

#[test]
fn wrap_returns_nothing_when_no_room() {
    assert!(wrap_to_budget("anything", 0).is_empty());
}

#[test]
fn wrap_closes_open_row_before_a_split_word() {
    assert_eq!(wrap_to_budget("ab cdefghijkl mn", 5), vec!["ab", "cdefg", "hijkl", "mn"]);
}

#[test]
fn wrap_skips_empty_words_from_repeated_spaces() {
    assert_eq!(wrap_to_budget("aa  bb  cc", 5), vec!["aa bb", "cc"]);
}

#[test]
fn wrap_counts_characters_not_bytes() {
    assert_eq!(wrap_to_budget("ééé ééé", 7), vec!["ééé ééé"]);
    assert_eq!(wrap_to_budget("ééé ééé", 6), vec!["ééé", "ééé"]);
}

fn span(start: usize, end: usize, kind: HighlightKind) -> HighlightSpan {
    HighlightSpan { start, end, kind }
}

#[test]
fn runs_cover_text_exactly() {
    let spans = [span(0, 2, HighlightKind::Keyword), span(3, 7, HighlightKind::Function)];
    let runs = runs_from_spans(10, &spans);
    assert_eq!(
        runs,
        vec![(2, SYNTAX_KEYWORD), (1, TEXT_PRIMARY), (4, SYNTAX_FUNCTION), (3, TEXT_PRIMARY)]
    );
    assert_eq!(runs.iter().map(|r| r.0).sum::<usize>(), 10);
}

#[test]
fn runs_clamp_spans_to_the_line() {
    let spans = [span(2, 50, HighlightKind::Keyword), span(60, 70, HighlightKind::Function)];
    assert_eq!(runs_from_spans(4, &spans), vec![(2, TEXT_PRIMARY), (2, SYNTAX_KEYWORD)]);
    assert_eq!(runs_from_spans(0, &[]), vec![]);
    assert_eq!(runs_from_spans(3, &[]), vec![(3, TEXT_PRIMARY)]);
}

// The doc wrap takes the character budget that the paint path derives from
// the box width and font size (`(w - 12) / (0.62 * font)`, floored).

#[test]
fn wrap_doc_fits_short_text_on_one_row() {
    assert_eq!(wrap_doc("hello world", 11), vec!["hello world"]);
}

#[test]
fn wrap_doc_greedy_wraps_at_word_boundaries() {
    assert_eq!(wrap_doc("alpha beta gamma", 10), vec!["alpha beta", "gamma"]);
}

#[test]
fn wrap_doc_hard_splits_over_budget_words() {
    assert_eq!(
        wrap_doc("abcdefghijklmnopqrstuvwxy", 10),
        vec!["abcdefghij", "klmnopqrst", "uvwxy"]
    );
}

#[test]
fn wrap_doc_joins_lines_within_a_paragraph() {
    assert_eq!(wrap_doc("first line\nsecond line", 40), vec!["first line second line"]);
}

#[test]
fn wrap_doc_breaks_paragraphs_on_blank_lines() {
    assert_eq!(wrap_doc("para one\n\npara two", 40), vec!["para one", "para two"]);
}

#[test]
fn wrap_doc_returns_nothing_when_no_room() {
    // 13 px at 12 px font leaves room for no character at all.
    assert!(wrap_doc("anything", 0).is_empty());
    assert!(wrap_doc("anything", 1).is_empty());
}

#[test]
fn wrap_doc_collapses_white_space_and_skips_empty_paragraphs() {
    assert_eq!(wrap_doc("  a \t b  \n\n\n\n  \n\nc\u{3000}d ", 40), vec!["a b", "c d"]);
    assert_eq!(wrap_doc("x\n\n\ny", 40), vec!["x", "y"]);
}

#[test]
fn truncation() {
    // a budget of exactly 10 characters
    assert_eq!(truncate_to_budget("short.rs", 10), Some("short.rs".into()));
    assert_eq!(truncate_to_budget("a_very_long_file_name.rs", 10), Some("a_very_lo…".into()));
    // 10 px at a 12 px font: no room
    assert_eq!(truncate_to_budget("anything", 0), None);
    assert_eq!(truncate_to_budget("anything", 1), None);
    // multi-byte chars are cut by character
    assert_eq!(truncate_to_budget("ééééééééééééé", 10), Some("ééééééééé…".into()));
}

#[test]
fn runs_cover_text_exactly_and_truncate() {
    let spans = [span(0, 2, HighlightKind::Keyword), span(3, 7, HighlightKind::Function)];
    let runs = runs_from_spans(10, &spans);
    assert_eq!(runs.iter().map(|r| r.0).sum::<usize>(), 10);
    assert_eq!(runs.len(), 4);
    // a truncated code line (5-character budget): the runs still cover the
    // shown bytes exactly
    let (shown, runs) = code_line("fn frobnicate()", &spans, 5).unwrap();
    assert_eq!(shown, "fn f…");
    assert_eq!(runs.iter().map(|r| r.0).sum::<usize>(), shown.len());
    // too narrow for any text: no line
    assert!(code_line("fn x()", &spans, 0).is_none());
}

#[test]
fn code_line_that_fits_keeps_its_text_and_runs() {
    let spans = [span(0, 2, HighlightKind::Keyword)];
    let (shown, runs) = code_line("fn é()", &spans, 10).unwrap();
    assert_eq!(shown, "fn é()");
    assert_eq!(runs, vec![(2, SYNTAX_KEYWORD), (5, TEXT_PRIMARY)]);
    let (cut, cut_runs) = code_line("éééééé", &[], 3).unwrap();
    assert_eq!(cut, "éé…");
    assert_eq!(cut_runs, vec![(4, TEXT_PRIMARY), (3, TEXT_PRIMARY)]);
}

#[test]
fn focused_code_wrap_preserves_run_coverage() {
    // a 10-character budget
    let spans = [span(0, 2, HighlightKind::Keyword)];
    let lines = wrap_code_line("fn frobnicate()", &spans, 10);
    assert_eq!(lines.iter().map(|line| line.0.as_str()).collect::<Vec<_>>(), vec!["fn frobnic", "ate()"]);
    assert!(lines.iter().all(|(text, runs)| runs.iter().map(|run| run.0).sum::<usize>() == text.len()));
}

#[test]
fn wrapped_code_rows_split_runs_by_bytes() {
    let spans = [span(0, 4, HighlightKind::Keyword)];
    // "éé" is four bytes: the keyword run covers the first row exactly
    let lines = wrap_code_line("ééab", &spans, 2);
    assert_eq!(
        lines,
        vec![
            ("éé".to_string(), vec![(4, SYNTAX_KEYWORD)]),
            ("ab".to_string(), vec![(2, TEXT_PRIMARY)]),
        ]
    );
    // a run that straddles two rows is cut in two
    let lines = wrap_code_line("abcdef", &[span(1, 5, HighlightKind::Function)], 3);
    assert_eq!(
        lines,
        vec![
            ("abc".to_string(), vec![(1, TEXT_PRIMARY), (2, SYNTAX_FUNCTION)]),
            ("def".to_string(), vec![(2, SYNTAX_FUNCTION), (1, TEXT_PRIMARY)]),
        ]
    );
    assert!(wrap_code_line("abc", &[], 0).is_empty());
    assert_eq!(wrap_code_line("abc", &[], 5), vec![("abc".to_string(), vec![(3, TEXT_PRIMARY)])]);
}
