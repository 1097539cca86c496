use modal_edit::coordinate::Point;
use modal_edit::file::FileBuffer;
use modal_edit::key::KeyCode;
use modal_edit::mode::MODE;
use modal_edit::search::{search_string, Search};

fn doc(lines: &[&str]) -> Vec<Vec<char>> {
    lines.iter().map(|l| l.chars().collect()).collect()
}

fn chars(s: &str) -> Vec<char> {
    s.chars().collect()
}

#[test]
fn search_finds_every_occurrence_in_scan_order() {
    let d = doc(&["abcabc", "xabz", "abab"]);
    let hits = search_string(&d, &chars("ab"));
    assert_eq!(
        hits,
        vec![
            Point { column: 0, row: 0 },
            Point { column: 3, row: 0 },
            Point { column: 1, row: 1 },
            Point { column: 0, row: 2 },
            Point { column: 2, row: 2 },
        ]
    );
}

#[test]
fn search_finds_overlapping_matches() {
    let d = doc(&["aaaa"]);
    let hits = search_string(&d, &chars("aa"));
    assert_eq!(
        hits,
        vec![
            Point { column: 0, row: 0 },
            Point { column: 1, row: 0 },
            Point { column: 2, row: 0 },
        ]
    );
}

#[test]
fn search_matches_never_span_lines() {
    let d = doc(&["ab", "cd"]);
    assert_eq!(search_string(&d, &chars("bc")), Vec::<Point>::new());
}

#[test]
fn search_with_empty_pattern_finds_nothing() {
    let d = doc(&["abc"]);
    assert_eq!(search_string(&d, &chars("")), Vec::<Point>::new());
}

#[test]
fn every_returned_coordinate_is_a_real_match() {
    let d = doc(&["the cat sat", "a catalogue", "cat"]);
    let p = chars("cat");
    for hit in search_string(&d, &p) {
        let line = &d[hit.row];
        assert_eq!(&line[hit.column..hit.column + p.len()], &p[..]);
    }
}

#[test]
fn proc_search_accumulates_then_commits() {
    let mut buf = FileBuffer::from_lines(doc(&["xayaz", "aa"]), String::new());
    let mut sch = Search::new();
    assert_eq!(sch.proc_search(KeyCode::Char('a'), &mut buf), MODE::Search);
    assert_eq!(sch.proc_search(KeyCode::Enter, &mut buf), MODE::Normal);
    // the committed results rotate starting at the second match
    assert_eq!(
        buf.get_next_searchresult(),
        Some(Point { column: 3, row: 0 })
    );
    assert_eq!(
        buf.get_next_searchresult(),
        Some(Point { column: 0, row: 1 })
    );
    assert_eq!(
        buf.get_next_searchresult(),
        Some(Point { column: 1, row: 1 })
    );
    // wraps back to the first
    assert_eq!(
        buf.get_next_searchresult(),
        Some(Point { column: 1, row: 0 })
    );
}

#[test]
fn proc_search_other_key_returns_to_normal() {
    let mut buf = FileBuffer::from_lines(doc(&["abc"]), String::new());
    let mut sch = Search::new();
    assert_eq!(sch.proc_search(KeyCode::Char('b'), &mut buf), MODE::Search);
    assert_eq!(sch.proc_search(KeyCode::Esc, &mut buf), MODE::Normal);
}

#[test]
fn next_match_visits_every_match_once_per_cycle() {
    let mut buf = FileBuffer::from_lines(doc(&["aaa"]), String::new());
    let results = vec![
        Point { column: 0, row: 0 },
        Point { column: 1, row: 0 },
        Point { column: 2, row: 0 },
    ];
    buf.search_result_register(results.clone());
    let mut seen = Vec::new();
    for _ in 0..results.len() {
        seen.push(buf.get_next_searchresult().unwrap());
    }
    // one full cycle: every match exactly once
    let mut sorted = seen.clone();
    sorted.sort_by_key(|p| (p.row, p.column));
    assert_eq!(sorted, results);
    // and the cycle repeats in the same order
    for p in &seen {
        assert_eq!(buf.get_next_searchresult().as_ref(), Some(p));
    }
}

#[test]
fn next_match_with_no_results_is_none() {
    let mut buf = FileBuffer::from_lines(doc(&["abc"]), String::new());
    assert_eq!(buf.get_next_searchresult(), None);
}
