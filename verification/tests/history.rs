use termcalc::history::{HistoryEntry, Queries, ScrollDir};

fn log_of(entries: &[(&str, &str)]) -> Queries {
    let mut log = Queries::default();
    for (query, value) in entries {
        log.archive(query.to_string(), value.to_string());
    }
    log
}

#[test]
fn new_log_is_empty_and_not_scrolling() {
    let mut log = Queries::default();
    assert_eq!(log.get_pos(), 0);
    assert_eq!(log.curr(), None);
    assert_eq!(log.try_restore(), None);
    assert!(log.render_all().is_empty());
}

#[test]
fn archive_grows_the_log_by_one() {
    let mut log = Queries::default();
    log.archive("1+1".to_string(), "2".to_string());
    assert_eq!(log.render_all().len(), 1);
    log.archive("2*3".to_string(), "6".to_string());
    assert_eq!(log.render_all().len(), 2);
    assert_eq!(log.get_pos(), 0);
}

#[test]
fn retrieve_counts_from_the_newest() {
    let log = log_of(&[("1+1", "2"), ("2*3", "6"), ("7", "7")]);
    assert_eq!(log.retrieve(HistoryEntry::Query(0)), "7");
    assert_eq!(log.retrieve(HistoryEntry::Value(0)), "7");
    assert_eq!(log.retrieve(HistoryEntry::Query(1)), "2*3");
    assert_eq!(log.retrieve(HistoryEntry::Value(1)), "6");
    assert_eq!(log.retrieve(HistoryEntry::Query(2)), "1+1");
    assert_eq!(log.retrieve(HistoryEntry::Value(2)), "2");
}

#[test]
fn shift_up_stops_at_the_oldest_entry() {
    let mut log = log_of(&[("a", "1"), ("b", "2")]);
    log.shift(ScrollDir::Up);
    assert_eq!(log.get_pos(), 1);
    log.shift(ScrollDir::Up);
    assert_eq!(log.get_pos(), 2);
    log.shift(ScrollDir::Up);
    assert_eq!(log.get_pos(), 2);
}

#[test]
fn shift_down_stops_at_zero() {
    let mut log = log_of(&[("a", "1")]);
    log.shift(ScrollDir::Down);
    assert_eq!(log.get_pos(), 0);
    log.shift(ScrollDir::Up);
    log.shift(ScrollDir::Down);
    assert_eq!(log.get_pos(), 0);
    log.shift(ScrollDir::Down);
    assert_eq!(log.get_pos(), 0);
}

#[test]
fn shift_on_an_empty_log_does_nothing() {
    let mut log = Queries::default();
    log.shift(ScrollDir::Up);
    assert_eq!(log.get_pos(), 0);
    log.shift(ScrollDir::Down);
    assert_eq!(log.get_pos(), 0);
    assert_eq!(log.curr(), None);
}

#[test]
fn curr_gives_the_query_under_the_position() {
    let mut log = log_of(&[("1+1", "2"), ("2*3", "6")]);
    assert_eq!(log.curr(), None);
    log.shift(ScrollDir::Up);
    assert_eq!(log.curr(), Some("2*3".to_string()));
    log.shift(ScrollDir::Up);
    assert_eq!(log.curr(), Some("1+1".to_string()));
    log.shift(ScrollDir::Down);
    assert_eq!(log.curr(), Some("2*3".to_string()));
    log.shift(ScrollDir::Down);
    assert_eq!(log.curr(), None);
}

#[test]
fn stash_keeps_the_first_text() {
    let mut log = Queries::default();
    log.try_store("abc".to_string());
    log.try_store("xyz".to_string());
    assert_eq!(log.try_restore(), Some("abc".to_string()));
}

#[test]
fn stash_is_handed_out_once() {
    let mut log = Queries::default();
    log.try_store("abc".to_string());
    assert_eq!(log.try_restore(), Some("abc".to_string()));
    assert_eq!(log.try_restore(), None);
    log.try_store("again".to_string());
    assert_eq!(log.try_restore(), Some("again".to_string()));
}

#[test]
fn scroll_reset_clears_position_and_stash_but_not_the_log() {
    let mut log = log_of(&[("a", "1"), ("b", "2")]);
    log.shift(ScrollDir::Up);
    log.shift(ScrollDir::Up);
    log.try_store("live".to_string());
    log.scroll_reset();
    assert_eq!(log.get_pos(), 0);
    assert_eq!(log.try_restore(), None);
    assert_eq!(log.render_all().len(), 2);
    assert_eq!(log.retrieve(HistoryEntry::Query(0)), "b");
}

#[test]
fn render_all_lists_newest_first() {
    let log = log_of(&[("1+1", "2"), ("2*3", "6")]);
    assert_eq!(log.render_all(), vec!["\n 2*3 = 6".to_string(), "\n 1+1 = 2".to_string()]);
}

#[test]
fn render_all_of_one_entry() {
    let log = log_of(&[("sin(0)", "0")]);
    assert_eq!(log.render_all(), vec!["\n sin(0) = 0".to_string()]);
}

#[test]
fn archive_while_scrolling_keeps_the_position() {
    let mut log = log_of(&[("a", "1")]);
    log.shift(ScrollDir::Up);
    log.archive("b".to_string(), "2".to_string());
    assert_eq!(log.get_pos(), 1);
    assert_eq!(log.curr(), Some("b".to_string()));
}

#[test]
fn position_never_leaves_the_log() {
    let mut log = log_of(&[("a", "1"), ("b", "2"), ("c", "3")]);
    let moves = [
        ScrollDir::Up,
        ScrollDir::Up,
        ScrollDir::Down,
        ScrollDir::Up,
        ScrollDir::Up,
        ScrollDir::Up,
        ScrollDir::Up,
        ScrollDir::Down,
        ScrollDir::Down,
        ScrollDir::Down,
        ScrollDir::Down,
        ScrollDir::Down,
    ];
    for dir in moves {
        log.shift(dir);
        assert!(log.get_pos() <= 3);
    }
    assert_eq!(log.get_pos(), 0);
}
