//! What holds of the calculator's states whatever keys are pressed.

use vstd::prelude::*;
use crate::app::{AppMode, AppView, Key};
use crate::context::{ContextView, OutcomeView};
use crate::history::{EntryView, QueriesView, ScrollDir};
use crate::input::{CursorDir, InputView};

verus! {

/// Moving the cursor never changes the text, nor the order of its characters.
pub proof fn lemma_cursor_moves_keep_the_text(line: InputView, dir: CursorDir)
    ensures
        line.shift(dir).text() == line.text(),
{
    assert(line.shift(dir).text() =~= line.text());
}

/// Typing a character and deleting it again leaves the line as it was.
pub proof fn lemma_backspace_undoes_insert(line: InputView, c: char)
    ensures
        line.insert(c).backspace() == line,
{
    assert(line.before.push(c).drop_last() =~= line.before);
}

/// No operation on the log takes the scroll position out of it.
pub proof fn lemma_log_operations_keep_the_position_in_the_log(
    log: QueriesView,
    dir: ScrollDir,
    text: Seq<char>,
    query: Seq<char>,
    value: Seq<char>,
)
    requires
        log.wf(),
    ensures
        log.shift(dir).wf(),
        log.store(text).wf(),
        log.without_stash().wf(),
        log.scroll_reset().wf(),
        log.archive(query, value).wf(),
{
}

/// The stash keeps the first line it was given: storing again changes nothing.
pub proof fn lemma_store_keeps_the_first_line(log: QueriesView, first: Seq<char>, second: Seq<char>)
    ensures
        log.store(first).store(second) == log.store(first),
        log.stash is None ==> log.store(first).stash == Some(first),
{
}

/// A session starts in a well-formed state.
pub proof fn lemma_initial_state_is_wf()
    ensures
        AppView::initial().wf(),
{
}

/// No key takes the scroll position out of the log, and none leaves a line
/// stashed at position 0: a key that does not evaluate keeps a well-formed
/// state well-formed.
pub proof fn lemma_key_keeps_wf(s: AppView, key: Key)
    requires
        s.wf(),
    ensures
        s.after_key(key).wf(),
        s.after_key(key).history.pos <= s.after_key(key).history.entries.len(),
        s.after_key(key).history.stash is Some ==> s.after_key(key).history.pos > 0,
{
}

/// An evaluation ends scrolling whatever the engine answers: the state it
/// leaves is well-formed, at position 0, with nothing stashed.
pub proof fn lemma_evaluation_keeps_wf(s: AppView, outcome: OutcomeView, context: ContextView)
    requires
        context.wf(),
    ensures
        s.evaluated(outcome, context).wf(),
        s.evaluated(outcome, context).history.pos == 0,
        s.evaluated(outcome, context).history.stash is None,
{
}

/// Escape while typing queries: not scrolling, the line becomes empty;
/// scrolling, the line becomes the stashed one, with the cursor at its end.
/// Either way scrolling is over afterwards.
pub proof fn lemma_escape(s: AppView)
    requires
        s.wf(),
        s.mode == AppMode::Normal,
    ensures
        s.history.pos == 0 ==> s.after_key(Key::Esc).input == InputView::empty(),
        s.history.pos > 0 ==> s.after_key(Key::Esc).input == InputView::at_end(
            s.history.stash.unwrap(),
        ),
        s.after_key(Key::Esc).history.pos == 0,
        s.after_key(Key::Esc).history.stash is None,
        s.after_key(Key::Esc).history.entries == s.history.entries,
{
}

/// Only a value is logged. An evaluation that gives a value adds one entry,
/// the line with that value; one that stores a definition or fails adds none.
pub proof fn lemma_only_values_are_logged(s: AppView, outcome: OutcomeView, context: ContextView)
    ensures
        s.evaluated(outcome, context).history.entries == (match outcome {
            OutcomeView::Value(value) => s.history.entries.push(
                EntryView { query: s.input.text(), value },
            ),
            _ => s.history.entries,
        }),
        !(outcome is Value) ==> s.evaluated(outcome, context).history.entries.len()
            == s.history.entries.len(),
{
}

/// Whatever the engine answers, an evaluation leaves the log as it was or
/// with one entry more, and that entry asks what the line asked.
pub proof fn lemma_evaluation_logs_at_most_the_line(s: AppView, after: AppView)
    requires
        s.evaluates_to(after),
    ensures
        after.history.entries == s.history.entries || (after.history.entries.len()
            == s.history.entries.len() + 1 && after.history.entries.drop_last()
            == s.history.entries && after.history.entries.last().query == s.input.text()),
        after.history.pos == 0,
        after.history.stash is None,
        after.mode == s.mode,
        after.exit == s.exit,
{
    let outcome = choose|outcome: OutcomeView|
        after.context.follows(s.context, outcome) && after == #[trigger] s.evaluated(
            outcome,
            after.context,
        );
    if outcome is Value {
        assert(after.history.entries.drop_last() =~= s.history.entries);
    }
}

/// A key that does not evaluate leaves the log as it is.
pub proof fn lemma_keys_keep_the_log(s: AppView, key: Key)
    ensures
        s.after_key(key).history.entries == s.history.entries,
{
}

/// Pressing a key `a + b` times is pressing it `a` times and then `b` times.
pub proof fn lemma_after_keys_add(s: AppView, key: Key, a: nat, b: nat)
    ensures
        s.after_keys(key, a + b) == s.after_keys(key, a).after_keys(key, b),
    decreases b,
{
    if b > 0 {
        lemma_after_keys_add(s, key, a, (b - 1) as nat);
    }
}

/// The number of steps that `n` presses of Up take through a log of `len` entries.
pub open spec fn steps_up(n: nat, len: nat) -> nat {
    if n <= len {
        n
    } else {
        len
    }
}

/// From the live line, `n` presses of Up lead to the `n`-th newest entry, or
/// to the oldest if the log is shorter. From the first press on, the live
/// line is stashed. Only the line and the scroll state change.
pub proof fn lemma_scrolled_up(s: AppView, n: nat)
    requires
        s.wf(),
        s.mode == AppMode::Normal,
        s.history.pos == 0,
    ensures
        s.after_keys(Key::Up, n).wf(),
        s.after_keys(Key::Up, n).history.pos == steps_up(n, s.history.entries.len()),
        s.after_keys(Key::Up, n).history.pos > 0 ==> s.after_keys(Key::Up, n).history.stash
            == Some(s.input.text()),
        s.after_keys(Key::Up, n).history.pos == 0 ==> s.after_keys(Key::Up, n) == s,
        s.after_keys(Key::Up, n) == (AppView {
            input: s.after_keys(Key::Up, n).input,
            history: s.after_keys(Key::Up, n).history,
            ..s
        }),
        s.after_keys(Key::Up, n).history.entries == s.history.entries,
    decreases n,
{
    if n > 0 {
        lemma_scrolled_up(s, (n - 1) as nat);
    }
}

/// From the `p`-th newest entry, `p` presses of Down lead back to the live
/// line and put the stashed line there, with the cursor at its end.
pub proof fn lemma_scrolled_down(s: AppView, p: nat)
    requires
        s.wf(),
        s.mode == AppMode::Normal,
        s.history.pos == p,
        p > 0,
    ensures
        s.after_keys(Key::Down, p) == (AppView {
            input: InputView::at_end(s.history.stash.unwrap()),
            history: s.history.scroll_reset(),
            ..s
        }),
{
    lemma_scrolling_down(s, p);
}

/// On the way down from the `p`-th newest entry: after `j <= p` presses of
/// Down the position is `p - j`; the stash is kept until the live line is
/// reached and handed back there.
proof fn lemma_scrolling_down(s: AppView, j: nat)
    requires
        s.wf(),
        s.mode == AppMode::Normal,
        j <= s.history.pos,
    ensures
        s.after_keys(Key::Down, j).history.pos == s.history.pos - j,
        s.after_keys(Key::Down, j).history.entries == s.history.entries,
        s.after_keys(Key::Down, j) == (AppView {
            input: s.after_keys(Key::Down, j).input,
            history: s.after_keys(Key::Down, j).history,
            ..s
        }),
        j < s.history.pos ==> s.after_keys(Key::Down, j).history.stash == s.history.stash,
        0 < j == s.history.pos ==> s.after_keys(Key::Down, j).history.stash is None
            && s.after_keys(Key::Down, j).input == InputView::at_end(s.history.stash.unwrap()),
    decreases j,
{
    if j > 0 {
        lemma_scrolling_down(s, (j - 1) as nat);
    }
}

/// On the live line, with nothing stashed, Down empties the line, however
/// often it is pressed, and changes nothing else.
pub proof fn lemma_down_on_live_line(s: AppView, n: nat)
    requires
        s.wf(),
        s.mode == AppMode::Normal,
        s.history.pos == 0,
        n > 0,
    ensures
        s.after_keys(Key::Down, n) == (AppView { input: InputView::empty(), ..s }),
    decreases n,
{
    if n > 1 {
        lemma_down_on_live_line(s, (n - 1) as nat);
    } else {
        assert(s.after_keys(Key::Down, 0) == s);
    }
}

/// Scrolling up and as many steps down again gives the line its text back.
///
/// This holds as long as the presses stay within the log: the steps that Up
/// could not take, Down still takes, on the live line, where it empties the
/// line. So with more presses than entries only an empty line comes back as
/// it was.
pub proof fn lemma_scroll_round_trip(s: AppView, n: nat)
    requires
        s.wf(),
        s.mode == AppMode::Normal,
        s.history.pos == 0,
        n <= s.history.entries.len() || s.input.text() == Seq::<char>::empty(),
    ensures
        s.after_keys(Key::Up, n).after_keys(Key::Down, n).input.text() == s.input.text(),
        s.after_keys(Key::Up, n).after_keys(Key::Down, n).history == s.history,
{
    let up = s.after_keys(Key::Up, n);
    let p = up.history.pos;
    lemma_scrolled_up(s, n);
    if n > 0 {
        if p == 0 {
            lemma_down_on_live_line(up, n);
        } else {
            lemma_after_keys_add(up, Key::Down, p, (n - p) as nat);
            lemma_scrolled_down(up, p);
            let back = up.after_keys(Key::Down, p);
            assert(back.input.text() =~= s.input.text());
            if n > p {
                lemma_down_on_live_line(back, (n - p) as nat);
            }
        }
        assert(InputView::empty().text() =~= Seq::<char>::empty());
    }
}

/// Escape while scrolling gives back the line that was live when scrolling
/// began: after any number of presses of Up that left the live line, Escape
/// restores that line, with the cursor at its end, and all else as it was.
pub proof fn lemma_escape_restores_live_line(s: AppView, n: nat)
    requires
        s.wf(),
        s.mode == AppMode::Normal,
        s.history.pos == 0,
        n > 0,
        s.history.entries.len() > 0,
    ensures
        s.after_keys(Key::Up, n).after_key(Key::Esc) == (AppView {
            input: InputView::at_end(s.input.text()),
            ..s
        }),
{
    lemma_scrolled_up(s, n);
}

} // verus!
