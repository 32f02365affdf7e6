//! The calculator's state and what each key does to it.

use vstd::prelude::*;
use crate::context::{ContextView, ContextWrapper, EvalOutcome, OutcomeView};
use crate::engine::{engine_reads, is_readable};
use crate::history::{HistoryEntry, Queries, QueriesView, ScrollDir};
use crate::input::{CursorDir, Input, InputView};
use crate::rounding::{rounding_for, rounding_from_text};

verus! {

/// Which of the three panes has the keyboard.
#[derive(Clone, Copy, Debug, PartialEq, Eq, Structural)]
pub enum AppMode {
    /// Typing and evaluating queries.
    Normal,
    /// The options menu.
    Option,
    /// Typing the number of decimal places.
    RoundingSelect,
}

impl Default for AppMode {
    fn default() -> (mode: AppMode)
        ensures
            mode == AppMode::Normal,
    {
        AppMode::Normal
    }
}

/// A key press, as far as the calculator tells keys apart.
#[derive(Clone, Copy, Debug, PartialEq, Eq, Structural)]
pub enum Key {
    Enter,
    Backspace,
    Tab,
    Char(char),
    Esc,
    Up,
    Down,
    Left,
    Right,
    /// Any key that has no meaning in any mode.
    Other,
}

/// What an `App` stands for.
pub struct AppView {
    /// The line under edit.
    pub input: InputView,
    /// The last result or error message.
    pub output: Seq<char>,
    pub history: QueriesView,
    pub context: ContextView,
    pub mode: AppMode,
    /// Set once the user has asked to quit.
    pub exit: bool,
}

impl AppView {
    /// The state in which a session starts.
    pub open spec fn initial() -> AppView {
        AppView {
            input: InputView::empty(),
            output: Seq::empty(),
            history: QueriesView::empty(),
            context: ContextView::initial(),
            mode: AppMode::Normal,
            exit: false,
        }
    }

    /// The scroll position lies within the log, a line is stashed exactly
    /// while the position is not 0, and the context is one that the engine can
    /// work on.
    pub open spec fn wf(self) -> bool {
        &&& self.history.wf()
        &&& self.history.stash is Some <==> self.history.pos > 0
        &&& self.context.wf()
    }

    /// `key` hands the line to the engine: Enter, while typing queries, on a
    /// line that the engine can be handed.
    pub open spec fn evaluates(self, key: Key) -> bool {
        self.mode == AppMode::Normal && key == Key::Enter && engine_reads(self.input.text())
    }

    /// One step towards older entries. Leaving the live line stashes it; the
    /// line then shows the entry that the position has reached. With an empty
    /// log nothing happens.
    pub open spec fn scroll_up(self) -> AppView {
        let shifted = self.history.shift(ScrollDir::Up);
        match shifted.current() {
            None => AppView { history: shifted, ..self },
            Some(_) => {
                let history = shifted.store(self.input.text());
                AppView { history, input: InputView::at_end(history.current().unwrap()), ..self }
            },
        }
    }

    /// One step towards the live line. The line shows the entry that the
    /// position has reached; at position 0 it gets the stashed line back, or
    /// becomes empty where nothing is stashed.
    pub open spec fn scroll_down(self) -> AppView {
        let shifted = self.history.shift(ScrollDir::Down);
        match shifted.current() {
            None => AppView {
                history: shifted.without_stash(),
                input: InputView::at_end(
                    match shifted.stash {
                        Some(text) => text,
                        None => Seq::empty(),
                    },
                ),
                ..self
            },
            Some(query) => AppView { history: shifted, input: InputView::at_end(query), ..self },
        }
    }

    /// Escape while typing queries. Not scrolling, it empties the line.
    /// Scrolling, it gives the stashed line back and ends scrolling.
    pub open spec fn escape(self) -> AppView {
        AppView {
            input: if self.history.pos > 0 {
                InputView::at_end(
                    match self.history.stash {
                        Some(text) => text,
                        None => Seq::empty(),
                    },
                )
            } else {
                InputView::empty()
            },
            history: self.history.scroll_reset(),
            ..self
        }
    }

    /// What `key` does while typing queries. Enter is covered here only for a
    /// line that the engine cannot be handed, on which it does nothing; for
    /// any other line see `evaluated`.
    pub open spec fn normal_key(self, key: Key) -> AppView {
        match key {
            Key::Backspace => AppView { input: self.input.backspace(), ..self },
            Key::Tab => AppView { mode: AppMode::Option, ..self },
            Key::Char(c) => AppView { input: self.input.insert(c), ..self },
            Key::Esc => self.escape(),
            Key::Up => self.scroll_up(),
            Key::Down => self.scroll_down(),
            Key::Left => AppView { input: self.input.shift(CursorDir::Left), ..self },
            Key::Right => AppView { input: self.input.shift(CursorDir::Right), ..self },
            Key::Enter | Key::Other => self,
        }
    }

    /// What `key` does in the options menu.
    pub open spec fn option_key(self, key: Key) -> AppView {
        match key {
            Key::Char('q') => AppView { exit: true, ..self },
            Key::Char('d') => AppView { context: self.context.toggle_angle_unit(), ..self },
            Key::Char('r') => AppView {
                input: InputView::empty(),
                mode: AppMode::RoundingSelect,
                ..self
            },
            Key::Char('c') => AppView { context: ContextView::initial(), ..self },
            Key::Tab | Key::Esc => AppView { mode: AppMode::Normal, ..self },
            _ => self,
        }
    }

    /// What `key` does while the number of decimal places is typed.
    pub open spec fn rounding_key(self, key: Key) -> AppView {
        match key {
            Key::Tab | Key::Esc => AppView {
                input: InputView::empty(),
                mode: AppMode::Option,
                ..self
            },
            Key::Char(c) => AppView { input: self.input.insert(c), ..self },
            Key::Enter => AppView {
                context: self.context.with_rounding(rounding_for(self.input.text())),
                input: InputView::empty(),
                mode: AppMode::Normal,
                ..self
            },
            Key::Backspace => AppView { input: self.input.backspace(), ..self },
            Key::Left => AppView { input: self.input.shift(CursorDir::Left), ..self },
            Key::Right => AppView { input: self.input.shift(CursorDir::Right), ..self },
            Key::Up | Key::Down | Key::Other => self,
        }
    }

    /// The state after `key`, for every key in every mode, unless the key
    /// `evaluates`.
    pub open spec fn after_key(self, key: Key) -> AppView {
        match self.mode {
            AppMode::Normal => self.normal_key(key),
            AppMode::Option => self.option_key(key),
            AppMode::RoundingSelect => self.rounding_key(key),
        }
    }

    /// The state after `n` presses of `key`.
    pub open spec fn after_keys(self, key: Key, n: nat) -> AppView
        decreases n,
    {
        if n == 0 {
            self
        } else {
            self.after_keys(key, (n - 1) as nat).after_key(key)
        }
    }

    /// The state after the engine has answered `outcome` to the line and left
    /// the context `context`. Scrolling ends in every case. A value is logged
    /// with the line that asked for it, and shown; the line is emptied. A
    /// definition empties the line and what is shown. A failure shows its
    /// message and keeps the line.
    pub open spec fn evaluated(self, outcome: OutcomeView, context: ContextView) -> AppView {
        let history = self.history.scroll_reset();
        match outcome {
            OutcomeView::Value(value) => AppView {
                history: history.archive(self.input.text(), value),
                output: value,
                input: InputView::empty(),
                context,
                ..self
            },
            OutcomeView::Defined => AppView {
                history,
                output: Seq::empty(),
                input: InputView::empty(),
                context,
                ..self
            },
            OutcomeView::Failed(message) => AppView { history, output: message, context, ..self },
        }
    }

    /// `after` is a state that an evaluation can leave of `self`: the state
    /// that `evaluated` gives for some answer of the engine, with a context
    /// that fits that answer.
    pub open spec fn evaluates_to(self, after: AppView) -> bool {
        exists|outcome: OutcomeView|
            after.context.follows(self.context, outcome) && after == #[trigger] self.evaluated(
                outcome,
                after.context,
            )
    }
}

/// The calculator: the line under edit, the last output, the log of answered
/// queries, the engine's context, the mode, and whether the user has quit.
#[derive(Debug)]
pub struct App {
    input: Input,
    last_output: String,
    history: Queries,
    ctxt: ContextWrapper<num_parser::Context>,
    mode: AppMode,
    exit: bool,
}

impl View for App {
    type V = AppView;

    closed spec fn view(&self) -> AppView {
        AppView {
            input: self.input@,
            output: self.last_output@,
            history: self.history@,
            context: self.ctxt@,
            mode: self.mode,
            exit: self.exit,
        }
    }
}

impl Default for App {
    fn default() -> (app: App)
        ensures
            app@ == AppView::initial(),
    {
        App {
            input: Input::default(),
            last_output: String::new(),
            history: Queries::default(),
            ctxt: ContextWrapper::default(),
            mode: AppMode::default(),
            exit: false,
        }
    }
}

impl App {
    /// The line under edit.
    pub fn input(&self) -> (input: &Input)
        ensures
            input@ == self@.input,
    {
        &self.input
    }

    /// The last result or error message.
    pub fn last_output(&self) -> (output: &String)
        ensures
            output@ == self@.output,
    {
        &self.last_output
    }

    /// The log of answered queries.
    pub fn history(&self) -> (history: &Queries)
        ensures
            history@ == self@.history,
    {
        &self.history
    }

    /// The engine's context.
    pub fn context(&self) -> (context: &ContextWrapper<num_parser::Context>)
        ensures
            context@ == self@.context,
    {
        &self.ctxt
    }

    /// The mode that has the keyboard.
    pub fn mode(&self) -> (mode: AppMode)
        ensures
            mode == self@.mode,
    {
        self.mode
    }

    /// Whether the user has asked to quit.
    pub fn should_exit(&self) -> (exit: bool)
        ensures
            exit == self@.exit,
    {
        self.exit
    }

    /// Records that the user has asked to quit.
    pub fn exit(&mut self)
        ensures
            final(self)@ == (AppView { exit: true, ..old(self)@ }),
    {
        self.exit = true;
    }

    /// Takes the engine's answer to the line under edit into the state.
    pub fn finish_evaluation(&mut self, outcome: EvalOutcome)
        ensures
            final(self)@ == old(self)@.evaluated(outcome@, old(self)@.context),
            old(self)@.context.wf() ==> final(self)@.wf(),
    {
        self.history.scroll_reset();
        match outcome {
            EvalOutcome::Value(value) => {
                self.history.archive(self.input.get_text(), value);
                self.last_output = self.history.retrieve(HistoryEntry::Value(0)).clone();
                self.input.reset();
            },
            EvalOutcome::Defined => {
                self.input.reset();
                self.last_output = String::new();
            },
            EvalOutcome::Failed(message) => {
                self.last_output = message;
            },
        }
    }

    /// Hands the line under edit to the engine and takes its answer into the
    /// state. Which answer comes is the engine's business: the new state is
    /// the one that `evaluated` gives for some answer, with a context that
    /// fits that answer.
    pub fn evaluate(&mut self)
        requires
            engine_reads(old(self)@.input.text()),
            old(self)@.context.wf(),
        ensures
            final(self)@.wf(),
            old(self)@.evaluates_to(final(self)@),
    {
        let text = self.input.get_text();
        let outcome = self.ctxt.evaluate(text.as_str());
        let ghost answered = outcome@;
        self.finish_evaluation(outcome);
        assert(self@ == old(self)@.evaluated(answered, self@.context));
    }

    /// Does what `key` asks for in the current mode. Every key has an effect
    /// in every mode, if only none: Enter on a line that the engine cannot be
    /// handed changes nothing.
    pub fn handle_key_event(&mut self, key: Key)
        requires
            old(self)@.wf(),
        ensures
            final(self)@.wf(),
            !old(self)@.evaluates(key) ==> final(self)@ == old(self)@.after_key(key),
            old(self)@.evaluates(key) ==> old(self)@.evaluates_to(final(self)@),
    {
        match self.mode {
            AppMode::Normal => match key {
                Key::Enter => {
                    let text = self.input.get_text();
                    if is_readable(text.as_str()) {
                        self.evaluate();
                    }
                },
                Key::Backspace => self.input.backspace(),
                Key::Tab => self.mode = AppMode::Option,
                Key::Char(c) => self.input.insert(c),
                Key::Esc => {
                    let scrolling = self.history.get_pos() > 0;
                    let stashed = self.history.try_restore();
                    self.history.scroll_reset();
                    match stashed {
                        Some(text) if scrolling => self.input.replace(text),
                        _ => self.input.reset(),
                    }
                },
                Key::Up => {
                    self.history.shift(ScrollDir::Up);
                    if self.history.get_pos() > 0 {
                        self.history.try_store(self.input.get_text());
                        match self.history.curr() {
                            None => (),
                            Some(query) => self.input.replace(query),
                        }
                    }
                },
                Key::Down => {
                    self.history.shift(ScrollDir::Down);
                    match self.history.curr() {
                        None => match self.history.try_restore() {
                            Some(text) => self.input.replace(text),
                            None => self.input.reset(),
                        },
                        Some(query) => self.input.replace(query),
                    }
                },
                Key::Left => self.input.shift(CursorDir::Left),
                Key::Right => self.input.shift(CursorDir::Right),
                Key::Other => (),
            },
            AppMode::Option => match key {
                Key::Char('q') => self.exit(),
                Key::Char('d') => self.ctxt.toggle_angle_unit(),
                Key::Char('r') => {
                    self.input.reset();
                    self.mode = AppMode::RoundingSelect;
                },
                Key::Char('c') => self.ctxt = ContextWrapper::default(),
                Key::Tab => self.mode = AppMode::Normal,
                Key::Esc => self.mode = AppMode::Normal,
                _ => (),
            },
            AppMode::RoundingSelect => match key {
                Key::Tab => {
                    self.input.reset();
                    self.mode = AppMode::Option;
                },
                Key::Esc => {
                    self.input.reset();
                    self.mode = AppMode::Option;
                },
                Key::Char(c) => self.input.insert(c),
                Key::Enter => {
                    let text = self.input.get_text();
                    self.ctxt.set_rounding(rounding_from_text(text.as_str()));
                    self.input.reset();
                    self.mode = AppMode::Normal;
                },
                Key::Backspace => self.input.backspace(),
                Key::Left => self.input.shift(CursorDir::Left),
                Key::Right => self.input.shift(CursorDir::Right),
                _ => (),
            },
        }
    }
}

} // verus!
