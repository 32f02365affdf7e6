//! The evaluation engine's context, as far as this library looks into it:
//! its settings and the definitions that a user has stored in it.

use vstd::prelude::*;
use crate::engine::{engine_reads, plain_expr};
use crate::expr::ExprView;

verus! {

/// `num_parser::Context`, the engine's settings and the user's definitions.
/// Nothing inside it is visible here: what it holds goes by the names below.
#[verifier::external_type_specification]
#[verifier::external_body]
pub struct ExContext(num_parser::Context);

/// The deepest nesting that the contexts of this library let an evaluation
/// reach.
pub const MAX_DEPTH: u32 = 100;

/// How many decimal places results are rounded to.
#[derive(Clone, Copy, Debug, PartialEq, Eq, Structural)]
pub enum Rounding {
    Round(u8),
    NoRounding,
}

/// The unit in which angles are read and given.
#[derive(Clone, Copy, Debug, PartialEq, Eq, Structural)]
pub enum AngleUnit {
    Radian,
    Degree,
    Turn,
}

/// A user-defined function: its parameter names in order, and its body.
pub struct FunctionView {
    pub params: Seq<Seq<char>>,
    pub body: ExprView,
}

/// What a context stands for.
pub struct ContextView {
    pub rounding: Rounding,
    pub angle_unit: AngleUnit,
    /// The deepest nesting that an evaluation may reach; `None` for no limit.
    pub depth_limit: Option<u32>,
    /// The user's variables, by name.
    pub variables: Map<Seq<char>, ExprView>,
    /// The user's functions, by name.
    pub functions: Map<Seq<char>, FunctionView>,
}

/// What the engine answered to one query.
#[derive(Debug)]
pub enum EvalOutcome {
    /// The query was an expression; this is its value as text.
    Value(String),
    /// The query was a definition, which the context now holds.
    Defined,
    /// The engine rejected the query; this is its message.
    Failed(String),
}

/// What an `EvalOutcome` stands for.
pub enum OutcomeView {
    Value(Seq<char>),
    Defined,
    Failed(Seq<char>),
}

impl View for EvalOutcome {
    type V = OutcomeView;

    open spec fn view(&self) -> OutcomeView {
        match self {
            EvalOutcome::Value(text) => OutcomeView::Value(text@),
            EvalOutcome::Defined => OutcomeView::Defined,
            EvalOutcome::Failed(message) => OutcomeView::Failed(message@),
        }
    }
}

impl ContextView {
    /// The context that a session starts with: five decimal places, radians,
    /// a depth limit of 100, nothing defined.
    pub open spec fn initial() -> ContextView {
        ContextView {
            rounding: Rounding::Round(5),
            angle_unit: AngleUnit::Radian,
            depth_limit: Some(MAX_DEPTH),
            variables: Map::empty(),
            functions: Map::empty(),
        }
    }

    /// Radians become degrees; degrees and turns become radians.
    pub open spec fn toggle_angle_unit(self) -> ContextView {
        ContextView {
            angle_unit: match self.angle_unit {
                AngleUnit::Radian => AngleUnit::Degree,
                _ => AngleUnit::Radian,
            },
            ..self
        }
    }

    /// The same context with the rounding `rounding`.
    pub open spec fn with_rounding(self, rounding: Rounding) -> ContextView {
        ContextView { rounding, ..self }
    }

    /// What the engine needs of a context to come back from it: a limit on
    /// depth, of at most `MAX_DEPTH`, and no body, of a variable or of a
    /// function, with a name in it that the engine must not be handed.
    pub open spec fn wf(self) -> bool {
        &&& self.depth_limit matches Some(depth) && depth <= MAX_DEPTH
        &&& forall|name: Seq<char>|
            self.variables.contains_key(name) ==> plain_expr(#[trigger] self.variables[name])
        &&& forall|name: Seq<char>|
            self.functions.contains_key(name) ==> plain_expr((#[trigger] self.functions[name]).body)
    }

    /// `self` is `before` with one variable or one function stored, under a
    /// new name or in place of the definition that had the name.
    pub open spec fn stores_one_more_than(self, before: ContextView) -> bool {
        ||| (self.functions == before.functions && exists|name: Seq<char>, body: ExprView|
            self.variables == #[trigger] before.variables.insert(name, body))
        ||| (self.variables == before.variables && exists|name: Seq<char>, function: FunctionView|
            self.functions == #[trigger] before.functions.insert(name, function))
    }

    /// `self` can be what an evaluation that answered `outcome` left of
    /// `before`: the settings are kept; a definition is stored exactly where
    /// the answer says so.
    pub open spec fn follows(self, before: ContextView, outcome: OutcomeView) -> bool {
        &&& self.rounding == before.rounding
        &&& self.angle_unit == before.angle_unit
        &&& self.depth_limit == before.depth_limit
        &&& match outcome {
            OutcomeView::Defined => self.stores_one_more_than(before),
            _ => self.variables == before.variables && self.functions == before.functions,
        }
    }
}

/// The rounding that the context `c` holds.
pub uninterp spec fn context_rounding(c: num_parser::Context) -> Rounding;

/// The angle unit that the context `c` holds.
pub uninterp spec fn context_angle_unit(c: num_parser::Context) -> AngleUnit;

/// The depth limit that the context `c` holds; `None` where it has none.
pub uninterp spec fn context_depth_limit(c: num_parser::Context) -> Option<u32>;

/// The variables that the context `c` holds: each name with the shape of its body.
pub uninterp spec fn context_variables(c: num_parser::Context) -> Map<Seq<char>, ExprView>;

/// The functions that the context `c` holds: each name with its parameters and
/// the shape of its body.
pub uninterp spec fn context_functions(c: num_parser::Context) -> Map<Seq<char>, FunctionView>;

/// What the context `c` holds.
pub open spec fn context_view(c: num_parser::Context) -> ContextView {
    ContextView {
        rounding: context_rounding(c),
        angle_unit: context_angle_unit(c),
        depth_limit: context_depth_limit(c),
        variables: context_variables(c),
        functions: context_functions(c),
    }
}

/// `num_parser::Context::new`, with the limit `depth` on nesting: a context
/// that holds the settings it was given, and no variable and no function.
#[verifier::external_body]
fn new_context(rounding: Rounding, angle_unit: AngleUnit, depth: u32) -> (c: num_parser::Context)
    ensures
        context_rounding(c) == rounding,
        context_angle_unit(c) == angle_unit,
        context_depth_limit(c) == Some(depth),
        context_variables(c) == ContextView::initial().variables,
        context_functions(c) == ContextView::initial().functions,
{
    num_parser::Context::new(
        match rounding {
            Rounding::Round(places) => num_parser::settings::Rounding::Round(places),
            Rounding::NoRounding => num_parser::settings::Rounding::NoRounding,
        },
        match angle_unit {
            AngleUnit::Radian => num_parser::settings::AngleUnit::Radian,
            AngleUnit::Degree => num_parser::settings::AngleUnit::Degree,
            AngleUnit::Turn => num_parser::settings::AngleUnit::Turn,
        },
        num_parser::settings::DepthLimit::Limit(depth),
    )
}

/// Reads the field `rounding` of a `num_parser::Context`.
#[verifier::external_body]
fn rounding_of(c: &num_parser::Context) -> (rounding: Rounding)
    ensures
        rounding == context_rounding(*c),
{
    match c.rounding {
        num_parser::settings::Rounding::Round(places) => Rounding::Round(places),
        num_parser::settings::Rounding::NoRounding => Rounding::NoRounding,
    }
}

/// Reads the field `angle_unit` of a `num_parser::Context`.
#[verifier::external_body]
fn angle_unit_of(c: &num_parser::Context) -> (angle_unit: AngleUnit)
    ensures
        angle_unit == context_angle_unit(*c),
{
    match c.angle_unit {
        num_parser::settings::AngleUnit::Radian => AngleUnit::Radian,
        num_parser::settings::AngleUnit::Degree => AngleUnit::Degree,
        num_parser::settings::AngleUnit::Turn => AngleUnit::Turn,
    }
}

/// Writes the field `rounding` of a `num_parser::Context`. Nothing else in
/// the context changes.
#[verifier::external_body]
fn set_rounding(c: &mut num_parser::Context, rounding: Rounding)
    ensures
        context_view(*final(c)) == context_view(*old(c)).with_rounding(rounding),
{
    c.rounding = match rounding {
        Rounding::Round(places) => num_parser::settings::Rounding::Round(places),
        Rounding::NoRounding => num_parser::settings::Rounding::NoRounding,
    };
}

/// Writes the field `angle_unit` of a `num_parser::Context`. Nothing else in
/// the context changes.
#[verifier::external_body]
fn set_angle_unit(c: &mut num_parser::Context, angle_unit: AngleUnit)
    ensures
        context_view(*final(c)) == (ContextView { angle_unit, ..context_view(*old(c)) }),
{
    c.angle_unit = match angle_unit {
        AngleUnit::Radian => num_parser::settings::AngleUnit::Radian,
        AngleUnit::Degree => num_parser::settings::AngleUnit::Degree,
        AngleUnit::Turn => num_parser::settings::AngleUnit::Turn,
    };
}

/// `num_parser::eval_with_mutable_context`, with the value or the error it
/// returns turned into text by `to_string`. The call never writes the
/// settings. It stores a definition, one variable or one function, exactly
/// when it returns `Ok(None)`; otherwise the context is left as it was.
/// Nothing is claimed of which answer comes or of its text.
///
/// The engine panics on some lines: see `engine_reads`, which leaves them
/// out, here for the line and, by `wf`, for the bodies that the line may call
/// up. Without a limit on depth it would follow a definition that calls
/// itself until the stack is used up, which `wf` leaves out too. The names in
/// a body that the engine stores are cut out of the line it was handed, so
/// they are as plain as the line.
#[verifier::external_body]
fn eval_in_context(input: &str, c: &mut num_parser::Context) -> (outcome: EvalOutcome)
    requires
        engine_reads(input@),
        context_view(*old(c)).wf(),
    ensures
        context_view(*final(c)).follows(context_view(*old(c)), outcome@),
        context_view(*final(c)).wf(),
{
    match num_parser::eval_with_mutable_context(input, c) {
        Ok(Some(value)) => EvalOutcome::Value(value.to_string()),
        Ok(None) => EvalOutcome::Defined,
        Err(error) => EvalOutcome::Failed(error.to_string()),
    }
}

/// Owns a value of type `T` and gives it a starting state of its own choosing:
/// for the engine's context, `ContextView::initial()`.
#[derive(Debug)]
pub struct ContextWrapper<T>(T);

impl<T> ContextWrapper<T> {
    /// The value that is wrapped.
    pub closed spec fn inner(&self) -> T {
        self.0
    }
}

impl<T> core::ops::Deref for ContextWrapper<T> {
    type Target = T;

    fn deref(&self) -> (r: &T)
        ensures
            *r == self.inner(),
    {
        &self.0
    }
}

impl View for ContextWrapper<num_parser::Context> {
    type V = ContextView;

    open spec fn view(&self) -> ContextView {
        context_view(self.inner())
    }
}

impl Default for ContextWrapper<num_parser::Context> {
    fn default() -> (r: Self)
        ensures
            r@ == ContextView::initial(),
    {
        ContextWrapper(new_context(Rounding::Round(5), AngleUnit::Radian, MAX_DEPTH))
    }
}

impl ContextWrapper<num_parser::Context> {
    /// The rounding in force.
    pub fn rounding(&self) -> (rounding: Rounding)
        ensures
            rounding == self@.rounding,
    {
        rounding_of(&self.0)
    }

    /// The angle unit in force.
    pub fn angle_unit(&self) -> (angle_unit: AngleUnit)
        ensures
            angle_unit == self@.angle_unit,
    {
        angle_unit_of(&self.0)
    }

    /// Puts the rounding `rounding` in force.
    pub fn set_rounding(&mut self, rounding: Rounding)
        ensures
            final(self)@ == old(self)@.with_rounding(rounding),
    {
        set_rounding(&mut self.0, rounding);
    }

    /// Switches between radians and degrees; from turns, to radians.
    pub fn toggle_angle_unit(&mut self)
        ensures
            final(self)@ == old(self)@.toggle_angle_unit(),
    {
        match angle_unit_of(&self.0) {
            AngleUnit::Radian => set_angle_unit(&mut self.0, AngleUnit::Degree),
            _ => set_angle_unit(&mut self.0, AngleUnit::Radian),
        }
    }

    /// Hands `input` to the engine, which may store a definition in the context.
    /// Which answer comes is the engine's business; the context that is left
    /// fits the answer.
    pub fn evaluate(&mut self, input: &str) -> (outcome: EvalOutcome)
        requires
            engine_reads(input@),
            old(self)@.wf(),
        ensures
            final(self)@.follows(old(self)@, outcome@),
            final(self)@.wf(),
    {
        eval_in_context(input, &mut self.0)
    }
}

} // verus!
