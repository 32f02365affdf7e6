//! The user's definitions as display lines.

use vstd::prelude::*;
use crate::context::{context_functions, context_variables, context_view, FunctionView};
use crate::engine::{engine_reads, is_readable};
use crate::expr::{expression_view, node_of, render, render_all, views_of, ExprView, Node};
use crate::text::{concat, join, join_spec, texts};

verus! {

/// What the engine made of a variable's body.
#[derive(Debug)]
pub enum BodyValue {
    /// The engine was not asked: it cannot be handed the body's text.
    NotAsked,
    /// A whole number: the body already says all there is to say.
    Integer,
    /// Any other value, as text.
    Other(String),
    /// No value; this is the engine's message.
    Failed(String),
}

/// What a `BodyValue` stands for.
pub enum BodyValueView {
    NotAsked,
    Integer,
    Other(Seq<char>),
    Failed(Seq<char>),
}

impl View for BodyValue {
    type V = BodyValueView;

    open spec fn view(&self) -> BodyValueView {
        match self {
            BodyValue::NotAsked => BodyValueView::NotAsked,
            BodyValue::Integer => BodyValueView::Integer,
            BodyValue::Other(text) => BodyValueView::Other(text@),
            BodyValue::Failed(message) => BodyValueView::Failed(message@),
        }
    }
}

/// The line that shows a variable: a line break, then `name = body`, followed
/// by ` = value` for a value that is no whole number, or by the engine's
/// message in round brackets where the body has no value. Where the engine
/// was not asked, the line ends after the body.
pub open spec fn variable_line(name: Seq<char>, body: Seq<char>, value: BodyValueView) -> Seq<char> {
    let definition = seq!['\n'] + name + seq![' ', '=', ' '] + body;
    match value {
        BodyValueView::NotAsked | BodyValueView::Integer => definition,
        BodyValueView::Other(text) => definition + seq![' ', '=', ' '] + text,
        BodyValueView::Failed(message) => definition + seq![' ', '('] + message + seq![')'],
    }
}

/// `line` shows the variable `name` with the body text `body`, whatever the
/// engine made of the body. The engine is asked exactly where it can be handed
/// the body's text.
pub open spec fn is_variable_line(line: Seq<char>, name: Seq<char>, body: Seq<char>) -> bool {
    exists|value: BodyValueView|
        line == #[trigger] variable_line(name, body, value) && (value is NotAsked
            <==> !engine_reads(body))
}

/// The line that shows a function: a line break, then `name(p1,p2) = body`.
pub open spec fn function_line(name: Seq<char>, function: FunctionView) -> Seq<char> {
    seq!['\n'] + name + seq!['('] + join_spec(function.params, seq![',']) + seq![')', ' ', '=', ' ']
        + render(function.body)
}

/// `names` holds each name of `defined` once, in some order.
pub open spec fn lists(names: Seq<Seq<char>>, defined: Set<Seq<char>>) -> bool {
    names.no_duplicates() && names.to_set() == defined
}

/// The names under which `list` hands out variables.
pub open spec fn variable_names(list: Seq<(String, &num_parser::Expression)>) -> Seq<Seq<char>> {
    Seq::new(list.len(), |i: int| list[i].0@)
}

/// `list` holds each variable of `variables` once, in some order: its name
/// and its body.
pub open spec fn lists_variables(
    list: Seq<(String, &num_parser::Expression)>,
    variables: Map<Seq<char>, ExprView>,
) -> bool {
    &&& lists(variable_names(list), variables.dom())
    &&& forall|i: int|
        0 <= i < list.len() ==> variables[#[trigger] list[i].0@] == expression_view(*list[i].1)
}

/// The names under which `list` hands out functions.
pub open spec fn function_names(
    list: Seq<(String, Vec<String>, &num_parser::Expression)>,
) -> Seq<Seq<char>> {
    Seq::new(list.len(), |i: int| list[i].0@)
}

/// `list` holds each function of `functions` once, in some order: its name,
/// its parameters and its body.
pub open spec fn lists_functions(
    list: Seq<(String, Vec<String>, &num_parser::Expression)>,
    functions: Map<Seq<char>, FunctionView>,
) -> bool {
    &&& lists(function_names(list), functions.dom())
    &&& forall|i: int|
        0 <= i < list.len() ==> functions[#[trigger] list[i].0@] == (FunctionView {
            params: texts(list[i].1@),
            body: expression_view(*list[i].2),
        })
}

/// Walks the field `variables` of a `num_parser::Context`, a hash map, and
/// hands out each entry once: the name cloned, the body by reference. The
/// order is the map's, which is not fixed.
#[verifier::external_body]
fn variable_list<'a>(c: &'a num_parser::Context) -> (list: Vec<(String, &'a num_parser::Expression)>)
    ensures
        lists_variables(list@, context_variables(*c)),
{
    c.variables.iter().map(|(name, body)| (name.clone(), &**body)).collect()
}

/// Walks the field `functions` of a `num_parser::Context`, a hash map, and
/// hands out each entry once: the name and the parameter names cloned, the
/// body by reference. The order is the map's, which is not fixed.
#[verifier::external_body]
fn function_list<'a>(c: &'a num_parser::Context) -> (list: Vec<
    (String, Vec<String>, &'a num_parser::Expression),
>)
    ensures
        lists_functions(list@, context_functions(*c)),
{
    c.functions.iter().map(|(name, (params, body))| (name.clone(), params.clone(), &**body)).collect()
}

/// `num_parser::eval_with_static_context`: tells a whole number from another
/// value and from an error, and turns the latter two into text by
/// `to_string`. Of which of the three comes nothing is claimed, only that the
/// engine was asked. The lines and contexts on which the engine panics are
/// left out as in `ContextWrapper::evaluate`.
#[verifier::external_body]
fn body_value(input: &str, c: &num_parser::Context) -> (value: BodyValue)
    requires
        engine_reads(input@),
        context_view(*c).wf(),
    ensures
        !(value is NotAsked),
{
    match num_parser::eval_with_static_context(input, c) {
        Ok(num_parser::Value::Int(_)) => BodyValue::Integer,
        Ok(value) => BodyValue::Other(value.to_string()),
        Err(error) => BodyValue::Failed(error.to_string()),
    }
}

/// The texts of `parts`, in order.
fn parse_all(parts: &Vec<&num_parser::Expression>) -> (out: Vec<String>)
    ensures
        texts(out@) == render_all(views_of(parts@)),
    decreases views_of(parts@), 0nat,
{
    let ghost shapes = views_of(parts@);
    let mut out: Vec<String> = Vec::new();
    let mut i: usize = 0;
    while i < parts.len()
        invariant
            i <= parts.len(),
            shapes == views_of(parts@),
            texts(out@) == render_all(shapes.take(i as int)),
        decreases parts.len() - i,
    {
        assert(decreases_to!(shapes => shapes[i as int]));
        assert(shapes[i as int] == expression_view(*parts@[i as int]));
        let part = parser(parts[i]);
        let ghost before = out@;
        out.push(part);
        proof {
            let now = shapes.take(i + 1);
            assert(now.drop_last() =~= shapes.take(i as int));
            assert(now.last() == shapes[i as int]);
            assert(texts(out@) =~= texts(before).push(part@));
        }
        i += 1;
    }
    assert(shapes.take(parts.len() as int) =~= shapes);
    out
}

/// Writes the stored expression `body` back as text.
pub fn parser(body: &num_parser::Expression) -> (s: String)
    ensures
        s@ == render(expression_view(*body)),
    decreases expression_view(*body), 1nat,
{
    let node = node_of(body);
    let ghost shape = expression_view(*body);
    match node {
        Node::Binary(l, op, r) => {
            assert(*shape->Binary_0 == expression_view(*l));
            assert(*shape->Binary_2 == expression_view(*r));
            let left = parser(l);
            let right = parser(r);
            concat(concat(left, op.as_str()), right.as_str())
        },
        Node::Unary(op, x) => {
            assert(*shape->Unary_1 == expression_view(*x));
            let operand = parser(x);
            concat(op, operand.as_str())
        },
        Node::Var(name) => name,
        Node::Func(name, args) => {
            assert(shape->Func_1 == views_of(args@));
            let inner = join(&parse_all(&args), ",");
            let mut s = name;
            s.push('(');
            s.append(inner.as_str());
            s.push(')');
            proof {
                reveal_strlit(",");
                assert(","@ =~= seq![',']);
            }
            s
        },
        Node::Literal(text) => text,
        Node::Union(parts) => {
            assert(shape->Union_0 == views_of(parts@));
            proof {
                reveal_strlit(",");
                assert(","@ =~= seq![',']);
            }
            join(&parse_all(&parts), ",")
        },
    }
}

/// The line that shows the variable `name` with the body `body`, given what
/// the engine made of the body.
pub fn var_line(name: &str, body: &str, value: &BodyValue) -> (line: String)
    ensures
        line@ == variable_line(name@, body@, value@),
{
    let mut line = String::new();
    line.push('\n');
    line.append(name);
    line.push(' ');
    line.push('=');
    line.push(' ');
    line.append(body);
    match value {
        BodyValue::NotAsked => {},
        BodyValue::Integer => {},
        BodyValue::Other(text) => {
            line.push(' ');
            line.push('=');
            line.push(' ');
            line.append(text.as_str());
        },
        BodyValue::Failed(message) => {
            line.push(' ');
            line.push('(');
            line.append(message.as_str());
            line.push(')');
        },
    }
    assert(line@ =~= variable_line(name@, body@, value@));
    line
}

/// The line that shows the function `name` with the parameters `params` and
/// the body text `body`.
pub fn func_line(name: &str, params: &Vec<String>, body: &str) -> (line: String)
    ensures
        line@ == seq!['\n'] + name@ + seq!['('] + join_spec(texts(params@), seq![',']) + seq![
            ')',
            ' ',
            '=',
            ' ',
        ] + body@,
{
    let inner = join(params, ",");
    proof {
        reveal_strlit(",");
        assert(","@ =~= seq![',']);
    }
    let mut line = String::new();
    line.push('\n');
    line.append(name);
    line.push('(');
    line.append(inner.as_str());
    line.push(')');
    line.push(' ');
    line.push('=');
    line.push(' ');
    line.append(body);
    assert(line@ =~= seq!['\n'] + name@ + seq!['('] + join_spec(texts(params@), seq![',']) + seq![
        ')',
        ' ',
        '=',
        ' ',
    ] + body@);
    line
}

/// One line per variable of `context`, in no fixed order. Each line shows the
/// variable's name and body and what the engine made of the body in `context`.
pub fn vars_to_strings(context: &num_parser::Context) -> (out: Vec<String>)
    requires
        context_view(*context).wf(),
    ensures
        exists|names: Seq<Seq<char>>|
            {
                &&& lists(names, context_variables(*context).dom())
                &&& out@.len() == names.len()
                &&& forall|i: int|
                    0 <= i < names.len() ==> is_variable_line(
                        (#[trigger] out@[i])@,
                        names[i],
                        render(context_variables(*context)[names[i]]),
                    )
            },
{
    let list = variable_list(context);
    let ghost names = variable_names(list@);
    let ghost variables = context_variables(*context);
    let mut out: Vec<String> = Vec::new();
    let mut i: usize = 0;
    while i < list.len()
        invariant
            i <= list.len(),
            names == variable_names(list@),
            variables == context_variables(*context),
            context_view(*context).wf(),
            lists_variables(list@, variables),
            out@.len() == i,
            forall|k: int|
                0 <= k < i ==> is_variable_line(
                    (#[trigger] out@[k])@,
                    names[k],
                    render(variables[names[k]]),
                ),
        decreases list.len() - i,
    {
        let body = parser(list[i].1);
        let value = if is_readable(body.as_str()) {
            body_value(body.as_str(), context)
        } else {
            BodyValue::NotAsked
        };
        let line = var_line(list[i].0.as_str(), body.as_str(), &value);
        assert(line@ == variable_line(names[i as int], render(variables[names[i as int]]), value@));
        assert(is_variable_line(line@, names[i as int], render(variables[names[i as int]])));
        out.push(line);
        i += 1;
    }
    out
}

/// One line per function of `context`, in no fixed order.
pub fn funcs_to_strings(context: &num_parser::Context) -> (out: Vec<String>)
    ensures
        exists|names: Seq<Seq<char>>|
            {
                &&& lists(names, context_functions(*context).dom())
                &&& out@.len() == names.len()
                &&& forall|i: int|
                    0 <= i < names.len() ==> (#[trigger] out@[i])@ == function_line(
                        names[i],
                        context_functions(*context)[names[i]],
                    )
            },
{
    let list = function_list(context);
    let ghost names = function_names(list@);
    let ghost functions = context_functions(*context);
    let mut out: Vec<String> = Vec::new();
    let mut i: usize = 0;
    while i < list.len()
        invariant
            i <= list.len(),
            names == function_names(list@),
            functions == context_functions(*context),
            lists_functions(list@, functions),
            out@.len() == i,
            forall|k: int|
                0 <= k < i ==> (#[trigger] out@[k])@ == function_line(names[k], functions[names[k]]),
        decreases list.len() - i,
    {
        let body = parser(list[i].2);
        let line = func_line(list[i].0.as_str(), &list[i].1, body.as_str());
        assert(functions[list@[i as int].0@].params == texts(list@[i as int].1@));
        out.push(line);
        i += 1;
    }
    out
}

} // verus!
