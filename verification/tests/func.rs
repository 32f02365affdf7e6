use termcalc::context::ContextWrapper;
use termcalc::func::{func_line, funcs_to_strings, parser, var_line, vars_to_strings, BodyValue};

fn context_with(definitions: &[&str]) -> ContextWrapper<num_parser::Context> {
    let mut context = ContextWrapper::default();
    for definition in definitions {
        context.evaluate(definition);
    }
    context
}

fn body_text(definition: &str) -> String {
    let context = context_with(&[definition]);
    assert_eq!(context.variables.len(), 1);
    let body = context.variables.values().next().unwrap();
    parser(body)
}

#[test]
fn parser_writes_literals_and_names() {
    assert_eq!(body_text("a = 2"), "2");
    assert_eq!(body_text("a = 1.50"), "1.5");
    assert_eq!(body_text("a = y"), "y");
    assert_eq!(body_text("a = pi"), "pi");
    assert_eq!(body_text("a = true"), "true");
}

#[test]
fn parser_writes_operators_between_their_operands() {
    assert_eq!(body_text("a = y+1"), "y+1");
    assert_eq!(body_text("a = pi / 2"), "pi/2");
    assert_eq!(body_text("a = 1 <= 2"), "1<=2");
    assert_eq!(body_text("a = 1 != 2"), "1!=2");
    assert_eq!(body_text("a = 2^3%4"), "2^3%4");
    assert_eq!(body_text("a = 1+2*3-4"), "1+2*3-4");
}

#[test]
fn parser_writes_a_sign_before_its_operand() {
    assert_eq!(body_text("a = -3"), "-3");
    assert_eq!(body_text("a = -y"), "-y");
    assert_eq!(body_text("a = !true"), "!true");
}

#[test]
fn parser_writes_calls_with_their_arguments() {
    assert_eq!(body_text("a = sin(1)"), "sin(1)");
    assert_eq!(body_text("a = max(1,2,3)"), "max(1,2,3)");
    assert_eq!(body_text("a = log(2, 8) + 1"), "log(2,8)+1");
    assert_eq!(body_text("a = sin(cos(y))"), "sin(cos(y))");
    assert_eq!(body_text("a = sin y"), "sin(y)");
}

#[test]
fn parser_writes_implicit_products_with_a_star() {
    assert_eq!(body_text("a = 2y"), "2*y");
    assert_eq!(body_text("a = 2i"), "2*i");
    assert_eq!(body_text("a = 2(3)"), "2*3");
}

#[test]
fn parser_adds_no_brackets() {
    assert_eq!(body_text("a = (y-3)^4"), "y-3^4");
    assert_eq!(body_text("a = (1+2)*3"), "1+2*3");
}

#[test]
fn parser_writes_a_union_with_commas() {
    assert_eq!(body_text("a = (1,2)"), "1,2");
    assert_eq!(body_text("a = (1,y+1,3)"), "1,y+1,3");
}

#[test]
fn var_line_has_one_form_per_answer() {
    assert_eq!(var_line("a", "2", &BodyValue::Integer), "\na = 2");
    assert_eq!(var_line("b", "pi/2", &BodyValue::Other("1.5708".to_string())), "\nb = pi/2 = 1.5708");
    assert_eq!(
        var_line("c", "y+1", &BodyValue::Failed("unknown".to_string())),
        "\nc = y+1 (unknown)"
    );
    assert_eq!(var_line("d", "x", &BodyValue::NotAsked), "\nd = x");
    assert_eq!(var_line("", "", &BodyValue::Integer), "\n = ");
}

#[test]
fn func_line_lists_the_parameters() {
    let params = vec!["x".to_string(), "y".to_string()];
    assert_eq!(func_line("f", &params, "x*sin(y)"), "\nf(x,y) = x*sin(y)");
    assert_eq!(func_line("g", &vec!["t".to_string()], "-t"), "\ng(t) = -t");
    assert_eq!(func_line("h", &Vec::new(), "1"), "\nh() = 1");
}

#[test]
fn vars_to_strings_of_nothing_is_empty() {
    let context = ContextWrapper::default();
    assert!(vars_to_strings(&context).is_empty());
    assert!(funcs_to_strings(&context).is_empty());
}

#[test]
fn vars_to_strings_shows_each_variable_once() {
    let context = context_with(&[
        "a = 2",
        "b = pi/2",
        "c = y+1",
        "k = max(1,2,3)",
        "n = -3",
        "f(x) = x",
        "a = 7",
    ]);
    let mut lines = vars_to_strings(&context);
    lines.sort();
    assert_eq!(
        lines,
        vec![
            "\na = 7".to_string(),
            "\nb = pi/2 = 1.5708".to_string(),
            "\nc = y+1 (SYNTAX ERROR: unknown variable `y`.)".to_string(),
            "\nk = max(1,2,3) = 3".to_string(),
            "\nn = -3".to_string(),
        ]
    );
}

#[test]
fn vars_to_strings_follows_the_settings() {
    let mut context = context_with(&["b = pi/2", "s = sin(30)", "t = sin(90)"]);
    context.set_rounding(termcalc::context::Rounding::Round(2));
    context.toggle_angle_unit();
    let mut lines = vars_to_strings(&context);
    lines.sort();
    assert_eq!(
        lines,
        vec![
            "\nb = pi/2 = 1.57".to_string(),
            "\ns = sin(30) = 0.5".to_string(),
            "\nt = sin(90)".to_string(),
        ]
    );
}

#[test]
fn vars_to_strings_uses_other_definitions() {
    let context = context_with(&["a = 2", "b = a+1", "f(x) = 2x", "c = f(a)/3"]);
    let mut lines = vars_to_strings(&context);
    lines.sort();
    assert_eq!(
        lines,
        vec!["\na = 2".to_string(), "\nb = a+1".to_string(), "\nc = f(a)/3 = 1.33333".to_string()]
    );
}

#[test]
fn funcs_to_strings_shows_each_function_once() {
    let context = context_with(&["f(x,y) = xsin(y)", "g(x) = (x-3)^4", "h(t) = -t", "a = 1", "h(u) = u"]);
    let mut lines = funcs_to_strings(&context);
    lines.sort();
    assert_eq!(
        lines,
        vec![
            "\nf(x,y) = x*sin(y)".to_string(),
            "\ng(x) = x-3^4".to_string(),
            "\nh(u) = u".to_string(),
        ]
    );
}
