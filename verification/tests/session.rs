//! Whole lines through the interpreter, with numbers read, computed and
//! printed as 64-bit floats.
use simple_interpreter::interpreter::Interpreter;
use simple_interpreter::lexer::tokenize;
use simple_interpreter::report::{Operator, Report};
use simple_interpreter::token::{Number, Token};

fn number(value: f64) -> Number {
    Number { bits: value.to_bits() }
}

fn read(line: &str) -> Vec<Token> {
    tokenize(line)
        .into_iter()
        .map(|text| {
            let reading = text.parse::<f64>().ok().map(number);
            Token::new(text, reading)
        })
        .collect()
}

fn apply(operator: Operator, left: Number, right: Number) -> f64 {
    let (left, right) = (f64::from_bits(left.bits), f64::from_bits(right.bits));
    match operator {
        Operator::Plus => left + right,
        Operator::Minus => left - right,
        Operator::Times => left * right,
        Operator::Divided => left / right,
    }
}

fn show(report: &Report) -> String {
    let shown = match report {
        Report::Assigned { value, .. } => format!("{}", f64::from_bits(value.bits)),
        Report::Evaluated { operator, left, right } => {
            format!("{}", apply(*operator, *left, *right))
        }
        _ => String::new(),
    };
    report.message(&shown)
}

fn run(interpreter: &mut Interpreter, line: &str) -> Vec<String> {
    interpreter.interpret(&read(line)).iter().map(show).collect()
}

#[test]
fn assignment_is_reported_and_stored() {
    let mut interpreter = Interpreter::new();
    assert_eq!(run(&mut interpreter, "variable x isequal to 5"), vec!["Assigned 5 to x"]);
    assert_eq!(interpreter.lookup("x"), Some(number(5.0)));
}

#[test]
fn print_reads_an_assigned_variable() {
    let mut interpreter = Interpreter::new();
    run(&mut interpreter, "variable x isequal to 5");
    assert_eq!(run(&mut interpreter, "print x plus 3"), vec!["Result: 8"]);
}

#[test]
fn undefined_variable_is_reported_and_counts_as_zero() {
    let mut interpreter = Interpreter::new();
    assert_eq!(
        run(&mut interpreter, "print y plus 3"),
        vec!["Undefined variable: y", "Result: 3"]
    );
}

#[test]
fn invalid_value_leaves_the_environment_alone() {
    let mut interpreter = Interpreter::new();
    assert_eq!(
        run(&mut interpreter, "variable x isequal to abc"),
        vec!["Invalid value for assignment"]
    );
    assert_eq!(interpreter.lookup("x"), None);

    run(&mut interpreter, "variable x isequal to 5");
    assert_eq!(
        run(&mut interpreter, "variable x isequal to abc"),
        vec!["Invalid value for assignment"]
    );
    assert_eq!(interpreter.lookup("x"), Some(number(5.0)));
}

#[test]
fn unknown_operator_gives_no_result() {
    let mut interpreter = Interpreter::new();
    let output = run(&mut interpreter, "print 1 modulo 2");
    assert_eq!(output, vec!["Unknown operator"]);
    assert!(output.iter().all(|line| !line.starts_with("Result:")));
}

#[test]
fn unknown_first_token_is_an_unknown_command() {
    let mut interpreter = Interpreter::new();
    assert_eq!(run(&mut interpreter, "banana"), vec!["Unknown command"]);
}

#[test]
fn empty_line_is_an_unknown_command() {
    let mut interpreter = Interpreter::new();
    assert_eq!(run(&mut interpreter, ""), vec!["Unknown command"]);
    assert_eq!(run(&mut interpreter, "   \t "), vec!["Unknown command"]);
    assert_eq!(interpreter.interpret(&[]), vec![Report::UnknownCommand]);
}

#[test]
fn second_assignment_replaces_the_first() {
    let mut interpreter = Interpreter::new();
    run(&mut interpreter, "variable x isequal to 5");
    assert_eq!(run(&mut interpreter, "variable x isequal to 2.5"), vec!["Assigned 2.5 to x"]);
    assert_eq!(interpreter.lookup("x"), Some(number(2.5)));
    assert_eq!(run(&mut interpreter, "print x times x"), vec!["Result: 6.25"]);
}

#[test]
fn assignment_keeps_other_variables() {
    let mut interpreter = Interpreter::new();
    run(&mut interpreter, "variable x isequal to 5");
    run(&mut interpreter, "variable y isequal to -1e3");
    assert_eq!(interpreter.lookup("x"), Some(number(5.0)));
    assert_eq!(interpreter.lookup("y"), Some(number(-1000.0)));
    assert_eq!(run(&mut interpreter, "print x minus y"), vec!["Result: 1005"]);
}

#[test]
fn variable_keeps_its_value_until_assigned_again() {
    let mut interpreter = Interpreter::new();
    run(&mut interpreter, "variable x isequal to 5");
    for line in [
        "variable y isequal to 7",
        "variable X isequal to 8",
        "variable x isequal to nothing",
        "variable x isequal 9",
        "print x plus y",
        "print x",
        "",
        "x isequal to 9",
    ] {
        run(&mut interpreter, line);
        assert_eq!(interpreter.lookup("x"), Some(number(5.0)), "{:?}", line);
        assert_eq!(run(&mut interpreter, "print x plus 0"), vec!["Result: 5"], "{:?}", line);
    }
    run(&mut interpreter, "variable x isequal to 9");
    assert_eq!(run(&mut interpreter, "print x plus 0"), vec!["Result: 9"]);
}

#[test]
fn assigned_value_is_kept_bit_for_bit() {
    let mut interpreter = Interpreter::new();
    run(&mut interpreter, "variable tenth isequal to 0.1");
    assert_eq!(interpreter.lookup("tenth"), Some(number(0.1)));
    assert_eq!(
        run(&mut interpreter, "variable nothing isequal to -0"),
        vec!["Assigned -0 to nothing"]
    );
    assert_eq!(interpreter.lookup("nothing"), Some(number(-0.0)));
    assert_ne!(interpreter.lookup("nothing"), Some(number(0.0)));
    assert_eq!(run(&mut interpreter, "variable odd isequal to nan"), vec!["Assigned NaN to odd"]);
    assert_eq!(interpreter.lookup("odd"), Some(number(f64::NAN)));
}

#[test]
fn each_operator_computes_its_operation() {
    let mut interpreter = Interpreter::new();
    assert_eq!(run(&mut interpreter, "print 6 plus 3"), vec!["Result: 9"]);
    assert_eq!(run(&mut interpreter, "print 6 minus 3"), vec!["Result: 3"]);
    assert_eq!(run(&mut interpreter, "print 6 times 3"), vec!["Result: 18"]);
    assert_eq!(run(&mut interpreter, "print 6 divided 3"), vec!["Result: 2"]);
    assert_eq!(run(&mut interpreter, "print 0.5 plus 0.25"), vec!["Result: 0.75"]);
    assert_eq!(run(&mut interpreter, "print 1 divided 4"), vec!["Result: 0.25"]);
    assert_eq!(run(&mut interpreter, "print 3 minus 6"), vec!["Result: -3"]);
}

#[test]
fn operands_keep_their_sides() {
    let mut interpreter = Interpreter::new();
    assert_eq!(
        interpreter.interpret(&read("print 6 minus 3")),
        vec![Report::Evaluated { operator: Operator::Minus, left: number(6.0), right: number(3.0) }]
    );
    assert_eq!(
        interpreter.interpret(&read("print 3 divided 6")),
        vec![Report::Evaluated {
            operator: Operator::Divided,
            left: number(3.0),
            right: number(6.0)
        }]
    );
}

#[test]
fn division_by_zero_follows_the_floats() {
    let mut interpreter = Interpreter::new();
    assert_eq!(run(&mut interpreter, "print 1 divided 0"), vec!["Result: inf"]);
    assert_eq!(run(&mut interpreter, "print -1 divided 0"), vec!["Result: -inf"]);
    assert_eq!(run(&mut interpreter, "print 0 divided 0"), vec!["Result: NaN"]);
}

#[test]
fn both_operands_may_be_undefined() {
    let mut interpreter = Interpreter::new();
    assert_eq!(
        run(&mut interpreter, "print y minus z"),
        vec!["Undefined variable: y", "Undefined variable: z", "Result: 0"]
    );
    assert_eq!(
        run(&mut interpreter, "print y times y"),
        vec!["Undefined variable: y", "Undefined variable: y", "Result: 0"]
    );
    assert_eq!(
        run(&mut interpreter, "print 4 minus z"),
        vec!["Undefined variable: z", "Result: 4"]
    );
}

#[test]
fn operands_are_resolved_before_the_operator_is_looked_at() {
    let mut interpreter = Interpreter::new();
    assert_eq!(
        run(&mut interpreter, "print y modulo z"),
        vec!["Undefined variable: y", "Undefined variable: z", "Unknown operator"]
    );
}

#[test]
fn a_literal_is_never_read_as_a_variable() {
    let mut interpreter = Interpreter::new();
    assert_eq!(run(&mut interpreter, "variable 5 isequal to 7"), vec!["Assigned 7 to 5"]);
    assert_eq!(interpreter.lookup("5"), Some(number(7.0)));
    assert_eq!(run(&mut interpreter, "print 5 plus 0"), vec!["Result: 5"]);
}

#[test]
fn malformed_assignments_are_syntax_errors() {
    let mut interpreter = Interpreter::new();
    for line in [
        "variable",
        "variable x",
        "variable x isequal to",
        "variable x isequal to 5 6",
        "variable x equals to 5",
        "variable x isequal too 5",
        "variable x to isequal 5",
        "variable x ISEQUAL to 5",
    ] {
        assert_eq!(run(&mut interpreter, line), vec!["Invalid assignment syntax"], "{}", line);
    }
    assert_eq!(interpreter.lookup("x"), None);
}

#[test]
fn malformed_prints_are_syntax_errors() {
    let mut interpreter = Interpreter::new();
    for line in ["print", "print 1", "print 1 plus", "print 1 plus 2 3", "print y plus z w"] {
        assert_eq!(run(&mut interpreter, line), vec!["Invalid print syntax"], "{}", line);
    }
}

#[test]
fn keywords_and_names_are_case_sensitive() {
    let mut interpreter = Interpreter::new();
    assert_eq!(run(&mut interpreter, "Variable x isequal to 5"), vec!["Unknown command"]);
    assert_eq!(run(&mut interpreter, "PRINT 1 plus 2"), vec!["Unknown command"]);
    assert_eq!(run(&mut interpreter, "print 1 Plus 2"), vec!["Unknown operator"]);
    run(&mut interpreter, "variable x isequal to 5");
    assert_eq!(
        run(&mut interpreter, "print X plus x"),
        vec!["Undefined variable: X", "Result: 5"]
    );
}

#[test]
fn the_session_goes_on_after_malformed_lines() {
    let mut interpreter = Interpreter::new();
    run(&mut interpreter, "variable x isequal to 5");
    assert_eq!(run(&mut interpreter, "banana"), vec!["Unknown command"]);
    assert_eq!(run(&mut interpreter, ""), vec!["Unknown command"]);
    assert_eq!(run(&mut interpreter, "variable x to 5"), vec!["Invalid assignment syntax"]);
    assert_eq!(
        run(&mut interpreter, "variable x isequal to five"),
        vec!["Invalid value for assignment"]
    );
    assert_eq!(run(&mut interpreter, "print x"), vec!["Invalid print syntax"]);
    assert_eq!(run(&mut interpreter, "print x modulo 2"), vec!["Unknown operator"]);
    assert_eq!(interpreter.lookup("x"), Some(number(5.0)));
    assert_eq!(run(&mut interpreter, "print x plus 3"), vec!["Result: 8"]);
}

#[test]
fn spacing_between_tokens_does_not_matter() {
    let mut interpreter = Interpreter::new();
    assert_eq!(
        run(&mut interpreter, "  variable\tx   isequal \u{3000}to 5  "),
        vec!["Assigned 5 to x"]
    );
    assert_eq!(run(&mut interpreter, "\tprint x     plus 3"), vec!["Result: 8"]);
}
