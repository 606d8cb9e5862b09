//! The interpreter: an environment of named numbers, what a line of tokens
//! does to it, and what is reported about the line.
//!
//! A line reaches the interpreter as its tokens, each with the number it
//! spells, if it spells one (see [`crate::token::Token`]). The spec
//! functions of this module say, for every environment and every sequence
//! of tokens, which environment and which reports result; the methods of
//! [`Interpreter`] are proved to compute exactly that.
use crate::lexer::{is_space, lemma_blank_line_has_no_tokens, tokens_of};
use crate::report::{Operator, Report, ReportView};
use crate::token::{spellings, Number, Token};
use crate::views::{views_are, views_of};
use vstd::hash_map::StringHashMap;
use vstd::prelude::*;

verus! {

/// The variables that are defined, each with its number.
pub type Environment = Map<Seq<char>, Number>;

/// Whether `tokens` have the shape `variable <name> isequal to <value>`.
pub open spec fn is_assignment(tokens: Seq<Token>) -> bool {
    &&& tokens.len() == 5
    &&& tokens[0].text@ =~= "variable"@
    &&& tokens[2].text@ =~= "isequal"@
    &&& tokens[3].text@ =~= "to"@
}

/// The environment after the line `tokens`, where it was `env` before: an
/// assignment whose value is a numeric literal binds its name to that
/// number, and every other line leaves the environment as it is.
pub open spec fn environment_after(env: Environment, tokens: Seq<Token>) -> Environment {
    if is_assignment(tokens) && tokens[4].number is Some {
        env.insert(tokens[1].text@, tokens[4].number->0)
    } else {
        env
    }
}

/// The report on a line that starts with `variable`.
pub open spec fn assignment_report(tokens: Seq<Token>) -> ReportView {
    if !is_assignment(tokens) {
        ReportView::InvalidAssignmentSyntax
    } else {
        match tokens[4].number {
            Some(value) => ReportView::Assigned { value, name: tokens[1].text@ },
            None => ReportView::InvalidValue,
        }
    }
}

/// The number that an operand resolves to: what it spells, if it is a
/// numeric literal; else what `env` binds it to; else nothing.
pub open spec fn value_of(env: Environment, token: Token) -> Option<Number> {
    match token.number {
        Some(number) => Some(number),
        None => if env.contains_key(token.text@) {
            Some(env[token.text@])
        } else {
            None
        },
    }
}

/// The number that stands for an operand in an evaluation: the one it
/// resolves to, or zero.
pub open spec fn operand(env: Environment, token: Token) -> Number {
    match value_of(env, token) {
        Some(number) => number,
        None => Number::zero(),
    }
}

/// The reports that resolving an operand gives rise to: none, or one that
/// names the operand as undefined.
pub open spec fn complaints(env: Environment, token: Token) -> Seq<ReportView> {
    if value_of(env, token) is None {
        seq![ReportView::UndefinedVariable { name: token.text@ }]
    } else {
        Seq::empty()
    }
}

/// The operator that `word` names.
pub open spec fn operator_of(word: Seq<char>) -> Option<Operator> {
    if word =~= "plus"@ {
        Some(Operator::Plus)
    } else if word =~= "minus"@ {
        Some(Operator::Minus)
    } else if word =~= "times"@ {
        Some(Operator::Times)
    } else if word =~= "divided"@ {
        Some(Operator::Divided)
    } else {
        None
    }
}

/// The last report on a print statement of three tokens: the operation to
/// carry out, or that the operator is not known.
pub open spec fn evaluation(env: Environment, tokens: Seq<Token>) -> ReportView {
    match operator_of(tokens[1].text@) {
        Some(operator) => ReportView::Evaluated {
            operator,
            left: operand(env, tokens[0]),
            right: operand(env, tokens[2]),
        },
        None => ReportView::UnknownOperator,
    }
}

/// The reports on a print statement, `tokens` being what follows `print`.
/// Both operands are resolved, left then right, before the operator is
/// looked at.
pub open spec fn print_reports(env: Environment, tokens: Seq<Token>) -> Seq<ReportView> {
    if tokens.len() != 3 {
        seq![ReportView::InvalidPrintSyntax]
    } else {
        complaints(env, tokens[0]) + complaints(env, tokens[2]) + seq![evaluation(env, tokens)]
    }
}

/// The reports on the line `tokens` in the environment `env`.
pub open spec fn line_reports(env: Environment, tokens: Seq<Token>) -> Seq<ReportView> {
    if tokens.len() > 0 && tokens[0].text@ =~= "variable"@ {
        seq![assignment_report(tokens)]
    } else if tokens.len() > 0 && tokens[0].text@ =~= "print"@ {
        print_reports(env, tokens.skip(1))
    } else {
        seq![ReportView::UnknownCommand]
    }
}

/// The environment after the lines `lines`, taken one after the other from
/// `env`.
pub open spec fn session_environment(env: Environment, lines: Seq<Seq<Token>>) -> Environment
    decreases lines.len(),
{
    if lines.len() == 0 {
        env
    } else {
        environment_after(session_environment(env, lines.drop_last()), lines.last())
    }
}

/// What resolving an operand comes to.
#[derive(Clone, Debug, PartialEq, Eq)]
pub enum Resolution {
    /// The operand is a numeric literal or a defined variable, with this
    /// number.
    Resolved(Number),
    /// The operand, with this text, is neither.
    Unresolved(String),
}

/// An interpreter session: the environment, empty at first, that
/// assignments fill and print statements read.
pub struct Interpreter {
    variables: StringHashMap<Number>,
}

impl View for Interpreter {
    type V = Environment;

    closed spec fn view(&self) -> Environment {
        self.variables@
    }
}

fn is_word(text: &String, word: &str) -> (same: bool)
    ensures
        same == (text@ == word@),
{
    *text == word.to_owned()
}

fn operator_named(word: &String) -> (operator: Option<Operator>)
    ensures
        operator == operator_of(word@),
{
    if is_word(word, "plus") {
        Some(Operator::Plus)
    } else if is_word(word, "minus") {
        Some(Operator::Minus)
    } else if is_word(word, "times") {
        Some(Operator::Times)
    } else if is_word(word, "divided") {
        Some(Operator::Divided)
    } else {
        None
    }
}

impl Interpreter {
    /// An interpreter with no variable defined.
    pub fn new() -> (interpreter: Interpreter)
        ensures
            interpreter@ == Map::<Seq<char>, Number>::empty(),
    {
        Interpreter { variables: StringHashMap::new() }
    }

    /// The number that `name` is bound to, if it is defined.
    pub fn lookup(&self, name: &str) -> (number: Option<Number>)
        ensures
            number == if self@.contains_key(name@) {
                Some(self@[name@])
            } else {
                None::<Number>
            },
    {
        match self.variables.get(name) {
            Some(number) => Some(*number),
            None => None,
        }
    }

    /// Interprets one line, given as its tokens: an assignment if the first
    /// token is `variable`, a print statement if it is `print`, and an
    /// unknown command otherwise, a line without tokens included. Every
    /// line is accepted and answered with at least one report.
    pub fn interpret(&mut self, tokens: &[Token]) -> (reports: Vec<Report>)
        ensures
            final(self)@ == environment_after(old(self)@, tokens@),
            views_are(reports@, line_reports(old(self)@, tokens@)),
    {
        if tokens.len() > 0 && is_word(&tokens[0].text, "variable") {
            vec![self.assign_variable(tokens)]
        } else if tokens.len() > 0 && is_word(&tokens[0].text, "print") {
            self.print_expression(&tokens[1..tokens.len()])
        } else {
            vec![Report::UnknownCommand]
        }
    }

    /// Carries out the assignment `variable <name> isequal to <value>`:
    /// binds the name to the value, over whatever it was bound to. Tokens of
    /// another shape, or a value that is no numeric literal, are reported
    /// and change nothing.
    pub fn assign_variable(&mut self, tokens: &[Token]) -> (report: Report)
        ensures
            final(self)@ == environment_after(old(self)@, tokens@),
            report@ == assignment_report(tokens@),
    {
        if tokens.len() == 5 && is_word(&tokens[0].text, "variable") && is_word(
            &tokens[2].text,
            "isequal",
        ) && is_word(&tokens[3].text, "to") {
            match tokens[4].number {
                Some(value) => {
                    self.variables.insert(tokens[1].text.clone(), value);
                    Report::Assigned { value, name: tokens[1].text.clone() }
                },
                None => Report::InvalidValue,
            }
        } else {
            Report::InvalidAssignmentSyntax
        }
    }

    /// Reports on the print statement `<operand> <operator> <operand>`,
    /// `tokens` being what follows `print`: first each operand that cannot
    /// be resolved, left then right, then the operation to carry out, with
    /// zero for such an operand, or that the operator is not known.
    pub fn print_expression(&self, tokens: &[Token]) -> (reports: Vec<Report>)
        ensures
            views_are(reports@, print_reports(self@, tokens@)),
    {
        let mut reports: Vec<Report> = Vec::new();
        if tokens.len() != 3 {
            reports.push(Report::InvalidPrintSyntax);
            return reports;
        }
        let left = self.settle(&tokens[0], &mut reports);
        let right = self.settle(&tokens[2], &mut reports);
        let last = match operator_named(&tokens[1].text) {
            Some(operator) => Report::Evaluated { operator, left, right },
            None => Report::UnknownOperator,
        };
        reports.push(last);
        reports
    }

    /// Resolves an operand: to the number it spells, if it is a numeric
    /// literal; else to the number it is bound to, if it is a defined
    /// variable.
    pub fn get_value(&self, token: &Token) -> (resolution: Resolution)
        ensures
            match resolution {
                Resolution::Resolved(number) => value_of(self@, *token) == Some(number),
                Resolution::Unresolved(name) => value_of(self@, *token) is None && name@
                    == token.text@,
            },
    {
        match token.number {
            Some(number) => Resolution::Resolved(number),
            None => match self.variables.get(token.text.as_str()) {
                Some(number) => Resolution::Resolved(*number),
                None => Resolution::Unresolved(token.text.clone()),
            },
        }
    }

    /// Resolves an operand for an evaluation: where it cannot be resolved,
    /// says so in `reports` and goes on with zero.
    fn settle(&self, token: &Token, reports: &mut Vec<Report>) -> (number: Number)
        ensures
            number == operand(self@, *token),
            views_of(final(reports)@) == views_of(old(reports)@) + complaints(self@, *token),
    {
        match self.get_value(token) {
            Resolution::Resolved(number) => number,
            Resolution::Unresolved(name) => {
                reports.push(Report::UndefinedVariable { name });
                Number::zero()
            },
        }
    }
}

/// A variable reads as it was assigned. After the assignment `line`, an
/// operand that spells the assigned name, and is not itself a numeric
/// literal, resolves to the assigned number: nothing is reported of it, and
/// that number stands for it in an evaluation. What the environment held
/// before makes no difference.
pub proof fn lemma_assigned_variable_reads_back(env: Environment, line: Seq<Token>, token: Token)
    requires
        is_assignment(line),
        line[4].number is Some,
        token.text@ == line[1].text@,
        token.number is None,
    ensures
        value_of(environment_after(env, line), token) == line[4].number,
        operand(environment_after(env, line), token) == line[4].number->0,
        complaints(environment_after(env, line), token) == Seq::<ReportView>::empty(),
{
}

/// Assigning to a name twice leaves only the second value: the environment
/// is the one that the second assignment alone would have given.
pub proof fn lemma_last_assignment_wins(env: Environment, first: Seq<Token>, second: Seq<Token>)
    requires
        is_assignment(first),
        first[4].number is Some,
        is_assignment(second),
        second[4].number is Some,
        first[1].text@ == second[1].text@,
    ensures
        environment_after(environment_after(env, first), second) == environment_after(env, second),
{
}

/// A line changes at most the variable that it assigns: whether `name` is
/// defined, and as what, is the same after every line that is not an
/// assignment of a numeric literal to `name`.
pub proof fn lemma_line_keeps_other_variables(env: Environment, line: Seq<Token>, name: Seq<char>)
    requires
        !(is_assignment(line) && line[4].number is Some && line[1].text@ == name),
    ensures
        environment_after(env, line).contains_key(name) == env.contains_key(name),
        env.contains_key(name) ==> environment_after(env, line)[name] == env[name],
{
}

/// A variable keeps its value until it is assigned again: whether `name` is
/// defined, and as what, is the same after any number of lines none of
/// which is an assignment of a numeric literal to `name`.
pub proof fn lemma_variable_lasts(env: Environment, lines: Seq<Seq<Token>>, name: Seq<char>)
    requires
        forall|k: int|
            0 <= k < lines.len() ==> !(is_assignment(#[trigger] lines[k])
                && lines[k][4].number is Some && lines[k][1].text@ == name),
    ensures
        session_environment(env, lines).contains_key(name) == env.contains_key(name),
        env.contains_key(name) ==> session_environment(env, lines)[name] == env[name],
    decreases lines.len(),
{
    if lines.len() > 0 {
        lemma_variable_lasts(env, lines.drop_last(), name);
        lemma_line_keeps_other_variables(
            session_environment(env, lines.drop_last()),
            lines.last(),
            name,
        );
    }
}

/// No line removes a variable: one that is defined stays defined, whatever
/// lines follow.
pub proof fn lemma_variable_stays_defined(env: Environment, lines: Seq<Seq<Token>>, name: Seq<char>)
    requires
        env.contains_key(name),
    ensures
        session_environment(env, lines).contains_key(name),
    decreases lines.len(),
{
    if lines.len() > 0 {
        lemma_variable_stays_defined(env, lines.drop_last(), name);
    }
}

/// Each operand of a print statement that cannot be resolved is reported
/// once, left before right, and zero stands for it; the statement is not
/// given up on its account: the last report is the evaluation, or that the
/// operator is not known. Operands that can be resolved are not reported.
pub proof fn lemma_undefined_operands_are_reported_once(env: Environment, tokens: Seq<Token>)
    requires
        tokens.len() == 3,
    ensures
        ({
            let reports = print_reports(env, tokens);
            let left = value_of(env, tokens[0]) is None;
            let right = value_of(env, tokens[2]) is None;
            &&& reports.len() == 1 + (if left {
                1int
            } else {
                0int
            }) + (if right {
                1int
            } else {
                0int
            })
            &&& reports.last() == evaluation(env, tokens)
            &&& left ==> reports[0] == (ReportView::UndefinedVariable { name: tokens[0].text@ })
                && operand(env, tokens[0]) == Number::zero()
            &&& right ==> reports[reports.len() - 2] == (ReportView::UndefinedVariable {
                name: tokens[2].text@,
            }) && operand(env, tokens[2]) == Number::zero()
        }),
{
}

/// No line stops the session. Every line is answered with at least one
/// report, and a line that is not an assignment of a numeric literal leaves
/// the environment as it was, so that the line after it is interpreted as
/// if it had come first.
pub proof fn lemma_session_goes_on(env: Environment, line: Seq<Token>, next: Seq<Token>)
    ensures
        line_reports(env, line).len() >= 1,
        !(is_assignment(line) && line[4].number is Some) ==> {
            &&& environment_after(env, line) == env
            &&& line_reports(environment_after(env, line), next) == line_reports(env, next)
        },
{
}

/// A line of nothing but whitespace, the empty line included, has no
/// tokens, is reported as an unknown command, and changes nothing.
pub proof fn lemma_blank_line_is_unknown_command(
    env: Environment,
    line: Seq<char>,
    tokens: Seq<Token>,
)
    requires
        forall|j: int| 0 <= j < line.len() ==> is_space(#[trigger] line[j]),
        spellings(tokens) == tokens_of(line),
    ensures
        tokens.len() == 0,
        line_reports(env, tokens) == seq![ReportView::UnknownCommand],
        environment_after(env, tokens) == env,
{
    lemma_blank_line_has_no_tokens(line);
}

} // verus!
