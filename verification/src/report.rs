//! What the interpreter has to say about a line, and the wording of it.
use crate::token::Number;
use vstd::prelude::*;
use vstd::string::*;

verus! {

/// The four binary operators of a print statement.
#[derive(Clone, Copy, Debug, PartialEq, Eq)]
pub enum Operator {
    /// `plus`: addition.
    Plus,
    /// `minus`: subtraction.
    Minus,
    /// `times`: multiplication.
    Times,
    /// `divided`: division.
    Divided,
}

/// One report on a line. A line gives rise to one report, or, for a print
/// statement with operands that cannot be resolved, to as many as three.
#[derive(Clone, Debug, PartialEq, Eq)]
pub enum Report {
    /// The line is blank, or its first token is neither `variable` nor `print`.
    UnknownCommand,
    /// The line starts with `variable` but is not of the form
    /// `variable <name> isequal to <value>`.
    InvalidAssignmentSyntax,
    /// The value of an assignment is no numeric literal.
    InvalidValue,
    /// `value` is now bound to `name`.
    Assigned { value: Number, name: String },
    /// `print` is not followed by exactly three tokens.
    InvalidPrintSyntax,
    /// The middle token of a print statement names no operator.
    UnknownOperator,
    /// An operand is neither a numeric literal nor a defined variable; zero
    /// takes its place.
    UndefinedVariable { name: String },
    /// The statement asks for `operator` applied to `left` and `right`.
    Evaluated { operator: Operator, left: Number, right: Number },
}

/// A report with its strings as sequences of characters.
pub enum ReportView {
    UnknownCommand,
    InvalidAssignmentSyntax,
    InvalidValue,
    Assigned { value: Number, name: Seq<char> },
    InvalidPrintSyntax,
    UnknownOperator,
    UndefinedVariable { name: Seq<char> },
    Evaluated { operator: Operator, left: Number, right: Number },
}

impl View for Report {
    type V = ReportView;

    open spec fn view(&self) -> ReportView {
        match *self {
            Report::UnknownCommand => ReportView::UnknownCommand,
            Report::InvalidAssignmentSyntax => ReportView::InvalidAssignmentSyntax,
            Report::InvalidValue => ReportView::InvalidValue,
            Report::Assigned { value, name } => ReportView::Assigned { value, name: name@ },
            Report::InvalidPrintSyntax => ReportView::InvalidPrintSyntax,
            Report::UnknownOperator => ReportView::UnknownOperator,
            Report::UndefinedVariable { name } => ReportView::UndefinedVariable { name: name@ },
            Report::Evaluated { operator, left, right } => ReportView::Evaluated {
                operator,
                left,
                right,
            },
        }
    }
}

impl ReportView {
    /// The line of output that states this report. `number` is the decimal
    /// form of the number that the report shows: the value assigned, or the
    /// result of the operation. Reports that show no number ignore it.
    pub open spec fn text(self, number: Seq<char>) -> Seq<char> {
        match self {
            ReportView::UnknownCommand => "Unknown command"@,
            ReportView::InvalidAssignmentSyntax => "Invalid assignment syntax"@,
            ReportView::InvalidValue => "Invalid value for assignment"@,
            ReportView::Assigned { name, .. } => "Assigned "@ + number + " to "@ + name,
            ReportView::InvalidPrintSyntax => "Invalid print syntax"@,
            ReportView::UnknownOperator => "Unknown operator"@,
            ReportView::UndefinedVariable { name } => "Undefined variable: "@ + name,
            ReportView::Evaluated { .. } => "Result: "@ + number,
        }
    }
}

impl Report {
    /// The line of output that states this report. `number` is the decimal
    /// form of the number that the report shows: the value assigned, or the
    /// result of the operation. Reports that show no number ignore it.
    pub fn message(&self, number: &str) -> (text: String)
        ensures
            text@ == self@.text(number@),
    {
        match self {
            Report::UnknownCommand => "Unknown command".to_owned(),
            Report::InvalidAssignmentSyntax => "Invalid assignment syntax".to_owned(),
            Report::InvalidValue => "Invalid value for assignment".to_owned(),
            Report::Assigned { name, .. } => {
                let mut text = "Assigned ".to_owned();
                text.append(number);
                text.append(" to ");
                text.append(name.as_str());
                text
            },
            Report::InvalidPrintSyntax => "Invalid print syntax".to_owned(),
            Report::UnknownOperator => "Unknown operator".to_owned(),
            Report::UndefinedVariable { name } => {
                let mut text = "Undefined variable: ".to_owned();
                text.append(name.as_str());
                text
            },
            Report::Evaluated { .. } => {
                let mut text = "Result: ".to_owned();
                text.append(number);
                text
            },
        }
    }
}

} // verus!
