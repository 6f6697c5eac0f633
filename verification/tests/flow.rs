//! End-to-end runs of the calculator against scripted input.

use calc::app::Status;
use calc::calc::Calc;
use calc::unit::Fault;
use calc::unit::OutLine;

fn lines(words: &[&str]) -> Vec<String> {
    words.iter().map(|w| w.to_string()).collect()
}

#[test]
fn adds_five_and_three() {
    let report = Calc::run(lines(&["r", "5", "+", "3", "q"]));
    assert_eq!(
        report.lines,
        vec![
            OutLine::Hello,
            OutLine::MenuRun,
            OutLine::MenuQuit,
            OutLine::AskFirst,
            OutLine::AskOperation,
            OutLine::AskSecond,
            OutLine::ResultLine(8),
        ]
    );
    assert_eq!(report.status, Status::Exited);
}

#[test]
fn division_by_zero_faults() {
    let report = Calc::run(lines(&["r", "10", "/", "0"]));
    assert_eq!(report.status, Status::Faulted(Fault::OpFailed));
    assert!(!report.lines.iter().any(|l| matches!(l, OutLine::ResultLine(_))));
}

#[test]
fn unknown_menu_choice_reprompts_then_quits() {
    let report = Calc::run(lines(&["xyz", "q"]));
    assert_eq!(
        report.lines,
        vec![OutLine::Hello, OutLine::MenuRun, OutLine::MenuQuit]
    );
    assert_eq!(report.status, Status::Exited);
}

#[test]
fn invalid_operator_faults_at_result_time() {
    let report = Calc::run(lines(&["r", "7", "%", "2"]));
    assert_eq!(report.status, Status::Faulted(Fault::MissingEntry));
    assert!(!report.lines.iter().any(|l| matches!(l, OutLine::ResultLine(_))));
}

#[test]
fn malformed_number_faults() {
    let report = Calc::run(lines(&["r", "five"]));
    assert_eq!(report.status, Status::Faulted(Fault::BadNumber));
}

#[test]
fn run_out_of_input_ends_the_run() {
    let report = Calc::run(lines(&["r"]));
    assert_eq!(report.status, Status::OutOfInput);
    assert_eq!(
        report.lines,
        vec![OutLine::Hello, OutLine::MenuRun, OutLine::MenuQuit]
    );
}

#[test]
fn empty_script_stops_at_the_menu() {
    let report = Calc::run(vec![]);
    assert_eq!(report.status, Status::OutOfInput);
    assert_eq!(
        report.lines,
        vec![OutLine::Hello, OutLine::MenuRun, OutLine::MenuQuit]
    );
}

#[test]
fn subtraction_multiplication_division_results() {
    let report = Calc::run(lines(&["r", "9", "-", "4", "q"]));
    assert!(report.lines.contains(&OutLine::ResultLine(5)));
    let report = Calc::run(lines(&["r", "6", "*", "7", "q"]));
    assert!(report.lines.contains(&OutLine::ResultLine(42)));
    let report = Calc::run(lines(&["r", "-9", "/", "2", "q"]));
    assert!(report.lines.contains(&OutLine::ResultLine(-4)));
}

#[test]
fn two_calculations_in_one_session() {
    let report = Calc::run(lines(&["r", "1", "+", "2", "r", "10", "*", "10", "q"]));
    assert!(report.lines.contains(&OutLine::ResultLine(3)));
    assert!(report.lines.contains(&OutLine::ResultLine(100)));
    assert_eq!(report.status, Status::Exited);
}

#[test]
fn negative_operands_parse() {
    let report = Calc::run(lines(&["r", "-5", "+", "-3", "q"]));
    assert!(report.lines.contains(&OutLine::ResultLine(-8)));
    assert_eq!(report.status, Status::Exited);
}
