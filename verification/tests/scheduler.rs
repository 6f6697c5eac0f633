//! The scheduler context: queue priority, store access and task
//! execution.

use calc::app::App;
use calc::app::Status;
use calc::data::Data;
use calc::feed::Feed;
use calc::queue::Task;
use calc::unit::Fault;
use calc::unit::OutLine;
use calc::unit::Storage;
use calc::unit::Unit;

#[test]
fn task_queue_runs_before_system_queue() {
    let mut app = App::new();
    app.immut_task(Unit::Banner);
    app.mut_task(Unit::CollectFirst);
    app.mut_system(Unit::CollectSecond);
    let report = app.run(vec!["1".to_string(), "2".to_string()]);
    // The banner prints first, then the first-value prompt, then the
    // second-value prompt: the two queued tasks before the system task.
    assert_eq!(
        report.lines,
        vec![
            OutLine::Hello,
            OutLine::MenuRun,
            OutLine::MenuQuit,
            OutLine::AskFirst,
            OutLine::AskSecond,
        ]
    );
    // Both collectors ran, in that order, against the shared store.
    assert_eq!(app.read_data(0), Some(&(0, Data::I32(1))));
    assert_eq!(app.read_data(2), Some(&(2, Data::I32(2))));
    // Nothing re-enqueued anything: the loop stalled with both queues
    // empty and the state still running.
    assert_eq!(report.status, Status::Stalled);
}

#[test]
fn stop_ends_the_run() {
    let mut app = App::new();
    app.stop();
    assert!(!app.running());
    let report = app.run(vec![]);
    assert_eq!(report.status, Status::Exited);
    assert_eq!(report.lines, vec![]);
}

#[test]
fn queues_fill_and_clear() {
    let mut app = App::new();
    assert!(!app.has_tasks());
    assert!(!app.has_systems());
    app.task(Task::Mut(Unit::Menu));
    app.system(Task::Mut(Unit::Compute));
    assert!(app.has_tasks());
    assert!(app.has_systems());
    assert_eq!(app.rm_task(0), Task::Mut(Unit::Menu));
    assert_eq!(app.rm_system(0), Task::Mut(Unit::Compute));
    app.mut_task(Unit::Menu);
    app.clear_tasks();
    app.mut_system(Unit::Menu);
    app.clear_systems();
    assert!(!app.has_tasks());
    assert!(!app.has_systems());
}

#[test]
fn store_access_through_the_context() {
    let mut app = App::new();
    app.push_data(Storage::FirstValue.id(), Data::I32(4));
    assert_eq!(app.read_data(0), Some(&(0, Data::I32(4))));
    app.edit_data(0, Data::I32(5));
    assert_eq!(app.read_data(0), Some(&(0, Data::I32(5))));
    assert_eq!(app.rm_data(0), Some((0, Data::I32(5))));
    assert_eq!(app.read_data(0), None);
    assert_eq!(app.rm_data(0), None);
}

#[test]
fn slot_ids_are_stable() {
    assert_eq!(Storage::FirstValue.id(), 0);
    assert_eq!(Storage::Operation.id(), 1);
    assert_eq!(Storage::SecondValue.id(), 2);
    assert_eq!(Storage::ResultValue.id(), 3);
}

#[test]
fn feed_hands_lines_out_in_order() {
    let mut feed = Feed::new(vec!["a".to_string(), "b".to_string()]);
    assert!(feed.has_next());
    assert_eq!(feed.next(), Some("a".to_string()));
    assert_eq!(feed.next(), Some("b".to_string()));
    assert!(!feed.has_next());
    assert_eq!(feed.next(), None);
}

#[test]
fn compute_faults_on_unrecognised_operator_entry() {
    let mut app = App::new();
    app.push_data(Storage::FirstValue.id(), Data::I32(1));
    app.push_data(Storage::Operation.id(), Data::Text("%".to_string()));
    app.push_data(Storage::SecondValue.id(), Data::I32(2));
    let mut feed = Feed::new(vec![]);
    let mut out: Vec<OutLine> = Vec::new();
    let fault = app.complete_task(Task::Mut(Unit::Compute), &mut feed, &mut out);
    assert_eq!(fault, Some(Fault::BadOperator));
    assert_eq!(out, vec![]);
}

#[test]
fn compute_faults_on_type_mismatch() {
    let mut app = App::new();
    app.push_data(Storage::FirstValue.id(), Data::Text("x".to_string()));
    app.push_data(Storage::Operation.id(), Data::Text("+".to_string()));
    app.push_data(Storage::SecondValue.id(), Data::I32(2));
    let mut feed = Feed::new(vec![]);
    let mut out: Vec<OutLine> = Vec::new();
    let fault = app.complete_task(Task::Mut(Unit::Compute), &mut feed, &mut out);
    assert_eq!(fault, Some(Fault::OpFailed));
    assert_eq!(out, vec![]);
}

#[test]
fn read_shaped_task_changes_nothing() {
    let mut app = App::new();
    let mut feed = Feed::new(vec![]);
    let mut out: Vec<OutLine> = Vec::new();
    let fault = app.complete_task(Task::Read(Unit::Compute), &mut feed, &mut out);
    assert_eq!(fault, None);
    assert_eq!(out, vec![]);
    assert!(app.running());
    assert!(!app.has_tasks());
}

#[test]
fn bare_shaped_unit_performs_only_output() {
    let mut app = App::new();
    // A mutating unit queued under the bare shape gets no access to the
    // context, so it changes nothing.
    let mut feed = Feed::new(vec![]);
    let mut out: Vec<OutLine> = Vec::new();
    let fault = app.apply_task(Task::Immut(Unit::EnterBody), None, &mut out);
    assert_eq!(fault, None);
    assert_eq!(out, vec![]);
    assert!(!app.has_tasks());
    // The banner prints under any shape.
    let fault = app.complete_task(Task::Immut(Unit::Banner), &mut feed, &mut out);
    assert_eq!(fault, None);
    assert_eq!(out, vec![OutLine::Hello, OutLine::MenuRun, OutLine::MenuQuit]);
}

#[test]
fn prompts_and_input_needs_per_task() {
    assert!(Task::Mut(Unit::Menu).needs_line());
    assert!(Task::Mut(Unit::CollectFirst).needs_line());
    assert!(!Task::Mut(Unit::Compute).needs_line());
    assert!(!Task::Immut(Unit::Menu).needs_line());
    let mut out: Vec<OutLine> = Vec::new();
    Task::Mut(Unit::CollectFirst).prompt(&mut out);
    Task::Mut(Unit::CollectOperator).prompt(&mut out);
    Task::Mut(Unit::CollectSecond).prompt(&mut out);
    Task::Mut(Unit::Menu).prompt(&mut out);
    assert_eq!(
        out,
        vec![OutLine::AskFirst, OutLine::AskOperation, OutLine::AskSecond]
    );
}

#[test]
fn step_prefers_the_task_queue() {
    let mut app = App::new();
    app.mut_system(Unit::Greeting);
    app.immut_task(Unit::Banner);
    let mut feed = Feed::new(vec![]);
    let mut out: Vec<OutLine> = Vec::new();
    // The queued task runs, not the queued system: the banner prints
    // and the greeting stays put.
    let fault = app.step(&mut feed, &mut out);
    assert_eq!(fault, None);
    assert_eq!(out, vec![OutLine::Hello, OutLine::MenuRun, OutLine::MenuQuit]);
    assert!(!app.has_tasks());
    assert!(app.has_systems());
}
