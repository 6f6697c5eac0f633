//! The calculator flow: the meaning of each unit of work, the trait
//! methods that implement them, and the top-level driver.

use vstd::prelude::*;

use crate::app::App;
use crate::app::AppV;
use crate::app::Report;
use crate::app::run_spec;
use crate::app::State;
use crate::app::Step;
use crate::data::Data;
use crate::queue::Task;
use crate::store::lookup;
use crate::store::remove_key;
use crate::text::line_is;
use crate::text::parse_i32;
use crate::text::parsed_i32;
use crate::unit::Fault;
use crate::unit::OutLine;
use crate::unit::Storage;
use crate::unit::Unit;
use crate::unit::spec_slot_id;

verus! {

broadcast use Seq::<_>::add_empty_left, Seq::<_>::add_empty_right, Seq::<_>::push_distributes_over_add;

/// The banner and menu text printed at startup.
pub open spec fn banner_lines() -> Seq<OutLine> {
    seq![OutLine::Hello, OutLine::MenuRun, OutLine::MenuQuit]
}

/// Whether `line` is one of the four operator tokens.
pub open spec fn is_op(line: Seq<char>) -> bool {
    ||| line =~= seq!['+']
    ||| line =~= seq!['-']
    ||| line =~= seq!['*']
    ||| line =~= seq!['/']
}

/// Printing the banner changes nothing and emits the banner text.
pub open spec fn banner_step(pre: AppV) -> Step {
    Step { post: pre, out: banner_lines(), fault: None }
}

/// The greeting unit enqueues the banner — a read-only unit — and
/// then the menu onto the task queue.
pub open spec fn greeting_step(pre: AppV) -> Step {
    Step {
        post: AppV {
            tasks: pre.tasks.push(Task::Read(Unit::Banner)).push(Task::Mut(Unit::Menu)),
            ..pre
        },
        out: Seq::empty(),
        fault: None,
    }
}

/// The menu unit reads one choice: `r` enqueues the calculation entry,
/// `q` stops the scheduler, and anything else re-enqueues the menu.
pub open spec fn menu_step(pre: AppV, line: Seq<char>) -> Step {
    let post = if line =~= seq!['r'] {
        AppV { tasks: pre.tasks.push(Task::Mut(Unit::EnterBody)), ..pre }
    } else if line =~= seq!['q'] {
        AppV { state: State::Die, ..pre }
    } else {
        AppV { tasks: pre.tasks.push(Task::Mut(Unit::Menu)), ..pre }
    };
    Step { post, out: Seq::empty(), fault: None }
}

/// The calculation entry clears both queues, then enqueues the
/// calculation body.
pub open spec fn enter_body_step(pre: AppV) -> Step {
    Step {
        post: AppV {
            systems: Seq::empty(),
            tasks: seq![Task::Mut(Unit::CalcBody)],
            ..pre
        },
        out: Seq::empty(),
        fault: None,
    }
}

/// The calculation body enqueues the five steps of one calculation
/// pass: the three collectors, the computation and the menu.
pub open spec fn calc_body_step(pre: AppV) -> Step {
    Step {
        post: AppV {
            tasks: pre.tasks + seq![
                Task::Mut(Unit::CollectFirst),
                Task::Mut(Unit::CollectOperator),
                Task::Mut(Unit::CollectSecond),
                Task::Mut(Unit::Compute),
                Task::Mut(Unit::Menu),
            ],
            ..pre
        },
        out: Seq::empty(),
        fault: None,
    }
}

/// A collector stores the integer its line parses to under `slot`, and
/// faults on a malformed line.
pub open spec fn collect_int_step(pre: AppV, slot: Storage, line: Seq<char>) -> Step {
    match parsed_i32(line) {
        Some(v) => Step {
            post: AppV {
                entries: pre.entries.push((spec_slot_id(slot), Data::I32(v))),
                ..pre
            },
            out: Seq::empty(),
            fault: None,
        },
        None => Step { post: pre, out: Seq::empty(), fault: Some(Fault::BadNumber) },
    }
}

/// The operator collector stores an operator token as text and silently
/// drops any other line.
pub open spec fn collect_operator_step(pre: AppV, line: String) -> Step {
    let post = if is_op(line@) {
        AppV {
            entries: pre.entries.push((spec_slot_id(Storage::Operation), Data::Text(line))),
            ..pre
        }
    } else {
        pre
    };
    Step { post, out: Seq::empty(), fault: None }
}

/// The printed outcome of the dispatched operation: the result line for
/// an integer result, a fault when the operation yielded nothing.
pub open spec fn finish_step(post: AppV, r: Option<Data>) -> Step {
    match r {
        Some(Data::I32(n)) => Step { post, out: seq![OutLine::ResultLine(n)], fault: None },
        Some(_) => Step { post, out: Seq::empty(), fault: None },
        None => Step { post, out: Seq::empty(), fault: Some(Fault::OpFailed) },
    }
}

/// The computation removes the two operands and the operator from the
/// store in collection order, faulting on the first missing entry;
/// dispatches on the operator text, faulting on an unrecognised one;
/// and prints the integer result, faulting if the operation yields
/// nothing.
pub open spec fn compute_step(pre: AppV) -> Step {
    let k0 = spec_slot_id(Storage::FirstValue);
    let k1 = spec_slot_id(Storage::Operation);
    let k2 = spec_slot_id(Storage::SecondValue);
    let e1 = remove_key(pre.entries, k0);
    let e2 = remove_key(e1, k1);
    let e3 = remove_key(e2, k2);
    match lookup(pre.entries, k0) {
        None => Step {
            post: AppV { entries: e1, ..pre },
            out: Seq::empty(),
            fault: Some(Fault::MissingEntry),
        },
        Some(first_e) => match lookup(e1, k1) {
            None => Step {
                post: AppV { entries: e2, ..pre },
                out: Seq::empty(),
                fault: Some(Fault::MissingEntry),
            },
            Some(op_e) => match lookup(e2, k2) {
                None => Step {
                    post: AppV { entries: e3, ..pre },
                    out: Seq::empty(),
                    fault: Some(Fault::MissingEntry),
                },
                Some(second_e) => {
                    let post = AppV { entries: e3, ..pre };
                    let first = first_e.1;
                    let second = second_e.1;
                    match op_e.1 {
                        Data::Text(s) => if s@ =~= seq!['+'] {
                            finish_step(post, first.spec_add(second))
                        } else if s@ =~= seq!['-'] {
                            finish_step(post, first.spec_sub(second))
                        } else if s@ =~= seq!['*'] {
                            finish_step(post, first.spec_mul(second))
                        } else if s@ =~= seq!['/'] {
                            finish_step(post, first.spec_div(second))
                        } else {
                            Step { post, out: Seq::empty(), fault: Some(Fault::BadOperator) }
                        },
                        _ => Step { post, out: Seq::empty(), fault: Some(Fault::BadOperator) },
                    }
                },
            },
        },
    }
}

/// What executing a task does to the context.  A `Mut` task invokes its
/// unit with exclusive access; an `Immut` or `Read` task gives its unit
/// no way to change the context, so only the banner's output happens.
/// `line` is the input line handed to the unit, read only where
/// `task_needs_line` holds.
pub open spec fn task_step(pre: AppV, t: Task, line: String) -> Step {
    match t {
        Task::Mut(u) => match u {
            Unit::Banner => banner_step(pre),
            Unit::Greeting => greeting_step(pre),
            Unit::Menu => menu_step(pre, line@),
            Unit::EnterBody => enter_body_step(pre),
            Unit::CalcBody => calc_body_step(pre),
            Unit::CollectFirst => collect_int_step(pre, Storage::FirstValue, line@),
            Unit::CollectOperator => collect_operator_step(pre, line),
            Unit::CollectSecond => collect_int_step(pre, Storage::SecondValue, line@),
            Unit::Compute => compute_step(pre),
        },
        Task::Immut(u) => match u {
            Unit::Banner => banner_step(pre),
            _ => Step { post: pre, out: Seq::empty(), fault: None },
        },
        Task::Read(u) => match u {
            Unit::Banner => banner_step(pre),
            _ => Step { post: pre, out: Seq::empty(), fault: None },
        },
    }
}

/// The menu: reacting to one line of menu input.
pub trait Io {
    /// Reads one menu choice: `r` enqueues the calculation entry, `q`
    /// stops the scheduler, anything else re-enqueues the menu.
    fn menu(app: &mut App, line: &str)
        ensures
            final(app)@ == menu_step(old(app)@, line@).post,
    ;
}

/// The greeting: the banner text and the unit that schedules it.
pub trait Greetings {
    /// Enqueues the banner and then the menu onto the task queue.
    fn main(app: &mut App)
        ensures
            final(app)@ == greeting_step(old(app)@).post,
    ;

    /// Emits the banner and menu text.
    fn msg(out: &mut Vec<OutLine>)
        ensures
            final(out)@ == old(out)@ + banner_lines(),
    ;
}

/// One calculation pass: collecting two operands and an operator, then
/// computing and printing the result.
pub trait Body {
    /// Enqueues the five steps of one calculation pass.
    fn main(app: &mut App)
        ensures
            final(app)@ == calc_body_step(old(app)@).post,
    ;

    /// Clears both queues, then enqueues the calculation body: a
    /// defensive reset before (re)starting a calculation.
    fn run(app: &mut App)
        ensures
            final(app)@ == enter_body_step(old(app)@).post,
    ;

    /// Parses the line and stores the first operand; faults on a
    /// malformed line.
    fn first_value(app: &mut App, line: &str) -> (r: Option<Fault>)
        ensures
            final(app)@ == collect_int_step(old(app)@, Storage::FirstValue, line@).post,
            r == collect_int_step(old(app)@, Storage::FirstValue, line@).fault,
    ;

    /// Stores an operator token as text; silently drops any other line.
    fn operation(app: &mut App, line: String)
        ensures
            final(app)@ == collect_operator_step(old(app)@, line).post,
    ;

    /// Parses the line and stores the second operand; faults on a
    /// malformed line.
    fn second_value(app: &mut App, line: &str) -> (r: Option<Fault>)
        ensures
            final(app)@ == collect_int_step(old(app)@, Storage::SecondValue, line@).post,
            r == collect_int_step(old(app)@, Storage::SecondValue, line@).fault,
    ;

    /// Removes the collected entries, dispatches on the operator and
    /// prints the result; faults as `compute_step` says.
    fn result(app: &mut App, out: &mut Vec<OutLine>) -> (r: Option<Fault>)
        ensures
            final(app)@ == compute_step(old(app)@).post,
            final(out)@ == old(out)@ + compute_step(old(app)@).out,
            r == compute_step(old(app)@).fault,
    ;
}

/// The calculator application: the one implementor of the three unit
/// traits, and the owner of the top-level driver.
pub struct Calc;

impl Io for Calc {
    fn menu(app: &mut App, line: &str) {
        if line_is(line, 'r') {
            app.mut_task(Unit::EnterBody);
        } else if line_is(line, 'q') {
            app.stop();
        } else {
            app.mut_task(Unit::Menu);
        }
    }
}

impl Greetings for Calc {
    fn main(app: &mut App) {
        app.read_task(Unit::Banner);
        app.mut_task(Unit::Menu);
    }

    fn msg(out: &mut Vec<OutLine>) {
        out.push(OutLine::Hello);
        out.push(OutLine::MenuRun);
        out.push(OutLine::MenuQuit);
        proof {
            assert(final(out)@ =~= old(out)@ + banner_lines());
        }
    }
}

impl Body for Calc {
    fn main(app: &mut App) {
        app.mut_task(Unit::CollectFirst);
        app.mut_task(Unit::CollectOperator);
        app.mut_task(Unit::CollectSecond);
        app.mut_task(Unit::Compute);
        app.mut_task(Unit::Menu);
        proof {
            assert(final(app)@.tasks =~= calc_body_step(old(app)@).post.tasks);
            assert(final(app)@ =~= calc_body_step(old(app)@).post);
        }
    }

    fn run(app: &mut App) {
        app.clear_systems();
        app.clear_tasks();
        app.mut_task(Unit::CalcBody);
        proof {
            assert(final(app)@.tasks =~= enter_body_step(old(app)@).post.tasks);
            assert(final(app)@ =~= enter_body_step(old(app)@).post);
        }
    }

    fn first_value(app: &mut App, line: &str) -> (r: Option<Fault>) {
        match parse_i32(line) {
            Some(v) => {
                app.push_data(Storage::FirstValue.id(), Data::I32(v));
                None
            },
            None => Some(Fault::BadNumber),
        }
    }

    fn operation(app: &mut App, line: String) {
        let op = line_is(line.as_str(), '+') || line_is(line.as_str(), '-')
            || line_is(line.as_str(), '*') || line_is(line.as_str(), '/');
        if op {
            app.push_data(Storage::Operation.id(), Data::Text(line));
        }
    }

    fn second_value(app: &mut App, line: &str) -> (r: Option<Fault>) {
        match parse_i32(line) {
            Some(v) => {
                app.push_data(Storage::SecondValue.id(), Data::I32(v));
                None
            },
            None => Some(Fault::BadNumber),
        }
    }

    fn result(app: &mut App, out: &mut Vec<OutLine>) -> (r: Option<Fault>) {
        let first = match app.rm_data(Storage::FirstValue.id()) {
            Some(e) => e.1,
            None => {
                return Some(Fault::MissingEntry);
            },
        };
        let operation = match app.rm_data(Storage::Operation.id()) {
            Some(e) => e.1,
            None => {
                return Some(Fault::MissingEntry);
            },
        };
        let second = match app.rm_data(Storage::SecondValue.id()) {
            Some(e) => e.1,
            None => {
                return Some(Fault::MissingEntry);
            },
        };
        let outcome = match operation {
            Data::Text(s) => {
                if line_is(s.as_str(), '+') {
                    first.add(second)
                } else if line_is(s.as_str(), '-') {
                    first.sub(second)
                } else if line_is(s.as_str(), '*') {
                    first.mul(second)
                } else if line_is(s.as_str(), '/') {
                    first.div(second)
                } else {
                    return Some(Fault::BadOperator);
                }
            },
            _ => {
                return Some(Fault::BadOperator);
            },
        };
        match outcome {
            Some(d) => {
                if let Data::I32(n) = d {
                    out.push(OutLine::ResultLine(n));
                }
                None
            },
            None => Some(Fault::OpFailed),
        }
    }
}

/// The context the calculator starts from: a fresh scheduler whose
/// system queue holds the greeting and the calculation body.
pub open spec fn seeded_app() -> AppV {
    AppV {
        state: State::Run,
        entries: Seq::empty(),
        systems: seq![Task::Mut(Unit::Greeting), Task::Mut(Unit::CalcBody)],
        tasks: Seq::empty(),
    }
}

impl Calc {
    /// Builds a scheduler context, seeds the system queue with the
    /// greeting and the calculation body, and runs the loop against the
    /// given input lines, returning what was printed and how the run
    /// ended — exactly what `run_spec` says of the seeded context.
    pub fn run(inputs: Vec<String>) -> (r: Report)
        ensures
            ({
                let spec_run = run_spec(seeded_app(), inputs@);
                &&& r.lines@ == spec_run.out
                &&& r.status == spec_run.status
            }),
    {
        let mut app = App::new();
        app.mut_system(Unit::Greeting);
        app.mut_system(Unit::CalcBody);
        proof {
            assert(app@ =~= seeded_app());
        }
        app.run(inputs)
    }
}

} // verus!
