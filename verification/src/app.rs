//! The scheduler context: run state, store and the two queues, with the
//! run loop that drives the calculator.

use vstd::prelude::*;

use crate::calc::Calc;
use crate::calc::Body;
use crate::calc::Greetings;
use crate::calc::Io;
use crate::calc::task_step;
use crate::data::Data;
use crate::feed::Feed;
use crate::queue::System;
use crate::queue::Task;
use crate::queue::task_needs_line;
use crate::queue::task_prompt;
use crate::store::Id;
use crate::store::Store;
use crate::store::lookup;
use crate::store::remove_key;
use crate::store::replace_key;
use crate::unit::Fault;
use crate::unit::Unit;
use crate::unit::OutLine;

verus! {

use vstd::pervasive::arbitrary;
use vstd::seq_lib::lemma_concat_associative;

broadcast use Seq::<_>::add_empty_left, Seq::<_>::add_empty_right;

/// The run state of the scheduler: the loop runs until a unit flips it
/// to `Die`.
#[derive(Debug, Clone, Copy, PartialEq, Eq, Structural)]
pub enum State {
    Run,
    Die,
}

/// The scheduler context as contracts see it: the run state, the store
/// entries and the contents of the two queues.
#[verifier::ext_equal]
pub ghost struct AppV {
    pub state: State,
    pub entries: Seq<(Id, Data)>,
    pub systems: Seq<Task>,
    pub tasks: Seq<Task>,
}

/// What executing one task does: the context afterwards, the lines it
/// prints after its prompt, and the fatal condition it runs into, if
/// any.
pub ghost struct Step {
    pub post: AppV,
    pub out: Seq<OutLine>,
    pub fault: Option<Fault>,
}

/// How a run of the scheduler ended.
#[derive(Debug, Clone, Copy, PartialEq, Eq, Structural)]
pub enum Status {
    /// A unit stopped the scheduler; the process would exit cleanly.
    Exited,
    /// Both queues ran empty while still in the run state: a stall,
    /// reachable only if units fail to re-enqueue themselves.
    Stalled,
    /// A unit asked for a line after the script was spent.
    OutOfInput,
    /// A unit ran into a fatal condition; the process would terminate
    /// abnormally.
    Faulted(Fault),
}

/// What a run produced: the printed lines and how it ended.
pub struct Report {
    pub lines: Vec<OutLine>,
    pub status: Status,
}

/// Takes the next line off a feed known to hold one.
fn take_line(feed: &mut Feed) -> (r: String)
    requires
        old(feed).wf(),
        old(feed).remaining().len() > 0,
    ensures
        final(feed).wf(),
        r == old(feed).remaining()[0],
        final(feed).remaining() == old(feed).remaining().drop_first(),
{
    match feed.next() {
        Some(line) => line,
        None => {
            proof {
                assert(false);
            }
            String::new()
        },
    }
}

/// Unwraps a line known to be present.
fn unwrap_line(line: Option<String>) -> (r: String)
    requires
        line is Some,
    ensures
        r == line->Some_0,
{
    match line {
        Some(l) => l,
        None => {
            proof {
                assert(false);
            }
            String::new()
        },
    }
}

/// The task the scheduler executes next: the front of the task queue,
/// or the front of the system queue when no task is queued.
pub open spec fn next_task(a: AppV) -> Task {
    if a.tasks.len() > 0 {
        a.tasks[0]
    } else {
        a.systems[0]
    }
}

/// Task-queue priority: whenever the task queue holds anything, the
/// scheduler's next task is its front; the system queue is consulted
/// only when the task queue is empty.
pub proof fn lemma_task_priority(a: AppV)
    ensures
        a.tasks.len() > 0 ==> next_task(a) == a.tasks[0],
        a.tasks.len() == 0 ==> next_task(a) == a.systems[0],
{
}

/// The context once the next task has been taken off its queue.
pub open spec fn after_dequeue(a: AppV) -> AppV {
    if a.tasks.len() > 0 {
        AppV { tasks: a.tasks.drop_first(), ..a }
    } else {
        AppV { systems: a.systems.drop_first(), ..a }
    }
}

/// A bound on the work one task can cause without reading input.
/// Executing a task that reads no line strictly shrinks the total
/// weight of the two queues, and one that reads a line shrinks the
/// script, so the run loop terminates on any finite script.
pub open spec fn task_weight(t: Task) -> nat {
    match t {
        Task::Mut(u) => match u {
            Unit::Greeting => 4,
            Unit::EnterBody => 8,
            Unit::CalcBody => 6,
            _ => 1,
        },
        _ => 1,
    }
}

/// The summed weight of a queue's contents.
pub open spec fn weight_of(s: Seq<Task>) -> nat
    decreases s.len(),
{
    if s.len() == 0 {
        0
    } else {
        task_weight(s[0]) + weight_of(s.drop_first())
    }
}

/// The summed weight of both queues.
pub open spec fn total_weight(a: AppV) -> nat {
    weight_of(a.tasks) + weight_of(a.systems)
}

proof fn lemma_weight_push(s: Seq<Task>, t: Task)
    ensures
        weight_of(s.push(t)) == weight_of(s) + task_weight(t),
    decreases s.len(),
{
    reveal_with_fuel(weight_of, 3);
    if s.len() == 0 {
        assert(s.push(t)[0] == t);
        assert(s.push(t).drop_first() =~= Seq::<Task>::empty());
    } else {
        assert(s.push(t)[0] == s[0]);
        assert(s.push(t).drop_first() =~= s.drop_first().push(t));
        lemma_weight_push(s.drop_first(), t);
    }
}

proof fn lemma_weight_concat(s1: Seq<Task>, s2: Seq<Task>)
    ensures
        weight_of(s1 + s2) == weight_of(s1) + weight_of(s2),
    decreases s1.len(),
{
    reveal_with_fuel(weight_of, 3);
    if s1.len() == 0 {
        assert(s1 + s2 =~= s2);
    } else {
        assert((s1 + s2)[0] == s1[0]);
        assert((s1 + s2).drop_first() =~= s1.drop_first() + s2);
        lemma_weight_concat(s1.drop_first(), s2);
    }
}

/// Executing a task that reads no input line strictly shrinks the
/// total queue weight.
proof fn lemma_step_decreases(pre: AppV, line: String)
    requires
        pre.tasks.len() + pre.systems.len() > 0,
        !task_needs_line(next_task(pre)),
    ensures
        total_weight(task_step(after_dequeue(pre), next_task(pre), line).post) < total_weight(
            pre,
        ),
{
    reveal_with_fuel(weight_of, 8);
    let t = next_task(pre);
    let mid = after_dequeue(pre);
    assert(total_weight(mid) + task_weight(t) == total_weight(pre));
    let post = task_step(mid, t, line).post;
    match t {
        Task::Mut(u) => match u {
            Unit::Greeting => {
                lemma_weight_push(mid.tasks, Task::Read(Unit::Banner));
                lemma_weight_push(
                    mid.tasks.push(Task::Read(Unit::Banner)),
                    Task::Mut(Unit::Menu),
                );
            },
            Unit::EnterBody => {
                assert(post.tasks =~= seq![Task::Mut(Unit::CalcBody)]);
                assert(post.tasks.drop_first() =~= Seq::<Task>::empty());
                assert(weight_of(post.tasks) == 6);
                assert(weight_of(post.systems) == 0);
            },
            Unit::CalcBody => {
                lemma_weight_concat(
                    mid.tasks,
                    seq![
                        Task::Mut(Unit::CollectFirst),
                        Task::Mut(Unit::CollectOperator),
                        Task::Mut(Unit::CollectSecond),
                        Task::Mut(Unit::Compute),
                        Task::Mut(Unit::Menu),
                    ],
                );
            },
            _ => {},
        },
        _ => {},
    }
}

/// A task that runs into a fault leaves the run state as it found it:
/// only the menu's quit choice changes it, and that never faults.
proof fn lemma_fault_keeps_running(pre: AppV, t: Task)
    ensures
        forall|line: String|
            (#[trigger] task_step(pre, t, line)).fault is Some ==> task_step(
                pre,
                t,
                line,
            ).post.state == pre.state,
{
}

/// What a whole run produces: the printed lines, how it ended, and
/// the context it leaves behind.
pub ghost struct RunOut {
    pub out: Seq<OutLine>,
    pub status: Status,
    pub post: AppV,
}

/// The run loop as a function of the starting context and the input
/// script: while the state is `Run`, the next queued task — the front
/// of the task queue, else the front of the system queue — is dequeued
/// and executed, until a unit stops the scheduler, a fault strikes,
/// the queues run empty, or a unit asks for a line the script no
/// longer holds.
pub open spec fn run_spec(a: AppV, inputs: Seq<String>) -> RunOut
    decreases inputs.len(), total_weight(a) via run_spec_decreases
{
    if a.state != State::Run {
        RunOut { out: Seq::empty(), status: Status::Exited, post: a }
    } else if a.tasks.len() + a.systems.len() == 0 {
        RunOut { out: Seq::empty(), status: Status::Stalled, post: a }
    } else {
        let t = next_task(a);
        if task_needs_line(t) && inputs.len() == 0 {
            RunOut { out: Seq::empty(), status: Status::OutOfInput, post: a }
        } else {
            let line = if task_needs_line(t) {
                inputs[0]
            } else {
                arbitrary()
            };
            let rest_inputs = if task_needs_line(t) {
                inputs.drop_first()
            } else {
                inputs
            };
            let step = task_step(after_dequeue(a), t, line);
            match step.fault {
                Some(f) => RunOut {
                    out: task_prompt(t) + step.out,
                    status: Status::Faulted(f),
                    post: step.post,
                },
                None => {
                    let rest = run_spec(step.post, rest_inputs);
                    RunOut {
                        out: task_prompt(t) + step.out + rest.out,
                        status: rest.status,
                        post: rest.post,
                    }
                },
            }
        }
    }
}

#[via_fn]
proof fn run_spec_decreases(a: AppV, inputs: Seq<String>) {
    if a.state == State::Run && a.tasks.len() + a.systems.len() > 0 {
        let t = next_task(a);
        if !task_needs_line(t) {
            lemma_step_decreases(a, arbitrary());
        }
    }
}

/// The scheduler context: exclusive owner of the run state, the store
/// and the two queues.  The run loop executes one task per iteration,
/// always preferring the task queue over the system queue.
pub struct App {
    state: State,
    store: Store,
    systems: System,
    tasks: System,
}

impl View for App {
    type V = AppV;

    closed spec fn view(&self) -> AppV {
        AppV {
            state: self.state,
            entries: self.store@,
            systems: self.systems@,
            tasks: self.tasks@,
        }
    }
}

impl App {
    /// Makes a context with empty store and queues, ready to run.
    pub fn new() -> (r: Self)
        ensures
            r@ == (AppV {
                state: State::Run,
                entries: Seq::empty(),
                systems: Seq::empty(),
                tasks: Seq::empty(),
            }),
    {
        let state = State::Run;
        let store = Store::new();
        let systems = System::new();
        let tasks = System::new();
        let r = Self { state, store, systems, tasks };
        proof {
            assert(r@ =~= (AppV {
                state: State::Run,
                entries: Seq::empty(),
                systems: Seq::empty(),
                tasks: Seq::empty(),
            }));
        }
        r
    }

    /// Sets the run state to `Die`; the run loop exits at its next
    /// check.
    pub fn stop(&mut self)
        ensures
            final(self)@ == (AppV { state: State::Die, ..old(self)@ }),
    {
        self.state = State::Die;
    }

    /// Whether the run state is still `Run`.
    pub fn running(&self) -> (r: bool)
        ensures
            r == (self@.state == State::Run),
    {
        self.state == State::Run
    }

    /// Appends a task to the system queue.
    pub fn system(&mut self, system: Task)
        ensures
            final(self)@ == (AppV { systems: old(self)@.systems.push(system), ..old(self)@ }),
    {
        self.systems.task(system);
    }

    /// Removes and returns the front of the system queue, which must be
    /// non-empty; the index is ignored, as removal is always at the
    /// front.
    pub fn rm_system(&mut self, idx: usize) -> (r: Task)
        requires
            old(self)@.systems.len() > 0,
        ensures
            r == old(self)@.systems[0],
            final(self)@ == (AppV { systems: old(self)@.systems.drop_first(), ..old(self)@ }),
    {
        let _ = idx;
        let t = self.systems.rm(0);
        proof {
            assert(self@.systems =~= old(self)@.systems.drop_first());
        }
        t
    }

    /// Whether the system queue holds a task.
    pub fn has_systems(&self) -> (r: bool)
        ensures
            r == (self@.systems.len() > 0),
    {
        self.systems.len() > 0
    }

    /// Empties the system queue.
    pub fn clear_systems(&mut self)
        ensures
            final(self)@ == (AppV { systems: Seq::empty(), ..old(self)@ }),
    {
        self.systems.clear();
    }

    /// Appends a task to the task queue.
    pub fn task(&mut self, task: Task)
        ensures
            final(self)@ == (AppV { tasks: old(self)@.tasks.push(task), ..old(self)@ }),
    {
        self.tasks.task(task);
    }

    /// Removes and returns the front of the task queue, which must be
    /// non-empty; the index is ignored, as removal is always at the
    /// front.
    pub fn rm_task(&mut self, idx: usize) -> (r: Task)
        requires
            old(self)@.tasks.len() > 0,
        ensures
            r == old(self)@.tasks[0],
            final(self)@ == (AppV { tasks: old(self)@.tasks.drop_first(), ..old(self)@ }),
    {
        let _ = idx;
        let t = self.tasks.rm(0);
        proof {
            assert(self@.tasks =~= old(self)@.tasks.drop_first());
        }
        t
    }

    /// Whether the task queue holds a task.
    pub fn has_tasks(&self) -> (r: bool)
        ensures
            r == (self@.tasks.len() > 0),
    {
        self.tasks.len() > 0
    }

    /// Empties the task queue.
    pub fn clear_tasks(&mut self)
        ensures
            final(self)@ == (AppV { tasks: Seq::empty(), ..old(self)@ }),
    {
        self.tasks.clear();
    }

    /// Appends a unit to the system queue under the bare shape.
    pub fn immut_system(&mut self, system: crate::unit::Unit)
        ensures
            final(self)@ == (AppV {
                systems: old(self)@.systems.push(Task::Immut(system)),
                ..old(self)@
            }),
    {
        self.systems.task(Task::Immut(system));
    }

    /// Appends a unit to the system queue under the mutating shape.
    pub fn mut_system(&mut self, system: crate::unit::Unit)
        ensures
            final(self)@ == (AppV {
                systems: old(self)@.systems.push(Task::Mut(system)),
                ..old(self)@
            }),
    {
        self.systems.task(Task::Mut(system));
    }

    /// Appends a unit to the system queue under the read-only shape.
    pub fn read_system(&mut self, system: crate::unit::Unit)
        ensures
            final(self)@ == (AppV {
                systems: old(self)@.systems.push(Task::Read(system)),
                ..old(self)@
            }),
    {
        self.systems.task(Task::Read(system));
    }

    /// Appends a unit to the task queue under the bare shape.
    pub fn immut_task(&mut self, task: crate::unit::Unit)
        ensures
            final(self)@ == (AppV {
                tasks: old(self)@.tasks.push(Task::Immut(task)),
                ..old(self)@
            }),
    {
        self.tasks.task(Task::Immut(task));
    }

    /// Appends a unit to the task queue under the mutating shape.
    pub fn mut_task(&mut self, task: crate::unit::Unit)
        ensures
            final(self)@ == (AppV {
                tasks: old(self)@.tasks.push(Task::Mut(task)),
                ..old(self)@
            }),
    {
        self.tasks.task(Task::Mut(task));
    }

    /// Appends a unit to the task queue under the read-only shape.
    pub fn read_task(&mut self, task: crate::unit::Unit)
        ensures
            final(self)@ == (AppV {
                tasks: old(self)@.tasks.push(Task::Read(task)),
                ..old(self)@
            }),
    {
        self.tasks.task(Task::Read(task));
    }

    /// Appends an entry to the store.
    pub fn push_data(&mut self, id: Id, data: Data)
        ensures
            final(self)@ == (AppV {
                entries: old(self)@.entries.push((id, data)),
                ..old(self)@
            }),
    {
        self.store.push(id, data);
    }

    /// The store's first entry carrying `id`, left in place.
    pub fn read_data(&self, id: usize) -> (r: Option<&(Id, Data)>)
        ensures
            match r {
                Some(e) => lookup(self@.entries, id) == Some(*e),
                None => lookup(self@.entries, id) is None,
            },
    {
        self.store.read(id)
    }

    /// Removes and returns the store's first entry carrying `id`.
    pub fn rm_data(&mut self, id: usize) -> (r: Option<(Id, Data)>)
        ensures
            r == lookup(old(self)@.entries, id),
            final(self)@ == (AppV {
                entries: remove_key(old(self)@.entries, id),
                ..old(self)@
            }),
    {
        self.store.rm(id)
    }

    /// Replaces the store's first entry carrying `id` in place.
    pub fn edit_data(&mut self, id: usize, data: Data)
        ensures
            final(self)@ == (AppV {
                entries: replace_key(old(self)@.entries, id, data),
                ..old(self)@
            }),
    {
        self.store.edit(id, data);
    }

    /// Executes one task: emits its prompt, hands it its input line if
    /// it reads one, and invokes its unit according to its capability
    /// shape.  The scheduler itself performs no domain logic; the
    /// effect is entirely the unit's, as `task_step` states.
    pub fn complete_task(&mut self, task: Task, feed: &mut Feed, out: &mut Vec<OutLine>) -> (r:
        Option<Fault>)
        requires
            old(feed).wf(),
            task_needs_line(task) ==> old(feed).remaining().len() > 0,
        ensures
            final(feed).wf(),
            final(feed).remaining() == if task_needs_line(task) {
                old(feed).remaining().drop_first()
            } else {
                old(feed).remaining()
            },
            ({
                let line = if task_needs_line(task) {
                    old(feed).remaining()[0]
                } else {
                    arbitrary()
                };
                let step = task_step(old(self)@, task, line);
                &&& final(self)@ == step.post
                &&& final(out)@ == old(out)@ + task_prompt(task) + step.out
                &&& r == step.fault
            }),
    {
        task.prompt(out);
        let line = if task.needs_line() {
            Some(take_line(feed))
        } else {
            None
        };
        self.apply_task(task, line, out)
    }

    /// Invokes a task's unit, after its prompt: `line` is the input
    /// line the unit reads, where it reads one.  The effect on the
    /// context, the emitted lines and the fault are exactly those of
    /// `task_step`.
    pub fn apply_task(&mut self, task: Task, line: Option<String>, out: &mut Vec<OutLine>) -> (r:
        Option<Fault>)
        requires
            task_needs_line(task) ==> line is Some,
        ensures
            ({
                let l = if task_needs_line(task) {
                    line->Some_0
                } else {
                    arbitrary()
                };
                let step = task_step(old(self)@, task, l);
                &&& final(self)@ == step.post
                &&& final(out)@ == old(out)@ + step.out
                &&& r == step.fault
            }),
    {
        match task {
            Task::Mut(u) => match u {
                Unit::Banner => {
                    <Calc as Greetings>::msg(out);
                    None
                },
                Unit::Greeting => {
                    <Calc as Greetings>::main(self);
                    None
                },
                Unit::Menu => {
                    let l = unwrap_line(line);
                    <Calc as Io>::menu(self, l.as_str());
                    None
                },
                Unit::EnterBody => {
                    <Calc as Body>::run(self);
                    None
                },
                Unit::CalcBody => {
                    <Calc as Body>::main(self);
                    None
                },
                Unit::CollectFirst => {
                    let l = unwrap_line(line);
                    <Calc as Body>::first_value(self, l.as_str())
                },
                Unit::CollectOperator => {
                    let l = unwrap_line(line);
                    <Calc as Body>::operation(self, l);
                    None
                },
                Unit::CollectSecond => {
                    let l = unwrap_line(line);
                    <Calc as Body>::second_value(self, l.as_str())
                },
                Unit::Compute => <Calc as Body>::result(self, out),
            },
            Task::Immut(u) => {
                if let Unit::Banner = u {
                    <Calc as Greetings>::msg(out);
                }
                None
            },
            Task::Read(u) => {
                if let Unit::Banner = u {
                    <Calc as Greetings>::msg(out);
                }
                None
            },
        }
    }

    /// One iteration of the run loop: dequeues the next task — always
    /// preferring the task queue over the system queue — and executes
    /// it.
    pub fn step(&mut self, feed: &mut Feed, out: &mut Vec<OutLine>) -> (r: Option<Fault>)
        requires
            old(feed).wf(),
            old(self)@.tasks.len() + old(self)@.systems.len() > 0,
            task_needs_line(next_task(old(self)@)) ==> old(feed).remaining().len() > 0,
        ensures
            final(feed).wf(),
            final(feed).remaining() == if task_needs_line(next_task(old(self)@)) {
                old(feed).remaining().drop_first()
            } else {
                old(feed).remaining()
            },
            ({
                let t = next_task(old(self)@);
                let line = if task_needs_line(t) {
                    old(feed).remaining()[0]
                } else {
                    arbitrary()
                };
                let step = task_step(after_dequeue(old(self)@), t, line);
                &&& final(self)@ == step.post
                &&& final(out)@ == old(out)@ + task_prompt(t) + step.out
                &&& r == step.fault
            }),
    {
        let task = if self.has_tasks() {
            self.rm_task(0)
        } else {
            self.rm_system(0)
        };
        proof {
            assert(self@ =~= after_dequeue(old(self)@));
        }
        self.complete_task(task, feed, out)
    }

    /// Runs the loop against the given input lines: while the state is
    /// `Run`, executes one queued task per iteration, and reports what
    /// was printed and how the run ended, exactly as `run_spec` says.
    /// Where an interactive front-end would block for a line or spin on
    /// empty queues, a scripted run ends with `OutOfInput` or
    /// `Stalled`.
    #[verifier::loop_isolation(false)]
    pub fn run(&mut self, inputs: Vec<String>) -> (r: Report)
        ensures
            ({
                let spec_run = run_spec(old(self)@, inputs@);
                &&& r.lines@ == spec_run.out
                &&& r.status == spec_run.status
                &&& final(self)@ == spec_run.post
            }),
            r.status == Status::Exited ==> final(self)@.state == State::Die,
            r.status == Status::Stalled ==> final(self)@.state == State::Run
                && final(self)@.tasks.len() == 0 && final(self)@.systems.len() == 0,
            r.status == Status::OutOfInput ==> final(self)@.state == State::Run
                && final(self)@.tasks.len() + final(self)@.systems.len() > 0
                && task_needs_line(next_task(final(self)@)),
            r.status matches Status::Faulted(_) ==> final(self)@.state == State::Run,
    {
        let ghost a0 = self@;
        let ghost inputs0 = inputs@;
        let mut feed = Feed::new(inputs);
        let mut lines: Vec<OutLine> = Vec::new();
        while self.running()
            invariant
                feed.wf(),
                run_spec(a0, inputs0).out == lines@ + run_spec(self@, feed.remaining()).out,
                run_spec(a0, inputs0).status == run_spec(self@, feed.remaining()).status,
                run_spec(a0, inputs0).post == run_spec(self@, feed.remaining()).post,
                inputs0 == inputs@,
            decreases feed.remaining().len(), total_weight(self@),
        {
            let ghost prev = self@;
            let ghost prev_rem = feed.remaining();
            let ghost prev_lines = lines@;
            if self.has_tasks() || self.has_systems() {
                let next = self.peek();
                if next.needs_line() && !feed.has_next() {
                    return Report { lines, status: Status::OutOfInput };
                }
                let stepped = self.step(&mut feed, &mut lines);
                proof {
                    lemma_fault_keeps_running(after_dequeue(prev), next_task(prev));
                    if !task_needs_line(next_task(prev)) {
                        lemma_step_decreases(prev, arbitrary());
                    }
                    let t = next_task(prev);
                    let line = if task_needs_line(t) {
                        prev_rem[0]
                    } else {
                        arbitrary()
                    };
                    let st = task_step(after_dequeue(prev), t, line);
                    match st.fault {
                        Some(_) => {
                            lemma_concat_associative(prev_lines, task_prompt(t), st.out);
                        },
                        None => {
                            let rest = run_spec(st.post, feed.remaining());
                            lemma_concat_associative(prev_lines, task_prompt(t), st.out);
                            lemma_concat_associative(
                                prev_lines,
                                task_prompt(t) + st.out,
                                rest.out,
                            );
                        },
                    }
                }
                if let Some(fault) = stepped {
                    return Report { lines, status: Status::Faulted(fault) };
                }
            } else {
                return Report { lines, status: Status::Stalled };
            }
        }
        Report { lines, status: Status::Exited }
    }

    /// The task the run loop would execute next; some task must be
    /// queued.
    fn peek(&self) -> (r: Task)
        requires
            self@.tasks.len() + self@.systems.len() > 0,
        ensures
            r == next_task(self@),
    {
        if self.tasks.len() > 0 {
            self.tasks.0[0]
        } else {
            self.systems.0[0]
        }
    }
}

} // verus!
