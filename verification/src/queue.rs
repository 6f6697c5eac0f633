//! The FIFO queue of scheduled work, and the queued item itself.

use vstd::prelude::*;

use crate::unit::OutLine;
use crate::unit::Unit;

verus! {

/// A schedulable item: a unit together with the capability shape it is
/// invoked with.  A `Mut` task runs with exclusive access to the
/// scheduler context; an `Immut` task runs with no access and a `Read`
/// task with read-only access, so neither of those can change the
/// context, and a unit queued under one of them performs only its
/// output.
#[derive(Debug, Clone, Copy, PartialEq, Eq, Structural)]
pub enum Task {
    Immut(Unit),
    Mut(Unit),
    Read(Unit),
}

/// Whether executing `t` consumes one line of input.
pub open spec fn task_needs_line(t: Task) -> bool {
    match t {
        Task::Mut(u) => match u {
            Unit::Menu | Unit::CollectFirst | Unit::CollectOperator | Unit::CollectSecond => true,
            _ => false,
        },
        _ => false,
    }
}

/// The lines a task prints before it reads its input line.
pub open spec fn task_prompt(t: Task) -> Seq<OutLine> {
    match t {
        Task::Mut(u) => match u {
            Unit::CollectFirst => seq![OutLine::AskFirst],
            Unit::CollectOperator => seq![OutLine::AskOperation],
            Unit::CollectSecond => seq![OutLine::AskSecond],
            _ => Seq::empty(),
        },
        _ => Seq::empty(),
    }
}

impl Task {
    /// Whether execution consumes one line of input.
    pub fn needs_line(&self) -> (r: bool)
        ensures
            r == task_needs_line(*self),
    {
        match self {
            Task::Mut(u) => match u {
                Unit::Menu | Unit::CollectFirst | Unit::CollectOperator
                    | Unit::CollectSecond => true,
                _ => false,
            },
            _ => false,
        }
    }

    /// Appends the lines printed before the input line is read.
    pub fn prompt(&self, out: &mut Vec<OutLine>)
        ensures
            final(out)@ == old(out)@ + task_prompt(*self),
    {
        match self {
            Task::Mut(u) => match u {
                Unit::CollectFirst => out.push(OutLine::AskFirst),
                Unit::CollectOperator => out.push(OutLine::AskOperation),
                Unit::CollectSecond => out.push(OutLine::AskSecond),
                _ => (),
            },
            _ => (),
        }
        proof {
            assert(final(out)@ =~= old(out)@ + task_prompt(*self));
        }
    }
}

/// An ordered FIFO collection of tasks: items are appended at the back
/// and removed at the front.
pub struct System(pub Vec<Task>);

impl View for System {
    type V = Seq<Task>;

    open spec fn view(&self) -> Seq<Task> {
        self.0@
    }
}

impl System {
    /// Makes an empty queue.
    pub fn new() -> (r: Self)
        ensures
            r@ =~= Seq::<Task>::empty(),
    {
        Self(Vec::new())
    }

    /// Appends a task at the back.
    pub fn task(&mut self, task: Task)
        ensures
            final(self)@ == old(self)@.push(task),
    {
        self.0.push(task);
    }

    /// The number of queued tasks.
    pub fn len(&self) -> (r: usize)
        ensures
            r == self@.len(),
    {
        self.0.len()
    }

    /// Removes and returns the task at `idx`; the queue must hold one
    /// there.
    pub fn rm(&mut self, idx: usize) -> (r: Task)
        requires
            idx < old(self)@.len(),
        ensures
            r == old(self)@[idx as int],
            final(self)@ == old(self)@.remove(idx as int),
    {
        self.0.remove(idx)
    }

    /// Empties the queue.
    pub fn clear(&mut self)
        ensures
            final(self)@ =~= Seq::<Task>::empty(),
    {
        self.0.clear();
    }
}

/// The FIFO law: from contents `s`, after `k` front removals the front
/// is `s[k]` and one more front removal leaves `s.skip(k + 1)` — so `n`
/// appends followed by `n` front removals yield the tasks in their
/// original append order.
pub proof fn lemma_fifo(s: Seq<Task>, k: int)
    requires
        0 <= k < s.len(),
    ensures
        s.skip(k)[0] == s[k],
        s.skip(k).remove(0) =~= s.skip(k + 1),
{
}

/// A cleared queue holds nothing: its length is zero.
pub proof fn lemma_clear_empties(q: System)
    requires
        q@ =~= Seq::<Task>::empty(),
    ensures
        q@.len() == 0,
{
}

} // verus!
