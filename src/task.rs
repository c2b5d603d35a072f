//! Deferred tasks: one-shot units of work that each yield one message.
use vstd::prelude::*;

verus! {

/// A unit of deferred work that resolves exactly once to a message of type `M`.
///
/// The task is consumed by resolving it; transforming it rewrites the message it
/// will yield without resolving it twice.
pub struct Task<M> {
    msg: M,
}

impl<M> View for Task<M> {
    type V = M;

    /// The message that the task resolves to.
    closed spec fn view(&self) -> M {
        self.msg
    }
}

/// The messages that a sequence of tasks resolves to, in order.
pub open spec fn messages<M>(tasks: Seq<Task<M>>) -> Seq<M> {
    tasks.map_values(|t: Task<M>| t@)
}

impl<M> Task<M> {
    /// A task that resolves to `msg`.
    pub fn new(msg: M) -> (r: Task<M>)
        ensures
            r@ == msg,
    {
        Task { msg }
    }

    /// Drive the task to completion, consuming it.
    pub fn resolve(self) -> (r: M)
        ensures
            r == self@,
    {
        self.msg
    }

    /// Transform with `f` the message that the task will yield.
    pub fn map_msg<M2, F: Fn(M) -> M2>(self, f: &F) -> (r: Task<M2>)
        requires
            f.requires((self@,)),
        ensures
            f.ensures((self@,), r@),
    {
        Task { msg: f(self.msg) }
    }
}

/// Wrap each message as a task that resolves to it.
pub fn tasks_of<M>(msgs: Vec<M>) -> (r: Vec<Task<M>>)
    ensures
        messages(r@) == msgs@,
{
    let mut rest = reversed(msgs);
    let ghost orig = msgs@;
    let mut r: Vec<Task<M>> = Vec::new();
    while rest.len() > 0
        invariant
            r.len() + rest.len() == orig.len(),
            forall|i: int| 0 <= i < r.len() ==> r@[i]@ == orig[i],
            forall|j: int| 0 <= j < rest.len() ==> rest@[j] == orig[orig.len() - 1 - j],
        decreases rest.len(),
    {
        let m = rest.pop().unwrap();
        r.push(Task::new(m));
    }
    assert(messages(r@) =~= orig);
    r
}

/// Transform every task of `tasks` with `f`, keeping their order.
pub fn map_tasks<M, M2, F: Fn(M) -> M2>(tasks: Vec<Task<M>>, f: &F) -> (r: Vec<Task<M2>>)
    requires
        forall|i: int| 0 <= i < tasks.len() ==> f.requires((#[trigger] tasks@[i]@,)),
    ensures
        r.len() == tasks.len(),
        forall|i: int| 0 <= i < tasks.len() ==> f.ensures((#[trigger] tasks@[i]@,), r@[i]@),
{
    let ghost orig = tasks@;
    let mut rest = reversed(tasks);
    let mut r: Vec<Task<M2>> = Vec::new();
    while rest.len() > 0
        invariant
            r.len() + rest.len() == orig.len(),
            forall|i: int| 0 <= i < orig.len() ==> f.requires((#[trigger] orig[i]@,)),
            forall|i: int| 0 <= i < r.len() ==> f.ensures((#[trigger] orig[i]@,), r@[i]@),
            forall|j: int| 0 <= j < rest.len() ==> rest@[j] == orig[orig.len() - 1 - j],
        decreases rest.len(),
    {
        let t = rest.pop().unwrap();
        assert(t == orig[r.len() as int]);
        r.push(t.map_msg(f));
    }
    r
}

/// Resolve every task of `tasks`, in order.
pub fn resolve_all<M>(tasks: Vec<Task<M>>) -> (r: Vec<M>)
    ensures
        r@ == messages(tasks@),
{
    let ghost orig = tasks@;
    let mut rest = reversed(tasks);
    let mut r: Vec<M> = Vec::new();
    while rest.len() > 0
        invariant
            r.len() + rest.len() == orig.len(),
            forall|i: int| 0 <= i < r.len() ==> r@[i] == orig[i]@,
            forall|j: int| 0 <= j < rest.len() ==> rest@[j] == orig[orig.len() - 1 - j],
        decreases rest.len(),
    {
        let t = rest.pop().unwrap();
        assert(t == orig[r.len() as int]);
        r.push(t.resolve());
    }
    assert(r@ =~= messages(orig));
    r
}

/// Reverse `v` by moving its items.
pub fn reversed<T>(v: Vec<T>) -> (r: Vec<T>)
    ensures
        r.len() == v.len(),
        forall|j: int| 0 <= j < v.len() ==> r@[j] == v@[v.len() - 1 - j],
{
    let ghost orig = v@;
    let mut v = v;
    let mut r: Vec<T> = Vec::new();
    while v.len() > 0
        invariant
            r.len() + v.len() == orig.len(),
            v@ == orig.subrange(0, v.len() as int),
            forall|j: int| 0 <= j < r.len() ==> r@[j] == orig[orig.len() - 1 - j],
        decreases v.len(),
    {
        let x = v.pop().unwrap();
        r.push(x);
    }
    r
}

} // verus!
