//! Effect bundles: the deferred work that an update returns, split into the
//! work for the component itself and the work relayed to its parent.
use vstd::prelude::*;
use crate::modifier::{default_modifier, merged, merged_all, neutral_modifier, Modifier, ModifierView};
use crate::task::{map_tasks, messages, reversed, tasks_of, Task};

verus! {

/// Tasks and execution hints returned by an update.
///
/// `local` tasks resolve to messages of the component itself; `external` tasks
/// resolve to messages of the parent component that embeds it.
pub struct Effects<MSG, XMSG> {
    /// tasks whose messages are dispatched to this component
    pub local: Vec<Task<MSG>>,
    /// tasks whose messages are relayed to the parent component
    pub external: Vec<Task<XMSG>>,
    /// how the resulting update is executed
    pub modifier: Modifier,
}

/// The local tasks of each bundle of `s`, one bundle after another.
pub open spec fn locals_of<MSG, XMSG>(s: Seq<Effects<MSG, XMSG>>) -> Seq<Task<MSG>>
    decreases s.len(),
{
    if s.len() == 0 {
        Seq::empty()
    } else {
        locals_of(s.drop_last()) + s.last().local@
    }
}

/// The external tasks of each bundle of `s`, one bundle after another.
pub open spec fn externals_of<MSG, XMSG>(s: Seq<Effects<MSG, XMSG>>) -> Seq<Task<XMSG>>
    decreases s.len(),
{
    if s.len() == 0 {
        Seq::empty()
    } else {
        externals_of(s.drop_last()) + s.last().external@
    }
}

/// The modifiers of the bundles of `s`, in order.
pub open spec fn modifiers_of<MSG, XMSG>(s: Seq<Effects<MSG, XMSG>>) -> Seq<ModifierView> {
    s.map_values(|e: Effects<MSG, XMSG>| e.modifier@)
}

impl<MSG, XMSG> Effects<MSG, XMSG> {
    /// A bundle of ready local and external messages.
    pub fn new(local: Vec<MSG>, external: Vec<XMSG>) -> (r: Self)
        ensures
            messages(r.local@) == local@,
            messages(r.external@) == external@,
            r.modifier@ == default_modifier(),
    {
        Effects { local: tasks_of(local), external: tasks_of(external), modifier: Modifier::default() }
    }

    /// A bundle of ready local messages only.
    pub fn with_local(local: Vec<MSG>) -> (r: Self)
        ensures
            messages(r.local@) == local@,
            r.external@.len() == 0,
            r.modifier@ == default_modifier(),
    {
        Effects { local: tasks_of(local), external: Vec::new(), modifier: Modifier::default() }
    }

    /// A bundle of ready external messages only.
    pub fn with_external(external: Vec<XMSG>) -> (r: Self)
        ensures
            r.local@.len() == 0,
            messages(r.external@) == external@,
            r.modifier@ == default_modifier(),
    {
        Effects { local: Vec::new(), external: tasks_of(external), modifier: Modifier::default() }
    }

    /// A bundle with no tasks.
    pub fn none() -> (r: Self)
        ensures
            r.local@.len() == 0,
            r.external@.len() == 0,
            r.modifier@ == default_modifier(),
    {
        Effects { local: Vec::new(), external: Vec::new(), modifier: Modifier::default() }
    }

    /// A bundle holding `task` as its one local task.
    pub fn from_task(task: Task<MSG>) -> (r: Self)
        ensures
            r.local@ == seq![task],
            r.external@.len() == 0,
            r.modifier@ == default_modifier(),
    {
        let mut local = Vec::new();
        local.push(task);
        Effects { local, external: Vec::new(), modifier: Modifier::default() }
    }

    /// Transform the local tasks with `f`; the external tasks stay as they are.
    pub fn map_msg<MSG2, F: Fn(MSG) -> MSG2>(self, f: F) -> (r: Effects<MSG2, XMSG>)
        requires
            forall|i: int| 0 <= i < self.local.len() ==> f.requires((#[trigger] self.local@[i]@,)),
        ensures
            r.local.len() == self.local.len(),
            forall|i: int|
                0 <= i < self.local.len() ==> f.ensures((#[trigger] self.local@[i]@,), r.local@[i]@),
            r.external@ == self.external@,
            r.modifier@ == self.modifier@,
    {
        let Effects { local, external, modifier } = self;
        Effects { local: map_tasks(local, &f), external, modifier }
    }

    /// Transform the external tasks with `f`; the local tasks stay as they are.
    pub fn map_external<XMSG2, F: Fn(XMSG) -> XMSG2>(self, f: F) -> (r: Effects<MSG, XMSG2>)
        requires
            forall|i: int|
                0 <= i < self.external.len() ==> f.requires((#[trigger] self.external@[i]@,)),
        ensures
            r.local@ == self.local@,
            r.external.len() == self.external.len(),
            forall|i: int|
                0 <= i < self.external.len() ==> f.ensures(
                    (#[trigger] self.external@[i]@,),
                    r.external@[i]@,
                ),
            r.modifier@ == self.modifier@,
    {
        let Effects { local, external, modifier } = self;
        Effects { local, external: map_tasks(external, &f), modifier }
    }

    /// A bundle of local tasks only, in the parent's message type: the external
    /// tasks as they are, followed by the local tasks transformed with `f`.
    pub fn localize<XMSG2, F: Fn(MSG) -> XMSG>(self, f: F) -> (r: Effects<XMSG, XMSG2>)
        requires
            forall|i: int| 0 <= i < self.local.len() ==> f.requires((#[trigger] self.local@[i]@,)),
        ensures
            r.local.len() == self.external.len() + self.local.len(),
            r.local@.subrange(0, self.external.len() as int) == self.external@,
            forall|i: int|
                0 <= i < self.local.len() ==> f.ensures(
                    (#[trigger] self.local@[i]@,),
                    r.local@[self.external.len() + i]@,
                ),
            r.external@.len() == 0,
            r.modifier@ == self.modifier@,
    {
        let Effects { local, external, modifier } = self;
        let ghost ext = external@;
        let mut mapped = map_tasks(local, &f);
        let ghost m = mapped@;
        let mut all = external;
        all.append(&mut mapped);
        assert(all@.subrange(0, ext.len() as int) =~= ext);
        assert(forall|i: int| 0 <= i < m.len() ==> all@[ext.len() + i] == m[i]);
        Effects { local: all, external: Vec::new(), modifier }
    }

    /// Add ready messages after the local tasks.
    pub fn append_local(self, local: Vec<MSG>) -> (r: Self)
        ensures
            r.local@.subrange(0, self.local.len() as int) == self.local@,
            messages(r.local@) == messages(self.local@) + local@,
            r.external@ == self.external@,
            r.modifier@ == self.modifier@,
    {
        let mut s = self;
        let mut more = tasks_of(local);
        proof {
            lemma_messages_concat(s.local@, more@);
        }
        let ghost l0 = s.local@;
        s.local.append(&mut more);
        assert(s.local@.subrange(0, l0.len() as int) =~= l0);
        s
    }

    /// Suppress the redraw that would follow the update.
    pub fn no_render(self) -> (r: Self)
        ensures
            r.local@ == self.local@,
            r.external@ == self.external@,
            r.modifier@ == (ModifierView { should_update_view: false, ..self.modifier@ }),
    {
        let mut s = self;
        s.modifier.no_render();
        s
    }

    /// Record the time of the update.
    pub fn measure(self) -> (r: Self)
        ensures
            r.local@ == self.local@,
            r.external@ == self.external@,
            r.modifier@ == (ModifierView { log_measurements: true, ..self.modifier@ }),
    {
        let mut s = self;
        s.modifier.measure();
        s
    }

    /// Record the time of the update under `name`.
    pub fn measure_with_name(self, name: &str) -> (r: Self)
        ensures
            r.local@ == self.local@,
            r.external@ == self.external@,
            r.modifier@ == (ModifierView {
                log_measurements: true,
                measurement_name: name@,
                ..self.modifier@
            }),
    {
        let mut s = self;
        s.modifier.measure_with_name(name);
        s
    }

    /// One bundle from many: the local tasks of all of them in order, the
    /// external tasks of all of them in order, and their modifiers merged.
    pub fn batch(all_effects: Vec<Self>) -> (r: Self)
        ensures
            r.local@ == locals_of(all_effects@),
            r.external@ == externals_of(all_effects@),
            r.modifier@ == merged_all(neutral_modifier(), modifiers_of(all_effects@)),
    {
        let ghost orig = all_effects@;
        let mut rest = reversed(all_effects);
        let mut local: Vec<Task<MSG>> = Vec::new();
        let mut external: Vec<Task<XMSG>> = Vec::new();
        let mut modifier = Modifier::neutral();
        let mut k: usize = 0;
        assert(orig.subrange(0, 0) =~= Seq::<Self>::empty());
        assert(modifiers_of(orig.subrange(0, 0)) =~= Seq::<ModifierView>::empty());
        while rest.len() > 0
            invariant
                k + rest.len() == orig.len(),
                orig.len() <= usize::MAX,
                forall|j: int| 0 <= j < rest.len() ==> rest@[j] == orig[orig.len() - 1 - j],
                local@ == locals_of(orig.subrange(0, k as int)),
                external@ == externals_of(orig.subrange(0, k as int)),
                modifier@ == merged_all(neutral_modifier(), modifiers_of(orig.subrange(0, k as int))),
            decreases rest.len(),
        {
            let mut e = rest.pop().unwrap();
            proof {
                let pre = orig.subrange(0, k as int);
                let next = orig.subrange(0, k + 1);
                assert(e == orig[k as int]);
                assert(next.drop_last() =~= pre);
                assert(modifiers_of(next).drop_last() =~= modifiers_of(pre));
            }
            local.append(&mut e.local);
            external.append(&mut e.external);
            modifier.merge(&e.modifier);
            k = k + 1;
        }
        assert(orig.subrange(0, orig.len() as int) =~= orig);
        Effects { local, external, modifier }
    }

    /// Add ready messages after the local and after the external tasks.
    pub fn extend(self, local: Vec<MSG>, external: Vec<XMSG>) -> (r: Self)
        ensures
            messages(r.local@) == messages(self.local@) + local@,
            messages(r.external@) == messages(self.external@) + external@,
            r.local@.subrange(0, self.local.len() as int) == self.local@,
            r.external@.subrange(0, self.external.len() as int) == self.external@,
            r.modifier@ == self.modifier@,
    {
        let mut s = self;
        let ghost l0 = s.local@;
        let ghost x0 = s.external@;
        let mut more_local = tasks_of(local);
        let mut more_external = tasks_of(external);
        proof {
            lemma_messages_concat(s.local@, more_local@);
            lemma_messages_concat(s.external@, more_external@);
        }
        s.local.append(&mut more_local);
        s.external.append(&mut more_external);
        assert(s.local@.subrange(0, l0.len() as int) =~= l0);
        assert(s.external@.subrange(0, x0.len() as int) =~= x0);
        s
    }
}

/// The messages of two sequences of tasks put one after the other.
pub proof fn lemma_messages_concat<M>(a: Seq<Task<M>>, b: Seq<Task<M>>)
    ensures
        messages(a + b) == messages(a) + messages(b),
{
    assert(messages(a + b) =~= messages(a) + messages(b));
}

/// Batching two bundles puts the local tasks of the first before those of the
/// second, and the same of the external tasks; the result redraws exactly when
/// one of the two does.
pub proof fn lemma_batch_two<MSG, XMSG>(b1: Effects<MSG, XMSG>, b2: Effects<MSG, XMSG>)
    ensures
        locals_of(seq![b1, b2]) == b1.local@ + b2.local@,
        externals_of(seq![b1, b2]) == b1.external@ + b2.external@,
        merged_all(neutral_modifier(), modifiers_of(seq![b1, b2])).should_update_view
            == (b1.modifier.should_update_view || b2.modifier.should_update_view),
        merged_all(neutral_modifier(), modifiers_of(seq![b1, b2])).log_measurements
            == (b1.modifier.log_measurements || b2.modifier.log_measurements),
{
    let s = seq![b1, b2];
    assert(s.drop_last() =~= seq![b1]);
    assert(seq![b1].drop_last() =~= Seq::<Effects<MSG, XMSG>>::empty());
    assert(locals_of(seq![b1]) == locals_of(Seq::<Effects<MSG, XMSG>>::empty()) + b1.local@);
    assert(locals_of(seq![b1]) =~= b1.local@);
    assert(externals_of(seq![b1]) == externals_of(Seq::<Effects<MSG, XMSG>>::empty()) + b1.external@);
    assert(externals_of(seq![b1]) =~= b1.external@);
    let ms = modifiers_of(s);
    assert(ms.drop_last() =~= seq![b1.modifier@]);
    assert(ms.drop_last().drop_last() =~= Seq::<ModifierView>::empty());
    assert(ms.last() == b2.modifier@);
    let m1 = merged_all(neutral_modifier(), ms.drop_last());
    assert(m1 == merged(merged_all(neutral_modifier(), Seq::<ModifierView>::empty()), b1.modifier@));
    assert(merged_all(neutral_modifier(), ms) == merged(m1, b2.modifier@));
}

} // verus!
