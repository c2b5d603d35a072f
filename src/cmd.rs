//! Commands: the executable form of effects, a queue of dispatch actions bound
//! for a running program.
use vstd::prelude::*;
use crate::effects::Effects;
use crate::modifier::{default_modifier, merged, merged_all, neutral_modifier, Modifier, ModifierView};
use crate::task::{messages, resolve_all, reversed, Task};

verus! {

/// Model of one call into a program's dispatch entry points.
pub ghost enum DispatchCall<M> {
    /// `dispatch` with one message
    One(M),
    /// `dispatch_multiple` with a list of messages, followed by one update pass
    Many(Seq<M>),
}

/// One queued action of a command, performed against the program it is emitted to.
pub enum Action<MSG> {
    /// dispatch one message once its task has resolved
    Dispatch(MSG),
    /// dispatch all these messages in one call
    DispatchMultiple(Vec<MSG>),
}

impl<MSG> View for Action<MSG> {
    type V = DispatchCall<MSG>;

    open spec fn view(&self) -> DispatchCall<MSG> {
        match self {
            Action::Dispatch(m) => DispatchCall::One(*m),
            Action::DispatchMultiple(v) => DispatchCall::Many(v@),
        }
    }
}

/// The dispatch calls that a sequence of actions performs, in order.
pub open spec fn calls_of<M>(s: Seq<Action<M>>) -> Seq<DispatchCall<M>> {
    s.map_values(|a: Action<M>| a@)
}

/// How many single-message dispatch calls `calls` holds.
pub open spec fn single_dispatches<M>(calls: Seq<DispatchCall<M>>) -> nat
    decreases calls.len(),
{
    if calls.len() == 0 {
        0
    } else {
        single_dispatches(calls.drop_last()) + if calls.last() is One {
            1nat
        } else {
            0nat
        }
    }
}

/// How many multi-message dispatch calls `calls` holds.
pub open spec fn multi_dispatches<M>(calls: Seq<DispatchCall<M>>) -> nat
    decreases calls.len(),
{
    if calls.len() == 0 {
        0
    } else {
        multi_dispatches(calls.drop_last()) + if calls.last() is Many {
            1nat
        } else {
            0nat
        }
    }
}

/// The dispatch calls of a command made from a bundle of local tasks only: one
/// multi-message dispatch with every local message, in order.
pub open spec fn local_bundle_calls<MSG, XMSG>(e: Effects<MSG, XMSG>) -> Seq<DispatchCall<MSG>> {
    seq![DispatchCall::Many(messages(e.local@))]
}

/// A queue of actions to perform against a running program, with the hints on
/// how the resulting update is executed.
pub struct Cmd<MSG> {
    /// the actions, in the order in which they are performed
    pub commands: Vec<Action<MSG>>,
    /// how the resulting update is executed
    pub modifier: Modifier,
}

/// The actions of each command of `s`, one command after another.
pub open spec fn commands_of<MSG>(s: Seq<Cmd<MSG>>) -> Seq<Action<MSG>>
    decreases s.len(),
{
    if s.len() == 0 {
        Seq::empty()
    } else {
        commands_of(s.drop_last()) + s.last().commands@
    }
}

/// The modifiers of the commands of `s`, in order.
pub open spec fn cmd_modifiers_of<MSG>(s: Seq<Cmd<MSG>>) -> Seq<ModifierView> {
    s.map_values(|c: Cmd<MSG>| c.modifier@)
}

impl<MSG> Cmd<MSG> {
    /// A command of the one action `action`.
    pub fn new(action: Action<MSG>) -> (r: Self)
        ensures
            r.commands@ == seq![action],
            r.modifier@ == default_modifier(),
    {
        let mut commands = Vec::new();
        commands.push(action);
        Cmd { commands, modifier: Modifier::default() }
    }

    /// One command from many: their actions in order, and their modifiers merged.
    pub fn batch(cmds: Vec<Self>) -> (r: Self)
        ensures
            r.commands@ == commands_of(cmds@),
            r.modifier@ == merged_all(neutral_modifier(), cmd_modifiers_of(cmds@)),
    {
        let mut r = Cmd { commands: Vec::new(), modifier: Modifier::neutral() };
        r.append(cmds);
        assert(Seq::<Action<MSG>>::empty() + commands_of(cmds@) =~= commands_of(cmds@));
        r
    }

    /// Add the actions of `cmd` after those of this command and merge its modifier.
    pub fn push(&mut self, cmd: Self)
        ensures
            final(self).commands@ == old(self).commands@ + cmd.commands@,
            final(self).modifier@ == merged(old(self).modifier@, cmd.modifier@),
    {
        let mut cmd = cmd;
        self.commands.append(&mut cmd.commands);
        self.modifier.merge(&cmd.modifier);
    }

    /// Add the actions of each of `cmds` in turn and merge their modifiers.
    pub fn append(&mut self, cmds: Vec<Self>)
        ensures
            final(self).commands@ == old(self).commands@ + commands_of(cmds@),
            final(self).modifier@ == merged_all(old(self).modifier@, cmd_modifiers_of(cmds@)),
    {
        let ghost orig = cmds@;
        let ghost start = *self;
        let mut rest = reversed(cmds);
        let mut k: usize = 0;
        assert(orig.subrange(0, 0) =~= Seq::<Self>::empty());
        assert(cmd_modifiers_of(orig.subrange(0, 0)) =~= Seq::<ModifierView>::empty());
        assert(start.commands@ + Seq::<Action<MSG>>::empty() =~= start.commands@);
        while rest.len() > 0
            invariant
                k + rest.len() == orig.len(),
                orig.len() <= usize::MAX,
                forall|j: int| 0 <= j < rest.len() ==> rest@[j] == orig[orig.len() - 1 - j],
                self.commands@ == start.commands@ + commands_of(orig.subrange(0, k as int)),
                self.modifier@ == merged_all(start.modifier@, cmd_modifiers_of(orig.subrange(0, k as int))),
            decreases rest.len(),
        {
            let c = rest.pop().unwrap();
            proof {
                let pre = orig.subrange(0, k as int);
                let next = orig.subrange(0, k + 1);
                assert(c == orig[k as int]);
                assert(next.drop_last() =~= pre);
                assert(cmd_modifiers_of(next).drop_last() =~= cmd_modifiers_of(pre));
                assert(start.commands@ + commands_of(next)
                    =~= start.commands@ + commands_of(pre) + c.commands@);
            }
            self.push(c);
            k = k + 1;
        }
        assert(orig.subrange(0, orig.len() as int) =~= orig);
    }

    /// A command with no actions.
    pub fn none() -> (r: Self)
        ensures
            r.commands@.len() == 0,
            single_dispatches(calls_of(r.commands@)) == 0,
            multi_dispatches(calls_of(r.commands@)) == 0,
            r.modifier@ == default_modifier(),
    {
        let r = Cmd { commands: Vec::new(), modifier: Modifier::default() };
        assert(calls_of(r.commands@).len() == 0);
        r
    }

    /// Set whether the view is redrawn after the command's update.
    pub fn should_update_view(self, should_update_view: bool) -> (r: Self)
        ensures
            r.commands@ == self.commands@,
            r.modifier@ == (ModifierView { should_update_view, ..self.modifier@ }),
    {
        let mut s = self;
        s.modifier.should_update_view = should_update_view;
        s
    }

    /// Suppress the redraw that would follow the command's update.
    pub fn no_render(self) -> (r: Self)
        ensures
            r.commands@ == self.commands@,
            r.modifier@ == (ModifierView { should_update_view: false, ..self.modifier@ }),
    {
        let mut s = self;
        s.modifier.no_render();
        s
    }

    /// Record the time of the command's update.
    pub fn measure(self) -> (r: Self)
        ensures
            r.commands@ == self.commands@,
            r.modifier@ == (ModifierView { log_measurements: true, ..self.modifier@ }),
    {
        let mut s = self;
        s.modifier.measure();
        s
    }

    /// Record the time of the command's update under `name`.
    pub fn measure_with_name(self, name: &str) -> (r: Self)
        ensures
            r.commands@ == self.commands@,
            r.modifier@ == (ModifierView {
                log_measurements: true,
                measurement_name: name@,
                ..self.modifier@
            }),
    {
        let mut s = self;
        s.modifier.measure_with_name(name);
        s
    }

    /// Drain the command: the actions to perform against the program, each once,
    /// in the order in which they were queued.
    pub fn emit(self) -> (r: Vec<Action<MSG>>)
        ensures
            r@ == self.commands@,
    {
        self.commands
    }

    /// A command that dispatches all of `msg_list` in one call.
    pub fn batch_msg(msg_list: Vec<MSG>) -> (r: Self)
        ensures
            calls_of(r.commands@) == seq![DispatchCall::Many(msg_list@)],
            r.modifier@ == default_modifier(),
    {
        let r = Cmd::new(Action::DispatchMultiple(msg_list));
        assert(calls_of(r.commands@) =~= seq![DispatchCall::Many(msg_list@)]);
        r
    }

    /// A command that dispatches what `task` resolves to.
    pub fn from_task(task: Task<MSG>) -> (r: Self)
        ensures
            calls_of(r.commands@) == seq![DispatchCall::One(task@)],
            r.modifier@ == default_modifier(),
    {
        let r = Cmd::new(Action::Dispatch(task.resolve()));
        assert(calls_of(r.commands@) =~= seq![DispatchCall::One(task@)]);
        r
    }

    /// A command from a bundle whose external messages carry nothing: all the
    /// local messages, in order, in one dispatch call, under the bundle's modifier.
    pub fn from_effects(effects: Effects<MSG, ()>) -> (r: Self)
        ensures
            calls_of(r.commands@) == local_bundle_calls(effects),
            r.modifier@ == effects.modifier@,
    {
        let Effects { local, external: _, modifier } = effects;
        let mut r = Cmd::batch_msg(resolve_all(local));
        r.modifier = modifier;
        r
    }

    /// A command from bundles whose external messages carry nothing: they are
    /// batched first.
    pub fn from_effects_list(effects: Vec<Effects<MSG, ()>>) -> (r: Self)
        ensures
            calls_of(r.commands@) == seq![DispatchCall::Many(messages(crate::effects::locals_of(effects@)))],
            r.modifier@ == merged_all(neutral_modifier(), crate::effects::modifiers_of(effects@)),
    {
        Cmd::from_effects(Effects::batch(effects))
    }
}

/// Emitting a command made from a bundle of local tasks only performs exactly
/// one multi-message dispatch, with as many messages as the bundle has local
/// tasks, and no single-message dispatch.
pub proof fn lemma_local_bundle_dispatches_once<MSG, XMSG>(e: Effects<MSG, XMSG>)
    ensures
        multi_dispatches(local_bundle_calls(e)) == 1,
        single_dispatches(local_bundle_calls(e)) == 0,
        local_bundle_calls(e)[0] == DispatchCall::Many(messages(e.local@)),
        messages(e.local@).len() == e.local@.len(),
{
    let calls = local_bundle_calls(e);
    assert(calls.drop_last() =~= Seq::<DispatchCall<MSG>>::empty());
    assert(multi_dispatches(calls.drop_last()) == 0);
    assert(single_dispatches(calls.drop_last()) == 0);
    assert(calls.last() is Many);
}

} // verus!
