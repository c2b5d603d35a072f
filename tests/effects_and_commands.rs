use sauron_core::cmd::{Action, Cmd};
use sauron_core::effects::Effects;
use sauron_core::modifier::Modifier;
use sauron_core::task::Task;

#[derive(Debug, Clone, Copy, PartialEq)]
enum Msg {
    Increment,
    Decrement,
}

/// A program that counts: it records every dispatch call and renders after an
/// update pass unless the command's modifier says otherwise.
#[derive(Default)]
struct Counter {
    count: i32,
    single_calls: Vec<Msg>,
    multi_calls: Vec<Vec<Msg>>,
    renders: u32,
}

impl Counter {
    fn apply(&mut self, msg: Msg) {
        match msg {
            Msg::Increment => self.count += 1,
            Msg::Decrement => self.count -= 1,
        }
    }

    fn run(&mut self, cmd: Cmd<Msg>) {
        let render = cmd.modifier.should_update_view;
        for action in cmd.emit() {
            match action {
                Action::Dispatch(msg) => {
                    self.single_calls.push(msg);
                    self.apply(msg);
                }
                Action::DispatchMultiple(msgs) => {
                    for m in msgs.iter() {
                        self.apply(*m);
                    }
                    self.multi_calls.push(msgs);
                }
            }
            if render {
                self.renders += 1;
            }
        }
    }
}

fn resolved<M>(tasks: Vec<Task<M>>) -> Vec<M> {
    tasks.into_iter().map(|t| t.resolve()).collect()
}

#[test]
fn localize_puts_external_first_and_empties_external() {
    let e: Effects<i32, i32> = Effects::new(vec![1, 2], vec![10]);
    let l: Effects<i32, ()> = e.localize(|m| m * 100);
    assert!(l.external.is_empty());
    assert_eq!(resolved(l.local), vec![10, 100, 200]);
}

#[test]
fn localize_of_empty_bundle_is_empty() {
    let e: Effects<i32, i32> = Effects::none();
    let l: Effects<i32, ()> = e.localize(|m| m + 1);
    assert!(l.local.is_empty());
    assert!(l.external.is_empty());
}

#[test]
fn localize_keeps_modifier() {
    let e: Effects<i32, i32> = Effects::with_local(vec![3]).no_render();
    let l: Effects<i32, ()> = e.localize(|m| m * 2);
    assert!(!l.modifier.should_update_view);
    assert_eq!(resolved(l.local), vec![6]);
}

#[test]
fn batch_concatenates_channels_in_order() {
    let b1: Effects<i32, &str> = Effects::new(vec![1, 2], vec!["a"]);
    let b2: Effects<i32, &str> = Effects::new(vec![3], vec!["b", "c"]);
    let b = Effects::batch(vec![b1, b2]);
    assert_eq!(resolved(b.local), vec![1, 2, 3]);
    assert_eq!(resolved(b.external), vec!["a", "b", "c"]);
}

#[test]
fn batch_renders_iff_one_input_renders() {
    let both_quiet = Effects::batch(vec![
        Effects::<i32, ()>::with_local(vec![1]).no_render(),
        Effects::<i32, ()>::with_local(vec![2]).no_render(),
    ]);
    assert!(!both_quiet.modifier.should_update_view);
    let one_renders = Effects::batch(vec![
        Effects::<i32, ()>::with_local(vec![1]).no_render(),
        Effects::<i32, ()>::with_local(vec![2]),
    ]);
    assert!(one_renders.modifier.should_update_view);
}

#[test]
fn batch_merges_measurement() {
    let b = Effects::batch(vec![
        Effects::<i32, ()>::none().measure_with_name("first"),
        Effects::<i32, ()>::none(),
        Effects::<i32, ()>::none().measure_with_name("last"),
    ]);
    assert!(b.modifier.log_measurements);
    assert_eq!(b.modifier.measurement_name, "last");
}

#[test]
fn batch_of_nothing_is_empty() {
    let b: Effects<i32, i32> = Effects::batch(vec![]);
    assert!(b.local.is_empty());
    assert!(b.external.is_empty());
    assert!(!b.modifier.should_update_view);
    assert!(!b.modifier.log_measurements);
}

#[test]
fn local_bundle_dispatches_once_with_all_messages() {
    let e: Effects<Msg, ()> = Effects::with_local(vec![Msg::Increment, Msg::Decrement, Msg::Increment]);
    let mut p = Counter::default();
    p.run(Cmd::from_effects(e));
    assert!(p.single_calls.is_empty());
    assert_eq!(p.multi_calls, vec![vec![Msg::Increment, Msg::Decrement, Msg::Increment]]);
    assert_eq!(p.count, 1);
}

#[test]
fn none_dispatches_nothing() {
    let mut p = Counter::default();
    p.run(Cmd::none());
    assert!(p.single_calls.is_empty());
    assert!(p.multi_calls.is_empty());
    assert_eq!(p.renders, 0);
    assert!(Cmd::<Msg>::none().emit().is_empty());
}

#[test]
fn transform_then_resolve_equals_resolve_then_transform() {
    let f = |m: i32| m * 3 + 1;
    let t = Task::new(7);
    let u = Task::new(7);
    assert_eq!(t.map_msg(&f).resolve(), f(u.resolve()));
}

#[test]
fn modifier_merge_commutes_and_is_idempotent_on_flags() {
    let flags = [(false, false), (false, true), (true, false), (true, true)];
    for (a_view, a_log) in flags {
        for (b_view, b_log) in flags {
            let a = Modifier { should_update_view: a_view, log_measurements: a_log, measurement_name: String::new() };
            let b = Modifier { should_update_view: b_view, log_measurements: b_log, measurement_name: String::new() };
            let mut ab = Modifier { measurement_name: String::new(), ..a };
            ab.merge(&b);
            let mut ba = Modifier { measurement_name: String::new(), ..b };
            ba.merge(&a);
            assert_eq!(ab.should_update_view, ba.should_update_view);
            assert_eq!(ab.log_measurements, ba.log_measurements);
            assert_eq!(ab.should_update_view, a_view || b_view);
            assert_eq!(ab.log_measurements, a_log || b_log);
            let mut aa = Modifier { measurement_name: String::new(), ..a };
            let a2 = Modifier { measurement_name: String::new(), ..a };
            aa.merge(&a2);
            assert_eq!(aa.should_update_view, a_view);
            assert_eq!(aa.log_measurements, a_log);
        }
    }
}

#[test]
fn modifier_merge_takes_non_empty_name_of_other() {
    let mut a = Modifier::default();
    a.measure_with_name("one");
    let mut b = Modifier::default();
    b.measure_with_name("two");
    let mut ab = Modifier::default();
    ab.merge(&a);
    ab.merge(&b);
    assert_eq!(ab.measurement_name, "two");
    ab.merge(&Modifier::default());
    assert_eq!(ab.measurement_name, "two");
}

#[test]
fn modifier_defaults() {
    let m = Modifier::default();
    assert!(m.should_update_view);
    assert!(!m.log_measurements);
    assert_eq!(m.measurement_name, "");
    let n = Modifier::neutral();
    assert!(!n.should_update_view);
    assert!(!n.log_measurements);
}

#[test]
fn counter_increments_twice_with_one_dispatch_and_one_render() {
    let update = || -> Effects<Msg, ()> { Effects::with_local(vec![Msg::Increment, Msg::Increment]) };
    let mut p = Counter::default();
    p.run(Cmd::from_effects(update()));
    assert_eq!(p.multi_calls, vec![vec![Msg::Increment, Msg::Increment]]);
    assert!(p.single_calls.is_empty());
    assert_eq!(p.renders, 1);
    assert_eq!(p.count, 2);
}

#[test]
fn no_render_bundle_dispatches_without_render() {
    let e: Effects<Msg, ()> = Effects::with_local(vec![Msg::Increment, Msg::Decrement]).no_render();
    let mut p = Counter::default();
    p.run(Cmd::from_effects(e));
    assert_eq!(p.multi_calls, vec![vec![Msg::Increment, Msg::Decrement]]);
    assert_eq!(p.renders, 0);
}

#[test]
fn map_msg_rewrites_local_only() {
    let e: Effects<i32, i32> = Effects::new(vec![1, 2], vec![5]);
    let m = e.map_msg(|x| x * 10);
    assert_eq!(resolved(m.local), vec![10, 20]);
    assert_eq!(resolved(m.external), vec![5]);
}

#[test]
fn map_external_rewrites_external_only() {
    let e: Effects<i32, i32> = Effects::new(vec![1, 2], vec![5, 6]);
    let m = e.map_external(|x| x - 1);
    assert_eq!(resolved(m.local), vec![1, 2]);
    assert_eq!(resolved(m.external), vec![4, 5]);
}

#[test]
fn append_local_and_extend_add_after_existing() {
    let e: Effects<i32, i32> = Effects::with_local(vec![1]).append_local(vec![2, 3]);
    assert_eq!(resolved(e.local), vec![1, 2, 3]);
    let x: Effects<i32, i32> = Effects::with_external(vec![7]).extend(vec![4], vec![8, 9]);
    assert_eq!(resolved(x.local), vec![4]);
    assert_eq!(resolved(x.external), vec![7, 8, 9]);
}

#[test]
fn effects_from_task_has_one_local_task() {
    let e: Effects<i32, ()> = Effects::from_task(Task::new(4));
    assert!(e.external.is_empty());
    assert!(e.modifier.should_update_view);
    assert_eq!(resolved(e.local), vec![4]);
}

#[test]
fn effects_measure_sets_flags() {
    let e: Effects<i32, ()> = Effects::none().measure();
    assert!(e.modifier.log_measurements);
    let n: Effects<i32, ()> = Effects::none().measure_with_name("tick");
    assert!(n.modifier.log_measurements);
    assert_eq!(n.modifier.measurement_name, "tick");
}

#[test]
fn cmd_batch_keeps_order_and_merges_flags() {
    let a = Cmd::new(Action::Dispatch(Msg::Increment)).no_render();
    let b = Cmd::batch_msg(vec![Msg::Decrement, Msg::Decrement]).no_render().measure();
    let c = Cmd::batch(vec![a, b]);
    assert!(!c.modifier.should_update_view);
    assert!(c.modifier.log_measurements);
    let mut p = Counter::default();
    p.run(c);
    assert_eq!(p.single_calls, vec![Msg::Increment]);
    assert_eq!(p.multi_calls, vec![vec![Msg::Decrement, Msg::Decrement]]);
    assert_eq!(p.count, -1);
}

#[test]
fn cmd_push_and_append() {
    let mut c = Cmd::new(Action::Dispatch(1)).no_render();
    c.push(Cmd::new(Action::Dispatch(2)).no_render());
    assert!(!c.modifier.should_update_view);
    c.append(vec![Cmd::new(Action::Dispatch(3)), Cmd::batch_msg(vec![4, 5]).measure_with_name("m")]);
    assert!(c.modifier.should_update_view);
    assert!(c.modifier.log_measurements);
    assert_eq!(c.modifier.measurement_name, "m");
    let actions = c.emit();
    assert_eq!(actions.len(), 4);
    assert!(matches!(actions[0], Action::Dispatch(1)));
    assert!(matches!(actions[1], Action::Dispatch(2)));
    assert!(matches!(actions[2], Action::Dispatch(3)));
    match &actions[3] {
        Action::DispatchMultiple(v) => assert_eq!(v, &vec![4, 5]),
        Action::Dispatch(_) => panic!("expected one call with all messages"),
    }
}

#[test]
fn cmd_should_update_view_sets_flag() {
    let c = Cmd::<i32>::none().should_update_view(false);
    assert!(!c.modifier.should_update_view);
    let d = c.should_update_view(true);
    assert!(d.modifier.should_update_view);
}

#[test]
fn cmd_from_task_dispatches_one_message() {
    let mut p = Counter::default();
    p.run(Cmd::from_task(Task::new(Msg::Decrement)));
    assert_eq!(p.single_calls, vec![Msg::Decrement]);
    assert!(p.multi_calls.is_empty());
    assert_eq!(p.count, -1);
}

#[test]
fn cmd_from_effects_list_batches_first() {
    let list: Vec<Effects<Msg, ()>> = vec![
        Effects::with_local(vec![Msg::Increment]).no_render(),
        Effects::with_local(vec![Msg::Increment, Msg::Decrement]).no_render(),
    ];
    let c = Cmd::from_effects_list(list);
    assert!(!c.modifier.should_update_view);
    let mut p = Counter::default();
    p.run(c);
    assert_eq!(p.multi_calls, vec![vec![Msg::Increment, Msg::Increment, Msg::Decrement]]);
    assert_eq!(p.renders, 0);
}

#[test]
fn cmd_from_effects_keeps_modifier() {
    let e: Effects<Msg, ()> = Effects::with_local(vec![]).measure_with_name("idle");
    let c = Cmd::from_effects(e);
    assert!(c.modifier.log_measurements);
    assert_eq!(c.modifier.measurement_name, "idle");
    let mut p = Counter::default();
    p.run(c);
    assert_eq!(p.multi_calls, vec![Vec::<Msg>::new()]);
}
