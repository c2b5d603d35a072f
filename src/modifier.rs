//! Execution hints attached to effects and commands.
use vstd::prelude::*;

verus! {

/// Mathematical model of a [`Modifier`].
pub ghost struct ModifierView {
    pub should_update_view: bool,
    pub log_measurements: bool,
    pub measurement_name: Seq<char>,
}

/// The model of the default modifier: render, no measurement, no name.
pub open spec fn default_modifier() -> ModifierView {
    ModifierView { should_update_view: true, log_measurements: false, measurement_name: Seq::empty() }
}

/// The model of the neutral modifier that a batch starts from.
pub open spec fn neutral_modifier() -> ModifierView {
    ModifierView { should_update_view: false, log_measurements: false, measurement_name: Seq::empty() }
}

/// Merge rule: both flags are or-ed; the name of `b` wins when it is non-empty.
pub open spec fn merged(a: ModifierView, b: ModifierView) -> ModifierView {
    ModifierView {
        should_update_view: a.should_update_view || b.should_update_view,
        log_measurements: a.log_measurements || b.log_measurements,
        measurement_name: if b.measurement_name.len() > 0 {
            b.measurement_name
        } else {
            a.measurement_name
        },
    }
}

/// `start` merged with each of `ms` in turn.
pub open spec fn merged_all(start: ModifierView, ms: Seq<ModifierView>) -> ModifierView
    decreases ms.len(),
{
    if ms.len() == 0 {
        start
    } else {
        merged(merged_all(start, ms.drop_last()), ms.last())
    }
}

/// Non-functional hints on how the effects of one update are to be executed.
pub struct Modifier {
    /// whether the view is redrawn after the effects are dispatched
    pub should_update_view: bool,
    /// whether the time of the resulting update is recorded
    pub log_measurements: bool,
    /// the name under which the measurement is recorded
    pub measurement_name: String,
}

impl View for Modifier {
    type V = ModifierView;

    open spec fn view(&self) -> ModifierView {
        ModifierView {
            should_update_view: self.should_update_view,
            log_measurements: self.log_measurements,
            measurement_name: self.measurement_name@,
        }
    }
}

impl Default for Modifier {
    fn default() -> (r: Modifier)
        ensures
            r@ == default_modifier(),
    {
        Modifier { should_update_view: true, log_measurements: false, measurement_name: String::new() }
    }
}

impl Modifier {
    /// The modifier that a batch starts from: merging it into any other leaves that one unchanged.
    pub fn neutral() -> (r: Modifier)
        ensures
            r@ == neutral_modifier(),
    {
        Modifier { should_update_view: false, log_measurements: false, measurement_name: String::new() }
    }

    /// Merge `other` into this modifier: a flag set in either stays set, and a
    /// non-empty name of `other` replaces the current one.
    pub fn merge(&mut self, other: &Modifier)
        ensures
            final(self)@ == merged(old(self)@, other@),
    {
        if other.should_update_view {
            self.should_update_view = true;
        }
        if other.log_measurements {
            self.log_measurements = true;
        }
        if !other.measurement_name.as_str().is_empty() {
            self.measurement_name = other.measurement_name.clone();
        }
    }

    /// Suppress the redraw that would follow the update.
    pub fn no_render(&mut self)
        ensures
            final(self)@ == (ModifierView { should_update_view: false, ..old(self)@ }),
    {
        self.should_update_view = false;
    }

    /// Record the time of the update.
    pub fn measure(&mut self)
        ensures
            final(self)@ == (ModifierView { log_measurements: true, ..old(self)@ }),
    {
        self.log_measurements = true;
    }

    /// Record the time of the update under `name`.
    pub fn measure_with_name(&mut self, name: &str)
        ensures
            final(self)@ == (ModifierView {
                log_measurements: true,
                measurement_name: name@,
                ..old(self)@
            }),
    {
        self.log_measurements = true;
        self.measurement_name = name.to_owned();
    }
}

/// Merging is commutative and idempotent on the two flags.
pub proof fn lemma_merge_flags_commute_and_idempotent(a: ModifierView, b: ModifierView)
    ensures
        merged(a, b).should_update_view == merged(b, a).should_update_view,
        merged(a, b).log_measurements == merged(b, a).log_measurements,
        merged(a, a).should_update_view == a.should_update_view,
        merged(a, a).log_measurements == a.log_measurements,
{
}

} // verus!
