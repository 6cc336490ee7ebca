//! What a builder definition means: how a builder made from it behaves.
//!
//! A builder in use is a sequence of slots, each empty or holding a value.
//! The functions here say what a new builder holds, what a setter changes and
//! what the finalizer yields, and evaluate a definition on concrete values.
//! The laws at the end are proved of every definition that
//! [`generate_builder`](crate::types::BuilderInfo::generate_builder) returns.

use crate::types::{is_required, BuilderDefinition, BuilderInfo, Finalize, FinalizerStep};
use vstd::prelude::*;

verus! {

impl BuilderDefinition {
    /// Whether slots, setters and steps correspond one to one, in order.
    pub open spec fn well_formed(self) -> bool {
        &&& self.setters@.len() == self.slots@.len()
        &&& self.steps@.len() == self.slots@.len()
        &&& forall|i: int|
            0 <= i < self.slots@.len() ==> (#[trigger] self.setters@[i]).slot == i
        &&& forall|i: int| 0 <= i < self.slots@.len() ==> (#[trigger] self.steps@[i]).slot == i
    }

    /// Whether slots, setters and steps correspond one to one, in order.
    pub fn is_well_formed(&self) -> (res: bool)
        ensures
            res == self.well_formed(),
    {
        let n: usize = self.slots.len();
        if self.setters.len() != n || self.steps.len() != n {
            return false;
        }
        let mut i: usize = 0;
        while i < n
            invariant
                i <= n,
                n == self.slots@.len(),
                self.setters@.len() == n,
                self.steps@.len() == n,
                forall|j: int| 0 <= j < i ==> (#[trigger] self.setters@[j]).slot == j,
                forall|j: int| 0 <= j < i ==> (#[trigger] self.steps@[j]).slot == j,
            decreases n - i,
        {
            if self.setters[i].slot != i || self.steps[i].slot != i {
                return false;
            }
            i += 1;
        }
        true
    }

    /// The slots of a new builder: all empty.
    pub open spec fn spec_new_state<V>(self) -> Seq<Option<V>> {
        Seq::new(self.slots@.len(), |i: int| None::<V>)
    }

    /// The slots after the setter at index `k` was called with `value`: its
    /// slot holds `value`, the others are as they were.
    pub open spec fn spec_set<V>(self, state: Seq<Option<V>>, k: int, value: V) -> Seq<Option<V>> {
        state.update(self.setters@[k].slot as int, Some(value))
    }

    /// Whether the finalizer fails on these slots: some step requires a slot
    /// that is empty.
    pub open spec fn spec_fails<V>(self, state: Seq<Option<V>>) -> bool {
        exists|i: int| 0 <= i < self.steps@.len() && step_fails(#[trigger] self.steps@[i], state)
    }

    /// What the finalizer yields on these slots: the values of the record's
    /// fields, in declaration order, or `None` where it fails. `defaults[i]`
    /// is the default value of the type of field `i`.
    pub open spec fn spec_build<V>(self, state: Seq<Option<V>>, defaults: Seq<V>) -> Option<
        Seq<V>,
    > {
        if self.spec_fails(state) {
            None
        } else {
            Some(
                Seq::new(
                    self.steps@.len(),
                    |i: int| step_value(self.steps@[i], state, defaults[i]),
                ),
            )
        }
    }

    /// The slots of a new builder.
    pub fn new_state<V: Copy>(&self) -> (state: Vec<Option<V>>)
        ensures
            state@ == self.spec_new_state::<V>(),
    {
        let mut state: Vec<Option<V>> = Vec::new();
        let mut i: usize = 0;
        while i < self.slots.len()
            invariant
                i <= self.slots@.len(),
                state@.len() == i,
                forall|k: int| 0 <= k < i ==> #[trigger] state@[k] == None::<V>,
            decreases self.slots.len() - i,
        {
            state.push(None);
            i += 1;
        }
        assert(state@ =~= self.spec_new_state::<V>());
        state
    }

    /// Calls the setter at index `k` with `value`.
    pub fn set<V: Copy>(&self, state: &mut Vec<Option<V>>, k: usize, value: V)
        requires
            self.well_formed(),
            old(state)@.len() == self.slots@.len(),
            k < self.setters@.len(),
        ensures
            final(state)@ == self.spec_set(old(state)@, k as int, value),
    {
        let slot: usize = self.setters[k].slot;
        state.set(slot, Some(value));
    }

    /// Whether the finalizer would fail on these slots.
    pub fn fails<V: Copy>(&self, state: &Vec<Option<V>>) -> (res: bool)
        requires
            self.well_formed(),
            state@.len() == self.slots@.len(),
        ensures
            res == self.spec_fails(state@),
    {
        let mut i: usize = 0;
        while i < self.steps.len()
            invariant
                i <= self.steps@.len(),
                self.well_formed(),
                state@.len() == self.slots@.len(),
                forall|j: int| 0 <= j < i ==> !step_fails(#[trigger] self.steps@[j], state@),
            decreases self.steps.len() - i,
        {
            let step = &self.steps[i];
            if step.finalize == Finalize::Require && state[step.slot].is_none() {
                return true;
            }
            i += 1;
        }
        false
    }

    /// Runs the finalizer on slots on which it does not fail.
    pub fn build<V: Copy>(&self, state: &Vec<Option<V>>, defaults: &Vec<V>) -> (record: Vec<V>)
        requires
            self.well_formed(),
            state@.len() == self.slots@.len(),
            defaults@.len() == self.slots@.len(),
            !self.spec_fails(state@),
        ensures
            self.spec_build(state@, defaults@) == Some(record@),
    {
        let mut record: Vec<V> = Vec::new();
        let mut i: usize = 0;
        while i < self.steps.len()
            invariant
                i <= self.steps@.len(),
                self.well_formed(),
                state@.len() == self.slots@.len(),
                defaults@.len() == self.slots@.len(),
                record@.len() == i,
                forall|j: int|
                    0 <= j < i ==> #[trigger] record@[j] == step_value(
                        self.steps@[j],
                        state@,
                        defaults@[j],
                    ),
            decreases self.steps.len() - i,
        {
            let step = &self.steps[i];
            let value = match state[step.slot] {
                Some(value) => value,
                None => defaults[i],
            };
            record.push(value);
            i += 1;
        }
        assert(record@ =~= self.spec_build(state@, defaults@)->Some_0);
        record
    }

    /// Runs the finalizer, or says that it would fail.
    pub fn try_build<V: Copy>(&self, state: &Vec<Option<V>>, defaults: &Vec<V>) -> (res: Option<
        Vec<V>,
    >)
        requires
            self.well_formed(),
            state@.len() == self.slots@.len(),
            defaults@.len() == self.slots@.len(),
        ensures
            match res {
                Some(record) => self.spec_build(state@, defaults@) == Some(record@),
                None => self.spec_build(state@, defaults@) is None,
            },
    {
        if self.fails(state) {
            None
        } else {
            Some(self.build(state, defaults))
        }
    }
}

/// Whether the step fails on these slots: it requires its slot, and the slot
/// is empty.
pub open spec fn step_fails<V>(step: FinalizerStep, state: Seq<Option<V>>) -> bool {
    step.finalize == Finalize::Require && state[step.slot as int] is None
}

/// What the step yields on these slots, where it does not fail: the value in
/// its slot, or `default` if the slot is empty.
pub open spec fn step_value<V>(step: FinalizerStep, state: Seq<Option<V>>, default: V) -> V {
    match state[step.slot as int] {
        Some(value) => value,
        None => default,
    }
}

/// The builder of a record is well formed.
pub proof fn law_generated_is_well_formed(info: BuilderInfo, def: BuilderDefinition)
    requires
        info.builds(def),
    ensures
        def.well_formed(),
{
}

/// A new builder of a record without required fields can be finalized at
/// once, and yields the record whose every field has the default value of its
/// type.
pub proof fn law_new_builds_defaults<V>(info: BuilderInfo, def: BuilderDefinition, defaults: Seq<V>)
    requires
        info.builds(def),
        forall|i: int| 0 <= i < info.fields@.len() ==> !is_required(info.fields@[i].directives@),
        defaults.len() == info.fields@.len(),
    ensures
        def.spec_build(def.spec_new_state::<V>(), defaults) == Some(defaults),
{
    let state = def.spec_new_state::<V>();
    assert forall|i: int| 0 <= i < def.steps@.len() implies !step_fails(
        #[trigger] def.steps@[i],
        state,
    ) by {
        assert(!is_required(info.fields@[i].directives@));
    }
    assert(def.spec_build(state, defaults)->Some_0 =~= defaults);
}

/// Two setters of different fields may be called in either order: the slots,
/// and so the finalized record, are the same.
pub proof fn law_setters_commute<V>(
    info: BuilderInfo,
    def: BuilderDefinition,
    state: Seq<Option<V>>,
    a: int,
    x: V,
    b: int,
    y: V,
    defaults: Seq<V>,
)
    requires
        info.builds(def),
        state.len() == info.fields@.len(),
        0 <= a < info.fields@.len(),
        0 <= b < info.fields@.len(),
        a != b,
    ensures
        def.spec_set(def.spec_set(state, a, x), b, y) == def.spec_set(def.spec_set(state, b, y), a, x),
        def.spec_build(def.spec_set(def.spec_set(state, a, x), b, y), defaults) == def.spec_build(
            def.spec_set(def.spec_set(state, b, y), a, x),
            defaults,
        ),
{
    assert(def.setters@[a].slot == a);
    assert(def.setters@[b].slot == b);
    assert(def.spec_set(def.spec_set(state, a, x), b, y) =~= def.spec_set(
        def.spec_set(state, b, y),
        a,
        x,
    ));
}

/// The finalizer fails whenever the slot of a required field is empty.
pub proof fn law_required_unset_fails<V>(
    info: BuilderInfo,
    def: BuilderDefinition,
    state: Seq<Option<V>>,
    k: int,
    defaults: Seq<V>,
)
    requires
        info.builds(def),
        state.len() == info.fields@.len(),
        0 <= k < info.fields@.len(),
        is_required(info.fields@[k].directives@),
        state[k] is None,
    ensures
        def.spec_build(state, defaults) is None,
{
    assert(step_fails(def.steps@[k], state));
}

/// The finalizer succeeds whenever the slot of every required field holds a
/// value.
pub proof fn law_required_set_succeeds<V>(
    info: BuilderInfo,
    def: BuilderDefinition,
    state: Seq<Option<V>>,
    defaults: Seq<V>,
)
    requires
        info.builds(def),
        state.len() == info.fields@.len(),
        forall|i: int|
            0 <= i < info.fields@.len() && is_required(info.fields@[i].directives@)
                ==> state[i] is Some,
    ensures
        def.spec_build(state, defaults) is Some,
{
    assert forall|i: int| 0 <= i < def.steps@.len() implies !step_fails(
        #[trigger] def.steps@[i],
        state,
    ) by {
        if is_required(info.fields@[i].directives@) {
            assert(state[i] is Some);
        }
    }
}

/// A new builder of a record whose only required field is `k` cannot be
/// finalized; once the setter of `k` was called, it can, and the field holds
/// the value that the setter was given.
pub proof fn law_required_enforced<V>(
    info: BuilderInfo,
    def: BuilderDefinition,
    k: int,
    value: V,
    defaults: Seq<V>,
)
    requires
        info.builds(def),
        0 <= k < info.fields@.len(),
        forall|i: int|
            0 <= i < info.fields@.len() ==> (is_required(info.fields@[i].directives@) <==> i == k),
    ensures
        def.spec_build(def.spec_new_state::<V>(), defaults) is None,
        def.spec_build(def.spec_set(def.spec_new_state::<V>(), k, value), defaults) matches Some(
            record,
        ) && record[k] == value,
{
    let fresh = def.spec_new_state::<V>();
    law_required_unset_fails(info, def, fresh, k, defaults);
    let state = def.spec_set(fresh, k, value);
    assert(def.setters@[k].slot == k);
    law_required_set_succeeds(info, def, state, defaults);
    law_set_value_is_built(info, def, fresh, k, value, defaults);
}

/// Wherever the finalizer succeeds after the setter of field `k` was called
/// with `value`, field `k` of the record is exactly `value`.
pub proof fn law_set_value_is_built<V>(
    info: BuilderInfo,
    def: BuilderDefinition,
    state: Seq<Option<V>>,
    k: int,
    value: V,
    defaults: Seq<V>,
)
    requires
        info.builds(def),
        state.len() == info.fields@.len(),
        0 <= k < info.fields@.len(),
    ensures
        def.spec_build(def.spec_set(state, k, value), defaults) matches Some(record) ==> record[k]
            == value,
{
    assert(def.setters@[k].slot == k);
    assert(def.steps@[k].slot == k);
}

/// The builder has the generic parameters of its record, unchanged and in
/// order, and is referred to with their names as arguments, in the same order.
pub proof fn law_generics_kept(info: BuilderInfo, def: BuilderDefinition, i: int)
    requires
        info.builds(def),
        0 <= i < info.generics.params@.len(),
    ensures
        def.generics == info.generics,
        def.arguments@.len() == info.generics.params@.len(),
        def.arguments@[i] == info.generics.params@[i].name,
{
}

} // verus!
