//! What the generated definitions do when they run: a builder as a row of
//! slots, one per field, and the meaning of the factory method, of a setter
//! and of `build` on such a row.
//!
//! The values that a builder stages are of any type `V`; a slot holds nothing,
//! a single value, or a list of values.

use vstd::prelude::*;

use crate::error::ConstructionError;
use crate::schema::{
    BuildInitModel, BuildMethodModel, BuildMethodSpec, FactoryInitModel, FactoryMethodSpec,
    SetterKind, SetterModel, SetterSpec,
};

verus! {

/// A value that a field holds.
#[derive(Debug, PartialEq, Eq)]
pub enum Value<V> {
    /// A single value.
    Single(V),
    /// A list of values, in order.
    List(Vec<V>),
}

/// The mathematical value of a [`Value`].
pub enum ValueModel<V> {
    Single(V),
    List(Seq<V>),
}

impl<V> View for Value<V> {
    type V = ValueModel<V>;

    open spec fn view(&self) -> ValueModel<V> {
        match self {
            Value::Single(v) => ValueModel::Single(*v),
            Value::List(l) => ValueModel::List(l@),
        }
    }
}

/// What a builder holds: for each field, in order, a value or nothing.
pub type Slots<V> = Seq<Option<ValueModel<V>>>;

/// What `build` returns: the record, which holds a value or nothing for each
/// field, or the message of the error.
pub type Outcome<V> = Result<Slots<V>, Seq<char>>;

/// What a slot holds, as a mathematical value.
pub open spec fn slot_model<V>(slot: Option<Value<V>>) -> Option<ValueModel<V>> {
    match slot {
        Some(v) => Some(v@),
        None => None,
    }
}

/// What a row of slots holds.
pub open spec fn slot_models<V>(slots: Seq<Option<Value<V>>>) -> Slots<V> {
    slots.map_values(|s: Option<Value<V>>| slot_model(s))
}

/// A builder at run time: one slot per field, in the order of the fields.
#[derive(Debug, PartialEq, Eq)]
pub struct BuilderValue<V> {
    pub slots: Vec<Option<Value<V>>>,
}

impl<V> View for BuilderValue<V> {
    type V = Slots<V>;

    open spec fn view(&self) -> Slots<V> {
        slot_models(self.slots@)
    }
}

/// What a new builder holds: an empty list where the factory method says
/// so, nothing elsewhere.
pub open spec fn new_slots<V>(inits: Seq<FactoryInitModel>) -> Slots<V> {
    inits.map_values(
        |i: FactoryInitModel|
            if i.empty_list {
                Some(ValueModel::<V>::List(Seq::empty()))
            } else {
                None
            },
    )
}

/// Whether a setter can be called on a builder: its slot exists, and a
/// one-at-a-time setter finds a list there and is given a single value.
pub open spec fn accepts<V>(setter: SetterModel, slots: Slots<V>, arg: ValueModel<V>) -> bool {
    &&& 0 <= setter.slot < slots.len()
    &&& setter.kind is Each ==> {
        &&& arg is Single
        &&& slots[setter.slot] matches Some(ValueModel::List(_))
    }
}

/// What a builder holds after a call of a setter: an all-at-once setter
/// puts its argument in the slot, whatever was there; a one-at-a-time setter
/// appends its argument to the list in the slot. No other slot changes.
pub open spec fn after_call<V>(
    setter: SetterModel,
    slots: Slots<V>,
    arg: ValueModel<V>,
) -> Slots<V> {
    match setter.kind {
        SetterKind::All => slots.update(setter.slot, Some(arg)),
        SetterKind::Each => slots.update(
            setter.slot,
            Some(ValueModel::List(slots[setter.slot]->Some_0->List_0.push(arg->Single_0))),
        ),
    }
}

/// What a builder holds after a call of a setter for each of `args`, in
/// order.
pub open spec fn after_calls<V>(
    setter: SetterModel,
    slots: Slots<V>,
    args: Seq<ValueModel<V>>,
) -> Slots<V>
    decreases args.len(),
{
    if args.len() == 0 {
        slots
    } else {
        after_call(setter, after_calls(setter, slots, args.drop_last()), args.last())
    }
}

/// Single values as arguments of a setter.
pub open spec fn singles<V>(elems: Seq<V>) -> Seq<ValueModel<V>> {
    elems.map_values(|v: V| ValueModel::Single(v))
}

/// Whether `build` finds the field at position `i` without a value that it
/// needs.
pub open spec fn lacks<V>(inits: Seq<BuildInitModel>, slots: Slots<V>, i: int) -> bool {
    &&& 0 <= i < inits.len()
    &&& inits[i].on_missing is Some
    &&& slots[i] is None
}

/// Whether the field at position `i` is the first that lacks a value.
pub open spec fn first_lack<V>(inits: Seq<BuildInitModel>, slots: Slots<V>, i: int) -> bool {
    &&& lacks(inits, slots, i)
    &&& forall|j: int| 0 <= j < i ==> !lacks(inits, slots, j)
}

/// What `build` returns: the message of the first field that lacks a value,
/// or, where no field does, the record, which holds for each field what the
/// builder held.
pub open spec fn built<V>(build: BuildMethodModel, slots: Slots<V>) -> Outcome<V> {
    if exists|i: int| first_lack(build.inits, slots, i) {
        let i = choose|i: int| first_lack(build.inits, slots, i);
        Err(build.inits[i].on_missing->Some_0)
    } else {
        Ok(slots)
    }
}

/// What a run of `build` returned, as a mathematical value.
pub open spec fn outcome_of<V>(r: Result<Vec<Option<Value<V>>>, ConstructionError>) -> Outcome<V> {
    match r {
        Ok(record) => Ok(slot_models(record@)),
        Err(e) => Err(e.message@),
    }
}

impl FactoryMethodSpec {
    /// Run the factory method: make a new builder.
    pub fn default_builder<V>(&self) -> (r: BuilderValue<V>)
        ensures
            r@ == new_slots::<V>(self@.inits),
    {
        let mut slots: Vec<Option<Value<V>>> = Vec::new();
        let mut i: usize = 0;
        while i < self.inits.len()
            invariant
                i <= self.inits.len(),
                slots@.len() == i,
                forall|j: int|
                    0 <= j < i ==> slot_model(#[trigger] slots@[j]) == new_slots::<V>(
                        self@.inits,
                    )[j],
            decreases self.inits.len() - i,
        {
            if self.inits[i].empty_list {
                slots.push(Some(Value::List(Vec::new())));
            } else {
                slots.push(None);
            }
            i += 1;
        }
        let r = BuilderValue { slots };
        assert(r@ =~= new_slots::<V>(self@.inits));
        r
    }
}

impl SetterSpec {
    /// Run the setter on a builder. The builder comes back for the next
    /// call.
    pub fn call<'a, V>(
        &self,
        builder: &'a mut BuilderValue<V>,
        arg: Value<V>,
    ) -> (r: &'a mut BuilderValue<V>)
        requires
            accepts(self@, old(builder)@, arg@),
        ensures
            r@ == after_call(self@, old(builder)@, arg@),
            *final(builder) == *final(r),
    {
        match self.kind {
            SetterKind::All => {
                builder.slots[self.slot] = Some(arg);
            },
            SetterKind::Each => {
                if let Value::Single(elem) = arg {
                    if let Some(Value::List(list)) = &mut builder.slots[self.slot] {
                        list.push(elem);
                    }
                }
            },
        }
        assert(builder@ =~= after_call(self@, old(builder)@, arg@));
        builder
    }
}

impl BuildMethodSpec {
    /// Run `build` on a builder, which is used up: the record holds, field
    /// by field, what the builder held, unless a field lacks a value that it
    /// needs; the first such field gives the error.
    pub fn build<V>(&self, builder: BuilderValue<V>) -> (r: Result<
        Vec<Option<Value<V>>>,
        ConstructionError,
    >)
        requires
            builder.slots.len() == self.inits.len(),
        ensures
            outcome_of(r) == built(self@, builder@),
    {
        let mut i: usize = 0;
        while i < self.inits.len()
            invariant
                i <= self.inits.len(),
                builder.slots.len() == self.inits.len(),
                forall|j: int| 0 <= j < i ==> !lacks(self@.inits, builder@, j),
            decreases self.inits.len() - i,
        {
            if builder.slots[i].is_none() {
                if let Some(message) = &self.inits[i].on_missing {
                    assert(first_lack(self@.inits, builder@, i as int));
                    return Err(ConstructionError { message: message.clone() });
                }
            }
            i += 1;
        }
        Ok(builder.slots)
    }
}

} // verus!
