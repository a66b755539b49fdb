//! What every builder does at run time, given once for all records.
//!
//! A builder instance holds one slot per field. The factory makes it with
//! every slot unset, a setter overwrites one slot, and the build operation
//! either constructs the record from the stored values or reports every
//! required slot that is still unset. Building takes a snapshot: it leaves
//! the builder as it was, so the builder can be filled further and built
//! again.

use crate::descriptor::TypeDescriptor;
use crate::plan::{builder_shape_of, derive_spec, BuilderShape, BuilderSpec, SlotShape};
use crate::search::{position, position_from};
use vstd::prelude::*;

verus! {

/// The failure of a build: the names of the required slots that were unset,
/// all of them, in declaration order.
#[derive(Debug, PartialEq, Eq)]
pub struct MissingFields {
    pub names: Vec<String>,
}

impl View for MissingFields {
    type V = Seq<Seq<char>>;

    open spec fn view(&self) -> Seq<Seq<char>> {
        self.names.deep_view()
    }
}

/// A record as a build produces it: for each field, in declaration order, its
/// value, or `None` for a field that may be absent and was never set.
#[derive(Debug, PartialEq, Eq)]
pub struct Instance<V> {
    pub record: String,
    pub fields: Vec<Option<V>>,
}

/// The names of `slots`, in order.
pub open spec fn slot_names(slots: Seq<SlotShape>) -> Seq<Seq<char>> {
    Seq::new(slots.len(), |i: int| slots[i].name)
}

/// The slot at `index` stands in the way of a build: it is required and unset.
pub open spec fn lacking<V>(slots: Seq<SlotShape>, values: Seq<Option<V>>, index: int) -> bool {
    slots[index].required && values[index] is None
}

/// The names of the lacking slots among the first `count`, in order.
pub open spec fn missing_names<V>(slots: Seq<SlotShape>, values: Seq<Option<V>>, count: int) -> Seq<
    Seq<char>,
>
    decreases count,
{
    if count <= 0 {
        Seq::empty()
    } else if lacking(slots, values, count - 1) {
        missing_names(slots, values, count - 1).push(slots[count - 1].name)
    } else {
        missing_names(slots, values, count - 1)
    }
}

/// Every slot is unset.
pub open spec fn all_unset<V>(values: Seq<Option<V>>) -> bool {
    forall|i: int| 0 <= i < values.len() ==> values[i] is None
}

/// Every required slot is set.
pub open spec fn complete<V>(slots: Seq<SlotShape>, values: Seq<Option<V>>) -> bool {
    forall|i: int| 0 <= i < slots.len() ==> !lacking(slots, values, i)
}

/// `made` is what cloning the content of the slot `stored` gives: a clone of
/// the stored value, or nothing where nothing is stored.
pub open spec fn snapshot_of<V: Clone>(stored: Option<V>, made: Option<V>) -> bool {
    match (stored, made) {
        (Some(value), Some(copy)) => cloned(value, copy),
        (None, None) => true,
        _ => false,
    }
}

/// No slot among the first `count` is lacking exactly when no name is reported
/// for them.
pub proof fn lemma_missing_none<V>(slots: Seq<SlotShape>, values: Seq<Option<V>>, count: int)
    requires
        0 <= count <= slots.len(),
    ensures
        missing_names(slots, values, count).len() == 0 <==> forall|i: int|
            0 <= i < count ==> !lacking(slots, values, i),
    decreases count,
{
    if count > 0 {
        lemma_missing_none(slots, values, count - 1);
    }
}

/// What the slots hold after the setter of the slot called `name` has stored
/// `value`: that slot holds `value`, every other slot what it held before.
pub open spec fn after_set<V>(
    slots: Seq<SlotShape>,
    values: Seq<Option<V>>,
    name: Seq<char>,
    value: V,
) -> Seq<Option<V>> {
    values.update(position(slot_names(slots), name), Some(value))
}

/// Of two values stored in one slot in a row, only the second is left.
pub proof fn lemma_last_write_wins<V>(
    slots: Seq<SlotShape>,
    values: Seq<Option<V>>,
    name: Seq<char>,
    first: V,
    second: V,
)
    requires
        values.len() == slots.len(),
        slot_names(slots).contains(name),
    ensures
        after_set(slots, after_set(slots, values, name, first), name, second) == after_set(
            slots,
            values,
            name,
            second,
        ),
{
    crate::search::lemma_position(slot_names(slots), name);
    assert(after_set(slots, after_set(slots, values, name, first), name, second) =~= after_set(
        slots,
        values,
        name,
        second,
    ));
}

/// The setters of two different slots give the same slots in either order.
pub proof fn lemma_set_order_independent<V>(
    slots: Seq<SlotShape>,
    values: Seq<Option<V>>,
    one: Seq<char>,
    one_value: V,
    other: Seq<char>,
    other_value: V,
)
    requires
        values.len() == slots.len(),
        slot_names(slots).contains(one),
        slot_names(slots).contains(other),
        one != other,
    ensures
        after_set(slots, after_set(slots, values, one, one_value), other, other_value)
            == after_set(slots, after_set(slots, values, other, other_value), one, one_value),
{
    crate::search::lemma_position(slot_names(slots), one);
    crate::search::lemma_position(slot_names(slots), other);
    assert(after_set(slots, after_set(slots, values, one, one_value), other, other_value)
        =~= after_set(slots, after_set(slots, values, other, other_value), one, one_value));
}

/// A failed build names a slot exactly when the slot is required and unset,
/// whatever the order of declaration, and it names each such slot once.
pub proof fn lemma_missing_exact<V>(slots: Seq<SlotShape>, values: Seq<Option<V>>, count: int)
    requires
        0 <= count <= slots.len(),
    ensures
        forall|name: Seq<char>|
            missing_names(slots, values, count).contains(name) <==> exists|i: int|
                0 <= i < count && lacking(slots, values, i) && slots[i].name == name,
        missing_names(slots, values, count).len() == Set::new(
            |i: int| 0 <= i < count && lacking(slots, values, i),
        ).len(),
        Set::new(|i: int| 0 <= i < count && lacking(slots, values, i)).finite(),
    decreases count,
{
    let now = missing_names(slots, values, count);
    let lacking_now = Set::new(|i: int| 0 <= i < count && lacking(slots, values, i));
    if count <= 0 {
        assert(lacking_now =~= Set::<int>::empty());
    } else {
        lemma_missing_exact(slots, values, count - 1);
        let before = missing_names(slots, values, count - 1);
        let lacking_before = Set::new(|i: int| 0 <= i < count - 1 && lacking(slots, values, i));
        if lacking(slots, values, count - 1) {
            assert(lacking_now =~= lacking_before.insert(count - 1));
            assert(now == before.push(slots[count - 1].name));
            assert forall|name: Seq<char>|
                now.contains(name) <==> exists|i: int|
                    0 <= i < count && lacking(slots, values, i) && slots[i].name == name by {
                if now.contains(name) {
                    let k = choose|k: int| 0 <= k < now.len() && now[k] == name;
                    if k < before.len() {
                        assert(before[k] == name);
                        assert(before.contains(name));
                    }
                }
                if exists|i: int|
                    0 <= i < count && lacking(slots, values, i) && slots[i].name == name {
                    let i = choose|i: int|
                        0 <= i < count && lacking(slots, values, i) && slots[i].name == name;
                    if i < count - 1 {
                        assert(before.contains(name));
                        let k = choose|k: int| 0 <= k < before.len() && before[k] == name;
                        assert(now[k] == name);
                    } else {
                        assert(now[now.len() - 1] == name);
                    }
                }
            }
        } else {
            assert(lacking_now =~= lacking_before);
        }
    }
}

/// A builder at run time: the shape it was made for and one slot per field.
pub struct BuilderInstance<V> {
    spec: BuilderSpec,
    slots: Vec<Option<V>>,
}

impl<V> BuilderInstance<V> {
    #[verifier::type_invariant]
    spec fn slot_per_field(self) -> bool {
        self.slots@.len() == self.spec.slots@.len()
    }

    /// The shape that the builder was made for.
    pub closed spec fn shape(&self) -> BuilderShape {
        self.spec@
    }

    /// What each slot holds, in declaration order.
    pub closed spec fn values(&self) -> Seq<Option<V>> {
        self.slots@
    }

    /// The factory: a builder for `spec` with every slot unset.
    pub fn new(spec: BuilderSpec) -> (builder: Self)
        ensures
            builder.shape() == spec@,
            builder.values().len() == spec@.slots.len(),
            all_unset(builder.values()),
    {
        let mut slots: Vec<Option<V>> = Vec::new();
        let mut i: usize = 0;
        while i < spec.slots.len()
            invariant
                i <= spec.slots.len(),
                slots@.len() == i,
                all_unset(slots@),
            decreases spec.slots.len() - i,
        {
            slots.push(None);
            i = i + 1;
        }
        BuilderInstance { spec, slots }
    }

    /// The factory of the record that `descriptor` describes: a builder of
    /// the shape derived from it, with every slot unset.
    pub fn for_record(descriptor: &TypeDescriptor) -> (builder: Self)
        ensures
            builder.shape() == builder_shape_of(descriptor@),
            builder.values().len() == descriptor@.fields.len(),
            all_unset(builder.values()),
    {
        Self::new(derive_spec(descriptor))
    }

    /// The number of slots.
    pub fn len(&self) -> (n: usize)
        ensures
            n == self.values().len(),
            n == self.shape().slots.len(),
    {
        proof {
            use_type_invariant(self);
        }
        self.slots.len()
    }

    /// The position of the slot called `name`, if the builder has one.
    pub fn slot_index(&self, name: &str) -> (found: Option<usize>)
        ensures
            self.values().len() == self.shape().slots.len(),
            match found {
                Some(index) => index < self.shape().slots.len() && index == position(
                    slot_names(self.shape().slots),
                    name@,
                ),
                None => position(slot_names(self.shape().slots), name@)
                    == self.shape().slots.len(),
            },
    {
        proof {
            use_type_invariant(self);
        }
        let ghost names = slot_names(self.shape().slots);
        let wanted = name.to_owned();
        let mut i: usize = 0;
        while i < self.spec.slots.len()
            invariant
                i <= self.spec.slots.len(),
                names == slot_names(self.shape().slots),
                names.len() == self.spec.slots.len(),
                self.slots@.len() == self.spec.slots@.len(),
                wanted@ == name@,
                position(names, name@) == position_from(names, name@, i as int),
            decreases self.spec.slots.len() - i,
        {
            assert(names[i as int] == self.spec.slots@[i as int].name@);
            if self.spec.slots[i].name == wanted {
                return Some(i);
            }
            i = i + 1;
        }
        None
    }

    /// Whether the slot at `index` is set.
    pub fn is_set(&self, index: usize) -> (set: bool)
        requires
            index < self.values().len(),
        ensures
            set == (self.values()[index as int] is Some),
    {
        self.slots[index].is_some()
    }

    /// The setter of the slot at `index`: stores `value` there, whatever the
    /// slot held before, and leaves every other slot alone.
    pub fn set_at(&mut self, index: usize, value: V) -> (chain: &mut Self)
        requires
            index < old(self).values().len(),
        ensures
            chain.shape() == old(self).shape(),
            chain.values() == old(self).values().update(index as int, Some(value)),
            *final(self) == *final(chain),
    {
        proof {
            use_type_invariant(&*self);
        }
        self.slots[index] = Some(value);
        self
    }

    /// The setter of the slot called `name`: stores `value` there, whatever
    /// the slot held before, and leaves every other slot alone.
    pub fn set(&mut self, name: &str, value: V) -> (chain: &mut Self)
        requires
            slot_names(old(self).shape().slots).contains(name@),
        ensures
            chain.shape() == old(self).shape(),
            chain.values() == after_set(
                old(self).shape().slots,
                old(self).values(),
                name@,
                value,
            ),
            *final(self) == *final(chain),
    {
        proof {
            crate::search::lemma_position(slot_names(self.shape().slots), name@);
        }
        match self.slot_index(name) {
            Some(index) => self.set_at(index, value),
            None => self,
        }
    }

    /// Whether every required slot is set.
    pub fn is_complete(&self) -> (done: bool)
        ensures
            done == complete(self.shape().slots, self.values()),
    {
        proof {
            use_type_invariant(self);
        }
        let mut i: usize = 0;
        while i < self.slots.len()
            invariant
                i <= self.slots.len(),
                self.slots@.len() == self.spec.slots@.len(),
                forall|k: int| 0 <= k < i ==> !lacking(self.shape().slots, self.values(), k),
            decreases self.slots.len() - i,
        {
            assert(self.shape().slots[i as int] == self.spec.slots@[i as int]@);
            if self.spec.slots[i].required && self.slots[i].is_none() {
                assert(lacking(self.shape().slots, self.values(), i as int));
                return false;
            }
            i = i + 1;
        }
        true
    }

    /// The names of the required slots that are unset, in declaration order.
    pub fn missing(&self) -> (names: Vec<String>)
        ensures
            names.deep_view() == missing_names(
                self.shape().slots,
                self.values(),
                self.values().len() as int,
            ),
            self.values().len() == self.shape().slots.len(),
    {
        proof {
            use_type_invariant(self);
        }
        let mut names: Vec<String> = Vec::new();
        let mut i: usize = 0;
        assert(names.deep_view() =~= Seq::<Seq<char>>::empty());
        while i < self.slots.len()
            invariant
                i <= self.slots.len(),
                self.slots@.len() == self.spec.slots@.len(),
                names.deep_view() == missing_names(self.shape().slots, self.values(), i as int),
            decreases self.slots.len() - i,
        {
            assert(self.shape().slots[i as int] == self.spec.slots@[i as int]@);
            if self.spec.slots[i].required && self.slots[i].is_none() {
                let ghost before = names.deep_view();
                names.push(self.spec.slots[i].name.clone());
                assert(names.deep_view() =~= before.push(self.shape().slots[i as int].name));
            }
            i = i + 1;
        }
        names
    }
}

impl<V: Clone> BuilderInstance<V> {
    /// The terminal build operation. Where every required slot is set, the
    /// record is constructed from clones of the stored values, an unset slot
    /// that may stay unset giving `None`. Otherwise the build fails with the
    /// names of all required slots that are unset.
    pub fn build(&self) -> (outcome: Result<Instance<V>, MissingFields>)
        ensures
            match outcome {
                Ok(instance) => {
                    &&& complete(self.shape().slots, self.values())
                    &&& instance.record@ == self.shape().record_name
                    &&& instance.fields@.len() == self.values().len()
                    &&& forall|i: int|
                        0 <= i < self.values().len() ==> snapshot_of(
                            self.values()[i],
                            #[trigger] instance.fields@[i],
                        )
                },
                Err(error) => {
                    &&& !complete(self.shape().slots, self.values())
                    &&& error@ == missing_names(
                        self.shape().slots,
                        self.values(),
                        self.shape().slots.len() as int,
                    )
                },
            },
    {
        let names = self.missing();
        proof {
            lemma_missing_none(self.shape().slots, self.values(), self.values().len() as int);
        }
        if names.len() > 0 {
            return Err(MissingFields { names });
        }
        let mut fields: Vec<Option<V>> = Vec::new();
        let mut i: usize = 0;
        while i < self.slots.len()
            invariant
                i <= self.slots.len(),
                fields@.len() == i,
                forall|k: int|
                    0 <= k < i ==> snapshot_of(self.values()[k], #[trigger] fields@[k]),
            decreases self.slots.len() - i,
        {
            let copy = match &self.slots[i] {
                Some(value) => Some(value.clone()),
                None => None,
            };
            fields.push(copy);
            i = i + 1;
        }
        Ok(Instance { record: self.spec.record_name.clone(), fields })
    }
}

} // verus!
