//! The property values of one effect instance.
//!
//! An instance starts with the values that its effect declares and may be
//! given others at any time. The values are data for the shader; changing
//! them changes no shader source.

use crate::expr::ExprError;
use crate::module::{declares, distinct_names, place_of, Declared, Module, Property};
use crate::value::Value;
use vstd::prelude::*;

verus! {

/// The current values of the properties of one effect instance, in the
/// order of their declaration.
pub struct EffectProperties {
    entries: Vec<Property>,
}

impl View for EffectProperties {
    type V = Seq<Declared>;

    closed spec fn view(&self) -> Seq<Declared> {
        Seq::new(
            self.entries.len() as nat,
            |i: int| Declared { name: self.entries[i].name@, value: self.entries[i].value },
        )
    }
}

impl EffectProperties {
    /// Names are unique within an instance.
    #[verifier::type_invariant]
    spec fn names_are_unique(self) -> bool {
        distinct_names(self@)
    }

    /// The properties that `module` declares, each at its starting value.
    pub fn new(module: &Module) -> (properties: EffectProperties)
        ensures
            properties@ == module@,
    {
        let mut entries: Vec<Property> = Vec::new();
        let count: usize = module.len();
        let mut i: usize = 0;
        while i < count
            invariant
                i <= count,
                count == module@.len(),
                entries.len() == i,
                forall|j: int|
                    0 <= j < i ==> (#[trigger] entries[j]).name@ == module@[j].name && entries[j].value
                        == module@[j].value,
            decreases count - i,
        {
            if let Some((name, value)) = module.declared(i) {
                entries.push(Property { name, value });
            }
            i += 1;
        }
        assert(Seq::new(
            entries.len() as nat,
            |i: int| Declared { name: entries[i].name@, value: entries[i].value },
        ) =~= module@);
        EffectProperties { entries }
    }

    /// The place of the property called `name`, if the instance has it.
    fn find(&self, name: &str) -> (found: Option<usize>)
        ensures
            declares(self@, name@) ==> found == Some(place_of(self@, name@) as usize),
            !declares(self@, name@) ==> found.is_none(),
            found matches Some(i) ==> i < self@.len() && self@[i as int].name == name@,
    {
        proof {
            use_type_invariant(self);
        }
        let wanted: String = name.to_string();
        let mut i: usize = 0;
        while i < self.entries.len()
            invariant
                i <= self.entries.len(),
                wanted@ == name@,
                distinct_names(self@),
                forall|j: int| 0 <= j < i ==> (#[trigger] self@[j]).name != name@,
            decreases self.entries.len() - i,
        {
            if self.entries[i].name == wanted {
                assert(self@[i as int].name == name@);
                assert(place_of(self@, name@) == i) by {
                    let p = place_of(self@, name@);
                    assert(0 <= p < self@.len() && self@[p].name == name@);
                    if p > i {
                        assert(self@[i as int].name != self@[p].name);
                    }
                }
                return Some(i);
            }
            i += 1;
        }
        None
    }

    /// The current value of the property called `name`, if the instance has
    /// it.
    pub fn get(&self, name: &str) -> (found: Option<Value>)
        ensures
            declares(self@, name@) ==> found == Some(self@[place_of(self@, name@)].value),
            !declares(self@, name@) ==> found.is_none(),
    {
        match self.find(name) {
            Some(i) => Some(self.entries[i].value),
            None => None,
        }
    }

    /// Gives the property called `name` the value `value`.
    ///
    /// Fails with `UndeclaredProperty` exactly when the instance has no
    /// property of that name, and otherwise with `TypeMismatch` exactly when
    /// `value` does not have the type of the property. A failure changes
    /// nothing; a success changes this one value and nothing else.
    pub fn set_property(&mut self, name: &str, value: Value) -> (set: Result<(), ExprError>)
        ensures
            distinct_names(final(self)@),
            !declares(old(self)@, name@) ==> set == Err::<(), ExprError>(
                ExprError::UndeclaredProperty,
            ) && final(self)@ == old(self)@,
            declares(old(self)@, name@) && old(self)@[place_of(old(self)@, name@)].value.ty()
                != value.ty() ==> set == Err::<(), ExprError>(ExprError::TypeMismatch)
                && final(self)@ == old(self)@,
            declares(old(self)@, name@) && old(self)@[place_of(old(self)@, name@)].value.ty()
                == value.ty() ==> set.is_ok() && final(self)@ == old(self)@.update(
                place_of(old(self)@, name@),
                Declared { name: name@, value },
            ),
    {
        proof {
            use_type_invariant(&*self);
        }
        let ghost before = self@;
        match self.find(name) {
            None => Err(ExprError::UndeclaredProperty),
            Some(i) => {
                if self.entries[i].value.value_type() != value.value_type() {
                    return Err(ExprError::TypeMismatch);
                }
                let mut entries: Vec<Property> = Vec::new();
                core::mem::swap(&mut entries, &mut self.entries);
                entries.set(i, Property { name: name.to_string(), value });
                proof {
                    let after = before.update(i as int, Declared { name: name@, value });
                    assert(Seq::new(
                        entries.len() as nat,
                        |j: int| Declared { name: entries[j].name@, value: entries[j].value },
                    ) =~= after);
                    assert forall|a: int, b: int| 0 <= a < b < after.len() implies (
                    #[trigger] after[a]).name != (#[trigger] after[b]).name by {
                        assert(before[a].name != before[b].name);
                    }
                }
                self.entries = entries;
                Ok(())
            },
        }
    }

    /// The current values of the properties called `names`, in the order of
    /// `names`: the data of the block that an effect's shaders declare.
    ///
    /// Fails with `UndeclaredProperty` exactly when the instance lacks one of
    /// the names.
    pub fn values_of(&self, names: &Vec<String>) -> (values: Result<Vec<Value>, ExprError>)
        ensures
            (forall|i: int| 0 <= i < names.len() ==> declares(self@, #[trigger] names[i]@))
                ==> values.is_ok() && values.unwrap().len() == names.len() && forall|i: int|
                0 <= i < names.len() ==> (#[trigger] values.unwrap()[i]) == self@[place_of(
                    self@,
                    names[i]@,
                )].value,
            !(forall|i: int| 0 <= i < names.len() ==> declares(self@, #[trigger] names[i]@))
                ==> values == Err::<Vec<Value>, ExprError>(ExprError::UndeclaredProperty),
    {
        let mut values: Vec<Value> = Vec::new();
        let mut i: usize = 0;
        while i < names.len()
            invariant
                i <= names.len(),
                values.len() == i,
                forall|j: int| 0 <= j < i ==> declares(self@, #[trigger] names[j]@),
                forall|j: int|
                    0 <= j < i ==> (#[trigger] values[j]) == self@[place_of(self@, names[j]@)].value,
            decreases names.len() - i,
        {
            match self.get(names[i].as_str()) {
                Some(value) => {
                    values.push(value);
                },
                None => {
                    assert(!declares(self@, names[i as int]@));
                    return Err(ExprError::UndeclaredProperty);
                },
            }
            i += 1;
        }
        Ok(values)
    }

    /// The number of properties.
    pub fn len(&self) -> (count: usize)
        ensures
            count == self@.len(),
    {
        self.entries.len()
    }
}

/// A value that has been set is the value that is read, and setting one
/// property leaves every other as it was.
pub proof fn lemma_set_then_get(before: Seq<Declared>, name: Seq<char>, value: Value, other: Seq<char>)
    requires
        distinct_names(before),
        declares(before, name),
    ensures
        ({
            let after = before.update(place_of(before, name), Declared { name, value });
            &&& declares(after, name)
            &&& after[place_of(after, name)].value == value
            &&& declares(after, other) == declares(before, other)
            &&& other != name && declares(before, other) ==> after[place_of(after, other)].value
                == before[place_of(before, other)].value
        }),
{
    let at = place_of(before, name);
    let after = before.update(at, Declared { name, value });
    assert(after[at].name == name);
    assert(distinct_names(after)) by {
        assert forall|a: int, b: int| 0 <= a < b < after.len() implies (#[trigger] after[a]).name
            != (#[trigger] after[b]).name by {
            assert(before[a].name != before[b].name);
        }
    }
    let found = place_of(after, name);
    assert(found == at) by {
        if found < at {
            assert(after[found].name != after[at].name);
        } else if found > at {
            assert(after[at].name != after[found].name);
        }
    }
    if declares(before, other) {
        let p = place_of(before, other);
        assert(after[p].name == other);
        let q = place_of(after, other);
        assert(q == p) by {
            if q < p {
                assert(after[q].name != after[p].name);
            } else if q > p {
                assert(after[p].name != after[q].name);
            }
        }
    }
    if declares(after, other) {
        let q = place_of(after, other);
        assert(before[q].name == other);
    }
}

} // verus!
