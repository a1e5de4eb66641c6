//! The expression module of an effect: the properties it declares.
//!
//! A property is a named value that the application may change at run time
//! without changing the shader. A module declares each name once;
//! expressions may read only what the module declares.

use crate::expr::{Expr, ExprError, Term};
use crate::value::{Value, ValueType};
use vstd::prelude::*;

verus! {

/// A property as plain values: its name, and the value it starts at or has.
pub struct Declared {
    pub name: Seq<char>,
    pub value: Value,
}

/// Whether `decls` declares a property called `name`.
pub open spec fn declares(decls: Seq<Declared>, name: Seq<char>) -> bool {
    exists|i: int| 0 <= i < decls.len() && (#[trigger] decls[i]).name == name
}

/// Whether no two declarations of `decls` share a name.
pub open spec fn distinct_names(decls: Seq<Declared>) -> bool {
    forall|i: int, j: int|
        0 <= i < j < decls.len() ==> (#[trigger] decls[i]).name != (#[trigger] decls[j]).name
}

/// The place of the declaration of `name` in `decls`; meaningful where
/// `decls` declares the name.
pub open spec fn place_of(decls: Seq<Declared>, name: Seq<char>) -> int {
    choose|i: int| 0 <= i < decls.len() && (#[trigger] decls[i]).name == name
}

/// A named value that can change at run time: in a module with the value it
/// starts at, in an instance with the value it has.
pub struct Property {
    pub name: String,
    pub value: Value,
}

/// The properties of one effect, in the order of their declaration.
pub struct Module {
    properties: Vec<Property>,
}

impl View for Module {
    type V = Seq<Declared>;

    closed spec fn view(&self) -> Seq<Declared> {
        Seq::new(
            self.properties.len() as nat,
            |i: int| Declared { name: self.properties[i].name@, value: self.properties[i].value },
        )
    }
}

impl Module {
    /// Names are unique within a module.
    #[verifier::type_invariant]
    spec fn names_are_unique(self) -> bool {
        distinct_names(self@)
    }

    /// A module without properties.
    pub fn new() -> (module: Module)
        ensures
            module@.len() == 0,
    {
        Module { properties: Vec::new() }
    }

    /// The number of declared properties.
    pub fn len(&self) -> (count: usize)
        ensures
            count == self@.len(),
            distinct_names(self@),
    {
        proof {
            use_type_invariant(self);
        }
        self.properties.len()
    }

    /// The place of the declaration of `name`, if the module declares it.
    pub fn find(&self, name: &str) -> (found: Option<usize>)
        ensures
            declares(self@, name@) ==> found == Some(place_of(self@, name@) as usize),
            !declares(self@, name@) ==> found.is_none(),
            found matches Some(i) ==> i < self@.len() && self@[i as int].name == name@,
    {
        proof {
            use_type_invariant(self);
        }
        let wanted: String = name.to_string();
        let mut i: usize = 0;
        while i < self.properties.len()
            invariant
                i <= self.properties.len(),
                wanted@ == name@,
                distinct_names(self@),
                forall|j: int| 0 <= j < i ==> (#[trigger] self@[j]).name != name@,
            decreases self.properties.len() - i,
        {
            if self.properties[i].name == wanted {
                assert(self@[i as int].name == name@);
                assert(place_of(self@, name@) == i) by {
                    let p = place_of(self@, name@);
                    assert(0 <= p < self@.len() && self@[p].name == name@);
                    if p < i {
                    } else if p > i {
                        assert(self@[i as int].name != self@[p].name);
                    }
                }
                return Some(i);
            }
            i += 1;
        }
        None
    }

    /// Declares a property called `name` that starts at `default`, and
    /// returns its place among the declarations.
    ///
    /// Fails with `DuplicateProperty`, and changes nothing, exactly when the
    /// module already declares the name.
    pub fn add_property(&mut self, name: &str, default: Value) -> (added: Result<usize, ExprError>)
        ensures
            distinct_names(final(self)@),
            declares(old(self)@, name@) ==> added == Err::<usize, ExprError>(
                ExprError::DuplicateProperty,
            ) && final(self)@ == old(self)@,
            !declares(old(self)@, name@) ==> added == Ok::<usize, ExprError>(
                old(self)@.len() as usize,
            ) && final(self)@ == old(self)@.push(Declared { name: name@, value: default }),
    {
        proof {
            use_type_invariant(&*self);
        }
        match self.find(name) {
            Some(_) => Err(ExprError::DuplicateProperty),
            None => {
                let ghost before = self@;
                let place: usize = self.properties.len();
                let mut properties: Vec<Property> = Vec::new();
                core::mem::swap(&mut properties, &mut self.properties);
                properties.push(Property { name: name.to_string(), value: default });
                proof {
                    let after = before.push(Declared { name: name@, value: default });
                    assert forall|i: int, j: int| 0 <= i < j < after.len() implies (
                    #[trigger] after[i]).name != (#[trigger] after[j]).name by {
                        if j == before.len() {
                            assert(before[i].name != name@);
                        }
                    }
                    assert(Seq::new(
                        properties.len() as nat,
                        |i: int|
                            Declared { name: properties[i].name@, value: properties[i].value },
                    ) =~= after);
                }
                self.properties = properties;
                assert(self@ =~= before.push(Declared { name: name@, value: default }));
                Ok(place)
            },
        }
    }

    /// The expression that reads the property called `name`.
    ///
    /// Fails with `UndeclaredProperty` exactly when the module does not
    /// declare the name. The expression has the type of the property's
    /// starting value.
    pub fn property(&self, name: &str) -> (read: Result<Expr, ExprError>)
        ensures
            declares(self@, name@) ==> read.is_ok() && read.unwrap()@ == Term::Property(
                name@,
                self@[place_of(self@, name@)].value.ty(),
            ),
            !declares(self@, name@) ==> read == Err::<Expr, ExprError>(
                ExprError::UndeclaredProperty,
            ),
    {
        match self.find(name) {
            Some(i) => {
                let ty: ValueType = self.properties[i].value.value_type();
                Ok(Expr::read(name.to_string(), ty))
            },
            None => Err(ExprError::UndeclaredProperty),
        }
    }

    /// The type of the property called `name`, if the module declares it.
    pub fn type_of(&self, name: &str) -> (found: Option<ValueType>)
        ensures
            declares(self@, name@) ==> found == Some(self@[place_of(self@, name@)].value.ty()),
            !declares(self@, name@) ==> found.is_none(),
    {
        match self.find(name) {
            Some(i) => Some(self.properties[i].value.value_type()),
            None => None,
        }
    }

    /// The name and the starting value of the property at `place`, if there
    /// is one.
    pub fn declared(&self, place: usize) -> (found: Option<(String, Value)>)
        ensures
            place < self@.len() ==> found.is_some() && found.unwrap().0@ == self@[place as int].name
                && found.unwrap().1 == self@[place as int].value,
            place >= self@.len() ==> found.is_none(),
    {
        if place < self.properties.len() {
            Some((self.properties[place].name.clone(), self.properties[place].value))
        } else {
            None
        }
    }
}

/// Declaring a new name makes the module declare that name and no other
/// name that it did not declare before. With what [`Module::add_property`]
/// and [`Module::property`] promise, declaring the name again then fails
/// and reading it succeeds, and any other name fares as it did before.
pub proof fn lemma_declared_once(decls: Seq<Declared>, name: Seq<char>, default: Value)
    requires
        !declares(decls, name),
    ensures
        declares(decls.push(Declared { name, value: default }), name),
        forall|other: Seq<char>|
            declares(decls.push(Declared { name, value: default }), other) <==> (other == name
                || declares(decls, other)),
{
    let after = decls.push(Declared { name, value: default });
    assert(after[decls.len() as int].name == name);
    assert forall|other: Seq<char>| declares(after, other) <==> (other == name || declares(
        decls,
        other,
    )) by {
        if declares(after, other) {
            let i = choose|i: int| 0 <= i < after.len() && (#[trigger] after[i]).name == other;
            if i < decls.len() {
                assert(decls[i].name == other);
            }
        }
        if declares(decls, other) {
            let i = choose|i: int| 0 <= i < decls.len() && (#[trigger] decls[i]).name == other;
            assert(after[i].name == other);
        }
    }
}

} // verus!
