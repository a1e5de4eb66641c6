//! Gradients: values that change over the life of a particle.
//!
//! A gradient is a list of keys, each a value at a ratio of the particle's
//! life, in the order of their ratios. Between two keys the value changes
//! evenly from one to the other; before the first key and after the last it
//! is the value of that key.

use crate::expr::ExprError;
use crate::modifier::{local, write_local};
use crate::value::{Number, Value, ValueType};
use vstd::prelude::*;
use vstd::string::StringExecFns;

verus! {

/// One key of a gradient: a value at a ratio of the particle's life.
#[derive(Clone, Copy, Debug, PartialEq, Eq, Structural)]
pub struct GradientKey {
    pub ratio: Number,
    pub value: Value,
}

/// A gradient as a mathematical value.
pub struct GradientView {
    pub ty: ValueType,
    pub keys: Seq<GradientKey>,
}

/// Whether the ratios of `keys` grow from each key to the next.
pub open spec fn ascending(keys: Seq<GradientKey>) -> bool {
    forall|i: int, j: int|
        0 <= i < j < keys.len() ==> (#[trigger] keys[i]).ratio.micros < (
        #[trigger] keys[j]).ratio.micros
}

/// Whether every value of `keys` has the type `ty`.
pub open spec fn typed(keys: Seq<GradientKey>, ty: ValueType) -> bool {
    forall|i: int| 0 <= i < keys.len() ==> (#[trigger] keys[i]).value.ty() == ty
}

/// Whether `at` is where a key of ratio `micros` belongs in `keys`: the keys
/// before it have smaller ratios and no key from it on has.
pub open spec fn belongs_at(keys: Seq<GradientKey>, micros: i64, at: int) -> bool {
    &&& 0 <= at <= keys.len()
    &&& forall|j: int| 0 <= j < at ==> (#[trigger] keys[j]).ratio.micros < micros
    &&& forall|j: int| at <= j < keys.len() ==> (#[trigger] keys[j]).ratio.micros >= micros
}

/// The keys `keys` with `key` put in at `at`, in place of the key that has
/// its ratio if there is one.
pub open spec fn with_key_at(keys: Seq<GradientKey>, key: GradientKey, at: int) -> Seq<
    GradientKey,
> {
    if at < keys.len() && keys[at].ratio.micros == key.ratio.micros {
        keys.update(at, key)
    } else {
        keys.insert(at, key)
    }
}

/// The changing weight of the later of two keys between their ratios, as
/// shader source: nothing at `from`, all at `to`, held within the two.
pub open spec fn weight_text(age: Seq<char>, from: Number, to: Number) -> Seq<char> {
    "clamp(("@ + age + " - ("@ + from.text() + ")) / ("@ + to.text() + " - ("@ + from.text()
        + ")), 0.0, 1.0)"@
}

/// The statement that takes the value from `from` to `to` once the age has
/// passed the ratio of `from`.
pub open spec fn step_text(
    target: Seq<char>,
    age: Seq<char>,
    from: GradientKey,
    to: GradientKey,
) -> Seq<char> {
    "    if ("@ + age + " > "@ + from.ratio.text() + ") { "@ + target + " = mix("@
        + from.value.text() + ", "@ + to.value.text() + ", "@ + weight_text(
        age,
        from.ratio,
        to.ratio,
    ) + "); }\n"@
}

/// The statements for the keys up to the one at `upto`, each taking the
/// value on from the key before it.
pub open spec fn steps_text(
    keys: Seq<GradientKey>,
    target: Seq<char>,
    age: Seq<char>,
    upto: int,
) -> Seq<char>
    decreases upto,
{
    if upto <= 1 {
        Seq::empty()
    } else {
        steps_text(keys, target, age, upto - 1) + step_text(
            target,
            age,
            keys[upto - 2],
            keys[upto - 1],
        )
    }
}

impl GradientView {
    /// The shader source that samples the gradient at the particle's age
    /// into the local variable `name` of the modifier at place `k`.
    ///
    /// The variable starts at the value of the first key, so that an age
    /// before it has that value, and each later key takes it on from the key
    /// before; the weight is held within the two keys, so that an age after
    /// the last key has the value of the last key. A gradient without keys
    /// has no source.
    pub open spec fn code(self, name: Seq<char>, k: nat) -> Seq<char> {
        if self.keys.len() == 0 {
            Seq::empty()
        } else {
            "    let "@ + local("age"@, k) + " = particle.age / particle.lifetime;\n"@
                + "    var "@ + local(name, k) + " = "@ + self.keys[0].value.text() + ";\n"@
                + steps_text(self.keys, local(name, k), local("age"@, k), self.keys.len() as int)
        }
    }
}

/// Appending in two steps is appending the two at once.
proof fn lemma_append_is_associative(a: Seq<char>, b: Seq<char>, c: Seq<char>)
    ensures
        (a + b) + c == a + (b + c),
{
    assert((a + b) + c =~= a + (b + c));
}

/// Appends the changing weight of the later of two keys.
fn write_weight(out: &mut String, k: usize, from: &Number, to: &Number)
    ensures
        final(out)@ == old(out)@ + weight_text(local("age"@, k as nat), *from, *to),
{
    let ghost start = out@;
    out.append("clamp((");
    write_local(out, "age", k);
    out.append(" - (");
    from.write(out);
    out.append(")) / (");
    to.write(out);
    out.append(" - (");
    from.write(out);
    out.append(")), 0.0, 1.0)");
    assert(out@ =~= start + weight_text(local("age"@, k as nat), *from, *to));
}

/// Appends the statement that takes the value from one key to the next.
fn write_step(out: &mut String, name: &str, k: usize, from: &GradientKey, to: &GradientKey)
    ensures
        final(out)@ == old(out)@ + step_text(
            local(name@, k as nat),
            local("age"@, k as nat),
            *from,
            *to,
        ),
{
    let ghost start = out@;
    let ghost n = k as nat;
    out.append("    if (");
    write_local(out, "age", k);
    out.append(" > ");
    from.ratio.write(out);
    out.append(") { ");
    write_local(out, name, k);
    out.append(" = mix(");
    let ghost head = "    if ("@ + local("age"@, n) + " > "@ + from.ratio.text() + ") { "@ + local(
        name@,
        n,
    ) + " = mix("@;
    assert(out@ =~= start + head);
    from.value.write(out);
    out.append(", ");
    to.value.write(out);
    out.append(", ");
    write_weight(out, k, &from.ratio, &to.ratio);
    out.append("); }\n");
    assert(out@ =~= start + step_text(local(name@, n), local("age"@, n), *from, *to));
}

/// A gradient of values of one type.
#[derive(Debug)]
pub struct Gradient {
    ty: ValueType,
    keys: Vec<GradientKey>,
}

impl View for Gradient {
    type V = GradientView;

    closed spec fn view(&self) -> GradientView {
        GradientView { ty: self.ty, keys: self.keys@ }
    }
}

impl Gradient {
    /// The keys are in the order of their ratios, no two at one ratio, and
    /// their values have the gradient's type.
    #[verifier::type_invariant]
    spec fn keys_in_order(self) -> bool {
        ascending(self.keys@) && typed(self.keys@, self.ty)
    }

    /// A gradient of values of type `ty`, without keys.
    pub fn new(ty: ValueType) -> (gradient: Gradient)
        ensures
            gradient@.ty == ty,
            gradient@.keys.len() == 0,
    {
        Gradient { ty, keys: Vec::new() }
    }

    /// The gradient that has `value` at every age.
    pub fn constant(value: Value) -> (gradient: Gradient)
        ensures
            gradient@.ty == value.ty(),
            gradient@.keys == seq![GradientKey { ratio: Number { micros: 0 }, value }],
    {
        let mut keys: Vec<GradientKey> = Vec::new();
        keys.push(GradientKey { ratio: Number { micros: 0 }, value });
        assert(keys@ =~= seq![GradientKey { ratio: Number { micros: 0 }, value }]);
        Gradient { ty: value.value_type(), keys }
    }

    /// The type of the gradient's values.
    pub fn value_type(&self) -> (ty: ValueType)
        ensures
            ty == self@.ty,
    {
        self.ty
    }

    /// The number of keys.
    pub fn len(&self) -> (count: usize)
        ensures
            count == self@.keys.len(),
            ascending(self@.keys),
            typed(self@.keys, self@.ty),
    {
        proof {
            use_type_invariant(self);
        }
        self.keys.len()
    }

    /// The key at `place`, if there is one.
    pub fn key(&self, place: usize) -> (found: Option<GradientKey>)
        ensures
            place < self@.keys.len() ==> found == Some(self@.keys[place as int]),
            place >= self@.keys.len() ==> found.is_none(),
    {
        if place < self.keys.len() {
            Some(self.keys[place])
        } else {
            None
        }
    }

    /// Appends to `out` the shader source that samples the gradient at the
    /// particle's age into the local variable `name` of the modifier at
    /// place `k`.
    pub fn write_code(&self, out: &mut String, name: &str, k: usize)
        ensures
            final(out)@ == old(out)@ + self@.code(name@, k as nat),
    {
        let ghost start = out@;
        let ghost n = k as nat;
        if self.keys.len() == 0 {
            assert(out@ =~= start + self@.code(name@, n));
            return;
        }
        out.append("    let ");
        write_local(out, "age", k);
        out.append(" = particle.age / particle.lifetime;\n");
        out.append("    var ");
        write_local(out, name, k);
        out.append(" = ");
        self.keys[0].value.write(out);
        out.append(";\n");
        let ghost head = "    let "@ + local("age"@, n) + " = particle.age / particle.lifetime;\n"@
            + "    var "@ + local(name@, n) + " = "@ + self.keys[0].value.text() + ";\n"@;
        assert(out@ =~= start + head);
        let ghost base = start + head;
        let ghost target = local(name@, n);
        let ghost age = local("age"@, n);
        let mut i: usize = 1;
        assert(out@ =~= base + steps_text(self.keys@, target, age, 1));
        while i < self.keys.len()
            invariant
                1 <= i <= self.keys.len(),
                target == local(name@, n),
                age == local("age"@, n),
                n == k,
                out@ == base + steps_text(self.keys@, target, age, i as int),
            decreases self.keys.len() - i,
        {
            let ghost done = steps_text(self.keys@, target, age, i as int);
            let ghost step = step_text(target, age, self.keys@[i - 1], self.keys@[i as int]);
            write_step(out, name, k, &self.keys[i - 1], &self.keys[i]);
            i += 1;
            proof {
                lemma_append_is_associative(base, done, step);
                assert(steps_text(self.keys@, target, age, i as int) == done + step);
            }
        }
        assert(steps_text(self.keys@, target, age, self.keys@.len() as int) == steps_text(
            self@.keys,
            target,
            age,
            self@.keys.len() as int,
        ));
        proof {
            lemma_append_is_associative(
                start,
                head,
                steps_text(self@.keys, target, age, self@.keys.len() as int),
            );
        }
        assert(out@ =~= start + self@.code(name@, n));
    }

    /// Puts the key `value` at `ratio` into the gradient, in the order of
    /// the ratios. A key that is at `ratio` already is replaced.
    ///
    /// Fails with `TypeMismatch`, and changes nothing, exactly when `value`
    /// does not have the gradient's type.
    pub fn add_key(&mut self, ratio: Number, value: Value) -> (added: Result<(), ExprError>)
        ensures
            final(self)@.ty == old(self)@.ty,
            ascending(final(self)@.keys),
            typed(final(self)@.keys, final(self)@.ty),
            value.ty() != old(self)@.ty ==> added == Err::<(), ExprError>(ExprError::TypeMismatch)
                && final(self)@ == old(self)@,
            value.ty() == old(self)@.ty ==> added.is_ok() && exists|at: int|
                #[trigger] belongs_at(old(self)@.keys, ratio.micros, at) && final(self)@.keys
                    == with_key_at(old(self)@.keys, GradientKey { ratio, value }, at),
    {
        proof {
            use_type_invariant(&*self);
        }
        if value.value_type() != self.ty {
            return Err(ExprError::TypeMismatch);
        }
        let ghost before = self.keys@;
        let key = GradientKey { ratio, value };
        let mut keys: Vec<GradientKey> = Vec::new();
        core::mem::swap(&mut keys, &mut self.keys);
        let mut at: usize = 0;
        while at < keys.len() && keys[at].ratio.micros < ratio.micros
            invariant
                at <= keys.len(),
                keys@ == before,
                forall|j: int| 0 <= j < at ==> (#[trigger] before[j]).ratio.micros < ratio.micros,
            decreases keys.len() - at,
        {
            at += 1;
        }
        assert(belongs_at(before, ratio.micros, at as int)) by {
            assert forall|j: int| at <= j < before.len() implies (
            #[trigger] before[j]).ratio.micros >= ratio.micros by {
                if j > at {
                    assert(before[at as int].ratio.micros < before[j].ratio.micros);
                }
            }
        }
        if at < keys.len() && keys[at].ratio.micros == ratio.micros {
            keys.set(at, key);
        } else {
            keys.insert(at, key);
        }
        assert(keys@ == with_key_at(before, key, at as int));
        assert(ascending(keys@)) by {
            assert forall|i: int, j: int| 0 <= i < j < keys@.len() implies (
            #[trigger] keys@[i]).ratio.micros < (#[trigger] keys@[j]).ratio.micros by {
                if at < before.len() && before[at as int].ratio.micros == ratio.micros {
                    if i != at && j != at {
                        assert(before[i].ratio.micros < before[j].ratio.micros);
                    } else if i == at {
                        assert(before[at as int].ratio.micros < before[j].ratio.micros);
                    } else {
                        assert(before[i].ratio.micros < before[at as int].ratio.micros);
                    }
                } else {
                    let old_i = if i < at { i } else { i - 1 };
                    let old_j = if j < at { j } else { j - 1 };
                    if i != at && j != at {
                        assert(before[old_i].ratio.micros < before[old_j].ratio.micros);
                    } else if i == at {
                        assert(before[old_j].ratio.micros >= ratio.micros);
                        assert(before[old_j].ratio.micros != ratio.micros) by {
                            if old_j > at {
                                assert(before[at as int].ratio.micros < before[old_j].ratio.micros);
                            }
                        }
                    } else {
                        assert(before[old_i].ratio.micros < ratio.micros);
                    }
                }
            }
        }
        assert(typed(keys@, self.ty)) by {
            assert forall|i: int| 0 <= i < keys@.len() implies (#[trigger] keys@[i]).value.ty()
                == self.ty by {
                if at < before.len() && before[at as int].ratio.micros == ratio.micros {
                    if i != at {
                        assert(before[i].value.ty() == self.ty);
                    }
                } else {
                    if i < at {
                        assert(before[i].value.ty() == self.ty);
                    } else if i > at {
                        assert(before[i - 1].value.ty() == self.ty);
                    }
                }
            }
        }
        self.keys = keys;
        assert(before == old(self)@.keys);
        assert(belongs_at(before, ratio.micros, at as int) && self@.keys == with_key_at(
            before,
            key,
            at as int,
        ));
        Ok(())
    }
}

} // verus!
