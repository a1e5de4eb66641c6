//! Effects and their compilation to shader source.
//!
//! An effect is a capacity, a spawner, a module of properties and an ordered
//! list of modifiers. Compiling it yields one source text for each stage:
//! the declarations of the properties that the effect reads, each once, and
//! the fragments of the stage's modifiers in the order of the list.

use crate::expr::ExprError;
use crate::modifier::{Modifier, ModifierView, Stage};
use crate::module::{declares, place_of, Declared, Module};
use crate::spawner::{Spawner, SpawnerState};
use crate::value::type_text;
use vstd::prelude::*;
use vstd::string::StringExecFns;

verus! {

/// An effect as a mathematical value.
pub struct EffectView {
    pub capacity: u32,
    pub spawner: SpawnerState,
    pub module: Seq<Declared>,
    pub modifiers: Seq<ModifierView>,
}

/// The declaration of an effect: how many particles it may hold, how it
/// spawns them, the properties it declares and the modifiers that shape it.
pub struct EffectAsset {
    capacity: u32,
    spawner: Spawner,
    module: Module,
    modifiers: Vec<Modifier>,
}

/// The shader source of an effect, stage by stage, and the names of the
/// properties that it declares.
#[derive(Debug)]
pub struct CompiledEffect {
    pub init_source: String,
    pub update_source: String,
    pub render_source: String,
    pub declared_properties: Vec<String>,
}

/// The modifiers of a list as mathematical values.
pub open spec fn modifier_views(modifiers: Seq<Modifier>) -> Seq<ModifierView> {
    Seq::new(modifiers.len(), |i: int| modifiers[i]@)
}

impl View for EffectAsset {
    type V = EffectView;

    closed spec fn view(&self) -> EffectView {
        EffectView {
            capacity: self.capacity,
            spawner: self.spawner@,
            module: self.module@,
            modifiers: modifier_views(self.modifiers@),
        }
    }
}

/// Whether every modifier of the list is well typed.
pub open spec fn all_well_typed(modifiers: Seq<ModifierView>) -> bool {
    forall|i: int| 0 <= i < modifiers.len() ==> (#[trigger] modifiers[i]).well_typed()
}

/// Whether every modifier of the list reads the properties that `decls`
/// declares at the types that `decls` gives them.
pub open spec fn all_agree(modifiers: Seq<ModifierView>, decls: Seq<Declared>) -> bool {
    forall|i: int| 0 <= i < modifiers.len() ==> (#[trigger] modifiers[i]).agrees(decls)
}

/// The fragments of the first `upto` modifiers that belong to `stage`, in
/// the order of the list. Each modifier compiles with its place in the list.
pub open spec fn stage_body(modifiers: Seq<ModifierView>, stage: Stage, upto: int) -> Seq<char>
    decreases upto,
{
    if upto <= 0 {
        Seq::empty()
    } else if modifiers[upto - 1].stage() == stage {
        stage_body(modifiers, stage, upto - 1) + modifiers[upto - 1].code((upto - 1) as nat)
    } else {
        stage_body(modifiers, stage, upto - 1)
    }
}

/// The names that the first `upto` modifiers read, in the order of the list.
pub open spec fn all_reads(modifiers: Seq<ModifierView>, upto: int) -> Seq<Seq<char>>
    decreases upto,
{
    if upto <= 0 {
        Seq::empty()
    } else {
        all_reads(modifiers, upto - 1) + modifiers[upto - 1].reads()
    }
}

/// The first `upto` names, each once, in the order of their first
/// occurrence.
pub open spec fn distinct(names: Seq<Seq<char>>, upto: int) -> Seq<Seq<char>>
    decreases upto,
{
    if upto <= 0 {
        Seq::empty()
    } else if distinct(names, upto - 1).contains(names[upto - 1]) {
        distinct(names, upto - 1)
    } else {
        distinct(names, upto - 1).push(names[upto - 1])
    }
}

/// Whether `decls` declares each of `names`.
pub open spec fn all_declared(decls: Seq<Declared>, names: Seq<Seq<char>>) -> bool {
    forall|i: int| 0 <= i < names.len() ==> declares(decls, #[trigger] names[i])
}

/// The declaration of the property `name` in shader source: its name and
/// the type of its starting value.
pub open spec fn declaration(decls: Seq<Declared>, name: Seq<char>) -> Seq<char> {
    "    "@ + name + ": "@ + type_text(decls[place_of(decls, name)].value.ty()) + ",\n"@
}

/// The declarations of the first `upto` of `names`.
pub open spec fn declarations(decls: Seq<Declared>, names: Seq<Seq<char>>, upto: int) -> Seq<char>
    decreases upto,
{
    if upto <= 0 {
        Seq::empty()
    } else {
        declarations(decls, names, upto - 1) + declaration(decls, names[upto - 1])
    }
}

/// The block that declares the properties `names`; empty where there are
/// none.
pub open spec fn properties_block(decls: Seq<Declared>, names: Seq<Seq<char>>) -> Seq<char> {
    if names.len() == 0 {
        Seq::empty()
    } else {
        "struct Properties {\n"@ + declarations(decls, names, names.len() as int)
            + "}\n@group(1) @binding(0) var<uniform> properties: Properties;\n"@
    }
}

/// The opening of the function of a stage.
pub open spec fn stage_open(stage: Stage) -> Seq<char> {
    match stage {
        Stage::Init => "fn init(seed: Particle) -> Particle {\n    var particle = seed;\n"@,
        Stage::Update =>
            "fn update(last: Particle) -> ParticleState {\n    var particle = last;\n    var is_alive = true;\n"@,
        Stage::Render => "fn render(drawn: Particle) -> Particle {\n    var particle = drawn;\n"@,
    }
}

/// The close of the function of a stage.
pub open spec fn stage_close(stage: Stage) -> Seq<char> {
    match stage {
        Stage::Update => "    return ParticleState(particle, is_alive);\n}\n"@,
        _ => "    return particle;\n}\n"@,
    }
}

/// The source of a stage: the block of properties, and the stage's function
/// around the fragments `body`.
pub open spec fn stage_source(stage: Stage, block: Seq<char>, body: Seq<char>) -> Seq<char> {
    block + stage_open(stage) + body + stage_close(stage)
}

impl EffectView {
    /// The names of the properties that the effect reads, each once, in the
    /// order in which its modifiers first read them.
    pub open spec fn properties(self) -> Seq<Seq<char>> {
        let reads = all_reads(self.modifiers, self.modifiers.len() as int);
        distinct(reads, reads.len() as int)
    }

    /// What is wrong with the effect, if anything is: a modifier that is not
    /// well typed; or else a property that is read and not declared; or else
    /// a property that is read at another type than it is declared at.
    pub open spec fn fault(self) -> Option<ExprError> {
        if !all_well_typed(self.modifiers) {
            Some(ExprError::TypeMismatch)
        } else if !all_declared(self.module, self.properties()) {
            Some(ExprError::UndeclaredProperty)
        } else if !all_agree(self.modifiers, self.module) {
            Some(ExprError::TypeMismatch)
        } else {
            None
        }
    }

    /// Whether the effect compiles: nothing is wrong with it.
    pub open spec fn compiles(self) -> bool {
        self.fault().is_none()
    }

    /// The source of `stage`.
    pub open spec fn source(self, stage: Stage) -> Seq<char> {
        stage_source(
            stage,
            properties_block(self.module, self.properties()),
            stage_body(self.modifiers, stage, self.modifiers.len() as int),
        )
    }
}

/// Whether `name` is among `names`.
fn is_listed(names: &Vec<String>, name: &String) -> (listed: bool)
    ensures
        listed == names.deep_view().contains(name@),
{
    let mut i: usize = 0;
    while i < names.len()
        invariant
            i <= names.len(),
            forall|j: int| 0 <= j < i ==> names.deep_view()[j] != name@,
        decreases names.len() - i,
    {
        if names[i] == *name {
            assert(names.deep_view()[i as int] == name@);
            return true;
        }
        i += 1;
    }
    false
}

/// The names of `names`, each once, in the order of their first occurrence.
pub fn distinct_names(names: &Vec<String>) -> (once: Vec<String>)
    ensures
        once.deep_view() == distinct(names.deep_view(), names.len() as int),
{
    let mut once: Vec<String> = Vec::new();
    let mut i: usize = 0;
    assert(once.deep_view() =~= distinct(names.deep_view(), 0));
    while i < names.len()
        invariant
            i <= names.len(),
            once.deep_view() == distinct(names.deep_view(), i as int),
        decreases names.len() - i,
    {
        let ghost before = once.deep_view();
        assert(names.deep_view()[i as int] == names[i as int]@);
        if !is_listed(&once, &names[i]) {
            once.push(names[i].clone());
            assert(once.deep_view() =~= before.push(names[i as int]@));
        }
        i += 1;
    }
    once
}

/// Appends the opening of the function of `stage`.
fn write_open(out: &mut String, stage: Stage)
    ensures
        final(out)@ == old(out)@ + stage_open(stage),
{
    match stage {
        Stage::Init => out.append("fn init(seed: Particle) -> Particle {\n    var particle = seed;\n"),
        Stage::Update => out.append(
            "fn update(last: Particle) -> ParticleState {\n    var particle = last;\n    var is_alive = true;\n",
        ),
        Stage::Render => out.append(
            "fn render(drawn: Particle) -> Particle {\n    var particle = drawn;\n",
        ),
    }
}

/// Appends the close of the function of `stage`.
fn write_close(out: &mut String, stage: Stage)
    ensures
        final(out)@ == old(out)@ + stage_close(stage),
{
    match stage {
        Stage::Update => out.append("    return ParticleState(particle, is_alive);\n}\n"),
        _ => out.append("    return particle;\n}\n"),
    }
}

/// The source of `stage` around the block of properties and the fragments.
fn assemble(stage: Stage, block: &String, body: &String) -> (source: String)
    ensures
        source@ == stage_source(stage, block@, body@),
{
    let mut source = String::new();
    source.append(block.as_str());
    write_open(&mut source, stage);
    source.append(body.as_str());
    write_close(&mut source, stage);
    assert(source@ =~= stage_source(stage, block@, body@));
    source
}

impl EffectAsset {
    /// An effect without modifiers.
    pub fn new(capacity: u32, spawner: Spawner, module: Module) -> (asset: EffectAsset)
        ensures
            asset@ == (EffectView {
                capacity,
                spawner: spawner@,
                module: module@,
                modifiers: Seq::empty(),
            }),
    {
        let asset = EffectAsset { capacity, spawner, module, modifiers: Vec::new() };
        assert(asset@.modifiers =~= Seq::empty());
        asset
    }

    /// The effect with `modifier` after the modifiers it has.
    ///
    /// Within a stage the fragments follow the order in which the modifiers
    /// were added, so that a later modifier may undo what an earlier one did.
    pub fn with_modifier(self, modifier: Modifier) -> (asset: EffectAsset)
        ensures
            asset@ == (EffectView { modifiers: self@.modifiers.push(modifier@), ..self@ }),
    {
        let ghost before = self@;
        let mut asset = self;
        asset.modifiers.push(modifier);
        assert(asset@.modifiers =~= before.modifiers.push(modifier@));
        asset
    }

    /// Compiles the effect to the shader source of its three stages.
    ///
    /// Fails exactly when something is wrong with the effect, with the error
    /// that [`EffectView::fault`] names. The result depends on the effect
    /// alone.
    pub fn compile(&self) -> (compiled: Result<CompiledEffect, ExprError>)
        ensures
            self@.fault() matches Some(error) ==> compiled is Err && compiled->Err_0 == error,
            self@.compiles() ==> compiled.is_ok() && compiled.unwrap().init_source@
                == self@.source(Stage::Init) && compiled.unwrap().update_source@ == self@.source(
                Stage::Update,
            ) && compiled.unwrap().render_source@ == self@.source(Stage::Render)
                && compiled.unwrap().declared_properties.deep_view() == self@.properties(),
    {
        let ghost modifiers = self@.modifiers;
        let mut init = String::new();
        let mut update = String::new();
        let mut render = String::new();
        let mut reads: Vec<String> = Vec::new();
        let mut k: usize = 0;
        assert(reads.deep_view() =~= all_reads(modifiers, 0));
        while k < self.modifiers.len()
            invariant
                k <= self.modifiers.len(),
                modifiers == modifier_views(self.modifiers@),
                init@ == stage_body(modifiers, Stage::Init, k as int),
                update@ == stage_body(modifiers, Stage::Update, k as int),
                render@ == stage_body(modifiers, Stage::Render, k as int),
                reads.deep_view() == all_reads(modifiers, k as int),
                forall|j: int| 0 <= j < k ==> (#[trigger] modifiers[j]).well_typed(),
            decreases self.modifiers.len() - k,
        {
            let modifier = &self.modifiers[k];
            assert(modifiers[k as int] == modifier@);
            if !modifier.is_well_typed() {
                return Err(ExprError::TypeMismatch);
            }
            match modifier.stage() {
                Stage::Init => modifier.write_code(&mut init, k),
                Stage::Update => modifier.write_code(&mut update, k),
                Stage::Render => modifier.write_code(&mut render, k),
            }
            modifier.collect_reads(&mut reads);
            k += 1;
        }
        assert(all_well_typed(modifiers));
        let once = distinct_names(&reads);
        assert(once.deep_view() == self@.properties());
        let ghost names = once.deep_view();
        let mut lines = String::new();
        let mut i: usize = 0;
        while i < once.len()
            invariant
                i <= once.len(),
                names == once.deep_view(),
                names == self@.properties(),
                all_well_typed(self@.modifiers),
                lines@ == declarations(self.module@, names, i as int),
                forall|j: int| 0 <= j < i ==> declares(self.module@, #[trigger] names[j]),
            decreases once.len() - i,
        {
            let ghost before = lines@;
            assert(names[i as int] == once[i as int]@);
            match self.module.type_of(once[i].as_str()) {
                None => {
                    assert(!declares(self@.module, names[i as int]));
                    return Err(ExprError::UndeclaredProperty);
                },
                Some(ty) => {
                    lines.append("    ");
                    lines.append(once[i].as_str());
                    lines.append(": ");
                    lines.append(ty.name());
                    lines.append(",\n");
                    assert(lines@ =~= before + declaration(self.module@, names[i as int]));
                },
            }
            i += 1;
        }
        assert(all_declared(self.module@, names));
        let mut m: usize = 0;
        while m < self.modifiers.len()
            invariant
                m <= self.modifiers.len(),
                modifiers == modifier_views(self.modifiers@),
                modifiers == self@.modifiers,
                all_well_typed(modifiers),
                all_declared(self@.module, self@.properties()),
                forall|j: int| 0 <= j < m ==> (#[trigger] modifiers[j]).agrees(self@.module),
            decreases self.modifiers.len() - m,
        {
            assert(modifiers[m as int] == self.modifiers[m as int]@);
            if !self.modifiers[m].agrees_with(&self.module) {
                return Err(ExprError::TypeMismatch);
            }
            m += 1;
        }
        assert(all_agree(modifiers, self@.module));
        let mut block = String::new();
        if once.len() > 0 {
            block.append("struct Properties {\n");
            block.append(lines.as_str());
            block.append("}\n@group(1) @binding(0) var<uniform> properties: Properties;\n");
        }
        assert(block@ =~= properties_block(self.module@, names));
        let init_source = assemble(Stage::Init, &block, &init);
        let update_source = assemble(Stage::Update, &block, &update);
        let render_source = assemble(Stage::Render, &block, &render);
        Ok(CompiledEffect { init_source, update_source, render_source, declared_properties: once })
    }

    /// The most particles that the effect holds at a time.
    pub fn capacity(&self) -> (capacity: u32)
        ensures
            capacity == self@.capacity,
    {
        self.capacity
    }

    /// The spawner that the effect's instances start with.
    pub fn spawner(&self) -> (spawner: &Spawner)
        ensures
            spawner@ == self@.spawner,
    {
        &self.spawner
    }

    /// The module that declares the effect's properties.
    pub fn module(&self) -> (module: &Module)
        ensures
            module@ == self@.module,
    {
        &self.module
    }

    /// The number of modifiers of the effect.
    pub fn modifier_count(&self) -> (count: usize)
        ensures
            count == self@.modifiers.len(),
    {
        self.modifiers.len()
    }
}

/// The list of distinct names holds each of the names, and holds none twice.
pub proof fn lemma_distinct_lists_each_name_once(names: Seq<Seq<char>>, upto: int)
    requires
        0 <= upto <= names.len(),
    ensures
        distinct(names, upto).no_duplicates(),
        forall|name: Seq<char>|
            distinct(names, upto).contains(name) <==> exists|i: int|
                0 <= i < upto && #[trigger] names[i] == name,
    decreases upto,
{
    if upto > 0 {
        lemma_distinct_lists_each_name_once(names, upto - 1);
        let before = distinct(names, upto - 1);
        let last = names[upto - 1];
        let after = distinct(names, upto);
        if before.contains(last) {
            assert forall|name: Seq<char>| after.contains(name) <==> exists|i: int|
                0 <= i < upto && #[trigger] names[i] == name by {
                if exists|i: int| 0 <= i < upto && #[trigger] names[i] == name {
                    let i = choose|i: int| 0 <= i < upto && #[trigger] names[i] == name;
                    if i == upto - 1 {
                        assert(before.contains(name));
                    } else {
                        assert(0 <= i < upto - 1 && names[i] == name);
                    }
                }
                if after.contains(name) {
                    let i = choose|i: int| 0 <= i < upto - 1 && #[trigger] names[i] == name;
                    assert(0 <= i < upto && names[i] == name);
                }
            }
        } else {
            assert(after == before.push(last));
            assert(after.no_duplicates()) by {
                assert forall|i: int, j: int|
                    0 <= i < after.len() && 0 <= j < after.len() && i != j implies after[i]
                    != after[j] by {
                    if i == before.len() {
                        assert(before[j] == after[j]);
                        assert(before.contains(before[j]));
                    } else if j == before.len() {
                        assert(before[i] == after[i]);
                        assert(before.contains(before[i]));
                    } else {
                        assert(before[i] == after[i] && before[j] == after[j]);
                    }
                }
            }
            assert forall|name: Seq<char>| after.contains(name) <==> exists|i: int|
                0 <= i < upto && #[trigger] names[i] == name by {
                if after.contains(name) {
                    let at = choose|at: int| 0 <= at < after.len() && after[at] == name;
                    if at == before.len() {
                        assert(names[upto - 1] == name);
                    } else {
                        assert(before[at] == name);
                        assert(before.contains(name));
                        let i = choose|i: int| 0 <= i < upto - 1 && #[trigger] names[i] == name;
                        assert(0 <= i < upto && names[i] == name);
                    }
                }
                if exists|i: int| 0 <= i < upto && #[trigger] names[i] == name {
                    let i = choose|i: int| 0 <= i < upto && #[trigger] names[i] == name;
                    if i == upto - 1 {
                        assert(after[before.len() as int] == name);
                    } else {
                        assert(0 <= i < upto - 1 && names[i] == name);
                        assert(before.contains(name));
                        let at = choose|at: int| 0 <= at < before.len() && before[at] == name;
                        assert(after[at] == name);
                    }
                }
            }
        }
    }
}

/// Equal effects compile to equal sources: the source of a stage is a
/// function of the effect alone.
pub proof fn lemma_compile_is_deterministic(first: EffectView, second: EffectView, stage: Stage)
    requires
        first == second,
    ensures
        first.compiles() == second.compiles(),
        first.source(stage) == second.source(stage),
        first.properties() == second.properties(),
{
}

/// Within a stage the fragments stand in the order of the modifiers: a
/// modifier that is added last contributes the end of its stage and leaves
/// the other stages as they were.
pub proof fn lemma_fragments_follow_the_list(
    modifiers: Seq<ModifierView>,
    added: ModifierView,
    stage: Stage,
)
    ensures
        stage_body(modifiers.push(added), stage, modifiers.len() as int + 1) == if added.stage()
            == stage {
            stage_body(modifiers, stage, modifiers.len() as int) + added.code(modifiers.len())
        } else {
            stage_body(modifiers, stage, modifiers.len() as int)
        },
{
    lemma_body_ignores_later_modifiers(modifiers, modifiers.push(added), stage, modifiers.len() as int);
}

/// The fragments of the first modifiers do not depend on the modifiers
/// after them.
pub proof fn lemma_body_ignores_later_modifiers(
    shorter: Seq<ModifierView>,
    longer: Seq<ModifierView>,
    stage: Stage,
    upto: int,
)
    requires
        0 <= upto <= shorter.len() <= longer.len(),
        forall|i: int| 0 <= i < shorter.len() ==> shorter[i] == longer[i],
    ensures
        stage_body(shorter, stage, upto) == stage_body(longer, stage, upto),
    decreases upto,
{
    if upto > 0 {
        lemma_body_ignores_later_modifiers(shorter, longer, stage, upto - 1);
    }
}

} // verus!
