//! Modifiers: the units of behaviour that an effect is composed of.
//!
//! A modifier belongs to one stage of the particle program and compiles to a
//! fragment of shader source for that stage. Its local variables carry the
//! modifier's place in the effect, so that no two fragments share a name.

use crate::expr::{Expr, ExprError, Term};
use crate::gradient::{Gradient, GradientView};
use crate::module::{Declared, Module};
use crate::value::{digits, write_digits, ValueType};
use vstd::prelude::*;
use vstd::string::StringExecFns;

verus! {

/// The stages of the particle program of an effect.
#[derive(Clone, Copy, Debug, PartialEq, Eq, Structural)]
pub enum Stage {
    /// Runs once for each particle, when it is spawned.
    Init,
    /// Runs for each living particle in each tick.
    Update,
    /// Runs for each living particle when it is drawn.
    Render,
}

/// A composable unit of particle behaviour.
#[derive(Debug)]
pub enum Modifier {
    /// Places a new particle at a random point of the surface of a sphere.
    SetPositionSphere { center: Expr, radius: Expr },
    /// Sends a new particle away from a point at a given speed.
    SetVelocitySphere { center: Expr, speed: Expr },
    /// Accelerates particles towards the surface of a sphere, or away from
    /// it where the acceleration is negative.
    ConformToSphere {
        origin: Expr,
        radius: Expr,
        influence_dist: Expr,
        attraction_accel: Expr,
        max_attraction_speed: Expr,
        sticky_factor: Option<Expr>,
        shell_half_thickness: Option<Expr>,
    },
    /// Kills the particles that leave a box.
    KillAabb { center: Expr, half_size: Expr },
    /// Kills the particles strictly inside a sphere, or all others.
    KillSphere { center: Expr, radius: Expr, kill_inside: bool },
    /// Sets the size of a particle from its age.
    SizeOverLifetime { gradient: Gradient },
    /// Sets the colour of a particle from its age.
    ColorOverLifetime { gradient: Gradient },
}

/// A modifier as a mathematical value.
pub enum ModifierView {
    SetPositionSphere { center: Term, radius: Term },
    SetVelocitySphere { center: Term, speed: Term },
    ConformToSphere {
        origin: Term,
        radius: Term,
        influence_dist: Term,
        attraction_accel: Term,
        max_attraction_speed: Term,
        sticky_factor: Option<Term>,
        shell_half_thickness: Option<Term>,
    },
    KillAabb { center: Term, half_size: Term },
    KillSphere { center: Term, radius: Term, kill_inside: bool },
    SizeOverLifetime { gradient: GradientView },
    ColorOverLifetime { gradient: GradientView },
}

/// The term of an optional expression.
pub open spec fn option_term(expr: Option<Expr>) -> Option<Term> {
    match expr {
        Some(expr) => Some(expr@),
        None => None,
    }
}

impl View for Modifier {
    type V = ModifierView;

    open spec fn view(&self) -> ModifierView {
        match self {
            Modifier::SetPositionSphere { center, radius } => ModifierView::SetPositionSphere {
                center: center@,
                radius: radius@,
            },
            Modifier::SetVelocitySphere { center, speed } => ModifierView::SetVelocitySphere {
                center: center@,
                speed: speed@,
            },
            Modifier::ConformToSphere {
                origin,
                radius,
                influence_dist,
                attraction_accel,
                max_attraction_speed,
                sticky_factor,
                shell_half_thickness,
            } => ModifierView::ConformToSphere {
                origin: origin@,
                radius: radius@,
                influence_dist: influence_dist@,
                attraction_accel: attraction_accel@,
                max_attraction_speed: max_attraction_speed@,
                sticky_factor: option_term(*sticky_factor),
                shell_half_thickness: option_term(*shell_half_thickness),
            },
            Modifier::KillAabb { center, half_size } => ModifierView::KillAabb {
                center: center@,
                half_size: half_size@,
            },
            Modifier::KillSphere { center, radius, kill_inside } => ModifierView::KillSphere {
                center: center@,
                radius: radius@,
                kill_inside: *kill_inside,
            },
            Modifier::SizeOverLifetime { gradient } => ModifierView::SizeOverLifetime {
                gradient: gradient@,
            },
            Modifier::ColorOverLifetime { gradient } => ModifierView::ColorOverLifetime {
                gradient: gradient@,
            },
        }
    }
}

/// Whether `term` may stand where a value of type `ty` is expected.
pub open spec fn fits(term: Term, ty: ValueType) -> bool {
    term.well_typed() && term.ty() == ty
}

/// Whether an optional term, where there is one, is a single number.
pub open spec fn fits_if_any(term: Option<Term>) -> bool {
    match term {
        Some(term) => fits(term, ValueType::Float),
        None => true,
    }
}

/// Whether an optional term, where there is one, agrees with `decls`.
pub open spec fn agrees_if_any(term: Option<Term>, decls: Seq<Declared>) -> bool {
    match term {
        Some(term) => term.agrees(decls),
        None => true,
    }
}

/// The names that an optional term reads.
pub open spec fn reads_if_any(term: Option<Term>) -> Seq<Seq<char>> {
    match term {
        Some(term) => term.reads(),
        None => Seq::empty(),
    }
}

/// The local variable `name` of the modifier at place `k`.
pub open spec fn local(name: Seq<char>, k: nat) -> Seq<char> {
    name + digits(k)
}

/// One statement that binds a local variable: `let name = value;`.
pub open spec fn let_line(name: Seq<char>, value: Seq<char>) -> Seq<char> {
    "    let "@ + name + " = "@ + value + ";\n"@
}

impl ModifierView {
    /// The stage that the modifier belongs to.
    pub open spec fn stage(self) -> Stage {
        match self {
            ModifierView::SetPositionSphere { .. } => Stage::Init,
            ModifierView::SetVelocitySphere { .. } => Stage::Init,
            ModifierView::ConformToSphere { .. } => Stage::Update,
            ModifierView::KillAabb { .. } => Stage::Update,
            ModifierView::KillSphere { .. } => Stage::Update,
            ModifierView::SizeOverLifetime { .. } => Stage::Render,
            ModifierView::ColorOverLifetime { .. } => Stage::Render,
        }
    }

    /// Whether each expression of the modifier has the type of its role:
    /// points and sizes of boxes are vectors of three, all else is a single
    /// number. A gradient of sizes holds vectors of three, a gradient of
    /// colours vectors of four.
    pub open spec fn well_typed(self) -> bool {
        match self {
            ModifierView::SetPositionSphere { center, radius } => fits(center, ValueType::Vec3)
                && fits(radius, ValueType::Float),
            ModifierView::SetVelocitySphere { center, speed } => fits(center, ValueType::Vec3)
                && fits(speed, ValueType::Float),
            ModifierView::ConformToSphere {
                origin,
                radius,
                influence_dist,
                attraction_accel,
                max_attraction_speed,
                sticky_factor,
                shell_half_thickness,
            } => fits(origin, ValueType::Vec3) && fits(radius, ValueType::Float) && fits(
                influence_dist,
                ValueType::Float,
            ) && fits(attraction_accel, ValueType::Float) && fits(
                max_attraction_speed,
                ValueType::Float,
            ) && fits_if_any(sticky_factor) && fits_if_any(shell_half_thickness),
            ModifierView::KillAabb { center, half_size } => fits(center, ValueType::Vec3) && fits(
                half_size,
                ValueType::Vec3,
            ),
            ModifierView::KillSphere { center, radius, .. } => fits(center, ValueType::Vec3)
                && fits(radius, ValueType::Float),
            ModifierView::SizeOverLifetime { gradient } => gradient.ty == ValueType::Vec3,
            ModifierView::ColorOverLifetime { gradient } => gradient.ty == ValueType::Vec4,
        }
    }

    /// Whether the modifier reads each property that `decls` declares at
    /// the type that `decls` gives it.
    pub open spec fn agrees(self, decls: Seq<Declared>) -> bool {
        match self {
            ModifierView::SetPositionSphere { center, radius } => center.agrees(decls)
                && radius.agrees(decls),
            ModifierView::SetVelocitySphere { center, speed } => center.agrees(decls)
                && speed.agrees(decls),
            ModifierView::ConformToSphere {
                origin,
                radius,
                influence_dist,
                attraction_accel,
                max_attraction_speed,
                sticky_factor,
                shell_half_thickness,
            } => origin.agrees(decls) && radius.agrees(decls) && influence_dist.agrees(decls)
                && attraction_accel.agrees(decls) && max_attraction_speed.agrees(decls)
                && agrees_if_any(sticky_factor, decls) && agrees_if_any(
                shell_half_thickness,
                decls,
            ),
            ModifierView::KillAabb { center, half_size } => center.agrees(decls)
                && half_size.agrees(decls),
            ModifierView::KillSphere { center, radius, .. } => center.agrees(decls)
                && radius.agrees(decls),
            ModifierView::SizeOverLifetime { .. } => true,
            ModifierView::ColorOverLifetime { .. } => true,
        }
    }

    /// The names of the properties that the modifier reads, role by role.
    pub open spec fn reads(self) -> Seq<Seq<char>> {
        match self {
            ModifierView::SetPositionSphere { center, radius } => center.reads() + radius.reads(),
            ModifierView::SetVelocitySphere { center, speed } => center.reads() + speed.reads(),
            ModifierView::ConformToSphere {
                origin,
                radius,
                influence_dist,
                attraction_accel,
                max_attraction_speed,
                sticky_factor,
                shell_half_thickness,
            } => origin.reads() + radius.reads() + influence_dist.reads()
                + attraction_accel.reads() + max_attraction_speed.reads() + reads_if_any(
                sticky_factor,
            ) + reads_if_any(shell_half_thickness),
            ModifierView::KillAabb { center, half_size } => center.reads() + half_size.reads(),
            ModifierView::KillSphere { center, radius, .. } => center.reads() + radius.reads(),
            ModifierView::SizeOverLifetime { .. } => Seq::empty(),
            ModifierView::ColorOverLifetime { .. } => Seq::empty(),
        }
    }

    /// The shader source of the modifier at place `k` of its effect.
    pub open spec fn code(self, k: nat) -> Seq<char> {
        match self {
            ModifierView::SetPositionSphere { center, radius } => let_line(
                local("dir"@, k),
                "normalize(frand3() * 2.0 - 1.0)"@,
            ) + "    particle.position = ("@ + center.text() + ") + "@ + local("dir"@, k) + " * ("@
                + radius.text() + ");\n"@,
            ModifierView::SetVelocitySphere { center, speed } => let_line(
                local("out"@, k),
                "normalize(particle.position - ("@ + center.text() + "))"@,
            ) + "    particle.velocity = "@ + local("out"@, k) + " * ("@ + speed.text() + ");\n"@,
            ModifierView::ConformToSphere {
                origin,
                radius,
                influence_dist,
                attraction_accel,
                max_attraction_speed,
                sticky_factor,
                shell_half_thickness,
            } => conform_code(
                k,
                origin,
                radius,
                influence_dist,
                attraction_accel,
                max_attraction_speed,
                sticky_factor,
                shell_half_thickness,
            ),
            ModifierView::KillAabb { center, half_size } => let_line(
                local("rel"@, k),
                "abs(particle.position - ("@ + center.text() + "))"@,
            ) + "    if (any("@ + local("rel"@, k) + " > ("@ + half_size.text()
                + "))) { is_alive = false; }\n"@,
            ModifierView::KillSphere { center, radius, kill_inside } => let_line(
                local("off"@, k),
                "particle.position - ("@ + center.text() + ")"@,
            ) + "    if (length("@ + local("off"@, k) + ")"@ + (if kill_inside {
                " < ("@
            } else {
                " >= ("@
            }) + radius.text() + ")) { is_alive = false; }\n"@,
            ModifierView::SizeOverLifetime { gradient } => over_lifetime_code(gradient, "size"@, k),
            ModifierView::ColorOverLifetime { gradient } => over_lifetime_code(
                gradient,
                "color"@,
                k,
            ),
        }
    }
}

/// The shader source that sets the attribute `name` of a particle from its
/// age by a gradient. A gradient without keys leaves the attribute alone.
pub open spec fn over_lifetime_code(gradient: GradientView, name: Seq<char>, k: nat) -> Seq<char> {
    if gradient.keys.len() == 0 {
        Seq::empty()
    } else {
        gradient.code(name, k) + "    particle."@ + name + " = "@ + local(name, k) + ";\n"@
    }
}

/// The stickiness of a conforming force: within the shell around the
/// surface the velocity is damped. Empty unless both the factor and the
/// half thickness of the shell are given.
pub open spec fn sticky_code(
    k: nat,
    sticky_factor: Option<Term>,
    shell_half_thickness: Option<Term>,
) -> Seq<char> {
    match (sticky_factor, shell_half_thickness) {
        (Some(factor), Some(shell)) => "        if (abs("@ + local("gap"@, k) + ") < ("@
            + shell.text() + ")) { "@ + local("vel"@, k) + " = "@ + local("vel"@, k)
            + " * max(0.0, 1.0 - ("@ + factor.text() + ") * sim_params.delta_time); }\n"@,
        _ => Seq::empty(),
    }
}

/// The line from the particle to the origin of a conforming force.
pub open spec fn conform_to(k: nat, origin: Term) -> Seq<char> {
    let_line(local("to"@, k), "("@ + origin.text() + ") - particle.position"@)
}

/// The distance of the particle from the origin of a conforming force.
pub open spec fn conform_dist(k: nat) -> Seq<char> {
    let_line(local("dist"@, k), "length("@ + local("to"@, k) + ")"@)
}

/// The test for the distance of influence of a conforming force.
pub open spec fn conform_test(k: nat, influence_dist: Term) -> Seq<char> {
    "    if ("@ + local("dist"@, k) + " > 0.0 && "@ + local("dist"@, k) + " < ("@
        + influence_dist.text() + ")) {\n"@
}

/// The distance of the particle from the surface of the sphere; negative
/// inside the sphere.
pub open spec fn conform_gap(k: nat, radius: Term) -> Seq<char> {
    "    "@ + let_line(local("gap"@, k), local("dist"@, k) + " - ("@ + radius.text() + ")"@)
}

/// The change of speed in one tick: the acceleration times the tick, held
/// within the maximum speed.
pub open spec fn conform_clamp(k: nat, attraction_accel: Term, max_attraction_speed: Term) -> Seq<
    char,
> {
    "    "@ + let_line(
        local("step"@, k),
        "clamp(("@ + attraction_accel.text() + ") * sim_params.delta_time, -("@
            + max_attraction_speed.text() + "), ("@ + max_attraction_speed.text() + "))"@,
    )
}

/// The opening of a conforming force at place `k`: the line to the origin,
/// its length, and the test for the distance of influence.
pub open spec fn conform_reach(k: nat, origin: Term, influence_dist: Term) -> Seq<char> {
    conform_to(k, origin) + conform_dist(k) + conform_test(k, influence_dist)
}

/// The change of speed of a conforming force at place `k` in one tick.
pub open spec fn conform_step(
    k: nat,
    radius: Term,
    attraction_accel: Term,
    max_attraction_speed: Term,
) -> Seq<char> {
    conform_gap(k, radius) + conform_clamp(k, attraction_accel, max_attraction_speed)
}

/// The new velocity under a conforming force at place `k`: the step is
/// taken along the line to the origin, towards the surface of the sphere.
pub open spec fn conform_pull(k: nat) -> Seq<char> {
    "        var "@ + local("vel"@, k) + " = particle.velocity + ("@ + local("to"@, k) + " / "@
        + local("dist"@, k) + ") * sign("@ + local("gap"@, k) + ") * "@ + local("step"@, k)
        + ";\n"@
}

/// The close of a conforming force at place `k`.
pub open spec fn conform_close(k: nat) -> Seq<char> {
    "        particle.velocity = "@ + local("vel"@, k) + ";\n    }\n"@
}

/// The shader source of a conforming force at place `k`.
///
/// Within the distance of influence the particle is accelerated along the
/// line to the origin, towards the surface of the sphere; the change of
/// speed in one tick is held within the maximum speed, and a negative
/// acceleration turns the pull into a push.
pub open spec fn conform_code(
    k: nat,
    origin: Term,
    radius: Term,
    influence_dist: Term,
    attraction_accel: Term,
    max_attraction_speed: Term,
    sticky_factor: Option<Term>,
    shell_half_thickness: Option<Term>,
) -> Seq<char> {
    conform_reach(k, origin, influence_dist) + conform_step(
        k,
        radius,
        attraction_accel,
        max_attraction_speed,
    ) + conform_pull(k) + sticky_code(k, sticky_factor, shell_half_thickness) + conform_close(k)
}

/// What a modifier compiles to: its shader source and the names of the
/// properties that the source reads.
#[derive(Debug)]
pub struct ShaderFragment {
    pub code: String,
    pub properties: Vec<String>,
}

/// Appends the local variable `name` of the modifier at place `k`.
pub(crate) fn write_local(out: &mut String, name: &str, k: usize)
    ensures
        final(out)@ == old(out)@ + local(name@, k as nat),
{
    let ghost start = out@;
    out.append(name);
    write_digits(out, k as u64);
    assert(out@ =~= start + local(name@, k as nat));
}

/// Appends the start of a statement that binds the local variable `name`.
fn write_let(out: &mut String, name: &str, k: usize)
    ensures
        final(out)@ == old(out)@ + "    let "@ + local(name@, k as nat) + " = "@,
{
    let ghost start = out@;
    out.append("    let ");
    write_local(out, name, k);
    out.append(" = ");
    assert(out@ =~= start + "    let "@ + local(name@, k as nat) + " = "@);
}

/// Appends the source that places a particle on a sphere.
fn write_position_sphere(out: &mut String, k: usize, center: &Expr, radius: &Expr)
    ensures
        final(out)@ == old(out)@ + (ModifierView::SetPositionSphere {
            center: center@,
            radius: radius@,
        }).code(k as nat),
{
    let ghost start = out@;
    write_let(out, "dir", k);
    out.append("normalize(frand3() * 2.0 - 1.0)");
    out.append(";\n");
    out.append("    particle.position = (");
    center.write(out);
    out.append(") + ");
    write_local(out, "dir", k);
    out.append(" * (");
    radius.write(out);
    out.append(");\n");
    assert(out@ =~= start + (ModifierView::SetPositionSphere {
        center: center@,
        radius: radius@,
    }).code(k as nat));
}

/// Appends the source that sends a particle away from a point.
fn write_velocity_sphere(out: &mut String, k: usize, center: &Expr, speed: &Expr)
    ensures
        final(out)@ == old(out)@ + (ModifierView::SetVelocitySphere {
            center: center@,
            speed: speed@,
        }).code(k as nat),
{
    let ghost start = out@;
    write_let(out, "out", k);
    out.append("normalize(particle.position - (");
    center.write(out);
    out.append("))");
    out.append(";\n");
    out.append("    particle.velocity = ");
    write_local(out, "out", k);
    out.append(" * (");
    speed.write(out);
    out.append(");\n");
    assert(out@ =~= start + (ModifierView::SetVelocitySphere {
        center: center@,
        speed: speed@,
    }).code(k as nat));
}

/// Appends the source that kills the particles outside a box.
fn write_kill_aabb(out: &mut String, k: usize, center: &Expr, half_size: &Expr)
    ensures
        final(out)@ == old(out)@ + (ModifierView::KillAabb {
            center: center@,
            half_size: half_size@,
        }).code(k as nat),
{
    let ghost start = out@;
    write_let(out, "rel", k);
    out.append("abs(particle.position - (");
    center.write(out);
    out.append("))");
    out.append(";\n");
    out.append("    if (any(");
    write_local(out, "rel", k);
    out.append(" > (");
    half_size.write(out);
    out.append("))) { is_alive = false; }\n");
    assert(out@ =~= start + (ModifierView::KillAabb {
        center: center@,
        half_size: half_size@,
    }).code(k as nat));
}

/// Appends the source that kills the particles inside or outside a sphere.
fn write_kill_sphere(out: &mut String, k: usize, center: &Expr, radius: &Expr, kill_inside: bool)
    ensures
        final(out)@ == old(out)@ + (ModifierView::KillSphere {
            center: center@,
            radius: radius@,
            kill_inside,
        }).code(k as nat),
{
    let ghost start = out@;
    write_let(out, "off", k);
    out.append("particle.position - (");
    center.write(out);
    out.append(")");
    out.append(";\n");
    out.append("    if (length(");
    write_local(out, "off", k);
    out.append(")");
    if kill_inside {
        out.append(" < (");
    } else {
        out.append(" >= (");
    }
    radius.write(out);
    out.append(")) { is_alive = false; }\n");
    assert(out@ =~= start + (ModifierView::KillSphere {
        center: center@,
        radius: radius@,
        kill_inside,
    }).code(k as nat));
}

/// Appends the source of the stickiness of a conforming force.
fn write_sticky(out: &mut String, k: usize, sticky_factor: &Option<Expr>, shell: &Option<Expr>)
    ensures
        final(out)@ == old(out)@ + sticky_code(
            k as nat,
            option_term(*sticky_factor),
            option_term(*shell),
        ),
{
    let ghost start = out@;
    match (sticky_factor, shell) {
        (Some(factor), Some(shell)) => {
            out.append("        if (abs(");
            write_local(out, "gap", k);
            out.append(") < (");
            shell.write(out);
            out.append(")) { ");
            write_local(out, "vel", k);
            out.append(" = ");
            write_local(out, "vel", k);
            out.append(" * max(0.0, 1.0 - (");
            factor.write(out);
            out.append(") * sim_params.delta_time); }\n");
        },
        _ => {},
    }
    assert(out@ =~= start + sticky_code(
        k as nat,
        option_term(*sticky_factor),
        option_term(*shell),
    ));
}

/// Appends the line from the particle to the origin.
fn write_conform_to(out: &mut String, k: usize, origin: &Expr)
    ensures
        final(out)@ == old(out)@ + conform_to(k as nat, origin@),
{
    let ghost start = out@;
    write_let(out, "to", k);
    out.append("(");
    origin.write(out);
    out.append(") - particle.position");
    out.append(";\n");
    assert(out@ =~= start + conform_to(k as nat, origin@));
}

/// Appends the distance of the particle from the origin.
fn write_conform_dist(out: &mut String, k: usize)
    ensures
        final(out)@ == old(out)@ + conform_dist(k as nat),
{
    let ghost start = out@;
    write_let(out, "dist", k);
    out.append("length(");
    write_local(out, "to", k);
    out.append(")");
    out.append(";\n");
    assert(out@ =~= start + conform_dist(k as nat));
}

/// Appends the test for the distance of influence.
fn write_conform_test(out: &mut String, k: usize, influence_dist: &Expr)
    ensures
        final(out)@ == old(out)@ + conform_test(k as nat, influence_dist@),
{
    let ghost start = out@;
    out.append("    if (");
    write_local(out, "dist", k);
    out.append(" > 0.0 && ");
    write_local(out, "dist", k);
    out.append(" < (");
    influence_dist.write(out);
    out.append(")) {\n");
    assert(out@ =~= start + conform_test(k as nat, influence_dist@));
}

/// Appends the distance of the particle from the surface.
fn write_conform_gap(out: &mut String, k: usize, radius: &Expr)
    ensures
        final(out)@ == old(out)@ + conform_gap(k as nat, radius@),
{
    let ghost start = out@;
    out.append("    ");
    write_let(out, "gap", k);
    write_local(out, "dist", k);
    out.append(" - (");
    radius.write(out);
    out.append(")");
    out.append(";\n");
    assert(out@ =~= start + conform_gap(k as nat, radius@));
}

/// Appends the change of speed in one tick.
fn write_conform_clamp(
    out: &mut String,
    k: usize,
    attraction_accel: &Expr,
    max_attraction_speed: &Expr,
)
    ensures
        final(out)@ == old(out)@ + conform_clamp(
            k as nat,
            attraction_accel@,
            max_attraction_speed@,
        ),
{
    let ghost start = out@;
    out.append("    ");
    write_let(out, "step", k);
    out.append("clamp((");
    attraction_accel.write(out);
    out.append(") * sim_params.delta_time, -(");
    max_attraction_speed.write(out);
    out.append("), (");
    max_attraction_speed.write(out);
    out.append("))");
    out.append(";\n");
    assert(out@ =~= start + conform_clamp(k as nat, attraction_accel@, max_attraction_speed@));
}

/// Appends the opening of a conforming force.
fn write_conform_reach(out: &mut String, k: usize, origin: &Expr, influence_dist: &Expr)
    ensures
        final(out)@ == old(out)@ + conform_reach(k as nat, origin@, influence_dist@),
{
    let ghost start = out@;
    write_conform_to(out, k, origin);
    write_conform_dist(out, k);
    write_conform_test(out, k, influence_dist);
    assert(out@ =~= start + conform_reach(k as nat, origin@, influence_dist@));
}

/// Appends the change of speed of a conforming force.
fn write_conform_step(
    out: &mut String,
    k: usize,
    radius: &Expr,
    attraction_accel: &Expr,
    max_attraction_speed: &Expr,
)
    ensures
        final(out)@ == old(out)@ + conform_step(
            k as nat,
            radius@,
            attraction_accel@,
            max_attraction_speed@,
        ),
{
    let ghost start = out@;
    write_conform_gap(out, k, radius);
    write_conform_clamp(out, k, attraction_accel, max_attraction_speed);
    assert(out@ =~= start + conform_step(
        k as nat,
        radius@,
        attraction_accel@,
        max_attraction_speed@,
    ));
}

/// Appends the new velocity under a conforming force.
fn write_conform_pull(out: &mut String, k: usize)
    ensures
        final(out)@ == old(out)@ + conform_pull(k as nat),
{
    let ghost start = out@;
    out.append("        var ");
    write_local(out, "vel", k);
    out.append(" = particle.velocity + (");
    write_local(out, "to", k);
    out.append(" / ");
    write_local(out, "dist", k);
    out.append(") * sign(");
    write_local(out, "gap", k);
    out.append(") * ");
    write_local(out, "step", k);
    out.append(";\n");
    assert(out@ =~= start + conform_pull(k as nat));
}

/// Appends the close of a conforming force.
fn write_conform_close(out: &mut String, k: usize)
    ensures
        final(out)@ == old(out)@ + conform_close(k as nat),
{
    let ghost start = out@;
    out.append("        particle.velocity = ");
    write_local(out, "vel", k);
    out.append(";\n    }\n");
    assert(out@ =~= start + conform_close(k as nat));
}

/// Appends the source of a conforming force.
fn write_conform(
    out: &mut String,
    k: usize,
    origin: &Expr,
    radius: &Expr,
    influence_dist: &Expr,
    attraction_accel: &Expr,
    max_attraction_speed: &Expr,
    sticky_factor: &Option<Expr>,
    shell: &Option<Expr>,
)
    ensures
        final(out)@ == old(out)@ + conform_code(
            k as nat,
            origin@,
            radius@,
            influence_dist@,
            attraction_accel@,
            max_attraction_speed@,
            option_term(*sticky_factor),
            option_term(*shell),
        ),
{
    let ghost start = out@;
    write_conform_reach(out, k, origin, influence_dist);
    write_conform_step(out, k, radius, attraction_accel, max_attraction_speed);
    write_conform_pull(out, k);
    write_sticky(out, k, sticky_factor, shell);
    write_conform_close(out, k);
    assert(out@ =~= start + conform_code(
        k as nat,
        origin@,
        radius@,
        influence_dist@,
        attraction_accel@,
        max_attraction_speed@,
        option_term(*sticky_factor),
        option_term(*shell),
    ));
}

/// Appends the source that sets an attribute from the particle's age.
fn write_over_lifetime(out: &mut String, k: usize, gradient: &Gradient, name: &str)
    ensures
        final(out)@ == old(out)@ + over_lifetime_code(gradient@, name@, k as nat),
{
    let ghost start = out@;
    if gradient.len() > 0 {
        gradient.write_code(out, name, k);
        out.append("    particle.");
        out.append(name);
        out.append(" = ");
        write_local(out, name, k);
        out.append(";\n");
    }
    assert(out@ =~= start + over_lifetime_code(gradient@, name@, k as nat));
}

/// Whether an optional expression, where there is one, is a single number.
fn fits_if_given(expr: &Option<Expr>) -> (fits: bool)
    ensures
        fits == fits_if_any(option_term(*expr)),
{
    match expr {
        Some(expr) => expr.has_type(ValueType::Float),
        None => true,
    }
}

/// Whether an optional expression, where there is one, agrees with
/// `module`.
fn agrees_if_given(expr: &Option<Expr>, module: &Module) -> (agrees: bool)
    ensures
        agrees == agrees_if_any(option_term(*expr), module@),
{
    match expr {
        Some(expr) => expr.agrees_with(module),
        None => true,
    }
}

/// Appends the names that an optional expression reads.
fn collect_if_given(expr: &Option<Expr>, names: &mut Vec<String>)
    ensures
        final(names).deep_view() == old(names).deep_view() + reads_if_any(option_term(*expr)),
{
    let ghost start = names.deep_view();
    match expr {
        Some(expr) => {
            expr.collect_reads(names);
        },
        None => {},
    }
    assert(names.deep_view() =~= start + reads_if_any(option_term(*expr)));
}

impl Modifier {
    /// The stage that the modifier belongs to.
    pub fn stage(&self) -> (stage: Stage)
        ensures
            stage == self@.stage(),
    {
        match self {
            Modifier::SetPositionSphere { .. } => Stage::Init,
            Modifier::SetVelocitySphere { .. } => Stage::Init,
            Modifier::ConformToSphere { .. } => Stage::Update,
            Modifier::KillAabb { .. } => Stage::Update,
            Modifier::KillSphere { .. } => Stage::Update,
            Modifier::SizeOverLifetime { .. } => Stage::Render,
            Modifier::ColorOverLifetime { .. } => Stage::Render,
        }
    }

    /// Whether each expression of the modifier has the type of its role.
    pub fn is_well_typed(&self) -> (well: bool)
        ensures
            well == self@.well_typed(),
    {
        match self {
            Modifier::SetPositionSphere { center, radius } => center.has_type(ValueType::Vec3)
                && radius.has_type(ValueType::Float),
            Modifier::SetVelocitySphere { center, speed } => center.has_type(ValueType::Vec3)
                && speed.has_type(ValueType::Float),
            Modifier::ConformToSphere {
                origin,
                radius,
                influence_dist,
                attraction_accel,
                max_attraction_speed,
                sticky_factor,
                shell_half_thickness,
            } => origin.has_type(ValueType::Vec3) && radius.has_type(ValueType::Float)
                && influence_dist.has_type(ValueType::Float) && attraction_accel.has_type(
                ValueType::Float,
            ) && max_attraction_speed.has_type(ValueType::Float) && fits_if_given(sticky_factor)
                && fits_if_given(shell_half_thickness),
            Modifier::KillAabb { center, half_size } => center.has_type(ValueType::Vec3)
                && half_size.has_type(ValueType::Vec3),
            Modifier::KillSphere { center, radius, .. } => center.has_type(ValueType::Vec3)
                && radius.has_type(ValueType::Float),
            Modifier::SizeOverLifetime { gradient } => gradient.value_type() == ValueType::Vec3,
            Modifier::ColorOverLifetime { gradient } => gradient.value_type() == ValueType::Vec4,
        }
    }

    /// Whether the modifier reads each property that `module` declares at
    /// the type that the module gives it.
    pub fn agrees_with(&self, module: &Module) -> (agrees: bool)
        ensures
            agrees == self@.agrees(module@),
    {
        match self {
            Modifier::SetPositionSphere { center, radius } => center.agrees_with(module)
                && radius.agrees_with(module),
            Modifier::SetVelocitySphere { center, speed } => center.agrees_with(module)
                && speed.agrees_with(module),
            Modifier::ConformToSphere {
                origin,
                radius,
                influence_dist,
                attraction_accel,
                max_attraction_speed,
                sticky_factor,
                shell_half_thickness,
            } => origin.agrees_with(module) && radius.agrees_with(module)
                && influence_dist.agrees_with(module) && attraction_accel.agrees_with(module)
                && max_attraction_speed.agrees_with(module) && agrees_if_given(
                sticky_factor,
                module,
            ) && agrees_if_given(shell_half_thickness, module),
            Modifier::KillAabb { center, half_size } => center.agrees_with(module)
                && half_size.agrees_with(module),
            Modifier::KillSphere { center, radius, .. } => center.agrees_with(module)
                && radius.agrees_with(module),
            Modifier::SizeOverLifetime { .. } => true,
            Modifier::ColorOverLifetime { .. } => true,
        }
    }

    /// Appends to `names` the names of the properties that the modifier
    /// reads.
    pub fn collect_reads(&self, names: &mut Vec<String>)
        ensures
            final(names).deep_view() == old(names).deep_view() + self@.reads(),
    {
        let ghost start = names.deep_view();
        match self {
            Modifier::SetPositionSphere { center, radius } => {
                center.collect_reads(names);
                radius.collect_reads(names);
            },
            Modifier::SetVelocitySphere { center, speed } => {
                center.collect_reads(names);
                speed.collect_reads(names);
            },
            Modifier::ConformToSphere {
                origin,
                radius,
                influence_dist,
                attraction_accel,
                max_attraction_speed,
                sticky_factor,
                shell_half_thickness,
            } => {
                origin.collect_reads(names);
                radius.collect_reads(names);
                influence_dist.collect_reads(names);
                let ghost first = origin@.reads() + radius@.reads() + influence_dist@.reads();
                assert(names.deep_view() =~= start + first);
                attraction_accel.collect_reads(names);
                max_attraction_speed.collect_reads(names);
                let ghost second = first + attraction_accel@.reads() + max_attraction_speed@.reads();
                assert(names.deep_view() =~= start + second);
                collect_if_given(sticky_factor, names);
                collect_if_given(shell_half_thickness, names);
                assert(names.deep_view() =~= start + (second + reads_if_any(
                    option_term(*sticky_factor),
                ) + reads_if_any(option_term(*shell_half_thickness))));
            },
            Modifier::KillAabb { center, half_size } => {
                center.collect_reads(names);
                half_size.collect_reads(names);
            },
            Modifier::KillSphere { center, radius, .. } => {
                center.collect_reads(names);
                radius.collect_reads(names);
            },
            Modifier::SizeOverLifetime { .. } => {},
            Modifier::ColorOverLifetime { .. } => {},
        }
        assert(names.deep_view() =~= start + self@.reads());
    }

    /// Appends the shader source of the modifier at place `k` to `out`.
    pub fn write_code(&self, out: &mut String, k: usize)
        ensures
            final(out)@ == old(out)@ + self@.code(k as nat),
    {
        match self {
            Modifier::SetPositionSphere { center, radius } => {
                write_position_sphere(out, k, center, radius);
            },
            Modifier::SetVelocitySphere { center, speed } => {
                write_velocity_sphere(out, k, center, speed);
            },
            Modifier::ConformToSphere {
                origin,
                radius,
                influence_dist,
                attraction_accel,
                max_attraction_speed,
                sticky_factor,
                shell_half_thickness,
            } => {
                write_conform(
                    out,
                    k,
                    origin,
                    radius,
                    influence_dist,
                    attraction_accel,
                    max_attraction_speed,
                    sticky_factor,
                    shell_half_thickness,
                );
            },
            Modifier::KillAabb { center, half_size } => {
                write_kill_aabb(out, k, center, half_size);
            },
            Modifier::KillSphere { center, radius, kill_inside } => {
                write_kill_sphere(out, k, center, radius, *kill_inside);
            },
            Modifier::SizeOverLifetime { gradient } => {
                write_over_lifetime(out, k, gradient, "size");
            },
            Modifier::ColorOverLifetime { gradient } => {
                write_over_lifetime(out, k, gradient, "color");
            },
        }
    }

    /// Compiles the modifier at place `k` of its effect to a fragment of
    /// shader source.
    ///
    /// Fails with `TypeMismatch` exactly when an expression of the modifier
    /// does not have the type of its role.
    pub fn compile(&self, k: usize) -> (compiled: Result<ShaderFragment, ExprError>)
        ensures
            self@.well_typed() ==> compiled.is_ok() && compiled.unwrap().code@ == self@.code(
                k as nat,
            ) && compiled.unwrap().properties.deep_view() == self@.reads(),
            !self@.well_typed() ==> compiled == Err::<ShaderFragment, ExprError>(
                ExprError::TypeMismatch,
            ),
    {
        if !self.is_well_typed() {
            return Err(ExprError::TypeMismatch);
        }
        let mut code = String::new();
        self.write_code(&mut code, k);
        let mut properties: Vec<String> = Vec::new();
        self.collect_reads(&mut properties);
        assert(code@ =~= self@.code(k as nat));
        assert(properties.deep_view() =~= self@.reads());
        Ok(ShaderFragment { code, properties })
    }
}

} // verus!
