use particle_effects::{
    BinaryOperator, EffectAsset, Expr, ExprError, Gradient, GradientKey, Modifier, Module, Number,
    Spawner, Stage, Value, ValueType,
};

fn number(micros: i64) -> Number {
    Number { micros }
}

fn float(micros: i64) -> Expr {
    Expr::literal(Value::Float(number(micros)))
}

fn vec3(x: i64, y: i64, z: i64) -> Expr {
    Expr::literal(Value::Vec3(number(x), number(y), number(z)))
}

fn kill_sphere(kill_inside: bool) -> Modifier {
    Modifier::KillSphere {
        center: vec3(-2_000_000, 1_000_000, 0),
        radius: float(600_000),
        kill_inside,
    }
}

#[test]
fn kill_sphere_tests_the_inside_or_the_rest() {
    let inside = kill_sphere(true).compile(3).unwrap();
    assert_eq!(
        inside.code,
        "    let off3 = particle.position - (vec3<f32>(-2.0,1.0,0.0));\n\
         \x20   if (length(off3) < (0.6)) { is_alive = false; }\n"
    );
    assert!(inside.properties.is_empty());
    let outside = kill_sphere(false).compile(3).unwrap();
    assert_eq!(
        outside.code,
        "    let off3 = particle.position - (vec3<f32>(-2.0,1.0,0.0));\n\
         \x20   if (length(off3) >= (0.6)) { is_alive = false; }\n"
    );
    assert_eq!(kill_sphere(true).stage(), Stage::Update);
}

#[test]
fn kill_aabb_kills_what_leaves_the_box() {
    let zone = Modifier::KillAabb {
        center: vec3(0, 0, 0),
        half_size: vec3(3_000_000, 2_000_000, 3_000_000),
    };
    assert_eq!(
        zone.compile(0).unwrap().code,
        "    let rel0 = abs(particle.position - (vec3<f32>(0.0,0.0,0.0)));\n\
         \x20   if (any(rel0 > (vec3<f32>(3.0,2.0,3.0)))) { is_alive = false; }\n"
    );
}

#[test]
fn init_modifiers_place_and_send_a_particle() {
    let place = Modifier::SetPositionSphere { center: vec3(0, 0, 0), radius: float(50_000) };
    assert_eq!(place.stage(), Stage::Init);
    assert_eq!(
        place.compile(12).unwrap().code,
        "    let dir12 = normalize(frand3() * 2.0 - 1.0);\n\
         \x20   particle.position = (vec3<f32>(0.0,0.0,0.0)) + dir12 * (0.05);\n"
    );
    let speed = Expr::binary_op(
        BinaryOperator::Add,
        Expr::binary_op(BinaryOperator::Mul, Expr::random(ValueType::Float), float(200_000))
            .unwrap(),
        float(100_000),
    )
    .unwrap();
    let send = Modifier::SetVelocitySphere { center: vec3(0, 0, 0), speed };
    assert_eq!(
        send.compile(1).unwrap().code,
        "    let out1 = normalize(particle.position - (vec3<f32>(0.0,0.0,0.0)));\n\
         \x20   particle.velocity = out1 * (((frand()) * (0.2)) + (0.1));\n"
    );
}

fn force_module() -> Module {
    let mut module = Module::new();
    module.add_property("attraction_accel", Value::Float(number(20_000_000))).unwrap();
    module.add_property("max_attraction_speed", Value::Float(number(5_000_000))).unwrap();
    module.add_property("sticky_factor", Value::Float(number(2_000_000))).unwrap();
    module.add_property("shell_half_thickness", Value::Float(number(100_000))).unwrap();
    module.add_property("unused", Value::Vec2(number(0), number(0))).unwrap();
    module
}

fn attractor(module: &Module, sticky: bool) -> Modifier {
    Modifier::ConformToSphere {
        origin: vec3(10_000, 0, 0),
        radius: float(300_000),
        influence_dist: float(5_000_000),
        attraction_accel: module.property("attraction_accel").unwrap(),
        max_attraction_speed: module.property("max_attraction_speed").unwrap(),
        sticky_factor: if sticky { Some(module.property("sticky_factor").unwrap()) } else { None },
        shell_half_thickness: if sticky {
            Some(module.property("shell_half_thickness").unwrap())
        } else {
            None
        },
    }
}

const PLAIN_FORCE: &str = "    let to2 = (vec3<f32>(0.01,0.0,0.0)) - particle.position;\n\
\x20   let dist2 = length(to2);\n\
\x20   if (dist2 > 0.0 && dist2 < (5.0)) {\n\
\x20       let gap2 = dist2 - (0.3);\n\
\x20       let step2 = clamp((properties.attraction_accel) * sim_params.delta_time, -(properties.max_attraction_speed), (properties.max_attraction_speed));\n\
\x20       var vel2 = particle.velocity + (to2 / dist2) * sign(gap2) * step2;\n\
\x20       particle.velocity = vel2;\n\
\x20   }\n";

const STICKY_FORCE: &str = "    let to2 = (vec3<f32>(0.01,0.0,0.0)) - particle.position;\n\
\x20   let dist2 = length(to2);\n\
\x20   if (dist2 > 0.0 && dist2 < (5.0)) {\n\
\x20       let gap2 = dist2 - (0.3);\n\
\x20       let step2 = clamp((properties.attraction_accel) * sim_params.delta_time, -(properties.max_attraction_speed), (properties.max_attraction_speed));\n\
\x20       var vel2 = particle.velocity + (to2 / dist2) * sign(gap2) * step2;\n\
\x20       if (abs(gap2) < (properties.shell_half_thickness)) { vel2 = vel2 * max(0.0, 1.0 - (properties.sticky_factor) * sim_params.delta_time); }\n\
\x20       particle.velocity = vel2;\n\
\x20   }\n";

#[test]
fn conform_to_sphere_pulls_within_its_reach() {
    let module = force_module();
    let plain = attractor(&module, false).compile(2).unwrap();
    assert_eq!(plain.code, PLAIN_FORCE);
    assert_eq!(plain.properties, vec!["attraction_accel", "max_attraction_speed"]);
    let sticky = attractor(&module, true).compile(2).unwrap();
    assert_eq!(sticky.code, STICKY_FORCE);
    assert_eq!(
        sticky.properties,
        vec!["attraction_accel", "max_attraction_speed", "sticky_factor", "shell_half_thickness"]
    );
}

#[test]
fn stickiness_needs_both_the_factor_and_the_shell() {
    let module = force_module();
    let half = Modifier::ConformToSphere {
        origin: vec3(10_000, 0, 0),
        radius: float(300_000),
        influence_dist: float(5_000_000),
        attraction_accel: module.property("attraction_accel").unwrap(),
        max_attraction_speed: module.property("max_attraction_speed").unwrap(),
        sticky_factor: Some(float(2_000_000)),
        shell_half_thickness: None,
    };
    assert_eq!(half.compile(2).unwrap().code, PLAIN_FORCE);
}

#[test]
fn modifiers_check_the_types_of_their_roles() {
    let wrong_center = Modifier::KillSphere {
        center: float(0),
        radius: float(600_000),
        kill_inside: true,
    };
    assert!(!wrong_center.is_well_typed());
    assert!(matches!(wrong_center.compile(0), Err(ExprError::TypeMismatch)));
    let wrong_radius = Modifier::KillSphere {
        center: vec3(0, 0, 0),
        radius: vec3(0, 0, 0),
        kill_inside: false,
    };
    assert!(matches!(wrong_radius.compile(0), Err(ExprError::TypeMismatch)));
    let wrong_option = Modifier::ConformToSphere {
        origin: vec3(0, 0, 0),
        radius: float(1),
        influence_dist: float(1),
        attraction_accel: float(1),
        max_attraction_speed: float(1),
        sticky_factor: Some(vec3(0, 0, 0)),
        shell_half_thickness: None,
    };
    assert!(matches!(wrong_option.compile(0), Err(ExprError::TypeMismatch)));
    assert!(kill_sphere(true).is_well_typed());
}

#[test]
fn gradient_keeps_its_keys_in_order() {
    let mut gradient = Gradient::new(ValueType::Vec4);
    assert_eq!(gradient.len(), 0);
    assert_eq!(gradient.value_type(), ValueType::Vec4);
    let clear = Value::Vec4(number(0), number(1_000_000), number(1_000_000), number(0));
    let solid = Value::Vec4(number(0), number(1_000_000), number(1_000_000), number(1_000_000));
    let half = Value::Vec4(number(500_000), number(0), number(0), number(500_000));
    assert_eq!(gradient.add_key(number(1_000_000), clear), Ok(()));
    assert_eq!(gradient.add_key(number(0), solid), Ok(()));
    assert_eq!(gradient.add_key(number(500_000), half), Ok(()));
    assert_eq!(gradient.len(), 3);
    assert_eq!(gradient.key(0), Some(GradientKey { ratio: number(0), value: solid }));
    assert_eq!(gradient.key(1), Some(GradientKey { ratio: number(500_000), value: half }));
    assert_eq!(gradient.key(2), Some(GradientKey { ratio: number(1_000_000), value: clear }));
    assert_eq!(gradient.key(3), None);
    // a key at a ratio in use takes the place of the old one
    assert_eq!(gradient.add_key(number(500_000), clear), Ok(()));
    assert_eq!(gradient.len(), 3);
    assert_eq!(gradient.key(1), Some(GradientKey { ratio: number(500_000), value: clear }));
    // a value of another type is refused
    let wrong = gradient.add_key(number(250_000), Value::Float(number(1)));
    assert_eq!(wrong, Err(ExprError::TypeMismatch));
    assert_eq!(gradient.len(), 3);
}

#[test]
fn gradients_render_one_step_for_each_pair_of_keys() {
    let size = Value::Vec3(number(50_000), number(50_000), number(50_000));
    let constant = Modifier::SizeOverLifetime { gradient: Gradient::constant(size) };
    assert_eq!(constant.stage(), Stage::Render);
    assert_eq!(
        constant.compile(4).unwrap().code,
        "    let age4 = particle.age / particle.lifetime;\n\
         \x20   var size4 = vec3<f32>(0.05,0.05,0.05);\n\
         \x20   particle.size = size4;\n"
    );
    let mut fade = Gradient::new(ValueType::Vec4);
    fade.add_key(number(0), Value::Vec4(number(0), number(1_000_000), number(1_000_000), number(1_000_000)))
        .unwrap();
    fade.add_key(number(1_000_000), Value::Vec4(number(0), number(1_000_000), number(1_000_000), number(0)))
        .unwrap();
    let color = Modifier::ColorOverLifetime { gradient: fade };
    assert_eq!(
        color.compile(5).unwrap().code,
        "    let age5 = particle.age / particle.lifetime;\n\
         \x20   var color5 = vec4<f32>(0.0,1.0,1.0,1.0);\n\
         \x20   if (age5 > 0.0) { color5 = mix(vec4<f32>(0.0,1.0,1.0,1.0), vec4<f32>(0.0,1.0,1.0,0.0), clamp((age5 - (0.0)) / (1.0 - (0.0)), 0.0, 1.0)); }\n\
         \x20   particle.color = color5;\n"
    );
    let empty = Modifier::SizeOverLifetime { gradient: Gradient::new(ValueType::Vec3) };
    assert_eq!(empty.compile(0).unwrap().code, "");
    let wrong = Modifier::SizeOverLifetime { gradient: Gradient::new(ValueType::Vec4) };
    assert!(matches!(wrong.compile(0), Err(ExprError::TypeMismatch)));
    let wrong = Modifier::ColorOverLifetime { gradient: Gradient::constant(size) };
    assert!(matches!(wrong.compile(0), Err(ExprError::TypeMismatch)));
}

fn force_field() -> EffectAsset {
    let module = force_module();
    let pull = attractor(&module, true);
    let push = Modifier::ConformToSphere {
        origin: vec3(300_000, 500_000, 0),
        radius: float(50_000),
        influence_dist: float(500_000),
        attraction_accel: Expr::binary_op(
            BinaryOperator::Sub,
            float(0),
            module.property("attraction_accel").unwrap(),
        )
        .unwrap(),
        max_attraction_speed: float(10_000_000),
        sticky_factor: None,
        shell_half_thickness: None,
    };
    EffectAsset::new(32768, Spawner::once(30, false), module)
        .with_modifier(Modifier::SetPositionSphere { center: vec3(0, 0, 0), radius: float(50_000) })
        .with_modifier(kill_sphere(true))
        .with_modifier(pull)
        .with_modifier(Modifier::SizeOverLifetime {
            gradient: Gradient::constant(Value::Vec3(number(50_000), number(50_000), number(50_000))),
        })
        .with_modifier(push)
}

const BLOCK: &str = "struct Properties {\n\
\x20   attraction_accel: f32,\n\
\x20   max_attraction_speed: f32,\n\
\x20   sticky_factor: f32,\n\
\x20   shell_half_thickness: f32,\n\
}\n\
@group(1) @binding(0) var<uniform> properties: Properties;\n";

#[test]
fn compile_declares_each_property_once_and_keeps_the_order_of_modifiers() {
    let effect = force_field();
    assert_eq!(effect.capacity(), 32768);
    assert_eq!(effect.modifier_count(), 5);
    let compiled = effect.compile().unwrap();
    assert_eq!(
        compiled.declared_properties,
        vec!["attraction_accel", "max_attraction_speed", "sticky_factor", "shell_half_thickness"]
    );
    let init = format!(
        "{}fn init(seed: Particle) -> Particle {{\n    var particle = seed;\n{}    return particle;\n}}\n",
        BLOCK,
        "    let dir0 = normalize(frand3() * 2.0 - 1.0);\n    particle.position = (vec3<f32>(0.0,0.0,0.0)) + dir0 * (0.05);\n"
    );
    assert_eq!(compiled.init_source, init);
    let push = "    let to4 = (vec3<f32>(0.3,0.5,0.0)) - particle.position;\n\
\x20   let dist4 = length(to4);\n\
\x20   if (dist4 > 0.0 && dist4 < (0.5)) {\n\
\x20       let gap4 = dist4 - (0.05);\n\
\x20       let step4 = clamp(((0.0) - (properties.attraction_accel)) * sim_params.delta_time, -(10.0), (10.0));\n\
\x20       var vel4 = particle.velocity + (to4 / dist4) * sign(gap4) * step4;\n\
\x20       particle.velocity = vel4;\n\
\x20   }\n";
    let update = format!(
        "{}fn update(last: Particle) -> ParticleState {{\n    var particle = last;\n    var is_alive = true;\n{}{}{}    return ParticleState(particle, is_alive);\n}}\n",
        BLOCK,
        "    let off1 = particle.position - (vec3<f32>(-2.0,1.0,0.0));\n    if (length(off1) < (0.6)) { is_alive = false; }\n",
        STICKY_FORCE,
        push
    );
    assert_eq!(compiled.update_source, update);
    let render = format!(
        "{}fn render(drawn: Particle) -> Particle {{\n    var particle = drawn;\n{}    return particle;\n}}\n",
        BLOCK,
        "    let age3 = particle.age / particle.lifetime;\n    var size3 = vec3<f32>(0.05,0.05,0.05);\n    particle.size = size3;\n"
    );
    assert_eq!(compiled.render_source, render);
}

#[test]
fn compile_gives_the_same_text_each_time() {
    let first = force_field().compile().unwrap();
    let second = force_field().compile().unwrap();
    assert_eq!(first.init_source, second.init_source);
    assert_eq!(first.update_source, second.update_source);
    assert_eq!(first.render_source, second.render_source);
    let effect = force_field();
    let again = effect.compile().unwrap();
    let and_again = effect.compile().unwrap();
    assert_eq!(again.update_source, and_again.update_source);
    assert_eq!(again.declared_properties, and_again.declared_properties);
}

#[test]
fn effect_without_properties_has_no_block() {
    let effect = EffectAsset::new(16, Spawner::rate(5_000_000, true), Module::new())
        .with_modifier(kill_sphere(false));
    let compiled = effect.compile().unwrap();
    assert!(compiled.declared_properties.is_empty());
    assert_eq!(
        compiled.init_source,
        "fn init(seed: Particle) -> Particle {\n    var particle = seed;\n    return particle;\n}\n"
    );
    assert_eq!(
        compiled.update_source,
        "fn update(last: Particle) -> ParticleState {\n    var particle = last;\n    var is_alive = true;\n    let off0 = particle.position - (vec3<f32>(-2.0,1.0,0.0));\n    if (length(off0) >= (0.6)) { is_alive = false; }\n    return ParticleState(particle, is_alive);\n}\n"
    );
    assert_eq!(
        compiled.render_source,
        "fn render(drawn: Particle) -> Particle {\n    var particle = drawn;\n    return particle;\n}\n"
    );
    let empty = EffectAsset::new(0, Spawner::once(0, false), Module::new());
    assert_eq!(empty.modifier_count(), 0);
    assert!(empty.compile().is_ok());
}

#[test]
fn compile_fails_on_a_property_of_another_module() {
    let other = force_module();
    let effect = EffectAsset::new(16, Spawner::once(1, true), Module::new())
        .with_modifier(kill_sphere(true))
        .with_modifier(attractor(&other, false));
    assert!(matches!(effect.compile(), Err(ExprError::UndeclaredProperty)));
}

#[test]
fn compile_fails_on_an_ill_typed_modifier() {
    let other = force_module();
    let effect = EffectAsset::new(16, Spawner::once(1, true), Module::new())
        .with_modifier(attractor(&other, false))
        .with_modifier(Modifier::KillAabb { center: vec3(0, 0, 0), half_size: float(1_000_000) });
    // both faults are there; the type is reported
    assert!(matches!(effect.compile(), Err(ExprError::TypeMismatch)));
}

#[test]
fn later_modifier_follows_earlier_one_in_the_stage() {
    let effect = EffectAsset::new(16, Spawner::once(1, true), Module::new())
        .with_modifier(kill_sphere(true))
        .with_modifier(kill_sphere(false));
    let source = effect.compile().unwrap().update_source;
    let first = source.find("off0").unwrap();
    let second = source.find("off1").unwrap();
    assert!(first < second);
    let swapped = EffectAsset::new(16, Spawner::once(1, true), Module::new())
        .with_modifier(kill_sphere(false))
        .with_modifier(kill_sphere(true));
    assert_ne!(swapped.compile().unwrap().update_source, source);
}

#[test]
fn compile_fails_on_a_property_read_at_another_type() {
    let mut theirs = Module::new();
    theirs
        .add_property("reach", Value::Vec3(number(1_000_000), number(1_000_000), number(1_000_000)))
        .unwrap();
    let mut ours = Module::new();
    ours.add_property("reach", Value::Float(number(1_000_000))).unwrap();
    let zone = Modifier::KillAabb {
        center: vec3(0, 0, 0),
        half_size: theirs.property("reach").unwrap(),
    };
    assert!(zone.is_well_typed());
    assert!(zone.agrees_with(&theirs));
    assert!(!zone.agrees_with(&ours));
    assert!(zone.agrees_with(&Module::new()));
    let effect = EffectAsset::new(16, Spawner::once(1, true), ours).with_modifier(zone);
    assert!(matches!(effect.compile(), Err(ExprError::TypeMismatch)));
    let zone = Modifier::KillAabb {
        center: vec3(0, 0, 0),
        half_size: theirs.property("reach").unwrap(),
    };
    let effect = EffectAsset::new(16, Spawner::once(1, true), theirs).with_modifier(zone);
    let compiled = effect.compile().unwrap();
    assert_eq!(compiled.declared_properties, vec!["reach"]);
    assert!(compiled.update_source.starts_with(
        "struct Properties {\n    reach: vec3<f32>,\n}\n@group(1) @binding(0) var<uniform> properties: Properties;\nfn update("
    ));
    assert_eq!(effect.module().len(), 1);
    assert!(effect.spawner().is_active());
}
