use bevy::app::App;
use bevy::asset::{AddAsset, AssetPlugin, Assets, Handle};
use bevy::render::render_resource::Shader;
use particle_effects::{
    EffectAsset, Expr, ExprError, Lookup, Modifier, Module, Number, ShaderCache, ShaderHandle,
    Spawner, Value,
};

fn app_with_shaders() -> App {
    let mut app = App::new();
    app.add_plugin(AssetPlugin::default());
    app.add_asset::<Shader>();
    app
}

fn shader_of(cache: &mut ShaderCache, source: &str, shaders: &mut Assets<Shader>) -> Handle<Shader> {
    let shader = match cache.lookup(source) {
        Lookup::Cached(handle) => return handle.handle.clone(),
        Lookup::Create(shader) => shader,
    };
    let handle = shaders.add(shader);
    cache.get_or_insert(source, Ok(ShaderHandle { handle })).unwrap().handle.clone()
}

/// The shaders of the three stages of `effect`, or what is wrong with it.
fn bake(
    effect: &EffectAsset,
    cache: &mut ShaderCache,
    shaders: &mut Assets<Shader>,
) -> Result<[Handle<Shader>; 3], ExprError> {
    let compiled = effect.compile()?;
    Ok([
        shader_of(cache, &compiled.init_source, shaders),
        shader_of(cache, &compiled.update_source, shaders),
        shader_of(cache, &compiled.render_source, shaders),
    ])
}

fn lit(micros: i64) -> Expr {
    Expr::literal(Value::Float(Number { micros }))
}

fn origin() -> Expr {
    let zero = Number { micros: 0 };
    Expr::literal(Value::Vec3(zero, zero, zero))
}

fn burst(radius: i64) -> EffectAsset {
    EffectAsset::new(1024, Spawner::once(30, false), Module::new())
        .with_modifier(Modifier::SetPositionSphere { center: origin(), radius: lit(50_000) })
        .with_modifier(Modifier::KillSphere { center: origin(), radius: lit(radius), kill_inside: false })
}

#[test]
fn effect_gets_one_shader_for_each_stage() {
    let mut app = app_with_shaders();
    let mut cache = ShaderCache::new();
    let effect = burst(3_000_000);
    let compiled = effect.compile().unwrap();
    let mut shaders = app.world.resource_mut::<Assets<Shader>>();
    let [init, update, render] = bake(&effect, &mut cache, &mut shaders).unwrap();
    assert_eq!(shaders.len(), 3);
    assert_ne!(init, update);
    assert_ne!(update, render);
    assert_ne!(init, render);
    assert_eq!(cache.get(&compiled.init_source).unwrap().handle, init);
    assert_eq!(cache.get(&compiled.update_source).unwrap().handle, update);
    assert_eq!(cache.get(&compiled.render_source).unwrap().handle, render);
    let printed = format!("{:?}", shaders.get(&update).unwrap());
    let expected = format!(
        "Shader {{ source: Wgsl({:?}), import_path: None, imports: [] }}",
        compiled.update_source
    );
    assert_eq!(printed, expected);
}

#[test]
fn instances_of_one_effect_share_their_shaders() {
    let mut app = app_with_shaders();
    let mut cache = ShaderCache::new();
    let mut shaders = app.world.resource_mut::<Assets<Shader>>();
    let first = bake(&burst(3_000_000), &mut cache, &mut shaders).unwrap();
    let second = bake(&burst(3_000_000), &mut cache, &mut shaders).unwrap();
    assert_eq!(shaders.len(), 3);
    assert_eq!(first, second);
}

#[test]
fn effects_share_the_stages_that_are_equal() {
    let mut app = app_with_shaders();
    let mut cache = ShaderCache::new();
    let mut shaders = app.world.resource_mut::<Assets<Shader>>();
    let near = bake(&burst(3_000_000), &mut cache, &mut shaders).unwrap();
    let far = bake(&burst(9_000_000), &mut cache, &mut shaders).unwrap();
    assert_eq!(near[0], far[0]);
    assert_ne!(near[1], far[1]);
    assert_eq!(near[2], far[2]);
    assert_eq!(shaders.len(), 4);
}

#[test]
fn effect_that_does_not_compile_caches_nothing() {
    let mut app = app_with_shaders();
    let mut cache = ShaderCache::new();
    let broken = burst(3_000_000)
        .with_modifier(Modifier::KillAabb { center: origin(), half_size: lit(1_000_000) });
    let good = burst(3_000_000).compile().unwrap();
    let mut shaders = app.world.resource_mut::<Assets<Shader>>();
    let baked = bake(&broken, &mut cache, &mut shaders);
    assert_eq!(baked, Err(ExprError::TypeMismatch));
    assert_eq!(shaders.len(), 0);
    assert!(cache.get(&good.init_source).is_none());
    assert!(cache.get(&good.render_source).is_none());
    let mut other = Module::new();
    other.add_property("reach", Value::Float(Number { micros: 1 })).unwrap();
    let undeclared = burst(3_000_000).with_modifier(Modifier::KillSphere {
        center: origin(),
        radius: other.property("reach").unwrap(),
        kill_inside: true,
    });
    let baked = bake(&undeclared, &mut cache, &mut shaders);
    assert_eq!(baked, Err(ExprError::UndeclaredProperty));
    assert_eq!(shaders.len(), 0);
    assert!(cache.get(&good.init_source).is_none());
}

#[test]
fn setting_a_property_leaves_the_shaders_alone() {
    let mut app = app_with_shaders();
    let mut cache = ShaderCache::new();
    let mut module = Module::new();
    module.add_property("reach", Value::Float(Number { micros: 600_000 })).unwrap();
    let reach = module.property("reach").unwrap();
    let effect = EffectAsset::new(64, Spawner::rate(5_000_000, true), module)
        .with_modifier(Modifier::KillSphere { center: origin(), radius: reach, kill_inside: true });
    let mut shaders = app.world.resource_mut::<Assets<Shader>>();
    let before = bake(&effect, &mut cache, &mut shaders).unwrap();
    let mut properties = particle_effects::EffectProperties::new(effect.module());
    properties.set_property("reach", Value::Float(Number { micros: 2_000_000 })).unwrap();
    let after = bake(&effect, &mut cache, &mut shaders).unwrap();
    assert_eq!(before, after);
    assert_eq!(shaders.len(), 3);
}
