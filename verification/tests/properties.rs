use particle_effects::{EffectProperties, ExprError, Module, Number, Value};

fn micros(micros: i64) -> Number {
    Number { micros }
}

fn repulsor_module() -> Module {
    let mut module = Module::new();
    module.add_property("repulsor_accel", Value::Float(micros(-15_000_000))).unwrap();
    module
        .add_property(
            "repulsor_position",
            Value::Vec3(micros(300_000), micros(500_000), micros(0)),
        )
        .unwrap();
    module
}

#[test]
fn instance_starts_at_the_declared_values() {
    let properties = EffectProperties::new(&repulsor_module());
    assert_eq!(properties.len(), 2);
    assert_eq!(properties.get("repulsor_accel"), Some(Value::Float(micros(-15_000_000))));
    assert_eq!(
        properties.get("repulsor_position"),
        Some(Value::Vec3(micros(300_000), micros(500_000), micros(0)))
    );
    assert_eq!(properties.get("attraction_accel"), None);
    let none = EffectProperties::new(&Module::new());
    assert_eq!(none.len(), 0);
    assert_eq!(none.get("repulsor_accel"), None);
}

#[test]
fn set_property_changes_one_value() {
    let mut properties = EffectProperties::new(&repulsor_module());
    let moved = Value::Vec3(micros(300_000), micros(1_341_471), micros(0));
    assert_eq!(properties.set_property("repulsor_position", moved), Ok(()));
    assert_eq!(properties.get("repulsor_position"), Some(moved));
    assert_eq!(properties.get("repulsor_accel"), Some(Value::Float(micros(-15_000_000))));
    assert_eq!(properties.len(), 2);
    assert_eq!(properties.set_property("repulsor_accel", Value::Float(micros(0))), Ok(()));
    assert_eq!(properties.get("repulsor_accel"), Some(Value::Float(micros(0))));
    assert_eq!(properties.get("repulsor_position"), Some(moved));
}

#[test]
fn set_property_refuses_unknown_names_and_other_types() {
    let mut properties = EffectProperties::new(&repulsor_module());
    let unknown = properties.set_property("attraction_accel", Value::Float(micros(1)));
    assert_eq!(unknown, Err(ExprError::UndeclaredProperty));
    let unknown = properties.set_property("", Value::Vec3(micros(0), micros(0), micros(0)));
    assert_eq!(unknown, Err(ExprError::UndeclaredProperty));
    let wrong = properties.set_property("repulsor_accel", Value::Vec2(micros(0), micros(0)));
    assert_eq!(wrong, Err(ExprError::TypeMismatch));
    let wrong = properties.set_property("repulsor_position", Value::Float(micros(0)));
    assert_eq!(wrong, Err(ExprError::TypeMismatch));
    assert_eq!(properties.get("repulsor_accel"), Some(Value::Float(micros(-15_000_000))));
    assert_eq!(
        properties.get("repulsor_position"),
        Some(Value::Vec3(micros(300_000), micros(500_000), micros(0)))
    );
}

#[test]
fn instances_of_one_effect_vary_on_their_own() {
    let module = repulsor_module();
    let mut first = EffectProperties::new(&module);
    let second = EffectProperties::new(&module);
    first.set_property("repulsor_accel", Value::Float(micros(20_000_000))).unwrap();
    assert_eq!(first.get("repulsor_accel"), Some(Value::Float(micros(20_000_000))));
    assert_eq!(second.get("repulsor_accel"), Some(Value::Float(micros(-15_000_000))));
    assert_eq!(module.declared(0).unwrap().1, Value::Float(micros(-15_000_000)));
}

#[test]
fn values_follow_the_order_of_the_names() {
    let mut properties = EffectProperties::new(&repulsor_module());
    properties.set_property("repulsor_accel", Value::Float(micros(3_000_000))).unwrap();
    let names = vec![String::from("repulsor_position"), String::from("repulsor_accel")];
    assert_eq!(
        properties.values_of(&names),
        Ok(vec![
            Value::Vec3(micros(300_000), micros(500_000), micros(0)),
            Value::Float(micros(3_000_000))
        ])
    );
    assert_eq!(properties.values_of(&Vec::new()), Ok(Vec::new()));
    let twice = vec![String::from("repulsor_accel"), String::from("repulsor_accel")];
    assert_eq!(
        properties.values_of(&twice),
        Ok(vec![Value::Float(micros(3_000_000)), Value::Float(micros(3_000_000))])
    );
    let unknown = vec![String::from("repulsor_accel"), String::from("sticky_factor")];
    assert_eq!(properties.values_of(&unknown), Err(ExprError::UndeclaredProperty));
}
