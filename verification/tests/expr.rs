use particle_effects::{BinaryOperator, Expr, ExprError, Module, Number, Value, ValueType};

fn number(micros: i64) -> Number {
    Number { micros }
}

fn float(micros: i64) -> Expr {
    Expr::literal(Value::Float(number(micros)))
}

#[test]
fn numbers_have_one_canonical_text() {
    assert_eq!(number(1_500_000).render(), "1.5");
    assert_eq!(number(0).render(), "0.0");
    assert_eq!(number(3_000_000).render(), "3.0");
    assert_eq!(number(-250_000).render(), "-0.25");
    assert_eq!(number(1).render(), "0.000001");
    assert_eq!(number(-1).render(), "-0.000001");
    assert_eq!(number(100).render(), "0.0001");
    assert_eq!(number(1_050_000).render(), "1.05");
    assert_eq!(number(10_000_000).render(), "10.0");
    assert_eq!(number(123_456_789).render(), "123.456789");
    assert_eq!(number(i64::MAX).render(), "9223372036854.775807");
    assert_eq!(number(i64::MIN).render(), "-9223372036854.775808");
    assert_eq!(Number::from_units(-15).render(), "-15.0");
    assert_eq!(Number::from_units(i32::MIN).render(), "-2147483648.0");
}

#[test]
fn write_appends_to_what_is_there() {
    let mut out = String::from("x = ");
    number(2_500_000).write(&mut out);
    assert_eq!(out, "x = 2.5");
    Value::Vec2(number(0), number(1_000_000)).write(&mut out);
    assert_eq!(out, "x = 2.5vec2<f32>(0.0,1.0)");
}

#[test]
fn values_render_with_their_type() {
    assert_eq!(ValueType::Float.name(), "f32");
    assert_eq!(ValueType::Vec3.name(), "vec3<f32>");
    let v3 = Value::Vec3(number(-2_000_000), number(1_000_000), number(100_000));
    assert_eq!(v3.value_type(), ValueType::Vec3);
    assert_eq!(Expr::literal(v3).render(), "vec3<f32>(-2.0,1.0,0.1)");
    let v4 = Value::Vec4(number(0), number(1_000_000), number(1_000_000), number(500_000));
    assert_eq!(Expr::literal(v4).render(), "vec4<f32>(0.0,1.0,1.0,0.5)");
    assert_eq!(Value::Float(number(600_000)).value_type(), ValueType::Float);
}

#[test]
fn rendering_twice_gives_the_same_text() {
    let build = || {
        let speed = Expr::binary_op(
            BinaryOperator::Mul,
            Expr::random(ValueType::Float),
            float(200_000),
        )
        .unwrap();
        Expr::binary_op(BinaryOperator::Add, speed, float(100_000)).unwrap()
    };
    let first = build();
    let second = build();
    assert_eq!(first.render(), "((frand()) * (0.2)) + (0.1)");
    assert_eq!(first.render(), first.render());
    assert_eq!(first.render(), second.render());
}

#[test]
fn operators_and_random_draws_render() {
    let a = || float(1_000_000);
    let b = || float(2_000_000);
    assert_eq!(Expr::binary_op(BinaryOperator::Add, a(), b()).unwrap().render(), "(1.0) + (2.0)");
    assert_eq!(Expr::binary_op(BinaryOperator::Sub, a(), b()).unwrap().render(), "(1.0) - (2.0)");
    assert_eq!(Expr::binary_op(BinaryOperator::Mul, a(), b()).unwrap().render(), "(1.0) * (2.0)");
    assert_eq!(Expr::binary_op(BinaryOperator::Div, a(), b()).unwrap().render(), "(1.0) / (2.0)");
    assert_eq!(Expr::random(ValueType::Float).render(), "frand()");
    assert_eq!(Expr::random(ValueType::Vec2).render(), "frand2()");
    assert_eq!(Expr::random(ValueType::Vec3).render(), "frand3()");
    assert_eq!(Expr::random(ValueType::Vec4).render(), "frand4()");
}

#[test]
fn binary_op_checks_operand_types() {
    let v2 = || Expr::random(ValueType::Vec2);
    let v3 = || Expr::random(ValueType::Vec3);
    let mismatch = Expr::binary_op(BinaryOperator::Add, v2(), v3());
    assert!(matches!(mismatch, Err(ExprError::TypeMismatch)));
    let mismatch = Expr::binary_op(BinaryOperator::Mul, v3(), Expr::random(ValueType::Vec4));
    assert!(matches!(mismatch, Err(ExprError::TypeMismatch)));
    let scaled = Expr::binary_op(BinaryOperator::Mul, float(2_000_000), v3()).unwrap();
    assert_eq!(scaled.value_type(), ValueType::Vec3);
    let scaled = Expr::binary_op(BinaryOperator::Div, v2(), float(2_000_000)).unwrap();
    assert_eq!(scaled.value_type(), ValueType::Vec2);
    let same = Expr::binary_op(BinaryOperator::Sub, v3(), v3()).unwrap();
    assert_eq!(same.value_type(), ValueType::Vec3);
    let nested = Expr::binary_op(BinaryOperator::Add, same, v2());
    assert!(matches!(nested, Err(ExprError::TypeMismatch)));
}

#[test]
fn add_property_rejects_a_name_in_use() {
    let mut module = Module::new();
    assert_eq!(module.len(), 0);
    let first = module.add_property("repulsor_accel", Value::Float(number(-15_000_000)));
    assert_eq!(first, Ok(0));
    let second = module.add_property(
        "repulsor_position",
        Value::Vec3(number(300_000), number(500_000), number(0)),
    );
    assert_eq!(second, Ok(1));
    let again = module.add_property("repulsor_accel", Value::Float(number(1_000_000)));
    assert_eq!(again, Err(ExprError::DuplicateProperty));
    let again = module.add_property("repulsor_accel", Value::Vec2(number(0), number(0)));
    assert_eq!(again, Err(ExprError::DuplicateProperty));
    assert_eq!(module.len(), 2);
    let kept = module.declared(0).unwrap();
    assert_eq!(kept.0, "repulsor_accel");
    assert_eq!(kept.1, Value::Float(number(-15_000_000)));
    assert!(module.declared(2).is_none());
}

#[test]
fn property_must_be_declared() {
    let mut module = Module::new();
    assert!(matches!(module.property("sticky_factor"), Err(ExprError::UndeclaredProperty)));
    module.add_property("sticky_factor", Value::Float(number(2_000_000))).unwrap();
    module.add_property("origin", Value::Vec3(number(0), number(0), number(0))).unwrap();
    let read = module.property("sticky_factor").unwrap();
    assert_eq!(read.value_type(), ValueType::Float);
    assert_eq!(read.render(), "properties.sticky_factor");
    let origin = module.property("origin").unwrap();
    assert_eq!(origin.value_type(), ValueType::Vec3);
    assert!(matches!(module.property("Sticky_factor"), Err(ExprError::UndeclaredProperty)));
    assert!(matches!(module.property(""), Err(ExprError::UndeclaredProperty)));
    assert_eq!(module.find("origin"), Some(1));
    assert_eq!(module.find("nowhere"), None);
}

#[test]
fn properties_take_part_in_operations() {
    let mut module = Module::new();
    module.add_property("accel", Value::Float(number(20_000_000))).unwrap();
    module.add_property("dir", Value::Vec3(number(0), number(1_000_000), number(0))).unwrap();
    let pull = Expr::binary_op(
        BinaryOperator::Mul,
        module.property("dir").unwrap(),
        module.property("accel").unwrap(),
    )
    .unwrap();
    assert_eq!(pull.value_type(), ValueType::Vec3);
    assert_eq!(pull.render(), "(properties.dir) * (properties.accel)");
    let wrong = Expr::binary_op(
        BinaryOperator::Add,
        module.property("dir").unwrap(),
        Expr::random(ValueType::Vec2),
    );
    assert!(matches!(wrong, Err(ExprError::TypeMismatch)));
}

#[test]
fn equal_numbers_have_equal_text_and_others_do_not() {
    assert_eq!(Number::from_units(3).render(), number(3_000_000).render());
    assert_ne!(number(1_500_000).render(), number(1_500_001).render());
    assert_ne!(number(1_000_000).render(), number(10_000_000).render());
    assert_ne!(number(100_000).render(), number(10_000).render());
    assert_ne!(number(5).render(), number(-5).render());
    let mut seen = std::collections::HashSet::new();
    for micros in -1_200..1_200i64 {
        assert!(seen.insert(number(micros * 1_111).render()));
    }
}
