use symexpr::constant::ConstantScalar;
use symexpr::function::mul::FunctionMul;
use symexpr::variable::VariableScalar;

#[test]
fn equality_is_reflexive_symmetric_transitive() {
    let x = VariableScalar::new_continuous("x", 2, 1);
    let y = VariableScalar::new_continuous("y", 3, 2);
    let p1 = FunctionMul::new(x.clone(), y.clone());
    let p2 = FunctionMul::new(x.clone(), y.clone());
    let p3 = FunctionMul::new(x.clone(), y.clone());
    // reflexive
    assert_eq!(p1, p1);
    // symmetric
    assert_eq!(p1, p2);
    assert_eq!(p2, p1);
    // transitive
    assert_eq!(p2, p3);
    assert_eq!(p1, p3);
}

#[test]
fn constant_never_equals_variable_of_same_value() {
    let c = ConstantScalar::new(2);
    let x = VariableScalar::new_continuous("x", 2, 1);
    assert_ne!(c, x);
    assert_ne!(x, c);
}

#[test]
fn variables_compare_by_instance_not_by_name() {
    let x1 = VariableScalar::new_continuous("x", 2, 1);
    let x2 = VariableScalar::new_continuous("x", 2, 2);
    // same name, same value, different instances
    assert_ne!(x1, x2);
    // a cloned handle is the same instance
    assert_eq!(x1, x1.clone());
}

#[test]
fn distinct_instance_is_not_the_differentiation_target() {
    let x1 = VariableScalar::new_continuous("x", 2, 1);
    let x2 = VariableScalar::new_continuous("x", 2, 2);
    let y = VariableScalar::new_continuous("y", 3, 3);
    let p = FunctionMul::new(x1.clone(), y.clone());
    // differentiating with respect to a look-alike variable finds nothing
    assert!(p.get_partial(&x2).is_constant_with_value(0));
    assert_eq!(p.get_partial(&x1), y);
}

#[test]
fn equal_valued_constants_are_equal() {
    let a = ConstantScalar::new(4);
    let b = ConstantScalar::new(4);
    let c = ConstantScalar::new(5);
    assert_eq!(a, b);
    assert_ne!(a, c);
}
