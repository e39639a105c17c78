use symexpr::constant::ConstantScalar;
use symexpr::function::add::FunctionAdd;
use symexpr::function::div::FunctionDiv;
use symexpr::function::mul::FunctionMul;
use symexpr::variable::VariableScalar;

#[test]
fn get_partial() {
    let x = VariableScalar::new_continuous("x", 2, 1);
    let y = VariableScalar::new_continuous("y", 3, 2);
    let w = VariableScalar::new_continuous("w", 4, 3);

    let z = FunctionMul::new(x.clone(), y.clone());

    let z1 = z.get_partial(&x);
    assert_eq!(z1, y);

    let z2 = z.get_partial(&y);
    assert_eq!(z2, x);

    let z3 = z.get_partial(&w);
    assert!(z3.is_constant_with_value(0));
}

#[test]
fn partial_of_product_with_constant_factor() {
    let c = ConstantScalar::new(5);
    let x = VariableScalar::new_continuous("x", 2, 1);
    let p = FunctionMul::new(c.clone(), x.clone());
    assert_eq!(p.get_partial(&c), x);
    assert_eq!(p.get_partial(&x), c);
}

#[test]
fn partial_against_absent_subtree_is_zero() {
    let x = VariableScalar::new_continuous("x", 2, 1);
    let y = VariableScalar::new_continuous("y", 3, 2);
    let p = FunctionMul::new(x.clone(), y.clone());
    let absent = FunctionAdd::new(vec![x.clone(), y.clone()]).unwrap();
    assert!(p.get_partial(&absent).is_constant_with_value(0));
}

#[test]
fn partial_of_sum_counts_matching_arguments() {
    let x = VariableScalar::new_continuous("x", 2, 1);
    let y = VariableScalar::new_continuous("y", 3, 2);
    let w = VariableScalar::new_continuous("w", 4, 3);
    let s = FunctionAdd::new(vec![x.clone(), y.clone(), x.clone()]).unwrap();
    assert!(s.get_partial(&x).is_constant_with_value(2));
    assert!(s.get_partial(&y).is_constant_with_value(1));
    assert!(s.get_partial(&w).is_constant_with_value(0));
}

#[test]
fn partial_of_quotient_numerator() {
    let x = VariableScalar::new_continuous("x", 8, 1);
    let y = VariableScalar::new_continuous("y", 2, 2);
    let q = FunctionDiv::new(x.clone(), y.clone());
    // d(x/y)/dx = 1/y
    let d = q.get_partial(&x);
    let expected = FunctionDiv::new(ConstantScalar::new(1), y.clone());
    assert_eq!(d, expected);
}

#[test]
fn partial_of_quotient_denominator() {
    let x = VariableScalar::new_continuous("x", 8, 1);
    let y = VariableScalar::new_continuous("y", 2, 2);
    let q = FunctionDiv::new(x.clone(), y.clone());
    // d(x/y)/dy = (-1*x)/(y*y)
    let d = q.get_partial(&y);
    let expected = FunctionDiv::new(
        FunctionMul::new(ConstantScalar::new(-1), x.clone()),
        FunctionMul::new(y.clone(), y.clone()),
    );
    assert_eq!(d, expected);
}

#[test]
fn partial_of_leaf_against_itself_is_one() {
    let x = VariableScalar::new_continuous("x", 2, 1);
    assert!(x.get_partial(&x).is_constant_with_value(1));
    let c = ConstantScalar::new(7);
    assert!(c.get_partial(&c).is_constant_with_value(1));
    assert!(c.get_partial(&x).is_constant_with_value(0));
    assert!(x.get_partial(&c).is_constant_with_value(0));
}
