use symexpr::constant::ConstantScalar;
use symexpr::function::add::FunctionAdd;
use symexpr::function::div::FunctionDiv;
use symexpr::function::mul::FunctionMul;
use symexpr::variable::VariableScalar;

#[test]
fn product_of_constant_and_variable() {
    let c = ConstantScalar::new(5);
    let x = VariableScalar::new_continuous("x", 2, 1);
    let p = FunctionMul::new(c, x);
    assert_eq!(p.get_value(), 10);
}

#[test]
fn evaluation_is_deterministic() {
    let x = VariableScalar::new_continuous("x", 2, 1);
    let y = VariableScalar::new_continuous("y", 3, 2);
    let z = FunctionMul::new(FunctionAdd::new(vec![x.clone(), y.clone()]).unwrap(), y.clone());
    let first = z.get_value();
    let second = z.get_value();
    assert_eq!(first, 15);
    assert_eq!(second, 15);
}

#[test]
fn sum_of_three() {
    let x = VariableScalar::new_continuous("x", 2, 1);
    let y = VariableScalar::new_continuous("y", 3, 2);
    let w = VariableScalar::new_continuous("w", 4, 3);
    let s = FunctionAdd::new(vec![x, y, w]).unwrap();
    assert_eq!(s.get_value(), 9);
}

#[test]
fn quotient_truncates_toward_zero() {
    let a = ConstantScalar::new(7);
    let b = ConstantScalar::new(2);
    assert_eq!(FunctionDiv::new(a.clone(), b.clone()).get_value(), 3);
    let na = ConstantScalar::new(-7);
    assert_eq!(FunctionDiv::new(na.clone(), b.clone()).get_value(), -3);
    let nb = ConstantScalar::new(-2);
    assert_eq!(FunctionDiv::new(a, nb.clone()).get_value(), -3);
    assert_eq!(FunctionDiv::new(na, nb).get_value(), 3);
}

#[test]
fn quotient_at_the_smallest_value() {
    let a = ConstantScalar::new(i64::MIN);
    let b = ConstantScalar::new(1);
    assert_eq!(FunctionDiv::new(a, b).get_value(), i64::MIN);
}

#[test]
fn nested_product_value() {
    let x = VariableScalar::new_continuous("x", 2, 1);
    let y = VariableScalar::new_continuous("y", 3, 2);
    let w = VariableScalar::new_continuous("w", 4, 3);
    let z = FunctionMul::new(FunctionMul::new(x, y), w);
    assert_eq!(z.get_value(), 24);
}

#[test]
fn shared_subexpression_evaluates_in_both_parents() {
    let x = VariableScalar::new_continuous("x", 3, 1);
    let shared = FunctionMul::new(x.clone(), x.clone());
    let s = FunctionAdd::new(vec![shared.clone(), shared.clone()]).unwrap();
    assert_eq!(shared.get_value(), 9);
    assert_eq!(s.get_value(), 18);
}

#[test]
fn sum_rejects_wrong_arity() {
    let x = VariableScalar::new_continuous("x", 2, 1);
    let r = FunctionAdd::new(vec![x.clone()]);
    assert_eq!(r, Err(symexpr::node::NodeError::WrongArity));
    let empty = FunctionAdd::new(vec![]);
    assert_eq!(empty, Err(symexpr::node::NodeError::WrongArity));
    assert!(FunctionAdd::new(vec![x.clone(), x.clone()]).is_ok());
}

#[test]
fn get_arguments_lists_direct_children() {
    let x = VariableScalar::new_continuous("x", 2, 1);
    let y = VariableScalar::new_continuous("y", 3, 2);
    let p = FunctionMul::new(x.clone(), y.clone());
    let args = p.get_arguments();
    assert_eq!(args.len(), 2);
    assert_eq!(args[0], x);
    assert_eq!(args[1], y);
    assert_eq!(x.get_arguments().len(), 0);
    assert_eq!(ConstantScalar::new(1).get_arguments().len(), 0);
}
