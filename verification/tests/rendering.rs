use symexpr::constant::ConstantScalar;
use symexpr::function::add::FunctionAdd;
use symexpr::function::div::FunctionDiv;
use symexpr::function::mul::FunctionMul;
use symexpr::variable::VariableScalar;

#[test]
fn sum_under_product_is_parenthesised() {
    let x = VariableScalar::new_continuous("x", 2, 1);
    let y = VariableScalar::new_continuous("y", 3, 2);
    let w = VariableScalar::new_continuous("w", 4, 3);
    let s = FunctionAdd::new(vec![x, y]).unwrap();
    let p = FunctionMul::new(s, w);
    assert_eq!(p.render(), "(x+y)*w");
}

#[test]
fn sum_is_parenthesised_on_either_side() {
    let x = VariableScalar::new_continuous("x", 2, 1);
    let y = VariableScalar::new_continuous("y", 3, 2);
    let w = VariableScalar::new_continuous("w", 4, 3);
    let s = FunctionAdd::new(vec![x, y]).unwrap();
    let p = FunctionMul::new(w, s);
    assert_eq!(p.render(), "w*(x+y)");
}

#[test]
fn product_of_variables() {
    let x = VariableScalar::new_continuous("x", 2, 1);
    let y = VariableScalar::new_continuous("y", 3, 2);
    assert_eq!(FunctionMul::new(x, y).render(), "x*y");
}

#[test]
fn equal_precedence_is_not_parenthesised() {
    let x = VariableScalar::new_continuous("x", 2, 1);
    let y = VariableScalar::new_continuous("y", 3, 2);
    let w = VariableScalar::new_continuous("w", 4, 3);
    let q = FunctionDiv::new(x.clone(), y.clone());
    // the precedence rule looks only at how tightly the child binds,
    // on either side of the parent
    assert_eq!(FunctionMul::new(q.clone(), w.clone()).render(), "x/y*w");
    assert_eq!(FunctionMul::new(w.clone(), q.clone()).render(), "w*x/y");
}

#[test]
fn sum_under_quotient_is_parenthesised() {
    let x = VariableScalar::new_continuous("x", 2, 1);
    let y = VariableScalar::new_continuous("y", 3, 2);
    let w = VariableScalar::new_continuous("w", 4, 3);
    let s = FunctionAdd::new(vec![x, y]).unwrap();
    assert_eq!(FunctionDiv::new(s, w).render(), "(x+y)/w");
}

#[test]
fn constants_render_in_decimal() {
    assert_eq!(ConstantScalar::new(0).render(), "0");
    assert_eq!(ConstantScalar::new(42).render(), "42");
    assert_eq!(ConstantScalar::new(-5).render(), "-5");
    assert_eq!(ConstantScalar::new(i64::MIN).render(), "-9223372036854775808");
    assert_eq!(ConstantScalar::new(i64::MAX).render(), "9223372036854775807");
}

#[test]
fn sum_of_three_renders_with_plus() {
    let x = VariableScalar::new_continuous("x", 2, 1);
    let y = VariableScalar::new_continuous("y", 3, 2);
    let w = VariableScalar::new_continuous("w", 4, 3);
    let s = FunctionAdd::new(vec![x, y, w]).unwrap();
    assert_eq!(s.render(), "x+y+w");
}

#[test]
fn rendering_reflects_evaluation_under_reparsing() {
    // (x+y)*w with x=2, y=3, w=4: the parenthesised text reads back as
    // the same computation, 5*4, not as x+(y*w)
    let x = VariableScalar::new_continuous("x", 2, 1);
    let y = VariableScalar::new_continuous("y", 3, 2);
    let w = VariableScalar::new_continuous("w", 4, 3);
    let s = FunctionAdd::new(vec![x, y]).unwrap();
    let p = FunctionMul::new(s, w);
    assert_eq!(p.render(), "(x+y)*w");
    assert_eq!(p.get_value(), 20);
}
