use vstd::prelude::*;
use crate::node::NodeRc;
use crate::node::count_eq;
use crate::node::eval;
use crate::node::is_const_value;
use crate::node::node_eq;
use crate::node::occurs_in;
use crate::node::partial_rel;

verus! {

/// The equality relation on handles is reflexive: every handle equals
/// itself.
pub proof fn lemma_node_eq_reflexive(n: &NodeRc)
    ensures
        node_eq(*n, *n),
    decreases n,
{
    match n {
        NodeRc::ConstantScalarRc(_) => {},
        NodeRc::VariableScalarRc(_) => {},
        NodeRc::FunctionMulRc(f) => {
            lemma_node_eq_reflexive(&f.args.0);
            lemma_node_eq_reflexive(&f.args.1);
        },
        NodeRc::FunctionAddRc(f) => {
            assert forall|i: int| 0 <= i < f.args@.len() implies node_eq(
                #[trigger] f.args@[i],
                f.args@[i],
            ) by {
                lemma_node_eq_reflexive(&f.args@[i]);
            }
        },
        NodeRc::FunctionDivRc(f) => {
            lemma_node_eq_reflexive(&f.args.0);
            lemma_node_eq_reflexive(&f.args.1);
        },
    }
}

/// The equality relation on handles is symmetric.
pub proof fn lemma_node_eq_symmetric(a: &NodeRc, b: &NodeRc)
    ensures
        node_eq(*a, *b) == node_eq(*b, *a),
    decreases a,
{
    match (a, b) {
        (NodeRc::FunctionMulRc(x), NodeRc::FunctionMulRc(y)) => {
            lemma_node_eq_symmetric(&x.args.0, &y.args.0);
            lemma_node_eq_symmetric(&x.args.1, &y.args.1);
        },
        (NodeRc::FunctionAddRc(x), NodeRc::FunctionAddRc(y)) => {
            assert forall|i: int| 0 <= i < x.args@.len() && x.args@.len() == y.args@.len() implies
                node_eq(#[trigger] x.args@[i], y.args@[i]) == node_eq(
                y.args@[i],
                x.args@[i],
            ) by {
                lemma_node_eq_symmetric(&x.args@[i], &y.args@[i]);
            }
        },
        (NodeRc::FunctionDivRc(x), NodeRc::FunctionDivRc(y)) => {
            lemma_node_eq_symmetric(&x.args.0, &y.args.0);
            lemma_node_eq_symmetric(&x.args.1, &y.args.1);
        },
        _ => {},
    }
}

/// The equality relation on handles is transitive.
pub proof fn lemma_node_eq_transitive(a: &NodeRc, b: &NodeRc, c: &NodeRc)
    requires
        node_eq(*a, *b),
        node_eq(*b, *c),
    ensures
        node_eq(*a, *c),
    decreases a,
{
    match (a, b, c) {
        (NodeRc::FunctionMulRc(x), NodeRc::FunctionMulRc(y), NodeRc::FunctionMulRc(z)) => {
            lemma_node_eq_transitive(&x.args.0, &y.args.0, &z.args.0);
            lemma_node_eq_transitive(&x.args.1, &y.args.1, &z.args.1);
        },
        (NodeRc::FunctionAddRc(x), NodeRc::FunctionAddRc(y), NodeRc::FunctionAddRc(z)) => {
            assert forall|i: int| 0 <= i < x.args@.len() implies node_eq(
                #[trigger] x.args@[i],
                z.args@[i],
            ) by {
                assert(node_eq(x.args@[i], y.args@[i]));
                assert(node_eq(y.args@[i], z.args@[i]));
                lemma_node_eq_transitive(&x.args@[i], &y.args@[i], &z.args@[i]);
            }
        },
        (NodeRc::FunctionDivRc(x), NodeRc::FunctionDivRc(y), NodeRc::FunctionDivRc(z)) => {
            lemma_node_eq_transitive(&x.args.0, &y.args.0, &z.args.0);
            lemma_node_eq_transitive(&x.args.1, &y.args.1, &z.args.1);
        },
        _ => {},
    }
}

/// Equality discriminates variants: a constant and a variable are never
/// equal handles, however their numeric values compare.
pub proof fn lemma_constant_never_equals_variable(a: &NodeRc, b: &NodeRc)
    requires
        *a is ConstantScalarRc,
        *b is VariableScalarRc,
    ensures
        !node_eq(*a, *b),
        !node_eq(*b, *a),
{
}

/// For a product `p` of two distinct handles `a` and `b`, the partial
/// derivative of `p` with respect to `a` is `b`, and with respect to
/// `b` is `a`, by the equality relation on handles.
pub proof fn lemma_product_partial_is_other_factor(
    p: &NodeRc,
    a: &NodeRc,
    b: &NodeRc,
    ra: &NodeRc,
    rb: &NodeRc,
)
    requires
        !node_eq(*a, *b),
        *p matches NodeRc::FunctionMulRc(f) && f.args.0 == *a && f.args.1 == *b,
        partial_rel(*p, *a, *ra),
        partial_rel(*p, *b, *rb),
    ensures
        node_eq(*ra, *b),
        node_eq(*rb, *a),
{
    lemma_node_eq_reflexive(a);
    lemma_node_eq_reflexive(b);
}

/// No handle of a sequence equals the target: the count of matches is 0.
proof fn lemma_count_eq_absent(s: Seq<NodeRc>, t: &NodeRc)
    requires
        forall|i: int| 0 <= i < s.len() ==> !node_eq(#[trigger] s[i], *t),
    ensures
        count_eq(s, *t) == 0,
    decreases s,
{
    if s.len() > 0 {
        assert(forall|i: int| 0 <= i < s.drop_last().len() ==> !node_eq(
            #[trigger] s.drop_last()[i],
            *t,
        ));
        lemma_count_eq_absent(s.drop_last(), t);
    }
}

/// The partial derivative of any node with respect to a handle that
/// occurs nowhere in its subtree is the constant 0.
pub proof fn lemma_absent_target_partial_zero(p: &NodeRc, c: &NodeRc, r: &NodeRc)
    requires
        !occurs_in(*c, *p),
        partial_rel(*p, *c, *r),
    ensures
        is_const_value(*r, 0),
{
    assert(!node_eq(*p, *c));
    match p {
        NodeRc::ConstantScalarRc(_) => {},
        NodeRc::VariableScalarRc(_) => {},
        NodeRc::FunctionMulRc(f) => {
            assert(!occurs_in(*c, f.args.0));
            assert(!occurs_in(*c, f.args.1));
        },
        NodeRc::FunctionAddRc(f) => {
            assert forall|i: int| 0 <= i < f.args@.len() implies !node_eq(
                #[trigger] f.args@[i],
                *c,
            ) by {
                assert(!occurs_in(*c, f.args@[i]));
            }
            lemma_count_eq_absent(f.args@, c);
        },
        NodeRc::FunctionDivRc(f) => {
            assert(!occurs_in(*c, f.args.0));
            assert(!occurs_in(*c, f.args.1));
        },
    }
}

/// Evaluation is deterministic for fixed variable values: any two
/// results that `get_value` can return for one unmutated tree are the
/// same, since each equals the tree's one mathematical value.
pub proof fn lemma_get_value_deterministic(n: &NodeRc, v1: i64, v2: i64)
    requires
        call_ensures(NodeRc::get_value, (n,), v1),
        call_ensures(NodeRc::get_value, (n,), v2),
    ensures
        v1 == v2,
{
    assert(v1 == eval(*n));
    assert(v2 == eval(*n));
}

} // verus!
