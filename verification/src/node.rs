use vstd::prelude::*;
use crate::constant::ConstantScalar;
use crate::variable::VariableScalar;
use crate::function::mul::FunctionMul;
use crate::function::add::FunctionAdd;
use crate::function::div::FunctionDiv;

verus! {

/// A shared handle to one node of an immutable expression tree.
///
/// The set of variants is closed: every operation on nodes (equality,
/// evaluation, differentiation, rendering) is a match over exactly these
/// cases.  A handle is a reference-counted pointer, so cloning it shares
/// the pointed-to node instead of copying the subtree, and a node may be
/// a child of several parents at once.
#[derive(Debug)]
pub enum NodeRc {
    ConstantScalarRc(std::rc::Rc<ConstantScalar>),
    VariableScalarRc(std::rc::Rc<VariableScalar>),
    FunctionMulRc(std::rc::Rc<FunctionMul>),
    FunctionAddRc(std::rc::Rc<FunctionAdd>),
    FunctionDivRc(std::rc::Rc<FunctionDiv>),
}

/// The equality relation on node handles: same variant and recursively
/// equal children, except that variables compare by instance identity.
///
/// A variable's `id` stands for the identity of the instance: two handles
/// to the same variable carry the same `id`, while two variables that were
/// created independently carry different ids even when they share a name
/// and a value.  This dual rule is what lets differentiation tell "the
/// variable I am differentiating with respect to" apart from a merely
/// equal-looking variable.
pub open spec fn node_eq(a: NodeRc, b: NodeRc) -> bool
    decreases a,
{
    match (a, b) {
        (NodeRc::ConstantScalarRc(x), NodeRc::ConstantScalarRc(y)) => x.value == y.value,
        (NodeRc::VariableScalarRc(x), NodeRc::VariableScalarRc(y)) => x.id == y.id,
        (NodeRc::FunctionMulRc(x), NodeRc::FunctionMulRc(y)) => {
            &&& node_eq(x.args.0, y.args.0)
            &&& node_eq(x.args.1, y.args.1)
        },
        (NodeRc::FunctionAddRc(x), NodeRc::FunctionAddRc(y)) => {
            &&& x.args@.len() == y.args@.len()
            &&& forall|i: int| 0 <= i < x.args@.len() ==> node_eq(#[trigger] x.args@[i], y.args@[i])
        },
        (NodeRc::FunctionDivRc(x), NodeRc::FunctionDivRc(y)) => {
            &&& node_eq(x.args.0, y.args.0)
            &&& node_eq(x.args.1, y.args.1)
        },
        _ => false,
    }
}

/// Is `n` a constant node holding exactly the value `v`?
pub open spec fn is_const_value(n: NodeRc, v: int) -> bool {
    n matches NodeRc::ConstantScalarRc(c) && c.value == v
}

/// Is `n` a handle to the variable instance with identity `id`?
pub open spec fn is_variable_id(n: NodeRc, id: u64) -> bool {
    n matches NodeRc::VariableScalarRc(x) && x.id == id
}

/// The direct children of a node, in the operator's fixed order.
pub open spec fn arguments_of(n: NodeRc) -> Seq<NodeRc> {
    match n {
        NodeRc::ConstantScalarRc(_) => Seq::<NodeRc>::empty(),
        NodeRc::VariableScalarRc(_) => Seq::<NodeRc>::empty(),
        NodeRc::FunctionMulRc(f) => seq![f.args.0, f.args.1],
        NodeRc::FunctionAddRc(f) => f.args@,
        NodeRc::FunctionDivRc(f) => seq![f.args.0, f.args.1],
    }
}

/// Does a node equal to `t` occur somewhere in the subtree of `n`?
pub open spec fn occurs_in(t: NodeRc, n: NodeRc) -> bool
    decreases n,
{
    ||| node_eq(n, t)
    ||| match n {
        NodeRc::ConstantScalarRc(_) => false,
        NodeRc::VariableScalarRc(_) => false,
        NodeRc::FunctionMulRc(f) => occurs_in(t, f.args.0) || occurs_in(t, f.args.1),
        NodeRc::FunctionAddRc(f) => exists|i: int|
            0 <= i < f.args@.len() && occurs_in(t, #[trigger] f.args@[i]),
        NodeRc::FunctionDivRc(f) => occurs_in(t, f.args.0) || occurs_in(t, f.args.1),
    }
}

/// How many of the handles in `s` are equal to `t`.
pub open spec fn count_eq(s: Seq<NodeRc>, t: NodeRc) -> int
    decreases s,
{
    if s.len() == 0 {
        0
    } else {
        count_eq(s.drop_last(), t) + if node_eq(s.last(), t) {
            1int
        } else {
            0int
        }
    }
}

/// A well-formed tree: every addition node has at least two arguments
/// (the smallest sum) and few enough that the count of matching
/// arguments, which its partial derivative is, fits in a constant node.
pub open spec fn wf(n: NodeRc) -> bool
    decreases n,
{
    match n {
        NodeRc::ConstantScalarRc(_) => true,
        NodeRc::VariableScalarRc(_) => true,
        NodeRc::FunctionMulRc(f) => wf(f.args.0) && wf(f.args.1),
        NodeRc::FunctionAddRc(f) => {
            &&& 2 <= f.args@.len() <= i64::MAX
            &&& forall|i: int| 0 <= i < f.args@.len() ==> wf(#[trigger] f.args@[i])
        },
        NodeRc::FunctionDivRc(f) => wf(f.args.0) && wf(f.args.1),
    }
}

/// The numeric value of a tree under the variable values it holds,
/// as an unbounded integer.
pub open spec fn eval(n: NodeRc) -> int
    decreases n,
{
    match n {
        NodeRc::ConstantScalarRc(c) => c.value as int,
        NodeRc::VariableScalarRc(x) => x.value as int,
        NodeRc::FunctionMulRc(f) => eval(f.args.0) * eval(f.args.1),
        NodeRc::FunctionAddRc(f) => sum_eval(f.args@),
        NodeRc::FunctionDivRc(f) => div_trunc(eval(f.args.0), eval(f.args.1)),
    }
}

/// The sum of the values of the trees in `s`.
pub open spec fn sum_eval(s: Seq<NodeRc>) -> int
    decreases s,
{
    if s.len() == 0 {
        0
    } else {
        sum_eval(s.drop_last()) + eval(s.last())
    }
}

/// Division truncated toward zero, as the `/` of the executable code
/// computes it: the quotient of the magnitudes, carrying the sign.
pub open spec fn div_trunc(a: int, b: int) -> int {
    let q = (vstd::math::abs(a) / vstd::math::abs(b)) as int;
    if (a >= 0) == (b >= 0) {
        q
    } else {
        -q
    }
}

/// Every arithmetic step of evaluating `n` stays inside `i64` and never
/// divides by zero: each product, each running sum of an addition node
/// (taken left to right), and each quotient is representable.
pub open spec fn eval_ok(n: NodeRc) -> bool
    decreases n,
{
    match n {
        NodeRc::ConstantScalarRc(_) => true,
        NodeRc::VariableScalarRc(_) => true,
        NodeRc::FunctionMulRc(f) => {
            &&& eval_ok(f.args.0)
            &&& eval_ok(f.args.1)
            &&& i64::MIN <= eval(f.args.0) * eval(f.args.1) <= i64::MAX
        },
        NodeRc::FunctionAddRc(f) => {
            &&& forall|i: int| 0 <= i < f.args@.len() ==> eval_ok(#[trigger] f.args@[i])
            &&& forall|i: int|
                0 <= i <= f.args@.len() ==> i64::MIN <= #[trigger] sum_eval(
                    f.args@.take(i),
                ) <= i64::MAX
        },
        NodeRc::FunctionDivRc(f) => {
            &&& eval_ok(f.args.0)
            &&& eval_ok(f.args.1)
            &&& eval(f.args.1) != 0
            &&& i64::MIN <= div_trunc(eval(f.args.0), eval(f.args.1)) <= i64::MAX
        },
    }
}

/// The one-level partial-derivative rule: does `r` stand for the partial
/// derivative of `n` with respect to the target handle `t`?
///
/// Each variant pins `r` down.  A leaf differentiates to 1 against itself
/// and to 0 against anything else.  An operator node only recognises a
/// target that is (by `node_eq`) one of its direct arguments; chaining
/// through deeper sub-expressions is the caller's concern.
pub open spec fn partial_rel(n: NodeRc, t: NodeRc, r: NodeRc) -> bool {
    match n {
        NodeRc::ConstantScalarRc(_) => is_const_value(
            r,
            if node_eq(n, t) {
                1int
            } else {
                0int
            },
        ),
        NodeRc::VariableScalarRc(_) => is_const_value(
            r,
            if node_eq(n, t) {
                1int
            } else {
                0int
            },
        ),
        NodeRc::FunctionMulRc(f) => {
            if node_eq(f.args.0, t) {
                r == f.args.1
            } else if node_eq(f.args.1, t) {
                r == f.args.0
            } else {
                is_const_value(r, 0)
            }
        },
        NodeRc::FunctionAddRc(f) => is_const_value(r, count_eq(f.args@, t)),
        NodeRc::FunctionDivRc(f) => {
            if node_eq(f.args.0, t) {
                // d(a/b)/da = 1/b
                &&& r matches NodeRc::FunctionDivRc(d)
                &&& is_const_value(d.args.0, 1)
                &&& d.args.1 == f.args.1
            } else if node_eq(f.args.1, t) {
                // d(a/b)/db = (-1*a)/(b*b)
                &&& r matches NodeRc::FunctionDivRc(d)
                &&& d.args.0 matches NodeRc::FunctionMulRc(m)
                &&& is_const_value(m.args.0, -1)
                &&& m.args.1 == f.args.0
                &&& d.args.1 matches NodeRc::FunctionMulRc(m2)
                &&& m2.args.0 == f.args.1
                &&& m2.args.1 == f.args.1
            } else {
                is_const_value(r, 0)
            }
        },
    }
}

/// The one failure the library knows: malformed construction, detected
/// when a node is built, never during evaluation of the immutable tree.
#[derive(Debug, Clone, Copy, PartialEq, Eq, Structural)]
pub enum NodeError {
    /// An operator was handed fewer or more arguments than it takes.
    WrongArity,
}

/// The magnitude of `v` as an unsigned value; total, also on `i64::MIN`.
pub fn magnitude_u64(v: i64) -> (m: u64)
    ensures
        m == vstd::math::abs(v as int),
{
    if v >= 0 {
        v as u64
    } else {
        ((-(v + 1)) as u64) + 1
    }
}

impl Clone for NodeRc {
    /// Cloning a handle shares the pointed-to node; no part of the
    /// subtree is copied.
    fn clone(&self) -> (r: Self)
        ensures
            r == *self,
    {
        match self {
            NodeRc::ConstantScalarRc(x) => NodeRc::ConstantScalarRc(x.clone()),
            NodeRc::VariableScalarRc(x) => NodeRc::VariableScalarRc(x.clone()),
            NodeRc::FunctionMulRc(x) => NodeRc::FunctionMulRc(x.clone()),
            NodeRc::FunctionAddRc(x) => NodeRc::FunctionAddRc(x.clone()),
            NodeRc::FunctionDivRc(x) => NodeRc::FunctionDivRc(x.clone()),
        }
    }
}

/// Decide the equality relation `node_eq` on two handles.
#[verifier::loop_isolation(false)]
pub fn node_equals(a: &NodeRc, b: &NodeRc) -> (r: bool)
    ensures
        r == node_eq(*a, *b),
    decreases a,
{
    match (a, b) {
        (NodeRc::ConstantScalarRc(x), NodeRc::ConstantScalarRc(y)) => x.value == y.value,
        (NodeRc::VariableScalarRc(x), NodeRc::VariableScalarRc(y)) => x.id == y.id,
        (NodeRc::FunctionMulRc(x), NodeRc::FunctionMulRc(y)) => {
            node_equals(&x.args.0, &y.args.0) && node_equals(&x.args.1, &y.args.1)
        },
        (NodeRc::FunctionAddRc(x), NodeRc::FunctionAddRc(y)) => {
            if x.args.len() != y.args.len() {
                return false;
            }
            let mut i: usize = 0;
            while i < x.args.len()
                invariant
                    0 <= i <= x.args@.len(),
                    x.args@.len() == y.args@.len(),
                    forall|j: int| 0 <= j < i ==> node_eq(#[trigger] x.args@[j], y.args@[j]),
                decreases x.args@.len() - i,
            {
                proof {
                    assert(decreases_to!(*a => x.args@[i as int]));
                }
                if !node_equals(&x.args[i], &y.args[i]) {
                    proof {
                        assert(!node_eq(x.args@[i as int], y.args@[i as int]));
                        assert(!node_eq(*a, *b));
                    }
                    return false;
                }
                i = i + 1;
            }
            true
        },
        (NodeRc::FunctionDivRc(x), NodeRc::FunctionDivRc(y)) => {
            node_equals(&x.args.0, &y.args.0) && node_equals(&x.args.1, &y.args.1)
        },
        _ => false,
    }
}

impl PartialEq for NodeRc {
    fn eq(&self, other: &NodeRc) -> (r: bool) {
        node_equals(self, other)
    }
}

impl vstd::std_specs::cmp::PartialEqSpecImpl for NodeRc {
    open spec fn obeys_eq_spec() -> bool {
        true
    }

    open spec fn eq_spec(&self, other: &NodeRc) -> bool {
        node_eq(*self, *other)
    }
}

impl NodeRc {
    /// The direct children of this node, in the operator's fixed order;
    /// empty for leaves.
    pub fn get_arguments(&self) -> (r: Vec<NodeRc>)
        ensures
            r@ == arguments_of(*self),
    {
        match self {
            NodeRc::ConstantScalarRc(x) => x.get_arguments(),
            NodeRc::VariableScalarRc(x) => x.get_arguments(),
            NodeRc::FunctionMulRc(x) => x.get_arguments(),
            NodeRc::FunctionAddRc(x) => x.get_arguments(),
            NodeRc::FunctionDivRc(x) => x.get_arguments(),
        }
    }

    /// The partial derivative of this node with respect to `arg`, as a
    /// new expression tree, under the one-level rule `partial_rel`.
    pub fn get_partial(&self, arg: &NodeRc) -> (r: NodeRc)
        requires
            wf(*self),
        ensures
            partial_rel(*self, *arg, r),
    {
        match self {
            NodeRc::ConstantScalarRc(x) => x.get_partial(arg),
            NodeRc::VariableScalarRc(x) => x.get_partial(arg),
            NodeRc::FunctionMulRc(x) => x.get_partial(arg),
            NodeRc::FunctionAddRc(x) => x.get_partial(arg),
            NodeRc::FunctionDivRc(x) => x.get_partial(arg),
        }
    }

    /// Evaluate the tree under the variable values it holds.
    pub fn get_value(&self) -> (r: i64)
        requires
            eval_ok(*self),
        ensures
            r == eval(*self),
        decreases self, 0int,
    {
        match self {
            NodeRc::ConstantScalarRc(x) => x.get_value(),
            NodeRc::VariableScalarRc(x) => x.get_value(),
            NodeRc::FunctionMulRc(x) => x.get_value(),
            NodeRc::FunctionAddRc(x) => x.get_value(),
            NodeRc::FunctionDivRc(x) => x.get_value(),
        }
    }

    /// Is this handle a constant node holding exactly the value `v`?
    pub fn is_constant_with_value(&self, v: i64) -> (r: bool)
        ensures
            r == is_const_value(*self, v as int),
    {
        match self {
            NodeRc::ConstantScalarRc(x) => x.value == v,
            _ => false,
        }
    }
}

} // verus!
