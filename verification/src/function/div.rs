use vstd::prelude::*;
use vstd::string::StringExecFns;
use crate::constant::ConstantScalar;
use crate::function::mul::FunctionMul;
use crate::node::NodeRc;
use crate::node::div_trunc;
use crate::node::eval;
use crate::node::eval_ok;
use crate::node::is_const_value;
use crate::node::magnitude_u64;
use crate::node::node_eq;
use crate::node::node_equals;

verus! {

/// Division node: exactly two arguments, numerator and denominator.
#[derive(Debug)]
pub struct FunctionDiv {
    pub args: (NodeRc, NodeRc),
}

impl FunctionDiv {
    /// Build a quotient node over the two given handles and hand back a
    /// shared handle to it.
    pub fn new(arg1: NodeRc, arg2: NodeRc) -> (r: NodeRc)
        ensures
            (r matches NodeRc::FunctionDivRc(f) && f.args.0 == arg1 && f.args.1 == arg2),
    {
        NodeRc::FunctionDivRc(std::rc::Rc::new(FunctionDiv { args: (arg1, arg2) }))
    }

    /// Numerator, then denominator.
    pub fn get_arguments(&self) -> (r: Vec<NodeRc>)
        ensures
            r@ == seq![self.args.0, self.args.1],
    {
        let mut v: Vec<NodeRc> = Vec::new();
        v.push(self.args.0.clone());
        v.push(self.args.1.clone());
        proof {
            assert(v@ =~= seq![self.args.0, self.args.1]);
        }
        v
    }

    /// The one-level quotient rule, restricted to a target that is one of
    /// the two arguments: d(a/b)/da = 1/b, d(a/b)/db = (-1*a)/(b*b);
    /// against any other handle the derivative is the constant 0.
    pub fn get_partial(&self, arg: &NodeRc) -> (r: NodeRc)
        ensures
            node_eq(self.args.0, *arg) ==> (r matches NodeRc::FunctionDivRc(d) && is_const_value(
                d.args.0,
                1,
            ) && d.args.1 == self.args.1),
            !node_eq(self.args.0, *arg) && node_eq(self.args.1, *arg) ==> ({
                &&& r matches NodeRc::FunctionDivRc(d)
                &&& d.args.0 matches NodeRc::FunctionMulRc(m)
                &&& is_const_value(m.args.0, -1)
                &&& m.args.1 == self.args.0
                &&& d.args.1 matches NodeRc::FunctionMulRc(m2)
                &&& m2.args.0 == self.args.1
                &&& m2.args.1 == self.args.1
            }),
            !node_eq(self.args.0, *arg) && !node_eq(self.args.1, *arg) ==> is_const_value(r, 0),
    {
        if node_equals(&self.args.0, arg) {
            FunctionDiv::new(ConstantScalar::new(1), self.args.1.clone())
        } else if node_equals(&self.args.1, arg) {
            FunctionDiv::new(
                FunctionMul::new(ConstantScalar::new(-1), self.args.0.clone()),
                FunctionMul::new(self.args.1.clone(), self.args.1.clone()),
            )
        } else {
            ConstantScalar::new(0)
        }
    }

    /// The quotient of the values of the two arguments, truncated toward
    /// zero.
    pub fn get_value(&self) -> (r: i64)
        requires
            eval_ok(self.args.0),
            eval_ok(self.args.1),
            eval(self.args.1) != 0,
            i64::MIN <= div_trunc(eval(self.args.0), eval(self.args.1)) <= i64::MAX,
        ensures
            r == div_trunc(eval(self.args.0), eval(self.args.1)),
        decreases self, 1int,
    {
        let v0 = self.args.0.get_value();
        let v1 = self.args.1.get_value();
        let m0 = magnitude_u64(v0);
        let m1 = magnitude_u64(v1);
        let q = m0 / m1;
        if (v0 < 0) != (v1 < 0) {
            if q > i64::MAX as u64 {
                // the one quotient of magnitude 2^63: exactly i64::MIN
                i64::MIN
            } else {
                -(q as i64)
            }
        } else {
            q as i64
        }
    }

    /// The two arguments' renderings joined with `/`; an argument that
    /// binds less tightly (an addition) is parenthesised, on either side.
    pub fn render(&self) -> (r: String)
        ensures
            r@ == crate::render::operand_str(self.args.0, 2) + seq!['/']
                + crate::render::operand_str(self.args.1, 2),
        decreases self, 1int,
    {
        let s0 = crate::render::render_operand(&self.args.0, 2);
        let slash = <String as vstd::string::StringExecFns>::from_str("/");
        let s1 = crate::render::render_operand(&self.args.1, 2);
        let out = s0.concat(slash.as_str()).concat(s1.as_str());
        proof {
            reveal_strlit("/");
            assert(out@ =~= crate::render::operand_str(self.args.0, 2) + seq!['/']
                + crate::render::operand_str(self.args.1, 2));
        }
        out
    }
}

} // verus!
