use vstd::prelude::*;
use vstd::string::StringExecFns;
use crate::node::NodeRc;
use crate::node::eval;
use crate::node::eval_ok;
use crate::node::is_const_value;
use crate::node::node_eq;
use crate::node::node_equals;

verus! {

/// Multiplication node: exactly two arguments, first and second.
#[derive(Debug)]
pub struct FunctionMul {
    pub args: (NodeRc, NodeRc),
}

impl FunctionMul {
    /// Build a product node over the two given handles and hand back a
    /// shared handle to it.
    pub fn new(arg1: NodeRc, arg2: NodeRc) -> (r: NodeRc)
        ensures
            (r matches NodeRc::FunctionMulRc(f) && f.args.0 == arg1 && f.args.1 == arg2),
    {
        NodeRc::FunctionMulRc(std::rc::Rc::new(FunctionMul { args: (arg1, arg2) }))
    }

    /// The two factors, first then second.
    pub fn get_arguments(&self) -> (r: Vec<NodeRc>)
        ensures
            r@ == seq![self.args.0, self.args.1],
    {
        let mut v: Vec<NodeRc> = Vec::new();
        v.push(self.args.0.clone());
        v.push(self.args.1.clone());
        proof {
            assert(v@ =~= seq![self.args.0, self.args.1]);
        }
        v
    }

    /// The one-level product rule, restricted to a target that is one of
    /// the two factors: d(a*b)/da = b and d(a*b)/db = a; against any
    /// other handle the derivative is the constant 0.
    pub fn get_partial(&self, arg: &NodeRc) -> (r: NodeRc)
        ensures
            node_eq(self.args.0, *arg) ==> r == self.args.1,
            !node_eq(self.args.0, *arg) && node_eq(self.args.1, *arg) ==> r == self.args.0,
            !node_eq(self.args.0, *arg) && !node_eq(self.args.1, *arg) ==> is_const_value(r, 0),
    {
        if node_equals(&self.args.0, arg) {
            self.args.1.clone()
        } else if node_equals(&self.args.1, arg) {
            self.args.0.clone()
        } else {
            crate::constant::ConstantScalar::new(0)
        }
    }

    /// The product of the values of the two factors.
    pub fn get_value(&self) -> (r: i64)
        requires
            eval_ok(self.args.0),
            eval_ok(self.args.1),
            i64::MIN <= eval(self.args.0) * eval(self.args.1) <= i64::MAX,
        ensures
            r == eval(self.args.0) * eval(self.args.1),
        decreases self, 1int,
    {
        let v0 = self.args.0.get_value();
        let v1 = self.args.1.get_value();
        v0 * v1
    }

    /// The two factors' renderings joined with `*`; a factor that binds
    /// less tightly (an addition) is parenthesised, on either side.
    pub fn render(&self) -> (r: String)
        ensures
            r@ == crate::render::operand_str(self.args.0, 2) + seq!['*']
                + crate::render::operand_str(self.args.1, 2),
        decreases self, 1int,
    {
        let s0 = crate::render::render_operand(&self.args.0, 2);
        let star = <String as vstd::string::StringExecFns>::from_str("*");
        let s1 = crate::render::render_operand(&self.args.1, 2);
        let out = s0.concat(star.as_str()).concat(s1.as_str());
        proof {
            reveal_strlit("*");
            assert(out@ =~= crate::render::operand_str(self.args.0, 2) + seq!['*']
                + crate::render::operand_str(self.args.1, 2));
        }
        out
    }
}

} // verus!
