use vstd::prelude::*;
use vstd::string::StringExecFns;
use crate::node::NodeError;
use crate::node::NodeRc;
use crate::node::count_eq;
use crate::node::eval_ok;
use crate::node::is_const_value;
use crate::node::node_equals;
use crate::node::sum_eval;

verus! {

/// Addition node: two or more arguments in a fixed order.
#[derive(Debug)]
pub struct FunctionAdd {
    pub args: Vec<NodeRc>,
}

impl FunctionAdd {
    /// Build a sum node over the given handles and hand back a shared
    /// handle to it.  A sum takes at least two arguments, and few enough
    /// that the count its partial derivative returns fits in a constant
    /// node; anything else is malformed and is rejected here, at
    /// construction time.
    pub fn new(args: Vec<NodeRc>) -> (r: Result<NodeRc, NodeError>)
        ensures
            2 <= args@.len() <= i64::MAX ==> (r matches Ok(n) && n matches NodeRc::FunctionAddRc(f)
                && f.args@ == args@),
            !(2 <= args@.len() <= i64::MAX) ==> r == Result::<NodeRc, NodeError>::Err(
                NodeError::WrongArity,
            ),
    {
        if args.len() < 2 || args.len() as u64 > i64::MAX as u64 {
            Err(NodeError::WrongArity)
        } else {
            Ok(NodeRc::FunctionAddRc(std::rc::Rc::new(FunctionAdd { args })))
        }
    }

    /// The summands, in their fixed order.
    pub fn get_arguments(&self) -> (r: Vec<NodeRc>)
        ensures
            r@ == self.args@,
    {
        let mut v: Vec<NodeRc> = Vec::new();
        let mut i: usize = 0;
        while i < self.args.len()
            invariant
                0 <= i <= self.args@.len(),
                v@ == self.args@.take(i as int),
            decreases self.args@.len() - i,
        {
            v.push(self.args[i].clone());
            i = i + 1;
            proof {
                assert(v@ =~= self.args@.take(i as int));
            }
        }
        proof {
            assert(self.args@.take(self.args@.len() as int) =~= self.args@);
        }
        v
    }

    /// The one-level sum rule: the derivative of a sum with respect to a
    /// target is the number of arguments equal to that target, as a
    /// constant node (0 when the target is none of them).
    pub fn get_partial(&self, arg: &NodeRc) -> (r: NodeRc)
        requires
            self.args@.len() <= i64::MAX,
        ensures
            is_const_value(r, count_eq(self.args@, *arg)),
    {
        let mut count: i64 = 0;
        let mut i: usize = 0;
        while i < self.args.len()
            invariant
                0 <= i <= self.args@.len(),
                self.args@.len() <= i64::MAX,
                0 <= count <= i,
                count == count_eq(self.args@.take(i as int), *arg),
            decreases self.args@.len() - i,
        {
            if node_equals(&self.args[i], arg) {
                count = count + 1;
            }
            i = i + 1;
            proof {
                assert(self.args@.take(i as int).drop_last() =~= self.args@.take(i as int - 1));
            }
        }
        proof {
            assert(self.args@.take(self.args@.len() as int) =~= self.args@);
        }
        crate::constant::ConstantScalar::new(count)
    }

    /// The sum of the values of the arguments.
    pub fn get_value(&self) -> (r: i64)
        requires
            forall|i: int| 0 <= i < self.args@.len() ==> eval_ok(#[trigger] self.args@[i]),
            forall|i: int|
                0 <= i <= self.args@.len() ==> i64::MIN <= #[trigger] sum_eval(
                    self.args@.take(i),
                ) <= i64::MAX,
        ensures
            r == sum_eval(self.args@),
        decreases self, 1int,
    {
        let mut total: i64 = 0;
        let mut i: usize = 0;
        while i < self.args.len()
            invariant
                0 <= i <= self.args@.len(),
                forall|j: int| 0 <= j < self.args@.len() ==> eval_ok(#[trigger] self.args@[j]),
                forall|j: int|
                    0 <= j <= self.args@.len() ==> i64::MIN <= #[trigger] sum_eval(
                        self.args@.take(j),
                    ) <= i64::MAX,
                total == sum_eval(self.args@.take(i as int)),
            decreases self.args@.len() - i,
        {
            let v = self.args[i].get_value();
            proof {
                assert(self.args@.take(i as int + 1).drop_last() =~= self.args@.take(i as int));
                assert(sum_eval(self.args@.take(i as int + 1)) == total + v);
            }
            total = total + v;
            i = i + 1;
        }
        proof {
            assert(self.args@.take(self.args@.len() as int) =~= self.args@);
        }
        total
    }

    /// The summands' renderings joined with `+`.  Nothing binds less
    /// tightly than addition, so no summand is ever parenthesised.
    #[verifier::loop_isolation(false)]
    pub fn render(&self) -> (r: String)
        ensures
            r@ == crate::render::join_plus(self.args@),
        decreases self, 1int,
    {
        let plus = <String as vstd::string::StringExecFns>::from_str("+");
        proof {
            reveal_strlit("+");
        }
        let mut out = String::new();
        let mut i: usize = 0;
        while i < self.args.len()
            invariant
                0 <= i <= self.args@.len(),
                plus@ == seq!['+'],
                out@ == crate::render::join_plus(self.args@.take(i as int)),
            decreases self.args@.len() - i,
        {
            if i > 0 {
                out.append(plus.as_str());
            }
            let piece = self.args[i].render();
            out.append(piece.as_str());
            i = i + 1;
            proof {
                assert(self.args@.take(i as int).drop_last() =~= self.args@.take(i as int - 1));
                assert(out@ =~= crate::render::join_plus(self.args@.take(i as int)));
            }
        }
        proof {
            assert(self.args@.take(self.args@.len() as int) =~= self.args@);
        }
        out
    }
}

} // verus!
