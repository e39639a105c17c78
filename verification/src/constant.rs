use vstd::prelude::*;
use crate::node::NodeRc;
use crate::node::is_const_value;

verus! {

/// Leaf node holding a fixed numeric value, immutable after construction.
#[derive(Debug)]
pub struct ConstantScalar {
    pub value: i64,
}

impl ConstantScalar {
    /// Build a constant leaf and hand back a shared handle to it.
    pub fn new(value: i64) -> (r: NodeRc)
        ensures
            is_const_value(r, value as int),
    {
        NodeRc::ConstantScalarRc(std::rc::Rc::new(ConstantScalar { value }))
    }

    /// A constant has no children.
    pub fn get_arguments(&self) -> (r: Vec<NodeRc>)
        ensures
            r@ == Seq::<NodeRc>::empty(),
    {
        Vec::new()
    }

    /// The partial derivative of a constant: 1 against a handle equal to
    /// this node, 0 against anything else.
    pub fn get_partial(&self, arg: &NodeRc) -> (r: NodeRc)
        ensures
            is_const_value(
                r,
                if is_const_value(*arg, self.value as int) {
                    1int
                } else {
                    0int
                },
            ),
    {
        match arg {
            NodeRc::ConstantScalarRc(c) => {
                if c.value == self.value {
                    ConstantScalar::new(1)
                } else {
                    ConstantScalar::new(0)
                }
            },
            _ => ConstantScalar::new(0),
        }
    }

    /// The value a constant evaluates to is the value it holds.
    pub fn get_value(&self) -> (r: i64)
        ensures
            r == self.value,
    {
        self.value
    }

    /// A constant renders as its decimal value.
    pub fn render(&self) -> (r: String)
        ensures
            r@ == crate::render::int_str(self.value as int),
    {
        crate::render::render_i64(self.value)
    }
}

} // verus!
