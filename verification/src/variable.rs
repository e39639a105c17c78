use vstd::prelude::*;
use crate::node::NodeRc;
use crate::node::is_const_value;
use crate::node::is_variable_id;

verus! {

/// Leaf node holding a named numeric value.
///
/// Identity matters for variables: differentiation asks "is this argument
/// the very node I am differentiating with respect to", so two variables
/// are equal only when they are the same instance, never merely because
/// they share a name or a value.  The pointer identity that decides this
/// is modelled as an explicit `id`: every independently created variable
/// must be given its own id, and every handle cloned from it shares that
/// id.  Name and value take no part in variable equality.
///
/// A tree is immutable once built, the value held here included; to
/// evaluate under a new binding, build the variable (and the trees over
/// it) anew with the new value.  Handles may be shared freely, since
/// nothing behind them ever changes.
#[derive(Debug)]
pub struct VariableScalar {
    pub name: String,
    pub value: i64,
    pub id: u64,
}

impl VariableScalar {
    /// Build a continuous variable leaf and hand back a shared handle to
    /// it.  The caller picks `id`; it stands for the identity of this
    /// instance and must differ from the id of every other variable.
    pub fn new_continuous(name: &str, value: i64, id: u64) -> (r: NodeRc)
        ensures
            (r matches NodeRc::VariableScalarRc(v) && v.name@ == name@ && v.value == value
                && v.id == id),
    {
        NodeRc::VariableScalarRc(
            std::rc::Rc::new(
                VariableScalar {
                    name: <String as vstd::string::StringExecFns>::from_str(name),
                    value,
                    id,
                },
            ),
        )
    }

    /// A variable has no children.
    pub fn get_arguments(&self) -> (r: Vec<NodeRc>)
        ensures
            r@ == Seq::<NodeRc>::empty(),
    {
        Vec::new()
    }

    /// The partial derivative of a variable: 1 against a handle to the
    /// same instance, 0 against anything else.
    pub fn get_partial(&self, arg: &NodeRc) -> (r: NodeRc)
        ensures
            is_const_value(
                r,
                if is_variable_id(*arg, self.id) {
                    1int
                } else {
                    0int
                },
            ),
    {
        match arg {
            NodeRc::VariableScalarRc(v) => {
                if v.id == self.id {
                    crate::constant::ConstantScalar::new(1)
                } else {
                    crate::constant::ConstantScalar::new(0)
                }
            },
            _ => crate::constant::ConstantScalar::new(0),
        }
    }

    /// The value a variable evaluates to is its current value.
    pub fn get_value(&self) -> (r: i64)
        ensures
            r == self.value,
    {
        self.value
    }

    /// A variable renders as its name.
    pub fn render(&self) -> (r: String)
        ensures
            r@ == self.name@,
    {
        self.name.clone()
    }
}

} // verus!
