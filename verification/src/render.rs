use vstd::prelude::*;
use vstd::string::StringExecFns;
use crate::node::NodeRc;

verus! {

/// The decimal digit character for `d` in 0..=9.
pub open spec fn digit_char(d: int) -> char {
    if d == 0 {
        '0'
    } else if d == 1 {
        '1'
    } else if d == 2 {
        '2'
    } else if d == 3 {
        '3'
    } else if d == 4 {
        '4'
    } else if d == 5 {
        '5'
    } else if d == 6 {
        '6'
    } else if d == 7 {
        '7'
    } else if d == 8 {
        '8'
    } else {
        '9'
    }
}

/// The decimal digits of a nonnegative number, most significant first.
pub open spec fn nat_str(n: int) -> Seq<char>
    decreases n,
{
    if n < 10 {
        seq![digit_char(n)]
    } else {
        nat_str(n / 10).push(digit_char(n % 10))
    }
}

/// The decimal rendering of an integer: a leading minus sign for a
/// negative number, then its magnitude's digits.
pub open spec fn int_str(v: int) -> Seq<char> {
    if v < 0 {
        seq!['-'] + nat_str(-v)
    } else {
        nat_str(v)
    }
}

/// Operator precedence: multiplication and division bind tighter than
/// addition; leaves never need parentheses.
pub open spec fn prec(n: NodeRc) -> int {
    match n {
        NodeRc::ConstantScalarRc(_) => 3,
        NodeRc::VariableScalarRc(_) => 3,
        NodeRc::FunctionMulRc(_) => 2,
        NodeRc::FunctionAddRc(_) => 1,
        NodeRc::FunctionDivRc(_) => 2,
    }
}

/// The textual form of a node: a constant renders as its decimal value,
/// a variable as its name, and an operator node joins its arguments'
/// forms with its symbol, wrapping an argument in parentheses exactly
/// when that argument's operator binds less tightly than the parent.
/// The rule is the same on every argument position.
pub open spec fn render_spec(n: NodeRc) -> Seq<char>
    decreases n, 0int,
{
    match n {
        NodeRc::ConstantScalarRc(c) => int_str(c.value as int),
        NodeRc::VariableScalarRc(x) => x.name@,
        NodeRc::FunctionMulRc(f) => operand_str(f.args.0, 2) + seq!['*'] + operand_str(
            f.args.1,
            2,
        ),
        NodeRc::FunctionAddRc(f) => join_plus(f.args@),
        NodeRc::FunctionDivRc(f) => operand_str(f.args.0, 2) + seq!['/'] + operand_str(
            f.args.1,
            2,
        ),
    }
}

/// The rendering of `c` in an argument position of an operator with
/// precedence `parent_prec`: parenthesised exactly when `c` binds less
/// tightly.
pub open spec fn operand_str(c: NodeRc, parent_prec: int) -> Seq<char>
    decreases c, 1int,
{
    if prec(c) < parent_prec {
        seq!['('] + render_spec(c) + seq![')']
    } else {
        render_spec(c)
    }
}

/// The renderings of the nodes of `s`, joined with `+`.  No argument of
/// an addition is ever parenthesised: nothing binds less tightly.
pub open spec fn join_plus(s: Seq<NodeRc>) -> Seq<char>
    decreases s, 0int,
{
    if s.len() == 0 {
        Seq::<char>::empty()
    } else if s.len() == 1 {
        render_spec(s[0])
    } else {
        join_plus(s.drop_last()) + seq!['+'] + render_spec(s.last())
    }
}

/// The one-character string for a decimal digit.
fn digit_to_str(d: u64) -> (r: String)
    requires
        d < 10,
    ensures
        r@ == seq![digit_char(d as int)],
{
    let s: &str = if d == 0 {
        "0"
    } else if d == 1 {
        "1"
    } else if d == 2 {
        "2"
    } else if d == 3 {
        "3"
    } else if d == 4 {
        "4"
    } else if d == 5 {
        "5"
    } else if d == 6 {
        "6"
    } else if d == 7 {
        "7"
    } else if d == 8 {
        "8"
    } else {
        "9"
    };
    proof {
        reveal_strlit("0");
        reveal_strlit("1");
        reveal_strlit("2");
        reveal_strlit("3");
        reveal_strlit("4");
        reveal_strlit("5");
        reveal_strlit("6");
        reveal_strlit("7");
        reveal_strlit("8");
        reveal_strlit("9");
        assert(s@ =~= seq![digit_char(d as int)]);
    }
    <String as vstd::string::StringExecFns>::from_str(s)
}

/// The decimal digits of `n`, most significant first.
fn render_u64(n: u64) -> (r: String)
    ensures
        r@ == nat_str(n as int),
    decreases n,
{
    if n < 10 {
        digit_to_str(n)
    } else {
        let q = render_u64(n / 10);
        let d = digit_to_str(n % 10);
        let out = q.concat(d.as_str());
        proof {
            assert(out@ =~= nat_str(n as int));
        }
        out
    }
}

/// The decimal rendering of a signed value, minus sign included.
pub fn render_i64(v: i64) -> (r: String)
    ensures
        r@ == int_str(v as int),
{
    if v >= 0 {
        render_u64(v as u64)
    } else {
        let m = crate::node::magnitude_u64(v);
        let sign = <String as vstd::string::StringExecFns>::from_str("-");
        let digits = render_u64(m);
        let out = sign.concat(digits.as_str());
        proof {
            reveal_strlit("-");
            assert(out@ =~= int_str(v as int));
        }
        out
    }
}

/// Render `c` as an argument of an operator with precedence
/// `parent_prec`, parenthesising it exactly when it binds less tightly.
pub fn render_operand(c: &NodeRc, parent_prec: u64) -> (r: String)
    ensures
        r@ == operand_str(*c, parent_prec as int),
    decreases c, 1int,
{
    let cp: u64 = match c {
        NodeRc::ConstantScalarRc(_) => 3,
        NodeRc::VariableScalarRc(_) => 3,
        NodeRc::FunctionMulRc(_) => 2,
        NodeRc::FunctionAddRc(_) => 1,
        NodeRc::FunctionDivRc(_) => 2,
    };
    let inner = c.render();
    if cp < parent_prec {
        let open = <String as vstd::string::StringExecFns>::from_str("(");
        let close = <String as vstd::string::StringExecFns>::from_str(")");
        let out = open.concat(inner.as_str()).concat(close.as_str());
        proof {
            reveal_strlit("(");
            reveal_strlit(")");
            assert(out@ =~= operand_str(*c, parent_prec as int));
        }
        out
    } else {
        inner
    }
}

impl NodeRc {
    /// The textual form of this node, with precedence-correct
    /// parentheses.
    pub fn render(&self) -> (r: String)
        ensures
            r@ == render_spec(*self),
        decreases self, 0int,
    {
        match self {
            NodeRc::ConstantScalarRc(x) => x.render(),
            NodeRc::VariableScalarRc(x) => x.render(),
            NodeRc::FunctionMulRc(x) => x.render(),
            NodeRc::FunctionAddRc(x) => x.render(),
            NodeRc::FunctionDivRc(x) => x.render(),
        }
    }
}

} // verus!
