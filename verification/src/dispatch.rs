//! A fixed table of three unary operations, and the selection of one of
//! them by an integer.
//!
//! A selector that names no entry of the table is not an error: it stands
//! for the first entry.

use vstd::prelude::*;
use crate::fixed_width::wrap_i32;

verus! {

/// A unary operation on signed 32-bit integers.
#[derive(Clone, Copy, Debug, PartialEq, Eq, Structural)]
pub enum UnaryOp {
    /// Changes the sign.
    Negate,
    /// Adds one.
    Increment,
    /// Subtracts one.
    Decrement,
}

impl UnaryOp {
    /// What the operation makes of `v`, wrapped to 32 bits.
    pub open spec fn result(self, v: int) -> int {
        match self {
            UnaryOp::Negate => wrap_i32(-v),
            UnaryOp::Increment => wrap_i32(v + 1),
            UnaryOp::Decrement => wrap_i32(v - 1),
        }
    }

    /// Applies the operation to `v`.
    pub fn apply(self, v: i32) -> (r: i32)
        ensures
            r == self.result(v as int),
    {
        match self {
            UnaryOp::Negate => neg(v),
            UnaryOp::Increment => inc(v),
            UnaryOp::Decrement => dec(v),
        }
    }
}

fn neg(v: i32) -> (r: i32)
    ensures
        r == wrap_i32(-v),
{
    0i32.wrapping_sub(v)
}

fn inc(v: i32) -> (r: i32)
    ensures
        r == wrap_i32(v + 1),
{
    v.wrapping_add(1)
}

fn dec(v: i32) -> (r: i32)
    ensures
        r == wrap_i32(v - 1),
{
    v.wrapping_sub(1)
}

/// The table: the operations that a selector can name, each at its index.
pub open spec fn operations() -> Seq<UnaryOp> {
    seq![UnaryOp::Negate, UnaryOp::Increment, UnaryOp::Decrement]
}

/// The index that the selector `op` stands for: `op` itself where it is an
/// index of the table, and zero for any other value, negative ones
/// included.
pub open spec fn selected_index(op: int) -> int {
    if 0 <= op < operations().len() {
        op
    } else {
        0
    }
}

/// The result of the operation that `op` selects, applied to `x`.
pub open spec fn unop_result(x: int, op: int) -> int {
    operations()[selected_index(op)].result(x)
}

/// Applies to `x` the operation that `op` selects: negation for 0,
/// increment for 1, decrement for 2, and negation again for every other
/// selector. Results outside the 32-bit range wrap around.
pub fn apply_unop(x: i32, op: i32) -> (result: i32)
    ensures
        result == unop_result(x as int, op as int),
        op == 0 ==> result == wrap_i32(-x),
        op == 1 ==> result == wrap_i32(x + 1),
        op == 2 ==> result == wrap_i32(x - 1),
        op < 0 || op > 2 ==> result == wrap_i32(-x),
{
    let table: [UnaryOp; 3] = [UnaryOp::Negate, UnaryOp::Increment, UnaryOp::Decrement];
    assert(table@ =~= operations());
    // A selector that is no index of the table falls back to entry 0.
    let index: usize = if op >= 0 && (op as usize) < table.len() {
        op as usize
    } else {
        0
    };
    let chosen = table[index];
    chosen.apply(x)
}

/// Returns `x` as it is.
pub fn identity(x: i32) -> (same: i32)
    ensures
        same == x,
{
    x
}

/// Adds `a` and `b`. A sum outside the 32-bit range wraps around.
pub fn add(a: i32, b: i32) -> (sum: i32)
    ensures
        sum == wrap_i32(a + b),
        i32::MIN <= a + b <= i32::MAX ==> sum == a + b,
{
    a.wrapping_add(b)
}

/// A selector outside the table gives what selector 0 gives.
pub proof fn lemma_unknown_selector_falls_back(x: int, op: int)
    requires
        op < 0 || op > 2,
    ensures
        selected_index(op) == 0,
        unop_result(x, op) == unop_result(x, 0),
{
}

/// What each selector computes, without the wraparound where the exact
/// result fits, and at the one input of each operation where it does not.
pub proof fn lemma_unop_values(x: i32)
    ensures
        x != i32::MIN ==> unop_result(x as int, 0) == -x,
        x != i32::MAX ==> unop_result(x as int, 1) == x + 1,
        x != i32::MIN ==> unop_result(x as int, 2) == x - 1,
        unop_result(i32::MIN as int, 0) == i32::MIN,
        unop_result(i32::MAX as int, 1) == i32::MIN,
        unop_result(i32::MIN as int, 2) == i32::MAX,
{
}

/// Two calls of `apply_unop` on the same arguments return the same value.
pub proof fn lemma_apply_unop_repeats(x: i32, op: i32, first: i32, second: i32)
    requires
        call_ensures(apply_unop, (x, op), first),
        call_ensures(apply_unop, (x, op), second),
    ensures
        first == second,
{
}

/// Two calls of `identity` on the same argument return the same value.
pub proof fn lemma_identity_repeats(x: i32, first: i32, second: i32)
    requires
        call_ensures(identity, (x,), first),
        call_ensures(identity, (x,), second),
    ensures
        first == second,
{
}

/// Two calls of `add` on the same arguments return the same value.
pub proof fn lemma_add_repeats(a: i32, b: i32, first: i32, second: i32)
    requires
        call_ensures(self::add, (a, b), first),
        call_ensures(self::add, (a, b), second),
    ensures
        first == second,
{
}

} // verus!
