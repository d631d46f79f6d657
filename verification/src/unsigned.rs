//! The unsigned variant of the calculator.
//!
//! Numeric policy for `u32` operands: addition saturates at `u32::MAX`;
//! subtraction is the absolute difference (guarded by comparison, so it never
//! underflows); multiplication saturates at `u32::MAX`, keeping its overflow
//! policy consistent with addition's rather than wrapping or failing;
//! division truncates, and division by zero commits nothing and answers the
//! sentinel `u32::MAX`.

use crate::OperationKind;
use vstd::prelude::*;

verus! {

/// The sum of `x` and `y`, saturated at `u32::MAX`.
pub open spec fn add_result(x: u32, y: u32) -> u32 {
    if x + y <= u32::MAX {
        (x + y) as u32
    } else {
        u32::MAX
    }
}

/// The absolute difference of `x` and `y`; it never under- or overflows.
pub open spec fn sub_result(x: u32, y: u32) -> u32 {
    if x >= y {
        (x - y) as u32
    } else {
        (y - x) as u32
    }
}

/// The product of `x` and `y`, saturated at `u32::MAX`.
pub open spec fn mul_result(x: u32, y: u32) -> u32 {
    if x * y <= u32::MAX {
        (x * y) as u32
    } else {
        u32::MAX
    }
}

/// The truncating quotient of `x` by `y`; the sentinel `u32::MAX` when `y` is
/// zero (that case commits no record, see [`CalculatorContract::div`]).
pub open spec fn div_result(x: u32, y: u32) -> u32 {
    if y == 0 {
        u32::MAX
    } else {
        (x as int / y as int) as u32
    }
}

/// What applying `kind` to the operands `x` and `y` yields under the numeric
/// policy of this variant.
pub open spec fn result_of(kind: OperationKind, x: u32, y: u32) -> u32 {
    match kind {
        OperationKind::Addition => add_result(x, y),
        OperationKind::Subtraction => sub_result(x, y),
        OperationKind::Multiplication => mul_result(x, y),
        OperationKind::Division => div_result(x, y),
    }
}

/// One completed operation: its kind, both operands, and the result.  A
/// record is immutable once created, and its `result` field is fully
/// determined by the other three (see [`result_of`]).
#[derive(Clone, Copy, Debug, PartialEq, Eq, Structural)]
pub struct Operation {
    pub operation_type: OperationKind,
    pub x: u32,
    pub y: u32,
    pub result: u32,
}

/// A single record or its absence, as held by the calculator's one-slot cell
/// for the most recent operation.  The app layer uses it as the wire form of
/// that cell, whose empty state is distinct from an empty history.
#[derive(Clone, Copy, Debug, PartialEq, Eq)]
pub struct OptionOperation(pub Option<Operation>);

/// The record that a committed operation of `kind` on `x` and `y` appends.
pub open spec fn record_of(kind: OperationKind, x: u32, y: u32) -> Operation {
    Operation { operation_type: kind, x, y, result: result_of(kind, x, y) }
}

/// The calculator: an operation executor over an append-only history store.
///
/// The state is exactly the two slots the contract persists: the ordered
/// history of committed records, and a one-slot cell holding the most recent
/// record.  The cell is updated on every append, so a well-formed calculator
/// keeps it equal to the history's last entry.
pub struct CalculatorContract {
    history: Vec<Operation>,
    last: Option<Operation>,
}

impl View for CalculatorContract {
    type V = Seq<Operation>;

    /// A calculator is abstractly the sequence of records it has committed,
    /// in call order.
    closed spec fn view(&self) -> Seq<Operation> {
        self.history@
    }
}

impl CalculatorContract {
    /// The most-recent-operation cell matches the history: empty while the
    /// history is empty, and the history's last record afterwards.
    pub closed spec fn wf(&self) -> bool {
        if self.history@.len() == 0 {
            self.last is None
        } else {
            self.last == Some(self.history@.last())
        }
    }

    /// A fresh calculator with an empty history.
    pub fn new() -> (r: CalculatorContract)
        ensures
            r@ == Seq::<Operation>::empty(),
            r.wf(),
    {
        CalculatorContract { history: Vec::new(), last: None }
    }

    /// A calculator rehydrated from an already-committed history, as read
    /// back from persistent storage: the records become the history, in the
    /// given order, and the most-recent-operation cell is rebuilt from it.
    pub fn from_records(records: Vec<Operation>) -> (r: CalculatorContract)
        ensures
            r@ == records@,
            r.wf(),
    {
        let last: Option<Operation> = if records.len() > 0 {
            Some(records[records.len() - 1])
        } else {
            None
        };
        CalculatorContract { history: records, last }
    }

    /// Appends `operation` to the history and refreshes the
    /// most-recent-operation cell.
    fn save_operation(&mut self, operation: Operation)
        ensures
            final(self)@ == old(self)@.push(operation),
            final(self).wf(),
    {
        self.history.push(operation);
        self.last = Some(operation);
    }

    /// Adds `x` and `y`, saturating at `u32::MAX`, and commits exactly one
    /// addition record.  Always answers the computed sum.
    pub fn sum(&mut self, x: u32, y: u32) -> (r: Option<u32>)
        requires
            old(self).wf(),
        ensures
            final(self).wf(),
            r == Some(add_result(x, y)),
            final(self)@ == old(self)@.push(record_of(OperationKind::Addition, x, y)),
            final(self)@.len() == old(self)@.len() + 1,
    {
        let result: u32 = if x <= u32::MAX - y {
            x + y
        } else {
            u32::MAX
        };
        let operation = Operation { operation_type: OperationKind::Addition, x, y, result };
        self.save_operation(operation);
        Some(result)
    }

    /// Takes the absolute difference of `x` and `y` and commits exactly one
    /// subtraction record.  The result is symmetric in the operands.
    pub fn sub(&mut self, x: u32, y: u32) -> (r: u32)
        requires
            old(self).wf(),
        ensures
            final(self).wf(),
            r == sub_result(x, y),
            final(self)@ == old(self)@.push(record_of(OperationKind::Subtraction, x, y)),
            final(self)@.len() == old(self)@.len() + 1,
    {
        let result: u32 = if x >= y {
            x - y
        } else {
            y - x
        };
        let operation = Operation { operation_type: OperationKind::Subtraction, x, y, result };
        self.save_operation(operation);
        result
    }

    /// Multiplies `x` by `y`, saturating at `u32::MAX`, and commits exactly
    /// one multiplication record.
    pub fn mul(&mut self, x: u32, y: u32) -> (r: u32)
        requires
            old(self).wf(),
        ensures
            final(self).wf(),
            r == mul_result(x, y),
            final(self)@ == old(self)@.push(record_of(OperationKind::Multiplication, x, y)),
            final(self)@.len() == old(self)@.len() + 1,
    {
        let xw: u64 = x as u64;
        let yw: u64 = y as u64;
        proof {
            assert(xw * yw <= 0xffff_ffffu64 * 0xffff_ffffu64) by (nonlinear_arith)
                requires
                    xw <= 0xffff_ffff,
                    yw <= 0xffff_ffff,
            ;
        }
        let wide: u64 = xw * yw;
        let result: u32 = if wide <= u32::MAX as u64 {
            wide as u32
        } else {
            u32::MAX
        };
        let operation = Operation { operation_type: OperationKind::Multiplication, x, y, result };
        self.save_operation(operation);
        result
    }

    /// Divides `x` by `y`, truncating.  When `y` is zero the call commits
    /// nothing, leaves the calculator unchanged, and answers the sentinel
    /// `u32::MAX`; otherwise it commits exactly one division record.
    pub fn div(&mut self, x: u32, y: u32) -> (r: Option<u32>)
        requires
            old(self).wf(),
        ensures
            final(self).wf(),
            r == Some(div_result(x, y)),
            y == 0 ==> *final(self) == *old(self),
            y != 0 ==> final(self)@ == old(self)@.push(record_of(OperationKind::Division, x, y))
                && final(self)@.len() == old(self)@.len() + 1,
    {
        if y == 0 {
            return Some(u32::MAX);
        }
        let result: u32 = x / y;
        let operation = Operation { operation_type: OperationKind::Division, x, y, result };
        self.save_operation(operation);
        Some(result)
    }

    /// The full history, in insertion order.  A pure read.
    pub fn all_op(&self) -> (r: Vec<Operation>)
        ensures
            r@ == self@,
    {
        let mut r: Vec<Operation> = Vec::new();
        let mut i: usize = 0;
        while i < self.history.len()
            invariant
                i <= self.history@.len(),
                r@ == self.history@.subrange(0, i as int),
            decreases self.history@.len() - i,
        {
            r.push(self.history[i]);
            proof {
                assert(r@ =~= self.history@.subrange(0, i + 1));
            }
            i = i + 1;
        }
        proof {
            assert(r@ =~= self.history@);
        }
        r
    }

    /// The record at `index`, or nothing when `index` is out of range.  A
    /// pure read.
    pub fn get_op(&self, index: u32) -> (r: Option<Operation>)
        ensures
            index < self@.len() ==> r == Some(self@[index as int]),
            index >= self@.len() ==> r is None,
    {
        if (index as usize) < self.history.len() {
            Some(self.history[index as usize])
        } else {
            None
        }
    }

    /// The most recently committed record, or nothing while the history is
    /// empty.  A pure read.
    pub fn last_op(&self) -> (r: Option<Operation>)
        requires
            self.wf(),
        ensures
            self@.len() == 0 ==> r is None,
            self@.len() > 0 ==> r == Some(self@.last()),
    {
        self.last
    }
}

/// Law: subtraction is symmetric — the absolute difference of two operands
/// does not depend on their order.
pub proof fn lemma_sub_symmetric(x: u32, y: u32)
    ensures
        sub_result(x, y) == sub_result(y, x),
{
}

/// Law: an append never disturbs existing records — every index below the old
/// length reads the same record after the append, so indices are stable and
/// records are returned in append order.
pub proof fn lemma_append_preserves_existing(h: Seq<Operation>, r: Operation, i: int)
    requires
        0 <= i < h.len(),
    ensures
        h.push(r)[i] == h[i],
{
}

} // verus!
