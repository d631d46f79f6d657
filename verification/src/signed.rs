//! The signed variant of the calculator.
//!
//! Numeric policy for `i32` operands: addition and multiplication saturate at
//! the `i32` bounds rather than wrapping or failing; subtraction is the
//! absolute difference, saturated at `i32::MAX` (the difference of extreme
//! operands exceeds it); division truncates toward zero, saturates the one
//! unrepresentable quotient (`i32::MIN / -1`) at `i32::MAX`, and commits
//! nothing when the divisor is zero.

use crate::OperationKind;
use vstd::prelude::*;

verus! {

/// The absolute value of `x`.
pub open spec fn abs_int(x: int) -> int {
    if x >= 0 {
        x
    } else {
        -x
    }
}

/// The sum of `x` and `y`, saturated at the `i32` bounds.
pub open spec fn add_result(x: i32, y: i32) -> i32 {
    if x + y > i32::MAX {
        i32::MAX
    } else if x + y < i32::MIN {
        i32::MIN
    } else {
        (x + y) as i32
    }
}

/// The absolute difference of `x` and `y`, saturated at `i32::MAX`.
pub open spec fn sub_result(x: i32, y: i32) -> i32 {
    let d: int = abs_int(x - y);
    if d > i32::MAX {
        i32::MAX
    } else {
        d as i32
    }
}

/// The product of `x` and `y`, saturated at the `i32` bounds.
pub open spec fn mul_result(x: i32, y: i32) -> i32 {
    if x * y > i32::MAX {
        i32::MAX
    } else if x * y < i32::MIN {
        i32::MIN
    } else {
        (x * y) as i32
    }
}

/// The quotient of `x` by `y`, truncated toward zero and saturated at
/// `i32::MAX` (which only the quotient `i32::MIN / -1` reaches).  Meaningful
/// only for a nonzero `y`: division by zero commits nothing and answers
/// nothing, see [`CalculatorContract::div`].
pub open spec fn div_result(x: i32, y: i32) -> i32
    recommends
        y != 0,
{
    let q: int = abs_int(x as int) / abs_int(y as int);
    let t: int = if (x < 0) == (y < 0) {
        q
    } else {
        -q
    };
    if t > i32::MAX {
        i32::MAX
    } else {
        t as i32
    }
}

/// What applying `kind` to the operands `x` and `y` yields under the numeric
/// policy of this variant.
pub open spec fn result_of(kind: OperationKind, x: i32, y: i32) -> i32 {
    match kind {
        OperationKind::Addition => add_result(x, y),
        OperationKind::Subtraction => sub_result(x, y),
        OperationKind::Multiplication => mul_result(x, y),
        OperationKind::Division => div_result(x, y),
    }
}

/// One completed operation: its kind, both operands, and the result.  A
/// record is immutable once created, and its `result` field is fully
/// determined by the other three (see [`result_of`]).
#[derive(Clone, Copy, Debug, PartialEq, Eq, Structural)]
pub struct Operation {
    pub operation_type: OperationKind,
    pub x: i32,
    pub y: i32,
    pub result: i32,
}

/// The record that a committed operation of `kind` on `x` and `y` appends.
pub open spec fn record_of(kind: OperationKind, x: i32, y: i32) -> Operation {
    Operation { operation_type: kind, x, y, result: result_of(kind, x, y) }
}

/// The signed calculator: the same executor-over-history-store design as the
/// unsigned variant, with `i32` operands.
pub struct CalculatorContract {
    history: Vec<Operation>,
    last: Option<Operation>,
}

impl View for CalculatorContract {
    type V = Seq<Operation>;

    /// A calculator is abstractly the sequence of records it has committed,
    /// in call order.
    closed spec fn view(&self) -> Seq<Operation> {
        self.history@
    }
}

impl CalculatorContract {
    /// The most-recent-operation cell matches the history: empty while the
    /// history is empty, and the history's last record afterwards.
    pub closed spec fn wf(&self) -> bool {
        if self.history@.len() == 0 {
            self.last is None
        } else {
            self.last == Some(self.history@.last())
        }
    }

    /// A fresh calculator with an empty history.
    pub fn new() -> (r: CalculatorContract)
        ensures
            r@ == Seq::<Operation>::empty(),
            r.wf(),
    {
        CalculatorContract { history: Vec::new(), last: None }
    }

    /// Appends `operation` to the history and refreshes the
    /// most-recent-operation cell.
    fn save_operation(&mut self, operation: Operation)
        ensures
            final(self)@ == old(self)@.push(operation),
            final(self).wf(),
    {
        self.history.push(operation);
        self.last = Some(operation);
    }

    /// Adds `x` and `y`, saturating at the `i32` bounds, and commits exactly
    /// one addition record.  Always answers the computed sum.
    pub fn sum(&mut self, x: i32, y: i32) -> (r: i32)
        requires
            old(self).wf(),
        ensures
            final(self).wf(),
            r == add_result(x, y),
            final(self)@ == old(self)@.push(record_of(OperationKind::Addition, x, y)),
            final(self)@.len() == old(self)@.len() + 1,
    {
        let s: i64 = x as i64 + y as i64;
        let result: i32 = if s > i32::MAX as i64 {
            i32::MAX
        } else if s < i32::MIN as i64 {
            i32::MIN
        } else {
            s as i32
        };
        let operation = Operation { operation_type: OperationKind::Addition, x, y, result };
        self.save_operation(operation);
        result
    }

    /// Takes the absolute difference of `x` and `y`, saturating at
    /// `i32::MAX`, and commits exactly one subtraction record.  The result is
    /// symmetric in the operands.
    pub fn sub(&mut self, x: i32, y: i32) -> (r: i32)
        requires
            old(self).wf(),
        ensures
            final(self).wf(),
            r == sub_result(x, y),
            final(self)@ == old(self)@.push(record_of(OperationKind::Subtraction, x, y)),
            final(self)@.len() == old(self)@.len() + 1,
    {
        let d: i64 = if x >= y {
            x as i64 - y as i64
        } else {
            y as i64 - x as i64
        };
        let result: i32 = if d > i32::MAX as i64 {
            i32::MAX
        } else {
            d as i32
        };
        let operation = Operation { operation_type: OperationKind::Subtraction, x, y, result };
        self.save_operation(operation);
        result
    }

    /// Multiplies `x` by `y`, saturating at the `i32` bounds, and commits
    /// exactly one multiplication record.
    pub fn mul(&mut self, x: i32, y: i32) -> (r: i32)
        requires
            old(self).wf(),
        ensures
            final(self).wf(),
            r == mul_result(x, y),
            final(self)@ == old(self)@.push(record_of(OperationKind::Multiplication, x, y)),
            final(self)@.len() == old(self)@.len() + 1,
    {
        let xw: i64 = x as i64;
        let yw: i64 = y as i64;
        proof {
            assert(-0x4000_0000_0000_0000i64 <= xw * yw <= 0x4000_0000_0000_0000i64)
                by (nonlinear_arith)
                requires
                    -0x8000_0000i64 <= xw <= 0x7fff_ffffi64,
                    -0x8000_0000i64 <= yw <= 0x7fff_ffffi64,
            ;
        }
        let wide: i64 = xw * yw;
        let result: i32 = if wide > i32::MAX as i64 {
            i32::MAX
        } else if wide < i32::MIN as i64 {
            i32::MIN
        } else {
            wide as i32
        };
        let operation = Operation { operation_type: OperationKind::Multiplication, x, y, result };
        self.save_operation(operation);
        result
    }

    /// Divides `x` by `y`, truncating toward zero and saturating the one
    /// unrepresentable quotient at `i32::MAX`.  When `y` is zero the call
    /// commits nothing, leaves the calculator unchanged, and answers nothing;
    /// otherwise it commits exactly one division record.
    pub fn div(&mut self, x: i32, y: i32) -> (r: Option<i32>)
        requires
            old(self).wf(),
        ensures
            final(self).wf(),
            y == 0 ==> r is None && *final(self) == *old(self),
            y != 0 ==> r == Some(div_result(x, y))
                && final(self)@ == old(self)@.push(record_of(OperationKind::Division, x, y))
                && final(self)@.len() == old(self)@.len() + 1,
    {
        if y == 0 {
            return None;
        }
        let xw: i64 = x as i64;
        let yw: i64 = y as i64;
        let xa: u64 = if xw >= 0 {
            xw as u64
        } else {
            (-xw) as u64
        };
        let ya: u64 = if yw >= 0 {
            yw as u64
        } else {
            (-yw) as u64
        };
        let q: u64 = xa / ya;
        proof {
            assert(q <= xa) by (nonlinear_arith)
                requires
                    ya >= 1,
                    q == xa as int / ya as int,
                    xa >= 0,
            ;
        }
        let negative: bool = (x < 0) != (y < 0);
        let result: i32 = if negative {
            (-(q as i64)) as i32
        } else if q > i32::MAX as u64 {
            i32::MAX
        } else {
            q as i32
        };
        let operation = Operation { operation_type: OperationKind::Division, x, y, result };
        self.save_operation(operation);
        Some(result)
    }

    /// The full history, in insertion order.  A pure read.
    pub fn all_op(&self) -> (r: Vec<Operation>)
        ensures
            r@ == self@,
    {
        let mut r: Vec<Operation> = Vec::new();
        let mut i: usize = 0;
        while i < self.history.len()
            invariant
                i <= self.history@.len(),
                r@ == self.history@.subrange(0, i as int),
            decreases self.history@.len() - i,
        {
            r.push(self.history[i]);
            proof {
                assert(r@ =~= self.history@.subrange(0, i + 1));
            }
            i = i + 1;
        }
        proof {
            assert(r@ =~= self.history@);
        }
        r
    }

    /// The record at `index`, or nothing when `index` is out of range.  A
    /// pure read.
    pub fn get_op(&self, index: u32) -> (r: Option<Operation>)
        ensures
            index < self@.len() ==> r == Some(self@[index as int]),
            index >= self@.len() ==> r is None,
    {
        if (index as usize) < self.history.len() {
            Some(self.history[index as usize])
        } else {
            None
        }
    }

    /// The most recently committed record, or nothing while the history is
    /// empty.  A pure read.
    pub fn last_op(&self) -> (r: Option<Operation>)
        requires
            self.wf(),
        ensures
            self@.len() == 0 ==> r is None,
            self@.len() > 0 ==> r == Some(self@.last()),
    {
        self.last
    }
}

/// Law: subtraction is symmetric — the absolute difference of two operands
/// does not depend on their order.
pub proof fn lemma_sub_symmetric(x: i32, y: i32)
    ensures
        sub_result(x, y) == sub_result(y, x),
{
}

/// Law: an append never disturbs existing records — every index below the old
/// length reads the same record after the append, so indices are stable and
/// records are returned in append order.
pub proof fn lemma_append_preserves_existing(h: Seq<Operation>, r: Operation, i: int)
    requires
        0 <= i < h.len(),
    ensures
        h.push(r)[i] == h[i],
{
}

} // verus!
