use math::unsigned::{CalculatorContract, Operation, OptionOperation};
use math::OperationKind;

#[test]
fn unsigned_sum_commits_one_record() {
    let mut calc = CalculatorContract::new();
    assert_eq!(calc.sum(2, 3), Some(5));
    let expected = Operation { operation_type: OperationKind::Addition, x: 2, y: 3, result: 5 };
    assert_eq!(calc.all_op(), vec![expected]);
    assert_eq!(calc.get_op(0), Some(expected));
    assert_eq!(calc.last_op(), Some(expected));
}

#[test]
fn unsigned_sum_saturates() {
    let mut calc = CalculatorContract::new();
    assert_eq!(calc.sum(u32::MAX, 1), Some(u32::MAX));
    assert_eq!(calc.sum(u32::MAX, u32::MAX), Some(u32::MAX));
    assert_eq!(calc.sum(u32::MAX, 0), Some(u32::MAX));
    assert_eq!(calc.all_op().len(), 3);
}

#[test]
fn unsigned_sub_absolute_difference() {
    let mut calc = CalculatorContract::new();
    assert_eq!(calc.sub(10, 4), 6);
    assert_eq!(calc.sub(4, 10), 6);
    assert_eq!(calc.sub(7, 7), 0);
    assert_eq!(calc.sub(0, u32::MAX), u32::MAX);
    assert_eq!(calc.all_op().len(), 4);
}

#[test]
fn unsigned_mul_exact_and_saturated() {
    let mut calc = CalculatorContract::new();
    assert_eq!(calc.mul(6, 7), 42);
    assert_eq!(calc.mul(u32::MAX, 2), u32::MAX);
    assert_eq!(calc.mul(0, u32::MAX), 0);
    assert_eq!(calc.mul(65536, 65536), u32::MAX);
    assert_eq!(calc.mul(65535, 65537), u32::MAX);
    assert_eq!(calc.mul(65535, 65536), 4294901760);
}

#[test]
fn unsigned_div_truncates() {
    let mut calc = CalculatorContract::new();
    assert_eq!(calc.div(20, 5), Some(4));
    assert_eq!(calc.div(7, 2), Some(3));
    assert_eq!(calc.div(0, 9), Some(0));
    assert_eq!(calc.all_op().len(), 3);
}

#[test]
fn unsigned_div_by_zero_returns_sentinel_and_commits_nothing() {
    let mut calc = CalculatorContract::new();
    assert_eq!(calc.sum(2, 3), Some(5));
    let before = calc.all_op();
    let last_before = calc.last_op();
    assert_eq!(calc.div(5, 0), Some(u32::MAX));
    assert_eq!(calc.all_op(), before);
    assert_eq!(calc.all_op().len(), 1);
    assert_eq!(calc.last_op(), last_before);
}

#[test]
fn unsigned_get_op_in_and_out_of_range() {
    let mut calc = CalculatorContract::new();
    calc.sum(1, 2);
    calc.sub(9, 3);
    calc.mul(4, 4);
    assert_eq!(
        calc.get_op(0),
        Some(Operation { operation_type: OperationKind::Addition, x: 1, y: 2, result: 3 }),
    );
    assert_eq!(
        calc.get_op(1),
        Some(Operation { operation_type: OperationKind::Subtraction, x: 9, y: 3, result: 6 }),
    );
    assert_eq!(
        calc.get_op(2),
        Some(Operation { operation_type: OperationKind::Multiplication, x: 4, y: 4, result: 16 }),
    );
    assert_eq!(calc.get_op(3), None);
    assert_eq!(calc.get_op(u32::MAX), None);
}

#[test]
fn unsigned_all_op_reflects_call_order() {
    let mut calc = CalculatorContract::new();
    calc.sum(1, 1);
    calc.div(1, 0);
    calc.mul(2, 3);
    calc.div(9, 3);
    let history = calc.all_op();
    assert_eq!(history.len(), 3);
    assert_eq!(history[0].operation_type, OperationKind::Addition);
    assert_eq!(history[1].operation_type, OperationKind::Multiplication);
    assert_eq!(history[2].operation_type, OperationKind::Division);
    assert_eq!(history[2].result, 3);
}

#[test]
fn unsigned_empty_history_reads() {
    let calc = CalculatorContract::new();
    assert_eq!(calc.all_op(), vec![]);
    assert_eq!(calc.get_op(0), None);
    assert_eq!(calc.last_op(), None);
}

#[test]
fn unsigned_scenario_from_empty() {
    let mut calc = CalculatorContract::new();
    assert_eq!(calc.sum(2, 3), Some(5));
    assert_eq!(
        calc.all_op(),
        vec![Operation { operation_type: OperationKind::Addition, x: 2, y: 3, result: 5 }],
    );
    assert_eq!(calc.div(5, 0), Some(u32::MAX));
    assert_eq!(calc.all_op().len(), 1);
    assert_eq!(calc.mul(5, 4), 20);
    assert_eq!(
        calc.all_op(),
        vec![
            Operation { operation_type: OperationKind::Addition, x: 2, y: 3, result: 5 },
            Operation { operation_type: OperationKind::Multiplication, x: 5, y: 4, result: 20 },
        ],
    );
    assert_eq!(
        calc.get_op(1),
        Some(Operation { operation_type: OperationKind::Multiplication, x: 5, y: 4, result: 20 }),
    );
    assert_eq!(calc.get_op(5), None);
}

#[test]
fn unsigned_option_operation_wraps_presence_and_absence() {
    let record = Operation { operation_type: OperationKind::Addition, x: 1, y: 1, result: 2 };
    let present = OptionOperation(Some(record));
    let absent = OptionOperation(None);
    assert_eq!(present, OptionOperation(Some(record)));
    assert_ne!(present, absent);
    assert_eq!(absent.0, None);
}
