use move_vm_types::budget::{BudgetGasMeter, CostSchedule};
use move_vm_types::gas::{GasMeter, MeteringFailure, ModuleId};
use move_vm_types::instr::SimpleInstruction;
use move_vm_types::views::{TypeDescriptor, ValueDescriptor};

fn module() -> ModuleId {
    ModuleId { address: vec![1u8; 32], name: "coin".to_string() }
}

fn prices() -> CostSchedule {
    CostSchedule { instr: 3, op: 5, per_arg: 7, per_value_byte: 2, per_loaded_byte: 11, absent: 13 }
}

fn val(n: u64) -> ValueDescriptor {
    ValueDescriptor { abstract_size: n }
}

const TY: TypeDescriptor = TypeDescriptor { size_class: 4 };

/// Charges one step on a fresh meter with a large budget and returns what it debited.
fn debit(step: impl FnOnce(&mut BudgetGasMeter) -> Result<(), MeteringFailure>) -> u64 {
    let mut m = BudgetGasMeter::new(10_000, prices());
    assert_eq!(step(&mut m), Ok(()));
    10_000 - m.balance()
}

#[test]
fn budget_prices_each_operation() {
    assert_eq!(debit(|m| m.charge_simple_instr(SimpleInstruction::Add)), 3);
    assert_eq!(debit(|m| m.charge_call(&module(), "f", &[val(1), val(4)])), 29);
    assert_eq!(debit(|m| m.charge_call_generic(&module(), "f", &[TY, TY], &[val(10)])), 46);
    assert_eq!(debit(|m| m.charge_ld_const(4)), 49);
    assert_eq!(debit(|m| m.charge_copy_loc(val(6))), 17);
    assert_eq!(debit(|m| m.charge_move_loc(val(6))), 17);
    assert_eq!(debit(|m| m.charge_store_loc(val(6))), 17);
    assert_eq!(debit(|m| m.charge_pack(true, &[val(0), val(0), val(1)])), 28);
    assert_eq!(debit(|m| m.charge_unpack(false, &[])), 5);
    assert_eq!(debit(|m| m.charge_read_ref(val(1))), 7);
    assert_eq!(debit(|m| m.charge_write_ref(val(2))), 9);
    assert_eq!(debit(|m| m.charge_eq(val(1), val(2))), 11);
    assert_eq!(debit(|m| m.charge_neq(val(1), val(2))), 11);
    assert_eq!(debit(|m| m.charge_move_to(false, TY, val(3), true)), 11);
    assert_eq!(debit(|m| m.charge_move_to(false, TY, val(3), false)), 24);
    assert_eq!(debit(|m| m.charge_vec_pack(TY, &[val(3)])), 18);
    assert_eq!(debit(|m| m.charge_vec_len(TY)), 5);
    assert_eq!(debit(|m| m.charge_vec_borrow(true, TY, true)), 5);
    assert_eq!(debit(|m| m.charge_vec_borrow(true, TY, false)), 18);
    assert_eq!(debit(|m| m.charge_vec_push_back(TY, val(8))), 21);
    assert_eq!(debit(|m| m.charge_vec_pop_back(TY, Some(val(8)))), 21);
    assert_eq!(debit(|m| m.charge_vec_pop_back(TY, None)), 18);
    assert_eq!(debit(|m| m.charge_vec_unpack(TY, 4)), 33);
    assert_eq!(debit(|m| m.charge_vec_swap(TY)), 5);
    assert_eq!(debit(|m| m.charge_native_function(42)), 42);
}

#[test]
fn budget_fixed_amount_debits_exactly_then_refuses_without_debit() {
    let mut m = BudgetGasMeter::new(10, prices());
    assert_eq!(m.charge_native_function(4), Ok(()));
    assert_eq!(m.balance(), 6);
    assert_eq!(m.charge_native_function(4), Ok(()));
    assert_eq!(m.balance(), 2);
    assert_eq!(m.charge_native_function(4), Err(MeteringFailure::OutOfGas));
    assert_eq!(m.balance(), 2);
    assert_eq!(m.charge_native_function(2), Ok(()));
    assert_eq!(m.balance(), 0);
    assert_eq!(m.charge_native_function(0), Ok(()));
    assert_eq!(m.charge_native_function(1), Err(MeteringFailure::OutOfGas));
    assert_eq!(m.balance(), 0);
}

#[test]
fn load_resource_present_and_absent_are_distinct() {
    assert_eq!(debit(|m| m.charge_load_resource(Some(10))), 110);
    assert_eq!(debit(|m| m.charge_load_resource(Some(0))), 0);
    assert_eq!(debit(|m| m.charge_load_resource(None)), 13);
}

#[test]
fn global_outcomes_are_distinct() {
    assert_eq!(debit(|m| m.charge_exists(false, TY, true)), 5);
    assert_eq!(debit(|m| m.charge_exists(false, TY, false)), 18);
    assert_eq!(debit(|m| m.charge_borrow_global(false, true, TY, true)), 5);
    assert_eq!(debit(|m| m.charge_borrow_global(false, true, TY, false)), 18);
    assert_eq!(debit(|m| m.charge_move_from(true, TY, Some(val(3)))), 11);
    assert_eq!(debit(|m| m.charge_move_from(true, TY, None)), 18);
}

#[test]
fn scripted_session_stops_at_first_refusal() {
    // Costs 3, 17, 49, 3; cumulative 3, 20, 69, 72 against a budget of 60.
    let mut m = BudgetGasMeter::new(60, prices());
    let mut charged = 0;
    let steps: Vec<Box<dyn Fn(&mut BudgetGasMeter) -> Result<(), MeteringFailure>>> = vec![
        Box::new(|m| m.charge_simple_instr(SimpleInstruction::Pop)),
        Box::new(|m| m.charge_copy_loc(val(6))),
        Box::new(|m| m.charge_ld_const(4)),
        Box::new(|m| m.charge_simple_instr(SimpleInstruction::Ret)),
    ];
    let mut outcome = Ok(());
    for step in &steps {
        outcome = step(&mut m);
        if outcome.is_err() {
            break;
        }
        charged += 1;
    }
    assert_eq!(outcome, Err(MeteringFailure::OutOfGas));
    assert_eq!(charged, 2);
    assert_eq!(m.balance(), 60 - 3 - 17);
}

#[test]
fn scripted_session_debits_sum_of_costs() {
    let mut m = BudgetGasMeter::new(100, prices());
    assert_eq!(m.charge_simple_instr(SimpleInstruction::Pop), Ok(()));
    assert_eq!(m.charge_copy_loc(val(6)), Ok(()));
    assert_eq!(m.charge_ld_const(4), Ok(()));
    assert_eq!(m.charge_simple_instr(SimpleInstruction::Ret), Ok(()));
    assert_eq!(m.balance(), 100 - (3 + 17 + 49 + 3));
}

#[test]
fn end_to_end_budget_of_one_hundred() {
    let s = CostSchedule { instr: 1, op: 0, per_arg: 2, per_value_byte: 0, per_loaded_byte: 1, absent: 0 };
    let mut m = BudgetGasMeter::new(100, s);
    assert_eq!(m.charge_simple_instr(SimpleInstruction::Add), Ok(()));
    assert_eq!(m.balance(), 99);
    assert_eq!(m.charge_call(&module(), "transfer", &[val(8), val(16), val(32)]), Ok(()));
    assert_eq!(m.balance(), 93);
    assert_eq!(m.charge_load_resource(Some(1000)), Err(MeteringFailure::OutOfGas));
    assert_eq!(m.balance(), 93);
}

#[test]
fn budget_refuses_costs_beyond_the_integer_range() {
    let mut m = BudgetGasMeter::new(u64::MAX, prices());
    assert_eq!(m.charge_vec_unpack(TY, u64::MAX), Err(MeteringFailure::OutOfGas));
    assert_eq!(m.charge_copy_loc(val(u64::MAX)), Err(MeteringFailure::OutOfGas));
    assert_eq!(m.balance(), u64::MAX);
    assert_eq!(m.charge_native_function(u64::MAX), Ok(()));
    assert_eq!(m.balance(), 0);
}

#[test]
fn budget_short_circuits_on_a_costly_argument() {
    let mut m = BudgetGasMeter::new(1_000, prices());
    let args = [val(1), val(u64::MAX), val(1)];
    assert_eq!(m.charge_pack(false, &args), Err(MeteringFailure::OutOfGas));
    assert_eq!(m.balance(), 1_000);
}
