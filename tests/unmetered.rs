use move_vm_types::gas::{GasMeter, ModuleId, UnmeteredGasMeter};
use move_vm_types::instr::SimpleInstruction;
use move_vm_types::views::{TypeDescriptor, ValueDescriptor};

fn all_simple_instructions() -> Vec<SimpleInstruction> {
    vec![
        SimpleInstruction::Nop,
        SimpleInstruction::Ret,
        SimpleInstruction::BrTrue,
        SimpleInstruction::BrFalse,
        SimpleInstruction::Branch,
        SimpleInstruction::Pop,
        SimpleInstruction::LdU8,
        SimpleInstruction::LdU16,
        SimpleInstruction::LdU32,
        SimpleInstruction::LdU64,
        SimpleInstruction::LdU128,
        SimpleInstruction::LdU256,
        SimpleInstruction::LdTrue,
        SimpleInstruction::LdFalse,
        SimpleInstruction::FreezeRef,
        SimpleInstruction::MutBorrowLoc,
        SimpleInstruction::ImmBorrowLoc,
        SimpleInstruction::ImmBorrowField,
        SimpleInstruction::MutBorrowField,
        SimpleInstruction::ImmBorrowFieldGeneric,
        SimpleInstruction::MutBorrowFieldGeneric,
        SimpleInstruction::CastU8,
        SimpleInstruction::CastU16,
        SimpleInstruction::CastU32,
        SimpleInstruction::CastU64,
        SimpleInstruction::CastU128,
        SimpleInstruction::CastU256,
        SimpleInstruction::Add,
        SimpleInstruction::Sub,
        SimpleInstruction::Mul,
        SimpleInstruction::Mod,
        SimpleInstruction::Div,
        SimpleInstruction::BitOr,
        SimpleInstruction::BitAnd,
        SimpleInstruction::Xor,
        SimpleInstruction::Shl,
        SimpleInstruction::Shr,
        SimpleInstruction::Or,
        SimpleInstruction::And,
        SimpleInstruction::Not,
        SimpleInstruction::Lt,
        SimpleInstruction::Gt,
        SimpleInstruction::Le,
        SimpleInstruction::Ge,
        SimpleInstruction::Abort,
    ]
}

fn module() -> ModuleId {
    ModuleId { address: vec![0u8; 32], name: "coin".to_string() }
}

#[test]
fn unmetered_accepts_every_simple_instruction() {
    let mut m = UnmeteredGasMeter;
    for instr in all_simple_instructions() {
        assert_eq!(m.charge_simple_instr(instr), Ok(()));
        assert_eq!(m, UnmeteredGasMeter);
    }
}

#[test]
fn unmetered_accepts_empty_sequences_and_zero_sizes() {
    let mut m = UnmeteredGasMeter;
    let ty = TypeDescriptor { size_class: 0 };
    let zero = ValueDescriptor { abstract_size: 0 };
    let id = module();
    assert!(m.charge_call(&id, "", &[]).is_ok());
    assert!(m.charge_call_generic(&id, "", &[], &[]).is_ok());
    assert!(m.charge_ld_const(0).is_ok());
    assert!(m.charge_copy_loc(zero).is_ok());
    assert!(m.charge_move_loc(zero).is_ok());
    assert!(m.charge_store_loc(zero).is_ok());
    assert!(m.charge_pack(false, &[]).is_ok());
    assert!(m.charge_unpack(true, &[]).is_ok());
    assert!(m.charge_read_ref(zero).is_ok());
    assert!(m.charge_write_ref(zero).is_ok());
    assert!(m.charge_eq(zero, zero).is_ok());
    assert!(m.charge_neq(zero, zero).is_ok());
    assert!(m.charge_borrow_global(false, false, ty, false).is_ok());
    assert!(m.charge_exists(false, ty, false).is_ok());
    assert!(m.charge_move_from(false, ty, None).is_ok());
    assert!(m.charge_move_to(false, ty, zero, false).is_ok());
    assert!(m.charge_vec_pack(ty, &[]).is_ok());
    assert!(m.charge_vec_len(ty).is_ok());
    assert!(m.charge_vec_borrow(false, ty, false).is_ok());
    assert!(m.charge_vec_push_back(ty, zero).is_ok());
    assert!(m.charge_vec_pop_back(ty, None).is_ok());
    assert!(m.charge_vec_unpack(ty, 0).is_ok());
    assert!(m.charge_vec_swap(ty).is_ok());
    assert!(m.charge_load_resource(None).is_ok());
    assert!(m.charge_load_resource(Some(0)).is_ok());
    assert!(m.charge_native_function(0).is_ok());
    assert_eq!(m, UnmeteredGasMeter);
}

#[test]
fn unmetered_accepts_the_largest_amounts() {
    let mut m = UnmeteredGasMeter;
    let big = ValueDescriptor { abstract_size: u64::MAX };
    let ty = TypeDescriptor { size_class: u64::MAX };
    let args = vec![big; 64];
    let tys = vec![ty; 64];
    assert!(m.charge_call_generic(&module(), "transfer", &tys, &args).is_ok());
    assert!(m.charge_load_resource(Some(u64::MAX)).is_ok());
    assert!(m.charge_native_function(u64::MAX).is_ok());
    assert!(m.charge_vec_unpack(ty, u64::MAX).is_ok());
    assert_eq!(m, UnmeteredGasMeter);
}
