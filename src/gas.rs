use vstd::prelude::*;
use crate::instr::SimpleInstruction;
use crate::views::{TypeDescriptor, ValueDescriptor};

verus! {

/// An amount of abstract gas, in the policy's internal unit.
pub type InternalGas = u64;

/// A number of bytes.
pub type NumBytes = u64;

/// A number of arguments or elements.
pub type NumArgs = u64;

/// Identifies a module: the account it was published under and its name.
#[derive(Debug, Clone, PartialEq, Eq, Hash)]
pub struct ModuleId {
    pub address: Vec<u8>,
    pub name: String,
}

/// The one failure a charge can end in: the policy refuses the step, and the session aborts.
#[derive(Debug, Clone, Copy, PartialEq, Eq, Structural, Hash)]
pub enum MeteringFailure {
    OutOfGas,
}

/// The result of a charge.
pub type PartialVMResult<T> = Result<T, MeteringFailure>;

/// A chargeable step as the policy observes it: which operation ran, with everything the
/// interpreter hands over for pricing it.
#[allow(inconsistent_fields)]
pub enum GasEvent {
    SimpleInstr(SimpleInstruction),
    Call { module: ModuleId, func_name: Seq<char>, args: Seq<ValueDescriptor> },
    CallGeneric {
        module: ModuleId,
        func_name: Seq<char>,
        ty_args: Seq<TypeDescriptor>,
        args: Seq<ValueDescriptor>,
    },
    LdConst { size: NumBytes },
    CopyLoc { val: ValueDescriptor },
    MoveLoc { val: ValueDescriptor },
    StoreLoc { val: ValueDescriptor },
    Pack { is_generic: bool, fields: Seq<ValueDescriptor> },
    Unpack { is_generic: bool, fields: Seq<ValueDescriptor> },
    ReadRef { val: ValueDescriptor },
    WriteRef { val: ValueDescriptor },
    Equal { lhs: ValueDescriptor, rhs: ValueDescriptor },
    NotEqual { lhs: ValueDescriptor, rhs: ValueDescriptor },
    BorrowGlobal { is_mut: bool, is_generic: bool, ty: TypeDescriptor, is_success: bool },
    Exists { is_generic: bool, ty: TypeDescriptor, exists: bool },
    MoveFrom { is_generic: bool, ty: TypeDescriptor, val: Option<ValueDescriptor> },
    MoveTo { is_generic: bool, ty: TypeDescriptor, val: ValueDescriptor, is_success: bool },
    VecPack { ty: TypeDescriptor, args: Seq<ValueDescriptor> },
    VecLen { ty: TypeDescriptor },
    VecBorrow { is_mut: bool, ty: TypeDescriptor, is_success: bool },
    VecPushBack { ty: TypeDescriptor, val: ValueDescriptor },
    VecPopBack { ty: TypeDescriptor, val: Option<ValueDescriptor> },
    VecUnpack { ty: TypeDescriptor, expect_num_elements: NumArgs },
    VecSwap { ty: TypeDescriptor },
    LoadResource { loaded: Option<NumBytes> },
    NativeFunction { amount: InternalGas },
}

/// A charge took the policy from `before` to `after` with result `r`: it succeeds exactly when
/// the policy `admitted` the step, moves to the `next` state on success, and changes nothing on
/// failure.
pub open spec fn charged_for<M>(
    before: M,
    after: M,
    r: PartialVMResult<()>,
    admitted: bool,
    next: M,
) -> bool {
    &&& (r is Ok <==> admitted)
    &&& (r is Ok ==> after == next)
    &&& (r is Err ==> after == before)
}

/// A cost policy. The interpreter calls exactly one method per chargeable step, and aborts the
/// session on the first failure.
///
/// A policy is modelled as a state machine over [`GasEvent`]s: `admits` says whether it
/// accepts a step in its current state, and `next` gives the state after accepting it.
pub trait GasMeter: Sized {
    /// Whether the policy accepts a charge for `e` in this state.
    spec fn admits(&self, e: GasEvent) -> bool;

    /// The policy's state once it has accepted a charge for `e`.
    spec fn next(&self, e: GasEvent) -> Self;

    /// Charges an instruction and fails if not enough gas units are left.
    fn charge_simple_instr(&mut self, instr: SimpleInstruction) -> (r: PartialVMResult<()>)
        ensures
            ({
                let e = GasEvent::SimpleInstr(instr);
                charged_for(*old(self), *final(self), r, old(self).admits(e), old(self).next(e))
            }),
    ;

    /// Charges a call of `func_name` in `module_id`, before the callee starts.
    fn charge_call(
        &mut self,
        module_id: &ModuleId,
        func_name: &str,
        args: &[ValueDescriptor],
    ) -> (r: PartialVMResult<()>)
        ensures
            ({
                let e = GasEvent::Call { module: *module_id, func_name: func_name@, args: args@ };
                charged_for(*old(self), *final(self), r, old(self).admits(e), old(self).next(e))
            }),
    ;

    /// Charges a call of a generic function, before the callee starts.
    fn charge_call_generic(
        &mut self,
        module_id: &ModuleId,
        func_name: &str,
        ty_args: &[TypeDescriptor],
        args: &[ValueDescriptor],
    ) -> (r: PartialVMResult<()>)
        ensures
            ({
                let e = GasEvent::CallGeneric {
                    module: *module_id,
                    func_name: func_name@,
                    ty_args: ty_args@,
                    args: args@,
                };
                charged_for(*old(self), *final(self), r, old(self).admits(e), old(self).next(e))
            }),
    ;

    /// Charges loading a constant of `size` bytes, before it is pushed.
    fn charge_ld_const(&mut self, size: NumBytes) -> (r: PartialVMResult<()>)
        ensures
            ({
                let e = GasEvent::LdConst { size };
                charged_for(*old(self), *final(self), r, old(self).admits(e), old(self).next(e))
            }),
    ;

    /// Charges copying `val` out of a local.
    fn charge_copy_loc(&mut self, val: ValueDescriptor) -> (r: PartialVMResult<()>)
        ensures
            ({
                let e = GasEvent::CopyLoc { val };
                charged_for(*old(self), *final(self), r, old(self).admits(e), old(self).next(e))
            }),
    ;

    /// Charges moving `val` out of a local.
    fn charge_move_loc(&mut self, val: ValueDescriptor) -> (r: PartialVMResult<()>)
        ensures
            ({
                let e = GasEvent::MoveLoc { val };
                charged_for(*old(self), *final(self), r, old(self).admits(e), old(self).next(e))
            }),
    ;

    /// Charges storing `val` into a local.
    fn charge_store_loc(&mut self, val: ValueDescriptor) -> (r: PartialVMResult<()>)
        ensures
            ({
                let e = GasEvent::StoreLoc { val };
                charged_for(*old(self), *final(self), r, old(self).admits(e), old(self).next(e))
            }),
    ;

    /// Charges building a struct from the field values `args`.
    fn charge_pack(
        &mut self,
        is_generic: bool,
        args: &[ValueDescriptor],
    ) -> (r: PartialVMResult<()>)
        ensures
            ({
                let e = GasEvent::Pack { is_generic, fields: args@ };
                charged_for(*old(self), *final(self), r, old(self).admits(e), old(self).next(e))
            }),
    ;

    /// Charges taking a struct apart into the field values `args`.
    fn charge_unpack(
        &mut self,
        is_generic: bool,
        args: &[ValueDescriptor],
    ) -> (r: PartialVMResult<()>)
        ensures
            ({
                let e = GasEvent::Unpack { is_generic, fields: args@ };
                charged_for(*old(self), *final(self), r, old(self).admits(e), old(self).next(e))
            }),
    ;

    /// Charges reading `val` through a reference, once the value is obtained.
    fn charge_read_ref(&mut self, val: ValueDescriptor) -> (r: PartialVMResult<()>)
        ensures
            ({
                let e = GasEvent::ReadRef { val };
                charged_for(*old(self), *final(self), r, old(self).admits(e), old(self).next(e))
            }),
    ;

    /// Charges writing `val` through a reference, before it is installed.
    fn charge_write_ref(&mut self, val: ValueDescriptor) -> (r: PartialVMResult<()>)
        ensures
            ({
                let e = GasEvent::WriteRef { val };
                charged_for(*old(self), *final(self), r, old(self).admits(e), old(self).next(e))
            }),
    ;

    /// Charges an equality test of two values.
    fn charge_eq(&mut self, lhs: ValueDescriptor, rhs: ValueDescriptor) -> (r: PartialVMResult<()>)
        ensures
            ({
                let e = GasEvent::Equal { lhs, rhs };
                charged_for(*old(self), *final(self), r, old(self).admits(e), old(self).next(e))
            }),
    ;

    /// Charges an inequality test of two values.
    fn charge_neq(&mut self, lhs: ValueDescriptor, rhs: ValueDescriptor) -> (r: PartialVMResult<()>)
        ensures
            ({
                let e = GasEvent::NotEqual { lhs, rhs };
                charged_for(*old(self), *final(self), r, old(self).admits(e), old(self).next(e))
            }),
    ;

    /// Charges borrowing a global resource, once it is known whether the borrow succeeded.
    fn charge_borrow_global(
        &mut self,
        is_mut: bool,
        is_generic: bool,
        ty: TypeDescriptor,
        is_success: bool,
    ) -> (r: PartialVMResult<()>)
        ensures
            ({
                let e = GasEvent::BorrowGlobal { is_mut, is_generic, ty, is_success };
                charged_for(*old(self), *final(self), r, old(self).admits(e), old(self).next(e))
            }),
    ;

    /// Charges an existence test of a global resource, once its outcome is known.
    fn charge_exists(
        &mut self,
        is_generic: bool,
        ty: TypeDescriptor,
        exists: bool,
    ) -> (r: PartialVMResult<()>)
        ensures
            ({
                let e = GasEvent::Exists { is_generic, ty, exists };
                charged_for(*old(self), *final(self), r, old(self).admits(e), old(self).next(e))
            }),
    ;

    /// Charges moving a resource out of global storage; `val` is the value moved, if any was.
    fn charge_move_from(
        &mut self,
        is_generic: bool,
        ty: TypeDescriptor,
        val: Option<ValueDescriptor>,
    ) -> (r: PartialVMResult<()>)
        ensures
            ({
                let e = GasEvent::MoveFrom { is_generic, ty, val };
                charged_for(*old(self), *final(self), r, old(self).admits(e), old(self).next(e))
            }),
    ;

    /// Charges moving `val` into global storage, once it is known whether that succeeded.
    fn charge_move_to(
        &mut self,
        is_generic: bool,
        ty: TypeDescriptor,
        val: ValueDescriptor,
        is_success: bool,
    ) -> (r: PartialVMResult<()>)
        ensures
            ({
                let e = GasEvent::MoveTo { is_generic, ty, val, is_success };
                charged_for(*old(self), *final(self), r, old(self).admits(e), old(self).next(e))
            }),
    ;

    /// Charges building a vector of element type `ty` from `args`.
    fn charge_vec_pack(
        &mut self,
        ty: TypeDescriptor,
        args: &[ValueDescriptor],
    ) -> (r: PartialVMResult<()>)
        ensures
            ({
                let e = GasEvent::VecPack { ty, args: args@ };
                charged_for(*old(self), *final(self), r, old(self).admits(e), old(self).next(e))
            }),
    ;

    /// Charges reading the length of a vector.
    fn charge_vec_len(&mut self, ty: TypeDescriptor) -> (r: PartialVMResult<()>)
        ensures
            ({
                let e = GasEvent::VecLen { ty };
                charged_for(*old(self), *final(self), r, old(self).admits(e), old(self).next(e))
            }),
    ;

    /// Charges borrowing a vector element, once the bounds check is resolved.
    fn charge_vec_borrow(
        &mut self,
        is_mut: bool,
        ty: TypeDescriptor,
        is_success: bool,
    ) -> (r: PartialVMResult<()>)
        ensures
            ({
                let e = GasEvent::VecBorrow { is_mut, ty, is_success };
                charged_for(*old(self), *final(self), r, old(self).admits(e), old(self).next(e))
            }),
    ;

    /// Charges pushing `val` onto a vector.
    fn charge_vec_push_back(
        &mut self,
        ty: TypeDescriptor,
        val: ValueDescriptor,
    ) -> (r: PartialVMResult<()>)
        ensures
            ({
                let e = GasEvent::VecPushBack { ty, val };
                charged_for(*old(self), *final(self), r, old(self).admits(e), old(self).next(e))
            }),
    ;

    /// Charges popping from a vector; `val` is absent when the vector was empty.
    fn charge_vec_pop_back(
        &mut self,
        ty: TypeDescriptor,
        val: Option<ValueDescriptor>,
    ) -> (r: PartialVMResult<()>)
        ensures
            ({
                let e = GasEvent::VecPopBack { ty, val };
                charged_for(*old(self), *final(self), r, old(self).admits(e), old(self).next(e))
            }),
    ;

    /// Charges taking apart a vector expected to hold `expect_num_elements` elements.
    fn charge_vec_unpack(
        &mut self,
        ty: TypeDescriptor,
        expect_num_elements: NumArgs,
    ) -> (r: PartialVMResult<()>)
        ensures
            ({
                let e = GasEvent::VecUnpack { ty, expect_num_elements };
                charged_for(*old(self), *final(self), r, old(self).admits(e), old(self).next(e))
            }),
    ;

    /// Charges swapping two elements of a vector.
    fn charge_vec_swap(&mut self, ty: TypeDescriptor) -> (r: PartialVMResult<()>)
        ensures
            ({
                let e = GasEvent::VecSwap { ty };
                charged_for(*old(self), *final(self), r, old(self).admits(e), old(self).next(e))
            }),
    ;

    /// Charges loading a resource from storage. This is only called when the resource is not
    /// cached.
    /// - `Some(n)` means `n` bytes are loaded.
    /// - `None` means a load operation is performed but the resource does not exist.
    ///
    /// Identical units of work run back to back in one session can be charged differently:
    /// only the first of them finds the resource cold.
    fn charge_load_resource(&mut self, loaded: Option<NumBytes>) -> (r: PartialVMResult<()>)
        ensures
            ({
                let e = GasEvent::LoadResource { loaded };
                charged_for(*old(self), *final(self), r, old(self).admits(e), old(self).next(e))
            }),
    ;

    /// Charges running a native function, at the cost its own implementation computed. Fails if
    /// not enough gas units are left.
    fn charge_native_function(&mut self, amount: InternalGas) -> (r: PartialVMResult<()>)
        ensures
            ({
                let e = GasEvent::NativeFunction { amount };
                charged_for(*old(self), *final(self), r, old(self).admits(e), old(self).next(e))
            }),
    ;
}

/// A meter that does not meter anything: every charge succeeds and leaves the meter as it was.
#[derive(Debug, Clone, Copy, PartialEq, Eq, Structural, Hash)]
pub struct UnmeteredGasMeter;

impl GasMeter for UnmeteredGasMeter {
    open spec fn admits(&self, e: GasEvent) -> bool {
        true
    }

    open spec fn next(&self, e: GasEvent) -> Self {
        *self
    }

    fn charge_simple_instr(&mut self, _instr: SimpleInstruction) -> (r: PartialVMResult<()>) {
        Ok(())
    }

    fn charge_call(
        &mut self,
        _module_id: &ModuleId,
        _func_name: &str,
        _args: &[ValueDescriptor],
    ) -> (r: PartialVMResult<()>) {
        Ok(())
    }

    fn charge_call_generic(
        &mut self,
        _module_id: &ModuleId,
        _func_name: &str,
        _ty_args: &[TypeDescriptor],
        _args: &[ValueDescriptor],
    ) -> (r: PartialVMResult<()>) {
        Ok(())
    }

    fn charge_ld_const(&mut self, _size: NumBytes) -> (r: PartialVMResult<()>) {
        Ok(())
    }

    fn charge_copy_loc(&mut self, _val: ValueDescriptor) -> (r: PartialVMResult<()>) {
        Ok(())
    }

    fn charge_move_loc(&mut self, _val: ValueDescriptor) -> (r: PartialVMResult<()>) {
        Ok(())
    }

    fn charge_store_loc(&mut self, _val: ValueDescriptor) -> (r: PartialVMResult<()>) {
        Ok(())
    }

    fn charge_pack(
        &mut self,
        _is_generic: bool,
        _args: &[ValueDescriptor],
    ) -> (r: PartialVMResult<()>) {
        Ok(())
    }

    fn charge_unpack(
        &mut self,
        _is_generic: bool,
        _args: &[ValueDescriptor],
    ) -> (r: PartialVMResult<()>) {
        Ok(())
    }

    fn charge_read_ref(&mut self, _val: ValueDescriptor) -> (r: PartialVMResult<()>) {
        Ok(())
    }

    fn charge_write_ref(&mut self, _val: ValueDescriptor) -> (r: PartialVMResult<()>) {
        Ok(())
    }

    fn charge_eq(
        &mut self,
        _lhs: ValueDescriptor,
        _rhs: ValueDescriptor,
    ) -> (r: PartialVMResult<()>) {
        Ok(())
    }

    fn charge_neq(
        &mut self,
        _lhs: ValueDescriptor,
        _rhs: ValueDescriptor,
    ) -> (r: PartialVMResult<()>) {
        Ok(())
    }

    fn charge_borrow_global(
        &mut self,
        _is_mut: bool,
        _is_generic: bool,
        _ty: TypeDescriptor,
        _is_success: bool,
    ) -> (r: PartialVMResult<()>) {
        Ok(())
    }

    fn charge_exists(
        &mut self,
        _is_generic: bool,
        _ty: TypeDescriptor,
        _exists: bool,
    ) -> (r: PartialVMResult<()>) {
        Ok(())
    }

    fn charge_move_from(
        &mut self,
        _is_generic: bool,
        _ty: TypeDescriptor,
        _val: Option<ValueDescriptor>,
    ) -> (r: PartialVMResult<()>) {
        Ok(())
    }

    fn charge_move_to(
        &mut self,
        _is_generic: bool,
        _ty: TypeDescriptor,
        _val: ValueDescriptor,
        _is_success: bool,
    ) -> (r: PartialVMResult<()>) {
        Ok(())
    }

    fn charge_vec_pack(
        &mut self,
        _ty: TypeDescriptor,
        _args: &[ValueDescriptor],
    ) -> (r: PartialVMResult<()>) {
        Ok(())
    }

    fn charge_vec_len(&mut self, _ty: TypeDescriptor) -> (r: PartialVMResult<()>) {
        Ok(())
    }

    fn charge_vec_borrow(
        &mut self,
        _is_mut: bool,
        _ty: TypeDescriptor,
        _is_success: bool,
    ) -> (r: PartialVMResult<()>) {
        Ok(())
    }

    fn charge_vec_push_back(
        &mut self,
        _ty: TypeDescriptor,
        _val: ValueDescriptor,
    ) -> (r: PartialVMResult<()>) {
        Ok(())
    }

    fn charge_vec_pop_back(
        &mut self,
        _ty: TypeDescriptor,
        _val: Option<ValueDescriptor>,
    ) -> (r: PartialVMResult<()>) {
        Ok(())
    }

    fn charge_vec_unpack(
        &mut self,
        _ty: TypeDescriptor,
        _expect_num_elements: NumArgs,
    ) -> (r: PartialVMResult<()>) {
        Ok(())
    }

    fn charge_vec_swap(&mut self, _ty: TypeDescriptor) -> (r: PartialVMResult<()>) {
        Ok(())
    }

    fn charge_load_resource(&mut self, _loaded: Option<NumBytes>) -> (r: PartialVMResult<()>) {
        Ok(())
    }

    fn charge_native_function(&mut self, _amount: InternalGas) -> (r: PartialVMResult<()>) {
        Ok(())
    }
}


/// The meter that meters nothing accepts every step, whatever it carries, and stays as it was.
pub proof fn lemma_unmetered_accepts_all(
    before: UnmeteredGasMeter,
    after: UnmeteredGasMeter,
    r: PartialVMResult<()>,
    e: GasEvent,
)
    requires
        charged_for(before, after, r, before.admits(e), before.next(e)),
    ensures
        r is Ok,
        after == before,
{
}

} // verus!
