use vstd::prelude::*;

verus! {

/// Instructions whose cost needs no runtime information beyond the instruction itself.
#[derive(Debug, Clone, Copy, PartialEq, Eq, Structural, Hash)]
pub enum SimpleInstruction {
    Nop,
    Ret,

    BrTrue,
    BrFalse,
    Branch,

    Pop,
    LdU8,
    LdU16,
    LdU32,
    LdU64,
    LdU128,
    LdU256,
    LdTrue,
    LdFalse,

    FreezeRef,
    MutBorrowLoc,
    ImmBorrowLoc,
    ImmBorrowField,
    MutBorrowField,
    ImmBorrowFieldGeneric,
    MutBorrowFieldGeneric,

    CastU8,
    CastU16,
    CastU32,
    CastU64,
    CastU128,
    CastU256,

    Add,
    Sub,
    Mul,
    Mod,
    Div,

    BitOr,
    BitAnd,
    Xor,
    Shl,
    Shr,

    Or,
    And,
    Not,

    Lt,
    Gt,
    Le,
    Ge,

    Abort,
}

} // verus!
