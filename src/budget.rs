use vstd::prelude::*;
use vstd::arithmetic::mul::lemma_mul_nonnegative;
use crate::gas::{
    charged_for, GasEvent, GasMeter, InternalGas, MeteringFailure, ModuleId, NumArgs, NumBytes,
    PartialVMResult,
};
use crate::instr::SimpleInstruction;
use crate::views::{TypeDescriptor, ValueDescriptor};

verus! {

/// Unit prices of a budgeted meter.
#[derive(Debug, Clone, Copy, PartialEq, Eq, Structural, Hash)]
pub struct CostSchedule {
    /// Price of each fixed-cost instruction.
    pub instr: u64,
    /// Flat price of each parametric operation (every one but storage loads and natives).
    pub op: u64,
    /// Price of each element of an argument, type-argument, field or vector-element list.
    pub per_arg: u64,
    /// Price of each abstract byte of a value handed over.
    pub per_value_byte: u64,
    /// Price of each byte of a constant, or of a resource loaded from storage.
    pub per_loaded_byte: u64,
    /// Extra price of an attempt that found nothing or failed.
    pub absent: u64,
}

/// What one value handed over costs under `s`.
pub open spec fn value_cost(s: CostSchedule, v: ValueDescriptor) -> int {
    s.per_value_byte * v.abstract_size
}

/// What one element of a value list costs under `s`.
pub open spec fn element_cost(s: CostSchedule, v: ValueDescriptor) -> int {
    s.per_arg + value_cost(s, v)
}

/// What a list of values costs under `s`: the sum of its elements' costs.
pub open spec fn values_cost(s: CostSchedule, vals: Seq<ValueDescriptor>) -> int
    decreases vals.len(),
{
    if vals.len() == 0 {
        0
    } else {
        values_cost(s, vals.drop_last()) + element_cost(s, vals.last())
    }
}

/// The extra cost of an outcome: nothing on success, `absent` otherwise.
pub open spec fn outcome_cost(s: CostSchedule, ok: bool) -> int {
    if ok {
        0
    } else {
        s.absent as int
    }
}

/// The extra cost of a value that may have been absent.
pub open spec fn present_cost(s: CostSchedule, v: Option<ValueDescriptor>) -> int {
    match v {
        Some(v) => value_cost(s, v),
        None => s.absent as int,
    }
}

/// What a budgeted meter with schedule `s` charges for `e`.
pub open spec fn event_cost(s: CostSchedule, e: GasEvent) -> int {
    match e {
        GasEvent::SimpleInstr(_) => s.instr as int,
        GasEvent::Call { args, .. } => s.op + values_cost(s, args),
        GasEvent::CallGeneric { ty_args, args, .. } => s.op + s.per_arg * ty_args.len()
            + values_cost(s, args),
        GasEvent::LdConst { size } => s.op + s.per_loaded_byte * size,
        GasEvent::CopyLoc { val } => s.op + value_cost(s, val),
        GasEvent::MoveLoc { val } => s.op + value_cost(s, val),
        GasEvent::StoreLoc { val } => s.op + value_cost(s, val),
        GasEvent::Pack { fields, .. } => s.op + values_cost(s, fields),
        GasEvent::Unpack { fields, .. } => s.op + values_cost(s, fields),
        GasEvent::ReadRef { val } => s.op + value_cost(s, val),
        GasEvent::WriteRef { val } => s.op + value_cost(s, val),
        GasEvent::Equal { lhs, rhs } => s.op + value_cost(s, lhs) + value_cost(s, rhs),
        GasEvent::NotEqual { lhs, rhs } => s.op + value_cost(s, lhs) + value_cost(s, rhs),
        GasEvent::BorrowGlobal { is_success, .. } => s.op + outcome_cost(s, is_success),
        GasEvent::Exists { exists, .. } => s.op + outcome_cost(s, exists),
        GasEvent::MoveFrom { val, .. } => s.op + present_cost(s, val),
        GasEvent::MoveTo { val, is_success, .. } => s.op + value_cost(s, val) + outcome_cost(
            s,
            is_success,
        ),
        GasEvent::VecPack { args, .. } => s.op + values_cost(s, args),
        GasEvent::VecLen { .. } => s.op as int,
        GasEvent::VecBorrow { is_success, .. } => s.op + outcome_cost(s, is_success),
        GasEvent::VecPushBack { val, .. } => s.op + value_cost(s, val),
        GasEvent::VecPopBack { val, .. } => s.op + present_cost(s, val),
        GasEvent::VecUnpack { expect_num_elements, .. } => s.op + s.per_arg * expect_num_elements,
        GasEvent::VecSwap { .. } => s.op as int,
        GasEvent::LoadResource { loaded } => match loaded {
            Some(n) => s.per_loaded_byte * n,
            None => s.absent as int,
        },
        GasEvent::NativeFunction { amount } => amount as int,
    }
}

/// `q` is the quote for a cost of `cost` under a budget of `limit`: the cost itself when it fits
/// the budget, `None` when it does not.
pub open spec fn quoted(q: Option<u64>, cost: int, limit: u64) -> bool {
    match q {
        Some(t) => t == cost && cost <= limit,
        None => cost > limit,
    }
}

/// Adds `units * price` to a running quote.
fn add_within(
    spent: Option<u64>,
    Ghost(so_far): Ghost<int>,
    units: u64,
    price: u64,
    limit: u64,
) -> (r: Option<u64>)
    requires
        quoted(spent, so_far, limit),
    ensures
        quoted(r, so_far + units * price, limit),
{
    proof {
        lemma_mul_nonnegative(units as int, price as int);
    }
    match spent {
        None => None,
        Some(t) => match units.checked_mul(price) {
            Some(p) => if p <= limit - t {
                Some(t + p)
            } else {
                None
            },
            None => None,
        },
    }
}

proof fn lemma_values_cost_nonnegative(s: CostSchedule, vals: Seq<ValueDescriptor>)
    ensures
        values_cost(s, vals) >= 0,
    decreases vals.len(),
{
    if vals.len() > 0 {
        lemma_values_cost_nonnegative(s, vals.drop_last());
        lemma_mul_nonnegative(s.per_value_byte as int, vals.last().abstract_size as int);
    }
}

proof fn lemma_values_cost_prefix(s: CostSchedule, vals: Seq<ValueDescriptor>, j: int)
    requires
        0 <= j <= vals.len(),
    ensures
        values_cost(s, vals.take(j)) <= values_cost(s, vals),
    decreases vals.len(),
{
    if j < vals.len() {
        lemma_values_cost_prefix(s, vals.drop_last(), j);
        assert(vals.drop_last().take(j) =~= vals.take(j));
        lemma_mul_nonnegative(s.per_value_byte as int, vals.last().abstract_size as int);
    } else {
        assert(vals.take(j) =~= vals);
    }
}

/// No step costs a negative amount.
pub proof fn lemma_event_cost_nonnegative(s: CostSchedule, e: GasEvent)
    ensures
        event_cost(s, e) >= 0,
{
    assert forall|v: ValueDescriptor| value_cost(s, v) >= 0 by {
        lemma_mul_nonnegative(s.per_value_byte as int, v.abstract_size as int);
    }
    match e {
        GasEvent::Call { args, .. } => lemma_values_cost_nonnegative(s, args),
        GasEvent::CallGeneric { ty_args, args, .. } => {
            lemma_values_cost_nonnegative(s, args);
            lemma_mul_nonnegative(s.per_arg as int, ty_args.len() as int);
        },
        GasEvent::LdConst { size } => lemma_mul_nonnegative(s.per_loaded_byte as int, size as int),
        GasEvent::Pack { fields, .. } => lemma_values_cost_nonnegative(s, fields),
        GasEvent::Unpack { fields, .. } => lemma_values_cost_nonnegative(s, fields),
        GasEvent::VecPack { args, .. } => lemma_values_cost_nonnegative(s, args),
        GasEvent::VecUnpack { expect_num_elements, .. } => lemma_mul_nonnegative(
            s.per_arg as int,
            expect_num_elements as int,
        ),
        GasEvent::LoadResource { loaded: Some(n) } => lemma_mul_nonnegative(
            s.per_loaded_byte as int,
            n as int,
        ),
        _ => {},
    }
}

/// Adds the cost of a value list to a running quote, stopping at the first element that no
/// longer fits the budget.
fn add_values(
    spent: Option<u64>,
    Ghost(so_far): Ghost<int>,
    vals: &[ValueDescriptor],
    s: &CostSchedule,
    limit: u64,
) -> (r: Option<u64>)
    requires
        quoted(spent, so_far, limit),
    ensures
        quoted(r, so_far + values_cost(*s, vals@), limit),
{
    let mut q = spent;
    let mut i: usize = 0;
    proof {
        assert(vals@.take(0) =~= Seq::<ValueDescriptor>::empty());
    }
    while i < vals.len() && q.is_some()
        invariant
            0 <= i <= vals@.len(),
            quoted(q, so_far + values_cost(*s, vals@.take(i as int)), limit),
        decreases vals@.len() - i,
    {
        let ghost before = so_far + values_cost(*s, vals@.take(i as int));
        proof {
            assert(vals@.take(i + 1).drop_last() =~= vals@.take(i as int));
            assert(vals@.take(i + 1).last() == vals@[i as int]);
        }
        q = add_within(q, Ghost(before), 1, s.per_arg, limit);
        let size = vals[i].abstract_size;
        q = add_within(q, Ghost(before + s.per_arg), s.per_value_byte, size, limit);
        i = i + 1;
    }
    proof {
        if i == vals@.len() {
            assert(vals@.take(i as int) =~= vals@);
        } else {
            lemma_values_cost_prefix(*s, vals@, i as int);
        }
    }
    q
}

/// The quote for the flat price of a parametric operation.
fn quote_op(s: &CostSchedule, limit: u64) -> (r: Option<u64>)
    ensures
        quoted(r, s.op as int, limit),
{
    add_within(Some(0), Ghost(0), 1, s.op, limit)
}

/// Adds the cost of one value handed over to a running quote.
fn add_value(
    spent: Option<u64>,
    Ghost(so_far): Ghost<int>,
    v: ValueDescriptor,
    s: &CostSchedule,
    limit: u64,
) -> (r: Option<u64>)
    requires
        quoted(spent, so_far, limit),
    ensures
        quoted(r, so_far + value_cost(*s, v), limit),
{
    add_within(spent, Ghost(so_far), s.per_value_byte, v.abstract_size, limit)
}

/// Adds the extra cost of an outcome to a running quote.
fn add_outcome(
    spent: Option<u64>,
    Ghost(so_far): Ghost<int>,
    ok: bool,
    s: &CostSchedule,
    limit: u64,
) -> (r: Option<u64>)
    requires
        quoted(spent, so_far, limit),
    ensures
        quoted(r, so_far + outcome_cost(*s, ok), limit),
{
    if ok {
        spent
    } else {
        add_within(spent, Ghost(so_far), 1, s.absent, limit)
    }
}

/// Adds the cost of a value that may have been absent to a running quote.
fn add_present(
    spent: Option<u64>,
    Ghost(so_far): Ghost<int>,
    v: Option<ValueDescriptor>,
    s: &CostSchedule,
    limit: u64,
) -> (r: Option<u64>)
    requires
        quoted(spent, so_far, limit),
    ensures
        quoted(r, so_far + present_cost(*s, v), limit),
{
    match v {
        Some(v) => add_value(spent, Ghost(so_far), v, s, limit),
        None => add_within(spent, Ghost(so_far), 1, s.absent, limit),
    }
}

/// A meter with a finite budget: each charge debits its cost under the schedule, and fails,
/// debiting nothing, when the cost exceeds what is left.
#[derive(Debug, Clone, Copy, PartialEq, Eq, Structural, Hash)]
pub struct BudgetGasMeter {
    /// Gas left.
    pub balance: u64,
    /// Unit prices.
    pub schedule: CostSchedule,
}

impl BudgetGasMeter {
    /// A meter with `budget` gas and the prices of `schedule`.
    pub fn new(budget: u64, schedule: CostSchedule) -> (r: Self)
        ensures
            r.balance == budget,
            r.schedule == schedule,
    {
        BudgetGasMeter { balance: budget, schedule }
    }

    /// Gas left.
    pub fn balance(&self) -> (r: u64)
        ensures
            r == self.balance,
    {
        self.balance
    }

    /// Debits a cost of `cost`, whose quote against the balance is `quote`.
    fn settle(&mut self, quote: Option<u64>, Ghost(cost): Ghost<int>) -> (r: PartialVMResult<()>)
        requires
            quoted(quote, cost, old(self).balance),
        ensures
            r is Ok <==> cost <= old(self).balance,
            r is Ok ==> *final(self) == (BudgetGasMeter {
                balance: (old(self).balance - cost) as u64,
                schedule: old(self).schedule,
            }),
            r is Err ==> *final(self) == *old(self),
    {
        match quote {
            Some(c) => {
                self.balance = self.balance - c;
                Ok(())
            },
            None => Err(MeteringFailure::OutOfGas),
        }
    }
}

impl GasMeter for BudgetGasMeter {
    open spec fn admits(&self, e: GasEvent) -> bool {
        event_cost(self.schedule, e) <= self.balance
    }

    open spec fn next(&self, e: GasEvent) -> Self {
        BudgetGasMeter {
            balance: (self.balance - event_cost(self.schedule, e)) as u64,
            schedule: self.schedule,
        }
    }

    fn charge_simple_instr(&mut self, instr: SimpleInstruction) -> (r: PartialVMResult<()>) {
        let s = self.schedule;
        let b = self.balance;
        let q = add_within(Some(0), Ghost(0), 1, s.instr, b);
        self.settle(q, Ghost(event_cost(s, GasEvent::SimpleInstr(instr))))
    }

    fn charge_call(
        &mut self,
        module_id: &ModuleId,
        func_name: &str,
        args: &[ValueDescriptor],
    ) -> (r: PartialVMResult<()>) {
        let s = self.schedule;
        let b = self.balance;
        let q = quote_op(&s, b);
        let q = add_values(q, Ghost(s.op as int), args, &s, b);
        let ghost e = GasEvent::Call { module: *module_id, func_name: func_name@, args: args@ };
        self.settle(q, Ghost(event_cost(s, e)))
    }

    fn charge_call_generic(
        &mut self,
        module_id: &ModuleId,
        func_name: &str,
        ty_args: &[TypeDescriptor],
        args: &[ValueDescriptor],
    ) -> (r: PartialVMResult<()>) {
        let s = self.schedule;
        let b = self.balance;
        let q = quote_op(&s, b);
        let q = add_within(q, Ghost(s.op as int), s.per_arg, ty_args.len() as u64, b);
        let q = add_values(q, Ghost(s.op + s.per_arg * ty_args@.len()), args, &s, b);
        let ghost e = GasEvent::CallGeneric {
            module: *module_id,
            func_name: func_name@,
            ty_args: ty_args@,
            args: args@,
        };
        self.settle(q, Ghost(event_cost(s, e)))
    }

    fn charge_ld_const(&mut self, size: NumBytes) -> (r: PartialVMResult<()>) {
        let s = self.schedule;
        let b = self.balance;
        let q = quote_op(&s, b);
        let q = add_within(q, Ghost(s.op as int), s.per_loaded_byte, size, b);
        self.settle(q, Ghost(event_cost(s, GasEvent::LdConst { size })))
    }

    fn charge_copy_loc(&mut self, val: ValueDescriptor) -> (r: PartialVMResult<()>) {
        let s = self.schedule;
        let b = self.balance;
        let q = quote_op(&s, b);
        let q = add_value(q, Ghost(s.op as int), val, &s, b);
        self.settle(q, Ghost(event_cost(s, GasEvent::CopyLoc { val })))
    }

    fn charge_move_loc(&mut self, val: ValueDescriptor) -> (r: PartialVMResult<()>) {
        let s = self.schedule;
        let b = self.balance;
        let q = quote_op(&s, b);
        let q = add_value(q, Ghost(s.op as int), val, &s, b);
        self.settle(q, Ghost(event_cost(s, GasEvent::MoveLoc { val })))
    }

    fn charge_store_loc(&mut self, val: ValueDescriptor) -> (r: PartialVMResult<()>) {
        let s = self.schedule;
        let b = self.balance;
        let q = quote_op(&s, b);
        let q = add_value(q, Ghost(s.op as int), val, &s, b);
        self.settle(q, Ghost(event_cost(s, GasEvent::StoreLoc { val })))
    }

    fn charge_pack(
        &mut self,
        is_generic: bool,
        args: &[ValueDescriptor],
    ) -> (r: PartialVMResult<()>) {
        let s = self.schedule;
        let b = self.balance;
        let q = quote_op(&s, b);
        let q = add_values(q, Ghost(s.op as int), args, &s, b);
        self.settle(q, Ghost(event_cost(s, GasEvent::Pack { is_generic, fields: args@ })))
    }

    fn charge_unpack(
        &mut self,
        is_generic: bool,
        args: &[ValueDescriptor],
    ) -> (r: PartialVMResult<()>) {
        let s = self.schedule;
        let b = self.balance;
        let q = quote_op(&s, b);
        let q = add_values(q, Ghost(s.op as int), args, &s, b);
        self.settle(q, Ghost(event_cost(s, GasEvent::Unpack { is_generic, fields: args@ })))
    }

    fn charge_read_ref(&mut self, val: ValueDescriptor) -> (r: PartialVMResult<()>) {
        let s = self.schedule;
        let b = self.balance;
        let q = quote_op(&s, b);
        let q = add_value(q, Ghost(s.op as int), val, &s, b);
        self.settle(q, Ghost(event_cost(s, GasEvent::ReadRef { val })))
    }

    fn charge_write_ref(&mut self, val: ValueDescriptor) -> (r: PartialVMResult<()>) {
        let s = self.schedule;
        let b = self.balance;
        let q = quote_op(&s, b);
        let q = add_value(q, Ghost(s.op as int), val, &s, b);
        self.settle(q, Ghost(event_cost(s, GasEvent::WriteRef { val })))
    }

    fn charge_eq(
        &mut self,
        lhs: ValueDescriptor,
        rhs: ValueDescriptor,
    ) -> (r: PartialVMResult<()>) {
        let s = self.schedule;
        let b = self.balance;
        let q = quote_op(&s, b);
        let q = add_value(q, Ghost(s.op as int), lhs, &s, b);
        let q = add_value(q, Ghost(s.op + value_cost(s, lhs)), rhs, &s, b);
        self.settle(q, Ghost(event_cost(s, GasEvent::Equal { lhs, rhs })))
    }

    fn charge_neq(
        &mut self,
        lhs: ValueDescriptor,
        rhs: ValueDescriptor,
    ) -> (r: PartialVMResult<()>) {
        let s = self.schedule;
        let b = self.balance;
        let q = quote_op(&s, b);
        let q = add_value(q, Ghost(s.op as int), lhs, &s, b);
        let q = add_value(q, Ghost(s.op + value_cost(s, lhs)), rhs, &s, b);
        self.settle(q, Ghost(event_cost(s, GasEvent::NotEqual { lhs, rhs })))
    }

    fn charge_borrow_global(
        &mut self,
        is_mut: bool,
        is_generic: bool,
        ty: TypeDescriptor,
        is_success: bool,
    ) -> (r: PartialVMResult<()>) {
        let s = self.schedule;
        let b = self.balance;
        let q = quote_op(&s, b);
        let q = add_outcome(q, Ghost(s.op as int), is_success, &s, b);
        let ghost e = GasEvent::BorrowGlobal { is_mut, is_generic, ty, is_success };
        self.settle(q, Ghost(event_cost(s, e)))
    }

    fn charge_exists(
        &mut self,
        is_generic: bool,
        ty: TypeDescriptor,
        exists: bool,
    ) -> (r: PartialVMResult<()>) {
        let s = self.schedule;
        let b = self.balance;
        let q = quote_op(&s, b);
        let q = add_outcome(q, Ghost(s.op as int), exists, &s, b);
        self.settle(q, Ghost(event_cost(s, GasEvent::Exists { is_generic, ty, exists })))
    }

    fn charge_move_from(
        &mut self,
        is_generic: bool,
        ty: TypeDescriptor,
        val: Option<ValueDescriptor>,
    ) -> (r: PartialVMResult<()>) {
        let s = self.schedule;
        let b = self.balance;
        let q = quote_op(&s, b);
        let q = add_present(q, Ghost(s.op as int), val, &s, b);
        self.settle(q, Ghost(event_cost(s, GasEvent::MoveFrom { is_generic, ty, val })))
    }

    fn charge_move_to(
        &mut self,
        is_generic: bool,
        ty: TypeDescriptor,
        val: ValueDescriptor,
        is_success: bool,
    ) -> (r: PartialVMResult<()>) {
        let s = self.schedule;
        let b = self.balance;
        let q = quote_op(&s, b);
        let q = add_value(q, Ghost(s.op as int), val, &s, b);
        let q = add_outcome(q, Ghost(s.op + value_cost(s, val)), is_success, &s, b);
        self.settle(q, Ghost(event_cost(s, GasEvent::MoveTo { is_generic, ty, val, is_success })))
    }

    fn charge_vec_pack(
        &mut self,
        ty: TypeDescriptor,
        args: &[ValueDescriptor],
    ) -> (r: PartialVMResult<()>) {
        let s = self.schedule;
        let b = self.balance;
        let q = quote_op(&s, b);
        let q = add_values(q, Ghost(s.op as int), args, &s, b);
        self.settle(q, Ghost(event_cost(s, GasEvent::VecPack { ty, args: args@ })))
    }

    fn charge_vec_len(&mut self, ty: TypeDescriptor) -> (r: PartialVMResult<()>) {
        let s = self.schedule;
        let b = self.balance;
        let q = quote_op(&s, b);
        self.settle(q, Ghost(event_cost(s, GasEvent::VecLen { ty })))
    }

    fn charge_vec_borrow(
        &mut self,
        is_mut: bool,
        ty: TypeDescriptor,
        is_success: bool,
    ) -> (r: PartialVMResult<()>) {
        let s = self.schedule;
        let b = self.balance;
        let q = quote_op(&s, b);
        let q = add_outcome(q, Ghost(s.op as int), is_success, &s, b);
        self.settle(q, Ghost(event_cost(s, GasEvent::VecBorrow { is_mut, ty, is_success })))
    }

    fn charge_vec_push_back(
        &mut self,
        ty: TypeDescriptor,
        val: ValueDescriptor,
    ) -> (r: PartialVMResult<()>) {
        let s = self.schedule;
        let b = self.balance;
        let q = quote_op(&s, b);
        let q = add_value(q, Ghost(s.op as int), val, &s, b);
        self.settle(q, Ghost(event_cost(s, GasEvent::VecPushBack { ty, val })))
    }

    fn charge_vec_pop_back(
        &mut self,
        ty: TypeDescriptor,
        val: Option<ValueDescriptor>,
    ) -> (r: PartialVMResult<()>) {
        let s = self.schedule;
        let b = self.balance;
        let q = quote_op(&s, b);
        let q = add_present(q, Ghost(s.op as int), val, &s, b);
        self.settle(q, Ghost(event_cost(s, GasEvent::VecPopBack { ty, val })))
    }

    fn charge_vec_unpack(
        &mut self,
        ty: TypeDescriptor,
        expect_num_elements: NumArgs,
    ) -> (r: PartialVMResult<()>) {
        let s = self.schedule;
        let b = self.balance;
        let q = quote_op(&s, b);
        let q = add_within(q, Ghost(s.op as int), s.per_arg, expect_num_elements, b);
        self.settle(q, Ghost(event_cost(s, GasEvent::VecUnpack { ty, expect_num_elements })))
    }

    fn charge_vec_swap(&mut self, ty: TypeDescriptor) -> (r: PartialVMResult<()>) {
        let s = self.schedule;
        let b = self.balance;
        let q = quote_op(&s, b);
        self.settle(q, Ghost(event_cost(s, GasEvent::VecSwap { ty })))
    }

    fn charge_load_resource(&mut self, loaded: Option<NumBytes>) -> (r: PartialVMResult<()>) {
        let s = self.schedule;
        let b = self.balance;
        let q = match loaded {
            Some(n) => add_within(Some(0), Ghost(0), s.per_loaded_byte, n, b),
            None => add_within(Some(0), Ghost(0), 1, s.absent, b),
        };
        self.settle(q, Ghost(event_cost(s, GasEvent::LoadResource { loaded })))
    }

    fn charge_native_function(&mut self, amount: InternalGas) -> (r: PartialVMResult<()>) {
        let s = self.schedule;
        let b = self.balance;
        let q = add_within(Some(0), Ghost(0), 1, amount, b);
        self.settle(q, Ghost(event_cost(s, GasEvent::NativeFunction { amount })))
    }
}



/// A budgeted charge succeeds exactly when its cost fits the balance, and then debits exactly
/// that cost; a refused charge debits nothing, so the balance never grows. Every charge method
/// of [`BudgetGasMeter`] ends in `charged_for`, so this holds of each of them.
pub proof fn lemma_budget_charge_exact(
    before: BudgetGasMeter,
    after: BudgetGasMeter,
    r: PartialVMResult<()>,
    e: GasEvent,
)
    requires
        charged_for(before, after, r, before.admits(e), before.next(e)),
    ensures
        r is Ok <==> event_cost(before.schedule, e) <= before.balance,
        r is Ok ==> after.balance == before.balance - event_cost(before.schedule, e),
        r is Err ==> after.balance == before.balance,
        after.balance <= before.balance,
        after.schedule == before.schedule,
{
    lemma_event_cost_nonnegative(before.schedule, e);
}

/// A cold load that brought `n` bytes and one that found nothing reach the policy as different
/// steps, which a budgeted meter prices independently: the bytes by `per_loaded_byte`, the
/// absence by `absent`.
pub proof fn lemma_load_outcomes_distinct(s: CostSchedule, n: NumBytes)
    ensures
        (GasEvent::LoadResource { loaded: Some(n) }) != (GasEvent::LoadResource { loaded: None }),
        event_cost(s, GasEvent::LoadResource { loaded: Some(n) }) == s.per_loaded_byte * n,
        event_cost(s, GasEvent::LoadResource { loaded: None }) == s.absent,
{
}

/// Global-storage steps that differ only in their outcome reach the policy as different steps,
/// and a budgeted meter charges the failed or empty outcome `absent` more (or, for a move out of
/// storage, `absent` in place of the value's cost).
pub proof fn lemma_global_outcomes_distinct(
    s: CostSchedule,
    is_mut: bool,
    is_generic: bool,
    ty: TypeDescriptor,
    v: ValueDescriptor,
)
    ensures
        (GasEvent::Exists { is_generic, ty, exists: true }) != (GasEvent::Exists {
            is_generic,
            ty,
            exists: false,
        }),
        event_cost(s, GasEvent::Exists { is_generic, ty, exists: false }) == event_cost(
            s,
            GasEvent::Exists { is_generic, ty, exists: true },
        ) + s.absent,
        (GasEvent::BorrowGlobal { is_mut, is_generic, ty, is_success: true }) != (
        GasEvent::BorrowGlobal { is_mut, is_generic, ty, is_success: false }),
        event_cost(s, GasEvent::BorrowGlobal { is_mut, is_generic, ty, is_success: false })
            == event_cost(s, GasEvent::BorrowGlobal { is_mut, is_generic, ty, is_success: true })
            + s.absent,
        (GasEvent::MoveFrom { is_generic, ty, val: Some(v) }) != (GasEvent::MoveFrom {
            is_generic,
            ty,
            val: None,
        }),
        event_cost(s, GasEvent::MoveFrom { is_generic, ty, val: Some(v) }) == s.op + value_cost(
            s,
            v,
        ),
        event_cost(s, GasEvent::MoveFrom { is_generic, ty, val: None }) == s.op + s.absent,
{
}

} // verus!
