//! Charging gas for a formula: a metering context that deducts the materialized
//! amount from a budget, one that only records the formula's shape, and a native
//! function that charges before it does its work.
use crate::formula::{GasFormula, GasParameters, ParamTag, StepRecorder, VisitStep};
use crate::gas_algebra::{args_unit, gas_unit, unit_fits, unit_product, sat_add, sat_mul, GasQuantity, Unit};
use vstd::prelude::*;

verus! {

/// Why a charge failed.
#[derive(Clone, Copy, Debug, PartialEq, Eq, Structural)]
pub enum GasError {
    /// The budget is smaller than the amount charged.
    OutOfGas,
}

/// A metering context: what a native function charges its costs to.
pub trait GasCore {
    /// What charging the formula in this state returns.
    spec fn charge_outcome(&self, amount: GasFormula) -> Result<(), GasError>;

    fn charge(&mut self, amount: &GasFormula) -> (r: Result<(), GasError>)
        requires
            amount.well_typed(),
            amount.unit_of() == gas_unit(),
        ensures
            r == old(self).charge_outcome(*amount),
    ;
}

/// A metering context that materializes each charge against its table and deducts
/// it from the remaining budget.
pub struct ConcreteGasCore {
    pub gas_params: GasParameters,
    pub balance: u64,
}

impl ConcreteGasCore {
    pub fn new(gas_params: GasParameters, balance: u64) -> (c: ConcreteGasCore)
        ensures
            c.gas_params == gas_params,
            c.balance == balance,
    {
        ConcreteGasCore { gas_params, balance }
    }

    /// Deducts the amount of the formula from the budget, or fails with `OutOfGas`
    /// and leaves the budget as it was where the budget is smaller.
    pub fn charge_formula(&mut self, amount: &GasFormula) -> (r: Result<(), GasError>)
        requires
            amount.well_typed(),
        ensures
            final(self).gas_params == old(self).gas_params,
            r == (if amount.amount_in(old(self).gas_params) <= old(self).balance {
                Ok::<(), GasError>(())
            } else {
                Err(GasError::OutOfGas)
            }),
            r is Ok ==> final(self).balance == old(self).balance - amount.amount_in(
                old(self).gas_params,
            ),
            r is Err ==> final(self).balance == old(self).balance && r == Err::<(), GasError>(
                GasError::OutOfGas,
            ),
    {
        let cost = amount.materialize(&self.gas_params);
        if cost.amount <= self.balance {
            self.balance = self.balance - cost.amount;
            Ok(())
        } else {
            Err(GasError::OutOfGas)
        }
    }
}

impl GasCore for ConcreteGasCore {
    /// `Ok` where the budget covers the materialized amount, else `OutOfGas`.
    open spec fn charge_outcome(&self, amount: GasFormula) -> Result<(), GasError> {
        if amount.amount_in(self.gas_params) <= self.balance {
            Ok(())
        } else {
            Err(GasError::OutOfGas)
        }
    }

    fn charge(&mut self, amount: &GasFormula) -> (r: Result<(), GasError>) {
        self.charge_formula(amount)
    }
}

/// A metering context that charges nothing and records the steps of each formula
/// it is handed, for inspection without a table.
pub struct AbstractGasCore {
    pub visitor: StepRecorder,
}

impl AbstractGasCore {
    pub fn new() -> (c: AbstractGasCore)
        ensures
            c.visitor.steps@ == Seq::<VisitStep>::empty(),
    {
        AbstractGasCore { visitor: StepRecorder::new() }
    }

    /// Appends the post-order steps of the formula to the record; never fails.
    pub fn charge_formula(&mut self, amount: &GasFormula) -> (r: Result<(), GasError>)
        ensures
            final(self).visitor.steps@ == old(self).visitor.steps@ + amount.post_order(),
            r == Ok::<(), GasError>(()),
    {
        amount.visit(&mut self.visitor);
        Ok(())
    }
}

impl GasCore for AbstractGasCore {
    /// Always `Ok`.
    open spec fn charge_outcome(&self, amount: GasFormula) -> Result<(), GasError> {
        Ok(())
    }

    fn charge(&mut self, amount: &GasFormula) -> (r: Result<(), GasError>) {
        self.charge_formula(amount)
    }
}

/// The sum of a sequence of integers.
pub open spec fn seq_sum(s: Seq<u64>) -> int
    decreases s.len(),
{
    if s.len() == 0 {
        0
    } else {
        seq_sum(s.drop_last()) + s.last()
    }
}

proof fn lemma_prefix_sum_le(s: Seq<u64>, i: int)
    requires
        0 <= i <= s.len(),
    ensures
        seq_sum(s.subrange(0, i)) <= seq_sum(s),
    decreases s.len(),
{
    if i < s.len() {
        lemma_prefix_sum_le(s.drop_last(), i);
        assert(s.drop_last().subrange(0, i) =~= s.subrange(0, i));
    } else {
        assert(s.subrange(0, i) =~= s);
    }
}

/// The cost formula of summing `n` values: `base + per_element * n`.
pub open spec fn sum_formula(n: u64) -> GasFormula {
    GasFormula::Add(
        Box::new(GasFormula::Param(ParamTag::SumBase)),
        Box::new(
            GasFormula::Mul(
                Box::new(GasFormula::Param(ParamTag::SumPerElement)),
                Box::new(
                    GasFormula::Quantity(
                        GasQuantity { amount: n, unit: Unit { gas: 0, args: 1, bytes: 0 } },
                    ),
                ),
            ),
        ),
    )
}

/// Builds `sum_formula(n)`.
pub fn sum_cost(n: u64) -> (f: GasFormula)
    ensures
        f == sum_formula(n),
        f.well_typed(),
        f.unit_of() == gas_unit(),
        forall|p: GasParameters| #[trigger]
            f.amount_in(p) == sat_add(
                p.sum_base as int,
                sat_mul(p.sum_per_element as int, n as int),
            ),
        f.post_order() == seq![
            VisitStep::Param(ParamTag::SumBase),
            VisitStep::Param(ParamTag::SumPerElement),
            VisitStep::Quantity(GasQuantity { amount: n, unit: Unit { gas: 0, args: 1, bytes: 0 } }),
            VisitStep::Mul,
            VisitStep::Add,
        ],
{
    let count = GasQuantity::num_args(n);
    let base = GasFormula::Param(ParamTag::SumBase);
    let per_element = GasFormula::Param(ParamTag::SumPerElement);
    let scaled = GasFormula::Mul(Box::new(per_element), Box::new(GasFormula::Quantity(count)));
    assert(per_element.unit_of() == crate::gas_algebra::gas_per_arg_unit());
    assert(GasFormula::Quantity(count).unit_of() == args_unit());
    assert(unit_fits(unit_product(per_element.unit_of(), GasFormula::Quantity(count).unit_of())));
    assert(per_element.well_typed() && GasFormula::Quantity(count).well_typed());
    assert(per_element.post_order() == seq![VisitStep::Param(ParamTag::SumPerElement)]);
    assert(GasFormula::Quantity(count).post_order() == seq![VisitStep::Quantity(count)]);
    assert(scaled.well_typed());
    assert(scaled.unit_of() == gas_unit());
    assert(scaled.post_order() =~= seq![
            VisitStep::Param(ParamTag::SumPerElement),
            VisitStep::Quantity(count),
            VisitStep::Mul,
        ]);
    assert(base.well_typed() && base.unit_of() == gas_unit());
    assert(base.post_order() == seq![VisitStep::Param(ParamTag::SumBase)]);
    let f = GasFormula::Add(Box::new(base), Box::new(scaled));
    assert(f.post_order() =~= seq![
            VisitStep::Param(ParamTag::SumBase),
            VisitStep::Param(ParamTag::SumPerElement),
            VisitStep::Quantity(count),
            VisitStep::Mul,
            VisitStep::Add,
        ]);
    assert forall|p: GasParameters| #[trigger]
        f.amount_in(p) == sat_add(
            p.sum_base as int,
            sat_mul(p.sum_per_element as int, n as int),
        ) by {
        assert(base.amount_in(p) == p.sum_base);
        assert(per_element.amount_in(p) == p.sum_per_element);
        assert(GasFormula::Quantity(count).amount_in(p) == n);
        assert(scaled.amount_in(p) == sat_mul(p.sum_per_element as int, n as int));
    }
    f
}

/// The sum of the values, which must fit in `u64`.
pub fn sum_values(v: &[u64]) -> (r: u64)
    requires
        seq_sum(v@) <= u64::MAX,
    ensures
        r == seq_sum(v@),
{
    let mut total: u64 = 0;
    let mut i: usize = 0;
    while i < v.len()
        invariant
            0 <= i <= v@.len(),
            total == seq_sum(v@.subrange(0, i as int)),
            seq_sum(v@) <= u64::MAX,
        decreases v@.len() - i,
    {
        proof {
            assert(v@.subrange(0, i + 1).drop_last() =~= v@.subrange(0, i as int));
            lemma_prefix_sum_le(v@, i + 1);
        }
        total = total + v[i];
        i = i + 1;
    }
    assert(v@.subrange(0, i as int) =~= v@);
    total
}

/// A native that sums its values: it charges `base + per_element * len` first,
/// and returns the sum where the charge succeeds.
pub fn native_sum<G: GasCore>(gas_core: &mut G, v: &[u64]) -> (r: Result<u64, GasError>)
    requires
        seq_sum(v@) <= u64::MAX,
    ensures
        old(gas_core).charge_outcome(sum_formula(v@.len() as u64)) is Ok ==> r == Ok::<
            u64,
            GasError,
        >(seq_sum(v@) as u64),
        old(gas_core).charge_outcome(sum_formula(v@.len() as u64)) matches Err(e) ==> r == Err::<
            u64,
            GasError,
        >(e),
{
    let cost = sum_cost(v.len() as u64);
    match gas_core.charge(&cost) {
        Ok(()) => Ok(sum_values(v)),
        Err(e) => Err(e),
    }
}

} // verus!
