//! Gas formulas: expression trees over gas parameters and quantities, with two
//! interpreters. `materialize` evaluates a formula against a parameter table;
//! `visit` walks it in post-order without one.
use crate::gas_algebra::{
    gas_per_arg_unit, gas_per_byte_unit, gas_unit, sat_add, sat_mul, unit_fits, unit_product,
    GasQuantity, Unit, UnitVal,
};
use vstd::prelude::*;

verus! {

/// The name of one entry of the gas parameter table.
#[derive(Clone, Copy, Debug, PartialEq, Eq, Structural)]
pub enum ParamTag {
    SumBase,
    SumPerElement,
    PointIdentity,
    PointDecompress,
    PointCompress,
    PointMul,
    PointEquals,
    PointNeg,
    PointAdd,
    PointSub,
    BasepointMul,
    BasepointDoubleMul,
    PointFrom64UniformBytes,
    Sha512PerHash,
    Sha512PerByte,
    ScalarParseArg,
    PointParseArg,
}

/// The unit of a parameter, fixed by its name.
pub open spec fn param_unit(t: ParamTag) -> UnitVal {
    match t {
        ParamTag::SumBase => gas_unit(),
        ParamTag::Sha512PerHash => gas_per_arg_unit(),
        ParamTag::Sha512PerByte => gas_per_byte_unit(),
        _ => gas_per_arg_unit(),
    }
}

impl ParamTag {
    pub fn unit(&self) -> (u: Unit)
        ensures
            u@ == param_unit(*self),
    {
        match self {
            ParamTag::SumBase => Unit::internal_gas(),
            ParamTag::Sha512PerByte => Unit::gas_per_byte(),
            _ => Unit::gas_per_arg(),
        }
    }
}

/// The gas parameter table: the amount of each parameter, in the unit that its
/// name fixes.
#[derive(Clone, Copy, Debug, PartialEq, Eq, Structural)]
pub struct GasParameters {
    pub sum_base: u64,
    pub sum_per_element: u64,
    pub point_identity: u64,
    pub point_decompress: u64,
    pub point_compress: u64,
    pub point_mul: u64,
    pub point_equals: u64,
    pub point_neg: u64,
    pub point_add: u64,
    pub point_sub: u64,
    pub basepoint_mul: u64,
    pub basepoint_double_mul: u64,
    pub point_from_64_uniform_bytes: u64,
    pub sha512_per_hash: u64,
    pub sha512_per_byte: u64,
    pub scalar_parse_arg: u64,
    pub point_parse_arg: u64,
}

impl GasParameters {
    /// The amount that the table holds for a parameter.
    pub open spec fn amount_of(&self, t: ParamTag) -> u64 {
        match t {
            ParamTag::SumBase => self.sum_base,
            ParamTag::SumPerElement => self.sum_per_element,
            ParamTag::PointIdentity => self.point_identity,
            ParamTag::PointDecompress => self.point_decompress,
            ParamTag::PointCompress => self.point_compress,
            ParamTag::PointMul => self.point_mul,
            ParamTag::PointEquals => self.point_equals,
            ParamTag::PointNeg => self.point_neg,
            ParamTag::PointAdd => self.point_add,
            ParamTag::PointSub => self.point_sub,
            ParamTag::BasepointMul => self.basepoint_mul,
            ParamTag::BasepointDoubleMul => self.basepoint_double_mul,
            ParamTag::PointFrom64UniformBytes => self.point_from_64_uniform_bytes,
            ParamTag::Sha512PerHash => self.sha512_per_hash,
            ParamTag::Sha512PerByte => self.sha512_per_byte,
            ParamTag::ScalarParseArg => self.scalar_parse_arg,
            ParamTag::PointParseArg => self.point_parse_arg,
        }
    }

    /// The value of a parameter: its amount, in its unit.
    pub fn get(&self, t: ParamTag) -> (q: GasQuantity)
        ensures
            q.amount == self.amount_of(t),
            q.unit@ == param_unit(t),
    {
        let amount: u64 = match t {
            ParamTag::SumBase => self.sum_base,
            ParamTag::SumPerElement => self.sum_per_element,
            ParamTag::PointIdentity => self.point_identity,
            ParamTag::PointDecompress => self.point_decompress,
            ParamTag::PointCompress => self.point_compress,
            ParamTag::PointMul => self.point_mul,
            ParamTag::PointEquals => self.point_equals,
            ParamTag::PointNeg => self.point_neg,
            ParamTag::PointAdd => self.point_add,
            ParamTag::PointSub => self.point_sub,
            ParamTag::BasepointMul => self.basepoint_mul,
            ParamTag::BasepointDoubleMul => self.basepoint_double_mul,
            ParamTag::PointFrom64UniformBytes => self.point_from_64_uniform_bytes,
            ParamTag::Sha512PerHash => self.sha512_per_hash,
            ParamTag::Sha512PerByte => self.sha512_per_byte,
            ParamTag::ScalarParseArg => self.scalar_parse_arg,
            ParamTag::PointParseArg => self.point_parse_arg,
        };
        GasQuantity::new(amount, t.unit())
    }
}

/// Why a formula could not be built.
#[derive(Clone, Copy, Debug, PartialEq, Eq, Structural)]
pub enum FormulaError {
    /// The two sides of a sum have different units.
    UnitMismatch,
    /// The unit of a product has an exponent out of range.
    UnitOverflow,
}

/// A gas formula.
#[derive(Debug)]
pub enum GasFormula {
    Param(ParamTag),
    Quantity(GasQuantity),
    Add(Box<GasFormula>, Box<GasFormula>),
    Mul(Box<GasFormula>, Box<GasFormula>),
}

/// One step of a post-order walk over a formula.
#[derive(Clone, Copy, Debug, PartialEq, Eq, Structural)]
pub enum VisitStep {
    Add,
    Mul,
    Param(ParamTag),
    Quantity(GasQuantity),
}

impl GasFormula {
    /// The unit of a formula, from its shape and the units of its parameters alone.
    pub open spec fn unit_of(&self) -> UnitVal
        decreases self,
    {
        match self {
            GasFormula::Param(t) => param_unit(*t),
            GasFormula::Quantity(q) => q.unit@,
            GasFormula::Add(l, _) => l.unit_of(),
            GasFormula::Mul(l, r) => unit_product(l.unit_of(), r.unit_of()),
        }
    }

    /// Whether both sides of each sum have one unit, and each product's unit is
    /// in range.
    pub open spec fn well_typed(&self) -> bool
        decreases self,
    {
        match self {
            GasFormula::Param(_) => true,
            GasFormula::Quantity(_) => true,
            GasFormula::Add(l, r) => l.well_typed() && r.well_typed() && l.unit_of() == r.unit_of(),
            GasFormula::Mul(l, r) => l.well_typed() && r.well_typed() && unit_fits(
                unit_product(l.unit_of(), r.unit_of()),
            ),
        }
    }

    /// The amount of a formula against a table.
    pub open spec fn amount_in(&self, p: GasParameters) -> int
        decreases self,
    {
        match self {
            GasFormula::Param(t) => p.amount_of(*t) as int,
            GasFormula::Quantity(q) => q.amount as int,
            GasFormula::Add(l, r) => sat_add(l.amount_in(p), r.amount_in(p)),
            GasFormula::Mul(l, r) => sat_mul(l.amount_in(p), r.amount_in(p)),
        }
    }

    /// The steps of a post-order walk: children left to right, then the node.
    pub open spec fn post_order(&self) -> Seq<VisitStep>
        decreases self,
    {
        match self {
            GasFormula::Param(t) => seq![VisitStep::Param(*t)],
            GasFormula::Quantity(q) => seq![VisitStep::Quantity(*q)],
            GasFormula::Add(l, r) => l.post_order() + r.post_order() + seq![VisitStep::Add],
            GasFormula::Mul(l, r) => l.post_order() + r.post_order() + seq![VisitStep::Mul],
        }
    }

    /// A reference to a parameter.
    pub fn param(t: ParamTag) -> (f: GasFormula)
        ensures
            f == GasFormula::Param(t),
    {
        GasFormula::Param(t)
    }

    /// A literal quantity.
    pub fn quantity(q: GasQuantity) -> (f: GasFormula)
        ensures
            f == GasFormula::Quantity(q),
    {
        GasFormula::Quantity(q)
    }

    /// The sum `l + r`, refused where the two units differ.
    pub fn add(l: GasFormula, r: GasFormula) -> (f: Result<GasFormula, FormulaError>)
        requires
            l.well_typed(),
            r.well_typed(),
        ensures
            f is Ok <==> l.unit_of() == r.unit_of(),
            f matches Ok(s) ==> s == GasFormula::Add(Box::new(l), Box::new(r)) && s.well_typed(),
            f matches Err(e) ==> e == FormulaError::UnitMismatch,
    {
        let lu = l.unit();
        let ru = r.unit();
        if lu == ru {
            Ok(GasFormula::Add(Box::new(l), Box::new(r)))
        } else {
            Err(FormulaError::UnitMismatch)
        }
    }

    /// The product `l * r`, refused where an exponent of its unit is out of range.
    pub fn mul(l: GasFormula, r: GasFormula) -> (f: Result<GasFormula, FormulaError>)
        requires
            l.well_typed(),
            r.well_typed(),
        ensures
            f is Ok <==> unit_fits(unit_product(l.unit_of(), r.unit_of())),
            f matches Ok(s) ==> s == GasFormula::Mul(Box::new(l), Box::new(r)) && s.well_typed(),
            f matches Err(e) ==> e == FormulaError::UnitOverflow,
    {
        let lu = l.unit();
        let ru = r.unit();
        match lu.checked_product(ru) {
            Some(_) => Ok(GasFormula::Mul(Box::new(l), Box::new(r))),
            None => Err(FormulaError::UnitOverflow),
        }
    }

    /// The unit of a well-typed formula.
    pub fn unit(&self) -> (u: Unit)
        requires
            self.well_typed(),
        ensures
            u@ == self.unit_of(),
        decreases self,
    {
        match self {
            GasFormula::Param(t) => t.unit(),
            GasFormula::Quantity(q) => q.unit,
            GasFormula::Add(l, _) => l.unit(),
            GasFormula::Mul(l, r) => {
                let lu = l.unit();
                let ru = r.unit();
                Unit { gas: lu.gas + ru.gas, args: lu.args + ru.args, bytes: lu.bytes + ru.bytes }
            },
        }
    }

    /// Evaluates the formula against a table, in post-order.
    pub fn materialize(&self, p: &GasParameters) -> (q: GasQuantity)
        requires
            self.well_typed(),
        ensures
            q.amount == self.amount_in(*p),
            q.unit@ == self.unit_of(),
        decreases self,
    {
        match self {
            GasFormula::Param(t) => p.get(*t),
            GasFormula::Quantity(q) => *q,
            GasFormula::Add(l, r) => {
                let a = l.materialize(p);
                let b = r.materialize(p);
                a.plus(b)
            },
            GasFormula::Mul(l, r) => {
                let a = l.materialize(p);
                let b = r.materialize(p);
                a.times(b)
            },
        }
    }

    /// Walks the formula in post-order, reporting each node to the visitor.
    pub fn visit<V: GasFormulaVisitor>(&self, visitor: &mut V)
        ensures
            final(visitor).recorded() == old(visitor).recorded() + self.post_order(),
        decreases self,
    {
        match self {
            GasFormula::Param(t) => visitor.on_param(*t),
            GasFormula::Quantity(q) => visitor.on_quantity(*q),
            GasFormula::Add(l, r) => {
                l.visit(visitor);
                r.visit(visitor);
                visitor.on_add();
            },
            GasFormula::Mul(l, r) => {
                l.visit(visitor);
                r.visit(visitor);
                visitor.on_mul();
            },
        }
    }
}

/// An observer of a post-order walk over a formula.
pub trait GasFormulaVisitor {
    /// The steps observed so far.
    spec fn recorded(&self) -> Seq<VisitStep>;

    fn on_add(&mut self)
        ensures
            final(self).recorded() == old(self).recorded().push(VisitStep::Add),
    ;

    fn on_mul(&mut self)
        ensures
            final(self).recorded() == old(self).recorded().push(VisitStep::Mul),
    ;

    fn on_param(&mut self, t: ParamTag)
        ensures
            final(self).recorded() == old(self).recorded().push(VisitStep::Param(t)),
    ;

    fn on_quantity(&mut self, q: GasQuantity)
        ensures
            final(self).recorded() == old(self).recorded().push(VisitStep::Quantity(q)),
    ;
}

/// A visitor that keeps the steps it observes, in order.
pub struct StepRecorder {
    pub steps: Vec<VisitStep>,
}

impl StepRecorder {
    pub fn new() -> (r: StepRecorder)
        ensures
            r.steps@ == Seq::<VisitStep>::empty(),
    {
        StepRecorder { steps: Vec::new() }
    }
}

impl GasFormulaVisitor for StepRecorder {
    open spec fn recorded(&self) -> Seq<VisitStep> {
        self.steps@
    }

    fn on_add(&mut self) {
        self.steps.push(VisitStep::Add);
    }

    fn on_mul(&mut self) {
        self.steps.push(VisitStep::Mul);
    }

    fn on_param(&mut self, t: ParamTag) {
        self.steps.push(VisitStep::Param(t));
    }

    fn on_quantity(&mut self, q: GasQuantity) {
        self.steps.push(VisitStep::Quantity(q));
    }
}

/// Materializing a sum of two formulas of one unit gives the saturated sum of
/// their amounts, in that unit, for every table.
pub proof fn lemma_materialize_add(f: GasFormula, g: GasFormula, p: GasParameters)
    requires
        f.well_typed(),
        g.well_typed(),
        f.unit_of() == g.unit_of(),
    ensures
        GasFormula::Add(Box::new(f), Box::new(g)).well_typed(),
        GasFormula::Add(Box::new(f), Box::new(g)).amount_in(p) == sat_add(f.amount_in(p), g.amount_in(p)),
        GasFormula::Add(Box::new(f), Box::new(g)).unit_of() == f.unit_of(),
{
}

/// The unit of a product of two formulas is the structural product of their
/// units, in either order, and does not depend on the table.
pub proof fn lemma_materialize_mul_unit(f: GasFormula, g: GasFormula)
    requires
        f.well_typed(),
        g.well_typed(),
        unit_fits(unit_product(f.unit_of(), g.unit_of())),
    ensures
        GasFormula::Mul(Box::new(f), Box::new(g)).well_typed(),
        GasFormula::Mul(Box::new(f), Box::new(g)).unit_of() == unit_product(f.unit_of(), g.unit_of()),
        GasFormula::Mul(Box::new(f), Box::new(g)).unit_of() == unit_product(g.unit_of(), f.unit_of()),
{
}

} // verus!
