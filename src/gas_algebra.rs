//! Gas quantities tagged with a unit of measure.
//!
//! A unit is a product of powers of three base dimensions: internal gas,
//! arguments and bytes. Quantities of one unit add; quantities of any units
//! multiply, and the unit of the product is the product of the units.
use vstd::prelude::*;

verus! {

/// The largest amount a gas quantity holds; arithmetic saturates there.
pub const MAX_AMOUNT: u64 = 0xffff_ffff_ffff_ffff;

/// A unit of measure, as the exponents of the three base dimensions.
#[derive(Clone, Copy, Debug, PartialEq, Eq, Structural)]
pub struct Unit {
    pub gas: i64,
    pub args: i64,
    pub bytes: i64,
}

/// The mathematical value of a unit: its three exponents.
pub struct UnitVal {
    pub gas: int,
    pub args: int,
    pub bytes: int,
}

/// The structural product of two units: exponents add.
pub open spec fn unit_product(a: UnitVal, b: UnitVal) -> UnitVal {
    UnitVal { gas: a.gas + b.gas, args: a.args + b.args, bytes: a.bytes + b.bytes }
}

/// Whether each exponent of a unit fits the executable representation.
pub open spec fn unit_fits(u: UnitVal) -> bool {
    &&& i64::MIN <= u.gas <= i64::MAX
    &&& i64::MIN <= u.args <= i64::MAX
    &&& i64::MIN <= u.bytes <= i64::MAX
}

/// The unit of internal gas.
pub open spec fn gas_unit() -> UnitVal {
    UnitVal { gas: 1, args: 0, bytes: 0 }
}

/// The unit of internal gas per argument.
pub open spec fn gas_per_arg_unit() -> UnitVal {
    UnitVal { gas: 1, args: -1, bytes: 0 }
}

/// The unit of internal gas per byte.
pub open spec fn gas_per_byte_unit() -> UnitVal {
    UnitVal { gas: 1, args: 0, bytes: -1 }
}

/// The unit of a count of arguments.
pub open spec fn args_unit() -> UnitVal {
    UnitVal { gas: 0, args: 1, bytes: 0 }
}

/// The unit of a count of bytes.
pub open spec fn bytes_unit() -> UnitVal {
    UnitVal { gas: 0, args: 0, bytes: 1 }
}

impl View for Unit {
    type V = UnitVal;

    open spec fn view(&self) -> UnitVal {
        UnitVal { gas: self.gas as int, args: self.args as int, bytes: self.bytes as int }
    }
}

impl Unit {
    /// Internal gas: a flat cost.
    pub fn internal_gas() -> (u: Unit)
        ensures
            u@ == gas_unit(),
    {
        Unit { gas: 1, args: 0, bytes: 0 }
    }

    /// Internal gas per argument.
    pub fn gas_per_arg() -> (u: Unit)
        ensures
            u@ == gas_per_arg_unit(),
    {
        Unit { gas: 1, args: -1, bytes: 0 }
    }

    /// Internal gas per byte.
    pub fn gas_per_byte() -> (u: Unit)
        ensures
            u@ == gas_per_byte_unit(),
    {
        Unit { gas: 1, args: 0, bytes: -1 }
    }

    /// A count of arguments.
    pub fn num_args() -> (u: Unit)
        ensures
            u@ == args_unit(),
    {
        Unit { gas: 0, args: 1, bytes: 0 }
    }

    /// A count of bytes.
    pub fn num_bytes() -> (u: Unit)
        ensures
            u@ == bytes_unit(),
    {
        Unit { gas: 0, args: 0, bytes: 1 }
    }

    /// The product of two units, or `None` where an exponent leaves the range of `i64`.
    pub fn checked_product(self, other: Unit) -> (r: Option<Unit>)
        ensures
            r is Some <==> unit_fits(unit_product(self@, other@)),
            r matches Some(u) ==> u@ == unit_product(self@, other@),
    {
        match (self.gas.checked_add(other.gas), self.args.checked_add(other.args), self.bytes.checked_add(other.bytes)) {
            (Some(gas), Some(args), Some(bytes)) => Some(Unit { gas, args, bytes }),
            _ => None,
        }
    }
}

/// `a + b`, saturated at the largest amount.
pub open spec fn sat_add(a: int, b: int) -> int {
    if a + b > MAX_AMOUNT { MAX_AMOUNT as int } else { a + b }
}

/// `a * b`, saturated at the largest amount.
pub open spec fn sat_mul(a: int, b: int) -> int {
    if a * b > MAX_AMOUNT { MAX_AMOUNT as int } else { a * b }
}

/// An amount of some unit.
#[derive(Clone, Copy, Debug, PartialEq, Eq, Structural)]
pub struct GasQuantity {
    pub amount: u64,
    pub unit: Unit,
}

impl GasQuantity {
    pub fn new(amount: u64, unit: Unit) -> (q: GasQuantity)
        ensures
            q.amount == amount,
            q.unit == unit,
    {
        GasQuantity { amount, unit }
    }

    /// Zero internal gas.
    pub fn zero() -> (q: GasQuantity)
        ensures
            q.amount == 0,
            q.unit@ == gas_unit(),
    {
        GasQuantity { amount: 0, unit: Unit::internal_gas() }
    }

    /// A count of `n` arguments.
    pub fn num_args(n: u64) -> (q: GasQuantity)
        ensures
            q.amount == n,
            q.unit@ == args_unit(),
    {
        GasQuantity { amount: n, unit: Unit::num_args() }
    }

    /// One argument: multiplying a per-argument cost by it gives a flat cost.
    pub fn one() -> (q: GasQuantity)
        ensures
            q.amount == 1,
            q.unit@ == args_unit(),
    {
        GasQuantity::num_args(1)
    }

    /// A count of `n` bytes.
    pub fn num_bytes(n: u64) -> (q: GasQuantity)
        ensures
            q.amount == n,
            q.unit@ == bytes_unit(),
    {
        GasQuantity { amount: n, unit: Unit::num_bytes() }
    }

    /// The sum of two quantities of one unit, saturated at the largest amount.
    pub fn plus(self, other: GasQuantity) -> (r: GasQuantity)
        requires
            self.unit == other.unit,
        ensures
            r.amount == sat_add(self.amount as int, other.amount as int),
            r.unit == self.unit,
    {
        GasQuantity { amount: self.amount.saturating_add(other.amount), unit: self.unit }
    }

    /// The product of two quantities, saturated at the largest amount; its unit is
    /// the product of the units.
    pub fn times(self, other: GasQuantity) -> (r: GasQuantity)
        requires
            unit_fits(unit_product(self.unit@, other.unit@)),
        ensures
            r.amount == sat_mul(self.amount as int, other.amount as int),
            r.unit@ == unit_product(self.unit@, other.unit@),
    {
        let unit = Unit {
            gas: self.unit.gas + other.unit.gas,
            args: self.unit.args + other.unit.args,
            bytes: self.unit.bytes + other.unit.bytes,
        };
        let a: u64 = self.amount;
        let b: u64 = other.amount;
        proof {
            assert(a as int * b as int <= 0xffff_ffff_ffff_ffffint * 0xffff_ffff_ffff_ffffint)
                by (nonlinear_arith)
                requires
                    a <= 0xffff_ffff_ffff_ffffint,
                    b <= 0xffff_ffff_ffff_ffffint,
                    0 <= a,
                    0 <= b,
            ;
        }
        let wide: u128 = (self.amount as u128) * (other.amount as u128);
        let amount: u64 = if wide > MAX_AMOUNT as u128 { MAX_AMOUNT } else { wide as u64 };
        GasQuantity { amount, unit }
    }
}

} // verus!
