//! Checked extents, grids and device offsets.

use crate::error::LaunchError;
use vstd::prelude::*;

verus! {

/// `ceil(value / divisor)` for a positive divisor.
pub open spec fn ceil_div(value: int, divisor: int) -> int {
    (value + divisor - 1) / divisor
}

/// Ceiling division is the least quotient whose multiple covers the value.
pub proof fn ceil_div_is_least_cover(value: int, divisor: int)
    requires
        value >= 0,
        divisor > 0,
    ensures
        ceil_div(value, divisor) * divisor >= value,
        (ceil_div(value, divisor) - 1) * divisor < value || value == 0,
        0 <= ceil_div(value, divisor) <= value,
        ceil_div(value, divisor) == 0 <==> value == 0,
{
    let q = ceil_div(value, divisor);
    let r = (value + divisor - 1) % divisor;
    vstd::arithmetic::div_mod::lemma_fundamental_div_mod(value + divisor - 1, divisor);
    vstd::arithmetic::mul::lemma_mul_is_commutative(q, divisor);
    assert((q - 1) * divisor == q * divisor - divisor) by (nonlinear_arith);
    assert(q * divisor == value + divisor - 1 - r);
    if value == 0 {
        assert(q == 0) by (nonlinear_arith)
            requires
                q * divisor == divisor - 1 - r,
                divisor > 0,
                0 <= r < divisor,
        ;
    } else {
        assert(q >= 1) by (nonlinear_arith)
            requires
                q * divisor >= value,
                value > 0,
                divisor > 0,
        ;
        assert(q <= value) by (nonlinear_arith)
            requires
                (q - 1) * divisor < value,
                value > 0,
                divisor > 0,
                q >= 1,
        ;
    }
}

/// Ceiling division rounds an inexact quotient up.
pub proof fn ceil_div_rounds_up(v: int, d: int)
    requires
        v >= 0,
        d > 0,
    ensures
        ceil_div(v, d) == v / d + if v % d == 0 {
            0int
        } else {
            1int
        },
{
    ceil_div_is_least_cover(v, d);
    vstd::arithmetic::div_mod::lemma_fundamental_div_mod(v, d);
    let q = v / d;
    let c = ceil_div(v, d);
    assert(d * q == q * d) by (nonlinear_arith);
    if v % d == 0 {
        assert(c == q) by (nonlinear_arith)
            requires
                v == q * d,
                c * d >= v,
                (c - 1) * d < v || v == 0,
                c == 0 <==> v == 0,
                d > 0,
        ;
    } else {
        assert((q + 1) * d == q * d + d) by (nonlinear_arith);
        assert(c == q + 1) by (nonlinear_arith)
            requires
                q * d < v < (q + 1) * d,
                c * d >= v,
                (c - 1) * d < v || v == 0,
                c == 0 <==> v == 0,
                d > 0,
        ;
    }
}

/// Exact ceiling division of two `u32` extents.
#[verifier::allow_in_spec]
pub fn div_ceil_u32(value: u32, divisor: u32) -> u32
    requires
        divisor > 0,
    returns
        ceil_div(value as int, divisor as int) as u32,
{
    proof {
        ceil_div_is_least_cover(value as int, divisor as int);
        ceil_div_rounds_up(value as int, divisor as int);
    }
    let floor: u32 = value / divisor;
    if value % divisor == 0 {
        floor
    } else {
        floor + 1
    }
}

/// Exact ceiling division of two host extents.
#[verifier::allow_in_spec]
pub fn div_ceil_usize(value: usize, divisor: usize) -> usize
    requires
        divisor > 0,
    returns
        ceil_div(value as int, divisor as int) as usize,
{
    proof {
        ceil_div_is_least_cover(value as int, divisor as int);
        ceil_div_rounds_up(value as int, divisor as int);
    }
    let floor: usize = value / divisor;
    if value % divisor == 0 {
        floor
    } else {
        floor + 1
    }
}

/// Exact ceiling division of two `u64` counts.
#[verifier::allow_in_spec]
pub fn div_ceil_u64(value: u64, divisor: u64) -> u64
    requires
        divisor > 0,
    returns
        ceil_div(value as int, divisor as int) as u64,
{
    proof {
        ceil_div_is_least_cover(value as int, divisor as int);
        ceil_div_rounds_up(value as int, divisor as int);
    }
    let floor: u64 = value / divisor;
    if value % divisor == 0 {
        floor
    } else {
        floor + 1
    }
}

/// A host extent as an unsigned launch dimension.
#[verifier::allow_in_spec]
pub fn checked_u32(value: usize, what: &'static str) -> Result<u32, LaunchError>
    returns
        (if value <= u32::MAX {
            Ok::<u32, LaunchError>(value as u32)
        } else {
            Err::<u32, LaunchError>(LaunchError::ExceedsU32(what))
        }),
{
    if value as u64 <= 0xffff_ffffu64 {
        Ok(value as u32)
    } else {
        Err(LaunchError::ExceedsU32(what))
    }
}

/// A host extent as a signed kernel argument.
#[verifier::allow_in_spec]
pub fn checked_i32(value: usize, what: &'static str) -> Result<i32, LaunchError>
    returns
        (if value <= i32::MAX {
            Ok::<i32, LaunchError>(value as i32)
        } else {
            Err::<i32, LaunchError>(LaunchError::ExceedsI32(what))
        }),
{
    if value as u64 <= 0x7fff_ffffu64 {
        Ok(value as i32)
    } else {
        Err(LaunchError::ExceedsI32(what))
    }
}

/// The product of two launch extents.
#[verifier::allow_in_spec]
pub fn checked_u32_product(left: u32, right: u32, what: &'static str) -> Result<u32, LaunchError>
    returns
        (if left * right <= u32::MAX {
            Ok::<u32, LaunchError>((left * right) as u32)
        } else {
            Err::<u32, LaunchError>(LaunchError::ProductOverflow(what))
        }),
{
    match left.checked_mul(right) {
        Some(product) => Ok(product),
        None => Err(LaunchError::ProductOverflow(what)),
    }
}

/// The number of CTAs of a flattened three-dimensional grid.
#[verifier::allow_in_spec]
pub fn checked_grid_product(x: u32, y: u32, z: u32) -> Result<u32, LaunchError>
    returns
        (if x * y * z <= u32::MAX && x * y <= u32::MAX {
            Ok::<u32, LaunchError>((x * y * z) as u32)
        } else {
            Err::<u32, LaunchError>(LaunchError::ProductOverflow("grid"))
        }),
{
    match x.checked_mul(y) {
        Some(plane) => match plane.checked_mul(z) {
            Some(product) => Ok(product),
            None => Err(LaunchError::ProductOverflow("grid")),
        },
        None => Err(LaunchError::ProductOverflow("grid")),
    }
}

/// One CTA per output tile of a `rows x columns` output.
#[verifier::allow_in_spec]
pub fn checked_tile_grid(
    rows: u32,
    tile_rows: u32,
    columns: u32,
    tile_columns: u32,
) -> Result<u32, LaunchError>
    requires
        tile_rows > 0,
        tile_columns > 0,
    returns
        checked_grid_product(div_ceil_u32(rows, tile_rows), div_ceil_u32(columns, tile_columns), 1),
{
    checked_grid_product(div_ceil_u32(rows, tile_rows), div_ceil_u32(columns, tile_columns), 1)
}

/// A number of elements as a byte offset.
#[verifier::allow_in_spec]
pub fn checked_byte_offset(
    elements: usize,
    width: usize,
    what: &'static str,
) -> Result<u64, LaunchError>
    returns
        (if elements * width <= u64::MAX {
            Ok::<u64, LaunchError>((elements * width) as u64)
        } else {
            Err::<u64, LaunchError>(LaunchError::OffsetOverflow(what))
        }),
{
    match (elements as u64).checked_mul(width as u64) {
        Some(offset) => Ok(offset),
        None => Err(LaunchError::OffsetOverflow(what)),
    }
}

/// A device address behind a base pointer.
#[verifier::allow_in_spec]
pub fn checked_ptr_add(base: u64, offset: u64, what: &'static str) -> Result<u64, LaunchError>
    returns
        (if base + offset <= u64::MAX {
            Ok::<u64, LaunchError>((base + offset) as u64)
        } else {
            Err::<u64, LaunchError>(LaunchError::OffsetOverflow(what))
        }),
{
    match base.checked_add(offset) {
        Some(address) => Ok(address),
        None => Err(LaunchError::OffsetOverflow(what)),
    }
}

} // verus!
