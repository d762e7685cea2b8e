//! GEMM requests, their strides and their device operands.

use crate::error::LaunchError;
use vstd::prelude::*;

verus! {

/// Which operand of the product is transposed.
///
/// `Nn` is the forward product `Y[M,N] = X[M,K] @ W[K,N]`, `Tn` the weight
/// gradient `dW[K,N] += X^T[K,M] @ dY[M,N]`, `Nt` the input gradient
/// `dX[M,K] = dY[M,N] @ W^T[N,K]`.
#[derive(Clone, Copy, Debug, PartialEq, Eq, Structural)]
pub enum ResolvedGemmOp {
    Nn,
    Tn,
    Nt,
}

/// The extents `(M, K, N)` of a product and the row strides of its matrices.
#[derive(Clone, Copy, Debug, PartialEq, Eq, Structural)]
pub struct F32TriadShape {
    pub m: usize,
    pub k: usize,
    pub n: usize,
    pub lda: usize,
    pub ldb: usize,
    pub ldc: usize,
}

/// One product: its transposition and its shape.
#[derive(Clone, Copy, Debug, PartialEq, Eq, Structural)]
pub struct F32TriadRequest {
    pub op: ResolvedGemmOp,
    pub shape: F32TriadShape,
}

/// Device addresses and scalar factors of one f32 product.
///
/// `alpha` and `beta` are held by their IEEE-754 bit patterns: the factors
/// travel to the device unchanged, and two launches are the same only where
/// the bits are.
#[derive(Clone, Copy, Debug, PartialEq, Eq, Structural)]
pub struct F32TriadOperands {
    pub output: u64,
    pub a: u64,
    pub b: u64,
    pub bias: Option<u64>,
    pub alpha: u32,
    pub beta: u32,
}

/// The bit pattern of `1.0f32`.
pub const F32_ONE_BITS: u32 = 0x3f80_0000;

/// The bit pattern of `0.0f32`.
pub const F32_ZERO_BITS: u32 = 0;

/// The bit pattern of `-0.0f32`.
pub const F32_NEGATIVE_ZERO_BITS: u32 = 0x8000_0000;

/// The pattern holds the number one.
#[verifier::allow_in_spec]
pub fn is_one(bits: u32) -> bool
    returns
        bits == F32_ONE_BITS,
{
    bits == F32_ONE_BITS
}

/// The pattern holds a zero of either sign.
#[verifier::allow_in_spec]
pub fn is_zero(bits: u32) -> bool
    returns
        bits == F32_ZERO_BITS || bits == F32_NEGATIVE_ZERO_BITS,
{
    bits == F32_ZERO_BITS || bits == F32_NEGATIVE_ZERO_BITS
}

impl F32TriadShape {
    /// The shape of densely packed row-major matrices.
    #[verifier::allow_in_spec]
    pub fn contiguous(op: ResolvedGemmOp, dims: (usize, usize, usize)) -> F32TriadShape
        returns
            (match op {
                ResolvedGemmOp::Nn => F32TriadShape {
                    m: dims.0,
                    k: dims.1,
                    n: dims.2,
                    lda: dims.1,
                    ldb: dims.2,
                    ldc: dims.2,
                },
                ResolvedGemmOp::Tn => F32TriadShape {
                    m: dims.0,
                    k: dims.1,
                    n: dims.2,
                    lda: dims.1,
                    ldb: dims.2,
                    ldc: dims.2,
                },
                ResolvedGemmOp::Nt => F32TriadShape {
                    m: dims.0,
                    k: dims.1,
                    n: dims.2,
                    lda: dims.2,
                    ldb: dims.2,
                    ldc: dims.1,
                },
            }),
    {
        let (m, k, n) = dims;
        match op {
            ResolvedGemmOp::Nn => F32TriadShape { m, k, n, lda: k, ldb: n, ldc: n },
            ResolvedGemmOp::Tn => F32TriadShape { m, k, n, lda: k, ldb: n, ldc: n },
            ResolvedGemmOp::Nt => F32TriadShape { m, k, n, lda: n, ldb: n, ldc: k },
        }
    }

    /// The extent that the product sums over.
    #[verifier::allow_in_spec]
    pub fn reduction(self, op: ResolvedGemmOp) -> usize
        returns
            (match op {
                ResolvedGemmOp::Nn => self.k,
                ResolvedGemmOp::Tn => self.m,
                ResolvedGemmOp::Nt => self.n,
            }),
    {
        match op {
            ResolvedGemmOp::Nn => self.k,
            ResolvedGemmOp::Tn => self.m,
            ResolvedGemmOp::Nt => self.n,
        }
    }

    /// Rows of the output matrix.
    #[verifier::allow_in_spec]
    pub fn output_rows(self, op: ResolvedGemmOp) -> usize
        returns
            (match op {
                ResolvedGemmOp::Nn => self.m,
                ResolvedGemmOp::Tn => self.k,
                ResolvedGemmOp::Nt => self.m,
            }),
    {
        match op {
            ResolvedGemmOp::Nn => self.m,
            ResolvedGemmOp::Tn => self.k,
            ResolvedGemmOp::Nt => self.m,
        }
    }

    /// Columns of the output matrix.
    #[verifier::allow_in_spec]
    pub fn output_columns(self, op: ResolvedGemmOp) -> usize
        returns
            (match op {
                ResolvedGemmOp::Nn => self.n,
                ResolvedGemmOp::Tn => self.n,
                ResolvedGemmOp::Nt => self.k,
            }),
    {
        match op {
            ResolvedGemmOp::Nn => self.n,
            ResolvedGemmOp::Tn => self.n,
            ResolvedGemmOp::Nt => self.k,
        }
    }

    /// Every extent and stride is a kernel argument, and no stride is
    /// shorter than the row it steps over.
    pub open spec fn valid(self, op: ResolvedGemmOp) -> bool {
        let packed = F32TriadShape::contiguous(op, (self.m, self.k, self.n));
        &&& self.m <= i32::MAX
        &&& self.k <= i32::MAX
        &&& self.n <= i32::MAX
        &&& packed.lda <= self.lda <= i32::MAX
        &&& packed.ldb <= self.ldb <= i32::MAX
        &&& packed.ldc <= self.ldc <= i32::MAX
    }

    /// What validation answers: the first rule broken wins.
    pub open spec fn validated(self, op: ResolvedGemmOp) -> Result<(), LaunchError> {
        if self.m > i32::MAX || self.k > i32::MAX || self.n > i32::MAX {
            Err(LaunchError::InvalidDimensions("GEMM extent exceeds the kernel range"))
        } else if self.lda > i32::MAX || self.ldb > i32::MAX || self.ldc > i32::MAX {
            Err(LaunchError::InvalidDimensions("GEMM stride exceeds the kernel range"))
        } else if !self.valid(op) {
            Err(LaunchError::InvalidDimensions("GEMM stride is shorter than its row"))
        } else {
            Ok(())
        }
    }

    /// Accepts exactly the valid shapes.
    pub fn validate(self, op: ResolvedGemmOp) -> (result: Result<(), LaunchError>)
        ensures
            result == self.validated(op),
            result is Ok <==> self.valid(op),
    {
        let packed = F32TriadShape::contiguous(op, (self.m, self.k, self.n));
        let limit: u64 = 0x7fff_ffff;
        if self.m as u64 > limit || self.k as u64 > limit || self.n as u64 > limit {
            return Err(LaunchError::InvalidDimensions("GEMM extent exceeds the kernel range"));
        }
        if self.lda as u64 > limit || self.ldb as u64 > limit || self.ldc as u64 > limit {
            return Err(LaunchError::InvalidDimensions("GEMM stride exceeds the kernel range"));
        }
        if self.lda < packed.lda || self.ldb < packed.ldb || self.ldc < packed.ldc {
            return Err(LaunchError::InvalidDimensions("GEMM stride is shorter than its row"));
        }
        Ok(())
    }
}

/// Why operands of an f32 product are refused; the first rule broken wins.
pub open spec fn operand_fault(
    request: F32TriadRequest,
    operands: F32TriadOperands,
) -> Option<&'static str> {
    if operands.output == 0 || operands.output % 4 != 0 {
        Some("f32 Triad output pointer must be non-null and 4-byte aligned")
    } else if operands.bias matches Some(bias) && (bias == 0 || bias % 4 != 0) {
        Some("f32 Triad bias pointer must be non-null and 4-byte aligned")
    } else if request.shape.reduction(request.op) != 0 && (operands.a == 0 || operands.a % 4 != 0) {
        Some("f32 Triad A pointer must be non-null and 4-byte aligned")
    } else if request.shape.reduction(request.op) != 0 && (operands.b == 0 || operands.b % 4 != 0) {
        Some("f32 Triad B pointer must be non-null and 4-byte aligned")
    } else if request.op is Nn && operands.bias is Some && !is_one(operands.alpha) {
        Some("f32 Triad NN bias requires alpha == 1.0")
    } else if request.op is Tn && (operands.bias is Some || !is_one(operands.beta)) {
        Some("f32 Triad TN requires no bias and beta == 1.0")
    } else if request.op is Nt && (operands.bias is Some || !is_zero(operands.beta)) {
        Some("f32 Triad NT requires no bias and beta == 0.0")
    } else {
        None
    }
}

fn unusable_f32_pointer(pointer: u64) -> (unusable: bool)
    ensures
        unusable == (pointer == 0 || pointer % 4 != 0),
{
    pointer == 0 || pointer % 4 != 0
}

/// Refuses null or misaligned pointers and factors outside the contract of
/// the product. Inputs of an empty reduction are never read, so their
/// pointers are free.
pub fn validate_f32_triad_operands(
    request: F32TriadRequest,
    operands: F32TriadOperands,
) -> (result: Result<(), LaunchError>)
    ensures
        result == (match operand_fault(request, operands) {
            Some(text) => Err::<(), LaunchError>(LaunchError::Rejected(text)),
            None => Ok::<(), LaunchError>(()),
        }),
{
    if unusable_f32_pointer(operands.output) {
        return Err(
            LaunchError::Rejected("f32 Triad output pointer must be non-null and 4-byte aligned"),
        );
    }
    if let Some(bias) = operands.bias {
        if unusable_f32_pointer(bias) {
            return Err(
                LaunchError::Rejected("f32 Triad bias pointer must be non-null and 4-byte aligned"),
            );
        }
    }
    if request.shape.reduction(request.op) != 0 {
        if unusable_f32_pointer(operands.a) {
            return Err(
                LaunchError::Rejected("f32 Triad A pointer must be non-null and 4-byte aligned"),
            );
        }
        if unusable_f32_pointer(operands.b) {
            return Err(
                LaunchError::Rejected("f32 Triad B pointer must be non-null and 4-byte aligned"),
            );
        }
    }
    match request.op {
        ResolvedGemmOp::Nn => {
            if operands.bias.is_some() && !is_one(operands.alpha) {
                return Err(LaunchError::Rejected("f32 Triad NN bias requires alpha == 1.0"));
            }
        },
        ResolvedGemmOp::Tn => {
            if operands.bias.is_some() || !is_one(operands.beta) {
                return Err(LaunchError::Rejected("f32 Triad TN requires no bias and beta == 1.0"));
            }
        },
        ResolvedGemmOp::Nt => {
            if operands.bias.is_some() || !is_zero(operands.beta) {
                return Err(LaunchError::Rejected("f32 Triad NT requires no bias and beta == 0.0"));
            }
        },
    }
    Ok(())
}

/// A 16-byte vector load may start at this address.
pub open spec fn vector_aligned(pointer: u64) -> bool {
    pointer % 16 == 0
}

/// Whether a 16-byte vector load may start at this address.
pub fn f32_base_is_vector_aligned(pointer: u64) -> (aligned: bool)
    ensures
        aligned == vector_aligned(pointer),
{
    assert(pointer & 15 == pointer % 16) by (bit_vector);
    pointer & 15 == 0
}

/// The bias of a forward product pre-seeds the accumulator, which is only
/// the documented sum when the product is not scaled.
#[verifier::allow_in_spec]
pub fn validate_bias_preseed(alpha: u32, bias: u64) -> Result<(), LaunchError>
    returns
        (if bias != 0 && !is_one(alpha) {
            Err::<(), LaunchError>(LaunchError::Rejected("bias pre-seed requires alpha == 1.0"))
        } else {
            Ok::<(), LaunchError>(())
        }),
{
    if bias != 0 && !is_one(alpha) {
        Err(LaunchError::Rejected("bias pre-seed requires alpha == 1.0"))
    } else {
        Ok(())
    }
}

/// The extents of a product, proved to fit every kernel argument and launch
/// dimension that is derived from them.
#[derive(Clone, Copy, Debug, PartialEq, Eq, Structural)]
pub struct GemmDims {
    pub m: usize,
    pub k: usize,
    pub n: usize,
    pub lda: usize,
}

impl GemmDims {
    /// Extents and the A stride are signed kernel arguments, and the
    /// element count of each matrix is a launch dimension.
    pub open spec fn wf(self) -> bool {
        &&& self.m <= i32::MAX
        &&& self.k <= i32::MAX
        &&& self.n <= i32::MAX
        &&& self.lda <= i32::MAX
        &&& self.m * self.n <= u32::MAX
        &&& self.k * self.n <= u32::MAX
        &&& self.m * self.k <= u32::MAX
    }

    /// The extents as they were given.
    #[verifier::allow_in_spec]
    pub fn tuple(self) -> (usize, usize, usize)
        returns
            (self.m, self.k, self.n),
    {
        (self.m, self.k, self.n)
    }

    /// What the extents and A stride of a product resolve to.
    pub open spec fn resolve(
        dims: (usize, usize, usize),
        lda: usize,
        row: usize,
    ) -> Result<GemmDims, LaunchError> {
        let checked = GemmDims { m: dims.0, k: dims.1, n: dims.2, lda };
        if !checked.wf() {
            Err(LaunchError::InvalidDimensions("GEMM extents exceed the kernel range"))
        } else if lda < row {
            Err(LaunchError::InvalidDimensions("GEMM A stride is shorter than its row"))
        } else {
            Ok(checked)
        }
    }

    fn build(dims: (usize, usize, usize), lda: usize, row: usize) -> (result: Result<
        GemmDims,
        LaunchError,
    >)
        ensures
            result == GemmDims::resolve(dims, lda, row),
    {
        let (m, k, n) = dims;
        let limit: u64 = 0x7fff_ffff;
        if m as u64 > limit || k as u64 > limit || n as u64 > limit || lda as u64 > limit {
            return Err(LaunchError::InvalidDimensions("GEMM extents exceed the kernel range"));
        }
        match ((m as u32).checked_mul(n as u32), (k as u32).checked_mul(n as u32), (
            m as u32).checked_mul(k as u32)) {
            (Some(_), Some(_), Some(_)) => {
                if lda < row {
                    Err(LaunchError::InvalidDimensions("GEMM A stride is shorter than its row"))
                } else {
                    Ok(GemmDims { m, k, n, lda })
                }
            },
            _ => Err(LaunchError::InvalidDimensions("GEMM extents exceed the kernel range")),
        }
    }

    /// Extents of a forward product whose A rows are `lda` elements apart.
    pub fn nn(dims: (usize, usize, usize), lda: usize) -> (result: Result<GemmDims, LaunchError>)
        ensures
            result == GemmDims::resolve(dims, lda, dims.1),
    {
        GemmDims::build(dims, lda, dims.1)
    }

    /// Extents of a packed weight-gradient product.
    pub fn tn(dims: (usize, usize, usize)) -> (result: Result<GemmDims, LaunchError>)
        ensures
            result == GemmDims::resolve(dims, dims.1, dims.1),
    {
        GemmDims::build(dims, dims.1, dims.1)
    }

    /// Extents of a packed input-gradient product.
    pub fn nt(dims: (usize, usize, usize)) -> (result: Result<GemmDims, LaunchError>)
        ensures
            result == GemmDims::resolve(dims, dims.2, dims.2),
    {
        GemmDims::build(dims, dims.2, dims.2)
    }
}

} // verus!
