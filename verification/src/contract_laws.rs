//! What kind of work the route of an f32 kernel is recorded as.

use crate::device;
use crate::device::Kernel;
use crate::identity::{PhysicalGemmBackend, ResolvedNumericContract, ResolvedOutputOwnership};
use crate::scalar_routes;
use crate::text;
use vstd::prelude::*;
use vstd::string::StringSliceAdditionalSpecFns;

verus! {

/// A kernel works on f32 tensors.
pub open spec fn is_scalar(kernel: Kernel) -> bool {
    match kernel {
        Kernel::Forward { element, .. } => element is F32,
        Kernel::ForwardRows { element } => element is F32,
        Kernel::ForwardColumn { element } => element is F32,
        Kernel::Weight { element, .. } => element is F32,
        Kernel::WeightColumn { element } => element is F32,
        Kernel::Input { element, .. } => element is F32,
        Kernel::InputColumn { element } => element is F32,
        _ => true,
    }
}

/// A kernel leaves the partial sums of a forward product.
pub open spec fn leaves_chunks(kernel: Kernel) -> bool {
    kernel is Chunks32 || kernel is ChunksSlim
}

/// A weight kernel sums its chunks of rows itself.
pub open spec fn sums_its_rows(symbol: &str) -> bool {
    symbol == "gemm_bi_tn_m16n16_bk16_s2_splitm16_v1"
}

/// The text of a symbol is no narrow partial sum of rows: wherever one
/// would stand in it, the letters of `tn` or the first of `narrow` do not.
proof fn names_no_narrow_rows(symbol: &str)
    requires
        vstd::utf8::is_ascii_chars(symbol@),
        forall|at: int|
            #![trigger symbol@[at + 1]]
            0 <= at && at + 25 <= symbol@.len() ==> symbol@[at + 1] != 't' || symbol@[at + 2] != 'n'
                || symbol@[at + 4] != 'n',
    ensures
        !text::occurs(symbol.spec_bytes(), "_tn_narrow_splitm_partial".spec_bytes()),
{
    let needle = "_tn_narrow_splitm_partial";
    reveal_strlit("_tn_narrow_splitm_partial");
    assert(vstd::utf8::is_ascii_chars(needle@));
    vstd::utf8::is_ascii_chars_encode_utf8(needle@);
    vstd::utf8::is_ascii_chars_encode_utf8(symbol@);
    let bytes = symbol.spec_bytes();
    let part = needle.spec_bytes();
    assert(part.len() == 25);
    assert(bytes.len() == symbol@.len());
    assert forall|at: int| !(#[trigger] text::occurs_at(bytes, part, at)) by {
        if text::occurs_at(bytes, part, at) {
            assert(bytes.subrange(at, at + 25)[1] == part[1]);
            assert(bytes.subrange(at, at + 25)[2] == part[2]);
            assert(bytes.subrange(at, at + 25)[4] == part[4]);
            assert(needle@[1] == 't' && needle@[2] == 'n' && needle@[4] == 'n');
            assert(symbol@[at + 1] == 't');
            assert(symbol@[at + 2] == 'n');
            assert(symbol@[at + 4] == 'n');
        }
    }
}

/// The text of a symbol holds the name of a narrow partial sum of rows.
proof fn names_narrow_rows(symbol: &str)
    requires
        vstd::utf8::is_ascii_chars(symbol@),
        symbol@.len() >= 32,
        symbol@.subrange(7, 32) == "_tn_narrow_splitm_partial"@,
    ensures
        text::occurs(symbol.spec_bytes(), "_tn_narrow_splitm_partial".spec_bytes()),
{
    let needle = "_tn_narrow_splitm_partial";
    reveal_strlit("_tn_narrow_splitm_partial");
    assert(vstd::utf8::is_ascii_chars(needle@));
    vstd::utf8::is_ascii_chars_encode_utf8(needle@);
    vstd::utf8::is_ascii_chars_encode_utf8(symbol@);
    let bytes = symbol.spec_bytes();
    let part = needle.spec_bytes();
    assert forall|i: int| 0 <= i < 25 implies bytes.subrange(7, 32)[i] == part[i] by {
        assert(symbol@.subrange(7, 32)[i] == needle@[i]);
        assert(bytes[7 + i] as char == symbol@[7 + i]);
    }
    assert(bytes.subrange(7, 32) =~= part);
    assert(text::occurs_at(bytes, part, 7));
}

proof fn forward64_names_no_narrow_rows()
    ensures
        !text::occurs(
            "gemm_bi_nn_m64n64_bk16_s2_v1".spec_bytes(),
            "_tn_narrow_splitm_partial".spec_bytes(),
        ),
{
    let symbol = "gemm_bi_nn_m64n64_bk16_s2_v1";
    reveal_strlit("gemm_bi_nn_m64n64_bk16_s2_v1");
    assert(vstd::utf8::is_ascii_chars(symbol@));
    assert forall|at: int|
        #![trigger symbol@[at + 1]]
        0 <= at && at + 25 <= symbol@.len() implies symbol@[at + 1] != 't' || symbol@[at + 2]
        != 'n' || symbol@[at + 4] != 'n' by {
        assert(symbol@[1] != 't');
        assert(symbol@[2] != 't');
        assert(symbol@[3] != 't');
        assert(symbol@[4] != 't');
    }
    names_no_narrow_rows(symbol);
}

proof fn forward64_prism_names_no_narrow_rows()
    ensures
        !text::occurs(
            "gemm_bi_nn_prism_m64n64_bk16_s2_v1".spec_bytes(),
            "_tn_narrow_splitm_partial".spec_bytes(),
        ),
{
    let symbol = "gemm_bi_nn_prism_m64n64_bk16_s2_v1";
    reveal_strlit("gemm_bi_nn_prism_m64n64_bk16_s2_v1");
    assert(vstd::utf8::is_ascii_chars(symbol@));
    assert forall|at: int|
        #![trigger symbol@[at + 1]]
        0 <= at && at + 25 <= symbol@.len() implies symbol@[at + 1] != 't' || symbol@[at + 2]
        != 'n' || symbol@[at + 4] != 'n' by {
        assert(symbol@[1] != 't');
        assert(symbol@[2] != 't');
        assert(symbol@[3] != 't');
        assert(symbol@[4] != 't');
        assert(symbol@[5] != 't');
        assert(symbol@[6] != 't');
        assert(symbol@[7] != 't');
        assert(symbol@[8] != 't');
        assert(symbol@[9] != 't');
        assert(symbol@[10] != 't');
    }
    names_no_narrow_rows(symbol);
}

proof fn input_m2n16_names_no_narrow_rows()
    ensures
        !text::occurs(
            "gemm_bi_nt_m2n16_bk64_splitk32_v1".spec_bytes(),
            "_tn_narrow_splitm_partial".spec_bytes(),
        ),
{
    let symbol = "gemm_bi_nt_m2n16_bk64_splitk32_v1";
    reveal_strlit("gemm_bi_nt_m2n16_bk64_splitk32_v1");
    assert(vstd::utf8::is_ascii_chars(symbol@));
    assert forall|at: int|
        #![trigger symbol@[at + 1]]
        0 <= at && at + 25 <= symbol@.len() implies symbol@[at + 1] != 't' || symbol@[at + 2]
        != 'n' || symbol@[at + 4] != 'n' by {
        assert(symbol@[1] != 't');
        assert(symbol@[2] != 't');
        assert(symbol@[3] != 't');
        assert(symbol@[4] != 't');
        assert(symbol@[5] != 't');
        assert(symbol@[6] != 't');
        assert(symbol@[7] != 't');
        assert(symbol@[8] != 't');
        assert(symbol@[10] != 'n');
    }
    names_no_narrow_rows(symbol);
}

proof fn transpose16_names_no_narrow_rows()
    ensures
        !text::occurs(
            "gemm_bi_transpose_f32_32x16_d768_v1".spec_bytes(),
            "_tn_narrow_splitm_partial".spec_bytes(),
        ),
{
    let symbol = "gemm_bi_transpose_f32_32x16_d768_v1";
    reveal_strlit("gemm_bi_transpose_f32_32x16_d768_v1");
    assert(vstd::utf8::is_ascii_chars(symbol@));
    assert forall|at: int|
        #![trigger symbol@[at + 1]]
        0 <= at && at + 25 <= symbol@.len() implies symbol@[at + 1] != 't' || symbol@[at + 2]
        != 'n' || symbol@[at + 4] != 'n' by {
        assert(symbol@[1] != 't');
        assert(symbol@[2] != 't');
        assert(symbol@[3] != 't');
        assert(symbol@[4] != 't');
        assert(symbol@[5] != 't');
        assert(symbol@[6] != 't');
        assert(symbol@[7] != 't');
        assert(symbol@[9] != 'n');
        assert(symbol@[9] != 't');
        assert(symbol@[10] != 't');
        assert(symbol@[11] != 't');
    }
    names_no_narrow_rows(symbol);
}

proof fn rows_names_no_narrow_rows()
    ensures
        !text::occurs(
            "gemm_bi_tn_splitm_partial".spec_bytes(),
            "_tn_narrow_splitm_partial".spec_bytes(),
        ),
{
    let symbol = "gemm_bi_tn_splitm_partial";
    reveal_strlit("gemm_bi_tn_splitm_partial");
    assert(vstd::utf8::is_ascii_chars(symbol@));
    assert forall|at: int|
        #![trigger symbol@[at + 1]]
        0 <= at && at + 25 <= symbol@.len() implies symbol@[at + 1] != 't' || symbol@[at + 2]
        != 'n' || symbol@[at + 4] != 'n' by {
        assert(symbol@[1] != 't');
    }
    names_no_narrow_rows(symbol);
}

proof fn aligned_rows_names_no_narrow_rows()
    ensures
        !text::occurs(
            "gemm_bi_tn_splitm_partial_aligned".spec_bytes(),
            "_tn_narrow_splitm_partial".spec_bytes(),
        ),
{
    let symbol = "gemm_bi_tn_splitm_partial_aligned";
    reveal_strlit("gemm_bi_tn_splitm_partial_aligned");
    assert(vstd::utf8::is_ascii_chars(symbol@));
    assert forall|at: int|
        #![trigger symbol@[at + 1]]
        0 <= at && at + 25 <= symbol@.len() implies symbol@[at + 1] != 't' || symbol@[at + 2]
        != 'n' || symbol@[at + 4] != 'n' by {
        assert(symbol@[1] != 't');
        assert(symbol@[2] != 't');
        assert(symbol@[3] != 't');
        assert(symbol@[4] != 't');
        assert(symbol@[5] != 't');
        assert(symbol@[6] != 't');
        assert(symbol@[7] != 't');
        assert(symbol@[11] != 'n');
        assert(symbol@[9] != 't');
    }
    names_no_narrow_rows(symbol);
}

proof fn weight_m16n16_names_no_narrow_rows()
    ensures
        !text::occurs(
            "gemm_bi_tn_m16n16_bk16_s2_splitm16_v1".spec_bytes(),
            "_tn_narrow_splitm_partial".spec_bytes(),
        ),
{
    let symbol = "gemm_bi_tn_m16n16_bk16_s2_splitm16_v1";
    reveal_strlit("gemm_bi_tn_m16n16_bk16_s2_splitm16_v1");
    assert(vstd::utf8::is_ascii_chars(symbol@));
    assert forall|at: int|
        #![trigger symbol@[at + 1]]
        0 <= at && at + 25 <= symbol@.len() implies symbol@[at + 1] != 't' || symbol@[at + 2]
        != 'n' || symbol@[at + 4] != 'n' by {
        assert(symbol@[1] != 't');
        assert(symbol@[2] != 't');
        assert(symbol@[3] != 't');
        assert(symbol@[4] != 't');
        assert(symbol@[5] != 't');
        assert(symbol@[6] != 't');
        assert(symbol@[7] != 't');
        assert(symbol@[11] != 'n');
        assert(symbol@[9] != 't');
        assert(symbol@[10] != 't');
        assert(symbol@[11] != 't');
        assert(symbol@[12] != 't');
        assert(symbol@[13] != 't');
    }
    names_no_narrow_rows(symbol);
}

/// The contract of a kernel that computes its outputs whole.
pub open spec fn plain() -> scalar_routes::RouteContract {
    (
        PhysicalGemmBackend::ScalarFmaV1,
        ResolvedNumericContract::ScalarFmaV1,
        ResolvedOutputOwnership::OneCtaPerOutputTileV1,
    )
}

proof fn short_names_are_plain(symbol: &str)
    requires
        vstd::utf8::is_ascii_chars(symbol@),
        symbol@.len() < 25,
        symbol@.len() == 21 ==> symbol@[8] == 'n',
    ensures
        scalar_routes::route_contract(symbol) == plain(),
{
    names_no_narrow_rows(symbol);
    reveal_strlit("gemm_bi_nn_splitk32_partial");
    reveal_strlit("gemm_bi_nn_splitk_slim_partial");
    reveal_strlit("gemm_bi_nn_splitk32_m32n64_exact_v1");
    reveal_strlit("gemm_bi_splitk_reduce");
    reveal_strlit("gemm_bi_splitm_reduce");
    reveal_strlit("gemm_bi_tn_m16n16_bk16_s2_splitm16_v1");
}

proof fn long_names_are_plain(symbol: &str)
    requires
        symbol@.len() != 21,
        symbol@.len() != 27,
        symbol@.len() != 30,
        symbol@.len() != 37,
        symbol@.len() == 35 ==> symbol@[8] != 'n',
        !text::occurs(symbol.spec_bytes(), "_tn_narrow_splitm_partial".spec_bytes()),
    ensures
        scalar_routes::route_contract(symbol) == plain(),
{
    reveal_strlit("gemm_bi_nn_splitk32_partial");
    reveal_strlit("gemm_bi_nn_splitk_slim_partial");
    reveal_strlit("gemm_bi_nn_splitk32_m32n64_exact_v1");
    reveal_strlit("gemm_bi_splitk_reduce");
    reveal_strlit("gemm_bi_splitm_reduce");
    reveal_strlit("gemm_bi_tn_m16n16_bk16_s2_splitm16_v1");
}

proof fn forward_kernels_are_plain(kernel: Kernel, symbol: &str)
    requires
        device::named(kernel, symbol),
        is_scalar(kernel),
        kernel is Forward || kernel is ForwardRows || kernel is ForwardColumn || kernel is Forward64,
        !sums_its_rows(symbol),
    ensures
        scalar_routes::route_contract(symbol) == plain(),
{
    if symbol == "gemm_bi_nn" {
        reveal_strlit("gemm_bi_nn");
        short_names_are_plain(symbol);
    } else if symbol == "gemm_bi_nn_slim" {
        reveal_strlit("gemm_bi_nn_slim");
        short_names_are_plain(symbol);
    } else if symbol == "gemm_bi_nn_narrow" {
        reveal_strlit("gemm_bi_nn_narrow");
        short_names_are_plain(symbol);
    } else if symbol == "gemm_bi_nn_narrow_small" {
        reveal_strlit("gemm_bi_nn_narrow_small");
        short_names_are_plain(symbol);
    } else if symbol == "gemm_bi_nn_ultra_thin" {
        reveal_strlit("gemm_bi_nn_ultra_thin");
        short_names_are_plain(symbol);
    } else if symbol == "gemm_bi_nn_gemv" {
        reveal_strlit("gemm_bi_nn_gemv");
        short_names_are_plain(symbol);
    } else if symbol == "gemm_bi_nn_m64n64_bk16_s2_v1" {
        reveal_strlit("gemm_bi_nn_m64n64_bk16_s2_v1");
        forward64_names_no_narrow_rows();
        long_names_are_plain(symbol);
    } else if symbol == "gemm_bi_nn_prism_m64n64_bk16_s2_v1" {
        reveal_strlit("gemm_bi_nn_prism_m64n64_bk16_s2_v1");
        forward64_prism_names_no_narrow_rows();
        long_names_are_plain(symbol);
    }
}

proof fn weight_kernels_are_plain(kernel: Kernel, symbol: &str)
    requires
        device::named(kernel, symbol),
        is_scalar(kernel),
        kernel is Weight || kernel is WeightColumn || kernel is ChunksOfRows && !kernel->narrow,
        !sums_its_rows(symbol),
    ensures
        scalar_routes::route_contract(symbol) == plain(),
{
    if symbol == "gemm_bi_tn" {
        reveal_strlit("gemm_bi_tn");
        short_names_are_plain(symbol);
    } else if symbol == "gemm_bi_tn_aligned" {
        reveal_strlit("gemm_bi_tn_aligned");
        short_names_are_plain(symbol);
    } else if symbol == "gemm_bi_tn_slim" {
        reveal_strlit("gemm_bi_tn_slim");
        short_names_are_plain(symbol);
    } else if symbol == "gemm_bi_tn_narrow" {
        reveal_strlit("gemm_bi_tn_narrow");
        short_names_are_plain(symbol);
    } else if symbol == "gemm_bi_tn_gemv" {
        reveal_strlit("gemm_bi_tn_gemv");
        short_names_are_plain(symbol);
    } else if symbol == "gemm_bi_tn_splitm_partial" {
        reveal_strlit("gemm_bi_tn_splitm_partial");
        rows_names_no_narrow_rows();
        long_names_are_plain(symbol);
    } else if symbol == "gemm_bi_tn_splitm_partial_aligned" {
        reveal_strlit("gemm_bi_tn_splitm_partial_aligned");
        aligned_rows_names_no_narrow_rows();
        long_names_are_plain(symbol);
    }
}

proof fn input_kernels_are_plain(kernel: Kernel, symbol: &str)
    requires
        device::named(kernel, symbol),
        is_scalar(kernel),
        kernel is Input || kernel is InputColumn || kernel is Transpose || kernel is InputTail,
        !sums_its_rows(symbol),
    ensures
        scalar_routes::route_contract(symbol) == plain(),
{
    if symbol == "gemm_bi_nt" {
        reveal_strlit("gemm_bi_nt");
        short_names_are_plain(symbol);
    } else if symbol == "gemm_bi_nt_slim" {
        reveal_strlit("gemm_bi_nt_slim");
        short_names_are_plain(symbol);
    } else if symbol == "gemm_bi_nt_narrow" {
        reveal_strlit("gemm_bi_nt_narrow");
        short_names_are_plain(symbol);
    } else if symbol == "gemm_bi_nt_gemv" {
        reveal_strlit("gemm_bi_nt_gemv");
        short_names_are_plain(symbol);
    } else if symbol == "gemm_bi_transpose_f32_2d" {
        reveal_strlit("gemm_bi_transpose_f32_2d");
        short_names_are_plain(symbol);
    } else if symbol == "gemm_bi_dx_col_gemv" {
        reveal_strlit("gemm_bi_dx_col_gemv");
        short_names_are_plain(symbol);
    } else if symbol == "gemm_bi_nt_m2n16_bk64_splitk32_v1" {
        reveal_strlit("gemm_bi_nt_m2n16_bk64_splitk32_v1");
        input_m2n16_names_no_narrow_rows();
        long_names_are_plain(symbol);
    } else if symbol == "gemm_bi_transpose_f32_32x16_d768_v1" {
        reveal_strlit("gemm_bi_transpose_f32_32x16_d768_v1");
        transpose16_names_no_narrow_rows();
        long_names_are_plain(symbol);
    }
}

/// The launch of an f32 kernel is recorded as what the kernel does: partial
/// sums of a forward product as such, the fold of such sums as one over f32,
/// narrow partial sums of rows as such, the fold of sums of rows, and the
/// kernel that sums its chunks of rows itself, as one over f64. Every other
/// kernel computes its outputs whole, one block to a tile.
pub proof fn contracts_record_what_kernels_do(kernel: Kernel, symbol: &str)
    requires
        device::named(kernel, symbol),
        is_scalar(kernel),
    ensures
        ({
            let contract = scalar_routes::route_contract(symbol);
            if leaves_chunks(kernel) {
                contract == (
                    PhysicalGemmBackend::ScalarFmaSplitKPartialV1,
                    ResolvedNumericContract::ScalarFmaSplitKPartialV1,
                    ResolvedOutputOwnership::OneCtaPerOutputTilePerSplitKPartitionV1,
                )
            } else if kernel is Fold {
                contract == (
                    PhysicalGemmBackend::ScalarFmaSplitKF32ReduceV1,
                    ResolvedNumericContract::ScalarFmaSplitKF32ReduceV1,
                    ResolvedOutputOwnership::OneThreadPerOutputElementFixedSplitKReduceV1,
                )
            } else if kernel is ChunksOfRows && kernel->narrow {
                contract == (
                    PhysicalGemmBackend::ScalarFmaTnNarrowSplitMPartialV1,
                    ResolvedNumericContract::ScalarFmaTnNarrowSplitMPartialV1,
                    ResolvedOutputOwnership::OneCtaPerOutputTileV1,
                )
            } else if kernel is FoldWeight {
                contract == (
                    PhysicalGemmBackend::ScalarFmaTnSplitMF64ReduceV1,
                    ResolvedNumericContract::ScalarFmaTnSplitMF64ReduceV1,
                    ResolvedOutputOwnership::OneThreadPerOutputElementFixedSplitMReduceV1,
                )
            } else if sums_its_rows(symbol) {
                contract == (
                    PhysicalGemmBackend::ScalarFmaTnSplitMF64ReduceV1,
                    ResolvedNumericContract::ScalarFmaTnSplitMF64ReduceV1,
                    ResolvedOutputOwnership::OneCtaPerOutputTileV1,
                )
            } else {
                contract == plain()
            }
        }),
{
    reveal_strlit("gemm_bi_nn_splitk32_partial");
    reveal_strlit("gemm_bi_nn_splitk_slim_partial");
    reveal_strlit("gemm_bi_nn_splitk32_m32n64_exact_v1");
    reveal_strlit("gemm_bi_splitk_reduce");
    reveal_strlit("gemm_bi_splitm_reduce");
    reveal_strlit("gemm_bi_tn_m16n16_bk16_s2_splitm16_v1");
    if leaves_chunks(kernel) {
    } else if kernel is Fold {
        let folds = "gemm_bi_splitk_reduce"@;
        assert(folds.len() == 21);
    } else if kernel is ChunksOfRows && kernel->narrow {
        reveal_strlit("_tn_narrow_splitm_partial");
        if kernel->ChunksOfRows_vectors {
            reveal_strlit("gemm_bi_tn_narrow_splitm_partial_aligned");
        } else {
            reveal_strlit("gemm_bi_tn_narrow_splitm_partial");
        }
        assert(symbol@.subrange(7, 32) =~= "_tn_narrow_splitm_partial"@);
        names_narrow_rows(symbol);
    } else if kernel is FoldWeight {
        assert(symbol@[13] == 'm');
        names_no_narrow_rows(symbol);
    } else if sums_its_rows(symbol) {
        weight_m16n16_names_no_narrow_rows();
    } else if kernel is Forward || kernel is ForwardRows || kernel is ForwardColumn
        || kernel is Forward64 {
        forward_kernels_are_plain(kernel, symbol);
    } else if kernel is Weight || kernel is WeightColumn || kernel is ChunksOfRows {
        weight_kernels_are_plain(kernel, symbol);
    } else {
        input_kernels_are_plain(kernel, symbol);
    }
}

} // verus!
