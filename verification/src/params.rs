//! The by-value parameter blocks of the kernels.

use crate::digest;
use crate::identity::ModuleKind;
use vstd::prelude::*;

verus! {

/// A signed value as the word that holds its two's complement.
#[verifier::allow_in_spec]
pub fn word_of(value: i32) -> u32
    returns
        value as u32,
{
    value as u32
}

/// The signed value whose two's complement a word holds.
#[verifier::allow_in_spec]
pub fn value_of(word: u32) -> i32
    returns
        word as i32,
{
    word as i32
}

/// Words and signed values are two readings of the same bits.
pub proof fn words_hold_signed_values(value: i32, word: u32)
    ensures
        value_of(word_of(value)) == value,
        word_of(value_of(word)) == word,
{
    assert((value as u32) as i32 == value) by (bit_vector);
    assert((word as i32) as u32 == word) by (bit_vector);
}

/// The little-endian bytes of consecutive words.
pub open spec fn words_bytes(words: Seq<u32>) -> Seq<u8> {
    Seq::new(4 * words.len(), |i: int| digest::le_bytes(words[i / 4] as int, 4)[i % 4])
}

/// A block of words has no padding: word `i` stands at offset `4 i`.
pub proof fn word_offsets(words: Seq<u32>, i: int)
    requires
        0 <= i < words.len(),
    ensures
        words_bytes(words).len() == 4 * words.len(),
        words_bytes(words).subrange(4 * i, 4 * i + 4) == digest::le_bytes(words[i] as int, 4),
{
    digest::le_bytes_len(words[i] as int, 4);
    assert forall|j: int| 0 <= j < 4 implies words_bytes(words).subrange(4 * i, 4 * i + 4)[j]
        == digest::le_bytes(words[i] as int, 4)[j] by {
        assert((4 * i + j) / 4 == i);
        assert((4 * i + j) % 4 == j);
    }
    assert(words_bytes(words).subrange(4 * i, 4 * i + 4) =~= digest::le_bytes(words[i] as int, 4));
}

/// Blocks of the same words have the same bytes, and only those.
pub proof fn words_bytes_injective(left: Seq<u32>, right: Seq<u32>)
    requires
        words_bytes(left) == words_bytes(right),
    ensures
        left == right,
{
    assert(words_bytes(left).len() == 4 * left.len());
    assert(words_bytes(right).len() == 4 * right.len());
    assert forall|i: int| 0 <= i < left.len() implies left[i] == right[i] by {
        word_offsets(left, i);
        word_offsets(right, i);
        digest::le_bytes_u32_injective(left[i], right[i]);
    }
    assert(left =~= right);
}

/// The parameters of the 64x64 forward kernels. Floats travel by their bit patterns.
#[derive(Clone, Copy, Debug, PartialEq, Eq, Structural)]
pub struct SgbNnM64N64Params {
    pub alpha: u32,
    pub beta: u32,
    pub m: i32,
    pub n: i32,
    pub k: i32,
    pub lda: i32,
    pub ldb: i32,
    pub ldc: i32,
}

impl SgbNnM64N64Params {
    /// The words of the block, in memory order.
    pub open spec fn words(self) -> Seq<u32> {
        seq![
            self.alpha,
            self.beta,
            word_of(self.m),
            word_of(self.n),
            word_of(self.k),
            word_of(self.lda),
            word_of(self.ldb),
            word_of(self.ldc),
        ]
    }

    /// Pushes the words of the block.
    pub fn push_words(self, words: &mut Vec<u32>)
        ensures
            final(words)@ == old(words)@ + self.words(),
    {
        let ghost before = words@;
        words.push(self.alpha);
        words.push(self.beta);
        words.push(word_of(self.m));
        words.push(word_of(self.n));
        words.push(word_of(self.k));
        words.push(word_of(self.lda));
        words.push(word_of(self.ldb));
        words.push(word_of(self.ldc));
        assert(words@ =~= before + self.words());
    }
}

/// The parameters of the empty-reduction kernels. Floats travel by their bit patterns.
#[derive(Clone, Copy, Debug, PartialEq, Eq, Structural)]
pub struct SgbZeroReductionParams {
    pub alpha: u32,
    pub beta: u32,
    pub m: i32,
    pub k: i32,
    pub n: i32,
    pub lda: i32,
    pub ldb: i32,
    pub ldc: i32,
}

impl SgbZeroReductionParams {
    /// The words of the block, in memory order.
    pub open spec fn words(self) -> Seq<u32> {
        seq![
            self.alpha,
            self.beta,
            word_of(self.m),
            word_of(self.k),
            word_of(self.n),
            word_of(self.lda),
            word_of(self.ldb),
            word_of(self.ldc),
        ]
    }

    /// Pushes the words of the block.
    pub fn push_words(self, words: &mut Vec<u32>)
        ensures
            final(words)@ == old(words)@ + self.words(),
    {
        let ghost before = words@;
        words.push(self.alpha);
        words.push(self.beta);
        words.push(word_of(self.m));
        words.push(word_of(self.k));
        words.push(word_of(self.n));
        words.push(word_of(self.lda));
        words.push(word_of(self.ldb));
        words.push(word_of(self.ldc));
        assert(words@ =~= before + self.words());
    }
}

/// The parameters of the portable TF32 kernels. Floats travel by their bit patterns.
#[derive(Clone, Copy, Debug, PartialEq, Eq, Structural)]
pub struct Sm80Tf32KernelParams {
    pub alpha: u32,
    pub beta: u32,
    pub m: i32,
    pub k: i32,
    pub n: i32,
    pub lda: i32,
    pub ldb: i32,
    pub ldc: i32,
}

impl Sm80Tf32KernelParams {
    /// The words of the block, in memory order.
    pub open spec fn words(self) -> Seq<u32> {
        seq![
            self.alpha,
            self.beta,
            word_of(self.m),
            word_of(self.k),
            word_of(self.n),
            word_of(self.lda),
            word_of(self.ldb),
            word_of(self.ldc),
        ]
    }

    /// Pushes the words of the block.
    pub fn push_words(self, words: &mut Vec<u32>)
        ensures
            final(words)@ == old(words)@ + self.words(),
    {
        let ghost before = words@;
        words.push(self.alpha);
        words.push(self.beta);
        words.push(word_of(self.m));
        words.push(word_of(self.k));
        words.push(word_of(self.n));
        words.push(word_of(self.lda));
        words.push(word_of(self.ldb));
        words.push(word_of(self.ldc));
        assert(words@ =~= before + self.words());
    }
}

/// The parameters of the SM90a TF32 kernels: tensor-map origins first. Floats travel by their bit patterns.
#[derive(Clone, Copy, Debug, PartialEq, Eq, Structural)]
pub struct Sm90aTf32KernelParams {
    pub a_x: i32,
    pub a_y: i32,
    pub b_x: i32,
    pub b_y: i32,
    pub alpha: u32,
    pub beta: u32,
    pub m: i32,
    pub k: i32,
    pub n: i32,
    pub ldc: i32,
}

impl Sm90aTf32KernelParams {
    /// The words of the block, in memory order.
    pub open spec fn words(self) -> Seq<u32> {
        seq![
            word_of(self.a_x),
            word_of(self.a_y),
            word_of(self.b_x),
            word_of(self.b_y),
            self.alpha,
            self.beta,
            word_of(self.m),
            word_of(self.k),
            word_of(self.n),
            word_of(self.ldc),
        ]
    }

    /// Pushes the words of the block.
    pub fn push_words(self, words: &mut Vec<u32>)
        ensures
            final(words)@ == old(words)@ + self.words(),
    {
        let ghost before = words@;
        words.push(word_of(self.a_x));
        words.push(word_of(self.a_y));
        words.push(word_of(self.b_x));
        words.push(word_of(self.b_y));
        words.push(self.alpha);
        words.push(self.beta);
        words.push(word_of(self.m));
        words.push(word_of(self.k));
        words.push(word_of(self.n));
        words.push(word_of(self.ldc));
        assert(words@ =~= before + self.words());
    }
}

/// The parameters of the SM100 kernels: tensor-map origins first. Floats travel by their bit patterns.
#[derive(Clone, Copy, Debug, PartialEq, Eq, Structural)]
pub struct Sm100KernelParams {
    pub a_x: i32,
    pub a_y: i32,
    pub b_x: i32,
    pub b_y: i32,
    pub alpha: u32,
    pub beta: u32,
    pub m: i32,
    pub k: i32,
    pub n: i32,
    pub ldc: i32,
}

impl Sm100KernelParams {
    /// The words of the block, in memory order.
    pub open spec fn words(self) -> Seq<u32> {
        seq![
            word_of(self.a_x),
            word_of(self.a_y),
            word_of(self.b_x),
            word_of(self.b_y),
            self.alpha,
            self.beta,
            word_of(self.m),
            word_of(self.k),
            word_of(self.n),
            word_of(self.ldc),
        ]
    }

    /// The words of the block, in memory order.
    pub fn into_words(self) -> (words: [u32; 10])
        ensures
            words@ == self.words(),
    {
        let words: [u32; 10] = [
            word_of(self.a_x),
            word_of(self.a_y),
            word_of(self.b_x),
            word_of(self.b_y),
            self.alpha,
            self.beta,
            word_of(self.m),
            word_of(self.k),
            word_of(self.n),
            word_of(self.ldc),
        ];
        assert(words@ =~= self.words());
        words
    }

    /// The block that a list of words holds.
    pub open spec fn of_words(words: Seq<u32>) -> Sm100KernelParams {
        Sm100KernelParams {
            a_x: value_of(words[0]),
            a_y: value_of(words[1]),
            b_x: value_of(words[2]),
            b_y: value_of(words[3]),
            alpha: words[4],
            beta: words[5],
            m: value_of(words[6]),
            k: value_of(words[7]),
            n: value_of(words[8]),
            ldc: value_of(words[9]),
        }
    }

    /// The block that a list of words holds.
    pub fn from_words(words: [u32; 10]) -> (params: Sm100KernelParams)
        ensures
            params == Sm100KernelParams::of_words(words@),
            params.words() == words@,
    {
        let params = Sm100KernelParams {
            a_x: value_of(words[0]),
            a_y: value_of(words[1]),
            b_x: value_of(words[2]),
            b_y: value_of(words[3]),
            alpha: words[4],
            beta: words[5],
            m: value_of(words[6]),
            k: value_of(words[7]),
            n: value_of(words[8]),
            ldc: value_of(words[9]),
        };
        proof {
            words_hold_signed_values(params.a_x, words@[0]);
            words_hold_signed_values(params.a_y, words@[1]);
            words_hold_signed_values(params.b_x, words@[2]);
            words_hold_signed_values(params.b_y, words@[3]);
            words_hold_signed_values(params.m, words@[6]);
            words_hold_signed_values(params.k, words@[7]);
            words_hold_signed_values(params.n, words@[8]);
            words_hold_signed_values(params.ldc, words@[9]);
            assert(params.words() =~= words@);
        }
        params
    }

    /// Pushes the words of the block.
    pub fn push_words(self, words: &mut Vec<u32>)
        ensures
            final(words)@ == old(words)@ + self.words(),
    {
        let ghost before = words@;
        words.push(word_of(self.a_x));
        words.push(word_of(self.a_y));
        words.push(word_of(self.b_x));
        words.push(word_of(self.b_y));
        words.push(self.alpha);
        words.push(self.beta);
        words.push(word_of(self.m));
        words.push(word_of(self.k));
        words.push(word_of(self.n));
        words.push(word_of(self.ldc));
        assert(words@ =~= before + self.words());
    }
}

/// The parameters of the SM120 kernels: tensor-map origins first. Floats travel by their bit patterns.
#[derive(Clone, Copy, Debug, PartialEq, Eq, Structural)]
pub struct Sm120KernelParams {
    pub a_x: i32,
    pub a_y: i32,
    pub b_x: i32,
    pub b_y: i32,
    pub alpha: u32,
    pub beta: u32,
    pub m: i32,
    pub k: i32,
    pub n: i32,
    pub ldc: i32,
}

impl Sm120KernelParams {
    /// The words of the block, in memory order.
    pub open spec fn words(self) -> Seq<u32> {
        seq![
            word_of(self.a_x),
            word_of(self.a_y),
            word_of(self.b_x),
            word_of(self.b_y),
            self.alpha,
            self.beta,
            word_of(self.m),
            word_of(self.k),
            word_of(self.n),
            word_of(self.ldc),
        ]
    }

    /// The words of the block, in memory order.
    pub fn into_words(self) -> (words: [u32; 10])
        ensures
            words@ == self.words(),
    {
        let words: [u32; 10] = [
            word_of(self.a_x),
            word_of(self.a_y),
            word_of(self.b_x),
            word_of(self.b_y),
            self.alpha,
            self.beta,
            word_of(self.m),
            word_of(self.k),
            word_of(self.n),
            word_of(self.ldc),
        ];
        assert(words@ =~= self.words());
        words
    }

    /// The block that a list of words holds.
    pub open spec fn of_words(words: Seq<u32>) -> Sm120KernelParams {
        Sm120KernelParams {
            a_x: value_of(words[0]),
            a_y: value_of(words[1]),
            b_x: value_of(words[2]),
            b_y: value_of(words[3]),
            alpha: words[4],
            beta: words[5],
            m: value_of(words[6]),
            k: value_of(words[7]),
            n: value_of(words[8]),
            ldc: value_of(words[9]),
        }
    }

    /// The block that a list of words holds.
    pub fn from_words(words: [u32; 10]) -> (params: Sm120KernelParams)
        ensures
            params == Sm120KernelParams::of_words(words@),
            params.words() == words@,
    {
        let params = Sm120KernelParams {
            a_x: value_of(words[0]),
            a_y: value_of(words[1]),
            b_x: value_of(words[2]),
            b_y: value_of(words[3]),
            alpha: words[4],
            beta: words[5],
            m: value_of(words[6]),
            k: value_of(words[7]),
            n: value_of(words[8]),
            ldc: value_of(words[9]),
        };
        proof {
            words_hold_signed_values(params.a_x, words@[0]);
            words_hold_signed_values(params.a_y, words@[1]);
            words_hold_signed_values(params.b_x, words@[2]);
            words_hold_signed_values(params.b_y, words@[3]);
            words_hold_signed_values(params.m, words@[6]);
            words_hold_signed_values(params.k, words@[7]);
            words_hold_signed_values(params.n, words@[8]);
            words_hold_signed_values(params.ldc, words@[9]);
            assert(params.words() =~= words@);
        }
        params
    }

    /// Pushes the words of the block.
    pub fn push_words(self, words: &mut Vec<u32>)
        ensures
            final(words)@ == old(words)@ + self.words(),
    {
        let ghost before = words@;
        words.push(word_of(self.a_x));
        words.push(word_of(self.a_y));
        words.push(word_of(self.b_x));
        words.push(word_of(self.b_y));
        words.push(self.alpha);
        words.push(self.beta);
        words.push(word_of(self.m));
        words.push(word_of(self.k));
        words.push(word_of(self.n));
        words.push(word_of(self.ldc));
        assert(words@ =~= before + self.words());
    }
}

/// The parameters of the exact-f32 SM120 kernels, in output rows, output
/// columns and reduction. Floats travel by their bit patterns.
#[derive(Clone, Copy, Debug, PartialEq, Eq, Structural)]
pub struct Sm120FmaKernelParams {
    pub alpha: u32,
    pub beta: u32,
    pub m: i32,
    pub n: i32,
    pub k: i32,
    pub ldc: i32,
    pub splits: i32,
    pub tiles_per_split: i32,
}

impl Sm120FmaKernelParams {
    /// The words of the block, in memory order.
    pub open spec fn words(self) -> Seq<u32> {
        seq![
            self.alpha,
            self.beta,
            word_of(self.m),
            word_of(self.n),
            word_of(self.k),
            word_of(self.ldc),
            word_of(self.splits),
            word_of(self.tiles_per_split),
        ]
    }

    /// Pushes the words of the block.
    pub fn push_words(self, words: &mut Vec<u32>)
        ensures
            final(words)@ == old(words)@ + self.words(),
    {
        let ghost before = words@;
        words.push(self.alpha);
        words.push(self.beta);
        words.push(word_of(self.m));
        words.push(word_of(self.n));
        words.push(word_of(self.k));
        words.push(word_of(self.ldc));
        words.push(word_of(self.splits));
        words.push(word_of(self.tiles_per_split));
        assert(words@ =~= before + self.words());
    }
}

/// A block of SM100 parameters is read back from its words.
pub proof fn sm100_words_round_trip(left: Sm100KernelParams, right: Sm100KernelParams)
    requires
        left.words() == right.words(),
    ensures
        left == right,
{
    let l = left.words();
    let r = right.words();
    assert(l[0] == r[0]);
    words_hold_signed_values(left.a_x, 0);
    words_hold_signed_values(right.a_x, 0);
    assert(l[1] == r[1]);
    words_hold_signed_values(left.a_y, 0);
    words_hold_signed_values(right.a_y, 0);
    assert(l[2] == r[2]);
    words_hold_signed_values(left.b_x, 0);
    words_hold_signed_values(right.b_x, 0);
    assert(l[3] == r[3]);
    words_hold_signed_values(left.b_y, 0);
    words_hold_signed_values(right.b_y, 0);
    assert(l[4] == r[4]);
    assert(l[5] == r[5]);
    assert(l[6] == r[6]);
    words_hold_signed_values(left.m, 0);
    words_hold_signed_values(right.m, 0);
    assert(l[7] == r[7]);
    words_hold_signed_values(left.k, 0);
    words_hold_signed_values(right.k, 0);
    assert(l[8] == r[8]);
    words_hold_signed_values(left.n, 0);
    words_hold_signed_values(right.n, 0);
    assert(l[9] == r[9]);
    words_hold_signed_values(left.ldc, 0);
    words_hold_signed_values(right.ldc, 0);
}

/// A block of SM120 parameters is read back from its words.
pub proof fn sm120_words_round_trip(left: Sm120KernelParams, right: Sm120KernelParams)
    requires
        left.words() == right.words(),
    ensures
        left == right,
{
    let l = left.words();
    let r = right.words();
    assert(l[0] == r[0]);
    words_hold_signed_values(left.a_x, 0);
    words_hold_signed_values(right.a_x, 0);
    assert(l[1] == r[1]);
    words_hold_signed_values(left.a_y, 0);
    words_hold_signed_values(right.a_y, 0);
    assert(l[2] == r[2]);
    words_hold_signed_values(left.b_x, 0);
    words_hold_signed_values(right.b_x, 0);
    assert(l[3] == r[3]);
    words_hold_signed_values(left.b_y, 0);
    words_hold_signed_values(right.b_y, 0);
    assert(l[4] == r[4]);
    assert(l[5] == r[5]);
    assert(l[6] == r[6]);
    words_hold_signed_values(left.m, 0);
    words_hold_signed_values(right.m, 0);
    assert(l[7] == r[7]);
    words_hold_signed_values(left.k, 0);
    words_hold_signed_values(right.k, 0);
    assert(l[8] == r[8]);
    words_hold_signed_values(left.n, 0);
    words_hold_signed_values(right.n, 0);
    assert(l[9] == r[9]);
    words_hold_signed_values(left.ldc, 0);
    words_hold_signed_values(right.ldc, 0);
}

/// The size of the empty-reduction parameters in bytes.
pub const GEMM_BI_ZERO_REDUCTION_PARAMS_SIZE: usize = 32;

/// The size of a module's TF32 parameters in bytes.
#[verifier::allow_in_spec]
pub fn tf32_kernel_params_size(module_kind: ModuleKind) -> Option<usize>
    returns
        (match module_kind {
            ModuleKind::TriadSm80 => Some(32usize),
            ModuleKind::TriadSm90a | ModuleKind::TriadSm100 | ModuleKind::TriadSm120 => Some(
                40usize,
            ),
            _ => None::<usize>,
        }),
{
    match module_kind {
        ModuleKind::TriadSm80 => Some(32),
        ModuleKind::TriadSm90a | ModuleKind::TriadSm100 | ModuleKind::TriadSm120 => Some(40),
        _ => None,
    }
}

/// The stated parameter sizes are those of the blocks.
pub proof fn params_have_their_stated_size(
    zero: SgbZeroReductionParams,
    sm80: Sm80Tf32KernelParams,
    sm90a: Sm90aTf32KernelParams,
    sm100: Sm100KernelParams,
    sm120: Sm120KernelParams,
)
    ensures
        words_bytes(zero.words()).len() == GEMM_BI_ZERO_REDUCTION_PARAMS_SIZE,
        tf32_kernel_params_size(ModuleKind::TriadSm80) == Some(
            words_bytes(sm80.words()).len() as usize,
        ),
        tf32_kernel_params_size(ModuleKind::TriadSm90a) == Some(
            words_bytes(sm90a.words()).len() as usize,
        ),
        tf32_kernel_params_size(ModuleKind::TriadSm100) == Some(
            words_bytes(sm100.words()).len() as usize,
        ),
        tf32_kernel_params_size(ModuleKind::TriadSm120) == Some(
            words_bytes(sm120.words()).len() as usize,
        ),
{
}

} // verus!
