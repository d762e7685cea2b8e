//! What the kernels compute, on an idealized device: memory holds numbers, a
//! float stands for the number of its bits, and sums are not rounded.
//!
//! A kernel is read off its symbol. Its arguments then say which matrices it
//! reads and writes, how far apart their rows are and how long the sums are.
//! A launch with another number of arguments, or on a grid that is not the
//! one of its output tiles, computes nothing.

use crate::kernel::{KernelArg, LaunchConfig, LaunchStep};
use crate::shape::{F32_NEGATIVE_ZERO_BITS, F32_ONE_BITS, F32_ZERO_BITS};
use vstd::prelude::*;

verus! {

/// The memory of a device: the number that starts at every address, and the
/// partial sums behind a workspace by chunk, row and column.
pub struct Memory {
    pub cells: spec_fn(int) -> int,
    pub slabs: spec_fn(int, int, int, int) -> int,
}

/// The numbers that the bit patterns of factors stand for.
pub struct Numbers {
    pub of_bits: spec_fn(u32) -> int,
}

impl Numbers {
    /// One is one, and a zero of either sign is zero.
    pub open spec fn faithful(self) -> bool {
        &&& (self.of_bits)(F32_ONE_BITS) == 1
        &&& (self.of_bits)(F32_ZERO_BITS) == 0
        &&& (self.of_bits)(F32_NEGATIVE_ZERO_BITS) == 0
    }
}

/// A matrix in memory. Its steps are counted in elements.
pub struct Matrix {
    pub base: int,
    pub width: int,
    pub row_step: int,
    pub column_step: int,
}

impl Matrix {
    /// A row-major matrix whose rows are a stride apart.
    pub open spec fn rows_apart(base: int, width: int, stride: int) -> Matrix {
        Matrix { base, width, row_step: stride, column_step: 1 }
    }

    /// The same elements with rows and columns exchanged.
    pub open spec fn transposed(self) -> Matrix {
        Matrix { row_step: self.column_step, column_step: self.row_step, ..self }
    }

    /// Where an element starts.
    pub open spec fn address(self, row: int, column: int) -> int {
        self.base + self.width * (row * self.row_step + column * self.column_step)
    }

    /// An element.
    pub open spec fn at(self, memory: Memory, row: int, column: int) -> int {
        (memory.cells)(self.address(row, column))
    }
}

/// The part of a matrix product's element that is summed from one index to
/// another.
pub open spec fn dot(
    memory: Memory,
    a: Matrix,
    b: Matrix,
    row: int,
    column: int,
    from: int,
    to: int,
) -> int
    decreases to - from,
{
    if to <= from {
        0
    } else {
        dot(memory, a, b, row, column, from, to - 1) + a.at(memory, row, to - 1) * b.at(
            memory,
            to - 1,
            column,
        )
    }
}

/// The bias of a column; a null pointer is no bias.
pub open spec fn bias_at(memory: Memory, bias: int, column: int) -> int {
    if bias == 0 {
        0
    } else {
        (memory.cells)(bias + 4 * column)
    }
}

/// The element of a matrix starts at an address.
pub open spec fn stands_at(
    target: Matrix,
    rows: int,
    columns: int,
    address: int,
    row: int,
    column: int,
) -> bool {
    0 <= row < rows && 0 <= column < columns && address == target.address(row, column)
}

/// Memory after a matrix was written.
pub open spec fn stored(
    memory: Memory,
    target: Matrix,
    rows: int,
    columns: int,
    value: spec_fn(int, int) -> int,
) -> Memory {
    Memory {
        cells: |address: int|
            if exists|row: int, column: int|
                stands_at(target, rows, columns, address, row, column) {
                let (row, column) = choose|row: int, column: int|
                    stands_at(target, rows, columns, address, row, column);
                value(row, column)
            } else {
                (memory.cells)(address)
            },
        slabs: memory.slabs,
    }
}

/// Two matrices share no element.
pub open spec fn apart(
    left: Matrix,
    left_rows: int,
    left_columns: int,
    right: Matrix,
    right_rows: int,
    right_columns: int,
) -> bool {
    forall|i: int, j: int, r: int, c: int|
        #![trigger left.address(i, j), right.address(r, c)]
        0 <= i < left_rows && 0 <= j < left_columns && 0 <= r < right_rows && 0 <= c < right_columns
            ==> left.address(i, j) != right.address(r, c)
}

/// A product `target = alpha a b + beta target + bias`.
pub struct Product {
    pub rows: int,
    pub columns: int,
    pub depth: int,
    pub target: Matrix,
    pub a: Matrix,
    pub b: Matrix,
    pub bias: int,
    pub alpha: int,
    pub beta: int,
}

impl Product {
    /// An element of the product.
    pub open spec fn element(self, memory: Memory, row: int, column: int) -> int {
        self.alpha * dot(memory, self.a, self.b, row, column, 0, self.depth) + self.beta
            * self.target.at(memory, row, column) + bias_at(memory, self.bias, column)
    }

    /// Memory after the product was computed.
    pub open spec fn computed(self, memory: Memory) -> Memory {
        stored(
            memory,
            self.target,
            self.rows,
            self.columns,
            |row: int, column: int| self.element(memory, row, column),
        )
    }
}

/// The address that an argument holds.
pub open spec fn pointer_at(args: Seq<KernelArg>, position: int) -> int {
    match args[position] {
        KernelArg::Pointer(pointer) => pointer as int,
        _ => -1,
    }
}

/// The integer that an argument holds.
pub open spec fn integer_at(args: Seq<KernelArg>, position: int) -> int {
    match args[position] {
        KernelArg::Int(value) => value as int,
        _ => -1,
    }
}

/// The number that an argument holds.
pub open spec fn number_at(args: Seq<KernelArg>, position: int, numbers: Numbers) -> int {
    match args[position] {
        KernelArg::Float(bits) => (numbers.of_bits)(bits),
        _ => -1,
    }
}

/// The type of the elements that a kernel reads. Weight gradients are single
/// precision all the same.
pub enum Element {
    F32,
    Bf16,
    F16,
}

/// A block of a tiled kernel: the output tile, the threads and the dynamic
/// shared memory.
pub struct Block {
    pub tile: (int, int),
    pub threads: int,
    pub shared: int,
}

/// The kernels.
pub enum Kernel {
    /// `Y = X W + bias` on output tiles.
    Forward { block: Block, element: Element, post_op: bool },
    /// `Y = X W + bias` on rows of 32 columns, with the row of X in shared
    /// memory.
    ForwardRows { element: Element },
    /// `Y = X W + bias` with a single column.
    ForwardColumn { element: Element },
    /// `Y = X W + bias` on tiles of 64 by 64, with a parameter block.
    Forward64 { prism: bool },
    /// `dW += X^T dY` on output tiles. A kernel that loads vectors needs
    /// aligned tensors, one that folds takes a workspace.
    Weight { block: Block, element: Element, vectors: bool, folds: bool },
    /// `dW += X^T dY` with a single column.
    WeightColumn { element: Element },
    /// `dX = dY W^T` on output tiles.
    Input { block: Block, element: Element },
    /// `dX = dY W^T` summed over a single column.
    InputColumn { element: Element },
    /// A transposed copy, in blocks of 32 by a number of rows.
    Transpose { block_rows: int },
    /// Partial sums of `X W` over chunks of 32.
    Chunks32 { exact: bool },
    /// Partial sums of `X W` over chunks of a given width.
    ChunksSlim,
    /// Partial sums of `X^T dY` over chunks of rows.
    ChunksOfRows { narrow: bool, vectors: bool },
    /// The partial sums of a product, folded into its output together with a
    /// tail.
    Fold,
    /// The partial sums of a weight gradient, folded into it.
    FoldWeight,
    /// One column of `dX = dY W^T`.
    InputTail,
}

/// A symbol is the one of an element type.
pub open spec fn typed(
    symbol: &str,
    element: Element,
    f32_symbol: &str,
    bf16_symbol: &str,
    f16_symbol: &str,
) -> bool {
    match element {
        Element::F32 => symbol == f32_symbol,
        Element::Bf16 => symbol == bf16_symbol,
        Element::F16 => symbol == f16_symbol,
    }
}

/// A symbol is the one of a half-precision element type.
pub open spec fn half_typed(
    symbol: &str,
    element: Element,
    bf16_symbol: &str,
    f16_symbol: &str,
) -> bool {
    match element {
        Element::F32 => false,
        Element::Bf16 => symbol == bf16_symbol,
        Element::F16 => symbol == f16_symbol,
    }
}

/// A block is made up of a tile, threads and shared memory.
pub open spec fn block_is(
    block: Block,
    rows: int,
    columns: int,
    threads: int,
    shared: int,
) -> bool {
    block.tile == (rows, columns) && block.threads == threads && block.shared == shared
}

/// Which kernel a symbol is.
pub open spec fn named(kernel: Kernel, symbol: &str) -> bool {
    match kernel {
        Kernel::Forward { block, element, post_op } => {
            ||| typed(symbol, element, "gemm_bi_nn", "gemm_bi_nn_big_bf16", "gemm_bi_nn_big_f16")
                && block_is(block, 128, 128, 256, 34_816) && !post_op
            ||| element is F32 && symbol == "gemm_bi_nn_slim" && block_is(block, 128, 64, 128, 0)
                && !post_op
            ||| typed(
                symbol,
                element,
                "gemm_bi_nn_narrow",
                "gemm_bi_nn_narrow_bf16",
                "gemm_bi_nn_narrow_f16",
            ) && block_is(block, 64, 32, 128, 0) && post_op
            ||| typed(
                symbol,
                element,
                "gemm_bi_nn_narrow_small",
                "gemm_bi_nn_narrow_small_bf16",
                "gemm_bi_nn_narrow_small_f16",
            ) && block_is(block, 16, 16, 64, 0) && post_op
            ||| half_typed(symbol, element, "gemm_bi_nn_tc_bf16", "gemm_bi_nn_tc_f16") && block_is(
                block,
                128,
                128,
                256,
                71_680,
            ) && !post_op
            ||| half_typed(symbol, element, "gemm_bi_nn_tc64_bf16", "gemm_bi_nn_tc64_f16")
                && block_is(block, 64, 64, 128, 0) && !post_op
            ||| half_typed(symbol, element, "gemm_bi_nn_tc16_bf16", "gemm_bi_nn_tc16_f16")
                && block_is(block, 16, 32, 128, 0) && !post_op
        },
        Kernel::ForwardRows { element } => typed(
            symbol,
            element,
            "gemm_bi_nn_ultra_thin",
            "gemm_bi_nn_ultra_thin_bf16",
            "gemm_bi_nn_ultra_thin_f16",
        ),
        Kernel::ForwardColumn { element } => typed(
            symbol,
            element,
            "gemm_bi_nn_gemv",
            "gemm_bi_nn_gemv_bf16",
            "gemm_bi_nn_gemv_f16",
        ),
        Kernel::Forward64 { prism: false } => symbol == "gemm_bi_nn_m64n64_bk16_s2_v1",
        Kernel::Forward64 { prism: true } => symbol == "gemm_bi_nn_prism_m64n64_bk16_s2_v1",
        Kernel::Weight { block, element, vectors, folds } => {
            ||| typed(symbol, element, "gemm_bi_tn", "gemm_bi_tn_big_bf16", "gemm_bi_tn_big_f16")
                && block_is(block, 128, 128, 256, 34_816) && !vectors && !folds
            ||| element is F32 && symbol == "gemm_bi_tn_aligned" && block_is(
                block,
                128,
                128,
                256,
                34_816,
            ) && vectors && !folds
            ||| element is F32 && symbol == "gemm_bi_tn_slim" && block_is(block, 128, 64, 128, 0)
                && !vectors && !folds
            ||| element is F32 && symbol == "gemm_bi_tn_m16n16_bk16_s2_splitm16_v1" && block_is(
                block,
                16,
                16,
                64,
                4_096,
            ) && !vectors && !folds
            ||| typed(
                symbol,
                element,
                "gemm_bi_tn_narrow",
                "gemm_bi_tn_narrow_bf16",
                "gemm_bi_tn_narrow_f16",
            ) && block_is(block, 64, 32, 128, 0) && !vectors && !folds
            ||| half_typed(symbol, element, "gemm_bi_tn_tc_bf16", "gemm_bi_tn_tc_f16") && block_is(
                block,
                128,
                128,
                256,
                69_632,
            ) && !vectors && !folds
            ||| half_typed(symbol, element, "gemm_bi_tn_tc64_bf16", "gemm_bi_tn_tc64_f16")
                && block_is(block, 64, 64, 128, 0) && !vectors && !folds
            ||| half_typed(symbol, element, "gemm_bi_tn_tc128x64_bf16", "gemm_bi_tn_tc128x64_f16")
                && block_is(block, 128, 64, 256, 0) && !vectors && !folds
            ||| half_typed(
                symbol,
                element,
                "gemm_bi_tn_tc64_streamk_bf16",
                "gemm_bi_tn_tc64_streamk_f16",
            ) && block_is(block, 64, 64, 128, 0) && !vectors && folds
        },
        Kernel::WeightColumn { element } => typed(
            symbol,
            element,
            "gemm_bi_tn_gemv",
            "gemm_bi_tn_gemv_bf16",
            "gemm_bi_tn_gemv_f16",
        ),
        Kernel::Input { block, element } => {
            ||| element is F32 && symbol == "gemm_bi_nt" && block_is(block, 128, 128, 256, 33_376)
            ||| element is F32 && symbol == "gemm_bi_nt_slim" && block_is(block, 128, 64, 128, 0)
            ||| element is F32 && symbol == "gemm_bi_nt_m2n16_bk64_splitk32_v1" && block_is(
                block,
                2,
                16,
                64,
                17_984,
            )
            ||| typed(
                symbol,
                element,
                "gemm_bi_nt_narrow",
                "gemm_bi_nt_narrow_bf16",
                "gemm_bi_nt_narrow_f16",
            ) && block_is(block, 64, 32, 128, 0)
            ||| half_typed(symbol, element, "gemm_bi_nt_big_bf16", "gemm_bi_nt_big_f16")
                && block_is(block, 128, 128, 256, 34_816)
            ||| half_typed(symbol, element, "gemm_bi_nt_tc_bf16", "gemm_bi_nt_tc_f16") && block_is(
                block,
                128,
                128,
                256,
                73_728,
            )
            ||| half_typed(symbol, element, "gemm_bi_nt_tc64_bf16", "gemm_bi_nt_tc64_f16")
                && block_is(block, 64, 64, 128, 0)
        },
        Kernel::InputColumn { element } => typed(
            symbol,
            element,
            "gemm_bi_nt_gemv",
            "gemm_bi_nt_gemv_bf16",
            "gemm_bi_nt_gemv_f16",
        ),
        Kernel::Transpose { block_rows } => {
            ||| symbol == "gemm_bi_transpose_f32_2d" && block_rows == 32
            ||| symbol == "gemm_bi_transpose_f32_32x16_d768_v1" && block_rows == 16
        },
        Kernel::Chunks32 { exact: false } => symbol == "gemm_bi_nn_splitk32_partial",
        Kernel::Chunks32 { exact: true } => symbol == "gemm_bi_nn_splitk32_m32n64_exact_v1",
        Kernel::ChunksSlim => symbol == "gemm_bi_nn_splitk_slim_partial",
        Kernel::ChunksOfRows { narrow: false, vectors: false } => symbol
            == "gemm_bi_tn_splitm_partial",
        Kernel::ChunksOfRows { narrow: false, vectors: true } => symbol
            == "gemm_bi_tn_splitm_partial_aligned",
        Kernel::ChunksOfRows { narrow: true, vectors: false } => symbol
            == "gemm_bi_tn_narrow_splitm_partial",
        Kernel::ChunksOfRows { narrow: true, vectors: true } => symbol
            == "gemm_bi_tn_narrow_splitm_partial_aligned",
        Kernel::Fold => symbol == "gemm_bi_splitk_reduce",
        Kernel::FoldWeight => symbol == "gemm_bi_splitm_reduce",
        Kernel::InputTail => symbol == "gemm_bi_dx_col_gemv",
    }
}

/// How many tiles cover an extent.
pub open spec fn tiles(extent: int, tile: int) -> int {
    (extent + tile - 1) / tile
}

/// The threads of a block stand in a line.
pub open spec fn threads_are(config: LaunchConfig, threads: int) -> bool {
    config.block_dim.0 == threads && config.block_dim.1 == 1 && config.block_dim.2 == 1
}

/// The blocks of a launch.
pub open spec fn grid_is(config: LaunchConfig, x: int, y: int, z: int) -> bool {
    config.grid_dim.0 == x && config.grid_dim.1 == y && config.grid_dim.2 == z
}

/// The width of an input element.
pub open spec fn input_width(element: Element) -> int {
    match element {
        Element::F32 => 4,
        _ => 2,
    }
}

/// The product of a tiled forward launch.
pub open spec fn forward_product(args: Seq<KernelArg>, element: Element, numbers: Numbers) -> Product {
    let width = input_width(element);
    Product {
        rows: integer_at(args, 6),
        columns: integer_at(args, 7),
        depth: integer_at(args, 8),
        target: Matrix::rows_apart(pointer_at(args, 0), width, integer_at(args, 11)),
        a: Matrix::rows_apart(pointer_at(args, 1), width, integer_at(args, 9)),
        b: Matrix::rows_apart(pointer_at(args, 2), width, integer_at(args, 10)),
        bias: pointer_at(args, 3),
        alpha: number_at(args, 4, numbers),
        beta: number_at(args, 5, numbers),
    }
}

/// The product of a forward launch with a single column.
pub open spec fn forward_column_product(
    args: Seq<KernelArg>,
    element: Element,
    numbers: Numbers,
) -> Product {
    let width = input_width(element);
    Product {
        rows: integer_at(args, 6),
        columns: 1,
        depth: integer_at(args, 7),
        target: Matrix::rows_apart(pointer_at(args, 0), width, integer_at(args, 9)),
        a: Matrix::rows_apart(pointer_at(args, 1), width, integer_at(args, 8)),
        b: Matrix::rows_apart(pointer_at(args, 2), width, 1),
        bias: pointer_at(args, 3),
        alpha: number_at(args, 4, numbers),
        beta: number_at(args, 5, numbers),
    }
}

/// The product of a forward launch with a parameter block.
pub open spec fn forward64_product(args: Seq<KernelArg>, numbers: Numbers) -> Product {
    match args[4] {
        KernelArg::M64N64(params) => Product {
            rows: params.m as int,
            columns: params.n as int,
            depth: params.k as int,
            target: Matrix::rows_apart(pointer_at(args, 0), 4, params.ldc as int),
            a: Matrix::rows_apart(pointer_at(args, 1), 4, params.lda as int),
            b: Matrix::rows_apart(pointer_at(args, 2), 4, params.ldb as int),
            bias: pointer_at(args, 3),
            alpha: (numbers.of_bits)(params.alpha),
            beta: (numbers.of_bits)(params.beta),
        },
        _ => Product {
            rows: 0,
            columns: 0,
            depth: 0,
            target: Matrix::rows_apart(0, 0, 0),
            a: Matrix::rows_apart(0, 0, 0),
            b: Matrix::rows_apart(0, 0, 0),
            bias: 0,
            alpha: 0,
            beta: 0,
        },
    }
}

/// The product of a tiled weight gradient: it adds to what is there.
pub open spec fn weight_product(args: Seq<KernelArg>, element: Element, numbers: Numbers) -> Product {
    let width = input_width(element);
    Product {
        rows: integer_at(args, 5),
        columns: integer_at(args, 6),
        depth: integer_at(args, 4),
        target: Matrix::rows_apart(pointer_at(args, 0), 4, integer_at(args, 6)),
        a: Matrix::rows_apart(pointer_at(args, 1), width, integer_at(args, 5)).transposed(),
        b: Matrix::rows_apart(pointer_at(args, 2), width, integer_at(args, 6)),
        bias: 0,
        alpha: number_at(args, 3, numbers),
        beta: 1,
    }
}

/// The product of a weight gradient with a single column.
pub open spec fn weight_column_product(
    args: Seq<KernelArg>,
    element: Element,
    numbers: Numbers,
) -> Product {
    let width = input_width(element);
    Product {
        rows: integer_at(args, 5),
        columns: 1,
        depth: integer_at(args, 4),
        target: Matrix::rows_apart(pointer_at(args, 0), 4, 1),
        a: Matrix::rows_apart(pointer_at(args, 1), width, integer_at(args, 6)).transposed(),
        b: Matrix::rows_apart(pointer_at(args, 2), width, integer_at(args, 7)),
        bias: 0,
        alpha: number_at(args, 3, numbers),
        beta: 1,
    }
}

/// The product of a tiled input gradient: it replaces what is there.
pub open spec fn input_product(args: Seq<KernelArg>, element: Element, numbers: Numbers) -> Product {
    let width = input_width(element);
    Product {
        rows: integer_at(args, 4),
        columns: integer_at(args, 6),
        depth: integer_at(args, 5),
        target: Matrix::rows_apart(pointer_at(args, 0), width, integer_at(args, 6)),
        a: Matrix::rows_apart(pointer_at(args, 1), width, integer_at(args, 5)),
        b: Matrix::rows_apart(pointer_at(args, 2), width, integer_at(args, 5)).transposed(),
        bias: 0,
        alpha: number_at(args, 3, numbers),
        beta: 0,
    }
}

/// The product of an input gradient over a single column.
pub open spec fn input_column_product(
    args: Seq<KernelArg>,
    element: Element,
    numbers: Numbers,
) -> Product {
    let width = input_width(element);
    Product {
        rows: integer_at(args, 4),
        columns: integer_at(args, 5),
        depth: 1,
        target: Matrix::rows_apart(pointer_at(args, 0), width, integer_at(args, 6)),
        a: Matrix::rows_apart(pointer_at(args, 1), width, integer_at(args, 7)),
        b: Matrix::rows_apart(pointer_at(args, 2), width, 1).transposed(),
        bias: 0,
        alpha: number_at(args, 3, numbers),
        beta: 0,
    }
}

/// The lesser of two numbers.
pub open spec fn least(left: int, right: int) -> int {
    if left <= right {
        left
    } else {
        right
    }
}

/// Memory after chunks of a product were summed up behind a workspace. A
/// chunk is so many steps of the sum, and the sum ends at its depth.
pub open spec fn chunked(
    memory: Memory,
    workspace: int,
    chunks: int,
    chunk: int,
    rows: int,
    columns: int,
    depth: int,
    a: Matrix,
    b: Matrix,
) -> Memory {
    Memory {
        cells: memory.cells,
        slabs: |base: int, index: int, row: int, column: int|
            if base == workspace && 0 <= index < chunks && 0 <= row < rows && 0 <= column
                < columns {
                dot(
                    memory,
                    a,
                    b,
                    row,
                    column,
                    least(index * chunk, depth),
                    least((index + 1) * chunk, depth),
                )
            } else {
                (memory.slabs)(base, index, row, column)
            },
    }
}

/// The sum of the first partial sums behind a workspace.
pub open spec fn folded(
    memory: Memory,
    workspace: int,
    chunks: int,
    row: int,
    column: int,
) -> int
    decreases chunks,
{
    if chunks <= 0 {
        0
    } else {
        folded(memory, workspace, chunks - 1, row, column) + (memory.slabs)(
            workspace,
            chunks - 1,
            row,
            column,
        )
    }
}

/// Memory after a transposed copy: `rows` by `columns` elements are read.
pub open spec fn copied_transposed(
    memory: Memory,
    target: int,
    source: int,
    rows: int,
    columns: int,
) -> Memory {
    stored(
        memory,
        Matrix::rows_apart(target, 4, rows),
        columns,
        rows,
        |row: int, column: int|
            Matrix::rows_apart(source, 4, columns).at(memory, column, row),
    )
}

/// Where the folded sums of a product go: the output is packed unless it has
/// a stride of its own.
pub open spec fn fold_target(args: Seq<KernelArg>) -> Matrix {
    Matrix::rows_apart(
        pointer_at(args, 0),
        4,
        if integer_at(args, 10) == 0 {
            integer_at(args, 7)
        } else {
            integer_at(args, 10)
        },
    )
}

/// An element of a product that is folded from partial sums and a tail.
pub open spec fn fold_element(
    args: Seq<KernelArg>,
    memory: Memory,
    numbers: Numbers,
    row: int,
    column: int,
) -> int {
    number_at(args, 5, numbers) * (folded(
        memory,
        pointer_at(args, 1),
        integer_at(args, 8),
        row,
        column,
    ) + dot(
        memory,
        Matrix::rows_apart(pointer_at(args, 3), 4, integer_at(args, 9)),
        Matrix::rows_apart(pointer_at(args, 4), 4, integer_at(args, 7)),
        row,
        column,
        0,
        integer_at(args, 11),
    )) + bias_at(memory, pointer_at(args, 2), column)
}

/// A launch has the arguments and the blocks that its kernel needs.
pub open spec fn well_launched(kernel: Kernel, step: LaunchStep) -> bool {
    let args = step.args;
    let config = step.config;
    match kernel {
        Kernel::Forward { block, element: _, post_op } => {
            &&& args.len() == (if post_op {
                13int
            } else {
                12int
            })
            &&& post_op ==> integer_at(args, 12) == 0
            &&& threads_are(config, block.threads)
            &&& config.shared_mem_bytes == block.shared
            &&& grid_is(
                config,
                tiles(integer_at(args, 6), block.tile.0) * tiles(integer_at(args, 7), block.tile.1),
                1,
                1,
            )
        },
        Kernel::ForwardRows { element: _ } => {
            &&& args.len() == 12
            &&& threads_are(config, 256)
            &&& grid_is(config, tiles(integer_at(args, 7), 32), integer_at(args, 6), 1)
            &&& config.shared_mem_bytes == 4 * integer_at(args, 8)
        },
        Kernel::ForwardColumn { element: _ } => {
            &&& args.len() == 10
            &&& config.shared_mem_bytes == 0
            &&& threads_are(config, 128)
            &&& grid_is(config, tiles(integer_at(args, 6), 4), 1, 1)
        },
        Kernel::Forward64 { .. } => {
            &&& args.len() == 5
            &&& threads_are(config, 128)
            &&& config.shared_mem_bytes == 17_408
            &&& args[4] matches KernelArg::M64N64(params) && grid_is(
                config,
                tiles(params.m as int, 64) * tiles(params.n as int, 64),
                1,
                1,
            )
        },
        Kernel::Weight { block, element: _, vectors, folds } => {
            &&& args.len() == (if folds {
                9int
            } else {
                7int
            })
            &&& threads_are(config, block.threads)
            &&& config.shared_mem_bytes == block.shared
            &&& vectors ==> pointer_at(args, 0) % 16 == 0 && pointer_at(args, 1) % 16 == 0
                && pointer_at(args, 2) % 16 == 0
            &&& if folds {
                config.grid_dim.0 >= 1 && config.grid_dim.1 == 1 && config.grid_dim.2 == 1
            } else {
                grid_is(
                    config,
                    tiles(integer_at(args, 5), block.tile.0) * tiles(
                        integer_at(args, 6),
                        block.tile.1,
                    ),
                    1,
                    1,
                )
            }
        },
        Kernel::WeightColumn { element: _ } => {
            &&& args.len() == 8
            &&& config.shared_mem_bytes == 0
            &&& threads_are(config, 128)
            &&& grid_is(config, tiles(integer_at(args, 5), 4), 1, 1)
        },
        Kernel::Input { block, element: _ } => {
            &&& args.len() == 7
            &&& threads_are(config, block.threads)
            &&& config.shared_mem_bytes == block.shared
            &&& grid_is(
                config,
                tiles(integer_at(args, 4), block.tile.0) * tiles(integer_at(args, 6), block.tile.1),
                1,
                1,
            )
        },
        Kernel::InputColumn { element: _ } => {
            &&& args.len() == 8
            &&& config.shared_mem_bytes == 0
            &&& threads_are(config, 256)
            &&& grid_is(config, tiles(integer_at(args, 4) * integer_at(args, 5), 256), 1, 1)
        },
        Kernel::Transpose { block_rows } => {
            &&& args.len() == 4
            &&& config.shared_mem_bytes == 0
            &&& config.block_dim.0 == 32 && config.block_dim.1 == block_rows
                && config.block_dim.2 == 1
            &&& grid_is(config, tiles(integer_at(args, 3), 32), tiles(integer_at(args, 2), 32), 1)
        },
        Kernel::Chunks32 { .. } => {
            &&& args.len() == 7
            &&& config.shared_mem_bytes == 0
            &&& threads_are(config, 128)
            &&& grid_is(
                config,
                tiles(integer_at(args, 3), 32) * tiles(integer_at(args, 4), 64) * integer_at(
                    args,
                    5,
                ),
                1,
                1,
            )
        },
        Kernel::ChunksSlim => {
            &&& args.len() == 9
            &&& config.shared_mem_bytes == 0
            &&& threads_are(config, 128)
            &&& grid_is(
                config,
                tiles(integer_at(args, 3), 128) * tiles(integer_at(args, 4), 64),
                1,
                config.grid_dim.2 as int,
            )
        },
        Kernel::ChunksOfRows { narrow, vectors } => {
            &&& args.len() == 7
            &&& config.shared_mem_bytes == 0
            &&& threads_are(
                config,
                if narrow {
                    128
                } else {
                    256
                },
            )
            &&& vectors ==> pointer_at(args, 1) % 16 == 0 && pointer_at(args, 2) % 16 == 0
            &&& if narrow {
                grid_is(
                    config,
                    tiles(integer_at(args, 4), 64),
                    tiles(integer_at(args, 5), 32),
                    config.grid_dim.2 as int,
                )
            } else {
                grid_is(
                    config,
                    tiles(integer_at(args, 4), 128) * tiles(integer_at(args, 5), 128),
                    1,
                    config.grid_dim.2 as int,
                )
            }
        },
        Kernel::Fold => {
            &&& args.len() == 12
            &&& config.shared_mem_bytes == 0
            &&& threads_are(config, 256)
            &&& grid_is(config, tiles(integer_at(args, 6) * integer_at(args, 7), 256), 1, 1)
        },
        Kernel::FoldWeight => {
            &&& args.len() == 6
            &&& config.shared_mem_bytes == 0
            &&& threads_are(config, 256)
            &&& grid_is(config, tiles(integer_at(args, 3) * integer_at(args, 4), 256), 1, 1)
        },
        Kernel::InputTail => {
            &&& args.len() == 7
            &&& config.shared_mem_bytes == 0
            &&& threads_are(config, 128)
            &&& grid_is(config, tiles(integer_at(args, 3), 128), 1, 1)
        },
    }
}

/// Memory after a kernel ran on its arguments.
pub open spec fn effect(
    kernel: Kernel,
    step: LaunchStep,
    memory: Memory,
    numbers: Numbers,
) -> Memory {
    let args = step.args;
    match kernel {
        Kernel::Forward { element, .. } => forward_product(args, element, numbers).computed(memory),
        Kernel::ForwardRows { element } => forward_product(args, element, numbers).computed(memory),
        Kernel::ForwardColumn { element } => forward_column_product(args, element, numbers).computed(
            memory,
        ),
        Kernel::Forward64 { .. } => forward64_product(args, numbers).computed(memory),
        Kernel::Weight { element, .. } => weight_product(args, element, numbers).computed(memory),
        Kernel::WeightColumn { element } => weight_column_product(args, element, numbers).computed(
            memory,
        ),
        Kernel::Input { element, .. } => input_product(args, element, numbers).computed(memory),
        Kernel::InputColumn { element } => input_column_product(args, element, numbers).computed(memory),
        Kernel::Transpose { .. } => copied_transposed(
            memory,
            pointer_at(args, 0),
            pointer_at(args, 1),
            integer_at(args, 2),
            integer_at(args, 3),
        ),
        Kernel::Chunks32 { .. } => chunked(
            memory,
            pointer_at(args, 0),
            integer_at(args, 5),
            32,
            integer_at(args, 3),
            integer_at(args, 4),
            32 * integer_at(args, 5),
            Matrix::rows_apart(pointer_at(args, 1), 4, integer_at(args, 6)),
            Matrix::rows_apart(pointer_at(args, 2), 4, integer_at(args, 4)),
        ),
        Kernel::ChunksSlim => chunked(
            memory,
            pointer_at(args, 0),
            step.config.grid_dim.2 as int,
            integer_at(args, 8),
            integer_at(args, 3),
            integer_at(args, 4),
            integer_at(args, 5),
            Matrix::rows_apart(pointer_at(args, 1), 4, integer_at(args, 6)),
            Matrix::rows_apart(pointer_at(args, 2), 4, integer_at(args, 7)),
        ),
        Kernel::ChunksOfRows { .. } => chunked(
            memory,
            pointer_at(args, 0),
            step.config.grid_dim.2 as int,
            integer_at(args, 6),
            integer_at(args, 4),
            integer_at(args, 5),
            integer_at(args, 3),
            Matrix::rows_apart(pointer_at(args, 1), 4, integer_at(args, 4)).transposed(),
            Matrix::rows_apart(pointer_at(args, 2), 4, integer_at(args, 5)),
        ),
        Kernel::Fold => stored(
            memory,
            fold_target(args),
            integer_at(args, 6),
            integer_at(args, 7),
            |row: int, column: int| fold_element(args, memory, numbers, row, column),
        ),
        Kernel::FoldWeight => stored(
            memory,
            Matrix::rows_apart(pointer_at(args, 0), 4, integer_at(args, 4)),
            integer_at(args, 3),
            integer_at(args, 4),
            |row: int, column: int|
                Matrix::rows_apart(pointer_at(args, 0), 4, integer_at(args, 4)).at(
                    memory,
                    row,
                    column,
                ) + number_at(args, 2, numbers) * folded(
                    memory,
                    pointer_at(args, 1),
                    integer_at(args, 5),
                    row,
                    column,
                ),
        ),
        Kernel::InputTail => stored(
            memory,
            Matrix::rows_apart(
                pointer_at(args, 0) + 4 * integer_at(args, 5),
                4,
                integer_at(args, 6),
            ),
            integer_at(args, 3),
            1,
            |row: int, column: int|
                dot(
                    memory,
                    Matrix::rows_apart(pointer_at(args, 1), 4, integer_at(args, 4)),
                    Matrix::rows_apart(pointer_at(args, 2), 4, 1),
                    row,
                    0,
                    0,
                    integer_at(args, 4),
                ),
        ),
    }
}

/// Memory after a launch.
pub open spec fn run(
    kernel: Kernel,
    step: LaunchStep,
    memory: Memory,
    numbers: Numbers,
) -> Memory {
    if named(kernel, step.symbol) && well_launched(kernel, step) {
        effect(kernel, step, memory, numbers)
    } else {
        memory
    }
}

/// Where an element of a single-precision matrix starts.
pub proof fn element_starts(base: int, stride: int, row: int, column: int)
    ensures
        Matrix::rows_apart(base, 4, stride).address(row, column) == base + 4 * (row * stride) + 4
            * column,
{
    let matrix = Matrix::rows_apart(base, 4, stride);
    let width = matrix.width;
    let row_step = matrix.row_step;
    let column_step = matrix.column_step;
    assert(width * (row * row_step + column * column_step) == 4 * (row * stride) + 4 * column)
        by (nonlinear_arith)
        requires
            width == 4,
            row_step == stride,
            column_step == 1,
    ;
}

/// A stored element is read back.
pub proof fn stored_elements_are_read_back(
    memory: Memory,
    target: Matrix,
    rows: int,
    columns: int,
    value: spec_fn(int, int) -> int,
    row: int,
    column: int,
)
    requires
        target.width > 0,
        target.column_step == 1,
        target.row_step >= columns,
        0 <= row < rows,
        0 <= column < columns,
    ensures
        target.at(stored(memory, target, rows, columns, value), row, column) == value(row, column),
{
    let address = target.address(row, column);
    assert(stands_at(target, rows, columns, address, row, column));
    let (r, c) = choose|r: int, c: int| stands_at(target, rows, columns, address, r, c);
    elements_stand_apart(target, columns, row, column, r, c);
}

/// Different elements of a matrix stand at different addresses.
pub proof fn elements_stand_apart(
    target: Matrix,
    columns: int,
    row: int,
    column: int,
    other_row: int,
    other_column: int,
)
    requires
        target.width > 0,
        target.column_step == 1,
        target.row_step >= columns,
        0 <= column < columns,
        0 <= other_column < columns,
        target.address(row, column) == target.address(other_row, other_column),
    ensures
        row == other_row,
        column == other_column,
{
    let step = target.row_step;
    let width = target.width;
    let left = row * step + column;
    let right = other_row * step + other_column;
    assert(left == right) by (nonlinear_arith)
        requires
            width * left == width * right,
            width > 0,
    ;
    assert(row == other_row) by (nonlinear_arith)
        requires
            row * step + column == other_row * step + other_column,
            0 <= column < step,
            0 <= other_column < step,
    ;
}

/// What was not written stays.
pub proof fn other_elements_stay(
    memory: Memory,
    target: Matrix,
    rows: int,
    columns: int,
    value: spec_fn(int, int) -> int,
    other: Matrix,
    other_rows: int,
    other_columns: int,
    row: int,
    column: int,
)
    requires
        apart(target, rows, columns, other, other_rows, other_columns),
        0 <= row < other_rows,
        0 <= column < other_columns,
    ensures
        other.at(stored(memory, target, rows, columns, value), row, column) == other.at(
            memory,
            row,
            column,
        ),
{
    let address = other.address(row, column);
    assert forall|r: int, c: int| !stands_at(target, rows, columns, address, r, c) by {
        if stands_at(target, rows, columns, address, r, c) {
            assert(target.address(r, c) == other.address(row, column));
        }
    }
}

/// Sums of equal terms are equal.
pub proof fn dots_agree(
    memory: Memory,
    a: Matrix,
    b: Matrix,
    row: int,
    column: int,
    other_memory: Memory,
    other_a: Matrix,
    other_b: Matrix,
    other_row: int,
    other_column: int,
    shift: int,
    from: int,
    to: int,
)
    requires
        forall|t: int|
            from <= t < to ==> #[trigger] a.at(memory, row, t) == other_a.at(
                other_memory,
                other_row,
                t + shift,
            ),
        forall|t: int|
            from <= t < to ==> #[trigger] b.at(memory, t, column) == other_b.at(
                other_memory,
                t + shift,
                other_column,
            ),
    ensures
        dot(memory, a, b, row, column, from, to) == dot(
            other_memory,
            other_a,
            other_b,
            other_row,
            other_column,
            from + shift,
            to + shift,
        ),
    decreases to - from,
{
    if from < to {
        dots_agree(
            memory,
            a,
            b,
            row,
            column,
            other_memory,
            other_a,
            other_b,
            other_row,
            other_column,
            shift,
            from,
            to - 1,
        );
        assert(a.at(memory, row, to - 1) == other_a.at(other_memory, other_row, to - 1 + shift));
        assert(b.at(memory, to - 1, column) == other_b.at(
            other_memory,
            to - 1 + shift,
            other_column,
        ));
    }
}

/// A sum is the sum of its parts.
pub proof fn dots_add_up(
    memory: Memory,
    a: Matrix,
    b: Matrix,
    row: int,
    column: int,
    from: int,
    middle: int,
    to: int,
)
    requires
        from <= middle <= to,
    ensures
        dot(memory, a, b, row, column, from, middle) + dot(memory, a, b, row, column, middle, to)
            == dot(memory, a, b, row, column, from, to),
    decreases to - middle,
{
    if middle < to {
        dots_add_up(memory, a, b, row, column, from, middle, to - 1);
    }
}

/// The chunks of a product add up to the product, as far as they reach.
pub proof fn chunks_add_up(
    memory: Memory,
    workspace: int,
    chunks: int,
    chunk: int,
    rows: int,
    columns: int,
    depth: int,
    a: Matrix,
    b: Matrix,
    count: int,
    row: int,
    column: int,
)
    requires
        0 <= count <= chunks,
        chunk >= 0,
        depth >= 0,
        0 <= row < rows,
        0 <= column < columns,
    ensures
        folded(
            chunked(memory, workspace, chunks, chunk, rows, columns, depth, a, b),
            workspace,
            count,
            row,
            column,
        ) == dot(memory, a, b, row, column, 0, least(count * chunk, depth)),
    decreases count,
{
    if count > 0 {
        chunks_add_up(
            memory,
            workspace,
            chunks,
            chunk,
            rows,
            columns,
            depth,
            a,
            b,
            count - 1,
            row,
            column,
        );
        assert((count - 1) * chunk <= count * chunk) by (nonlinear_arith)
            requires
                chunk >= 0,
        ;
        assert((count - 1) * chunk >= 0) by (nonlinear_arith)
            requires
                chunk >= 0,
                count >= 1,
        ;
        dots_add_up(
            memory,
            a,
            b,
            row,
            column,
            0,
            least((count - 1) * chunk, depth),
            least(count * chunk, depth),
        );
    } else {
        assert(0 * chunk == 0);
    }
}

} // verus!
