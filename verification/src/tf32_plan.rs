//! TF32 and exact-f32 tensor-map kernels: routes, geometry and workspaces.

use crate::arith;
use crate::arith::{checked_u32, div_ceil_u32, div_ceil_usize};
use crate::error::LaunchError;
use crate::identity::{
    ModuleKind, ResolvedInstructionFamily, ResolvedInstructionShape, ResolvedOperandConversion,
};
use crate::kernel::LaunchConfig;
use crate::scalar_plan::SPLITK_SCRATCH_CAP;
use crate::shape::{F32TriadRequest, ResolvedGemmOp};
use vstd::prelude::*;

verus! {

/// Which member of a kernel family a route takes.
#[derive(Clone, Copy, Debug, PartialEq, Eq, Structural)]
pub struct Tf32Tiling {
    pub rows: u16,
    pub columns: u16,
    pub bk: u16,
    pub stages: u8,
}

/// The tiles of the exact-f32 SM120 kernels.
#[derive(Clone, Copy, Debug, PartialEq, Eq, Structural)]
pub enum Sm120FmaTile {
    M128N64,
    M64N128,
}

impl Sm120FmaTile {
    /// Output rows and columns of one tile.
    #[verifier::allow_in_spec]
    pub fn dims(self) -> (u32, u32)
        returns
            (match self {
                Sm120FmaTile::M128N64 => (128u32, 64u32),
                Sm120FmaTile::M64N128 => (64u32, 128u32),
            }),
    {
        match self {
            Sm120FmaTile::M128N64 => (128, 64),
            Sm120FmaTile::M64N128 => (64, 128),
        }
    }
}

/// An exact-f32 SM120 route: its tile, how the reduction is vectorized and
/// into how many ranges it is split.
#[derive(Clone, Copy, Debug, PartialEq, Eq, Structural)]
pub struct Sm120FmaRoute {
    pub tile: Sm120FmaTile,
    pub kvec: bool,
    pub splits: u8,
}

/// The kernel family and member that computes an f32 product off the
/// scalar kernels.
#[derive(Clone, Copy, Debug, PartialEq, Eq, Structural)]
pub enum Tf32PhysicalRoute {
    MmaTf32RnaV1(Tf32Tiling),
    MmaTf32RnaSplitK2V1(Tf32Tiling),
    MmaTf32RnaSplitK4V1(Tf32Tiling),
    MmaTf32RnaSplitK8V1(Tf32Tiling),
    Sm90aWgmmaTf32TmaV1(Tf32Tiling),
    Sm100Tcgen05Tf32TmaV1(Tf32Tiling),
    Sm120TmaMmaTf32RnaV1(Tf32Tiling),
    Sm120TmaMmaTf32RnaStreamKV1(Tf32Tiling),
    Sm120TmaFmaExactV1(Sm120FmaRoute),
}

impl Tf32PhysicalRoute {
    /// The route's exact-f32 member, if it is one.
    #[verifier::allow_in_spec]
    pub fn exact_fma(self) -> Option<Sm120FmaRoute>
        returns
            (match self {
                Tf32PhysicalRoute::Sm120TmaFmaExactV1(exact) => Some(exact),
                _ => None::<Sm120FmaRoute>,
            }),
    {
        match self {
            Tf32PhysicalRoute::Sm120TmaFmaExactV1(exact) => Some(exact),
            _ => None,
        }
    }

    /// The reduction is split into ranges that the last CTA of a tile folds.
    #[verifier::allow_in_spec]
    pub fn is_splitk(self) -> bool
        returns
            (match self {
                Tf32PhysicalRoute::MmaTf32RnaSplitK2V1(_)
                | Tf32PhysicalRoute::MmaTf32RnaSplitK4V1(_)
                | Tf32PhysicalRoute::MmaTf32RnaSplitK8V1(_) => true,
                _ => false,
            }),
    {
        match self {
            Tf32PhysicalRoute::MmaTf32RnaSplitK2V1(_)
            | Tf32PhysicalRoute::MmaTf32RnaSplitK4V1(_)
            | Tf32PhysicalRoute::MmaTf32RnaSplitK8V1(_) => true,
            _ => false,
        }
    }

    /// The route is served by the portable module.
    #[verifier::allow_in_spec]
    pub fn is_portable(self) -> bool
        returns
            (match self {
                Tf32PhysicalRoute::MmaTf32RnaV1(_) => true,
                _ => self.is_splitk(),
            }),
    {
        match self {
            Tf32PhysicalRoute::MmaTf32RnaV1(_) => true,
            _ => self.is_splitk(),
        }
    }

    /// The route reads its inputs as 32-bit words through tensor maps and
    /// rounds them in registers.
    #[verifier::allow_in_spec]
    pub fn maps_words(self) -> bool
        returns
            (match self {
                Tf32PhysicalRoute::Sm120TmaMmaTf32RnaV1(_)
                | Tf32PhysicalRoute::Sm120TmaMmaTf32RnaStreamKV1(_) => true,
                _ => false,
            }),
    {
        match self {
            Tf32PhysicalRoute::Sm120TmaMmaTf32RnaV1(_)
            | Tf32PhysicalRoute::Sm120TmaMmaTf32RnaStreamKV1(_) => true,
            _ => false,
        }
    }
}

/// A single-launch kernel of a route and a product.
#[derive(Clone, Copy, Debug, PartialEq, Eq)]
pub struct Tf32KernelSpec {
    pub op: ResolvedGemmOp,
    pub route: Tf32PhysicalRoute,
    pub symbol: &'static str,
    pub module_kind: ModuleKind,
    pub tile: (u32, u32),
    pub bk: u32,
    pub stages: u8,
    pub threads: u32,
    pub dynamic_shared_bytes: u32,
    pub instruction_family: ResolvedInstructionFamily,
    pub instruction_shape: ResolvedInstructionShape,
    pub operand_conversion: ResolvedOperandConversion,
    pub tensor_map_revision: u32,
    pub schedule_revision: u32,
}

impl Tf32KernelSpec {
    /// The tile and the slab depth are not empty.
    pub open spec fn wf(self) -> bool {
        self.tile.0 > 0 && self.tile.1 > 0 && self.bk > 0
    }
}

/// A fused split-K kernel of a route and a product.
#[derive(Clone, Copy, Debug, PartialEq, Eq)]
pub struct Tf32SplitKSpec {
    pub op: ResolvedGemmOp,
    pub route: Tf32PhysicalRoute,
    pub symbol: &'static str,
    pub partitions: u32,
    pub tile: (u32, u32),
    pub bk: u32,
    pub stages: u8,
    pub threads: u32,
    pub dynamic_shared_bytes: u32,
}

impl Tf32SplitKSpec {
    /// The tile is not empty and the route splits into the stated number of
    /// partitions.
    pub open spec fn wf(self) -> bool {
        &&& self.tile.0 > 0
        &&& self.tile.1 > 0
        &&& match self.route {
            Tf32PhysicalRoute::MmaTf32RnaSplitK2V1(_) => self.partitions == 2,
            Tf32PhysicalRoute::MmaTf32RnaSplitK4V1(_) => self.partitions == 4,
            Tf32PhysicalRoute::MmaTf32RnaSplitK8V1(_) => self.partitions == 8,
            _ => false,
        }
    }
}

/// The fixed workspaces that folding kernels share: slabs and flags per
/// stream-K CTA, and how many flags or counters there are.
#[derive(Clone, Copy, Debug, PartialEq, Eq, Structural)]
pub struct FoldLimits {
    pub slots_per_cta: usize,
    pub slab_floats: usize,
    pub counter_capacity: usize,
}

/// The persistent grid of a stream-K launch and the workspace it needs.
#[derive(Clone, Copy, Debug, PartialEq, Eq, Structural)]
pub struct Tf32StreamKLaunchPlan {
    pub grid: u32,
    pub partial_elements: usize,
    pub flag_elements: usize,
}

/// The output tiles of a product.
pub open spec fn tile_count(request: F32TriadRequest, tile: (u32, u32)) -> int {
    arith::ceil_div(request.shape.output_rows(request.op) as int, tile.0 as int) * arith::ceil_div(
        request.shape.output_columns(request.op) as int,
        tile.1 as int,
    )
}

/// The slabs that a reduction is read in; an empty one still runs its
/// epilogue.
pub open spec fn slab_count(request: F32TriadRequest, bk: u32) -> int {
    let slabs = arith::ceil_div(request.shape.reduction(request.op) as int, bk as int);
    if slabs == 0 {
        1
    } else {
        slabs
    }
}

fn count_tiles(request: F32TriadRequest, tile: (u32, u32), fault: &'static str) -> (result: Result<
    usize,
    LaunchError,
>)
    requires
        tile.0 > 0,
        tile.1 > 0,
    ensures
        result == (if tile_count(request, tile) > usize::MAX {
            Err::<usize, LaunchError>(LaunchError::InvalidDimensions(fault))
        } else {
            Ok::<usize, LaunchError>(tile_count(request, tile) as usize)
        }),
        tile_count(request, tile) >= 0,
{
    let rows: usize = request.shape.output_rows(request.op);
    let columns: usize = request.shape.output_columns(request.op);
    proof {
        arith::ceil_div_is_least_cover(rows as int, tile.0 as int);
        arith::ceil_div_is_least_cover(columns as int, tile.1 as int);
        let r = arith::ceil_div(rows as int, tile.0 as int);
        let c = arith::ceil_div(columns as int, tile.1 as int);
        assert(r * c >= 0) by (nonlinear_arith)
            requires
                r >= 0,
                c >= 0,
        ;
    }
    let row_tiles: usize = div_ceil_usize(rows, tile.0 as usize);
    let column_tiles: usize = div_ceil_usize(columns, tile.1 as usize);
    match row_tiles.checked_mul(column_tiles) {
        Some(tiles) => Ok(tiles),
        None => Err(LaunchError::InvalidDimensions(fault)),
    }
}

/// The plan of a stream-K launch.
pub open spec fn streamk_plan(
    request: F32TriadRequest,
    spec: Tf32KernelSpec,
    multiprocessors: u32,
    limits: FoldLimits,
) -> Result<Tf32StreamKLaunchPlan, LaunchError> {
    let tiles = tile_count(request, spec.tile);
    let units = tiles * slab_count(request, spec.bk);
    let slots = multiprocessors * limits.slots_per_cta;
    let floats = slots * limits.slab_floats;
    match request.shape.validated(request.op) {
        Err(error) => Err(error),
        Ok(_) => if request.op != spec.op {
            Err(LaunchError::OperationMismatch("stream-K TF32", spec.op, request.op))
        } else if multiprocessors == 0 {
            Err(
                LaunchError::Rejected("stream-K TF32 launch requires at least one multiprocessor"),
            )
        } else if tiles > usize::MAX {
            Err(LaunchError::InvalidDimensions("stream-K TF32 tile count overflows usize"))
        } else if units > usize::MAX {
            Err(LaunchError::InvalidDimensions("stream-K TF32 unit count overflows usize"))
        } else if units > i32::MAX {
            Err(
                LaunchError::InvalidDimensions(
                    "stream-K TF32 unit count exceeds the kernel's 32-bit range",
                ),
            )
        } else if slots > usize::MAX || floats > usize::MAX {
            Err(LaunchError::InvalidDimensions("stream-K TF32 slab extent overflows usize"))
        } else if floats > SPLITK_SCRATCH_CAP {
            Err(LaunchError::InvalidDimensions("stream-K TF32 slabs exceed the fixed workspace"))
        } else if slots > limits.counter_capacity {
            Err(
                LaunchError::InvalidDimensions(
                    "stream-K TF32 flags exceed the fixed counter workspace",
                ),
            )
        } else {
            Ok(
                Tf32StreamKLaunchPlan {
                    grid: multiprocessors,
                    partial_elements: floats as usize,
                    flag_elements: slots as usize,
                },
            )
        },
    }
}

/// The persistent grid of a stream-K launch and the workspace it needs. A
/// CTA waits on lower CTAs, so the grid is one CTA per multiprocessor, which
/// the device keeps resident together.
pub fn tf32_streamk_launch_plan(
    request: F32TriadRequest,
    spec: &Tf32KernelSpec,
    multiprocessor_count: u32,
    limits: FoldLimits,
) -> (result: Result<Tf32StreamKLaunchPlan, LaunchError>)
    requires
        spec.wf(),
    ensures
        result == streamk_plan(request, *spec, multiprocessor_count, limits),
{
    request.shape.validate(request.op)?;
    if request.op != spec.op {
        return Err(
            LaunchError::OperationMismatch("stream-K TF32", spec.op, request.op),
        );
    }
    if multiprocessor_count == 0 {
        return Err(
            LaunchError::Rejected("stream-K TF32 launch requires at least one multiprocessor"),
        );
    }
    let tiles: usize = count_tiles(
        request,
        spec.tile,
        "stream-K TF32 tile count overflows usize",
    )?;
    let reduction: usize = request.shape.reduction(request.op);
    proof {
        arith::ceil_div_is_least_cover(reduction as int, spec.bk as int);
    }
    let slabs: usize = div_ceil_usize(reduction, spec.bk as usize);
    let k_tiles: usize = if slabs == 0 {
        1
    } else {
        slabs
    };
    let units: usize = match tiles.checked_mul(k_tiles) {
        Some(units) => units,
        None => {
            return Err(
                LaunchError::InvalidDimensions("stream-K TF32 unit count overflows usize"),
            );
        },
    };
    if units as u64 > 0x7fff_ffff {
        return Err(
            LaunchError::InvalidDimensions(
                "stream-K TF32 unit count exceeds the kernel's 32-bit range",
            ),
        );
    }
    let ctas: usize = multiprocessor_count as usize;
    let slots: usize = match ctas.checked_mul(limits.slots_per_cta) {
        Some(slots) => slots,
        None => {
            return Err(
                LaunchError::InvalidDimensions("stream-K TF32 slab extent overflows usize"),
            );
        },
    };
    let floats: usize = match slots.checked_mul(limits.slab_floats) {
        Some(floats) => floats,
        None => {
            return Err(
                LaunchError::InvalidDimensions("stream-K TF32 slab extent overflows usize"),
            );
        },
    };
    if floats > SPLITK_SCRATCH_CAP {
        return Err(
            LaunchError::InvalidDimensions("stream-K TF32 slabs exceed the fixed workspace"),
        );
    }
    if slots > limits.counter_capacity {
        return Err(
            LaunchError::InvalidDimensions(
                "stream-K TF32 flags exceed the fixed counter workspace",
            ),
        );
    }
    Ok(
        Tf32StreamKLaunchPlan {
            grid: multiprocessor_count,
            partial_elements: floats,
            flag_elements: slots,
        },
    )
}

/// The launch of an exact-f32 SM120 route: one unit per (tile, split), the
/// slabs that the non-owning splits publish, and one flag per slab.
#[derive(Clone, Copy, Debug, PartialEq, Eq, Structural)]
pub struct Sm120FmaLaunchPlan {
    pub tiles: usize,
    pub tiles_per_split: usize,
    pub units: u32,
    pub slab_elements: usize,
    pub flag_elements: usize,
}

/// What the exact-f32 kernels are like: the depth of a slab, whether the
/// route is one that a kernel was built for, and the shared flags.
#[derive(Clone, Copy, Debug, PartialEq, Eq)]
pub struct Sm120FmaFacts {
    pub bk: u32,
    pub qualified: Result<(), LaunchError>,
    pub counter_capacity: usize,
}

/// The plan of an exact-f32 launch.
pub open spec fn fma_plan(
    request: F32TriadRequest,
    route: Sm120FmaRoute,
    facts: Sm120FmaFacts,
) -> Result<Sm120FmaLaunchPlan, LaunchError> {
    let (rows, columns) = route.tile.dims();
    let tiles = tile_count(request, route.tile.dims());
    let reduction = request.shape.reduction(request.op);
    let k_tiles = arith::ceil_div(reduction as int, facts.bk as int);
    let tiles_per_split = arith::ceil_div(k_tiles, route.splits as int);
    let covered = tiles_per_split * (route.splits - 1);
    let units = tiles * route.splits;
    let published = tiles * (rows * columns) * (route.splits - 1);
    let flags = tiles * (route.splits - 1);
    match (request.shape.validated(request.op), facts.qualified) {
        (Err(error), _) => Err(error),
        (_, Err(error)) => Err(error),
        (Ok(_), Ok(_)) => if reduction == 0 {
            Err(LaunchError::Rejected("exact-F32 SM120 route requires a nonzero reduction"))
        } else if tiles > usize::MAX {
            Err(LaunchError::InvalidDimensions("exact-F32 tile count overflows usize"))
        } else if covered > usize::MAX || covered >= k_tiles {
            Err(LaunchError::InvalidDimensions("exact-F32 split leaves a reduction range empty"))
        } else if units > usize::MAX || units > i32::MAX {
            Err(LaunchError::InvalidDimensions("exact-F32 unit count exceeds the kernel's range"))
        } else if tiles * (rows * columns) > usize::MAX || published > usize::MAX {
            Err(LaunchError::InvalidDimensions("exact-F32 slab extent overflows usize"))
        } else if published > SPLITK_SCRATCH_CAP {
            Err(LaunchError::InvalidDimensions("exact-F32 slabs exceed the fixed workspace"))
        } else if flags > facts.counter_capacity {
            Err(
                LaunchError::InvalidDimensions(
                    "exact-F32 flags exceed the fixed counter workspace",
                ),
            )
        } else {
            Ok(
                Sm120FmaLaunchPlan {
                    tiles: tiles as usize,
                    tiles_per_split: tiles_per_split as usize,
                    units: units as u32,
                    slab_elements: published as usize,
                    flag_elements: flags as usize,
                },
            )
        },
    }
}

/// Plans an exact-f32 launch.
pub fn sm120_fma_launch_plan(
    request: F32TriadRequest,
    route: Sm120FmaRoute,
    facts: Sm120FmaFacts,
) -> (result: Result<Sm120FmaLaunchPlan, LaunchError>)
    requires
        facts.bk > 0,
        facts.qualified is Ok ==> route.splits > 0,
    ensures
        result == fma_plan(request, route, facts),
{
    request.shape.validate(request.op)?;
    match facts.qualified {
        Ok(_) => {},
        Err(error) => {
            return Err(error);
        },
    }
    let reduction: usize = request.shape.reduction(request.op);
    if reduction == 0 {
        return Err(LaunchError::Rejected("exact-F32 SM120 route requires a nonzero reduction"));
    }
    let tiles: usize = count_tiles(
        request,
        route.tile.dims(),
        "exact-F32 tile count overflows usize",
    )?;
    let splits: usize = route.splits as usize;
    proof {
        arith::ceil_div_is_least_cover(reduction as int, facts.bk as int);
    }
    let k_tiles: usize = div_ceil_usize(reduction, facts.bk as usize);
    proof {
        arith::ceil_div_is_least_cover(k_tiles as int, splits as int);
    }
    let tiles_per_split: usize = div_ceil_usize(k_tiles, splits);
    match tiles_per_split.checked_mul(splits - 1) {
        Some(covered) => {
            if covered >= k_tiles {
                return Err(
                    LaunchError::InvalidDimensions(
                        "exact-F32 split leaves a reduction range empty",
                    ),
                );
            }
        },
        None => {
            return Err(
                LaunchError::InvalidDimensions("exact-F32 split leaves a reduction range empty"),
            );
        },
    }
    let units: usize = match tiles.checked_mul(splits) {
        Some(units) => units,
        None => {
            return Err(
                LaunchError::InvalidDimensions("exact-F32 unit count exceeds the kernel's range"),
            );
        },
    };
    if units as u64 > 0x7fff_ffff {
        return Err(
            LaunchError::InvalidDimensions("exact-F32 unit count exceeds the kernel's range"),
        );
    }
    let (rows, columns) = route.tile.dims();
    assert(rows * columns == 8192);
    let tile_floats: usize = (rows * columns) as usize;
    let slabs: usize = match tiles.checked_mul(tile_floats) {
        Some(slabs) => slabs,
        None => {
            return Err(
                LaunchError::InvalidDimensions("exact-F32 slab extent overflows usize"),
            );
        },
    };
    let published: usize = match slabs.checked_mul(splits - 1) {
        Some(published) => published,
        None => {
            return Err(
                LaunchError::InvalidDimensions("exact-F32 slab extent overflows usize"),
            );
        },
    };
    if published > SPLITK_SCRATCH_CAP {
        return Err(LaunchError::InvalidDimensions("exact-F32 slabs exceed the fixed workspace"));
    }
    assert(tiles * (splits - 1) <= tiles * splits) by (nonlinear_arith)
        requires
            tiles >= 0,
            splits >= 1,
    ;
    let flags: usize = tiles * (splits - 1);
    if flags > facts.counter_capacity {
        return Err(
            LaunchError::InvalidDimensions("exact-F32 flags exceed the fixed counter workspace"),
        );
    }
    Ok(
        Sm120FmaLaunchPlan {
            tiles,
            tiles_per_split,
            units: units as u32,
            slab_elements: published,
            flag_elements: flags,
        },
    )
}

/// The splits of a planned exact-f32 launch cover the reduction, and each
/// has a slab of its own. With one split nothing is published.
pub proof fn fma_splits_partition_the_reduction(
    request: F32TriadRequest,
    route: Sm120FmaRoute,
    facts: Sm120FmaFacts,
)
    requires
        facts.bk > 0,
        route.splits > 0,
    ensures
        fma_plan(request, route, facts) matches Ok(plan) ==> {
            let k_tiles = arith::ceil_div(
                request.shape.reduction(request.op) as int,
                facts.bk as int,
            );
            &&& plan.tiles_per_split * route.splits >= k_tiles
            &&& forall|split: int|
                0 <= split < route.splits ==> #[trigger] (plan.tiles_per_split * split) < k_tiles
            &&& route.splits == 1 ==> plan.slab_elements == 0 && plan.flag_elements == 0
        },
{
    if let Ok(plan) = fma_plan(request, route, facts) {
        let reduction = request.shape.reduction(request.op) as int;
        arith::ceil_div_is_least_cover(reduction, facts.bk as int);
        let k_tiles = arith::ceil_div(reduction, facts.bk as int);
        arith::ceil_div_is_least_cover(k_tiles, route.splits as int);
        let per = arith::ceil_div(k_tiles, route.splits as int);
        assert(per * route.splits >= k_tiles);
        let tiles = tile_count(request, route.tile.dims());
        if route.splits == 1 {
            assert(tiles * 0 == 0 && tiles * (route.tile.dims().0 * route.tile.dims().1) * 0 == 0)
                by (nonlinear_arith);
        }
        assert forall|split: int| 0 <= split < route.splits implies #[trigger] (
        plan.tiles_per_split * split) < k_tiles by {
            assert(per * split <= per * (route.splits - 1)) by (nonlinear_arith)
                requires
                    0 <= per,
                    split <= route.splits - 1,
            ;
        }
    }
}

/// The launch of a fused split-K product and the workspaces it folds in.
#[derive(Clone, Copy, Debug, PartialEq, Eq)]
pub struct Tf32SplitKLaunchPlan {
    pub scratch_elements: usize,
    pub counter_elements: usize,
    pub fused: LaunchConfig,
}

/// The plan of a fused split-K launch. `covered` is where the last
/// partition of the reduction ends.
pub open spec fn splitk_plan(
    request: F32TriadRequest,
    spec: Tf32SplitKSpec,
    covered: Result<usize, LaunchError>,
    counter_capacity: usize,
) -> Result<Tf32SplitKLaunchPlan, LaunchError> {
    let reduction = request.shape.reduction(request.op);
    let rows = request.shape.output_rows(request.op);
    let columns = request.shape.output_columns(request.op);
    let scratch = rows * columns * spec.partitions;
    match request.shape.validated(request.op) {
        Err(error) => Err(error),
        Ok(_) => if request.op != spec.op {
            Err(
                LaunchError::OperationMismatch("portable TF32 split-K", spec.op, request.op),
            )
        } else if reduction == 0 {
            Err(LaunchError::Rejected("portable TF32 split-K requires a nonzero reduction"))
        } else {
            match covered {
                Err(error) => Err(error),
                Ok(covered) => if covered != reduction {
                    Err(
                        LaunchError::Rejected(
                            "portable TF32 split-K partitions do not cover the reduction",
                        ),
                    )
                } else if rows * columns > usize::MAX {
                    Err(LaunchError::InvalidDimensions("TF32 split-K output size overflows usize"))
                } else if scratch > usize::MAX {
                    Err(
                        LaunchError::InvalidDimensions("TF32 split-K scratch size overflows usize"),
                    )
                } else if scratch > SPLITK_SCRATCH_CAP {
                    Err(
                        LaunchError::InvalidDimensions(
                            "TF32 split-K scratch exceeds the fixed workspace",
                        ),
                    )
                } else {
                    let row_tiles = div_ceil_u32(rows as u32, spec.tile.0);
                    let column_tiles = div_ceil_u32(columns as u32, spec.tile.1);
                    if row_tiles > 65_535 {
                        Err(
                            LaunchError::InvalidDimensions(
                                "TF32 split-K row grid exceeds the CUDA y-dimension limit",
                            ),
                        )
                    } else if row_tiles * column_tiles > usize::MAX {
                        Err(
                            LaunchError::InvalidDimensions(
                                "TF32 split-K counter size overflows usize",
                            ),
                        )
                    } else if row_tiles * column_tiles > counter_capacity {
                        Err(
                            LaunchError::InvalidDimensions(
                                "TF32 split-K counters exceed the fixed coordination workspace",
                            ),
                        )
                    } else {
                        Ok(
                            Tf32SplitKLaunchPlan {
                                scratch_elements: scratch as usize,
                                counter_elements: (row_tiles * column_tiles) as usize,
                                fused: LaunchConfig {
                                    grid_dim: (column_tiles, row_tiles, spec.partitions),
                                    block_dim: (spec.threads, 1, 1),
                                    shared_mem_bytes: spec.dynamic_shared_bytes,
                                },
                            },
                        )
                    }
                },
            }
        },
    }
}

/// Plans a fused split-K launch.
pub fn tf32_splitk_launch_plan(
    request: F32TriadRequest,
    spec: &Tf32SplitKSpec,
    covered: Result<usize, LaunchError>,
    counter_capacity: usize,
) -> (result: Result<Tf32SplitKLaunchPlan, LaunchError>)
    requires
        spec.wf(),
    ensures
        result == splitk_plan(request, *spec, covered, counter_capacity),
{
    request.shape.validate(request.op)?;
    if request.op != spec.op {
        return Err(
            LaunchError::OperationMismatch("portable TF32 split-K", spec.op, request.op),
        );
    }
    let reduction: usize = request.shape.reduction(request.op);
    if reduction == 0 {
        return Err(LaunchError::Rejected("portable TF32 split-K requires a nonzero reduction"));
    }
    let end: usize = covered?;
    if end != reduction {
        return Err(
            LaunchError::Rejected("portable TF32 split-K partitions do not cover the reduction"),
        );
    }
    let rows: usize = request.shape.output_rows(request.op);
    let columns: usize = request.shape.output_columns(request.op);
    let outputs: usize = match rows.checked_mul(columns) {
        Some(outputs) => outputs,
        None => {
            return Err(
                LaunchError::InvalidDimensions("TF32 split-K output size overflows usize"),
            );
        },
    };
    let scratch: usize = match outputs.checked_mul(spec.partitions as usize) {
        Some(scratch) => scratch,
        None => {
            return Err(
                LaunchError::InvalidDimensions("TF32 split-K scratch size overflows usize"),
            );
        },
    };
    if scratch > SPLITK_SCRATCH_CAP {
        return Err(
            LaunchError::InvalidDimensions("TF32 split-K scratch exceeds the fixed workspace"),
        );
    }
    let rows_u: u32 = checked_u32(rows, "TF32 split-K output rows")?;
    let columns_u: u32 = checked_u32(columns, "TF32 split-K output columns")?;
    let row_tiles: u32 = div_ceil_u32(rows_u, spec.tile.0);
    if row_tiles > 65_535 {
        return Err(
            LaunchError::InvalidDimensions(
                "TF32 split-K row grid exceeds the CUDA y-dimension limit",
            ),
        );
    }
    let column_tiles: u32 = div_ceil_u32(columns_u, spec.tile.1);
    let counters: usize = match (row_tiles as usize).checked_mul(column_tiles as usize) {
        Some(counters) => counters,
        None => {
            return Err(
                LaunchError::InvalidDimensions("TF32 split-K counter size overflows usize"),
            );
        },
    };
    if counters > counter_capacity {
        return Err(
            LaunchError::InvalidDimensions(
                "TF32 split-K counters exceed the fixed coordination workspace",
            ),
        );
    }
    Ok(
        Tf32SplitKLaunchPlan {
            scratch_elements: scratch,
            counter_elements: counters,
            fused: LaunchConfig {
                grid_dim: (column_tiles, row_tiles, spec.partitions),
                block_dim: (spec.threads, 1, 1),
                shared_mem_bytes: spec.dynamic_shared_bytes,
            },
        },
    )
}

/// A planned split-K launch has one counter per output tile and one scratch
/// copy of the output per partition, both within the fixed workspaces.
pub proof fn splitk_workspaces_match_the_grid(
    request: F32TriadRequest,
    spec: Tf32SplitKSpec,
    covered: Result<usize, LaunchError>,
    counter_capacity: usize,
)
    requires
        spec.wf(),
    ensures
        splitk_plan(request, spec, covered, counter_capacity) matches Ok(plan) ==> {
            &&& plan.counter_elements == plan.fused.grid_dim.0 * plan.fused.grid_dim.1
            &&& plan.fused.grid_dim.2 == spec.partitions
            &&& plan.scratch_elements == request.shape.output_rows(request.op)
                * request.shape.output_columns(request.op) * spec.partitions
            &&& plan.scratch_elements <= SPLITK_SCRATCH_CAP
            &&& plan.counter_elements <= counter_capacity
        },
{
    if let Ok(plan) = splitk_plan(request, spec, covered, counter_capacity) {
        let x = plan.fused.grid_dim.0 as int;
        let y = plan.fused.grid_dim.1 as int;
        assert(x * y == y * x) by (nonlinear_arith);
    }
}

} // verus!
