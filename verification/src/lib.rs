//! Launch planning for batch-invariant GEMM kernels: which kernel serves a
//! product, on which grid and with which arguments, and when a prepared or
//! captured launch may still run.

use vstd::prelude::*;

pub mod admission_laws;
pub mod arguments;
pub mod arith;
pub mod cache;
pub mod contract_laws;
pub mod control;
pub mod device;
pub mod digest;
pub mod error;
pub mod f32_enqueue;
pub mod f32_launch;
pub mod f32_prepare;
pub mod f32_select;
pub mod half_graph;
pub mod half_kernel;
pub mod half_launch;
pub mod half_products;
pub mod half_laws;
pub mod half_routes;
pub mod half_tc;
pub mod half_typed;
pub mod identity;
pub mod inference_bundle;
pub mod inference_laws;
pub mod inference_load;
pub mod inference_ptx;
pub mod inference_text;
pub mod kernel;
pub mod observer;
pub mod observer_laws;
pub mod operand_laws;
pub mod params;
pub mod prepared;
pub mod prepared_use;
pub mod ptx;
pub mod ptx_laws;
pub mod record_laws;
pub mod route_proof;
pub mod scalar_completion;
pub mod scalar_dw;
pub mod scalar_dx;
pub mod scalar_dx_products;
pub mod scalar_forward;
pub mod scalar_launch;
pub mod scalar_laws;
pub mod scalar_nodes;
pub mod scalar_plan;
pub mod scalar_products;
pub mod scalar_routes;
pub mod selection_laws;
pub mod serving_laws;
pub mod shape;
pub mod text;
pub mod text_laws;
pub mod tf32_plan;
pub mod tf32_products;
pub mod tf32_routes;
pub mod tma;
pub mod tma_auto;
pub mod tma_binding;
pub mod tma_forced;
pub mod tma_laws;
pub mod tma_products;
pub mod transcript_laws;
pub mod workspace_laws;

verus! {

} // verus!
