# gemm_bi_triad

Launch planning for batch-invariant GEMM kernels on NVIDIA devices, verified
with Verus. For each of the three products of a linear layer, `Y = X W + b`,
`dW += X^T dY` and `dX = dY W^T`, the library takes the plan that a dispatcher
picked for the shape, builds the launches with their geometry and arguments,
records the route under which they are known, and decides whether a prepared or
captured launch may still run. Measured tables of shapes are not part of it:
what they say comes in as an argument.

- `scalar_*`: the f32 kernels. A product is a program of launches;
  `scalar_laws` and `scalar_completion` say how it relates to the frozen ones.
- `tf32_*`, `f32_*`: the TF32 and exact-f32 routes, their preparation, the
  prepared launches and their graph nodes.
- `half_*`: the bf16 and f16 kernels.
- `tma*`: the routes that read through tensor maps.
- `prepared`, `prepared_use`, `cache`, `control`: caches of prepared launches,
  and launches bound to the routes that were prepared.
- `inference_*`, `ptx*`: admission of the retained inference kernels.
- `observer`: the allocations behind the arguments of recorded launches.
- `route_proof`: first-use comparison of a candidate route with its reference.
- `arith`, `arguments`, `digest`, `error`, `identity`, `kernel`, `params`,
  `shape`, `text`: what the others are made of.

The launches are values. `app/` enqueues them on CUDA streams and asks the
driver for the facts that the decisions depend on. Floating-point numbers are
kept as bit patterns; the library computes none.

Digests are SHA-256 of length-framed transcripts. The hash itself is the only
thing that is trusted, in `digest`.
