//! Loading of the retained inference kernels: each member is admitted or
//! refused on its own.

use crate::identity::{CudaTarget, ModuleKind};
use crate::inference_bundle;
use crate::inference_bundle::{
    census_member, validate_census_module, validate_inference_sm89_driver_abi,
    validate_inference_sm89_envelope, validate_inference_sm89_exact_resources,
    validate_inference_sm89_half_resources, InferenceFault, InferenceSm89EnvelopeFacts,
    InferenceSm89Members, InferenceSm89ResourceFacts, Tf32DriverAbi,
};
use crate::inference_ptx;
use crate::inference_ptx::{
    validate_inference_sm89_ptx, InferenceSm89PtxAdmission, PtxFault, EXACT_SYMBOL,
    HALF_BF16_SYMBOL, HALF_F16_SYMBOL,
};
use vstd::prelude::*;
use vstd::string::StringSliceAdditionalSpecFns;

verus! {

/// What the census of a member gives, where the driver is asked by symbol.
pub open spec fn symbol_census<Query: Fn(&'static str) -> Result<Tf32DriverAbi, InferenceFault>>(
    admission: Result<(), PtxFault>,
    symbol: &'static str,
    host_size: usize,
    query: Query,
    result: Result<Tf32DriverAbi, InferenceFault>,
) -> bool {
    match admission {
        Err(fault) => result == Err::<Tf32DriverAbi, InferenceFault>(InferenceFault::Ptx(fault)),
        Ok(_) => exists|answer: Result<Tf32DriverAbi, InferenceFault>|
            #![trigger call_ensures(query, (symbol,), answer)]
            call_ensures(query, (symbol,), answer) && result == (match answer {
                Err(fault) => Err::<Tf32DriverAbi, InferenceFault>(fault),
                Ok(abi) => if inference_bundle::abi_admitted(abi, host_size, 4) {
                    Ok::<Tf32DriverAbi, InferenceFault>(abi)
                } else {
                    Err::<Tf32DriverAbi, InferenceFault>(InferenceFault::DriverAbi)
                },
            }),
    }
}

fn census_symbol<Query: Fn(&'static str) -> Result<Tf32DriverAbi, InferenceFault>>(
    admission: Result<(), PtxFault>,
    symbol: &'static str,
    host_size: usize,
    query: &Query,
) -> (result: Result<Tf32DriverAbi, InferenceFault>)
    requires
        admission is Ok ==> call_requires(*query, (symbol,)),
    ensures
        symbol_census(admission, symbol, host_size, *query, result),
{
    let ask = || -> (answer: Result<Tf32DriverAbi, InferenceFault>)
        requires
            call_requires(*query, (symbol,)),
        ensures
            call_ensures(*query, (symbol,), answer),
        { query(symbol) };
    let result = census_member(admission, ask, host_size);
    proof {
        if admission is Ok {
            let answer = choose|answer: Result<Tf32DriverAbi, InferenceFault>|
                #![trigger call_ensures(ask, (), answer)]
                call_ensures(ask, (), answer) && result == (match answer {
                    Err(fault) => Err::<Tf32DriverAbi, InferenceFault>(fault),
                    Ok(abi) => if inference_bundle::abi_admitted(abi, host_size, 4) {
                        Ok::<Tf32DriverAbi, InferenceFault>(abi)
                    } else {
                        Err::<Tf32DriverAbi, InferenceFault>(InferenceFault::DriverAbi)
                    },
                });
            assert(call_ensures(*query, (symbol,), answer));
        }
    }
    result
}

/// The censuses of all members, as their PTX was decided on.
pub open spec fn members_censused<
    Query: Fn(&'static str) -> Result<Tf32DriverAbi, InferenceFault>,
>(
    admission: InferenceSm89PtxAdmission,
    half_size: usize,
    exact_size: usize,
    query: Query,
    members: InferenceSm89Members<Tf32DriverAbi>,
) -> bool {
    &&& symbol_census(
        admission.half_f32out_s3_bf16,
        HALF_BF16_SYMBOL,
        half_size,
        query,
        members.half_f32out_s3_bf16,
    )
    &&& symbol_census(
        admission.half_f32out_s3_f16,
        HALF_F16_SYMBOL,
        half_size,
        query,
        members.half_f32out_s3_f16,
    )
    &&& symbol_census(
        admission.exact_m128n64_tail,
        EXACT_SYMBOL,
        exact_size,
        query,
        members.exact_m128n64_tail,
    )
}

/// Every member is refused for one reason.
pub open spec fn all_refused<T>(
    members: InferenceSm89Members<T>,
    fault: InferenceFault,
) -> bool {
    members == (InferenceSm89Members::<T> {
        half_f32out_s3_bf16: Err(fault),
        half_f32out_s3_f16: Err(fault),
        exact_m128n64_tail: Err(fault),
    })
}

/// How a census ends. Nothing is loaded for another module; a module that
/// cannot be loaded, or unloaded again, refuses every member.
pub open spec fn censused<
    Load: FnOnce() -> Result<(), InferenceFault>,
    Query: Fn(&'static str) -> Result<Tf32DriverAbi, InferenceFault>,
    Unload: FnOnce() -> Result<(), InferenceFault>,
>(
    module: (ModuleKind, bool),
    admission: InferenceSm89PtxAdmission,
    half_size: usize,
    exact_size: usize,
    load: Load,
    query: Query,
    unload: Unload,
    members: InferenceSm89Members<Tf32DriverAbi>,
) -> bool {
    if !(module.0 is Fixed && module.1) {
        all_refused(members, InferenceFault::Census)
    } else {
        exists|loaded: Result<(), InferenceFault>|
            #![trigger call_ensures(load, (), loaded)]
            call_ensures(load, (), loaded) && match loaded {
                Err(fault) => all_refused(members, fault),
                Ok(_) => exists|unloaded: Result<(), InferenceFault>|
                    #![trigger call_ensures(unload, (), unloaded)]
                    call_ensures(unload, (), unloaded) && match unloaded {
                        Err(fault) => all_refused(members, fault),
                        Ok(_) => members_censused(
                            admission,
                            half_size,
                            exact_size,
                            query,
                            members,
                        ),
                    },
            }
    }
}

/// The driver may be asked about every member whose PTX is admitted.
pub open spec fn asks_of_members<
    Query: Fn(&'static str) -> Result<Tf32DriverAbi, InferenceFault>,
>(admission: InferenceSm89PtxAdmission, query: Query) -> bool {
    &&& admission.half_f32out_s3_bf16 is Ok ==> call_requires(query, (HALF_BF16_SYMBOL,))
    &&& admission.half_f32out_s3_f16 is Ok ==> call_requires(query, (HALF_F16_SYMBOL,))
    &&& admission.exact_m128n64_tail is Ok ==> call_requires(query, (EXACT_SYMBOL,))
}

/// The driver may answer about every member whose PTX is admitted.
pub open spec fn members_answer<
    Query: Fn(&'static str) -> Result<Tf32DriverAbi, InferenceFault>,
>(admission: InferenceSm89PtxAdmission, query: Query) -> bool {
    &&& admission.half_f32out_s3_bf16 is Ok ==> exists|answer: Result<Tf32DriverAbi, InferenceFault>|
        call_ensures(query, (HALF_BF16_SYMBOL,), answer)
    &&& admission.half_f32out_s3_f16 is Ok ==> exists|answer: Result<Tf32DriverAbi, InferenceFault>|
        call_ensures(query, (HALF_F16_SYMBOL,), answer)
    &&& admission.exact_m128n64_tail is Ok ==> exists|answer: Result<Tf32DriverAbi, InferenceFault>|
        call_ensures(query, (EXACT_SYMBOL,), answer)
}

fn census_admitted<
    Load: FnOnce() -> Result<(), InferenceFault>,
    Query: Fn(&'static str) -> Result<Tf32DriverAbi, InferenceFault>,
    Unload: FnOnce() -> Result<(), InferenceFault>,
>(
    admission: InferenceSm89PtxAdmission,
    half_size: usize,
    exact_size: usize,
    load: Load,
    query: Query,
    unload: Unload,
) -> (members: InferenceSm89Members<Tf32DriverAbi>)
    requires
        call_requires(load, ()),
        forall|loaded: Result<(), InferenceFault>| #[trigger]
            call_ensures(load, (), loaded) && loaded is Ok ==> {
                &&& asks_of_members(admission, query)
                &&& members_answer(admission, query) ==> call_requires(unload, ())
            },
    ensures
        censused(
            (ModuleKind::Fixed, true),
            admission,
            half_size,
            exact_size,
            load,
            query,
            unload,
            members,
        ),
{
    match load() {
        Err(fault) => {
            return InferenceSm89Members::rejected(fault);
        },
        Ok(_) => {},
    }
    let members = InferenceSm89Members {
        half_f32out_s3_bf16: census_symbol(
            admission.half_f32out_s3_bf16,
            HALF_BF16_SYMBOL,
            half_size,
            &query,
        ),
        half_f32out_s3_f16: census_symbol(
            admission.half_f32out_s3_f16,
            HALF_F16_SYMBOL,
            half_size,
            &query,
        ),
        exact_m128n64_tail: census_symbol(
            admission.exact_m128n64_tail,
            EXACT_SYMBOL,
            exact_size,
            &query,
        ),
    };
    match unload() {
        Err(fault) => InferenceSm89Members::rejected(fault),
        Ok(_) => members,
    }
}

/// Takes the census of a module's members: its PTX is decided on, it is
/// loaded, the driver is asked about each admitted member, and it is
/// unloaded. `overlay_composed` says whether the module holds the portable
/// overlay, the sizes are those of the host's parameter bundles. Nothing is
/// loaded for another module, nothing is asked or unloaded where nothing was
/// loaded, and a module is unloaded behind the last answer.
pub fn census_inference_sm89_driver_abi<
    Load: FnOnce() -> Result<(), InferenceFault>,
    Query: Fn(&'static str) -> Result<Tf32DriverAbi, InferenceFault>,
    Unload: FnOnce() -> Result<(), InferenceFault>,
>(
    kind: ModuleKind,
    overlay_composed: bool,
    ptx: &str,
    half_size: usize,
    exact_size: usize,
    load: Load,
    query: Query,
    unload: Unload,
) -> (members: InferenceSm89Members<Tf32DriverAbi>)
    requires
        kind is Fixed && overlay_composed ==> call_requires(load, ()),
        forall|loaded: Result<(), InferenceFault>|
            kind is Fixed && overlay_composed && #[trigger] call_ensures(load, (), loaded)
                && loaded is Ok ==> {
                let admission = inference_ptx::ptx_admission(ptx.spec_bytes());
                &&& asks_of_members(admission, query)
                &&& members_answer(admission, query) ==> call_requires(unload, ())
            },
    ensures
        censused(
            (kind, overlay_composed),
            inference_ptx::ptx_admission(ptx.spec_bytes()),
            half_size,
            exact_size,
            load,
            query,
            unload,
            members,
        ),
{
    match validate_census_module(kind, overlay_composed) {
        Err(fault) => {
            return InferenceSm89Members::rejected(fault);
        },
        Ok(_) => {},
    }
    let admission = validate_inference_sm89_ptx(ptx);
    census_admitted(admission, half_size, exact_size, load, query, unload)
}

/// How loading a member ends: its arguments are held against the host's
/// bundle first, and only then is it loaded and measured.
pub open spec fn member_loaded<
    T,
    Load: FnOnce() -> Result<(T, InferenceSm89ResourceFacts), InferenceFault>,
>(
    abi: Result<Tf32DriverAbi, InferenceFault>,
    host_size: usize,
    admits: spec_fn(InferenceSm89ResourceFacts) -> bool,
    load: Load,
    result: Result<T, InferenceFault>,
) -> bool {
    match abi {
        Err(fault) => result == Err::<T, InferenceFault>(fault),
        Ok(abi) => if !inference_bundle::abi_admitted(abi, host_size, 4) {
            result == Err::<T, InferenceFault>(InferenceFault::DriverAbi)
        } else {
            exists|loaded: Result<(T, InferenceSm89ResourceFacts), InferenceFault>|
                #![trigger call_ensures(load, (), loaded)]
                call_ensures(load, (), loaded) && result == (match loaded {
                    Err(fault) => Err::<T, InferenceFault>(fault),
                    Ok(member) => if admits(member.1) {
                        Ok::<T, InferenceFault>(member.0)
                    } else {
                        Err::<T, InferenceFault>(InferenceFault::Resources(member.1))
                    },
                })
        },
    }
}

/// The rule that half members are measured by.
pub open spec fn half_rule() -> spec_fn(InferenceSm89ResourceFacts) -> bool {
    |resources: InferenceSm89ResourceFacts| inference_bundle::half_resources_admitted(resources)
}

/// The rule that the exact member is measured by.
pub open spec fn exact_rule() -> spec_fn(InferenceSm89ResourceFacts) -> bool {
    |resources: InferenceSm89ResourceFacts| inference_bundle::exact_resources_admitted(resources)
}

fn admit_abi(abi: &Result<Tf32DriverAbi, InferenceFault>, host_size: usize) -> (result: Result<
    (),
    InferenceFault,
>)
    ensures
        result == (match *abi {
            Err(fault) => Err::<(), InferenceFault>(fault),
            Ok(abi) => if inference_bundle::abi_admitted(abi, host_size, 4) {
                Ok::<(), InferenceFault>(())
            } else {
                Err::<(), InferenceFault>(InferenceFault::DriverAbi)
            },
        }),
{
    match abi {
        Err(fault) => Err(*fault),
        Ok(abi) => validate_inference_sm89_driver_abi(abi, host_size, 4),
    }
}

/// A member is loaded: the driver laid its arguments out as the host does.
pub open spec fn load_due(abi: Result<Tf32DriverAbi, InferenceFault>, host_size: usize) -> bool {
    abi matches Ok(abi) && inference_bundle::abi_admitted(abi, host_size, 4)
}

/// Loads a half member, if its arguments are laid out as the host's.
pub fn load_half_member<
    T,
    Load: FnOnce() -> Result<(T, InferenceSm89ResourceFacts), InferenceFault>,
>(abi: &Result<Tf32DriverAbi, InferenceFault>, host_size: usize, load: Load) -> (result: Result<
    T,
    InferenceFault,
>)
    requires
        load_due(*abi, host_size) ==> call_requires(load, ()),
    ensures
        member_loaded(*abi, host_size, half_rule(), load, result),
{
    match admit_abi(abi, host_size) {
        Err(fault) => {
            return Err(fault);
        },
        Ok(_) => {},
    }
    match load() {
        Err(fault) => Err(fault),
        Ok((member, resources)) => match validate_inference_sm89_half_resources(resources) {
            Err(fault) => Err(fault),
            Ok(_) => Ok(member),
        },
    }
}

/// Loads the exact member, if its arguments are laid out as the host's.
pub fn load_exact_member<
    T,
    Load: FnOnce() -> Result<(T, InferenceSm89ResourceFacts), InferenceFault>,
>(abi: &Result<Tf32DriverAbi, InferenceFault>, host_size: usize, load: Load) -> (result: Result<
    T,
    InferenceFault,
>)
    requires
        load_due(*abi, host_size) ==> call_requires(load, ()),
    ensures
        member_loaded(*abi, host_size, exact_rule(), load, result),
{
    match admit_abi(abi, host_size) {
        Err(fault) => {
            return Err(fault);
        },
        Ok(_) => {},
    }
    match load() {
        Err(fault) => Err(fault),
        Ok((member, resources)) => match validate_inference_sm89_exact_resources(resources) {
            Err(fault) => Err(fault),
            Ok(_) => Ok(member),
        },
    }
}

/// How a bundle is loaded: outside of the envelope nothing is, inside of it
/// each member stands on its own.
pub open spec fn bundle_loaded<
    T,
    Supported: FnOnce(Option<(i32, i32)>, CudaTarget, usize, (i32, i32)) -> bool,
    Bf16: FnOnce() -> Result<(T, InferenceSm89ResourceFacts), InferenceFault>,
    F16: FnOnce() -> Result<(T, InferenceSm89ResourceFacts), InferenceFault>,
    Exact: FnOnce() -> Result<(T, InferenceSm89ResourceFacts), InferenceFault>,
>(
    facts: InferenceSm89EnvelopeFacts,
    compiler_supported: Supported,
    census: InferenceSm89Members<Tf32DriverAbi>,
    half_size: usize,
    exact_size: usize,
    loads: (Bf16, F16, Exact),
    members: InferenceSm89Members<T>,
) -> bool {
    exists|decision: Result<(), InferenceFault>|
        #![trigger inference_bundle::envelope_decided(facts, compiler_supported, decision)]
        inference_bundle::envelope_decided(facts, compiler_supported, decision) && match decision {
            Err(fault) => all_refused(members, fault),
            Ok(_) => {
                &&& member_loaded(
                    census.half_f32out_s3_bf16,
                    half_size,
                    half_rule(),
                    loads.0,
                    members.half_f32out_s3_bf16,
                )
                &&& member_loaded(
                    census.half_f32out_s3_f16,
                    half_size,
                    half_rule(),
                    loads.1,
                    members.half_f32out_s3_f16,
                )
                &&& member_loaded(
                    census.exact_m128n64_tail,
                    exact_size,
                    exact_rule(),
                    loads.2,
                    members.exact_m128n64_tail,
                )
            },
        }
}

/// Loads the members of a bundle. Outside of the envelope none is loaded,
/// and inside of it none that the census refused.
pub fn load_inference_sm89_bundle<
    T,
    Supported: FnOnce(Option<(i32, i32)>, CudaTarget, usize, (i32, i32)) -> bool,
    Bf16: FnOnce() -> Result<(T, InferenceSm89ResourceFacts), InferenceFault>,
    F16: FnOnce() -> Result<(T, InferenceSm89ResourceFacts), InferenceFault>,
    Exact: FnOnce() -> Result<(T, InferenceSm89ResourceFacts), InferenceFault>,
>(
    facts: InferenceSm89EnvelopeFacts,
    compiler_supported: Supported,
    census: &InferenceSm89Members<Tf32DriverAbi>,
    half_size: usize,
    exact_size: usize,
    loads: (Bf16, F16, Exact),
) -> (members: InferenceSm89Members<T>)
    requires
        inference_bundle::artifact_admitted(facts) ==> call_requires(
            compiler_supported,
            (facts.device_cc, facts.target, facts.state_cap, facts.nvrtc),
        ),
        inference_bundle::envelope_decided(
            facts,
            compiler_supported,
            Ok::<(), InferenceFault>(()),
        ) ==> {
            &&& load_due(census.half_f32out_s3_bf16, half_size) ==> call_requires(loads.0, ())
            &&& load_due(census.half_f32out_s3_f16, half_size) ==> call_requires(loads.1, ())
            &&& load_due(census.exact_m128n64_tail, exact_size) ==> call_requires(loads.2, ())
        },
    ensures
        bundle_loaded(facts, compiler_supported, *census, half_size, exact_size, loads, members),
{
    let decision = validate_inference_sm89_envelope(facts, compiler_supported);
    match decision {
        Err(fault) => {
            let members = InferenceSm89Members::rejected(fault);
            assert(inference_bundle::envelope_decided(facts, compiler_supported, decision));
            return members;
        },
        Ok(_) => {},
    }
    assert(inference_bundle::envelope_decided(facts, compiler_supported, decision));
    let (load_bf16, load_f16, load_exact) = loads;
    InferenceSm89Members {
        half_f32out_s3_bf16: load_half_member(&census.half_f32out_s3_bf16, half_size, load_bf16),
        half_f32out_s3_f16: load_half_member(&census.half_f32out_s3_f16, half_size, load_f16),
        exact_m128n64_tail: load_exact_member(&census.exact_m128n64_tail, exact_size, load_exact),
    }
}

/// A member that the census refused is not due to be loaded, and is refused
/// for the reason of the census, whatever the device would say of it.
pub proof fn refused_members_stay_refused<
    T,
    Load: FnOnce() -> Result<(T, InferenceSm89ResourceFacts), InferenceFault>,
>(
    fault: InferenceFault,
    host_size: usize,
    admits: spec_fn(InferenceSm89ResourceFacts) -> bool,
    load: Load,
    result: Result<T, InferenceFault>,
)
    requires
        member_loaded(
            Err::<Tf32DriverAbi, InferenceFault>(fault),
            host_size,
            admits,
            load,
            result,
        ),
    ensures
        !load_due(Err::<Tf32DriverAbi, InferenceFault>(fault), host_size),
        result == Err::<T, InferenceFault>(fault),
{
}

} // verus!
