//! How the refusal of a retained inference kernel reads.

use crate::inference_bundle::{InferenceFault, InferenceSm89ResourceFacts};
use crate::inference_ptx::{PtxFault, EXACT_SYMBOL, HALF_BF16_SYMBOL, HALF_F16_SYMBOL};
use crate::text;
use crate::text::{append_digits, append_signed};
use vstd::prelude::*;
use vstd::string::StringExecFns;

verus! {

/// The members of the retained bundle.
#[derive(Clone, Copy, Debug, PartialEq, Eq, Structural)]
pub enum InferenceMember {
    HalfBf16,
    HalfF16,
    Exact,
}

impl InferenceMember {
    /// The entry of the member.
    #[verifier::allow_in_spec]
    pub fn symbol(self) -> &'static str
        returns
            (match self {
                InferenceMember::HalfBf16 => HALF_BF16_SYMBOL,
                InferenceMember::HalfF16 => HALF_F16_SYMBOL,
                InferenceMember::Exact => EXACT_SYMBOL,
            }),
    {
        match self {
            InferenceMember::HalfBf16 => HALF_BF16_SYMBOL,
            InferenceMember::HalfF16 => HALF_F16_SYMBOL,
            InferenceMember::Exact => EXACT_SYMBOL,
        }
    }

    /// What an incomplete asynchronous copy is called.
    #[verifier::allow_in_spec]
    pub fn protocol_text(self) -> &'static str
        returns
            (if self == InferenceMember::Exact {
                " has an incomplete async-copy protocol"
            } else {
                " has an incomplete async-copy or barrier protocol"
            }),
    {
        if self == InferenceMember::Exact {
            " has an incomplete async-copy protocol"
        } else {
            " has an incomplete async-copy or barrier protocol"
        }
    }

    /// What work that the member may not hold is called.
    #[verifier::allow_in_spec]
    pub fn forbidden_text(self) -> &'static str
        returns
            (if self == InferenceMember::Exact {
                " contains local, tensor, FTZ, atomic, reduction, or call work"
            } else {
                " contains local, foreign tensor, FTZ, atomic, reduction, or call work"
            }),
    {
        if self == InferenceMember::Exact {
            " contains local, tensor, FTZ, atomic, reduction, or call work"
        } else {
            " contains local, foreign tensor, FTZ, atomic, reduction, or call work"
        }
    }
}

/// Why the PTX of a member is not admitted, in words.
pub open spec fn ptx_message(member: InferenceMember, fault: PtxFault) -> Seq<char> {
    match fault {
        PtxFault::Unparsed => "retained Inference PTX parse failed"@,
        PtxFault::DuplicateExport(symbol) => "retained Inference PTX carries duplicate export "@
            + symbol@,
        PtxFault::MissingEntry => member.symbol()@ + " has no PTX entry"@,
        PtxFault::NoParameters => member.symbol()@ + " has no PTX parameters"@,
        PtxFault::NoParameterEnd => member.symbol()@ + " has no PTX parameter end"@,
        PtxFault::MalformedParameters => member.symbol()@ + " has malformed PTX parameters"@,
        PtxFault::WrongParameters => member.symbol()@
            + " requires four u64 pointers and an align-4 32-byte bundle"@,
        PtxFault::WrongLaunchBound(directive) => member.symbol()@ + " has the wrong "@ + directive@
            + " launch bound"@,
        PtxFault::MissingOpcode(required) => member.symbol()@ + " is missing "@ + required@,
        PtxFault::IncompleteProtocol => member.symbol()@ + member.protocol_text()@,
        PtxFault::ForbiddenWork => member.symbol()@ + member.forbidden_text()@,
    }
}

/// The resources that a member was refused with, in words. The exact member
/// does not opt in to shared memory.
pub open spec fn resources_message(
    member: InferenceMember,
    resources: InferenceSm89ResourceFacts,
) -> Seq<char> {
    member.symbol()@ + " resource admission declined: local="@ + text::decimal(
        resources.local_bytes as int,
    ) + " registers="@ + text::decimal(resources.registers as int) + " static_shared="@
        + text::decimal(resources.static_shared_bytes as int) + " max_threads="@ + text::decimal(
        resources.max_threads as int,
    ) + (if member == InferenceMember::Exact {
        Seq::<char>::empty()
    } else {
        " optin_shared="@ + text::decimal(resources.optin_shared_bytes as int)
    }) + " active_blocks="@ + text::decimal(resources.active_blocks as int)
}

/// Why a member is not admitted, in words.
pub open spec fn fault_message(member: InferenceMember, fault: InferenceFault) -> Seq<char> {
    match fault {
        InferenceFault::Ptx(fault) => ptx_message(member, fault),
        InferenceFault::DriverAbi => member.symbol()@
            + " has the wrong live five-argument/64-byte Driver ABI or host bundle layout"@,
        InferenceFault::Envelope =>
            "retained Inference loader compiler/artifact envelope declined"@,
        InferenceFault::Resources(resources) => resources_message(member, resources),
        InferenceFault::Census =>
            "retained Inference ABI census requires a Fixed module with the portable overlay"@,
        InferenceFault::Driver(text) => text@,
    }
}

fn append_ptx_fault(words: &mut String, member: InferenceMember, fault: PtxFault)
    ensures
        final(words)@ == old(words)@ + ptx_message(member, fault),
{
    match fault {
        PtxFault::Unparsed => {
            words.append("retained Inference PTX parse failed");
        },
        PtxFault::DuplicateExport(symbol) => {
            words.append("retained Inference PTX carries duplicate export ");
            words.append(symbol);
        },
        PtxFault::MissingEntry => {
            words.append(member.symbol());
            words.append(" has no PTX entry");
        },
        PtxFault::NoParameters => {
            words.append(member.symbol());
            words.append(" has no PTX parameters");
        },
        PtxFault::NoParameterEnd => {
            words.append(member.symbol());
            words.append(" has no PTX parameter end");
        },
        PtxFault::MalformedParameters => {
            words.append(member.symbol());
            words.append(" has malformed PTX parameters");
        },
        PtxFault::WrongParameters => {
            words.append(member.symbol());
            words.append(" requires four u64 pointers and an align-4 32-byte bundle");
        },
        PtxFault::WrongLaunchBound(directive) => {
            words.append(member.symbol());
            words.append(" has the wrong ");
            words.append(directive);
            words.append(" launch bound");
        },
        PtxFault::MissingOpcode(required) => {
            words.append(member.symbol());
            words.append(" is missing ");
            words.append(required);
        },
        PtxFault::IncompleteProtocol => {
            words.append(member.symbol());
            words.append(member.protocol_text());
        },
        PtxFault::ForbiddenWork => {
            words.append(member.symbol());
            words.append(member.forbidden_text());
        },
    }
    assert(words@ =~= old(words)@ + ptx_message(member, fault));
}

fn append_resources(
    words: &mut String,
    member: InferenceMember,
    resources: InferenceSm89ResourceFacts,
)
    ensures
        final(words)@ == old(words)@ + resources_message(member, resources),
{
    words.append(member.symbol());
    words.append(" resource admission declined: local=");
    append_signed(words, resources.local_bytes);
    words.append(" registers=");
    append_signed(words, resources.registers);
    words.append(" static_shared=");
    append_signed(words, resources.static_shared_bytes);
    words.append(" max_threads=");
    append_signed(words, resources.max_threads);
    if member != InferenceMember::Exact {
        words.append(" optin_shared=");
        append_signed(words, resources.optin_shared_bytes);
    }
    words.append(" active_blocks=");
    append_digits(words, resources.active_blocks as u64, 10);
    assert(words@ =~= old(words)@ + resources_message(member, resources));
}

impl InferenceFault {
    /// The refusal of a member in words, with its figures.
    pub fn message(self, member: InferenceMember) -> (message: String)
        ensures
            message@ == fault_message(member, self),
    {
        let mut words = String::from_str("");
        proof {
            reveal_strlit("");
        }
        match self {
            InferenceFault::Ptx(fault) => {
                append_ptx_fault(&mut words, member, fault);
            },
            InferenceFault::DriverAbi => {
                words.append(member.symbol());
                words.append(
                    " has the wrong live five-argument/64-byte Driver ABI or host bundle layout",
                );
            },
            InferenceFault::Envelope => {
                words.append("retained Inference loader compiler/artifact envelope declined");
            },
            InferenceFault::Resources(resources) => {
                append_resources(&mut words, member, resources);
            },
            InferenceFault::Census => {
                words.append(
                    "retained Inference ABI census requires a Fixed module with the portable overlay",
                );
            },
            InferenceFault::Driver(reason) => {
                words.append(reason);
            },
        }
        assert(words@ =~= fault_message(member, self));
        words
    }
}

} // verus!
