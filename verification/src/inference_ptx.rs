//! Admission of the retained inference kernels by their PTX.
//!
//! Each member is addressed by its exact name, so a kernel that is not one
//! of them is not this bundle's business; only a duplicated member is a
//! hazard to all of them.

use crate::ptx;
use crate::ptx::{parse_ptx, Entry, ParsedPtx, PtxToken, Token};
use crate::text;
use crate::text::{matches_at, same_bytes};
use vstd::prelude::*;
use vstd::slice::slice_subrange;
use vstd::string::StringSliceAdditionalSpecFns;

verus! {

/// The entry of the bf16 member.
pub const HALF_BF16_SYMBOL: &'static str = "nn_sm89_tc128_f32out_s3_bf16";

/// The entry of the f16 member.
pub const HALF_F16_SYMBOL: &'static str = "nn_sm89_tc128_f32out_s3_f16";

/// The entry of the exact member.
pub const EXACT_SYMBOL: &'static str = "nn_sm89_f32_m128n64_tail_copyplan";

/// The opcode of the bf16 tensor products.
pub const BF16_MMA: &'static str = "mma.sync.aligned.m16n8k16.row.col.f32.bf16.bf16.f32";

/// The opcode of the f16 tensor products.
pub const F16_MMA: &'static str = "mma.sync.aligned.m16n8k16.row.col.f32.f16.f16.f32";

/// Why the PTX of a member is not admitted.
#[derive(Clone, Copy, Debug, PartialEq, Eq)]
pub enum PtxFault {
    /// The text is malformed.
    Unparsed,
    /// A member is exported more than once.
    DuplicateExport(&'static str),
    /// The member is not exported.
    MissingEntry,
    /// The entry declares no parameters.
    NoParameters,
    /// The parameter list never ends.
    NoParameterEnd,
    /// The parameter list ends ahead of its start.
    MalformedParameters,
    /// The parameters are not four pointers and an align-4 32-byte bundle.
    WrongParameters,
    /// A launch bound is missing, repeated or another one.
    WrongLaunchBound(&'static str),
    /// An instruction that the kernel is made of is missing.
    MissingOpcode(&'static str),
    /// The asynchronous copies are not committed, awaited and fenced.
    IncompleteProtocol,
    /// Local memory, foreign tensor work, flushed denormals, atomics,
    /// reductions or calls.
    ForbiddenWork,
}

/// The first token with this text from a position on.
pub open spec fn find_text(all: Seq<Token>, word: Seq<u8>, at: int) -> Option<int>
    decreases all.len() - at,
{
    if at < 0 || at >= all.len() {
        None
    } else if all[at].text == word {
        Some(at)
    } else {
        find_text(all, word, at + 1)
    }
}

fn position_of(all: &[PtxToken], word: &str, at: usize) -> (found: Option<usize>)
    ensures
        match (found, find_text(ptx::tokens(all@), word.spec_bytes(), at as int)) {
            (Some(i), Some(expected)) => i == expected && at <= i < all@.len(),
            (None, None) => true,
            _ => false,
        },
{
    let ghost read = ptx::tokens(all@);
    let mut i: usize = at;
    while i < all.len()
        invariant
            at <= i,
            read == ptx::tokens(all@),
            find_text(read, word.spec_bytes(), at as int) == find_text(
                read,
                word.spec_bytes(),
                i as int,
            ),
        decreases all@.len() - i,
    {
        assert(read[i as int] == all@[i as int]@);
        if all[i].has_text(word) {
            return Some(i);
        }
        i = i + 1;
    }
    None
}

/// A pointer parameter and the comma behind it.
pub open spec fn pointer_parameter(parameters: Seq<Token>, at: int) -> bool {
    &&& parameters[at].text == ".param".spec_bytes()
    &&& parameters[at + 1].text == ".u64".spec_bytes()
    &&& parameters[at + 2].text != ",".spec_bytes()
    &&& parameters[at + 3].text == ",".spec_bytes()
}

/// Four pointers and an align-4 32-byte bundle.
pub open spec fn five_parameters(parameters: Seq<Token>) -> bool {
    &&& parameters.len() == 24
    &&& pointer_parameter(parameters, 0)
    &&& pointer_parameter(parameters, 4)
    &&& pointer_parameter(parameters, 8)
    &&& pointer_parameter(parameters, 12)
    &&& parameters[16].text == ".param".spec_bytes()
    &&& parameters[17].text == ".align".spec_bytes()
    &&& parameters[18].text == "4".spec_bytes()
    &&& parameters[19].text == ".b8".spec_bytes()
    &&& parameters[20].text != ",".spec_bytes()
    &&& parameters[21].text == "[".spec_bytes()
    &&& parameters[22].text == "32".spec_bytes()
    &&& parameters[23].text == "]".spec_bytes()
}

fn is_pointer_parameter(parameters: &[PtxToken], at: usize) -> (found: bool)
    requires
        at + 4 <= parameters@.len(),
    ensures
        found == pointer_parameter(ptx::tokens(parameters@), at as int),
{
    parameters[at].has_text(".param") && parameters[at + 1].has_text(".u64")
        && !parameters[at + 2].has_text(",") && parameters[at + 3].has_text(",")
}

fn are_five_parameters(parameters: &[PtxToken]) -> (found: bool)
    ensures
        found == five_parameters(ptx::tokens(parameters@)),
{
    parameters.len() == 24 && is_pointer_parameter(parameters, 0) && is_pointer_parameter(
        parameters,
        4,
    ) && is_pointer_parameter(parameters, 8) && is_pointer_parameter(parameters, 12)
        && parameters[16].has_text(".param") && parameters[17].has_text(".align")
        && parameters[18].has_text("4") && parameters[19].has_text(".b8")
        && !parameters[20].has_text(",") && parameters[21].has_text("[")
        && parameters[22].has_text("32") && parameters[23].has_text("]")
}

/// The token is a directive.
pub open spec fn is_directive(token: Token) -> bool {
    token.text.len() > 0 && token.text[0] == 46
}

/// Where the values of a directive end: at the next directive.
pub open spec fn values_end(all: Seq<Token>, at: int) -> int
    decreases all.len() - at,
{
    if at < 0 || at >= all.len() || is_directive(all[at]) {
        at
    } else {
        values_end(all, at + 1)
    }
}

fn find_values_end(all: &[PtxToken], at: usize) -> (end: usize)
    requires
        at <= all@.len(),
    ensures
        end == values_end(ptx::tokens(all@), at as int),
        at <= end <= all@.len(),
{
    let ghost read = ptx::tokens(all@);
    let mut i: usize = at;
    while i < all.len()
        invariant
            at <= i <= all@.len(),
            read == ptx::tokens(all@),
            values_end(read, at as int) == values_end(read, i as int),
        decreases all@.len() - i,
    {
        assert(read[i as int] == all@[i as int]@);
        if all[i].text.len() > 0 && all[i].text[0] == 46 {
            return i;
        }
        i = i + 1;
    }
    i
}

/// A directive occurs once, with this value. A block bound may go on with
/// ones for the other dimensions.
pub open spec fn launch_bound(
    header: Seq<Token>,
    directive: Seq<u8>,
    value: Seq<u8>,
    dimensions: bool,
) -> bool {
    match find_text(header, directive, 0) {
        None => false,
        Some(at) => {
            let end = values_end(header, at + 1);
            &&& find_text(header, directive, at + 1) is None
            &&& end - (at + 1) == 1 || dimensions && end - (at + 1) == 5
            &&& header[at + 1].text == value
            &&& end - (at + 1) == 5 ==> {
                &&& header[at + 2].text == ",".spec_bytes()
                &&& header[at + 3].text == "1".spec_bytes()
                &&& header[at + 4].text == ",".spec_bytes()
                &&& header[at + 5].text == "1".spec_bytes()
            }
        },
    }
}

fn has_launch_bound(
    header: &[PtxToken],
    directive: &str,
    value: &str,
    dimensions: bool,
) -> (found: bool)
    ensures
        found == launch_bound(
            ptx::tokens(header@),
            directive.spec_bytes(),
            value.spec_bytes(),
            dimensions,
        ),
{
    let length: usize = header.len();
    let at: usize = match position_of(header, directive, 0) {
        None => {
            return false;
        },
        Some(at) => at,
    };
    if at >= length || position_of(header, directive, at + 1).is_some() {
        return false;
    }
    let end: usize = find_values_end(header, at + 1);
    let count: usize = end - (at + 1);
    if !(count == 1 || dimensions && count == 5) {
        return false;
    }
    if !header[at + 1].has_text(value) {
        return false;
    }
    count == 1 || header[at + 2].has_text(",") && header[at + 3].has_text("1") && header[at
        + 4].has_text(",") && header[at + 5].has_text("1")
}

/// What is wrong with what stands ahead of the body of a member.
pub open spec fn header_fault(header: Seq<Token>, min_blocks: Seq<u8>) -> Option<PtxFault> {
    match (find_text(header, "(".spec_bytes(), 0), find_text(header, ")".spec_bytes(), 0)) {
        (None, _) => Some(PtxFault::NoParameters),
        (Some(_), None) => Some(PtxFault::NoParameterEnd),
        (Some(begin), Some(end)) => if end <= begin {
            Some(PtxFault::MalformedParameters)
        } else if !five_parameters(header.subrange(begin + 1, end)) {
            Some(PtxFault::WrongParameters)
        } else if !launch_bound(
            header,
            ".maxntid".spec_bytes(),
            "256".spec_bytes(),
            true,
        ) {
            Some(PtxFault::WrongLaunchBound(".maxntid"))
        } else if !launch_bound(header, ".minnctapersm".spec_bytes(), min_blocks, false) {
            Some(PtxFault::WrongLaunchBound(".minnctapersm"))
        } else {
            None
        },
    }
}

/// A fault as a result.
pub open spec fn fault_result(fault: Option<PtxFault>) -> Result<(), PtxFault> {
    match fault {
        Some(fault) => Err(fault),
        None => Ok(()),
    }
}

proof fn tokens_of_subrange(all: Seq<PtxToken>, start: int, end: int)
    requires
        0 <= start <= end <= all.len(),
    ensures
        ptx::tokens(all.subrange(start, end)) == ptx::tokens(all).subrange(start, end),
{
    assert(ptx::tokens(all.subrange(start, end)) =~= ptx::tokens(all).subrange(start, end));
}

fn validate_entry_header(header: &[PtxToken], min_blocks: &str) -> (result: Result<(), PtxFault>)
    ensures
        result == fault_result(header_fault(ptx::tokens(header@), min_blocks.spec_bytes())),
{
    let begin: usize = match position_of(header, "(", 0) {
        None => {
            return Err(PtxFault::NoParameters);
        },
        Some(begin) => begin,
    };
    let end: usize = match position_of(header, ")", 0) {
        None => {
            return Err(PtxFault::NoParameterEnd);
        },
        Some(end) => end,
    };
    if end <= begin {
        return Err(PtxFault::MalformedParameters);
    }
    proof {
        tokens_of_subrange(header@, begin + 1, end as int);
    }
    if !are_five_parameters(slice_subrange(header, begin + 1, end)) {
        return Err(PtxFault::WrongParameters);
    }
    if !has_launch_bound(header, ".maxntid", "256", true) {
        return Err(PtxFault::WrongLaunchBound(".maxntid"));
    }
    if !has_launch_bound(header, ".minnctapersm", min_blocks, false) {
        return Err(PtxFault::WrongLaunchBound(".minnctapersm"));
    }
    Ok(())
}

/// An unquoted token of the body reads like this.
pub open spec fn has_word(body: Seq<Token>, word: Seq<u8>) -> bool {
    exists|i: int| 0 <= i < body.len() && ptx::reads(#[trigger] body[i], word)
}

fn body_has_word(body: &[PtxToken], word: &str) -> (found: bool)
    ensures
        found == has_word(ptx::tokens(body@), word.spec_bytes()),
{
    let ghost read = ptx::tokens(body@);
    let mut i: usize = 0;
    while i < body.len()
        invariant
            i <= body@.len(),
            read == ptx::tokens(body@),
            forall|j: int| 0 <= j < i ==> !ptx::reads(#[trigger] read[j], word.spec_bytes()),
        decreases body@.len() - i,
    {
        assert(read[i as int] == body@[i as int]@);
        if body[i].is_word(word) {
            return true;
        }
        i = i + 1;
    }
    false
}

/// Groups of copies are awaited down to this many.
pub open spec fn awaits_groups(body: Seq<Token>, immediate: Seq<u8>) -> bool {
    exists|i: int|
        0 <= i < body.len() - 1 && (#[trigger] body[i]).text
            == "cp.async.wait_group".spec_bytes() && body[i + 1].text == immediate
}

fn has_wait_group(body: &[PtxToken], immediate: &str) -> (found: bool)
    ensures
        found == awaits_groups(ptx::tokens(body@), immediate.spec_bytes()),
{
    let ghost read = ptx::tokens(body@);
    let mut i: usize = 0;
    while i < body.len() && body.len() - i > 1
        invariant
            i <= body@.len(),
            read == ptx::tokens(body@),
            forall|j: int|
                0 <= j < i && j < read.len() - 1 ==> !((#[trigger] read[j]).text
                    == "cp.async.wait_group".spec_bytes() && read[j + 1].text
                    == immediate.spec_bytes()),
        decreases body@.len() - i,
    {
        assert(read[i as int] == body@[i as int]@);
        assert(read[i + 1] == body@[i + 1]@);
        if body[i].has_text("cp.async.wait_group") && body[i + 1].has_text(immediate) {
            return true;
        }
        i = i + 1;
    }
    false
}

/// A text starts like this.
pub open spec fn starts(text: Seq<u8>, prefix: Seq<u8>) -> bool {
    text::occurs_at(text, prefix, 0)
}

fn starts_with(text: &[u8], prefix: &str) -> (found: bool)
    ensures
        found == starts(text@, prefix.spec_bytes()),
{
    let part = prefix.as_bytes();
    part.len() <= text.len() && matches_at(text, part, 0)
}

/// An asynchronous copy from global to shared memory.
pub open spec fn is_async_copy(text: Seq<u8>) -> bool {
    ||| text == "cp.async.ca.shared.global".spec_bytes()
    ||| text == "cp.async.cg.shared.global".spec_bytes()
    ||| starts(text, "cp.async.ca.shared.global.".spec_bytes())
    ||| starts(text, "cp.async.cg.shared.global.".spec_bytes())
}

/// The body copies asynchronously.
pub open spec fn copies(body: Seq<Token>) -> bool {
    exists|i: int|
        0 <= i < body.len() && !(#[trigger] body[i]).quoted && is_async_copy(body[i].text)
}

fn has_async_copy(body: &[PtxToken]) -> (found: bool)
    ensures
        found == copies(ptx::tokens(body@)),
{
    let ghost read = ptx::tokens(body@);
    let mut i: usize = 0;
    while i < body.len()
        invariant
            i <= body@.len(),
            read == ptx::tokens(body@),
            forall|j: int|
                0 <= j < i ==> (#[trigger] read[j]).quoted || !is_async_copy(read[j].text),
        decreases body@.len() - i,
    {
        assert(read[i as int] == body@[i as int]@);
        let word = body[i].text.as_slice();
        if !body[i].quoted && (same_bytes(word, "cp.async.ca.shared.global".as_bytes())
            || same_bytes(word, "cp.async.cg.shared.global".as_bytes()) || starts_with(
            word,
            "cp.async.ca.shared.global.",
        ) || starts_with(word, "cp.async.cg.shared.global.")) {
            return true;
        }
        i = i + 1;
    }
    false
}

/// Work that no member may do: local memory, atomics, reductions, calls.
pub open spec fn common_work(text: Seq<u8>) -> bool {
    ||| text == ".local".spec_bytes()
    ||| starts(text, "ld.local".spec_bytes())
    ||| starts(text, "st.local".spec_bytes())
    ||| starts(text, "atom.".spec_bytes())
    ||| starts(text, "atom::".spec_bytes())
    ||| starts(text, "red.".spec_bytes())
    ||| starts(text, "red::".spec_bytes())
    ||| starts(text, "redux.".spec_bytes())
    ||| text == "bar.red".spec_bytes()
    ||| starts(text, "bar.red.".spec_bytes())
    ||| text == "call".spec_bytes()
    ||| starts(text, "call.".spec_bytes())
    ||| text == ".callprototype".spec_bytes()
    ||| text == ".calltargets".spec_bytes()
}

fn forbidden_common_token(text: &[u8]) -> (found: bool)
    ensures
        found == common_work(text@),
{
    same_bytes(text, ".local".as_bytes()) || starts_with(text, "ld.local") || starts_with(
        text,
        "st.local",
    ) || starts_with(text, "atom.") || starts_with(text, "atom::") || starts_with(text, "red.")
        || starts_with(text, "red::") || starts_with(text, "redux.") || same_bytes(
        text,
        "bar.red".as_bytes(),
    ) || starts_with(text, "bar.red.") || same_bytes(text, "call".as_bytes()) || starts_with(
        text,
        "call.",
    ) || same_bytes(text, ".callprototype".as_bytes()) || same_bytes(
        text,
        ".calltargets".as_bytes(),
    )
}

/// A modifier stands in a text at a position, between dots or its ends.
pub open spec fn modifier_at(text: Seq<u8>, part: Seq<u8>, at: int) -> bool {
    &&& text::occurs_at(text, part, at)
    &&& at == 0 || text[at - 1] == 46
    &&& at + part.len() == text.len() || text[at + part.len()] == 46
}

/// A modifier stands in a text.
pub open spec fn has_modifier(text: Seq<u8>, part: Seq<u8>) -> bool {
    exists|at: int| #[trigger] modifier_at(text, part, at)
}

fn contains_modifier(text: &[u8], modifier: &str) -> (found: bool)
    ensures
        found == has_modifier(text@, modifier.spec_bytes()),
{
    let part = modifier.as_bytes();
    if part.len() > text.len() {
        return false;
    }
    let last: usize = text.len() - part.len();
    let mut at: usize = 0;
    loop
        invariant
            part@ == modifier.spec_bytes(),
            at <= last,
            last + part@.len() == text@.len(),
            forall|j: int| 0 <= j < at ==> !(#[trigger] modifier_at(text@, part@, j)),
        decreases last - at,
    {
        if matches_at(text, part, at) && (at == 0 || text[at - 1] == 46) && (at == last || text[at
            + part.len()] == 46) {
            assert(modifier_at(text@, part@, at as int));
            return true;
        }
        if at == last {
            return false;
        }
        at = at + 1;
    }
}

/// Tensor work other than the expected instruction, or arithmetic on
/// rounded or flushed operands.
pub open spec fn foreign_work(text: Seq<u8>, expected: Option<Seq<u8>>) -> bool {
    ||| (starts(text, "mma.".spec_bytes()) || starts(text, "wmma.".spec_bytes())) && expected
        != Some(text)
    ||| starts(text, "wgmma.".spec_bytes())
    ||| starts(text, "tcgen05.".spec_bytes())
    ||| has_modifier(text, "tf32".spec_bytes())
    ||| has_modifier(text, "ftz".spec_bytes())
}

/// The body does work that the member may not do.
pub open spec fn forbidden_work(body: Seq<Token>, expected: Option<Seq<u8>>) -> bool {
    exists|i: int|
        0 <= i < body.len() && !(#[trigger] body[i]).quoted && (common_work(body[i].text)
            || foreign_work(body[i].text, expected))
}

/// The bytes of an instruction, if there is one.
pub open spec fn opcode(expected: Option<&'static str>) -> Option<Seq<u8>> {
    match expected {
        Some(word) => Some(word.spec_bytes()),
        None => None,
    }
}

fn has_forbidden_work(body: &[PtxToken], expected: Option<&'static str>) -> (found: bool)
    ensures
        found == forbidden_work(ptx::tokens(body@), opcode(expected)),
{
    let ghost read = ptx::tokens(body@);
    let mut i: usize = 0;
    while i < body.len()
        invariant
            i <= body@.len(),
            read == ptx::tokens(body@),
            forall|j: int|
                0 <= j < i ==> (#[trigger] read[j]).quoted || !(common_work(read[j].text)
                    || foreign_work(read[j].text, opcode(expected))),
        decreases body@.len() - i,
    {
        assert(read[i as int] == body@[i as int]@);
        if !body[i].quoted {
            let word = body[i].text.as_slice();
            let is_expected = match expected {
                Some(mma) => same_bytes(word, mma.as_bytes()),
                None => false,
            };
            if forbidden_common_token(word) || (starts_with(word, "mma.") || starts_with(
                word,
                "wmma.",
            )) && !is_expected || starts_with(word, "wgmma.") || starts_with(word, "tcgen05.")
                || contains_modifier(word, "tf32") || contains_modifier(word, "ftz") {
                return true;
            }
        }
        i = i + 1;
    }
    false
}

/// What is wrong with the entry of a half member.
pub open spec fn half_entry_fault(entry: Entry, mma: &'static str) -> Option<PtxFault> {
    match header_fault(entry.header, "1".spec_bytes()) {
        Some(fault) => Some(fault),
        None => if !has_word(entry.body, "cp.async.commit_group".spec_bytes()) {
            Some(PtxFault::MissingOpcode("cp.async.commit_group"))
        } else if !has_word(
            entry.body,
            "ldmatrix.sync.aligned.m8n8.x4.shared.b16".spec_bytes(),
        ) {
            Some(PtxFault::MissingOpcode("ldmatrix.sync.aligned.m8n8.x4.shared.b16"))
        } else if !has_word(
            entry.body,
            "ldmatrix.sync.aligned.m8n8.x2.trans.shared.b16".spec_bytes(),
        ) {
            Some(PtxFault::MissingOpcode("ldmatrix.sync.aligned.m8n8.x2.trans.shared.b16"))
        } else if !has_word(entry.body, mma.spec_bytes()) {
            Some(PtxFault::MissingOpcode(mma))
        } else if !copies(entry.body) || !awaits_groups(entry.body, "0".spec_bytes())
            || !awaits_groups(entry.body, "1".spec_bytes()) || !has_word(
            entry.body,
            "bar.sync".spec_bytes(),
        ) {
            Some(PtxFault::IncompleteProtocol)
        } else if forbidden_work(entry.body, Some(mma.spec_bytes())) {
            Some(PtxFault::ForbiddenWork)
        } else {
            None
        },
    }
}

/// What is wrong with the entry of the exact member.
pub open spec fn exact_entry_fault(entry: Entry) -> Option<PtxFault> {
    match header_fault(entry.header, "2".spec_bytes()) {
        Some(fault) => Some(fault),
        None => if !has_word(entry.body, "fma.rn.f32".spec_bytes()) {
            Some(PtxFault::MissingOpcode("fma.rn.f32"))
        } else if !has_word(entry.body, "cp.async.commit_group".spec_bytes()) {
            Some(PtxFault::MissingOpcode("cp.async.commit_group"))
        } else if !copies(entry.body) || !awaits_groups(entry.body, "0".spec_bytes()) {
            Some(PtxFault::IncompleteProtocol)
        } else if forbidden_work(entry.body, None) {
            Some(PtxFault::ForbiddenWork)
        } else {
            None
        },
    }
}

fn check_half_entry(header: &[PtxToken], body: &[PtxToken], mma: &'static str) -> (result:
    Result<(), PtxFault>)
    ensures
        forall|symbol: Seq<u8>| #[trigger]
            half_entry_fault(
                Entry { symbol, header: ptx::tokens(header@), body: ptx::tokens(body@) },
                mma,
            ) == (match result {
                Err(fault) => Some(fault),
                Ok(_) => None::<PtxFault>,
            }),
{
    validate_entry_header(header, "1")?;
    if !body_has_word(body, "cp.async.commit_group") {
        return Err(PtxFault::MissingOpcode("cp.async.commit_group"));
    }
    if !body_has_word(body, "ldmatrix.sync.aligned.m8n8.x4.shared.b16") {
        return Err(PtxFault::MissingOpcode("ldmatrix.sync.aligned.m8n8.x4.shared.b16"));
    }
    if !body_has_word(body, "ldmatrix.sync.aligned.m8n8.x2.trans.shared.b16") {
        return Err(PtxFault::MissingOpcode("ldmatrix.sync.aligned.m8n8.x2.trans.shared.b16"));
    }
    if !body_has_word(body, mma) {
        return Err(PtxFault::MissingOpcode(mma));
    }
    if !has_async_copy(body) || !has_wait_group(body, "0") || !has_wait_group(body, "1")
        || !body_has_word(body, "bar.sync") {
        return Err(PtxFault::IncompleteProtocol);
    }
    if has_forbidden_work(body, Some(mma)) {
        return Err(PtxFault::ForbiddenWork);
    }
    Ok(())
}

fn check_exact_entry(header: &[PtxToken], body: &[PtxToken]) -> (result: Result<(), PtxFault>)
    ensures
        forall|symbol: Seq<u8>| #[trigger]
            exact_entry_fault(
                Entry { symbol, header: ptx::tokens(header@), body: ptx::tokens(body@) },
            ) == (match result {
                Err(fault) => Some(fault),
                Ok(_) => None::<PtxFault>,
            }),
{
    validate_entry_header(header, "2")?;
    if !body_has_word(body, "fma.rn.f32") {
        return Err(PtxFault::MissingOpcode("fma.rn.f32"));
    }
    if !body_has_word(body, "cp.async.commit_group") {
        return Err(PtxFault::MissingOpcode("cp.async.commit_group"));
    }
    if !has_async_copy(body) || !has_wait_group(body, "0") {
        return Err(PtxFault::IncompleteProtocol);
    }
    if has_forbidden_work(body, None) {
        return Err(PtxFault::ForbiddenWork);
    }
    Ok(())
}

/// The first entry of a name, from one of the entries on.
pub open spec fn find_entry(entries: Seq<Entry>, symbol: Seq<u8>, at: int) -> Option<int>
    decreases entries.len() - at,
{
    if at < 0 || at >= entries.len() {
        None
    } else if entries[at].symbol == symbol {
        Some(at)
    } else {
        find_entry(entries, symbol, at + 1)
    }
}

fn locate_entry(parsed: &ParsedPtx, symbol: &str, at: usize) -> (found: Option<usize>)
    requires
        parsed.wf(),
    ensures
        match (found, find_entry(parsed.entries(), symbol.spec_bytes(), at as int)) {
            (Some(i), Some(expected)) => i == expected && at <= i < parsed.extents@.len(),
            (None, None) => true,
            _ => false,
        },
{
    let ghost entries = parsed.entries();
    let mut i: usize = at;
    while i < parsed.extents.len()
        invariant
            at <= i,
            parsed.wf(),
            entries == parsed.entries(),
            find_entry(entries, symbol.spec_bytes(), at as int) == find_entry(
                entries,
                symbol.spec_bytes(),
                i as int,
            ),
        decreases parsed.extents@.len() - i,
    {
        let extent = parsed.extents[i];
        assert(entries[i as int].symbol == parsed.tokens@[extent.at + 1]@.text);
        if parsed.tokens[extent.at + 1].has_text(symbol) {
            return Some(i);
        }
        i = i + 1;
    }
    None
}

/// A name has more than one entry.
pub open spec fn exported_twice(entries: Seq<Entry>, symbol: Seq<u8>) -> bool {
    match find_entry(entries, symbol, 0) {
        None => false,
        Some(at) => find_entry(entries, symbol, at + 1) is Some,
    }
}

fn is_exported_twice(parsed: &ParsedPtx, symbol: &str) -> (twice: bool)
    requires
        parsed.wf(),
    ensures
        twice == exported_twice(parsed.entries(), symbol.spec_bytes()),
{
    let count: usize = parsed.extents.len();
    match locate_entry(parsed, symbol, 0) {
        None => false,
        Some(at) => at < count && locate_entry(parsed, symbol, at + 1).is_some(),
    }
}

/// The members that are admitted, each on its own.
#[derive(Clone, Copy, Debug, PartialEq, Eq)]
pub struct InferenceSm89PtxAdmission {
    pub half_f32out_s3_bf16: Result<(), PtxFault>,
    pub half_f32out_s3_f16: Result<(), PtxFault>,
    pub exact_m128n64_tail: Result<(), PtxFault>,
}

impl InferenceSm89PtxAdmission {
    /// No member is admitted.
    #[verifier::allow_in_spec]
    pub fn rejected(fault: PtxFault) -> InferenceSm89PtxAdmission
        returns
            (InferenceSm89PtxAdmission {
                half_f32out_s3_bf16: Err(fault),
                half_f32out_s3_f16: Err(fault),
                exact_m128n64_tail: Err(fault),
            }),
    {
        InferenceSm89PtxAdmission {
            half_f32out_s3_bf16: Err(fault),
            half_f32out_s3_f16: Err(fault),
            exact_m128n64_tail: Err(fault),
        }
    }
}

/// What is wrong with a half member.
pub open spec fn half_member_fault(
    entries: Seq<Entry>,
    symbol: &'static str,
    mma: &'static str,
) -> Option<PtxFault> {
    match find_entry(entries, symbol.spec_bytes(), 0) {
        None => Some(PtxFault::MissingEntry),
        Some(at) => half_entry_fault(entries[at], mma),
    }
}

/// What is wrong with the exact member.
pub open spec fn exact_member_fault(entries: Seq<Entry>) -> Option<PtxFault> {
    match find_entry(entries, EXACT_SYMBOL.spec_bytes(), 0) {
        None => Some(PtxFault::MissingEntry),
        Some(at) => exact_entry_fault(entries[at]),
    }
}

/// The member that is exported twice, first by name.
pub open spec fn duplicate_member(entries: Seq<Entry>) -> Option<&'static str> {
    if exported_twice(entries, EXACT_SYMBOL.spec_bytes()) {
        Some(EXACT_SYMBOL)
    } else if exported_twice(entries, HALF_BF16_SYMBOL.spec_bytes()) {
        Some(HALF_BF16_SYMBOL)
    } else if exported_twice(entries, HALF_F16_SYMBOL.spec_bytes()) {
        Some(HALF_F16_SYMBOL)
    } else {
        None
    }
}

/// Which members are admitted out of the entries of a text. A member that
/// is exported twice admits none.
pub open spec fn entries_admission(entries: Seq<Entry>) -> InferenceSm89PtxAdmission {
    match duplicate_member(entries) {
        Some(symbol) => InferenceSm89PtxAdmission::rejected(PtxFault::DuplicateExport(symbol)),
        None => InferenceSm89PtxAdmission {
            half_f32out_s3_bf16: fault_result(
                half_member_fault(entries, HALF_BF16_SYMBOL, BF16_MMA),
            ),
            half_f32out_s3_f16: fault_result(half_member_fault(entries, HALF_F16_SYMBOL, F16_MMA)),
            exact_m128n64_tail: fault_result(exact_member_fault(entries)),
        },
    }
}

/// Which members of a text are admitted. A malformed text admits none.
pub open spec fn ptx_admission(text: Seq<u8>) -> InferenceSm89PtxAdmission {
    match ptx::ptx_entries(text) {
        None => InferenceSm89PtxAdmission::rejected(PtxFault::Unparsed),
        Some(entries) => entries_admission(entries),
    }
}

fn entry_parts(parsed: &ParsedPtx, at: usize) -> (parts: (&[PtxToken], &[PtxToken]))
    requires
        parsed.wf(),
        at < parsed.extents@.len(),
    ensures
        ptx::tokens(parts.0@) == parsed.entries()[at as int].header,
        ptx::tokens(parts.1@) == parsed.entries()[at as int].body,
{
    let extent = parsed.extents[at];
    let all = parsed.tokens.as_slice();
    proof {
        tokens_of_subrange(all@, extent.at + 2, extent.open as int);
        tokens_of_subrange(all@, extent.open + 1, extent.close as int);
    }
    (
        slice_subrange(all, extent.at + 2, extent.open),
        slice_subrange(all, extent.open + 1, extent.close),
    )
}

/// Accepts a half member of a parsed text.
pub fn validate_half_entry(parsed: &ParsedPtx, symbol: &'static str, mma: &'static str) -> (result:
    Result<(), PtxFault>)
    requires
        parsed.wf(),
    ensures
        result == fault_result(half_member_fault(parsed.entries(), symbol, mma)),
{
    match locate_entry(parsed, symbol, 0) {
        None => Err(PtxFault::MissingEntry),
        Some(at) => {
            let (header, body) = entry_parts(parsed, at);
            proof {
                let entry = parsed.entries()[at as int];
                assert(entry == Entry {
                    symbol: entry.symbol,
                    header: ptx::tokens(header@),
                    body: ptx::tokens(body@),
                });
            }
            match check_half_entry(header, body, mma) {
                Ok(_) => Ok(()),
                Err(fault) => Err(fault),
            }
        },
    }
}

/// Accepts the exact member of a parsed text.
pub fn validate_exact_entry(parsed: &ParsedPtx) -> (result: Result<(), PtxFault>)
    requires
        parsed.wf(),
    ensures
        result == fault_result(exact_member_fault(parsed.entries())),
{
    match locate_entry(parsed, EXACT_SYMBOL, 0) {
        None => Err(PtxFault::MissingEntry),
        Some(at) => {
            let (header, body) = entry_parts(parsed, at);
            proof {
                let entry = parsed.entries()[at as int];
                assert(entry == Entry {
                    symbol: entry.symbol,
                    header: ptx::tokens(header@),
                    body: ptx::tokens(body@),
                });
            }
            match check_exact_entry(header, body) {
                Ok(_) => Ok(()),
                Err(fault) => Err(fault),
            }
        },
    }
}

/// Decides which members of a text are admitted.
pub fn validate_inference_sm89_ptx(text: &str) -> (admission: InferenceSm89PtxAdmission)
    ensures
        admission == ptx_admission(text.spec_bytes()),
{
    let parsed = match parse_ptx(text.as_bytes()) {
        None => {
            return InferenceSm89PtxAdmission::rejected(PtxFault::Unparsed);
        },
        Some(parsed) => parsed,
    };
    if is_exported_twice(&parsed, EXACT_SYMBOL) {
        return InferenceSm89PtxAdmission::rejected(PtxFault::DuplicateExport(EXACT_SYMBOL));
    }
    if is_exported_twice(&parsed, HALF_BF16_SYMBOL) {
        return InferenceSm89PtxAdmission::rejected(PtxFault::DuplicateExport(HALF_BF16_SYMBOL));
    }
    if is_exported_twice(&parsed, HALF_F16_SYMBOL) {
        return InferenceSm89PtxAdmission::rejected(PtxFault::DuplicateExport(HALF_F16_SYMBOL));
    }
    InferenceSm89PtxAdmission {
        half_f32out_s3_bf16: validate_half_entry(&parsed, HALF_BF16_SYMBOL, BF16_MMA),
        half_f32out_s3_f16: validate_half_entry(&parsed, HALF_F16_SYMBOL, F16_MMA),
        exact_m128n64_tail: validate_exact_entry(&parsed),
    }
}

proof fn unnamed_entries_are_not_found(
    entries: Seq<Entry>,
    other: Entry,
    symbol: Seq<u8>,
    at: int,
)
    requires
        other.symbol != symbol,
        0 <= at <= entries.len(),
    ensures
        find_entry(entries.push(other), symbol, at) == find_entry(entries, symbol, at),
        find_entry(entries, symbol, at) matches Some(found) ==> at <= found < entries.len(),
    decreases entries.len() - at,
{
    let more = entries.push(other);
    if at < entries.len() {
        assert(more[at] == entries[at]);
        unnamed_entries_are_not_found(entries, other, symbol, at + 1);
    } else {
        assert(more[at] == other);
        assert(find_entry(more, symbol, at + 1) is None);
    }
}

proof fn unnamed_entries_are_not_duplicates(entries: Seq<Entry>, other: Entry, symbol: Seq<u8>)
    requires
        other.symbol != symbol,
    ensures
        exported_twice(entries.push(other), symbol) == exported_twice(entries, symbol),
{
    unnamed_entries_are_not_found(entries, other, symbol, 0);
    if let Some(at) = find_entry(entries, symbol, 0) {
        unnamed_entries_are_not_found(entries, other, symbol, at + 1);
    }
}

/// A kernel that is not a member is not this bundle's business: exporting
/// one more changes nothing for the members.
pub proof fn other_kernels_do_not_matter(entries: Seq<Entry>, other: Entry)
    requires
        other.symbol != HALF_BF16_SYMBOL.spec_bytes(),
        other.symbol != HALF_F16_SYMBOL.spec_bytes(),
        other.symbol != EXACT_SYMBOL.spec_bytes(),
    ensures
        entries_admission(entries.push(other)) == entries_admission(entries),
{
    let more = entries.push(other);
    unnamed_entries_are_not_duplicates(entries, other, HALF_BF16_SYMBOL.spec_bytes());
    unnamed_entries_are_not_duplicates(entries, other, HALF_F16_SYMBOL.spec_bytes());
    unnamed_entries_are_not_duplicates(entries, other, EXACT_SYMBOL.spec_bytes());
    unnamed_entries_are_not_found(entries, other, HALF_BF16_SYMBOL.spec_bytes(), 0);
    unnamed_entries_are_not_found(entries, other, HALF_F16_SYMBOL.spec_bytes(), 0);
    unnamed_entries_are_not_found(entries, other, EXACT_SYMBOL.spec_bytes(), 0);
    assert forall|i: int| 0 <= i < entries.len() implies more[i] == entries[i] by {}
}

/// The entry of a member, if it is exported.
pub open spec fn member_entry(entries: Seq<Entry>, symbol: &'static str) -> Option<Entry> {
    match find_entry(entries, symbol.spec_bytes(), 0) {
        None => None,
        Some(at) => Some(entries[at]),
    }
}

/// Members are admitted each on its own: where no member is exported twice,
/// what is decided of one depends on its own entry alone.
pub proof fn members_are_admitted_each_on_its_own(left: Seq<Entry>, right: Seq<Entry>)
    requires
        duplicate_member(left) is None,
        duplicate_member(right) is None,
    ensures
        member_entry(left, HALF_BF16_SYMBOL) == member_entry(right, HALF_BF16_SYMBOL)
            ==> entries_admission(left).half_f32out_s3_bf16 == entries_admission(
            right,
        ).half_f32out_s3_bf16,
        member_entry(left, HALF_F16_SYMBOL) == member_entry(right, HALF_F16_SYMBOL)
            ==> entries_admission(left).half_f32out_s3_f16 == entries_admission(
            right,
        ).half_f32out_s3_f16,
        member_entry(left, EXACT_SYMBOL) == member_entry(right, EXACT_SYMBOL)
            ==> entries_admission(left).exact_m128n64_tail == entries_admission(
            right,
        ).exact_m128n64_tail,
{
}

/// Quoted text never counts as an instruction: a member whose required
/// instruction stands only inside quotations is not admitted.
pub proof fn quoted_opcodes_are_no_evidence(body: Seq<Token>, word: Seq<u8>)
    requires
        forall|i: int|
            0 <= i < body.len() && (#[trigger] body[i]).text == word ==> body[i].quoted,
    ensures
        !has_word(body, word),
{
}

/// An entry that is added to a body never makes up for forbidden work in
/// it: more work is never less forbidden.
pub proof fn forbidden_work_stays_forbidden(
    body: Seq<Token>,
    more: Seq<Token>,
    expected: Option<Seq<u8>>,
)
    requires
        forbidden_work(body, expected),
    ensures
        forbidden_work(body + more, expected),
{
    let i = choose|i: int|
        0 <= i < body.len() && !(#[trigger] body[i]).quoted && (common_work(body[i].text)
            || foreign_work(body[i].text, expected));
    assert((body + more)[i] == body[i]);
}

/// An unquoted token that a member may not hold.
pub open spec fn forbidden_token(token: Token, expected: Option<Seq<u8>>) -> bool {
    !token.quoted && (common_work(token.text) || foreign_work(token.text, expected))
}

/// An instruction with forbidden work that is inserted anywhere into the
/// body of the exact member refuses it, whatever the member held before.
pub proof fn inserted_work_refuses_the_exact_member(
    entry: Entry,
    at: int,
    instruction: Seq<Token>,
    forbidden: int,
)
    requires
        0 <= at <= entry.body.len(),
        0 <= forbidden < instruction.len(),
        forbidden_token(instruction[forbidden], None),
    ensures
        exact_entry_fault(
            Entry {
                body: entry.body.subrange(0, at) + instruction + entry.body.subrange(
                    at,
                    entry.body.len() as int,
                ),
                ..entry
            },
        ) is Some,
{
    let body = entry.body.subrange(0, at) + instruction + entry.body.subrange(
        at,
        entry.body.len() as int,
    );
    assert(body[at + forbidden] == instruction[forbidden]);
}

/// An instruction with forbidden work that is inserted anywhere into the
/// body of a half member refuses it, whatever the member held before. Its
/// own tensor product is the one that it may hold.
pub proof fn inserted_work_refuses_a_half_member(
    entry: Entry,
    mma: &'static str,
    at: int,
    instruction: Seq<Token>,
    forbidden: int,
)
    requires
        0 <= at <= entry.body.len(),
        0 <= forbidden < instruction.len(),
        forbidden_token(instruction[forbidden], Some(mma.spec_bytes())),
    ensures
        half_entry_fault(
            Entry {
                body: entry.body.subrange(0, at) + instruction + entry.body.subrange(
                    at,
                    entry.body.len() as int,
                ),
                ..entry
            },
            mma,
        ) is Some,
{
    let body = entry.body.subrange(0, at) + instruction + entry.body.subrange(
        at,
        entry.body.len() as int,
    );
    assert(body[at + forbidden] == instruction[forbidden]);
}

/// A quotation that is inserted into a body is neither forbidden work nor
/// the work that a member must do.
pub proof fn inserted_quotations_do_not_count(
    body: Seq<Token>,
    at: int,
    quotation: Token,
    word: Seq<u8>,
    expected: Option<Seq<u8>>,
)
    requires
        0 <= at <= body.len(),
        quotation.quoted,
    ensures
        has_word(body.insert(at, quotation), word) == has_word(body, word),
        copies(body.insert(at, quotation)) == copies(body),
        forbidden_work(body.insert(at, quotation), expected) == forbidden_work(body, expected),
{
    let more = body.insert(at, quotation);
    assert forall|i: int| 0 <= i < body.len() implies more[if i < at {
        i
    } else {
        i + 1
    }] == #[trigger] body[i] by {}
    assert forall|i: int| 0 <= i < more.len() && !(#[trigger] more[i]).quoted implies more[i]
        == body[if i < at {
        i
    } else {
        i - 1
    }] by {}
    if has_word(body, word) {
        let i = choose|i: int| 0 <= i < body.len() && ptx::reads(#[trigger] body[i], word);
        let j = if i < at {
            i
        } else {
            i + 1
        };
        assert(ptx::reads(more[j], word));
    }
    if copies(body) {
        let i = choose|i: int|
            0 <= i < body.len() && !(#[trigger] body[i]).quoted && is_async_copy(body[i].text);
        let j = if i < at {
            i
        } else {
            i + 1
        };
        assert(!more[j].quoted && is_async_copy(more[j].text));
    }
    if forbidden_work(body, expected) {
        let i = choose|i: int|
            0 <= i < body.len() && !(#[trigger] body[i]).quoted && (common_work(body[i].text)
                || foreign_work(body[i].text, expected));
        let j = if i < at {
            i
        } else {
            i + 1
        };
        assert(forbidden_token(more[j], expected));
    }
}

} // verus!
