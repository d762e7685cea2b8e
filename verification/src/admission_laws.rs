//! What a kernel has to be for a member of the inference bundle to be
//! admitted, in terms of the tokens of its text and of the driver's numbers.

use crate::identity::{ArtifactIdentity, CompilerIdentity, CudaTarget, ModuleKind};
use crate::inference_bundle;
use crate::inference_bundle::{
    InferenceFault, InferenceSm89Members, InferenceSm89ResourceFacts, Tf32DriverAbi,
};
use crate::inference_load;
use crate::inference_ptx;
use crate::inference_ptx::{InferenceSm89PtxAdmission, PtxFault};
use crate::ptx;
use crate::ptx::{Entry, Token};
use vstd::prelude::*;
use vstd::string::StringSliceAdditionalSpecFns;

verus! {

/// The texts of tokens, quoted or not.
pub open spec fn texts(all: Seq<Token>) -> Seq<Seq<u8>> {
    Seq::new(all.len(), |i: int| all[i].text)
}

/// A token starts with a dot.
pub open spec fn dotted(token: Token) -> bool {
    token.text.len() > 0 && token.text[0] == 46
}

/// The first token with a text stands here.
pub open spec fn first_at(all: Seq<Token>, word: Seq<u8>, at: int) -> bool {
    &&& 0 <= at < all.len()
    &&& all[at].text == word
    &&& forall|j: int| 0 <= j < at ==> (#[trigger] all[j]).text != word
}

/// Four pointers and a bundle of 32 bytes aligned to 4, under five names.
pub open spec fn parameter_texts(names: Seq<Seq<u8>>) -> Seq<Seq<u8>> {
    seq![
        ".param".spec_bytes(),
        ".u64".spec_bytes(),
        names[0],
        ",".spec_bytes(),
        ".param".spec_bytes(),
        ".u64".spec_bytes(),
        names[1],
        ",".spec_bytes(),
        ".param".spec_bytes(),
        ".u64".spec_bytes(),
        names[2],
        ",".spec_bytes(),
        ".param".spec_bytes(),
        ".u64".spec_bytes(),
        names[3],
        ",".spec_bytes(),
        ".param".spec_bytes(),
        ".align".spec_bytes(),
        "4".spec_bytes(),
        ".b8".spec_bytes(),
        names[4],
        "[".spec_bytes(),
        "32".spec_bytes(),
        "]".spec_bytes(),
    ]
}

/// The parameters are four pointers and the bundle, under these names.
pub open spec fn parameters_named(parameters: Seq<Token>, names: Seq<Seq<u8>>) -> bool {
    &&& names.len() == 5
    &&& forall|i: int| 0 <= i < 5 ==> #[trigger] names[i] != ",".spec_bytes()
    &&& texts(parameters) == parameter_texts(names)
}

/// The parameter list of a header stands between these parentheses.
pub open spec fn parameters_between(header: Seq<Token>, open: int, close: int) -> bool {
    &&& first_at(header, "(".spec_bytes(), open)
    &&& first_at(header, ")".spec_bytes(), close)
    &&& open < close
    &&& exists|names: Seq<Seq<u8>>| #[trigger]
        parameters_named(header.subrange(open + 1, close), names)
}

/// A directive stands once in a header, and these are its values, up to the
/// next directive.
pub open spec fn values_at(
    header: Seq<Token>,
    directive: Seq<u8>,
    at: int,
    end: int,
    values: Seq<Seq<u8>>,
) -> bool {
    &&& 0 <= at < end <= header.len()
    &&& header[at].text == directive
    &&& forall|j: int|
        0 <= j < header.len() && j != at ==> (#[trigger] header[j]).text != directive
    &&& forall|j: int| at < j < end ==> !dotted(#[trigger] header[j])
    &&& end == header.len() || dotted(header[end])
    &&& texts(header.subrange(at + 1, end)) == values
}

/// A directive stands once in a header, with these values.
pub open spec fn has_values(header: Seq<Token>, directive: Seq<u8>, values: Seq<Seq<u8>>) -> bool {
    exists|at: int, end: int| #[trigger] values_at(header, directive, at, end, values)
}

/// Blocks have 256 threads in one dimension.
pub open spec fn threads_in_one_dimension(header: Seq<Token>) -> bool {
    ||| has_values(header, ".maxntid".spec_bytes(), seq!["256".spec_bytes()])
    ||| has_values(
        header,
        ".maxntid".spec_bytes(),
        seq![
            "256".spec_bytes(),
            ",".spec_bytes(),
            "1".spec_bytes(),
            ",".spec_bytes(),
            "1".spec_bytes(),
        ],
    )
}

/// At least this many blocks share a multiprocessor.
pub open spec fn shares_a_multiprocessor(header: Seq<Token>, blocks: Seq<u8>) -> bool {
    has_values(header, ".minnctapersm".spec_bytes(), seq![blocks])
}

/// The header takes four pointers and the bundle, and is bounded as a member
/// is.
pub open spec fn header_of_a_member(header: Seq<Token>, blocks: Seq<u8>) -> bool {
    &&& exists|open: int, close: int| #[trigger] parameters_between(header, open, close)
    &&& threads_in_one_dimension(header)
    &&& shares_a_multiprocessor(header, blocks)
}

/// A body has a word that is not quoted.
pub open spec fn says(body: Seq<Token>, word: Seq<u8>) -> bool {
    exists|i: int| 0 <= i < body.len() && !(#[trigger] body[i]).quoted && body[i].text == word
}

/// A text begins so.
pub open spec fn begins(text: Seq<u8>, part: Seq<u8>) -> bool {
    part.len() <= text.len() && text.take(part.len() as int) == part
}

/// A part between two dots or ends of a text stands here.
pub open spec fn part_at(text: Seq<u8>, part: Seq<u8>, at: int) -> bool {
    &&& 0 <= at
    &&& at + part.len() <= text.len()
    &&& text.subrange(at, at + part.len()) == part
    &&& at > 0 ==> text[at - 1] == 46
    &&& at + part.len() < text.len() ==> text[at + part.len()] == 46
}

/// A text has a part between two dots or its ends.
pub open spec fn has_part(text: Seq<u8>, part: Seq<u8>) -> bool {
    exists|at: int| #[trigger] part_at(text, part, at)
}

/// A body copies from global to shared memory while it goes on.
pub open spec fn copies_ahead(body: Seq<Token>) -> bool {
    exists|i: int|
        0 <= i < body.len() && !(#[trigger] body[i]).quoted && {
            ||| body[i].text == "cp.async.ca.shared.global".spec_bytes()
            ||| body[i].text == "cp.async.cg.shared.global".spec_bytes()
            ||| begins(body[i].text, "cp.async.ca.shared.global.".spec_bytes())
            ||| begins(body[i].text, "cp.async.cg.shared.global.".spec_bytes())
        }
}

/// A body waits until no more than this many groups of copies are on their
/// way.
pub open spec fn waits_for(body: Seq<Token>, groups: Seq<u8>) -> bool {
    exists|i: int|
        0 <= i < body.len() - 1 && (#[trigger] body[i]).text
            == "cp.async.wait_group".spec_bytes() && body[i + 1].text == groups
}

/// Work on memory or results of other threads, or a call.
pub open spec fn reaches_out(text: Seq<u8>) -> bool {
    ||| text == ".local".spec_bytes()
    ||| begins(text, "ld.local".spec_bytes())
    ||| begins(text, "st.local".spec_bytes())
    ||| begins(text, "atom.".spec_bytes())
    ||| begins(text, "atom::".spec_bytes())
    ||| begins(text, "red.".spec_bytes())
    ||| begins(text, "red::".spec_bytes())
    ||| begins(text, "redux.".spec_bytes())
    ||| text == "bar.red".spec_bytes()
    ||| begins(text, "bar.red.".spec_bytes())
    ||| text == "call".spec_bytes()
    ||| begins(text, "call.".spec_bytes())
    ||| text == ".callprototype".spec_bytes()
    ||| text == ".calltargets".spec_bytes()
}

/// An instruction on tensor fragments.
pub open spec fn on_fragments(text: Seq<u8>) -> bool {
    ||| begins(text, "mma.".spec_bytes())
    ||| begins(text, "wmma.".spec_bytes())
}

/// An instruction on operands that are rounded or flushed, or of a later
/// generation.
pub open spec fn on_other_operands(text: Seq<u8>) -> bool {
    ||| begins(text, "wgmma.".spec_bytes())
    ||| begins(text, "tcgen05.".spec_bytes())
    ||| has_part(text, "tf32".spec_bytes())
    ||| has_part(text, "ftz".spec_bytes())
}

/// Nothing in a body but these products works on tensor fragments, and
/// nothing reaches out of its thread or changes its operands.
pub open spec fn keeps_to(body: Seq<Token>, products: Option<Seq<u8>>) -> bool {
    forall|i: int|
        0 <= i < body.len() && !(#[trigger] body[i]).quoted ==> {
            &&& !reaches_out(body[i].text)
            &&& on_fragments(body[i].text) ==> products == Some(body[i].text)
            &&& !on_other_operands(body[i].text)
        }
}

/// The body of a half member: it copies ahead in two groups, loads fragments
/// of both operands, and multiplies them with these products alone.
pub open spec fn body_of_a_half_member(body: Seq<Token>, products: Seq<u8>) -> bool {
    &&& copies_ahead(body)
    &&& says(body, "cp.async.commit_group".spec_bytes())
    &&& waits_for(body, "1".spec_bytes())
    &&& waits_for(body, "0".spec_bytes())
    &&& says(body, "bar.sync".spec_bytes())
    &&& says(body, "ldmatrix.sync.aligned.m8n8.x4.shared.b16".spec_bytes())
    &&& says(body, "ldmatrix.sync.aligned.m8n8.x2.trans.shared.b16".spec_bytes())
    &&& says(body, products)
    &&& keeps_to(body, Some(products))
}

/// The body of the exact member: it copies ahead, and accumulates with fused
/// multiply-adds of full precision alone.
pub open spec fn body_of_the_exact_member(body: Seq<Token>) -> bool {
    &&& copies_ahead(body)
    &&& says(body, "cp.async.commit_group".spec_bytes())
    &&& waits_for(body, "0".spec_bytes())
    &&& says(body, "fma.rn.f32".spec_bytes())
    &&& keeps_to(body, None)
}

proof fn first_is_found(all: Seq<Token>, word: Seq<u8>, at: int)
    requires
        0 <= at <= all.len(),
    ensures
        match inference_ptx::find_text(all, word, at) {
            None => forall|j: int| at <= j < all.len() ==> (#[trigger] all[j]).text != word,
            Some(i) => {
                &&& at <= i < all.len()
                &&& all[i].text == word
                &&& forall|j: int| at <= j < i ==> (#[trigger] all[j]).text != word
            },
        },
    decreases all.len() - at,
{
    if at < all.len() && all[at].text != word {
        first_is_found(all, word, at + 1);
    }
}

proof fn values_are_found(all: Seq<Token>, at: int)
    requires
        0 <= at <= all.len(),
    ensures
        at <= inference_ptx::values_end(all, at) <= all.len(),
        forall|j: int|
            at <= j < inference_ptx::values_end(all, at) ==> !dotted(#[trigger] all[j]),
        inference_ptx::values_end(all, at) < all.len() ==> dotted(
            all[inference_ptx::values_end(all, at)],
        ),
    decreases all.len() - at,
{
    if at < all.len() && !dotted(all[at]) {
        values_are_found(all, at + 1);
    }
}

proof fn names_of_parameters(parameters: Seq<Token>)
    ensures
        inference_ptx::five_parameters(parameters) == (exists|names: Seq<Seq<u8>>| #[trigger]
            parameters_named(parameters, names)),
{
    let read = texts(parameters);
    if inference_ptx::five_parameters(parameters) {
        let names = seq![read[2], read[6], read[10], read[14], read[20]];
        assert(inference_ptx::pointer_parameter(parameters, 0));
        assert(inference_ptx::pointer_parameter(parameters, 4));
        assert(inference_ptx::pointer_parameter(parameters, 8));
        assert(inference_ptx::pointer_parameter(parameters, 12));
        let all = parameter_texts(names);
        assert(all.len() == 24);
        assert forall|i: int| 0 <= i < 24 implies #[trigger] read[i] == all[i] by {
            assert(read[i] == parameters[i].text);
        }
        assert(read =~= all);
        assert(parameters_named(parameters, names));
    }
    if exists|names: Seq<Seq<u8>>| #[trigger] parameters_named(parameters, names) {
        let names = choose|names: Seq<Seq<u8>>| #[trigger] parameters_named(parameters, names);
        assert(read.len() == 24);
        assert forall|i: int| 0 <= i < 24 implies parameters[i].text == #[trigger] read[i] by {}
        assert(names[0] != ",".spec_bytes());
        assert(names[1] != ",".spec_bytes());
        assert(names[2] != ",".spec_bytes());
        assert(names[3] != ",".spec_bytes());
        assert(names[4] != ",".spec_bytes());
        assert(inference_ptx::pointer_parameter(parameters, 0));
        assert(inference_ptx::pointer_parameter(parameters, 4));
        assert(inference_ptx::pointer_parameter(parameters, 8));
        assert(inference_ptx::pointer_parameter(parameters, 12));
    }
}

proof fn bounds_are_values(
    header: Seq<Token>,
    directive: Seq<u8>,
    value: Seq<u8>,
    dimensions: bool,
)
    ensures
        inference_ptx::launch_bound(header, directive, value, dimensions) == (has_values(
            header,
            directive,
            seq![value],
        ) || dimensions && has_values(
            header,
            directive,
            seq![
                value,
                ",".spec_bytes(),
                "1".spec_bytes(),
                ",".spec_bytes(),
                "1".spec_bytes(),
            ],
        )),
{
    let one = seq![value];
    let three = seq![
        value,
        ",".spec_bytes(),
        "1".spec_bytes(),
        ",".spec_bytes(),
        "1".spec_bytes(),
    ];
    first_is_found(header, directive, 0);
    if let Some(at) = inference_ptx::find_text(header, directive, 0) {
        first_is_found(header, directive, at + 1);
        values_are_found(header, at + 1);
        let end = inference_ptx::values_end(header, at + 1);
        let read = texts(header.subrange(at + 1, end));
        assert(read.len() == end - (at + 1));
        assert forall|i: int| 0 <= i < read.len() implies #[trigger] read[i] == header[at + 1
            + i].text by {}
        if inference_ptx::launch_bound(header, directive, value, dimensions) {
            assert(read[0] == value);
            if end - (at + 1) == 1 {
                assert(read =~= one);
                assert(values_at(header, directive, at, end, one));
            } else {
                assert(read =~= three);
                assert(values_at(header, directive, at, end, three));
            }
        }
    }
    assert forall|at: int, end: int, values: Seq<Seq<u8>>| #[trigger]
        values_at(header, directive, at, end, values) && (values == one || dimensions && values
            == three) implies inference_ptx::launch_bound(
        header,
        directive,
        value,
        dimensions,
    ) by {
        let found = inference_ptx::find_text(header, directive, 0);
        assert(header[at].text == directive);
        assert(found == Some(at));
        let stop = inference_ptx::values_end(header, at + 1);
        first_is_found(header, directive, at + 1);
        values_are_found(header, at + 1);
        if stop < end {
            assert(dotted(header[stop]));
        }
        if end < stop {
            assert(!dotted(header[end]));
        }
        assert(stop == end);
        let read = texts(header.subrange(at + 1, end));
        assert forall|i: int| 0 <= i < read.len() implies #[trigger] read[i] == header[at + 1
            + i].text by {}
        assert(read[0] == value);
        if values == three {
            assert(read.len() == 5);
            assert(read[1] == three[1] && read[2] == three[2] && read[3] == three[3] && read[4]
                == three[4]);
        }
    }
}

/// A header is accepted exactly where it takes four pointers and a bundle of
/// 32 bytes aligned to 4, has blocks of 256 threads in one dimension, and
/// shares a multiprocessor as asked.
pub proof fn headers_are_accepted_as_promised(header: Seq<Token>, blocks: Seq<u8>)
    ensures
        inference_ptx::header_fault(header, blocks) is None <==> header_of_a_member(
            header,
            blocks,
        ),
        match inference_ptx::header_fault(header, blocks) {
            None => true,
            Some(PtxFault::NoParameters) => !texts(header).contains("(".spec_bytes()),
            Some(PtxFault::NoParameterEnd) => !texts(header).contains(")".spec_bytes()),
            Some(PtxFault::MalformedParameters) => exists|open: int, close: int|
                #![trigger first_at(header, "(".spec_bytes(), open),
                    first_at(header, ")".spec_bytes(), close)]
                first_at(header, "(".spec_bytes(), open) && first_at(
                    header,
                    ")".spec_bytes(),
                    close,
                ) && close <= open,
            Some(PtxFault::WrongParameters) => !(exists|open: int, close: int| #[trigger]
                parameters_between(header, open, close)),
            Some(PtxFault::WrongLaunchBound(directive)) => {
                ||| directive == ".maxntid" && !threads_in_one_dimension(header)
                ||| directive == ".minnctapersm" && !shares_a_multiprocessor(header, blocks)
            },
            Some(_) => false,
        },
{
    let begin = inference_ptx::find_text(header, "(".spec_bytes(), 0);
    let end = inference_ptx::find_text(header, ")".spec_bytes(), 0);
    first_is_found(header, "(".spec_bytes(), 0);
    first_is_found(header, ")".spec_bytes(), 0);
    bounds_are_values(header, ".maxntid".spec_bytes(), "256".spec_bytes(), true);
    bounds_are_values(header, ".minnctapersm".spec_bytes(), blocks, false);
    if begin is None && texts(header).contains("(".spec_bytes()) {
        let i = choose|i: int|
            0 <= i < texts(header).len() && texts(header)[i] == "(".spec_bytes();
        assert(header[i].text == "(".spec_bytes());
    }
    if end is None && texts(header).contains(")".spec_bytes()) {
        let i = choose|i: int|
            0 <= i < texts(header).len() && texts(header)[i] == ")".spec_bytes();
        assert(header[i].text == ")".spec_bytes());
    }
    if let (Some(b), Some(e)) = (begin, end) {
        assert(first_at(header, "(".spec_bytes(), b));
        assert(first_at(header, ")".spec_bytes(), e));
        names_of_parameters(header.subrange(b + 1, e));
        if b < e && inference_ptx::five_parameters(header.subrange(b + 1, e)) {
            assert(parameters_between(header, b, e));
        }
    }
    assert forall|open: int, close: int| #[trigger]
        parameters_between(header, open, close) implies begin == Some(open) && end == Some(
        close,
    ) by {
        assert(header[open].text == "(".spec_bytes());
        assert(header[close].text == ")".spec_bytes());
    }
}

proof fn forbidden_work_is_not_kept_to(body: Seq<Token>, products: Option<Seq<u8>>)
    ensures
        inference_ptx::forbidden_work(body, products) == !keeps_to(body, products),
{
    assert forall|text: Seq<u8>, part: Seq<u8>| #[trigger]
        inference_ptx::starts(text, part) == begins(text, part) by {
        assert(text.take(part.len() as int) == text.subrange(0, part.len() as int));
    }
    assert forall|text: Seq<u8>, part: Seq<u8>| #[trigger]
        inference_ptx::has_modifier(text, part) == has_part(text, part) by {
        if inference_ptx::has_modifier(text, part) {
            let at = choose|at: int| #[trigger] inference_ptx::modifier_at(text, part, at);
            assert(part_at(text, part, at));
        }
        if has_part(text, part) {
            let at = choose|at: int| #[trigger] part_at(text, part, at);
            assert(inference_ptx::modifier_at(text, part, at));
        }
    }
    assert forall|text: Seq<u8>|
        (#[trigger] inference_ptx::common_work(text) || inference_ptx::foreign_work(
            text,
            products,
        )) == !(!reaches_out(text) && (on_fragments(text) ==> products == Some(text))
            && !on_other_operands(text)) by {}
    if inference_ptx::forbidden_work(body, products) {
        let i = choose|i: int|
            0 <= i < body.len() && !(#[trigger] body[i]).quoted && (inference_ptx::common_work(
                body[i].text,
            ) || inference_ptx::foreign_work(body[i].text, products));
        assert(!body[i].quoted);
    }
}

proof fn copies_and_words(body: Seq<Token>, word: Seq<u8>)
    ensures
        inference_ptx::copies(body) == copies_ahead(body),
        inference_ptx::awaits_groups(body, word) == waits_for(body, word),
        inference_ptx::has_word(body, word) == says(body, word),
{
    assert forall|text: Seq<u8>, part: Seq<u8>| #[trigger]
        inference_ptx::starts(text, part) == begins(text, part) by {
        assert(text.take(part.len() as int) == text.subrange(0, part.len() as int));
    }
    if inference_ptx::copies(body) {
        let i = choose|i: int|
            0 <= i < body.len() && !(#[trigger] body[i]).quoted && inference_ptx::is_async_copy(
                body[i].text,
            );
        assert(!body[i].quoted);
    }
    if copies_ahead(body) {
        let i = choose|i: int|
            0 <= i < body.len() && !(#[trigger] body[i]).quoted && {
                ||| body[i].text == "cp.async.ca.shared.global".spec_bytes()
                ||| body[i].text == "cp.async.cg.shared.global".spec_bytes()
                ||| begins(body[i].text, "cp.async.ca.shared.global.".spec_bytes())
                ||| begins(body[i].text, "cp.async.cg.shared.global.".spec_bytes())
            };
        assert(inference_ptx::is_async_copy(body[i].text));
    }
    if inference_ptx::has_word(body, word) {
        let i = choose|i: int| 0 <= i < body.len() && ptx::reads(#[trigger] body[i], word);
        assert(!body[i].quoted && body[i].text == word);
    }
    if says(body, word) {
        let i = choose|i: int|
            0 <= i < body.len() && !(#[trigger] body[i]).quoted && body[i].text == word;
        assert(ptx::reads(body[i], word));
    }
}

/// An entry is a half member exactly where its header and its body are ones,
/// and a refusal names what the body lacks.
pub proof fn half_entries_are_accepted_as_promised(entry: Entry, products: &'static str)
    ensures
        inference_ptx::half_entry_fault(entry, products) is None <==> header_of_a_member(
            entry.header,
            "1".spec_bytes(),
        ) && body_of_a_half_member(entry.body, products.spec_bytes()),
        match inference_ptx::half_entry_fault(entry, products) {
            Some(PtxFault::MissingOpcode(word)) => !says(entry.body, word.spec_bytes()),
            Some(PtxFault::IncompleteProtocol) => {
                ||| !copies_ahead(entry.body)
                ||| !waits_for(entry.body, "0".spec_bytes())
                ||| !waits_for(entry.body, "1".spec_bytes())
                ||| !says(entry.body, "bar.sync".spec_bytes())
            },
            Some(PtxFault::ForbiddenWork) => !keeps_to(entry.body, Some(products.spec_bytes())),
            Some(fault) => inference_ptx::header_fault(entry.header, "1".spec_bytes()) == Some(
                fault,
            ),
            None => true,
        },
{
    let body = entry.body;
    headers_are_accepted_as_promised(entry.header, "1".spec_bytes());
    forbidden_work_is_not_kept_to(body, Some(products.spec_bytes()));
    copies_and_words(body, "0".spec_bytes());
    copies_and_words(body, "1".spec_bytes());
    copies_and_words(body, "bar.sync".spec_bytes());
    copies_and_words(body, "cp.async.commit_group".spec_bytes());
    copies_and_words(body, "ldmatrix.sync.aligned.m8n8.x4.shared.b16".spec_bytes());
    copies_and_words(body, "ldmatrix.sync.aligned.m8n8.x2.trans.shared.b16".spec_bytes());
    copies_and_words(body, products.spec_bytes());
}

/// An entry is the exact member exactly where its header and its body are
/// its, and a refusal names what the body lacks.
pub proof fn exact_entries_are_accepted_as_promised(entry: Entry)
    ensures
        inference_ptx::exact_entry_fault(entry) is None <==> header_of_a_member(
            entry.header,
            "2".spec_bytes(),
        ) && body_of_the_exact_member(entry.body),
        match inference_ptx::exact_entry_fault(entry) {
            Some(PtxFault::MissingOpcode(word)) => !says(entry.body, word.spec_bytes()),
            Some(PtxFault::IncompleteProtocol) => {
                ||| !copies_ahead(entry.body)
                ||| !waits_for(entry.body, "0".spec_bytes())
            },
            Some(PtxFault::ForbiddenWork) => !keeps_to(entry.body, None),
            Some(fault) => inference_ptx::header_fault(entry.header, "2".spec_bytes()) == Some(
                fault,
            ),
            None => true,
        },
{
    let body = entry.body;
    headers_are_accepted_as_promised(entry.header, "2".spec_bytes());
    forbidden_work_is_not_kept_to(body, None);
    copies_and_words(body, "0".spec_bytes());
    copies_and_words(body, "cp.async.commit_group".spec_bytes());
    copies_and_words(body, "fma.rn.f32".spec_bytes());
}

/// At most one entry has a name.
pub open spec fn at_most_one(entries: Seq<Entry>, symbol: Seq<u8>) -> bool {
    forall|i: int, j: int|
        0 <= i < entries.len() && 0 <= j < entries.len() && (#[trigger] entries[i]).symbol
            == symbol && (#[trigger] entries[j]).symbol == symbol ==> i == j
}

/// No member is exported twice.
pub open spec fn members_are_unique(entries: Seq<Entry>) -> bool {
    &&& at_most_one(entries, "nn_sm89_f32_m128n64_tail_copyplan".spec_bytes())
    &&& at_most_one(entries, "nn_sm89_tc128_f32out_s3_bf16".spec_bytes())
    &&& at_most_one(entries, "nn_sm89_tc128_f32out_s3_f16".spec_bytes())
}

/// A half member of a name is among the entries.
pub open spec fn exports_half(entries: Seq<Entry>, symbol: Seq<u8>, products: Seq<u8>) -> bool {
    exists|i: int|
        0 <= i < entries.len() && (#[trigger] entries[i]).symbol == symbol && header_of_a_member(
            entries[i].header,
            "1".spec_bytes(),
        ) && body_of_a_half_member(entries[i].body, products)
}

/// The exact member is among the entries.
pub open spec fn exports_exact(entries: Seq<Entry>) -> bool {
    exists|i: int|
        0 <= i < entries.len() && (#[trigger] entries[i]).symbol
            == "nn_sm89_f32_m128n64_tail_copyplan".spec_bytes() && header_of_a_member(
            entries[i].header,
            "2".spec_bytes(),
        ) && body_of_the_exact_member(entries[i].body)
}

proof fn first_entry_is_found(entries: Seq<Entry>, symbol: Seq<u8>, at: int)
    requires
        0 <= at <= entries.len(),
    ensures
        match inference_ptx::find_entry(entries, symbol, at) {
            None => forall|j: int|
                at <= j < entries.len() ==> (#[trigger] entries[j]).symbol != symbol,
            Some(i) => {
                &&& at <= i < entries.len()
                &&& entries[i].symbol == symbol
                &&& forall|j: int| at <= j < i ==> (#[trigger] entries[j]).symbol != symbol
            },
        },
    decreases entries.len() - at,
{
    if at < entries.len() && entries[at].symbol != symbol {
        first_entry_is_found(entries, symbol, at + 1);
    }
}

proof fn twice_is_more_than_one(entries: Seq<Entry>, symbol: Seq<u8>)
    ensures
        inference_ptx::exported_twice(entries, symbol) == !at_most_one(entries, symbol),
{
    first_entry_is_found(entries, symbol, 0);
    if let Some(at) = inference_ptx::find_entry(entries, symbol, 0) {
        first_entry_is_found(entries, symbol, at + 1);
        if let Some(next) = inference_ptx::find_entry(entries, symbol, at + 1) {
            assert(entries[at].symbol == symbol && entries[next].symbol == symbol && at != next);
        }
    }
}

proof fn half_members_are_exported(
    entries: Seq<Entry>,
    symbol: &'static str,
    products: &'static str,
)
    requires
        at_most_one(entries, symbol.spec_bytes()),
    ensures
        inference_ptx::half_member_fault(entries, symbol, products) is None == exports_half(
            entries,
            symbol.spec_bytes(),
            products.spec_bytes(),
        ),
{
    first_entry_is_found(entries, symbol.spec_bytes(), 0);
    if let Some(at) = inference_ptx::find_entry(entries, symbol.spec_bytes(), 0) {
        half_entries_are_accepted_as_promised(entries[at], products);
        assert(entries[at].symbol == symbol.spec_bytes());
    }
}

proof fn the_exact_member_is_exported(entries: Seq<Entry>)
    requires
        at_most_one(entries, "nn_sm89_f32_m128n64_tail_copyplan".spec_bytes()),
    ensures
        inference_ptx::exact_member_fault(entries) is None == exports_exact(entries),
{
    let symbol = "nn_sm89_f32_m128n64_tail_copyplan".spec_bytes();
    first_entry_is_found(entries, symbol, 0);
    if let Some(at) = inference_ptx::find_entry(entries, symbol, 0) {
        exact_entries_are_accepted_as_promised(entries[at]);
        assert(entries[at].symbol == symbol);
    }
}

/// A member is admitted exactly where the text is well formed, no member is
/// exported twice, and the entry of its name is the kernel that the name
/// promises: bf16 products under the bf16 name, f16 products under the f16
/// name, fused multiply-adds under the exact name.
pub proof fn members_are_admitted_as_promised(text: Seq<u8>)
    ensures
        inference_ptx::ptx_admission(text).half_f32out_s3_bf16 is Ok <==> (ptx::ptx_entries(
            text,
        ) matches Some(entries) && members_are_unique(entries) && exports_half(
            entries,
            "nn_sm89_tc128_f32out_s3_bf16".spec_bytes(),
            "mma.sync.aligned.m16n8k16.row.col.f32.bf16.bf16.f32".spec_bytes(),
        )),
        inference_ptx::ptx_admission(text).half_f32out_s3_f16 is Ok <==> (ptx::ptx_entries(
            text,
        ) matches Some(entries) && members_are_unique(entries) && exports_half(
            entries,
            "nn_sm89_tc128_f32out_s3_f16".spec_bytes(),
            "mma.sync.aligned.m16n8k16.row.col.f32.f16.f16.f32".spec_bytes(),
        )),
        inference_ptx::ptx_admission(text).exact_m128n64_tail is Ok <==> (ptx::ptx_entries(
            text,
        ) matches Some(entries) && members_are_unique(entries) && exports_exact(entries)),
{
    if let Some(entries) = ptx::ptx_entries(text) {
        twice_is_more_than_one(entries, "nn_sm89_f32_m128n64_tail_copyplan".spec_bytes());
        twice_is_more_than_one(entries, "nn_sm89_tc128_f32out_s3_bf16".spec_bytes());
        twice_is_more_than_one(entries, "nn_sm89_tc128_f32out_s3_f16".spec_bytes());
        if members_are_unique(entries) {
            half_members_are_exported(
                entries,
                "nn_sm89_tc128_f32out_s3_bf16",
                "mma.sync.aligned.m16n8k16.row.col.f32.bf16.bf16.f32",
            );
            half_members_are_exported(
                entries,
                "nn_sm89_tc128_f32out_s3_f16",
                "mma.sync.aligned.m16n8k16.row.col.f32.f16.f16.f32",
            );
            the_exact_member_is_exported(entries);
        }
    }
}

/// Where a parameter ends.
pub open spec fn parameter_end(abi: Tf32DriverAbi, i: int) -> int {
    abi.parameters@[i].offset + abi.parameters@[i].size
}

/// The driver's parameters lie one behind the other: four of eight bytes
/// and one of the size of the host's bundle.
pub open spec fn laid_out_as_the_host(abi: Tf32DriverAbi, host_size: usize) -> bool {
    &&& abi.parameters@.len() == 5
    &&& abi.parameter_count == 5
    &&& abi.parameters@[0].offset == 0
    &&& forall|i: int|
        0 < i < 5 ==> (#[trigger] abi.parameters@[i]).offset == parameter_end(abi, i - 1)
    &&& forall|i: int| 0 <= i < 4 ==> (#[trigger] abi.parameters@[i]).size == 8
    &&& abi.parameters@[4].size == host_size
    &&& host_size == 32
}

/// An accepted layout is the host's, and the host's layout is accepted.
pub proof fn layouts_are_accepted_as_the_host_packs(
    abi: Tf32DriverAbi,
    host_size: usize,
    host_align: usize,
)
    requires
        abi.parameters@.len() == abi.parameter_count,
    ensures
        inference_bundle::abi_admitted(abi, host_size, host_align) <==> host_align == 4
            && laid_out_as_the_host(abi, host_size),
{
    let layout = inference_bundle::member_layout();
    assert(layout.len() == 5);
    if inference_bundle::abi_admitted(abi, host_size, host_align) {
        assert forall|i: int| 0 <= i < 5 implies abi.parameters@[i] == #[trigger] layout[i] by {}
        assert(abi.parameters@[0] == layout[0]);
        assert(abi.parameters@[1] == layout[1]);
        assert(abi.parameters@[2] == layout[2]);
        assert(abi.parameters@[3] == layout[3]);
        assert(abi.parameters@[4] == layout[4]);
    }
    if host_align == 4 && laid_out_as_the_host(abi, host_size) {
        let p = abi.parameters@;
        assert(p[0].size == 8 && p[1].size == 8 && p[2].size == 8 && p[3].size == 8);
        assert(p[1].offset == parameter_end(abi, 0));
        assert(p[2].offset == parameter_end(abi, 1));
        assert(p[3].offset == parameter_end(abi, 2));
        assert(p[4].offset == parameter_end(abi, 3));
    }
}

/// A member runs as its kernel is written: blocks of 256 threads, nothing
/// spilled, and this many blocks at once.
pub open spec fn runs_with(resources: InferenceSm89ResourceFacts, blocks: int) -> bool {
    &&& resources.local_bytes == 0
    &&& resources.registers > 0
    &&& resources.max_threads >= 256
    &&& resources.active_blocks >= blocks
}

/// A half member is admitted exactly where it runs one block with at most 188
/// registers a thread, all of its shared memory is dynamic, and the device
/// lends a block 96 KiB. The exact member is admitted exactly where it runs
/// two blocks with at most 128 registers a thread and 48 KiB of static shared
/// memory.
pub proof fn members_are_admitted_by_their_resources(resources: InferenceSm89ResourceFacts)
    ensures
        inference_bundle::half_resources_admitted(resources) <==> runs_with(resources, 1)
            && resources.registers <= 188 && resources.static_shared_bytes == 0
            && resources.optin_shared_bytes >= 96 * 1024,
        inference_bundle::exact_resources_admitted(resources) <==> runs_with(resources, 2)
            && resources.registers <= 128 && resources.static_shared_bytes == 48 * 1024,
{
}

/// A module is inside of the envelope exactly where it is the PTX of the
/// fixed module, is keyed by the invocation of its own compiler, was made by
/// libraries that are known and current, and the device and that compiler's
/// target and version are said to go together.
pub proof fn modules_are_decided_by_their_own_compiler<
    Supported: FnOnce(Option<(i32, i32)>, CudaTarget, usize, (i32, i32)) -> bool,
>(
    artifact: ArtifactIdentity,
    compiler: CompilerIdentity,
    state_cap: usize,
    current: bool,
    device_cc: Option<(i32, i32)>,
    compiler_supported: Supported,
    result: Result<(), InferenceFault>,
)
    requires
        inference_bundle::envelope_decided(
            inference_bundle::module_facts(artifact, compiler, state_cap, current, device_cc),
            compiler_supported,
            result,
        ),
    ensures
        ({
            let made_here = artifact.module_kind is Fixed && artifact.artifact_kind is Ptx
                && compiler.output_kind is Ptx && artifact.compile_key
                == compiler.invocation_digest && compiler.nvrtc_library_known && current;
            let asked = (device_cc, compiler.target, state_cap, compiler.nvrtc_version);
            &&& result is Ok ==> made_here && call_ensures(compiler_supported, asked, true)
            &&& result is Err && made_here ==> call_ensures(compiler_supported, asked, false)
        }),
{
}

/// A loaded member was admitted by the census, has the host's layout, and
/// uses what it may.
pub open spec fn loaded_as_admitted<
    T,
    Load: FnOnce() -> Result<(T, InferenceSm89ResourceFacts), InferenceFault>,
>(
    census: Result<Tf32DriverAbi, InferenceFault>,
    host_size: usize,
    load: Load,
    member: T,
    blocks: int,
) -> bool {
    &&& census matches Ok(abi) && (abi.parameters@.len() == abi.parameter_count
        ==> laid_out_as_the_host(abi, host_size))
    &&& exists|resources: InferenceSm89ResourceFacts|
        #![trigger runs_with(resources, blocks)]
        runs_with(resources, blocks) && call_ensures(
            load,
            (),
            Ok::<(T, InferenceSm89ResourceFacts), InferenceFault>((member, resources)),
        )
}

proof fn member_is_loaded_as_admitted<
    T,
    Load: FnOnce() -> Result<(T, InferenceSm89ResourceFacts), InferenceFault>,
>(
    census: Result<Tf32DriverAbi, InferenceFault>,
    host_size: usize,
    half: bool,
    load: Load,
    result: Result<T, InferenceFault>,
)
    requires
        inference_load::member_loaded(
            census,
            host_size,
            if half {
                inference_load::half_rule()
            } else {
                inference_load::exact_rule()
            },
            load,
            result,
        ),
    ensures
        result matches Ok(member) ==> loaded_as_admitted(
            census,
            host_size,
            load,
            member,
            if half {
                1int
            } else {
                2int
            },
        ),
{
    if let Ok(member) = result {
        let abi = census->Ok_0;
        if abi.parameters@.len() == abi.parameter_count {
            layouts_are_accepted_as_the_host_packs(abi, host_size, 4);
        }
        let loaded = choose|loaded: Result<(T, InferenceSm89ResourceFacts), InferenceFault>|
            #![trigger call_ensures(load, (), loaded)]
            call_ensures(load, (), loaded) && result == (match loaded {
                Err(fault) => Err::<T, InferenceFault>(fault),
                Ok(member) => if (if half {
                    inference_load::half_rule()
                } else {
                    inference_load::exact_rule()
                })(member.1) {
                    Ok::<T, InferenceFault>(member.0)
                } else {
                    Err::<T, InferenceFault>(InferenceFault::Resources(member.1))
                },
            });
        let resources = loaded->Ok_0.1;
        members_are_admitted_by_their_resources(resources);
        assert(loaded == Ok::<(T, InferenceSm89ResourceFacts), InferenceFault>((
            member,
            resources,
        )));
        assert(runs_with(resources, if half {
            1int
        } else {
            2int
        }));
    }
}

/// What a bundle gives out under a member's name is what that member's own
/// load gave, of a member that the census admitted, that lies as the host
/// packs its arguments, and that runs as its kernel is written.
pub proof fn loaded_members_are_the_admitted_ones<
    T,
    Supported: FnOnce(Option<(i32, i32)>, CudaTarget, usize, (i32, i32)) -> bool,
    Bf16: FnOnce() -> Result<(T, InferenceSm89ResourceFacts), InferenceFault>,
    F16: FnOnce() -> Result<(T, InferenceSm89ResourceFacts), InferenceFault>,
    Exact: FnOnce() -> Result<(T, InferenceSm89ResourceFacts), InferenceFault>,
>(
    facts: inference_bundle::InferenceSm89EnvelopeFacts,
    compiler_supported: Supported,
    census: InferenceSm89Members<Tf32DriverAbi>,
    half_size: usize,
    exact_size: usize,
    loads: (Bf16, F16, Exact),
    members: InferenceSm89Members<T>,
)
    requires
        inference_load::bundle_loaded(
            facts,
            compiler_supported,
            census,
            half_size,
            exact_size,
            loads,
            members,
        ),
    ensures
        members.half_f32out_s3_bf16 matches Ok(member) ==> loaded_as_admitted(
            census.half_f32out_s3_bf16,
            half_size,
            loads.0,
            member,
            1,
        ),
        members.half_f32out_s3_f16 matches Ok(member) ==> loaded_as_admitted(
            census.half_f32out_s3_f16,
            half_size,
            loads.1,
            member,
            1,
        ),
        members.exact_m128n64_tail matches Ok(member) ==> loaded_as_admitted(
            census.exact_m128n64_tail,
            exact_size,
            loads.2,
            member,
            2,
        ),
{
    let decision = choose|decision: Result<(), InferenceFault>|
        #![trigger inference_bundle::envelope_decided(facts, compiler_supported, decision)]
        inference_bundle::envelope_decided(facts, compiler_supported, decision) && match decision {
            Err(fault) => inference_load::all_refused(members, fault),
            Ok(_) => {
                &&& inference_load::member_loaded(
                    census.half_f32out_s3_bf16,
                    half_size,
                    inference_load::half_rule(),
                    loads.0,
                    members.half_f32out_s3_bf16,
                )
                &&& inference_load::member_loaded(
                    census.half_f32out_s3_f16,
                    half_size,
                    inference_load::half_rule(),
                    loads.1,
                    members.half_f32out_s3_f16,
                )
                &&& inference_load::member_loaded(
                    census.exact_m128n64_tail,
                    exact_size,
                    inference_load::exact_rule(),
                    loads.2,
                    members.exact_m128n64_tail,
                )
            },
        };
    if decision is Ok {
        member_is_loaded_as_admitted(
            census.half_f32out_s3_bf16,
            half_size,
            true,
            loads.0,
            members.half_f32out_s3_bf16,
        );
        member_is_loaded_as_admitted(
            census.half_f32out_s3_f16,
            half_size,
            true,
            loads.1,
            members.half_f32out_s3_f16,
        );
        member_is_loaded_as_admitted(
            census.exact_m128n64_tail,
            exact_size,
            false,
            loads.2,
            members.exact_m128n64_tail,
        );
    }
}

/// A counted layout is the driver's answer about this symbol, and the host's.
pub open spec fn counted_by_the_driver<
    Query: Fn(&'static str) -> Result<Tf32DriverAbi, InferenceFault>,
>(query: Query, symbol: &'static str, host_size: usize, abi: Tf32DriverAbi) -> bool {
    &&& call_ensures(query, (symbol,), Ok::<Tf32DriverAbi, InferenceFault>(abi))
    &&& abi.parameters@.len() == abi.parameter_count ==> laid_out_as_the_host(abi, host_size)
}

proof fn member_is_counted_by_the_driver<
    Query: Fn(&'static str) -> Result<Tf32DriverAbi, InferenceFault>,
>(
    admission: Result<(), PtxFault>,
    symbol: &'static str,
    host_size: usize,
    query: Query,
    result: Result<Tf32DriverAbi, InferenceFault>,
)
    requires
        inference_load::symbol_census(admission, symbol, host_size, query, result),
    ensures
        result matches Ok(abi) ==> admission is Ok && counted_by_the_driver(
            query,
            symbol,
            host_size,
            abi,
        ),
{
    if let Ok(abi) = result {
        if abi.parameters@.len() == abi.parameter_count {
            layouts_are_accepted_as_the_host_packs(abi, host_size, 4);
        }
    }
}

proof fn members_are_counted_by_the_driver<
    Load: FnOnce() -> Result<(), InferenceFault>,
    Query: Fn(&'static str) -> Result<Tf32DriverAbi, InferenceFault>,
    Unload: FnOnce() -> Result<(), InferenceFault>,
>(
    module: (ModuleKind, bool),
    admission: InferenceSm89PtxAdmission,
    half_size: usize,
    exact_size: usize,
    load: Load,
    query: Query,
    unload: Unload,
    members: InferenceSm89Members<Tf32DriverAbi>,
)
    requires
        inference_load::censused(
            module,
            admission,
            half_size,
            exact_size,
            load,
            query,
            unload,
            members,
        ),
    ensures
        members.half_f32out_s3_bf16 is Ok || members.half_f32out_s3_f16 is Ok
            || members.exact_m128n64_tail is Ok ==> {
            &&& module.0 is Fixed
            &&& module.1
            &&& call_ensures(load, (), Ok::<(), InferenceFault>(()))
            &&& call_ensures(unload, (), Ok::<(), InferenceFault>(()))
        },
        members.half_f32out_s3_bf16 matches Ok(abi) ==> admission.half_f32out_s3_bf16 is Ok
            && counted_by_the_driver(query, "nn_sm89_tc128_f32out_s3_bf16", half_size, abi),
        members.half_f32out_s3_f16 matches Ok(abi) ==> admission.half_f32out_s3_f16 is Ok
            && counted_by_the_driver(query, "nn_sm89_tc128_f32out_s3_f16", half_size, abi),
        members.exact_m128n64_tail matches Ok(abi) ==> admission.exact_m128n64_tail is Ok
            && counted_by_the_driver(query, "nn_sm89_f32_m128n64_tail_copyplan", exact_size, abi),
{
    if members.half_f32out_s3_bf16 is Ok || members.half_f32out_s3_f16 is Ok
        || members.exact_m128n64_tail is Ok {
        let loaded = choose|loaded: Result<(), InferenceFault>|
            #![trigger call_ensures(load, (), loaded)]
            call_ensures(load, (), loaded) && match loaded {
                Err(fault) => inference_load::all_refused(members, fault),
                Ok(_) => exists|unloaded: Result<(), InferenceFault>|
                    #![trigger call_ensures(unload, (), unloaded)]
                    call_ensures(unload, (), unloaded) && match unloaded {
                        Err(fault) => inference_load::all_refused(members, fault),
                        Ok(_) => inference_load::members_censused(
                            admission,
                            half_size,
                            exact_size,
                            query,
                            members,
                        ),
                    },
            };
        let unloaded = choose|unloaded: Result<(), InferenceFault>|
            #![trigger call_ensures(unload, (), unloaded)]
            call_ensures(unload, (), unloaded) && match unloaded {
                Err(fault) => inference_load::all_refused(members, fault),
                Ok(_) => inference_load::members_censused(
                    admission,
                    half_size,
                    exact_size,
                    query,
                    members,
                ),
            };
        assert(loaded->Ok_0 == ());
        assert(loaded == Ok::<(), InferenceFault>(()));
        assert(unloaded->Ok_0 == ());
        assert(unloaded == Ok::<(), InferenceFault>(()));
        assert(inference_load::members_censused(
            admission,
            half_size,
            exact_size,
            query,
            members,
        ));
        member_is_counted_by_the_driver(
            admission.half_f32out_s3_bf16,
            "nn_sm89_tc128_f32out_s3_bf16",
            half_size,
            query,
            members.half_f32out_s3_bf16,
        );
        member_is_counted_by_the_driver(
            admission.half_f32out_s3_f16,
            "nn_sm89_tc128_f32out_s3_f16",
            half_size,
            query,
            members.half_f32out_s3_f16,
        );
        member_is_counted_by_the_driver(
            admission.exact_m128n64_tail,
            "nn_sm89_f32_m128n64_tail_copyplan",
            exact_size,
            query,
            members.exact_m128n64_tail,
        );
    }
}

/// A member has a layout only where the fixed module with the portable
/// overlay could be loaded and unloaded again and its text exports the kernel
/// that the member's name promises, and the layout is what the driver
/// answers about that name.
pub proof fn counted_members_are_the_exported_ones<
    Load: FnOnce() -> Result<(), InferenceFault>,
    Query: Fn(&'static str) -> Result<Tf32DriverAbi, InferenceFault>,
    Unload: FnOnce() -> Result<(), InferenceFault>,
>(
    module: (ModuleKind, bool),
    text: Seq<u8>,
    half_size: usize,
    exact_size: usize,
    load: Load,
    query: Query,
    unload: Unload,
    members: InferenceSm89Members<Tf32DriverAbi>,
)
    requires
        inference_load::censused(
            module,
            inference_ptx::ptx_admission(text),
            half_size,
            exact_size,
            load,
            query,
            unload,
            members,
        ),
    ensures
        members.half_f32out_s3_bf16 is Ok || members.half_f32out_s3_f16 is Ok
            || members.exact_m128n64_tail is Ok ==> {
            &&& module.0 is Fixed
            &&& module.1
            &&& call_ensures(load, (), Ok::<(), InferenceFault>(()))
            &&& call_ensures(unload, (), Ok::<(), InferenceFault>(()))
            &&& ptx::ptx_entries(text) matches Some(entries) && members_are_unique(entries)
        },
        members.half_f32out_s3_bf16 matches Ok(abi) ==> counted_by_the_driver(
            query,
            "nn_sm89_tc128_f32out_s3_bf16",
            half_size,
            abi,
        ) && exports_half(
            ptx::ptx_entries(text)->Some_0,
            "nn_sm89_tc128_f32out_s3_bf16".spec_bytes(),
            "mma.sync.aligned.m16n8k16.row.col.f32.bf16.bf16.f32".spec_bytes(),
        ),
        members.half_f32out_s3_f16 matches Ok(abi) ==> counted_by_the_driver(
            query,
            "nn_sm89_tc128_f32out_s3_f16",
            half_size,
            abi,
        ) && exports_half(
            ptx::ptx_entries(text)->Some_0,
            "nn_sm89_tc128_f32out_s3_f16".spec_bytes(),
            "mma.sync.aligned.m16n8k16.row.col.f32.f16.f16.f32".spec_bytes(),
        ),
        members.exact_m128n64_tail matches Ok(abi) ==> counted_by_the_driver(
            query,
            "nn_sm89_f32_m128n64_tail_copyplan",
            exact_size,
            abi,
        ) && exports_exact(ptx::ptx_entries(text)->Some_0),
{
    members_are_admitted_as_promised(text);
    members_are_counted_by_the_driver(
        module,
        inference_ptx::ptx_admission(text),
        half_size,
        exact_size,
        load,
        query,
        unload,
        members,
    );
}

} // verus!
