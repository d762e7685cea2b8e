//! What editing a text does to the members that it exports.

use crate::inference_ptx;
use crate::inference_ptx::{
    InferenceSm89PtxAdmission, PtxFault, EXACT_SYMBOL, HALF_BF16_SYMBOL, HALF_F16_SYMBOL,
};
use crate::ptx;
use crate::ptx::{Entry, Token};
use crate::ptx_laws;
use vstd::prelude::*;
use vstd::string::StringSliceAdditionalSpecFns;

verus! {

/// The entries of a name, in order.
pub open spec fn named(entries: Seq<Entry>, symbol: Seq<u8>) -> Seq<Entry>
    decreases entries.len(),
{
    if entries.len() == 0 {
        Seq::empty()
    } else if entries[0].symbol == symbol {
        seq![entries[0]] + named(entries.skip(1), symbol)
    } else {
        named(entries.skip(1), symbol)
    }
}

proof fn names_of_parts(left: Seq<Entry>, right: Seq<Entry>, symbol: Seq<u8>)
    ensures
        named(left + right, symbol) == named(left, symbol) + named(right, symbol),
    decreases left.len(),
{
    let all = left + right;
    if left.len() == 0 {
        assert(all =~= right);
        assert(named(left, symbol) + named(right, symbol) =~= named(right, symbol));
    } else {
        assert(all[0] == left[0]);
        assert(all.skip(1) =~= left.skip(1) + right);
        names_of_parts(left.skip(1), right, symbol);
        assert(named(all, symbol) =~= named(left, symbol) + named(right, symbol));
    }
}

proof fn names_behind(entries: Seq<Entry>, symbol: Seq<u8>, at: int)
    requires
        0 <= at <= entries.len(),
    ensures
        match inference_ptx::find_entry(entries, symbol, at) {
            None => named(entries.skip(at), symbol).len() == 0,
            Some(found) => {
                &&& at <= found < entries.len()
                &&& named(entries.skip(at), symbol) == seq![entries[found]] + named(
                    entries.skip(found + 1),
                    symbol,
                )
            },
        },
    decreases entries.len() - at,
{
    let behind = entries.skip(at);
    if at < entries.len() {
        assert(behind[0] == entries[at]);
        assert(behind.skip(1) =~= entries.skip(at + 1));
        if entries[at].symbol != symbol {
            names_behind(entries, symbol, at + 1);
        }
    }
}

proof fn names_decide(entries: Seq<Entry>, symbol: &'static str)
    ensures
        inference_ptx::exported_twice(entries, symbol.spec_bytes()) == (named(
            entries,
            symbol.spec_bytes(),
        ).len() >= 2),
        inference_ptx::member_entry(entries, symbol) == (if named(
            entries,
            symbol.spec_bytes(),
        ).len() == 0 {
            None::<Entry>
        } else {
            Some(named(entries, symbol.spec_bytes())[0])
        }),
{
    let name = symbol.spec_bytes();
    assert(entries.skip(0) =~= entries);
    names_behind(entries, name, 0);
    if let Some(at) = inference_ptx::find_entry(entries, name, 0) {
        names_behind(entries, name, at + 1);
    }
}

/// A name that the bundle knows.
pub open spec fn is_member(symbol: Seq<u8>) -> bool {
    ||| symbol == HALF_BF16_SYMBOL.spec_bytes()
    ||| symbol == HALF_F16_SYMBOL.spec_bytes()
    ||| symbol == EXACT_SYMBOL.spec_bytes()
}

/// No entry of a list is a member.
pub open spec fn no_members(entries: Seq<Entry>) -> bool {
    forall|i: int| 0 <= i < entries.len() ==> !is_member((#[trigger] entries[i]).symbol)
}

/// Every member is admitted.
pub open spec fn all_admitted(text: Seq<u8>) -> bool {
    let admission = inference_ptx::ptx_admission(text);
    &&& admission.half_f32out_s3_bf16 is Ok
    &&& admission.half_f32out_s3_f16 is Ok
    &&& admission.exact_m128n64_tail is Ok
}

proof fn unnamed_entries_have_no_members(entries: Seq<Entry>, symbol: Seq<u8>)
    requires
        no_members(entries),
        is_member(symbol),
    ensures
        named(entries, symbol) == Seq::<Entry>::empty(),
    decreases entries.len(),
{
    if entries.len() > 0 {
        assert(!is_member(entries[0].symbol));
        assert forall|i: int| 0 <= i < entries.skip(1).len() implies !is_member(
            (#[trigger] entries.skip(1)[i]).symbol,
        ) by {
            assert(entries.skip(1)[i] == entries[i + 1]);
        }
        unnamed_entries_have_no_members(entries.skip(1), symbol);
    }
}

proof fn equal_names_admit_alike(left: Seq<Entry>, right: Seq<Entry>)
    requires
        forall|symbol: Seq<u8>|
            is_member(symbol) ==> #[trigger] named(left, symbol) == named(right, symbol),
    ensures
        inference_ptx::entries_admission(left) == inference_ptx::entries_admission(right),
{
    names_decide(left, HALF_BF16_SYMBOL);
    names_decide(left, HALF_F16_SYMBOL);
    names_decide(left, EXACT_SYMBOL);
    names_decide(right, HALF_BF16_SYMBOL);
    names_decide(right, HALF_F16_SYMBOL);
    names_decide(right, EXACT_SYMBOL);
    assert(named(left, HALF_BF16_SYMBOL.spec_bytes()) == named(
        right,
        HALF_BF16_SYMBOL.spec_bytes(),
    ));
    assert(named(left, HALF_F16_SYMBOL.spec_bytes()) == named(
        right,
        HALF_F16_SYMBOL.spec_bytes(),
    ));
    assert(named(left, EXACT_SYMBOL.spec_bytes()) == named(right, EXACT_SYMBOL.spec_bytes()));
    if inference_ptx::duplicate_member(left) is None {
        inference_ptx::members_are_admitted_each_on_its_own(left, right);
    }
}

/// Two texts that differ in kernels of other names alone admit the same
/// members. `head`, `others` and `tail` are the tokens of the texts: how they
/// are written, and where lines end, does not matter.
pub proof fn other_kernels_change_nothing(
    text: Seq<u8>,
    more: Seq<u8>,
    head: Seq<Token>,
    others: Seq<Token>,
    tail: Seq<Token>,
)
    requires
        ptx::lex(text, 0) == Some(head + tail),
        ptx::lex(more, 0) == Some(head + (others + tail)),
        ptx::entries_from(head, 0) is Some,
        ptx::entries_from(others, 0) matches Some(entries) && no_members(entries),
    ensures
        inference_ptx::ptx_admission(more) == inference_ptx::ptx_admission(text),
{
    let h = ptx::entries_from(head, 0)->0;
    let o = ptx::entries_from(others, 0)->0;
    ptx_laws::token_runs_are_parsed_apart(head, others + tail);
    ptx_laws::token_runs_are_parsed_apart(others, tail);
    ptx_laws::token_runs_are_parsed_apart(head, tail);
    if let Some(t) = ptx::entries_from(tail, 0) {
        assert forall|symbol: Seq<u8>| is_member(symbol) implies #[trigger] named(
            h + (o + t),
            symbol,
        ) == named(h + t, symbol) by {
            names_of_parts(h, o + t, symbol);
            names_of_parts(o, t, symbol);
            names_of_parts(h, t, symbol);
            unnamed_entries_have_no_members(o, symbol);
            assert(Seq::<Entry>::empty() + named(t, symbol) =~= named(t, symbol));
        }
        equal_names_admit_alike(h + (o + t), h + t);
    }
}

/// Kernels of other names that are written into a text change nothing for
/// the members, wherever they are read apart from what stands around them.
pub proof fn other_texts_do_not_matter(head: Seq<u8>, others: Seq<u8>, tail: Seq<u8>)
    requires
        ptx_laws::read_apart(head, others + tail),
        ptx_laws::read_apart(others, tail),
        ptx_laws::read_apart(head, tail),
        ptx::ptx_entries(head) is Some,
        ptx::ptx_entries(others) matches Some(entries) && no_members(entries),
    ensures
        inference_ptx::ptx_admission(head + others + tail) == inference_ptx::ptx_admission(
            head + tail,
        ),
{
    assert(head + others + tail =~= head + (others + tail));
    if let Some(t) = ptx::lex(tail, 0) {
        other_kernels_change_nothing(
            head + tail,
            head + others + tail,
            ptx::lex(head, 0)->0,
            ptx::lex(others, 0)->0,
            t,
        );
    }
}

proof fn single_name(entry: Entry, symbol: Seq<u8>)
    ensures
        named(seq![entry], symbol) == (if entry.symbol == symbol {
            seq![entry]
        } else {
            Seq::empty()
        }),
{
    let one = seq![entry];
    assert(one.skip(1) =~= Seq::<Entry>::empty());
    assert(named(one.skip(1), symbol) =~= Seq::<Entry>::empty());
    assert(seq![entry] + Seq::<Entry>::empty() =~= seq![entry]);
}

proof fn removed_names(
    h: Seq<Entry>,
    entry: Entry,
    t: Seq<Entry>,
    symbol: Seq<u8>,
)
    requires
        named(h + (seq![entry] + t), symbol).len() <= 1,
    ensures
        named(h + t, symbol) == (if entry.symbol == symbol {
            Seq::empty()
        } else {
            named(h + (seq![entry] + t), symbol)
        }),
{
    names_of_parts(h, seq![entry] + t, symbol);
    names_of_parts(seq![entry], t, symbol);
    names_of_parts(h, t, symbol);
    single_name(entry, symbol);
    if entry.symbol == symbol {
        assert(named(h, symbol).len() + 1 + named(t, symbol).len() <= 1);
        assert(named(h + t, symbol) =~= Seq::<Entry>::empty());
    } else {
        assert(Seq::<Entry>::empty() + named(t, symbol) =~= named(t, symbol));
    }
}

/// Only the member of an entry is missing, its siblings are admitted.
pub open spec fn only_missing(admission: InferenceSm89PtxAdmission, entry: Entry) -> bool {
    let verdict = |symbol: &'static str|
        if entry.symbol == symbol.spec_bytes() {
            Err::<(), PtxFault>(PtxFault::MissingEntry)
        } else {
            Ok::<(), PtxFault>(())
        };
    &&& admission.half_f32out_s3_bf16 == verdict(HALF_BF16_SYMBOL)
    &&& admission.half_f32out_s3_f16 == verdict(HALF_F16_SYMBOL)
    &&& admission.exact_m128n64_tail == verdict(EXACT_SYMBOL)
}

#[verifier::spinoff_prover]
#[verifier::rlimit(60)]
proof fn removed_entries_spare_their_siblings(h: Seq<Entry>, entry: Entry, t: Seq<Entry>)
    requires
        inference_ptx::entries_admission(h + (seq![entry] + t)).half_f32out_s3_bf16 is Ok,
        inference_ptx::entries_admission(h + (seq![entry] + t)).half_f32out_s3_f16 is Ok,
        inference_ptx::entries_admission(h + (seq![entry] + t)).exact_m128n64_tail is Ok,
    ensures
        only_missing(inference_ptx::entries_admission(h + t), entry),
{
    let before = h + (seq![entry] + t);
    let after = h + t;
    assert(inference_ptx::duplicate_member(before) is None);
    names_decide(before, HALF_BF16_SYMBOL);
    names_decide(before, HALF_F16_SYMBOL);
    names_decide(before, EXACT_SYMBOL);
    removed_names(h, entry, t, HALF_BF16_SYMBOL.spec_bytes());
    removed_names(h, entry, t, HALF_F16_SYMBOL.spec_bytes());
    removed_names(h, entry, t, EXACT_SYMBOL.spec_bytes());
    names_decide(after, HALF_BF16_SYMBOL);
    names_decide(after, HALF_F16_SYMBOL);
    names_decide(after, EXACT_SYMBOL);
    assert(inference_ptx::duplicate_member(after) is None);
    inference_ptx::members_are_admitted_each_on_its_own(before, after);
}

/// Replacing one member of a text that exports all of them by kernels of
/// other names, or by nothing, makes that member missing. Its siblings stay
/// admitted. `head`, `member`, `others` and `tail` are the tokens of the
/// texts: how they are written, and where lines end, does not matter. A
/// renamed member is a kernel of another name.
pub proof fn replacing_a_member_spares_its_siblings(
    text: Seq<u8>,
    edited: Seq<u8>,
    head: Seq<Token>,
    member: Seq<Token>,
    others: Seq<Token>,
    tail: Seq<Token>,
    entry: Entry,
)
    requires
        ptx::lex(text, 0) == Some(head + (member + tail)),
        ptx::lex(edited, 0) == Some(head + (others + tail)),
        ptx::entries_from(head, 0) is Some,
        ptx::entries_from(member, 0) == Some(seq![entry]),
        ptx::entries_from(others, 0) matches Some(entries) && no_members(entries),
        all_admitted(text),
    ensures
        only_missing(inference_ptx::ptx_admission(edited), entry),
{
    let h = ptx::entries_from(head, 0)->0;
    let o = ptx::entries_from(others, 0)->0;
    ptx_laws::token_runs_are_parsed_apart(head, member + tail);
    ptx_laws::token_runs_are_parsed_apart(member, tail);
    ptx_laws::token_runs_are_parsed_apart(head, others + tail);
    ptx_laws::token_runs_are_parsed_apart(others, tail);
    let t = ptx::entries_from(tail, 0)->0;
    removed_entries_spare_their_siblings(h, entry, t);
    assert forall|symbol: Seq<u8>| is_member(symbol) implies #[trigger] named(
        h + (o + t),
        symbol,
    ) == named(h + t, symbol) by {
        names_of_parts(h, o + t, symbol);
        names_of_parts(o, t, symbol);
        names_of_parts(h, t, symbol);
        unnamed_entries_have_no_members(o, symbol);
        assert(Seq::<Entry>::empty() + named(t, symbol) =~= named(t, symbol));
    }
    equal_names_admit_alike(h + (o + t), h + t);
}

/// Removing the text of one member from a text that exports all of them
/// makes that member missing, wherever the member is read apart from what
/// stands around it. Its siblings stay admitted.
pub proof fn removing_a_member_spares_its_siblings(
    head: Seq<u8>,
    member: Seq<u8>,
    tail: Seq<u8>,
    entry: Entry,
)
    requires
        ptx_laws::read_apart(head, member + tail),
        ptx_laws::read_apart(member, tail),
        ptx_laws::read_apart(head, tail),
        ptx::ptx_entries(head) is Some,
        ptx::ptx_entries(member) == Some(seq![entry]),
        all_admitted(head + member + tail),
    ensures
        only_missing(inference_ptx::ptx_admission(head + tail), entry),
{
    assert(head + member + tail =~= head + (member + tail));
    let t = ptx::lex(tail, 0)->0;
    let none = Seq::<Token>::empty();
    assert(none + t =~= t);
    replacing_a_member_spares_its_siblings(
        head + member + tail,
        head + tail,
        ptx::lex(head, 0)->0,
        ptx::lex(member, 0)->0,
        none,
        t,
        entry,
    );
}

/// Renaming a member of a text that exports all of them to a name that the
/// bundle does not know makes that member missing, wherever the member is
/// read apart from what stands around it. Its siblings stay admitted.
pub proof fn renaming_a_member_removes_it(
    head: Seq<u8>,
    member: Seq<u8>,
    renamed: Seq<u8>,
    tail: Seq<u8>,
    entry: Entry,
    other: Entry,
)
    requires
        ptx_laws::read_apart(head, member + tail),
        ptx_laws::read_apart(member, tail),
        ptx_laws::read_apart(head, renamed + tail),
        ptx_laws::read_apart(renamed, tail),
        ptx::ptx_entries(head) is Some,
        ptx::ptx_entries(member) == Some(seq![entry]),
        ptx::ptx_entries(renamed) == Some(seq![other]),
        !is_member(other.symbol),
        all_admitted(head + member + tail),
    ensures
        only_missing(inference_ptx::ptx_admission(head + renamed + tail), entry),
{
    assert(head + member + tail =~= head + (member + tail));
    assert(head + renamed + tail =~= head + (renamed + tail));
    assert(no_members(seq![other]));
    replacing_a_member_spares_its_siblings(
        head + member + tail,
        head + renamed + tail,
        ptx::lex(head, 0)->0,
        ptx::lex(member, 0)->0,
        ptx::lex(renamed, 0)->0,
        ptx::lex(tail, 0)->0,
        entry,
    );
}

/// An entry with tokens inserted into its body.
pub open spec fn inserted(entry: Entry, at: int, more: Seq<Token>) -> Entry {
    Entry {
        body: entry.body.subrange(0, at) + more + entry.body.subrange(
            at,
            entry.body.len() as int,
        ),
        ..entry
    }
}

proof fn edited_bodies_keep_their_names(
    entries: Seq<Entry>,
    index: int,
    edited: Entry,
    symbol: Seq<u8>,
    from: int,
)
    requires
        0 <= index < entries.len(),
        edited.symbol == entries[index].symbol,
        0 <= from,
    ensures
        inference_ptx::find_entry(entries.update(index, edited), symbol, from)
            == inference_ptx::find_entry(entries, symbol, from),
    decreases entries.len() - from,
{
    if from < entries.len() {
        assert(entries.update(index, edited)[from].symbol == entries[from].symbol);
        edited_bodies_keep_their_names(entries, index, edited, symbol, from + 1);
    }
}

/// One more instruction with forbidden work, anywhere in the body of the
/// exact member of a parsed text, refuses the member.
pub proof fn inserted_work_refuses_the_exact_entry(
    entries: Seq<Entry>,
    index: int,
    at: int,
    instruction: Seq<Token>,
    forbidden: int,
)
    requires
        inference_ptx::find_entry(entries, EXACT_SYMBOL.spec_bytes(), 0) == Some(index),
        0 <= index < entries.len(),
        0 <= at <= entries[index].body.len(),
        0 <= forbidden < instruction.len(),
        inference_ptx::forbidden_token(instruction[forbidden], None),
    ensures
        inference_ptx::exact_member_fault(
            entries.update(index, inserted(entries[index], at, instruction)),
        ) is Some,
{
    let edited = inserted(entries[index], at, instruction);
    edited_bodies_keep_their_names(entries, index, edited, EXACT_SYMBOL.spec_bytes(), 0);
    inference_ptx::inserted_work_refuses_the_exact_member(
        entries[index],
        at,
        instruction,
        forbidden,
    );
}

/// A quotation in the body of the exact member of a parsed text is neither
/// forbidden work nor the product that the member must hold. It can only
/// stand between a wait for copies and its count.
pub proof fn inserted_quotations_are_no_work(
    entries: Seq<Entry>,
    index: int,
    at: int,
    quotation: Token,
)
    requires
        inference_ptx::find_entry(entries, EXACT_SYMBOL.spec_bytes(), 0) == Some(index),
        0 <= index < entries.len(),
        0 <= at <= entries[index].body.len(),
        quotation.quoted,
    ensures
        ({
            let before = inference_ptx::exact_member_fault(entries);
            let edited = inserted(entries[index], at, seq![quotation]);
            let after = inference_ptx::exact_member_fault(entries.update(index, edited));
            &&& before is None ==> (after is None || after == Some(PtxFault::IncompleteProtocol))
            &&& before is None && inference_ptx::awaits_groups(edited.body, "0".spec_bytes())
                ==> after is None
            &&& before == Some(PtxFault::MissingOpcode("fma.rn.f32")) ==> after == before
        }),
{
    let edited = inserted(entries[index], at, seq![quotation]);
    let body = entries[index].body;
    edited_bodies_keep_their_names(entries, index, edited, EXACT_SYMBOL.spec_bytes(), 0);
    assert(edited.body =~= body.insert(at, quotation));
    inference_ptx::inserted_quotations_do_not_count(
        body,
        at,
        quotation,
        "fma.rn.f32".spec_bytes(),
        None,
    );
    inference_ptx::inserted_quotations_do_not_count(
        body,
        at,
        quotation,
        "cp.async.commit_group".spec_bytes(),
        None,
    );
}

} // verus!
