//! Reading PTX text piece by piece: which texts are read one behind the
//! other.

use crate::ptx;
use crate::ptx::{Entry, Token};
use vstd::prelude::*;
use vstd::string::StringSliceAdditionalSpecFns;

verus! {

/// A text that ends its last line.
pub open spec fn whole_lines(text: Seq<u8>) -> bool {
    text.len() == 0 || text.last() == 10
}

/// A text that ends in white space or in a mark, such as the closing brace
/// of a body.
pub open spec fn closed_end(text: Seq<u8>) -> bool {
    text.len() == 0 || ptx::is_space(text.last()) || ptx::is_mark(text.last())
}

/// A line comment goes on where a text ends.
pub open spec fn trailing_comment(text: Seq<u8>, at: int) -> bool
    decreases text.len() - at,
{
    if at >= text.len() {
        false
    } else if ptx::is_space(text[at]) {
        trailing_comment(text, at + 1)
    } else if ptx::opens_line_comment(text, at) {
        proof {
            ptx::line_ends_ahead(text, at + 2);
        }
        ptx::line_end(text, at + 2) >= text.len() || trailing_comment(
            text,
            ptx::line_end(text, at + 2),
        )
    } else if ptx::opens_block_comment(text, at) {
        proof {
            ptx::comment_ends_ahead(text, at + 2);
        }
        match ptx::comment_end(text, at + 2) {
            None => false,
            Some(end) => trailing_comment(text, end),
        }
    } else if text[at] == 34 {
        proof {
            ptx::quote_ends_ahead(text, at + 1);
        }
        match ptx::quote_end(text, at + 1) {
            None => false,
            Some(end) => trailing_comment(text, end + 1),
        }
    } else if ptx::is_mark(text[at]) {
        trailing_comment(text, at + 1)
    } else {
        proof {
            ptx::word_ends_ahead(text, at);
        }
        trailing_comment(text, ptx::word_end(text, at))
    }
}

/// Two texts are read one behind the other: no token, comment or quotation
/// runs across from one into the other.
pub open spec fn read_apart(left: Seq<u8>, right: Seq<u8>) -> bool {
    ptx::lex(left + right, 0) == (match ptx::lex(left, 0) {
        None => None::<Seq<Token>>,
        Some(read) => ptx::then_rest(read, ptx::lex(right, 0)),
    })
}

proof fn line_end_shifts(left: Seq<u8>, right: Seq<u8>, at: int)
    requires
        0 <= at,
    ensures
        ptx::line_end(left + right, left.len() + at) == left.len() + ptx::line_end(right, at),
    decreases right.len() - at,
{
    if at < right.len() {
        assert((left + right)[left.len() + at] == right[at]);
        if right[at] != 10 {
            line_end_shifts(left, right, at + 1);
        }
    }
}

proof fn comment_end_shifts(left: Seq<u8>, right: Seq<u8>, at: int)
    requires
        0 <= at,
    ensures
        ptx::comment_end(left + right, left.len() + at) == (match ptx::comment_end(right, at) {
            None => None::<int>,
            Some(end) => Some(left.len() + end),
        }),
    decreases right.len() - at,
{
    if at + 1 < right.len() {
        assert((left + right)[left.len() + at] == right[at]);
        assert((left + right)[left.len() + at + 1] == right[at + 1]);
        if !(right[at] == 42 && right[at + 1] == 47) {
            comment_end_shifts(left, right, at + 1);
        }
    }
}

proof fn quote_end_shifts(left: Seq<u8>, right: Seq<u8>, at: int)
    requires
        0 <= at,
    ensures
        ptx::quote_end(left + right, left.len() + at) == (match ptx::quote_end(right, at) {
            None => None::<int>,
            Some(end) => Some(left.len() + end),
        }),
    decreases right.len() - at,
{
    if at < right.len() {
        assert((left + right)[left.len() + at] == right[at]);
        if right[at] != 34 {
            quote_end_shifts(left, right, at + 1);
        }
    }
}

proof fn comments_shift(left: Seq<u8>, right: Seq<u8>, at: int)
    requires
        0 <= at,
    ensures
        ptx::opens_line_comment(left + right, left.len() + at) == ptx::opens_line_comment(
            right,
            at,
        ),
        ptx::opens_block_comment(left + right, left.len() + at) == ptx::opens_block_comment(
            right,
            at,
        ),
        ptx::ends_word(left + right, left.len() + at) == ptx::ends_word(right, at),
{
    if at < right.len() {
        assert((left + right)[left.len() + at] == right[at]);
    }
    if at + 1 < right.len() {
        assert((left + right)[left.len() + at + 1] == right[at + 1]);
    }
}

proof fn word_end_shifts(left: Seq<u8>, right: Seq<u8>, at: int)
    requires
        0 <= at,
    ensures
        ptx::word_end(left + right, left.len() + at) == left.len() + ptx::word_end(right, at),
    decreases right.len() - at,
{
    comments_shift(left, right, at);
    if !ptx::ends_word(right, at) {
        word_end_shifts(left, right, at + 1);
    }
}

proof fn lex_shifts(left: Seq<u8>, right: Seq<u8>, at: int)
    requires
        0 <= at,
    ensures
        ptx::lex(left + right, left.len() + at) == ptx::lex(right, at),
    decreases right.len() - at,
{
    let all = left + right;
    let here = left.len() + at;
    if at < right.len() {
        assert(all[here] == right[at]);
        comments_shift(left, right, at);
        if ptx::is_space(right[at]) {
            lex_shifts(left, right, at + 1);
        } else if ptx::opens_line_comment(right, at) {
            line_end_shifts(left, right, at + 2);
            ptx::line_ends_ahead(right, at + 2);
            lex_shifts(left, right, ptx::line_end(right, at + 2));
        } else if ptx::opens_block_comment(right, at) {
            comment_end_shifts(left, right, at + 2);
            ptx::comment_ends_ahead(right, at + 2);
            if let Some(end) = ptx::comment_end(right, at + 2) {
                lex_shifts(left, right, end);
            }
        } else if right[at] == 34 {
            quote_end_shifts(left, right, at + 1);
            ptx::quote_ends_ahead(right, at + 1);
            if let Some(end) = ptx::quote_end(right, at + 1) {
                lex_shifts(left, right, end + 1);
                assert(all.subrange(here + 1, left.len() + end) =~= right.subrange(at + 1, end));
            }
        } else if ptx::is_mark(right[at]) {
            lex_shifts(left, right, at + 1);
            assert(all.subrange(here, here + 1) =~= right.subrange(at, at + 1));
        } else {
            word_end_shifts(left, right, at);
            ptx::word_ends_ahead(right, at);
            let end = ptx::word_end(right, at);
            lex_shifts(left, right, end);
            assert(all.subrange(here, left.len() + end) =~= right.subrange(at, end));
        }
    }
}

proof fn line_end_stays(left: Seq<u8>, right: Seq<u8>, at: int)
    requires
        0 <= at,
        ptx::line_end(left, at) < left.len(),
    ensures
        ptx::line_end(left + right, at) == ptx::line_end(left, at),
    decreases left.len() - at,
{
    ptx::line_ends_ahead(left, at);
    assert((left + right)[at] == left[at]);
    if left[at] != 10 {
        line_end_stays(left, right, at + 1);
    }
}

proof fn comment_end_stays(left: Seq<u8>, right: Seq<u8>, at: int)
    requires
        0 <= at,
        ptx::comment_end(left, at) is Some,
    ensures
        ptx::comment_end(left + right, at) == ptx::comment_end(left, at),
    decreases left.len() - at,
{
    assert((left + right)[at] == left[at]);
    assert((left + right)[at + 1] == left[at + 1]);
    if !(left[at] == 42 && left[at + 1] == 47) {
        comment_end_stays(left, right, at + 1);
    }
}

proof fn quote_end_stays(left: Seq<u8>, right: Seq<u8>, at: int)
    requires
        0 <= at,
        ptx::quote_end(left, at) is Some,
    ensures
        ptx::quote_end(left + right, at) == ptx::quote_end(left, at),
    decreases left.len() - at,
{
    assert((left + right)[at] == left[at]);
    if left[at] != 34 {
        quote_end_stays(left, right, at + 1);
    }
}

proof fn comments_stay(left: Seq<u8>, right: Seq<u8>, at: int)
    requires
        closed_end(left),
        0 <= at < left.len(),
    ensures
        ptx::opens_line_comment(left + right, at) == ptx::opens_line_comment(left, at),
        ptx::opens_block_comment(left + right, at) == ptx::opens_block_comment(left, at),
        ptx::ends_word(left + right, at) == ptx::ends_word(left, at),
{
    assert((left + right)[at] == left[at]);
    if at + 1 < left.len() {
        assert((left + right)[at + 1] == left[at + 1]);
    }
}

proof fn word_end_stays(left: Seq<u8>, right: Seq<u8>, at: int)
    requires
        closed_end(left),
        0 <= at < left.len(),
    ensures
        ptx::word_end(left + right, at) == ptx::word_end(left, at),
        ptx::word_end(left, at) < left.len(),
    decreases left.len() - at,
{
    comments_stay(left, right, at);
    if !ptx::ends_word(left, at) {
        word_end_stays(left, right, at + 1);
    }
}

proof fn then_followed(first: Token, read: Seq<Token>, rest: Option<Seq<Token>>)
    ensures
        ptx::followed_by(first, ptx::then_rest(read, rest)) == ptx::then_rest(
            seq![first] + read,
            rest,
        ),
{
    if let Some(rest) = rest {
        assert(seq![first] + (read + rest) =~= (seq![first] + read) + rest);
    }
}

proof fn lex_stays(left: Seq<u8>, right: Seq<u8>, at: int)
    requires
        closed_end(left),
        !trailing_comment(left, at),
        0 <= at <= left.len(),
        ptx::lex(left, at) is Some,
    ensures
        ptx::lex(left + right, at) == ptx::then_rest(ptx::lex(left, at)->0, ptx::lex(right, 0)),
    decreases left.len() - at,
{
    let all = left + right;
    let rest = ptx::lex(right, 0);
    if at >= left.len() {
        lex_shifts(left, right, 0);
        if let Some(rest) = rest {
            assert(Seq::<Token>::empty() + rest =~= rest);
        }
    } else {
        assert(all[at] == left[at]);
        comments_stay(left, right, at);
        if ptx::is_space(left[at]) {
            lex_stays(left, right, at + 1);
        } else if ptx::opens_line_comment(left, at) {
            line_end_stays(left, right, at + 2);
            ptx::line_ends_ahead(left, at + 2);
            lex_stays(left, right, ptx::line_end(left, at + 2));
        } else if ptx::opens_block_comment(left, at) {
            comment_end_stays(left, right, at + 2);
            ptx::comment_ends_ahead(left, at + 2);
            lex_stays(left, right, ptx::comment_end(left, at + 2)->0);
        } else if left[at] == 34 {
            quote_end_stays(left, right, at + 1);
            ptx::quote_ends_ahead(left, at + 1);
            let end = ptx::quote_end(left, at + 1)->0;
            lex_stays(left, right, end + 1);
            assert(all.subrange(at + 1, end) =~= left.subrange(at + 1, end));
            then_followed(
                Token { text: left.subrange(at + 1, end), quoted: true },
                ptx::lex(left, end + 1)->0,
                rest,
            );
        } else if ptx::is_mark(left[at]) {
            lex_stays(left, right, at + 1);
            assert(all.subrange(at, at + 1) =~= left.subrange(at, at + 1));
            then_followed(
                Token { text: left.subrange(at, at + 1), quoted: false },
                ptx::lex(left, at + 1)->0,
                rest,
            );
        } else {
            word_end_stays(left, right, at);
            ptx::word_ends_ahead(left, at);
            let end = ptx::word_end(left, at);
            lex_stays(left, right, end);
            assert(all.subrange(at, end) =~= left.subrange(at, end));
            then_followed(
                Token { text: left.subrange(at, end), quoted: false },
                ptx::lex(left, end)->0,
                rest,
            );
        }
    }
}

/// A text that ends in white space or in a mark, and in no line comment, is
/// read apart from whatever is written behind it.
pub proof fn closed_texts_are_read_apart(left: Seq<u8>, right: Seq<u8>)
    requires
        closed_end(left),
        !trailing_comment(left, 0),
        ptx::lex(left, 0) is Some,
    ensures
        read_apart(left, right),
{
    lex_stays(left, right, 0);
}

proof fn lines_end_within(text: Seq<u8>, at: int)
    requires
        whole_lines(text),
        0 <= at < text.len(),
    ensures
        ptx::line_end(text, at) < text.len(),
    decreases text.len() - at,
{
    if text[at] != 10 {
        lines_end_within(text, at + 1);
    }
}

proof fn whole_lines_end_their_comments(text: Seq<u8>, at: int)
    requires
        whole_lines(text),
        0 <= at,
    ensures
        !trailing_comment(text, at),
    decreases text.len() - at,
{
    if at < text.len() {
        ptx::line_ends_ahead(text, at + 2);
        ptx::comment_ends_ahead(text, at + 2);
        ptx::quote_ends_ahead(text, at + 1);
        ptx::word_ends_ahead(text, at);
        if ptx::is_space(text[at]) {
            whole_lines_end_their_comments(text, at + 1);
        } else if ptx::opens_line_comment(text, at) {
            lines_end_within(text, at + 2);
            whole_lines_end_their_comments(text, ptx::line_end(text, at + 2));
        } else if ptx::opens_block_comment(text, at) {
            if let Some(end) = ptx::comment_end(text, at + 2) {
                whole_lines_end_their_comments(text, end);
            }
        } else if text[at] == 34 {
            if let Some(end) = ptx::quote_end(text, at + 1) {
                whole_lines_end_their_comments(text, end + 1);
            }
        } else if ptx::is_mark(text[at]) {
            whole_lines_end_their_comments(text, at + 1);
        } else {
            whole_lines_end_their_comments(text, ptx::word_end(text, at));
        }
    }
}

/// A text that ends its last line is read apart from whatever is written
/// behind it.
pub proof fn whole_lines_are_read_apart(left: Seq<u8>, right: Seq<u8>)
    requires
        whole_lines(left),
        ptx::lex(left, 0) is Some,
    ensures
        read_apart(left, right),
{
    whole_lines_end_their_comments(left, 0);
    closed_texts_are_read_apart(left, right);
}

/// A line comment holds no token.
pub proof fn line_comments_hold_no_token(text: Seq<u8>)
    requires
        ptx::opens_line_comment(text, 0),
        whole_lines(text),
        forall|i: int| 0 <= i < text.len() - 1 ==> #[trigger] text[i] != 10,
    ensures
        ptx::lex(text, 0) == Some(Seq::<Token>::empty()),
{
    comment_reaches_its_line_end(text, 2);
    let end = text.len() - 1;
    assert(ptx::lex(text, end + 1) == Some(Seq::<Token>::empty()));
    assert(ptx::lex(text, end) == ptx::lex(text, end + 1));
}

proof fn comment_reaches_its_line_end(text: Seq<u8>, at: int)
    requires
        0 <= at < text.len(),
        text.last() == 10,
        forall|i: int| 0 <= i < text.len() - 1 ==> #[trigger] text[i] != 10,
    ensures
        ptx::line_end(text, at) == text.len() - 1,
    decreases text.len() - at,
{
    if at < text.len() - 1 {
        assert(text[at] != 10);
        comment_reaches_its_line_end(text, at + 1);
    }
}

proof fn opening_shifts(left: Seq<Token>, right: Seq<Token>, at: int)
    requires
        0 <= at,
    ensures
        ptx::opening(left + right, left.len() + at) == (match ptx::opening(right, at) {
            None => None::<int>,
            Some(open) => Some(left.len() + open),
        }),
    decreases right.len() - at,
{
    if at < right.len() {
        assert((left + right)[left.len() + at] == right[at]);
        opening_shifts(left, right, at + 1);
    }
}

proof fn closing_shifts(left: Seq<Token>, right: Seq<Token>, at: int, depth: nat)
    requires
        0 <= at,
    ensures
        ptx::closing(left + right, left.len() + at, depth) == (match ptx::closing(
            right,
            at,
            depth,
        ) {
            None => None::<int>,
            Some(close) => Some(left.len() + close),
        }),
    decreases right.len() - at,
{
    if at < right.len() {
        assert((left + right)[left.len() + at] == right[at]);
        closing_shifts(left, right, at + 1, depth + 1);
        closing_shifts(left, right, at + 1, depth);
        if depth > 0 {
            closing_shifts(left, right, at + 1, (depth - 1) as nat);
        }
    }
}

proof fn entries_shift(left: Seq<Token>, right: Seq<Token>, at: int)
    requires
        0 <= at,
    ensures
        ptx::entries_from(left + right, left.len() + at) == ptx::entries_from(right, at),
    decreases right.len() - at,
{
    let all = left + right;
    let here = left.len() + at;
    if at < right.len() {
        assert(all[here] == right[at]);
        if !ptx::reads(right[at], ".entry".spec_bytes()) {
            entries_shift(left, right, at + 1);
        } else {
            opening_shifts(left, right, at + 2);
            ptx::opening_is_ahead(right, at + 2);
            if let Some(open) = ptx::opening(right, at + 2) {
                closing_shifts(left, right, open + 1, 0);
                ptx::closing_is_ahead(right, open + 1, 0);
                if let Some(close) = ptx::closing(right, open + 1, 0) {
                    entries_shift(left, right, close + 1);
                    same_entry(
                        all,
                        here,
                        left.len() + open,
                        left.len() + close,
                        right,
                        at,
                        open,
                        close,
                    );
                }
            }
        }
    }
}

proof fn same_entry(
    all: Seq<Token>,
    here: int,
    opened: int,
    closed: int,
    part: Seq<Token>,
    at: int,
    open: int,
    close: int,
)
    requires
        0 <= at,
        at + 2 <= open < close < part.len(),
        0 <= here,
        opened - here == open - at,
        closed - here == close - at,
        closed < all.len(),
        forall|i: int| at <= i <= close ==> #[trigger] part[i] == all[here - at + i],
    ensures
        ptx::entry_of(all, here, opened, closed) == ptx::entry_of(part, at, open, close),
{
    assert(all[here + 1] == part[at + 1]);
    assert(all.subrange(here + 2, opened) =~= part.subrange(at + 2, open));
    assert(all.subrange(opened + 1, closed) =~= part.subrange(open + 1, close));
}

proof fn opening_stays(left: Seq<Token>, right: Seq<Token>, at: int)
    requires
        0 <= at,
        ptx::opening(left, at) is Some,
    ensures
        ptx::opening(left + right, at) == ptx::opening(left, at),
    decreases left.len() - at,
{
    assert((left + right)[at] == left[at]);
    if !ptx::reads(left[at], "{".spec_bytes()) {
        opening_stays(left, right, at + 1);
    }
}

proof fn closing_stays(left: Seq<Token>, right: Seq<Token>, at: int, depth: nat)
    requires
        0 <= at,
        ptx::closing(left, at, depth) is Some,
    ensures
        ptx::closing(left + right, at, depth) == ptx::closing(left, at, depth),
    decreases left.len() - at,
{
    assert((left + right)[at] == left[at]);
    if ptx::reads(left[at], "{".spec_bytes()) {
        closing_stays(left, right, at + 1, depth + 1);
    } else if ptx::reads(left[at], "}".spec_bytes()) {
        if depth > 0 {
            closing_stays(left, right, at + 1, (depth - 1) as nat);
        }
    } else {
        closing_stays(left, right, at + 1, depth);
    }
}

/// Entries that were read and what follows them.
pub open spec fn then_entries(read: Seq<Entry>, rest: Option<Seq<Entry>>) -> Option<Seq<Entry>> {
    match rest {
        None => None,
        Some(rest) => Some(read + rest),
    }
}

proof fn entries_stay(left: Seq<Token>, right: Seq<Token>, at: int)
    requires
        0 <= at <= left.len(),
        ptx::entries_from(left, at) is Some,
    ensures
        ptx::entries_from(left + right, at) == then_entries(
            ptx::entries_from(left, at)->0,
            ptx::entries_from(right, 0),
        ),
    decreases left.len() - at,
{
    let all = left + right;
    let rest = ptx::entries_from(right, 0);
    if at >= left.len() {
        entries_shift(left, right, 0);
        if let Some(rest) = rest {
            assert(Seq::<Entry>::empty() + rest =~= rest);
        }
    } else {
        assert(all[at] == left[at]);
        if !ptx::reads(left[at], ".entry".spec_bytes()) {
            entries_stay(left, right, at + 1);
        } else {
            opening_stays(left, right, at + 2);
            ptx::opening_is_ahead(left, at + 2);
            let open = ptx::opening(left, at + 2)->0;
            closing_stays(left, right, open + 1, 0);
            ptx::closing_is_ahead(left, open + 1, 0);
            let close = ptx::closing(left, open + 1, 0)->0;
            entries_stay(left, right, close + 1);
            assert forall|i: int| at <= i <= close implies #[trigger] left[i] == all[i] by {}
            same_entry(all, at, open, close, left, at, open, close);
            let entry = ptx::entry_of(left, at, open, close);
            let read = ptx::entries_from(left, close + 1)->0;
            if let Some(rest) = rest {
                assert(seq![entry] + (read + rest) =~= (seq![entry] + read) + rest);
            }
        }
    }
}

/// The entries of tokens that are well formed on their own stand ahead of
/// those of the tokens behind them.
pub proof fn token_runs_are_parsed_apart(left: Seq<Token>, right: Seq<Token>)
    requires
        ptx::entries_from(left, 0) is Some,
    ensures
        ptx::entries_from(left + right, 0) == then_entries(
            ptx::entries_from(left, 0)->0,
            ptx::entries_from(right, 0),
        ),
{
    entries_stay(left, right, 0);
}

/// The entries of a text that is well formed on its own, and read apart from
/// the text behind it, stand ahead of those of that text.
pub proof fn texts_are_parsed_apart(left: Seq<u8>, right: Seq<u8>)
    requires
        read_apart(left, right),
        ptx::ptx_entries(left) is Some,
    ensures
        ptx::ptx_entries(left + right) == then_entries(
            ptx::ptx_entries(left)->0,
            ptx::ptx_entries(right),
        ),
{
    let l = ptx::lex(left, 0)->0;
    if let Some(r) = ptx::lex(right, 0) {
        token_runs_are_parsed_apart(l, r);
    }
}

} // verus!
