//! Tokens and kernel entries of PTX text.

use crate::text::same_bytes;
use vstd::prelude::*;
use vstd::string::StringSliceAdditionalSpecFns;

verus! {

/// White space.
#[verifier::allow_in_spec]
pub fn is_space(byte: u8) -> bool
    returns
        byte == 32 || 9 <= byte && byte <= 13,
{
    byte == 32 || 9 <= byte && byte <= 13
}

/// A byte that is a token of its own: a bracket, a brace, a parenthesis, a
/// comma or a semicolon.
#[verifier::allow_in_spec]
pub fn is_mark(byte: u8) -> bool
    returns
        byte == 40 || byte == 41 || byte == 44 || byte == 59 || byte == 91 || byte == 93 || byte
            == 123 || byte == 125,
{
    byte == 40 || byte == 41 || byte == 44 || byte == 59 || byte == 91 || byte == 93 || byte == 123
        || byte == 125
}

/// A line comment starts here.
pub open spec fn opens_line_comment(text: Seq<u8>, at: int) -> bool {
    at + 1 < text.len() && text[at] == 47 && text[at + 1] == 47
}

/// A block comment starts here.
pub open spec fn opens_block_comment(text: Seq<u8>, at: int) -> bool {
    at + 1 < text.len() && text[at] == 47 && text[at + 1] == 42
}

/// No word goes on here.
pub open spec fn ends_word(text: Seq<u8>, at: int) -> bool {
    ||| at >= text.len()
    ||| is_space(text[at])
    ||| is_mark(text[at])
    ||| text[at] == 34
    ||| opens_line_comment(text, at)
    ||| opens_block_comment(text, at)
}

/// Where the line ends.
pub open spec fn line_end(text: Seq<u8>, at: int) -> int
    decreases text.len() - at,
{
    if at >= text.len() || text[at] == 10 {
        at
    } else {
        line_end(text, at + 1)
    }
}

/// Behind the end of a block comment.
pub open spec fn comment_end(text: Seq<u8>, at: int) -> Option<int>
    decreases text.len() - at,
{
    if at + 1 >= text.len() {
        None
    } else if text[at] == 42 && text[at + 1] == 47 {
        Some(at + 2)
    } else {
        comment_end(text, at + 1)
    }
}

/// Where a quotation ends.
pub open spec fn quote_end(text: Seq<u8>, at: int) -> Option<int>
    decreases text.len() - at,
{
    if at >= text.len() {
        None
    } else if text[at] == 34 {
        Some(at)
    } else {
        quote_end(text, at + 1)
    }
}

/// Where a word ends.
pub open spec fn word_end(text: Seq<u8>, at: int) -> int
    decreases text.len() - at,
{
    if ends_word(text, at) {
        at
    } else {
        word_end(text, at + 1)
    }
}

/// A line ends ahead of where it is looked at.
pub proof fn line_ends_ahead(text: Seq<u8>, at: int)
    ensures
        at <= line_end(text, at),
        at <= text.len() ==> line_end(text, at) <= text.len(),
    decreases text.len() - at,
{
    if !(at >= text.len() || text[at] == 10) {
        line_ends_ahead(text, at + 1);
    }
}

/// A block comment ends ahead of where it starts.
pub proof fn comment_ends_ahead(text: Seq<u8>, at: int)
    ensures
        comment_end(text, at) matches Some(end) ==> at + 2 <= end <= text.len(),
    decreases text.len() - at,
{
    if !(at + 1 >= text.len() || text[at] == 42 && text[at + 1] == 47) {
        comment_ends_ahead(text, at + 1);
    }
}

/// A quotation ends ahead of where it starts.
pub proof fn quote_ends_ahead(text: Seq<u8>, at: int)
    ensures
        quote_end(text, at) matches Some(end) ==> at <= end < text.len(),
    decreases text.len() - at,
{
    if at < text.len() && text[at] != 34 {
        quote_ends_ahead(text, at + 1);
    }
}

/// A word ends ahead of where it starts.
pub proof fn word_ends_ahead(text: Seq<u8>, at: int)
    ensures
        at <= word_end(text, at),
        !ends_word(text, at) ==> at < word_end(text, at),
        at <= text.len() ==> word_end(text, at) <= text.len(),
    decreases text.len() - at,
{
    if !ends_word(text, at) {
        word_ends_ahead(text, at + 1);
    }
}

/// A word, a mark or a quotation.
pub struct Token {
    pub text: Seq<u8>,
    pub quoted: bool,
}

/// The tokens from a position on. Comments separate tokens and are none.
/// `None` where a comment or a quotation never ends.
pub open spec fn lex(text: Seq<u8>, at: int) -> Option<Seq<Token>>
    decreases text.len() - at,
{
    if at >= text.len() {
        Some(Seq::empty())
    } else if is_space(text[at]) {
        lex(text, at + 1)
    } else if opens_line_comment(text, at) {
        proof {
            line_ends_ahead(text, at + 2);
        }
        lex(text, line_end(text, at + 2))
    } else if opens_block_comment(text, at) {
        proof {
            comment_ends_ahead(text, at + 2);
        }
        match comment_end(text, at + 2) {
            None => None,
            Some(end) => lex(text, end),
        }
    } else if text[at] == 34 {
        proof {
            quote_ends_ahead(text, at + 1);
        }
        match quote_end(text, at + 1) {
            None => None,
            Some(end) => followed_by(
                Token { text: text.subrange(at + 1, end), quoted: true },
                lex(text, end + 1),
            ),
        }
    } else if is_mark(text[at]) {
        followed_by(
            Token { text: text.subrange(at, at + 1), quoted: false },
            lex(text, at + 1),
        )
    } else {
        proof {
            word_ends_ahead(text, at);
        }
        followed_by(
            Token { text: text.subrange(at, word_end(text, at)), quoted: false },
            lex(text, word_end(text, at)),
        )
    }
}

/// A token and what follows it.
pub open spec fn followed_by(first: Token, rest: Option<Seq<Token>>) -> Option<Seq<Token>> {
    match rest {
        None => None,
        Some(rest) => Some(seq![first] + rest),
    }
}

/// Tokens that were read and what follows them.
pub open spec fn then_rest(read: Seq<Token>, rest: Option<Seq<Token>>) -> Option<Seq<Token>> {
    match rest {
        None => None,
        Some(rest) => Some(read + rest),
    }
}

/// A word, a mark or a quotation of a text.
#[derive(Debug, PartialEq, Eq)]
pub struct PtxToken {
    pub text: Vec<u8>,
    pub quoted: bool,
}

impl View for PtxToken {
    type V = Token;

    open spec fn view(&self) -> Token {
        Token { text: self.text@, quoted: self.quoted }
    }
}

/// Tokens as mathematics.
pub open spec fn tokens(read: Seq<PtxToken>) -> Seq<Token> {
    Seq::new(read.len(), |i: int| read[i]@)
}

fn copy_range(text: &[u8], start: usize, end: usize) -> (copied: Vec<u8>)
    requires
        start <= end <= text@.len(),
    ensures
        copied@ == text@.subrange(start as int, end as int),
{
    let mut copied: Vec<u8> = Vec::new();
    let mut i: usize = start;
    while i < end
        invariant
            start <= i <= end <= text@.len(),
            copied@ == text@.subrange(start as int, i as int),
        decreases end - i,
    {
        copied.push(text[i]);
        i = i + 1;
        assert(copied@ =~= text@.subrange(start as int, i as int));
    }
    copied
}

fn find_line_end(text: &[u8], at: usize) -> (end: usize)
    requires
        at <= text@.len(),
    ensures
        end == line_end(text@, at as int),
        at <= end <= text@.len(),
{
    let mut i: usize = at;
    while i < text.len() && text[i] != 10
        invariant
            at <= i <= text@.len(),
            line_end(text@, at as int) == line_end(text@, i as int),
        decreases text@.len() - i,
    {
        i = i + 1;
    }
    i
}

fn find_comment_end(text: &[u8], at: usize) -> (end: Option<usize>)
    requires
        at <= text@.len(),
    ensures
        match (end, comment_end(text@, at as int)) {
            (Some(end), Some(expected)) => end == expected && at + 2 <= end <= text@.len(),
            (None, None) => true,
            _ => false,
        },
{
    let length: usize = text.len();
    let mut i: usize = at;
    while i < length && length - i > 1
        invariant
            at <= i <= length,
            length == text@.len(),
            comment_end(text@, at as int) == comment_end(text@, i as int),
        decreases length - i,
    {
        if text[i] == 42 && text[i + 1] == 47 {
            return Some(i + 2);
        }
        i = i + 1;
    }
    None
}

fn find_quote_end(text: &[u8], at: usize) -> (end: Option<usize>)
    requires
        at <= text@.len(),
    ensures
        match (end, quote_end(text@, at as int)) {
            (Some(end), Some(expected)) => end == expected && at <= end < text@.len(),
            (None, None) => true,
            _ => false,
        },
{
    let mut i: usize = at;
    while i < text.len()
        invariant
            at <= i <= text@.len(),
            quote_end(text@, at as int) == quote_end(text@, i as int),
        decreases text@.len() - i,
    {
        if text[i] == 34 {
            return Some(i);
        }
        i = i + 1;
    }
    None
}

fn starts_comment(text: &[u8], at: usize, second: u8) -> (found: bool)
    requires
        at < text@.len(),
    ensures
        found == (at + 1 < text@.len() && text@[at as int] == 47 && text@[at + 1] == second),
{
    text[at] == 47 && at < text.len() - 1 && text[at + 1] == second
}

fn find_word_end(text: &[u8], at: usize) -> (end: usize)
    requires
        at <= text@.len(),
    ensures
        end == word_end(text@, at as int),
        at <= end <= text@.len(),
{
    let mut i: usize = at;
    while i < text.len() && !is_space(text[i]) && !is_mark(text[i]) && text[i] != 34
        && !starts_comment(text, i, 47) && !starts_comment(text, i, 42)
        invariant
            at <= i <= text@.len(),
            word_end(text@, at as int) == word_end(text@, i as int),
        decreases text@.len() - i,
    {
        i = i + 1;
    }
    i
}

/// Reads the tokens of a text.
pub fn ptx_tokens(text: &[u8]) -> (result: Option<Vec<PtxToken>>)
    ensures
        match (result, lex(text@, 0)) {
            (Some(read), Some(expected)) => tokens(read@) == expected,
            (None, None) => true,
            _ => false,
        },
{
    let mut read: Vec<PtxToken> = Vec::new();
    let mut at: usize = 0;
    assert(then_rest(tokens(read@), lex(text@, 0)) =~= lex(text@, 0)) by {
        if let Some(all) = lex(text@, 0) {
            assert(tokens(read@) + all =~= all);
        }
    }
    while at < text.len()
        invariant
            at <= text@.len(),
            lex(text@, 0) == then_rest(tokens(read@), lex(text@, at as int)),
        decreases text@.len() - at,
    {
        let ghost before = tokens(read@);
        let ghost here = at as int;
        let byte: u8 = text[at];
        if is_space(byte) {
            at = at + 1;
        } else if starts_comment(text, at, 47) {
            at = find_line_end(text, at + 2);
        } else if starts_comment(text, at, 42) {
            match find_comment_end(text, at + 2) {
                None => {
                    return None;
                },
                Some(end) => {
                    at = end;
                },
            }
        } else {
            let (start, end, next, quoted): (usize, usize, usize, bool) = if byte == 34 {
                match find_quote_end(text, at + 1) {
                    None => {
                        return None;
                    },
                    Some(end) => (at + 1, end, end + 1, true),
                }
            } else if is_mark(byte) {
                (at, at + 1, at + 1, false)
            } else {
                proof {
                    word_ends_ahead(text@, at as int);
                }
                let end: usize = find_word_end(text, at);
                (at, end, end, false)
            };
            let token = PtxToken { text: copy_range(text, start, end), quoted };
            let ghost first = token@;
            read.push(token);
            at = next;
            proof {
                assert(tokens(read@) =~= before.push(first));
                assert(lex(text@, here) == followed_by(first, lex(text@, at as int)));
                if let Some(rest) = lex(text@, at as int) {
                    assert(before + (seq![first] + rest) =~= before.push(first) + rest);
                }
            }
        }
    }
    assert(tokens(read@) + Seq::<Token>::empty() =~= tokens(read@));
    Some(read)
}

/// A token that is not quoted and reads like this.
pub open spec fn reads(token: Token, word: Seq<u8>) -> bool {
    !token.quoted && token.text == word
}

impl PtxToken {
    /// Whether the token is not quoted and reads like this.
    pub fn is_word(&self, word: &str) -> (equal: bool)
        ensures
            equal == reads(self@, word.spec_bytes()),
    {
        !self.quoted && same_bytes(self.text.as_slice(), word.as_bytes())
    }

    /// Whether the text of the token, quoted or not, is this.
    pub fn has_text(&self, word: &str) -> (equal: bool)
        ensures
            equal == (self@.text == word.spec_bytes()),
    {
        same_bytes(self.text.as_slice(), word.as_bytes())
    }
}

/// The first opening brace from a position on.
pub open spec fn opening(all: Seq<Token>, at: int) -> Option<int>
    decreases all.len() - at,
{
    if at < 0 || at >= all.len() {
        None
    } else if reads(all[at], "{".spec_bytes()) {
        Some(at)
    } else {
        opening(all, at + 1)
    }
}

/// The closing brace of a block, looked for from a position that is nested
/// this deep in it.
pub open spec fn closing(all: Seq<Token>, at: int, depth: nat) -> Option<int>
    decreases all.len() - at,
{
    if at < 0 || at >= all.len() {
        None
    } else if reads(all[at], "{".spec_bytes()) {
        closing(all, at + 1, depth + 1)
    } else if reads(all[at], "}".spec_bytes()) {
        if depth == 0 {
            Some(at)
        } else {
            closing(all, at + 1, (depth - 1) as nat)
        }
    } else {
        closing(all, at + 1, depth)
    }
}

/// An opening brace is found ahead.
pub proof fn opening_is_ahead(all: Seq<Token>, at: int)
    ensures
        opening(all, at) matches Some(open) ==> at <= open < all.len(),
    decreases all.len() - at,
{
    if !(at < 0 || at >= all.len() || reads(all[at], "{".spec_bytes())) {
        opening_is_ahead(all, at + 1);
    }
}

/// A closing brace is found ahead.
pub proof fn closing_is_ahead(all: Seq<Token>, at: int, depth: nat)
    ensures
        closing(all, at, depth) matches Some(close) ==> at <= close < all.len(),
    decreases all.len() - at,
{
    if 0 <= at < all.len() {
        if reads(all[at], "{".spec_bytes()) {
            closing_is_ahead(all, at + 1, depth + 1);
        } else if reads(all[at], "}".spec_bytes()) {
            if depth > 0 {
                closing_is_ahead(all, at + 1, (depth - 1) as nat);
            }
        } else {
            closing_is_ahead(all, at + 1, depth);
        }
    }
}

/// A kernel entry: its name, what stands ahead of its body and its body.
pub struct Entry {
    pub symbol: Seq<u8>,
    pub header: Seq<Token>,
    pub body: Seq<Token>,
}

/// Where the parts of an entry stand: its header starts behind the name and
/// ends at the opening brace of the body.
pub open spec fn entry_extent(all: Seq<Token>, at: int) -> Option<(int, int)> {
    match opening(all, at + 2) {
        None => None,
        Some(open) => match closing(all, open + 1, 0) {
            None => None,
            Some(close) => Some((open, close)),
        },
    }
}

/// The entry at a position.
pub open spec fn entry_of(all: Seq<Token>, at: int, open: int, close: int) -> Entry {
    Entry {
        symbol: all[at + 1].text,
        header: all.subrange(at + 2, open),
        body: all.subrange(open + 1, close),
    }
}

/// The kernel entries from a position on, in order. `None` where an entry
/// has no name, no body or a body that never ends.
pub open spec fn entries_from(all: Seq<Token>, at: int) -> Option<Seq<Entry>>
    decreases all.len() - at,
{
    if at < 0 || at >= all.len() {
        Some(Seq::empty())
    } else if !reads(all[at], ".entry".spec_bytes()) {
        entries_from(all, at + 1)
    } else {
        proof {
            opening_is_ahead(all, at + 2);
            if let Some(open) = opening(all, at + 2) {
                closing_is_ahead(all, open + 1, 0);
            }
        }
        match entry_extent(all, at) {
            None => None,
            Some((open, close)) => match entries_from(all, close + 1) {
                None => None,
                Some(rest) => Some(seq![entry_of(all, at, open, close)] + rest),
            },
        }
    }
}

/// The kernel entries of a text. `None` where the text is malformed.
pub open spec fn ptx_entries(text: Seq<u8>) -> Option<Seq<Entry>> {
    match lex(text, 0) {
        None => None,
        Some(all) => entries_from(all, 0),
    }
}

/// Where an entry stands among the tokens.
#[derive(Clone, Copy, Debug, PartialEq, Eq, Structural)]
pub struct EntryExtent {
    pub at: usize,
    pub open: usize,
    pub close: usize,
}

/// The tokens of a text and where its entries stand.
pub struct ParsedPtx {
    pub tokens: Vec<PtxToken>,
    pub extents: Vec<EntryExtent>,
}

impl ParsedPtx {
    /// The extents lie within the tokens.
    pub open spec fn wf(self) -> bool {
        forall|i: int|
            0 <= i < self.extents@.len() ==> {
                let extent = #[trigger] self.extents@[i];
                extent.at + 2 <= extent.open < extent.close < self.tokens@.len()
            }
    }

    /// The entries.
    pub open spec fn entries(self) -> Seq<Entry> {
        Seq::new(
            self.extents@.len(),
            |i: int|
                entry_of(
                    tokens(self.tokens@),
                    self.extents@[i].at as int,
                    self.extents@[i].open as int,
                    self.extents@[i].close as int,
                ),
        )
    }
}

fn find_opening(all: &Vec<PtxToken>, at: usize) -> (open: Option<usize>)
    ensures
        match (open, opening(tokens(all@), at as int)) {
            (Some(open), Some(expected)) => open == expected && at <= open < all@.len(),
            (None, None) => true,
            _ => false,
        },
{
    let ghost read = tokens(all@);
    let mut i: usize = at;
    while i < all.len()
        invariant
            at <= i,
            read == tokens(all@),
            opening(read, at as int) == opening(read, i as int),
        decreases all@.len() - i,
    {
        assert(read[i as int] == all@[i as int]@);
        if all[i].is_word("{") {
            return Some(i);
        }
        i = i + 1;
    }
    None
}

fn find_closing(all: &Vec<PtxToken>, at: usize) -> (close: Option<usize>)
    ensures
        match (close, closing(tokens(all@), at as int, 0)) {
            (Some(close), Some(expected)) => close == expected && at <= close < all@.len(),
            (None, None) => true,
            _ => false,
        },
{
    let ghost read = tokens(all@);
    proof {
        reveal_strlit("{");
        reveal_strlit("}");
    }
    let mut i: usize = at;
    let mut depth: usize = 0;
    while i < all.len()
        invariant
            at <= i,
            depth <= i - at,
            read == tokens(all@),
            closing(read, at as int, 0) == closing(read, i as int, depth as nat),
        decreases all@.len() - i,
    {
        assert(read[i as int] == all@[i as int]@);
        if all[i].is_word("{") {
            depth = depth + 1;
        } else if all[i].is_word("}") {
            if depth == 0 {
                return Some(i);
            }
            depth = depth - 1;
        }
        i = i + 1;
    }
    None
}

/// Parses a text into its kernel entries.
pub fn parse_ptx(text: &[u8]) -> (result: Option<ParsedPtx>)
    ensures
        match (result, ptx_entries(text@)) {
            (Some(parsed), Some(expected)) => parsed.wf() && parsed.entries() == expected,
            (None, None) => true,
            _ => false,
        },
{
    let all = match ptx_tokens(text) {
        None => {
            return None;
        },
        Some(all) => all,
    };
    let ghost read = tokens(all@);
    let mut parsed = ParsedPtx { tokens: all, extents: Vec::new() };
    let mut at: usize = 0;
    assert(parsed.entries() =~= Seq::<Entry>::empty());
    proof {
        if let Some(rest) = entries_from(read, 0) {
            assert(parsed.entries() + rest =~= rest);
        }
    }
    while at < parsed.tokens.len()
        invariant
            at <= parsed.tokens@.len(),
            read == tokens(parsed.tokens@),
            parsed.wf(),
            ptx_entries(text@) == entries_from(read, 0),
            entries_from(read, 0) == (match entries_from(read, at as int) {
                None => None::<Seq<Entry>>,
                Some(rest) => Some(parsed.entries() + rest),
            }),
        decreases parsed.tokens@.len() - at,
    {
        assert(read[at as int] == parsed.tokens@[at as int]@);
        let ghost here = at as int;
        if !parsed.tokens[at].is_word(".entry") {
            at = at + 1;
        } else {
            if parsed.tokens.len() - at < 2 {
                return None;
            }
            let open = match find_opening(&parsed.tokens, at + 2) {
                None => {
                    return None;
                },
                Some(open) => open,
            };
            let close = match find_closing(&parsed.tokens, open + 1) {
                None => {
                    return None;
                },
                Some(close) => close,
            };
            let ghost before = parsed.entries();
            let ghost extents = parsed.extents@;
            parsed.extents.push(EntryExtent { at, open, close });
            at = close + 1;
            proof {
                let entry = entry_of(read, here, open as int, close as int);
                assert(parsed.entries() =~= before.push(entry));
                assert forall|i: int| 0 <= i < parsed.extents@.len() implies {
                    let extent = #[trigger] parsed.extents@[i];
                    extent.at + 2 <= extent.open < extent.close < parsed.tokens@.len()
                } by {
                    if i < extents.len() {
                        assert(parsed.extents@[i] == extents[i]);
                    }
                }
                if let Some(rest) = entries_from(read, at as int) {
                    assert(before + (seq![entry] + rest) =~= before.push(entry) + rest);
                }
            }
        }
    }
    assert(parsed.entries() + Seq::<Entry>::empty() =~= parsed.entries());
    Some(parsed)
}

} // verus!
