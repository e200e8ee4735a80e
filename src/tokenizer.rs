//! The lexer: splits one line of source into tokens, with one token of
//! lookahead.

use vstd::prelude::*;

use crate::data::{
    classify, lemma_register_name_token, lemma_token_round_trip, token_text, Data, DataSet, DataView,
    Register,
};
use crate::text::is_canonical_int;
use crate::error::{AsmError, ErrorView};
use crate::text::{is_whitespace, is_ws};

verus! {

/// A place in the source: file, line and column (in characters).
#[derive(Clone, Copy, Debug)]
pub struct Loc<'a> {
    pub file_name: &'a str,
    pub line: usize,
    pub column: usize,
}

impl<'a> Loc<'a> {
    pub fn new(file_name: &'a str, line: usize, column: usize) -> (r: Loc<'a>)
        ensures
            r.file_name == file_name,
            r.line == line,
            r.column == column,
    {
        Loc { file_name, line, column }
    }
}

/// The characters that are tokens of their own: `:` ends a label
/// definition and `#` marks a label.
pub open spec fn is_delim(c: char) -> bool {
    c == ':' || c == '#'
}

/// The first position at or after `i` that holds no whitespace.
pub open spec fn skip_ws(s: Seq<char>, i: int) -> int
    decreases s.len() - i,
{
    if 0 <= i < s.len() && is_ws(s[i]) {
        skip_ws(s, i + 1)
    } else {
        i
    }
}

/// The end of the plain word that starts at `i`.
pub open spec fn word_end(s: Seq<char>, i: int) -> int
    decreases s.len() - i,
{
    if 0 <= i < s.len() && !is_ws(s[i]) && !is_delim(s[i]) {
        word_end(s, i + 1)
    } else {
        i
    }
}

/// The position of the first `]` at or after `i`.
pub open spec fn close_bracket(s: Seq<char>, i: int) -> Option<int>
    decreases s.len() - i,
{
    if i < 0 || i >= s.len() {
        None
    } else if s[i] == ']' {
        Some(i)
    } else {
        close_bracket(s, i + 1)
    }
}

/// What the lexer finds at position `i`.
pub enum Lexeme {
    /// Nothing but whitespace is left.
    End,
    /// A memory operand starts at `start` and has no closing `]`.
    Unclosed { start: int },
    /// The next token spans `start..end`.
    Span { start: int, end: int },
}

/// The next token at or after position `i`: a memory operand runs from
/// `@[` through the first `]`, `:` and `#` stand alone, and any other token
/// runs to the next whitespace, `:` or `#`.
pub open spec fn lexeme_at(s: Seq<char>, i: int) -> Lexeme {
    let st = skip_ws(s, i);
    if st >= s.len() {
        Lexeme::End
    } else if st + 1 < s.len() && s[st] == '@' && s[st + 1] == '[' {
        match close_bracket(s, st + 2) {
            Some(j) => Lexeme::Span { start: st, end: j + 1 },
            None => Lexeme::Unclosed { start: st },
        }
    } else if is_delim(s[st]) {
        Lexeme::Span { start: st, end: st + 1 }
    } else {
        Lexeme::Span { start: st, end: word_end(s, st) }
    }
}

proof fn lemma_skip_ws(s: Seq<char>, i: int)
    requires
        0 <= i,
    ensures
        i <= skip_ws(s, i),
        i <= s.len() ==> skip_ws(s, i) <= s.len(),
        0 <= skip_ws(s, i) < s.len() ==> !is_ws(s[skip_ws(s, i)]),
    decreases s.len() - i,
{
    if 0 <= i < s.len() && is_ws(s[i]) {
        lemma_skip_ws(s, i + 1);
    }
}

proof fn lemma_word_end(s: Seq<char>, i: int)
    requires
        0 <= i <= s.len(),
    ensures
        i <= word_end(s, i) <= s.len(),
    decreases s.len() - i,
{
    if 0 <= i < s.len() && !is_ws(s[i]) && !is_delim(s[i]) {
        lemma_word_end(s, i + 1);
    }
}

proof fn lemma_close_bracket(s: Seq<char>, i: int)
    requires
        0 <= i,
    ensures
        close_bracket(s, i) matches Some(j) ==> i <= j < s.len() && s[j] == ']',
    decreases s.len() - i,
{
    if 0 <= i < s.len() && s[i] != ']' {
        lemma_close_bracket(s, i + 1);
    }
}

/// A token spans at least one character, at or after `i`, within `s`.
pub proof fn lemma_lexeme_bounds(s: Seq<char>, i: int)
    requires
        0 <= i,
    ensures
        lexeme_at(s, i) matches Lexeme::Span { start, end } ==> i <= start < end <= s.len(),
        lexeme_at(s, i) matches Lexeme::Unclosed { start } ==> i <= start < s.len(),
{
    lemma_skip_ws(s, i);
    let st = skip_ws(s, i);
    if st < s.len() {
        lemma_close_bracket(s, st + 2);
        lemma_word_end(s, st);
        if !(st + 1 < s.len() && s[st] == '@' && s[st + 1] == '[') && !is_delim(s[st]) {
            lemma_word_end(s, st + 1);
        }
    }
}

/// The lexer over one line. `loc.column` is the position of the next
/// character to read.
pub struct Tonkenizer<'a> {
    pub source: &'a str,
    pub loc: Loc<'a>,
}

/// The relation between a tokenizer and what `peek` or `next` returns from it.
pub open spec fn token_result<'a>(t: Tonkenizer<'a>, r: Result<Option<DataSet<'a>>, AsmError>) -> bool {
    match lexeme_at(t.source@, t.loc.column as int) {
        Lexeme::End => r matches Ok(None),
        Lexeme::Unclosed { start } => r matches Err(e) && e@ == (ErrorView::LexError {
            line: t.loc.line,
            column: start as usize,
        }),
        Lexeme::Span { start, end } => r matches Ok(Some(d)) && d.data@ == classify(
            t.source@.subrange(start, end),
        ) && d.loc == (Loc { file_name: t.loc.file_name, line: t.loc.line, column: start as usize }),
    }
}

/// Where the cursor stands after `next`.
pub open spec fn column_after(s: Seq<char>, i: int) -> int {
    match lexeme_at(s, i) {
        Lexeme::End => skip_ws(s, i),
        Lexeme::Unclosed { .. } => i,
        Lexeme::Span { end, .. } => end,
    }
}

impl<'a> Tonkenizer<'a> {
    /// A lexer over `source`, starting at `loc`.
    pub fn new(source: &'a str, loc: Loc<'a>) -> (r: Tonkenizer<'a>)
        ensures
            r.source == source,
            r.loc == loc,
    {
        Tonkenizer { source, loc }
    }

    /// Where the lexer stands.
    pub fn location(&self) -> (r: Loc<'a>)
        ensures
            r == self.loc,
    {
        self.loc
    }

    fn skip_whitespace(&self, n: usize) -> (r: usize)
        requires
            n == self.source@.len(),
        ensures
            r == skip_ws(self.source@, self.loc.column as int),
            r >= self.loc.column,
    {
        let mut i = self.loc.column;
        while i < n && is_whitespace(self.source.get_char(i))
            invariant
                n == self.source@.len(),
                i >= self.loc.column,
                skip_ws(self.source@, self.loc.column as int) == skip_ws(self.source@, i as int),
            decreases n - i,
        {
            i = i + 1;
        }
        i
    }

    /// The lexeme at the cursor: `None` at the end of the line, the start of
    /// an unclosed memory operand, or the span of the next token.
    fn lexeme(&self) -> (r: Option<Result<(usize, usize), usize>>)
        ensures
            match lexeme_at(self.source@, self.loc.column as int) {
                Lexeme::End => r is None,
                Lexeme::Unclosed { start } => r == Some(Err::<(usize, usize), usize>(start as usize)),
                Lexeme::Span { start, end } => r == Some(Ok::<(usize, usize), usize>((start as usize, end as usize))),
            },
    {
        let ghost s = self.source@;
        let n = self.source.unicode_len();
        let st = self.skip_whitespace(n);
        proof {
            lemma_skip_ws(s, self.loc.column as int);
        }
        if st >= n {
            return None;
        }
        if st + 1 < n && self.source.get_char(st) == '@' && self.source.get_char(st + 1) == '[' {
            let mut j = st + 2;
            while j < n && self.source.get_char(j) != ']'
                invariant
                    n == s.len(),
                    s == self.source@,
                    st + 2 <= j <= n,
                    close_bracket(s, st + 2) == close_bracket(s, j as int),
                decreases n - j,
            {
                j = j + 1;
            }
            if j < n {
                return Some(Ok((st, j + 1)));
            } else {
                return Some(Err(st));
            }
        }
        let c = self.source.get_char(st);
        if c == ':' || c == '#' {
            return Some(Ok((st, st + 1)));
        }
        let mut e = st;
        while e < n && !is_whitespace(self.source.get_char(e)) && self.source.get_char(e) != ':'
            && self.source.get_char(e) != '#'
            invariant
                n == s.len(),
                s == self.source@,
                st <= e <= n,
                word_end(s, st as int) == word_end(s, e as int),
            decreases n - e,
        {
            e = e + 1;
        }
        Some(Ok((st, e)))
    }

    /// The next token, without moving past it.
    pub fn peek(&self) -> (r: Result<Option<DataSet<'a>>, AsmError>)
        ensures
            token_result(*self, r),
    {
        let n = self.source.unicode_len();
        proof {
            lemma_lexeme_bounds(self.source@, self.loc.column as int);
        }
        match self.lexeme() {
            None => Ok(None),
            Some(Err(start)) => Err(AsmError::LexError { line: self.loc.line, column: start }),
            Some(Ok((start, end))) => {
                let text = self.source.substring_char(start, end);
                let loc = Loc { file_name: self.loc.file_name, line: self.loc.line, column: start };
                Ok(Some(DataSet::new(text, loc)))
            },
        }
    }

    /// The next token, moving past it.
    pub fn next(&mut self) -> (r: Result<Option<DataSet<'a>>, AsmError>)
        ensures
            token_result(*old(self), r),
            final(self).source == old(self).source,
            final(self).loc.file_name == old(self).loc.file_name,
            final(self).loc.line == old(self).loc.line,
            final(self).loc.column == column_after(old(self).source@, old(self).loc.column as int),
    {
        let r = self.peek();
        let n = self.source.unicode_len();
        proof {
            lemma_lexeme_bounds(self.source@, self.loc.column as int);
        }
        match self.lexeme() {
            None => {
                self.loc.column = self.skip_whitespace(n);
            },
            Some(Err(_)) => {},
            Some(Ok((_, end))) => {
                self.loc.column = end;
            },
        }
        r
    }
}

/// A plain word: not empty, no whitespace, `:` or `#` in it, and not
/// starting with `@[`.
pub open spec fn is_plain_word(s: Seq<char>) -> bool {
    &&& s.len() > 0
    &&& forall|k: int| 0 <= k < s.len() ==> !is_ws(#[trigger] s[k]) && !is_delim(s[k])
    &&& !(s.len() >= 2 && s[0] == '@' && s[1] == '[')
}

proof fn lemma_word_end_plain(s: Seq<char>, i: int)
    requires
        0 <= i <= s.len(),
        forall|k: int| 0 <= k < s.len() ==> !is_ws(#[trigger] s[k]) && !is_delim(s[k]),
    ensures
        word_end(s, i) == s.len(),
    decreases s.len() - i,
{
    if i < s.len() {
        lemma_word_end_plain(s, i + 1);
    }
}

/// A plain word is read as one whole token.
pub proof fn lemma_plain_word_is_one_token(s: Seq<char>)
    requires
        is_plain_word(s),
    ensures
        lexeme_at(s, 0) == (Lexeme::Span { start: 0, end: s.len() as int }),
{
    assert(!is_ws(s[0]) && !is_delim(s[0]));
    assert(skip_ws(s, 0) == 0);
    lemma_word_end_plain(s, 0);
}

/// Lexing a plain word that reads as a register, a label, or an integer in
/// canonical form (no `+`, no leading zero, no `-0`), and writing the token
/// back, gives the word again.
pub proof fn lemma_lex_round_trip(s: Seq<char>)
    requires
        is_plain_word(s),
        classify(s) is Register || classify(s) is Label || (classify(s) is Immediate
            && is_canonical_int(s)),
    ensures
        lexeme_at(s, 0) == (Lexeme::Span { start: 0, end: s.len() as int }),
        token_text(classify(s.subrange(0, s.len() as int))) == s,
{
    lemma_plain_word_is_one_token(s);
    assert(s.subrange(0, s.len() as int) =~= s);
    lemma_token_round_trip(s);
}

/// Lexing any register's name gives that register as one token, whose text
/// is the name again.
pub proof fn lemma_lex_register_name(r: Register)
    ensures
        lexeme_at(r.spec_name(), 0) == (Lexeme::Span { start: 0, end: r.spec_name().len() as int }),
        classify(r.spec_name()) == DataView::Register(r),
        token_text(classify(r.spec_name())) == r.spec_name(),
{
    lemma_register_name_token(r);
    let s = r.spec_name();
    assert(is_plain_word(s));
    lemma_lex_round_trip(s);
}

} // verus!
