//! The sentence parser: a verb, an optional object and preposition phrases,
//! or a label definition, or nothing.

use vstd::prelude::*;

use crate::data::{classify, object_of, Data, DataSet, DataView, Preposition, Verb};
use crate::error::{result_view, AsmError, ErrorView, SyntaxReason};
use crate::tokenizer::{lemma_lexeme_bounds, lexeme_at, Lexeme, Loc, Tonkenizer};

verus! {

/// The phrases of one sentence: at most one object for each preposition.
pub struct PrepositionPhrases<'a> {
    pub to: Option<DataSet<'a>>,
    pub from: Option<DataSet<'a>>,
    pub by: Option<DataSet<'a>>,
    pub as_: Option<DataSet<'a>>,
    pub with: Option<DataSet<'a>>,
    pub if_: Option<DataSet<'a>>,
}

/// `[p]` when `m` holds a phrase for `p`, else nothing.
pub open spec fn has(m: Map<Preposition, DataView>, p: Preposition) -> Seq<Preposition> {
    if m.contains_key(p) {
        seq![p]
    } else {
        seq![]
    }
}

/// The prepositions that have a phrase in `m`, in the order
/// to, from, by, as, with, if.
pub open spec fn leftover(m: Map<Preposition, DataView>) -> Seq<Preposition> {
    has(m, Preposition::To) + has(m, Preposition::From) + has(m, Preposition::By) + has(
        m,
        Preposition::As,
    ) + has(m, Preposition::With) + has(m, Preposition::If)
}

impl<'a> PrepositionPhrases<'a> {
    pub open spec fn slot(&self, p: Preposition) -> Option<DataSet<'a>> {
        match p {
            Preposition::To => self.to,
            Preposition::From => self.from,
            Preposition::By => self.by,
            Preposition::As => self.as_,
            Preposition::With => self.with,
            Preposition::If => self.if_,
        }
    }

    /// No phrases.
    pub fn new() -> (r: PrepositionPhrases<'a>)
        ensures
            r@ == Map::<Preposition, DataView>::empty(),
    {
        let r = PrepositionPhrases { to: None, from: None, by: None, as_: None, with: None, if_: None };
        assert(r@ =~= Map::<Preposition, DataView>::empty());
        r
    }

    /// Sets the object of `p`, replacing an earlier one.
    pub fn insert(&mut self, p: Preposition, d: DataSet<'a>)
        ensures
            final(self)@ == old(self)@.insert(p, d.data@),
            final(self).slot(p) == Some(d),
    {
        match p {
            Preposition::To => self.to = Some(d),
            Preposition::From => self.from = Some(d),
            Preposition::By => self.by = Some(d),
            Preposition::As => self.as_ = Some(d),
            Preposition::With => self.with = Some(d),
            Preposition::If => self.if_ = Some(d),
        }
        assert(self@ =~= old(self)@.insert(p, d.data@));
    }

    /// Removes and returns the object of `p`.
    pub fn take(&mut self, p: Preposition) -> (r: Option<DataSet<'a>>)
        ensures
            r == old(self).slot(p),
            final(self)@ == old(self)@.remove(p),
    {
        let r = match p {
            Preposition::To => self.to.take(),
            Preposition::From => self.from.take(),
            Preposition::By => self.by.take(),
            Preposition::As => self.as_.take(),
            Preposition::With => self.with.take(),
            Preposition::If => self.if_.take(),
        };
        assert(self@ =~= old(self)@.remove(p));
        r
    }

    /// Whether `p` has a phrase.
    pub fn have(&self, p: Preposition) -> (r: bool)
        ensures
            r == self@.contains_key(p),
    {
        match p {
            Preposition::To => self.to.is_some(),
            Preposition::From => self.from.is_some(),
            Preposition::By => self.by.is_some(),
            Preposition::As => self.as_.is_some(),
            Preposition::With => self.with.is_some(),
            Preposition::If => self.if_.is_some(),
        }
    }

    /// Whether no phrase is left.
    pub fn is_empty(&self) -> (r: bool)
        ensures
            r == (self@ == Map::<Preposition, DataView>::empty()),
    {
        let r = self.to.is_none() && self.from.is_none() && self.by.is_none() && self.as_.is_none()
            && self.with.is_none() && self.if_.is_none();
        if r {
            assert(self@ =~= Map::<Preposition, DataView>::empty());
        } else {
            assert(self@ != Map::<Preposition, DataView>::empty()) by {
                if self.to.is_some() {
                    assert(self@.contains_key(Preposition::To));
                } else if self.from.is_some() {
                    assert(self@.contains_key(Preposition::From));
                } else if self.by.is_some() {
                    assert(self@.contains_key(Preposition::By));
                } else if self.as_.is_some() {
                    assert(self@.contains_key(Preposition::As));
                } else if self.with.is_some() {
                    assert(self@.contains_key(Preposition::With));
                } else {
                    assert(self@.contains_key(Preposition::If));
                }
            }
        }
        r
    }

    /// The prepositions that still have a phrase (see `leftover`).
    pub fn remaining(&self) -> (r: Vec<Preposition>)
        ensures
            r@ == leftover(self@),
    {
        let mut r: Vec<Preposition> = Vec::new();
        if self.to.is_some() {
            r.push(Preposition::To);
        }
        if self.from.is_some() {
            r.push(Preposition::From);
        }
        if self.by.is_some() {
            r.push(Preposition::By);
        }
        if self.as_.is_some() {
            r.push(Preposition::As);
        }
        if self.with.is_some() {
            r.push(Preposition::With);
        }
        if self.if_.is_some() {
            r.push(Preposition::If);
        }
        assert(r@ =~= leftover(self@));
        r
    }
}

impl<'a> View for PrepositionPhrases<'a> {
    type V = Map<Preposition, DataView>;

    open spec fn view(&self) -> Map<Preposition, DataView> {
        Map::new(|p: Preposition| self.slot(p) is Some, |p: Preposition| self.slot(p)->0.data@)
    }
}

/// Reads `preposition object` pairs from position `i` on, adding them to
/// `m`, until the next token is not a preposition.
pub open spec fn parse_phrases(s: Seq<char>, line: usize, i: int, m: Map<Preposition, DataView>) -> Result<
    Map<Preposition, DataView>,
    ErrorView,
>
    decreases s.len() - i,
{
    match lexeme_at(s, i) {
        Lexeme::End => Ok(m),
        Lexeme::Unclosed { start } => Err(ErrorView::LexError { line, column: start as usize }),
        Lexeme::Span { start, end } => match classify(s.subrange(start, end)) {
            DataView::Preposition(p) => match lexeme_at(s, end) {
                Lexeme::End => Err(
                    ErrorView::SyntaxError {
                        line,
                        column: start as usize,
                        reason: SyntaxReason::PrepositionWithoutObject,
                    },
                ),
                Lexeme::Unclosed { start: a } => Err(
                    ErrorView::LexError { line, column: a as usize },
                ),
                Lexeme::Span { start: a, end: b } => match object_of(classify(s.subrange(a, b))) {
                    Some(o) => if i < b <= s.len() {
                        parse_phrases(s, line, b, m.insert(p, o))
                    } else {
                        Ok(m)
                    },
                    None => Err(
                        ErrorView::SyntaxError {
                            line,
                            column: start as usize,
                            reason: SyntaxReason::PrepositionWithoutObject,
                        },
                    ),
                },
            },
            _ => Ok(m),
        },
    }
}

/// One parsed line.
pub enum Code<'a> {
    /// A verb with its optional object and its phrases.
    Sentence {
        verb: Verb,
        verb_loc: Loc<'a>,
        object: Option<DataSet<'a>>,
        preposition_phrases: PrepositionPhrases<'a>,
    },
    /// `name:`
    LabelDef(&'a str),
    /// A blank line.
    NullStmt,
}

/// `Code` with its texts as sequences and its phrases as a map.
pub enum CodeView {
    Sentence { verb: Verb, object: Option<DataView>, phrases: Map<Preposition, DataView> },
    LabelDef(Seq<char>),
    NullStmt,
}

impl<'a> View for Code<'a> {
    type V = CodeView;

    open spec fn view(&self) -> CodeView {
        match self {
            Code::Sentence { verb, object, preposition_phrases, .. } => CodeView::Sentence {
                verb: *verb,
                object: match object {
                    Some(d) => Some(d.data@),
                    None => None,
                },
                phrases: preposition_phrases@,
            },
            Code::LabelDef(l) => CodeView::LabelDef(l@),
            Code::NullStmt => CodeView::NullStmt,
        }
    }
}

/// The sentence that the line `s` holds from position `i` on.
/// After the verb, the next token is its object if it is one (see
/// `object_of`); the phrases follow. A label must be followed by `:`.
pub open spec fn parse_code(s: Seq<char>, line: usize, i: int) -> Result<CodeView, ErrorView> {
    match lexeme_at(s, i) {
        Lexeme::End => Ok(CodeView::NullStmt),
        Lexeme::Unclosed { start } => Err(ErrorView::LexError { line, column: start as usize }),
        Lexeme::Span { start, end } => match classify(s.subrange(start, end)) {
            DataView::Verb(v) => match lexeme_at(s, end) {
                Lexeme::Unclosed { start: a } => Err(ErrorView::LexError { line, column: a as usize }),
                Lexeme::End => Ok(CodeView::Sentence { verb: v, object: None, phrases: Map::empty() }),
                Lexeme::Span { start: a, end: b } => {
                    let object = object_of(classify(s.subrange(a, b)));
                    let pos = if object is Some {
                        b
                    } else {
                        end
                    };
                    match parse_phrases(s, line, pos, Map::empty()) {
                        Ok(m) => Ok(CodeView::Sentence { verb: v, object, phrases: m }),
                        Err(e) => Err(e),
                    }
                },
            },
            DataView::Label(l) => match lexeme_at(s, end) {
                Lexeme::Unclosed { start: a } => Err(ErrorView::LexError { line, column: a as usize }),
                Lexeme::Span { start: a, end: b } if classify(s.subrange(a, b)) is LabelDef => Ok(
                    CodeView::LabelDef(l),
                ),
                _ => Err(
                    ErrorView::SyntaxError {
                        line,
                        column: start as usize,
                        reason: SyntaxReason::ExpectedLabelDefinition,
                    },
                ),
            },
            _ => Err(
                ErrorView::SyntaxError {
                    line,
                    column: start as usize,
                    reason: SyntaxReason::ExpectedVerbOrLabel,
                },
            ),
        },
    }
}

impl<'a> PrepositionPhrases<'a> {
    /// Reads phrases as `parse_phrases` does, starting with none.
    pub fn parse(t: &mut Tonkenizer<'a>) -> (r: Result<PrepositionPhrases<'a>, AsmError>)
        ensures
            result_view(r) == parse_phrases(
                old(t).source@,
                old(t).loc.line,
                old(t).loc.column as int,
                Map::empty(),
            ),
            final(t).source == old(t).source,
            final(t).loc.line == old(t).loc.line,
            final(t).loc.file_name == old(t).loc.file_name,
    {
        let ghost s = t.source@;
        let ghost line = t.loc.line;
        let ghost goal = parse_phrases(s, line, t.loc.column as int, Map::empty());
        let mut pp = PrepositionPhrases::new();
        loop
            invariant
                t.source == old(t).source,
                t.loc.line == old(t).loc.line,
                t.loc.file_name == old(t).loc.file_name,
                s == t.source@,
                line == t.loc.line,
                goal == parse_phrases(s, line, old(t).loc.column as int, Map::empty()),
                goal == parse_phrases(s, line, t.loc.column as int, pp@),
            decreases s.len() - t.loc.column,
        {
            proof {
                lemma_lexeme_bounds(s, t.loc.column as int);
            }
            let ghost i = t.loc.column as int;
            let first = t.peek()?;
            let d = match first {
                None => return Ok(pp),
                Some(d) => d,
            };
            let p = match d.data {
                Data::Preposition(p) => p,
                _ => return Ok(pp),
            };
            t.next();
            proof {
                lemma_lexeme_bounds(s, t.loc.column as int);
            }
            let second = t.peek()?;
            let od = match second {
                None => {
                    return Err(
                        AsmError::SyntaxError {
                            line: d.loc.line,
                            column: d.loc.column,
                            reason: SyntaxReason::PrepositionWithoutObject,
                        },
                    );
                },
                Some(od) => od,
            };
            match od.expect_object() {
                Some(obj) => {
                    t.next();
                    pp.insert(p, obj);
                },
                None => {
                    return Err(
                        AsmError::SyntaxError {
                            line: d.loc.line,
                            column: d.loc.column,
                            reason: SyntaxReason::PrepositionWithoutObject,
                        },
                    );
                },
            }
            assert(i < t.loc.column);
        }
    }
}

impl<'a> Code<'a> {
    /// Parses one line as `parse_code` says, from where `t` stands.
    pub fn parse(t: &mut Tonkenizer<'a>) -> (r: Result<Code<'a>, AsmError>)
        ensures
            result_view(r) == parse_code(old(t).source@, old(t).loc.line, old(t).loc.column as int),
    {
        let ghost s = t.source@;
        proof {
            lemma_lexeme_bounds(s, t.loc.column as int);
        }
        let first = t.next()?;
        let d = match first {
            None => return Ok(Code::NullStmt),
            Some(d) => d,
        };
        proof {
            lemma_lexeme_bounds(s, t.loc.column as int);
        }
        match d.data {
            Data::Verb(v) => {
                let next = t.peek()?;
                let object = match next {
                    Some(n) => n.expect_object(),
                    None => None,
                };
                if object.is_some() {
                    t.next();
                }
                let preposition_phrases = PrepositionPhrases::parse(t)?;
                Ok(Code::Sentence { verb: v, verb_loc: d.loc, object, preposition_phrases })
            },
            Data::Label(l) => {
                let next = t.peek()?;
                match next {
                    Some(n) => match n.data {
                        Data::LabelDef => Ok(Code::LabelDef(l)),
                        _ => Err(
                            AsmError::SyntaxError {
                                line: d.loc.line,
                                column: d.loc.column,
                                reason: SyntaxReason::ExpectedLabelDefinition,
                            },
                        ),
                    },
                    None => Err(
                        AsmError::SyntaxError {
                            line: d.loc.line,
                            column: d.loc.column,
                            reason: SyntaxReason::ExpectedLabelDefinition,
                        },
                    ),
                }
            },
            _ => Err(
                AsmError::SyntaxError {
                    line: d.loc.line,
                    column: d.loc.column,
                    reason: SyntaxReason::ExpectedVerbOrLabel,
                },
            ),
        }
    }
}

} // verus!
