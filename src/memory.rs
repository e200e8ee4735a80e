//! Memory operands: `@[base + index * scale + displacement]`.

use vstd::prelude::*;

use crate::data::{register_of, Register};
use crate::text::{i64_value, int_text, is_whitespace, is_ws, nat_text, parse_i64, push_int, push_nat};

verus! {

/// An addressing expression. `size` is the operand width in bits, or 0
/// where it is not known.
#[derive(Clone, Copy, Debug)]
pub struct Memory {
    pub base: Option<Register>,
    pub index: Option<Register>,
    pub scale: Option<u8>,
    pub displacement: Option<i64>,
    pub size: u32,
}

/// A memory operand with every part absent and an unknown width.
pub open spec fn empty_memory() -> Memory {
    Memory { base: None, index: None, scale: None, displacement: None, size: 0 }
}

/// At least one of base, index and displacement is present, and a scale
/// comes only with an index.
pub open spec fn memory_wf(m: Memory) -> bool {
    &&& (m.base is Some || m.index is Some || m.displacement is Some)
    &&& (m.scale is Some ==> m.index is Some)
}

pub open spec fn is_mem_op(c: char) -> bool {
    c == '+' || c == '-' || c == '*'
}

/// `cur` as a piece, unless it is empty.
pub open spec fn flush(cur: Seq<char>) -> Seq<Seq<char>> {
    if cur.len() > 0 {
        seq![cur]
    } else {
        seq![]
    }
}

/// Splits `s` from `i` on, with `cur` the word read so far: whitespace
/// separates words, and each of `+ - *` is a piece of its own.
pub open spec fn split_from(s: Seq<char>, i: int, cur: Seq<char>) -> Seq<Seq<char>>
    decreases s.len() - i,
{
    if i >= s.len() || i < 0 {
        flush(cur)
    } else if is_ws(s[i]) {
        flush(cur) + split_from(s, i + 1, seq![])
    } else if is_mem_op(s[i]) {
        flush(cur) + seq![seq![s[i]]] + split_from(s, i + 1, seq![])
    } else {
        split_from(s, i + 1, cur.push(s[i]))
    }
}

/// The pieces of the text between the brackets of a memory operand.
pub open spec fn mem_pieces(s: Seq<char>) -> Seq<Seq<char>> {
    split_from(s, 0, seq![])
}

/// A scale factor: 1, 2, 4 or 8.
pub open spec fn scale_of(w: Seq<char>) -> Option<u8> {
    match i64_value(w) {
        Some(v) => if v == 1 || v == 2 || v == 4 || v == 8 {
            Some(v as u8)
        } else {
            None
        },
        None => None,
    }
}

/// A displacement introduced by the sign piece `sign`.
pub open spec fn disp_of(sign: Seq<char>, w: Seq<char>) -> Option<i64> {
    match i64_value(w) {
        Some(v) => if sign == seq!['+'] {
            Some(v)
        } else if sign == seq!['-'] && v != i64::MIN {
            Some((-v) as i64)
        } else {
            None
        },
        None => None,
    }
}

/// The operand that a sequence of pieces spells:
/// `base (+ index (* scale)?)? ((+|-) displacement)?`, or a displacement alone.
pub open spec fn mem_shape(p: Seq<Seq<char>>) -> Option<Memory> {
    let n = p.len();
    let plus = seq!['+'];
    let star = seq!['*'];
    if n >= 1 && register_of(p[0]) is Some {
        let base = register_of(p[0]);
        if n == 1 {
            Some(Memory { base, ..empty_memory() })
        } else if n == 3 && p[1] == plus && register_of(p[2]) is Some {
            Some(Memory { base, index: register_of(p[2]), ..empty_memory() })
        } else if n == 3 {
            match disp_of(p[1], p[2]) {
                Some(d) => Some(Memory { base, displacement: Some(d), ..empty_memory() }),
                None => None,
            }
        } else if n == 5 && p[1] == plus && register_of(p[2]) is Some && p[3] == star {
            match scale_of(p[4]) {
                Some(k) => Some(
                    Memory { base, index: register_of(p[2]), scale: Some(k), ..empty_memory() },
                ),
                None => None,
            }
        } else if n == 5 && p[1] == plus && register_of(p[2]) is Some {
            match disp_of(p[3], p[4]) {
                Some(d) => Some(
                    Memory {
                        base,
                        index: register_of(p[2]),
                        displacement: Some(d),
                        ..empty_memory()
                    },
                ),
                None => None,
            }
        } else if n == 7 && p[1] == plus && register_of(p[2]) is Some && p[3] == star {
            match (scale_of(p[4]), disp_of(p[5], p[6])) {
                (Some(k), Some(d)) => Some(
                    Memory {
                        base,
                        index: register_of(p[2]),
                        scale: Some(k),
                        displacement: Some(d),
                        size: 0,
                    },
                ),
                _ => None,
            }
        } else {
            None
        }
    } else if n == 1 {
        match i64_value(p[0]) {
            Some(d) => Some(Memory { displacement: Some(d), ..empty_memory() }),
            None => None,
        }
    } else if n == 2 {
        match disp_of(p[0], p[1]) {
            Some(d) => Some(Memory { displacement: Some(d), ..empty_memory() }),
            None => None,
        }
    } else {
        None
    }
}

/// The operand that the raw text `t` (`@[` ... `]`) spells, if any.
pub open spec fn mem_of(t: Seq<char>) -> Option<Memory> {
    if t.len() >= 3 && t[0] == '@' && t[1] == '[' && t.last() == ']' {
        mem_shape(mem_pieces(t.subrange(2, t.len() - 1)))
    } else {
        None
    }
}

/// The base register's part of `mem_text`.
pub open spec fn base_part(m: Memory) -> Seq<char> {
    match m.base {
        Some(r) => r.spec_name(),
        None => seq![],
    }
}

/// The index register's part of `mem_text`, with its scale.
pub open spec fn index_part(m: Memory) -> Seq<char> {
    match m.index {
        Some(r) => (if m.base is Some {
            seq!['+']
        } else {
            seq![]
        }) + r.spec_name() + match m.scale {
            Some(k) => seq!['*'] + nat_text(k as nat),
            None => seq![],
        },
        None => seq![],
    }
}

/// The displacement's part of `mem_text`.
pub open spec fn disp_part(m: Memory) -> Seq<char> {
    match m.displacement {
        Some(v) => if (m.base is Some || m.index is Some) && v >= 0 {
            seq!['+'] + int_text(v as int)
        } else {
            int_text(v as int)
        },
        None => seq![],
    }
}

/// The assembly text of a memory operand, such as `[rbp+rcx*4-8]`.
pub open spec fn mem_text(m: Memory) -> Seq<char> {
    seq!['['] + base_part(m) + index_part(m) + disp_part(m) + seq![']']
}

pub open spec fn views<'a>(v: Seq<&'a str>) -> Seq<Seq<char>> {
    v.map_values(|p: &'a str| p@)
}

/// Splits `s` into the pieces of `mem_pieces`.
fn split_pieces<'a>(s: &'a str) -> (r: Vec<&'a str>)
    ensures
        views(r@) == mem_pieces(s@),
{
    let n = s.unicode_len();
    let mut out: Vec<&'a str> = Vec::new();
    let mut cs: usize = 0;
    let mut i: usize = 0;
    assert(s@.subrange(0, 0) =~= Seq::<char>::empty());
    assert(views(out@) =~= Seq::<Seq<char>>::empty());
    assert(views(out@) + split_from(s@, 0, s@.subrange(0, 0)) =~= mem_pieces(s@));
    while i < n
        invariant
            n == s@.len(),
            cs <= i <= n,
            mem_pieces(s@) == views(out@) + split_from(s@, i as int, s@.subrange(cs as int, i as int)),
        decreases n - i,
    {
        let c = s.get_char(i);
        let ghost cur = s@.subrange(cs as int, i as int);
        let ghost before = views(out@);
        if is_whitespace(c) || c == '+' || c == '-' || c == '*' {
            if cs < i {
                let w = s.substring_char(cs, i);
                out.push(w);
                assert(views(out@) =~= before.push(cur));
            } else {
                assert(views(out@) =~= before + flush(cur));
            }
            assert(views(out@) =~= before + flush(cur));
            if !is_whitespace(c) {
                let o = s.substring_char(i, i + 1);
                let ghost mid = views(out@);
                out.push(o);
                assert(o@ =~= seq![c]);
                assert(views(out@) =~= mid.push(seq![c]));
                assert(views(out@) + split_from(s@, i + 1, seq![]) =~= before + (flush(cur) + seq![
                    seq![c],
                ] + split_from(s@, i + 1, seq![])));
            } else {
                assert(views(out@) + split_from(s@, i + 1, seq![]) =~= before + (flush(cur)
                    + split_from(s@, i + 1, seq![])));
            }
            cs = i + 1;
            assert(s@.subrange(cs as int, i + 1) =~= seq![]);
        } else {
            assert(s@.subrange(cs as int, i + 1) =~= cur.push(c));
        }
        i = i + 1;
    }
    let ghost cur = s@.subrange(cs as int, n as int);
    let ghost before = views(out@);
    if cs < n {
        let w = s.substring_char(cs, n);
        out.push(w);
        assert(views(out@) =~= before.push(cur));
    }
    assert(views(out@) =~= before + flush(cur));
    out
}

/// Whether `w` is the one-character text `c`.
fn is_piece(w: &str, c: char) -> (r: bool)
    ensures
        r == (w@ == seq![c]),
{
    if w.unicode_len() == 1 {
        let d = w.get_char(0);
        if d == c {
            assert(w@ =~= seq![c]);
            true
        } else {
            false
        }
    } else {
        false
    }
}

fn scale_piece(w: &str) -> (r: Option<u8>)
    ensures
        r == scale_of(w@),
{
    match parse_i64(w) {
        Some(v) => if v == 1 || v == 2 || v == 4 || v == 8 {
            Some(v as u8)
        } else {
            None
        },
        None => None,
    }
}

fn disp_pieces(sign: &str, w: &str) -> (r: Option<i64>)
    ensures
        r == disp_of(sign@, w@),
{
    match parse_i64(w) {
        Some(v) => if is_piece(sign, '+') {
            Some(v)
        } else if is_piece(sign, '-') && v != i64::MIN {
            Some(-v)
        } else {
            None
        },
        None => None,
    }
}

/// Reads pieces as `mem_shape` does.
fn shape_pieces(p: &Vec<&str>) -> (r: Option<Memory>)
    ensures
        r == mem_shape(views(p@)),
{
    let ghost v = views(p@);
    let n = p.len();
    assert(v.len() == n);
    assert(forall|k: int| 0 <= k < n ==> v[k] == (#[trigger] p@[k])@);
    let first = if n >= 1 {
        Register::parse(p[0])
    } else {
        None
    };
    if n >= 1 && first.is_some() {
        let base = first;
        if n == 1 {
            return Some(Memory { base, index: None, scale: None, displacement: None, size: 0 });
        }
        if n == 3 {
            let index = Register::parse(p[2]);
            if is_piece(p[1], '+') && index.is_some() {
                return Some(Memory { base, index, scale: None, displacement: None, size: 0 });
            }
            return match disp_pieces(p[1], p[2]) {
                Some(d) => Some(
                    Memory { base, index: None, scale: None, displacement: Some(d), size: 0 },
                ),
                None => None,
            };
        }
        if n == 5 || n == 7 {
            let index = Register::parse(p[2]);
            if is_piece(p[1], '+') && index.is_some() {
                if is_piece(p[3], '*') {
                    let k = scale_piece(p[4]);
                    if n == 5 {
                        return match k {
                            Some(k) => Some(
                                Memory { base, index, scale: Some(k), displacement: None, size: 0 },
                            ),
                            None => None,
                        };
                    }
                    return match (k, disp_pieces(p[5], p[6])) {
                        (Some(k), Some(d)) => Some(
                            Memory { base, index, scale: Some(k), displacement: Some(d), size: 0 },
                        ),
                        _ => None,
                    };
                }
                if n == 5 {
                    return match disp_pieces(p[3], p[4]) {
                        Some(d) => Some(
                            Memory { base, index, scale: None, displacement: Some(d), size: 0 },
                        ),
                        None => None,
                    };
                }
            }
        }
        None
    } else if n == 1 {
        match parse_i64(p[0]) {
            Some(d) => Some(
                Memory { base: None, index: None, scale: None, displacement: Some(d), size: 0 },
            ),
            None => None,
        }
    } else if n == 2 {
        match disp_pieces(p[0], p[1]) {
            Some(d) => Some(
                Memory { base: None, index: None, scale: None, displacement: Some(d), size: 0 },
            ),
            None => None,
        }
    } else {
        None
    }
}

impl Memory {
    /// A memory operand with every part absent and an unknown width.
    pub fn new() -> (r: Memory)
        ensures
            r == empty_memory(),
    {
        Memory { base: None, index: None, scale: None, displacement: None, size: 0 }
    }

    /// Reads the operand that the raw text `token` (`@[` ... `]`) spells.
    /// Its parts replace those of `self`; the width of `self` is kept.
    pub fn parse(self, token: &str) -> (r: Option<Memory>)
        ensures
            r == match mem_of(token@) {
                Some(m) => Some(Memory { size: self.size, ..m }),
                None => None,
            },
            r matches Some(m) ==> memory_wf(m),
    {
        let n = token.unicode_len();
        if n < 3 || token.get_char(0) != '@' || token.get_char(1) != '[' || token.get_char(n - 1)
            != ']' {
            return None;
        }
        let body = token.substring_char(2, n - 1);
        let pieces = split_pieces(body);
        match shape_pieces(&pieces) {
            Some(m) => Some(Memory { size: self.size, ..m }),
            None => None,
        }
    }

    /// The assembly text of the operand, such as `[rbp+rcx*4-8]`.
    pub fn to_text(&self) -> (r: String)
        ensures
            r@ == mem_text(*self),
    {
        proof {
            reveal_strlit("[");
            reveal_strlit("]");
            reveal_strlit("+");
            reveal_strlit("*");
        }
        let mut out = String::from_str("[");
        let ghost s0 = out@;
        match self.base {
            Some(r) => out.append(r.name()),
            None => {},
        }
        assert(out@ =~= s0 + base_part(*self));
        let ghost s1 = out@;
        match self.index {
            Some(r) => {
                if self.base.is_some() {
                    out.append("+");
                }
                out.append(r.name());
                match self.scale {
                    Some(k) => {
                        out.append("*");
                        push_nat(k as u64, &mut out);
                    },
                    None => {},
                }
                assert(out@ =~= s1 + index_part(*self));
            },
            None => {
                assert(out@ =~= s1 + index_part(*self));
            },
        }
        let ghost s2 = out@;
        match self.displacement {
            Some(v) => {
                if (self.base.is_some() || self.index.is_some()) && v >= 0 {
                    out.append("+");
                }
                push_int(v, &mut out);
            },
            None => {},
        }
        assert(out@ =~= s2 + disp_part(*self));
        out.append("]");
        assert(out@ =~= mem_text(*self));
        out
    }
}

} // verus!
