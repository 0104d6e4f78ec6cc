//! Parser for schema declaration source text.
//!
//! The declaration language is a structural subset of a C-family struct/enum
//! syntax with bracketed attribute annotations:
//!
//! - items: `struct Name { field: Type, ... }` and
//!   `enum Name { Unit, Tuple(Type, ...), Struct { field: Type } }`;
//! - attributes: `#[name]` and `#[name(value)]` before items and fields;
//! - types: a bare identifier, `[T]` for an array, and `Option<T>` as the
//!   optional marker, which sets the field's optional flag and unwraps to the
//!   inner type (nested markers collapse into the single flag, so the flag
//!   and the wrapper reconcile to one optional layer).
//!
//! Any other top-level construct is skipped silently; a file with no struct
//! or enum declarations at all, malformed syntax, or an enum without
//! variants is an error. There is no recovering parse: the first failure
//! aborts.
//!
//! The whole grammar is written down as spec functions — `spec_tokens` for
//! the lexical level and `spec_parse` for the syntax tree — and
//! `parse_lumos_file` is proved to return exactly the tree `spec_parse`
//! gives, and an error exactly where `spec_parse` gives none.

use vstd::prelude::*;
use crate::ast::{
    Attribute, AttributeV, AttributeValue, AttributeValueV, EnumDef, EnumDefV, EnumVariant,
    EnumVariantV, FieldDef, FieldDefV, Item, ItemV, LumosFile, LumosFileV, StructDef, StructDefV,
    TypeSpec, TypeSpecV,
};
use crate::error::LumosError;
use crate::strutil::{push_char, str_eq, trim_ascii};

verus! {

/// One lexical token of the declaration language.
#[derive(Debug, Clone, PartialEq)]
pub enum Token {
    /// An identifier or keyword.
    Ident(String),
    /// An unsigned integer literal, kept as its digit text.
    Int(String),
    /// A quoted string literal, unquoted.
    Str(String),
    /// Any single punctuation character.
    Punct(char),
}

/// Ghost view of one token.
pub enum TokenV {
    Ident(Seq<char>),
    Int(Seq<char>),
    Str(Seq<char>),
    Punct(char),
}

impl View for Token {
    type V = TokenV;

    open spec fn view(&self) -> TokenV {
        match *self {
            Token::Ident(ref s) => TokenV::Ident(s@),
            Token::Int(ref s) => TokenV::Int(s@),
            Token::Str(ref s) => TokenV::Str(s@),
            Token::Punct(c) => TokenV::Punct(c),
        }
    }
}

/// A well-formed AST: every enum declares at least one variant.
pub open spec fn ast_wf(f: LumosFileV) -> bool {
    forall|i: int|
        0 <= i < f.items.len() ==> match #[trigger] f.items[i] {
            ItemV::Enum(e) => e.variants.len() >= 1,
            _ => true,
        }
}

// ---------------------------------------------------------------------------
// The lexical grammar.
// ---------------------------------------------------------------------------
/// Whether a character is horizontal or vertical spacing.
pub open spec fn spec_space(c: char) -> bool {
    c == ' ' || c == '\t' || c == '\n' || c == '\r'
}

/// Whether a character can open an identifier.
pub open spec fn spec_ident_start(c: char) -> bool {
    ('a' <= c && c <= 'z') || ('A' <= c && c <= 'Z') || c == '_'
}

/// Whether a character can continue an identifier.
pub open spec fn spec_ident_cont(c: char) -> bool {
    spec_ident_start(c) || ('0' <= c && c <= '9')
}

/// Whether a character is a decimal digit.
pub open spec fn spec_digit(c: char) -> bool {
    '0' <= c && c <= '9'
}

/// The first position at or after `i` that does not continue an identifier.
pub open spec fn scan_ident(s: Seq<char>, i: int) -> int
    decreases s.len() - i when 0 <= i <= s.len()
{
    if i >= s.len() || !spec_ident_cont(s[i]) {
        i
    } else {
        scan_ident(s, i + 1)
    }
}

/// The first position at or after `i` that is not a digit.
pub open spec fn scan_digits(s: Seq<char>, i: int) -> int
    decreases s.len() - i when 0 <= i <= s.len()
{
    if i >= s.len() || !spec_digit(s[i]) {
        i
    } else {
        scan_digits(s, i + 1)
    }
}

/// The first line break at or after `i`, or the end.
pub open spec fn scan_line(s: Seq<char>, i: int) -> int
    decreases s.len() - i when 0 <= i <= s.len()
{
    if i >= s.len() || s[i] == '\n' {
        i
    } else {
        scan_line(s, i + 1)
    }
}

/// The position just past the closing of a block comment opened before `i`,
/// if the comment is ever closed.
pub open spec fn scan_block(s: Seq<char>, i: int) -> Option<int>
    decreases s.len() - i when 0 <= i <= s.len()
{
    if i >= s.len() {
        None
    } else if s[i] == '*' && i + 1 < s.len() && s[i + 1] == '/' {
        Some(i + 2)
    } else {
        scan_block(s, i + 1)
    }
}

/// The contents and the position just past the closing quote of a string
/// literal opened before `i`, if the literal is ever closed; a backslash
/// takes the next character verbatim.
pub open spec fn scan_str(s: Seq<char>, i: int) -> Option<(Seq<char>, int)>
    decreases s.len() - i when 0 <= i <= s.len()
{
    if i >= s.len() {
        None
    } else if s[i] == '"' {
        Some((Seq::empty(), i + 1))
    } else if s[i] == '\\' && i + 1 < s.len() {
        match scan_str(s, i + 2) {
            None => None,
            Some((rest, j)) => Some((seq![s[i + 1]] + rest, j)),
        }
    } else {
        match scan_str(s, i + 1) {
            None => None,
            Some((rest, j)) => Some((seq![s[i]] + rest, j)),
        }
    }
}

/// The position a scan hands back, guarded so that the token walk always
/// advances: a result out of range falls back to one step.
pub open spec fn next_at(i: int, j: int, len: int) -> int {
    if i < j && j <= len {
        j
    } else {
        i + 1
    }
}

/// The token sequence of the source text from position `i` on, or nothing on
/// a lexical error (an unterminated block comment or string literal).
pub open spec fn spec_tokens_from(s: Seq<char>, i: int) -> Option<Seq<TokenV>>
    decreases s.len() - i when 0 <= i <= s.len()
{
    if i >= s.len() {
        Some(Seq::empty())
    } else {
        let c = s[i];
        if spec_space(c) {
            spec_tokens_from(s, i + 1)
        } else if c == '/' && i + 1 < s.len() && s[i + 1] == '/' {
            spec_tokens_from(s, next_at(i, scan_line(s, i + 2), s.len() as int))
        } else if c == '/' && i + 1 < s.len() && s[i + 1] == '*' {
            match scan_block(s, i + 2) {
                None => None,
                Some(j) => spec_tokens_from(s, next_at(i, j, s.len() as int)),
            }
        } else if spec_ident_start(c) {
            let j = next_at(i, scan_ident(s, i + 1), s.len() as int);
            match spec_tokens_from(s, j) {
                None => None,
                Some(rest) => Some(seq![TokenV::Ident(s.subrange(i, j))] + rest),
            }
        } else if spec_digit(c) {
            let j = next_at(i, scan_digits(s, i + 1), s.len() as int);
            match spec_tokens_from(s, j) {
                None => None,
                Some(rest) => Some(seq![TokenV::Int(s.subrange(i, j))] + rest),
            }
        } else if c == '"' {
            match scan_str(s, i + 1) {
                None => None,
                Some((txt, j)) => match spec_tokens_from(s, next_at(i, j, s.len() as int)) {
                    None => None,
                    Some(rest) => Some(seq![TokenV::Str(txt)] + rest),
                },
            }
        } else {
            match spec_tokens_from(s, i + 1) {
                None => None,
                Some(rest) => Some(seq![TokenV::Punct(c)] + rest),
            }
        }
    }
}

/// The token sequence of the whole source text, or nothing on a lexical
/// error.
pub open spec fn spec_tokens(s: Seq<char>) -> Option<Seq<TokenV>> {
    spec_tokens_from(s, 0)
}



fn is_space(c: char) -> (r: bool)
    ensures
        r == spec_space(c),
{
    c == ' ' || c == '\t' || c == '\n' || c == '\r'
}

fn is_ident_start(c: char) -> (r: bool)
    ensures
        r == spec_ident_start(c),
{
    ('a' <= c && c <= 'z') || ('A' <= c && c <= 'Z') || c == '_'
}

fn is_ident_continue(c: char) -> (r: bool)
    ensures
        r == spec_ident_cont(c),
{
    ('a' <= c && c <= 'z') || ('A' <= c && c <= 'Z') || ('0' <= c && c <= '9') || c == '_'
}

fn is_digit(c: char) -> (r: bool)
    ensures
        r == spec_digit(c),
{
    '0' <= c && c <= '9'
}

fn parse_error(detail: &str) -> (r: LumosError)
    ensures
        r is SchemaParse,
{
    let mut msg = String::from_str("Failed to parse .lumos file: ");
    msg.append(detail);
    LumosError::SchemaParse(msg, None)
}

proof fn lemma_token_step(
    s: Seq<char>,
    i0: int,
    inext: int,
    toks0: Seq<TokenV>,
    toks1: Seq<TokenV>,
    t: TokenV,
)
    requires
        spec_tokens(s) == (match spec_tokens_from(s, i0) {
            Some(r0) => Some(toks0 + r0),
            None => None::<Seq<TokenV>>,
        }),
        spec_tokens_from(s, i0) == (match spec_tokens_from(s, inext) {
            Some(r) => Some(seq![t] + r),
            None => None::<Seq<TokenV>>,
        }),
        toks1 == toks0.push(t),
    ensures
        spec_tokens(s) == (match spec_tokens_from(s, inext) {
            Some(r) => Some(toks1 + r),
            None => None::<Seq<TokenV>>,
        }),
{
    match spec_tokens_from(s, inext) {
        Some(r) => {
            assert(toks0 + (seq![t] + r) =~= toks1 + r);
        },
        None => {},
    }
}

proof fn lemma_token_map_push(prev: Seq<Token>, x: Token)
    ensures
        prev.push(x).map_values(|t: Token| t@) == prev.map_values(|t: Token| t@).push(x@),
{
    assert(prev.push(x).map_values(|t: Token| t@) =~= prev.map_values(|t: Token| t@).push(x@));
}

fn tokenize(input: &str) -> (r: Result<Vec<Token>, LumosError>)
    ensures
        match spec_tokens(input@) {
            Some(ts) => r matches Ok(v) && v@.map_values(|t: Token| t@) == ts,
            None => r matches Err(e) && e is SchemaParse,
        },
{
    let ghost s = input@;
    let len = input.unicode_len();
    let mut tokens: Vec<Token> = Vec::new();
    let mut i: usize = 0;
    while i < len
        invariant
            i <= len,
            len == s.len(),
            s == input@,
            spec_tokens(s) == (match spec_tokens_from(s, i as int) {
                Some(rest) => Some(tokens@.map_values(|t: Token| t@) + rest),
                None => None::<Seq<TokenV>>,
            }),
        decreases len - i,
    {
        let ghost i0 = i as int;
        let ghost toks0 = tokens@.map_values(|t: Token| t@);
        let c = input.get_char(i);
        if is_space(c) {
            i = i + 1;
        } else if c == '/' && i + 1 < len && input.get_char(i + 1) == '/' {
            // line comment
            i = i + 2;
            let ghost start = i as int;
            while i < len && input.get_char(i) != '\n'
                invariant
                    start <= i <= len,
                    len == s.len(),
                    s == input@,
                    scan_line(s, start) == scan_line(s, i as int),
                decreases len - i,
            {
                i = i + 1;
            }
            assert(scan_line(s, start) == i as int);
            assert(next_at(i0, scan_line(s, i0 + 2), s.len() as int) == i as int);
        } else if c == '/' && i + 1 < len && input.get_char(i + 1) == '*' {
            // block comment
            i = i + 2;
            let ghost start = i as int;
            let mut closed = false;
            while !closed && i < len
                invariant
                    start <= i <= len,
                    len == s.len(),
                    s == input@,
                    scan_block(s, start) == (if closed {
                        Some(i as int)
                    } else {
                        scan_block(s, i as int)
                    }),
                decreases len - i,
            {
                if input.get_char(i) == '*' && i + 1 < len && input.get_char(i + 1) == '/' {
                    closed = true;
                    i = i + 2;
                } else {
                    i = i + 1;
                }
            }
            if !closed {
                assert(scan_block(s, start) is None);
                assert(spec_tokens_from(s, i0) is None);
                return Err(parse_error("unterminated block comment"));
            }
            assert(scan_block(s, i0 + 2) == Some(i as int));
            assert(next_at(i0, i as int, s.len() as int) == i as int);
        } else if is_ident_start(c) {
            let mut name = String::new();
            push_char(&mut name, c);
            i = i + 1;
            while i < len && is_ident_continue(input.get_char(i))
                invariant
                    0 <= i0 < i <= len,
                    len == s.len(),
                    s == input@,
                    name@ =~= s.subrange(i0, i as int),
                    scan_ident(s, i0 + 1) == scan_ident(s, i as int),
                decreases len - i,
            {
                push_char(&mut name, input.get_char(i));
                assert(name@ =~= s.subrange(i0, i + 1)) by {
                    assert(s.subrange(i0, i + 1) =~= s.subrange(i0, i as int).push(s[i as int]));
                }
                i = i + 1;
            }
            assert(scan_ident(s, i0 + 1) == i as int);
            assert(next_at(i0, i as int, s.len() as int) == i as int);
            let ghost t = TokenV::Ident(s.subrange(i0, i as int));
            assert(name@ == s.subrange(i0, i as int));
            assert(spec_tokens_from(s, i0) == (match spec_tokens_from(s, i as int) {
                Some(rest) => Some(seq![t] + rest),
                None => None::<Seq<TokenV>>,
            }));
            let ghost prev_vec = tokens@;
            tokens.push(Token::Ident(name));
            proof {
                assert(tokens@ =~= prev_vec.push(tokens@.last()));
                lemma_token_map_push(prev_vec, tokens@.last());
                assert(tokens@.last()@ == t);
                lemma_token_step(s, i0, i as int, toks0, tokens@.map_values(|t: Token| t@), t);
            }
        } else if is_digit(c) {
            let mut digits = String::new();
            push_char(&mut digits, c);
            i = i + 1;
            while i < len && is_digit(input.get_char(i))
                invariant
                    0 <= i0 < i <= len,
                    len == s.len(),
                    s == input@,
                    digits@ =~= s.subrange(i0, i as int),
                    scan_digits(s, i0 + 1) == scan_digits(s, i as int),
                decreases len - i,
            {
                push_char(&mut digits, input.get_char(i));
                assert(digits@ =~= s.subrange(i0, i + 1)) by {
                    assert(s.subrange(i0, i + 1) =~= s.subrange(i0, i as int).push(s[i as int]));
                }
                i = i + 1;
            }
            assert(scan_digits(s, i0 + 1) == i as int);
            assert(next_at(i0, i as int, s.len() as int) == i as int);
            let ghost t = TokenV::Int(s.subrange(i0, i as int));
            assert(digits@ == s.subrange(i0, i as int));
            assert(spec_tokens_from(s, i0) == (match spec_tokens_from(s, i as int) {
                Some(rest) => Some(seq![t] + rest),
                None => None::<Seq<TokenV>>,
            }));
            let ghost prev_vec = tokens@;
            tokens.push(Token::Int(digits));
            proof {
                assert(tokens@ =~= prev_vec.push(tokens@.last()));
                lemma_token_map_push(prev_vec, tokens@.last());
                assert(tokens@.last()@ == t);
                lemma_token_step(s, i0, i as int, toks0, tokens@.map_values(|t: Token| t@), t);
            }
        } else if c == '"' {
            let mut contents = String::new();
            i = i + 1;
            let mut closed = false;
            while !closed && i < len
                invariant
                    0 <= i0 < i <= len,
                    len == s.len(),
                    s == input@,
                    scan_str(s, i0 + 1) == (if closed {
                        Some((contents@, i as int))
                    } else {
                        match scan_str(s, i as int) {
                            Some((rest, j)) => Some((contents@ + rest, j)),
                            None => None::<(Seq<char>, int)>,
                        }
                    }),
                decreases len - i,
            {
                let ghost before = contents@;
                let d = input.get_char(i);
                if d == '"' {
                    closed = true;
                    assert(scan_str(s, i as int) == Some((Seq::<char>::empty(), i + 1)));
                    assert(before + Seq::<char>::empty() =~= before);
                    i = i + 1;
                } else if d == '\\' && i + 1 < len {
                    push_char(&mut contents, input.get_char(i + 1));
                    proof {
                        match scan_str(s, i + 2) {
                            Some((r2, j2)) => {
                                assert(before + (seq![s[i + 1]] + r2) =~= contents@ + r2);
                            },
                            None => {},
                        }
                    }
                    i = i + 2;
                } else {
                    push_char(&mut contents, d);
                    proof {
                        match scan_str(s, i + 1) {
                            Some((r2, j2)) => {
                                assert(before + (seq![s[i as int]] + r2) =~= contents@ + r2);
                            },
                            None => {},
                        }
                    }
                    i = i + 1;
                }
            }
            if !closed {
                assert(scan_str(s, i as int) is None);
                assert(spec_tokens_from(s, i0) is None);
                return Err(parse_error("unterminated string literal"));
            }
            assert(scan_str(s, i0 + 1) == Some((contents@, i as int)));
            assert(next_at(i0, i as int, s.len() as int) == i as int);
            let ghost t = TokenV::Str(contents@);
            assert(spec_tokens_from(s, i0) == (match spec_tokens_from(s, i as int) {
                Some(rest) => Some(seq![t] + rest),
                None => None::<Seq<TokenV>>,
            }));
            let ghost prev_vec = tokens@;
            tokens.push(Token::Str(contents));
            proof {
                assert(tokens@ =~= prev_vec.push(tokens@.last()));
                lemma_token_map_push(prev_vec, tokens@.last());
                assert(tokens@.last()@ == t);
                lemma_token_step(s, i0, i as int, toks0, tokens@.map_values(|t: Token| t@), t);
            }
        } else {
            let ghost t = TokenV::Punct(c);
            i = i + 1;
            assert(spec_tokens_from(s, i0) == (match spec_tokens_from(s, i as int) {
                Some(rest) => Some(seq![t] + rest),
                None => None::<Seq<TokenV>>,
            }));
            let ghost prev_vec = tokens@;
            tokens.push(Token::Punct(c));
            proof {
                assert(tokens@ =~= prev_vec.push(tokens@.last()));
                lemma_token_map_push(prev_vec, tokens@.last());
                assert(tokens@.last()@ == t);
                lemma_token_step(s, i0, i as int, toks0, tokens@.map_values(|t: Token| t@), t);
            }
        }
    }
    assert(spec_tokens_from(s, i as int) == Some(Seq::<TokenV>::empty()));
    assert(tokens@.map_values(|t: Token| t@) + Seq::<TokenV>::empty() =~= tokens@.map_values(
        |t: Token| t@,
    ));
    Ok(tokens)
}

// ---------------------------------------------------------------------------
// The syntactic grammar, over the token sequence. Each `spec_..._at`
// function gives the parse of one construct beginning at a token position:
// the parsed value with the position just past it, or nothing on a syntax
// error. `adv` guards every position a recursion continues from, so each
// function visibly advances; the bounds lemmas below show the guard never
// actually fires.
// ---------------------------------------------------------------------------
/// A recursion position, guarded to advance.
pub open spec fn adv(p: int, q: int, len: int) -> int {
    if p < q && q <= len {
        q
    } else {
        p + 1
    }
}

/// Whether a token is the given punctuation character.
pub open spec fn tok_punct(t: TokenV, c: char) -> bool {
    t == TokenV::Punct(c)
}

/// The attribute list beginning at `p`: zero or more `#[name]` or
/// `#[name(value)]` groups.
pub open spec fn spec_attrs_at(toks: Seq<TokenV>, p: int) -> Option<(Seq<AttributeV>, int)>
    decreases toks.len() - p when 0 <= p <= toks.len()
{
    if p >= toks.len() || !tok_punct(toks[p], '#') {
        Some((Seq::empty(), p))
    } else if p + 1 >= toks.len() || !tok_punct(toks[p + 1], '[') {
        None
    } else if p + 2 >= toks.len() || !(toks[p + 2] is Ident) {
        None
    } else {
        let name = toks[p + 2]->Ident_0;
        if p + 3 < toks.len() && tok_punct(toks[p + 3], '(') {
            if p + 4 >= toks.len() {
                None
            } else {
                let value = match toks[p + 4] {
                    TokenV::Ident(s) => spec_attr_value(s),
                    TokenV::Int(s) => spec_attr_value(s),
                    TokenV::Str(s) => AttributeValueV::String(s),
                    TokenV::Punct(c) => spec_attr_value(seq![c]),
                };
                if p + 5 >= toks.len() || !tok_punct(toks[p + 5], ')') {
                    None
                } else if p + 6 >= toks.len() || !tok_punct(toks[p + 6], ']') {
                    None
                } else {
                    match spec_attrs_at(toks, p + 7) {
                        None => None,
                        Some((rest, q)) => Some(
                            (seq![AttributeV { name, value: Some(value) }] + rest, q),
                        ),
                    }
                }
            }
        } else {
            if p + 3 >= toks.len() || !tok_punct(toks[p + 3], ']') {
                None
            } else {
                match spec_attrs_at(toks, p + 4) {
                    None => None,
                    Some((rest, q)) => Some((seq![AttributeV { name, value: None }] + rest, q)),
                }
            }
        }
    }
}

/// The last segment of a `::`-joined path beginning after its first segment.
pub open spec fn spec_path_at(toks: Seq<TokenV>, p: int, name: Seq<char>) -> (Seq<char>, int)
    decreases toks.len() - p when 0 <= p <= toks.len()
{
    if p + 2 < toks.len() && tok_punct(toks[p], ':') && tok_punct(toks[p + 1], ':') && (toks[p + 2]
        is Ident) {
        spec_path_at(toks, p + 3, toks[p + 2]->Ident_0)
    } else {
        (name, p)
    }
}

/// The position just past a balanced run of angle brackets of the given open
/// depth, if the run is ever balanced.
pub open spec fn spec_angles_at(toks: Seq<TokenV>, p: int, depth: nat) -> Option<int>
    decreases toks.len() - p when 0 <= p <= toks.len()
{
    if depth == 0 {
        Some(p)
    } else if p >= toks.len() {
        None
    } else if tok_punct(toks[p], '<') {
        spec_angles_at(toks, p + 1, depth + 1)
    } else if tok_punct(toks[p], '>') {
        spec_angles_at(toks, p + 1, (depth - 1) as nat)
    } else {
        spec_angles_at(toks, p + 1, depth)
    }
}

/// The type reference beginning at `p`: a bracketed array, or a bare name
/// (possibly a path, possibly carrying ignored generic arguments), with
/// `Option<T>` unwrapping to the inner type and setting the optional flag.
pub open spec fn spec_type_at(toks: Seq<TokenV>, p: int) -> Option<(TypeSpecV, bool, int)>
    decreases toks.len() - p when 0 <= p <= toks.len()
{
    if p >= toks.len() {
        None
    } else if tok_punct(toks[p], '[') {
        match spec_type_at(toks, p + 1) {
            None => None,
            Some((inner, _, q)) => if q < toks.len() && tok_punct(toks[q], ']') {
                Some((TypeSpecV::Array(Box::new(inner)), false, q + 1))
            } else {
                None
            },
        }
    } else if toks[p] is Ident {
        let pq = spec_path_at(toks, p + 1, toks[p]->Ident_0);
        let name = pq.0;
        let q = adv(p, pq.1, toks.len() as int);
        if q < toks.len() && tok_punct(toks[q], '<') {
            if name == "Option"@ {
                match spec_type_at(toks, q + 1) {
                    None => None,
                    Some((inner, _, q2)) => if q2 < toks.len() && tok_punct(toks[q2], '>') {
                        Some((inner, true, q2 + 1))
                    } else {
                        None
                    },
                }
            } else {
                match spec_angles_at(toks, q + 1, 1) {
                    None => None,
                    Some(j) => Some((TypeSpecV::Primitive(name), false, j)),
                }
            }
        } else {
            Some((TypeSpecV::Primitive(name), false, q))
        }
    } else {
        None
    }
}

/// The field beginning at `p`: attributes, a name, a colon and a type.
pub open spec fn spec_field_at(toks: Seq<TokenV>, p: int) -> Option<(FieldDefV, int)> {
    match spec_attrs_at(toks, p) {
        None => None,
        Some((attrs, q)) => if q >= toks.len() || !(toks[q] is Ident) {
            None
        } else if q + 1 >= toks.len() || !tok_punct(toks[q + 1], ':') {
            None
        } else {
            match spec_type_at(toks, q + 2) {
                None => None,
                Some((ts, opt, q2)) => Some(
                    (
                        FieldDefV {
                            name: toks[q]->Ident_0,
                            type_spec: ts,
                            optional: opt,
                            attributes: attrs,
                        },
                        q2,
                    ),
                ),
            }
        },
    }
}

/// The comma-separated field list beginning at `p`, up to and past its
/// closing brace.
pub open spec fn spec_fields_at(toks: Seq<TokenV>, p: int) -> Option<(Seq<FieldDefV>, int)>
    decreases toks.len() - p when 0 <= p <= toks.len()
{
    if p >= toks.len() {
        None
    } else if tok_punct(toks[p], '}') {
        Some((Seq::empty(), p + 1))
    } else {
        match spec_field_at(toks, p) {
            None => None,
            Some((f, q0)) => {
                let q = adv(p, q0, toks.len() as int);
                if q < toks.len() && tok_punct(toks[q], ',') {
                    match spec_fields_at(toks, q + 1) {
                        None => None,
                        Some((rest, q2)) => Some((seq![f] + rest, q2)),
                    }
                } else if q < toks.len() && tok_punct(toks[q], '}') {
                    match spec_fields_at(toks, q) {
                        None => None,
                        Some((rest, q2)) => Some((seq![f] + rest, q2)),
                    }
                } else {
                    None
                }
            },
        }
    }
}

/// The comma-separated tuple slot list beginning at `p`, up to and past its
/// closing parenthesis.
pub open spec fn spec_tuple_at(toks: Seq<TokenV>, p: int) -> Option<(Seq<TypeSpecV>, int)>
    decreases toks.len() - p when 0 <= p <= toks.len()
{
    if p >= toks.len() {
        None
    } else if tok_punct(toks[p], ')') {
        Some((Seq::empty(), p + 1))
    } else {
        match spec_type_at(toks, p) {
            None => None,
            Some((ts, _, q0)) => {
                let q = adv(p, q0, toks.len() as int);
                if q < toks.len() && tok_punct(toks[q], ',') {
                    match spec_tuple_at(toks, q + 1) {
                        None => None,
                        Some((rest, q2)) => Some((seq![ts] + rest, q2)),
                    }
                } else if q < toks.len() && tok_punct(toks[q], ')') {
                    match spec_tuple_at(toks, q) {
                        None => None,
                        Some((rest, q2)) => Some((seq![ts] + rest, q2)),
                    }
                } else {
                    None
                }
            },
        }
    }
}

/// The enum variant beginning at `p`: attributes (accepted and dropped), a
/// name, and one of the three shapes.
pub open spec fn spec_variant_at(toks: Seq<TokenV>, p: int) -> Option<(EnumVariantV, int)> {
    match spec_attrs_at(toks, p) {
        None => None,
        Some((_, q)) => if q >= toks.len() || !(toks[q] is Ident) {
            None
        } else {
            let name = toks[q]->Ident_0;
            if q + 1 < toks.len() && tok_punct(toks[q + 1], '(') {
                match spec_tuple_at(toks, q + 2) {
                    None => None,
                    Some((ts, q2)) => Some((EnumVariantV::Tuple { name, types: ts }, q2)),
                }
            } else if q + 1 < toks.len() && tok_punct(toks[q + 1], '{') {
                match spec_fields_at(toks, q + 2) {
                    None => None,
                    Some((fs, q2)) => Some((EnumVariantV::Struct { name, fields: fs }, q2)),
                }
            } else {
                Some((EnumVariantV::Unit { name }, q + 1))
            }
        },
    }
}

/// The comma-separated variant list beginning at `p`, up to and past its
/// closing brace.
pub open spec fn spec_variants_at(toks: Seq<TokenV>, p: int) -> Option<(Seq<EnumVariantV>, int)>
    decreases toks.len() - p when 0 <= p <= toks.len()
{
    if p >= toks.len() {
        None
    } else if tok_punct(toks[p], '}') {
        Some((Seq::empty(), p + 1))
    } else {
        match spec_variant_at(toks, p) {
            None => None,
            Some((v, q0)) => {
                let q = adv(p, q0, toks.len() as int);
                if q < toks.len() && tok_punct(toks[q], ',') {
                    match spec_variants_at(toks, q + 1) {
                        None => None,
                        Some((rest, q2)) => Some((seq![v] + rest, q2)),
                    }
                } else if q < toks.len() && tok_punct(toks[q], '}') {
                    match spec_variants_at(toks, q) {
                        None => None,
                        Some((rest, q2)) => Some((seq![v] + rest, q2)),
                    }
                } else {
                    None
                }
            },
        }
    }
}

/// The struct declaration beginning at its name at `p`. A parenthesis after
/// the name (a tuple struct) is rejected: fields must be named.
pub open spec fn spec_struct_at(toks: Seq<TokenV>, p: int, attrs: Seq<AttributeV>) -> Option<
    (StructDefV, int),
> {
    if p >= toks.len() || !(toks[p] is Ident) {
        None
    } else if p + 1 < toks.len() && tok_punct(toks[p + 1], '(') {
        None
    } else if p + 1 >= toks.len() || !tok_punct(toks[p + 1], '{') {
        None
    } else {
        match spec_fields_at(toks, p + 2) {
            None => None,
            Some((fs, q)) => Some(
                (StructDefV { name: toks[p]->Ident_0, attributes: attrs, fields: fs }, q),
            ),
        }
    }
}

/// The enum declaration beginning at its name at `p`; an enum without
/// variants is rejected.
pub open spec fn spec_enum_at(toks: Seq<TokenV>, p: int, attrs: Seq<AttributeV>) -> Option<
    (EnumDefV, int),
> {
    if p >= toks.len() || !(toks[p] is Ident) {
        None
    } else if p + 1 >= toks.len() || !tok_punct(toks[p + 1], '{') {
        None
    } else {
        match spec_variants_at(toks, p + 2) {
            None => None,
            Some((vs, q)) => if vs.len() == 0 {
                None
            } else {
                Some((EnumDefV { name: toks[p]->Ident_0, attributes: attrs, variants: vs }, q))
            },
        }
    }
}

/// The position just past a skipped non-schema item beginning at `p`: past a
/// top-level semicolon or a complete braced body, or the end; unbalanced
/// brackets are a syntax error.
pub open spec fn spec_skip_at(toks: Seq<TokenV>, p: int, depth: nat) -> Option<int>
    decreases toks.len() - p when 0 <= p <= toks.len()
{
    if p >= toks.len() {
        if depth > 0 {
            None
        } else {
            Some(p)
        }
    } else {
        match toks[p] {
            TokenV::Punct(c) => if c == '{' || c == '(' || c == '[' {
                spec_skip_at(toks, p + 1, depth + 1)
            } else if c == '}' || c == ')' || c == ']' {
                if depth == 0 {
                    None
                } else if depth == 1 && c == '}' {
                    Some(p + 1)
                } else {
                    spec_skip_at(toks, p + 1, (depth - 1) as nat)
                }
            } else if c == ';' && depth == 0 {
                Some(p + 1)
            } else {
                spec_skip_at(toks, p + 1, depth)
            },
            _ => spec_skip_at(toks, p + 1, depth),
        }
    }
}

/// The schema items of the token sequence from `p` on: struct and enum
/// declarations in order, every other top-level construct skipped; attributes
/// at the very end with no item to carry them are a syntax error.
pub open spec fn spec_items_at(toks: Seq<TokenV>, p: int) -> Option<Seq<ItemV>>
    decreases toks.len() - p when 0 <= p <= toks.len()
{
    if p >= toks.len() {
        Some(Seq::empty())
    } else {
        match spec_attrs_at(toks, p) {
            None => None,
            Some((attrs, q)) => if q >= toks.len() {
                None
            } else if toks[q] == TokenV::Ident("struct"@) {
                match spec_struct_at(toks, q + 1, attrs) {
                    None => None,
                    Some((sd, q1)) => match spec_items_at(toks, adv(p, q1, toks.len() as int)) {
                        None => None,
                        Some(rest) => Some(seq![ItemV::Struct(sd)] + rest),
                    },
                }
            } else if toks[q] == TokenV::Ident("enum"@) {
                match spec_enum_at(toks, q + 1, attrs) {
                    None => None,
                    Some((ed, q1)) => match spec_items_at(toks, adv(p, q1, toks.len() as int)) {
                        None => None,
                        Some(rest) => Some(seq![ItemV::Enum(ed)] + rest),
                    },
                }
            } else {
                match spec_skip_at(toks, q, 0) {
                    None => None,
                    Some(j) => spec_items_at(toks, adv(p, j, toks.len() as int)),
                }
            },
        }
    }
}

/// The parse of whole source text: its token sequence's items, rejected when
/// lexing fails, when any item is malformed, or when no schema item at all
/// is declared.
pub open spec fn spec_parse(s: Seq<char>) -> Option<LumosFileV> {
    match spec_tokens(s) {
        None => None,
        Some(toks) => match spec_items_at(toks, 0) {
            None => None,
            Some(items) => if items.len() == 0 {
                None
            } else {
                Some(LumosFileV { items })
            },
        },
    }
}

// ---------------------------------------------------------------------------
// Position bounds of the grammar functions: every parse of a construct ends
// inside the token sequence and (except an empty attribute list) past where
// it began, so `adv` is the identity wherever the grammar recurses.
// ---------------------------------------------------------------------------
proof fn lemma_attrs_bounds(toks: Seq<TokenV>, p: int)
    requires
        0 <= p <= toks.len(),
    ensures
        match spec_attrs_at(toks, p) {
            Some((attrs, q)) => p <= q <= toks.len() && (attrs.len() == 0 ==> q == p) && (
            attrs.len() > 0 ==> q > p),
            None => true,
        },
    decreases toks.len() - p,
{
    if !(p >= toks.len() || !tok_punct(toks[p], '#')) {
        if p + 3 < toks.len() && tok_punct(toks[p + 3], '(') {
            if p + 6 < toks.len() {
                lemma_attrs_bounds(toks, p + 7);
            }
        } else {
            if p + 3 < toks.len() {
                lemma_attrs_bounds(toks, p + 4);
            }
        }
    }
}

proof fn lemma_path_bounds(toks: Seq<TokenV>, p: int, name: Seq<char>)
    requires
        0 <= p <= toks.len(),
    ensures
        p <= spec_path_at(toks, p, name).1 <= toks.len(),
    decreases toks.len() - p,
{
    if p + 2 < toks.len() && tok_punct(toks[p], ':') && tok_punct(toks[p + 1], ':') && (toks[p + 2]
        is Ident) {
        lemma_path_bounds(toks, p + 3, toks[p + 2]->Ident_0);
    }
}

proof fn lemma_angles_bounds(toks: Seq<TokenV>, p: int, depth: nat)
    requires
        0 <= p <= toks.len(),
    ensures
        match spec_angles_at(toks, p, depth) {
            Some(j) => p <= j <= toks.len(),
            None => true,
        },
    decreases toks.len() - p,
{
    if depth != 0 && p < toks.len() {
        if tok_punct(toks[p], '<') {
            lemma_angles_bounds(toks, p + 1, depth + 1);
        } else if tok_punct(toks[p], '>') {
            lemma_angles_bounds(toks, p + 1, (depth - 1) as nat);
        } else {
            lemma_angles_bounds(toks, p + 1, depth);
        }
    }
}

proof fn lemma_type_bounds(toks: Seq<TokenV>, p: int)
    requires
        0 <= p <= toks.len(),
    ensures
        match spec_type_at(toks, p) {
            Some((_, _, q)) => p < q <= toks.len(),
            None => true,
        },
    decreases toks.len() - p,
{
    if p < toks.len() {
        if tok_punct(toks[p], '[') {
            lemma_type_bounds(toks, p + 1);
        } else if toks[p] is Ident {
            lemma_path_bounds(toks, p + 1, toks[p]->Ident_0);
            let pq = spec_path_at(toks, p + 1, toks[p]->Ident_0);
            let q = adv(p, pq.1, toks.len() as int);
            if q < toks.len() && tok_punct(toks[q], '<') {
                if pq.0 == "Option"@ {
                    lemma_type_bounds(toks, q + 1);
                } else {
                    lemma_angles_bounds(toks, q + 1, 1);
                }
            }
        }
    }
}

proof fn lemma_field_bounds(toks: Seq<TokenV>, p: int)
    requires
        0 <= p <= toks.len(),
    ensures
        match spec_field_at(toks, p) {
            Some((_, q)) => p < q <= toks.len(),
            None => true,
        },
{
    lemma_attrs_bounds(toks, p);
    match spec_attrs_at(toks, p) {
        Some((attrs, q)) => {
            if !(q >= toks.len() || !(toks[q] is Ident)) && !(q + 1 >= toks.len() || !tok_punct(
                toks[q + 1],
                ':',
            )) {
                lemma_type_bounds(toks, q + 2);
            }
        },
        None => {},
    }
}

proof fn lemma_fields_bounds(toks: Seq<TokenV>, p: int)
    requires
        0 <= p <= toks.len(),
    ensures
        match spec_fields_at(toks, p) {
            Some((_, q)) => p < q <= toks.len(),
            None => true,
        },
    decreases toks.len() - p,
{
    if p < toks.len() && !tok_punct(toks[p], '}') {
        lemma_field_bounds(toks, p);
        match spec_field_at(toks, p) {
            Some((f, q0)) => {
                let q = adv(p, q0, toks.len() as int);
                if q < toks.len() && tok_punct(toks[q], ',') {
                    lemma_fields_bounds(toks, q + 1);
                } else if q < toks.len() && tok_punct(toks[q], '}') {
                    lemma_fields_bounds(toks, q);
                }
            },
            None => {},
        }
    }
}

proof fn lemma_tuple_bounds(toks: Seq<TokenV>, p: int)
    requires
        0 <= p <= toks.len(),
    ensures
        match spec_tuple_at(toks, p) {
            Some((_, q)) => p < q <= toks.len(),
            None => true,
        },
    decreases toks.len() - p,
{
    if p < toks.len() && !tok_punct(toks[p], ')') {
        lemma_type_bounds(toks, p);
        match spec_type_at(toks, p) {
            Some((ts, _, q0)) => {
                let q = adv(p, q0, toks.len() as int);
                if q < toks.len() && tok_punct(toks[q], ',') {
                    lemma_tuple_bounds(toks, q + 1);
                } else if q < toks.len() && tok_punct(toks[q], ')') {
                    lemma_tuple_bounds(toks, q);
                }
            },
            None => {},
        }
    }
}

proof fn lemma_variant_bounds(toks: Seq<TokenV>, p: int)
    requires
        0 <= p <= toks.len(),
    ensures
        match spec_variant_at(toks, p) {
            Some((_, q)) => p < q <= toks.len(),
            None => true,
        },
{
    lemma_attrs_bounds(toks, p);
    match spec_attrs_at(toks, p) {
        Some((attrs, q)) => {
            if !(q >= toks.len() || !(toks[q] is Ident)) {
                if q + 1 < toks.len() && tok_punct(toks[q + 1], '(') {
                    lemma_tuple_bounds(toks, q + 2);
                } else if q + 1 < toks.len() && tok_punct(toks[q + 1], '{') {
                    lemma_fields_bounds(toks, q + 2);
                }
            }
        },
        None => {},
    }
}

proof fn lemma_variants_bounds(toks: Seq<TokenV>, p: int)
    requires
        0 <= p <= toks.len(),
    ensures
        match spec_variants_at(toks, p) {
            Some((_, q)) => p < q <= toks.len(),
            None => true,
        },
    decreases toks.len() - p,
{
    if p < toks.len() && !tok_punct(toks[p], '}') {
        lemma_variant_bounds(toks, p);
        match spec_variant_at(toks, p) {
            Some((v, q0)) => {
                let q = adv(p, q0, toks.len() as int);
                if q < toks.len() && tok_punct(toks[q], ',') {
                    lemma_variants_bounds(toks, q + 1);
                } else if q < toks.len() && tok_punct(toks[q], '}') {
                    lemma_variants_bounds(toks, q);
                }
            },
            None => {},
        }
    }
}

proof fn lemma_struct_bounds(toks: Seq<TokenV>, p: int, attrs: Seq<AttributeV>)
    requires
        0 <= p <= toks.len(),
    ensures
        match spec_struct_at(toks, p, attrs) {
            Some((_, q)) => p < q <= toks.len(),
            None => true,
        },
{
    if !(p >= toks.len() || !(toks[p] is Ident)) {
        if p + 1 < toks.len() && tok_punct(toks[p + 1], '{') {
            lemma_fields_bounds(toks, p + 2);
        }
    }
}

proof fn lemma_enum_bounds(toks: Seq<TokenV>, p: int, attrs: Seq<AttributeV>)
    requires
        0 <= p <= toks.len(),
    ensures
        match spec_enum_at(toks, p, attrs) {
            Some((_, q)) => p < q <= toks.len(),
            None => true,
        },
{
    if !(p >= toks.len() || !(toks[p] is Ident)) {
        if p + 1 < toks.len() && tok_punct(toks[p + 1], '{') {
            lemma_variants_bounds(toks, p + 2);
        }
    }
}

proof fn lemma_skip_bounds(toks: Seq<TokenV>, p: int, depth: nat)
    requires
        0 <= p <= toks.len(),
    ensures
        match spec_skip_at(toks, p, depth) {
            Some(j) => p <= j <= toks.len() && (p < toks.len() ==> p < j),
            None => true,
        },
    decreases toks.len() - p,
{
    if p < toks.len() {
        match toks[p] {
            TokenV::Punct(c) => {
                if c == '{' || c == '(' || c == '[' {
                    lemma_skip_bounds(toks, p + 1, depth + 1);
                } else if c == '}' || c == ')' || c == ']' {
                    if depth > 1 || (depth == 1 && c != '}') {
                        lemma_skip_bounds(toks, p + 1, (depth - 1) as nat);
                    }
                } else if !(c == ';' && depth == 0) {
                    lemma_skip_bounds(toks, p + 1, depth);
                }
            },
            _ => {
                lemma_skip_bounds(toks, p + 1, depth);
            },
        }
    }
}

// ---------------------------------------------------------------------------
// The executable parser, each function proved to return exactly its grammar
// function's parse.
// ---------------------------------------------------------------------------
/// The view of a token vector.
pub open spec fn toks_of(tokens: Seq<Token>) -> Seq<TokenV> {
    tokens.map_values(|t: Token| t@)
}

fn peek_punct(tokens: &Vec<Token>, p: usize, c: char) -> (r: bool)
    ensures
        r == (p < toks_of(tokens@).len() && tok_punct(toks_of(tokens@)[p as int], c)),
{
    if p < tokens.len() {
        match &tokens[p] {
            Token::Punct(d) => *d == c,
            _ => false,
        }
    } else {
        false
    }
}

fn peek_ident(tokens: &Vec<Token>, p: usize) -> (r: bool)
    ensures
        r == (p < toks_of(tokens@).len() && toks_of(tokens@)[p as int] is Ident),
{
    if p < tokens.len() {
        match &tokens[p] {
            Token::Ident(_) => true,
            _ => false,
        }
    } else {
        false
    }
}

/// Whether every character is a decimal digit.
pub open spec fn spec_all_digits(s: Seq<char>) -> bool {
    forall|i: int| 0 <= i < s.len() ==> '0' <= #[trigger] s[i] && s[i] <= '9'
}

/// The numeric value of a digit sequence, most significant digit first.
pub open spec fn spec_digits_value(s: Seq<char>) -> int
    decreases s.len(),
{
    if s.len() == 0 {
        0
    } else {
        spec_digits_value(s.take(s.len() - 1)) * 10 + (s.last() as int - '0' as int)
    }
}

/// The permissive reading of an attribute value, after trimming whitespace:
/// first as an unsigned integer, else the literals `true` / `false`, else the
/// text between enclosing double quotes, else the trimmed raw text as a
/// string.
pub open spec fn spec_attr_value(raw: Seq<char>) -> AttributeValueV {
    let s = crate::strutil::spec_trim(raw);
    if s.len() > 0 && spec_all_digits(s) && spec_digits_value(s) <= u64::MAX {
        AttributeValueV::Integer(spec_digits_value(s) as u64)
    } else if s == "true"@ {
        AttributeValueV::Bool(true)
    } else if s == "false"@ {
        AttributeValueV::Bool(false)
    } else if s.len() >= 2 && s[0] == '"' && s.last() == '"' {
        AttributeValueV::String(s.subrange(1, s.len() - 1))
    } else {
        AttributeValueV::String(s)
    }
}

/// Parses a scalar attribute value permissively: the text is trimmed, then
/// read first as an unsigned integer, else as the literals `true` / `false`,
/// else a pair of enclosing double quotes is stripped, else the trimmed text
/// stands as a string. (A lone double-quote character has no enclosing pair
/// and stands as itself.)
pub fn parse_attribute_value(raw: &str) -> (r: AttributeValue)
    ensures
        r@ == spec_attr_value(raw@),
{
    let trimmed = trim_ascii(raw);
    let t = trimmed.as_str();
    match parse_u64_digits(t) {
        Some(n) => AttributeValue::Integer(n),
        None => {
            if str_eq(t, "true") {
                AttributeValue::Bool(true)
            } else if str_eq(t, "false") {
                AttributeValue::Bool(false)
            } else {
                let len = t.unicode_len();
                if len >= 2 && t.get_char(0) == '"' && t.get_char(len - 1) == '"' {
                    let inner = t.substring_char(1, len - 1);
                    AttributeValue::String(inner.to_owned())
                } else {
                    AttributeValue::String(t.to_owned())
                }
            }
        },
    }
}

proof fn lemma_digits_nonneg(s: Seq<char>, i: int)
    requires
        0 <= i <= s.len(),
        spec_all_digits(s),
    ensures
        spec_digits_value(s.take(i)) >= 0,
    decreases i,
{
    if i > 0 {
        lemma_digits_nonneg(s, i - 1);
        assert(s.take(i).take(i - 1) =~= s.take(i - 1));
        assert(s.take(i).last() == s[i - 1]);
    }
}

proof fn lemma_digits_monotone(s: Seq<char>, i: int, j: int)
    requires
        0 <= i <= j <= s.len(),
        spec_all_digits(s),
    ensures
        spec_digits_value(s.take(j)) >= spec_digits_value(s.take(i)),
    decreases j - i,
{
    if i < j {
        lemma_digits_monotone(s, i, j - 1);
        lemma_digits_nonneg(s, j - 1);
        assert(s.take(j).take(j - 1) =~= s.take(j - 1));
        assert(s.take(j).last() == s[j - 1]);
    }
}

fn parse_u64_digits(s: &str) -> (r: Option<u64>)
    ensures
        match r {
            Some(n) => s@.len() > 0 && spec_all_digits(s@) && n == spec_digits_value(s@),
            None => !(s@.len() > 0 && spec_all_digits(s@) && spec_digits_value(s@) <= u64::MAX),
        },
{
    let len = s.unicode_len();
    if len == 0 {
        return None;
    }
    let mut value: u64 = 0;
    let mut i: usize = 0;
    while i < len
        invariant
            0 < i <= len || (i == 0 && value == 0),
            i <= len,
            len == s@.len(),
            forall|j: int| 0 <= j < i ==> '0' <= #[trigger] s@[j] && s@[j] <= '9',
            value == spec_digits_value(s@.take(i as int)),
        decreases len - i,
    {
        let c = s.get_char(i);
        if !('0' <= c && c <= '9') {
            assert(!spec_all_digits(s@));
            return None;
        }
        let d = ((c as u32) - ('0' as u32)) as u64;
        assert(d <= 9);
        let limit = (u64::MAX - d) / 10;
        if value > limit {
            // the full number would not fit; the raw text stands as a string
            proof {
                let m = u64::MAX - d;
                assert(m == 10 * (m / 10) + m % 10);
                assert(value * 10 >= (limit + 1) * 10) by (nonlinear_arith)
                    requires
                        value >= limit + 1,
                ;
                assert(value * 10 + d > u64::MAX);
                assert(s@.take(i + 1).take(i as int) =~= s@.take(i as int));
                assert(s@.take(i + 1).last() == s@[i as int]);
                assert(spec_digits_value(s@.take(i + 1)) > u64::MAX);
                if spec_all_digits(s@) {
                    lemma_digits_monotone(s@, i + 1, len as int);
                    assert(s@.take(len as int) =~= s@);
                }
            }
            return None;
        }
        proof {
            let m = u64::MAX - d;
            assert(m == 10 * (m / 10) + m % 10);
            assert(m % 10 < 10);
            assert(value * 10 <= limit * 10) by (nonlinear_arith)
                requires
                    value <= limit,
            ;
            assert(value * 10 + d <= u64::MAX);
        }
        let next = value * 10 + d;
        proof {
            assert(s@.take(i + 1).take(i as int) =~= s@.take(i as int));
            assert(s@.take(i + 1).last() == s@[i as int]);
        }
        value = next;
        i = i + 1;
    }
    assert(s@.take(len as int) =~= s@);
    Some(value)
}

proof fn lemma_attr_map_prepend(head: Attribute, rest: Seq<Attribute>)
    ensures
        (seq![head] + rest).map_values(|a: Attribute| a@) == seq![head@] + rest.map_values(
            |a: Attribute| a@,
        ),
{
    assert((seq![head] + rest).map_values(|a: Attribute| a@) =~= seq![head@] + rest.map_values(
        |a: Attribute| a@,
    ));
}

fn parse_attributes(tokens: &Vec<Token>, p0: usize) -> (r: Result<(Vec<Attribute>, usize), LumosError>)
    requires
        p0 <= tokens@.len(),
    ensures
        match spec_attrs_at(toks_of(tokens@), p0 as int) {
            Some((attrs, q)) => r matches Ok(pr) && pr.0@.map_values(|a: Attribute| a@) == attrs
                && pr.1 == q,
            None => r matches Err(e) && e is SchemaParse,
        },
    decreases tokens@.len() - p0,
{
    let ghost tv = toks_of(tokens@);
    let _n = tokens.len();
    if !peek_punct(tokens, p0, '#') {
        let empty: Vec<Attribute> = Vec::new();
        assert(empty@.map_values(|a: Attribute| a@) =~= Seq::<AttributeV>::empty());
        return Ok((empty, p0));
    }
    if !peek_punct(tokens, p0 + 1, '[') {
        return Err(parse_error("malformed attribute: expected '['"));
    }
    if !peek_ident(tokens, p0 + 2) {
        return Err(parse_error("malformed attribute: expected a name"));
    }
    let name = match &tokens[p0 + 2] {
        Token::Ident(n) => n.clone(),
        _ => {
            return Err(parse_error("malformed attribute: expected a name"));
        },
    };
    assert(name@ == tv[p0 + 2]->Ident_0);
    if peek_punct(tokens, p0 + 3, '(') {
        if p0 + 4 >= tokens.len() {
            return Err(parse_error("malformed attribute: expected a value"));
        }
        let value = match &tokens[p0 + 4] {
            Token::Ident(s) => parse_attribute_value(s.as_str()),
            Token::Int(s) => parse_attribute_value(s.as_str()),
            Token::Str(s) => AttributeValue::String(s.clone()),
            Token::Punct(ch) => {
                let mut one = String::new();
                push_char(&mut one, *ch);
                assert(one@ =~= seq![*ch]);
                parse_attribute_value(one.as_str())
            },
        };
        if !peek_punct(tokens, p0 + 5, ')') {
            return Err(parse_error("malformed attribute: expected ')'"));
        }
        if !peek_punct(tokens, p0 + 6, ']') {
            return Err(parse_error("malformed attribute: expected ']'"));
        }
        let rest = parse_attributes(tokens, p0 + 7)?;
        let head = Attribute { name, value: Some(value) };
        let ghost head_v = head@;
        let mut attributes: Vec<Attribute> = Vec::new();
        attributes.push(head);
        let mut rest_vec = rest.0;
        let ghost rest_map = rest_vec@.map_values(|a: Attribute| a@);
        attributes.append(&mut rest_vec);
        assert(attributes@.map_values(|a: Attribute| a@) =~= seq![head_v] + rest_map);
        Ok((attributes, rest.1))
    } else {
        if !peek_punct(tokens, p0 + 3, ']') {
            return Err(parse_error("malformed attribute: expected ']'"));
        }
        let rest = parse_attributes(tokens, p0 + 4)?;
        let head = Attribute { name, value: None };
        let ghost head_v = head@;
        let mut attributes: Vec<Attribute> = Vec::new();
        attributes.push(head);
        let mut rest_vec = rest.0;
        let ghost rest_map = rest_vec@.map_values(|a: Attribute| a@);
        attributes.append(&mut rest_vec);
        assert(attributes@.map_values(|a: Attribute| a@) =~= seq![head_v] + rest_map);
        Ok((attributes, rest.1))
    }
}

fn path_tail(tokens: &Vec<Token>, p0: usize, name: String) -> (r: (String, usize))
    requires
        p0 <= tokens@.len(),
    ensures
        (r.0@, r.1 as int) == spec_path_at(toks_of(tokens@), p0 as int, name@),
    decreases tokens@.len() - p0,
{
    let ghost tv = toks_of(tokens@);
    let _n = tokens.len();
    if p0 < tokens.len() && tokens.len() - p0 > 2 && peek_punct(tokens, p0, ':') && peek_punct(
        tokens,
        p0 + 1,
        ':',
    ) && peek_ident(tokens, p0 + 2) {
        let seg = match &tokens[p0 + 2] {
            Token::Ident(n) => n.clone(),
            _ => name,
        };
        assert(seg@ == tv[p0 + 2]->Ident_0);
        path_tail(tokens, p0 + 3, seg)
    } else {
        (name, p0)
    }
}

fn skip_angles(tokens: &Vec<Token>, p0: usize, depth: usize) -> (r: Result<usize, LumosError>)
    requires
        p0 <= tokens@.len(),
        depth + tokens@.len() - p0 <= usize::MAX,
    ensures
        match spec_angles_at(toks_of(tokens@), p0 as int, depth as nat) {
            Some(j) => r matches Ok(q) && q == j,
            None => r matches Err(e) && e is SchemaParse,
        },
    decreases tokens@.len() - p0,
{
    let _n = tokens.len();
    if depth == 0 {
        return Ok(p0);
    }
    if p0 >= tokens.len() {
        return Err(parse_error("unclosed '<' in generic type"));
    }
    if peek_punct(tokens, p0, '<') {
        skip_angles(tokens, p0 + 1, depth + 1)
    } else if peek_punct(tokens, p0, '>') {
        skip_angles(tokens, p0 + 1, depth - 1)
    } else {
        skip_angles(tokens, p0 + 1, depth)
    }
}

fn parse_type(tokens: &Vec<Token>, p0: usize) -> (r: Result<(TypeSpec, bool, usize), LumosError>)
    requires
        p0 <= tokens@.len(),
    ensures
        match spec_type_at(toks_of(tokens@), p0 as int) {
            Some((ts, opt, q)) => r matches Ok(pr) && pr.0@ == ts && pr.1 == opt && pr.2 == q,
            None => r matches Err(e) && e is SchemaParse,
        },
    decreases tokens@.len() - p0,
{
    let ghost tv = toks_of(tokens@);
    let _n = tokens.len();
    if p0 >= tokens.len() {
        return Err(parse_error("expected a type"));
    }
    if peek_punct(tokens, p0, '[') {
        let inner = parse_type(tokens, p0 + 1)?;
        proof {
            lemma_type_bounds(tv, p0 + 1);
        }
        if !peek_punct(tokens, inner.2, ']') {
            return Err(parse_error("unclosed '[' in array type"));
        }
        return Ok((TypeSpec::Array(Box::new(inner.0)), false, inner.2 + 1));
    }
    if !peek_ident(tokens, p0) {
        return Err(parse_error("expected a type name"));
    }
    let first = match &tokens[p0] {
        Token::Ident(n) => n.clone(),
        _ => {
            return Err(parse_error("expected a type name"));
        },
    };
    assert(first@ == tv[p0 as int]->Ident_0);
    let pt = path_tail(tokens, p0 + 1, first);
    proof {
        lemma_path_bounds(tv, p0 + 1, tv[p0 as int]->Ident_0);
    }
    let name = pt.0;
    let q = pt.1;
    assert(adv(p0 as int, q as int, tv.len() as int) == q as int);
    if peek_punct(tokens, q, '<') {
        if str_eq(name.as_str(), "Option") {
            let inner = parse_type(tokens, q + 1)?;
            proof {
                lemma_type_bounds(tv, q + 1);
            }
            if !peek_punct(tokens, inner.2, '>') {
                return Err(parse_error("unclosed '<' in optional type"));
            }
            // the optional marker unwraps to the inner type; nested markers
            // collapse into the one optional flag
            return Ok((inner.0, true, inner.2 + 1));
        }
        // other generic arguments are accepted and ignored; the bare name
        // stands for the reference
        let j = skip_angles(tokens, q + 1, 1)?;
        return Ok((TypeSpec::Primitive(name), false, j));
    }
    Ok((TypeSpec::Primitive(name), false, q))
}

fn parse_field(tokens: &Vec<Token>, p0: usize) -> (r: Result<(FieldDef, usize), LumosError>)
    requires
        p0 <= tokens@.len(),
    ensures
        match spec_field_at(toks_of(tokens@), p0 as int) {
            Some((f, q)) => r matches Ok(pr) && pr.0@ == f && pr.1 == q,
            None => r matches Err(e) && e is SchemaParse,
        },
{
    let ghost tv = toks_of(tokens@);
    let _n = tokens.len();
    let parsed = parse_attributes(tokens, p0)?;
    proof {
        lemma_attrs_bounds(tv, p0 as int);
    }
    let attributes = parsed.0;
    let p = parsed.1;
    if !peek_ident(tokens, p) {
        return Err(parse_error("expected a field name"));
    }
    let name = match &tokens[p] {
        Token::Ident(n) => n.clone(),
        _ => {
            return Err(parse_error("expected a field name"));
        },
    };
    assert(name@ == tv[p as int]->Ident_0);
    if !peek_punct(tokens, p + 1, ':') {
        return Err(parse_error("field is missing its ':' type annotation"));
    }
    let ty = parse_type(tokens, p + 2)?;
    let f = FieldDef { name, type_spec: ty.0, optional: ty.1, attributes };
    Ok((f, ty.2))
}

proof fn lemma_field_map_prepend(head: FieldDef, rest: Seq<FieldDef>)
    ensures
        (seq![head] + rest).map_values(|f: FieldDef| f@) == seq![head@] + rest.map_values(
            |f: FieldDef| f@,
        ),
{
    assert((seq![head] + rest).map_values(|f: FieldDef| f@) =~= seq![head@] + rest.map_values(
        |f: FieldDef| f@,
    ));
}

fn parse_fields_until_brace(tokens: &Vec<Token>, p0: usize) -> (r: Result<
    (Vec<FieldDef>, usize),
    LumosError,
>)
    requires
        p0 <= tokens@.len(),
    ensures
        match spec_fields_at(toks_of(tokens@), p0 as int) {
            Some((fs, q)) => r matches Ok(pr) && pr.0@.map_values(|f: FieldDef| f@) == fs && pr.1
                == q,
            None => r matches Err(e) && e is SchemaParse,
        },
    decreases tokens@.len() - p0,
{
    let ghost tv = toks_of(tokens@);
    let _n = tokens.len();
    if p0 >= tokens.len() {
        return Err(parse_error("unclosed '{' in field list"));
    }
    if peek_punct(tokens, p0, '}') {
        let empty: Vec<FieldDef> = Vec::new();
        assert(empty@.map_values(|f: FieldDef| f@) =~= Seq::<FieldDefV>::empty());
        return Ok((empty, p0 + 1));
    }
    let parsed = parse_field(tokens, p0)?;
    proof {
        lemma_field_bounds(tv, p0 as int);
    }
    let q = parsed.1;
    assert(adv(p0 as int, q as int, tv.len() as int) == q as int);
    let rest = if peek_punct(tokens, q, ',') {
        parse_fields_until_brace(tokens, q + 1)?
    } else if peek_punct(tokens, q, '}') {
        parse_fields_until_brace(tokens, q)?
    } else {
        return Err(parse_error("expected ',' or '}' after a field"));
    };
    let head = parsed.0;
    let ghost head_v = head@;
    let mut fields: Vec<FieldDef> = Vec::new();
    fields.push(head);
    let mut rest_vec = rest.0;
    let ghost rest_map = rest_vec@.map_values(|f: FieldDef| f@);
    fields.append(&mut rest_vec);
    assert(fields@.map_values(|f: FieldDef| f@) =~= seq![head_v] + rest_map);
    Ok((fields, rest.1))
}

fn parse_tuple_types(tokens: &Vec<Token>, p0: usize) -> (r: Result<
    (Vec<TypeSpec>, usize),
    LumosError,
>)
    requires
        p0 <= tokens@.len(),
    ensures
        match spec_tuple_at(toks_of(tokens@), p0 as int) {
            Some((ts, q)) => r matches Ok(pr) && pr.0@.map_values(|t: TypeSpec| t@) == ts && pr.1
                == q,
            None => r matches Err(e) && e is SchemaParse,
        },
    decreases tokens@.len() - p0,
{
    let ghost tv = toks_of(tokens@);
    let _n = tokens.len();
    if p0 >= tokens.len() {
        return Err(parse_error("unclosed '(' in tuple variant"));
    }
    if peek_punct(tokens, p0, ')') {
        let empty: Vec<TypeSpec> = Vec::new();
        assert(empty@.map_values(|t: TypeSpec| t@) =~= Seq::<TypeSpecV>::empty());
        return Ok((empty, p0 + 1));
    }
    let parsed = parse_type(tokens, p0)?;
    proof {
        lemma_type_bounds(tv, p0 as int);
    }
    let q = parsed.2;
    assert(adv(p0 as int, q as int, tv.len() as int) == q as int);
    let rest = if peek_punct(tokens, q, ',') {
        parse_tuple_types(tokens, q + 1)?
    } else if peek_punct(tokens, q, ')') {
        parse_tuple_types(tokens, q)?
    } else {
        return Err(parse_error("expected ',' or ')' in tuple variant"));
    };
    let head = parsed.0;
    let ghost head_v = head@;
    let mut types: Vec<TypeSpec> = Vec::new();
    types.push(head);
    let mut rest_vec = rest.0;
    let ghost rest_map = rest_vec@.map_values(|t: TypeSpec| t@);
    types.append(&mut rest_vec);
    assert(types@.map_values(|t: TypeSpec| t@) =~= seq![head_v] + rest_map);
    Ok((types, rest.1))
}

fn parse_enum_variant(tokens: &Vec<Token>, p0: usize) -> (r: Result<(EnumVariant, usize), LumosError>)
    requires
        p0 <= tokens@.len(),
    ensures
        match spec_variant_at(toks_of(tokens@), p0 as int) {
            Some((v, q)) => r matches Ok(pr) && pr.0@ == v && pr.1 == q,
            None => r matches Err(e) && e is SchemaParse,
        },
{
    let ghost tv = toks_of(tokens@);
    let _n = tokens.len();
    // attributes on a variant are accepted and dropped
    let parsed = parse_attributes(tokens, p0)?;
    proof {
        lemma_attrs_bounds(tv, p0 as int);
    }
    let p = parsed.1;
    if !peek_ident(tokens, p) {
        return Err(parse_error("expected a variant name"));
    }
    let name = match &tokens[p] {
        Token::Ident(n) => n.clone(),
        _ => {
            return Err(parse_error("expected a variant name"));
        },
    };
    assert(name@ == tv[p as int]->Ident_0);
    if peek_punct(tokens, p + 1, '(') {
        let parsed_types = parse_tuple_types(tokens, p + 2)?;
        return Ok((EnumVariant::Tuple { name, types: parsed_types.0 }, parsed_types.1));
    }
    if peek_punct(tokens, p + 1, '{') {
        let parsed_fields = parse_fields_until_brace(tokens, p + 2)?;
        return Ok((EnumVariant::Struct { name, fields: parsed_fields.0 }, parsed_fields.1));
    }
    Ok((EnumVariant::Unit { name }, p + 1))
}

proof fn lemma_variant_map_prepend(head: EnumVariant, rest: Seq<EnumVariant>)
    ensures
        (seq![head] + rest).map_values(|v: EnumVariant| v@) == seq![head@] + rest.map_values(
            |v: EnumVariant| v@,
        ),
{
    assert((seq![head] + rest).map_values(|v: EnumVariant| v@) =~= seq![head@] + rest.map_values(
        |v: EnumVariant| v@,
    ));
}

fn parse_variants_until_brace(tokens: &Vec<Token>, p0: usize) -> (r: Result<
    (Vec<EnumVariant>, usize),
    LumosError,
>)
    requires
        p0 <= tokens@.len(),
    ensures
        match spec_variants_at(toks_of(tokens@), p0 as int) {
            Some((vs, q)) => r matches Ok(pr) && pr.0@.map_values(|v: EnumVariant| v@) == vs
                && pr.1 == q,
            None => r matches Err(e) && e is SchemaParse,
        },
    decreases tokens@.len() - p0,
{
    let ghost tv = toks_of(tokens@);
    let _n = tokens.len();
    if p0 >= tokens.len() {
        return Err(parse_error("unclosed '{' in enum body"));
    }
    if peek_punct(tokens, p0, '}') {
        let empty: Vec<EnumVariant> = Vec::new();
        assert(empty@.map_values(|v: EnumVariant| v@) =~= Seq::<EnumVariantV>::empty());
        return Ok((empty, p0 + 1));
    }
    let parsed = parse_enum_variant(tokens, p0)?;
    proof {
        lemma_variant_bounds(tv, p0 as int);
    }
    let q = parsed.1;
    assert(adv(p0 as int, q as int, tv.len() as int) == q as int);
    let rest = if peek_punct(tokens, q, ',') {
        parse_variants_until_brace(tokens, q + 1)?
    } else if peek_punct(tokens, q, '}') {
        parse_variants_until_brace(tokens, q)?
    } else {
        return Err(parse_error("expected ',' or '}' after a variant"));
    };
    let head = parsed.0;
    let ghost head_v = head@;
    let mut variants: Vec<EnumVariant> = Vec::new();
    variants.push(head);
    let mut rest_vec = rest.0;
    let ghost rest_map = rest_vec@.map_values(|v: EnumVariant| v@);
    variants.append(&mut rest_vec);
    assert(variants@.map_values(|v: EnumVariant| v@) =~= seq![head_v] + rest_map);
    Ok((variants, rest.1))
}

fn parse_struct(tokens: &Vec<Token>, p0: usize, attributes: Vec<Attribute>) -> (r: Result<
    (StructDef, usize),
    LumosError,
>)
    requires
        p0 <= tokens@.len(),
    ensures
        match spec_struct_at(
            toks_of(tokens@),
            p0 as int,
            attributes@.map_values(|a: Attribute| a@),
        ) {
            Some((sd, q)) => r matches Ok(pr) && pr.0@ == sd && pr.1 == q,
            None => r matches Err(e) && e is SchemaParse,
        },
        ({
            &&& p0 < toks_of(tokens@).len()
            &&& toks_of(tokens@)[p0 as int] is Ident
            &&& p0 + 1 < toks_of(tokens@).len()
            &&& tok_punct(toks_of(tokens@)[p0 + 1], '(')
        }) ==> (r matches Err(e) && (e matches LumosError::SchemaParse(msg, loc) && (loc is None
            && msg@ == "Struct '"@ + toks_of(tokens@)[p0 as int]->Ident_0
            + "' must have named fields"@))),
{
    let ghost tv = toks_of(tokens@);
    let _n = tokens.len();
    if !peek_ident(tokens, p0) {
        return Err(parse_error("expected a struct name"));
    }
    let name = match &tokens[p0] {
        Token::Ident(n) => n.clone(),
        _ => {
            return Err(parse_error("expected a struct name"));
        },
    };
    assert(name@ == tv[p0 as int]->Ident_0);
    if peek_punct(tokens, p0 + 1, '(') {
        let mut msg = String::from_str("Struct '");
        msg.append(name.as_str());
        msg.append("' must have named fields");
        assert(msg@ =~= "Struct '"@ + tv[p0 as int]->Ident_0 + "' must have named fields"@);
        return Err(LumosError::SchemaParse(msg, None));
    }
    if !peek_punct(tokens, p0 + 1, '{') {
        return Err(parse_error("expected '{' after the struct name"));
    }
    let parsed = parse_fields_until_brace(tokens, p0 + 2)?;
    Ok((StructDef { name, attributes, fields: parsed.0 }, parsed.1))
}

fn parse_enum(tokens: &Vec<Token>, p0: usize, attributes: Vec<Attribute>) -> (r: Result<
    (EnumDef, usize),
    LumosError,
>)
    requires
        p0 <= tokens@.len(),
    ensures
        match spec_enum_at(
            toks_of(tokens@),
            p0 as int,
            attributes@.map_values(|a: Attribute| a@),
        ) {
            Some((ed, q)) => r matches Ok(pr) && pr.0@ == ed && pr.1 == q && pr.0.variants@.len()
                >= 1,
            None => r matches Err(e) && e is SchemaParse,
        },
        ({
            &&& p0 < toks_of(tokens@).len()
            &&& toks_of(tokens@)[p0 as int] is Ident
            &&& p0 + 1 < toks_of(tokens@).len()
            &&& tok_punct(toks_of(tokens@)[p0 + 1], '{')
            &&& spec_variants_at(toks_of(tokens@), p0 + 2) matches Some((vs, _)) && vs.len() == 0
        }) ==> (r matches Err(e) && (e matches LumosError::SchemaParse(msg, loc) && (loc is None
            && msg@ == "Enum '"@ + toks_of(tokens@)[p0 as int]->Ident_0
            + "' must have at least one variant"@))),
{
    let ghost tv = toks_of(tokens@);
    let _n = tokens.len();
    if !peek_ident(tokens, p0) {
        return Err(parse_error("expected an enum name"));
    }
    let name = match &tokens[p0] {
        Token::Ident(n) => n.clone(),
        _ => {
            return Err(parse_error("expected an enum name"));
        },
    };
    assert(name@ == tv[p0 as int]->Ident_0);
    if !peek_punct(tokens, p0 + 1, '{') {
        return Err(parse_error("expected '{' after the enum name"));
    }
    let parsed = parse_variants_until_brace(tokens, p0 + 2)?;
    if parsed.0.len() == 0 {
        let mut msg = String::from_str("Enum '");
        msg.append(name.as_str());
        msg.append("' must have at least one variant");
        assert(msg@ =~= "Enum '"@ + tv[p0 as int]->Ident_0 + "' must have at least one variant"@);
        return Err(LumosError::SchemaParse(msg, None));
    }
    Ok((EnumDef { name, attributes, variants: parsed.0 }, parsed.1))
}

fn skip_item(tokens: &Vec<Token>, p0: usize, depth: usize) -> (r: Result<usize, LumosError>)
    requires
        p0 <= tokens@.len(),
        depth + tokens@.len() - p0 <= usize::MAX,
    ensures
        match spec_skip_at(toks_of(tokens@), p0 as int, depth as nat) {
            Some(j) => r matches Ok(q) && q == j,
            None => r matches Err(e) && e is SchemaParse,
        },
    decreases tokens@.len() - p0,
{
    let _n = tokens.len();
    if p0 >= tokens.len() {
        if depth > 0 {
            return Err(parse_error("unbalanced brackets in skipped item"));
        }
        return Ok(p0);
    }
    if peek_punct(tokens, p0, '{') || peek_punct(tokens, p0, '(') || peek_punct(tokens, p0, '[') {
        skip_item(tokens, p0 + 1, depth + 1)
    } else if peek_punct(tokens, p0, '}') || peek_punct(tokens, p0, ')') || peek_punct(
        tokens,
        p0,
        ']',
    ) {
        if depth == 0 {
            Err(parse_error("unbalanced closing bracket"))
        } else if depth == 1 && peek_punct(tokens, p0, '}') {
            // a braced body ends the skipped item
            Ok(p0 + 1)
        } else {
            skip_item(tokens, p0 + 1, depth - 1)
        }
    } else if peek_punct(tokens, p0, ';') && depth == 0 {
        Ok(p0 + 1)
    } else {
        skip_item(tokens, p0 + 1, depth)
    }
}

proof fn lemma_item_map_prepend(head: Item, rest: Seq<Item>)
    ensures
        (seq![head] + rest).map_values(|it: Item| it@) == seq![head@] + rest.map_values(
            |it: Item| it@,
        ),
{
    assert((seq![head] + rest).map_values(|it: Item| it@) =~= seq![head@] + rest.map_values(
        |it: Item| it@,
    ));
}

fn parse_items(tokens: &Vec<Token>, p0: usize) -> (r: Result<Vec<Item>, LumosError>)
    requires
        p0 <= tokens@.len(),
    ensures
        match spec_items_at(toks_of(tokens@), p0 as int) {
            Some(items) => r matches Ok(v) && v@.map_values(|it: Item| it@) == items,
            None => r matches Err(e) && e is SchemaParse,
        },
        r matches Ok(v) ==> ast_wf(LumosFileV { items: v@.map_values(|it: Item| it@) }),
    decreases tokens@.len() - p0,
{
    let ghost tv = toks_of(tokens@);
    let _n = tokens.len();
    if p0 >= tokens.len() {
        let empty: Vec<Item> = Vec::new();
        assert(empty@.map_values(|it: Item| it@) =~= Seq::<ItemV>::empty());
        return Ok(empty);
    }
    let parsed = parse_attributes(tokens, p0)?;
    proof {
        lemma_attrs_bounds(tv, p0 as int);
    }
    let attributes = parsed.0;
    let q = parsed.1;
    if q >= tokens.len() {
        return Err(parse_error("attributes without an item"));
    }
    let is_struct = match &tokens[q] {
        Token::Ident(n) => str_eq(n.as_str(), "struct"),
        _ => false,
    };
    let is_enum = match &tokens[q] {
        Token::Ident(n) => str_eq(n.as_str(), "enum"),
        _ => false,
    };
    proof {
        match tv[q as int] {
            TokenV::Ident(n) => {
                assert(is_struct == (tv[q as int] == TokenV::Ident("struct"@)));
                assert(is_enum == (tv[q as int] == TokenV::Ident("enum"@)));
            },
            _ => {},
        }
    }
    if is_struct {
        let parsed_struct = parse_struct(tokens, q + 1, attributes)?;
        proof {
            lemma_struct_bounds(tv, q + 1, parsed_struct.0@.attributes);
        }
        let q1 = parsed_struct.1;
        assert(adv(p0 as int, q1 as int, tv.len() as int) == q1 as int);
        let rest = parse_items(tokens, q1)?;
        let head = Item::Struct(parsed_struct.0);
        let ghost head_v = head@;
        let mut items: Vec<Item> = Vec::new();
        items.push(head);
        let mut rest_vec = rest;
        let ghost rest_map = rest_vec@.map_values(|it: Item| it@);
        items.append(&mut rest_vec);
        assert(items@.map_values(|it: Item| it@) =~= seq![head_v] + rest_map);
        Ok(items)
    } else if is_enum {
        let parsed_enum = parse_enum(tokens, q + 1, attributes)?;
        proof {
            lemma_enum_bounds(tv, q + 1, parsed_enum.0@.attributes);
        }
        let q1 = parsed_enum.1;
        assert(adv(p0 as int, q1 as int, tv.len() as int) == q1 as int);
        assert(parsed_enum.0.variants@.len() >= 1);
        let rest = parse_items(tokens, q1)?;
        let head = Item::Enum(parsed_enum.0);
        let ghost head_v = head@;
        let mut items: Vec<Item> = Vec::new();
        items.push(head);
        let mut rest_vec = rest;
        let ghost rest_map = rest_vec@.map_values(|it: Item| it@);
        items.append(&mut rest_vec);
        assert(items@.map_values(|it: Item| it@) =~= seq![head_v] + rest_map);
        Ok(items)
    } else {
        // not a schema item: tolerated and skipped
        let j = skip_item(tokens, q, 0)?;
        proof {
            lemma_skip_bounds(tv, q as int, 0);
        }
        assert(adv(p0 as int, j as int, tv.len() as int) == j as int);
        parse_items(tokens, j)
    }
}

/// Parses declaration source text into an AST, or fails with a syntax
/// diagnostic.
///
/// The result is exactly the parse `spec_parse` gives of the input: only
/// struct and enum declarations are recognized as schema items, any other
/// top-level construct is skipped silently, and an input whose parse does
/// not exist — malformed syntax, an enum without variants, or a file that
/// yields no items at all — fails. On success every enum in the tree
/// declares at least one variant.
pub fn parse_lumos_file(input: &str) -> (r: Result<LumosFile, LumosError>)
    ensures
        match spec_parse(input@) {
            Some(f) => r matches Ok(file) && file@ == f,
            None => r matches Err(e) && e is SchemaParse,
        },
        r matches Ok(f) ==> f@.items.len() >= 1 && ast_wf(f@),
        ({
            &&& spec_tokens(input@) matches Some(toks)
            &&& spec_items_at(toks, 0) matches Some(items) && items.len() == 0
        }) ==> (r matches Err(e) && (e matches LumosError::SchemaParse(msg, loc) && (loc is None
            && msg@ == "No type definitions found in .lumos file"@))),
{
    let tokens = tokenize(input)?;
    let items = parse_items(&tokens, 0)?;
    if items.len() == 0 {
        let msg = String::from_str("No type definitions found in .lumos file");
        return Err(LumosError::SchemaParse(msg, None));
    }
    let file = LumosFile { items };
    proof {
        assert(file@ == LumosFileV { items: file.items@.map_values(|it: Item| it@) });
    }
    Ok(file)
}

} // verus!
