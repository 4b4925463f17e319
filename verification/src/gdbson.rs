//! A parser for a debugger's semi-structured reply grammar.
//!
//! Replies embed `ident=value` pairs whose values are quoted strings,
//! brace-delimited maps, and bracket-delimited lists of strings, e.g.
//! `bkptno="1",frame={addr="0x0000000000401000"}`.  The lexer and the
//! recursive-descent parser are both specified exactly by total spec
//! functions, and the parser is additionally proved sound against a
//! rendering function: every tree it yields renders back to exactly the
//! tokens it consumed.

use vstd::prelude::*;
use vstd::string::StringSliceAdditionalSpecFns;

verus! {

/// A fault in a reply line.
#[derive(Clone, Copy, PartialEq, Eq, Structural, Debug)]
pub enum GdbsonError {
    /// A byte outside the token alphabet.
    BadChar,
    /// A string literal with no closing quote.
    UnterminatedString,
    /// A token where the grammar expects another.
    UnexpectedToken,
    /// Input ended inside a form.
    UnexpectedEnd,
}

/// One token of the reply grammar.
#[derive(Clone, PartialEq, Eq, Debug)]
pub enum Tok {
    EOF,
    LCURLY,
    RCURLY,
    LSQUARE,
    RSQUARE,
    EQ,
    COMMA,
    IDENT(Vec<u8>),
    STRING(Vec<u8>),
}

/// The ghost form of a token.
pub enum SpecTok {
    EOF,
    LCURLY,
    RCURLY,
    LSQUARE,
    RSQUARE,
    EQ,
    COMMA,
    IDENT(Seq<u8>),
    STRING(Seq<u8>),
}

pub open spec fn view_tok(t: Tok) -> SpecTok {
    match t {
        Tok::EOF => SpecTok::EOF,
        Tok::LCURLY => SpecTok::LCURLY,
        Tok::RCURLY => SpecTok::RCURLY,
        Tok::LSQUARE => SpecTok::LSQUARE,
        Tok::RSQUARE => SpecTok::RSQUARE,
        Tok::EQ => SpecTok::EQ,
        Tok::COMMA => SpecTok::COMMA,
        Tok::IDENT(s) => SpecTok::IDENT(s@),
        Tok::STRING(s) => SpecTok::STRING(s@),
    }
}

pub open spec fn view_toks(v: Seq<Tok>) -> Seq<SpecTok> {
    Seq::new(v.len(), |i: int| view_tok(v[i]))
}

/// Whether a byte may continue an identifier: a letter or a hyphen.
pub open spec fn spec_is_valid_ident(x: u8) -> bool {
    (0x61 <= x <= 0x7a) || (0x41 <= x <= 0x5a) || x == 0x2d
}

/// Whether a byte may continue an identifier.
pub fn is_valid_ident(x: u8) -> (r: bool)
    ensures
        r == spec_is_valid_ident(x),
{
    (0x61 <= x && x <= 0x7a) || (0x41 <= x && x <= 0x5a) || x == 0x2d
}

/// Whether a byte may start an identifier: a letter.
pub open spec fn spec_is_alpha(x: u8) -> bool {
    (0x61 <= x <= 0x7a) || (0x41 <= x <= 0x5a)
}

/// The first position at or after `i` that cannot continue an
/// identifier.
pub open spec fn spec_ident_end(s: Seq<u8>, i: int) -> int
    decreases s.len() - i,
{
    if i < 0 || i >= s.len() {
        s.len() as int
    } else if spec_is_valid_ident(s[i]) {
        spec_ident_end(s, i + 1)
    } else {
        i
    }
}

proof fn lemma_ident_end_bounds(s: Seq<u8>, i: int)
    requires
        0 <= i <= s.len(),
    ensures
        i <= spec_ident_end(s, i) <= s.len(),
        i < s.len() && spec_is_valid_ident(s[i]) ==> spec_ident_end(s, i) > i,
    decreases s.len() - i,
{
    if i < s.len() && spec_is_valid_ident(s[i]) {
        lemma_ident_end_bounds(s, i + 1);
    }
}

fn ident_end(s: &[u8], i: usize) -> (r: usize)
    requires
        i <= s.len(),
    ensures
        r == spec_ident_end(s@, i as int),
        i <= r <= s.len(),
    decreases s.len() - i,
{
    if i >= s.len() {
        s.len()
    } else if is_valid_ident(s[i]) {
        ident_end(s, i + 1)
    } else {
        i
    }
}

/// The first position at or after `i` that holds a double quote.
pub open spec fn spec_string_end(s: Seq<u8>, i: int) -> int
    decreases s.len() - i,
{
    if i < 0 || i >= s.len() {
        s.len() as int
    } else if s[i] == 0x22 {
        i
    } else {
        spec_string_end(s, i + 1)
    }
}

proof fn lemma_string_end_bounds(s: Seq<u8>, i: int)
    requires
        0 <= i <= s.len(),
    ensures
        i <= spec_string_end(s, i) <= s.len(),
    decreases s.len() - i,
{
    if i < s.len() && s[i] != 0x22 {
        lemma_string_end_bounds(s, i + 1);
    }
}

fn string_end(s: &[u8], i: usize) -> (r: usize)
    requires
        i <= s.len(),
    ensures
        r == spec_string_end(s@, i as int),
        i <= r <= s.len(),
    decreases s.len() - i,
{
    if i >= s.len() {
        s.len()
    } else if s[i] == 0x22 {
        i
    } else {
        string_end(s, i + 1)
    }
}

/// The token stream of a reply line from position `i` on, ended by an
/// end-of-input token; or the first lexical fault.
pub open spec fn spec_lex(s: Seq<u8>, i: int) -> Result<Seq<SpecTok>, GdbsonError>
    decreases s.len() - i,
    via spec_lex_dec
{
    if i < 0 || i >= s.len() {
        Ok(seq![SpecTok::EOF])
    } else {
        let c = s[i];
        let simple: Option<SpecTok> = if c == 0x7b {
            Some(SpecTok::LCURLY)
        } else if c == 0x7d {
            Some(SpecTok::RCURLY)
        } else if c == 0x5b {
            Some(SpecTok::LSQUARE)
        } else if c == 0x5d {
            Some(SpecTok::RSQUARE)
        } else if c == 0x3d {
            Some(SpecTok::EQ)
        } else if c == 0x2c {
            Some(SpecTok::COMMA)
        } else {
            None
        };
        match simple {
            Some(t) => match spec_lex(s, i + 1) {
                Err(e) => Err(e),
                Ok(rest) => Ok(seq![t] + rest),
            },
            None => if spec_is_alpha(c) {
                let e = spec_ident_end(s, i);
                match spec_lex(s, e) {
                    Err(er) => Err(er),
                    Ok(rest) => Ok(seq![SpecTok::IDENT(s.subrange(i, e))] + rest),
                }
            } else if c == 0x22 {
                let e = spec_string_end(s, i + 1);
                if e >= s.len() {
                    Err(GdbsonError::UnterminatedString)
                } else {
                    match spec_lex(s, e + 1) {
                        Err(er) => Err(er),
                        Ok(rest) => Ok(seq![SpecTok::STRING(s.subrange(i + 1, e))] + rest),
                    }
                }
            } else {
                Err(GdbsonError::BadChar)
            },
        }
    }
}

#[via_fn]
proof fn spec_lex_dec(s: Seq<u8>, i: int) {
    if 0 <= i < s.len() {
        if spec_is_alpha(s[i]) {
            lemma_ident_end_bounds(s, i);
        }
        if s[i] == 0x22 {
            lemma_string_end_bounds(s, i + 1);
        }
    }
}

fn lex_from(s: &[u8], i: usize) -> (r: Result<Vec<Tok>, GdbsonError>)
    requires
        i <= s.len(),
    ensures
        (match r {
            Ok(v) => Ok(view_toks(v@)),
            Err(e) => Err::<Seq<SpecTok>, GdbsonError>(e),
        }) == spec_lex(s@, i as int),
    decreases s.len() - i,
{
    if i >= s.len() {
        let mut v: Vec<Tok> = Vec::new();
        v.push(Tok::EOF);
        proof {
            assert(view_toks(v@) =~= seq![SpecTok::EOF]);
        }
        return Ok(v);
    }
    let c = s[i];
    let simple: Option<Tok> = if c == 0x7b {
        Some(Tok::LCURLY)
    } else if c == 0x7d {
        Some(Tok::RCURLY)
    } else if c == 0x5b {
        Some(Tok::LSQUARE)
    } else if c == 0x5d {
        Some(Tok::RSQUARE)
    } else if c == 0x3d {
        Some(Tok::EQ)
    } else if c == 0x2c {
        Some(Tok::COMMA)
    } else {
        None
    };
    match simple {
        Some(t) => {
            let ghost tv = view_tok(t);
            match lex_from(s, i + 1) {
                Err(e) => Err(e),
                Ok(mut rest) => {
                    rest.insert(0, t);
                    proof {
                        assert(view_toks(rest@) =~= seq![tv] + spec_lex(s@, i as int + 1)->Ok_0);
                    }
                    Ok(rest)
                },
            }
        },
        None => {
            if (0x61 <= c && c <= 0x7a) || (0x41 <= c && c <= 0x5a) {
                let e = ident_end(s, i);
                proof {
                    lemma_ident_end_bounds(s@, i as int);
                }
                let name = vstd::slice::slice_to_vec(&s[i..e]);
                match lex_from(s, e) {
                    Err(er) => Err(er),
                    Ok(mut rest) => {
                        rest.insert(0, Tok::IDENT(name));
                        proof {
                            assert(view_toks(rest@) =~= seq![
                                SpecTok::IDENT(s@.subrange(i as int, e as int)),
                            ] + spec_lex(s@, e as int)->Ok_0);
                        }
                        Ok(rest)
                    },
                }
            } else if c == 0x22 {
                let e = string_end(s, i + 1);
                if e >= s.len() {
                    Err(GdbsonError::UnterminatedString)
                } else {
                    let body = vstd::slice::slice_to_vec(&s[i + 1..e]);
                    match lex_from(s, e + 1) {
                        Err(er) => Err(er),
                        Ok(mut rest) => {
                            rest.insert(0, Tok::STRING(body));
                            proof {
                                assert(view_toks(rest@) =~= seq![
                                    SpecTok::STRING(s@.subrange(i as int + 1, e as int)),
                                ] + spec_lex(s@, e as int + 1)->Ok_0);
                            }
                            Ok(rest)
                        },
                    }
                }
            } else {
                Err(GdbsonError::BadChar)
            }
        },
    }
}

/// The token stream of a reply line, exactly as [`spec_lex`] gives it.
pub fn lex(input_str: &str) -> (r: Result<Vec<Tok>, GdbsonError>)
    ensures
        (match r {
            Ok(v) => Ok(view_toks(v@)),
            Err(e) => Err::<Seq<SpecTok>, GdbsonError>(e),
        }) == spec_lex(input_str.spec_bytes(), 0),
{
    let input = input_str.as_bytes();
    lex_from(input, 0)
}

/// A value of the reply grammar: a string, a list, or a map of
/// `ident=value` pairs.
#[derive(PartialEq, Eq, Debug)]
pub enum Value {
    String(Vec<u8>),
    List(Vec<Value>),
    Table(Vec<(Vec<u8>, Value)>),
}

/// The ghost form of a parsed value.
pub enum SpecValue {
    String(Seq<u8>),
    List(Seq<SpecValue>),
    Table(Seq<(Seq<u8>, SpecValue)>),
}

pub open spec fn view_value(v: Value) -> SpecValue
    decreases v, 0int,
{
    match v {
        Value::String(s) => SpecValue::String(s@),
        Value::List(items) => SpecValue::List(view_list(items@)),
        Value::Table(pairs) => SpecValue::Table(view_pairs(pairs@)),
    }
}

pub open spec fn view_list(items: Seq<Value>) -> Seq<SpecValue>
    decreases items, 1int,
{
    if items.len() == 0 {
        Seq::empty()
    } else {
        seq![view_value(items[0])] + view_list(items.drop_first())
    }
}

pub open spec fn view_pairs(pairs: Seq<(Vec<u8>, Value)>) -> Seq<(Seq<u8>, SpecValue)>
    decreases pairs, 1int,
{
    if pairs.len() == 0 {
        Seq::empty()
    } else {
        seq![(pairs[0].0@, view_value(pairs[0].1))] + view_pairs(pairs.drop_first())
    }
}

/// A list of values views element by element.
proof fn lemma_view_list_len(items: Seq<Value>)
    ensures
        view_list(items).len() == items.len(),
    decreases items.len(),
{
    if items.len() > 0 {
        lemma_view_list_len(items.drop_first());
    }
}

/// A list of pairs views element by element.
proof fn lemma_view_pairs_len(pairs: Seq<(Vec<u8>, Value)>)
    ensures
        view_pairs(pairs).len() == pairs.len(),
    decreases pairs.len(),
{
    if pairs.len() > 0 {
        lemma_view_pairs_len(pairs.drop_first());
    }
}

impl Value {
    /// The text of a string value.
    pub fn as_string(&self) -> (r: &Vec<u8>)
        requires
            self is String,
        ensures
            view_value(*self) == SpecValue::String(r@),
    {
        match self {
            Value::String(x) => x,
            _ => unreached(),
        }
    }

    /// The items of a list value.
    pub fn as_list(&self) -> (r: &Vec<Value>)
        requires
            self is List,
        ensures
            view_value(*self) == SpecValue::List(view_list(r@)),
    {
        match self {
            Value::List(x) => x,
            _ => unreached(),
        }
    }

    /// The pairs of a map value.
    pub fn as_map(&self) -> (r: &Vec<(Vec<u8>, Value)>)
        requires
            self is Table,
        ensures
            view_value(*self) == SpecValue::Table(view_pairs(r@)),
    {
        match self {
            Value::Table(x) => x,
            _ => unreached(),
        }
    }
}

/// The tokens a value renders back to.
pub open spec fn spec_render_value(v: SpecValue) -> Seq<SpecTok>
    decreases v,
{
    match v {
        SpecValue::String(s) => seq![SpecTok::STRING(s)],
        SpecValue::List(items) => seq![SpecTok::LSQUARE] + spec_render_items(items) + seq![
            SpecTok::RSQUARE,
        ],
        SpecValue::Table(pairs) => seq![SpecTok::LCURLY] + spec_render_pairs(pairs) + seq![
            SpecTok::RCURLY,
        ],
    }
}

/// The comma-separated tokens of a list's items.
pub open spec fn spec_render_items(items: Seq<SpecValue>) -> Seq<SpecTok>
    decreases items,
{
    if items.len() == 0 {
        Seq::empty()
    } else if items.len() == 1 {
        spec_render_value(items[0])
    } else {
        spec_render_value(items[0]) + seq![SpecTok::COMMA] + spec_render_items(items.drop_first())
    }
}

/// The comma-separated tokens of a map's pairs.
pub open spec fn spec_render_pairs(pairs: Seq<(Seq<u8>, SpecValue)>) -> Seq<SpecTok>
    decreases pairs,
{
    if pairs.len() == 0 {
        Seq::empty()
    } else {
        let head = seq![SpecTok::IDENT(pairs[0].0), SpecTok::EQ] + spec_render_value(pairs[0].1);
        if pairs.len() == 1 {
            head
        } else {
            head + seq![SpecTok::COMMA] + spec_render_pairs(pairs.drop_first())
        }
    }
}

/// Reads one value: a string, a brace-delimited map, or a
/// bracket-delimited list of strings.
///
/// Sound against the rendering: the tokens consumed are exactly the
/// tokens the returned tree renders back to.
pub fn parse_value(toks: &Vec<Tok>, i: usize) -> (r: Result<(Value, usize), GdbsonError>)
    requires
        i <= toks.len(),
    ensures
        r matches Ok((v, j)) ==> i < j <= toks.len() && view_toks(toks@).subrange(
            i as int,
            j as int,
        ) == spec_render_value(view_value(v)),
        (match r {
            Ok((v, j)) => Ok((view_value(v), j as int)),
            Err(e) => Err::<(SpecValue, int), GdbsonError>(e),
        }) == spec_parse_value(view_toks(toks@), i as int, (toks.len() - i) as nat),
    decreases toks.len() - i,
{
    if i >= toks.len() {
        return Err(GdbsonError::UnexpectedEnd);
    }
    match &toks[i] {
        Tok::STRING(sv) => {
            let v = Value::String(sv.clone());
            proof {
                assert(view_toks(toks@).subrange(i as int, i as int + 1) =~= spec_render_value(
                    view_value(v),
                ));
            }
            Ok((v, i + 1))
        },
        Tok::LCURLY => {
            match parse_pairs(toks, i + 1) {
                Err(e) => Err(e),
                Ok((pairs, j)) => {
                    if j < toks.len() {
                        let is_close = match &toks[j] {
                            Tok::RCURLY => true,
                            _ => false,
                        };
                        if is_close {
                            let v = Value::Table(pairs);
                            proof {
                                assert(view_toks(toks@).subrange(i as int, j as int + 1)
                                    =~= spec_render_value(view_value(v)));
                            }
                            Ok((v, j + 1))
                        } else {
                            Err(GdbsonError::UnexpectedToken)
                        }
                    } else {
                        Err(GdbsonError::UnexpectedEnd)
                    }
                },
            }
        },
        Tok::LSQUARE => {
            if i + 1 < toks.len() {
                let is_close = match &toks[i + 1] {
                    Tok::RSQUARE => true,
                    _ => false,
                };
                if is_close {
                    let v = Value::List(Vec::new());
                    proof {
                        assert(view_toks(toks@).subrange(i as int, i as int + 2)
                            =~= spec_render_value(view_value(v)));
                    }
                    return Ok((v, i + 2));
                }
            }
            match parse_items(toks, i + 1) {
                Err(e) => Err(e),
                Ok((items, j)) => {
                    if j < toks.len() {
                        let is_close = match &toks[j] {
                            Tok::RSQUARE => true,
                            _ => false,
                        };
                        if is_close {
                            let v = Value::List(items);
                            proof {
                                assert(view_toks(toks@).subrange(i as int, j as int + 1)
                                    =~= spec_render_value(view_value(v)));
                            }
                            Ok((v, j + 1))
                        } else {
                            Err(GdbsonError::UnexpectedToken)
                        }
                    } else {
                        Err(GdbsonError::UnexpectedEnd)
                    }
                },
            }
        },
        _ => Err(GdbsonError::UnexpectedToken),
    }
}

/// Reads one or more comma-separated string items of a list.
fn parse_items(toks: &Vec<Tok>, i: usize) -> (r: Result<(Vec<Value>, usize), GdbsonError>)
    requires
        i <= toks.len(),
    ensures
        r matches Ok((items, j)) ==> i < j <= toks.len() && items.len() >= 1 && view_toks(
            toks@,
        ).subrange(i as int, j as int) == spec_render_items(view_list(items@)),
        (match r {
            Ok((items, j)) => Ok((view_list(items@), j as int)),
            Err(e) => Err::<(Seq<SpecValue>, int), GdbsonError>(e),
        }) == spec_parse_items(view_toks(toks@), i as int, (toks.len() - i) as nat),
    decreases toks.len() - i,
{
    if i >= toks.len() {
        return Err(GdbsonError::UnexpectedEnd);
    }
    match &toks[i] {
        Tok::STRING(sv) => {
            let first = Value::String(sv.clone());
            let ghost first_view = view_value(first);
            let mut more = false;
            if i + 1 < toks.len() {
                more = match &toks[i + 1] {
                    Tok::COMMA => true,
                    _ => false,
                };
            }
            if more {
                proof {
                    lemma_parse_fuel(
                        view_toks(toks@),
                        i as int + 2,
                        (toks.len() - i - 2) as nat,
                        (toks.len() - i - 1) as nat,
                    );
                }
                match parse_items(toks, i + 2) {
                    Err(e) => Err(e),
                    Ok((mut rest, j)) => {
                        let ghost old_rest = rest@;
                        rest.insert(0, first);
                        proof {
                            assert(rest@.drop_first() =~= old_rest);
                            assert(view_list(rest@) == seq![first_view] + view_list(old_rest));
                            lemma_view_list_len(old_rest);
                            assert(view_list(rest@).len() >= 2);
                            assert(view_list(rest@).drop_first() =~= view_list(old_rest));
                            assert(spec_render_items(view_list(rest@)) == spec_render_value(
                                first_view,
                            ) + seq![SpecTok::COMMA] + spec_render_items(view_list(old_rest)));
                            assert(view_toks(toks@).subrange(i as int, j as int)
                                =~= spec_render_items(view_list(rest@)));
                        }
                        Ok((rest, j))
                    },
                }
            } else {
                let mut items: Vec<Value> = Vec::new();
                items.push(first);
                proof {
                    assert(items@.drop_first() =~= Seq::<Value>::empty());
                    assert(view_list(items@.drop_first()).len() == 0);
                    assert(view_list(items@) =~= seq![first_view]);
                    assert(spec_render_items(view_list(items@)) == spec_render_value(first_view));
                    assert(view_toks(toks@).subrange(i as int, i as int + 1)
                        =~= spec_render_items(view_list(items@)));
                }
                Ok((items, i + 1))
            }
        },
        _ => Err(GdbsonError::UnexpectedToken),
    }
}

/// Reads one or more comma-separated `ident=value` pairs.
pub fn parse_pairs(toks: &Vec<Tok>, i: usize) -> (r: Result<
    (Vec<(Vec<u8>, Value)>, usize),
    GdbsonError,
>)
    requires
        i <= toks.len(),
    ensures
        r matches Ok((pairs, j)) ==> i < j <= toks.len() && pairs.len() >= 1 && view_toks(
            toks@,
        ).subrange(i as int, j as int) == spec_render_pairs(view_pairs(pairs@)),
        (match r {
            Ok((pairs, j)) => Ok((view_pairs(pairs@), j as int)),
            Err(e) => Err::<(Seq<(Seq<u8>, SpecValue)>, int), GdbsonError>(e),
        }) == spec_parse_pairs(view_toks(toks@), i as int, (toks.len() - i) as nat),
    decreases toks.len() - i,
{
    if i >= toks.len() {
        return Err(GdbsonError::UnexpectedEnd);
    }
    let name: Vec<u8> = match &toks[i] {
        Tok::IDENT(n) => n.clone(),
        _ => {
            return Err(GdbsonError::UnexpectedToken);
        },
    };
    if i + 1 >= toks.len() {
        return Err(GdbsonError::UnexpectedEnd);
    }
    let is_eq = match &toks[i + 1] {
        Tok::EQ => true,
        _ => false,
    };
    if !is_eq {
        return Err(GdbsonError::UnexpectedToken);
    }
    proof {
        lemma_parse_fuel(
            view_toks(toks@),
            i as int + 2,
            (toks.len() - i - 2) as nat,
            (toks.len() - i - 1) as nat,
        );
    }
    match parse_value(toks, i + 2) {
        Err(e) => Err(e),
        Ok((v, j)) => {
            let ghost v_view = view_value(v);
            let ghost name_view = name@;
            let mut more = false;
            if j < toks.len() {
                more = match &toks[j] {
                    Tok::COMMA => true,
                    _ => false,
                };
            }
            if more {
                proof {
                    lemma_parse_fuel(
                        view_toks(toks@),
                        j as int + 1,
                        (toks.len() - j - 1) as nat,
                        (toks.len() - i - 1) as nat,
                    );
                }
                match parse_pairs(toks, j + 1) {
                    Err(e) => Err(e),
                    Ok((mut rest, j2)) => {
                        let ghost old_rest = rest@;
                        rest.insert(0, (name, v));
                        proof {
                            assert(rest@.drop_first() =~= old_rest);
                            assert(view_pairs(rest@) == seq![(name_view, v_view)] + view_pairs(
                                old_rest,
                            ));
                            lemma_view_pairs_len(old_rest);
                            assert(view_pairs(rest@).len() >= 2);
                            assert(view_pairs(rest@).drop_first() =~= view_pairs(old_rest));
                            assert(spec_render_pairs(view_pairs(rest@)) == seq![
                                SpecTok::IDENT(name_view),
                                SpecTok::EQ,
                            ] + spec_render_value(v_view) + seq![SpecTok::COMMA]
                                + spec_render_pairs(view_pairs(old_rest)));
                            assert(view_toks(toks@).subrange(i as int, j2 as int)
                                =~= spec_render_pairs(view_pairs(rest@)));
                        }
                        Ok((rest, j2))
                    },
                }
            } else {
                let mut pairs: Vec<(Vec<u8>, Value)> = Vec::new();
                pairs.push((name, v));
                proof {
                    assert(pairs@.drop_first() =~= Seq::<(Vec<u8>, Value)>::empty());
                    assert(view_pairs(pairs@.drop_first()).len() == 0);
                    assert(view_pairs(pairs@) =~= seq![(name_view, v_view)]);
                    assert(spec_render_pairs(view_pairs(pairs@)) == seq![
                        SpecTok::IDENT(name_view),
                        SpecTok::EQ,
                    ] + spec_render_value(v_view));
                    assert(view_toks(toks@).subrange(i as int, j as int) =~= spec_render_pairs(
                        view_pairs(pairs@),
                    ));
                }
                Ok((pairs, j))
            }
        },
    }
}

/// The total meaning of the token stream from position `i`: the value
/// a recursive descent reads, or the fault that stops it.
///
/// `fuel` only bounds the recursion; any fuel of at least the remaining
/// token count gives the same answer ([`lemma_parse_fuel`]).
pub open spec fn spec_parse_value(toks: Seq<SpecTok>, i: int, fuel: nat) -> Result<
    (SpecValue, int),
    GdbsonError,
>
    decreases fuel,
{
    if i < 0 || i >= toks.len() {
        Err(GdbsonError::UnexpectedEnd)
    } else if fuel == 0 {
        Err(GdbsonError::UnexpectedEnd)
    } else {
        match toks[i] {
            SpecTok::STRING(s) => Ok((SpecValue::String(s), i + 1)),
            SpecTok::LCURLY => match spec_parse_pairs(toks, i + 1, (fuel - 1) as nat) {
                Err(e) => Err(e),
                Ok((ps, j)) => if j < toks.len() {
                    if toks[j] is RCURLY {
                        Ok((SpecValue::Table(ps), j + 1))
                    } else {
                        Err(GdbsonError::UnexpectedToken)
                    }
                } else {
                    Err(GdbsonError::UnexpectedEnd)
                },
            },
            SpecTok::LSQUARE => if i + 1 < toks.len() && toks[i + 1] is RSQUARE {
                Ok((SpecValue::List(Seq::empty()), i + 2))
            } else {
                match spec_parse_items(toks, i + 1, (fuel - 1) as nat) {
                    Err(e) => Err(e),
                    Ok((items, j)) => if j < toks.len() {
                        if toks[j] is RSQUARE {
                            Ok((SpecValue::List(items), j + 1))
                        } else {
                            Err(GdbsonError::UnexpectedToken)
                        }
                    } else {
                        Err(GdbsonError::UnexpectedEnd)
                    },
                }
            },
            _ => Err(GdbsonError::UnexpectedToken),
        }
    }
}

/// The total meaning of a list body from position `i`: one or more
/// comma-separated strings.
pub open spec fn spec_parse_items(toks: Seq<SpecTok>, i: int, fuel: nat) -> Result<
    (Seq<SpecValue>, int),
    GdbsonError,
>
    decreases fuel,
{
    if i < 0 || i >= toks.len() {
        Err(GdbsonError::UnexpectedEnd)
    } else if fuel == 0 {
        Err(GdbsonError::UnexpectedEnd)
    } else {
        match toks[i] {
            SpecTok::STRING(s) => if i + 1 < toks.len() && toks[i + 1] is COMMA {
                match spec_parse_items(toks, i + 2, (fuel - 1) as nat) {
                    Err(e) => Err(e),
                    Ok((rest, j)) => Ok((seq![SpecValue::String(s)] + rest, j)),
                }
            } else {
                Ok((seq![SpecValue::String(s)], i + 1))
            },
            _ => Err(GdbsonError::UnexpectedToken),
        }
    }
}

/// The total meaning of a pair run from position `i`: one or more
/// comma-separated `ident = value` pairs.
pub open spec fn spec_parse_pairs(toks: Seq<SpecTok>, i: int, fuel: nat) -> Result<
    (Seq<(Seq<u8>, SpecValue)>, int),
    GdbsonError,
>
    decreases fuel,
{
    if i < 0 || i >= toks.len() {
        Err(GdbsonError::UnexpectedEnd)
    } else if fuel == 0 {
        Err(GdbsonError::UnexpectedEnd)
    } else {
        match toks[i] {
            SpecTok::IDENT(n) => if i + 1 >= toks.len() {
                Err(GdbsonError::UnexpectedEnd)
            } else if !(toks[i + 1] is EQ) {
                Err(GdbsonError::UnexpectedToken)
            } else {
                match spec_parse_value(toks, i + 2, (fuel - 1) as nat) {
                    Err(e) => Err(e),
                    Ok((v, j)) => if j < toks.len() && toks[j] is COMMA {
                        match spec_parse_pairs(toks, j + 1, (fuel - 1) as nat) {
                            Err(e) => Err(e),
                            Ok((rest, j2)) => Ok((seq![(n, v)] + rest, j2)),
                        }
                    } else {
                        Ok((seq![(n, v)], j))
                    },
                }
            },
            _ => Err(GdbsonError::UnexpectedToken),
        }
    }
}

/// A successful spec-level parse always moves forward and stays inside
/// the token stream.
pub proof fn lemma_parse_progress(toks: Seq<SpecTok>, i: int, fuel: nat)
    ensures
        spec_parse_value(toks, i, fuel) matches Ok((v, j)) ==> i < j <= toks.len(),
        spec_parse_items(toks, i, fuel) matches Ok((vs, j)) ==> i < j <= toks.len(),
        spec_parse_pairs(toks, i, fuel) matches Ok((ps, j)) ==> i < j <= toks.len(),
    decreases fuel,
{
    if fuel > 0 && 0 <= i < toks.len() {
        let f1 = (fuel - 1) as nat;
        lemma_parse_progress(toks, i + 1, f1);
        lemma_parse_progress(toks, i + 2, f1);
        match toks[i] {
            SpecTok::LCURLY => {
                if spec_parse_pairs(toks, i + 1, f1) matches Ok((ps, j)) {
                }
            },
            SpecTok::IDENT(n) => {
                if i + 1 < toks.len() && toks[i + 1] is EQ {
                    match spec_parse_value(toks, i + 2, f1) {
                        Ok((v, j)) => {
                            lemma_parse_progress(toks, j + 1, f1);
                        },
                        Err(e) => {},
                    }
                }
            },
            _ => {},
        }
    }
}

/// The fuel bound does not matter once it covers the remaining tokens:
/// any two sufficient fuels give the same parse.
pub proof fn lemma_parse_fuel(toks: Seq<SpecTok>, i: int, f1: nat, f2: nat)
    requires
        f1 >= toks.len() - i,
        f2 >= toks.len() - i,
    ensures
        spec_parse_value(toks, i, f1) == spec_parse_value(toks, i, f2),
        spec_parse_items(toks, i, f1) == spec_parse_items(toks, i, f2),
        spec_parse_pairs(toks, i, f1) == spec_parse_pairs(toks, i, f2),
    decreases f1 + f2,
{
    if 0 <= i < toks.len() {
        let g1 = (f1 - 1) as nat;
        let g2 = (f2 - 1) as nat;
        lemma_parse_fuel(toks, i + 1, g1, g2);
        lemma_parse_fuel(toks, i + 2, g1, g2);
        match toks[i] {
            SpecTok::IDENT(n) => {
                if i + 1 < toks.len() && toks[i + 1] is EQ {
                    match spec_parse_value(toks, i + 2, g1) {
                        Ok((v, j)) => {
                            lemma_parse_progress(toks, i + 2, g1);
                            lemma_parse_fuel(toks, j + 1, g1, g2);
                        },
                        Err(e) => {},
                    }
                }
            },
            _ => {},
        }
    }
}

/// A list of values views element by element; its view has its length.
pub proof fn lemma_view_list_len_pub(items: Seq<Value>)
    ensures
        view_list(items).len() == items.len(),
{
    lemma_view_list_len(items);
}

/// Element `k` of a viewed pair list is the view of element `k`.
pub proof fn lemma_view_pairs_index(pairs: Seq<(Vec<u8>, Value)>, k: int)
    requires
        0 <= k < pairs.len(),
    ensures
        view_pairs(pairs).len() == pairs.len(),
        view_pairs(pairs)[k] == (pairs[k].0@, view_value(pairs[k].1)),
    decreases pairs.len(),
{
    lemma_view_pairs_len(pairs);
    if k > 0 {
        lemma_view_pairs_index(pairs.drop_first(), k - 1);
        assert(pairs.drop_first()[k - 1] == pairs[k]);
    }
}

/// Element `k` of a viewed item list is the view of element `k`.
pub proof fn lemma_view_list_index(items: Seq<Value>, k: int)
    requires
        0 <= k < items.len(),
    ensures
        view_list(items).len() == items.len(),
        view_list(items)[k] == view_value(items[k]),
    decreases items.len(),
{
    lemma_view_list_len(items);
    if k > 0 {
        lemma_view_list_index(items.drop_first(), k - 1);
        assert(items.drop_first()[k - 1] == items[k]);
    }
}

/// The total meaning of a whole reply payload: its bytes are lexed and
/// read as a brace-less map of `ident=value` pairs; anything after the
/// last pair is left unread.
pub open spec fn spec_parse_reply(s: Seq<u8>) -> Result<SpecValue, GdbsonError> {
    match spec_lex(s, 0) {
        Err(e) => Err(e),
        Ok(toks) => match spec_parse_pairs(toks, 0, toks.len()) {
            Err(e) => Err(e),
            Ok((ps, j)) => Ok(SpecValue::Table(ps)),
        },
    }
}

/// The pairs of a table value; arbitrary for the other variants.
pub open spec fn spec_table_pairs(v: SpecValue) -> Seq<(Seq<u8>, SpecValue)> {
    match v {
        SpecValue::Table(ps) => ps,
        _ => arbitrary(),
    }
}

/// Reads a whole reply payload: a brace-less map of `ident=value`
/// pairs, leaving anything after the last pair unread.
///
/// On success the result is a map, and the tokens its pairs render to
/// are exactly an initial run of the input's token stream.
pub fn parse_bytes(input: &[u8]) -> (r: Result<Value, GdbsonError>)
    ensures
        (match r {
            Ok(v) => Ok(view_value(v)),
            Err(e) => Err::<SpecValue, GdbsonError>(e),
        }) == spec_parse_reply(input@),
        r matches Ok(v) ==> v is Table && ({
            let lexed = spec_lex(input@, 0);
            &&& lexed is Ok
            &&& exists|j: int|
                0 < j <= lexed->Ok_0.len() && lexed->Ok_0.subrange(0, j) == spec_render_pairs(
                    spec_table_pairs(view_value(v)),
                )
        }),
{
    let toks = match lex_from(input, 0) {
        Err(e) => {
            return Err(e);
        },
        Ok(t) => t,
    };
    match parse_pairs(&toks, 0) {
        Err(e) => Err(e),
        Ok((pairs, j)) => {
            let v = Value::Table(pairs);
            proof {
                let lexed = spec_lex(input@, 0);
                assert(lexed->Ok_0 == view_toks(toks@));
                assert(view_toks(toks@).subrange(0, j as int) == spec_render_pairs(
                    spec_table_pairs(view_value(v)),
                ));
            }
            Ok(v)
        },
    }
}

/// Reads a whole reply payload given as text; see [`parse_bytes`].
pub fn parse(input: &str) -> (r: Result<Value, GdbsonError>)
    ensures
        (match r {
            Ok(v) => Ok(view_value(v)),
            Err(e) => Err::<SpecValue, GdbsonError>(e),
        }) == spec_parse_reply(input.spec_bytes()),
        r matches Ok(v) ==> v is Table && ({
            let lexed = spec_lex(input.spec_bytes(), 0);
            &&& lexed is Ok
            &&& exists|j: int|
                0 < j <= lexed->Ok_0.len() && lexed->Ok_0.subrange(0, j) == spec_render_pairs(
                    spec_table_pairs(view_value(v)),
                )
        }),
{
    parse_bytes(input.as_bytes())
}

} // verus!
