//! Classification of a debugger's reply lines.
//!
//! Every reply line starts with a sigil naming its kind: a synchronous
//! result, an asynchronous notification, an execution-state change,
//! console text, or log text.  The functions here turn one line (already
//! read from the wire) into the message the harness acts on; the reading
//! and writing of the wire itself stays outside the library.

use vstd::prelude::*;
use crate::assembler::{spec_parse_name64, spec_views};
use crate::gdbson::{
    lemma_view_list_index, lemma_view_pairs_index, parse_bytes, spec_parse_reply,
    spec_table_pairs, view_list, view_pairs, view_value, SpecValue, Value,
};
use crate::registers::{spec_r64_of, Register, R64};

verus! {

/// The kind a reply line's leading sigil gives it.
#[derive(Clone, Copy, PartialEq, Eq, Structural, Debug)]
pub enum LineClass {
    /// `^`: the synchronous result of the last request.
    SyncResult,
    /// `=`: an asynchronous notification.
    Notify,
    /// `*`: an asynchronous execution-state change.
    ExecChange,
    /// `~`: console text.
    Console,
    /// `&`: log text.
    Log,
    /// Anything else, the end-of-sequence sentinel line included.
    Other,
}

/// Classifies a reply line by its first byte.
pub fn classify_line(line: &[u8]) -> (r: LineClass)
    ensures
        line@.len() == 0 ==> r == LineClass::Other,
        line@.len() > 0 ==> r == (if line@[0] == 0x5e {
            LineClass::SyncResult
        } else if line@[0] == 0x3d {
            LineClass::Notify
        } else if line@[0] == 0x2a {
            LineClass::ExecChange
        } else if line@[0] == 0x7e {
            LineClass::Console
        } else if line@[0] == 0x26 {
            LineClass::Log
        } else {
            LineClass::Other
        }),
{
    if line.len() == 0 {
        return LineClass::Other;
    }
    if line[0] == 0x5e {
        LineClass::SyncResult
    } else if line[0] == 0x3d {
        LineClass::Notify
    } else if line[0] == 0x2a {
        LineClass::ExecChange
    } else if line[0] == 0x7e {
        LineClass::Console
    } else if line[0] == 0x26 {
        LineClass::Log
    } else {
        LineClass::Other
    }
}

/// One message the differential-testing harness acts on.
#[derive(PartialEq, Eq, Debug)]
pub enum Message {
    BreakpointCreated,
    BreakpointHit,
    EndSteppingRange,
    RegisterNames(Vec<Vec<u8>>),
    Other,
}

/// The ordered register names a debugger reported.
pub struct RegisterNames {
    pub inner: Vec<Vec<u8>>,
}

/// The ghost form of a message.
pub enum SpecMsg {
    BreakpointCreated,
    BreakpointHit,
    EndSteppingRange,
    RegisterNames(Seq<Seq<u8>>),
    Other,
}

pub open spec fn view_msg(m: Message) -> SpecMsg {
    match m {
        Message::BreakpointCreated => SpecMsg::BreakpointCreated,
        Message::BreakpointHit => SpecMsg::BreakpointHit,
        Message::EndSteppingRange => SpecMsg::EndSteppingRange,
        Message::RegisterNames(ns) => SpecMsg::RegisterNames(spec_views(ns@)),
        Message::Other => SpecMsg::Other,
    }
}

pub open spec fn view_msg_opt(r: Option<Message>) -> Option<SpecMsg> {
    match r {
        Some(m) => Some(view_msg(m)),
        None => None,
    }
}

/// The first position at or after `i` that holds a comma.
pub open spec fn spec_comma_pos(s: Seq<u8>, i: int) -> int
    decreases s.len() - i,
{
    if i < 0 || i >= s.len() {
        s.len() as int
    } else if s[i] == 0x2c {
        i
    } else {
        spec_comma_pos(s, i + 1)
    }
}

fn comma_pos(s: &[u8], i: usize) -> (r: usize)
    requires
        i <= s.len(),
    ensures
        r == spec_comma_pos(s@, i as int),
        i <= r <= s.len(),
    decreases s.len() - i,
{
    if i >= s.len() {
        s.len()
    } else if s[i] == 0x2c {
        i
    } else {
        comma_pos(s, i + 1)
    }
}

/// Splits a line at its first comma: the part before it and the part
/// after it, or the whole line and an empty rest when it has none.
pub fn split_comma(line: &[u8]) -> (r: (Vec<u8>, Vec<u8>))
    ensures
        ({
            let k = spec_comma_pos(line@, 0);
            &&& 0 <= k <= line@.len()
            &&& r.0@ == line@.subrange(0, k)
            &&& (k < line@.len() ==> r.1@ == line@.subrange(k + 1, line@.len() as int))
            &&& (k == line@.len() ==> r.1@ == Seq::<u8>::empty())
        }),
{
    let k = comma_pos(line, 0);
    let head = vstd::slice::slice_to_vec(&line[0..k]);
    let rest: Vec<u8> = if k < line.len() {
        vstd::slice::slice_to_vec(&line[k + 1..line.len()])
    } else {
        Vec::new()
    };
    proof {
        if k == line@.len() {
            assert(rest@ =~= Seq::<u8>::empty());
        }
    }
    (head, rest)
}

/// The C-style unescaping of a byte string: `\n`, `\t`, `\\` and `\"`
/// become their characters; any other escape, or a trailing backslash,
/// refuses the string.
pub open spec fn spec_unescape_c(s: Seq<u8>, i: int) -> Option<Seq<u8>>
    decreases s.len() - i,
{
    if i < 0 || i >= s.len() {
        Some(Seq::empty())
    } else if s[i] == 0x5c {
        if i + 1 >= s.len() {
            None
        } else {
            let c = s[i + 1];
            let mapped: Option<u8> = if c == 0x6e {
                Some(0x0a)
            } else if c == 0x74 {
                Some(0x09)
            } else if c == 0x5c {
                Some(0x5c)
            } else if c == 0x22 {
                Some(0x22)
            } else {
                None
            };
            match mapped {
                None => None,
                Some(m) => match spec_unescape_c(s, i + 2) {
                    None => None,
                    Some(rest) => Some(seq![m] + rest),
                },
            }
        }
    } else {
        match spec_unescape_c(s, i + 1) {
            None => None,
            Some(rest) => Some(seq![s[i]] + rest),
        }
    }
}

fn unescape_from(s: &[u8], i: usize) -> (r: Option<Vec<u8>>)
    requires
        i <= s.len(),
    ensures
        (match r {
            Some(v) => Some(v@),
            None => None::<Seq<u8>>,
        }) == spec_unescape_c(s@, i as int),
    decreases s.len() - i,
{
    if i >= s.len() {
        let v: Vec<u8> = Vec::new();
        proof {
            assert(v@ =~= Seq::<u8>::empty());
        }
        return Some(v);
    }
    if s[i] == 0x5c {
        if i + 1 >= s.len() {
            return None;
        }
        let c = s[i + 1];
        let mapped: Option<u8> = if c == 0x6e {
            Some(0x0a)
        } else if c == 0x74 {
            Some(0x09)
        } else if c == 0x5c {
            Some(0x5c)
        } else if c == 0x22 {
            Some(0x22)
        } else {
            None
        };
        match mapped {
            None => None,
            Some(m) => {
                match unescape_from(s, i + 2) {
                    None => None,
                    Some(mut rest) => {
                        rest.insert(0, m);
                        proof {
                            assert(rest@ =~= seq![m] + spec_unescape_c(s@, i as int + 2)->Some_0);
                        }
                        Some(rest)
                    },
                }
            },
        }
    } else {
        let c = s[i];
        match unescape_from(s, i + 1) {
            None => None,
            Some(mut rest) => {
                rest.insert(0, c);
                proof {
                    assert(rest@ =~= seq![c] + spec_unescape_c(s@, i as int + 1)->Some_0);
                }
                Some(rest)
            },
        }
    }
}

/// Unescapes a console or log payload, as [`spec_unescape_c`] says.
pub fn unescape_c(input: &[u8]) -> (r: Option<Vec<u8>>)
    ensures
        (match r {
            Some(v) => Some(v@),
            None => None::<Seq<u8>>,
        }) == spec_unescape_c(input@, 0),
{
    unescape_from(input, 0)
}

/// The value of the last pair of a parsed map holding `key`, as a map
/// built by repeated insertion would answer; `None` when no pair does.
pub open spec fn spec_assoc_last(pairs: Seq<(Seq<u8>, SpecValue)>, key: Seq<u8>) -> Option<
    SpecValue,
>
    decreases pairs.len(),
{
    if pairs.len() == 0 {
        None
    } else if pairs.last().0 == key {
        Some(pairs.last().1)
    } else {
        spec_assoc_last(pairs.drop_last(), key)
    }
}

/// Looks `key` up among the pairs, later pairs shadowing earlier ones.
fn table_get<'a>(pairs: &'a Vec<(Vec<u8>, Value)>, key: &Vec<u8>) -> (r: Option<&'a Value>)
    ensures
        (match r {
            Some(v) => Some(view_value(*v)),
            None => None::<SpecValue>,
        }) == spec_assoc_last(view_pairs(pairs@), key@),
{
    let vp = Ghost(view_pairs(pairs@));
    let mut k: usize = pairs.len();
    proof {
        if pairs@.len() > 0 {
            lemma_view_pairs_index(pairs@, 0);
        }
        assert(vp@.subrange(0, vp@.len() as int) =~= vp@);
    }
    while k > 0
        invariant
            k <= pairs.len(),
            vp@ == view_pairs(pairs@),
            vp@.len() == pairs@.len(),
            spec_assoc_last(vp@, key@) == spec_assoc_last(vp@.subrange(0, k as int), key@),
        decreases k,
    {
        proof {
            lemma_view_pairs_index(pairs@, k - 1);
            assert(vp@.subrange(0, k as int).last() == vp@[k - 1]);
            assert(vp@.subrange(0, k as int).drop_last() =~= vp@.subrange(0, k as int - 1));
        }
        if bytes_equal(&pairs[k - 1].0, key) {
            return Some(&pairs[k - 1].1);
        }
        k = k - 1;
    }
    proof {
        assert(vp@.subrange(0, 0) =~= Seq::<(Seq<u8>, SpecValue)>::empty());
    }
    None
}

fn bytes_equal(a: &Vec<u8>, b: &Vec<u8>) -> (r: bool)
    ensures
        r == (a@ == b@),
{
    if a.len() != b.len() {
        return false;
    }
    let mut i: usize = 0;
    while i < a.len()
        invariant
            i <= a.len(),
            a.len() == b.len(),
            forall|j: int| 0 <= j < i ==> a@[j] == b@[j],
        decreases a.len() - i,
    {
        if a[i] != b[i] {
            return false;
        }
        i = i + 1;
    }
    proof {
        assert(a@ =~= b@);
    }
    true
}

/// Whether a byte string is the word `breakpoint-created`.
pub open spec fn spec_word_breakpoint_created(t: Seq<u8>) -> bool {
    t == seq![0x62u8, 0x72u8, 0x65u8, 0x61u8, 0x6bu8, 0x70u8, 0x6fu8, 0x69u8, 0x6eu8, 0x74u8, 0x2du8, 0x63u8, 0x72u8, 0x65u8, 0x61u8, 0x74u8, 0x65u8, 0x64u8]
}

fn word_breakpoint_created(t: &Vec<u8>) -> (r: bool)
    ensures
        r == spec_word_breakpoint_created(t@),
{
    if t.len() == 18 && t[0] == 0x62 && t[1] == 0x72 && t[2] == 0x65 && t[3] == 0x61 && t[4] == 0x6b && t[5] == 0x70 && t[6] == 0x6f && t[7] == 0x69 && t[8] == 0x6e && t[9] == 0x74 && t[10] == 0x2d && t[11] == 0x63 && t[12] == 0x72 && t[13] == 0x65 && t[14] == 0x61 && t[15] == 0x74 && t[16] == 0x65 && t[17] == 0x64 {
        proof {
            assert(t@ =~= seq![0x62u8, 0x72u8, 0x65u8, 0x61u8, 0x6bu8, 0x70u8, 0x6fu8, 0x69u8, 0x6eu8, 0x74u8, 0x2du8, 0x63u8, 0x72u8, 0x65u8, 0x61u8, 0x74u8, 0x65u8, 0x64u8]);
        }
        true
    } else {
        false
    }
}

/// Whether a byte string is the word `thread-group-added`.
pub open spec fn spec_word_thread_group_added(t: Seq<u8>) -> bool {
    t == seq![0x74u8, 0x68u8, 0x72u8, 0x65u8, 0x61u8, 0x64u8, 0x2du8, 0x67u8, 0x72u8, 0x6fu8, 0x75u8, 0x70u8, 0x2du8, 0x61u8, 0x64u8, 0x64u8, 0x65u8, 0x64u8]
}

fn word_thread_group_added(t: &Vec<u8>) -> (r: bool)
    ensures
        r == spec_word_thread_group_added(t@),
{
    if t.len() == 18 && t[0] == 0x74 && t[1] == 0x68 && t[2] == 0x72 && t[3] == 0x65 && t[4] == 0x61 && t[5] == 0x64 && t[6] == 0x2d && t[7] == 0x67 && t[8] == 0x72 && t[9] == 0x6f && t[10] == 0x75 && t[11] == 0x70 && t[12] == 0x2d && t[13] == 0x61 && t[14] == 0x64 && t[15] == 0x64 && t[16] == 0x65 && t[17] == 0x64 {
        proof {
            assert(t@ =~= seq![0x74u8, 0x68u8, 0x72u8, 0x65u8, 0x61u8, 0x64u8, 0x2du8, 0x67u8, 0x72u8, 0x6fu8, 0x75u8, 0x70u8, 0x2du8, 0x61u8, 0x64u8, 0x64u8, 0x65u8, 0x64u8]);
        }
        true
    } else {
        false
    }
}

/// Whether a byte string is the word `thread-group-started`.
pub open spec fn spec_word_thread_group_started(t: Seq<u8>) -> bool {
    t == seq![0x74u8, 0x68u8, 0x72u8, 0x65u8, 0x61u8, 0x64u8, 0x2du8, 0x67u8, 0x72u8, 0x6fu8, 0x75u8, 0x70u8, 0x2du8, 0x73u8, 0x74u8, 0x61u8, 0x72u8, 0x74u8, 0x65u8, 0x64u8]
}

fn word_thread_group_started(t: &Vec<u8>) -> (r: bool)
    ensures
        r == spec_word_thread_group_started(t@),
{
    if t.len() == 20 && t[0] == 0x74 && t[1] == 0x68 && t[2] == 0x72 && t[3] == 0x65 && t[4] == 0x61 && t[5] == 0x64 && t[6] == 0x2d && t[7] == 0x67 && t[8] == 0x72 && t[9] == 0x6f && t[10] == 0x75 && t[11] == 0x70 && t[12] == 0x2d && t[13] == 0x73 && t[14] == 0x74 && t[15] == 0x61 && t[16] == 0x72 && t[17] == 0x74 && t[18] == 0x65 && t[19] == 0x64 {
        proof {
            assert(t@ =~= seq![0x74u8, 0x68u8, 0x72u8, 0x65u8, 0x61u8, 0x64u8, 0x2du8, 0x67u8, 0x72u8, 0x6fu8, 0x75u8, 0x70u8, 0x2du8, 0x73u8, 0x74u8, 0x61u8, 0x72u8, 0x74u8, 0x65u8, 0x64u8]);
        }
        true
    } else {
        false
    }
}

/// Whether a byte string is the word `thread-created`.
pub open spec fn spec_word_thread_created(t: Seq<u8>) -> bool {
    t == seq![0x74u8, 0x68u8, 0x72u8, 0x65u8, 0x61u8, 0x64u8, 0x2du8, 0x63u8, 0x72u8, 0x65u8, 0x61u8, 0x74u8, 0x65u8, 0x64u8]
}

fn word_thread_created(t: &Vec<u8>) -> (r: bool)
    ensures
        r == spec_word_thread_created(t@),
{
    if t.len() == 14 && t[0] == 0x74 && t[1] == 0x68 && t[2] == 0x72 && t[3] == 0x65 && t[4] == 0x61 && t[5] == 0x64 && t[6] == 0x2d && t[7] == 0x63 && t[8] == 0x72 && t[9] == 0x65 && t[10] == 0x61 && t[11] == 0x74 && t[12] == 0x65 && t[13] == 0x64 {
        proof {
            assert(t@ =~= seq![0x74u8, 0x68u8, 0x72u8, 0x65u8, 0x61u8, 0x64u8, 0x2du8, 0x63u8, 0x72u8, 0x65u8, 0x61u8, 0x74u8, 0x65u8, 0x64u8]);
        }
        true
    } else {
        false
    }
}

/// Whether a byte string is the word `breakpoint-modified`.
pub open spec fn spec_word_breakpoint_modified(t: Seq<u8>) -> bool {
    t == seq![0x62u8, 0x72u8, 0x65u8, 0x61u8, 0x6bu8, 0x70u8, 0x6fu8, 0x69u8, 0x6eu8, 0x74u8, 0x2du8, 0x6du8, 0x6fu8, 0x64u8, 0x69u8, 0x66u8, 0x69u8, 0x65u8, 0x64u8]
}

fn word_breakpoint_modified(t: &Vec<u8>) -> (r: bool)
    ensures
        r == spec_word_breakpoint_modified(t@),
{
    if t.len() == 19 && t[0] == 0x62 && t[1] == 0x72 && t[2] == 0x65 && t[3] == 0x61 && t[4] == 0x6b && t[5] == 0x70 && t[6] == 0x6f && t[7] == 0x69 && t[8] == 0x6e && t[9] == 0x74 && t[10] == 0x2d && t[11] == 0x6d && t[12] == 0x6f && t[13] == 0x64 && t[14] == 0x69 && t[15] == 0x66 && t[16] == 0x69 && t[17] == 0x65 && t[18] == 0x64 {
        proof {
            assert(t@ =~= seq![0x62u8, 0x72u8, 0x65u8, 0x61u8, 0x6bu8, 0x70u8, 0x6fu8, 0x69u8, 0x6eu8, 0x74u8, 0x2du8, 0x6du8, 0x6fu8, 0x64u8, 0x69u8, 0x66u8, 0x69u8, 0x65u8, 0x64u8]);
        }
        true
    } else {
        false
    }
}

/// Whether a byte string is the word `running`.
pub open spec fn spec_word_running(t: Seq<u8>) -> bool {
    t == seq![0x72u8, 0x75u8, 0x6eu8, 0x6eu8, 0x69u8, 0x6eu8, 0x67u8]
}

fn word_running(t: &Vec<u8>) -> (r: bool)
    ensures
        r == spec_word_running(t@),
{
    if t.len() == 7 && t[0] == 0x72 && t[1] == 0x75 && t[2] == 0x6e && t[3] == 0x6e && t[4] == 0x69 && t[5] == 0x6e && t[6] == 0x67 {
        proof {
            assert(t@ =~= seq![0x72u8, 0x75u8, 0x6eu8, 0x6eu8, 0x69u8, 0x6eu8, 0x67u8]);
        }
        true
    } else {
        false
    }
}

/// Whether a byte string is the word `stopped`.
pub open spec fn spec_word_stopped(t: Seq<u8>) -> bool {
    t == seq![0x73u8, 0x74u8, 0x6fu8, 0x70u8, 0x70u8, 0x65u8, 0x64u8]
}

fn word_stopped(t: &Vec<u8>) -> (r: bool)
    ensures
        r == spec_word_stopped(t@),
{
    if t.len() == 7 && t[0] == 0x73 && t[1] == 0x74 && t[2] == 0x6f && t[3] == 0x70 && t[4] == 0x70 && t[5] == 0x65 && t[6] == 0x64 {
        proof {
            assert(t@ =~= seq![0x73u8, 0x74u8, 0x6fu8, 0x70u8, 0x70u8, 0x65u8, 0x64u8]);
        }
        true
    } else {
        false
    }
}

/// Whether a byte string is the word `done`.
pub open spec fn spec_word_done(t: Seq<u8>) -> bool {
    t == seq![0x64u8, 0x6fu8, 0x6eu8, 0x65u8]
}

fn word_done(t: &Vec<u8>) -> (r: bool)
    ensures
        r == spec_word_done(t@),
{
    if t.len() == 4 && t[0] == 0x64 && t[1] == 0x6f && t[2] == 0x6e && t[3] == 0x65 {
        proof {
            assert(t@ =~= seq![0x64u8, 0x6fu8, 0x6eu8, 0x65u8]);
        }
        true
    } else {
        false
    }
}

/// Whether a byte string is the word `error`.
pub open spec fn spec_word_error(t: Seq<u8>) -> bool {
    t == seq![0x65u8, 0x72u8, 0x72u8, 0x6fu8, 0x72u8]
}

fn word_error(t: &Vec<u8>) -> (r: bool)
    ensures
        r == spec_word_error(t@),
{
    if t.len() == 5 && t[0] == 0x65 && t[1] == 0x72 && t[2] == 0x72 && t[3] == 0x6f && t[4] == 0x72 {
        proof {
            assert(t@ =~= seq![0x65u8, 0x72u8, 0x72u8, 0x6fu8, 0x72u8]);
        }
        true
    } else {
        false
    }
}

/// Whether a byte string is the word `breakpoint-hit`.
pub open spec fn spec_word_breakpoint_hit(t: Seq<u8>) -> bool {
    t == seq![0x62u8, 0x72u8, 0x65u8, 0x61u8, 0x6bu8, 0x70u8, 0x6fu8, 0x69u8, 0x6eu8, 0x74u8, 0x2du8, 0x68u8, 0x69u8, 0x74u8]
}

fn word_breakpoint_hit(t: &Vec<u8>) -> (r: bool)
    ensures
        r == spec_word_breakpoint_hit(t@),
{
    if t.len() == 14 && t[0] == 0x62 && t[1] == 0x72 && t[2] == 0x65 && t[3] == 0x61 && t[4] == 0x6b && t[5] == 0x70 && t[6] == 0x6f && t[7] == 0x69 && t[8] == 0x6e && t[9] == 0x74 && t[10] == 0x2d && t[11] == 0x68 && t[12] == 0x69 && t[13] == 0x74 {
        proof {
            assert(t@ =~= seq![0x62u8, 0x72u8, 0x65u8, 0x61u8, 0x6bu8, 0x70u8, 0x6fu8, 0x69u8, 0x6eu8, 0x74u8, 0x2du8, 0x68u8, 0x69u8, 0x74u8]);
        }
        true
    } else {
        false
    }
}

/// Whether a byte string is the word `end-stepping-range`.
pub open spec fn spec_word_end_stepping_range(t: Seq<u8>) -> bool {
    t == seq![0x65u8, 0x6eu8, 0x64u8, 0x2du8, 0x73u8, 0x74u8, 0x65u8, 0x70u8, 0x70u8, 0x69u8, 0x6eu8, 0x67u8, 0x2du8, 0x72u8, 0x61u8, 0x6eu8, 0x67u8, 0x65u8]
}

fn word_end_stepping_range(t: &Vec<u8>) -> (r: bool)
    ensures
        r == spec_word_end_stepping_range(t@),
{
    if t.len() == 18 && t[0] == 0x65 && t[1] == 0x6e && t[2] == 0x64 && t[3] == 0x2d && t[4] == 0x73 && t[5] == 0x74 && t[6] == 0x65 && t[7] == 0x70 && t[8] == 0x70 && t[9] == 0x69 && t[10] == 0x6e && t[11] == 0x67 && t[12] == 0x2d && t[13] == 0x72 && t[14] == 0x61 && t[15] == 0x6e && t[16] == 0x67 && t[17] == 0x65 {
        proof {
            assert(t@ =~= seq![0x65u8, 0x6eu8, 0x64u8, 0x2du8, 0x73u8, 0x74u8, 0x65u8, 0x70u8, 0x70u8, 0x69u8, 0x6eu8, 0x67u8, 0x2du8, 0x72u8, 0x61u8, 0x6eu8, 0x67u8, 0x65u8]);
        }
        true
    } else {
        false
    }
}

/// Whether a byte string is the word `register-names`.
pub open spec fn spec_word_register_names(t: Seq<u8>) -> bool {
    t == seq![0x72u8, 0x65u8, 0x67u8, 0x69u8, 0x73u8, 0x74u8, 0x65u8, 0x72u8, 0x2du8, 0x6eu8, 0x61u8, 0x6du8, 0x65u8, 0x73u8]
}

fn word_register_names(t: &Vec<u8>) -> (r: bool)
    ensures
        r == spec_word_register_names(t@),
{
    if t.len() == 14 && t[0] == 0x72 && t[1] == 0x65 && t[2] == 0x67 && t[3] == 0x69 && t[4] == 0x73 && t[5] == 0x74 && t[6] == 0x65 && t[7] == 0x72 && t[8] == 0x2d && t[9] == 0x6e && t[10] == 0x61 && t[11] == 0x6d && t[12] == 0x65 && t[13] == 0x73 {
        proof {
            assert(t@ =~= seq![0x72u8, 0x65u8, 0x67u8, 0x69u8, 0x73u8, 0x74u8, 0x65u8, 0x72u8, 0x2du8, 0x6eu8, 0x61u8, 0x6du8, 0x65u8, 0x73u8]);
        }
        true
    } else {
        false
    }
}

/// Whether a byte string is the word `reason`.
pub open spec fn spec_word_reason(t: Seq<u8>) -> bool {
    t == seq![0x72u8, 0x65u8, 0x61u8, 0x73u8, 0x6fu8, 0x6eu8]
}

fn word_reason(t: &Vec<u8>) -> (r: bool)
    ensures
        r == spec_word_reason(t@),
{
    if t.len() == 6 && t[0] == 0x72 && t[1] == 0x65 && t[2] == 0x61 && t[3] == 0x73 && t[4] == 0x6f && t[5] == 0x6e {
        proof {
            assert(t@ =~= seq![0x72u8, 0x65u8, 0x61u8, 0x73u8, 0x6fu8, 0x6eu8]);
        }
        true
    } else {
        false
    }
}



/// The text after the first comma of a line; empty when it has none.
pub open spec fn spec_rest(line: Seq<u8>) -> Seq<u8> {
    let k = spec_comma_pos(line, 0);
    if k < line.len() {
        line.subrange(k + 1, line.len() as int)
    } else {
        Seq::empty()
    }
}

/// The payloads of a run of string values, in order; `None` when one of
/// them is not a string.
pub open spec fn spec_strings_of(items: Seq<SpecValue>, i: int) -> Option<Seq<Seq<u8>>>
    decreases items.len() - i,
{
    if i < 0 || i >= items.len() {
        Some(Seq::empty())
    } else {
        match items[i] {
            SpecValue::String(sv) => match spec_strings_of(items, i + 1) {
                Some(rest) => Some(seq![sv] + rest),
                None => None,
            },
            _ => None,
        }
    }
}

/// The message of an execution-state-change line: `running` is
/// ignorable; for `stopped` the last `reason` pair of the parsed payload
/// decides between a breakpoint hit and a completed step; any other
/// command, unparsable payload, or unknown reason is outside the
/// understood protocol.
pub open spec fn spec_exec_async_output(line: Seq<u8>) -> Option<SpecMsg> {
    let cmd = line.subrange(0, spec_comma_pos(line, 0));
    if spec_word_running(cmd) {
        Some(SpecMsg::Other)
    } else if !spec_word_stopped(cmd) {
        None
    } else {
        match spec_parse_reply(spec_rest(line)) {
            Err(e) => None,
            Ok(v) => match spec_assoc_last(
                spec_table_pairs(v),
                seq![0x72u8, 0x65u8, 0x61u8, 0x73u8, 0x6fu8, 0x6eu8],
            ) {
                Some(SpecValue::String(reason)) => if spec_word_breakpoint_hit(reason) {
                    Some(SpecMsg::BreakpointHit)
                } else if spec_word_end_stepping_range(reason) {
                    Some(SpecMsg::EndSteppingRange)
                } else {
                    None
                },
                _ => None,
            },
        }
    }
}

/// The message of a synchronous-result line: an error result, or one
/// with no payload, carries no data; a done or running result's payload
/// is parsed and its last `register-names` pair must be a list of
/// strings, which become the ordered name list; anything else is
/// outside the understood protocol.
pub open spec fn spec_sync_operation(line: Seq<u8>) -> Option<SpecMsg> {
    let cmd = line.subrange(0, spec_comma_pos(line, 0));
    if spec_word_error(cmd) {
        Some(SpecMsg::Other)
    } else if !spec_word_done(cmd) && !spec_word_running(cmd) {
        None
    } else if spec_rest(line).len() == 0 {
        Some(SpecMsg::Other)
    } else {
        match spec_parse_reply(spec_rest(line)) {
            Err(e) => None,
            Ok(v) => match spec_assoc_last(
                spec_table_pairs(v),
                seq![
                    0x72u8,
                    0x65u8,
                    0x67u8,
                    0x69u8,
                    0x73u8,
                    0x74u8,
                    0x65u8,
                    0x72u8,
                    0x2du8,
                    0x6eu8,
                    0x61u8,
                    0x6du8,
                    0x65u8,
                    0x73u8,
                ],
            ) {
                Some(SpecValue::List(items)) => match spec_strings_of(items, 0) {
                    Some(ns) => Some(SpecMsg::RegisterNames(ns)),
                    None => None,
                },
                _ => None,
            },
        }
    }
}

/// Collects the payloads of a run of string values.
fn strings_of(items: &Vec<Value>, i: usize) -> (r: Option<Vec<Vec<u8>>>)
    requires
        i <= items.len(),
    ensures
        (match r {
            Some(ns) => Some(spec_views(ns@)),
            None => None::<Seq<Seq<u8>>>,
        }) == spec_strings_of(view_list(items@), i as int),
    decreases items.len() - i,
{
    proof {
        if i < items.len() {
            lemma_view_list_index(items@, i as int);
        } else {
            crate::gdbson::lemma_view_list_len_pub(items@);
        }
    }
    if i >= items.len() {
        let r: Vec<Vec<u8>> = Vec::new();
        proof {
            assert(spec_views(r@) =~= Seq::<Seq<u8>>::empty());
        }
        return Some(r);
    }
    match &items[i] {
        Value::String(sv) => {
            match strings_of(items, i + 1) {
                Some(mut rest) => {
                    let ghost old_views = spec_views(rest@);
                    rest.insert(0, sv.clone());
                    proof {
                        assert(spec_views(rest@) =~= seq![sv@] + old_views);
                    }
                    Some(rest)
                },
                None => None,
            }
        },
        _ => None,
    }
}

/// The message of a notification line (after its sigil): the command
/// word before the first comma decides it.
///
/// A breakpoint creation is reported as such; thread and breakpoint
/// bookkeeping is ignorable; anything else, or a line with no comma, is
/// outside the understood protocol.
pub fn notify_async_output(line: &[u8]) -> (r: Option<Message>)
    ensures
        ({
            let k = spec_comma_pos(line@, 0);
            let cmd = line@.subrange(0, k);
            if k == line@.len() {
                r is None
            } else if spec_word_breakpoint_created(cmd) {
                r == Some(Message::BreakpointCreated)
            } else if spec_word_thread_group_added(cmd) || spec_word_thread_group_started(cmd)
                || spec_word_thread_created(cmd) || spec_word_breakpoint_modified(cmd) {
                r == Some(Message::Other)
            } else {
                r is None
            }
        }),
{
    let (cmd, _rest) = split_comma(line);
    if comma_pos(line, 0) == line.len() {
        return None;
    }
    if word_breakpoint_created(&cmd) {
        Some(Message::BreakpointCreated)
    } else if word_thread_group_added(&cmd) || word_thread_group_started(&cmd)
        || word_thread_created(&cmd) || word_breakpoint_modified(&cmd) {
        Some(Message::Other)
    } else {
        None
    }
}

/// The message of an execution-state-change line (after its sigil),
/// exactly as [`spec_exec_async_output`] reads it.
pub fn exec_async_output(line: &[u8]) -> (r: Option<Message>)
    ensures
        view_msg_opt(r) == spec_exec_async_output(line@),
{
    let (cmd, rest) = split_comma(line);
    proof {
        assert(rest@ =~= spec_rest(line@));
    }
    if word_running(&cmd) {
        return Some(Message::Other);
    }
    if !word_stopped(&cmd) {
        return None;
    }
    let value = match parse_bytes(rest.as_slice()) {
        Ok(v) => v,
        Err(_) => {
            return None;
        },
    };
    let pairs = match &value {
        Value::Table(pairs) => pairs,
        _ => {
            return None;
        },
    };
    let mut key: Vec<u8> = Vec::new();
    key.push(0x72);
    key.push(0x65);
    key.push(0x61);
    key.push(0x73);
    key.push(0x6f);
    key.push(0x6e);
    proof {
        assert(key@ =~= seq![0x72u8, 0x65u8, 0x61u8, 0x73u8, 0x6fu8, 0x6eu8]);
    }
    let reason = match table_get(pairs, &key) {
        Some(Value::String(s)) => s,
        _ => {
            return None;
        },
    };
    if word_breakpoint_hit(reason) {
        Some(Message::BreakpointHit)
    } else if word_end_stepping_range(reason) {
        Some(Message::EndSteppingRange)
    } else {
        None
    }
}

/// The message of a synchronous-result line (after its sigil), exactly
/// as [`spec_sync_operation`] reads it.
pub fn sync_operation(line: &[u8]) -> (r: Option<Message>)
    ensures
        view_msg_opt(r) == spec_sync_operation(line@),
{
    let (cmd, rest) = split_comma(line);
    proof {
        assert(rest@ =~= spec_rest(line@));
    }
    if word_error(&cmd) {
        return Some(Message::Other);
    }
    if !word_done(&cmd) && !word_running(&cmd) {
        return None;
    }
    if rest.len() == 0 {
        return Some(Message::Other);
    }
    let value = match parse_bytes(rest.as_slice()) {
        Ok(v) => v,
        Err(_) => {
            return None;
        },
    };
    let pairs = match &value {
        Value::Table(pairs) => pairs,
        _ => {
            return None;
        },
    };
    let mut key: Vec<u8> = Vec::new();
    key.push(0x72);
    key.push(0x65);
    key.push(0x67);
    key.push(0x69);
    key.push(0x73);
    key.push(0x74);
    key.push(0x65);
    key.push(0x72);
    key.push(0x2d);
    key.push(0x6e);
    key.push(0x61);
    key.push(0x6d);
    key.push(0x65);
    key.push(0x73);
    proof {
        assert(key@ =~= seq![
            0x72u8,
            0x65u8,
            0x67u8,
            0x69u8,
            0x73u8,
            0x74u8,
            0x65u8,
            0x72u8,
            0x2du8,
            0x6eu8,
            0x61u8,
            0x6du8,
            0x65u8,
            0x73u8,
        ]);
    }
    let items = match table_get(pairs, &key) {
        Some(Value::List(items)) => items,
        _ => {
            return None;
        },
    };
    match strings_of(items, 0) {
        Some(names) => Some(Message::RegisterNames(names)),
        None => None,
    }
}

/// The identifier debugger register number `k` maps to: the `k`-th
/// reported name resolved as a 64-bit register name, the table's filler
/// where the name is unrecognized or missing; only the first sixteen
/// names count.
pub open spec fn spec_resolved_name(names: Seq<Vec<u8>>, k: int) -> R64 {
    if 0 <= k < names.len() {
        match spec_parse_name64(names[k]@) {
            Some(j) => spec_r64_of(j),
            None => R64::R15,
        }
    } else {
        R64::R15
    }
}

/// The slot each debugger register number maps to, entry by entry as
/// [`spec_resolved_name`] gives it.
///
/// An unrecognized name keeps the filler entry rather than stopping the
/// harness; the caller sees which entries resolved.
pub fn process_register_names(names: &RegisterNames) -> (r: Vec<R64>)
    ensures
        r.len() == 16,
        forall|k: int| 0 <= k < 16 ==> #[trigger] r@[k] == spec_resolved_name(names.inner@, k),
{
    let mut regs: Vec<R64> = Vec::new();
    let mut i: usize = 0;
    while i < 16
        invariant
            i <= 16,
            regs.len() == i,
            forall|j: int| 0 <= j < i ==> #[trigger] regs@[j] == R64::R15,
        decreases 16 - i,
    {
        regs.push(R64::R15);
        i = i + 1;
    }
    let mut k: usize = 0;
    while k < names.inner.len() && k < 16
        invariant
            regs.len() == 16,
            k <= 16,
            forall|j: int| 0 <= j < k ==> #[trigger] regs@[j] == spec_resolved_name(
                names.inner@,
                j,
            ),
            forall|j: int| k <= j < 16 ==> #[trigger] regs@[j] == R64::R15,
        decreases 16 - k,
    {
        match name_of_bytes(&names.inner[k]) {
            Some(reg) => {
                regs.set(k, reg);
            },
            None => {},
        }
        k = k + 1;
    }
    proof {
        assert forall|j: int| 0 <= j < 16 implies #[trigger] regs@[j] == spec_resolved_name(
            names.inner@,
            j,
        ) by {
            if j >= k {
                assert(j >= names.inner@.len() || j >= 16);
            }
        }
    }
    regs
}

/// Resolves a register name given as raw bytes.
fn name_of_bytes(b: &Vec<u8>) -> (r: Option<R64>)
    ensures
        r == (match spec_parse_name64(b@) {
            Some(j) => Some(spec_r64_of(j)),
            None => None::<R64>,
        }),
{
    match crate::assembler::parse_name64(b) {
        Some(k) => {
            let reg = R64::from_index(k);
            proof {
                crate::registers::lemma_r64_of_index(reg);
            }
            Some(reg)
        },
        None => None,
    }
}

/// The final 16-slot value table of a register dump: each reported
/// `(number, value)` entry lands in the slot its mapping entry names,
/// later entries overwriting earlier ones, numbers outside the mapping
/// ignored.
pub open spec fn spec_map_registers(mapping: Seq<R64>, regs: Seq<(u8, u64)>) -> Seq<u64>
    decreases regs.len(),
{
    if regs.len() == 0 {
        Seq::new(16, |i: int| 0u64)
    } else {
        let acc = spec_map_registers(mapping, regs.drop_last());
        let (number, value) = regs.last();
        if number < mapping.len() {
            acc.update(mapping[number as int].spec_index(), value)
        } else {
            acc
        }
    }
}

/// Builds the 16-slot value table, as [`spec_map_registers`] says.
pub fn map_registers(mapping: &Vec<R64>, regs: &Vec<(u8, u64)>) -> (r: Vec<u64>)
    requires
        mapping.len() == 16,
    ensures
        r@ == spec_map_registers(mapping@, regs@),
        r.len() == 16,
{
    let mut result: Vec<u64> = Vec::new();
    let mut i: usize = 0;
    while i < 16
        invariant
            i <= 16,
            result.len() == i,
            forall|j: int| 0 <= j < i ==> result@[j] == 0u64,
        decreases 16 - i,
    {
        result.push(0);
        i = i + 1;
    }
    proof {
        assert(result@ =~= spec_map_registers(mapping@, regs@.subrange(0, 0)));
    }
    let mut k: usize = 0;
    while k < regs.len()
        invariant
            mapping.len() == 16,
            k <= regs.len(),
            result.len() == 16,
            result@ == spec_map_registers(mapping@, regs@.subrange(0, k as int)),
        decreases regs.len() - k,
    {
        let (number, value) = regs[k];
        if (number as usize) < mapping.len() {
            let idx = mapping[number as usize].as_usize();
            result.set(idx, value);
        }
        proof {
            assert(regs@.subrange(0, k as int + 1).drop_last() =~= regs@.subrange(0, k as int));
            assert(regs@.subrange(0, k as int + 1).last() == regs@[k as int]);
        }
        k = k + 1;
    }
    proof {
        assert(regs@.subrange(0, regs@.len() as int) =~= regs@);
    }
    result
}

} // verus!
