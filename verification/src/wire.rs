//! The line-oriented wire messages exchanged with the backend server.
//!
//! Each message travels as one UTF-8 line `<tag> <value>`: a single-character
//! tag, one space, and a JSON payload value. Outbound messages (`Ms`) go to
//! the server; inbound messages (`Mr`) come back from it. Serialization is
//! deterministic and parsing recognizes exactly the serialized forms:
//! `parse` of `to_string` of any message yields the message back, which both
//! serializers state in their contracts.
use vstd::prelude::*;
use vstd::string::*;

use crate::json::dec_int;
use crate::json::json_encode_i32;
use crate::json::json_encode_i32_vec;
use crate::json::json_encode_string;
use crate::json::json_encode_u32_vec;
use crate::json::json_i32_arr;
use crate::json::json_i32_arr_dec;
use crate::json::json_i32_dec;
use crate::json::json_parse_i32;
use crate::json::json_parse_i32_vec;
use crate::json::json_parse_string;
use crate::json::json_parse_u32_vec;
use crate::json::json_string_dec;
use crate::json::json_string_enc;
use crate::json::json_u32_arr;
use crate::json::json_u32_arr_dec;
use crate::json::lemma_dec_int_no_newline;
use crate::json::lemma_json_i32_arr_no_newline;
use crate::json::lemma_json_u32_arr_no_newline;
use crate::keys::IBusModifierState;
use crate::keys::spec_is_keydown;

verus! {

/// Message `S`: engine lifecycle transition, named by a string.
#[derive(Debug, Clone, PartialEq)]
pub struct MsS(pub String);

/// Message `K`: a raw key event.
///
/// Payload: `[keyval, keycode, state, keydown]` (see [`MsK::new`]).
#[derive(Debug, Clone, PartialEq)]
pub struct MsK(pub Vec<u32>);

/// Message `C`: the cursor rectangle.
///
/// Payload: `[x, y, w, h]`.
#[derive(Debug, Clone, PartialEq)]
pub struct MsC(pub Vec<i32>);

/// Message `T`: the current composition buffer.
#[derive(Debug, Clone, PartialEq)]
pub struct MsT(pub String);

/// Outbound message: this side -> backend server.
#[derive(Debug, Clone, PartialEq)]
pub enum Ms {
    /// `S`: lifecycle transition.
    S(MsS),
    /// `K`: key event.
    K(MsK),
    /// `C`: cursor rectangle.
    C(MsC),
    /// `T`: composition buffer snapshot.
    T(MsT),
}

/// The mathematical value of an outbound message.
pub enum MsV {
    S(Seq<char>),
    K(Seq<u32>),
    C(Seq<i32>),
    T(Seq<char>),
}

impl View for Ms {
    type V = MsV;

    open spec fn view(&self) -> MsV {
        match self {
            Ms::S(m) => MsV::S(m.0@),
            Ms::K(m) => MsV::K(m.0@),
            Ms::C(m) => MsV::C(m.0@),
            Ms::T(m) => MsV::T(m.0@),
        }
    }
}

/// The wire line of an outbound message.
pub open spec fn ms_line(m: MsV) -> Seq<char> {
    match m {
        MsV::S(s) => seq!['S', ' '] + json_string_enc(s),
        MsV::K(v) => seq!['K', ' '] + json_u32_arr(v),
        MsV::C(v) => seq!['C', ' '] + json_i32_arr(v),
        MsV::T(s) => seq!['T', ' '] + json_string_enc(s),
    }
}

/// What parsing recognizes in an outbound wire line: a known tag, one space,
/// and a payload the JSON decoder accepts.
pub open spec fn ms_parse_spec(s: Seq<char>) -> Option<MsV> {
    if s.len() >= 2 && s[1] == ' ' && s[0] == 'S' {
        match json_string_dec(s.skip(2)) {
            Some(t) => Some(MsV::S(t)),
            None => None,
        }
    } else if s.len() >= 2 && s[1] == ' ' && s[0] == 'K' {
        match json_u32_arr_dec(s.skip(2)) {
            Some(v) => Some(MsV::K(v)),
            None => None,
        }
    } else if s.len() >= 2 && s[1] == ' ' && s[0] == 'C' {
        match json_i32_arr_dec(s.skip(2)) {
            Some(v) => Some(MsV::C(v)),
            None => None,
        }
    } else if s.len() >= 2 && s[1] == ' ' && s[0] == 'T' {
        match json_string_dec(s.skip(2)) {
            Some(t) => Some(MsV::T(t)),
            None => None,
        }
    } else {
        None
    }
}

impl MsK {
    /// Builds the key-event payload `[keyval, keycode, state, keydown]`,
    /// where `keydown` is 1 exactly when the modifier mask describes a key
    /// press.
    pub fn new(keyval: u32, keycode: u32, state: u32) -> (r: Self)
        ensures
            r.0@ == seq![
                keyval,
                keycode,
                state,
                if spec_is_keydown(state) {
                    1u32
                } else {
                    0u32
                },
            ],
    {
        let kd: u32 = if IBusModifierState::new_with_raw_value(state).is_keydown() {
            1
        } else {
            0
        };
        let r = MsK(vec![keyval, keycode, state, kd]);
        proof {
            assert(r.0@ =~= seq![
                keyval,
                keycode,
                state,
                if spec_is_keydown(state) {
                    1u32
                } else {
                    0u32
                },
            ]);
        }
        r
    }
}

impl MsC {
    /// Builds the cursor-rectangle payload `[x, y, w, h]`.
    pub fn new(x: i32, y: i32, w: i32, h: i32) -> (r: Self)
        ensures
            r.0@ == seq![x, y, w, h],
    {
        let r = MsC(vec![x, y, w, h]);
        proof {
            assert(r.0@ =~= seq![x, y, w, h]);
        }
        r
    }
}

impl Ms {
    /// Serializes the message as its wire line `<tag> <value>`.
    ///
    /// The second clause is the round-trip law: parsing the produced line
    /// yields this message back. The last clause is the framing law: the
    /// line holds no newline, so it can travel as one line of the stream.
    pub fn to_string(&self) -> (r: String)
        ensures
            r@ == ms_line(self@),
            ms_parse_spec(r@) == Some(self@),
            forall|i: int| 0 <= i < r@.len() ==> r@[i] != '\n',
    {
        proof {
            reveal_strlit("S ");
            reveal_strlit("K ");
            reveal_strlit("C ");
            reveal_strlit("T ");
        }
        match self {
            Ms::S(m) => {
                let mut r = String::from_str("S ");
                let v = json_encode_string(&m.0);
                r.append(v.as_str());
                proof {
                    assert(r@ =~= seq!['S', ' '] + json_string_enc(m.0@));
                    assert(r@.skip(2) =~= json_string_enc(m.0@));
                }
                r
            },
            Ms::K(m) => {
                let mut r = String::from_str("K ");
                let v = json_encode_u32_vec(&m.0);
                r.append(v.as_str());
                proof {
                    assert(r@ =~= seq!['K', ' '] + json_u32_arr(m.0@));
                    assert(r@.skip(2) =~= json_u32_arr(m.0@));
                    lemma_json_u32_arr_no_newline(m.0@);
                }
                r
            },
            Ms::C(m) => {
                let mut r = String::from_str("C ");
                let v = json_encode_i32_vec(&m.0);
                r.append(v.as_str());
                proof {
                    assert(r@ =~= seq!['C', ' '] + json_i32_arr(m.0@));
                    assert(r@.skip(2) =~= json_i32_arr(m.0@));
                    lemma_json_i32_arr_no_newline(m.0@);
                }
                r
            },
            Ms::T(m) => {
                let mut r = String::from_str("T ");
                let v = json_encode_string(&m.0);
                r.append(v.as_str());
                proof {
                    assert(r@ =~= seq!['T', ' '] + json_string_enc(m.0@));
                    assert(r@.skip(2) =~= json_string_enc(m.0@));
                }
                r
            },
        }
    }

    /// Parses one outbound wire line; `None` when the line is unparseable.
    pub fn parse(s: &str) -> (r: Option<Ms>)
        ensures
            r matches Some(m) ==> ms_parse_spec(s@) == Some(m@),
            r is None <==> ms_parse_spec(s@) is None,
    {
        let n = s.unicode_len();
        if n < 2 {
            return None;
        }
        if s.get_char(1) != ' ' {
            return None;
        }
        let tag = s.get_char(0);
        let rest = s.substring_char(2, n);
        proof {
            assert(rest@ =~= s@.skip(2));
        }
        if tag == 'S' {
            match json_parse_string(rest) {
                Some(t) => Some(Ms::S(MsS(t))),
                None => None,
            }
        } else if tag == 'K' {
            match json_parse_u32_vec(rest) {
                Some(v) => Some(Ms::K(MsK(v))),
                None => None,
            }
        } else if tag == 'C' {
            match json_parse_i32_vec(rest) {
                Some(v) => Some(Ms::C(MsC(v))),
                None => None,
            }
        } else if tag == 'T' {
            match json_parse_string(rest) {
                Some(t) => Some(Ms::T(MsT(t))),
                None => None,
            }
        } else {
            None
        }
    }
}

/// Inbound message `t`: text the user's application should receive
/// (CommitText).
#[derive(Debug, Clone, PartialEq)]
pub struct MrT(pub String);

/// Inbound message `f`: a feedback code for the key state machine.
#[derive(Debug, Clone, PartialEq)]
pub struct MrF(pub i32);

/// Inbound message: backend server -> this side.
#[derive(Debug, Clone, PartialEq)]
pub enum Mr {
    /// `t`: commit text.
    T(MrT),
    /// `f`: feedback code.
    F(MrF),
}

/// The mathematical value of an inbound message.
pub enum MrV {
    T(Seq<char>),
    F(i32),
}

impl View for Mr {
    type V = MrV;

    open spec fn view(&self) -> MrV {
        match self {
            Mr::T(m) => MrV::T(m.0@),
            Mr::F(m) => MrV::F(m.0),
        }
    }
}

/// The wire line of an inbound message.
pub open spec fn mr_line(m: MrV) -> Seq<char> {
    match m {
        MrV::T(s) => seq!['t', ' '] + json_string_enc(s),
        MrV::F(i) => seq!['f', ' '] + dec_int(i as int),
    }
}

/// What parsing recognizes in an inbound wire line.
pub open spec fn mr_parse_spec(s: Seq<char>) -> Option<MrV> {
    if s.len() >= 2 && s[1] == ' ' && s[0] == 't' {
        match json_string_dec(s.skip(2)) {
            Some(t) => Some(MrV::T(t)),
            None => None,
        }
    } else if s.len() >= 2 && s[1] == ' ' && s[0] == 'f' {
        match json_i32_dec(s.skip(2)) {
            Some(i) => Some(MrV::F(i)),
            None => None,
        }
    } else {
        None
    }
}

impl MrT {
    /// Reads the payload of a `t` line; `None` when it is not a JSON string.
    pub fn from(s: &str) -> (r: Option<Self>)
        ensures
            r matches Some(m) ==> json_string_dec(s@) == Some(m.0@),
            r is None <==> json_string_dec(s@) is None,
    {
        match json_parse_string(s) {
            Some(t) => Some(MrT(t)),
            None => None,
        }
    }
}

impl MrF {
    /// Reads the payload of an `f` line; `None` when it is not a JSON `i32`.
    pub fn from(s: &str) -> (r: Option<Self>)
        ensures
            r matches Some(m) ==> json_i32_dec(s@) == Some(m.0),
            r is None <==> json_i32_dec(s@) is None,
    {
        match json_parse_i32(s) {
            Some(i) => Some(MrF(i)),
            None => None,
        }
    }
}

impl Mr {
    /// Parses one inbound wire line; `None` when the line is unparseable.
    ///
    /// Unparseable lines are discarded by the caller; parsing itself never
    /// fails in any other way.
    pub fn from(s: String) -> (r: Option<Mr>)
        ensures
            r matches Some(m) ==> mr_parse_spec(s@) == Some(m@),
            r is None <==> mr_parse_spec(s@) is None,
    {
        Mr::parse(s.as_str())
    }

    /// Parses one inbound wire line given as a slice.
    pub fn parse(s: &str) -> (r: Option<Mr>)
        ensures
            r matches Some(m) ==> mr_parse_spec(s@) == Some(m@),
            r is None <==> mr_parse_spec(s@) is None,
    {
        let n = s.unicode_len();
        if n < 2 {
            return None;
        }
        if s.get_char(1) != ' ' {
            return None;
        }
        let tag = s.get_char(0);
        let rest = s.substring_char(2, n);
        proof {
            assert(rest@ =~= s@.skip(2));
        }
        if tag == 't' {
            match MrT::from(rest) {
                Some(m) => Some(Mr::T(m)),
                None => None,
            }
        } else if tag == 'f' {
            match MrF::from(rest) {
                Some(m) => Some(Mr::F(m)),
                None => None,
            }
        } else {
            None
        }
    }

    /// Serializes the message as its wire line `<tag> <value>`.
    ///
    /// The second clause is the round-trip law: parsing the produced line
    /// yields this message back. The last clause is the framing law: the
    /// line holds no newline, so it can travel as one line of the stream.
    pub fn to_string(&self) -> (r: String)
        ensures
            r@ == mr_line(self@),
            mr_parse_spec(r@) == Some(self@),
            forall|i: int| 0 <= i < r@.len() ==> r@[i] != '\n',
    {
        proof {
            reveal_strlit("t ");
            reveal_strlit("f ");
        }
        match self {
            Mr::T(m) => {
                let mut r = String::from_str("t ");
                let v = json_encode_string(&m.0);
                r.append(v.as_str());
                proof {
                    assert(r@ =~= seq!['t', ' '] + json_string_enc(m.0@));
                    assert(r@.skip(2) =~= json_string_enc(m.0@));
                }
                r
            },
            Mr::F(m) => {
                let mut r = String::from_str("f ");
                let v = json_encode_i32(m.0);
                r.append(v.as_str());
                proof {
                    assert(r@ =~= seq!['f', ' '] + dec_int(m.0 as int));
                    assert(r@.skip(2) =~= dec_int(m.0 as int));
                    lemma_dec_int_no_newline(m.0 as int);
                }
                r
            },
        }
    }
}

} // verus!
