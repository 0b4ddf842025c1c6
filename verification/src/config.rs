//! Loading of one fixture's descriptor: the driving-side configuration,
//! with an optional free-form notes field that has no behavioral effect.
//!
//! The descriptor is a small structured text object. Its grammar is stated
//! by the `spec` functions below: optional blank space around each token, an
//! object in braces holding a required `driving_side` member whose value is
//! `Right` or `Left`, and optionally a `notes` member holding any quoted
//! string, in either order.

use vstd::prelude::*;

verus! {

/// Which side of the road traffic drives on, as configured per fixture.
#[derive(Clone, Copy, PartialEq, Eq, Structural, Debug)]
pub enum DrivingSide {
    Right,
    Left,
}

/// A descriptor that could not be loaded; the pipeline is never invoked for
/// such a fixture.
#[derive(Clone, Copy, PartialEq, Eq, Structural, Debug)]
pub enum ConfigurationError {
    /// The fixture directory has no descriptor file.
    Missing,
    /// The descriptor file does not match the descriptor grammar.
    Malformed,
}

/// One regression scenario: where its files live and how to configure the
/// import. The descriptor may also carry a free-form notes member; it is
/// informational only and is not retained.
#[derive(Clone, PartialEq, Eq, Debug)]
pub struct FixtureCase {
    pub path: String,
    pub driving_side: DrivingSide,
}

/// Blank space between descriptor tokens: space, tab, line feed, carriage
/// return.
pub open spec fn is_ws(b: u8) -> bool {
    b == 32 || b == 9 || b == 10 || b == 13
}

/// The first index at or after `i` holding no blank space.
pub open spec fn skip_ws(s: Seq<u8>, i: int) -> int
    decreases s.len() - i,
{
    if 0 <= i && i < s.len() && is_ws(s[i]) {
        skip_ws(s, i + 1)
    } else {
        i
    }
}

/// The quoted key naming the driving-side member.
pub open spec fn lit_driving_side() -> Seq<u8> {
    seq![34u8, 100u8, 114u8, 105u8, 118u8, 105u8, 110u8, 103u8, 95u8, 115u8, 105u8, 100u8, 101u8, 34u8]
}

/// The quoted key naming the notes member.
pub open spec fn lit_notes() -> Seq<u8> {
    seq![34u8, 110u8, 111u8, 116u8, 101u8, 115u8, 34u8]
}

/// The quoted right-hand driving-side value.
pub open spec fn lit_right() -> Seq<u8> {
    seq![34u8, 82u8, 105u8, 103u8, 104u8, 116u8, 34u8]
}

/// The quoted left-hand driving-side value.
pub open spec fn lit_left() -> Seq<u8> {
    seq![34u8, 76u8, 101u8, 102u8, 116u8, 34u8]
}

/// True iff `lit` occurs in `s` starting at `i`.
pub open spec fn match_lit(s: Seq<u8>, i: int, lit: Seq<u8>) -> bool {
    0 <= i && i + lit.len() <= s.len() && s.subrange(i, i + lit.len()) == lit
}

/// Starting inside a quoted string at `i`, the index just past its closing
/// quote, or nothing when the string never closes. A backslash escapes the
/// byte after it.
pub open spec fn skip_string_body(s: Seq<u8>, i: int) -> Option<int>
    decreases s.len() - i,
{
    if i < 0 || i >= s.len() {
        None
    } else if s[i] == 34 {
        Some(i + 1)
    } else if s[i] == 92 {
        if i + 2 <= s.len() {
            skip_string_body(s, i + 2)
        } else {
            None
        }
    } else {
        skip_string_body(s, i + 1)
    }
}

/// One parsed member of the descriptor object.
#[derive(Clone, Copy, PartialEq, Eq, Structural, Debug)]
pub enum PairKind {
    Ds(DrivingSide),
    Notes,
}

/// Parses one `key: value` member starting at `i`, yielding its kind and the
/// index just past its value.
pub open spec fn parse_pair(s: Seq<u8>, i: int) -> Option<(PairKind, int)> {
    if match_lit(s, i, lit_driving_side()) {
        let j = skip_ws(s, i + lit_driving_side().len());
        if j < s.len() && s[j] == 58 {
            let k = skip_ws(s, j + 1);
            if match_lit(s, k, lit_right()) {
                Some((PairKind::Ds(DrivingSide::Right), k + lit_right().len()))
            } else if match_lit(s, k, lit_left()) {
                Some((PairKind::Ds(DrivingSide::Left), k + lit_left().len()))
            } else {
                None
            }
        } else {
            None
        }
    } else if match_lit(s, i, lit_notes()) {
        let j = skip_ws(s, i + lit_notes().len());
        if j < s.len() && s[j] == 58 {
            let k = skip_ws(s, j + 1);
            if k < s.len() && s[k] == 34 {
                match skip_string_body(s, k + 1) {
                    Some(e) => Some((PairKind::Notes, e)),
                    None => None,
                }
            } else {
                None
            }
        } else {
            None
        }
    } else {
        None
    }
}

/// The driving side configured by two members: exactly one must be the
/// driving-side member, the other the notes member.
pub open spec fn pair_sides(k1: PairKind, k2: PairKind) -> Option<DrivingSide> {
    match (k1, k2) {
        (PairKind::Ds(ds), PairKind::Notes) => Some(ds),
        (PairKind::Notes, PairKind::Ds(ds)) => Some(ds),
        _ => None,
    }
}

/// The driving side configured by a whole descriptor, or nothing when the
/// text does not match the descriptor grammar.
pub open spec fn spec_parse_descriptor(s: Seq<u8>) -> Option<DrivingSide> {
    let i0 = skip_ws(s, 0);
    if i0 < s.len() && s[i0] == 123 {
        let i1 = skip_ws(s, i0 + 1);
        match parse_pair(s, i1) {
            None => None,
            Some((k1, j1)) => {
                let j2 = skip_ws(s, j1);
                if j2 < s.len() && s[j2] == 44 {
                    let j3 = skip_ws(s, j2 + 1);
                    match parse_pair(s, j3) {
                        None => None,
                        Some((k2, j4)) => {
                            let j5 = skip_ws(s, j4);
                            if j5 < s.len() && s[j5] == 125 && skip_ws(s, j5 + 1) == s.len() {
                                pair_sides(k1, k2)
                            } else {
                                None
                            }
                        },
                    }
                } else if j2 < s.len() && s[j2] == 125 && skip_ws(s, j2 + 1) == s.len() {
                    match k1 {
                        PairKind::Ds(ds) => Some(ds),
                        PairKind::Notes => None,
                    }
                } else {
                    None
                }
            },
        }
    } else {
        None
    }
}

fn is_ws_byte(b: u8) -> (r: bool)
    ensures
        r == is_ws(b),
{
    b == 32 || b == 9 || b == 10 || b == 13
}

fn ws_end(s: &[u8], i: usize) -> (r: usize)
    requires
        i <= s@.len(),
    ensures
        r == skip_ws(s@, i as int),
        i <= r <= s@.len(),
{
    let mut j = i;
    while j < s.len() && is_ws_byte(s[j])
        invariant
            i <= j <= s@.len(),
            skip_ws(s@, i as int) == skip_ws(s@, j as int),
        decreases s@.len() - j,
    {
        j = j + 1;
    }
    j
}

fn match_lit_at(s: &[u8], i: usize, lit: &[u8]) -> (r: bool)
    requires
        i <= s@.len(),
    ensures
        r == match_lit(s@, i as int, lit@),
{
    if s.len() - i < lit.len() {
        return false;
    }
    let mut j: usize = 0;
    while j < lit.len()
        invariant
            0 <= j <= lit@.len(),
            i + lit@.len() <= s@.len(),
            s@.len() <= usize::MAX,
            forall|k: int| 0 <= k < j ==> s@[i + k] == lit@[k],
        decreases lit@.len() - j,
    {
        if s[i + j] != lit[j] {
            proof {
                assert(s@.subrange(i as int, i + lit@.len())[j as int] == s@[i + j]);
            }
            return false;
        }
        j = j + 1;
    }
    proof {
        assert(s@.subrange(i as int, i + lit@.len()) =~= lit@);
    }
    true
}

fn lit_driving_side_bytes() -> (v: Vec<u8>)
    ensures
        v@ == lit_driving_side(),
{
    let mut v: Vec<u8> = Vec::new();
    v.push(34);
    v.push(100);
    v.push(114);
    v.push(105);
    v.push(118);
    v.push(105);
    v.push(110);
    v.push(103);
    v.push(95);
    v.push(115);
    v.push(105);
    v.push(100);
    v.push(101);
    v.push(34);
    proof {
        assert(v@ =~= lit_driving_side());
    }
    v
}

fn lit_notes_bytes() -> (v: Vec<u8>)
    ensures
        v@ == lit_notes(),
{
    let mut v: Vec<u8> = Vec::new();
    v.push(34);
    v.push(110);
    v.push(111);
    v.push(116);
    v.push(101);
    v.push(115);
    v.push(34);
    proof {
        assert(v@ =~= lit_notes());
    }
    v
}

fn lit_right_bytes() -> (v: Vec<u8>)
    ensures
        v@ == lit_right(),
{
    let mut v: Vec<u8> = Vec::new();
    v.push(34);
    v.push(82);
    v.push(105);
    v.push(103);
    v.push(104);
    v.push(116);
    v.push(34);
    proof {
        assert(v@ =~= lit_right());
    }
    v
}

fn lit_left_bytes() -> (v: Vec<u8>)
    ensures
        v@ == lit_left(),
{
    let mut v: Vec<u8> = Vec::new();
    v.push(34);
    v.push(76);
    v.push(101);
    v.push(102);
    v.push(116);
    v.push(34);
    proof {
        assert(v@ =~= lit_left());
    }
    v
}

fn string_body_end(s: &[u8], i: usize) -> (r: Option<usize>)
    requires
        i <= s@.len(),
    ensures
        match r {
            Some(e) => skip_string_body(s@, i as int) == Some(e as int) && i < e <= s@.len(),
            None => skip_string_body(s@, i as int) is None,
        },
{
    let mut j = i;
    while j < s.len()
        invariant
            i <= j <= s@.len(),
            skip_string_body(s@, i as int) == skip_string_body(s@, j as int),
        decreases s@.len() - j,
    {
        if s[j] == 34 {
            return Some(j + 1);
        }
        if s[j] == 92 {
            if s.len() - j >= 2 {
                j = j + 2;
            } else {
                return None;
            }
        } else {
            j = j + 1;
        }
    }
    None
}

fn parse_pair_at(s: &[u8], i: usize) -> (r: Option<(PairKind, usize)>)
    requires
        i <= s@.len(),
    ensures
        match r {
            Some((k, e)) => parse_pair(s@, i as int) == Some((k, e as int)) && e <= s@.len(),
            None => parse_pair(s@, i as int) is None,
        },
{
    let n = s.len();
    proof {
        assert(n == s@.len());
    }
    let ds_lit = lit_driving_side_bytes();
    let notes_lit = lit_notes_bytes();
    if match_lit_at(s, i, ds_lit.as_slice()) {
        let j = ws_end(s, i + ds_lit.len());
        if j < s.len() && s[j] == 58 {
            let k = ws_end(s, j + 1);
            let right_lit = lit_right_bytes();
            let left_lit = lit_left_bytes();
            if match_lit_at(s, k, right_lit.as_slice()) {
                Some((PairKind::Ds(DrivingSide::Right), k + right_lit.len()))
            } else if match_lit_at(s, k, left_lit.as_slice()) {
                Some((PairKind::Ds(DrivingSide::Left), k + left_lit.len()))
            } else {
                None
            }
        } else {
            None
        }
    } else if match_lit_at(s, i, notes_lit.as_slice()) {
        let j = ws_end(s, i + notes_lit.len());
        if j < s.len() && s[j] == 58 {
            let k = ws_end(s, j + 1);
            if k < s.len() && s[k] == 34 {
                match string_body_end(s, k + 1) {
                    Some(e) => Some((PairKind::Notes, e)),
                    None => None,
                }
            } else {
                None
            }
        } else {
            None
        }
    } else {
        None
    }
}

/// Parses a descriptor's bytes, yielding the configured driving side, or a
/// malformed-descriptor error exactly when the text does not match the
/// descriptor grammar.
pub fn parse_descriptor(s: &[u8]) -> (r: Result<DrivingSide, ConfigurationError>)
    ensures
        match r {
            Ok(ds) => spec_parse_descriptor(s@) == Some(ds),
            Err(e) => spec_parse_descriptor(s@) is None && e == ConfigurationError::Malformed,
        },
{
    let i0 = ws_end(s, 0);
    if !(i0 < s.len() && s[i0] == 123) {
        return Err(ConfigurationError::Malformed);
    }
    let i1 = ws_end(s, i0 + 1);
    let first = parse_pair_at(s, i1);
    match first {
        None => Err(ConfigurationError::Malformed),
        Some((k1, j1)) => {
            let j2 = ws_end(s, j1);
            if j2 < s.len() && s[j2] == 44 {
                let j3 = ws_end(s, j2 + 1);
                let second = parse_pair_at(s, j3);
                match second {
                    None => Err(ConfigurationError::Malformed),
                    Some((k2, j4)) => {
                        let j5 = ws_end(s, j4);
                        if j5 < s.len() && s[j5] == 125 && ws_end(s, j5 + 1) == s.len() {
                            match (k1, k2) {
                                (PairKind::Ds(ds), PairKind::Notes) => Ok(ds),
                                (PairKind::Notes, PairKind::Ds(ds)) => Ok(ds),
                                _ => Err(ConfigurationError::Malformed),
                            }
                        } else {
                            Err(ConfigurationError::Malformed)
                        }
                    },
                }
            } else if j2 < s.len() && s[j2] == 125 && ws_end(s, j2 + 1) == s.len() {
                match k1 {
                    PairKind::Ds(ds) => Ok(ds),
                    PairKind::Notes => Err(ConfigurationError::Malformed),
                }
            } else {
                Err(ConfigurationError::Malformed)
            }
        },
    }
}

/// Loads one fixture's configuration from its descriptor file's content, or
/// reports why that fixture cannot run: a missing descriptor or one that
/// does not match the descriptor grammar.
pub fn load_config(path: String, descriptor: Option<&Vec<u8>>) -> (r: Result<
    FixtureCase,
    ConfigurationError,
>)
    ensures
        match r {
            Ok(fc) => descriptor matches Some(d) && spec_parse_descriptor(d@) == Some(
                fc.driving_side,
            ) && fc.path@ == path@,
            Err(ConfigurationError::Missing) => descriptor is None,
            Err(ConfigurationError::Malformed) => descriptor matches Some(d)
                && spec_parse_descriptor(d@) is None,
        },
{
    match descriptor {
        None => Err(ConfigurationError::Missing),
        Some(d) => match parse_descriptor(d.as_slice()) {
            Ok(ds) => Ok(FixtureCase { path, driving_side: ds }),
            Err(e) => Err(e),
        },
    }
}

} // verus!
