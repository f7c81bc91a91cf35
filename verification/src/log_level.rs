//! Log verbosity requested by the host, and the platform gate on it.
//!
//! The host may pass a verbosity string with the initialization call. The
//! recognized strings (compared without regard to ASCII case) are `off`,
//! `panic`, `fatal`, `error`, `warning`, `warn`, `info`, `debug` and `trace`;
//! `panic`, `fatal` and `warning` are the aliases the Open Container
//! Initiative defines. Anything else — and a null pointer — maps to `Off`
//! rather than to an error. Whatever the host asked for, a production enclave
//! (one whose platform forbids debugging) logs nothing: the effective level
//! falls back to `Off` so no trace or debug output can leak.

use vstd::prelude::*;
use vstd::utf8::valid_utf8;

use crate::errno::Errno;
use crate::marshal::utf8_ok;

verus! {

/// A log verbosity level, ordered from silent to most verbose.
#[derive(Clone, Copy, Debug, PartialEq, Eq, Structural)]
pub enum LevelFilter {
    Off,
    Error,
    Warn,
    Info,
    Debug,
    Trace,
}

/// ASCII lowercasing of one byte.
pub open spec fn lower_byte(b: u8) -> u8 {
    if 'A' as u8 <= b && b <= 'Z' as u8 {
        (b + 32) as u8
    } else {
        b
    }
}

/// ASCII lowercasing of a byte string.
pub open spec fn lower_bytes(s: Seq<u8>) -> Seq<u8> {
    s.map_values(|b: u8| lower_byte(b))
}

/// Whether a (lowercased) byte string is one of the recognized level names.
pub open spec fn is_recognized_level(t: Seq<u8>) -> bool {
    ||| t == seq!['o' as u8, 'f' as u8, 'f' as u8]
    ||| t == seq!['p' as u8, 'a' as u8, 'n' as u8, 'i' as u8, 'c' as u8]
    ||| t == seq!['f' as u8, 'a' as u8, 't' as u8, 'a' as u8, 'l' as u8]
    ||| t == seq!['e' as u8, 'r' as u8, 'r' as u8, 'o' as u8, 'r' as u8]
    ||| t == seq!['w' as u8, 'a' as u8, 'r' as u8, 'n' as u8, 'i' as u8, 'n' as u8, 'g' as u8]
    ||| t == seq!['w' as u8, 'a' as u8, 'r' as u8, 'n' as u8]
    ||| t == seq!['i' as u8, 'n' as u8, 'f' as u8, 'o' as u8]
    ||| t == seq!['d' as u8, 'e' as u8, 'b' as u8, 'u' as u8, 'g' as u8]
    ||| t == seq!['t' as u8, 'r' as u8, 'a' as u8, 'c' as u8, 'e' as u8]
}

/// The level a byte string names, compared without regard to ASCII case;
/// an unrecognized string names `Off`.
pub open spec fn spec_level_of(s: Seq<u8>) -> LevelFilter {
    let t = lower_bytes(s);
    if t == seq!['o' as u8, 'f' as u8, 'f' as u8] {
        LevelFilter::Off
    } else if t == seq!['p' as u8, 'a' as u8, 'n' as u8, 'i' as u8, 'c' as u8] || t == seq!['f' as u8, 'a' as u8, 't' as u8, 'a' as u8, 'l' as u8]
        || t == seq!['e' as u8, 'r' as u8, 'r' as u8, 'o' as u8, 'r' as u8] {
        LevelFilter::Error
    } else if t == seq!['w' as u8, 'a' as u8, 'r' as u8, 'n' as u8, 'i' as u8, 'n' as u8, 'g' as u8] || t == seq!['w' as u8, 'a' as u8, 'r' as u8, 'n' as u8] {
        LevelFilter::Warn
    } else if t == seq!['i' as u8, 'n' as u8, 'f' as u8, 'o' as u8] {
        LevelFilter::Info
    } else if t == seq!['d' as u8, 'e' as u8, 'b' as u8, 'u' as u8, 'g' as u8] {
        LevelFilter::Debug
    } else if t == seq!['t' as u8, 'r' as u8, 'a' as u8, 'c' as u8, 'e' as u8] {
        LevelFilter::Trace
    } else {
        LevelFilter::Off
    }
}

/// What parsing the host's verbosity argument yields: `Off` for a null
/// pointer, `EINVAL` for non-text bytes, and otherwise the named level.
pub open spec fn spec_parse_log_level(level: Option<Seq<u8>>) -> Result<LevelFilter, Errno> {
    match level {
        None => Ok(LevelFilter::Off),
        Some(s) => if valid_utf8(s) {
            Ok(spec_level_of(s))
        } else {
            Err(Errno::EINVAL)
        },
    }
}

fn byte_to_lower(b: u8) -> (r: u8)
    ensures
        r == lower_byte(b),
{
    if 'A' as u8 <= b && b <= 'Z' as u8 {
        b + 32
    } else {
        b
    }
}

fn to_lower_vec(s: &Vec<u8>) -> (r: Vec<u8>)
    ensures
        r@ == lower_bytes(s@),
{
    let mut r: Vec<u8> = Vec::new();
    let mut i: usize = 0;
    while i < s.len()
        invariant
            i <= s.len(),
            r@.len() == i,
            forall|j: int| 0 <= j < i ==> r@[j] == lower_byte(s@[j]),
        decreases s.len() - i,
    {
        r.push(byte_to_lower(s[i]));
        i += 1;
    }
    proof {
        assert(r@ =~= lower_bytes(s@));
    }
    r
}

/// The level named by a byte string already known to be valid text.
fn level_of_bytes(s: &Vec<u8>) -> (r: LevelFilter)
    ensures
        r == spec_level_of(s@),
{
    let t = to_lower_vec(s);
    let n = t.len();
    if n == 3 && t[0] == 'o' as u8 && t[1] == 'f' as u8 && t[2] == 'f' as u8 {
        proof {
            assert(t@ =~= seq!['o' as u8, 'f' as u8, 'f' as u8]);
        }
        LevelFilter::Off
    } else if n == 5 && t[0] == 'p' as u8 && t[1] == 'a' as u8 && t[2] == 'n' as u8 && t[3] == 'i' as u8 && t[4]
        == 'c' as u8 {
        proof {
            assert(t@ =~= seq!['p' as u8, 'a' as u8, 'n' as u8, 'i' as u8, 'c' as u8]);
        }
        LevelFilter::Error
    } else if n == 5 && t[0] == 'f' as u8 && t[1] == 'a' as u8 && t[2] == 't' as u8 && t[3] == 'a' as u8 && t[4]
        == 'l' as u8 {
        proof {
            assert(t@ =~= seq!['f' as u8, 'a' as u8, 't' as u8, 'a' as u8, 'l' as u8]);
        }
        LevelFilter::Error
    } else if n == 5 && t[0] == 'e' as u8 && t[1] == 'r' as u8 && t[2] == 'r' as u8 && t[3] == 'o' as u8 && t[4]
        == 'r' as u8 {
        proof {
            assert(t@ =~= seq!['e' as u8, 'r' as u8, 'r' as u8, 'o' as u8, 'r' as u8]);
        }
        LevelFilter::Error
    } else if n == 7 && t[0] == 'w' as u8 && t[1] == 'a' as u8 && t[2] == 'r' as u8 && t[3] == 'n' as u8 && t[4]
        == 'i' as u8 && t[5] == 'n' as u8 && t[6] == 'g' as u8 {
        proof {
            assert(t@ =~= seq!['w' as u8, 'a' as u8, 'r' as u8, 'n' as u8, 'i' as u8, 'n' as u8, 'g' as u8]);
        }
        LevelFilter::Warn
    } else if n == 4 && t[0] == 'w' as u8 && t[1] == 'a' as u8 && t[2] == 'r' as u8 && t[3] == 'n' as u8 {
        proof {
            assert(t@ =~= seq!['w' as u8, 'a' as u8, 'r' as u8, 'n' as u8]);
        }
        LevelFilter::Warn
    } else if n == 4 && t[0] == 'i' as u8 && t[1] == 'n' as u8 && t[2] == 'f' as u8 && t[3] == 'o' as u8 {
        proof {
            assert(t@ =~= seq!['i' as u8, 'n' as u8, 'f' as u8, 'o' as u8]);
        }
        LevelFilter::Info
    } else if n == 5 && t[0] == 'd' as u8 && t[1] == 'e' as u8 && t[2] == 'b' as u8 && t[3] == 'u' as u8 && t[4]
        == 'g' as u8 {
        proof {
            assert(t@ =~= seq!['d' as u8, 'e' as u8, 'b' as u8, 'u' as u8, 'g' as u8]);
        }
        LevelFilter::Debug
    } else if n == 5 && t[0] == 't' as u8 && t[1] == 'r' as u8 && t[2] == 'a' as u8 && t[3] == 'c' as u8 && t[4]
        == 'e' as u8 {
        proof {
            assert(t@ =~= seq!['t' as u8, 'r' as u8, 'a' as u8, 'c' as u8, 'e' as u8]);
        }
        LevelFilter::Trace
    } else {
        LevelFilter::Off
    }
}

/// Parse the host's verbosity argument (`None` standing for a null pointer).
///
/// A null pointer names the default, `Off`. Non-text bytes are rejected with
/// `EINVAL` at the marshaling boundary. Any well-formed string names a level:
/// an unrecognized one names `Off`, never an error.
pub fn parse_log_level(level: Option<Vec<u8>>) -> (r: Result<LevelFilter, Errno>)
    ensures
        r == spec_parse_log_level(level.deep_view()),
{
    match level {
        None => Ok(LevelFilter::Off),
        Some(s) => {
            proof {
                assert(s.deep_view() =~= s@);
            }
            if utf8_ok(&s) {
                Ok(level_of_bytes(&s))
            } else {
                Err(Errno::EINVAL)
            }
        },
    }
}

/// The verbosity actually put into effect: the requested level where the
/// platform permits a debug enclave, and `Off` otherwise.
pub open spec fn spec_effective_level(requested: LevelFilter, debug_allowed: bool) -> LevelFilter {
    if debug_allowed {
        requested
    } else {
        LevelFilter::Off
    }
}

pub fn effective_level(requested: LevelFilter, debug_allowed: bool) -> (r: LevelFilter)
    ensures
        r == spec_effective_level(requested, debug_allowed),
{
    if debug_allowed {
        requested
    } else {
        LevelFilter::Off
    }
}

/// Law: when the platform forbids debug enclaves, every requested verbosity
/// collapses to `Off` — no level string the host passes can make a production
/// enclave emit logs.
pub proof fn lemma_no_debug_means_off(requested: LevelFilter)
    ensures
        spec_effective_level(requested, false) == LevelFilter::Off,
{
}

/// Law: a well-formed level string that names none of the recognized levels
/// parses to `Off`, not to an error.
pub proof fn lemma_unknown_level_is_off(s: Seq<u8>)
    requires
        valid_utf8(s),
        !is_recognized_level(lower_bytes(s)),
    ensures
        spec_parse_log_level(Some(s)) == Ok::<LevelFilter, Errno>(LevelFilter::Off),
{
}

} // verus!
