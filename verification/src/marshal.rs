//! Marshaling of untrusted host-supplied arguments.
//!
//! The host hands the gateway C-style byte strings; the embedding runtime
//! copies each one out of host memory and passes it here as an owned byte
//! vector (`None` standing for a null pointer). This module is the boundary
//! that decides what such bytes may become: only valid UTF-8 byte strings
//! propagate further as paths or arguments, and a malformed entry anywhere in
//! an argument vector fails the whole call. Failure here is side-effect-free:
//! no gateway state is touched.

use vstd::prelude::*;
use vstd::utf8::valid_utf8;

use crate::errno::Errno;
use crate::path_policy::{file_name, spec_file_name};

verus! {

/// Relies on `core::str::from_utf8`: it returns `Ok` exactly when the bytes
/// are a valid UTF-8 sequence, which vstd's `valid_utf8` states.
#[verifier::external_body]
pub(crate) fn utf8_ok(bytes: &Vec<u8>) -> (r: bool)
    ensures
        r == valid_utf8(bytes@),
{
    core::str::from_utf8(bytes.as_slice()).is_ok()
}

/// Whether every entry of an argument vector is a valid UTF-8 byte string.
pub open spec fn all_valid_utf8(argv: Seq<Seq<u8>>) -> bool {
    forall|i: int| 0 <= i < argv.len() ==> valid_utf8(#[trigger] argv[i])
}

/// Marshal the program path: a null pointer (`None`) or a non-text byte
/// string is rejected with `EINVAL`; otherwise the owned bytes pass through
/// unchanged.
pub fn marshal_path(path: Option<Vec<u8>>) -> (r: Result<Vec<u8>, Errno>)
    ensures
        r is Ok <==> (path matches Some(p) && valid_utf8(p@)),
        r matches Ok(p) ==> p@ == path->Some_0@,
        r matches Err(e) ==> e == Errno::EINVAL,
{
    match path {
        None => Err(Errno::EINVAL),
        Some(p) => {
            if utf8_ok(&p) {
                Ok(p)
            } else {
                Err(Errno::EINVAL)
            }
        },
    }
}

/// Marshal an argument vector: every entry must be a valid UTF-8 byte string,
/// or the whole vector is rejected with `EINVAL` (no partial result is kept).
pub fn marshal_argv(argv: Vec<Vec<u8>>) -> (r: Result<Vec<Vec<u8>>, Errno>)
    ensures
        r is Ok <==> all_valid_utf8(argv.deep_view()),
        r matches Ok(a) ==> a == argv,
        r matches Err(e) ==> e == Errno::EINVAL,
{
    let n = argv.len();
    let mut i: usize = 0;
    while i < n
        invariant
            n == argv.len(),
            i <= n,
            forall|j: int| 0 <= j < i ==> valid_utf8(#[trigger] argv.deep_view()[j]),
        decreases n - i,
    {
        proof {
            assert(argv.deep_view()[i as int] =~= argv@[i as int]@);
        }
        if !utf8_ok(&argv[i]) {
            return Err(Errno::EINVAL);
        }
        i += 1;
    }
    Ok(argv)
}

/// Host stdio file-descriptor bindings for a new process: an owned, validated
/// copy of the fixed-layout struct the host passes, never aliased to host
/// memory afterward.
#[derive(Clone, Copy, Debug, PartialEq, Eq, Structural)]
pub struct HostStdioFds {
    pub stdin_fd: i32,
    pub stdout_fd: i32,
    pub stderr_fd: i32,
}

impl HostStdioFds {
    /// A well-formed binding names only real (non-negative) host descriptors.
    pub open spec fn well_formed(self) -> bool {
        self.stdin_fd >= 0 && self.stdout_fd >= 0 && self.stderr_fd >= 0
    }

    /// What validating the raw struct contents yields: a null struct pointer
    /// (`None`) or a negative descriptor is rejected with `EINVAL`.
    pub open spec fn spec_from_host(raw: Option<(i32, i32, i32)>) -> Result<HostStdioFds, Errno> {
        match raw {
            None => Err(Errno::EINVAL),
            Some((stdin_fd, stdout_fd, stderr_fd)) => if stdin_fd >= 0 && stdout_fd >= 0
                && stderr_fd >= 0 {
                Ok(HostStdioFds { stdin_fd, stdout_fd, stderr_fd })
            } else {
                Err(Errno::EINVAL)
            },
        }
    }

    /// Build the bindings from the raw struct contents read out of host
    /// memory, `None` standing for a null struct pointer. A null or malformed
    /// struct (a negative descriptor) is rejected with `EINVAL`.
    pub fn from_host(raw: Option<(i32, i32, i32)>) -> (r: Result<HostStdioFds, Errno>)
        ensures
            r == Self::spec_from_host(raw),
            r matches Ok(fds) ==> fds.well_formed(),
    {
        match raw {
            None => Err(Errno::EINVAL),
            Some((stdin_fd, stdout_fd, stderr_fd)) => {
                if stdin_fd >= 0 && stdout_fd >= 0 && stderr_fd >= 0 {
                    Ok(HostStdioFds { stdin_fd, stdout_fd, stderr_fd })
                } else {
                    Err(Errno::EINVAL)
                }
            },
        }
    }
}

/// What marshaling the full argument set of a process-creation call yields,
/// with the fixed order of checks: the program path (null pointer, non-text
/// bytes, or no file name are `EINVAL`), then the argument vector, then the
/// stdio struct. On success the argument list is the program's file name
/// followed by the host's arguments, unchanged and in order.
pub open spec fn spec_parse_arguments(
    path: Option<Seq<u8>>,
    argv: Seq<Seq<u8>>,
    host_stdio_fds: Option<(i32, i32, i32)>,
) -> Result<(Seq<u8>, Seq<Seq<u8>>, HostStdioFds), Errno> {
    if path is None {
        Err(Errno::EINVAL)
    } else if !valid_utf8(path->Some_0) {
        Err(Errno::EINVAL)
    } else if spec_file_name(path->Some_0) is None {
        Err(Errno::EINVAL)
    } else if !all_valid_utf8(argv) {
        Err(Errno::EINVAL)
    } else {
        match HostStdioFds::spec_from_host(host_stdio_fds) {
            Err(e) => Err(e),
            Ok(fds) => Ok(
                (path->Some_0, seq![spec_file_name(path->Some_0)->Some_0] + argv, fds),
            ),
        }
    }
}

/// Marshal everything a process-creation call carries: the program path, the
/// argument vector, and the stdio bindings. A malformed item anywhere fails
/// the whole call with its errno; nothing partial is kept, and no gateway
/// state is touched.
pub fn parse_arguments(
    path: Option<Vec<u8>>,
    argv: Vec<Vec<u8>>,
    host_stdio_fds: Option<(i32, i32, i32)>,
) -> (r: Result<(Vec<u8>, Vec<Vec<u8>>, HostStdioFds), Errno>)
    ensures
        ({
            let sr = spec_parse_arguments(path.deep_view(), argv.deep_view(), host_stdio_fds);
            &&& (r is Ok <==> sr is Ok)
            &&& (r matches Ok(t) ==> sr matches Ok(st) && t.0@ == st.0 && t.1.deep_view() == st.1
                && t.2 == st.2)
            &&& (r matches Err(e) ==> sr matches Err(se) && e == se)
        }),
{
    let ghost path_dv = path.deep_view();
    let ghost argv_dv = argv.deep_view();
    proof {
        if path is Some {
            assert(path_dv->Some_0 =~= path->Some_0@);
        }
    }
    let path_bytes = match marshal_path(path) {
        Ok(p) => p,
        Err(e) => {
            return Err(e);
        },
    };
    let fname = match file_name(&path_bytes) {
        Some(f) => f,
        None => {
            return Err(Errno::EINVAL);
        },
    };
    proof {
        assert(fname@ == spec_file_name(path_bytes@)->Some_0);
    }
    let mut args = match marshal_argv(argv) {
        Ok(a) => a,
        Err(e) => {
            return Err(e);
        },
    };
    let fds = match HostStdioFds::from_host(host_stdio_fds) {
        Ok(f) => f,
        Err(e) => {
            return Err(e);
        },
    };
    args.insert(0, fname);
    proof {
        assert(args.deep_view() =~~= seq![spec_file_name(path_dv->Some_0)->Some_0] + argv_dv);
    }
    Ok((path_bytes, args, fds))
}

/// Law: for a well-formed host argument vector of N strings, the constructed
/// argument list has length N + 1, its first element is the program's file
/// name, and its remaining elements are the host's strings in order.
pub proof fn lemma_argv_round_trip(
    path: Seq<u8>,
    argv: Seq<Seq<u8>>,
    host_stdio_fds: Option<(i32, i32, i32)>,
)
    requires
        spec_parse_arguments(Some(path), argv, host_stdio_fds) is Ok,
    ensures
        ({
            let built = spec_parse_arguments(Some(path), argv, host_stdio_fds)->Ok_0.1;
            &&& built.len() == argv.len() + 1
            &&& built[0] == spec_file_name(path)->Some_0
            &&& forall|i: int| 0 <= i < argv.len() ==> built[i + 1] == argv[i]
        }),
{
}

} // verus!
