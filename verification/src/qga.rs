use vstd::prelude::*;

use crate::errors::ErrorKind;
use crate::errors::VmError;
use crate::text;

verus! {

/// Version triple of the guest agent.
#[derive(Default, Clone, Copy, PartialEq, Eq, Structural, Debug)]
pub struct Version {
    /// Major version.
    pub major: u8,
    /// Minor version.
    pub minor: u8,
    /// Patch version.
    pub patch: u8,
}

/// The dot-separated fields of a version string, after trimming.
pub open spec fn version_parts(s: Seq<char>) -> Seq<Seq<char>> {
    text::split_chars(text::trim_chars(s), '.')
}

/// A well-formed version string: exactly three dot-separated fields, each a
/// decimal number that fits in `u8`.
pub open spec fn version_wf(s: Seq<char>) -> bool {
    version_parts(s).len() == 3 && text::is_u8_str(version_parts(s)[0]) && text::is_u8_str(
        version_parts(s)[1],
    ) && text::is_u8_str(version_parts(s)[2])
}

/// Whether a guest agent of this version can merge stdout and stderr into
/// a single stream: true exactly for versions at least 8.1.
pub open spec fn merged_capture_spec(v: Version) -> bool {
    v.major > 8 || (v.major == 8 && v.minor >= 1)
}

impl Version {
    /// Parse a `major.minor.patch` triple, ignoring surrounding whitespace.
    pub fn new(s: &str) -> (r: Result<Version, VmError>)
        ensures
            r is Ok <==> version_wf(s@),
            r matches Ok(v) ==> {
                &&& v.major as nat == text::u8_str_val(version_parts(s@)[0])
                &&& v.minor as nat == text::u8_str_val(version_parts(s@)[1])
                &&& v.patch as nat == text::u8_str_val(version_parts(s@)[2])
            },
            r matches Err(e) ==> e.kind == ErrorKind::ParseFailed,
    {
        let trimmed = text::trim(s);
        let parts = text::split_char(trimmed.as_str(), '.');
        proof {
            assert(parts.deep_view() == version_parts(s@));
        }
        if parts.len() != 3 {
            return Err(version_error(s));
        }
        proof {
            assert(parts.deep_view()[0] == parts@[0]@);
            assert(parts.deep_view()[1] == parts@[1]@);
            assert(parts.deep_view()[2] == parts@[2]@);
        }
        let major = match text::parse_u8(parts[0].as_str()) {
            Some(v) => v,
            None => {
                return Err(version_error(s));
            },
        };
        let minor = match text::parse_u8(parts[1].as_str()) {
            Some(v) => v,
            None => {
                return Err(version_error(s));
            },
        };
        let patch = match text::parse_u8(parts[2].as_str()) {
            Some(v) => v,
            None => {
                return Err(version_error(s));
            },
        };
        Ok(Version { major, minor, patch })
    }

    /// Whether the agent can merge stdout and stderr into a single stream:
    /// available from agent version 8.1 on.
    pub fn merged_capture(&self) -> (r: bool)
        ensures
            r == merged_capture_spec(*self),
    {
        self.major > 8 || (self.major == 8 && self.minor >= 1)
    }
}

fn version_error(s: &str) -> (r: VmError)
    ensures
        r.kind == ErrorKind::ParseFailed,
{
    let msg = String::from_str("Failed to parse version string '").concat(s).concat("'");
    VmError::new(ErrorKind::ParseFailed, msg)
}

/// How long to wait for the guest agent handshake, in seconds: a short
/// deadline when hardware acceleration is available, a long one under
/// emulation.
pub fn handshake_timeout_secs(has_kvm: bool) -> (r: u64)
    ensures
        r == if has_kvm {
            30int
        } else {
            120int
        },
{
    if has_kvm {
        30
    } else {
        120
    }
}

} // verus!
