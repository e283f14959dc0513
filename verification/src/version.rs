//! Decoding of the firmware version reported by a matrix.

use vstd::prelude::*;

verus! {

/// A firmware version, as unpacked from the three raw bytes the device
/// returns: major version, then minor and patch packed into one byte
/// (minor in the high nibble, patch in the low nibble), then a byte that is
/// non-zero for pre-release builds.
#[derive(Debug, Clone, Copy, PartialEq, Eq, Structural)]
pub struct Version {
    pub major: u8,
    pub minor: u8,
    pub patch: u8,
    pub pre_release: bool,
}

impl Version {
    /// Unpacks a three-byte firmware version response.
    pub fn from_bytes(a: [u8; 3]) -> (v: Version)
        ensures
            v.major == a@[0],
            v.minor == (a@[1] & 0xF0) >> 4,
            v.patch == a@[1] & 0x0F,
            v.pre_release == (a@[2] != 0),
    {
        Version {
            major: a[0],
            minor: (a[1] & 0xF0) >> 4,
            patch: a[1] & 0x0F,
            pre_release: a[2] != 0,
        }
    }

    /// Unpacks a firmware version response carried in a vector, which must
    /// hold exactly three bytes to be accepted.
    pub fn try_from_bytes(v: &Vec<u8>) -> (r: Option<Version>)
        ensures
            r is Some <==> v@.len() == 3,
            v@.len() == 3 ==> (r matches Some(ver)
                && ver.major == v@[0]
                && ver.minor == (v@[1] & 0xF0) >> 4
                && ver.patch == v@[1] & 0x0F
                && ver.pre_release == (v@[2] != 0)),
    {
        if v.len() == 3 {
            let a: [u8; 3] = [v[0], v[1], v[2]];
            Some(Version::from_bytes(a))
        } else {
            None
        }
    }
}

} // verus!
