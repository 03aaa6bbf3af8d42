use vstd::prelude::*;
use vstd::string::StringSliceAdditionalSpecFns;

verus! {

/// Number of bytes in a `String32`.
pub const STRING32_LEN: usize = 32;

/// A fixed-size, NUL-padded name of 32 bytes, as used by the resource table
/// entries and the rpmsg name-service message.
#[derive(Debug)]
pub struct String32 {
    pub buffer: [u8; 32],
}

/// The 32 bytes that hold `bytes`: at most 31 of them, so that a NUL byte
/// always ends the name, followed by NUL bytes.
pub open spec fn string32_bytes(bytes: Seq<u8>) -> Seq<u8> {
    Seq::new(32, |i: int| if i < bytes.len() && i < 31 { bytes[i] } else { 0u8 })
}

impl String32 {
    /// Copies the bytes of `name` into a `String32`, truncated to 31 bytes
    /// and padded with NUL bytes.
    pub fn new(name: &str) -> (r: String32)
        ensures
            r.buffer@ == string32_bytes(name.spec_bytes()),
    {
        let bytes = name.as_bytes();
        let mut buffer: [u8; 32] = [0u8; 32];
        let mut i: usize = 0;
        while i < bytes.len() && i < 31
            invariant
                bytes@ == name.spec_bytes(),
                i <= 31,
                i <= bytes@.len(),
                forall|j: int| 0 <= j < i ==> buffer@[j] == bytes@[j],
                forall|j: int| i <= j < 32 ==> buffer@[j] == 0u8,
            decreases 31 - i,
        {
            buffer[i] = bytes[i];
            i = i + 1;
        }
        let r = String32 { buffer };
        assert(r.buffer@ =~= string32_bytes(name.spec_bytes()));
        r
    }
}

} // verus!
