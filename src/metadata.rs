use vstd::prelude::*;
use crate::error::DecodeError;
use crate::reader::Reader;

verus! {

/// Bytes of the signature: the magic byte, "PNG", CR LF, SUB, LF. Exactly these 8 bytes
/// are read, and exactly 8 are counted towards the stream's declared length.
pub const SIGNATURE_SIZE: usize = 8;

/// Whether `s` starts with the magic byte 0x89 followed by the ASCII letters "PNG".
pub open spec fn has_magic(s: Seq<u8>) -> bool {
    s[0] == 0x89 && s[1] == 0x50 && s[2] == 0x4e && s[3] == 0x47
}

/// The outcome of checking the signature at the front of `s`.
pub open spec fn spec_signature(s: Seq<u8>) -> Result<(), DecodeError> {
    if s.len() < SIGNATURE_SIZE {
        Err(DecodeError::TruncatedInput)
    } else if !has_magic(s) {
        Err(DecodeError::BadSignature)
    } else {
        Ok(())
    }
}

/// Proof that a stream began with a valid signature.
#[derive(Clone, Copy, Debug, PartialEq, Eq)]
pub struct Signature;

impl Signature {
    /// Reads the 8 signature bytes and checks the magic byte and the "PNG" marker.
    pub fn from_reader(r: &mut Reader) -> (res: Result<Signature, DecodeError>)
        requires
            old(r).wf(),
        ensures
            final(r).wf(),
            old(r)@.len() >= SIGNATURE_SIZE ==> final(r)@ == old(r)@.skip(SIGNATURE_SIZE as int),
            match res {
                Ok(_) => spec_signature(old(r)@) is Ok && final(r)@ == old(r)@.skip(
                    SIGNATURE_SIZE as int,
                ),
                Err(e) => spec_signature(old(r)@) == Err::<(), DecodeError>(e),
            },
    {
        let data = match r.read_bytes(SIGNATURE_SIZE) {
            Ok(d) => d,
            Err(e) => return Err(e),
        };
        if data[0] != 0x89 {
            return Err(DecodeError::BadSignature);
        }
        if data[1] != 0x50 || data[2] != 0x4e || data[3] != 0x47 {
            return Err(DecodeError::BadSignature);
        }
        Ok(Signature)
    }
}

} // verus!
