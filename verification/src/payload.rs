//! The life of the payload buffer on the native side.

use vstd::prelude::*;
use zeroize::Zeroize;

verus! {

/// `Zeroize::zeroize` of the zeroize crate for `Vec<u8>`: every byte of the
/// buffer and of its spare capacity is overwritten with zero, and the buffer
/// is then cleared, so that it is empty afterwards.
#[verifier::external_body]
fn zeroize_bytes(buffer: &mut Vec<u8>)
    ensures
        final(buffer)@ == Seq::<u8>::empty(),
{
    buffer.zeroize();
}

/// Wipes the native copy of the payload once it has been marshaled. The
/// buffer is empty afterwards.
pub fn wipe_payload(assembly_contents: &mut Vec<u8>)
    ensures
        final(assembly_contents)@ == Seq::<u8>::empty(),
{
    zeroize_bytes(assembly_contents);
}

} // verus!
