//! Plain message types for a generic sign/verify job queue. They share no
//! data with the bridge core; only the data shapes live here, the queue and
//! the signer behind it are external.

use vstd::prelude::*;

verus! {

/// Raw bytes handed to the signer.
#[derive(Debug)]
pub struct Bytes(pub Vec<u8>);

/// A signature over some bytes.
#[derive(Debug)]
pub struct Signature(pub Vec<u8>);

/// One job for the signer: produce a signature, or check one.
#[derive(Debug)]
pub enum Message {
    Sign(Bytes),
    Verify(Bytes, Signature),
}

} // verus!
