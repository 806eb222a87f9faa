//! Basic data types shared by every bridge component: chain identifiers,
//! transfer identifiers and the details recorded for one transfer.

use vstd::prelude::*;

verus! {

/// One of the two chains taking part in a swap: the chain a transfer was
/// initiated on, or its counterparty.
#[allow(non_camel_case_types)]
#[derive(Clone, Copy, Debug, PartialEq, Eq, Structural)]
pub enum ChainId {
    ONE,
    TWO,
}

impl ChainId {
    /// The opposite chain.
    pub fn other(&self) -> (r: ChainId)
        ensures
            r == self.spec_other(),
    {
        match self {
            ChainId::ONE => ChainId::TWO,
            ChainId::TWO => ChainId::ONE,
        }
    }

    pub open spec fn spec_other(self) -> ChainId {
        match self {
            ChainId::ONE => ChainId::TWO,
            ChainId::TWO => ChainId::ONE,
        }
    }
}

/// Fixed-size identifier of one transfer; the same value keys the swap on
/// both chains.
#[derive(Clone, Copy, Debug)]
pub struct BridgeTransferId(pub [u8; 32]);

impl View for BridgeTransferId {
    type V = Seq<u8>;

    open spec fn view(&self) -> Seq<u8> {
        self.0@
    }
}

impl BridgeTransferId {
    /// Byte-wise comparison of two transfer identifiers.
    pub fn equals(&self, other: &BridgeTransferId) -> (r: bool)
        ensures
            r == (self@ == other@),
    {
        let mut i: usize = 0;
        while i < 32
            invariant
                i <= 32,
                forall|k: int| 0 <= k < i ==> self.0@[k] == other.0@[k],
            decreases 32 - i,
        {
            if self.0[i] != other.0[i] {
                return false;
            }
            i += 1;
        }
        proof {
            assert(self@ =~= other@);
        }
        true
    }
}

/// The secret whose hash forms a transfer's hash-lock; revealing it lets the
/// initiator side complete the swap.
#[derive(Debug)]
pub struct HashLockPreImage(pub Vec<u8>);

impl View for HashLockPreImage {
    type V = Seq<u8>;

    open spec fn view(&self) -> Seq<u8> {
        self.0@
    }
}

/// Everything recorded about one transfer when it is created: the amount,
/// the hash-lock commitment and its time-lock, and the two addresses, held
/// in the chain-neutral byte form every chain address converts into.
#[derive(Debug)]
pub struct TransferDetails {
    pub amount: u64,
    pub hash_lock: [u8; 32],
    pub time_lock: u64,
    pub initiator_address: Vec<u8>,
    pub recipient_address: Vec<u8>,
}

/// Mathematical image of [`TransferDetails`].
pub ghost struct DetailsModel {
    pub amount: u64,
    pub hash_lock: Seq<u8>,
    pub time_lock: u64,
    pub initiator_address: Seq<u8>,
    pub recipient_address: Seq<u8>,
}

impl View for TransferDetails {
    type V = DetailsModel;

    open spec fn view(&self) -> DetailsModel {
        DetailsModel {
            amount: self.amount,
            hash_lock: self.hash_lock@,
            time_lock: self.time_lock,
            initiator_address: self.initiator_address@,
            recipient_address: self.recipient_address@,
        }
    }
}

impl TransferDetails {
    /// An exact copy; written out because the derived clone of a `Vec` field
    /// says nothing about the value it returns.
    pub fn duplicate(&self) -> (r: TransferDetails)
        ensures
            r@ == self@,
    {
        TransferDetails {
            amount: self.amount,
            hash_lock: self.hash_lock,
            time_lock: self.time_lock,
            initiator_address: copy_bytes(&self.initiator_address),
            recipient_address: copy_bytes(&self.recipient_address),
        }
    }
}

/// An element-wise copy of a byte vector.
pub fn copy_bytes(v: &Vec<u8>) -> (r: Vec<u8>)
    ensures
        r@ == v@,
{
    let mut r: Vec<u8> = Vec::new();
    let mut i: usize = 0;
    while i < v.len()
        invariant
            i <= v.len(),
            r@ == v@.subrange(0, i as int),
        decreases v.len() - i,
    {
        r.push(v[i]);
        proof {
            assert(r@ =~= v@.subrange(0, i + 1 as int));
        }
        i += 1;
    }
    proof {
        assert(v@.subrange(0, v@.len() as int) =~= v@);
    }
    r
}

/// Converts a byte vector into the fixed 32-byte form used for identifiers
/// and hash-locks; fails on any other length.
pub fn vec_to_array(vec: Vec<u8>) -> (r: Result<[u8; 32], &'static str>)
    ensures
        match r {
            Ok(a) => vec@.len() == 32 && a@ == vec@,
            Err(_) => vec@.len() != 32,
        },
{
    if vec.len() == 32 {
        let mut a: [u8; 32] = [0u8; 32];
        let mut i: usize = 0;
        while i < 32
            invariant
                i <= 32,
                vec@.len() == 32,
                forall|k: int| 0 <= k < i ==> a@[k] == vec@[k],
            decreases 32 - i,
        {
            a[i] = vec[i];
            i += 1;
        }
        proof {
            assert(a@ =~= vec@);
        }
        Ok(a)
    } else {
        Err("Vec<u8> does not have exactly 32 elements")
    }
}

} // verus!
