//! Peer identities, held by the bytes of their multihash, and their Base58 text.
use vstd::prelude::*;

use crate::outside::{
    base58_decode, base58_decoded, is_base58_text, is_peer_id_bytes, peer_id_bytes_valid,
    peer_id_text, peer_id_to_string,
};

verus! {

/// The identity of a peer: the bytes of a multihash that `libp2p::PeerId` accepts.
pub struct PeerKey {
    bytes: Vec<u8>,
}

impl View for PeerKey {
    type V = Seq<u8>;

    closed spec fn view(&self) -> Seq<u8> {
        self.bytes@
    }
}

impl Clone for PeerKey {
    fn clone(&self) -> (k: Self)
        ensures
            k@ == self@,
    {
        self.copy()
    }
}

/// Whether `s` is the text of a peer: Base58 whose bytes are a valid peer identity.
pub open spec fn is_peer_text(s: Seq<char>) -> bool {
    &&& base58_decoded(s) is Some
    &&& is_peer_id_bytes(base58_decoded(s)->0)
}

impl PeerKey {
    #[verifier::type_invariant]
    spec fn valid(self) -> bool {
        is_peer_id_bytes(self.bytes@)
    }

    /// The peer whose multihash bytes are `bytes`, or `None` where `PeerId::from_bytes`
    /// refuses them.
    pub fn from_bytes(bytes: Vec<u8>) -> (r: Option<PeerKey>)
        ensures
            r is Some <==> is_peer_id_bytes(bytes@),
            r matches Some(k) ==> k@ == bytes@,
    {
        if peer_id_bytes_valid(bytes.as_slice()) {
            Some(PeerKey { bytes })
        } else {
            None
        }
    }

    /// The multihash bytes of this peer.
    pub fn to_bytes(&self) -> (b: Vec<u8>)
        ensures
            b@ == self@,
    {
        self.bytes.clone()
    }

    /// The Base58 text of this peer, as `PeerId` displays it.
    pub fn to_string(&self) -> (s: String)
        ensures
            s@ == peer_id_text(self@),
            is_base58_text(s@),
            base58_decoded(s@) == Some(self@),
            is_peer_text(s@),
    {
        proof {
            use_type_invariant(self);
        }
        peer_id_to_string(self.bytes.as_slice())
    }

    /// Copies this identity.
    pub fn copy(&self) -> (k: PeerKey)
        ensures
            k@ == self@,
    {
        proof {
            use_type_invariant(self);
        }
        PeerKey { bytes: self.bytes.clone() }
    }

    /// Whether two identities are the same peer.
    pub fn same(&self, other: &PeerKey) -> (r: bool)
        ensures
            r == (self@ == other@),
    {
        let n = self.bytes.len();
        if n != other.bytes.len() {
            return false;
        }
        let mut i: usize = 0;
        while i < n
            invariant
                n == self.bytes@.len() == other.bytes@.len(),
                i <= n,
                forall|j: int| 0 <= j < i ==> self.bytes@[j] == other.bytes@[j],
            decreases n - i,
        {
            if self.bytes[i] != other.bytes[i] {
                return false;
            }
            i = i + 1;
        }
        proof {
            assert(self.bytes@ =~= other.bytes@);
        }
        true
    }
}

/// The peer whose Base58 text is `val`; that peer's text is `val` again. The text must
/// decode to valid peer bytes: there is no peer for any other text.
pub fn peer_id_from_str(val: &str) -> (k: PeerKey)
    requires
        is_peer_text(val@),
    ensures
        Some(k@) == base58_decoded(val@),
        peer_id_text(k@) == val@,
{
    let bytes = base58_decode(val);
    match bytes {
        Some(b) => {
            let ok = peer_id_bytes_valid(b.as_slice());
            assert(ok);
            PeerKey { bytes: b }
        },
        None => {
            assert(false);
            PeerKey { bytes: Vec::new() }
        },
    }
}

/// The peer whose Base58 text is `val`, or `None` where `val` is not the text of a peer.
pub fn try_peer_id_from_str(val: &str) -> (r: Option<PeerKey>)
    ensures
        r is Some <==> is_peer_text(val@),
        r matches Some(k) ==> Some(k@) == base58_decoded(val@) && peer_id_text(k@) == val@,
{
    let bytes = base58_decode(val);
    match bytes {
        Some(b) => {
            if peer_id_bytes_valid(b.as_slice()) {
                Some(peer_id_from_str(val))
            } else {
                None
            }
        },
        None => None,
    }
}

} // verus!
