//! The calls this library makes into outside code, each with the contract that Verus
//! believes of it, and the names given to results that take more than a few lines to state.
use vstd::prelude::*;

verus! {

/// Whether `c` belongs to the Bitcoin Base58 alphabet (the default alphabet of `bs58`):
/// the digits 1-9 and the ASCII letters but `I`, `O` and `l`.
pub open spec fn is_base58_char(c: char) -> bool {
    ||| '1' <= c <= '9'
    ||| 'A' <= c <= 'H'
    ||| 'J' <= c <= 'N'
    ||| 'P' <= c <= 'Z'
    ||| 'a' <= c <= 'k'
    ||| 'm' <= c <= 'z'
}

/// Whether every character of `s` belongs to the Base58 alphabet.
pub open spec fn is_base58_text(s: Seq<char>) -> bool {
    forall|i: int| 0 <= i < s.len() ==> #[trigger] is_base58_char(s[i])
}

/// The bytes that `bs58::decode(s).into_vec()` gives for the text `s`, when it succeeds.
pub uninterp spec fn base58_decoded(s: Seq<char>) -> Option<Seq<u8>>;

/// Whether `libp2p::PeerId::from_bytes` accepts `bytes` (a multihash with the identity or
/// the SHA-256 code, in its canonical encoding).
pub uninterp spec fn is_peer_id_bytes(bytes: Seq<u8>) -> bool;

/// The text that `PeerId::to_string` gives for the peer whose bytes are `bytes`.
pub uninterp spec fn peer_id_text(bytes: Seq<u8>) -> Seq<char>;

/// Whether `s.parse::<libp2p::Multiaddr>()` succeeds.
pub uninterp spec fn is_multiaddr_text(s: Seq<char>) -> bool;

/// The text that `String::from_utf8_lossy` gives for `bytes`.
pub uninterp spec fn lossy_utf8_text(bytes: Seq<u8>) -> Seq<char>;

/// Calls `bs58::decode(s).into_vec()`. Trusted: `into_vec` sizes its buffer to the input, so
/// the one error left is a character outside the alphabet (the source's `decode_into`);
/// the decoded bytes themselves are named, not stated. Decoding is canonical: leading `1`s
/// become leading zero bytes and the rest is the number without leading zeros, so encoding
/// the decoded bytes gives `s` back; when those bytes are a peer, its text (Base58 of its
/// bytes, see `peer_id_to_string`) is therefore `s`.
#[verifier::external_body]
pub(crate) fn base58_decode(s: &str) -> (res: Option<Vec<u8>>)
    ensures
        res is Some <==> is_base58_text(s@),
        match res {
            Some(v) => base58_decoded(s@) == Some(v@),
            None => base58_decoded(s@) is None,
        },
        res matches Some(v) ==> (is_peer_id_bytes(v@) ==> peer_id_text(v@) == s@),
{
    bs58::decode(s).into_vec().ok()
}

/// Calls `libp2p::PeerId::from_bytes(bytes)` and reports whether it succeeded. Trusted: the
/// outcome is named, not stated.
#[verifier::external_body]
pub(crate) fn peer_id_bytes_valid(bytes: &[u8]) -> (ok: bool)
    ensures
        ok == is_peer_id_bytes(bytes@),
{
    libp2p::PeerId::from_bytes(bytes).is_ok()
}

/// Rebuilds the `libp2p::PeerId` whose bytes are `bytes` and calls its `to_string`. Trusted:
/// the text is named; that Base58 decoding gives the bytes back follows from the source
/// (`Display` writes `bs58::encode(self.to_bytes())`, and `from_bytes` accepts only the
/// canonical encoding, so `to_bytes` returns the very bytes it was built from).
#[verifier::external_body]
pub(crate) fn peer_id_to_string(bytes: &[u8]) -> (s: String)
    requires
        is_peer_id_bytes(bytes@),
    ensures
        s@ == peer_id_text(bytes@),
        base58_decoded(s@) == Some(bytes@),
        is_base58_text(s@),
{
    match libp2p::PeerId::from_bytes(bytes) {
        Ok(peer) => peer.to_string(),
        Err(_) => String::new(),
    }
}

/// Calls `TopicHash::from(IdentTopic::new(topic)).into_string()`. Trusted: the identity
/// hasher of gossipsub keeps the topic's text as its hash (`IdentityHash::hash`).
#[verifier::external_body]
pub(crate) fn ident_topic_hash(topic: &str) -> (hash: String)
    ensures
        hash@ == topic@,
{
    libp2p::gossipsub::TopicHash::from(libp2p::gossipsub::IdentTopic::new(topic)).into_string()
}

/// Calls `text.parse::<libp2p::Multiaddr>()` and reports whether it succeeded. Trusted: the
/// outcome is named, not stated.
#[verifier::external_body]
pub(crate) fn multiaddr_parses(text: &str) -> (ok: bool)
    ensures
        ok == is_multiaddr_text(text@),
{
    text.parse::<libp2p::Multiaddr>().is_ok()
}

/// Calls `String::from_utf8_lossy(bytes)`. Trusted: on valid UTF-8 it decodes exactly, as
/// its documentation says; what it gives for invalid input is named, not stated.
#[verifier::external_body]
pub(crate) fn utf8_lossy(bytes: &[u8]) -> (s: String)
    ensures
        s@ == lossy_utf8_text(bytes@),
        vstd::utf8::valid_utf8(bytes@) ==> s@ == vstd::utf8::decode_utf8(bytes@),
{
    String::from_utf8_lossy(bytes).into_owned()
}

} // verus!
