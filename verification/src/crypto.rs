//! Seeds derived from a proof-of-replication identifier by SHA-256.

use sha2::{Digest, Sha256};
use vstd::prelude::*;
use vstd::slice::slice_to_vec;
use vstd::string::StringSliceAdditionalSpecFns;
use vstd::utf8::*;

verus! {

/// The SHA-256 digest of `message` as `sha2::Sha256` computes it.
pub uninterp spec fn sha256(message: Seq<u8>) -> Seq<u8>;

/// The bytes that are hashed for a domain seed: the tag in UTF-8, then the
/// identifier.
pub open spec fn domain_seed_preimage(tag: Seq<char>, porep_id: Seq<u8>) -> Seq<u8> {
    encode_utf8(tag) + porep_id
}

/// The seed that belongs to a domain-separation tag and an identifier.
pub open spec fn porep_domain_seed(tag: Seq<char>, porep_id: Seq<u8>) -> Seq<u8> {
    sha256(domain_seed_preimage(tag, porep_id))
}

/// A seed depends on nothing but the tag and the identifier: equal pairs
/// have the same seed.
pub proof fn lemma_domain_seed_deterministic(
    tag_a: Seq<char>,
    porep_id_a: Seq<u8>,
    tag_b: Seq<char>,
    porep_id_b: Seq<u8>,
)
    requires
        tag_a == tag_b,
        porep_id_a == porep_id_b,
    ensures
        porep_domain_seed(tag_a, porep_id_a) == porep_domain_seed(tag_b, porep_id_b),
{
}

/// The bytes that are hashed tell the tag and the identifier: two pairs with
/// identifiers of one length and the same bytes to hash are the same pair.
/// So seeds under different tags are digests of different messages. (That
/// the digests differ too rests on SHA-256, and is not shown here.)
pub proof fn lemma_domain_seed_preimage_injective(
    tag_a: Seq<char>,
    porep_id_a: Seq<u8>,
    tag_b: Seq<char>,
    porep_id_b: Seq<u8>,
)
    requires
        porep_id_a.len() == porep_id_b.len(),
        domain_seed_preimage(tag_a, porep_id_a) == domain_seed_preimage(tag_b, porep_id_b),
    ensures
        tag_a == tag_b,
        porep_id_a == porep_id_b,
{
    let head_a = encode_utf8(tag_a);
    let head_b = encode_utf8(tag_b);
    let whole = head_a + porep_id_a;
    assert(whole.len() == head_a.len() + porep_id_a.len());
    assert(whole.len() == head_b.len() + porep_id_b.len());
    assert(head_a =~= whole.subrange(0, head_a.len() as int));
    assert(head_b =~= (head_b + porep_id_b).subrange(0, head_b.len() as int));
    assert(porep_id_a =~= whole.subrange(head_a.len() as int, whole.len() as int));
    assert(porep_id_b =~= (head_b + porep_id_b).subrange(head_b.len() as int, whole.len() as int));
    encode_utf8_decode_utf8(tag_a);
    encode_utf8_decode_utf8(tag_b);
}

/// Calls `sha2::Sha256::digest` (the one-shot form of `Digest`) on `message`.
///
/// Trusted: the 32 bytes that come back are taken to be `sha256(message@)`,
/// that is, the digest depends on the message bytes alone. Nothing about the
/// digest's value is claimed.
#[verifier::external_body]
pub(crate) fn sha256_digest(message: &[u8]) -> (digest: [u8; 32])
    ensures
        digest@ == sha256(message@),
{
    Sha256::digest(message).into()
}

/// Joins two byte strings into one buffer.
pub fn concat_bytes(head: &[u8], tail: &[u8]) -> (bytes: Vec<u8>)
    ensures
        bytes@ == head@ + tail@,
{
    let mut bytes = slice_to_vec(head);
    bytes.extend_from_slice(tail);
    bytes
}

/// Derives the 32-byte seed for `domain_separation_tag` and `porep_id`: the
/// SHA-256 digest of the tag's UTF-8 bytes followed by the identifier.
pub fn derive_porep_domain_seed(
    domain_separation_tag: &str,
    porep_id: [u8; 32],
) -> (seed: [u8; 32])
    ensures
        seed@ == porep_domain_seed(domain_separation_tag@, porep_id@),
{
    let preimage = concat_bytes(domain_separation_tag.as_bytes(), porep_id.as_slice());
    sha256_digest(preimage.as_slice())
}

} // verus!
