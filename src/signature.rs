//! The transparency signature: a prehashed minisign signature over the
//! lowercase hex SHA-256 of a package.

use vstd::prelude::*;
use crate::error::Error;

verus! {

/// The SHA-256 digest of `data`.
pub uninterp spec fn sha256_of(data: Seq<u8>) -> Seq<u8>;

/// Whether minisign accepts `sig` (a signature file, read as UTF-8 with
/// invalid sequences replaced) as a prehashed signature of `data` by the
/// public key whose base64 form is `key`. A key or signature that does not
/// parse is not accepted.
pub uninterp spec fn minisign_accepts(key: Seq<char>, sig: Seq<u8>, data: Seq<u8>) -> bool;

/// Relies on `sha2::Sha256::digest`: the 32-byte SHA-256 digest of `data`.
#[verifier::external_body]
fn sha256(data: &[u8]) -> (r: Vec<u8>)
    ensures
        r@ == sha256_of(data@),
        r@.len() == 32,
{
    <sha2::Sha256 as sha2::Digest>::digest(data).to_vec()
}

/// A lowercase hexadecimal digit, as an ASCII byte.
pub open spec fn hex_digit(v: u8) -> u8 {
    if v < 10 {
        (48 + v) as u8
    } else {
        (87 + v) as u8
    }
}

/// The ASCII bytes of the lowercase hex encoding of `d`, two digits per
/// byte, high nibble first.
pub open spec fn hex_ascii(d: Seq<u8>) -> Seq<u8>
    decreases d.len(),
{
    if d.len() == 0 {
        Seq::<u8>::empty()
    } else {
        hex_ascii(d.drop_last()) + seq![hex_digit(d.last() / 16), hex_digit(d.last() % 16)]
    }
}

/// Relies on `hex::encode`: two lowercase hex digits per byte, in order.
#[verifier::external_body]
fn hex_encode(d: &[u8]) -> (r: Vec<u8>)
    ensures
        r@ == hex_ascii(d@),
{
    hex::encode(d).into_bytes()
}

/// The length of the global signature of a signature file: its fourth line
/// (read as UTF-8 with invalid sequences replaced), trimmed and decoded from
/// base64; `None` when there is no fourth line or it does not decode.
pub uninterp spec fn global_sig_len_of(sig: Seq<u8>) -> Option<usize>;

/// Relies on `ct_codecs::Base64::decode_to_vec`, which is how
/// `minisign::SignatureBox::from_string` decodes the trimmed fourth line of
/// a signature file: the number of bytes it decodes to.
#[verifier::external_body]
fn global_sig_len(sig: &[u8]) -> (r: Option<usize>)
    ensures
        r == global_sig_len_of(sig@),
{
    let text = String::from_utf8_lossy(sig);
    let line = text.lines().nth(3)?;
    <ct_codecs::Base64 as ct_codecs::Decoder>::decode_to_vec(line.trim().as_bytes(), None).ok().map(|v| v.len())
}

/// Whether the global signature, if the file has one that decodes, is the
/// 64 bytes of an Ed25519 signature; `minisign::verify` slices it as such.
pub open spec fn global_sig_well_formed(sig: Seq<u8>) -> bool {
    match global_sig_len_of(sig) {
        Some(n) => n == 64,
        None => true,
    }
}

/// Relies on `minisign::verify`, with the key read by
/// `minisign::PublicKey::from_base64` and the signature by
/// `minisign::SignatureBox::from_string`; legacy (not prehashed) signatures
/// are refused. A global signature shorter than 64 bytes would make
/// `verify` panic, hence the `requires`.
#[verifier::external_body]
fn minisign_verify(key: &str, sig: &[u8], data: &[u8]) -> (r: bool)
    requires
        global_sig_well_formed(sig@),
    ensures
        r == minisign_accepts(key@, sig@, data@),
{
    let text = String::from_utf8_lossy(sig);
    match (minisign::PublicKey::from_base64(key), minisign::SignatureBox::from_string(&text)) {
        (Ok(pk), Ok(sig_box)) => {
            minisign::verify(&pk, &sig_box, std::io::Cursor::new(data), true, false, false).is_ok()
        },
        _ => false,
    }
}

/// The canonical hash of an artifact: the ASCII lowercase hex of its SHA-256.
pub open spec fn canonical_hash_of(artifact: Seq<u8>) -> Seq<u8> {
    hex_ascii(sha256_of(artifact))
}

/// Whether `sig` is a valid transparency signature of `artifact` by `key`:
/// a well-formed signature over the canonical hash, not over the artifact
/// itself.
pub open spec fn signature_valid(key: Seq<char>, artifact: Seq<u8>, sig: Seq<u8>) -> bool {
    global_sig_well_formed(sig) && minisign_accepts(key, sig, canonical_hash_of(artifact))
}

/// The canonical hash of `artifact`, which is what the signature and the
/// transparency log speak of.
pub fn canonical_hash(artifact: &[u8]) -> (r: Vec<u8>)
    ensures
        r@ == canonical_hash_of(artifact@),
{
    let digest = sha256(artifact);
    hex_encode(digest.as_slice())
}

/// Checks `sig` against an already computed canonical hash.
pub fn verify_canonical(key: &str, hash: &[u8], sig: &[u8]) -> (r: Result<(), Error>)
    ensures
        r is Ok <==> global_sig_well_formed(sig@) && minisign_accepts(key@, sig@, hash@),
        r is Err ==> r == Err::<(), Error>(Error::InvalidSignature),
{
    let well_formed = match global_sig_len(sig) {
        Some(n) => n == 64,
        None => true,
    };
    if well_formed && minisign_verify(key, sig, hash) {
        Ok(())
    } else {
        Err(Error::InvalidSignature)
    }
}

/// Checks the transparency signature `sig` of `artifact` under `key` (the
/// base64 form of a minisign public key), and returns the canonical hash
/// that it signs; `InvalidSignature` when it does not verify.
pub fn check_signature(key: &str, artifact: &[u8], sig: &[u8]) -> (r: Result<Vec<u8>, Error>)
    ensures
        r is Ok <==> signature_valid(key@, artifact@, sig@),
        r matches Ok(h) ==> h@ == canonical_hash_of(artifact@),
        r is Err ==> r == Err::<Vec<u8>, Error>(Error::InvalidSignature),
{
    let hash = canonical_hash(artifact);
    match verify_canonical(key, hash.as_slice(), sig) {
        Ok(()) => Ok(hash),
        Err(e) => Err(e),
    }
}

pub proof fn lemma_hex_ascii_len(d: Seq<u8>)
    ensures
        hex_ascii(d).len() == 2 * d.len(),
    decreases d.len(),
{
    if d.len() > 0 {
        lemma_hex_ascii_len(d.drop_last());
    }
}

/// Hex encoding loses nothing: equal encodings come from equal bytes.
pub proof fn lemma_hex_ascii_injective(a: Seq<u8>, b: Seq<u8>)
    requires
        hex_ascii(a) == hex_ascii(b),
    ensures
        a == b,
    decreases a.len(),
{
    lemma_hex_ascii_len(a);
    lemma_hex_ascii_len(b);
    if a.len() > 0 {
        let ha = hex_ascii(a);
        let n = ha.len();
        lemma_hex_ascii_len(a.drop_last());
        lemma_hex_ascii_len(b.drop_last());
        assert(ha[n - 2] == hex_digit(a.last() / 16));
        assert(hex_ascii(b)[n - 2] == hex_digit(b.last() / 16));
        assert(ha[n - 1] == hex_digit(a.last() % 16));
        assert(hex_ascii(b)[n - 1] == hex_digit(b.last() % 16));
        let x = a.last();
        let y = b.last();
        assert(x / 16 == y / 16 && x % 16 == y % 16);
        assert((x / 16 == y / 16 && x % 16 == y % 16) ==> x == y) by (bit_vector);
        assert(hex_ascii(a.drop_last()) =~= ha.subrange(0, n - 2));
        assert(hex_ascii(b.drop_last()) =~= hex_ascii(b).subrange(0, n - 2));
        lemma_hex_ascii_injective(a.drop_last(), b.drop_last());
        assert(a =~= a.drop_last().push(x));
        assert(b =~= b.drop_last().push(y));
    }
}

/// The signature is bound to the digest: two artifacts share a canonical
/// hash exactly when they share a SHA-256 digest, and then every signature
/// check gives the same answer for both.
pub proof fn lemma_signature_bound_to_digest(key: Seq<char>, sig: Seq<u8>, a: Seq<u8>, b: Seq<u8>)
    ensures
        (canonical_hash_of(a) == canonical_hash_of(b)) <==> (sha256_of(a) == sha256_of(b)),
        sha256_of(a) == sha256_of(b) ==> signature_valid(key, a, sig) == signature_valid(key, b, sig),
{
    if canonical_hash_of(a) == canonical_hash_of(b) {
        lemma_hex_ascii_injective(sha256_of(a), sha256_of(b));
    }
}

} // verus!
