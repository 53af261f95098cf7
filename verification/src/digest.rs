use vstd::prelude::*;

verus! {

/// The SHA-1 hasher of the `sha1` crate.
#[verifier::external_type_specification]
#[verifier::external_body]
pub struct ExSha1(sha1::Sha1);

/// The bytes that a hasher has been fed so far, in the order they came.
pub uninterp spec fn absorbed(hasher: sha1::Sha1) -> Seq<u8>;

/// The SHA-1 digest of a sequence of bytes.
pub uninterp spec fn sha1_digest(data: Seq<u8>) -> Seq<u8>;

/// The lowercase hexadecimal digit of a value below 16.
pub open spec fn hex_digit(nibble: u8) -> char {
    if nibble < 10 {
        (('0' as u8 + nibble) as u8) as char
    } else {
        (('a' as u8 + (nibble - 10)) as u8) as char
    }
}

/// Bytes written in hexadecimal: two lowercase digits for each byte, the high
/// half first.
pub open spec fn hex_text(bytes: Seq<u8>) -> Seq<char> {
    Seq::new(
        2 * bytes.len(),
        |i: int|
            if i % 2 == 0 {
                hex_digit(bytes[i / 2] / 16)
            } else {
                hex_digit(bytes[i / 2] % 16)
            },
    )
}

/// The digest of `data` as it is written in paths and compared: its SHA-1
/// digest in lowercase hexadecimal.
pub open spec fn digest_text(data: Seq<u8>) -> Seq<char> {
    hex_text(sha1_digest(data))
}

/// Whether a character is one of `0..=9` or `a..=f`.
pub open spec fn is_lower_hex(c: char) -> bool {
    ('0' <= c && c <= '9') || ('a' <= c && c <= 'f')
}

/// Hexadecimal text has two characters for each byte, and every one of them is
/// a lowercase hexadecimal digit.
pub proof fn lemma_hex_text_shape(bytes: Seq<u8>)
    ensures
        hex_text(bytes).len() == 2 * bytes.len(),
        forall|i: int| 0 <= i < hex_text(bytes).len() ==> is_lower_hex(#[trigger] hex_text(bytes)[i]),
{
    assert forall|i: int| 0 <= i < hex_text(bytes).len() implies is_lower_hex(
        #[trigger] hex_text(bytes)[i],
    ) by {
        let nibble: u8 = if i % 2 == 0 {
            bytes[i / 2] / 16
        } else {
            bytes[i / 2] % 16
        };
        assert(nibble < 16);
        assert(hex_text(bytes)[i] == hex_digit(nibble));
    }
}

/// `sha1::Sha1::new` (the `Digest` trait): a hasher that has been fed nothing.
#[verifier::external_body]
pub(crate) fn hasher_new() -> (hasher: sha1::Sha1)
    ensures
        absorbed(hasher) == Seq::<u8>::empty(),
{
    <sha1::Sha1 as sha1::Digest>::new()
}

/// `sha1::Sha1::update` (the `Digest` trait): the hasher has been fed `data`
/// after what it had been fed before.
#[verifier::external_body]
pub(crate) fn hasher_update(hasher: &mut sha1::Sha1, data: &[u8])
    ensures
        absorbed(*final(hasher)) == absorbed(*old(hasher)) + data@,
{
    sha1::Digest::update(hasher, data)
}

/// `sha1::Sha1::finalize` (the `Digest` trait): the SHA-1 digest of all that
/// the hasher has been fed, which is 20 bytes long.
#[verifier::external_body]
pub(crate) fn hasher_finalize(hasher: sha1::Sha1) -> (digest: Vec<u8>)
    ensures
        digest@ == sha1_digest(absorbed(hasher)),
        digest@.len() == 20,
{
    sha1::Digest::finalize(hasher).as_slice().to_vec()
}

/// `hex::encode`: each byte becomes two lowercase hexadecimal digits, the high
/// half first.
#[verifier::external_body]
pub(crate) fn hex_encode(data: &[u8]) -> (text: String)
    ensures
        text@ == hex_text(data@),
{
    hex::encode(data)
}

} // verus!
