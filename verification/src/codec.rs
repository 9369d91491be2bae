use vstd::prelude::*;

verus! {

/// The canonical Base58 text of a byte sequence, as `bs58::encode` produces
/// it. The encoding is a pure function of the bytes, so it gets a name here
/// rather than a page of arithmetic that nothing could hold to the crate
/// that computes it.
pub uninterp spec fn base58_of(bytes: Seq<u8>) -> Seq<char>;

/// Relies on `bs58::encode(..).into_string()`: the text is a function of the
/// input bytes alone (default alphabet, no checksum), every input byte yields
/// at least one output character, and an empty input yields an empty text.
#[verifier::external_body]
fn bs58_encode(bytes: &[u8]) -> (text: String)
    ensures
        text@ == base58_of(bytes@),
        bytes@.len() > 0 ==> text@.len() > 0,
        bytes@.len() == 0 ==> text@.len() == 0,
{
    bs58::encode(bytes).into_string()
}

/// Relies on `bs58::decode(..).into_vec()`: on the default alphabet it
/// inverts `bs58::encode` exactly, so a text that is the encoding of some
/// byte sequence decodes to precisely that sequence; any other text is
/// rejected with an error, which is reported here as `None`.
#[verifier::external_body]
fn bs58_decode(text: &str) -> (decoded: Option<Vec<u8>>)
    ensures
        decoded matches Some(v) ==> text@ == base58_of(v@),
        decoded is Some ==> (forall|bytes: Seq<u8>| text@ == base58_of(bytes) ==> decoded->Some_0@ == bytes),
        decoded is None ==> (forall|bytes: Seq<u8>| text@ != base58_of(bytes)),
{
    match bs58::decode(text).into_vec() {
        Ok(v) => Some(v),
        Err(_) => None,
    }
}

/// Encode a raw signature into its Base58 textual identifier, the form in
/// which a transaction is reported to the operator.
pub fn encode_signature(bytes: &[u8]) -> (text: String)
    ensures
        text@ == base58_of(bytes@),
        bytes@.len() > 0 ==> text@.len() > 0,
        bytes@.len() == 0 ==> text@.len() == 0,
{
    bs58_encode(bytes)
}

/// Decode a Base58 text back into bytes. On any text that `encode_signature`
/// produces this returns exactly the bytes that were encoded; a text outside
/// the Base58 alphabet yields `None`.
pub fn decode_signature(text: &str) -> (decoded: Option<Vec<u8>>)
    ensures
        forall|bytes: Seq<u8>|
            text@ == base58_of(bytes) ==> (decoded matches Some(v) && v@ == bytes),
{
    bs58_decode(text)
}

/// Round-trip law: encoding a byte sequence and decoding the resulting text
/// always succeeds and yields the original bytes.
pub fn encode_then_decode(bytes: &[u8]) -> (decoded: Option<Vec<u8>>)
    ensures
        decoded matches Some(v) && v@ == bytes@,
{
    let text = bs58_encode(bytes);
    bs58_decode(text.as_str())
}

} // verus!
