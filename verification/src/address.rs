//! Conversion between the textual and the canonical form of an account
//! address. The textual form is bech32 with a fixed network prefix; the
//! bech32 codec itself is the `bech32` crate's.

use vstd::prelude::*;
use vstd::utf8::decode_utf8;
use vstd::utf8::valid_utf8;
use bech32::CheckBase32;
use bech32::FromBase32;
use bech32::ToBase32;
use crate::errors::WasmEngineError;

verus! {

/// The network prefix of account addresses.
pub const BECH32_PREFIX_ACC_ADDR: &'static str = "secret";

/// Status of a textual address that is not valid UTF-8.
pub const STATUS_INVALID_UTF8: i32 = -1;

/// Status of a textual address that is not well-formed bech32.
pub const STATUS_INVALID_ENCODING: i32 = -2;

/// Status of a textual address of another network.
pub const STATUS_WRONG_PREFIX: i32 = -3;

/// Status of a textual address whose data part does not regroup into bytes.
pub const STATUS_INVALID_PAYLOAD: i32 = -4;

/// Status of a canonical address that could not be encoded.
pub const STATUS_ENCODE_FAILED: i32 = -1;

/// `text` without its leading and trailing whitespace, as `str::trim` gives it.
pub uninterp spec fn trimmed(text: Seq<char>) -> Seq<char>;

/// What `bech32::decode` makes of `text`: the lower-case human-readable part
/// and the 5-bit digits of the data part without the checksum, or `None` when
/// it rejects the text.
pub uninterp spec fn bech32_decoded(text: Seq<char>) -> Option<(Seq<char>, Seq<u8>)>;

/// The bytes that `FromBase32::from_base32` regroups the 5-bit digits `digits`
/// into; `None` when a value is no 5-bit digit or the padding is rejected.
pub uninterp spec fn base32_regrouped(digits: Seq<u8>) -> Option<Seq<u8>>;

/// The 5-bit digits that `ToBase32::to_base32` regroups `bytes` into.
pub uninterp spec fn base32_digits(bytes: Seq<u8>) -> Seq<u8>;

/// The text that `bech32::encode` gives for the human-readable part `hrp` and
/// the 5-bit digits `digits`; `None` when a value is no 5-bit digit or the
/// encoder rejects the human-readable part.
pub uninterp spec fn bech32_encoded(hrp: Seq<char>, digits: Seq<u8>) -> Option<Seq<char>>;

/// `std::str::from_utf8`: the text that `bytes` encode, exactly when they are
/// valid UTF-8.
#[verifier::external_body]
fn text_of(bytes: &[u8]) -> (r: Option<&str>)
    ensures
        match r {
            Some(text) => valid_utf8(bytes@) && text@ == decode_utf8(bytes@),
            None => !valid_utf8(bytes@),
        },
{
    std::str::from_utf8(bytes).ok()
}

/// `str::trim`: the result is named by `trimmed`; being a part of `text`, it
/// is not longer than `text`.
#[verifier::external_body]
fn trim_text(text: &str) -> (r: &str)
    ensures
        r@ == trimmed(text@),
        r@.len() <= text@.len(),
{
    text.trim()
}

/// `bech32::decode`: the result is named by `bech32_decoded`, each digit
/// handed out as a byte.
#[verifier::external_body]
fn decode_bech32(text: &str) -> (r: Option<(String, Vec<u8>)>)
    ensures
        match r {
            Some((hrp, digits)) => bech32_decoded(text@) == Some((hrp@, digits@)),
            None => bech32_decoded(text@) is None,
        },
{
    match bech32::decode(text) {
        Ok((hrp, data)) => Some((hrp, data.iter().map(|d| d.to_u8()).collect())),
        Err(_) => None,
    }
}

/// `FromBase32::from_base32` for `Vec<u8>`, on digits given as bytes: the
/// result is named by `base32_regrouped`.
#[verifier::external_body]
fn regroup_base32(digits: &Vec<u8>) -> (r: Option<Vec<u8>>)
    ensures
        match r {
            Some(bytes) => base32_regrouped(digits@) == Some(bytes@),
            None => base32_regrouped(digits@) is None,
        },
{
    match digits.check_base32() {
        Ok(data) => Vec::<u8>::from_base32(&data).ok(),
        Err(_) => None,
    }
}

/// `ToBase32::to_base32`: the result is named by `base32_digits`, each digit
/// handed out as a byte.
#[verifier::external_body]
fn digits_of(bytes: &[u8]) -> (r: Vec<u8>)
    ensures
        r@ == base32_digits(bytes@),
{
    bytes.to_base32().iter().map(|d| d.to_u8()).collect()
}

/// `bech32::encode`, on digits given as bytes: the result is named by
/// `bech32_encoded`.
#[verifier::external_body]
fn encode_bech32(hrp: &str, digits: &Vec<u8>) -> (r: Option<String>)
    ensures
        match r {
            Some(text) => bech32_encoded(hrp@, digits@) == Some(text@),
            None => bech32_encoded(hrp@, digits@) is None,
        },
{
    match digits.check_base32() {
        Ok(data) => bech32::encode(hrp, data).ok(),
        Err(_) => None,
    }
}

/// The digits of a decoded address of this network, or the status that
/// refuses it: a text that did not decode is an invalid encoding, and a
/// human-readable part other than the network prefix is a wrong prefix.
pub open spec fn account_digits(decoded: Option<(Seq<char>, Seq<u8>)>) -> Result<Seq<u8>, i32> {
    match decoded {
        None => Err(STATUS_INVALID_ENCODING),
        Some((hrp, digits)) => if hrp == BECH32_PREFIX_ACC_ADDR@ {
            Ok(digits)
        } else {
            Err(STATUS_WRONG_PREFIX)
        },
    }
}

/// The canonical bytes for regrouped digits, or the invalid-payload status.
pub open spec fn payload_bytes(regrouped: Option<Seq<u8>>) -> Result<Seq<u8>, i32> {
    match regrouped {
        Some(bytes) => Ok(bytes),
        None => Err(STATUS_INVALID_PAYLOAD),
    }
}

/// What canonicalizing the bytes `human` of a textual address gives: a hard
/// failure for a text that is empty once trimmed, else either the canonical
/// bytes or the status that says why there are none.
pub open spec fn canonical_of(human: Seq<u8>) -> Result<Result<Seq<u8>, i32>, WasmEngineError> {
    if !valid_utf8(human) {
        Ok(Err(STATUS_INVALID_UTF8))
    } else {
        let text = trimmed(decode_utf8(human));
        if text.len() == 0 {
            Err(WasmEngineError::InputEmpty)
        } else {
            match account_digits(bech32_decoded(text)) {
                Err(status) => Ok(Err(status)),
                Ok(digits) => Ok(payload_bytes(base32_regrouped(digits))),
            }
        }
    }
}

/// What humanizing the canonical bytes `canonical` gives: the bech32 text
/// under the network prefix, or the encode-failed status.
pub open spec fn human_of(canonical: Seq<u8>) -> Result<Seq<char>, i32> {
    match bech32_encoded(BECH32_PREFIX_ACC_ADDR@, base32_digits(canonical)) {
        Some(text) => Ok(text),
        None => Err(STATUS_ENCODE_FAILED),
    }
}

/// Checks what the decoder made of an address: the text must have decoded
/// and must carry the network prefix.
pub fn check_decoded(decoded: Option<(String, Vec<u8>)>) -> (r: Result<Vec<u8>, i32>)
    ensures
        match (r, account_digits(seq_decoded(decoded))) {
            (Ok(digits), Ok(expected)) => digits@ == expected,
            (Err(status), Err(expected)) => status == expected,
            _ => false,
        },
{
    match decoded {
        None => Err(STATUS_INVALID_ENCODING),
        Some((hrp, digits)) => {
            let expected: String = BECH32_PREFIX_ACC_ADDR.to_owned();
            if hrp == expected {
                Ok(digits)
            } else {
                Err(STATUS_WRONG_PREFIX)
            }
        },
    }
}

/// A decoder's answer seen as sequences.
pub open spec fn seq_decoded(decoded: Option<(String, Vec<u8>)>) -> Option<(Seq<char>, Seq<u8>)> {
    match decoded {
        Some((hrp, digits)) => Some((hrp@, digits@)),
        None => None,
    }
}

/// Checks what regrouping made of an address's digits.
pub fn check_payload(regrouped: Option<Vec<u8>>) -> (r: Result<Vec<u8>, i32>)
    ensures
        match regrouped {
            Some(bytes) => r == Ok::<Vec<u8>, i32>(bytes),
            None => r == Err::<Vec<u8>, i32>(STATUS_INVALID_PAYLOAD),
        },
{
    match regrouped {
        Some(bytes) => Ok(bytes),
        None => Err(STATUS_INVALID_PAYLOAD),
    }
}

/// Turns the bytes of a textual address into its canonical bytes.
///
/// The text is trimmed of surrounding whitespace first. An address that is
/// empty after trimming is a hard failure; every other defect is reported as
/// a status: -1 for bytes that are not UTF-8, -2 for text that is not bech32,
/// -3 for the prefix of another network, -4 for a data part that does not
/// regroup into bytes.
pub fn canonicalize(human: &[u8]) -> (r: Result<Result<Vec<u8>, i32>, WasmEngineError>)
    ensures
        match (r, canonical_of(human@)) {
            (Ok(Ok(bytes)), Ok(Ok(expected))) => bytes@ == expected,
            (Ok(Err(status)), Ok(Err(expected))) => status == expected,
            (Err(e), Err(expected)) => e == expected,
            _ => false,
        },
        human@.len() == 0 ==> r == Err::<Result<Vec<u8>, i32>, WasmEngineError>(
            WasmEngineError::InputEmpty,
        ),
{
    let text = match text_of(human) {
        Some(text) => text,
        None => {
            return Ok(Err(STATUS_INVALID_UTF8));
        },
    };
    let text = trim_text(text);
    if text.is_empty() {
        return Err(WasmEngineError::InputEmpty);
    }
    let digits = match check_decoded(decode_bech32(text)) {
        Ok(digits) => digits,
        Err(status) => {
            return Ok(Err(status));
        },
    };
    Ok(check_payload(regroup_base32(&digits)))
}

/// Turns canonical bytes into the text of the address under the network
/// prefix; -1 when the encoder fails.
pub fn humanize(canonical: &[u8]) -> (r: Result<String, i32>)
    ensures
        match (r, human_of(canonical@)) {
            (Ok(text), Ok(expected)) => text@ == expected,
            (Err(status), Err(expected)) => status == expected,
            _ => false,
        },
{
    let digits = digits_of(canonical);
    match encode_bech32(BECH32_PREFIX_ACC_ADDR, &digits) {
        Some(text) => Ok(text),
        None => Err(STATUS_ENCODE_FAILED),
    }
}

/// An address of another network is refused with the wrong-prefix status,
/// whatever its data part holds; an address that is empty once trimmed is
/// rejected outright, whatever the decoder would say of it.
pub proof fn lemma_prefix_and_blank(human: Seq<u8>)
    ensures
        valid_utf8(human) && trimmed(decode_utf8(human)).len() == 0 ==> canonical_of(human) == Err::<
            Result<Seq<u8>, i32>,
            WasmEngineError,
        >(WasmEngineError::InputEmpty),
        valid_utf8(human) && trimmed(decode_utf8(human)).len() > 0 && bech32_decoded(
            trimmed(decode_utf8(human)),
        ) is Some && bech32_decoded(trimmed(decode_utf8(human))).unwrap().0
            != BECH32_PREFIX_ACC_ADDR@ ==> canonical_of(human) == Ok::<
            Result<Seq<u8>, i32>,
            WasmEngineError,
        >(Err(STATUS_WRONG_PREFIX)),
{
}

} // verus!
