//! Decoding of fixed-layout account records read from the remote store.
//!
//! The store answers a read with raw bytes or nothing. Each reader here
//! turns such an answer into a fully decoded record or fails loudly:
//! nothing at the address is [`FetchError::NotFound`], bytes that do not
//! decode are [`FetchError::DecodeError`], and no default is ever
//! substituted. The wire layouts themselves belong to the program's schema
//! crates and are relied upon, not restated.

use vstd::prelude::*;

verus! {

#[verifier::external_type_specification]
#[verifier::external_body]
pub struct ExConfig(ore_api::state::Config);

#[verifier::external_type_specification]
#[verifier::external_body]
pub struct ExTreasury(ore_api::state::Treasury);

#[verifier::external_type_specification]
#[verifier::external_body]
pub struct ExProof(ore_api::state::Proof);

#[verifier::external_type_specification]
#[verifier::external_body]
pub struct ExClock(solana_program::clock::Clock);

/// Why reading a record failed: the address has no account data, or the
/// data present does not decode as the expected record.
#[derive(Clone, Copy, Debug, PartialEq, Eq, Structural)]
pub enum FetchError {
    NotFound,
    DecodeError,
}

/// Whether the bytes decode as the global configuration record.
pub uninterp spec fn config_decodes(data: Seq<u8>) -> bool;

/// Whether the bytes decode as the global treasury record.
pub uninterp spec fn treasury_decodes(data: Seq<u8>) -> bool;

/// Whether the bytes decode as a per-authority proof record.
pub uninterp spec fn proof_decodes(data: Seq<u8>) -> bool;

/// Whether the bytes decode as the network clock record.
pub uninterp spec fn clock_decodes(data: Seq<u8>) -> bool;

/// Relies on ore_api's configuration account parser (steel's
/// `AccountDeserialize::try_from_bytes` for `Config`): it accepts a buffer
/// only when its first byte is the record's tag and its tail reinterprets as
/// the record, so acceptance implies that the bytes decode. Whether a
/// decodable buffer is accepted can also depend on the buffer's in-memory
/// placement, so only that direction is stated. The parser indexes the first
/// byte and the ninth onward, hence the length bound.
#[verifier::external_body]
fn decode_config(data: &[u8]) -> (r: Option<ore_api::state::Config>)
    requires
        data@.len() >= 8,
    ensures
        r is Some ==> config_decodes(data@),
{
    match <ore_api::state::Config as steel::AccountDeserialize>::try_from_bytes(data) {
        Ok(c) => Some(*c),
        Err(_) => None,
    }
}

/// Relies on ore_api's treasury account parser (steel's
/// `AccountDeserialize::try_from_bytes` for `Treasury`). The treasury record
/// is zero-sized, so the tail cast's alignment check cannot fail and
/// acceptance is a pure function of the bytes (the tag byte and the exact
/// length); both directions are stated. The parser indexes the first byte
/// and the ninth onward, hence the length bound.
#[verifier::external_body]
fn decode_treasury(data: &[u8]) -> (r: Option<ore_api::state::Treasury>)
    requires
        data@.len() >= 8,
    ensures
        r is Some <==> treasury_decodes(data@),
{
    match <ore_api::state::Treasury as steel::AccountDeserialize>::try_from_bytes(data) {
        Ok(t) => Some(*t),
        Err(_) => None,
    }
}

/// Relies on ore_api's proof account parser (steel's
/// `AccountDeserialize::try_from_bytes` for `Proof`), under the same reading
/// as the configuration parser: acceptance implies that the bytes decode,
/// and at least eight bytes are required.
#[verifier::external_body]
fn decode_proof(data: &[u8]) -> (r: Option<ore_api::state::Proof>)
    requires
        data@.len() >= 8,
    ensures
        r is Some ==> proof_decodes(data@),
{
    match <ore_api::state::Proof as steel::AccountDeserialize>::try_from_bytes(data) {
        Ok(p) => Some(*p),
        Err(_) => None,
    }
}

/// Relies on bincode::deserialize for the network clock record: a
/// deterministic function of the bytes alone, which reports failure as an
/// error value on every input.
#[verifier::external_body]
fn decode_clock(data: &[u8]) -> (r: Option<solana_program::clock::Clock>)
    ensures
        r is Some <==> clock_decodes(data@),
{
    bincode::deserialize::<solana_program::clock::Clock>(data).ok()
}

/// Turns a decoder's answer for data that was present into the reader's
/// result: the record exactly when the decoder produced one, and
/// `DecodeError` exactly when it did not.
pub fn decoded_to_result<T>(decoded: Option<T>) -> (r: Result<T, FetchError>)
    ensures
        decoded matches Some(v) ==> r == Ok::<T, FetchError>(v),
        decoded is None ==> r == Err::<T, FetchError>(FetchError::DecodeError),
{
    match decoded {
        Some(v) => Ok(v),
        None => Err(FetchError::DecodeError),
    }
}

/// Decodes the store's answer for the global configuration record. Nothing
/// at the address is `NotFound`, exactly; bytes that do not decode are
/// `DecodeError`; a record is returned only for bytes that decode.
pub fn get_config(reply: Option<Vec<u8>>) -> (r: Result<ore_api::state::Config, FetchError>)
    ensures
        (reply is None) <==> r == Err::<ore_api::state::Config, FetchError>(FetchError::NotFound),
        r is Ok ==> (reply matches Some(d) && d@.len() >= 8 && config_decodes(d@)),
        (reply matches Some(d) && (d@.len() < 8 || !config_decodes(d@))) ==> r == Err::<
            ore_api::state::Config,
            FetchError,
        >(FetchError::DecodeError),
{
    match reply {
        None => Err(FetchError::NotFound),
        Some(data) => {
            if data.len() < 8 {
                Err(FetchError::DecodeError)
            } else {
                decoded_to_result(decode_config(data.as_slice()))
            }
        },
    }
}

/// Decodes the store's answer for the global treasury record. Nothing at
/// the address is `NotFound`, exactly; otherwise the record is returned
/// exactly when the bytes decode, and `DecodeError` exactly when they do
/// not.
pub fn _get_treasury(reply: Option<Vec<u8>>) -> (r: Result<ore_api::state::Treasury, FetchError>)
    ensures
        (reply is None) <==> r == Err::<ore_api::state::Treasury, FetchError>(FetchError::NotFound),
        (r is Ok) <==> (reply matches Some(d) && d@.len() >= 8 && treasury_decodes(d@)),
        (reply matches Some(d) && (d@.len() < 8 || !treasury_decodes(d@))) ==> r == Err::<
            ore_api::state::Treasury,
            FetchError,
        >(FetchError::DecodeError),
{
    match reply {
        None => Err(FetchError::NotFound),
        Some(data) => {
            if data.len() < 8 {
                Err(FetchError::DecodeError)
            } else {
                decoded_to_result(decode_treasury(data.as_slice()))
            }
        },
    }
}

/// Decodes the store's answer for a per-authority proof record, with the
/// same failure contract as [`get_config`].
pub fn get_proof(reply: Option<Vec<u8>>) -> (r: Result<ore_api::state::Proof, FetchError>)
    ensures
        (reply is None) <==> r == Err::<ore_api::state::Proof, FetchError>(FetchError::NotFound),
        r is Ok ==> (reply matches Some(d) && d@.len() >= 8 && proof_decodes(d@)),
        (reply matches Some(d) && (d@.len() < 8 || !proof_decodes(d@))) ==> r == Err::<
            ore_api::state::Proof,
            FetchError,
        >(FetchError::DecodeError),
{
    match reply {
        None => Err(FetchError::NotFound),
        Some(data) => {
            if data.len() < 8 {
                Err(FetchError::DecodeError)
            } else {
                decoded_to_result(decode_proof(data.as_slice()))
            }
        },
    }
}

/// Decodes the store's answer for the network clock record. Nothing at the
/// address is `NotFound`, exactly; otherwise the record is returned exactly
/// when the bytes decode, and `DecodeError` exactly when they do not.
pub fn get_clock(reply: Option<Vec<u8>>) -> (r: Result<solana_program::clock::Clock, FetchError>)
    ensures
        (reply is None) <==> r == Err::<solana_program::clock::Clock, FetchError>(
            FetchError::NotFound,
        ),
        (r is Ok) <==> (reply matches Some(d) && clock_decodes(d@)),
        (reply matches Some(d) && !clock_decodes(d@)) <==> r == Err::<
            solana_program::clock::Clock,
            FetchError,
        >(FetchError::DecodeError),
{
    match reply {
        None => Err(FetchError::NotFound),
        Some(data) => {
            decoded_to_result(decode_clock(data.as_slice()))
        },
    }
}

} // verus!
