//! The saved form of the map: one binary snapshot, written and read with
//! `bincode`.

use crate::error::Error;
use crate::urls::table::{distinct_keys, map_of_entries, UrlsToMime};
use std::collections::HashMap;
use vstd::prelude::*;

verus! {

/// The error of `bincode`, carried from the call to where its text is read.
#[verifier::external_type_specification]
#[verifier::external_body]
pub struct ExErrorKind(bincode::ErrorKind);

/// What `bincode::deserialize` reads out of `bytes` as a
/// `HashMap<String, String>`: the map, or `None` where it reports an error.
pub uninterp spec fn snapshot_decoded(bytes: Seq<u8>) -> Option<Map<Seq<char>, Seq<char>>>;

/// Calls `bincode::deserialize` for a `HashMap<String, String>` and lists
/// the entries of the map it returns, in no particular order. The contract
/// names the map that the call reads out of `bytes` and says that the list
/// holds each of its entries once.
#[verifier::external_body]
fn deserialize_entries(bytes: &[u8]) -> (decoded: Result<
    Vec<(String, String)>,
    Box<bincode::ErrorKind>,
>)
    ensures
        match decoded {
            Ok(entries) => distinct_keys(entries@) && snapshot_decoded(bytes@) == Some(
                map_of_entries(entries@),
            ),
            Err(_) => snapshot_decoded(bytes@) is None,
        },
{
    let map: HashMap<String, String> = bincode::deserialize(bytes)?;
    Ok(map.into_iter().collect())
}

/// Calls `bincode::serialize` on the `HashMap` made of `entries`. The
/// contract claims the round trip: bytes that the call returns are read
/// back by `bincode::deserialize` as the same map. It does not claim that
/// the call succeeds.
#[verifier::external_body]
fn serialize_entries(entries: &Vec<(String, String)>) -> (encoded: Result<
    Vec<u8>,
    Box<bincode::ErrorKind>,
>)
    requires
        distinct_keys(entries@),
    ensures
        encoded matches Ok(bytes) ==> snapshot_decoded(bytes@) == Some(map_of_entries(entries@)),
{
    let map: HashMap<&String, &String> = entries.iter().map(|entry| (&entry.0, &entry.1)).collect();
    bincode::serialize(&map)
}

/// The text that a `bincode` error displays as. Nothing is claimed of it.
#[verifier::external_body]
fn error_text(error: &bincode::ErrorKind) -> String {
    error.to_string()
}

impl UrlsToMime {
    /// Decodes a snapshot. Succeeds exactly on the byte strings that
    /// `bincode` reads as a map from string to string, with that map.
    pub fn from_bytes(bytes: &[u8]) -> (decoded: Result<UrlsToMime, Error>)
        ensures
            match decoded {
                Ok(table) => snapshot_decoded(bytes@) == Some(table@),
                Err(_) => snapshot_decoded(bytes@) is None,
            },
    {
        match deserialize_entries(bytes) {
            Ok(entries) => Ok(UrlsToMime::from_entries(entries)),
            Err(error) => Err(Error::Generic(error_text(&*error))),
        }
    }

    /// Encodes the map as a snapshot. Where `bincode` produces bytes, they
    /// decode to this map again; where it fails, its message is returned.
    pub fn to_bytes(&self) -> (encoded: Result<Vec<u8>, Error>)
        ensures
            encoded matches Ok(bytes) ==> snapshot_decoded(bytes@) == Some(self@),
    {
        let entries = self.entries();
        encoded_or_error(serialize_entries(&entries))
    }
}

/// What an encoding amounts to, given what `bincode` made of it: the bytes
/// as they are, or the failure with the text of `bincode`'s error.
pub fn encoded_or_error(outcome: Result<Vec<u8>, Box<bincode::ErrorKind>>) -> (encoded: Result<
    Vec<u8>,
    Error,
>)
    ensures
        match outcome {
            Ok(bytes) => encoded == Ok::<Vec<u8>, Error>(bytes),
            Err(_) => encoded is Err,
        },
{
    match outcome {
        Ok(bytes) => Ok(bytes),
        Err(error) => Err(Error::Generic(error_text(&*error))),
    }
}

/// What a finished read of the backing file amounts to. `contents` holds
/// the bytes of the file, or `None` where it could not be opened or read.
/// The result is the map in the file; it is `None`, as for a first start,
/// where there are no bytes or they do not decode.
pub fn read_from_disk(contents: Option<&[u8]>) -> (loaded: Option<UrlsToMime>)
    ensures
        match loaded {
            Some(table) => contents matches Some(bytes) && snapshot_decoded(bytes@) == Some(
                table@,
            ),
            None => contents matches Some(bytes) ==> snapshot_decoded(bytes@) is None,
        },
{
    match contents {
        Some(bytes) => match UrlsToMime::from_bytes(bytes) {
            Ok(table) => Some(table),
            Err(_) => None,
        },
        None => None,
    }
}

} // verus!
