//! JSON text the bridge exchanges as plain strings and string lists: decoding
//! its replies, and encoding the lists it is handed.

use vstd::prelude::*;

use crate::error::AVPlayerError;
use crate::text::nat_digits;
use crate::player_interstitial_event::json_error_text;
use crate::player_media_selection_criteria::{
    characteristic_names_spec, media_characteristic_names, media_characteristics_from_raw_list,
    MediaCharacteristic,
};

verus! {

/// Whether `serde_json::from_str::<String>` accepts `text`: a JSON string.
pub uninterp spec fn json_string_parses(text: Seq<char>) -> bool;

/// The string `serde_json::from_str::<String>` decodes `text` into, where it
/// accepts the text.
pub uninterp spec fn json_string_of(text: Seq<char>) -> Seq<char>;

/// Whether `serde_json::from_str::<Vec<String>>` accepts `text`: a JSON array
/// of strings.
pub uninterp spec fn json_string_list_parses(text: Seq<char>) -> bool;

/// The strings `serde_json::from_str::<Vec<String>>` decodes `text` into, in
/// order, where it accepts the text.
pub uninterp spec fn json_string_list_of(text: Seq<char>) -> Seq<Seq<char>>;

/// The JSON text `serde_json::to_string` writes for a list of strings.
pub uninterp spec fn json_text_of_strings(items: Seq<Seq<char>>) -> Seq<char>;

/// The numbers of a list in decimal, separated by commas.
pub open spec fn decimals_joined(items: Seq<u32>) -> Seq<char>
    decreases items.len(),
{
    if items.len() == 0 {
        Seq::empty()
    } else if items.len() == 1 {
        nat_digits(items[0] as nat)
    } else {
        decimals_joined(items.drop_last()) + ","@ + nat_digits(items.last() as nat)
    }
}

/// The JSON text `serde_json::to_string` writes for a list of `u32` numbers:
/// the decimals between brackets, separated by commas, without spaces.
pub open spec fn json_text_of_u32s(items: Seq<u32>) -> Seq<char> {
    "["@ + decimals_joined(items) + "]"@
}

/// The views of a list of strings.
pub open spec fn string_views(items: Seq<String>) -> Seq<Seq<char>> {
    items.map_values(|s: String| s@)
}

/// Decodes a JSON string (`serde_json::from_str::<String>`).
///
/// Trusted: the call succeeds exactly on the texts serde_json accepts as a
/// string, and then returns the string named [`json_string_of`] for the text.
#[verifier::external_body]
fn parse_json_string(text: &str) -> (r: Result<String, serde_json::Error>)
    ensures
        r is Ok <==> json_string_parses(text@),
        r is Ok ==> r->Ok_0@ == json_string_of(text@),
{
    serde_json::from_str::<String>(text)
}

/// Decodes a JSON array of strings (`serde_json::from_str::<Vec<String>>`).
///
/// Trusted: the call succeeds exactly on the texts serde_json accepts as an
/// array of strings, and then returns the strings named [`json_string_list_of`].
#[verifier::external_body]
fn parse_json_string_list(text: &str) -> (r: Result<Vec<String>, serde_json::Error>)
    ensures
        r is Ok <==> json_string_list_parses(text@),
        r is Ok ==> string_views(r->Ok_0@) == json_string_list_of(text@),
{
    serde_json::from_str::<Vec<String>>(text)
}

/// Encodes a list of strings as JSON (`serde_json::to_string`).
///
/// Trusted: serde_json documents that serialization fails only when a value's
/// `Serialize` fails or a map has non-string keys, neither of which a list of
/// strings can do; so the call succeeds, with the text named
/// [`json_text_of_strings`] for the strings.
#[verifier::external_body]
fn encode_json_string_list(items: &Vec<String>) -> (r: Result<String, serde_json::Error>)
    ensures
        r is Ok,
        r->Ok_0@ == json_text_of_strings(string_views(items@)),
{
    serde_json::to_string(items)
}

/// Encodes a list of numbers as JSON (`serde_json::to_string`).
///
/// Trusted: a list of `u32` cannot fail to serialize (serde_json fails only on
/// a failing `Serialize` or a map with non-string keys), and serde_json writes
/// it compactly as [`json_text_of_u32s`] describes.
#[verifier::external_body]
fn encode_json_u32_list(items: &Vec<u32>) -> (r: Result<String, serde_json::Error>)
    ensures
        r is Ok,
        r->Ok_0@ == json_text_of_u32s(items@),
{
    serde_json::to_string(items)
}

/// The prefix of the error reported for a bridge reply that does not decode.
pub open spec fn bridge_json_error_prefix() -> Seq<char> {
    "failed to decode bridge JSON: "@
}

/// `e` is the error for a reply that does not decode: `OperationFailed`, with
/// a message that starts with [`bridge_json_error_prefix`].
pub open spec fn is_bridge_json_error(e: AVPlayerError) -> bool {
    &&& e is OperationFailed
    &&& e.message_of().len() >= bridge_json_error_prefix().len()
    &&& e.message_of().subrange(0, bridge_json_error_prefix().len() as int) == bridge_json_error_prefix()
}

fn bridge_json_error(error: &serde_json::Error) -> (e: AVPlayerError)
    ensures
        is_bridge_json_error(e),
{
    let message = "failed to decode bridge JSON: ".to_owned().concat(json_error_text(error).as_str());
    proof {
        assert(message@.subrange(0, bridge_json_error_prefix().len() as int) =~= bridge_json_error_prefix());
    }
    AVPlayerError::OperationFailed(message)
}

/// Decodes a bridge reply that holds one JSON string.
pub fn decode_bridge_string(json: &str) -> (r: Result<String, AVPlayerError>)
    ensures
        json_string_parses(json@) ==> r is Ok && r->Ok_0@ == json_string_of(json@),
        !json_string_parses(json@) ==> r is Err && is_bridge_json_error(r->Err_0),
{
    match parse_json_string(json) {
        Ok(s) => Ok(s),
        Err(error) => Err(bridge_json_error(&error)),
    }
}

/// Decodes a bridge reply that holds a JSON array of strings.
pub fn decode_bridge_string_list(json: &str) -> (r: Result<Vec<String>, AVPlayerError>)
    ensures
        json_string_list_parses(json@) ==> r is Ok && string_views(r->Ok_0@) == json_string_list_of(json@),
        !json_string_list_parses(json@) ==> r is Err && is_bridge_json_error(r->Err_0),
{
    match parse_json_string_list(json) {
        Ok(list) => Ok(list),
        Err(error) => Err(bridge_json_error(&error)),
    }
}

/// Decodes a bridge reply that lists media characteristics by raw name, in
/// order.
pub fn media_characteristics_from_bridge_json(json: &str) -> (r: Result<Vec<MediaCharacteristic>, AVPlayerError>)
    ensures
        json_string_list_parses(json@) ==> r is Ok && characteristic_names_spec(r->Ok_0@) == json_string_list_of(json@)
            && forall|i: int| 0 <= i < r->Ok_0@.len() ==> (#[trigger] r->Ok_0@[i]).is_canonical(),
        !json_string_list_parses(json@) ==> r is Err && is_bridge_json_error(r->Err_0),
{
    match decode_bridge_string_list(json) {
        Ok(list) => {
            let ghost names = string_views(list@);
            let out = media_characteristics_from_raw_list(Some(list));
            proof {
                assert(characteristic_names_spec(out@) =~= names);
            }
            Ok(out)
        },
        Err(e) => Err(e),
    }
}

/// Encodes a list of strings as JSON for the bridge.
pub fn encode_string_list(items: &Vec<String>) -> (r: String)
    ensures
        r@ == json_text_of_strings(string_views(items@)),
{
    encode_json_string_list(items).unwrap()
}

/// Encodes a list of numbers as JSON for the bridge.
pub fn encode_u32_list(items: &Vec<u32>) -> (r: String)
    ensures
        r@ == json_text_of_u32s(items@),
{
    encode_json_u32_list(items).unwrap()
}

/// The raw names of characteristics as the JSON text the bridge reads.
fn encode_characteristics(characteristics: &[MediaCharacteristic]) -> (r: String)
    ensures
        r@ == json_text_of_strings(characteristic_names_spec(characteristics@)),
{
    let names = media_characteristic_names(characteristics);
    proof {
        assert(string_views(names@) =~= characteristic_names_spec(characteristics@));
    }
    encode_string_list(&names)
}

/// The three JSON arguments of new media-selection criteria: the preferred
/// languages, the raw names of the preferred characteristics, and those of the
/// principal characteristics, absent when there are none.
pub fn media_selection_criteria_arguments(
    principal_media_characteristics: &[MediaCharacteristic],
    preferred_languages: &Vec<String>,
    preferred_media_characteristics: &[MediaCharacteristic],
) -> (r: (String, String, Option<String>))
    ensures
        r.0@ == json_text_of_strings(string_views(preferred_languages@)),
        r.1@ == json_text_of_strings(characteristic_names_spec(preferred_media_characteristics@)),
        r.2 is None <==> principal_media_characteristics@.len() == 0,
        r.2 is Some ==> r.2->0@ == json_text_of_strings(characteristic_names_spec(principal_media_characteristics@)),
{
    let languages = encode_string_list(preferred_languages);
    let preferred = encode_characteristics(preferred_media_characteristics);
    let principal = if principal_media_characteristics.len() == 0 {
        None
    } else {
        Some(encode_characteristics(principal_media_characteristics))
    };
    (languages, preferred, principal)
}

/// The two JSON arguments of a new metadata collector: the identifiers and the
/// classifying labels, each absent when not given.
pub fn metadata_collector_arguments(identifiers: Option<&Vec<String>>, classifying_labels: Option<&Vec<String>>) -> (r:
    (Option<String>, Option<String>))
    ensures
        r.0 is None <==> identifiers is None,
        r.0 is Some ==> r.0->0@ == json_text_of_strings(string_views(identifiers->0@)),
        r.1 is None <==> classifying_labels is None,
        r.1 is Some ==> r.1->0@ == json_text_of_strings(string_views(classifying_labels->0@)),
{
    let ids = match identifiers {
        Some(values) => Some(encode_string_list(values)),
        None => None,
    };
    let labels = match classifying_labels {
        Some(values) => Some(encode_string_list(values)),
        None => None,
    };
    (ids, labels)
}

} // verus!
