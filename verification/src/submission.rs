//! Decoding of a submitted payload into credentials.
//!
//! A submission is a JSON object whose members `ssid` and `psk` are strings;
//! other members are ignored.

use crate::structs::AutoSetupSettings;
use crate::structs::Credentials;
use crate::structs::WmError;
use vstd::prelude::*;

verus! {

/// Name of the member that holds the network identifier.
pub const FIELD_SSID: &'static str = "ssid";

/// Name of the member that holds the secret.
pub const FIELD_PSK: &'static str = "psk";

/// One member of a JSON object: its name, and its value where that is a string.
pub type Member = (String, Option<String>);

/// Mathematical value of the members of an object.
pub type Members = Seq<(Seq<char>, Option<Seq<char>>)>;

/// The members of the JSON object that a payload holds, in the order of their
/// names; `None` where the payload is no JSON object.
pub uninterp spec fn json_object(payload: Seq<u8>) -> Option<Members>;

/// `serde_json::from_slice` into a map from names to `serde_json::Value`,
/// handed out in the order of the names, each value through
/// `serde_json::Value::as_str`.
#[verifier::external_body]
fn json_members(payload: &[u8]) -> (r: Result<Vec<Member>, serde_json::Error>)
    ensures
        r matches Ok(members) ==> json_object(payload@) == Some(members.deep_view()),
        r is Err ==> json_object(payload@) is None,
{
    let object = serde_json::from_slice::<std::collections::BTreeMap<String, serde_json::Value>>(payload)?;
    Ok(object.into_iter().map(|(name, value)| (name, value.as_str().map(String::from))).collect())
}

/// `serde::de::Error::missing_field` of `serde_json::Error`.
#[verifier::external_body]
fn json_missing_field(name: &'static str) -> serde_json::Error {
    <serde_json::Error as serde::de::Error>::missing_field(name)
}

/// Whether `i` is the first member called `name`.
pub open spec fn is_first_named(members: Members, name: Seq<char>, i: int) -> bool {
    &&& 0 <= i < members.len()
    &&& members[i].0 == name
    &&& forall|j: int| 0 <= j < i ==> members[j].0 != name
}

/// Whether no member is called `name`.
pub open spec fn none_named(members: Members, name: Seq<char>) -> bool {
    forall|j: int| 0 <= j < members.len() ==> members[j].0 != name
}

/// The string value of the first member called `name`.
pub open spec fn member_text(members: Members, name: Seq<char>) -> Option<Seq<char>> {
    if exists|i: int| is_first_named(members, name, i) {
        members[choose|i: int| is_first_named(members, name, i)].1
    } else {
        None
    }
}

/// The JSON text of the object with the given string members.
pub uninterp spec fn json_text(members: Seq<(Seq<char>, Seq<char>)>) -> Seq<u8>;

/// `serde_json::to_vec` of a `serde_json::Map` of two members with string
/// values. It fails only on a value that refuses to be written or on a map
/// whose keys are no strings, and this map is neither: the text always comes
/// back. Read as an object again, the text gives each value under its name.
#[verifier::external_body]
fn json_pair_to_vec(
    first_name: &str,
    first: &str,
    second_name: &str,
    second: &str,
) -> (r: Result<Vec<u8>, serde_json::Error>)
    requires
        first_name@ != second_name@,
    ensures
        r is Ok,
        r matches Ok(bytes) ==> bytes@ == json_text(seq![(first_name@, first@), (second_name@, second@)]),
        r matches Ok(bytes) ==> json_object(bytes@) is Some,
        r matches Ok(bytes) ==> member_text(json_object(bytes@)->Some_0, first_name@) == Some(first@),
        r matches Ok(bytes) ==> member_text(json_object(bytes@)->Some_0, second_name@) == Some(second@),
{
    let mut object = serde_json::Map::new();
    object.insert(first_name.to_owned(), serde_json::Value::String(first.to_owned()));
    object.insert(second_name.to_owned(), serde_json::Value::String(second.to_owned()));
    serde_json::to_vec(&object)
}

/// The credentials that an object's members spell out.
pub open spec fn credentials_of(members: Members) -> Option<Credentials> {
    match (member_text(members, FIELD_SSID@), member_text(members, FIELD_PSK@)) {
        (Some(network_id), Some(secret)) => Some(Credentials { network_id, secret }),
        _ => None,
    }
}

/// The credentials that a payload decodes to: it is a JSON object with string
/// members `ssid` and `psk`, and both fit the radio's limits.
pub open spec fn decoded(payload: Seq<u8>) -> Option<Credentials> {
    match json_object(payload) {
        Some(members) => match credentials_of(members) {
            Some(c) => if c.fits_radio() {
                Some(c)
            } else {
                None
            },
            None => None,
        },
        None => None,
    }
}

/// The string value of the first member called `name`.
pub fn find_member(members: &Vec<Member>, name: &str) -> (r: Option<String>)
    ensures
        r.deep_view() == member_text(members.deep_view(), name@),
{
    let wanted = name.to_owned();
    let mut i: usize = 0;
    while i < members.len()
        invariant
            i <= members@.len(),
            wanted@ == name@,
            members.deep_view().len() == members@.len(),
            forall|j: int| 0 <= j < i ==> members.deep_view()[j].0 != name@,
        decreases members@.len() - i,
    {
        assert(members.deep_view()[i as int] == members@[i as int].deep_view());
        if members[i].0 == wanted {
            assert(is_first_named(members.deep_view(), name@, i as int));
            proof {
                let found = choose|k: int| is_first_named(members.deep_view(), name@, k);
                assert(found == i);
            }
            let value = match &members[i].1 {
                Some(text) => Some(text.clone()),
                None => None,
            };
            return value;
        }
        i = i + 1;
    }
    assert(none_named(members.deep_view(), name@));
    None
}

/// The credentials that an object's members spell out, within the radio's
/// limits.
///
/// Succeeds exactly when both members are strings and fit. A missing member,
/// or one that is no string, gives `WmError::SerdeError`; credentials that do
/// not fit give `WmError::Other`.
pub fn credentials_from_members(members: &Vec<Member>) -> (r: Result<AutoSetupSettings, WmError>)
    ensures
        match credentials_of(members.deep_view()) {
            Some(c) => if c.fits_radio() {
                r matches Ok(s) && s@ == c
            } else {
                r matches Err(WmError::Other)
            },
            None => r matches Err(WmError::SerdeError(_)),
        },
{
    let ssid = match find_member(members, FIELD_SSID) {
        Some(text) => text,
        None => {
            return Err(WmError::SerdeError(json_missing_field(FIELD_SSID)));
        },
    };
    let psk = match find_member(members, FIELD_PSK) {
        Some(text) => text,
        None => {
            return Err(WmError::SerdeError(json_missing_field(FIELD_PSK)));
        },
    };
    let settings = AutoSetupSettings { ssid, psk };
    match settings.to_client_conf() {
        Ok(_) => Ok(settings),
        Err(e) => Err(e),
    }
}

/// The payload that submits the given credentials.
pub open spec fn submission_text(ssid: Seq<char>, psk: Seq<char>) -> Seq<u8> {
    json_text(seq![(FIELD_SSID@, ssid), (FIELD_PSK@, psk)])
}

/// Whether a payload submits the given credentials: it is their text, and
/// read as an object it spells them out.
pub open spec fn submits(payload: Seq<u8>, ssid: Seq<char>, psk: Seq<char>) -> bool {
    &&& payload == submission_text(ssid, psk)
    &&& json_object(payload) matches Some(object) && credentials_of(object) == Some(
        Credentials { network_id: ssid, secret: psk },
    )
}

/// A payload that submits credentials decodes to them where they fit the
/// radio's limits, and to nothing where they do not.
pub proof fn lemma_submission_decodes(payload: Seq<u8>, ssid: Seq<char>, psk: Seq<char>)
    requires
        submits(payload, ssid, psk),
    ensures
        (Credentials { network_id: ssid, secret: psk }).fits_radio() ==> decoded(payload) == Some(
            Credentials { network_id: ssid, secret: psk },
        ),
        !(Credentials { network_id: ssid, secret: psk }).fits_radio() ==> decoded(payload) is None,
{
}

/// The two names of a submission's members differ.
pub proof fn lemma_field_names_differ()
    ensures
        FIELD_SSID@ != FIELD_PSK@,
{
    reveal_strlit("ssid");
    reveal_strlit("psk");
    assert(FIELD_SSID@.len() == 4);
    assert(FIELD_PSK@.len() == 3);
}

/// Encodes credentials as the payload that submits them. The encoding always
/// succeeds.
pub fn encode_submission(ssid: &str, psk: &str) -> (r: Result<Vec<u8>, WmError>)
    ensures
        r matches Ok(payload) && submits(payload@, ssid@, psk@),
{
    proof {
        lemma_field_names_differ();
    }
    match json_pair_to_vec(FIELD_SSID, ssid, FIELD_PSK, psk) {
        Ok(payload) => Ok(payload),
        Err(e) => Err(WmError::SerdeError(e)),
    }
}

/// Decodes a submitted payload.
///
/// Succeeds exactly when `decoded` gives credentials, and returns them. A
/// payload that is no JSON object with both string members gives
/// `WmError::SerdeError`; credentials that do not fit give `WmError::Other`.
pub fn decode_submission(payload: &[u8]) -> (r: Result<AutoSetupSettings, WmError>)
    ensures
        match decoded(payload@) {
            Some(c) => r matches Ok(s) && s@ == c,
            None => r is Err,
        },
        match json_object(payload@) {
            Some(members) => match credentials_of(members) {
                Some(c) => c.fits_radio() || r matches Err(WmError::Other),
                None => r matches Err(WmError::SerdeError(_)),
            },
            None => r matches Err(WmError::SerdeError(_)),
        },
{
    match json_members(payload) {
        Ok(members) => credentials_from_members(&members),
        Err(e) => Err(WmError::SerdeError(e)),
    }
}

} // verus!
