//! Provisioning of network credentials for a device that does not yet know
//! which wireless network to join.
//!
//! The library holds the decisions: whether stored credentials are used or a
//! provisioning session is entered, what a session does tick by tick, how the
//! link is kept up afterwards, and the mailboxes through which the tasks of a
//! session talk to each other. Radio, timers, sockets and flash belong to the
//! caller, who does what a decision asks for and reports what happened.

use vstd::prelude::*;

pub mod bluetooth;
pub mod coordinator;
pub mod http_server;
pub mod nvs;
pub mod orchestrator;
pub mod signals;
pub mod structs;
pub mod submission;
pub mod supervisor;
pub mod text;
pub mod utils;

pub use crate::nvs::NvsWifiHelper;
pub use crate::structs::AutoSetupSettings;
pub use crate::structs::WmError;
pub use crate::structs::WmSettings;

verus! {

/// Namespace under which the credentials are persisted.
pub const NAMESPACE_WIFI: &'static str = "WIFI";

/// Key of the persisted network identifier.
pub const KEY_SSID: &'static str = "SSID";

/// Key of the persisted secret.
pub const KEY_PASSWORD: &'static str = "PASSWORD";

/// The namespace and the two keys are accepted by the store, and the keys
/// differ.
pub proof fn lemma_store_keys()
    ensures
        crate::nvs::valid_key(NAMESPACE_WIFI@),
        crate::nvs::valid_key(KEY_SSID@),
        crate::nvs::valid_key(KEY_PASSWORD@),
        KEY_SSID@ != KEY_PASSWORD@,
{
    reveal_strlit("WIFI");
    reveal_strlit("SSID");
    reveal_strlit("PASSWORD");
    assert(KEY_SSID@.len() == 4);
    assert(KEY_PASSWORD@.len() == 8);
}

/// The credentials that the store holds: both items are there and neither is
/// empty.
pub open spec fn stored_credentials(nvs: &NvsWifiHelper) -> Option<structs::Credentials> {
    match (nvs.stored(NAMESPACE_WIFI@, KEY_SSID@), nvs.stored(NAMESPACE_WIFI@, KEY_PASSWORD@)) {
        (Some(network_id), Some(secret)) => if network_id.len() > 0 && secret.len() > 0 {
            Some(structs::Credentials { network_id, secret })
        } else {
            None
        },
        _ => None,
    }
}

/// A store from which the two parts of some credentials are read holds those
/// credentials, as long as neither part is empty; with an empty part it holds
/// none.
pub proof fn lemma_persisted_credentials_are_stored(nvs: NvsWifiHelper, credentials: structs::Credentials)
    requires
        nvs.stored(NAMESPACE_WIFI@, KEY_SSID@) == Some(credentials.network_id),
        nvs.stored(NAMESPACE_WIFI@, KEY_PASSWORD@) == Some(credentials.secret),
    ensures
        credentials.storable() ==> stored_credentials(&nvs) == Some(credentials),
        !credentials.storable() ==> stored_credentials(&nvs) is None,
{
}

/// On a store in order, writing the two parts of some credentials leaves
/// both to be read, whatever the store held before.
pub proof fn lemma_written_credentials_are_read(
    before: NvsWifiHelper,
    after: NvsWifiHelper,
    credentials: structs::Credentials,
)
    requires
        after@ == before@.insert((NAMESPACE_WIFI@, KEY_SSID@), credentials.network_id).insert(
            (NAMESPACE_WIFI@, KEY_PASSWORD@),
            credentials.secret,
        ),
    ensures
        after.stored(NAMESPACE_WIFI@, KEY_SSID@) == Some(credentials.network_id),
        after.stored(NAMESPACE_WIFI@, KEY_PASSWORD@) == Some(credentials.secret),
{
    lemma_store_keys();
}

/// A store from which neither part of the credentials is read holds none.
pub proof fn lemma_cleared_store_holds_none(nvs: NvsWifiHelper)
    requires
        nvs.stored(NAMESPACE_WIFI@, KEY_SSID@) is None,
        nvs.stored(NAMESPACE_WIFI@, KEY_PASSWORD@) is None,
    ensures
        stored_credentials(&nvs) is None,
{
}

/// The credentials that two strings read from the store make: both have to be
/// there, and an empty one counts as absent.
pub fn wifi_settings_from(ssid: String, password: String) -> (r: Option<AutoSetupSettings>)
    ensures
        ssid@.len() > 0 && password@.len() > 0 ==> (r matches Some(c) && c.ssid == ssid && c.psk == password),
        ssid@.len() == 0 || password@.len() == 0 ==> r is None,
{
    if ssid.as_str().is_empty() || password.as_str().is_empty() {
        None
    } else {
        Some(AutoSetupSettings { ssid, psk: password })
    }
}

/// Reads the stored credentials.
///
/// They come back exactly where the store holds both items and neither is
/// empty; an item that is missing or empty makes the credentials count as
/// absent. Reading changes no item.
pub fn get_wifi_settings(nvs: &mut NvsWifiHelper) -> (r: Option<AutoSetupSettings>)
    ensures
        final(nvs)@ == old(nvs)@,
        final(nvs).in_order() == old(nvs).in_order(),
        final(nvs).pages() == old(nvs).pages(),
        final(nvs).sequence_bound() == old(nvs).sequence_bound(),
        match stored_credentials(old(nvs)) {
            Some(c) => r matches Some(read) && read@ == c,
            None => r is None,
        },
{
    proof {
        lemma_store_keys();
    }
    let ssid = match nvs.get_str(NAMESPACE_WIFI, KEY_SSID) {
        Ok(ssid) => ssid,
        Err(_) => String::new(),
    };
    let password = match nvs.get_str(NAMESPACE_WIFI, KEY_PASSWORD) {
        Ok(password) => password,
        Err(_) => String::new(),
    };
    wifi_settings_from(ssid, password)
}

/// The second step of deleting the stored credentials, given what the
/// deletion of the identifier came to.
///
/// Where that failed, its failure is handed on and the store is not touched.
/// Else the secret is deleted: the step succeeds exactly where the store
/// takes the deletion and no secret is read afterwards, and what is stored
/// under any other key is as before.
pub fn clear_secret(identifier: Result<(), WmError>, nvs: &mut NvsWifiHelper) -> (r: Result<(), WmError>)
    ensures
        final(nvs).pages() == old(nvs).pages(),
        final(nvs).sequence_bound() == old(nvs).sequence_bound(),
        identifier is Err ==> r == identifier && *final(nvs) == *old(nvs),
        identifier is Ok ==> (r is Ok <==> old(nvs).drops(NAMESPACE_WIFI@, KEY_PASSWORD@) && final(nvs).stored(
            NAMESPACE_WIFI@,
            KEY_PASSWORD@,
        ) is None),
        identifier is Ok ==> crate::nvs::same_under_other_keys(final(nvs)@, old(nvs)@, KEY_PASSWORD@),
        identifier is Ok && r is Ok && old(nvs).in_order() ==> final(nvs).in_order(),
        identifier is Ok && r is Ok && old(nvs).in_order() ==> final(nvs)@ == old(nvs)@.remove(
            (NAMESPACE_WIFI@, KEY_PASSWORD@),
        ),
        identifier is Ok ==> (r matches Err(e) ==> e is NvsError),
{
    proof {
        lemma_store_keys();
    }
    match identifier {
        Ok(_) => nvs.delete(NAMESPACE_WIFI, KEY_PASSWORD),
        Err(e) => Err(e),
    }
}

/// Deletes the stored credentials: first the identifier, then the secret.
///
/// Success means that neither item is read any more; on a store in order
/// every other item is then as before. A deletion that fails ends the call
/// with `WmError::NvsError`: after a failure on the identifier the secret is
/// as it was, and after one on the secret the identifier is gone. Items
/// under other keys are never touched.
pub fn clear_wifi(nvs: &mut NvsWifiHelper) -> (r: Result<(), WmError>)
    ensures
        final(nvs).pages() == old(nvs).pages(),
        final(nvs).sequence_bound() == old(nvs).sequence_bound(),
        r is Ok ==> old(nvs).drops(NAMESPACE_WIFI@, KEY_SSID@),
        r is Ok ==> final(nvs).stored(NAMESPACE_WIFI@, KEY_SSID@) is None,
        r is Ok ==> final(nvs).stored(NAMESPACE_WIFI@, KEY_PASSWORD@) is None,
        r is Ok ==> stored_credentials(final(nvs)) is None,
        r is Ok && old(nvs).in_order() ==> final(nvs).in_order(),
        r is Ok && old(nvs).in_order() ==> final(nvs)@ == old(nvs)@.remove((NAMESPACE_WIFI@, KEY_SSID@)).remove(
            (NAMESPACE_WIFI@, KEY_PASSWORD@),
        ),
        r matches Err(e) ==> e is NvsError,
        r is Err ==> {
            ||| final(nvs).stored(NAMESPACE_WIFI@, KEY_PASSWORD@) == old(nvs).stored(NAMESPACE_WIFI@, KEY_PASSWORD@)
            ||| final(nvs).stored(NAMESPACE_WIFI@, KEY_SSID@) is None
        },
        forall|n: Seq<char>, k: Seq<char>|
            crate::nvs::valid_key(n) && crate::nvs::valid_key(k) && k != KEY_SSID@ && k != KEY_PASSWORD@
                ==> #[trigger] final(nvs).stored(n, k) == old(nvs).stored(n, k),
{
    proof {
        lemma_store_keys();
    }
    let identifier = nvs.delete(NAMESPACE_WIFI, KEY_SSID);
    clear_secret(identifier, nvs)
}

} // verus!
