//! The short-range listener's share of a provisioning session: what it
//! advertises, what it shows of the last scan, and when a written text is a
//! submission.

use crate::http_server::encode_utf8_of;
use crate::http_server::form_value;
use crate::http_server::parse_form_data;
use crate::http_server::psk_name;
use crate::http_server::ssid_name;
use crate::signals::Subscription;
use crate::signals::WmInnerSignals;
use crate::submission::encode_submission;
use crate::submission::submits;
use crate::text::chars_of;
use vstd::prelude::*;
use vstd::string::StringSliceAdditionalSpecFns;
use vstd::utf8::decode_utf8_split;
use vstd::utf8::encode_utf8_decode_utf8;
use vstd::utf8::encode_utf8_valid_utf8;
use vstd::utf8::is_char_boundary;
use vstd::utf8::is_char_boundary_start_end_of_seq;

verus! {

/// Most bytes that an advertisement carries.
pub const ADVERTISEMENT_MAX: usize = 31;

/// Most bytes that the scan characteristic carries.
pub const SCAN_VALUE_MAX: usize = 512;

/// Flags of the advertisement: generally discoverable, no classic radio.
pub const ADVERTISEMENT_FLAGS: u8 = 0x06;

/// Short identifier of the provisioning service.
pub const SERVICE_ID: [u8; 2] = [0xf2, 0x54];

/// The bytes of an advertisement: the flags, one short service identifier
/// and the complete name, each behind its length and its kind.
pub open spec fn advertisement_of(flags: u8, service: Seq<u8>, name: Seq<u8>) -> Seq<u8> {
    seq![2u8, 1u8, flags] + seq![3u8, 2u8, service[0], service[1]] + seq![((name.len() + 1) % 256) as u8, 9u8] + name
}

/// `trouble_host::prelude::AdStructure::encode_slice` of the flags, a list of
/// one 16-bit service identifier and the complete local name, into a buffer
/// of `capacity` bytes. It succeeds exactly where the nine bytes around the
/// name and the name fit.
#[verifier::external_body]
fn ad_encode(flags: u8, service: [u8; 2], name: &[u8], capacity: usize) -> (r: Option<Vec<u8>>)
    requires
        capacity <= 255,
    ensures
        r is Some <==> name@.len() + 9 <= capacity,
        r matches Some(data) ==> data@ == advertisement_of(flags, service@, name@),
{
    let mut buffer = vec![0u8; capacity];
    let services = [service];
    let items = [
        trouble_host::prelude::AdStructure::Flags(flags),
        trouble_host::prelude::AdStructure::IncompleteServiceUuids16(&services),
        trouble_host::prelude::AdStructure::CompleteLocalName(name),
    ];
    let written = trouble_host::prelude::AdStructure::encode_slice(&items, &mut buffer[..]).ok()?;
    buffer.truncate(written);
    Some(buffer)
}

/// The advertisement under which the device offers itself; none where the
/// name is longer than 22 bytes.
pub fn advertise(name: &str) -> (r: Option<Vec<u8>>)
    ensures
        r is Some <==> encode_utf8_of(name@).len() <= 22,
        r matches Some(data) ==> data@ == advertisement_of(ADVERTISEMENT_FLAGS, SERVICE_ID@, encode_utf8_of(name@)),
{
    ad_encode(ADVERTISEMENT_FLAGS, SERVICE_ID, name.as_bytes(), ADVERTISEMENT_MAX)
}

/// Whether `cut` is where a text of the given bytes is cut to fit `limit`
/// bytes: the last character boundary within the limit.
pub open spec fn is_cut(bytes: Seq<u8>, limit: int, cut: int) -> bool {
    &&& 0 <= cut <= limit
    &&& cut <= bytes.len()
    &&& is_char_boundary(bytes, cut)
    &&& forall|j: int| cut < j <= limit && j <= bytes.len() ==> !is_char_boundary(bytes, j)
}

/// What the scan characteristic shows of a scan snapshot: the whole text
/// where it fits 512 bytes, else its beginning up to the last character that
/// fits.
pub fn gatt_events_task(wifis: &str) -> (r: &str)
    ensures
        is_cut(encode_utf8_of(wifis@), SCAN_VALUE_MAX as int, encode_utf8_of(r@).len() as int),
        encode_utf8_of(r@) == encode_utf8_of(wifis@).take(encode_utf8_of(r@).len() as int),
        r@ == wifis@.take(r@.len() as int),
        r@.len() <= wifis@.len(),
{
    let ghost bytes = encode_utf8_of(wifis@);
    proof {
        encode_utf8_valid_utf8(wifis@);
        is_char_boundary_start_end_of_seq(bytes);
    }
    let n = wifis.as_bytes().len();
    if n <= SCAN_VALUE_MAX {
        assert(bytes.take(n as int) =~= bytes);
        assert(wifis@.take(wifis@.len() as int) =~= wifis@);
        return wifis;
    }
    let mut k: usize = SCAN_VALUE_MAX;
    while !wifis.is_char_boundary(k)
        invariant
            k <= SCAN_VALUE_MAX < n,
            n == bytes.len(),
            bytes == wifis.spec_bytes(),
            is_char_boundary(bytes, 0),
            forall|j: int| k < j <= SCAN_VALUE_MAX ==> !is_char_boundary(bytes, j),
        decreases k,
    {
        k = k - 1;
    }
    let (head, tail) = wifis.split_at(k);
    assert(bytes.subrange(0, k as int) =~= bytes.take(k as int));
    proof {
        decode_utf8_split(bytes, k as int);
        encode_utf8_decode_utf8(wifis@);
        encode_utf8_decode_utf8(head@);
        encode_utf8_decode_utf8(tail@);
        assert(wifis@ == head@ + tail@);
        assert((head@ + tail@).take(head@.len() as int) =~= head@);
    }
    head
}

/// Whether a text written to the setup characteristic is complete: it ends
/// with a NUL.
pub open spec fn is_complete(setup: Seq<char>) -> bool {
    setup.len() > 0 && setup.last() == '\0'
}

/// Takes a text written to the setup characteristic.
///
/// A text that ends with a NUL is a submission: it is read as a form, as it
/// stands, encoded and put into the submission mailbox over whatever waits
/// there, and the caller has to clear the characteristic. Any other text is
/// left alone. The result tells whether the text was complete.
pub fn custom_task(setup: &str, signals: &mut WmInnerSignals) -> (taken: bool)
    ensures
        taken == is_complete(setup@),
        final(signals).wifi_scan_res == old(signals).wifi_scan_res,
        final(signals).wifi_conn_res_sig == old(signals).wifi_conn_res_sig,
        final(signals).end_signal_pubsub == old(signals).end_signal_pubsub,
        !taken ==> final(signals).wifi_conn_info_sig == old(signals).wifi_conn_info_sig,
        taken ==> (final(signals).wifi_conn_info_sig@ matches Some(payload) && submits(
            payload@,
            form_value(setup@, ssid_name()),
            form_value(setup@, psk_name()),
        )),
{
    let chars = chars_of(setup);
    let n = chars.len();
    if n == 0 || chars[n - 1] != '\0' {
        return false;
    }
    let (ssid, pwd) = parse_form_data(setup);
    match encode_submission(ssid.as_str(), pwd.as_str()) {
        Ok(payload) => {
            signals.wifi_conn_info_sig.signal(payload);
        },
        Err(_) => {},
    }
    true
}

/// Asks whether the listener that holds place `id` on the end-of-session
/// broadcast has to stop.
///
/// It stops exactly when the end of the session was signalled to it, and
/// then gives up its place. Until then its place stays as it is. The
/// mailboxes are not touched.
pub fn stop_ble_task(signals: &mut WmInnerSignals, id: usize) -> (stop: bool)
    ensures
        stop == old(signals).end_signal().is_notified(id as int),
        final(signals).same_mailboxes(old(signals)),
        final(signals).end_signal().wf(),
        final(signals).end_signal().published() == old(signals).end_signal().published(),
        stop ==> final(signals).end_signal().places() == old(signals).end_signal().places().update(
            id as int,
            Subscription::Free,
        ),
        !stop ==> final(signals).end_signal().places() == old(signals).end_signal().places(),
{
    let stop = signals.end_signalled(id);
    if stop {
        signals.end_unsubscribe(id);
    }
    stop
}

} // verus!
