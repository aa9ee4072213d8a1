//! Sending a deployment to its devices: where each manifest goes, and what
//! the answers of the devices amount to.

use vstd::prelude::*;
use crate::device::{DeviceDoc, DeviceDocView};
use crate::ordered_map::OrderedMap;
use crate::text::{decimal, u16_text};

verus! {

/// The URL under which a device takes its manifest: its first address and
/// its port, and the path `/deploy`. A device without an address has none.
pub open spec fn deploy_url_of(device: DeviceDocView) -> Option<Seq<char>> {
    if device.communication.addresses.len() == 0 {
        None
    } else {
        Some(
            "http://"@ + device.communication.addresses[0] + ":"@ + decimal(
                device.communication.port as nat,
            ) + "/deploy"@,
        )
    }
}

/// The URL under which a device takes its manifest.
pub fn deploy_url(device: &DeviceDoc) -> (url: Option<String>)
    ensures
        url.deep_view() == deploy_url_of(device.deep_view()),
{
    if device.communication.addresses.len() == 0 {
        return None;
    }
    let address = &device.communication.addresses[0];
    assert(device.deep_view().communication.addresses[0] == address@);
    let mut url = "http://".to_string();
    url.append(address.as_str());
    url.append(":");
    url.append(u16_text(device.communication.port).as_str());
    url.append("/deploy");
    Some(url)
}

/// Why a deployment did not reach its devices.
#[derive(Clone, Debug, PartialEq, Eq)]
pub enum PushError {
    /// A device did not take its manifest; `message` says why.
    DeviceFailed { message: String },
    /// There was no device to send to.
    EmptyResponse,
}

/// The message of the first failure among the answers.
pub open spec fn first_failure<T>(answers: Seq<(String, Result<T, String>)>) -> Option<Seq<char>>
    decreases answers.len(),
{
    if answers.len() == 0 {
        None
    } else {
        match answers[0].1 {
            Err(message) => Some(message@),
            Ok(_) => first_failure(answers.subrange(1, answers.len() as int)),
        }
    }
}

/// Gathers the answers of the devices of a deployment, each under the
/// identifier of its device. One device that failed fails the whole, with the
/// message of the first such device; so does a deployment without devices.
pub fn collect_responses<T>(answers: Vec<(String, Result<T, String>)>) -> (out: Result<
    OrderedMap<T>,
    PushError,
>)
    ensures
        match out {
            Ok(responses) => {
                &&& answers@.len() > 0
                &&& first_failure(answers@) is None
                &&& responses.entries@.len() == answers@.len()
                &&& forall|i: int|
                    0 <= i < answers@.len() ==> (#[trigger] responses.entries@[i]).0
                        == answers@[i].0 && answers@[i].1 == Ok::<T, String>(
                        responses.entries@[i].1,
                    )
            },
            Err(PushError::DeviceFailed { message }) => first_failure(answers@) == Some(message@),
            Err(PushError::EmptyResponse) => answers@.len() == 0,
        },
{
    let ghost all = answers@;
    let mut entries: Vec<(String, T)> = Vec::new();
    assert(all.subrange(0, all.len() as int) =~= all);
    for answer in it: answers
        invariant
            all == it.seq(),
            all == answers@,
            entries@.len() == it.index(),
            first_failure(all) == first_failure(all.subrange(it.index(), all.len() as int)),
            forall|i: int|
                0 <= i < it.index() ==> (#[trigger] entries@[i]).0 == all[i].0 && all[i].1 == Ok::<
                    T,
                    String,
                >(entries@[i].1),
    {
        let ghost at = it.index();
        let ghost rest = all.subrange(at, all.len() as int);
        assert(rest[0] == answer);
        assert(rest.subrange(1, rest.len() as int) =~= all.subrange(at + 1, all.len() as int));
        let (device, result) = answer;
        match result {
            Ok(value) => {
                entries.push((device, value));
            },
            Err(message) => {
                return Err(PushError::DeviceFailed { message });
            },
        }
    }
    if entries.len() == 0 {
        return Err(PushError::EmptyResponse);
    }
    Ok(OrderedMap { entries })
}

} // verus!
