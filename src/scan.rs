//! Choosing the peripheral to connect to from one pass over the devices
//! that the adapter currently knows.

use vstd::prelude::*;

verus! {

/// The GATT service that the wanted peripheral advertises.
pub const TARGET_UUID: &'static str = "0000fff0-0000-1000-8000-00805f9b34fb";

/// What inspecting one device gave.
#[derive(Debug, PartialEq, Eq)]
pub enum Probe {
    /// The device's advertised service UUIDs were read.
    Advertises(Vec<String>),
    /// Reading the device's properties failed; the device is skipped.
    Unreadable,
}

/// `u` is exactly the wanted service UUID.
pub open spec fn is_target(u: Seq<char>) -> bool {
    u == TARGET_UUID@
}

/// Some UUID in `uuids` is the wanted one.
pub open spec fn lists_target(uuids: Seq<String>) -> bool {
    exists|i: int| 0 <= i < uuids.len() && #[trigger] is_target(uuids[i]@)
}

/// The device inspected in `p` may be selected.
pub open spec fn qualifies(p: Probe) -> bool {
    match p {
        Probe::Advertises(uuids) => lists_target(uuids@),
        Probe::Unreadable => false,
    }
}

/// `i` is the position of the first qualifying device of `pass`.
pub open spec fn is_first_match(pass: Seq<Probe>, i: int) -> bool {
    &&& 0 <= i < pass.len()
    &&& qualifies(pass[i])
    &&& forall|j: int| 0 <= j < i ==> !#[trigger] qualifies(pass[j])
}

/// No device of `pass` qualifies.
pub open spec fn no_match(pass: Seq<Probe>) -> bool {
    forall|j: int| 0 <= j < pass.len() ==> !#[trigger] qualifies(pass[j])
}

/// Tells whether `uuid` is the wanted service UUID.
pub fn is_target_uuid(uuid: &String) -> (r: bool)
    ensures
        r == is_target(uuid@),
{
    let target = String::from_str(TARGET_UUID);
    *uuid == target
}

/// Looks for the wanted UUID in a device's advertised UUIDs, and returns it
/// when it is there.
pub fn match_device(uuids: &Vec<String>) -> (r: Option<String>)
    ensures
        r is Some <==> lists_target(uuids@),
        r is Some ==> is_target(r->Some_0@),
{
    let mut hit: Option<String> = None;
    let mut i: usize = 0;
    while i < uuids.len()
        invariant
            i <= uuids.len(),
            hit is Some <==> exists|k: int| 0 <= k < i && #[trigger] is_target(uuids@[k]@),
            hit is Some ==> is_target(hit->Some_0@),
        decreases uuids.len() - i,
    {
        if is_target_uuid(&uuids[i]) {
            hit = Some(uuids[i].clone());
        }
        i = i + 1;
    }
    hit
}

/// Picks, from one pass over the known devices in the order the adapter
/// reported them, the first device that advertises the wanted UUID.
/// Devices that could not be read are passed over.
pub fn select_device(pass: &Vec<Probe>) -> (r: Option<usize>)
    ensures
        match r {
            Some(i) => is_first_match(pass@, i as int),
            None => no_match(pass@),
        },
{
    let mut i: usize = 0;
    while i < pass.len()
        invariant
            i <= pass.len(),
            forall|j: int| 0 <= j < i ==> !#[trigger] qualifies(pass@[j]),
        decreases pass.len() - i,
    {
        match &pass[i] {
            Probe::Advertises(uuids) => {
                if match_device(uuids).is_some() {
                    return Some(i);
                }
            },
            Probe::Unreadable => {},
        }
        i = i + 1;
    }
    None
}

} // verus!
