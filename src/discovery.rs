//! Discovery: which attached devices to connect, and whether the family is
//! handed to another handler.

use vstd::prelude::*;
use vstd::string::StringExecFns;
use crate::device::DeviceKind;
use crate::registry::{holds, DeviceEntry, Registry};

verus! {

/// What to do with the namespace override of the deck family.
#[derive(Debug, Clone, Copy, PartialEq, Eq, Structural)]
pub enum NamespaceAction {
    /// The settings could not be read: leave the override as it is.
    Keep,
    /// The family is disabled: hand its namespace to another handler.
    Override,
    /// The family is enabled: drop any override.
    Release,
}

/// An attached device that is not live yet, to be connected.
#[derive(Debug, Clone, PartialEq, Eq)]
pub struct Candidate {
    pub kind: DeviceKind,
    pub serial: String,
    pub id: String,
}

/// What one round of discovery does.
#[derive(Debug, Clone, PartialEq, Eq)]
pub struct DiscoveryPlan {
    pub namespace: NamespaceAction,
    pub connect: Vec<Candidate>,
}

/// The identifier of the device with a serial number: the family prefix `sd-`
/// followed by the serial.
pub open spec fn device_id_of(serial: Seq<char>) -> Seq<char> {
    seq!['s', 'd', '-'] + serial
}

/// The attached devices, in the order listed, whose identifier is not live.
pub open spec fn pending<H>(
    live: Seq<DeviceEntry<H>>,
    found: Seq<(DeviceKind, String)>,
) -> Seq<(DeviceKind, Seq<char>)>
    decreases found.len(),
{
    if found.len() == 0 {
        Seq::empty()
    } else {
        let rest = pending(live, found.drop_last());
        let last = found.last();
        if holds(live, device_id_of(last.1@)) {
            rest
        } else {
            rest.push((last.0, last.1@))
        }
    }
}

/// The identifier of the device with a serial number.
pub fn device_id(serial: &String) -> (r: String)
    ensures
        r@ == device_id_of(serial@),
{
    proof {
        reveal_strlit("sd-");
    }
    let mut id = <String as StringExecFns>::from_str("sd-");
    id.append(serial.as_str());
    id
}

/// Plans one round of discovery from the "family disabled" setting (`None`
/// where the settings could not be read) and the attached devices as
/// (model, serial) pairs. A disabled family connects nothing.
pub fn initialise_devices<H>(
    registry: &Registry<H>,
    disabled: Option<bool>,
    found: &Vec<(DeviceKind, String)>,
) -> (r: DiscoveryPlan)
    requires
        registry.wf(),
    ensures
        disabled == Some(true) ==> r.namespace == NamespaceAction::Override && r.connect@.len()
            == 0,
        disabled == Some(false) ==> r.namespace == NamespaceAction::Release,
        disabled is None ==> r.namespace == NamespaceAction::Keep,
        disabled != Some(true) ==> r.connect@.map_values(|c: Candidate| (c.kind, c.serial@))
            == pending(registry.view(), found@),
        forall|i: int|
            0 <= i < r.connect@.len() ==> r.connect@[i].id@ == device_id_of(
                r.connect@[i].serial@,
            ),
{
    let namespace = match disabled {
        Some(true) => {
            return DiscoveryPlan { namespace: NamespaceAction::Override, connect: Vec::new() };
        },
        Some(false) => NamespaceAction::Release,
        None => NamespaceAction::Keep,
    };
    let mut connect: Vec<Candidate> = Vec::new();
    let mut i: usize = 0;
    while i < found.len()
        invariant
            i <= found@.len(),
            registry.wf(),
            connect@.map_values(|c: Candidate| (c.kind, c.serial@)) == pending(
                registry.view(),
                found@.subrange(0, i as int),
            ),
            forall|k: int|
                0 <= k < connect@.len() ==> connect@[k].id@ == device_id_of(connect@[k].serial@),
        decreases found@.len() - i,
    {
        let (kind, serial) = (found[i].0, &found[i].1);
        let id = device_id(serial);
        assert(found@.subrange(0, i + 1).drop_last() =~= found@.subrange(0, i as int));
        if !registry.contains(&id) {
            let serial = serial.clone();
            connect.push(Candidate { kind, serial, id });
        }
        i = i + 1;
        assert(connect@.map_values(|c: Candidate| (c.kind, c.serial@)) =~= pending(
            registry.view(),
            found@.subrange(0, i as int),
        ));
    }
    assert(found@.subrange(0, i as int) =~= found@);
    DiscoveryPlan { namespace, connect }
}

} // verus!
