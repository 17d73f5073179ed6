//! Device catalog policy: capture endpoints, their monitor/capture
//! classification, default picks, and validation of a chosen device pair.
//!
//! Enumeration of the hardware itself happens outside this library; these
//! functions decide, over a given snapshot of the catalog, which endpoint
//! plays which role.

use vstd::prelude::*;

use crate::errors::ConfigError;

verus! {

/// An immutable snapshot of one capture-capable audio endpoint at
/// enumeration time. `is_monitor` marks a loopback/system-audio source as
/// opposed to a plain microphone.
#[derive(Debug)]
pub struct AudioDevice {
    pub name: String,
    pub index: usize,
    pub is_monitor: bool,
}

/// Whether a device plays the requested role: monitor sources when
/// `monitor` is set, plain capture devices otherwise.
pub open spec fn role_pred(monitor: bool) -> spec_fn(AudioDevice) -> bool {
    |d: AudioDevice| d.is_monitor == monitor
}

/// Index of the first device of the requested role, if any.
pub open spec fn first_role_index(devices: Seq<AudioDevice>, monitor: bool) -> Option<int>
    decreases devices.len(),
{
    if devices.len() == 0 {
        None
    } else if devices[0].is_monitor == monitor {
        Some(0)
    } else {
        match first_role_index(devices.drop_first(), monitor) {
            Some(i) => Some(i + 1),
            None => None,
        }
    }
}

/// `first_role_index` finds exactly the first device of the role: the
/// entry it names has the role, everything before it does not, and it is
/// `None` only when no entry has the role.
pub proof fn lemma_first_role_index(devices: Seq<AudioDevice>, monitor: bool)
    ensures
        match first_role_index(devices, monitor) {
            Some(i) => 0 <= i < devices.len() && devices[i].is_monitor == monitor && forall|j: int|
                0 <= j < i ==> devices[j].is_monitor != monitor,
            None => forall|j: int| 0 <= j < devices.len() ==> devices[j].is_monitor != monitor,
        },
    decreases devices.len(),
{
    if devices.len() == 0 {
    } else if devices[0].is_monitor == monitor {
    } else {
        let rest = devices.drop_first();
        lemma_first_role_index(rest, monitor);
        assert(forall|j: int| 0 < j < devices.len() ==> devices[j] == rest[j - 1]);
        match first_role_index(rest, monitor) {
            Some(i) => {
                assert forall|j: int| 0 <= j < i + 1 implies devices[j].is_monitor != monitor by {
                    if j > 0 {
                        assert(devices[j] == rest[j - 1]);
                    }
                }
            },
            None => {
                assert forall|j: int|
                    0 <= j < devices.len() implies devices[j].is_monitor != monitor by {
                    if j > 0 {
                        assert(devices[j] == rest[j - 1]);
                    }
                }
            },
        }
    }
}

/// Default device picks: the first non-monitor entry is the default mic,
/// the first monitor entry the default system source; `None` where no
/// entry of that kind exists.
pub fn get_default_devices(devices: &Vec<AudioDevice>) -> (r: (Option<usize>, Option<usize>))
    ensures
        r.0 is Some <==> first_role_index(devices@, false) is Some,
        r.0 is Some ==> r.0->0 == first_role_index(devices@, false)->0,
        r.1 is Some <==> first_role_index(devices@, true) is Some,
        r.1 is Some ==> r.1->0 == first_role_index(devices@, true)->0,
        match r.0 {
            Some(i) => i < devices@.len() && !devices@[i as int].is_monitor && forall|j: int|
                0 <= j < i ==> devices@[j].is_monitor,
            None => forall|j: int| 0 <= j < devices@.len() ==> devices@[j].is_monitor,
        },
        match r.1 {
            Some(i) => i < devices@.len() && devices@[i as int].is_monitor && forall|j: int|
                0 <= j < i ==> !devices@[j].is_monitor,
            None => forall|j: int| 0 <= j < devices@.len() ==> !devices@[j].is_monitor,
        },
{
    let mut mic: Option<usize> = None;
    let mut system: Option<usize> = None;
    let mut k: usize = 0;
    while k < devices.len()
        invariant
            k <= devices@.len(),
            match mic {
                Some(i) => i < k && !devices@[i as int].is_monitor && forall|j: int|
                    0 <= j < i ==> devices@[j].is_monitor,
                None => forall|j: int| 0 <= j < k ==> devices@[j].is_monitor,
            },
            match system {
                Some(i) => i < k && devices@[i as int].is_monitor && forall|j: int|
                    0 <= j < i ==> !devices@[j].is_monitor,
                None => forall|j: int| 0 <= j < k ==> !devices@[j].is_monitor,
            },
        decreases devices@.len() - k,
    {
        if devices[k].is_monitor {
            if system.is_none() {
                system = Some(k);
            }
        } else {
            if mic.is_none() {
                mic = Some(k);
            }
        }
        k = k + 1;
    }
    proof {
        lemma_first_role_index(devices@, false);
        lemma_first_role_index(devices@, true);
    }
    (mic, system)
}

/// Keep only the devices of one role, in catalog order.
pub fn filter_devices(devices: Vec<AudioDevice>, monitor: bool) -> (r: Vec<AudioDevice>)
    ensures
        r@ == devices@.filter(role_pred(monitor)),
{
    let ghost d0 = devices@;
    let mut devices = devices;
    let mut r: Vec<AudioDevice> = Vec::new();
    while devices.len() > 0
        invariant
            devices@.len() <= d0.len(),
            devices@ == d0.subrange(d0.len() - devices@.len(), d0.len() as int),
            r@ == d0.take(d0.len() - devices@.len()).filter(role_pred(monitor)),
        decreases devices@.len(),
    {
        let ghost k = d0.len() - devices@.len();
        let d = devices.remove(0);
        assert(d == d0[k]);
        assert(devices@ =~= d0.subrange(d0.len() - devices@.len(), d0.len() as int));
        let matches_role = d.is_monitor == monitor;
        proof {
            reveal_with_fuel(Seq::<_>::filter, 2);
            assert(d0.take(k + 1).drop_last() =~= d0.take(k));
            assert(d0.take(k + 1).last() == d0[k]);
            assert(role_pred(monitor)(d0[k]) == matches_role);
        }
        if matches_role {
            r.push(d);
        }
        assert(r@ == d0.take(k + 1).filter(role_pred(monitor)));
    }
    assert(d0.take(d0.len() as int) =~= d0);
    r
}

/// Check a chosen device pair against the catalog: an explicit mic index
/// must be in range, and an explicit system index must be in range and
/// name a monitor source. `None` on either side is always acceptable.
pub fn validate_device_selection(
    devices: &Vec<AudioDevice>,
    mic_device_index: Option<usize>,
    system_device_index: Option<usize>,
) -> (r: Result<(), ConfigError>)
    ensures
        r is Ok <==> {
            &&& (mic_device_index is Some ==> mic_device_index->0 < devices@.len())
            &&& (system_device_index is Some ==> system_device_index->0 < devices@.len()
                && devices@[system_device_index->0 as int].is_monitor)
        },
        (mic_device_index is Some && mic_device_index->0 >= devices@.len()) ==> r == Result::<
            (),
            ConfigError,
        >::Err(ConfigError::InvalidMicIndex),
        (!(mic_device_index is Some && mic_device_index->0 >= devices@.len())
            && system_device_index is Some && system_device_index->0 >= devices@.len()) ==> r
            == Result::<(), ConfigError>::Err(ConfigError::InvalidSystemIndex),
        (!(mic_device_index is Some && mic_device_index->0 >= devices@.len())
            && system_device_index is Some && system_device_index->0 < devices@.len()
            && !devices@[system_device_index->0 as int].is_monitor) ==> r == Result::<
            (),
            ConfigError,
        >::Err(ConfigError::NotMonitorSource),
{
    if let Some(mic_idx) = mic_device_index {
        if mic_idx >= devices.len() {
            return Err(ConfigError::InvalidMicIndex);
        }
    }
    if let Some(system_idx) = system_device_index {
        if system_idx >= devices.len() {
            return Err(ConfigError::InvalidSystemIndex);
        }
        if !devices[system_idx].is_monitor {
            return Err(ConfigError::NotMonitorSource);
        }
    }
    Ok(())
}

} // verus!
