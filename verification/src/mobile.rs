//! Mobile emulators: device specs, actions and artifacts, and the in-memory
//! controller that tracks device lifecycles.

use vstd::prelude::*;

use crate::outside::{new_id, now, Timestamp};
use crate::text::{uuid_string, uuid_text};

verus! {

/// Specification for booting a mobile emulator.
#[derive(Debug, Clone)]
pub struct DeviceSpec {
    /// Device profile name (e.g. "pixel8", "iphone15").
    pub profile: String,
    /// Android API level or iOS version.
    pub os_version: Option<String>,
    /// Whether to enable network access.
    pub network: bool,
    /// Optional label.
    pub label: Option<String>,
}

impl DeviceSpec {
    /// A copy of the spec.
    pub fn duplicate(&self) -> (s: DeviceSpec)
        ensures
            s == *self,
    {
        DeviceSpec {
            profile: self.profile.clone(),
            os_version: match &self.os_version {
                Some(v) => Some(v.clone()),
                None => None,
            },
            network: self.network,
            label: match &self.label {
                Some(l) => Some(l.clone()),
                None => None,
            },
        }
    }
}

/// An action to perform on a mobile device.
#[derive(Debug, Clone)]
pub enum DeviceAction {
    /// Install an APK or app bundle.
    InstallApp { path: String },
    /// Launch an app by package/bundle ID.
    LaunchApp { package: String },
    /// Tap at screen coordinates.
    Tap { x: i32, y: i32 },
    /// Swipe from one point to another.
    Swipe { x1: i32, y1: i32, x2: i32, y2: i32 },
    /// Type text into the focused field.
    TypeText { text: String },
    /// Press a hardware button (home, back, etc.).
    PressButton { button: String },
    /// Take a screenshot.
    Screenshot,
    /// Record video for a duration.
    RecordVideo { duration_secs: u64 },
    /// Execute an ADB/simctl shell command.
    ShellCommand { command: String },
}

/// An artifact produced by a device action.
#[derive(Debug, Clone)]
pub enum DeviceArtifact {
    /// A screenshot.
    Screenshot { uri: String, captured_at: Timestamp },
    /// A video recording.
    Video { uri: String, duration_secs: u64 },
    /// Shell command output.
    ShellOutput { stdout: String, stderr: String, exit_code: i32 },
    /// Action completed with no specific artifact.
    Ack,
}

/// Lifecycle status of a device.
#[derive(Debug, Clone, Copy, PartialEq, Eq, Structural, Hash)]
pub enum DeviceStatus {
    Booting,
    Running,
    Paused,
    ShuttingDown,
    Off,
    Failed,
}

/// Runtime state of a mobile device.
#[derive(Debug, Clone)]
pub struct DeviceState {
    pub id: u128,
    pub spec: DeviceSpec,
    pub status: DeviceStatus,
    pub booted_at: Option<Timestamp>,
}

/// Why the controller refused a request.
#[derive(Debug, Clone, Copy)]
pub enum DeviceError {
    /// No device has this ID.
    NotFound(u128),
}

impl DeviceError {
    /// The error's message: `device not found: <id>`.
    pub fn message(&self) -> (m: String)
        ensures
            match self {
                DeviceError::NotFound(id) => m@ == "device not found: "@ + uuid_text(*id),
            },
    {
        match self {
            DeviceError::NotFound(id) => String::from_str("device not found: ").concat(
                uuid_string(*id).as_str(),
            ),
        }
    }
}

/// Devices, by ID.
pub struct MockMobileController {
    devices: std::collections::HashMap<u128, DeviceState>,
}

fn copy_state(d: &DeviceState) -> (c: DeviceState)
    ensures
        c == *d,
{
    DeviceState { id: d.id, spec: d.spec.duplicate(), status: d.status, booted_at: d.booted_at }
}

impl MockMobileController {
    /// The tracked devices, by ID.
    pub closed spec fn devices(&self) -> Map<u128, DeviceState> {
        self.devices@
    }

    /// A controller with no device.
    pub fn new() -> (c: MockMobileController)
        ensures
            c.devices() == Map::<u128, DeviceState>::empty(),
    {
        MockMobileController { devices: std::collections::HashMap::new() }
    }

    /// Boot a device: a fresh ID, running, booted now. Gives its ID.
    pub fn boot(&mut self, spec: DeviceSpec) -> (id: u128)
        ensures
            final(self).devices() == old(self).devices().insert(id, final(self).devices()[id]),
            final(self).devices()[id].id == id,
            final(self).devices()[id].spec == spec,
            final(self).devices()[id].status == DeviceStatus::Running,
            final(self).devices()[id].booted_at is Some,
    {
        broadcast use vstd::std_specs::hash::group_hash_axioms;
        let id = new_id();
        let st = DeviceState { id, spec, status: DeviceStatus::Running, booted_at: Some(now()) };
        self.devices.insert(id, st);
        id
    }

    /// Perform an action on a device: a screenshot gives a screenshot
    /// artifact named after the device, a shell command a mock output that
    /// echoes it, anything else an acknowledgement.
    pub fn perform(&self, id: u128, action: DeviceAction) -> (r: Result<DeviceArtifact, DeviceError>)
        ensures
            !self.devices().contains_key(id) ==> (r matches Err(DeviceError::NotFound(e)) && e == id),
            self.devices().contains_key(id) ==> (match action {
                DeviceAction::Screenshot => r matches Ok(DeviceArtifact::Screenshot { uri, .. })
                    && uri@ == "mock://screenshot-"@ + uuid_text(id) + ".png"@,
                DeviceAction::ShellCommand { command } => r matches Ok(
                    DeviceArtifact::ShellOutput { stdout, stderr, exit_code },
                ) && stdout@ == "mock output of: "@ + command@ && stderr@.len() == 0 && exit_code == 0,
                _ => r matches Ok(DeviceArtifact::Ack),
            }),
    {
        broadcast use vstd::std_specs::hash::group_hash_axioms;
        if !self.devices.contains_key(&id) {
            return Err(DeviceError::NotFound(id));
        }
        match action {
            DeviceAction::Screenshot => {
                let uri = String::from_str("mock://screenshot-").concat(uuid_string(id).as_str()).concat(
                    ".png",
                );
                Ok(DeviceArtifact::Screenshot { uri, captured_at: now() })
            },
            DeviceAction::ShellCommand { command } => Ok(
                DeviceArtifact::ShellOutput {
                    stdout: String::from_str("mock output of: ").concat(command.as_str()),
                    stderr: String::new(),
                    exit_code: 0,
                },
            ),
            _ => Ok(DeviceArtifact::Ack),
        }
    }

    /// The state of a device.
    pub fn state(&self, id: u128) -> (r: Result<DeviceState, DeviceError>)
        ensures
            if self.devices().contains_key(id) {
                r == Ok::<DeviceState, DeviceError>(self.devices()[id])
            } else {
                r matches Err(DeviceError::NotFound(e)) && e == id
            },
    {
        broadcast use vstd::std_specs::hash::group_hash_axioms;
        match self.devices.get(&id) {
            Some(d) => Ok(copy_state(d)),
            None => Err(DeviceError::NotFound(id)),
        }
    }

    /// Shut a device down: its status becomes `Off`.
    pub fn shutdown(&mut self, id: u128) -> (r: Result<(), DeviceError>)
        ensures
            if old(self).devices().contains_key(id) {
                &&& r is Ok
                &&& final(self).devices() == old(self).devices().insert(
                    id,
                    DeviceState { status: DeviceStatus::Off, ..old(self).devices()[id] },
                )
            } else {
                &&& r matches Err(DeviceError::NotFound(e)) && e == id
                &&& final(self).devices() == old(self).devices()
            },
    {
        broadcast use vstd::std_specs::hash::group_hash_axioms;
        let off = match self.devices.get(&id) {
            Some(d) => Some(DeviceState {
                id: d.id,
                spec: d.spec.duplicate(),
                status: DeviceStatus::Off,
                booted_at: d.booted_at,
            }),
            None => None,
        };
        match off {
            Some(st) => {
                self.devices.insert(id, st);
                Ok(())
            },
            None => Err(DeviceError::NotFound(id)),
        }
    }

    /// The IDs of the tracked devices, each once, in no particular order.
    pub fn list_devices(&self) -> (ids: Vec<u128>)
        ensures
            ids@.no_duplicates(),
            forall|k: u128| #[trigger] ids@.contains(k) <==> self.devices().contains_key(k),
    {
        broadcast use vstd::std_specs::hash::group_hash_axioms;
        let ghost m = self.devices@;
        let ghost sq = vstd::std_specs::iter::IteratorSpec::remaining(
            &vstd::std_specs::hash::spec_hash_map_iter(&self.devices),
        );
        let ghost mut cnt: int = 0;
        let mut r: Vec<u128> = Vec::new();
        for kv in it: self.devices.iter()
            invariant
                it.seq() == sq,
                cnt == it.index(),
                sq.no_duplicates(),
                sq.len() == m.dom().len(),
                self.devices@ == m,
                forall|i: int| 0 <= i < sq.len() ==> m.contains_key(*sq[i].0) && m[*sq[i].0] == *sq[i].1,
                forall|k: u128| m.contains_key(k) ==> sq.contains((&k, &m[k])),
                r@.no_duplicates(),
                forall|k: u128| #[trigger] r@.contains(k) <==> exists|j: int| 0 <= j < cnt && *sq[j].0 == k,
        {
            let (k, d) = kv;
            let ghost r0 = r@;
            proof {
                assert(sq[cnt] == (k, d));
                if r0.contains(*k) {
                    let j = choose|j: int| 0 <= j < cnt && *sq[j].0 == *k;
                    assert(sq[j] == sq[cnt]);
                }
            }
            r.push(*k);
            proof {
                let c = cnt;
                assert forall|x: u128| #[trigger] r@.contains(x) <==> exists|j: int| 0 <= j < c + 1 && *sq[j].0 == x by {
                    if r@.contains(x) {
                        if r0.contains(x) {
                            let j = choose|j: int| 0 <= j < c && *sq[j].0 == x;
                            assert(0 <= j < c + 1 && *sq[j].0 == x);
                        } else {
                            assert(x == *k);
                            assert(*sq[c].0 == x);
                        }
                    }
                    if exists|j: int| 0 <= j < c + 1 && *sq[j].0 == x {
                        let j = choose|j: int| 0 <= j < c + 1 && *sq[j].0 == x;
                        if j < c {
                            assert(r0.contains(x));
                            assert(r@[r0.index_of(x)] == x);
                        } else {
                            assert(r@[r0.len() as int] == x);
                        }
                    }
                }
                cnt = cnt + 1;
            }
        }
        proof {
            assert(cnt == sq.len());
            assert forall|k: u128| #[trigger] r@.contains(k) <==> self.devices().contains_key(k) by {
                if self.devices@.contains_key(k) {
                    let j = choose|j: int| 0 <= j < sq.len() && sq[j] == (&k, &m[k]);
                    assert(*sq[j].0 == k);
                }
            }
        }
        r
    }
}

/// A device shut down is found again, and its status is `Off`.
pub proof fn law_shutdown_device_is_off(devices: Map<u128, DeviceState>, id: u128)
    requires
        devices.contains_key(id),
    ensures
        ({
            let after = devices.insert(id, DeviceState { status: DeviceStatus::Off, ..devices[id] });
            &&& after.contains_key(id)
            &&& after[id].status == DeviceStatus::Off
            &&& after[id].spec == devices[id].spec
            &&& after.dom() == devices.dom()
        }),
{
    let after = devices.insert(id, DeviceState { status: DeviceStatus::Off, ..devices[id] });
    assert(after.dom() =~= devices.dom());
}

impl Default for MockMobileController {
    /// A controller with no devices.
    fn default() -> (c: MockMobileController)
        ensures
            c.devices() == Map::<u128, DeviceState>::empty(),
    {
        MockMobileController::new()
    }
}

} // verus!
