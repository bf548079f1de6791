//! The device-enumeration snapshot: platforms with their filtered devices,
//! the descriptors that identify a device by position, and validation of a
//! descriptor against the snapshot that must have produced it.

use vstd::prelude::*;
use vstd::string::StringExecFns;

use crate::compile::{get_source, kernel_for_name_spec, kernel_source_spec};
use crate::decimal::{decimal_seq, usize_to_string};
use crate::errors::ClgeomError;

verus! {

/// The access mode a device buffer is allocated with.
#[derive(Clone, Copy, PartialEq, Eq, Structural, Debug)]
pub enum BufferMode {
    ReadOnly,
    ReadWrite,
}

/// The mode a buffer filled from host data is created with: read-write when
/// the caller allows later writes, read-only otherwise. An empty buffer is
/// always created read-write.
pub fn buffer_mode(allow_write: bool) -> (m: BufferMode)
    ensures
        m == (if allow_write {
            BufferMode::ReadWrite
        } else {
            BufferMode::ReadOnly
        }),
{
    if allow_write {
        BufferMode::ReadWrite
    } else {
        BufferMode::ReadOnly
    }
}

/// Everything a session must hand the device compiler and binder for one
/// kernel execution: the kernel's function name, its generated source, and
/// the global work-item count to enqueue.
#[derive(Debug)]
pub struct KernelPlan {
    /// Function name to bind, from the closed kernel set.
    pub kernel_name: String,
    /// Generated source the program is compiled from.
    pub source: String,
    /// Number of parallel work items to launch.
    pub global_work_size: usize,
}

/// Decide one kernel execution: the session must have a device, and the name
/// must be in the closed kernel set; the plan then carries the generated
/// source and the requested work size.
pub fn plan_kernel_execution(name: &str, device_count: usize, work_size: usize) -> (r: Result<
    KernelPlan,
    ClgeomError,
>)
    ensures
        device_count == 0 ==> r is Err && r->Err_0.message@ == "Error getting device"@
            && r->Err_0.cause is None,
        device_count > 0 && kernel_for_name_spec(name@) is Some ==> r is Ok
            && r->Ok_0.kernel_name@ == name@ && r->Ok_0.source@ == kernel_source_spec(
            kernel_for_name_spec(name@)->Some_0,
        ) && r->Ok_0.global_work_size == work_size,
        device_count > 0 && kernel_for_name_spec(name@) is None ==> r is Err
            && r->Err_0.message@ == "Unknown function: "@ + name@ && r->Err_0.cause is None,
{
    if device_count == 0 {
        return Err(ClgeomError::new("Error getting device"));
    }
    match get_source(name) {
        Ok(source) => Ok(
            KernelPlan { kernel_name: name.to_owned(), source, global_work_size: work_size },
        ),
        Err(e) => Err(e),
    }
}

/// Identifies one compute device. Only valid for the `ContextManager` which
/// created it.
#[derive(Debug)]
pub struct DeviceInfo {
    /// Unique identifier among devices on a platform.
    pub device_id: usize,
    /// The name of the device.
    pub device_name: String,
    /// id of the device's platform.
    pub platform_id: usize,
    /// The name of the platform.
    pub platform_name: String,
}

/// One platform of the snapshot: its name and the names of its devices that
/// passed the capability filter, in discovery order. A platform whose filter
/// kept no device stays in the snapshot as an empty entry, so that platform
/// indices remain positional.
#[derive(Debug)]
pub struct PlatformDevices {
    /// Names of the platform's filtered devices.
    pub device_names: Vec<String>,
    /// Name of the platform.
    pub platform_name: String,
}

impl PlatformDevices {
    /// Wrap a platform name and its device names.
    pub fn new(platform_name: String, device_names: Vec<String>) -> (p: Self)
        ensures
            p.platform_name == platform_name,
            p.device_names == device_names,
    {
        Self { device_names, platform_name }
    }
}

/// How many devices the first `p` platforms of the snapshot hold together;
/// hence also the position, in the flattened device list, of the first
/// device of platform `p`.
pub open spec fn device_count_prefix(platforms: Seq<PlatformDevices>, p: int) -> int
    decreases p,
{
    if p <= 0 {
        0
    } else {
        device_count_prefix(platforms, p - 1) + platforms[p - 1].device_names@.len()
    }
}

/// The descriptor at the flattened position of device `d` of platform `p`
/// carries exactly those indices and the two names of the snapshot entry.
pub open spec fn info_matches(
    platforms: Seq<PlatformDevices>,
    infos: Seq<DeviceInfo>,
    p: int,
    d: int,
) -> bool {
    let i = device_count_prefix(platforms, p) + d;
    &&& 0 <= i < infos.len()
    &&& infos[i].platform_id as int == p
    &&& infos[i].device_id as int == d
    &&& infos[i].platform_name@ == platforms[p].platform_name@
    &&& infos[i].device_name@ == platforms[p].device_names@[d]@
}

/// The flattened device list holds exactly one descriptor per device of the
/// snapshot, in platform order then device order, each carrying its position.
pub open spec fn device_list_matches(
    platforms: Seq<PlatformDevices>,
    infos: Seq<DeviceInfo>,
) -> bool {
    &&& infos.len() == device_count_prefix(platforms, platforms.len() as int)
    &&& forall|p: int, d: int|
        0 <= p < platforms.len() && 0 <= d < platforms[p].device_names@.len()
            ==> #[trigger] info_matches(platforms, infos, p, d)
}

/// The position, in the flattened device list, of device `d` of platform
/// `p`.
pub open spec fn flat_position(platforms: Seq<PlatformDevices>, p: int, d: int) -> int {
    device_count_prefix(platforms, p) + d
}

/// A prefix of the snapshot never holds a negative number of devices.
pub proof fn lemma_device_count_nonneg(platforms: Seq<PlatformDevices>, p: int)
    ensures
        device_count_prefix(platforms, p) >= 0,
    decreases p,
{
    if p > 0 {
        lemma_device_count_nonneg(platforms, p - 1);
    }
}

/// Positions in the flattened device list and devices of the snapshot
/// correspond one to one: every position below the total device count is the
/// position of exactly one device `d` of one platform `p`. Together with
/// `device_list_matches` this pins one descriptor per filtered device.
pub proof fn lemma_flat_position_decomposes(platforms: Seq<PlatformDevices>, n: int, i: int)
    requires
        0 <= n <= platforms.len(),
        0 <= i < device_count_prefix(platforms, n),
    ensures
        exists|p: int, d: int|
            0 <= p < n && 0 <= d < platforms[p].device_names@.len() && i
                == #[trigger] flat_position(platforms, p, d),
    decreases n,
{
    if n > 0 {
        let before = device_count_prefix(platforms, n - 1);
        lemma_device_count_nonneg(platforms, n - 1);
        if i < before {
            lemma_flat_position_decomposes(platforms, n - 1, i);
            let (p, d) = choose|p: int, d: int|
                0 <= p < n - 1 && 0 <= d < platforms[p].device_names@.len() && i
                    == #[trigger] flat_position(platforms, p, d);
            assert(0 <= p < n && 0 <= d < platforms[p].device_names@.len() && i
                == flat_position(platforms, p, d));
        } else {
            let d = i - before;
            assert(0 <= n - 1 < n && 0 <= d < platforms[n - 1].device_names@.len() && i
                == flat_position(platforms, n - 1, d));
        }
    }
}

/// A descriptor taken from the flattened device list of a snapshot always
/// passes validation against that same snapshot: its platform index and its
/// device index are in bounds. Only a descriptor produced by a different
/// snapshot can be rejected.
pub proof fn lemma_own_descriptor_in_bounds(
    platforms: Seq<PlatformDevices>,
    infos: Seq<DeviceInfo>,
    i: int,
)
    requires
        device_list_matches(platforms, infos),
        0 <= i < infos.len(),
    ensures
        infos[i].platform_id < platforms.len(),
        infos[i].device_id < platforms[infos[i].platform_id as int].device_names@.len(),
{
    lemma_flat_position_decomposes(platforms, platforms.len() as int, i);
    let (p, d) = choose|p: int, d: int|
        0 <= p < platforms.len() && 0 <= d < platforms[p].device_names@.len() && i
            == #[trigger] flat_position(platforms, p, d);
    assert(info_matches(platforms, infos, p, d));
}

/// Factory for compute sessions. Holds the immutable enumeration snapshot of
/// available platforms and devices.
#[derive(Debug)]
pub struct ContextManager {
    /// Available platforms with their devices, in discovery order.
    pub ocl_platforms: Vec<PlatformDevices>,
}

impl ContextManager {
    /// Wrap one enumeration pass as an immutable snapshot. An enumeration
    /// that reported no platform at all is rejected.
    pub fn new(ocl_platforms: Vec<PlatformDevices>) -> (r: Result<Self, ClgeomError>)
        ensures
            ocl_platforms@.len() == 0 ==> r is Err && r->Err_0.message@
                == "No OpenCL platforms found"@ && r->Err_0.cause is None,
            ocl_platforms@.len() > 0 ==> r is Ok && r->Ok_0.ocl_platforms == ocl_platforms,
    {
        if ocl_platforms.len() == 0 {
            Err(ClgeomError::new("No OpenCL platforms found"))
        } else {
            Ok(Self { ocl_platforms })
        }
    }

    /// Flatten the snapshot into one `DeviceInfo` per device, each carrying
    /// its platform index and device index.
    pub fn list_devices(&self) -> (r: Result<Vec<DeviceInfo>, ClgeomError>)
        ensures
            r is Ok,
            device_list_matches(self.ocl_platforms@, r->Ok_0@),
    {
        let ghost platforms = self.ocl_platforms@;
        let mut infos: Vec<DeviceInfo> = Vec::new();
        let n = self.ocl_platforms.len();
        let mut p: usize = 0;
        while p < n
            invariant
                n == platforms.len(),
                platforms == self.ocl_platforms@,
                p <= n,
                infos@.len() == device_count_prefix(platforms, p as int),
                forall|pp: int, dd: int|
                    0 <= pp < p && 0 <= dd < platforms[pp].device_names@.len()
                        ==> #[trigger] info_matches(platforms, infos@, pp, dd),
            decreases n - p,
        {
            let platform = &self.ocl_platforms[p];
            let m = platform.device_names.len();
            let mut d: usize = 0;
            while d < m
                invariant
                    n == platforms.len(),
                    platforms == self.ocl_platforms@,
                    p < n,
                    m == platforms[p as int].device_names@.len(),
                    platform == platforms[p as int],
                    d <= m,
                    infos@.len() == device_count_prefix(platforms, p as int) + d,
                    forall|pp: int, dd: int|
                        0 <= pp < p && 0 <= dd < platforms[pp].device_names@.len()
                            ==> #[trigger] info_matches(platforms, infos@, pp, dd),
                    forall|dd: int|
                        0 <= dd < d ==> #[trigger] info_matches(platforms, infos@, p as int, dd),
                decreases m - d,
            {
                let info = DeviceInfo {
                    device_id: d,
                    device_name: platform.device_names[d].clone(),
                    platform_id: p,
                    platform_name: platform.platform_name.clone(),
                };
                let ghost pre = infos@;
                infos.push(info);
                proof {
                    assert forall|pp: int, dd: int|
                        0 <= pp < p && 0 <= dd < platforms[pp].device_names@.len() implies #[trigger] info_matches(
                        platforms,
                        infos@,
                        pp,
                        dd,
                    ) by {
                        assert(info_matches(platforms, pre, pp, dd));
                    }
                    assert forall|dd: int| 0 <= dd <= d implies #[trigger] info_matches(
                        platforms,
                        infos@,
                        p as int,
                        dd,
                    ) by {
                        if dd < d {
                            assert(info_matches(platforms, pre, p as int, dd));
                        } else {
                            assert(infos@[pre.len() as int] == info);
                        }
                    }
                }
                d = d + 1;
            }
            assert(device_count_prefix(platforms, p + 1 as int) == device_count_prefix(
                platforms,
                p as int,
            ) + platforms[p as int].device_names@.len());
            p = p + 1;
        }
        Ok(infos)
    }

    /// Check a descriptor's indices against the snapshot bounds. A descriptor
    /// produced by a different snapshot whose indices do not fit this one is
    /// rejected with an error naming the offending index.
    pub fn validate_device(&self, device: &DeviceInfo) -> (r: Result<(), ClgeomError>)
        ensures
            r is Ok <==> device.platform_id < self.ocl_platforms@.len() && device.device_id
                < self.ocl_platforms@[device.platform_id as int].device_names@.len(),
            device.platform_id >= self.ocl_platforms@.len() ==> r is Err && r->Err_0.message@
                == "Error getting platform "@ + decimal_seq(device.platform_id as nat)
                + " of "@ + decimal_seq(self.ocl_platforms@.len()) && r->Err_0.cause is None,
            device.platform_id < self.ocl_platforms@.len() && device.device_id
                >= self.ocl_platforms@[device.platform_id as int].device_names@.len() ==> r is Err
                && r->Err_0.message@ == "getting device "@ + decimal_seq(device.device_id as nat)
                + " of "@ + decimal_seq(
                self.ocl_platforms@[device.platform_id as int].device_names@.len(),
            ) + " for platform "@ + decimal_seq(device.platform_id as nat) && r->Err_0.cause
                is None,
    {
        if device.platform_id >= self.ocl_platforms.len() {
            let mut message = String::from_str("Error getting platform ");
            let index = usize_to_string(device.platform_id);
            message.append(index.as_str());
            message.append(" of ");
            let bound = usize_to_string(self.ocl_platforms.len());
            message.append(bound.as_str());
            Err(ClgeomError { message, cause: None })
        } else if device.device_id >= self.ocl_platforms[device.platform_id].device_names.len() {
            let mut message = String::from_str("getting device ");
            let device_index = usize_to_string(device.device_id);
            message.append(device_index.as_str());
            message.append(" of ");
            let bound = usize_to_string(
                self.ocl_platforms[device.platform_id].device_names.len(),
            );
            message.append(bound.as_str());
            message.append(" for platform ");
            let platform_index = usize_to_string(device.platform_id);
            message.append(platform_index.as_str());
            Err(ClgeomError { message, cause: None })
        } else {
            Ok(())
        }
    }
}

} // verus!
