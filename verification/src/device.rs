//! Devices and what they report of themselves.

use vstd::prelude::*;
use crate::ids::ObjectId;

verus! {

/// How a device is reached.
#[derive(Debug, PartialEq, Eq)]
pub struct DeviceCommunication {
    pub addresses: Vec<String>,
    pub port: u16,
}

/// What a [`DeviceCommunication`] holds, as mathematical values.
pub struct DeviceCommunicationView {
    pub addresses: Seq<Seq<char>>,
    pub port: u16,
}

impl DeepView for DeviceCommunication {
    type V = DeviceCommunicationView;

    open spec fn deep_view(&self) -> DeviceCommunicationView {
        DeviceCommunicationView {
            addresses: self.addresses.deep_view(),
            port: self.port.deep_view(),
        }
    }
}

impl Clone for DeviceCommunication {
    fn clone(&self) -> (copy: DeviceCommunication)
        ensures
            copy.deep_view() == self.deep_view(),
    {
        let copy = DeviceCommunication {
            addresses: self.addresses.clone(),
            port: self.port,
        };
        assert(copy.addresses.deep_view() =~= self.addresses.deep_view());
        copy
    }
}

#[derive(Debug, PartialEq, Eq)]
pub struct CpuInfo {
    pub architecture: String,
    pub clock_speed_hz: u64,
    pub core_count: u64,
    pub human_readable_name: String,
}

/// What a [`CpuInfo`] holds, as mathematical values.
pub struct CpuInfoView {
    pub architecture: Seq<char>,
    pub clock_speed_hz: u64,
    pub core_count: u64,
    pub human_readable_name: Seq<char>,
}

impl DeepView for CpuInfo {
    type V = CpuInfoView;

    open spec fn deep_view(&self) -> CpuInfoView {
        CpuInfoView {
            architecture: self.architecture.deep_view(),
            clock_speed_hz: self.clock_speed_hz.deep_view(),
            core_count: self.core_count.deep_view(),
            human_readable_name: self.human_readable_name.deep_view(),
        }
    }
}

impl Clone for CpuInfo {
    fn clone(&self) -> (copy: CpuInfo)
        ensures
            copy.deep_view() == self.deep_view(),
    {
        CpuInfo {
            architecture: self.architecture.clone(),
            clock_speed_hz: self.clock_speed_hz,
            core_count: self.core_count,
            human_readable_name: self.human_readable_name.clone(),
        }
    }
}

#[derive(Debug, PartialEq, Eq)]
pub struct MemoryInfo {
    pub total_bytes: u64,
}

/// What a [`MemoryInfo`] holds, as mathematical values.
pub struct MemoryInfoView {
    pub total_bytes: u64,
}

impl DeepView for MemoryInfo {
    type V = MemoryInfoView;

    open spec fn deep_view(&self) -> MemoryInfoView {
        MemoryInfoView { total_bytes: self.total_bytes.deep_view() }
    }
}

impl Clone for MemoryInfo {
    fn clone(&self) -> (copy: MemoryInfo)
        ensures
            copy.deep_view() == self.deep_view(),
    {
        MemoryInfo { total_bytes: self.total_bytes }
    }
}

#[derive(Debug, PartialEq, Eq)]
pub struct OsInfo {
    pub host_name: String,
    pub kernel: String,
    pub name: String,
    pub os: String,
}

/// What a [`OsInfo`] holds, as mathematical values.
pub struct OsInfoView {
    pub host_name: Seq<char>,
    pub kernel: Seq<char>,
    pub name: Seq<char>,
    pub os: Seq<char>,
}

impl DeepView for OsInfo {
    type V = OsInfoView;

    open spec fn deep_view(&self) -> OsInfoView {
        OsInfoView {
            host_name: self.host_name.deep_view(),
            kernel: self.kernel.deep_view(),
            name: self.name.deep_view(),
            os: self.os.deep_view(),
        }
    }
}

impl Clone for OsInfo {
    fn clone(&self) -> (copy: OsInfo)
        ensures
            copy.deep_view() == self.deep_view(),
    {
        OsInfo {
            host_name: self.host_name.clone(),
            kernel: self.kernel.clone(),
            name: self.name.clone(),
            os: self.os.clone(),
        }
    }
}

/// Hardware and system of a device.
#[derive(Debug, PartialEq, Eq)]
pub struct PlatformInfo {
    pub cpu: CpuInfo,
    pub memory: MemoryInfo,
    pub system: OsInfo,
}

/// What a [`PlatformInfo`] holds, as mathematical values.
pub struct PlatformInfoView {
    pub cpu: CpuInfoView,
    pub memory: MemoryInfoView,
    pub system: OsInfoView,
}

impl DeepView for PlatformInfo {
    type V = PlatformInfoView;

    open spec fn deep_view(&self) -> PlatformInfoView {
        PlatformInfoView {
            cpu: self.cpu.deep_view(),
            memory: self.memory.deep_view(),
            system: self.system.deep_view(),
        }
    }
}

impl Clone for PlatformInfo {
    fn clone(&self) -> (copy: PlatformInfo)
        ensures
            copy.deep_view() == self.deep_view(),
    {
        PlatformInfo {
            cpu: self.cpu.clone(),
            memory: self.memory.clone(),
            system: self.system.clone(),
        }
    }
}

/// What a device reports of itself.
#[derive(Debug, PartialEq, Eq)]
pub struct DeviceDescription {
    pub platform: PlatformInfo,
    /// Names of the supervisor interfaces that the device implements: its capabilities.
    pub supervisor_interfaces: Vec<String>,
}

/// What a [`DeviceDescription`] holds, as mathematical values.
pub struct DeviceDescriptionView {
    pub platform: PlatformInfoView,
    pub supervisor_interfaces: Seq<Seq<char>>,
}

impl DeepView for DeviceDescription {
    type V = DeviceDescriptionView;

    open spec fn deep_view(&self) -> DeviceDescriptionView {
        DeviceDescriptionView {
            platform: self.platform.deep_view(),
            supervisor_interfaces: self.supervisor_interfaces.deep_view(),
        }
    }
}

impl Clone for DeviceDescription {
    fn clone(&self) -> (copy: DeviceDescription)
        ensures
            copy.deep_view() == self.deep_view(),
    {
        let copy = DeviceDescription {
            platform: self.platform.clone(),
            supervisor_interfaces: self.supervisor_interfaces.clone(),
        };
        assert(copy.supervisor_interfaces.deep_view() =~= self.supervisor_interfaces.deep_view());
        copy
    }
}

/// A known device.
#[derive(Debug, PartialEq, Eq)]
pub struct DeviceDoc {
    pub id: Option<ObjectId>,
    pub name: String,
    pub communication: DeviceCommunication,
    pub description: DeviceDescription,
}

/// What a [`DeviceDoc`] holds, as mathematical values.
pub struct DeviceDocView {
    pub id: Option<ObjectId>,
    pub name: Seq<char>,
    pub communication: DeviceCommunicationView,
    pub description: DeviceDescriptionView,
}

impl DeepView for DeviceDoc {
    type V = DeviceDocView;

    open spec fn deep_view(&self) -> DeviceDocView {
        DeviceDocView {
            id: self.id.deep_view(),
            name: self.name.deep_view(),
            communication: self.communication.deep_view(),
            description: self.description.deep_view(),
        }
    }
}

impl Clone for DeviceDoc {
    fn clone(&self) -> (copy: DeviceDoc)
        ensures
            copy.deep_view() == self.deep_view(),
    {
        DeviceDoc {
            id: self.id.clone(),
            name: self.name.clone(),
            communication: self.communication.clone(),
            description: self.description.clone(),
        }
    }
}

/// What is assumed of a device that has not yet reported its own
/// description: an unknown architecture, no cores, no memory, and no
/// supervisor interface.
pub open spec fn default_description() -> DeviceDescriptionView {
    DeviceDescriptionView {
        platform: PlatformInfoView {
            cpu: CpuInfoView {
                architecture: "unknown"@,
                clock_speed_hz: 0,
                core_count: 0,
                human_readable_name: Seq::empty(),
            },
            memory: MemoryInfoView { total_bytes: 0 },
            system: OsInfoView {
                host_name: Seq::empty(),
                kernel: Seq::empty(),
                name: Seq::empty(),
                os: Seq::empty(),
            },
        },
        supervisor_interfaces: Seq::empty(),
    }
}

/// A placeholder for the description of a device that has not reported one.
pub fn default_device_description() -> (description: DeviceDescription)
    ensures
        description.deep_view() == default_description(),
{
    let description = DeviceDescription {
        platform: PlatformInfo {
            cpu: CpuInfo {
                architecture: "unknown".to_string(),
                clock_speed_hz: 0,
                core_count: 0,
                human_readable_name: String::new(),
            },
            memory: MemoryInfo { total_bytes: 0 },
            system: OsInfo {
                host_name: String::new(),
                kernel: String::new(),
                name: String::new(),
                os: String::new(),
            },
        },
        supervisor_interfaces: Vec::new(),
    };
    assert(description.supervisor_interfaces.deep_view() =~= Seq::empty());
    description
}

} // verus!
