//! Adapters, devices and queues: the handles the rest of the API hangs off.

use vstd::prelude::*;

use crate::id::Backend;
use crate::id::ResourceId;

verus! {

/// Which backends an instance may consider when enumerating adapters.
#[derive(Clone, Copy, Debug, PartialEq, Eq, Structural)]
pub struct BackendBit {
    pub vulkan: bool,
    pub metal: bool,
    pub dx12: bool,
    pub dx11: bool,
}

impl BackendBit {
    /// All backends.
    pub fn all() -> (r: BackendBit)
        ensures
            r == (BackendBit { vulkan: true, metal: true, dx12: true, dx11: true }),
    {
        BackendBit { vulkan: true, metal: true, dx12: true, dx11: true }
    }

    /// Whether the bit for `backend` is set; the empty backend is never
    /// offered.
    pub fn contains(&self, backend: Backend) -> (r: bool)
        ensures
            r == self.spec_contains(backend),
    {
        match backend {
            Backend::Vulkan => self.vulkan,
            Backend::Metal => self.metal,
            Backend::Dx12 => self.dx12,
            Backend::Dx11 => self.dx11,
            Backend::Empty => false,
        }
    }

    /// Whether the bit for `backend` is set.
    pub open spec fn spec_contains(self, backend: Backend) -> bool {
        match backend {
            Backend::Vulkan => self.vulkan,
            Backend::Metal => self.metal,
            Backend::Dx12 => self.dx12,
            Backend::Dx11 => self.dx11,
            Backend::Empty => false,
        }
    }
}

/// What kind of hardware an adapter drives.
#[derive(Clone, Copy, Debug, PartialEq, Eq, Structural)]
pub enum DeviceType {
    Other,
    IntegratedGpu,
    DiscreteGpu,
    VirtualGpu,
    Cpu,
}

/// What is known about an adapter.
#[derive(Clone, Copy, Debug, PartialEq, Eq, Structural)]
pub struct AdapterInfo {
    pub device_type: DeviceType,
    pub backend: Backend,
}

/// Whether adapter selection should lean toward power or performance.
#[derive(Clone, Copy, Debug, PartialEq, Eq, Structural)]
pub enum PowerPreference {
    Default,
    LowPower,
    HighPerformance,
}

/// Options for requesting an adapter.
#[derive(Clone, Copy, Debug, PartialEq, Eq, Structural)]
pub struct RequestAdapterOptions {
    pub power_preference: PowerPreference,
}

/// The limits a device is created with.
#[derive(Clone, Copy, Debug, PartialEq, Eq, Structural)]
pub struct Limits {
    /// The most bind group layouts a pipeline layout may hold.
    pub max_bind_groups: u32,
}

impl Limits {
    /// The default limits.
    pub fn standard() -> (r: Limits)
        ensures
            r == (Limits { max_bind_groups: 4 }),
    {
        Limits { max_bind_groups: 4 }
    }
}

/// Describes a device to be requested from an adapter.
#[derive(Clone, Copy, Debug, PartialEq, Eq, Structural)]
pub struct DeviceDescriptor {
    pub limits: Limits,
}

/// Requesting a device failed: the adapter was no longer alive.
#[derive(Clone, Copy, Debug, PartialEq, Eq, Structural)]
pub struct RequestDeviceError;

/// Which way a buffer mapping faces.
#[derive(Clone, Copy, Debug, PartialEq, Eq, Structural)]
pub enum MapMode {
    Read,
    Write,
}

/// A handle to a physical graphics and/or compute device.
#[derive(Debug, PartialEq)]
pub struct Adapter {
    pub(crate) id: ResourceId,
}

impl Adapter {
    /// The identifier the registry issued for this adapter.
    pub open(crate) spec fn spec_id(self) -> ResourceId {
        self.id
    }

    /// The identifier the registry issued for this adapter.
    pub fn id(&self) -> (r: ResourceId)
        ensures
            r == self.spec_id(),
    {
        self.id
    }
}

/// An open connection to a graphics and/or compute device.
#[derive(Debug, PartialEq)]
pub struct Device {
    pub(crate) id: ResourceId,
}

impl Device {
    /// The identifier the registry issued for this device.
    pub open(crate) spec fn spec_id(self) -> ResourceId {
        self.id
    }

    /// The identifier the registry issued for this device.
    pub fn id(&self) -> (r: ResourceId)
        ensures
            r == self.spec_id(),
    {
        self.id
    }
}

/// A handle to a command queue of a device.
#[derive(Debug, PartialEq)]
pub struct Queue {
    pub(crate) id: ResourceId,
}

impl Queue {
    /// The identifier the registry issued for this queue.
    pub open(crate) spec fn spec_id(self) -> ResourceId {
        self.id
    }

    /// The identifier the registry issued for this queue.
    pub fn id(&self) -> (r: ResourceId)
        ensures
            r == self.spec_id(),
    {
        self.id
    }
}

} // verus!
