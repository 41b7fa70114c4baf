//! The context: the per-process hub every operation goes through.
//!
//! The context owns one identity registry per resource kind, the per-device
//! error sinks, and the shared cells of in-flight mapping futures. It is the
//! model of the backend state the rest of the crate is verified against:
//! buffers carry their bytes, mappings their window, and polling a device
//! resolves the mapping operations the backend has finished.

use vstd::prelude::*;

use crate::buffer::Bounded;
use crate::buffer::Buffer;
use crate::buffer::BufferDescriptor;
use crate::buffer::BufferRange;
use crate::buffer::BufferUsage;
use crate::device::Adapter;
use crate::device::AdapterInfo;
use crate::device::BackendBit;
use crate::device::Device;
use crate::device::DeviceDescriptor;
use crate::device::DeviceType;
use crate::device::Limits;
use crate::device::MapMode;
use crate::device::PowerPreference;
use crate::device::Queue;
use crate::device::RequestAdapterOptions;
use crate::device::RequestDeviceError;
use crate::error::BufferAsyncError;
use crate::error::Error;
use crate::error::FatalError;
use crate::error::StaleIdError;
use crate::error::UnsupportedBackendError;
use crate::error::ValidationCause;
use crate::future::FutureState;
use crate::future::GpuFuture;
use crate::future::WakerToken;
use crate::future::spec_cancel;
use crate::future::spec_poll;
use crate::id::Backend;
use crate::id::ResourceId;
use crate::registry::Registry;
use crate::sink::ErrorHandling;
use crate::sink::ErrorSink;

verus! {

/// The most bytes the model backend will allocate for one buffer; a larger
/// request is reported to the error sink as out of memory.
pub const MAX_BUFFER_SIZE: u64 = 0x1000_0000;

/// What a buffer mapping resolves to.
pub type MapResult = Result<(), BufferAsyncError>;

/// Where a buffer stands with respect to host mapping.
#[derive(Clone, Copy, Debug, PartialEq, Eq, Structural)]
pub enum BufferMapState {
    /// Not mapped; GPU work may use the buffer.
    Unmapped,
    /// A mapping was requested and has not resolved yet.
    MapPending { future: usize, write: bool, offset: u64, size: u64 },
    /// The window `[offset, offset + size)` is mapped into host memory.
    Mapped { write: bool, offset: u64, size: u64 },
}

/// One mapping operation a device has not resolved yet.
#[derive(Clone, Copy, Debug, PartialEq, Eq, Structural)]
pub struct PendingMap {
    /// The buffer being mapped.
    pub buffer: ResourceId,
    /// The index of the future the operation resolves through.
    pub future: usize,
}

/// The consumer's handle to an in-flight mapping future.
#[derive(Clone, Copy, Debug, PartialEq, Eq, Structural)]
pub struct MapToken {
    pub(crate) index: usize,
}

impl MapToken {
    /// The index of the future this token names.
    pub open(crate) spec fn spec_index(self) -> usize {
        self.index
    }

    /// The index of the future this token names.
    pub fn index(&self) -> (r: usize)
        ensures
            r == self.spec_index(),
    {
        self.index
    }
}

/// What the context stores per adapter.
pub(crate) struct AdapterResource {
    pub(crate) info: AdapterInfo,
}

/// What the context stores per device: the shared error sink, the mapping
/// operations not yet resolved, and the limits the device was created with.
pub(crate) struct DeviceResource {
    pub(crate) sink: ErrorSink,
    pub(crate) pending: Vec<PendingMap>,
    pub(crate) limits: Limits,
}

/// What the context stores per buffer.
pub(crate) struct BufferResource {
    pub(crate) data: Vec<u8>,
    pub(crate) usage: BufferUsage,
    pub(crate) device: ResourceId,
    pub(crate) map_state: BufferMapState,
}

/// An owned view of mapped buffer bytes, scoped to one mapping.
pub struct BufferReadMapping {
    pub(crate) data: Vec<u8>,
}

impl BufferReadMapping {
    /// The bytes of the mapped window.
    pub open(crate) spec fn spec_data(self) -> Seq<u8> {
        self.data@
    }

    /// The bytes of the mapped window.
    pub fn as_slice(&self) -> (r: &[u8])
        ensures
            r@ == self.spec_data(),
    {
        self.data.as_slice()
    }
}

/// A buffer created mapped in host memory: fill `data`, then call
/// [`CreateBufferMapped::finish`] to write the bytes and unmap.
pub struct CreateBufferMapped {
    /// The buffer, already created and mapped for writing.
    pub buffer: Buffer,
    /// The bytes that will become the buffer's contents.
    pub data: Vec<u8>,
}

/// The backend the context talks to and the bookkeeping for every resource
/// kind.
pub struct Context {
    pub(crate) active: Backend,
    pub(crate) available: BackendBit,
    pub(crate) adapters: Registry<AdapterResource>,
    pub(crate) devices: Registry<DeviceResource>,
    pub(crate) queues: Registry<ResourceId>,
    pub(crate) buffers: Registry<BufferResource>,
    pub(crate) textures: Registry<crate::resources::TextureResource>,
    pub(crate) texture_views: Registry<crate::resources::TextureViewResource>,
    pub(crate) samplers: Registry<crate::resources::SamplerResource>,
    pub(crate) shader_modules: Registry<crate::resources::ShaderModuleResource>,
    pub(crate) bind_group_layouts: Registry<crate::resources::BindGroupLayoutResource>,
    pub(crate) bind_groups: Registry<crate::resources::BindGroupResource>,
    pub(crate) pipeline_layouts: Registry<crate::resources::PipelineLayoutResource>,
    pub(crate) render_pipelines: Registry<crate::resources::RenderPipelineResource>,
    pub(crate) compute_pipelines: Registry<crate::resources::ComputePipelineResource>,
    pub(crate) encoders: Registry<ResourceId>,
    pub(crate) futures: Vec<GpuFuture<MapResult>>,
}

/// The backend a set of backend bits selects: the most capable available
/// one, or the empty backend when none is available.
pub open spec fn spec_pick_backend(bits: BackendBit) -> Backend {
    if bits.vulkan {
        Backend::Vulkan
    } else if bits.metal {
        Backend::Metal
    } else if bits.dx12 {
        Backend::Dx12
    } else if bits.dx11 {
        Backend::Dx11
    } else {
        Backend::Empty
    }
}

/// The kind of adapter the model offers for a power preference.
pub open spec fn spec_adapter_type(p: PowerPreference) -> DeviceType {
    match p {
        PowerPreference::HighPerformance => DeviceType::DiscreteGpu,
        PowerPreference::LowPower => DeviceType::IntegratedGpu,
        PowerPreference::Default => DeviceType::Other,
    }
}

impl Context {
    /// The backend this context drives.
    pub open(crate) spec fn spec_backend(self) -> Backend {
        self.active
    }

    /// The backends this context was built with.
    pub open(crate) spec fn spec_available(self) -> BackendBit {
        self.available
    }

    /// The adapter registry.
    pub open(crate) spec fn spec_adapters(self) -> Registry<AdapterResource> {
        self.adapters
    }

    /// The device registry.
    pub open(crate) spec fn spec_devices(self) -> Registry<DeviceResource> {
        self.devices
    }

    /// The queue registry; a queue maps to its device.
    pub open(crate) spec fn spec_queues(self) -> Registry<ResourceId> {
        self.queues
    }

    /// The buffer registry.
    pub open(crate) spec fn spec_buffers(self) -> Registry<BufferResource> {
        self.buffers
    }

    /// The mapping future cells, in creation order.
    pub open(crate) spec fn spec_futures(self) -> Seq<GpuFuture<MapResult>> {
        self.futures@
    }

    /// How many mapping futures exist.
    pub open(crate) spec fn spec_future_count(self) -> nat {
        self.futures@.len()
    }

    /// The state of one mapping future.
    pub open(crate) spec fn spec_future_state(self, i: int) -> FutureState<MapResult>
        recommends
            0 <= i < self.spec_future_count(),
    {
        self.futures@[i].state()
    }

    /// Whether `id` names a live adapter.
    pub open(crate) spec fn spec_adapter_live(self, id: ResourceId) -> bool {
        self.adapters.live(id)
    }

    /// What is known about a live adapter.
    pub open(crate) spec fn spec_adapter_info(self, id: ResourceId) -> AdapterInfo
        recommends
            self.spec_adapter_live(id),
    {
        self.adapters.value_of(id).info
    }

    /// The adapter registry is unchanged.
    pub open(crate) spec fn spec_same_adapters(self, pre: Context) -> bool {
        self.adapters == pre.adapters
    }

    /// The queue registry is unchanged.
    pub open(crate) spec fn spec_same_queues(self, pre: Context) -> bool {
        self.queues == pre.queues
    }

    /// The device named by `id` is live in both states and unchanged.
    pub open(crate) spec fn spec_device_unchanged(self, pre: Context, id: ResourceId) -> bool {
        self.devices.value_of(id) == pre.devices.value_of(id)
    }

    /// Whether `id` names a live device.
    pub open(crate) spec fn spec_device_live(self, id: ResourceId) -> bool {
        self.devices.live(id)
    }

    /// The errors a device's sink has received so far.
    pub open(crate) spec fn spec_device_errors(self, id: ResourceId) -> Seq<Error>
        recommends
            self.spec_device_live(id),
    {
        self.devices.value_of(id).sink.spec_received()
    }

    /// How a device's sink handles errors.
    pub open(crate) spec fn spec_device_handling(self, id: ResourceId) -> ErrorHandling
        recommends
            self.spec_device_live(id),
    {
        self.devices.value_of(id).sink.spec_handling()
    }

    /// Whether a device's sink saw an error while treating errors as fatal.
    pub open(crate) spec fn spec_device_fatal(self, id: ResourceId) -> bool
        recommends
            self.spec_device_live(id),
    {
        self.devices.value_of(id).sink.spec_fatal_observed()
    }

    /// The mapping operations a device has not resolved yet.
    pub open(crate) spec fn spec_device_pending(self, id: ResourceId) -> Seq<PendingMap>
        recommends
            self.spec_device_live(id),
    {
        self.devices.value_of(id).pending@
    }

    /// The limits a device was created with.
    pub open(crate) spec fn spec_device_limits(self, id: ResourceId) -> Limits
        recommends
            self.spec_device_live(id),
    {
        self.devices.value_of(id).limits
    }

    /// Whether `id` names a live queue.
    pub open(crate) spec fn spec_queue_live(self, id: ResourceId) -> bool {
        self.queues.live(id)
    }

    /// The device a queue belongs to.
    pub open(crate) spec fn spec_queue_device(self, id: ResourceId) -> ResourceId
        recommends
            self.spec_queue_live(id),
    {
        self.queues.value_of(id)
    }

    /// Whether `id` names a live buffer.
    pub open(crate) spec fn spec_buffer_live(self, id: ResourceId) -> bool {
        self.buffers.live(id)
    }

    /// A live buffer's bytes.
    pub open(crate) spec fn spec_buffer_data(self, id: ResourceId) -> Seq<u8>
        recommends
            self.spec_buffer_live(id),
    {
        self.buffers.value_of(id).data@
    }

    /// A live buffer's usage flags.
    pub open(crate) spec fn spec_buffer_usage(self, id: ResourceId) -> BufferUsage
        recommends
            self.spec_buffer_live(id),
    {
        self.buffers.value_of(id).usage
    }

    /// The device a live buffer was created from.
    pub open(crate) spec fn spec_buffer_device(self, id: ResourceId) -> ResourceId
        recommends
            self.spec_buffer_live(id),
    {
        self.buffers.value_of(id).device
    }

    /// A live buffer's mapping state.
    pub open(crate) spec fn spec_buffer_map_state(self, id: ResourceId) -> BufferMapState
        recommends
            self.spec_buffer_live(id),
    {
        self.buffers.value_of(id).map_state
    }

    /// The context's internal invariant: every registry is well formed and
    /// tagged with the active backend.
    pub open(crate) spec fn wf(self) -> bool {
        &&& self.adapters.wf() && self.adapters.backend() == self.active
        &&& self.devices.wf() && self.devices.backend() == self.active
        &&& self.queues.wf() && self.queues.backend() == self.active
        &&& self.buffers.wf() && self.buffers.backend() == self.active
        &&& self.textures.wf() && self.textures.backend() == self.active
        &&& self.texture_views.wf() && self.texture_views.backend() == self.active
        &&& self.samplers.wf() && self.samplers.backend() == self.active
        &&& self.shader_modules.wf() && self.shader_modules.backend() == self.active
        &&& self.bind_group_layouts.wf() && self.bind_group_layouts.backend() == self.active
        &&& self.bind_groups.wf() && self.bind_groups.backend() == self.active
        &&& self.pipeline_layouts.wf() && self.pipeline_layouts.backend() == self.active
        &&& self.render_pipelines.wf() && self.render_pipelines.backend() == self.active
        &&& self.compute_pipelines.wf() && self.compute_pipelines.backend() == self.active
        &&& self.encoders.wf() && self.encoders.backend() == self.active
    }

    /// No buffer changed: the same ones are live, with the same bytes, usage,
    /// owning device and mapping state.
    pub open(crate) spec fn spec_same_buffers(self, pre: Context) -> bool {
        self.buffers == pre.buffers
    }

    /// No device changed: the same ones are live, with the same sinks,
    /// pending operations and limits.
    pub open(crate) spec fn spec_same_devices(self, pre: Context) -> bool {
        self.devices == pre.devices
    }

    /// The future cells are unchanged.
    pub open(crate) spec fn spec_same_futures(self, pre: Context) -> bool {
        self.futures == pre.futures
    }

    /// Creates a context over the backends named by `backends`.
    ///
    /// The context drives the most capable available backend; with no
    /// backend available it is empty and offers no adapters.
    pub fn init(backends: BackendBit) -> (r: Context)
        ensures
            r.wf(),
            r.spec_backend() == spec_pick_backend(backends),
            r.spec_available() == backends,
            forall|id: ResourceId| !r.spec_adapter_live(id),
            forall|id: ResourceId| !r.spec_device_live(id),
            forall|id: ResourceId| !r.spec_queue_live(id),
            forall|id: ResourceId| !r.spec_buffer_live(id),
            r.spec_future_count() == 0,
    {
        let active = if backends.vulkan {
            Backend::Vulkan
        } else if backends.metal {
            Backend::Metal
        } else if backends.dx12 {
            Backend::Dx12
        } else if backends.dx11 {
            Backend::Dx11
        } else {
            Backend::Empty
        };
        Context {
            active,
            available: backends,
            adapters: Registry::new(active),
            devices: Registry::new(active),
            queues: Registry::new(active),
            buffers: Registry::new(active),
            textures: Registry::new(active),
            texture_views: Registry::new(active),
            samplers: Registry::new(active),
            shader_modules: Registry::new(active),
            bind_group_layouts: Registry::new(active),
            bind_groups: Registry::new(active),
            pipeline_layouts: Registry::new(active),
            render_pipelines: Registry::new(active),
            compute_pipelines: Registry::new(active),
            encoders: Registry::new(active),
            futures: Vec::new(),
        }
    }

    /// The pure backend selection of the dispatcher: an identifier is
    /// serviceable exactly when it names the context's active backend; any
    /// other tag is a build-configuration error, not a runtime condition.
    pub fn dispatch(&self, id: ResourceId) -> (r: Result<(), UnsupportedBackendError>)
        ensures
            r is Ok <==> id.backend == self.spec_backend(),
            r is Err ==> r == Result::<(), UnsupportedBackendError>::Err(UnsupportedBackendError),
    {
        if id.backend == self.active {
            Ok(())
        } else {
            Err(UnsupportedBackendError)
        }
    }

    /// Retrieves an adapter matching the given options, or nothing when no
    /// backend is available.
    pub fn request_adapter(&mut self, options: &RequestAdapterOptions) -> (r: Option<Adapter>)
        requires
            old(self).wf(),
        ensures
            final(self).wf(),
            final(self).spec_backend() == old(self).spec_backend(),
            r is Some <==> !(old(self).spec_backend() is Empty),
            r matches Some(a) ==> {
                &&& final(self).spec_adapter_live(a.spec_id())
                &&& !old(self).spec_adapter_live(a.spec_id())
                &&& final(self).spec_adapter_info(a.spec_id()) == (AdapterInfo {
                    device_type: spec_adapter_type(options.power_preference),
                    backend: old(self).spec_backend(),
                })
            },
            r is None ==> final(self).spec_same_adapters(*old(self)),
            final(self).spec_same_devices(*old(self)),
            final(self).spec_same_buffers(*old(self)),
            final(self).spec_same_futures(*old(self)),
            final(self).spec_same_queues(*old(self)),
    {
        match self.active {
            Backend::Empty => None,
            _ => {
                let device_type = match options.power_preference {
                    PowerPreference::HighPerformance => DeviceType::DiscreteGpu,
                    PowerPreference::LowPower => DeviceType::IntegratedGpu,
                    PowerPreference::Default => DeviceType::Other,
                };
                let info = AdapterInfo { device_type, backend: self.active };
                let id = self.adapters.allocate(AdapterResource { info });
                Some(Adapter { id })
            },
        }
    }

    /// Retrieves all available adapters: in this model, one per context
    /// unless no backend is available.
    pub fn enumerate_adapters(&mut self) -> (r: Vec<Adapter>)
        requires
            old(self).wf(),
        ensures
            final(self).wf(),
            final(self).spec_backend() == old(self).spec_backend(),
            r@.len() == (if old(self).spec_backend() is Empty {
                0int
            } else {
                1int
            }),
            forall|k: int|
                0 <= k < r@.len() ==> final(self).spec_adapter_live(#[trigger] r@[k].spec_id()),
            final(self).spec_same_devices(*old(self)),
            final(self).spec_same_buffers(*old(self)),
            final(self).spec_same_futures(*old(self)),
    {
        let mut found: Vec<Adapter> = Vec::new();
        match self.active {
            Backend::Empty => {
            },
            _ => {
                let info = AdapterInfo { device_type: DeviceType::Other, backend: self.active };
                let id = self.adapters.allocate(AdapterResource { info });
                found.push(Adapter { id });
            },
        }
        found
    }

    /// What is known about an adapter; fails once the adapter is gone.
    pub fn adapter_get_info(&self, adapter: &Adapter) -> (r: Result<AdapterInfo, StaleIdError>)
        ensures
            r is Ok <==> self.spec_adapter_live(adapter.spec_id()),
            r matches Ok(info) ==> info == self.spec_adapter_info(adapter.spec_id()),
    {
        match self.adapters.resolve(adapter.id()) {
            Ok(res) => Ok(res.info),
            Err(e) => Err(e),
        }
    }

    /// Opens a connection to a device of `adapter`, returning the device
    /// together with the queue that executes its command buffers.
    ///
    /// Succeeds exactly while the adapter is alive. The new device owns a
    /// fresh error sink with the default fatal handler, has no pending
    /// operations, and the queue belongs to it.
    pub fn adapter_request_device(&mut self, adapter: &Adapter, desc: &DeviceDescriptor) -> (r:
        Result<(Device, Queue), RequestDeviceError>)
        requires
            old(self).wf(),
        ensures
            final(self).wf(),
            final(self).spec_backend() == old(self).spec_backend(),
            r is Ok <==> old(self).spec_adapter_live(adapter.spec_id()),
            r matches Ok(dq) ==> {
                &&& dq.0.spec_id().backend == old(self).spec_backend()
                &&& dq.1.spec_id().backend == old(self).spec_backend()
                &&& final(self).spec_device_live(dq.0.spec_id())
                &&& !old(self).spec_device_live(dq.0.spec_id())
                &&& final(self).spec_device_errors(dq.0.spec_id()) == Seq::<Error>::empty()
                &&& final(self).spec_device_handling(dq.0.spec_id()) == ErrorHandling::Fatal
                &&& !final(self).spec_device_fatal(dq.0.spec_id())
                &&& final(self).spec_device_pending(dq.0.spec_id()) == Seq::<PendingMap>::empty()
                &&& final(self).spec_device_limits(dq.0.spec_id()) == desc.limits
                &&& final(self).spec_queue_live(dq.1.spec_id())
                &&& final(self).spec_queue_device(dq.1.spec_id()) == dq.0.spec_id()
                &&& forall|o: ResourceId|
                    o != dq.0.spec_id() ==> (final(self).spec_device_live(o) <==> old(
                        self,
                    ).spec_device_live(o))
                &&& forall|o: ResourceId|
                    (o != dq.0.spec_id() && old(self).spec_device_live(o)) ==> final(self).spec_device_unchanged(*old(self), o)
            },
            r is Err ==> final(self).spec_same_devices(*old(self)) && final(self).spec_same_queues(*old(self)),
            final(self).spec_same_buffers(*old(self)),
            final(self).spec_same_futures(*old(self)),
            final(self).spec_same_adapters(*old(self)),
    {
        if !self.adapters.is_live(adapter.id()) {
            return Err(RequestDeviceError);
        }
        let device_id = self.devices.allocate(
            DeviceResource { sink: ErrorSink::new(), pending: Vec::new(), limits: desc.limits },
        );
        let queue_id = self.queues.allocate(device_id);
        Ok((Device { id: device_id }, Queue { id: queue_id }))
    }

    /// Installs how the device's sink handles uncaptured errors: fatal, the
    /// default, or recording so the caller can recover. A stale device is
    /// left alone.
    pub fn device_on_uncaptured_error(&mut self, device: &Device, handling: ErrorHandling)
        requires
            old(self).wf(),
        ensures
            final(self).wf(),
            final(self).spec_backend() == old(self).spec_backend(),
            old(self).spec_device_live(device.spec_id()) ==> {
                &&& final(self).spec_device_handling(device.spec_id()) == handling
                &&& final(self).spec_device_errors(device.spec_id()) == old(
                    self,
                ).spec_device_errors(device.spec_id())
                &&& final(self).spec_device_fatal(device.spec_id()) == old(self).spec_device_fatal(
                    device.spec_id(),
                )
                &&& final(self).spec_device_pending(device.spec_id()) == old(
                    self,
                ).spec_device_pending(device.spec_id())
                &&& final(self).spec_device_limits(device.spec_id()) == old(
                    self,
                ).spec_device_limits(device.spec_id())
            },
            !old(self).spec_device_live(device.spec_id()) ==> final(self).spec_same_devices(
                *old(self),
            ),
            forall|o: ResourceId|
                final(self).spec_device_live(o) <==> old(self).spec_device_live(o),
            forall|o: ResourceId|
                o != device.spec_id() && old(self).spec_device_live(o) ==> final(self).spec_device_unchanged(*old(self), o),
            final(self).spec_same_buffers(*old(self)),
            final(self).spec_same_futures(*old(self)),
            final(self).spec_same_queues(*old(self)),
            final(self).spec_same_adapters(*old(self)),
    {
        if self.devices.is_live(device.id()) {
            let dev = self.devices.borrow_mut(device.id());
            dev.sink.set_handling(handling);
        }
    }

    /// The errors a device's sink has received so far, oldest first; empty
    /// for a stale device.
    pub fn device_errors(&self, device: &Device) -> (r: Vec<Error>)
        ensures
            self.spec_device_live(device.spec_id()) ==> r@ == self.spec_device_errors(
                device.spec_id(),
            ),
            !self.spec_device_live(device.spec_id()) ==> r@ == Seq::<Error>::empty(),
    {
        match self.devices.resolve(device.id()) {
            Ok(dev) => clone_errors(&dev.sink.received),
            Err(_) => Vec::new(),
        }
    }

    /// Whether the device's sink received an error while its handler treated
    /// errors as fatal; false for a stale device.
    pub fn device_fatal_observed(&self, device: &Device) -> (r: bool)
        ensures
            self.spec_device_live(device.spec_id()) ==> r == self.spec_device_fatal(
                device.spec_id(),
            ),
            !self.spec_device_live(device.spec_id()) ==> !r,
    {
        match self.devices.resolve(device.id()) {
            Ok(dev) => dev.sink.fatal_observed,
            Err(_) => false,
        }
    }
}

impl Context {
    /// The buffer named by `id` is wholly unchanged.
    pub open(crate) spec fn spec_buffer_unchanged(self, pre: Context, id: ResourceId) -> bool {
        self.buffers.value_of(id) == pre.buffers.value_of(id)
    }

    /// The buffer named by `id` kept its bytes, usage and owning device.
    pub open(crate) spec fn spec_buffer_same_except_map(self, pre: Context, id: ResourceId) -> bool {
        &&& self.spec_buffer_data(id) == pre.spec_buffer_data(id)
        &&& self.spec_buffer_usage(id) == pre.spec_buffer_usage(id)
        &&& self.spec_buffer_device(id) == pre.spec_buffer_device(id)
    }

    /// Every buffer but `except` kept its liveness and its contents.
    pub open(crate) spec fn spec_buffers_framed(self, pre: Context, except: ResourceId) -> bool {
        &&& forall|o: ResourceId|
            o != except ==> (self.spec_buffer_live(o) <==> pre.spec_buffer_live(o))
        &&& forall|o: ResourceId|
            o != except && pre.spec_buffer_live(o) ==> self.spec_buffer_unchanged(pre, o)
    }

    /// Every device but `except` kept its liveness and its state.
    pub open(crate) spec fn spec_devices_framed(self, pre: Context, except: ResourceId) -> bool {
        &&& forall|o: ResourceId|
            o != except ==> (self.spec_device_live(o) <==> pre.spec_device_live(o))
        &&& forall|o: ResourceId|
            o != except && pre.spec_device_live(o) ==> self.spec_device_unchanged(pre, o)
    }

    /// The sink of device `d` received exactly `e` on top of what it had;
    /// nothing else about the device changed.
    pub open(crate) spec fn spec_error_delivered(self, pre: Context, d: ResourceId, e: Error) -> bool {
        &&& self.spec_device_errors(d) == pre.spec_device_errors(d).push(e)
        &&& self.spec_device_handling(d) == pre.spec_device_handling(d)
        &&& self.spec_device_fatal(d) == (pre.spec_device_fatal(d) || pre.spec_device_handling(d)
            == ErrorHandling::Fatal)
        &&& self.spec_device_pending(d) == pre.spec_device_pending(d)
        &&& self.spec_device_limits(d) == pre.spec_device_limits(d)
    }

    /// Whether a mapping request for this mode is allowed by a buffer's
    /// usage flags.
    pub open spec fn spec_map_allowed(mode: MapMode, u: BufferUsage) -> bool {
        match mode {
            MapMode::Read => u.map_read,
            MapMode::Write => u.map_write,
        }
    }

    /// Whether a mapping request on buffer `bid` is accepted: the buffer and
    /// its device are alive, the usage flags allow the mode, and no mapping
    /// is already in progress.
    pub open(crate) spec fn spec_map_async_accepts(self, bid: ResourceId, mode: MapMode) -> bool {
        &&& self.spec_buffer_live(bid)
        &&& self.spec_device_live(self.spec_buffer_device(bid))
        &&& Self::spec_map_allowed(mode, self.spec_buffer_usage(bid))
        &&& self.spec_buffer_map_state(bid) is Unmapped
    }

    /// Delivers `error` to the sink of device `device`, if that device is
    /// still alive; a dead device has no sink and the error is dropped.
    pub(crate) fn deliver_error(&mut self, device: ResourceId, error: Error)
        requires
            old(self).wf(),
        ensures
            final(self).wf(),
            final(self).spec_backend() == old(self).spec_backend(),
            old(self).spec_device_live(device) ==> final(self).spec_error_delivered(
                *old(self),
                device,
                error,
            ),
            !old(self).spec_device_live(device) ==> final(self).spec_same_devices(*old(self)),
            final(self).spec_devices_framed(*old(self), device),
            forall|o: ResourceId|
                final(self).spec_device_live(o) <==> old(self).spec_device_live(o),
            final(self).spec_same_buffers(*old(self)),
            final(self).spec_same_futures(*old(self)),
            final(self).spec_same_adapters(*old(self)),
            final(self).spec_same_queues(*old(self)),
            final(self).spec_same_resources(*old(self)),
    {
        if self.devices.is_live(device) {
            let dev = self.devices.borrow_mut(device);
            dev.sink.handle_error(error);
        }
    }

    /// Creates a new buffer on `device`.
    ///
    /// The buffer starts with every byte zero and unmapped. A request larger
    /// than the backend can serve is reported to the device's sink as out of
    /// memory, and the returned handle's identifier is already dead, so every
    /// later use of it fails with a stale-identifier error.
    pub fn device_create_buffer(&mut self, device: &Device, desc: &BufferDescriptor) -> (r: Buffer)
        requires
            old(self).wf(),
            old(self).spec_device_live(device.spec_id()),
        ensures
            final(self).wf(),
            final(self).spec_backend() == old(self).spec_backend(),
            r.spec_device_id() == device.spec_id(),
            r.spec_size() == desc.size,
            r.spec_usage() == desc.usage,
            !r.spec_destroyed(),
            !old(self).spec_buffer_live(r.spec_id()),
            desc.size <= MAX_BUFFER_SIZE ==> {
                &&& final(self).spec_buffer_live(r.spec_id())
                &&& final(self).spec_buffer_data(r.spec_id()) == Seq::new(
                    desc.size as nat,
                    |i: int| 0u8,
                )
                &&& final(self).spec_buffer_usage(r.spec_id()) == desc.usage
                &&& final(self).spec_buffer_device(r.spec_id()) == device.spec_id()
                &&& final(self).spec_buffer_map_state(r.spec_id()) == BufferMapState::Unmapped
                &&& final(self).spec_same_devices(*old(self))
            },
            desc.size > MAX_BUFFER_SIZE ==> {
                &&& !final(self).spec_buffer_live(r.spec_id())
                &&& final(self).spec_error_delivered(*old(self), device.spec_id(), Error::OutOfMemory)
            },
            final(self).spec_buffers_framed(*old(self), r.spec_id()),
            final(self).spec_devices_framed(*old(self), device.spec_id()),
            final(self).spec_same_futures(*old(self)),
            final(self).spec_same_adapters(*old(self)),
            final(self).spec_same_queues(*old(self)),
    {
        if desc.size <= MAX_BUFFER_SIZE {
            let n = desc.size as usize;
            let data = zeroed_vec(n);
            let id = self.buffers.allocate(
                BufferResource {
                    data,
                    usage: desc.usage,
                    device: device.id(),
                    map_state: BufferMapState::Unmapped,
                },
            );
            Buffer {
                id,
                device_id: device.id(),
                size: desc.size,
                usage: desc.usage,
                destroyed: false,
            }
        } else {
            let id = self.buffers.allocate(
                BufferResource {
                    data: Vec::new(),
                    usage: desc.usage,
                    device: device.id(),
                    map_state: BufferMapState::Unmapped,
                },
            );
            let freed = self.buffers.free(id);
            match freed {
                Ok(_) => {
                },
                Err(_) => {
                    proof {
                        assert(false);
                    }
                },
            }
            let ghost mid = *self;
            self.deliver_error(device.id(), Error::OutOfMemory);
            proof {
                assert(mid.devices == old(self).devices);
                assert forall|o: ResourceId| o != device.spec_id() implies (
                self.spec_device_live(o) <==> old(self).spec_device_live(o)) by {
                    assert(mid.spec_device_live(o) <==> old(self).spec_device_live(o));
                }
                assert forall|o: ResourceId|
                    o != device.spec_id() && old(self).spec_device_live(o) implies self.spec_device_unchanged(*old(self), o) by {
                    assert(mid.spec_device_unchanged(*old(self), o));
                    assert(self.spec_device_unchanged(mid, o));
                }
            }
            Buffer {
                id,
                device_id: device.id(),
                size: desc.size,
                usage: desc.usage,
                destroyed: false,
            }
        }
    }

    /// Creates a new buffer of `size` bytes, mapped for writing.
    ///
    /// Fill the returned value's bytes and call its `finish` to write them
    /// and unmap.
    pub fn device_create_buffer_mapped(&mut self, device: &Device, size: usize, usage: BufferUsage) -> (r:
        CreateBufferMapped)
        requires
            old(self).wf(),
            old(self).spec_device_live(device.spec_id()),
            0 < size,
            size as u64 <= MAX_BUFFER_SIZE,
        ensures
            final(self).wf(),
            final(self).spec_backend() == old(self).spec_backend(),
            r.buffer.spec_device_id() == device.spec_id(),
            r.buffer.spec_size() == size as u64,
            r.buffer.spec_usage() == usage,
            !r.buffer.spec_destroyed(),
            r.data@ == Seq::new(size as nat, |i: int| 0u8),
            !old(self).spec_buffer_live(r.buffer.spec_id()),
            final(self).spec_buffer_live(r.buffer.spec_id()),
            final(self).spec_buffer_data(r.buffer.spec_id()) == Seq::new(size as nat, |i: int| 0u8),
            final(self).spec_buffer_usage(r.buffer.spec_id()) == usage,
            final(self).spec_buffer_device(r.buffer.spec_id()) == device.spec_id(),
            final(self).spec_buffer_map_state(r.buffer.spec_id()) == (BufferMapState::Mapped {
                write: true,
                offset: 0,
                size: size as u64,
            }),
            final(self).spec_buffers_framed(*old(self), r.buffer.spec_id()),
            final(self).spec_same_devices(*old(self)),
            final(self).spec_same_futures(*old(self)),
            final(self).spec_same_adapters(*old(self)),
            final(self).spec_same_queues(*old(self)),
    {
        let data = zeroed_vec(size);
        let staged = zeroed_vec(size);
        let id = self.buffers.allocate(
            BufferResource {
                data,
                usage,
                device: device.id(),
                map_state: BufferMapState::Mapped { write: true, offset: 0, size: size as u64 },
            },
        );
        CreateBufferMapped {
            buffer: Buffer {
                id,
                device_id: device.id(),
                size: size as u64,
                usage,
                destroyed: false,
            },
            data: staged,
        }
    }

    /// Creates a new buffer holding a copy of `data`, by creating it mapped,
    /// writing the bytes and unmapping.
    pub fn device_create_buffer_with_data(&mut self, device: &Device, data: &[u8], usage: BufferUsage) -> (r: Buffer)
        requires
            old(self).wf(),
            old(self).spec_device_live(device.spec_id()),
            0 < data@.len(),
            data@.len() as u64 <= MAX_BUFFER_SIZE,
        ensures
            final(self).wf(),
            final(self).spec_backend() == old(self).spec_backend(),
            r.spec_device_id() == device.spec_id(),
            r.spec_size() == data@.len(),
            r.spec_usage() == usage,
            !r.spec_destroyed(),
            !old(self).spec_buffer_live(r.spec_id()),
            final(self).spec_buffer_live(r.spec_id()),
            final(self).spec_buffer_data(r.spec_id()) == data@,
            final(self).spec_buffer_usage(r.spec_id()) == usage,
            final(self).spec_buffer_device(r.spec_id()) == device.spec_id(),
            final(self).spec_buffer_map_state(r.spec_id()) == BufferMapState::Unmapped,
            final(self).spec_buffers_framed(*old(self), r.spec_id()),
            final(self).spec_same_devices(*old(self)),
            final(self).spec_same_futures(*old(self)),
            final(self).spec_same_adapters(*old(self)),
            final(self).spec_same_queues(*old(self)),
    {
        let mut mapped = self.device_create_buffer_mapped(device, data.len(), usage);
        mapped.data = slice_to_vec(data);
        mapped.finish(self)
    }

    /// Requests that the range be mapped into host memory.
    ///
    /// The request is accepted exactly when [`Context::spec_map_async_accepts`]
    /// says so: the buffer and its device are alive, the usage flags allow
    /// the mode, and the buffer is unmapped. An accepted request leaves an
    /// unpolled future and a pending operation on the device that the next
    /// poll resolves; a rejected one yields a future already completed with
    /// an error, and reports to the device's sink why, where a sink can still
    /// be reached.
    pub fn buffer_map_async<'a>(&mut self, source: BufferRange<'a, Bounded>, mode: MapMode) -> (r:
        MapToken)
        requires
            old(self).wf(),
            source.wf(),
        ensures
            final(self).wf(),
            final(self).spec_backend() == old(self).spec_backend(),
            r.spec_index() == old(self).spec_future_count(),
            final(self).spec_future_count() == old(self).spec_future_count() + 1,
            forall|i: int|
                0 <= i < old(self).spec_future_count() ==> final(self).spec_futures()[i] == old(
                    self,
                ).spec_futures()[i],
            final(self).spec_futures()[r.spec_index() as int].buffer() == source.spec_buffer().spec_id(),
            final(self).spec_same_adapters(*old(self)),
            final(self).spec_same_queues(*old(self)),
            forall|o: ResourceId|
                final(self).spec_buffer_live(o) <==> old(self).spec_buffer_live(o),
            forall|o: ResourceId|
                final(self).spec_device_live(o) <==> old(self).spec_device_live(o),
            old(self).spec_map_async_accepts(source.spec_buffer().spec_id(), mode) ==> ({
                let bid = source.spec_buffer().spec_id();
                let did = old(self).spec_buffer_device(bid);
                &&& final(self).spec_buffer_live(bid)
                &&& final(self).spec_device_live(did)
                &&& final(self).spec_future_state(r.spec_index() as int) is Unpolled
                &&& final(self).spec_buffer_map_state(bid) == (BufferMapState::MapPending {
                    future: r.spec_index(),
                    write: mode is Write,
                    offset: source.spec_offset(),
                    size: source.spec_size()->Some_0,
                })
                &&& final(self).spec_buffer_same_except_map(*old(self), bid)
                &&& final(self).spec_buffers_framed(*old(self), bid)
                &&& final(self).spec_device_pending(did) == old(self).spec_device_pending(
                    did,
                ).push(PendingMap { buffer: bid, future: r.spec_index() })
                &&& final(self).spec_device_errors(did) == old(self).spec_device_errors(did)
                &&& final(self).spec_device_fatal(did) == old(self).spec_device_fatal(did)
                &&& final(self).spec_device_handling(did) == old(self).spec_device_handling(did)
                &&& final(self).spec_devices_framed(*old(self), did)
            }),
            !old(self).spec_map_async_accepts(source.spec_buffer().spec_id(), mode) ==> ({
                let bid = source.spec_buffer().spec_id();
                &&& final(self).spec_future_state(r.spec_index() as int) == FutureState::Completed(
                    Result::<(), BufferAsyncError>::Err(BufferAsyncError),
                )
                &&& final(self).spec_same_buffers(*old(self))
            }),
            ({
                let bid = source.spec_buffer().spec_id();
                &&& (!old(self).spec_buffer_live(bid) && old(self).spec_device_live(
                    source.spec_buffer().spec_device_id(),
                )) ==> final(self).spec_error_delivered(
                    *old(self),
                    source.spec_buffer().spec_device_id(),
                    Error::Validation(ValidationCause::StaleResource),
                )
                &&& (old(self).spec_buffer_live(bid) && old(self).spec_device_live(
                    old(self).spec_buffer_device(bid),
                ) && !Self::spec_map_allowed(mode, old(self).spec_buffer_usage(bid))) ==> final(self).spec_error_delivered(
                    *old(self),
                    old(self).spec_buffer_device(bid),
                    Error::Validation(ValidationCause::UsageMismatch),
                )
                &&& (old(self).spec_buffer_live(bid) && old(self).spec_device_live(
                    old(self).spec_buffer_device(bid),
                ) && Self::spec_map_allowed(mode, old(self).spec_buffer_usage(bid)) && !(old(
                    self,
                ).spec_buffer_map_state(bid) is Unmapped)) ==> final(self).spec_error_delivered(
                    *old(self),
                    old(self).spec_buffer_device(bid),
                    Error::Validation(ValidationCause::MapStateMismatch),
                )
            }),
    {
        let bid = source.buffer.id();
        let idx = self.futures.len();
        let mut fut: GpuFuture<MapResult> = GpuFuture::new(bid, source.size);
        let mut accepted = false;
        if self.buffers.is_live(bid) {
            let (dev, usage, ms) = match self.buffers.resolve(bid) {
                Ok(res) => (res.device, res.usage, res.map_state),
                Err(_) => vstd::pervasive::unreached(),
            };
            let allowed = match mode {
                MapMode::Read => usage.map_read,
                MapMode::Write => usage.map_write,
            };
            if !self.devices.is_live(dev) {
            } else if !allowed {
                self.deliver_error(dev, Error::Validation(ValidationCause::UsageMismatch));
            } else {
                match ms {
                    BufferMapState::Unmapped => {
                        accepted = true;
                        let write = match mode {
                            MapMode::Read => false,
                            MapMode::Write => true,
                        };
                        let res = self.buffers.borrow_mut(bid);
                        res.map_state = BufferMapState::MapPending {
                            future: idx,
                            write,
                            offset: source.offset,
                            size: source.size,
                        };
                        let d = self.devices.borrow_mut(dev);
                        d.pending.push(PendingMap { buffer: bid, future: idx });
                    },
                    _ => {
                        self.deliver_error(
                            dev,
                            Error::Validation(ValidationCause::MapStateMismatch),
                        );
                    },
                }
            }
        } else {
            self.deliver_error(
                source.buffer.device_id,
                Error::Validation(ValidationCause::StaleResource),
            );
        }
        if !accepted {
            let outcome = fut.complete(Err(BufferAsyncError));
            match outcome {
                Ok(_) => {
                },
                Err(_) => {
                    proof {
                        assert(false);
                    }
                },
            }
        }
        self.futures.push(fut);
        MapToken { index: idx }
    }

    /// Polls a mapping future on behalf of the task named by `waker`.
    ///
    /// Returns the mapping's result once it is stored, consuming it;
    /// otherwise registers the waker and stays pending. Polling a future
    /// that was consumed or cancelled is a fault of the core's caller and is
    /// reported as fatal.
    pub fn buffer_map_poll(&mut self, token: MapToken, waker: WakerToken) -> (r: Result<
        Option<MapResult>,
        FatalError,
    >)
        requires
            old(self).wf(),
            token.spec_index() < old(self).spec_future_count(),
        ensures
            final(self).wf(),
            final(self).spec_backend() == old(self).spec_backend(),
            final(self).spec_future_count() == old(self).spec_future_count(),
            forall|i: int|
                0 <= i < old(self).spec_future_count() && i != token.spec_index() ==> final(self).spec_futures()[i] == old(self).spec_futures()[i],
            final(self).spec_same_buffers(*old(self)),
            final(self).spec_same_devices(*old(self)),
            final(self).spec_same_adapters(*old(self)),
            final(self).spec_same_queues(*old(self)),
            ({
                let st = old(self).spec_future_state(token.spec_index() as int);
                &&& ((st is Consumed || st is Cancelled) ==> r == Result::<
                    Option<MapResult>,
                    FatalError,
                >::Err(FatalError::PollAfterConsume) && final(self).spec_same_futures(*old(self)))
                &&& (!(st is Consumed) && !(st is Cancelled)) ==> r is Ok && (
                final(self).spec_future_state(token.spec_index() as int),
                r->Ok_0,
                ) == spec_poll(st, waker)
            }),
    {
        let idx = token.index;
        if !self.futures[idx].can_poll() {
            return Err(FatalError::PollAfterConsume);
        }
        let f = &mut self.futures[idx];
        Ok(f.poll(waker))
    }

    /// Abandons a mapping future, as dropping it does.
    ///
    /// If the mapping was still in flight — polled and unresolved — the
    /// cancellation unmaps the buffer, and the buffer it unmapped is
    /// returned; the pending operation's eventual completion then finds a
    /// cancelled future and is a no-op. The model's bookkeeping also releases
    /// the mapping window of a never-polled request, with no unmap to issue.
    pub fn buffer_map_cancel(&mut self, token: MapToken) -> (r: Option<ResourceId>)
        requires
            old(self).wf(),
            token.spec_index() < old(self).spec_future_count(),
            !(old(self).spec_future_state(token.spec_index() as int) is Cancelled),
        ensures
            final(self).wf(),
            final(self).spec_backend() == old(self).spec_backend(),
            final(self).spec_future_count() == old(self).spec_future_count(),
            forall|i: int|
                0 <= i < old(self).spec_future_count() && i != token.spec_index() ==> final(self).spec_futures()[i] == old(self).spec_futures()[i],
            final(self).spec_future_state(token.spec_index() as int) is Cancelled,
            forall|o: ResourceId|
                final(self).spec_buffer_live(o) <==> old(self).spec_buffer_live(o),
            r == spec_cancel(
                old(self).spec_future_state(token.spec_index() as int),
                old(self).spec_futures()[token.spec_index() as int].buffer(),
            ).1,
            final(self).spec_same_devices(*old(self)),
            final(self).spec_same_adapters(*old(self)),
            final(self).spec_same_queues(*old(self)),
            ({
                let bid = old(self).spec_futures()[token.spec_index() as int].buffer();
                &&& final(self).spec_buffers_framed(*old(self), bid)
                &&& (old(self).spec_buffer_live(bid) && (old(self).spec_buffer_map_state(bid)
                    matches BufferMapState::MapPending { future, .. } && future
                    == token.spec_index())) ==> (final(self).spec_buffer_map_state(bid)
                    == BufferMapState::Unmapped && final(self).spec_buffer_same_except_map(
                    *old(self),
                    bid,
                ))
                &&& !(old(self).spec_buffer_live(bid) && (old(self).spec_buffer_map_state(bid)
                    matches BufferMapState::MapPending { future, .. } && future
                    == token.spec_index())) ==> final(self).spec_same_buffers(*old(self))
            }),
    {
        let idx = token.index;
        let (bid, _size) = self.futures[idx].get_buffer_info();
        let f = &mut self.futures[idx];
        let r = f.cancel();
        if self.buffers.is_live(bid) {
            let ms = match self.buffers.resolve(bid) {
                Ok(res) => res.map_state,
                Err(_) => vstd::pervasive::unreached(),
            };
            match ms {
                BufferMapState::MapPending { future, .. } => {
                    if future == idx {
                        let res = self.buffers.borrow_mut(bid);
                        res.map_state = BufferMapState::Unmapped;
                    }
                },
                _ => {
                },
            }
        }
        r
    }
}

/// Whether `cur` is `pre` unchanged or `pre`'s pending mapping resolved into
/// the mapped window it asked for.
pub open spec fn spec_map_state_advanced(pre: BufferMapState, cur: BufferMapState) -> bool {
    cur == pre || (match pre {
        BufferMapState::MapPending { future, write, offset, size } => cur
            == (BufferMapState::Mapped { write, offset, size }),
        _ => false,
    })
}

/// Whether some entry of the first `k` elements of `pend` names future `i`.
pub open spec fn spec_prefix_touches(pend: Seq<PendingMap>, k: int, i: int) -> bool {
    exists|j: int| 0 <= j < k && (#[trigger] pend[j]).future == i
}

/// What resolving one pending mapping guarantees: the future is no longer
/// waiting, and if the operation was still wanted — future alive, buffer
/// alive, window still reserved for this future — the buffer is mapped and
/// the future resolved successfully.
pub open(crate) spec fn spec_entry_resolved(pre: Context, cur: Context, e: PendingMap) -> bool {
    e.future < pre.spec_future_count() ==> {
        let st = pre.spec_future_state(e.future as int);
        &&& (cur.spec_future_state(e.future as int) is Completed || cur.spec_future_state(
            e.future as int,
        ) is Cancelled)
        &&& ((st is Unpolled || st is Pending) && pre.spec_buffer_live(e.buffer)) ==> match pre.spec_buffer_map_state(e.buffer) {
            BufferMapState::MapPending { future, write, offset, size } => future == e.future
                ==> {
                &&& cur.spec_buffer_map_state(e.buffer) == (BufferMapState::Mapped {
                    write,
                    offset,
                    size,
                })
                &&& cur.spec_future_state(e.future as int) == FutureState::Completed(
                    Result::<(), BufferAsyncError>::Ok(()),
                )
            },
            _ => true,
        }
    }
}

/// Everything a poll of `device` guarantees: the device's pending list is
/// drained, nothing else about the device or the other resources moved, and
/// — when no fatal fault was detected — every drained operation resolved as
/// [`spec_entry_resolved`] says.
impl Context {
    /// Every mapping operation pending on `device` can still be resolved:
    /// its future exists, has neither stored nor delivered a result yet, and
    /// no other pending operation of the device names the same future.
    ///
    /// The public API keeps this true — a mapping request registers exactly
    /// one pending operation on a brand-new, unpolled future — so polling a
    /// device is owed success; a pending operation that violates it is a
    /// completion firing twice, the fatal fault polling reports.
    pub open(crate) spec fn spec_pending_resolvable(self, device: ResourceId) -> bool {
        let pend = self.spec_device_pending(device);
        &&& forall|j: int|
            0 <= j < pend.len() ==> (#[trigger] pend[j]).future < self.spec_future_count()
        &&& forall|j: int|
            0 <= j < pend.len() ==> !(self.spec_future_state(
                (#[trigger] pend[j]).future as int,
            ) is Completed)
        &&& forall|j: int|
            0 <= j < pend.len() ==> !(self.spec_future_state(
                (#[trigger] pend[j]).future as int,
            ) is Consumed)
        &&& forall|j1: int, j2: int|
            0 <= j1 < j2 < pend.len() ==> (#[trigger] pend[j1]).future != (
            #[trigger] pend[j2]).future
    }
}

pub open(crate) spec fn spec_poll_effect(pre: Context, post: Context, device: ResourceId, ok: bool) -> bool {
    &&& post.wf()
    &&& post.spec_backend() == pre.spec_backend()
    &&& post.spec_future_count() == pre.spec_future_count()
    &&& post.spec_device_live(device)
    &&& post.spec_device_pending(device) == Seq::<PendingMap>::empty()
    &&& post.spec_device_errors(device) == pre.spec_device_errors(device)
    &&& post.spec_device_handling(device) == pre.spec_device_handling(device)
    &&& post.spec_device_fatal(device) == pre.spec_device_fatal(device)
    &&& post.spec_device_limits(device) == pre.spec_device_limits(device)
    &&& post.spec_devices_framed(pre, device)
    &&& post.spec_same_adapters(pre)
    &&& post.spec_same_queues(pre)
    &&& forall|o: ResourceId| post.spec_buffer_live(o) <==> pre.spec_buffer_live(o)
    &&& forall|o: ResourceId|
        pre.spec_buffer_live(o) ==> post.spec_buffer_same_except_map(pre, o)
    &&& forall|o: ResourceId|
        pre.spec_buffer_live(o) ==> spec_map_state_advanced(
            pre.spec_buffer_map_state(o),
            post.spec_buffer_map_state(o),
        )
    &&& forall|i: int|
        0 <= i < pre.spec_future_count() && !spec_prefix_touches(
            pre.spec_device_pending(device),
            pre.spec_device_pending(device).len() as int,
            i,
        ) ==> post.spec_futures()[i] == pre.spec_futures()[i]
    &&& (ok ==> forall|j: int|
        0 <= j < pre.spec_device_pending(device).len() ==> spec_entry_resolved(
            pre,
            post,
            pre.spec_device_pending(device)[j],
        ))
}

impl Context {
    /// Flushes any pending write and unmaps the buffer from host memory.
    ///
    /// Unmapping also withdraws a mapping that is still pending. Unmapping a
    /// buffer that is not mapped, or a destroyed buffer, is a validation
    /// error delivered to the reachable sink.
    pub fn buffer_unmap(&mut self, buffer: &Buffer)
        requires
            old(self).wf(),
        ensures
            final(self).wf(),
            final(self).spec_backend() == old(self).spec_backend(),
            final(self).spec_same_futures(*old(self)),
            final(self).spec_same_adapters(*old(self)),
            final(self).spec_same_queues(*old(self)),
            forall|o: ResourceId|
                final(self).spec_buffer_live(o) <==> old(self).spec_buffer_live(o),
            forall|o: ResourceId|
                final(self).spec_device_live(o) <==> old(self).spec_device_live(o),
            !old(self).spec_buffer_live(buffer.spec_id()) ==> {
                &&& final(self).spec_same_buffers(*old(self))
                &&& final(self).spec_devices_framed(*old(self), buffer.spec_device_id())
                &&& old(self).spec_device_live(buffer.spec_device_id()) ==> final(self).spec_error_delivered(
                    *old(self),
                    buffer.spec_device_id(),
                    Error::Validation(ValidationCause::StaleResource),
                )
                &&& !old(self).spec_device_live(buffer.spec_device_id()) ==> final(self).spec_same_devices(*old(self))
            },
            (old(self).spec_buffer_live(buffer.spec_id()) && old(self).spec_buffer_map_state(
                buffer.spec_id(),
            ) is Unmapped) ==> {
                let did = old(self).spec_buffer_device(buffer.spec_id());
                &&& final(self).spec_same_buffers(*old(self))
                &&& final(self).spec_devices_framed(*old(self), did)
                &&& old(self).spec_device_live(did) ==> final(self).spec_error_delivered(
                    *old(self),
                    did,
                    Error::Validation(ValidationCause::MapStateMismatch),
                )
                &&& !old(self).spec_device_live(did) ==> final(self).spec_same_devices(*old(self))
            },
            (old(self).spec_buffer_live(buffer.spec_id()) && !(old(self).spec_buffer_map_state(
                buffer.spec_id(),
            ) is Unmapped)) ==> {
                &&& final(self).spec_buffer_map_state(buffer.spec_id())
                    == BufferMapState::Unmapped
                &&& final(self).spec_buffer_same_except_map(*old(self), buffer.spec_id())
                &&& final(self).spec_buffers_framed(*old(self), buffer.spec_id())
                &&& final(self).spec_same_devices(*old(self))
            },
    {
        if self.buffers.is_live(buffer.id()) {
            let (did, ms) = match self.buffers.resolve(buffer.id()) {
                Ok(res) => (res.device, res.map_state),
                Err(_) => vstd::pervasive::unreached(),
            };
            match ms {
                BufferMapState::Unmapped => {
                    self.deliver_error(did, Error::Validation(ValidationCause::MapStateMismatch));
                },
                _ => {
                    let res = self.buffers.borrow_mut(buffer.id());
                    res.map_state = BufferMapState::Unmapped;
                },
            }
        } else {
            self.deliver_error(
                buffer.device_id,
                Error::Validation(ValidationCause::StaleResource),
            );
        }
    }

    /// Whether `[offset, offset + size)` lies inside the mapped window of
    /// buffer `bid` and inside its bytes.
    pub open(crate) spec fn spec_mapped_window_ok(self, bid: ResourceId, offset: u64, size: u64) -> bool {
        match self.spec_buffer_map_state(bid) {
            BufferMapState::Mapped { write, offset: mo, size: msz } => {
                &&& mo <= offset
                &&& offset + size <= mo + msz
                &&& offset + size <= self.spec_buffer_data(bid).len()
            },
            _ => false,
        }
    }

    /// A copy of the bytes `[offset, offset + size)` of a mapped buffer.
    ///
    /// Succeeds exactly when the buffer is alive, mapped, and the requested
    /// window lies inside the mapped one; each rejection names its reason.
    pub fn buffer_get_mapped_range(&self, buffer: &Buffer, offset: u64, size: u64) -> (r: Result<
        BufferReadMapping,
        Error,
    >)
        ensures
            !self.spec_buffer_live(buffer.spec_id()) ==> r == Result::<
                BufferReadMapping,
                Error,
            >::Err(Error::Validation(ValidationCause::StaleResource)),
            (self.spec_buffer_live(buffer.spec_id()) && !(self.spec_buffer_map_state(
                buffer.spec_id(),
            ) is Mapped)) ==> r == Result::<BufferReadMapping, Error>::Err(
                Error::Validation(ValidationCause::MapStateMismatch),
            ),
            (self.spec_buffer_live(buffer.spec_id()) && self.spec_buffer_map_state(
                buffer.spec_id(),
            ) is Mapped && !self.spec_mapped_window_ok(buffer.spec_id(), offset, size)) ==> r
                == Result::<BufferReadMapping, Error>::Err(
                Error::Validation(ValidationCause::RangeOutOfBounds),
            ),
            (self.spec_buffer_live(buffer.spec_id()) && self.spec_mapped_window_ok(
                buffer.spec_id(),
                offset,
                size,
            )) ==> (r matches Ok(m) && m.spec_data() == self.spec_buffer_data(
                buffer.spec_id(),
            ).subrange(offset as int, offset + size)),
    {
        match self.buffers.resolve(buffer.id()) {
            Err(_) => Err(Error::Validation(ValidationCause::StaleResource)),
            Ok(res) => {
                match res.map_state {
                    BufferMapState::Mapped { write: _, offset: mo, size: msz } => {
                        let dlen = res.data.len() as u64;
                        let fits = mo <= offset && size <= msz && offset - mo <= msz - size
                            && offset <= dlen && size <= dlen - offset;
                        if fits {
                            let data = read_range(&res.data, offset as usize, size as usize);
                            Ok(BufferReadMapping { data })
                        } else {
                            Err(Error::Validation(ValidationCause::RangeOutOfBounds))
                        }
                    },
                    _ => Err(Error::Validation(ValidationCause::MapStateMismatch)),
                }
            },
        }
    }

    /// Writes `bytes` at `offset` into a buffer mapped for writing.
    ///
    /// Succeeds exactly when the buffer is alive, mapped for writing, and
    /// the written window lies inside the mapped one.
    pub fn buffer_write_mapped_range(&mut self, buffer: &Buffer, offset: u64, bytes: &[u8]) -> (r:
        Result<(), Error>)
        requires
            old(self).wf(),
        ensures
            final(self).wf(),
            final(self).spec_backend() == old(self).spec_backend(),
            final(self).spec_same_devices(*old(self)),
            final(self).spec_same_futures(*old(self)),
            final(self).spec_same_adapters(*old(self)),
            final(self).spec_same_queues(*old(self)),
            forall|o: ResourceId|
                final(self).spec_buffer_live(o) <==> old(self).spec_buffer_live(o),
            r is Err ==> final(self).spec_same_buffers(*old(self)),
            !old(self).spec_buffer_live(buffer.spec_id()) ==> r == Result::<(), Error>::Err(
                Error::Validation(ValidationCause::StaleResource),
            ),
            (old(self).spec_buffer_live(buffer.spec_id()) && !spec_mapped_for_write(
                old(self).spec_buffer_map_state(buffer.spec_id()),
            )) ==> r == Result::<(), Error>::Err(
                Error::Validation(ValidationCause::MapStateMismatch),
            ),
            (old(self).spec_buffer_live(buffer.spec_id()) && spec_mapped_for_write(
                old(self).spec_buffer_map_state(buffer.spec_id()),
            ) && !old(self).spec_mapped_window_ok(
                buffer.spec_id(),
                offset,
                bytes@.len() as u64,
            )) ==> r == Result::<(), Error>::Err(
                Error::Validation(ValidationCause::RangeOutOfBounds),
            ),
            (old(self).spec_buffer_live(buffer.spec_id()) && spec_mapped_for_write(
                old(self).spec_buffer_map_state(buffer.spec_id()),
            ) && old(self).spec_mapped_window_ok(buffer.spec_id(), offset, bytes@.len() as u64))
                ==> {
                &&& r is Ok
                &&& final(self).spec_buffer_data(buffer.spec_id()) == spec_splice(
                    old(self).spec_buffer_data(buffer.spec_id()),
                    offset as int,
                    bytes@,
                )
                &&& final(self).spec_buffer_usage(buffer.spec_id()) == old(
                    self,
                ).spec_buffer_usage(buffer.spec_id())
                &&& final(self).spec_buffer_device(buffer.spec_id()) == old(
                    self,
                ).spec_buffer_device(buffer.spec_id())
                &&& final(self).spec_buffer_map_state(buffer.spec_id()) == old(
                    self,
                ).spec_buffer_map_state(buffer.spec_id())
                &&& final(self).spec_buffers_framed(*old(self), buffer.spec_id())
            },
    {
        if !self.buffers.is_live(buffer.id()) {
            return Err(Error::Validation(ValidationCause::StaleResource));
        }
        let (ms, dlen) = match self.buffers.resolve(buffer.id()) {
            Ok(res) => (res.map_state, res.data.len() as u64),
            Err(_) => vstd::pervasive::unreached(),
        };
        match ms {
            BufferMapState::Mapped { write: true, offset: mo, size: msz } => {
                let len = bytes.len() as u64;
                let fits = mo <= offset && len <= msz && offset - mo <= msz - len && offset
                    <= dlen && len <= dlen - offset;
                if fits {
                    let res = self.buffers.borrow_mut(buffer.id());
                    write_range(&mut res.data, offset as usize, bytes);
                    Ok(())
                } else {
                    Err(Error::Validation(ValidationCause::RangeOutOfBounds))
                }
            },
            _ => Err(Error::Validation(ValidationCause::MapStateMismatch)),
        }
    }

    /// Resolves every mapping operation pending on `device`.
    fn complete_pending(&mut self, device: ResourceId) -> (r: Result<Vec<WakerToken>, FatalError>)
        requires
            old(self).wf(),
            old(self).spec_device_live(device),
        ensures
            spec_poll_effect(*old(self), *final(self), device, r is Ok),
            old(self).spec_pending_resolvable(device) ==> r is Ok,
            r matches Ok(ws) ==> ws@.len() <= old(self).spec_device_pending(device).len(),
    {
        let ghost pre = *self;
        let mut pending: Vec<PendingMap> = Vec::new();
        {
            let dev = self.devices.borrow_mut(device);
            core::mem::swap(&mut dev.pending, &mut pending);
        }
        let ghost mid = *self;
        let mut wakers: Vec<WakerToken> = Vec::new();
        let mut k: usize = 0;
        while k < pending.len()
            invariant
                self.wf(),
                pre == *old(self),
                k <= pending@.len(),
                wakers@.len() <= k,
                pending@ == pre.spec_device_pending(device),
                self.spec_backend() == pre.spec_backend(),
                self.devices == mid.devices,
                self.adapters == pre.adapters,
                self.queues == pre.queues,
                self.spec_future_count() == pre.spec_future_count(),
                mid.spec_device_live(device),
                mid.spec_device_pending(device) == Seq::<PendingMap>::empty(),
                mid.spec_device_errors(device) == pre.spec_device_errors(device),
                mid.spec_device_handling(device) == pre.spec_device_handling(device),
                mid.spec_device_fatal(device) == pre.spec_device_fatal(device),
                mid.spec_device_limits(device) == pre.spec_device_limits(device),
                mid.spec_devices_framed(pre, device),
                mid.buffers == pre.buffers,
                mid.futures == pre.futures,
                forall|o: ResourceId| self.spec_buffer_live(o) <==> pre.spec_buffer_live(o),
                forall|o: ResourceId|
                    pre.spec_buffer_live(o) ==> self.spec_buffer_same_except_map(pre, o),
                forall|o: ResourceId|
                    pre.spec_buffer_live(o) ==> spec_map_state_advanced(
                        pre.spec_buffer_map_state(o),
                        self.spec_buffer_map_state(o),
                    ),
                forall|i: int|
                    0 <= i < pre.spec_future_count() && !spec_prefix_touches(
                        pending@,
                        k as int,
                        i,
                    ) ==> self.spec_futures()[i] == pre.spec_futures()[i],
                forall|i: int|
                    0 <= i < pre.spec_future_count() ==> ((
                    self.spec_future_state(i) is Cancelled) <==> (
                    pre.spec_future_state(i) is Cancelled)),
                forall|i: int|
                    0 <= i < pre.spec_future_count() && (self.spec_future_state(i) is Unpolled
                        || self.spec_future_state(i) is Pending) ==> self.spec_futures()[i]
                        == pre.spec_futures()[i],
                forall|o: ResourceId|
                    pre.spec_buffer_live(o) ==> match pre.spec_buffer_map_state(o) {
                        BufferMapState::MapPending { future, write, offset, size } => (
                        self.spec_buffer_map_state(o) != pre.spec_buffer_map_state(o)) ==> (future
                            < pre.spec_future_count() && !(self.spec_future_state(
                            future as int,
                        ) is Unpolled) && !(self.spec_future_state(future as int) is Pending)),
                        _ => true,
                    },
                forall|j: int| 0 <= j < k ==> spec_entry_resolved(pre, *self, pending@[j]),
            decreases pending@.len() - k,
        {
            let ghost iter0 = *self;
            let entry = pending[k];
            if entry.future < self.futures.len() {
                let cancelled = self.futures[entry.future].is_cancelled();
                let mut result: MapResult = Err(BufferAsyncError);
                if !cancelled {
                    if self.buffers.is_live(entry.buffer) {
                        let ms = match self.buffers.resolve(entry.buffer) {
                            Ok(res) => res.map_state,
                            Err(_) => vstd::pervasive::unreached(),
                        };
                        match ms {
                            BufferMapState::MapPending { future, write, offset, size } => {
                                if future == entry.future {
                                    let res = self.buffers.borrow_mut(entry.buffer);
                                    res.map_state = BufferMapState::Mapped {
                                        write,
                                        offset,
                                        size,
                                    };
                                    result = Ok(());
                                }
                            },
                            _ => {
                            },
                        }
                    }
                }
                let f = &mut self.futures[entry.future];
                let outcome = f.complete(result);
                match outcome {
                    Ok(Some(w)) => {
                        wakers.push(w);
                    },
                    Ok(None) => {
                    },
                    Err(e) => {
                        proof {
                            if pre.spec_pending_resolvable(device) {
                                assert(pending@[k as int] == entry);
                                assert forall|j: int| 0 <= j < k implies (
                                #[trigger] pending@[j]).future != entry.future by {
                                    assert(pre.spec_device_pending(device)[j].future
                                        != pre.spec_device_pending(device)[k as int].future);
                                }
                                assert(!spec_prefix_touches(
                                    pending@,
                                    k as int,
                                    entry.future as int,
                                ));
                                assert(iter0.spec_futures()[entry.future as int]
                                    == pre.spec_futures()[entry.future as int]);
                                assert(!(pre.spec_future_state(entry.future as int) is Completed));
                                assert(!(pre.spec_future_state(entry.future as int) is Consumed));
                                assert(false);
                            }
                        }
                        return Err(e);
                    },
                }
            }
            k = k + 1;
        }
        Ok(wakers)
    }

    /// Checks for resource cleanups and mapping callbacks: every mapping
    /// operation pending on the device resolves, waking the consumers whose
    /// wakers are returned.
    ///
    /// The model backend finishes outstanding work by the time of the next
    /// poll, so a non-waiting poll and a forced wait resolve the same set.
    /// Success is owed whenever the pending operations are resolvable — the
    /// state every public operation maintains; the one failure is a
    /// completion finding its future already resolved, the fatal
    /// double-complete fault, which is reported instead of performed.
    pub fn device_poll(&mut self, device: &Device, force_wait: bool) -> (r: Result<
        Vec<WakerToken>,
        FatalError,
    >)
        requires
            old(self).wf(),
            old(self).spec_device_live(device.spec_id()),
        ensures
            spec_poll_effect(*old(self), *final(self), device.spec_id(), r is Ok),
            old(self).spec_pending_resolvable(device.spec_id()) ==> r is Ok,
            r matches Ok(ws) ==> ws@.len() <= old(self).spec_device_pending(
                device.spec_id(),
            ).len(),
    {
        self.complete_pending(device.id())
    }

    /// Releases the device: outstanding GPU work is waited out — every
    /// pending mapping resolves — and only then is the device torn down, so
    /// no in-flight operation can reach a freed device. Success is owed
    /// whenever the pending operations are resolvable; on the fatal
    /// double-complete fault the device is left standing, never torn down
    /// early.
    pub fn device_drop(&mut self, device: &Device) -> (r: Result<(), FatalError>)
        requires
            old(self).wf(),
            old(self).spec_device_live(device.spec_id()),
        ensures
            final(self).wf(),
            final(self).spec_backend() == old(self).spec_backend(),
            old(self).spec_pending_resolvable(device.spec_id()) ==> r is Ok,
            r is Ok ==> !final(self).spec_device_live(device.spec_id()),
            r is Err ==> final(self).spec_device_live(device.spec_id()),
            r is Ok ==> final(self).spec_devices_framed(*old(self), device.spec_id()),
            r is Ok ==> final(self).spec_future_count() == old(self).spec_future_count(),
            r is Ok ==> final(self).spec_same_adapters(*old(self)),
            r is Ok ==> final(self).spec_same_queues(*old(self)),
            r is Ok ==> forall|o: ResourceId|
                final(self).spec_buffer_live(o) <==> old(self).spec_buffer_live(o),
            r is Ok ==> forall|o: ResourceId|
                old(self).spec_buffer_live(o) ==> final(self).spec_buffer_same_except_map(
                    *old(self),
                    o,
                ),
            r is Ok ==> forall|j: int|
                0 <= j < old(self).spec_device_pending(device.spec_id()).len()
                    ==> spec_entry_resolved(
                    *old(self),
                    *final(self),
                    old(self).spec_device_pending(device.spec_id())[j],
                ),
    {
        let polled = self.complete_pending(device.id());
        match polled {
            Err(e) => Err(e),
            Ok(_wakers) => {
                let ghost mid = *self;
                let freed = self.devices.free(device.id());
                match freed {
                    Ok(_) => {
                    },
                    Err(_) => {
                        proof {
                            assert(false);
                        }
                    },
                }
                proof {
                    assert forall|j: int|
                        0 <= j < old(self).spec_device_pending(device.spec_id()).len()
                            implies spec_entry_resolved(
                        *old(self),
                        *self,
                        old(self).spec_device_pending(device.spec_id())[j],
                    ) by {
                        assert(spec_entry_resolved(
                            *old(self),
                            mid,
                            old(self).spec_device_pending(device.spec_id())[j],
                        ));
                        assert(self.buffers == mid.buffers);
                        assert(self.futures == mid.futures);
                    }
                }
                Ok(())
            },
        }
    }
}

/// Whether a map state is a window mapped for writing.
pub open spec fn spec_mapped_for_write(ms: BufferMapState) -> bool {
    ms matches BufferMapState::Mapped { write: true, .. }
}

/// `dst` with `src` written at offset `at`.
pub open spec fn spec_splice(dst: Seq<u8>, at: int, src: Seq<u8>) -> Seq<u8> {
    dst.subrange(0, at) + src + dst.subrange(at + src.len(), dst.len() as int)
}

/// A copy of the bytes `[offset, offset + size)` of `data`.
pub(crate) fn read_range(data: &Vec<u8>, offset: usize, size: usize) -> (r: Vec<u8>)
    requires
        offset + size <= data@.len(),
    ensures
        r@ == data@.subrange(offset as int, offset + size),
{
    let total = data.len();
    let mut out: Vec<u8> = Vec::new();
    let mut i: usize = 0;
    while i < size
        invariant
            i <= size,
            offset + size <= data@.len(),
            data@.len() == total,
            out@ == data@.subrange(offset as int, offset + i),
        decreases size - i,
    {
        out.push(data[offset + i]);
        i = i + 1;
        proof {
            assert(out@ =~= data@.subrange(offset as int, offset + i));
        }
    }
    out
}

/// Writes `bytes` into `v` starting at `offset`, leaving the rest alone.
pub(crate) fn write_range(v: &mut Vec<u8>, offset: usize, bytes: &[u8])
    requires
        offset + bytes@.len() <= old(v)@.len(),
    ensures
        final(v)@ == spec_splice(old(v)@, offset as int, bytes@),
{
    let n = bytes.len();
    let total = v.len();
    let mut i: usize = 0;
    while i < n
        invariant
            i <= n,
            n == bytes@.len(),
            offset + n <= v@.len(),
            v@.len() == total,
            v@.len() == old(v)@.len(),
            forall|j: int| 0 <= j < offset ==> v@[j] == old(v)@[j],
            forall|j: int| 0 <= j < i ==> v@[offset + j] == bytes@[j],
            forall|j: int| offset + n <= j < v@.len() ==> v@[j] == old(v)@[j],
            forall|j: int| offset + i <= j < offset + n ==> v@[j] == old(v)@[j],
        decreases n - i,
    {
        v[offset + i] = bytes[i];
        i = i + 1;
    }
    proof {
        assert(v@ =~= spec_splice(old(v)@, offset as int, bytes@));
    }
}

impl<'a> BufferRange<'a, Bounded> {
    /// Requests that this range be mapped for reading; the result arrives
    /// through the returned future token.
    ///
    /// The request is accepted — the future left unpolled and the operation
    /// pending on the device — exactly when the buffer and its device are
    /// alive, readable mapping is allowed, and the buffer is unmapped;
    /// otherwise the future is already completed with an error and the cause
    /// goes to the reachable error sink, as [`Context::buffer_map_async`]
    /// spells out case by case.
    pub fn map_read(&self, ctx: &mut Context) -> (r: MapToken)
        requires
            old(ctx).wf(),
            self.wf(),
        ensures
            final(ctx).wf(),
            final(ctx).spec_backend() == old(ctx).spec_backend(),
            r.spec_index() == old(ctx).spec_future_count(),
            final(ctx).spec_future_count() == old(ctx).spec_future_count() + 1,
            forall|i: int|
                0 <= i < old(ctx).spec_future_count() ==> final(ctx).spec_futures()[i] == old(
                    ctx,
                ).spec_futures()[i],
            final(ctx).spec_same_adapters(*old(ctx)),
            final(ctx).spec_same_queues(*old(ctx)),
            forall|o: ResourceId|
                final(ctx).spec_buffer_live(o) <==> old(ctx).spec_buffer_live(o),
            forall|o: ResourceId|
                final(ctx).spec_device_live(o) <==> old(ctx).spec_device_live(o),
            final(ctx).spec_future_state(r.spec_index() as int) is Unpolled <==> old(
                ctx,
            ).spec_map_async_accepts(self.spec_buffer().spec_id(), MapMode::Read),
            old(ctx).spec_map_async_accepts(self.spec_buffer().spec_id(), MapMode::Read) ==> ({
                let bid = self.spec_buffer().spec_id();
                let did = old(ctx).spec_buffer_device(bid);
                &&& final(ctx).spec_buffer_live(bid)
                &&& final(ctx).spec_device_live(did)
                &&& final(ctx).spec_buffer_map_state(bid) == (BufferMapState::MapPending {
                    future: r.spec_index(),
                    write: false,
                    offset: self.spec_offset(),
                    size: self.spec_size()->Some_0,
                })
                &&& final(ctx).spec_buffer_same_except_map(*old(ctx), bid)
                &&& final(ctx).spec_buffers_framed(*old(ctx), bid)
                &&& final(ctx).spec_device_pending(did) == old(ctx).spec_device_pending(did).push(
                    PendingMap { buffer: bid, future: r.spec_index() },
                )
                &&& final(ctx).spec_device_errors(did) == old(ctx).spec_device_errors(did)
                &&& final(ctx).spec_device_handling(did) == old(ctx).spec_device_handling(did)
                &&& final(ctx).spec_device_fatal(did) == old(ctx).spec_device_fatal(did)
                &&& final(ctx).spec_devices_framed(*old(ctx), did)
            }),
            !old(ctx).spec_map_async_accepts(self.spec_buffer().spec_id(), MapMode::Read) ==> (
            final(ctx).spec_future_state(r.spec_index() as int) == FutureState::Completed(
                Result::<(), BufferAsyncError>::Err(BufferAsyncError),
            ) && final(ctx).spec_same_buffers(*old(ctx))),
    {
        ctx.buffer_map_async(*self, MapMode::Read)
    }

    /// Requests that this range be mapped for writing; the result arrives
    /// through the returned future token.
    ///
    /// Accepted under the same conditions as reading, with the writable
    /// usage flag in place of the readable one; rejections route to the
    /// error sink as [`Context::buffer_map_async`] spells out.
    pub fn map_write(&self, ctx: &mut Context) -> (r: MapToken)
        requires
            old(ctx).wf(),
            self.wf(),
        ensures
            final(ctx).wf(),
            final(ctx).spec_backend() == old(ctx).spec_backend(),
            r.spec_index() == old(ctx).spec_future_count(),
            final(ctx).spec_future_count() == old(ctx).spec_future_count() + 1,
            forall|i: int|
                0 <= i < old(ctx).spec_future_count() ==> final(ctx).spec_futures()[i] == old(
                    ctx,
                ).spec_futures()[i],
            final(ctx).spec_same_adapters(*old(ctx)),
            final(ctx).spec_same_queues(*old(ctx)),
            forall|o: ResourceId|
                final(ctx).spec_buffer_live(o) <==> old(ctx).spec_buffer_live(o),
            forall|o: ResourceId|
                final(ctx).spec_device_live(o) <==> old(ctx).spec_device_live(o),
            final(ctx).spec_future_state(r.spec_index() as int) is Unpolled <==> old(
                ctx,
            ).spec_map_async_accepts(self.spec_buffer().spec_id(), MapMode::Write),
            old(ctx).spec_map_async_accepts(self.spec_buffer().spec_id(), MapMode::Write) ==> ({
                let bid = self.spec_buffer().spec_id();
                let did = old(ctx).spec_buffer_device(bid);
                &&& final(ctx).spec_buffer_live(bid)
                &&& final(ctx).spec_device_live(did)
                &&& final(ctx).spec_buffer_map_state(bid) == (BufferMapState::MapPending {
                    future: r.spec_index(),
                    write: true,
                    offset: self.spec_offset(),
                    size: self.spec_size()->Some_0,
                })
                &&& final(ctx).spec_buffer_same_except_map(*old(ctx), bid)
                &&& final(ctx).spec_buffers_framed(*old(ctx), bid)
                &&& final(ctx).spec_device_pending(did) == old(ctx).spec_device_pending(did).push(
                    PendingMap { buffer: bid, future: r.spec_index() },
                )
                &&& final(ctx).spec_device_errors(did) == old(ctx).spec_device_errors(did)
                &&& final(ctx).spec_device_handling(did) == old(ctx).spec_device_handling(did)
                &&& final(ctx).spec_device_fatal(did) == old(ctx).spec_device_fatal(did)
                &&& final(ctx).spec_devices_framed(*old(ctx), did)
            }),
            !old(ctx).spec_map_async_accepts(self.spec_buffer().spec_id(), MapMode::Write) ==> (
            final(ctx).spec_future_state(r.spec_index() as int) == FutureState::Completed(
                Result::<(), BufferAsyncError>::Err(BufferAsyncError),
            ) && final(ctx).spec_same_buffers(*old(ctx))),
    {
        ctx.buffer_map_async(*self, MapMode::Write)
    }
}

impl CreateBufferMapped {
    /// Writes the staged bytes into the buffer, unmaps it from host memory,
    /// and returns the finished buffer.
    pub fn finish(self, ctx: &mut Context) -> (r: Buffer)
        requires
            old(ctx).wf(),
            old(ctx).spec_buffer_live(self.buffer.spec_id()),
            old(ctx).spec_buffer_map_state(self.buffer.spec_id()) == (BufferMapState::Mapped {
                write: true,
                offset: 0,
                size: self.buffer.spec_size(),
            }),
            self.data@.len() == self.buffer.spec_size(),
        ensures
            final(ctx).wf(),
            final(ctx).spec_backend() == old(ctx).spec_backend(),
            r == self.buffer,
            final(ctx).spec_buffer_live(r.spec_id()),
            final(ctx).spec_buffer_data(r.spec_id()) == self.data@,
            final(ctx).spec_buffer_usage(r.spec_id()) == old(ctx).spec_buffer_usage(r.spec_id()),
            final(ctx).spec_buffer_device(r.spec_id()) == old(ctx).spec_buffer_device(r.spec_id()),
            final(ctx).spec_buffer_map_state(r.spec_id()) == BufferMapState::Unmapped,
            final(ctx).spec_buffers_framed(*old(ctx), r.spec_id()),
            final(ctx).spec_same_devices(*old(ctx)),
            final(ctx).spec_same_futures(*old(ctx)),
            final(ctx).spec_same_adapters(*old(ctx)),
            final(ctx).spec_same_queues(*old(ctx)),
    {
        let CreateBufferMapped { buffer, data } = self;
        let res = ctx.buffers.borrow_mut(buffer.id());
        res.data = data;
        res.map_state = BufferMapState::Unmapped;
        buffer
    }
}

impl Buffer {
    /// Flushes any pending write and unmaps the buffer from host memory; see
    /// [`Context::buffer_unmap`] for the exact behavior.
    pub fn unmap(&self, ctx: &mut Context)
        requires
            old(ctx).wf(),
        ensures
            final(ctx).wf(),
            final(ctx).spec_backend() == old(ctx).spec_backend(),
            final(ctx).spec_same_futures(*old(ctx)),
            final(ctx).spec_same_adapters(*old(ctx)),
            final(ctx).spec_same_queues(*old(ctx)),
            (old(ctx).spec_buffer_live(self.spec_id()) && !(old(ctx).spec_buffer_map_state(
                self.spec_id(),
            ) is Unmapped)) ==> {
                &&& final(ctx).spec_buffer_map_state(self.spec_id()) == BufferMapState::Unmapped
                &&& final(ctx).spec_buffer_same_except_map(*old(ctx), self.spec_id())
                &&& final(ctx).spec_buffers_framed(*old(ctx), self.spec_id())
                &&& final(ctx).spec_same_devices(*old(ctx))
            },
            !(old(ctx).spec_buffer_live(self.spec_id()) && !(old(ctx).spec_buffer_map_state(
                self.spec_id(),
            ) is Unmapped)) ==> final(ctx).spec_same_buffers(*old(ctx)),
    {
        ctx.buffer_unmap(self)
    }

    /// Frees the buffer's backend storage and retires its identifier.
    ///
    /// Exactly one backend free is issued however often this is called: the
    /// handle remembers that it already destroyed the buffer and later calls
    /// do nothing. Once destroyed, the identifier never resolves again.
    pub fn destroy(&mut self, ctx: &mut Context)
        requires
            old(ctx).wf(),
        ensures
            final(ctx).wf(),
            final(ctx).spec_backend() == old(ctx).spec_backend(),
            final(self).spec_destroyed(),
            final(self).spec_id() == old(self).spec_id(),
            final(self).spec_device_id() == old(self).spec_device_id(),
            final(self).spec_size() == old(self).spec_size(),
            final(self).spec_usage() == old(self).spec_usage(),
            !old(self).spec_destroyed() ==> !final(ctx).spec_buffer_live(old(self).spec_id()),
            old(self).spec_destroyed() ==> *final(ctx) == *old(ctx),
            final(ctx).spec_buffers_framed(*old(ctx), old(self).spec_id())
                || !final(ctx).spec_buffer_live(old(self).spec_id()),
            forall|o: ResourceId|
                o != old(self).spec_id() ==> (final(ctx).spec_buffer_live(o) <==> old(ctx).spec_buffer_live(o)),
            forall|o: ResourceId|
                o != old(self).spec_id() && old(ctx).spec_buffer_live(o) ==> final(ctx).spec_buffer_unchanged(*old(ctx), o),
            final(ctx).spec_same_devices(*old(ctx)),
            final(ctx).spec_same_futures(*old(ctx)),
            final(ctx).spec_same_adapters(*old(ctx)),
            final(ctx).spec_same_queues(*old(ctx)),
    {
        if !self.destroyed {
            let freed = ctx.buffers.free(self.id);
            match freed {
                Ok(_) => {
                },
                Err(_) => {
                },
            }
            self.destroyed = true;
        }
    }
}

/// An owned copy of a byte slice.
fn slice_to_vec(data: &[u8]) -> (r: Vec<u8>)
    ensures
        r@ == data@,
{
    let mut out: Vec<u8> = Vec::new();
    let mut i: usize = 0;
    while i < data.len()
        invariant
            i <= data@.len(),
            out@ == data@.subrange(0, i as int),
        decreases data@.len() - i,
    {
        out.push(data[i]);
        i = i + 1;
        proof {
            assert(out@ =~= data@.subrange(0, i as int));
        }
    }
    proof {
        assert(data@.subrange(0, data@.len() as int) =~= data@);
    }
    out
}

/// A copy of an error list.
fn clone_errors(errors: &Vec<Error>) -> (r: Vec<Error>)
    ensures
        r@ == errors@,
{
    let mut out: Vec<Error> = Vec::new();
    let mut i: usize = 0;
    while i < errors.len()
        invariant
            i <= errors.len(),
            out@ == errors@.subrange(0, i as int),
        decreases errors.len() - i,
    {
        out.push(errors[i]);
        i = i + 1;
        proof {
            assert(out@ =~= errors@.subrange(0, i as int));
        }
    }
    proof {
        assert(errors@.subrange(0, errors@.len() as int) =~= errors@);
    }
    out
}

/// A vector of `n` zero bytes.
fn zeroed_vec(n: usize) -> (r: Vec<u8>)
    ensures
        r@ == Seq::new(n as nat, |i: int| 0u8),
{
    let mut out: Vec<u8> = Vec::new();
    let mut i: usize = 0;
    while i < n
        invariant
            i <= n,
            out@ == Seq::new(i as nat, |j: int| 0u8),
        decreases n - i,
    {
        out.push(0);
        i = i + 1;
        proof {
            assert(out@ =~= Seq::new(i as nat, |j: int| 0u8));
        }
    }
    out
}

} // verus!
