//! Queue submission: executing finished command buffers against the model.
//!
//! Command buffers submitted to a queue execute in submission order, and the
//! commands of one buffer execute in recording order. The meaning of a
//! submission is the interpreter [`spec_run_buffers`]: buffer-to-buffer
//! copies splice bytes between unmapped, live buffers; commands whose effects
//! live with the backend — texture copies, passes — leave the model's buffer
//! bytes alone. A submission that reaches a destroyed or mapped buffer, or a
//! copy that does not fit, is a fatal fault: the process is expected to stop,
//! so the call reports the fault instead of finishing the run.

use vstd::prelude::*;

use crate::context::BufferMapState;
use crate::context::Context;
use crate::context::spec_splice;
use crate::device::Queue;
use crate::encoder::Command;
use crate::encoder::CommandBuffer;
use crate::error::FatalError;
use crate::id::ResourceId;

verus! {

/// What the submission interpreter tracks of one buffer: its bytes and its
/// mapping state.
#[verifier::ext_equal]
pub ghost struct BufferModel {
    pub data: Seq<u8>,
    pub map_state: BufferMapState,
}

impl Context {
    /// The live buffers as the interpreter sees them.
    pub open(crate) spec fn spec_buffers_model(self) -> Map<ResourceId, BufferModel> {
        Map::new(
            |id: ResourceId| self.spec_buffer_live(id),
            |id: ResourceId|
                BufferModel {
                    data: self.spec_buffer_data(id),
                    map_state: self.spec_buffer_map_state(id),
                },
        )
    }
}

/// What one command does to the buffers, or nothing when the command is
/// invalid against them.
///
/// A buffer-to-buffer copy needs both endpoints live and unmapped and both
/// ranges inside the buffers' bytes; it splices the source range into the
/// destination. Every other command leaves the model's buffers alone — its
/// effect lives with the backend.
pub open spec fn spec_apply_command(m: Map<ResourceId, BufferModel>, cmd: Command) -> Option<
    Map<ResourceId, BufferModel>,
> {
    match cmd {
        Command::CopyBufferToBuffer { src, src_offset, dst, dst_offset, size } => {
            if m.dom().contains(src) && m.dom().contains(dst) && m[src].map_state is Unmapped
                && m[dst].map_state is Unmapped && src_offset + size <= m[src].data.len()
                && dst_offset + size <= m[dst].data.len() {
                Some(
                    m.insert(
                        dst,
                        BufferModel {
                            data: spec_splice(
                                m[dst].data,
                                dst_offset as int,
                                m[src].data.subrange(src_offset as int, src_offset + size),
                            ),
                            map_state: m[dst].map_state,
                        },
                    ),
                )
            } else {
                None
            }
        },
        _ => Some(m),
    }
}

/// Runs the commands of one buffer in recording order, stopping at the first
/// invalid one.
pub open spec fn spec_run_commands(m: Map<ResourceId, BufferModel>, cmds: Seq<Command>) -> Option<
    Map<ResourceId, BufferModel>,
>
    decreases cmds.len(),
{
    if cmds.len() == 0 {
        Some(m)
    } else {
        match spec_apply_command(m, cmds[0]) {
            Some(m2) => spec_run_commands(m2, cmds.subrange(1, cmds.len() as int)),
            None => None,
        }
    }
}

/// Runs whole command buffers in submission order, stopping at the first
/// invalid command.
pub open spec fn spec_run_buffers(
    m: Map<ResourceId, BufferModel>,
    cbs: Seq<Seq<Command>>,
) -> Option<Map<ResourceId, BufferModel>>
    decreases cbs.len(),
{
    if cbs.len() == 0 {
        Some(m)
    } else {
        match spec_run_commands(m, cbs[0]) {
            Some(m2) => spec_run_buffers(m2, cbs.subrange(1, cbs.len() as int)),
            None => None,
        }
    }
}

/// Running one more command is applying it to the result of the prefix.
pub proof fn lemma_run_commands_snoc(m: Map<ResourceId, BufferModel>, s: Seq<Command>, i: int)
    requires
        0 <= i < s.len(),
    ensures
        spec_run_commands(m, s.subrange(0, i + 1)) == (match spec_run_commands(
            m,
            s.subrange(0, i),
        ) {
            Some(m2) => spec_apply_command(m2, s[i]),
            None => None,
        }),
    decreases i,
{
    reveal_with_fuel(spec_run_commands, 3);
    if i == 0 {
        assert(s.subrange(0, 1)[0] == s[0]);
        assert(s.subrange(0, 1).subrange(1, 1) =~= Seq::<Command>::empty());
        assert(s.subrange(0, 0) =~= Seq::<Command>::empty());
    } else {
        let head = s[0];
        assert(s.subrange(0, i + 1)[0] == head);
        assert(s.subrange(0, i)[0] == head);
        match spec_apply_command(m, head) {
            Some(m2) => {
                let tail = s.subrange(1, s.len() as int);
                lemma_run_commands_snoc(m2, tail, i - 1);
                assert(s.subrange(0, i + 1).subrange(1, i + 1) =~= tail.subrange(0, i));
                assert(s.subrange(0, i).subrange(1, i) =~= tail.subrange(0, i - 1));
                assert(tail[i - 1] == s[i]);
            },
            None => {
            },
        }
    }
}

/// Running one more command buffer is running it from the result of the
/// prefix.
pub proof fn lemma_run_buffers_snoc(m: Map<ResourceId, BufferModel>, s: Seq<Seq<Command>>, i: int)
    requires
        0 <= i < s.len(),
    ensures
        spec_run_buffers(m, s.subrange(0, i + 1)) == (match spec_run_buffers(
            m,
            s.subrange(0, i),
        ) {
            Some(m2) => spec_run_commands(m2, s[i]),
            None => None,
        }),
    decreases i,
{
    reveal_with_fuel(spec_run_buffers, 3);
    if i == 0 {
        assert(s.subrange(0, 1)[0] == s[0]);
        assert(s.subrange(0, 1).subrange(1, 1) =~= Seq::<Seq<Command>>::empty());
        assert(s.subrange(0, 0) =~= Seq::<Seq<Command>>::empty());
    } else {
        let head = s[0];
        assert(s.subrange(0, i + 1)[0] == head);
        assert(s.subrange(0, i)[0] == head);
        match spec_run_commands(m, head) {
            Some(m2) => {
                let tail = s.subrange(1, s.len() as int);
                lemma_run_buffers_snoc(m2, tail, i - 1);
                assert(s.subrange(0, i + 1).subrange(1, i + 1) =~= tail.subrange(0, i));
                assert(s.subrange(0, i).subrange(1, i) =~= tail.subrange(0, i - 1));
                assert(tail[i - 1] == s[i]);
            },
            None => {
            },
        }
    }
}

/// Once a prefix fails, the whole run fails.
pub proof fn lemma_run_commands_none_extends(
    m: Map<ResourceId, BufferModel>,
    s: Seq<Command>,
    i: int,
)
    requires
        0 <= i <= s.len(),
        spec_run_commands(m, s.subrange(0, i)) is None,
    ensures
        spec_run_commands(m, s) is None,
    decreases s.len() - i,
{
    if i == s.len() {
        assert(s.subrange(0, i) =~= s);
    } else {
        lemma_run_commands_snoc(m, s, i);
        lemma_run_commands_none_extends(m, s, i + 1);
    }
}

/// Once a prefix fails, the whole run fails.
pub proof fn lemma_run_buffers_none_extends(
    m: Map<ResourceId, BufferModel>,
    s: Seq<Seq<Command>>,
    i: int,
)
    requires
        0 <= i <= s.len(),
        spec_run_buffers(m, s.subrange(0, i)) is None,
    ensures
        spec_run_buffers(m, s) is None,
    decreases s.len() - i,
{
    if i == s.len() {
        assert(s.subrange(0, i) =~= s);
    } else {
        lemma_run_buffers_snoc(m, s, i);
        lemma_run_buffers_none_extends(m, s, i + 1);
    }
}

/// The command sequences of a submission, in submission order.
pub open(crate) spec fn spec_submission(cbs: Seq<CommandBuffer>) -> Seq<Seq<Command>> {
    cbs.map_values(|cb: CommandBuffer| cb.spec_commands())
}

impl Context {
    /// Submits a series of finished command buffers for execution.
    ///
    /// The buffers execute in submission order and each one's commands in
    /// recording order, as [`spec_run_buffers`] spells out. An identifier of
    /// a foreign backend, a dead queue or device, and a command that touches
    /// a destroyed or mapped buffer or reaches out of bounds are all fatal:
    /// the fault is reported, and a partial run may have executed.
    pub fn queue_submit(&mut self, queue: &Queue, command_buffers: Vec<CommandBuffer>) -> (r:
        Result<(), FatalError>)
        requires
            old(self).wf(),
        ensures
            final(self).wf(),
            final(self).spec_backend() == old(self).spec_backend(),
            final(self).spec_same_devices(*old(self)),
            final(self).spec_same_futures(*old(self)),
            final(self).spec_same_adapters(*old(self)),
            final(self).spec_same_queues(*old(self)),
            forall|o: ResourceId|
                final(self).spec_buffer_live(o) <==> old(self).spec_buffer_live(o),
            forall|o: ResourceId|
                old(self).spec_buffer_live(o) ==> {
                    &&& final(self).spec_buffer_usage(o) == old(self).spec_buffer_usage(o)
                    &&& final(self).spec_buffer_device(o) == old(self).spec_buffer_device(o)
                    &&& final(self).spec_buffer_map_state(o) == old(self).spec_buffer_map_state(o)
                    &&& final(self).spec_buffer_data(o).len() == old(self).spec_buffer_data(
                        o,
                    ).len()
                },
            queue.spec_id().backend != old(self).spec_backend() ==> r == Result::<
                (),
                FatalError,
            >::Err(FatalError::UnsupportedBackend) && final(self).spec_same_buffers(*old(self)),
            (queue.spec_id().backend == old(self).spec_backend() && !(old(self).spec_queue_live(
                queue.spec_id(),
            ) && old(self).spec_device_live(old(self).spec_queue_device(queue.spec_id())))) ==> (r
                == Result::<(), FatalError>::Err(FatalError::InvalidSubmission) && final(self).spec_same_buffers(*old(self))),
            (queue.spec_id().backend == old(self).spec_backend() && old(self).spec_queue_live(
                queue.spec_id(),
            ) && old(self).spec_device_live(old(self).spec_queue_device(queue.spec_id()))) ==> {
                &&& (r is Ok <==> spec_run_buffers(
                    old(self).spec_buffers_model(),
                    spec_submission(command_buffers@),
                ) is Some)
                &&& (r is Ok ==> final(self).spec_buffers_model() == spec_run_buffers(
                    old(self).spec_buffers_model(),
                    spec_submission(command_buffers@),
                )->Some_0)
                &&& (r is Err ==> r == Result::<(), FatalError>::Err(
                    FatalError::InvalidSubmission,
                ))
            },
    {
        let ghost pre = *self;
        let ghost cbs = spec_submission(command_buffers@);
        match self.dispatch(queue.id()) {
            Ok(_) => {
            },
            Err(_) => {
                return Err(FatalError::UnsupportedBackend);
            },
        }
        if !self.queues.is_live(queue.id()) {
            return Err(FatalError::InvalidSubmission);
        }
        let device_id = match self.queues.resolve(queue.id()) {
            Ok(d) => *d,
            Err(_) => vstd::pervasive::unreached(),
        };
        if !self.devices.is_live(device_id) {
            return Err(FatalError::InvalidSubmission);
        }
        let mut b: usize = 0;
        while b < command_buffers.len()
            invariant
                self.wf(),
                pre == *old(self),
                cbs == spec_submission(command_buffers@),
                b <= command_buffers@.len(),
                cbs.len() == command_buffers@.len(),
                queue.spec_id().backend == pre.spec_backend(),
                pre.spec_queue_live(queue.spec_id()),
                pre.spec_device_live(pre.spec_queue_device(queue.spec_id())),
                self.spec_backend() == pre.spec_backend(),
                self.devices == pre.devices,
                self.adapters == pre.adapters,
                self.queues == pre.queues,
                self.futures == pre.futures,
                forall|o: ResourceId| self.spec_buffer_live(o) <==> pre.spec_buffer_live(o),
                forall|o: ResourceId|
                    pre.spec_buffer_live(o) ==> {
                        &&& self.spec_buffer_usage(o) == pre.spec_buffer_usage(o)
                        &&& self.spec_buffer_device(o) == pre.spec_buffer_device(o)
                        &&& self.spec_buffer_map_state(o) == pre.spec_buffer_map_state(o)
                        &&& self.spec_buffer_data(o).len() == pre.spec_buffer_data(o).len()
                    },
                spec_run_buffers(pre.spec_buffers_model(), cbs.subrange(0, b as int)) == Some(
                    self.spec_buffers_model(),
                ),
            decreases command_buffers@.len() - b,
        {
            let ghost cb_start = self.spec_buffers_model();
            let cmd_count = command_buffers[b].commands.len();
            let mut c: usize = 0;
            while c < cmd_count
                invariant
                    self.wf(),
                    pre == *old(self),
                    cbs == spec_submission(command_buffers@),
                    b < command_buffers@.len(),
                    cbs.len() == command_buffers@.len(),
                    cmd_count == cbs[b as int].len(),
                    c <= cmd_count,
                    cbs[b as int] == command_buffers@[b as int].spec_commands(),
                    queue.spec_id().backend == pre.spec_backend(),
                    pre.spec_queue_live(queue.spec_id()),
                    pre.spec_device_live(pre.spec_queue_device(queue.spec_id())),
                    self.spec_backend() == pre.spec_backend(),
                    self.devices == pre.devices,
                    self.adapters == pre.adapters,
                    self.queues == pre.queues,
                    self.futures == pre.futures,
                    forall|o: ResourceId| self.spec_buffer_live(o) <==> pre.spec_buffer_live(o),
                    forall|o: ResourceId|
                        pre.spec_buffer_live(o) ==> {
                            &&& self.spec_buffer_usage(o) == pre.spec_buffer_usage(o)
                            &&& self.spec_buffer_device(o) == pre.spec_buffer_device(o)
                            &&& self.spec_buffer_map_state(o) == pre.spec_buffer_map_state(o)
                            &&& self.spec_buffer_data(o).len() == pre.spec_buffer_data(o).len()
                        },
                    spec_run_buffers(pre.spec_buffers_model(), cbs.subrange(0, b as int)) == Some(
                        cb_start,
                    ),
                    spec_run_commands(cb_start, cbs[b as int].subrange(0, c as int)) == Some(
                        self.spec_buffers_model(),
                    ),
                decreases cmd_count - c,
            {
                let ghost step_start = self.spec_buffers_model();
                let ghost cur_cmd = cbs[b as int][c as int];
                let mut fatal = false;
                match &command_buffers[b].commands[c] {
                    Command::CopyBufferToBuffer { src, src_offset, dst, dst_offset, size } => {
                        let src = *src;
                        let src_offset = *src_offset;
                        let dst = *dst;
                        let dst_offset = *dst_offset;
                        let size = *size;
                        let mut valid = false;
                        if self.buffers.is_live(src) && self.buffers.is_live(dst) {
                            let (src_unmapped, src_len) = match self.buffers.resolve(src) {
                                Ok(res) => (
                                    match res.map_state {
                                        BufferMapState::Unmapped => true,
                                        _ => false,
                                    },
                                    res.data.len() as u64,
                                ),
                                Err(_) => vstd::pervasive::unreached(),
                            };
                            let (dst_unmapped, dst_len) = match self.buffers.resolve(dst) {
                                Ok(res) => (
                                    match res.map_state {
                                        BufferMapState::Unmapped => true,
                                        _ => false,
                                    },
                                    res.data.len() as u64,
                                ),
                                Err(_) => vstd::pervasive::unreached(),
                            };
                            valid = src_unmapped && dst_unmapped && size <= src_len && src_offset
                                <= src_len - size && size <= dst_len && dst_offset <= dst_len
                                - size;
                        }
                        if valid {
                            let bytes = match self.buffers.resolve(src) {
                                Ok(res) => read_copy(&res.data, src_offset, size),
                                Err(_) => vstd::pervasive::unreached(),
                            };
                            let res = self.buffers.borrow_mut(dst);
                            crate::context::write_range(
                                &mut res.data,
                                dst_offset as usize,
                                bytes.as_slice(),
                            );
                            proof {
                                assert(self.spec_buffers_model() =~~= spec_apply_command(
                                    step_start,
                                    cur_cmd,
                                )->Some_0);
                            }
                        } else {
                            fatal = true;
                        }
                    },
                    _ => {
                        proof {
                            assert(self.spec_buffers_model() =~~= step_start);
                        }
                    },
                }
                if fatal {
                    proof {
                        assert(spec_apply_command(step_start, cur_cmd) is None);
                        lemma_run_commands_snoc(cb_start, cbs[b as int], c as int);
                        lemma_run_commands_none_extends(cb_start, cbs[b as int], c as int + 1);
                        lemma_run_buffers_snoc(pre.spec_buffers_model(), cbs, b as int);
                        lemma_run_buffers_none_extends(pre.spec_buffers_model(), cbs, b as int + 1);
                    }
                    return Err(FatalError::InvalidSubmission);
                }
                proof {
                    lemma_run_commands_snoc(cb_start, cbs[b as int], c as int);
                }
                c = c + 1;
            }
            proof {
                assert(cbs[b as int].subrange(0, cmd_count as int) =~= cbs[b as int]);
                lemma_run_buffers_snoc(pre.spec_buffers_model(), cbs, b as int);
            }
            b = b + 1;
        }
        proof {
            assert(cbs.subrange(0, cbs.len() as int) =~= cbs);
        }
        Ok(())
    }
}

impl Context {
    /// Whether a direct write of `len` bytes at `offset` into `buffer` is
    /// accepted: the queue, its device and the buffer are alive on this
    /// backend, the buffer accepts copies in and is unmapped, and the write
    /// fits.
    pub open(crate) spec fn spec_write_buffer_accepts(
        self,
        queue: ResourceId,
        buffer: ResourceId,
        offset: u64,
        len: nat,
    ) -> bool {
        &&& queue.backend == self.spec_backend()
        &&& self.spec_queue_live(queue)
        &&& self.spec_device_live(self.spec_queue_device(queue))
        &&& self.spec_buffer_live(buffer)
        &&& self.spec_buffer_usage(buffer).copy_dst
        &&& self.spec_buffer_map_state(buffer) is Unmapped
        &&& offset + len <= self.spec_buffer_data(buffer).len()
    }

    /// Writes `data` into `buffer` at `offset` on the queue's timeline,
    /// without mapping.
    ///
    /// Accepted exactly when [`Context::spec_write_buffer_accepts`] says so;
    /// anything else — a foreign or dead queue, a destroyed, sealed or
    /// mapped buffer, a write past the end — is a fatal fault and is
    /// reported.
    pub fn queue_write_buffer(
        &mut self,
        queue: &Queue,
        buffer: &crate::buffer::Buffer,
        offset: u64,
        data: &[u8],
    ) -> (r: Result<(), FatalError>)
        requires
            old(self).wf(),
        ensures
            final(self).wf(),
            final(self).spec_backend() == old(self).spec_backend(),
            final(self).spec_same_devices(*old(self)),
            final(self).spec_same_futures(*old(self)),
            final(self).spec_same_adapters(*old(self)),
            final(self).spec_same_queues(*old(self)),
            final(self).spec_same_resources(*old(self)),
            r is Ok <==> old(self).spec_write_buffer_accepts(
                queue.spec_id(),
                buffer.spec_id(),
                offset,
                data@.len(),
            ),
            r is Ok ==> {
                &&& final(self).spec_buffer_data(buffer.spec_id()) == spec_splice(
                    old(self).spec_buffer_data(buffer.spec_id()),
                    offset as int,
                    data@,
                )
                &&& final(self).spec_buffer_usage(buffer.spec_id()) == old(
                    self,
                ).spec_buffer_usage(buffer.spec_id())
                &&& final(self).spec_buffer_device(buffer.spec_id()) == old(
                    self,
                ).spec_buffer_device(buffer.spec_id())
                &&& final(self).spec_buffer_map_state(buffer.spec_id()) == old(
                    self,
                ).spec_buffer_map_state(buffer.spec_id())
                &&& final(self).spec_buffers_framed(*old(self), buffer.spec_id())
            },
            r is Err ==> final(self).spec_same_buffers(*old(self)),
            queue.spec_id().backend != old(self).spec_backend() ==> r == Result::<
                (),
                FatalError,
            >::Err(FatalError::UnsupportedBackend),
            (queue.spec_id().backend == old(self).spec_backend() && r is Err) ==> r == Result::<
                (),
                FatalError,
            >::Err(FatalError::InvalidSubmission),
    {
        match self.dispatch(queue.id()) {
            Ok(_) => {
            },
            Err(_) => {
                return Err(FatalError::UnsupportedBackend);
            },
        }
        if !self.queues.is_live(queue.id()) {
            return Err(FatalError::InvalidSubmission);
        }
        let device_id = match self.queues.resolve(queue.id()) {
            Ok(d) => *d,
            Err(_) => vstd::pervasive::unreached(),
        };
        if !self.devices.is_live(device_id) {
            return Err(FatalError::InvalidSubmission);
        }
        if !self.buffers.is_live(buffer.id()) {
            return Err(FatalError::InvalidSubmission);
        }
        let (usage, ms, dlen) = match self.buffers.resolve(buffer.id()) {
            Ok(res) => (res.usage, res.map_state, res.data.len() as u64),
            Err(_) => vstd::pervasive::unreached(),
        };
        if !usage.copy_dst {
            return Err(FatalError::InvalidSubmission);
        }
        match ms {
            BufferMapState::Unmapped => {
            },
            _ => {
                return Err(FatalError::InvalidSubmission);
            },
        }
        let len = data.len() as u64;
        if len > dlen || offset > dlen - len {
            return Err(FatalError::InvalidSubmission);
        }
        let res = self.buffers.borrow_mut(buffer.id());
        crate::context::write_range(&mut res.data, offset as usize, data);
        Ok(())
    }
}

/// A copy of `size` bytes of `data` starting at `offset`.
fn read_copy(data: &Vec<u8>, offset: u64, size: u64) -> (r: Vec<u8>)
    requires
        offset + size <= data@.len(),
    ensures
        r@ == data@.subrange(offset as int, offset + size),
{
    let total = data.len();
    proof {
        assert(offset <= total as u64);
        assert(size <= total as u64);
    }
    crate::context::read_range(data, offset as usize, size as usize)
}

} // verus!
