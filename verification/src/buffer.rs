//! Buffers and typed views into them.
//!
//! A [`BufferRange`] is an offset plus a size into a buffer, typed by how
//! much is known about the size: [`Bounded`] ranges carry an exact size,
//! [`Unbounded`] ranges run to the end of the buffer, and [`Unsure`] ranges
//! carry a size that may or may not be known yet. Ranges are combined with
//! [`RangedBuffer::range`], and every combination is checked where it is
//! made: a child range always starts at its parent's offset plus the
//! sub-offset, and never reaches past its parent's recorded bound.

use vstd::prelude::*;

use crate::id::ResourceId;

verus! {

/// What a buffer may be used for. Each flag mirrors one usage bit of the
/// descriptor the buffer was created with.
#[derive(Clone, Copy, Debug, PartialEq, Eq, Structural)]
pub struct BufferUsage {
    pub map_read: bool,
    pub map_write: bool,
    pub copy_src: bool,
    pub copy_dst: bool,
    pub index: bool,
    pub vertex: bool,
    pub uniform: bool,
    pub storage: bool,
    pub indirect: bool,
}

impl BufferUsage {
    /// No usage at all.
    pub fn empty() -> (r: BufferUsage)
        ensures
            r == (BufferUsage {
                map_read: false,
                map_write: false,
                copy_src: false,
                copy_dst: false,
                index: false,
                vertex: false,
                uniform: false,
                storage: false,
                indirect: false,
            }),
    {
        BufferUsage {
            map_read: false,
            map_write: false,
            copy_src: false,
            copy_dst: false,
            index: false,
            vertex: false,
            uniform: false,
            storage: false,
            indirect: false,
        }
    }
}

/// Describes a buffer to be created: its length in bytes and its allowed
/// usages.
#[derive(Clone, Copy, Debug, PartialEq, Eq, Structural)]
pub struct BufferDescriptor {
    pub size: u64,
    pub usage: BufferUsage,
}

/// A handle to a GPU-accessible buffer.
///
/// The handle records the identifier the registry issued for the buffer, the
/// device it was created from, and enough of its descriptor to validate
/// ranges without consulting the registry.
#[derive(Debug, PartialEq)]
pub struct Buffer {
    pub(crate) id: ResourceId,
    pub(crate) device_id: ResourceId,
    pub(crate) size: u64,
    pub(crate) usage: BufferUsage,
    pub(crate) destroyed: bool,
}

impl Buffer {
    /// The identifier the registry issued for this buffer.
    pub open(crate) spec fn spec_id(self) -> ResourceId {
        self.id
    }

    /// The identifier of the owning device.
    pub open(crate) spec fn spec_device_id(self) -> ResourceId {
        self.device_id
    }

    /// The buffer's length in bytes.
    pub open(crate) spec fn spec_size(self) -> u64 {
        self.size
    }

    /// The usages the buffer was created with.
    pub open(crate) spec fn spec_usage(self) -> BufferUsage {
        self.usage
    }

    /// Whether this handle has already issued its backend free.
    pub open(crate) spec fn spec_destroyed(self) -> bool {
        self.destroyed
    }

    /// The identifier the registry issued for this buffer.
    pub fn id(&self) -> (r: ResourceId)
        ensures
            r == self.spec_id(),
    {
        self.id
    }

    /// The buffer's length in bytes.
    pub fn size(&self) -> (r: u64)
        ensures
            r == self.spec_size(),
    {
        self.size
    }

    /// The usages the buffer was created with.
    pub fn usage(&self) -> (r: BufferUsage)
        ensures
            r == self.spec_usage(),
    {
        self.usage
    }
}

/// Marks range types whose size is known exactly.
pub struct Bounded;

/// Marks range types that run to the end of their buffer.
pub struct Unbounded;

/// Marks range types whose size is only optionally known.
pub struct Unsure;

/// The size argument that means "the rest of the buffer".
#[derive(Clone, Copy, Debug, PartialEq, Eq, Structural)]
pub struct ToEnd;

/// Restricts the range machinery's traits to the types of this module.
pub trait Sealed {

}

impl Sealed for Bounded {

}

impl Sealed for Unbounded {

}

impl Sealed for Unsure {

}

impl Sealed for ToEnd {

}

impl Sealed for u64 {

}

impl Sealed for Option<u64> {

}

impl<'a> Sealed for &'a Buffer {

}

impl<'a, S: SizedBuffer> Sealed for BufferRange<'a, S> {

}

/// A value that stores how much of a buffer a range covers.
pub trait SizeStorage: Sealed + Copy + Sized {
    /// The stored size, if one is stored.
    spec fn spec_to_option(self) -> Option<u64>;

    /// The stored size, if one is stored.
    fn to_option(self) -> (r: Option<u64>)
        ensures
            r == self.spec_to_option(),
    ;
}

impl SizeStorage for u64 {
    open spec fn spec_to_option(self) -> Option<u64> {
        Some(self)
    }

    fn to_option(self) -> (r: Option<u64>) {
        Some(self)
    }
}

impl SizeStorage for ToEnd {
    open spec fn spec_to_option(self) -> Option<u64> {
        None
    }

    fn to_option(self) -> (r: Option<u64>) {
        None
    }
}

impl SizeStorage for Option<u64> {
    open spec fn spec_to_option(self) -> Option<u64> {
        self
    }

    fn to_option(self) -> (r: Option<u64>) {
        self
    }
}

/// Ties each range marker to the storage its size is kept in.
pub trait SizedBuffer: Sealed {
    /// How ranges of this kind store their size.
    type Storage: SizeStorage;
}

impl SizedBuffer for Bounded {
    type Storage = u64;
}

impl SizedBuffer for Unbounded {
    type Storage = ToEnd;
}

impl SizedBuffer for Unsure {
    type Storage = Option<u64>;
}

/// Marks storages whose meaning is fixed at compile time.
pub trait StaticSizeStorage: SizeStorage {

}

impl StaticSizeStorage for u64 {

}

impl StaticSizeStorage for ToEnd {

}

/// Marks range kinds whose storage is static.
pub trait StaticSizedBuffer: SizedBuffer {

}

impl StaticSizedBuffer for Bounded {

}

impl StaticSizedBuffer for Unbounded {

}

/// A handle to a ranged, GPU-accessible buffer: an offset and a size into a
/// [`Buffer`], typed by how much is known about the size.
///
/// Every range built by [`RangedBuffer::range`] satisfies
/// [`BufferRange::wf`]; operations that consume a range state that
/// well-formedness as their precondition, so the bound check happens where
/// the range is combined, not where it is used.
pub struct BufferRange<'a, S: SizedBuffer> {
    pub buffer: &'a Buffer,
    pub offset: u64,
    pub size: S::Storage,
}

impl<'a, S: SizedBuffer> Clone for BufferRange<'a, S> {
    fn clone(&self) -> (r: Self)
        ensures
            r == *self,
    {
        BufferRange { buffer: self.buffer, offset: self.offset, size: self.size }
    }
}

impl<'a, S: SizedBuffer> Copy for BufferRange<'a, S> {

}

impl<'a, S: SizedBuffer> BufferRange<'a, S> {
    /// The buffer this range points into.
    pub open spec fn spec_buffer(self) -> Buffer {
        *self.buffer
    }

    /// The range's absolute offset into the buffer.
    pub open spec fn spec_offset(self) -> u64 {
        self.offset
    }

    /// The range's stored size, if one is stored.
    pub open spec fn spec_size(self) -> Option<u64> {
        self.size.spec_to_option()
    }

    /// The absolute end of what the range covers: offset plus size where the
    /// size is known, the end of the buffer otherwise.
    pub open spec fn spec_end(self) -> int {
        match self.spec_size() {
            Some(s) => self.spec_offset() + s,
            None => self.spec_buffer().spec_size() as int,
        }
    }

    /// The range lies inside its buffer.
    pub open spec fn wf(self) -> bool {
        self.spec_end() <= self.spec_buffer().spec_size()
        && self.spec_offset() <= self.spec_end()
    }

    /// The range's absolute offset into the buffer.
    pub fn offset(&self) -> (r: u64)
        ensures
            r == self.spec_offset(),
    {
        self.offset
    }

    /// The range's stored size, if one is stored.
    pub fn size(&self) -> (r: Option<u64>)
        ensures
            r == self.spec_size(),
    {
        self.size.to_option()
    }
}

/// Failure to combine two ranges: the requested sub-range reaches past the
/// parent's recorded bound.
#[derive(Clone, Copy, Debug, PartialEq, Eq, Structural)]
pub struct RangeError;

/// Indexes a [`Buffer`] or a [`BufferRange`] by an offset and a size.
///
/// The size argument can be an exact count (`u64`), [`ToEnd`] for the rest of
/// the parent, or an `Option<u64>` when it is only conditionally known; the
/// implementation picked decides the kind of the resulting range. Every
/// combination is checked here, where the range is made: the child starts at
/// the parent's offset plus `offset`, and a child whose end would pass the
/// parent's recorded bound is refused.
pub trait RangedBuffer<'a, End: SizeStorage, Bounds: SizedBuffer>: Sealed {
    /// The parent's absolute offset.
    spec fn spec_start(self) -> u64;

    /// The parent's absolute end bound.
    spec fn spec_bound(self) -> int;

    /// The buffer the parent points into.
    spec fn spec_parent_buffer(self) -> Buffer;

    /// The parent lies inside its buffer.
    spec fn spec_parent_wf(self) -> bool;

    /// Whether the requested sub-range stays inside the parent's bound.
    spec fn spec_range_ok(self, offset: u64, size: End) -> bool;

    /// The combined range, when the combination is allowed.
    spec fn spec_range(self, offset: u64, size: End) -> BufferRange<'a, Bounds>;

    /// Combines the parent with a sub-range, failing deterministically when
    /// the sub-range does not fit.
    fn range(self, offset: u64, size: End) -> (r: Result<BufferRange<'a, Bounds>, RangeError>)
        requires
            self.spec_parent_wf(),
        ensures
            r is Ok <==> self.spec_range_ok(offset, size),
            r matches Ok(v) ==> v == self.spec_range(offset, size),
            r matches Ok(v) ==> v.wf(),
            r matches Ok(v) ==> v.spec_offset() == self.spec_start() + offset,
            r matches Ok(v) ==> v.spec_end() <= self.spec_bound(),
            r matches Ok(v) ==> v.spec_buffer() == self.spec_parent_buffer(),
    ;
}

impl<'a> RangedBuffer<'a, u64, Bounded> for &'a Buffer {
    open spec fn spec_start(self) -> u64 {
        0
    }

    open spec fn spec_bound(self) -> int {
        self.spec_size() as int
    }

    open spec fn spec_parent_buffer(self) -> Buffer {
        *self
    }

    open spec fn spec_parent_wf(self) -> bool {
        true
    }

    open spec fn spec_range_ok(self, offset: u64, size: u64) -> bool {
        offset + size <= self.spec_size()
    }

    open spec fn spec_range(self, offset: u64, size: u64) -> BufferRange<'a, Bounded> {
        BufferRange { buffer: self, offset, size }
    }

    fn range(self, offset: u64, size: u64) -> (r: Result<BufferRange<'a, Bounded>, RangeError>) {
        if size <= self.size && offset <= self.size - size {
            Ok(BufferRange { buffer: self, offset, size })
        } else {
            Err(RangeError)
        }
    }
}

impl<'a> RangedBuffer<'a, ToEnd, Unbounded> for &'a Buffer {
    open spec fn spec_start(self) -> u64 {
        0
    }

    open spec fn spec_bound(self) -> int {
        self.spec_size() as int
    }

    open spec fn spec_parent_buffer(self) -> Buffer {
        *self
    }

    open spec fn spec_parent_wf(self) -> bool {
        true
    }

    open spec fn spec_range_ok(self, offset: u64, size: ToEnd) -> bool {
        offset <= self.spec_size()
    }

    open spec fn spec_range(self, offset: u64, size: ToEnd) -> BufferRange<'a, Unbounded> {
        BufferRange { buffer: self, offset, size: ToEnd }
    }

    fn range(self, offset: u64, size: ToEnd) -> (r: Result<BufferRange<'a, Unbounded>, RangeError>) {
        if offset <= self.size {
            Ok(BufferRange { buffer: self, offset, size: ToEnd })
        } else {
            Err(RangeError)
        }
    }
}

impl<'a> RangedBuffer<'a, Option<u64>, Unsure> for &'a Buffer {
    open spec fn spec_start(self) -> u64 {
        0
    }

    open spec fn spec_bound(self) -> int {
        self.spec_size() as int
    }

    open spec fn spec_parent_buffer(self) -> Buffer {
        *self
    }

    open spec fn spec_parent_wf(self) -> bool {
        true
    }

    open spec fn spec_range_ok(self, offset: u64, size: Option<u64>) -> bool {
        match size {
            Some(s) => offset + s <= self.spec_size(),
            None => offset <= self.spec_size(),
        }
    }

    open spec fn spec_range(self, offset: u64, size: Option<u64>) -> BufferRange<'a, Unsure> {
        BufferRange { buffer: self, offset, size }
    }

    fn range(self, offset: u64, size: Option<u64>) -> (r: Result<
        BufferRange<'a, Unsure>,
        RangeError,
    >) {
        let fits = match size {
            Some(s) => s <= self.size && offset <= self.size - s,
            None => offset <= self.size,
        };
        if fits {
            Ok(BufferRange { buffer: self, offset, size })
        } else {
            Err(RangeError)
        }
    }
}

impl<'a> RangedBuffer<'a, u64, Bounded> for BufferRange<'a, Bounded> {
    open spec fn spec_start(self) -> u64 {
        self.spec_offset()
    }

    open spec fn spec_bound(self) -> int {
        self.spec_end()
    }

    open spec fn spec_parent_buffer(self) -> Buffer {
        self.spec_buffer()
    }

    open spec fn spec_parent_wf(self) -> bool {
        self.wf()
    }

    open spec fn spec_range_ok(self, offset: u64, size: u64) -> bool {
        offset + size <= self.size
    }

    open spec fn spec_range(self, offset: u64, size: u64) -> BufferRange<'a, Bounded> {
        BufferRange { buffer: self.buffer, offset: (self.offset + offset) as u64, size }
    }

    fn range(self, offset: u64, size: u64) -> (r: Result<BufferRange<'a, Bounded>, RangeError>) {
        if size <= self.size && offset <= self.size - size {
            Ok(BufferRange { buffer: self.buffer, offset: self.offset + offset, size })
        } else {
            Err(RangeError)
        }
    }
}

impl<'a> RangedBuffer<'a, ToEnd, Bounded> for BufferRange<'a, Bounded> {
    open spec fn spec_start(self) -> u64 {
        self.spec_offset()
    }

    open spec fn spec_bound(self) -> int {
        self.spec_end()
    }

    open spec fn spec_parent_buffer(self) -> Buffer {
        self.spec_buffer()
    }

    open spec fn spec_parent_wf(self) -> bool {
        self.wf()
    }

    open spec fn spec_range_ok(self, offset: u64, size: ToEnd) -> bool {
        offset <= self.size
    }

    open spec fn spec_range(self, offset: u64, size: ToEnd) -> BufferRange<'a, Bounded> {
        BufferRange {
            buffer: self.buffer,
            offset: (self.offset + offset) as u64,
            size: (self.size - offset) as u64,
        }
    }

    fn range(self, offset: u64, size: ToEnd) -> (r: Result<BufferRange<'a, Bounded>, RangeError>) {
        if offset <= self.size {
            Ok(
                BufferRange {
                    buffer: self.buffer,
                    offset: self.offset + offset,
                    size: self.size - offset,
                },
            )
        } else {
            Err(RangeError)
        }
    }
}

impl<'a> RangedBuffer<'a, ToEnd, Unbounded> for BufferRange<'a, Unbounded> {
    open spec fn spec_start(self) -> u64 {
        self.spec_offset()
    }

    open spec fn spec_bound(self) -> int {
        self.spec_end()
    }

    open spec fn spec_parent_buffer(self) -> Buffer {
        self.spec_buffer()
    }

    open spec fn spec_parent_wf(self) -> bool {
        self.wf()
    }

    open spec fn spec_range_ok(self, offset: u64, size: ToEnd) -> bool {
        self.spec_offset() + offset <= self.spec_buffer().spec_size()
    }

    open spec fn spec_range(self, offset: u64, size: ToEnd) -> BufferRange<'a, Unbounded> {
        BufferRange { buffer: self.buffer, offset: (self.offset + offset) as u64, size: ToEnd }
    }

    fn range(self, offset: u64, size: ToEnd) -> (r: Result<BufferRange<'a, Unbounded>, RangeError>) {
        if offset <= self.buffer.size - self.offset {
            Ok(BufferRange { buffer: self.buffer, offset: self.offset + offset, size: ToEnd })
        } else {
            Err(RangeError)
        }
    }
}

impl<'a> RangedBuffer<'a, u64, Bounded> for BufferRange<'a, Unbounded> {
    open spec fn spec_start(self) -> u64 {
        self.spec_offset()
    }

    open spec fn spec_bound(self) -> int {
        self.spec_end()
    }

    open spec fn spec_parent_buffer(self) -> Buffer {
        self.spec_buffer()
    }

    open spec fn spec_parent_wf(self) -> bool {
        self.wf()
    }

    open spec fn spec_range_ok(self, offset: u64, size: u64) -> bool {
        self.spec_offset() + offset + size <= self.spec_buffer().spec_size()
    }

    open spec fn spec_range(self, offset: u64, size: u64) -> BufferRange<'a, Bounded> {
        BufferRange { buffer: self.buffer, offset: (self.offset + offset) as u64, size }
    }

    fn range(self, offset: u64, size: u64) -> (r: Result<BufferRange<'a, Bounded>, RangeError>) {
        let room = self.buffer.size - self.offset;
        if size <= room && offset <= room - size {
            Ok(BufferRange { buffer: self.buffer, offset: self.offset + offset, size })
        } else {
            Err(RangeError)
        }
    }
}

impl<'a> RangedBuffer<'a, Option<u64>, Unsure> for BufferRange<'a, Unbounded> {
    open spec fn spec_start(self) -> u64 {
        self.spec_offset()
    }

    open spec fn spec_bound(self) -> int {
        self.spec_end()
    }

    open spec fn spec_parent_buffer(self) -> Buffer {
        self.spec_buffer()
    }

    open spec fn spec_parent_wf(self) -> bool {
        self.wf()
    }

    open spec fn spec_range_ok(self, offset: u64, size: Option<u64>) -> bool {
        match size {
            Some(s) => self.spec_offset() + offset + s <= self.spec_buffer().spec_size(),
            None => self.spec_offset() + offset <= self.spec_buffer().spec_size(),
        }
    }

    open spec fn spec_range(self, offset: u64, size: Option<u64>) -> BufferRange<'a, Unsure> {
        BufferRange { buffer: self.buffer, offset: (self.offset + offset) as u64, size }
    }

    fn range(self, offset: u64, size: Option<u64>) -> (r: Result<
        BufferRange<'a, Unsure>,
        RangeError,
    >) {
        let room = self.buffer.size - self.offset;
        let fits = match size {
            Some(s) => s <= room && offset <= room - s,
            None => offset <= room,
        };
        if fits {
            Ok(BufferRange { buffer: self.buffer, offset: self.offset + offset, size })
        } else {
            Err(RangeError)
        }
    }
}

impl<'a> RangedBuffer<'a, Option<u64>, Unsure> for BufferRange<'a, Unsure> {
    open spec fn spec_start(self) -> u64 {
        self.spec_offset()
    }

    open spec fn spec_bound(self) -> int {
        self.spec_end()
    }

    open spec fn spec_parent_buffer(self) -> Buffer {
        self.spec_buffer()
    }

    open spec fn spec_parent_wf(self) -> bool {
        self.wf()
    }

    open spec fn spec_range_ok(self, offset: u64, size: Option<u64>) -> bool {
        match (self.spec_size(), size) {
            (Some(old_size), Some(new_size)) => offset + new_size <= old_size,
            (Some(old_size), None) => offset <= old_size,
            (None, Some(new_size)) => self.spec_offset() + offset + new_size
                <= self.spec_buffer().spec_size(),
            (None, None) => self.spec_offset() + offset <= self.spec_buffer().spec_size(),
        }
    }

    open spec fn spec_range(self, offset: u64, size: Option<u64>) -> BufferRange<'a, Unsure> {
        let combined = match (self.spec_size(), size) {
            (Some(old_size), Some(new_size)) => Some(new_size),
            (Some(old_size), None) => Some((old_size - offset) as u64),
            (None, Some(new_size)) => Some(new_size),
            (None, None) => None,
        };
        BufferRange { buffer: self.buffer, offset: (self.offset + offset) as u64, size: combined }
    }

    fn range(self, offset: u64, size: Option<u64>) -> (r: Result<
        BufferRange<'a, Unsure>,
        RangeError,
    >) {
        match (self.size, size) {
            (Some(old_size), Some(new_size)) => {
                if new_size <= old_size && offset <= old_size - new_size {
                    Ok(
                        BufferRange {
                            buffer: self.buffer,
                            offset: self.offset + offset,
                            size: Some(new_size),
                        },
                    )
                } else {
                    Err(RangeError)
                }
            },
            (Some(old_size), None) => {
                if offset <= old_size {
                    Ok(
                        BufferRange {
                            buffer: self.buffer,
                            offset: self.offset + offset,
                            size: Some(old_size - offset),
                        },
                    )
                } else {
                    Err(RangeError)
                }
            },
            (None, new_size) => {
                let room = self.buffer.size - self.offset;
                let fits = match new_size {
                    Some(s) => s <= room && offset <= room - s,
                    None => offset <= room,
                };
                if fits {
                    Ok(
                        BufferRange {
                            buffer: self.buffer,
                            offset: self.offset + offset,
                            size: new_size,
                        },
                    )
                } else {
                    Err(RangeError)
                }
            },
        }
    }
}

impl<'a> RangedBuffer<'a, u64, Unsure> for BufferRange<'a, Unsure> {
    open spec fn spec_start(self) -> u64 {
        self.spec_offset()
    }

    open spec fn spec_bound(self) -> int {
        self.spec_end()
    }

    open spec fn spec_parent_buffer(self) -> Buffer {
        self.spec_buffer()
    }

    open spec fn spec_parent_wf(self) -> bool {
        self.wf()
    }

    open spec fn spec_range_ok(self, offset: u64, size: u64) -> bool {
        RangedBuffer::<'a, Option<u64>, Unsure>::spec_range_ok(self, offset, Some(size))
    }

    open spec fn spec_range(self, offset: u64, size: u64) -> BufferRange<'a, Unsure> {
        RangedBuffer::<'a, Option<u64>, Unsure>::spec_range(self, offset, Some(size))
    }

    fn range(self, offset: u64, size: u64) -> (r: Result<BufferRange<'a, Unsure>, RangeError>) {
        RangedBuffer::<'a, Option<u64>, Unsure>::range(self, offset, Some(size))
    }
}

impl<'a> RangedBuffer<'a, ToEnd, Unsure> for BufferRange<'a, Unsure> {
    open spec fn spec_start(self) -> u64 {
        self.spec_offset()
    }

    open spec fn spec_bound(self) -> int {
        self.spec_end()
    }

    open spec fn spec_parent_buffer(self) -> Buffer {
        self.spec_buffer()
    }

    open spec fn spec_parent_wf(self) -> bool {
        self.wf()
    }

    open spec fn spec_range_ok(self, offset: u64, size: ToEnd) -> bool {
        RangedBuffer::<'a, Option<u64>, Unsure>::spec_range_ok(self, offset, None)
    }

    open spec fn spec_range(self, offset: u64, size: ToEnd) -> BufferRange<'a, Unsure> {
        RangedBuffer::<'a, Option<u64>, Unsure>::spec_range(self, offset, None)
    }

    fn range(self, offset: u64, size: ToEnd) -> (r: Result<BufferRange<'a, Unsure>, RangeError>) {
        RangedBuffer::<'a, Option<u64>, Unsure>::range(self, offset, None)
    }
}

} // verus!
