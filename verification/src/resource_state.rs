//! State trackers deciding which barriers transfer operations need.
//!
//! A tracker is a registry keyed by an opaque resource identity. For each
//! registered buffer or image it remembers which accesses are still pending
//! and, for images, the current layout. On every recorded access it decides
//! whether a memory barrier must precede the access, appends at most one
//! barrier descriptor to a caller-supplied sink, and updates the entry.
//! Releasing an entry removes it and reports the residual pending-access
//! mask, so the caller can emit a final hand-off barrier.
//!
//! The transition each operation performs is written out as a spec function
//! (`buffer_entry_updated`, `image_entry_after_read`, ...); the executable
//! methods are proved to follow them exactly, and the laws at the end of the
//! module are proved over them.

use std::collections::HashMap;
use vstd::prelude::*;

use crate::barrier::ACCESS_NONE;
use crate::barrier::ACCESS_TRANSFER_READ;
use crate::barrier::ACCESS_TRANSFER_READ_WRITE;
use crate::barrier::ACCESS_TRANSFER_WRITE;
use crate::barrier::BufferMemoryBarrier;
use crate::barrier::ImageMemoryBarrier;
use crate::barrier::LAYOUT_TRANSFER_DST_OPTIMAL;
use crate::barrier::LAYOUT_TRANSFER_SRC_OPTIMAL;
use crate::barrier::STAGE_TRANSFER;
use crate::barrier::WHOLE_SIZE;
use crate::barrier::spec_whole_image_range;
use crate::barrier::transfer_access;
use crate::barrier::transfer_access_mask;
use crate::barrier::whole_image_range;

verus! {

broadcast use vstd::std_specs::hash::group_hash_axioms;

/// Tracked state of one registered buffer: its raw handle and which transfer
/// accesses have been recorded since the last release.
///
/// Both pending flags may be true at once; they accumulate until the entry is
/// released.
#[derive(Clone, Copy, Debug, PartialEq, Eq, Structural)]
pub struct BufferEntry {
    /// Raw handle of the buffer, as supplied at registration.
    pub handle: u64,
    /// A transfer read has been recorded and not yet handed off.
    pub read_pending: bool,
    /// A transfer write has been recorded and not yet handed off.
    pub write_pending: bool,
}

/// Tracked state of one registered image: its raw handle, the aspects it is
/// tracked under, its current layout, and which transfer access is pending.
///
/// At most one of the pending flags is true at a time: each fired transition
/// flushes the opposite direction.
#[derive(Clone, Copy, Debug, PartialEq, Eq, Structural)]
pub struct ImageEntry {
    /// Raw handle of the image, as supplied at registration.
    pub handle: u64,
    /// Aspect mask the image is tracked under, fixed at registration.
    pub aspect_mask: u32,
    /// The image's current layout: the `new_layout` of the most recently
    /// emitted transition, or the registration layout if none fired yet.
    pub layout: i32,
    /// A transfer read has been recorded and not yet handed off.
    pub read_pending: bool,
    /// A transfer write has been recorded and not yet handed off.
    pub write_pending: bool,
}

/// The entry `register` creates for a buffer: no pending accesses.
pub open spec fn fresh_buffer_entry(handle: u64) -> BufferEntry {
    BufferEntry { handle, read_pending: false, write_pending: false }
}

/// The entry `register` creates for an image: no pending accesses, the
/// caller-supplied layout.
pub open spec fn fresh_image_entry(handle: u64, aspect_mask: u32, layout: i32) -> ImageEntry {
    ImageEntry { handle, aspect_mask, layout, read_pending: false, write_pending: false }
}

/// The residual access mask an entry is released with: the transfer-read bit
/// if a read is pending, the transfer-write bit if a write is pending.
pub open spec fn residual_access(read_pending: bool, write_pending: bool) -> u64 {
    transfer_access(read_pending, write_pending)
}

/// The source access scope a buffer update must synchronize against.
///
/// An upcoming read only hazards against a pending write (read after write);
/// an upcoming write hazards against any pending access (write after write,
/// write after read), and then flushes both directions.
pub open spec fn buffer_src_access(e: BufferEntry, read: bool, write: bool) -> u64 {
    transfer_access(
        write && (e.write_pending || e.read_pending),
        (read && e.write_pending) || (write && (e.write_pending || e.read_pending)),
    )
}

/// Whether a buffer update appends a barrier: exactly when the source access
/// scope is non-empty.
pub open spec fn buffer_update_fires(e: BufferEntry, read: bool, write: bool) -> bool {
    buffer_src_access(e, read, write) != ACCESS_NONE
}

/// The entry after a buffer update: the pending flags accumulate the upcoming
/// access, the handle is untouched.
pub open spec fn buffer_entry_updated(e: BufferEntry, read: bool, write: bool) -> BufferEntry {
    BufferEntry {
        handle: e.handle,
        read_pending: e.read_pending || read,
        write_pending: e.write_pending || write,
    }
}

/// The barrier a buffer update appends when it fires: transfer stage on both
/// sides, the hazard's source scope, both transfer accesses as destination
/// scope, and the whole buffer as range.
pub open spec fn buffer_update_barrier(e: BufferEntry, read: bool, write: bool) -> BufferMemoryBarrier {
    BufferMemoryBarrier {
        src_stage_mask: STAGE_TRANSFER,
        src_access_mask: buffer_src_access(e, read, write),
        dst_stage_mask: STAGE_TRANSFER,
        dst_access_mask: ACCESS_TRANSFER_READ_WRITE,
        buffer: e.handle,
        offset: 0,
        size: WHOLE_SIZE,
    }
}

/// Whether preparing an image as a transfer source appends a barrier: the
/// image is not yet in the transfer-source layout, or a write is pending.
pub open spec fn image_read_fires(e: ImageEntry) -> bool {
    e.layout != LAYOUT_TRANSFER_SRC_OPTIMAL || e.write_pending
}

/// The entry after preparing an image as a transfer source. A fired
/// transition leaves the image in the transfer-source layout with only a read
/// pending; otherwise the entry is untouched.
pub open spec fn image_entry_after_read(e: ImageEntry) -> ImageEntry {
    if image_read_fires(e) {
        ImageEntry {
            handle: e.handle,
            aspect_mask: e.aspect_mask,
            layout: LAYOUT_TRANSFER_SRC_OPTIMAL,
            read_pending: true,
            write_pending: false,
        }
    } else {
        e
    }
}

/// The barrier a fired read preparation appends: it flushes pending writes
/// (a read hazards only against writes) and transitions the image from its
/// current layout to the transfer-source layout, over the whole resource.
pub open spec fn image_read_barrier(e: ImageEntry) -> ImageMemoryBarrier {
    ImageMemoryBarrier {
        src_stage_mask: STAGE_TRANSFER,
        src_access_mask: ACCESS_TRANSFER_WRITE,
        dst_stage_mask: STAGE_TRANSFER,
        dst_access_mask: ACCESS_TRANSFER_READ,
        old_layout: e.layout,
        new_layout: LAYOUT_TRANSFER_SRC_OPTIMAL,
        image: e.handle,
        subresource_range: spec_whole_image_range(e.aspect_mask),
    }
}

/// Whether preparing an image as a transfer destination appends a barrier:
/// the image is not yet in the transfer-destination layout, or any access is
/// pending.
pub open spec fn image_write_fires(e: ImageEntry) -> bool {
    e.layout != LAYOUT_TRANSFER_DST_OPTIMAL || e.read_pending || e.write_pending
}

/// The entry after preparing an image as a transfer destination. A fired
/// transition leaves the image in the transfer-destination layout with only a
/// write pending; otherwise the entry is untouched.
pub open spec fn image_entry_after_write(e: ImageEntry) -> ImageEntry {
    if image_write_fires(e) {
        ImageEntry {
            handle: e.handle,
            aspect_mask: e.aspect_mask,
            layout: LAYOUT_TRANSFER_DST_OPTIMAL,
            read_pending: false,
            write_pending: true,
        }
    } else {
        e
    }
}

/// The barrier a fired write preparation appends: it flushes every pending
/// access (a write hazards against reads and writes) and transitions the
/// image from its current layout to the transfer-destination layout, over the
/// whole resource.
pub open spec fn image_write_barrier(e: ImageEntry) -> ImageMemoryBarrier {
    ImageMemoryBarrier {
        src_stage_mask: STAGE_TRANSFER,
        src_access_mask: ACCESS_TRANSFER_READ_WRITE,
        dst_stage_mask: STAGE_TRANSFER,
        dst_access_mask: ACCESS_TRANSFER_WRITE,
        old_layout: e.layout,
        new_layout: LAYOUT_TRANSFER_DST_OPTIMAL,
        image: e.handle,
        subresource_range: spec_whole_image_range(e.aspect_mask),
    }
}

/// Registry of in-flight buffers on a transfer queue.
///
/// Viewed as a map from resource identity to [`BufferEntry`].
pub struct BufferStateTracker {
    buffers: HashMap<u64, BufferEntry>,
}

impl View for BufferStateTracker {
    type V = Map<u64, BufferEntry>;

    closed spec fn view(&self) -> Map<u64, BufferEntry> {
        self.buffers@
    }
}

impl BufferStateTracker {
    /// Creates an empty tracker.
    pub fn new() -> (tracker: Self)
        ensures
            tracker@ == Map::<u64, BufferEntry>::empty(),
    {
        Self { buffers: HashMap::new() }
    }

    /// Registers a buffer under `id` with no pending accesses. Fails, leaving
    /// the registry untouched, iff `id` is already registered. No barrier is
    /// ever emitted.
    pub fn register(&mut self, id: u64, handle: u64) -> (result: Result<(), ()>)
        ensures
            old(self)@.contains_key(id) ==> result is Err && final(self)@ == old(self)@,
            !old(self)@.contains_key(id) ==> result is Ok && final(self)@ == old(self)@.insert(
                id,
                fresh_buffer_entry(handle),
            ),
    {
        if self.buffers.contains_key(&id) {
            return Err(());
        }
        self.buffers.insert(id, BufferEntry { handle, read_pending: false, write_pending: false });
        Ok(())
    }

    /// Records an upcoming transfer access (`read`, `write`) on the buffer
    /// registered under `id`, appends the required barrier to `barriers` if
    /// one is needed, and returns the stored handle.
    ///
    /// Returns `None`, changing nothing, iff `id` is not registered.
    pub fn update_state(
        &mut self,
        id: u64,
        read: bool,
        write: bool,
        barriers: &mut Vec<BufferMemoryBarrier>,
    ) -> (result: Option<u64>)
        ensures
            !old(self)@.contains_key(id) ==> result is None && final(self)@ == old(self)@
                && final(barriers)@ == old(barriers)@,
            old(self)@.contains_key(id) ==> ({
                let e = old(self)@[id];
                &&& result == Some(e.handle)
                &&& final(self)@ == old(self)@.insert(id, buffer_entry_updated(e, read, write))
                &&& final(barriers)@ == if buffer_update_fires(e, read, write) {
                    old(barriers)@.push(buffer_update_barrier(e, read, write))
                } else {
                    old(barriers)@
                }
            }),
    {
        let e = match self.buffers.get(&id) {
            Some(e) => *e,
            None => {
                return None;
            },
        };
        let src_read = write && (e.write_pending || e.read_pending);
        let src_write = (read && e.write_pending) || (write && (e.write_pending || e.read_pending));
        let src_access_mask = transfer_access_mask(src_read, src_write);

        self.buffers.insert(
            id,
            BufferEntry {
                handle: e.handle,
                read_pending: e.read_pending || read,
                write_pending: e.write_pending || write,
            },
        );

        if src_access_mask != ACCESS_NONE {
            barriers.push(
                BufferMemoryBarrier {
                    src_stage_mask: STAGE_TRANSFER,
                    src_access_mask,
                    dst_stage_mask: STAGE_TRANSFER,
                    dst_access_mask: ACCESS_TRANSFER_READ_WRITE,
                    buffer: e.handle,
                    offset: 0,
                    size: WHOLE_SIZE,
                },
            );
        }
        Some(e.handle)
    }

    /// Removes the buffer registered under `id`, returning its handle and the
    /// residual access mask of the accesses still pending, so the caller can
    /// emit a final hand-off barrier.
    ///
    /// Returns `None`, changing nothing, iff `id` is not registered.
    pub fn release(&mut self, id: u64) -> (result: Option<(u64, u64)>)
        ensures
            !old(self)@.contains_key(id) ==> result is None && final(self)@ == old(self)@,
            old(self)@.contains_key(id) ==> ({
                let e = old(self)@[id];
                &&& result == Some((e.handle, residual_access(e.read_pending, e.write_pending)))
                &&& final(self)@ == old(self)@.remove(id)
            }),
    {
        match self.buffers.remove(&id) {
            Some(e) => {
                let access_mask = transfer_access_mask(e.read_pending, e.write_pending);
                Some((e.handle, access_mask))
            },
            None => None,
        }
    }
}

/// Registry of in-flight images on a transfer queue.
///
/// Viewed as a map from resource identity to [`ImageEntry`].
pub struct ImageStateTracker {
    images: HashMap<u64, ImageEntry>,
}

impl View for ImageStateTracker {
    type V = Map<u64, ImageEntry>;

    closed spec fn view(&self) -> Map<u64, ImageEntry> {
        self.images@
    }
}

impl ImageStateTracker {
    /// Creates an empty tracker.
    pub fn new() -> (tracker: Self)
        ensures
            tracker@ == Map::<u64, ImageEntry>::empty(),
    {
        Self { images: HashMap::new() }
    }

    /// Registers an image under `id` with no pending accesses, the given
    /// aspect mask and the layout the image currently is in. Fails, leaving
    /// the registry untouched, iff `id` is already registered. No barrier is
    /// ever emitted.
    pub fn register(&mut self, id: u64, handle: u64, aspect_mask: u32, layout: i32) -> (result:
        Result<(), ()>)
        ensures
            old(self)@.contains_key(id) ==> result is Err && final(self)@ == old(self)@,
            !old(self)@.contains_key(id) ==> result is Ok && final(self)@ == old(self)@.insert(
                id,
                fresh_image_entry(handle, aspect_mask, layout),
            ),
    {
        if self.images.contains_key(&id) {
            return Err(());
        }
        self.images.insert(
            id,
            ImageEntry { handle, aspect_mask, layout, read_pending: false, write_pending: false },
        );
        Ok(())
    }

    /// Prepares the image registered under `id` to serve as a transfer
    /// source: appends the layout transition and write flush to `barriers` if
    /// one is needed, updates the entry, and returns the stored handle.
    ///
    /// Returns `None`, changing nothing, iff `id` is not registered.
    pub fn update_state_read(&mut self, id: u64, barriers: &mut Vec<ImageMemoryBarrier>) -> (result:
        Option<u64>)
        ensures
            !old(self)@.contains_key(id) ==> result is None && final(self)@ == old(self)@
                && final(barriers)@ == old(barriers)@,
            old(self)@.contains_key(id) ==> ({
                let e = old(self)@[id];
                &&& result == Some(e.handle)
                &&& final(self)@ == old(self)@.insert(id, image_entry_after_read(e))
                &&& final(barriers)@ == if image_read_fires(e) {
                    old(barriers)@.push(image_read_barrier(e))
                } else {
                    old(barriers)@
                }
            }),
    {
        let e = match self.images.get(&id) {
            Some(e) => *e,
            None => {
                return None;
            },
        };
        if e.layout != LAYOUT_TRANSFER_SRC_OPTIMAL || e.write_pending {
            barriers.push(
                ImageMemoryBarrier {
                    src_stage_mask: STAGE_TRANSFER,
                    src_access_mask: ACCESS_TRANSFER_WRITE,
                    dst_stage_mask: STAGE_TRANSFER,
                    dst_access_mask: ACCESS_TRANSFER_READ,
                    old_layout: e.layout,
                    new_layout: LAYOUT_TRANSFER_SRC_OPTIMAL,
                    image: e.handle,
                    subresource_range: whole_image_range(e.aspect_mask),
                },
            );
            self.images.insert(
                id,
                ImageEntry {
                    handle: e.handle,
                    aspect_mask: e.aspect_mask,
                    layout: LAYOUT_TRANSFER_SRC_OPTIMAL,
                    read_pending: true,
                    write_pending: false,
                },
            );
        } else {
            self.images.insert(id, e);
        }
        Some(e.handle)
    }

    /// Prepares the image registered under `id` to serve as a transfer
    /// destination: appends the layout transition and full flush to
    /// `barriers` if one is needed, updates the entry, and returns the stored
    /// handle.
    ///
    /// Returns `None`, changing nothing, iff `id` is not registered.
    pub fn update_state_write(&mut self, id: u64, barriers: &mut Vec<ImageMemoryBarrier>) -> (result:
        Option<u64>)
        ensures
            !old(self)@.contains_key(id) ==> result is None && final(self)@ == old(self)@
                && final(barriers)@ == old(barriers)@,
            old(self)@.contains_key(id) ==> ({
                let e = old(self)@[id];
                &&& result == Some(e.handle)
                &&& final(self)@ == old(self)@.insert(id, image_entry_after_write(e))
                &&& final(barriers)@ == if image_write_fires(e) {
                    old(barriers)@.push(image_write_barrier(e))
                } else {
                    old(barriers)@
                }
            }),
    {
        let e = match self.images.get(&id) {
            Some(e) => *e,
            None => {
                return None;
            },
        };
        if e.layout != LAYOUT_TRANSFER_DST_OPTIMAL || e.read_pending || e.write_pending {
            barriers.push(
                ImageMemoryBarrier {
                    src_stage_mask: STAGE_TRANSFER,
                    src_access_mask: ACCESS_TRANSFER_READ_WRITE,
                    dst_stage_mask: STAGE_TRANSFER,
                    dst_access_mask: ACCESS_TRANSFER_WRITE,
                    old_layout: e.layout,
                    new_layout: LAYOUT_TRANSFER_DST_OPTIMAL,
                    image: e.handle,
                    subresource_range: whole_image_range(e.aspect_mask),
                },
            );
            self.images.insert(
                id,
                ImageEntry {
                    handle: e.handle,
                    aspect_mask: e.aspect_mask,
                    layout: LAYOUT_TRANSFER_DST_OPTIMAL,
                    read_pending: false,
                    write_pending: true,
                },
            );
        } else {
            self.images.insert(id, e);
        }
        Some(e.handle)
    }

    /// Removes the image registered under `id`, returning its handle, its
    /// aspect mask, the residual access mask of the accesses still pending,
    /// and the layout the image was left in.
    ///
    /// Returns `None`, changing nothing, iff `id` is not registered.
    pub fn release(&mut self, id: u64) -> (result: Option<(u64, u32, u64, i32)>)
        ensures
            !old(self)@.contains_key(id) ==> result is None && final(self)@ == old(self)@,
            old(self)@.contains_key(id) ==> ({
                let e = old(self)@[id];
                &&& result == Some(
                    (
                        e.handle,
                        e.aspect_mask,
                        residual_access(e.read_pending, e.write_pending),
                        e.layout,
                    ),
                )
                &&& final(self)@ == old(self)@.remove(id)
            }),
    {
        match self.images.remove(&id) {
            Some(e) => {
                let access_mask = transfer_access_mask(e.read_pending, e.write_pending);
                Some((e.handle, e.aspect_mask, access_mask, e.layout))
            },
            None => None,
        }
    }
}


/// Every barrier an update appends covers the handle supplied at
/// registration: the barrier's handle equals the entry's, and no update ever
/// changes the handle an entry stores.
pub proof fn lemma_barrier_covers_registered_handle(e: BufferEntry, ie: ImageEntry, read: bool, write: bool)
    ensures
        buffer_update_barrier(e, read, write).buffer == e.handle,
        buffer_entry_updated(e, read, write).handle == e.handle,
        image_read_barrier(ie).image == ie.handle,
        image_write_barrier(ie).image == ie.handle,
        image_entry_after_read(ie).handle == ie.handle,
        image_entry_after_write(ie).handle == ie.handle,
{
}

/// After an image update, the stored layout is the `new_layout` of the
/// barrier the update appended, or the previous layout if none was appended.
pub proof fn lemma_image_layout_tracks_barriers(e: ImageEntry)
    ensures
        image_read_fires(e) ==> image_entry_after_read(e).layout == image_read_barrier(e).new_layout,
        !image_read_fires(e) ==> image_entry_after_read(e).layout == e.layout,
        image_write_fires(e) ==> image_entry_after_write(e).layout == image_write_barrier(e).new_layout,
        !image_write_fires(e) ==> image_entry_after_write(e).layout == e.layout,
{
}

/// Image updates never leave both pending flags set: an entry with at most
/// one pending access keeps at most one through any update.
pub proof fn lemma_image_pending_at_most_one(e: ImageEntry)
    requires
        !(e.read_pending && e.write_pending),
    ensures
        !(image_entry_after_read(e).read_pending && image_entry_after_read(e).write_pending),
        !(image_entry_after_write(e).read_pending && image_entry_after_write(e).write_pending),
{
}

/// After an image update, exactly one pending flag is set, provided the entry
/// was not still in its silent registration state (registered in the
/// matching transfer layout and never updated, where the update leaves the
/// entry untouched with neither flag set).
pub proof fn lemma_image_pending_exactly_one(e: ImageEntry)
    requires
        e.read_pending || e.write_pending || e.layout != LAYOUT_TRANSFER_SRC_OPTIMAL,
        !(e.read_pending && e.write_pending),
    ensures
        image_entry_after_read(e).read_pending != image_entry_after_read(e).write_pending,
{
}

/// The write-direction counterpart of [`lemma_image_pending_exactly_one`].
pub proof fn lemma_image_pending_exactly_one_write(e: ImageEntry)
    requires
        e.read_pending || e.write_pending || e.layout != LAYOUT_TRANSFER_DST_OPTIMAL,
        !(e.read_pending && e.write_pending),
    ensures
        image_entry_after_write(e).write_pending && !image_entry_after_write(e).read_pending,
{
}

/// Releasing a resource immediately after registering it reports an empty
/// residual access mask, and an image additionally reports the layout it was
/// registered with.
pub proof fn lemma_release_after_register(handle: u64, aspect_mask: u32, layout: i32)
    ensures
        residual_access(
            fresh_buffer_entry(handle).read_pending,
            fresh_buffer_entry(handle).write_pending,
        ) == ACCESS_NONE,
        residual_access(
            fresh_image_entry(handle, aspect_mask, layout).read_pending,
            fresh_image_entry(handle, aspect_mask, layout).write_pending,
        ) == ACCESS_NONE,
        fresh_image_entry(handle, aspect_mask, layout).layout == layout,
{
}

/// Every barrier the trackers append has the transfer stage as both its
/// source and its destination stage.
pub proof fn lemma_barrier_stages_are_transfer(e: BufferEntry, ie: ImageEntry, read: bool, write: bool)
    ensures
        buffer_update_barrier(e, read, write).src_stage_mask == STAGE_TRANSFER,
        buffer_update_barrier(e, read, write).dst_stage_mask == STAGE_TRANSFER,
        image_read_barrier(ie).src_stage_mask == STAGE_TRANSFER,
        image_read_barrier(ie).dst_stage_mask == STAGE_TRANSFER,
        image_write_barrier(ie).src_stage_mask == STAGE_TRANSFER,
        image_write_barrier(ie).dst_stage_mask == STAGE_TRANSFER,
{
}

/// Read-only accesses on a buffer are idempotent: starting from a fresh
/// registration, two read-only updates fire no barrier, and a release then
/// reports exactly the transfer-read bit as residual access.
pub proof fn lemma_buffer_read_only_idempotent(handle: u64)
    ensures
        ({
            let e0 = fresh_buffer_entry(handle);
            let e1 = buffer_entry_updated(e0, true, false);
            let e2 = buffer_entry_updated(e1, true, false);
            &&& !buffer_update_fires(e0, true, false)
            &&& !buffer_update_fires(e1, true, false)
            &&& residual_access(e2.read_pending, e2.write_pending) == ACCESS_TRANSFER_READ
        }),
{
}

/// Consecutive reads of an image are idempotent after the first transition:
/// on an image registered in any layout other than the transfer-source
/// layout, the first read preparation fires a barrier and every following one
/// fires none.
pub proof fn lemma_image_consecutive_reads_fire_once(e: ImageEntry)
    requires
        !e.read_pending,
        !e.write_pending,
        e.layout != LAYOUT_TRANSFER_SRC_OPTIMAL,
    ensures
        image_read_fires(e),
        !image_read_fires(image_entry_after_read(e)),
{
}

} // verus!
