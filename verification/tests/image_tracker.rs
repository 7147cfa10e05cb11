use transfer_tracker::barrier::ACCESS_NONE;
use transfer_tracker::barrier::ACCESS_TRANSFER_READ;
use transfer_tracker::barrier::ACCESS_TRANSFER_READ_WRITE;
use transfer_tracker::barrier::ACCESS_TRANSFER_WRITE;
use transfer_tracker::barrier::ImageMemoryBarrier;
use transfer_tracker::barrier::LAYOUT_TRANSFER_DST_OPTIMAL;
use transfer_tracker::barrier::LAYOUT_TRANSFER_SRC_OPTIMAL;
use transfer_tracker::barrier::LAYOUT_UNDEFINED;
use transfer_tracker::barrier::REMAINING_ARRAY_LAYERS;
use transfer_tracker::barrier::REMAINING_MIP_LEVELS;
use transfer_tracker::barrier::STAGE_TRANSFER;
use transfer_tracker::resource_state::ImageStateTracker;

const ID: u64 = 7;
const HANDLE: u64 = 0x1316;
/// The color aspect bit.
const COLOR: u32 = 1;

#[test]
fn image_first_write_transitions_from_undefined() {
    let mut tracker = ImageStateTracker::new();
    let mut sink: Vec<ImageMemoryBarrier> = Vec::new();

    assert_eq!(tracker.register(ID, HANDLE, COLOR, LAYOUT_UNDEFINED), Ok(()));
    assert_eq!(tracker.update_state_write(ID, &mut sink), Some(HANDLE));
    assert_eq!(sink.len(), 1);
    let barrier = sink[0];
    assert_eq!(barrier.src_stage_mask, STAGE_TRANSFER);
    assert_eq!(barrier.dst_stage_mask, STAGE_TRANSFER);
    assert_eq!(barrier.src_access_mask, ACCESS_TRANSFER_READ_WRITE);
    assert_eq!(barrier.dst_access_mask, ACCESS_TRANSFER_WRITE);
    assert_eq!(barrier.old_layout, LAYOUT_UNDEFINED);
    assert_eq!(barrier.new_layout, LAYOUT_TRANSFER_DST_OPTIMAL);
    assert_eq!(barrier.image, HANDLE);
    assert_eq!(barrier.subresource_range.aspect_mask, COLOR);
    assert_eq!(barrier.subresource_range.base_mip_level, 0);
    assert_eq!(barrier.subresource_range.level_count, REMAINING_MIP_LEVELS);
    assert_eq!(barrier.subresource_range.base_array_layer, 0);
    assert_eq!(barrier.subresource_range.layer_count, REMAINING_ARRAY_LAYERS);
    assert_eq!(
        tracker.release(ID),
        Some((HANDLE, COLOR, ACCESS_TRANSFER_WRITE, LAYOUT_TRANSFER_DST_OPTIMAL))
    );
}

#[test]
fn image_write_then_read_transitions_to_source() {
    let mut tracker = ImageStateTracker::new();
    let mut sink: Vec<ImageMemoryBarrier> = Vec::new();

    assert_eq!(tracker.register(ID, HANDLE, COLOR, LAYOUT_UNDEFINED), Ok(()));
    assert_eq!(tracker.update_state_write(ID, &mut sink), Some(HANDLE));
    assert_eq!(tracker.update_state_read(ID, &mut sink), Some(HANDLE));
    assert_eq!(sink.len(), 2);
    let barrier = sink[1];
    assert_eq!(barrier.old_layout, LAYOUT_TRANSFER_DST_OPTIMAL);
    assert_eq!(barrier.new_layout, LAYOUT_TRANSFER_SRC_OPTIMAL);
    assert_eq!(barrier.src_access_mask, ACCESS_TRANSFER_WRITE);
    assert_eq!(barrier.dst_access_mask, ACCESS_TRANSFER_READ);
    assert_eq!(
        tracker.release(ID),
        Some((HANDLE, COLOR, ACCESS_TRANSFER_READ, LAYOUT_TRANSFER_SRC_OPTIMAL))
    );
}

#[test]
fn image_redundant_read_emits_nothing_and_keeps_flags_clear() {
    let mut tracker = ImageStateTracker::new();
    let mut sink: Vec<ImageMemoryBarrier> = Vec::new();

    assert_eq!(
        tracker.register(ID, HANDLE, COLOR, LAYOUT_TRANSFER_SRC_OPTIMAL),
        Ok(())
    );
    assert_eq!(tracker.update_state_read(ID, &mut sink), Some(HANDLE));
    assert_eq!(tracker.update_state_read(ID, &mut sink), Some(HANDLE));
    assert_eq!(sink.len(), 0);
    // The guard short-circuits before read_pending would be set, so the
    // residual mask stays empty.
    assert_eq!(
        tracker.release(ID),
        Some((HANDLE, COLOR, ACCESS_NONE, LAYOUT_TRANSFER_SRC_OPTIMAL))
    );
}

#[test]
fn image_consecutive_reads_fire_only_the_first_barrier() {
    let mut tracker = ImageStateTracker::new();
    let mut sink: Vec<ImageMemoryBarrier> = Vec::new();

    assert_eq!(tracker.register(ID, HANDLE, COLOR, LAYOUT_UNDEFINED), Ok(()));
    assert_eq!(tracker.update_state_read(ID, &mut sink), Some(HANDLE));
    assert_eq!(sink.len(), 1);
    assert_eq!(tracker.update_state_read(ID, &mut sink), Some(HANDLE));
    assert_eq!(sink.len(), 1, "the second read needs no further barrier");
    assert_eq!(
        tracker.release(ID),
        Some((HANDLE, COLOR, ACCESS_TRANSFER_READ, LAYOUT_TRANSFER_SRC_OPTIMAL))
    );
}

#[test]
fn image_release_right_after_register_reports_initial_layout() {
    let mut tracker = ImageStateTracker::new();
    let initial_layout: i32 = 3;

    assert_eq!(tracker.register(ID, HANDLE, COLOR, initial_layout), Ok(()));
    assert_eq!(
        tracker.release(ID),
        Some((HANDLE, COLOR, ACCESS_NONE, initial_layout))
    );
    assert_eq!(tracker.release(ID), None);
}

#[test]
fn image_duplicate_register_fails_and_keeps_the_entry() {
    let mut tracker = ImageStateTracker::new();

    assert_eq!(tracker.register(ID, HANDLE, COLOR, LAYOUT_UNDEFINED), Ok(()));
    assert_eq!(tracker.register(ID, 0xdead, 2, LAYOUT_TRANSFER_SRC_OPTIMAL), Err(()));
    assert_eq!(
        tracker.release(ID),
        Some((HANDLE, COLOR, ACCESS_NONE, LAYOUT_UNDEFINED))
    );
}

#[test]
fn image_unknown_id_returns_none_and_appends_nothing() {
    let mut tracker = ImageStateTracker::new();
    let mut sink: Vec<ImageMemoryBarrier> = Vec::new();

    assert_eq!(tracker.update_state_read(ID, &mut sink), None);
    assert_eq!(tracker.update_state_write(ID, &mut sink), None);
    assert_eq!(sink.len(), 0);
    assert_eq!(tracker.release(ID), None);
}

#[test]
fn image_write_after_write_fires_again() {
    let mut tracker = ImageStateTracker::new();
    let mut sink: Vec<ImageMemoryBarrier> = Vec::new();

    assert_eq!(tracker.register(ID, HANDLE, COLOR, LAYOUT_UNDEFINED), Ok(()));
    assert_eq!(tracker.update_state_write(ID, &mut sink), Some(HANDLE));
    assert_eq!(sink.len(), 1);
    assert_eq!(tracker.update_state_write(ID, &mut sink), Some(HANDLE));
    assert_eq!(sink.len(), 2, "the pending write must be flushed again");
    assert_eq!(sink[1].old_layout, LAYOUT_TRANSFER_DST_OPTIMAL);
    assert_eq!(sink[1].new_layout, LAYOUT_TRANSFER_DST_OPTIMAL);
    assert_eq!(sink[1].src_access_mask, ACCESS_TRANSFER_READ_WRITE);
    assert_eq!(sink[1].dst_access_mask, ACCESS_TRANSFER_WRITE);
    assert_eq!(
        tracker.release(ID),
        Some((HANDLE, COLOR, ACCESS_TRANSFER_WRITE, LAYOUT_TRANSFER_DST_OPTIMAL))
    );
}

#[test]
fn image_write_in_destination_layout_with_nothing_pending_is_silent() {
    let mut tracker = ImageStateTracker::new();
    let mut sink: Vec<ImageMemoryBarrier> = Vec::new();

    assert_eq!(tracker.register(ID, HANDLE, COLOR, LAYOUT_TRANSFER_DST_OPTIMAL), Ok(()));
    assert_eq!(tracker.update_state_write(ID, &mut sink), Some(HANDLE));
    assert_eq!(sink.len(), 0, "already in destination layout with nothing pending");
    assert_eq!(
        tracker.release(ID),
        Some((HANDLE, COLOR, ACCESS_NONE, LAYOUT_TRANSFER_DST_OPTIMAL))
    );
}

#[test]
fn image_layout_constants_use_the_api_encoding() {
    assert_eq!(LAYOUT_UNDEFINED, 0);
    assert_eq!(LAYOUT_TRANSFER_SRC_OPTIMAL, 6);
    assert_eq!(LAYOUT_TRANSFER_DST_OPTIMAL, 7);
    assert_eq!(REMAINING_MIP_LEVELS, u32::MAX);
    assert_eq!(REMAINING_ARRAY_LAYERS, u32::MAX);
}
