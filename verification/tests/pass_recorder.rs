use transfer_tracker::pass::DrawTask;
use transfer_tracker::pass::ImmediateMeshId;
use transfer_tracker::pass::PassId;
use transfer_tracker::pass::PassRecorder;

#[test]
fn pass_id_round_trips_its_raw_value() {
    let id = PassId::from_raw(77);
    assert_eq!(id.get_raw(), 77);
    assert_eq!(PassId::from_raw(77), id);
    assert_ne!(PassId::from_raw(78), id);
}

#[test]
fn immediate_mesh_id_round_trips_its_raw_value() {
    let id = ImmediateMeshId::form_raw(5);
    assert_eq!(id.get_raw(), 5);
    assert_eq!(ImmediateMeshId::form_raw(5), id);
}

#[test]
fn use_shader_reports_only_the_first_use() {
    let mut recorder = PassRecorder::new(PassId::from_raw(1));
    assert!(recorder.use_shader(10));
    assert!(!recorder.use_shader(10));
    assert!(recorder.use_shader(11));
    assert!(!recorder.use_shader(10));
    assert!(recorder.update_uniform(12));
    assert!(!recorder.update_uniform(12));
}

#[test]
fn update_texture_reports_first_use_of_shader_and_image() {
    let mut recorder = PassRecorder::new(PassId::from_raw(1));
    assert_eq!(recorder.update_texture(100, 10), (true, true));
    assert_eq!(recorder.update_texture(100, 10), (false, false));
    assert_eq!(recorder.update_texture(101, 10), (false, true));
    assert_eq!(recorder.update_texture(100, 11), (true, false));
}

#[test]
fn upload_immediate_counts_offsets_in_elements() {
    let mut recorder = PassRecorder::new(PassId::from_raw(1));
    // 96 bytes into vertices of 24 bytes -> vertex 4; 10 bytes into 2-byte
    // indices -> index 5.
    let id = recorder.upload_immediate(0xaa, 96, 24, 0xbb, 10, 2, 0, 30, 4);
    assert_eq!(id.get_raw(), 0);
    let (newly_used, task) = recorder.draw_immediate(id, 10, true);
    assert!(newly_used);
    assert_eq!(
        task,
        DrawTask {
            vertex_buffer: 0xaa,
            index_buffer: 0xbb,
            vertex_offset: 4,
            first_index: 5,
            index_type: 0,
            index_count: 30,
            shader: 10,
            primitive_topology: 4,
            depth_write_enable: true,
        }
    );
}

#[test]
fn upload_immediate_assigns_table_indices_in_order() {
    let mut recorder = PassRecorder::new(PassId::from_raw(1));
    let first = recorder.upload_immediate(1, 0, 16, 2, 0, 4, 0, 3, 4);
    let second = recorder.upload_immediate(3, 32, 16, 4, 8, 4, 0, 6, 4);
    assert_eq!(first.get_raw(), 0);
    assert_eq!(second.get_raw(), 1);
    let (_, task) = recorder.draw_immediate(second, 20, false);
    assert_eq!(task.vertex_offset, 2);
    assert_eq!(task.first_index, 2);
    assert_eq!(task.index_count, 6);
    assert!(!task.depth_write_enable);
}

#[test]
fn draw_global_shares_one_buffer_and_starts_at_vertex_zero() {
    let mut recorder = PassRecorder::new(PassId::from_raw(2));
    assert_eq!(recorder.get_id().get_raw(), 2);
    let (newly_used, task) = recorder.draw_global(0xcc, 12, 1, 18, 3, 40, true);
    assert!(newly_used);
    assert_eq!(
        task,
        DrawTask {
            vertex_buffer: 0xcc,
            index_buffer: 0xcc,
            vertex_offset: 0,
            first_index: 12,
            index_type: 1,
            index_count: 18,
            shader: 40,
            primitive_topology: 3,
            depth_write_enable: true,
        }
    );
    let (newly_used_again, _) = recorder.draw_global(0xcc, 0, 1, 3, 3, 40, false);
    assert!(!newly_used_again);
}
