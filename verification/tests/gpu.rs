use sculpt_app::gpu_vertex::{
    cold_words, hot_words, octahedral_word, pack_cold_stream, pack_hot_stream, COLD_BYTES, HOT_BYTES,
};
use sculpt_app::partitions::{plan_partitions, ObjectState, PartitionStep};
use sculpt_app::renderer::{grow_buffer, grow_slots, plan_sparse, prune, BufferCaps, Shading, SparsePlan};

/// The packing is what the vertex layout in the renderer promises, so the
/// sizes are pinned here: well under the engine's twelve floats.
#[test]
fn a_vertex_costs_twenty_four_bytes() {
    assert_eq!(HOT_BYTES + COLD_BYTES, 24);
    assert!(HOT_BYTES + COLD_BYTES < 12 * std::mem::size_of::<f32>());
}

#[test]
fn colour_and_material_land_in_the_right_bytes() {
    // Red, no green or blue, fully masked, smooth and metallic, as bytes.
    let c = cold_words(255, 0, 0, 255, 0, 255);
    assert_eq!(c[0] & 0xff, 255, "red");
    assert_eq!((c[0] >> 8) & 0xff, 0, "green");
    assert_eq!((c[0] >> 16) & 0xff, 0, "blue");
    assert_eq!((c[0] >> 24) & 0xff, 255, "mask");
    assert_eq!(c[1] & 0xff, 0, "roughness");
    assert_eq!((c[1] >> 8) & 0xff, 255, "metalness");
}

#[test]
fn streams_pack_vertex_by_vertex() {
    assert_eq!(octahedral_word(0x1234, 0xabcd), 0xabcd_1234);
    assert_eq!(hot_words([1, 2, 3], 4), [1, 2, 3, 4]);
    let hot = pack_hot_stream(&vec![[1, 2, 3], [5, 6, 7]], &vec![4, 8]);
    assert_eq!(hot, vec![1, 2, 3, 4, 5, 6, 7, 8]);
    let cold = pack_cold_stream(&vec![[1, 2, 3, 4, 5, 6], [255, 0, 0, 0, 0, 0]]);
    assert_eq!(cold, vec![0x0403_0201, 0x0605, 0xff, 0]);
}

#[test]
fn slot_lists_are_pruned_sorted_and_unique() {
    let mut slots = vec![9, 3, 3, 12, 0, 9, 5];
    prune(&mut slots, 10);
    assert_eq!(slots, vec![0, 3, 5, 9]);
    let mut none: Vec<u32> = vec![];
    prune(&mut none, 10);
    assert!(none.is_empty());
}

#[test]
fn buffers_grow_by_half_again_to_a_power_of_two() {
    assert_eq!(grow_buffer(4096, 1000), 4096);
    assert_eq!(grow_buffer(1000, 1000), 1000);
    assert_eq!(grow_buffer(1000, 1001), 2048);
    assert_eq!(grow_buffer(0, 1), 1);
    assert_eq!(grow_slots(64, 10), 64);
    assert_eq!(grow_slots(64, 65), 128);
    assert_eq!(grow_slots(0, 1), 1);
}

#[test]
fn a_small_stroke_is_scattered_and_a_broad_one_sent_whole() {
    let caps = BufferCaps { hot: 1600, cold: 800, index: 1200 };
    let mut verts = vec![4, 1, 4, 200];
    let mut faces = vec![7];
    let plan = plan_sparse(100, 100, caps, &mut verts, &mut faces);
    assert_eq!(verts, vec![1, 4]);
    assert_eq!(faces, vec![7]);
    assert_eq!(plan, SparsePlan::Scatter { bytes: 2 * 32 + 16 });
    let mut verts: Vec<u32> = (0..30).collect();
    let mut faces = vec![];
    assert_eq!(plan_sparse(100, 100, caps, &mut verts, &mut faces), SparsePlan::Whole);
    let mut verts = vec![1];
    let mut faces = vec![1];
    assert_eq!(plan_sparse(101, 100, caps, &mut verts, &mut faces), SparsePlan::Whole);
    assert_eq!(verts, vec![1]);
    assert_eq!(plan_sparse(0, 0, caps, &mut verts, &mut faces), SparsePlan::Nothing);
}

#[test]
fn shading_modes_carry_the_shader_codes() {
    let codes: Vec<u8> = Shading::ALL.iter().map(|s| s.code()).collect();
    assert_eq!(codes, vec![0, 1, 5, 2, 3, 4]);
    assert!(Shading::Unlit.forces_vertex_color());
    assert!(!Shading::Matcap.forces_vertex_color());
}

#[test]
fn a_reorder_is_not_read_back_as_news() {
    let objects = vec![
        ObjectState { has_faces: true, partition_empty: false },
        ObjectState { has_faces: false, partition_empty: false },
        ObjectState { has_faces: true, partition_empty: true },
    ];
    let (steps, reordered) = plan_partitions(&objects, 0, false, true, false);
    assert_eq!(steps, vec![PartitionStep::Rebuild, PartitionStep::Clear, PartitionStep::Rebuild]);
    assert!(reordered);
    let objects = vec![
        ObjectState { has_faces: true, partition_empty: false },
        ObjectState { has_faces: true, partition_empty: false },
    ];
    let (steps, reordered) = plan_partitions(&objects, 0, true, true, true);
    assert_eq!(steps, vec![PartitionStep::Follow, PartitionStep::Keep]);
    assert!(!reordered);
}
