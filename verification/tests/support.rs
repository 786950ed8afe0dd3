use batchkit::pad_uniform_size;
use batchkit::IdSource;
use batchkit::Mesh;
use batchkit::VertexAttribute;

#[test]
fn padding_rounds_up_to_the_alignment() {
    assert_eq!(pad_uniform_size(96, 256), 256);
    assert_eq!(pad_uniform_size(256, 256), 256);
    assert_eq!(pad_uniform_size(257, 256), 512);
    assert_eq!(pad_uniform_size(1, 16), 16);
    assert_eq!(pad_uniform_size(0, 64), 0);
}

#[test]
fn padding_without_alignment_is_identity() {
    assert_eq!(pad_uniform_size(100, 0), 100);
    assert_eq!(pad_uniform_size(0, 0), 0);
}

#[test]
fn id_source_counts_up_from_zero() {
    let mut ids = IdSource::new();
    assert_eq!(ids.fresh(), 0);
    assert_eq!(ids.fresh(), 1);
    assert_eq!(ids.fresh(), 2);
    assert!(ids.has_fresh());
}

#[test]
fn mesh_growth_is_conservative() {
    let mut mesh = Mesh::new(4, 6);
    assert_eq!(mesh.vertex_capacity, 4);
    assert_eq!(mesh.index_capacity, 6);

    // Shrinking data keeps the buffers.
    assert!(!mesh.set_vertices(2));
    assert_eq!(mesh.vertex_count, 2);
    assert_eq!(mesh.vertex_capacity, 4);

    // Growing past the capacity reallocates to the exact count.
    assert!(mesh.set_vertices(10));
    assert_eq!(mesh.vertex_capacity, 10);

    // The index side is untouched by vertex updates.
    assert_eq!(mesh.index_count, 6);
    assert!(!mesh.set_indices(6));
    assert!(mesh.set_indices(12));
    assert_eq!(mesh.index_capacity, 12);
    assert_eq!(mesh.vertex_capacity, 10);
}

#[test]
fn vertex_attributes_report_their_offset() {
    assert_eq!(VertexAttribute::Vec2 { offset: 0 }.offset(), 0);
    assert_eq!(VertexAttribute::Vec2 { offset: 8 }.offset(), 8);
    assert_eq!(VertexAttribute::Float { offset: 16 }.offset(), 16);
    assert_eq!(VertexAttribute::Vec3 { offset: 4 }.offset(), 4);
    assert_eq!(VertexAttribute::Vec4 { offset: 32 }.offset(), 32);
}
