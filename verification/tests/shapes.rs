use marmalade::render::batch::TextureId;
use marmalade::render::shapes::{rect, regular, text, MAX_MESH_VERTICES, MAX_SIDES};

#[test]
fn rect_geometry_has_the_corners_in_order() {
    let g = rect([1, 2], [3, 4], [5, 6, 7, 8], TextureId(1), [10, 20], [30, 40]);
    assert_eq!(g.indexes, vec![0, 1, 2, 1, 2, 3]);
    assert_eq!(g.positions, vec![1, 2, 3, 2, 1, 4, 3, 4]);
    assert_eq!(g.texcoords, vec![10, 40, 30, 40, 10, 20, 30, 20]);
    assert_eq!(g.colors, vec![5, 6, 7, 8, 5, 6, 7, 8, 5, 6, 7, 8, 5, 6, 7, 8]);
    assert_eq!(g.texture, TextureId(1));
}

#[test]
fn hexagon_geometry_is_six_triangles_around_the_center() {
    let rim = [[2, 0], [1, 2], [-1, 2], [-2, 0], [-1, -2], [1, -2]];
    let g = regular([0, 0], &rim, [9, 9, 9, 9], TextureId(2), [5, 5], &rim).unwrap();
    assert_eq!(g.indexes, vec![0, 1, 2, 0, 2, 3, 0, 3, 4, 0, 4, 5, 0, 5, 6, 0, 6, 1]);
    assert_eq!(g.positions, vec![0, 0, 2, 0, 1, 2, -1, 2, -2, 0, -1, -2, 1, -2]);
    assert_eq!(g.texcoords, vec![5, 5, 2, 0, 1, 2, -1, 2, -2, 0, -1, -2, 1, -2]);
    assert_eq!(g.colors, vec![9; 28]);
}

#[test]
fn polygon_geometry_stops_at_the_index_limit() {
    assert_eq!(MAX_SIDES, 65535);
    let rim = vec![[0u8, 0u8]; MAX_SIDES];
    assert!(regular([0, 0], &rim, [0; 4], TextureId(2), [0, 0], &rim).is_none());
    let g = regular([0, 0], &rim[1..], [0; 4], TextureId(2), [0, 0], &rim[1..]).unwrap();
    assert_eq!(g.indexes.len(), 3 * 65534);
    assert_eq!(g.indexes[3 * 65533..], [0, 65534, 1]);
    assert_eq!(g.indexes.iter().max(), Some(&65534));
}

#[test]
fn text_geometry_numbers_its_vertices_in_order() {
    let g = text(&[1, 2, 3, 4, 5, 6], [7, 8, 9, 10], TextureId(3), &[11, 12, 13, 14, 15, 16])
        .unwrap();
    assert_eq!(g.indexes, vec![0, 1, 2]);
    assert_eq!(g.positions, vec![1, 2, 3, 4, 5, 6]);
    assert_eq!(g.texcoords, vec![11, 12, 13, 14, 15, 16]);
    assert_eq!(g.colors, vec![7, 8, 9, 10, 7, 8, 9, 10, 7, 8, 9, 10]);
}

#[test]
fn text_geometry_stops_at_the_index_limit() {
    assert_eq!(MAX_MESH_VERTICES, 65536);
    let scalars = vec![0u8; 2 * MAX_MESH_VERTICES];
    assert!(text(&scalars, [0; 4], TextureId(3), &scalars).is_none());
    let g = text(&scalars[2..], [0; 4], TextureId(3), &scalars[2..]).unwrap();
    assert_eq!(g.indexes.len(), 65535);
    assert_eq!(g.indexes[65534], 65534);
}
