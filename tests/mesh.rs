use game::mesh::{invert_triangle, quad, quad_index, triangle, TileInstance, TriangleMesh, UNITS};
use game::tiles::TileMap;

#[test]
fn invert_flips_y_and_swaps_first_and_last() {
    let t = triangle();
    let inv = invert_triangle(t);
    assert_eq!(inv[0].position, (0, -750));
    assert_eq!(inv[1].position, (750, 750));
    assert_eq!(inv[2].position, (-750, 750));
    assert_eq!(inv[0].color, t[2].color);
    assert_eq!(inv[2].color, t[0].color);
}

#[test]
fn inverting_twice_restores_the_triangle() {
    let t = triangle();
    let back = invert_triangle(invert_triangle(t));
    for i in 0..3 {
        assert_eq!(back[i].position, t[i].position);
        assert_eq!(back[i].color, t[i].color);
        assert_eq!(back[i].tex_coord, t[i].tex_coord);
    }
}

#[test]
fn mesh_flag_follows_inversions() {
    let mut m = TriangleMesh::new();
    assert!(!m.is_inverted());
    m.invert();
    assert!(m.is_inverted());
    assert_eq!(m.vertices()[0].position, (0, -750));
    m.invert();
    assert!(!m.is_inverted());
    assert_eq!(m.vertices()[0].position, (-750, -750));
}

#[test]
fn match_inversion_only_changes_when_needed() {
    let mut m = TriangleMesh::new();
    assert!(!m.match_inversion(false));
    assert!(!m.is_inverted());
    assert!(m.match_inversion(true));
    assert!(m.is_inverted());
    assert!(!m.match_inversion(true));
    assert!(m.match_inversion(false));
    assert_eq!(m.vertices()[2].position, (0, 750));
}

#[test]
fn quad_corners_and_indices() {
    let q = quad();
    assert_eq!(q[0].position, (-UNITS / 2, UNITS / 2));
    assert_eq!(q[2].tex_coord, (UNITS, UNITS));
    assert_eq!(quad_index(), [0, 1, 2, 3, 2, 0]);
}

#[test]
fn instances_follow_the_map() {
    let map = TileMap::new(3, 3).unwrap();
    let inst = TileInstance::from_tile_map(&map);
    assert_eq!(inst.len(), 9);
    assert_eq!(inst[0].position, (0, 0));
    assert_eq!(inst[0].texture_index, 1);
    assert_eq!(inst[4].position, (1, 1));
    assert_eq!(inst[4].texture_index, 0);
    assert_eq!(inst[5].position, (2, 1));
    assert_eq!(inst[5].texture_index, 1);
}
