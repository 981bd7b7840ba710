use quad_engine::vertex::{square_vertices, vertex_layout, ModelVertex};

fn cross_z(a: ModelVertex, b: ModelVertex, c: ModelVertex) -> i64 {
    let abx = (b.x - a.x) as i64;
    let aby = (b.y - a.y) as i64;
    let acx = (c.x - a.x) as i64;
    let acy = (c.y - a.y) as i64;
    abx * acy - aby * acx
}

#[test]
fn six_vertices_in_draw_order() {
    let v = square_vertices();
    assert_eq!(v.len(), 6);
    let expected = vec![
        (-1, 1, 1, 0, 0),
        (-1, -1, 1, 0, 1),
        (1, 1, 1, 1, 0),
        (1, 1, 1, 1, 0),
        (-1, -1, 1, 0, 1),
        (1, -1, 1, 1, 1),
    ];
    for (m, e) in v.iter().zip(expected.iter()) {
        assert_eq!((m.x, m.y, m.z, m.u, m.v), *e);
    }
}

#[test]
fn both_triangles_counter_clockwise() {
    let v = square_vertices();
    assert!(cross_z(v[0], v[1], v[2]) > 0);
    assert!(cross_z(v[3], v[4], v[5]) > 0);
}

#[test]
fn vertices_cover_the_unit_square() {
    let v = square_vertices();
    for m in &v {
        assert!(m.x == -1 || m.x == 1);
        assert!(m.y == -1 || m.y == 1);
        assert_eq!(m.z, 1);
    }
    for corner in [(-1, -1), (-1, 1), (1, -1), (1, 1)] {
        assert!(v.iter().any(|m| (m.x, m.y) == corner));
    }
}

#[test]
fn tex_coords_follow_positions() {
    let v = square_vertices();
    for m in &v {
        assert_eq!(2 * m.u, m.x + 1);
        assert_eq!(2 * m.v, 1 - m.y);
    }
}

#[test]
fn vertex_layout_is_packed() {
    let l = vertex_layout();
    assert_eq!(l.array_stride, 20);
    assert_eq!(l.position_offset, 0);
    assert_eq!(l.position_components, 3);
    assert_eq!(l.tex_coord_offset, 12);
    assert_eq!(l.tex_coord_components, 2);
}
