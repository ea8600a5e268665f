use stereo_demo::mesh::{
    demo_vbo, double_sided, triangle_vertices, vertex_attributes, AttrSlot, Vertex, SCALE,
};

fn vertex(px: i32, py: i32, pz: i32, r: i32, g: i32, b: i32) -> Vertex {
    Vertex {
        px,
        py,
        pz,
        r,
        g,
        b,
    }
}

#[test]
fn triangle_has_three_colored_corners() {
    let v = triangle_vertices();
    assert_eq!(v.len(), 3);
    assert_eq!(v[0], vertex(0, 500, 0, 1000, 0, 0));
    assert_eq!(v[1], vertex(-500, -500, 0, 0, 1000, 0));
    assert_eq!(v[2], vertex(500, -500, 0, 0, 0, 1000));
}

#[test]
fn triangle_corners_scale_to_unit_coordinates() {
    let v = triangle_vertices();
    assert_eq!(v[0].py * 2, SCALE);
    assert_eq!(v[1].px * 2, -SCALE);
    assert_eq!(v[2].px * 2, SCALE);
    assert_eq!(v[0].r, SCALE);
    assert_eq!(v[1].g, SCALE);
    assert_eq!(v[2].b, SCALE);
}

#[test]
fn double_sided_appends_reverse() {
    let v = triangle_vertices();
    let out = double_sided(&v);
    assert_eq!(out.len(), 6);
    assert_eq!(out[0], v[0]);
    assert_eq!(out[1], v[1]);
    assert_eq!(out[2], v[2]);
    assert_eq!(out[3], v[2]);
    assert_eq!(out[4], v[1]);
    assert_eq!(out[5], v[0]);
}

#[test]
fn double_sided_of_empty_is_empty() {
    let out = double_sided(&Vec::new());
    assert_eq!(out.len(), 0);
}

#[test]
fn double_sided_single_vertex() {
    let v = vec![vertex(1, 2, 3, 4, 5, 6)];
    let out = double_sided(&v);
    assert_eq!(out.len(), 2);
    assert_eq!(out[0], out[1]);
    assert_eq!(out[0], vertex(1, 2, 3, 4, 5, 6));
}

#[test]
fn attribute_layout_matches_vertex_shape() {
    let l = vertex_attributes();
    assert_eq!(l.len(), 2);
    assert_eq!(
        l[0],
        AttrSlot {
            register: 0,
            components: 3,
        }
    );
    assert_eq!(
        l[1],
        AttrSlot {
            register: 1,
            components: 3,
        }
    );
}

#[test]
fn demo_vbo_is_doubled_triangle() {
    let vbo = demo_vbo();
    let by_hand = double_sided(&triangle_vertices());
    assert_eq!(vbo.len(), 6);
    assert_eq!(vbo, by_hand);
}
