use lab1::geometry::{shape_a, shape_b, Vertex};

fn winding(a: &Vertex, b: &Vertex, c: &Vertex) -> i64 {
    let (ax, ay) = (a.x as i64, a.y as i64);
    let (bx, by) = (b.x as i64, b.y as i64);
    let (cx, cy) = (c.x as i64, c.y as i64);
    (bx - ax) * (cy - ay) - (by - ay) * (cx - ax)
}

#[test]
fn shape_a_has_six_list_triangles() {
    let a = shape_a();
    assert_eq!(a.len(), 18);
    assert_eq!(a.len() / 3, 6);
}

#[test]
fn shape_a_first_vertices_exact() {
    let a = shape_a();
    assert_eq!(a[0], Vertex { x: -45, y: 0, r: 100, g: 100, b: 100 });
    assert_eq!(a[1], Vertex { x: -45, y: 42, r: 100, g: 20, b: 20 });
    assert_eq!(a[2], Vertex { x: -81, y: 21, r: 100, g: 50, b: 0 });
    assert_eq!(a[17], Vertex { x: -45, y: 42, r: 100, g: 20, b: 20 });
}

#[test]
fn shape_a_is_closed_fan() {
    let a = shape_a();
    let centre = Vertex { x: -45, y: 0, r: 100, g: 100, b: 100 };
    for k in 0..6 {
        assert_eq!(a[3 * k], centre);
        assert_eq!(a[3 * k + 2], a[3 * ((k + 1) % 6) + 1]);
        assert!(winding(&a[3 * k], &a[3 * k + 1], &a[3 * k + 2]) > 0);
    }
}

#[test]
fn shape_a_first_triangle_winding_value() {
    let a = shape_a();
    assert_eq!(winding(&a[0], &a[1], &a[2]), 1512);
}

#[test]
fn shape_b_strip_winding_alternates() {
    let b = shape_b();
    assert_eq!(b.len(), 6);
    assert_eq!(b.len() - 2, 4);
    let w: Vec<i64> = (0..4).map(|k| winding(&b[k], &b[k + 1], &b[k + 2])).collect();
    assert_eq!(w, vec![2600, -2600, 2275, -2275]);
}

#[test]
fn shape_b_exact_vertices() {
    let b = shape_b();
    assert_eq!(b[0], Vertex { x: 15, y: 55, r: 20, g: 90, b: 100 });
    assert_eq!(b[5], Vertex { x: 90, y: -55, r: 90, g: 10, b: 50 });
}

#[test]
fn shapes_on_screen_and_in_their_halves() {
    let ok = |v: &Vertex| {
        (-100..=100).contains(&v.x)
            && (-100..=100).contains(&v.y)
            && (0..=100).contains(&v.r)
            && (0..=100).contains(&v.g)
            && (0..=100).contains(&v.b)
    };
    assert!(shape_a().iter().all(|v| ok(v) && v.x < 0));
    assert!(shape_b().iter().all(|v| ok(v) && v.x > 0));
}

#[test]
fn hundredths_give_the_float_table() {
    let pos = |v: &Vertex| [v.x as f32 / 100.0, v.y as f32 / 100.0];
    let col = |v: &Vertex| [v.r as f32 / 100.0, v.g as f32 / 100.0, v.b as f32 / 100.0];
    let a = shape_a();
    assert_eq!(pos(&a[2]), [-0.81f32, 0.21]);
    assert_eq!(col(&a[5]), [0.9f32, 0.9, 0.0]);
    assert_eq!(pos(&a[11]), [-0.09f32, -0.21]);
    assert_eq!(col(&a[14]), [0.5f32, 0.0, 1.0]);
    let b = shape_b();
    assert_eq!(pos(&b[0]), [0.15f32, 0.55]);
    assert_eq!(col(&b[1]), [0.0f32, 0.4, 0.9]);
    assert_eq!(pos(&b[3]), [0.55f32, -0.55]);
    assert_eq!(col(&b[4]), [1.0f32, 0.5, 0.8]);
}
