use vstd::prelude::*;

verus! {

/// One vertex of the scene, in hundredths: the position `(x, y)` in normalised
/// device coordinates (100 stands for 1.0) and the colour `(r, g, b)`
/// (100 stands for full intensity).
#[derive(Clone, Copy, Debug, PartialEq, Eq, Structural)]
pub struct Vertex {
    pub x: i32,
    pub y: i32,
    pub r: i32,
    pub g: i32,
    pub b: i32,
}

/// The vertex at `(x, y)` with colour `(r, g, b)`, all in hundredths.
pub open spec fn vtx(x: i32, y: i32, r: i32, g: i32, b: i32) -> Vertex {
    Vertex { x, y, r, g, b }
}

fn vertex(x: i32, y: i32, r: i32, g: i32, b: i32) -> (v: Vertex)
    ensures
        v == vtx(x, y, r, g, b),
{
    Vertex { x, y, r, g, b }
}

/// Shape A: a hexagonal colour fan around the white centre (-0.45, 0),
/// six independent triangles of three vertices each.
pub open spec fn shape_a_spec() -> Seq<Vertex> {
    let c = vtx(-45i32, 0, 100, 100, 100);
    let red = vtx(-45i32, 42, 100, 20, 20);
    let orange = vtx(-81i32, 21, 100, 50, 0);
    let yellow = vtx(-81i32, -21i32, 90, 90, 0);
    let green = vtx(-45i32, -42i32, 10, 90, 20);
    let cyan = vtx(-9i32, -21i32, 0, 70, 90);
    let violet = vtx(-9i32, 21, 50, 0, 100);
    seq![
        c, red, orange,
        c, orange, yellow,
        c, yellow, green,
        c, green, cyan,
        c, cyan, violet,
        c, violet, red,
    ]
}

/// The vertices of shape A, exactly `shape_a_spec()`.
pub fn shape_a() -> (s: Vec<Vertex>)
    ensures
        s@ == shape_a_spec(),
{
    let c = vertex(-45, 0, 100, 100, 100);
    let red = vertex(-45, 42, 100, 20, 20);
    let orange = vertex(-81, 21, 100, 50, 0);
    let yellow = vertex(-81, -21, 90, 90, 0);
    let green = vertex(-45, -42, 10, 90, 20);
    let cyan = vertex(-9, -21, 0, 70, 90);
    let violet = vertex(-9, 21, 50, 0, 100);
    let mut s: Vec<Vertex> = Vec::new();
    s.push(c); s.push(red); s.push(orange);
    s.push(c); s.push(orange); s.push(yellow);
    s.push(c); s.push(yellow); s.push(green);
    s.push(c); s.push(green); s.push(cyan);
    s.push(c); s.push(cyan); s.push(violet);
    s.push(c); s.push(violet); s.push(red);
    assert(s@ =~= shape_a_spec());
    s
}

/// Shape B: a diagonal colour band over the right half of the screen,
/// drawn as a strip of six vertices.
pub open spec fn shape_b_spec() -> Seq<Vertex> {
    seq![
        vtx(15, 55, 20, 90, 100),
        vtx(15, -10i32, 0, 40, 90),
        vtx(55, 10, 70, 20, 100),
        vtx(55, -55i32, 40, 0, 80),
        vtx(90, 10, 100, 50, 80),
        vtx(90, -55i32, 90, 10, 50),
    ]
}

/// The vertices of shape B, exactly `shape_b_spec()`.
pub fn shape_b() -> (s: Vec<Vertex>)
    ensures
        s@ == shape_b_spec(),
{
    let mut s: Vec<Vertex> = Vec::new();
    s.push(vertex(15, 55, 20, 90, 100));
    s.push(vertex(15, -10, 0, 40, 90));
    s.push(vertex(55, 10, 70, 20, 100));
    s.push(vertex(55, -55, 40, 0, 80));
    s.push(vertex(90, 10, 100, 50, 80));
    s.push(vertex(90, -55, 90, 10, 50));
    assert(s@ =~= shape_b_spec());
    s
}

/// How a pipeline assembles a vertex stream into triangles.
#[derive(Clone, Copy, Debug, PartialEq, Eq, Structural)]
pub enum Topology {
    /// Every three consecutive vertices form one independent triangle.
    TriangleList,
    /// After the first two vertices, every vertex closes a triangle with the two before it.
    TriangleStrip,
}

/// The number of triangles that `n` vertices make under topology `t`.
pub open spec fn triangle_count(t: Topology, n: nat) -> nat {
    match t {
        Topology::TriangleList => n / 3,
        Topology::TriangleStrip => if n >= 2 { (n - 2) as nat } else { 0 },
    }
}

/// The indices of the vertices of triangle `k` under topology `t`, in stream order.
pub open spec fn triangle_indices(t: Topology, k: int) -> (int, int, int) {
    match t {
        Topology::TriangleList => (3 * k, 3 * k + 1, 3 * k + 2),
        Topology::TriangleStrip => (k, k + 1, k + 2),
    }
}

/// Twice the signed area of the triangle `a, b, c`: positive when the three
/// vertices run counter-clockwise, negative when they run clockwise.
pub open spec fn orientation(a: Vertex, b: Vertex, c: Vertex) -> int {
    (b.x - a.x) * (c.y - a.y) - (b.y - a.y) * (c.x - a.x)
}

/// Triangle `k` of the stream `s` under topology `t`, its vertices in stream order.
pub open spec fn triangle(s: Seq<Vertex>, t: Topology, k: int) -> (Vertex, Vertex, Vertex) {
    let (i, j, l) = triangle_indices(t, k);
    (s[i], s[j], s[l])
}

/// Orientation of a triangle given as three vertices.
pub open spec fn winding(tri: (Vertex, Vertex, Vertex)) -> int {
    orientation(tri.0, tri.1, tri.2)
}

/// The white centre of the fan of shape A.
pub open spec fn fan_centre() -> Vertex {
    vtx(-45i32, 0, 100, 100, 100)
}

/// The winding of a triangle whose corners sit at the given coordinates.
proof fn lemma_winding_of(tri: (Vertex, Vertex, Vertex), ax: int, ay: int, bx: int, by: int, cx: int, cy: int)
    requires
        tri.0.x == ax, tri.0.y == ay,
        tri.1.x == bx, tri.1.y == by,
        tri.2.x == cx, tri.2.y == cy,
    ensures
        winding(tri) == (bx - ax) * (cy - ay) - (by - ay) * (cx - ax),
{
}

/// Shape A is a closed fan of six triangles: its 18 vertices make six list
/// triangles, every triangle starts at the white centre, each triangle ends on
/// the ring vertex where the next one starts (the sixth closes onto the first),
/// and every triangle runs counter-clockwise.
pub proof fn lemma_shape_a_closed_fan()
    ensures
        shape_a_spec().len() == 18,
        triangle_count(Topology::TriangleList, shape_a_spec().len()) == 6,
        forall|k: int| 0 <= k < 6 ==> (#[trigger] triangle(shape_a_spec(), Topology::TriangleList, k)).0 == fan_centre(),
        forall|k: int| 0 <= k < 6 ==>
            (#[trigger] triangle(shape_a_spec(), Topology::TriangleList, k)).2
                == triangle(shape_a_spec(), Topology::TriangleList, (k + 1) % 6).1,
        forall|k: int| 0 <= k < 6 ==> winding(#[trigger] triangle(shape_a_spec(), Topology::TriangleList, k)) > 0,
{
    let s = shape_a_spec();
    let t = Topology::TriangleList;
    assert forall|k: int| 0 <= k < 6 implies {
        &&& (#[trigger] triangle(s, t, k)).0 == fan_centre()
        &&& triangle(s, t, k).2 == triangle(s, t, (k + 1) % 6).1
        &&& winding(triangle(s, t, k)) > 0
    } by {
        if k == 0 {
            lemma_winding_of(triangle(s, t, k), -45, 0, -45, 42, -81, 21);
            assert(triangle(s, t, k).0 == fan_centre());
        } else if k == 1 {
            lemma_winding_of(triangle(s, t, k), -45, 0, -81, 21, -81, -21);
            assert(triangle(s, t, k).0 == fan_centre());
        } else if k == 2 {
            lemma_winding_of(triangle(s, t, k), -45, 0, -81, -21, -45, -42);
            assert(triangle(s, t, k).0 == fan_centre());
        } else if k == 3 {
            lemma_winding_of(triangle(s, t, k), -45, 0, -45, -42, -9, -21);
            assert(triangle(s, t, k).0 == fan_centre());
        } else if k == 4 {
            lemma_winding_of(triangle(s, t, k), -45, 0, -9, -21, -9, 21);
            assert(triangle(s, t, k).0 == fan_centre());
        } else {
            lemma_winding_of(triangle(s, t, k), -45, 0, -9, 21, -45, 42);
            assert(triangle(s, t, k).0 == fan_centre());
        }
    }
}

/// Shape B is a strip of four triangles whose winding alternates in stream
/// order: its six vertices make four strip triangles, the even ones
/// counter-clockwise and the odd ones clockwise.
pub proof fn lemma_shape_b_alternating_strip()
    ensures
        shape_b_spec().len() == 6,
        triangle_count(Topology::TriangleStrip, shape_b_spec().len()) == 4,
        forall|k: int| 0 <= k < 4 ==>
            (winding(#[trigger] triangle(shape_b_spec(), Topology::TriangleStrip, k)) > 0 <==> k % 2 == 0),
        forall|k: int| 0 <= k < 4 ==>
            (winding(#[trigger] triangle(shape_b_spec(), Topology::TriangleStrip, k)) < 0 <==> k % 2 == 1),
{
    let s = shape_b_spec();
    let t = Topology::TriangleStrip;
    assert forall|k: int| 0 <= k < 4 implies {
        &&& (winding(#[trigger] triangle(s, t, k)) > 0 <==> k % 2 == 0)
        &&& (winding(triangle(s, t, k)) < 0 <==> k % 2 == 1)
    } by {
        if k == 0 {
            lemma_winding_of(triangle(s, t, k), 15, 55, 15, -10, 55, 10);
            assert(winding(triangle(s, t, k)) > 0);
        } else if k == 1 {
            lemma_winding_of(triangle(s, t, k), 15, -10, 55, 10, 55, -55);
            assert(winding(triangle(s, t, k)) < 0);
        } else if k == 2 {
            lemma_winding_of(triangle(s, t, k), 55, 10, 55, -55, 90, 10);
            assert(winding(triangle(s, t, k)) > 0);
        } else {
            lemma_winding_of(triangle(s, t, k), 55, -55, 90, 10, 90, -55);
            assert(winding(triangle(s, t, k)) < 0);
        }
    }
}

/// Ring vertex `k` of the fan of shape A: the second vertex of triangle `k`.
pub open spec fn fan_ring(k: int) -> Vertex {
    shape_a_spec()[3 * k + 1]
}

/// Whether two vertices carry the same colour.
pub open spec fn same_colour(a: Vertex, b: Vertex) -> bool {
    a.r == b.r && a.g == b.g && a.b == b.b
}

/// The squared distance between two vertices' positions, in hundredths squared.
pub open spec fn dist2(a: Vertex, b: Vertex) -> int {
    (a.x - b.x) * (a.x - b.x) + (a.y - b.y) * (a.y - b.y)
}

proof fn lemma_orientation_of(a: Vertex, b: Vertex, c: Vertex, ax: int, ay: int, bx: int, by: int, cx: int, cy: int)
    requires
        a.x == ax, a.y == ay,
        b.x == bx, b.y == by,
        c.x == cx, c.y == cy,
    ensures
        orientation(a, b, c) == (bx - ax) * (cy - ay) - (by - ay) * (cx - ax),
{
}

proof fn lemma_dist2_of(a: Vertex, b: Vertex, ax: int, ay: int, bx: int, by: int)
    requires
        a.x == ax, a.y == ay,
        b.x == bx, b.y == by,
    ensures
        dist2(a, b) == (ax - bx) * (ax - bx) + (ay - by) * (ay - by),
{
}

/// The vertices of the fan's ring, read from the table of shape A.
proof fn lemma_fan_ring_values()
    ensures
        fan_ring(0) == (Vertex { x: -45i32, y: 42, r: 100, g: 20, b: 20 }),
        fan_ring(1) == (Vertex { x: -81i32, y: 21, r: 100, g: 50, b: 0 }),
        fan_ring(2) == (Vertex { x: -81i32, y: -21i32, r: 90, g: 90, b: 0 }),
        fan_ring(3) == (Vertex { x: -45i32, y: -42i32, r: 10, g: 90, b: 20 }),
        fan_ring(4) == (Vertex { x: -9i32, y: -21i32, r: 0, g: 70, b: 90 }),
        fan_ring(5) == (Vertex { x: -9i32, y: 21, r: 50, g: 0, b: 100 }),
{
    assert(fan_ring(0) == shape_a_spec()[1]);
    assert(fan_ring(1) == shape_a_spec()[4]);
    assert(fan_ring(2) == shape_a_spec()[7]);
    assert(fan_ring(3) == shape_a_spec()[10]);
    assert(fan_ring(4) == shape_a_spec()[13]);
    assert(fan_ring(5) == shape_a_spec()[16]);
}

proof fn lemma_fan_ring_convex()
    ensures
        forall|k: int| 0 <= k < 6 ==>
            orientation(#[trigger] fan_ring(k), fan_ring((k + 1) % 6), fan_ring((k + 2) % 6)) > 0,
        forall|k: int| 0 <= k < 6 ==> 41 * 41 <= dist2(#[trigger] fan_ring(k), fan_centre()) <= 43 * 43,
{
    lemma_fan_ring_values();
    let c = fan_centre();
    let r0 = fan_ring(0);
    let r1 = fan_ring(1);
    let r2 = fan_ring(2);
    let r3 = fan_ring(3);
    let r4 = fan_ring(4);
    let r5 = fan_ring(5);
    lemma_orientation_of(r0, r1, r2, -45, 42, -81, 21, -81, -21);
    lemma_orientation_of(r1, r2, r3, -81, 21, -81, -21, -45, -42);
    lemma_orientation_of(r2, r3, r4, -81, -21, -45, -42, -9, -21);
    lemma_orientation_of(r3, r4, r5, -45, -42, -9, -21, -9, 21);
    lemma_orientation_of(r4, r5, r0, -9, -21, -9, 21, -45, 42);
    lemma_orientation_of(r5, r0, r1, -9, 21, -45, 42, -81, 21);
    lemma_dist2_of(r0, c, -45, 42, -45, 0);
    lemma_dist2_of(r1, c, -81, 21, -45, 0);
    lemma_dist2_of(r2, c, -81, -21, -45, 0);
    lemma_dist2_of(r3, c, -45, -42, -45, 0);
    lemma_dist2_of(r4, c, -9, -21, -45, 0);
    lemma_dist2_of(r5, c, -9, 21, -45, 0);
    assert forall|k: int| 0 <= k < 6 implies {
        &&& orientation(#[trigger] fan_ring(k), fan_ring((k + 1) % 6), fan_ring((k + 2) % 6)) > 0
        &&& 41 * 41 <= dist2(fan_ring(k), fan_centre()) <= 43 * 43
    } by {
        if k == 0 {
        } else if k == 1 {
        } else if k == 2 {
        } else if k == 3 {
        } else if k == 4 {
        } else {
        }
    }
}

proof fn lemma_fan_ring_colours_distinct()
    ensures
        forall|j: int, k: int| 0 <= j < 6 && 0 <= k < 6 && j != k ==>
            !same_colour(#[trigger] fan_ring(j), #[trigger] fan_ring(k)),
{
    lemma_fan_ring_values();
    assert forall|j: int, k: int| 0 <= j < 6 && 0 <= k < 6 && j != k implies
        !same_colour(#[trigger] fan_ring(j), #[trigger] fan_ring(k)) by {
        assert(0 <= j < 6 && 0 <= k < 6);
        if j == 0 {
            assert(k == 1 || k == 2 || k == 3 || k == 4 || k == 5);
        } else if j == 1 {
            assert(k == 0 || k == 2 || k == 3 || k == 4 || k == 5);
        } else if j == 2 {
            assert(k == 0 || k == 1 || k == 3 || k == 4 || k == 5);
        } else if j == 3 {
            assert(k == 0 || k == 1 || k == 2 || k == 4 || k == 5);
        } else if j == 4 {
            assert(k == 0 || k == 1 || k == 2 || k == 3 || k == 5);
        } else {
            assert(k == 0 || k == 1 || k == 2 || k == 3 || k == 4);
        }
    }
}

/// The ring of the fan is a strictly convex hexagon around the white centre
/// (-0.45, 0), coloured as a rainbow: its six vertices, in order, are red
/// (-0.45, 0.42), orange (-0.81, 0.21), yellow (-0.81, -0.21), green
/// (-0.45, -0.42), cyan (-0.09, -0.21) and violet (-0.09, 0.21); every three
/// consecutive ring vertices turn counter-clockwise (none are collinear), each
/// lies between 0.41 and 0.43 from the centre, and no two share a colour.
pub proof fn lemma_fan_ring_rainbow_hexagon()
    ensures
        fan_centre() == (Vertex { x: -45i32, y: 0, r: 100, g: 100, b: 100 }),
        fan_ring(0) == (Vertex { x: -45i32, y: 42, r: 100, g: 20, b: 20 }),
        fan_ring(1) == (Vertex { x: -81i32, y: 21, r: 100, g: 50, b: 0 }),
        fan_ring(2) == (Vertex { x: -81i32, y: -21i32, r: 90, g: 90, b: 0 }),
        fan_ring(3) == (Vertex { x: -45i32, y: -42i32, r: 10, g: 90, b: 20 }),
        fan_ring(4) == (Vertex { x: -9i32, y: -21i32, r: 0, g: 70, b: 90 }),
        fan_ring(5) == (Vertex { x: -9i32, y: 21, r: 50, g: 0, b: 100 }),
        forall|k: int| 0 <= k < 6 ==>
            orientation(#[trigger] fan_ring(k), fan_ring((k + 1) % 6), fan_ring((k + 2) % 6)) > 0,
        forall|k: int| 0 <= k < 6 ==> 41 * 41 <= dist2(#[trigger] fan_ring(k), fan_centre()) <= 43 * 43,
        forall|j: int, k: int| 0 <= j < 6 && 0 <= k < 6 && j != k ==>
            !same_colour(#[trigger] fan_ring(j), #[trigger] fan_ring(k)),
{
    lemma_fan_ring_values();
    lemma_fan_ring_convex();
    lemma_fan_ring_colours_distinct();
}

/// The band's six vertices, in strip order, are at (0.15, 0.55), (0.15, -0.10),
/// (0.55, 0.10), (0.55, -0.55), (0.90, 0.10) and (0.90, -0.55), coloured
/// (0.2, 0.9, 1.0), (0.0, 0.4, 0.9), (0.7, 0.2, 1.0), (0.4, 0.0, 0.8),
/// (1.0, 0.5, 0.8) and (0.9, 0.1, 0.5); no two share a colour.
pub proof fn lemma_band_vertices()
    ensures
        shape_b_spec().len() == 6,
        shape_b_spec()[0] == (Vertex { x: 15, y: 55, r: 20, g: 90, b: 100 }),
        shape_b_spec()[1] == (Vertex { x: 15, y: -10i32, r: 0, g: 40, b: 90 }),
        shape_b_spec()[2] == (Vertex { x: 55, y: 10, r: 70, g: 20, b: 100 }),
        shape_b_spec()[3] == (Vertex { x: 55, y: -55i32, r: 40, g: 0, b: 80 }),
        shape_b_spec()[4] == (Vertex { x: 90, y: 10, r: 100, g: 50, b: 80 }),
        shape_b_spec()[5] == (Vertex { x: 90, y: -55i32, r: 90, g: 10, b: 50 }),
        forall|j: int, k: int| 0 <= j < 6 && 0 <= k < 6 && j != k ==>
            !same_colour(#[trigger] shape_b_spec()[j], #[trigger] shape_b_spec()[k]),
{
    let b = shape_b_spec();
    assert forall|j: int, k: int| 0 <= j < 6 && 0 <= k < 6 && j != k implies
        !same_colour(#[trigger] b[j], #[trigger] b[k]) by {
        if j == 0 {
            assert(k == 1 || k == 2 || k == 3 || k == 4 || k == 5);
        } else if j == 1 {
            assert(k == 0 || k == 2 || k == 3 || k == 4 || k == 5);
        } else if j == 2 {
            assert(k == 0 || k == 1 || k == 3 || k == 4 || k == 5);
        } else if j == 3 {
            assert(k == 0 || k == 1 || k == 2 || k == 4 || k == 5);
        } else if j == 4 {
            assert(k == 0 || k == 1 || k == 2 || k == 3 || k == 5);
        } else {
            assert(k == 0 || k == 1 || k == 2 || k == 3 || k == 4);
        }
    }
}

/// A vertex whose position lies inside the visible square of normalised device
/// coordinates, [-1, 1] on both axes, and whose colour channels lie in [0, 1].
pub open spec fn on_screen(v: Vertex) -> bool {
    &&& -100 <= v.x <= 100
    &&& -100 <= v.y <= 100
    &&& 0 <= v.r <= 100
    &&& 0 <= v.g <= 100
    &&& 0 <= v.b <= 100
}

/// Both shapes lie on screen with valid colours, shape A entirely in the left
/// half of the screen and shape B entirely in the right half.
pub proof fn lemma_shapes_on_screen()
    ensures
        forall|i: int| 0 <= i < shape_a_spec().len() ==> on_screen(#[trigger] shape_a_spec()[i]) && shape_a_spec()[i].x < 0,
        forall|i: int| 0 <= i < shape_b_spec().len() ==> on_screen(#[trigger] shape_b_spec()[i]) && shape_b_spec()[i].x > 0,
{
    let a = shape_a_spec();
    let b = shape_b_spec();
    assert forall|i: int| 0 <= i < a.len() implies on_screen(#[trigger] a[i]) && a[i].x < 0 by {
        if i < 6 {
            if i < 3 {} else {}
        } else if i < 12 {
            if i < 9 {} else {}
        } else {
            if i < 15 {} else {}
        }
    }
    assert forall|i: int| 0 <= i < b.len() implies on_screen(#[trigger] b[i]) && b[i].x > 0 by {
        if i < 3 {} else {}
    }
}

} // verus!
