use vstd::prelude::*;

verus! {

/// Corner `c` (0, 1 or 2) of triangle `k` of the fan over a polygon with `n`
/// boundary vertices.
///
/// The fan peels triangles alternately off the front and the back of the
/// boundary: triangle `2j` is `(j, j + 1, n - 1 - j)` and triangle `2j + 1` is
/// `(j + 1, n - 2 - j, n - 1 - j)`.
pub open spec fn fan_corner(n: int, k: int, c: int) -> int {
    let j = k / 2;
    if k % 2 == 0 {
        if c == 0 {
            j
        } else if c == 1 {
            j + 1
        } else {
            n - 1 - j
        }
    } else {
        if c == 0 {
            j + 1
        } else if c == 1 {
            n - 2 - j
        } else {
            n - 1 - j
        }
    }
}

/// The number of triangles of the fan: `n - 2` for a polygon, none for fewer
/// than three vertices.
pub open spec fn fan_triangle_count(n: int) -> int {
    if n >= 3 {
        n - 2
    } else {
        0
    }
}

/// The fan as a flat list of vertex indices, three per triangle.
pub open spec fn fan_indices(n: int) -> Seq<i32> {
    Seq::new((3 * fan_triangle_count(n)) as nat, |i: int| fan_corner(n, i / 3, i % 3) as i32)
}

/// Triangulates a polygon with `vertex_count` boundary vertices into the fan
/// described by `fan_indices`. Fewer than three vertices give no triangle.
pub fn triangulate_polygon(vertex_count: usize) -> (r: Vec<i32>)
    requires
        vertex_count <= i32::MAX + 1,
    ensures
        r@ == fan_indices(vertex_count as int),
{
    let mut indices: Vec<i32> = Vec::new();
    if vertex_count < 3 {
        assert(indices@ =~= fan_indices(vertex_count as int));
        return indices;
    }
    let ghost n = vertex_count as int;
    let mut front: i32 = 0;
    let mut back: i32 = (vertex_count - 1) as i32;
    let mut k: usize = 0;
    while back - front > 1
        invariant
            3 <= n <= i32::MAX + 1,
            0 <= k <= n - 2,
            front == (k + 1) / 2,
            back == n - 1 - k / 2,
            back - front == n - 1 - k,
            indices@.len() == 3 * k,
            forall|i: int| 0 <= i < 3 * k ==> indices@[i] == fan_indices(n)[i],
        decreases back - front,
    {
        if k % 2 == 0 {
            indices.push(front);
            indices.push(front + 1);
            indices.push(back);
            front = front + 1;
        } else {
            indices.push(front);
            indices.push(back - 1);
            indices.push(back);
            back = back - 1;
        }
        proof {
            assert forall|i: int| 3 * k <= i < 3 * k + 3 implies indices@[i] == fan_indices(n)[i] by {
                assert(i / 3 == k as int);
            }
        }
        k = k + 1;
    }
    assert(indices@ =~= fan_indices(n));
    indices
}

/// Every triangle of the fan takes three distinct boundary vertices of the
/// polygon, listed in boundary order, so each triangle winds the same way as
/// the polygon itself.
pub proof fn lemma_fan_triangles_ordered(n: int, k: int)
    requires
        0 <= k < fan_triangle_count(n),
    ensures
        0 <= fan_corner(n, k, 0) < fan_corner(n, k, 1) < fan_corner(n, k, 2) < n,
{
}

/// Byte `b` (0 for the least significant) of the two's-complement form of `v`.
pub open spec fn byte_of(v: i32, b: int) -> u8 {
    ((v as int % 0x1_0000_0000) / pow256(b) % 256) as u8
}

pub open spec fn pow256(b: int) -> int
    decreases b,
{
    if b <= 0 {
        1
    } else {
        256 * pow256(b - 1)
    }
}

/// The bytes of `s` laid out one value after another, four bytes each, least
/// significant first when `little` holds and most significant first otherwise.
pub open spec fn i32_bytes(s: Seq<i32>, little: bool) -> Seq<u8> {
    Seq::new(
        4 * s.len(),
        |i: int| byte_of(s[i / 4], if little { i % 4 } else { 3 - i % 4 }),
    )
}

/// Relies on bytemuck::cast_slice: an `i32` slice viewed as its bytes in
/// memory, four per value in the machine's byte order.
#[verifier::external_body]
fn to_bytes(values: &Vec<i32>) -> (r: Vec<u8>)
    ensures
        r@ == i32_bytes(values@, true) || r@ == i32_bytes(values@, false),
{
    bytemuck::cast_slice::<i32, u8>(values.as_slice()).to_vec()
}

/// What a polygon's index buffer holds: the fan's indices as the bytes to
/// upload, and how many indices a draw call covers.
pub struct IndexBuffer {
    pub bytes: Vec<u8>,
    pub index_count: i32,
}

/// The index buffer of a polygon with `vertex_count` boundary vertices:
/// its fan triangulation, as bytes in the machine's byte order.
pub fn polygon_index_buffer(vertex_count: usize) -> (r: IndexBuffer)
    requires
        3 * fan_triangle_count(vertex_count as int) <= i32::MAX,
    ensures
        r.index_count == 3 * fan_triangle_count(vertex_count as int),
        r.bytes@ == i32_bytes(fan_indices(vertex_count as int), true)
            || r.bytes@ == i32_bytes(fan_indices(vertex_count as int), false),
{
    let indices = triangulate_polygon(vertex_count);
    let index_count = indices.len() as i32;
    IndexBuffer { bytes: to_bytes(&indices), index_count }
}

} // verus!
