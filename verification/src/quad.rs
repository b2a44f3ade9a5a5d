//! The quad that fills the screen, as a strip of two triangles.

use vstd::prelude::*;

verus! {

/// Coordinates per vertex.
pub const VERTEX_COMPONENTS: usize = 2;

/// Vertices in the strip.
pub const VERTEX_COUNT: usize = 4;

/// Bytes of one coordinate in the vertex buffer.
pub const COMPONENT_BYTES: usize = 4;

/// The strip's coordinates, vertex by vertex, `x` before `y`.
pub open spec fn strip() -> Seq<i8> {
    seq![1i8, -1i8, -1i8, -1i8, 1i8, 1i8, -1i8, 1i8]
}

/// The `x` of vertex `k` of `s`.
pub open spec fn x_of(s: Seq<i8>, k: int) -> int {
    s[VERTEX_COMPONENTS * k] as int
}

/// The `y` of vertex `k` of `s`.
pub open spec fn y_of(s: Seq<i8>, k: int) -> int {
    s[VERTEX_COMPONENTS * k + 1] as int
}

/// Whether the strip `s` covers the square from -1 to 1 in both directions,
/// which is the whole screen: its four vertices are corners of the square,
/// and the two in the middle, which both triangles share, lie opposite each
/// other, so that the first and the last are the two other corners.
pub open spec fn fills_screen(s: Seq<i8>) -> bool {
    &&& s.len() == VERTEX_COUNT * VERTEX_COMPONENTS
    &&& forall|i: int| 0 <= i < s.len() ==> #[trigger] s[i] == 1 || s[i] == -1
    &&& x_of(s, 1) == -x_of(s, 2)
    &&& y_of(s, 1) == -y_of(s, 2)
    &&& x_of(s, 0) != x_of(s, 3)
    &&& y_of(s, 0) != y_of(s, 3)
    &&& (x_of(s, 0), y_of(s, 0)) != (x_of(s, 1), y_of(s, 1))
    &&& (x_of(s, 0), y_of(s, 0)) != (x_of(s, 2), y_of(s, 2))
}

/// The coordinates to upload, each of them 1 or -1.
pub fn strip_components() -> (components: Vec<i8>)
    ensures
        components@ == strip(),
        fills_screen(components@),
{
    let mut components: Vec<i8> = Vec::new();
    components.push(1);
    components.push(-1);
    components.push(-1);
    components.push(-1);
    components.push(1);
    components.push(1);
    components.push(-1);
    components.push(1);
    assert(components@ =~= strip());
    components
}

/// The size in bytes of a vertex buffer of `components` coordinates, or
/// `None` where that is more than a signed size can hold.
pub fn buffer_bytes(components: usize) -> (bytes: Option<isize>)
    ensures
        bytes.is_some() == (components * COMPONENT_BYTES <= isize::MAX),
        bytes matches Some(n) ==> n == components * COMPONENT_BYTES,
{
    if components <= (isize::MAX as usize) / COMPONENT_BYTES {
        Some((components * COMPONENT_BYTES) as isize)
    } else {
        None
    }
}

/// Every corner of the screen is a vertex of a strip that fills it.
pub proof fn filling_strip_has_every_corner(s: Seq<i8>, x: int, y: int)
    requires
        fills_screen(s),
        x == 1 || x == -1,
        y == 1 || y == -1,
    ensures
        exists|k: int| 0 <= k < VERTEX_COUNT && x_of(s, k) == x && y_of(s, k) == y,
{
    if x_of(s, 0) == x && y_of(s, 0) == y {
    } else if x_of(s, 1) == x && y_of(s, 1) == y {
    } else if x_of(s, 2) == x && y_of(s, 2) == y {
    } else {
        assert(x_of(s, 3) == x && y_of(s, 3) == y);
    }
}

} // verus!
