//! Geometry of the shapes a drawing target knows: the axis-aligned
//! rectangle, the triangle fan of a regular polygon, and a glyph mesh given
//! as a plain triangle list.
//!
//! Every scalar of a shape is supplied by the caller; this module decides
//! which vertex gets which scalar and which vertices form each triangle.
use crate::render::batch::{
    lemma_max_index, lemma_max_index_is, max_index, vertex_span, DrawCall, TextureId,
};
use vstd::prelude::*;

verus! {

/// Number of sides from which a polygon's fan can no longer be indexed with
/// 16 bits.
pub const MAX_SIDES: usize = 65535;

/// Number of vertices from which a triangle list can no longer be indexed
/// with 16 bits.
pub const MAX_MESH_VERTICES: usize = 65536;

/// `value` repeated `count` times.
pub open spec fn repeated<T>(value: T, count: nat) -> Seq<T> {
    Seq::new(count, |k: int| value)
}

/// One color for each of `vertices` vertices.
pub open spec fn vertex_colors<T>(color: [T; 4], vertices: nat) -> Seq<T> {
    Seq::new(4 * vertices, |k: int| color[k % 4])
}

/// The coordinates of `points` one after the other.
pub open spec fn interleave<T>(points: Seq<[T; 2]>) -> Seq<T> {
    Seq::new(2 * points.len(), |k: int| points[k / 2][k % 2])
}

/// The two triangles of a rectangle over its four corners.
pub open spec fn rect_indexes() -> Seq<u16> {
    seq![0u16, 1u16, 2u16, 1u16, 2u16, 3u16]
}

/// The draw call of a rectangle that spans from `position` to `end`, both
/// in space and in the texture. The corners come in the order near-near,
/// far-near, near-far, far-far; the texture's second axis runs against the
/// rectangle's, so that the near edge of the rectangle shows the far edge
/// of the texture region.
pub open spec fn rect_call<T>(
    position: [T; 2],
    end: [T; 2],
    color: [T; 4],
    texture: TextureId,
    texture_position: [T; 2],
    texture_end: [T; 2],
) -> DrawCall<T> {
    DrawCall {
        indexes: rect_indexes(),
        positions: seq![
            position[0],
            position[1],
            end[0],
            position[1],
            position[0],
            end[1],
            end[0],
            end[1],
        ],
        colors: vertex_colors(color, 4),
        texcoords: seq![
            texture_position[0],
            texture_end[1],
            texture_end[0],
            texture_end[1],
            texture_position[0],
            texture_position[1],
            texture_end[0],
            texture_position[1],
        ],
        texture,
    }
}

/// Index number `k` of the fan of a polygon with `sides` sides. Triangle
/// `i`, counted from 1, joins the center (vertex 0), rim vertex `i` and the
/// next rim vertex, which for the last triangle is rim vertex 1 again.
pub open spec fn fan_index(sides: nat, k: int) -> u16 {
    let i = k / 3 + 1;
    if k % 3 == 0 {
        0u16
    } else if k % 3 == 1 {
        i as u16
    } else if i == sides {
        1u16
    } else {
        (i + 1) as u16
    }
}

/// The first `triangles` triangles of the fan of a polygon with `sides`
/// sides.
pub open spec fn fan_prefix(sides: nat, triangles: nat) -> Seq<u16> {
    Seq::new(3 * triangles, |k: int| fan_index(sides, k))
}

/// The triangle fan of a polygon with `sides` sides.
pub open spec fn fan_indexes(sides: nat) -> Seq<u16> {
    fan_prefix(sides, sides)
}

/// The draw call of a polygon: the center vertex first, then the rim
/// vertices in the order given, all in one color.
pub open spec fn regular_call<T>(
    center: [T; 2],
    rim: Seq<[T; 2]>,
    color: [T; 4],
    texture: TextureId,
    center_texcoord: [T; 2],
    rim_texcoords: Seq<[T; 2]>,
) -> DrawCall<T> {
    DrawCall {
        indexes: fan_indexes(rim.len()),
        positions: interleave(seq![center] + rim),
        colors: vertex_colors(color, rim.len() + 1),
        texcoords: interleave(seq![center_texcoord] + rim_texcoords),
        texture,
    }
}

/// The indices of a triangle list of `vertices` vertices: each vertex once,
/// in order.
pub open spec fn list_indexes(vertices: nat) -> Seq<u16> {
    Seq::new(vertices, |k: int| k as u16)
}

/// The draw call of a glyph mesh given as a triangle list of
/// `vertices.len() / 2` vertices, all in one color.
pub open spec fn text_call<T>(
    vertices: Seq<T>,
    color: [T; 4],
    texture: TextureId,
    texcoords: Seq<T>,
) -> DrawCall<T> {
    DrawCall {
        indexes: list_indexes(vertices.len() / 2),
        positions: vertices,
        colors: vertex_colors(color, vertices.len() / 2),
        texcoords,
        texture,
    }
}

/// A rectangle reserves four vertex slots.
pub proof fn lemma_rect_span()
    ensures
        vertex_span(rect_indexes()) == 4,
{
    let s = rect_indexes();
    assert(s[5] == 3u16);
    lemma_max_index_is(s, 3);
}

/// A fan that can be indexed reserves one vertex slot for the center and
/// one for each side.
pub proof fn lemma_fan_span(sides: nat)
    requires
        sides < MAX_SIDES,
    ensures
        vertex_span(fan_indexes(sides)) == sides + 1,
{
    let s = fan_indexes(sides);
    if sides == 0 {
        lemma_max_index(s);
    } else {
        assert forall|k: int| 0 <= k < s.len() implies s[k] <= sides by {
            assert(0 <= k / 3 < sides);
        }
        let k: int = 3 * (sides - 1) + 1;
        assert(k / 3 == sides - 1 && k % 3 == 1);
        assert(s[k] == sides);
        lemma_max_index_is(s, sides as int);
    }
}

/// A fan with too many sides reaches the largest index there is.
pub proof fn lemma_fan_oversized(sides: nat)
    requires
        sides >= MAX_SIDES,
    ensures
        max_index(fan_indexes(sides)) == 65535,
{
    let s = fan_indexes(sides);
    let k: int = 196603;
    assert(k / 3 == 65534 && k % 3 == 1);
    assert(s[k] == 65535u16);
    lemma_max_index_is(s, 65535);
}

/// A triangle list that can be indexed reserves one vertex slot for each
/// vertex, and one if it has none.
pub proof fn lemma_list_span(vertices: nat)
    requires
        vertices <= MAX_MESH_VERTICES,
    ensures
        vertex_span(list_indexes(vertices)) == if vertices == 0 {
            1
        } else {
            vertices as int
        },
{
    let s = list_indexes(vertices);
    if vertices == 0 {
        lemma_max_index(s);
    } else {
        assert(s[vertices - 1] == vertices - 1);
        lemma_max_index_is(s, vertices - 1);
    }
}

/// A triangle list with too many vertices reaches the largest index there
/// is.
pub proof fn lemma_list_oversized(vertices: nat)
    requires
        vertices >= MAX_MESH_VERTICES,
    ensures
        max_index(list_indexes(vertices)) == 65535,
{
    let s = list_indexes(vertices);
    assert(s[65535] == 65535u16);
    lemma_max_index_is(s, 65535);
}

/// A rectangle's draw call is never malformed; it brings six indices and
/// reserves four vertex slots.
pub proof fn lemma_rect_call<T>(
    position: [T; 2],
    end: [T; 2],
    color: [T; 4],
    texture: TextureId,
    texture_position: [T; 2],
    texture_end: [T; 2],
)
    ensures
        rect_call(position, end, color, texture, texture_position, texture_end).balanced(),
        rect_call(position, end, color, texture, texture_position, texture_end).span() == 4,
        rect_call(position, end, color, texture, texture_position, texture_end).indexes.len()
            == 6,
{
    lemma_rect_span();
}

/// A polygon's draw call is malformed exactly when the rim and its texture
/// coordinates differ in length; it brings three indices for each side and
/// reserves a vertex slot for the center and for each side, as long as
/// those can be indexed.
pub proof fn lemma_regular_call<T>(
    center: [T; 2],
    rim: Seq<[T; 2]>,
    color: [T; 4],
    texture: TextureId,
    center_texcoord: [T; 2],
    rim_texcoords: Seq<[T; 2]>,
)
    ensures
        regular_call(center, rim, color, texture, center_texcoord, rim_texcoords).balanced() <==> rim.len()
            == rim_texcoords.len(),
        regular_call(center, rim, color, texture, center_texcoord, rim_texcoords).indexes.len()
            == 3 * rim.len(),
        regular_call(center, rim, color, texture, center_texcoord, rim_texcoords).span() == if rim.len()
            < MAX_SIDES {
            rim.len() + 1
        } else {
            65536
        },
{
    if rim.len() < MAX_SIDES {
        lemma_fan_span(rim.len());
    } else {
        lemma_fan_oversized(rim.len());
    }
}

/// A glyph mesh's draw call is malformed exactly when a vertex lacks a
/// coordinate or the texture coordinates differ in length from the
/// vertices; it brings one index for each vertex and reserves a vertex slot
/// for each, as long as those can be indexed.
pub proof fn lemma_text_call<T>(
    vertices: Seq<T>,
    color: [T; 4],
    texture: TextureId,
    texcoords: Seq<T>,
)
    ensures
        text_call(vertices, color, texture, texcoords).balanced() <==> vertices.len() % 2 == 0
            && texcoords.len() == vertices.len(),
        text_call(vertices, color, texture, texcoords).indexes.len() == vertices.len() / 2,
        text_call(vertices, color, texture, texcoords).span() == if vertices.len() / 2 == 0 {
            1
        } else if vertices.len() / 2 < MAX_MESH_VERTICES {
            (vertices.len() / 2) as int
        } else {
            65536
        },
{
    if vertices.len() / 2 < MAX_MESH_VERTICES {
        lemma_list_span(vertices.len() / 2);
    } else {
        lemma_list_oversized(vertices.len() / 2);
    }
}

/// The geometry of one draw call, held in memory.
pub struct Geometry<T> {
    pub indexes: Vec<u16>,
    pub positions: Vec<T>,
    pub colors: Vec<T>,
    pub texcoords: Vec<T>,
    pub texture: TextureId,
}

impl<T> View for Geometry<T> {
    type V = DrawCall<T>;

    open spec fn view(&self) -> DrawCall<T> {
        DrawCall {
            indexes: self.indexes@,
            positions: self.positions@,
            colors: self.colors@,
            texcoords: self.texcoords@,
            texture: self.texture,
        }
    }
}

/// `color` once for each of `vertices` vertices.
fn repeated_color<T: Copy>(color: [T; 4], vertices: usize) -> (colors: Vec<T>)
    ensures
        colors@ == vertex_colors(color, vertices as nat),
{
    let mut colors: Vec<T> = Vec::new();
    let mut i: usize = 0;
    while i < vertices
        invariant
            i <= vertices,
            colors@ == vertex_colors(color, i as nat),
        decreases vertices - i,
    {
        colors.push(color[0]);
        colors.push(color[1]);
        colors.push(color[2]);
        colors.push(color[3]);
        i = i + 1;
        assert(colors@ =~= vertex_colors(color, i as nat));
    }
    colors
}

/// The coordinates of `first` and then of each point of `rest`.
fn interleaved<T: Copy>(first: [T; 2], rest: &[[T; 2]]) -> (scalars: Vec<T>)
    ensures
        scalars@ == interleave(seq![first] + rest@),
{
    let mut scalars: Vec<T> = Vec::new();
    scalars.push(first[0]);
    scalars.push(first[1]);
    assert(scalars@ =~= interleave(seq![first] + rest@.take(0)));
    let mut i: usize = 0;
    while i < rest.len()
        invariant
            i <= rest.len(),
            scalars@ == interleave(seq![first] + rest@.take(i as int)),
        decreases rest.len() - i,
    {
        let point: [T; 2] = rest[i];
        scalars.push(point[0]);
        scalars.push(point[1]);
        i = i + 1;
        assert(scalars@ =~= interleave(seq![first] + rest@.take(i as int)));
    }
    assert(rest@.take(rest.len() as int) == rest@);
    scalars
}

/// The geometry of a rectangle.
pub fn rect<T: Copy>(
    position: [T; 2],
    end: [T; 2],
    color: [T; 4],
    texture: TextureId,
    texture_position: [T; 2],
    texture_end: [T; 2],
) -> (geometry: Geometry<T>)
    ensures
        geometry@ == rect_call(position, end, color, texture, texture_position, texture_end),
{
    let mut indexes: Vec<u16> = Vec::new();
    indexes.push(0);
    indexes.push(1);
    indexes.push(2);
    indexes.push(1);
    indexes.push(2);
    indexes.push(3);
    let mut positions: Vec<T> = Vec::new();
    positions.push(position[0]);
    positions.push(position[1]);
    positions.push(end[0]);
    positions.push(position[1]);
    positions.push(position[0]);
    positions.push(end[1]);
    positions.push(end[0]);
    positions.push(end[1]);
    let mut texcoords: Vec<T> = Vec::new();
    texcoords.push(texture_position[0]);
    texcoords.push(texture_end[1]);
    texcoords.push(texture_end[0]);
    texcoords.push(texture_end[1]);
    texcoords.push(texture_position[0]);
    texcoords.push(texture_position[1]);
    texcoords.push(texture_end[0]);
    texcoords.push(texture_position[1]);
    let colors = repeated_color(color, 4);
    let geometry = Geometry { indexes, positions, colors, texcoords, texture };
    proof {
        let call = rect_call(position, end, color, texture, texture_position, texture_end);
        assert(geometry@.indexes =~= call.indexes);
        assert(geometry@.positions =~= call.positions);
        assert(geometry@.texcoords =~= call.texcoords);
    }
    geometry
}

/// The geometry of a polygon with one side for each point of `rim`, or
/// `None` when there are too many sides to index.
pub fn regular<T: Copy>(
    center: [T; 2],
    rim: &[[T; 2]],
    color: [T; 4],
    texture: TextureId,
    center_texcoord: [T; 2],
    rim_texcoords: &[[T; 2]],
) -> (geometry: Option<Geometry<T>>)
    ensures
        match geometry {
            Some(g) => rim.len() < MAX_SIDES && g@ == regular_call(
                center,
                rim@,
                color,
                texture,
                center_texcoord,
                rim_texcoords@,
            ),
            None => rim.len() >= MAX_SIDES,
        },
{
    if rim.len() >= MAX_SIDES {
        return None;
    }
    let sides: u16 = rim.len() as u16;
    let mut indexes: Vec<u16> = Vec::new();
    let mut i: u16 = 0;
    while i < sides
        invariant
            i <= sides,
            sides < MAX_SIDES,
            indexes@ == fan_prefix(sides as nat, i as nat),
        decreases sides - i,
    {
        i = i + 1;
        indexes.push(0);
        indexes.push(i);
        indexes.push(
            if i == sides {
                1
            } else {
                i + 1
            },
        );
        assert(indexes@ =~= fan_prefix(sides as nat, i as nat));
    }
    let positions = interleaved(center, rim);
    let colors = repeated_color(color, rim.len() + 1);
    let texcoords = interleaved(center_texcoord, rim_texcoords);
    Some(Geometry { indexes, positions, colors, texcoords, texture })
}

/// A copy of `source`.
fn copied<T: Copy>(source: &[T]) -> (copy: Vec<T>)
    ensures
        copy@ == source@,
{
    let mut copy: Vec<T> = Vec::with_capacity(source.len());
    let mut i: usize = 0;
    while i < source.len()
        invariant
            i <= source.len(),
            copy@ == source@.take(i as int),
        decreases source.len() - i,
    {
        copy.push(source[i]);
        i = i + 1;
    }
    assert(source@.take(source.len() as int) == source@);
    copy
}

/// The geometry of a glyph mesh given as a triangle list, or `None` when it
/// has too many vertices to index.
pub fn text<T: Copy>(vertices: &[T], color: [T; 4], texture: TextureId, texcoords: &[T]) -> (geometry:
    Option<Geometry<T>>)
    ensures
        match geometry {
            Some(g) => vertices.len() / 2 < MAX_MESH_VERTICES && g@ == text_call(
                vertices@,
                color,
                texture,
                texcoords@,
            ),
            None => vertices.len() / 2 >= MAX_MESH_VERTICES,
        },
{
    let count: usize = vertices.len() / 2;
    if count >= MAX_MESH_VERTICES {
        return None;
    }
    let mut indexes: Vec<u16> = Vec::new();
    let mut i: usize = 0;
    while i < count
        invariant
            i <= count,
            count < MAX_MESH_VERTICES,
            indexes@ == list_indexes(i as nat),
        decreases count - i,
    {
        indexes.push(i as u16);
        i = i + 1;
        assert(indexes@ =~= list_indexes(i as nat));
    }
    let colors = repeated_color(color, count);
    Some(
        Geometry {
            indexes,
            positions: copied(vertices),
            colors,
            texcoords: copied(texcoords),
            texture,
        },
    )
}

} // verus!
