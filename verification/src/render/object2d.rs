//! Shapes that keep their own vertex data, as plain triangle lists: three
//! vertices for each triangle, none shared.
//!
//! Every scalar of a shape is supplied by the caller; this module decides
//! which vertex gets which scalar.
use crate::render::batch::{parallel_lengths, DrawError, TextureId};
use crate::render::shapes::{repeated, vertex_colors};
use vstd::prelude::*;

verus! {

/// The mathematical content of the vertex data of a shape.
pub ghost struct VertexData<T> {
    pub positions: Seq<T>,
    pub colors: Seq<T>,
    pub texcoords: Seq<T>,
    pub texture: Option<TextureId>,
}

impl<T> VertexData<T> {
    /// The three arrays describe the same number of vertices.
    pub open spec fn balanced(self) -> bool {
        parallel_lengths(self.positions.len(), self.colors.len(), self.texcoords.len())
    }
}

/// The vertex data of a shape, borrowed from it.
pub struct DrawData2D<'a, T> {
    pub positions: &'a [T],
    pub colors: &'a [T],
    pub texcoords: &'a [T],
    pub texture: Option<TextureId>,
}

impl<'a, T> View for DrawData2D<'a, T> {
    type V = VertexData<T>;

    open spec fn view(&self) -> VertexData<T> {
        VertexData {
            positions: self.positions@,
            colors: self.colors@,
            texcoords: self.texcoords@,
            texture: self.texture,
        }
    }
}

impl<'a, T> DrawData2D<'a, T> {
    /// The three arrays describe the same number of vertices.
    pub open spec fn balanced(&self) -> bool {
        self@.balanced()
    }

    /// The data itself when its arrays describe one common number of
    /// vertices, the refusal when they do not.
    pub fn checked(self) -> (r: Result<DrawData2D<'a, T>, DrawError>)
        ensures
            self.balanced() ==> r == Ok::<DrawData2D<'a, T>, DrawError>(self),
            !self.balanced() ==> r == Err::<DrawData2D<'a, T>, DrawError>(
                DrawError::MalformedGeometry,
            ),
    {
        let positions: usize = self.positions.len();
        let colors: usize = self.colors.len();
        if positions == self.texcoords.len() && colors % 2 == 0 && colors / 2 == positions {
            Ok(self)
        } else {
            Err(DrawError::MalformedGeometry)
        }
    }
}

/// Something that can be drawn from vertex data of its own.
pub trait Drawable2D<T> {
    /// The vertex data of the object.
    spec fn draw_data(&self) -> VertexData<T>;

    /// The data to draw the object with.
    fn get_draw_data(&self) -> (data: DrawData2D<'_, T>)
        ensures
            data@ == self.draw_data(),
    ;

    /// The data to draw the object with, refused when its arrays do not
    /// describe one common number of vertices.
    fn checked_get_draw_data(&self) -> (r: Result<DrawData2D<'_, T>, DrawError>)
        ensures
            match r {
                Ok(data) => self.draw_data().balanced() && data@ == self.draw_data(),
                Err(e) => !self.draw_data().balanced() && e == DrawError::MalformedGeometry,
            },
    {
        self.get_draw_data().checked()
    }
}

impl<'a, T> Drawable2D<T> for DrawData2D<'a, T> {
    open spec fn draw_data(&self) -> VertexData<T> {
        self@
    }

    fn get_draw_data(&self) -> (data: DrawData2D<'_, T>) {
        DrawData2D {
            positions: self.positions,
            colors: self.colors,
            texcoords: self.texcoords,
            texture: self.texture,
        }
    }
}

/// The corners of the two triangles of a rectangle from `position` to
/// `end`: near-near, far-near, near-far, then far-near, near-far, far-far.
pub open spec fn rect_corners<T>(position: [T; 2], end: [T; 2]) -> Seq<T> {
    seq![
        position[0],
        position[1],
        end[0],
        position[1],
        position[0],
        end[1],
        end[0],
        position[1],
        position[0],
        end[1],
        end[0],
        end[1],
    ]
}

/// The texture coordinates that spread a whole texture over the corners of
/// `rect_corners`, the texture's second axis running against the
/// rectangle's.
pub open spec fn rect_whole_texture<T>(zero: T, one: T) -> Seq<T> {
    seq![zero, one, one, one, zero, zero, one, one, zero, zero, one, zero]
}

/// A rectangle of two triangles.
pub struct Rect2D<T> {
    points: [T; 12],
    colors: [T; 24],
    texcoords: [T; 12],
    texture: Option<TextureId>,
}

impl<T: Copy> Rect2D<T> {
    /// A rectangle from `position` to `end` in one color, without texture.
    /// `zero` is the scalar that stands for zero.
    pub fn new_colored(position: [T; 2], end: [T; 2], color: [T; 4], zero: T) -> (rect: Self)
        ensures
            rect.draw_data() == (VertexData {
                positions: rect_corners(position, end),
                colors: vertex_colors(color, 6),
                texcoords: repeated(zero, 12),
                texture: None,
            }),
    {
        let x: T = position[0];
        let y: T = position[1];
        let x2: T = end[0];
        let y2: T = end[1];
        let r: T = color[0];
        let g: T = color[1];
        let b: T = color[2];
        let a: T = color[3];
        let rect = Rect2D {
            points: [x, y, x2, y, x, y2, x2, y, x, y2, x2, y2],
            colors: [r, g, b, a, r, g, b, a, r, g, b, a, r, g, b, a, r, g, b, a, r, g, b, a],
            texcoords: [zero, zero, zero, zero, zero, zero, zero, zero, zero, zero, zero, zero],
            texture: None,
        };
        assert(rect.points@ =~= rect_corners(position, end));
        assert(rect.colors@ =~= vertex_colors(color, 6));
        assert(rect.texcoords@ =~= repeated(zero, 12));
        rect
    }

    /// A rectangle from `position` to `end` that shows the whole of
    /// `texture`, untinted. `zero` and `one` are the scalars that stand for
    /// zero and one.
    pub fn new_textured(position: [T; 2], end: [T; 2], texture: TextureId, zero: T, one: T) -> (rect:
        Self)
        ensures
            rect.draw_data() == (VertexData {
                positions: rect_corners(position, end),
                colors: repeated(one, 24),
                texcoords: rect_whole_texture(zero, one),
                texture: Some(texture),
            }),
    {
        let x: T = position[0];
        let y: T = position[1];
        let x2: T = end[0];
        let y2: T = end[1];
        let rect = Rect2D {
            points: [x, y, x2, y, x, y2, x2, y, x, y2, x2, y2],
            colors: [
                one,
                one,
                one,
                one,
                one,
                one,
                one,
                one,
                one,
                one,
                one,
                one,
                one,
                one,
                one,
                one,
                one,
                one,
                one,
                one,
                one,
                one,
                one,
                one,
            ],
            texcoords: [zero, one, one, one, zero, zero, one, one, zero, zero, one, zero],
            texture: Some(texture),
        };
        assert(rect.points@ =~= rect_corners(position, end));
        assert(rect.colors@ =~= repeated(one, 24));
        assert(rect.texcoords@ =~= rect_whole_texture(zero, one));
        rect
    }
}

impl<T: Copy> Drawable2D<T> for Rect2D<T> {
    closed spec fn draw_data(&self) -> VertexData<T> {
        VertexData {
            positions: self.points@,
            colors: self.colors@,
            texcoords: self.texcoords@,
            texture: self.texture,
        }
    }

    fn get_draw_data(&self) -> (data: DrawData2D<'_, T>) {
        DrawData2D {
            positions: self.points.as_slice(),
            colors: self.colors.as_slice(),
            texcoords: self.texcoords.as_slice(),
            texture: self.texture,
        }
    }
}

/// Number of triangles of a fan whose rim runs through `points` points,
/// the last of which closes the rim.
pub open spec fn wedge_count(points: nat) -> nat {
    if points == 0 {
        0
    } else {
        (points - 1) as nat
    }
}

/// The triangle list of a fan: triangle `i` has the corners `center`,
/// `rim[i]` and `rim[i + 1]`.
pub open spec fn wedges<T>(center: [T; 2], rim: Seq<[T; 2]>) -> Seq<T> {
    Seq::new(
        6 * wedge_count(rim.len()),
        |k: int|
            if k % 6 < 2 {
                center[k % 6]
            } else if k % 6 < 4 {
                rim[k / 6][k % 6 - 2]
            } else {
                rim[k / 6 + 1][k % 6 - 4]
            },
    )
}

/// The first `count` triangles of `wedges(center, rim)`.
spec fn wedges_prefix<T>(center: [T; 2], rim: Seq<[T; 2]>, count: nat) -> Seq<T> {
    wedges(center, rim).take(6 * count as int)
}

/// The triangle list of a fan.
fn wedge_list<T: Copy>(center: [T; 2], rim: &[[T; 2]]) -> (list: Vec<T>)
    ensures
        list@ == wedges(center, rim@),
{
    let mut list: Vec<T> = Vec::new();
    if rim.len() == 0 {
        assert(list@ =~= wedges(center, rim@));
        return list;
    }
    let count: usize = rim.len() - 1;
    let mut i: usize = 0;
    assert(list@ =~= wedges_prefix(center, rim@, 0));
    while i < count
        invariant
            i <= count,
            count == wedge_count(rim@.len()),
            count + 1 == rim.len(),
            list@ == wedges_prefix(center, rim@, i as nat),
        decreases count - i,
    {
        let from: [T; 2] = rim[i];
        let to: [T; 2] = rim[i + 1];
        list.push(center[0]);
        list.push(center[1]);
        list.push(from[0]);
        list.push(from[1]);
        list.push(to[0]);
        list.push(to[1]);
        i = i + 1;
        assert(list@ =~= wedges_prefix(center, rim@, i as nat));
    }
    assert(list@ =~= wedges(center, rim@));
    list
}

/// `value` repeated `per_wedge` times for each of `count` triangles.
fn repeated_for_wedges<T: Copy>(value: T, per_wedge: u8, count: usize) -> (list: Vec<T>)
    ensures
        list@ == repeated(value, per_wedge as nat * count as nat),
{
    let mut list: Vec<T> = Vec::new();
    let mut i: usize = 0;
    assert(list@ =~= repeated(value, per_wedge as nat * 0));
    while i < count
        invariant
            i <= count,
            list@ == repeated(value, per_wedge as nat * i as nat),
        decreases count - i,
    {
        let mut j: u8 = 0;
        while j < per_wedge
            invariant
                j <= per_wedge,
                i < count,
                list@ == repeated(value, per_wedge as nat * i as nat + j as nat),
            decreases per_wedge - j,
        {
            list.push(value);
            j = j + 1;
            assert(list@ =~= repeated(value, per_wedge as nat * i as nat + j as nat));
        }
        assert(per_wedge as nat * i as nat + per_wedge as nat == per_wedge as nat * (i + 1) as nat)
            by (nonlinear_arith);
        i = i + 1;
    }
    list
}

/// `color` for each corner of `count` triangles.
fn colors_for_wedges<T: Copy>(color: [T; 4], count: usize) -> (list: Vec<T>)
    ensures
        list@ == vertex_colors(color, 3 * count as nat),
{
    let mut list: Vec<T> = Vec::new();
    let mut i: usize = 0;
    assert(list@ =~= vertex_colors(color, 0));
    while i < count
        invariant
            i <= count,
            list@ == vertex_colors(color, 3 * i as nat),
        decreases count - i,
    {
        let mut j: u8 = 0;
        while j < 3
            invariant
                j <= 3,
                i < count,
                list@ == vertex_colors(color, 3 * i as nat + j as nat),
            decreases 3 - j,
        {
            list.push(color[0]);
            list.push(color[1]);
            list.push(color[2]);
            list.push(color[3]);
            j = j + 1;
            assert(list@ =~= vertex_colors(color, 3 * i as nat + j as nat));
        }
        i = i + 1;
    }
    list
}

/// A disk approximated by a fan of triangles around its center.
pub struct Circle2D<T> {
    points: Vec<T>,
    colors: Vec<T>,
    texcoords: Vec<T>,
    texture: Option<TextureId>,
}

impl<T: Copy> Circle2D<T> {
    /// A fan around `center` in one color, without texture. The rim runs
    /// through the points of `rim` in order; to close it, the last point
    /// repeats the first. `zero` is the scalar that stands for zero.
    pub fn new_colored(center: [T; 2], rim: &[[T; 2]], color: [T; 4], zero: T) -> (circle: Self)
        ensures
            circle.draw_data() == (VertexData {
                positions: wedges(center, rim@),
                colors: vertex_colors(color, 3 * wedge_count(rim@.len())),
                texcoords: repeated(zero, 6 * wedge_count(rim@.len())),
                texture: None,
            }),
            circle.draw_data().balanced(),
    {
        let count: usize = if rim.len() == 0 {
            0
        } else {
            rim.len() - 1
        };
        Circle2D {
            points: wedge_list(center, rim),
            colors: colors_for_wedges(color, count),
            texcoords: repeated_for_wedges(zero, 6, count),
            texture: None,
        }
    }

    /// A fan around `center` that shows `texture`, untinted. The texture
    /// coordinates of the center and of each rim point are given; `one` is
    /// the scalar that stands for one. Refused when `rim_texcoords` and
    /// `rim` differ in length.
    pub fn new_textured(
        center: [T; 2],
        rim: &[[T; 2]],
        texture: TextureId,
        one: T,
        center_texcoord: [T; 2],
        rim_texcoords: &[[T; 2]],
    ) -> (r: Result<Self, DrawError>)
        ensures
            match r {
                Ok(circle) => {
                    &&& rim@.len() == rim_texcoords@.len()
                    &&& circle.draw_data() == (VertexData {
                        positions: wedges(center, rim@),
                        colors: repeated(one, 12 * wedge_count(rim@.len())),
                        texcoords: wedges(center_texcoord, rim_texcoords@),
                        texture: Some(texture),
                    })
                    &&& circle.draw_data().balanced()
                },
                Err(e) => rim@.len() != rim_texcoords@.len() && e == DrawError::MalformedGeometry,
            },
    {
        if rim.len() != rim_texcoords.len() {
            return Err(DrawError::MalformedGeometry);
        }
        let count: usize = if rim.len() == 0 {
            0
        } else {
            rim.len() - 1
        };
        Ok(
            Circle2D {
                points: wedge_list(center, rim),
                colors: repeated_for_wedges(one, 12, count),
                texcoords: wedge_list(center_texcoord, rim_texcoords),
                texture: Some(texture),
            },
        )
    }
}

impl<T: Copy> Drawable2D<T> for Circle2D<T> {
    closed spec fn draw_data(&self) -> VertexData<T> {
        VertexData {
            positions: self.points@,
            colors: self.colors@,
            texcoords: self.texcoords@,
            texture: self.texture,
        }
    }

    fn get_draw_data(&self) -> (data: DrawData2D<'_, T>) {
        DrawData2D {
            positions: self.points.as_slice(),
            colors: self.colors.as_slice(),
            texcoords: self.texcoords.as_slice(),
            texture: self.texture,
        }
    }
}

} // verus!
