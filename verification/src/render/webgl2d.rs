//! Batched 2D drawing for a context that draws everything with one texture,
//! typically an atlas. Draw calls name no texture, a batch ends only when it
//! is full, and the scalars that stand for zero and one are known, so that
//! shapes can be drawn in a plain color or with an untinted texture.
use crate::render::batch::{
    draw_call, draw_result, lemma_drawn_well_formed, lemma_queued_well_formed, Batch, DrawCall,
    DrawError, TextureId,
};
use crate::render::canvas2d::{submission, BufferedObject2d, Canvas2d, ObjectBuilder2d};
use crate::render::shapes::{
    lemma_fan_oversized, rect, rect_call, regular, regular_call, repeated, Geometry, MAX_SIDES,
};
use vstd::prelude::*;

verus! {

/// The handle under which the one texture of the context is known.
pub open spec fn shared_texture() -> TextureId {
    TextureId(0)
}

/// The handle under which the one texture of the context is known.
fn shared() -> (texture: TextureId)
    ensures
        texture == shared_texture(),
{
    TextureId(0)
}

/// Whether `batch` is well formed and bound to no texture but the shared
/// one.
pub open spec fn single_texture<T>(batch: Batch<T>) -> bool {
    &&& batch.well_formed()
    &&& batch.texture is Some ==> batch.texture == Some(shared_texture())
}

/// The draw call of a rectangle in a plain color: every corner samples the
/// white pixel at the origin of the texture.
pub open spec fn colored_rect_call<T>(position: [T; 2], end: [T; 2], color: [T; 4], zero: T)
    -> DrawCall<T> {
    rect_call(position, end, color, shared_texture(), [zero, zero], [zero, zero])
}

/// The draw call of a rectangle that shows a region of the texture,
/// untinted.
pub open spec fn textured_rect_call<T>(
    position: [T; 2],
    end: [T; 2],
    texture_position: [T; 2],
    texture_end: [T; 2],
    one: T,
) -> DrawCall<T> {
    rect_call(position, end, [one, one, one, one], shared_texture(), texture_position, texture_end)
}

/// The draw call of a polygon in a plain color.
pub open spec fn colored_regular_call<T>(
    center: [T; 2],
    rim: Seq<[T; 2]>,
    color: [T; 4],
    zero: T,
) -> DrawCall<T> {
    regular_call(
        center,
        rim,
        color,
        shared_texture(),
        [zero, zero],
        repeated([zero, zero], rim.len()),
    )
}

/// The draw call of a polygon that shows the texture, untinted.
pub open spec fn textured_regular_call<T>(
    center: [T; 2],
    rim: Seq<[T; 2]>,
    center_texcoord: [T; 2],
    rim_texcoords: Seq<[T; 2]>,
    one: T,
) -> DrawCall<T> {
    regular_call(
        center,
        rim,
        [one, one, one, one],
        shared_texture(),
        center_texcoord,
        rim_texcoords,
    )
}

/// `point` once for each of `count` rim points.
fn repeated_point<T: Copy>(point: [T; 2], count: usize) -> (points: Vec<[T; 2]>)
    ensures
        points@ == repeated(point, count as nat),
{
    let mut points: Vec<[T; 2]> = Vec::new();
    let mut i: usize = 0;
    assert(points@ =~= repeated(point, 0));
    while i < count
        invariant
            i <= count,
            points@ == repeated(point, i as nat),
        decreases count - i,
    {
        points.push(point);
        i = i + 1;
        assert(points@ =~= repeated(point, i as nat));
    }
    points
}

/// The geometry of a polygon in a plain color, or `None` when it has too
/// many sides to index.
fn colored_regular<T: Copy>(center: [T; 2], rim: &[[T; 2]], color: [T; 4], zero: T) -> (geometry:
    Option<Geometry<T>>)
    ensures
        match geometry {
            Some(g) => rim.len() < MAX_SIDES && g@ == colored_regular_call(
                center,
                rim@,
                color,
                zero,
            ),
            None => rim.len() >= MAX_SIDES,
        },
{
    if rim.len() >= MAX_SIDES {
        return None;
    }
    let rim_texcoords = repeated_point([zero, zero], rim.len());
    regular(center, rim, color, shared(), [zero, zero], rim_texcoords.as_slice())
}

/// Accumulates the geometry of many draw calls into one batch.
pub struct BufferBuilder2d<T> {
    batch: ObjectBuilder2d<T>,
    zero: T,
    one: T,
}

impl<T> View for BufferBuilder2d<T> {
    type V = Batch<T>;

    closed spec fn view(&self) -> Batch<T> {
        self.batch@
    }
}

impl<T: Copy> BufferBuilder2d<T> {
    /// The scalar that stands for zero.
    pub closed spec fn zero(&self) -> T {
        self.zero
    }

    /// The scalar that stands for one.
    pub closed spec fn one(&self) -> T {
        self.one
    }

    /// The invariant of a builder: its content is a well-formed batch of
    /// the shared texture.
    pub open spec fn wf(&self) -> bool {
        single_texture(self@)
    }

    /// Whether `self` knows the same scalars as `before`.
    pub open spec fn same_scalars(&self, before: &Self) -> bool {
        self.zero() == before.zero() && self.one() == before.one()
    }

    /// A builder with nothing drawn into it, for scalars among which `zero`
    /// stands for zero and `one` for one.
    pub fn new(zero: T, one: T) -> (builder: Self)
        ensures
            builder.wf(),
            builder@ == Batch::<T>::empty(),
            builder.zero() == zero,
            builder.one() == one,
    {
        BufferBuilder2d { batch: ObjectBuilder2d::new(), zero, one }
    }

    /// Merges the draw call held in `geometry` into the batch.
    fn draw(&mut self, geometry: &Geometry<T>) -> (r: Result<(), DrawError>)
        requires
            old(self).wf(),
            geometry@.texture == shared_texture(),
        ensures
            final(self).wf(),
            final(self).same_scalars(old(self)),
            r == draw_result(old(self)@.refusal(geometry@)),
            final(self)@ == old(self)@.drawn(geometry@),
    {
        self.batch.draw(geometry)
    }

    /// Merges one draw call into the batch. A refused call leaves the
    /// builder as it was.
    pub fn draw_raw(&mut self, indexes: &[u16], positions: &[T], colors: &[T], texcoords: &[T]) -> (r:
        Result<(), DrawError>)
        requires
            old(self).wf(),
        ensures
            final(self).wf(),
            final(self).same_scalars(old(self)),
            r == draw_result(
                old(self)@.refusal(
                    draw_call(indexes@, positions@, colors@, texcoords@, shared_texture()),
                ),
            ),
            final(self)@ == old(self)@.drawn(
                draw_call(indexes@, positions@, colors@, texcoords@, shared_texture()),
            ),
            r != Err::<(), DrawError>(DrawError::TextureMismatch),
    {
        self.batch.draw_raw(indexes, positions, colors, texcoords, shared())
    }

    /// Draws the rectangle between `position` and `end`, showing the region
    /// of the texture between `texture_position` and `texture_end`, tinted
    /// with `color`.
    pub fn draw_rect(
        &mut self,
        position: [T; 2],
        end: [T; 2],
        color: [T; 4],
        texture_position: [T; 2],
        texture_end: [T; 2],
    ) -> (r: Result<(), DrawError>)
        requires
            old(self).wf(),
        ensures
            final(self).wf(),
            final(self).same_scalars(old(self)),
            r == draw_result(
                old(self)@.refusal(
                    rect_call(
                        position,
                        end,
                        color,
                        shared_texture(),
                        texture_position,
                        texture_end,
                    ),
                ),
            ),
            final(self)@ == old(self)@.drawn(
                rect_call(position, end, color, shared_texture(), texture_position, texture_end),
            ),
    {
        let geometry = rect(position, end, color, shared(), texture_position, texture_end);
        self.draw(&geometry)
    }

    /// Draws the rectangle between `position` and `end` in a plain color.
    pub fn draw_colored_rect(&mut self, position: [T; 2], end: [T; 2], color: [T; 4]) -> (r: Result<
        (),
        DrawError,
    >)
        requires
            old(self).wf(),
        ensures
            final(self).wf(),
            final(self).same_scalars(old(self)),
            r == draw_result(
                old(self)@.refusal(colored_rect_call(position, end, color, old(self).zero())),
            ),
            final(self)@ == old(self)@.drawn(
                colored_rect_call(position, end, color, old(self).zero()),
            ),
    {
        let zero: T = self.zero;
        self.draw_rect(position, end, color, [zero, zero], [zero, zero])
    }

    /// Draws the rectangle between `position` and `end`, showing a region
    /// of the texture, untinted.
    pub fn draw_textured_rect(
        &mut self,
        position: [T; 2],
        end: [T; 2],
        texture_position: [T; 2],
        texture_end: [T; 2],
    ) -> (r: Result<(), DrawError>)
        requires
            old(self).wf(),
        ensures
            final(self).wf(),
            final(self).same_scalars(old(self)),
            r == draw_result(
                old(self)@.refusal(
                    textured_rect_call(
                        position,
                        end,
                        texture_position,
                        texture_end,
                        old(self).one(),
                    ),
                ),
            ),
            final(self)@ == old(self)@.drawn(
                textured_rect_call(position, end, texture_position, texture_end, old(self).one()),
            ),
    {
        let one: T = self.one;
        self.draw_rect(position, end, [one, one, one, one], texture_position, texture_end)
    }

    /// Draws a polygon as a fan around `center`, one triangle for each point
    /// of `rim`.
    pub fn draw_regular(
        &mut self,
        center: [T; 2],
        rim: &[[T; 2]],
        color: [T; 4],
        center_texcoord: [T; 2],
        rim_texcoords: &[[T; 2]],
    ) -> (r: Result<(), DrawError>)
        requires
            old(self).wf(),
        ensures
            final(self).wf(),
            final(self).same_scalars(old(self)),
            r == draw_result(
                old(self)@.refusal(
                    regular_call(
                        center,
                        rim@,
                        color,
                        shared_texture(),
                        center_texcoord,
                        rim_texcoords@,
                    ),
                ),
            ),
            final(self)@ == old(self)@.drawn(
                regular_call(
                    center,
                    rim@,
                    color,
                    shared_texture(),
                    center_texcoord,
                    rim_texcoords@,
                ),
            ),
    {
        self.batch.draw_regular(center, rim, color, shared(), center_texcoord, rim_texcoords)
    }

    /// Draws a polygon in a plain color.
    pub fn draw_colored_regular(&mut self, center: [T; 2], rim: &[[T; 2]], color: [T; 4]) -> (r:
        Result<(), DrawError>)
        requires
            old(self).wf(),
        ensures
            final(self).wf(),
            final(self).same_scalars(old(self)),
            r == draw_result(
                old(self)@.refusal(colored_regular_call(center, rim@, color, old(self).zero())),
            ),
            final(self)@ == old(self)@.drawn(
                colored_regular_call(center, rim@, color, old(self).zero()),
            ),
    {
        match colored_regular(center, rim, color, self.zero) {
            Some(geometry) => self.draw(&geometry),
            None => {
                proof {
                    lemma_fan_oversized(rim@.len());
                }
                Err(DrawError::CapacityExceeded)
            },
        }
    }

    /// Draws a polygon that shows the texture, untinted.
    pub fn draw_textured_regular(
        &mut self,
        center: [T; 2],
        rim: &[[T; 2]],
        center_texcoord: [T; 2],
        rim_texcoords: &[[T; 2]],
    ) -> (r: Result<(), DrawError>)
        requires
            old(self).wf(),
        ensures
            final(self).wf(),
            final(self).same_scalars(old(self)),
            r == draw_result(
                old(self)@.refusal(
                    textured_regular_call(
                        center,
                        rim@,
                        center_texcoord,
                        rim_texcoords@,
                        old(self).one(),
                    ),
                ),
            ),
            final(self)@ == old(self)@.drawn(
                textured_regular_call(
                    center,
                    rim@,
                    center_texcoord,
                    rim_texcoords@,
                    old(self).one(),
                ),
            ),
    {
        let one: T = self.one;
        self.draw_regular(center, rim, [one, one, one, one], center_texcoord, rim_texcoords)
    }
}

/// An immutable snapshot of a finished batch, ready to be handed to the GPU
/// and drawn any number of times. It may be empty.
pub struct Buffer2d<T> {
    vertex_count: u16,
    indexes: Vec<u16>,
    positions: Vec<T>,
    colors: Vec<T>,
    texcoords: Vec<T>,
    drawn: bool,
}

impl<T> View for Buffer2d<T> {
    type V = Batch<T>;

    closed spec fn view(&self) -> Batch<T> {
        Batch {
            vertex_offset: self.vertex_count as int,
            indexes: self.indexes@,
            positions: self.positions@,
            colors: self.colors@,
            texcoords: self.texcoords@,
            texture: if self.drawn {
                Some(shared_texture())
            } else {
                None
            },
        }
    }
}

impl<T: Copy> Buffer2d<T> {
    /// The snapshot that `taken` holds, or the empty one.
    fn from_taken(taken: Option<BufferedObject2d<T>>) -> (buffer: Self)
        requires
            match submission(taken) {
                Some(batch) => batch.texture == Some(shared_texture()),
                None => true,
            },
        ensures
            buffer@ == (match submission(taken) {
                Some(batch) => batch,
                None => Batch::<T>::empty(),
            }),
    {
        match taken {
            Some(snapshot) => {
                let (vertex_count, indexes, positions, colors, texcoords) = snapshot.into_parts();
                Buffer2d { vertex_count, indexes, positions, colors, texcoords, drawn: true }
            },
            None => Buffer2d {
                vertex_count: 0,
                indexes: Vec::new(),
                positions: Vec::new(),
                colors: Vec::new(),
                texcoords: Vec::new(),
                drawn: false,
            },
        }
    }

    /// Number of indices one draw of this buffer submits.
    pub fn count(&self) -> (n: usize)
        ensures
            n == self@.indexes.len(),
    {
        self.indexes.len()
    }

    /// Number of vertex slots the indices address.
    pub fn vertex_count(&self) -> (n: u16)
        ensures
            n == self@.vertex_offset,
    {
        self.vertex_count
    }

    /// The indices, each counted from the first vertex of the buffer.
    pub fn indexes(&self) -> (data: &[u16])
        ensures
            data@ == self@.indexes,
    {
        self.indexes.as_slice()
    }

    /// Two scalars for each vertex.
    pub fn positions(&self) -> (data: &[T])
        ensures
            data@ == self@.positions,
    {
        self.positions.as_slice()
    }

    /// Four scalars for each vertex.
    pub fn colors(&self) -> (data: &[T])
        ensures
            data@ == self@.colors,
    {
        self.colors.as_slice()
    }

    /// Two scalars for each vertex.
    pub fn texcoords(&self) -> (data: &[T])
        ensures
            data@ == self@.texcoords,
    {
        self.texcoords.as_slice()
    }
}

/// The content of what a context hands out for submission.
pub open spec fn handed<T>(buffer: Option<Buffer2d<T>>) -> Option<Batch<T>> {
    match buffer {
        Some(b) => Some(b@),
        None => None,
    }
}

/// The content of what a context answers to a draw call.
pub open spec fn answer<T>(r: Result<Option<Buffer2d<T>>, DrawError>) -> Result<
    Option<Batch<T>>,
    DrawError,
> {
    match r {
        Ok(buffer) => Ok(handed(buffer)),
        Err(e) => Err(e),
    }
}

/// The batching half of a drawing context with one texture: it owns the
/// pending batch of direct draw calls and decides when that batch must go
/// to the GPU.
pub struct Webgl2d<T> {
    direct_draw: Canvas2d<T>,
    zero: T,
    one: T,
}

impl<T> View for Webgl2d<T> {
    type V = Batch<T>;

    /// The pending batch.
    closed spec fn view(&self) -> Batch<T> {
        self.direct_draw@
    }
}

impl<T: Copy> Webgl2d<T> {
    /// The scalar that stands for zero.
    pub closed spec fn zero(&self) -> T {
        self.zero
    }

    /// The scalar that stands for one.
    pub closed spec fn one(&self) -> T {
        self.one
    }

    /// The invariant of a context: its pending batch is a well-formed batch
    /// of the shared texture.
    pub open spec fn wf(&self) -> bool {
        single_texture(self@)
    }

    /// Whether `self` knows the same scalars as `before`.
    pub open spec fn same_scalars(&self, before: &Self) -> bool {
        self.zero() == before.zero() && self.one() == before.one()
    }

    /// A context with no pending geometry, for scalars among which `zero`
    /// stands for zero and `one` for one.
    pub fn new(zero: T, one: T) -> (context: Self)
        ensures
            context.wf(),
            context@ == Batch::<T>::empty(),
            context.zero() == zero,
            context.one() == one,
    {
        Webgl2d { direct_draw: Canvas2d::new(), zero, one }
    }

    /// Turns the content of `buffer` into a snapshot and empties `buffer`.
    /// The snapshot of a builder that was never drawn into is empty.
    pub fn build_buffer(&self, buffer: &mut BufferBuilder2d<T>) -> (built: Buffer2d<T>)
        requires
            old(buffer).wf(),
        ensures
            final(buffer).wf(),
            final(buffer).same_scalars(old(buffer)),
            final(buffer)@ == Batch::<T>::empty(),
            built@ == old(buffer)@,
    {
        Buffer2d::from_taken(self.direct_draw.build_buffer(&mut buffer.batch))
    }

    /// Ends the pending batch and returns it, empty or not, as the draw
    /// call to submit now.
    pub fn flush(&mut self) -> (submitted: Buffer2d<T>)
        requires
            old(self).wf(),
        ensures
            final(self).wf(),
            final(self).same_scalars(old(self)),
            final(self)@ == Batch::<T>::empty(),
            submitted@ == old(self)@,
    {
        Buffer2d::from_taken(self.direct_draw.flush())
    }

    /// Queues the draw call held in `geometry`.
    fn draw(&mut self, geometry: &Geometry<T>) -> (r: Result<Option<Buffer2d<T>>, DrawError>)
        requires
            old(self).wf(),
            geometry@.texture == shared_texture(),
        ensures
            final(self).wf(),
            final(self).same_scalars(old(self)),
            answer(r) == old(self)@.queue_result(geometry@),
            final(self)@ == old(self)@.queued(geometry@),
    {
        match self.direct_draw.draw(geometry) {
            Ok(Some(snapshot)) => Ok(Some(Buffer2d::from_taken(Some(snapshot)))),
            Ok(None) => Ok(None),
            Err(e) => Err(e),
        }
    }

    /// Queues one draw call. When the pending batch cannot address the new
    /// vertices, it is ended first and returned for submission; the new
    /// geometry then starts a fresh batch. A refused call changes nothing
    /// and submits nothing.
    pub fn draw_raw(&mut self, indexes: &[u16], positions: &[T], colors: &[T], texcoords: &[T]) -> (r:
        Result<Option<Buffer2d<T>>, DrawError>)
        requires
            old(self).wf(),
        ensures
            final(self).wf(),
            final(self).same_scalars(old(self)),
            answer(r) == old(self)@.queue_result(
                draw_call(indexes@, positions@, colors@, texcoords@, shared_texture()),
            ),
            final(self)@ == old(self)@.queued(
                draw_call(indexes@, positions@, colors@, texcoords@, shared_texture()),
            ),
    {
        match self.direct_draw.draw_raw(indexes, positions, colors, texcoords, shared()) {
            Ok(Some(snapshot)) => Ok(Some(Buffer2d::from_taken(Some(snapshot)))),
            Ok(None) => Ok(None),
            Err(e) => Err(e),
        }
    }

    /// Queues the rectangle between `position` and `end`, showing the
    /// region of the texture between `texture_position` and `texture_end`,
    /// tinted with `color`.
    pub fn draw_rect(
        &mut self,
        position: [T; 2],
        end: [T; 2],
        color: [T; 4],
        texture_position: [T; 2],
        texture_end: [T; 2],
    ) -> (r: Result<Option<Buffer2d<T>>, DrawError>)
        requires
            old(self).wf(),
        ensures
            final(self).wf(),
            final(self).same_scalars(old(self)),
            answer(r) == old(self)@.queue_result(
                rect_call(position, end, color, shared_texture(), texture_position, texture_end),
            ),
            final(self)@ == old(self)@.queued(
                rect_call(position, end, color, shared_texture(), texture_position, texture_end),
            ),
    {
        let geometry = rect(position, end, color, shared(), texture_position, texture_end);
        self.draw(&geometry)
    }

    /// Queues the rectangle between `position` and `end` in a plain color.
    pub fn draw_colored_rect(&mut self, position: [T; 2], end: [T; 2], color: [T; 4]) -> (r: Result<
        Option<Buffer2d<T>>,
        DrawError,
    >)
        requires
            old(self).wf(),
        ensures
            final(self).wf(),
            final(self).same_scalars(old(self)),
            answer(r) == old(self)@.queue_result(
                colored_rect_call(position, end, color, old(self).zero()),
            ),
            final(self)@ == old(self)@.queued(
                colored_rect_call(position, end, color, old(self).zero()),
            ),
    {
        let zero: T = self.zero;
        self.draw_rect(position, end, color, [zero, zero], [zero, zero])
    }

    /// Queues the rectangle between `position` and `end`, showing a region
    /// of the texture, untinted.
    pub fn draw_textured_rect(
        &mut self,
        position: [T; 2],
        end: [T; 2],
        texture_position: [T; 2],
        texture_end: [T; 2],
    ) -> (r: Result<Option<Buffer2d<T>>, DrawError>)
        requires
            old(self).wf(),
        ensures
            final(self).wf(),
            final(self).same_scalars(old(self)),
            answer(r) == old(self)@.queue_result(
                textured_rect_call(position, end, texture_position, texture_end, old(self).one()),
            ),
            final(self)@ == old(self)@.queued(
                textured_rect_call(position, end, texture_position, texture_end, old(self).one()),
            ),
    {
        let one: T = self.one;
        self.draw_rect(position, end, [one, one, one, one], texture_position, texture_end)
    }

    /// Queues a polygon as a fan around `center`, one triangle for each
    /// point of `rim`.
    pub fn draw_regular(
        &mut self,
        center: [T; 2],
        rim: &[[T; 2]],
        color: [T; 4],
        center_texcoord: [T; 2],
        rim_texcoords: &[[T; 2]],
    ) -> (r: Result<Option<Buffer2d<T>>, DrawError>)
        requires
            old(self).wf(),
        ensures
            final(self).wf(),
            final(self).same_scalars(old(self)),
            answer(r) == old(self)@.queue_result(
                regular_call(
                    center,
                    rim@,
                    color,
                    shared_texture(),
                    center_texcoord,
                    rim_texcoords@,
                ),
            ),
            final(self)@ == old(self)@.queued(
                regular_call(
                    center,
                    rim@,
                    color,
                    shared_texture(),
                    center_texcoord,
                    rim_texcoords@,
                ),
            ),
    {
        match regular(center, rim, color, shared(), center_texcoord, rim_texcoords) {
            Some(geometry) => self.draw(&geometry),
            None => {
                proof {
                    lemma_fan_oversized(rim@.len());
                }
                if rim.len() != rim_texcoords.len() {
                    Err(DrawError::MalformedGeometry)
                } else {
                    Err(DrawError::CapacityExceeded)
                }
            },
        }
    }

    /// Queues a polygon in a plain color.
    pub fn draw_colored_regular(&mut self, center: [T; 2], rim: &[[T; 2]], color: [T; 4]) -> (r:
        Result<Option<Buffer2d<T>>, DrawError>)
        requires
            old(self).wf(),
        ensures
            final(self).wf(),
            final(self).same_scalars(old(self)),
            answer(r) == old(self)@.queue_result(
                colored_regular_call(center, rim@, color, old(self).zero()),
            ),
            final(self)@ == old(self)@.queued(
                colored_regular_call(center, rim@, color, old(self).zero()),
            ),
    {
        match colored_regular(center, rim, color, self.zero) {
            Some(geometry) => self.draw(&geometry),
            None => {
                proof {
                    lemma_fan_oversized(rim@.len());
                }
                Err(DrawError::CapacityExceeded)
            },
        }
    }

    /// Queues a polygon that shows the texture, untinted.
    pub fn draw_textured_regular(
        &mut self,
        center: [T; 2],
        rim: &[[T; 2]],
        center_texcoord: [T; 2],
        rim_texcoords: &[[T; 2]],
    ) -> (r: Result<Option<Buffer2d<T>>, DrawError>)
        requires
            old(self).wf(),
        ensures
            final(self).wf(),
            final(self).same_scalars(old(self)),
            answer(r) == old(self)@.queue_result(
                textured_regular_call(
                    center,
                    rim@,
                    center_texcoord,
                    rim_texcoords@,
                    old(self).one(),
                ),
            ),
            final(self)@ == old(self)@.queued(
                textured_regular_call(
                    center,
                    rim@,
                    center_texcoord,
                    rim_texcoords@,
                    old(self).one(),
                ),
            ),
    {
        let one: T = self.one;
        self.draw_regular(center, rim, [one, one, one, one], center_texcoord, rim_texcoords)
    }
}

/// A pending batch of the shared texture stays one whatever is queued, and
/// is never ended for its texture: a batch is handed out only when the
/// queued draw call does not fit behind it.
pub proof fn lemma_single_texture_queue<T>(pending: Batch<T>, call: DrawCall<T>)
    requires
        single_texture(pending),
        call.texture == shared_texture(),
    ensures
        single_texture(pending.queued(call)),
        single_texture(pending.drawn(call)),
        pending.refusal(call) != Some(DrawError::TextureMismatch),
        pending.submitted(call) is Some ==> pending.vertex_offset + call.span() > 65535,
{
    lemma_queued_well_formed(pending, call);
    lemma_drawn_well_formed(pending, call);
}

} // verus!
