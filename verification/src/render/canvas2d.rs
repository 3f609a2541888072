//! Batched 2D drawing: a builder that merges draw calls into one indexed
//! vertex stream, immutable snapshots of finished batches, and a canvas that
//! decides when its pending batch has to be submitted.
//!
//! Vertex attributes are carried as values of a caller-chosen scalar type `T`;
//! the batching rules never look inside them.
use crate::render::batch::{
    draw_call, draw_result, lemma_max_index, max_index, parallel_lengths, rebase, Batch,
    DrawError, TextureId, MAX_VERTEX_OFFSET,
};
use crate::render::shapes::{
    lemma_fan_oversized, lemma_list_oversized, rect, rect_call, regular, regular_call, text,
    text_call, Geometry,
};
use vstd::prelude::*;

verus! {

/// Appends a copy of `source` to `target`.
fn extend_copied<T: Copy>(target: &mut Vec<T>, source: &[T])
    ensures
        final(target)@ == old(target)@ + source@,
{
    let mut i: usize = 0;
    while i < source.len()
        invariant
            i <= source.len(),
            target@ == old(target)@ + source@.take(i as int),
        decreases source.len() - i,
    {
        target.push(source[i]);
        i = i + 1;
    }
    assert(source@.take(source.len() as int) == source@);
}

/// A copy of `source`.
fn copy_of<T: Copy>(source: &Vec<T>) -> (copy: Vec<T>)
    ensures
        copy@ == source@,
{
    let mut copy: Vec<T> = Vec::with_capacity(source.len());
    extend_copied(&mut copy, source.as_slice());
    copy
}

/// The largest element of `indexes`, zero when it is empty.
fn largest_index(indexes: &[u16]) -> (top: u16)
    ensures
        top == max_index(indexes@),
{
    let mut top: u16 = 0;
    let mut i: usize = 0;
    while i < indexes.len()
        invariant
            i <= indexes.len(),
            top == max_index(indexes@.take(i as int)),
        decreases indexes.len() - i,
    {
        assert(indexes@.take(i + 1).drop_last() == indexes@.take(i as int));
        if indexes[i] > top {
            top = indexes[i];
        }
        i = i + 1;
    }
    assert(indexes@.take(indexes.len() as int) == indexes@);
    top
}

/// Whether attribute arrays of these lengths describe one common vertex
/// count.
fn lengths_agree(positions: usize, colors: usize, texcoords: usize) -> (r: bool)
    ensures
        r == parallel_lengths(positions as nat, colors as nat, texcoords as nat),
{
    positions == texcoords && colors % 2 == 0 && colors / 2 == positions
}

/// Accumulates the geometry of many draw calls into one batch.
pub struct ObjectBuilder2d<T> {
    index_counter: u16,
    indexes: Vec<u16>,
    positions: Vec<T>,
    colors: Vec<T>,
    texcoords: Vec<T>,
    texture: Option<TextureId>,
}

impl<T> View for ObjectBuilder2d<T> {
    type V = Batch<T>;

    closed spec fn view(&self) -> Batch<T> {
        Batch {
            vertex_offset: self.index_counter as int,
            indexes: self.indexes@,
            positions: self.positions@,
            colors: self.colors@,
            texcoords: self.texcoords@,
            texture: self.texture,
        }
    }
}

impl<T: Copy> ObjectBuilder2d<T> {
    /// The invariant of a builder: its content is a well-formed batch.
    pub open spec fn wf(&self) -> bool {
        self@.well_formed()
    }

    /// A builder with nothing drawn into it.
    pub fn new() -> (builder: Self)
        ensures
            builder.wf(),
            builder@ == Batch::<T>::empty(),
    {
        ObjectBuilder2d {
            index_counter: 0,
            indexes: Vec::new(),
            positions: Vec::new(),
            colors: Vec::new(),
            texcoords: Vec::new(),
            texture: None,
        }
    }

    /// The texture the batch is bound to, once something was drawn.
    pub fn texture(&self) -> (texture: Option<TextureId>)
        ensures
            texture == self@.texture,
    {
        self.texture
    }

    /// Number of vertex slots the batch has reserved.
    pub fn vertex_offset(&self) -> (offset: u16)
        ensures
            offset == self@.vertex_offset,
    {
        self.index_counter
    }

    /// Number of indices the batch holds.
    pub fn index_count(&self) -> (count: usize)
        ensures
            count == self@.indexes.len(),
    {
        self.indexes.len()
    }

    /// Merges one draw call into the batch: the indices are moved behind
    /// the vertices already present and the attributes are appended. A
    /// refused call leaves the builder as it was.
    pub fn draw_raw(
        &mut self,
        indexes: &[u16],
        positions: &[T],
        colors: &[T],
        texcoords: &[T],
        texture: TextureId,
    ) -> (r: Result<(), DrawError>)
        requires
            old(self).wf(),
        ensures
            final(self).wf(),
            r == draw_result(
                old(self)@.refusal(draw_call(indexes@, positions@, colors@, texcoords@, texture)),
            ),
            final(self)@ == old(self)@.drawn(
                draw_call(indexes@, positions@, colors@, texcoords@, texture),
            ),
    {
        if !lengths_agree(positions.len(), colors.len(), texcoords.len()) {
            return Err(DrawError::MalformedGeometry);
        }
        if let Some(bound) = self.texture {
            if bound != texture {
                return Err(DrawError::TextureMismatch);
            }
        }
        let top: u16 = largest_index(indexes);
        if top >= MAX_VERTEX_OFFSET - self.index_counter {
            return Err(DrawError::CapacityExceeded);
        }
        let offset: u16 = self.index_counter;
        proof {
            lemma_max_index(indexes@);
        }
        let mut i: usize = 0;
        while i < indexes.len()
            invariant
                i <= indexes.len(),
                offset + max_index(indexes@) < MAX_VERTEX_OFFSET,
                forall|k: int| 0 <= k < indexes.len() ==> indexes[k] <= max_index(indexes@),
                self.indexes@ == old(self).indexes@ + rebase(indexes@.take(i as int), offset as int),
                self.index_counter == offset,
                self.positions == old(self).positions,
                self.colors == old(self).colors,
                self.texcoords == old(self).texcoords,
                self.texture == old(self).texture,
            decreases indexes.len() - i,
        {
            self.indexes.push(indexes[i] + offset);
            i = i + 1;
        }
        assert(indexes@.take(indexes.len() as int) == indexes@);
        self.index_counter = offset + top + 1;
        extend_copied(&mut self.positions, positions);
        extend_copied(&mut self.colors, colors);
        extend_copied(&mut self.texcoords, texcoords);
        self.texture = Some(texture);
        Ok(())
    }
}

/// A region of a texture, from `position` to `end` in texture coordinates.
pub struct TextureRect<T> {
    pub texture: TextureId,
    pub position: [T; 2],
    pub end: [T; 2],
}

impl<T: Copy> TextureRect<T> {
    /// The region of `texture` between two corners.
    pub fn new(texture: TextureId, position: [T; 2], end: [T; 2]) -> (region: Self)
        ensures
            region.texture == texture,
            region.position == position,
            region.end == end,
    {
        TextureRect { texture, position, end }
    }
}

impl<T: Copy> ObjectBuilder2d<T> {
    /// Merges the draw call held in `geometry` into the batch.
    pub fn draw(&mut self, geometry: &Geometry<T>) -> (r: Result<(), DrawError>)
        requires
            old(self).wf(),
        ensures
            final(self).wf(),
            r == draw_result(old(self)@.refusal(geometry@)),
            final(self)@ == old(self)@.drawn(geometry@),
    {
        self.draw_raw(
            geometry.indexes.as_slice(),
            geometry.positions.as_slice(),
            geometry.colors.as_slice(),
            geometry.texcoords.as_slice(),
            geometry.texture,
        )
    }

    /// Draws the rectangle between `position` and `end`, showing the region
    /// `texture` tinted with `color`: four vertices and two triangles.
    pub fn draw_rect(
        &mut self,
        position: [T; 2],
        end: [T; 2],
        color: [T; 4],
        texture: &TextureRect<T>,
    ) -> (r: Result<(), DrawError>)
        requires
            old(self).wf(),
        ensures
            final(self).wf(),
            r == draw_result(
                old(self)@.refusal(
                    rect_call(
                        position,
                        end,
                        color,
                        texture.texture,
                        texture.position,
                        texture.end,
                    ),
                ),
            ),
            final(self)@ == old(self)@.drawn(
                rect_call(position, end, color, texture.texture, texture.position, texture.end),
            ),
    {
        let geometry = rect(
            position,
            end,
            color,
            texture.texture,
            texture.position,
            texture.end,
        );
        self.draw(&geometry)
    }

    /// Draws a polygon as a fan around `center`, one triangle for each point
    /// of `rim`; `rim_texcoords` gives the texture coordinates of the rim
    /// points in the same order.
    pub fn draw_regular(
        &mut self,
        center: [T; 2],
        rim: &[[T; 2]],
        color: [T; 4],
        texture: TextureId,
        center_texcoord: [T; 2],
        rim_texcoords: &[[T; 2]],
    ) -> (r: Result<(), DrawError>)
        requires
            old(self).wf(),
        ensures
            final(self).wf(),
            r == draw_result(
                old(self)@.refusal(
                    regular_call(center, rim@, color, texture, center_texcoord, rim_texcoords@),
                ),
            ),
            final(self)@ == old(self)@.drawn(
                regular_call(center, rim@, color, texture, center_texcoord, rim_texcoords@),
            ),
    {
        match regular(center, rim, color, texture, center_texcoord, rim_texcoords) {
            Some(geometry) => self.draw(&geometry),
            None => {
                proof {
                    lemma_fan_oversized(rim@.len());
                }
                if rim.len() != rim_texcoords.len() {
                    Err(DrawError::MalformedGeometry)
                } else if self.bound_elsewhere(texture) {
                    Err(DrawError::TextureMismatch)
                } else {
                    Err(DrawError::CapacityExceeded)
                }
            },
        }
    }

    /// Draws a glyph mesh: `vertices` holds two scalars for each vertex of
    /// a triangle list, `texcoords` the texture coordinates in the same
    /// order.
    pub fn draw_text(
        &mut self,
        vertices: &[T],
        color: [T; 4],
        texture: TextureId,
        texcoords: &[T],
    ) -> (r: Result<(), DrawError>)
        requires
            old(self).wf(),
        ensures
            final(self).wf(),
            r == draw_result(old(self)@.refusal(text_call(vertices@, color, texture, texcoords@))),
            final(self)@ == old(self)@.drawn(text_call(vertices@, color, texture, texcoords@)),
    {
        match text(vertices, color, texture, texcoords) {
            Some(geometry) => self.draw(&geometry),
            None => {
                proof {
                    lemma_list_oversized(vertices@.len() / 2);
                }
                if vertices.len() % 2 != 0 || vertices.len() != texcoords.len() {
                    Err(DrawError::MalformedGeometry)
                } else if self.bound_elsewhere(texture) {
                    Err(DrawError::TextureMismatch)
                } else {
                    Err(DrawError::CapacityExceeded)
                }
            },
        }
    }

    /// Whether the batch is bound to a texture other than `texture`.
    fn bound_elsewhere(&self, texture: TextureId) -> (r: bool)
        ensures
            r == (self@.texture is Some && self@.texture != Some(texture)),
    {
        match self.texture {
            Some(bound) => bound != texture,
            None => false,
        }
    }
}

/// An immutable snapshot of a finished batch, ready to be handed to the GPU
/// and drawn any number of times.
pub struct BufferedObject2d<T> {
    vertex_count: u16,
    indexes: Vec<u16>,
    positions: Vec<T>,
    colors: Vec<T>,
    texcoords: Vec<T>,
    texture: TextureId,
}

impl<T> View for BufferedObject2d<T> {
    type V = Batch<T>;

    closed spec fn view(&self) -> Batch<T> {
        Batch {
            vertex_offset: self.vertex_count as int,
            indexes: self.indexes@,
            positions: self.positions@,
            colors: self.colors@,
            texcoords: self.texcoords@,
            texture: Some(self.texture),
        }
    }
}

impl<T: Copy> BufferedObject2d<T> {
    /// The snapshot taken apart: the number of vertex slots, then indices,
    /// positions, colors and texture coordinates.
    pub(crate) fn into_parts(self) -> (parts: (u16, Vec<u16>, Vec<T>, Vec<T>, Vec<T>))
        ensures
            parts.0 == self@.vertex_offset,
            parts.1@ == self@.indexes,
            parts.2@ == self@.positions,
            parts.3@ == self@.colors,
            parts.4@ == self@.texcoords,
    {
        (self.vertex_count, self.indexes, self.positions, self.colors, self.texcoords)
    }

    /// Number of indices one draw of this buffer submits.
    pub fn count(&self) -> (n: usize)
        ensures
            n == self@.indexes.len(),
    {
        self.indexes.len()
    }

    /// Number of vertex slots the indices address.
    pub fn vertex_count(&self) -> (n: u16)
        ensures
            n == self@.vertex_offset,
    {
        self.vertex_count
    }

    /// The texture to bind when drawing this buffer.
    pub fn texture(&self) -> (texture: TextureId)
        ensures
            self@.texture == Some(texture),
    {
        self.texture
    }

    /// The indices, each counted from the first vertex of the buffer.
    pub fn indexes(&self) -> (data: &[u16])
        ensures
            data@ == self@.indexes,
    {
        self.indexes.as_slice()
    }

    /// Two scalars for each vertex.
    pub fn positions(&self) -> (data: &[T])
        ensures
            data@ == self@.positions,
    {
        self.positions.as_slice()
    }

    /// Four scalars for each vertex.
    pub fn colors(&self) -> (data: &[T])
        ensures
            data@ == self@.colors,
    {
        self.colors.as_slice()
    }

    /// Two scalars for each vertex.
    pub fn texcoords(&self) -> (data: &[T])
        ensures
            data@ == self@.texcoords,
    {
        self.texcoords.as_slice()
    }
}

/// The content of what a canvas hands out for submission.
pub open spec fn submission<T>(handed: Option<BufferedObject2d<T>>) -> Option<Batch<T>> {
    match handed {
        Some(buffer) => Some(buffer@),
        None => None,
    }
}

/// The content of what a canvas answers to a draw call.
pub open spec fn outcome<T>(answer: Result<Option<BufferedObject2d<T>>, DrawError>) -> Result<
    Option<Batch<T>>,
    DrawError,
> {
    match answer {
        Ok(handed) => Ok(submission(handed)),
        Err(e) => Err(e),
    }
}

/// Takes the content out of `builder`, leaving it empty with its storage
/// kept for the next batch.
fn take_batch<T: Copy>(builder: &mut ObjectBuilder2d<T>) -> (taken: Option<BufferedObject2d<T>>)
    requires
        old(builder).wf(),
    ensures
        final(builder).wf(),
        final(builder)@ == Batch::<T>::empty(),
        submission(taken) == (if old(builder)@.texture is Some {
            Some(old(builder)@)
        } else {
            None
        }),
{
    match builder.texture {
        None => None,
        Some(texture) => {
            let taken = BufferedObject2d {
                vertex_count: builder.index_counter,
                indexes: copy_of(&builder.indexes),
                positions: copy_of(&builder.positions),
                colors: copy_of(&builder.colors),
                texcoords: copy_of(&builder.texcoords),
                texture,
            };
            builder.index_counter = 0;
            builder.indexes.clear();
            builder.positions.clear();
            builder.colors.clear();
            builder.texcoords.clear();
            builder.texture = None;
            Some(taken)
        },
    }
}

/// The batching half of a drawing context: it owns the pending batch of
/// direct draw calls and decides when that batch must go to the GPU.
pub struct Canvas2d<T> {
    direct_draw_builder: ObjectBuilder2d<T>,
}

impl<T> View for Canvas2d<T> {
    type V = Batch<T>;

    /// The pending batch.
    closed spec fn view(&self) -> Batch<T> {
        self.direct_draw_builder@
    }
}

impl<T: Copy> Canvas2d<T> {
    /// The invariant of a canvas: its pending batch is well formed.
    pub open spec fn wf(&self) -> bool {
        self@.well_formed()
    }

    /// A canvas with no pending geometry.
    pub fn new() -> (canvas: Self)
        ensures
            canvas.wf(),
            canvas@ == Batch::<T>::empty(),
    {
        Canvas2d { direct_draw_builder: ObjectBuilder2d::new() }
    }

    /// The pending batch.
    pub fn pending(&self) -> (builder: &ObjectBuilder2d<T>)
        ensures
            builder@ == self@,
            builder.wf() == self.wf(),
    {
        &self.direct_draw_builder
    }

    /// Turns the content of `buffer` into a snapshot and empties `buffer`.
    /// Nothing is built from a builder that was never drawn into.
    pub fn build_buffer(&self, buffer: &mut ObjectBuilder2d<T>) -> (built: Option<
        BufferedObject2d<T>,
    >)
        requires
            old(buffer).wf(),
        ensures
            final(buffer).wf(),
            final(buffer)@ == Batch::<T>::empty(),
            submission(built) == (if old(buffer)@.texture is Some {
                Some(old(buffer)@)
            } else {
                None
            }),
    {
        take_batch(buffer)
    }

    /// Ends the pending batch. The returned snapshot, if any, is the draw
    /// call to submit now.
    pub fn flush(&mut self) -> (submitted: Option<BufferedObject2d<T>>)
        requires
            old(self).wf(),
        ensures
            final(self).wf(),
            final(self)@ == Batch::<T>::empty(),
            submission(submitted) == (if old(self)@.texture is Some {
                Some(old(self)@)
            } else {
                None
            }),
    {
        take_batch(&mut self.direct_draw_builder)
    }

    /// Queues one draw call. When the pending batch is bound to another
    /// texture, or cannot address the new vertices, it is ended first and
    /// returned for submission; the new geometry then starts a fresh batch.
    /// A refused call changes nothing and submits nothing.
    pub fn draw_raw(
        &mut self,
        indexes: &[u16],
        positions: &[T],
        colors: &[T],
        texcoords: &[T],
        texture: TextureId,
    ) -> (r: Result<Option<BufferedObject2d<T>>, DrawError>)
        requires
            old(self).wf(),
        ensures
            final(self).wf(),
            outcome(r) == old(self)@.queue_result(
                draw_call(indexes@, positions@, colors@, texcoords@, texture),
            ),
            final(self)@ == old(self)@.queued(
                draw_call(indexes@, positions@, colors@, texcoords@, texture),
            ),
    {
        if !lengths_agree(positions.len(), colors.len(), texcoords.len()) {
            return Err(DrawError::MalformedGeometry);
        }
        let top: u16 = largest_index(indexes);
        if top == MAX_VERTEX_OFFSET {
            return Err(DrawError::CapacityExceeded);
        }
        let handed = if self.direct_draw_builder.bound_elsewhere(texture) || top >= MAX_VERTEX_OFFSET
            - self.direct_draw_builder.index_counter {
            take_batch(&mut self.direct_draw_builder)
        } else {
            None
        };
        let drawn = self.direct_draw_builder.draw_raw(indexes, positions, colors, texcoords, texture);
        assert(drawn is Ok);
        Ok(handed)
    }

    /// Queues the draw call held in `geometry`.
    pub fn draw(&mut self, geometry: &Geometry<T>) -> (r: Result<
        Option<BufferedObject2d<T>>,
        DrawError,
    >)
        requires
            old(self).wf(),
        ensures
            final(self).wf(),
            outcome(r) == old(self)@.queue_result(geometry@),
            final(self)@ == old(self)@.queued(geometry@),
    {
        self.draw_raw(
            geometry.indexes.as_slice(),
            geometry.positions.as_slice(),
            geometry.colors.as_slice(),
            geometry.texcoords.as_slice(),
            geometry.texture,
        )
    }

    /// Queues the rectangle between `position` and `end`, showing the
    /// region `texture` tinted with `color`.
    pub fn draw_rect(
        &mut self,
        position: [T; 2],
        end: [T; 2],
        color: [T; 4],
        texture: &TextureRect<T>,
    ) -> (r: Result<Option<BufferedObject2d<T>>, DrawError>)
        requires
            old(self).wf(),
        ensures
            final(self).wf(),
            outcome(r) == old(self)@.queue_result(
                rect_call(position, end, color, texture.texture, texture.position, texture.end),
            ),
            final(self)@ == old(self)@.queued(
                rect_call(position, end, color, texture.texture, texture.position, texture.end),
            ),
    {
        let geometry = rect(
            position,
            end,
            color,
            texture.texture,
            texture.position,
            texture.end,
        );
        self.draw(&geometry)
    }

    /// Queues a polygon as a fan around `center`, one triangle for each
    /// point of `rim`.
    pub fn draw_regular(
        &mut self,
        center: [T; 2],
        rim: &[[T; 2]],
        color: [T; 4],
        texture: TextureId,
        center_texcoord: [T; 2],
        rim_texcoords: &[[T; 2]],
    ) -> (r: Result<Option<BufferedObject2d<T>>, DrawError>)
        requires
            old(self).wf(),
        ensures
            final(self).wf(),
            outcome(r) == old(self)@.queue_result(
                regular_call(center, rim@, color, texture, center_texcoord, rim_texcoords@),
            ),
            final(self)@ == old(self)@.queued(
                regular_call(center, rim@, color, texture, center_texcoord, rim_texcoords@),
            ),
    {
        match regular(center, rim, color, texture, center_texcoord, rim_texcoords) {
            Some(geometry) => self.draw(&geometry),
            None => {
                proof {
                    lemma_fan_oversized(rim@.len());
                }
                if rim.len() != rim_texcoords.len() {
                    Err(DrawError::MalformedGeometry)
                } else {
                    Err(DrawError::CapacityExceeded)
                }
            },
        }
    }

    /// Queues a glyph mesh given as a triangle list.
    pub fn draw_text(
        &mut self,
        vertices: &[T],
        color: [T; 4],
        texture: TextureId,
        texcoords: &[T],
    ) -> (r: Result<Option<BufferedObject2d<T>>, DrawError>)
        requires
            old(self).wf(),
        ensures
            final(self).wf(),
            outcome(r) == old(self)@.queue_result(
                text_call(vertices@, color, texture, texcoords@),
            ),
            final(self)@ == old(self)@.queued(text_call(vertices@, color, texture, texcoords@)),
    {
        match text(vertices, color, texture, texcoords) {
            Some(geometry) => self.draw(&geometry),
            None => {
                proof {
                    lemma_list_oversized(vertices@.len() / 2);
                }
                if vertices.len() % 2 != 0 || vertices.len() != texcoords.len() {
                    Err(DrawError::MalformedGeometry)
                } else {
                    Err(DrawError::CapacityExceeded)
                }
            },
        }
    }
}

} // verus!
