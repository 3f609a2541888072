//! The mathematical model of batched geometry: what a draw call is, what a
//! batch holds, when a draw call is refused, and when a pending batch has to
//! be submitted before the next draw call can be queued.
use vstd::prelude::*;

verus! {

/// Identity of a texture. Two handles name the same texture exactly when
/// they are equal.
#[derive(Clone, Copy, Debug, PartialEq, Eq, Structural)]
pub struct TextureId(pub u32);

/// Why a draw call was refused.
#[derive(Clone, Copy, Debug, PartialEq, Eq, Structural)]
pub enum DrawError {
    /// The attribute arrays do not describe the same number of vertices.
    MalformedGeometry,
    /// The batch is already bound to another texture.
    TextureMismatch,
    /// The batch cannot address the new vertices with 16-bit indices.
    CapacityExceeded,
}

/// Largest value the running vertex offset of a batch may take.
pub const MAX_VERTEX_OFFSET: u16 = 65535;

/// The largest index of `indexes`, or zero when there is none.
pub open spec fn max_index(indexes: Seq<u16>) -> int
    decreases indexes.len(),
{
    if indexes.len() == 0 {
        0
    } else {
        let rest = max_index(indexes.drop_last());
        if indexes.last() > rest {
            indexes.last() as int
        } else {
            rest
        }
    }
}

/// Number of vertex slots a draw call with these indices reserves.
pub open spec fn vertex_span(indexes: Seq<u16>) -> int {
    max_index(indexes) + 1
}

/// `indexes` with `offset` added to every element.
pub open spec fn rebase(indexes: Seq<u16>, offset: int) -> Seq<u16> {
    Seq::new(indexes.len(), |i: int| (indexes[i] + offset) as u16)
}

/// Whether three attribute arrays of these lengths describe the same number
/// of vertices: two position scalars, four color scalars and two texture
/// scalars each.
pub open spec fn parallel_lengths(positions: nat, colors: nat, texcoords: nat) -> bool {
    positions == texcoords && positions * 2 == colors
}

/// `max_index` bounds every element, and is attained unless the sequence is
/// empty.
pub proof fn lemma_max_index(indexes: Seq<u16>)
    ensures
        0 <= max_index(indexes) <= 65535,
        forall|i: int| 0 <= i < indexes.len() ==> indexes[i] <= max_index(indexes),
        indexes.len() > 0 ==> exists|i: int|
            0 <= i < indexes.len() && indexes[i] == max_index(indexes),
        indexes.len() == 0 ==> max_index(indexes) == 0,
    decreases indexes.len(),
{
    if indexes.len() > 0 {
        let front = indexes.drop_last();
        lemma_max_index(front);
        assert forall|i: int| 0 <= i < indexes.len() implies indexes[i] <= max_index(indexes) by {
            if i < front.len() {
                assert(front[i] == indexes[i]);
            }
        }
        if indexes.last() > max_index(front) {
            assert(indexes[indexes.len() - 1] == max_index(indexes));
        } else if front.len() > 0 {
            let k = choose|k: int| 0 <= k < front.len() && front[k] == max_index(front);
            assert(indexes[k] == max_index(indexes));
        } else {
            assert(indexes[0] == max_index(indexes));
        }
    }
}

/// A bound that holds of every element and is attained is the maximum.
pub proof fn lemma_max_index_is(indexes: Seq<u16>, top: int)
    requires
        forall|i: int| 0 <= i < indexes.len() ==> indexes[i] <= top,
        exists|i: int| 0 <= i < indexes.len() && indexes[i] == top,
    ensures
        max_index(indexes) == top,
{
    lemma_max_index(indexes);
    let at = choose|i: int| 0 <= i < indexes.len() && indexes[i] == top;
    let attained = choose|i: int| 0 <= i < indexes.len() && indexes[i] == max_index(indexes);
    assert(indexes[at] <= max_index(indexes));
    assert(indexes[attained] <= top);
}

/// The geometry of one draw call.
pub ghost struct DrawCall<T> {
    /// Vertex numbers, counted from the first vertex of this call.
    pub indexes: Seq<u16>,
    pub positions: Seq<T>,
    pub colors: Seq<T>,
    pub texcoords: Seq<T>,
    pub texture: TextureId,
}

/// The draw call made of these five parts.
pub open spec fn draw_call<T>(
    indexes: Seq<u16>,
    positions: Seq<T>,
    colors: Seq<T>,
    texcoords: Seq<T>,
    texture: TextureId,
) -> DrawCall<T> {
    DrawCall { indexes, positions, colors, texcoords, texture }
}

impl<T> DrawCall<T> {
    /// The attribute arrays agree on the number of vertices.
    pub open spec fn balanced(self) -> bool {
        parallel_lengths(self.positions.len(), self.colors.len(), self.texcoords.len())
    }

    /// Number of vertex slots the call reserves in a batch.
    pub open spec fn span(self) -> int {
        vertex_span(self.indexes)
    }
}

/// The mathematical content of a batch of geometry.
pub ghost struct Batch<T> {
    /// Number of vertex slots already reserved; index 0 of the next draw
    /// call lands here.
    pub vertex_offset: int,
    pub indexes: Seq<u16>,
    pub positions: Seq<T>,
    pub colors: Seq<T>,
    pub texcoords: Seq<T>,
    /// The texture every draw call of the batch uses; `None` until the first
    /// draw call.
    pub texture: Option<TextureId>,
}

impl<T> Batch<T> {
    /// The batch nothing was drawn into.
    pub open spec fn empty() -> Self {
        Batch {
            vertex_offset: 0,
            indexes: Seq::empty(),
            positions: Seq::empty(),
            colors: Seq::empty(),
            texcoords: Seq::empty(),
            texture: None,
        }
    }

    /// What every batch satisfies.
    pub open spec fn well_formed(self) -> bool {
        &&& 0 <= self.vertex_offset <= MAX_VERTEX_OFFSET
        &&& parallel_lengths(self.positions.len(), self.colors.len(), self.texcoords.len())
        &&& forall|i: int| 0 <= i < self.indexes.len() ==> self.indexes[i] < self.vertex_offset
        &&& self.texture is None ==> self == Self::empty()
    }

    /// The reason for which a draw call into this batch is refused, if any.
    /// The checks are made in this order.
    pub open spec fn refusal(self, call: DrawCall<T>) -> Option<DrawError> {
        if !call.balanced() {
            Some(DrawError::MalformedGeometry)
        } else if self.texture is Some && self.texture != Some(call.texture) {
            Some(DrawError::TextureMismatch)
        } else if self.vertex_offset + call.span() > MAX_VERTEX_OFFSET {
            Some(DrawError::CapacityExceeded)
        } else {
            None
        }
    }

    /// The batch with one more draw call: the call's indices are moved
    /// behind the vertices already present, and its attributes are appended.
    pub open spec fn append(self, call: DrawCall<T>) -> Self {
        Batch {
            vertex_offset: self.vertex_offset + call.span(),
            indexes: self.indexes + rebase(call.indexes, self.vertex_offset),
            positions: self.positions + call.positions,
            colors: self.colors + call.colors,
            texcoords: self.texcoords + call.texcoords,
            texture: Some(call.texture),
        }
    }

    /// The batch after a draw call was offered to it: extended when the call
    /// is accepted, untouched when it is refused.
    pub open spec fn drawn(self, call: DrawCall<T>) -> Self {
        if self.refusal(call) is None {
            self.append(call)
        } else {
            self
        }
    }

    /// The batch after each of `calls` was offered to it in turn.
    pub open spec fn drawn_all(self, calls: Seq<DrawCall<T>>) -> Self
        decreases calls.len(),
    {
        if calls.len() == 0 {
            self
        } else {
            self.drawn_all(calls.drop_last()).drawn(calls.last())
        }
    }

    /// Whether a canvas holding this pending batch has to submit it before
    /// it can queue `call`.
    pub open spec fn must_flush(self, call: DrawCall<T>) -> bool {
        ||| self.texture is Some && self.texture != Some(call.texture)
        ||| self.vertex_offset + call.span() > MAX_VERTEX_OFFSET
    }

    /// The reason for which a canvas refuses `call`, if any: that no batch,
    /// not even an empty one, could take it.
    pub open spec fn unqueueable(call: DrawCall<T>) -> Option<DrawError> {
        Self::empty().refusal(call)
    }

    /// What a canvas holding this pending batch submits when `call` is
    /// queued: the whole pending batch if it has to make room, else nothing.
    pub open spec fn submitted(self, call: DrawCall<T>) -> Option<Self> {
        if Self::unqueueable(call) is None && self.must_flush(call) {
            Some(self)
        } else {
            None
        }
    }

    /// What a canvas holding this pending batch answers to `call`: the
    /// refusal, or else what it submits.
    pub open spec fn queue_result(self, call: DrawCall<T>) -> Result<Option<Self>, DrawError> {
        match Self::unqueueable(call) {
            Some(e) => Err(e),
            None => Ok(self.submitted(call)),
        }
    }

    /// The pending batch of a canvas after `call` was queued.
    pub open spec fn queued(self, call: DrawCall<T>) -> Self {
        if Self::unqueueable(call) is Some {
            self
        } else if self.must_flush(call) {
            Self::empty().append(call)
        } else {
            self.append(call)
        }
    }
}

/// The result a builder gives for a draw call with this refusal.
pub open spec fn draw_result(refusal: Option<DrawError>) -> Result<(), DrawError> {
    match refusal {
        Some(e) => Err(e),
        None => Ok(()),
    }
}

/// Total number of indices of `calls`.
pub open spec fn index_total<T>(calls: Seq<DrawCall<T>>) -> nat
    decreases calls.len(),
{
    if calls.len() == 0 {
        0
    } else {
        index_total(calls.drop_last()) + calls.last().indexes.len()
    }
}

/// Whether each of `calls`, offered in turn to `batch`, is accepted.
pub open spec fn all_accepted<T>(batch: Batch<T>, calls: Seq<DrawCall<T>>) -> bool {
    forall|k: int|
        0 <= k < calls.len() ==> (#[trigger] batch.drawn_all(calls.take(k))).refusal(calls[k])
            is None
}

/// Drawing into a well-formed batch leaves a well-formed batch.
pub proof fn lemma_drawn_well_formed<T>(batch: Batch<T>, call: DrawCall<T>)
    requires
        batch.well_formed(),
    ensures
        batch.drawn(call).well_formed(),
{
    if batch.refusal(call) is None {
        lemma_max_index(call.indexes);
        let next = batch.append(call);
        assert forall|i: int| 0 <= i < next.indexes.len() implies next.indexes[i]
            < next.vertex_offset by {
            if i >= batch.indexes.len() {
                let j = i - batch.indexes.len();
                assert(call.indexes[j] <= max_index(call.indexes));
            }
        }
    }
}

/// Queueing on a canvas with a well-formed pending batch leaves a
/// well-formed pending batch, whose vertex offset therefore never passes
/// `MAX_VERTEX_OFFSET`.
pub proof fn lemma_queued_well_formed<T>(pending: Batch<T>, call: DrawCall<T>)
    requires
        pending.well_formed(),
    ensures
        pending.queued(call).well_formed(),
        pending.queued(call).vertex_offset <= MAX_VERTEX_OFFSET,
{
    if Batch::<T>::unqueueable(call) is None {
        if pending.must_flush(call) {
            lemma_drawn_well_formed(Batch::<T>::empty(), call);
        } else {
            lemma_drawn_well_formed(pending, call);
        }
    }
}

/// A batch built from nothing by draw calls that were all accepted holds
/// exactly as many indices as those calls brought together. A snapshot of
/// the batch therefore submits that many.
pub proof fn lemma_index_count_is_sum<T>(calls: Seq<DrawCall<T>>)
    requires
        all_accepted(Batch::<T>::empty(), calls),
    ensures
        Batch::<T>::empty().drawn_all(calls).indexes.len() == index_total(calls),
    decreases calls.len(),
{
    if calls.len() > 0 {
        let front = calls.drop_last();
        let start = Batch::<T>::empty();
        assert forall|k: int| 0 <= k < front.len() implies (#[trigger] start.drawn_all(
            front.take(k),
        )).refusal(front[k]) is None by {
            assert(front.take(k) == calls.take(k));
            assert(front[k] == calls[k]);
        }
        lemma_index_count_is_sum(front);
        assert(calls.take(calls.len() - 1) == front);
        assert(start.drawn_all(calls.take(calls.len() - 1)).refusal(calls[calls.len() - 1])
            is None);
    }
}

/// A draw call that the pending batch cannot address ends that batch
/// exactly once: the batch as it stood is submitted, and the new pending
/// batch holds the call's geometry alone, counted from vertex zero.
pub proof fn lemma_capacity_flush<T>(pending: Batch<T>, call: DrawCall<T>)
    requires
        pending.well_formed(),
        Batch::<T>::unqueueable(call) is None,
        pending.vertex_offset + call.span() > MAX_VERTEX_OFFSET,
    ensures
        pending.submitted(call) == Some(pending),
        pending.queued(call) == Batch::<T>::empty().append(call),
        pending.queued(call).vertex_offset == call.span(),
        pending.queued(call).vertex_offset <= MAX_VERTEX_OFFSET,
        pending.queued(call).indexes =~= call.indexes,
{
    lemma_max_index(call.indexes);
    assert(rebase(call.indexes, 0) =~= call.indexes);
}

/// Two consecutive draw calls with different textures end the pending batch
/// exactly once, between them: the second call submits the batch that holds
/// the first, bound to the first call's texture, and what then stays
/// pending is the second call's geometry alone, bound to the second call's
/// texture.
pub proof fn lemma_texture_switch_flush<T>(
    pending: Batch<T>,
    first: DrawCall<T>,
    second: DrawCall<T>,
)
    requires
        pending.well_formed(),
        Batch::<T>::unqueueable(first) is None,
        Batch::<T>::unqueueable(second) is None,
        first.texture != second.texture,
    ensures
        ({
            let between = pending.queued(first);
            &&& between.texture == Some(first.texture)
            &&& between.submitted(second) == Some(between)
            &&& between.queued(second) == Batch::<T>::empty().append(second)
            &&& between.queued(second).texture == Some(second.texture)
        }),
{
    lemma_max_index(second.indexes);
}

} // verus!
