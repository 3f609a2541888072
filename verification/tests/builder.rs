use marmalade::render::batch::{DrawError, TextureId};
use marmalade::render::canvas2d::{Canvas2d, ObjectBuilder2d};

const TRIANGLE: [u16; 3] = [0, 1, 2];
const TRIANGLE_POSITIONS: [f32; 6] = [0.0, 0.0, 1.0, 0.0, 0.0, 1.0];
const TRIANGLE_COLORS: [f32; 12] = [1.0, 0.0, 0.0, 1.0, 0.0, 1.0, 0.0, 1.0, 0.0, 0.0, 1.0, 1.0];
const TRIANGLE_TEXCOORDS: [f32; 6] = [0.0, 0.0, 1.0, 0.0, 0.0, 1.0];

#[test]
fn new_builder_is_empty() {
    let builder: ObjectBuilder2d<f32> = ObjectBuilder2d::new();
    assert_eq!(builder.texture(), None);
    assert_eq!(builder.vertex_offset(), 0);
    assert_eq!(builder.index_count(), 0);
}

#[test]
fn draw_raw_moves_indices_behind_earlier_vertices() {
    let canvas: Canvas2d<f32> = Canvas2d::new();
    let mut builder: ObjectBuilder2d<f32> = ObjectBuilder2d::new();
    let texture = TextureId(7);
    assert_eq!(
        builder.draw_raw(
            &TRIANGLE,
            &TRIANGLE_POSITIONS,
            &TRIANGLE_COLORS,
            &TRIANGLE_TEXCOORDS,
            texture
        ),
        Ok(())
    );
    assert_eq!(builder.vertex_offset(), 3);
    assert_eq!(
        builder.draw_raw(
            &[2, 0, 1],
            &TRIANGLE_POSITIONS,
            &TRIANGLE_COLORS,
            &TRIANGLE_TEXCOORDS,
            texture
        ),
        Ok(())
    );
    assert_eq!(builder.vertex_offset(), 6);
    assert_eq!(builder.texture(), Some(texture));
    let buffer = canvas.build_buffer(&mut builder).unwrap();
    assert_eq!(buffer.indexes(), &[0, 1, 2, 5, 3, 4]);
    assert_eq!(buffer.count(), 6);
    assert_eq!(buffer.vertex_count(), 6);
    assert_eq!(buffer.texture(), texture);
    let mut positions = TRIANGLE_POSITIONS.to_vec();
    positions.extend_from_slice(&TRIANGLE_POSITIONS);
    assert_eq!(buffer.positions(), &positions[..]);
    let mut colors = TRIANGLE_COLORS.to_vec();
    colors.extend_from_slice(&TRIANGLE_COLORS);
    assert_eq!(buffer.colors(), &colors[..]);
    let mut texcoords = TRIANGLE_TEXCOORDS.to_vec();
    texcoords.extend_from_slice(&TRIANGLE_TEXCOORDS);
    assert_eq!(buffer.texcoords(), &texcoords[..]);
}

#[test]
fn offset_advances_by_largest_index_plus_one() {
    let mut builder: ObjectBuilder2d<f32> = ObjectBuilder2d::new();
    // Only vertex 4 is referenced: five slots are reserved all the same.
    let r = builder.draw_raw(&[4, 4, 4], &[], &[], &[], TextureId(1));
    assert_eq!(r, Ok(()));
    assert_eq!(builder.vertex_offset(), 5);
    assert_eq!(builder.index_count(), 3);
}

#[test]
fn draw_without_indices_reserves_one_slot() {
    let mut builder: ObjectBuilder2d<f32> = ObjectBuilder2d::new();
    assert_eq!(builder.draw_raw(&[], &[], &[], &[], TextureId(1)), Ok(()));
    assert_eq!(builder.vertex_offset(), 1);
    assert_eq!(builder.index_count(), 0);
    assert_eq!(builder.texture(), Some(TextureId(1)));
}

#[test]
fn positions_and_texcoords_of_different_length_are_malformed() {
    let mut builder: ObjectBuilder2d<f32> = ObjectBuilder2d::new();
    let r = builder.draw_raw(
        &TRIANGLE,
        &TRIANGLE_POSITIONS,
        &TRIANGLE_COLORS,
        &[0.0, 0.0, 1.0, 0.0],
        TextureId(1),
    );
    assert_eq!(r, Err(DrawError::MalformedGeometry));
    assert_eq!(builder.texture(), None);
    assert_eq!(builder.vertex_offset(), 0);
    assert_eq!(builder.index_count(), 0);
}

#[test]
fn colors_not_twice_the_positions_are_malformed() {
    let mut builder: ObjectBuilder2d<f32> = ObjectBuilder2d::new();
    let r = builder.draw_raw(
        &TRIANGLE,
        &TRIANGLE_POSITIONS,
        &TRIANGLE_COLORS[..11],
        &TRIANGLE_TEXCOORDS,
        TextureId(1),
    );
    assert_eq!(r, Err(DrawError::MalformedGeometry));
    let r = builder.draw_raw(
        &TRIANGLE,
        &TRIANGLE_POSITIONS,
        &TRIANGLE_COLORS[..6],
        &TRIANGLE_TEXCOORDS,
        TextureId(1),
    );
    assert_eq!(r, Err(DrawError::MalformedGeometry));
    assert_eq!(builder.index_count(), 0);
}

#[test]
fn malformed_is_reported_before_texture_mismatch() {
    let mut builder: ObjectBuilder2d<f32> = ObjectBuilder2d::new();
    builder.draw_raw(&[], &[], &[], &[], TextureId(1)).unwrap();
    let r = builder.draw_raw(&[], &[0.0, 0.0], &[], &[], TextureId(2));
    assert_eq!(r, Err(DrawError::MalformedGeometry));
}

#[test]
fn second_texture_in_one_batch_is_refused() {
    let mut builder: ObjectBuilder2d<f32> = ObjectBuilder2d::new();
    builder
        .draw_raw(
            &TRIANGLE,
            &TRIANGLE_POSITIONS,
            &TRIANGLE_COLORS,
            &TRIANGLE_TEXCOORDS,
            TextureId(1),
        )
        .unwrap();
    let r = builder.draw_raw(
        &TRIANGLE,
        &TRIANGLE_POSITIONS,
        &TRIANGLE_COLORS,
        &TRIANGLE_TEXCOORDS,
        TextureId(2),
    );
    assert_eq!(r, Err(DrawError::TextureMismatch));
    assert_eq!(builder.texture(), Some(TextureId(1)));
    assert_eq!(builder.vertex_offset(), 3);
    assert_eq!(builder.index_count(), 3);
}

#[test]
fn texture_mismatch_is_reported_before_capacity() {
    let mut builder: ObjectBuilder2d<f32> = ObjectBuilder2d::new();
    builder.draw_raw(&[], &[], &[], &[], TextureId(1)).unwrap();
    let r = builder.draw_raw(&[65535], &[], &[], &[], TextureId(2));
    assert_eq!(r, Err(DrawError::TextureMismatch));
}

#[test]
fn offset_may_reach_the_limit_and_not_pass_it() {
    let mut builder: ObjectBuilder2d<f32> = ObjectBuilder2d::new();
    // 65534 + 1 slots: the offset lands exactly on 65535.
    assert_eq!(builder.draw_raw(&[65534], &[], &[], &[], TextureId(1)), Ok(()));
    assert_eq!(builder.vertex_offset(), 65535);
    // Not one slot more.
    let r = builder.draw_raw(&[0], &[], &[], &[], TextureId(1));
    assert_eq!(r, Err(DrawError::CapacityExceeded));
    assert_eq!(builder.vertex_offset(), 65535);
    assert_eq!(builder.index_count(), 1);
}

#[test]
fn largest_index_alone_exceeds_capacity() {
    let mut builder: ObjectBuilder2d<f32> = ObjectBuilder2d::new();
    let r = builder.draw_raw(&[0, 65535], &[], &[], &[], TextureId(1));
    assert_eq!(r, Err(DrawError::CapacityExceeded));
    assert_eq!(builder.texture(), None);
    assert_eq!(builder.index_count(), 0);
}

#[test]
fn index_count_is_sum_of_appended_index_counts() {
    let canvas: Canvas2d<f32> = Canvas2d::new();
    let mut builder: ObjectBuilder2d<f32> = ObjectBuilder2d::new();
    let mut expected = 0;
    for n in [3usize, 0, 6, 1, 12] {
        let indexes: Vec<u16> = (0..n).map(|i| (i % 3) as u16).collect();
        builder
            .draw_raw(
                &indexes,
                &TRIANGLE_POSITIONS,
                &TRIANGLE_COLORS,
                &TRIANGLE_TEXCOORDS,
                TextureId(9),
            )
            .unwrap();
        expected += n;
    }
    assert_eq!(builder.index_count(), expected);
    let buffer = canvas.build_buffer(&mut builder).unwrap();
    assert_eq!(buffer.count(), 22);
    // Counting starts again after the batch was built.
    builder
        .draw_raw(
            &TRIANGLE,
            &TRIANGLE_POSITIONS,
            &TRIANGLE_COLORS,
            &TRIANGLE_TEXCOORDS,
            TextureId(9),
        )
        .unwrap();
    assert_eq!(canvas.build_buffer(&mut builder).unwrap().count(), 3);
}

#[test]
fn build_buffer_empties_the_builder() {
    let canvas: Canvas2d<f32> = Canvas2d::new();
    let mut builder: ObjectBuilder2d<f32> = ObjectBuilder2d::new();
    builder
        .draw_raw(
            &TRIANGLE,
            &TRIANGLE_POSITIONS,
            &TRIANGLE_COLORS,
            &TRIANGLE_TEXCOORDS,
            TextureId(1),
        )
        .unwrap();
    assert!(canvas.build_buffer(&mut builder).is_some());
    assert_eq!(builder.texture(), None);
    assert_eq!(builder.vertex_offset(), 0);
    assert_eq!(builder.index_count(), 0);
    // The emptied builder takes another texture.
    assert_eq!(
        builder.draw_raw(
            &TRIANGLE,
            &TRIANGLE_POSITIONS,
            &TRIANGLE_COLORS,
            &TRIANGLE_TEXCOORDS,
            TextureId(2)
        ),
        Ok(())
    );
    let buffer = canvas.build_buffer(&mut builder).unwrap();
    assert_eq!(buffer.indexes(), &[0, 1, 2]);
    assert_eq!(buffer.texture(), TextureId(2));
}

#[test]
fn nothing_is_built_from_a_builder_never_drawn_into() {
    let canvas: Canvas2d<f32> = Canvas2d::new();
    let mut builder: ObjectBuilder2d<f32> = ObjectBuilder2d::new();
    assert!(canvas.build_buffer(&mut builder).is_none());
    assert!(canvas.build_buffer(&mut builder).is_none());
}

#[test]
fn snapshot_is_independent_of_the_builder() {
    let canvas: Canvas2d<u8> = Canvas2d::new();
    let mut builder: ObjectBuilder2d<u8> = ObjectBuilder2d::new();
    builder.draw_raw(&[0], &[1, 2], &[3, 4, 5, 6], &[7, 8], TextureId(1)).unwrap();
    let buffer = canvas.build_buffer(&mut builder).unwrap();
    builder.draw_raw(&[0, 1], &[9, 9, 9, 9], &[9; 8], &[9; 4], TextureId(2)).unwrap();
    assert_eq!(buffer.indexes(), &[0]);
    assert_eq!(buffer.positions(), &[1, 2]);
    assert_eq!(buffer.colors(), &[3, 4, 5, 6]);
    assert_eq!(buffer.texcoords(), &[7, 8]);
    assert_eq!(buffer.texture(), TextureId(1));
}
