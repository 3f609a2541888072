use marmalade::render::batch::DrawError;
use marmalade::render::webgl2d::{BufferBuilder2d, Webgl2d};

#[test]
fn single_texture_builder_moves_indices_behind_earlier_vertices() {
    let context: Webgl2d<f32> = Webgl2d::new(0.0, 1.0);
    let mut builder: BufferBuilder2d<f32> = BufferBuilder2d::new(0.0, 1.0);
    let positions = [0.0, 0.0, 1.0, 0.0, 0.0, 1.0];
    let colors = [0.5; 12];
    assert_eq!(builder.draw_raw(&[0, 1, 2], &positions, &colors, &positions), Ok(()));
    assert_eq!(builder.draw_raw(&[2, 1, 0], &positions, &colors, &positions), Ok(()));
    let buffer = context.build_buffer(&mut builder);
    assert_eq!(buffer.indexes(), &[0, 1, 2, 5, 4, 3]);
    assert_eq!(buffer.count(), 6);
    assert_eq!(buffer.vertex_count(), 6);
    assert_eq!(buffer.positions().len(), 12);
    assert_eq!(buffer.colors(), &[0.5; 24]);
    assert_eq!(buffer.texcoords().len(), 12);
}

#[test]
fn single_texture_builder_refuses_what_does_not_fit() {
    let context: Webgl2d<i32> = Webgl2d::new(0, 1);
    let mut builder: BufferBuilder2d<i32> = BufferBuilder2d::new(0, 1);
    assert_eq!(builder.draw_raw(&[0], &[1, 2], &[3], &[4, 5]), Err(DrawError::MalformedGeometry));
    assert_eq!(builder.draw_raw(&[65534], &[], &[], &[]), Ok(()));
    assert_eq!(builder.draw_raw(&[0], &[], &[], &[]), Err(DrawError::CapacityExceeded));
    let buffer = context.build_buffer(&mut builder);
    assert_eq!(buffer.indexes(), &[65534]);
    assert_eq!(buffer.vertex_count(), 65535);
}

#[test]
fn snapshot_of_an_untouched_builder_is_empty() {
    let context: Webgl2d<i32> = Webgl2d::new(0, 1);
    let mut builder: BufferBuilder2d<i32> = BufferBuilder2d::new(0, 1);
    let buffer = context.build_buffer(&mut builder);
    assert_eq!(buffer.count(), 0);
    assert_eq!(buffer.vertex_count(), 0);
    assert!(buffer.indexes().is_empty());
    assert!(buffer.positions().is_empty());
    assert!(buffer.colors().is_empty());
    assert!(buffer.texcoords().is_empty());
}

#[test]
fn colored_rect_samples_the_white_pixel() {
    let context: Webgl2d<f32> = Webgl2d::new(0.0, 1.0);
    let mut builder: BufferBuilder2d<f32> = BufferBuilder2d::new(0.0, 1.0);
    assert_eq!(builder.draw_colored_rect([10.0, 10.0], [30.0, 30.0], [1.0, 0.0, 0.0, 1.0]), Ok(()));
    let buffer = context.build_buffer(&mut builder);
    assert_eq!(buffer.indexes(), &[0, 1, 2, 1, 2, 3]);
    assert_eq!(buffer.positions(), &[10.0, 10.0, 30.0, 10.0, 10.0, 30.0, 30.0, 30.0]);
    assert_eq!(buffer.texcoords(), &[0.0; 8]);
    assert_eq!(
        buffer.colors(),
        &[1.0, 0.0, 0.0, 1.0, 1.0, 0.0, 0.0, 1.0, 1.0, 0.0, 0.0, 1.0, 1.0, 0.0, 0.0, 1.0]
    );
}

#[test]
fn textured_rect_is_untinted() {
    let context: Webgl2d<i32> = Webgl2d::new(0, 1);
    let mut builder: BufferBuilder2d<i32> = BufferBuilder2d::new(0, 1);
    assert_eq!(builder.draw_textured_rect([0, 0], [4, 2], [10, 20], [30, 40]), Ok(()));
    assert_eq!(builder.draw_rect([5, 5], [6, 6], [7, 7, 7, 7], [1, 2], [3, 4]), Ok(()));
    let buffer = context.build_buffer(&mut builder);
    assert_eq!(buffer.indexes(), &[0, 1, 2, 1, 2, 3, 4, 5, 6, 5, 6, 7]);
    assert_eq!(buffer.positions(), &[0, 0, 4, 0, 0, 2, 4, 2, 5, 5, 6, 5, 5, 6, 6, 6]);
    assert_eq!(buffer.texcoords(), &[10, 40, 30, 40, 10, 20, 30, 20, 1, 4, 3, 4, 1, 2, 3, 2]);
    let mut colors = vec![1; 16];
    colors.extend_from_slice(&[7; 16]);
    assert_eq!(buffer.colors(), &colors[..]);
}

#[test]
fn colored_and_textured_polygons_are_fans() {
    let context: Webgl2d<i32> = Webgl2d::new(0, 1);
    let mut builder: BufferBuilder2d<i32> = BufferBuilder2d::new(0, 1);
    let rim = [[2, 0], [0, 2], [-2, 0]];
    assert_eq!(builder.draw_colored_regular([0, 0], &rim, [9, 8, 7, 6]), Ok(()));
    assert_eq!(
        builder.draw_textured_regular([5, 5], &rim, [50, 50], &[[1, 1], [2, 2], [3, 3]]),
        Ok(())
    );
    assert_eq!(
        builder.draw_regular([0, 0], &rim, [4; 4], [50, 50], &[[1, 1]]),
        Err(DrawError::MalformedGeometry)
    );
    let buffer = context.build_buffer(&mut builder);
    assert_eq!(
        buffer.indexes(),
        &[0, 1, 2, 0, 2, 3, 0, 3, 1, 4, 5, 6, 4, 6, 7, 4, 7, 5]
    );
    assert_eq!(buffer.positions(), &[0, 0, 2, 0, 0, 2, -2, 0, 5, 5, 2, 0, 0, 2, -2, 0]);
    assert_eq!(buffer.texcoords(), &[0, 0, 0, 0, 0, 0, 0, 0, 50, 50, 1, 1, 2, 2, 3, 3]);
    let mut colors: Vec<i32> = (0..4).flat_map(|_| [9, 8, 7, 6]).collect();
    colors.extend_from_slice(&[1; 16]);
    assert_eq!(buffer.colors(), &colors[..]);
}

#[test]
fn polygon_with_too_many_sides_fits_no_single_texture_batch() {
    let mut builder: BufferBuilder2d<u8> = BufferBuilder2d::new(0, 1);
    let mut context: Webgl2d<u8> = Webgl2d::new(0, 1);
    let rim = vec![[0u8, 0u8]; 65535];
    assert_eq!(
        builder.draw_colored_regular([0, 0], &rim, [0; 4]),
        Err(DrawError::CapacityExceeded)
    );
    assert_eq!(
        builder.draw_textured_regular([0, 0], &rim, [0, 0], &rim),
        Err(DrawError::CapacityExceeded)
    );
    assert!(matches!(
        context.draw_colored_regular([0, 0], &rim, [0; 4]),
        Err(DrawError::CapacityExceeded)
    ));
    assert!(matches!(
        context.draw_regular([0, 0], &rim, [0; 4], [0, 0], &rim[1..]),
        Err(DrawError::MalformedGeometry)
    ));
    assert!(matches!(context.draw_colored_regular([0, 0], &rim[1..], [0; 4]), Ok(None)));
    assert_eq!(context.flush().vertex_count(), 65535);
}

#[test]
fn single_texture_context_flushes_only_when_full() {
    let mut context: Webgl2d<i32> = Webgl2d::new(0, 1);
    assert!(matches!(context.draw_raw(&[64999], &[], &[], &[]), Ok(None)));
    assert!(matches!(context.draw_colored_rect([0, 0], [1, 1], [2; 4]), Ok(None)));
    // 65004 slots are taken: 531 are left, and a fan of 531 sides needs 532.
    let rim = vec![[0, 0]; 531];
    let ended = context.draw_colored_regular([0, 0], &rim, [3; 4]).unwrap().unwrap();
    assert_eq!(ended.indexes(), &[64999, 65000, 65001, 65002, 65001, 65002, 65003]);
    assert_eq!(ended.vertex_count(), 65004);
    assert_eq!(ended.positions(), &[0, 0, 1, 0, 0, 1, 1, 1]);
    let last = context.flush();
    assert_eq!(last.vertex_count(), 532);
    assert_eq!(last.count(), 3 * 531);
    assert_eq!(last.indexes()[..6], [0, 1, 2, 0, 2, 3]);
    assert_eq!(last.indexes()[3 * 530..], [0, 531, 1]);
}

#[test]
fn flush_of_an_idle_context_hands_out_an_empty_buffer() {
    let mut context: Webgl2d<f32> = Webgl2d::new(0.0, 1.0);
    let buffer = context.flush();
    assert_eq!(buffer.count(), 0);
    assert_eq!(buffer.vertex_count(), 0);
    assert!(matches!(
        context.draw_textured_rect([0.0, 0.0], [1.0, 1.0], [0.0, 0.0], [1.0, 1.0]),
        Ok(None)
    ));
    let buffer = context.flush();
    assert_eq!(buffer.count(), 6);
    assert_eq!(buffer.colors(), &[1.0; 16]);
    assert_eq!(context.flush().count(), 0);
}

#[test]
fn refused_draw_on_single_texture_context_changes_nothing() {
    let mut context: Webgl2d<i32> = Webgl2d::new(0, 1);
    context.draw_rect([0, 0], [1, 1], [2; 4], [0, 0], [1, 1]).unwrap();
    assert!(matches!(
        context.draw_raw(&[0], &[0, 0], &[], &[0, 0]),
        Err(DrawError::MalformedGeometry)
    ));
    assert!(matches!(
        context.draw_raw(&[65535], &[], &[], &[]),
        Err(DrawError::CapacityExceeded)
    ));
    let buffer = context.flush();
    assert_eq!(buffer.indexes(), &[0, 1, 2, 1, 2, 3]);
    assert_eq!(buffer.vertex_count(), 4);
}
