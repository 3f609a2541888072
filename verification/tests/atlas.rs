use marmalade::render::atlas::{
    no_texture_rect, AtlasBuilder, AtlasOverflow, TextureRect, BLEED, TEXTURE_SIZE,
};

fn footprint(region: &TextureRect) -> (u32, u32, u32, u32) {
    (
        region.position.0 - BLEED,
        region.position.1 - BLEED,
        region.position.0 + region.size.0 + BLEED,
        region.position.1 + region.size.1 + BLEED,
    )
}

fn overlap(a: &TextureRect, b: &TextureRect) -> bool {
    let (al, at, ar, ab) = footprint(a);
    let (bl, bt, br, bb) = footprint(b);
    al < br && bl < ar && at < bb && bt < ab
}

#[test]
fn new_packer_starts_right_of_the_white_pixel() {
    let packer = AtlasBuilder::new();
    assert_eq!(packer.cursor_position(), (1, 0, 1));
    assert_eq!(TEXTURE_SIZE, 4096);
}

#[test]
fn no_texture_rect_is_the_empty_corner() {
    assert_eq!(no_texture_rect(), TextureRect { position: (0, 0), size: (0, 0) });
}

#[test]
fn first_image_sits_behind_its_border() {
    let mut packer = AtlasBuilder::new();
    let region = packer.insert_image(100, 50).unwrap();
    assert_eq!(region, TextureRect { position: (2, 1), size: (100, 50) });
    assert_eq!(packer.cursor_position(), (103, 0, 52));
}

#[test]
fn images_of_one_row_follow_each_other() {
    let mut packer = AtlasBuilder::new();
    let a = packer.insert_image(10, 30).unwrap();
    let b = packer.insert_image(20, 10).unwrap();
    let c = packer.insert_image(5, 40).unwrap();
    assert_eq!(a, TextureRect { position: (2, 1), size: (10, 30) });
    assert_eq!(b, TextureRect { position: (14, 1), size: (20, 10) });
    assert_eq!(c, TextureRect { position: (36, 1), size: (5, 40) });
    // The next row starts below the highest image of this one.
    assert_eq!(packer.cursor_position(), (42, 0, 42));
}

#[test]
fn second_image_wraps_to_a_new_row() {
    let mut packer = AtlasBuilder::new();
    let first = packer.insert_image(100, 60).unwrap();
    let second = packer.insert_image(4050, 20).unwrap();
    assert_eq!(first, TextureRect { position: (2, 1), size: (100, 60) });
    // 103 + 4050 + 2 > 4096: the second image starts the row below.
    assert_eq!(second, TextureRect { position: (1, 63), size: (4050, 20) });
    assert!(!overlap(&first, &second));
    assert_eq!(packer.cursor_position(), (4052, 62, 84));
}

#[test]
fn image_that_fills_the_row_to_the_last_pixel_stays_in_it() {
    let mut packer = AtlasBuilder::new();
    // 1 + 4093 + 2 == 4096
    let region = packer.insert_image(4093, 1).unwrap();
    assert_eq!(region.position, (2, 1));
    assert_eq!(packer.cursor_position(), (4096, 0, 3));
    // Nothing more fits behind it, not even an empty image.
    let next = packer.insert_image(0, 0).unwrap();
    assert_eq!(next, TextureRect { position: (1, 4), size: (0, 0) });
    assert_eq!(packer.cursor_position(), (2, 3, 5));
}

#[test]
fn image_larger_than_the_surface_overflows_and_changes_nothing() {
    let mut packer = AtlasBuilder::new();
    packer.insert_image(100, 100).unwrap();
    let before = packer.cursor_position();
    assert_eq!(packer.insert_image(4097, 10), Err(AtlasOverflow));
    assert_eq!(packer.cursor_position(), before);
    assert_eq!(packer.insert_image(10, 4097), Err(AtlasOverflow));
    assert_eq!(packer.cursor_position(), before);
    // As large as the surface is too large as well: the border needs room.
    assert_eq!(packer.insert_image(4096, 4096), Err(AtlasOverflow));
    assert_eq!(packer.insert_image(4095, 1), Err(AtlasOverflow));
    assert_eq!(packer.insert_image(u32::MAX, u32::MAX), Err(AtlasOverflow));
    assert_eq!(packer.cursor_position(), before);
    // The packer still works.
    assert_eq!(
        packer.insert_image(1, 1),
        Ok(TextureRect { position: (104, 1), size: (1, 1) })
    );
}

#[test]
fn widest_image_that_fits_takes_a_whole_row() {
    let mut packer = AtlasBuilder::new();
    let region = packer.insert_image(4094, 10).unwrap();
    // It does not fit behind the white pixel, so it opens the row below it.
    assert_eq!(region, TextureRect { position: (1, 2), size: (4094, 10) });
    assert_eq!(packer.cursor_position(), (4096, 1, 13));
}

#[test]
fn full_surface_overflows() {
    let mut packer = AtlasBuilder::new();
    assert!(packer.insert_image(4000, 4000).is_ok());
    let before = packer.cursor_position();
    // Too wide for the rest of the row, too high for the rest of the surface.
    assert_eq!(packer.insert_image(200, 200), Err(AtlasOverflow));
    assert_eq!(packer.cursor_position(), before);
    // A narrow one still fits beside the large one.
    assert!(packer.insert_image(50, 200).is_ok());
}

#[test]
fn footprints_never_overlap() {
    let mut packer = AtlasBuilder::new();
    let mut placed: Vec<TextureRect> = Vec::new();
    let mut size = 17u32;
    for _ in 0..400 {
        size = (size * 37 + 11) % 300;
        let width = size + 1;
        let height = (size * 7) % 90 + 1;
        if let Ok(region) = packer.insert_image(width, height) {
            let (left, top, right, bottom) = footprint(&region);
            assert!(right <= TEXTURE_SIZE && bottom <= TEXTURE_SIZE);
            // Off the white pixel.
            assert!(left >= 1 || top >= 1);
            for earlier in &placed {
                assert!(!overlap(earlier, &region));
            }
            assert_eq!(region.size, (width, height));
            let _ = (left, top);
            placed.push(region);
        }
    }
    assert!(placed.len() > 100);
}

#[test]
fn bleed_origins_surround_the_image() {
    let region = TextureRect { position: (14, 1), size: (20, 10) };
    assert_eq!(
        region.bleed_origins(),
        Some([
            (13, 0),
            (15, 0),
            (13, 2),
            (15, 2),
            (13, 1),
            (15, 1),
            (14, 0),
            (14, 2),
            (14, 1),
        ])
    );
}

#[test]
fn region_at_the_edge_has_no_room_for_a_border() {
    assert_eq!(no_texture_rect().bleed_origins(), None);
    assert_eq!(TextureRect { position: (0, 5), size: (1, 1) }.bleed_origins(), None);
    assert_eq!(TextureRect { position: (5, 0), size: (1, 1) }.bleed_origins(), None);
    assert_eq!(TextureRect { position: (u32::MAX, 5), size: (1, 1) }.bleed_origins(), None);
    assert_eq!(TextureRect { position: (5, u32::MAX), size: (1, 1) }.bleed_origins(), None);
    assert!(TextureRect { position: (1, 1), size: (1, 1) }.bleed_origins().is_some());
}

#[test]
fn every_placed_region_has_bleed_origins() {
    let mut packer = AtlasBuilder::new();
    for (width, height) in [(1u32, 1u32), (4000, 3), (4094, 7), (0, 0)] {
        let region = packer.insert_image(width, height).unwrap();
        let origins = region.bleed_origins().unwrap();
        assert_eq!(origins[8], region.position);
        assert_eq!(origins[0], (region.position.0 - 1, region.position.1 - 1));
    }
}
