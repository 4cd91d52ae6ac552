use raytrace_core::image::{ImgData, PixelGrid};

#[test]
fn img_data_holds_dimensions() {
    let img = ImgData::new(1080, 1920);
    assert_eq!(img.height, 1080);
    assert_eq!(img.width, 1920);
    assert_eq!(img.pixel_count(), 1920 * 1080);
}

#[test]
fn pixel_order_is_row_major() {
    let img = ImgData::new(2, 3);
    let order = img.pixel_order();
    assert_eq!(order, vec![(0, 0), (1, 0), (2, 0), (0, 1), (1, 1), (2, 1)]);
}

#[test]
fn pixel_order_covers_each_pixel_exactly_once() {
    let img = ImgData::new(10, 10);
    let order = img.pixel_order();
    assert_eq!(order.len(), 100);
    for x in 0..10usize {
        for y in 0..10usize {
            assert_eq!(order.iter().filter(|p| **p == (x, y)).count(), 1);
        }
    }
}

#[test]
fn grid_starts_filled_and_collects_results() {
    let img = ImgData::new(2, 3);
    let mut grid: PixelGrid<(u8, u8, u8)> = PixelGrid::new(img, (0, 0, 0));
    assert_eq!(grid.width(), 3);
    assert_eq!(grid.height(), 2);
    assert_eq!(*grid.get(1, 1), (0, 0, 0));

    grid.place(1, 1, (10, 20, 30));
    grid.place(0, 0, (1, 2, 3));
    assert_eq!(*grid.get(1, 1), (10, 20, 30));
    assert_eq!(*grid.get(0, 0), (1, 2, 3));
    // Untouched slots keep the fill value.
    assert_eq!(*grid.get(2, 1), (0, 0, 0));
}

#[test]
fn collection_order_does_not_change_the_image() {
    let img = ImgData::new(2, 2);
    let results = vec![(0usize, 0usize, 5u64), (1, 0, 6), (0, 1, 7), (1, 1, 8)];

    let mut forward: PixelGrid<u64> = PixelGrid::new(img, 0);
    for (x, y, c) in results.iter() {
        forward.place(*x, *y, *c);
    }

    let mut backward: PixelGrid<u64> = PixelGrid::new(img, 0);
    for (x, y, c) in results.iter().rev() {
        backward.place(*x, *y, *c);
    }

    for y in 0..2usize {
        for x in 0..2usize {
            assert_eq!(*forward.get(x, y), *backward.get(x, y));
        }
    }
}
