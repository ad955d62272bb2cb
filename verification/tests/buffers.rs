use rusterizer::buffers::{BufferTiles, ColorBuffer, CLEAR_COLOR, TILE_SIZE};
use rusterizer::coverage::CoverageMask;

const RED: u32 = 0xFFFF0000u32;
const BLUE: u32 = 0xFF0000FFu32;
const GREEN: u32 = 0xFF00FF00u32;

fn verify_avg_same(c: u32) {
    let colors = [c; 4];
    let avg = ColorBuffer::box_filter_color(&colors);
    assert_eq!(c, avg, "{:x}, {:x}", c, avg);
}

#[test]
fn average_same_color() {
    verify_avg_same(BLUE);
    verify_avg_same(GREEN);
    verify_avg_same(RED);
}

#[test]
fn average_two_colors() {
    let colors = [RED, BLUE, RED, BLUE];
    let avg = ColorBuffer::box_filter_color(&colors);
    let expected = 0xFF7F007Fu32;
    assert_eq!(expected, avg, "{:x}, {:x}", expected, avg);

    let colors = [RED, RED, BLUE, BLUE];
    let expected = 0xFF7F007Fu32;
    let avg = ColorBuffer::box_filter_color(&colors);
    assert_eq!(expected, avg, "{:x}, {:x}", expected, avg);

    let colors = [RED, GREEN, RED, GREEN];
    let expected = 0xFF7F7F00u32;
    let avg = ColorBuffer::box_filter_color(&colors);
    assert_eq!(expected, avg, "{:x}, {:x}", expected, avg);
}

#[test]
fn average_three_colors() {
    let colors = [RED, GREEN, RED, BLUE];
    let avg = ColorBuffer::box_filter_color(&colors);
    let expected = 0xFF7F3F3Fu32;
    assert_eq!(expected, avg, "{:x}, {:x}", expected, avg);
}

#[test]
fn average_colors() {
    let colors = [0xFF35B565, 0xFFF3FA12, 0xFF3E5469, 0xFF435623];

    let avg = ColorBuffer::box_filter_color(&colors);
    let expected = 0xFF6A9640u32;
    assert_eq!(expected, avg, "{:x}, {:x}", expected, avg);
}

#[test]
fn buffer_tiles_pow_2_square() {
    let mut tiles = BufferTiles::new(128, 128);

    assert_eq!(tiles.tiles.len(), 128 / TILE_SIZE * 128 / TILE_SIZE);
    assert!(tiles.masks[0].iter().all(|x| !x));
    assert_eq!(tiles.tiles[0].min_x, 0);
    assert_eq!(tiles.tiles[0].max_x, TILE_SIZE);
    assert_eq!(tiles.tiles[0].min_y, 0);
    assert_eq!(tiles.tiles[0].max_y, TILE_SIZE);

    assert_eq!(tiles.tiles[128 / TILE_SIZE - 1].min_x, 128 - TILE_SIZE);
    assert_eq!(tiles.tiles[128 / TILE_SIZE - 1].max_x, 128);
    assert_eq!(tiles.tiles[128 / TILE_SIZE - 1].min_y, 0);
    assert_eq!(tiles.tiles[128 / TILE_SIZE - 1].max_y, TILE_SIZE);

    assert_eq!(tiles.tiles.last().unwrap().min_x, 128 - TILE_SIZE);
    assert_eq!(tiles.tiles.last().unwrap().max_x, 128);
    assert_eq!(tiles.tiles.last().unwrap().min_y, 128 - TILE_SIZE);
    assert_eq!(tiles.tiles.last().unwrap().max_y, 128);

    tiles.mark(0, 0);
    assert!(!tiles.masks[0].iter().all(|x| !x));
    assert!(tiles.masks[0][0]);

    tiles.mark(TILE_SIZE - 1, TILE_SIZE - 1);
    assert_eq!(tiles.marked().len(), 1);
    assert!(tiles.masks[0][0]);

    tiles.mark(127, 127);
    assert_eq!(tiles.marked().len(), 2);
    assert!(tiles.masks[0].last().unwrap());

    tiles.mark(64, 64);
    let expected = if TILE_SIZE >= 64 { 2 } else { 3 };
    assert_eq!(tiles.marked().len(), expected);
    assert!(tiles.masks[0][64 / TILE_SIZE * (128 / TILE_SIZE) + 64 / TILE_SIZE]);
}

#[test]
fn buffer_tiles_uneven_rect() {
    let mut tiles = BufferTiles::new(442, 711);
    let n_horizontal = 7;
    let n_vertical = 12;

    assert_eq!(tiles.tiles.len(), n_horizontal * n_vertical);

    assert_eq!(tiles.tiles[0].min_x, 0);
    assert_eq!(tiles.tiles[0].max_x, TILE_SIZE);
    assert_eq!(tiles.tiles[0].min_y, 0);
    assert_eq!(tiles.tiles[0].max_y, TILE_SIZE);

    assert_eq!(tiles.tiles.last().unwrap().min_x, 442 - (442 % TILE_SIZE));
    assert_eq!(tiles.tiles.last().unwrap().max_x, 442);
    assert_eq!(tiles.tiles.last().unwrap().min_y, 711 - (711 % TILE_SIZE));
    assert_eq!(tiles.tiles.last().unwrap().max_y, 711);

    // End of first row
    assert_eq!(tiles.tiles[442 / TILE_SIZE].min_x, 442 - (442 % TILE_SIZE));
    assert_eq!(tiles.tiles[442 / TILE_SIZE].max_x, 442);
    assert_eq!(tiles.tiles[442 / TILE_SIZE].min_y, 0);
    assert_eq!(tiles.tiles[442 / TILE_SIZE].max_y, TILE_SIZE);

    // First column
    assert_eq!(tiles.tiles[n_horizontal * (n_vertical - 1)].min_x, 0);
    assert_eq!(tiles.tiles[n_horizontal * (n_vertical - 1)].max_x, TILE_SIZE);
    assert_eq!(
        tiles.tiles[n_horizontal * (n_vertical - 1)].min_y,
        711 - (711 % TILE_SIZE)
    );
    assert_eq!(tiles.tiles[n_horizontal * (n_vertical - 1)].max_y, 711);

    tiles.mark(0, 0);
    assert!(!tiles.masks[0].iter().all(|x| !x));
    assert!(tiles.masks[0][0]);

    tiles.mark(TILE_SIZE - 1, TILE_SIZE - 1);
    assert_eq!(tiles.marked().len(), 1);
    assert!(tiles.masks[0][0]);

    tiles.mark(711, 442);
    assert_eq!(tiles.marked().len(), 2);
    assert!(tiles.masks[0].last().unwrap());

    tiles.mark(64, 64);
    assert_eq!(tiles.marked().len(), 3);
    assert!(tiles.masks[0][64 / TILE_SIZE * (442 / TILE_SIZE + 1) + 64 / TILE_SIZE]);

    tiles.next();

    assert_eq!(tiles.marked().len(), 0);
    assert_eq!(tiles.prev_marked().len(), 3);
    assert!(tiles.masks[0][64 / TILE_SIZE * (442 / TILE_SIZE + 1) + 64 / TILE_SIZE]);
    assert!(tiles.masks[0].last().unwrap());

    tiles.next();

    assert_eq!(tiles.marked().len(), 0);
    assert_eq!(tiles.prev_marked().len(), 0);
}

#[test]
fn marked_returns_tiles_in_order() {
    // 200 x 100 pixels: four tile columns, two tile rows.
    let mut tiles = BufferTiles::new(200, 100);
    assert_eq!(tiles.tiles.len(), 8);
    tiles.mark(0, 70);
    tiles.mark(70, 0);
    let m = tiles.marked();
    assert_eq!(m.len(), 2);
    assert_eq!(m[0], tiles.tiles[1]);
    assert_eq!(m[1], tiles.tiles[4]);
}

#[test]
fn color_buffer_starts_clear() {
    let buf = ColorBuffer::new(4, 3);
    assert_eq!(buf.buffer.len(), 12);
    assert_eq!(buf.clear_buffer.len(), 12);
    assert_eq!(buf.resolve_buffer.len(), 12);
    assert!(buf.buffer.iter().all(|px| *px == [CLEAR_COLOR; 4]));
    assert!(buf.resolve_buffer.iter().all(|px| *px == CLEAR_COLOR));
}

#[test]
fn set_pixel_one_sample() {
    let mut buf = ColorBuffer::new(2, 2);
    buf.set_pixel(3, 1, RED);
    assert_eq!(buf.buffer[3], [CLEAR_COLOR, RED, CLEAR_COLOR, CLEAR_COLOR]);
    assert_eq!(buf.buffer[0], [CLEAR_COLOR; 4]);
    assert_eq!(buf.buffer[1], [CLEAR_COLOR; 4]);
    assert_eq!(buf.buffer[2], [CLEAR_COLOR; 4]);
}

#[test]
fn write_pixel_covered_samples() {
    let mut buf = ColorBuffer::new(2, 1);
    let mut cov = CoverageMask::new();
    cov.set(0, true);
    cov.set(2, true);
    buf.write_pixel(1, cov, GREEN);
    assert_eq!(buf.buffer[1], [GREEN, CLEAR_COLOR, GREEN, CLEAR_COLOR]);
    assert_eq!(buf.buffer[0], [CLEAR_COLOR; 4]);
}

#[test]
fn write_pixel_empty_mask_writes_nothing() {
    let mut buf = ColorBuffer::new(2, 1);
    buf.set_pixel(0, 0, BLUE);
    let before_0 = buf.buffer[0];
    let before_1 = buf.buffer[1];
    let empty = CoverageMask::new();
    buf.write_pixel(0, empty, RED);
    buf.write_pixel(1, empty, RED);
    assert_eq!(buf.buffer[0], before_0);
    assert_eq!(buf.buffer[1], before_1);
}

#[test]
fn resolve_averages_and_clears() {
    let mut buf = ColorBuffer::new(2, 1);
    buf.set_pixel(0, 0, RED);
    buf.set_pixel(0, 1, BLUE);
    buf.set_pixel(0, 2, RED);
    buf.set_pixel(0, 3, BLUE);
    buf.resolve_and_clear();
    assert_eq!(buf.resolve_buffer[0], 0xFF7F007Fu32);
    assert_eq!(
        buf.resolve_buffer[1],
        ColorBuffer::box_filter_color(&[CLEAR_COLOR; 4])
    );
    assert!(buf.buffer.iter().all(|px| *px == [CLEAR_COLOR; 4]));
}
