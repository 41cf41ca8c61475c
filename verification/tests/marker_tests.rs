use aruco::{decode_marker, extract_data, read_marker, Dictionary, GrayImage, Point};

/// A 6x6 grid whose inner cell (column `x`, row `y`, both in 1..5) is bright where `cells`
/// has a 1 at `(y - 1) * 4 + (x - 1)`, with a dark border.
fn grid_from_cells(cells: [u8; 16]) -> GrayImage {
    let mut pixels = vec![0u8; 36];
    for k in 0..16 {
        if cells[k] == 1 {
            let x = 1 + k % 4;
            let y = 1 + k / 4;
            pixels[y * 6 + x] = 255;
        }
    }
    GrayImage::new(6, 6, pixels).unwrap()
}

fn corners() -> [Point; 4] {
    [
        Point { x: 10, y: 10 },
        Point { x: 90, y: 10 },
        Point { x: 90, y: 90 },
        Point { x: 10, y: 90 },
    ]
}

fn dict_with(code: u16, id: usize) -> Dictionary {
    let mut d = Dictionary::new();
    d.insert(code, id);
    d
}

#[test]
fn extract_data_all_dark_is_zero() {
    let g = GrayImage::new(6, 6, vec![0u8; 36]).unwrap();
    assert_eq!(extract_data(&g), 0);
}

#[test]
fn extract_data_all_bright_is_all_ones() {
    let g = GrayImage::new(6, 6, vec![200u8; 36]).unwrap();
    assert_eq!(extract_data(&g), 0xffff);
}

#[test]
fn extract_data_first_cell_is_top_bit() {
    let mut cells = [0u8; 16];
    cells[0] = 1;
    assert_eq!(extract_data(&grid_from_cells(cells)), 0x8000);
}

#[test]
fn extract_data_last_cell_is_low_bit() {
    let mut cells = [0u8; 16];
    cells[15] = 1;
    assert_eq!(extract_data(&grid_from_cells(cells)), 0x0001);
}

#[test]
fn extract_data_row_major_order() {
    // second cell of the first row, first cell of the second row
    let mut cells = [0u8; 16];
    cells[1] = 1;
    cells[4] = 1;
    assert_eq!(extract_data(&grid_from_cells(cells)), 0x4800);
}

#[test]
fn extract_data_ignores_border() {
    let mut pixels = vec![255u8; 36];
    for y in 1..5 {
        for x in 1..5 {
            pixels[y * 6 + x] = 0;
        }
    }
    let g = GrayImage::new(6, 6, pixels).unwrap();
    assert_eq!(extract_data(&g), 0);
}

#[test]
fn extract_data_threshold_is_strictly_above_128() {
    let mut pixels = vec![0u8; 36];
    pixels[6 + 1] = 128;
    pixels[6 + 2] = 129;
    let g = GrayImage::new(6, 6, pixels).unwrap();
    assert_eq!(extract_data(&g), 0x4000);
}

#[test]
fn gray_image_new_checks_length() {
    assert!(GrayImage::new(6, 6, vec![0u8; 35]).is_none());
    assert!(GrayImage::new(6, 6, vec![0u8; 37]).is_none());
    let g = GrayImage::new(3, 2, vec![1, 2, 3, 4, 5, 6]).unwrap();
    assert_eq!(g.width(), 3);
    assert_eq!(g.height(), 2);
    assert_eq!(g.pixel(2, 1), 6);
    assert_eq!(g.pixel(0, 1), 4);
}

#[test]
fn dictionary_get_after_insert() {
    let mut d = Dictionary::new();
    assert_eq!(d.get(0x1234), None);
    d.insert(0x1234, 3);
    d.insert(0x00ff, 9);
    assert_eq!(d.get(0x1234), Some(3));
    assert_eq!(d.get(0x00ff), Some(9));
    assert_eq!(d.get(0x0000), None);
    d.insert(0x1234, 4);
    assert_eq!(d.get(0x1234), Some(4));
    assert_eq!(d.get(0x00ff), Some(9));
}

#[test]
fn decode_upright_marker_keeps_corners() {
    let mut cells = [0u8; 16];
    cells[0] = 1;
    let g = grid_from_cells(cells);
    let m = decode_marker(&g, &corners(), &dict_with(0x8000, 5)).unwrap();
    assert_eq!(m.id, 5);
    assert_eq!(m.corners, corners());
}

#[test]
fn decode_unknown_marker_is_none() {
    let mut cells = [0u8; 16];
    cells[0] = 1;
    let g = grid_from_cells(cells);
    // the four orientations read 0x8000, 0x1000, 0x0001 and 0x0008
    assert!(decode_marker(&g, &corners(), &dict_with(0x0002, 5)).is_none());
}

#[test]
fn decode_after_one_quarter_turn() {
    // The grid with only the top-left inner cell set reads 0x8000. Turned a quarter clockwise
    // that cell is top-right (cell 3, code 0x1000). A dictionary that knows 0x1000 finds the
    // grid after one quarter turn.
    let mut cells = [0u8; 16];
    cells[0] = 1;
    let g = grid_from_cells(cells);
    let c = corners();
    let m = decode_marker(&g, &c, &dict_with(0x1000, 2)).unwrap();
    assert_eq!(m.id, 2);
    assert_eq!(m.corners, [c[1], c[2], c[3], c[0]]);
}

#[test]
fn decode_after_half_turn() {
    let mut cells = [0u8; 16];
    cells[0] = 1;
    let g = grid_from_cells(cells);
    let c = corners();
    let m = decode_marker(&g, &c, &dict_with(0x0001, 8)).unwrap();
    assert_eq!(m.id, 8);
    assert_eq!(m.corners, [c[2], c[3], c[0], c[1]]);
}

#[test]
fn decode_after_three_quarter_turns() {
    // Three quarter turns clockwise move the top-left cell to the bottom-left (cell 12).
    let mut cells = [0u8; 16];
    cells[0] = 1;
    let g = grid_from_cells(cells);
    let c = corners();
    let m = decode_marker(&g, &c, &dict_with(0x0008, 11)).unwrap();
    assert_eq!(m.id, 11);
    assert_eq!(m.corners, [c[3], c[0], c[1], c[2]]);
}

#[test]
fn decode_prefers_first_orientation() {
    // Every orientation of an all-bright grid reads 0xffff: the upright reading wins.
    let g = GrayImage::new(6, 6, vec![255u8; 36]).unwrap();
    let c = corners();
    let m = decode_marker(&g, &c, &dict_with(0xffff, 1)).unwrap();
    assert_eq!(m.corners, c);
}

#[test]
fn marker_read_in_every_orientation() {
    // An asymmetric marker: cells 0, 1 and 4 set (code 0xc800).
    let mut cells = [0u8; 16];
    cells[0] = 1;
    cells[1] = 1;
    cells[4] = 1;
    let dict = dict_with(0xc800, 42);
    let c = corners();
    // the marker itself and its turns by hand: a quarter turn clockwise maps inner cell
    // (col, row) to (3 - row, col)
    let mut turned = cells;
    for k in 0..4 {
        let g = grid_from_cells(turned);
        let m = decode_marker(&g, &c, &dict).unwrap();
        assert_eq!(m.id, 42);
        let shift = (4 - k) % 4;
        assert_eq!(m.corners, [c[shift], c[(shift + 1) % 4], c[(shift + 2) % 4], c[(shift + 3) % 4]]);
        let mut next = [0u8; 16];
        for i in 0..16 {
            let (col, row) = (i % 4, i / 4);
            let (ncol, nrow) = (3 - row, col);
            next[nrow * 4 + ncol] = turned[i];
        }
        turned = next;
    }
}

/// A `size` x `size` image whose top-left 100x100 region shows the 6x6 grid of `cells`
/// (each grid cell 100/6 pixels wide) and whose remaining pixels are `rest`.
fn warped_marker(cells: [u8; 16], size: usize, rest: u8) -> GrayImage {
    let mut pixels = vec![rest; size * size];
    for y in 0..100 {
        for x in 0..100 {
            let (cx, cy) = (x * 6 / 100, y * 6 / 100);
            let on = cx >= 1 && cx <= 4 && cy >= 1 && cy <= 4 && cells[(cy - 1) * 4 + (cx - 1)] == 1;
            pixels[y * size + x] = if on { 255 } else { 0 };
        }
    }
    GrayImage::new(size as u32, size as u32, pixels).unwrap()
}

#[test]
fn read_marker_samples_the_top_left_region() {
    let mut cells = [0u8; 16];
    cells[0] = 1;
    cells[1] = 1;
    cells[4] = 1;
    let warped = warped_marker(cells, 100, 0);
    let m = read_marker(&warped, &corners(), &dict_with(0xc800, 7)).unwrap();
    assert_eq!(m.id, 7);
    assert_eq!(m.corners, corners());
}

#[test]
fn read_marker_ignores_pixels_outside_the_region() {
    let mut cells = [0u8; 16];
    cells[15] = 1;
    let warped = warped_marker(cells, 200, 255);
    let m = read_marker(&warped, &corners(), &dict_with(0x0001, 3)).unwrap();
    assert_eq!(m.id, 3);
}

#[test]
fn read_marker_small_image_unknown() {
    let warped = GrayImage::new(10, 10, vec![0u8; 100]).unwrap();
    assert!(read_marker(&warped, &corners(), &dict_with(0xffff, 1)).is_none());
    let m = read_marker(&warped, &corners(), &dict_with(0x0000, 4)).unwrap();
    assert_eq!(m.id, 4);
}
