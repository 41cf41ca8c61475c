use aruco::{candidate_contours, hole_contours, BorderType, Contour, GrayImage, Point};

#[test]
fn threshold_compares_with_local_mean() {
    // means: (0 + 100) / 2 = 50, (0 + 100 + 200) / 3 = 100, (100 + 200) / 2 = 150
    let g = GrayImage::new(3, 1, vec![0, 100, 200]).unwrap();
    let (bin, _) = candidate_contours(&g, 1);
    assert_eq!(bin.pixels(), &vec![0u8, 255, 255]);
}

#[test]
fn threshold_of_uniform_image_is_white() {
    let g = GrayImage::new(4, 3, vec![77u8; 12]).unwrap();
    let (bin, holes) = candidate_contours(&g, 2);
    assert_eq!(bin.pixels(), &vec![255u8; 12]);
    assert_eq!(bin.width(), 4);
    assert_eq!(bin.height(), 3);
    assert!(holes.is_empty());
}

/// A 9x9 dark image with a bright square ring from 2 to 6 whose inside (3..=5) is dark.
fn ring() -> GrayImage {
    let mut pixels = vec![0u8; 81];
    for y in 2..7 {
        for x in 2..7 {
            if x == 2 || x == 6 || y == 2 || y == 6 {
                pixels[y * 9 + x] = 255;
            }
        }
    }
    GrayImage::new(9, 9, pixels).unwrap()
}

#[test]
fn ring_has_one_hole_border() {
    let g = ring();
    // a radius that covers the whole image: the mean lies strictly between 0 and 255
    let (bin, holes) = candidate_contours(&g, 10);
    assert_eq!(bin.pixels(), g.pixels());
    assert_eq!(holes.len(), 1);
    assert_eq!(holes[0].border_type, BorderType::Hole);
    assert!(!holes[0].points.is_empty());
    for p in &holes[0].points {
        // the border of the hole lies on the ring
        assert!(p.x == 2 || p.x == 6 || p.y == 2 || p.y == 6);
    }
}

#[test]
fn filled_square_has_no_hole() {
    let mut pixels = vec![0u8; 81];
    for y in 2..7 {
        for x in 2..7 {
            pixels[y * 9 + x] = 255;
        }
    }
    let g = GrayImage::new(9, 9, pixels).unwrap();
    let (_, holes) = candidate_contours(&g, 10);
    assert!(holes.is_empty());
}

#[test]
fn hole_contours_keeps_holes_in_order() {
    let mk = |x: u32, t: BorderType, parent: Option<usize>| Contour {
        points: vec![Point { x, y: 0 }],
        border_type: t,
        parent,
    };
    let cs = vec![
        mk(0, BorderType::Outer, None),
        mk(1, BorderType::Hole, Some(0)),
        mk(2, BorderType::Outer, Some(1)),
        mk(3, BorderType::Hole, Some(2)),
    ];
    let holes = hole_contours(cs);
    assert_eq!(holes.len(), 2);
    assert_eq!(holes[0].points, vec![Point { x: 1, y: 0 }]);
    assert_eq!(holes[0].parent, Some(0));
    assert_eq!(holes[1].points, vec![Point { x: 3, y: 0 }]);
    assert_eq!(holes[1].border_type, BorderType::Hole);
}

#[test]
fn hole_contours_of_empty_list() {
    assert!(hole_contours(Vec::new()).is_empty());
}
