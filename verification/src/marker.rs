use vstd::prelude::*;

use crate::code::{code_of, extract_data};
use crate::dictionary::Dictionary;
use crate::grid::{GrayImage, Grid};
use crate::imageops::{
    crop, cropped, nearest_resized, resize_nearest, rotate180, rotate270, rotate90, rotated180,
    rotated270, rotated90,
};

verus! {

/// A pixel position.
#[derive(Clone, Copy, Debug, PartialEq, Eq, Structural)]
pub struct Point {
    pub x: u32,
    pub y: u32,
}

/// A marker found in an image: its dictionary id and its four corners, the first one being
/// the corner that is top-left when the marker stands upright.
#[derive(Clone, Copy, Debug)]
pub struct Aruco {
    pub id: usize,
    pub corners: [Point; 4],
}

/// The grid turned clockwise by `k` quarter turns (`k` in `0..4`).
pub open spec fn turned(g: Grid, k: nat) -> Grid {
    if k == 0 {
        g
    } else if k == 1 {
        rotated90(g)
    } else if k == 2 {
        rotated180(g)
    } else {
        rotated270(g)
    }
}

/// Whether the code of the grid turned by `k` quarter turns is in the dictionary.
pub open spec fn known_at(g: Grid, dict: Map<u16, usize>, k: nat) -> bool {
    dict.contains_key(code_of(turned(g, k)))
}

/// The id of the grid turned by `k` quarter turns, with `k`.
pub open spec fn found_at(g: Grid, dict: Map<u16, usize>, k: nat) -> Option<(usize, nat)> {
    Some((dict[code_of(turned(g, k))], k))
}

/// The first number of quarter turns, in `0..4`, after which the grid's code is in the
/// dictionary, with the id it stands for; `None` when no turn gives a known code.
pub open spec fn orientation(g: Grid, dict: Map<u16, usize>) -> Option<(usize, nat)> {
    if known_at(g, dict, 0) {
        found_at(g, dict, 0)
    } else if known_at(g, dict, 1) {
        found_at(g, dict, 1)
    } else if known_at(g, dict, 2) {
        found_at(g, dict, 2)
    } else if known_at(g, dict, 3) {
        found_at(g, dict, 3)
    } else {
        None
    }
}

/// The four corners renumbered to start at corner `k`.
pub open spec fn shifted(corners: Seq<Point>, k: nat) -> Seq<Point> {
    Seq::new(4, |i: int| corners[(i + k) % 4])
}

/// What decoding a 6x6 grid with the given corners gives: the marker of the first orientation
/// whose code is known, with its corners renumbered by the same number of quarter turns.
pub open spec fn decoded(r: Option<Aruco>, g: Grid, corners: Seq<Point>, dict: Map<u16, usize>) -> bool {
    match orientation(g, dict) {
        None => r is None,
        Some((id, k)) => r matches Some(m) && m.id == id && m.corners@ == shifted(corners, k),
    }
}

/// The 6x6 grid that a warped marker image is sampled to: its top-left 100x100 region,
/// resampled by nearest neighbour.
pub open spec fn marker_cells(warped: Grid) -> Grid {
    Grid { width: 6, height: 6, pixels: nearest_resized(cropped(warped, 0, 0, 100, 100), 6, 6) }
}

/// What decoding gives, said directly: `None` exactly when no number of quarter turns in
/// `0..4` gives a code that the dictionary knows; otherwise, for the first such number `k`,
/// the id of that code, and corner `i` of the result is input corner `(i + k) % 4`.
pub proof fn lemma_decoded_means(r: Option<Aruco>, g: Grid, marker: [Point; 4], dict: Map<u16, usize>)
    requires
        decoded(r, g, marker@, dict),
    ensures
        match r {
            None => forall|k: nat| k < 4 ==> !dict.contains_key(code_of(#[trigger] turned(g, k))),
            Some(m) => exists|k: nat|
                k < 4 && (forall|j: nat| j < k ==> !dict.contains_key(code_of(#[trigger] turned(g, j))))
                    && dict.contains_key(code_of(#[trigger] turned(g, k))) && m.id == dict[code_of(
                    turned(g, k),
                )] && (forall|i: int| 0 <= i < 4 ==> #[trigger] m.corners[i] == marker[(i + k) % 4]),
        },
{
    match r {
        None => {
            assert forall|k: nat| k < 4 implies !dict.contains_key(code_of(#[trigger] turned(g, k))) by {
                assert(!known_at(g, dict, k));
            }
        },
        Some(m) => {
            let (id, k) = orientation(g, dict).unwrap();
            assert(k < 4);
            assert(forall|j: nat| j < k ==> !known_at(g, dict, j));
            assert forall|i: int| 0 <= i < 4 implies #[trigger] m.corners[i] == marker[(i + k) % 4] by {
                assert(m.corners@[i] == shifted(marker@, k)[i]);
            }
            assert(dict.contains_key(code_of(turned(g, k))));
        },
    }
}

/// Corner `i` of the corners renumbered by `k` quarter turns is corner `(i + k) % 4`.
pub proof fn lemma_shifted_corner(corners: Seq<Point>, k: nat, i: int)
    requires
        0 <= i < 4,
    ensures
        shifted(corners, k)[i] == corners[(i + k) % 4],
{
}

/// The grid read from a warped image depends only on the image's top-left 100x100 region:
/// two images of at least 100x100 pixels that agree there, whatever their sizes, give the
/// same grid.
pub proof fn lemma_marker_cells_read_top_left(w1: Grid, w2: Grid)
    requires
        w1.is_wf(),
        w2.is_wf(),
        w1.width >= 100,
        w1.height >= 100,
        w2.width >= 100,
        w2.height >= 100,
        forall|x: int, y: int|
            0 <= x < 100 && 0 <= y < 100 ==> #[trigger] w1.pixels[y * w1.width + x]
                == #[trigger] w2.pixels[y * w2.width + x],
    ensures
        marker_cells(w1) == marker_cells(w2),
{
    let c1 = cropped(w1, 0, 0, 100, 100);
    let c2 = cropped(w2, 0, 0, 100, 100);
    assert(c1.width == 100 && c1.height == 100 && c2.width == 100 && c2.height == 100);
    assert(c1.width * c1.height == 10000) by (nonlinear_arith)
        requires
            c1.width == 100 && c1.height == 100,
    ;
    assert(c2.width * c2.height == 10000) by (nonlinear_arith)
        requires
            c2.width == 100 && c2.height == 100,
    ;
    assert forall|i: int| 0 <= i < 10000 implies #[trigger] c1.pixels[i] == c2.pixels[i] by {
        let x: int = i % 100;
        let y: int = i / 100;
        assert(0 <= x < 100 && 0 <= y < 100);
        assert(c1.pixels[i] == w1.at(x, y));
        assert(c2.pixels[i] == w2.at(x, y));
        assert(w1.pixels[y * w1.width + x] == w2.pixels[y * w2.width + x]);
    }
    assert(c1.pixels =~= c2.pixels);
    assert(c1 == c2);
}

/// Decodes a 6x6 marker grid: tries the grid as it is and turned by one, two and three
/// quarter turns clockwise, and returns the marker of the first orientation whose code the
/// dictionary knows, with the corners renumbered to match that orientation.
pub fn decode_marker(bits_img: &GrayImage, marker: &[Point; 4], dict: &Dictionary) -> (r: Option<Aruco>)
    requires
        bits_img@.width == 6,
        bits_img@.height == 6,
    ensures
        decoded(r, bits_img@, marker@, dict@),
        match r {
            None => forall|k: nat| k < 4 ==> !dict@.contains_key(code_of(#[trigger] turned(bits_img@, k))),
            Some(m) => exists|k: nat|
                k < 4 && (forall|j: nat| j < k ==> !dict@.contains_key(code_of(#[trigger] turned(bits_img@, j))))
                    && dict@.contains_key(code_of(#[trigger] turned(bits_img@, k))) && m.id == dict@[code_of(
                    turned(bits_img@, k),
                )] && (forall|i: int| 0 <= i < 4 ==> #[trigger] m.corners[i] == marker[(i + k) % 4]),
        },
{
    let data = extract_data(bits_img);
    if let Some(index) = dict.get(data) {
        let corners = [marker[0], marker[1], marker[2], marker[3]];
        assert(corners@ =~= shifted(marker@, 0));
        let r = Some(Aruco { id: index, corners });
        proof {
            lemma_decoded_means(r, bits_img@, *marker, dict@);
        }
        return r;
    }
    let rotate_bits_img = rotate90(bits_img);
    if let Some(index) = dict.get(extract_data(&rotate_bits_img)) {
        let corners = [marker[1], marker[2], marker[3], marker[0]];
        assert(corners@ =~= shifted(marker@, 1));
        let r = Some(Aruco { id: index, corners });
        proof {
            lemma_decoded_means(r, bits_img@, *marker, dict@);
        }
        return r;
    }
    let rotate_bits_img = rotate180(bits_img);
    if let Some(index) = dict.get(extract_data(&rotate_bits_img)) {
        let corners = [marker[2], marker[3], marker[0], marker[1]];
        assert(corners@ =~= shifted(marker@, 2));
        let r = Some(Aruco { id: index, corners });
        proof {
            lemma_decoded_means(r, bits_img@, *marker, dict@);
        }
        return r;
    }
    let rotate_bits_img = rotate270(bits_img);
    if let Some(index) = dict.get(extract_data(&rotate_bits_img)) {
        let corners = [marker[3], marker[0], marker[1], marker[2]];
        assert(corners@ =~= shifted(marker@, 3));
        let r = Some(Aruco { id: index, corners });
        proof {
            lemma_decoded_means(r, bits_img@, *marker, dict@);
        }
        return r;
    }
    proof {
        lemma_decoded_means(None, bits_img@, *marker, dict@);
    }
    None
}

/// Reads the marker in a warped marker image: samples its top-left 100x100 region to a 6x6
/// grid by nearest neighbour and decodes that grid.
pub fn read_marker(warped: &GrayImage, marker: &[Point; 4], dict: &Dictionary) -> (r: Option<Aruco>)
    ensures
        decoded(r, marker_cells(warped@), marker@, dict@),
        match r {
            None => forall|k: nat| k < 4 ==> !dict@.contains_key(code_of(#[trigger] turned(Grid { width: 6, height: 6, pixels: nearest_resized(cropped(warped@, 0, 0, 100, 100), 6, 6) }, k))),
            Some(m) => exists|k: nat|
                k < 4 && (forall|j: nat| j < k ==> !dict@.contains_key(code_of(#[trigger] turned(Grid { width: 6, height: 6, pixels: nearest_resized(cropped(warped@, 0, 0, 100, 100), 6, 6) }, j))))
                    && dict@.contains_key(code_of(#[trigger] turned(Grid { width: 6, height: 6, pixels: nearest_resized(cropped(warped@, 0, 0, 100, 100), 6, 6) }, k))) && m.id == dict@[code_of(
                    turned(Grid { width: 6, height: 6, pixels: nearest_resized(cropped(warped@, 0, 0, 100, 100), 6, 6) }, k),
                )] && (forall|i: int| 0 <= i < 4 ==> #[trigger] m.corners[i] == marker[(i + k) % 4]),
        },
{
    let sub_img = crop(warped, 0, 0, 100, 100);
    let bits_img = resize_nearest(&sub_img, 6, 6);
    let r = decode_marker(&bits_img, marker, dict);
    proof {
        lemma_decoded_means(r, bits_img@, *marker, dict@);
    }
    r
}

} // verus!
