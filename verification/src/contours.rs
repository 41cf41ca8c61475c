//! Binarisation of a grey image and the hole borders that are marker candidates.
use vstd::prelude::*;

use crate::grid::{GrayImage, Grid};
use crate::marker::Point;

verus! {

/// Sum of the pixels of row `y` from column `x0` to column `x1`, both included.
pub open spec fn row_sum(g: Grid, y: int, x0: int, x1: int) -> int
    decreases x1 - x0 + 1,
{
    if x1 < x0 {
        0
    } else {
        row_sum(g, y, x0, x1 - 1) + g.at(x1, y)
    }
}

/// Sum of the pixels of the block of columns `x0..=x1` and rows `y0..=y1`.
pub open spec fn block_sum(g: Grid, x0: int, x1: int, y0: int, y1: int) -> int
    decreases y1 - y0 + 1,
{
    if y1 < y0 {
        0
    } else {
        block_sum(g, x0, x1, y0, y1 - 1) + row_sum(g, y1, x0, x1)
    }
}

/// The mean brightness, rounded down, of the square of radius `r` around `(x, y)`, cut down
/// to the part of the square that lies inside the image.
pub open spec fn local_mean(g: Grid, r: int, x: int, y: int) -> int {
    let x0 = if x - r < 0 { 0 } else { x - r };
    let x1 = if x + r > g.width - 1 { g.width - 1 } else { x + r };
    let y0 = if y - r < 0 { 0 } else { y - r };
    let y1 = if y + r > g.height - 1 { g.height - 1 } else { y + r };
    block_sum(g, x0, x1, y0, y1) / ((x1 - x0 + 1) * (y1 - y0 + 1))
}

/// Adaptive thresholding: a pixel becomes 255 when it is at least as bright as the mean of
/// the square of radius `r` around it, and 0 otherwise.
pub open spec fn thresholded(g: Grid, r: int) -> Grid {
    Grid {
        width: g.width,
        height: g.height,
        pixels: Seq::new(
            g.width * g.height,
            |i: int|
                {
                    let x = i % (g.width as int);
                    let y = i / (g.width as int);
                    if g.at(x, y) >= local_mean(g, r, x, y) {
                        255u8
                    } else {
                        0u8
                    }
                },
        ),
    }
}

/// Adaptive thresholding gives a binary image of the same size: every pixel is 0 or 255.
pub proof fn lemma_thresholded_is_binary(g: Grid, r: int)
    ensures
        thresholded(g, r).width == g.width,
        thresholded(g, r).height == g.height,
        thresholded(g, r).is_wf(),
        forall|i: int|
            0 <= i < thresholded(g, r).pixels.len() ==> #[trigger] thresholded(g, r).pixels[i] == 0
                || thresholded(g, r).pixels[i] == 255,
{
}

/// A contour as plain values: its points as `(x, y)` pairs, whether it borders a hole, and
/// the index of its parent border.
pub type ContourView = (Seq<(u32, u32)>, bool, Option<usize>);

/// The borders that the border following of `imageproc` finds in a binary image, in the order
/// it finds them.
pub uninterp spec fn contours_of(image: Grid) -> Seq<ContourView>;

/// Whether a border lies between a foreground region and the background region enclosing it,
/// or between a foreground region and a background region inside it.
#[derive(Clone, Copy, Debug, PartialEq, Eq, Structural)]
pub enum BorderType {
    Outer,
    Hole,
}

/// A border of an 8-connected foreground region.
#[derive(Debug)]
pub struct Contour {
    /// The points of the border.
    pub points: Vec<Point>,
    /// Whether the border encloses a hole.
    pub border_type: BorderType,
    /// The index of the enclosing border in the list the border came from.
    pub parent: Option<usize>,
}

impl View for Contour {
    type V = ContourView;

    open spec fn view(&self) -> ContourView {
        (
            self.points@.map_values(|p: Point| (p.x, p.y)),
            self.border_type == BorderType::Hole,
            self.parent,
        )
    }
}

/// The plain values of a list of contours.
pub open spec fn contour_views(s: Seq<Contour>) -> Seq<ContourView> {
    s.map_values(|c: Contour| c@)
}

/// Whether a contour borders a hole.
pub open spec fn is_hole(c: ContourView) -> bool {
    c.1
}

/// Calls `contrast::adaptive_threshold` of `imageproc`. Its documentation and source compare
/// each pixel with the mean of the `(2 * block_radius + 1)` square around it, cut to the
/// image, and give 255 where the pixel is at least the mean (rounded down) and 0 elsewhere,
/// which is `thresholded`. The source asserts `block_radius > 0`, adds one to each dimension
/// for its integral image, and keeps running sums in `u32` that stay below
/// `2 * 255 * width * height`.
#[verifier::external_body]
fn adaptive_threshold(image: &GrayImage, block_radius: u32) -> (out: GrayImage)
    requires
        0 < block_radius <= i32::MAX,
        image@.width <= 8421504,
        image@.height <= 8421504,
        image@.width * image@.height <= 8421504,
    ensures
        out@ == thresholded(image@, block_radius as int),
{
    let src = imageproc::image::GrayImage::from_raw(image.width, image.height, image.pixels.clone())
        .unwrap();
    let out = imageproc::contrast::adaptive_threshold(&src, block_radius);
    GrayImage { width: out.width(), height: out.height(), pixels: out.into_raw() }
}

/// Calls `contours::find_contours::<u32>` of `imageproc` and turns each `Contour` into the
/// library's `Contour` field by field. What the border following returns is named
/// `contours_of` and not stated here.
#[verifier::external_body]
fn find_contours(image: &GrayImage) -> (r: Vec<Contour>)
    ensures
        contour_views(r@) == contours_of(image@),
{
    let src = imageproc::image::GrayImage::from_raw(image.width, image.height, image.pixels.clone())
        .unwrap();
    let found = imageproc::contours::find_contours::<u32>(&src);
    found.into_iter().map(|c| Contour {
        points: c.points.into_iter().map(|p| Point { x: p.x, y: p.y }).collect(),
        border_type: match c.border_type {
            imageproc::contours::BorderType::Outer => BorderType::Outer,
            imageproc::contours::BorderType::Hole => BorderType::Hole,
        },
        parent: c.parent,
    }).collect()
}

/// Keeps the borders of holes, in their order: a contour is kept exactly when its border type
/// is `Hole`, whatever its points and parent.
pub fn hole_contours(contours: Vec<Contour>) -> (r: Vec<Contour>)
    ensures
        r@ == contours@.filter(|c: Contour| c.border_type == BorderType::Hole),
        contour_views(r@) == contour_views(contours@).filter(|c: ContourView| c.1),
        contour_views(r@) == contour_views(contours@).filter(|c: ContourView| is_hole(c)),
{
    let ghost all = contour_views(contours@);
    let ghost raw = contours@;
    let ghost pred = |c: ContourView| is_hole(c);
    let ghost keep = |c: Contour| c.border_type == BorderType::Hole;
    let mut holes: Vec<Contour> = Vec::new();
    for c in it: contours.into_iter()
        invariant
            raw == it.seq(),
            all == contour_views(raw),
            pred == (|c: ContourView| is_hole(c)),
            keep == (|c: Contour| c.border_type == BorderType::Hole),
            contour_views(holes@) == all.take(it.index() as int).filter(pred),
            holes@ == raw.take(it.index() as int).filter(keep),
    {
        let ghost i: int = it.index() as int;
        proof {
            assert(all.take(i + 1).drop_last() =~= all.take(i));
            assert(raw.take(i + 1).drop_last() =~= raw.take(i));
        }
        let hole: bool = c.border_type == BorderType::Hole;
        if hole {
            holes.push(c);
            proof {
                reveal_with_fuel(Seq::<_>::filter, 1);
                assert(contour_views(holes@) =~= all.take(i).filter(pred).push(all[i]));
                assert(holes@ =~= raw.take(i).filter(keep).push(raw[i]));
            }
        } else {
            proof {
                reveal_with_fuel(Seq::<_>::filter, 1);
            }
        }
    }
    assert(all.take(all.len() as int) =~= all);
    assert(raw.take(raw.len() as int) =~= raw);
    assert(pred =~= (|c: ContourView| c.1));
    holes
}

/// Keeping the hole borders of a list, as `hole_contours` does, keeps exactly its contours
/// whose border type is `Hole`, whatever their points: every kept contour is a hole border of
/// the list, and every hole border of the list is kept.
pub proof fn lemma_hole_borders_kept(contours: Seq<Contour>, kept: Seq<Contour>)
    requires
        kept == contours.filter(|c: Contour| c.border_type == BorderType::Hole),
    ensures
        forall|i: int|
            0 <= i < kept.len() ==> #[trigger] kept[i].border_type == BorderType::Hole
                && contours.contains(kept[i]),
        forall|i: int|
            0 <= i < contours.len() && #[trigger] contours[i].border_type == BorderType::Hole
                ==> kept.contains(contours[i]),
{
    let keep = |c: Contour| c.border_type == BorderType::Hole;
    assert forall|i: int| 0 <= i < kept.len() implies #[trigger] kept[i].border_type
        == BorderType::Hole && contours.contains(kept[i]) by {
        contours.lemma_filter_pred(keep, i);
        assert(kept.contains(kept[i]));
        contours.lemma_filter_contains_rev(keep, kept[i]);
    }
    assert forall|i: int|
        0 <= i < contours.len() && #[trigger] contours[i].border_type == BorderType::Hole
            implies kept.contains(contours[i]) by {
        contours.lemma_filter_contains(keep, i);
    }
}

/// Binarises a grey image by adaptive thresholding and returns the binary image with the
/// borders of holes found in it, the candidates for markers.
pub fn candidate_contours(gray_image: &GrayImage, block_radius: u32) -> (r: (GrayImage, Vec<Contour>))
    requires
        0 < block_radius <= i32::MAX,
        gray_image@.width <= 8421504,
        gray_image@.height <= 8421504,
        gray_image@.width * gray_image@.height <= 8421504,
    ensures
        r.0@ == thresholded(gray_image@, block_radius as int),
        contour_views(r.1@) == contours_of(r.0@).filter(|c: ContourView| is_hole(c)),
        contour_views(r.1@) == contours_of(r.0@).filter(|c: ContourView| c.1),
        forall|i: int| 0 <= i < r.1@.len() ==> #[trigger] r.1@[i].border_type == BorderType::Hole,
{
    let bin_img = adaptive_threshold(gray_image, block_radius);
    let contours = find_contours(&bin_img);
    let holes = hole_contours(contours);
    (bin_img, holes)
}

} // verus!
