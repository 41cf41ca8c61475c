//! Decoding of square fiducial markers (4x4 ArUco-style) from grey images.
//!
//! The library holds the integer part of marker detection: thresholding a grey image,
//! collecting hole borders as marker candidates, sampling a warped marker to a 6x6 grid,
//! reading the 16 inner cells as a code and looking the code up in a dictionary in each of
//! the four orientations.
mod code;
mod contours;
mod dictionary;
mod grid;
mod imageops;
mod marker;
mod orientation;

pub use code::{bit_set, cell_set, code_of, code_prefix, extract_data, lemma_code_bits};
pub use contours::{
    block_sum, candidate_contours, contour_views, contours_of, hole_contours, is_hole,
    lemma_hole_borders_kept, lemma_thresholded_is_binary, local_mean, row_sum, thresholded,
    BorderType, Contour, ContourView,
};
pub use dictionary::Dictionary;
pub use grid::{GrayImage, Grid};
pub use imageops::{cropped, nearest_resized, rotated180, rotated270, rotated90};
pub use marker::{
    decode_marker, decoded, found_at, known_at, lemma_decoded_means,
    lemma_marker_cells_read_top_left, lemma_shifted_corner, marker_cells, orientation, read_marker,
    shifted, turned, Aruco, Point,
};
pub use orientation::{
    is_marker_grid, lemma_quarter_after_half, lemma_quarter_after_three, lemma_quarter_twice,
    lemma_read_in_any_orientation, lemma_turn_once_more, lemma_turned_pixels, lemma_turns_add,
};
