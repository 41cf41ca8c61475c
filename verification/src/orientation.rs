//! How the four orientations of a marker grid relate, and what that gives for decoding.
use vstd::prelude::*;

use crate::code::code_of;
use crate::grid::Grid;
use crate::imageops::{rotated180, rotated270, rotated90};
use crate::marker::{found_at, known_at, orientation, turned};

verus! {

/// A 6x6 grid whose pixel sequence has one value per cell.
pub open spec fn is_marker_grid(g: Grid) -> bool {
    g.width == 6 && g.height == 6 && g.is_wf()
}

proof fn lemma_index6(a: int, b: int)
    requires
        0 <= b < 6,
    ensures
        (6 * a + b) / 6 == a,
        (6 * a + b) % 6 == b,
{
    vstd::arithmetic::div_mod::lemma_fundamental_div_mod_converse(6 * a + b, 6, a, b);
}

/// The orientations of a 6x6 grid, pixel by pixel: turned by zero quarter turns it is the
/// grid itself; by one quarter turn clockwise, the pixel at `(x, y)` is the one at
/// `(y, 5 - x)`; by a half turn, the one at `(5 - x, 5 - y)`; by three quarter turns, the one
/// at `(5 - y, x)`. Every orientation is again a 6x6 grid.
pub proof fn lemma_turned_pixels(g: Grid, x: int, y: int)
    requires
        is_marker_grid(g),
        0 <= x < 6,
        0 <= y < 6,
    ensures
        turned(g, 0) == g,
        turned(g, 1).width == 6 && turned(g, 1).height == 6 && turned(g, 1).pixels.len() == 36,
        turned(g, 2).width == 6 && turned(g, 2).height == 6 && turned(g, 2).pixels.len() == 36,
        turned(g, 3).width == 6 && turned(g, 3).height == 6 && turned(g, 3).pixels.len() == 36,
        turned(g, 1).pixels[y * 6 + x] == g.pixels[(5 - x) * 6 + y],
        turned(g, 2).pixels[y * 6 + x] == g.pixels[(5 - y) * 6 + 5 - x],
        turned(g, 3).pixels[y * 6 + x] == g.pixels[x * 6 + 5 - y],
{
    lemma_index6(y, x);
}

/// Two quarter turns make a half turn.
pub proof fn lemma_quarter_twice(g: Grid)
    requires
        is_marker_grid(g),
    ensures
        rotated90(rotated90(g)) == rotated180(g),
        is_marker_grid(rotated90(g)),
{
    let r = rotated90(g);
    let a = rotated90(r);
    let b = rotated180(g);
    assert forall|i: int| 0 <= i < 36 implies #[trigger] a.pixels[i] == b.pixels[i] by {
        let x: int = i % 6;
        let y: int = i / 6;
        lemma_index6(5 - x, y);
    }
    assert(a.pixels =~= b.pixels);
}

/// A quarter turn after a half turn makes three quarter turns.
pub proof fn lemma_quarter_after_half(g: Grid)
    requires
        is_marker_grid(g),
    ensures
        rotated90(rotated180(g)) == rotated270(g),
        is_marker_grid(rotated180(g)),
{
    let r = rotated180(g);
    let a = rotated90(r);
    let b = rotated270(g);
    assert forall|i: int| 0 <= i < 36 implies #[trigger] a.pixels[i] == b.pixels[i] by {
        let x: int = i % 6;
        let y: int = i / 6;
        lemma_index6(5 - x, y);
    }
    assert(a.pixels =~= b.pixels);
}

/// A quarter turn after three quarter turns gives the grid back.
pub proof fn lemma_quarter_after_three(g: Grid)
    requires
        is_marker_grid(g),
    ensures
        rotated90(rotated270(g)) == g,
        is_marker_grid(rotated270(g)),
{
    let r = rotated270(g);
    let a = rotated90(r);
    assert forall|i: int| 0 <= i < 36 implies #[trigger] a.pixels[i] == g.pixels[i] by {
        let x: int = i % 6;
        let y: int = i / 6;
        lemma_index6(5 - x, y);
        lemma_index6(y, x);
    }
    assert(a.pixels =~= g.pixels);
}

/// One more quarter turn of a grid turned by `k` quarter turns is the grid turned by `k + 1`
/// quarter turns, counted modulo four.
pub proof fn lemma_turn_once_more(g: Grid, k: nat)
    requires
        is_marker_grid(g),
        k < 4,
    ensures
        rotated90(turned(g, k)) == turned(g, (k + 1) % 4),
        is_marker_grid(turned(g, k)),
{
    lemma_quarter_twice(g);
    lemma_quarter_after_half(g);
    lemma_quarter_after_three(g);
}

/// Turning by `j` quarter turns a grid turned by `k` quarter turns is turning it by `j + k`
/// quarter turns, counted modulo four.
pub proof fn lemma_turns_add(g: Grid, k: nat, j: nat)
    requires
        is_marker_grid(g),
        k < 4,
        j < 4,
    ensures
        turned(turned(g, k), j) == turned(g, (j + k) % 4),
        is_marker_grid(turned(g, k)),
{
    let x = turned(g, k);
    lemma_turn_once_more(g, k);
    let k1: nat = ((k + 1) % 4) as nat;
    let k2: nat = ((k + 2) % 4) as nat;
    lemma_turn_once_more(g, k1);
    lemma_turn_once_more(g, k2);
    assert((k1 + 1) % 4 == k2);
    lemma_quarter_twice(x);
    lemma_quarter_after_half(x);
}

/// Looking up the grid turned by `k` and then by `j` quarter turns is looking up the grid
/// turned by `j + k` quarter turns.
proof fn lemma_lookup_turned(g: Grid, dict: Map<u16, usize>, k: nat, j: nat)
    requires
        is_marker_grid(g),
        k < 4,
        j < 4,
    ensures
        known_at(turned(g, k), dict, j) == known_at(g, dict, ((j + k) % 4) as nat),
        code_of(turned(turned(g, k), j)) == code_of(turned(g, ((j + k) % 4) as nat)),
{
    lemma_turns_add(g, k, j);
}

/// A marker is read in each of its four orientations: when the dictionary knows the code of a
/// marker grid and none of the codes of its other three orientations, the grid turned by `k`
/// quarter turns is found, with the same id, after `(4 - k) % 4` further quarter turns.
pub proof fn lemma_read_in_any_orientation(g: Grid, dict: Map<u16, usize>, k: nat)
    requires
        is_marker_grid(g),
        k < 4,
        dict.contains_key(code_of(g)),
        !known_at(g, dict, 1),
        !known_at(g, dict, 2),
        !known_at(g, dict, 3),
    ensures
        orientation(turned(g, k), dict) == Some((dict[code_of(g)], ((4 - k) % 4) as nat)),
{
    lemma_lookup_turned(g, dict, k, 0);
    lemma_lookup_turned(g, dict, k, 1);
    lemma_lookup_turned(g, dict, k, 2);
    lemma_lookup_turned(g, dict, k, 3);
    assert(turned(g, 0) == g);
}

} // verus!
