//! The integer side of the star field: one star per grid cell, its five
//! attributes drawn from a chain of pseudo-random words seeded by the cell's
//! coordinates.

use vstd::prelude::*;

verus! {

/// One round of the xorshift mixer on a 64-bit word: shift left by 13,
/// right by 7, left by 17, each folded in by exclusive or.
pub open spec fn xorshift_of(state: u64) -> u64 {
    let a = state ^ (state << 13u64);
    let b = a ^ (a >> 7u64);
    b ^ (b << 17u64)
}

/// The word after `rounds` rounds of the mixer.
pub open spec fn xorshift_rounds(state: u64, rounds: nat) -> u64
    decreases rounds,
{
    if rounds == 0 {
        state
    } else {
        xorshift_of(xorshift_rounds(state, (rounds - 1) as nat))
    }
}

/// Applies one round of the xorshift mixer.
pub fn simple_xorshift(state: u64) -> (r: u64)
    ensures
        r == xorshift_of(state),
{
    let mut x: u64 = state;
    x = x ^ (x << 13u64);
    x = x ^ (x >> 7u64);
    x = x ^ (x << 17u64);
    x
}

/// The five pseudo-random words of one star. Each stands for a fraction of
/// the full 64-bit range.
#[derive(Clone, Copy, Debug, PartialEq, Eq)]
pub struct StarSeeds {
    pub x_offset: u64,
    pub y_offset: u64,
    pub speed_multiplier: u64,
    pub spectra: u64,
    pub size: u64,
}

/// The words drawn from a seed: the seed itself, then one more round of the
/// mixer for each further attribute.
pub open spec fn seeds_of(seed: u64) -> StarSeeds {
    StarSeeds {
        x_offset: xorshift_rounds(seed, 0),
        y_offset: xorshift_rounds(seed, 1),
        speed_multiplier: xorshift_rounds(seed, 2),
        spectra: xorshift_rounds(seed, 3),
        size: xorshift_rounds(seed, 4),
    }
}

/// Draws the five words of a star from its seed.
pub fn star_from_seed(seed: u64) -> (r: StarSeeds)
    ensures
        r == seeds_of(seed),
{
    reveal_with_fuel(xorshift_rounds, 5);
    let x_offset = seed;
    let seed = simple_xorshift(seed);
    let y_offset = seed;
    let seed = simple_xorshift(seed);
    let speed_multiplier = seed;
    let seed = simple_xorshift(seed);
    let spectra = seed;
    let seed = simple_xorshift(seed);
    let size = seed;
    StarSeeds { x_offset, y_offset, speed_multiplier, spectra, size }
}

/// The word that `fxhash::FxHasher` gives for the two coordinates of a cell
/// on a machine whose words have `word_bits` bits.
pub uninterp spec fn cell_hash_of(x: i64, y: i64, word_bits: u32) -> u64;

/// `fxhash::FxHasher`: the hash of the two coordinates, fed in turn to a
/// hasher in its default state. The hasher is unseeded and folds machine
/// words, so the word depends on the coordinates and the machine's word size
/// alone; which word it is, is not claimed.
#[verifier::external_body]
fn cell_hash(x: i64, y: i64) -> (r: u64)
    ensures
        r == cell_hash_of(x, y, usize::BITS),
{
    let mut s = fxhash::FxHasher::default();
    std::hash::Hash::hash(&x, &mut s);
    std::hash::Hash::hash(&y, &mut s);
    std::hash::Hasher::finish(&s)
}

/// The star of one grid cell: the cell's coordinates and its five words.
#[derive(Clone, Copy, Debug, PartialEq, Eq)]
pub struct StarCell {
    pub x: i64,
    pub y: i64,
    pub seeds: StarSeeds,
}

/// The star of cell `(x, y)`: its words are drawn from the hash of the
/// cell's coordinates.
pub open spec fn star_of(x: int, y: int) -> StarCell {
    StarCell {
        x: x as i64,
        y: y as i64,
        seeds: seeds_of(cell_hash_of(x as i64, y as i64, usize::BITS)),
    }
}

/// The star of the cell at the given coordinates.
pub fn star_from_coordinates(x: i64, y: i64) -> (r: StarCell)
    ensures
        r == star_of(x as int, y as int),
{
    let seed = cell_hash(x, y);
    let seeds = star_from_seed(seed);
    StarCell { x, y, seeds }
}

/// The number of cells along an axis: a negative count is none.
pub open spec fn cell_count(cells: i64) -> nat {
    if cells > 0 {
        cells as nat
    } else {
        0
    }
}

/// The stars of a grid, as a value: row after row, each row from its first
/// column to its last.
pub open spec fn grid_of(start_x: i64, start_y: i64, cells_x: i64, cells_y: i64) -> Seq<StarCell> {
    Seq::new(
        cell_count(cells_x) * cell_count(cells_y),
        |k: int| star_of(start_x + k % (cells_x as int), start_y + k / (cells_x as int)),
    )
}

/// The stars of a grid of cells, row by row: the star at column `j` of row
/// `i` is that of cell `(start_x + j, start_y + i)`. A count that is not
/// positive gives no stars, whatever the start. The same grid gives the same
/// stars every time.
pub fn generate_stars(start_x: i64, start_y: i64, cells_x: i64, cells_y: i64) -> (r: Vec<
    StarCell,
>)
    requires
        cells_x > 0 && cells_y > 0 ==> start_x + cells_x - 1 <= i64::MAX,
        cells_x > 0 && cells_y > 0 ==> start_y + cells_y - 1 <= i64::MAX,
    ensures
        r@ == grid_of(start_x, start_y, cells_x, cells_y),
        r@.len() == cell_count(cells_x) * cell_count(cells_y),
        forall|i: int, j: int|
            0 <= i < cells_y && 0 <= j < cells_x ==> (#[trigger] r@[i * cells_x + j])
                == star_of(start_x + j, start_y + i),
{
    let mut star_list: Vec<StarCell> = Vec::new();
    if cells_x <= 0 || cells_y <= 0 {
        assert(cell_count(cells_x) * cell_count(cells_y) == 0) by (nonlinear_arith)
            requires
                cell_count(cells_x) == 0 || cell_count(cells_y) == 0,
        ;
        assert(star_list@ =~= grid_of(start_x, start_y, cells_x, cells_y));
        return star_list;
    }
    let mut i: i64 = 0;
    while i < cells_y
        invariant
            0 <= i <= cells_y,
            cells_x > 0,
            start_x + cells_x - 1 <= i64::MAX,
            start_y + cells_y - 1 <= i64::MAX,
            star_list@.len() == i * cells_x,
            forall|a: int, b: int|
                0 <= a < i && 0 <= b < cells_x ==> (#[trigger] star_list@[a * cells_x + b])
                    == star_of(start_x + b, start_y + a),
        decreases cells_y - i,
    {
        let mut j: i64 = 0;
        while j < cells_x
            invariant
                0 <= j <= cells_x,
                0 <= i < cells_y,
                start_x + cells_x - 1 <= i64::MAX,
                start_y + cells_y - 1 <= i64::MAX,
                star_list@.len() == i * cells_x + j,
                forall|a: int, b: int|
                    0 <= a < i && 0 <= b < cells_x ==> (#[trigger] star_list@[a * cells_x + b])
                        == star_of(start_x + b, start_y + a),
                forall|b: int|
                    0 <= b < j ==> (#[trigger] star_list@[i * cells_x + b]) == star_of(
                        start_x + b,
                        start_y + i,
                    ),
            decreases cells_x - j,
        {
            let ghost before = star_list@;
            let star = star_from_coordinates(j + start_x, i + start_y);
            star_list.push(star);
            proof {
                assert forall|a: int, b: int| 0 <= a < i && 0 <= b < cells_x implies (
                #[trigger] star_list@[a * cells_x + b]) == star_of(start_x + b, start_y + a) by {
                    lemma_cell_index(a, b, i as int, cells_x as int);
                    assert(star_list@[a * cells_x + b] == before[a * cells_x + b]);
                }
                assert forall|b: int| 0 <= b < j + 1 implies (
                #[trigger] star_list@[i * cells_x + b]) == star_of(start_x + b, start_y + i) by {
                    if b < j {
                        assert(star_list@[i * cells_x + b] == before[i * cells_x + b]);
                    }
                }
            }
            j = j + 1;
        }
        proof {
            assert((i + 1) * cells_x == i * cells_x + cells_x) by (nonlinear_arith);
            assert forall|a: int, b: int| 0 <= a < i + 1 && 0 <= b < cells_x implies (
            #[trigger] star_list@[a * cells_x + b]) == star_of(start_x + b, start_y + a) by {
                if a == i {
                    assert(star_list@[i * cells_x + b] == star_of(start_x + b, start_y + i));
                }
            }
        }
        i = i + 1;
    }
    proof {
        assert(cell_count(cells_x) * cell_count(cells_y) == cells_y * cells_x)
            by (nonlinear_arith)
            requires
                cell_count(cells_x) == cells_x,
                cell_count(cells_y) == cells_y,
        ;
        let grid = grid_of(start_x, start_y, cells_x, cells_y);
        assert forall|k: int| 0 <= k < star_list@.len() implies star_list@[k] == grid[k] by {
            lemma_cell_of_index(k, cells_x as int, cells_y as int);
            let a = k / (cells_x as int);
            let b = k % (cells_x as int);
            assert(star_list@[a * cells_x + b] == star_of(start_x + b, start_y + a));
        }
        assert(star_list@ =~= grid);
    }
    star_list
}

/// A place in the list is the column and the row that its remainder and its
/// quotient by the width give.
proof fn lemma_cell_of_index(k: int, width: int, height: int)
    requires
        0 < width,
        0 <= k < height * width,
    ensures
        0 <= k % width < width,
        0 <= k / width < height,
        k == (k / width) * width + k % width,
{
    vstd::arithmetic::div_mod::lemma_fundamental_div_mod(k, width);
    vstd::arithmetic::div_mod::lemma_mod_bound(k, width);
    let q = k / width;
    assert(q * width == width * q) by (nonlinear_arith);
    assert(0 <= q < height) by (nonlinear_arith)
        requires
            0 < width,
            0 <= k < height * width,
            k == width * q + k % width,
            0 <= k % width < width,
    ;
}

/// A cell of an earlier row stands before the start of a later row.
proof fn lemma_cell_index(a: int, b: int, i: int, width: int)
    requires
        0 <= a < i,
        0 <= b < width,
    ensures
        0 <= a * width + b < i * width,
{
    assert(a * width + b < i * width) by (nonlinear_arith)
        requires
            0 <= a < i,
            0 <= b < width,
    ;
    assert(0 <= a * width) by (nonlinear_arith)
        requires
            0 <= a,
            0 <= width,
    ;
}

} // verus!
