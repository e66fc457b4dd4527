//! The map description: tile numbers separated by white space, read row
//! by row into tiles that cover the level. The text is UTF-8; white space
//! is what Unicode calls so.

use vstd::prelude::*;
use crate::geometry::Rect;
use crate::sprite::TileSprite;
use crate::tile::{Tile, LEVEL_WIDTH, TILE_HEIGHT, TILE_WIDTH, hits_wall};

verus! {

/// The longest map text, and the largest number of tiles, that can be
/// loaded: beyond it a tile's position would not fit its coordinates.
pub const MAX_MAP_TILES: usize = 0x1000_0000;

/// How many tiles make up one row of the level.
pub const TILES_PER_ROW: u32 = 16;

/// Why a map description was refused.
#[derive(PartialEq, Eq, Debug)]
pub enum MapError {
    /// A token that is not a number; it holds the token's bytes.
    Parse(Vec<u8>),
    /// A number that names no kind of tile; it holds the number.
    InvalidTileId(u32),
}

/// Whether a byte is a separator by itself: space, tab, line feed,
/// vertical tab, form feed or carriage return.
pub open spec fn is_space(b: u8) -> bool {
    b == 32 || (9 <= b <= 13)
}

/// Whether two bytes are the UTF-8 form of a white-space character:
/// next line (U+0085) or no-break space (U+00A0).
pub open spec fn is_space_pair(a: u8, b: u8) -> bool {
    a == 0xC2 && (b == 0x85 || b == 0xA0)
}

/// Whether three bytes are the UTF-8 form of a white-space character:
/// U+1680, U+2000 to U+200A, U+2028, U+2029, U+202F, U+205F or U+3000.
pub open spec fn is_space_triple(a: u8, b: u8, c: u8) -> bool {
    ||| a == 0xE1 && b == 0x9A && c == 0x80
    ||| a == 0xE2 && b == 0x80 && (0x80 <= c <= 0x8A || c == 0xA8 || c == 0xA9 || c == 0xAF)
    ||| a == 0xE2 && b == 0x81 && c == 0x9F
    ||| a == 0xE3 && b == 0x80 && c == 0x80
}

/// How many bytes the white-space character that starts at position `i`
/// takes; zero where none starts.
pub open spec fn space_len(s: Seq<u8>, i: int) -> int {
    if !(0 <= i < s.len()) {
        0
    } else if is_space(s[i]) {
        1
    } else if i + 1 < s.len() && is_space_pair(s[i], s[i + 1]) {
        2
    } else if i + 2 < s.len() && is_space_triple(s[i], s[i + 1], s[i + 2]) {
        3
    } else {
        0
    }
}

pub open spec fn is_digit(b: u8) -> bool {
    48 <= b <= 57
}

/// The first position at or after `i` where no white space starts.
pub open spec fn skip_spaces(s: Seq<u8>, i: int) -> int
    decreases s.len() - i,
{
    if space_len(s, i) > 0 {
        skip_spaces(s, i + space_len(s, i))
    } else {
        i
    }
}

/// The first position at or after `i` where white space starts, or the
/// end.
pub open spec fn token_end(s: Seq<u8>, i: int) -> int
    decreases s.len() - i,
{
    if 0 <= i < s.len() && space_len(s, i) == 0 {
        token_end(s, i + 1)
    } else {
        i
    }
}

/// The number that a run of decimal digits writes.
pub open spec fn digits_value(d: Seq<u8>) -> nat
    decreases d.len(),
{
    if d.len() == 0 {
        0
    } else {
        digits_value(d.drop_last()) * 10 + (d.last() - 48) as nat
    }
}

pub open spec fn all_digits(d: Seq<u8>) -> bool {
    forall|i: int| 0 <= i < d.len() ==> is_digit(#[trigger] d[i])
}

/// A token without its leading plus sign, if it has one.
pub open spec fn token_digits(t: Seq<u8>) -> Seq<u8> {
    if t.len() > 0 && t[0] == 43 {
        t.subrange(1, t.len() as int)
    } else {
        t
    }
}

/// The number that a token writes: an optional plus sign, then one or
/// more decimal digits whose value fits 32 bits. Any other token writes
/// none.
pub open spec fn token_value(t: Seq<u8>) -> Option<u32> {
    let d = token_digits(t);
    if d.len() > 0 && all_digits(d) && digits_value(d) <= u32::MAX {
        Some(digits_value(d) as u32)
    } else {
        None
    }
}

/// What follows `acc` when the rest of the text reads as `rest`.
pub open spec fn prepend(acc: Seq<u32>, rest: Result<Seq<u32>, Seq<u8>>) -> Result<
    Seq<u32>,
    Seq<u8>,
> {
    match rest {
        Ok(r) => Ok(acc + r),
        Err(t) => Err(t),
    }
}

/// The numbers that the text writes from position `i` on, in order, or
/// the first token from there that writes none.
pub open spec fn ids_from(s: Seq<u8>, i: int) -> Result<Seq<u32>, Seq<u8>>
    decreases s.len() - i,
{
    let b = skip_spaces(s, i);
    let e = token_end(s, b);
    if b < i || b >= s.len() || e <= b || e > s.len() {
        Ok(Seq::empty())
    } else {
        match token_value(s.subrange(b, e)) {
            None => Err(s.subrange(b, e)),
            Some(v) => prepend(seq![v], ids_from(s, e)),
        }
    }
}

/// The numbers that a map text writes, or its first malformed token.
pub open spec fn map_ids(s: Seq<u8>) -> Result<Seq<u32>, Seq<u8>> {
    ids_from(s, 0)
}

/// Where the `i`-th tile of a map lies: rows of sixteen, left to right,
/// top to bottom.
pub open spec fn grid_bounds(i: int) -> Rect {
    Rect {
        x: (TILE_WIDTH * (i % 16)) as i32,
        y: (TILE_HEIGHT * (i / 16)) as i32,
        w: TILE_WIDTH,
        h: TILE_HEIGHT,
    }
}

/// Whether every number names a kind of tile.
pub open spec fn all_known(ids: Seq<u32>) -> bool {
    forall|i: int| 0 <= i < ids.len() ==> #[trigger] ids[i] < 12
}

/// Whether `k` is the place of the first number that names no kind.
pub open spec fn first_unknown(ids: Seq<u32>, k: int) -> bool {
    &&& 0 <= k < ids.len()
    &&& ids[k] >= 12
    &&& forall|j: int| 0 <= j < k ==> #[trigger] ids[j] < 12
}

/// The tiles that a sequence of known numbers stands for.
pub open spec fn tile_grid(ids: Seq<u32>) -> Seq<Tile> {
    Seq::new(
        ids.len(),
        |i: int|
            Tile { bounds: grid_bounds(i), sprite_type: TileSprite::with_id(ids[i] as nat).unwrap() },
    )
}

/// What building a tile set from `ids` must return: the grid of tiles
/// when every number is known, else the first unknown number.
pub open spec fn tile_set_outcome(ids: Seq<u32>, r: Result<Vec<Tile>, MapError>) -> bool {
    match r {
        Ok(tiles) => all_known(ids) && tiles@ == tile_grid(ids),
        Err(MapError::InvalidTileId(v)) => exists|k: int| first_unknown(ids, k) && ids[k] == v,
        Err(MapError::Parse(_)) => false,
    }
}

proof fn lemma_prefix_value(d: Seq<u8>, k: int)
    requires
        0 <= k <= d.len(),
    ensures
        digits_value(d.take(k)) <= digits_value(d),
    decreases d.len(),
{
    if k == d.len() {
        assert(d.take(k) =~= d);
    } else {
        lemma_prefix_value(d.drop_last(), k);
        assert(d.drop_last().take(k) =~= d.take(k));
    }
}

fn space_len_at(text: &[u8], i: usize) -> (r: usize)
    ensures
        r == space_len(text@, i as int),
        r > 0 ==> i + r <= text.len(),
{
    let n: usize = text.len();
    if i >= n {
        return 0;
    }
    let a: u8 = text[i];
    if a == 32 || (9 <= a && a <= 13) {
        return 1;
    }
    if n - i >= 2 {
        let b: u8 = text[i + 1];
        if a == 0xC2 && (b == 0x85 || b == 0xA0) {
            return 2;
        }
        if n - i >= 3 {
            let c: u8 = text[i + 2];
            let wide: bool = (a == 0xE1 && b == 0x9A && c == 0x80) || (a == 0xE2 && b == 0x80 && ((
            0x80 <= c && c <= 0x8A) || c == 0xA8 || c == 0xA9 || c == 0xAF)) || (a == 0xE2 && b
                == 0x81 && c == 0x9F) || (a == 0xE3 && b == 0x80 && c == 0x80);
            if wide {
                return 3;
            }
        }
    }
    0
}

/// Reads the token that fills `text[start..end]` as a number.
fn parse_number(text: &[u8], start: usize, end: usize) -> (r: Option<u32>)
    requires
        start <= end <= text.len(),
    ensures
        r == token_value(text@.subrange(start as int, end as int)),
{
    let ghost t = text@.subrange(start as int, end as int);
    let mut i: usize = start;
    if i < end && text[i] == 43 {
        i += 1;
    }
    let first: usize = i;
    let ghost d = text@.subrange(first as int, end as int);
    proof {
        assert(d =~= token_digits(t));
    }
    if i >= end {
        return None;
    }
    let mut acc: u64 = 0;
    while i < end
        invariant
            first <= i <= end <= text.len(),
            start <= end,
            d == text@.subrange(first as int, end as int),
            d == token_digits(text@.subrange(start as int, end as int)),
            all_digits(d.take(i - first)),
            acc == digits_value(d.take(i - first)),
            acc <= u32::MAX,
        decreases end - i,
    {
        let c: u8 = text[i];
        if c < 48 || c > 57 {
            proof {
                assert(d[i - first] == c);
            }
            return None;
        }
        proof {
            assert(d.take(i - first + 1).drop_last() =~= d.take(i - first));
            assert(d.take(i - first + 1).last() == c);
        }
        acc = acc * 10 + (c - 48) as u64;
        if acc > 0xffff_ffff {
            proof {
                lemma_prefix_value(d, i - first + 1);
            }
            return None;
        }
        i += 1;
    }
    proof {
        assert(d.take(i - first) =~= d);
    }
    Some(acc as u32)
}

fn copy_range(text: &[u8], start: usize, end: usize) -> (r: Vec<u8>)
    requires
        start <= end <= text.len(),
    ensures
        r@ == text@.subrange(start as int, end as int),
{
    let mut out: Vec<u8> = Vec::new();
    let mut i: usize = start;
    while i < end
        invariant
            start <= i <= end <= text.len(),
            out@ == text@.subrange(start as int, i as int),
        decreases end - i,
    {
        out.push(text[i]);
        proof {
            assert(out@ =~= text@.subrange(start as int, i + 1));
        }
        i += 1;
    }
    out
}

/// Splits a map text at whitespace and reads each token as a number.
/// Returns the numbers in order, or a parse error that holds the first
/// token that is not a number.
pub fn parse_tile_ids(text: &[u8]) -> (r: Result<Vec<u32>, MapError>)
    ensures
        match r {
            Ok(ids) => map_ids(text@) == Ok::<Seq<u32>, Seq<u8>>(ids@) && ids.len() <= text.len(),
            Err(MapError::Parse(t)) => map_ids(text@) == Err::<Seq<u32>, Seq<u8>>(t@),
            Err(MapError::InvalidTileId(_)) => false,
        },
{
    let n: usize = text.len();
    let mut ids: Vec<u32> = Vec::new();
    let mut i: usize = 0;
    proof {
        assert(forall|r: Seq<u32>| Seq::<u32>::empty() + r =~= r);
    }
    loop
        invariant
            n == text.len(),
            0 <= i <= n,
            ids.len() <= i,
            map_ids(text@) == prepend(ids@, ids_from(text@, i as int)),
        decreases n - i,
    {
        let ghost from = i as int;
        let mut gap: usize = space_len_at(text, i);
        while gap > 0
            invariant
                n == text.len(),
                from <= i <= n,
                i + gap <= n,
                gap == space_len(text@, i as int),
                skip_spaces(text@, from) == skip_spaces(text@, i as int),
            decreases n - i,
        {
            i += gap;
            gap = space_len_at(text, i);
        }
        if i >= n {
            proof {
                assert(ids@ + Seq::<u32>::empty() =~= ids@);
            }
            return Ok(ids);
        }
        let begin: usize = i;
        while i < n && space_len_at(text, i) == 0
            invariant
                n == text.len(),
                begin <= i <= n,
                begin < n,
                space_len(text@, begin as int) == 0,
                token_end(text@, begin as int) == token_end(text@, i as int),
            decreases n - i,
        {
            i += 1;
        }
        assert(i > begin);
        assert(skip_spaces(text@, from) == begin);
        assert(token_end(text@, begin as int) == i);
        match parse_number(text, begin, i) {
            None => {
                return Err(MapError::Parse(copy_range(text, begin, i)));
            },
            Some(v) => {
                let ghost before = ids@;
                ids.push(v);
                proof {
                    let rest = ids_from(text@, i as int);
                    match rest {
                        Ok(r) => {
                            assert(before + (seq![v] + r) =~= ids@ + r);
                        },
                        Err(_) => {},
                    }
                }
            },
        }
    }
}

/// Lays the numbered tiles out over the level: the first at the origin,
/// each next one a tile's width to the right, a new row below whenever
/// the level's width is reached. Fails with the first number that names
/// no kind of tile.
pub fn build_tile_set(ids: &[u32]) -> (r: Result<Vec<Tile>, MapError>)
    requires
        ids.len() <= MAX_MAP_TILES,
    ensures
        tile_set_outcome(ids@, r),
{
    let mut tiles: Vec<Tile> = Vec::new();
    let mut x: u32 = 0;
    let mut y: u32 = 0;
    let mut i: usize = 0;
    while i < ids.len()
        invariant
            0 <= i <= ids.len() <= MAX_MAP_TILES,
            x == TILE_WIDTH * (i % 16),
            y == TILE_HEIGHT * (i / 16),
            all_known(ids@.take(i as int)),
            tiles@ == tile_grid(ids@.take(i as int)),
        decreases ids.len() - i,
    {
        match TileSprite::from_u32(ids[i]) {
            None => {
                proof {
                    assert forall|j: int| 0 <= j < i implies #[trigger] ids@[j] < 12 by {
                        assert(ids@.take(i as int)[j] < 12);
                    }
                    assert(first_unknown(ids@, i as int));
                }
                return Err(MapError::InvalidTileId(ids[i]));
            },
            Some(sprite) => {
                tiles.push(Tile::new(x, y, sprite));
                proof {
                    assert(tiles@ =~= tile_grid(ids@.take(i + 1)));
                }
                x += TILE_WIDTH;
                if x >= LEVEL_WIDTH {
                    x = 0;
                    y += TILE_HEIGHT;
                }
            },
        }
        i += 1;
    }
    proof {
        assert(ids@.take(ids.len() as int) =~= ids@);
    }
    Ok(tiles)
}

/// What loading a map text must return: a parse error with the first
/// malformed token if there is one; else what building the tile set from
/// the text's numbers returns.
pub open spec fn load_outcome(text: Seq<u8>, r: Result<Vec<Tile>, MapError>) -> bool {
    match map_ids(text) {
        Err(token) => r matches Err(MapError::Parse(t)) && t@ == token,
        Ok(ids) => tile_set_outcome(ids, r),
    }
}

/// Reads a map text into its tiles. A malformed token anywhere in the
/// text is reported before an unknown tile number.
pub fn load_tile_set(text: &[u8]) -> (r: Result<Vec<Tile>, MapError>)
    requires
        text.len() <= MAX_MAP_TILES,
    ensures
        load_outcome(text@, r),
{
    match parse_tile_ids(text) {
        Err(e) => Err(e),
        Ok(ids) => build_tile_set(ids.as_slice()),
    }
}

/// Skipping white space stops inside the text, at the end or where no
/// white space starts.
pub proof fn lemma_skip_spaces(s: Seq<u8>, i: int)
    requires
        0 <= i <= s.len(),
    ensures
        i <= skip_spaces(s, i) <= s.len(),
        space_len(s, skip_spaces(s, i)) == 0,
    decreases s.len() - i,
{
    if space_len(s, i) > 0 {
        lemma_skip_spaces(s, i + space_len(s, i));
    }
}

/// A token ends inside the text, no white space starts within it, and
/// it is followed by the end or by white space.
pub proof fn lemma_token_end(s: Seq<u8>, i: int)
    requires
        0 <= i <= s.len(),
    ensures
        i <= token_end(s, i) <= s.len(),
        forall|j: int| i <= j < token_end(s, i) ==> space_len(s, j) == 0,
        token_end(s, i) < s.len() ==> space_len(s, token_end(s, i)) > 0,
        i < s.len() && space_len(s, i) == 0 ==> i < token_end(s, i),
    decreases s.len() - i,
{
    if i < s.len() && space_len(s, i) == 0 {
        lemma_token_end(s, i + 1);
    }
}

/// Text that holds white space only writes no number; any other text
/// starts, after its leading white space, with a token of at least one
/// byte, and reads as that token's number followed by what the rest
/// writes.
pub proof fn lemma_ids_from_unfold(s: Seq<u8>, i: int)
    requires
        0 <= i <= s.len(),
    ensures
        ({
            let b = skip_spaces(s, i);
            let e = token_end(s, b);
            if b == s.len() {
                ids_from(s, i) == Ok::<Seq<u32>, Seq<u8>>(Seq::empty())
            } else {
                &&& i <= b < e <= s.len()
                &&& ids_from(s, i) == match token_value(s.subrange(b, e)) {
                    None => Err(s.subrange(b, e)),
                    Some(v) => prepend(seq![v], ids_from(s, e)),
                }
            }
        }),
{
    lemma_skip_spaces(s, i);
    lemma_token_end(s, skip_spaces(s, i));
}

/// A text writes at most as many numbers as it has bytes.
pub proof fn lemma_ids_count(s: Seq<u8>, i: int)
    requires
        0 <= i <= s.len(),
    ensures
        ids_from(s, i) matches Ok(ids) ==> ids.len() <= s.len() - i,
    decreases s.len() - i,
{
    lemma_ids_from_unfold(s, i);
    let b = skip_spaces(s, i);
    let e = token_end(s, b);
    if b < s.len() {
        lemma_ids_count(s, e);
    }
}

/// Loading succeeds exactly on a text whose every token is a number that
/// names a kind of tile, and then gives one tile for each number.
pub proof fn lemma_load_succeeds_iff(text: Seq<u8>, r: Result<Vec<Tile>, MapError>)
    requires
        load_outcome(text, r),
    ensures
        r is Ok <==> (map_ids(text) matches Ok(ids) && all_known(ids)),
        r matches Ok(tiles) ==> map_ids(text) matches Ok(ids) && tiles@.len() == ids.len(),
        r matches Err(MapError::Parse(t)) ==> map_ids(text) == Err::<Seq<u32>, Seq<u8>>(t@),
        r matches Err(MapError::InvalidTileId(v)) ==> v >= 12,
{
}

/// A map of background tiles only builds, and nothing touches a wall in
/// it, wherever it stands.
pub proof fn lemma_background_map_has_no_wall(
    ids: Seq<u32>,
    r: Result<Vec<Tile>, MapError>,
    bounds: Rect,
)
    requires
        forall|i: int| 0 <= i < ids.len() ==> #[trigger] ids[i] <= 2,
        tile_set_outcome(ids, r),
    ensures
        r is Ok,
        !hits_wall(bounds, r->Ok_0@),
        !hits_wall(bounds, tile_grid(ids)),
{
    assert(all_known(ids));
    assert forall|i: int| 0 <= i < tile_grid(ids).len() implies !(#[trigger] tile_grid(
        ids,
    )[i]).sprite_type.solid() by {
        assert(ids[i] <= 2);
    }
}

/// The tiles of a map lie in rows of sixteen without gaps or overlaps:
/// a point of the plane lies in the `i`-th tile exactly when its column
/// and row are those of `i`.
pub proof fn lemma_grid_tiles_partition(ids: Seq<u32>, i: int, px: int, py: int)
    requires
        0 <= i < ids.len() <= MAX_MAP_TILES,
        0 <= px < LEVEL_WIDTH,
        0 <= py,
    ensures
        ({
            let b = tile_grid(ids)[i].bounds;
            (b.left() <= px < b.right() && b.top() <= py < b.bottom()) <==> i == (py / 80) * 16
                + px / 80
        }),
{
}

} // verus!
