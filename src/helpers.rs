use vstd::prelude::*;
use vstd::string::*;

verus! {

/// Number of character slots in a player's name.
pub const PLAYER_NAME_CHAR_LEN: usize = 16;

/// The name buffer that a string becomes: its first `PLAYER_NAME_CHAR_LEN`
/// characters, padded with spaces.
pub open spec fn padded_name(s: Seq<char>) -> Seq<char> {
    Seq::new(
        PLAYER_NAME_CHAR_LEN as nat,
        |i: int|
            if i < s.len() {
                s[i]
            } else {
                ' '
            },
    )
}

/// Copies the first sixteen characters of `s` into a fixed buffer and pads the
/// rest with spaces.
pub fn string_to_char_array(s: &str) -> (r: [char; PLAYER_NAME_CHAR_LEN])
    ensures
        r@ == padded_name(s@),
{
    let mut array = [' ';PLAYER_NAME_CHAR_LEN];
    let n = s.unicode_len();
    let mut i: usize = 0;
    while i < PLAYER_NAME_CHAR_LEN
        invariant
            n == s@.len(),
            i <= PLAYER_NAME_CHAR_LEN,
            array@.len() == PLAYER_NAME_CHAR_LEN,
            forall|j: int| 0 <= j < i ==> array@[j] == padded_name(s@)[j],
            forall|j: int| i <= j < PLAYER_NAME_CHAR_LEN ==> array@[j] == ' ',
        decreases PLAYER_NAME_CHAR_LEN - i,
    {
        if i < n {
            let c = s.get_char(i);
            array[i] = c;
        }
        i = i + 1;
    }
    assert(array@ =~= padded_name(s@));
    array
}

/// A rectangle of terminal cells.
#[derive(Clone, Copy, Debug, PartialEq, Eq, Structural)]
pub struct Area {
    pub x: u16,
    pub y: u16,
    pub width: u16,
    pub height: u16,
}

impl Area {
    /// The area with its corner at the origin and no extent.
    pub fn empty() -> (r: Area)
        ensures
            r == (Area { x: 0, y: 0, width: 0, height: 0 }),
    {
        Area { x: 0, y: 0, width: 0, height: 0 }
    }
}

/// A rectangle of `percent_x`% of the columns and `percent_y`% of the rows
/// (at least five rows, at most all of them), centred in `cols` x `rows`.
pub fn centered_rect_with_percentage(percent_x: u16, percent_y: u16, cols: u16, rows: u16) -> (r:
    Area)
    requires
        percent_x <= 100,
        cols * percent_x <= u16::MAX,
        rows * percent_y <= u16::MAX,
    ensures
        r.width == cols * percent_x / 100,
        r.height == vstd::math::min(vstd::math::max(rows * percent_y / 100, 5), rows as int),
        r.x == (cols - r.width) / 2,
        r.y == (rows - r.height) / 2,
{
    let width = cols * percent_x / 100;
    assert(width <= cols) by (nonlinear_arith)
        requires width == cols * percent_x / 100, percent_x <= 100, cols >= 0;
    let scaled = rows * percent_y / 100;
    let at_least = if scaled > 5 { scaled } else { 5 };
    let height = if at_least < rows { at_least } else { rows };
    Area { x: (cols - width) / 2, y: (rows - height) / 2, width, height }
}

/// A `width` x `height` rectangle centred in `cols` x `rows`, shrunk to fit.
pub fn centered_rect(width: u16, height: u16, cols: u16, rows: u16) -> (r: Area)
    ensures
        r.width == vstd::math::min(width as int, cols as int),
        r.height == vstd::math::min(height as int, rows as int),
        r.x == (cols - r.width) / 2,
        r.y == (rows - r.height) / 2,
{
    let actual_width = if width < cols { width } else { cols };
    let actual_height = if height < rows { height } else { rows };
    Area {
        x: (cols - actual_width) / 2,
        y: (rows - actual_height) / 2,
        width: actual_width,
        height: actual_height,
    }
}

} // verus!
