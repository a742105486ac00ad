//! Reading map data for drawing the field: colours written in hexadecimal
//! and the kind of each line.
use vstd::prelude::*;
use vstd::string::*;
use crate::text::str_eq;

verus! {

/// The value of a hexadecimal digit (either case).
pub open spec fn hex_digit_value(c: u8) -> Option<u8> {
    if 48 <= c <= 57 {
        Some((c - 48) as u8)
    } else if 97 <= c <= 102 {
        Some((c - 87) as u8)
    } else if 65 <= c <= 70 {
        Some((c - 55) as u8)
    } else {
        None
    }
}

/// The byte that two characters give when read as a base-16 number, as
/// `u8::from_str_radix` reads them: two digits, or a `+` sign and a digit.
pub open spec fn hex_pair_value(c0: u8, c1: u8) -> Option<u8> {
    if c0 == 43 {
        hex_digit_value(c1)
    } else {
        match (hex_digit_value(c0), hex_digit_value(c1)) {
            (Some(h), Some(l)) => Some((16 * h + l) as u8),
            _ => None,
        }
    }
}

/// How many `#` the text starts with.
pub open spec fn leading_hashes(b: Seq<u8>) -> nat
    decreases b.len(),
{
    if b.len() > 0 && b[0] == 35 {
        1 + leading_hashes(b.drop_first())
    } else {
        0
    }
}

/// The text without its leading `#`.
pub open spec fn without_hashes(b: Seq<u8>) -> Seq<u8> {
    b.skip(leading_hashes(b) as int)
}

/// Whether byte offset `i` starts a character of the UTF-8 text `t` (or is
/// its end).
pub open spec fn starts_char(t: Seq<u8>, i: int) -> bool {
    i == t.len() || (0 <= i < t.len() && !(0x80 <= t[i] <= 0xbf))
}

/// The colour `[r, g, b]` that a map writes as `rrggbb`, after any number
/// of leading `#`; extra characters after the sixth are ignored.
pub open spec fn hex_color_of(b: Seq<u8>) -> Option<(u8, u8, u8)> {
    let t = without_hashes(b);
    if t.len() < 6 {
        None
    } else {
        match (hex_pair_value(t[0], t[1]), hex_pair_value(t[2], t[3]), hex_pair_value(t[4], t[5])) {
            (Some(r), Some(g), Some(bl)) => Some((r, g, bl)),
            _ => None,
        }
    }
}

/// Whether reading the colour would cut a character in two: each pair is
/// taken as a slice of the text, and a slice is taken only after the pairs
/// before it were read.
pub open spec fn hex_color_cuts_char(b: Seq<u8>) -> bool {
    let t = without_hashes(b);
    &&& t.len() >= 6
    &&& {
        ||| !starts_char(t, 2)
        ||| hex_pair_value(t[0], t[1]) is Some && !starts_char(t, 4)
        ||| hex_pair_value(t[0], t[1]) is Some && hex_pair_value(t[2], t[3]) is Some && !starts_char(t, 6)
    }
}

fn hex_digit(c: u8) -> (r: Option<u8>)
    ensures
        r == hex_digit_value(c),
{
    if c >= 48 && c <= 57 {
        Some(c - 48)
    } else if c >= 97 && c <= 102 {
        Some(c - 87)
    } else if c >= 65 && c <= 70 {
        Some(c - 55)
    } else {
        None
    }
}

fn hex_pair(c0: u8, c1: u8) -> (r: Option<u8>)
    ensures
        r == hex_pair_value(c0, c1),
{
    if c0 == 43 {
        return hex_digit(c1);
    }
    match (hex_digit(c0), hex_digit(c1)) {
        (Some(h), Some(l)) => Some(16 * h + l),
        _ => None,
    }
}

fn starts_char_at(t: &[u8], k: usize, i: usize) -> (r: bool)
    requires
        k <= t@.len(),
        i <= t@.len() - k,
    ensures
        r == starts_char(t@.skip(k as int), i as int),
{
    if i == t.len() - k {
        true
    } else {
        !(t[k + i] >= 0x80 && t[k + i] <= 0xbf)
    }
}

/// Whether reading `hex` as a colour would cut one of its characters in two
/// (see [`hex_color_cuts_char`]).
pub fn hex_color_would_cut(hex: &str) -> (r: bool)
    ensures
        r == hex_color_cuts_char(hex.spec_bytes()),
{
    let b = hex.as_bytes();
    let n = b.len();
    let mut k: usize = 0;
    assert(b@.skip(0) =~= b@);
    while k < n && b[k] == 35
        invariant
            n == b@.len(),
            k <= n,
            leading_hashes(b@) == k + leading_hashes(b@.skip(k as int)),
        decreases n - k,
    {
        assert(b@.skip(k as int).drop_first() =~= b@.skip(k + 1));
        k = k + 1;
    }
    proof {
        assert(leading_hashes(b@.skip(k as int)) == 0);
        assert(without_hashes(b@) =~= b@.skip(k as int));
    }
    if n - k < 6 {
        return false;
    }
    if !starts_char_at(b, k, 2) {
        return true;
    }
    if hex_pair(b[k], b[k + 1]).is_none() {
        return false;
    }
    if !starts_char_at(b, k, 4) {
        return true;
    }
    if hex_pair(b[k + 2], b[k + 3]).is_none() {
        return false;
    }
    !starts_char_at(b, k, 6)
}

/// Reads a map colour written in hexadecimal (`ff4444`, `#ff4444`) as its
/// red, green and blue bytes; `None` when it is not one.
pub fn parse_hex_color(hex: &str) -> (r: Option<(u8, u8, u8)>)
    requires
        !hex_color_cuts_char(hex.spec_bytes()),
    ensures
        r == hex_color_of(hex.spec_bytes()),
{
    let b = hex.as_bytes();
    let n = b.len();
    let mut k: usize = 0;
    assert(b@.skip(0) =~= b@);
    while k < n && b[k] == 35
        invariant
            n == b@.len(),
            k <= n,
            leading_hashes(b@) == k + leading_hashes(b@.skip(k as int)),
        decreases n - k,
    {
        assert(b@.skip(k as int).drop_first() =~= b@.skip(k + 1));
        k = k + 1;
    }
    proof {
        assert(leading_hashes(b@.skip(k as int)) == 0);
        assert(without_hashes(b@) =~= b@.skip(k as int));
    }
    if n - k < 6 {
        return None;
    }
    let r = match hex_pair(b[k], b[k + 1]) {
        Some(v) => v,
        None => return None,
    };
    let g = match hex_pair(b[k + 2], b[k + 3]) {
        Some(v) => v,
        None => return None,
    };
    let bl = match hex_pair(b[k + 4], b[k + 5]) {
        Some(v) => v,
        None => return None,
    };
    Some((r, g, bl))
}

/// How a map line is drawn.
#[derive(Debug, Clone, Copy, PartialEq, Eq, Structural)]
pub enum SegmentKind {
    /// A field marking that nothing collides with (drawn thick, in the
    /// map's colour or white).
    Decorative,
    /// A wall that only the ball collides with.
    BallBarrier,
    /// A wall that players collide with.
    PlayerBarrier,
}

/// The collision names of a line, as text.
pub open spec fn mask_view(mask: Seq<String>) -> Seq<Seq<char>> {
    mask.map_values(|s: String| s@)
}

/// How a line with collision mask `mask` is drawn: without a mask, or with
/// only empty names, it is a marking; a wall that the ball collides with
/// but neither team does is a ball barrier; any other wall is a player
/// barrier.
pub open spec fn segment_kind_of(mask: Option<Seq<Seq<char>>>) -> SegmentKind {
    match mask {
        None => SegmentKind::Decorative,
        Some(m) => if forall|i: int| 0 <= i < m.len() ==> m[i].len() == 0 {
            SegmentKind::Decorative
        } else if m.contains("ball"@) && !m.contains("red"@) && !m.contains("blue"@) {
            SegmentKind::BallBarrier
        } else {
            SegmentKind::PlayerBarrier
        },
    }
}

/// Whether some name of `mask` is `name`.
fn mask_contains(mask: &Vec<String>, name: &str) -> (r: bool)
    ensures
        r == mask_view(mask@).contains(name@),
{
    let n = mask.len();
    let mut i: usize = 0;
    while i < n
        invariant
            n == mask@.len(),
            i <= n,
            forall|j: int| 0 <= j < i ==> mask@[j]@ != name@,
        decreases n - i,
    {
        if str_eq(mask[i].as_str(), name) {
            assert(mask_view(mask@)[i as int] == name@);
            return true;
        }
        i = i + 1;
    }
    proof {
        if mask_view(mask@).contains(name@) {
            let j = choose|j: int| 0 <= j < mask_view(mask@).len() && mask_view(mask@)[j] == name@;
            assert(mask@[j]@ == name@);
        }
    }
    false
}

/// How a line with collision mask `c_mask` is drawn.
pub fn segment_kind(c_mask: &Option<Vec<String>>) -> (r: SegmentKind)
    ensures
        r == segment_kind_of(
            match c_mask {
                Some(m) => Some(mask_view(m@)),
                None => None,
            },
        ),
{
    match c_mask {
        None => SegmentKind::Decorative,
        Some(m) => {
            let ghost mv = mask_view(m@);
            let n = m.len();
            let mut all_empty = true;
            let mut i: usize = 0;
            while i < n
                invariant
                    n == m@.len(),
                    mv == mask_view(m@),
                    i <= n,
                    all_empty == forall|j: int| 0 <= j < i ==> mv[j].len() == 0,
                decreases n - i,
            {
                assert(mv[i as int] == m@[i as int]@);
                if m[i].as_str().unicode_len() != 0 {
                    all_empty = false;
                }
                i = i + 1;
            }
            if all_empty {
                SegmentKind::Decorative
            } else if mask_contains(m, "ball") && !mask_contains(m, "red") && !mask_contains(
                m,
                "blue",
            ) {
                SegmentKind::BallBarrier
            } else {
                SegmentKind::PlayerBarrier
            }
        },
    }
}

/// Whether a vertex with collision mask `c_mask` holds the ball in: only
/// those without "ball" in their mask mark the inner field lines.
pub open spec fn collides_with_ball_of(mask: Option<Seq<Seq<char>>>) -> bool {
    match mask {
        Some(m) => m.contains("ball"@),
        None => false,
    }
}

/// Whether a vertex with collision mask `c_mask` holds the ball in.
pub fn collides_with_ball(c_mask: &Option<Vec<String>>) -> (r: bool)
    ensures
        r == collides_with_ball_of(
            match c_mask {
                Some(m) => Some(mask_view(m@)),
                None => None,
            },
        ),
{
    match c_mask {
        Some(m) => mask_contains(m, "ball"),
        None => false,
    }
}

} // verus!
