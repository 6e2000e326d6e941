//! Parsing of sprite-sheet file names.
//!
//! Texture files follow the convention
//! `<direction>_<state>_<cols>x<rows>_<width>x<height>.png`, for example
//! `south_moving_3x7_500x500.png`: a sheet of 3 columns by 7 rows of
//! frames, each 500 by 500 pixels, for the `(South, Moving)` clip.  The
//! parser takes the final path component (after the last `/`), drops the
//! extension, splits on `_`, and reads the four fields.

use vstd::prelude::*;
use vstd::string::*;

use crate::direction::Direction8;
use crate::sprite_state::SpriteState;

verus! {

/// Splits a character sequence at every occurrence of `sep`.  Splitting
/// the empty sequence, or one without `sep`, yields one part; `n`
/// separators yield `n + 1` parts.
pub open spec fn spec_split(s: Seq<char>, sep: char) -> Seq<Seq<char>>
    decreases s.len(),
{
    match s.index_of_first(sep) {
        Some(i) => if 0 <= i < s.len() {
            seq![s.take(i)] + spec_split(s.skip(i + 1), sep)
        } else {
            // unreachable: an index returned by index_of_first is in
            // range; the guard keeps the recursion visibly bounded
            seq![s]
        },
        None => seq![s],
    }
}

/// Position of the first occurrence of `c` in `s`, if any.
fn find_first_char(s: &str, c: char) -> (r: Option<usize>)
    ensures
        r matches Some(i) ==> s@.index_of_first(c) == Some(i as int),
        r is None ==> s@.index_of_first(c) is None,
{
    let n = s.unicode_len();
    let mut i: usize = 0;
    while i < n
        invariant
            n == s@.len(),
            i <= n,
            forall|j: int| 0 <= j < i ==> s@[j] != c,
        decreases n - i,
    {
        if s.get_char(i) == c {
            proof {
                assert(s@[i as int] == c);
                assert(s@.contains(c));
                s@.index_of_first_ensures(c);
            }
            return Some(i);
        }
        i += 1;
    }
    proof {
        s@.index_of_first_ensures(c);
        match s@.index_of_first(c) {
            Some(k) => {
                assert(s@[k] == c);
            },
            None => {},
        }
    }
    None
}

/// Position of the last occurrence of `c` in `s`, if any.
fn find_last_char(s: &str, c: char) -> (r: Option<usize>)
    ensures
        r matches Some(i) ==> s@.index_of_last(c) == Some(i as int),
        r is None ==> s@.index_of_last(c) is None,
{
    let n = s.unicode_len();
    let mut i: usize = n;
    while i > 0
        invariant
            n == s@.len(),
            i <= n,
            forall|j: int| i <= j < n ==> s@[j] != c,
        decreases i,
    {
        i -= 1;
        if s.get_char(i) == c {
            proof {
                assert(s@[i as int] == c);
                assert(s@.contains(c));
                s@.index_of_last_ensures(c);
            }
            return Some(i);
        }
    }
    proof {
        s@.index_of_last_ensures(c);
        match s@.index_of_last(c) {
            Some(k) => {
                assert(s@[k] == c);
            },
            None => {},
        }
    }
    None
}

/// Splits a string at every occurrence of `sep`; the executable form of
/// [`spec_split`].
fn split_char<'a>(s: &'a str, sep: char) -> (parts: Vec<&'a str>)
    ensures
        parts@.map_values(|p: &'a str| p@) == spec_split(s@, sep),
        parts@.len() >= 1,
    decreases s@.len(),
{
    let n = s.unicode_len();
    match find_first_char(s, sep) {
        None => {
            let mut parts: Vec<&'a str> = Vec::new();
            parts.push(s);
            proof {
                assert(parts@.map_values(|p: &'a str| p@) =~= seq![s@]);
            }
            parts
        },
        Some(i) => {
            proof {
                s@.index_of_first_ensures(sep);
            }
            let head = s.substring_char(0, i);
            let tail = s.substring_char(i + 1, n);
            let mut parts = split_char(tail, sep);
            parts.insert(0, head);
            proof {
                assert(head@ =~= s@.take(i as int));
                assert(tail@ =~= s@.skip(i + 1));
                assert(parts@.map_values(|p: &'a str| p@) =~= seq![s@.take(i as int)]
                    + spec_split(s@.skip(i + 1), sep));
            }
            parts
        },
    }
}

/// Decimal digit characters only.
pub open spec fn is_digits(s: Seq<char>) -> bool {
    forall|i: int| 0 <= i < s.len() ==> '0' <= #[trigger] s[i] <= '9'
}

/// Numeric value of a digit sequence, most significant digit first.
pub open spec fn digits_val(s: Seq<char>) -> int
    decreases s.len(),
{
    if s.len() == 0 {
        0
    } else {
        digits_val(s.drop_last()) * 10 + (s.last() as int - '0' as int)
    }
}

/// The value of a digit sequence is never negative.
proof fn lemma_digits_val_nonneg(s: Seq<char>)
    requires
        is_digits(s),
    ensures
        digits_val(s) >= 0,
    decreases s.len(),
{
    if s.len() > 0 {
        assert(is_digits(s.drop_last()));
        lemma_digits_val_nonneg(s.drop_last());
    }
}

/// Dropping trailing digits never increases the value.
proof fn lemma_digits_val_take_le(s: Seq<char>, i: int)
    requires
        is_digits(s),
        0 <= i <= s.len(),
    ensures
        digits_val(s.take(i)) <= digits_val(s),
    decreases s.len() - i,
{
    if i == s.len() {
        assert(s.take(i) =~= s);
    } else {
        assert(s.take(i + 1).drop_last() =~= s.take(i));
        assert(s.take(i + 1).last() == s[i]);
        assert(is_digits(s.take(i)));
        lemma_digits_val_nonneg(s.take(i));
        lemma_digits_val_take_le(s, i + 1);
    }
}

/// What `str::parse::<u32>` accepts: an optional leading `+`, then at
/// least one digit, with a value that fits in a `u32`.
pub open spec fn spec_parse_u32(s: Seq<char>) -> Option<u32> {
    let body = if s.len() > 0 && s[0] == '+' {
        s.skip(1)
    } else {
        s
    };
    if body.len() > 0 && is_digits(body) && digits_val(body) <= u32::MAX {
        Some(digits_val(body) as u32)
    } else {
        None
    }
}

/// Reads a decimal `u32`; the executable form of [`spec_parse_u32`].
pub fn parse_u32(s: &str) -> (r: Option<u32>)
    ensures
        r == spec_parse_u32(s@),
{
    let n = s.unicode_len();
    if n == 0 {
        return None;
    }
    let start: usize = if s.get_char(0) == '+' {
        1
    } else {
        0
    };
    if n == start {
        return None;
    }
    let ghost body = if s@[0] == '+' {
        s@.skip(1)
    } else {
        s@
    };
    let mut i: usize = start;
    let mut acc: u32 = 0;
    while i < n
        invariant
            n == s@.len(),
            start <= i <= n,
            start == 1 <==> s@[0] == '+',
            start <= 1,
            n > start,
            body == (if s@[0] == '+' {
                s@.skip(1)
            } else {
                s@
            }),
            body.len() == n - start,
            forall|j: int| 0 <= j < body.len() ==> body[j] == s@[j + start],
            is_digits(body.take(i - start)),
            acc == digits_val(body.take(i - start)),
        decreases n - i,
    {
        let c = s.get_char(i);
        if c < '0' || c > '9' {
            proof {
                assert(body[i - start] == s@[i as int]);
                assert(!is_digits(body));
            }
            return None;
        }
        let d: u32 = (c as u32) - 48;
        proof {
            assert(body.take(i - start + 1).drop_last() =~= body.take(i - start));
            assert(body.take(i - start + 1).last() == body[i - start]);
            assert(body[i - start] == s@[i as int]);
            assert(digits_val(body.take(i - start + 1)) == acc * 10 + d);
            assert(is_digits(body.take(i - start + 1)));
        }
        let acc10 = match acc.checked_mul(10) {
            Some(v) => v,
            None => {
                proof {
                    if is_digits(body) {
                        lemma_digits_val_take_le(body, i - start + 1);
                    }
                }
                return None;
            },
        };
        let acc2 = match acc10.checked_add(d) {
            Some(v) => v,
            None => {
                proof {
                    if is_digits(body) {
                        lemma_digits_val_take_le(body, i - start + 1);
                    }
                }
                return None;
            },
        };
        acc = acc2;
        i += 1;
    }
    proof {
        assert(body.take(i - start) =~= body);
    }
    Some(acc)
}

/// Reads `<a>x<b>` — for example `3x7` or `500x500` — splitting at the
/// first `x`.
pub open spec fn spec_parse_pair(s: Seq<char>) -> Option<(u32, u32)> {
    match s.index_of_first('x') {
        Some(i) => match (spec_parse_u32(s.take(i)), spec_parse_u32(s.skip(i + 1))) {
            (Some(a), Some(b)) => Some((a, b)),
            _ => None,
        },
        None => None,
    }
}

/// Reads a `<a>x<b>` pair; the executable form of [`spec_parse_pair`].
pub fn parse_pair(s: &str) -> (r: Option<(u32, u32)>)
    ensures
        r == spec_parse_pair(s@),
{
    let n = s.unicode_len();
    match find_first_char(s, 'x') {
        None => None,
        Some(i) => {
            proof {
                s@.index_of_first_ensures('x');
            }
            let left = s.substring_char(0, i);
            let right = s.substring_char(i + 1, n);
            proof {
                assert(left@ =~= s@.take(i as int));
                assert(right@ =~= s@.skip(i + 1));
            }
            match (parse_u32(left), parse_u32(right)) {
                (Some(a), Some(b)) => Some((a, b)),
                _ => None,
            }
        },
    }
}

/// The final path component without its extension: the characters after
/// the last `/`, cut at the last `.` when one stands past the first
/// position (a leading `.` marks a hidden file, not an extension).
pub open spec fn spec_file_stem(s: Seq<char>) -> Seq<char> {
    let name = match s.index_of_last('/') {
        Some(k) => s.skip(k + 1),
        None => s,
    };
    match name.index_of_last('.') {
        Some(d) => if d > 0 {
            name.take(d)
        } else {
            name
        },
        None => name,
    }
}

/// The final path component without its extension; the executable form of
/// [`spec_file_stem`].
pub fn file_stem(s: &str) -> (r: &str)
    ensures
        r@ == spec_file_stem(s@),
{
    let n = s.unicode_len();
    let name = match find_last_char(s, '/') {
        Some(k) => {
            proof {
                s@.index_of_last_ensures('/');
            }
            s.substring_char(k + 1, n)
        },
        None => s,
    };
    proof {
        assert(name@ =~= (match s@.index_of_last('/') {
            Some(k) => s@.skip(k + 1),
            None => s@,
        }));
    }
    match find_last_char(name, '.') {
        Some(d) => {
            proof {
                name@.index_of_last_ensures('.');
            }
            if d > 0 {
                let r = name.substring_char(0, d);
                proof {
                    assert(r@ =~= name@.take(d as int));
                }
                r
            } else {
                name
            }
        },
        None => name,
    }
}

/// The file-name prefix shared by every sheet of a `(direction, state)`
/// clip: `<direction>_<state>`, for example `south_moving`.
pub fn texture_base(direction: Direction8, state: SpriteState) -> (r: String)
    ensures
        r@ == direction.spec_name() + "_"@ + state.spec_name(),
{
    let mut r = String::from_str(direction.as_str());
    r.append("_");
    r.append(state.as_str());
    r
}

/// Whether a directory entry's name denotes a sheet for `base`: it starts
/// with `base` and ends with `.png`.
pub open spec fn spec_texture_name_matches(name: Seq<char>, base: Seq<char>) -> bool {
    &&& name.len() >= base.len()
    &&& name.take(base.len() as int) == base
    &&& name.len() >= 4
    &&& name.skip(name.len() - 4) == ".png"@
}

/// The executable form of [`spec_texture_name_matches`].
pub fn texture_name_matches(name: &str, base: &str) -> (r: bool)
    ensures
        r == spec_texture_name_matches(name@, base@),
{
    proof {
        reveal_strlit(".png");
    }
    let n = name.unicode_len();
    let b = base.unicode_len();
    if n < b || n < 4 {
        return false;
    }
    let mut i: usize = 0;
    while i < b
        invariant
            n == name@.len(),
            b == base@.len(),
            b <= n,
            i <= b,
            forall|j: int| 0 <= j < i ==> name@[j] == base@[j],
        decreases b - i,
    {
        if name.get_char(i) != base.get_char(i) {
            proof {
                assert(name@.take(b as int)[i as int] != base@[i as int]);
            }
            return false;
        }
        i += 1;
    }
    proof {
        assert(name@.take(b as int) =~= base@);
    }
    let suffix_ok = name.get_char(n - 4) == '.' && name.get_char(n - 3) == 'p' && name.get_char(
        n - 2,
    ) == 'n' && name.get_char(n - 1) == 'g';
    proof {
        if suffix_ok {
            assert(name@.skip(n - 4) =~= ".png"@);
        } else {
            assert(name@.skip(n - 4) != ".png"@) by {
                if name@.skip(n - 4) == ".png"@ {
                    assert(name@[n - 4] == ".png"@[0]);
                    assert(name@[n - 3] == ".png"@[1]);
                    assert(name@[n - 2] == ".png"@[2]);
                    assert(name@[n - 1] == ".png"@[3]);
                }
            }
        }
    }
    suffix_ok
}

/// Geometry and key of one sprite sheet, read from its file name: the
/// frame grid (`cols` by `rows` frames), the pixel size of one frame, and
/// the `(direction, state)` clip the sheet belongs to.
#[derive(Clone, Copy, PartialEq, Eq, Structural, Debug)]
pub struct Grid {
    pub cols: u32,
    pub rows: u32,
    pub width: u32,
    pub height: u32,
    pub direction: Direction8,
    pub state: SpriteState,
}

/// What a sprite-sheet file name means: the stem is split on `_`; the
/// first two parts name the direction and the state, the last two parts
/// give the frame grid and the frame pixel size.
pub open spec fn spec_parse_grid(s: Seq<char>) -> Option<Grid> {
    let parts = spec_split(spec_file_stem(s), '_');
    if parts.len() >= 3 {
        match (
            Direction8::spec_from_chars(parts[0]),
            SpriteState::spec_from_chars(parts[1]),
            spec_parse_pair(parts[parts.len() - 2]),
            spec_parse_pair(parts[parts.len() - 1]),
        ) {
            (Some(direction), Some(state), Some(sheet), Some(size)) => Some(
                Grid {
                    cols: sheet.0,
                    rows: sheet.1,
                    width: size.0,
                    height: size.1,
                    direction,
                    state,
                },
            ),
            _ => None,
        }
    } else {
        None
    }
}

/// Reads a sprite sheet's geometry and clip key from its file name; the
/// executable form of [`spec_parse_grid`].
pub fn parse_grid_from_filename(filename: &str) -> (r: Option<Grid>)
    ensures
        r == spec_parse_grid(filename@),
{
    let stem = file_stem(filename);
    let parts = split_char(stem, '_');
    proof {
        assert(parts@.map_values(|p: &str| p@) == spec_split(spec_file_stem(filename@), '_'));
    }
    if parts.len() < 3 {
        return None;
    }
    let direction = match Direction8::from_str(parts[0]) {
        Some(d) => d,
        None => {
            return None;
        },
    };
    let state = match SpriteState::from_str(parts[1]) {
        Some(st) => st,
        None => {
            return None;
        },
    };
    let sheet = match parse_pair(parts[parts.len() - 2]) {
        Some(p) => p,
        None => {
            return None;
        },
    };
    let size = match parse_pair(parts[parts.len() - 1]) {
        Some(p) => p,
        None => {
            return None;
        },
    };
    Some(
        Grid {
            cols: sheet.0,
            rows: sheet.1,
            width: size.0,
            height: size.1,
            direction,
            state,
        },
    )
}

} // verus!
