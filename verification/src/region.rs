use vstd::prelude::*;

use crate::error::Error;
use crate::text::{
    Separator, all_digits, chars_of, dec, free_of, is_digit, is_ws, lemma_dec_digits,
    lemma_parse_dec, lemma_split_free, lemma_split_nonempty, lemma_split_pair, lemma_split_prefix,
    nonempty, parse_u32, parse_u32_chars, push_char, push_decimal, split_by, split_chars,
    string_from_chars, trim, trim_chars, trim_end, trim_start, words, words_of,
};

verus! {

broadcast use vstd::string::group_string_axioms;

/// A rectangular screen region.
#[derive(Debug, Clone, Copy)]
pub struct Region {
    pub x: u32,
    pub y: u32,
    pub width: u32,
    pub height: u32,
}

/// Why slurp's output could not be read as a region.
#[derive(Debug, Clone, Copy, PartialEq, Eq)]
pub enum SlurpError {
    /// No word at all.
    MissingPosition,
    /// Only one word.
    MissingSize,
    /// The text before the first `,` is no `u32`.
    InvalidX,
    /// The position holds no `,`.
    MissingY,
    /// The text after the first `,` (up to the next) is no `u32`.
    InvalidY,
    /// The text before the first `x` is no `u32`.
    InvalidWidth,
    /// The size holds no `x`.
    MissingHeight,
    /// The text after the first `x` (up to the next) is no `u32`.
    InvalidHeight,
}

/// The message shown for each `SlurpError`.
pub open spec fn slurp_error_message(e: SlurpError) -> Seq<char> {
    match e {
        SlurpError::MissingPosition => "missing position in slurp output"@,
        SlurpError::MissingSize => "missing size in slurp output"@,
        SlurpError::InvalidX => "invalid X coordinate"@,
        SlurpError::MissingY => "missing Y"@,
        SlurpError::InvalidY => "invalid Y coordinate"@,
        SlurpError::InvalidWidth => "invalid width"@,
        SlurpError::MissingHeight => "missing height"@,
        SlurpError::InvalidHeight => "invalid height"@,
    }
}

impl SlurpError {
    /// The message shown to the user for this error.
    pub fn message(&self) -> (m: String)
        ensures
            m@ == slurp_error_message(*self),
    {
        match self {
            SlurpError::MissingPosition => String::from_str("missing position in slurp output"),
            SlurpError::MissingSize => String::from_str("missing size in slurp output"),
            SlurpError::InvalidX => String::from_str("invalid X coordinate"),
            SlurpError::MissingY => String::from_str("missing Y"),
            SlurpError::InvalidY => String::from_str("invalid Y coordinate"),
            SlurpError::InvalidWidth => String::from_str("invalid width"),
            SlurpError::MissingHeight => String::from_str("missing height"),
            SlurpError::InvalidHeight => String::from_str("invalid height"),
        }
    }
}

/// What `Region::from_slurp` makes of `s`: the first word is the position
/// `X,Y`, the second the size `WxH`; later words, and pieces after the second
/// `,` or `x`, are ignored.
pub open spec fn slurp_region(s: Seq<char>) -> Result<Region, SlurpError> {
    let ws = words(s);
    if ws.len() < 1 {
        Err(SlurpError::MissingPosition)
    } else if ws.len() < 2 {
        Err(SlurpError::MissingSize)
    } else {
        let pos = split_by(ws[0], Separator::Char(','));
        let size = split_by(ws[1], Separator::Char('x'));
        match parse_u32(pos[0]) {
            None => Err(SlurpError::InvalidX),
            Some(x) => if pos.len() < 2 {
                Err(SlurpError::MissingY)
            } else {
                match parse_u32(pos[1]) {
                    None => Err(SlurpError::InvalidY),
                    Some(y) => match parse_u32(size[0]) {
                        None => Err(SlurpError::InvalidWidth),
                        Some(width) => if size.len() < 2 {
                            Err(SlurpError::MissingHeight)
                        } else {
                            match parse_u32(size[1]) {
                                None => Err(SlurpError::InvalidHeight),
                                Some(height) => Ok(Region { x, y, width, height }),
                            }
                        },
                    },
                }
            },
        }
    }
}

/// What `Region::from_geometry` makes of `s`: after trimming, exactly four
/// pieces separated by `x` or `+`, read as width, height, X and Y.
pub open spec fn geometry_region(s: Seq<char>) -> Option<Region> {
    let parts = split_by(trim(s), Separator::Either('x', '+'));
    if parts.len() != 4 {
        None
    } else {
        match (parse_u32(parts[0]), parse_u32(parts[1]), parse_u32(parts[2]), parse_u32(parts[3])) {
            (Some(width), Some(height), Some(x), Some(y)) => Some(Region { x, y, width, height }),
            _ => None,
        }
    }
}

/// `X,Y WxH`, the form of wf-recorder's `-g` argument (and of slurp's output).
pub open spec fn wf_recorder_text(r: Region) -> Seq<char> {
    (dec(r.x as nat).push(',') + dec(r.y as nat)).push(' ') + (dec(r.width as nat).push('x') + dec(
        r.height as nat,
    ))
}

/// `WxH+X+Y`, the form of the `--geometry` option.
pub open spec fn geometry_text(r: Region) -> Seq<char> {
    dec(r.width as nat).push('x') + dec(r.height as nat).push('+') + dec(r.x as nat).push('+')
        + dec(r.y as nat)
}

/// `WxH at (X, Y)`, how a region is shown to the user.
pub open spec fn display_text(r: Region) -> Seq<char> {
    dec(r.width as nat).push('x') + dec(r.height as nat) + seq![' ', 'a', 't', ' ', '(']
        + dec(r.x as nat) + seq![',', ' '] + dec(r.y as nat) + seq![')']
}

impl Region {
    /// Parse from slurp output format: "X,Y WxH"
    pub fn from_slurp(s: &str) -> (r: Result<Region, SlurpError>)
        ensures
            r == slurp_region(s@),
    {
        // `split_whitespace` skips surrounding whitespace: no trimming needed.
        let chars = chars_of(s);
        let ws = words_of(&chars);
        if ws.len() < 1 {
            return Err(SlurpError::MissingPosition);
        }
        if ws.len() < 2 {
            return Err(SlurpError::MissingSize);
        }
        let pos = split_chars(&ws[0], Separator::Char(','));
        let size = split_chars(&ws[1], Separator::Char('x'));
        proof {
            lemma_split_nonempty(ws@[0]@, Separator::Char(','));
            lemma_split_nonempty(ws@[1]@, Separator::Char('x'));
        }
        let x = match parse_u32_chars(&pos[0]) {
            Some(v) => v,
            None => return Err(SlurpError::InvalidX),
        };
        if pos.len() < 2 {
            return Err(SlurpError::MissingY);
        }
        let y = match parse_u32_chars(&pos[1]) {
            Some(v) => v,
            None => return Err(SlurpError::InvalidY),
        };
        let width = match parse_u32_chars(&size[0]) {
            Some(v) => v,
            None => return Err(SlurpError::InvalidWidth),
        };
        if size.len() < 2 {
            return Err(SlurpError::MissingHeight);
        }
        let height = match parse_u32_chars(&size[1]) {
            Some(v) => v,
            None => return Err(SlurpError::InvalidHeight),
        };
        Ok(Region { x, y, width, height })
    }

    /// Parse from geometry string: "WxH+X+Y"
    pub fn from_geometry(s: &str) -> (r: Result<Region, Error>)
        ensures
            geometry_region(s@) matches Some(g) ==> r == Ok::<Region, Error>(g),
            geometry_region(s@) is None ==> (r matches Err(Error::InvalidRegion(m)) && m@ == trim(
                s@,
            )),
    {
        let chars = chars_of(s);
        let trimmed = trim_chars(&chars);
        let parts = split_chars(&trimmed, Separator::Either('x', '+'));
        if parts.len() != 4 {
            return Err(Error::InvalidRegion(string_from_chars(&trimmed)));
        }
        let width = parse_u32_chars(&parts[0]);
        let height = parse_u32_chars(&parts[1]);
        let x = parse_u32_chars(&parts[2]);
        let y = parse_u32_chars(&parts[3]);
        match (width, height, x, y) {
            (Some(width), Some(height), Some(x), Some(y)) => Ok(Region { x, y, width, height }),
            _ => Err(Error::InvalidRegion(string_from_chars(&trimmed))),
        }
    }

    /// Format for wf-recorder's -g flag: "X,Y WxH"
    pub fn to_wf_recorder_arg(self) -> (s: String)
        ensures
            s@ == wf_recorder_text(self),
    {
        let mut s = String::new();
        push_decimal(&mut s, self.x as u64);
        push_char(&mut s, ',');
        push_decimal(&mut s, self.y as u64);
        push_char(&mut s, ' ');
        push_decimal(&mut s, self.width as u64);
        push_char(&mut s, 'x');
        push_decimal(&mut s, self.height as u64);
        assert(s@ =~= wf_recorder_text(self));
        s
    }

    /// How the region is shown to the user: "WxH at (X, Y)"
    pub fn to_display_string(&self) -> (s: String)
        ensures
            s@ == display_text(*self),
    {
        let mut s = String::new();
        push_decimal(&mut s, self.width as u64);
        push_char(&mut s, 'x');
        push_decimal(&mut s, self.height as u64);
        push_char(&mut s, ' ');
        push_char(&mut s, 'a');
        push_char(&mut s, 't');
        push_char(&mut s, ' ');
        push_char(&mut s, '(');
        push_decimal(&mut s, self.x as u64);
        push_char(&mut s, ',');
        push_char(&mut s, ' ');
        push_decimal(&mut s, self.y as u64);
        push_char(&mut s, ')');
        assert(s@ =~= display_text(*self));
        s
    }
}

/// Digits are no whitespace and none of the separators `,`, `x`, `+`.
proof fn lemma_digits_free(s: Seq<char>, sep: Separator)
    requires
        all_digits(s),
        sep == Separator::Whitespace || sep == Separator::Char(',') || sep == Separator::Char('x')
            || sep == Separator::Either('x', '+'),
    ensures
        free_of(s, sep),
{
    assert forall|i: int| 0 <= i < s.len() implies !sep.separates(#[trigger] s[i]) by {
        assert(is_digit(s[i]));
    }
}

/// The decimal text of a number, then a separator character.
proof fn lemma_dec_free(n: nat, sep: Separator)
    requires
        sep == Separator::Whitespace || sep == Separator::Char(',') || sep == Separator::Char('x')
            || sep == Separator::Either('x', '+'),
    ensures
        free_of(dec(n), sep),
        dec(n).len() > 0,
{
    lemma_dec_digits(n);
    lemma_digits_free(dec(n), sep);
}

/// Trailing whitespace, such as the newline that ends slurp's output, does
/// not change what `from_slurp` reads.
pub proof fn lemma_slurp_trailing_whitespace(s: Seq<char>, c: char)
    requires
        is_ws(c),
    ensures
        slurp_region(s.push(c)) == slurp_region(s),
{
    let sep = Separator::Whitespace;
    assert(s.push(c).drop_last() =~= s);
    assert(split_by(s.push(c), sep) == split_by(s, sep).push(Seq::<char>::empty()));
    split_by(s, sep).lemma_filter_push(Seq::<char>::empty(), nonempty());
    assert(words(s.push(c)) == words(s));
}

/// What `to_wf_recorder_arg` writes, `from_slurp` reads back: the two
/// formats are the same.
pub proof fn lemma_slurp_round_trip(r: Region)
    ensures
        slurp_region(wf_recorder_text(r)) == Ok::<Region, SlurpError>(r),
{
    let ws = Separator::Whitespace;
    let comma = Separator::Char(',');
    let ex = Separator::Char('x');
    let (dx, dy, dw, dh) = (dec(r.x as nat), dec(r.y as nat), dec(r.width as nat), dec(
        r.height as nat,
    ));
    lemma_dec_free(r.x as nat, ws);
    lemma_dec_free(r.y as nat, ws);
    lemma_dec_free(r.width as nat, ws);
    lemma_dec_free(r.height as nat, ws);
    lemma_dec_free(r.x as nat, comma);
    lemma_dec_free(r.y as nat, comma);
    lemma_dec_free(r.width as nat, ex);
    lemma_dec_free(r.height as nat, ex);
    let pos = dx.push(',') + dy;
    let size = dw.push('x') + dh;
    assert(free_of(pos, ws)) by {
        assert forall|i: int| 0 <= i < pos.len() implies !ws.separates(#[trigger] pos[i]) by {
            if i < dx.len() {
                assert(pos[i] == dx[i]);
            } else if i > dx.len() {
                assert(pos[i] == dy[i - dx.len() - 1]);
            }
        }
    }
    assert(free_of(size, ws)) by {
        assert forall|i: int| 0 <= i < size.len() implies !ws.separates(#[trigger] size[i]) by {
            if i < dw.len() {
                assert(size[i] == dw[i]);
            } else if i > dw.len() {
                assert(size[i] == dh[i - dw.len() - 1]);
            }
        }
    }
    lemma_split_pair(pos, ' ', size, ws);
    assert(wf_recorder_text(r) == pos.push(' ') + size);
    reveal_with_fuel(Seq::filter, 3);
    assert(seq![pos, size].drop_last() =~= seq![pos]);
    assert(seq![pos].drop_last() =~= Seq::<Seq<char>>::empty());
    assert(words(wf_recorder_text(r)) =~= seq![pos, size]);
    lemma_split_pair(dx, ',', dy, comma);
    lemma_split_pair(dw, 'x', dh, ex);
    lemma_parse_dec(r.x);
    lemma_parse_dec(r.y);
    lemma_parse_dec(r.width);
    lemma_parse_dec(r.height);
}

/// What the `--geometry` form of a region names, `from_geometry` reads back
/// as that region.
pub proof fn lemma_geometry_round_trip(r: Region)
    ensures
        geometry_region(geometry_text(r)) == Some(r),
{
    let sep = Separator::Either('x', '+');
    let (dx, dy, dw, dh) = (dec(r.x as nat), dec(r.y as nat), dec(r.width as nat), dec(
        r.height as nat,
    ));
    lemma_dec_free(r.x as nat, sep);
    lemma_dec_free(r.y as nat, sep);
    lemma_dec_free(r.width as nat, sep);
    lemma_dec_free(r.height as nat, sep);
    lemma_dec_digits(r.width as nat);
    lemma_dec_digits(r.y as nat);
    let g = geometry_text(r);
    // no surrounding whitespace
    assert(g[0] == dw[0]);
    assert(is_digit(dw[0]));
    assert(trim_start(g) == g);
    assert(g.last() == dy.last());
    assert(is_digit(dy[dy.len() - 1]));
    assert(trim_end(g) == g);
    assert(trim(g) == g);
    // four pieces
    let tail3 = dx.push('+') + dy;
    let tail2 = dh.push('+') + tail3;
    assert(g =~= dw.push('x') + tail2);
    lemma_split_free(dy, sep);
    lemma_split_prefix(dx, '+', dy, sep);
    lemma_split_prefix(dh, '+', tail3, sep);
    lemma_split_prefix(dw, 'x', tail2, sep);
    assert(split_by(g, sep) =~= seq![dw, dh, dx, dy]);
    lemma_parse_dec(r.x);
    lemma_parse_dec(r.y);
    lemma_parse_dec(r.width);
    lemma_parse_dec(r.height);
}

} // verus!
