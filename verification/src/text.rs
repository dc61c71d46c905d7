use vstd::prelude::*;

verus! {

broadcast use vstd::string::group_string_axioms;

// ---------------------------------------------------------------------------
// Characters
// ---------------------------------------------------------------------------

/// Unicode `White_Space`, the set of characters that `char::is_whitespace`
/// accepts (and hence what `str::trim` and `str::split_whitespace` strip).
pub open spec fn is_ws(c: char) -> bool {
    ||| ('\u{9}' <= c && c <= '\u{d}')
    ||| c == ' '
    ||| c == '\u{85}'
    ||| c == '\u{a0}'
    ||| c == '\u{1680}'
    ||| ('\u{2000}' <= c && c <= '\u{200a}')
    ||| c == '\u{2028}'
    ||| c == '\u{2029}'
    ||| c == '\u{202f}'
    ||| c == '\u{205f}'
    ||| c == '\u{3000}'
}

/// Executable test for `is_ws`.
pub fn is_whitespace(c: char) -> (b: bool)
    ensures
        b == is_ws(c),
{
    ('\u{9}' <= c && c <= '\u{d}') || c == ' ' || c == '\u{85}' || c == '\u{a0}' || c
        == '\u{1680}' || ('\u{2000}' <= c && c <= '\u{200a}') || c == '\u{2028}' || c == '\u{2029}'
        || c == '\u{202f}' || c == '\u{205f}' || c == '\u{3000}'
}

/// An ASCII decimal digit.
pub open spec fn is_digit(c: char) -> bool {
    '0' <= c && c <= '9'
}

/// The value of an ASCII decimal digit.
pub open spec fn digit_value(c: char) -> nat {
    (c as int - '0' as int) as nat
}

/// The ASCII character of the decimal digit `d` (`d < 10`).
pub open spec fn digit_char(d: nat) -> char {
    ((d + '0' as int) as u32) as char
}

/// The characters of `s`, in order.
pub fn chars_of(s: &str) -> (out: Vec<char>)
    ensures
        out@ == s@,
{
    let mut out: Vec<char> = Vec::new();
    for c in it: s.chars()
        invariant
            out@ == it.seq().take(it.index() as int),
    {
        out.push(c);
    }
    out
}

// ---------------------------------------------------------------------------
// Splitting and trimming
// ---------------------------------------------------------------------------

/// What a string is split at: a character pattern as `str::split` takes one.
#[derive(Clone, Copy)]
pub enum Separator {
    /// Any Unicode whitespace (`char::is_whitespace`).
    Whitespace,
    /// One given character.
    Char(char),
    /// Either of two characters (a `&[char]` pattern of length two).
    Either(char, char),
}

impl Separator {
    /// `c` is a separator.
    pub open spec fn separates(self, c: char) -> bool {
        match self {
            Separator::Whitespace => is_ws(c),
            Separator::Char(a) => c == a,
            Separator::Either(a, b) => c == a || c == b,
        }
    }

    /// Executable test for `separates`.
    pub fn is_separator(&self, c: char) -> (b: bool)
        ensures
            b == self.separates(c),
    {
        match self {
            Separator::Whitespace => is_whitespace(c),
            Separator::Char(a) => c == *a,
            Separator::Either(a, b) => c == *a || c == *b,
        }
    }
}

/// The pieces that `str::split` yields: the maximal runs between separators,
/// empty ones included, so that there is always one more piece than there are
/// separators.
pub open spec fn split_by(s: Seq<char>, sep: Separator) -> Seq<Seq<char>>
    decreases s.len(),
{
    if s.len() == 0 {
        seq![Seq::<char>::empty()]
    } else {
        let init = split_by(s.drop_last(), sep);
        if sep.separates(s.last()) {
            init.push(Seq::<char>::empty())
        } else {
            init.update(init.len() - 1, init.last().push(s.last()))
        }
    }
}

/// Keeps the non-empty pieces.
pub open spec fn nonempty() -> spec_fn(Seq<char>) -> bool {
    |w: Seq<char>| w.len() > 0
}

/// The pieces that `str::split_whitespace` yields: the non-empty runs of
/// non-whitespace characters.
pub open spec fn words(s: Seq<char>) -> Seq<Seq<char>> {
    split_by(s, Separator::Whitespace).filter(nonempty())
}

/// `s` without its leading whitespace.
pub open spec fn trim_start(s: Seq<char>) -> Seq<char>
    decreases s.len(),
{
    if s.len() > 0 && is_ws(s[0]) {
        trim_start(s.drop_first())
    } else {
        s
    }
}

/// `s` without its trailing whitespace.
pub open spec fn trim_end(s: Seq<char>) -> Seq<char>
    decreases s.len(),
{
    if s.len() > 0 && is_ws(s.last()) {
        trim_end(s.drop_last())
    } else {
        s
    }
}

/// What `str::trim` returns: `s` without leading and trailing whitespace.
pub open spec fn trim(s: Seq<char>) -> Seq<char> {
    trim_end(trim_start(s))
}

/// No character of `s` is a separator.
pub open spec fn free_of(s: Seq<char>, sep: Separator) -> bool {
    forall|i: int| 0 <= i < s.len() ==> !sep.separates(#[trigger] s[i])
}

pub proof fn lemma_split_nonempty(s: Seq<char>, sep: Separator)
    ensures
        split_by(s, sep).len() >= 1,
    decreases s.len(),
{
    if s.len() > 0 {
        lemma_split_nonempty(s.drop_last(), sep);
    }
}

/// Appending characters that are no separators extends the last piece.
pub proof fn lemma_split_append_free(s: Seq<char>, t: Seq<char>, sep: Separator)
    requires
        free_of(t, sep),
    ensures
        split_by(s + t, sep) == split_by(s, sep).update(
            split_by(s, sep).len() - 1,
            split_by(s, sep).last() + t,
        ),
    decreases t.len(),
{
    lemma_split_nonempty(s, sep);
    if t.len() == 0 {
        assert(s + t =~= s);
        assert(split_by(s, sep).last() + t =~= split_by(s, sep).last());
        assert(split_by(s, sep).update(split_by(s, sep).len() - 1, split_by(s, sep).last())
            =~= split_by(s, sep));
    } else {
        let t0 = t.drop_last();
        assert(free_of(t0, sep)) by {
            assert forall|i: int| 0 <= i < t0.len() implies !sep.separates(#[trigger] t0[i]) by {
                assert(t0[i] == t[i]);
            }
        }
        lemma_split_append_free(s, t0, sep);
        assert((s + t).drop_last() =~= s + t0);
        assert((s + t).last() == t.last());
        assert(!sep.separates(t.last()));
        assert((split_by(s, sep).last() + t0).push(t.last()) =~= split_by(s, sep).last() + t);
        assert(split_by(s + t, sep) =~= split_by(s, sep).update(
            split_by(s, sep).len() - 1,
            split_by(s, sep).last() + t,
        ));
    }
}

/// A string free of separators is one piece.
pub proof fn lemma_split_free(t: Seq<char>, sep: Separator)
    requires
        free_of(t, sep),
    ensures
        split_by(t, sep) == seq![t],
{
    lemma_split_append_free(Seq::<char>::empty(), t, sep);
    assert(Seq::<char>::empty() + t =~= t);
    assert(seq![Seq::<char>::empty()].update(0, Seq::<char>::empty() + t) =~= seq![t]);
}

/// Two separator-free strings joined by one separator split into the two.
pub proof fn lemma_split_pair(a: Seq<char>, c: char, b: Seq<char>, sep: Separator)
    requires
        free_of(a, sep),
        free_of(b, sep),
        sep.separates(c),
    ensures
        split_by(a.push(c) + b, sep) == seq![a, b],
{
    lemma_split_free(a, sep);
    assert(a.push(c).drop_last() =~= a);
    assert(split_by(a.push(c), sep) =~= seq![a, Seq::<char>::empty()]);
    lemma_split_append_free(a.push(c), b, sep);
    assert(Seq::<char>::empty() + b =~= b);
    assert(seq![a, Seq::<char>::empty()].update(1, Seq::<char>::empty() + b) =~= seq![a, b]);
}

/// A separator-free string, then a separator: the string is the first piece,
/// and what follows splits on its own.
pub proof fn lemma_split_prefix(a: Seq<char>, c: char, b: Seq<char>, sep: Separator)
    requires
        free_of(a, sep),
        sep.separates(c),
    ensures
        split_by(a.push(c) + b, sep) == seq![a] + split_by(b, sep),
    decreases b.len(),
{
    lemma_split_nonempty(b, sep);
    if b.len() == 0 {
        lemma_split_free(a, sep);
        assert(a.push(c) + b =~= a.push(c));
        assert(a.push(c).drop_last() =~= a);
        assert(split_by(a.push(c), sep) =~= seq![a] + split_by(b, sep));
    } else {
        let b0 = b.drop_last();
        lemma_split_prefix(a, c, b0, sep);
        lemma_split_nonempty(b0, sep);
        assert((a.push(c) + b).drop_last() =~= a.push(c) + b0);
        assert((a.push(c) + b).last() == b.last());
        assert(split_by(a.push(c) + b, sep) =~= seq![a] + split_by(b, sep));
    }
}

/// The strings held by a sequence of character vectors.
pub open spec fn views(v: Seq<Vec<char>>) -> Seq<Seq<char>> {
    v.map_values(|p: Vec<char>| p@)
}

/// The pieces of `s` split at `sep`.
pub fn split_chars(s: &Vec<char>, sep: Separator) -> (pieces: Vec<Vec<char>>)
    ensures
        views(pieces@) == split_by(s@, sep),
{
    let mut pieces: Vec<Vec<char>> = Vec::new();
    let mut cur: Vec<char> = Vec::new();
    assert(s@.take(0) =~= Seq::<char>::empty());
    for i in 0..s.len()
        invariant
            views(pieces@).push(cur@) =~= split_by(s@.take(i as int), sep),
    {
        let c = s[i];
        let ghost before = views(pieces@).push(cur@);
        assert(s@.take(i + 1).drop_last() =~= s@.take(i as int));
        assert(s@.take(i + 1).last() == c);
        if sep.is_separator(c) {
            let done = cur;
            cur = Vec::new();
            pieces.push(done);
            assert(views(pieces@) =~= before);
        } else {
            let ghost old_pieces = views(pieces@);
            cur.push(c);
            assert(views(pieces@).push(cur@) =~= before.update(
                before.len() - 1,
                before.last().push(c),
            ));
        }
    }
    assert(s@.take(s@.len() as int) =~= s@);
    let ghost before = views(pieces@).push(cur@);
    pieces.push(cur);
    assert(views(pieces@) =~= before);
    pieces
}

/// The words of `s`, as `str::split_whitespace` yields them.
pub fn words_of(s: &Vec<char>) -> (ws: Vec<Vec<char>>)
    ensures
        views(ws@) == words(s@),
{
    let pieces = split_chars(s, Separator::Whitespace);
    let ghost all = views(pieces@);
    let mut ws: Vec<Vec<char>> = Vec::new();
    let mut i: usize = 0;
    reveal_with_fuel(Seq::filter, 1);
    assert(all.take(0) =~= Seq::<Seq<char>>::empty());
    while i < pieces.len()
        invariant
            i <= pieces.len(),
            all == views(pieces@),
            views(ws@) =~= all.take(i as int).filter(nonempty()),
        decreases pieces.len() - i,
    {
        let ghost before = views(ws@);
        assert(all.take(i + 1) =~= all.take(i as int).push(all[i as int]));
        proof {
            all.take(i as int).lemma_filter_push(all[i as int], nonempty());
        }
        if pieces[i].len() > 0 {
            ws.push(pieces[i].clone());
            assert(views(ws@) =~= before.push(all[i as int]));
        }
        i = i + 1;
    }
    assert(all.take(all.len() as int) =~= all);
    ws
}

/// `s` without leading and trailing whitespace, as `str::trim` returns it.
pub fn trim_chars(s: &Vec<char>) -> (t: Vec<char>)
    ensures
        t@ == trim(s@),
{
    let n = s.len();
    let mut i: usize = 0;
    assert(s@.skip(0) =~= s@);
    while i < n && is_whitespace(s[i])
        invariant
            i <= n == s.len(),
            trim_start(s@) == trim_start(s@.skip(i as int)),
        decreases n - i,
    {
        assert(s@.skip(i as int).drop_first() =~= s@.skip(i + 1));
        i = i + 1;
    }
    let ghost rest = s@.skip(i as int);
    assert(trim_start(rest) == rest);
    let mut j: usize = n;
    while j > i && is_whitespace(s[j - 1])
        invariant
            i <= j <= n == s.len(),
            rest == s@.skip(i as int),
            trim_end(rest) == trim_end(s@.subrange(i as int, j as int)),
        decreases j,
    {
        assert(s@.subrange(i as int, j as int).drop_last() =~= s@.subrange(i as int, j - 1));
        j = j - 1;
    }
    assert(rest =~= s@.subrange(i as int, n as int));
    let mut t: Vec<char> = Vec::new();
    let mut k: usize = i;
    while k < j
        invariant
            i <= k <= j <= n == s.len(),
            t@ =~= s@.subrange(i as int, k as int),
        decreases j - k,
    {
        t.push(s[k]);
        k = k + 1;
    }
    t
}

// ---------------------------------------------------------------------------
// Decimal numbers
// ---------------------------------------------------------------------------

/// The decimal representation of `n` (as `Display` writes an unsigned
/// integer): no sign, no leading zeros, "0" for zero.
pub open spec fn dec(n: nat) -> Seq<char>
    decreases n,
{
    if n < 10 {
        seq![digit_char(n)]
    } else {
        dec(n / 10).push(digit_char(n % 10))
    }
}

/// Every character of `s` is an ASCII digit.
pub open spec fn all_digits(s: Seq<char>) -> bool {
    forall|i: int| 0 <= i < s.len() ==> is_digit(#[trigger] s[i])
}

/// The number that the digit string `s` denotes (most significant first).
pub open spec fn digits_value(s: Seq<char>) -> nat
    decreases s.len(),
{
    if s.len() == 0 {
        0
    } else {
        digits_value(s.drop_last()) * 10 + digit_value(s.last())
    }
}

/// What `str::parse::<u32>` accepts and returns: an optional leading `+`,
/// then one or more ASCII digits whose value fits in a `u32`.
pub open spec fn parse_u32(s: Seq<char>) -> Option<u32> {
    let d = if s.len() > 0 && s[0] == '+' {
        s.drop_first()
    } else {
        s
    };
    if d.len() > 0 && all_digits(d) && digits_value(d) <= u32::MAX {
        Some(digits_value(d) as u32)
    } else {
        None
    }
}

/// Reads `s` as `str::parse::<u32>` does.
pub fn parse_u32_chars(s: &Vec<char>) -> (r: Option<u32>)
    ensures
        r == parse_u32(s@),
{
    let start: usize = if s.len() > 0 && s[0] == '+' {
        1
    } else {
        0
    };
    let ghost d = if s@.len() > 0 && s@[0] == '+' {
        s@.drop_first()
    } else {
        s@
    };
    assert(d =~= s@.subrange(start as int, s@.len() as int));
    if start >= s.len() {
        return None;
    }
    let mut acc: u32 = 0;
    let mut overflow = false;
    let mut i: usize = start;
    while i < s.len()
        invariant
            start <= i <= s.len(),
            d =~= s@.subrange(start as int, s@.len() as int),
            d == (if s@.len() > 0 && s@[0] == '+' {
                s@.drop_first()
            } else {
                s@
            }),
            all_digits(s@.subrange(start as int, i as int)),
            !overflow ==> acc == digits_value(s@.subrange(start as int, i as int)),
            overflow ==> digits_value(s@.subrange(start as int, i as int)) > u32::MAX,
        decreases s.len() - i,
    {
        let c = s[i];
        if !('0' <= c && c <= '9') {
            assert(d[i - start] == c && !is_digit(d[i - start]));
            assert(!all_digits(d));
            return None;
        }
        let ghost prev = s@.subrange(start as int, i as int);
        let ghost next = s@.subrange(start as int, i + 1);
        assert(next.drop_last() =~= prev);
        assert(next.last() == c);
        let dv = ((c as u32) - 48) as u32;
        assert(dv == digit_value(c));
        if !overflow {
            if acc > 429496729 || (acc == 429496729 && dv > 5) {
                overflow = true;
            } else {
                acc = acc * 10 + dv;
            }
        }
        i = i + 1;
    }
    assert(s@.subrange(start as int, s@.len() as int) =~= d);
    if overflow {
        None
    } else {
        Some(acc)
    }
}

/// Appends `c` to `s`.
///
/// Trusted: `String::push`, which std documents as appending the character
/// to the end of the string.
#[verifier::external_body]
pub(crate) fn push_char(s: &mut String, c: char)
    ensures
        final(s)@ == old(s)@.push(c),
{
    s.push(c)
}

/// A `String` holding the characters of `v`.
pub fn string_from_chars(v: &Vec<char>) -> (s: String)
    ensures
        s@ == v@,
{
    let mut s = String::new();
    for i in 0..v.len()
        invariant
            s@ =~= v@.take(i as int),
    {
        push_char(&mut s, v[i]);
    }
    assert(v@.take(v@.len() as int) =~= v@);
    s
}

/// Whether `a` and `b` hold the same characters.
pub fn str_eq(a: &str, b: &str) -> (r: bool)
    ensures
        r == (a@ == b@),
{
    let x = chars_of(a);
    let y = chars_of(b);
    if x.len() != y.len() {
        return false;
    }
    for i in 0..x.len()
        invariant
            x@ == a@,
            y@ == b@,
            x@.len() == y@.len(),
            forall|k: int| 0 <= k < i ==> x@[k] == y@[k],
    {
        if x[i] != y[i] {
            return false;
        }
    }
    assert(x@ =~= y@);
    true
}

/// The ASCII character of the decimal digit `d`.
pub fn digit_to_char(d: u8) -> (c: char)
    requires
        d < 10,
    ensures
        c == digit_char(d as nat),
{
    (d + 48) as char
}

/// Appends the decimal representation of `n` to `s`.
pub fn push_decimal(s: &mut String, n: u64)
    ensures
        final(s)@ == old(s)@ + dec(n as nat),
    decreases n,
{
    if n >= 10 {
        push_decimal(s, n / 10);
    }
    let c = digit_to_char((n % 10) as u8);
    push_char(s, c);
    assert(s@ == old(s)@ + dec(n as nat));
}

/// The decimal representation of a number is made of digits only, starts
/// with no `+`, and reads back as that number.
pub proof fn lemma_dec_digits(n: nat)
    ensures
        dec(n).len() > 0,
        all_digits(dec(n)),
        digits_value(dec(n)) == n,
    decreases n,
{
    if n >= 10 {
        lemma_dec_digits(n / 10);
        let d = dec(n / 10);
        assert(dec(n).drop_last() =~= d);
        assert(n == (n / 10) * 10 + n % 10) by (nonlinear_arith);
        assert(digit_value(digit_char(n % 10)) == n % 10);
        assert(dec(n).last() == digit_char(n % 10));
        assert(digits_value(dec(n)) == digits_value(d) * 10 + digit_value(dec(n).last()));
        assert forall|i: int| 0 <= i < dec(n).len() implies is_digit(#[trigger] dec(n)[i]) by {
            if i < d.len() {
                assert(dec(n)[i] == d[i]);
            }
        }
    } else {
        assert(digit_value(digit_char(n)) == n);
        assert(dec(n).drop_last() =~= Seq::<char>::empty());
        assert(digits_value(Seq::<char>::empty()) == 0);
    }
}

/// `str::parse::<u32>` reads back what `Display` wrote.
pub proof fn lemma_parse_dec(n: u32)
    ensures
        parse_u32(dec(n as nat)) == Some(n),
{
    lemma_dec_digits(n as nat);
    assert(is_digit(dec(n as nat)[0]));
}

} // verus!
