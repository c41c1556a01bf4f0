//! Text: white space, trimming, and lists separated by commas.

use vstd::prelude::*;

verus! {

/// Whether a character is white space: a space, a tab, a line break, or
/// one of the other blank characters of Unicode.
pub open spec fn spec_is_space(c: char) -> bool {
    let u = c as u32;
    ||| 0x09 <= u <= 0x0d
    ||| u == 0x20
    ||| u == 0x85
    ||| u == 0xa0
    ||| u == 0x1680
    ||| 0x2000 <= u <= 0x200a
    ||| u == 0x2028
    ||| u == 0x2029
    ||| u == 0x202f
    ||| u == 0x205f
    ||| u == 0x3000
}

#[verifier::when_used_as_spec(spec_is_space)]
pub fn is_space(c: char) -> (r: bool)
    ensures
        r == spec_is_space(c),
{
    let u: u32 = c as u32;
    (0x09 <= u && u <= 0x0d) || u == 0x20 || u == 0x85 || u == 0xa0 || u == 0x1680 || (0x2000 <= u
        && u <= 0x200a) || u == 0x2028 || u == 0x2029 || u == 0x202f || u == 0x205f || u
        == 0x3000
}

/// The first place from `a` on, before `b`, that holds no white space; `b`
/// if there is none.
pub open spec fn skip_spaces(s: Seq<char>, a: int, b: int) -> int
    decreases b - a,
{
    if 0 <= a < b <= s.len() && is_space(s[a]) {
        skip_spaces(s, a + 1, b)
    } else {
        a
    }
}

/// The end of the text between `a` and `b` once the white space at its end
/// is dropped.
pub open spec fn drop_spaces(s: Seq<char>, a: int, b: int) -> int
    decreases b - a,
{
    if 0 <= a < b <= s.len() && is_space(s[b - 1]) {
        drop_spaces(s, a, b - 1)
    } else {
        b
    }
}

/// The text between `a` and `b` without the white space at its two ends.
pub open spec fn trimmed_range(s: Seq<char>, a: int, b: int) -> Seq<char> {
    let lo = skip_spaces(s, a, b);
    s.subrange(lo, drop_spaces(s, lo, b))
}

/// The text without the white space at its two ends.
pub open spec fn trimmed(s: Seq<char>) -> Seq<char> {
    trimmed_range(s, 0, s.len() as int)
}

/// The first place from `a` on, before `b`, that holds `sep`; `b` if there
/// is none.
pub open spec fn next_sep(s: Seq<char>, sep: char, a: int, b: int) -> int
    decreases b - a,
{
    if 0 <= a < b <= s.len() && s[a] != sep {
        next_sep(s, sep, a + 1, b)
    } else {
        a
    }
}

/// The pieces of the text between `a` and `b` that `sep` separates, each
/// without the white space at its ends. A text without `sep` is one piece.
pub open spec fn pieces(s: Seq<char>, sep: char, a: int, b: int) -> Seq<Seq<char>>
    decreases b - a,
{
    let j = next_sep(s, sep, a, b);
    if 0 <= a <= j < b <= s.len() {
        seq![trimmed_range(s, a, j)] + pieces(s, sep, j + 1, b)
    } else {
        seq![trimmed_range(s, a, b)]
    }
}

/// The names in a list separated by commas: the list is trimmed, then cut
/// at every comma, then every piece is trimmed. No list, or a blank one,
/// holds no names.
pub open spec fn spec_get_fields(fields: Option<Seq<char>>) -> Seq<Seq<char>> {
    match fields {
        None => Seq::empty(),
        Some(s) => {
            let lo = skip_spaces(s, 0, s.len() as int);
            let hi = drop_spaces(s, lo, s.len() as int);
            if lo >= hi {
                Seq::empty()
            } else {
                pieces(s, ',', lo, hi)
            }
        },
    }
}

/// What each text of a list holds.
pub open spec fn texts(v: Seq<String>) -> Seq<Seq<char>> {
    Seq::new(v.len(), |i: int| v[i]@)
}

fn skip_spaces_in(s: &str, a: usize, b: usize) -> (r: usize)
    requires
        a <= b <= s@.len(),
    ensures
        r == skip_spaces(s@, a as int, b as int),
        a <= r <= b,
{
    let mut i: usize = a;
    while i < b && is_space(s.get_char(i))
        invariant
            a <= i <= b <= s@.len(),
            skip_spaces(s@, a as int, b as int) == skip_spaces(s@, i as int, b as int),
        decreases b - i,
    {
        i += 1;
    }
    i
}

fn drop_spaces_in(s: &str, a: usize, b: usize) -> (r: usize)
    requires
        a <= b <= s@.len(),
    ensures
        r == drop_spaces(s@, a as int, b as int),
        a <= r <= b,
{
    let mut j: usize = b;
    while a < j && is_space(s.get_char(j - 1))
        invariant
            a <= j <= b <= s@.len(),
            drop_spaces(s@, a as int, b as int) == drop_spaces(s@, a as int, j as int),
        decreases j - a,
    {
        j -= 1;
    }
    j
}

fn next_sep_in(s: &str, sep: char, a: usize, b: usize) -> (r: usize)
    requires
        a <= b <= s@.len(),
    ensures
        r == next_sep(s@, sep, a as int, b as int),
        a <= r <= b,
{
    let mut i: usize = a;
    while i < b && s.get_char(i) != sep
        invariant
            a <= i <= b <= s@.len(),
            next_sep(s@, sep, a as int, b as int) == next_sep(s@, sep, i as int, b as int),
        decreases b - i,
    {
        i += 1;
    }
    i
}

fn trimmed_piece(s: &str, a: usize, b: usize) -> (r: String)
    requires
        a <= b <= s@.len(),
    ensures
        r@ == trimmed_range(s@, a as int, b as int),
{
    let lo: usize = skip_spaces_in(s, a, b);
    let hi: usize = drop_spaces_in(s, lo, b);
    s.substring_char(lo, hi).to_owned()
}

/// The text without the white space at its two ends.
pub fn trim(s: &str) -> (r: String)
    ensures
        r@ == trimmed(s@),
{
    let n: usize = s.unicode_len();
    trimmed_piece(s, 0, n)
}

fn names_in(s: &str) -> (r: Vec<String>)
    ensures
        texts(r@) == spec_get_fields(Some(s@)),
{
    let mut out: Vec<String> = Vec::new();
    let n: usize = s.unicode_len();
    let lo: usize = skip_spaces_in(s, 0, n);
    let hi: usize = drop_spaces_in(s, lo, n);
    if lo >= hi {
        assert(texts(out@) =~= Seq::<Seq<char>>::empty());
        return out;
    }
    let mut pos: usize = lo;
    loop
        invariant
            lo <= pos <= hi <= n,
            lo < hi,
            n == s@.len(),
            lo == skip_spaces(s@, 0, n as int),
            hi == drop_spaces(s@, lo as int, n as int),
            texts(out@) + pieces(s@, ',', pos as int, hi as int) == pieces(
                s@,
                ',',
                lo as int,
                hi as int,
            ),
        decreases hi - pos,
    {
        let j: usize = next_sep_in(s, ',', pos, hi);
        let piece: String = trimmed_piece(s, pos, if j < hi { j } else { hi });
        let ghost before = texts(out@);
        out.push(piece);
        assert(texts(out@) =~= before + seq![piece@]);
        if j < hi {
            assert(before + (seq![piece@] + pieces(s@, ',', j + 1, hi as int)) =~= texts(out@)
                + pieces(s@, ',', j + 1, hi as int));
            pos = j + 1;
        } else {
            assert(texts(out@) =~= pieces(s@, ',', lo as int, hi as int));
            return out;
        }
    }
}

/// The names in a list separated by commas, each trimmed; none for no
/// list and for a blank one.
pub fn get_fields(fields: Option<String>) -> (r: Vec<String>)
    ensures
        texts(r@) == spec_get_fields(
            match fields {
                Some(s) => Some(s@),
                None => None,
            },
        ),
{
    match fields {
        None => {
            let out: Vec<String> = Vec::new();
            assert(texts(out@) =~= Seq::<Seq<char>>::empty());
            out
        },
        Some(s) => names_in(s.as_str()),
    }
}

} // verus!
