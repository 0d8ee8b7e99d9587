//! Character-level text utilities shared by the parsers: a model of
//! searching and splitting over `Seq<char>`, and executable versions of
//! them that are proved against that model.

use vstd::prelude::*;
use vstd::std_specs::iter::IteratorSpec;

verus! {

broadcast use vstd::string::group_string_axioms;

/// Collects the characters of `s` into a vector.
pub fn char_vec(s: &str) -> (v: Vec<char>)
    ensures
        v@ == s@,
{
    let mut v: Vec<char> = Vec::new();
    for c in it: s.chars()
        invariant
            it.seq() == s@,
            v@ == it.seq().take(it.index() as int),
    {
        v.push(c);
    }
    v
}

/// Appends one character to a string: `String::push`.
#[verifier::external_body]
pub(crate) fn push_char(s: &mut String, c: char)
    ensures
        final(s)@ == old(s)@.push(c),
{
    s.push(c);
}

/// The lower case of `s` by Unicode's rules.
pub uninterp spec fn lowercase(s: Seq<char>) -> Seq<char>;

/// `str::to_lowercase`. The contract names the result, which is a function
/// of the text alone.
#[verifier::external_body]
pub(crate) fn to_lowercase(s: &str) -> (r: String)
    ensures
        r@ == lowercase(s@),
{
    s.to_lowercase()
}

/// The upper case of `c` by Unicode's rules: one or more characters.
pub uninterp spec fn uppercase(c: char) -> Seq<char>;

/// `char::to_uppercase`, its characters collected into a string. The
/// contract names the result, which is a function of the character alone,
/// and states that it has at least one character, as the documentation
/// says ("one or more chars").
#[verifier::external_body]
pub(crate) fn to_uppercase(c: char) -> (r: String)
    ensures
        r@ == uppercase(c),
        r@.len() >= 1,
{
    c.to_uppercase().collect::<String>()
}

/// Builds the string made of `v[lo..hi]`.
pub fn string_of(v: &Vec<char>, lo: usize, hi: usize) -> (r: String)
    requires
        lo <= hi <= v@.len(),
    ensures
        r@ == v@.subrange(lo as int, hi as int),
{
    let mut r = String::new();
    let mut i = lo;
    while i < hi
        invariant
            lo <= i <= hi <= v@.len(),
            r@ == v@.subrange(lo as int, i as int),
        decreases hi - i,
    {
        push_char(&mut r, v[i]);
        assert(v@.subrange(lo as int, i + 1) == v@.subrange(lo as int, i as int).push(v@[i as int]));
        i += 1;
    }
    r
}

/// Copies `v[lo..hi]` into a new vector.
pub fn sub_vec(v: &Vec<char>, lo: usize, hi: usize) -> (r: Vec<char>)
    requires
        lo <= hi <= v@.len(),
    ensures
        r@ == v@.subrange(lo as int, hi as int),
{
    let mut r: Vec<char> = Vec::new();
    let mut i = lo;
    while i < hi
        invariant
            lo <= i <= hi <= v@.len(),
            r@ == v@.subrange(lo as int, i as int),
        decreases hi - i,
    {
        r.push(v[i]);
        assert(v@.subrange(lo as int, i + 1) == v@.subrange(lo as int, i as int).push(v@[i as int]));
        i += 1;
    }
    r
}

/// Whether the characters in `v` are exactly those of `lit`.
pub fn chars_eq(v: &Vec<char>, lit: &str) -> (r: bool)
    ensures
        r == (v@ == lit@),
{
    let n = lit.unicode_len();
    if v.len() != n {
        return false;
    }
    let mut i: usize = 0;
    while i < n
        invariant
            n == lit@.len(),
            v@.len() == n,
            i <= n,
            forall|j: int| 0 <= j < i ==> v@[j] == lit@[j],
        decreases n - i,
    {
        if v[i] != lit.get_char(i) {
            return false;
        }
        i += 1;
    }
    assert(v@ =~= lit@);
    true
}

/// Whether the string `s` is exactly `lit`.
pub fn str_eq(s: &str, lit: &str) -> (r: bool)
    ensures
        r == (s@ == lit@),
{
    let v = char_vec(s);
    chars_eq(&v, lit)
}

/// Index of the first occurrence of `c` in `s`.
pub open spec fn find_char(s: Seq<char>, c: char) -> Option<int>
    decreases s.len(),
{
    if s.len() == 0 {
        None
    } else if s[0] == c {
        Some(0)
    } else {
        match find_char(s.drop_first(), c) {
            Some(i) => Some(i + 1),
            None => None,
        }
    }
}

/// `find_char` is the least index holding `c`, and `None` when there is none.
pub proof fn lemma_find_char(s: Seq<char>, c: char)
    ensures
        match find_char(s, c) {
            Some(i) => 0 <= i < s.len() && s[i] == c && forall|j: int| 0 <= j < i ==> s[j] != c,
            None => forall|j: int| 0 <= j < s.len() ==> s[j] != c,
        },
    decreases s.len(),
{
    if s.len() > 0 && s[0] != c {
        lemma_find_char(s.drop_first(), c);
        assert forall|j: int| 0 <= j < s.len() && s[j] == c implies j > 0 && s.drop_first()[j - 1] == c by {}
    }
}

/// Splits `s` at the first `c`: the part before and the part after it.
pub open spec fn split_once(s: Seq<char>, c: char) -> Option<(Seq<char>, Seq<char>)> {
    match find_char(s, c) {
        Some(i) => Some((s.take(i), s.skip(i + 1))),
        None => None,
    }
}

/// Splits `s` at the first `c`, or gives all of `s` and an empty rest when
/// there is none.
pub open spec fn split_once_or_all(s: Seq<char>, c: char) -> (Seq<char>, Seq<char>) {
    match split_once(s, c) {
        Some(p) => p,
        None => (s, Seq::empty()),
    }
}

/// All pieces of `s` between occurrences of `c` (always at least one).
pub open spec fn split_all(s: Seq<char>, c: char) -> Seq<Seq<char>>
    decreases s.len(),
{
    match find_char(s, c) {
        Some(i) => {
            if 0 <= i < s.len() {
                seq![s.take(i)] + split_all(s.skip(i + 1), c)
            } else {
                seq![s]
            }
        }
        None => seq![s],
    }
}

/// Index of the first occurrence of two consecutive `c`.
pub open spec fn find_double(s: Seq<char>, c: char) -> Option<int>
    decreases s.len(),
{
    if s.len() < 2 {
        None
    } else if s[0] == c && s[1] == c {
        Some(0)
    } else {
        match find_double(s.drop_first(), c) {
            Some(i) => Some(i + 1),
            None => None,
        }
    }
}

/// `find_double` is the least index starting a pair of `c`.
pub proof fn lemma_find_double(s: Seq<char>, c: char)
    ensures
        match find_double(s, c) {
            Some(i) => 0 <= i && i + 1 < s.len() && s[i] == c && s[i + 1] == c
                && forall|j: int| #![trigger s[j]] 0 <= j < i ==> !(s[j] == c && s[j + 1] == c),
            None => forall|j: int| #![trigger s[j]] 0 <= j && j + 1 < s.len() ==> !(s[j] == c && s[j + 1] == c),
        },
    decreases s.len(),
{
    if s.len() >= 2 && !(s[0] == c && s[1] == c) {
        lemma_find_double(s.drop_first(), c);
        assert forall|j: int| #![trigger s[j]] 0 <= j && j + 1 < s.len() && s[j] == c && s[j + 1] == c implies j > 0
            && s.drop_first()[j - 1] == c && s.drop_first()[j] == c by {}
    }
}

/// Whether `c` does not occur in `s`.
pub open spec fn lacks(s: Seq<char>, c: char) -> bool {
    forall|j: int| 0 <= j < s.len() ==> s[j] != c
}

/// In `a`, `c`, `rest`, where `a` holds no `c`, the first `c` is the one
/// after `a`; and `a` alone holds none.
pub proof fn lemma_find_char_after(a: Seq<char>, c: char, rest: Seq<char>)
    requires
        lacks(a, c),
    ensures
        find_char(a + seq![c] + rest, c) == Some(a.len() as int),
        find_char(a, c) is None,
{
    let s = a + seq![c] + rest;
    lemma_find_char(s, c);
    lemma_find_char(a, c);
    assert(s[a.len() as int] == c);
    match find_char(s, c) {
        Some(i) => {
            if i < a.len() {
                assert(s[i] == a[i]);
            }
        },
        None => {},
    }
    match find_char(a, c) {
        Some(i) => {
            assert(a[i] == c);
        },
        None => {},
    }
}

/// `a`, `c`, `rest`, where `a` holds no `c`, splits at its first `c` into
/// `a` and `rest`.
pub proof fn lemma_split_once_after(a: Seq<char>, c: char, rest: Seq<char>)
    requires
        lacks(a, c),
    ensures
        split_once(a + seq![c] + rest, c) == Some((a, rest)),
        split_once_or_all(a + seq![c] + rest, c) == (a, rest),
        split_once(a, c) is None,
        split_once_or_all(a, c) == (a, Seq::<char>::empty()),
{
    lemma_find_char_after(a, c, rest);
    let s = a + seq![c] + rest;
    assert(s.take(a.len() as int) =~= a);
    assert(s.skip(a.len() as int + 1) =~= rest);
}

/// The pieces of `a`, `c`, `rest`, where `a` holds no `c`, are `a` and the
/// pieces of `rest`.
pub proof fn lemma_split_all_after(a: Seq<char>, c: char, rest: Seq<char>)
    requires
        lacks(a, c),
    ensures
        split_all(a + seq![c] + rest, c) == seq![a] + split_all(rest, c),
        split_all(a, c) == seq![a],
{
    lemma_find_char_after(a, c, rest);
    let s = a + seq![c] + rest;
    assert(s.take(a.len() as int) =~= a);
    assert(s.skip(a.len() as int + 1) =~= rest);
}

/// In `n`, `c`, `c`, `d`, where `n` holds no `c`, the first `c` `c` is the
/// one after `n`.
pub proof fn lemma_find_double_after(n: Seq<char>, c: char, d: Seq<char>)
    requires
        lacks(n, c),
    ensures
        find_double(n + seq![c, c] + d, c) == Some(n.len() as int),
{
    let s = n + seq![c, c] + d;
    lemma_find_double(s, c);
    assert(s[n.len() as int] == c && s[n.len() as int + 1] == c);
    match find_double(s, c) {
        Some(i) => {
            if i < n.len() {
                assert(s[i] == n[i]);
            } else if i > n.len() {
                assert(!(s[n.len() as int] == c && s[n.len() as int + 1] == c));
            }
        },
        None => {},
    }
}

/// Index of the first `c` in `v`, searching from `from`.
pub fn index_of_char(v: &Vec<char>, c: char, from: usize) -> (r: Option<usize>)
    requires
        from <= v@.len(),
    ensures
        match r {
            Some(i) => from <= i < v@.len() && v@[i as int] == c
                && forall|j: int| from <= j < i ==> v@[j] != c,
            None => forall|j: int| from <= j < v@.len() ==> v@[j] != c,
        },
{
    let mut i = from;
    while i < v.len()
        invariant
            from <= i <= v@.len(),
            forall|j: int| from <= j < i ==> v@[j] != c,
        decreases v@.len() - i,
    {
        if v[i] == c {
            return Some(i);
        }
        i += 1;
    }
    None
}


/// `find_char` gives `k` when `k` is the first index holding `c`.
pub proof fn lemma_find_char_at(s: Seq<char>, c: char, k: int)
    requires
        0 <= k < s.len(),
        s[k] == c,
        forall|j: int| 0 <= j < k ==> s[j] != c,
    ensures
        find_char(s, c) == Some(k),
{
    lemma_find_char(s, c);
    match find_char(s, c) {
        Some(i) => {
            if i < k {
                assert(s[i] != c);
            } else if i > k {
                assert(s[k] != c);
            }
        }
        None => {
            assert(s[k] != c);
        }
    }
}

/// `find_char` gives `None` when no index holds `c`.
pub proof fn lemma_find_char_none(s: Seq<char>, c: char)
    requires
        forall|j: int| 0 <= j < s.len() ==> s[j] != c,
    ensures
        find_char(s, c) == None::<int>,
{
    lemma_find_char(s, c);
}

/// The views of a sequence of strings.
pub open spec fn views(v: Seq<String>) -> Seq<Seq<char>> {
    v.map_values(|p: String| p@)
}

/// Splits `v` at its first `c`.
pub fn split_once_chars(v: &Vec<char>, c: char) -> (r: Option<(String, String)>)
    ensures
        match r {
            Some((a, b)) => split_once(v@, c) == Some((a@, b@)),
            None => split_once(v@, c) is None,
        },
{
    let n = v.len();
    match index_of_char(v, c, 0) {
        Some(i) => {
            proof {
                lemma_find_char_at(v@, c, i as int);
            }
            let a = string_of(v, 0, i);
            let b = string_of(v, i + 1, n);
            assert(a@ == v@.take(i as int));
            assert(b@ == v@.skip(i + 1));
            Some((a, b))
        }
        None => {
            proof {
                lemma_find_char_none(v@, c);
            }
            None
        }
    }
}

/// Splits `v` at every `c`.
pub fn split_all_chars(v: &Vec<char>, c: char) -> (r: Vec<String>)
    ensures
        views(r@) == split_all(v@, c),
{
    let mut pieces: Vec<String> = Vec::new();
    let mut start: usize = 0;
    let mut i: usize = 0;
    assert(v@.skip(0) =~= v@);
    assert(views(pieces@) =~= Seq::<Seq<char>>::empty());
    while i < v.len()
        invariant
            start <= i <= v@.len(),
            views(pieces@) + split_all(v@.skip(start as int), c) == split_all(v@, c),
            forall|j: int| start <= j < i ==> v@[j] != c,
        decreases v@.len() - i,
    {
        if v[i] == c {
            let ghost rest = v@.skip(start as int);
            proof {
                lemma_find_char_at(rest, c, i - start);
                assert(rest.take(i - start) =~= v@.subrange(start as int, i as int));
                assert(rest.skip(i - start + 1) =~= v@.skip(i + 1));
            }
            let piece = string_of(v, start, i);
            let ghost before = pieces@;
            pieces.push(piece);
            assert(views(pieces@) =~= views(before).push(piece@));
            start = i + 1;
        }
        i += 1;
    }
    let ghost rest = v@.skip(start as int);
    proof {
        lemma_find_char_none(rest, c);
    }
    let last = string_of(v, start, v.len());
    let ghost before = pieces@;
    pieces.push(last);
    assert(views(pieces@) =~= views(before).push(last@));
    assert(rest =~= last@);
    pieces
}


/// Index of the first pair of consecutive `c` in `v`.
pub fn index_of_double(v: &Vec<char>, c: char) -> (r: Option<usize>)
    ensures
        match r {
            Some(i) => find_double(v@, c) == Some(i as int) && i + 2 <= v@.len(),
            None => find_double(v@, c) is None,
        },
{
    proof {
        lemma_find_double(v@, c);
    }
    let n = v.len();
    if n < 2 {
        return None;
    }
    let mut i: usize = 0;
    while i + 1 < n
        invariant
            n == v@.len(),
            n >= 2,
            i + 1 <= n,
            forall|j: int| #![trigger v@[j]] 0 <= j < i ==> !(v@[j] == c && v@[j + 1] == c),
        decreases n - i,
    {
        if v[i] == c && v[i + 1] == c {
            proof {
                lemma_find_double(v@, c);
                match find_double(v@, c) {
                    Some(k) => {
                        if k < i {
                            assert(!(v@[k] == c && v@[k + 1] == c));
                        } else if k > i {
                            assert(!(v@[i as int] == c && v@[i + 1] == c));
                        }
                    }
                    None => {
                        assert(!(v@[i as int] == c && v@[i + 1] == c));
                    }
                }
            }
            return Some(i);
        }
        i += 1;
    }
    proof {
        match find_double(v@, c) {
            Some(k) => {
                assert(!(v@[k] == c && v@[k + 1] == c));
            }
            None => {}
        }
    }
    None
}

/// Whether `c` is an ASCII decimal digit.
pub open spec fn is_digit(c: char) -> bool {
    '0' as int <= c as int <= '9' as int
}

/// The value of a string of decimal digits, most significant first.
pub open spec fn digits_value(d: Seq<char>) -> int
    decreases d.len(),
{
    if d.len() == 0 {
        0
    } else {
        digits_value(d.drop_last()) * 10 + (d.last() as int - '0' as int)
    }
}

/// The `i32` written in decimal by `s`: an optional `+` or `-` sign, then
/// one or more ASCII digits, with a value in the range of `i32`.
pub open spec fn decimal_i32(s: Seq<char>) -> Option<i32> {
    let signed = s.len() > 0 && (s[0] == '-' || s[0] == '+');
    let digits = if signed { s.drop_first() } else { s };
    let magnitude = digits_value(digits);
    let value = if s.len() > 0 && s[0] == '-' { -magnitude } else { magnitude };
    if digits.len() > 0 && (forall|i: int| 0 <= i < digits.len() ==> is_digit(#[trigger] digits[i]))
        && i32::MIN <= value <= i32::MAX {
        Some(value as i32)
    } else {
        None
    }
}

#[verifier::external_type_specification]
#[verifier::external_body]
pub struct ExParseIntError(std::num::ParseIntError);

/// `str::parse::<i32>`. Its documentation states that the text must be an
/// optional `+` or `-` followed by ASCII digits only, and that a value out
/// of range is an error; the contract says exactly that. The error value it
/// returns is passed on as it is, and nothing is claimed of it.
#[verifier::external_body]
pub(crate) fn parse_decimal_i32(s: &str) -> (r: Result<i32, std::num::ParseIntError>)
    ensures
        match r {
            Ok(v) => decimal_i32(s@) == Some(v),
            Err(_) => decimal_i32(s@) is None,
        },
{
    s.parse::<i32>()
}


/// Splits `v` at its first `c`, or gives all of `v` and an empty rest.
pub fn split_once_or_all_chars(v: &Vec<char>, c: char) -> (r: (String, String))
    ensures
        (r.0@, r.1@) == split_once_or_all(v@, c),
{
    match split_once_chars(v, c) {
        Some(p) => p,
        None => {
            let all = string_of(v, 0, v.len());
            assert(all@ =~= v@);
            (all, String::new())
        }
    }
}


/// Whether `c` has the Unicode `White_Space` property, as `char::is_whitespace`
/// documents it.
pub open spec fn is_whitespace(c: char) -> bool {
    let n = c as u32;
    ||| 0x09 <= n <= 0x0D
    ||| n == 0x20
    ||| n == 0x85
    ||| n == 0xA0
    ||| n == 0x1680
    ||| 0x2000 <= n <= 0x200A
    ||| n == 0x2028
    ||| n == 0x2029
    ||| n == 0x202F
    ||| n == 0x205F
    ||| n == 0x3000
}

/// Whether `c` is Unicode whitespace.
pub fn char_is_whitespace(c: char) -> (r: bool)
    ensures
        r == is_whitespace(c),
{
    let n = c as u32;
    (0x09 <= n && n <= 0x0D) || n == 0x20 || n == 0x85 || n == 0xA0 || n == 0x1680 || (0x2000 <= n
        && n <= 0x200A) || n == 0x2028 || n == 0x2029 || n == 0x202F || n == 0x205F || n == 0x3000
}

/// The words of `s`: its maximal runs of characters that are not whitespace,
/// in order. A character that is not whitespace extends the last word when
/// the character before it is not whitespace either, and starts a new one
/// otherwise.
pub open spec fn words(s: Seq<char>) -> Seq<Seq<char>>
    decreases s.len(),
{
    if s.len() == 0 {
        Seq::empty()
    } else {
        let w = words(s.drop_last());
        let c = s.last();
        if is_whitespace(c) {
            w
        } else if s.len() >= 2 && !is_whitespace(s[s.len() - 2]) && w.len() > 0 {
            w.update(w.len() - 1, w.last().push(c))
        } else {
            w.push(seq![c])
        }
    }
}

/// The pieces of `ws` with `sep` between each two of them.
pub open spec fn join(ws: Seq<Seq<char>>, sep: Seq<char>) -> Seq<char>
    decreases ws.len(),
{
    if ws.len() == 0 {
        Seq::empty()
    } else if ws.len() == 1 {
        ws[0]
    } else {
        join(ws.drop_last(), sep) + sep + ws.last()
    }
}

/// Adding a piece adds the separator (when there was a piece) and the piece.
pub proof fn lemma_join_push(ws: Seq<Seq<char>>, sep: Seq<char>, w: Seq<char>)
    ensures
        join(ws.push(w), sep) == if ws.len() == 0 { w } else { join(ws, sep) + sep + w },
{
    assert(ws.push(w).drop_last() =~= ws);
}

/// Every word is non-empty and holds no whitespace.
pub proof fn lemma_words_solid(s: Seq<char>)
    ensures
        forall|k: int| 0 <= k < words(s).len() ==> #[trigger] words(s)[k].len() > 0,
        forall|k: int, j: int|
            0 <= k < words(s).len() && 0 <= j < words(s)[k].len() ==> !is_whitespace(#[trigger] words(s)[k][j]),
    decreases s.len(),
{
    if s.len() > 0 {
        lemma_words_solid(s.drop_last());
        let w = words(s.drop_last());
        let c = s.last();
        if !is_whitespace(c) {
            if s.len() >= 2 && !is_whitespace(s[s.len() - 2]) && w.len() > 0 {
                let w2 = w.update(w.len() - 1, w.last().push(c));
                assert forall|k: int| 0 <= k < w2.len() implies #[trigger] w2[k].len() > 0 by {
                    if k < w.len() - 1 {
                        assert(w2[k] == w[k]);
                    }
                }
                assert forall|k: int, j: int| 0 <= k < w2.len() && 0 <= j < w2[k].len() implies !is_whitespace(
                    #[trigger] w2[k][j],
                ) by {
                    if k < w.len() - 1 {
                        assert(w2[k] == w[k]);
                    } else if j < w.last().len() {
                        assert(w2[k][j] == w[w.len() - 1][j]);
                    }
                }
            } else {
                let w2 = w.push(seq![c]);
                assert forall|k: int| 0 <= k < w2.len() implies #[trigger] w2[k].len() > 0 by {
                    if k < w.len() {
                        assert(w2[k] == w[k]);
                    }
                }
                assert forall|k: int, j: int| 0 <= k < w2.len() && 0 <= j < w2[k].len() implies !is_whitespace(
                    #[trigger] w2[k][j],
                ) by {
                    if k < w.len() {
                        assert(w2[k] == w[k]);
                    }
                }
            }
        }
    }
}

/// Whether the only whitespace in `s` is single spaces, each between two
/// characters that are not whitespace.
pub open spec fn single_spaced(s: Seq<char>) -> bool {
    forall|k: int|
        0 <= k < s.len() && is_whitespace(#[trigger] s[k]) ==> s[k] == ' ' && 0 < k && k + 1 < s.len()
            && !is_whitespace(s[k - 1]) && !is_whitespace(s[k + 1])
}

/// Joining non-empty pieces without whitespace by single spaces gives a
/// single-spaced text, non-empty when there is a piece.
pub proof fn lemma_join_single_spaced(ws: Seq<Seq<char>>)
    requires
        forall|k: int| 0 <= k < ws.len() ==> #[trigger] ws[k].len() > 0,
        forall|k: int, j: int| 0 <= k < ws.len() && 0 <= j < ws[k].len() ==> !is_whitespace(#[trigger] ws[k][j]),
    ensures
        single_spaced(join(ws, seq![' '])),
        ws.len() > 0 ==> join(ws, seq![' ']).len() > 0,
    decreases ws.len(),
{
    if ws.len() == 1 {
        let t = join(ws, seq![' ']);
        assert(t == ws[0]);
        assert forall|k: int| 0 <= k < t.len() implies !is_whitespace(#[trigger] t[k]) by {
            assert(t[k] == ws[0][k]);
        }
    } else if ws.len() > 1 {
        let pre = ws.drop_last();
        assert forall|k: int| 0 <= k < pre.len() implies #[trigger] pre[k].len() > 0 by {
            assert(pre[k] == ws[k]);
        }
        assert forall|k: int, j: int| 0 <= k < pre.len() && 0 <= j < pre[k].len() implies !is_whitespace(
            #[trigger] pre[k][j],
        ) by {
            assert(pre[k] == ws[k]);
        }
        lemma_join_single_spaced(pre);
        let p = join(pre, seq![' ']);
        let last = ws.last();
        assert(last == ws[ws.len() - 1]);
        let t = join(ws, seq![' ']);
        assert(t == p + seq![' '] + last);
        assert(!is_whitespace(p[p.len() - 1])) by {
            if is_whitespace(p[p.len() - 1]) {
                assert(p.len() - 1 + 1 < p.len());
            }
        }
        assert(!is_whitespace(last[0]));
        assert(is_whitespace(' '));
        assert forall|k: int| 0 <= k < t.len() && is_whitespace(#[trigger] t[k]) implies t[k] == ' ' && 0 < k
            && k + 1 < t.len() && !is_whitespace(t[k - 1]) && !is_whitespace(t[k + 1]) by {
            if k < p.len() {
                assert(t[k] == p[k]);
                assert(t[k - 1] == p[k - 1]);
                assert(t[k + 1] == p[k + 1]);
            } else if k == p.len() {
                assert(t[k - 1] == p[p.len() - 1]);
                assert(t[k + 1] == last[0]);
            } else {
                assert(t[k] == last[k - p.len() - 1]);
            }
        }
    }
}

/// Whether `s` holds no whitespace.
pub open spec fn has_no_whitespace(s: Seq<char>) -> bool {
    forall|j: int| 0 <= j < s.len() ==> !is_whitespace(#[trigger] s[j])
}

/// Appending a word to a text that is empty or ends in whitespace adds the
/// word to its words.
pub proof fn lemma_words_append(a: Seq<char>, w: Seq<char>)
    requires
        a.len() == 0 || is_whitespace(a.last()),
        w.len() > 0,
        has_no_whitespace(w),
    ensures
        words(a + w) == words(a).push(w),
    decreases w.len(),
{
    let s = a + w;
    let p = w.drop_last();
    let c = w.last();
    assert(s.drop_last() =~= a + p);
    assert(s.last() == c);
    assert(!is_whitespace(w[w.len() - 1]));
    if p.len() == 0 {
        assert(a + p =~= a);
        if s.len() >= 2 {
            assert(s[s.len() - 2] == a.last());
        }
        assert(seq![c] =~= w);
    } else {
        assert forall|j: int| 0 <= j < p.len() implies !is_whitespace(#[trigger] p[j]) by {
            assert(p[j] == w[j]);
        }
        lemma_words_append(a, p);
        assert(s[s.len() - 2] == p.last());
        assert(p.last() == w[w.len() - 2]);
        let ws = words(a).push(p);
        assert(p.push(c) =~= w);
        assert(ws.update(ws.len() - 1, ws.last().push(c)) =~= words(a).push(w));
    }
}

/// The words of words joined by single spaces are those words.
pub proof fn lemma_words_of_join(ws: Seq<Seq<char>>)
    requires
        forall|k: int| 0 <= k < ws.len() ==> #[trigger] ws[k].len() > 0,
        forall|k: int| 0 <= k < ws.len() ==> has_no_whitespace(#[trigger] ws[k]),
    ensures
        words(join(ws, seq![' '])) == ws,
    decreases ws.len(),
{
    if ws.len() == 1 {
        lemma_words_append(Seq::empty(), ws[0]);
        assert(Seq::<char>::empty() + ws[0] =~= ws[0]);
        assert(seq![ws[0]] =~= ws);
    } else if ws.len() > 1 {
        let pre = ws.drop_last();
        assert forall|k: int| 0 <= k < pre.len() implies #[trigger] pre[k].len() > 0 by {
            assert(pre[k] == ws[k]);
        }
        assert forall|k: int| 0 <= k < pre.len() implies has_no_whitespace(#[trigger] pre[k]) by {
            assert(pre[k] == ws[k]);
        }
        lemma_words_of_join(pre);
        let a = join(pre, seq![' ']) + seq![' '];
        assert(is_whitespace(' '));
        assert(a.drop_last() =~= join(pre, seq![' ']));
        assert(words(a) == words(join(pre, seq![' '])));
        assert(ws.last() == ws[ws.len() - 1]);
        lemma_words_append(a, ws.last());
        assert(join(ws, seq![' ']) =~= a + ws.last());
        assert(pre.push(ws.last()) =~= ws);
    } else {
        assert(words(Seq::<char>::empty()) =~= Seq::<Seq<char>>::empty());
    }
}

/// Joins the pieces by single spaces.
pub fn join_strings(parts: &Vec<String>) -> (r: String)
    ensures
        r@ == join(views(parts@), seq![' ']),
{
    let mut r = String::new();
    let mut i: usize = 0;
    assert(views(parts@).take(0) =~= Seq::<Seq<char>>::empty());
    while i < parts.len()
        invariant
            i <= parts@.len(),
            r@ == join(views(parts@).take(i as int), seq![' ']),
        decreases parts@.len() - i,
    {
        let ghost before = views(parts@).take(i as int);
        proof {
            lemma_join_push(before, seq![' '], parts@[i as int]@);
            assert(views(parts@).take(i + 1) =~= before.push(parts@[i as int]@));
        }
        if i > 0 {
            push_char(&mut r, ' ');
        }
        r.append(parts[i].as_str());
        i += 1;
    }
    assert(views(parts@).take(parts@.len() as int) =~= views(parts@));
    r
}

/// Whether `a` comes before `b` in the order of their characters' code
/// points, a prefix coming first.
pub open spec fn text_less(a: Seq<char>, b: Seq<char>) -> bool
    decreases a.len(),
{
    if a.len() == 0 {
        b.len() > 0
    } else if b.len() == 0 {
        false
    } else if a[0] != b[0] {
        (a[0] as u32) < (b[0] as u32)
    } else {
        text_less(a.drop_first(), b.drop_first())
    }
}

/// No text comes before itself.
pub proof fn lemma_text_less_irreflexive(a: Seq<char>)
    ensures
        !text_less(a, a),
    decreases a.len(),
{
    if a.len() > 0 {
        lemma_text_less_irreflexive(a.drop_first());
    }
}

/// Of two texts, at most one comes before the other.
pub proof fn lemma_text_less_asymmetric(a: Seq<char>, b: Seq<char>)
    ensures
        text_less(a, b) ==> !text_less(b, a),
    decreases a.len(),
{
    if a.len() > 0 && b.len() > 0 && a[0] == b[0] {
        lemma_text_less_asymmetric(a.drop_first(), b.drop_first());
    }
}

/// The order of texts is transitive.
pub proof fn lemma_text_less_transitive(a: Seq<char>, b: Seq<char>, c: Seq<char>)
    requires
        text_less(a, b),
        text_less(b, c),
    ensures
        text_less(a, c),
    decreases a.len(),
{
    if a.len() > 0 && a[0] == b[0] && b[0] == c[0] {
        lemma_text_less_transitive(a.drop_first(), b.drop_first(), c.drop_first());
    }
}

/// Of two different texts, one comes before the other.
pub proof fn lemma_text_less_total(a: Seq<char>, b: Seq<char>)
    requires
        a != b,
    ensures
        text_less(a, b) || text_less(b, a),
    decreases a.len(),
{
    if a.len() > 0 && b.len() > 0 && a[0] == b[0] {
        if a.drop_first() == b.drop_first() {
            assert(a =~= seq![a[0]] + a.drop_first());
            assert(b =~= seq![b[0]] + b.drop_first());
        }
        lemma_text_less_total(a.drop_first(), b.drop_first());
    } else if a.len() == 0 && b.len() == 0 {
        assert(a =~= b);
    } else if a.len() > 0 && b.len() > 0 {
        vstd::utf8::char_u32_cast(a[0], a[0] as u32);
        vstd::utf8::char_u32_cast(b[0], b[0] as u32);
    }
}

/// Whether `a` comes before `b` in the order of code points.
pub fn chars_less(a: &Vec<char>, b: &Vec<char>) -> (r: bool)
    ensures
        r == text_less(a@, b@),
{
    let mut i: usize = 0;
    assert(a@.skip(0) =~= a@);
    assert(b@.skip(0) =~= b@);
    while i < a.len() && i < b.len()
        invariant
            i <= a@.len(),
            i <= b@.len(),
            text_less(a@.skip(i as int), b@.skip(i as int)) == text_less(a@, b@),
        decreases a@.len() - i,
    {
        let x = a[i];
        let y = b[i];
        assert(a@.skip(i as int)[0] == x);
        assert(b@.skip(i as int)[0] == y);
        if x != y {
            return (x as u32) < (y as u32);
        }
        assert(a@.skip(i as int).drop_first() =~= a@.skip(i + 1));
        assert(b@.skip(i as int).drop_first() =~= b@.skip(i + 1));
        i += 1;
    }
    i < b.len()
}


/// Whether two character vectors hold the same characters.
pub fn chars_same(a: &Vec<char>, b: &Vec<char>) -> (r: bool)
    ensures
        r == (a@ == b@),
{
    if a.len() != b.len() {
        return false;
    }
    let mut i: usize = 0;
    while i < a.len()
        invariant
            a@.len() == b@.len(),
            i <= a@.len(),
            forall|j: int| 0 <= j < i ==> a@[j] == b@[j],
        decreases a@.len() - i,
    {
        if a[i] != b[i] {
            return false;
        }
        i += 1;
    }
    assert(a@ =~= b@);
    true
}


/// The decimal digit of `d`, for `d` below ten.
pub open spec fn digit_char(d: nat) -> char {
    (('0' as u32) + d) as char
}

/// The decimal writing of `n`, without leading zeros.
pub open spec fn decimal(n: nat) -> Seq<char>
    decreases n,
{
    if n < 10 {
        seq![digit_char(n)]
    } else {
        decimal(n / 10).push(digit_char(n % 10))
    }
}

/// Every character of a decimal writing is a digit `0` to `9`.
pub proof fn lemma_decimal_digits(n: nat)
    ensures
        decimal(n).len() >= 1,
        n >= 10 ==> decimal(n).len() >= 2,
        forall|k: int| 0 <= k < decimal(n).len() ==> 48 <= (#[trigger] decimal(n)[k]) as u32 <= 57,
    decreases n,
{
    if n >= 10 {
        lemma_decimal_digits(n / 10);
        let d = decimal(n / 10);
        let c = digit_char(n % 10);
        assert forall|k: int| 0 <= k < decimal(n).len() implies 48 <= (#[trigger] decimal(n)[k]) as u32 <= 57 by {
            if k < d.len() {
                assert(decimal(n)[k] == d[k]);
            } else {
                assert(decimal(n)[k] == c);
            }
        }
    }
}

/// Different numbers have different decimal writings.
pub proof fn lemma_decimal_injective(a: nat, b: nat)
    requires
        decimal(a) == decimal(b),
    ensures
        a == b,
    decreases a,
{
    lemma_decimal_digits(a);
    lemma_decimal_digits(b);
    if a < 10 && b < 10 {
        assert(decimal(a)[0] == digit_char(a));
        assert(decimal(b)[0] == digit_char(b));
    } else if a >= 10 && b >= 10 {
        let da = decimal(a);
        let db = decimal(b);
        assert(da.last() == digit_char(a % 10));
        assert(db.last() == digit_char(b % 10));
        assert(da.drop_last() =~= decimal(a / 10));
        assert(db.drop_last() =~= decimal(b / 10));
        lemma_decimal_injective(a / 10, b / 10);
    }
}

/// Appends the decimal writing of `n` to `s`.
pub fn push_decimal(s: &mut String, n: u64)
    ensures
        final(s)@ == old(s)@ + decimal(n as nat),
    decreases n,
{
    if n >= 10 {
        push_decimal(s, n / 10);
    }
    let d = (n % 10) as u32;
    let c = char_from_digit(d);
    push_char(s, c);
    assert(s@ =~= old(s)@ + decimal(n as nat));
}

/// The character of the decimal digit `d`.
pub fn char_from_digit(d: u32) -> (c: char)
    requires
        d < 10,
    ensures
        c == digit_char(d as nat),
{
    match d {
        0 => '0',
        1 => '1',
        2 => '2',
        3 => '3',
        4 => '4',
        5 => '5',
        6 => '6',
        7 => '7',
        8 => '8',
        _ => '9',
    }
}

/// The words of `v`: `split_whitespace`.
pub fn split_words(v: &Vec<char>) -> (r: Vec<String>)
    ensures
        views(r@) == words(v@),
{
    let mut done: Vec<String> = Vec::new();
    let mut current = String::new();
    let mut in_word = false;
    let mut i: usize = 0;
    assert(v@.take(0) =~= Seq::<char>::empty());
    assert(views(done@) =~= Seq::<Seq<char>>::empty());
    while i < v.len()
        invariant
            i <= v@.len(),
            in_word == (i > 0 && !is_whitespace(v@[i - 1])),
            in_word ==> words(v@.take(i as int)) == views(done@).push(current@),
            !in_word ==> words(v@.take(i as int)) == views(done@),
        decreases v@.len() - i,
    {
        let c = v[i];
        let ghost pre = v@.take(i as int);
        let ghost cur = v@.take(i + 1);
        assert(cur.drop_last() =~= pre);
        assert(cur.last() == c);
        if i > 0 {
            assert(cur[cur.len() - 2] == v@[i - 1]);
        }
        if char_is_whitespace(c) {
            if in_word {
                let ghost before = done@;
                let finished = current;
                done.push(finished);
                assert(views(done@) =~= views(before).push(finished@));
                current = String::new();
            }
            in_word = false;
        } else {
            if in_word {
                let ghost w = words(pre);
                push_char(&mut current, c);
                assert(words(cur) =~= views(done@).push(current@));
            } else {
                current = String::new();
                push_char(&mut current, c);
                assert(current@ =~= seq![c]);
            }
            in_word = true;
        }
        i += 1;
    }
    assert(v@.take(v@.len() as int) =~= v@);
    if in_word {
        let ghost before = done@;
        done.push(current);
        assert(views(done@) =~= views(before).push(current@));
    }
    done
}

} // verus!
