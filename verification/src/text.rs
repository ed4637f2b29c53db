//! Text helpers shared by the rest of the library: comparing strings,
//! Unicode whitespace trimming, searching a table for its first match,
//! and the few formatting steps that std performs for us.
use vstd::prelude::*;

verus! {

/// The characters that carry the Unicode `White_Space` property, which is
/// what `char::is_whitespace` and `str::trim` go by.
pub open spec fn is_ws(c: char) -> bool {
    ||| ('\u{9}' <= c && c <= '\u{D}')
    ||| c == ' '
    ||| c == '\u{85}'
    ||| c == '\u{A0}'
    ||| c == '\u{1680}'
    ||| ('\u{2000}' <= c && c <= '\u{200A}')
    ||| c == '\u{2028}'
    ||| c == '\u{2029}'
    ||| c == '\u{202F}'
    ||| c == '\u{205F}'
    ||| c == '\u{3000}'
}

/// `s` with its leading whitespace removed.
pub open spec fn trim_start(s: Seq<char>) -> Seq<char>
    decreases s.len(),
{
    if s.len() > 0 && is_ws(s[0]) {
        trim_start(s.drop_first())
    } else {
        s
    }
}

/// `s` with its trailing characters `c` removed.
pub open spec fn strip_end(s: Seq<char>, c: char) -> Seq<char>
    decreases s.len(),
{
    if s.len() > 0 && s.last() == c {
        strip_end(s.drop_last(), c)
    } else {
        s
    }
}

/// `s` with its trailing whitespace removed.
pub open spec fn trim_end(s: Seq<char>) -> Seq<char>
    decreases s.len(),
{
    if s.len() > 0 && is_ws(s.last()) {
        trim_end(s.drop_last())
    } else {
        s
    }
}

/// `s` with leading and trailing whitespace removed, as `str::trim` does.
pub open spec fn trim(s: Seq<char>) -> Seq<char> {
    trim_end(trim_start(s))
}

/// True when every character of `s` is whitespace (so `s` trims to nothing).
pub open spec fn all_ws(s: Seq<char>) -> bool {
    forall|i: int| 0 <= i < s.len() ==> is_ws(#[trigger] s[i])
}

/// A text made of whitespace only trims to nothing.
pub proof fn lemma_all_ws_trims_to_empty(s: Seq<char>)
    requires
        all_ws(s),
    ensures
        trim(s).len() == 0,
    decreases s.len(),
{
    if s.len() > 0 {
        assert(is_ws(s[0]));
        assert forall|i: int| 0 <= i < s.drop_first().len() implies is_ws(
            #[trigger] s.drop_first()[i],
        ) by {
            assert(s.drop_first()[i] == s[i + 1]);
        }
        lemma_all_ws_trims_to_empty(s.drop_first());
    }
}

/// The ASCII-lowercase form of a character: `A`..=`Z` become `a`..=`z`.
pub open spec fn ascii_lower_char(c: char) -> char {
    if 'A' <= c && c <= 'Z' {
        ((c as u32) + 32) as char
    } else {
        c
    }
}

/// The ASCII-lowercase form of a text, as `str::to_ascii_lowercase` gives it.
pub open spec fn ascii_lower(s: Seq<char>) -> Seq<char> {
    s.map_values(|c: char| ascii_lower_char(c))
}

/// The text of a string slice that may be absent.
pub open spec fn opt_text(o: Option<&str>) -> Option<Seq<char>> {
    match o {
        Some(s) => Some(s@),
        None => None,
    }
}

/// The texts of a list of `&str`.
pub open spec fn texts(v: Seq<&str>) -> Seq<Seq<char>> {
    v.map_values(|s: &str| s@)
}

/// The texts of a list of `String`.
pub open spec fn string_texts(v: Seq<String>) -> Seq<Seq<char>> {
    v.map_values(|s: String| s@)
}

/// The parts of `parts` joined with `sep` between each two of them.
pub open spec fn join(parts: Seq<Seq<char>>, sep: Seq<char>) -> Seq<char>
    decreases parts.len(),
{
    if parts.len() == 0 {
        Seq::empty()
    } else if parts.len() == 1 {
        parts[0]
    } else {
        join(parts.drop_last(), sep) + sep + parts.last()
    }
}

/// The first element of `s` that satisfies `p`, if any does.
pub open spec fn first_where<A>(s: Seq<A>, p: spec_fn(A) -> bool) -> Option<A>
    decreases s.len(),
{
    if s.len() == 0 {
        None
    } else if p(s[0]) {
        Some(s[0])
    } else {
        first_where(s.drop_first(), p)
    }
}

/// Skipping a prefix none of whose elements satisfies `p` leaves the first match unchanged.
pub proof fn lemma_first_where_skip<A>(s: Seq<A>, p: spec_fn(A) -> bool, k: int)
    requires
        0 <= k <= s.len(),
        forall|j: int| 0 <= j < k ==> !p(#[trigger] s[j]),
    ensures
        first_where(s, p) == first_where(s.skip(k), p),
    decreases k,
{
    if k > 0 {
        assert(s.skip(1) =~= s.drop_first());
        lemma_first_where_skip(s.drop_first(), p, k - 1);
        assert(s.drop_first().skip(k - 1) =~= s.skip(k));
    } else {
        assert(s.skip(0) =~= s);
    }
}

/// The first match is the element at `k` when `s[k]` matches and nothing before it does.
pub proof fn lemma_first_where_at<A>(s: Seq<A>, p: spec_fn(A) -> bool, k: int)
    requires
        0 <= k < s.len(),
        p(s[k]),
        forall|j: int| 0 <= j < k ==> !p(#[trigger] s[j]),
    ensures
        first_where(s, p) == Some(s[k]),
{
    lemma_first_where_skip(s, p, k);
    assert(s.skip(k)[0] == s[k]);
}

/// No match at all when no element satisfies `p`.
pub proof fn lemma_first_where_none<A>(s: Seq<A>, p: spec_fn(A) -> bool)
    requires
        forall|j: int| 0 <= j < s.len() ==> !p(#[trigger] s[j]),
    ensures
        first_where(s, p) is None,
{
    lemma_first_where_skip(s, p, s.len() as int);
    assert(s.skip(s.len() as int).len() == 0);
}

/// Whatever the first match is, it is an element of `s` and it satisfies `p`.
pub proof fn lemma_first_where_found<A>(s: Seq<A>, p: spec_fn(A) -> bool)
    ensures
        first_where(s, p) matches Some(x) ==> p(x) && exists|k: int| 0 <= k < s.len() && s[k] == x,
    decreases s.len(),
{
    if s.len() > 0 && !p(s[0]) {
        lemma_first_where_found(s.drop_first(), p);
        if let Some(x) = first_where(s.drop_first(), p) {
            let k = choose|k: int| 0 <= k < s.drop_first().len() && s.drop_first()[k] == x;
            assert(s[k + 1] == x);
        }
    } else if s.len() > 0 {
        assert(s[0] == s[0]);
    }
}

/// Whether two string slices hold the same text.
pub fn same_text(a: &str, b: &str) -> (r: bool)
    ensures
        r == (a@ == b@),
{
    a.to_owned() == b.to_owned()
}

/// Whether a character is Unicode whitespace (`char::is_whitespace`).
pub fn is_whitespace(c: char) -> (r: bool)
    ensures
        r == is_ws(c),
{
    ('\u{9}' <= c && c <= '\u{D}') || c == ' ' || c == '\u{85}' || c == '\u{A0}' || c == '\u{1680}'
        || ('\u{2000}' <= c && c <= '\u{200A}') || c == '\u{2028}' || c == '\u{2029}' || c
        == '\u{202F}' || c == '\u{205F}' || c == '\u{3000}'
}

/// The characters of a string slice, in order.
pub fn chars_of(s: &str) -> (r: Vec<char>)
    ensures
        r@ == s@,
{
    let mut out: Vec<char> = Vec::new();
    for c in it: s.chars()
        invariant
            it.seq() == s@,
            out@ == s@.take(it.index() as int),
    {
        assert(s@.take(it.index() as int + 1) =~= s@.take(it.index() as int).push(c));
        out.push(c);
    }
    assert(s@.take(s@.len() as int) =~= s@);
    out
}

proof fn lemma_trim_start_step(s: Seq<char>, a: int)
    requires
        0 <= a < s.len(),
        is_ws(s[a]),
    ensures
        trim_start(s.subrange(a, s.len() as int)) == trim_start(s.subrange(a + 1, s.len() as int)),
{
    assert(s.subrange(a, s.len() as int).drop_first() =~= s.subrange(a + 1, s.len() as int));
}

proof fn lemma_trim_end_step(s: Seq<char>, a: int, b: int)
    requires
        0 <= a < b <= s.len(),
        is_ws(s[b - 1]),
    ensures
        trim_end(s.subrange(a, b)) == trim_end(s.subrange(a, b - 1)),
{
    assert(s.subrange(a, b).drop_last() =~= s.subrange(a, b - 1));
}

proof fn lemma_strip_end_step(s: Seq<char>, c: char, a: int, b: int)
    requires
        0 <= a < b <= s.len(),
        s[b - 1] == c,
    ensures
        strip_end(s.subrange(a, b), c) == strip_end(s.subrange(a, b - 1), c),
{
    assert(s.subrange(a, b).drop_last() =~= s.subrange(a, b - 1));
}

/// The index range `[start, end)` of `chars` that remains after trimming.
fn trim_bounds(chars: &Vec<char>) -> (r: (usize, usize))
    ensures
        r.0 <= r.1 <= chars@.len(),
        chars@.subrange(r.0 as int, r.1 as int) == trim(chars@),
{
    let n = chars.len();
    let mut a: usize = 0;
    assert(chars@.subrange(0, n as int) =~= chars@);
    while a < n && is_whitespace(chars[a])
        invariant
            a <= n == chars@.len(),
            trim_start(chars@) == trim_start(chars@.subrange(a as int, n as int)),
        decreases n - a,
    {
        proof {
            lemma_trim_start_step(chars@, a as int);
        }
        a = a + 1;
    }
    let mut b: usize = n;
    while b > a && is_whitespace(chars[b - 1])
        invariant
            a <= b <= n == chars@.len(),
            trim_start(chars@) == trim_start(chars@.subrange(a as int, n as int)),
            a == n || !is_ws(chars@[a as int]),
            trim_end(chars@.subrange(a as int, n as int)) == trim_end(
                chars@.subrange(a as int, b as int),
            ),
        decreases b - a,
    {
        proof {
            lemma_trim_end_step(chars@, a as int, b as int);
        }
        b = b - 1;
    }
    proof {
        let rest = chars@.subrange(a as int, n as int);
        if a < n {
            assert(rest[0] == chars@[a as int]);
        }
        assert(trim_start(rest) == rest);
        let kept = chars@.subrange(a as int, b as int);
        if b > a {
            assert(kept.last() == chars@[b - 1]);
        }
        assert(trim_end(kept) == kept);
    }
    (a, b)
}

/// `s` with leading and trailing Unicode whitespace removed (`str::trim`).
pub fn trim_text(s: &str) -> (r: &str)
    ensures
        r@ == trim(s@),
{
    let chars = chars_of(s);
    let (a, b) = trim_bounds(&chars);
    s.substring_char(a, b)
}

/// Whether `s` is empty once trimmed, i.e. made of whitespace only.
pub fn is_blank(s: &str) -> (r: bool)
    ensures
        r == (trim(s@).len() == 0),
{
    trim_text(s).is_empty()
}

/// `s` with every trailing `c` removed (`str::trim_end_matches` with one character).
pub fn strip_end_char(s: &str, c: char) -> (r: &str)
    ensures
        r@ == strip_end(s@, c),
{
    let chars = chars_of(s);
    let n = chars.len();
    let mut b: usize = n;
    assert(chars@.subrange(0, n as int) =~= chars@);
    while b > 0 && chars[b - 1] == c
        invariant
            b <= n == chars@.len(),
            strip_end(chars@, c) == strip_end(chars@.subrange(0, b as int), c),
        decreases b,
    {
        proof {
            lemma_strip_end_step(chars@, c, 0, b as int);
        }
        b = b - 1;
    }
    proof {
        let kept = chars@.subrange(0, b as int);
        if b > 0 {
            assert(kept.last() == chars@[b - 1]);
        }
    }
    s.substring_char(0, b)
}

/// A new `String` holding the text of `s`.
pub fn owned(s: &str) -> (r: String)
    ensures
        r@ == s@,
{
    s.to_owned()
}

/// The concatenation of two texts.
pub fn concat2(a: &str, b: &str) -> (r: String)
    ensures
        r@ == a@ + b@,
{
    let mut out = a.to_owned();
    out.append(b);
    out
}

/// The concatenation of three texts.
pub fn concat3(a: &str, b: &str, c: &str) -> (r: String)
    ensures
        r@ == a@ + b@ + c@,
{
    let mut out = a.to_owned();
    out.append(b);
    out.append(c);
    out
}

/// The parts joined with `sep` between each two of them (`[String]::join`).
pub fn join_texts(parts: &Vec<String>, sep: &str) -> (r: String)
    ensures
        r@ == join(string_texts(parts@), sep@),
{
    let ghost views = string_texts(parts@);
    let mut out = String::new();
    let mut i: usize = 0;
    while i < parts.len()
        invariant
            i <= parts@.len(),
            views == string_texts(parts@),
            out@ == join(views.take(i as int), sep@),
        decreases parts@.len() - i,
    {
        proof {
            assert(views.take(i as int + 1).drop_last() =~= views.take(i as int));
            assert(views.take(i as int + 1).last() == parts@[i as int]@);
        }
        if i > 0 {
            out.append(sep);
        } else {
            assert(views.take(0) =~= Seq::<Seq<char>>::empty());
        }
        out.append(parts[i].as_str());
        i = i + 1;
    }
    assert(views.take(parts@.len() as int) =~= views);
    out
}

/// The ASCII-lowercase copy of `s`.
///
/// Calls std's `str::to_ascii_lowercase`, whose documentation says that it maps
/// `A`..=`Z` to `a`..=`z` and leaves every other character as it is; this
/// contract claims exactly that of the result.
#[verifier::external_body]
pub(crate) fn to_ascii_lowercase(s: &str) -> (r: String)
    ensures
        r@ == ascii_lower(s@),
{
    s.to_ascii_lowercase()
}

/// What `{:?}` prints for a string slice: the text quoted, with special
/// characters escaped.
pub uninterp spec fn debug_text(s: Seq<char>) -> Seq<char>;

/// The `Debug` rendering of a string slice.
///
/// Calls std's `format!("{:?}", s)`. The contract names the result
/// `debug_text(s@)` and says nothing more of it: it depends on the text alone.
#[verifier::external_body]
pub(crate) fn debug_quoted(s: &str) -> (r: String)
    ensures
        r@ == debug_text(s@),
{
    format!("{:?}", s)
}

} // verus!
