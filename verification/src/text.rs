//! Text handling around speech: whitespace trimming as `str::trim` does it,
//! stripping trailing slashes, ASCII lower-casing, and joining transcript
//! segments.
use vstd::prelude::*;
use vstd::string::StrSliceExecFns;

verus! {

broadcast use vstd::string::group_string_axioms;

/// Whether `c` has the Unicode `White_Space` property, which is what
/// `char::is_whitespace` answers: U+0009 to U+000D, U+0020, U+0085, U+00A0,
/// U+1680, U+2000 to U+200A, U+2028, U+2029, U+202F, U+205F and U+3000.
pub open spec fn is_white_space(c: char) -> bool {
    let u = c as u32;
    ||| 0x9 <= u <= 0xd
    ||| u == 0x20
    ||| u == 0x85
    ||| u == 0xa0
    ||| u == 0x1680
    ||| 0x2000 <= u <= 0x200a
    ||| u == 0x2028
    ||| u == 0x2029
    ||| u == 0x202f
    ||| u == 0x205f
    ||| u == 0x3000
}

/// Whether `c` is whitespace, as `char::is_whitespace` says.
fn char_is_whitespace(c: char) -> (r: bool)
    ensures
        r == is_white_space(c),
{
    let u = c as u32;
    (0x9 <= u && u <= 0xd) || u == 0x20 || u == 0x85 || u == 0xa0 || u == 0x1680 || (0x2000 <= u
        && u <= 0x200a) || u == 0x2028 || u == 0x2029 || u == 0x202f || u == 0x205f || u == 0x3000
}

/// `s` without its leading whitespace.
pub open spec fn trim_start_ws(s: Seq<char>) -> Seq<char>
    decreases s.len(),
{
    if s.len() > 0 && is_white_space(s[0]) {
        trim_start_ws(s.drop_first())
    } else {
        s
    }
}

/// `s` without its trailing whitespace.
pub open spec fn trim_end_ws(s: Seq<char>) -> Seq<char>
    decreases s.len(),
{
    if s.len() > 0 && is_white_space(s.last()) {
        trim_end_ws(s.drop_last())
    } else {
        s
    }
}

/// `s` without leading and trailing whitespace.
pub open spec fn trim_ws(s: Seq<char>) -> Seq<char> {
    trim_end_ws(trim_start_ws(s))
}

/// Whether `s` holds nothing but whitespace.
pub open spec fn blank(s: Seq<char>) -> bool {
    trim_ws(s).len() == 0
}

/// `s` without the trailing characters equal to `c`.
pub open spec fn trim_end_char(s: Seq<char>, c: char) -> Seq<char>
    decreases s.len(),
{
    if s.len() > 0 && s.last() == c {
        trim_end_char(s.drop_last(), c)
    } else {
        s
    }
}

/// The characters of `s`, in order.
fn chars_of(s: &str) -> (v: Vec<char>)
    ensures
        v@ == s@,
{
    let mut v: Vec<char> = Vec::new();
    for c in it: s.chars()
        invariant
            it.seq() == s@,
            v@ == it.seq().take(it.index() as int),
    {
        v.push(c);
    }
    v
}

/// The bounds of `s` once leading and trailing whitespace are left out.
fn trim_bounds(v: &Vec<char>) -> (r: (usize, usize))
    ensures
        r.0 <= r.1 <= v@.len(),
        trim_ws(v@) == v@.subrange(r.0 as int, r.1 as int),
{
    let n = v.len();
    let mut i: usize = 0;
    assert(v@.subrange(0, n as int) =~= v@);
    while i < n && char_is_whitespace(v[i])
        invariant
            n == v@.len(),
            i <= n,
            trim_start_ws(v@) == trim_start_ws(v@.subrange(i as int, n as int)),
        decreases n - i,
    {
        assert(v@.subrange(i as int, n as int).drop_first() =~= v@.subrange(i + 1, n as int));
        i = i + 1;
    }
    assert(trim_start_ws(v@) == v@.subrange(i as int, n as int));
    let mut j: usize = n;
    while j > i && char_is_whitespace(v[j - 1])
        invariant
            n == v@.len(),
            i <= j <= n,
            trim_end_ws(v@.subrange(i as int, n as int)) == trim_end_ws(v@.subrange(i as int, j as int)),
        decreases j - i,
    {
        assert(v@.subrange(i as int, j as int).drop_last() =~= v@.subrange(i as int, j - 1));
        j = j - 1;
    }
    (i, j)
}

/// `s` without leading and trailing whitespace, as `str::trim` gives it.
pub fn trim(s: &str) -> (r: String)
    ensures
        r@ == trim_ws(s@),
{
    let v = chars_of(s);
    let (i, j) = trim_bounds(&v);
    s.substring_char(i, j).to_owned()
}

/// Whether `s` holds nothing but whitespace, that is, whether `s.trim()`
/// is empty.
pub fn is_blank(s: &str) -> (b: bool)
    ensures
        b == blank(s@),
        b <==> forall|k: int| 0 <= k < s@.len() ==> is_white_space(#[trigger] s@[k]),
{
    proof {
        lemma_blank_iff_all_whitespace(s@);
    }
    let v = chars_of(s);
    let (i, j) = trim_bounds(&v);
    i == j
}

/// `s` without its trailing `'/'` characters, as
/// `str::trim_end_matches('/')` gives it.
pub fn trim_end_slashes(s: &str) -> (r: String)
    ensures
        r@ == trim_end_char(s@, '/'),
{
    let v = chars_of(s);
    let n = v.len();
    let mut j: usize = n;
    assert(v@.subrange(0, n as int) =~= v@);
    while j > 0 && v[j - 1] == '/'
        invariant
            n == v@.len(),
            j <= n,
            trim_end_char(v@, '/') == trim_end_char(v@.subrange(0, j as int), '/'),
        decreases j,
    {
        assert(v@.subrange(0, j as int).drop_last() =~= v@.subrange(0, j - 1));
        j = j - 1;
    }
    s.substring_char(0, j).to_owned()
}

} // verus!

verus! {

/// The ASCII lower-case form of `c`: `'A'..='Z'` become `'a'..='z'`, every
/// other character stays as it is.
pub open spec fn ascii_lower(c: char) -> char {
    if 65 <= (c as u32) <= 90 {
        ((c as u32) + 32) as char
    } else {
        c
    }
}

/// `s` with each character lower-cased the ASCII way.
pub open spec fn ascii_lowercase(s: Seq<char>) -> Seq<char> {
    s.map_values(|c: char| ascii_lower(c))
}

/// The lower-case ASCII letters, in order.
proof fn lemma_lower_letters()
    ensures
        "abcdefghijklmnopqrstuvwxyz"@.len() == 26,
        forall|k: int|
            0 <= k < 26 ==> #[trigger] "abcdefghijklmnopqrstuvwxyz"@[k] == (97 + k) as char,
{
    reveal_strlit("abcdefghijklmnopqrstuvwxyz");
}

/// `s` lower-cased the ASCII way, as `str::to_ascii_lowercase` gives it.
pub fn to_ascii_lowercase(s: &str) -> (r: String)
    ensures
        r@ == ascii_lowercase(s@),
{
    let letters = "abcdefghijklmnopqrstuvwxyz";
    proof {
        lemma_lower_letters();
    }
    let v = chars_of(s);
    let n = v.len();
    let mut out = String::new();
    for i in 0..n
        invariant
            n == v@.len(),
            v@ == s@,
            letters@.len() == 26,
            forall|k: int| 0 <= k < 26 ==> #[trigger] letters@[k] == (97 + k) as char,
            out@ == ascii_lowercase(s@.subrange(0, i as int)),
    {
        let c = v[i];
        let u = c as u32;
        let ghost before = out@;
        if 65 <= u && u <= 90 {
            let k = (u - 65) as usize;
            out.append(letters.substring_char(k, k + 1));
            assert(letters@[k as int] == ascii_lower(c));
            assert(letters@.subrange(k as int, k + 1) =~= seq![ascii_lower(c)]);
        } else {
            out.append(s.substring_char(i, i + 1));
            assert(s@.subrange(i as int, i + 1) =~= seq![ascii_lower(c)]);
        }
        assert(ascii_lowercase(s@.subrange(0, i + 1)) =~= ascii_lowercase(s@.subrange(0, i as int)).push(
            ascii_lower(c),
        ));
    }
    assert(s@.subrange(0, n as int) =~= s@);
    out
}

} // verus!

verus! {

/// Trimming at the start leaves a text that is empty or starts with a
/// character that is not whitespace, and only drops characters from the
/// front.
proof fn lemma_trim_start_shape(s: Seq<char>)
    ensures
        trim_start_ws(s).len() > 0 ==> !is_white_space(trim_start_ws(s)[0]),
        trim_start_ws(s).len() <= s.len(),
        trim_start_ws(s) == s.subrange(s.len() - trim_start_ws(s).len(), s.len() as int),
        forall|k: int|
            0 <= k < s.len() - trim_start_ws(s).len() ==> is_white_space(#[trigger] s[k]),
    decreases s.len(),
{
    if s.len() > 0 && is_white_space(s[0]) {
        lemma_trim_start_shape(s.drop_first());
        let t = trim_start_ws(s.drop_first());
        assert forall|k: int| 0 <= k < s.len() - t.len() implies is_white_space(#[trigger] s[k]) by {
            if k > 0 {
                assert(s[k] == s.drop_first()[k - 1]);
            }
        }
        assert(s.drop_first().subrange(s.len() - 1 - t.len(), s.len() - 1) =~= s.subrange(
            s.len() - t.len(),
            s.len() as int,
        ));
    } else {
        assert(s.subrange(0, s.len() as int) =~= s);
    }
}

/// Trimming at the end leaves a text that is empty or ends with a character
/// that is not whitespace, and only drops characters from the back.
proof fn lemma_trim_end_shape(s: Seq<char>)
    ensures
        trim_end_ws(s).len() > 0 ==> !is_white_space(trim_end_ws(s).last()),
        trim_end_ws(s).len() <= s.len(),
        trim_end_ws(s) == s.subrange(0, trim_end_ws(s).len() as int),
        forall|k: int| trim_end_ws(s).len() <= k < s.len() ==> is_white_space(#[trigger] s[k]),
    decreases s.len(),
{
    if s.len() > 0 && is_white_space(s.last()) {
        lemma_trim_end_shape(s.drop_last());
        let t = trim_end_ws(s.drop_last());
        assert forall|k: int| t.len() <= k < s.len() implies is_white_space(#[trigger] s[k]) by {
            if k < s.len() - 1 {
                assert(s[k] == s.drop_last()[k]);
            }
        }
        assert(s.drop_last().subrange(0, t.len() as int) =~= s.subrange(0, t.len() as int));
    } else {
        assert(s.subrange(0, s.len() as int) =~= s);
    }
}

/// Law: a trimmed text neither starts nor ends with whitespace, is a
/// contiguous piece of the original, and trimming it again changes nothing.
pub proof fn lemma_trim_ws_properties(s: Seq<char>)
    ensures
        trim_ws(s).len() > 0 ==> !is_white_space(trim_ws(s)[0]) && !is_white_space(
            trim_ws(s).last(),
        ),
        exists|i: int, j: int| 0 <= i <= j <= s.len() && trim_ws(s) == s.subrange(i, j),
        trim_ws(trim_ws(s)) == trim_ws(s),
{
    let a = trim_start_ws(s);
    lemma_trim_start_shape(s);
    lemma_trim_end_shape(a);
    let t = trim_end_ws(a);
    let i = s.len() - a.len();
    assert(t == s.subrange(i, i + t.len())) by {
        assert(a.subrange(0, t.len() as int) =~= s.subrange(i, i + t.len()));
    }
    if t.len() > 0 {
        assert(t[0] == a[0]);
        // t starts with a non-whitespace character, so trimming its start and
        // its end both leave it as it is.
        assert(trim_start_ws(t) == t);
        assert(trim_end_ws(t) == t);
    } else {
        assert(trim_start_ws(t) == t);
        assert(trim_end_ws(t) == t);
    }
}

/// Law: among ASCII characters exactly the space and the control characters
/// tab, line feed, vertical tab, form feed and carriage return are
/// whitespace; no ASCII letter, digit or punctuation is, and no
/// non-whitespace character becomes whitespace by lower-casing.
pub proof fn lemma_ascii_whitespace(c: char)
    ensures
        (c as u32) < 128 ==> (is_white_space(c) <==> (c == ' ' || c == '\t' || c == '\n' || c
            == '\r' || (c as u32) == 0x0b || (c as u32) == 0x0c)),
        is_white_space(ascii_lower(c)) == is_white_space(c),
{
}

/// Law: trimming drops exactly the leading and the trailing whitespace. The
/// trimmed text is the piece `s[i..j]` of `s` such that every character
/// before `i` and every character from `j` on is whitespace, and the piece,
/// when not empty, starts and ends with a character that is not.
pub proof fn lemma_trim_ws_exact(s: Seq<char>)
    ensures
        exists|i: int, j: int|
            {
                &&& 0 <= i <= j <= s.len()
                &&& trim_ws(s) == s.subrange(i, j)
                &&& forall|k: int| 0 <= k < i ==> is_white_space(#[trigger] s[k])
                &&& forall|k: int| j <= k < s.len() ==> is_white_space(#[trigger] s[k])
                &&& i < j ==> !is_white_space(s[i]) && !is_white_space(s[j - 1])
            },
{
    let a = trim_start_ws(s);
    lemma_trim_start_shape(s);
    lemma_trim_end_shape(a);
    let t = trim_end_ws(a);
    let i = s.len() - a.len();
    let j = i + t.len();
    assert(t == s.subrange(i, j)) by {
        assert(a.subrange(0, t.len() as int) =~= s.subrange(i, j));
    }
    assert forall|k: int| j <= k < s.len() implies is_white_space(#[trigger] s[k]) by {
        assert(s[k] == a[k - i]);
    }
    if i < j {
        assert(t[0] == a[0]);
        assert(s[i] == t[0]);
        assert(s[j - 1] == t.last());
    }
    assert(trim_ws(s) == t);
}

/// Law: a text is blank exactly when every one of its characters is
/// whitespace.
pub proof fn lemma_blank_iff_all_whitespace(s: Seq<char>)
    ensures
        blank(s) <==> forall|k: int| 0 <= k < s.len() ==> is_white_space(#[trigger] s[k]),
{
    let a = trim_start_ws(s);
    lemma_trim_start_shape(s);
    lemma_trim_end_shape(a);
    let i = s.len() - a.len();
    if blank(s) {
        assert forall|k: int| 0 <= k < s.len() implies is_white_space(#[trigger] s[k]) by {
            if k >= i {
                assert(s[k] == a[k - i]);
            }
        }
    }
    if forall|k: int| 0 <= k < s.len() ==> is_white_space(#[trigger] s[k]) {
        if a.len() > 0 {
            assert(a[0] == s[i]);
        }
        assert(a.len() == 0);
        assert(trim_end_ws(a) == a);
    }
}

/// Law: stripping trailing slashes drops exactly the slashes at the end: the
/// result is a prefix of `s` that does not end with `'/'`, and every
/// character after it is `'/'`.
pub proof fn lemma_trim_end_char_exact(s: Seq<char>, c: char)
    ensures
        trim_end_char(s, c).len() <= s.len(),
        trim_end_char(s, c) == s.subrange(0, trim_end_char(s, c).len() as int),
        trim_end_char(s, c).len() > 0 ==> trim_end_char(s, c).last() != c,
        forall|k: int| trim_end_char(s, c).len() <= k < s.len() ==> #[trigger] s[k] == c,
    decreases s.len(),
{
    if s.len() > 0 && s.last() == c {
        lemma_trim_end_char_exact(s.drop_last(), c);
        let t = trim_end_char(s.drop_last(), c);
        assert(s.drop_last().subrange(0, t.len() as int) =~= s.subrange(0, t.len() as int));
        assert forall|k: int| t.len() <= k < s.len() implies #[trigger] s[k] == c by {
            if k < s.len() - 1 {
                assert(s[k] == s.drop_last()[k]);
            }
        }
    } else {
        assert(s.subrange(0, s.len() as int) =~= s);
    }
}

/// Law: ASCII lower-casing keeps the length, changes exactly the letters
/// `'A'..='Z'` (each into the letter 32 code points on), and leaves no
/// upper-case ASCII letter behind.
pub proof fn lemma_ascii_lowercase_exact(s: Seq<char>)
    ensures
        ascii_lowercase(s).len() == s.len(),
        forall|k: int|
            0 <= k < s.len() ==> {
                let c = #[trigger] s[k];
                let d = ascii_lowercase(s)[k];
                &&& !(65 <= (d as u32) <= 90)
                &&& (65 <= (c as u32) <= 90) ==> d as u32 == c as u32 + 32
                &&& !(65 <= (c as u32) <= 90) ==> d == c
            },
{
}

/// Law: lower-casing the ASCII way twice is the same as doing it once, so a
/// mode argument and its lower-cased form name the same mode.
pub proof fn lemma_ascii_lowercase_idempotent(s: Seq<char>)
    ensures
        ascii_lowercase(ascii_lowercase(s)) == ascii_lowercase(s),
{
    assert(ascii_lowercase(ascii_lowercase(s)) =~= ascii_lowercase(s));
}

} // verus!
