use vstd::prelude::*;
use vstd::string::*;
use vstd::utf8::*;

verus! {

broadcast use vstd::string::group_string_axioms;

/// The Unicode `White_Space` property: the characters that `char::is_whitespace` accepts.
pub open spec fn is_white_space(c: char) -> bool {
    let u = c as u32;
    ||| 0x09 <= u <= 0x0d
    ||| u == 0x20
    ||| u == 0x85
    ||| u == 0xa0
    ||| u == 0x1680
    ||| 0x2000 <= u <= 0x200a
    ||| u == 0x2028
    ||| u == 0x2029
    ||| u == 0x202f
    ||| u == 0x205f
    ||| u == 0x3000
}

/// `s` with its leading whitespace removed.
pub open spec fn trim_start_seq(s: Seq<char>) -> Seq<char>
    decreases s.len(),
{
    if s.len() > 0 && is_white_space(s[0]) {
        trim_start_seq(s.drop_first())
    } else {
        s
    }
}

/// `s` with its trailing whitespace removed.
pub open spec fn trim_end_seq(s: Seq<char>) -> Seq<char>
    decreases s.len(),
{
    if s.len() > 0 && is_white_space(s.last()) {
        trim_end_seq(s.drop_last())
    } else {
        s
    }
}

/// `s` with leading and trailing whitespace removed, as `str::trim` does.
pub open spec fn trim_seq(s: Seq<char>) -> Seq<char> {
    trim_end_seq(trim_start_seq(s))
}

/// `needle` occurs in `hay` at some position.
pub open spec fn contains_seq(hay: Seq<char>, needle: Seq<char>) -> bool {
    exists|i: int|
        0 <= i && i + needle.len() <= hay.len() && #[trigger] hay.subrange(i, i + needle.len())
            == needle
}

/// The Unicode lowercase mapping of a whole string, as `str::to_lowercase` computes it.
pub uninterp spec fn lowercase(s: Seq<char>) -> Seq<char>;

/// What `String::from_utf8_lossy` makes of a byte sequence.
pub uninterp spec fn utf8_lossy(bytes: Seq<u8>) -> Seq<char>;

/// Whether a character has the Unicode `White_Space` property.
pub fn is_whitespace(c: char) -> (b: bool)
    ensures
        b == is_white_space(c),
{
    let u = c as u32;
    (0x09 <= u && u <= 0x0d) || u == 0x20 || u == 0x85 || u == 0xa0 || u == 0x1680 || (0x2000
        <= u && u <= 0x200a) || u == 0x2028 || u == 0x2029 || u == 0x202f || u == 0x205f || u
        == 0x3000
}

/// The characters of a string slice, in order.
pub fn chars_of(s: &str) -> (cs: Vec<char>)
    ensures
        cs@ == s@,
{
    let mut cs: Vec<char> = Vec::new();
    for c in it: s.chars()
        invariant
            it.seq() == s@,
            cs@ == it.seq().take(it.index() as int),
    {
        cs.push(c);
    }
    cs
}

/// Removing `i` leading whitespace characters, followed by a non-whitespace one or the end,
/// is what `trim_start_seq` does.
proof fn lemma_trim_start_at(s: Seq<char>, i: int)
    requires
        0 <= i <= s.len(),
        forall|k: int| 0 <= k < i ==> is_white_space(#[trigger] s[k]),
        i == s.len() || !is_white_space(s[i]),
    ensures
        trim_start_seq(s) == s.subrange(i, s.len() as int),
    decreases i,
{
    if i == 0 {
        assert(s.subrange(0, s.len() as int) =~= s);
    } else {
        let t = s.drop_first();
        assert forall|k: int| 0 <= k < i - 1 implies is_white_space(#[trigger] t[k]) by {
            assert(t[k] == s[k + 1]);
        }
        if i - 1 < t.len() {
            assert(t[i - 1] == s[i]);
        }
        lemma_trim_start_at(t, i - 1);
        assert(t.subrange(i - 1, t.len() as int) =~= s.subrange(i, s.len() as int));
    }
}

/// Removing the characters from `j` on, all whitespace and preceded by a non-whitespace one
/// or the start, is what `trim_end_seq` does.
proof fn lemma_trim_end_at(s: Seq<char>, j: int)
    requires
        0 <= j <= s.len(),
        forall|k: int| j <= k < s.len() ==> is_white_space(#[trigger] s[k]),
        j == 0 || !is_white_space(s[j - 1]),
    ensures
        trim_end_seq(s) == s.subrange(0, j),
    decreases s.len() - j,
{
    if j == s.len() {
        assert(s.subrange(0, j) =~= s);
    } else {
        let t = s.drop_last();
        assert(is_white_space(s[s.len() - 1]));
        assert forall|k: int| j <= k < t.len() implies is_white_space(#[trigger] t[k]) by {
            assert(t[k] == s[k]);
        }
        if j > 0 {
            assert(t[j - 1] == s[j - 1]);
        }
        lemma_trim_end_at(t, j);
        assert(t.subrange(0, j) =~= s.subrange(0, j));
    }
}

/// `trim_seq` keeps exactly the characters between the first and the last
/// non-whitespace ones.
proof fn lemma_trim_between(s: Seq<char>, i: int, j: int)
    requires
        0 <= i <= j <= s.len(),
        forall|k: int| 0 <= k < i ==> is_white_space(#[trigger] s[k]),
        forall|k: int| j <= k < s.len() ==> is_white_space(#[trigger] s[k]),
        i == j || (!is_white_space(s[i]) && !is_white_space(s[j - 1])),
        i == j ==> j == s.len() || !is_white_space(s[j]),
    ensures
        trim_seq(s) == s.subrange(i, j),
{
    if i == j {
        if i < s.len() {
            assert(false);
        }
        lemma_trim_start_at(s, i);
        let t = s.subrange(i, s.len() as int);
        assert(t.len() == 0);
        assert(trim_end_seq(t) == t);
        assert(t =~= s.subrange(i, j));
    } else {
        lemma_trim_start_at(s, i);
        let t = s.subrange(i, s.len() as int);
        assert forall|k: int| j - i <= k < t.len() implies is_white_space(#[trigger] t[k]) by {
            assert(t[k] == s[k + i]);
        }
        assert(t[j - i - 1] == s[j - 1]);
        lemma_trim_end_at(t, j - i);
        assert(t.subrange(0, j - i) =~= s.subrange(i, j));
    }
}

proof fn lemma_trim_start_edge(s: Seq<char>)
    ensures
        trim_start_seq(s).len() == 0 || !is_white_space(trim_start_seq(s)[0]),
    decreases s.len(),
{
    if s.len() > 0 && is_white_space(s[0]) {
        lemma_trim_start_edge(s.drop_first());
    }
}

proof fn lemma_trim_end_edge(s: Seq<char>)
    ensures
        trim_end_seq(s).len() <= s.len(),
        trim_end_seq(s) == s.subrange(0, trim_end_seq(s).len() as int),
        trim_end_seq(s).len() == 0 || !is_white_space(trim_end_seq(s).last()),
        s.len() > 0 && !is_white_space(s[0]) ==> trim_end_seq(s).len() > 0,
    decreases s.len(),
{
    if s.len() > 0 && is_white_space(s.last()) {
        let t = s.drop_last();
        lemma_trim_end_edge(t);
        assert(trim_end_seq(s) == trim_end_seq(t));
        assert(t.subrange(0, trim_end_seq(t).len() as int) =~= s.subrange(
            0,
            trim_end_seq(t).len() as int,
        ));
        if s.len() > 0 && !is_white_space(s[0]) {
            if t.len() == 0 {
                assert(s.last() == s[0]);
            } else {
                assert(t[0] == s[0]);
            }
        }
    } else {
        assert(s.subrange(0, s.len() as int) =~= s);
    }
}

proof fn lemma_trim_start_keeps_nonblank(s: Seq<char>, k: int)
    requires
        0 <= k < s.len(),
        !is_white_space(s[k]),
    ensures
        trim_start_seq(s).len() > 0,
    decreases k,
{
    if is_white_space(s[0]) {
        assert(k > 0);
        assert(s.drop_first()[k - 1] == s[k]);
        lemma_trim_start_keeps_nonblank(s.drop_first(), k - 1);
    }
}

proof fn lemma_trim_start_of_blank(s: Seq<char>)
    requires
        forall|i: int| 0 <= i < s.len() ==> is_white_space(#[trigger] s[i]),
    ensures
        trim_start_seq(s).len() == 0,
    decreases s.len(),
{
    if s.len() > 0 {
        assert(is_white_space(s[0]));
        let t = s.drop_first();
        assert forall|i: int| 0 <= i < t.len() implies is_white_space(#[trigger] t[i]) by {
            assert(t[i] == s[i + 1]);
        }
        lemma_trim_start_of_blank(t);
    }
}

/// Law: trimming leaves nothing exactly when every character is whitespace.
pub proof fn law_trim_empty_iff_blank(s: Seq<char>)
    ensures
        trim_seq(s).len() == 0 <==> forall|i: int| 0 <= i < s.len() ==> is_white_space(
            #[trigger] s[i],
        ),
{
    if forall|i: int| 0 <= i < s.len() ==> is_white_space(#[trigger] s[i]) {
        lemma_trim_start_of_blank(s);
        assert(trim_seq(s) == trim_start_seq(s));
    } else {
        let k = choose|k: int| 0 <= k < s.len() && !is_white_space(#[trigger] s[k]);
        lemma_trim_start_keeps_nonblank(s, k);
        lemma_trim_start_edge(s);
        lemma_trim_end_edge(trim_start_seq(s));
    }
}

/// Law: trimmed text neither starts nor ends with whitespace.
pub proof fn law_trim_edges(s: Seq<char>)
    ensures
        trim_seq(s).len() == 0 || (!is_white_space(trim_seq(s)[0]) && !is_white_space(
            trim_seq(s).last(),
        )),
{
    let a = trim_start_seq(s);
    lemma_trim_start_edge(s);
    lemma_trim_end_edge(a);
    let t = trim_end_seq(a);
    if t.len() > 0 {
        assert(t[0] == a[0]);
    }
}

/// Law: trimming twice is trimming once.
pub proof fn law_trim_idempotent(s: Seq<char>)
    ensures
        trim_seq(trim_seq(s)) == trim_seq(s),
{
    let t = trim_seq(s);
    law_trim_edges(s);
    assert(trim_start_seq(t) == t);
    lemma_trim_end_edge(t);
    if t.len() > 0 {
        assert(trim_end_seq(t) == t);
    } else {
        assert(trim_end_seq(t) == t);
    }
}

proof fn lemma_trim_start_is_suffix(s: Seq<char>)
    ensures
        exists|k: int| 0 <= k <= s.len() && trim_start_seq(s) == s.subrange(k, s.len() as int),
    decreases s.len(),
{
    if s.len() > 0 && is_white_space(s[0]) {
        let t = s.drop_first();
        lemma_trim_start_is_suffix(t);
        let k = choose|k: int| 0 <= k <= t.len() && trim_start_seq(t) == t.subrange(k, t.len() as int);
        assert(t.subrange(k, t.len() as int) =~= s.subrange(k + 1, s.len() as int));
    } else {
        assert(s.subrange(0, s.len() as int) =~= s);
    }
}

proof fn lemma_trim_end_is_prefix(s: Seq<char>)
    ensures
        exists|k: int| 0 <= k <= s.len() && trim_end_seq(s) == s.subrange(0, k),
    decreases s.len(),
{
    if s.len() > 0 && is_white_space(s.last()) {
        let t = s.drop_last();
        lemma_trim_end_is_prefix(t);
        let k = choose|k: int| 0 <= k <= t.len() && trim_end_seq(t) == t.subrange(0, k);
        assert(t.subrange(0, k) =~= s.subrange(0, k));
    } else {
        assert(s.subrange(0, s.len() as int) =~= s);
    }
}

pub(crate) proof fn lemma_trim_is_infix(s: Seq<char>)
    ensures
        exists|k: int|
            0 <= k && k + trim_seq(s).len() <= s.len() && #[trigger] s.subrange(
                k,
                k + trim_seq(s).len(),
            ) == trim_seq(s),
{
    lemma_trim_start_is_suffix(s);
    let a = trim_start_seq(s);
    let k = choose|k: int| 0 <= k <= s.len() && a == s.subrange(k, s.len() as int);
    lemma_trim_end_is_prefix(a);
    let j = choose|j: int| 0 <= j <= a.len() && trim_end_seq(a) == a.subrange(0, j);
    assert(s.subrange(k, k + j) =~= a.subrange(0, j));
    assert(s.subrange(k, k + trim_seq(s).len()) == trim_seq(s));
}

/// `s` without leading and trailing whitespace, as `str::trim` gives it.
pub fn trim(s: &str) -> (t: String)
    ensures
        t@ == trim_seq(s@),
{
    let cs = chars_of(s);
    let n = cs.len();
    let mut i: usize = 0;
    while i < n && is_whitespace(cs[i])
        invariant
            i <= n,
            n == cs@.len(),
            forall|k: int| 0 <= k < i ==> is_white_space(#[trigger] cs@[k]),
        decreases n - i,
    {
        i = i + 1;
    }
    let mut j: usize = n;
    while j > i && is_whitespace(cs[j - 1])
        invariant
            i <= j <= n,
            n == cs@.len(),
            forall|k: int| j <= k < n ==> is_white_space(#[trigger] cs@[k]),
        decreases j,
    {
        j = j - 1;
    }
    proof {
        if i == j && j < n {
            assert(!is_white_space(cs@[i as int]));
        }
        lemma_trim_between(s@, i as int, j as int);
    }
    let slice = s.substring_char(i, j);
    slice.to_owned()
}

/// Whether `needle` occurs in `hay`.
pub fn contains_str(hay: &str, needle: &str) -> (b: bool)
    ensures
        b == contains_seq(hay@, needle@),
{
    let h = chars_of(hay);
    let nd = chars_of(needle);
    let hl = h.len();
    let nl = nd.len();
    if nl > hl {
        return false;
    }
    let mut i: usize = 0;
    while i <= hl - nl
        invariant
            h@ == hay@,
            nd@ == needle@,
            hl == h@.len(),
            nl == nd@.len(),
            nl <= hl,
            i <= hl - nl + 1,
            forall|p: int| 0 <= p < i ==> #[trigger] h@.subrange(p, p + nl as int) != nd@,
        decreases hl - i,
    {
        let mut k: usize = 0;
        let mut same = true;
        while k < nl
            invariant
                i + nl <= hl,
                hl == h@.len(),
                nl == nd@.len(),
                k <= nl,
                same == (forall|q: int| 0 <= q < k ==> h@[i + q] == nd@[q]),
            decreases nl - k,
        {
            if h[i + k] != nd[k] {
                same = false;
            }
            k = k + 1;
        }
        if same {
            assert(h@.subrange(i as int, i + nl as int) =~= nd@);
            return true;
        }
        proof {
            let q = choose|q: int| 0 <= q < nl && h@[i + q] != nd@[q];
            assert(h@.subrange(i as int, i + nl as int)[q] == h@[i + q]);
        }
        i = i + 1;
    }
    false
}

/// The Unicode lowercase form of a string (calls `str::to_lowercase`).
///
/// Trusted: the result is the string that `str::to_lowercase` returns for `s`, named
/// `lowercase(s@)`; nothing more of the Unicode mapping is stated.
#[verifier::external_body]
pub(crate) fn to_lowercase(s: &str) -> (r: String)
    ensures
        r@ == lowercase(s@),
{
    s.to_lowercase()
}

/// Decodes bytes as UTF-8, putting U+FFFD in place of invalid sequences
/// (calls `String::from_utf8_lossy`).
///
/// Trusted: the result is named `utf8_lossy(bytes@)`; where the bytes are valid UTF-8,
/// it is their decoding, unchanged, as the documentation of `from_utf8_lossy` says.
#[verifier::external_body]
pub(crate) fn from_utf8_lossy(bytes: &[u8]) -> (r: String)
    ensures
        r@ == utf8_lossy(bytes@),
        valid_utf8(bytes@) ==> r@ == decode_utf8(bytes@),
{
    String::from_utf8_lossy(bytes).into_owned()
}

} // verus!
