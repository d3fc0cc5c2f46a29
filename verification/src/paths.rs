use vstd::prelude::*;
use vstd::string::*;

use crate::text::chars_of;

verus! {

broadcast use vstd::string::group_string_axioms;

// Paths are modelled as strings, with `/` as the only separator (Unix).

/// The path starts at the root directory.
pub open spec fn has_root(p: Seq<char>) -> bool {
    p.len() > 0 && p[0] == '/'
}

/// The path is relative and starts with a `.` component.
pub open spec fn has_cur_dir(p: Seq<char>) -> bool {
    !has_root(p) && p.len() > 0 && p[0] == '.' && (p.len() == 1 || p[1] == '/')
}

/// Where the body of the path starts: after a leading root or `.` component.
pub open spec fn body_start(p: Seq<char>) -> int {
    if has_root(p) || has_cur_dir(p) {
        1
    } else {
        0
    }
}

/// A piece between separators that names no component: empty, or `.`.
pub open spec fn is_skipped(seg: Seq<char>) -> bool {
    seg.len() == 0 || seg == seq!['.']
}

/// The piece `..`.
pub open spec fn is_parent_dir(seg: Seq<char>) -> bool {
    seg == seq!['.', '.']
}

/// Scanning `p[b..end]` backwards, inside a piece that ends at `seg_end`: the bounds of the
/// last piece that names a component, if there is one.
pub open spec fn last_comp_from(p: Seq<char>, b: int, end: int, seg_end: int) -> Option<
    (int, int),
>
    decreases end - b,
{
    if end <= b {
        if is_skipped(p.subrange(b, seg_end)) {
            None
        } else {
            Some((b, seg_end))
        }
    } else if p[end - 1] == '/' {
        if is_skipped(p.subrange(end, seg_end)) {
            last_comp_from(p, b, end - 1, end - 1)
        } else {
            Some((end, seg_end))
        }
    } else {
        last_comp_from(p, b, end - 1, seg_end)
    }
}

/// The bounds of the last component of the body of `p[..end]`.
pub open spec fn last_comp(p: Seq<char>, end: int) -> Option<(int, int)> {
    last_comp_from(p, body_start(p), end, end)
}

/// `p[..end]` with trailing separators and `.` pieces of the body removed.
pub open spec fn trimmed_end(p: Seq<char>, end: int) -> int {
    match last_comp(p, end) {
        Some(c) => c.1,
        None => body_start(p),
    }
}

/// The last component of a path, unless it is `..` or the path has none
/// (`Path::file_name`).
pub open spec fn file_name_spec(p: Seq<char>) -> Option<Seq<char>> {
    match last_comp(p, p.len() as int) {
        Some(c) => if is_parent_dir(p.subrange(c.0, c.1)) {
            None
        } else {
            Some(p.subrange(c.0, c.1))
        },
        None => None,
    }
}

/// The path without its last component (`Path::parent`): `None` for the root and for the
/// empty path.
pub open spec fn parent_spec(p: Seq<char>) -> Option<Seq<char>> {
    match last_comp(p, p.len() as int) {
        Some(c) => {
            let rest = if c.0 > body_start(p) {
                c.0 - 1
            } else {
                body_start(p)
            };
            Some(p.subrange(0, trimmed_end(p, rest)))
        },
        None => if has_cur_dir(p) {
            Some(Seq::<char>::empty())
        } else {
            None
        },
    }
}

/// `rel` appended to `base` (`PathBuf::join`): an absolute `rel` replaces `base`, and a
/// separator is put between them where `base` does not end with one.
pub open spec fn join_spec(base: Seq<char>, rel: Seq<char>) -> Seq<char> {
    if has_root(rel) {
        rel
    } else if base.len() > 0 && base.last() != '/' {
        base + seq!['/'] + rel
    } else {
        base + rel
    }
}

proof fn lemma_last_comp_bounds(p: Seq<char>, b: int, end: int, seg_end: int)
    requires
        0 <= b <= end <= seg_end <= p.len(),
    ensures
        last_comp_from(p, b, end, seg_end) matches Some(c) ==> b <= c.0 <= c.1 <= seg_end && (
        c.0 > b ==> p[c.0 - 1] == '/'),
    decreases end - b,
{
    if end <= b {
    } else if p[end - 1] == '/' {
        if is_skipped(p.subrange(end, seg_end)) {
            lemma_last_comp_bounds(p, b, end - 1, end - 1);
        }
    } else {
        lemma_last_comp_bounds(p, b, end - 1, seg_end);
    }
}

/// A single directory entry name: not empty, no separator, neither `.` nor `..`.
pub open spec fn is_plain_name(n: Seq<char>) -> bool {
    &&& n.len() > 0
    &&& forall|i: int| 0 <= i < n.len() ==> n[i] != '/'
    &&& n != seq!['.']
    &&& n != seq!['.', '.']
}

/// A path that does not end with a separator or a `.` piece (the root `/` itself counts as such).
pub open spec fn has_clean_end(p: Seq<char>) -> bool {
    trimmed_end(p, p.len() as int) == p.len()
}

proof fn lemma_scan_plain(p: Seq<char>, b: int, end: int, seg_end: int)
    requires
        0 <= b <= end <= seg_end <= p.len(),
        forall|k: int| b <= k < end ==> p[k] != '/',
    ensures
        last_comp_from(p, b, end, seg_end) == (if is_skipped(p.subrange(b, seg_end)) {
            None
        } else {
            Some((b, seg_end))
        }),
    decreases end - b,
{
    if end > b {
        lemma_scan_plain(p, b, end - 1, seg_end);
    }
}

proof fn lemma_scan_to_sep(p: Seq<char>, b: int, i: int, end: int, seg_end: int)
    requires
        0 <= b <= i < end <= seg_end <= p.len(),
        p[i] == '/',
        forall|k: int| i < k < end ==> p[k] != '/',
    ensures
        last_comp_from(p, b, end, seg_end) == last_comp_from(p, b, i + 1, seg_end),
    decreases end - i,
{
    if end > i + 1 {
        lemma_scan_to_sep(p, b, i, end - 1, seg_end);
    }
}

proof fn lemma_prefix_agree(p1: Seq<char>, p2: Seq<char>, b: int, end: int, seg_end: int)
    requires
        0 <= b <= end <= seg_end <= p1.len(),
        seg_end <= p2.len(),
        forall|k: int| 0 <= k < seg_end ==> p1[k] == p2[k],
    ensures
        last_comp_from(p1, b, end, seg_end) == last_comp_from(p2, b, end, seg_end),
    decreases end - b,
{
    assert(p1.subrange(b, seg_end) =~= p2.subrange(b, seg_end));
    if end > b {
        assert(p1.subrange(end, seg_end) =~= p2.subrange(end, seg_end));
        lemma_prefix_agree(p1, p2, b, end - 1, end - 1);
        lemma_prefix_agree(p1, p2, b, end - 1, seg_end);
    }
}

/// The last component of `base` joined with a plain name is that name, and the joined path
/// starts its body where `base` does.
proof fn lemma_last_comp_of_join(base: Seq<char>, name: Seq<char>)
    requires
        is_plain_name(name),
    ensures
        ({
            let p = join_spec(base, name);
            let s = p.len() - name.len();
            &&& p.subrange(s, p.len() as int) == name
            &&& last_comp(p, p.len() as int) == Some((s, p.len() as int))
            &&& base.len() > 0 ==> body_start(p) == body_start(base)
            &&& base.len() > 0 ==> p[s - 1] == '/'
            &&& base.len() > 0 && base.last() != '/' ==> s - 1 == base.len() && p.subrange(
                0,
                base.len() as int,
            ) == base
        }),
{
    let p = join_spec(base, name);
    let l = p.len() as int;
    let s = l - name.len();
    assert(!has_root(name));
    assert(seq!['.'].len() == 1);
    assert(seq!['.', '.'].len() == 2);
    if base.len() == 0 {
        assert(p =~= name);
        assert(!has_cur_dir(name)) by {
            if name.len() == 1 && name[0] == '.' {
                assert(name =~= seq!['.']);
            }
        }
        lemma_scan_plain(p, 0, l, l);
        assert(p.subrange(0, l) =~= name);
    } else {
        if base.last() != '/' {
            assert(p =~= base + seq!['/'] + name);
            assert(p[base.len() as int] == '/');
            assert(p.subrange(0, base.len() as int) =~= base);
        } else {
            assert(p =~= base + name);
        }
        assert(p.subrange(s, l) =~= name);
        assert(p[s - 1] == '/');
        assert(p[0] == base[0]);
        if base.len() >= 2 {
            assert(p[1] == base[1]);
        }
        assert(body_start(p) == body_start(base));
        assert forall|k: int| s <= k < l implies p[k] != '/' by {
            assert(p[k] == name[k - s]);
        }
        if s - 1 >= body_start(p) {
            lemma_scan_to_sep(p, body_start(p), s - 1, l, l);
        } else {
            lemma_scan_plain(p, body_start(p), l, l);
        }
    }
}

/// Law: joining a plain name onto any path gives a path whose file name is that name.
pub proof fn law_file_name_of_join(base: Seq<char>, name: Seq<char>)
    requires
        is_plain_name(name),
    ensures
        file_name_spec(join_spec(base, name)) == Some(name),
{
    lemma_last_comp_of_join(base, name);
}

/// Law: the parent of a path joined with a plain name is the path itself, where the path does
/// not end with a separator or a `.` piece.
pub proof fn law_parent_of_join(base: Seq<char>, name: Seq<char>)
    requires
        is_plain_name(name),
        has_clean_end(base),
    ensures
        parent_spec(join_spec(base, name)) == Some(base),
{
    lemma_last_comp_of_join(base, name);
    let p = join_spec(base, name);
    let l = p.len() as int;
    let s = l - name.len();
    let bs = body_start(p);
    if base.len() == 0 {
        assert(s == 0);
        assert(p.subrange(0, 0) =~= base);
    } else if base.last() != '/' {
        lemma_prefix_agree(p, base, bs, base.len() as int, base.len() as int);
        assert(p.subrange(0, base.len() as int) == base);
    } else {
        // Only the root ends with a separator and has a clean end.
        let lb = base.len() as int;
        if lb >= 2 {
            assert(base[lb - 1] == '/');
            lemma_last_comp_bounds(base, body_start(base), lb, lb);
            assert(base.subrange(lb, lb).len() == 0);
            assert(is_skipped(base.subrange(lb, lb)));
            assert(last_comp(base, lb) == last_comp_from(base, body_start(base), lb - 1, lb - 1));
            lemma_last_comp_bounds(base, body_start(base), lb - 1, lb - 1);
            assert(false);
        }
        assert(lb == 1 && base[0] == '/');
        assert(bs == 1);
        assert(s == 1);
        assert(p[0] == '/');
        assert(p.subrange(1, 1).len() == 0);
        assert(p.subrange(0, 1) =~= base);
    }
}

fn is_skipped_at(cs: &Vec<char>, s: usize, e: usize) -> (r: bool)
    requires
        s <= e <= cs@.len(),
    ensures
        r == is_skipped(cs@.subrange(s as int, e as int)),
{
    if s == e {
        true
    } else if e - s == 1 && cs[s] == '.' {
        assert(cs@.subrange(s as int, e as int) =~= seq!['.']);
        true
    } else {
        if e - s == 1 {
            assert(cs@.subrange(s as int, e as int)[0] == cs@[s as int]);
        }
        false
    }
}

fn is_parent_dir_at(cs: &Vec<char>, s: usize, e: usize) -> (r: bool)
    requires
        s <= e <= cs@.len(),
    ensures
        r == is_parent_dir(cs@.subrange(s as int, e as int)),
{
    let ghost seg = cs@.subrange(s as int, e as int);
    let ghost dd = seq!['.', '.'];
    assert(dd.len() == 2 && dd[0] == '.' && dd[1] == '.');
    if e - s == 2 && cs[s] == '.' && cs[s + 1] == '.' {
        assert(seg =~= dd);
        true
    } else {
        assert(seg.len() == e - s);
        if e - s == 2 {
            assert(seg[0] == cs@[s as int]);
            assert(seg[1] == cs@[s + 1]);
        }
        assert(seg != dd);
        false
    }
}

fn body_start_of(cs: &Vec<char>) -> (b: usize)
    ensures
        b == body_start(cs@),
        b <= cs@.len(),
{
    let n = cs.len();
    if n > 0 && cs[0] == '/' {
        1
    } else if n > 0 && cs[0] == '.' && (n == 1 || cs[1] == '/') {
        1
    } else {
        0
    }
}

/// The bounds of the last component of the body of `cs[..end]`.
fn last_comp_bounds(cs: &Vec<char>, b: usize, end: usize) -> (r: Option<(usize, usize)>)
    requires
        b == body_start(cs@),
        b <= end <= cs@.len(),
    ensures
        match r {
            Some(c) => last_comp(cs@, end as int) == Some((c.0 as int, c.1 as int)),
            None => last_comp(cs@, end as int) is None,
        },
{
    let mut pos: usize = end;
    let mut seg_end: usize = end;
    while pos > b && cs[pos - 1] != '/'
        invariant
            b <= pos <= seg_end <= cs@.len(),
            last_comp_from(cs@, b as int, pos as int, seg_end as int) == last_comp(
                cs@,
                end as int,
            ),
            b == body_start(cs@),
        decreases pos,
    {
        pos = pos - 1;
    }
    loop
        invariant
            b <= pos <= seg_end <= cs@.len(),
            pos == b || cs@[pos - 1] == '/',
            last_comp_from(cs@, b as int, pos as int, seg_end as int) == last_comp(
                cs@,
                end as int,
            ),
            b == body_start(cs@),
        decreases pos,
    {
        if pos <= b {
            if is_skipped_at(cs, b, seg_end) {
                return None;
            } else {
                return Some((b, seg_end));
            }
        }
        if !is_skipped_at(cs, pos, seg_end) {
            return Some((pos, seg_end));
        }
        pos = pos - 1;
        seg_end = pos;
        while pos > b && cs[pos - 1] != '/'
            invariant
                b <= pos <= seg_end <= cs@.len(),
                last_comp_from(cs@, b as int, pos as int, seg_end as int) == last_comp(
                    cs@,
                    end as int,
                ),
                b == body_start(cs@),
            decreases pos,
        {
            pos = pos - 1;
        }
    }
}

fn string_of_range(p: &str, from: usize, to: usize) -> (r: String)
    requires
        from <= to <= p@.len(),
    ensures
        r@ == p@.subrange(from as int, to as int),
{
    p.substring_char(from, to).to_owned()
}

/// The last component of a path, as `Path::file_name` gives it.
pub fn file_name(p: &str) -> (r: Option<String>)
    ensures
        r matches Some(n) ==> file_name_spec(p@) == Some(n@),
        r is None ==> file_name_spec(p@) is None,
{
    let cs = chars_of(p);
    let b = body_start_of(&cs);
    match last_comp_bounds(&cs, b, cs.len()) {
        Some((s, e)) => {
            proof {
                lemma_last_comp_bounds(cs@, b as int, cs@.len() as int, cs@.len() as int);
            }
            if is_parent_dir_at(&cs, s, e) {
                None
            } else {
                Some(string_of_range(p, s, e))
            }
        },
        None => None,
    }
}

/// The path without its last component, as `Path::parent` gives it.
pub fn parent(p: &str) -> (r: Option<String>)
    ensures
        r matches Some(q) ==> parent_spec(p@) == Some(q@),
        r is None ==> parent_spec(p@) is None,
{
    let cs = chars_of(p);
    let b = body_start_of(&cs);
    match last_comp_bounds(&cs, b, cs.len()) {
        Some((s, _e)) => {
            proof {
                lemma_last_comp_bounds(cs@, b as int, cs@.len() as int, cs@.len() as int);
            }
            let rest = if s > b {
                s - 1
            } else {
                b
            };
            let end = match last_comp_bounds(&cs, b, rest) {
                Some((_s2, e2)) => {
                    proof {
                        lemma_last_comp_bounds(cs@, b as int, rest as int, rest as int);
                    }
                    e2
                },
                None => b,
            };
            Some(string_of_range(p, 0, end))
        },
        None => {
            if b == 1 && cs[0] == '.' {
                Some(string_of_range(p, 0, 0))
            } else {
                None
            }
        },
    }
}

/// `rel` appended to `base`, as `PathBuf::join` does it.
pub fn join(base: &str, rel: &str) -> (r: String)
    ensures
        r@ == join_spec(base@, rel@),
{
    let bc = chars_of(base);
    let rc = chars_of(rel);
    if rc.len() > 0 && rc[0] == '/' {
        return rel.to_owned();
    }
    let mut r = base.to_owned();
    if bc.len() > 0 && bc[bc.len() - 1] != '/' {
        proof {
            reveal_strlit("/");
        }
        r.append("/");
        assert(r@ =~= base@ + seq!['/']);
    }
    r.append(rel);
    r
}

} // verus!
