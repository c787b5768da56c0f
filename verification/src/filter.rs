//! The ignore filter: a pure predicate deciding which paths are excluded
//! from scanning and change detection.
//!
//! A path is ignored exactly when the text after its final `.` is, after
//! ASCII case folding, one of the fixed built-in extensions denoting
//! generated or binary artifacts. A path without a `.` is never ignored.

use vstd::prelude::*;

verus! {

/// Whether `c` is an ASCII upper-case letter.
pub open spec fn is_ascii_upper(c: char) -> bool {
    65 <= c as u32 && c as u32 <= 90
}

/// ASCII case folding of one character; every other character is unchanged.
pub open spec fn lower_char(c: char) -> char {
    if is_ascii_upper(c) {
        ((c as u32) + 32) as char
    } else {
        c
    }
}

/// ASCII case folding of a whole sequence of characters.
pub open spec fn lower(s: Seq<char>) -> Seq<char> {
    s.map_values(|c: char| lower_char(c))
}

/// The fixed built-in list of ignored extensions, all lower case.
pub open spec fn ignored_extensions() -> Seq<Seq<char>> {
    seq![
        seq!['p', 'y', 'c'],
        seq!['s', 'w', 'p'],
        seq!['s', 'w', 'o'],
        seq!['b', 'm', 'p'],
        seq!['j', 'p', 'g'],
        seq!['j', 'p', 'e', 'g'],
        seq!['p', 'n', 'g'],
        seq!['g', 'i', 'f'],
        seq!['s', 'v', 'g'],
        seq!['p', 's', 'd'],
        seq!['x', 'c', 'f'],
        seq!['p', 'x', 'm'],
    ]
}

/// Index of the last `.` in `p`, or -1 when `p` holds none.
pub open spec fn last_dot(p: Seq<char>) -> int
    decreases p.len(),
{
    if p.len() == 0 {
        -1
    } else if p[p.len() - 1] == '.' {
        p.len() - 1
    } else {
        last_dot(p.drop_last())
    }
}

/// The extension of `p`: the characters after the final `.`, if any.
pub open spec fn extension_of(p: Seq<char>) -> Option<Seq<char>> {
    if last_dot(p) >= 0 {
        Some(p.subrange(last_dot(p) + 1, p.len() as int))
    } else {
        None
    }
}

/// Whether a path is excluded: its case-folded extension is one of the
/// built-in ignored extensions.
pub open spec fn path_is_ignored(p: Seq<char>) -> bool {
    match extension_of(p) {
        Some(ext) => ignored_extensions().contains(lower(ext)),
        None => false,
    }
}

pub proof fn lemma_last_dot_bounds(p: Seq<char>)
    ensures
        -1 <= last_dot(p) < p.len(),
    decreases p.len(),
{
    if p.len() > 0 && p[p.len() - 1] != '.' {
        lemma_last_dot_bounds(p.drop_last());
    }
}

pub proof fn lemma_last_dot_found(p: Seq<char>, i: int)
    requires
        0 <= i < p.len(),
        p[i] == '.',
        forall|j: int| i < j < p.len() ==> p[j] != '.',
    ensures
        last_dot(p) == i,
    decreases p.len(),
{
    if i < p.len() - 1 {
        assert(p[p.len() - 1] != '.');
        assert(p.drop_last()[i] == '.');
        lemma_last_dot_found(p.drop_last(), i);
    }
}

pub proof fn lemma_last_dot_none(p: Seq<char>)
    requires
        forall|j: int| 0 <= j < p.len() ==> p[j] != '.',
    ensures
        last_dot(p) == -1,
    decreases p.len(),
{
    if p.len() > 0 {
        lemma_last_dot_none(p.drop_last());
    }
}

/// A path without any `.` has no extension and is never ignored.
pub proof fn lemma_no_extension_not_ignored(p: Seq<char>)
    requires
        forall|j: int| 0 <= j < p.len() ==> p[j] != '.',
    ensures
        extension_of(p) is None,
        !path_is_ignored(p),
{
    lemma_last_dot_none(p);
}

/// Every character of every built-in ignored extension is lower case.
pub proof fn lemma_ignored_extensions_lowercase()
    ensures
        forall|k: int, i: int|
            0 <= k < ignored_extensions().len() && 0 <= i < ignored_extensions()[k].len()
                ==> !is_ascii_upper(#[trigger] ignored_extensions()[k][i]),
{
    assert forall|k: int, i: int|
        0 <= k < ignored_extensions().len() && 0 <= i < ignored_extensions()[k].len()
            implies !is_ascii_upper(#[trigger] ignored_extensions()[k][i]) by {
        if k == 0 {
            assert(!is_ascii_upper(ignored_extensions()[0][i]));
        } else if k == 1 {
            assert(!is_ascii_upper(ignored_extensions()[1][i]));
        } else if k == 2 {
            assert(!is_ascii_upper(ignored_extensions()[2][i]));
        } else if k == 3 {
            assert(!is_ascii_upper(ignored_extensions()[3][i]));
        } else if k == 4 {
            assert(!is_ascii_upper(ignored_extensions()[4][i]));
        } else if k == 5 {
            assert(!is_ascii_upper(ignored_extensions()[5][i]));
        } else if k == 6 {
            assert(!is_ascii_upper(ignored_extensions()[6][i]));
        } else if k == 7 {
            assert(!is_ascii_upper(ignored_extensions()[7][i]));
        } else if k == 8 {
            assert(!is_ascii_upper(ignored_extensions()[8][i]));
        } else if k == 9 {
            assert(!is_ascii_upper(ignored_extensions()[9][i]));
        } else if k == 10 {
            assert(!is_ascii_upper(ignored_extensions()[10][i]));
        } else {
            assert(!is_ascii_upper(ignored_extensions()[11][i]));
        }
    }
}

/// Case folding a path does not change whether it is ignored.
pub proof fn lemma_ignore_case_insensitive(p: Seq<char>)
    ensures
        path_is_ignored(lower(p)) == path_is_ignored(p),
{
    lemma_lower_preserves_last_dot(p);
    lemma_last_dot_bounds(p);
    if last_dot(p) >= 0 {
        let d = last_dot(p);
        let ext = p.subrange(d + 1, p.len() as int);
        let lext = lower(p).subrange(d + 1, p.len() as int);
        assert(lext =~= lower(ext));
        assert(lower(lower(ext)) =~= lower(ext)) by {
            assert forall|i: int| 0 <= i < ext.len()
                implies lower_char(lower_char(ext[i])) == lower_char(ext[i]) by {
                lemma_lower_char_idempotent(ext[i]);
            }
        }
    }
}

proof fn lemma_lower_char_idempotent(c: char)
    ensures
        lower_char(lower_char(c)) == lower_char(c),
{
    if is_ascii_upper(c) {
        assert(!is_ascii_upper(((c as u32) + 32) as char));
    }
}

proof fn lemma_lower_preserves_last_dot(p: Seq<char>)
    ensures
        last_dot(lower(p)) == last_dot(p),
    decreases p.len(),
{
    if p.len() > 0 {
        assert(lower(p)[p.len() - 1] == lower_char(p[p.len() - 1]));
        assert(lower_char(p[p.len() - 1]) == '.' <==> p[p.len() - 1] == '.');
        if p[p.len() - 1] != '.' {
            assert(lower(p).drop_last() =~= lower(p.drop_last()));
            lemma_lower_preserves_last_dot(p.drop_last());
        }
    }
}

/// Filter for ignoring certain file types during scanning and watching.
///
/// Holds the fixed built-in set of ignored extensions; constructed once and
/// shared read-only by the scanner and the change watcher.
pub struct IgnoreFilter {
    extensions: Vec<String>,
}

impl IgnoreFilter {
    /// Well-formed: the stored extensions are exactly the built-in list.
    pub closed spec fn wf(&self) -> bool {
        self.extensions.deep_view() == ignored_extensions()
    }

    /// Create a new filter holding the built-in ignored extensions.
    pub fn new() -> (r: Self)
        ensures
            r.wf(),
    {
        let mut extensions: Vec<String> = Vec::new();
        extensions.push(String::from_str("pyc"));
        extensions.push(String::from_str("swp"));
        extensions.push(String::from_str("swo"));
        extensions.push(String::from_str("bmp"));
        extensions.push(String::from_str("jpg"));
        extensions.push(String::from_str("jpeg"));
        extensions.push(String::from_str("png"));
        extensions.push(String::from_str("gif"));
        extensions.push(String::from_str("svg"));
        extensions.push(String::from_str("psd"));
        extensions.push(String::from_str("xcf"));
        extensions.push(String::from_str("pxm"));
        proof {
            reveal_strlit("pyc");
            reveal_strlit("swp");
            reveal_strlit("swo");
            reveal_strlit("bmp");
            reveal_strlit("jpg");
            reveal_strlit("jpeg");
            reveal_strlit("png");
            reveal_strlit("gif");
            reveal_strlit("svg");
            reveal_strlit("psd");
            reveal_strlit("xcf");
            reveal_strlit("pxm");
            assert(extensions.deep_view() =~~= ignored_extensions());
        }
        IgnoreFilter { extensions }
    }

    /// Check whether a file path should be ignored.
    pub fn should_ignore(&self, path: &str) -> (r: bool)
        requires
            self.wf(),
        ensures
            r == path_is_ignored(path@),
    {
        let n = path.unicode_len();
        let dot = find_last_dot(path);
        match dot {
            None => {
                false
            },
            Some(i) => {
                proof {
                    lemma_ignored_extensions_lowercase();
                    lemma_last_dot_bounds(path@);
                }
                assert(i < n);
                let start = i + 1;
                let ghost ext = path@.subrange(start as int, path@.len() as int);
                let mut k: usize = 0;
                while k < self.extensions.len()
                    invariant
                        self.wf(),
                        start <= path@.len(),
                        last_dot(path@) == i,
                        start == i + 1,
                        ext == path@.subrange(start as int, path@.len() as int),
                        k <= self.extensions.len(),
                        forall|m: int| 0 <= m < k ==> lower(ext) != ignored_extensions()[m],
                        forall|kk: int, ii: int|
                            0 <= kk < ignored_extensions().len() && 0 <= ii
                                < ignored_extensions()[kk].len() ==> !is_ascii_upper(
                                #[trigger] ignored_extensions()[kk][ii],
                            ),
                    decreases self.extensions.len() - k,
                {
                    assert(self.extensions.deep_view()[k as int] == ignored_extensions()[k as int]);
                    if ext_matches(path, start, self.extensions[k].as_str()) {
                        assert(ignored_extensions().contains(lower(ext)));
                        return true;
                    }
                    k = k + 1;
                }
                assert(self.extensions.deep_view().len() == ignored_extensions().len());
                assert(!ignored_extensions().contains(lower(ext)));
                false
            },
        }
    }
}

impl Default for IgnoreFilter {
    /// The default filter is the filter with the built-in ignored extensions.
    fn default() -> (r: Self)
        ensures
            r.wf(),
    {
        Self::new()
    }
}

/// Find the index of the last `.` in `path`, if any.
fn find_last_dot(path: &str) -> (r: Option<usize>)
    ensures
        match r {
            Some(i) => last_dot(path@) == i,
            None => last_dot(path@) == -1,
        },
{
    let n = path.unicode_len();
    let mut j: usize = n;
    while j > 0
        invariant
            j <= n,
            n == path@.len(),
            forall|k: int| j <= k < n ==> path@[k] != '.',
        decreases j,
    {
        j = j - 1;
        if path.get_char(j) == '.' {
            proof {
                lemma_last_dot_found(path@, j as int);
            }
            return Some(j);
        }
    }
    proof {
        lemma_last_dot_none(path@);
    }
    None
}

/// Compare the suffix of `path` starting at `start` against `ext`,
/// case-folding the suffix; `ext` must already be lower case.
fn ext_matches(path: &str, start: usize, ext: &str) -> (r: bool)
    requires
        start <= path@.len(),
        forall|i: int| 0 <= i < ext@.len() ==> !is_ascii_upper(#[trigger] ext@[i]),
    ensures
        r == (lower(path@.subrange(start as int, path@.len() as int)) == ext@),
{
    let n = path.unicode_len();
    let m = ext.unicode_len();
    let ghost sub = path@.subrange(start as int, path@.len() as int);
    if m != n - start {
        assert(lower(sub).len() == sub.len());
        return false;
    }
    let mut i: usize = 0;
    while i < m
        invariant
            m == ext@.len(),
            n == path@.len(),
            start + m == n,
            i <= m,
            sub == path@.subrange(start as int, path@.len() as int),
            forall|t: int| 0 <= t < i ==> lower_char(#[trigger] sub[t]) == ext@[t],
            forall|t: int| 0 <= t < ext@.len() ==> !is_ascii_upper(#[trigger] ext@[t]),
        decreases m - i,
    {
        let c = path.get_char(start + i);
        let e = ext.get_char(i);
        assert(c == sub[i as int]);
        let cm = char_match(c, e);
        proof {
            lemma_char_match(c, e);
        }
        if !cm {
            assert(lower(sub)[i as int] != ext@[i as int]);
            return false;
        }
        i = i + 1;
    }
    assert(lower(sub) =~= ext@);
    true
}

/// Whether `c`, after ASCII case folding, equals the lower-case character `e`.
fn char_match(c: char, e: char) -> (r: bool)
    ensures
        r == (c == e || (is_ascii_upper(c) && (c as u32) + 32 == e as u32)),
{
    let cv = c as u32;
    let ev = e as u32;
    cv == ev || (65 <= cv && cv <= 90 && cv + 32 == ev)
}

proof fn lemma_char_match(c: char, e: char)
    requires
        !is_ascii_upper(e),
    ensures
        (c == e || (is_ascii_upper(c) && (c as u32) + 32 == e as u32)) == (lower_char(c) == e),
{
    if is_ascii_upper(c) {
        assert(c != e);
        assert(lower_char(c) == ((c as u32) + 32) as char);
        assert((((c as u32) + 32) as char) as u32 == (c as u32) + 32);
    }
}

} // verus!
