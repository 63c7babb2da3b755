//! Extension extraction from a path written as a string.
//!
//! The rule, stated over character sequences: drop any trailing `'/'`
//! separators, take the final `'/'`-separated component as the file name,
//! and return what follows the last `'.'` of that name — empty when the
//! name has no `'.'` past its first character, so a name that only starts
//! with a dot (a hidden file) has no extension.

use vstd::prelude::*;
use vstd::string::StrSliceExecFns;

verus! {

/// `s` without its trailing run of `c` characters.
pub open spec fn trim_trailing(s: Seq<char>, c: char) -> Seq<char>
    decreases s.len(),
{
    if s.len() > 0 && s[s.len() - 1] == c {
        trim_trailing(s.drop_last(), c)
    } else {
        s
    }
}

/// What follows the last occurrence of `c` in `s`; all of `s` when `c`
/// does not occur.
pub open spec fn after_last(s: Seq<char>, c: char) -> Seq<char>
    decreases s.len(),
{
    if s.len() == 0 {
        Seq::empty()
    } else if s[s.len() - 1] == c {
        Seq::empty()
    } else {
        after_last(s.drop_last(), c).push(s[s.len() - 1])
    }
}

/// Whether `c` occurs in `s` at a position after the first character.
pub open spec fn has_inner(s: Seq<char>, c: char) -> bool {
    exists|i: int| 0 < i < s.len() && s[i] == c
}

/// The final `'/'`-separated component of `path`, trailing separators
/// ignored.
pub open spec fn file_name_of(path: Seq<char>) -> Seq<char> {
    after_last(trim_trailing(path, '/'), '/')
}

/// The extension of `path`: what follows the last `'.'` of its file name,
/// empty when that name has no `'.'` past its first character.
pub open spec fn path_extension(path: Seq<char>) -> Seq<char> {
    if has_inner(file_name_of(path), '.') {
        after_last(file_name_of(path), '.')
    } else {
        Seq::empty()
    }
}

/// When every character of `s` from position `k` on differs from `c`, and
/// `k` is either the start or just after an occurrence of `c`, the suffix
/// after the last `c` is exactly `s` from `k` on.
proof fn lemma_after_last_from(s: Seq<char>, c: char, k: int)
    requires
        0 <= k <= s.len(),
        forall|j: int| k <= j < s.len() ==> s[j] != c,
        k == 0 || s[k - 1] == c,
    ensures
        after_last(s, c) == s.subrange(k, s.len() as int),
    decreases s.len(),
{
    if s.len() == 0 {
        assert(after_last(s, c) =~= s.subrange(k, s.len() as int));
    } else if k == s.len() {
        assert(s[s.len() - 1] == c);
        assert(after_last(s, c) =~= s.subrange(k, s.len() as int));
    } else {
        assert(s[s.len() - 1] != c);
        let s2 = s.drop_last();
        lemma_after_last_from(s2, c, k);
        assert(after_last(s, c) =~= s.subrange(k, s.len() as int));
    }
}

/// Extracts the extension of `path`, empty when there is none.
pub fn extension_of(path: &str) -> (ext: String)
    ensures
        ext@ == path_extension(path@),
{
    let n: usize = path.unicode_len();

    // Ignore trailing '/' separators.
    proof {
        assert(path@.subrange(0, n as int) =~= path@);
    }
    let mut end: usize = n;
    while end > 0 && path.get_char(end - 1) == '/'
        invariant
            end <= n,
            n == path@.len(),
            trim_trailing(path@, '/') == trim_trailing(path@.subrange(0, end as int), '/'),
        decreases end,
    {
        proof {
            assert(path@.subrange(0, end as int).drop_last() =~= path@.subrange(
                0,
                end as int - 1,
            ));
        }
        end = end - 1;
    }
    proof {
        if end > 0 {
            assert(path@.subrange(0, end as int)[end - 1] != '/');
        }
        assert(trim_trailing(path@, '/') == path@.subrange(0, end as int));
    }

    // Find where the final component begins: just after the last '/'.
    let mut i: usize = 0;
    let mut start: usize = 0;
    while i < end
        invariant
            start <= i <= end <= n,
            n == path@.len(),
            forall|j: int| start <= j < i ==> path@[j] != '/',
            start == 0 || path@[start - 1] == '/',
        decreases end - i,
    {
        if path.get_char(i) == '/' {
            start = i + 1;
        }
        i = i + 1;
    }
    let name = path.substring_char(start, end);
    proof {
        let t = path@.subrange(0, end as int);
        assert(forall|j: int| start <= j < t.len() ==> t[j] != '/');
        if start > 0 {
            assert(t[start - 1] == '/');
        }
        lemma_after_last_from(t, '/', start as int);
        assert(t.subrange(start as int, t.len() as int) =~= path@.subrange(
            start as int,
            end as int,
        ));
        assert(file_name_of(path@) == name@);
    }

    // Find the last '.' of the name, ignoring one at the very start.
    let m: usize = name.unicode_len();
    let mut j: usize = 1;
    let mut dot: usize = 0;
    let mut found: bool = false;
    while j < m
        invariant
            1 <= j,
            m == name@.len(),
            found ==> 0 < dot && dot < j && dot < m && name@[dot as int] == '.',
            found ==> forall|k: int| dot < k < j ==> name@[k] != '.',
            !found ==> forall|k: int| 0 < k < j ==> name@[k] != '.',
        decreases m - j,
    {
        if name.get_char(j) == '.' {
            dot = j;
            found = true;
        }
        j = j + 1;
    }

    if found {
        proof {
            assert(has_inner(name@, '.')) by {
                assert(0 < (dot as int) && (dot as int) < name@.len() && name@[dot as int]
                    == '.');
            }
            lemma_after_last_from(name@, '.', dot as int + 1);
        }
        let ext = name.substring_char(dot + 1, m).to_owned();
        ext
    } else {
        proof {
            assert(!has_inner(name@, '.'));
        }
        String::new()
    }
}

} // verus!
