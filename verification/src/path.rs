//! Path algebra on text: joining, file names, suffixes, and the test that
//! keeps an archive member below the directory it is unpacked into.
//!
//! A path is a string whose segments are separated by `/`.

use vstd::prelude::*;

verus! {

/// The character between the segments of a path.
pub const SEPARATOR: char = '/';

/// `base / name`: `name` itself when it is absolute, else `name` appended to
/// `base`, with one separator between them unless `base` is empty or already
/// ends in one.
pub open spec fn join(base: Seq<char>, name: Seq<char>) -> Seq<char> {
    if name.len() > 0 && name[0] == SEPARATOR {
        name
    } else if base.len() == 0 || base.last() == SEPARATOR {
        base + name
    } else {
        base + seq![SEPARATOR] + name
    }
}

/// Index just past the last separator of `s`, 0 when `s` has none.
pub open spec fn name_start(s: Seq<char>) -> int
    decreases s.len(),
{
    if s.len() == 0 {
        0
    } else if s.last() == SEPARATOR {
        s.len() as int
    } else {
        name_start(s.drop_last())
    }
}

/// What follows the last separator of `s`: all of `s` when it has none, the
/// empty text when `s` ends in one.
pub open spec fn file_name(s: Seq<char>) -> Seq<char> {
    s.subrange(name_start(s), s.len() as int)
}

/// `k` is where the file name of `s` starts: right after a separator or at
/// the front, with no separator from there on.
pub open spec fn starts_name(s: Seq<char>, k: int) -> bool {
    &&& 0 <= k <= s.len()
    &&& (k == 0 || s[k - 1] == SEPARATOR)
    &&& forall|i: int| k <= i < s.len() ==> s[i] != SEPARATOR
}

/// `name_start` is the one index at which a file name starts.
pub proof fn lemma_name_start(s: Seq<char>)
    ensures
        starts_name(s, name_start(s)),
        forall|k: int| starts_name(s, k) ==> k == name_start(s),
    decreases s.len(),
{
    if s.len() == 0 {
    } else if s.last() == SEPARATOR {
        assert forall|k: int| starts_name(s, k) implies k == name_start(s) by {
            if k < s.len() {
                assert(s[s.len() - 1] != SEPARATOR);
            }
        }
    } else {
        let t = s.drop_last();
        lemma_name_start(t);
        let k0 = name_start(t);
        assert(starts_name(s, k0)) by {
            assert(k0 == 0 || s[k0 - 1] == t[k0 - 1]);
            assert forall|i: int| k0 <= i < s.len() implies s[i] != SEPARATOR by {
                if i < t.len() {
                    assert(s[i] == t[i]);
                }
            }
        }
        assert forall|k: int| starts_name(s, k) implies k == name_start(s) by {
            if k == s.len() {
                assert(s[k - 1] == SEPARATOR);
            } else {
                assert(starts_name(t, k)) by {
                    assert(k == 0 || t[k - 1] == s[k - 1]);
                    assert forall|i: int| k <= i < t.len() implies t[i] != SEPARATOR by {
                        assert(t[i] == s[i]);
                    }
                }
            }
        }
    }
}

/// `base / name` as a new string.
pub fn join_path(base: &str, name: &str) -> (r: String)
    ensures
        r@ == join(base@, name@),
{
    proof {
        reveal_strlit("/");
    }
    let name_len: usize = name.unicode_len();
    if name_len > 0 && name.get_char(0) == SEPARATOR {
        return String::from_str(name);
    }
    let base_len: usize = base.unicode_len();
    let mut r = String::from_str(base);
    if base_len > 0 && base.get_char(base_len - 1) != SEPARATOR {
        r.append("/");
        assert("/"@ =~= seq![SEPARATOR]);
    }
    r.append(name);
    r
}

/// Where the file name of `s` starts, counted in characters.
fn find_name_start(s: &str, len: usize) -> (k: usize)
    requires
        len == s@.len(),
    ensures
        k == name_start(s@),
        k <= len,
{
    let mut n: usize = 0;
    let mut start: usize = 0;
    for c in it: s.chars()
        invariant
            n == it.index(),
            it.seq() == s@,
            len == s@.len(),
            start <= n <= len,
            start == 0 || s@[start - 1] == SEPARATOR,
            forall|i: int| start <= i < n ==> s@[i] != SEPARATOR,
    {
        n = n + 1;
        if c == SEPARATOR {
            start = n;
        }
    }
    proof {
        assert(starts_name(s@, start as int));
        lemma_name_start(s@);
    }
    start
}

/// The text after the last separator of `s`.
pub fn file_name_of(s: &str) -> (r: String)
    ensures
        r@ == file_name(s@),
        !r@.contains(SEPARATOR),
        r@.len() <= s@.len(),
        r@ == s@.subrange(s@.len() - r@.len(), s@.len() as int),
        r@.len() < s@.len() ==> s@[s@.len() - r@.len() - 1] == SEPARATOR,
{
    let len: usize = s.unicode_len();
    let start: usize = find_name_start(s, len);
    proof {
        lemma_name_start(s@);
    }
    String::from_str(s.substring_char(start, len))
}

/// `s` ends in `suffix`.
pub open spec fn has_suffix(s: Seq<char>, suffix: Seq<char>) -> bool {
    suffix.len() <= s.len() && s.subrange(s.len() - suffix.len(), s.len() as int) == suffix
}

/// `s` with one trailing `suffix` taken off; `s` itself when it does not end
/// in `suffix`.
pub open spec fn without_suffix(s: Seq<char>, suffix: Seq<char>) -> Seq<char> {
    if has_suffix(s, suffix) {
        s.subrange(0, s.len() - suffix.len())
    } else {
        s
    }
}

/// Whether `s` ends in `suffix`.
pub fn ends_with(s: &str, suffix: &str) -> (b: bool)
    ensures
        b == has_suffix(s@, suffix@),
{
    let len: usize = s.unicode_len();
    let suffix_len: usize = suffix.unicode_len();
    if suffix_len > len {
        return false;
    }
    let tail = String::from_str(s.substring_char(len - suffix_len, len));
    let wanted = String::from_str(suffix);
    tail == wanted
}

/// `s` without one trailing `suffix`.
pub fn strip_suffix(s: &str, suffix: &str) -> (r: String)
    ensures
        r@ == without_suffix(s@, suffix@),
        has_suffix(s@, suffix@) ==> r@ + suffix@ == s@,
{
    if ends_with(s, suffix) {
        let len: usize = s.unicode_len();
        let suffix_len: usize = suffix.unicode_len();
        String::from_str(s.substring_char(0, len - suffix_len))
    } else {
        String::from_str(s)
    }
}

/// A segment `..` of `s` begins at index `i`: two dots between separators or
/// the ends of the text.
pub open spec fn parent_at(s: Seq<char>, i: int) -> bool {
    &&& 0 <= i
    &&& i + 2 <= s.len()
    &&& s[i] == '.'
    &&& s[i + 1] == '.'
    &&& (i == 0 || s[i - 1] == SEPARATOR)
    &&& (i + 2 == s.len() || s[i + 2] == SEPARATOR)
}

/// Some segment of `s` is `..`.
pub open spec fn has_parent_segment(s: Seq<char>) -> bool {
    exists|i: int| parent_at(s, i)
}

/// `s` starts at the root of the file system.
pub open spec fn is_absolute(s: Seq<char>) -> bool {
    s.len() > 0 && s[0] == SEPARATOR
}

/// A member name that cannot leave the directory it is resolved against:
/// relative, and without a `..` segment.
pub open spec fn safe_member(s: Seq<char>) -> bool {
    !is_absolute(s) && !has_parent_segment(s)
}

/// Every name of `names` is a safe member name.
pub open spec fn all_safe(names: Seq<Seq<char>>) -> bool {
    forall|i: int| 0 <= i < names.len() ==> safe_member(#[trigger] names[i])
}

/// Whether a member of that name stays below the directory it is unpacked
/// into.
pub fn is_safe_member(name: &str) -> (b: bool)
    ensures
        b == safe_member(name@),
{
    let len: usize = name.unicode_len();
    let mut n: usize = 0;
    let mut absolute = false;
    // start of the segment that holds index n, and whether it is dots only so far
    let mut segment: usize = 0;
    let mut dots = true;
    let mut found = false;
    for c in it: name.chars()
        invariant
            n == it.index(),
            it.seq() == name@,
            len == name@.len(),
            segment <= n <= len,
            absolute == (n > 0 && name@[0] == SEPARATOR),
            segment == 0 || name@[segment - 1] == SEPARATOR,
            forall|i: int| segment <= i < n ==> name@[i] != SEPARATOR,
            dots == (forall|i: int| segment <= i < n ==> name@[i] == '.'),
            found == (exists|i: int| parent_at(name@, i) && i + 2 < n),
    {
        let ghost before = n;
        let ghost was_found = found;
        if n == 0 && c == SEPARATOR {
            absolute = true;
        }
        if c == SEPARATOR {
            if dots && n - segment == 2 {
                found = true;
                assert(parent_at(name@, segment as int));
            }
            segment = n + 1;
            dots = true;
        } else if c != '.' {
            dots = false;
        }
        n = n + 1;
        proof {
            if was_found {
                let i = choose|i: int| parent_at(name@, i) && i + 2 < before;
                assert(parent_at(name@, i) && i + 2 < n);
            } else if found {
                assert(parent_at(name@, before - 2) && before < n);
            }
        }
    }
    let last = dots && n - segment == 2;
    proof {
        if last {
            assert(parent_at(name@, segment as int));
        }
        if found {
            let i = choose|i: int| parent_at(name@, i) && i + 2 < n;
            assert(parent_at(name@, i));
        }
    }
    !absolute && !found && !last
}

/// The file name of a text holds no separator and is the end of the text.
pub proof fn lemma_file_name(s: Seq<char>)
    ensures
        !file_name(s).contains(SEPARATOR),
        has_suffix(s, file_name(s)),
        s == s.subrange(0, name_start(s)) + file_name(s),
{
    lemma_name_start(s);
    let name = file_name(s);
    if name.contains(SEPARATOR) {
        let i = choose|i: int| 0 <= i < name.len() && name[i] == SEPARATOR;
        assert(s[name_start(s) + i] == SEPARATOR);
    }
    assert(s.subrange(s.len() - name.len(), s.len() as int) =~= name);
    assert(s =~= s.subrange(0, name_start(s)) + name);
}

/// Joining a relative name keeps the base in front and the name at the end,
/// with at most one separator put between them.
pub proof fn lemma_join_relative(base: Seq<char>, name: Seq<char>)
    requires
        !is_absolute(name),
    ensures
        base.is_prefix_of(join(base, name)),
        has_suffix(join(base, name), name),
        join(base, name).len() == base.len() + name.len() + (if base.len() == 0 || base.last()
            == SEPARATOR {
            0int
        } else {
            1int
        }),
{
    let j = join(base, name);
    assert(j.subrange(j.len() - name.len(), j.len() as int) =~= name);
    assert(j.subrange(0, base.len() as int) =~= base);
}

/// A name without a separator, joined to any base, is the file name of the
/// result.
pub proof fn lemma_file_name_of_join(base: Seq<char>, name: Seq<char>)
    requires
        !name.contains(SEPARATOR),
    ensures
        file_name(join(base, name)) == name,
{
    if name.len() > 0 {
        assert(name.contains(name[0]));
    }
    lemma_join_relative(base, name);
    let j = join(base, name);
    let k = j.len() - name.len();
    assert forall|i: int| k <= i < j.len() implies j[i] != SEPARATOR by {
        assert(j[i] == name[i - k]);
        assert(name.contains(name[i - k]));
    }
    assert(starts_name(j, k));
    lemma_name_start(j);
    assert(j.subrange(k, j.len() as int) =~= name);
}

/// A safe member stays below the directory it is joined to: the result
/// starts with the base, and every `..` segment of the result lies within the
/// base, none in the part that the member adds.
pub proof fn lemma_safe_member_stays_below(base: Seq<char>, name: Seq<char>)
    requires
        safe_member(name),
    ensures
        base.is_prefix_of(join(base, name)),
        forall|i: int| parent_at(join(base, name), i) ==> i + 2 <= base.len(),
{
    lemma_join_relative(base, name);
    let j = join(base, name);
    let k = j.len() - name.len();
    assert forall|i: int| parent_at(j, i) implies i + 2 <= base.len() by {
        if i >= k {
            assert(j[i] == name[i - k]);
            assert(j[i + 1] == name[i + 1 - k]);
            if i > k {
                assert(j[i - 1] == name[i - 1 - k]);
            }
            if i + 2 < j.len() {
                assert(j[i + 2] == name[i + 2 - k]);
            }
            assert(parent_at(name, i - k));
        } else if i + 2 > base.len() {
            assert(j[k - 1] == SEPARATOR);
        }
    }
}

} // verus!
