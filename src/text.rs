//! Small verified string helpers shared by the other modules.
use vstd::prelude::*;

verus! {

/// The characters of each string.
pub open spec fn views(v: Seq<String>) -> Seq<Seq<char>> {
    v.map_values(|s: String| s@)
}

/// `needle` occurs in `hay` as a contiguous run of characters.
pub open spec fn contains_seq(hay: Seq<char>, needle: Seq<char>) -> bool {
    exists|i: int| 0 <= i <= hay.len() - needle.len() && #[trigger] hay.subrange(i, i + needle.len()) == needle
}

/// `needle` occurs at position `i` of `hay`.
pub open spec fn occurs_at(hay: Seq<char>, needle: Seq<char>, i: int) -> bool {
    0 <= i <= hay.len() - needle.len() && forall|k: int| 0 <= k < needle.len() ==> #[trigger] hay[i + k] == needle[k]
}

proof fn lemma_occurs_at_subrange(hay: Seq<char>, needle: Seq<char>, i: int)
    requires
        0 <= i <= hay.len() - needle.len(),
    ensures
        occurs_at(hay, needle, i) <==> hay.subrange(i, i + needle.len()) == needle,
{
    if occurs_at(hay, needle, i) {
        assert forall|k: int| 0 <= k < needle.len() implies #[trigger] hay.subrange(i, i + needle.len())[k] == needle[k] by {
            assert(hay[i + k] == needle[k]);
        }
        assert(hay.subrange(i, i + needle.len()) =~= needle);
    }
    if hay.subrange(i, i + needle.len()) == needle {
        assert forall|k: int| 0 <= k < needle.len() implies #[trigger] hay[i + k] == needle[k] by {
            assert(hay.subrange(i, i + needle.len())[k] == hay[i + k]);
        }
    }
}

/// Whether `needle` occurs in `hay`; an empty `needle` occurs everywhere.
pub fn contains_str(hay: &str, needle: &str) -> (r: bool)
    ensures
        r == contains_seq(hay@, needle@),
{
    let n = hay.unicode_len();
    let m = needle.unicode_len();
    if m > n {
        proof {
            assert forall|i: int| 0 <= i <= hay@.len() - needle@.len() implies #[trigger] hay@.subrange(i, i + needle@.len()) != needle@ by {}
        }
        return false;
    }
    let mut i: usize = 0;
    while i <= n - m
        invariant
            n == hay@.len(),
            m == needle@.len(),
            m <= n,
            i <= n - m + 1,
            forall|j: int| 0 <= j < i ==> #[trigger] hay@.subrange(j, j + m) != needle@,
        decreases n - m + 1 - i,
    {
        let mut k: usize = 0;
        let mut same = true;
        while k < m
            invariant
                n == hay@.len(),
                m == needle@.len(),
                i <= n - m,
                k <= m,
                same <==> forall|t: int| 0 <= t < k ==> #[trigger] hay@[i + t] == needle@[t],
            decreases m - k,
        {
            if hay.get_char(i + k) != needle.get_char(k) {
                same = false;
            }
            k = k + 1;
        }
        proof {
            lemma_occurs_at_subrange(hay@, needle@, i as int);
        }
        if same {
            return true;
        }
        i = i + 1;
    }
    false
}

/// Joins `base` and `name` as a filesystem path: an absolute `name` replaces
/// `base`, and one separator is put between them unless `base` is empty or
/// already ends with one.
pub open spec fn join_path_spec(base: Seq<char>, name: Seq<char>) -> Seq<char> {
    if name.len() > 0 && name[0] == '/' {
        name
    } else if base.len() == 0 || base.last() == '/' {
        base + name
    } else {
        base + seq!['/'] + name
    }
}

/// Joins two path strings the way `Path::join` does on unix.
pub fn join_path(base: &str, name: &str) -> (r: String)
    ensures
        r@ == join_path_spec(base@, name@),
{
    let nb = base.unicode_len();
    let nn = name.unicode_len();
    if nn > 0 && name.get_char(0) == '/' {
        return name.to_owned();
    }
    let mut r = base.to_owned();
    if !(nb == 0 || base.get_char(nb - 1) == '/') {
        r.append("/");
        proof {
            reveal_strlit("/");
        }
    }
    r.append(name);
    proof {
        if nb != 0 && base@.last() != '/' {
            assert(r@ =~= base@ + seq!['/'] + name@);
        }
    }
    r
}

/// The pieces of `s` between the separators `sep`, empty ones included,
/// from the left: the pieces closed so far and the open one.
pub open spec fn split_scan_on(s: Seq<char>, sep: char) -> (Seq<Seq<char>>, Seq<char>)
    decreases s.len(),
{
    if s.len() == 0 {
        (Seq::empty(), Seq::empty())
    } else {
        let acc = split_scan_on(s.drop_last(), sep);
        if s.last() == sep {
            (acc.0.push(acc.1), Seq::empty())
        } else {
            (acc.0, acc.1.push(s.last()))
        }
    }
}

/// The pieces of `s` between the separators `sep`, empty ones included.
pub open spec fn split_on(s: Seq<char>, sep: char) -> Seq<Seq<char>> {
    split_scan_on(s, sep).0.push(split_scan_on(s, sep).1)
}

/// The components of a unix path as `Path::components` gives them: whether
/// it starts at the root, whether it starts with a `.` of its own (kept only
/// there, and only for a relative path), and its other parts, where empty
/// parts from repeated or trailing `/` and every other `.` are dropped.
pub open spec fn path_components(s: Seq<char>) -> (bool, bool, Seq<Seq<char>>) {
    let rooted = s.len() > 0 && s[0] == '/';
    let cur_dir = !rooted && s.len() > 0 && s[0] == '.' && (s.len() == 1 || s[1] == '/');
    (rooted, cur_dir, split_on(s, '/').filter(|p: Seq<char>| p.len() > 0 && p != seq!['.']))
}

/// Whether two path strings name the same path for `std::path::Path`'s `==`:
/// they have the same components.
pub open spec fn path_equal(a: Seq<char>, b: Seq<char>) -> bool {
    path_components(a) == path_components(b)
}

/// Relies on `==` of `std::path::Path`, which compares the paths'
/// components; `Path::components` documents how `/` and `.` are normalized.
#[verifier::external_body]
pub(crate) fn same_path(a: &str, b: &str) -> (r: bool)
    ensures
        r == path_equal(a@, b@),
{
    std::path::Path::new(a) == std::path::Path::new(b)
}

} // verus!
