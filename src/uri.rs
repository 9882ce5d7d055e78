//! Library URIs of downloaded files and the substring test used to recognise
//! entries already in the downloads playlist.
use vstd::prelude::*;
use vstd::string::*;

verus! {

/// Whether `needle` occurs in `hay` as a contiguous run of characters.
pub open spec fn occurs_in(needle: Seq<char>, hay: Seq<char>) -> bool {
    exists|k: int| 0 <= k && k + needle.len() <= hay.len() && #[trigger] hay.subrange(k, k + needle.len()) == needle
}

/// Whether `needle` occurs in `hay` at position `k`.
pub open spec fn occurs_at(needle: Seq<char>, hay: Seq<char>, k: int) -> bool {
    0 <= k && k + needle.len() <= hay.len() && hay.subrange(k, k + needle.len()) == needle
}

/// Whether some entry of `entries` holds `uri`.
pub open spec fn listed(entries: Seq<Seq<char>>, uri: Seq<char>) -> bool {
    exists|i: int| 0 <= i < entries.len() && occurs_in(uri, #[trigger] entries[i])
}

/// The library URI of `file` inside directory `dir`.
pub open spec fn uri_spec(dir: Seq<char>, file: Seq<char>) -> Seq<char> {
    dir + seq!['/'] + file
}

/// The views of a list of strings.
pub open spec fn views(v: Seq<String>) -> Seq<Seq<char>> {
    v.map_values(|s: String| s@)
}

/// The library URI `<dir>/<file>`.
pub fn library_uri(dir: &str, file: &str) -> (r: String)
    ensures
        r@ == uri_spec(dir@, file@),
{
    let r = dir.to_owned().concat("/");
    proof {
        reveal_strlit("/");
    }
    let r = r.concat(file);
    assert(r@ =~= uri_spec(dir@, file@));
    r
}

/// Whether `needle` occurs in `hay`.
pub fn contains_str(hay: &str, needle: &str) -> (r: bool)
    ensures
        r == occurs_in(needle@, hay@),
{
    let n = hay.unicode_len();
    let m = needle.unicode_len();
    if m == 0 {
        assert(hay@.subrange(0, 0 + needle@.len() as int) =~= needle@);
        return true;
    }
    if m > n {
        return false;
    }
    let mut k: usize = 0;
    while k <= n - m
        invariant
            n == hay@.len(),
            m == needle@.len(),
            0 < m <= n,
            k <= n - m + 1,
            forall|j: int| 0 <= j < k ==> !occurs_at(needle@, hay@, j),
        decreases n - m + 1 - k,
    {
        let mut i: usize = 0;
        let mut same = true;
        while i < m && same
            invariant
                n == hay@.len(),
                m == needle@.len(),
                k + m <= n,
                i <= m,
                same ==> forall|t: int| 0 <= t < i ==> hay@[k + t] == needle@[t],
                !same ==> !occurs_at(needle@, hay@, k as int),
            decreases m - i + (if same { 1int } else { 0int }),
        {
            if hay.get_char(k + i) != needle.get_char(i) {
                same = false;
                assert(hay@.subrange(k as int, k + m)[i as int] != needle@[i as int]);
            } else {
                i = i + 1;
            }
        }
        if same {
            assert(hay@.subrange(k as int, k + m) =~= needle@);
            return true;
        }
        k = k + 1;
    }
    proof {
        if occurs_in(needle@, hay@) {
            let j = choose|j: int|
                0 <= j && j + needle@.len() <= hay@.len() && #[trigger] hay@.subrange(
                    j,
                    j + needle@.len(),
                ) == needle@;
            assert(occurs_at(needle@, hay@, j));
        }
    }
    false
}

/// Whether some entry of `entries` holds `uri`.
pub fn is_listed(entries: &Vec<String>, uri: &str) -> (r: bool)
    ensures
        r == listed(views(entries@), uri@),
{
    let mut i: usize = 0;
    while i < entries.len()
        invariant
            i <= entries@.len(),
            forall|j: int| 0 <= j < i ==> !occurs_in(uri@, #[trigger] views(entries@)[j]),
        decreases entries@.len() - i,
    {
        if contains_str(entries[i].as_str(), uri) {
            assert(occurs_in(uri@, views(entries@)[i as int]));
            return true;
        }
        i = i + 1;
    }
    false
}

} // verus!
