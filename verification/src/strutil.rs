//! Small verified string utilities shared by the other modules, together
//! with the few trusted bridges to `std` string operations that `vstd` does
//! not specify.

use vstd::prelude::*;
use vstd::string::*;

verus! {

/// Decides whether two string slices hold the same character sequence.
pub fn str_eq(a: &str, b: &str) -> (r: bool)
    ensures
        r == (a@ == b@),
{
    let alen = a.unicode_len();
    let blen = b.unicode_len();
    if alen != blen {
        return false;
    }
    let mut i: usize = 0;
    while i < alen
        invariant
            i <= alen,
            alen == a@.len(),
            alen == b@.len(),
            forall|j: int| 0 <= j < i ==> a@[j] == b@[j],
        decreases alen - i,
    {
        if a.get_char(i) != b.get_char(i) {
            return false;
        }
        i += 1;
    }
    proof {
        assert(a@ =~= b@);
    }
    true
}

/// Relies on `String::push`: appends one character at the end of the string.
#[verifier::external_body]
pub(crate) fn push_char(s: &mut String, c: char)
    ensures
        final(s)@ == old(s)@.push(c),
{
    s.push(c)
}

/// The character views of a sequence of strings.
pub open spec fn str_views(ss: Seq<String>) -> Seq<Seq<char>> {
    ss.map_values(|s: String| s@)
}

/// Whether `needle` occurs as a contiguous subsequence of `hay`.
pub open spec fn contains_seq(hay: Seq<char>, needle: Seq<char>) -> bool {
    exists|i: int|
        0 <= i && i + needle.len() <= hay.len() && #[trigger] hay.subrange(i, i + needle.len())
            == needle
}

/// Decides whether `needle` occurs as a substring of `hay`.
pub fn contains_substr(hay: &str, needle: &str) -> (r: bool)
    ensures
        r == contains_seq(hay@, needle@),
{
    let hlen = hay.unicode_len();
    let nlen = needle.unicode_len();
    if nlen == 0 {
        proof {
            assert(hay@.subrange(0, 0 + needle@.len() as int) =~= needle@);
        }
        return true;
    }
    if nlen > hlen {
        return false;
    }
    let mut i: usize = 0;
    while i <= hlen - nlen
        invariant
            1 <= nlen <= hlen,
            hlen == hay@.len(),
            nlen == needle@.len(),
            i <= hlen - nlen + 1,
            forall|j: int|
                0 <= j < i ==> #[trigger] hay@.subrange(j, j + needle@.len()) != needle@,
        decreases hlen - nlen - i + 1,
    {
        let mut k: usize = 0;
        let mut matched = true;
        while k < nlen && matched
            invariant
                k <= nlen,
                i + nlen <= hlen,
                hlen == hay@.len(),
                nlen == needle@.len(),
                matched ==> forall|t: int| 0 <= t < k ==> hay@[i + t] == needle@[t],
                !matched ==> hay@.subrange(i as int, i as int + needle@.len()) != needle@,
            decreases nlen - k + (if matched { 1int } else { 0int }),
        {
            if hay.get_char(i + k) != needle.get_char(k) {
                proof {
                    assert(hay@.subrange(i as int, i as int + needle@.len())[k as int] == hay@[i
                        + k]);
                }
                matched = false;
            } else {
                k += 1;
            }
        }
        if matched {
            proof {
                assert(hay@.subrange(i as int, i as int + needle@.len()) =~= needle@);
            }
            return true;
        }
        i += 1;
    }
    false
}

/// The index of the last occurrence of `c` in `s`, if any.
pub open spec fn spec_rfind(s: Seq<char>, c: char) -> Option<int>
    decreases s.len(),
{
    if s.len() == 0 {
        None
    } else if s[s.len() - 1] == c {
        Some(s.len() - 1)
    } else {
        spec_rfind(s.drop_last(), c)
    }
}

/// Characterization of [`spec_rfind`]: it names the last occurrence.
pub proof fn lemma_rfind(s: Seq<char>, c: char)
    ensures
        match spec_rfind(s, c) {
            Some(i) => 0 <= i < s.len() && s[i] == c && forall|j: int|
                i < j < s.len() ==> s[j] != c,
            None => forall|j: int| 0 <= j < s.len() ==> s[j] != c,
        },
    decreases s.len(),
{
    if s.len() > 0 && s[s.len() - 1] != c {
        lemma_rfind(s.drop_last(), c);
        assert(forall|j: int| 0 <= j < s.len() - 1 ==> s.drop_last()[j] == s[j]);
    }
}

/// The index of the first occurrence of `c` in `s`, if any.
pub open spec fn spec_find(s: Seq<char>, c: char) -> Option<int>
    decreases s.len(),
{
    if s.len() == 0 {
        None
    } else if s[0] == c {
        Some(0)
    } else {
        match spec_find(s.skip(1), c) {
            Some(i) => Some(i + 1),
            None => None,
        }
    }
}

/// Characterization of [`spec_find`]: it names the first occurrence.
pub proof fn lemma_find(s: Seq<char>, c: char)
    ensures
        match spec_find(s, c) {
            Some(i) => 0 <= i < s.len() && s[i] == c && forall|j: int| 0 <= j < i ==> s[j] != c,
            None => forall|j: int| 0 <= j < s.len() ==> s[j] != c,
        },
    decreases s.len(),
{
    if s.len() > 0 && s[0] != c {
        lemma_find(s.skip(1), c);
        assert(forall|j: int| 0 <= j < s.len() - 1 ==> #[trigger] s.skip(1)[j] == s[j + 1]);
        match spec_find(s.skip(1), c) {
            Some(i) => {
                assert(s.skip(1)[i] == c);
                assert forall|j: int| 0 <= j < i + 1 implies s[j] != c by {
                    if j >= 1 {
                        assert(s.skip(1)[j - 1] != c);
                    }
                }
            },
            None => {
                assert forall|j: int| 0 <= j < s.len() implies s[j] != c by {
                    if j >= 1 {
                        assert(s.skip(1)[j - 1] != c);
                    }
                }
            },
        }
    }
}

/// The sequence with its trailing path separators removed.
pub open spec fn strip_trailing_slash(s: Seq<char>) -> Seq<char>
    decreases s.len(),
{
    if s.len() > 0 && s[s.len() - 1] == '/' {
        strip_trailing_slash(s.drop_last())
    } else {
        s
    }
}

/// Characterization of [`strip_trailing_slash`]: it is the prefix up to the
/// last non-separator character.
pub proof fn lemma_strip_trailing_slash(s: Seq<char>)
    ensures
        strip_trailing_slash(s).len() <= s.len(),
        strip_trailing_slash(s) == s.take(strip_trailing_slash(s).len() as int),
        forall|j: int| strip_trailing_slash(s).len() <= j < s.len() ==> s[j] == '/',
        strip_trailing_slash(s).len() > 0 ==> s[strip_trailing_slash(s).len() - 1] != '/',
    decreases s.len(),
{
    if s.len() > 0 && s[s.len() - 1] == '/' {
        lemma_strip_trailing_slash(s.drop_last());
        let t = strip_trailing_slash(s);
        assert(s.drop_last() =~= s.take(s.len() - 1));
        assert(s.drop_last().take(t.len() as int) =~= s.take(t.len() as int));
        assert forall|j: int| t.len() <= j < s.len() implies s[j] == '/' by {
            if j < s.len() - 1 {
                assert(s.drop_last()[j] == '/');
            }
        }
        if t.len() > 0 {
            assert(s.drop_last()[t.len() - 1] != '/');
        }
    } else {
        assert(s.take(s.len() as int) =~= s);
    }
}

/// The file stem of a path-like string: the component after the last
/// separator (ignoring trailing separators), with the extension after its
/// last dot removed unless the dot is the first character.  Empty and
/// parent-directory components have no stem.
pub open spec fn spec_file_stem(s: Seq<char>) -> Seq<char> {
    let t = strip_trailing_slash(s);
    let name = match spec_rfind(t, '/') {
        Some(p) => t.skip(p + 1),
        None => t,
    };
    if name.len() == 0 || name == ".."@ {
        Seq::empty()
    } else {
        match spec_rfind(name, '.') {
            Some(p) => if p > 0 {
                name.take(p)
            } else {
                name
            },
            None => name,
        }
    }
}

/// Extracts the file stem of a path-like string.
pub fn file_stem(path: &str) -> (r: String)
    ensures
        r@ == spec_file_stem(path@),
{
    let len = path.unicode_len();
    let mut end = len;
    while end > 0 && path.get_char(end - 1) == '/'
        invariant
            end <= len,
            len == path@.len(),
            forall|j: int| end <= j < len ==> path@[j] == '/',
        decreases end,
    {
        end -= 1;
    }
    proof {
        lemma_strip_trailing_slash(path@);
        let t = strip_trailing_slash(path@);
        if t.len() < end {
            assert(path@[end - 1] == '/');
            assert(false);
        } else if t.len() > end {
            assert(path@[t.len() - 1] == '/');
            assert(false);
        }
        assert(path@.take(end as int) == t);
    }
    let trimmed = path.substring_char(0, end);
    let name = match rfind_char(trimmed, '/') {
        Some(p) => {
            proof {
                lemma_rfind(trimmed@, '/');
            }
            trimmed.substring_char(p + 1, end)
        },
        None => trimmed,
    };
    proof {
        assert(name@ == (match spec_rfind(strip_trailing_slash(path@), '/') {
            Some(p) => strip_trailing_slash(path@).skip(p + 1),
            None => strip_trailing_slash(path@),
        }));
    }
    if name.unicode_len() == 0 || str_eq(name, "..") {
        let r = String::new();
        proof {
            assert(r@ =~= spec_file_stem(path@));
        }
        r
    } else {
        match rfind_char(name, '.') {
            Some(p) => {
                if p > 0 {
                    proof {
                        lemma_rfind(name@, '.');
                    }
                    String::from_str(name.substring_char(0, p))
                } else {
                    String::from_str(name)
                }
            },
            None => String::from_str(name),
        }
    }
}

/// Finds the index of the last occurrence of `c` in `s`.
pub fn rfind_char(s: &str, c: char) -> (r: Option<usize>)
    ensures
        match r {
            Some(i) => spec_rfind(s@, c) == Some(i as int),
            None => spec_rfind(s@, c) is None,
        },
{
    let len = s.unicode_len();
    let mut i: usize = len;
    while i > 0
        invariant
            i <= len,
            len == s@.len(),
            forall|j: int| i <= j < s@.len() ==> s@[j] != c,
        decreases i,
    {
        if s.get_char(i - 1) == c {
            proof {
                lemma_rfind(s@, c);
                match spec_rfind(s@, c) {
                    Some(k) => {
                        if k < i - 1 {
                            assert(s@[i - 1] != c);
                        } else if k > i - 1 {
                            assert(s@[k] != c);
                        }
                    },
                    None => {
                        assert(s@[i - 1] != c);
                    },
                }
            }
            return Some(i - 1);
        }
        i -= 1;
    }
    proof {
        lemma_rfind(s@, c);
    }
    None
}

/// Finds the index of the first occurrence of `c` in `s`.
pub fn find_char(s: &str, c: char) -> (r: Option<usize>)
    ensures
        match r {
            Some(i) => spec_find(s@, c) == Some(i as int),
            None => spec_find(s@, c) is None,
        },
{
    let len = s.unicode_len();
    let mut i: usize = 0;
    while i < len
        invariant
            i <= len,
            len == s@.len(),
            forall|j: int| 0 <= j < i ==> s@[j] != c,
        decreases len - i,
    {
        if s.get_char(i) == c {
            proof {
                lemma_find(s@, c);
                match spec_find(s@, c) {
                    Some(k) => {
                        if k < i {
                            assert(s@[i as int] != c);
                        } else if k > i {
                            assert(s@[k] != c);
                        }
                    },
                    None => {
                        assert(s@[i as int] != c);
                    },
                }
            }
            return Some(i);
        }
        i += 1;
    }
    proof {
        lemma_find(s@, c);
    }
    None
}

/// Left-to-right, non-overlapping replacement of `pat` by `to`: at each
/// position the first remaining occurrence of `pat` is replaced and the
/// scan resumes after it.  An empty pattern leaves the input unchanged.
pub open spec fn spec_replace(s: Seq<char>, pat: Seq<char>, to: Seq<char>) -> Seq<char>
    decreases s.len(),
{
    if pat.len() == 0 || s.len() < pat.len() {
        s
    } else if s.subrange(0, pat.len() as int) == pat {
        to + spec_replace(s.skip(pat.len() as int), pat, to)
    } else {
        seq![s[0]] + spec_replace(s.skip(1), pat, to)
    }
}

/// Replaces every occurrence of `pat` in `s` by `to`, left to right and
/// without overlap.
pub fn replace_all(s: &str, pat: &str, to: &str) -> (r: String)
    ensures
        r@ == spec_replace(s@, pat@, to@),
{
    let slen = s.unicode_len();
    let plen = pat.unicode_len();
    if plen == 0 {
        return String::from_str(s);
    }
    let mut out = String::new();
    let mut i: usize = 0;
    proof {
        assert(s@.skip(0) =~= s@);
        assert(out@ + spec_replace(s@, pat@, to@) =~= spec_replace(s@, pat@, to@));
    }
    while i < slen
        invariant
            i <= slen,
            slen == s@.len(),
            plen == pat@.len(),
            plen >= 1,
            spec_replace(s@, pat@, to@) == out@ + spec_replace(s@.skip(i as int), pat@, to@),
        decreases slen - i,
    {
        let ghost rest = s@.skip(i as int);
        let mut matched = plen <= slen - i;
        let mut k: usize = 0;
        while k < plen && matched
            invariant
                k <= plen,
                slen == s@.len(),
                plen == pat@.len(),
                i < slen,
                rest == s@.skip(i as int),
                matched ==> i + plen <= slen && forall|t: int| 0 <= t < k ==> rest[t] == pat@[t],
                !matched ==> !(i + plen <= slen && rest.subrange(0, plen as int) == pat@),
            decreases plen - k + (if matched { 1int } else { 0int }),
        {
            if s.get_char(i + k) != pat.get_char(k) {
                proof {
                    assert(rest[k as int] == s@[i as int + k]);
                    assert(rest.subrange(0, plen as int)[k as int] == rest[k as int]);
                }
                matched = false;
            } else {
                proof {
                    assert(rest[k as int] == s@[i as int + k]);
                }
                k += 1;
            }
        }
        if matched {
            proof {
                assert(rest.subrange(0, plen as int) =~= pat@);
                assert(rest.skip(plen as int) =~= s@.skip(i as int + plen as int));
            }
            let ghost out_before = out@;
            out.append(to);
            proof {
                assert(out_before + (to@ + spec_replace(
                    s@.skip(i as int + plen as int),
                    pat@,
                    to@,
                )) =~= out@ + spec_replace(s@.skip(i as int + plen as int), pat@, to@));
            }
            i += plen;
        } else {
            proof {
                if i + plen <= slen {
                    assert(rest.subrange(0, plen as int) != pat@);
                } else {
                    assert(rest.len() < plen);
                }
                assert(rest[0] == s@[i as int]);
                assert(rest.skip(1) =~= s@.skip(i as int + 1));
            }
            let ghost out_before = out@;
            push_char(&mut out, s.get_char(i));
            proof {
                assert(out_before + (seq![s@[i as int]] + spec_replace(
                    s@.skip(i as int + 1),
                    pat@,
                    to@,
                )) =~= out@ + spec_replace(s@.skip(i as int + 1), pat@, to@));
            }
            i += 1;
        }
    }
    proof {
        assert(s@.skip(slen as int) =~= Seq::<char>::empty());
        assert(out@ + spec_replace(Seq::<char>::empty(), pat@, to@) =~= out@);
    }
    out
}

} // verus!
