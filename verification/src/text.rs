//! Text utilities shared by the library: character whitespace, trimming,
//! substring search, concatenation and path joining.
use vstd::prelude::*;
use vstd::string::StrSliceExecFns;
use vstd::string::StringExecFns;

verus! {

/// The Unicode `White_Space` property, which `char::is_whitespace` follows.
pub open spec fn is_white_space(c: char) -> bool {
    let u = c as u32;
    ||| (0x09 <= u && u <= 0x0d)
    ||| u == 0x20
    ||| u == 0x85
    ||| u == 0xa0
    ||| u == 0x1680
    ||| (0x2000 <= u && u <= 0x200a)
    ||| u == 0x2028
    ||| u == 0x2029
    ||| u == 0x202f
    ||| u == 0x205f
    ||| u == 0x3000
}

/// Drops the leading whitespace of a text.
pub open spec fn trim_start(s: Seq<char>) -> Seq<char>
    decreases s.len(),
{
    if s.len() > 0 && is_white_space(s[0]) {
        trim_start(s.drop_first())
    } else {
        s
    }
}

/// Drops the trailing whitespace of a text.
pub open spec fn trim_end(s: Seq<char>) -> Seq<char>
    decreases s.len(),
{
    if s.len() > 0 && is_white_space(s.last()) {
        trim_end(s.drop_last())
    } else {
        s
    }
}

/// A text without its leading and trailing whitespace, as `str::trim` gives it.
pub open spec fn trim(s: Seq<char>) -> Seq<char> {
    trim_end(trim_start(s))
}

/// `needle` occurs in `hay` at position `i`.
pub open spec fn occurs_at(hay: Seq<char>, needle: Seq<char>, i: int) -> bool {
    0 <= i && i + needle.len() <= hay.len() && hay.subrange(i, i + needle.len()) == needle
}

/// `needle` occurs somewhere in `hay`.
pub open spec fn contains(hay: Seq<char>, needle: Seq<char>) -> bool {
    exists|i: int| occurs_at(hay, needle, i)
}

/// Whether a character is whitespace in the sense of Unicode `White_Space`.
pub fn is_whitespace(c: char) -> (res: bool)
    ensures
        res == is_white_space(c),
{
    let u = c as u32;
    (0x09 <= u && u <= 0x0d) || u == 0x20 || u == 0x85 || u == 0xa0 || u == 0x1680 || (0x2000
        <= u && u <= 0x200a) || u == 0x2028 || u == 0x2029 || u == 0x202f || u == 0x205f || u
        == 0x3000
}

proof fn lemma_trim_start_step(s: Seq<char>, i: int)
    requires
        0 <= i < s.len(),
        is_white_space(s[i]),
    ensures
        trim_start(s.subrange(i, s.len() as int)) == trim_start(s.subrange(i + 1, s.len() as int)),
{
    let t = s.subrange(i, s.len() as int);
    assert(t.drop_first() =~= s.subrange(i + 1, s.len() as int));
}

proof fn lemma_trim_end_step(s: Seq<char>, j: int)
    requires
        0 < j <= s.len(),
        is_white_space(s[j - 1]),
    ensures
        trim_end(s.subrange(0, j)) == trim_end(s.subrange(0, j - 1)),
{
    let t = s.subrange(0, j);
    assert(t.drop_last() =~= s.subrange(0, j - 1));
}

/// Copies a text without its leading and trailing whitespace.
pub fn trimmed(s: &str) -> (res: String)
    ensures
        res@ == trim(s@),
{
    let n = s.unicode_len();
    let mut i: usize = 0;
    assert(s@.subrange(0, n as int) =~= s@);
    while i < n && is_whitespace(s.get_char(i))
        invariant
            n == s@.len(),
            i <= n,
            trim_start(s@) == trim_start(s@.subrange(i as int, n as int)),
        decreases n - i,
    {
        proof {
            lemma_trim_start_step(s@, i as int);
        }
        i = i + 1;
    }
    assert(s@.subrange(0, n as int) =~= s@);
    let ghost rest = s@.subrange(i as int, n as int);
    proof {
        if i < n {
            assert(rest[0] == s@[i as int]);
        }
        assert(trim_start(s@) == rest);
    }
    let mut j: usize = n;
    assert(rest.subrange(0, n - i) =~= rest);
    while j > i && is_whitespace(s.get_char(j - 1))
        invariant
            n == s@.len(),
            i <= j <= n,
            rest == s@.subrange(i as int, n as int),
            trim_end(rest) == trim_end(rest.subrange(0, j - i)),
        decreases j,
    {
        proof {
            assert(rest.subrange(0, j - i)[j - i - 1] == s@[j - 1]);
            lemma_trim_end_step(rest, j - i);
        }
        j = j - 1;
    }
    proof {
        let r = rest.subrange(0, j - i);
        assert(rest.subrange(0, n - i) =~= rest);
        if j > i {
            assert(r.last() == s@[j - 1]);
        }
        assert(trim_end(r) == r);
        assert(r =~= s@.subrange(i as int, j as int));
    }
    let sub = s.substring_char(i, j);
    String::from_str(sub)
}

/// Whether `needle` occurs in `hay`.
pub fn contains_text(hay: &str, needle: &str) -> (res: bool)
    ensures
        res == contains(hay@, needle@),
{
    let n = hay.unicode_len();
    let m = needle.unicode_len();
    if m > n {
        proof {
            assert forall|i: int| !occurs_at(hay@, needle@, i) by {}
        }
        return false;
    }
    let mut i: usize = 0;
    while i <= n - m
        invariant
            n == hay@.len(),
            m == needle@.len(),
            m <= n,
            i <= n - m + 1,
            forall|k: int| 0 <= k < i ==> !occurs_at(hay@, needle@, k),
        decreases n - m + 1 - i,
    {
        let mut j: usize = 0;
        let mut same = true;
        while j < m && same
            invariant
                n == hay@.len(),
                m == needle@.len(),
                i + m <= n,
                j <= m,
                same ==> forall|k: int| 0 <= k < j ==> hay@[i + k] == needle@[k],
                !same ==> exists|k: int| 0 <= k < m && hay@[i + k] != needle@[k],
            decreases m - j + (if same { 1int } else { 0int }),
        {
            if hay.get_char(i + j) != needle.get_char(j) {
                same = false;
            } else {
                j = j + 1;
            }
        }
        if same {
            proof {
                assert(hay@.subrange(i as int, i + m) =~= needle@);
                assert(occurs_at(hay@, needle@, i as int));
            }
            return true;
        }
        proof {
            let k = choose|k: int| 0 <= k < m && hay@[i + k] != needle@[k];
            assert(hay@.subrange(i as int, i + m)[k] == hay@[i + k]);
            assert(!occurs_at(hay@, needle@, i as int));
        }
        i = i + 1;
    }
    proof {
        assert forall|k: int| !occurs_at(hay@, needle@, k) by {
            if 0 <= k < i {
            } else if k >= i {
                assert(k + m > n);
            }
        }
    }
    false
}

/// Concatenates two texts.
pub fn concat2(a: &str, b: &str) -> (res: String)
    ensures
        res@ == a@ + b@,
{
    let mut s = String::from_str(a);
    s.append(b);
    s
}

/// Concatenates three texts.
pub fn concat3(a: &str, b: &str, c: &str) -> (res: String)
    ensures
        res@ == a@ + b@ + c@,
{
    let mut s = String::from_str(a);
    s.append(b);
    s.append(c);
    s
}

/// Appends a character at the end of a string (`String::push`).
#[verifier::external_body]
pub(crate) fn push_char(s: &mut String, c: char)
    ensures
        final(s)@ == old(s)@.push(c),
{
    s.push(c)
}

/// Removes and returns the last character of a string (`String::pop`).
#[verifier::external_body]
pub(crate) fn pop_char(s: &mut String) -> (res: Option<char>)
    ensures
        old(s)@.len() == 0 ==> res is None && final(s)@ == old(s)@,
        old(s)@.len() > 0 ==> res == Some(old(s)@.last()) && final(s)@ == old(s)@.drop_last(),
{
    s.pop()
}

/// The path of `component` under `base`, as `Path::join` forms it for a
/// relative component: a separator is put between them unless `base` is empty
/// or already ends with one.
pub open spec fn join_path(base: Seq<char>, component: Seq<char>) -> Seq<char> {
    if base.len() == 0 || base.last() == '/' {
        base + component
    } else {
        base + seq!['/'] + component
    }
}

/// Joins a relative path component onto a base path.
pub fn join_path_text(base: &str, component: &str) -> (res: String)
    ensures
        res@ == join_path(base@, component@),
{
    let n = base.unicode_len();
    if n == 0 || base.get_char(n - 1) == '/' {
        concat2(base, component)
    } else {
        let mut s = String::from_str(base);
        push_char(&mut s, '/');
        s.append(component);
        s
    }
}

} // verus!
