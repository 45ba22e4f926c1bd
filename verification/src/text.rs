use vstd::prelude::*;
use vstd::string::StrSliceExecFns;

verus! {

/// The Unicode `White_Space` property, written out: the exact set of
/// characters that splitting and trimming treat as blank.
pub open spec fn is_wspace(c: char) -> bool {
    let u = c as u32;
    (0x09 <= u && u <= 0x0D) || u == 0x20 || u == 0x85 || u == 0xA0 || u == 0x1680 || (0x2000
        <= u && u <= 0x200A) || u == 0x2028 || u == 0x2029 || u == 0x202F || u == 0x205F || u
        == 0x3000
}

fn is_space_char(c: char) -> (r: bool)
    ensures
        r == is_wspace(c),
{
    let u = c as u32;
    (0x09 <= u && u <= 0x0D) || u == 0x20 || u == 0x85 || u == 0xA0 || u == 0x1680 || (0x2000
        <= u && u <= 0x200A) || u == 0x2028 || u == 0x2029 || u == 0x202F || u == 0x205F || u
        == 0x3000
}

/// The characters of `s`, one element per `char`.
pub fn chars_of(s: &str) -> (r: Vec<char>)
    ensures
        r@ == s@,
{
    let n = s.unicode_len();
    let mut out: Vec<char> = Vec::new();
    let mut i: usize = 0;
    while i < n
        invariant
            i <= n,
            n == s@.len(),
            out@ == s@.take(i as int),
        decreases n - i,
    {
        out.push(s.get_char(i));
        proof {
            assert(out@ =~= s@.take(i + 1 as int));
        }
        i = i + 1;
    }
    proof {
        assert(s@.take(n as int) =~= s@);
    }
    out
}

/// Relies on `String`'s `FromIterator` over `char`: collecting yields a
/// string holding exactly the collected characters, in order.
#[verifier::external_body]
pub(crate) fn chars_to_string(v: Vec<char>) -> (r: String)
    ensures
        r@ == v@,
{
    v.into_iter().collect()
}

/// `s` without its leading blank characters.
pub open spec fn trim_start_spec(s: Seq<char>) -> Seq<char>
    decreases s.len(),
{
    if s.len() > 0 && is_wspace(s[0]) {
        trim_start_spec(s.drop_first())
    } else {
        s
    }
}

/// `s` without its trailing blank characters.
pub open spec fn trim_end_spec(s: Seq<char>) -> Seq<char>
    decreases s.len(),
{
    if s.len() > 0 && is_wspace(s.last()) {
        trim_end_spec(s.drop_last())
    } else {
        s
    }
}

/// `s` without leading and trailing blank characters.
pub open spec fn trim_spec(s: Seq<char>) -> Seq<char> {
    trim_end_spec(trim_start_spec(s))
}

proof fn lemma_trim_start_skip(s: Seq<char>, k: int)
    requires
        0 <= k <= s.len(),
        forall|j: int| 0 <= j < k ==> is_wspace(s[j]),
        k < s.len() ==> !is_wspace(s[k]),
    ensures
        trim_start_spec(s) == s.skip(k),
    decreases k,
{
    if k == 0 {
        assert(s.skip(0) =~= s);
    } else {
        let d = s.drop_first();
        assert(forall|j: int| 0 <= j < k - 1 ==> is_wspace(#[trigger] d[j]));
        lemma_trim_start_skip(d, k - 1);
        assert(d.skip(k - 1) =~= s.skip(k));
    }
}

proof fn lemma_trim_end_take(s: Seq<char>, k: int)
    requires
        0 <= k <= s.len(),
        forall|j: int| k <= j < s.len() ==> is_wspace(s[j]),
        k > 0 ==> !is_wspace(s[k - 1]),
    ensures
        trim_end_spec(s) == s.take(k),
    decreases s.len(),
{
    if k == s.len() {
        assert(s.take(k) =~= s);
    } else {
        let d = s.drop_last();
        assert(forall|j: int| k <= j < d.len() ==> is_wspace(#[trigger] d[j]));
        lemma_trim_end_take(d, k);
        assert(d.take(k) =~= s.take(k));
    }
}

/// `v` with leading and trailing blanks removed.
pub fn trim_chars(v: &Vec<char>) -> (r: Vec<char>)
    ensures
        r@ == trim_spec(v@),
{
    let n = v.len();
    let mut start: usize = 0;
    while start < n && is_space_char(v[start])
        invariant
            start <= n,
            n == v@.len(),
            forall|j: int| 0 <= j < start ==> is_wspace(v@[j]),
        decreases n - start,
    {
        start = start + 1;
    }
    proof {
        lemma_trim_start_skip(v@, start as int);
    }
    let mut end: usize = n;
    while end > start && is_space_char(v[end - 1])
        invariant
            start <= end <= n,
            n == v@.len(),
            forall|j: int| end <= j < n ==> is_wspace(v@[j]),
        decreases end,
    {
        end = end - 1;
    }
    proof {
        let tail = v@.skip(start as int);
        assert(forall|j: int|
            end - start <= j < tail.len() ==> is_wspace(#[trigger] tail[j]));
        lemma_trim_end_take(tail, end - start);
    }
    let mut out: Vec<char> = Vec::new();
    let mut i = start;
    while i < end
        invariant
            start <= i <= end <= n,
            n == v@.len(),
            out@ == v@.subrange(start as int, i as int),
        decreases end - i,
    {
        out.push(v[i]);
        proof {
            assert(out@ =~= v@.subrange(start as int, i + 1 as int));
        }
        i = i + 1;
    }
    proof {
        assert(out@ =~= v@.skip(start as int).take(end - start as int));
    }
    out
}

/// `s` with every occurrence of `c` removed and all else kept in order.
pub open spec fn remove_char_spec(s: Seq<char>, c: char) -> Seq<char>
    decreases s.len(),
{
    if s.len() == 0 {
        Seq::empty()
    } else if s.last() == c {
        remove_char_spec(s.drop_last(), c)
    } else {
        remove_char_spec(s.drop_last(), c).push(s.last())
    }
}

/// `v` with every occurrence of `c` removed.
pub fn remove_char(v: &Vec<char>, c: char) -> (r: Vec<char>)
    ensures
        r@ == remove_char_spec(v@, c),
{
    let n = v.len();
    let mut out: Vec<char> = Vec::new();
    let mut i: usize = 0;
    while i < n
        invariant
            i <= n,
            n == v@.len(),
            out@ == remove_char_spec(v@.take(i as int), c),
        decreases n - i,
    {
        proof {
            assert(v@.take(i + 1 as int).drop_last() =~= v@.take(i as int));
            assert(v@.take(i + 1 as int).last() == v@[i as int]);
        }
        if v[i] != c {
            out.push(v[i]);
        }
        i = i + 1;
    }
    proof {
        assert(v@.take(n as int) =~= v@);
    }
    out
}

/// `needle` occurs in `hay` starting at position `i`.
pub open spec fn contains_at(hay: Seq<char>, needle: Seq<char>, i: int) -> bool {
    0 <= i && i + needle.len() <= hay.len() && hay.subrange(i, i + needle.len()) == needle
}

/// `needle` occurs somewhere in `hay` as a contiguous run.
pub open spec fn seq_contains(hay: Seq<char>, needle: Seq<char>) -> bool {
    exists|i: int| contains_at(hay, needle, i)
}

/// Whether `needle` occurs in `hay` as a contiguous run of characters.
pub fn str_contains(hay: &str, needle: &str) -> (r: bool)
    ensures
        r == seq_contains(hay@, needle@),
{
    let hl = hay.unicode_len();
    let nl = needle.unicode_len();
    if nl > hl {
        proof {
            assert(forall|i: int| !contains_at(hay@, needle@, i));
        }
        return false;
    }
    if nl == 0 {
        proof {
            assert(hay@.subrange(0, 0) =~= needle@);
            assert(contains_at(hay@, needle@, 0));
        }
        return true;
    }
    let mut i: usize = 0;
    while i <= hl - nl
        invariant
            1 <= nl <= hl,
            hl == hay@.len(),
            nl == needle@.len(),
            i <= hl - nl + 1,
            forall|k: int| 0 <= k < i ==> !contains_at(hay@, needle@, k),
        decreases hl - nl + 1 - i,
    {
        let mut j: usize = 0;
        let mut mismatch = false;
        while j < nl
            invariant
                i + nl <= hl,
                hl == hay@.len(),
                nl == needle@.len(),
                j <= nl,
                !mismatch ==> forall|t: int| 0 <= t < j ==> hay@[i + t] == needle@[t],
                mismatch ==> !contains_at(hay@, needle@, i as int),
            decreases nl - j,
        {
            if hay.get_char(i + j) != needle.get_char(j) {
                proof {
                    if contains_at(hay@, needle@, i as int) {
                        assert(hay@.subrange(i as int, i + nl as int)[j as int] == hay@[i + j]);
                    }
                }
                mismatch = true;
                j = nl;
            } else {
                j = j + 1;
            }
        }
        if !mismatch {
            proof {
                assert(hay@.subrange(i as int, i + nl as int) =~= needle@);
                assert(contains_at(hay@, needle@, i as int));
            }
            return true;
        }
        i = i + 1;
    }
    proof {
        assert(forall|k: int| k > hl - nl ==> !contains_at(hay@, needle@, k));
    }
    false
}

/// The left-to-right state of splitting on blanks: the tokens already
/// finished, and the token being gathered.
pub open spec fn scan_tokens(s: Seq<char>) -> (Seq<Seq<char>>, Seq<char>)
    decreases s.len(),
{
    if s.len() == 0 {
        (Seq::empty(), Seq::empty())
    } else {
        let (done, cur) = scan_tokens(s.drop_last());
        let c = s.last();
        if is_wspace(c) {
            if cur.len() > 0 {
                (done.push(cur), Seq::empty())
            } else {
                (done, cur)
            }
        } else {
            (done, cur.push(c))
        }
    }
}

/// The maximal blank-separated tokens of `s`, in order.
pub open spec fn ws_tokens(s: Seq<char>) -> Seq<Seq<char>> {
    let (done, cur) = scan_tokens(s);
    if cur.len() > 0 {
        done.push(cur)
    } else {
        done
    }
}

/// The token sequences a token vector stands for.
pub open spec fn views_of(ts: Seq<Vec<char>>) -> Seq<Seq<char>> {
    Seq::new(ts.len(), |i: int| ts[i]@)
}

/// The maximal blank-separated tokens of `s`, in order.
pub fn split_tokens(s: &str) -> (r: Vec<Vec<char>>)
    ensures
        views_of(r@) == ws_tokens(s@),
{
    let n = s.unicode_len();
    let mut tokens: Vec<Vec<char>> = Vec::new();
    let mut cur: Vec<char> = Vec::new();
    let mut i: usize = 0;
    while i < n
        invariant
            i <= n,
            n == s@.len(),
            scan_tokens(s@.take(i as int)) == (views_of(tokens@), cur@),
        decreases n - i,
    {
        let c = s.get_char(i);
        proof {
            assert(s@.take(i + 1 as int).drop_last() =~= s@.take(i as int));
            assert(s@.take(i + 1 as int).last() == s@[i as int]);
        }
        if is_space_char(c) {
            if cur.len() > 0 {
                let ghost old_tokens = tokens@;
                let ghost old_cur = cur@;
                tokens.push(cur);
                cur = Vec::new();
                proof {
                    assert(views_of(tokens@) =~= views_of(old_tokens).push(old_cur));
                }
            }
        } else {
            cur.push(c);
        }
        i = i + 1;
    }
    proof {
        assert(s@.take(n as int) =~= s@);
    }
    if cur.len() > 0 {
        let ghost old_tokens = tokens@;
        let ghost old_cur = cur@;
        tokens.push(cur);
        proof {
            assert(views_of(tokens@) =~= views_of(old_tokens).push(old_cur));
        }
    }
    tokens
}

} // verus!
