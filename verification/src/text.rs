use vstd::prelude::*;
use vstd::string::StringSliceAdditionalSpecFns;

verus! {

/// Whether `b` is an ASCII whitespace byte (space, tab, line feed, form
/// feed or carriage return).
pub open spec fn is_ws_byte(b: u8) -> bool {
    b == 32 || b == 9 || b == 10 || b == 12 || b == 13
}

fn is_ws(b: u8) -> (r: bool)
    ensures
        r == is_ws_byte(b),
{
    b == 32 || b == 9 || b == 10 || b == 12 || b == 13
}

/// Whether the text consists of whitespace alone.
pub open spec fn is_blank(s: Seq<u8>) -> bool {
    forall|i: int| 0 <= i < s.len() ==> is_ws_byte(#[trigger] s[i])
}

/// Whether a string holds no visible character.
pub fn str_is_blank(s: &str) -> (r: bool)
    ensures
        r == is_blank(s.spec_bytes()),
{
    let bs = s.as_bytes();
    let n = bs.len();
    let mut i: usize = 0;
    while i < n
        invariant
            n == bs@.len(),
            bs@ == s.spec_bytes(),
            0 <= i <= n,
            forall|j: int| 0 <= j < i ==> is_ws_byte(#[trigger] bs@[j]),
        decreases n - i,
    {
        if !is_ws(bs[i]) {
            return false;
        }
        i = i + 1;
    }
    true
}

/// Whether two byte sequences are equal.
pub fn bytes_eq(a: &[u8], b: &[u8]) -> (r: bool)
    ensures
        r == (a@ == b@),
{
    let n = a.len();
    if n != b.len() {
        proof {
            assert(a@.len() != b@.len());
        }
        return false;
    }
    let mut i: usize = 0;
    while i < n
        invariant
            n == a@.len() == b@.len(),
            0 <= i <= n,
            forall|j: int| 0 <= j < i ==> a@[j] == b@[j],
        decreases n - i,
    {
        if a[i] != b[i] {
            return false;
        }
        i = i + 1;
    }
    proof {
        assert(a@ =~= b@);
    }
    true
}

/// Copies the bytes of a string.
pub fn bytes_of(s: &str) -> (r: Vec<u8>)
    ensures
        r@ == s.spec_bytes(),
{
    let bs = s.as_bytes();
    let mut out: Vec<u8> = Vec::new();
    let n = bs.len();
    let mut i: usize = 0;
    while i < n
        invariant
            n == bs@.len(),
            0 <= i <= n,
            out@ == bs@.subrange(0, i as int),
        decreases n - i,
    {
        out.push(bs[i]);
        proof {
            assert(out@ =~= bs@.subrange(0, i as int + 1));
        }
        i = i + 1;
    }
    proof {
        assert(bs@.subrange(0, n as int) =~= bs@);
    }
    out
}

/// `s` without leading whitespace.
pub open spec fn trim_start_bytes(s: Seq<u8>) -> Seq<u8>
    decreases s.len(),
{
    if s.len() > 0 && is_ws_byte(s.first()) {
        trim_start_bytes(s.drop_first())
    } else {
        s
    }
}

/// `s` without trailing whitespace.
pub open spec fn trim_end_bytes(s: Seq<u8>) -> Seq<u8>
    decreases s.len(),
{
    if s.len() > 0 && is_ws_byte(s.last()) {
        trim_end_bytes(s.drop_last())
    } else {
        s
    }
}

/// `s` without leading and trailing whitespace.
pub open spec fn trim_bytes(s: Seq<u8>) -> Seq<u8> {
    trim_end_bytes(trim_start_bytes(s))
}

proof fn lemma_trim_start_at(s: Seq<u8>, k: int)
    requires
        0 <= k <= s.len(),
        forall|i: int| 0 <= i < k ==> is_ws_byte(#[trigger] s[i]),
        k == s.len() || !is_ws_byte(s[k]),
    ensures
        trim_start_bytes(s) == s.subrange(k, s.len() as int),
    decreases k,
{
    if k == 0 {
        assert(s.subrange(0, s.len() as int) =~= s);
    } else {
        assert(is_ws_byte(s.first()));
        let t = s.drop_first();
        assert(t =~= s.subrange(1, s.len() as int));
        lemma_trim_start_at(t, k - 1);
        assert(t.subrange(k - 1, t.len() as int) =~= s.subrange(k, s.len() as int));
    }
}

proof fn lemma_trim_end_at(s: Seq<u8>, k: int)
    requires
        0 <= k <= s.len(),
        forall|i: int| k <= i < s.len() ==> is_ws_byte(#[trigger] s[i]),
        k == 0 || !is_ws_byte(s[k - 1]),
    ensures
        trim_end_bytes(s) == s.subrange(0, k),
    decreases s.len(),
{
    if k == s.len() {
        if s.len() == 0 || !is_ws_byte(s.last()) {
            assert(s.subrange(0, s.len() as int) =~= s);
        } else {
            assert(false);
        }
    } else {
        assert(is_ws_byte(s.last()));
        let t = s.drop_last();
        lemma_trim_end_at(t, k);
        assert(t.subrange(0, k) =~= s.subrange(0, k));
    }
}

/// Strips leading and trailing whitespace from a byte text.
pub fn trim(text: &Vec<u8>) -> (r: Vec<u8>)
    ensures
        r@ == trim_bytes(text@),
{
    let n = text.len();
    let mut lo: usize = 0;
    while lo < n && is_ws(text[lo])
        invariant
            n == text@.len(),
            0 <= lo <= n,
            forall|j: int| 0 <= j < lo ==> is_ws_byte(#[trigger] text@[j]),
        decreases n - lo,
    {
        lo = lo + 1;
    }
    let mut hi: usize = n;
    while hi > lo && is_ws(text[hi - 1])
        invariant
            n == text@.len(),
            lo <= hi <= n,
            forall|j: int| hi <= j < n ==> is_ws_byte(#[trigger] text@[j]),
        decreases hi,
    {
        hi = hi - 1;
    }
    let mut out: Vec<u8> = Vec::new();
    let mut i: usize = lo;
    while i < hi
        invariant
            n == text@.len(),
            lo <= i <= hi <= n,
            out@ == text@.subrange(lo as int, i as int),
        decreases hi - i,
    {
        out.push(text[i]);
        proof {
            assert(out@ =~= text@.subrange(lo as int, i as int + 1));
        }
        i = i + 1;
    }
    proof {
        lemma_trim_start_at(text@, lo as int);
        let mid = text@.subrange(lo as int, n as int);
        if hi == lo {
            lemma_trim_end_at(mid, 0);
        } else {
            lemma_trim_end_at(mid, hi - lo);
        }
        assert(mid.subrange(0, hi - lo) =~= text@.subrange(lo as int, hi as int));
    }
    out
}

/// How one byte is folded for hallucination matching: ASCII letters are kept
/// in lower case, whitespace becomes a plain space, everything else is
/// dropped.
pub open spec fn fold_byte(b: u8) -> Option<u8> {
    if 65 <= b <= 90 {
        Some((b + 32) as u8)
    } else if 97 <= b <= 122 {
        Some(b)
    } else if is_ws_byte(b) {
        Some(32u8)
    } else {
        None
    }
}

/// The text with every byte folded by `fold_byte`.
pub open spec fn folded(s: Seq<u8>) -> Seq<u8>
    decreases s.len(),
{
    if s.len() == 0 {
        Seq::empty()
    } else {
        let front = folded(s.drop_last());
        match fold_byte(s.last()) {
            Some(b) => front.push(b),
            None => front,
        }
    }
}

/// The text with runs of spaces collapsed to one and leading spaces
/// dropped.
pub open spec fn squeezed(s: Seq<u8>) -> Seq<u8>
    decreases s.len(),
{
    if s.len() == 0 {
        Seq::empty()
    } else {
        let front = squeezed(s.drop_last());
        if s.last() == 32 {
            if front.len() == 0 || front.last() == 32 {
                front
            } else {
                front.push(32u8)
            }
        } else {
            front.push(s.last())
        }
    }
}

/// The normalized key of a transcript: lower-cased ASCII letters with
/// punctuation stripped and whitespace collapsed to single spaces, trimmed.
pub open spec fn normalized_key_spec(s: Seq<u8>) -> Seq<u8> {
    let q = squeezed(folded(s));
    if q.len() > 0 && q.last() == 32 {
        q.drop_last()
    } else {
        q
    }
}

fn fold_b(b: u8) -> (r: Option<u8>)
    ensures
        r == fold_byte(b),
{
    if 65 <= b && b <= 90 {
        Some(b + 32)
    } else if 97 <= b && b <= 122 {
        Some(b)
    } else if is_ws(b) {
        Some(32u8)
    } else {
        None
    }
}

/// Normalizes a transcript for hallucination matching: lower-cases ASCII
/// letters, drops punctuation and non-ASCII bytes, and collapses whitespace
/// runs into single spaces, trimmed at both ends.
pub fn normalized_key(text: &Vec<u8>) -> (r: Vec<u8>)
    ensures
        r@ == normalized_key_spec(text@),
{
    let n = text.len();
    let mut out: Vec<u8> = Vec::new();
    let mut pending: bool = false;
    let mut i: usize = 0;
    while i < n
        invariant
            n == text@.len(),
            0 <= i <= n,
            pending ==> squeezed(folded(text@.subrange(0, i as int))) == out@.push(32u8)
                && out@.len() > 0 && out@.last() != 32,
            !pending ==> squeezed(folded(text@.subrange(0, i as int))) == out@,
            out@.len() > 0 ==> out@.last() != 32,
        decreases n - i,
    {
        let b = text[i];
        proof {
            let pre = text@.subrange(0, i as int);
            let post = text@.subrange(0, i as int + 1);
            assert(post.drop_last() =~= pre);
            assert(post.last() == text@[i as int]);
            match fold_byte(text@[i as int]) {
                Option::Some(c) => {
                    assert(folded(post) == folded(pre).push(c));
                    assert(folded(pre).push(c).drop_last() =~= folded(pre));
                    assert(folded(pre).push(c).last() == c);
                },
                Option::None => {
                    assert(folded(post) == folded(pre));
                },
            }
        }
        match fold_b(b) {
            Option::None => {},
            Option::Some(c) => {
                if c == 32 {
                    if out.len() > 0 {
                        pending = true;
                    }
                } else {
                    if pending {
                        out.push(32);
                        pending = false;
                    }
                    out.push(c);
                }
            },
        }
        i = i + 1;
    }
    proof {
        assert(text@.subrange(0, n as int) =~= text@);
    }
    out
}

/// Whether a normalized key is one of the short canned phrases the engine
/// is known to hallucinate on silence.
pub open spec fn is_canned_key(k: Seq<u8>) -> bool {
    ||| k == "you".spec_bytes()
    ||| k == "thank you".spec_bytes()
    ||| k == "thanks".spec_bytes()
    ||| k == "thanks for watching".spec_bytes()
    ||| k == "bye".spec_bytes()
    ||| k == "okay".spec_bytes()
    ||| k == "so".spec_bytes()
    ||| k == "hmm".spec_bytes()
    ||| k == "um".spec_bytes()
}

/// Tests a normalized key against the canned hallucination phrases.
pub fn is_canned(key: &Vec<u8>) -> (r: bool)
    ensures
        r == is_canned_key(key@),
{
    let ks = key.as_slice();
    bytes_eq(ks, "you".as_bytes()) || bytes_eq(ks, "thank you".as_bytes()) || bytes_eq(
        ks,
        "thanks".as_bytes(),
    ) || bytes_eq(ks, "thanks for watching".as_bytes()) || bytes_eq(ks, "bye".as_bytes())
        || bytes_eq(ks, "okay".as_bytes()) || bytes_eq(ks, "so".as_bytes()) || bytes_eq(
        ks,
        "hmm".as_bytes(),
    ) || bytes_eq(ks, "um".as_bytes())
}

/// The segments of a decode, each trimmed, the nonempty ones joined by
/// single spaces.
pub open spec fn joined_segments(segs: Seq<Seq<u8>>) -> Seq<u8>
    decreases segs.len(),
{
    if segs.len() == 0 {
        Seq::empty()
    } else {
        let front = joined_segments(segs.drop_last());
        let t = trim_bytes(segs.last());
        if t.len() == 0 {
            front
        } else if front.len() == 0 {
            t
        } else {
            front + seq![32u8] + t
        }
    }
}

/// Joins decoded segments into the final transcript: each segment is
/// trimmed, empty segments are skipped, and the rest are separated by single
/// spaces.
pub fn assemble_text(segments: &Vec<Vec<u8>>) -> (r: Vec<u8>)
    ensures
        r@ == joined_segments(segments.deep_view()),
{
    let n = segments.len();
    let mut out: Vec<u8> = Vec::new();
    let mut i: usize = 0;
    while i < n
        invariant
            n == segments@.len(),
            0 <= i <= n,
            out@ == joined_segments(segments.deep_view().subrange(0, i as int)),
        decreases n - i,
    {
        proof {
            let pre = segments.deep_view().subrange(0, i as int);
            let post = segments.deep_view().subrange(0, i as int + 1);
            assert(post.drop_last() =~= pre);
            assert(post.last() == segments.deep_view()[i as int]);
            assert(segments.deep_view()[i as int] == segments@[i as int]@);
        }
        let t = trim(&segments[i]);
        if t.len() > 0 {
            if out.len() > 0 {
                out.push(32);
                let ghost mid = out@;
                out.extend_from_slice(t.as_slice());
                proof {
                    assert(out@ =~= joined_segments(
                        segments.deep_view().subrange(0, i as int + 1),
                    ));
                }
            } else {
                out.extend_from_slice(t.as_slice());
                proof {
                    assert(out@ =~= joined_segments(
                        segments.deep_view().subrange(0, i as int + 1),
                    ));
                }
            }
        }
        i = i + 1;
    }
    proof {
        assert(segments.deep_view().subrange(0, n as int) =~= segments.deep_view());
    }
    out
}

/// Whether `s` ends with `suffix`.
pub open spec fn has_suffix(s: Seq<u8>, suffix: Seq<u8>) -> bool {
    s.len() >= suffix.len() && s.subrange(s.len() - suffix.len(), s.len() as int) == suffix
}

/// Tests whether a string ends with the given suffix, byte for byte.
pub fn str_has_suffix(s: &str, suffix: &str) -> (r: bool)
    ensures
        r == has_suffix(s.spec_bytes(), suffix.spec_bytes()),
{
    let bs = s.as_bytes();
    let suf = suffix.as_bytes();
    if bs.len() < suf.len() {
        return false;
    }
    let start = bs.len() - suf.len();
    let tail = &bs[start..bs.len()];
    proof {
        assert(tail@ =~= bs@.subrange(start as int, bs@.len() as int));
    }
    bytes_eq(tail, suf)
}

} // verus!
