use vstd::prelude::*;
use vstd::std_specs::iter::IteratorSpec;

use crate::general::PipelineError;

verus! {

/// Whether `c` has Unicode's White_Space property, the set that `str::trim` removes.
pub open spec fn is_white_space(c: char) -> bool {
    let u = c as u32;
    (9 <= u && u <= 13) || u == 32 || u == 0x85 || u == 0xa0 || u == 0x1680 || (0x2000 <= u
        && u <= 0x200a) || u == 0x2028 || u == 0x2029 || u == 0x202f || u == 0x205f || u
        == 0x3000
}

/// The index of the first character at or after `i` that is not white space.
pub open spec fn trim_lo(s: Seq<char>, i: int) -> int
    decreases s.len() - i,
{
    if 0 <= i < s.len() && is_white_space(s[i]) {
        trim_lo(s, i + 1)
    } else {
        i
    }
}

/// The end of `s[lo..j]` once white space is taken off its end.
pub open spec fn trim_hi(s: Seq<char>, lo: int, j: int) -> int
    decreases j,
{
    if 0 <= lo < j <= s.len() && is_white_space(s[j - 1]) {
        trim_hi(s, lo, j - 1)
    } else {
        j
    }
}

/// `s` without white space at either end.
pub open spec fn trimmed(s: Seq<char>) -> Seq<char> {
    let lo = trim_lo(s, 0);
    s.subrange(lo, trim_hi(s, lo, s.len() as int))
}

/// Whether a code fence of three backticks starts at index `k` of `t`.
pub open spec fn fence_at(t: Seq<char>, k: int) -> bool {
    0 <= k && k + 3 <= t.len() && t[k] == '`' && t[k + 1] == '`' && t[k + 2] == '`'
}

/// The index of the first code fence at or after `i`, or the length of `t`.
pub open spec fn first_fence(t: Seq<char>, i: int) -> int
    decreases t.len() - i,
{
    if 0 <= i && i + 3 <= t.len() {
        if fence_at(t, i) {
            i
        } else {
            first_fence(t, i + 1)
        }
    } else {
        t.len() as int
    }
}

pub open spec fn is_opener(c: char) -> bool {
    c == '{' || c == '['
}

pub open spec fn closer_of(c: char) -> char {
    if c == '{' {
        '}'
    } else {
        ']'
    }
}

/// The index of the first `{` or `[` at or after `i`, or the length of `t`.
pub open spec fn first_opener(t: Seq<char>, i: int) -> int
    decreases t.len() - i,
{
    if 0 <= i < t.len() {
        if is_opener(t[i]) {
            i
        } else {
            first_opener(t, i + 1)
        }
    } else {
        t.len() as int
    }
}

/// The index of the last `c` before `j`, or -1.
pub open spec fn last_index_of(t: Seq<char>, c: char, j: int) -> int
    decreases j,
{
    if 0 < j <= t.len() {
        if t[j - 1] == c {
            j - 1
        } else {
            last_index_of(t, c, j - 1)
        }
    } else {
        -1
    }
}

/// The JSON payload of a response. The text is trimmed. Text that then opens
/// with `{` or `[` is the payload as it stands. Otherwise, where the text
/// holds a code fence, the payload is the part from the first `{` or `[`
/// after the fence marker to the last matching `}` or `]`; where it holds
/// none, or no such part, it is the trimmed text.
pub open spec fn json_slice(s: Seq<char>) -> Seq<char> {
    let t = trimmed(s);
    let f = first_fence(t, 0);
    if t.len() > 0 && is_opener(t[0]) {
        t
    } else if f < t.len() {
        let a = first_opener(t, f);
        if a < t.len() {
            let b = last_index_of(t, closer_of(t[a]), t.len() as int);
            if a < b {
                t.subrange(a, b + 1)
            } else {
                t
            }
        } else {
            t
        }
    } else {
        t
    }
}

/// Tells white space apart as `is_white_space` does.
pub fn white_space(c: char) -> (r: bool)
    ensures
        r == is_white_space(c),
{
    let u = c as u32;
    (9 <= u && u <= 13) || u == 32 || u == 0x85 || u == 0xa0 || u == 0x1680 || (0x2000 <= u
        && u <= 0x200a) || u == 0x2028 || u == 0x2029 || u == 0x202f || u == 0x205f || u
        == 0x3000
}

/// The characters of `s`, in order.
fn chars_of(s: &str) -> (r: Vec<char>)
    ensures
        r@ == s@,
{
    broadcast use vstd::string::group_string_axioms;

    let mut it = s.chars();
    let mut v: Vec<char> = Vec::new();
    loop
        invariant
            v@ + it.remaining() == s@,
            it.decrease() is Some,
        ensures
            v@ == s@,
        decreases it.decrease()->0,
    {
        match it.next() {
            Some(c) => {
                v.push(c);
            },
            None => {
                assert(v@ =~= s@);
                break;
            },
        }
    }
    v
}

/// Relies on String's FromIterator<&char>: the string of these characters, in order.
#[verifier::external_body]
fn string_of(cs: &Vec<char>) -> (r: String)
    ensures
        r@ == cs@,
{
    cs.iter().collect()
}

fn copy_range(v: &Vec<char>, from: usize, to: usize) -> (r: Vec<char>)
    requires
        from <= to <= v@.len(),
    ensures
        r@ == v@.subrange(from as int, to as int),
{
    let mut r: Vec<char> = Vec::new();
    let mut i: usize = from;
    while i < to
        invariant
            from <= i <= to,
            to <= v@.len(),
            r@ == v@.subrange(from as int, i as int),
        decreases to - i,
    {
        r.push(v[i]);
        i += 1;
        assert(r@ =~= v@.subrange(from as int, i as int));
    }
    r
}

/// Takes the JSON payload out of a generated response, as `json_slice` says.
pub fn extract_json_from_code_block(s: &str) -> (r: String)
    ensures
        r@ == json_slice(s@),
{
    let cs = chars_of(s);
    let n = cs.len();
    let mut lo: usize = 0;
    while lo < n && white_space(cs[lo])
        invariant
            n == cs@.len(),
            lo <= n,
            trim_lo(cs@, 0) == trim_lo(cs@, lo as int),
        decreases n - lo,
    {
        lo += 1;
    }
    let mut hi: usize = n;
    while hi > lo && white_space(cs[hi - 1])
        invariant
            n == cs@.len(),
            lo <= hi <= n,
            trim_hi(cs@, lo as int, n as int) == trim_hi(cs@, lo as int, hi as int),
        decreases hi,
    {
        hi -= 1;
    }
    let t = copy_range(&cs, lo, hi);
    assert(t@ == trimmed(s@));
    let m = t.len();
    if m > 0 && (t[0] == '{' || t[0] == '[') {
        return string_of(&t);
    }
    let mut f: usize = 0;
    while m - f >= 3 && !(t[f] == '`' && t[f + 1] == '`' && t[f + 2] == '`')
        invariant
            m == t@.len(),
            f <= m,
            first_fence(t@, 0) == first_fence(t@, f as int),
        decreases m - f,
    {
        f += 1;
    }
    if m - f >= 3 {
        let mut a: usize = f;
        while a < m && !(t[a] == '{' || t[a] == '[')
            invariant
                m == t@.len(),
                f <= a <= m,
                first_opener(t@, f as int) == first_opener(t@, a as int),
            decreases m - a,
        {
            a += 1;
        }
        if a < m {
            let close = if t[a] == '{' {
                '}'
            } else {
                ']'
            };
            let mut b: usize = m;
            while b > 0 && t[b - 1] != close
                invariant
                    m == t@.len(),
                    b <= m,
                    last_index_of(t@, close, m as int) == last_index_of(t@, close, b as int),
                decreases b,
            {
                b -= 1;
            }
            if b > 0 && a < b - 1 {
                let inner = copy_range(&t, a, b);
                return string_of(&inner);
            }
        }
    }
    string_of(&t)
}

/// Relies on serde_json::from_str::<Vec<String>>: whether the text is a JSON
/// array of strings, and which, depends on the text alone.
pub uninterp spec fn json_string_list(text: Seq<char>) -> Option<Seq<Seq<char>>>;

#[verifier::external_type_specification]
#[verifier::external_body]
pub struct ExJsonError(serde_json::Error);

/// Relies on serde_json::from_str::<Vec<String>>: the strings of a JSON array of strings.
#[verifier::external_body]
fn parse_string_list(text: &str) -> (r: Result<Vec<String>, serde_json::Error>)
    ensures
        r matches Ok(v) ==> json_string_list(text@) == Some(v.deep_view()),
        r is Err ==> json_string_list(text@) is None,
{
    serde_json::from_str::<Vec<String>>(text)
}

/// Decodes a response that should list strings, such as URLs.
pub fn decode_string_list(response: &str) -> (r: Result<Vec<String>, PipelineError>)
    ensures
        r matches Ok(v) ==> json_string_list(json_slice(response@)) == Some(v.deep_view()),
        r is Err <==> json_string_list(json_slice(response@)) is None,
        r matches Err(e) ==> e == PipelineError::DecodeFailed,
{
    let payload = extract_json_from_code_block(response);
    match parse_string_list(payload.as_str()) {
        Ok(v) => Ok(v),
        Err(_) => Err(PipelineError::DecodeFailed),
    }
}


proof fn lemma_first_opener_at(x: Seq<char>, k: int, i: int)
    requires
        0 <= i <= k < x.len(),
        is_opener(x[k]),
        forall|m: int| i <= m < k ==> !is_opener(#[trigger] x[m]),
    ensures
        first_opener(x, i) == k,
    decreases k - i,
{
    if i < k {
        lemma_first_opener_at(x, k, i + 1);
    }
}

proof fn lemma_last_index_at(x: Seq<char>, c: char, k: int, j: int)
    requires
        0 <= k < j <= x.len(),
        x[k] == c,
        forall|m: int| k < m < j ==> #[trigger] x[m] != c,
    ensures
        last_index_of(x, c, j) == k,
    decreases j,
{
    if j - 1 > k {
        lemma_last_index_at(x, c, k, j - 1);
    }
}

proof fn lemma_first_fence_at(x: Seq<char>, k: int, i: int)
    requires
        0 <= i <= k,
        fence_at(x, k),
        forall|m: int| i <= m < k ==> !#[trigger] fence_at(x, m),
    ensures
        first_fence(x, i) == k,
    decreases k - i,
{
    if i < k {
        lemma_first_fence_at(x, k, i + 1);
    }
}

/// A JSON object or array that stands in a fenced block, with prose before
/// the fence, on the fence line and after the block, is extracted exactly as
/// it was written: decoding the response then decodes that very text.
pub proof fn lemma_fenced_payload_round_trip(
    prose: Seq<char>,
    fence_line: Seq<char>,
    json: Seq<char>,
    tail: Seq<char>,
)
    requires
        prose.len() > 0 ==> !is_white_space(prose[0]) && !is_opener(prose[0]) && prose.last()
            != '`',
        forall|k: int| !#[trigger] fence_at(prose, k),
        fence_at(fence_line, 0),
        forall|m: int| 0 <= m < fence_line.len() ==> !is_opener(#[trigger] fence_line[m]),
        json.len() >= 2,
        is_opener(json[0]),
        json.last() == closer_of(json[0]),
        forall|m: int| 0 <= m < tail.len() ==> #[trigger] tail[m] != closer_of(json[0]),
        tail.len() > 0 ==> !is_white_space(tail.last()),
    ensures
        json_slice(prose + fence_line + json + tail) == json,
{
    let x = prose + fence_line + json + tail;
    let n = x.len() as int;
    let p = prose.len() as int;
    assert(x[0] == if p > 0 { prose[0] } else { fence_line[0] });
    assert(trim_lo(x, 0) == 0);
    assert(x.last() == if tail.len() > 0 { tail.last() } else { json.last() });
    assert(trim_hi(x, 0, n) == n);
    assert(trimmed(x) =~= x);
    assert(x[p] == fence_line[0] && x[p + 1] == fence_line[1] && x[p + 2] == fence_line[2]);
    assert forall|m: int| 0 <= m < p implies !#[trigger] fence_at(x, m) by {
        if m + 3 <= p {
            assert(x[m] == prose[m] && x[m + 1] == prose[m + 1] && x[m + 2] == prose[m + 2]);
            assert(!fence_at(prose, m));
        } else {
            assert(x[p - 1] == prose.last());
        }
    }
    lemma_first_fence_at(x, p, 0);
    let a = p + fence_line.len();
    let c = closer_of(json[0]);
    assert(x[a] == json[0]);
    assert forall|m: int| p <= m < a implies !is_opener(#[trigger] x[m]) by {
        assert(x[m] == fence_line[m - p]);
    }
    lemma_first_opener_at(x, a, p);
    let b = a + json.len() - 1;
    assert(x[b] == json.last());
    assert forall|m: int| b < m < n implies #[trigger] x[m] != c by {
        assert(x[m] == tail[m - b - 1]);
    }
    lemma_last_index_at(x, c, b, n);
    assert(x.subrange(a, b + 1) =~= json);
}

/// A JSON object or array given on its own, without white space round it,
/// even one whose strings hold a code fence, is extracted exactly as it was written.
pub proof fn lemma_bare_payload_round_trip(json: Seq<char>)
    requires
        json.len() >= 2,
        is_opener(json[0]),
        json.last() == closer_of(json[0]),
    ensures
        json_slice(json) == json,
{
    let n = json.len() as int;
    assert(trim_lo(json, 0) == 0);
    assert(trim_hi(json, 0, n) == n);
    assert(trimmed(json) =~= json);
}

proof fn lemma_trim_lo_bounds(s: Seq<char>, i: int)
    requires
        0 <= i <= s.len(),
    ensures
        i <= trim_lo(s, i) <= s.len(),
        trim_lo(s, i) < s.len() ==> !is_white_space(s[trim_lo(s, i)]),
    decreases s.len() - i,
{
    if i < s.len() && is_white_space(s[i]) {
        lemma_trim_lo_bounds(s, i + 1);
    }
}

proof fn lemma_trim_hi_bounds(s: Seq<char>, lo: int, j: int)
    requires
        0 <= lo <= j <= s.len(),
    ensures
        lo <= trim_hi(s, lo, j) <= j,
        trim_hi(s, lo, j) > lo ==> !is_white_space(s[trim_hi(s, lo, j) - 1]),
    decreases j,
{
    if lo < j && is_white_space(s[j - 1]) {
        lemma_trim_hi_bounds(s, lo, j - 1);
    }
}

/// Trimmed text has no white space at either end, so trimming it again
/// changes nothing.
proof fn lemma_trimmed_is_trimmed(s: Seq<char>)
    ensures
        trimmed(trimmed(s)) == trimmed(s),
{
    let lo = trim_lo(s, 0);
    lemma_trim_lo_bounds(s, 0);
    lemma_trim_hi_bounds(s, lo, s.len() as int);
    let t = trimmed(s);
    if t.len() > 0 {
        assert(t[0] == s[lo]);
        assert(t.last() == s[trim_hi(s, lo, s.len() as int) - 1]);
        assert(trim_lo(t, 0) == 0);
        assert(trim_hi(t, 0, t.len() as int) == t.len());
    }
    assert(trimmed(t) =~= t);
}

proof fn lemma_first_opener_is_opener(t: Seq<char>, i: int)
    requires
        0 <= i <= t.len(),
    ensures
        i <= first_opener(t, i) <= t.len(),
        first_opener(t, i) < t.len() ==> is_opener(t[first_opener(t, i)]),
    decreases t.len() - i,
{
    if i < t.len() && !is_opener(t[i]) {
        lemma_first_opener_is_opener(t, i + 1);
    }
}

proof fn lemma_last_index_is(t: Seq<char>, c: char, j: int)
    requires
        0 <= j <= t.len(),
    ensures
        -1 <= last_index_of(t, c, j) < j,
        last_index_of(t, c, j) >= 0 ==> t[last_index_of(t, c, j)] == c,
    decreases j,
{
    if 0 < j && t[j - 1] != c {
        lemma_last_index_is(t, c, j - 1);
    }
}

/// Extracting the payload of a payload gives it back unchanged.
pub proof fn lemma_extraction_idempotent(s: Seq<char>)
    ensures
        json_slice(json_slice(s)) == json_slice(s),
{
    let t = trimmed(s);
    lemma_trimmed_is_trimmed(s);
    let r = json_slice(s);
    if t.len() > 0 && is_opener(t[0]) {
        assert(r == t);
    } else {
        let f = first_fence(t, 0);
        if f < t.len() {
            assert(0 <= f) by {
                lemma_first_fence_nonneg(t, 0);
            }
            lemma_first_opener_is_opener(t, f);
            let a = first_opener(t, f);
            if a < t.len() {
                let c = closer_of(t[a]);
                lemma_last_index_is(t, c, t.len() as int);
                let b = last_index_of(t, c, t.len() as int);
                if a < b {
                    assert(r =~= t.subrange(a, b + 1));
                    assert(r[0] == t[a]);
                    assert(r.last() == t[b]);
                    assert(!is_white_space(r[0]));
                    assert(!is_white_space(r.last()));
                    assert(trim_lo(r, 0) == 0);
                    assert(trim_hi(r, 0, r.len() as int) == r.len());
                    assert(trimmed(r) =~= r);
                }
            }
        }
    }
}

proof fn lemma_first_fence_nonneg(t: Seq<char>, i: int)
    requires
        0 <= i,
    ensures
        first_fence(t, i) >= 0,
    decreases t.len() - i,
{
    if i + 3 <= t.len() && !fence_at(t, i) {
        lemma_first_fence_nonneg(t, i + 1);
    }
}

} // verus!
