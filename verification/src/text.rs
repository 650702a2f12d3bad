//! Whitespace and trimming over sequences of characters.

use vstd::prelude::*;
use vstd::std_specs::iter::IteratorSpec;

verus! {

/// Whether `c` carries the Unicode property `White_Space`.
pub open spec fn is_whitespace(c: char) -> bool {
    let n = c as u32;
    ||| 0x09 <= n <= 0x0D
    ||| n == 0x20
    ||| n == 0x85
    ||| n == 0xA0
    ||| n == 0x1680
    ||| 0x2000 <= n <= 0x200A
    ||| n == 0x2028
    ||| n == 0x2029
    ||| n == 0x202F
    ||| n == 0x205F
    ||| n == 0x3000
}

/// Decides `is_whitespace` on a character.
pub fn char_is_whitespace(c: char) -> (b: bool)
    ensures
        b == is_whitespace(c),
{
    let n: u32 = c as u32;
    (0x09 <= n && n <= 0x0D) || n == 0x20 || n == 0x85 || n == 0xA0 || n == 0x1680 || (0x2000 <= n
        && n <= 0x200A) || n == 0x2028 || n == 0x2029 || n == 0x202F || n == 0x205F || n == 0x3000
}

/// The characters of `s`, in order.
pub fn chars_of(s: &str) -> (v: Vec<char>)
    ensures
        v@ == s@,
{
    broadcast use vstd::string::group_string_axioms;

    let mut it = s.chars();
    let mut v: Vec<char> = Vec::new();
    loop
        invariant
            it.obeys_prophetic_iter_laws(),
            it.decrease() is Some,
            v@ + it.remaining() == s@,
        ensures
            v@ == s@,
        decreases it.decrease()->0,
    {
        match it.next() {
            Some(c) => {
                v.push(c);
            },
            None => {
                assert(v@ + it.remaining() =~= v@);
                break ;
            },
        }
    }
    v
}

/// `s` without its leading whitespace.
pub open spec fn trim_start(s: Seq<char>) -> Seq<char>
    decreases s.len(),
{
    if s.len() > 0 && is_whitespace(s.first()) {
        trim_start(s.drop_first())
    } else {
        s
    }
}

/// `s` without its trailing whitespace.
pub open spec fn trim_end(s: Seq<char>) -> Seq<char>
    decreases s.len(),
{
    if s.len() > 0 && is_whitespace(s.last()) {
        trim_end(s.drop_last())
    } else {
        s
    }
}

/// `s` without its leading and trailing whitespace.
pub open spec fn trimmed(s: Seq<char>) -> Seq<char> {
    trim_end(trim_start(s))
}

/// Every character of `s` is whitespace.
pub open spec fn all_whitespace(s: Seq<char>) -> bool {
    forall|i: int| 0 <= i < s.len() ==> is_whitespace(#[trigger] s[i])
}

/// `s` neither begins nor ends with whitespace.
pub open spec fn is_trim(s: Seq<char>) -> bool {
    s.len() > 0 ==> !is_whitespace(s.first()) && !is_whitespace(s.last())
}

/// Leading whitespace ends at the first character that is not whitespace.
pub proof fn lemma_trim_start_at(s: Seq<char>, k: int)
    requires
        0 <= k <= s.len(),
        all_whitespace(s.subrange(0, k)),
        k < s.len() ==> !is_whitespace(s[k]),
    ensures
        trim_start(s) == s.subrange(k, s.len() as int),
    decreases k,
{
    if k == 0 {
        assert(s.subrange(0, s.len() as int) =~= s);
    } else {
        assert(s.subrange(0, k)[0] == s[0]);
        let t = s.drop_first();
        assert forall|i: int| 0 <= i < k - 1 implies is_whitespace(
            #[trigger] t.subrange(0, k - 1)[i],
        ) by {
            assert(t.subrange(0, k - 1)[i] == s.subrange(0, k)[i + 1]);
        }
        lemma_trim_start_at(t, k - 1);
        assert(t.subrange(k - 1, t.len() as int) =~= s.subrange(k, s.len() as int));
    }
}

/// Trailing whitespace begins after the last character that is not whitespace.
pub proof fn lemma_trim_end_at(s: Seq<char>, e: int)
    requires
        0 <= e <= s.len(),
        all_whitespace(s.subrange(e, s.len() as int)),
        e > 0 ==> !is_whitespace(s[e - 1]),
    ensures
        trim_end(s) == s.subrange(0, e),
    decreases s.len() - e,
{
    if e == s.len() {
        assert(s.subrange(0, e) =~= s);
    } else {
        let n = s.len() as int;
        assert(s.subrange(e, n)[n - 1 - e] == s.last());
        let t = s.drop_last();
        assert forall|i: int| 0 <= i < n - 1 - e implies is_whitespace(
            #[trigger] t.subrange(e, n - 1)[i],
        ) by {
            assert(t.subrange(e, n - 1)[i] == s.subrange(e, n)[i]);
        }
        lemma_trim_end_at(t, e);
        assert(t.subrange(0, e) =~= s.subrange(0, e));
    }
}

/// `a` and `b` bound the trimmed part of `s`: whitespace alone lies before
/// `a` and from `b` on, and the part between them, unless it is empty, begins
/// and ends with a character that is not whitespace. Where `s` holds nothing
/// but whitespace, both are its length.
pub open spec fn trims_to(s: Seq<char>, a: int, b: int) -> bool {
    &&& 0 <= a <= b <= s.len()
    &&& all_whitespace(s.subrange(0, a))
    &&& all_whitespace(s.subrange(b, s.len() as int))
    &&& a < b ==> !is_whitespace(s[a]) && !is_whitespace(s[b - 1])
    &&& a == b ==> a == s.len()
}

/// Bounds that satisfy `trims_to` cut out the trimmed sequence.
pub proof fn lemma_trimmed_at(s: Seq<char>, a: int, b: int)
    requires
        trims_to(s, a, b),
    ensures
        trimmed(s) == s.subrange(a, b),
{
    let n = s.len() as int;
    let rest = s.subrange(a, n);
    lemma_trim_start_at(s, a);
    if a == b {
        assert(rest =~= s.subrange(a, b));
    } else {
        assert forall|i: int| 0 <= i < n - b implies is_whitespace(
            #[trigger] rest.subrange(b - a, n - a)[i],
        ) by {
            assert(rest.subrange(b - a, n - a)[i] == s.subrange(b, n)[i]);
        }
        assert(rest[b - a - 1] == s[b - 1]);
        lemma_trim_end_at(rest, b - a);
        assert(rest.subrange(0, b - a) =~= s.subrange(a, b));
    }
}

/// Every sequence has bounds that satisfy `trims_to`.
pub proof fn lemma_trim_bounds_exist(s: Seq<char>) -> (r: (int, int))
    ensures
        trims_to(s, r.0, r.1),
        trimmed(s) == s.subrange(r.0, r.1),
    decreases s.len(),
{
    let n = s.len() as int;
    let r = if n == 0 {
        (0int, 0int)
    } else if is_whitespace(s.first()) {
        let t = s.drop_first();
        let (a, b) = lemma_trim_bounds_exist(t);
        assert forall|i: int| 0 <= i < a + 1 implies is_whitespace(
            #[trigger] s.subrange(0, a + 1)[i],
        ) by {
            if i > 0 {
                assert(t.subrange(0, a)[i - 1] == s[i]);
            }
        }
        assert(t.subrange(b, n - 1) =~= s.subrange(b + 1, n));
        (a + 1, b + 1)
    } else if is_whitespace(s.last()) {
        let t = s.drop_last();
        let (a, b) = lemma_trim_bounds_exist(t);
        // `t` begins with a character that is not whitespace.
        assert(a == 0) by {
            if a > 0 {
                assert(t.subrange(0, a)[0] == s[0]);
            }
        }
        assert(b > 0);
        assert(s.subrange(0, 0) =~= Seq::<char>::empty());
        assert forall|i: int| 0 <= i < n - b implies is_whitespace(
            #[trigger] s.subrange(b, n)[i],
        ) by {
            if i < n - 1 - b {
                assert(t.subrange(b, n - 1)[i] == s[b + i]);
            }
        }
        (0int, b)
    } else {
        assert(s.subrange(0, 0) =~= Seq::<char>::empty());
        assert(s.subrange(n, n) =~= Seq::<char>::empty());
        (0int, n)
    };
    lemma_trimmed_at(s, r.0, r.1);
    r
}

/// Where the trimmed part of `v` begins and ends: the index of its first
/// character that is not whitespace, and one past the index of its last.
/// Both are the length of `v` where it holds nothing but whitespace.
pub fn trim_bounds(v: &Vec<char>) -> (r: (usize, usize))
    ensures
        trims_to(v@, r.0 as int, r.1 as int),
        trimmed(v@) == v@.subrange(r.0 as int, r.1 as int),
{
    let n: usize = v.len();
    let mut start: usize = 0;
    while start < n && char_is_whitespace(v[start])
        invariant
            start <= n == v@.len(),
            all_whitespace(v@.subrange(0, start as int)),
        decreases n - start,
    {
        start = start + 1;
        assert forall|i: int| 0 <= i < start implies is_whitespace(
            #[trigger] v@.subrange(0, start as int)[i],
        ) by {
            if i < start - 1 {
                assert(v@.subrange(0, start - 1)[i] == v@[i]);
            }
        }
    }
    let mut end: usize = n;
    while end > start && char_is_whitespace(v[end - 1])
        invariant
            start <= end <= n == v@.len(),
            all_whitespace(v@.subrange(end as int, n as int)),
        decreases end,
    {
        end = end - 1;
        assert forall|i: int| 0 <= i < n - end implies is_whitespace(
            #[trigger] v@.subrange(end as int, n as int)[i],
        ) by {
            if i > 0 {
                assert(v@.subrange(end + 1, n as int)[i - 1] == v@[end + i]);
            }
        }
    }
    proof {
        if start == end && start < n {
            // The first loop stopped on a character that is not whitespace and
            // the second ran down to it, which it cannot have passed.
            assert(v@.subrange(end as int, n as int)[0] == v@[start as int]);
        }
        lemma_trimmed_at(v@, start as int, end as int);
    }
    (start, end)
}

/// `s` without its leading and trailing whitespace, as a slice of `s`.
pub fn trim(s: &str) -> (r: &str)
    ensures
        r@ == trimmed(s@),
{
    let v = chars_of(s);
    let (start, end) = trim_bounds(&v);
    s.substring_char(start, end)
}

/// Trimming leaves neither leading nor trailing whitespace.
pub proof fn lemma_trimmed_is_trim(s: Seq<char>)
    ensures
        is_trim(trimmed(s)),
{
    let (a, b) = lemma_trim_bounds_exist(s);
}

/// Trimming changes nothing in a sequence that neither begins nor ends with
/// whitespace, and changes every other sequence.
pub proof fn lemma_trimmed_fixed_point(s: Seq<char>)
    ensures
        is_trim(s) <==> trimmed(s) == s,
{
    if is_trim(s) {
        let n = s.len() as int;
        assert(s.subrange(0, 0) =~= Seq::<char>::empty());
        assert(s.subrange(n, n) =~= Seq::<char>::empty());
        lemma_trimmed_at(s, 0, n);
        assert(s.subrange(0, n) =~= s);
    } else {
        lemma_trimmed_is_trim(s);
    }
}

/// Trimming twice is trimming once.
pub proof fn lemma_trimmed_idempotent(s: Seq<char>)
    ensures
        trimmed(trimmed(s)) == trimmed(s),
{
    lemma_trimmed_is_trim(s);
    lemma_trimmed_fixed_point(trimmed(s));
}

/// Whitespace before and after a sequence does not change what it trims to.
pub proof fn lemma_padding_ignored(before: Seq<char>, core: Seq<char>, after: Seq<char>)
    requires
        all_whitespace(before),
        all_whitespace(after),
    ensures
        trimmed(before + core + after) == trimmed(core),
{
    let s = before + core + after;
    let n = s.len() as int;
    let p = before.len() as int;
    let (a, b) = lemma_trim_bounds_exist(core);
    if a < b {
        assert forall|i: int| 0 <= i < p + a implies is_whitespace(
            #[trigger] s.subrange(0, p + a)[i],
        ) by {
            if i < p {
                assert(s[i] == before[i]);
            } else {
                assert(s[i] == core.subrange(0, a)[i - p]);
            }
        }
        assert forall|i: int| 0 <= i < n - (p + b) implies is_whitespace(
            #[trigger] s.subrange(p + b, n)[i],
        ) by {
            if i < core.len() - b {
                assert(s[p + b + i] == core.subrange(b, core.len() as int)[i]);
            } else {
                assert(s[p + b + i] == after[i - (core.len() - b)]);
            }
        }
        assert(s[p + a] == core[a]);
        assert(s[p + b - 1] == core[b - 1]);
        lemma_trimmed_at(s, p + a, p + b);
        assert(s.subrange(p + a, p + b) =~= core.subrange(a, b));
    } else {
        assert forall|i: int| 0 <= i < n implies is_whitespace(#[trigger] s.subrange(0, n)[i]) by {
            if i < p {
                assert(s[i] == before[i]);
            } else if i < p + core.len() {
                assert(s[i] == core.subrange(0, a)[i - p]);
            } else {
                assert(s[i] == after[i - p - core.len()]);
            }
        }
        assert(s.subrange(n, n) =~= Seq::<char>::empty());
        lemma_trimmed_at(s, n, n);
        assert(s.subrange(n, n) =~= core.subrange(a, b));
    }
}

/// A sequence is what it trims to, with whitespace alone before and after.
pub proof fn lemma_trimmed_splits(s: Seq<char>) -> (r: (Seq<char>, Seq<char>))
    ensures
        all_whitespace(r.0),
        all_whitespace(r.1),
        s == r.0 + trimmed(s) + r.1,
{
    let (a, b) = lemma_trim_bounds_exist(s);
    let r = (s.subrange(0, a), s.subrange(b, s.len() as int));
    assert(s =~= r.0 + s.subrange(a, b) + r.1);
    r
}

/// `core` between two runs of whitespace.
pub open spec fn is_padded(s: Seq<char>, before: Seq<char>, core: Seq<char>, after: Seq<char>) -> bool {
    &&& all_whitespace(before)
    &&& all_whitespace(after)
    &&& s == before + core + after
}

/// What trims to `target` is `target` between two runs of whitespace, and
/// nothing else, for a `target` that neither begins nor ends with whitespace.
pub proof fn lemma_trims_to_target(content: Seq<char>, target: Seq<char>)
    requires
        is_trim(target),
    ensures
        trimmed(content) == target <==> exists|before: Seq<char>, after: Seq<char>|
            is_padded(content, before, target, after),
{
    if trimmed(content) == target {
        let (before, after) = lemma_trimmed_splits(content);
        assert(is_padded(content, before, target, after));
    }
    if exists|before: Seq<char>, after: Seq<char>| is_padded(content, before, target, after) {
        let (before, after) = choose|before: Seq<char>, after: Seq<char>|
            is_padded(content, before, target, after);
        lemma_padding_ignored(before, target, after);
        lemma_trimmed_fixed_point(target);
    }
}

/// Nothing trims to a `target` that begins or ends with whitespace.
pub proof fn lemma_untrimmed_target_unreachable(content: Seq<char>, target: Seq<char>)
    requires
        !is_trim(target),
    ensures
        trimmed(content) != target,
{
    lemma_trimmed_is_trim(content);
}

} // verus!
