//! Whitespace trimming over unicode text.
//!
//! The pipeline's policy rules ("a translation is a failure when it is
//! empty after trimming", "an edited message is rejected when it is empty
//! after trimming") all reduce to the trimming function defined here, so
//! it is specified and verified in full.

use vstd::prelude::*;

verus! {

/// The unicode `White_Space` characters, the set that `str::trim` removes
/// at either end of a string.
pub open spec fn is_ws_char(c: char) -> bool {
    ||| (0x09 <= c as u32 && c as u32 <= 0x0D)
    ||| c as u32 == 0x20
    ||| c as u32 == 0x85
    ||| c as u32 == 0xA0
    ||| c as u32 == 0x1680
    ||| (0x2000 <= c as u32 && c as u32 <= 0x200A)
    ||| c as u32 == 0x2028
    ||| c as u32 == 0x2029
    ||| c as u32 == 0x202F
    ||| c as u32 == 0x205F
    ||| c as u32 == 0x3000
}

/// Every character of `s` is whitespace (vacuously true of the empty text).
pub open spec fn all_ws(s: Seq<char>) -> bool {
    forall|i: int| 0 <= i < s.len() ==> is_ws_char(#[trigger] s[i])
}

/// `s` without its leading whitespace.
pub open spec fn trim_front(s: Seq<char>) -> Seq<char>
    decreases s.len(),
{
    if s.len() == 0 {
        s
    } else if is_ws_char(s[0]) {
        trim_front(s.drop_first())
    } else {
        s
    }
}

/// `s` without its trailing whitespace.
pub open spec fn trim_back(s: Seq<char>) -> Seq<char>
    decreases s.len(),
{
    if s.len() == 0 {
        s
    } else if is_ws_char(s[s.len() - 1]) {
        trim_back(s.drop_last())
    } else {
        s
    }
}

/// `s` without leading and trailing whitespace: what `str::trim` leaves.
pub open spec fn trim_spec(s: Seq<char>) -> Seq<char> {
    trim_back(trim_front(s))
}

/// Decides `is_ws_char`.
pub fn is_ws(c: char) -> (r: bool)
    ensures
        r == is_ws_char(c),
{
    let u = c as u32;
    (0x09 <= u && u <= 0x0D) || u == 0x20 || u == 0x85 || u == 0xA0 || u == 0x1680 || (0x2000
        <= u && u <= 0x200A) || u == 0x2028 || u == 0x2029 || u == 0x202F || u == 0x205F || u
        == 0x3000
}

/// `trim_front` keeps the suffix that starts at the first non-whitespace
/// character.
proof fn lemma_trim_front_at(s: Seq<char>, a: int)
    requires
        0 <= a <= s.len(),
        forall|i: int| 0 <= i < a ==> is_ws_char(#[trigger] s[i]),
        a < s.len() ==> !is_ws_char(s[a]),
    ensures
        trim_front(s) =~= s.subrange(a, s.len() as int),
    decreases a,
{
    if a == 0 {
        if s.len() == 0 {
            assert(trim_front(s) =~= s.subrange(0, s.len() as int));
        } else {
            assert(trim_front(s) == s);
            assert(s =~= s.subrange(0, s.len() as int));
        }
    } else {
        assert(is_ws_char(s[0]));
        let d = s.drop_first();
        assert(forall|i: int| 0 <= i < a - 1 ==> is_ws_char(#[trigger] d[i]));
        lemma_trim_front_at(d, a - 1);
        assert(d.subrange(a - 1, d.len() as int) =~= s.subrange(a, s.len() as int));
    }
}

/// `trim_back` keeps the prefix that ends at the last non-whitespace
/// character.
proof fn lemma_trim_back_at(s: Seq<char>, b: int)
    requires
        0 <= b <= s.len(),
        forall|i: int| b <= i < s.len() ==> is_ws_char(#[trigger] s[i]),
        b > 0 ==> !is_ws_char(s[b - 1]),
    ensures
        trim_back(s) =~= s.subrange(0, b),
    decreases s.len() - b,
{
    if b == s.len() {
        if s.len() == 0 {
            assert(trim_back(s) =~= s.subrange(0, b));
        } else {
            assert(trim_back(s) == s);
            assert(s =~= s.subrange(0, b));
        }
    } else {
        assert(is_ws_char(s[s.len() - 1]));
        let d = s.drop_last();
        lemma_trim_back_at(d, b);
        assert(d.subrange(0, b) =~= s.subrange(0, b));
    }
}

/// A trimmed text is empty exactly when the input was all whitespace.
pub proof fn lemma_trim_empty_iff_all_ws(s: Seq<char>)
    ensures
        trim_spec(s).len() == 0 <==> all_ws(s),
    decreases s.len(),
{
    if s.len() == 0 {
    } else if is_ws_char(s[0]) {
        lemma_trim_empty_iff_all_ws(s.drop_first());
        let d = s.drop_first();
        assert(all_ws(d) ==> all_ws(s)) by {
            if all_ws(d) {
                assert forall|i: int| 0 <= i < s.len() implies is_ws_char(#[trigger] s[i]) by {
                    if i > 0 {
                        assert(s[i] == d[i - 1]);
                    }
                }
            }
        }
        assert(all_ws(s) ==> all_ws(d));
    } else {
        assert(trim_front(s) == s);
        assert(!all_ws(s));
        if trim_back(s).len() == 0 {
            lemma_trim_back_keeps_first(s);
        }
    }
}

/// When the first character is not whitespace, `trim_back` keeps a
/// non-empty result whose first character is that one.
proof fn lemma_trim_back_keeps_first(s: Seq<char>)
    requires
        s.len() > 0,
        !is_ws_char(s[0]),
    ensures
        trim_back(s).len() > 0,
        trim_back(s)[0] == s[0],
    decreases s.len(),
{
    if is_ws_char(s[s.len() - 1]) {
        assert(s.len() >= 2);
        lemma_trim_back_keeps_first(s.drop_last());
    }
}

/// A trimmed text starts and ends with non-whitespace, so trimming it
/// again changes nothing.
pub proof fn lemma_trim_idempotent(s: Seq<char>)
    ensures
        trim_spec(trim_spec(s)) =~= trim_spec(s),
{
    let t = trim_spec(s);
    lemma_trim_front_props(s);
    lemma_trim_back_props(trim_front(s));
    if t.len() == 0 {
        assert(trim_front(t) =~= t);
        assert(trim_back(t) =~= t);
    } else {
        assert(!is_ws_char(t[0]));
        assert(trim_front(t) == t);
        assert(!is_ws_char(t[t.len() - 1]));
        assert(trim_back(t) == t);
    }
}

/// `trim_front` leaves a text that is empty or starts with non-whitespace,
/// and never touches the tail end.
proof fn lemma_trim_front_props(s: Seq<char>)
    ensures
        trim_front(s).len() > 0 ==> !is_ws_char(trim_front(s)[0]),
        trim_front(s).len() > 0 ==> trim_front(s)[trim_front(s).len() - 1] == s[s.len() - 1],
        trim_back(trim_front(s)).len() > 0 ==> !is_ws_char(trim_back(trim_front(s))[0]),
    decreases s.len(),
{
    if s.len() == 0 {
    } else if is_ws_char(s[0]) {
        lemma_trim_front_props(s.drop_first());
    } else {
        if trim_back(s).len() > 0 {
            lemma_trim_back_keeps_first(s);
        }
    }
}

/// `trim_back` leaves a text that is empty or ends with non-whitespace.
proof fn lemma_trim_back_props(s: Seq<char>)
    ensures
        trim_back(s).len() > 0 ==> !is_ws_char(trim_back(s)[trim_back(s).len() - 1]),
    decreases s.len(),
{
    if s.len() == 0 {
    } else if is_ws_char(s[s.len() - 1]) {
        lemma_trim_back_props(s.drop_last());
    }
}

/// Removes leading and trailing whitespace, as `str::trim` does.
pub fn trim(s: &str) -> (r: String)
    ensures
        r@ =~= trim_spec(s@),
{
    let n = s.unicode_len();
    let mut start: usize = 0;
    while start < n && is_ws(s.get_char(start))
        invariant
            0 <= start <= n,
            n == s@.len(),
            forall|i: int| 0 <= i < start ==> is_ws_char(#[trigger] s@[i]),
        decreases n - start,
    {
        start = start + 1;
    }
    let mut end: usize = n;
    while end > start && is_ws(s.get_char(end - 1))
        invariant
            start <= end <= n,
            n == s@.len(),
            forall|i: int| 0 <= i < start ==> is_ws_char(#[trigger] s@[i]),
            start < s@.len() ==> !is_ws_char(s@[start as int]),
            forall|i: int| end <= i < n ==> is_ws_char(#[trigger] s@[i]),
        decreases end,
    {
        end = end - 1;
    }
    let out = s.substring_char(start, end);
    proof {
        lemma_trim_front_at(s@, start as int);
        let f = s@.subrange(start as int, s@.len() as int);
        lemma_trim_back_at(f, end - start);
        assert(f.subrange(0, end - start) =~= s@.subrange(start as int, end as int));
    }
    String::from_str(out)
}

} // verus!
