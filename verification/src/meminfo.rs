//! Values read from the text of /proc/meminfo: the line that starts with a
//! key, its second word, read as a `u64`.

use vstd::prelude::*;

use crate::numbers::{parse_u64, parse_u64_opt};
use crate::planner::sub_chars;
use crate::text::{
    char_is_space, chars_of, is_prefix, is_space, lead_spaces, lemma_lead_spaces_char,
    matches_at, occurs_at, string_of,
};

verus! {

/// Where the line that starts at `i` ends: at the next '\n', or at the end
/// of `s`.
pub open spec fn line_end(s: Seq<char>, i: int) -> int
    decreases s.len() - i,
{
    if i >= s.len() || s[i] == '\n' {
        i
    } else {
        line_end(s, i + 1)
    }
}

pub proof fn lemma_line_end_bound(s: Seq<char>, i: int)
    ensures
        line_end(s, i) >= i,
        i <= s.len() ==> line_end(s, i) <= s.len(),
    decreases s.len() - i,
{
    if i < s.len() && s[i] != '\n' {
        lemma_line_end_bound(s, i + 1);
    }
}

proof fn lemma_line_end(s: Seq<char>, i: int, j: int)
    requires
        i <= j <= s.len(),
        forall|k: int| i <= k < j ==> s[k] != '\n',
        j == s.len() || s[j] == '\n',
    ensures
        line_end(s, i) == j,
    decreases j - i,
{
    if i < j {
        lemma_line_end(s, i + 1, j);
    }
}

/// The line from `i` to its end `e` as `str::lines` yields it: a '\r' just
/// before the '\n' that ends it is dropped.
pub open spec fn line_text(s: Seq<char>, i: int, e: int) -> Seq<char> {
    let raw = s.subrange(i, e);
    if e < s.len() && raw.len() > 0 && raw.last() == '\r' {
        raw.drop_last()
    } else {
        raw
    }
}

/// The first line of `s`, from position `i` on, that starts with `key`.
pub open spec fn line_with(s: Seq<char>, i: int, key: Seq<char>) -> Option<Seq<char>>
    decreases s.len() + 1 - i,
{
    if i < 0 || i >= s.len() {
        None
    } else if is_prefix(key, line_text(s, i, line_end(s, i))) {
        Some(line_text(s, i, line_end(s, i)))
    } else {
        proof {
            lemma_line_end_bound(s, i);
        }
        line_with(s, line_end(s, i) + 1, key)
    }
}

/// Number of leading characters of `s` that are not white space.
pub open spec fn lead_word(s: Seq<char>) -> nat
    decreases s.len(),
{
    if s.len() > 0 && !is_space(s[0]) {
        1 + lead_word(s.drop_first())
    } else {
        0
    }
}

proof fn lemma_lead_word_char(s: Seq<char>, i: int)
    requires
        0 <= i <= s.len(),
        forall|k: int| 0 <= k < i ==> !is_space(#[trigger] s[k]),
        i == s.len() || is_space(s[i]),
    ensures
        lead_word(s) == i,
    decreases s.len(),
{
    if i > 0 {
        assert(!is_space(s[0]));
        assert forall|k: int| 0 <= k < i - 1 implies !is_space(#[trigger] s.drop_first()[k]) by {
            assert(s.drop_first()[k] == s[k + 1]);
        }
        if i < s.len() {
            assert(s.drop_first()[i - 1] == s[i]);
        }
        lemma_lead_word_char(s.drop_first(), i - 1);
    }
}

/// The second white-space separated word of `line`, what
/// `split_whitespace().nth(1)` gives.
pub open spec fn second_word(line: Seq<char>) -> Option<Seq<char>> {
    let r1 = line.skip(lead_spaces(line) as int);
    let r2 = r1.skip(lead_word(r1) as int);
    let r3 = r2.skip(lead_spaces(r2) as int);
    if r1.len() == 0 || r3.len() == 0 {
        None
    } else {
        Some(r3.take(lead_word(r3) as int))
    }
}

/// The value stored under `key`: the second word of the first line that
/// starts with `key`, read as a `u64`; none when there is no such line,
/// the line has no second word, or the word is not a `u64`.
pub open spec fn mem_value_spec(data: Seq<char>, key: Seq<char>) -> Option<int> {
    match line_with(data, 0, key) {
        Some(line) => match second_word(line) {
            Some(w) => parse_u64(w),
            None => None,
        },
        None => None,
    }
}

fn skip_spaces(v: &Vec<char>, i: usize) -> (j: usize)
    requires
        i <= v@.len(),
    ensures
        i <= j <= v@.len(),
        j - i == lead_spaces(v@.skip(i as int)),
{
    let mut j = i;
    while j < v.len() && char_is_space(v[j])
        invariant
            i <= j <= v@.len(),
            forall|k: int| i <= k < j ==> is_space(#[trigger] v@[k]),
        decreases v@.len() - j,
    {
        j = j + 1;
    }
    proof {
        let t = v@.skip(i as int);
        assert forall|k: int| 0 <= k < j - i implies is_space(#[trigger] t[k]) by {
            assert(t[k] == v@[i + k]);
        }
        if j < v@.len() {
            assert(t[j - i] == v@[j as int]);
        }
        lemma_lead_spaces_char(t, j - i);
    }
    j
}

fn skip_word(v: &Vec<char>, i: usize) -> (j: usize)
    requires
        i <= v@.len(),
    ensures
        i <= j <= v@.len(),
        j - i == lead_word(v@.skip(i as int)),
{
    let mut j = i;
    while j < v.len() && !char_is_space(v[j])
        invariant
            i <= j <= v@.len(),
            forall|k: int| i <= k < j ==> !is_space(#[trigger] v@[k]),
        decreases v@.len() - j,
    {
        j = j + 1;
    }
    proof {
        let t = v@.skip(i as int);
        assert forall|k: int| 0 <= k < j - i implies !is_space(#[trigger] t[k]) by {
            assert(t[k] == v@[i + k]);
        }
        if j < v@.len() {
            assert(t[j - i] == v@[j as int]);
        }
        lemma_lead_word_char(t, j - i);
    }
    j
}

fn second_word_of(line: &Vec<char>) -> (r: Option<Vec<char>>)
    ensures
        match r {
            Some(w) => second_word(line@) == Some(w@),
            None => second_word(line@) is None,
        },
{
    let n = line.len();
    let a = skip_spaces(line, 0);
    assert(line@.skip(0) =~= line@);
    let ghost r1 = line@.skip(a as int);
    if a == n {
        assert(r1.len() == 0);
        return None;
    }
    let b = skip_word(line, a);
    let ghost r2 = r1.skip(lead_word(r1) as int);
    assert(r2 =~= line@.skip(b as int));
    let c = skip_spaces(line, b);
    let ghost r3 = r2.skip(lead_spaces(r2) as int);
    assert(r3 =~= line@.skip(c as int));
    if c == n {
        assert(r3.len() == 0);
        return None;
    }
    let d = skip_word(line, c);
    let w = sub_chars(line, c, d);
    assert(w@ =~= r3.take(lead_word(r3) as int));
    Some(w)
}

/// The `u64` stored under `key` in the text of /proc/meminfo.
pub fn parse_mem_value(data: &str, key: &str) -> (r: Option<u64>)
    ensures
        match r {
            Some(x) => mem_value_spec(data@, key@) == Some(x as int),
            None => mem_value_spec(data@, key@) is None,
        },
{
    let v = chars_of(data);
    let kv = chars_of(key);
    let n = v.len();
    let k = kv.len();
    let mut i: usize = 0;
    while i < n
        invariant
            n == v@.len(),
            k == kv@.len(),
            v@ == data@,
            kv@ == key@,
            i <= n,
            line_with(v@, 0, key@) == line_with(v@, i as int, key@),
        decreases n - i,
    {
        let mut e = i;
        while e < n && v[e] != '\n'
            invariant
                n == v@.len(),
                i <= e <= n,
                forall|q: int| i <= q < e ==> v@[q] != '\n',
            decreases n - e,
        {
            e = e + 1;
        }
        proof {
            lemma_line_end(v@, i as int, e as int);
        }
        let end: usize = if e < n && e > i && v[e - 1] == '\r' {
            e - 1
        } else {
            e
        };
        let ghost text = line_text(v@, i as int, e as int);
        assert(text =~= v@.subrange(i as int, end as int));
        if k <= end - i && matches_at(&v, &kv, i) {
            assert(text.subrange(0, k as int) =~= v@.subrange(i as int, i + k));
            let line = sub_chars(&v, i, end);
            return match second_word_of(&line) {
                Some(w) => {
                    let ws = string_of(&w);
                    parse_u64_opt(ws.as_str())
                },
                None => None,
            };
        }
        proof {
            if k <= end - i {
                assert(text.subrange(0, k as int) =~= v@.subrange(i as int, i + k));
            }
            assert(!is_prefix(key@, text));
        }
        if e >= n {
            assert(line_with(v@, e + 1, key@) is None);
            return None;
        }
        i = e + 1;
    }
    None
}

} // verus!
