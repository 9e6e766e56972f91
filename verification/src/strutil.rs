use vstd::prelude::*;
use vstd::string::StrSliceExecFns;
use vstd::string::StringExecFns;

use crate::trusted::push_char;

verus! {

/// The whitespace characters that line and value trimming recognizes.
pub open spec fn is_ws(c: char) -> bool {
    c == ' ' || c == '\t' || c == '\r' || c == '\n'
}

/// `s` with leading whitespace removed.
pub open spec fn spec_trim_start(s: Seq<char>) -> Seq<char>
    decreases s.len(),
{
    if s.len() > 0 && is_ws(s[0]) {
        spec_trim_start(s.subrange(1, s.len() as int))
    } else {
        s
    }
}

/// `s` with trailing whitespace removed.
pub open spec fn spec_trim_end(s: Seq<char>) -> Seq<char>
    decreases s.len(),
{
    if s.len() > 0 && is_ws(s[s.len() - 1]) {
        spec_trim_end(s.subrange(0, s.len() - 1))
    } else {
        s
    }
}

/// `s` with surrounding whitespace removed.
pub open spec fn spec_trim(s: Seq<char>) -> Seq<char> {
    spec_trim_end(spec_trim_start(s))
}

fn is_ws_exec(c: char) -> (r: bool)
    ensures
        r == is_ws(c),
{
    c == ' ' || c == '\t' || c == '\r' || c == '\n'
}

/// Remove leading whitespace.
pub fn trim_start(s: &str) -> (r: &str)
    ensures
        r@ == spec_trim_start(s@),
    decreases s@.len(),
{
    let n = s.unicode_len();
    if n > 0 && is_ws_exec(s.get_char(0)) {
        trim_start(s.substring_char(1, n))
    } else {
        s
    }
}

/// Remove trailing whitespace.
pub fn trim_end(s: &str) -> (r: &str)
    ensures
        r@ == spec_trim_end(s@),
    decreases s@.len(),
{
    let n = s.unicode_len();
    if n > 0 && is_ws_exec(s.get_char(n - 1)) {
        trim_end(s.substring_char(0, n - 1))
    } else {
        s
    }
}

/// Remove surrounding whitespace.
pub fn trim(s: &str) -> (r: &str)
    ensures
        r@ == spec_trim(s@),
{
    trim_end(trim_start(s))
}

/// `s` with every leading occurrence of `c` removed.
pub open spec fn spec_trim_start_char(s: Seq<char>, c: char) -> Seq<char>
    decreases s.len(),
{
    if s.len() > 0 && s[0] == c {
        spec_trim_start_char(s.subrange(1, s.len() as int), c)
    } else {
        s
    }
}

/// `s` with every trailing occurrence of `c` removed.
pub open spec fn spec_trim_end_char(s: Seq<char>, c: char) -> Seq<char>
    decreases s.len(),
{
    if s.len() > 0 && s[s.len() - 1] == c {
        spec_trim_end_char(s.subrange(0, s.len() - 1), c)
    } else {
        s
    }
}

/// Remove every leading occurrence of `c`.
pub fn trim_start_char<'a>(s: &'a str, c: char) -> (r: &'a str)
    ensures
        r@ == spec_trim_start_char(s@, c),
    decreases s@.len(),
{
    let n = s.unicode_len();
    if n > 0 && s.get_char(0) == c {
        trim_start_char(s.substring_char(1, n), c)
    } else {
        s
    }
}

/// Remove every trailing occurrence of `c`.
pub fn trim_end_char<'a>(s: &'a str, c: char) -> (r: &'a str)
    ensures
        r@ == spec_trim_end_char(s@, c),
    decreases s@.len(),
{
    let n = s.unicode_len();
    if n > 0 && s.get_char(n - 1) == c {
        trim_end_char(s.substring_char(0, n - 1), c)
    } else {
        s
    }
}

/// Whether `p` is a prefix of `s`.
pub open spec fn spec_starts_with(s: Seq<char>, p: Seq<char>) -> bool {
    p.len() <= s.len() && s.subrange(0, p.len() as int) == p
}

/// Whether `p` is a suffix of `s`.
pub open spec fn spec_ends_with(s: Seq<char>, p: Seq<char>) -> bool {
    p.len() <= s.len() && s.subrange(s.len() - p.len(), s.len() as int) == p
}

/// Whether the characters of `s` starting at `at` match `p`.
fn matches_at(s: &str, at: usize, p: &str) -> (r: bool)
    requires
        at + p@.len() <= s@.len(),
    ensures
        r == (s@.subrange(at as int, at + p@.len()) == p@),
{
    let sl = s.unicode_len();
    let pl = p.unicode_len();
    let mut j: usize = 0;
    while j < pl
        invariant
            0 <= j <= pl,
            pl == p@.len(),
            sl == s@.len(),
            at + pl <= sl,
            forall|k: int| 0 <= k < j ==> s@[at + k] == p@[k],
        decreases pl - j,
    {
        if s.get_char(at + j) != p.get_char(j) {
            assert(s@.subrange(at as int, at + p@.len())[j as int] != p@[j as int]);
            return false;
        }
        j += 1;
    }
    assert(s@.subrange(at as int, at + p@.len()) =~= p@);
    true
}

/// Whether `p` is a prefix of `s`.
pub fn starts_with(s: &str, p: &str) -> (r: bool)
    ensures
        r == spec_starts_with(s@, p@),
{
    let sl = s.unicode_len();
    let pl = p.unicode_len();
    if pl > sl {
        return false;
    }
    matches_at(s, 0, p)
}

/// Whether `p` is a suffix of `s`.
pub fn ends_with(s: &str, p: &str) -> (r: bool)
    ensures
        r == spec_ends_with(s@, p@),
{
    let sl = s.unicode_len();
    let pl = p.unicode_len();
    if pl > sl {
        return false;
    }
    matches_at(s, sl - pl, p)
}

/// `s` without a single trailing `p`, when `p` is a suffix; `s` itself otherwise.
pub fn strip_suffix_once<'a>(s: &'a str, p: &str) -> (r: &'a str)
    ensures
        r@ == spec_strip_suffix_once(s@, p@),
{
    if ends_with(s, p) {
        s.substring_char(0, s.unicode_len() - p.unicode_len())
    } else {
        s
    }
}

/// `s` without a single trailing `p`, when `p` is a suffix.
pub open spec fn spec_strip_suffix_once(s: Seq<char>, p: Seq<char>) -> Seq<char> {
    if spec_ends_with(s, p) {
        s.subrange(0, s.len() - p.len())
    } else {
        s
    }
}

/// Whether `n` occurs as a contiguous subsequence of `h`.
pub open spec fn spec_contains(h: Seq<char>, n: Seq<char>) -> bool {
    exists|i: int| 0 <= i && i + n.len() <= h.len() && #[trigger] h.subrange(i, i + n.len()) == n
}

/// Substring containment, matching at any position.
pub fn contains_sub(h: &str, n: &str) -> (r: bool)
    ensures
        r == spec_contains(h@, n@),
{
    let hl = h.unicode_len();
    let nl = n.unicode_len();
    if nl > hl {
        return false;
    }
    if nl == 0 {
        proof {
            assert(h@.subrange(0, 0 + n@.len() as int) =~= n@);
            assert(spec_contains(h@, n@));
        }
        return true;
    }
    let mut i: usize = 0;
    while i <= hl - nl
        invariant
            1 <= nl <= hl,
            hl == h@.len(),
            nl == n@.len(),
            0 <= i <= hl - nl + 1,
            forall|k: int| 0 <= k < i ==> #[trigger] h@.subrange(k, k + n@.len()) != n@,
        decreases hl - nl - i + 1,
    {
        if matches_at(h, i, n) {
            assert(h@.subrange(i as int, i + n@.len()) == n@);
            return true;
        }
        i += 1;
    }
    false
}

/// The first position of `c` in `s` at or after `from`.
pub fn find_char(s: &str, c: char, from: usize) -> (r: Option<usize>)
    requires
        from <= s@.len(),
    ensures
        match r {
            Some(i) => from <= i < s@.len() && s@[i as int] == c && forall|j: int|
                from <= j < i ==> s@[j] != c,
            None => forall|j: int| from <= j < s@.len() ==> s@[j] != c,
        },
{
    let n = s.unicode_len();
    let mut i: usize = from;
    while i < n
        invariant
            from <= i <= n,
            n == s@.len(),
            forall|j: int| from <= j < i ==> s@[j] != c,
        decreases n - i,
    {
        if s.get_char(i) == c {
            return Some(i);
        }
        i += 1;
    }
    None
}

/// Whether two string slices hold the same characters.
pub fn str_eq(a: &str, b: &str) -> (r: bool)
    ensures
        r == (a@ == b@),
{
    let al = a.unicode_len();
    let bl = b.unicode_len();
    if al != bl {
        return false;
    }
    if matches_at(a, 0, b) {
        assert(a@.subrange(0, a@.len() as int) =~= a@);
        true
    } else {
        assert(a@.subrange(0, a@.len() as int) =~= a@);
        false
    }
}

/// The decimal digit character for `d`.
pub open spec fn spec_digit_char(d: int) -> char {
    if d == 0 {
        '0'
    } else if d == 1 {
        '1'
    } else if d == 2 {
        '2'
    } else if d == 3 {
        '3'
    } else if d == 4 {
        '4'
    } else if d == 5 {
        '5'
    } else if d == 6 {
        '6'
    } else if d == 7 {
        '7'
    } else if d == 8 {
        '8'
    } else {
        '9'
    }
}

/// The decimal rendering of a natural number.
pub open spec fn spec_u64_string(n: int) -> Seq<char>
    decreases n,
{
    if n < 10 {
        seq![spec_digit_char(n)]
    } else {
        spec_u64_string(n / 10) + seq![spec_digit_char(n % 10)]
    }
}

/// The decimal rendering of a signed number.
pub open spec fn spec_i64_string(n: int) -> Seq<char> {
    if n < 0 {
        seq!['-'] + spec_u64_string(-n)
    } else {
        spec_u64_string(n)
    }
}

fn digit_char(d: u64) -> (c: char)
    requires
        d < 10,
    ensures
        c == spec_digit_char(d as int),
{
    match d {
        0 => '0',
        1 => '1',
        2 => '2',
        3 => '3',
        4 => '4',
        5 => '5',
        6 => '6',
        7 => '7',
        8 => '8',
        _ => '9',
    }
}

/// Render a number in decimal.
pub fn u64_to_string(n: u64) -> (r: String)
    ensures
        r@ == spec_u64_string(n as int),
    decreases n,
{
    if n < 10 {
        let mut s = String::new();
        push_char(&mut s, digit_char(n));
        s
    } else {
        let mut s = u64_to_string(n / 10);
        push_char(&mut s, digit_char(n % 10));
        s
    }
}

/// Render a signed number in decimal.
pub fn i64_to_string(n: i64) -> (r: String)
    ensures
        r@ == spec_i64_string(n as int),
{
    if n >= 0 {
        u64_to_string(n as u64)
    } else {
        let mut s = String::from_str("-");
        let magnitude: u64 = (-(n as i128)) as u64;
        let digits = u64_to_string(magnitude);
        s.append(digits.as_str());
        proof {
            reveal_strlit("-");
            assert("-"@ =~= seq!['-']);
        }
        s
    }
}

/// The first seven characters of `s`, or all of `s` when it is shorter.
pub open spec fn spec_short7(s: Seq<char>) -> Seq<char> {
    if s.len() <= 7 {
        s
    } else {
        s.subrange(0, 7)
    }
}

/// Abbreviate a commit hash to its first seven characters.
pub fn short7(s: &str) -> (r: &str)
    ensures
        r@ == spec_short7(s@),
{
    let n = s.unicode_len();
    if n <= 7 {
        s
    } else {
        s.substring_char(0, 7)
    }
}

/// Append one part to a list of display parts.
pub fn push_part(parts: &mut Vec<String>, s: String)
    ensures
        final(parts).deep_view() == old(parts).deep_view().push(s@),
{
    let ghost pre = parts.deep_view();
    parts.push(s);
    proof {
        assert(parts.deep_view() =~= pre.push(s@));
    }
}

/// The characters before the first line break, with a single carriage
/// return before it removed, as the first element of std's line iterator
/// yields it.
pub open spec fn spec_first_line(s: Seq<char>) -> Seq<char> {
    spec_strip_suffix_once(spec_before_char(s, '\n'), seq!['\r'])
}

/// The first line of `s`: everything before the first line break, without a
/// trailing carriage return.
pub fn first_line(s: &str) -> (r: &str)
    ensures
        r@ == spec_first_line(s@),
{
    let cut = before_char(s, '\n');
    proof {
        assert(cut@ == spec_before_char(s@, '\n'));
    }
    let m = cut.unicode_len();
    if m > 0 && cut.get_char(m - 1) == '\r' {
        proof {
            assert(cut@.subrange(cut@.len() - 1, cut@.len() as int) =~= seq!['\r']);
        }
        cut.substring_char(0, m - 1)
    } else {
        proof {
            if m > 0 {
                let tail = cut@.subrange(cut@.len() - 1, cut@.len() as int);
                assert(tail[0] == cut@[cut@.len() - 1]);
                assert(tail != seq!['\r']);
            }
            assert(!spec_ends_with(cut@, seq!['\r']));
        }
        cut
    }
}

/// The characters before the first occurrence of `c`, or all of `s` when
/// `c` does not occur.
pub open spec fn spec_before_char(s: Seq<char>, c: char) -> Seq<char>
    decreases s.len(),
{
    if s.len() == 0 {
        Seq::empty()
    } else if s[0] == c {
        Seq::empty()
    } else {
        seq![s[0]] + spec_before_char(s.subrange(1, s.len() as int), c)
    }
}

pub proof fn lemma_before_char_at(s: Seq<char>, c: char, i: int)
    requires
        0 <= i <= s.len(),
        forall|j: int| 0 <= j < i ==> s[j] != c,
        i == s.len() || s[i] == c,
    ensures
        spec_before_char(s, c) == s.subrange(0, i),
    decreases s.len(),
{
    if s.len() == 0 {
        assert(s.subrange(0, 0) =~= s);
    } else if s[0] == c {
        assert(i == 0);
        assert(s.subrange(0, 0) =~= Seq::<char>::empty());
    } else {
        assert(i >= 1);
        let rest = s.subrange(1, s.len() as int);
        lemma_before_char_at(rest, c, i - 1);
        assert(rest.subrange(0, i - 1) =~= s.subrange(1, i));
        assert(s.subrange(0, i) =~= seq![s[0]] + s.subrange(1, i));
    }
}

/// The prefix never outgrows the string it was cut from.
pub proof fn lemma_before_char_len(s: Seq<char>, c: char)
    ensures
        spec_before_char(s, c).len() <= s.len(),
    decreases s.len(),
{
    if s.len() > 0 && s[0] != c {
        lemma_before_char_len(s.subrange(1, s.len() as int), c);
    }
}

/// The prefix of `s` before the first occurrence of `c`.
pub fn before_char<'a>(s: &'a str, c: char) -> (r: &'a str)
    ensures
        r@ == spec_before_char(s@, c),
{
    match find_char(s, c, 0) {
        Some(i) => {
            proof {
                lemma_before_char_at(s@, c, i as int);
            }
            s.substring_char(0, i)
        },
        None => {
            proof {
                lemma_before_char_at(s@, c, s@.len() as int);
                assert(s@.subrange(0, s@.len() as int) =~= s@);
            }
            s
        },
    }
}

/// `s` with every newline character removed.
pub open spec fn spec_remove_newlines(s: Seq<char>) -> Seq<char>
    decreases s.len(),
{
    if s.len() == 0 {
        Seq::empty()
    } else {
        let init = spec_remove_newlines(s.subrange(0, s.len() - 1));
        if s[s.len() - 1] == '\n' {
            init
        } else {
            init + seq![s[s.len() - 1]]
        }
    }
}

/// Remove every newline character.
pub fn remove_newlines(s: &str) -> (r: String)
    ensures
        r@ == spec_remove_newlines(s@),
{
    let n = s.unicode_len();
    let mut acc = String::new();
    let mut i: usize = 0;
    while i < n
        invariant
            0 <= i <= n,
            n == s@.len(),
            acc@ == spec_remove_newlines(s@.subrange(0, i as int)),
        decreases n - i,
    {
        let c = s.get_char(i);
        if c != '\n' {
            push_char(&mut acc, c);
        }
        proof {
            let now = s@.subrange(0, i + 1);
            assert(now.subrange(0, now.len() - 1) =~= s@.subrange(0, i as int));
            assert(now[now.len() - 1] == s@[i as int]);
        }
        i += 1;
    }
    proof {
        assert(s@.subrange(0, s@.len() as int) =~= s@);
    }
    acc
}

/// The parts joined with `sep` between consecutive parts.
pub open spec fn spec_join(parts: Seq<Seq<char>>, sep: Seq<char>) -> Seq<char>
    decreases parts.len(),
{
    if parts.len() == 0 {
        Seq::empty()
    } else if parts.len() == 1 {
        parts[0]
    } else {
        spec_join(parts.subrange(0, parts.len() - 1), sep) + sep + parts[parts.len() - 1]
    }
}

/// Join strings with a separator.
pub fn join(parts: &Vec<String>, sep: &str) -> (r: String)
    ensures
        r@ == spec_join(parts.deep_view(), sep@),
{
    let ghost all = parts.deep_view();
    let mut acc = String::new();
    let n = parts.len();
    let mut i: usize = 0;
    while i < n
        invariant
            0 <= i <= n,
            n == parts.len(),
            all == parts.deep_view(),
            all.len() == n,
            forall|k: int| 0 <= k < n ==> all[k] == parts@[k]@,
            acc@ == spec_join(all.subrange(0, i as int), sep@),
        decreases n - i,
    {
        if i > 0 {
            acc.append(sep);
        }
        acc.append(parts[i].as_str());
        proof {
            let pre = all.subrange(0, i as int);
            let now = all.subrange(0, i + 1);
            if i == 0 {
                assert(now =~= seq![all[0]]);
                assert(acc@ == all[0]);
            } else {
                assert(now.subrange(0, now.len() - 1) =~= pre);
            }
        }
        i += 1;
    }
    proof {
        assert(all.subrange(0, n as int) =~= all);
    }
    acc
}

} // verus!
