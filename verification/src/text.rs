//! Character-level text operations: the views of `String`s are `Seq<char>`,
//! and these functions work on `Vec<char>` copies of them.
use vstd::prelude::*;

verus! {

broadcast use vstd::string::group_string_axioms;

/// Unicode `White_Space` (what `char::is_whitespace` tests).
pub open spec fn is_ws(c: char) -> bool {
    let n = c as u32;
    (0x9 <= n && n <= 0xd) || n == 0x20 || n == 0x85 || n == 0xa0 || n == 0x1680 || (0x2000 <= n
        && n <= 0x200a) || n == 0x2028 || n == 0x2029 || n == 0x202f || n == 0x205f || n == 0x3000
}

/// `s` without its leading whitespace.
pub open spec fn trim_start(s: Seq<char>) -> Seq<char>
    decreases s.len(),
{
    if s.len() > 0 && is_ws(s[0]) {
        trim_start(s.drop_first())
    } else {
        s
    }
}

/// `s` without its trailing whitespace.
pub open spec fn trim_end(s: Seq<char>) -> Seq<char>
    decreases s.len(),
{
    if s.len() > 0 && is_ws(s.last()) {
        trim_end(s.drop_last())
    } else {
        s
    }
}

/// `s` without leading and trailing whitespace (`str::trim`).
pub open spec fn trim(s: Seq<char>) -> Seq<char> {
    trim_end(trim_start(s))
}

/// `needle` occurs in `hay` as a contiguous run (`str::contains`).
pub open spec fn contains(hay: Seq<char>, needle: Seq<char>) -> bool {
    exists|i: int|
        0 <= i && i + needle.len() <= hay.len() && #[trigger] hay.subrange(i, i + needle.len())
            == needle
}

/// `hay` begins with `prefix` (`str::starts_with`).
pub open spec fn starts_with(hay: Seq<char>, prefix: Seq<char>) -> bool {
    prefix.len() <= hay.len() && hay.subrange(0, prefix.len() as int) == prefix
}

/// `hay` ends with `suffix` (`str::ends_with`).
pub open spec fn ends_with(hay: Seq<char>, suffix: Seq<char>) -> bool {
    suffix.len() <= hay.len() && hay.subrange(hay.len() - suffix.len(), hay.len() as int) == suffix
}

/// The position of the first `c` in `s` (`str::find` with a `char`).
pub open spec fn index_of(s: Seq<char>, c: char) -> Option<int>
    decreases s.len(),
{
    if s.len() == 0 {
        None
    } else {
        let before = index_of(s.drop_last(), c);
        if before is Some {
            before
        } else if s.last() == c {
            Some(s.len() - 1)
        } else {
            None
        }
    }
}

/// The position of the last `c` in `s` (`str::rfind` with a `char`).
pub open spec fn last_index_of(s: Seq<char>, c: char) -> Option<int>
    decreases s.len(),
{
    if s.len() == 0 {
        None
    } else if s.last() == c {
        Some(s.len() - 1)
    } else {
        last_index_of(s.drop_last(), c)
    }
}

/// The lines finished so far and the line in progress, after reading `s`.
pub open spec fn split_state(s: Seq<char>) -> (Seq<Seq<char>>, Seq<char>)
    decreases s.len(),
{
    if s.len() == 0 {
        (seq![], seq![])
    } else {
        let prev = split_state(s.drop_last());
        if s.last() == '\n' {
            (prev.0.push(prev.1), seq![])
        } else {
            (prev.0, prev.1.push(s.last()))
        }
    }
}

/// The pieces of `s` between line feeds; a final empty piece is not a line.
/// Callers trim each line, so a `'\r'` before the line feed makes no difference
/// to them, as with `str::lines`.
pub open spec fn lines(s: Seq<char>) -> Seq<Seq<char>> {
    let st = split_state(s);
    if st.1.len() == 0 {
        st.0
    } else {
        st.0.push(st.1)
    }
}

/// The trimmed lines that are not empty, in order.
pub open spec fn nonblank(ls: Seq<Seq<char>>) -> Seq<Seq<char>>
    decreases ls.len(),
{
    if ls.len() == 0 {
        seq![]
    } else {
        let prev = nonblank(ls.drop_last());
        let t = trim(ls.last());
        if t.len() == 0 {
            prev
        } else {
            prev.push(t)
        }
    }
}

/// The trimmed, non-empty lines of `s`.
pub open spec fn nonblank_lines(s: Seq<char>) -> Seq<Seq<char>> {
    nonblank(lines(s))
}

/// The character of a decimal digit.
pub open spec fn digit_char(d: int) -> char {
    if d == 0 {
        '0'
    } else if d == 1 {
        '1'
    } else if d == 2 {
        '2'
    } else if d == 3 {
        '3'
    } else if d == 4 {
        '4'
    } else if d == 5 {
        '5'
    } else if d == 6 {
        '6'
    } else if d == 7 {
        '7'
    } else if d == 8 {
        '8'
    } else {
        '9'
    }
}

/// The decimal notation of `n`, without leading zeros (`Display` for integers).
pub open spec fn decimal(n: nat) -> Seq<char>
    decreases n,
{
    if n < 10 {
        seq![digit_char(n as int)]
    } else {
        decimal(n / 10).push(digit_char((n % 10) as int))
    }
}

pub open spec fn is_digit(c: char) -> bool {
    48 <= c as u32 && c as u32 <= 57
}

pub open spec fn all_digits(s: Seq<char>) -> bool {
    forall|i: int| 0 <= i < s.len() ==> is_digit(#[trigger] s[i])
}

/// The number that a run of decimal digits denotes.
pub open spec fn digits_value(s: Seq<char>) -> nat
    decreases s.len(),
{
    if s.len() == 0 {
        0
    } else {
        digits_value(s.drop_last()) * 10 + ((s.last() as u32 - 48) as nat)
    }
}

/// What `str::parse::<u32>` accepts: an optional `+`, then one or more ASCII
/// digits whose value fits in a `u32`.
pub open spec fn parse_u32(s: Seq<char>) -> Option<u32> {
    let t = if s.len() > 0 && s[0] == '+' {
        s.drop_first()
    } else {
        s
    };
    if t.len() > 0 && all_digits(t) && digits_value(t) <= u32::MAX {
        Some(digits_value(t) as u32)
    } else {
        None
    }
}

/// The characters of `s`, in order.
pub fn chars_of(s: &str) -> (r: Vec<char>)
    ensures
        r@ == s@,
{
    let mut r: Vec<char> = Vec::new();
    for c in it: s.chars()
        invariant
            r@ == it.seq().take(it.index() as int),
    {
        r.push(c);
    }
    r
}

/// The characters `from..to` of `s`, as a `String`.
pub fn substring(s: &str, from: usize, to: usize) -> (r: String)
    requires
        from <= to <= s@.len(),
    ensures
        r@ == s@.subrange(from as int, to as int),
{
    s.substring_char(from, to).to_string()
}

/// Two texts are equal.
pub fn text_eq(a: &str, b: &str) -> (r: bool)
    ensures
        r == (a@ == b@),
{
    let x = chars_of(a);
    let y = chars_of(b);
    seq_eq(&x, &y)
}

pub fn seq_eq(x: &Vec<char>, y: &Vec<char>) -> (r: bool)
    ensures
        r == (x@ == y@),
{
    if x.len() != y.len() {
        return false;
    }
    let mut i: usize = 0;
    while i < x.len()
        invariant
            i <= x.len(),
            x.len() == y.len(),
            forall|k: int| 0 <= k < i ==> x@[k] == y@[k],
        decreases x.len() - i,
    {
        if x[i] != y[i] {
            return false;
        }
        i += 1;
    }
    assert(x@ =~= y@);
    true
}

/// The elements `from..to` of `v`.
pub fn slice_of(v: &Vec<char>, from: usize, to: usize) -> (r: Vec<char>)
    requires
        from <= to <= v.len(),
    ensures
        r@ == v@.subrange(from as int, to as int),
{
    let mut r: Vec<char> = Vec::new();
    let mut i = from;
    while i < to
        invariant
            from <= i <= to <= v.len(),
            r@ == v@.subrange(from as int, i as int),
        decreases to - i,
    {
        r.push(v[i]);
        i += 1;
        assert(r@ =~= v@.subrange(from as int, i as int));
    }
    r
}

pub fn is_whitespace(c: char) -> (r: bool)
    ensures
        r == is_ws(c),
{
    let n = c as u32;
    (0x9 <= n && n <= 0xd) || n == 0x20 || n == 0x85 || n == 0xa0 || n == 0x1680 || (0x2000 <= n
        && n <= 0x200a) || n == 0x2028 || n == 0x2029 || n == 0x202f || n == 0x205f || n == 0x3000
}

/// The bounds of `v` without its leading and trailing whitespace.
pub fn trim_bounds(v: &Vec<char>) -> (r: (usize, usize))
    ensures
        r.0 <= r.1 <= v@.len(),
        v@.subrange(r.0 as int, r.1 as int) == trim(v@),
{
    let n = v.len();
    let mut i: usize = 0;
    assert(v@.skip(0) =~= v@);
    while i < n && is_whitespace(v[i])
        invariant
            i <= n,
            n == v.len(),
            trim_start(v@) == trim_start(v@.skip(i as int)),
        decreases n - i,
    {
        assert(v@.skip(i as int).drop_first() =~= v@.skip(i + 1));
        i += 1;
    }
    let mut j: usize = n;
    assert(v@.skip(i as int) =~= v@.subrange(i as int, j as int));
    while j > i && is_whitespace(v[j - 1])
        invariant
            i <= j <= n,
            n == v.len(),
            trim_end(v@.skip(i as int)) == trim_end(v@.subrange(i as int, j as int)),
        decreases j,
    {
        assert(v@.subrange(i as int, j as int).drop_last() =~= v@.subrange(i as int, j - 1));
        j -= 1;
    }
    (i, j)
}

/// `v` without leading and trailing whitespace.
pub fn trim_chars(v: &Vec<char>) -> (r: Vec<char>)
    ensures
        r@ == trim(v@),
{
    let (i, j) = trim_bounds(v);
    slice_of(v, i, j)
}

/// The trimmed text of `s`.
pub fn trim_str(s: &str) -> (r: String)
    ensures
        r@ == trim(s@),
{
    let v = chars_of(s);
    let (i, j) = trim_bounds(&v);
    substring(s, i, j)
}

pub fn contains_chars(hay: &Vec<char>, needle: &Vec<char>) -> (r: bool)
    ensures
        r == contains(hay@, needle@),
{
    let n = needle.len();
    if n > hay.len() {
        return false;
    }
    let mut i: usize = 0;
    while i <= hay.len() - n
        invariant
            n == needle.len(),
            n <= hay.len(),
            i <= hay.len() - n + 1,
            forall|k: int| 0 <= k < i ==> #[trigger] hay@.subrange(k, k + n) != needle@,
        decreases hay.len() - i,
    {
        let mut j: usize = 0;
        let mut same = true;
        while j < n
            invariant
                n == needle.len(),
                i + n <= hay.len(),
                j <= n,
                same == (forall|k: int| 0 <= k < j ==> hay@[i + k] == needle@[k]),
            decreases n - j,
        {
            if hay[i + j] != needle[j] {
                same = false;
            }
            j += 1;
        }
        if same {
            assert(hay@.subrange(i as int, i + n) =~= needle@);
            return true;
        }
        assert(hay@.subrange(i as int, i + n) != needle@) by {
            if hay@.subrange(i as int, i + n) == needle@ {
                assert forall|k: int| 0 <= k < n implies hay@[i + k] == needle@[k] by {
                    assert(hay@.subrange(i as int, i + n)[k] == hay@[i + k]);
                }
            }
        }
        i += 1;
    }
    false
}

/// `needle` occurs in `hay`.
pub fn str_contains(hay: &str, needle: &str) -> (r: bool)
    ensures
        r == contains(hay@, needle@),
{
    let h = chars_of(hay);
    let n = chars_of(needle);
    contains_chars(&h, &n)
}

pub fn starts_with_chars(hay: &Vec<char>, prefix: &Vec<char>) -> (r: bool)
    ensures
        r == starts_with(hay@, prefix@),
{
    if prefix.len() > hay.len() {
        return false;
    }
    let p = slice_of(hay, 0, prefix.len());
    seq_eq(&p, prefix)
}

pub fn ends_with_chars(hay: &Vec<char>, suffix: &Vec<char>) -> (r: bool)
    ensures
        r == ends_with(hay@, suffix@),
{
    if suffix.len() > hay.len() {
        return false;
    }
    let p = slice_of(hay, hay.len() - suffix.len(), hay.len());
    seq_eq(&p, suffix)
}

pub fn index_of_char(s: &Vec<char>, c: char) -> (r: Option<usize>)
    ensures
        match r {
            Some(i) => index_of(s@, c) == Some(i as int) && i < s@.len(),
            None => index_of(s@, c) is None,
        },
{
    proof {
        lemma_index_of(s@, c);
    }
    let mut i: usize = 0;
    assert(s@.take(0) =~= seq![]);
    while i < s.len()
        invariant
            i <= s.len(),
            index_of(s@.take(i as int), c) is None,
        decreases s.len() - i,
    {
        assert(s@.take(i + 1).drop_last() =~= s@.take(i as int));
        if s[i] == c {
            assert(s@.take(i + 1).last() == c);
            proof {
                lemma_index_of_extend(s@, i as int + 1, c);
            }
            return Some(i);
        }
        i += 1;
    }
    assert(s@.take(i as int) =~= s@);
    None
}

/// A first occurrence found in a prefix is the first occurrence in the whole.
pub proof fn lemma_index_of_extend(s: Seq<char>, k: int, c: char)
    requires
        0 <= k <= s.len(),
        index_of(s.take(k), c) is Some,
    ensures
        index_of(s, c) == index_of(s.take(k), c),
    decreases s.len() - k,
{
    if k < s.len() {
        assert(s.take(k + 1).drop_last() =~= s.take(k));
        lemma_index_of_extend(s, k + 1, c);
    } else {
        assert(s.take(k) =~= s);
    }
}

pub fn last_index_of_char(s: &Vec<char>, c: char) -> (r: Option<usize>)
    ensures
        match r {
            Some(i) => last_index_of(s@, c) == Some(i as int) && i < s@.len(),
            None => last_index_of(s@, c) is None,
        },
{
    proof {
        lemma_last_index_of(s@, c);
    }
    let mut i: usize = 0;
    let mut found: Option<usize> = None;
    assert(s@.take(0) =~= seq![]);
    while i < s.len()
        invariant
            i <= s.len(),
            match found {
                Some(k) => last_index_of(s@.take(i as int), c) == Some(k as int),
                None => last_index_of(s@.take(i as int), c) is None,
            },
        decreases s.len() - i,
    {
        assert(s@.take(i + 1).drop_last() =~= s@.take(i as int));
        if s[i] == c {
            found = Some(i);
        }
        i += 1;
    }
    assert(s@.take(i as int) =~= s@);
    found
}

/// The bounds of the lines of `v` (see [`lines`]), in order.
pub fn line_bounds(v: &Vec<char>) -> (r: Vec<(usize, usize)>)
    ensures
        r@.len() == lines(v@).len(),
        forall|k: int|
            0 <= k < r@.len() ==> {
                let (a, b) = #[trigger] r@[k];
                &&& a <= b <= v@.len()
                &&& v@.subrange(a as int, b as int) == lines(v@)[k]
            },
{
    let mut done: Vec<(usize, usize)> = Vec::new();
    let mut start: usize = 0;
    let mut i: usize = 0;
    assert(v@.take(0) =~= seq![]);
    while i < v.len()
        invariant
            start <= i <= v.len(),
            done@.len() == split_state(v@.take(i as int)).0.len(),
            forall|k: int|
                0 <= k < done@.len() ==> {
                    let (a, b) = #[trigger] done@[k];
                    &&& a <= b <= i
                    &&& v@.subrange(a as int, b as int) == split_state(v@.take(i as int)).0[k]
                },
            v@.subrange(start as int, i as int) == split_state(v@.take(i as int)).1,
        decreases v.len() - i,
    {
        assert(v@.take(i + 1).drop_last() =~= v@.take(i as int));
        if v[i] == '\n' {
            let ghost old_done = done@;
            done.push((start, i));
            start = i + 1;
            assert(v@.subrange(start as int, i + 1) =~= seq![]);
            assert forall|k: int| 0 <= k < done@.len() implies {
                let (a, b) = #[trigger] done@[k];
                &&& a <= b <= i + 1
                &&& v@.subrange(a as int, b as int) == split_state(v@.take(i + 1)).0[k]
            } by {
                if k < old_done.len() {
                    assert(done@[k] == old_done[k]);
                }
            }
        } else {
            assert(v@.subrange(start as int, i + 1) =~= v@.subrange(start as int, i as int).push(v@[i as int]));
        }
        i += 1;
    }
    assert(v@.take(i as int) =~= v@);
    if start < v.len() {
        let ghost old_done = done@;
        done.push((start, v.len()));
        assert forall|k: int| 0 <= k < done@.len() implies {
            let (a, b) = #[trigger] done@[k];
            &&& a <= b <= v@.len()
            &&& v@.subrange(a as int, b as int) == lines(v@)[k]
        } by {
            if k < old_done.len() {
                assert(done@[k] == old_done[k]);
            }
        }
    }
    done
}

/// The trimmed, non-empty lines of `s`.
pub fn nonblank_lines_of(s: &str) -> (r: Vec<String>)
    ensures
        r@.len() == nonblank_lines(s@).len(),
        forall|k: int| 0 <= k < r@.len() ==> #[trigger] r@[k]@ == nonblank_lines(s@)[k],
{
    let v = chars_of(s);
    let ls = line_bounds(&v);
    let ghost all = lines(v@);
    let mut r: Vec<String> = Vec::new();
    let mut i: usize = 0;
    assert(all.take(0) =~= seq![]);
    while i < ls.len()
        invariant
            i <= ls.len(),
            v@ == s@,
            all == lines(v@),
            ls@.len() == all.len(),
            forall|k: int|
                0 <= k < ls@.len() ==> {
                    let (a, b) = #[trigger] ls@[k];
                    &&& a <= b <= v@.len()
                    &&& v@.subrange(a as int, b as int) == all[k]
                },
            r@.len() == nonblank(all.take(i as int)).len(),
            forall|k: int| 0 <= k < r@.len() ==> #[trigger] r@[k]@ == nonblank(all.take(i as int))[k],
        decreases ls.len() - i,
    {
        let (a, b) = ls[i];
        assert(ls@[i as int] == (a, b));
        assert(all.take(i + 1).drop_last() =~= all.take(i as int));
        assert(all.take(i + 1).last() == all[i as int]);
        let line = slice_of(&v, a, b);
        let (x, y) = trim_bounds(&line);
        if x < y {
            let ghost old_r = r@;
            let t = substring(s, a + x, a + y);
            assert(t@ =~= line@.subrange(x as int, y as int));
            r.push(t);
            assert forall|k: int| 0 <= k < r@.len() implies #[trigger] r@[k]@ == nonblank(
                all.take(i + 1),
            )[k] by {
                if k < old_r.len() {
                    assert(r@[k] == old_r[k]);
                }
            }
        }
        i += 1;
    }
    assert(all.take(i as int) =~= all);
    r
}

pub open spec fn digit_value(c: char) -> nat {
    (c as u32 - 48) as nat
}

/// The text of one decimal digit.
pub fn digit_text(d: u64) -> (r: &'static str)
    requires
        d < 10,
    ensures
        r@ == seq![digit_char(d as int)],
{
    proof {
        reveal_strlit("0");
        reveal_strlit("1");
        reveal_strlit("2");
        reveal_strlit("3");
        reveal_strlit("4");
        reveal_strlit("5");
        reveal_strlit("6");
        reveal_strlit("7");
        reveal_strlit("8");
        reveal_strlit("9");
    }
    if d == 0 {
        "0"
    } else if d == 1 {
        "1"
    } else if d == 2 {
        "2"
    } else if d == 3 {
        "3"
    } else if d == 4 {
        "4"
    } else if d == 5 {
        "5"
    } else if d == 6 {
        "6"
    } else if d == 7 {
        "7"
    } else if d == 8 {
        "8"
    } else {
        "9"
    }
}

/// The decimal notation of `n`, as a `String` (`u64::to_string`).
pub fn decimal_string(n: u64) -> (r: String)
    ensures
        r@ == decimal(n as nat),
    decreases n,
{
    if n < 10 {
        digit_text(n).to_string()
    } else {
        let mut r = decimal_string(n / 10);
        r.append(digit_text(n % 10));
        r
    }
}

/// For an all-digit text, no prefix denotes more than the whole.
pub proof fn lemma_digits_value_prefix(s: Seq<char>, k: int)
    requires
        0 <= k <= s.len(),
        all_digits(s),
    ensures
        digits_value(s.take(k)) <= digits_value(s),
    decreases s.len() - k,
{
    if k < s.len() {
        lemma_digits_value_prefix(s, k + 1);
        assert(s.take(k + 1).drop_last() =~= s.take(k));
        assert(is_digit(s[k]));
    } else {
        assert(s.take(k) =~= s);
    }
}

/// `str::parse::<u32>` (see [`parse_u32`]).
pub fn parse_u32_chars(s: &Vec<char>) -> (r: Option<u32>)
    ensures
        r == parse_u32(s@),
{
    let start: usize = if s.len() > 0 && s[0] == '+' {
        1
    } else {
        0
    };
    let ghost t = if s@.len() > 0 && s@[0] == '+' {
        s@.drop_first()
    } else {
        s@
    };
    assert(t =~= s@.skip(start as int));
    if start == s.len() {
        return None;
    }
    let mut acc: u64 = 0;
    let mut i: usize = start;
    assert(t.take(0) =~= seq![]);
    while i < s.len()
        invariant
            start <= i <= s.len(),
            t == s@.skip(start as int),
            t == (if s@.len() > 0 && s@[0] == '+' {
                s@.drop_first()
            } else {
                s@
            }),
            t.len() > 0,
            acc == digits_value(t.take(i - start)),
            acc <= u32::MAX,
            all_digits(t.take(i - start)),
        decreases s.len() - i,
    {
        let c = s[i];
        let ghost k = i - start;
        assert(t.take(k + 1).drop_last() =~= t.take(k));
        assert(t.take(k + 1).last() == c);
        let code = c as u32;
        assert(t[k] == c);
        if !(48 <= code && code <= 57) {
            assert(!is_digit(t[k]));
            assert(!all_digits(t));
            return None;
        }
        let d = (code - 48) as u64;
        assert(acc * 10 <= u32::MAX * 10) by (nonlinear_arith)
            requires
                acc <= u32::MAX,
        ;
        let next = acc * 10 + d;
        assert(next == digits_value(t.take(k + 1)));
        assert(all_digits(t.take(k + 1))) by {
            assert forall|j: int| 0 <= j < k + 1 implies is_digit(#[trigger] t.take(k + 1)[j]) by {
                if j < k {
                    assert(t.take(k + 1)[j] == t.take(k)[j]);
                }
            }
        }
        if next > u32::MAX as u64 {
            proof {
                if all_digits(t) {
                    lemma_digits_value_prefix(t, k + 1);
                    assert(t.len() > 0);
                }
            }
            return None;
        }
        acc = next;
        i += 1;
    }
    assert(t.take(i - start) =~= t);
    Some(acc as u32)
}

/// Parses the text of `s` as a `u32`.
pub fn parse_u32_str(s: &str) -> (r: Option<u32>)
    ensures
        r == parse_u32(s@),
{
    let v = chars_of(s);
    parse_u32_chars(&v)
}

/// `s` holds no characters.
pub fn is_blank_text(s: &str) -> (r: bool)
    ensures
        r == (s@.len() == 0),
{
    let v = chars_of(s);
    v.len() == 0
}

/// [`index_of`] finds the first occurrence, or says there is none.
pub proof fn lemma_index_of(s: Seq<char>, c: char)
    ensures
        match index_of(s, c) {
            Some(i) => 0 <= i < s.len() && s[i] == c && forall|k: int| 0 <= k < i ==> s[k] != c,
            None => forall|k: int| 0 <= k < s.len() ==> s[k] != c,
        },
    decreases s.len(),
{
    if s.len() > 0 {
        lemma_index_of(s.drop_last(), c);
        assert forall|k: int| 0 <= k < s.len() - 1 implies s.drop_last()[k] == s[k] by {}
    }
}

/// [`last_index_of`] finds the last occurrence, or says there is none.
pub proof fn lemma_last_index_of(s: Seq<char>, c: char)
    ensures
        match last_index_of(s, c) {
            Some(i) => 0 <= i < s.len() && s[i] == c && forall|k: int| i < k < s.len() ==> s[k] != c,
            None => forall|k: int| 0 <= k < s.len() ==> s[k] != c,
        },
    decreases s.len(),
{
    if s.len() > 0 {
        lemma_last_index_of(s.drop_last(), c);
        assert forall|k: int| 0 <= k < s.len() - 1 implies s.drop_last()[k] == s[k] by {}
    }
}

} // verus!
