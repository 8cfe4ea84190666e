//! Character-level string handling with specifications: prefixes, substring
//! search, Unicode white space, decimal numbers and line splitting.
use vstd::prelude::*;

verus! {

/// The characters of `s`, in order.
pub fn chars_of(s: &str) -> (v: Vec<char>)
    ensures
        v@ == s@,
{
    let mut v: Vec<char> = Vec::new();
    for c in it: s.chars()
        invariant
            v@ == it.seq().take(it.index() as int),
            it.seq() == s@,
    {
        v.push(c);
    }
    v
}

/// Collects characters into a `String` (std `String::from_iter`).
/// Trusted: the string holds exactly the given characters, in order.
#[verifier::external_body]
pub(crate) fn string_from_chars(v: Vec<char>) -> (s: String)
    ensures
        s@ == v@,
{
    String::from_iter(v)
}

/// `p` is a prefix of `s`.
pub open spec fn starts_with(s: Seq<char>, p: Seq<char>) -> bool {
    p.len() <= s.len() && s.subrange(0, p.len() as int) == p
}

/// `p` occurs in `s` at position `i`.
pub open spec fn occurs_at(s: Seq<char>, p: Seq<char>, i: int) -> bool {
    0 <= i && i + p.len() <= s.len() && s.subrange(i, i + p.len()) == p
}

/// `p` occurs somewhere in `s` (the empty pattern occurs everywhere).
pub open spec fn contains(s: Seq<char>, p: Seq<char>) -> bool {
    exists|i: int| #[trigger] occurs_at(s, p, i)
}

/// Tests whether `p` occurs in `s` at position `i`.
pub fn matches_at(s: &Vec<char>, p: &Vec<char>, i: usize) -> (b: bool)
    ensures
        b == occurs_at(s@, p@, i as int),
{
    if i > s.len() || p.len() > s.len() - i {
        return false;
    }
    let mut j: usize = 0;
    while j < p.len()
        invariant
            i + p.len() <= s.len(),
            j <= p.len(),
            forall|k: int| 0 <= k < j ==> s@[i + k] == p@[k],
        decreases p.len() - j,
    {
        if s[i + j] != p[j] {
            assert(s@.subrange(i as int, i + p.len())[j as int] != p@[j as int]);
            return false;
        }
        j = j + 1;
    }
    assert(s@.subrange(i as int, i + p.len()) =~= p@);
    true
}

/// Tests whether `p` is a prefix of `s`.
pub fn has_prefix(s: &Vec<char>, p: &Vec<char>) -> (b: bool)
    ensures
        b == starts_with(s@, p@),
{
    matches_at(s, p, 0)
}

/// Tests whether `p` occurs anywhere in `s`.
pub fn find(s: &Vec<char>, p: &Vec<char>) -> (b: bool)
    ensures
        b == contains(s@, p@),
{
    if p.len() > s.len() {
        assert forall|i: int| !occurs_at(s@, p@, i) by {}
        return false;
    }
    let mut i: usize = 0;
    let last = s.len() - p.len();
    while i < last
        invariant
            p.len() <= s.len(),
            last == s.len() - p.len(),
            i <= last,
            forall|k: int| 0 <= k < i ==> !occurs_at(s@, p@, k),
        decreases last - i,
    {
        if matches_at(s, p, i) {
            return true;
        }
        i = i + 1;
    }
    if matches_at(s, p, last) {
        return true;
    }
    assert forall|k: int| !occurs_at(s@, p@, k) by {
        if 0 <= k <= last {
        }
    }
    false
}

/// Unicode `White_Space` property, as used by `char::is_whitespace`.
pub open spec fn is_white_space(c: char) -> bool {
    let v = c as u32;
    (9 <= v <= 13) || v == 32 || v == 0x85 || v == 0xA0 || v == 0x1680 || (0x2000 <= v <= 0x200A)
        || v == 0x2028 || v == 0x2029 || v == 0x202F || v == 0x205F || v == 0x3000
}

/// Tests the Unicode `White_Space` property.
pub fn white_space(c: char) -> (b: bool)
    ensures
        b == is_white_space(c),
{
    let v = c as u32;
    (9 <= v && v <= 13) || v == 32 || v == 0x85 || v == 0xA0 || v == 0x1680 || (0x2000 <= v && v
        <= 0x200A) || v == 0x2028 || v == 0x2029 || v == 0x202F || v == 0x205F || v == 0x3000
}

/// `s` without its leading white space (`str::trim_start`).
pub open spec fn trim_start(s: Seq<char>) -> Seq<char>
    decreases s.len(),
{
    if s.len() > 0 && is_white_space(s[0]) {
        trim_start(s.drop_first())
    } else {
        s
    }
}

/// `s` without its trailing white space (`str::trim_end`).
pub open spec fn trim_end(s: Seq<char>) -> Seq<char>
    decreases s.len(),
{
    if s.len() > 0 && is_white_space(s.last()) {
        trim_end(s.drop_last())
    } else {
        s
    }
}

/// `s` without leading and trailing white space (`str::trim`).
pub open spec fn trim(s: Seq<char>) -> Seq<char> {
    trim_end(trim_start(s))
}

/// Leading white space can be skipped before trimming.
pub proof fn lemma_trim_start_skip(s: Seq<char>, i: int)
    requires
        0 <= i <= s.len(),
        forall|k: int| 0 <= k < i ==> is_white_space(#[trigger] s[k]),
    ensures
        trim_start(s) == trim_start(s.skip(i)),
    decreases i,
{
    if i > 0 {
        assert(s.drop_first().skip(i - 1) =~= s.skip(i));
        lemma_trim_start_skip(s.drop_first(), i - 1);
    } else {
        assert(s.skip(0) =~= s);
    }
}

proof fn lemma_trim_end_take(s: Seq<char>, j: int)
    requires
        0 <= j <= s.len(),
        forall|k: int| j <= k < s.len() ==> is_white_space(#[trigger] s[k]),
    ensures
        trim_end(s) == trim_end(s.take(j)),
    decreases s.len() - j,
{
    if j < s.len() {
        assert(s.drop_last().take(j) =~= s.take(j));
        lemma_trim_end_take(s.drop_last(), j);
    } else {
        assert(s.take(j) =~= s);
    }
}

/// Number of leading white-space characters of `s`.
pub fn leading_white_space(s: &Vec<char>) -> (n: usize)
    ensures
        n <= s.len(),
        trim_start(s@) == s@.skip(n as int),
{
    let mut i: usize = 0;
    while i < s.len() && white_space(s[i])
        invariant
            i <= s.len(),
            forall|k: int| 0 <= k < i ==> is_white_space(#[trigger] s@[k]),
        decreases s.len() - i,
    {
        i = i + 1;
    }
    proof {
        lemma_trim_start_skip(s@, i as int);
    }
    i
}

/// `s` without leading and trailing white space.
pub fn trimmed(s: &Vec<char>) -> (r: Vec<char>)
    ensures
        r@ == trim(s@),
{
    let a = leading_white_space(s);
    let ghost t = s@.skip(a as int);
    let mut b: usize = s.len();
    while b > a && white_space(s[b - 1])
        invariant
            a <= b <= s.len(),
            t == s@.skip(a as int),
            forall|k: int| b - a <= k < t.len() ==> is_white_space(#[trigger] t[k]),
        decreases b,
    {
        b = b - 1;
    }
    proof {
        lemma_trim_end_take(t, b - a);
        assert(t.take(b - a) =~= s@.subrange(a as int, b as int));
    }
    slice_chars(s, a, b)
}

/// The characters of `s` in `[from, to)`.
pub fn slice_chars(s: &Vec<char>, from: usize, to: usize) -> (r: Vec<char>)
    requires
        from <= to <= s.len(),
    ensures
        r@ == s@.subrange(from as int, to as int),
{
    let mut r: Vec<char> = Vec::new();
    let mut i = from;
    while i < to
        invariant
            from <= i <= to <= s.len(),
            r@ == s@.subrange(from as int, i as int),
        decreases to - i,
    {
        r.push(s[i]);
        i = i + 1;
        assert(r@ =~= s@.subrange(from as int, i as int));
    }
    r
}

/// The decimal digit character for `d < 10`.
pub open spec fn digit_char(d: nat) -> char {
    if d == 0 {
        '0'
    } else if d == 1 {
        '1'
    } else if d == 2 {
        '2'
    } else if d == 3 {
        '3'
    } else if d == 4 {
        '4'
    } else if d == 5 {
        '5'
    } else if d == 6 {
        '6'
    } else if d == 7 {
        '7'
    } else if d == 8 {
        '8'
    } else {
        '9'
    }
}

/// The digit character of `d < 10`.
pub fn digit(d: u64) -> (c: char)
    requires
        d < 10,
    ensures
        c == digit_char(d as nat),
{
    if d == 0 {
        '0'
    } else if d == 1 {
        '1'
    } else if d == 2 {
        '2'
    } else if d == 3 {
        '3'
    } else if d == 4 {
        '4'
    } else if d == 5 {
        '5'
    } else if d == 6 {
        '6'
    } else if d == 7 {
        '7'
    } else if d == 8 {
        '8'
    } else {
        '9'
    }
}

/// Decimal representation of `n`, without sign or leading zeros.
pub open spec fn decimal(n: nat) -> Seq<char>
    decreases n,
{
    if n < 10 {
        seq![digit_char(n)]
    } else {
        decimal(n / 10).push(digit_char(n % 10))
    }
}

/// Appends the decimal representation of `n` to `out`.
pub fn push_decimal(out: &mut Vec<char>, n: u64)
    ensures
        final(out)@ == old(out)@ + decimal(n as nat),
    decreases n,
{
    if n >= 10 {
        push_decimal(out, n / 10);
    }
    out.push(digit(n % 10));
    proof {
        let ghost s = decimal(n as nat);
        assert(final(out)@ =~= old(out)@ + s);
    }
}

/// Appends the characters of `s` to `out`.
pub fn push_str(out: &mut Vec<char>, s: &str)
    ensures
        final(out)@ == old(out)@ + s@,
{
    let c = chars_of(s);
    let mut i: usize = 0;
    let ghost start = out@;
    while i < c.len()
        invariant
            i <= c.len(),
            c@ == s@,
            out@ == start + c@.take(i as int),
        decreases c.len() - i,
    {
        out.push(c[i]);
        i = i + 1;
        assert(out@ =~= start + c@.take(i as int));
    }
    assert(c@.take(c.len() as int) =~= c@);
}

/// Index of the first `c` in `s` at or after `from`, or `s.len()` when there is none.
pub open spec fn index_of(s: Seq<char>, c: char, from: int) -> int
    decreases s.len() - from,
{
    if from >= s.len() {
        s.len() as int
    } else if s[from] == c {
        from
    } else {
        index_of(s, c, from + 1)
    }
}

/// Bounds and meaning of `index_of`.
pub proof fn lemma_index_of(s: Seq<char>, c: char, from: int)
    requires
        0 <= from,
    ensures
        from <= s.len() ==> from <= index_of(s, c, from) <= s.len(),
        from > s.len() ==> index_of(s, c, from) == s.len(),
        index_of(s, c, from) < s.len() ==> s[index_of(s, c, from)] == c,
        forall|k: int| from <= k < index_of(s, c, from) ==> s[k] != c,
    decreases s.len() - from,
{
    if from < s.len() && s[from] != c {
        lemma_index_of(s, c, from + 1);
    }
}

proof fn lemma_index_of_skip(s: Seq<char>, c: char, i: int, j: int)
    requires
        0 <= i <= s.len(),
        0 <= j,
    ensures
        index_of(s.skip(i), c, j) == index_of(s, c, i + j) - i,
    decreases s.len() - (i + j),
{
    if i + j < s.len() && s[i + j] != c {
        lemma_index_of_skip(s, c, i, j + 1);
    }
}

/// Position of the first `c` in `s` at or after `from`, or `s.len()`.
pub fn find_char(s: &Vec<char>, c: char, from: usize) -> (r: usize)
    ensures
        r as int == index_of(s@, c, from as int),
{
    let mut i = from;
    if i > s.len() {
        return s.len();
    }
    while i < s.len() && s[i] != c
        invariant
            from <= i <= s.len(),
            index_of(s@, c, from as int) == index_of(s@, c, i as int),
        decreases s.len() - i,
    {
        i = i + 1;
    }
    i
}

/// A line without its carriage return before the line feed.
pub open spec fn strip_cr(l: Seq<char>) -> Seq<char> {
    if l.len() > 0 && l.last() == '\r' {
        l.drop_last()
    } else {
        l
    }
}

/// The lines of `s`, as `str::lines` yields them: split at `\n`, a `\r` before
/// the `\n` dropped, the final line ending optional.
pub open spec fn lines(s: Seq<char>) -> Seq<Seq<char>>
    decreases s.len(),
{
    if s.len() == 0 {
        seq![]
    } else {
        let k = index_of(s, '\n', 0);
        if k >= s.len() {
            seq![s]
        } else {
            proof {
                lemma_index_of(s, '\n', 0);
            }
            seq![strip_cr(s.take(k))] + lines(s.skip(k + 1))
        }
    }
}

/// Splits `s` into its lines (`str::lines`).
pub fn split_lines(s: &Vec<char>) -> (r: Vec<Vec<char>>)
    ensures
        r@.len() == lines(s@).len(),
        forall|i: int| 0 <= i < r@.len() ==> #[trigger] r@[i]@ == lines(s@)[i],
{
    let mut r: Vec<Vec<char>> = Vec::new();
    let ghost acc: Seq<Seq<char>> = seq![];
    let mut i: usize = 0;
    assert(s@.skip(0) =~= s@);
    while i < s.len()
        invariant
            i <= s.len(),
            r@.len() == acc.len(),
            forall|j: int| 0 <= j < r@.len() ==> #[trigger] r@[j]@ == acc[j],
            lines(s@) == acc + lines(s@.skip(i as int)),
        decreases s.len() - i,
    {
        let ghost rest = s@.skip(i as int);
        let k = find_char(s, '\n', i);
        proof {
            lemma_index_of(s@, '\n', i as int);
            lemma_index_of_skip(s@, '\n', i as int, 0);
        }
        if k >= s.len() {
            let line = slice_chars(s, i, s.len());
            assert(line@ =~= rest);
            assert(lines(rest) == seq![rest]);
            r.push(line);
            proof {
                acc = acc.push(rest);
            }
            i = s.len();
            assert(s@.skip(i as int) =~= Seq::<char>::empty());
            assert(lines(s@.skip(i as int)) == Seq::<Seq<char>>::empty());
            assert(acc + lines(s@.skip(i as int)) =~= acc);
        } else {
            let mut line = slice_chars(s, i, k);
            assert(line@ =~= rest.take(k - i));
            if line.len() > 0 && line[line.len() - 1] == '\r' {
                line.pop();
                assert(line@ =~= strip_cr(rest.take(k - i)));
            }
            assert(rest.skip(k - i + 1) =~= s@.skip(k + 1));
            r.push(line);
            proof {
                acc = acc.push(strip_cr(rest.take(k - i)));
            }
            i = k + 1;
        }
    }
    assert(s@.skip(i as int) =~= Seq::<char>::empty());
    assert(acc + Seq::<Seq<char>>::empty() =~= acc);
    r
}

/// `s` with every non-overlapping occurrence of `pat`, scanning from the left,
/// replaced by `rep` (`str::replace` for a non-empty pattern).
pub open spec fn replace_all(s: Seq<char>, pat: Seq<char>, rep: Seq<char>) -> Seq<char>
    decreases s.len(),
{
    if pat.len() == 0 || s.len() < pat.len() {
        s
    } else if starts_with(s, pat) {
        rep + replace_all(s.skip(pat.len() as int), pat, rep)
    } else {
        seq![s[0]] + replace_all(s.drop_first(), pat, rep)
    }
}

/// An occurrence of `pat` in `s` that starts before position `n`.
pub open spec fn occurs_before(s: Seq<char>, pat: Seq<char>, n: int) -> bool {
    exists|i: int| 0 <= i < n && occurs_at(s, pat, i)
}

/// Replacement goes through the whole text: when no occurrence of `pat`
/// starts inside `a`, replacing in `a + pat + b` keeps `a`, puts `rep` for
/// that occurrence, and goes on replacing in `b`.
pub proof fn lemma_replace_all_splits(a: Seq<char>, pat: Seq<char>, b: Seq<char>, rep: Seq<char>)
    requires
        pat.len() > 0,
        !occurs_before(a + pat + b, pat, a.len() as int),
    ensures
        replace_all(a + pat + b, pat, rep) == a + rep + replace_all(b, pat, rep),
    decreases a.len(),
{
    let s = a + pat + b;
    if a.len() == 0 {
        assert(s =~= pat + b);
        assert(s.subrange(0, pat.len() as int) =~= pat);
        assert(s.skip(pat.len() as int) =~= b);
        assert(a + rep + replace_all(b, pat, rep) =~= rep + replace_all(b, pat, rep));
    } else {
        assert(!occurs_at(s, pat, 0));
        assert(!starts_with(s, pat)) by {
            if starts_with(s, pat) {
                assert(occurs_at(s, pat, 0));
            }
        }
        let a2 = a.drop_first();
        assert(s.drop_first() =~= a2 + pat + b);
        assert forall|i: int| 0 <= i < a2.len() implies !occurs_at(a2 + pat + b, pat, i) by {
            assert(!occurs_at(s, pat, i + 1));
            if occurs_at(a2 + pat + b, pat, i) {
                assert(s.subrange(i + 1, i + 1 + pat.len()) =~= (a2 + pat + b).subrange(
                    i,
                    i + pat.len(),
                ));
            }
        }
        lemma_replace_all_splits(a2, pat, b, rep);
        assert(a + rep + replace_all(b, pat, rep) =~= seq![a[0]] + (a2 + rep + replace_all(
            b,
            pat,
            rep,
        )));
    }
}

/// Replacement leaves nothing to replace behind: when every occurrence in
/// `s` of the first character of `pat` begins an occurrence of `pat`, and
/// `rep` does not hold that character, the result does not hold it either
/// (so, in particular, it holds no occurrence of `pat`).
pub proof fn lemma_replace_all_leaves_none(s: Seq<char>, pat: Seq<char>, rep: Seq<char>)
    requires
        pat.len() > 0,
        forall|i: int| 0 <= i < s.len() && s[i] == pat[0] ==> occurs_at(s, pat, i),
        forall|i: int| 0 <= i < rep.len() ==> rep[i] != pat[0],
    ensures
        forall|k: int|
            0 <= k < replace_all(s, pat, rep).len() ==> #[trigger] replace_all(s, pat, rep)[k]
                != pat[0],
    decreases s.len(),
{
    let r = replace_all(s, pat, rep);
    if s.len() < pat.len() {
        assert forall|k: int| 0 <= k < r.len() implies #[trigger] r[k] != pat[0] by {
            if s[k] == pat[0] {
                assert(occurs_at(s, pat, k));
            }
        }
    } else if starts_with(s, pat) {
        let t = s.skip(pat.len() as int);
        assert forall|i: int| 0 <= i < t.len() && t[i] == pat[0] implies occurs_at(t, pat, i) by {
            assert(s[i + pat.len()] == t[i]);
            assert(occurs_at(s, pat, i + pat.len()));
            assert(t.subrange(i, i + pat.len()) =~= s.subrange(
                i + pat.len(),
                i + pat.len() + pat.len(),
            ));
        }
        lemma_replace_all_leaves_none(t, pat, rep);
        assert forall|k: int| 0 <= k < r.len() implies #[trigger] r[k] != pat[0] by {
            if k >= rep.len() {
                assert(r[k] == replace_all(t, pat, rep)[k - rep.len()]);
            }
        }
    } else {
        let t = s.drop_first();
        assert(s[0] != pat[0]) by {
            if s[0] == pat[0] {
                assert(occurs_at(s, pat, 0));
                assert(starts_with(s, pat));
            }
        }
        assert forall|i: int| 0 <= i < t.len() && t[i] == pat[0] implies occurs_at(t, pat, i) by {
            assert(s[i + 1] == t[i]);
            assert(occurs_at(s, pat, i + 1));
            assert(t.subrange(i, i + pat.len()) =~= s.subrange(i + 1, i + 1 + pat.len()));
        }
        lemma_replace_all_leaves_none(t, pat, rep);
        assert forall|k: int| 0 <= k < r.len() implies #[trigger] r[k] != pat[0] by {
            if k >= 1 {
                assert(r[k] == replace_all(t, pat, rep)[k - 1]);
            }
        }
    }
}

/// Text that does not hold the first character of `pat` is left as it is.
pub proof fn lemma_replace_all_untouched(s: Seq<char>, pat: Seq<char>, rep: Seq<char>)
    requires
        pat.len() > 0,
        forall|i: int| 0 <= i < s.len() ==> s[i] != pat[0],
    ensures
        replace_all(s, pat, rep) == s,
    decreases s.len(),
{
    if s.len() >= pat.len() {
        assert(!starts_with(s, pat)) by {
            if starts_with(s, pat) {
                assert(s.subrange(0, pat.len() as int)[0] == s[0]);
            }
        }
        lemma_replace_all_untouched(s.drop_first(), pat, rep);
        assert(seq![s[0]] + s.drop_first() =~= s);
    }
}

/// Replaces every occurrence of `pat` in `s` by `rep`.
pub fn replace(s: &Vec<char>, pat: &Vec<char>, rep: &Vec<char>) -> (r: Vec<char>)
    requires
        pat.len() > 0,
    ensures
        r@ == replace_all(s@, pat@, rep@),
{
    let mut r: Vec<char> = Vec::new();
    let mut i: usize = 0;
    assert(s@.skip(0) =~= s@);
    while i < s.len()
        invariant
            pat.len() > 0,
            i <= s.len(),
            replace_all(s@, pat@, rep@) == r@ + replace_all(s@.skip(i as int), pat@, rep@),
        decreases s.len() - i,
    {
        let ghost rest = s@.skip(i as int);
        let ghost before = r@;
        if matches_at(s, pat, i) {
            assert(rest.subrange(0, pat.len() as int) =~= s@.subrange(i as int, i + pat.len()));
            assert(rest.skip(pat.len() as int) =~= s@.skip(i + pat.len()));
            let mut j: usize = 0;
            while j < rep.len()
                invariant
                    j <= rep.len(),
                    r@ == before + rep@.take(j as int),
                decreases rep.len() - j,
            {
                r.push(rep[j]);
                j = j + 1;
                assert(r@ =~= before + rep@.take(j as int));
            }
            assert(rep@.take(rep.len() as int) =~= rep@);
            i = i + pat.len();
        } else {
            proof {
                if rest.len() >= pat.len() {
                    assert(rest.subrange(0, pat.len() as int) =~= s@.subrange(
                        i as int,
                        i + pat.len(),
                    ));
                }
                assert(rest.drop_first() =~= s@.skip(i + 1));
            }
            r.push(s[i]);
            i = i + 1;
        }
    }
    assert(s@.skip(i as int) =~= Seq::<char>::empty());
    assert(r@ + Seq::<char>::empty() =~= r@);
    r
}

/// The code of `c` with ASCII upper-case letters mapped to lower case.
pub open spec fn ascii_folded(c: char) -> u32 {
    if 65 <= c as u32 <= 90 {
        (c as u32 + 32) as u32
    } else {
        c as u32
    }
}

/// `a` and `b` are equal up to ASCII case (`str::eq_ignore_ascii_case`).
pub open spec fn equal_ignoring_ascii_case(a: Seq<char>, b: Seq<char>) -> bool {
    a.len() == b.len() && forall|i: int| 0 <= i < a.len() ==> ascii_folded(a[i]) == ascii_folded(b[i])
}

fn fold_ascii(c: char) -> (r: u32)
    ensures
        r == ascii_folded(c),
{
    let v = c as u32;
    if 65 <= v && v <= 90 {
        v + 32
    } else {
        v
    }
}

/// Compares `a` and `b` ignoring ASCII case.
pub fn eq_ignore_ascii_case(a: &Vec<char>, b: &Vec<char>) -> (r: bool)
    ensures
        r == equal_ignoring_ascii_case(a@, b@),
{
    if a.len() != b.len() {
        return false;
    }
    let mut i: usize = 0;
    while i < a.len()
        invariant
            a.len() == b.len(),
            i <= a.len(),
            forall|k: int| 0 <= k < i ==> ascii_folded(a@[k]) == ascii_folded(b@[k]),
        decreases a.len() - i,
    {
        if fold_ascii(a[i]) != fold_ascii(b[i]) {
            return false;
        }
        i = i + 1;
    }
    true
}

/// `c` is an ASCII decimal digit.
pub open spec fn is_digit(c: char) -> bool {
    48 <= c as u32 <= 57
}

/// All characters of `s` are ASCII decimal digits.
pub open spec fn all_digits(s: Seq<char>) -> bool {
    forall|i: int| 0 <= i < s.len() ==> is_digit(#[trigger] s[i])
}

/// The number that the decimal digits `s` denote.
pub open spec fn digits_value(s: Seq<char>) -> nat
    decreases s.len(),
{
    if s.len() == 0 {
        0
    } else {
        digits_value(s.drop_last()) * 10 + (s.last() as u32 - 48) as nat
    }
}

/// The digits that `str::parse::<u64>` reads: `s` without one leading `+`.
pub open spec fn unsigned_body(s: Seq<char>) -> Seq<char> {
    if s.len() > 0 && s[0] == '+' {
        s.drop_first()
    } else {
        s
    }
}

/// What `str::parse::<u64>` returns on `s`: an optional `+`, then at least one
/// ASCII digit and nothing else, with a value that fits in 64 bits.
pub open spec fn parsed_u64(s: Seq<char>) -> Option<u64> {
    let b = unsigned_body(s);
    if b.len() > 0 && all_digits(b) && digits_value(b) <= u64::MAX {
        Some(digits_value(b) as u64)
    } else {
        None
    }
}

proof fn lemma_digits_value_grows(s: Seq<char>, i: int)
    requires
        0 <= i <= s.len(),
        all_digits(s),
    ensures
        digits_value(s.take(i)) <= digits_value(s),
    decreases s.len() - i,
{
    if i < s.len() {
        assert(s.take(i + 1).drop_last() =~= s.take(i));
        assert(all_digits(s.take(i + 1)));
        lemma_digits_value_grows(s, i + 1);
    } else {
        assert(s.take(i) =~= s);
    }
}

/// Parses a decimal `u64` as `str::parse::<u64>` does.
pub fn parse_u64(s: &Vec<char>) -> (r: Option<u64>)
    ensures
        r == parsed_u64(s@),
{
    let start: usize = if s.len() > 0 && s[0] == '+' {
        1
    } else {
        0
    };
    let ghost b = unsigned_body(s@);
    assert(b =~= s@.skip(start as int));
    if start >= s.len() {
        return None;
    }
    let mut value: u64 = 0;
    let mut i = start;
    assert(b.take(0) =~= Seq::<char>::empty());
    while i < s.len()
        invariant
            start <= i <= s.len(),
            b == s@.skip(start as int),
            b == unsigned_body(s@),
            all_digits(b.take(i - start)),
            value as nat == digits_value(b.take(i - start)),
        decreases s.len() - i,
    {
        let c = s[i];
        let v = c as u32;
        if v < 48 || v > 57 {
            assert(b[i - start] == c);
            assert(!all_digits(b));
            return None;
        }
        let d = (v - 48) as u64;
        proof {
            assert(b.take(i - start + 1).drop_last() =~= b.take(i - start));
            assert(b.take(i - start + 1).last() == c);
            assert(all_digits(b.take(i - start + 1)));
        }
        if value > (u64::MAX - d) / 10 {
            proof {
                assert(digits_value(b.take(i - start + 1)) > u64::MAX) by (nonlinear_arith)
                    requires
                        value > (u64::MAX - d) / 10,
                        digits_value(b.take(i - start + 1)) == value * 10 + d,
                        d <= 9,
                ;
                if all_digits(b) {
                    lemma_digits_value_grows(b, i - start + 1);
                }
            }
            return None;
        }
        proof {
            assert(value * 10 + d <= u64::MAX) by (nonlinear_arith)
                requires
                    value <= (u64::MAX - d) / 10,
                    d <= 9,
            ;
        }
        value = value * 10 + d;
        i = i + 1;
    }
    assert(b.take(i - start) =~= b);
    Some(value)
}

/// The lowercase mapping of `str::to_lowercase` (Unicode `Lowercase` mapping).
pub uninterp spec fn unicode_lowercase(s: Seq<char>) -> Seq<char>;

/// std `str::to_lowercase`. Trusted: the result is the named lowercase mapping
/// of the argument; which characters map to what is not stated.
#[verifier::external_body]
pub(crate) fn to_lowercase(s: &str) -> (r: String)
    ensures
        r@ == unicode_lowercase(s@),
{
    s.to_lowercase()
}

/// The `char::is_alphanumeric` property (Unicode `Alphabetic` or `Numeric`).
pub uninterp spec fn unicode_alphanumeric(c: char) -> bool;

/// std `char::is_alphanumeric`. Trusted: the result is the named property of
/// the argument; which characters have it is not stated.
#[verifier::external_body]
pub(crate) fn is_alphanumeric(c: char) -> (b: bool)
    ensures
        b == unicode_alphanumeric(c),
{
    c.is_alphanumeric()
}

/// `s` with every leading repetition of the non-empty pattern `p` removed
/// (`str::trim_start_matches`).
pub open spec fn trim_start_matches(s: Seq<char>, p: Seq<char>) -> Seq<char>
    decreases s.len(),
{
    if p.len() > 0 && starts_with(s, p) {
        trim_start_matches(s.skip(p.len() as int), p)
    } else {
        s
    }
}

/// Removes every leading repetition of `p` from `s`.
pub fn strip_leading(s: &Vec<char>, p: &Vec<char>) -> (r: Vec<char>)
    ensures
        r@ == trim_start_matches(s@, p@),
{
    if p.len() == 0 {
        return slice_chars(s, 0, s.len());
    }
    let mut i: usize = 0;
    assert(s@.skip(0) =~= s@);
    while i < s.len() && matches_at(s, p, i)
        invariant
            p.len() > 0,
            i <= s.len(),
            trim_start_matches(s@, p@) == trim_start_matches(s@.skip(i as int), p@),
        decreases s.len() - i,
    {
        assert(s@.skip(i as int).subrange(0, p.len() as int) =~= s@.subrange(i as int, i + p.len()));
        assert(s@.skip(i as int).skip(p.len() as int) =~= s@.skip(i + p.len()));
        i = i + p.len();
    }
    proof {
        if i < s.len() {
            if s@.skip(i as int).len() >= p.len() {
                assert(s@.skip(i as int).subrange(0, p.len() as int) =~= s@.subrange(
                    i as int,
                    i + p.len(),
                ));
            }
        }
    }
    slice_chars(s, i, s.len())
}

/// Removing the leading repetitions of `p` again changes nothing.
pub proof fn lemma_trim_start_matches_idempotent(s: Seq<char>, p: Seq<char>)
    ensures
        trim_start_matches(trim_start_matches(s, p), p) == trim_start_matches(s, p),
        p.len() > 0 ==> !starts_with(trim_start_matches(s, p), p),
    decreases s.len(),
{
    if p.len() > 0 && starts_with(s, p) {
        lemma_trim_start_matches_idempotent(s.skip(p.len() as int), p);
    }
}

/// Concatenates the characters of two strings.
pub fn concat_str(a: &str, b: &str) -> (r: String)
    ensures
        r@ == a@ + b@,
{
    let mut v: Vec<char> = Vec::new();
    push_str(&mut v, a);
    push_str(&mut v, b);
    assert(v@ =~= a@ + b@);
    string_from_chars(v)
}

/// `n * m`, or `u64::MAX` when the product does not fit (`u64::saturating_mul`).
pub open spec fn saturating_product(n: u64, m: u64) -> u64 {
    if n * m > u64::MAX {
        u64::MAX
    } else {
        (n * m) as u64
    }
}

/// Multiplies, saturating at `u64::MAX`.
pub fn saturating_mul(n: u64, m: u64) -> (r: u64)
    ensures
        r == saturating_product(n, m),
{
    if m == 0 {
        return 0;
    }
    if n > u64::MAX / m {
        proof {
            assert(n * m > u64::MAX) by (nonlinear_arith)
                requires
                    n > u64::MAX / m,
                    m > 0,
            ;
        }
        u64::MAX
    } else {
        proof {
            assert(n * m <= u64::MAX) by (nonlinear_arith)
                requires
                    n <= u64::MAX / m,
                    m > 0,
            ;
        }
        n * m
    }
}

} // verus!
