use vstd::prelude::*;

verus! {

/// Character-wise equality of two string slices.
pub fn str_eq(a: &str, b: &str) -> (r: bool)
    ensures
        r == (a@ == b@),
{
    let n = a.unicode_len();
    if n != b.unicode_len() {
        return false;
    }
    let mut i: usize = 0;
    while i < n
        invariant
            n == a@.len(),
            n == b@.len(),
            i <= n,
            a@.subrange(0, i as int) == b@.subrange(0, i as int),
        decreases n - i,
    {
        if a.get_char(i) != b.get_char(i) {
            return false;
        }
        assert(a@.subrange(0, i + 1) == a@.subrange(0, i as int).push(a@[i as int]));
        assert(b@.subrange(0, i + 1) == b@.subrange(0, i as int).push(b@[i as int]));
        i = i + 1;
    }
    assert(a@ == a@.subrange(0, n as int));
    assert(b@ == b@.subrange(0, n as int));
    true
}


/// `p` occurs in `s` starting at index `i`.
pub open spec fn occurs_at(s: Seq<char>, p: Seq<char>, i: int) -> bool {
    0 <= i && i + p.len() <= s.len() && s.subrange(i, i + p.len()) == p
}

/// The first index at or after `i` where `p` occurs in `s`.
pub open spec fn first_from(s: Seq<char>, p: Seq<char>, i: int) -> Option<int>
    decreases s.len() + 1 - i,
{
    if i < 0 || i + p.len() > s.len() {
        None
    } else if occurs_at(s, p, i) {
        Some(i)
    } else {
        first_from(s, p, i + 1)
    }
}

/// The last index at or before `i` where `p` occurs in `s`.
pub open spec fn last_before(s: Seq<char>, p: Seq<char>, i: int) -> Option<int>
    decreases i + 1,
{
    if i < 0 {
        None
    } else if occurs_at(s, p, i) {
        Some(i)
    } else {
        last_before(s, p, i - 1)
    }
}

/// Text before and after the first occurrence of `p`.
pub open spec fn split_once_spec(s: Seq<char>, p: Seq<char>) -> Option<(Seq<char>, Seq<char>)> {
    match first_from(s, p, 0) {
        Some(i) => Some((s.subrange(0, i), s.subrange(i + p.len(), s.len() as int))),
        None => None,
    }
}

/// Text before and after the last occurrence of `p`.
pub open spec fn rsplit_once_spec(s: Seq<char>, p: Seq<char>) -> Option<(Seq<char>, Seq<char>)> {
    match last_before(s, p, s.len() - p.len()) {
        Some(i) => Some((s.subrange(0, i), s.subrange(i + p.len(), s.len() as int))),
        None => None,
    }
}

/// The pieces of `s` between occurrences of `c`.
pub open spec fn split_char(s: Seq<char>, c: char) -> Seq<Seq<char>>
    decreases s.len(),
{
    match first_from(s, seq![c], 0) {
        Some(i) => if 0 <= i < s.len() {
            seq![s.subrange(0, i)] + split_char(s.subrange(i + 1, s.len() as int), c)
        } else {
            seq![s]
        },
        None => seq![s],
    }
}

pub open spec fn contains_spec(s: Seq<char>, p: Seq<char>) -> bool {
    first_from(s, p, 0) is Some
}

pub open spec fn starts_with_spec(s: Seq<char>, p: Seq<char>) -> bool {
    p.len() <= s.len() && s.subrange(0, p.len() as int) == p
}

pub proof fn lemma_first_from(s: Seq<char>, p: Seq<char>, i: int)
    requires
        0 <= i,
    ensures
        first_from(s, p, i) matches Some(k) ==> i <= k && occurs_at(s, p, k) && forall|j: int|
            i <= j < k ==> !occurs_at(s, p, j),
        first_from(s, p, i) is None ==> forall|j: int| i <= j ==> !occurs_at(s, p, j),
    decreases s.len() + 1 - i,
{
    if i + p.len() > s.len() {
    } else if occurs_at(s, p, i) {
    } else {
        lemma_first_from(s, p, i + 1);
    }
}

pub proof fn lemma_last_before(s: Seq<char>, p: Seq<char>, i: int)
    ensures
        last_before(s, p, i) matches Some(k) ==> k <= i && occurs_at(s, p, k) && forall|j: int|
            k < j <= i ==> !occurs_at(s, p, j),
        last_before(s, p, i) is None ==> forall|j: int| j <= i ==> !occurs_at(s, p, j),
    decreases i + 1,
{
    if i < 0 {
    } else if occurs_at(s, p, i) {
    } else {
        lemma_last_before(s, p, i - 1);
    }
}

/// Relies on `String::push`: appends one character.
#[verifier::external_body]
fn push_char(s: &mut String, c: char)
    ensures
        final(s)@ == old(s)@.push(c),
{
    s.push(c)
}

/// The characters of a string slice, in order.
pub fn chars_of(s: &str) -> (r: Vec<char>)
    ensures
        r@ == s@,
{
    let n = s.unicode_len();
    let mut r: Vec<char> = Vec::new();
    let mut i: usize = 0;
    while i < n
        invariant
            n == s@.len(),
            i <= n,
            r@ == s@.subrange(0, i as int),
        decreases n - i,
    {
        r.push(s.get_char(i));
        assert(s@.subrange(0, i + 1) == s@.subrange(0, i as int).push(s@[i as int]));
        i = i + 1;
    }
    assert(s@ == s@.subrange(0, n as int));
    r
}

/// A string holding the given characters.
pub fn string_of(v: &[char]) -> (r: String)
    ensures
        r@ == v@,
{
    let mut r = String::new();
    let mut i: usize = 0;
    while i < v.len()
        invariant
            i <= v@.len(),
            r@ == v@.subrange(0, i as int),
        decreases v@.len() - i,
    {
        push_char(&mut r, v[i]);
        assert(v@.subrange(0, i + 1) == v@.subrange(0, i as int).push(v@[i as int]));
        i = i + 1;
    }
    assert(v@ == v@.subrange(0, v@.len() as int));
    r
}

/// The characters `s[from..to]`.
pub fn slice_of(s: &[char], from: usize, to: usize) -> (r: Vec<char>)
    requires
        from <= to <= s@.len(),
    ensures
        r@ == s@.subrange(from as int, to as int),
{
    let mut r: Vec<char> = Vec::new();
    let mut i: usize = from;
    while i < to
        invariant
            from <= i <= to,
            to <= s@.len(),
            r@ == s@.subrange(from as int, i as int),
        decreases to - i,
    {
        r.push(s[i]);
        assert(s@.subrange(from as int, i + 1) == s@.subrange(from as int, i as int).push(
            s@[i as int],
        ));
        i = i + 1;
    }
    r
}

/// Whether `p` occurs in `s` at index `i`.
pub fn occurs_at_exec(s: &[char], p: &[char], i: usize) -> (r: bool)
    ensures
        r == occurs_at(s@, p@, i as int),
{
    let n = s.len();
    if p.len() > n || i > n - p.len() {
        return false;
    }
    let mut k: usize = 0;
    while k < p.len()
        invariant
            n == s@.len(),
            i + p@.len() <= s@.len(),
            k <= p@.len(),
            forall|j: int| 0 <= j < k ==> s@[i + j] == p@[j],
        decreases p@.len() - k,
    {
        if s[i + k] != p[k] {
            assert(s@.subrange(i as int, i + p@.len())[k as int] != p@[k as int]);
            return false;
        }
        k = k + 1;
    }
    assert(s@.subrange(i as int, i + p@.len()) == p@);
    true
}

/// The first occurrence of `p` in `s` at or after `start`.
pub fn find_from(s: &[char], p: &[char], start: usize) -> (r: Option<usize>)
    ensures
        r matches Some(k) ==> first_from(s@, p@, start as int) == Some(k as int),
        r is None ==> first_from(s@, p@, start as int) is None,
{
    let n = s.len();
    if p.len() > n || start > n - p.len() {
        return None;
    }
    let last = n - p.len();
    let mut i: usize = start;
    loop
        invariant
            start <= i <= last,
            last + p@.len() == s@.len(),
            first_from(s@, p@, start as int) == first_from(s@, p@, i as int),
        decreases last - i,
    {
        if occurs_at_exec(s, p, i) {
            return Some(i);
        }
        if i == last {
            assert(first_from(s@, p@, i + 1) is None);
            return None;
        }
        i = i + 1;
    }
}

/// The last occurrence of `p` in `s`.
pub fn rfind(s: &[char], p: &[char]) -> (r: Option<usize>)
    ensures
        r matches Some(k) ==> last_before(s@, p@, s@.len() - p@.len()) == Some(k as int),
        r is None ==> last_before(s@, p@, s@.len() - p@.len()) is None,
{
    let n = s.len();
    if p.len() > n {
        return None;
    }
    let mut i: usize = n - p.len();
    loop
        invariant
            i + p@.len() == s@.len() || i + p@.len() < s@.len(),
            n == s@.len(),
            last_before(s@, p@, n - p@.len()) == last_before(s@, p@, i as int),
        decreases i,
    {
        if occurs_at_exec(s, p, i) {
            return Some(i);
        }
        if i == 0 {
            assert(last_before(s@, p@, -1) is None);
            return None;
        }
        i = i - 1;
    }
}

/// Splits at the first occurrence of `p`.
pub fn split_once(s: &[char], p: &[char]) -> (r: Option<(Vec<char>, Vec<char>)>)
    ensures
        r matches Some((a, b)) ==> split_once_spec(s@, p@) == Some((a@, b@)),
        r is None ==> split_once_spec(s@, p@) is None,
{
    match find_from(s, p, 0) {
        Some(i) => {
            proof {
                lemma_first_from(s@, p@, 0);
            }
            let n = s.len();
            Some((slice_of(s, 0, i), slice_of(s, i + p.len(), n)))
        },
        None => None,
    }
}

/// Splits at the last occurrence of `p`.
pub fn rsplit_once(s: &[char], p: &[char]) -> (r: Option<(Vec<char>, Vec<char>)>)
    ensures
        r matches Some((a, b)) ==> rsplit_once_spec(s@, p@) == Some((a@, b@)),
        r is None ==> rsplit_once_spec(s@, p@) is None,
{
    match rfind(s, p) {
        Some(i) => {
            proof {
                lemma_last_before(s@, p@, s@.len() - p@.len());
            }
            let n = s.len();
            Some((slice_of(s, 0, i), slice_of(s, i + p.len(), n)))
        },
        None => None,
    }
}

/// Whether `p` occurs anywhere in `s`.
pub fn contains(s: &[char], p: &[char]) -> (r: bool)
    ensures
        r == contains_spec(s@, p@),
{
    find_from(s, p, 0).is_some()
}

/// Whether `s` begins with `p`.
pub fn starts_with(s: &[char], p: &[char]) -> (r: bool)
    ensures
        r == starts_with_spec(s@, p@),
{
    if p.len() > s.len() {
        return false;
    }
    occurs_at_exec(s, p, 0)
}

/// The pieces of `s` between occurrences of `c`, as `str::split` yields them.
pub fn split_on(s: &[char], c: char) -> (r: Vec<Vec<char>>)
    ensures
        r@.len() == split_char(s@, c).len(),
        forall|k: int| 0 <= k < r@.len() ==> r@[k]@ == split_char(s@, c)[k],
{
    let sep: Vec<char> = vec![c];
    let mut r: Vec<Vec<char>> = Vec::new();
    let mut pos: usize = 0;
    let n = s.len();
    assert(s@.subrange(0, n as int) == s@);
    let ghost done: Seq<Seq<char>> = Seq::empty();
    loop
        invariant
            sep@ == seq![c],
            n == s@.len(),
            pos <= s@.len(),
            r@.len() == done.len(),
            forall|k: int| 0 <= k < r@.len() ==> r@[k]@ == done[k],
            done + split_char(s@.subrange(pos as int, s@.len() as int), c) == split_char(s@, c),
        decreases s@.len() - pos,
    {
        let ghost rest = s@.subrange(pos as int, s@.len() as int);
        match find_from(s, &sep, pos) {
            Some(i) => {
                proof {
                    lemma_first_from(s@, sep@, pos as int);
                    lemma_shifted_first(s@, sep@, pos as int);
                    assert(rest.subrange(0, i - pos) == s@.subrange(pos as int, i as int));
                    assert(rest.subrange(i - pos + 1, rest.len() as int) == s@.subrange(
                        i + 1,
                        s@.len() as int,
                    ));
                }
                let piece = slice_of(s, pos, i);
                proof {
                    done = done.push(piece@);
                    assert(done + split_char(s@.subrange(i + 1, s@.len() as int), c) == (done.drop_last() + split_char(rest, c)));
                }
                r.push(piece);
                pos = i + 1;
            },
            None => {
                proof {
                    lemma_first_from(s@, sep@, pos as int);
                    lemma_shifted_first(s@, sep@, pos as int);
                }
                let piece = slice_of(s, pos, s.len());
                proof {
                    done = done.push(piece@);
                    assert(done == split_char(s@, c));
                }
                r.push(piece);
                return r;
            },
        }
    }
}

/// Splitting always yields at least one piece.
pub proof fn lemma_split_char_nonempty(s: Seq<char>, c: char)
    ensures
        split_char(s, c).len() >= 1,
    decreases s.len(),
{
    match first_from(s, seq![c], 0) {
        Some(i) => if 0 <= i < s.len() {
            lemma_split_char_nonempty(s.subrange(i + 1, s.len() as int), c);
        },
        None => {},
    }
}

/// Searching from `pos` in `s` is searching from 0 in the rest of `s`.
proof fn lemma_shifted_first(s: Seq<char>, p: Seq<char>, pos: int)
    requires
        0 <= pos <= s.len(),
    ensures
        first_from(s.subrange(pos, s.len() as int), p, 0) == match first_from(s, p, pos) {
            Some(k) => Some(k - pos),
            None => None::<int>,
        },
{
    let t = s.subrange(pos, s.len() as int);
    lemma_first_from(s, p, pos);
    lemma_first_from(t, p, 0);
    assert forall|j: int| 0 <= j implies occurs_at(t, p, j) == occurs_at(s, p, j + pos) by {
        if 0 <= j && j + p.len() <= t.len() {
            assert(t.subrange(j, j + p.len()) == s.subrange(j + pos, j + pos + p.len()));
        }
    }
    match first_from(s, p, pos) {
        Some(k) => {
            match first_from(t, p, 0) {
                Some(m) => {
                    assert(occurs_at(s, p, m + pos));
                    assert(occurs_at(t, p, k - pos));
                },
                None => {
                    assert(occurs_at(t, p, k - pos));
                },
            }
        },
        None => {
            match first_from(t, p, 0) {
                Some(m) => {
                    assert(occurs_at(s, p, m + pos));
                },
                None => {},
            }
        },
    }
}

pub open spec fn digit_char(d: int) -> char {
    if d == 0 { '0' } else if d == 1 { '1' } else if d == 2 { '2' } else if d == 3 { '3' }
    else if d == 4 { '4' } else if d == 5 { '5' } else if d == 6 { '6' } else if d == 7 { '7' }
    else if d == 8 { '8' } else { '9' }
}

pub open spec fn is_digit(c: char) -> bool {
    '0' <= c && c <= '9'
}

pub open spec fn digit_value(c: char) -> int {
    c as int - '0' as int
}

/// The decimal digits of `n`, most significant first, without leading zeros.
pub open spec fn decimal(n: nat) -> Seq<char>
    decreases n,
{
    if n < 10 {
        seq![digit_char(n as int)]
    } else {
        decimal(n / 10).push(digit_char(n as int % 10))
    }
}

/// The number that a string of decimal digits denotes.
pub open spec fn digits_value(s: Seq<char>) -> int
    decreases s.len(),
{
    if s.len() == 0 {
        0
    } else {
        digits_value(s.drop_last()) * 10 + digit_value(s.last())
    }
}

/// What `str::parse::<usize>` accepts: an optional `+`, then one or more
/// decimal digits whose value fits.
pub open spec fn all_digits(d: Seq<char>) -> bool {
    forall|i: int| 0 <= i < d.len() ==> is_digit(#[trigger] d[i])
}

/// The digits after an optional leading `+`.
pub open spec fn unsigned_digits(s: Seq<char>) -> Seq<char> {
    if s.len() > 0 && s[0] == '+' {
        s.subrange(1, s.len() as int)
    } else {
        s
    }
}

pub open spec fn parse_usize_spec(s: Seq<char>) -> Option<usize> {
    let d = unsigned_digits(s);
    if d.len() > 0 && all_digits(d) && digits_value(d) <= usize::MAX {
        Some(digits_value(d) as usize)
    } else {
        None
    }
}

fn digit_of(d: usize) -> (c: char)
    requires
        d < 10,
    ensures
        c == digit_char(d as int),
{
    if d == 0 { '0' } else if d == 1 { '1' } else if d == 2 { '2' } else if d == 3 { '3' }
    else if d == 4 { '4' } else if d == 5 { '5' } else if d == 6 { '6' } else if d == 7 { '7' }
    else if d == 8 { '8' } else { '9' }
}

/// The decimal text of `n`.
pub fn decimal_of(n: usize) -> (r: Vec<char>)
    ensures
        r@ == decimal(n as nat),
{
    let mut r: Vec<char> = vec![digit_of(n % 10)];
    let mut m: usize = n / 10;
    proof {
        if n < 10 {
            assert(r@ =~= decimal(n as nat));
        } else {
            assert(decimal(n as nat) == decimal(m as nat).push(digit_char(n as int % 10)));
            assert(decimal(m as nat) + r@ =~= decimal(n as nat));
        }
    }
    while m > 0
        invariant
            m == 0 ==> r@ == decimal(n as nat),
            m > 0 ==> decimal(m as nat) + r@ == decimal(n as nat),
        decreases m,
    {
        let ghost before = r@;
        r.insert(0, digit_of(m % 10));
        proof {
            if m < 10 {
                assert(decimal(m as nat) =~= seq![digit_char(m as int % 10)]);
                assert(r@ =~= decimal(m as nat) + before);
            } else {
                assert(decimal(m as nat) == decimal((m / 10) as nat).push(digit_char(m as int % 10)));
                assert(decimal((m / 10) as nat) + r@ =~= decimal(m as nat) + before);
            }
        }
        m = m / 10;
    }
    r
}

/// Reads a decimal number as `str::parse::<usize>` does.
pub fn parse_usize(s: &[char]) -> (r: Option<usize>)
    ensures
        r == parse_usize_spec(s@),
{
    let n = s.len();
    let start: usize = if n > 0 && s[0] == '+' { 1 } else { 0 };
    let ghost d = unsigned_digits(s@);
    assert(d == s@.subrange(start as int, n as int));
    if start >= n {
        return None;
    }
    let mut value: usize = 0;
    let mut i: usize = start;
    while i < n
        invariant
            start <= i <= n,
            n == s@.len(),
            d == s@.subrange(start as int, n as int),
            d == unsigned_digits(s@),
            forall|j: int| start <= j < i ==> is_digit(#[trigger] s@[j]),
            value as int == digits_value(s@.subrange(start as int, i as int)),
        decreases n - i,
    {
        let c = s[i];
        if !('0' <= c && c <= '9') {
            assert(d[i - start] == c);
            assert(!all_digits(d));
            return None;
        }
        let dv: usize = (c as u32 - '0' as u32) as usize;
        assert(s@.subrange(start as int, i + 1).drop_last() =~= s@.subrange(start as int, i as int));
        if value > (usize::MAX - dv) / 10 {
            proof {
                let full = value as int * 10 + dv as int;
                assert(full > usize::MAX) by (nonlinear_arith)
                    requires
                        value > (usize::MAX - dv) / 10,
                        dv <= 9,
                        full == value as int * 10 + dv as int,
                ;
                assert(digits_value(s@.subrange(start as int, i + 1)) == full);
                if all_digits(d) {
                    lemma_digits_grow(d, (i + 1 - start) as int);
                    assert(d.subrange(0, i + 1 - start) =~= s@.subrange(start as int, i + 1));
                }
            }
            return None;
        }
        value = value * 10 + dv;
        i = i + 1;
    }
    assert forall|j: int| 0 <= j < d.len() implies is_digit(#[trigger] d[j]) by {
        assert(d[j] == s@[j + start]);
    }
    assert(d =~= s@.subrange(start as int, i as int));
    Some(value)
}

/// Digits appended never make the value smaller.
proof fn lemma_digits_grow(s: Seq<char>, k: int)
    requires
        0 <= k <= s.len(),
        forall|i: int| 0 <= i < s.len() ==> is_digit(#[trigger] s[i]),
    ensures
        digits_value(s.subrange(0, k)) <= digits_value(s),
        0 <= digits_value(s.subrange(0, k)),
    decreases s.len(),
{
    if s.len() > 0 {
        let init = s.drop_last();
        assert forall|i: int| 0 <= i < init.len() implies is_digit(#[trigger] init[i]) by {
            assert(init[i] == s[i]);
        }
        lemma_digits_nonneg(init);
        if k == s.len() {
            assert(s.subrange(0, k) =~= s);
        } else {
            assert(init.subrange(0, k) =~= s.subrange(0, k));
            lemma_digits_grow(init, k);
        }
    }
}

proof fn lemma_digits_nonneg(s: Seq<char>)
    requires
        forall|i: int| 0 <= i < s.len() ==> is_digit(#[trigger] s[i]),
    ensures
        0 <= digits_value(s),
    decreases s.len(),
{
    if s.len() > 0 {
        let init = s.drop_last();
        assert forall|i: int| 0 <= i < init.len() implies is_digit(#[trigger] init[i]) by {
            assert(init[i] == s[i]);
        }
        lemma_digits_nonneg(init);
    }
}

/// White space as `char::is_whitespace` defines it: the Unicode
/// `White_Space` property.
pub open spec fn is_ws(c: char) -> bool {
    ('\u{9}' <= c && c <= '\u{d}') || c == ' ' || c == '\u{85}' || c == '\u{a0}' || c
        == '\u{1680}' || ('\u{2000}' <= c && c <= '\u{200a}') || c == '\u{2028}' || c
        == '\u{2029}' || c == '\u{202f}' || c == '\u{205f}' || c == '\u{3000}'
}

pub fn is_whitespace(c: char) -> (r: bool)
    ensures
        r == is_ws(c),
{
    ('\u{9}' <= c && c <= '\u{d}') || c == ' ' || c == '\u{85}' || c == '\u{a0}' || c
        == '\u{1680}' || ('\u{2000}' <= c && c <= '\u{200a}') || c == '\u{2028}' || c
        == '\u{2029}' || c == '\u{202f}' || c == '\u{205f}' || c == '\u{3000}'
}

/// `s` without trailing white space.
pub open spec fn trim_end_spec(s: Seq<char>) -> Seq<char>
    decreases s.len(),
{
    if s.len() > 0 && is_ws(s.last()) {
        trim_end_spec(s.drop_last())
    } else {
        s
    }
}

/// `s` without leading white space.
pub open spec fn trim_start_spec(s: Seq<char>) -> Seq<char>
    decreases s.len(),
{
    if s.len() > 0 && is_ws(s[0]) {
        trim_start_spec(s.subrange(1, s.len() as int))
    } else {
        s
    }
}

/// `s` without leading and trailing white space.
pub open spec fn trim_spec(s: Seq<char>) -> Seq<char> {
    trim_start_spec(trim_end_spec(s))
}

/// The number of characters before the first white space.
pub open spec fn word_len(s: Seq<char>) -> nat
    decreases s.len(),
{
    if s.len() == 0 || is_ws(s[0]) {
        0
    } else {
        1 + word_len(s.subrange(1, s.len() as int))
    }
}

/// The runs of non-white-space characters, in order.
pub open spec fn ws_fields(s: Seq<char>) -> Seq<Seq<char>>
    decreases s.len(),
{
    if s.len() == 0 {
        Seq::empty()
    } else if is_ws(s[0]) {
        ws_fields(s.subrange(1, s.len() as int))
    } else {
        let w = word_len(s);
        if 1 <= w <= s.len() {
            seq![s.subrange(0, w as int)] + ws_fields(s.subrange(w as int, s.len() as int))
        } else {
            Seq::empty()
        }
    }
}

/// `s` without trailing white space, as `str::trim_end` gives it.
pub fn trim_end_chars(s: &[char]) -> (r: Vec<char>)
    ensures
        r@ == trim_end_spec(s@),
{
    let mut e: usize = s.len();
    assert(s@.subrange(0, e as int) =~= s@);
    while e > 0 && is_whitespace(s[e - 1])
        invariant
            e <= s@.len(),
            trim_end_spec(s@) == trim_end_spec(s@.subrange(0, e as int)),
        decreases e,
    {
        assert(s@.subrange(0, e as int).drop_last() =~= s@.subrange(0, e - 1));
        e = e - 1;
    }
    slice_of(s, 0, e)
}

/// `s` without leading white space, as `str::trim_start` gives it.
pub fn trim_start_chars(s: &[char]) -> (r: Vec<char>)
    ensures
        r@ == trim_start_spec(s@),
{
    let n = s.len();
    let mut b: usize = 0;
    assert(s@.subrange(0, n as int) =~= s@);
    while b < n && is_whitespace(s[b])
        invariant
            b <= n,
            n == s@.len(),
            trim_start_spec(s@) == trim_start_spec(s@.subrange(b as int, n as int)),
        decreases n - b,
    {
        assert(s@.subrange(b as int, n as int).subrange(1, n - b) =~= s@.subrange(b + 1, n as int));
        b = b + 1;
    }
    slice_of(s, b, n)
}

/// `s` without leading and trailing white space, as `str::trim` gives it.
pub fn trim_chars(s: &[char]) -> (r: Vec<char>)
    ensures
        r@ == trim_spec(s@),
{
    let t = trim_end_chars(s);
    trim_start_chars(t.as_slice())
}

/// The runs of non-white-space characters, as `str::split_whitespace`
/// yields them.
pub fn split_ws(s: &[char]) -> (r: Vec<Vec<char>>)
    ensures
        r@.len() == ws_fields(s@).len(),
        forall|k: int| 0 <= k < r@.len() ==> r@[k]@ == ws_fields(s@)[k],
{
    let n = s.len();
    let mut r: Vec<Vec<char>> = Vec::new();
    let mut pos: usize = 0;
    let ghost done: Seq<Seq<char>> = Seq::empty();
    assert(s@.subrange(0, n as int) =~= s@);
    while pos < n
        invariant
            pos <= n,
            n == s@.len(),
            r@.len() == done.len(),
            forall|k: int| 0 <= k < r@.len() ==> r@[k]@ == done[k],
            done + ws_fields(s@.subrange(pos as int, n as int)) == ws_fields(s@),
        decreases n - pos,
    {
        let ghost rest = s@.subrange(pos as int, n as int);
        if is_whitespace(s[pos]) {
            assert(rest.subrange(1, rest.len() as int) =~= s@.subrange(pos + 1, n as int));
            pos = pos + 1;
        } else {
            let mut e: usize = pos;
            while e < n && !is_whitespace(s[e])
                invariant
                    pos <= e <= n,
                    n == s@.len(),
                    rest == s@.subrange(pos as int, n as int),
                    word_len(rest) == (e - pos) + word_len(s@.subrange(e as int, n as int)),
                decreases n - e,
            {
                assert(s@.subrange(e as int, n as int).subrange(1, n - e) =~= s@.subrange(e + 1, n as int));
                e = e + 1;
            }
            proof {
                if e < n {
                    assert(is_ws(s@.subrange(e as int, n as int)[0]));
                }
                assert(word_len(rest) == e - pos);
                assert(rest.subrange(0, e - pos) =~= s@.subrange(pos as int, e as int));
                assert(rest.subrange(e - pos, rest.len() as int) =~= s@.subrange(e as int, n as int));
            }
            let piece = slice_of(s, pos, e);
            proof {
                done = done.push(piece@);
                assert(done + ws_fields(s@.subrange(e as int, n as int)) =~= done.drop_last() + ws_fields(rest));
            }
            r.push(piece);
            pos = e;
        }
    }
    proof {
        assert(s@.subrange(n as int, n as int) =~= Seq::<char>::empty());
        assert(done + Seq::<Seq<char>>::empty() =~= done);
    }
    r
}

} // verus!
