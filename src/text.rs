//! Character-level helpers shared by the parsers: whitespace trimming,
//! searching, splitting and conversions between `str` and `Vec<char>`.
use vstd::prelude::*;

verus! {

/// What `char::is_whitespace` accepts: the Unicode `White_Space` property.
pub open spec fn is_space(c: char) -> bool {
    let u = c as u32;
    ||| u == 0x20
    ||| 0x09 <= u <= 0x0d
    ||| u == 0x85
    ||| u == 0xa0
    ||| u == 0x1680
    ||| 0x2000 <= u <= 0x200a
    ||| u == 0x2028
    ||| u == 0x2029
    ||| u == 0x202f
    ||| u == 0x205f
    ||| u == 0x3000
}

pub fn is_space_char(c: char) -> (r: bool)
    ensures
        r == is_space(c),
{
    let u = c as u32;
    u == 0x20 || (0x09 <= u && u <= 0x0d) || u == 0x85 || u == 0xa0 || u == 0x1680 || (0x2000
        <= u && u <= 0x200a) || u == 0x2028 || u == 0x2029 || u == 0x202f || u == 0x205f || u
        == 0x3000
}

pub open spec fn trim_start(s: Seq<char>) -> Seq<char>
    decreases s.len(),
{
    if s.len() > 0 && is_space(s[0]) {
        trim_start(s.drop_first())
    } else {
        s
    }
}

pub open spec fn trim_end(s: Seq<char>) -> Seq<char>
    decreases s.len(),
{
    if s.len() > 0 && is_space(s.last()) {
        trim_end(s.drop_last())
    } else {
        s
    }
}

/// `str::trim`: leading and trailing whitespace removed.
pub open spec fn trim(s: Seq<char>) -> Seq<char> {
    trim_end(trim_start(s))
}

/// `i` is the position of the first `c` in `s`.
pub open spec fn first_at(s: Seq<char>, c: char, i: int) -> bool {
    &&& 0 <= i < s.len()
    &&& s[i] == c
    &&& forall|j: int| 0 <= j < i ==> s[j] != c
}

/// The position of the first `c` in `s`, or -1 when there is none.
pub open spec fn find_char(s: Seq<char>, c: char) -> int {
    if exists|i: int| first_at(s, c, i) {
        choose|i: int| first_at(s, c, i)
    } else {
        -1
    }
}

pub proof fn lemma_find_char(s: Seq<char>, c: char)
    ensures
        find_char(s, c) == -1 || first_at(s, c, find_char(s, c)),
        find_char(s, c) == -1 <==> forall|j: int| 0 <= j < s.len() ==> s[j] != c,
        forall|i: int| first_at(s, c, i) ==> find_char(s, c) == i,
{
    if exists|i: int| first_at(s, c, i) {
        let k = choose|i: int| first_at(s, c, i);
        assert forall|i: int| first_at(s, c, i) implies i == k by {
            if i < k {
                assert(s[i] != c);
            } else if i > k {
                assert(s[k] != c);
            }
        }
    } else {
        assert forall|j: int| 0 <= j < s.len() implies s[j] != c by {
            if s[j] == c {
                lemma_first_exists(s, c, j);
            }
        }
    }
}

proof fn lemma_first_exists(s: Seq<char>, c: char, j: int)
    requires
        0 <= j < s.len(),
        s[j] == c,
    ensures
        exists|i: int| first_at(s, c, i),
    decreases j,
{
    if exists|q: int| 0 <= q < j && s[q] == c {
        let q = choose|q: int| 0 <= q < j && s[q] == c;
        lemma_first_exists(s, c, q);
    } else {
        assert(first_at(s, c, j));
    }
}

/// `s` split at every `c`, as `str::split` with a `char` pattern does.
pub open spec fn split_on(s: Seq<char>, c: char) -> Seq<Seq<char>>
    decreases s.len(),
{
    let i = find_char(s, c);
    if 0 <= i < s.len() {
        seq![s.subrange(0, i)].add(split_on(s.subrange(i + 1, s.len() as int), c))
    } else {
        seq![s]
    }
}

/// The characters of `s`, in order.
pub fn chars_of(s: &str) -> (r: Vec<char>)
    ensures
        r@ == s@,
{
    let mut out: Vec<char> = Vec::new();
    for c in it: s.chars()
        invariant
            out@ == it.seq().take(it.index() as int),
            it.seq() == s@,
    {
        out.push(c);
    }
    out
}

/// Relies on `String::push`: appends one character.
#[verifier::external_body]
pub(crate) fn push_char(s: &mut String, c: char)
    ensures
        final(s)@ == old(s)@.push(c),
{
    s.push(c);
}

/// A `String` holding exactly the characters of `cs`.
pub fn string_of(cs: &[char]) -> (r: String)
    ensures
        r@ == cs@,
{
    let mut out = String::new();
    let mut i: usize = 0;
    while i < cs.len()
        invariant
            i <= cs@.len(),
            out@ == cs@.subrange(0, i as int),
        decreases cs@.len() - i,
    {
        push_char(&mut out, cs[i]);
        assert(cs@.subrange(0, i as int).push(cs@[i as int]) =~= cs@.subrange(0, i + 1));
        i = i + 1;
    }
    assert(cs@.subrange(0, cs@.len() as int) =~= cs@);
    out
}

/// The characters of `cs` from `from` up to `to`.
pub fn slice_chars(cs: &[char], from: usize, to: usize) -> (r: Vec<char>)
    requires
        from <= to <= cs@.len(),
    ensures
        r@ == cs@.subrange(from as int, to as int),
{
    let mut out: Vec<char> = Vec::new();
    let mut i: usize = from;
    while i < to
        invariant
            from <= i <= to,
            to <= cs@.len(),
            out@ == cs@.subrange(from as int, i as int),
        decreases to - i,
    {
        out.push(cs[i]);
        assert(cs@.subrange(from as int, i as int).push(cs@[i as int]) =~= cs@.subrange(
            from as int,
            i + 1,
        ));
        i = i + 1;
    }
    out
}

pub fn chars_equal(a: &[char], b: &[char]) -> (r: bool)
    ensures
        r == (a@ == b@),
{
    if a.len() != b.len() {
        return false;
    }
    let mut i: usize = 0;
    while i < a.len()
        invariant
            a@.len() == b@.len(),
            i <= a@.len(),
            forall|j: int| 0 <= j < i ==> a@[j] == b@[j],
        decreases a@.len() - i,
    {
        if a[i] != b[i] {
            return false;
        }
        i = i + 1;
    }
    assert(a@ =~= b@);
    true
}

pub fn find_char_in(cs: &[char], c: char) -> (r: Option<usize>)
    ensures
        match r {
            Some(i) => find_char(cs@, c) == i && i < cs@.len(),
            None => find_char(cs@, c) == -1,
        },
{
    proof {
        lemma_find_char(cs@, c);
    }
    let mut i: usize = 0;
    while i < cs.len()
        invariant
            i <= cs@.len(),
            forall|j: int| 0 <= j < i ==> cs@[j] != c,
        decreases cs@.len() - i,
    {
        if cs[i] == c {
            assert(first_at(cs@, c, i as int));
            return Some(i);
        }
        i = i + 1;
    }
    None
}

proof fn lemma_trim_start_step(s: Seq<char>, i: int)
    requires
        0 <= i < s.len(),
        is_space(s[i]),
    ensures
        trim_start(s.subrange(i, s.len() as int)) == trim_start(s.subrange(i + 1, s.len() as int)),
{
    assert(s.subrange(i, s.len() as int).drop_first() =~= s.subrange(i + 1, s.len() as int));
}

proof fn lemma_trim_end_step(s: Seq<char>, j: int)
    requires
        0 < j <= s.len(),
        is_space(s[j - 1]),
    ensures
        trim_end(s.subrange(0, j)) == trim_end(s.subrange(0, j - 1)),
{
    assert(s.subrange(0, j).drop_last() =~= s.subrange(0, j - 1));
}

/// `str::trim` on characters.
pub fn trim_chars(cs: &[char]) -> (r: Vec<char>)
    ensures
        r@ == trim(cs@),
{
    let n = cs.len();
    let mut i: usize = 0;
    assert(cs@.subrange(0, n as int) =~= cs@);
    while i < n && is_space_char(cs[i])
        invariant
            i <= n,
            n == cs@.len(),
            trim_start(cs@) == trim_start(cs@.subrange(i as int, n as int)),
        decreases n - i,
    {
        proof {
            lemma_trim_start_step(cs@, i as int);
        }
        i = i + 1;
    }
    let ghost mid = cs@.subrange(i as int, n as int);
    assert(trim_start(cs@) == mid);
    let mut j: usize = n;
    assert(mid.subrange(0, mid.len() as int) =~= mid);
    while j > i && is_space_char(cs[j - 1])
        invariant
            i <= j <= n,
            n == cs@.len(),
            mid == cs@.subrange(i as int, n as int),
            trim_end(mid) == trim_end(mid.subrange(0, j - i)),
        decreases j,
    {
        proof {
            lemma_trim_end_step(mid, j - i);
        }
        j = j - 1;
    }
    assert(mid.subrange(0, j - i) =~= cs@.subrange(i as int, j as int));
    slice_chars(cs, i, j)
}

/// `str::split` at every `c`.
pub fn split_chars(cs: &[char], c: char) -> (r: Vec<Vec<char>>)
    ensures
        r@.len() == split_on(cs@, c).len(),
        forall|k: int| 0 <= k < r@.len() ==> #[trigger] r@[k]@ == split_on(cs@, c)[k],
{
    let n = cs.len();
    let mut pieces: Vec<Vec<char>> = Vec::new();
    let mut start: usize = 0;
    let mut i: usize = 0;
    let ghost whole = split_on(cs@, c);
    assert(cs@.subrange(0, n as int) =~= cs@);
    while i < n
        invariant
            start <= i <= n,
            n == cs@.len(),
            whole == split_on(cs@, c),
            forall|j: int| start <= j < i ==> cs@[j] != c,
            pieces@.len() + split_on(cs@.subrange(start as int, n as int), c).len() == whole.len(),
            forall|k: int| 0 <= k < pieces@.len() ==> #[trigger] pieces@[k]@ == whole[k],
            forall|k: int|
                0 <= k < split_on(cs@.subrange(start as int, n as int), c).len() ==> whole[pieces@.len()
                    + k] == #[trigger] split_on(cs@.subrange(start as int, n as int), c)[k],
        decreases n - i,
    {
        if cs[i] == c {
            let ghost rest = cs@.subrange(start as int, n as int);
            proof {
                lemma_find_char(rest, c);
                assert(first_at(rest, c, i - start));
                assert(rest.subrange(0, i - start) =~= cs@.subrange(start as int, i as int));
                assert(rest.subrange(i - start + 1, rest.len() as int) =~= cs@.subrange(
                    i + 1,
                    n as int,
                ));
            }
            let piece = slice_chars(cs, start, i);
            let ghost old_len = pieces@.len();
            pieces.push(piece);
            proof {
                let tail = split_on(cs@.subrange(i + 1, n as int), c);
                assert(split_on(rest, c) == seq![cs@.subrange(start as int, i as int)].add(tail));
                assert forall|k: int| 0 <= k < tail.len() implies whole[pieces@.len() + k]
                    == #[trigger] tail[k] by {
                    assert(split_on(rest, c)[k + 1] == tail[k]);
                }
                assert(whole[old_len as int] == split_on(rest, c)[0]);
            }
            start = i + 1;
        }
        i = i + 1;
    }
    let ghost rest = cs@.subrange(start as int, n as int);
    proof {
        lemma_find_char(rest, c);
        assert(find_char(rest, c) == -1);
        assert(split_on(rest, c) == seq![rest]);
        assert(split_on(rest, c)[0] == rest);
        assert(whole[pieces@.len() + 0int] == rest);
    }
    let last = slice_chars(cs, start, n);
    pieces.push(last);
    pieces
}

/// Appends the characters of `s` to `out`.
pub fn append_str(out: &mut String, s: &str)
    ensures
        final(out)@ == old(out)@ + s@,
{
    let ghost start = out@;
    for c in it: s.chars()
        invariant
            out@ == start + it.seq().take(it.index() as int),
            it.seq() == s@,
    {
        proof {
            assert(it.seq().take(it.index() + 1) =~= it.seq().take(it.index() as int).push(c));
        }
        push_char(out, c);
    }
    proof {
        assert(s@.take(s@.len() as int) =~= s@);
    }
}

pub open spec fn digit_char(d: int) -> char {
    seq!['0', '1', '2', '3', '4', '5', '6', '7', '8', '9'][d]
}

/// The decimal digits of `n`, most significant first.
pub open spec fn decimal(n: nat) -> Seq<char>
    decreases n,
{
    if n < 10 {
        seq![digit_char(n as int)]
    } else {
        decimal(n / 10).push(digit_char((n % 10) as int))
    }
}

fn digit_to_char(d: u64) -> (c: char)
    requires
        d < 10,
    ensures
        c == digit_char(d as int),
{
    let digits: [char; 10] = ['0', '1', '2', '3', '4', '5', '6', '7', '8', '9'];
    assert(digits@ == seq!['0', '1', '2', '3', '4', '5', '6', '7', '8', '9']);
    digits[d as usize]
}

/// Appends the decimal form of `n` to `out`.
pub fn append_decimal(out: &mut String, n: u64)
    ensures
        final(out)@ == old(out)@ + decimal(n as nat),
    decreases n,
{
    if n >= 10 {
        append_decimal(out, n / 10);
    }
    push_char(out, digit_to_char(n % 10));
    proof {
        if n >= 10 {
            assert(old(out)@ + decimal(n as nat) =~= old(out)@ + decimal((n / 10) as nat) + seq![
                digit_char((n % 10) as int),
            ]);
        }
    }
}

pub open spec fn is_digit(c: char) -> bool {
    '0' <= c <= '9'
}

pub open spec fn all_digits(d: Seq<char>) -> bool {
    forall|i: int| 0 <= i < d.len() ==> is_digit(#[trigger] d[i])
}

/// The number written by the decimal digits `d`.
pub open spec fn digits_value(d: Seq<char>) -> int
    decreases d.len(),
{
    if d.len() == 0 {
        0
    } else {
        digits_value(d.drop_last()) * 10 + (d.last() as int - '0' as int)
    }
}

/// The value of a non-empty run of decimal digits, if it is at most `bound`.
pub open spec fn bounded_digits(d: Seq<char>, bound: int) -> Option<int> {
    if d.len() > 0 && all_digits(d) && digits_value(d) <= bound {
        Some(digits_value(d))
    } else {
        None
    }
}

/// What `u8::from_str` accepts: an optional `+` and decimal digits.
pub open spec fn u8_of(s: Seq<char>) -> Option<u8> {
    let body = if s.len() > 0 && s[0] == '+' {
        s.drop_first()
    } else {
        s
    };
    match bounded_digits(body, 255) {
        Some(v) => Some(v as u8),
        None => None,
    }
}

/// What `i32::from_str` accepts: an optional sign and decimal digits.
pub open spec fn i32_of(s: Seq<char>) -> Option<i32> {
    if s.len() > 0 && s[0] == '-' {
        match bounded_digits(s.drop_first(), 0x8000_0000) {
            Some(v) => Some((-v) as i32),
            None => None,
        }
    } else {
        let body = if s.len() > 0 && s[0] == '+' {
            s.drop_first()
        } else {
            s
        };
        match bounded_digits(body, 0x7fff_ffff) {
            Some(v) => Some(v as i32),
            None => None,
        }
    }
}

fn bounded_digits_exec(d: &[char], from: usize, bound: u64) -> (r: Option<u64>)
    requires
        from <= d@.len(),
        bound < 0x1_0000_0000,
    ensures
        match bounded_digits(d@.subrange(from as int, d@.len() as int), bound as int) {
            Some(v) => 0 <= v <= bound && r == Some(v as u64),
            None => r is None,
        },
{
    let ghost body = d@.subrange(from as int, d@.len() as int);
    if from == d.len() {
        return None;
    }
    let mut acc: u64 = 0;
    let mut i: usize = from;
    while i < d.len()
        invariant
            from <= i <= d@.len(),
            bound < 0x1_0000_0000,
            body == d@.subrange(from as int, d@.len() as int),
            all_digits(d@.subrange(from as int, i as int)),
            acc as int == if digits_value(d@.subrange(from as int, i as int)) <= bound {
                digits_value(d@.subrange(from as int, i as int))
            } else {
                bound + 1
            },
            digits_value(d@.subrange(from as int, i as int)) >= 0,
        decreases d@.len() - i,
    {
        let c = d[i];
        if !('0' <= c && c <= '9') {
            assert(body[i - from] == c);
            return None;
        }
        let digit = (c as u32 - '0' as u32) as u64;
        let ghost prev = d@.subrange(from as int, i as int);
        let ghost next = d@.subrange(from as int, i + 1);
        assert(next.drop_last() =~= prev);
        assert(digits_value(next) == digits_value(prev) * 10 + digit);
        let grown = acc * 10 + digit;
        acc = if grown > bound {
            bound + 1
        } else {
            grown
        };
        assert forall|j: int| 0 <= j < next.len() implies is_digit(#[trigger] next[j]) by {
            if j < prev.len() {
                assert(next[j] == prev[j]);
            }
        }
        assert(digits_value(next) >= digits_value(prev)) by (nonlinear_arith)
            requires
                digits_value(next) == digits_value(prev) * 10 + digit,
                digits_value(prev) >= 0,
        ;
        i = i + 1;
    }
    assert(d@.subrange(from as int, i as int) =~= body);
    if acc > bound {
        None
    } else {
        Some(acc)
    }
}

/// `u8::from_str` on characters.
pub fn parse_u8_chars(s: &[char]) -> (r: Option<u8>)
    ensures
        r == u8_of(s@),
{
    let from: usize = if s.len() > 0 && s[0] == '+' {
        1
    } else {
        0
    };
    assert(from == 1 ==> s@.subrange(1, s@.len() as int) =~= s@.drop_first());
    assert(from == 0 ==> s@.subrange(0, s@.len() as int) =~= s@);
    match bounded_digits_exec(s, from, 255) {
        Some(v) => Some(v as u8),
        None => None,
    }
}

/// `i32::from_str` on characters.
pub fn parse_i32_chars(s: &[char]) -> (r: Option<i32>)
    ensures
        r == i32_of(s@),
{
    if s.len() > 0 && s[0] == '-' {
        assert(s@.subrange(1, s@.len() as int) =~= s@.drop_first());
        match bounded_digits_exec(s, 1, 0x8000_0000) {
            Some(v) => Some((0 - (v as i64)) as i32),
            None => None,
        }
    } else {
        let from: usize = if s.len() > 0 && s[0] == '+' {
            1
        } else {
            0
        };
        assert(from == 1 ==> s@.subrange(1, s@.len() as int) =~= s@.drop_first());
        assert(from == 0 ==> s@.subrange(0, s@.len() as int) =~= s@);
        match bounded_digits_exec(s, from, 0x7fff_ffff) {
            Some(v) => Some(v as i32),
            None => None,
        }
    }
}

} // verus!
