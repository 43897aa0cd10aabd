//! Character-level helpers on UTF-8 text: whitespace, trimming, line ends,
//! splitting at a separator and comparing strings, all stated over the
//! character sequence `s@` of a string.
use vstd::prelude::*;
use vstd::string::StrSliceExecFns;

verus! {

/// The characters that carry the Unicode `White_Space` property, which is
/// what `char::is_whitespace` and `str::trim` go by.
pub open spec fn is_white_space(c: char) -> bool {
    let u = c as u32;
    ||| 0x09 <= u <= 0x0D
    ||| u == 0x20
    ||| u == 0x85
    ||| u == 0xA0
    ||| u == 0x1680
    ||| 0x2000 <= u <= 0x200A
    ||| u == 0x2028
    ||| u == 0x2029
    ||| u == 0x202F
    ||| u == 0x205F
    ||| u == 0x3000
}

/// `s` without its leading whitespace.
pub open spec fn trim_start(s: Seq<char>) -> Seq<char>
    decreases s.len(),
{
    if s.len() > 0 && is_white_space(s[0]) {
        trim_start(s.drop_first())
    } else {
        s
    }
}

/// `s` without its trailing whitespace.
pub open spec fn trim_end(s: Seq<char>) -> Seq<char>
    decreases s.len(),
{
    if s.len() > 0 && is_white_space(s.last()) {
        trim_end(s.drop_last())
    } else {
        s
    }
}

/// `s` without leading and trailing whitespace, as `str::trim` gives it.
pub open spec fn trim(s: Seq<char>) -> Seq<char> {
    trim_end(trim_start(s))
}

/// `s` without the carriage returns and line feeds at its end, in any
/// number and order.
pub open spec fn strip_line_end(s: Seq<char>) -> Seq<char>
    decreases s.len(),
{
    if s.len() > 0 && (s.last() == '\r' || s.last() == '\n') {
        strip_line_end(s.drop_last())
    } else {
        s
    }
}

/// `i` is the position of the first `sep` in `s`.
pub open spec fn is_first_index_of(s: Seq<char>, sep: char, i: int) -> bool {
    &&& 0 <= i < s.len()
    &&& s[i] == sep
    &&& forall|j: int| 0 <= j < i ==> s[j] != sep
}

/// The parts of `s` before and after its first `sep`, as `str::split_once`
/// gives them; `None` where `s` holds no `sep`.
pub open spec fn split_once(s: Seq<char>, sep: char) -> Option<(Seq<char>, Seq<char>)> {
    if exists|i: int| is_first_index_of(s, sep, i) {
        let i = choose|i: int| is_first_index_of(s, sep, i);
        Some((s.take(i), s.skip(i + 1)))
    } else {
        None
    }
}

/// Whether `c` is whitespace.
pub fn is_whitespace(c: char) -> (r: bool)
    ensures
        r == is_white_space(c),
{
    let u = c as u32;
    (0x09 <= u && u <= 0x0D) || u == 0x20 || u == 0x85 || u == 0xA0 || u == 0x1680 || (0x2000
        <= u && u <= 0x200A) || u == 0x2028 || u == 0x2029 || u == 0x202F || u == 0x205F || u
        == 0x3000
}

/// The characters of `s`, in order.
pub fn chars_of(s: &str) -> (out: Vec<char>)
    ensures
        out@ == s@,
{
    broadcast use vstd::string::group_string_axioms;

    let mut out: Vec<char> = Vec::new();
    for c in it: s.chars()
        invariant
            it.seq() == s@,
            out@ == it.seq().take(it.index() as int),
    {
        out.push(c);
    }
    out
}

/// Whether `a` and `b` hold the same characters.
pub fn same_text(a: &str, b: &str) -> (r: bool)
    ensures
        r == (a@ == b@),
{
    let x = chars_of(a);
    let y = chars_of(b);
    if x.len() != y.len() {
        return false;
    }
    let n = x.len();
    let mut i: usize = 0;
    while i < n
        invariant
            x@ == a@,
            y@ == b@,
            n == x@.len(),
            n == y@.len(),
            0 <= i <= n,
            forall|j: int| 0 <= j < i ==> x@[j] == y@[j],
        decreases n - i,
    {
        if x[i] != y[i] {
            assert(x@[i as int] != y@[i as int]);
            return false;
        }
        i += 1;
    }
    assert(x@ =~= y@);
    true
}

/// The characters of `s` from position `from` up to `to`, as a new string.
fn substring(s: &str, from: usize, to: usize) -> (r: String)
    requires
        from <= to <= s@.len(),
    ensures
        r@ == s@.subrange(from as int, to as int),
{
    s.substring_char(from, to).to_owned()
}

proof fn lemma_trim_start_skip(s: Seq<char>, i: int)
    requires
        0 <= i <= s.len(),
        forall|j: int| 0 <= j < i ==> is_white_space(s[j]),
    ensures
        trim_start(s) == trim_start(s.skip(i)),
    decreases i,
{
    if i > 0 {
        assert(s.drop_first().skip(i - 1) =~= s.skip(i));
        lemma_trim_start_skip(s.drop_first(), i - 1);
    } else {
        assert(s.skip(0) =~= s);
    }
}

proof fn lemma_trim_end_take(s: Seq<char>, k: int)
    requires
        0 <= k <= s.len(),
        forall|j: int| k <= j < s.len() ==> is_white_space(s[j]),
    ensures
        trim_end(s) == trim_end(s.take(k)),
    decreases s.len() - k,
{
    if k < s.len() {
        assert(s.drop_last().take(k) =~= s.take(k));
        lemma_trim_end_take(s.drop_last(), k);
    } else {
        assert(s.take(k) =~= s);
    }
}

/// `s` without leading and trailing whitespace.
pub fn trim_text(s: &str) -> (r: String)
    ensures
        r@ == trim(s@),
{
    let cs = chars_of(s);
    let n = cs.len();
    let mut i: usize = 0;
    while i < n && is_whitespace(cs[i])
        invariant
            n == cs@.len(),
            cs@ == s@,
            0 <= i <= n,
            forall|j: int| 0 <= j < i ==> is_white_space(cs@[j]),
        decreases n - i,
    {
        i += 1;
    }
    proof {
        lemma_trim_start_skip(s@, i as int);
        if i < n {
            assert(!is_white_space(s@.skip(i as int)[0]));
        }
        assert(trim_start(s@.skip(i as int)) == s@.skip(i as int));
    }
    let mut k: usize = n;
    while k > i && is_whitespace(cs[k - 1])
        invariant
            n == cs@.len(),
            cs@ == s@,
            0 <= i <= k <= n,
            forall|j: int| k <= j < n ==> is_white_space(cs@[j]),
        decreases k,
    {
        k -= 1;
    }
    proof {
        let t = s@.skip(i as int);
        lemma_trim_end_take(t, k - i);
        assert(t.take(k - i) =~= s@.subrange(i as int, k as int));
        if k > i {
            assert(!is_white_space(t.take(k - i).last()));
        }
    }
    substring(s, i, k)
}

proof fn lemma_strip_line_end_take(s: Seq<char>, k: int)
    requires
        0 <= k <= s.len(),
        forall|j: int| k <= j < s.len() ==> (s[j] == '\r' || s[j] == '\n'),
    ensures
        strip_line_end(s) == strip_line_end(s.take(k)),
    decreases s.len() - k,
{
    if k < s.len() {
        assert(s.drop_last().take(k) =~= s.take(k));
        lemma_strip_line_end_take(s.drop_last(), k);
    } else {
        assert(s.take(k) =~= s);
    }
}

/// `s` without the carriage returns and line feeds at its end.
pub fn strip_line_end_text(s: &str) -> (r: String)
    ensures
        r@ == strip_line_end(s@),
{
    let cs = chars_of(s);
    let n = cs.len();
    let mut k: usize = n;
    while k > 0 && (cs[k - 1] == '\r' || cs[k - 1] == '\n')
        invariant
            n == cs@.len(),
            cs@ == s@,
            0 <= k <= n,
            forall|j: int| k <= j < n ==> (cs@[j] == '\r' || cs@[j] == '\n'),
        decreases k,
    {
        k -= 1;
    }
    proof {
        lemma_strip_line_end_take(s@, k as int);
        assert(s@.take(k as int) =~= s@.subrange(0, k as int));
    }
    substring(s, 0, k)
}

/// The parts of `s` before and after its first `sep`, or `None` where `s`
/// holds no `sep`.
pub fn split_once_text(s: &str, sep: char) -> (r: Option<(String, String)>)
    ensures
        match r {
            Some((a, b)) => split_once(s@, sep) == Some((a@, b@)),
            None => split_once(s@, sep) is None,
        },
{
    let cs = chars_of(s);
    let n = cs.len();
    let mut i: usize = 0;
    while i < n
        invariant
            n == cs@.len(),
            cs@ == s@,
            0 <= i <= n,
            forall|j: int| 0 <= j < i ==> cs@[j] != sep,
        decreases n - i,
    {
        if cs[i] == sep {
            proof {
                assert(is_first_index_of(s@, sep, i as int));
                let c = choose|c: int| is_first_index_of(s@, sep, c);
                assert(c == i);
                assert(s@.take(i as int) =~= s@.subrange(0, i as int));
                assert(s@.skip(i + 1) =~= s@.subrange(i + 1, n as int));
            }
            let a = substring(s, 0, i);
            let b = substring(s, i + 1, n);
            return Some((a, b));
        }
        i += 1;
    }
    None
}

/// The decimal digits of `n`, most significant first, without leading
/// zeros (`0` is written as one digit).
pub open spec fn decimal(n: nat) -> Seq<char>
    decreases n,
{
    if n < 10 {
        seq![digit_char(n)]
    } else {
        decimal(n / 10).push(digit_char(n % 10))
    }
}

/// The character of the decimal digit `d`.
pub open spec fn digit_char(d: nat) -> char {
    ((d + 48) as u32) as char
}

/// The decimal representation of `n`.
pub fn decimal_text(n: u64) -> (r: String)
    ensures
        r@ == decimal(n as nat),
{
    let digits = "0123456789";
    proof {
        reveal_strlit("0123456789");
    }
    let mut rev: Vec<usize> = Vec::new();
    let mut m: u64 = n / 10;
    rev.push((n % 10) as usize);
    proof {
        assert(decimal(n as nat) == decimal(n as nat) + digits_of_rev(seq![]));
        lemma_decimal_step(n as nat, m as nat, (n % 10) as nat, seq![]);
        assert(seq![].push((n % 10) as usize) =~= rev@);
    }
    while m > 0
        invariant
            rev@.len() > 0,
            forall|j: int| 0 <= j < rev@.len() ==> rev@[j] < 10,
            decimal(n as nat) == decimal_prefix(m as nat, rev@),
        decreases m,
    {
        let d = (m % 10) as usize;
        let q = m / 10;
        proof {
            lemma_decimal_step(m as nat, q as nat, d as nat, rev@);
        }
        rev.push(d);
        m = q;
    }
    let mut out = String::new();
    let mut k: usize = rev.len();
    proof {
        assert(rev@.take(k as int) =~= rev@);
        assert(decimal(n as nat) == digits_of_rev(rev@));
        assert(out@ + digits_of_rev(rev@) =~= digits_of_rev(rev@));
    }
    while k > 0
        invariant
            0 <= k <= rev@.len(),
            forall|j: int| 0 <= j < rev@.len() ==> rev@[j] < 10,
            digits@ == "0123456789"@,
            decimal(n as nat) == out@ + digits_of_rev(rev@.take(k as int)),
        decreases k,
    {
        let d = rev[k - 1];
        proof {
            lemma_digit_table(d as nat);
        }
        let piece = digits.substring_char(d, d + 1);
        proof {
            assert(piece@ =~= seq![digit_char(d as nat)]);
            assert(rev@.take(k as int).drop_last() =~= rev@.take(k - 1));
        }
        out.append(piece);
        k -= 1;
        proof {
            assert(out@ + digits_of_rev(rev@.take(k as int)) =~= decimal(n as nat));
        }
    }
    proof {
        assert(rev@.take(0) =~= seq![]);
        assert(out@ =~= decimal(n as nat));
    }
    out
}

proof fn lemma_digit_table(d: nat)
    requires
        d < 10,
    ensures
        "0123456789"@.len() == 10,
        "0123456789"@[d as int] == digit_char(d),
{
    reveal_strlit("0123456789");
    if d == 0 {
    } else if d == 1 {
    } else if d == 2 {
    } else if d == 3 {
    } else if d == 4 {
    } else if d == 5 {
    } else if d == 6 {
    } else if d == 7 {
    } else if d == 8 {
    } else {
        assert(d == 9);
    }
}

/// The digits in `rev` (least significant first) written most significant
/// first.
spec fn digits_of_rev(rev: Seq<usize>) -> Seq<char>
    decreases rev.len(),
{
    if rev.len() == 0 {
        seq![]
    } else {
        seq![digit_char(rev.last() as nat)] + digits_of_rev(rev.drop_last())
    }
}

/// The decimal text of a number whose lower digits are `rev` (least
/// significant first) and whose remaining upper part is `m`.
spec fn decimal_prefix(m: nat, rev: Seq<usize>) -> Seq<char> {
    if m == 0 && rev.len() > 0 {
        digits_of_rev(rev)
    } else {
        decimal(m) + digits_of_rev(rev)
    }
}

proof fn lemma_decimal_step(m: nat, q: nat, d: nat, rev: Seq<usize>)
    requires
        q == m / 10,
        d == m % 10,
        m > 0 || rev.len() == 0,
    ensures
        decimal_prefix(m, rev) == decimal_prefix(q, rev.push(d as usize)),
{
    assert(rev.push(d as usize).drop_last() =~= rev);
    assert(digits_of_rev(rev.push(d as usize)) == seq![digit_char(d)] + digits_of_rev(rev));
    if m == 0 {
        assert(q == 0 && d == 0);
        assert(decimal(0) == seq![digit_char(0)]);
        assert(digits_of_rev(rev) =~= seq![]);
        assert(decimal(0) + digits_of_rev(rev) =~= seq![digit_char(0)]);
    } else if m < 10 {
        assert(q == 0);
        assert(decimal(m) == seq![digit_char(d)]);
        assert(decimal(m) + digits_of_rev(rev) =~= seq![digit_char(d)] + digits_of_rev(rev));
    } else {
        assert(q > 0);
        assert(decimal(m) == decimal(q).push(digit_char(d)));
        assert(decimal(m) + digits_of_rev(rev) =~= decimal(q) + (seq![digit_char(d)]
            + digits_of_rev(rev)));
    }
}

proof fn lemma_first_index_exists(s: Seq<char>, sep: char, j: int)
    requires
        0 <= j < s.len(),
        s[j] == sep,
    ensures
        exists|i: int| is_first_index_of(s, sep, i),
    decreases j,
{
    if exists|k: int| 0 <= k < j && s[k] == sep {
        let k = choose|k: int| 0 <= k < j && s[k] == sep;
        lemma_first_index_exists(s, sep, k);
    } else {
        assert(is_first_index_of(s, sep, j));
    }
}

/// Splitting at the first separator: the part before, the separator and
/// the part after make up the text again, and the part before holds no
/// separator; where the split gives nothing, the text holds no separator.
pub proof fn law_split_once(s: Seq<char>, sep: char)
    ensures
        split_once(s, sep) matches Some((a, b)) ==> s == a + seq![sep] + b && !a.contains(sep),
        split_once(s, sep) is None ==> !s.contains(sep),
{
    if exists|i: int| is_first_index_of(s, sep, i) {
        let i = choose|i: int| is_first_index_of(s, sep, i);
        assert(s =~= s.take(i) + seq![sep] + s.skip(i + 1));
        if s.take(i).contains(sep) {
            let k = choose|k: int| 0 <= k < s.take(i).len() && s.take(i)[k] == sep;
            assert(s[k] == sep);
        }
    } else {
        if s.contains(sep) {
            let j = choose|j: int| 0 <= j < s.len() && s[j] == sep;
            lemma_first_index_exists(s, sep, j);
        }
    }
}

/// Taking off the line end leaves a prefix of the text that does not end
/// in a carriage return or line feed, and all that was taken off is
/// carriage returns and line feeds.
pub proof fn law_strip_line_end(s: Seq<char>)
    ensures
        strip_line_end(s).len() <= s.len(),
        strip_line_end(s) == s.take(strip_line_end(s).len() as int),
        forall|k: int|
            strip_line_end(s).len() <= k < s.len() ==> (#[trigger] s[k] == '\r' || s[k] == '\n'),
        strip_line_end(s).len() > 0 ==> strip_line_end(s).last() != '\r' && strip_line_end(
            s,
        ).last() != '\n',
    decreases s.len(),
{
    if s.len() > 0 && (s.last() == '\r' || s.last() == '\n') {
        law_strip_line_end(s.drop_last());
        let r = strip_line_end(s.drop_last());
        assert(s.drop_last().take(r.len() as int) =~= s.take(r.len() as int));
        assert forall|k: int| r.len() <= k < s.len() implies (#[trigger] s[k] == '\r' || s[k]
            == '\n') by {
            if k < s.len() - 1 {
                assert(s.drop_last()[k] == s[k]);
            }
        }
    } else {
        assert(s.take(s.len() as int) =~= s);
    }
}

proof fn lemma_trim_start_shape(s: Seq<char>) -> (i: int)
    ensures
        0 <= i <= s.len(),
        trim_start(s) == s.skip(i),
        forall|k: int| 0 <= k < i ==> is_white_space(#[trigger] s[k]),
        i < s.len() ==> !is_white_space(s[i]),
    decreases s.len(),
{
    if s.len() > 0 && is_white_space(s[0]) {
        let j = lemma_trim_start_shape(s.drop_first());
        assert(s.drop_first().skip(j) =~= s.skip(j + 1));
        assert forall|k: int| 0 <= k < j + 1 implies is_white_space(#[trigger] s[k]) by {
            if k > 0 {
                assert(s.drop_first()[k - 1] == s[k]);
            }
        }
        j + 1
    } else {
        assert(s.skip(0) =~= s);
        0
    }
}

proof fn lemma_trim_end_shape(s: Seq<char>) -> (j: int)
    ensures
        0 <= j <= s.len(),
        trim_end(s) == s.take(j),
        forall|k: int| j <= k < s.len() ==> is_white_space(#[trigger] s[k]),
        j > 0 ==> !is_white_space(s[j - 1]),
    decreases s.len(),
{
    if s.len() > 0 && is_white_space(s.last()) {
        let j = lemma_trim_end_shape(s.drop_last());
        assert(s.drop_last().take(j) =~= s.take(j));
        assert forall|k: int| j <= k < s.len() implies is_white_space(#[trigger] s[k]) by {
            if k < s.len() - 1 {
                assert(s.drop_last()[k] == s[k]);
            }
        }
        j
    } else {
        assert(s.take(s.len() as int) =~= s);
        s.len() as int
    }
}

/// Trimming leaves a stretch of the text that neither starts nor ends with
/// whitespace, and all that was taken off on either side is whitespace.
pub proof fn law_trim(s: Seq<char>)
    ensures
        exists|i: int, j: int|
            0 <= i <= j <= s.len() && trim(s) == s.subrange(i, j) && (forall|k: int|
                0 <= k < i ==> is_white_space(#[trigger] s[k])) && (forall|k: int|
                j <= k < s.len() ==> is_white_space(#[trigger] s[k])),
        trim(s).len() > 0 ==> !is_white_space(trim(s)[0]) && !is_white_space(trim(s).last()),
{
    let i = lemma_trim_start_shape(s);
    let t = s.skip(i);
    let j = lemma_trim_end_shape(t);
    assert(t.take(j) =~= s.subrange(i, i + j));
    assert forall|k: int| i + j <= k < s.len() implies is_white_space(#[trigger] s[k]) by {
        assert(t[k - i] == s[k]);
    }
    if j > 0 {
        assert(trim(s)[0] == s[i]);
        assert(trim(s).last() == t[j - 1]);
    }
    assert(0 <= i <= i + j <= s.len() && trim(s) == s.subrange(i, i + j));
}

} // verus!
