//! Character-level helpers over `str`/`String`, each with a model over `Seq<char>`.
use vstd::prelude::*;
use vstd::string::*;

verus! {

/// The indices at which `c` occurs in `s`, in increasing order.
pub open spec fn positions_of(s: Seq<char>, c: char) -> Seq<int>
    decreases s.len(),
{
    if s.len() == 0 {
        Seq::empty()
    } else {
        let p = positions_of(s.drop_last(), c);
        if s.last() == c {
            p.push(s.len() - 1)
        } else {
            p
        }
    }
}

/// Where field `k` starts, given the separator positions `pos`.
pub open spec fn field_start(pos: Seq<int>, k: int) -> int {
    if k == 0 {
        0
    } else {
        pos[k - 1] + 1
    }
}

/// Where field `k` ends, given the separator positions `pos` in `s`.
pub open spec fn field_end(s: Seq<char>, pos: Seq<int>, k: int) -> int {
    if k < pos.len() {
        pos[k]
    } else {
        s.len() as int
    }
}

/// The fields of `s` separated by `c` (as `str::split` gives them): one more
/// field than there are separators, each the run between two of them.
pub open spec fn fields(s: Seq<char>, c: char) -> Seq<Seq<char>> {
    let pos = positions_of(s, c);
    Seq::new(
        (pos.len() + 1) as nat,
        |k: int| s.subrange(field_start(pos, k), field_end(s, pos, k)),
    )
}

/// `s` without its trailing `/` characters.
pub open spec fn strip_trailing_slashes(s: Seq<char>) -> Seq<char>
    decreases s.len(),
{
    if s.len() > 0 && s.last() == '/' {
        strip_trailing_slashes(s.drop_last())
    } else {
        s
    }
}

/// The last component of a `/`-separated path, trailing `/` ignored (as
/// `Path::file_name` reads `a/b/` as `b`); `.` and `..` components get no
/// special meaning.
pub open spec fn basename(s: Seq<char>) -> Seq<char> {
    fields(strip_trailing_slashes(s), '/').last()
}

/// `t` occurs in `s` starting at index `i`.
pub open spec fn occurs_at(s: Seq<char>, t: Seq<char>, i: int) -> bool {
    0 <= i && i + t.len() <= s.len() && s.subrange(i, i + t.len()) == t
}

/// `t` occurs somewhere in `s`.
pub open spec fn contains(s: Seq<char>, t: Seq<char>) -> bool {
    exists|i: int| occurs_at(s, t, i)
}

/// `s` ends with `t`.
pub open spec fn ends_with(s: Seq<char>, t: Seq<char>) -> bool {
    s.len() >= t.len() && occurs_at(s, t, s.len() - t.len())
}

/// `s` without its leading `/` characters.
pub open spec fn strip_leading_slashes(s: Seq<char>) -> Seq<char>
    decreases s.len(),
{
    if s.len() > 0 && s[0] == '/' {
        strip_leading_slashes(s.drop_first())
    } else {
        s
    }
}

/// Every character of `s` is an ASCII decimal digit.
pub open spec fn all_digits(s: Seq<char>) -> bool {
    forall|i: int| 0 <= i < s.len() ==> '0' <= #[trigger] s[i] && s[i] <= '9'
}

/// The character of decimal digit `d`.
pub open spec fn digit_char(d: nat) -> char {
    if d == 0 {
        '0'
    } else if d == 1 {
        '1'
    } else if d == 2 {
        '2'
    } else if d == 3 {
        '3'
    } else if d == 4 {
        '4'
    } else if d == 5 {
        '5'
    } else if d == 6 {
        '6'
    } else if d == 7 {
        '7'
    } else if d == 8 {
        '8'
    } else {
        '9'
    }
}

/// The lowest `width` decimal digits of `n`, most significant first, padded
/// with zeros.
pub open spec fn padded_decimal(n: nat, width: nat) -> Seq<char>
    decreases width,
{
    if width == 0 {
        Seq::empty()
    } else {
        padded_decimal(n / 10, (width - 1) as nat).push(digit_char(n % 10))
    }
}

/// The decimal notation of `n`, without leading zeros.
pub open spec fn decimal(n: nat) -> Seq<char>
    decreases n,
{
    if n < 10 {
        seq![digit_char(n)]
    } else {
        decimal(n / 10).push(digit_char(n % 10))
    }
}

/// Joins a relative component onto a path, inserting `/` unless the path is
/// empty or already ends with one.
pub open spec fn join(base: Seq<char>, seg: Seq<char>) -> Seq<char> {
    if base.len() == 0 || base.last() == '/' {
        base + seg
    } else {
        base + seq!['/'] + seg
    }
}

/// Appends one of the separators `/`, `:` or `_`.
pub fn push_separator(out: &mut String, c: char)
    requires
        c == '/' || c == ':' || c == '_',
    ensures
        final(out)@ == old(out)@.push(c),
{
    if c == '/' {
        proof {
            reveal_strlit("/");
        }
        out.append("/");
    } else if c == ':' {
        proof {
            reveal_strlit(":");
        }
        out.append(":");
    } else {
        proof {
            reveal_strlit("_");
        }
        out.append("_");
    }
    assert(final(out)@ =~= old(out)@.push(c));
}

pub proof fn lemma_positions_of_wf(s: Seq<char>, c: char)
    ensures
        forall|k: int|
            0 <= k < positions_of(s, c).len() ==> 0 <= #[trigger] positions_of(s, c)[k] < s.len()
                && s[positions_of(s, c)[k]] == c,
        forall|j: int, k: int|
            0 <= j < k < positions_of(s, c).len() ==> positions_of(s, c)[j] < positions_of(
                s,
                c,
            )[k],
        forall|i: int|
            0 <= i < s.len() && s[i] == c ==> exists|k: int|
                0 <= k < positions_of(s, c).len() && #[trigger] positions_of(s, c)[k] == i,
    decreases s.len(),
{
    if s.len() > 0 {
        let t = s.drop_last();
        lemma_positions_of_wf(t, c);
        let p = positions_of(t, c);
        assert forall|i: int| 0 <= i < s.len() && s[i] == c implies exists|k: int|
            0 <= k < positions_of(s, c).len() && #[trigger] positions_of(s, c)[k] == i by {
            if i < s.len() - 1 {
                assert(t[i] == c);
                let k = choose|k: int| 0 <= k < p.len() && #[trigger] p[k] == i;
                assert(positions_of(s, c)[k] == i);
            } else {
                assert(positions_of(s, c)[p.len() as int] == i);
            }
        }
    }
}

/// Positions of `c` in `s`.
pub fn char_positions(s: &str, c: char) -> (r: Vec<usize>)
    ensures
        r@.len() == positions_of(s@, c).len(),
        forall|k: int| 0 <= k < r@.len() ==> r@[k] as int == #[trigger] positions_of(s@, c)[k],
{
    let n = s.unicode_len();
    let mut r: Vec<usize> = Vec::new();
    let mut i: usize = 0;
    while i < n
        invariant
            n == s@.len(),
            i <= n,
            r@.len() == positions_of(s@.take(i as int), c).len(),
            forall|k: int|
                0 <= k < r@.len() ==> r@[k] as int == #[trigger] positions_of(
                    s@.take(i as int),
                    c,
                )[k],
        decreases n - i,
    {
        assert(s@.take(i + 1).drop_last() == s@.take(i as int));
        if s.get_char(i) == c {
            r.push(i);
        }
        i = i + 1;
    }
    assert(s@.take(n as int) == s@);
    r
}

/// Field `k` of `s`, given `pos`, the positions of the separator in `s`.
fn field_of<'a>(s: &'a str, pos: &Vec<usize>, k: usize, Ghost(c): Ghost<char>) -> (r: &'a str)
    requires
        pos@.len() == positions_of(s@, c).len(),
        forall|j: int| 0 <= j < pos@.len() ==> pos@[j] as int == #[trigger] positions_of(s@, c)[j],
        k <= pos@.len(),
    ensures
        r@ == fields(s@, c)[k as int],
{
    proof {
        lemma_positions_of_wf(s@, c);
    }
    let n = s.unicode_len();
    let start = if k == 0 {
        0
    } else {
        assert(pos@[k - 1] as int == positions_of(s@, c)[k - 1]);
        pos[k - 1] + 1
    };
    let end = if k < pos.len() {
        pos[k]
    } else {
        n
    };
    proof {
        if k > 0 && k < pos@.len() {
            assert(positions_of(s@, c)[k - 1] < positions_of(s@, c)[k as int]);
        }
    }
    s.substring_char(start, end)
}

/// The fields of `s` separated by `c`.
pub fn split_fields(s: &str, c: char) -> (r: Vec<&str>)
    ensures
        r@.len() == fields(s@, c).len(),
        forall|k: int| 0 <= k < r@.len() ==> (#[trigger] r@[k])@ == fields(s@, c)[k],
{
    let pos = char_positions(s, c);
    let mut r: Vec<&str> = Vec::new();
    let mut k: usize = 0;
    while k < pos.len()
        invariant
            pos@.len() == positions_of(s@, c).len(),
            forall|j: int| 0 <= j < pos@.len() ==> pos@[j] as int == #[trigger] positions_of(s@, c)[j],
            k <= pos@.len(),
            r@.len() == k,
            forall|j: int| 0 <= j < k ==> (#[trigger] r@[j])@ == fields(s@, c)[j],
        decreases pos@.len() - k,
    {
        let f = field_of(s, &pos, k, Ghost(c));
        r.push(f);
        k = k + 1;
    }
    let last = field_of(s, &pos, k, Ghost(c));
    r.push(last);
    r
}

/// `s` without its trailing `/` characters.
pub fn trim_trailing_slashes(s: &str) -> (r: &str)
    ensures
        r@ == strip_trailing_slashes(s@),
{
    let n = s.unicode_len();
    let mut j: usize = n;
    assert(s@.take(n as int) == s@);
    while j > 0 && s.get_char(j - 1) == '/'
        invariant
            n == s@.len(),
            j <= n,
            strip_trailing_slashes(s@) == strip_trailing_slashes(s@.take(j as int)),
        decreases j,
    {
        assert(s@.take(j as int).drop_last() == s@.take(j - 1));
        j = j - 1;
    }
    let r = s.substring_char(0, j);
    assert(r@ == s@.take(j as int));
    r
}

/// The last component of a `/`-separated path, trailing `/` ignored.
pub fn path_basename(s: &str) -> (r: &str)
    ensures
        r@ == basename(s@),
{
    let t = trim_trailing_slashes(s);
    let pos = char_positions(t, '/');
    field_of(t, &pos, pos.len(), Ghost('/'))
}

/// Whether `t` occurs in `s` at index `i`.
fn occurs_at_exec(s: &str, t: &str, i: usize) -> (r: bool)
    requires
        i <= s@.len(),
    ensures
        r == occurs_at(s@, t@, i as int),
{
    let n = s.unicode_len();
    let m = t.unicode_len();
    if m > n - i {
        return false;
    }
    let mut j: usize = 0;
    while j < m
        invariant
            n == s@.len(),
            m == t@.len(),
            i + m <= n,
            j <= m,
            forall|q: int| 0 <= q < j ==> s@[i + q] == t@[q],
        decreases m - j,
    {
        if s.get_char(i + j) != t.get_char(j) {
            assert(s@.subrange(i as int, i + m)[j as int] != t@[j as int]);
            return false;
        }
        j = j + 1;
    }
    assert(s@.subrange(i as int, i + m) =~= t@);
    true
}

/// Whether `t` occurs in `s`.
pub fn str_contains(s: &str, t: &str) -> (r: bool)
    ensures
        r == contains(s@, t@),
{
    let n = s.unicode_len();
    let mut i: usize = 0;
    while i < n
        invariant
            n == s@.len(),
            i <= n,
            forall|q: int| 0 <= q < i ==> !occurs_at(s@, t@, q),
        decreases n - i,
    {
        if occurs_at_exec(s, t, i) {
            return true;
        }
        i = i + 1;
    }
    occurs_at_exec(s, t, n)
}

/// Whether `s` ends with `t`.
pub fn str_ends_with(s: &str, t: &str) -> (r: bool)
    ensures
        r == ends_with(s@, t@),
{
    let n = s.unicode_len();
    let m = t.unicode_len();
    if m > n {
        false
    } else {
        occurs_at_exec(s, t, n - m)
    }
}

/// Whether every character of `s` is an ASCII digit.
pub fn str_all_digits(s: &str) -> (r: bool)
    ensures
        r == all_digits(s@),
{
    let n = s.unicode_len();
    let mut i: usize = 0;
    while i < n
        invariant
            n == s@.len(),
            forall|q: int| 0 <= q < i ==> '0' <= #[trigger] s@[q] && s@[q] <= '9',
        decreases n - i,
    {
        let ch = s.get_char(i);
        if !('0' <= ch && ch <= '9') {
            return false;
        }
        i = i + 1;
    }
    true
}

/// `s` without its leading `/` characters.
pub fn trim_leading_slashes(s: &str) -> (r: &str)
    ensures
        r@ == strip_leading_slashes(s@),
{
    let n = s.unicode_len();
    let mut i: usize = 0;
    assert(s@.skip(0) == s@);
    while i < n && s.get_char(i) == '/'
        invariant
            n == s@.len(),
            i <= n,
            strip_leading_slashes(s@) == strip_leading_slashes(s@.skip(i as int)),
        decreases n - i,
    {
        assert(s@.skip(i as int).drop_first() == s@.skip(i + 1));
        i = i + 1;
    }
    let r = s.substring_char(i, n);
    assert(r@ == s@.skip(i as int));
    r
}

/// The one-character text of decimal digit `d`.
fn digit_str(d: u32) -> (r: &'static str)
    requires
        d < 10,
    ensures
        r@ == seq![digit_char(d as nat)],
{
    let r = if d == 0 {
        proof {
            reveal_strlit("0");
        }
        "0"
    } else if d == 1 {
        proof {
            reveal_strlit("1");
        }
        "1"
    } else if d == 2 {
        proof {
            reveal_strlit("2");
        }
        "2"
    } else if d == 3 {
        proof {
            reveal_strlit("3");
        }
        "3"
    } else if d == 4 {
        proof {
            reveal_strlit("4");
        }
        "4"
    } else if d == 5 {
        proof {
            reveal_strlit("5");
        }
        "5"
    } else if d == 6 {
        proof {
            reveal_strlit("6");
        }
        "6"
    } else if d == 7 {
        proof {
            reveal_strlit("7");
        }
        "7"
    } else if d == 8 {
        proof {
            reveal_strlit("8");
        }
        "8"
    } else {
        proof {
            reveal_strlit("9");
        }
        "9"
    };
    r
}

/// Appends the lowest `width` decimal digits of `n`, zero-padded.
pub fn push_padded_decimal(out: &mut String, n: u32, width: u32)
    ensures
        final(out)@ == old(out)@ + padded_decimal(n as nat, width as nat),
    decreases width,
{
    if width > 0 {
        push_padded_decimal(out, n / 10, width - 1);
        let ghost before = out@;
        out.append(digit_str(n % 10));
        assert(out@ =~= before.push(digit_char((n % 10) as nat)));
    }
}

/// Appends the decimal notation of `n`.
pub fn push_decimal(out: &mut String, n: u32)
    ensures
        final(out)@ == old(out)@ + decimal(n as nat),
    decreases n,
{
    if n >= 10 {
        push_decimal(out, n / 10);
    }
    let ghost before = out@;
    out.append(digit_str(n % 10));
    assert(out@ =~= before.push(digit_char((n % 10) as nat)));
}

/// Appends `seg` to the path in `out`, inserting `/` where needed.
pub fn push_path_component(out: &mut String, seg: &str)
    ensures
        final(out)@ == join(old(out)@, seg@),
{
    let n = out.as_str().unicode_len();
    if n > 0 && out.as_str().get_char(n - 1) != '/' {
        push_separator(out, '/');
    }
    out.append(seg);
}

} // verus!
