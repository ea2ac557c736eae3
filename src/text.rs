use vstd::prelude::*;

verus! {

/// `t` with its first `{}` replaced by `v`; `t` itself when it holds none.
pub open spec fn fill_placeholder(t: Seq<char>, v: Seq<char>) -> Seq<char>
    decreases t.len(),
{
    if t.len() == 0 {
        t
    } else if t.len() >= 2 && t[0] == '{' && t[1] == '}' {
        v + t.subrange(2, t.len() as int)
    } else {
        seq![t[0]] + fill_placeholder(t.subrange(1, t.len() as int), v)
    }
}

/// `t` holds the placeholder `{}` at position `i`.
pub open spec fn placeholder_at(t: Seq<char>, i: int) -> bool {
    0 <= i && i + 1 < t.len() && t[i] == '{' && t[i + 1] == '}'
}

/// `s` holds `v` as a contiguous run.
pub open spec fn contains_run(s: Seq<char>, v: Seq<char>) -> bool {
    exists|k: int| 0 <= k && k + v.len() <= s.len() && #[trigger] s.subrange(k, k + v.len()) == v
}

/// Relies on `str::replacen` with a count of one: the first match of the
/// pattern, found left to right, is replaced by the value.
#[verifier::external_body]
pub(crate) fn substitute(template: &str, value: &str) -> (r: String)
    ensures
        r@ == fill_placeholder(template@, value@),
{
    template.replacen("{}", value, 1)
}

/// Filling a template that holds a placeholder leaves the value in the result.
pub proof fn lemma_fill_contains_value(t: Seq<char>, v: Seq<char>, i: int)
    requires
        placeholder_at(t, i),
    ensures
        contains_run(fill_placeholder(t, v), v),
    decreases t.len(),
{
    let r = fill_placeholder(t, v);
    if t.len() >= 2 && t[0] == '{' && t[1] == '}' {
        assert(r == v + t.subrange(2, t.len() as int));
        assert(r.subrange(0int, 0int + v.len()) =~= v);
    } else {
        let rest = t.subrange(1, t.len() as int);
        assert(placeholder_at(rest, i - 1));
        lemma_fill_contains_value(rest, v, i - 1);
        let fr = fill_placeholder(rest, v);
        let k = choose|k: int| 0 <= k && k + v.len() <= fr.len() && #[trigger] fr.subrange(k, k + v.len()) == v;
        assert(r == seq![t[0]] + fr);
        assert(r.subrange(k + 1, (k + 1) + v.len()) =~= fr.subrange(k, k + v.len()));
    }
}

/// Whether two texts are equal, character by character.
pub fn same_text(a: &str, b: &str) -> (r: bool)
    ensures
        r == (a@ == b@),
{
    let n = a.unicode_len();
    if n != b.unicode_len() {
        return false;
    }
    let mut i: usize = 0;
    while i < n
        invariant
            n == a@.len(),
            n == b@.len(),
            i <= n,
            a@.subrange(0, i as int) == b@.subrange(0, i as int),
        decreases n - i,
    {
        if a.get_char(i) != b.get_char(i) {
            return false;
        }
        assert(a@.subrange(0, i + 1) =~= a@.subrange(0, i as int).push(a@[i as int]));
        assert(b@.subrange(0, i + 1) =~= b@.subrange(0, i as int).push(b@[i as int]));
        i = i + 1;
    }
    assert(a@ =~= a@.subrange(0, n as int));
    assert(b@ =~= b@.subrange(0, n as int));
    true
}

/// Whether `c` has the Unicode property White_Space.
pub open spec fn is_white_space(c: char) -> bool {
    ||| '\u{9}' <= c && c <= '\u{d}'
    ||| c == ' ' || c == '\u{85}' || c == '\u{a0}' || c == '\u{1680}'
    ||| '\u{2000}' <= c && c <= '\u{200a}'
    ||| c == '\u{2028}' || c == '\u{2029}' || c == '\u{202f}' || c == '\u{205f}'
    ||| c == '\u{3000}'
}

/// `s` without its leading whitespace.
pub open spec fn trim_start_of(s: Seq<char>) -> Seq<char>
    decreases s.len(),
{
    if s.len() > 0 && is_white_space(s[0]) {
        trim_start_of(s.drop_first())
    } else {
        s
    }
}

/// `s` without its trailing whitespace.
pub open spec fn trim_end_of(s: Seq<char>) -> Seq<char>
    decreases s.len(),
{
    if s.len() > 0 && is_white_space(s.last()) {
        trim_end_of(s.drop_last())
    } else {
        s
    }
}

/// `s` without leading or trailing whitespace.
pub open spec fn trimmed(s: Seq<char>) -> Seq<char> {
    trim_end_of(trim_start_of(s))
}

/// Relies on `str::trim`: leading and trailing characters with the Unicode
/// property White_Space are removed.
#[verifier::external_body]
pub(crate) fn trim_text(s: &str) -> (r: &str)
    ensures
        r@ == trimmed(s@),
{
    s.trim()
}

/// The character of a decimal digit.
pub open spec fn digit_char(d: nat) -> char {
    if d == 0 { '0' } else if d == 1 { '1' } else if d == 2 { '2' } else if d == 3 { '3' }
    else if d == 4 { '4' } else if d == 5 { '5' } else if d == 6 { '6' } else if d == 7 { '7' }
    else if d == 8 { '8' } else { '9' }
}

/// The decimal digits of `n`, without leading zeros.
pub open spec fn decimal_of(n: nat) -> Seq<char>
    decreases n,
{
    if n < 10 {
        seq![digit_char(n)]
    } else {
        decimal_of(n / 10).push(digit_char(n % 10))
    }
}

fn digit_str(d: u64) -> (r: &'static str)
    requires
        d < 10,
    ensures
        r@ == seq![digit_char(d as nat)],
{
    proof {
        reveal_strlit("0");
        reveal_strlit("1");
        reveal_strlit("2");
        reveal_strlit("3");
        reveal_strlit("4");
        reveal_strlit("5");
        reveal_strlit("6");
        reveal_strlit("7");
        reveal_strlit("8");
        reveal_strlit("9");
    }
    match d {
        0 => "0",
        1 => "1",
        2 => "2",
        3 => "3",
        4 => "4",
        5 => "5",
        6 => "6",
        7 => "7",
        8 => "8",
        _ => "9",
    }
}

/// `n` written in decimal.
pub fn decimal_text(n: u64) -> (r: String)
    ensures
        r@ == decimal_of(n as nat),
    decreases n,
{
    if n < 10 {
        let r = String::from_str(digit_str(n));
        assert(r@ =~= decimal_of(n as nat));
        r
    } else {
        let mut r = decimal_text(n / 10);
        r.append(digit_str(n % 10));
        r
    }
}

} // verus!
