//! Small verified helpers on text: brackets, decimal rendering, substring
//! removal and the log-file-name test.
use vstd::prelude::*;

verus! {

/// The ten decimal digits, in order.
pub open spec fn digit_chars() -> Seq<char> {
    seq!['0', '1', '2', '3', '4', '5', '6', '7', '8', '9']
}

/// The decimal representation of `n`, without sign or leading zeros
/// (as `format!("{}", n)` writes it).
pub open spec fn decimal(n: nat) -> Seq<char>
    decreases n,
{
    if n < 10 {
        seq![digit_chars()[n as int]]
    } else {
        decimal(n / 10) + seq![digit_chars()[(n % 10) as int]]
    }
}

/// `s` with every non-overlapping occurrence of `pat`, searched from the
/// left, removed (what `str::replace(pat, "")` gives). An empty pattern
/// removes nothing.
pub open spec fn without_all(s: Seq<char>, pat: Seq<char>) -> Seq<char>
    decreases s.len(),
{
    if s.len() == 0 {
        s
    } else if 0 < pat.len() <= s.len() && s.take(pat.len() as int) == pat {
        without_all(s.skip(pat.len() as int), pat)
    } else {
        seq![s[0]] + without_all(s.skip(1), pat)
    }
}

/// The extension `.log`: four characters.
pub open spec fn dot_log() -> Seq<char> {
    seq!['.', 'l', 'o', 'g']
}

/// A file name whose extension, in the sense of `Path::extension`, is `log`:
/// the part after the final `.`, where that `.` is not the first character.
/// As `log` holds no `.`, this is a name of more than four characters that
/// ends in `.log`.
pub open spec fn has_log_extension(name: Seq<char>) -> bool {
    name.len() > 4 && name.skip(name.len() - 4) == dot_log()
}

/// The single digit `d` as text.
fn digit_text(d: u64) -> (r: String)
    requires
        d < 10,
    ensures
        r@ == seq![digit_chars()[d as int]],
{
    let digits = "0123456789";
    proof {
        reveal_strlit("0123456789");
        assert(digits@ =~= digit_chars());
    }
    let one = digits.substring_char(d as usize, (d + 1) as usize);
    let r = String::from_str(one);
    assert(r@ =~= seq![digit_chars()[d as int]]);
    r
}

/// `n` written in decimal.
pub fn decimal_text(n: u64) -> (r: String)
    ensures
        r@ == decimal(n as nat),
    decreases n,
{
    if n < 10 {
        digit_text(n)
    } else {
        let mut r = decimal_text(n / 10);
        let last = digit_text(n % 10);
        r.append(last.as_str());
        r
    }
}

/// Whether `pat` occurs in `s` at character position `at`.
fn occurs_at(s: &str, pat: &str, at: usize) -> (r: bool)
    requires
        at + pat@.len() <= s@.len(),
    ensures
        r == (s@.subrange(at as int, at + pat@.len()) == pat@),
{
    let plen = pat.unicode_len();
    let n = s.unicode_len();
    let mut j: usize = 0;
    while j < plen
        invariant
            plen == pat@.len(),
            n == s@.len(),
            at + plen <= s@.len(),
            j <= plen,
            forall|k: int| 0 <= k < j ==> s@[at + k] == pat@[k],
        decreases plen - j,
    {
        if s.get_char(at + j) != pat.get_char(j) {
            assert(s@.subrange(at as int, at + plen)[j as int] != pat@[j as int]);
            return false;
        }
        j = j + 1;
    }
    assert(s@.subrange(at as int, at + plen) =~= pat@);
    true
}

/// One step of `without_all` where no removal happens at the front.
proof fn lemma_without_all_keep(s: Seq<char>, pat: Seq<char>)
    requires
        s.len() > 0,
        !(0 < pat.len() <= s.len() && s.take(pat.len() as int) == pat),
    ensures
        without_all(s, pat) == seq![s[0]] + without_all(s.skip(1), pat),
{
}

/// `s` with every occurrence of `pat` removed, from the left.
pub fn remove_all(s: &str, pat: &str) -> (r: String)
    ensures
        r@ == without_all(s@, pat@),
{
    let n = s.unicode_len();
    let plen = pat.unicode_len();
    let mut out = String::new();
    let mut i: usize = 0;
    assert(s@.skip(0) =~= s@);
    while i < n
        invariant
            n == s@.len(),
            plen == pat@.len(),
            i <= n,
            without_all(s@, pat@) == out@ + without_all(s@.skip(i as int), pat@),
        decreases n - i,
    {
        let ghost rest = s@.skip(i as int);
        if plen > 0 && plen <= n - i && occurs_at(s, pat, i) {
            assert(rest.take(plen as int) =~= s@.subrange(i as int, i + plen));
            assert(rest.skip(plen as int) =~= s@.skip(i + plen));
            i = i + plen;
        } else {
            proof {
                if 0 < plen <= n - i {
                    assert(rest.take(plen as int) =~= s@.subrange(i as int, i + plen));
                }
                lemma_without_all_keep(rest, pat@);
                assert(rest.skip(1) =~= s@.skip(i + 1));
            }
            let one = s.substring_char(i, i + 1);
            assert(one@ =~= seq![rest[0]]);
            out.append(one);
            assert(out@ + without_all(s@.skip(i + 1), pat@) =~= without_all(s@, pat@));
            i = i + 1;
        }
    }
    assert(without_all(s@.skip(n as int), pat@) =~= Seq::<char>::empty());
    assert(out@ =~= without_all(s@, pat@));
    out
}

/// Whether `name` is the name of a log file: its extension is `log`.
pub fn is_log_file_name(name: &str) -> (r: bool)
    ensures
        r == has_log_extension(name@),
{
    let n = name.unicode_len();
    let ext = ".log";
    proof {
        reveal_strlit(".log");
        assert(ext@ =~= dot_log());
    }
    if n <= 4 {
        return false;
    }
    let found = occurs_at(name, ext, n - 4);
    assert(name@.subrange(n - 4, n as int) =~= name@.skip(n - 4));
    found
}

/// `s` in square brackets.
pub open spec fn bracketed(s: Seq<char>) -> Seq<char> {
    seq!['['] + s + seq![']']
}

/// `s` where `c` holds, else nothing.
pub open spec fn shown_if(c: bool, s: Seq<char>) -> Seq<char> {
    if c {
        s
    } else {
        Seq::empty()
    }
}

/// `s` in square brackets.
pub fn bracketed_text(s: &str) -> (r: String)
    ensures
        r@ == bracketed(s@),
{
    let mut r = String::from_str("[");
    proof {
        reveal_strlit("[");
        reveal_strlit("]");
    }
    r.append(s);
    r.append("]");
    assert(r@ =~= bracketed(s@));
    r
}

/// A single space.
pub fn space_text() -> (r: String)
    ensures
        r@ == seq![' '],
{
    let r = String::from_str(" ");
    proof {
        reveal_strlit(" ");
    }
    assert(r@ =~= seq![' ']);
    r
}

} // verus!
