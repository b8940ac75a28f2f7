//! Text building blocks shared by the messages of the library: decimal
//! numbers, joined lists and the human-readable form of a time span.
use vstd::prelude::*;
use vstd::string::*;

verus! {

/// The character of a decimal digit.
pub open spec fn digit_char(d: nat) -> char {
    if d == 0 { '0' }
    else if d == 1 { '1' }
    else if d == 2 { '2' }
    else if d == 3 { '3' }
    else if d == 4 { '4' }
    else if d == 5 { '5' }
    else if d == 6 { '6' }
    else if d == 7 { '7' }
    else if d == 8 { '8' }
    else { '9' }
}

/// The decimal notation of `n`, without leading zeros.
pub open spec fn decimal_text(n: nat) -> Seq<char>
    decreases n,
{
    if n < 10 {
        seq![digit_char(n)]
    } else {
        decimal_text(n / 10).push(digit_char(n % 10))
    }
}

fn digit_str(d: u64) -> (s: &'static str)
    requires
        d < 10,
    ensures
        s@ == seq![digit_char(d as nat)],
{
    proof {
        reveal_strlit("0");
        reveal_strlit("1");
        reveal_strlit("2");
        reveal_strlit("3");
        reveal_strlit("4");
        reveal_strlit("5");
        reveal_strlit("6");
        reveal_strlit("7");
        reveal_strlit("8");
        reveal_strlit("9");
    }
    if d == 0 { "0" }
    else if d == 1 { "1" }
    else if d == 2 { "2" }
    else if d == 3 { "3" }
    else if d == 4 { "4" }
    else if d == 5 { "5" }
    else if d == 6 { "6" }
    else if d == 7 { "7" }
    else if d == 8 { "8" }
    else { "9" }
}

/// Writes `n` in decimal notation.
pub fn decimal(n: u64) -> (s: String)
    ensures
        s@ == decimal_text(n as nat),
    decreases n,
{
    if n < 10 {
        String::from_str(digit_str(n))
    } else {
        let mut s = decimal(n / 10);
        s.append(digit_str(n % 10));
        s
    }
}

/// Appends `b` to `a`.
pub fn concat2(a: &str, b: &str) -> (s: String)
    ensures
        s@ == a@ + b@,
{
    let mut s = String::from_str(a);
    s.append(b);
    s
}

/// The elements of `parts` joined by `sep`.
pub open spec fn joined(parts: Seq<Seq<char>>, sep: Seq<char>) -> Seq<char>
    decreases parts.len(),
{
    if parts.len() == 0 {
        Seq::empty()
    } else if parts.len() == 1 {
        parts[0]
    } else {
        joined(parts.drop_last(), sep) + sep + parts.last()
    }
}

/// The views of a list of strings.
pub open spec fn views(parts: Seq<String>) -> Seq<Seq<char>> {
    parts.map_values(|p: String| p@)
}

/// Joins `parts` with `sep` between consecutive elements.
pub fn join(parts: &Vec<String>, sep: &str) -> (s: String)
    ensures
        s@ == joined(views(parts@), sep@),
{
    let mut s = String::new();
    let mut i: usize = 0;
    while i < parts.len()
        invariant
            i <= parts.len(),
            s@ == joined(views(parts@.take(i as int)), sep@),
        decreases parts.len() - i,
    {
        proof {
            let pre = views(parts@.take(i as int));
            let post = views(parts@.take(i as int + 1));
            assert(post.drop_last() =~= pre);
            assert(post.last() == parts@[i as int]@);
        }
        if i > 0 {
            s.append(sep);
        }
        s.append(parts[i].as_str());
        i = i + 1;
    }
    proof {
        assert(parts@.take(parts.len() as int) =~= parts@);
    }
    s
}

/// Decimal notation of the fractional digits of `frac` thousandths, with
/// trailing zeros removed (`frac` is between 1 and 999).
pub open spec fn thousandths_text(frac: nat) -> Seq<char> {
    if frac % 100 == 0 {
        seq![digit_char(frac / 100)]
    } else if frac % 10 == 0 {
        seq![digit_char(frac / 100), digit_char((frac / 10) % 10)]
    } else {
        seq![digit_char(frac / 100), digit_char((frac / 10) % 10), digit_char(frac % 10)]
    }
}

/// The human-readable form of a span of `ms` milliseconds: "0ns" for zero,
/// "<n>ms" below a second, and "<s>[.<fraction>]s" from a second on.
pub open spec fn span_text(ms: nat) -> Seq<char> {
    if ms == 0 {
        "0ns"@
    } else if ms < 1000 {
        decimal_text(ms) + "ms"@
    } else if ms % 1000 == 0 {
        decimal_text(ms / 1000) + "s"@
    } else {
        decimal_text(ms / 1000) + "."@ + thousandths_text(ms % 1000) + "s"@
    }
}

/// Writes a span of `ms` milliseconds in human-readable form.
pub fn span(ms: u64) -> (s: String)
    ensures
        s@ == span_text(ms as nat),
{
    if ms == 0 {
        return String::from_str("0ns");
    }
    if ms < 1000 {
        let mut s = decimal(ms);
        s.append("ms");
        return s;
    }
    let mut s = decimal(ms / 1000);
    let frac = ms % 1000;
    if frac != 0 {
        s.append(".");
        s.append(digit_str(frac / 100));
        if frac % 100 != 0 {
            s.append(digit_str((frac / 10) % 10));
            if frac % 10 != 0 {
                s.append(digit_str(frac % 10));
            }
        }
    }
    s.append("s");
    proof {
        if frac != 0 {
            assert(span_text(ms as nat) == decimal_text((ms / 1000) as nat) + "."@
                + thousandths_text((ms % 1000) as nat) + "s"@);
        }
    }
    s
}

/// Whether `needle` occurs in `hay` starting at position `at`.
pub open spec fn occurs_at(hay: Seq<char>, needle: Seq<char>, at: int) -> bool {
    0 <= at && at + needle.len() <= hay.len() && hay.subrange(at, at + needle.len()) == needle
}

/// Whether `needle` occurs somewhere in `hay`.
pub open spec fn has_infix(hay: Seq<char>, needle: Seq<char>) -> bool {
    exists|at: int| occurs_at(hay, needle, at)
}

/// Whether `needle` occurs in `hay` starting at character `at`.
fn matches_at(hay: &str, needle: &str, at: usize) -> (b: bool)
    requires
        at + needle@.len() <= hay@.len(),
    ensures
        b == occurs_at(hay@, needle@, at as int),
{
    let h = hay.unicode_len();
    let n = needle.unicode_len();
    let mut j: usize = 0;
    while j < n
        invariant
            n == needle@.len(),
            h == hay@.len(),
            at + n <= hay@.len(),
            j <= n,
            forall|k: int| 0 <= k < j ==> hay@[at + k] == needle@[k],
        decreases n - j,
    {
        if hay.get_char(at + j) != needle.get_char(j) {
            assert(hay@.subrange(at as int, at + n)[j as int] != needle@[j as int]);
            return false;
        }
        j = j + 1;
    }
    assert(hay@.subrange(at as int, at + n) =~= needle@);
    true
}

/// Whether `needle` occurs in `hay`.
pub fn contains_text(hay: &str, needle: &str) -> (b: bool)
    ensures
        b == has_infix(hay@, needle@),
{
    let h = hay.unicode_len();
    let n = needle.unicode_len();
    if n > h {
        assert forall|at: int| !occurs_at(hay@, needle@, at) by {}
        return false;
    }
    if n == 0 {
        assert(hay@.subrange(0, 0) =~= needle@);
        assert(occurs_at(hay@, needle@, 0));
        return true;
    }
    let mut at: usize = 0;
    while at <= h - n
        invariant
            h == hay@.len(),
            n == needle@.len(),
            1 <= n <= h,
            at <= h - n + 1,
            forall|k: int| 0 <= k < at ==> !occurs_at(hay@, needle@, k),
        decreases h + 1 - at,
    {
        if matches_at(hay, needle, at) {
            return true;
        }
        at = at + 1;
    }
    assert forall|k: int| !occurs_at(hay@, needle@, k) by {
        if 0 <= k < at {
        } else if k >= at {
            assert(k + n > h);
        }
    }
    false
}

} // verus!
