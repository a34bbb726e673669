//! Small verified text helpers shared across the crate.
use vstd::prelude::*;
use vstd::string::StringExecFns;

verus! {

/// Collects the characters of a string slice into a vector.
pub fn chars_of(s: &str) -> (v: Vec<char>)
    ensures
        v@ == s@,
{
    broadcast use vstd::string::axiom_spec_iter;

    let mut v: Vec<char> = Vec::new();
    for c in it: s.chars()
        invariant
            it.seq() == s@,
            v@ == it.seq().subrange(0, it.index()),
    {
        v.push(c);
    }
    assert(v@ =~= s@);
    v
}

/// Decides whether a string slice holds exactly the given characters.
pub fn str_eq_chars(s: &str, cs: &[char]) -> (r: bool)
    ensures
        r == (s@ == cs@),
{
    let sv = chars_of(s);
    if sv.len() != cs.len() {
        assert(s@.len() != cs@.len());
        return false;
    }
    let mut i: usize = 0;
    while i < sv.len()
        invariant
            i <= sv@.len(),
            sv@.len() == cs@.len(),
            sv@ == s@,
            forall|j: int| 0 <= j < i ==> sv@[j] == cs@[j],
        decreases sv@.len() - i,
    {
        if sv[i] != cs[i] {
            return false;
        }
        i = i + 1;
    }
    assert(s@ =~= cs@);
    true
}

/// Whether `s` ends in `suffix`.
pub open spec fn spec_ends_with(s: Seq<char>, suffix: Seq<char>) -> bool {
    suffix.len() <= s.len() && s.skip(s.len() - suffix.len()) == suffix
}

/// Decides whether a string ends in a suffix, as `spec_ends_with` states
/// it.
pub fn str_ends_with(s: &str, suffix: &str) -> (r: bool)
    ensures
        r == spec_ends_with(s@, suffix@),
{
    let sv = chars_of(s);
    let xv = chars_of(suffix);
    if xv.len() > sv.len() {
        return false;
    }
    let off = sv.len() - xv.len();
    let mut j: usize = 0;
    while j < xv.len()
        invariant
            j <= xv@.len(),
            sv@.len() <= usize::MAX,
            off == sv@.len() - xv@.len(),
            sv@ == s@,
            xv@ == suffix@,
            forall|k: int| 0 <= k < j ==> sv@[off + k] == xv@[k],
        decreases xv@.len() - j,
    {
        if sv[off + j] != xv[j] {
            assert(!spec_ends_with(s@, suffix@)) by {
                if s@.skip(s@.len() - suffix@.len()) == suffix@ {
                    assert(s@.skip(s@.len() - suffix@.len())[j as int] == suffix@[j as int]);
                }
            }
            return false;
        }
        j = j + 1;
    }
    assert(s@.skip(s@.len() - suffix@.len()) =~= suffix@);
    true
}

/// Whether the text holds the given character anywhere.
pub open spec fn spec_contains_char(s: Seq<char>, c: char) -> bool {
    exists|i: int| 0 <= i < s.len() && s[i] == c
}

/// Decides whether a string holds a character, as `spec_contains_char`
/// states it.
pub fn str_contains_char(s: &str, c: char) -> (r: bool)
    ensures
        r == spec_contains_char(s@, c),
{
    let sv = chars_of(s);
    let mut i: usize = 0;
    while i < sv.len()
        invariant
            i <= sv@.len(),
            sv@ == s@,
            forall|k: int| 0 <= k < i ==> sv@[k] != c,
        decreases sv@.len() - i,
    {
        if sv[i] == c {
            assert(s@[i as int] == c);
            return true;
        }
        i = i + 1;
    }
    false
}

/// The character of a single decimal digit.
pub open spec fn digit_char(d: int) -> char {
    if d == 0 {
        '0'
    } else if d == 1 {
        '1'
    } else if d == 2 {
        '2'
    } else if d == 3 {
        '3'
    } else if d == 4 {
        '4'
    } else if d == 5 {
        '5'
    } else if d == 6 {
        '6'
    } else if d == 7 {
        '7'
    } else if d == 8 {
        '8'
    } else {
        '9'
    }
}

/// The decimal rendering of a non-negative number, without leading zeros.
pub open spec fn spec_dec_str(n: int) -> Seq<char>
    decreases n,
{
    if n < 10 {
        seq![digit_char(n)]
    } else {
        spec_dec_str(n / 10).push(digit_char(n % 10))
    }
}

fn digit_str(d: u16) -> (s: &'static str)
    requires
        d < 10,
    ensures
        s@ == seq![digit_char(d as int)],
{
    proof {
        reveal_strlit("0");
        reveal_strlit("1");
        reveal_strlit("2");
        reveal_strlit("3");
        reveal_strlit("4");
        reveal_strlit("5");
        reveal_strlit("6");
        reveal_strlit("7");
        reveal_strlit("8");
        reveal_strlit("9");
    }
    let s = match d {
        0 => "0",
        1 => "1",
        2 => "2",
        3 => "3",
        4 => "4",
        5 => "5",
        6 => "6",
        7 => "7",
        8 => "8",
        _ => "9",
    };
    assert(s@ =~= seq![digit_char(d as int)]);
    s
}

/// Renders a number in decimal, as `spec_dec_str` states it.
pub fn u16_dec_str(n: u16) -> (s: String)
    ensures
        s@ == spec_dec_str(n as int),
    decreases n,
{
    let d = n % 10;
    let q = n / 10;
    let ds = digit_str(d);
    if q == 0 {
        String::from_str(ds)
    } else {
        let mut s = u16_dec_str(q);
        s.append(ds);
        assert(s@ =~= spec_dec_str(q as int).push(digit_char(d as int)));
        s
    }
}

} // verus!
