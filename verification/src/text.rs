//! Small verified text utilities: decimal formatting and splitting.

use vstd::prelude::*;
use vstd::string::*;

verus! {

/// The ASCII digit for a value below ten.
pub open spec fn digit_char(d: nat) -> char {
    if d == 0 { '0' }
    else if d == 1 { '1' }
    else if d == 2 { '2' }
    else if d == 3 { '3' }
    else if d == 4 { '4' }
    else if d == 5 { '5' }
    else if d == 6 { '6' }
    else if d == 7 { '7' }
    else if d == 8 { '8' }
    else { '9' }
}

/// Decimal digits of a natural number, most significant first, without leading zeros.
pub open spec fn nat_decimal(n: nat) -> Seq<char>
    decreases n,
{
    if n < 10 {
        seq![digit_char(n)]
    } else {
        nat_decimal(n / 10).push(digit_char(n % 10))
    }
}

/// Decimal text of an integer: a leading `-` for negative values.
pub open spec fn int_decimal(n: int) -> Seq<char> {
    if n < 0 {
        seq!['-'] + nat_decimal((-n) as nat)
    } else {
        nat_decimal(n as nat)
    }
}

fn digit_str(d: u64) -> (s: &'static str)
    requires
        d < 10,
    ensures
        s@ == seq![digit_char(d as nat)],
{
    if d == 0 {
        proof { reveal_strlit("0"); }
        "0"
    } else if d == 1 {
        proof { reveal_strlit("1"); }
        "1"
    } else if d == 2 {
        proof { reveal_strlit("2"); }
        "2"
    } else if d == 3 {
        proof { reveal_strlit("3"); }
        "3"
    } else if d == 4 {
        proof { reveal_strlit("4"); }
        "4"
    } else if d == 5 {
        proof { reveal_strlit("5"); }
        "5"
    } else if d == 6 {
        proof { reveal_strlit("6"); }
        "6"
    } else if d == 7 {
        proof { reveal_strlit("7"); }
        "7"
    } else if d == 8 {
        proof { reveal_strlit("8"); }
        "8"
    } else {
        proof { reveal_strlit("9"); }
        "9"
    }
}

fn append_decimal(n: u64, out: &mut String)
    ensures
        final(out)@ == old(out)@ + nat_decimal(n as nat),
    decreases n,
{
    if n >= 10 {
        append_decimal(n / 10, out);
    }
    let d = n % 10;
    out.append(digit_str(d));
    proof {
        if n >= 10 {
            assert(nat_decimal(n as nat) == nat_decimal((n / 10) as nat).push(digit_char((n % 10) as nat)));
        }
    }
}

/// Decimal text of an unsigned integer, as `Display` writes it.
pub fn format_u64(n: u64) -> (s: String)
    ensures
        s@ == nat_decimal(n as nat),
{
    let mut s = String::new();
    append_decimal(n, &mut s);
    s
}

/// Decimal text of a signed integer, as `Display` writes it.
pub fn format_i64(n: i64) -> (s: String)
    ensures
        s@ == int_decimal(n as int),
{
    let mut s = String::new();
    if n < 0 {
        proof { reveal_strlit("-"); }
        s.append("-");
        let magnitude: u64 = (-(n as i128)) as u64;
        append_decimal(magnitude, &mut s);
    } else {
        append_decimal(n as u64, &mut s);
    }
    s
}


/// Splits at the first occurrence of `c`: the text before it and the text after it.
pub open spec fn split_first(s: Seq<char>, c: char) -> Option<(Seq<char>, Seq<char>)> {
    if s.contains(c) {
        let i = choose|i: int| first_at(s, c, i);
        Some((s.take(i), s.skip(i + 1)))
    } else {
        None
    }
}

/// The views of an optional pair of strings.
pub open spec fn pair_view(p: Option<(String, String)>) -> Option<(Seq<char>, Seq<char>)> {
    match p {
        Some((a, b)) => Some((a@, b@)),
        None => None,
    }
}

/// `i` is the position of the first `c` in `s`.
pub open spec fn first_at(s: Seq<char>, c: char, i: int) -> bool {
    0 <= i < s.len() && s[i] == c && !s.take(i).contains(c)
}

proof fn lemma_split_first_at(s: Seq<char>, c: char, i: int)
    requires
        0 <= i < s.len(),
        s[i] == c,
        forall|k: int| 0 <= k < i ==> s[k] != c,
    ensures
        split_first(s, c) == Some((s.take(i), s.skip(i + 1))),
        s =~= s.take(i) + seq![c] + s.skip(i + 1),
        !s.take(i).contains(c),
{
    assert(s.contains(c)) by {
        assert(s[i] == c);
    }
    assert(!s.take(i).contains(c)) by {
        if s.take(i).contains(c) {
            let k = choose|k: int| 0 <= k < s.take(i).len() && s.take(i)[k] == c;
            assert(s[k] == c);
        }
    }
    assert(first_at(s, c, i));
    let j = choose|j: int| first_at(s, c, j);
    assert(first_at(s, c, j));
    if j < i {
        assert(s[j] == c);
    } else if j > i {
        assert(s.take(j)[i] == c);
    }
    assert(j == i);
}

/// Splitting at the first `c` undoes joining with `c`, when the first part holds no `c`.
pub proof fn law_split_first_of_join(a: Seq<char>, b: Seq<char>, c: char)
    requires
        !a.contains(c),
    ensures
        split_first(a + seq![c] + b, c) == Some((a, b)),
{
    let s = a + seq![c] + b;
    let i = a.len() as int;
    assert(s[i] == c);
    assert forall|k: int| 0 <= k < i implies s[k] != c by {
        assert(s[k] == a[k]);
    }
    lemma_split_first_at(s, c, i);
    assert(s.take(i) =~= a);
    assert(s.skip(i + 1) =~= b);
}

/// Without `c`, there is nothing to split at.
pub proof fn law_split_first_without(s: Seq<char>, c: char)
    requires
        !s.contains(c),
    ensures
        split_first(s, c) is None,
{
}

/// Splits `s` at the first `c`, as `str::split_once` does with a character pattern.
pub fn split_once_char(s: &str, c: char) -> (res: Option<(String, String)>)
    ensures
        pair_view(res) == split_first(s@, c),
        res matches Some((a, b)) ==> s@ == a@ + seq![c] + b@ && !a@.contains(c),
{
    let len = s.unicode_len();
    let mut i: usize = 0;
    let mut found = false;
    while i < len
        invariant_except_break
            !found,
            i <= len,
            len == s@.len(),
            forall|k: int| 0 <= k < i ==> s@[k] != c,
        ensures
            i <= len,
            len == s@.len(),
            forall|k: int| 0 <= k < i ==> s@[k] != c,
            found ==> i < len && s@[i as int] == c,
            !found ==> i == len,
        decreases len - i,
    {
        if s.get_char(i) == c {
            found = true;
            break;
        }
        i = i + 1;
    }
    if found {
        let before = s.substring_char(0, i).to_owned();
        let after = s.substring_char(i + 1, len).to_owned();
        proof {
            lemma_split_first_at(s@, c, i as int);
        }
        Some((before, after))
    } else {
        assert(!s@.contains(c));
        None
    }
}

/// Whether `c` is an ASCII capital letter.
pub open spec fn is_ascii_upper(c: char) -> bool {
    'A' <= c <= 'Z'
}

/// Whether `a` is the ASCII-lowercase form of `b`.
pub open spec fn is_lower_of(a: char, b: char) -> bool {
    if is_ascii_upper(b) {
        a as u32 == b as u32 + 32
    } else {
        a == b
    }
}

/// Whether `lower` is `s` with its ASCII capitals made small.
pub open spec fn is_ascii_lowercase_of(lower: Seq<char>, s: Seq<char>) -> bool {
    &&& lower.len() == s.len()
    &&& forall|i: int| 0 <= i < s.len() ==> is_lower_of(#[trigger] lower[i], s[i])
}

/// Compares `lower` with `s` taken in ASCII lowercase.
pub fn equals_ascii_lowercase_of(lower: &str, s: &str) -> (res: bool)
    ensures
        res == is_ascii_lowercase_of(lower@, s@),
{
    let n = lower.unicode_len();
    let m = s.unicode_len();
    if n != m {
        return false;
    }
    let mut i: usize = 0;
    while i < n
        invariant
            i <= n,
            n == lower@.len(),
            m == s@.len(),
            n == m,
            forall|k: int| 0 <= k < i ==> is_lower_of(#[trigger] lower@[k], s@[k]),
        decreases n - i,
    {
        let a = lower.get_char(i);
        let b = s.get_char(i);
        let ok = if 'A' <= b && b <= 'Z' {
            (a as u32) == (b as u32) + 32
        } else {
            a == b
        };
        if !ok {
            assert(!is_lower_of(lower@[i as int], s@[i as int]));
            return false;
        }
        i = i + 1;
    }
    true
}

} // verus!
