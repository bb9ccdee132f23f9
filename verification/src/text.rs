//! Small operations on text that the rest of the library shares.

use vstd::prelude::*;
use vstd::utf8::encode_utf8_decode_utf8;

verus! {

/// `String::push`: the character is added at the end of the text.
pub assume_specification[ std::string::String::push ](s: &mut std::string::String, ch: char)
    ensures
        final(s)@ == old(s)@.push(ch),
;

/// Whether two texts hold the same characters.
pub fn same_text(a: &str, b: &str) -> (same: bool)
    ensures
        same == (a@ == b@),
{
    let x = a.as_bytes();
    let y = b.as_bytes();
    if x.len() != y.len() {
        return false;
    }
    let mut i: usize = 0;
    while i < x.len()
        invariant
            i <= x.len(),
            x.len() == y.len(),
            x@ == vstd::utf8::encode_utf8(a@),
            y@ == vstd::utf8::encode_utf8(b@),
            forall|k: int| 0 <= k < i ==> x@[k] == y@[k],
        decreases x.len() - i,
    {
        if x[i] != y[i] {
            return false;
        }
        i += 1;
    }
    proof {
        assert(x@ =~= y@);
        encode_utf8_decode_utf8(a@);
        encode_utf8_decode_utf8(b@);
    }
    true
}

/// The decimal digit that stands for a number below ten.
pub open spec fn digit(d: nat) -> char {
    if d == 0 {
        '0'
    } else if d == 1 {
        '1'
    } else if d == 2 {
        '2'
    } else if d == 3 {
        '3'
    } else if d == 4 {
        '4'
    } else if d == 5 {
        '5'
    } else if d == 6 {
        '6'
    } else if d == 7 {
        '7'
    } else if d == 8 {
        '8'
    } else {
        '9'
    }
}

/// A number in decimal notation, without leading zeros.
pub open spec fn decimal(n: nat) -> Seq<char>
    decreases n,
{
    if n < 10 {
        seq![digit(n)]
    } else {
        decimal(n / 10).push(digit(n % 10))
    }
}

fn digit_char(d: usize) -> (c: char)
    requires
        d < 10,
    ensures
        c == digit(d as nat),
{
    if d == 0 {
        '0'
    } else if d == 1 {
        '1'
    } else if d == 2 {
        '2'
    } else if d == 3 {
        '3'
    } else if d == 4 {
        '4'
    } else if d == 5 {
        '5'
    } else if d == 6 {
        '6'
    } else if d == 7 {
        '7'
    } else if d == 8 {
        '8'
    } else {
        '9'
    }
}

/// Adds a number in decimal notation at the end of a text.
pub fn push_decimal(out: &mut String, n: usize)
    ensures
        final(out)@ == old(out)@ + decimal(n as nat),
    decreases n,
{
    if n >= 10 {
        push_decimal(out, n / 10);
    }
    out.push(digit_char(n % 10));
}

/// Adds the characters of `piece` at the end of a text.
pub fn push_text(out: &mut String, piece: &str)
    ensures
        final(out)@ == old(out)@ + piece@,
{
    out.append(piece);
}

/// A text in which every occurrence of one character is replaced by another.
pub open spec fn substituted(s: Seq<char>, from: char, to: char) -> Seq<char> {
    Seq::new(s.len(), |i: int| if s[i] == from { to } else { s[i] })
}

/// A copy of `s` in which `to` stands wherever `s` has `from`.
pub fn substitute(s: &str, from: char, to: char) -> (out: String)
    ensures
        out@ == substituted(s@, from, to),
{
    let mut out = String::new();
    for c in it: s.chars()
        invariant
            it.seq() == s@,
            out@ == substituted(s@.take(it.index() as int), from, to),
    {
        if c == from {
            out.push(to);
        } else {
            out.push(c);
        }
    }
    out
}

/// Whether a text begins with the characters of `prefix`.
pub open spec fn has_prefix(s: Seq<char>, prefix: Seq<char>) -> bool {
    prefix.len() <= s.len() && s.subrange(0, prefix.len() as int) == prefix
}

/// Whether the characters of `pattern` stand in a text from position `i` on.
pub open spec fn occurs_at(s: Seq<char>, pattern: Seq<char>, i: int) -> bool {
    0 <= i && i + pattern.len() <= s.len() && s.subrange(i, i + pattern.len()) == pattern
}

/// Whether the characters of `pattern` stand somewhere in a text, one after
/// the other.
pub open spec fn holds(s: Seq<char>, pattern: Seq<char>) -> bool {
    exists|i: int| occurs_at(s, pattern, i)
}

/// The characters of a text.
pub fn characters(s: &str) -> (chars: Vec<char>)
    ensures
        chars@ == s@,
{
    let mut chars: Vec<char> = Vec::new();
    for c in it: s.chars()
        invariant
            it.seq() == s@,
            chars@ == s@.take(it.index() as int),
    {
        chars.push(c);
    }
    chars
}

fn matches_at(s: &Vec<char>, pattern: &Vec<char>, i: usize) -> (matches: bool)
    requires
        i + pattern.len() <= s.len(),
    ensures
        matches == occurs_at(s@, pattern@, i as int),
{
    let mut k: usize = 0;
    while k < pattern.len()
        invariant
            k <= pattern.len(),
            i + pattern.len() <= s.len(),
            forall|n: int| 0 <= n < k ==> s@[i + n] == pattern@[n],
        decreases pattern.len() - k,
    {
        if s[i + k] != pattern[k] {
            return false;
        }
        k += 1;
    }
    assert(s@.subrange(i as int, i + pattern.len()) =~= pattern@);
    true
}

/// Whether a text begins with the characters of `prefix`.
pub fn starts_with(s: &str, prefix: &str) -> (starts: bool)
    ensures
        starts == has_prefix(s@, prefix@),
{
    let text = characters(s);
    let wanted = characters(prefix);
    if wanted.len() > text.len() {
        return false;
    }
    matches_at(&text, &wanted, 0)
}

/// Whether the characters of `pattern` stand somewhere in a text.
pub fn contains(s: &str, pattern: &str) -> (found: bool)
    ensures
        found == holds(s@, pattern@),
{
    let text = characters(s);
    let wanted = characters(pattern);
    if wanted.len() > text.len() {
        assert forall|i: int| !occurs_at(s@, pattern@, i) by {}
        return false;
    }
    let last = text.len() - wanted.len();
    let mut i: usize = 0;
    loop
        invariant
            i <= last,
            text@ == s@,
            wanted@ == pattern@,
            last + wanted.len() == text.len(),
            forall|n: int| 0 <= n < i ==> !occurs_at(s@, pattern@, n),
        decreases last - i,
    {
        if matches_at(&text, &wanted, i) {
            return true;
        }
        if i == last {
            assert forall|n: int| !occurs_at(s@, pattern@, n) by {}
            return false;
        }
        i += 1;
    }
}

/// The order of texts: that of their characters, the first difference
/// deciding, a text that ends first coming first.
pub open spec fn precedes(a: Seq<char>, b: Seq<char>) -> bool
    decreases a.len(),
{
    if b.len() == 0 {
        false
    } else if a.len() == 0 {
        true
    } else if a[0] != b[0] {
        (a[0] as u32) < (b[0] as u32)
    } else {
        precedes(a.drop_first(), b.drop_first())
    }
}

/// No text comes before itself.
pub proof fn lemma_precedes_irreflexive(a: Seq<char>)
    ensures
        !precedes(a, a),
    decreases a.len(),
{
    if a.len() > 0 {
        lemma_precedes_irreflexive(a.drop_first());
    }
}

/// The order of texts is transitive.
pub proof fn lemma_precedes_transitive(a: Seq<char>, b: Seq<char>, c: Seq<char>)
    requires
        precedes(a, b),
        precedes(b, c),
    ensures
        precedes(a, c),
    decreases a.len(),
{
    if a.len() > 0 && a[0] == b[0] && b[0] == c[0] {
        lemma_precedes_transitive(a.drop_first(), b.drop_first(), c.drop_first());
    }
}

/// Of two different texts one comes before the other.
pub proof fn lemma_precedes_total(a: Seq<char>, b: Seq<char>)
    ensures
        a == b || precedes(a, b) || precedes(b, a),
    decreases a.len(),
{
    if a.len() > 0 && b.len() > 0 && a[0] == b[0] {
        lemma_precedes_total(a.drop_first(), b.drop_first());
        if a.drop_first() == b.drop_first() {
            assert(b =~= seq![b[0]] + b.drop_first());
        }
    } else if a.len() == 0 && b.len() == 0 {
    } else if a.len() > 0 && b.len() > 0 {
        vstd::utf8::char_u32_cast(a[0], a[0] as u32);
        vstd::utf8::char_u32_cast(b[0], b[0] as u32);
    }
}

/// Whether one text comes before another.
pub fn comes_before(a: &str, b: &str) -> (before: bool)
    ensures
        before == precedes(a@, b@),
{
    let x = characters(a);
    let y = characters(b);
    let mut i: usize = 0;
    assert(a@.skip(0) =~= a@);
    assert(b@.skip(0) =~= b@);
    while i < x.len() && i < y.len()
        invariant
            i <= x.len(),
            i <= y.len(),
            x@ == a@,
            y@ == b@,
            precedes(a@, b@) == precedes(a@.skip(i as int), b@.skip(i as int)),
        decreases x.len() - i,
    {
        if x[i] != y[i] {
            return (x[i] as u32) < (y[i] as u32);
        }
        assert(a@.skip(i as int).drop_first() =~= a@.skip(i + 1));
        assert(b@.skip(i as int).drop_first() =~= b@.skip(i + 1));
        i += 1;
    }
    i < y.len()
}

} // verus!
