//! Building strings and vectors of characters.

use vstd::prelude::*;

verus! {

/// Specifies `String::push` of the standard library: the character is appended to the end of
/// the string and nothing else in it changes.
pub assume_specification[ String::push ](s: &mut String, ch: char)
    ensures
        final(s)@ == old(s)@.push(ch),
;

/// The characters of `s`, one by one.
pub fn chars_of(s: &str) -> (chars: Vec<char>)
    ensures
        chars@ == s@,
{
    let mut chars: Vec<char> = Vec::new();
    for c in it: s.chars()
        invariant
            chars@ == it.seq().take(it.index() as int),
    {
        chars.push(c);
    }
    chars
}

/// A string made of the characters `chars[from..to]`.
pub fn string_of(chars: &Vec<char>, from: usize, to: usize) -> (s: String)
    requires
        from <= to <= chars.len(),
    ensures
        s@ == chars@.subrange(from as int, to as int),
{
    let mut s = String::new();
    let mut i: usize = from;
    while i < to
        invariant
            from <= i <= to <= chars.len(),
            s@ == chars@.subrange(from as int, i as int),
        decreases to - i,
    {
        s.push(chars[i]);
        i += 1;
    }
    s
}

/// A string made of the characters `chars`.
pub fn string_from(chars: &Vec<char>) -> (s: String)
    ensures
        s@ == chars@,
{
    string_of(chars, 0, chars.len())
}

/// `n` copies of `c`; nothing where `n` is not positive.
pub open spec fn run_of(c: char, n: int) -> Seq<char> {
    Seq::new(if n > 0 { n as nat } else { 0 }, |i: int| c)
}

/// Appends `n` copies of `c` to `chars`.
pub fn push_repeated(chars: &mut Vec<char>, c: char, n: usize)
    ensures
        final(chars)@ == old(chars)@ + run_of(c, n as int),
{
    let mut i: usize = 0;
    while i < n
        invariant
            i <= n,
            chars@ == old(chars)@ + run_of(c, i as int),
        decreases n - i,
    {
        chars.push(c);
        i += 1;
    }
}

/// Appends the characters of `s` to `chars`.
pub fn push_str(chars: &mut Vec<char>, s: &str)
    ensures
        final(chars)@ == old(chars)@ + s@,
{
    for c in it: s.chars()
        invariant
            chars@ == old(chars)@ + it.seq().take(it.index() as int),
    {
        chars.push(c);
    }
}

/// Appends the characters `more` to `chars`.
pub fn push_chars(chars: &mut Vec<char>, more: &Vec<char>)
    ensures
        final(chars)@ == old(chars)@ + more@,
{
    let mut i: usize = 0;
    while i < more.len()
        invariant
            i <= more.len(),
            chars@ == old(chars)@ + more@.take(i as int),
        decreases more.len() - i,
    {
        chars.push(more[i]);
        i += 1;
    }
}

} // verus!
