//! Text as a sequence of characters: classes of characters, and what is cut
//! off the ends of a text.

use vstd::prelude::*;

verus! {

/// A set of characters that is cut off a text or that ends a scan.
#[derive(Debug, Clone, Copy, PartialEq, Eq, Structural)]
pub enum Class {
    /// White space as Unicode defines it.
    Whitespace,
    /// A space or an equals sign.
    Assignment,
    /// A semicolon.
    Terminator,
    /// Anything but a line feed.
    InLine,
}

/// Whether a character is white space: the 25 characters that have the
/// Unicode property `White_Space`.
pub open spec fn is_whitespace(c: char) -> bool {
    let n = c as u32;
    (0x9 <= n <= 0xd) || n == 0x20 || n == 0x85 || n == 0xa0 || n == 0x1680 || (0x2000 <= n
        <= 0x200a) || n == 0x2028 || n == 0x2029 || n == 0x202f || n == 0x205f || n == 0x3000
}

impl Class {
    /// Whether `c` belongs to the class.
    pub open spec fn has(self, c: char) -> bool {
        match self {
            Class::Whitespace => is_whitespace(c),
            Class::Assignment => c == ' ' || c == '=',
            Class::Terminator => c == ';',
            Class::InLine => c != '\n',
        }
    }

    pub fn contains(&self, c: char) -> (r: bool)
        ensures
            r == self.has(c),
    {
        match self {
            Class::Whitespace => {
                let n: u32 = c as u32;
                (0x9 <= n && n <= 0xd) || n == 0x20 || n == 0x85 || n == 0xa0 || n == 0x1680 || (
                0x2000 <= n && n <= 0x200a) || n == 0x2028 || n == 0x2029 || n == 0x202f || n
                    == 0x205f || n == 0x3000
            },
            Class::Assignment => c == ' ' || c == '=',
            Class::Terminator => c == ';',
            Class::InLine => c != '\n',
        }
    }
}

/// How many characters at the start of `s` belong to `class`, up to the first
/// that does not.
pub open spec fn leading(s: Seq<char>, class: Class) -> nat
    decreases s.len(),
{
    if s.len() > 0 && class.has(s[0]) {
        1 + leading(s.drop_first(), class)
    } else {
        0
    }
}

/// How many characters at the end of `s` belong to `class`, back to the last
/// that does not.
pub open spec fn trailing(s: Seq<char>, class: Class) -> nat
    decreases s.len(),
{
    if s.len() > 0 && class.has(s.last()) {
        1 + trailing(s.drop_last(), class)
    } else {
        0
    }
}

/// `s` without the characters of `class` at its start.
pub open spec fn cut_start(s: Seq<char>, class: Class) -> Seq<char> {
    s.skip(leading(s, class) as int)
}

/// `s` without the characters of `class` at its end.
pub open spec fn cut_end(s: Seq<char>, class: Class) -> Seq<char> {
    s.take(s.len() - trailing(s, class))
}

/// `s` without the white space at its start and at its end.
pub open spec fn trim(s: Seq<char>) -> Seq<char> {
    cut_end(cut_start(s, Class::Whitespace), Class::Whitespace)
}

/// `s` without `prefix` at its start, as often as it stands there.
pub open spec fn strip_repeated(s: Seq<char>, prefix: Seq<char>) -> Seq<char>
    decreases s.len(),
{
    if prefix.len() > 0 && prefix.is_prefix_of(s) {
        strip_repeated(s.skip(prefix.len() as int), prefix)
    } else {
        s
    }
}

/// The characters of a text, one by one.
pub fn chars_of(s: &str) -> (v: Vec<char>)
    ensures
        v@ == s@,
{
    let mut v: Vec<char> = Vec::new();
    for c in it: s.chars()
        invariant
            it.seq() == s@,
            v@ == s@.take(it.index() as int),
    {
        v.push(c);
        assert(v@ =~= s@.take(it.index() + 1));
    }
    assert(v@ =~= s@);
    v
}

/// The place in `text[from..to]` of the first character that is not of
/// `class`, or `to`.
pub fn skip_leading(text: &Vec<char>, from: usize, to: usize, class: Class) -> (r: usize)
    requires
        from <= to <= text.len(),
    ensures
        from <= r <= to,
        r - from == leading(text@.subrange(from as int, to as int), class),
        text@.subrange(r as int, to as int) == cut_start(
            text@.subrange(from as int, to as int),
            class,
        ),
{
    let mut i = from;
    while i < to && class.contains(text[i])
        invariant
            from <= i <= to <= text.len(),
            leading(text@.subrange(from as int, to as int), class) == (i - from) + leading(
                text@.subrange(i as int, to as int),
                class,
            ),
        decreases to - i,
    {
        assert(text@.subrange(i as int, to as int).drop_first() =~= text@.subrange(
            i + 1,
            to as int,
        ));
        i = i + 1;
    }
    assert(text@.subrange(i as int, to as int) =~= text@.subrange(from as int, to as int).skip(
        i - from,
    ));
    i
}

/// The place in `text[from..to]` after the last character that is not of
/// `class`, or `from`.
pub fn skip_trailing(text: &Vec<char>, from: usize, to: usize, class: Class) -> (r: usize)
    requires
        from <= to <= text.len(),
    ensures
        from <= r <= to,
        to - r == trailing(text@.subrange(from as int, to as int), class),
        text@.subrange(from as int, r as int) == cut_end(
            text@.subrange(from as int, to as int),
            class,
        ),
{
    let mut j = to;
    while from < j && class.contains(text[j - 1])
        invariant
            from <= j <= to <= text.len(),
            trailing(text@.subrange(from as int, to as int), class) == (to - j) + trailing(
                text@.subrange(from as int, j as int),
                class,
            ),
        decreases j,
    {
        assert(text@.subrange(from as int, j as int).drop_last() =~= text@.subrange(
            from as int,
            j - 1,
        ));
        j = j - 1;
    }
    assert(text@.subrange(from as int, j as int) =~= text@.subrange(from as int, to as int).take(
        j - from,
    ));
    j
}

/// Whether `text[from..to]` starts with `prefix`.
pub fn starts_with(text: &Vec<char>, from: usize, to: usize, prefix: &Vec<char>) -> (r: bool)
    requires
        from <= to <= text.len(),
    ensures
        r == prefix@.is_prefix_of(text@.subrange(from as int, to as int)),
{
    let len = prefix.len();
    if len > to - from {
        return false;
    }
    let mut k: usize = 0;
    while k < len
        invariant
            k <= len == prefix.len(),
            from + len <= to <= text.len(),
            forall|j: int| 0 <= j < k ==> prefix@[j] == text@[from + j],
        decreases len - k,
    {
        if prefix[k] != text[from + k] {
            assert(prefix@[k as int] != text@.subrange(from as int, to as int).subrange(
                0,
                len as int,
            )[k as int]);
            return false;
        }
        k = k + 1;
    }
    assert(prefix@ =~= text@.subrange(from as int, to as int).subrange(0, len as int));
    true
}

/// The place in `text[from..to]` after `prefix`, as often as it stands at
/// the start.
pub fn skip_repeated(text: &Vec<char>, from: usize, to: usize, prefix: &Vec<char>) -> (r: usize)
    requires
        from <= to <= text.len(),
        prefix.len() > 0,
    ensures
        from <= r <= to,
        text@.subrange(r as int, to as int) == strip_repeated(
            text@.subrange(from as int, to as int),
            prefix@,
        ),
{
    let mut p = from;
    while starts_with(text, p, to, prefix)
        invariant
            from <= p <= to <= text.len(),
            prefix.len() > 0,
            strip_repeated(text@.subrange(from as int, to as int), prefix@) == strip_repeated(
                text@.subrange(p as int, to as int),
                prefix@,
            ),
        decreases to - p,
    {
        assert(text@.subrange(p as int, to as int).skip(prefix.len() as int) =~= text@.subrange(
            p + prefix.len(),
            to as int,
        ));
        p = p + prefix.len();
    }
    p
}

} // verus!
