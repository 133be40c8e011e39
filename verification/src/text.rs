//! Character-level tools shared by the parsers.
//!
//! Every parser in this crate sees its input as a sequence of characters
//! (`Seq<char>`, the view of a `&str`). This module defines the few notions
//! the grammars are built from (the run of characters before a stop, the
//! fields between separators, the words between whitespace) and the
//! executable scanners that compute them.

use vstd::prelude::*;
use vstd::string::*;

verus! {

/// Whether `c` is whitespace as Unicode defines it (`White_Space`).
pub open spec fn is_whitespace(c: char) -> bool {
    let u = c as u32;
    ||| 0x09 <= u <= 0x0d
    ||| u == 0x20
    ||| u == 0x85
    ||| u == 0xa0
    ||| u == 0x1680
    ||| 0x2000 <= u <= 0x200a
    ||| u == 0x2028
    ||| u == 0x2029
    ||| u == 0x202f
    ||| u == 0x205f
    ||| u == 0x3000
}

/// What brings a scan to a halt.
#[derive(Clone, Copy, Debug, PartialEq, Eq)]
pub enum Stop {
    /// The given character.
    At(char),
    /// Any whitespace character.
    Space,
    /// Any character that is not whitespace.
    NonSpace,
}

impl Stop {
    /// Whether a scan halts on `c`.
    pub open spec fn holds(self, c: char) -> bool {
        match self {
            Stop::At(x) => c == x,
            Stop::Space => is_whitespace(c),
            Stop::NonSpace => !is_whitespace(c),
        }
    }

    /// Executable form of [`Stop::holds`].
    pub fn test(self, c: char) -> (b: bool)
        ensures
            b == self.holds(c),
    {
        match self {
            Stop::At(x) => c == x,
            Stop::Space => whitespace(c),
            Stop::NonSpace => !whitespace(c),
        }
    }
}

/// The number of leading characters of `s` that come before the first one
/// `stop` holds for; all of `s` where it holds for none.
pub open spec fn run(s: Seq<char>, stop: Stop) -> nat
    decreases s.len(),
{
    if s.len() == 0 || stop.holds(s[0]) {
        0
    } else {
        1 + run(s.skip(1), stop)
    }
}

/// The pieces of `s` that lie between occurrences of `sep`, in order. There is
/// always at least one piece; a separator at either end, or two in a row,
/// give an empty piece.
pub open spec fn fields(s: Seq<char>, sep: char) -> Seq<Seq<char>>
    decreases s.len(),
{
    let n = run(s, Stop::At(sep)) as int;
    if n >= s.len() {
        seq![s]
    } else {
        proof {
            lemma_run(s, Stop::At(sep));
        }
        seq![s.take(n)] + fields(s.skip(n + 1), sep)
    }
}

/// The maximal runs of non-whitespace characters of `s`, in order.
pub open spec fn words(s: Seq<char>) -> Seq<Seq<char>>
    decreases s.len(),
{
    let rest = s.skip(run(s, Stop::NonSpace) as int);
    let n = run(rest, Stop::Space) as int;
    if n == 0 {
        Seq::empty()
    } else {
        proof {
            lemma_run(s, Stop::NonSpace);
            lemma_run(rest, Stop::Space);
        }
        seq![rest.take(n)] + words(rest.skip(n))
    }
}

/// `s` without the characters `c` that end it.
pub open spec fn trim_end(s: Seq<char>, c: char) -> Seq<char>
    decreases s.len(),
{
    if s.len() > 0 && s.last() == c {
        trim_end(s.drop_last(), c)
    } else {
        s
    }
}

/// The pieces set one after another with `sep` between neighbours.
pub open spec fn join(pieces: Seq<Seq<char>>, sep: Seq<char>) -> Seq<char>
    decreases pieces.len(),
{
    if pieces.len() == 0 {
        Seq::empty()
    } else if pieces.len() == 1 {
        pieces[0]
    } else {
        join(pieces.drop_last(), sep) + sep + pieces.last()
    }
}

/// The texts as a contract sees them, one for one.
pub open spec fn texts<'a>(pieces: Seq<&'a str>) -> Seq<Seq<char>> {
    Seq::new(pieces.len(), |i: int| pieces[i]@)
}

/// `stop` holds nowhere before `run` and, where `run` lies inside `s`, holds
/// at it.
pub proof fn lemma_run(s: Seq<char>, stop: Stop)
    ensures
        0 <= run(s, stop) <= s.len(),
        forall|i: int| 0 <= i < run(s, stop) ==> !stop.holds(#[trigger] s[i]),
        run(s, stop) < s.len() ==> stop.holds(s[run(s, stop) as int]),
    decreases s.len(),
{
    if s.len() != 0 && !stop.holds(s[0]) {
        let t = s.skip(1);
        lemma_run(t, stop);
        assert forall|i: int| 0 <= i < run(s, stop) implies !stop.holds(#[trigger] s[i]) by {
            if i > 0 {
                assert(s[i] == t[i - 1]);
            }
        }
        if run(s, stop) < s.len() {
            assert(s[run(s, stop) as int] == t[run(t, stop) as int]);
        }
    }
}

/// An index is `run` if `stop` holds nowhere before it and, where it lies
/// inside `s`, holds at it.
pub proof fn lemma_run_is(s: Seq<char>, stop: Stop, n: int)
    requires
        0 <= n <= s.len(),
        forall|i: int| 0 <= i < n ==> !stop.holds(#[trigger] s[i]),
        n < s.len() ==> stop.holds(s[n]),
    ensures
        run(s, stop) == n,
    decreases s.len(),
{
    if n > 0 {
        let t = s.skip(1);
        assert(!stop.holds(s[0]));
        assert forall|i: int| 0 <= i < n - 1 implies !stop.holds(#[trigger] t[i]) by {
            assert(t[i] == s[i + 1]);
        }
        lemma_run_is(t, stop, n - 1);
    }
}

/// A text in which `stop` holds nowhere is a single run.
pub proof fn lemma_run_all(s: Seq<char>, stop: Stop)
    requires
        forall|i: int| 0 <= i < s.len() ==> !stop.holds(#[trigger] s[i]),
    ensures
        run(s, stop) == s.len(),
{
    lemma_run_is(s, stop, s.len() as int);
}

/// A text without the separator is a single field.
pub proof fn lemma_fields_one(s: Seq<char>, sep: char)
    requires
        forall|i: int| 0 <= i < s.len() ==> #[trigger] s[i] != sep,
    ensures
        fields(s, sep) == seq![s],
{
    lemma_run_all(s, Stop::At(sep));
}

/// The first field ends at the first separator, and the fields of what
/// follows that separator come after it.
pub proof fn lemma_fields_first(a: Seq<char>, b: Seq<char>, sep: char)
    requires
        forall|i: int| 0 <= i < a.len() ==> #[trigger] a[i] != sep,
    ensures
        fields(a + seq![sep] + b, sep) == seq![a] + fields(b, sep),
{
    let s = a + seq![sep] + b;
    assert forall|i: int| 0 <= i < a.len() implies !Stop::At(sep).holds(#[trigger] s[i]) by {
        assert(s[i] == a[i]);
    }
    assert(s[a.len() as int] == sep);
    lemma_run_is(s, Stop::At(sep), a.len() as int);
    assert(s.take(a.len() as int) == a);
    assert(s.skip(a.len() as int + 1) == b);
}

/// A text of one or more characters, none of them whitespace, is a single
/// word.
pub proof fn lemma_words_one(s: Seq<char>)
    requires
        s.len() > 0,
        forall|i: int| 0 <= i < s.len() ==> !is_whitespace(#[trigger] s[i]),
    ensures
        words(s) == seq![s],
{
    lemma_run_is(s, Stop::NonSpace, 0);
    assert(s.skip(0) == s);
    lemma_run_all(s, Stop::Space);
    assert(s.take(s.len() as int) == s);
    let rest = s.skip(s.len() as int);
    assert(rest.len() == 0);
    assert(rest.skip(0) == rest);
    assert(words(rest) == Seq::<Seq<char>>::empty());
}

/// A first word ends at the first whitespace character, and the words of
/// what follows that character come after it.
pub proof fn lemma_words_first(a: Seq<char>, space: char, b: Seq<char>)
    requires
        a.len() > 0,
        forall|i: int| 0 <= i < a.len() ==> !is_whitespace(#[trigger] a[i]),
        is_whitespace(space),
    ensures
        words(a + seq![space] + b) == seq![a] + words(b),
{
    let s = a + seq![space] + b;
    let n = a.len() as int;
    assert(s[0] == a[0]);
    lemma_run_is(s, Stop::NonSpace, 0);
    assert(s.skip(0) == s);
    assert forall|i: int| 0 <= i < n implies !Stop::Space.holds(#[trigger] s[i]) by {
        assert(s[i] == a[i]);
    }
    assert(s[n] == space);
    lemma_run_is(s, Stop::Space, n);
    assert(s.take(n) == a);
    // What is left begins with the whitespace character, which the words of
    // it skip as they skip any whitespace before `b`.
    let t = s.skip(n);
    assert(t.skip(1) == b);
    assert(t[0] == space);
    lemma_run(b, Stop::NonSpace);
    assert(run(t, Stop::NonSpace) == 1 + run(b, Stop::NonSpace));
    assert(t.skip(1 + run(b, Stop::NonSpace) as int) == b.skip(run(b, Stop::NonSpace) as int));
    assert(words(t) == words(b));
}

/// `trim_end` leaves the longest prefix that does not end with `c`.
pub proof fn lemma_trim_end(s: Seq<char>, c: char, n: int)
    requires
        0 <= n <= s.len(),
        forall|i: int| n <= i < s.len() ==> s[i] == c,
        n > 0 ==> s[n - 1] != c,
    ensures
        trim_end(s, c) == s.take(n),
    decreases s.len(),
{
    if n == s.len() {
        assert(s.take(n) == s);
    } else {
        assert(s.drop_last().take(n) == s.take(n));
        lemma_trim_end(s.drop_last(), c, n);
    }
}

/// Executable form of [`is_whitespace`].
pub fn whitespace(c: char) -> (b: bool)
    ensures
        b == is_whitespace(c),
{
    let u: u32 = c as u32;
    (0x09 <= u && u <= 0x0d) || u == 0x20 || u == 0x85 || u == 0xa0 || u == 0x1680 || (0x2000 <= u
        && u <= 0x200a) || u == 0x2028 || u == 0x2029 || u == 0x202f || u == 0x205f || u == 0x3000
}

/// The characters of `text`, one by one.
pub fn chars_of(text: &str) -> (chars: Vec<char>)
    ensures
        chars@ == text@,
{
    let mut chars: Vec<char> = Vec::new();
    for c in it: text.chars()
        invariant
            it.seq() == text@,
            chars@ == text@.take(it.index() as int),
    {
        chars.push(c);
    }
    chars
}

/// Whether two texts hold the same characters.
pub fn same_text(a: &str, b: &str) -> (same: bool)
    ensures
        same == (a@ == b@),
{
    let x = a.as_bytes();
    let y = b.as_bytes();
    if x.len() != y.len() {
        return false;
    }
    let mut i: usize = 0;
    while i < x.len()
        invariant
            i <= x@.len() == y@.len(),
            x@ == a.spec_bytes(),
            y@ == b.spec_bytes(),
            forall|j: int| 0 <= j < i ==> x@[j] == y@[j],
        decreases x@.len() - i,
    {
        if x[i] != y[i] {
            return false;
        }
        i += 1;
    }
    proof {
        // Equal encodings decode to equal texts.
        assert(x@ =~= y@);
        vstd::utf8::encode_utf8_decode_utf8(a@);
        vstd::utf8::encode_utf8_decode_utf8(b@);
    }
    true
}

/// The index at which a scan of `chars` that starts at `from` halts.
pub fn scan(chars: &Vec<char>, from: usize, stop: Stop) -> (at: usize)
    requires
        from <= chars@.len(),
    ensures
        at == from + run(chars@.skip(from as int), stop),
        from <= at <= chars@.len(),
        forall|i: int| from <= i < at ==> !stop.holds(#[trigger] chars@[i]),
        at < chars@.len() ==> stop.holds(chars@[at as int]),
{
    let mut at: usize = from;
    while at < chars.len() && !stop.test(chars[at])
        invariant
            from <= at <= chars@.len(),
            forall|i: int| from <= i < at ==> !stop.holds(#[trigger] chars@[i]),
        decreases chars@.len() - at,
    {
        at += 1;
    }
    proof {
        let rest = chars@.skip(from as int);
        assert forall|i: int| 0 <= i < at - from implies !stop.holds(#[trigger] rest[i]) by {
            assert(rest[i] == chars@[from + i]);
        }
        lemma_run_is(rest, stop, at - from);
    }
    at
}

/// The part of `text` from character `from` up to character `to`.
pub fn slice<'a>(text: &'a str, from: usize, to: usize) -> (part: &'a str)
    requires
        from <= to <= text@.len(),
    ensures
        part@ == text@.subrange(from as int, to as int),
{
    text.substring_char(from, to)
}

/// Cuts `text` at each `sep`: the fields between the separators, in order.
pub fn split<'a>(text: &'a str, sep: char) -> (pieces: Vec<&'a str>)
    ensures
        texts(pieces@) == fields(text@, sep),
{
    let chars = chars_of(text);
    let mut pieces: Vec<&'a str> = Vec::new();
    let mut from: usize = 0;
    proof {
        assert(chars@.skip(0) == chars@);
        assert(texts(pieces@) == Seq::<Seq<char>>::empty());
    }
    loop
        invariant
            chars@ == text@,
            from <= chars@.len(),
            fields(chars@, sep) == texts(pieces@) + fields(chars@.skip(from as int), sep),
        decreases chars@.len() - from,
    {
        let end = scan(&chars, from, Stop::At(sep));
        let ghost before = pieces@;
        let ghost rest = chars@.skip(from as int);
        pieces.push(slice(text, from, end));
        proof {
            assert(rest.take(end - from) == chars@.subrange(from as int, end as int));
            assert(texts(pieces@) == texts(before) + seq![
                chars@.subrange(from as int, end as int),
            ]);
        }
        if end == chars.len() {
            proof {
                assert(rest.take(end - from) == rest);
            }
            return pieces;
        }
        proof {
            assert(rest.skip(end - from + 1) == chars@.skip(end + 1));
        }
        from = end + 1;
    }
}

/// Cuts `text` at whitespace: its words, in order.
pub fn split_whitespace<'a>(text: &'a str) -> (pieces: Vec<&'a str>)
    ensures
        texts(pieces@) == words(text@),
{
    let chars = chars_of(text);
    let mut pieces: Vec<&'a str> = Vec::new();
    let mut from: usize = 0;
    proof {
        assert(chars@.skip(0) == chars@);
        assert(texts(pieces@) == Seq::<Seq<char>>::empty());
    }
    loop
        invariant
            chars@ == text@,
            from <= chars@.len(),
            words(chars@) == texts(pieces@) + words(chars@.skip(from as int)),
        decreases chars@.len() - from,
    {
        let start = scan(&chars, from, Stop::NonSpace);
        if start == chars.len() {
            return pieces;
        }
        let end = scan(&chars, start, Stop::Space);
        let ghost before = pieces@;
        let ghost rest = chars@.skip(from as int).skip(start - from);
        proof {
            assert(rest == chars@.skip(start as int));
            assert(rest[0] == chars@[start as int]);
            assert(rest.take(end - start) == chars@.subrange(start as int, end as int));
            assert(rest.skip(end - start) == chars@.skip(end as int));
        }
        pieces.push(slice(text, start, end));
        proof {
            assert(texts(pieces@) == texts(before) + seq![
                chars@.subrange(start as int, end as int),
            ]);
        }
        from = end;
    }
}

/// Whether `text` begins with the character `c`.
pub fn starts_with(text: &str, c: char) -> (b: bool)
    ensures
        b == (text@.len() > 0 && text@[0] == c),
{
    !text.is_empty() && text.get_char(0) == c
}

} // verus!
