use vstd::prelude::*;

verus! {

/// The position of the first `sep` in `s`, or `s.len()` when there is none.
pub open spec fn first_index(s: Seq<char>, sep: char) -> int
    decreases s.len(),
{
    if s.len() == 0 || s[0] == sep {
        0
    } else {
        1 + first_index(s.drop_first(), sep)
    }
}

/// The pieces of `s` that lie between occurrences of `sep`, in order.
/// There is always at least one piece; empty pieces are kept.
pub open spec fn split_on(s: Seq<char>, sep: char) -> Seq<Seq<char>>
    decreases s.len(),
{
    let i = first_index(s, sep);
    if 0 <= i < s.len() {
        seq![s.subrange(0, i)] + split_on(s.subrange(i + 1, s.len() as int), sep)
    } else {
        seq![s]
    }
}

/// `first_index` is the least position that holds `sep`.
pub proof fn lemma_first_index(s: Seq<char>, sep: char)
    ensures
        0 <= first_index(s, sep) <= s.len(),
        forall|k: int| 0 <= k < first_index(s, sep) ==> s[k] != sep,
        first_index(s, sep) < s.len() ==> s[first_index(s, sep)] == sep,
    decreases s.len(),
{
    if s.len() == 0 || s[0] == sep {
    } else {
        let t = s.drop_first();
        lemma_first_index(t, sep);
        assert forall|k: int| 0 <= k < first_index(s, sep) implies s[k] != sep by {
            if k > 0 {
                assert(s[k] == t[k - 1]);
            }
        }
    }
}

/// A position that holds `sep` and has none before it is the first index.
pub proof fn lemma_first_index_is(s: Seq<char>, sep: char, j: int)
    requires
        0 <= j <= s.len(),
        forall|k: int| 0 <= k < j ==> s[k] != sep,
        j < s.len() ==> s[j] == sep,
    ensures
        first_index(s, sep) == j,
{
    lemma_first_index(s, sep);
}

/// The pieces `pieces` written one after the other with `sep` between them.
pub open spec fn join(pieces: Seq<Seq<char>>, sep: char) -> Seq<char>
    decreases pieces.len(),
{
    if pieces.len() == 0 {
        Seq::empty()
    } else if pieces.len() == 1 {
        pieces[0]
    } else {
        pieces[0] + seq![sep] + join(pieces.drop_first(), sep)
    }
}

/// Splitting loses nothing: no piece holds the separator, and the pieces
/// joined by the separator give the string back.
pub proof fn lemma_split_on_inverts_join(s: Seq<char>, sep: char)
    ensures
        forall|p: int, k: int|
            0 <= p < split_on(s, sep).len() && 0 <= k < split_on(s, sep)[p].len() ==> split_on(
                s,
                sep,
            )[p][k] != sep,
        join(split_on(s, sep), sep) == s,
    decreases s.len(),
{
    lemma_first_index(s, sep);
    let i = first_index(s, sep);
    if 0 <= i < s.len() {
        let head = s.subrange(0, i);
        let rest = s.subrange(i + 1, s.len() as int);
        lemma_split_on_inverts_join(rest, sep);
        lemma_split_on_len(rest, sep);
        let pieces = split_on(s, sep);
        assert(pieces.drop_first() == split_on(rest, sep));
        assert(pieces[0] == head);
        assert(head + seq![sep] + rest == s);
        assert forall|p: int, k: int|
            0 <= p < pieces.len() && 0 <= k < pieces[p].len() implies pieces[p][k] != sep by {
            if p > 0 {
                assert(pieces[p] == split_on(rest, sep)[p - 1]);
            }
        }
    }
}

/// A string always splits into at least one piece.
pub proof fn lemma_split_on_len(s: Seq<char>, sep: char)
    ensures
        split_on(s, sep).len() >= 1,
    decreases s.len(),
{
    let i = first_index(s, sep);
    if 0 <= i < s.len() {
        lemma_split_on_len(s.subrange(i + 1, s.len() as int), sep);
    }
}

/// Splits `s` at every `sep`.
pub fn split(s: &str, sep: char) -> (out: Vec<String>)
    ensures
        out.deep_view() == split_on(s@, sep),
{
    let n = s.unicode_len();
    let mut out: Vec<String> = Vec::new();
    let mut start: usize = 0;
    let mut i: usize = 0;
    proof {
        assert(s@.subrange(0, n as int) == s@);
        assert(out.deep_view() == Seq::<Seq<char>>::empty());
        assert(Seq::<Seq<char>>::empty() + split_on(s@, sep) == split_on(s@, sep));
    }
    while i < n
        invariant
            n == s@.len(),
            start <= i <= n,
            forall|k: int| start <= k < i ==> s@[k] != sep,
            split_on(s@, sep) == out.deep_view() + split_on(s@.subrange(start as int, n as int), sep),
        decreases n - i,
    {
        if s.get_char(i) == sep {
            let piece = s.substring_char(start, i).to_owned();
            proof {
                let rest = s@.subrange(start as int, n as int);
                lemma_first_index_is(rest, sep, i - start);
                assert(rest.subrange(0, i - start) == s@.subrange(start as int, i as int));
                assert(rest.subrange(i - start + 1, rest.len() as int) == s@.subrange(i + 1, n as int));
                assert(out.deep_view().push(piece@) == out.deep_view() + seq![piece@]);
            }
            let ghost before = out.deep_view();
            out.push(piece);
            assert(out.deep_view() == before.push(piece@));
            start = i + 1;
        }
        i += 1;
    }
    let piece = s.substring_char(start, n).to_owned();
    proof {
        let rest = s@.subrange(start as int, n as int);
        lemma_first_index_is(rest, sep, n - start);
        assert(rest == piece@);
    }
    let ghost before = out.deep_view();
    out.push(piece);
    assert(out.deep_view() == before.push(piece@));
    out
}

/// Whether `c` has the Unicode property `White_Space`.
pub open spec fn is_whitespace(c: char) -> bool {
    let u = c as u32;
    ||| 0x09 <= u <= 0x0d
    ||| u == 0x20
    ||| u == 0x85
    ||| u == 0xa0
    ||| u == 0x1680
    ||| 0x2000 <= u <= 0x200a
    ||| u == 0x2028
    ||| u == 0x2029
    ||| u == 0x202f
    ||| u == 0x205f
    ||| u == 0x3000
}

/// `s` without its leading whitespace.
pub open spec fn trimmed_start(s: Seq<char>) -> Seq<char>
    decreases s.len(),
{
    if s.len() > 0 && is_whitespace(s[0]) {
        trimmed_start(s.drop_first())
    } else {
        s
    }
}

/// `s` without its trailing whitespace.
pub open spec fn trimmed_end(s: Seq<char>) -> Seq<char>
    decreases s.len(),
{
    if s.len() > 0 && is_whitespace(s.last()) {
        trimmed_end(s.drop_last())
    } else {
        s
    }
}

/// `s` without its leading and trailing whitespace.
pub open spec fn trimmed(s: Seq<char>) -> Seq<char> {
    trimmed_end(trimmed_start(s))
}

/// Removes leading and trailing whitespace. Calls `str::trim`, which the
/// standard library documents as removing leading and trailing characters
/// that have the Unicode property `White_Space`.
#[verifier::external_body]
pub(crate) fn trim(s: &str) -> (t: &str)
    ensures
        t@ == trimmed(s@),
{
    s.trim()
}

/// Whether every character of `s` is an ASCII decimal digit.
pub open spec fn all_digits(s: Seq<char>) -> bool {
    forall|i: int| 0 <= i < s.len() ==> '0' <= #[trigger] s[i] <= '9'
}

/// The number that the decimal digits `s` write.
pub open spec fn digits_value(s: Seq<char>) -> nat
    decreases s.len(),
{
    if s.len() == 0 {
        0
    } else {
        (digits_value(s.drop_last()) * 10 + (s.last() as u32 - '0' as u32)) as nat
    }
}

/// The number that `s` writes in decimal, if it writes one: an optional `+`,
/// then one or more digits and nothing else.
pub open spec fn decimal(s: Seq<char>) -> Option<nat> {
    let body = if s.len() > 0 && s[0] == '+' {
        s.drop_first()
    } else {
        s
    };
    if body.len() > 0 && all_digits(body) {
        Some(digits_value(body))
    } else {
        None
    }
}

/// Whether `s` writes a number that a `usize` can hold.
pub open spec fn parses_as_usize(s: Seq<char>) -> bool {
    decimal(s) matches Some(n) && n <= usize::MAX
}

/// The error that reading `s` as a `usize` fails with, where it fails.
pub uninterp spec fn usize_parse_error(s: Seq<char>) -> core::num::ParseIntError;

/// Reads a `usize` written in decimal. Calls `str::parse::<usize>`, which the
/// standard library documents as accepting an optional `+` sign followed by
/// decimal digits only, and as failing on the empty string, on any other
/// character and on a number too large for the type. The error of a failure
/// is only given its name.
#[verifier::external_body]
pub(crate) fn parse_usize(s: &str) -> (r: Result<usize, core::num::ParseIntError>)
    ensures
        r is Ok <==> parses_as_usize(s@),
        r matches Ok(n) ==> decimal(s@) == Some(n as nat),
        r matches Err(e) ==> e == usize_parse_error(s@),
{
    s.parse::<usize>()
}

} // verus!
