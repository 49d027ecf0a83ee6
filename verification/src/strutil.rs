//! Verified string utilities: splitting a stream into lines, building
//! RFC 6901 pointer tokens, substring search, and quote trimming.

use vstd::prelude::*;

verus! {

broadcast use vstd::string::group_string_axioms;

/// Relies on String::push: appends exactly the one character.
#[verifier::external_body]
pub(crate) fn push_char(s: &mut String, c: char)
    ensures
        final(s)@ == old(s)@.push(c),
{
    s.push(c);
}

/// The decimal digit character for a value below ten.
pub open spec fn digit_char(d: nat) -> char {
    if d == 0 {
        '0'
    } else if d == 1 {
        '1'
    } else if d == 2 {
        '2'
    } else if d == 3 {
        '3'
    } else if d == 4 {
        '4'
    } else if d == 5 {
        '5'
    } else if d == 6 {
        '6'
    } else if d == 7 {
        '7'
    } else if d == 8 {
        '8'
    } else {
        '9'
    }
}

/// The decimal representation of a natural number, most significant digit
/// first.
pub open spec fn spec_decimal(n: nat) -> Seq<char>
    decreases n,
{
    if n < 10 {
        seq![digit_char(n)]
    } else {
        spec_decimal(n / 10).push(digit_char(n % 10))
    }
}

fn digit_to_char(d: usize) -> (c: char)
    requires
        d < 10,
    ensures
        c == digit_char(d as nat),
{
    if d == 0 {
        '0'
    } else if d == 1 {
        '1'
    } else if d == 2 {
        '2'
    } else if d == 3 {
        '3'
    } else if d == 4 {
        '4'
    } else if d == 5 {
        '5'
    } else if d == 6 {
        '6'
    } else if d == 7 {
        '7'
    } else if d == 8 {
        '8'
    } else {
        '9'
    }
}

/// Writes a number in decimal, for array indices inside JSON pointers.
pub fn format_usize(n: usize) -> (r: String)
    ensures
        r@ == spec_decimal(n as nat),
    decreases n,
{
    if n < 10 {
        let mut s = String::new();
        push_char(&mut s, digit_to_char(n));
        s
    } else {
        let mut s = format_usize(n / 10);
        push_char(&mut s, digit_to_char(n % 10));
        s
    }
}

/// A string escaped for use as one RFC 6901 reference token: `~` becomes
/// `~0` and `/` becomes `~1`.
pub open spec fn spec_escape_token(s: Seq<char>) -> Seq<char>
    decreases s.len(),
{
    if s.len() == 0 {
        Seq::empty()
    } else {
        let head = if s[0] == '~' {
            seq!['~', '0']
        } else if s[0] == '/' {
            seq!['~', '1']
        } else {
            seq![s[0]]
        };
        head + spec_escape_token(s.skip(1))
    }
}

/// Escapes a map key so that it can stand as one token of a JSON pointer.
pub fn escape_token(s: &str) -> (r: String)
    ensures
        r@ == spec_escape_token(s@),
{
    let n = s.unicode_len();
    let mut r = String::new();
    let mut i: usize = 0;
    proof {
        assert(s@.skip(0) =~= s@);
        assert(r@ + spec_escape_token(s@) =~= spec_escape_token(s@));
    }
    while i < n
        invariant
            i <= n,
            n == s@.len(),
            spec_escape_token(s@) == r@ + spec_escape_token(s@.skip(i as int)),
        decreases n - i,
    {
        let c = s.get_char(i);
        let ghost prev = r@;
        if c == '~' {
            push_char(&mut r, '~');
            push_char(&mut r, '0');
            assert(r@ == prev + seq!['~', '0']);
        } else if c == '/' {
            push_char(&mut r, '~');
            push_char(&mut r, '1');
            assert(r@ == prev + seq!['~', '1']);
        } else {
            push_char(&mut r, c);
            assert(r@ == prev + seq![c]);
        }
        proof {
            let rest = s@.skip(i as int);
            assert(rest[0] == s@[i as int]);
            assert(rest.skip(1) =~= s@.skip(i as int + 1));
            assert(spec_escape_token(s@) == r@ + spec_escape_token(s@.skip(i as int + 1)));
        }
        i = i + 1;
    }
    proof {
        assert(s@.skip(n as int) =~= Seq::<char>::empty());
        assert(spec_escape_token(Seq::<char>::empty()) == Seq::<char>::empty());
        assert(spec_escape_token(s@) == r@ + Seq::<char>::empty());
        assert(r@ + Seq::<char>::empty() =~= r@);
    }
    r
}

/// The position of the first line break in `s`, or `s.len()` if there is
/// none.
pub open spec fn first_newline(s: Seq<char>) -> int
    decreases s.len(),
{
    if s.len() == 0 {
        0
    } else if s[0] == '\n' {
        0
    } else {
        1 + first_newline(s.skip(1))
    }
}

pub proof fn lemma_first_newline(s: Seq<char>)
    ensures
        0 <= first_newline(s) <= s.len(),
        first_newline(s) < s.len() ==> s[first_newline(s)] == '\n',
        forall|j: int| 0 <= j < first_newline(s) ==> s[j] != '\n',
    decreases s.len(),
{
    if s.len() == 0 {
    } else if s[0] == '\n' {
    } else {
        lemma_first_newline(s.skip(1));
        assert forall|j: int| 0 <= j < first_newline(s) implies s[j] != '\n' by {
            if j > 0 {
                assert(s.skip(1)[j - 1] == s[j]);
            }
        }
    }
}

/// A position with a break at it and none before it is the first one; a
/// stream without a break has its first one at the end.
pub proof fn lemma_first_newline_at(s: Seq<char>, k: int)
    requires
        0 <= k <= s.len(),
        forall|j: int| 0 <= j < k ==> s[j] != '\n',
        k < s.len() ==> s[k] == '\n',
    ensures
        k < s.len() ==> first_newline(s) == k,
        k == s.len() ==> first_newline(s) == s.len(),
    decreases s.len(),
{
    lemma_first_newline(s);
    if k < s.len() {
        if first_newline(s) < k {
        } else if first_newline(s) > k {
        }
    } else {
        if first_newline(s) < s.len() {
        }
    }
}

/// The lines of `s`: the segments between line breaks, in order. A break at
/// the very end still yields a final empty line, as splitting does.
pub open spec fn spec_split_lines(s: Seq<char>) -> Seq<Seq<char>>
    decreases s.len(),
    via spec_split_lines_decreases
{
    let k = first_newline(s);
    if k >= s.len() {
        seq![s]
    } else {
        seq![s.take(k)] + spec_split_lines(s.skip(k + 1))
    }
}

#[via_fn]
proof fn spec_split_lines_decreases(s: Seq<char>) {
    lemma_first_newline(s);
}

/// Splits a stream into its lines.
pub fn split_lines(s: &str) -> (lines: Vec<String>)
    ensures
        lines@.map_values(|l: String| l@) == spec_split_lines(s@),
{
    let n = s.unicode_len();
    let mut lines: Vec<String> = Vec::new();
    let mut start: usize = 0;
    let mut i: usize = 0;
    proof {
        assert(s@.skip(0) =~= s@);
        assert(lines@.map_values(|l: String| l@) =~= Seq::<Seq<char>>::empty());
        assert(Seq::<Seq<char>>::empty() + spec_split_lines(s@) =~= spec_split_lines(s@));
    }
    while i < n
        invariant
            start <= i <= n,
            n == s@.len(),
            forall|j: int| start <= j < i ==> s@[j] != '\n',
            spec_split_lines(s@) == lines@.map_values(|l: String| l@) + spec_split_lines(
                s@.skip(start as int),
            ),
        decreases n - i,
    {
        let c = s.get_char(i);
        if c == '\n' {
            let line = String::from_str(s.substring_char(start, i));
            proof {
                let rest = s@.skip(start as int);
                assert forall|j: int| 0 <= j < i - start implies rest[j] != '\n' by {
                    assert(rest[j] == s@[start + j]);
                }
                assert(rest[i - start] == s@[i as int]);
                lemma_first_newline_at(rest, i - start);
                assert(rest.take(i - start) =~= s@.subrange(start as int, i as int));
                assert(rest.skip(i - start + 1) =~= s@.skip(i as int + 1));
                assert(spec_split_lines(rest) == seq![s@.subrange(start as int, i as int)]
                    + spec_split_lines(s@.skip(i as int + 1)));
                let prev = lines@.map_values(|l: String| l@);
                assert((lines@.push(line)).map_values(|l: String| l@) =~= prev.push(line@));
                assert(prev + (seq![line@] + spec_split_lines(s@.skip(i as int + 1)))
                    =~= prev.push(line@) + spec_split_lines(s@.skip(i as int + 1)));
            }
            lines.push(line);
            start = i + 1;
        }
        i = i + 1;
    }
    let line = String::from_str(s.substring_char(start, n));
    proof {
        let rest = s@.skip(start as int);
        assert forall|j: int| 0 <= j < rest.len() implies rest[j] != '\n' by {
            assert(rest[j] == s@[start + j]);
        }
        lemma_first_newline_at(rest, rest.len() as int);
        assert(rest =~= s@.subrange(start as int, n as int));
        assert(spec_split_lines(rest) == seq![rest]);
        let prev = lines@.map_values(|l: String| l@);
        assert((lines@.push(line)).map_values(|l: String| l@) =~= prev.push(line@));
        assert(prev + seq![rest] =~= prev.push(line@));
    }
    lines.push(line);
    lines
}

} // verus!
