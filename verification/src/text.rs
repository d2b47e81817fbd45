//! Text helpers shared by the parsers: decimal rendering, prefixes and
//! splitting on a separator character.

use vstd::prelude::*;
use vstd::std_specs::iter::IteratorSpec;
use vstd::string::*;

verus! {

/// The character that writes the digit `d`, for `d` below ten.
pub open spec fn digit_char(d: nat) -> char {
    seq!['0', '1', '2', '3', '4', '5', '6', '7', '8', '9'][d as int]
}

/// The decimal spelling of `n`, without leading zeros.
pub open spec fn decimal(n: nat) -> Seq<char>
    decreases n,
{
    if n < 10 {
        seq![digit_char(n)]
    } else {
        decimal(n / 10).push(digit_char(n % 10))
    }
}

fn digit_str(d: u16) -> (s: &'static str)
    requires
        d < 10,
    ensures
        s@ == seq![digit_char(d as nat)],
{
    proof {
        reveal_strlit("0");
        reveal_strlit("1");
        reveal_strlit("2");
        reveal_strlit("3");
        reveal_strlit("4");
        reveal_strlit("5");
        reveal_strlit("6");
        reveal_strlit("7");
        reveal_strlit("8");
        reveal_strlit("9");
    }
    let s = if d == 0 {
        "0"
    } else if d == 1 {
        "1"
    } else if d == 2 {
        "2"
    } else if d == 3 {
        "3"
    } else if d == 4 {
        "4"
    } else if d == 5 {
        "5"
    } else if d == 6 {
        "6"
    } else if d == 7 {
        "7"
    } else if d == 8 {
        "8"
    } else {
        "9"
    };
    assert(s@ =~= seq![digit_char(d as nat)]);
    s
}

/// Renders `n` in decimal.
pub fn decimal_string(n: u16) -> (s: String)
    ensures
        s@ == decimal(n as nat),
    decreases n,
{
    if n < 10 {
        String::from_str(digit_str(n))
    } else {
        let mut s = decimal_string(n / 10);
        s.append(digit_str(n % 10));
        assert(s@ =~= decimal(n as nat));
        s
    }
}

/// Tells whether `text` starts with `prefix`.
pub fn has_prefix(text: &str, prefix: &str) -> (b: bool)
    ensures
        b == prefix@.is_prefix_of(text@),
{
    let mut of_text = text.chars();
    let mut of_prefix = prefix.chars();
    let ghost mut i: int = 0;
    loop
        invariant
            0 <= i <= prefix@.len(),
            i <= text@.len(),
            of_text.remaining() == text@.skip(i),
            of_prefix.remaining() == prefix@.skip(i),
            forall|j: int| 0 <= j < i ==> text@[j] == prefix@[j],
        decreases prefix@.len() - i,
    {
        match of_prefix.next() {
            None => {
                assert(prefix@.skip(i).len() == 0);
                assert(prefix@ =~= text@.subrange(0, prefix@.len() as int));
                return true;
            },
            Some(wanted) => {
                assert(wanted == prefix@[i]);
                match of_text.next() {
                    None => {
                        assert(text@.skip(i).len() == 0);
                        return false;
                    },
                    Some(found) => {
                        assert(found == text@[i]);
                        if found != wanted {
                            proof {
                                if prefix@.len() <= text@.len() {
                                    assert(text@.subrange(0, prefix@.len() as int)[i] == text@[i]);
                                }
                            }
                            return false;
                        }
                        proof {
                            i = i + 1;
                        }
                    },
                }
            },
        }
    }
}

/// The views of a sequence of strings, in order.
pub open spec fn views(strings: Seq<String>) -> Seq<Seq<char>> {
    strings.map_values(|s: String| s@)
}

/// The position of the first `sep` in `s`, or the length of `s` where it
/// holds none.
pub open spec fn first_index(s: Seq<char>, sep: char) -> int
    decreases s.len(),
{
    if s.len() == 0 || s[0] == sep {
        0
    } else {
        1 + first_index(s.skip(1), sep)
    }
}

/// The pieces of `s` between the occurrences of `sep`, in order. A text
/// with `k` separators has `k + 1` pieces; a piece may be empty.
pub open spec fn split(s: Seq<char>, sep: char) -> Seq<Seq<char>>
    decreases s.len(),
{
    let i = first_index(s, sep);
    if 0 <= i < s.len() {
        seq![s.take(i)] + split(s.skip(i + 1), sep)
    } else {
        seq![s]
    }
}

/// `first_index` is the only position that holds `sep` with none before it.
pub proof fn lemma_first_index(s: Seq<char>, sep: char, k: int)
    requires
        0 <= k <= s.len(),
        forall|j: int| 0 <= j < k ==> s[j] != sep,
        k < s.len() ==> s[k] == sep,
    ensures
        first_index(s, sep) == k,
    decreases s.len(),
{
    if k > 0 {
        let rest = s.skip(1);
        assert forall|j: int| 0 <= j < k - 1 implies rest[j] != sep by {
            assert(rest[j] == s[j + 1]);
        }
        lemma_first_index(rest, sep, k - 1);
    }
}

/// A text without the separator is its own single piece.
pub proof fn lemma_split_whole(s: Seq<char>, sep: char)
    requires
        !s.contains(sep),
    ensures
        split(s, sep) == seq![s],
{
    assert forall|j: int| 0 <= j < s.len() implies s[j] != sep by {
        assert(s.contains(s[j]));
    }
    lemma_first_index(s, sep, s.len() as int);
}

/// Where `head` holds no separator, the pieces of `head`, a separator and
/// `rest` are `head` and then the pieces of `rest`.
pub proof fn lemma_split_head(head: Seq<char>, rest: Seq<char>, sep: char)
    requires
        !head.contains(sep),
    ensures
        split(head + seq![sep] + rest, sep) == seq![head] + split(rest, sep),
{
    let s = head + seq![sep] + rest;
    let k = head.len() as int;
    assert forall|j: int| 0 <= j < k implies s[j] != sep by {
        assert(s[j] == head[j]);
        assert(head.contains(head[j]));
    }
    assert(s[k] == sep);
    lemma_first_index(s, sep, k);
    assert(s.take(k) =~= head);
    assert(s.skip(k + 1) =~= rest);
}

/// Splits `s` at every occurrence of `sep`.
pub fn split_text(s: &str, sep: char) -> (parts: Vec<String>)
    ensures
        views(parts@) == split(s@, sep),
{
    let n = s.unicode_len();
    let mut parts: Vec<String> = Vec::new();
    let mut start: usize = 0;
    let mut i: usize = 0;
    let mut it = s.chars();
    assert(split(s@, sep) =~= views(parts@) + split(s@.skip(0), sep)) by {
        assert(s@.skip(0) =~= s@);
    }
    loop
        invariant
            n == s@.len(),
            start <= i <= n,
            it.remaining() == s@.skip(i as int),
            forall|j: int| start <= j < i ==> s@[j] != sep,
            split(s@, sep) == views(parts@) + split(s@.skip(start as int), sep),
        ensures
            i == n,
        decreases n - i,
    {
        match it.next() {
            Some(c) => {
                assert(c == s@[i as int]);
                if c == sep {
                    let piece = s.substring_char(start, i).to_owned();
                    proof {
                        let rest = s@.skip(start as int);
                        assert forall|j: int| 0 <= j < i - start implies rest[j] != sep by {
                            assert(rest[j] == s@[start + j]);
                        }
                        lemma_first_index(rest, sep, i - start);
                        assert(rest.take(i - start) =~= s@.subrange(start as int, i as int));
                        assert(rest.skip(i - start + 1) =~= s@.skip(i + 1));
                        assert(views(parts@.push(piece)) =~= views(parts@).push(piece@));
                    }
                    parts.push(piece);
                    start = i + 1;
                }
                i = i + 1;
            },
            None => {
                assert(s@.skip(i as int).len() == 0);
                break ;
            },
        }
    }
    let piece = s.substring_char(start, i).to_owned();
    proof {
        let rest = s@.skip(start as int);
        assert forall|j: int| 0 <= j < n - start implies rest[j] != sep by {
            assert(rest[j] == s@[start + j]);
        }
        lemma_first_index(rest, sep, n - start);
        assert(rest =~= s@.subrange(start as int, n as int));
        assert(views(parts@.push(piece)) =~= views(parts@).push(piece@));
    }
    parts.push(piece);
    parts
}

} // verus!
