//! Text values and region extraction: the operations the scenarios
//! demonstrate on owned, growable strings and on borrowed views of them.

use vstd::prelude::*;
use vstd::string::StrSliceExecFns;
use vstd::string::StringExecFns;

verus! {

/// Index of the first space in `s`, or `s.len()` when `s` has none.
pub open spec fn first_space_or_len(s: Seq<char>) -> int
    decreases s.len(),
{
    if s.len() == 0 {
        0
    } else if s[0] == ' ' {
        0
    } else {
        1 + first_space_or_len(s.drop_first())
    }
}

/// The prefix of `s` before its first space: the whole of `s` when it has
/// none.
pub open spec fn first_word_spec(s: Seq<char>) -> Seq<char> {
    s.subrange(0, first_space_or_len(s))
}

/// `first_space_or_len` really is the index of the first space: everything
/// before it is not a space, and the character there (when inside the text)
/// is one.
pub proof fn lemma_first_space_or_len(s: Seq<char>)
    ensures
        0 <= first_space_or_len(s) <= s.len(),
        forall|j: int| 0 <= j < first_space_or_len(s) ==> s[j] != ' ',
        first_space_or_len(s) < s.len() ==> s[first_space_or_len(s)] == ' ',
    decreases s.len(),
{
    if s.len() == 0 {
    } else if s[0] == ' ' {
    } else {
        lemma_first_space_or_len(s.drop_first());
        assert forall|j: int| 0 <= j < first_space_or_len(s) implies s[j] != ' ' by {
            if j >= 1 {
                assert(s[j] == s.drop_first()[j - 1]);
            }
        }
        if first_space_or_len(s) < s.len() {
            assert(s[first_space_or_len(s)] == s.drop_first()[first_space_or_len(s) - 1]);
        }
    }
}

/// Takes ownership of a text value and hands the very same value back.
pub fn takes_and_gives_back(value: String) -> (r: String)
    ensures
        r == value,
{
    value
}

/// The length of a borrowed text value, in characters.
pub fn calculate_length(s: &String) -> (len: usize)
    ensures
        len as nat == s@.len(),
{
    s.as_str().unicode_len()
}

/// Appends `", world"` through an exclusive borrow.
pub fn change(s: &mut String)
    ensures
        final(s)@ == old(s)@ + ", world"@,
{
    s.append(", world");
}

/// Returns a freshly owned `"hello"`; ownership moves to the caller, so no
/// dangling borrow is ever created.
pub fn no_dangle() -> (s: String)
    ensures
        s@ == "hello"@,
{
    String::from_str("hello")
}

/// A borrowed view of the sub-region of `s` from `from` (inclusive) to `to`
/// (exclusive), counted in characters.
pub fn extract_region<'a>(s: &'a str, from: usize, to: usize) -> (r: &'a str)
    requires
        from <= to <= s@.len(),
    ensures
        r@ == s@.subrange(from as int, to as int),
{
    s.substring_char(from, to)
}

/// The region of `s` before its first space, or all of `s` when it has no
/// space.
pub fn first_word<'a>(s: &'a str) -> (r: &'a str)
    ensures
        r@ == first_word_spec(s@),
{
    let n = s.unicode_len();
    let mut i: usize = 0;
    while i < n
        invariant
            n as nat == s@.len(),
            i <= n,
            forall|j: int| 0 <= j < i ==> s@[j] != ' ',
        decreases n - i,
    {
        if s.get_char(i) == ' ' {
            proof {
                lemma_first_space_or_len(s@);
                if first_space_or_len(s@) < i {
                    assert(s@[first_space_or_len(s@)] != ' ');
                }
                if first_space_or_len(s@) > i {
                    assert(s@[i as int] != ' ');
                }
            }
            return s.substring_char(0, i);
        }
        i += 1;
    }
    proof {
        lemma_first_space_or_len(s@);
        if first_space_or_len(s@) < s@.len() {
            assert(s@[first_space_or_len(s@)] != ' ');
        }
        assert(s@.subrange(0, s@.len() as int) =~= s@);
    }
    s
}

} // verus!
