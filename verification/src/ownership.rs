//! Borrowing lessons: reading through a shared borrow, growing through a
//! mutable one, and slicing out the first word of a sentence.

use vstd::prelude::*;
use vstd::string::*;

verus! {

/// The index of the first space character, or the length when there is none.
pub open spec fn first_space(s: Seq<char>) -> int
    decreases s.len(),
{
    if s.len() == 0 {
        0
    } else if s[0] == ' ' {
        0
    } else {
        1 + first_space(s.drop_first())
    }
}

/// `first_space` points at the first space: nothing before it is a space,
/// and it is a space itself unless the text has none at all.
pub proof fn lemma_first_space(s: Seq<char>)
    ensures
        0 <= first_space(s) <= s.len(),
        forall|j: int| 0 <= j < first_space(s) ==> s[j] != ' ',
        first_space(s) < s.len() ==> s[first_space(s)] == ' ',
    decreases s.len(),
{
    if s.len() > 0 && s[0] != ' ' {
        lemma_first_space(s.drop_first());
        assert forall|j: int| 0 <= j < first_space(s) implies s[j] != ' ' by {
            if j > 0 {
                assert(s.drop_first()[j - 1] == s[j]);
            }
        }
    }
}

/// Everything up to (not including) the first space; the whole text
/// when it has no space.
pub fn first_word(s: &str) -> (r: &str)
    ensures
        r@ == s@.subrange(0, first_space(s@)),
{
    proof {
        lemma_first_space(s@);
    }
    let n = s.unicode_len();
    let mut i: usize = 0;
    while i < n
        invariant
            0 <= i <= n,
            n == s@.len(),
            forall|j: int| 0 <= j < i ==> s@[j] != ' ',
        decreases n - i,
    {
        if s.get_char(i) == ' ' {
            proof {
                lemma_first_space_found(s@, i as int);
            }
            return s.substring_char(0, i);
        }
        i = i + 1;
    }
    proof {
        lemma_first_space_found(s@, n as int);
        assert(s@.subrange(0, s@.len() as int) =~= s@);
    }
    s.substring_char(0, n)
}

/// If nothing before `i` is a space, and `i` is a space or the end,
/// then `i` is where `first_space` points.
proof fn lemma_first_space_found(s: Seq<char>, i: int)
    requires
        0 <= i <= s.len(),
        forall|j: int| 0 <= j < i ==> s[j] != ' ',
        i < s.len() ==> s[i] == ' ',
    ensures
        first_space(s) == i,
    decreases i,
{
    if i > 0 {
        assert(s[0] != ' ');
        assert forall|j: int| 0 <= j < i - 1 implies s.drop_first()[j] != ' ' by {
            assert(s.drop_first()[j] == s[j + 1]);
        }
        assert(i - 1 < s.drop_first().len() ==> s.drop_first()[i - 1] == s[i]);
        lemma_first_space_found(s.drop_first(), i - 1);
    } else {
        if s.len() > 0 {
            assert(s[0] == ' ');
        }
    }
}

/// The length of the text in bytes, read through a shared borrow.
pub fn calculate_length(s: &String) -> (l: usize)
    ensures
        l == vstd::utf8::encode_utf8(s@).len() as usize,
{
    s.as_str().len()
}

/// Appends ",world" through a mutable borrow.
pub fn change(s: &mut String)
    ensures
        final(s)@ == old(s)@ + ",world"@,
{
    s.append(",world");
}

/// Hands ownership of a fresh string to the caller.
pub fn dangle() -> (s: String)
    ensures
        s@ == "hello"@,
{
    let s = String::from_str("hello");
    s
}

} // verus!
