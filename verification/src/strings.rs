//! Pig latin: a word that starts with a vowel gets "-hay" appended; any
//! other word moves its first letter to the end, behind a dash, with "ay".

use vstd::prelude::*;
use vstd::string::*;

verus! {

/// The five vowels that keep a word unchanged up front.
pub open spec fn is_vowel(c: char) -> bool {
    c == 'a' || c == 'e' || c == 'i' || c == 'o' || c == 'u'
}

/// The pig-latin form of a non-empty word.
pub open spec fn pig_latin(s: Seq<char>) -> Seq<char>
    recommends
        s.len() > 0,
{
    if is_vowel(s[0]) {
        s + "-hay"@
    } else {
        s.drop_first() + "-"@ + seq![s[0]] + "ay"@
    }
}

/// Turns a word into its pig-latin form. The word must not be empty and
/// must start with a one-byte character: the first letter is cut off as a
/// one-byte slice, which has no meaning for a wider character.
pub fn change(str: String) -> (r: String)
    requires
        str@.len() > 0,
        (str@[0] as u32) < 128,
    ensures
        r@ == pig_latin(str@),
{
    let n = str.as_str().unicode_len();
    let first = str.as_str().get_char(0);
    if first == 'a' || first == 'e' || first == 'i' || first == 'o' || first == 'u' {
        return str.concat("-hay");
    }
    let firstletter = str.as_str().substring_char(0, 1);
    let otherletter = str.as_str().substring_char(1, n);
    let mut r = String::from_str(otherletter);
    r.append("-");
    r.append(firstletter);
    r.append("ay");
    proof {
        assert(firstletter@ =~= seq![str@[0]]);
        assert(otherletter@ =~= str@.drop_first());
    }
    r
}

} // verus!
