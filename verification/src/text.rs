use vstd::prelude::*;
use vstd::string::StringExecFns;

verus! {

/// True exactly when the characters of `s` are those of `w`.
pub fn str_eq_word(s: &String, w: &str) -> (r: bool)
    ensures
        r == (s@ == w@),
{
    let ws = String::from_str(w);
    *s == ws
}

/// Relies on String::push from std: appends exactly the one character.
#[verifier::external_body]
pub(crate) fn push_char(s: &mut String, c: char)
    ensures
        final(s)@ == old(s)@ + seq![c],
{
    s.push(c)
}

} // verus!
