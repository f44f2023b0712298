//! Username validation against the provider's grammar: one to thirty-nine
//! characters, each an ASCII letter, digit, hyphen or underscore.

use vstd::prelude::*;

verus! {

/// A character the username grammar allows: an ASCII letter, a digit,
/// a hyphen or an underscore.
pub open spec fn is_username_char(c: char) -> bool {
    ('a' <= c && c <= 'z') || ('A' <= c && c <= 'Z') || ('0' <= c && c <= '9') || c == '-'
        || c == '_'
}

/// The username grammar: between one and thirty-nine allowed characters.
pub open spec fn is_valid_username(s: Seq<char>) -> bool {
    1 <= s.len() && s.len() <= 39 && (forall|i: int| 0 <= i < s.len() ==> is_username_char(s[i]))
}

/// Whether one character is allowed in a username.
pub fn check_username_char(c: char) -> (b: bool)
    ensures
        b == is_username_char(c),
{
    ('a' <= c && c <= 'z') || ('A' <= c && c <= 'Z') || ('0' <= c && c <= '9') || c == '-'
        || c == '_'
}

/// Validates a username: returns the unchanged string when it matches the
/// grammar, and otherwise an error message naming the offending string.
pub fn validate_username(user_name: &str) -> (r: Result<String, String>)
    ensures
        r is Ok <==> is_valid_username(user_name@),
        r matches Ok(s) ==> s@ == user_name@,
        r matches Err(e) ==> e@ == user_name@ + " is an invalid GitHub username"@,
{
    let len: usize = user_name.unicode_len();
    if 1 <= len && len <= 39 {
        let mut i: usize = 0;
        let mut all_allowed: bool = true;
        while i < len
            invariant
                len == user_name@.len(),
                i <= len,
                all_allowed <==> (forall|j: int| 0 <= j < i ==> is_username_char(user_name@[j])),
            decreases len - i,
        {
            let c = user_name.get_char(i);
            if !check_username_char(c) {
                all_allowed = false;
            }
            i = i + 1;
        }
        if all_allowed {
            return Ok(user_name.to_owned());
        }
    }
    Err(String::from_str(user_name).concat(" is an invalid GitHub username"))
}

} // verus!
