//! Character names as players type them: compared without regard to case
//! or to surrounding white space.

use vstd::prelude::*;

verus! {

/// What `str::to_uppercase` makes of a string: each character mapped to
/// its uppercase form by the Unicode tables.
pub uninterp spec fn unicode_uppercase(s: Seq<char>) -> Seq<char>;

/// Whether `c` has the Unicode property White_Space.
pub open spec fn is_white_space(c: char) -> bool {
    let n = c as u32;
    ||| 0x9 <= n <= 0xd
    ||| n == 0x20
    ||| n == 0x85
    ||| n == 0xa0
    ||| n == 0x1680
    ||| 0x2000 <= n <= 0x200a
    ||| n == 0x2028
    ||| n == 0x2029
    ||| n == 0x202f
    ||| n == 0x205f
    ||| n == 0x3000
}

/// `s` without its leading white space.
pub open spec fn trim_start(s: Seq<char>) -> Seq<char>
    decreases s.len(),
{
    if s.len() > 0 && is_white_space(s[0]) {
        trim_start(s.drop_first())
    } else {
        s
    }
}

/// `s` without its trailing white space.
pub open spec fn trim_end(s: Seq<char>) -> Seq<char>
    decreases s.len(),
{
    if s.len() > 0 && is_white_space(s.last()) {
        trim_end(s.drop_last())
    } else {
        s
    }
}

/// The form in which two character names are compared: in upper case,
/// without surrounding white space.
pub open spec fn name_key(s: Seq<char>) -> Seq<char> {
    trim_end(trim_start(unicode_uppercase(s)))
}

/// Calls `str::to_uppercase`, whose result is named `unicode_uppercase`.
#[verifier::external_body]
fn str_to_uppercase(s: &str) -> (r: String)
    ensures
        r@ == unicode_uppercase(s@),
{
    s.to_uppercase()
}

/// Calls `str::trim`: the string without leading and trailing characters
/// that have the Unicode property White_Space.
#[verifier::external_body]
fn str_trim<'a>(s: &'a str) -> (r: &'a str)
    ensures
        r@ == trim_end(trim_start(s@)),
{
    s.trim()
}

/// The form in which a character name is compared with others.
pub fn character_name_key(name: &str) -> (r: String)
    ensures
        r@ == name_key(name@),
{
    let upper = str_to_uppercase(name);
    let trimmed = str_trim(upper.as_str());
    trimmed.to_owned()
}

/// Whether two character names are the same to a player.
pub fn character_names_match(a: &str, b: &str) -> (r: bool)
    ensures
        r == (name_key(a@) == name_key(b@)),
{
    let ka = character_name_key(a);
    let kb = character_name_key(b);
    ka == kb
}

} // verus!
