//! Whitespace trimming and case folding, as key text goes through them before it is decoded.

use vstd::prelude::*;
use vstd::utf8::is_ascii_chars;

verus! {

/// Whether `c` is one of the characters that Unicode classes as White_Space:
/// the characters that trimming takes off both ends of a text.
pub open spec fn is_white_space(c: char) -> bool {
    let u = c as u32;
    ||| 0x09 <= u <= 0x0D
    ||| u == 0x20
    ||| u == 0x85
    ||| u == 0xA0
    ||| u == 0x1680
    ||| 0x2000 <= u <= 0x200A
    ||| u == 0x2028
    ||| u == 0x2029
    ||| u == 0x202F
    ||| u == 0x205F
    ||| u == 0x3000
}

/// `s` without its leading white space.
pub open spec fn trim_start(s: Seq<char>) -> Seq<char>
    decreases s.len(),
{
    if s.len() > 0 && is_white_space(s.first()) {
        trim_start(s.drop_first())
    } else {
        s
    }
}

/// `s` without its trailing white space.
pub open spec fn trim_end(s: Seq<char>) -> Seq<char>
    decreases s.len(),
{
    if s.len() > 0 && is_white_space(s.last()) {
        trim_end(s.drop_last())
    } else {
        s
    }
}

/// `s` without its leading and trailing white space.
pub open spec fn trimmed(s: Seq<char>) -> Seq<char> {
    trim_end(trim_start(s))
}

/// The upper-case form of an ASCII letter; any other character is left as it is.
pub open spec fn ascii_upper_char(c: char) -> char {
    if 'a' <= c <= 'z' {
        ((c as u8 - 32) as u8) as char
    } else {
        c
    }
}

/// The lower-case form of an ASCII letter; any other character is left as it is.
pub open spec fn ascii_lower_char(c: char) -> char {
    if 'A' <= c <= 'Z' {
        ((c as u8 + 32) as u8) as char
    } else {
        c
    }
}

/// `s` with each ASCII letter in upper case.
pub open spec fn ascii_upper(s: Seq<char>) -> Seq<char> {
    Seq::new(s.len(), |i: int| ascii_upper_char(s[i]))
}

/// `s` with each ASCII letter in lower case.
pub open spec fn ascii_lower(s: Seq<char>) -> Seq<char> {
    Seq::new(s.len(), |i: int| ascii_lower_char(s[i]))
}

/// The upper-case form that `str::to_uppercase` gives a text with characters beyond ASCII.
pub uninterp spec fn unicode_uppercased(s: Seq<char>) -> Seq<char>;

/// The lower-case form that `str::to_lowercase` gives a text with characters beyond ASCII.
pub uninterp spec fn unicode_lowercased(s: Seq<char>) -> Seq<char>;

/// The upper-case form of `s`.
pub open spec fn uppercased(s: Seq<char>) -> Seq<char> {
    if is_ascii_chars(s) {
        ascii_upper(s)
    } else {
        unicode_uppercased(s)
    }
}

/// The lower-case form of `s`.
pub open spec fn lowercased(s: Seq<char>) -> Seq<char> {
    if is_ascii_chars(s) {
        ascii_lower(s)
    } else {
        unicode_lowercased(s)
    }
}

/// `str::trim` returns the text between the leading and the trailing run of
/// White_Space characters.
pub assume_specification[ str::trim ](s: &str) -> (r: &str)
    ensures
        r@ == trimmed(s@),
;

/// `str::to_uppercase` maps a text of ASCII characters letter by letter onto
/// `A` to `Z`; on any other text its result is only given a name.
pub assume_specification[ str::to_uppercase ](s: &str) -> (r: String)
    ensures
        is_ascii_chars(s@) ==> r@ == ascii_upper(s@),
        !is_ascii_chars(s@) ==> r@ == unicode_uppercased(s@),
;

/// `str::to_lowercase` maps a text of ASCII characters letter by letter onto
/// `a` to `z`; on any other text its result is only given a name.
pub assume_specification[ str::to_lowercase ](s: &str) -> (r: String)
    ensures
        is_ascii_chars(s@) ==> r@ == ascii_lower(s@),
        !is_ascii_chars(s@) ==> r@ == unicode_lowercased(s@),
;

/// Trimming leaves a text alone that neither begins nor ends with white space.
pub proof fn lemma_trimmed_is_identity(text: Seq<char>)
    requires
        text.len() > 0 ==> !is_white_space(text.first()) && !is_white_space(text.last()),
    ensures
        trimmed(text) == text,
{
}

/// Upper case neither makes white space nor unmakes it.
pub proof fn lemma_upper_keeps_white_space(c: char)
    ensures
        is_white_space(ascii_upper_char(c)) == is_white_space(c),
{
}

/// Taking leading white space off and putting in upper case can be done in either order.
pub proof fn lemma_trim_start_of_upper(s: Seq<char>)
    ensures
        trim_start(ascii_upper(s)) == ascii_upper(trim_start(s)),
    decreases s.len(),
{
    if s.len() > 0 && is_white_space(s.first()) {
        lemma_upper_keeps_white_space(s.first());
        lemma_trim_start_of_upper(s.drop_first());
        assert(ascii_upper(s).drop_first() =~= ascii_upper(s.drop_first()));
    } else if s.len() > 0 {
        lemma_upper_keeps_white_space(s.first());
    }
}

/// Taking trailing white space off and putting in upper case can be done in either order.
pub proof fn lemma_trim_end_of_upper(s: Seq<char>)
    ensures
        trim_end(ascii_upper(s)) == ascii_upper(trim_end(s)),
    decreases s.len(),
{
    if s.len() > 0 && is_white_space(s.last()) {
        lemma_upper_keeps_white_space(s.last());
        lemma_trim_end_of_upper(s.drop_last());
        assert(ascii_upper(s).drop_last() =~= ascii_upper(s.drop_last()));
    } else if s.len() > 0 {
        lemma_upper_keeps_white_space(s.last());
    }
}

/// Trimming and putting in upper case can be done in either order.
pub proof fn lemma_trimmed_of_upper(s: Seq<char>)
    ensures
        trimmed(ascii_upper(s)) == ascii_upper(trimmed(s)),
{
    lemma_trim_start_of_upper(s);
    lemma_trim_end_of_upper(trim_start(s));
}

/// What trimming leaves of an ASCII text is an ASCII text.
pub proof fn lemma_trimmed_is_ascii(s: Seq<char>)
    requires
        is_ascii_chars(s),
    ensures
        is_ascii_chars(trimmed(s)),
{
    lemma_trim_start_is_ascii(s);
    lemma_trim_end_is_ascii(trim_start(s));
}

proof fn lemma_trim_start_is_ascii(s: Seq<char>)
    requires
        is_ascii_chars(s),
    ensures
        is_ascii_chars(trim_start(s)),
    decreases s.len(),
{
    if s.len() > 0 && is_white_space(s.first()) {
        lemma_trim_start_is_ascii(s.drop_first());
    }
}

proof fn lemma_trim_end_is_ascii(s: Seq<char>)
    requires
        is_ascii_chars(s),
    ensures
        is_ascii_chars(trim_end(s)),
    decreases s.len(),
{
    if s.len() > 0 && is_white_space(s.last()) {
        lemma_trim_end_is_ascii(s.drop_last());
    }
}

/// The upper-case form of an ASCII text is an ASCII text, and putting it in
/// upper case once more changes nothing.
pub proof fn lemma_upper_is_ascii(s: Seq<char>)
    requires
        is_ascii_chars(s),
    ensures
        is_ascii_chars(ascii_upper(s)),
        ascii_upper(ascii_upper(s)) == ascii_upper(s),
{
}

} // verus!
