//! String matching and the shape of rich-text glyph shortcodes.

use vstd::prelude::*;

verus! {

/// A character allowed in the name part of a shortcode.
pub open spec fn is_name_char(c: char) -> bool {
    ('a' <= c && c <= 'z') || ('0' <= c && c <= '9') || c == '~' || c == '_'
}

pub open spec fn is_digit(c: char) -> bool {
    '0' <= c && c <= '9'
}

/// A non-empty run of name characters.
pub open spec fn is_glyph_name(s: Seq<char>) -> bool {
    &&& s.len() > 0
    &&& forall|i: int| 0 <= i < s.len() ==> is_name_char(#[trigger] s[i])
}

/// A non-empty run of decimal digits.
pub open spec fn is_glyph_id(s: Seq<char>) -> bool {
    &&& s.len() > 0
    &&& forall|i: int| 0 <= i < s.len() ==> is_digit(#[trigger] s[i])
}

/// The shortcode `<:name:id>` that refers to a registered image.
pub open spec fn shortcode(name: Seq<char>, id: Seq<char>) -> Seq<char> {
    "<:"@ + name + ":"@ + id + ">"@
}

/// `s` is a well-formed shortcode: `<:name:id>` with a valid name and a numeric id.
pub open spec fn is_shortcode(s: Seq<char>) -> bool {
    exists|name: Seq<char>, id: Seq<char>|
        is_glyph_name(name) && is_glyph_id(id) && s == #[trigger] shortcode(name, id)
}

/// Builds `<:name:id>`.
pub fn make_shortcode(name: &str, id: &str) -> (r: String)
    ensures
        r@ == shortcode(name@, id@),
{
    let r = "<:".to_owned().concat(name).concat(":").concat(id).concat(">");
    r
}

/// Exact, case-sensitive comparison of two strings.
pub fn text_eq(a: &str, b: &str) -> (r: bool)
    ensures
        r == (a@ == b@),
{
    let n = a.unicode_len();
    if n != b.unicode_len() {
        return false;
    }
    let mut i: usize = 0;
    while i < n
        invariant
            n == a@.len(),
            n == b@.len(),
            i <= n,
            forall|j: int| 0 <= j < i ==> a@[j] == b@[j],
        decreases n - i,
    {
        if a.get_char(i) != b.get_char(i) {
            return false;
        }
        i = i + 1;
    }
    assert(a@ =~= b@);
    true
}

} // verus!
