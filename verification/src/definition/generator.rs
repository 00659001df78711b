//! Helpers of the code generated for the schema definitions.

use vstd::prelude::*;

use crate::text::{chars_of, concat, push_char};

verus! {

/// The uppercase mapping of a character (one or more characters).
pub uninterp spec fn uppercase_of(c: char) -> Seq<char>;

/// `char::to_uppercase`, collected into a string: the uppercase mapping of the character, which
/// for ASCII characters is the character itself except that `a` to `z` become `A` to `Z`.
#[verifier::external_body]
fn char_to_uppercase(c: char) -> (r: String)
    ensures
        r@ == uppercase_of(c),
        'a' <= c <= 'z' ==> r@ == seq![((c as u32) - 32) as char],
        (c as u32) < 128 && !('a' <= c <= 'z') ==> r@ == seq![c],
{
    c.to_uppercase().to_string()
}

/// The name of a collection type written for a collection name: the pieces between underscores,
/// each with its first character in uppercase, joined together.
pub open spec fn coll_name(s: Seq<char>) -> Seq<char>
    decreases s.len(),
{
    if s.len() == 0 {
        Seq::empty()
    } else {
        let prev = coll_name(s.drop_last());
        let c = s.last();
        if c == '_' {
            prev
        } else if s.len() == 1 || s[s.len() - 2] == '_' {
            prev + uppercase_of(c)
        } else {
            prev.push(c)
        }
    }
}

/// The ASCII uppercase of a character: `a` to `z` become `A` to `Z`, other characters stay.
pub open spec fn ascii_upper(c: char) -> char {
    if 'a' <= c <= 'z' {
        ((c as u32) - 32) as char
    } else {
        c
    }
}

/// The collection type name written for a collection name made of ASCII characters.
pub open spec fn ascii_coll_name(s: Seq<char>) -> Seq<char>
    decreases s.len(),
{
    if s.len() == 0 {
        Seq::empty()
    } else {
        let prev = ascii_coll_name(s.drop_last());
        let c = s.last();
        if c == '_' {
            prev
        } else if s.len() == 1 || s[s.len() - 2] == '_' {
            prev.push(ascii_upper(c))
        } else {
            prev.push(c)
        }
    }
}

/// All the characters are ASCII.
pub open spec fn is_ascii_text(s: Seq<char>) -> bool {
    forall|i: int| 0 <= i < s.len() ==> (#[trigger] s[i] as u32) < 128
}

/// Helper structure for calling rust code from within a template.
pub struct GeneratorCallback;

impl GeneratorCallback {
    /// Constructs a new `GeneratorCallback`.
    pub fn new() -> (r: Self) {
        Self
    }

    /// Makes the name of a collection type from a collection name: `coll_name` becomes
    /// `CollName`.
    pub fn make_coll_name(&self, string: &String) -> (r: String)
        ensures
            r@ == coll_name(string@),
            is_ascii_text(string@) ==> r@ == ascii_coll_name(string@),
    {
        let chars = chars_of(string.as_str());
        let mut result = String::new();
        let mut i: usize = 0;
        assert(result@ =~= coll_name(chars@.subrange(0, 0)));
        assert(result@ =~= ascii_coll_name(chars@.subrange(0, 0)));
        while i < chars.len()
            invariant
                i <= chars@.len(),
                chars@ == string@,
                result@ == coll_name(chars@.subrange(0, i as int)),
                is_ascii_text(string@) ==> result@ == ascii_coll_name(chars@.subrange(0, i as int)),
            decreases chars@.len() - i,
        {
            let c = chars[i];
            let ghost prefix = chars@.subrange(0, i + 1);
            let ghost before = result@;
            assert(prefix.drop_last() =~= chars@.subrange(0, i as int));
            proof {
                if is_ascii_text(string@) {
                    assert((chars@[i as int] as u32) < 128);
                }
            }
            if c == '_' {
            } else if i == 0 || chars[i - 1] == '_' {
                let upper = char_to_uppercase(c);
                result = concat(result.as_str(), upper.as_str());
            } else {
                push_char(&mut result, c);
            }
            assert(result@ =~= coll_name(prefix));
            proof {
                if is_ascii_text(string@) {
                    assert(before == ascii_coll_name(prefix.drop_last()));
                    assert(result@ =~= ascii_coll_name(prefix));
                }
            }
            i = i + 1;
        }
        assert(chars@.subrange(0, chars@.len() as int) =~= chars@);
        result
    }
}

}
