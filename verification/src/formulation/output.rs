//! Validated queries: attributes, values and objects ready for code generation.

use vstd::prelude::*;
use std::collections::VecDeque;

use crate::definition::output::{BuiltInType, Container, ContainerV, Variant, VariantV};
use crate::text::{chars_of, copy_string, parse_digits, string_from_chars, unsigned_text_value};

verus! {

/// Represents a part of an attribute. Parts are separated by dots (".").
#[derive(Clone, Debug)]
pub enum Part {
    /// Corresponds to an object field name.
    Key(String),
    /// Corresponds to a literal index.
    Index(String),
    /// Corresponds to an index passed in code mode (inside parenthesis "()").
    Code(String),
    /// Corresponds to a dollar ("$") operator.
    Dollar,
}

/// The view of an attribute part.
pub enum PartV {
    Key(Seq<char>),
    Index(Seq<char>),
    Code(Seq<char>),
    Dollar,
}

impl View for Part {
    type V = PartV;

    open spec fn view(&self) -> PartV {
        match self {
            Part::Key(s) => PartV::Key(s@),
            Part::Index(s) => PartV::Index(s@),
            Part::Code(s) => PartV::Code(s@),
            Part::Dollar => PartV::Dollar,
        }
    }
}

/// Text accepted by `usize::from_str`.
pub open spec fn is_index_text(s: Seq<char>) -> bool {
    unsigned_text_value(s, usize::MAX as int) is Some
}

/// The part that a piece of an attribute denotes.
pub open spec fn part_of_str(s: Seq<char>) -> PartV {
    if s == seq!['$'] {
        PartV::Dollar
    } else if is_index_text(s) {
        PartV::Index(s)
    } else {
        PartV::Key(s)
    }
}

/// The text of a part.
pub open spec fn part_text(p: PartV) -> Seq<char> {
    match p {
        PartV::Key(s) => s,
        PartV::Index(s) => s,
        PartV::Code(s) => s,
        PartV::Dollar => seq!['$'],
    }
}

/// A key that starts with a dollar is an operator.
pub open spec fn part_is_operator(p: PartV) -> bool {
    match p {
        PartV::Key(s) => s.len() > 0 && s[0] == '$',
        _ => false,
    }
}

/// Checks whether the text is accepted by `usize::from_str`.
pub fn is_index(chars: &Vec<char>) -> (r: bool)
    ensures
        r == is_index_text(chars@),
{
    let start: usize = if chars.len() > 0 && chars[0] == '+' { 1 } else { 0 };
    let r = parse_digits(chars.as_slice(), start, usize::MAX as u64);
    proof {
        if chars@.len() > 0 && chars@[0] == '+' {
            assert(chars@.subrange(1, chars@.len() as int) =~= chars@.drop_first());
        } else {
            assert(chars@.subrange(0, chars@.len() as int) =~= chars@);
        }
    }
    r.is_some()
}

impl Part {
    /// Constructs a new `Part` basing on the passed string.
    pub fn from_str(string: &str) -> (r: Self)
        ensures
            r@ == part_of_str(string@),
    {
        let chars = chars_of(string);
        if chars.len() == 1 && chars[0] == '$' {
            assert(chars@ =~= seq!['$']);
            Part::Dollar
        } else if is_index(&chars) {
            Part::Index(string_from_chars(chars.as_slice()))
        } else {
            Part::Key(string_from_chars(chars.as_slice()))
        }
    }

    /// Constructs a new code `Part` containing the given code.
    pub fn from_code(string: String) -> (r: Self)
        ensures
            r == Part::Code(string),
    {
        Part::Code(string)
    }

    /// Casts the part to a string.
    pub fn to_str(&self) -> (r: &str)
        ensures
            r@ == part_text(self@),
    {
        match self {
            Part::Key(name) => name.as_str(),
            Part::Index(index) => index.as_str(),
            Part::Code(string) => string.as_str(),
            Part::Dollar => {
                let r = "$";
                proof {
                    reveal_strlit("$");
                }
                assert(r@ =~= seq!['$']);
                r
            },
        }
    }

    /// Returns `true` if the part is a key.
    pub fn is_key(&self) -> (r: bool)
        ensures
            r == (self@ is Key),
    {
        match self {
            Part::Key(_) => true,
            _ => false,
        }
    }

    /// Returns `true` if the part corresponds to an operator (starts with "$").
    pub fn is_operator(&self) -> (r: bool)
        ensures
            r == part_is_operator(self@),
    {
        match self {
            Part::Key(key) => crate::text::starts_with_char(key.as_str(), '$'),
            _ => false,
        }
    }

    /// Returns a copy of the part.
    pub fn duplicate(&self) -> (r: Self)
        ensures
            r@ == self@,
    {
        match self {
            Part::Key(s) => Part::Key(copy_string(s.as_str())),
            Part::Index(s) => Part::Index(copy_string(s.as_str())),
            Part::Code(s) => Part::Code(copy_string(s.as_str())),
            Part::Dollar => Part::Dollar,
        }
    }
}

/// The parts of a text split at dots.
pub open spec fn split_at_dots(s: Seq<char>) -> Seq<Seq<char>>
    decreases s.len(),
{
    if s.len() == 0 {
        seq![Seq::empty()]
    } else {
        let init = split_at_dots(s.drop_last());
        if s.last() == '.' {
            init.push(Seq::empty())
        } else {
            init.update(init.len() - 1, init.last().push(s.last()))
        }
    }
}

proof fn lemma_split_at_dots_nonempty(s: Seq<char>)
    ensures
        split_at_dots(s).len() >= 1,
    decreases s.len(),
{
    if s.len() > 0 {
        lemma_split_at_dots_nonempty(s.drop_last());
    }
}

/// The parts of an attribute written as a text: the pieces between dots.
pub open spec fn parts_of_text(s: Seq<char>) -> Seq<PartV> {
    Seq::new(split_at_dots(s).len(), |i: int| part_of_str(split_at_dots(s)[i]))
}

/// Joins the texts of the parts with dots.
pub open spec fn composed(parts: Seq<PartV>) -> Seq<char>
    decreases parts.len(),
{
    if parts.len() == 0 {
        Seq::empty()
    } else if parts.len() == 1 {
        part_text(parts[0])
    } else {
        composed(parts.drop_last()) + seq!['.'] + part_text(parts.last())
    }
}

/// Characters with the Unicode `White_Space` property (`char::is_whitespace`).
pub uninterp spec fn is_white_space(c: char) -> bool;

/// `char::is_whitespace`: whether the character has the Unicode `White_Space` property.
#[verifier::external_body]
fn char_is_whitespace(c: char) -> (r: bool)
    ensures
        r == is_white_space(c),
{
    c.is_whitespace()
}

/// Text with the leading and trailing white space removed (what `str::trim` gives).
pub open spec fn trimmed(s: Seq<char>) -> Seq<char>
    decreases s.len(),
{
    if s.len() == 0 {
        s
    } else if is_white_space(s[0]) {
        trimmed(s.drop_first())
    } else if is_white_space(s.last()) {
        trimmed(s.drop_last())
    } else {
        s
    }
}

/// Removes the leading and trailing white space of a text.
pub(crate) fn trim(s: &str) -> (r: String)
    ensures
        r@ == trimmed(s@),
{
    let chars = chars_of(s);
    let n = chars.len();
    let mut i: usize = 0;
    assert(s@.subrange(0, n as int) =~= s@);
    while i < n && char_is_whitespace(chars[i])
        invariant
            i <= n == chars@.len(),
            chars@ == s@,
            trimmed(s@) == trimmed(s@.subrange(i as int, n as int)),
        decreases n - i,
    {
        let ghost sub = s@.subrange(i as int, n as int);
        assert(sub.drop_first() =~= s@.subrange(i + 1, n as int));
        i = i + 1;
    }
    let mut j: usize = n;
    while j > i && char_is_whitespace(chars[j - 1])
        invariant
            i <= j <= n == chars@.len(),
            chars@ == s@,
            i < n ==> !is_white_space(s@[i as int]),
            trimmed(s@) == trimmed(s@.subrange(i as int, j as int)),
        decreases j - i,
    {
        let ghost sub = s@.subrange(i as int, j as int);
        assert(sub[0] == s@[i as int]);
        assert(sub.drop_last() =~= s@.subrange(i as int, j - 1));
        j = j - 1;
    }
    let ghost sub = s@.subrange(i as int, j as int);
    proof {
        if i < j {
            assert(sub[0] == s@[i as int]);
            assert(sub.last() == s@[j - 1]);
        }
    }
    let mut kept: Vec<char> = Vec::new();
    let mut k: usize = i;
    while k < j
        invariant
            i <= k <= j <= n == chars@.len(),
            kept@ == chars@.subrange(i as int, k as int),
        decreases j - k,
    {
        kept.push(chars[k]);
        assert(kept@ =~= chars@.subrange(i as int, k + 1));
        k = k + 1;
    }
    string_from_chars(kept.as_slice())
}

/// Represents an attribute.
#[derive(Debug)]
pub struct Attribute {
    /// A list of attribute parts. Parts in an attribute are separated by dots (".").
    pub parts: VecDeque<Part>,
}

impl View for Attribute {
    type V = Seq<PartV>;

    open spec fn view(&self) -> Seq<PartV> {
        self.parts@.map_values(|p: Part| p@)
    }
}

impl Attribute {
    /// Constructs a new empty `Attribute`.
    pub fn new() -> (r: Self)
        ensures
            r@.len() == 0,
    {
        Attribute { parts: VecDeque::new() }
    }

    /// Constructs a new `Attribute` from a string: the string is split at dots and each piece is
    /// trimmed.
    pub fn from_str(string: &str) -> (r: Self)
        ensures
            r@.len() == split_at_dots(string@).len(),
            forall|i: int|
                0 <= i < r@.len() ==> #[trigger] r@[i] == part_of_str(
                    trimmed(split_at_dots(string@)[i]),
                ),
    {
        let chars = chars_of(string);
        let mut pieces: Vec<Vec<char>> = Vec::new();
        pieces.push(Vec::new());
        let mut i: usize = 0;
        while i < chars.len()
            invariant
                chars@ == string@,
                i <= chars@.len(),
                pieces@.len() >= 1,
                pieces@.len() == split_at_dots(chars@.subrange(0, i as int)).len(),
                forall|j: int|
                    0 <= j < pieces@.len() ==> #[trigger] pieces@[j]@ == split_at_dots(
                        chars@.subrange(0, i as int),
                    )[j],
            decreases chars@.len() - i,
        {
            let ghost prev = chars@.subrange(0, i as int);
            let ghost next = chars@.subrange(0, i + 1);
            assert(next.drop_last() =~= prev);
            let ghost old_pieces = pieces@;
            if chars[i] == '.' {
                pieces.push(Vec::new());
                proof {
                    assert forall|j: int| 0 <= j < pieces@.len() implies #[trigger] pieces@[j]@
                        == split_at_dots(next)[j] by {
                        if j < old_pieces.len() {
                            assert(pieces@[j] == old_pieces[j]);
                        } else {
                            assert(pieces@[j]@ =~= Seq::<char>::empty());
                        }
                    }
                }
            } else {
                let mut piece = pieces.pop().unwrap();
                piece.push(chars[i]);
                pieces.push(piece);
                proof {
                    assert forall|j: int| 0 <= j < pieces@.len() implies #[trigger] pieces@[j]@
                        == split_at_dots(next)[j] by {
                        if j < old_pieces.len() - 1 {
                            assert(pieces@[j] == old_pieces[j]);
                        }
                    }
                }
            }
            i = i + 1;
        }
        assert(chars@.subrange(0, chars@.len() as int) =~= chars@);
        let mut parts: VecDeque<Part> = VecDeque::new();
        let mut k: usize = 0;
        while k < pieces.len()
            invariant
                chars@ == string@,
                pieces@.len() == split_at_dots(string@).len(),
                forall|j: int|
                    0 <= j < pieces@.len() ==> #[trigger] pieces@[j]@ == split_at_dots(string@)[j],
                k <= pieces@.len(),
                parts@.len() == k,
                forall|j: int|
                    0 <= j < k ==> #[trigger] parts@[j]@ == part_of_str(
                        trimmed(split_at_dots(string@)[j]),
                    ),
            decreases pieces@.len() - k,
        {
            let piece = string_from_chars(pieces[k].as_slice());
            let t = trim(piece.as_str());
            parts.push_back(Part::from_str(t.as_str()));
            k = k + 1;
        }
        Attribute { parts }
    }

    /// Casts to a string.
    pub fn to_composed(&self) -> (r: String)
        ensures
            r@ == composed(self@),
    {
        let mut v: Vec<char> = Vec::new();
        let mut i: usize = 0;
        while i < self.parts.len()
            invariant
                i <= self.parts@.len(),
                v@ == composed(self@.subrange(0, i as int)),
            decreases self.parts@.len() - i,
        {
            let text = chars_of(self.parts[i].to_str());
            let ghost before = v@;
            if i > 0 {
                v.push('.');
            }
            let mut j: usize = 0;
            while j < text.len()
                invariant
                    j <= text@.len(),
                    v@ == (if i > 0 { before + seq!['.'] } else { before }) + text@.subrange(
                        0,
                        j as int,
                    ),
                decreases text@.len() - j,
            {
                v.push(text[j]);
                j = j + 1;
            }
            proof {
                let s = self@.subrange(0, i + 1);
                assert(s.drop_last() =~= self@.subrange(0, i as int));
                assert(text@.subrange(0, text@.len() as int) =~= text@);
                if i == 0 {
                    assert(composed(self@.subrange(0, 0)) =~= Seq::<char>::empty());
                    assert(v@ =~= composed(s));
                } else {
                    assert(v@ =~= composed(s));
                }
            }
            i = i + 1;
        }
        assert(self@.subrange(0, self.parts@.len() as int) =~= self@);
        string_from_chars(v.as_slice())
    }

    /// Returns the number of parts.
    pub fn len(&self) -> (r: usize)
        ensures
            r == self@.len(),
    {
        self.parts.len()
    }

    /// Adds a new part.
    pub fn push(&mut self, part: Part)
        ensures
            final(self)@ == old(self)@.push(part@),
    {
        self.parts.push_back(part);
        assert(self@ =~= old(self)@.push(part@));
    }

    /// Returns `true` if the attribute corresponds to an operator.
    pub fn is_operator(&self) -> (r: bool)
        ensures
            r == (self@.len() == 1 && part_is_operator(self@[0])),
    {
        if self.parts.len() > 0 {
            self.parts[0].is_operator() && self.parts.len() == 1
        } else {
            false
        }
    }

    /// Returns a copy of the attribute.
    pub fn duplicate(&self) -> (r: Self)
        ensures
            r@ == self@,
    {
        let mut parts: VecDeque<Part> = VecDeque::new();
        let mut i: usize = 0;
        while i < self.parts.len()
            invariant
                i <= self.parts@.len(),
                parts@.len() == i,
                forall|j: int| 0 <= j < i ==> #[trigger] parts@[j]@ == self.parts@[j]@,
            decreases self.parts@.len() - i,
        {
            parts.push_back(self.parts[i].duplicate());
            i = i + 1;
        }
        let r = Attribute { parts };
        assert(r@ =~= self@);
        r
    }
}

/// Represents type of code data. There is not check for validity of data passed in the code mode.
/// The only check is done by casting the result to the expected type.
#[derive(Debug)]
pub struct CodeType {
    /// The base type.
    pub variant: Variant,
    /// The container.
    pub container: Container,
}

/// Represent an object field value.
#[derive(Debug)]
pub enum Value {
    /// Corresponds to a floating point (its literal text).
    F64(String),
    /// Corresponds to a string.
    String(String),
    /// Corresponds to an object ID (its hexadecimal text).
    ObjectId(String),
    /// Corresponds to a boolean value.
    Bool(bool),
    /// Corresponds to a date (its text).
    Date(String),
    /// Corresponds to a 32-bit integer.
    I32(i32),
    /// Corresponds to a 64-bit integer.
    I64(i64),
    /// Corresponds to an object.
    Object(Object),
    /// Corresponds to the code mode. Code mode it indicated by parentesis "()". There can be any
    /// code provided inside the parentesis.
    Code {
        /// The code.
        code: String,
        /// Expected type.
        cast: CodeType,
    },
}

/// The view of a value.
pub enum ValueV {
    F64(Seq<char>),
    String(Seq<char>),
    ObjectId(Seq<char>),
    Bool(bool),
    Date(Seq<char>),
    I32(i32),
    I64(i64),
    Object(Seq<(Seq<PartV>, ValueV)>),
    Code(Seq<char>, VariantV, ContainerV),
}

impl Value {
    /// The view of the value.
    pub open spec fn view_rec(self) -> ValueV
        decreases self,
    {
        match self {
            Value::F64(s) => ValueV::F64(s@),
            Value::String(s) => ValueV::String(s@),
            Value::ObjectId(s) => ValueV::ObjectId(s@),
            Value::Bool(b) => ValueV::Bool(b),
            Value::Date(s) => ValueV::Date(s@),
            Value::I32(v) => ValueV::I32(v),
            Value::I64(v) => ValueV::I64(v),
            Value::Object(o) => ValueV::Object(
                Seq::new(
                    o.fields@.len(),
                    |i: int|
                        if 0 <= i < o.fields@.len() {
                            (o.fields@[i].attr@, o.fields@[i].value.view_rec())
                        } else {
                            (Seq::empty(), ValueV::Bool(false))
                        },
                ),
            ),
            Value::Code { code, cast } => ValueV::Code(code@, cast.variant@, cast.container@),
        }
    }

    /// Constructs a new code value.
    pub fn new_builtin_code(builtin: BuiltInType, container: Container, code: String) -> (r: Self)
        ensures
            r.view_rec() == ValueV::Code(code@, VariantV::Field(builtin), container@),
    {
        let cast = CodeType { variant: Variant::Field(builtin), container: container };
        Value::Code { code, cast }
    }
}

/// Represents an object field.
#[derive(Debug)]
pub struct Field {
    /// The field attribute.
    pub attr: Attribute,
    /// The field value.
    pub value: Value,
}

impl Field {
    /// Constructs a new field.
    pub fn new(attr: Attribute, value: Value) -> (r: Self)
        ensures
            r.attr == attr,
            r.value == value,
    {
        Self { attr, value }
    }
}

/// Represents an object.
#[derive(Debug)]
pub struct Object {
    /// List of the object's fields.
    pub fields: Vec<Field>,
}

impl View for Object {
    type V = Seq<(Seq<PartV>, ValueV)>;

    open spec fn view(&self) -> Seq<(Seq<PartV>, ValueV)> {
        Seq::new(self.fields@.len(), |i: int| (self.fields@[i].attr@, self.fields@[i].value.view_rec()))
    }
}

impl Object {
    /// Constructs a new `Object`.
    pub fn new() -> (r: Self)
        ensures
            r@.len() == 0,
    {
        Self { fields: Vec::new() }
    }

    /// Adds a field at the end of the object.
    pub fn push(&mut self, field: Field)
        ensures
            final(self)@ == old(self)@.push((field.attr@, field.value.view_rec())),
    {
        self.fields.push(field);
        assert(self@ =~= old(self)@.push((field.attr@, field.value.view_rec())));
    }
}

/// An object value is viewed as the object.
pub proof fn lemma_object_value_view(o: Object)
    ensures
        Value::Object(o).view_rec() == ValueV::Object(o@),
{
    assert(Value::Object(o).view_rec()->Object_0 =~= o@);
}


/// A piece of an attribute is written back as it was read.
pub proof fn law_part_text_of_str(s: Seq<char>)
    ensures
        part_text(part_of_str(s)) == s,
{
}

/// An attribute read from a text whose dot-separated pieces carry no surrounding white space
/// (the parts that `Attribute::from_str` gives) is written back as that text.
pub proof fn law_attribute_text_roundtrip(s: Seq<char>, parts: Seq<PartV>)
    requires
        parts.len() == split_at_dots(s).len(),
        forall|i: int|
            0 <= i < parts.len() ==> #[trigger] parts[i] == part_of_str(trimmed(split_at_dots(s)[i])),
        forall|i: int|
            0 <= i < split_at_dots(s).len() ==> #[trigger] trimmed(split_at_dots(s)[i])
                == split_at_dots(s)[i],
    ensures
        composed(parts) == s,
{
    assert forall|i: int| 0 <= i < parts.len() implies parts[i] == parts_of_text(s)[i] by {
        assert(trimmed(split_at_dots(s)[i]) == split_at_dots(s)[i]);
    }
    assert(parts =~= parts_of_text(s));
    lemma_composed_parts_of_text(s);
}

/// Splitting at dots gives at least one piece.
proof fn lemma_split_at_dots_len(s: Seq<char>)
    ensures
        split_at_dots(s).len() >= 1,
    decreases s.len(),
{
    if s.len() > 0 {
        lemma_split_at_dots_len(s.drop_last());
    }
}

/// The parts of a text, written back, give the text.
proof fn lemma_composed_parts_of_text(s: Seq<char>)
    ensures
        composed(parts_of_text(s)) == s,
    decreases s.len(),
{
    let empty = Seq::<char>::empty();
    law_part_text_of_str(empty);
    if s.len() == 0 {
        let p = parts_of_text(s);
        assert(p.len() == 1);
        assert(p[0] == part_of_str(empty));
    } else {
        let t = s.drop_last();
        let c = s.last();
        lemma_composed_parts_of_text(t);
        lemma_split_at_dots_len(t);
        let init = split_at_dots(t);
        let pt = parts_of_text(t);
        let ps = parts_of_text(s);
        if c == '.' {
            assert(ps.drop_last() =~= pt);
            assert(ps.last() == part_of_str(empty));
            assert(s =~= t + seq!['.'] + empty);
        } else {
            let w = init.last().push(c);
            law_part_text_of_str(w);
            law_part_text_of_str(init.last());
            if init.len() == 1 {
                assert(ps[0] == part_of_str(w));
                assert(pt[0] == part_of_str(init[0]));
                assert(s =~= t.push(c));
            } else {
                assert(ps.drop_last() =~= pt.drop_last());
                assert(ps.last() == part_of_str(w));
                assert(pt.last() == part_of_str(init.last()));
                let before = composed(pt.drop_last()) + seq!['.'];
                assert(s =~= (before + init.last()).push(c));
                assert(before + w =~= (before + init.last()).push(c));
            }
        }
    }
}

}
