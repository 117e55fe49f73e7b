//! The two traits by which a type states how it is rendered, and their
//! implementations for the built-in kinds of value.

use vstd::prelude::*;
use vstd::string::*;
use crate::flatten::{flattened, push_field, to_subcommand};
use crate::text::{
    bool_text, bool_to_text, char_debug, char_literal, int_text, path_display, path_text,
    push_char, signed_text, texts, unsigned_text,
};
use crate::value::{
    arrow, classify, contribution, encode, encoding, first_or_empty, is_flag, is_optional,
    join_pair, joined, no_tokens, push_first, single, Field, Value,
};

verus! {

/// A value that can stand as a field of a record or variant.
pub trait ToFlags {
    /// The tokens that the value encodes to.
    spec fn tokens(&self) -> Seq<Seq<char>>;

    /// Whether the tokens stand without a `--key` before them.
    spec fn flag(&self) -> bool;

    /// Whether a field holding the value vanishes when it encodes to nothing.
    spec fn optional(&self) -> bool;

    /// Encodes the value as its tokens. The key of the field that holds the
    /// value is not among them.
    fn to_flags(&self) -> (tokens: Vec<String>)
        ensures
            texts(tokens@) == self.tokens(),
    ;

    /// Whether the tokens stand without a `--key` before them.
    fn is_flag(&self) -> (b: bool)
        ensures
            b == self.flag(),
    ;

    /// Whether the tokens stand behind a `--key`.
    fn is_value(&self) -> (b: bool)
        ensures
            b == !self.flag(),
    ;

    /// Whether a field holding the value vanishes when it encodes to nothing.
    fn is_optional(&self) -> (b: bool)
        ensures
            b == self.optional(),
    ;
}

/// A value that is rendered as a whole command: a name and then its fields.
pub trait ToSubcommand {
    /// The tokens of the command.
    spec fn subcommand(&self) -> Seq<Seq<char>>;

    /// Renders the command as its tokens: the name first.
    fn to_subcommand(&self) -> (tokens: Vec<String>)
        ensures
            texts(tokens@) == self.subcommand(),
    ;
}

/// One case of a tagged union, chosen and filled in: its declared name and
/// its fields in declared order.
#[derive(Debug, PartialEq, Eq)]
pub struct Variant {
    /// The name as declared.
    pub name: String,
    /// The fields in declared order; none for a unit variant.
    pub fields: Vec<Field>,
}

impl ToSubcommand for Variant {
    open spec fn subcommand(&self) -> Seq<Seq<char>> {
        flattened(self.name@, self.fields)
    }

    fn to_subcommand(&self) -> (tokens: Vec<String>) {
        to_subcommand(self.name.as_str(), &self.fields)
    }
}

impl ToFlags for Value {
    open spec fn tokens(&self) -> Seq<Seq<char>> {
        encoding(*self)
    }

    open spec fn flag(&self) -> bool {
        is_flag(*self)
    }

    open spec fn optional(&self) -> bool {
        is_optional(*self)
    }

    fn to_flags(&self) -> (tokens: Vec<String>) {
        encode(self)
    }

    fn is_flag(&self) -> (b: bool) {
        classify(self).is_flag
    }

    fn is_value(&self) -> (b: bool) {
        !classify(self).is_flag
    }

    fn is_optional(&self) -> (b: bool) {
        classify(self).is_optional
    }
}

impl ToFlags for String {
    open spec fn tokens(&self) -> Seq<Seq<char>> {
        seq![self@]
    }

    open spec fn flag(&self) -> bool {
        false
    }

    open spec fn optional(&self) -> bool {
        false
    }

    fn to_flags(&self) -> (tokens: Vec<String>) {
        single(self.clone())
    }

    fn is_flag(&self) -> (b: bool) {
        false
    }

    fn is_value(&self) -> (b: bool) {
        true
    }

    fn is_optional(&self) -> (b: bool) {
        false
    }
}

impl ToFlags for i128 {
    open spec fn tokens(&self) -> Seq<Seq<char>> {
        seq![int_text(*self as int)]
    }

    open spec fn flag(&self) -> bool {
        false
    }

    open spec fn optional(&self) -> bool {
        false
    }

    fn to_flags(&self) -> (tokens: Vec<String>) {
        single(signed_text(*self))
    }

    fn is_flag(&self) -> (b: bool) {
        false
    }

    fn is_value(&self) -> (b: bool) {
        true
    }

    fn is_optional(&self) -> (b: bool) {
        false
    }
}

impl ToFlags for i64 {
    open spec fn tokens(&self) -> Seq<Seq<char>> {
        seq![int_text(*self as int)]
    }

    open spec fn flag(&self) -> bool {
        false
    }

    open spec fn optional(&self) -> bool {
        false
    }

    fn to_flags(&self) -> (tokens: Vec<String>) {
        single(signed_text(*self as i128))
    }

    fn is_flag(&self) -> (b: bool) {
        false
    }

    fn is_value(&self) -> (b: bool) {
        true
    }

    fn is_optional(&self) -> (b: bool) {
        false
    }
}

impl ToFlags for i32 {
    open spec fn tokens(&self) -> Seq<Seq<char>> {
        seq![int_text(*self as int)]
    }

    open spec fn flag(&self) -> bool {
        false
    }

    open spec fn optional(&self) -> bool {
        false
    }

    fn to_flags(&self) -> (tokens: Vec<String>) {
        single(signed_text(*self as i128))
    }

    fn is_flag(&self) -> (b: bool) {
        false
    }

    fn is_value(&self) -> (b: bool) {
        true
    }

    fn is_optional(&self) -> (b: bool) {
        false
    }
}

impl ToFlags for i16 {
    open spec fn tokens(&self) -> Seq<Seq<char>> {
        seq![int_text(*self as int)]
    }

    open spec fn flag(&self) -> bool {
        false
    }

    open spec fn optional(&self) -> bool {
        false
    }

    fn to_flags(&self) -> (tokens: Vec<String>) {
        single(signed_text(*self as i128))
    }

    fn is_flag(&self) -> (b: bool) {
        false
    }

    fn is_value(&self) -> (b: bool) {
        true
    }

    fn is_optional(&self) -> (b: bool) {
        false
    }
}

impl ToFlags for i8 {
    open spec fn tokens(&self) -> Seq<Seq<char>> {
        seq![int_text(*self as int)]
    }

    open spec fn flag(&self) -> bool {
        false
    }

    open spec fn optional(&self) -> bool {
        false
    }

    fn to_flags(&self) -> (tokens: Vec<String>) {
        single(signed_text(*self as i128))
    }

    fn is_flag(&self) -> (b: bool) {
        false
    }

    fn is_value(&self) -> (b: bool) {
        true
    }

    fn is_optional(&self) -> (b: bool) {
        false
    }
}

impl ToFlags for u128 {
    open spec fn tokens(&self) -> Seq<Seq<char>> {
        seq![int_text(*self as int)]
    }

    open spec fn flag(&self) -> bool {
        false
    }

    open spec fn optional(&self) -> bool {
        false
    }

    fn to_flags(&self) -> (tokens: Vec<String>) {
        single(unsigned_text(*self))
    }

    fn is_flag(&self) -> (b: bool) {
        false
    }

    fn is_value(&self) -> (b: bool) {
        true
    }

    fn is_optional(&self) -> (b: bool) {
        false
    }
}

impl ToFlags for u64 {
    open spec fn tokens(&self) -> Seq<Seq<char>> {
        seq![int_text(*self as int)]
    }

    open spec fn flag(&self) -> bool {
        false
    }

    open spec fn optional(&self) -> bool {
        false
    }

    fn to_flags(&self) -> (tokens: Vec<String>) {
        single(unsigned_text(*self as u128))
    }

    fn is_flag(&self) -> (b: bool) {
        false
    }

    fn is_value(&self) -> (b: bool) {
        true
    }

    fn is_optional(&self) -> (b: bool) {
        false
    }
}

impl ToFlags for u32 {
    open spec fn tokens(&self) -> Seq<Seq<char>> {
        seq![int_text(*self as int)]
    }

    open spec fn flag(&self) -> bool {
        false
    }

    open spec fn optional(&self) -> bool {
        false
    }

    fn to_flags(&self) -> (tokens: Vec<String>) {
        single(unsigned_text(*self as u128))
    }

    fn is_flag(&self) -> (b: bool) {
        false
    }

    fn is_value(&self) -> (b: bool) {
        true
    }

    fn is_optional(&self) -> (b: bool) {
        false
    }
}

impl ToFlags for u16 {
    open spec fn tokens(&self) -> Seq<Seq<char>> {
        seq![int_text(*self as int)]
    }

    open spec fn flag(&self) -> bool {
        false
    }

    open spec fn optional(&self) -> bool {
        false
    }

    fn to_flags(&self) -> (tokens: Vec<String>) {
        single(unsigned_text(*self as u128))
    }

    fn is_flag(&self) -> (b: bool) {
        false
    }

    fn is_value(&self) -> (b: bool) {
        true
    }

    fn is_optional(&self) -> (b: bool) {
        false
    }
}

impl ToFlags for u8 {
    open spec fn tokens(&self) -> Seq<Seq<char>> {
        seq![int_text(*self as int)]
    }

    open spec fn flag(&self) -> bool {
        false
    }

    open spec fn optional(&self) -> bool {
        false
    }

    fn to_flags(&self) -> (tokens: Vec<String>) {
        single(unsigned_text(*self as u128))
    }

    fn is_flag(&self) -> (b: bool) {
        false
    }

    fn is_value(&self) -> (b: bool) {
        true
    }

    fn is_optional(&self) -> (b: bool) {
        false
    }
}

impl ToFlags for usize {
    open spec fn tokens(&self) -> Seq<Seq<char>> {
        seq![int_text(*self as int)]
    }

    open spec fn flag(&self) -> bool {
        false
    }

    open spec fn optional(&self) -> bool {
        false
    }

    fn to_flags(&self) -> (tokens: Vec<String>) {
        single(unsigned_text(*self as u128))
    }

    fn is_flag(&self) -> (b: bool) {
        false
    }

    fn is_value(&self) -> (b: bool) {
        true
    }

    fn is_optional(&self) -> (b: bool) {
        false
    }
}

impl ToFlags for bool {
    open spec fn tokens(&self) -> Seq<Seq<char>> {
        seq![bool_text(*self)]
    }

    open spec fn flag(&self) -> bool {
        false
    }

    open spec fn optional(&self) -> bool {
        false
    }

    fn to_flags(&self) -> (tokens: Vec<String>) {
        single(bool_to_text(*self))
    }

    fn is_flag(&self) -> (b: bool) {
        false
    }

    fn is_value(&self) -> (b: bool) {
        true
    }

    fn is_optional(&self) -> (b: bool) {
        false
    }
}

impl ToFlags for char {
    open spec fn tokens(&self) -> Seq<Seq<char>> {
        seq![char_literal(*self)]
    }

    open spec fn flag(&self) -> bool {
        false
    }

    open spec fn optional(&self) -> bool {
        false
    }

    fn to_flags(&self) -> (tokens: Vec<String>) {
        single(char_debug(*self))
    }

    fn is_flag(&self) -> (b: bool) {
        false
    }

    fn is_value(&self) -> (b: bool) {
        true
    }

    fn is_optional(&self) -> (b: bool) {
        false
    }
}

impl ToFlags for std::path::PathBuf {
    open spec fn tokens(&self) -> Seq<Seq<char>> {
        seq![path_text(*self)]
    }

    open spec fn flag(&self) -> bool {
        false
    }

    open spec fn optional(&self) -> bool {
        false
    }

    fn to_flags(&self) -> (tokens: Vec<String>) {
        single(path_display(self))
    }

    fn is_flag(&self) -> (b: bool) {
        false
    }

    fn is_value(&self) -> (b: bool) {
        true
    }

    fn is_optional(&self) -> (b: bool) {
        false
    }
}

/// The first token of each item, in order; the empty text for an item that
/// encodes to nothing.
pub open spec fn first_tokens<T: ToFlags>(items: Seq<T>) -> Seq<Seq<char>> {
    Seq::new(items.len(), |i: int| first_or_empty(items[i].tokens()))
}

impl<T: ToFlags> ToFlags for Vec<T> {
    open spec fn tokens(&self) -> Seq<Seq<char>> {
        seq![joined(first_tokens(self@), seq![','])]
    }

    open spec fn flag(&self) -> bool {
        false
    }

    open spec fn optional(&self) -> bool {
        false
    }

    fn to_flags(&self) -> (tokens: Vec<String>) {
        let mut out = String::new();
        let mut i: usize = 0;
        while i < self.len()
            invariant
                i <= self.len(),
                out@ == joined(first_tokens(self@.take(i as int)), seq![',']),
            decreases self.len() - i,
        {
            let tokens = self[i].to_flags();
            if i > 0 {
                push_char(&mut out, ',');
            }
            push_first(&mut out, &tokens);
            proof {
                let before = first_tokens(self@.take(i as int));
                let after = first_tokens(self@.take(i + 1));
                assert(after.drop_last() =~= before);
                assert(out@ =~= joined(after, seq![',']));
            }
            i += 1;
        }
        proof {
            assert(self@.take(self.len() as int) =~= self@);
        }
        single(out)
    }

    fn is_flag(&self) -> (b: bool) {
        false
    }

    fn is_value(&self) -> (b: bool) {
        true
    }

    fn is_optional(&self) -> (b: bool) {
        false
    }
}

impl<T: ToFlags, G: ToFlags> ToFlags for (T, G) {
    open spec fn tokens(&self) -> Seq<Seq<char>> {
        seq![arrow(first_or_empty(self.0.tokens()), first_or_empty(self.1.tokens()))]
    }

    open spec fn flag(&self) -> bool {
        false
    }

    open spec fn optional(&self) -> bool {
        false
    }

    fn to_flags(&self) -> (tokens: Vec<String>) {
        let left = self.0.to_flags();
        let right = self.1.to_flags();
        single(join_pair(&left, &right))
    }

    fn is_flag(&self) -> (b: bool) {
        false
    }

    fn is_value(&self) -> (b: bool) {
        true
    }

    fn is_optional(&self) -> (b: bool) {
        false
    }
}

impl<T: ToFlags> ToFlags for Option<T> {
    open spec fn tokens(&self) -> Seq<Seq<char>> {
        match self {
            Some(inner) => inner.tokens(),
            None => Seq::empty(),
        }
    }

    open spec fn flag(&self) -> bool {
        match self {
            Some(inner) => inner.flag(),
            None => false,
        }
    }

    open spec fn optional(&self) -> bool {
        true
    }

    fn to_flags(&self) -> (tokens: Vec<String>) {
        match self {
            Some(inner) => inner.to_flags(),
            None => no_tokens(),
        }
    }

    fn is_flag(&self) -> (b: bool) {
        match self {
            Some(inner) => inner.is_flag(),
            None => false,
        }
    }

    fn is_value(&self) -> (b: bool) {
        !self.is_flag()
    }

    fn is_optional(&self) -> (b: bool) {
        true
    }
}

/// The tokens that a field adds, by its name and its value.
pub open spec fn added<T: ToFlags>(name: Seq<char>, value: T) -> Seq<Seq<char>> {
    contribution(name, value.optional(), value.flag(), value.tokens())
}

/// Appends to `out` what a field of the given name and value adds.
pub fn push_flags<T: ToFlags>(out: &mut Vec<String>, name: &str, value: &T)
    ensures
        texts(final(out)@) == texts(old(out)@) + added(name@, *value),
{
    let optional = value.is_optional();
    let flag = value.is_flag();
    let encoded = value.to_flags();
    push_field(out, name, optional, flag, encoded);
}

} // verus!
