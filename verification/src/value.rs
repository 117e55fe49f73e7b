//! The kinds of value that can be rendered, how each is classified, and the
//! tokens each encodes to.

use vstd::prelude::*;
use vstd::string::*;
use crate::flatten::to_flags;
use crate::names::hyphenated;
use crate::text::{
    bool_text, bool_to_text, char_debug, char_literal, int_text, path_display, path_text,
    push_char, signed_text, texts, unsigned_text,
};

verus! {

/// A value that can be rendered as command-line tokens.
#[derive(Debug, PartialEq, Eq)]
pub enum Value {
    /// A boolean, rendered as `true` or `false`.
    Bool(bool),
    /// A signed integer of any width, rendered in decimal.
    Signed(i128),
    /// An unsigned integer of any width, rendered in decimal.
    Unsigned(u128),
    /// A character, rendered as its quoted literal.
    Char(char),
    /// Text, rendered as it is.
    Text(String),
    /// A filesystem path, held in its display form and rendered as it is.
    Path(String),
    /// A value of any other kind, held as its debug text. This is the least
    /// precise rendering: the text is passed through unchanged.
    Other(String),
    /// A value that may be absent.
    Optional(Option<Box<Value>>),
    /// An ordered sequence of values.
    Sequence(Vec<Value>),
    /// Two values, in order.
    Pair(Box<Value>, Box<Value>),
    /// A nested record: its fields in declared order.
    Record(Vec<Field>),
}

/// A named field of a record or variant.
#[derive(Debug, PartialEq, Eq)]
pub struct Field {
    /// The field's name as declared.
    pub name: String,
    /// The field's value.
    pub value: Value,
}

/// How a field holding a value is rendered.
#[derive(Clone, Copy, PartialEq, Eq, Debug)]
pub struct Capability {
    /// The value's tokens stand without a `--key` before them.
    pub is_flag: bool,
    /// The field vanishes when the value encodes to nothing.
    pub is_optional: bool,
}

/// The first token of a token list, or the empty text if there is none.
pub open spec fn first_or_empty(tokens: Seq<Seq<char>>) -> Seq<char> {
    if tokens.len() > 0 {
        tokens[0]
    } else {
        Seq::empty()
    }
}

/// The parts in order, with `sep` between each two neighbours.
pub open spec fn joined(parts: Seq<Seq<char>>, sep: Seq<char>) -> Seq<char>
    decreases parts.len(),
{
    if parts.len() == 0 {
        Seq::empty()
    } else if parts.len() == 1 {
        parts[0]
    } else {
        joined(parts.drop_last(), sep) + sep + parts.last()
    }
}

/// The text of a pair: left side, `->`, right side.
pub open spec fn arrow(left: Seq<char>, right: Seq<char>) -> Seq<char> {
    left + seq!['-', '>'] + right
}

/// The key token of a field: two hyphens before the field's flag key.
pub open spec fn key_token(name: Seq<char>) -> Seq<char> {
    seq!['-', '-'] + hyphenated(name)
}

/// The tokens that one field adds to the output, given its name, its
/// classification and the tokens of its value.
pub open spec fn contribution(
    name: Seq<char>,
    optional: bool,
    flag: bool,
    encoded: Seq<Seq<char>>,
) -> Seq<Seq<char>> {
    if optional {
        if encoded.len() > 0 {
            seq![key_token(name)] + encoded
        } else {
            Seq::empty()
        }
    } else if flag {
        encoded
    } else {
        seq![key_token(name)] + encoded
    }
}

/// Whether a field holding `v` vanishes when `v` encodes to nothing.
pub open spec fn is_optional(v: Value) -> bool {
    v is Optional
}

/// Whether the tokens of `v` stand without a key: true of a record, and of a
/// present optional whose inner value is so.
pub open spec fn is_flag(v: Value) -> bool
    decreases v,
{
    match v {
        Value::Record(_) => true,
        Value::Optional(Some(inner)) => is_flag(*inner),
        _ => false,
    }
}

/// The tokens that `v` encodes to.
pub open spec fn encoding(v: Value) -> Seq<Seq<char>>
    decreases v, 0nat,
{
    match v {
        Value::Bool(b) => seq![bool_text(b)],
        Value::Signed(i) => seq![int_text(i as int)],
        Value::Unsigned(u) => seq![int_text(u as int)],
        Value::Char(c) => seq![char_literal(c)],
        Value::Text(s) => seq![s@],
        Value::Path(s) => seq![s@],
        Value::Other(s) => seq![s@],
        Value::Optional(None) => Seq::empty(),
        Value::Optional(Some(inner)) => encoding(*inner),
        Value::Sequence(items) => seq![joined(firsts(items, items.len() as nat), seq![','])],
        Value::Pair(left, right) => seq![
            arrow(first_or_empty(encoding(*left)), first_or_empty(encoding(*right))),
        ],
        Value::Record(fields) => record_tokens(fields, fields.len() as nat),
    }
}

/// The first token of each of the first `n` items, in order; the empty text
/// for an item that encodes to nothing.
pub open spec fn firsts(items: Vec<Value>, n: nat) -> Seq<Seq<char>>
    decreases items, n,
{
    if n == 0 || n > items.len() {
        Seq::empty()
    } else {
        firsts(items, (n - 1) as nat).push(first_or_empty(encoding(items[n - 1])))
    }
}

/// The tokens of the first `n` fields of a record: each field's contribution
/// in declared order.
pub open spec fn record_tokens(fields: Vec<Field>, n: nat) -> Seq<Seq<char>>
    decreases fields, n,
{
    if n == 0 || n > fields.len() {
        Seq::empty()
    } else {
        record_tokens(fields, (n - 1) as nat) + contribution(
            fields[n - 1].name@,
            is_optional(fields[n - 1].value),
            is_flag(fields[n - 1].value),
            encoding(fields[n - 1].value),
        )
    }
}

/// What a field adds to the output.
pub open spec fn field_tokens(f: Field) -> Seq<Seq<char>> {
    contribution(f.name@, is_optional(f.value), is_flag(f.value), encoding(f.value))
}

/// The first `n` items yield `n` first tokens.
pub proof fn lemma_firsts_len(items: Vec<Value>, n: nat)
    requires
        n <= items.len(),
    ensures
        firsts(items, n).len() == n,
    decreases n,
{
    if n > 0 {
        lemma_firsts_len(items, (n - 1) as nat);
    }
}

/// The token at place `i` among the first tokens is that of item `i`.
pub proof fn lemma_firsts_index(items: Vec<Value>, n: nat, i: int)
    requires
        n <= items.len(),
        0 <= i < n,
    ensures
        firsts(items, n).len() == n,
        firsts(items, n)[i] == first_or_empty(encoding(items[i])),
    decreases n,
{
    lemma_firsts_len(items, n);
    lemma_firsts_len(items, (n - 1) as nat);
    if i < n - 1 {
        lemma_firsts_index(items, (n - 1) as nat, i);
    }
}

/// How a field holding `v` is rendered.
pub fn classify(v: &Value) -> (c: Capability)
    ensures
        c.is_flag == is_flag(*v),
        c.is_optional == is_optional(*v),
    decreases v,
{
    match v {
        Value::Record(_) => Capability { is_flag: true, is_optional: false },
        Value::Optional(Some(inner)) => {
            let within = classify(inner);
            Capability { is_flag: within.is_flag, is_optional: true }
        },
        Value::Optional(None) => Capability { is_flag: false, is_optional: true },
        _ => Capability { is_flag: false, is_optional: false },
    }
}

/// The value that stands for a path: its display form.
pub fn path_value(p: &std::path::PathBuf) -> (v: Value)
    ensures
        v matches Value::Path(s) && s@ == path_text(*p),
{
    Value::Path(path_display(p))
}

/// The first token of an encoded value, or the empty text, appended to `out`.
pub fn push_first(out: &mut String, tokens: &Vec<String>)
    ensures
        final(out)@ == old(out)@ + first_or_empty(texts(tokens@)),
{
    if tokens.len() > 0 {
        out.append(tokens[0].as_str());
    } else {
        assert(final(out)@ =~= old(out)@ + Seq::<char>::empty());
    }
}

/// The single token of a sequence: the first token of each item, joined by
/// commas in the order of the items.
pub fn join_firsts(items: &Vec<Value>) -> (r: String)
    ensures
        r@ == joined(firsts(*items, items.len() as nat), seq![',']),
    decreases *items, items.len(),
{
    let mut out = String::new();
    let mut i: usize = 0;
    while i < items.len()
        invariant
            i <= items.len(),
            out@ == joined(firsts(*items, i as nat), seq![',']),
        decreases items.len() - i,
    {
        let tokens = encode(&items[i]);
        if i > 0 {
            push_char(&mut out, ',');
        }
        push_first(&mut out, &tokens);
        proof {
            lemma_firsts_len(*items, i as nat);
            let before = firsts(*items, i as nat);
            let after = firsts(*items, (i + 1) as nat);
            assert(after.drop_last() =~= before);
            assert(out@ =~= joined(after, seq![',']));
        }
        i += 1;
    }
    out
}

/// The single token of a pair: the first token of the left side, `->`, the
/// first token of the right side.
pub fn join_pair(left: &Vec<String>, right: &Vec<String>) -> (r: String)
    ensures
        r@ == arrow(first_or_empty(texts(left@)), first_or_empty(texts(right@))),
{
    let mut out = String::new();
    push_first(&mut out, left);
    push_char(&mut out, '-');
    push_char(&mut out, '>');
    push_first(&mut out, right);
    assert(out@ =~= arrow(first_or_empty(texts(left@)), first_or_empty(texts(right@))));
    out
}

/// The token list without a token.
pub fn no_tokens() -> (tokens: Vec<String>)
    ensures
        texts(tokens@) == Seq::<Seq<char>>::empty(),
{
    let tokens: Vec<String> = Vec::new();
    assert(texts(tokens@) =~= Seq::<Seq<char>>::empty());
    tokens
}

/// A token list of the one token `token`.
pub fn single(token: String) -> (tokens: Vec<String>)
    ensures
        texts(tokens@) == seq![token@],
{
    let mut tokens: Vec<String> = Vec::new();
    tokens.push(token);
    assert(texts(tokens@) =~= seq![token@]);
    tokens
}

/// Encodes a value as its tokens. The key of the field that holds the value
/// is not among them.
pub fn encode(v: &Value) -> (tokens: Vec<String>)
    ensures
        texts(tokens@) == encoding(*v),
    decreases v, 0nat,
{
    match v {
        Value::Bool(b) => single(bool_to_text(*b)),
        Value::Signed(i) => single(signed_text(*i)),
        Value::Unsigned(u) => single(unsigned_text(*u)),
        Value::Char(c) => single(char_debug(*c)),
        Value::Text(s) => single(s.clone()),
        Value::Path(s) => single(s.clone()),
        Value::Other(s) => single(s.clone()),
        Value::Optional(None) => no_tokens(),
        Value::Optional(Some(inner)) => encode(inner),
        Value::Sequence(items) => single(join_firsts(items)),
        Value::Pair(left, right) => {
            let l = encode(left);
            let r = encode(right);
            single(join_pair(&l, &r))
        },
        Value::Record(fields) => to_flags(fields),
    }
}

/// Whether the character `c` occurs nowhere in `s`.
pub open spec fn lacks(s: Seq<char>, c: char) -> bool {
    forall|i: int| 0 <= i < s.len() ==> #[trigger] s[i] != c
}

/// A sequence encodes to exactly one token: the first tokens of its items,
/// one for each item and in the order of the items, joined by commas.
pub proof fn lemma_sequence_keeps_order(items: Vec<Value>)
    ensures
        encoding(Value::Sequence(items)) == seq![
            joined(firsts(items, items.len() as nat), seq![',']),
        ],
        firsts(items, items.len() as nat).len() == items.len(),
        forall|i: int|
            0 <= i < items.len() ==> #[trigger] firsts(items, items.len() as nat)[i]
                == first_or_empty(encoding(items[i])),
{
    lemma_firsts_len(items, items.len() as nat);
    assert forall|i: int| 0 <= i < items.len() implies #[trigger] firsts(
        items,
        items.len() as nat,
    )[i] == first_or_empty(encoding(items[i])) by {
        lemma_firsts_index(items, items.len() as nat, i);
    }
}

/// The parts of a text that its commas divide it into, in order. A text
/// without a comma is one part.
pub open spec fn comma_parts(s: Seq<char>) -> Seq<Seq<char>>
    decreases s.len(),
{
    if s.len() == 0 {
        seq![Seq::empty()]
    } else {
        let front = comma_parts(s.drop_last());
        if s.last() == ',' {
            front.push(Seq::empty())
        } else {
            front.drop_last().push(front.last().push(s.last()))
        }
    }
}

/// Every text has at least one part.
pub proof fn lemma_comma_parts_nonempty(s: Seq<char>)
    ensures
        comma_parts(s).len() >= 1,
    decreases s.len(),
{
    if s.len() > 0 {
        lemma_comma_parts_nonempty(s.drop_last());
    }
}

/// A text without a comma, put behind another, lengthens that one's last
/// part.
pub proof fn lemma_comma_parts_extend(s: Seq<char>, t: Seq<char>)
    requires
        lacks(t, ','),
    ensures
        comma_parts(s).len() >= 1,
        comma_parts(s + t) == comma_parts(s).drop_last().push(comma_parts(s).last() + t),
    decreases t.len(),
{
    lemma_comma_parts_nonempty(s);
    let parts = comma_parts(s);
    if t.len() == 0 {
        assert(s + t =~= s);
        assert(parts.last() + t =~= parts.last());
        assert(parts.drop_last().push(parts.last()) =~= parts);
    } else {
        let shorter = t.drop_last();
        assert(lacks(shorter, ',')) by {
            assert forall|i: int| 0 <= i < shorter.len() implies #[trigger] shorter[i] != ',' by {
                assert(shorter[i] == t[i]);
            }
        }
        lemma_comma_parts_extend(s, shorter);
        assert((s + t).drop_last() =~= s + shorter);
        assert((s + t).last() == t[t.len() - 1]);
        assert((parts.last() + shorter).push(t.last()) =~= parts.last() + t);
        assert(comma_parts(s + t) =~= parts.drop_last().push(parts.last() + t));
    }
}

/// Dividing at the commas undoes the joining by commas: where there is at
/// least one part and no part holds a comma, the parts come back, each in its
/// place.
pub proof fn lemma_comma_parts_of_joined(parts: Seq<Seq<char>>)
    requires
        parts.len() >= 1,
        forall|i: int| 0 <= i < parts.len() ==> lacks(#[trigger] parts[i], ','),
    ensures
        comma_parts(joined(parts, seq![','])) == parts,
    decreases parts.len(),
{
    let empty = Seq::<char>::empty();
    if parts.len() == 1 {
        lemma_comma_parts_extend(empty, parts[0]);
        assert(empty + parts[0] =~= parts[0]);
        assert(comma_parts(empty) =~= seq![empty]);
        assert(comma_parts(parts[0]) =~= parts);
    } else {
        let front = parts.drop_last();
        assert forall|i: int| 0 <= i < front.len() implies lacks(#[trigger] front[i], ',') by {
            assert(front[i] == parts[i]);
        }
        lemma_comma_parts_of_joined(front);
        let head = joined(front, seq![',']) + seq![','];
        assert(head.drop_last() =~= joined(front, seq![',']));
        assert(comma_parts(head) == front.push(empty));
        lemma_comma_parts_extend(head, parts.last());
        assert(empty + parts.last() =~= parts.last());
        assert(front.push(empty).drop_last().push(parts.last()) =~= parts);
    }
}

/// The token of a sequence, divided at its commas, gives the first tokens
/// of the items, one for each item and in the order of the items, where the
/// sequence has an item and none of those tokens holds a comma.
pub proof fn lemma_sequence_parts(items: Vec<Value>)
    requires
        items.len() >= 1,
        forall|i: int|
            0 <= i < items.len() ==> lacks(first_or_empty(encoding(#[trigger] items[i])), ','),
    ensures
        comma_parts(encoding(Value::Sequence(items))[0]) == firsts(items, items.len() as nat),
{
    lemma_sequence_keeps_order(items);
    let parts = firsts(items, items.len() as nat);
    assert forall|i: int| 0 <= i < parts.len() implies lacks(#[trigger] parts[i], ',') by {
        assert(parts[i] == first_or_empty(encoding(items[i])));
    }
    lemma_comma_parts_of_joined(parts);
}

/// Two texts joined by an arrow read differently in the two orders when they
/// differ and either have the same length or hold no `>`.
pub proof fn lemma_arrow_order_matters(left: Seq<char>, right: Seq<char>)
    requires
        left != right,
        left.len() == right.len() || (lacks(left, '>') && lacks(right, '>')),
    ensures
        arrow(left, right) != arrow(right, left),
{
    let x = arrow(left, right);
    let y = arrow(right, left);
    if left.len() == right.len() {
        assert(x.subrange(0, left.len() as int) =~= left);
        assert(y.subrange(0, left.len() as int) =~= right);
    } else if left.len() < right.len() {
        let k: int = left.len() as int + 1;
        assert(x[k] == '>');
        if k < right.len() {
            assert(y[k] == right[k]);
        } else {
            assert(y[k] == '-');
        }
    } else {
        let k: int = right.len() as int + 1;
        assert(y[k] == '>');
        if k < left.len() {
            assert(x[k] == left[k]);
        } else {
            assert(x[k] == '-');
        }
    }
}

/// The two orders of a pair encode differently when the first tokens of the
/// two sides differ and either have the same length or hold no `>`.
pub proof fn lemma_pair_order_matters(a: Value, b: Value)
    requires
        first_or_empty(encoding(a)) != first_or_empty(encoding(b)),
        first_or_empty(encoding(a)).len() == first_or_empty(encoding(b)).len() || (lacks(
            first_or_empty(encoding(a)),
            '>',
        ) && lacks(first_or_empty(encoding(b)), '>')),
    ensures
        encoding(Value::Pair(Box::new(a), Box::new(b))) != encoding(
            Value::Pair(Box::new(b), Box::new(a)),
        ),
{
    let left = first_or_empty(encoding(a));
    let right = first_or_empty(encoding(b));
    lemma_arrow_order_matters(left, right);
    assert(encoding(Value::Pair(Box::new(a), Box::new(b)))[0] == arrow(left, right));
    assert(encoding(Value::Pair(Box::new(b), Box::new(a)))[0] == arrow(right, left));
}

} // verus!
