//! Assembly of the token list of a record or of a variant from its fields.

use vstd::prelude::*;
use vstd::string::*;
use crate::names::{flag_key, kebab, kebab_case};
use crate::text::{push_char, texts};
use crate::value::{
    classify, contribution, encode, encoding, field_tokens, is_flag, is_optional, key_token,
    no_tokens, record_tokens, single, Field, Value,
};

verus! {

/// The tokens of a variant or named record: its name in kebab case, then the
/// tokens of its fields.
pub open spec fn flattened(name: Seq<char>, fields: Vec<Field>) -> Seq<Seq<char>> {
    seq![kebab(name)] + record_tokens(fields, fields.len() as nat)
}

/// The views of two token lists, one after the other, are the view of the
/// lists joined.
pub proof fn lemma_texts_concat(a: Seq<String>, b: Seq<String>)
    ensures
        texts(a + b) == texts(a) + texts(b),
{
    assert(texts(a + b) =~= texts(a) + texts(b));
}

/// The key token of a field: `--` before its flag key.
pub fn key_for(name: &str) -> (r: String)
    ensures
        r@ == key_token(name@),
{
    let key = flag_key(name);
    let mut out = String::new();
    push_char(&mut out, '-');
    push_char(&mut out, '-');
    out.append(key.as_str());
    assert(out@ =~= key_token(name@));
    out
}

/// Appends to `out` what one field adds: nothing for an optional field whose
/// value encodes to nothing; the encoded tokens alone for a flag; else the
/// key token and then the encoded tokens.
pub fn push_field(
    out: &mut Vec<String>,
    name: &str,
    optional: bool,
    flag: bool,
    encoded: Vec<String>,
)
    ensures
        texts(final(out)@) == texts(old(out)@) + contribution(
            name@,
            optional,
            flag,
            texts(encoded@),
        ),
{
    let mut encoded = encoded;
    let ghost tokens = encoded@;
    let keyed = if optional {
        encoded.len() > 0
    } else {
        !flag
    };
    if optional && !keyed {
        assert(texts(out@) =~= texts(old(out)@) + Seq::<Seq<char>>::empty());
    } else {
        if keyed {
            let key = key_for(name);
            out.push(key);
        }
        let ghost mid = out@;
        out.append(&mut encoded);
        proof {
            lemma_texts_concat(mid, tokens);
            if keyed {
                assert(texts(mid) =~= texts(old(out)@).push(key_token(name@)));
                assert(texts(out@) =~= texts(old(out)@) + (seq![key_token(name@)] + texts(tokens)));
            }
        }
    }
}

/// Appends the tokens of every field, in declared order.
fn push_fields(out: &mut Vec<String>, fields: &Vec<Field>)
    ensures
        texts(final(out)@) == texts(old(out)@) + record_tokens(*fields, fields.len() as nat),
    decreases *fields, fields.len(),
{
    let mut i: usize = 0;
    assert(texts(out@) =~= texts(old(out)@) + record_tokens(*fields, 0));
    while i < fields.len()
        invariant
            i <= fields.len(),
            texts(out@) == texts(old(out)@) + record_tokens(*fields, i as nat),
        decreases fields.len() - i,
    {
        let field = &fields[i];
        let capability = classify(&field.value);
        let encoded = encode(&field.value);
        push_field(
            out,
            field.name.as_str(),
            capability.is_optional,
            capability.is_flag,
            encoded,
        );
        proof {
            assert(texts(out@) =~= texts(old(out)@) + record_tokens(*fields, (i + 1) as nat));
        }
        i += 1;
    }
}

/// The tokens of a record's fields, in declared order: what a nested record
/// splices into the output of the record that holds it.
pub fn to_flags(fields: &Vec<Field>) -> (tokens: Vec<String>)
    ensures
        texts(tokens@) == record_tokens(*fields, fields.len() as nat),
    decreases *fields, fields.len() + 1,
{
    let mut out = no_tokens();
    push_fields(&mut out, fields);
    assert(texts(out@) =~= record_tokens(*fields, fields.len() as nat));
    out
}

/// The token list of a variant before any of its fields: its name in kebab
/// case and nothing else.
pub fn start(name: &str) -> (tokens: Vec<String>)
    ensures
        texts(tokens@) == seq![kebab(name@)],
{
    single(kebab_case(name))
}

/// The tokens of a variant: its name in kebab case, then the tokens of its
/// fields in declared order.
pub fn to_subcommand(name: &str, fields: &Vec<Field>) -> (tokens: Vec<String>)
    ensures
        texts(tokens@) == flattened(name@, *fields),
{
    let mut out = start(name);
    push_fields(&mut out, fields);
    out
}

/// The tokens of a variant or named record; the same as [`to_subcommand`].
pub fn flatten(name: &str, fields: &Vec<Field>) -> (tokens: Vec<String>)
    ensures
        texts(tokens@) == flattened(name@, *fields),
{
    to_subcommand(name, fields)
}

/// The number of tokens that a field adds: none for an optional field whose
/// value encodes to nothing; the number of encoded tokens for a flag; else
/// one more than that, for the key.
pub open spec fn field_count(f: Field) -> nat {
    let n = encoding(f.value).len();
    if is_optional(f.value) {
        if n > 0 {
            1 + n
        } else {
            0
        }
    } else if is_flag(f.value) {
        n
    } else {
        1 + n
    }
}

/// The sum of what each of the first `n` fields adds.
pub open spec fn total_count(fields: Vec<Field>, n: nat) -> nat
    decreases n,
{
    if n == 0 || n > fields.len() {
        0
    } else {
        total_count(fields, (n - 1) as nat) + field_count(fields[n - 1])
    }
}

/// Whether none of the fields is optional with a value that encodes to
/// nothing.
pub open spec fn all_present(fields: Vec<Field>) -> bool {
    forall|i: int|
        0 <= i < fields.len() ==> (is_optional(#[trigger] fields[i].value) ==> encoding(
            fields[i].value,
        ).len() > 0)
}

/// A variant without fields encodes to one token, its name in kebab case.
pub proof fn lemma_unit_variant(name: Seq<char>, fields: Vec<Field>)
    requires
        fields.len() == 0,
    ensures
        flattened(name, fields) == seq![kebab(name)],
{
    assert(flattened(name, fields) =~= seq![kebab(name)]);
}

/// The tokens of the first `n` fields are as many as the fields' counts sum
/// up to.
pub proof fn lemma_record_count(fields: Vec<Field>, n: nat)
    requires
        n <= fields.len(),
    ensures
        record_tokens(fields, n).len() == total_count(fields, n),
    decreases n,
{
    if n > 0 {
        lemma_record_count(fields, (n - 1) as nat);
    }
}

/// The output has one token for the name and then what each field adds. A
/// field that is a flag and not optional adds its encoded tokens; any other
/// field, unless it is optional and encodes to nothing, adds one token more,
/// its key.
pub proof fn lemma_token_count(name: Seq<char>, fields: Vec<Field>)
    ensures
        flattened(name, fields).len() == 1 + total_count(fields, fields.len() as nat),
        all_present(fields) ==> forall|i: int|
            0 <= i < fields.len() ==> #[trigger] field_count(fields[i]) == (if is_flag(
                fields[i].value,
            ) && !is_optional(fields[i].value) {
                encoding(fields[i].value).len()
            } else {
                1 + encoding(fields[i].value).len()
            }),
{
    lemma_record_count(fields, fields.len() as nat);
}

/// What a field adds is what stood before it plus its own tokens: a field
/// changes neither the tokens nor the places of the fields before it.
pub proof fn lemma_fields_in_order(fields: Vec<Field>, n: nat)
    requires
        n < fields.len(),
    ensures
        record_tokens(fields, n + 1) == record_tokens(fields, n) + field_tokens(fields[n as int]),
        field_tokens(fields[n as int]).len() == field_count(fields[n as int]),
{
}

/// An absent optional field adds no token.
pub proof fn lemma_absent_optional(name: String)
    ensures
        field_tokens(Field { name, value: Value::Optional(None) }) == Seq::<Seq<char>>::empty(),
{
}

/// A present optional field whose value encodes to at least one token adds
/// its key and then those tokens; where the value is itself neither a flag
/// nor optional, that is what a mandatory field of that value adds.
pub proof fn lemma_present_optional(name: String, inner: Value)
    requires
        encoding(inner).len() > 0,
    ensures
        field_tokens(Field { name, value: Value::Optional(Some(Box::new(inner))) }) == seq![
            key_token(name@),
        ] + encoding(inner),
        field_tokens(Field { name, value: Value::Optional(Some(Box::new(inner))) }).len() == 1
            + encoding(inner).len(),
        !is_flag(inner) && !is_optional(inner) ==> field_tokens(
            Field { name, value: Value::Optional(Some(Box::new(inner))) },
        ) == field_tokens(Field { name, value: inner }),
{
}

} // verus!
