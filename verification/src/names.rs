//! Normalisation of names: variant and record names to kebab case, field
//! names to flag keys.

use vstd::prelude::*;
use vstd::string::*;
use crate::text::{is_upper, lower_first, char_is_uppercase, char_to_lowercase, push_char};

verus! {

/// The output after one more character `c` of a name, given whether `c` is
/// uppercase and what its lowercase form is: an uppercase character becomes
/// its lowercase form, after a hyphen unless it opens the output; any other
/// character is kept.
pub open spec fn kebab_step(acc: Seq<char>, c: char, upper: bool, lower: char) -> Seq<char> {
    if upper {
        if acc.len() > 0 {
            acc.push('-').push(lower)
        } else {
            acc.push(lower)
        }
    } else {
        acc.push(c)
    }
}

/// The kebab-case form of a name, built character by character from the left.
pub open spec fn kebab(name: Seq<char>) -> Seq<char>
    decreases name.len(),
{
    if name.len() == 0 {
        Seq::empty()
    } else {
        let c = name.last();
        kebab_step(kebab(name.drop_last()), c, is_upper(c), lower_first(c))
    }
}

/// Whether no character of the name is uppercase.
pub open spec fn has_no_uppercase(name: Seq<char>) -> bool {
    forall|i: int| 0 <= i < name.len() ==> !is_upper(#[trigger] name[i])
}

/// The flag key of a field name: every underscore replaced by a hyphen.
pub open spec fn hyphenated(name: Seq<char>) -> Seq<char> {
    Seq::new(
        name.len(),
        |i: int|
            if name[i] == '_' {
                '-'
            } else {
                name[i]
            },
    )
}

/// Extends `acc` by the kebab-case form of one character of a name.
pub fn push_kebab(acc: &mut String, c: char, upper: bool, lower: char)
    ensures
        final(acc)@ == kebab_step(old(acc)@, c, upper, lower),
{
    if upper {
        if acc.as_str().unicode_len() > 0 {
            push_char(acc, '-');
        }
        push_char(acc, lower);
    } else {
        push_char(acc, c);
    }
}

/// Normalises a variant or record name to kebab case.
pub fn kebab_case(name: &str) -> (r: String)
    ensures
        r@ == kebab(name@),
{
    let n: usize = name.unicode_len();
    let mut out = String::new();
    let mut i: usize = 0;
    while i < n
        invariant
            n == name@.len(),
            i <= n,
            out@ == kebab(name@.take(i as int)),
        decreases n - i,
    {
        let c = name.get_char(i);
        let upper = char_is_uppercase(c);
        let lower = char_to_lowercase(c);
        push_kebab(&mut out, c, upper, lower);
        proof {
            assert(name@.take(i + 1).drop_last() =~= name@.take(i as int));
        }
        i += 1;
    }
    proof {
        assert(name@.take(n as int) =~= name@);
    }
    out
}

/// Normalises a field name to its flag key.
pub fn flag_key(name: &str) -> (r: String)
    ensures
        r@ == hyphenated(name@),
{
    let n: usize = name.unicode_len();
    let mut out = String::new();
    let mut i: usize = 0;
    while i < n
        invariant
            n == name@.len(),
            i <= n,
            out@ == hyphenated(name@.take(i as int)),
        decreases n - i,
    {
        let c = name.get_char(i);
        if c == '_' {
            push_char(&mut out, '-');
        } else {
            push_char(&mut out, c);
        }
        proof {
            assert(out@ =~= hyphenated(name@.take(i + 1)));
        }
        i += 1;
    }
    proof {
        assert(name@.take(n as int) =~= name@);
    }
    out
}

/// The flag keys of the fields of one record or variant, in declared order.
pub fn flag_keys(names: &Vec<String>) -> (keys: Vec<String>)
    ensures
        keys.len() == names.len(),
        forall|i: int| 0 <= i < names.len() ==> (#[trigger] keys[i])@ == hyphenated(names[i]@),
{
    let mut keys: Vec<String> = Vec::new();
    let mut i: usize = 0;
    while i < names.len()
        invariant
            i <= names.len(),
            keys.len() == i,
            forall|k: int| 0 <= k < i ==> (#[trigger] keys[k])@ == hyphenated(names[k]@),
        decreases names.len() - i,
    {
        keys.push(flag_key(names[i].as_str()));
        i += 1;
    }
    keys
}

/// A name none of whose characters is uppercase is its own kebab-case form.
pub proof fn lemma_kebab_keeps_lowercase(name: Seq<char>)
    ensures
        has_no_uppercase(name) ==> kebab(name) == name,
    decreases name.len(),
{
    if has_no_uppercase(name) && name.len() > 0 {
        let front = name.drop_last();
        assert(has_no_uppercase(front)) by {
            assert forall|i: int| 0 <= i < front.len() implies !is_upper(#[trigger] front[i]) by {
                assert(front[i] == name[i]);
            }
        }
        lemma_kebab_keeps_lowercase(front);
        assert(!is_upper(name[name.len() - 1]));
        assert(front.push(name.last()) =~= name);
    } else if name.len() == 0 {
        assert(kebab(name) =~= name);
    }
}

/// Turning underscores into hyphens a second time changes nothing.
pub proof fn lemma_hyphenated_idempotent(name: Seq<char>)
    ensures
        hyphenated(hyphenated(name)) == hyphenated(name),
{
    assert(hyphenated(hyphenated(name)) =~= hyphenated(name));
}

} // verus!
