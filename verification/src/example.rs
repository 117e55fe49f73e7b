//! Two small types that show how a type of one's own is rendered: an
//! enumeration rendered as a word, and a record rendered field by field.

use vstd::prelude::*;
use vstd::string::*;
use crate::flatten::start;
use crate::names::kebab;
use crate::traits::{added, push_flags, ToFlags, ToSubcommand};
use crate::value::{no_tokens, single};

verus! {

/// A mode of operation, rendered as its name in lower case.
#[derive(Clone, Copy, Debug, PartialEq, Eq)]
pub enum Modes {
    One,
    Two,
    Three,
}

impl Modes {
    /// The word that the mode is rendered as.
    pub open spec fn word(&self) -> Seq<char> {
        match self {
            Modes::One => seq!['o', 'n', 'e'],
            Modes::Two => seq!['t', 'w', 'o'],
            Modes::Three => seq!['t', 'h', 'r', 'e', 'e'],
        }
    }

    /// The word that the mode is rendered as: `one`, `two` or `three`.
    pub fn label(&self) -> (r: String)
        ensures
            r@ == self.word(),
    {
        proof {
            reveal_strlit("one");
            reveal_strlit("two");
            reveal_strlit("three");
        }
        let r = match self {
            Modes::One => String::from_str("one"),
            Modes::Two => String::from_str("two"),
            Modes::Three => String::from_str("three"),
        };
        assert(r@ =~= self.word());
        r
    }
}

impl ToFlags for Modes {
    open spec fn tokens(&self) -> Seq<Seq<char>> {
        seq![self.word()]
    }

    open spec fn flag(&self) -> bool {
        false
    }

    open spec fn optional(&self) -> bool {
        false
    }

    fn to_flags(&self) -> (tokens: Vec<String>) {
        single(self.label())
    }

    fn is_flag(&self) -> (b: bool) {
        false
    }

    fn is_value(&self) -> (b: bool) {
        true
    }

    fn is_optional(&self) -> (b: bool) {
        false
    }
}

/// A record of three mandatory and two optional numbers. As a field of
/// another record it is spliced in: its own keys stand in the output, with no
/// key for the record itself.
#[derive(Clone, Debug, PartialEq, Eq)]
pub struct SubStruct {
    pub a: i32,
    pub b: i32,
    pub c: i32,
    pub d: Option<i32>,
    pub e: Option<i32>,
}

impl ToFlags for SubStruct {
    open spec fn tokens(&self) -> Seq<Seq<char>> {
        Seq::<Seq<char>>::empty() + added("a"@, self.a) + added("b"@, self.b) + added(
            "c"@,
            self.c,
        ) + added("d"@, self.d) + added("e"@, self.e)
    }

    open spec fn flag(&self) -> bool {
        true
    }

    open spec fn optional(&self) -> bool {
        false
    }

    fn to_flags(&self) -> (tokens: Vec<String>) {
        let mut out = no_tokens();
        push_flags(&mut out, "a", &self.a);
        push_flags(&mut out, "b", &self.b);
        push_flags(&mut out, "c", &self.c);
        push_flags(&mut out, "d", &self.d);
        push_flags(&mut out, "e", &self.e);
        out
    }

    fn is_flag(&self) -> (b: bool) {
        true
    }

    fn is_value(&self) -> (b: bool) {
        false
    }

    fn is_optional(&self) -> (b: bool) {
        false
    }
}

/// A command with one variant for each shape of field: texts and a path, no
/// field at all, numbers and booleans, names of several words, optional
/// fields and a nested record, pairs and sequences of pairs.
#[derive(Debug)]
pub enum Cmd {
    Mock { with: String, without: String, path: std::path::PathBuf },
    Empty,
    Run { with: String, without: String, and: i128, or: bool },
    Long { or_not: bool, and_not: i128, with_not: String, without_not: String },
    Nested {
        mode: Modes,
        level: i32,
        vec: Vec<i32>,
        opt: Option<i128>,
        opt2: Option<i128>,
        sub: SubStruct,
    },
    GenSomething { something_to_gen: usize, tuple: (i32, i32), variables: Vec<(i32, i32)> },
}

impl ToSubcommand for Cmd {
    open spec fn subcommand(&self) -> Seq<Seq<char>> {
        match *self {
            Cmd::Mock { with, without, path } => seq![kebab("Mock"@)] + added("with"@, with)
                + added("without"@, without) + added("path"@, path),
            Cmd::Empty => seq![kebab("Empty"@)],
            Cmd::Run { with, without, and, or } => seq![kebab("Run"@)] + added("with"@, with)
                + added("without"@, without) + added("and"@, and) + added("or"@, or),
            Cmd::Long { or_not, and_not, with_not, without_not } => seq![kebab("Long"@)] + added(
                "or_not"@,
                or_not,
            ) + added("and_not"@, and_not) + added("with_not"@, with_not) + added(
                "without_not"@,
                without_not,
            ),
            Cmd::Nested { mode, level, vec, opt, opt2, sub } => seq![kebab("Nested"@)] + added(
                "mode"@,
                mode,
            ) + added("level"@, level) + added("vec"@, vec) + added("opt"@, opt) + added(
                "opt2"@,
                opt2,
            ) + added("sub"@, sub),
            Cmd::GenSomething { something_to_gen, tuple, variables } => seq![
                kebab("GenSomething"@),
            ] + added("something_to_gen"@, something_to_gen) + added("tuple"@, tuple) + added(
                "variables"@,
                variables,
            ),
        }
    }

    fn to_subcommand(&self) -> (tokens: Vec<String>) {
        match self {
            Cmd::Mock { with, without, path } => {
                let mut out = start("Mock");
                push_flags(&mut out, "with", with);
                push_flags(&mut out, "without", without);
                push_flags(&mut out, "path", path);
                out
            },
            Cmd::Empty => start("Empty"),
            Cmd::Run { with, without, and, or } => {
                let mut out = start("Run");
                push_flags(&mut out, "with", with);
                push_flags(&mut out, "without", without);
                push_flags(&mut out, "and", and);
                push_flags(&mut out, "or", or);
                out
            },
            Cmd::Long { or_not, and_not, with_not, without_not } => {
                let mut out = start("Long");
                push_flags(&mut out, "or_not", or_not);
                push_flags(&mut out, "and_not", and_not);
                push_flags(&mut out, "with_not", with_not);
                push_flags(&mut out, "without_not", without_not);
                out
            },
            Cmd::Nested { mode, level, vec, opt, opt2, sub } => {
                let mut out = start("Nested");
                push_flags(&mut out, "mode", mode);
                push_flags(&mut out, "level", level);
                push_flags(&mut out, "vec", vec);
                push_flags(&mut out, "opt", opt);
                push_flags(&mut out, "opt2", opt2);
                push_flags(&mut out, "sub", sub);
                out
            },
            Cmd::GenSomething { something_to_gen, tuple, variables } => {
                let mut out = start("GenSomething");
                push_flags(&mut out, "something_to_gen", something_to_gen);
                push_flags(&mut out, "tuple", tuple);
                push_flags(&mut out, "variables", variables);
                out
            },
        }
    }
}

} // verus!
