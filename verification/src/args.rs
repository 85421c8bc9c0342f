//! The argument vector of a linking request.
//!
//! The vector is described twice over. As a sequence of [`Token`]s it keeps
//! apart the words of the utility's vocabulary and the words of the caller; as
//! a sequence of words it is what the child process receives. The second is the
//! first with the distinction dropped ([`words`]).

use vstd::prelude::*;
use crate::options::{LinkOptions, LnOptions};

verus! {

/// One element of an argument vector.
pub ghost enum Token {
    /// A word of the utility's vocabulary, chosen by this library.
    Flag(Seq<char>),
    /// A word of the caller's, handed on unchanged: the value of an option, a
    /// target or the destination.
    Literal(Seq<char>),
}

impl Token {
    /// The word that the child process receives for this token.
    pub open spec fn text(self) -> Seq<char> {
        match self {
            Token::Flag(w) => w,
            Token::Literal(w) => w,
        }
    }
}

/// The words of a token sequence, in the same order, one word per token.
pub open spec fn words(tokens: Seq<Token>) -> Seq<Seq<char>> {
    tokens.map_values(|t: Token| t.text())
}

/// A flag without a value: present exactly when its field is set.
pub open spec fn switch(on: bool, flag: Seq<char>) -> Seq<Token> {
    if on {
        seq![Token::Flag(flag)]
    } else {
        Seq::empty()
    }
}

/// A flag with a value: the flag, then the value as a token of its own; nothing
/// when the field is unset.
pub open spec fn valued(flag: Seq<char>, value: Option<Seq<char>>) -> Seq<Token> {
    match value {
        Some(v) => seq![Token::Flag(flag), Token::Literal(v)],
        None => Seq::empty(),
    }
}

/// The backup policy: a named policy wins over the plain `-b`.
pub open spec fn backup_tokens(o: LinkOptions) -> Seq<Token> {
    match o.backup {
        Some(control) => seq![Token::Flag(control.flag_spec())],
        None => switch(o.make_backup, "-b"@),
    }
}

/// The seven flags without a value, in their fixed order.
pub open spec fn toggle_tokens(o: LinkOptions) -> Seq<Token> {
    switch(o.directory, "-d"@) + switch(o.force, "-f"@) + switch(o.logical, "-L"@) + switch(
        o.no_dereference,
        "-n"@,
    ) + switch(o.physical, "-P"@) + switch(o.relative, "-r"@) + switch(o.symbolic, "-s"@)
}

/// Everything that an option set contributes to the argument vector.
pub open spec fn option_tokens(o: LinkOptions) -> Seq<Token> {
    backup_tokens(o) + toggle_tokens(o) + valued("-S"@, o.suffix) + valued(
        "-t"@,
        o.target_directory,
    ) + switch(o.no_target_directory, "-T"@)
}

/// What the options of a request contribute: nothing where no option set is
/// given.
pub open spec fn given_option_tokens(opts: Option<LinkOptions>) -> Seq<Token> {
    match opts {
        Some(o) => option_tokens(o),
        None => Seq::empty(),
    }
}

/// The destination, if there is one.
pub open spec fn destination_tokens(destination: Option<Seq<char>>) -> Seq<Token> {
    match destination {
        Some(d) => seq![Token::Literal(d)],
        None => Seq::empty(),
    }
}

/// The targets, in the order given.
pub open spec fn target_tokens(targets: Seq<Seq<char>>) -> Seq<Token> {
    Seq::new(targets.len(), |i: int| Token::Literal(targets[i]))
}

/// The targets in the order given, then the destination.
pub open spec fn operand_tokens(targets: Seq<Seq<char>>, destination: Option<Seq<char>>) -> Seq<
    Token,
> {
    target_tokens(targets) + destination_tokens(destination)
}

/// The argument vector of a linking request, as tokens: the options, then the
/// operands.
pub open spec fn ln_tokens(
    targets: Seq<Seq<char>>,
    destination: Option<Seq<char>>,
    opts: Option<LinkOptions>,
) -> Seq<Token> {
    given_option_tokens(opts) + operand_tokens(targets, destination)
}

/// The argument vector of a linking request, as the utility receives it.
pub open spec fn ln_args(
    targets: Seq<Seq<char>>,
    destination: Option<Seq<char>>,
    opts: Option<LinkOptions>,
) -> Seq<Seq<char>> {
    words(ln_tokens(targets, destination, opts))
}

/// The words of two token sequences, one after the other, are the words of the
/// two sequences joined.
pub proof fn lemma_words_add(a: Seq<Token>, b: Seq<Token>)
    ensures
        words(a + b) == words(a) + words(b),
{
    assert(words(a + b) =~= words(a) + words(b));
}

/// Appending the words of `a` and then those of `b` appends the words of
/// `a + b`.
proof fn lemma_words_appended(base: Seq<Seq<char>>, a: Seq<Token>, b: Seq<Token>)
    ensures
        (base + words(a)) + words(b) == base + words(a + b),
{
    lemma_words_add(a, b);
    assert((base + words(a)) + words(b) =~= base + (words(a) + words(b)));
}

/// Appends `flag` to `args` if `on` holds.
fn push_switch<'a>(args: &mut Vec<&'a str>, on: bool, flag: &'a str)
    ensures
        final(args).deep_view() == old(args).deep_view() + words(switch(on, flag@)),
{
    if on {
        args.push(flag);
    }
    assert(args.deep_view() =~= old(args).deep_view() + words(switch(on, flag@)));
}

/// Appends `flag` and the value to `args`, as two words, if there is a value.
fn push_valued<'a>(args: &mut Vec<&'a str>, flag: &'a str, value: Option<&'a str>)
    ensures
        final(args).deep_view() == old(args).deep_view() + words(
            valued(flag@, value.deep_view()),
        ),
{
    if let Some(v) = value {
        args.push(flag);
        args.push(v);
    }
    assert(args.deep_view() =~= old(args).deep_view() + words(valued(flag@, value.deep_view())));
}

impl<'a> LnOptions<'a> {
    /// Appends to `args` the word that selects the backup policy, if any.
    fn push_backup(&self, args: &mut Vec<&'a str>)
        ensures
            final(args).deep_view() == old(args).deep_view() + words(backup_tokens(self@)),
    {
        match self.backup {
            Some(control) => {
                args.push(control.flag());
            },
            None => {
                if self.make_backup {
                    args.push("-b");
                }
            },
        }
        assert(args.deep_view() =~= old(args).deep_view() + words(backup_tokens(self@)));
    }

    /// Appends to `args` the flags without a value, in their fixed order.
    fn push_toggles(&self, args: &mut Vec<&'a str>)
        ensures
            final(args).deep_view() == old(args).deep_view() + words(toggle_tokens(self@)),
    {
        let ghost base = args.deep_view();
        let ghost o = self@;
        push_switch(args, self.directory, "-d");
        let ghost mut done = switch(o.directory, "-d"@);
        push_switch(args, self.force, "-f");
        proof {
            lemma_words_appended(base, done, switch(o.force, "-f"@));
            done = done + switch(o.force, "-f"@);
        }
        push_switch(args, self.logical, "-L");
        proof {
            lemma_words_appended(base, done, switch(o.logical, "-L"@));
            done = done + switch(o.logical, "-L"@);
        }
        push_switch(args, self.no_dereference, "-n");
        proof {
            lemma_words_appended(base, done, switch(o.no_dereference, "-n"@));
            done = done + switch(o.no_dereference, "-n"@);
        }
        push_switch(args, self.physical, "-P");
        proof {
            lemma_words_appended(base, done, switch(o.physical, "-P"@));
            done = done + switch(o.physical, "-P"@);
        }
        push_switch(args, self.relative, "-r");
        proof {
            lemma_words_appended(base, done, switch(o.relative, "-r"@));
            done = done + switch(o.relative, "-r"@);
        }
        push_switch(args, self.symbolic, "-s");
        proof {
            lemma_words_appended(base, done, switch(o.symbolic, "-s"@));
        }
    }

    /// Appends to `args` the words that this option set stands for.
    pub fn push_args(&self, args: &mut Vec<&'a str>)
        ensures
            final(args).deep_view() == old(args).deep_view() + words(option_tokens(self@)),
    {
        let ghost base = args.deep_view();
        let ghost o = self@;
        self.push_backup(args);
        let ghost mut done = backup_tokens(o);
        self.push_toggles(args);
        proof {
            lemma_words_appended(base, done, toggle_tokens(o));
            done = done + toggle_tokens(o);
        }
        push_valued(args, "-S", self.suffix);
        proof {
            lemma_words_appended(base, done, valued("-S"@, o.suffix));
            done = done + valued("-S"@, o.suffix);
        }
        push_valued(args, "-t", self.target_directory);
        proof {
            lemma_words_appended(base, done, valued("-t"@, o.target_directory));
            done = done + valued("-t"@, o.target_directory);
        }
        push_switch(args, self.no_target_directory, "-T");
        proof {
            lemma_words_appended(base, done, switch(o.no_target_directory, "-T"@));
        }
    }
}

} // verus!
