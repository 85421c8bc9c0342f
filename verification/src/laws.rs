//! What holds of every request, proved from the definitions in [`crate::args`],
//! [`crate::command`] and [`crate::outcome`].

use vstd::prelude::*;
use crate::args::{
    backup_tokens, destination_tokens, given_option_tokens, lemma_words_add, ln_args, ln_tokens,
    operand_tokens, option_tokens, switch, target_tokens, toggle_tokens, valued, words, Token,
};
use crate::command::{ln_invocation, InvocationView};
use crate::options::{BackupControl, LinkOptions};
use crate::outcome::{exit_result_spec, LaunchFailure};

verus! {

/// A flag that names a backup policy: `--backup=` with something behind it.
pub open spec fn is_named_backup_flag(t: Token) -> bool {
    t is Flag && "--backup="@.is_prefix_of(t.text())
}

/// The short backup flag, `-b`.
pub open spec fn is_short_backup_flag(t: Token) -> bool {
    t == Token::Flag("-b"@)
}

/// Neither of the two backup flags.
spec fn is_no_backup_flag(t: Token) -> bool {
    !is_named_backup_flag(t) && !is_short_backup_flag(t)
}

/// A word of the utility's vocabulary that this library emits: one of the
/// eleven short flags, or `--backup=` with the name of a policy.
pub open spec fn is_flag_word(w: Seq<char>) -> bool {
    ||| w == "-b"@
    ||| w == "-d"@
    ||| w == "-f"@
    ||| w == "-L"@
    ||| w == "-n"@
    ||| w == "-P"@
    ||| w == "-r"@
    ||| w == "-s"@
    ||| w == "-S"@
    ||| w == "-t"@
    ||| w == "-T"@
    ||| exists|control: BackupControl| w == #[trigger] control.flag_spec()
}

/// A token that is a word of the caller's, or a flag of the vocabulary.
pub open spec fn is_literal_or_flag_word(t: Token) -> bool {
    t is Flag ==> is_flag_word(t.text())
}

/// Every token of `tokens` is a word of the caller's.
pub open spec fn all_literal(tokens: Seq<Token>) -> bool {
    forall|i: int| 0 <= i < tokens.len() ==> tokens[i] is Literal
}

/// What an option set contributes behind its backup policy.
spec fn tokens_after_backup(o: LinkOptions) -> Seq<Token> {
    toggle_tokens(o) + valued("-S"@, o.suffix) + valued("-t"@, o.target_directory) + switch(
        o.no_target_directory,
        "-T"@,
    )
}

/// `holds` is true of every token of `tokens`.
spec fn every(tokens: Seq<Token>, holds: spec_fn(Token) -> bool) -> bool {
    forall|i: int| 0 <= i < tokens.len() ==> #[trigger] holds(tokens[i])
}

/// `holds` is true of the ten flags that have nothing to do with backups, and
/// of every word of the caller's.
spec fn holds_of_plain_tokens(holds: spec_fn(Token) -> bool) -> bool {
    &&& holds(Token::Flag("-d"@))
    &&& holds(Token::Flag("-f"@))
    &&& holds(Token::Flag("-L"@))
    &&& holds(Token::Flag("-n"@))
    &&& holds(Token::Flag("-P"@))
    &&& holds(Token::Flag("-r"@))
    &&& holds(Token::Flag("-s"@))
    &&& holds(Token::Flag("-S"@))
    &&& holds(Token::Flag("-t"@))
    &&& holds(Token::Flag("-T"@))
    &&& forall|w: Seq<char>| #[trigger] holds(Token::Literal(w))
}

proof fn lemma_every_add(a: Seq<Token>, b: Seq<Token>, holds: spec_fn(Token) -> bool)
    requires
        every(a, holds),
        every(b, holds),
    ensures
        every(a + b, holds),
{
    assert forall|i: int| 0 <= i < (a + b).len() implies #[trigger] holds((a + b)[i]) by {
        if i < a.len() {
            assert((a + b)[i] == a[i]);
        } else {
            assert((a + b)[i] == b[i - a.len()]);
        }
    }
}

proof fn lemma_every_switch(on: bool, flag: Seq<char>, holds: spec_fn(Token) -> bool)
    requires
        holds(Token::Flag(flag)),
    ensures
        every(switch(on, flag), holds),
{
}

proof fn lemma_every_valued(flag: Seq<char>, value: Option<Seq<char>>, holds: spec_fn(Token) -> bool)
    requires
        holds(Token::Flag(flag)),
        forall|w: Seq<char>| #[trigger] holds(Token::Literal(w)),
    ensures
        every(valued(flag, value), holds),
{
}

proof fn lemma_every_operand(
    targets: Seq<Seq<char>>,
    destination: Option<Seq<char>>,
    holds: spec_fn(Token) -> bool,
)
    requires
        forall|w: Seq<char>| #[trigger] holds(Token::Literal(w)),
    ensures
        every(operand_tokens(targets, destination), holds),
        all_literal(operand_tokens(targets, destination)),
{
}

proof fn lemma_every_after_backup(o: LinkOptions, holds: spec_fn(Token) -> bool)
    requires
        holds_of_plain_tokens(holds),
    ensures
        every(tokens_after_backup(o), holds),
{
    lemma_every_switch(o.directory, "-d"@, holds);
    lemma_every_switch(o.force, "-f"@, holds);
    lemma_every_switch(o.logical, "-L"@, holds);
    lemma_every_switch(o.no_dereference, "-n"@, holds);
    lemma_every_switch(o.physical, "-P"@, holds);
    lemma_every_switch(o.relative, "-r"@, holds);
    lemma_every_switch(o.symbolic, "-s"@, holds);
    let mut done = switch(o.directory, "-d"@);
    lemma_every_add(done, switch(o.force, "-f"@), holds);
    done = done + switch(o.force, "-f"@);
    lemma_every_add(done, switch(o.logical, "-L"@), holds);
    done = done + switch(o.logical, "-L"@);
    lemma_every_add(done, switch(o.no_dereference, "-n"@), holds);
    done = done + switch(o.no_dereference, "-n"@);
    lemma_every_add(done, switch(o.physical, "-P"@), holds);
    done = done + switch(o.physical, "-P"@);
    lemma_every_add(done, switch(o.relative, "-r"@), holds);
    done = done + switch(o.relative, "-r"@);
    lemma_every_add(done, switch(o.symbolic, "-s"@), holds);
    done = done + switch(o.symbolic, "-s"@);
    assert(done == toggle_tokens(o));
    lemma_every_valued("-S"@, o.suffix, holds);
    lemma_every_add(done, valued("-S"@, o.suffix), holds);
    done = done + valued("-S"@, o.suffix);
    lemma_every_valued("-t"@, o.target_directory, holds);
    lemma_every_add(done, valued("-t"@, o.target_directory), holds);
    done = done + valued("-t"@, o.target_directory);
    lemma_every_switch(o.no_target_directory, "-T"@, holds);
    lemma_every_add(done, switch(o.no_target_directory, "-T"@), holds);
}

/// Behind the backup policy of an option set, and among the operands, `holds`
/// is true of every token.
proof fn lemma_every_behind_backup(
    targets: Seq<Seq<char>>,
    destination: Option<Seq<char>>,
    o: LinkOptions,
    holds: spec_fn(Token) -> bool,
)
    requires
        holds_of_plain_tokens(holds),
    ensures
        every(tokens_after_backup(o) + operand_tokens(targets, destination), holds),
{
    lemma_every_after_backup(o, holds);
    lemma_every_operand(targets, destination, holds);
    lemma_every_add(tokens_after_backup(o), operand_tokens(targets, destination), holds);
}

/// None of the ten flags that have nothing to do with backups is a backup
/// flag, and no word of the caller's is one.
proof fn lemma_plain_tokens_are_no_backup_flags()
    ensures
        holds_of_plain_tokens(|t: Token| is_no_backup_flag(t)),
{
    reveal_strlit("--backup=");
    reveal_strlit("-b");
    reveal_strlit("-d");
    reveal_strlit("-f");
    reveal_strlit("-L");
    reveal_strlit("-n");
    reveal_strlit("-P");
    reveal_strlit("-r");
    reveal_strlit("-s");
    reveal_strlit("-S");
    reveal_strlit("-t");
    reveal_strlit("-T");
    assert("-d"@[1] != "-b"@[1]);
    assert("-f"@[1] != "-b"@[1]);
    assert("-L"@[1] != "-b"@[1]);
    assert("-n"@[1] != "-b"@[1]);
    assert("-P"@[1] != "-b"@[1]);
    assert("-r"@[1] != "-b"@[1]);
    assert("-s"@[1] != "-b"@[1]);
    assert("-S"@[1] != "-b"@[1]);
    assert("-t"@[1] != "-b"@[1]);
    assert("-T"@[1] != "-b"@[1]);
}

proof fn lemma_add_associative(a: Seq<Token>, b: Seq<Token>, c: Seq<Token>)
    ensures
        (a + b) + c == a + (b + c),
{
    assert((a + b) + c =~= a + (b + c));
}

/// The argument vector of a request with options is the backup policy, then
/// the rest of the options, then the operands.
proof fn lemma_ln_tokens_split(
    targets: Seq<Seq<char>>,
    destination: Option<Seq<char>>,
    o: LinkOptions,
)
    ensures
        ln_tokens(targets, destination, Some(o)) == backup_tokens(o) + (tokens_after_backup(o)
            + operand_tokens(targets, destination)),
{
    let b = backup_tokens(o);
    let t = toggle_tokens(o);
    let s = valued("-S"@, o.suffix);
    let d = valued("-t"@, o.target_directory);
    let n = switch(o.no_target_directory, "-T"@);
    lemma_add_associative(b, t, s);
    lemma_add_associative(b, t + s, d);
    lemma_add_associative(b, (t + s) + d, n);
    lemma_add_associative(b, tokens_after_backup(o), operand_tokens(targets, destination));
}

/// With no option set, or with one in which nothing is set, the argument
/// vector holds no flag: it is the targets in the order given, then the
/// destination if there is one.
pub proof fn law_no_options_no_flags(
    targets: Seq<Seq<char>>,
    destination: Option<Seq<char>>,
    opts: Option<LinkOptions>,
)
    requires
        opts matches Some(o) ==> o == LinkOptions::unset(),
    ensures
        ln_tokens(targets, destination, opts) == operand_tokens(targets, destination),
        all_literal(ln_tokens(targets, destination, opts)),
        ln_args(targets, destination, opts) == targets + match destination {
            Some(d) => seq![d],
            None => Seq::empty(),
        },
{
    let operands = operand_tokens(targets, destination);
    assert(given_option_tokens(opts) =~= Seq::<Token>::empty());
    assert(ln_tokens(targets, destination, opts) =~= operands);
    lemma_words_add(target_tokens(targets), destination_tokens(destination));
    assert(words(target_tokens(targets)) =~= targets);
    assert(words(destination_tokens(destination)) =~= match destination {
        Some(d) => seq![d],
        None => Seq::empty(),
    });
}

/// A named backup policy overrides `make_backup`: its flag stands first in the
/// argument vector, no other token names a backup policy, the short flag `-b`
/// does not occur, and the vector is the same whatever `make_backup` holds.
pub proof fn law_named_backup_wins(
    targets: Seq<Seq<char>>,
    destination: Option<Seq<char>>,
    o: LinkOptions,
    control: BackupControl,
)
    requires
        o.backup == Some(control),
    ensures
        ln_tokens(targets, destination, Some(o)).len() > 0,
        ln_tokens(targets, destination, Some(o))[0] == Token::Flag(
            "--backup="@ + control.name_spec(),
        ),
        ln_args(targets, destination, Some(o))[0] == "--backup="@ + control.name_spec(),
        forall|i: int|
            0 <= i < ln_tokens(targets, destination, Some(o)).len() ==> (is_named_backup_flag(
                #[trigger] ln_tokens(targets, destination, Some(o))[i],
            ) <==> i == 0),
        forall|i: int|
            0 <= i < ln_tokens(targets, destination, Some(o)).len() ==> !is_short_backup_flag(
                #[trigger] ln_tokens(targets, destination, Some(o))[i],
            ),
        ln_tokens(targets, destination, Some(o)) == ln_tokens(
            targets,
            destination,
            Some((LinkOptions { make_backup: !o.make_backup, ..o })),
        ),
{
    let tokens = ln_tokens(targets, destination, Some(o));
    let first = backup_tokens(o);
    let rest = tokens_after_backup(o) + operand_tokens(targets, destination);
    let plain = |t: Token| is_no_backup_flag(t);
    lemma_ln_tokens_split(targets, destination, o);
    lemma_plain_tokens_are_no_backup_flags();
    lemma_every_behind_backup(targets, destination, o, plain);
    reveal_strlit("--backup=");
    reveal_strlit("-b");
    assert(tokens[0] == first[0]);
    assert(is_named_backup_flag(first[0]));
    assert(!is_short_backup_flag(first[0]));
    assert forall|i: int| 0 <= i < tokens.len() implies (is_named_backup_flag(#[trigger] tokens[i])
        <==> i == 0) && !is_short_backup_flag(tokens[i]) by {
        if i > 0 {
            assert(tokens[i] == rest[i - 1]);
            assert(plain(rest[i - 1]));
        }
    }
}

/// With no named policy and `make_backup` set, the short flag `-b` stands
/// first in the argument vector, it occurs nowhere else, and no token names a
/// backup policy. If nothing else is set, `-b` is the only flag.
pub proof fn law_short_backup_flag(
    targets: Seq<Seq<char>>,
    destination: Option<Seq<char>>,
    o: LinkOptions,
)
    requires
        o.backup is None,
        o.make_backup,
    ensures
        ln_tokens(targets, destination, Some(o)).len() > 0,
        ln_tokens(targets, destination, Some(o))[0] == Token::Flag("-b"@),
        ln_args(targets, destination, Some(o))[0] == "-b"@,
        forall|i: int|
            0 <= i < ln_tokens(targets, destination, Some(o)).len() ==> (is_short_backup_flag(
                #[trigger] ln_tokens(targets, destination, Some(o))[i],
            ) <==> i == 0),
        forall|i: int|
            0 <= i < ln_tokens(targets, destination, Some(o)).len() ==> !is_named_backup_flag(
                #[trigger] ln_tokens(targets, destination, Some(o))[i],
            ),
        o == (LinkOptions { make_backup: true, ..LinkOptions::unset() }) ==> ln_tokens(
            targets,
            destination,
            Some(o),
        ) == seq![Token::Flag("-b"@)] + operand_tokens(targets, destination),
{
    let tokens = ln_tokens(targets, destination, Some(o));
    let first = backup_tokens(o);
    let rest = tokens_after_backup(o) + operand_tokens(targets, destination);
    let plain = |t: Token| is_no_backup_flag(t);
    lemma_ln_tokens_split(targets, destination, o);
    lemma_plain_tokens_are_no_backup_flags();
    lemma_every_behind_backup(targets, destination, o, plain);
    reveal_strlit("--backup=");
    reveal_strlit("-b");
    assert(tokens[0] == first[0]);
    assert(is_short_backup_flag(first[0]));
    assert(!is_named_backup_flag(first[0]));
    assert forall|i: int| 0 <= i < tokens.len() implies (is_short_backup_flag(#[trigger] tokens[i])
        <==> i == 0) && !is_named_backup_flag(tokens[i]) by {
        if i > 0 {
            assert(tokens[i] == rest[i - 1]);
            assert(plain(rest[i - 1]));
        }
    }
    if o == (LinkOptions { make_backup: true, ..LinkOptions::unset() }) {
        assert(tokens_after_backup(o) =~= Seq::<Token>::empty());
        assert(rest =~= operand_tokens(targets, destination));
    }
}

/// Where the `-S` of an option set stands among its tokens.
pub open spec fn suffix_index(o: LinkOptions) -> int {
    (backup_tokens(o).len() + toggle_tokens(o).len()) as int
}

/// Where the `-t` of an option set stands among its tokens.
pub open spec fn target_directory_index(o: LinkOptions) -> int {
    suffix_index(o) + valued("-S"@, o.suffix).len()
}

proof fn lemma_index_in_the_middle(before: Seq<Token>, middle: Seq<Token>, after: Seq<Token>, j: int)
    requires
        0 <= j < middle.len(),
    ensures
        before.len() + j < ((before + middle) + after).len(),
        ((before + middle) + after)[before.len() + j] == middle[j],
{
}

/// A suffix and a target directory each come as two tokens: the flag, and
/// behind it the value as the caller gave it, a word of its own.
pub proof fn law_values_stand_alone(
    targets: Seq<Seq<char>>,
    destination: Option<Seq<char>>,
    o: LinkOptions,
)
    ensures
        o.suffix matches Some(suffix) ==> {
            &&& 0 <= suffix_index(o)
            &&& suffix_index(o) + 1 < ln_tokens(targets, destination, Some(o)).len()
            &&& ln_tokens(targets, destination, Some(o))[suffix_index(o)] == Token::Flag("-S"@)
            &&& ln_tokens(targets, destination, Some(o))[suffix_index(o) + 1] == Token::Literal(
                suffix,
            )
            &&& ln_args(targets, destination, Some(o))[suffix_index(o)] == "-S"@
            &&& ln_args(targets, destination, Some(o))[suffix_index(o) + 1] == suffix
        },
        o.target_directory matches Some(dir) ==> {
            &&& 0 <= target_directory_index(o)
            &&& target_directory_index(o) + 1 < ln_tokens(targets, destination, Some(o)).len()
            &&& ln_tokens(targets, destination, Some(o))[target_directory_index(o)] == Token::Flag(
                "-t"@,
            )
            &&& ln_tokens(targets, destination, Some(o))[target_directory_index(o) + 1]
                == Token::Literal(dir)
            &&& ln_args(targets, destination, Some(o))[target_directory_index(o)] == "-t"@
            &&& ln_args(targets, destination, Some(o))[target_directory_index(o) + 1] == dir
        },
{
    let before = backup_tokens(o) + toggle_tokens(o);
    let s = valued("-S"@, o.suffix);
    let d = valued("-t"@, o.target_directory);
    let n = switch(o.no_target_directory, "-T"@);
    let operands = operand_tokens(targets, destination);
    let tokens = ln_tokens(targets, destination, Some(o));
    assert(tokens == (((before + s) + d) + n) + operands);
    if o.suffix is Some {
        lemma_add_associative(before + s, d, n);
        lemma_add_associative(before + s, d + n, operands);
        lemma_index_in_the_middle(before, s, (d + n) + operands, 0);
        lemma_index_in_the_middle(before, s, (d + n) + operands, 1);
    }
    if o.target_directory is Some {
        lemma_add_associative((before + s) + d, n, operands);
        lemma_index_in_the_middle(before + s, d, n + operands, 0);
        lemma_index_in_the_middle(before + s, d, n + operands, 1);
    }
}

/// The forced symbolic link of `src` at `dst` is this process: `env` with
/// `ln -f -s`, the source and the destination, in the caller's own working
/// directory.
pub proof fn law_forced_symlink_vector(src: Seq<char>, dst: Seq<char>)
    ensures
        ln_tokens(seq![src], Some(dst), Some(LinkOptions::forced_symbolic())) == seq![
            Token::Flag("-f"@),
            Token::Flag("-s"@),
            Token::Literal(src),
            Token::Literal(dst),
        ],
        ln_invocation(seq![src], Some(dst), Some(LinkOptions::forced_symbolic()), None) == (
        InvocationView {
            program: "/usr/bin/env"@,
            args: seq!["ln"@, "-f"@, "-s"@, src, dst],
            workdir: None,
        }),
{
    let o = LinkOptions::forced_symbolic();
    let tokens = ln_tokens(seq![src], Some(dst), Some(o));
    let expected = seq![
        Token::Flag("-f"@),
        Token::Flag("-s"@),
        Token::Literal(src),
        Token::Literal(dst),
    ];
    assert(backup_tokens(o) =~= Seq::<Token>::empty());
    assert(toggle_tokens(o) =~= seq![Token::Flag("-f"@), Token::Flag("-s"@)]);
    assert(option_tokens(o) =~= seq![Token::Flag("-f"@), Token::Flag("-s"@)]);
    assert(operand_tokens(seq![src], Some(dst)) =~= seq![Token::Literal(src), Token::Literal(dst)]);
    assert(tokens =~= expected);
    assert(words(expected) =~= seq!["-f"@, "-s"@, src, dst]);
    assert(seq!["ln"@] + words(expected) =~= seq!["ln"@, "-f"@, "-s"@, src, dst]);
}

/// A child that could not be started yields a launch failure with the cause as
/// it was handed in, and nothing else does: a child that ran yields its own
/// exit code, zero or not, and never an error.
pub proof fn law_launch_failure_is_surfaced<E>(status: Result<Option<i32>, E>)
    ensures
        exit_result_spec(status) is Err <==> status is Err,
        status matches Err(cause) ==> exit_result_spec(status) == Err::<i32, LaunchFailure<E>>(
            LaunchFailure { cause },
        ),
        status matches Ok(Some(code)) ==> exit_result_spec(status) == Ok::<i32, LaunchFailure<E>>(
            code,
        ),
{
}

/// Every flag in the argument vector is a word of the fixed vocabulary,
/// whatever the caller's values are: no value is ever made part of a flag.
pub proof fn law_flags_are_vocabulary(
    targets: Seq<Seq<char>>,
    destination: Option<Seq<char>>,
    opts: Option<LinkOptions>,
)
    ensures
        forall|i: int|
            0 <= i < ln_tokens(targets, destination, opts).len() ==> is_literal_or_flag_word(
                #[trigger] ln_tokens(targets, destination, opts)[i],
            ),
{
    let known = |t: Token| is_literal_or_flag_word(t);
    let tokens = ln_tokens(targets, destination, opts);
    assert(holds_of_plain_tokens(known));
    match opts {
        Some(o) => {
            let first = backup_tokens(o);
            let rest = tokens_after_backup(o) + operand_tokens(targets, destination);
            lemma_ln_tokens_split(targets, destination, o);
            lemma_every_behind_backup(targets, destination, o, known);
            assert forall|i: int| 0 <= i < tokens.len() implies is_literal_or_flag_word(
                #[trigger] tokens[i],
            ) by {
                if i < first.len() {
                    assert(tokens[i] == first[i]);
                    if let Some(control) = o.backup {
                        assert(first[i].text() == control.flag_spec());
                    }
                } else {
                    assert(tokens[i] == rest[i - first.len()]);
                    assert(known(rest[i - first.len()]));
                }
            }
        },
        None => {
            lemma_every_operand(targets, destination, known);
            assert(tokens =~= operand_tokens(targets, destination));
            assert forall|i: int| 0 <= i < tokens.len() implies is_literal_or_flag_word(
                #[trigger] tokens[i],
            ) by {
                assert(known(tokens[i]));
            }
        },
    }
}

} // verus!
