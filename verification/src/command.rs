//! The child processes that stand for a request: which program to start, with
//! which arguments, in which directory.

use vstd::prelude::*;
use crate::args::{
    destination_tokens, given_option_tokens, lemma_words_add, ln_args, ln_tokens, operand_tokens,
    target_tokens, words,
};
use crate::options::{LinkOptions, LnOptions};

verus! {

/// One child process to start. Nothing has been started when a value of this
/// type exists: the caller starts `program` with `args`, in `workdir` if one is
/// given and in its own working directory otherwise, and waits for it.
#[derive(Debug, PartialEq, Eq)]
pub struct Invocation<'a> {
    /// The program to start.
    pub program: &'a str,
    /// Its arguments, the program's own name not among them.
    pub args: Vec<&'a str>,
    /// The directory to start it in.
    pub workdir: Option<&'a str>,
}

/// An [`Invocation`] as a mathematical value.
pub ghost struct InvocationView {
    pub program: Seq<char>,
    pub args: Seq<Seq<char>>,
    pub workdir: Option<Seq<char>>,
}

impl<'a> View for Invocation<'a> {
    type V = InvocationView;

    open spec fn view(&self) -> InvocationView {
        InvocationView {
            program: self.program@,
            args: self.args.deep_view(),
            workdir: self.workdir.deep_view(),
        }
    }
}

/// The process that makes the links of a request: `env` looks `ln` up on the
/// search path and hands it the argument vector of the request. The working
/// directory is the one asked for and leaves the arguments as they are.
pub open spec fn ln_invocation(
    targets: Seq<Seq<char>>,
    destination: Option<Seq<char>>,
    opts: Option<LinkOptions>,
    workdir: Option<Seq<char>>,
) -> InvocationView {
    InvocationView {
        program: "/usr/bin/env"@,
        args: seq!["ln"@] + ln_args(targets, destination, opts),
        workdir,
    }
}

/// The process that removes one file: `env` looks `unlink` up on the search
/// path and hands it the path, and nothing else.
pub open spec fn unlink_invocation(file: Seq<char>) -> InvocationView {
    InvocationView { program: "/usr/bin/env"@, args: seq!["unlink"@, file], workdir: None }
}

/// The words of the operands are the operands themselves.
proof fn lemma_operand_words(targets: Seq<Seq<char>>, destination: Option<Seq<char>>)
    ensures
        words(target_tokens(targets)) == targets,
        words(operand_tokens(targets, destination)) == targets + words(
            destination_tokens(destination),
        ),
{
    assert(words(target_tokens(targets)) =~= targets);
    lemma_words_add(target_tokens(targets), destination_tokens(destination));
}

/// The process that makes links between files: `ln` with the options of
/// `opts`, then `targets` in their order, then `destination`, to be started in
/// `workdir`. Nothing is checked: an empty list of targets or a contradictory
/// option set is handed to the utility as it is.
pub fn ln<'a>(
    targets: &[&'a str],
    destination: Option<&'a str>,
    opts: Option<&LnOptions<'a>>,
    workdir: Option<&'a str>,
) -> (inv: Invocation<'a>)
    ensures
        inv@ == ln_invocation(
            targets.deep_view(),
            destination.deep_view(),
            opts.deep_view(),
            workdir.deep_view(),
        ),
{
    let ghost flags = given_option_tokens(opts.deep_view());
    let ghost operands = operand_tokens(targets.deep_view(), destination.deep_view());
    let mut args: Vec<&'a str> = Vec::new();
    args.push("ln");
    assert(args.deep_view() =~= seq!["ln"@]);
    if let Some(o) = opts {
        o.push_args(&mut args);
    }
    assert(args.deep_view() =~= seq!["ln"@] + words(flags));
    let ghost head = args.deep_view();
    let mut i: usize = 0;
    while i < targets.len()
        invariant
            i <= targets.len(),
            args.deep_view() == head + targets.deep_view().take(i as int),
        decreases targets.len() - i,
    {
        let ghost before = args.deep_view();
        let target = targets[i];
        args.push(target);
        i += 1;
        proof {
            let given = targets.deep_view();
            assert(args.deep_view() =~= before.push(target@));
            assert(given.take(i as int) =~= given.take(i - 1).push(given[i - 1]));
            assert(args.deep_view() =~= head + given.take(i as int));
        }
    }
    assert(targets.deep_view().take(i as int) =~= targets.deep_view());
    if let Some(d) = destination {
        args.push(d);
    }
    proof {
        lemma_operand_words(targets.deep_view(), destination.deep_view());
        lemma_words_add(flags, operands);
        assert(args.deep_view() =~= (head + targets.deep_view()) + words(
            destination_tokens(destination.deep_view()),
        ));
        assert(args.deep_view() =~= seq!["ln"@] + ln_args(
            targets.deep_view(),
            destination.deep_view(),
            opts.deep_view(),
        ));
    }
    Invocation { program: "/usr/bin/env", args, workdir }
}

/// The process that puts a symbolic link to `src` at `dst`, in place of
/// whatever `dst` was: [`ln`] with one target, `force` and `symbolic`.
pub fn force_symlink<'a>(src: &'a str, dst: &'a str) -> (inv: Invocation<'a>)
    ensures
        inv@ == ln_invocation(seq![src@], Some(dst@), Some(LinkOptions::forced_symbolic()), None),
{
    let opts = LnOptions { force: true, symbolic: true, ..LnOptions::default() };
    let targets = [src];
    let targets = targets.as_slice();
    assert(targets.deep_view() =~= seq![src@]);
    ln(targets, Some(dst), Some(&opts), None)
}

/// The process that removes `file`: `unlink` with the path as its one
/// argument.
pub fn unlink<'a>(file: &'a str) -> (inv: Invocation<'a>)
    ensures
        inv@ == unlink_invocation(file@),
{
    let mut args: Vec<&'a str> = Vec::new();
    args.push("unlink");
    args.push(file);
    assert(args.deep_view() =~= seq!["unlink"@, file@]);
    Invocation { program: "/usr/bin/env", args, workdir: None }
}

} // verus!
