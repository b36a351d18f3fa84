//! Git commands as `gitwrap` builds them. The library composes commands and
//! hands them out; running one is the caller's part. A command is opaque here:
//! the contracts below speak of the arguments that `git` will be run with and
//! of the directory it will be run in.

use vstd::prelude::*;
use gitwrap::wrap_command::WrapCommand;
use gitwrap::wrap_command::FnOptionArg;

verus! {

/// `gitwrap::wrap_command::WrapCommand`: a program, its arguments and the
/// directory to run it in.
#[verifier::external_type_specification]
#[verifier::external_body]
pub struct ExWrapCommand(gitwrap::wrap_command::WrapCommand);

/// `gitwrap::wrap_command::FnOptionArg`: one option of a command, which
/// yields the arguments that it stands for.
#[verifier::external_type_specification]
#[verifier::external_body]
pub struct ExFnOptionArg(gitwrap::wrap_command::FnOptionArg);

/// The arguments that `git` is run with by a command, in order.
pub uninterp spec fn command_args(c: WrapCommand) -> Seq<Seq<char>>;

/// The directory that a command is run in, where one is set.
pub uninterp spec fn command_dir(c: WrapCommand) -> Option<Seq<char>>;

/// The arguments that an option adds to a command, in order.
pub uninterp spec fn option_args(o: FnOptionArg) -> Seq<Seq<char>>;

/// `gitwrap::clone::clone`: the command that runs `git` with `clone` as its only
/// argument, in no directory of its own.
#[verifier::external_body]
pub(crate) fn git_clone() -> (c: WrapCommand)
    ensures
        command_args(c) == seq!["clone"@],
        command_dir(c) is None,
{
    gitwrap::clone::clone()
}

/// `gitwrap::config::config`: the command that runs `git` with `config` as its only
/// argument, in no directory of its own.
#[verifier::external_body]
pub(crate) fn git_config() -> (c: WrapCommand)
    ensures
        command_args(c) == seq!["config"@],
        command_dir(c) is None,
{
    gitwrap::config::config()
}

/// `gitwrap::rev_parse::rev_parse`: the command that runs `git` with `rev-parse` as its only
/// argument, in no directory of its own.
#[verifier::external_body]
pub(crate) fn git_rev_parse() -> (c: WrapCommand)
    ensures
        command_args(c) == seq!["rev-parse"@],
        command_dir(c) is None,
{
    gitwrap::rev_parse::rev_parse()
}

/// `gitwrap::pull::pull`: the command that runs `git` with `pull` as its only
/// argument, in no directory of its own.
#[verifier::external_body]
pub(crate) fn git_pull() -> (c: WrapCommand)
    ensures
        command_args(c) == seq!["pull"@],
        command_dir(c) is None,
{
    gitwrap::pull::pull()
}

/// `gitwrap::push::push`: the command that runs `git` with `push` as its only
/// argument, in no directory of its own.
#[verifier::external_body]
pub(crate) fn git_push() -> (c: WrapCommand)
    ensures
        command_args(c) == seq!["push"@],
        command_dir(c) is None,
{
    gitwrap::push::push()
}

/// `gitwrap::commit::commit`: the command that runs `git` with `commit` as its only
/// argument, in no directory of its own.
#[verifier::external_body]
pub(crate) fn git_commit() -> (c: WrapCommand)
    ensures
        command_args(c) == seq!["commit"@],
        command_dir(c) is None,
{
    gitwrap::commit::commit()
}

/// `gitwrap::reset::reset`: the command that runs `git` with `reset` as its only
/// argument, in no directory of its own.
#[verifier::external_body]
pub(crate) fn git_reset() -> (c: WrapCommand)
    ensures
        command_args(c) == seq!["reset"@],
        command_dir(c) is None,
{
    gitwrap::reset::reset()
}

/// `gitwrap::checkout::checkout`: the command that runs `git` with `checkout` as its only
/// argument, in no directory of its own.
#[verifier::external_body]
pub(crate) fn git_checkout() -> (c: WrapCommand)
    ensures
        command_args(c) == seq!["checkout"@],
        command_dir(c) is None,
{
    gitwrap::checkout::checkout()
}

/// `gitwrap::clean::clean`: the command that runs `git` with `clean` as its only
/// argument, in no directory of its own.
#[verifier::external_body]
pub(crate) fn git_clean() -> (c: WrapCommand)
    ensures
        command_args(c) == seq!["clean"@],
        command_dir(c) is None,
{
    gitwrap::clean::clean()
}

/// `WrapCommand::add_option`: the same command with the arguments of one more
/// option at the end.
#[verifier::external_body]
pub(crate) fn add_option(c: &WrapCommand, o: FnOptionArg) -> (r: WrapCommand)
    ensures
        command_args(r) == command_args(*c) + option_args(o),
        command_dir(r) == command_dir(*c),
{
    c.add_option(o)
}

/// `WrapCommand::current_dir`: the same command, to be run in `dir`.
#[verifier::external_body]
pub(crate) fn current_dir(c: &WrapCommand, dir: &str) -> (r: WrapCommand)
    ensures
        command_args(r) == command_args(*c),
        command_dir(r) == Some(dir@),
{
    c.current_dir(dir)
}

/// `gitwrap::clone::repository`: the URL, as one argument.
#[verifier::external_body]
pub(crate) fn clone_repository(url: &str) -> (o: FnOptionArg)
    ensures
        option_args(o) == seq![url@],
{
    gitwrap::clone::repository(url)
}

/// `gitwrap::clone::directory`: the target directory, as one argument.
#[verifier::external_body]
pub(crate) fn clone_directory(path: &str) -> (o: FnOptionArg)
    ensures
        option_args(o) == seq![path@],
{
    gitwrap::clone::directory(path)
}

/// `gitwrap::clone::branch`: `--branch`, then the name.
#[verifier::external_body]
pub(crate) fn clone_branch(name: &str) -> (o: FnOptionArg)
    ensures
        option_args(o) == seq!["--branch"@, name@],
{
    gitwrap::clone::branch(name)
}

/// `gitwrap::clone::config`: `--config`, then `key=value` as one argument.
#[verifier::external_body]
pub(crate) fn clone_config(key: &str, value: &str) -> (o: FnOptionArg)
    ensures
        option_args(o) == seq!["--config"@, key@ + "="@ + value@],
{
    gitwrap::clone::config(key, value)
}

/// `gitwrap::config::entry`: the key, then the value.
#[verifier::external_body]
pub(crate) fn config_entry(key: &str, value: &str) -> (o: FnOptionArg)
    ensures
        option_args(o) == seq![key@, value@],
{
    gitwrap::config::entry(key, value)
}

/// `gitwrap::rev_parse::is_inside_work_tree`: `--is-inside-work-tree`.
#[verifier::external_body]
pub(crate) fn rev_parse_is_inside_work_tree() -> (o: FnOptionArg)
    ensures
        option_args(o) == seq!["--is-inside-work-tree"@],
{
    gitwrap::rev_parse::is_inside_work_tree()
}

/// `gitwrap::pull::rebase`: `--rebase` alone for an empty value, else
/// `--rebase=value` as one argument.
#[verifier::external_body]
pub(crate) fn pull_rebase(value: &str) -> (o: FnOptionArg)
    ensures
        option_args(o) == (if value@.len() == 0 {
            seq!["--rebase"@]
        } else {
            seq!["--rebase="@ + value@]
        }),
{
    gitwrap::pull::rebase(value)
}

/// `gitwrap::commit::all`: `--all`.
#[verifier::external_body]
pub(crate) fn commit_all() -> (o: FnOptionArg)
    ensures
        option_args(o) == seq!["--all"@],
{
    gitwrap::commit::all()
}

/// `gitwrap::commit::message`: `--message=msg` as one argument.
#[verifier::external_body]
pub(crate) fn commit_message(msg: &str) -> (o: FnOptionArg)
    ensures
        option_args(o) == seq!["--message="@ + msg@],
{
    gitwrap::commit::message(msg)
}

/// `gitwrap::checkout::pathspec`: the path, as one argument.
#[verifier::external_body]
pub(crate) fn checkout_pathspec(pathspec: &str) -> (o: FnOptionArg)
    ensures
        option_args(o) == seq![pathspec@],
{
    gitwrap::checkout::pathspec(pathspec)
}

/// `gitwrap::clean::force`: `--force`.
#[verifier::external_body]
pub(crate) fn clean_force() -> (o: FnOptionArg)
    ensures
        option_args(o) == seq!["--force"@],
{
    gitwrap::clean::force()
}

/// `gitwrap::clean::recurse_directories`: `-d`.
#[verifier::external_body]
pub(crate) fn clean_recurse_directories() -> (o: FnOptionArg)
    ensures
        option_args(o) == seq!["-d"@],
{
    gitwrap::clean::recurse_directories()
}

/// `gitwrap::clean::no_gitignore`: `-x`.
#[verifier::external_body]
pub(crate) fn clean_no_gitignore() -> (o: FnOptionArg)
    ensures
        option_args(o) == seq!["-x"@],
{
    gitwrap::clean::no_gitignore()
}

} // verus!
