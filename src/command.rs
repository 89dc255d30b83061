//! The child's command line and environment, built on portable-pty's
//! `CommandBuilder`.

use portable_pty::CommandBuilder;
use vstd::prelude::*;

verus! {

#[verifier::external_type_specification]
#[verifier::external_body]
pub struct ExCommandBuilder(CommandBuilder);

/// The argument vector a command builder holds, program first.
pub uninterp spec fn command_argv(b: CommandBuilder) -> Seq<Seq<char>>;

/// The environment a command builder holds, by variable name.
pub uninterp spec fn command_env(b: CommandBuilder) -> Map<Seq<char>, Seq<char>>;

/// Relies on `CommandBuilder::new`: the argument vector is the program
/// alone. (Its environment starts as this process's, which is left unsaid.)
#[verifier::external_body]
fn builder_for(program: &str) -> (b: CommandBuilder)
    ensures
        command_argv(b) == seq![program@],
{
    CommandBuilder::new(program)
}

/// Relies on `CommandBuilder::arg`: appends one argument, environment
/// untouched. It panics on a builder with an empty argument vector.
#[verifier::external_body]
fn builder_arg(b: &mut CommandBuilder, arg: &str)
    requires
        command_argv(*old(b)).len() > 0,
    ensures
        command_argv(*final(b)) == command_argv(*old(b)).push(arg@),
        command_env(*final(b)) == command_env(*old(b)),
{
    b.arg(arg)
}

/// Relies on `CommandBuilder::env`: sets one variable (names are kept as
/// given on Unix), argument vector untouched.
#[verifier::external_body]
fn builder_env(b: &mut CommandBuilder, key: &str, value: &str)
    ensures
        command_argv(*final(b)) == command_argv(*old(b)),
        command_env(*final(b)) == command_env(*old(b)).insert(key@, value@),
{
    b.env(key, value)
}

/// Name of the variable that tells the child its terminal type.
pub const TERM_VAR: &'static str = "TERM";

/// Terminal type given to the child when this process has none.
pub const DEFAULT_TERM: &'static str = "xterm-256color";

/// The terminal type the child gets: this process's own, else the default.
pub open spec fn child_term(parent: Option<Seq<char>>) -> Seq<char> {
    match parent {
        Some(t) => t,
        None => DEFAULT_TERM@,
    }
}

/// The terminal type the child gets, given this process's own if it has one.
pub fn term_for_child(parent: Option<&str>) -> (r: String)
    ensures
        r@ == child_term(
            match parent {
                Some(t) => Some(t@),
                None => None,
            },
        ),
{
    match parent {
        Some(t) => t.to_owned(),
        None => DEFAULT_TERM.to_owned(),
    }
}

/// The views of a list of arguments.
pub open spec fn arg_views(args: Seq<String>) -> Seq<Seq<char>> {
    args.map_values(|a: String| a@)
}

/// The command that runs `program` with `args` on the pseudo-terminal, with
/// the terminal type set for the child.
pub fn build_command(program: &str, args: &Vec<String>, parent_term: Option<&str>) -> (b:
    CommandBuilder)
    ensures
        command_argv(b) == seq![program@] + arg_views(args@),
        command_env(b).contains_key(TERM_VAR@),
        command_env(b)[TERM_VAR@] == child_term(
            match parent_term {
                Some(t) => Some(t@),
                None => None,
            },
        ),
{
    let mut b = builder_for(program);
    let mut i: usize = 0;
    while i < args.len()
        invariant
            i <= args@.len(),
            command_argv(b) == seq![program@] + arg_views(args@.subrange(0, i as int)),
        decreases args@.len() - i,
    {
        proof {
            assert(args@.subrange(0, i + 1) =~= args@.subrange(0, i as int).push(args@[i as int]));
        }
        builder_arg(&mut b, args[i].as_str());
        i = i + 1;
        proof {
            assert(arg_views(args@.subrange(0, i as int)) =~= arg_views(
                args@.subrange(0, i - 1),
            ).push(args@[i - 1]@));
        }
    }
    proof {
        assert(args@.subrange(0, args@.len() as int) =~= args@);
    }
    let term = term_for_child(parent_term);
    builder_env(&mut b, TERM_VAR, term.as_str());
    b
}

} // verus!
