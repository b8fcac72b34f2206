//! The decisions of `set`, `unset` and `env`. Reading and changing the
//! environment is the caller's part.

use crate::error::{compose, Builtin, ErrorView, ShellError};
use crate::text::texts;
use vstd::prelude::*;
use vstd::string::*;

verus! {

/// Decides what `set` does: with exactly two arguments, the variable to
/// set and its value; otherwise the usage.
pub fn set_env_var(args: &[String]) -> (out: Result<(String, String), ShellError>)
    ensures
        args@.len() == 2 ==> out is Ok && out->Ok_0.0@ == args@[0]@ && out->Ok_0.1@ == args@[1]@,
        args@.len() != 2 ==> out is Err && out->Err_0@ == (ErrorView::Usage {
            builtin: Builtin::SetVar,
        }),
{
    if args.len() == 2 {
        Ok((args[0].clone(), args[1].clone()))
    } else {
        Err(ShellError::Usage { builtin: Builtin::SetVar })
    }
}

/// Decides what `unset` does: with exactly one argument, the variable to
/// remove; otherwise the usage.
pub fn unset_env_var(args: &[String]) -> (out: Result<String, ShellError>)
    ensures
        args@.len() == 1 ==> out is Ok && out->Ok_0@ == args@[0]@,
        args@.len() != 1 ==> out is Err && out->Err_0@ == (ErrorView::Usage {
            builtin: Builtin::UnsetVar,
        }),
{
    if args.len() == 1 {
        Ok(args[0].clone())
    } else {
        Err(ShellError::Usage { builtin: Builtin::UnsetVar })
    }
}

/// The lines that `env` shows for the variables `vars`.
pub open spec fn env_lines(vars: Seq<(String, String)>) -> Seq<Seq<char>> {
    if vars.len() == 0 {
        seq!["No environment variables are set."@]
    } else {
        Seq::new(vars.len(), |i: int| vars[i].0@ + "="@ + vars[i].1@)
    }
}

/// Decides what `env` shows: one line `NAME=value` for each variable, in
/// the order given, or a note that there is none.
pub fn print_env_vars(vars: &[(String, String)]) -> (out: Vec<String>)
    ensures
        texts(out@) == env_lines(vars@),
{
    let mut out: Vec<String> = Vec::new();
    if vars.len() == 0 {
        out.push("No environment variables are set.".to_owned());
        assert(texts(out@) =~= env_lines(vars@));
        return out;
    }
    let mut at: usize = 0;
    while at < vars.len()
        invariant
            at <= vars@.len(),
            out@.len() == at,
            forall|i: int| 0 <= i < at ==> out@[i]@ == vars@[i].0@ + "="@ + vars@[i].1@,
        decreases vars@.len() - at,
    {
        proof {
            reveal_strlit("");
        }
        let line = compose(vars[at].0.as_str(), "=", vars[at].1.as_str(), "");
        assert(line@ =~= vars@[at as int].0@ + "="@ + vars@[at as int].1@);
        out.push(line);
        at += 1;
    }
    assert(texts(out@) =~= env_lines(vars@));
    out
}

} // verus!
