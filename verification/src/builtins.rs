//! The decisions of `cd` and `pwd`. Reading and changing the working
//! directory is the caller's part.

use crate::error::{ErrorView, ShellError};
use crate::text::texts;
use crate::theme::{shows, StyledText, Theme, Tint};
use vstd::prelude::*;
use vstd::string::*;

verus! {

/// The directory that `cd` is asked for: its first argument, or the home
/// directory when it has none.
pub open spec fn directory_wanted(args: Seq<Seq<char>>, home: Option<Seq<char>>) -> Option<
    Seq<char>,
> {
    if args.len() > 0 {
        Some(args[0])
    } else {
        home
    }
}

/// Decides where `cd` goes. `home` is the home directory, where one is
/// known.
///
/// Returns the directory to change to; `None` where the directory asked
/// for is the empty text, and the working directory stays; and
/// `HomeNotSet` where no argument was given and no home directory is
/// known.
pub fn change_directory(args: &[String], home: Option<&str>) -> (out: Result<
    Option<String>,
    ShellError,
>)
    ensures
        match directory_wanted(
            texts(args@),
            match home {
                Some(home) => Some(home@),
                None => None,
            },
        ) {
            None => out is Err && out->Err_0@ == ErrorView::HomeNotSet,
            Some(dir) => if dir.len() == 0 {
                out == Ok::<Option<String>, ShellError>(None)
            } else {
                out is Ok && out->Ok_0 is Some && out->Ok_0->0@ == dir
            },
        },
{
    let new_dir = if args.len() == 0 {
        match home {
            Some(home) => home.to_owned(),
            None => {
                return Err(ShellError::HomeNotSet);
            },
        }
    } else {
        assert(texts(args@)[0] == args@[0]@);
        args[0].clone()
    };
    if new_dir.as_str().unicode_len() == 0 {
        Ok(None)
    } else {
        Ok(Some(new_dir))
    }
}

/// Decides what `pwd` shows. `current` is the working directory as the
/// system gave it: its path, `None` where the path is not valid text, or
/// the reason why it could not be had.
pub fn print_working_directory(current: Result<Option<String>, String>) -> (out: Result<
    StyledText,
    ShellError,
>)
    ensures
        match current {
            Ok(Some(path)) => out is Ok && shows(
                out->Ok_0,
                path@,
                Some(Tint::BrightCyan),
                true,
                false,
            ),
            Ok(None) => out is Err && out->Err_0@ == ErrorView::PathNotText,
            Err(reason) => out is Err && out->Err_0@ == (ErrorView::WorkingDirectory {
                reason: reason@,
            }),
        },
{
    match current {
        Ok(Some(path)) => Ok(Theme::directory_text(path.as_str())),
        Ok(None) => Err(ShellError::PathNotText),
        Err(reason) => Err(ShellError::WorkingDirectory { reason }),
    }
}

} // verus!
