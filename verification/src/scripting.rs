//! The script feeder: which lines of a script are commands. Reading the
//! file is the caller's part, and so is running the commands, which go the
//! way of every other input line.

use crate::error::{ErrorView, ShellError};
use crate::text::{pieces, split, starts_with, texts, trim, trimmed};
use vstd::prelude::*;
use vstd::string::*;

verus! {

/// Whether a line of a script is a command: trimmed, it is neither empty
/// nor a comment, which begins with `#`.
pub open spec fn is_command(line: Seq<char>) -> bool {
    trimmed(line).len() > 0 && trimmed(line)[0] != '#'
}

/// The commands among `lines`, each trimmed, in their order.
pub open spec fn commands_among(lines: Seq<Seq<char>>) -> Seq<Seq<char>>
    decreases lines.len(),
{
    if lines.len() == 0 {
        Seq::empty()
    } else if is_command(lines.last()) {
        commands_among(lines.drop_last()).push(trimmed(lines.last()))
    } else {
        commands_among(lines.drop_last())
    }
}

/// The commands of a script with the text `content`: those of its lines,
/// which end at each line feed.
pub open spec fn script_commands(content: Seq<char>) -> Seq<Seq<char>> {
    commands_among(pieces(content, "\n"@))
}

/// Decides what running the script at `script_path` means. `content` is
/// the text of the file, or the reason why it could not be read.
///
/// Returns the commands to run, in order: the lines of the file, trimmed,
/// without the blank ones and without comments. Where the file could not
/// be read, returns `ScriptRead`, and nothing is to be run.
pub fn execute_script(script_path: &str, content: Result<String, String>) -> (out: Result<
    Vec<String>,
    ShellError,
>)
    ensures
        match content {
            Ok(content) => out is Ok && texts(out->Ok_0@) == script_commands(content@),
            Err(reason) => out is Err && out->Err_0@ == (ErrorView::ScriptRead {
                path: script_path@,
                reason: reason@,
            }),
        },
{
    match content {
        Err(reason) => Err(ShellError::ScriptRead { path: script_path.to_owned(), reason }),
        Ok(content) => {
            let lines = split(content.as_str(), "\n");
            let mut out: Vec<String> = Vec::new();
            let mut at: usize = 0;
            assert(texts(lines@).len() == lines@.len());
            assert(texts(lines@).take(0) =~= Seq::<Seq<char>>::empty());
            while at < lines.len()
                invariant
                    at <= lines@.len(),
                    texts(lines@) == pieces(content@, "\n"@),
                    texts(out@) == commands_among(texts(lines@).take(at as int)),
                decreases lines@.len() - at,
            {
                let line = trim(lines[at].as_str());
                proof {
                    assert(texts(lines@).take(at + 1).drop_last() =~= texts(lines@).take(
                        at as int,
                    ));
                    assert(texts(lines@).take(at + 1).last() == lines@[at as int]@);
                }
                if line.unicode_len() > 0 && !starts_with(line, '#') {
                    let ghost before = out@;
                    out.push(line.to_owned());
                    assert(texts(out@) =~= texts(before).push(line@));
                }
                at += 1;
            }
            assert(texts(lines@).take(lines@.len() as int) =~= texts(lines@));
            Ok(out)
        },
    }
}

} // verus!
