//! The daemon's commands and the line protocol they arrive in: each line is
//! `<verb> <argument>`, with the verbs `load`, `switch` and `reload`.

use vstd::prelude::*;
use vstd::string::*;

use crate::text::{contains_white_space, has_white_space, trim, trimmed};

verus! {

/// A control intent for the daemon. `Reload`, `Load` and `Switch` name an
/// application; `CopyRelease` carries the identity it was registered under.
#[derive(Debug, PartialEq, Eq)]
pub enum Commands {
    Reload(String),
    Load(String),
    Switch(String),
    CopyRelease(String),
}

/// The value of a `Commands`.
pub enum CommandView {
    Reload(Seq<char>),
    Load(Seq<char>),
    Switch(Seq<char>),
    CopyRelease(Seq<char>),
}

impl View for Commands {
    type V = CommandView;

    open spec fn view(&self) -> CommandView {
        match self {
            Commands::Reload(s) => CommandView::Reload(s@),
            Commands::Load(s) => CommandView::Load(s@),
            Commands::Switch(s) => CommandView::Switch(s@),
            Commands::CopyRelease(s) => CommandView::CopyRelease(s@),
        }
    }
}

/// Why a line is no command; each carries the line's verb.
#[derive(Debug, PartialEq, Eq)]
pub enum CommandError {
    /// The verb is none of `load`, `switch` and `reload`.
    InvalidCommand(String),
    /// A known verb without exactly one argument.
    WrongArgumentCount(String),
}

/// The value of a `CommandError`.
pub enum CommandErrorView {
    InvalidCommand(Seq<char>),
    WrongArgumentCount(Seq<char>),
}

impl View for CommandError {
    type V = CommandErrorView;

    open spec fn view(&self) -> CommandErrorView {
        match self {
            CommandError::InvalidCommand(s) => CommandErrorView::InvalidCommand(s@),
            CommandError::WrongArgumentCount(s) => CommandErrorView::WrongArgumentCount(s@),
        }
    }
}

/// The index of the first space of `s`, or its length where it has none.
pub open spec fn space_index(s: Seq<char>) -> int
    decreases s.len(),
{
    if s.len() == 0 {
        0
    } else if s[0] == ' ' {
        0
    } else {
        1 + space_index(s.drop_first())
    }
}

/// A verb that takes an argument.
pub open spec fn is_verb(v: Seq<char>) -> bool {
    v == "load"@ || v == "switch"@ || v == "reload"@
}

/// The command that the verb `v` makes of the argument `arg`.
pub open spec fn command_of(v: Seq<char>, arg: Seq<char>) -> CommandView {
    if v == "load"@ {
        CommandView::Load(arg)
    } else if v == "switch"@ {
        CommandView::Switch(arg)
    } else {
        CommandView::Reload(arg)
    }
}

/// The argument of a line whose verb ends at `k`: the rest of the line
/// with white space around it removed.
pub open spec fn argument_of(t: Seq<char>, k: int) -> Seq<char> {
    trimmed(t.subrange(k + 1, t.len() as int))
}

/// What a line of the protocol means. White space around the line is
/// ignored; the verb runs up to the first space, and the rest of the line is
/// the one argument. A known verb with no argument, or with more than one
/// (white space inside the rest of the line), is a wrong argument count.
pub open spec fn parse_spec(line: Seq<char>) -> Result<CommandView, CommandErrorView> {
    let t = trimmed(line);
    let k = space_index(t);
    let verb = t.subrange(0, k);
    if !is_verb(verb) {
        Err(CommandErrorView::InvalidCommand(verb))
    } else if k < t.len() && !has_white_space(argument_of(t, k)) {
        Ok(command_of(verb, argument_of(t, k)))
    } else {
        Err(CommandErrorView::WrongArgumentCount(verb))
    }
}

/// The value of a parse result.
pub open spec fn parsed_view(r: Result<Commands, CommandError>) -> Result<
    CommandView,
    CommandErrorView,
> {
    match r {
        Ok(c) => Ok(c@),
        Err(e) => Err(e@),
    }
}

proof fn lemma_space_index(s: Seq<char>, k: int)
    requires
        0 <= k <= s.len(),
        forall|j: int| 0 <= j < k ==> s[j] != ' ',
        k == s.len() || s[k] == ' ',
    ensures
        space_index(s) == k,
    decreases k,
{
    if k > 0 {
        let t = s.drop_first();
        assert forall|j: int| 0 <= j < k - 1 implies t[j] != ' ' by {
            assert(t[j] == s[j + 1]);
        }
        if k < s.len() {
            assert(t[k - 1] == s[k]);
        }
        lemma_space_index(t, k - 1);
    }
}

/// Reads one line of the command protocol.
pub fn parse_command(line: &str) -> (r: Result<Commands, CommandError>)
    ensures
        parsed_view(r) == parse_spec(line@),
{
    let t = trim(line);
    let ts = t.as_str();
    let n = ts.unicode_len();
    let mut k: usize = 0;
    while k < n && ts.get_char(k) != ' '
        invariant
            k <= n,
            n == ts@.len(),
            ts@ == t@,
            forall|j: int| 0 <= j < k ==> ts@[j] != ' ',
        decreases n - k,
    {
        k = k + 1;
    }
    proof {
        lemma_space_index(t@, k as int);
    }
    let verb = String::from_str(ts.substring_char(0, k));
    let load = String::from_str("load");
    let switch = String::from_str("switch");
    let reload = String::from_str("reload");
    if !(verb == load || verb == switch || verb == reload) {
        return Err(CommandError::InvalidCommand(verb));
    }
    if k == n {
        return Err(CommandError::WrongArgumentCount(verb));
    }
    let arg = trim(ts.substring_char(k + 1, n));
    if contains_white_space(arg.as_str()) {
        return Err(CommandError::WrongArgumentCount(verb));
    }
    if verb == load {
        Ok(Commands::Load(arg))
    } else if verb == switch {
        Ok(Commands::Switch(arg))
    } else {
        Ok(Commands::Reload(arg))
    }
}

} // verus!
