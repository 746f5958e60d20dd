//! Commands handed to the outside world: the server launch command, the
//! fallback command, and the requests made of the session manager.

use vstd::prelude::*;
use vstd::string::StringExecFns;

verus! {

/// A program and the arguments it is run with.
#[derive(Debug, PartialEq, Eq)]
pub struct Command {
    pub program: String,
    pub args: Vec<String>,
}

/// What a [`Command`] stands for: the program's name and its arguments, in order.
pub struct CommandView {
    pub program: Seq<char>,
    pub args: Seq<Seq<char>>,
}

/// The texts of a sequence of strings.
pub open spec fn texts(words: Seq<String>) -> Seq<Seq<char>> {
    words.map_values(|w: String| w@)
}

impl View for Command {
    type V = CommandView;

    open spec fn view(&self) -> CommandView {
        CommandView { program: self.program@, args: texts(self.args@) }
    }
}

/// The command that a list of words spells: the first word is the program,
/// the rest are its arguments. An empty list spells no command.
pub open spec fn command_of(words: Seq<Seq<char>>) -> Option<CommandView> {
    if words.len() == 0 {
        None
    } else {
        Some(CommandView { program: words[0], args: words.skip(1) })
    }
}

/// The session manager's program.
pub open spec fn manager_program() -> Seq<char> {
    "systemctl"@
}

/// The session-manager unit that stands for the running graphical session.
pub open spec fn session_target() -> Seq<char> {
    "stardust-xr-session.target"@
}

/// `NAME=VALUE`, the form in which a variable is handed to the session manager.
pub open spec fn assignment(name: Seq<char>, value: Seq<char>) -> Seq<char> {
    name + "="@ + value
}

/// The request that pushes one variable into the session manager's environment.
pub open spec fn set_environment(name: Seq<char>, value: Seq<char>) -> CommandView {
    CommandView {
        program: manager_program(),
        args: seq!["--user"@, "set-environment"@, assignment(name, value)],
    }
}

/// The non-blocking request to start the session target.
pub open spec fn start_target() -> CommandView {
    CommandView {
        program: manager_program(),
        args: seq!["--user"@, "start"@, "--no-block"@, session_target()],
    }
}

/// The non-blocking request to stop the session target.
pub open spec fn stop_target() -> CommandView {
    CommandView {
        program: manager_program(),
        args: seq!["--user"@, "stop"@, "--no-block"@, session_target()],
    }
}

/// The words of a list joined into one line, with `separator` between neighbours.
pub open spec fn joined(words: Seq<Seq<char>>, separator: Seq<char>) -> Seq<char>
    decreases words.len(),
{
    if words.len() == 0 {
        Seq::empty()
    } else if words.len() == 1 {
        words[0]
    } else {
        joined(words.drop_last(), separator) + separator + words.last()
    }
}

/// The command that hands a line to the shell.
pub open spec fn shell(words: Seq<Seq<char>>) -> CommandView {
    CommandView { program: "/bin/bash"@, args: seq!["-c"@, joined(words, " "@)] }
}

/// A copy of a list of strings.
pub fn copy_words(words: &Vec<String>) -> (copy: Vec<String>)
    ensures
        copy@ == words@,
{
    let mut copy: Vec<String> = Vec::new();
    let mut i: usize = 0;
    while i < words.len()
        invariant
            i <= words.len(),
            copy@ == words@.take(i as int),
        decreases words.len() - i,
    {
        copy.push(words[i].clone());
        i += 1;
    }
    copy
}

impl Command {
    /// Splits a list of words into program and arguments.
    /// Returns `None` exactly when the list is empty.
    pub fn from_words(words: Vec<String>) -> (command: Option<Command>)
        ensures
            match command {
                Some(c) => command_of(texts(words@)) == Some(c@),
                None => command_of(texts(words@)) is None,
            },
    {
        let mut args = words;
        if args.len() == 0 {
            return None;
        }
        let program = args.remove(0);
        proof {
            assert(texts(args@) =~= texts(words@).skip(1));
        }
        Some(Command { program, args })
    }

    /// A copy of this command.
    pub fn duplicate(&self) -> (copy: Command)
        ensures
            copy@ == self@,
    {
        Command { program: self.program.clone(), args: copy_words(&self.args) }
    }

    /// The request that pushes the variable `name`, with `value`, into the
    /// session manager's environment.
    pub fn set_environment(name: &String, value: &String) -> (command: Command)
        ensures
            command@ == set_environment(name@, value@),
    {
        let mut assignment = name.clone();
        assignment.append("=");
        assignment.append(value.as_str());
        let mut args: Vec<String> = Vec::new();
        args.push(String::from_str("--user"));
        args.push(String::from_str("set-environment"));
        args.push(assignment);
        let command = Command { program: String::from_str("systemctl"), args };
        proof {
            assert(command@.args =~= set_environment(name@, value@).args);
        }
        command
    }

    /// The non-blocking request to start the session target.
    pub fn start_target() -> (command: Command)
        ensures
            command@ == start_target(),
    {
        let mut args: Vec<String> = Vec::new();
        args.push(String::from_str("--user"));
        args.push(String::from_str("start"));
        args.push(String::from_str("--no-block"));
        args.push(String::from_str("stardust-xr-session.target"));
        let command = Command { program: String::from_str("systemctl"), args };
        proof {
            assert(command@.args =~= start_target().args);
        }
        command
    }

    /// The non-blocking request to stop the session target.
    pub fn stop_target() -> (command: Command)
        ensures
            command@ == stop_target(),
    {
        let mut args: Vec<String> = Vec::new();
        args.push(String::from_str("--user"));
        args.push(String::from_str("stop"));
        args.push(String::from_str("--no-block"));
        args.push(String::from_str("stardust-xr-session.target"));
        let command = Command { program: String::from_str("systemctl"), args };
        proof {
            assert(command@.args =~= stop_target().args);
        }
        command
    }

    /// The command that runs `words`, joined by single spaces, as one line of
    /// the shell.
    pub fn shell(words: &Vec<String>) -> (command: Command)
        ensures
            command@ == shell(texts(words@)),
    {
        let mut line = String::new();
        let mut i: usize = 0;
        while i < words.len()
            invariant
                i <= words.len(),
                line@ == joined(texts(words@).take(i as int), " "@),
            decreases words.len() - i,
        {
            proof {
                let before = texts(words@).take(i as int);
                let after = texts(words@).take(i + 1);
                assert(after.drop_last() =~= before);
                assert(after.last() == words@[i as int]@);
                if i == 0 {
                    assert(line@ + words@[i as int]@ =~= words@[i as int]@);
                }
            }
            if i > 0 {
                line.append(" ");
            }
            line.append(words[i].as_str());
            i += 1;
        }
        proof {
            assert(texts(words@).take(words.len() as int) =~= texts(words@));
        }
        let mut args: Vec<String> = Vec::new();
        args.push(String::from_str("-c"));
        args.push(line);
        let command = Command { program: String::from_str("/bin/bash"), args };
        proof {
            assert(command@.args =~= shell(texts(words@)).args);
        }
        command
    }
}

} // verus!
