//! What is known of terminal programs, and the argument vectors made for them.
use crate::config::types::Config;
use crate::command_line::{argv_of, split_command_line};
use crate::text::{among, str_eq, trim, trimmed, views};
use vstd::prelude::*;

verus! {

/// What a known terminal can do.
#[derive(Debug, Clone, Copy, PartialEq, Eq, Structural)]
pub enum ExecuteFlag {
    /// It runs no command: interactive use only.
    Interactive,
    /// The command follows `--`.
    DoubleDash,
    /// The command follows `-x`.
    X,
    /// The command follows `-e`.
    E,
}

impl ExecuteFlag {
    /// The argument in front of the command.
    pub open spec fn text(self) -> Option<Seq<char>> {
        match self {
            ExecuteFlag::Interactive => None,
            ExecuteFlag::DoubleDash => Some("--"@),
            ExecuteFlag::X => Some("-x"@),
            ExecuteFlag::E => Some("-e"@),
        }
    }

    fn argument(self) -> (r: Option<&'static str>)
        ensures
            match r {
                Some(s) => self.text() == Some(s@),
                None => self.text() is None,
            },
    {
        match self {
            ExecuteFlag::Interactive => None,
            ExecuteFlag::DoubleDash => Some("--"),
            ExecuteFlag::X => Some("-x"),
            ExecuteFlag::E => Some("-e"),
        }
    }
}

/// A known terminal.
#[derive(Debug, Clone, Copy, PartialEq, Eq, Structural)]
pub struct TerminalConfig {
    /// How it is told to run a command.
    pub execute_flag: ExecuteFlag,
    /// Whether the started process owns the window it opens.
    pub scratchpad_pid_stable: bool,
}

/// What is known of the terminal `program`.
pub open spec fn terminal_named(program: Seq<char>) -> Option<TerminalConfig> {
    if program == "frost"@ {
        Some(TerminalConfig { execute_flag: ExecuteFlag::Interactive, scratchpad_pid_stable: true })
    } else if program == "ember"@ {
        Some(TerminalConfig { execute_flag: ExecuteFlag::Interactive, scratchpad_pid_stable: true })
    } else if program == "forge"@ {
        Some(TerminalConfig { execute_flag: ExecuteFlag::E, scratchpad_pid_stable: true })
    } else if program == "anvil"@ {
        Some(TerminalConfig { execute_flag: ExecuteFlag::E, scratchpad_pid_stable: true })
    } else if program == "terminator"@ {
        Some(TerminalConfig { execute_flag: ExecuteFlag::X, scratchpad_pid_stable: false })
    } else if program == "gnome-terminal"@ {
        Some(
            TerminalConfig { execute_flag: ExecuteFlag::DoubleDash, scratchpad_pid_stable: false },
        )
    } else {
        None
    }
}

/// What is known of the terminal `program`.
pub fn config_for_command(program: &str) -> (r: Option<TerminalConfig>)
    ensures
        r == terminal_named(program@),
{
    if str_eq(program, "frost") {
        Some(TerminalConfig { execute_flag: ExecuteFlag::Interactive, scratchpad_pid_stable: true })
    } else if str_eq(program, "ember") {
        Some(TerminalConfig { execute_flag: ExecuteFlag::Interactive, scratchpad_pid_stable: true })
    } else if str_eq(program, "forge") {
        Some(TerminalConfig { execute_flag: ExecuteFlag::E, scratchpad_pid_stable: true })
    } else if str_eq(program, "anvil") {
        Some(TerminalConfig { execute_flag: ExecuteFlag::E, scratchpad_pid_stable: true })
    } else if str_eq(program, "terminator") {
        Some(TerminalConfig { execute_flag: ExecuteFlag::X, scratchpad_pid_stable: false })
    } else if str_eq(program, "gnome-terminal") {
        Some(
            TerminalConfig { execute_flag: ExecuteFlag::DoubleDash, scratchpad_pid_stable: false },
        )
    } else {
        None
    }
}

/// The known terminals, the preferred ones first.
pub open spec fn terminal_names() -> Seq<&'static str> {
    seq!["frost", "ember", "forge", "anvil", "terminator", "gnome-terminal"]
}

/// The known terminals, the preferred ones first.
pub fn known_terminals() -> (r: Vec<&'static str>)
    ensures
        r@ == terminal_names(),
{
    let names = vec!["frost", "ember", "forge", "anvil", "terminator", "gnome-terminal"];
    assert(names@ == terminal_names());
    names
}

/// Whether a known terminal can be told to run a command.
pub fn runs_commands(program: &str) -> (r: bool)
    ensures
        r == (terminal_named(program@) matches Some(terminal) && terminal.execute_flag
            != ExecuteFlag::Interactive),
{
    match config_for_command(program) {
        Some(terminal) => terminal.execute_flag != ExecuteFlag::Interactive,
        None => false,
    }
}

/// Whether a known terminal can be a scratchpad.
pub fn keeps_its_process(program: &str) -> (r: bool)
    ensures
        r == (terminal_named(program@) matches Some(terminal) && terminal.scratchpad_pid_stable),
{
    match config_for_command(program) {
        Some(terminal) => terminal.scratchpad_pid_stable,
        None => false,
    }
}

/// The argument vector in front of a command that a configured terminal is to
/// run, or `None` when there is no program or it runs no commands.
pub open spec fn execution_prefix(command: Seq<Seq<char>>) -> Option<Seq<Seq<char>>> {
    if command.len() == 0 {
        None
    } else {
        match terminal_named(command[0]) {
            Some(config) => match config.execute_flag.text() {
                Some(flag) => Some(command.push(flag)),
                None => None,
            },
            None => Some(command.push("-e"@)),
        }
    }
}

/// The argument vector in front of a command that a configured terminal is to
/// run. Known terminals use their declared flag; others are taken to
/// understand `-e`.
pub fn configured_terminal_execution_prefix(command: Vec<String>) -> (r: Option<Vec<String>>)
    ensures
        match r {
            Some(v) => execution_prefix(views(command@)) == Some(views(v@)),
            None => execution_prefix(views(command@)) is None,
        },
{
    if command.len() == 0 {
        return None;
    }
    let flag: &'static str = match config_for_command(command[0].as_str()) {
        Some(config) => match config.execute_flag.argument() {
            Some(flag) => flag,
            None => return None,
        },
        None => "-e",
    };
    let ghost before = views(command@);
    let mut command = command;
    command.push(flag.to_string());
    assert(views(command@) == before.push(flag@));
    Some(command)
}

/// Whether a configured terminal can serve as the scratchpad: there is a
/// program, and it is not known to open its window from another process.
pub open spec fn serves_as_scratchpad(command: Seq<Seq<char>>) -> bool {
    command.len() > 0 && match terminal_named(command[0]) {
        Some(config) => config.scratchpad_pid_stable,
        None => true,
    }
}

/// The configured scratchpad terminal, unless it is known to open its window
/// from another process.
pub fn configured_scratchpad_terminal(command: Vec<String>) -> (r: Option<Vec<String>>)
    ensures
        r == if serves_as_scratchpad(views(command@)) {
            Some(command)
        } else {
            None
        },
{
    if command.len() == 0 {
        return None;
    }
    match config_for_command(command[0].as_str()) {
        Some(config) => if config.scratchpad_pid_stable {
            Some(command)
        } else {
            None
        },
        None => Some(command),
    }
}

/// Why a terminal override is not accepted.
#[derive(Debug, Clone, Copy, PartialEq, Eq, Structural)]
pub enum TerminalOverrideError {
    NotUtf8,
    UnterminatedQuote,
    EmptyProgram,
}

impl TerminalOverrideError {
    /// The text of the error.
    pub open spec fn text(self) -> Seq<char> {
        match self {
            TerminalOverrideError::NotUtf8 => "value is not valid UTF-8"@,
            TerminalOverrideError::UnterminatedQuote => "unterminated quote in command line"@,
            TerminalOverrideError::EmptyProgram => "command program is empty"@,
        }
    }

    /// The text of the error.
    pub fn message(&self) -> (r: &'static str)
        ensures
            r@ == self.text(),
    {
        match *self {
            TerminalOverrideError::NotUtf8 => "value is not valid UTF-8",
            TerminalOverrideError::UnterminatedQuote => "unterminated quote in command line",
            TerminalOverrideError::EmptyProgram => "command program is empty",
        }
    }
}

/// The value of an environment variable.
#[derive(Debug, Clone)]
pub enum EnvValue {
    Unset,
    NotUtf8,
    Text(String),
}

/// The command an environment variable states; `None` when it is unset or
/// holds no argument.
pub open spec fn terminal_override(value: EnvValue) -> Result<
    Option<Seq<Seq<char>>>,
    TerminalOverrideError,
> {
    match value {
        EnvValue::Unset => Ok(None),
        EnvValue::NotUtf8 => Err(TerminalOverrideError::NotUtf8),
        EnvValue::Text(text) => match argv_of(text@) {
            None => Err(TerminalOverrideError::UnterminatedQuote),
            Some(argv) => if argv.len() == 0 {
                Ok(None)
            } else if trimmed(argv[0]).len() == 0 {
                Err(TerminalOverrideError::EmptyProgram)
            } else {
                Ok(Some(argv))
            },
        },
    }
}

/// Reads a terminal override from the value of an environment variable.
pub fn parse_terminal_override(value: &EnvValue) -> (r: Result<
    Option<Vec<String>>,
    TerminalOverrideError,
>)
    ensures
        match r {
            Ok(Some(argv)) => terminal_override(*value) == Ok::<
                Option<Seq<Seq<char>>>,
                TerminalOverrideError,
            >(Some(views(argv@))),
            Ok(None) => terminal_override(*value) == Ok::<
                Option<Seq<Seq<char>>>,
                TerminalOverrideError,
            >(None),
            Err(e) => terminal_override(*value) == Err::<
                Option<Seq<Seq<char>>>,
                TerminalOverrideError,
            >(e),
        },
{
    match value {
        EnvValue::Unset => Ok(None),
        EnvValue::NotUtf8 => Err(TerminalOverrideError::NotUtf8),
        EnvValue::Text(text) => match split_command_line(text.as_str()) {
            Err(_) => Err(TerminalOverrideError::UnterminatedQuote),
            Ok(argv) => {
                if argv.len() == 0 {
                    return Ok(None);
                }
                if trim(argv[0].as_str()).as_str().is_empty() {
                    return Err(TerminalOverrideError::EmptyProgram);
                }
                Ok(Some(argv))
            },
        },
    }
}

/// The command that a variable states, where it is valid.
pub open spec fn stated_command(value: EnvValue) -> Option<Seq<Seq<char>>> {
    match terminal_override(value) {
        Ok(command) => command,
        Err(_) => None,
    }
}

/// One word.
pub open spec fn single(word: Seq<char>) -> Seq<Seq<char>> {
    Seq::empty().push(word)
}

/// The terminal to start: the one that the variable states, else the first
/// that was found, else frost.
pub open spec fn terminal_command(stated: EnvValue, found: Option<Seq<char>>) -> Seq<Seq<char>> {
    match stated_command(stated) {
        Some(command) => command,
        None => match found {
            Some(program) => single(program),
            None => single("frost"@),
        },
    }
}

/// What to put before a command so that it runs in a terminal: by the terminal
/// that the variable states, unless that runs no commands; else by the one that
/// was found; and nothing where there is none.
pub open spec fn execution_command(stated: EnvValue, found: Option<Seq<char>>) -> Seq<Seq<char>> {
    let by_stated = match stated_command(stated) {
        Some(command) => execution_prefix(command),
        None => None,
    };
    match by_stated {
        Some(prefix) => prefix,
        None => match found {
            Some(program) => match terminal_named(program) {
                Some(config) => match config.execute_flag.text() {
                    Some(flag) => single(program).push(flag),
                    None => Seq::empty(),
                },
                None => Seq::empty(),
            },
            None => Seq::empty(),
        },
    }
}

/// The terminal of the scratchpad: the one that the variable states, unless its
/// window cannot be told to be its own; else the one that was found, else
/// frost.
pub open spec fn scratchpad_command(stated: EnvValue, found: Option<Seq<char>>) -> Seq<Seq<char>> {
    match stated_command(stated) {
        Some(command) if serves_as_scratchpad(command) => command,
        _ => match found {
            Some(program) => single(program),
            None => single("frost"@),
        },
    }
}

fn one_word(word: &str) -> (r: Vec<String>)
    ensures
        views(r@) == single(word@),
{
    let mut r: Vec<String> = Vec::new();
    r.push(word.to_string());
    assert(views(r@) =~= single(word@));
    r
}

fn found_or_frost(found: Option<&str>) -> (r: Vec<String>)
    ensures
        views(r@) == (match found {
            Some(program) => single(program@),
            None => single("frost"@),
        }),
{
    match found {
        Some(program) => one_word(program),
        None => one_word("frost"),
    }
}

impl Config {
    /// The terminal to start, given the variable that states one and the first
    /// terminal that was found.
    pub fn get_termcmd(stated: &EnvValue, found: Option<&str>) -> (r: Vec<String>)
        ensures
            views(r@) == terminal_command(
                *stated,
                match found {
                    Some(program) => Some(program@),
                    None => None,
                },
            ),
    {
        match parse_terminal_override(stated) {
            Ok(Some(command)) => command,
            _ => found_or_frost(found),
        }
    }

    /// What to put before a command so that it runs in a terminal.
    pub fn get_terminal_exec_prefix(stated: &EnvValue, found: Option<&str>) -> (r: Vec<String>)
        ensures
            views(r@) == execution_command(
                *stated,
                match found {
                    Some(program) => Some(program@),
                    None => None,
                },
            ),
    {
        if let Ok(Some(command)) = parse_terminal_override(stated) {
            if let Some(prefix) = configured_terminal_execution_prefix(command) {
                return prefix;
            }
        }
        if let Some(program) = found {
            if let Some(config) = config_for_command(program) {
                if let Some(flag) = config.execute_flag.argument() {
                    let mut r = one_word(program);
                    let ghost before = r@;
                    r.push(flag.to_string());
                    assert(views(r@) =~= views(before).push(flag@));
                    return r;
                }
            }
        }
        let r: Vec<String> = Vec::new();
        assert(views(r@) =~= Seq::empty());
        r
    }

    /// The terminal of the scratchpad.
    pub fn get_scratchpad_termcmd(stated: &EnvValue, found: Option<&str>) -> (r: Vec<String>)
        ensures
            views(r@) == scratchpad_command(
                *stated,
                match found {
                    Some(program) => Some(program@),
                    None => None,
                },
            ),
    {
        if let Ok(Some(command)) = parse_terminal_override(stated) {
            if let Some(command) = configured_scratchpad_terminal(command) {
                return command;
            }
        }
        found_or_frost(found)
    }
}

/// A command runs in a terminal by the terminal's own words and one flag after
/// them: the stated terminal before the one that was found, and never one that
/// runs no commands.
pub proof fn commands_run_in_a_terminal(stated: EnvValue, found: Option<Seq<char>>)
    ensures
        ({
            let r = execution_command(stated, found);
            let own = stated_command(stated);
            let runs = |program: Seq<char>| terminal_named(program) matches Some(t)
                && t.execute_flag != ExecuteFlag::Interactive;
            &&& r.len() > 0 ==> r.last() == "-e"@ || r.last() == "-x"@ || r.last() == "--"@
            &&& r.len() > 0 ==> r.len() > 1 && (runs(r[0]) || terminal_named(r[0]) is None)
            &&& own is Some && own->0.len() > 0 && (runs(own->0[0]) || terminal_named(own->0[0]) is None)
                ==> r.drop_last() == own->0
            &&& own is None && found is Some && runs(found->0) ==> r.drop_last() == seq![found->0]
            &&& own is None && found is Some && !runs(found->0) ==> r.len() == 0
            &&& own is None && found is None ==> r.len() == 0
            &&& r.len() > 0 && terminal_named(r[0]) is None ==> r.last() == "-e"@
        }),
{
    let r = execution_command(stated, found);
    if let Some(command) = stated_command(stated) {
        if command.len() > 0 {
            if let Some(prefix) = execution_prefix(command) {
                assert(prefix.drop_last() =~= command);
                assert(prefix[0] == command[0]);
            }
        }
    }
    if let Some(program) = found {
        assert(r == single(program).push(r.last()) ==> r.drop_last() =~= seq![program]);
        assert(single(program)[0] == program);
    }
}

/// A terminal is started as it is stated; where none is, the one that was found
/// is started by its name alone. Only a scratchpad passes over a stated one that
/// opens its window from another process.
pub proof fn the_stated_terminal_is_started(stated: EnvValue, found: Option<Seq<char>>)
    ensures
        ({
            let own = stated_command(stated);
            let fallback = seq![match found {
                Some(program) => program,
                None => "frost"@,
            }];
            let elsewhere = own is Some && own->0.len() > 0 && terminal_named(own->0[0]) is Some
                && !terminal_named(own->0[0])->0.scratchpad_pid_stable;
            &&& own is Some ==> own->0.len() > 0 && trimmed(own->0[0]).len() > 0
            &&& own is Some ==> terminal_command(stated, found) == own->0
            &&& own is None ==> terminal_command(stated, found) == fallback
            &&& own is Some && !elsewhere ==> scratchpad_command(stated, found) == own->0
            &&& own is None || elsewhere ==> scratchpad_command(stated, found) == fallback
        }),
{
    if let Some(program) = found {
        assert(single(program) =~= seq![program]);
    }
    assert(single("frost"@) =~= seq!["frost"@]);
}

/// A variable states a command just where it can be split into words of which
/// the first is not blank; a blank one states none and is no mistake.
pub proof fn overrides_are_command_lines(text: String)
    ensures
        ({
            let value = EnvValue::Text(text);
            let words = argv_of(text@);
            &&& stated_command(value) is Some <==> words is Some && words->0.len() > 0 && trimmed(
                words->0[0],
            ).len() > 0
            &&& stated_command(value) is Some ==> stated_command(value) == words
            &&& words is Some && words->0.len() == 0 ==> terminal_override(value) is Ok
            &&& words is None ==> terminal_override(value) is Err
            &&& words is Some && words->0.len() > 0 && trimmed(words->0[0]).len() == 0
                ==> terminal_override(value) is Err
        }),
        stated_command(EnvValue::Unset) is None,
        terminal_override(EnvValue::Unset) is Ok,
        terminal_override(EnvValue::NotUtf8) is Err,
{
}

/// The known terminals are those of the list.
pub proof fn the_list_holds_the_known_terminals(program: Seq<char>)
    ensures
        terminal_named(program) is Some <==> among(program, terminal_names()),
{
    let all = terminal_names();
    if terminal_named(program) is Some {
        assert(all[0]@ == "frost"@ && all[1]@ == "ember"@ && all[2]@ == "forge"@);
        assert(all[3]@ == "anvil"@ && all[4]@ == "terminator"@ && all[5]@ == "gnome-terminal"@);
    }
}

} // verus!
