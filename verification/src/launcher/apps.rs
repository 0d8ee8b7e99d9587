//! Starting applications: the program and arguments an application's
//! command line is run with.

use vstd::prelude::*;

verus! {

broadcast use vstd::string::group_string_axioms;

/// The program and arguments that start the command line `command`: in the
/// configured terminal when the application runs in a terminal and a
/// terminal command is set, else through `sh -c`.
pub open spec fn launch_parts(command: Seq<char>, is_terminal: bool, terminal_cmd: Option<Seq<char>>) -> (
    Seq<char>,
    Seq<Seq<char>>,
) {
    match terminal_cmd {
        Some(t) if is_terminal => (t, seq![command]),
        _ => ("sh"@, seq!["-c"@, command]),
    }
}

/// The program and arguments that start an application.
pub fn app_launch_command(command: &str, is_terminal: bool, terminal_cmd: &Option<String>) -> (r: (
    String,
    Vec<String>,
))
    ensures
        (r.0@, r.1@.map_values(|a: String| a@)) == launch_parts(
            command@,
            is_terminal,
            match terminal_cmd {
                Some(t) => Some(t@),
                None => None,
            },
        ),
{
    let mut args: Vec<String> = Vec::new();
    if is_terminal {
        if let Some(cmd) = terminal_cmd {
            args.push(command.to_owned());
            assert(args@.map_values(|a: String| a@) =~= seq![command@]);
            return (cmd.clone(), args);
        }
    }
    args.push("-c".to_owned());
    args.push(command.to_owned());
    assert(args@.map_values(|a: String| a@) =~= seq!["-c"@, command@]);
    ("sh".to_owned(), args)
}


/// A terminal application with a configured terminal runs as the
/// terminal's program with the command as its one argument; every other
/// application runs through the shell: `sh`, `-c` and the command, whatever
/// terminal is configured.
pub proof fn law_apps_run_through_the_shell_unless_in_a_terminal(
    command: Seq<char>,
    is_terminal: bool,
    terminal_cmd: Option<Seq<char>>,
)
    ensures
        !is_terminal ==> launch_parts(command, is_terminal, terminal_cmd) == ("sh"@, seq!["-c"@, command]),
        terminal_cmd is None ==> launch_parts(command, is_terminal, terminal_cmd) == ("sh"@, seq!["-c"@, command]),
        is_terminal && terminal_cmd is Some ==> launch_parts(command, is_terminal, terminal_cmd) == (
            terminal_cmd.unwrap(),
            seq![command],
        ),
{
}

} // verus!
