//! The command line: which mode an argument list selects, the help text, and
//! what is said around a service change that needs administrator rights.

use vstd::prelude::*;
use vstd::string::StrSliceExecFns;
use crate::service::{DISPLAY_NAME, NAME};
use crate::text::{decimal, push_decimal};

verus! {

/// The mode the command line selects.
#[derive(Clone, Copy, Debug, PartialEq, Eq)]
pub enum Command {
    /// No option: run the hooks in this terminal, stopping on Ctrl-C.
    Foreground,
    /// `-h` or `--help`: print the help.
    Help,
    /// `--install`: install and start the service.
    Install,
    /// `--uninstall`: stop and remove the service.
    Uninstall,
    /// `--service`: run as the service (started by the service manager).
    Service,
    /// `--user`: run the hooks for the service in the user's session.
    User,
    /// Anything else: say so, print the help, exit with status 2.
    Invalid,
}

/// The parsed command line: the program name to show, and the mode.
#[derive(Debug, PartialEq, Eq)]
pub struct Cli {
    pub program: String,
    pub command: Command,
}

/// A line to print, on standard error or standard output.
#[derive(Debug, PartialEq, Eq)]
pub struct Notice {
    pub to_stderr: bool,
    pub text: String,
}

/// The mode selected by the arguments that follow the program name.
pub open spec fn command_of(args: Seq<Seq<char>>) -> Command {
    if args.len() == 0 {
        Command::Foreground
    } else if args.len() == 1 {
        let a = args[0];
        if a == "-h"@ || a == "--help"@ {
            Command::Help
        } else if a == "--install"@ {
            Command::Install
        } else if a == "--uninstall"@ {
            Command::Uninstall
        } else if a == "--service"@ {
            Command::Service
        } else if a == "--user"@ {
            Command::User
        } else {
            Command::Invalid
        }
    } else {
        Command::Invalid
    }
}

/// The text of each argument.
pub open spec fn texts(args: Seq<String>) -> Seq<Seq<char>> {
    args.map_values(|a: String| a@)
}

/// The arguments after the program name (none when there is no argument at all).
pub open spec fn options_of(args: Seq<Seq<char>>) -> Seq<Seq<char>> {
    if args.len() == 0 {
        args
    } else {
        args.skip(1)
    }
}

/// Whether two strings hold the same characters.
pub fn same_text(a: &str, b: &str) -> (same: bool)
    ensures
        same == (a@ == b@),
{
    let n = a.unicode_len();
    if n != b.unicode_len() {
        return false;
    }
    let mut i: usize = 0;
    while i < n
        invariant
            n == a@.len(),
            n == b@.len(),
            i <= n,
            forall|j: int| 0 <= j < i ==> a@[j] == b@[j],
        decreases n - i,
    {
        if a.get_char(i) != b.get_char(i) {
            return false;
        }
        i = i + 1;
    }
    assert(a@ =~= b@);
    true
}

/// The mode selected by one argument.
fn command_of_one(arg: &str) -> (c: Command)
    ensures
        c == command_of(seq![arg@]),
{
    if same_text(arg, "-h") || same_text(arg, "--help") {
        Command::Help
    } else if same_text(arg, "--install") {
        Command::Install
    } else if same_text(arg, "--uninstall") {
        Command::Uninstall
    } else if same_text(arg, "--service") {
        Command::Service
    } else if same_text(arg, "--user") {
        Command::User
    } else {
        Command::Invalid
    }
}

/// Parses the whole argument list, program name first: the program name is
/// the first argument (the service name when there is none), and the mode is
/// chosen by the arguments after it.
pub fn parse_cli(args: &Vec<String>) -> (cli: Cli)
    ensures
        args@.len() == 0 ==> cli.program@ == NAME@,
        args@.len() > 0 ==> cli.program@ == args@[0]@,
        cli.command == command_of(options_of(texts(args@))),
        args@.len() <= 1 ==> cli.command == Command::Foreground,
        args@.len() > 2 ==> cli.command == Command::Invalid,
        args@.len() == 2 ==> ((cli.command == Command::Help) == (args@[1]@ == "-h"@ || args@[1]@
            == "--help"@)),
        args@.len() == 2 ==> ((cli.command == Command::Install) == (args@[1]@ == "--install"@)),
        args@.len() == 2 ==> ((cli.command == Command::Uninstall) == (args@[1]@
            == "--uninstall"@)),
        args@.len() == 2 ==> ((cli.command == Command::Service) == (args@[1]@ == "--service"@)),
        args@.len() == 2 ==> ((cli.command == Command::User) == (args@[1]@ == "--user"@)),
        args@.len() == 2 ==> cli.command != Command::Foreground,
{
    let program = if args.len() == 0 {
        String::from_str(NAME)
    } else {
        args[0].clone()
    };
    let ghost rest = options_of(texts(args@));
    let command = if args.len() <= 1 {
        assert(rest.len() == 0);
        Command::Foreground
    } else if args.len() == 2 {
        assert(rest =~= seq![args@[1]@]);
        command_of_one(args[1].as_str())
    } else {
        assert(rest.len() > 1);
        Command::Invalid
    };
    proof {
        options_distinct();
    }
    Cli { program, command }
}

/// The help text after the program name.
pub const HELP_OPTIONS: &'static str = " [OPTION]\n\nOptions:\n  --install       Install and start the Windows service\n  --uninstall     Stop and uninstall the Windows service\n  --service       Run as a Windows service (used by SCM)\n  -h, --help      Show this help\n\nWithout options, runs in the foreground.";

/// The help text for the program named `program`.
pub fn help_text(program: &str) -> (text: String)
    ensures
        text@ == "Usage: "@ + program@ + HELP_OPTIONS@,
{
    let mut text = String::from_str("Usage: ");
    text.append(program);
    text.append(HELP_OPTIONS);
    text
}

/// The line said before the help when the arguments are not understood.
pub const INVALID_ARGUMENTS: &'static str = "Unknown or invalid arguments.\n";

/// Whether the service change asked for by `arg` has anything to do, given
/// whether the service is installed.
pub open spec fn change_needed(arg: Seq<char>, installed: bool) -> bool {
    !((arg == "--install"@ && installed) || (arg == "--uninstall"@ && !installed))
}

/// Decides whether the service change asked for by `arg` (`--install` or
/// `--uninstall`) has to run with administrator rights: not when the service
/// is already in the state asked for, which is then said on standard error.
pub fn service_change_requires_elevation(arg: &str, installed: bool) -> (decision: (
    bool,
    Option<Notice>,
))
    ensures
        decision.0 == change_needed(arg@, installed),
        decision.0 == !((arg@ == "--install"@ && installed) || (arg@ == "--uninstall"@
            && !installed)),
        decision.0 ==> decision.1 is None,
        arg@ == "--install"@ && installed ==> (decision.1 matches Some(n) && n.to_stderr
            && n.text@ == "Service "@ + DISPLAY_NAME@ + " already installed"@),
        arg@ == "--uninstall"@ && !installed ==> (decision.1 matches Some(n) && n.to_stderr
            && n.text@ == "Service "@ + DISPLAY_NAME@ + " is not installed"@),
{
    let is_install = same_text(arg, "--install");
    let is_uninstall = same_text(arg, "--uninstall");
    if is_install && installed {
        let mut text = String::from_str("Service ");
        text.append(DISPLAY_NAME);
        text.append(" already installed");
        (false, Some(Notice { to_stderr: true, text }))
    } else if is_uninstall && !installed {
        let mut text = String::from_str("Service ");
        text.append(DISPLAY_NAME);
        text.append(" is not installed");
        (false, Some(Notice { to_stderr: true, text }))
    } else {
        (true, None)
    }
}

/// What is said once the elevated `arg` run ended with `exit_code`, given
/// whether the service is installed now (`None`: that could not be found out).
pub open spec fn elevated_report_of(arg: Seq<char>, installed: Option<bool>, exit_code: u32) -> (
    bool,
    Seq<char>,
) {
    let code = decimal(exit_code as nat);
    match installed {
        None => (
            true,
            "Elevated "@ + arg + " finished, but service state could not be queried. Exit code: "@
                + code
                + "."@,
        ),
        Some(true) => if arg == "--install"@ {
            if exit_code == 0 {
                (false, "Install completed: service "@ + DISPLAY_NAME@ + " is installed."@)
            } else {
                (
                    true,
                    "Install finished with exit code "@ + code + ", but service "@ + DISPLAY_NAME@
                        + " is installed."@,
                )
            }
        } else if arg == "--uninstall"@ {
            (
                true,
                "Uninstall did not complete: service "@ + DISPLAY_NAME@
                    + " still exists. Exit code: "@ + code + "."@,
            )
        } else {
            (false, "Elevated "@ + arg + " finished. Exit code: "@ + code + "."@)
        },
        Some(false) => if arg == "--install"@ {
            (
                true,
                "Install did not complete: service "@ + DISPLAY_NAME@
                    + " is not installed. Exit code: "@ + code + "."@,
            )
        } else if arg == "--uninstall"@ {
            if exit_code == 0 {
                (
                    false,
                    "Uninstall completed: service "@ + DISPLAY_NAME@ + " has been uninstalled."@,
                )
            } else {
                (
                    true,
                    "Uninstall finished with exit code "@ + code + ", and service "@
                        + DISPLAY_NAME@ + " is not installed."@,
                )
            }
        } else {
            (false, "Elevated "@ + arg + " finished. Exit code: "@ + code + "."@)
        },
    }
}

/// The line said once the elevated run of `arg` ended with `exit_code`; when
/// the service state could not be queried (`installed` is `None`) the caller
/// prints the query's error after it.
pub fn report_elevated_service_result(arg: &str, installed: Option<bool>, exit_code: u32) -> (
    notice: Notice)
    ensures
        (notice.to_stderr, notice.text@) == elevated_report_of(arg@, installed, exit_code),
        // A state that could not be queried is reported on standard error.
        installed is None ==> notice.to_stderr,
        // Success is said only when the service ended in the state asked for
        // and the elevated run exited with 0.
        arg@ == "--install"@ && !notice.to_stderr ==> installed == Some(true) && exit_code == 0,
        arg@ == "--uninstall"@ && !notice.to_stderr ==> installed == Some(false) && exit_code
            == 0,
        arg@ == "--install"@ && installed == Some(true) && exit_code == 0 ==> !notice.to_stderr
            && notice.text@ == "Install completed: service "@ + DISPLAY_NAME@ + " is installed."@,
        arg@ == "--uninstall"@ && installed == Some(false) && exit_code == 0 ==> !notice.to_stderr
            && notice.text@ == "Uninstall completed: service "@ + DISPLAY_NAME@
            + " has been uninstalled."@,
        // A service left in the wrong state is reported as such, whatever the exit code.
        arg@ == "--install"@ && installed == Some(false) ==> notice.to_stderr && notice.text@
            == "Install did not complete: service "@ + DISPLAY_NAME@
            + " is not installed. Exit code: "@ + decimal(exit_code as nat) + "."@,
        arg@ == "--uninstall"@ && installed == Some(true) ==> notice.to_stderr && notice.text@
            == "Uninstall did not complete: service "@ + DISPLAY_NAME@ + " still exists. Exit code: "@
            + decimal(exit_code as nat) + "."@,
{
    let is_install = same_text(arg, "--install");
    let is_uninstall = same_text(arg, "--uninstall");
    let mut text = String::new();
    let to_stderr = match installed {
        None => {
            text.append("Elevated ");
            text.append(arg);
            text.append(" finished, but service state could not be queried. Exit code: ");
            push_decimal(&mut text, exit_code as u64);
            text.append(".");
            true
        },
        Some(true) => {
            if is_install {
                if exit_code == 0 {
                    text.append("Install completed: service ");
                    text.append(DISPLAY_NAME);
                    text.append(" is installed.");
                    false
                } else {
                    text.append("Install finished with exit code ");
                    push_decimal(&mut text, exit_code as u64);
                    text.append(", but service ");
                    text.append(DISPLAY_NAME);
                    text.append(" is installed.");
                    true
                }
            } else if is_uninstall {
                text.append("Uninstall did not complete: service ");
                text.append(DISPLAY_NAME);
                text.append(" still exists. Exit code: ");
                push_decimal(&mut text, exit_code as u64);
                text.append(".");
                true
            } else {
                text.append("Elevated ");
                text.append(arg);
                text.append(" finished. Exit code: ");
                push_decimal(&mut text, exit_code as u64);
                text.append(".");
                false
            }
        },
        Some(false) => {
            if is_install {
                text.append("Install did not complete: service ");
                text.append(DISPLAY_NAME);
                text.append(" is not installed. Exit code: ");
                push_decimal(&mut text, exit_code as u64);
                text.append(".");
                true
            } else if is_uninstall {
                if exit_code == 0 {
                    text.append("Uninstall completed: service ");
                    text.append(DISPLAY_NAME);
                    text.append(" has been uninstalled.");
                    false
                } else {
                    text.append("Uninstall finished with exit code ");
                    push_decimal(&mut text, exit_code as u64);
                    text.append(", and service ");
                    text.append(DISPLAY_NAME);
                    text.append(" is not installed.");
                    true
                }
            } else {
                text.append("Elevated ");
                text.append(arg);
                text.append(" finished. Exit code: ");
                push_decimal(&mut text, exit_code as u64);
                text.append(".");
                false
            }
        },
    };
    proof {
        options_distinct();
    }
    Notice { to_stderr, text }
}

/// After an elevated `--install` or `--uninstall`, success is said (on
/// standard output) only when the service is found in the state asked for
/// and the elevated run exited with 0; a service found in the other state is
/// always reported on standard error as not done, whatever the exit code; and
/// a state that could not be queried is reported on standard error.
pub proof fn elevated_success_only_when_done(arg: Seq<char>, installed: Option<bool>, exit_code: u32)
    ensures
        ({
            let (to_stderr, text) = elevated_report_of(arg, installed, exit_code);
            let code = decimal(exit_code as nat);
            &&& installed is None ==> to_stderr
            &&& arg == "--install"@ && !to_stderr ==> installed == Some(true) && exit_code == 0
            &&& arg == "--uninstall"@ && !to_stderr ==> installed == Some(false) && exit_code == 0
            &&& arg == "--install"@ && installed == Some(false) ==> to_stderr && text
                == "Install did not complete: service "@ + DISPLAY_NAME@
                + " is not installed. Exit code: "@ + code + "."@
            &&& arg == "--uninstall"@ && installed == Some(true) ==> to_stderr && text
                == "Uninstall did not complete: service "@ + DISPLAY_NAME@
                + " still exists. Exit code: "@ + code + "."@
        }),
{
    options_distinct();
}

/// Each option selects its own mode, and an argument list selects a mode
/// only through its single option.
pub proof fn each_option_selects_its_mode()
    ensures
        command_of(Seq::<Seq<char>>::empty()) == Command::Foreground,
        command_of(seq!["-h"@]) == Command::Help,
        command_of(seq!["--help"@]) == Command::Help,
        command_of(seq!["--install"@]) == Command::Install,
        command_of(seq!["--uninstall"@]) == Command::Uninstall,
        command_of(seq!["--service"@]) == Command::Service,
        command_of(seq!["--user"@]) == Command::User,
        forall|a: Seq<char>, b: Seq<char>| command_of(seq![a, b]) == Command::Invalid,
{
    reveal_strlit("-h");
    reveal_strlit("--help");
    reveal_strlit("--install");
    reveal_strlit("--uninstall");
    reveal_strlit("--service");
    reveal_strlit("--user");
    options_distinct();
}

/// The option texts differ from each other.
proof fn options_distinct()
    ensures
        "-h"@ != "--help"@,
        "-h"@ != "--install"@,
        "-h"@ != "--uninstall"@,
        "-h"@ != "--service"@,
        "-h"@ != "--user"@,
        "--help"@ != "--install"@,
        "--help"@ != "--uninstall"@,
        "--help"@ != "--service"@,
        "--help"@ != "--user"@,
        "--install"@ != "--uninstall"@,
        "--install"@ != "--service"@,
        "--install"@ != "--user"@,
        "--uninstall"@ != "--service"@,
        "--uninstall"@ != "--user"@,
        "--service"@ != "--user"@,
{
    reveal_strlit("-h");
    reveal_strlit("--help");
    reveal_strlit("--install");
    reveal_strlit("--uninstall");
    reveal_strlit("--service");
    reveal_strlit("--user");
    assert("-h"@.len() == 2);
    assert("--help"@.len() == 6);
    assert("--install"@.len() == 9);
    assert("--uninstall"@.len() == 11);
    assert("--service"@.len() == 9);
    assert("--user"@.len() == 6);
    assert("--help"@[2] != "--user"@[2]);
    assert("--install"@[2] != "--service"@[2]);
}

} // verus!
