//! What a new session asks of the operating system: the size of its
//! pseudo-terminal and the shell that runs in it.

use vstd::prelude::*;

verus! {

/// The size of a pseudo-terminal's display area.
#[derive(Debug, Clone, Copy, PartialEq, Eq)]
pub struct PtyDimensions {
    /// The number of lines of text.
    pub rows: u16,
    /// The number of columns of text.
    pub cols: u16,
    /// The width of a cell in pixels.
    pub pixel_width: u16,
    /// The height of a cell in pixels.
    pub pixel_height: u16,
}

/// The kind of system the manager runs on, as far as the choice of a shell
/// depends on it.
#[derive(Debug, Clone, Copy, PartialEq, Eq)]
pub enum Platform {
    /// Windows, whose standard command shell is started.
    Windows,
    /// Any other system, where the user's configured shell is started.
    Posix,
}

/// A program to start in a pseudo-terminal, with the environment variables
/// that are set for it on top of those it inherits.
#[derive(Debug, PartialEq, Eq)]
pub struct ShellCommand {
    /// The executable to run.
    pub program: String,
    /// Names and values of the variables to set, in the order to set them.
    pub env: Vec<(String, String)>,
}

impl ShellCommand {
    /// The variables to set, as pairs of character sequences.
    pub open spec fn spec_env(&self) -> Seq<(Seq<char>, Seq<char>)> {
        Seq::new(self.env@.len(), |i: int| (self.env@[i].0@, self.env@[i].1@))
    }
}

/// The pseudo-terminal size for a session of `cols` columns and `rows`
/// rows. Both are handed on as they are, zero included; no pixel size is
/// given.
pub fn pty_size(cols: u16, rows: u16) -> (size: PtyDimensions)
    ensures
        size == (PtyDimensions { rows, cols, pixel_width: 0, pixel_height: 0 }),
{
    PtyDimensions { rows, cols, pixel_width: 0, pixel_height: 0 }
}

/// The shell of a session: PowerShell on Windows; elsewhere the shell that
/// the user has configured, and `/bin/bash` where none is configured.
pub open spec fn spec_shell_program(platform: Platform, configured: Option<Seq<char>>) -> Seq<
    char,
> {
    match platform {
        Platform::Windows => "powershell.exe"@,
        Platform::Posix => match configured {
            Some(shell) => shell,
            None => "/bin/bash"@,
        },
    }
}

/// The characters of an optional string.
pub open spec fn spec_text(text: Option<String>) -> Option<Seq<char>> {
    match text {
        Some(s) => Some(s@),
        None => None,
    }
}

/// Chooses the shell executable for `platform`; `configured` is the shell
/// that the user's environment names, if it names one.
pub fn shell_program(platform: Platform, configured: Option<String>) -> (program: String)
    ensures
        program@ == spec_shell_program(platform, spec_text(configured)),
{
    match platform {
        Platform::Windows => "powershell.exe".to_owned(),
        Platform::Posix => match configured {
            Some(shell) => shell,
            None => "/bin/bash".to_owned(),
        },
    }
}

/// The command that starts a session's shell: the platform's shell, told
/// through `TERM` that the terminal understands 256 colours.
pub fn shell_command(platform: Platform, configured: Option<String>) -> (command: ShellCommand)
    ensures
        command.program@ == spec_shell_program(platform, spec_text(configured)),
        command.spec_env() == seq![("TERM"@, "xterm-256color"@)],
{
    let program = shell_program(platform, configured);
    let mut env: Vec<(String, String)> = Vec::new();
    env.push(("TERM".to_owned(), "xterm-256color".to_owned()));
    let command = ShellCommand { program, env };
    assert(command.spec_env() =~= seq![("TERM"@, "xterm-256color"@)]);
    command
}

} // verus!
