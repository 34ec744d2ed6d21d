use terminal_manager::error::{backend_result, BackendCall, TerminalError};
use terminal_manager::spawn::{pty_size, shell_command, shell_program, Platform, PtyDimensions};

#[test]
fn pty_size_keeps_rows_and_columns() {
    assert_eq!(
        pty_size(80, 24),
        PtyDimensions { rows: 24, cols: 80, pixel_width: 0, pixel_height: 0 }
    );
    assert_eq!(
        pty_size(1, 65535),
        PtyDimensions { rows: 65535, cols: 1, pixel_width: 0, pixel_height: 0 }
    );
}

#[test]
fn pty_size_passes_zero_through() {
    assert_eq!(pty_size(0, 0), PtyDimensions { rows: 0, cols: 0, pixel_width: 0, pixel_height: 0 });
    assert_eq!(pty_size(0, 7), PtyDimensions { rows: 7, cols: 0, pixel_width: 0, pixel_height: 0 });
}

#[test]
fn windows_runs_powershell() {
    assert_eq!(shell_program(Platform::Windows, None), "powershell.exe");
    assert_eq!(shell_program(Platform::Windows, Some("/bin/zsh".to_string())), "powershell.exe");
}

#[test]
fn posix_runs_the_configured_shell() {
    assert_eq!(shell_program(Platform::Posix, Some("/bin/zsh".to_string())), "/bin/zsh");
    assert_eq!(shell_program(Platform::Posix, Some("fish".to_string())), "fish");
    assert_eq!(shell_program(Platform::Posix, Some(String::new())), "");
}

#[test]
fn posix_falls_back_to_bash() {
    assert_eq!(shell_program(Platform::Posix, None), "/bin/bash");
}

#[test]
fn shell_command_sets_term() {
    let command = shell_command(Platform::Posix, Some("/bin/zsh".to_string()));
    assert_eq!(command.program, "/bin/zsh");
    assert_eq!(command.env, vec![("TERM".to_string(), "xterm-256color".to_string())]);
    let command = shell_command(Platform::Windows, None);
    assert_eq!(command.program, "powershell.exe");
    assert_eq!(command.env, vec![("TERM".to_string(), "xterm-256color".to_string())]);
    let command = shell_command(Platform::Posix, None);
    assert_eq!(command.program, "/bin/bash");
    assert_eq!(command.env.len(), 1);
}

#[test]
fn error_messages() {
    assert_eq!(TerminalError::SessionNotFound.message(), "Session not found");
    assert_eq!(TerminalError::PtyAllocation("no pty".to_string()).message(), "no pty");
    assert_eq!(TerminalError::SpawnFailure("no shell".to_string()).message(), "no shell");
    assert_eq!(TerminalError::WriteFailure("broken pipe".to_string()).message(), "broken pipe");
    assert_eq!(TerminalError::WriteFailure(String::new()).message(), "");
}

#[test]
fn backend_failures_are_classified() {
    let text = || "it failed".to_string();
    assert_eq!(TerminalError::from_backend(BackendCall::OpenPty, text()), TerminalError::PtyAllocation(text()));
    assert_eq!(TerminalError::from_backend(BackendCall::SpawnCommand, text()), TerminalError::SpawnFailure(text()));
    assert_eq!(TerminalError::from_backend(BackendCall::CloneReader, text()), TerminalError::PtyAllocation(text()));
    assert_eq!(TerminalError::from_backend(BackendCall::TakeWriter, text()), TerminalError::PtyAllocation(text()));
    assert_eq!(TerminalError::from_backend(BackendCall::Write, text()), TerminalError::WriteFailure(text()));
    assert_eq!(TerminalError::from_backend(BackendCall::Flush, text()), TerminalError::WriteFailure(text()));
}

#[test]
fn backend_result_passes_values_and_classifies_failures() {
    assert_eq!(backend_result(BackendCall::OpenPty, Ok(7)), Ok(7));
    assert_eq!(backend_result(BackendCall::Write, Ok(())), Ok(()));
    assert_eq!(
        backend_result::<u8>(BackendCall::SpawnCommand, Err("not found".to_string())),
        Err(TerminalError::SpawnFailure("not found".to_string()))
    );
    assert_eq!(
        backend_result::<()>(BackendCall::Flush, Err("broken pipe".to_string())),
        Err(TerminalError::WriteFailure("broken pipe".to_string()))
    );
    assert_eq!(
        backend_result::<u8>(BackendCall::OpenPty, Err("too many".to_string())),
        Err(TerminalError::PtyAllocation("too many".to_string()))
    );
}
