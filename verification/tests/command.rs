use setwlkbmap::command::{Invocation, ProcessReport};
use setwlkbmap::error::{ErrorKind, KeymapError};

#[test]
fn creates_expected_commands() {
    assert_eq!(Invocation::new("neofetch").as_shell_cmd(), "neofetch".to_string());
    assert_eq!(
        Invocation::new("This").arg("was").arg("a Triumph").arg("!").as_shell_cmd(),
        "This was \"a Triumph\" !"
    )
}

#[test]
fn builder_keeps_program_and_arguments_in_order() {
    let invocation = Invocation::new("swaymsg").arg("input").arg("type:keyboard");
    assert_eq!(invocation.program, "swaymsg");
    assert_eq!(invocation.args, vec!["input".to_string(), "type:keyboard".to_string()]);
    assert_eq!(Invocation::new("x").args, Vec::<String>::new());
}

#[test]
fn every_argument_follows_a_single_space() {
    assert_eq!(Invocation::new("x").arg("").as_shell_cmd(), "x ");
    assert_eq!(Invocation::new("x").arg("").arg("").as_shell_cmd(), "x  ");
    assert_eq!(Invocation::new("x").arg(" ").as_shell_cmd(), "x \" \"");
    assert_eq!(Invocation::new("a b").arg("c").as_shell_cmd(), "a b c");
    assert_eq!(Invocation::new("x").arg("a\tb").arg("''").as_shell_cmd(), "x a\tb ''");
    assert_eq!(Invocation::new("x").arg("a b").arg("c d").as_shell_cmd(), "x \"a b\" \"c d\"");
}

#[test]
fn exit_code_zero_is_success() {
    let invocation = Invocation::new("hyprctl").arg("reload");
    assert_eq!(invocation.execute_with_err(&ProcessReport::Exited(Some(0))), Ok(()));
}

#[test]
fn other_exit_codes_are_failures() {
    let invocation = Invocation::new("hyprctl").arg("reload");
    assert_eq!(
        invocation.execute_with_err(&ProcessReport::Exited(Some(1))),
        Err(KeymapError {
            kind: ErrorKind::NonZeroExit,
            message: "hyprctl returned exit code 1".to_string()
        })
    );
    assert_eq!(
        invocation.execute_with_err(&ProcessReport::Exited(Some(127))).unwrap_err().message,
        "hyprctl returned exit code 127"
    );
    assert_eq!(
        invocation.execute_with_err(&ProcessReport::Exited(Some(-3))).unwrap_err().message,
        "hyprctl returned exit code -3"
    );
    assert_eq!(
        invocation.execute_with_err(&ProcessReport::Exited(Some(i32::MIN))).unwrap_err().message,
        "hyprctl returned exit code -2147483648"
    );
    assert_eq!(
        invocation.execute_with_err(&ProcessReport::Exited(Some(i32::MAX))).unwrap_err().message,
        "hyprctl returned exit code 2147483647"
    );
}

#[test]
fn a_process_without_exit_code_is_shown_as_minus_one() {
    let invocation = Invocation::new("swaymsg");
    assert_eq!(
        invocation.execute_with_err(&ProcessReport::Exited(None)),
        Err(KeymapError {
            kind: ErrorKind::NonZeroExit,
            message: "swaymsg returned exit code -1".to_string()
        })
    );
}

#[test]
fn a_program_that_does_not_start_is_a_spawn_error() {
    let invocation = Invocation::new("gsettings").arg("set").arg("a b");
    let report = ProcessReport::NotLaunched("No such file or directory (os error 2)".to_string());
    assert_eq!(
        invocation.execute_with_err(&report),
        Err(KeymapError {
            kind: ErrorKind::SpawnError,
            message: "Failed to execute `gsettings set \"a b\"`:\n No such file or directory (os error 2)"
                .to_string()
        })
    );
    assert_eq!(invocation.spawn_failure("x"), invocation.execute_with_err(&ProcessReport::NotLaunched("x".to_string())).unwrap_err());
}
