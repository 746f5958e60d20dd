use launchpad::command::{copy_words, Command};

fn words(list: &[&str]) -> Vec<String> {
    list.iter().map(|w| w.to_string()).collect()
}

#[test]
fn no_words_spell_no_command() {
    assert_eq!(Command::from_words(Vec::new()), None);
}

#[test]
fn first_word_is_the_program() {
    assert_eq!(
        Command::from_words(words(&["echo", "hi"])),
        Some(Command { program: "echo".to_string(), args: words(&["hi"]) })
    );
    assert_eq!(
        Command::from_words(words(&["stardust-xr-server"])),
        Some(Command { program: "stardust-xr-server".to_string(), args: Vec::new() })
    );
    assert_eq!(
        Command::from_words(words(&["a", "b", "", "c d"])),
        Some(Command { program: "a".to_string(), args: words(&["b", "", "c d"]) })
    );
}

#[test]
fn duplicate_is_equal() {
    let command = Command { program: "p".to_string(), args: words(&["x", "y"]) };
    assert_eq!(command.duplicate(), command);
    assert_eq!(copy_words(&words(&["x", "", "z"])), words(&["x", "", "z"]));
    assert_eq!(copy_words(&Vec::new()), Vec::<String>::new());
}

#[test]
fn set_environment_request() {
    assert_eq!(
        Command::set_environment(&"FOO".to_string(), &"bar".to_string()),
        Command { program: "systemctl".to_string(), args: words(&["--user", "set-environment", "FOO=bar"]) }
    );
    assert_eq!(
        Command::set_environment(&"EMPTY".to_string(), &"".to_string()),
        Command { program: "systemctl".to_string(), args: words(&["--user", "set-environment", "EMPTY="]) }
    );
    assert_eq!(
        Command::set_environment(&"X".to_string(), &"a=b c".to_string()),
        Command { program: "systemctl".to_string(), args: words(&["--user", "set-environment", "X=a=b c"]) }
    );
}

#[test]
fn start_target_request() {
    assert_eq!(
        Command::start_target(),
        Command {
            program: "systemctl".to_string(),
            args: words(&["--user", "start", "--no-block", "stardust-xr-session.target"]),
        }
    );
}

#[test]
fn stop_target_request() {
    assert_eq!(
        Command::stop_target(),
        Command {
            program: "systemctl".to_string(),
            args: words(&["--user", "stop", "--no-block", "stardust-xr-session.target"]),
        }
    );
}

#[test]
fn shell_line_joins_words_with_spaces() {
    assert_eq!(
        Command::shell(&words(&["echo", "hello", "world"])),
        Command { program: "/bin/bash".to_string(), args: words(&["-c", "echo hello world"]) }
    );
    assert_eq!(
        Command::shell(&words(&["true"])),
        Command { program: "/bin/bash".to_string(), args: words(&["-c", "true"]) }
    );
    assert_eq!(
        Command::shell(&Vec::new()),
        Command { program: "/bin/bash".to_string(), args: words(&["-c", ""]) }
    );
    assert_eq!(
        Command::shell(&words(&["a", "", "b"])),
        Command { program: "/bin/bash".to_string(), args: words(&["-c", "a  b"]) }
    );
}
