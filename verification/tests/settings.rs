use std::borrow::Cow;

use ptytest::config::Config;
use ptytest::config::Shell;
use ptytest::SizeInfo;

#[test]
fn a_size_has_cells_of_ten_by_five_pixels() {
    let size = SizeInfo::new(30, 15);
    assert_eq!(size.cols(), (30, ()));
    assert_eq!(size.lines(), (15, ()));
    assert_eq!(size.width, 10);
    assert_eq!(size.height, 5);
}

#[test]
fn a_shell_without_arguments() {
    let shell = Shell::new(Cow::Borrowed("/bin/sh"));
    assert_eq!(shell.program, "/bin/sh");
    assert!(shell.args.is_empty());
}

#[test]
fn a_shell_with_arguments() {
    let shell = Shell::new_with_args(
        Cow::Owned(String::from("prog")),
        vec![String::from("-a"), String::from("b")],
    );
    assert_eq!(shell.program, "prog");
    assert_eq!(shell.args, vec!["-a", "b"]);
    assert_eq!(
        shell,
        Shell { program: Cow::Borrowed("prog"), args: vec![String::from("-a"), String::from("b")] }
    );
}

#[test]
fn new_settings_name_no_program() {
    let config = Config::new();
    assert!(config.shell.is_none());
    assert!(config.env.is_empty());
    assert!(config.working_directory().is_none());
}

#[test]
fn settings_take_a_shell() {
    let config = Config::new().set_shell(Shell::new(Cow::Borrowed("prog")));
    assert_eq!(config.shell, Some(Shell { program: Cow::Borrowed("prog"), args: Vec::new() }));
    assert!(config.env.is_empty());
}

#[test]
fn settings_for_a_program_with_arguments() {
    let config = Config::for_program(Cow::Borrowed("prog"), vec![String::from("x")]);
    let shell = config.shell.unwrap();
    assert_eq!(shell.program, "prog");
    assert_eq!(shell.args, vec!["x"]);
    assert!(config.env.is_empty());
}
