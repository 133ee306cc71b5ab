use fs25_ffb::clap_lite::{help_text, parse_args, test_effect, Args, ArgsEnd, Mode, TestEffect};

fn run(args: &[&str]) -> Result<Args, ArgsEnd> {
    let list: Vec<String> = args.iter().map(|a| a.to_string()).collect();
    parse_args(&list)
}

fn mode(args: &[&str]) -> Mode {
    run(args).unwrap().mode
}

#[test]
fn options_choose_the_mode() {
    assert_eq!(mode(&[]), Mode::Gui);
    assert_eq!(mode(&["--gui"]), Mode::Gui);
    assert_eq!(mode(&["--daemon"]), Mode::Daemon);
    assert_eq!(mode(&["-d"]), Mode::Daemon);
    assert_eq!(mode(&["--diagnose"]), Mode::Diagnose);
    assert_eq!(mode(&["--version"]), Mode::Version);
    assert_eq!(mode(&["-V"]), Mode::Version);
}

#[test]
fn the_last_mode_wins() {
    assert_eq!(mode(&["--daemon", "--gui"]), Mode::Gui);
    assert_eq!(mode(&["-V", "--test", "sine", "-d"]), Mode::Daemon);
}

#[test]
fn test_effects_have_names() {
    assert_eq!(mode(&["--test"]), Mode::Test(TestEffect::Constant));
    assert_eq!(mode(&["--test", "constant"]), Mode::Test(TestEffect::Constant));
    assert_eq!(mode(&["--test", "spring"]), Mode::Test(TestEffect::Spring));
    assert_eq!(mode(&["--test", "damper"]), Mode::Test(TestEffect::Damper));
    assert_eq!(mode(&["--test", "rumble"]), Mode::Test(TestEffect::Rumble));
    assert_eq!(mode(&["--test", "sine"]), Mode::Test(TestEffect::Sine));
    assert_eq!(test_effect("Sine"), None);
}

#[test]
fn a_config_path_is_taken_over() {
    assert_eq!(run(&["--config", "./my.toml", "-d"]).unwrap().config_path, Some("./my.toml".to_string()));
    assert_eq!(run(&["-c", "a", "-c", "b"]).unwrap().config_path, Some("b".to_string()));
    assert_eq!(run(&["-c", "a", "-c"]).unwrap().config_path, None);
    assert_eq!(run(&["-d"]).unwrap().config_path, None);
}

#[test]
fn help_ends_the_program() {
    let end = run(&["-d", "--help", "--nonsense"]).unwrap_err();
    assert!(matches!(end, ArgsEnd::Help));
    assert_eq!((end.exit_code(), end.complaint(), end.shows_help()), (0, None, true));
    assert!(matches!(run(&["-h"]), Err(ArgsEnd::Help)));
}

#[test]
fn an_unknown_test_effect_is_reported() {
    let end = run(&["--test", "wobble"]).unwrap_err();
    assert_eq!(end.exit_code(), 2);
    assert_eq!(end.complaint(), Some("unknown test effect 'wobble'".to_string()));
    assert!(!end.shows_help());
}

#[test]
fn an_unknown_argument_is_reported() {
    let end = run(&["-d", "--frobnicate"]).unwrap_err();
    assert_eq!(end.exit_code(), 2);
    assert_eq!(end.complaint(), Some("unknown argument: --frobnicate".to_string()));
    assert!(end.shows_help());
}

#[test]
fn the_help_text_lists_the_options() {
    let text = help_text("0.1.0");
    assert!(text.starts_with("fs25-ffb 0.1.0 - Force feedback enhancer for FS25 on Linux\n\nUSAGE:\n"));
    for option in ["--gui", "--daemon, -d", "--diagnose", "--test <kind>", "--config, -c PATH", "--version, -V", "--help, -h"] {
        assert!(text.contains(option));
    }
    assert!(text.ends_with("This message\n"));
    for line in text.lines() {
        assert!(!line.starts_with(' '));
    }
}
