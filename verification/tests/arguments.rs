use plex_presence::arguments::{
    parse_i32_chars, parse_run_args, remove_dashes, replace_alias, socket_pid_from_output, RunArgs,
};

fn args(list: &[&str]) -> Vec<String> {
    list.iter().map(|s| s.to_string()).collect()
}

#[test]
fn alias_of_long_names() {
    assert_eq!(replace_alias("replace"), "r");
    assert_eq!(replace_alias("daemon"), "d");
    assert_eq!(replace_alias("rd"), "rd");
    assert_eq!(replace_alias(""), "");
    assert_eq!(replace_alias("Replace"), "Replace");
}

#[test]
fn alias_is_idempotent_on_examples() {
    for s in ["replace", "daemon", "r", "d", "x"] {
        let once = replace_alias(s);
        assert_eq!(replace_alias(&once), once);
    }
}

#[test]
fn dashes_are_removed() {
    assert_eq!(remove_dashes("--a-b-"), "ab");
    assert_eq!(remove_dashes("---"), "");
    assert_eq!(remove_dashes("plain"), "plain");
}

#[test]
fn no_flags() {
    let r = parse_run_args(&args(&["/usr/bin/plex-presence"]));
    assert_eq!(r.program_name, "/usr/bin/plex-presence");
    assert!(!r.replace);
    assert!(!r.daemon_mode);
}

#[test]
fn long_flags() {
    let r = parse_run_args(&args(&["prog", "--replace"]));
    assert!(r.replace);
    assert!(!r.daemon_mode);
    let r = parse_run_args(&args(&["prog", "--daemon"]));
    assert!(!r.replace);
    assert!(r.daemon_mode);
}

#[test]
fn short_flags_combined_and_apart() {
    let r = parse_run_args(&args(&["prog", "-rd"]));
    assert!(r.replace && r.daemon_mode);
    let r = parse_run_args(&args(&["prog", "-d", "-r"]));
    assert!(r.replace && r.daemon_mode);
    let r = parse_run_args(&args(&["prog", "replace", "daemon"]));
    assert!(r.replace && r.daemon_mode);
}

#[test]
fn any_argument_letter_counts() {
    // Every letter of an argument that is not a long name counts as a flag.
    let r = parse_run_args(&args(&["prog", "dance"]));
    assert!(r.daemon_mode);
    assert!(!r.replace);
    let r = parse_run_args(&args(&["prog", "-x", "--verbose"]));
    assert!(r.replace);
    assert!(!r.daemon_mode);
}

#[test]
fn program_name_is_not_a_flag() {
    let r = parse_run_args(&args(&["rd"]));
    assert!(!r.replace && !r.daemon_mode);
    assert_eq!(r.program_name, "rd");
}

#[test]
fn more_arguments_keep_flags() {
    let before = parse_run_args(&args(&["prog", "-r"]));
    let after = parse_run_args(&args(&["prog", "-r", "x"]));
    assert!(before.replace && after.replace);
}

#[test]
fn run_args_default_and_clone() {
    let r = RunArgs::default();
    assert_eq!(r.program_name, "");
    assert!(!r.replace && !r.daemon_mode);
    let c = parse_run_args(&args(&["p", "-d"])).clone();
    assert!(c.daemon_mode);
    assert_eq!(c.program_name, "p");
}

#[test]
fn socket_pid_plain() {
    assert_eq!(socket_pid_from_output("pid=1234\n"), Some(1234));
    assert_eq!(socket_pid_from_output("\n  pid=42 \t\n"), Some(42));
    assert_eq!(socket_pid_from_output("777"), Some(777));
}

#[test]
fn socket_pid_unicode_white_space() {
    assert_eq!(socket_pid_from_output("\u{3000}pid=5\u{85}"), Some(5));
    assert_eq!(socket_pid_from_output("\u{2003}pid=6\u{2029}"), Some(6));
}

#[test]
fn socket_pid_failures() {
    assert_eq!(socket_pid_from_output(""), None);
    assert_eq!(socket_pid_from_output("   \n"), None);
    assert_eq!(socket_pid_from_output("pid="), None);
    assert_eq!(socket_pid_from_output("pid=abc"), None);
    assert_eq!(socket_pid_from_output("pid=1\npid=2"), None);
    assert_eq!(socket_pid_from_output("pid=99999999999"), None);
    // Removing the marker once leaves another one, which stays.
    assert_eq!(socket_pid_from_output("pidpid==3"), None);
}

#[test]
fn socket_pid_signs() {
    assert_eq!(socket_pid_from_output("pid=-12"), Some(-12));
    assert_eq!(socket_pid_from_output("+7"), Some(7));
    assert_eq!(socket_pid_from_output("pid=007"), Some(7));
}

#[test]
fn parse_i32_limits() {
    let c = |s: &str| s.chars().collect::<Vec<char>>();
    assert_eq!(parse_i32_chars(&c("2147483647")), Some(i32::MAX));
    assert_eq!(parse_i32_chars(&c("-2147483648")), Some(i32::MIN));
    assert_eq!(parse_i32_chars(&c("2147483648")), None);
    assert_eq!(parse_i32_chars(&c("-2147483649")), None);
    assert_eq!(parse_i32_chars(&c("-")), None);
    assert_eq!(parse_i32_chars(&c("+")), None);
    assert_eq!(parse_i32_chars(&c("")), None);
    assert_eq!(parse_i32_chars(&c("+-1")), None);
    assert_eq!(parse_i32_chars(&c("12a")), None);
    assert_eq!(parse_i32_chars(&c("-0")), Some(0));
}

#[test]
fn parse_i32_agrees_with_std() {
    for s in ["0", "1", "-1", "+5", "42x", "", "-", "2147483647", "2147483648", "-2147483648", "١٢"] {
        let chars: Vec<char> = s.chars().collect();
        assert_eq!(parse_i32_chars(&chars), s.parse::<i32>().ok(), "input {:?}", s);
    }
}

#[test]
fn socket_pid_agrees_with_std() {
    for s in [
        "pid=1234\n", " pid=12 ", "pid=1\npid=2", "pidpid==3", "\u{a0}+9\u{2028}", "x", "pid=-5",
        "pi d=4", "pid=pid=8",
    ] {
        let expected: Option<i32> = s.trim().replace("pid=", "").parse().ok();
        assert_eq!(socket_pid_from_output(s), expected, "input {:?}", s);
    }
}
