use ftr::options::{parse_opts, resolve_paths, Command, Options};

fn args(words: &[&str]) -> Vec<String> {
    words.iter().map(|w| w.to_string()).collect()
}

fn run_options(words: &[&str]) -> Options {
    match parse_opts(&args(words)) {
        Ok(Command::Run(o)) => o,
        other => panic!("expected a run, got {:?}", other),
    }
}

#[test]
fn no_arguments_run_with_defaults() {
    let o = run_options(&[]);
    assert_eq!(o.prefix, "");
    assert_eq!(o.conf_file, "");
    assert!(!o.daemon);
    assert!(!o.test_only);
}

#[test]
fn help_flag_asks_for_usage() {
    assert!(matches!(parse_opts(&args(&["-h"])), Ok(Command::Usage)));
    assert!(matches!(parse_opts(&args(&["--h", "-bogus"])), Ok(Command::Usage)));
}

#[test]
fn version_flag_asks_for_version() {
    assert!(matches!(parse_opts(&args(&["-d", "-v"])), Ok(Command::Version)));
}

#[test]
fn unknown_option_is_refused() {
    match parse_opts(&args(&["-x", "-h"])) {
        Err(e) => assert_eq!(e.arg, "-x"),
        other => panic!("expected an error, got {:?}", other),
    }
}

#[test]
fn flags_and_values_are_read() {
    let o = run_options(&["-t", "-d", "-p", "/srv/ftr", "-c", "/tmp/x.conf"]);
    assert!(o.test_only);
    assert!(o.daemon);
    assert_eq!(o.prefix, "/srv/ftr");
    assert_eq!(o.conf_file, "/tmp/x.conf");
}

#[test]
fn value_keeps_its_dashes() {
    let o = run_options(&["-p", "-weird"]);
    assert_eq!(o.prefix, "-weird");
}

#[test]
fn default_paths() {
    let p = resolve_paths(&run_options(&["-t"]));
    assert_eq!(p.prefix, "/etc/ftr/");
    assert_eq!(p.conf_file, "/etc/ftr/ftr.conf");
}

#[test]
fn prefix_gets_a_separator() {
    let p = resolve_paths(&run_options(&["-p", "/srv/ftr"]));
    assert_eq!(p.prefix, "/srv/ftr/");
    assert_eq!(p.conf_file, "/srv/ftr/ftr.conf");
    let q = resolve_paths(&run_options(&["-p", "/srv/ftr/"]));
    assert_eq!(q.prefix, "/srv/ftr/");
}

#[test]
fn explicit_conf_file_wins() {
    let p = resolve_paths(&run_options(&["-p", "/srv", "-c", "/opt/a.conf"]));
    assert_eq!(p.prefix, "/srv/");
    assert_eq!(p.conf_file, "/opt/a.conf");
}
