use tiger_lang::cmd::CommandOpts;

fn args(list: &[&str]) -> Vec<String> {
    list.iter().map(|s| s.to_string()).collect()
}

#[test]
fn build_with_paths() {
    let opts = CommandOpts::from_args(args(&["tiger", "build", "src", "lib"])).unwrap();
    assert_eq!(opts.subcommand, "build");
    assert_eq!(opts.path_specs, vec!["src".to_string(), "lib".to_string()]);
    let opts = CommandOpts::from_args(args(&["tiger", "build"])).unwrap();
    assert!(opts.path_specs.is_empty());
}

#[test]
fn missing_subcommand() {
    let expected = "no subcommand specified: please provide one of the following: build";
    assert_eq!(CommandOpts::from_args(args(&["tiger"])).unwrap_err(), expected);
    assert_eq!(CommandOpts::from_args(args(&[])).unwrap_err(), expected);
}

#[test]
fn invalid_subcommand() {
    assert_eq!(
        CommandOpts::from_args(args(&["tiger", "run", "x"])).unwrap_err(),
        "invalid subcommand 'run' specified. please provide one of the following: build"
    );
}
