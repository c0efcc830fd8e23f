use zar::cli::parse_start_dir_args;

fn args(list: &[&str]) -> Vec<String> {
    list.iter().map(|a| a.to_string()).collect()
}

#[test]
fn parse_start_dir_accepts_single_positional_path() {
    let start_dirs = parse_start_dir_args(args(&["zar", "/home/aaldea"])).expect("parse");
    assert_eq!(start_dirs, (Some("/home/aaldea".to_string()), None));
}

#[test]
fn parse_start_dir_accepts_two_positional_paths() {
    let start_dirs = parse_start_dir_args(args(&["zar", "/tmp/one", "/tmp/two"])).expect("parse");
    assert_eq!(start_dirs, (Some("/tmp/one".to_string()), Some("/tmp/two".to_string())));
}

#[test]
fn parse_start_dir_rejects_more_than_two_positionals() {
    let result = parse_start_dir_args(args(&["zar", "/tmp/one", "/tmp/two", "/tmp/three"]));
    assert!(result.is_err());
}

#[test]
fn no_arguments_start_both_panes_in_the_working_directory() {
    assert_eq!(parse_start_dir_args(args(&["zar"])), Ok((None, None)));
}
