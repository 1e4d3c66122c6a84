use frama_c_mcp_cli::command::{check_request, CheckCommand, Detail, DEFAULT_FRAMA_C, DEFAULT_MAX_SANDBOXES};

fn command(smoke: bool) -> CheckCommand {
    CheckCommand {
        file: "abs.c".to_string(),
        json: true,
        require_complete: false,
        function: Some("abs_int".to_string()),
        smoke,
        detail: Some(Detail::Full),
        include_paths: vec!["include".to_string()],
        defines: vec!["NDEBUG".to_string(), "N=4".to_string()],
        force_includes: vec![],
    }
}

#[test]
fn defaults_name_frama_c_and_thirty_two_sandboxes() {
    assert_eq!(DEFAULT_FRAMA_C, "frama-c");
    assert_eq!(DEFAULT_MAX_SANDBOXES, 32);
}

#[test]
fn a_check_command_becomes_a_one_file_request() {
    let request = check_request(command(true));
    assert_eq!(request.files, Some(vec!["abs.c".to_string()]));
    assert_eq!(request.function, Some("abs_int".to_string()));
    assert_eq!(request.smoke, Some(true));
    assert_eq!(request.detail, Some(Detail::Full));
    assert_eq!(request.include_paths, Some(vec!["include".to_string()]));
    assert_eq!(request.defines, Some(vec!["NDEBUG".to_string(), "N=4".to_string()]));
    assert_eq!(request.force_includes, Some(vec![]));
}

#[test]
fn an_unset_smoke_flag_leaves_the_default() {
    let request = check_request(command(false));
    assert_eq!(request.smoke, None);
}

#[test]
fn the_json_flag_does_not_reach_the_request() {
    let mut quiet = command(false);
    quiet.json = false;
    assert_eq!(check_request(quiet), check_request(command(false)));
}
