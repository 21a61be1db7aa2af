use kvm_compose::client::{
    deployment_url, deployments_url, ensure_current_folder_matches_deployment, get_deployment_action, orchestration_outcome,
    orchestration_url, parse_response, reset_failure, running_check, DeploymentCommandKind, SubCommandKind,
};
use kvm_compose::docker_client::{get_request_text, header_complete, inspect_path, json_body, stats_path, version_path};

#[test]
fn server_addresses() {
    let server = "http://localhost:3355/".to_string();
    assert_eq!(deployments_url(&server), "http://localhost:3355/api/deployments");
    assert_eq!(deployment_url(&server, &"proj".to_string()), "http://localhost:3355/api/deployments/proj");
    assert_eq!(orchestration_url(&server), "ws://localhost:3355/api/orchestration/ws");
    assert_eq!(orchestration_url(&"https://h/".to_string()), "https://h/api/orchestration/ws");
}

#[test]
fn commands_and_server_answers() {
    assert_eq!(parse_response(true, &"ok".to_string()), Ok("ok".to_string()));
    assert_eq!(parse_response(false, &"bad \"x\"".to_string()), Err("server response: \"bad \\\"x\\\"\"".to_string()));
    assert_eq!(
        running_check(SubCommandKind::Up, true),
        Err("deployment in Running state, cannot run orchestration command".to_string())
    );
    assert_eq!(running_check(SubCommandKind::Exec, true), Ok(()));
    assert_eq!(running_check(SubCommandKind::Down, false), Ok(()));
    assert_eq!(get_deployment_action(SubCommandKind::CloudImages), Ok(DeploymentCommandKind::ListCloudImages));
    assert_eq!(get_deployment_action(SubCommandKind::Tools), Ok(DeploymentCommandKind::Tool));
    assert_eq!(get_deployment_action(SubCommandKind::Other), Err("not an orchestration command".to_string()));
    assert_eq!(
        ensure_current_folder_matches_deployment(&"proj".to_string(), &"/a".to_string(), &"/b".to_string()),
        Err("there is an existing deployment with the same name 'proj' at '/a'".to_string())
    );
    assert_eq!(ensure_current_folder_matches_deployment(&"proj".to_string(), &"/a".to_string(), &"/a".to_string()), Ok(()));
    assert_eq!(orchestration_outcome(false), Err("Server reported command failure".to_string()));
    assert_eq!(reset_failure(&"proj".to_string(), false), "could not get deployment from server for 'proj'");
    assert_eq!(reset_failure(&"proj".to_string(), true), "could not reset deployment 'proj' state to down");
}

#[test]
fn docker_daemon_requests_and_replies() {
    assert_eq!(get_request_text(&version_path()), "GET /version HTTP/1.1\r\nHost: v1.43\r\n\r\n");
    assert_eq!(stats_path(&"web".to_string()), "/containers/web/stats?stream=false");
    assert_eq!(inspect_path(&"web".to_string()), "/containers/web/json");
    assert!(header_complete(&b"HTTP/1.1 200 OK\r\n\r\n".to_vec()));
    assert!(!header_complete(&b"HTTP/1.1 200 OK\r\n".to_vec()));
    assert!(!header_complete(&b"\r\n".to_vec()));
    assert_eq!(json_body(&"1a\r\n{\"a\":{\"b\":1}}\r\n0\r\n".to_string()), "{\"a\":{\"b\":1}}");
    assert_eq!(json_body(&"no json".to_string()), "no json");
}
