//! What the command line client decides around the testbed server: the addresses it asks, when
//! a command may run, what the server's answers mean, and which orchestration a command asks for.

use vstd::prelude::*;
use crate::text::{concat2, concat3, debug_string, debug_text, owned, push_str, replace_all, replace_text};

verus! {

/// The address of the deployments of a server (`server` ends with `/`).
pub fn deployments_url(server: &String) -> (r: String)
    ensures
        r@ == server@ + "api/deployments"@,
{
    concat2(server.as_str(), "api/deployments")
}

/// The address of one deployment of a server.
pub fn deployment_url(server: &String, name: &String) -> (r: String)
    ensures
        r@ == server@ + "api/deployments/"@ + name@,
{
    concat3(server.as_str(), "api/deployments/", name.as_str())
}

/// The websocket address orchestration runs over: the server's orchestration path with every
/// `http://` made `ws://`.
pub open spec fn orchestration_url_spec(server: Seq<char>) -> Seq<char> {
    replace_all(server + "api/orchestration/ws"@, "http://"@, "ws://"@)
}

/// The websocket address orchestration runs over (see [`orchestration_url_spec`]).
pub fn orchestration_url(server: &String) -> (r: String)
    ensures
        r@ == orchestration_url_spec(server@),
{
    let url = concat2(server.as_str(), "api/orchestration/ws");
    proof { reveal_strlit("http://"); }
    replace_text(url.as_str(), "http://", "ws://")
}

/// What the server's answer to a command means: its text when it succeeded; otherwise an error
/// that shows the text quoted.
pub fn parse_response(success: bool, text: &String) -> (r: Result<String, String>)
    ensures
        success ==> r == Ok::<String, String>(*text),
        !success ==> (r matches Err(m) && m@ == "server response: "@ + debug_text(text@)),
{
    if success {
        Ok(text.clone())
    } else {
        Err(concat2("server response: ", debug_string(text.as_str()).as_str()))
    }
}

/// The command the user gives the client, by kind.
#[derive(Debug, Clone, Copy, PartialEq, Eq)]
pub enum SubCommandKind {
    Up,
    Down,
    GenerateArtefacts,
    ClearArtefacts,
    Snapshot,
    TestbedSnapshot,
    Tools,
    Exec,
    CloudImages,
    /// A command that is no orchestration (deployment management, for one).
    Other,
}

/// The orchestration a command asks the server for, by kind.
#[derive(Debug, Clone, Copy, PartialEq, Eq)]
pub enum DeploymentCommandKind {
    GenerateArtefacts,
    ClearArtefacts,
    Up,
    Down,
    Snapshot,
    TestbedSnapshot,
    Tool,
    Exec,
    ListCloudImages,
}

/// The commands that change a deployment, which must not run while another runs.
pub open spec fn destructive(k: SubCommandKind) -> bool {
    match k {
        SubCommandKind::Up | SubCommandKind::Down | SubCommandKind::GenerateArtefacts
            | SubCommandKind::ClearArtefacts | SubCommandKind::Snapshot | SubCommandKind::TestbedSnapshot => true,
        _ => false,
    }
}

/// Whether a command may run on a deployment: a command that changes it is refused while the
/// deployment is running a command.
pub fn running_check(k: SubCommandKind, deployment_running: bool) -> (r: Result<(), String>)
    ensures
        (destructive(k) && deployment_running) ==> (r matches Err(m) && m@ == "deployment in Running state, cannot run orchestration command"@),
        !(destructive(k) && deployment_running) ==> r is Ok,
{
    let d = match k {
        SubCommandKind::Up | SubCommandKind::Down | SubCommandKind::GenerateArtefacts
            | SubCommandKind::ClearArtefacts | SubCommandKind::Snapshot | SubCommandKind::TestbedSnapshot => true,
        _ => false,
    };
    if d && deployment_running {
        Err(owned("deployment in Running state, cannot run orchestration command"))
    } else {
        Ok(())
    }
}

/// The orchestration a command asks for; refused for a command that is no orchestration.
pub open spec fn deployment_action_spec(k: SubCommandKind) -> Option<DeploymentCommandKind> {
    match k {
        SubCommandKind::GenerateArtefacts => Some(DeploymentCommandKind::GenerateArtefacts),
        SubCommandKind::ClearArtefacts => Some(DeploymentCommandKind::ClearArtefacts),
        SubCommandKind::Up => Some(DeploymentCommandKind::Up),
        SubCommandKind::Down => Some(DeploymentCommandKind::Down),
        SubCommandKind::Snapshot => Some(DeploymentCommandKind::Snapshot),
        SubCommandKind::TestbedSnapshot => Some(DeploymentCommandKind::TestbedSnapshot),
        SubCommandKind::Tools => Some(DeploymentCommandKind::Tool),
        SubCommandKind::Exec => Some(DeploymentCommandKind::Exec),
        SubCommandKind::CloudImages => Some(DeploymentCommandKind::ListCloudImages),
        SubCommandKind::Other => None,
    }
}

/// The orchestration a command asks for (see [`deployment_action_spec`]).
pub fn get_deployment_action(k: SubCommandKind) -> (r: Result<DeploymentCommandKind, String>)
    ensures
        match deployment_action_spec(k) {
            Some(c) => r == Ok::<DeploymentCommandKind, String>(c),
            None => r matches Err(m) && m@ == "not an orchestration command"@,
        },
{
    match k {
        SubCommandKind::GenerateArtefacts => Ok(DeploymentCommandKind::GenerateArtefacts),
        SubCommandKind::ClearArtefacts => Ok(DeploymentCommandKind::ClearArtefacts),
        SubCommandKind::Up => Ok(DeploymentCommandKind::Up),
        SubCommandKind::Down => Ok(DeploymentCommandKind::Down),
        SubCommandKind::Snapshot => Ok(DeploymentCommandKind::Snapshot),
        SubCommandKind::TestbedSnapshot => Ok(DeploymentCommandKind::TestbedSnapshot),
        SubCommandKind::Tools => Ok(DeploymentCommandKind::Tool),
        SubCommandKind::Exec => Ok(DeploymentCommandKind::Exec),
        SubCommandKind::CloudImages => Ok(DeploymentCommandKind::ListCloudImages),
        SubCommandKind::Other => Err(owned("not an orchestration command")),
    }
}

/// Commands run only in the folder of their deployment: refused when a deployment of the same
/// name lives elsewhere.
pub fn ensure_current_folder_matches_deployment(name: &String, project_location: &String, current_dir: &String) -> (r: Result<(), String>)
    ensures
        project_location@ == current_dir@ ==> r is Ok,
        project_location@ != current_dir@ ==> (r matches Err(m)
            && m@ == "there is an existing deployment with the same name '"@ + name@ + "' at '"@ + project_location@ + "'"@),
{
    if *project_location == *current_dir {
        Ok(())
    } else {
        let mut m = concat3("there is an existing deployment with the same name '", name.as_str(), "' at '");
        push_str(&mut m, project_location.as_str());
        push_str(&mut m, "'");
        proof {
            assert(m@ =~= "there is an existing deployment with the same name '"@ + name@ + "' at '"@ + project_location@ + "'"@);
        }
        Err(m)
    }
}

/// The outcome of an orchestration as the server reported it.
pub fn orchestration_outcome(success: bool) -> (r: Result<(), String>)
    ensures
        success ==> r is Ok,
        !success ==> (r matches Err(m) && m@ == "Server reported command failure"@),
{
    if success { Ok(()) } else { Err(owned("Server reported command failure")) }
}

/// What resetting a deployment's state reports when the server does not answer with the
/// deployment, or refuses the update.
pub fn reset_failure(name: &String, fetched: bool) -> (r: String)
    ensures
        fetched ==> r@ == "could not reset deployment '"@ + name@ + "' state to down"@,
        !fetched ==> r@ == "could not get deployment from server for '"@ + name@ + "'"@,
{
    if fetched {
        concat3("could not reset deployment '", name.as_str(), "' state to down")
    } else {
        concat3("could not get deployment from server for '", name.as_str(), "'")
    }
}

} // verus!
