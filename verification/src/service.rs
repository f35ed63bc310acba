//! The Windows service that runs the agent as LocalSystem: its names, its files, how it
//! starts the agent, and how it answers the service manager.
use vstd::prelude::*;

use crate::clock::{decimal_string, decimal_text, unix_now_seconds};

verus! {

pub const SERVICE_NAME: &'static str = "InnoAppAgent";

pub const SERVICE_DISPLAY: &'static str = "InnoApp Agent";

pub const SERVICE_DESCRIPTION: &'static str =
    "Captura tickets impresos en esta PC y los sube a InnoApp.";

pub const CLOUD_UPLOAD_URL: &'static str =
    "https://uqa4ti7fwi.execute-api.us-east-1.amazonaws.com/prod/tickets";

/// The program and script that make up the agent, in its runtime folder.
pub const AGENT_PROGRAM: &'static str = "node.exe";

pub const AGENT_SCRIPT: &'static str = "app.mjs";

/// Log files, in the logs folder.
pub const AGENT_LOG: &'static str = "agent.log";

pub const AGENT_ERROR_LOG: &'static str = "agent-error.log";

pub const SERVICE_LOG: &'static str = "service.log";

pub const SERVICE_ERROR_LOG: &'static str = "service-error.log";

pub open spec fn data_dir_text() -> Seq<char> {
    "C:\\ProgramData\\InnoApp Agent"@
}

/// The folder shared by the service (LocalSystem) and the tray app (the user). The
/// installer lets `BUILTIN\Users` modify it, so that activation can write the
/// credentials there.
pub fn data_dir() -> (p: String)
    ensures
        p@ == data_dir_text(),
{
    String::from_str("C:\\ProgramData\\InnoApp Agent")
}

/// The credentials written on activation; the service watches this file.
pub fn credentials_path() -> (p: String)
    ensures
        p@ == data_dir_text() + "\\credentials.json"@,
{
    let mut p = data_dir();
    p.append("\\credentials.json");
    p
}

/// Where the agent keeps the tickets not yet uploaded.
pub fn queue_path() -> (p: String)
    ensures
        p@ == data_dir_text() + "\\queue.json"@,
{
    let mut p = data_dir();
    p.append("\\queue.json");
    p
}

pub fn logs_dir() -> (p: String)
    ensures
        p@ == data_dir_text() + "\\logs"@,
{
    let mut p = data_dir();
    p.append("\\logs");
    p
}

/// The log file named `file` in the logs folder.
pub fn log_file_path(file: &str) -> (p: String)
    ensures
        p@ == data_dir_text() + "\\logs"@ + "\\"@ + file@,
{
    let mut p = logs_dir();
    p.append("\\");
    p.append(file);
    p
}

/// The folder a runtime candidate starts from.
#[derive(Debug, Clone, Copy, PartialEq, Eq, Structural)]
pub enum RuntimeBase {
    /// The folder of the service executable.
    ExeFolder,
    /// The folder above it.
    ExeParentFolder,
}

/// A folder where the agent's runtime (`node.exe` and `app.mjs`) may be: the
/// subfolders `folders`, in order, of `base`.
#[derive(Debug, Clone)]
pub struct RuntimeCandidate {
    pub base: RuntimeBase,
    pub folders: Vec<String>,
}

pub open spec fn is_candidate(c: RuntimeCandidate, base: RuntimeBase, folders: Seq<Seq<char>>) -> bool {
    &&& c.base == base
    &&& c.folders@.len() == folders.len()
    &&& forall|i: int| 0 <= i < folders.len() ==> #[trigger] c.folders@[i]@ == folders[i]
}

fn resources_agent() -> (v: Vec<String>)
    ensures
        v@.len() == 2,
        v@[0]@ == "resources"@,
        v@[1]@ == "agent"@,
{
    let mut v = Vec::new();
    v.push(String::from_str("resources"));
    v.push(String::from_str("agent"));
    v
}

/// Where the runtime is looked for, first match wins: the installer puts the service
/// in `<install>` and the runtime in `<install>\resources\agent`; the other two places
/// serve other layouts.
pub fn runtime_candidates() -> (c: Vec<RuntimeCandidate>)
    ensures
        c@.len() == 3,
        is_candidate(c@[0], RuntimeBase::ExeFolder, seq!["resources"@, "agent"@]),
        is_candidate(c@[1], RuntimeBase::ExeFolder, seq!["agent"@]),
        is_candidate(c@[2], RuntimeBase::ExeParentFolder, seq!["resources"@, "agent"@]),
{
    let mut agent_only = Vec::new();
    agent_only.push(String::from_str("agent"));
    let mut c = Vec::new();
    c.push(RuntimeCandidate { base: RuntimeBase::ExeFolder, folders: resources_agent() });
    c.push(RuntimeCandidate { base: RuntimeBase::ExeFolder, folders: agent_only });
    c.push(RuntimeCandidate { base: RuntimeBase::ExeParentFolder, folders: resources_agent() });
    c
}

/// A log stamp: `t+` and whole seconds since the epoch, `t+0` when the clock reads a
/// time before it. Enough to order the lines without a date library.
pub open spec fn uptime_stamp_text(secs: Option<u64>) -> Seq<char> {
    "t+"@ + decimal_text(
        match secs {
            Some(s) => s as nat,
            None => 0,
        },
    )
}

pub fn uptime_stamp(secs: Option<u64>) -> (s: String)
    ensures
        s@ == uptime_stamp_text(secs),
{
    let digits = match secs {
        Some(n) => decimal_string(n),
        None => decimal_string(0),
    };
    let mut s = String::from_str("t+");
    s.append(digits.as_str());
    s
}

/// The stamp for a log line written now.
pub fn now_iso() -> (s: String)
    ensures
        exists|secs: Option<u64>| s@ == #[trigger] uptime_stamp_text(secs),
{
    let secs = unix_now_seconds();
    uptime_stamp(secs)
}

/// Capture comes switched on; the machine's `ENABLE_CAPTURE` overrides it, so that an
/// installation can be left in diagnostics mode.
pub open spec fn capture_setting_text(configured: Option<String>) -> Seq<char> {
    match configured {
        Some(v) => v@,
        None => "true"@,
    }
}

/// The variables the agent is started with: where to upload, where the credentials
/// and the queue are, and whether to capture. `enable_capture` is the machine's
/// `ENABLE_CAPTURE`, where it is set to text.
pub fn agent_environment(enable_capture: Option<String>) -> (env: Vec<(String, String)>)
    ensures
        env@.len() == 4,
        env@[0].0@ == "CLOUD_UPLOAD_URL"@,
        env@[0].1@ == "https://uqa4ti7fwi.execute-api.us-east-1.amazonaws.com/prod/tickets"@,
        env@[1].0@ == "AGENT_CREDENTIALS_FILE"@,
        env@[1].1@ == data_dir_text() + "\\credentials.json"@,
        env@[2].0@ == "QUEUE_FILE"@,
        env@[2].1@ == data_dir_text() + "\\queue.json"@,
        env@[3].0@ == "ENABLE_CAPTURE"@,
        env@[3].1@ == capture_setting_text(enable_capture),
{
    let capture = match enable_capture {
        Some(v) => v,
        None => String::from_str("true"),
    };
    let mut env: Vec<(String, String)> = Vec::new();
    env.push(
        (
            String::from_str("CLOUD_UPLOAD_URL"),
            String::from_str("https://uqa4ti7fwi.execute-api.us-east-1.amazonaws.com/prod/tickets"),
        ),
    );
    env.push((String::from_str("AGENT_CREDENTIALS_FILE"), credentials_path()));
    env.push((String::from_str("QUEUE_FILE"), queue_path()));
    env.push((String::from_str("ENABLE_CAPTURE"), capture));
    env
}

/// What the service executable was asked to do.
#[derive(Debug, Clone, Copy, PartialEq, Eq, Structural)]
pub enum ServiceCommand {
    /// Register the service and start it (for development; the installer uses sc.exe).
    Install,
    /// Stop and remove the service.
    Uninstall,
    /// Run under the service manager.
    Dispatch,
}

pub open spec fn command_for(arg: Option<Seq<char>>) -> ServiceCommand {
    match arg {
        Some(a) => if a == "install"@ {
            ServiceCommand::Install
        } else if a == "uninstall"@ {
            ServiceCommand::Uninstall
        } else {
            ServiceCommand::Dispatch
        },
        None => ServiceCommand::Dispatch,
    }
}

/// The command named by the first argument of the executable.
pub fn service_command(arg: Option<&str>) -> (c: ServiceCommand)
    ensures
        c == command_for(
            match arg {
                Some(a) => Some(a@),
                None => None,
            },
        ),
{
    match arg {
        Some(a) => {
            let given = a.to_owned();
            if given == String::from_str("install") {
                ServiceCommand::Install
            } else if given == String::from_str("uninstall") {
                ServiceCommand::Uninstall
            } else {
                ServiceCommand::Dispatch
            }
        },
        None => ServiceCommand::Dispatch,
    }
}

/// A control request from the service manager.
#[derive(Debug, Clone, Copy, PartialEq, Eq, Structural)]
pub enum ControlRequest {
    Stop,
    Shutdown,
    Interrogate,
    Other,
}

/// The service's answer to a control request.
#[derive(Debug, Clone, Copy, PartialEq, Eq, Structural)]
pub enum ControlReply {
    NoError,
    NotImplemented,
}

/// Stop and shutdown end the loop; interrogation is answered; nothing else is handled.
/// The second value says whether to signal the loop to end.
pub fn handle_control(request: ControlRequest) -> (r: (ControlReply, bool))
    ensures
        r.1 == (request == ControlRequest::Stop || request == ControlRequest::Shutdown),
        r.0 == (if request == ControlRequest::Other {
            ControlReply::NotImplemented
        } else {
            ControlReply::NoError
        }),
{
    match request {
        ControlRequest::Stop | ControlRequest::Shutdown => (ControlReply::NoError, true),
        ControlRequest::Interrogate => (ControlReply::NoError, false),
        ControlRequest::Other => (ControlReply::NotImplemented, false),
    }
}

/// What the service tells the service manager about itself.
#[derive(Debug, Clone, Copy, PartialEq, Eq, Structural)]
pub struct ServiceReport {
    pub running: bool,
    /// Whether it accepts stop and shutdown requests.
    pub accepts_stop: bool,
    pub exit_code: u32,
}

/// Reported once the service has started.
pub fn running_report() -> (r: ServiceReport)
    ensures
        r == (ServiceReport { running: true, accepts_stop: true, exit_code: 0 }),
{
    ServiceReport { running: true, accepts_stop: true, exit_code: 0 }
}

/// Reported when the service stops: exit code 1 when it could not find the agent's
/// runtime and so never ran it, 0 after a requested stop.
pub fn stopped_report(runtime_found: bool) -> (r: ServiceReport)
    ensures
        r == (ServiceReport {
            running: false,
            accepts_stop: false,
            exit_code: if runtime_found {
                0
            } else {
                1
            },
        }),
{
    ServiceReport { running: false, accepts_stop: false, exit_code: if runtime_found { 0 } else { 1 } }
}

} // verus!
