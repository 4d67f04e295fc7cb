//! Setting up the server, and deploying the cluster that takes over.

use dragonfly::install::cluster::{
    acknowledge, ask_for_service, check_service_running, handoff_pid, DeployHost, DeployStage,
    CONFIG_LOOKS, NODE_WAIT_SECS,
};
use dragonfly::install::mode::{
    current_mode, ensure_log_directory, generate_launchd_plist, generate_systemd_socket_unit,
    generate_systemd_unit, has_root_privileges, DeploymentMode, HostOs,
};
use dragonfly::install::setup::{Host, Purpose, Setup, Stage};
use dragonfly::install::tasks::{Job, Outcome, Task};

fn good(stdout: &str) -> Outcome {
    Outcome::Ran { success: true, stdout: stdout.to_string(), stderr: String::new() }
}

fn bad(stderr: &str) -> Outcome {
    Outcome::Ran { success: false, stdout: String::new(), stderr: stderr.to_string() }
}

fn broken() -> Outcome {
    Outcome::Broken("cannot".to_string())
}

fn run(program: &str, args: &[&str]) -> Task {
    Task::Run {
        program: program.to_string(),
        args: args.iter().map(|a| a.to_string()).collect(),
    }
}

#[test]
fn outcomes_are_judged() {
    assert!(good("x").succeeded());
    assert!(!bad("x").succeeded());
    assert!(!broken().succeeded());
    assert!(broken().broken());
    assert!(!bad("x").broken());
    assert_eq!(bad("x").reason(), "x");
    assert_eq!(broken().reason(), "cannot");
}

#[test]
fn modes_have_names() {
    for mode in [DeploymentMode::Simple, DeploymentMode::Flight, DeploymentMode::Swarm] {
        assert_eq!(DeploymentMode::from_str(mode.as_str()), Some(mode));
    }
    assert_eq!(DeploymentMode::from_str("FLIGHT"), Some(DeploymentMode::Flight));
    assert_eq!(DeploymentMode::from_str("glide"), None);
    assert_eq!(current_mode(&Some(" swarm\n".to_string())), Some(DeploymentMode::Swarm));
    assert_eq!(current_mode(&None), None);
}

#[test]
fn services_are_defined() {
    let socket = generate_systemd_socket_unit("Dragonfly");
    assert!(socket.starts_with("[Unit]\nDescription=Dragonfly Socket\n"));
    assert!(socket.contains("\nListenStream=3000\n"));
    let unit = generate_systemd_unit("dragonfly", "/bin/d", "Dragonfly");
    assert!(unit.contains("\nRequires=dragonfly.socket\n"));
    assert!(unit.contains("\nExecStart=/bin/d\n"));
    assert!(unit.contains("Environment=\"DRAGONFLY_SERVICE=1\""));
    let plist = generate_launchd_plist("dragonfly", "/bin/d", "Dragonfly");
    assert!(plist.contains("<string>com.dragonfly.dragonfly</string>"));
    assert!(plist.contains("        <string>/bin/d</string>\n"));
    assert!(plist.contains("<key>Description</key>\n    <string>Dragonfly</string>"));
    assert!(plist.ends_with("</plist>\n"));
}

#[test]
fn hosts_differ() {
    assert_eq!(ensure_log_directory(HostOs::Linux, None), Ok("/var/log/dragonfly".to_string()));
    assert_eq!(
        ensure_log_directory(HostOs::MacOs, Some("/Users/a")),
        Ok("/Users/a/Library/Logs/Dragonfly".to_string())
    );
    assert_eq!(
        ensure_log_directory(HostOs::Other, Some("/home/a")),
        Ok("/home/a/.dragonfly/logs".to_string())
    );
    assert_eq!(
        ensure_log_directory(HostOs::Other, None),
        Err("Could not find home directory".to_string())
    );
    assert!(has_root_privileges(Some("0\n"), false));
    assert!(!has_root_privileges(Some("1000\n"), true));
    assert!(has_root_privileges(Some("?"), true));
    assert!(!has_root_privileges(None, false));
}

fn linux() -> Host {
    Host {
        is_macos: false,
        exe: "/home/a/dragonfly".to_string(),
        log_dir: "/var/log/dragonfly".to_string(),
        home: Some("/home/a".to_string()),
        user: Some("a".to_string()),
    }
}

fn mac() -> Host {
    Host { is_macos: true, exe: "/Users/a/it's".to_string(), ..linux() }
}

/// The tasks of a setup on a host where each one ends as `outcome` says.
fn carry_out(
    mut setup: Setup,
    host: &Host,
    outcome: impl Fn(&Task) -> Outcome,
) -> (Vec<Task>, Result<Setup, String>) {
    let mut tasks = Vec::new();
    while setup.stage != Stage::Done {
        let task = setup.task(host);
        let next = setup.next(host, &outcome(&task));
        tasks.push(task);
        match next {
            Ok(s) => setup = s,
            Err(e) => return (tasks, Err(e)),
        }
        assert!(tasks.len() < 100);
    }
    (tasks, Ok(setup))
}

#[test]
fn simple_mode_is_set_up() {
    let all_well = |task: &Task| match task {
        Task::ReadFile(_) => bad("no such file"),
        _ => good(""),
    };
    let (tasks, end) = carry_out(Setup::configure(DeploymentMode::Simple), &linux(), all_well);
    assert!(end.is_ok());
    assert_eq!(tasks[0], Task::ReadFile("/etc/dragonfly/mode".to_string()));
    assert!(tasks.contains(&run("systemctl", &["enable", "dragonfly.socket"])));
    assert!(tasks.contains(&Task::WriteFile {
        path: "/etc/dragonfly/mode".to_string(),
        content: "simple".to_string(),
    }));
    assert_eq!(tasks.last(), Some(&run("systemctl", &["start", "dragonfly.service"])));
    assert!(tasks.iter().any(|t| matches!(t, Task::WriteFile { path, content }
        if path == "/etc/systemd/system/dragonfly.service"
            && content.contains("ExecStart=/usr/local/bin/dragonfly\n"))));
}

#[test]
fn nothing_is_set_up_twice() {
    let set = |_: &Task| good("simple\n");
    let (tasks, end) = carry_out(Setup::configure(DeploymentMode::Simple), &linux(), set);
    assert!(end.is_ok());
    assert_eq!(tasks, vec![Task::ReadFile("/etc/dragonfly/mode".to_string())]);
}

#[test]
fn rights_are_asked_for_where_they_are_needed() {
    let no_rights = |task: &Task| match task {
        Task::ReadFile(_) | Task::Exists(_) | Task::CopyFile { .. } => bad("denied"),
        Task::Run { program, .. } if program == "which" => bad(""),
        _ => good(""),
    };
    let (tasks, end) = carry_out(Setup::configure(DeploymentMode::Simple), &linux(), no_rights);
    assert!(end.unwrap().elevated);
    assert!(tasks.iter().any(|t| matches!(t, Task::Run { program, args }
        if program == "sh" && args[1].starts_with("sudo sh -c 'cp \"/home/a/dragonfly\""))));
    // The mode was saved along the way.
    assert!(!tasks.iter().any(|t| matches!(t, Task::WriteFile { path, .. }
        if path == "/etc/dragonfly/mode")));
    let refused = |task: &Task| match task {
        Task::Run { program, .. } if program == "sh" => bad("no"),
        other => no_rights(other),
    };
    let (_, end) = carry_out(Setup::configure(DeploymentMode::Simple), &linux(), refused);
    assert_eq!(end, Err("Failed to configure with sudo: no".to_string()));
}

#[test]
fn simple_mode_is_set_up_on_a_mac() {
    let asked = |task: &Task| match task {
        Task::ReadFile(_) | Task::Exists(_) => bad(""),
        Task::Run { program, .. } if program == "cp" => bad("denied"),
        _ => good(""),
    };
    let (tasks, end) = carry_out(Setup::configure(DeploymentMode::Simple), &mac(), asked);
    assert!(end.is_ok());
    assert!(tasks.iter().any(|t| matches!(t, Task::Run { program, args }
        if program == "osascript" && args[1].starts_with("do shell script \"cp '/Users/a/it'\\''s'"))));
    assert_eq!(tasks.last(), Some(&run("launchctl", &["start", "com.dragonfly.dragonfly"])));
    let homeless = Host { home: None, ..mac() };
    let (_, end) = carry_out(Setup::configure(DeploymentMode::Simple), &homeless, asked);
    assert_eq!(end, Err("Failed to get user home directory".to_string()));
}

#[test]
fn flight_mode_starts_its_jobs() {
    let fresh = |task: &Task| match task {
        Task::ReadFile(_) => bad(""),
        _ => good(""),
    };
    let (tasks, end) = carry_out(Setup::configure(DeploymentMode::Flight), &linux(), fresh);
    assert!(end.is_ok());
    let jobs: Vec<_> = tasks
        .iter()
        .filter_map(|t| match t {
            Task::Start(job) => Some(*job),
            _ => None,
        })
        .collect();
    assert_eq!(jobs, vec![Job::EnsureArtifacts, Job::DeployCluster, Job::DownloadArtifacts]);
    let denied = |task: &Task| match task {
        Task::ReadFile(_) | Task::MakeDir(_) => bad(""),
        _ => broken(),
    };
    let (_, end) = carry_out(Setup::configure(DeploymentMode::Flight), &linux(), denied);
    assert_eq!(end, Err("Failed to execute sudo command".to_string()));
}

#[test]
fn swarm_mode_is_saved_and_started() {
    let fresh = |task: &Task| match task {
        Task::ReadFile(_) => bad(""),
        _ => good(""),
    };
    let (tasks, end) = carry_out(Setup::configure(DeploymentMode::Swarm), &linux(), fresh);
    assert!(end.is_ok());
    assert!(tasks.contains(&Task::WriteFile {
        path: "/etc/dragonfly/mode".to_string(),
        content: "swarm".to_string(),
    }));
}

#[test]
fn modes_are_saved_alone() {
    let setup = Setup::save_mode(DeploymentMode::Swarm, true);
    assert_eq!(setup.purpose, Purpose::SaveMode);
    let denied = |_: &Task| bad("denied");
    let (_, end) = carry_out(setup, &linux(), denied);
    assert_eq!(
        end,
        Err("Failed to create mode directory and already attempted elevation: denied".to_string())
    );
    let fresh = |task: &Task| match task {
        Task::ReadFile(_) | Task::MakeDir(_) | Task::Exists(_) => bad(""),
        _ => good(""),
    };
    let (tasks, end) = carry_out(Setup::save_mode(DeploymentMode::Swarm, false), &linux(), fresh);
    assert!(end.is_ok());
    assert!(tasks.contains(&run(
        "sh",
        &["-c", "echo swarm | sudo tee /etc/dragonfly/mode > /dev/null"]
    )));
    assert!(Setup::start_service(&linux()).is_ok());
    assert!(Setup::start_service(&Host { home: None, ..mac() }).is_err());
}

fn deploy_host(is_macos: bool) -> DeployHost {
    DeployHost {
        is_macos,
        home: Some("/home/a".to_string()),
        config_copy: "/home/a/k3s.yaml".to_string(),
        user: Some("a".to_string()),
        pid: 42,
    }
}

/// The stages of a deployment on a host where each task ends as `outcome` says.
fn deploy(
    host: &DeployHost,
    outcome: impl Fn(DeployStage) -> Outcome,
) -> (Vec<DeployStage>, Result<(), String>) {
    let mut stages = Vec::new();
    let mut stage = DeployStage::first(host);
    let mut waited = 0;
    while stage != DeployStage::Done {
        stages.push(stage);
        if matches!(stage, DeployStage::PauseForNode { .. }) {
            waited += 5;
        }
        match stage.next(host, &outcome(stage), waited) {
            Ok(next) => stage = next,
            Err(e) => return (stages, Err(e)),
        }
        assert!(stages.len() < 400);
    }
    (stages, Ok(()))
}

#[test]
fn a_cluster_is_deployed() {
    let host = deploy_host(false);
    let well = |stage| match stage {
        DeployStage::FindInstalled | DeployStage::FindCopy => bad(""),
        DeployStage::CheckRunning => good("active\n"),
        DeployStage::CheckNode => good("node Ready control-plane"),
        DeployStage::FindDns => good("coredns"),
        DeployStage::CheckDns => good("'True'"),
        _ => good(""),
    };
    let (stages, end) = deploy(&host, well);
    assert_eq!(end, Ok(()));
    assert!(stages.contains(&DeployStage::InstallCluster));
    assert!(stages.contains(&DeployStage::OwnConfig { sudo: false }));
    assert_eq!(stages.last(), Some(&DeployStage::AwaitAck));
    assert_eq!(
        DeployStage::OfferHandoff.task(&host),
        Task::WriteFile {
            path: "/var/lib/dragonfly/handoff_ready".to_string(),
            content: "42".to_string(),
        }
    );
    assert_eq!(
        DeployStage::CopyConfig { sudo: true }.task(&host),
        run("sh", &["-c", "sudo cp /etc/rancher/k3s/k3s.yaml /home/a/k3s.yaml"])
    );
}

#[test]
fn nodes_are_waited_for() {
    let host = deploy_host(false);
    let never_ready = |stage| match stage {
        DeployStage::CheckInstalled | DeployStage::CheckRunning => good("active"),
        DeployStage::CheckNode => good("node NotReady"),
        _ => good(""),
    };
    let (stages, end) = deploy(&host, never_ready);
    assert_eq!(end, Err("Timed out waiting for Kubernetes node to become ready".to_string()));
    let pauses = stages
        .iter()
        .filter(|s| matches!(s, DeployStage::PauseForNode { node_ready: false }))
        .count();
    assert_eq!(pauses as u64, NODE_WAIT_SECS / 5);
}

#[test]
fn configurations_are_waited_for() {
    let host = deploy_host(false);
    let missing = |stage| match stage {
        DeployStage::InstallCluster => good(""),
        DeployStage::CheckRunning => good("active"),
        _ => bad(""),
    };
    let (stages, end) = deploy(&host, missing);
    assert_eq!(end, Err("k3s config file not found after 60 seconds".to_string()));
    let looks = stages.iter().filter(|s| matches!(s, DeployStage::FindConfig { .. })).count();
    assert_eq!(looks, CONFIG_LOOKS as usize + 1);
}

#[test]
fn a_cluster_is_deployed_in_a_container() {
    let host = deploy_host(true);
    let well = |stage| match stage {
        DeployStage::FindHelm | DeployStage::CheckHosts => bad(""),
        DeployStage::AwaitAck => bad("timeout"),
        _ => good(""),
    };
    let (stages, end) = deploy(&host, well);
    assert_eq!(end, Ok(()));
    assert!(stages.contains(&DeployStage::RunContainer));
    assert!(stages.contains(&DeployStage::AddHost));
    assert!(stages.contains(&DeployStage::InstallHelm));
    assert_eq!(stages.last(), Some(&DeployStage::WithdrawOffer));
    let (_, end) = deploy(&host, |_| bad(""));
    assert_eq!(
        end,
        Err("Docker is not installed or not running. Please install and start Docker Desktop."
            .to_string())
    );
}

#[test]
fn services_are_asked_for() {
    assert_eq!(ask_for_service(false, "k3s"), run("systemctl", &["is-active", "k3s"]));
    assert_eq!(ask_for_service(true, "k3s"), run("launchctl", &["list", "com.dragonfly.k3s"]));
    assert!(check_service_running(false, &good("active\n")));
    assert!(!check_service_running(false, &good("inactive\n")));
    assert!(check_service_running(true, &good("x")));
    assert!(!check_service_running(true, &broken()));
}

#[test]
fn handovers_are_acknowledged() {
    assert_eq!(handoff_pid(" 42\n"), Some(42));
    assert_eq!(handoff_pid("-3"), Some(-3));
    assert_eq!(handoff_pid("x"), None);
    assert_eq!(acknowledge(42), run("kill", &["-SIGUSR2", "42"]));
}
