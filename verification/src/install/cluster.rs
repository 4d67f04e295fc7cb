//! Deploying the cluster that takes over from the server, and the handover itself.

use vstd::prelude::*;

use crate::install::tasks::{
    Outcome, OutcomeView, Task, TaskView, arguments, run1, run2, run3, task1, task2, task3,
};
use crate::text::{
    contains, decimal, decimal_int, decimal_of, decimal_of_int, held_is_a_part, holds, integer32,
    is_part, parse_i32, same, stand_together, stripped, trim, trim_char, trimmed,
};

verus! {

/// How long to wait for a node to become ready, in seconds.
pub const NODE_WAIT_SECS: u64 = 300;

/// How often to look for the configuration of the cluster before giving up.
pub const CONFIG_LOOKS: u8 = 12;

/// What a deployment does, or finds out, next.
#[derive(Clone, Copy, Debug, PartialEq, Eq, Structural)]
pub enum DeployStage {
    /// Does Docker run (macOS)?
    CheckDocker,
    /// Is there a container for the cluster?
    FindContainer,
    /// Run a new one.
    RunContainer,
    /// Give it time.
    WaitForContainer,
    /// Does it run?
    FindRunning,
    /// Start it.
    StartContainer,
    /// Give it time.
    WaitForStart,
    /// Make the directory of the cluster configuration.
    MakeKubeDir,
    /// Copy the configuration out of the container.
    CopyFromContainer,
    /// Have it name an address that reaches the container.
    EditConfig,
    /// Have programs use it.
    UseConfig,
    /// Is that address known?
    CheckHosts,
    /// Make it known.
    AddHost,
    /// Is there a configuration of the cluster (Linux)?
    FindInstalled,
    /// Does the cluster run, if it is installed?
    CheckInstalled,
    /// Install it.
    InstallCluster,
    /// Give it time.
    WaitForInstall,
    /// Does it run?
    CheckRunning,
    /// Restart it.
    RestartCluster,
    /// Give it time.
    WaitForRestart,
    /// Does it run now?
    CheckRestarted,
    /// Is there a copy of the configuration?
    FindCopy,
    /// Does it work?
    TryCopy,
    /// Is there a configuration to copy, at this look?
    FindConfig { looks: u8 },
    /// Wait before the next look.
    WaitForConfig { looks: u8 },
    /// Can it be read without other rights?
    CheckReadable,
    /// Copy it.
    CopyConfig { sudo: bool },
    /// Hand the copy to the user.
    OwnConfig { sudo: bool },
    /// Is the node ready?
    CheckNode,
    /// Is there a name service in the cluster?
    FindDns,
    /// Is it ready?
    CheckDns,
    /// Wait before the next look; the node was found ready or not.
    PauseForNode { node_ready: bool },
    /// Is Helm installed?
    FindHelm,
    /// Install it.
    InstallHelm,
    /// Say that the cluster is ready to take over.
    OfferHandoff,
    /// Wait for the server to agree.
    AwaitAck,
    /// Is the offer still there?
    FindOffer,
    /// Take it back.
    WithdrawOffer,
    /// All is done.
    Done,
}

/// The host, as far as a deployment looks at it.
#[derive(Debug, PartialEq, Eq)]
pub struct DeployHost {
    pub is_macos: bool,
    /// The home directory of the user.
    pub home: Option<String>,
    /// Where the copy of the configuration goes.
    pub config_copy: String,
    /// The user who is to own it.
    pub user: Option<String>,
    /// The number of the running process.
    pub pid: u32,
}

/// `DeployHost` as a mathematical value.
pub struct DeployHostView {
    pub is_macos: bool,
    pub home: Option<Seq<char>>,
    pub config_copy: Seq<char>,
    pub user: Option<Seq<char>>,
    pub pid: u32,
}

impl DeepView for DeployHost {
    type V = DeployHostView;

    open spec fn deep_view(&self) -> DeployHostView {
        DeployHostView {
            is_macos: self.is_macos,
            home: self.home.deep_view(),
            config_copy: self.config_copy@,
            user: self.user.deep_view(),
            pid: self.pid,
        }
    }
}

/// The arguments with which the container of the cluster is run.
pub open spec fn container_arguments() -> Seq<Seq<char>> {
    seq![
        "run"@,
        "--name"@,
        "k3s-server"@,
        "-d"@,
        "--privileged"@,
        "-p"@,
        "6443:6443"@,
        "-p"@,
        "80:80"@,
        "-p"@,
        "443:443"@,
        "-p"@,
        "8080:8080"@,
        "-p"@,
        "69:69/udp"@,
        "-p"@,
        "53:53/udp"@,
        "-p"@,
        "67:67/udp"@,
        "-v"@,
        "k3s-server:/var/lib/rancher/k3s"@,
        "--restart"@,
        "always"@,
        "rancher/k3s:latest"@,
        "server"@,
        "--disable"@,
        "traefik"@,
    ]
}

/// `sudo` before a command, where other rights are needed.
pub open spec fn with_sudo(sudo: bool, command: Seq<char>) -> Seq<char> {
    if sudo {
        "sudo "@ + command
    } else {
        command
    }
}

/// The question whether a service runs.
pub open spec fn service_query(is_macos: bool, service: Seq<char>) -> TaskView {
    if is_macos {
        run2("launchctl"@, "list"@, "com.dragonfly."@ + service)
    } else {
        run2("systemctl"@, "is-active"@, service)
    }
}

/// The answer says that the service runs.
pub open spec fn service_runs(is_macos: bool, o: OutcomeView) -> bool {
    match o {
        OutcomeView::Ran { success, stdout, .. } => if is_macos {
            success && stdout.len() > 0
        } else {
            trimmed(stdout) == "active"@
        },
        OutcomeView::Broken(_) => false,
    }
}

/// The program printed something.
pub open spec fn printed(o: OutcomeView) -> bool {
    o matches OutcomeView::Ran { stdout, .. } && trimmed(stdout).len() > 0
}

/// The list of nodes shows one that is ready, and none that is not.
pub open spec fn node_is_ready(o: OutcomeView) -> bool {
    o matches OutcomeView::Ran { success: true, stdout, .. } && holds(stdout, " Ready"@) && !holds(
        stdout,
        "NotReady"@,
    )
}

/// The state of the name service says that it is ready.
pub open spec fn dns_is_ready(o: OutcomeView) -> bool {
    o matches OutcomeView::Ran { stdout, .. } && holds(stripped(trimmed(stdout), '\''), "True"@)
}

/// What is to be done at a stage.
pub open spec fn deploy_task(stage: DeployStage, h: DeployHostView) -> TaskView {
    let home = h.home.unwrap_or(Seq::empty());
    match stage {
        DeployStage::CheckDocker => run1("docker"@, "info"@),
        DeployStage::FindContainer => TaskView::Run {
            program: "docker"@,
            args: seq!["ps"@, "-q"@, "--filter"@, "name=k3s-server"@],
        },
        DeployStage::RunContainer => TaskView::Run {
            program: "docker"@,
            args: container_arguments(),
        },
        DeployStage::WaitForContainer => TaskView::Sleep(15),
        DeployStage::FindRunning => TaskView::Run {
            program: "docker"@,
            args: seq![
                "ps"@,
                "-q"@,
                "--filter"@,
                "name=k3s-server"@,
                "--filter"@,
                "status=running"@,
            ],
        },
        DeployStage::StartContainer => run2("docker"@, "start"@, "k3s-server"@),
        DeployStage::WaitForStart => TaskView::Sleep(10),
        DeployStage::MakeKubeDir => TaskView::MakeDir(home + "/.kube"@),
        DeployStage::CopyFromContainer => run2(
            "sh"@,
            "-c"@,
            "docker cp k3s-server:/etc/rancher/k3s/k3s.yaml "@ + home + "/.kube/config"@,
        ),
        DeployStage::EditConfig => run2(
            "sh"@,
            "-c"@,
            "sed -i '' 's/127.0.0.1/kubernetes.docker.internal/g' "@ + home + "/.kube/config"@,
        ),
        DeployStage::UseConfig => TaskView::SetVar {
            name: "KUBECONFIG"@,
            value: home + "/.kube/config"@,
        },
        DeployStage::CheckHosts => run2("grep"@, "kubernetes.docker.internal"@, "/etc/hosts"@),
        DeployStage::AddHost => run2(
            "sh"@,
            "-c"@,
            "echo '127.0.0.1 kubernetes.docker.internal' | sudo tee -a /etc/hosts"@,
        ),
        DeployStage::FindInstalled => TaskView::Exists("/etc/rancher/k3s/k3s.yaml"@),
        DeployStage::CheckInstalled
        | DeployStage::CheckRunning
        | DeployStage::CheckRestarted => service_query(h.is_macos, "k3s"@),
        DeployStage::InstallCluster => run2(
            "sh"@,
            "-c"@,
            "curl -sfL https://get.k3s.io | INSTALL_K3S_EXEC='--disable traefik' sh -"@,
        ),
        DeployStage::WaitForInstall => TaskView::Sleep(5),
        DeployStage::RestartCluster => run2("systemctl"@, "restart"@, "k3s"@),
        DeployStage::WaitForRestart => TaskView::Sleep(10),
        DeployStage::FindCopy => TaskView::Exists(h.config_copy),
        DeployStage::TryCopy => run3(
            "kubectl"@,
            "--kubeconfig"@,
            h.config_copy,
            "cluster-info"@,
        ),
        DeployStage::FindConfig { .. } => TaskView::Exists("/etc/rancher/k3s/k3s.yaml"@),
        DeployStage::WaitForConfig { .. } => TaskView::Sleep(5),
        DeployStage::CheckReadable => TaskView::Exists("/etc/rancher/k3s/k3s.yaml"@),
        DeployStage::CopyConfig { sudo } => run2(
            "sh"@,
            "-c"@,
            with_sudo(sudo, "cp /etc/rancher/k3s/k3s.yaml "@ + h.config_copy),
        ),
        DeployStage::OwnConfig { sudo } => run2(
            "sh"@,
            "-c"@,
            with_sudo(
                sudo,
                "chown "@ + h.user.unwrap_or(Seq::empty()) + " "@ + h.config_copy,
            ),
        ),
        DeployStage::CheckNode => TaskView::Kubectl {
            kubeconfig: h.config_copy,
            args: seq!["get"@, "nodes"@, "--no-headers"@],
        },
        DeployStage::FindDns => TaskView::Kubectl {
            kubeconfig: h.config_copy,
            args: seq![
                "get"@,
                "pods"@,
                "-n"@,
                "kube-system"@,
                "-l"@,
                "k8s-app=kube-dns"@,
                "--no-headers"@,
            ],
        },
        DeployStage::CheckDns => TaskView::Kubectl {
            kubeconfig: h.config_copy,
            args: seq![
                "get"@,
                "pods"@,
                "-n"@,
                "kube-system"@,
                "-l"@,
                "k8s-app=kube-dns"@,
                "-o"@,
                "jsonpath='{.items[*].status.conditions[?(@.type==\"Ready\")].status}'"@,
            ],
        },
        DeployStage::PauseForNode { .. } => TaskView::Sleep(5),
        DeployStage::FindHelm => run2("helm"@, "version"@, "--short"@),
        DeployStage::InstallHelm => run2(
            "sh"@,
            "-c"@,
            "curl -sSL https://raw.githubusercontent.com/helm/helm/main/scripts/get-helm-3 | bash"@,
        ),
        DeployStage::OfferHandoff => TaskView::WriteFile {
            path: "/var/lib/dragonfly/handoff_ready"@,
            content: decimal(h.pid as nat),
        },
        DeployStage::AwaitAck => TaskView::AwaitAck(10),
        DeployStage::FindOffer => TaskView::Exists("/var/lib/dragonfly/handoff_ready"@),
        DeployStage::WithdrawOffer => TaskView::RemoveFile("/var/lib/dragonfly/handoff_ready"@),
        DeployStage::Done => TaskView::Nothing,
    }
}

/// On after success, else failure: in words where the task could not be carried out, with its own
/// words behind them where it had no success.
pub open spec fn or_fail(
    o: OutcomeView,
    stage: DeployStage,
    broken: Seq<char>,
    refused: Seq<char>,
) -> Result<DeployStage, Seq<char>> {
    if o.succeeded() {
        Ok(stage)
    } else if o is Broken {
        Err(broken)
    } else {
        Err(refused + o.reason())
    }
}

/// On to the configuration that a container holds.
pub open spec fn to_kube_dir(h: DeployHostView) -> Result<DeployStage, Seq<char>> {
    if h.home is Some {
        Ok(DeployStage::MakeKubeDir)
    } else {
        Err("Failed to get home directory"@)
    }
}

/// What follows the outcome of the task at a stage of a deployment in a container.
pub open spec fn container_next(stage: DeployStage, h: DeployHostView, o: OutcomeView) -> Result<
    DeployStage,
    Seq<char>,
> {
    match stage {
        DeployStage::CheckDocker => if o.succeeded() {
            Ok(DeployStage::FindContainer)
        } else {
            Err(
                "Docker is not installed or not running. Please install and start Docker Desktop."@,
            )
        },
        DeployStage::FindContainer => if printed(o) {
            Ok(DeployStage::FindRunning)
        } else {
            Ok(DeployStage::RunContainer)
        },
        DeployStage::RunContainer => or_fail(
            o,
            DeployStage::WaitForContainer,
            "Failed to start k3s Docker container"@,
            "Failed to start k3s in Docker: "@,
        ),
        DeployStage::WaitForContainer => to_kube_dir(h),
        DeployStage::FindRunning => if printed(o) {
            to_kube_dir(h)
        } else {
            Ok(DeployStage::StartContainer)
        },
        DeployStage::StartContainer => or_fail(
            o,
            DeployStage::WaitForStart,
            "Failed to start existing k3s container"@,
            "Failed to start existing k3s container: "@,
        ),
        DeployStage::WaitForStart => to_kube_dir(h),
        DeployStage::MakeKubeDir => Ok(DeployStage::CopyFromContainer),
        DeployStage::CopyFromContainer => or_fail(
            o,
            DeployStage::EditConfig,
            "Failed to copy kubeconfig from container"@,
            "Failed to copy kubeconfig from container: "@,
        ),
        DeployStage::EditConfig => if o is Broken {
            Err("Failed to update kubeconfig server address"@)
        } else {
            Ok(DeployStage::UseConfig)
        },
        DeployStage::UseConfig => Ok(DeployStage::CheckHosts),
        DeployStage::CheckHosts => if o.succeeded() {
            Ok(DeployStage::FindHelm)
        } else {
            Ok(DeployStage::AddHost)
        },
        _ => Ok(DeployStage::FindHelm),
    }
}

/// What follows the outcome of the task at a stage of an installation on the host.
pub open spec fn native_next(stage: DeployStage, h: DeployHostView, o: OutcomeView) -> Result<
    DeployStage,
    Seq<char>,
> {
    match stage {
        DeployStage::FindInstalled => if o.succeeded() {
            Ok(DeployStage::CheckInstalled)
        } else {
            Ok(DeployStage::InstallCluster)
        },
        DeployStage::CheckInstalled => if service_runs(h.is_macos, o) {
            Ok(DeployStage::CheckRunning)
        } else {
            Ok(DeployStage::InstallCluster)
        },
        DeployStage::InstallCluster => or_fail(
            o,
            DeployStage::WaitForInstall,
            "Failed to execute k3s installation script"@,
            "k3s installation failed: "@,
        ),
        DeployStage::WaitForInstall => Ok(DeployStage::CheckRunning),
        DeployStage::CheckRunning => if service_runs(h.is_macos, o) {
            Ok(DeployStage::FindCopy)
        } else {
            Ok(DeployStage::RestartCluster)
        },
        DeployStage::RestartCluster => or_fail(
            o,
            DeployStage::WaitForRestart,
            "Failed to restart k3s service"@,
            "Failed to restart k3s service: "@,
        ),
        DeployStage::WaitForRestart => Ok(DeployStage::CheckRestarted),
        DeployStage::CheckRestarted => if service_runs(h.is_macos, o) {
            Ok(DeployStage::FindCopy)
        } else {
            Err("k3s service failed to start after installation"@)
        },
        DeployStage::FindCopy => if o.succeeded() {
            Ok(DeployStage::TryCopy)
        } else {
            Ok(DeployStage::FindConfig { looks: 0 })
        },
        DeployStage::TryCopy => if o.succeeded() {
            Ok(DeployStage::CheckNode)
        } else {
            Ok(DeployStage::FindConfig { looks: 0 })
        },
        DeployStage::FindConfig { looks } => if o.succeeded() {
            Ok(DeployStage::CheckReadable)
        } else if looks < CONFIG_LOOKS {
            Ok(DeployStage::WaitForConfig { looks })
        } else {
            Err("k3s config file not found after 60 seconds"@)
        },
        DeployStage::WaitForConfig { looks } => Ok(
            DeployStage::FindConfig {
                looks: if looks < CONFIG_LOOKS { (looks + 1) as u8 } else { CONFIG_LOOKS },
            },
        ),
        DeployStage::CheckReadable => Ok(DeployStage::CopyConfig { sudo: !o.succeeded() }),
        DeployStage::CopyConfig { sudo } => if o.succeeded() && h.user is None {
            Err("Could not determine user for chown"@)
        } else {
            or_fail(
                o,
                DeployStage::OwnConfig { sudo },
                "Failed to copy k3s.yaml"@,
                "Failed to copy k3s.yaml: "@,
            )
        },
        DeployStage::OwnConfig { .. } => or_fail(
            o,
            DeployStage::CheckNode,
            "Failed to chown k3s.yaml"@,
            "Failed to change ownership of k3s.yaml: "@,
        ),
        _ => Ok(stage),
    }
}

/// What follows the outcome of the task while a node is waited for, and in the handover.
/// `waited` is for how many seconds the node has been waited for.
pub open spec fn handover_next(stage: DeployStage, o: OutcomeView, waited: u64) -> Result<
    DeployStage,
    Seq<char>,
> {
    match stage {
        DeployStage::CheckNode => if node_is_ready(o) {
            Ok(DeployStage::FindDns)
        } else {
            Ok(DeployStage::PauseForNode { node_ready: false })
        },
        DeployStage::FindDns => if o.succeeded() && printed(o) {
            Ok(DeployStage::CheckDns)
        } else {
            Ok(DeployStage::PauseForNode { node_ready: true })
        },
        DeployStage::CheckDns => if dns_is_ready(o) {
            Ok(DeployStage::FindHelm)
        } else {
            Ok(DeployStage::PauseForNode { node_ready: true })
        },
        DeployStage::PauseForNode { node_ready } => if waited >= NODE_WAIT_SECS {
            Err("Timed out waiting for Kubernetes node to become ready"@)
        } else if node_ready {
            Ok(DeployStage::FindDns)
        } else {
            Ok(DeployStage::CheckNode)
        },
        DeployStage::FindHelm => if o.succeeded() {
            Ok(DeployStage::OfferHandoff)
        } else {
            Ok(DeployStage::InstallHelm)
        },
        DeployStage::InstallHelm => or_fail(
            o,
            DeployStage::OfferHandoff,
            "Failed to execute Helm installation script"@,
            "Helm installation failed: "@,
        ),
        DeployStage::OfferHandoff => if o.succeeded() {
            Ok(DeployStage::AwaitAck)
        } else {
            Err("Failed to write handoff ready file"@)
        },
        DeployStage::AwaitAck => if o.succeeded() {
            Ok(DeployStage::Done)
        } else if o is Broken {
            Err("Failed to install SIGUSR2 handler"@)
        } else {
            Ok(DeployStage::FindOffer)
        },
        DeployStage::FindOffer => if o.succeeded() {
            Ok(DeployStage::WithdrawOffer)
        } else {
            Ok(DeployStage::Done)
        },
        _ => Ok(DeployStage::Done),
    }
}

/// The stage belongs to a deployment in a container.
pub open spec fn in_container(stage: DeployStage) -> bool {
    match stage {
        DeployStage::CheckDocker
        | DeployStage::FindContainer
        | DeployStage::RunContainer
        | DeployStage::WaitForContainer
        | DeployStage::FindRunning
        | DeployStage::StartContainer
        | DeployStage::WaitForStart
        | DeployStage::MakeKubeDir
        | DeployStage::CopyFromContainer
        | DeployStage::EditConfig
        | DeployStage::UseConfig
        | DeployStage::CheckHosts
        | DeployStage::AddHost => true,
        _ => false,
    }
}

/// The stage belongs to the wait for a node or to the handover.
pub open spec fn in_handover(stage: DeployStage) -> bool {
    match stage {
        DeployStage::CheckNode
        | DeployStage::FindDns
        | DeployStage::CheckDns
        | DeployStage::PauseForNode { .. }
        | DeployStage::FindHelm
        | DeployStage::InstallHelm
        | DeployStage::OfferHandoff
        | DeployStage::AwaitAck
        | DeployStage::FindOffer
        | DeployStage::WithdrawOffer
        | DeployStage::Done => true,
        _ => false,
    }
}

/// What follows the outcome of the task at a stage: the next stage, or why the deployment failed.
pub open spec fn deploy_next(
    stage: DeployStage,
    h: DeployHostView,
    o: OutcomeView,
    waited: u64,
) -> Result<DeployStage, Seq<char>> {
    if in_container(stage) {
        container_next(stage, h, o)
    } else if in_handover(stage) {
        handover_next(stage, o, waited)
    } else {
        native_next(stage, h, o)
    }
}

/// A result of a step, with its text.
pub open spec fn deploy_result(r: Result<DeployStage, String>) -> Result<DeployStage, Seq<char>> {
    match r {
        Ok(s) => Ok(s),
        Err(e) => Err(e@),
    }
}

/// Asks whether a service runs.
pub fn ask_for_service(is_macos: bool, service_name: &str) -> (r: Task)
    ensures
        r.deep_view() == service_query(is_macos, service_name@),
{
    if is_macos {
        task2(
            "launchctl",
            "list",
            "com.dragonfly.".to_owned().concat(service_name).as_str(),
        )
    } else {
        task2("systemctl", "is-active", service_name)
    }
}

/// Whether the answer says that the service runs.
pub fn check_service_running(is_macos: bool, outcome: &Outcome) -> (r: bool)
    ensures
        r == service_runs(is_macos, outcome.deep_view()),
{
    match outcome {
        Outcome::Ran { success, stdout, .. } => if is_macos {
            *success && !stdout.as_str().is_empty()
        } else {
            same(trim(stdout.as_str()).as_str(), "active")
        },
        Outcome::Broken(_) => false,
    }
}

fn printed_something(outcome: &Outcome) -> (r: bool)
    ensures
        r == printed(outcome.deep_view()),
{
    match outcome {
        Outcome::Ran { stdout, .. } => !trim(stdout.as_str()).as_str().is_empty(),
        Outcome::Broken(_) => false,
    }
}

fn shows_ready_node(outcome: &Outcome) -> (r: bool)
    ensures
        r == node_is_ready(outcome.deep_view()),
{
    match outcome {
        Outcome::Ran { success, stdout, .. } => *success && contains(stdout.as_str(), " Ready")
            && !contains(stdout.as_str(), "NotReady"),
        Outcome::Broken(_) => false,
    }
}

fn shows_ready_dns(outcome: &Outcome) -> (r: bool)
    ensures
        r == dns_is_ready(outcome.deep_view()),
{
    match outcome {
        Outcome::Ran { stdout, .. } => contains(
            trim_char(trim(stdout.as_str()).as_str(), '\'').as_str(),
            "True",
        ),
        Outcome::Broken(_) => false,
    }
}

fn else_fail(outcome: &Outcome, stage: DeployStage, broken: &str, refused: &str) -> (r: Result<
    DeployStage,
    String,
>)
    ensures
        deploy_result(r) == or_fail(outcome.deep_view(), stage, broken@, refused@),
{
    if outcome.succeeded() {
        Ok(stage)
    } else if outcome.broken() {
        Err(broken.to_owned())
    } else {
        Err(refused.to_owned().concat(outcome.reason()))
    }
}

fn go_to_kube_dir(host: &DeployHost) -> (r: Result<DeployStage, String>)
    ensures
        deploy_result(r) == to_kube_dir(host.deep_view()),
{
    if host.home.is_some() {
        Ok(DeployStage::MakeKubeDir)
    } else {
        Err("Failed to get home directory".to_owned())
    }
}

fn under_sudo(sudo: bool, command: String) -> (r: String)
    ensures
        r@ == with_sudo(sudo, command@),
{
    if sudo {
        "sudo ".to_owned().concat(command.as_str())
    } else {
        command
    }
}

fn run_container() -> (r: Task)
    ensures
        r.deep_view() == (TaskView::Run { program: "docker"@, args: container_arguments() }),
{
    let args: Vec<String> = arguments(
        &[
            "run",
            "--name",
            "k3s-server",
            "-d",
            "--privileged",
            "-p",
            "6443:6443",
            "-p",
            "80:80",
            "-p",
            "443:443",
            "-p",
            "8080:8080",
            "-p",
            "69:69/udp",
            "-p",
            "53:53/udp",
            "-p",
            "67:67/udp",
            "-v",
            "k3s-server:/var/lib/rancher/k3s",
            "--restart",
            "always",
            "rancher/k3s:latest",
            "server",
            "--disable",
            "traefik",
        ],
    );
    assert(args.deep_view() =~= container_arguments());
    Task::Run { program: "docker".to_owned(), args }
}

fn list_containers(running: bool) -> (r: Task)
    ensures
        r.deep_view() == (TaskView::Run {
            program: "docker"@,
            args: if running {
                seq![
                    "ps"@,
                    "-q"@,
                    "--filter"@,
                    "name=k3s-server"@,
                    "--filter"@,
                    "status=running"@,
                ]
            } else {
                seq!["ps"@, "-q"@, "--filter"@, "name=k3s-server"@]
            },
        }),
{
    let args: Vec<String> = if running {
        arguments(&["ps", "-q", "--filter", "name=k3s-server", "--filter", "status=running"])
    } else {
        arguments(&["ps", "-q", "--filter", "name=k3s-server"])
    };
    proof {
        if running {
            assert(args.deep_view() =~= seq![
                "ps"@,
                "-q"@,
                "--filter"@,
                "name=k3s-server"@,
                "--filter"@,
                "status=running"@,
            ]);
        } else {
            assert(args.deep_view() =~= seq!["ps"@, "-q"@, "--filter"@, "name=k3s-server"@]);
        }
    }
    Task::Run { program: "docker".to_owned(), args }
}

fn ask_cluster(stage: DeployStage, host: &DeployHost) -> (r: Task)
    requires
        stage == DeployStage::CheckNode || stage == DeployStage::FindDns || stage
            == DeployStage::CheckDns,
    ensures
        r.deep_view() == deploy_task(stage, host.deep_view()),
{
    let args: Vec<String> = match stage {
        DeployStage::CheckNode => arguments(&["get", "nodes", "--no-headers"]),
        DeployStage::FindDns => arguments(
            &["get", "pods", "-n", "kube-system", "-l", "k8s-app=kube-dns", "--no-headers"],
        ),
        _ => arguments(
            &[
                "get",
                "pods",
                "-n",
                "kube-system",
                "-l",
                "k8s-app=kube-dns",
                "-o",
                "jsonpath='{.items[*].status.conditions[?(@.type==\"Ready\")].status}'",
            ],
        ),
    };
    proof {
        match stage {
            DeployStage::CheckNode => {
                assert(args.deep_view() =~= seq!["get"@, "nodes"@, "--no-headers"@]);
            },
            DeployStage::FindDns => {
                assert(args.deep_view() =~= seq![
                    "get"@,
                    "pods"@,
                    "-n"@,
                    "kube-system"@,
                    "-l"@,
                    "k8s-app=kube-dns"@,
                    "--no-headers"@,
                ]);
            },
            _ => {
                assert(args.deep_view() =~= seq![
                    "get"@,
                    "pods"@,
                    "-n"@,
                    "kube-system"@,
                    "-l"@,
                    "k8s-app=kube-dns"@,
                    "-o"@,
                    "jsonpath='{.items[*].status.conditions[?(@.type==\"Ready\")].status}'"@,
                ]);
            },
        }
    }
    Task::Kubectl { kubeconfig: host.config_copy.clone(), args }
}

impl DeployStage {
    /// The first stage of a deployment.
    pub fn first(host: &DeployHost) -> (r: DeployStage)
        ensures
            r == (if host.is_macos {
                DeployStage::CheckDocker
            } else {
                DeployStage::FindInstalled
            }),
    {
        if host.is_macos {
            DeployStage::CheckDocker
        } else {
            DeployStage::FindInstalled
        }
    }

    /// What is to be done at this stage.
    pub fn task(self, host: &DeployHost) -> (r: Task)
        ensures
            r.deep_view() == deploy_task(self, host.deep_view()),
    {
        let home: String = match &host.home {
            Some(h) => h.clone(),
            None => String::new(),
        };
        match self {
            DeployStage::CheckDocker => task1("docker", "info"),
            DeployStage::FindContainer => list_containers(false),
            DeployStage::RunContainer => run_container(),
            DeployStage::WaitForContainer => Task::Sleep(15),
            DeployStage::FindRunning => list_containers(true),
            DeployStage::StartContainer => task2("docker", "start", "k3s-server"),
            DeployStage::WaitForStart => Task::Sleep(10),
            DeployStage::MakeKubeDir => Task::MakeDir(home.concat("/.kube")),
            DeployStage::CopyFromContainer => task2(
                "sh",
                "-c",
                "docker cp k3s-server:/etc/rancher/k3s/k3s.yaml ".to_owned().concat(
                    home.as_str(),
                ).concat("/.kube/config").as_str(),
            ),
            DeployStage::EditConfig => task2(
                "sh",
                "-c",
                "sed -i '' 's/127.0.0.1/kubernetes.docker.internal/g' ".to_owned().concat(
                    home.as_str(),
                ).concat("/.kube/config").as_str(),
            ),
            DeployStage::UseConfig => Task::SetVar {
                name: "KUBECONFIG".to_owned(),
                value: home.concat("/.kube/config"),
            },
            DeployStage::CheckHosts => task2("grep", "kubernetes.docker.internal", "/etc/hosts"),
            DeployStage::AddHost => task2(
                "sh",
                "-c",
                "echo '127.0.0.1 kubernetes.docker.internal' | sudo tee -a /etc/hosts",
            ),
            DeployStage::FindInstalled => Task::Exists("/etc/rancher/k3s/k3s.yaml".to_owned()),
            DeployStage::CheckInstalled
            | DeployStage::CheckRunning
            | DeployStage::CheckRestarted => ask_for_service(host.is_macos, "k3s"),
            DeployStage::InstallCluster => task2(
                "sh",
                "-c",
                "curl -sfL https://get.k3s.io | INSTALL_K3S_EXEC='--disable traefik' sh -",
            ),
            DeployStage::WaitForInstall => Task::Sleep(5),
            DeployStage::RestartCluster => task2("systemctl", "restart", "k3s"),
            DeployStage::WaitForRestart => Task::Sleep(10),
            DeployStage::FindCopy => Task::Exists(host.config_copy.clone()),
            DeployStage::TryCopy => task3(
                "kubectl",
                "--kubeconfig",
                host.config_copy.as_str(),
                "cluster-info",
            ),
            DeployStage::FindConfig { .. } => Task::Exists("/etc/rancher/k3s/k3s.yaml".to_owned()),
            DeployStage::WaitForConfig { .. } => Task::Sleep(5),
            DeployStage::CheckReadable => Task::Exists("/etc/rancher/k3s/k3s.yaml".to_owned()),
            DeployStage::CopyConfig { sudo } => task2(
                "sh",
                "-c",
                under_sudo(
                    sudo,
                    "cp /etc/rancher/k3s/k3s.yaml ".to_owned().concat(host.config_copy.as_str()),
                ).as_str(),
            ),
            DeployStage::OwnConfig { sudo } => {
                let user: String = match &host.user {
                    Some(u) => u.clone(),
                    None => String::new(),
                };
                task2(
                    "sh",
                    "-c",
                    under_sudo(
                        sudo,
                        "chown ".to_owned().concat(user.as_str()).concat(" ").concat(
                            host.config_copy.as_str(),
                        ),
                    ).as_str(),
                )
            },
            DeployStage::CheckNode | DeployStage::FindDns | DeployStage::CheckDns => ask_cluster(
                self,
                host,
            ),
            DeployStage::PauseForNode { .. } => Task::Sleep(5),
            DeployStage::FindHelm => task2("helm", "version", "--short"),
            DeployStage::InstallHelm => task2(
                "sh",
                "-c",
                "curl -sSL https://raw.githubusercontent.com/helm/helm/main/scripts/get-helm-3 | bash",
            ),
            DeployStage::OfferHandoff => Task::WriteFile {
                path: "/var/lib/dragonfly/handoff_ready".to_owned(),
                content: decimal_of(host.pid as u64),
            },
            DeployStage::AwaitAck => Task::AwaitAck(10),
            DeployStage::FindOffer => Task::Exists("/var/lib/dragonfly/handoff_ready".to_owned()),
            DeployStage::WithdrawOffer => Task::RemoveFile(
                "/var/lib/dragonfly/handoff_ready".to_owned(),
            ),
            DeployStage::Done => Task::Nothing,
        }
    }

    fn next_in_container(self, host: &DeployHost, outcome: &Outcome) -> (r: Result<
        DeployStage,
        String,
    >)
        ensures
            deploy_result(r) == container_next(self, host.deep_view(), outcome.deep_view()),
    {
        match self {
            DeployStage::CheckDocker => if outcome.succeeded() {
                Ok(DeployStage::FindContainer)
            } else {
                Err(
                    "Docker is not installed or not running. Please install and start Docker Desktop.".to_owned(),
                )
            },
            DeployStage::FindContainer => if printed_something(outcome) {
                Ok(DeployStage::FindRunning)
            } else {
                Ok(DeployStage::RunContainer)
            },
            DeployStage::RunContainer => else_fail(
                outcome,
                DeployStage::WaitForContainer,
                "Failed to start k3s Docker container",
                "Failed to start k3s in Docker: ",
            ),
            DeployStage::WaitForContainer => go_to_kube_dir(host),
            DeployStage::FindRunning => if printed_something(outcome) {
                go_to_kube_dir(host)
            } else {
                Ok(DeployStage::StartContainer)
            },
            DeployStage::StartContainer => else_fail(
                outcome,
                DeployStage::WaitForStart,
                "Failed to start existing k3s container",
                "Failed to start existing k3s container: ",
            ),
            DeployStage::WaitForStart => go_to_kube_dir(host),
            DeployStage::MakeKubeDir => Ok(DeployStage::CopyFromContainer),
            DeployStage::CopyFromContainer => else_fail(
                outcome,
                DeployStage::EditConfig,
                "Failed to copy kubeconfig from container",
                "Failed to copy kubeconfig from container: ",
            ),
            DeployStage::EditConfig => if outcome.broken() {
                Err("Failed to update kubeconfig server address".to_owned())
            } else {
                Ok(DeployStage::UseConfig)
            },
            DeployStage::UseConfig => Ok(DeployStage::CheckHosts),
            DeployStage::CheckHosts => if outcome.succeeded() {
                Ok(DeployStage::FindHelm)
            } else {
                Ok(DeployStage::AddHost)
            },
            _ => Ok(DeployStage::FindHelm),
        }
    }

    fn next_on_host(self, host: &DeployHost, outcome: &Outcome) -> (r: Result<DeployStage, String>)
        ensures
            deploy_result(r) == native_next(self, host.deep_view(), outcome.deep_view()),
    {
        match self {
            DeployStage::FindInstalled => if outcome.succeeded() {
                Ok(DeployStage::CheckInstalled)
            } else {
                Ok(DeployStage::InstallCluster)
            },
            DeployStage::CheckInstalled => if check_service_running(host.is_macos, outcome) {
                Ok(DeployStage::CheckRunning)
            } else {
                Ok(DeployStage::InstallCluster)
            },
            DeployStage::InstallCluster => else_fail(
                outcome,
                DeployStage::WaitForInstall,
                "Failed to execute k3s installation script",
                "k3s installation failed: ",
            ),
            DeployStage::WaitForInstall => Ok(DeployStage::CheckRunning),
            DeployStage::CheckRunning => if check_service_running(host.is_macos, outcome) {
                Ok(DeployStage::FindCopy)
            } else {
                Ok(DeployStage::RestartCluster)
            },
            DeployStage::RestartCluster => else_fail(
                outcome,
                DeployStage::WaitForRestart,
                "Failed to restart k3s service",
                "Failed to restart k3s service: ",
            ),
            DeployStage::WaitForRestart => Ok(DeployStage::CheckRestarted),
            DeployStage::CheckRestarted => if check_service_running(host.is_macos, outcome) {
                Ok(DeployStage::FindCopy)
            } else {
                Err("k3s service failed to start after installation".to_owned())
            },
            DeployStage::FindCopy => if outcome.succeeded() {
                Ok(DeployStage::TryCopy)
            } else {
                Ok(DeployStage::FindConfig { looks: 0 })
            },
            DeployStage::TryCopy => if outcome.succeeded() {
                Ok(DeployStage::CheckNode)
            } else {
                Ok(DeployStage::FindConfig { looks: 0 })
            },
            DeployStage::FindConfig { looks } => if outcome.succeeded() {
                Ok(DeployStage::CheckReadable)
            } else if looks < CONFIG_LOOKS {
                Ok(DeployStage::WaitForConfig { looks })
            } else {
                Err("k3s config file not found after 60 seconds".to_owned())
            },
            DeployStage::WaitForConfig { looks } => Ok(
                DeployStage::FindConfig {
                    looks: if looks < CONFIG_LOOKS { looks + 1 } else { CONFIG_LOOKS },
                },
            ),
            DeployStage::CheckReadable => Ok(
                DeployStage::CopyConfig { sudo: !outcome.succeeded() },
            ),
            DeployStage::CopyConfig { sudo } => if outcome.succeeded() && host.user.is_none() {
                Err("Could not determine user for chown".to_owned())
            } else {
                else_fail(
                    outcome,
                    DeployStage::OwnConfig { sudo },
                    "Failed to copy k3s.yaml",
                    "Failed to copy k3s.yaml: ",
                )
            },
            DeployStage::OwnConfig { .. } => else_fail(
                outcome,
                DeployStage::CheckNode,
                "Failed to chown k3s.yaml",
                "Failed to change ownership of k3s.yaml: ",
            ),
            _ => Ok(self),
        }
    }

    fn next_in_handover(self, outcome: &Outcome, waited: u64) -> (r: Result<DeployStage, String>)
        ensures
            deploy_result(r) == handover_next(self, outcome.deep_view(), waited),
    {
        match self {
            DeployStage::CheckNode => if shows_ready_node(outcome) {
                Ok(DeployStage::FindDns)
            } else {
                Ok(DeployStage::PauseForNode { node_ready: false })
            },
            DeployStage::FindDns => if outcome.succeeded() && printed_something(outcome) {
                Ok(DeployStage::CheckDns)
            } else {
                Ok(DeployStage::PauseForNode { node_ready: true })
            },
            DeployStage::CheckDns => if shows_ready_dns(outcome) {
                Ok(DeployStage::FindHelm)
            } else {
                Ok(DeployStage::PauseForNode { node_ready: true })
            },
            DeployStage::PauseForNode { node_ready } => if waited >= NODE_WAIT_SECS {
                Err("Timed out waiting for Kubernetes node to become ready".to_owned())
            } else if node_ready {
                Ok(DeployStage::FindDns)
            } else {
                Ok(DeployStage::CheckNode)
            },
            DeployStage::FindHelm => if outcome.succeeded() {
                Ok(DeployStage::OfferHandoff)
            } else {
                Ok(DeployStage::InstallHelm)
            },
            DeployStage::InstallHelm => else_fail(
                outcome,
                DeployStage::OfferHandoff,
                "Failed to execute Helm installation script",
                "Helm installation failed: ",
            ),
            DeployStage::OfferHandoff => if outcome.succeeded() {
                Ok(DeployStage::AwaitAck)
            } else {
                Err("Failed to write handoff ready file".to_owned())
            },
            DeployStage::AwaitAck => if outcome.succeeded() {
                Ok(DeployStage::Done)
            } else if outcome.broken() {
                Err("Failed to install SIGUSR2 handler".to_owned())
            } else {
                Ok(DeployStage::FindOffer)
            },
            DeployStage::FindOffer => if outcome.succeeded() {
                Ok(DeployStage::WithdrawOffer)
            } else {
                Ok(DeployStage::Done)
            },
            _ => Ok(DeployStage::Done),
        }
    }

    /// Goes on from the outcome of the task. `waited` is for how many seconds a node has been
    /// waited for, where one is.
    pub fn next(self, host: &DeployHost, outcome: &Outcome, waited: u64) -> (r: Result<
        DeployStage,
        String,
    >)
        ensures
            deploy_result(r) == deploy_next(self, host.deep_view(), outcome.deep_view(), waited),
    {
        match self {
            DeployStage::CheckDocker
            | DeployStage::FindContainer
            | DeployStage::RunContainer
            | DeployStage::WaitForContainer
            | DeployStage::FindRunning
            | DeployStage::StartContainer
            | DeployStage::WaitForStart
            | DeployStage::MakeKubeDir
            | DeployStage::CopyFromContainer
            | DeployStage::EditConfig
            | DeployStage::UseConfig
            | DeployStage::CheckHosts
            | DeployStage::AddHost => self.next_in_container(host, outcome),
            DeployStage::CheckNode
            | DeployStage::FindDns
            | DeployStage::CheckDns
            | DeployStage::PauseForNode { .. }
            | DeployStage::FindHelm
            | DeployStage::InstallHelm
            | DeployStage::OfferHandoff
            | DeployStage::AwaitAck
            | DeployStage::FindOffer
            | DeployStage::WithdrawOffer
            | DeployStage::Done => self.next_in_handover(outcome, waited),
            _ => self.next_on_host(host, outcome),
        }
    }
}

/// How far a stage is from the end, at most; where a node is waited for, from the end of the
/// wait.
pub open spec fn deploy_stages_left(stage: DeployStage) -> int {
    match stage {
        DeployStage::CheckDocker => 70,
        DeployStage::FindContainer => 69,
        DeployStage::RunContainer => 68,
        DeployStage::WaitForContainer => 67,
        DeployStage::FindRunning => 66,
        DeployStage::StartContainer => 65,
        DeployStage::WaitForStart => 64,
        DeployStage::MakeKubeDir => 63,
        DeployStage::CopyFromContainer => 62,
        DeployStage::EditConfig => 61,
        DeployStage::UseConfig => 60,
        DeployStage::CheckHosts => 59,
        DeployStage::AddHost => 58,
        DeployStage::FindInstalled => 57,
        DeployStage::CheckInstalled => 56,
        DeployStage::InstallCluster => 55,
        DeployStage::WaitForInstall => 54,
        DeployStage::CheckRunning => 53,
        DeployStage::RestartCluster => 52,
        DeployStage::WaitForRestart => 51,
        DeployStage::CheckRestarted => 50,
        DeployStage::FindCopy => 49,
        DeployStage::TryCopy => 48,
        DeployStage::FindConfig { looks } => 47 - 2 * looks,
        DeployStage::WaitForConfig { looks } => 46 - 2 * looks,
        DeployStage::CheckReadable => 15,
        DeployStage::CopyConfig { .. } => 14,
        DeployStage::OwnConfig { .. } => 13,
        DeployStage::CheckNode => 11,
        DeployStage::FindDns => 10,
        DeployStage::CheckDns => 9,
        DeployStage::PauseForNode { .. } => 8,
        DeployStage::FindHelm => 7,
        DeployStage::InstallHelm => 6,
        DeployStage::OfferHandoff => 5,
        DeployStage::AwaitAck => 4,
        DeployStage::FindOffer => 3,
        DeployStage::WithdrawOffer => 2,
        DeployStage::Done => 1,
    }
}

/// The stage is one that a deployment reaches: a look for the configuration that it counts.
pub open spec fn is_reachable(stage: DeployStage) -> bool {
    match stage {
        DeployStage::FindConfig { looks } => looks <= CONFIG_LOOKS,
        DeployStage::WaitForConfig { looks } => looks < CONFIG_LOOKS,
        _ => true,
    }
}

/// Every step of a deployment brings it nearer to its end, but for the pauses while a node is
/// waited for; and after the time for that has run out, the pauses end it too.
pub proof fn deployment_makes_progress(
    stage: DeployStage,
    h: DeployHostView,
    o: OutcomeView,
    waited: u64,
)
    requires
        is_reachable(stage),
        stage != DeployStage::Done,
    ensures
        deploy_next(stage, h, o, waited) matches Ok(next) ==> is_reachable(next) && (
        deploy_stages_left(next) < deploy_stages_left(stage) || (stage is PauseForNode && waited
            < NODE_WAIT_SECS)),
{
}

/// The cluster offers to take over only once Helm is known to be there.
pub proof fn no_offer_without_helm(
    stage: DeployStage,
    h: DeployHostView,
    o: OutcomeView,
    waited: u64,
)
    ensures
        deploy_next(stage, h, o, waited) == Ok::<DeployStage, Seq<char>>(DeployStage::OfferHandoff)
            ==> (stage == DeployStage::FindHelm || stage == DeployStage::InstallHelm)
            && o.succeeded(),
{
}

// ---------------------------------------------------------------------------------------------
// The other side of the handover
// ---------------------------------------------------------------------------------------------

/// The process to acknowledge the handover to, by the contents of the offer.
pub fn handoff_pid(content: &str) -> (r: Option<i32>)
    ensures
        r == integer32(trimmed(content@)),
{
    parse_i32(trim(content).as_str())
}

/// The acknowledgement to a process.
pub fn acknowledge(pid: i32) -> (r: Task)
    ensures
        r.deep_view() == run2("kill"@, "-SIGUSR2"@, decimal_int(pid as int)),
{
    task2("kill", "-SIGUSR2", decimal_of_int(pid as i64).as_str())
}

// ---------------------------------------------------------------------------------------------
// What a deployment amounts to
// ---------------------------------------------------------------------------------------------

/// The task that follows the outcome of the one at hand, unless the deployment fails.
pub open spec fn next_deploy_task(
    stage: DeployStage,
    h: DeployHostView,
    o: OutcomeView,
    waited: u64,
) -> Option<TaskView> {
    match deploy_next(stage, h, o, waited) {
        Ok(next) => Some(deploy_task(next, h)),
        Err(_) => None,
    }
}

/// A task that runs a program with these arguments.
pub open spec fn runs(program: Seq<char>, args: Seq<Seq<char>>) -> Option<TaskView> {
    Some(TaskView::Run { program, args })
}

/// In a container the cluster is run once: a container that is there is used, and started where it does
/// not run; only where there is none a new one is run. Without Docker there is no cluster.
pub proof fn container_is_used_again(
    stage: DeployStage,
    h: DeployHostView,
    o: OutcomeView,
    waited: u64,
    home: Seq<char>,
)
    requires
        h.home == Some(home),
    ensures
        ({
            let next = next_deploy_task(stage, h, o, waited);
            let well = o.succeeded();
            let shows = o matches OutcomeView::Ran { stdout, .. } && trimmed(stdout).len() > 0;
            let use_it = Some(TaskView::MakeDir(home + "/.kube"@));
            let name = "name=k3s-server"@;
            &&& stage == DeployStage::CheckDocker && well ==> next == runs(
                "docker"@,
                seq!["ps"@, "-q"@, "--filter"@, name],
            )
            &&& stage == DeployStage::CheckDocker && !well ==> next is None
            &&& stage == DeployStage::FindContainer && shows ==> next == runs(
                "docker"@,
                seq!["ps"@, "-q"@, "--filter"@, name, "--filter"@, "status=running"@],
            )
            &&& stage == DeployStage::FindContainer && !shows ==> next == runs(
                "docker"@,
                container_arguments(),
            )
            &&& stage == DeployStage::RunContainer && well ==> next == Some(TaskView::Sleep(15))
            &&& stage == DeployStage::FindRunning && shows ==> next == use_it
            &&& stage == DeployStage::FindRunning && !shows ==> next == runs(
                "docker"@,
                seq!["start"@, "k3s-server"@],
            )
            &&& stage == DeployStage::StartContainer && well ==> next == Some(TaskView::Sleep(10))
            &&& stage == DeployStage::WaitForContainer || stage == DeployStage::WaitForStart ==> next
                == use_it
        }),
{
}

/// The configuration of a cluster in a container is copied to the home of the user, made to name an
/// address that reaches the container, and used; the address is made known where it is not.
pub proof fn container_configuration_is_used(
    stage: DeployStage,
    h: DeployHostView,
    o: OutcomeView,
    waited: u64,
    home: Seq<char>,
)
    requires
        h.home == Some(home),
    ensures
        ({
            let next = next_deploy_task(stage, h, o, waited);
            let well = o.succeeded();
            let config = home + "/.kube/config"@;
            &&& stage == DeployStage::MakeKubeDir ==> next == runs(
                "sh"@,
                seq!["-c"@, "docker cp k3s-server:/etc/rancher/k3s/k3s.yaml "@ + home + "/.kube/config"@],
            )
            &&& stage == DeployStage::CopyFromContainer && well ==> next == runs(
                "sh"@,
                seq![
                    "-c"@,
                    "sed -i '' 's/127.0.0.1/kubernetes.docker.internal/g' "@ + home
                        + "/.kube/config"@,
                ],
            )
            &&& stage == DeployStage::EditConfig && o is Ran ==> next == Some(
                TaskView::SetVar { name: "KUBECONFIG"@, value: config },
            )
            &&& stage == DeployStage::EditConfig && o is Broken ==> next is None
            &&& stage == DeployStage::UseConfig ==> next == runs(
                "grep"@,
                seq!["kubernetes.docker.internal"@, "/etc/hosts"@],
            )
            &&& stage == DeployStage::CheckHosts && !well ==> next == runs(
                "sh"@,
                seq![
                    "-c"@,
                    "echo '127.0.0.1 kubernetes.docker.internal' | sudo tee -a /etc/hosts"@,
                ],
            )
            &&& (stage == DeployStage::CheckHosts && well) || stage == DeployStage::AddHost ==> next
                == runs("helm"@, seq!["version"@, "--short"@])
        }),
{
}

/// A container for a user without a home directory cannot be used.
pub proof fn container_needs_a_home(stage: DeployStage, h: DeployHostView, o: OutcomeView, waited: u64)
    requires
        h.home is None,
        stage == DeployStage::WaitForContainer || stage == DeployStage::WaitForStart,
    ensures
        deploy_next(stage, h, o, waited) is Err,
{
}

/// On the host the cluster is installed unless it is there and runs, restarted once where it does not
/// run then, and given up where that does not help.
pub proof fn cluster_is_made_to_run(
    stage: DeployStage,
    h: DeployHostView,
    o: OutcomeView,
    waited: u64,
)
    requires
        !h.is_macos,
    ensures
        ({
            let next = next_deploy_task(stage, h, o, waited);
            let well = o.succeeded();
            let active = o matches OutcomeView::Ran { stdout, .. } && trimmed(stdout) == "active"@;
            let install = runs(
                "sh"@,
                seq![
                    "-c"@,
                    "curl -sfL https://get.k3s.io | INSTALL_K3S_EXEC='--disable traefik' sh -"@,
                ],
            );
            let ask = runs("systemctl"@, seq!["is-active"@, "k3s"@]);
            &&& stage == DeployStage::FindInstalled && well ==> next == ask
            &&& stage == DeployStage::FindInstalled && !well ==> next == install
            &&& stage == DeployStage::CheckInstalled && active ==> next == ask
            &&& stage == DeployStage::CheckInstalled && !active ==> next == install
            &&& stage == DeployStage::InstallCluster && well ==> next == Some(TaskView::Sleep(5))
            &&& stage == DeployStage::WaitForInstall ==> next == ask
            &&& stage == DeployStage::CheckRunning && active ==> next == Some(
                TaskView::Exists(h.config_copy),
            )
            &&& stage == DeployStage::CheckRunning && !active ==> next == runs(
                "systemctl"@,
                seq!["restart"@, "k3s"@],
            )
            &&& stage == DeployStage::RestartCluster && well ==> next == Some(TaskView::Sleep(10))
            &&& stage == DeployStage::WaitForRestart ==> next == ask
            &&& stage == DeployStage::CheckRestarted && active ==> next == Some(
                TaskView::Exists(h.config_copy),
            )
            &&& stage == DeployStage::CheckRestarted && !active ==> next is None
        }),
{
}

/// A copy of the configuration that works is used as it is; else the configuration is waited for, up to
/// twelve times five seconds, copied, with other rights where it cannot be read without them, and handed
/// to the user.
pub proof fn configuration_is_copied(
    stage: DeployStage,
    h: DeployHostView,
    o: OutcomeView,
    waited: u64,
    looks: u8,
    sudo: bool,
)
    requires
        looks <= 12,
    ensures
        ({
            let next = next_deploy_task(stage, h, o, waited);
            let well = o.succeeded();
            let original = "/etc/rancher/k3s/k3s.yaml"@;
            let look = Some(TaskView::Exists(original));
            let copying = "cp /etc/rancher/k3s/k3s.yaml "@ + h.config_copy;
            let nodes = Some(
                TaskView::Kubectl {
                    kubeconfig: h.config_copy,
                    args: seq!["get"@, "nodes"@, "--no-headers"@],
                },
            );
            &&& stage == DeployStage::FindCopy && well ==> next == runs(
                "kubectl"@,
                seq!["--kubeconfig"@, h.config_copy, "cluster-info"@],
            )
            &&& stage == DeployStage::TryCopy && well ==> next == nodes
            &&& (stage == DeployStage::FindCopy || stage == DeployStage::TryCopy) && !well ==> next
                == look && deploy_next(stage, h, o, waited) == Ok::<DeployStage, Seq<char>>(
                DeployStage::FindConfig { looks: 0 },
            )
            &&& stage == DeployStage::FindConfig { looks } && well ==> deploy_next(
                stage,
                h,
                o,
                waited,
            ) == Ok::<DeployStage, Seq<char>>(DeployStage::CheckReadable)
            &&& stage == DeployStage::FindConfig { looks } && !well ==> (if looks < 12 {
                next == Some(TaskView::Sleep(5))
            } else {
                next is None
            })
            &&& stage == DeployStage::WaitForConfig { looks } && looks < 12 ==> next == look
                && deploy_next(stage, h, o, waited) == Ok::<DeployStage, Seq<char>>(
                DeployStage::FindConfig { looks: (looks + 1) as u8 },
            )
            &&& stage == DeployStage::CheckReadable && well ==> next == runs(
                "sh"@,
                seq!["-c"@, copying],
            )
            &&& stage == DeployStage::CheckReadable && !well ==> next == runs(
                "sh"@,
                seq!["-c"@, "sudo "@ + copying],
            )
            &&& stage == DeployStage::CopyConfig { sudo } && well && h.user is None ==> next is None
            &&& stage == DeployStage::CopyConfig { sudo } && well ==> (h.user matches Some(user)
                ==> next == runs(
                "sh"@,
                seq![
                    "-c"@,
                    if sudo {
                        "sudo "@ + ("chown "@ + user + " "@ + h.config_copy)
                    } else {
                        "chown "@ + user + " "@ + h.config_copy
                    },
                ],
            ))
            &&& stage == DeployStage::OwnConfig { sudo } && well ==> next == nodes
        }),
{
}

/// A cluster is ready once its nodes are and its name service is: until then both are looked at again
/// every five seconds, for as long as that may take.
pub proof fn node_is_waited_for(
    stage: DeployStage,
    h: DeployHostView,
    o: OutcomeView,
    waited: u64,
    node_ready: bool,
)
    ensures
        ({
            let next = next_deploy_task(stage, h, o, waited);
            let ready = o matches OutcomeView::Ran { success: true, stdout, .. } && is_part(
                " Ready"@,
                stdout,
            ) && !is_part("NotReady"@, stdout);
            let shows = o matches OutcomeView::Ran { success: true, stdout, .. } && trimmed(
                stdout,
            ).len() > 0;
            let dns = o matches OutcomeView::Ran { stdout, .. } && is_part(
                "True"@,
                stripped(trimmed(stdout), '\''),
            );
            &&& stage == DeployStage::CheckNode && ready ==> deploy_next(stage, h, o, waited)
                == Ok::<DeployStage, Seq<char>>(DeployStage::FindDns)
            &&& stage == DeployStage::CheckNode && !ready ==> deploy_next(stage, h, o, waited)
                == Ok::<DeployStage, Seq<char>>(DeployStage::PauseForNode { node_ready: false })
            &&& stage == DeployStage::FindDns && shows ==> deploy_next(stage, h, o, waited)
                == Ok::<DeployStage, Seq<char>>(DeployStage::CheckDns)
            &&& stage == DeployStage::FindDns && !shows ==> deploy_next(stage, h, o, waited)
                == Ok::<DeployStage, Seq<char>>(DeployStage::PauseForNode { node_ready: true })
            &&& stage == DeployStage::CheckDns && dns ==> next == runs(
                "helm"@,
                seq!["version"@, "--short"@],
            )
            &&& stage == DeployStage::CheckDns && !dns ==> deploy_next(stage, h, o, waited)
                == Ok::<DeployStage, Seq<char>>(DeployStage::PauseForNode { node_ready: true })
            &&& stage == DeployStage::PauseForNode { node_ready } && waited >= NODE_WAIT_SECS
                ==> next is None
            &&& stage == DeployStage::PauseForNode { node_ready } && waited < NODE_WAIT_SECS
                ==> deploy_next(stage, h, o, waited) == Ok::<DeployStage, Seq<char>>(
                if node_ready {
                    DeployStage::FindDns
                } else {
                    DeployStage::CheckNode
                },
            )
            &&& deploy_task(DeployStage::PauseForNode { node_ready }, h) == TaskView::Sleep(5)
            &&& deploy_task(DeployStage::FindDns, h) == (TaskView::Kubectl {
                kubeconfig: h.config_copy,
                args: seq![
                    "get"@,
                    "pods"@,
                    "-n"@,
                    "kube-system"@,
                    "-l"@,
                    "k8s-app=kube-dns"@,
                    "--no-headers"@,
                ],
            })
        }),
{
    match o {
        OutcomeView::Ran { stdout, .. } => {
            held_is_a_part(stdout, " Ready"@);
            held_is_a_part(stdout, "NotReady"@);
            held_is_a_part(stripped(trimmed(stdout), '\''), "True"@);
        },
        OutcomeView::Broken(_) => {},
    }
}

/// With Helm, which is installed where it is missing, the cluster is offered to the server by the number
/// of the process; an offer that nobody takes is taken back.
pub proof fn offer_is_made_and_taken_back(
    stage: DeployStage,
    h: DeployHostView,
    o: OutcomeView,
    waited: u64,
)
    ensures
        ({
            let next = next_deploy_task(stage, h, o, waited);
            let well = o.succeeded();
            let offer = "/var/lib/dragonfly/handoff_ready"@;
            let offering = Some(
                TaskView::WriteFile { path: offer, content: decimal(h.pid as nat) },
            );
            let end = Some(TaskView::Nothing);
            &&& (stage == DeployStage::FindHelm || stage == DeployStage::InstallHelm) && well ==> next
                == offering
            &&& stage == DeployStage::FindHelm && !well ==> next == runs(
                "sh"@,
                seq![
                    "-c"@,
                    "curl -sSL https://raw.githubusercontent.com/helm/helm/main/scripts/get-helm-3 | bash"@,
                ],
            )
            &&& stage == DeployStage::OfferHandoff && well ==> next == Some(TaskView::AwaitAck(10))
            &&& stage == DeployStage::OfferHandoff && !well ==> next is None
            &&& stage == DeployStage::AwaitAck && well ==> next == end
            &&& stage == DeployStage::AwaitAck && !well && o is Ran ==> next == Some(
                TaskView::Exists(offer),
            )
            &&& stage == DeployStage::AwaitAck && o is Broken ==> next is None
            &&& stage == DeployStage::FindOffer && well ==> next == Some(TaskView::RemoveFile(offer))
            &&& stage == DeployStage::FindOffer && !well ==> next == end
            &&& stage == DeployStage::WithdrawOffer ==> next == end
            &&& stage == DeployStage::Done ==> next == end
        }),
{
}

/// The stage is one at which a deployment cannot go on without success.
pub open spec fn is_decisive(stage: DeployStage) -> bool {
    match stage {
        DeployStage::RunContainer
        | DeployStage::StartContainer
        | DeployStage::CopyFromContainer
        | DeployStage::InstallCluster
        | DeployStage::RestartCluster
        | DeployStage::CopyConfig { .. }
        | DeployStage::OwnConfig { .. }
        | DeployStage::InstallHelm => true,
        _ => false,
    }
}

/// Where a decisive step is refused, the deployment fails, and says what the step said.
pub proof fn refusals_are_quoted(stage: DeployStage, h: DeployHostView, o: OutcomeView, waited: u64)
    requires
        is_decisive(stage),
    ensures
        !o.succeeded() ==> deploy_next(stage, h, o, waited) is Err,
        o matches OutcomeView::Ran { success: false, stderr, .. } ==> (deploy_next(
            stage,
            h,
            o,
            waited,
        ) matches Err(m) && is_part(stderr, m)),
{
    let e = o.reason();
    stand_together("Failed to start k3s in Docker: "@, e);
    stand_together("Failed to start existing k3s container: "@, e);
    stand_together("Failed to copy kubeconfig from container: "@, e);
    stand_together("k3s installation failed: "@, e);
    stand_together("Failed to restart k3s service: "@, e);
    stand_together("Failed to copy k3s.yaml: "@, e);
    stand_together("Failed to change ownership of k3s.yaml: "@, e);
    stand_together("Helm installation failed: "@, e);
}

/// On macOS a service runs where the system lists it with something to say; elsewhere where it is said to
/// be active.
pub proof fn running_services_are_known(success: bool, stdout: Seq<char>, stderr: Seq<char>)
    ensures
        ({
            let o = OutcomeView::Ran { success, stdout, stderr };
            &&& service_runs(true, o) <==> success && stdout.len() > 0
            &&& service_runs(false, o) <==> trimmed(stdout) == "active"@
            &&& !service_runs(true, OutcomeView::Broken(stderr))
            &&& !service_runs(false, OutcomeView::Broken(stderr))
            &&& service_query(true, stdout) == (TaskView::Run {
                program: "launchctl"@,
                args: seq!["list"@, "com.dragonfly."@ + stdout],
            })
        }),
{
}

} // verus!
