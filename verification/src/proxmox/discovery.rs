//! Recording the machines of a Proxmox cluster.
//!
//! A discovery walks over the nodes of a cluster and over the virtual machines of each node. It
//! says at each point what to do next, and is told how that ended.

use vstd::prelude::*;

use crate::json::{Json, JsonView, json_of, parse_json};
use crate::machine::{MachineStatus, RegisterRequest, RegisterView, StatusView};
use crate::proxmox::replies::{
    agent_alive, agent_enabled, configured_os, guess_os, guessed_os, guest_ip, guest_os, host_ip,
    host_label, host_mac, net_mac, node_list, read_agent_alive, read_agent_enabled, read_configured_os,
    read_guest_ip, read_guest_os, read_host_ip, read_host_label, read_host_mac, read_node_list,
    read_vm_list, read_vm_mac, read_vm_resources, vm_list, vm_mac, vm_resources, VmEntry,
    VmEntryView,
};
use crate::seqs::{first_some, somes};
use crate::text::{decimal, decimal_of, lowercase, same};

verus! {

/// A host or a virtual machine that was found.
#[derive(Clone, Debug, PartialEq, Eq)]
pub struct DiscoveredProxmox {
    pub host: String,
    pub port: u16,
    pub hostname: Option<String>,
    pub mac_address: Option<String>,
    pub machine_type: String,
    pub vmid: Option<u32>,
    pub parent_host: Option<String>,
}

/// A host or a virtual machine that was found, as a mathematical value.
pub struct DiscoveredView {
    pub host: Seq<char>,
    pub port: u16,
    pub hostname: Option<Seq<char>>,
    pub mac_address: Option<Seq<char>>,
    pub machine_type: Seq<char>,
    pub vmid: Option<u32>,
    pub parent_host: Option<Seq<char>>,
}

impl DeepView for DiscoveredProxmox {
    type V = DiscoveredView;

    open spec fn deep_view(&self) -> DiscoveredView {
        DiscoveredView {
            host: self.host@,
            port: self.port,
            hostname: self.hostname.deep_view(),
            mac_address: self.mac_address.deep_view(),
            machine_type: self.machine_type@,
            vmid: self.vmid,
            parent_host: self.parent_host.deep_view(),
        }
    }
}

/// What is being waited for while a virtual machine is looked at.
#[derive(Clone, Copy, Debug, PartialEq, Eq, Structural)]
pub enum VmStage {
    /// Its state.
    Status,
    /// Its configuration.
    Config,
    /// A sign of life of its guest agent.
    Ping,
    /// What its guest agent says of the operating system.
    OsInfo,
    /// What its guest agent says of the network.
    Interfaces,
    /// Its record.
    Registration,
    /// The completion of its record.
    Settling,
}

/// The virtual machine that is being looked at, and those of its node that come behind it.
#[derive(Debug, PartialEq, Eq)]
pub struct VmWork {
    pub node: String,
    pub rest: Vec<VmEntry>,
    pub vmid: u32,
    pub name: String,
    pub status: String,
    pub os: String,
    pub memory: u64,
    pub cores: u32,
    pub mac: String,
    pub ip: String,
}

/// `VmWork` as a mathematical value.
pub struct VmWorkView {
    pub node: Seq<char>,
    pub rest: Seq<VmEntryView>,
    pub vmid: u32,
    pub name: Seq<char>,
    pub status: Seq<char>,
    pub os: Seq<char>,
    pub memory: u64,
    pub cores: u32,
    pub mac: Seq<char>,
    pub ip: Seq<char>,
}

impl DeepView for VmWork {
    type V = VmWorkView;

    open spec fn deep_view(&self) -> VmWorkView {
        VmWorkView {
            node: self.node@,
            rest: self.rest.deep_view(),
            vmid: self.vmid,
            name: self.name@,
            status: self.status@,
            os: self.os@,
            memory: self.memory,
            cores: self.cores,
            mac: self.mac@,
            ip: self.ip@,
        }
    }
}

/// What a discovery is waiting for.
#[derive(Debug, PartialEq, Eq)]
pub enum Phase {
    /// The list of nodes.
    Nodes,
    /// The state of a node.
    NodeStatus { node: String },
    /// The network configuration of a node.
    NodeNetwork { node: String, ip: Option<String>, label: String },
    /// The record of a node.
    HostRegistration { node: String },
    /// The list of virtual machines of a node.
    VmList { node: String },
    /// Something of a virtual machine.
    Vm { stage: VmStage, work: VmWork },
    /// Nothing: it has ended.
    Over,
}

/// `Phase` as a mathematical value.
pub enum PhaseView {
    Nodes,
    NodeStatus { node: Seq<char> },
    NodeNetwork { node: Seq<char>, ip: Option<Seq<char>>, label: Seq<char> },
    HostRegistration { node: Seq<char> },
    VmList { node: Seq<char> },
    Vm { stage: VmStage, work: VmWorkView },
    Over,
}

impl DeepView for Phase {
    type V = PhaseView;

    open spec fn deep_view(&self) -> PhaseView {
        match self {
            Phase::Nodes => PhaseView::Nodes,
            Phase::NodeStatus { node } => PhaseView::NodeStatus { node: node@ },
            Phase::NodeNetwork { node, ip, label } => PhaseView::NodeNetwork {
                node: node@,
                ip: ip.deep_view(),
                label: label@,
            },
            Phase::HostRegistration { node } => PhaseView::HostRegistration { node: node@ },
            Phase::VmList { node } => PhaseView::VmList { node: node@ },
            Phase::Vm { stage, work } => PhaseView::Vm { stage: *stage, work: work.deep_view() },
            Phase::Over => PhaseView::Over,
        }
    }
}

/// What a discovery has gathered, and the nodes still before it.
#[derive(Debug, PartialEq, Eq)]
pub struct Survey {
    pub cluster: String,
    pub nodes: Vec<Option<String>>,
    pub registered: usize,
    pub failed: usize,
    pub discovered: Vec<DiscoveredProxmox>,
}

/// `Survey` as a mathematical value.
pub struct SurveyView {
    pub cluster: Seq<char>,
    pub nodes: Seq<Option<Seq<char>>>,
    pub registered: nat,
    pub failed: nat,
    pub discovered: Seq<DiscoveredView>,
}

impl DeepView for Survey {
    type V = SurveyView;

    open spec fn deep_view(&self) -> SurveyView {
        SurveyView {
            cluster: self.cluster@,
            nodes: self.nodes.deep_view(),
            registered: self.registered as nat,
            failed: self.failed as nat,
            discovered: self.discovered.deep_view(),
        }
    }
}

/// A discovery under way.
#[derive(Debug, PartialEq, Eq)]
pub struct Discovery {
    pub survey: Survey,
    pub phase: Phase,
}

/// `Discovery` as a mathematical value.
pub struct DiscoveryView {
    pub survey: SurveyView,
    pub phase: PhaseView,
}

impl DeepView for Discovery {
    type V = DiscoveryView;

    open spec fn deep_view(&self) -> DiscoveryView {
        DiscoveryView { survey: self.survey.deep_view(), phase: self.phase.deep_view() }
    }
}

/// Why a discovery cannot go on.
#[derive(Clone, Copy, Debug, PartialEq, Eq, Structural)]
pub enum DiscoveryError {
    /// The list of nodes could not be fetched.
    NodesUnavailable,
    /// The list of nodes is no JSON.
    NodesUnreadable,
    /// The list of nodes is no list.
    NodesMalformed,
    /// A node in the list has no name.
    NodeWithoutName,
}

/// What is to be done next.
#[derive(Debug, PartialEq, Eq)]
pub enum DiscoveryAction {
    /// Fetch this path of the API.
    Fetch(String),
    /// Record this machine.
    Register(RegisterRequest),
    /// Hand the recorded machine on, and set its status and its operating system.
    Settle { machine_id: u128, status: MachineStatus, os: String },
    /// Nothing more: this is the result.
    Finish { registered: usize, failed: usize, machines: Vec<DiscoveredProxmox> },
    /// Nothing more: it failed.
    Fail(DiscoveryError),
}

/// `DiscoveryAction` as a mathematical value.
pub enum DiscoveryActionView {
    Fetch(Seq<char>),
    Register(RegisterView),
    Settle { machine_id: u128, status: StatusView, os: Seq<char> },
    Finish { registered: nat, failed: nat, machines: Seq<DiscoveredView> },
    Fail(DiscoveryError),
}

impl DeepView for DiscoveryAction {
    type V = DiscoveryActionView;

    open spec fn deep_view(&self) -> DiscoveryActionView {
        match self {
            DiscoveryAction::Fetch(path) => DiscoveryActionView::Fetch(path@),
            DiscoveryAction::Register(request) => DiscoveryActionView::Register(
                request.deep_view(),
            ),
            DiscoveryAction::Settle { machine_id, status, os } => DiscoveryActionView::Settle {
                machine_id: *machine_id,
                status: status.deep_view(),
                os: os@,
            },
            DiscoveryAction::Finish { registered, failed, machines } => DiscoveryActionView::Finish {
                registered: *registered as nat,
                failed: *failed as nat,
                machines: machines.deep_view(),
            },
            DiscoveryAction::Fail(e) => DiscoveryActionView::Fail(*e),
        }
    }
}

/// How the last action ended.
#[derive(Debug, PartialEq, Eq)]
pub enum Answer {
    /// The path could not be fetched.
    Unreachable,
    /// What was fetched is no JSON.
    Unreadable,
    /// What was fetched.
    Value(Json),
    /// The machine was recorded under this number, or could not be recorded.
    Registered(Option<u128>),
    /// The record was completed, as far as that was possible.
    Settled,
}

/// `Answer` as a mathematical value.
pub enum AnswerView {
    Unreachable,
    Unreadable,
    Value(JsonView),
    Registered(Option<u128>),
    Settled,
}

impl DeepView for Answer {
    type V = AnswerView;

    open spec fn deep_view(&self) -> AnswerView {
        match self {
            Answer::Unreachable => AnswerView::Unreachable,
            Answer::Unreadable => AnswerView::Unreadable,
            Answer::Value(v) => AnswerView::Value(v.deep_view()),
            Answer::Registered(id) => AnswerView::Registered(*id),
            Answer::Settled => AnswerView::Settled,
        }
    }
}

/// The answer that a body stands for; no body stands for a failed fetch.
pub open spec fn answer_to(body: Option<Seq<u8>>) -> AnswerView {
    match body {
        Some(bytes) => match json_of(bytes) {
            Some(v) => AnswerView::Value(v),
            None => AnswerView::Unreadable,
        },
        None => AnswerView::Unreachable,
    }
}

// ---------------------------------------------------------------------------------------------
// The walk
// ---------------------------------------------------------------------------------------------

/// The path of something of a node.
pub open spec fn node_path(node: Seq<char>, what: Seq<char>) -> Seq<char> {
    "/api2/json/nodes/"@ + node + what
}

/// The path of something of a virtual machine.
pub open spec fn vm_path(node: Seq<char>, vmid: u32, what: Seq<char>) -> Seq<char> {
    "/api2/json/nodes/"@ + node + "/qemu/"@ + decimal(vmid as nat) + what
}

/// The end, for a reason.
pub open spec fn stopped(
    survey: SurveyView,
    reason: DiscoveryError,
) -> (DiscoveryView, DiscoveryActionView) {
    (DiscoveryView { survey, phase: PhaseView::Over }, DiscoveryActionView::Fail(reason))
}

/// On to the next node, or to the end where none is left.
pub open spec fn next_node(survey: SurveyView) -> (DiscoveryView, DiscoveryActionView) {
    if survey.nodes.len() == 0 {
        (
            DiscoveryView {
                survey: SurveyView { discovered: Seq::empty(), ..survey },
                phase: PhaseView::Over,
            },
            DiscoveryActionView::Finish {
                registered: survey.registered,
                failed: survey.failed,
                machines: survey.discovered,
            },
        )
    } else {
        let rest = SurveyView { nodes: survey.nodes.drop_first(), ..survey };
        match survey.nodes[0] {
            Some(node) => (
                DiscoveryView { survey: rest, phase: PhaseView::NodeStatus { node } },
                DiscoveryActionView::Fetch(node_path(node, "/status"@)),
            ),
            None => stopped(rest, DiscoveryError::NodeWithoutName),
        }
    }
}

/// On to the virtual machines of a node.
pub open spec fn vms_of(survey: SurveyView, node: Seq<char>) -> (
    DiscoveryView,
    DiscoveryActionView,
) {
    (
        DiscoveryView { survey, phase: PhaseView::VmList { node } },
        DiscoveryActionView::Fetch(node_path(node, "/qemu"@)),
    )
}

/// On to the first of these virtual machines, or to the next node where there is none.
pub open spec fn next_vm(survey: SurveyView, node: Seq<char>, vms: Seq<VmEntryView>) -> (
    DiscoveryView,
    DiscoveryActionView,
) {
    if vms.len() == 0 {
        next_node(survey)
    } else {
        let vm = vms[0];
        let work = VmWorkView {
            node,
            rest: vms.drop_first(),
            vmid: vm.vmid,
            name: vm.name,
            status: vm.status,
            os: guessed_os(vm.name),
            memory: 0,
            cores: 0,
            mac: Seq::empty(),
            ip: "Unknown"@,
        };
        at_stage(survey, VmStage::Status, work, "/status/current"@)
    }
}

/// On to a stage of the same virtual machine, by fetching something of it.
pub open spec fn at_stage(
    survey: SurveyView,
    stage: VmStage,
    work: VmWorkView,
    what: Seq<char>,
) -> (DiscoveryView, DiscoveryActionView) {
    (
        DiscoveryView { survey, phase: PhaseView::Vm { stage, work } },
        DiscoveryActionView::Fetch(vm_path(work.node, work.vmid, what)),
    )
}

/// How a virtual machine is listed in the result.
pub open spec fn found_vm(work: VmWorkView) -> DiscoveredView {
    DiscoveredView {
        host: work.node + "-"@ + decimal(work.vmid as nat),
        port: 0,
        hostname: Some(work.name),
        mac_address: Some(work.mac),
        machine_type: "proxmox-vm"@,
        vmid: Some(work.vmid),
        parent_host: Some(work.node),
    }
}

/// How a virtual machine is recorded.
pub open spec fn vm_request(cluster: Seq<char>, work: VmWorkView) -> RegisterView {
    RegisterView {
        mac_address: work.mac,
        ip_address: work.ip,
        hostname: Some(work.name),
        disks: Seq::empty(),
        nameservers: Seq::empty(),
        cpu_model: Some("Proxmox Virtual CPU"@),
        cpu_cores: Some(work.cores),
        total_ram_bytes: Some(work.memory),
        proxmox_vmid: Some(work.vmid),
        proxmox_node: Some(work.node),
        proxmox_cluster: Some(cluster),
    }
}

/// How a node is recorded.
pub open spec fn host_request(
    cluster: Seq<char>,
    node: Seq<char>,
    mac: Seq<char>,
    ip: Option<Seq<char>>,
    label: Seq<char>,
) -> RegisterView {
    RegisterView {
        mac_address: mac,
        ip_address: ip.unwrap_or("Unknown"@),
        hostname: Some(label),
        disks: Seq::empty(),
        nameservers: Seq::empty(),
        cpu_model: None,
        cpu_cores: None,
        total_ram_bytes: None,
        proxmox_vmid: None,
        proxmox_node: Some(node),
        proxmox_cluster: Some(cluster),
    }
}

/// On to the record of a virtual machine, which is thereby listed.
pub open spec fn record_vm(survey: SurveyView, work: VmWorkView) -> (
    DiscoveryView,
    DiscoveryActionView,
) {
    (
        DiscoveryView {
            survey: SurveyView { discovered: survey.discovered.push(found_vm(work)), ..survey },
            phase: PhaseView::Vm { stage: VmStage::Registration, work },
        },
        DiscoveryActionView::Register(vm_request(survey.cluster, work)),
    )
}

/// The status of a machine, by what Proxmox says of it.
pub open spec fn vm_status(status: Seq<char>) -> StatusView {
    if status == "running"@ {
        StatusView::Ready
    } else if status == "stopped"@ {
        StatusView::Offline
    } else {
        StatusView::ExistingOS
    }
}

/// What follows an answer about a virtual machine.
pub open spec fn vm_next(
    survey: SurveyView,
    stage: VmStage,
    work: VmWorkView,
    answer: AnswerView,
) -> (DiscoveryView, DiscoveryActionView) {
    match stage {
        VmStage::Status => {
            let (memory, cores) = match answer {
                AnswerView::Value(v) => vm_resources(v),
                _ => (0, 0),
            };
            at_stage(
                survey,
                VmStage::Config,
                VmWorkView { memory, cores, ..work },
                "/config"@,
            )
        },
        VmStage::Config => match answer {
            AnswerView::Value(v) => match v.field("data"@) {
                Some(config) => match vm_mac(config) {
                    Some(mac) => {
                        let known = VmWorkView { os: configured_os(config, work.os), mac, ..work };
                        if agent_enabled(config) {
                            at_stage(survey, VmStage::Ping, known, "/agent/ping"@)
                        } else {
                            record_vm(survey, known)
                        }
                    },
                    None => next_vm(survey, work.node, work.rest),
                },
                None => next_vm(survey, work.node, work.rest),
            },
            _ => next_vm(survey, work.node, work.rest),
        },
        VmStage::Ping => if answer matches AnswerView::Value(v) && agent_alive(v) {
            at_stage(survey, VmStage::OsInfo, work, "/agent/get-osinfo"@)
        } else {
            record_vm(survey, work)
        },
        VmStage::OsInfo => {
            let os = match answer {
                AnswerView::Value(v) => guest_os(v, work.os),
                _ => work.os,
            };
            at_stage(
                survey,
                VmStage::Interfaces,
                VmWorkView { os, ..work },
                "/agent/network-get-interfaces"@,
            )
        },
        VmStage::Interfaces => {
            let ip = match answer {
                AnswerView::Value(v) => match guest_ip(v) {
                    Some(Some(ip)) => ip,
                    _ => work.ip,
                },
                _ => work.ip,
            };
            record_vm(survey, VmWorkView { ip, ..work })
        },
        VmStage::Registration => match answer {
            AnswerView::Registered(Some(machine_id)) => (
                DiscoveryView { survey, phase: PhaseView::Vm { stage: VmStage::Settling, work } },
                DiscoveryActionView::Settle {
                    machine_id,
                    status: vm_status(work.status),
                    os: work.os,
                },
            ),
            _ => next_vm(
                SurveyView { failed: survey.failed + 1, ..survey },
                work.node,
                work.rest,
            ),
        },
        VmStage::Settling => next_vm(
            SurveyView { registered: survey.registered + 1, ..survey },
            work.node,
            work.rest,
        ),
    }
}

/// What follows an answer.
pub open spec fn discovery_next(d: DiscoveryView, answer: AnswerView) -> (
    DiscoveryView,
    DiscoveryActionView,
) {
    let survey = d.survey;
    match d.phase {
        PhaseView::Nodes => match answer {
            AnswerView::Value(v) => match node_list(v) {
                Some(nodes) => next_node(SurveyView { nodes, ..survey }),
                None => stopped(survey, DiscoveryError::NodesMalformed),
            },
            AnswerView::Unreadable => stopped(survey, DiscoveryError::NodesUnreadable),
            _ => stopped(survey, DiscoveryError::NodesUnavailable),
        },
        PhaseView::NodeStatus { node } => {
            let (ip, label) = match answer {
                AnswerView::Value(v) => (host_ip(v), host_label(node, v)),
                _ => (None, node),
            };
            (
                DiscoveryView { survey, phase: PhaseView::NodeNetwork { node, ip, label } },
                DiscoveryActionView::Fetch(node_path(node, "/network"@)),
            )
        },
        PhaseView::NodeNetwork { node, ip, label } => {
            let mac = match answer {
                AnswerView::Value(v) => host_mac(v),
                _ => None,
            };
            match mac {
                Some(mac) => (
                    DiscoveryView { survey, phase: PhaseView::HostRegistration { node } },
                    DiscoveryActionView::Register(
                        host_request(survey.cluster, node, mac, ip, label),
                    ),
                ),
                None => vms_of(survey, node),
            }
        },
        PhaseView::HostRegistration { node } => vms_of(survey, node),
        PhaseView::VmList { node } => match answer {
            AnswerView::Value(v) => match vm_list(v) {
                Some(vms) => next_vm(survey, node, vms),
                None => next_node(survey),
            },
            _ => next_node(survey),
        },
        PhaseView::Vm { stage, work } => vm_next(survey, stage, work, answer),
        PhaseView::Over => (d, DiscoveryActionView::Fail(DiscoveryError::NodesUnavailable)),
    }
}

/// The answer is one to what the discovery is waiting for.
pub open spec fn awaits(phase: PhaseView, answer: AnswerView) -> bool {
    match phase {
        PhaseView::Over => false,
        PhaseView::HostRegistration { .. } => answer is Registered,
        PhaseView::Vm { stage: VmStage::Registration, .. } => answer is Registered,
        PhaseView::Vm { stage: VmStage::Settling, .. } => answer is Settled,
        _ => answer is Unreachable || answer is Unreadable || answer is Value,
    }
}

/// The action is the one whose answer the discovery is waiting for.
pub open spec fn suits(phase: PhaseView, action: DiscoveryActionView) -> bool {
    match action {
        DiscoveryActionView::Fetch(_) => awaits(phase, AnswerView::Unreachable),
        DiscoveryActionView::Register(_) => awaits(phase, AnswerView::Registered(None)),
        DiscoveryActionView::Settle { .. } => awaits(phase, AnswerView::Settled),
        DiscoveryActionView::Finish { .. } => phase is Over,
        DiscoveryActionView::Fail(_) => phase is Over,
    }
}

/// Every virtual machine that is listed has been recorded, has failed to be, or is just being
/// recorded.
pub open spec fn accounted(d: DiscoveryView) -> bool {
    let pending: int = match d.phase {
        PhaseView::Vm { stage: VmStage::Registration, .. } => 1,
        PhaseView::Vm { stage: VmStage::Settling, .. } => 1,
        _ => 0,
    };
    d.phase is Over || d.survey.registered + d.survey.failed + pending
        == d.survey.discovered.len()
}

/// The path of something of a node.
pub(crate) fn path_of_node(node: &str, what: &str) -> (r: String)
    ensures
        r@ == node_path(node@, what@),
{
    let mut path = "/api2/json/nodes/".to_owned();
    path.append(node);
    path.append(what);
    path
}

/// The path of something of a virtual machine.
pub(crate) fn path_of_vm(node: &str, vmid: u32, what: &str) -> (r: String)
    ensures
        r@ == vm_path(node@, vmid, what@),
{
    let mut path = "/api2/json/nodes/".to_owned();
    path.append(node);
    path.append("/qemu/");
    path.append(decimal_of(vmid as u64).as_str());
    path.append(what);
    path
}

/// The status of a machine, by what Proxmox says of it.
pub fn status_of_vm(status: &str) -> (r: MachineStatus)
    ensures
        r.deep_view() == vm_status(status@),
{
    if same(status, "running") {
        MachineStatus::Ready
    } else if same(status, "stopped") {
        MachineStatus::Offline
    } else {
        MachineStatus::ExistingOS
    }
}

fn stop(survey: Survey, reason: DiscoveryError) -> (r: (Discovery, DiscoveryAction))
    ensures
        (r.0.deep_view(), r.1.deep_view()) == stopped(survey.deep_view(), reason),
{
    (Discovery { survey, phase: Phase::Over }, DiscoveryAction::Fail(reason))
}

fn go_to_node(survey: Survey) -> (r: (Discovery, DiscoveryAction))
    ensures
        (r.0.deep_view(), r.1.deep_view()) == next_node(survey.deep_view()),
{
    let mut survey = survey;
    if survey.nodes.len() == 0 {
        let none: Vec<DiscoveredProxmox> = Vec::new();
        let Survey { cluster, nodes, registered, failed, discovered } = survey;
        let action = DiscoveryAction::Finish { registered, failed, machines: discovered };
        assert(none.deep_view() =~= Seq::empty());
        let survey = Survey { cluster, nodes, registered, failed, discovered: none };
        return (Discovery { survey, phase: Phase::Over }, action);
    }
    let ghost before = survey.nodes.deep_view();
    let first: Option<String> = survey.nodes.remove(0);
    assert(survey.nodes.deep_view() =~= before.drop_first());
    match first {
        Some(node) => {
            let action = DiscoveryAction::Fetch(path_of_node(node.as_str(), "/status"));
            (Discovery { survey, phase: Phase::NodeStatus { node } }, action)
        },
        None => stop(survey, DiscoveryError::NodeWithoutName),
    }
}

fn go_to_vms(survey: Survey, node: String) -> (r: (Discovery, DiscoveryAction))
    ensures
        (r.0.deep_view(), r.1.deep_view()) == vms_of(survey.deep_view(), node@),
{
    let action = DiscoveryAction::Fetch(path_of_node(node.as_str(), "/qemu"));
    (Discovery { survey, phase: Phase::VmList { node } }, action)
}

fn go_to_stage(survey: Survey, stage: VmStage, work: VmWork, what: &str) -> (r: (
    Discovery,
    DiscoveryAction,
))
    ensures
        (r.0.deep_view(), r.1.deep_view()) == at_stage(
            survey.deep_view(),
            stage,
            work.deep_view(),
            what@,
        ),
{
    let action = DiscoveryAction::Fetch(path_of_vm(work.node.as_str(), work.vmid, what));
    (Discovery { survey, phase: Phase::Vm { stage, work } }, action)
}

fn go_to_vm(survey: Survey, node: String, vms: Vec<VmEntry>) -> (r: (Discovery, DiscoveryAction))
    ensures
        (r.0.deep_view(), r.1.deep_view()) == next_vm(
            survey.deep_view(),
            node@,
            vms.deep_view(),
        ),
{
    let mut rest = vms;
    if rest.len() == 0 {
        return go_to_node(survey);
    }
    let ghost before = rest.deep_view();
    let vm: VmEntry = rest.remove(0);
    assert(rest.deep_view() =~= before.drop_first());
    assert(vm.deep_view() == before[0]);
    let os = guess_os(vm.name.as_str());
    let work = VmWork {
        node,
        rest,
        vmid: vm.vmid,
        name: vm.name,
        status: vm.status,
        os,
        memory: 0,
        cores: 0,
        mac: String::new(),
        ip: "Unknown".to_owned(),
    };
    go_to_stage(survey, VmStage::Status, work, "/status/current")
}

fn request_for_vm(cluster: &String, work: &VmWork) -> (r: RegisterRequest)
    ensures
        r.deep_view() == vm_request(cluster@, work.deep_view()),
{
    let request = RegisterRequest {
        mac_address: work.mac.clone(),
        ip_address: work.ip.clone(),
        hostname: Some(work.name.clone()),
        disks: Vec::new(),
        nameservers: Vec::new(),
        cpu_model: Some("Proxmox Virtual CPU".to_owned()),
        cpu_cores: Some(work.cores),
        total_ram_bytes: Some(work.memory),
        proxmox_vmid: Some(work.vmid),
        proxmox_node: Some(work.node.clone()),
        proxmox_cluster: Some(cluster.clone()),
    };
    assert(request.disks.deep_view() =~= Seq::empty());
    assert(request.nameservers.deep_view() =~= Seq::empty());
    request
}

fn request_for_host(
    cluster: &String,
    node: &String,
    mac: String,
    ip: Option<String>,
    label: String,
) -> (r: RegisterRequest)
    ensures
        r.deep_view() == host_request(cluster@, node@, mac@, ip.deep_view(), label@),
{
    let request = RegisterRequest {
        mac_address: mac,
        ip_address: match ip {
            Some(ip) => ip,
            None => "Unknown".to_owned(),
        },
        hostname: Some(label),
        disks: Vec::new(),
        nameservers: Vec::new(),
        cpu_model: None,
        cpu_cores: None,
        total_ram_bytes: None,
        proxmox_vmid: None,
        proxmox_node: Some(node.clone()),
        proxmox_cluster: Some(cluster.clone()),
    };
    assert(request.disks.deep_view() =~= Seq::empty());
    assert(request.nameservers.deep_view() =~= Seq::empty());
    request
}

fn listed(work: &VmWork) -> (r: DiscoveredProxmox)
    ensures
        r.deep_view() == found_vm(work.deep_view()),
{
    let mut host = work.node.clone();
    host.append("-");
    host.append(decimal_of(work.vmid as u64).as_str());
    DiscoveredProxmox {
        host,
        port: 0,
        hostname: Some(work.name.clone()),
        mac_address: Some(work.mac.clone()),
        machine_type: "proxmox-vm".to_owned(),
        vmid: Some(work.vmid),
        parent_host: Some(work.node.clone()),
    }
}

fn go_to_record(survey: Survey, work: VmWork) -> (r: (Discovery, DiscoveryAction))
    ensures
        (r.0.deep_view(), r.1.deep_view()) == record_vm(survey.deep_view(), work.deep_view()),
{
    let mut survey = survey;
    let ghost before = survey.discovered.deep_view();
    let found = listed(&work);
    survey.discovered.push(found);
    assert(survey.discovered.deep_view() =~= before.push(found.deep_view()));
    let action = DiscoveryAction::Register(request_for_vm(&survey.cluster, &work));
    (Discovery { survey, phase: Phase::Vm { stage: VmStage::Registration, work } }, action)
}

fn advance_vm(survey: Survey, stage: VmStage, work: VmWork, answer: Answer) -> (r: (
    Discovery,
    DiscoveryAction,
))
    requires
        stage == VmStage::Registration || stage == VmStage::Settling ==> survey.registered
            + survey.failed < usize::MAX,
    ensures
        (r.0.deep_view(), r.1.deep_view()) == vm_next(
            survey.deep_view(),
            stage,
            work.deep_view(),
            answer.deep_view(),
        ),
{
    let mut survey = survey;
    let mut work = work;
    match stage {
        VmStage::Status => {
            let (memory, cores): (u64, u32) = match answer {
                Answer::Value(v) => read_vm_resources(&v),
                _ => (0, 0),
            };
            work.memory = memory;
            work.cores = cores;
            go_to_stage(survey, VmStage::Config, work, "/config")
        },
        VmStage::Config => {
            match answer {
                Answer::Value(v) => match v.get("data") {
                    Some(config) => match read_vm_mac(config) {
                        Some(mac) => {
                            work.os = read_configured_os(config, work.os.as_str());
                            work.mac = mac;
                            if read_agent_enabled(config) {
                                go_to_stage(survey, VmStage::Ping, work, "/agent/ping")
                            } else {
                                go_to_record(survey, work)
                            }
                        },
                        None => go_to_vm(survey, work.node, work.rest),
                    },
                    None => go_to_vm(survey, work.node, work.rest),
                },
                _ => go_to_vm(survey, work.node, work.rest),
            }
        },
        VmStage::Ping => {
            let alive = match answer {
                Answer::Value(v) => read_agent_alive(&v),
                _ => false,
            };
            if alive {
                go_to_stage(survey, VmStage::OsInfo, work, "/agent/get-osinfo")
            } else {
                go_to_record(survey, work)
            }
        },
        VmStage::OsInfo => {
            match answer {
                Answer::Value(v) => {
                    work.os = read_guest_os(&v, work.os.as_str());
                },
                _ => {},
            }
            go_to_stage(survey, VmStage::Interfaces, work, "/agent/network-get-interfaces")
        },
        VmStage::Interfaces => {
            match answer {
                Answer::Value(v) => {
                    match read_guest_ip(&v) {
                        Some(Some(ip)) => {
                            work.ip = ip;
                        },
                        _ => {},
                    }
                },
                _ => {},
            }
            go_to_record(survey, work)
        },
        VmStage::Registration => {
            match answer {
                Answer::Registered(Some(machine_id)) => {
                    let action = DiscoveryAction::Settle {
                        machine_id,
                        status: status_of_vm(work.status.as_str()),
                        os: work.os.clone(),
                    };
                    (
                        Discovery { survey, phase: Phase::Vm { stage: VmStage::Settling, work } },
                        action,
                    )
                },
                _ => {
                    survey.failed = survey.failed + 1;
                    go_to_vm(survey, work.node, work.rest)
                },
            }
        },
        VmStage::Settling => {
            survey.registered = survey.registered + 1;
            go_to_vm(survey, work.node, work.rest)
        },
    }
}

impl Discovery {
    /// The beginning of a discovery in the named cluster: the list of nodes is to be fetched.
    pub fn start(cluster_name: &str) -> (r: (Discovery, DiscoveryAction))
        ensures
            r.0.deep_view() == (DiscoveryView {
                survey: SurveyView {
                    cluster: cluster_name@,
                    nodes: Seq::empty(),
                    registered: 0,
                    failed: 0,
                    discovered: Seq::empty(),
                },
                phase: PhaseView::Nodes,
            }),
            r.1.deep_view() == DiscoveryActionView::Fetch("/api2/json/nodes"@),
            accounted(r.0.deep_view()),
            suits(r.0.deep_view().phase, r.1.deep_view()),
    {
        let survey = Survey {
            cluster: cluster_name.to_owned(),
            nodes: Vec::new(),
            registered: 0,
            failed: 0,
            discovered: Vec::new(),
        };
        assert(survey.nodes.deep_view() =~= Seq::empty());
        assert(survey.discovered.deep_view() =~= Seq::empty());
        (
            Discovery { survey, phase: Phase::Nodes },
            DiscoveryAction::Fetch("/api2/json/nodes".to_owned()),
        )
    }

    /// Goes on with the answer to the last action.
    pub fn advance(self, answer: Answer) -> (r: (Discovery, DiscoveryAction))
        requires
            accounted(self.deep_view()),
            awaits(self.deep_view().phase, answer.deep_view()),
        ensures
            (r.0.deep_view(), r.1.deep_view()) == discovery_next(
                self.deep_view(),
                answer.deep_view(),
            ),
            accounted(r.0.deep_view()),
            suits(r.0.deep_view().phase, r.1.deep_view()),
    {
        let Discovery { survey, phase } = self;
        let listed: usize = survey.discovered.len();
        assert(listed == survey.deep_view().discovered.len());
        match phase {
            Phase::Nodes => {
                match answer {
                    Answer::Value(v) => match read_node_list(&v) {
                        Some(nodes) => {
                            let mut survey = survey;
                            survey.nodes = nodes;
                            go_to_node(survey)
                        },
                        None => stop(survey, DiscoveryError::NodesMalformed),
                    },
                    Answer::Unreadable => stop(survey, DiscoveryError::NodesUnreadable),
                    _ => stop(survey, DiscoveryError::NodesUnavailable),
                }
            },
            Phase::NodeStatus { node } => {
                let (ip, label): (Option<String>, String) = match answer {
                    Answer::Value(v) => (read_host_ip(&v), read_host_label(node.as_str(), &v)),
                    _ => (None, node.clone()),
                };
                let action = DiscoveryAction::Fetch(path_of_node(node.as_str(), "/network"));
                (Discovery { survey, phase: Phase::NodeNetwork { node, ip, label } }, action)
            },
            Phase::NodeNetwork { node, ip, label } => {
                let mac: Option<String> = match answer {
                    Answer::Value(v) => read_host_mac(&v),
                    _ => None,
                };
                match mac {
                    Some(mac) => {
                        let request = request_for_host(&survey.cluster, &node, mac, ip, label);
                        (
                            Discovery { survey, phase: Phase::HostRegistration { node } },
                            DiscoveryAction::Register(request),
                        )
                    },
                    None => go_to_vms(survey, node),
                }
            },
            Phase::HostRegistration { node } => go_to_vms(survey, node),
            Phase::VmList { node } => {
                match answer {
                    Answer::Value(v) => match read_vm_list(&v) {
                        Some(vms) => go_to_vm(survey, node, vms),
                        None => go_to_node(survey),
                    },
                    _ => go_to_node(survey),
                }
            },
            Phase::Vm { stage, work } => advance_vm(survey, stage, work, answer),
            Phase::Over => stop(survey, DiscoveryError::NodesUnavailable),
        }
    }

    /// Goes on with the body that was fetched, or with none where the fetch failed.
    pub fn advance_with_body(self, body: Option<Vec<u8>>) -> (r: (Discovery, DiscoveryAction))
        requires
            accounted(self.deep_view()),
            awaits(self.deep_view().phase, AnswerView::Unreachable),
        ensures
            (r.0.deep_view(), r.1.deep_view()) == discovery_next(
                self.deep_view(),
                answer_to(match body {
                    Some(b) => Some(b@),
                    None => None,
                }),
            ),
            accounted(r.0.deep_view()),
            suits(r.0.deep_view().phase, r.1.deep_view()),
    {
        let answer = match body {
            Some(bytes) => match parse_json(bytes.as_slice()) {
                Some(v) => Answer::Value(v),
                None => Answer::Unreadable,
            },
            None => Answer::Unreachable,
        };
        self.advance(answer)
    }
}

/// A discovery that finishes has listed exactly the machines that it counts: each was recorded,
/// or failed to be.
pub proof fn finished_discovery_counts_all(d: DiscoveryView, answer: AnswerView)
    requires
        accounted(d),
        awaits(d.phase, answer),
    ensures
        discovery_next(d, answer).1 matches DiscoveryActionView::Finish {
            registered,
            failed,
            machines,
        } ==> machines.len() == registered + failed,
{
}

/// A step of a discovery never drops a machine that is listed, except by handing over the list
/// at the end.
pub proof fn discovery_keeps_what_it_found(d: DiscoveryView, answer: AnswerView)
    requires
        awaits(d.phase, answer),
    ensures
        discovery_next(d, answer).1 matches DiscoveryActionView::Finish { machines, .. }
            ==> machines == d.survey.discovered,
        !(discovery_next(d, answer).1 is Finish) ==> d.survey.discovered.is_prefix_of(
            discovery_next(d, answer).0.survey.discovered,
        ),
{
}

/// A virtual machine is recorded under the hardware address, the number and the node under which
/// it is listed.
pub proof fn recorded_as_listed(d: DiscoveryView, answer: AnswerView)
    requires
        awaits(d.phase, answer),
        d.phase is Vm,
    ensures
        discovery_next(d, answer).1 matches DiscoveryActionView::Register(request) ==> {
            let listed = discovery_next(d, answer).0.survey.discovered.last();
            &&& listed.mac_address == Some(request.mac_address)
            &&& listed.vmid == request.proxmox_vmid
            &&& listed.parent_host == request.proxmox_node
            &&& listed.hostname == request.hostname
        },
{
}

/// The text is one in small letters.
pub open spec fn is_lowered(s: Seq<char>) -> bool {
    exists|t: Seq<char>| s == #[trigger] lowercase(t)
}

/// The machine is listed as a virtual machine is: under its node and its number, without a port, and
/// with a hardware address in small letters.
pub open spec fn is_listed_as_vm(m: DiscoveredView) -> bool {
    &&& m.machine_type == "proxmox-vm"@
    &&& m.port == 0
    &&& m.vmid is Some
    &&& m.parent_host is Some
    &&& m.host == m.parent_host->0 + "-"@ + decimal(m.vmid->0 as nat)
    &&& m.mac_address is Some
    &&& is_lowered(m.mac_address->0)
}

/// All of the machines are listed as virtual machines are.
pub open spec fn all_listed_as_vms(machines: Seq<DiscoveredView>) -> bool {
    forall|i: int| 0 <= i < machines.len() ==> is_listed_as_vm(#[trigger] machines[i])
}

/// What a discovery has listed so far is listed as virtual machines are, and so is what it is about
/// to list.
pub open spec fn lists_vms(d: DiscoveryView) -> bool {
    &&& all_listed_as_vms(d.survey.discovered)
    &&& d.phase matches PhaseView::Vm { work, .. } ==> is_lowered(work.mac)
}

/// A discovery lists every machine as a virtual machine: so it begins, every step keeps that, and so
/// it holds of the list that is handed over at the end.
pub proof fn machines_are_listed_as_vms(d: DiscoveryView, answer: AnswerView)
    ensures
        d.phase is Nodes && d.survey.discovered.len() == 0 ==> lists_vms(d),
        lists_vms(d) ==> lists_vms(discovery_next(d, answer).0),
        lists_vms(d) ==> (discovery_next(d, answer).1 matches DiscoveryActionView::Finish {
            machines,
            ..
        } ==> all_listed_as_vms(machines)),
{
    assert(lowercase(Seq::empty()) =~= Seq::empty());
    if let PhaseView::Vm { stage: VmStage::Config, .. } = d.phase {
        if let AnswerView::Value(v) = answer {
            if let Some(config) = v.field("data"@) {
                if let Some(mac) = vm_mac(config) {
                    let read = first_some(Seq::new(8, |i: int| net_mac(config, i as nat)));
                    assert(mac == lowercase(read->0));
                }
            }
        }
    }
}

// ---------------------------------------------------------------------------------------------
// What a discovery amounts to
// ---------------------------------------------------------------------------------------------

/// A discovery after several answers.
pub open spec fn discovered_after(d: DiscoveryView, answers: Seq<AnswerView>) -> DiscoveryView
    decreases answers.len(),
{
    if answers.len() == 0 {
        d
    } else {
        discovery_next(discovered_after(d, answers.drop_last()), answers.last()).0
    }
}

/// Each of the answers is one to what the discovery was waiting for.
pub open spec fn are_answers(d: DiscoveryView, answers: Seq<AnswerView>) -> bool
    decreases answers.len(),
{
    answers.len() == 0 || (are_answers(d, answers.drop_last()) && awaits(
        discovered_after(d, answers.drop_last()).phase,
        answers.last(),
    ))
}

/// The virtual machines in the lists that were read, with their nodes, in order.
pub open spec fn vms_listed(d: DiscoveryView, answers: Seq<AnswerView>) -> Seq<
    (Seq<char>, VmEntryView),
>
    decreases answers.len(),
{
    if answers.len() == 0 {
        Seq::empty()
    } else {
        let before = vms_listed(d, answers.drop_last());
        match (discovered_after(d, answers.drop_last()).phase, answers.last()) {
            (PhaseView::VmList { node }, AnswerView::Value(v)) => match vm_list(v) {
                Some(vms) => before + vms.map_values(|vm: VmEntryView| (node, vm)),
                None => before,
            },
            _ => before,
        }
    }
}

/// The virtual machines whose settings were asked for, with their nodes and the hardware addresses
/// in the settings, in order.
pub open spec fn vms_configured(d: DiscoveryView, answers: Seq<AnswerView>) -> Seq<
    (Seq<char>, u32, Seq<char>, Option<Seq<char>>),
>
    decreases answers.len(),
{
    if answers.len() == 0 {
        Seq::empty()
    } else {
        let before = vms_configured(d, answers.drop_last());
        match discovered_after(d, answers.drop_last()).phase {
            PhaseView::Vm { stage: VmStage::Config, work } => before.push(
                (
                    work.node,
                    work.vmid,
                    work.name,
                    match answers.last() {
                        AnswerView::Value(v) => match v.field("data"@) {
                            Some(config) => vm_mac(config),
                            None => None,
                        },
                        _ => None,
                    },
                ),
            ),
            _ => before,
        }
    }
}

/// How a virtual machine with these settings is to be listed: not at all without an address.
pub open spec fn listing(vm: (Seq<char>, u32, Seq<char>, Option<Seq<char>>)) -> Option<
    DiscoveredView,
> {
    match vm.3 {
        Some(mac) => Some(
            DiscoveredView {
                host: vm.0 + "-"@ + decimal(vm.1 as nat),
                port: 0,
                hostname: Some(vm.2),
                mac_address: Some(mac),
                machine_type: "proxmox-vm"@,
                vmid: Some(vm.1),
                parent_host: Some(vm.0),
            },
        ),
        None => None,
    }
}

/// How all of them are to be listed.
pub open spec fn listings(vms: Seq<(Seq<char>, u32, Seq<char>, Option<Seq<char>>)>) -> Seq<
    DiscoveredView,
> {
    somes(vms.map_values(|vm: (Seq<char>, u32, Seq<char>, Option<Seq<char>>)| listing(vm)))
}

/// The number and the name of a virtual machine with its node.
pub open spec fn known_by(vm: (Seq<char>, VmEntryView)) -> (Seq<char>, u32, Seq<char>) {
    (vm.0, vm.1.vmid, vm.1.name)
}

spec fn config_key(vm: (Seq<char>, u32, Seq<char>, Option<Seq<char>>)) -> (
    Seq<char>,
    u32,
    Seq<char>,
) {
    (vm.0, vm.1, vm.2)
}

/// The virtual machines that are still to be asked about.
spec fn still_to_ask(d: DiscoveryView) -> Seq<(Seq<char>, u32, Seq<char>)> {
    match d.phase {
        PhaseView::Vm { stage, work } => {
            let rest = work.rest.map_values(|vm: VmEntryView| (work.node, vm.vmid, vm.name));
            if stage is Status || stage is Config {
                seq![(work.node, work.vmid, work.name)] + rest
            } else {
                rest
            }
        },
        _ => Seq::empty(),
    }
}

/// The virtual machine that is about to be listed.
spec fn about_to_list(d: DiscoveryView) -> Seq<DiscoveredView> {
    match d.phase {
        PhaseView::Vm { stage, work } => if stage is Ping || stage is OsInfo
            || stage is Interfaces {
            seq![found_vm(work)]
        } else {
            Seq::empty()
        },
        _ => Seq::empty(),
    }
}

proof fn next_vm_asks_all(survey: SurveyView, node: Seq<char>, vms: Seq<VmEntryView>)
    ensures
        still_to_ask(next_vm(survey, node, vms).0) == vms.map_values(
            |vm: VmEntryView| (node, vm.vmid, vm.name),
        ),
        about_to_list(next_vm(survey, node, vms).0) == Seq::<DiscoveredView>::empty(),
        !(next_vm(survey, node, vms).1 is Finish) ==> next_vm(
            survey,
            node,
            vms,
        ).0.survey.discovered == survey.discovered,
        next_vm(survey, node, vms).1 matches DiscoveryActionView::Finish { machines, .. }
            ==> machines == survey.discovered && vms.len() == 0,
        next_vm(survey, node, vms).1 is Fail || next_vm(survey, node, vms).1 is Finish ==> next_vm(
            survey,
            node,
            vms,
        ).0.phase is Over,
{
    let all = vms.map_values(|vm: VmEntryView| (node, vm.vmid, vm.name));
    if vms.len() > 0 {
        let rest = vms.drop_first().map_values(|vm: VmEntryView| (node, vm.vmid, vm.name));
        assert(all =~= seq![(node, vms[0].vmid, vms[0].name)] + rest);
    } else {
        assert(all =~= Seq::empty());
    }
}

spec fn walk_holds(d: DiscoveryView, answers: Seq<AnswerView>) -> bool {
    let now = discovered_after(d, answers);
    now.phase is Over || {
        &&& vms_configured(d, answers).map_values(
            |vm: (Seq<char>, u32, Seq<char>, Option<Seq<char>>)| config_key(vm),
        ) + still_to_ask(now) == vms_listed(d, answers).map_values(
            |vm: (Seq<char>, VmEntryView)| known_by(vm),
        )
        &&& now.survey.discovered + about_to_list(now) == listings(vms_configured(d, answers))
    }
}

spec fn finish_holds(d: DiscoveryView, answers: Seq<AnswerView>, action: DiscoveryActionView) -> bool {
    action matches DiscoveryActionView::Finish { machines, .. } ==> {
        &&& vms_configured(d, answers).map_values(
            |vm: (Seq<char>, u32, Seq<char>, Option<Seq<char>>)| config_key(vm),
        ) == vms_listed(d, answers).map_values(|vm: (Seq<char>, VmEntryView)| known_by(vm))
        &&& machines == listings(vms_configured(d, answers))
    }
}

proof fn walk_goes_on(d: DiscoveryView, answers: Seq<AnswerView>)
    requires
        d.phase is Nodes,
        d.survey.discovered.len() == 0,
        are_answers(d, answers),
    ensures
        walk_holds(d, answers),
        answers.len() > 0 ==> finish_holds(
            d,
            answers,
            discovery_next(discovered_after(d, answers.drop_last()), answers.last()).1,
        ),
    decreases answers.len(),
{
    let key = |vm: (Seq<char>, u32, Seq<char>, Option<Seq<char>>)| config_key(vm);
    let known = |vm: (Seq<char>, VmEntryView)| known_by(vm);
    if answers.len() == 0 {
        assert(vms_configured(d, answers).map_values(key) + still_to_ask(d) =~= vms_listed(
            d,
            answers,
        ).map_values(known));
        assert(d.survey.discovered + about_to_list(d) =~= listings(vms_configured(d, answers)));
    } else {
        let before = answers.drop_last();
        let answer = answers.last();
        walk_goes_on(d, before);
        let was = discovered_after(d, before);
        let (now, action) = discovery_next(was, answer);
        let configured = vms_configured(d, before);
        let listed = vms_listed(d, before);
        assert(awaits(was.phase, answer));
        match was.phase {
            PhaseView::VmList { node } => {
                let vms = match answer {
                    AnswerView::Value(v) => match vm_list(v) {
                        Some(vms) => vms,
                        None => Seq::empty(),
                    },
                    _ => Seq::empty(),
                };
                next_vm_asks_all(was.survey, node, vms);
                assert(discovery_next(was, answer) == next_vm(was.survey, node, vms));
                let pairs = vms.map_values(|vm: VmEntryView| (node, vm));
                assert(vms_listed(d, answers) =~= listed + pairs);
                assert((listed + pairs).map_values(known) =~= listed.map_values(known)
                    + vms.map_values(|vm: VmEntryView| (node, vm.vmid, vm.name)));
                assert(configured.map_values(key) + still_to_ask(was) =~= configured.map_values(
                    key,
                ));
                assert(configured.map_values(key) + still_to_ask(now) =~= vms_listed(
                    d,
                    answers,
                ).map_values(known));
                assert(was.survey.discovered + about_to_list(was) =~= was.survey.discovered);
                assert(now.survey.discovered + about_to_list(now) =~= now.survey.discovered);
                if vms.len() == 0 {
                    assert(vms_listed(d, answers).map_values(known) =~= listed.map_values(known));
                }
            },
            PhaseView::Vm { stage, work } => {
                vm_step_goes_on(d, answers);
            },
            PhaseView::Over => {},
            _ => {
                assert(still_to_ask(was) =~= Seq::empty());
                assert(still_to_ask(now) =~= Seq::empty());
                assert(about_to_list(was) =~= about_to_list(now));
                assert(configured.map_values(key) + still_to_ask(was) =~= configured.map_values(
                    key,
                ));
                assert(was.survey.discovered + about_to_list(was) =~= was.survey.discovered);
            },
        }
    }
}

proof fn vm_step_goes_on(d: DiscoveryView, answers: Seq<AnswerView>)
    requires
        answers.len() > 0,
        walk_holds(d, answers.drop_last()),
        discovered_after(d, answers.drop_last()).phase is Vm,
    ensures
        walk_holds(d, answers),
        finish_holds(
            d,
            answers,
            discovery_next(discovered_after(d, answers.drop_last()), answers.last()).1,
        ),
{
    let key = |vm: (Seq<char>, u32, Seq<char>, Option<Seq<char>>)| config_key(vm);
    let known = |vm: (Seq<char>, VmEntryView)| known_by(vm);
    let shown = |vm: (Seq<char>, u32, Seq<char>, Option<Seq<char>>)| listing(vm);
    let before = answers.drop_last();
    let answer = answers.last();
    let was = discovered_after(d, before);
    let (now, action) = discovery_next(was, answer);
    let configured = vms_configured(d, before);
    let listed = vms_listed(d, before);
    assert(vms_listed(d, answers) == listed);
    if let PhaseView::Vm { stage, work } = was.phase {
        let rest = work.rest.map_values(|vm: VmEntryView| (work.node, vm.vmid, vm.name));
        next_vm_asks_all(was.survey, work.node, work.rest);
        next_vm_asks_all(
            SurveyView { failed: was.survey.failed + 1, ..was.survey },
            work.node,
            work.rest,
        );
        next_vm_asks_all(
            SurveyView { registered: was.survey.registered + 1, ..was.survey },
            work.node,
            work.rest,
        );
        if stage is Config {
            let mac = match answer {
                AnswerView::Value(v) => match v.field("data"@) {
                    Some(config) => vm_mac(config),
                    None => None,
                },
                _ => None,
            };
            let vm = (work.node, work.vmid, work.name, mac);
            assert(vms_configured(d, answers) == configured.push(vm));
            assert(configured.push(vm).map_values(key) =~= configured.map_values(key).push(
                key(vm),
            ));
            assert(configured.push(vm).map_values(shown) =~= configured.map_values(shown).push(
                shown(vm),
            ));
            assert(configured.push(vm).map_values(shown).drop_last() =~= configured.map_values(
                shown,
            ));
            assert(configured.map_values(key) + (seq![key(vm)] + rest) =~= configured.push(
                vm,
            ).map_values(key) + rest);
            assert(was.survey.discovered + about_to_list(was) =~= was.survey.discovered);
            assert(configured.push(vm).map_values(key) + Seq::<(Seq<char>, u32, Seq<char>)>::empty()
                =~= configured.push(vm).map_values(key));
            assert(now.survey.discovered + Seq::<DiscoveredView>::empty()
                =~= now.survey.discovered);
            assert(listings(configured.push(vm)) =~= match mac {
                Some(_) => listings(configured).push(shown(vm)->0),
                None => listings(configured),
            });
            if mac is Some {
                assert(still_to_ask(now) == rest);
            } else {
                assert(still_to_ask(now) == rest);
                assert(work.rest.len() == 0 ==> rest =~= Seq::empty());
            }
            assert(configured.push(vm).map_values(key) + rest == listed.map_values(known));
        } else {
            assert(vms_configured(d, answers) == configured);
            assert(was.survey.discovered + Seq::<DiscoveredView>::empty()
                =~= was.survey.discovered);
            assert(now.survey.discovered + Seq::<DiscoveredView>::empty()
                =~= now.survey.discovered);
            assert(work.rest.len() == 0 ==> rest =~= Seq::empty());
            assert(configured.map_values(key) + Seq::<(Seq<char>, u32, Seq<char>)>::empty()
                =~= configured.map_values(key));
        }
    }
}

/// A discovery that finishes has asked about every virtual machine in every list that it read, once
/// and in order, and has listed exactly those whose settings hold a hardware address: each under its
/// own number, name, node and address.
pub proof fn every_vm_is_discovered(d: DiscoveryView, answers: Seq<AnswerView>)
    requires
        d.phase is Nodes,
        d.survey.discovered.len() == 0,
        answers.len() > 0,
        are_answers(d, answers),
    ensures
        discovery_next(discovered_after(d, answers.drop_last()), answers.last()).1
            matches DiscoveryActionView::Finish { machines, .. } ==> {
            let asked = vms_configured(d, answers);
            let listed = vms_listed(d, answers);
            &&& asked.len() == listed.len()
            &&& forall|i: int|
                0 <= i < asked.len() ==> (#[trigger] asked[i]).0 == listed[i].0 && asked[i].1
                    == listed[i].1.vmid && asked[i].2 == listed[i].1.name
            &&& machines == listings(asked)
        },
{
    walk_goes_on(d, answers);
    let asked = vms_configured(d, answers);
    let listed = vms_listed(d, answers);
    let a = asked.map_values(
        |vm: (Seq<char>, u32, Seq<char>, Option<Seq<char>>)| config_key(vm),
    );
    let b = listed.map_values(|vm: (Seq<char>, VmEntryView)| known_by(vm));
    if discovery_next(
        discovered_after(d, answers.drop_last()),
        answers.last(),
    ).1 is Finish {
        assert(a == b);
        assert(a.len() == asked.len() && b.len() == listed.len());
        assert forall|i: int| 0 <= i < asked.len() implies (#[trigger] asked[i]).0 == listed[i].0
            && asked[i].1 == listed[i].1.vmid && asked[i].2 == listed[i].1.name by {
            assert(a[i] == b[i]);
        }
    }
}

/// The nodes whose lists of virtual machines were asked for, in order.
pub open spec fn nodes_asked(d: DiscoveryView, answers: Seq<AnswerView>) -> Seq<Option<Seq<char>>>
    decreases answers.len(),
{
    if answers.len() == 0 {
        Seq::empty()
    } else {
        let before = nodes_asked(d, answers.drop_last());
        match discovered_after(d, answers.drop_last()).phase {
            PhaseView::VmList { node } => before.push(Some(node)),
            _ => before,
        }
    }
}

spec fn nodes_to_ask(d: DiscoveryView) -> Seq<Option<Seq<char>>> {
    match d.phase {
        PhaseView::NodeStatus { node } => seq![Some(node)] + d.survey.nodes,
        PhaseView::NodeNetwork { node, .. } => seq![Some(node)] + d.survey.nodes,
        PhaseView::HostRegistration { node } => seq![Some(node)] + d.survey.nodes,
        PhaseView::VmList { node } => seq![Some(node)] + d.survey.nodes,
        _ => d.survey.nodes,
    }
}

proof fn next_node_asks_all(survey: SurveyView)
    ensures
        next_node(survey).1 is Fail || nodes_to_ask(next_node(survey).0) == survey.nodes,
        next_node(survey).1 is Finish ==> survey.nodes.len() == 0,
{
    if survey.nodes.len() > 0 {
        assert(survey.nodes =~= seq![survey.nodes[0]] + survey.nodes.drop_first());
    }
}

proof fn node_walk_goes_on(d: DiscoveryView, answers: Seq<AnswerView>, v: JsonView)
    requires
        d.phase is Nodes,
        answers.len() > 0,
        answers[0] == AnswerView::Value(v),
        node_list(v) is Some,
        are_answers(d, answers),
    ensures
        discovered_after(d, answers).phase is Over || nodes_asked(d, answers) + nodes_to_ask(
            discovered_after(d, answers),
        ) == node_list(v)->0,
        discovery_next(
            discovered_after(d, answers.drop_last()),
            answers.last(),
        ).1 is Finish ==> nodes_asked(d, answers) == node_list(v)->0,
        !(discovered_after(d, answers).phase is Nodes),
    decreases answers.len(),
{
    let before = answers.drop_last();
    let was = discovered_after(d, before);
    let (now, action) = discovery_next(was, answers.last());
    let asked = nodes_asked(d, before);
    let all = node_list(v)->0;
    if answers.len() == 1 {
        assert(was == d);
        next_node_asks_all(SurveyView { nodes: all, ..d.survey });
        assert(nodes_asked(d, answers) =~= Seq::empty());
        assert(nodes_asked(d, answers) + nodes_to_ask(now) =~= nodes_to_ask(now));
        if action is Finish {
            assert(all =~= nodes_asked(d, answers));
        }
    } else {
        assert(before[0] == answers[0]);
        node_walk_goes_on(d, before, v);
        next_node_asks_all(was.survey);
        match was.phase {
            PhaseView::VmList { node } => {
                assert(asked + (seq![Some(node)] + was.survey.nodes) =~= asked.push(Some(node))
                    + was.survey.nodes);
                assert(was.survey.nodes.len() == 0 ==> asked.push(Some(node)) + was.survey.nodes
                    =~= asked.push(Some(node)));
            },
            PhaseView::Vm { stage, work } => {
                next_node_asks_all(SurveyView { failed: was.survey.failed + 1, ..was.survey });
                next_node_asks_all(
                    SurveyView { registered: was.survey.registered + 1, ..was.survey },
                );
                assert(was.survey.nodes.len() == 0 ==> asked + was.survey.nodes =~= asked);
            },
            _ => {},
        }
    }
}

/// A discovery that finishes has asked every node in the list of nodes for its virtual machines, once
/// and in order.
pub proof fn every_node_is_asked(d: DiscoveryView, answers: Seq<AnswerView>, v: JsonView)
    requires
        d.phase is Nodes,
        answers.len() > 0,
        answers[0] == AnswerView::Value(v),
        node_list(v) is Some,
        are_answers(d, answers),
        discovery_next(discovered_after(d, answers.drop_last()), answers.last()).1 is Finish,
    ensures
        nodes_asked(d, answers) == node_list(v)->0,
{
    node_walk_goes_on(d, answers, v);
}

/// What is fetched is what the discovery then waits for: of the node or the virtual machine at hand.
pub proof fn discovery_fetches_what_it_waits_for(d: DiscoveryView, answer: AnswerView)
    requires
        awaits(d.phase, answer),
    ensures
        discovery_next(d, answer).1 matches DiscoveryActionView::Fetch(path) ==> {
            let nodes = "/api2/json/nodes/"@;
            match discovery_next(d, answer).0.phase {
                PhaseView::NodeStatus { node } => path == nodes + node + "/status"@,
                PhaseView::NodeNetwork { node, .. } => path == nodes + node + "/network"@,
                PhaseView::VmList { node } => path == nodes + node + "/qemu"@,
                PhaseView::Vm { stage, work } => path == nodes + work.node + "/qemu/"@ + decimal(
                    work.vmid as nat,
                ) + (match stage {
                    VmStage::Status => "/status/current"@,
                    VmStage::Config => "/config"@,
                    VmStage::Ping => "/agent/ping"@,
                    VmStage::OsInfo => "/agent/get-osinfo"@,
                    _ => "/agent/network-get-interfaces"@,
                }) && (stage is Status || stage is Config || stage is Ping || stage is OsInfo
                    || stage is Interfaces),
                _ => false,
            }
        },
{
}

/// What is known of a virtual machine stays with it, from its place in the list to its record: its
/// node, its number, its name and its state. Its memory and its processors are those of its state, its
/// hardware address that of its settings, and its network address is unknown until its interfaces are
/// looked at.
pub proof fn vm_is_followed(d: DiscoveryView, answer: AnswerView)
    requires
        awaits(d.phase, answer),
        d.phase is Vm,
    ensures
        ({
            let was = d.phase->work;
            let at = d.phase->stage;
            let next = discovery_next(d, answer).0.phase;
            let goes_on = next is Vm && !(next->stage is Status);
            &&& goes_on ==> next->work.node == was.node && next->work.vmid == was.vmid
                && next->work.name == was.name && next->work.status == was.status
                && next->work.rest == was.rest
            &&& goes_on && !(at is Status) ==> next->work.memory == was.memory && next->work.cores
                == was.cores
            &&& at is Status ==> goes_on && next->stage is Config && (next->work.memory,
                next->work.cores) == (match answer {
                AnswerView::Value(v) => vm_resources(v),
                _ => (0, 0),
            })
            &&& goes_on && !(at is Config) ==> next->work.mac == was.mac
            &&& goes_on && at is Config ==> (answer matches AnswerView::Value(v) && (v.field(
                "data"@,
            ) matches Some(config) && vm_mac(config) == Some(next->work.mac)))
            &&& goes_on && !(at is Interfaces) ==> next->work.ip == was.ip
            &&& goes_on && !(at is Config) && !(at is OsInfo) ==> next->work.os == was.os
        }),
{
}

/// The next virtual machine starts afresh: the first of those that are left, as its list has it, with
/// nothing known of its addresses.
pub proof fn next_vm_starts_afresh(survey: SurveyView, node: Seq<char>, vms: Seq<VmEntryView>)
    requires
        vms.len() > 0,
    ensures
        next_vm(survey, node, vms).0.phase matches PhaseView::Vm { stage, work } && stage is Status
            && work.node == node && work.vmid == vms[0].vmid && work.name == vms[0].name
            && work.status == vms[0].status && work.rest == vms.skip(1) && work.ip == "Unknown"@
            && work.mac == Seq::<char>::empty(),
{
    assert(vms.drop_first() =~= vms.skip(1));
}

/// A virtual machine is recorded with the address that its guest agent reports, if it reports a
/// usable one, and otherwise with the one that was known before, which is none.
pub proof fn reported_address_is_recorded(d: DiscoveryView, answer: AnswerView, ip: Seq<char>)
    requires
        d.phase matches PhaseView::Vm { stage, .. } && stage is Interfaces,
        awaits(d.phase, answer),
    ensures
        discovery_next(d, answer).1 is Register,
        answer matches AnswerView::Value(v) && guest_ip(v) == Some(Some(ip)) ==> (discovery_next(
            d,
            answer,
        ).1 matches DiscoveryActionView::Register(request) && request.ip_address == ip),
        !(answer matches AnswerView::Value(v) && guest_ip(v) matches Some(Some(_))) ==> (
        discovery_next(d, answer).1 matches DiscoveryActionView::Register(request)
            && request.ip_address == d.phase->work.ip),
{
}

/// The record of a virtual machine says what was found out about it.
pub proof fn vm_is_recorded_as_found(d: DiscoveryView, answer: AnswerView)
    requires
        d.phase is Vm,
        awaits(d.phase, answer),
        discovery_next(d, answer).1 is Register,
    ensures
        ({
            let request = discovery_next(d, answer).1->Register_0;
            let work = discovery_next(d, answer).0.phase->work;
            &&& discovery_next(d, answer).0.phase is Vm
            &&& discovery_next(d, answer).0.phase->stage is Registration
            &&& request.mac_address == work.mac
            &&& request.ip_address == work.ip
            &&& request.hostname == Some(work.name)
            &&& request.cpu_cores == Some(work.cores)
            &&& request.total_ram_bytes == Some(work.memory)
            &&& request.cpu_model == Some("Proxmox Virtual CPU"@)
            &&& request.proxmox_vmid == Some(work.vmid)
            &&& request.proxmox_node == Some(work.node)
            &&& request.proxmox_cluster == Some(d.survey.cluster)
            &&& request.disks.len() == 0
            &&& request.nameservers.len() == 0
        }),
{
}

/// A virtual machine that was recorded is settled under the number of its record, ready if it is
/// running and offline if it is stopped; one that was not is counted as failed, and one that was
/// settled as registered, once.
pub proof fn recorded_vm_is_settled(d: DiscoveryView, answer: AnswerView)
    requires
        d.phase is Vm,
        awaits(d.phase, answer),
    ensures
        ({
            let work = d.phase->work;
            let (now, action) = discovery_next(d, answer);
            &&& d.phase->stage is Registration ==> (answer matches AnswerView::Registered(Some(id))
                ==> (action matches DiscoveryActionView::Settle { machine_id, status, os }
                && machine_id == id && os == work.os && (work.status == "running"@ ==> status
                == StatusView::Ready) && (work.status == "stopped"@ ==> status
                == StatusView::Offline) && (work.status != "running"@ && work.status != "stopped"@
                ==> status == StatusView::ExistingOS)))
            &&& now.survey.failed == d.survey.failed + (if d.phase->stage is Registration && answer
                == AnswerView::Registered(None) {
                1int
            } else {
                0
            })
            &&& now.survey.registered == d.survey.registered + (if d.phase->stage is Settling {
                1int
            } else {
                0
            })
        }),
{
    reveal_strlit("running");
    reveal_strlit("stopped");
    assert("running"@[0] != "stopped"@[0]);
}

/// A node is recorded where its network shows a hardware address, under that address, with the
/// address and the label that its state gave, as a host and not as a virtual machine; its virtual
/// machines are asked for either way.
pub proof fn node_is_recorded(d: DiscoveryView, answer: AnswerView)
    requires
        awaits(d.phase, answer),
    ensures
        d.phase matches PhaseView::NodeStatus { node } ==> (discovery_next(d, answer).0.phase
            matches PhaseView::NodeNetwork { node: n, ip, label } && n == node && (answer
            matches AnswerView::Value(v) ==> ip == host_ip(v) && label == host_label(node, v)) && (
        !(answer is Value) ==> ip is None && label == node)),
        d.phase matches PhaseView::NodeNetwork { node, ip, label } ==> match answer {
            AnswerView::Value(v) => match host_mac(v) {
                Some(mac) => (discovery_next(d, answer).1 matches DiscoveryActionView::Register(
                    request,
                ) && request.mac_address == mac && request.hostname == Some(label)
                    && request.proxmox_node == Some(node) && request.proxmox_vmid is None
                    && request.proxmox_cluster == Some(d.survey.cluster) && request.ip_address == (
                match ip {
                    Some(ip) => ip,
                    None => "Unknown"@,
                })) && (discovery_next(d, answer).0.phase
                    matches PhaseView::HostRegistration { node: n } && n == node),
                None => discovery_next(d, answer).0.phase matches PhaseView::VmList { node: n }
                    && n == node,
            },
            _ => discovery_next(d, answer).0.phase matches PhaseView::VmList { node: n } && n
                == node,
        },
        d.phase matches PhaseView::HostRegistration { node } ==> (discovery_next(d, answer).0.phase
            matches PhaseView::VmList { node: n } && n == node),
{
}

/// A discovery that cannot read the list of nodes says why, and stops.
pub proof fn unreadable_nodes_stop_it(d: DiscoveryView, answer: AnswerView)
    requires
        d.phase is Nodes,
        awaits(d.phase, answer),
    ensures
        answer is Unreachable ==> discovery_next(d, answer).1 == DiscoveryActionView::Fail(
            DiscoveryError::NodesUnavailable,
        ),
        answer is Unreadable ==> discovery_next(d, answer).1 == DiscoveryActionView::Fail(
            DiscoveryError::NodesUnreadable,
        ),
        answer matches AnswerView::Value(v) ==> (node_list(v) is None <==> discovery_next(
            d,
            answer,
        ).1 == DiscoveryActionView::Fail(DiscoveryError::NodesMalformed)),
{
    if let AnswerView::Value(v) = answer {
        if let Some(nodes) = node_list(v) {
            assert(discovery_next(d, answer) == next_node(SurveyView { nodes, ..d.survey }));
        }
    }
}

/// The guest agent of a virtual machine is asked where the settings switch it on: first whether it is
/// there and, if it is, for the operating system and then for the interfaces. Otherwise the machine is
/// recorded at once. The operating system is the one that was learnt last.
pub proof fn agent_is_asked(d: DiscoveryView, answer: AnswerView)
    requires
        d.phase is Vm,
        awaits(d.phase, answer),
    ensures
        ({
            let was = d.phase->work;
            let at = d.phase->stage;
            let (now, action) = discovery_next(d, answer);
            &&& at is Config ==> (answer matches AnswerView::Value(v) ==> (v.field("data"@)
                matches Some(config) ==> {
                &&& vm_mac(config) is Some && agent_enabled(config) ==> now.phase is Vm
                    && now.phase->stage is Ping && now.phase->work.os == configured_os(
                    config,
                    was.os,
                )
                &&& vm_mac(config) is Some && !agent_enabled(config) ==> action is Register
                    && now.phase->work.os == configured_os(config, was.os)
            }))
            &&& at is Ping ==> (if answer matches AnswerView::Value(v) && agent_alive(v) {
                now.phase is Vm && now.phase->stage is OsInfo
            } else {
                action is Register
            })
            &&& at is OsInfo ==> now.phase is Vm && now.phase->stage is Interfaces && (answer
                matches AnswerView::Value(v) ==> now.phase->work.os == guest_os(v, was.os)) && (
            !(answer is Value) ==> now.phase->work.os == was.os)
            &&& at is Interfaces ==> action is Register
        }),
{
}

} // verus!
