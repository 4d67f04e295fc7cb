//! Keeping the records of Proxmox machines in step with the cluster.
//!
//! A synchronisation first takes a census of the nodes and the virtual machines that exist, then
//! goes through the recorded machines: what has gone is deleted, what has changed is updated.

use vstd::prelude::*;

use crate::json::{JsonView, parse_json};
use crate::machine::{MachineStatus, StatusView};
use crate::proxmox::discovery::{
    Answer, AnswerView, answer_to, node_path, path_of_node, path_of_vm, status_of_vm, vm_path,
    vm_status,
};
use crate::proxmox::replies::{
    agent_alive, agent_enabled, guest_ip, node_list, read_agent_alive, read_agent_enabled,
    read_guest_ip, read_node_list, read_vm_list, vm_list, VmEntry, VmEntryView,
};
use crate::text::{decimal, same};

verus! {

/// A recorded machine, as far as a synchronisation looks at it.
#[derive(Debug, PartialEq, Eq)]
pub struct KnownMachine {
    pub id: u128,
    pub status: MachineStatus,
    pub ip_address: String,
    pub proxmox_vmid: Option<u32>,
    pub proxmox_node: Option<String>,
    pub is_proxmox_host: bool,
}

/// A recorded machine as a mathematical value.
pub struct KnownView {
    pub id: u128,
    pub status: StatusView,
    pub ip_address: Seq<char>,
    pub proxmox_vmid: Option<u32>,
    pub proxmox_node: Option<Seq<char>>,
    pub is_proxmox_host: bool,
}

impl DeepView for KnownMachine {
    type V = KnownView;

    open spec fn deep_view(&self) -> KnownView {
        KnownView {
            id: self.id,
            status: self.status.deep_view(),
            ip_address: self.ip_address@,
            proxmox_vmid: self.proxmox_vmid,
            proxmox_node: self.proxmox_node.deep_view(),
            is_proxmox_host: self.is_proxmox_host,
        }
    }
}

/// The machine is a Proxmox node or a virtual machine on one.
pub open spec fn on_proxmox(m: KnownView) -> bool {
    m.proxmox_vmid is Some || m.is_proxmox_host
}

/// The machines among those recorded that a synchronisation looks at, in order.
pub fn proxmox_machines(machines: Vec<KnownMachine>) -> (r: Vec<KnownMachine>)
    ensures
        r.deep_view() == machines.deep_view().filter(|m: KnownView| on_proxmox(m)),
{
    let mut rest = machines;
    let mut kept: Vec<KnownMachine> = Vec::new();
    let ghost all = machines.deep_view();
    let ghost wanted = |m: KnownView| on_proxmox(m);
    proof {
        reveal(Seq::filter);
        assert(all.skip(0) =~= all);
        assert(kept.deep_view() + all.filter(wanted) =~= all.filter(wanted));
    }
    let mut i: Ghost<int> = Ghost(0);
    while rest.len() > 0
        invariant
            0 <= i@ <= all.len(),
            rest.deep_view() == all.skip(i@),
            wanted == (|m: KnownView| on_proxmox(m)),
            kept.deep_view() + all.skip(i@).filter(wanted) == all.filter(wanted),
        decreases rest.len(),
    {
        let ghost before = rest.deep_view();
        let ghost had = kept.deep_view();
        let m: KnownMachine = rest.remove(0);
        proof {
            assert(m.deep_view() == before[0]);
            assert(rest.deep_view() =~= before.drop_first());
            assert(before.drop_first() =~= all.skip(i@ + 1));
            first_filtered(before, wanted);
        }
        if m.proxmox_vmid.is_some() || m.is_proxmox_host {
            kept.push(m);
            assert(kept.deep_view() =~= had.push(m.deep_view()));
            assert(kept.deep_view() + all.skip(i@ + 1).filter(wanted) =~= had + before.filter(
                wanted,
            ));
        }
        i = Ghost(i@ + 1);
    }
    proof {
        reveal(Seq::filter);
        assert(all.skip(i@) =~= Seq::empty());
        assert(kept.deep_view() + all.skip(i@).filter(wanted) =~= kept.deep_view());
    }
    kept
}

proof fn first_filtered<T>(s: Seq<T>, p: spec_fn(T) -> bool)
    requires
        s.len() > 0,
    ensures
        s.filter(p) == (if p(s[0]) {
            seq![s[0]] + s.drop_first().filter(p)
        } else {
            s.drop_first().filter(p)
        }),
    decreases s.len(),
{
    reveal_with_fuel(Seq::filter, 2);
    if s.len() == 1 {
        assert(s.drop_last() =~= Seq::empty());
        assert(s.drop_first() =~= Seq::empty());
        assert(s.filter(p) =~= (if p(s[0]) {
            seq![s[0]]
        } else {
            Seq::empty()
        }));
    } else {
        first_filtered(s.drop_last(), p);
        assert(s.drop_last().drop_first() =~= s.drop_first().drop_last());
        assert(s.filter(p) =~= (if p(s[0]) {
            seq![s[0]] + s.drop_first().filter(p)
        } else {
            s.drop_first().filter(p)
        }));
    }
}

/// A virtual machine that exists: where, in which state, and whether its guest agent answers.
#[derive(Debug, PartialEq, Eq)]
pub struct VmDetail {
    pub vmid: u32,
    pub node: String,
    pub status: String,
    pub agent_running: bool,
}

/// `VmDetail` as a mathematical value.
pub struct VmDetailView {
    pub vmid: u32,
    pub node: Seq<char>,
    pub status: Seq<char>,
    pub agent_running: bool,
}

impl DeepView for VmDetail {
    type V = VmDetailView;

    open spec fn deep_view(&self) -> VmDetailView {
        VmDetailView {
            vmid: self.vmid,
            node: self.node@,
            status: self.status@,
            agent_running: self.agent_running,
        }
    }
}

/// What the census holds of a virtual machine: what was found last under its number.
pub open spec fn detail_of(vms: Seq<VmDetailView>, vmid: u32) -> Option<VmDetailView>
    decreases vms.len(),
{
    if vms.len() == 0 {
        None
    } else if vms.last().vmid == vmid {
        Some(vms.last())
    } else {
        detail_of(vms.drop_last(), vmid)
    }
}

/// Why a synchronisation cannot go on.
#[derive(Clone, Copy, Debug, PartialEq, Eq, Structural)]
pub enum SyncError {
    /// The list of nodes could not be fetched.
    NodesUnavailable,
    /// The list of nodes is no JSON.
    NodesUnreadable,
    /// The list of nodes is no list.
    NodesMalformed,
    /// A node in the list has no name.
    NodeWithoutName,
}

/// What is to be done next.
#[derive(Debug, PartialEq, Eq)]
pub enum SyncAction {
    /// Fetch this path of the API.
    Fetch(String),
    /// Delete the record of this machine.
    Delete(u128),
    /// Set the status of this machine.
    SetStatus(u128, MachineStatus),
    /// Set the address of this machine.
    SetAddress(u128, String),
    /// Nothing more: so many machines were deleted, addresses and statuses updated.
    Finish { pruned: usize, addresses: usize, statuses: usize },
    /// Nothing more: it failed.
    Fail(SyncError),
}

/// `SyncAction` as a mathematical value.
pub enum SyncActionView {
    Fetch(Seq<char>),
    Delete(u128),
    SetStatus(u128, StatusView),
    SetAddress(u128, Seq<char>),
    Finish { pruned: nat, addresses: nat, statuses: nat },
    Fail(SyncError),
}

impl DeepView for SyncAction {
    type V = SyncActionView;

    open spec fn deep_view(&self) -> SyncActionView {
        match self {
            SyncAction::Fetch(path) => SyncActionView::Fetch(path@),
            SyncAction::Delete(id) => SyncActionView::Delete(*id),
            SyncAction::SetStatus(id, status) => SyncActionView::SetStatus(
                *id,
                status.deep_view(),
            ),
            SyncAction::SetAddress(id, ip) => SyncActionView::SetAddress(*id, ip@),
            SyncAction::Finish { pruned, addresses, statuses } => SyncActionView::Finish {
                pruned: *pruned as nat,
                addresses: *addresses as nat,
                statuses: *statuses as nat,
            },
            SyncAction::Fail(e) => SyncActionView::Fail(*e),
        }
    }
}

/// What a synchronisation is waiting for.
#[derive(Debug, PartialEq, Eq)]
pub enum SyncPhase {
    /// The list of nodes.
    Nodes,
    /// The list of virtual machines of a node.
    VmList { node: String },
    /// The configuration of a virtual machine.
    VmConfig { node: String, rest: Vec<VmEntry>, vm: VmEntry },
    /// A sign of life of the guest agent of a virtual machine.
    VmPing { node: String, rest: Vec<VmEntry>, vm: VmEntry },
    /// The deletion of the machine at hand.
    Deleting,
    /// The update of its status.
    SettingStatus,
    /// What its guest agent says of the network.
    Interfaces,
    /// The update of its address; counted where a new one was found.
    SettingAddress { counted: bool },
    /// Nothing: it has ended.
    Over,
}

/// `SyncPhase` as a mathematical value.
pub enum SyncPhaseView {
    Nodes,
    VmList { node: Seq<char> },
    VmConfig { node: Seq<char>, rest: Seq<VmEntryView>, vm: VmEntryView },
    VmPing { node: Seq<char>, rest: Seq<VmEntryView>, vm: VmEntryView },
    Deleting,
    SettingStatus,
    Interfaces,
    SettingAddress { counted: bool },
    Over,
}

impl DeepView for SyncPhase {
    type V = SyncPhaseView;

    open spec fn deep_view(&self) -> SyncPhaseView {
        match self {
            SyncPhase::Nodes => SyncPhaseView::Nodes,
            SyncPhase::VmList { node } => SyncPhaseView::VmList { node: node@ },
            SyncPhase::VmConfig { node, rest, vm } => SyncPhaseView::VmConfig {
                node: node@,
                rest: rest.deep_view(),
                vm: vm.deep_view(),
            },
            SyncPhase::VmPing { node, rest, vm } => SyncPhaseView::VmPing {
                node: node@,
                rest: rest.deep_view(),
                vm: vm.deep_view(),
            },
            SyncPhase::Deleting => SyncPhaseView::Deleting,
            SyncPhase::SettingStatus => SyncPhaseView::SettingStatus,
            SyncPhase::Interfaces => SyncPhaseView::Interfaces,
            SyncPhase::SettingAddress { counted } => SyncPhaseView::SettingAddress {
                counted: *counted,
            },
            SyncPhase::Over => SyncPhaseView::Over,
        }
    }
}

/// The census, the machines still to be looked at (the first is at hand), and the counts.
#[derive(Debug, PartialEq, Eq)]
pub struct Ledger {
    pub nodes_left: Vec<Option<String>>,
    pub node_names: Vec<String>,
    pub vms: Vec<VmDetail>,
    pub machines: Vec<KnownMachine>,
    pub pruned: usize,
    pub addresses: usize,
    pub statuses: usize,
}

/// `Ledger` as a mathematical value.
pub struct LedgerView {
    pub nodes_left: Seq<Option<Seq<char>>>,
    pub node_names: Seq<Seq<char>>,
    pub vms: Seq<VmDetailView>,
    pub machines: Seq<KnownView>,
    pub pruned: nat,
    pub addresses: nat,
    pub statuses: nat,
}

impl DeepView for Ledger {
    type V = LedgerView;

    open spec fn deep_view(&self) -> LedgerView {
        LedgerView {
            nodes_left: self.nodes_left.deep_view(),
            node_names: self.node_names.deep_view(),
            vms: self.vms.deep_view(),
            machines: self.machines.deep_view(),
            pruned: self.pruned as nat,
            addresses: self.addresses as nat,
            statuses: self.statuses as nat,
        }
    }
}

/// A synchronisation under way.
#[derive(Debug, PartialEq, Eq)]
pub struct ProxmoxSync {
    pub ledger: Ledger,
    pub phase: SyncPhase,
}

/// `ProxmoxSync` as a mathematical value.
pub struct SyncView {
    pub ledger: LedgerView,
    pub phase: SyncPhaseView,
}

impl DeepView for ProxmoxSync {
    type V = SyncView;

    open spec fn deep_view(&self) -> SyncView {
        SyncView { ledger: self.ledger.deep_view(), phase: self.phase.deep_view() }
    }
}

/// How the last action ended: an answer of the API, or whether a record could be changed.
#[derive(Debug, PartialEq, Eq)]
pub enum SyncAnswer {
    Reply(Answer),
    Done(bool),
}

/// `SyncAnswer` as a mathematical value.
pub enum SyncAnswerView {
    Reply(AnswerView),
    Done(bool),
}

impl DeepView for SyncAnswer {
    type V = SyncAnswerView;

    open spec fn deep_view(&self) -> SyncAnswerView {
        match self {
            SyncAnswer::Reply(a) => SyncAnswerView::Reply(a.deep_view()),
            SyncAnswer::Done(ok) => SyncAnswerView::Done(*ok),
        }
    }
}

// ---------------------------------------------------------------------------------------------
// The recorded machines
// ---------------------------------------------------------------------------------------------

/// What the addresses of a machine need: a look at its interfaces where it runs with a guest
/// agent at work.
pub open spec fn address_need(vm: VmDetailView) -> Option<(SyncPhaseView, SyncActionView)> {
    if vm.status == "running"@ && vm.agent_running {
        Some(
            (
                SyncPhaseView::Interfaces,
                SyncActionView::Fetch(
                    vm_path(vm.node, vm.vmid, "/agent/network-get-interfaces"@),
                ),
            ),
        )
    } else {
        None
    }
}

/// The first thing that a recorded machine needs.
pub open spec fn first_need(ledger: LedgerView, m: KnownView) -> Option<
    (SyncPhaseView, SyncActionView),
> {
    match m.proxmox_vmid {
        Some(vmid) => match detail_of(ledger.vms, vmid) {
            None => Some((SyncPhaseView::Deleting, SyncActionView::Delete(m.id))),
            Some(vm) => if m.status != vm_status(vm.status) {
                Some(
                    (
                        SyncPhaseView::SettingStatus,
                        SyncActionView::SetStatus(m.id, vm_status(vm.status)),
                    ),
                )
            } else {
                address_need(vm)
            },
        },
        None => match m.proxmox_node {
            Some(node) if m.is_proxmox_host && !ledger.node_names.contains(node) => Some(
                (SyncPhaseView::Deleting, SyncActionView::Delete(m.id)),
            ),
            _ => None,
        },
    }
}

/// The ledger with the machine at hand laid aside.
pub open spec fn laid_aside(ledger: LedgerView) -> LedgerView {
    LedgerView { machines: ledger.machines.drop_first(), ..ledger }
}

/// On to the first machine that needs something, or to the end.
pub open spec fn next_machine(ledger: LedgerView) -> (SyncView, SyncActionView)
    decreases ledger.machines.len(),
{
    if ledger.machines.len() == 0 {
        (
            SyncView { ledger, phase: SyncPhaseView::Over },
            SyncActionView::Finish {
                pruned: ledger.pruned,
                addresses: ledger.addresses,
                statuses: ledger.statuses,
            },
        )
    } else {
        match first_need(ledger, ledger.machines[0]) {
            Some((phase, action)) => (SyncView { ledger, phase }, action),
            None => next_machine(laid_aside(ledger)),
        }
    }
}

/// On to the addresses of the machine at hand, or to the next machine where there is nothing to
/// look at.
pub open spec fn address_step(ledger: LedgerView) -> (SyncView, SyncActionView) {
    let need = match ledger.machines[0].proxmox_vmid {
        Some(vmid) => match detail_of(ledger.vms, vmid) {
            Some(vm) => address_need(vm),
            None => None,
        },
        None => None,
    };
    match need {
        Some((phase, action)) => (SyncView { ledger, phase }, action),
        None => next_machine(laid_aside(ledger)),
    }
}

/// What follows a look at the interfaces of the machine at hand.
pub open spec fn after_interfaces(ledger: LedgerView, answer: AnswerView) -> (
    SyncView,
    SyncActionView,
) {
    let m = ledger.machines[0];
    let found = match answer {
        AnswerView::Value(v) => guest_ip(v),
        _ => None,
    };
    match found {
        Some(Some(ip)) if ip != m.ip_address => (
            SyncView { ledger, phase: SyncPhaseView::SettingAddress { counted: true } },
            SyncActionView::SetAddress(m.id, ip),
        ),
        Some(None) if m.ip_address != "Unknown"@ => (
            SyncView { ledger, phase: SyncPhaseView::SettingAddress { counted: false } },
            SyncActionView::SetAddress(m.id, "Unknown"@),
        ),
        _ => next_machine(laid_aside(ledger)),
    }
}

// ---------------------------------------------------------------------------------------------
// The census
// ---------------------------------------------------------------------------------------------

/// The end, for a reason.
pub open spec fn sync_stopped(ledger: LedgerView, reason: SyncError) -> (SyncView, SyncActionView) {
    (SyncView { ledger, phase: SyncPhaseView::Over }, SyncActionView::Fail(reason))
}

/// On to the next node, or to the machines where the census is complete.
pub open spec fn census_node(ledger: LedgerView) -> (SyncView, SyncActionView) {
    if ledger.nodes_left.len() == 0 {
        next_machine(ledger)
    } else {
        let rest = LedgerView { nodes_left: ledger.nodes_left.drop_first(), ..ledger };
        match ledger.nodes_left[0] {
            Some(node) => (
                SyncView {
                    ledger: LedgerView { node_names: rest.node_names.push(node), ..rest },
                    phase: SyncPhaseView::VmList { node },
                },
                SyncActionView::Fetch(node_path(node, "/qemu"@)),
            ),
            None => sync_stopped(rest, SyncError::NodeWithoutName),
        }
    }
}

/// On to the first of these virtual machines, or to the next node.
pub open spec fn census_vm(ledger: LedgerView, node: Seq<char>, vms: Seq<VmEntryView>) -> (
    SyncView,
    SyncActionView,
) {
    if vms.len() == 0 {
        census_node(ledger)
    } else {
        (
            SyncView {
                ledger,
                phase: SyncPhaseView::VmConfig { node, rest: vms.drop_first(), vm: vms[0] },
            },
            SyncActionView::Fetch(vm_path(node, vms[0].vmid, "/config"@)),
        )
    }
}

/// The ledger with one more virtual machine in the census.
pub open spec fn counted_vm(
    ledger: LedgerView,
    node: Seq<char>,
    vm: VmEntryView,
    agent_running: bool,
) -> LedgerView {
    LedgerView {
        vms: ledger.vms.push(
            VmDetailView { vmid: vm.vmid, node, status: vm.status, agent_running },
        ),
        ..ledger
    }
}

/// What follows an answer.
pub open spec fn sync_next(s: SyncView, answer: SyncAnswerView) -> (SyncView, SyncActionView) {
    let ledger = s.ledger;
    let reply = match answer {
        SyncAnswerView::Reply(a) => a,
        SyncAnswerView::Done(_) => AnswerView::Unreachable,
    };
    let done = answer == SyncAnswerView::Done(true);
    match s.phase {
        SyncPhaseView::Nodes => match reply {
            AnswerView::Value(v) => match node_list(v) {
                Some(nodes) => census_node(LedgerView { nodes_left: nodes, ..ledger }),
                None => sync_stopped(ledger, SyncError::NodesMalformed),
            },
            AnswerView::Unreadable => sync_stopped(ledger, SyncError::NodesUnreadable),
            _ => sync_stopped(ledger, SyncError::NodesUnavailable),
        },
        SyncPhaseView::VmList { node } => match reply {
            AnswerView::Value(v) => match vm_list(v) {
                Some(vms) => census_vm(ledger, node, vms),
                None => census_node(ledger),
            },
            _ => census_node(ledger),
        },
        SyncPhaseView::VmConfig { node, rest, vm } => {
            let enabled = match reply {
                AnswerView::Value(v) => match v.field("data"@) {
                    Some(config) => agent_enabled(config),
                    None => false,
                },
                _ => false,
            };
            if vm.status == "running"@ && enabled {
                (
                    SyncView { ledger, phase: SyncPhaseView::VmPing { node, rest, vm } },
                    SyncActionView::Fetch(vm_path(node, vm.vmid, "/agent/ping"@)),
                )
            } else {
                census_vm(counted_vm(ledger, node, vm, false), node, rest)
            }
        },
        SyncPhaseView::VmPing { node, rest, vm } => {
            let alive = reply matches AnswerView::Value(v) && agent_alive(v);
            census_vm(counted_vm(ledger, node, vm, alive), node, rest)
        },
        SyncPhaseView::Deleting => next_machine(
            laid_aside(
                LedgerView { pruned: ledger.pruned + if done { 1nat } else { 0nat }, ..ledger },
            ),
        ),
        SyncPhaseView::SettingStatus => address_step(
            LedgerView { statuses: ledger.statuses + if done { 1nat } else { 0nat }, ..ledger },
        ),
        SyncPhaseView::Interfaces => after_interfaces(ledger, reply),
        SyncPhaseView::SettingAddress { counted } => next_machine(
            laid_aside(
                LedgerView {
                    addresses: ledger.addresses + if done && counted { 1nat } else { 0nat },
                    ..ledger
                },
            ),
        ),
        SyncPhaseView::Over => (s, SyncActionView::Fail(SyncError::NodesUnavailable)),
    }
}

/// The answer is one to what the synchronisation is waiting for.
pub open spec fn sync_awaits(phase: SyncPhaseView, answer: SyncAnswerView) -> bool {
    match phase {
        SyncPhaseView::Over => false,
        SyncPhaseView::Deleting => answer is Done,
        SyncPhaseView::SettingStatus => answer is Done,
        SyncPhaseView::SettingAddress { .. } => answer is Done,
        _ => answer matches SyncAnswerView::Reply(a) && (a is Unreachable || a is Unreadable
            || a is Value),
    }
}

/// The action is the one whose answer the synchronisation is waiting for.
pub open spec fn sync_suits(phase: SyncPhaseView, action: SyncActionView) -> bool {
    match action {
        SyncActionView::Fetch(_) => sync_awaits(
            phase,
            SyncAnswerView::Reply(AnswerView::Unreachable),
        ),
        SyncActionView::Finish { .. } => phase is Over,
        SyncActionView::Fail(_) => phase is Over,
        _ => sync_awaits(phase, SyncAnswerView::Done(true)),
    }
}

/// The counts leave room for the machines still to come, and there is a machine at hand where
/// one is being changed.
pub open spec fn sync_sound(s: SyncView) -> bool {
    let left = s.ledger.machines.len();
    let status_done: int = if s.phase is Interfaces || s.phase is SettingAddress {
        1
    } else {
        0
    };
    &&& s.ledger.pruned + left <= usize::MAX
    &&& s.ledger.addresses + left <= usize::MAX
    &&& s.ledger.statuses + left <= usize::MAX + status_done
    &&& (s.phase is Deleting || s.phase is SettingStatus || s.phase is Interfaces
        || s.phase is SettingAddress) ==> left > 0
}

/// The place in the census of what was found last under a number.
fn place_of(vms: &Vec<VmDetail>, vmid: u32) -> (r: Option<usize>)
    ensures
        match r {
            Some(i) => i < vms.len() && detail_of(vms.deep_view(), vmid) == Some(
                vms@[i as int].deep_view(),
            ),
            None => detail_of(vms.deep_view(), vmid) is None,
        },
{
    let ghost all = vms.deep_view();
    let mut n: usize = vms.len();
    assert(all.take(n as int) =~= all);
    while n > 0
        invariant
            n <= vms.len(),
            all == vms.deep_view(),
            detail_of(all, vmid) == detail_of(all.take(n as int), vmid),
        decreases n,
    {
        assert(all.take(n as int).drop_last() =~= all.take(n - 1));
        assert(all.take(n as int).last() == vms@[n - 1].deep_view());
        if vms[n - 1].vmid == vmid {
            return Some(n - 1);
        }
        n = n - 1;
    }
    None
}

fn contains_name(names: &Vec<String>, name: &str) -> (r: bool)
    ensures
        r == names.deep_view().contains(name@),
{
    let mut i: usize = 0;
    while i < names.len()
        invariant
            i <= names.len(),
            forall|j: int| 0 <= j < i ==> names.deep_view()[j] != name@,
        decreases names.len() - i,
    {
        assert(names.deep_view()[i as int] == names@[i as int]@);
        if same(names[i].as_str(), name) {
            return true;
        }
        i = i + 1;
    }
    false
}

fn look_for_address(vm: &VmDetail) -> (r: Option<(SyncPhase, SyncAction)>)
    ensures
        (match r {
            Some(p) => Some((p.0.deep_view(), p.1.deep_view())),
            None => None,
        }) == address_need(vm.deep_view()),
{
    if same(vm.status.as_str(), "running") && vm.agent_running {
        Some(
            (
                SyncPhase::Interfaces,
                SyncAction::Fetch(
                    path_of_vm(vm.node.as_str(), vm.vmid, "/agent/network-get-interfaces"),
                ),
            ),
        )
    } else {
        None
    }
}

fn look_for_need(ledger: &Ledger, m: &KnownMachine) -> (r: Option<(SyncPhase, SyncAction)>)
    ensures
        (match r {
            Some(p) => Some((p.0.deep_view(), p.1.deep_view())),
            None => None,
        }) == first_need(ledger.deep_view(), m.deep_view()),
{
    match m.proxmox_vmid {
        Some(vmid) => match place_of(&ledger.vms, vmid) {
            None => Some((SyncPhase::Deleting, SyncAction::Delete(m.id))),
            Some(i) => {
                let vm = &ledger.vms[i];
                let status = status_of_vm(vm.status.as_str());
                if !m.status.is_same(&status) {
                    Some((SyncPhase::SettingStatus, SyncAction::SetStatus(m.id, status)))
                } else {
                    look_for_address(vm)
                }
            },
        },
        None => {
            if !m.is_proxmox_host {
                return None;
            }
            match &m.proxmox_node {
                Some(node) => if contains_name(&ledger.node_names, node.as_str()) {
                    None
                } else {
                    Some((SyncPhase::Deleting, SyncAction::Delete(m.id)))
                },
                None => None,
            }
        },
    }
}

fn lay_aside(ledger: Ledger) -> (r: Ledger)
    requires
        ledger.machines@.len() > 0,
    ensures
        r.deep_view() == laid_aside(ledger.deep_view()),
{
    let mut ledger = ledger;
    let ghost before = ledger.machines.deep_view();
    let _gone: KnownMachine = ledger.machines.remove(0);
    assert(ledger.machines.deep_view() =~= before.drop_first());
    ledger
}

fn go_to_machine(ledger: Ledger) -> (r: (ProxmoxSync, SyncAction))
    ensures
        (r.0.deep_view(), r.1.deep_view()) == next_machine(ledger.deep_view()),
{
    let mut left = ledger;
    while left.machines.len() > 0
        invariant
            next_machine(left.deep_view()) == next_machine(ledger.deep_view()),
        decreases left.deep_view().machines.len(),
    {
        assert(left.deep_view().machines[0] == left.machines@[0].deep_view());
        match look_for_need(&left, &left.machines[0]) {
            Some((phase, action)) => {
                return (ProxmoxSync { ledger: left, phase }, action);
            },
            None => {
                left = lay_aside(left);
            },
        }
    }
    let action = SyncAction::Finish {
        pruned: left.pruned,
        addresses: left.addresses,
        statuses: left.statuses,
    };
    (ProxmoxSync { ledger: left, phase: SyncPhase::Over }, action)
}

fn go_to_address(ledger: Ledger) -> (r: (ProxmoxSync, SyncAction))
    requires
        ledger.machines@.len() > 0,
    ensures
        (r.0.deep_view(), r.1.deep_view()) == address_step(ledger.deep_view()),
{
    assert(ledger.deep_view().machines[0] == ledger.machines@[0].deep_view());
    let need = match ledger.machines[0].proxmox_vmid {
        Some(vmid) => match place_of(&ledger.vms, vmid) {
            Some(i) => look_for_address(&ledger.vms[i]),
            None => None,
        },
        None => None,
    };
    match need {
        Some((phase, action)) => (ProxmoxSync { ledger, phase }, action),
        None => go_to_machine(lay_aside(ledger)),
    }
}

fn go_on_from_interfaces(ledger: Ledger, answer: Answer) -> (r: (ProxmoxSync, SyncAction))
    requires
        ledger.machines@.len() > 0,
    ensures
        (r.0.deep_view(), r.1.deep_view()) == after_interfaces(
            ledger.deep_view(),
            answer.deep_view(),
        ),
{
    assert(ledger.deep_view().machines[0] == ledger.machines@[0].deep_view());
    let id: u128 = ledger.machines[0].id;
    let found: Option<Option<String>> = match answer {
        Answer::Value(v) => read_guest_ip(&v),
        _ => None,
    };
    match found {
        Some(Some(ip)) => {
            if same(ip.as_str(), ledger.machines[0].ip_address.as_str()) {
                go_to_machine(lay_aside(ledger))
            } else {
                (
                    ProxmoxSync { ledger, phase: SyncPhase::SettingAddress { counted: true } },
                    SyncAction::SetAddress(id, ip),
                )
            }
        },
        Some(None) => {
            if same(ledger.machines[0].ip_address.as_str(), "Unknown") {
                go_to_machine(lay_aside(ledger))
            } else {
                (
                    ProxmoxSync { ledger, phase: SyncPhase::SettingAddress { counted: false } },
                    SyncAction::SetAddress(id, "Unknown".to_owned()),
                )
            }
        },
        None => go_to_machine(lay_aside(ledger)),
    }
}

fn stop_sync(ledger: Ledger, reason: SyncError) -> (r: (ProxmoxSync, SyncAction))
    ensures
        (r.0.deep_view(), r.1.deep_view()) == sync_stopped(ledger.deep_view(), reason),
{
    (ProxmoxSync { ledger, phase: SyncPhase::Over }, SyncAction::Fail(reason))
}

fn go_to_census_node(ledger: Ledger) -> (r: (ProxmoxSync, SyncAction))
    ensures
        (r.0.deep_view(), r.1.deep_view()) == census_node(ledger.deep_view()),
{
    let mut ledger = ledger;
    if ledger.nodes_left.len() == 0 {
        return go_to_machine(ledger);
    }
    let ghost before = ledger.nodes_left.deep_view();
    let ghost names = ledger.node_names.deep_view();
    let first: Option<String> = ledger.nodes_left.remove(0);
    assert(ledger.nodes_left.deep_view() =~= before.drop_first());
    match first {
        Some(node) => {
            ledger.node_names.push(node.clone());
            assert(ledger.node_names.deep_view() =~= names.push(node@));
            let action = SyncAction::Fetch(path_of_node(node.as_str(), "/qemu"));
            (ProxmoxSync { ledger, phase: SyncPhase::VmList { node } }, action)
        },
        None => stop_sync(ledger, SyncError::NodeWithoutName),
    }
}

fn go_to_census_vm(ledger: Ledger, node: String, vms: Vec<VmEntry>) -> (r: (
    ProxmoxSync,
    SyncAction,
))
    ensures
        (r.0.deep_view(), r.1.deep_view()) == census_vm(
            ledger.deep_view(),
            node@,
            vms.deep_view(),
        ),
{
    let mut rest = vms;
    if rest.len() == 0 {
        return go_to_census_node(ledger);
    }
    let ghost before = rest.deep_view();
    let vm: VmEntry = rest.remove(0);
    assert(rest.deep_view() =~= before.drop_first());
    assert(vm.deep_view() == before[0]);
    let action = SyncAction::Fetch(path_of_vm(node.as_str(), vm.vmid, "/config"));
    (ProxmoxSync { ledger, phase: SyncPhase::VmConfig { node, rest, vm } }, action)
}

fn count_vm(ledger: Ledger, node: &String, vm: VmEntry, agent_running: bool) -> (r: Ledger)
    ensures
        r.deep_view() == counted_vm(ledger.deep_view(), node@, vm.deep_view(), agent_running),
{
    let mut ledger = ledger;
    let ghost before = ledger.vms.deep_view();
    let detail = VmDetail {
        vmid: vm.vmid,
        node: node.clone(),
        status: vm.status,
        agent_running,
    };
    ledger.vms.push(detail);
    assert(ledger.vms.deep_view() =~= before.push(detail.deep_view()));
    ledger
}

/// Going on to a machine keeps the counts within their bounds.
proof fn next_machine_is_sound(ledger: LedgerView)
    requires
        ledger.pruned + ledger.machines.len() <= usize::MAX,
        ledger.addresses + ledger.machines.len() <= usize::MAX,
        ledger.statuses + ledger.machines.len() <= usize::MAX,
    ensures
        sync_sound(next_machine(ledger).0),
        sync_suits(next_machine(ledger).0.phase, next_machine(ledger).1),
    decreases ledger.machines.len(),
{
    if ledger.machines.len() > 0 && first_need(ledger, ledger.machines[0]) is None {
        next_machine_is_sound(laid_aside(ledger));
    }
}

impl ProxmoxSync {
    /// The beginning of a synchronisation of these machines: the list of nodes is to be fetched.
    pub fn start(machines: Vec<KnownMachine>) -> (r: (ProxmoxSync, SyncAction))
        ensures
            r.0.deep_view() == (SyncView {
                ledger: LedgerView {
                    nodes_left: Seq::empty(),
                    node_names: Seq::empty(),
                    vms: Seq::empty(),
                    machines: machines.deep_view(),
                    pruned: 0,
                    addresses: 0,
                    statuses: 0,
                },
                phase: SyncPhaseView::Nodes,
            }),
            r.1.deep_view() == SyncActionView::Fetch("/api2/json/nodes"@),
            sync_sound(r.0.deep_view()),
            sync_suits(r.0.deep_view().phase, r.1.deep_view()),
    {
        let total: usize = machines.len();
        let ledger = Ledger {
            nodes_left: Vec::new(),
            node_names: Vec::new(),
            vms: Vec::new(),
            machines,
            pruned: 0,
            addresses: 0,
            statuses: 0,
        };
        proof {
            assert(total == machines.deep_view().len());
            assert(ledger.nodes_left.deep_view() =~= Seq::empty());
            assert(ledger.node_names.deep_view() =~= Seq::empty());
            assert(ledger.vms.deep_view() =~= Seq::empty());
        }
        (
            ProxmoxSync { ledger, phase: SyncPhase::Nodes },
            SyncAction::Fetch("/api2/json/nodes".to_owned()),
        )
    }

    /// Goes on with the answer to the last action.
    pub fn advance(self, answer: SyncAnswer) -> (r: (ProxmoxSync, SyncAction))
        requires
            sync_sound(self.deep_view()),
            sync_awaits(self.deep_view().phase, answer.deep_view()),
        ensures
            (r.0.deep_view(), r.1.deep_view()) == sync_next(self.deep_view(), answer.deep_view()),
            sync_sound(r.0.deep_view()),
            sync_suits(r.0.deep_view().phase, r.1.deep_view()),
    {
        proof {
            sync_stays_sound(self.deep_view(), answer.deep_view());
        }
        let done = matches!(answer, SyncAnswer::Done(true));
        let reply: Answer = match answer {
            SyncAnswer::Reply(a) => a,
            SyncAnswer::Done(_) => Answer::Unreachable,
        };
        let ProxmoxSync { ledger, phase } = self;
        let mut ledger = ledger;
        assert(ledger.machines@.len() == ledger.deep_view().machines.len());
        match phase {
            SyncPhase::Nodes => {
                match reply {
                    Answer::Value(v) => match read_node_list(&v) {
                        Some(nodes) => {
                            ledger.nodes_left = nodes;
                            go_to_census_node(ledger)
                        },
                        None => stop_sync(ledger, SyncError::NodesMalformed),
                    },
                    Answer::Unreadable => stop_sync(ledger, SyncError::NodesUnreadable),
                    _ => stop_sync(ledger, SyncError::NodesUnavailable),
                }
            },
            SyncPhase::VmList { node } => {
                match reply {
                    Answer::Value(v) => match read_vm_list(&v) {
                        Some(vms) => go_to_census_vm(ledger, node, vms),
                        None => go_to_census_node(ledger),
                    },
                    _ => go_to_census_node(ledger),
                }
            },
            SyncPhase::VmConfig { node, rest, vm } => {
                let enabled = match reply {
                    Answer::Value(v) => match v.get("data") {
                        Some(config) => read_agent_enabled(config),
                        None => false,
                    },
                    _ => false,
                };
                if same(vm.status.as_str(), "running") && enabled {
                    let action = SyncAction::Fetch(path_of_vm(node.as_str(), vm.vmid, "/agent/ping"));
                    (ProxmoxSync { ledger, phase: SyncPhase::VmPing { node, rest, vm } }, action)
                } else {
                    let ledger = count_vm(ledger, &node, vm, false);
                    go_to_census_vm(ledger, node, rest)
                }
            },
            SyncPhase::VmPing { node, rest, vm } => {
                let alive = match reply {
                    Answer::Value(v) => read_agent_alive(&v),
                    _ => false,
                };
                let ledger = count_vm(ledger, &node, vm, alive);
                go_to_census_vm(ledger, node, rest)
            },
            SyncPhase::Deleting => {
                if done {
                    ledger.pruned = ledger.pruned + 1;
                }
                go_to_machine(lay_aside(ledger))
            },
            SyncPhase::SettingStatus => {
                if done {
                    ledger.statuses = ledger.statuses + 1;
                }
                go_to_address(ledger)
            },
            SyncPhase::Interfaces => go_on_from_interfaces(ledger, reply),
            SyncPhase::SettingAddress { counted } => {
                if done && counted {
                    ledger.addresses = ledger.addresses + 1;
                }
                go_to_machine(lay_aside(ledger))
            },
            SyncPhase::Over => stop_sync(ledger, SyncError::NodesUnavailable),
        }
    }

    /// Goes on with the body that was fetched, or with none where the fetch failed.
    pub fn advance_with_body(self, body: Option<Vec<u8>>) -> (r: (ProxmoxSync, SyncAction))
        requires
            sync_sound(self.deep_view()),
            sync_awaits(
                self.deep_view().phase,
                SyncAnswerView::Reply(AnswerView::Unreachable),
            ),
        ensures
            (r.0.deep_view(), r.1.deep_view()) == sync_next(
                self.deep_view(),
                SyncAnswerView::Reply(
                    answer_to(match body {
                        Some(b) => Some(b@),
                        None => None,
                    }),
                ),
            ),
            sync_sound(r.0.deep_view()),
            sync_suits(r.0.deep_view().phase, r.1.deep_view()),
    {
        let answer = match body {
            Some(bytes) => match parse_json(bytes.as_slice()) {
                Some(v) => Answer::Value(v),
                None => Answer::Unreadable,
            },
            None => Answer::Unreachable,
        };
        self.advance(SyncAnswer::Reply(answer))
    }
}

/// Every step keeps the counts within their bounds, and asks for what it then waits for.
pub proof fn sync_stays_sound(s: SyncView, answer: SyncAnswerView)
    requires
        sync_sound(s),
        sync_awaits(s.phase, answer),
    ensures
        sync_sound(sync_next(s, answer).0),
        sync_suits(sync_next(s, answer).0.phase, sync_next(s, answer).1),
{
    let ledger = s.ledger;
    let next = sync_next(s, answer);
    match s.phase {
        SyncPhaseView::Nodes => {
            if let SyncAnswerView::Reply(AnswerView::Value(v)) = answer {
                if let Some(nodes) = node_list(v) {
                    next_machine_is_sound(LedgerView { nodes_left: nodes, ..ledger });
                }
            }
        },
        SyncPhaseView::VmList { node } => {
            next_machine_is_sound(ledger);
        },
        SyncPhaseView::VmConfig { node, rest, vm } => {
            next_machine_is_sound(counted_vm(ledger, node, vm, false));
        },
        SyncPhaseView::VmPing { node, rest, vm } => {
            next_machine_is_sound(counted_vm(ledger, node, vm, false));
            next_machine_is_sound(counted_vm(ledger, node, vm, true));
        },
        SyncPhaseView::Deleting => {
            next_machine_is_sound(laid_aside(ledger));
            next_machine_is_sound(laid_aside(LedgerView { pruned: ledger.pruned + 1, ..ledger }));
        },
        SyncPhaseView::SettingStatus => {
            next_machine_is_sound(laid_aside(ledger));
            next_machine_is_sound(
                laid_aside(LedgerView { statuses: ledger.statuses + 1, ..ledger }),
            );
        },
        SyncPhaseView::Interfaces => {
            next_machine_is_sound(laid_aside(ledger));
        },
        SyncPhaseView::SettingAddress { counted } => {
            next_machine_is_sound(laid_aside(ledger));
            next_machine_is_sound(
                laid_aside(LedgerView { addresses: ledger.addresses + 1, ..ledger }),
            );
        },
        SyncPhaseView::Over => {},
    }
}

/// Why a machine may be deleted: its virtual machine is not in the census, or it is a node that
/// is not.
pub open spec fn has_gone(ledger: LedgerView, m: KnownView) -> bool {
    match m.proxmox_vmid {
        Some(vmid) => forall|i: int|
            0 <= i < ledger.vms.len() ==> (#[trigger] ledger.vms[i]).vmid != vmid,
        None => m.is_proxmox_host && m.proxmox_node is Some && !ledger.node_names.contains(
            m.proxmox_node->0,
        ),
    }
}

proof fn detail_is_found(vms: Seq<VmDetailView>, vmid: u32)
    ensures
        detail_of(vms, vmid) is None <==> forall|i: int|
            0 <= i < vms.len() ==> (#[trigger] vms[i]).vmid != vmid,
    decreases vms.len(),
{
    if vms.len() > 0 {
        detail_is_found(vms.drop_last(), vmid);
        if vms.last().vmid != vmid {
            assert forall|i: int| 0 <= i < vms.len() && detail_of(vms, vmid) is None implies (
            #[trigger] vms[i]).vmid != vmid by {
                if i < vms.len() - 1 {
                    assert(vms.drop_last()[i] == vms[i]);
                }
            }
            if forall|i: int| 0 <= i < vms.len() ==> (#[trigger] vms[i]).vmid != vmid {
                assert forall|i: int| 0 <= i < vms.drop_last().len() implies (
                #[trigger] vms.drop_last()[i]).vmid != vmid by {
                    assert(vms.drop_last()[i] == vms[i]);
                }
            }
        } else {
            assert(vms[vms.len() - 1].vmid == vmid);
        }
    }
}

/// A machine is deleted if and only if it has gone from the cluster: one that exists never is,
/// and nothing is deleted before the census is complete.
pub proof fn only_what_has_gone_is_deleted(ledger: LedgerView, m: KnownView)
    ensures
        (first_need(ledger, m) matches Some((_, action)) && action is Delete) <==> has_gone(
            ledger,
            m,
        ),
        first_need(ledger, m) matches Some((_, SyncActionView::Delete(id))) ==> id == m.id,
{
    if let Some(vmid) = m.proxmox_vmid {
        detail_is_found(ledger.vms, vmid);
    }
}

/// No record is changed or deleted before the census is complete: while nodes or virtual
/// machines are still being asked for, the only other outcome is to stop.
pub proof fn census_changes_nothing(s: SyncView, answer: SyncAnswerView)
    requires
        sync_awaits(s.phase, answer),
        s.phase is Nodes || s.phase is VmList || s.phase is VmConfig || s.phase is VmPing,
    ensures
        ({
            let (next, action) = sync_next(s, answer);
            action is Delete || action is SetStatus
                || action is SetAddress ==> next.ledger.nodes_left.len() == 0
        }),
{
    let ledger = s.ledger;
    match s.phase {
        SyncPhaseView::Nodes => {
            if let SyncAnswerView::Reply(AnswerView::Value(v)) = answer {
                if let Some(nodes) = node_list(v) {
                    next_machine_keeps_nodes(LedgerView { nodes_left: nodes, ..ledger });
                }
            }
        },
        SyncPhaseView::VmList { node } => {
            next_machine_keeps_nodes(ledger);
        },
        SyncPhaseView::VmConfig { node, rest, vm } => {
            next_machine_keeps_nodes(counted_vm(ledger, node, vm, false));
        },
        SyncPhaseView::VmPing { node, rest, vm } => {
            next_machine_keeps_nodes(counted_vm(ledger, node, vm, false));
            next_machine_keeps_nodes(counted_vm(ledger, node, vm, true));
        },
        _ => {},
    }
}

proof fn next_machine_keeps_nodes(ledger: LedgerView)
    ensures
        next_machine(ledger).0.ledger.nodes_left == ledger.nodes_left,
    decreases ledger.machines.len(),
{
    if ledger.machines.len() > 0 && first_need(ledger, ledger.machines[0]) is None {
        next_machine_keeps_nodes(laid_aside(ledger));
    }
}

// ---------------------------------------------------------------------------------------------
// What a synchronisation amounts to
// ---------------------------------------------------------------------------------------------

/// A synchronisation after several answers.
pub open spec fn synced_after(s: SyncView, answers: Seq<SyncAnswerView>) -> SyncView
    decreases answers.len(),
{
    if answers.len() == 0 {
        s
    } else {
        sync_next(synced_after(s, answers.drop_last()), answers.last()).0
    }
}

/// What a synchronisation does on the last of several answers.
pub open spec fn last_action(s: SyncView, answers: Seq<SyncAnswerView>) -> SyncActionView {
    sync_next(synced_after(s, answers.drop_last()), answers.last()).1
}

/// Everything that a synchronisation does on several answers, in order.
pub open spec fn actions_on(s: SyncView, answers: Seq<SyncAnswerView>) -> Seq<SyncActionView>
    decreases answers.len(),
{
    if answers.len() == 0 {
        Seq::empty()
    } else {
        actions_on(s, answers.drop_last()).push(last_action(s, answers))
    }
}

/// Each of the answers is one to what the synchronisation was waiting for.
pub open spec fn are_sync_answers(s: SyncView, answers: Seq<SyncAnswerView>) -> bool
    decreases answers.len(),
{
    answers.len() == 0 || (are_sync_answers(s, answers.drop_last()) && sync_awaits(
        synced_after(s, answers.drop_last()).phase,
        answers.last(),
    ))
}

/// A virtual machine in a list that was read: its number, its node and its state.
pub open spec fn as_listed(node: Seq<char>, vm: VmEntryView) -> (u32, Seq<char>, Seq<char>) {
    (vm.vmid, node, vm.status)
}

/// The virtual machines in the lists that were read, in order.
pub open spec fn vms_in_lists(s: SyncView, answers: Seq<SyncAnswerView>) -> Seq<
    (u32, Seq<char>, Seq<char>),
>
    decreases answers.len(),
{
    if answers.len() == 0 {
        Seq::empty()
    } else {
        let before = vms_in_lists(s, answers.drop_last());
        match (synced_after(s, answers.drop_last()).phase, answers.last()) {
            (SyncPhaseView::VmList { node }, SyncAnswerView::Reply(AnswerView::Value(v))) =>
                match vm_list(v) {
                Some(vms) => before + vms.map_values(|vm: VmEntryView| as_listed(node, vm)),
                None => before,
            },
            _ => before,
        }
    }
}

/// The beginning of a synchronisation of these machines.
pub open spec fn is_beginning(s: SyncView, machines: Seq<KnownView>) -> bool {
    &&& s.phase is Nodes
    &&& s.ledger.machines == machines
    &&& s.ledger.vms.len() == 0
    &&& s.ledger.node_names.len() == 0
}

spec fn in_census(phase: SyncPhaseView) -> bool {
    phase is Nodes || phase is VmList || phase is VmConfig || phase is VmPing
}

spec fn counted(vms: Seq<VmDetailView>) -> Seq<(u32, Seq<char>, Seq<char>)> {
    vms.map_values(|vm: VmDetailView| (vm.vmid, vm.node, vm.status))
}

spec fn to_be_counted(phase: SyncPhaseView) -> Seq<(u32, Seq<char>, Seq<char>)> {
    match phase {
        SyncPhaseView::VmConfig { node, rest, vm } => seq![as_listed(node, vm)] + rest.map_values(
            |vm: VmEntryView| as_listed(node, vm),
        ),
        SyncPhaseView::VmPing { node, rest, vm } => seq![as_listed(node, vm)] + rest.map_values(
            |vm: VmEntryView| as_listed(node, vm),
        ),
        _ => Seq::empty(),
    }
}

spec fn nodes_of(ledger: LedgerView) -> Seq<Option<Seq<char>>> {
    ledger.node_names.map_values(|n: Seq<char>| Some(n)) + ledger.nodes_left
}

/// What does not change once the census is complete.
spec fn same_census(a: LedgerView, b: LedgerView) -> bool {
    &&& a.vms == b.vms
    &&& a.node_names == b.node_names
    &&& a.nodes_left == b.nodes_left
}

proof fn next_machine_passes_over(ledger: LedgerView)
    ensures
        ({
            let (now, action) = next_machine(ledger);
            let n = ledger.machines.len() - now.ledger.machines.len();
            &&& 0 <= n <= ledger.machines.len()
            &&& same_census(now.ledger, ledger)
            &&& now.ledger.machines == ledger.machines.skip(n)
            &&& forall|j: int|
                0 <= j < n ==> first_need(ledger, #[trigger] ledger.machines[j]) is None
            &&& now.ledger.machines.len() == 0 <==> action is Finish
            &&& now.ledger.machines.len() == 0 <==> now.phase is Over
            &&& now.ledger.machines.len() > 0 ==> first_need(ledger, now.ledger.machines[0])
                == Some((now.phase, action)) && !in_census(now.phase) && !(now.phase is Over)
        }),
    decreases ledger.machines.len(),
{
    if ledger.machines.len() == 0 {
        assert(ledger.machines.skip(0) =~= ledger.machines);
    } else {
        match first_need(ledger, ledger.machines[0]) {
            Some(_) => {
                assert(ledger.machines.skip(0) =~= ledger.machines);
            },
            None => {
                let rest = laid_aside(ledger);
                next_machine_passes_over(rest);
                let now = next_machine(rest).0;
                let n = rest.machines.len() - now.ledger.machines.len();
                assert(rest.machines.skip(n) =~= ledger.machines.skip(n + 1));
                assert forall|j: int| 0 <= j < n + 1 implies first_need(
                    ledger,
                    #[trigger] ledger.machines[j],
                ) is None by {
                    if j > 0 {
                        assert(rest.machines[j - 1] == ledger.machines[j]);
                        assert(first_need(rest, rest.machines[j - 1]) is None);
                    }
                }
            },
        }
    }
}

proof fn census_vm_goes_on(ledger: LedgerView, node: Seq<char>, vms: Seq<VmEntryView>)
    ensures
        ({
            let (now, action) = census_vm(ledger, node, vms);
            let all = vms.map_values(|vm: VmEntryView| as_listed(node, vm));
            &&& now.phase is Over && !(action is Finish) || {
                &&& now.ledger.vms == ledger.vms
                &&& to_be_counted(now.phase) == all
                &&& nodes_of(now.ledger) == nodes_of(ledger)
                &&& !in_census(now.phase) ==> now.ledger.nodes_left.len() == 0
            }
            &&& action is Fail ==> now.phase is Over
            &&& action is Finish ==> vms.len() == 0
            &&& !(now.phase is Nodes)
        }),
{
    let all = vms.map_values(|vm: VmEntryView| as_listed(node, vm));
    if vms.len() > 0 {
        let rest = vms.drop_first().map_values(|vm: VmEntryView| as_listed(node, vm));
        assert(all =~= seq![as_listed(node, vms[0])] + rest);
    } else {
        assert(all =~= Seq::empty());
        next_machine_passes_over(ledger);
        census_node_goes_on(ledger);
    }
}

proof fn census_node_goes_on(ledger: LedgerView)
    ensures
        ({
            let (now, action) = census_node(ledger);
            &&& now.phase is Over && !(action is Finish) || {
                &&& now.ledger.vms == ledger.vms
                &&& to_be_counted(now.phase) == Seq::<(u32, Seq<char>, Seq<char>)>::empty()
                &&& nodes_of(now.ledger) == nodes_of(ledger)
                &&& !in_census(now.phase) ==> now.ledger.nodes_left.len() == 0
            }
            &&& action is Fail ==> now.phase is Over
            &&& !(now.phase is Nodes)
        }),
{
    next_machine_passes_over(ledger);
    if ledger.nodes_left.len() > 0 {
        if let Some(node) = ledger.nodes_left[0] {
            let now = census_node(ledger).0.ledger;
            assert(nodes_of(now) =~= nodes_of(ledger));
        }
    }
}

spec fn census_holds(s: SyncView, answers: Seq<SyncAnswerView>, v: JsonView) -> bool {
    let now = synced_after(s, answers);
    &&& counted(now.ledger.vms) + to_be_counted(now.phase) == vms_in_lists(s, answers)
    &&& nodes_of(now.ledger) == node_list(v)->0
    &&& !in_census(now.phase) ==> now.ledger.nodes_left.len() == 0
}

proof fn census_goes_on(s: SyncView, machines: Seq<KnownView>, answers: Seq<SyncAnswerView>, v: JsonView)
    requires
        is_beginning(s, machines),
        answers.len() > 0,
        are_sync_answers(s, answers),
        answers[0] == SyncAnswerView::Reply(AnswerView::Value(v)),
        node_list(v) is Some,
    ensures
        !(last_action(s, answers) is Fail) ==> census_holds(s, answers, v),
        last_action(s, answers) is Fail ==> synced_after(s, answers).phase is Over,
        !(synced_after(s, answers).phase is Nodes),
        synced_after(s, answers).phase is Over <==> last_action(s, answers) is Fail || last_action(
            s,
            answers,
        ) is Finish,
    decreases answers.len(),
{
    let before = answers.drop_last();
    let was = synced_after(s, before);
    let answer = answers.last();
    let (now, action) = sync_next(was, answer);
    let ledger = was.ledger;
    let none = Seq::<(u32, Seq<char>, Seq<char>)>::empty();
    if answers.len() == 1 {
        let all = node_list(v)->0;
        let first = LedgerView { nodes_left: all, ..ledger };
        census_node_goes_on(first);
        next_machine_passes_over(first);
        assert(nodes_of(first) =~= all);
        assert(vms_in_lists(s, before) =~= Seq::empty());
        assert(counted(ledger.vms) + none =~= vms_in_lists(s, answers));
    } else {
        assert(before[0] == answers[0]);
        census_goes_on(s, machines, before, v);
        assert(sync_awaits(was.phase, answer));
        let listed = vms_in_lists(s, before);
        match was.phase {
            SyncPhaseView::VmList { node } => {
                let vms = match answer {
                    SyncAnswerView::Reply(AnswerView::Value(r)) => match vm_list(r) {
                        Some(vms) => vms,
                        None => Seq::empty(),
                    },
                    _ => Seq::empty(),
                };
                census_vm_goes_on(ledger, node, vms);
                census_node_goes_on(ledger);
                next_machine_passes_over(ledger);
                assert(sync_next(was, answer) == census_vm(ledger, node, vms));
                let all = vms.map_values(|vm: VmEntryView| as_listed(node, vm));
                assert(counted(ledger.vms) + none =~= counted(ledger.vms));
                assert(vms_in_lists(s, answers) =~= listed + all);
            },
            SyncPhaseView::VmConfig { node, rest, vm } => {
                count_goes_on(ledger, node, rest, vm, false);
            },
            SyncPhaseView::VmPing { node, rest, vm } => {
                count_goes_on(ledger, node, rest, vm, false);
                count_goes_on(ledger, node, rest, vm, true);
            },
            _ => {
                record_step(was, answer);
                assert(counted(ledger.vms) + none =~= counted(now.ledger.vms) + none);
            },
        }
    }
}

proof fn count_goes_on(
    ledger: LedgerView,
    node: Seq<char>,
    rest: Seq<VmEntryView>,
    vm: VmEntryView,
    alive: bool,
)
    ensures
        ({
            let more = counted_vm(ledger, node, vm, alive);
            let (now, action) = census_vm(more, node, rest);
            let pending = seq![as_listed(node, vm)] + rest.map_values(
                |vm: VmEntryView| as_listed(node, vm),
            );
            &&& now.phase is Over && !(action is Finish) || {
                &&& counted(now.ledger.vms) + to_be_counted(now.phase) == counted(ledger.vms)
                    + pending
                &&& nodes_of(now.ledger) == nodes_of(ledger)
                &&& !in_census(now.phase) ==> now.ledger.nodes_left.len() == 0
            }
            &&& action is Fail ==> now.phase is Over
            &&& now.phase is Over <==> action is Fail || action is Finish
            &&& !(now.phase is Nodes)
        }),
{
    let more = counted_vm(ledger, node, vm, alive);
    census_vm_goes_on(more, node, rest);
    census_node_goes_on(more);
    next_machine_passes_over(more);
    let all = rest.map_values(|vm: VmEntryView| as_listed(node, vm));
    assert(counted(more.vms) =~= counted(ledger.vms).push(as_listed(node, vm)));
    assert(counted(ledger.vms).push(as_listed(node, vm)) + all =~= counted(ledger.vms) + (seq![
        as_listed(node, vm),
    ] + all));
}

/// A step behind the census changes nothing in it.
proof fn record_step(was: SyncView, answer: SyncAnswerView)
    requires
        !in_census(was.phase),
        sync_awaits(was.phase, answer),
    ensures
        same_census(sync_next(was, answer).0.ledger, was.ledger),
        !in_census(sync_next(was, answer).0.phase),
        to_be_counted(sync_next(was, answer).0.phase) == Seq::<
            (u32, Seq<char>, Seq<char>),
        >::empty(),
        !(sync_next(was, answer).1 is Fail),
        sync_next(was, answer).0.phase is Over <==> sync_next(was, answer).1 is Finish,
{
    let ledger = was.ledger;
    next_machine_passes_over(laid_aside(ledger));
    next_machine_passes_over(laid_aside(LedgerView { pruned: ledger.pruned + 1, ..ledger }));
    next_machine_passes_over(laid_aside(LedgerView { statuses: ledger.statuses + 1, ..ledger }));
    next_machine_passes_over(laid_aside(LedgerView { addresses: ledger.addresses + 1, ..ledger }));
}

/// When the census ends every virtual machine in every list that was read is in it, once and in
/// order, each with its own number, node and state; and so is every node of the list of nodes.
pub proof fn census_is_complete(
    s: SyncView,
    machines: Seq<KnownView>,
    answers: Seq<SyncAnswerView>,
    v: JsonView,
)
    requires
        is_beginning(s, machines),
        answers.len() > 0,
        are_sync_answers(s, answers),
        answers[0] == SyncAnswerView::Reply(AnswerView::Value(v)),
        node_list(v) is Some,
        ({
            let phase = synced_after(s, answers).phase;
            phase is Deleting || phase is SettingStatus || phase is Interfaces
                || phase is SettingAddress || last_action(s, answers) is Finish
        }),
    ensures
        ({
            let census = synced_after(s, answers).ledger.vms;
            let listed = vms_in_lists(s, answers);
            &&& census.len() == listed.len()
            &&& forall|i: int|
                0 <= i < census.len() ==> (#[trigger] census[i]).vmid == listed[i].0
                    && census[i].node == listed[i].1 && census[i].status == listed[i].2
        }),
        ({
            let names = synced_after(s, answers).ledger.node_names;
            let nodes = node_list(v)->0;
            &&& names.len() == nodes.len()
            &&& forall|i: int| 0 <= i < names.len() ==> #[trigger] nodes[i] == Some(names[i])
        }),
{
    census_goes_on(s, machines, answers, v);
    let now = synced_after(s, answers);
    let census = now.ledger.vms;
    assert(census_holds(s, answers, v));
    assert(counted(census) + to_be_counted(now.phase) =~= counted(census));
    assert forall|i: int| 0 <= i < census.len() implies (#[trigger] census[i]).vmid
        == vms_in_lists(s, answers)[i].0 && census[i].node == vms_in_lists(s, answers)[i].1
        && census[i].status == vms_in_lists(s, answers)[i].2 by {
        assert(counted(census)[i] == vms_in_lists(s, answers)[i]);
    }
    let names = now.ledger.node_names;
    let nodes = node_list(v)->0;
    assert(nodes_of(now.ledger) =~= names.map_values(|n: Seq<char>| Some(n)));
    assert(!in_census(now.phase));
    assert forall|i: int| 0 <= i < names.len() implies #[trigger] nodes[i] == Some(names[i]) by {
        assert(names.map_values(|n: Seq<char>| Some(n))[i] == nodes[i]);
    }
}

/// A recorded machine is gone: its number is in none of the lists that were read, or it is a host whose
/// node is not in the list of nodes.
pub open spec fn is_gone(
    m: KnownView,
    listed: Seq<(u32, Seq<char>, Seq<char>)>,
    nodes: Seq<Option<Seq<char>>>,
) -> bool {
    match m.proxmox_vmid {
        Some(vmid) => forall|i: int| 0 <= i < listed.len() ==> (#[trigger] listed[i]).0 != vmid,
        None => m.is_proxmox_host && m.proxmox_node is Some && forall|i: int|
            0 <= i < nodes.len() ==> #[trigger] nodes[i] != Some(m.proxmox_node->0),
    }
}

/// The state of a virtual machine in the lists that were read: the last that was read under its number.
pub open spec fn is_state(
    vmid: u32,
    listed: Seq<(u32, Seq<char>, Seq<char>)>,
    state: Seq<char>,
) -> bool {
    exists|i: int|
        0 <= i < listed.len() && (#[trigger] listed[i]).0 == vmid && listed[i].2 == state
            && forall|k: int| i < k < listed.len() ==> (#[trigger] listed[k]).0 != vmid
}

/// The status of a machine whose virtual machine is in a state: ready if it is running, offline if it
/// is stopped.
pub open spec fn status_for(state: Seq<char>) -> StatusView {
    if state == "running"@ {
        StatusView::Ready
    } else if state == "stopped"@ {
        StatusView::Offline
    } else {
        StatusView::ExistingOS
    }
}

spec fn handled(ledger: LedgerView, m: KnownView, actions: Seq<SyncActionView>) -> bool {
    &&& has_gone(ledger, m) ==> actions.contains(SyncActionView::Delete(m.id))
    &&& status_handled(ledger, m, actions)
}

spec fn status_handled(ledger: LedgerView, m: KnownView, actions: Seq<SyncActionView>) -> bool {
    m.proxmox_vmid matches Some(vmid) ==> (detail_of(ledger.vms, vmid) matches Some(vm) ==> m.status
        == vm_status(vm.status) || actions.contains(
        SyncActionView::SetStatus(m.id, vm_status(vm.status)),
    ))
}

spec fn records_hold(s: SyncView, machines: Seq<KnownView>, answers: Seq<SyncAnswerView>) -> bool {
    let now = synced_after(s, answers);
    let actions = actions_on(s, answers);
    let k = machines.len() - now.ledger.machines.len();
    &&& 0 <= k <= machines.len()
    &&& now.ledger.machines == machines.skip(k)
    &&& in_census(now.phase) ==> k == 0
    &&& forall|j: int| 0 <= j < k ==> handled(now.ledger, #[trigger] machines[j], actions)
    &&& now.phase is Deleting ==> k < machines.len() && has_gone(now.ledger, machines[k])
        && actions.contains(SyncActionView::Delete(machines[k].id))
    &&& now.phase is SettingStatus || now.phase is Interfaces || now.phase is SettingAddress ==> k
        < machines.len() && !has_gone(now.ledger, machines[k]) && status_handled(
        now.ledger,
        machines[k],
        actions,
    ) && machines[k].proxmox_vmid is Some
}

proof fn need_is_handled(ledger: LedgerView, m: KnownView, actions: Seq<SyncActionView>)
    ensures
        first_need(ledger, m) is None ==> handled(ledger, m, actions),
        first_need(ledger, m) matches Some((phase, action)) ==> {
            &&& actions.contains(action) && phase is Deleting ==> has_gone(ledger, m)
                && actions.contains(SyncActionView::Delete(m.id))
            &&& actions.contains(action) && !(phase is Deleting) ==> !has_gone(ledger, m)
                && status_handled(ledger, m, actions) && m.proxmox_vmid is Some
            &&& phase is Deleting || phase is SettingStatus || phase is Interfaces
        },
{
    only_what_has_gone_is_deleted(ledger, m);
    if let Some(vmid) = m.proxmox_vmid {
        detail_is_found(ledger.vms, vmid);
    }
}

proof fn more_actions_are_fine(
    ledger: LedgerView,
    m: KnownView,
    actions: Seq<SyncActionView>,
    action: SyncActionView,
)
    ensures
        handled(ledger, m, actions) ==> handled(ledger, m, actions.push(action)),
        status_handled(ledger, m, actions) ==> status_handled(ledger, m, actions.push(action)),
        actions.contains(SyncActionView::Delete(m.id)) ==> actions.push(action).contains(
            SyncActionView::Delete(m.id),
        ),
        actions.push(action).contains(action),
{
    let more = actions.push(action);
    assert(more[actions.len() as int] == action);
    assert forall|a: SyncActionView| actions.contains(a) implies #[trigger] more.contains(a) by {
        let i = actions.index_of(a);
        assert(more[i] == a);
    }
}

/// On to the next machine: those that are passed over need nothing.
proof fn machines_go_on(
    machines: Seq<KnownView>,
    ledger: LedgerView,
    k: int,
    actions: Seq<SyncActionView>,
)
    requires
        0 <= k <= machines.len(),
        ledger.machines == machines.skip(k),
        forall|j: int| 0 <= j < k ==> handled(ledger, #[trigger] machines[j], actions),
    ensures
        ({
            let (now, action) = next_machine(ledger);
            let more = actions.push(action);
            let n = machines.len() - now.ledger.machines.len();
            &&& k <= n <= machines.len()
            &&& now.ledger.machines == machines.skip(n)
            &&& same_census(now.ledger, ledger)
            &&& !in_census(now.phase)
            &&& forall|j: int| 0 <= j < n ==> handled(now.ledger, #[trigger] machines[j], more)
            &&& now.phase is Deleting ==> n < machines.len() && has_gone(now.ledger, machines[n])
                && more.contains(SyncActionView::Delete(machines[n].id))
            &&& now.phase is SettingStatus || now.phase is Interfaces || now.phase is SettingAddress
                ==> n < machines.len() && !has_gone(now.ledger, machines[n]) && status_handled(
                now.ledger,
                machines[n],
                more,
            ) && machines[n].proxmox_vmid is Some
        }),
{
    next_machine_passes_over(ledger);
    let (now, action) = next_machine(ledger);
    let more = actions.push(action);
    let n = machines.len() - now.ledger.machines.len();
    assert(now.ledger.machines =~= machines.skip(n));
    assert forall|j: int| 0 <= j < n implies handled(now.ledger, #[trigger] machines[j], more) by {
        more_actions_are_fine(ledger, machines[j], actions, action);
        if j < k {
            assert(handled(ledger, machines[j], actions));
        } else {
            assert(ledger.machines[j - k] == machines[j]);
            assert(first_need(ledger, ledger.machines[j - k]) is None);
            need_is_handled(ledger, machines[j], more);
        }
    }
    if n < machines.len() {
        assert(now.ledger.machines[0] == machines[n]);
        more_actions_are_fine(ledger, machines[n], actions, action);
        need_is_handled(ledger, machines[n], more);
    }
}

proof fn records_go_on(s: SyncView, machines: Seq<KnownView>, answers: Seq<SyncAnswerView>)
    requires
        is_beginning(s, machines),
        are_sync_answers(s, answers),
    ensures
        records_hold(s, machines, answers) || (answers.len() > 0 && last_action(
            s,
            answers,
        ) is Fail),
        answers.len() > 0 && last_action(s, answers) is Fail ==> synced_after(s, answers).phase is Over,
    decreases answers.len(),
{
    if answers.len() == 0 {
        assert(machines.skip(0) =~= machines);
    } else {
        let before = answers.drop_last();
        let was = synced_after(s, before);
        let answer = answers.last();
        let (now, action) = sync_next(was, answer);
        let actions = actions_on(s, before);
        let ledger = was.ledger;
        records_go_on(s, machines, before);
        assert(sync_awaits(was.phase, answer));
        let k = machines.len() - ledger.machines.len();
        assert(machines.skip(0) =~= machines);
        assert forall|j: int| 0 <= j < k implies handled(
            ledger,
            #[trigger] machines[j],
            actions.push(action),
        ) by {
            assert(handled(ledger, machines[j], actions));
            more_actions_are_fine(ledger, machines[j], actions, action);
        }
        if in_census(was.phase) {
            census_step(was, answer);
            if !in_census(now.phase) && !(action is Fail) {
                let from = choose|from: LedgerView| #[trigger]
                    next_machine(from) == (now, action) && from.machines == ledger.machines;
                machines_go_on(machines, from, 0, actions);
            }
        } else {
            let m = machines[k];
            assert(k < machines.len());
            assert(ledger.machines[0] == m);
            more_actions_are_fine(ledger, m, actions, action);
            assert(ledger.machines.drop_first() =~= machines.skip(k + 1));
            let done = answer == SyncAnswerView::Done(true);
            match was.phase {
                SyncPhaseView::Deleting => {
                    if let Some(vmid) = m.proxmox_vmid {
                        detail_is_found(ledger.vms, vmid);
                    }
                    let l = laid_aside(
                        LedgerView {
                            pruned: ledger.pruned + if done { 1nat } else { 0nat },
                            ..ledger
                        },
                    );
                    laid_aside_goes_on(machines, ledger, l, k, actions);
                },
                SyncPhaseView::SettingStatus => {
                    let l = LedgerView {
                        statuses: ledger.statuses + if done { 1nat } else { 0nat },
                        ..ledger
                    };
                    laid_aside_goes_on(machines, ledger, laid_aside(l), k, actions);
                },
                SyncPhaseView::SettingAddress { counted } => {
                    let l = laid_aside(
                        LedgerView {
                            addresses: ledger.addresses + if done && counted { 1nat } else { 0nat },
                            ..ledger
                        },
                    );
                    laid_aside_goes_on(machines, ledger, l, k, actions);
                },
                _ => {
                    laid_aside_goes_on(machines, ledger, laid_aside(ledger), k, actions);
                },
            }
        }
    }
}

proof fn laid_aside_goes_on(
    machines: Seq<KnownView>,
    ledger: LedgerView,
    aside: LedgerView,
    k: int,
    actions: Seq<SyncActionView>,
)
    requires
        0 <= k < machines.len(),
        same_census(aside, ledger),
        aside.machines == machines.skip(k + 1),
        forall|j: int| 0 <= j < k ==> handled(ledger, #[trigger] machines[j], actions),
        handled(ledger, machines[k], actions),
    ensures
        ({
            let (now, action) = next_machine(aside);
            let more = actions.push(action);
            let n = machines.len() - now.ledger.machines.len();
            &&& k < n <= machines.len()
            &&& now.ledger.machines == machines.skip(n)
            &&& !in_census(now.phase)
            &&& forall|j: int| 0 <= j < n ==> handled(now.ledger, #[trigger] machines[j], more)
            &&& now.phase is Deleting ==> n < machines.len() && has_gone(now.ledger, machines[n])
                && more.contains(SyncActionView::Delete(machines[n].id))
            &&& now.phase is SettingStatus || now.phase is Interfaces || now.phase is SettingAddress
                ==> n < machines.len() && !has_gone(now.ledger, machines[n]) && status_handled(
                now.ledger,
                machines[n],
                more,
            ) && machines[n].proxmox_vmid is Some
            &&& !(action is Fail)
        }),
{
    assert forall|j: int| 0 <= j < k + 1 implies handled(aside, #[trigger] machines[j], actions) by {
        assert(handled(ledger, machines[j], actions));
    }
    machines_go_on(machines, aside, k + 1, actions);
    next_machine_passes_over(aside);
    next_machine_acts(aside);
}

proof fn next_machine_acts(ledger: LedgerView)
    ensures
        !(next_machine(ledger).1 is Fail),
    decreases ledger.machines.len(),
{
    if ledger.machines.len() > 0 && first_need(ledger, ledger.machines[0]) is None {
        next_machine_acts(laid_aside(ledger));
    }
}

/// A step of the census leaves the recorded machines alone, or ends it and goes on to them.
proof fn census_step(was: SyncView, answer: SyncAnswerView)
    requires
        in_census(was.phase),
        sync_awaits(was.phase, answer),
    ensures
        ({
            let (now, action) = sync_next(was, answer);
            &&& in_census(now.phase) ==> now.ledger.machines == was.ledger.machines
            &&& !in_census(now.phase) && !(action is Fail) ==> exists|from: LedgerView| #[trigger]
                next_machine(from) == (now, action) && from.machines == was.ledger.machines
            &&& action is Fail ==> now.phase is Over
        }),
{
    let ledger = was.ledger;
    let (now, action) = sync_next(was, answer);
    next_machine_passes_over(ledger);
    match was.phase {
        SyncPhaseView::Nodes => {
            if let SyncAnswerView::Reply(AnswerView::Value(v)) = answer {
                if let Some(nodes) = node_list(v) {
                    let from = LedgerView { nodes_left: nodes, ..ledger };
                    next_machine_passes_over(from);
                    next_machine_acts(from);
                    assert(next_machine(from) == next_machine(from));
                }
            }
        },
        SyncPhaseView::VmList { node } => {
            next_machine_acts(ledger);
            assert(next_machine(ledger) == next_machine(ledger));
        },
        SyncPhaseView::VmConfig { node, rest, vm } => {
            let from = counted_vm(ledger, node, vm, false);
            next_machine_passes_over(from);
            next_machine_acts(from);
            assert(next_machine(from) == next_machine(from));
        },
        SyncPhaseView::VmPing { node, rest, vm } => {
            let a = counted_vm(ledger, node, vm, false);
            let b = counted_vm(ledger, node, vm, true);
            next_machine_passes_over(a);
            next_machine_passes_over(b);
            next_machine_acts(a);
            next_machine_acts(b);
            assert(next_machine(a) == next_machine(a));
            assert(next_machine(b) == next_machine(b));
        },
        _ => {},
    }
}

proof fn gone_as_listed(
    ledger: LedgerView,
    m: KnownView,
    listed: Seq<(u32, Seq<char>, Seq<char>)>,
    nodes: Seq<Option<Seq<char>>>,
)
    requires
        ledger.vms.len() == listed.len(),
        forall|i: int|
            0 <= i < ledger.vms.len() ==> (#[trigger] ledger.vms[i]).vmid == listed[i].0
                && ledger.vms[i].status == listed[i].2,
        ledger.node_names.len() == nodes.len(),
        forall|i: int|
            0 <= i < nodes.len() ==> #[trigger] nodes[i] == Some(ledger.node_names[i]),
    ensures
        has_gone(ledger, m) <==> is_gone(m, listed, nodes),
{
    if let Some(vmid) = m.proxmox_vmid {
        if has_gone(ledger, m) {
            assert forall|i: int| 0 <= i < listed.len() implies (#[trigger] listed[i]).0 != vmid by {
                assert(ledger.vms[i].vmid != vmid);
            }
        }
        if is_gone(m, listed, nodes) {
            assert forall|i: int| 0 <= i < ledger.vms.len() implies (#[trigger] ledger.vms[i]).vmid
                != vmid by {
                assert(listed[i].0 != vmid);
            }
        }
    } else if m.proxmox_node is Some {
        let node = m.proxmox_node->0;
        if ledger.node_names.contains(node) {
            let i = ledger.node_names.index_of(node);
            assert(nodes[i] == Some(node));
        }
        if exists|i: int| 0 <= i < nodes.len() && #[trigger] nodes[i] == Some(node) {
            let i = choose|i: int| 0 <= i < nodes.len() && #[trigger] nodes[i] == Some(node);
            assert(ledger.node_names[i] == node);
        }
    }
}

proof fn detail_as_listed(
    vms: Seq<VmDetailView>,
    vmid: u32,
    listed: Seq<(u32, Seq<char>, Seq<char>)>,
    state: Seq<char>,
)
    requires
        vms.len() == listed.len(),
        forall|i: int|
            0 <= i < vms.len() ==> (#[trigger] vms[i]).vmid == listed[i].0 && vms[i].status
                == listed[i].2,
    ensures
        is_state(vmid, listed, state) <==> (detail_of(vms, vmid) matches Some(vm) && vm.status
            == state),
    decreases vms.len(),
{
    if vms.len() > 0 {
        let n = vms.len() - 1;
        let less = listed.drop_last();
        assert forall|i: int| 0 <= i < n implies (#[trigger] vms.drop_last()[i]).vmid == less[i].0
            && vms.drop_last()[i].status == less[i].2 by {
            assert(vms.drop_last()[i] == vms[i] && less[i] == listed[i]);
        }
        detail_as_listed(vms.drop_last(), vmid, less, state);
        assert(vms[n].vmid == listed[n].0);
        if vms[n].vmid == vmid {
            if is_state(vmid, listed, state) {
                let i = choose|i: int|
                    0 <= i < listed.len() && (#[trigger] listed[i]).0 == vmid && listed[i].2
                        == state && forall|k: int|
                        i < k < listed.len() ==> (#[trigger] listed[k]).0 != vmid;
                assert(i == n) by {
                    if i < n {
                        assert(listed[n].0 != vmid);
                    }
                }
            }
        } else {
            if is_state(vmid, listed, state) {
                let i = choose|i: int|
                    0 <= i < listed.len() && (#[trigger] listed[i]).0 == vmid && listed[i].2
                        == state && forall|k: int|
                        i < k < listed.len() ==> (#[trigger] listed[k]).0 != vmid;
                assert(less[i] == listed[i]);
                assert forall|k: int| i < k < less.len() implies (#[trigger] less[k]).0 != vmid by {
                    assert(listed[k].0 != vmid);
                }
                assert(is_state(vmid, less, state));
            }
            if is_state(vmid, less, state) {
                let i = choose|i: int|
                    0 <= i < less.len() && (#[trigger] less[i]).0 == vmid && less[i].2 == state
                        && forall|k: int| i < k < less.len() ==> (#[trigger] less[k]).0 != vmid;
                assert(listed[i] == less[i]);
                assert forall|k: int| i < k < listed.len() implies (#[trigger] listed[k]).0
                    != vmid by {
                    if k < n {
                        assert(less[k].0 != vmid);
                    }
                }
            }
        }
    }
}

/// A synchronisation deletes the record of a machine only if that machine is gone, and sets a status
/// only to the one that the state of its virtual machine calls for and that the record does not have.
pub proof fn records_are_changed_for_a_reason(
    s: SyncView,
    machines: Seq<KnownView>,
    answers: Seq<SyncAnswerView>,
    v: JsonView,
)
    requires
        is_beginning(s, machines),
        answers.len() > 0,
        are_sync_answers(s, answers),
        answers[0] == SyncAnswerView::Reply(AnswerView::Value(v)),
        node_list(v) is Some,
    ensures
        last_action(s, answers) matches SyncActionView::Delete(id) ==> exists|j: int|
            0 <= j < machines.len() && (#[trigger] machines[j]).id == id && is_gone(
                machines[j],
                vms_in_lists(s, answers),
                node_list(v)->0,
            ),
        last_action(s, answers) matches SyncActionView::SetStatus(id, status) ==> exists|
            j: int,
            state: Seq<char>,
        |
            0 <= j < machines.len() && (#[trigger] machines[j]).id == id
                && machines[j].proxmox_vmid is Some && #[trigger] is_state(
                machines[j].proxmox_vmid->0,
                vms_in_lists(s, answers),
                state,
            ) && status == status_for(state) && machines[j].status != status,
{
    records_go_on(s, machines, answers);
    census_goes_on(s, machines, answers, v);
    let now = synced_after(s, answers);
    let action = last_action(s, answers);
    let was = synced_after(s, answers.drop_last());
    let listed = vms_in_lists(s, answers);
    let nodes = node_list(v)->0;
    records_go_on(s, machines, answers.drop_last());
    assert(sync_awaits(was.phase, answers.last()));
    acting_phase(was, answers.last());
    if action is Delete || action is SetStatus {
        census_is_complete(s, machines, answers, v);
        let k = machines.len() - now.ledger.machines.len();
        let m = machines[k];
        assert(now.ledger.machines[0] == m);
        gone_as_listed(now.ledger, m, listed, nodes);
        if action is SetStatus {
            let vmid = m.proxmox_vmid->0;
            let vm = detail_of(now.ledger.vms, vmid)->0;
            detail_as_listed(now.ledger.vms, vmid, listed, vm.status);
            assert(is_state(vmid, listed, vm.status));
        }
    }
}

/// What a step that changes a record is about: the machine at hand.
proof fn acting_phase(was: SyncView, answer: SyncAnswerView)
    requires
        sync_awaits(was.phase, answer),
        !in_census(was.phase) ==> was.ledger.machines.len() > 0,
    ensures
        ({
            let (now, action) = sync_next(was, answer);
            &&& action matches SyncActionView::Delete(id) ==> now.phase is Deleting
                && now.ledger.machines.len() > 0 && id == now.ledger.machines[0].id
            &&& action matches SyncActionView::SetStatus(id, status) ==> now.phase is SettingStatus
                && now.ledger.machines.len() > 0 && id == now.ledger.machines[0].id
                && now.ledger.machines[0].proxmox_vmid is Some && (detail_of(
                now.ledger.vms,
                now.ledger.machines[0].proxmox_vmid->0,
            ) matches Some(vm) && status == vm_status(vm.status)
                && now.ledger.machines[0].status != status)
        }),
{
    let ledger = was.ledger;
    if in_census(was.phase) {
        census_step(was, answer);
        let (now, action) = sync_next(was, answer);
        if !in_census(now.phase) && !(action is Fail) {
            let from = choose|from: LedgerView| #[trigger]
                next_machine(from) == (now, action) && from.machines == ledger.machines;
            next_machine_passes_over(from);
        }
        census_asks(was, answer);
    } else {
        next_machine_passes_over(laid_aside(ledger));
        next_machine_passes_over(laid_aside(LedgerView { pruned: ledger.pruned + 1, ..ledger }));
        next_machine_passes_over(
            laid_aside(LedgerView { statuses: ledger.statuses + 1, ..ledger }),
        );
        next_machine_passes_over(
            laid_aside(LedgerView { addresses: ledger.addresses + 1, ..ledger }),
        );
    }
}

proof fn census_asks(was: SyncView, answer: SyncAnswerView)
    requires
        in_census(was.phase),
        sync_awaits(was.phase, answer),
    ensures
        in_census(sync_next(was, answer).0.phase) ==> sync_next(was, answer).1 is Fetch,
{
    let ledger = was.ledger;
    next_machine_passes_over(ledger);
    if let SyncAnswerView::Reply(AnswerView::Value(v)) = answer {
        if let Some(nodes) = node_list(v) {
            next_machine_passes_over(LedgerView { nodes_left: nodes, ..ledger });
        }
    }
    match was.phase {
        SyncPhaseView::VmConfig { node, rest, vm } => {
            next_machine_passes_over(counted_vm(ledger, node, vm, false));
        },
        SyncPhaseView::VmPing { node, rest, vm } => {
            next_machine_passes_over(counted_vm(ledger, node, vm, false));
            next_machine_passes_over(counted_vm(ledger, node, vm, true));
        },
        _ => {},
    }
}

/// A synchronisation that finishes has deleted the record of every machine that is gone, and has given
/// every other one the status that the state of its virtual machine calls for.
pub proof fn every_record_is_brought_up_to_date(
    s: SyncView,
    machines: Seq<KnownView>,
    answers: Seq<SyncAnswerView>,
    v: JsonView,
    j: int,
    state: Seq<char>,
)
    requires
        is_beginning(s, machines),
        answers.len() > 0,
        are_sync_answers(s, answers),
        answers[0] == SyncAnswerView::Reply(AnswerView::Value(v)),
        node_list(v) is Some,
        last_action(s, answers) is Finish,
        0 <= j < machines.len(),
    ensures
        is_gone(machines[j], vms_in_lists(s, answers), node_list(v)->0) ==> actions_on(
            s,
            answers,
        ).contains(SyncActionView::Delete(machines[j].id)),
        machines[j].proxmox_vmid matches Some(vmid) ==> (is_state(
            vmid,
            vms_in_lists(s, answers),
            state,
        ) && machines[j].status != status_for(state) ==> actions_on(s, answers).contains(
            SyncActionView::SetStatus(machines[j].id, status_for(state)),
        )),
{
    records_go_on(s, machines, answers);
    census_is_complete(s, machines, answers, v);
    census_goes_on(s, machines, answers, v);
    let now = synced_after(s, answers);
    let listed = vms_in_lists(s, answers);
    finished_with_none(synced_after(s, answers.drop_last()), answers.last());
    assert(handled(now.ledger, machines[j], actions_on(s, answers)));
    gone_as_listed(now.ledger, machines[j], listed, node_list(v)->0);
    if let Some(vmid) = machines[j].proxmox_vmid {
        detail_as_listed(now.ledger.vms, vmid, listed, state);
    }
}

proof fn finished_with_none(was: SyncView, answer: SyncAnswerView)
    requires
        sync_awaits(was.phase, answer),
        sync_next(was, answer).1 is Finish,
    ensures
        sync_next(was, answer).0.ledger.machines.len() == 0,
{
    let ledger = was.ledger;
    if in_census(was.phase) {
        census_step(was, answer);
        census_asks(was, answer);
        let (now, action) = sync_next(was, answer);
        let from = choose|from: LedgerView| #[trigger]
            next_machine(from) == (now, action) && from.machines == ledger.machines;
        next_machine_passes_over(from);
    } else {
        next_machine_passes_over(laid_aside(ledger));
        next_machine_passes_over(laid_aside(LedgerView { pruned: ledger.pruned + 1, ..ledger }));
        next_machine_passes_over(
            laid_aside(LedgerView { statuses: ledger.statuses + 1, ..ledger }),
        );
        next_machine_passes_over(
            laid_aside(LedgerView { addresses: ledger.addresses + 1, ..ledger }),
        );
    }
}

/// What was done is counted: a deletion, a status and an address each once, where it succeeded; an
/// address only where one was found.
pub proof fn changes_are_counted_once(s: SyncView, answer: SyncAnswerView)
    requires
        sync_awaits(s.phase, answer),
    ensures
        ({
            let was = s.ledger;
            let now = sync_next(s, answer).0.ledger;
            let done = answer == SyncAnswerView::Done(true);
            &&& now.pruned == was.pruned + (if done && s.phase is Deleting {
                1int
            } else {
                0
            })
            &&& now.statuses == was.statuses + (if done && s.phase is SettingStatus {
                1int
            } else {
                0
            })
            &&& now.addresses == was.addresses + (if done && s.phase
                == (SyncPhaseView::SettingAddress { counted: true }) {
                1int
            } else {
                0
            })
        }),
{
    let ledger = s.ledger;
    next_machine_keeps_counts(ledger);
    next_machine_keeps_counts(laid_aside(ledger));
    next_machine_keeps_counts(laid_aside(LedgerView { pruned: ledger.pruned + 1, ..ledger }));
    next_machine_keeps_counts(laid_aside(LedgerView { statuses: ledger.statuses + 1, ..ledger }));
    next_machine_keeps_counts(laid_aside(LedgerView { addresses: ledger.addresses + 1, ..ledger }));
    if let SyncAnswerView::Reply(AnswerView::Value(v)) = answer {
        if let Some(nodes) = node_list(v) {
            next_machine_keeps_counts(LedgerView { nodes_left: nodes, ..ledger });
        }
    }
    match s.phase {
        SyncPhaseView::VmConfig { node, rest, vm } => {
            next_machine_keeps_counts(counted_vm(ledger, node, vm, false));
        },
        SyncPhaseView::VmPing { node, rest, vm } => {
            next_machine_keeps_counts(counted_vm(ledger, node, vm, false));
            next_machine_keeps_counts(counted_vm(ledger, node, vm, true));
        },
        _ => {},
    }
}

proof fn next_machine_keeps_counts(ledger: LedgerView)
    ensures
        next_machine(ledger).0.ledger.pruned == ledger.pruned,
        next_machine(ledger).0.ledger.statuses == ledger.statuses,
        next_machine(ledger).0.ledger.addresses == ledger.addresses,
        next_machine(ledger).1 matches SyncActionView::Finish { pruned, addresses, statuses }
            ==> pruned == ledger.pruned && addresses == ledger.addresses && statuses
            == ledger.statuses,
    decreases ledger.machines.len(),
{
    if ledger.machines.len() > 0 && first_need(ledger, ledger.machines[0]) is None {
        next_machine_keeps_counts(laid_aside(ledger));
    }
}

/// The address that the guest agent reports is recorded where it differs from the one on record; a
/// guest without a usable one is recorded as unknown. Where nothing was reported the record stays.
pub proof fn reported_address_is_set(s: SyncView, answer: SyncAnswerView, ip: Seq<char>)
    requires
        s.phase is Interfaces,
        s.ledger.machines.len() > 0,
        sync_awaits(s.phase, answer),
    ensures
        ({
            let m = s.ledger.machines[0];
            let (now, action) = sync_next(s, answer);
            &&& answer matches SyncAnswerView::Reply(AnswerView::Value(v)) ==> {
                &&& guest_ip(v) == Some(Some(ip)) && ip != m.ip_address ==> action
                    == SyncActionView::SetAddress(m.id, ip) && now.phase
                    == (SyncPhaseView::SettingAddress { counted: true })
                &&& guest_ip(v) == Some(None::<Seq<char>>) && m.ip_address != "Unknown"@ ==> action
                    == SyncActionView::SetAddress(m.id, "Unknown"@) && now.phase
                    == (SyncPhaseView::SettingAddress { counted: false })
                &&& guest_ip(v) == Some(Some(m.ip_address)) ==> !(action is SetAddress)
            }
            &&& !(answer matches SyncAnswerView::Reply(AnswerView::Value(v)) && guest_ip(v) is Some)
                ==> !(action is SetAddress)
        }),
{
    next_machine_is_sound_actions(laid_aside(s.ledger));
}

proof fn next_machine_is_sound_actions(ledger: LedgerView)
    ensures
        !(next_machine(ledger).1 is SetAddress),
    decreases ledger.machines.len(),
{
    if ledger.machines.len() > 0 && first_need(ledger, ledger.machines[0]) is None {
        next_machine_is_sound_actions(laid_aside(ledger));
    }
}

/// What is fetched is what the synchronisation then waits for.
pub proof fn sync_fetches_what_it_waits_for(s: SyncView, answer: SyncAnswerView)
    requires
        in_the_census(s.phase),
        sync_awaits(s.phase, answer),
    ensures
        sync_next(s, answer).1 matches SyncActionView::Fetch(path) ==> match sync_next(
            s,
            answer,
        ).0.phase {
            SyncPhaseView::VmList { node } => path == "/api2/json/nodes/"@ + node + "/qemu"@,
            SyncPhaseView::VmConfig { node, vm, .. } => path == "/api2/json/nodes/"@ + node
                + "/qemu/"@ + decimal(vm.vmid as nat) + "/config"@,
            SyncPhaseView::VmPing { node, vm, .. } => path == "/api2/json/nodes/"@ + node
                + "/qemu/"@ + decimal(vm.vmid as nat) + "/agent/ping"@,
            SyncPhaseView::Interfaces => true,
            _ => false,
        },
        s.phase matches SyncPhaseView::VmConfig { node, rest, vm } ==> (sync_next(
            s,
            answer,
        ).0.phase is VmPing <==> vm.status == "running"@ && (answer matches SyncAnswerView::Reply(
            AnswerView::Value(v),
        ) && (v.field("data"@) matches Some(config) && agent_enabled(config)))),
{
    let ledger = s.ledger;
    next_machine_passes_over(ledger);
    if let SyncAnswerView::Reply(AnswerView::Value(v)) = answer {
        if let Some(nodes) = node_list(v) {
            next_machine_passes_over(LedgerView { nodes_left: nodes, ..ledger });
        }
    }
    match s.phase {
        SyncPhaseView::VmConfig { node, rest, vm } => {
            next_machine_passes_over(counted_vm(ledger, node, vm, false));
        },
        SyncPhaseView::VmPing { node, rest, vm } => {
            next_machine_passes_over(counted_vm(ledger, node, vm, false));
            next_machine_passes_over(counted_vm(ledger, node, vm, true));
        },
        _ => {},
    }
}

/// The census is being taken.
pub open spec fn in_the_census(phase: SyncPhaseView) -> bool {
    phase is Nodes || phase is VmList || phase is VmConfig || phase is VmPing
}

/// The guest of a running virtual machine with an agent at work is asked for its addresses, and that
/// of no other.
pub proof fn running_guests_are_asked(vm: VmDetailView)
    ensures
        address_need(vm) is Some <==> vm.status == "running"@ && vm.agent_running,
        address_need(vm) matches Some((phase, action)) ==> phase is Interfaces && action
            == SyncActionView::Fetch(
            "/api2/json/nodes/"@ + vm.node + "/qemu/"@ + decimal(vm.vmid as nat)
                + "/agent/network-get-interfaces"@,
        ),
{
}

/// The machines that a synchronisation looks at are those on Proxmox: virtual machines and hosts.
pub proof fn machines_on_proxmox(m: KnownView)
    ensures
        on_proxmox(m) <==> m.proxmox_vmid is Some || m.is_proxmox_host,
{
}

} // verus!
