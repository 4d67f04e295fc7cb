//! Machines: what is known of them, and what they report.

use vstd::prelude::*;

use crate::json::{Json, JsonView, json_of_text, parse_json};
use crate::text::{
    begins, chars_of, is_part, only_the_prefix_is_peeled, peeled, same, stand_together, starts_with,
    trim_prefix,
};

verus! {

/// Where a machine stands in its life.
#[derive(Clone, Debug, PartialEq, Eq)]
pub enum MachineStatus {
    AwaitingAssignment,
    ExistingOS,
    InstallingOS,
    Ready,
    Offline,
    Error(String),
}

/// A status as a mathematical value.
pub enum StatusView {
    AwaitingAssignment,
    ExistingOS,
    InstallingOS,
    Ready,
    Offline,
    Error(Seq<char>),
}

impl DeepView for MachineStatus {
    type V = StatusView;

    open spec fn deep_view(&self) -> StatusView {
        match self {
            MachineStatus::AwaitingAssignment => StatusView::AwaitingAssignment,
            MachineStatus::ExistingOS => StatusView::ExistingOS,
            MachineStatus::InstallingOS => StatusView::InstallingOS,
            MachineStatus::Ready => StatusView::Ready,
            MachineStatus::Offline => StatusView::Offline,
            MachineStatus::Error(m) => StatusView::Error(m@),
        }
    }
}

impl MachineStatus {
    /// The two statuses are one and the same.
    pub fn is_same(&self, other: &MachineStatus) -> (r: bool)
        ensures
            r == (self.deep_view() == other.deep_view()),
    {
        match (self, other) {
            (MachineStatus::AwaitingAssignment, MachineStatus::AwaitingAssignment) => true,
            (MachineStatus::ExistingOS, MachineStatus::ExistingOS) => true,
            (MachineStatus::InstallingOS, MachineStatus::InstallingOS) => true,
            (MachineStatus::Ready, MachineStatus::Ready) => true,
            (MachineStatus::Offline, MachineStatus::Offline) => true,
            (MachineStatus::Error(a), MachineStatus::Error(b)) => same(a.as_str(), b.as_str()),
            _ => false,
        }
    }
}

/// A disk of a machine.
#[derive(Clone, Debug, PartialEq, Eq)]
pub struct DiskInfo {
    pub device: String,
    pub size_bytes: u64,
    pub model: Option<String>,
    pub calculated_size: Option<String>,
}

/// A disk as a mathematical value.
pub struct DiskView {
    pub device: Seq<char>,
    pub size_bytes: u64,
    pub model: Option<Seq<char>>,
    pub calculated_size: Option<Seq<char>>,
}

impl DeepView for DiskInfo {
    type V = DiskView;

    open spec fn deep_view(&self) -> DiskView {
        DiskView {
            device: self.device@,
            size_bytes: self.size_bytes,
            model: self.model.deep_view(),
            calculated_size: self.calculated_size.deep_view(),
        }
    }
}

/// What a machine, or a scan that found it, asks to be recorded.
#[derive(Clone, Debug, PartialEq, Eq)]
pub struct RegisterRequest {
    pub mac_address: String,
    pub ip_address: String,
    pub hostname: Option<String>,
    pub disks: Vec<DiskInfo>,
    pub nameservers: Vec<String>,
    pub cpu_model: Option<String>,
    pub cpu_cores: Option<u32>,
    pub total_ram_bytes: Option<u64>,
    pub proxmox_vmid: Option<u32>,
    pub proxmox_node: Option<String>,
    pub proxmox_cluster: Option<String>,
}

/// A request as a mathematical value.
pub struct RegisterView {
    pub mac_address: Seq<char>,
    pub ip_address: Seq<char>,
    pub hostname: Option<Seq<char>>,
    pub disks: Seq<DiskView>,
    pub nameservers: Seq<Seq<char>>,
    pub cpu_model: Option<Seq<char>>,
    pub cpu_cores: Option<u32>,
    pub total_ram_bytes: Option<u64>,
    pub proxmox_vmid: Option<u32>,
    pub proxmox_node: Option<Seq<char>>,
    pub proxmox_cluster: Option<Seq<char>>,
}

impl DeepView for RegisterRequest {
    type V = RegisterView;

    open spec fn deep_view(&self) -> RegisterView {
        RegisterView {
            mac_address: self.mac_address@,
            ip_address: self.ip_address@,
            hostname: self.hostname.deep_view(),
            disks: self.disks.deep_view(),
            nameservers: self.nameservers.deep_view(),
            cpu_model: self.cpu_model.deep_view(),
            cpu_cores: self.cpu_cores,
            total_ram_bytes: self.total_ram_bytes,
            proxmox_vmid: self.proxmox_vmid,
            proxmox_node: self.proxmox_node.deep_view(),
            proxmox_cluster: self.proxmox_cluster.deep_view(),
        }
    }
}

/// The kind of a management controller.
#[derive(Clone, Debug, PartialEq, Eq)]
pub enum BmcType {
    IPMI,
    Redfish,
    Other(String),
}

/// `BmcType` as a mathematical value.
pub enum BmcTypeView {
    IPMI,
    Redfish,
    Other(Seq<char>),
}

impl DeepView for BmcType {
    type V = BmcTypeView;

    open spec fn deep_view(&self) -> BmcTypeView {
        match self {
            BmcType::IPMI => BmcTypeView::IPMI,
            BmcType::Redfish => BmcTypeView::Redfish,
            BmcType::Other(s) => BmcTypeView::Other(s@),
        }
    }
}

/// How to reach the management controller of a machine.
#[derive(Clone, Debug, PartialEq, Eq)]
pub struct BmcCredentials {
    pub address: String,
    pub username: String,
    pub password: Option<String>,
    pub bmc_type: BmcType,
}

/// `BmcCredentials` as a mathematical value.
pub struct BmcCredentialsView {
    pub address: Seq<char>,
    pub username: Seq<char>,
    pub password: Option<Seq<char>>,
    pub bmc_type: BmcTypeView,
}

impl DeepView for BmcCredentials {
    type V = BmcCredentialsView;

    open spec fn deep_view(&self) -> BmcCredentialsView {
        BmcCredentialsView {
            address: self.address@,
            username: self.username@,
            password: self.password.deep_view(),
            bmc_type: self.bmc_type.deep_view(),
        }
    }
}

/// All that is known of a machine. Times are seconds since the beginning of 1970.
#[derive(Clone, Debug, PartialEq, Eq)]
pub struct Machine {
    pub id: u128,
    pub mac_address: String,
    pub ip_address: String,
    pub hostname: Option<String>,
    pub os_choice: Option<String>,
    pub os_installed: Option<String>,
    pub status: MachineStatus,
    pub disks: Vec<DiskInfo>,
    pub nameservers: Vec<String>,
    pub created_at: i64,
    pub updated_at: i64,
    pub memorable_name: Option<String>,
    pub bmc_credentials: Option<BmcCredentials>,
    pub installation_progress: u8,
    pub installation_step: Option<String>,
    pub last_deployment_duration: Option<i64>,
    pub cpu_model: Option<String>,
    pub cpu_cores: Option<u32>,
    pub total_ram_bytes: Option<u64>,
    pub proxmox_vmid: Option<u32>,
    pub proxmox_node: Option<String>,
    pub is_proxmox_host: bool,
}

/// A machine as a mathematical value.
pub struct MachineView {
    pub id: u128,
    pub mac_address: Seq<char>,
    pub ip_address: Seq<char>,
    pub hostname: Option<Seq<char>>,
    pub os_choice: Option<Seq<char>>,
    pub os_installed: Option<Seq<char>>,
    pub status: StatusView,
    pub disks: Seq<DiskView>,
    pub nameservers: Seq<Seq<char>>,
    pub created_at: i64,
    pub updated_at: i64,
    pub memorable_name: Option<Seq<char>>,
    pub bmc_credentials: Option<BmcCredentialsView>,
    pub installation_progress: u8,
    pub installation_step: Option<Seq<char>>,
    pub last_deployment_duration: Option<i64>,
    pub cpu_model: Option<Seq<char>>,
    pub cpu_cores: Option<u32>,
    pub total_ram_bytes: Option<u64>,
    pub proxmox_vmid: Option<u32>,
    pub proxmox_node: Option<Seq<char>>,
    pub is_proxmox_host: bool,
}

impl DeepView for Machine {
    type V = MachineView;

    open spec fn deep_view(&self) -> MachineView {
        MachineView {
            id: self.id,
            mac_address: self.mac_address@,
            ip_address: self.ip_address@,
            hostname: self.hostname.deep_view(),
            os_choice: self.os_choice.deep_view(),
            os_installed: self.os_installed.deep_view(),
            status: self.status.deep_view(),
            disks: self.disks.deep_view(),
            nameservers: self.nameservers.deep_view(),
            created_at: self.created_at,
            updated_at: self.updated_at,
            memorable_name: self.memorable_name.deep_view(),
            bmc_credentials: self.bmc_credentials.deep_view(),
            installation_progress: self.installation_progress,
            installation_step: self.installation_step.deep_view(),
            last_deployment_duration: self.last_deployment_duration,
            cpu_model: self.cpu_model.deep_view(),
            cpu_cores: self.cpu_cores,
            total_ram_bytes: self.total_ram_bytes,
            proxmox_vmid: self.proxmox_vmid,
            proxmox_node: self.proxmox_node.deep_view(),
            is_proxmox_host: self.is_proxmox_host,
        }
    }
}

// ---------------------------------------------------------------------------------------------
// Statuses as they are stored
// ---------------------------------------------------------------------------------------------

/// The status without a message that goes by a name.
pub open spec fn named_status(name: Seq<char>) -> Option<StatusView> {
    if name == "AwaitingAssignment"@ {
        Some(StatusView::AwaitingAssignment)
    } else if name == "ExistingOS"@ {
        Some(StatusView::ExistingOS)
    } else if name == "InstallingOS"@ {
        Some(StatusView::InstallingOS)
    } else if name == "Ready"@ {
        Some(StatusView::Ready)
    } else if name == "Offline"@ {
        Some(StatusView::Offline)
    } else {
        None
    }
}

/// The status that a JSON value writes: a name, or an object whose only field is a name, with
/// nothing behind it, or `Error` with its message.
pub open spec fn json_status(value: JsonView) -> Option<StatusView> {
    match value {
        JsonView::Text(name) => named_status(name),
        JsonView::Object(fields) if fields.len() == 1 => match fields[0].1 {
            JsonView::Text(message) if fields[0].0 == "Error"@ => Some(StatusView::Error(message)),
            JsonView::Null => named_status(fields[0].0),
            _ => None,
        },
        _ => None,
    }
}

/// A status as JSON: its name, or its name with the message of an error.
pub open spec fn status_value(s: StatusView) -> JsonView {
    match s {
        StatusView::AwaitingAssignment => JsonView::Text("AwaitingAssignment"@),
        StatusView::ExistingOS => JsonView::Text("ExistingOS"@),
        StatusView::InstallingOS => JsonView::Text("InstallingOS"@),
        StatusView::Ready => JsonView::Text("Ready"@),
        StatusView::Offline => JsonView::Text("Offline"@),
        StatusView::Error(m) => JsonView::nothing().with("Error"@, JsonView::Text(m)),
    }
}

impl MachineStatus {
    /// The status as JSON.
    pub fn to_json(&self) -> (r: Json)
        ensures
            r.deep_view() == status_value(self.deep_view()),
    {
        match self {
            MachineStatus::AwaitingAssignment => Json::text("AwaitingAssignment"),
            MachineStatus::ExistingOS => Json::text("ExistingOS"),
            MachineStatus::InstallingOS => Json::text("InstallingOS"),
            MachineStatus::Ready => Json::text("Ready"),
            MachineStatus::Offline => Json::text("Offline"),
            MachineStatus::Error(m) => Json::nothing().with("Error", Json::text(m.as_str())),
        }
    }
}

/// A status that was written as JSON is read back, and a stored text that reads as what was
/// written stands for it. The text of an error has one member: its message.
pub proof fn written_status_is_read_back(status: StatusView, stored: Seq<char>)
    requires
        status is Error ==> members(stored, false) == 1,
    ensures
        json_status(status_value(status)) == Some(status),
        stored_status(stored, Some(status_value(status))) == status,
{
    reveal_strlit("AwaitingAssignment");
    reveal_strlit("ExistingOS");
    reveal_strlit("InstallingOS");
    reveal_strlit("Ready");
    reveal_strlit("Offline");
    assert("AwaitingAssignment"@.len() == 18);
    assert("ExistingOS"@.len() == 10);
    assert("InstallingOS"@.len() == 12);
    assert("Ready"@.len() == 5);
    assert("Offline"@.len() == 7);
}

/// The status that a plain text from older records writes.
pub open spec fn legacy_status(s: Seq<char>) -> StatusView {
    if begins(s, "ExistingOS: "@) || s == "Existing OS"@ {
        StatusView::ExistingOS
    } else if s == "AwaitingAssignment"@ {
        StatusView::AwaitingAssignment
    } else if s == "InstallingOS"@ {
        StatusView::InstallingOS
    } else if s == "Ready"@ {
        StatusView::Ready
    } else if s == "Offline"@ {
        StatusView::Offline
    } else if begins(s, "Error: "@) {
        StatusView::Error(peeled(s, "Error: "@))
    } else {
        StatusView::Error("Unknown status: "@ + s)
    }
}

/// How many members the objects in a JSON text have: the colons that stand outside of its string
/// literals. `quoted` says whether the text begins inside of one.
pub open spec fn members(s: Seq<char>, quoted: bool) -> nat
    decreases s.len(),
{
    if s.len() == 0 {
        0
    } else if !quoted {
        let more = members(s.skip(1), s[0] == '"');
        if s[0] == ':' {
            more + 1
        } else {
            more
        }
    } else if s[0] == '\\' && s.len() > 1 {
        members(s.skip(2), true)
    } else {
        members(s.skip(1), s[0] != '"')
    }
}

/// The status that a stored text stands for, by the value that it writes as JSON: a name, or an
/// object that has one member, written once. Every other text is one of older records.
pub open spec fn stored_status(s: Seq<char>, value: Option<JsonView>) -> StatusView {
    match value {
        Some(v) => match json_status(v) {
            Some(status) => if v is Object && members(s, false) != 1 {
                legacy_status(s)
            } else {
                status
            },
            None => legacy_status(s),
        },
        None => legacy_status(s),
    }
}

/// Whether the objects in a JSON text have one member in all.
fn has_one_member(s: &str) -> (r: bool)
    ensures
        r == (members(s@, false) == 1),
{
    let cs: Vec<char> = chars_of(s);
    let mut quoted: bool = false;
    let mut found: usize = 0;
    let mut i: usize = 0;
    assert(cs@.skip(0) =~= cs@);
    while i < cs.len()
        invariant
            i <= cs.len(),
            found <= i,
            found + members(cs@.skip(i as int), quoted) == members(cs@, false),
        decreases cs.len() - i,
    {
        assert(cs@.skip(i as int)[0] == cs@[i as int]);
        assert(cs@.skip(i as int).skip(1) =~= cs@.skip(i + 1));
        if !quoted {
            if cs[i] == ':' {
                found = found + 1;
            }
            quoted = cs[i] == '"';
            i = i + 1;
        } else if cs[i] == '\\' && cs.len() - i > 1 {
            assert(cs@.skip(i as int).skip(2) =~= cs@.skip(i + 2));
            i = i + 2;
        } else {
            quoted = cs[i] != '"';
            i = i + 1;
        }
    }
    found == 1
}

fn status_named(name: &str) -> (r: Option<MachineStatus>)
    ensures
        r.deep_view() == named_status(name@),
{
    if same(name, "AwaitingAssignment") {
        Some(MachineStatus::AwaitingAssignment)
    } else if same(name, "ExistingOS") {
        Some(MachineStatus::ExistingOS)
    } else if same(name, "InstallingOS") {
        Some(MachineStatus::InstallingOS)
    } else if same(name, "Ready") {
        Some(MachineStatus::Ready)
    } else if same(name, "Offline") {
        Some(MachineStatus::Offline)
    } else {
        None
    }
}

/// The status that a JSON value writes.
pub fn status_from_json(value: &Json) -> (r: Option<MachineStatus>)
    ensures
        r.deep_view() == json_status(value.deep_view()),
{
    match value {
        Json::Text(name) => status_named(name.as_str()),
        Json::Object(fields) => {
            if fields.len() != 1 {
                return None;
            }
            assert(value.deep_view()->Object_0[0] == (
                fields@[0].0@,
                crate::json::json_view(fields@[0].1),
            ));
            match &fields[0].1 {
                Json::Text(message) => if same(fields[0].0.as_str(), "Error") {
                    Some(MachineStatus::Error(message.clone()))
                } else {
                    None
                },
                Json::Null => status_named(fields[0].0.as_str()),
                _ => None,
            }
        },
        _ => None,
    }
}

/// The status that a plain text from older records writes.
pub fn status_from_legacy(s: &str) -> (r: MachineStatus)
    ensures
        r.deep_view() == legacy_status(s@),
{
    if starts_with(s, "ExistingOS: ") || same(s, "Existing OS") {
        MachineStatus::ExistingOS
    } else if same(s, "AwaitingAssignment") {
        MachineStatus::AwaitingAssignment
    } else if same(s, "InstallingOS") {
        MachineStatus::InstallingOS
    } else if same(s, "Ready") {
        MachineStatus::Ready
    } else if same(s, "Offline") {
        MachineStatus::Offline
    } else if starts_with(s, "Error: ") {
        MachineStatus::Error(trim_prefix(s, "Error: "))
    } else {
        let mut m = "Unknown status: ".to_owned();
        m.append(s);
        MachineStatus::Error(m)
    }
}

/// The status that a stored text stands for, by the value that it writes as JSON.
pub fn status_of_stored(status_str: &str, value: &Option<Json>) -> (r: MachineStatus)
    ensures
        r.deep_view() == stored_status(status_str@, value.deep_view()),
{
    match value {
        Some(v) => match status_from_json(v) {
            Some(status) => if matches!(v, Json::Object(_)) && !has_one_member(status_str) {
                status_from_legacy(status_str)
            } else {
                status
            },
            None => status_from_legacy(status_str),
        },
        None => status_from_legacy(status_str),
    }
}

/// The status that a stored text stands for: JSON where it can be read as a status, the plain
/// text of older records otherwise.
pub fn parse_status(status_str: &str) -> (r: MachineStatus)
    ensures
        r.deep_view() == stored_status(status_str@, json_of_text(status_str@)),
{
    status_of_stored(status_str, &parse_json(status_str.as_bytes()))
}

// ---------------------------------------------------------------------------------------------
// What statuses are read as
// ---------------------------------------------------------------------------------------------

/// A status goes by its own name, and no other text names one.
pub proof fn statuses_go_by_their_names(name: Seq<char>)
    ensures
        match named_status(name) {
            Some(s) => status_value(s) == JsonView::Text(name),
            None => name != "AwaitingAssignment"@ && name != "ExistingOS"@ && name
                != "InstallingOS"@ && name != "Ready"@ && name != "Offline"@,
        },
        named_status(name) matches Some(s) ==> !(s is Error),
{
}

/// What is read from a JSON value is what it would be written as, or a name with nothing behind it.
pub proof fn read_statuses_are_written_ones(value: JsonView)
    ensures
        json_status(value) matches Some(s) ==> status_value(s) == value || (value
            matches JsonView::Object(fields) && fields.len() == 1 && fields[0].1 == JsonView::Null
            && status_value(s) == JsonView::Text(fields[0].0)),
{
    match value {
        JsonView::Object(fields) if fields.len() == 1 => {
            assert(fields =~= seq![fields[0]]);
            if json_status(value) is Some && fields[0].1 is Text {
                let m = fields[0].1->Text_0;
                assert(status_value(StatusView::Error(m)) == value) by {
                    let made = JsonView::nothing().with("Error"@, JsonView::Text(m));
                    assert(made matches JsonView::Object(f) && f =~= fields);
                }
            }
        },
        _ => {},
    }
}

/// Older records name the statuses as they are named now; an existing system or an error may be followed
/// by what it is, and the message of an error is kept. Anything else is an error that quotes it.
pub proof fn older_records_are_understood(message: Seq<char>)
    requires
        !begins(message, "Error: "@),
    ensures
        legacy_status("Existing OS"@) == StatusView::ExistingOS,
        legacy_status("ExistingOS: "@ + message) == StatusView::ExistingOS,
        legacy_status("AwaitingAssignment"@) == StatusView::AwaitingAssignment,
        legacy_status("InstallingOS"@) == StatusView::InstallingOS,
        legacy_status("Ready"@) == StatusView::Ready,
        legacy_status("Offline"@) == StatusView::Offline,
        legacy_status("Error: "@ + message) == StatusView::Error(message),
        legacy_status(message) matches StatusView::Error(m) ==> is_part(message, m),
{
    reveal_strlit("ExistingOS: ");
    reveal_strlit("Existing OS");
    reveal_strlit("AwaitingAssignment");
    reveal_strlit("InstallingOS");
    reveal_strlit("Ready");
    reveal_strlit("Offline");
    reveal_strlit("Error: ");
    let existing = "ExistingOS: "@;
    let error = "Error: "@;
    assert((existing + message).subrange(0, 12) =~= existing);
    assert((error + message).subrange(0, 7) =~= error);
    only_the_prefix_is_peeled(message, error);
    stand_together("Unknown status: "@, message);
    let old = error + message;
    assert(old[1] == 'r');
    assert(existing[1] == 'x');
    if begins(old, existing) {
        assert(old.subrange(0, 12)[1] == 'x');
    }
    assert("Existing OS"@[1] == 'x');
    assert("AwaitingAssignment"@[0] == 'A');
    assert("InstallingOS"@[0] == 'I');
    assert("Ready"@[0] == 'R');
    assert("Offline"@[0] == 'O');
    assert(old[0] == 'E');
    if begins("AwaitingAssignment"@, existing) {
        assert("AwaitingAssignment"@.subrange(0, 12)[0] == 'E');
    }
    if begins("InstallingOS"@, existing) {
        assert("InstallingOS"@.subrange(0, 12)[0] == 'E');
    }
    assert("Ready"@.len() < 12);
    assert("Offline"@.len() < 12);
}

/// A stored text that reads as a status is that status; one that reads as none is taken as one of an
/// older record.
pub proof fn stored_statuses_are_read(stored: Seq<char>, value: JsonView)
    ensures
        stored_status(stored, None) == legacy_status(stored),
        json_status(value) is None ==> stored_status(stored, Some(value)) == legacy_status(stored),
        json_status(value) is Some && !(value is Object) ==> Some(stored_status(stored, Some(value)))
            == json_status(value),
{
}

/// Only colons outside of string literals count as those of members.
pub proof fn members_are_counted(text: Seq<char>, rest: Seq<char>)
    requires
        forall|i: int| 0 <= i < text.len() ==> text[i] != '"' && text[i] != '\\',
    ensures
        members(seq!['"'] + text + seq!['"'] + rest, false) == members(rest, false),
        members(seq![':'] + rest, false) == members(rest, false) + 1,
{
    let s = seq!['"'] + text + seq!['"'] + rest;
    assert(s.skip(1) =~= text + seq!['"'] + rest);
    assert((seq![':'] + rest).skip(1) =~= rest);
    literal_is_passed(text, rest);
}

proof fn literal_is_passed(text: Seq<char>, rest: Seq<char>)
    requires
        forall|i: int| 0 <= i < text.len() ==> text[i] != '"' && text[i] != '\\',
    ensures
        members(text + seq!['"'] + rest, true) == members(rest, false),
    decreases text.len(),
{
    let s = text + seq!['"'] + rest;
    if text.len() == 0 {
        assert(s[0] == '"');
        assert(s.skip(1) =~= rest);
    } else {
        assert(s[0] == text[0]);
        assert(s.skip(1) =~= text.skip(1) + seq!['"'] + rest);
        literal_is_passed(text.skip(1), rest);
    }
}

} // verus!
