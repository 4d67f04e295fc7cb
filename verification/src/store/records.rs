//! Records: how machines are entered, how rows become machines again, and what is stored of
//! settings, credentials and timings.

use vstd::prelude::*;
use vstd::utf8::encode_utf8;

use crate::auth::{Credentials, CredentialsView, Settings, SettingsView, default_settings};
use crate::clock::{Instant, instant_of, parse_datetime, read_instant};
use crate::ids::{machine_id_for, parse_uuid, uuid_reading, uuid_v5_dns};
use crate::json::{
    JsonView, json_of_text, number_list, parse_json, read_number_list, read_text_list, text_list,
    texts_are_read_back,
};
use crate::mac_to_words::{mac_to_words_safe, safe_mac_name};
use crate::machine::{
    BmcCredentials, DiskInfo, Machine, MachineStatus, MachineView, RegisterRequest, RegisterView,
    StatusView, parse_status, stored_status,
};
use crate::text::{same, swap_char, swapped, swapped_is_char_by_char};

verus! {

// ---------------------------------------------------------------------------------------------
// Entering a machine
// ---------------------------------------------------------------------------------------------

/// What is entered for a machine, besides what its request says.
#[derive(Debug, PartialEq, Eq)]
pub struct Registration {
    pub id: u128,
    /// No machine with this hardware address was recorded before.
    pub is_new: bool,
    pub status: MachineStatus,
    pub memorable_name: String,
    pub is_proxmox_host: bool,
    pub cpu_cores: Option<i64>,
    pub total_ram_bytes: Option<i64>,
    pub proxmox_vmid: Option<i64>,
}

/// `Registration` as a mathematical value.
pub struct RegistrationView {
    pub id: u128,
    pub is_new: bool,
    pub status: StatusView,
    pub memorable_name: Seq<char>,
    pub is_proxmox_host: bool,
    pub cpu_cores: Option<i64>,
    pub total_ram_bytes: Option<i64>,
    pub proxmox_vmid: Option<i64>,
}

impl DeepView for Registration {
    type V = RegistrationView;

    open spec fn deep_view(&self) -> RegistrationView {
        RegistrationView {
            id: self.id,
            is_new: self.is_new,
            status: self.status.deep_view(),
            memorable_name: self.memorable_name@,
            is_proxmox_host: self.is_proxmox_host,
            cpu_cores: self.cpu_cores,
            total_ram_bytes: self.total_ram_bytes,
            proxmox_vmid: self.proxmox_vmid,
        }
    }
}

/// The status of a machine that is entered: one that Proxmox knows has an operating system.
pub open spec fn initial_status(req: RegisterView) -> StatusView {
    if req.proxmox_vmid is Some || req.proxmox_node is Some {
        StatusView::ExistingOS
    } else {
        StatusView::AwaitingAssignment
    }
}

/// The machine is a Proxmox node: it is on one, and it is no virtual machine.
pub open spec fn is_node(req: RegisterView) -> bool {
    req.proxmox_node is Some && req.proxmox_vmid is None
}

/// The number under which a machine is entered: the one that it has, or one made from its
/// hardware address. There is none where the one that it has cannot be read.
pub open spec fn entry_id(mac: Seq<char>, existing_id: Option<Seq<char>>) -> Option<u128> {
    match existing_id {
        Some(text) => uuid_reading(text),
        None => Some(uuid_v5_dns(encode_utf8(mac))),
    }
}

/// What is entered for a machine under a number.
pub open spec fn registration(req: RegisterView, is_new: bool, id: u128) -> RegistrationView {
    RegistrationView {
        id,
        is_new,
        status: initial_status(req),
        memorable_name: safe_mac_name(req.mac_address),
        is_proxmox_host: is_node(req),
        cpu_cores: match req.cpu_cores {
            Some(n) => Some(n as i64),
            None => None,
        },
        total_ram_bytes: match req.total_ram_bytes {
            Some(n) => Some(n as i64),
            None => None,
        },
        proxmox_vmid: match req.proxmox_vmid {
            Some(n) => Some(n as i64),
            None => None,
        },
    }
}

#[verifier::truncate]
fn signed(n: u64) -> (r: i64)
    ensures
        r == n as i64,
{
    n as i64
}

/// What is entered for a machine under a number.
pub fn enter(req: &RegisterRequest, is_new: bool, id: u128) -> (r: Registration)
    ensures
        r.deep_view() == registration(req.deep_view(), is_new, id),
{
    Registration {
        id,
        is_new,
        status: if req.proxmox_vmid.is_some() || req.proxmox_node.is_some() {
            MachineStatus::ExistingOS
        } else {
            MachineStatus::AwaitingAssignment
        },
        memorable_name: mac_to_words_safe(req.mac_address.as_str()),
        is_proxmox_host: req.proxmox_node.is_some() && req.proxmox_vmid.is_none(),
        cpu_cores: match req.cpu_cores {
            Some(n) => Some(n as i64),
            None => None,
        },
        total_ram_bytes: match req.total_ram_bytes {
            Some(n) => Some(signed(n)),
            None => None,
        },
        proxmox_vmid: match req.proxmox_vmid {
            Some(n) => Some(n as i64),
            None => None,
        },
    }
}

/// What is entered for a machine. `existing_id` is the number, as text, of the machine that is
/// recorded with its hardware address, if there is one. Nothing is entered where that number
/// cannot be read.
pub fn register_machine(req: &RegisterRequest, existing_id: Option<&str>) -> (r: Option<
    Registration,
>)
    ensures
        r.deep_view() == (match entry_id(
            req.mac_address@,
            match existing_id {
                Some(s) => Some(s@),
                None => None,
            },
        ) {
            Some(id) => Some(registration(req.deep_view(), existing_id is None, id)),
            None => None,
        }),
{
    match existing_id {
        Some(text) => match parse_uuid(text) {
            Some(id) => Some(enter(req, false, id)),
            None => None,
        },
        None => Some(enter(req, true, machine_id_for(req.mac_address.as_str()))),
    }
}

/// Machines with the same hardware address are entered under the same name, and without a record
/// under the same number.
pub proof fn registration_goes_by_the_address(a: RegisterView, b: RegisterView)
    requires
        a.mac_address == b.mac_address,
    ensures
        entry_id(a.mac_address, None) == entry_id(b.mac_address, None),
        forall|id: u128, new: bool|
            (#[trigger] registration(a, new, id)).memorable_name == registration(
                b,
                new,
                id,
            ).memorable_name,
{
}

/// A machine that is entered as a Proxmox node is never entered as awaiting an assignment.
pub proof fn nodes_have_an_operating_system(req: RegisterView, new: bool, id: u128)
    ensures
        registration(req, new, id).is_proxmox_host ==> registration(req, new, id).status
            == StatusView::ExistingOS,
{
}

/// Whether a machine may take a hardware address: it may unless another machine has it.
/// `holder` is the number, as text, of the machine that is recorded with it.
pub fn may_take_mac(id: &str, holder: Option<&str>) -> (r: Result<(), String>)
    ensures
        r is Ok <==> (holder matches Some(h) ==> h@ == id@),
        r matches Err(e) ==> e@ == "MAC address is already in use by another machine"@,
{
    match holder {
        Some(h) => if same(h, id) {
            Ok(())
        } else {
            Err("MAC address is already in use by another machine".to_owned())
        },
        None => Ok(()),
    }
}

// ---------------------------------------------------------------------------------------------
// Rows
// ---------------------------------------------------------------------------------------------

/// A row of the table of machines.
#[derive(Debug, PartialEq, Eq)]
pub struct MachineRow {
    pub id: String,
    pub mac_address: String,
    pub ip_address: String,
    pub hostname: Option<String>,
    pub os_choice: Option<String>,
    pub os_installed: Option<String>,
    pub status: String,
    pub disks: Vec<DiskInfo>,
    pub nameservers: Option<String>,
    pub created_at: String,
    pub updated_at: String,
    pub memorable_name: Option<String>,
    pub bmc_credentials: Option<BmcCredentials>,
    pub installation_progress: Option<i64>,
    pub installation_step: Option<String>,
    pub last_deployment_duration: Option<i64>,
    pub cpu_model: Option<String>,
    pub cpu_cores: Option<i64>,
    pub total_ram_bytes: Option<i64>,
    pub proxmox_vmid: Option<i64>,
    pub proxmox_node: Option<String>,
    pub is_proxmox_host: bool,
}

/// The name servers that a column holds: none where it holds no list of texts.
pub open spec fn stored_nameservers(column: Option<Seq<char>>) -> Seq<Seq<char>> {
    match column {
        Some(text) => match json_of_text(text) {
            Some(value) => text_list(value).unwrap_or(Seq::empty()),
            None => Seq::empty(),
        },
        None => Seq::empty(),
    }
}

/// A time that a column holds.
pub open spec fn stored_time(column: Seq<char>, now: Instant) -> i64 {
    match instant_of(column) {
        Some(t) => t.secs,
        None => now.secs,
    }
}

/// The machine that a row stands for.
pub open spec fn machine_of_row(row: MachineRow, now: Instant) -> MachineView {
    MachineView {
        id: uuid_reading(row.id@).unwrap_or(0),
        mac_address: row.mac_address@,
        ip_address: row.ip_address@,
        hostname: row.hostname.deep_view(),
        os_choice: row.os_choice.deep_view(),
        os_installed: row.os_installed.deep_view(),
        status: stored_status(row.status@, json_of_text(row.status@)),
        disks: row.disks.deep_view(),
        nameservers: stored_nameservers(row.nameservers.deep_view()),
        created_at: stored_time(row.created_at@, now),
        updated_at: stored_time(row.updated_at@, now),
        memorable_name: Some(
            match row.memorable_name {
                Some(name) => name@,
                None => safe_mac_name(row.mac_address@),
            },
        ),
        bmc_credentials: row.bmc_credentials.deep_view(),
        installation_progress: row.installation_progress.unwrap_or(0) as u8,
        installation_step: row.installation_step.deep_view(),
        last_deployment_duration: row.last_deployment_duration,
        cpu_model: row.cpu_model.deep_view(),
        cpu_cores: match row.cpu_cores {
            Some(n) => Some(n as u32),
            None => None,
        },
        total_ram_bytes: match row.total_ram_bytes {
            Some(n) => Some(n as u64),
            None => None,
        },
        proxmox_vmid: match row.proxmox_vmid {
            Some(n) => Some(n as u32),
            None => None,
        },
        proxmox_node: row.proxmox_node.deep_view(),
        is_proxmox_host: row.is_proxmox_host,
    }
}

fn read_nameservers(column: &Option<String>) -> (r: Vec<String>)
    ensures
        r.deep_view() == stored_nameservers(column.deep_view()),
{
    let none: Vec<String> = Vec::new();
    assert(none.deep_view() =~= Seq::empty());
    match column {
        Some(text) => match parse_json(text.as_str().as_bytes()) {
            Some(value) => match read_text_list(&value) {
                Some(list) => list,
                None => none,
            },
            None => none,
        },
        None => none,
    }
}

#[verifier::truncate]
fn low_byte(n: i64) -> (r: u8)
    ensures
        r == n as u8,
{
    n as u8
}

#[verifier::truncate]
fn low_word(n: i64) -> (r: u32)
    ensures
        r == n as u32,
{
    n as u32
}

#[verifier::truncate]
fn unsigned(n: i64) -> (r: u64)
    ensures
        r == n as u64,
{
    n as u64
}

/// The machine that a row stands for.
pub fn map_row_to_machine_with_hardware(row: MachineRow, now: Instant) -> (r: Machine)
    ensures
        r.deep_view() == machine_of_row(row, now),
{
    let memorable_name: String = match row.memorable_name {
        Some(name) => name,
        None => mac_to_words_safe(row.mac_address.as_str()),
    };
    let nameservers: Vec<String> = read_nameservers(&row.nameservers);
    let progress: i64 = match row.installation_progress {
        Some(n) => n,
        None => 0,
    };
    Machine {
        id: match parse_uuid(row.id.as_str()) {
            Some(id) => id,
            None => 0,
        },
        mac_address: row.mac_address,
        ip_address: row.ip_address,
        hostname: row.hostname,
        os_choice: row.os_choice,
        os_installed: row.os_installed,
        status: parse_status(row.status.as_str()),
        disks: row.disks,
        nameservers,
        created_at: parse_datetime(row.created_at.as_str(), now),
        updated_at: parse_datetime(row.updated_at.as_str(), now),
        memorable_name: Some(memorable_name),
        bmc_credentials: row.bmc_credentials,
        installation_progress: low_byte(progress),
        installation_step: row.installation_step,
        last_deployment_duration: row.last_deployment_duration,
        cpu_model: row.cpu_model,
        cpu_cores: match row.cpu_cores {
            Some(n) => Some(low_word(n)),
            None => None,
        },
        total_ram_bytes: match row.total_ram_bytes {
            Some(n) => Some(unsigned(n)),
            None => None,
        },
        proxmox_vmid: match row.proxmox_vmid {
            Some(n) => Some(low_word(n)),
            None => None,
        },
        proxmox_node: row.proxmox_node,
        is_proxmox_host: row.is_proxmox_host,
    }
}

/// The processors, the memory and the number of a virtual machine are read from a row as they
/// were entered.
pub proof fn entered_numbers_are_read_back(
    req: RegisterView,
    new: bool,
    id: u128,
    row: MachineRow,
    now: Instant,
)
    requires
        row.cpu_cores == registration(req, new, id).cpu_cores,
        row.total_ram_bytes == registration(req, new, id).total_ram_bytes,
        row.proxmox_vmid == registration(req, new, id).proxmox_vmid,
    ensures
        machine_of_row(row, now).cpu_cores == req.cpu_cores,
        machine_of_row(row, now).total_ram_bytes == req.total_ram_bytes,
        machine_of_row(row, now).proxmox_vmid == req.proxmox_vmid,
{
    if let Some(n) = req.total_ram_bytes {
        assert((n as i64) as u64 == n) by (bit_vector);
    }
}

/// The unit in which the size of a disk is shown.
#[derive(Clone, Copy, Debug, PartialEq, Eq, Structural)]
pub enum SizeUnit {
    Terabytes,
    Gigabytes,
    Megabytes,
    Kilobytes,
    Bytes,
}

/// How many bytes a unit has.
pub open spec fn unit_bytes(unit: SizeUnit) -> u64 {
    match unit {
        SizeUnit::Terabytes => 1_099_511_627_776,
        SizeUnit::Gigabytes => 1_073_741_824,
        SizeUnit::Megabytes => 1_048_576,
        SizeUnit::Kilobytes => 1024,
        SizeUnit::Bytes => 1,
    }
}

/// The unit in which the size of a disk is shown: the largest that the size is greater than, or
/// bytes.
pub fn size_unit(size_bytes: u64) -> (r: SizeUnit)
    ensures
        r != SizeUnit::Bytes ==> size_bytes > unit_bytes(r),
        forall|u: SizeUnit|
            #[trigger] unit_bytes(u) > unit_bytes(r) ==> size_bytes <= unit_bytes(u),
{
    if size_bytes > 1_099_511_627_776 {
        SizeUnit::Terabytes
    } else if size_bytes > 1_073_741_824 {
        SizeUnit::Gigabytes
    } else if size_bytes > 1_048_576 {
        SizeUnit::Megabytes
    } else if size_bytes > 1024 {
        SizeUnit::Kilobytes
    } else {
        SizeUnit::Bytes
    }
}

// ---------------------------------------------------------------------------------------------
// Settings and credentials
// ---------------------------------------------------------------------------------------------

/// The row of the settings.
#[derive(Debug, PartialEq, Eq)]
pub struct SettingsRow {
    pub require_login: bool,
    pub default_os: Option<String>,
    pub setup_completed: bool,
}

/// The settings that are stored: the defaults, with what the row says, and with the stored
/// credentials where there is a row.
pub open spec fn stored_settings(
    row: Option<SettingsRow>,
    credentials: Option<CredentialsView>,
) -> SettingsView {
    match row {
        Some(row) => {
            let s = SettingsView {
                require_login: row.require_login,
                default_os: row.default_os.deep_view(),
                setup_completed: row.setup_completed,
                ..default_settings()
            };
            match credentials {
                Some(c) => SettingsView {
                    admin_username: c.username,
                    admin_password_hash: c.password_hash,
                    ..s
                },
                None => s,
            }
        },
        None => default_settings(),
    }
}

/// The settings that are stored.
pub fn get_app_settings(row: Option<SettingsRow>, credentials: Option<Credentials>) -> (r: Settings)
    ensures
        r.deep_view() == stored_settings(row, credentials.deep_view()),
{
    let mut settings = Settings::default();
    match row {
        Some(row) => {
            settings.require_login = row.require_login;
            settings.default_os = row.default_os;
            settings.setup_completed = row.setup_completed;
            match credentials {
                Some(c) => {
                    settings.admin_username = c.username;
                    settings.admin_password_hash = c.password_hash;
                },
                None => {},
            }
        },
        None => {},
    }
    settings
}

/// The row that keeps the settings.
pub fn save_app_settings(settings: &Settings) -> (r: SettingsRow)
    ensures
        r.require_login == settings.require_login,
        r.default_os.deep_view() == settings.default_os.deep_view(),
        r.setup_completed == settings.setup_completed,
{
    SettingsRow {
        require_login: settings.require_login,
        default_os: match &settings.default_os {
            Some(os) => Some(os.clone()),
            None => None,
        },
        setup_completed: settings.setup_completed,
    }
}

/// Settings that were saved are loaded again: what the row keeps is what was saved.
pub proof fn saved_settings_are_loaded(
    s: SettingsView,
    row: SettingsRow,
    credentials: Option<CredentialsView>,
)
    requires
        row.require_login == s.require_login,
        row.default_os.deep_view() == s.default_os,
        row.setup_completed == s.setup_completed,
    ensures
        ({
            let loaded = stored_settings(Some(row), credentials);
            &&& loaded.require_login == s.require_login
            &&& loaded.default_os == s.default_os
            &&& loaded.setup_completed == s.setup_completed
        }),
{
}

/// Whether the setup is completed, by the row of the settings: it is not where there is none.
pub fn is_setup_completed(row: Option<bool>) -> (r: bool)
    ensures
        r == (row == Some(true)),
{
    match row {
        Some(completed) => completed,
        None => false,
    }
}

/// How a single record is written.
#[derive(Clone, Copy, Debug, PartialEq, Eq, Structural)]
pub enum WriteMode {
    /// Change the one that is there.
    Update,
    /// Enter a new one.
    Insert,
}

/// How a record is written of which so many are there.
pub fn write_mode(count: i64) -> (r: WriteMode)
    ensures
        r == (if count > 0 {
            WriteMode::Update
        } else {
            WriteMode::Insert
        }),
{
    if count > 0 {
        WriteMode::Update
    } else {
        WriteMode::Insert
    }
}

/// How saving credentials ends: well, if they are found afterwards.
pub fn confirm_saved(found: bool) -> (r: Result<(), String>)
    ensures
        r is Ok <==> found,
        r matches Err(e) ==> e@ == "Failed to verify admin credentials were saved"@,
{
    if found {
        Ok(())
    } else {
        Err("Failed to verify admin credentials were saved".to_owned())
    }
}

// ---------------------------------------------------------------------------------------------
// Timings
// ---------------------------------------------------------------------------------------------

/// How many durations of an action are kept.
pub const MAX_TIMING_HISTORY: usize = 50;

/// How long the runs of an action took, in seconds.
#[derive(Clone, Debug, PartialEq, Eq)]
pub struct TemplateTiming {
    pub template_name: String,
    pub action_name: String,
    pub durations: Vec<u64>,
}

/// The durations that are kept: the last ones.
pub open spec fn kept_durations(durations: Seq<u64>) -> Seq<u64> {
    if durations.len() > MAX_TIMING_HISTORY {
        durations.skip(durations.len() - MAX_TIMING_HISTORY)
    } else {
        durations
    }
}

/// The durations of an action that are kept.
pub fn save_template_timing(durations: &Vec<u64>) -> (r: Vec<u64>)
    ensures
        r@ == kept_durations(durations@),
{
    let n: usize = durations.len();
    let from: usize = if n > MAX_TIMING_HISTORY {
        n - MAX_TIMING_HISTORY
    } else {
        0
    };
    let mut kept: Vec<u64> = Vec::new();
    let mut i: usize = from;
    while i < n
        invariant
            from <= i <= n,
            n == durations@.len(),
            kept@ == durations@.subrange(from as int, i as int),
        decreases n - i,
    {
        kept.push(durations[i]);
        i = i + 1;
        assert(kept@ =~= durations@.subrange(from as int, i as int));
    }
    assert(kept@ =~= kept_durations(durations@));
    kept
}

/// The durations that a column holds, if it holds a list of numbers.
pub open spec fn stored_durations(column: Seq<char>) -> Option<Seq<u64>> {
    match json_of_text(column) {
        Some(value) => number_list(value),
        None => None,
    }
}

/// Reads the durations that a column holds.
pub fn read_durations(column: &str) -> (r: Option<Vec<u64>>)
    ensures
        (match r {
            Some(v) => Some(v@),
            None => None,
        }) == stored_durations(column@),
{
    match parse_json(column.as_bytes()) {
        Some(value) => read_number_list(&value),
        None => None,
    }
}

/// How many durations the columns hold together; those that hold no list of numbers count for
/// nothing.
pub open spec fn total_durations(columns: Seq<Option<Seq<u64>>>) -> nat
    decreases columns.len(),
{
    if columns.len() == 0 {
        0
    } else {
        total_durations(columns.drop_last()) + (match columns.last() {
            Some(d) => d.len(),
            None => 0,
        })
    }
}

/// What optional lists of durations hold.
pub open spec fn durations_view(columns: Seq<Option<Vec<u64>>>) -> Seq<Option<Seq<u64>>> {
    columns.map_values(
        |c: Option<Vec<u64>>|
            match c {
                Some(v) => Some(v@),
                None => None,
            },
    )
}

proof fn total_durations_grows(columns: Seq<Option<Seq<u64>>>, k: int)
    requires
        0 <= k <= columns.len(),
    ensures
        total_durations(columns.take(k)) <= total_durations(columns),
    decreases columns.len() - k,
{
    if k < columns.len() {
        total_durations_grows(columns, k + 1);
        assert(columns.take(k + 1).drop_last() =~= columns.take(k));
    } else {
        assert(columns.take(k) =~= columns);
    }
}

/// Counts the durations that columns hold, as far as they hold lists of numbers.
pub fn get_timing_database_stats(columns: &Vec<Option<Vec<u64>>>) -> (r: usize)
    requires
        total_durations(durations_view(columns@)) <= usize::MAX,
    ensures
        r == total_durations(durations_view(columns@)),
{
    let ghost all = durations_view(columns@);
    let mut total: usize = 0;
    let mut i: usize = 0;
    assert(all.take(0) =~= Seq::empty());
    while i < columns.len()
        invariant
            i <= columns.len(),
            all == durations_view(columns@),
            total == total_durations(all.take(i as int)),
            total_durations(all) <= usize::MAX,
        decreases columns.len() - i,
    {
        proof {
            total_durations_grows(all, i + 1);
            assert(all.take(i + 1).drop_last() =~= all.take(i as int));
            assert(all.take(i + 1).last() == all[i as int]);
        }
        match &columns[i] {
            Some(d) => {
                total = total + d.len();
            },
            None => {},
        }
        i = i + 1;
    }
    assert(all.take(all.len() as int) =~= all);
    total
}

/// The time at which a workflow was completed, as the database writes it: a date and a time with
/// a blank between them, in UTC.
pub open spec fn completion_time(column: Seq<char>) -> Option<Instant> {
    instant_of(swapped(column, ' ', 'T') + "Z"@)
}

/// Reads the time at which a workflow was completed.
pub fn get_completed_workflow(column: &str) -> (r: Option<Instant>)
    ensures
        r == completion_time(column@),
{
    read_instant(swap_char(column, ' ', 'T').concat("Z").as_str())
}

// ---------------------------------------------------------------------------------------------
// What the records amount to
// ---------------------------------------------------------------------------------------------

/// A machine that is entered keeps the number under which it is recorded, and a new one gets a number
/// that its hardware address alone decides. One on Proxmox has an operating system, and is a host if
/// it is no virtual machine; any other waits for an assignment.
pub proof fn machines_are_entered(
    req: RegisterView,
    new: bool,
    id: u128,
    existing: Seq<char>,
)
    ensures
        registration(req, new, id).id == id,
        registration(req, new, id).is_new == new,
        entry_id(req.mac_address, Some(existing)) == uuid_reading(existing),
        entry_id(req.mac_address, None) is Some,
        registration(req, new, id).memorable_name == safe_mac_name(req.mac_address),
        registration(req, new, id).is_proxmox_host <==> req.proxmox_node is Some
            && req.proxmox_vmid is None,
        registration(req, new, id).status == StatusView::ExistingOS <==> req.proxmox_node is Some
            || req.proxmox_vmid is Some,
        registration(req, new, id).status == StatusView::AwaitingAssignment
            <==> req.proxmox_node is None && req.proxmox_vmid is None,
{
}

/// A machine is what its row says, column by column: a time that cannot be read is the present, and a
/// name that is not stored is made from the hardware address.
pub proof fn machine_is_what_its_row_says(row: MachineRow, now: Instant)
    ensures
        ({
            let m = machine_of_row(row, now);
            &&& uuid_reading(row.id@) matches Some(id) ==> m.id == id
            &&& m.mac_address == row.mac_address@
            &&& m.ip_address == row.ip_address@
            &&& m.hostname == row.hostname.deep_view()
            &&& m.os_choice == row.os_choice.deep_view()
            &&& m.os_installed == row.os_installed.deep_view()
            &&& m.status == stored_status(row.status@, json_of_text(row.status@))
            &&& m.disks == row.disks.deep_view()
            &&& instant_of(row.created_at@) matches Some(t) ==> m.created_at == t.secs
            &&& instant_of(row.updated_at@) matches Some(t) ==> m.updated_at == t.secs
            &&& instant_of(row.created_at@) is None ==> m.created_at == now.secs
            &&& instant_of(row.updated_at@) is None ==> m.updated_at == now.secs
            &&& row.memorable_name matches Some(name) ==> m.memorable_name == Some(name@)
            &&& row.memorable_name is None ==> m.memorable_name == Some(
                safe_mac_name(row.mac_address@),
            )
            &&& m.bmc_credentials == row.bmc_credentials.deep_view()
            &&& row.installation_progress matches Some(p) ==> (0 <= p <= 255
                ==> m.installation_progress == p)
            &&& row.installation_progress is None ==> m.installation_progress == 0
            &&& m.installation_step == row.installation_step.deep_view()
            &&& m.last_deployment_duration == row.last_deployment_duration
            &&& m.cpu_model == row.cpu_model.deep_view()
            &&& m.proxmox_node == row.proxmox_node.deep_view()
            &&& m.is_proxmox_host == row.is_proxmox_host
        }),
{
}

/// Name servers that were stored as a list are read back.
pub proof fn stored_nameservers_are_read(text: Seq<char>, servers: Seq<Seq<char>>)
    requires
        json_of_text(text) == Some(JsonView::texts(servers)),
    ensures
        stored_nameservers(Some(text)) == servers,
        stored_nameservers(None) == Seq::<Seq<char>>::empty(),
{
    texts_are_read_back(servers);
}

/// What is kept of the durations of an action are the last fifty, in their order, or all where there
/// are no more.
pub proof fn last_fifty_are_kept(durations: Seq<u64>, i: int)
    ensures
        kept_durations(durations).len() == (if durations.len() <= 50 {
            durations.len()
        } else {
            50
        }),
        0 <= i < kept_durations(durations).len() ==> kept_durations(
            durations,
        )[kept_durations(durations).len() - 1 - i] == durations[durations.len() - 1 - i],
{
}

/// Durations that were stored as a list of numbers are read back.
pub proof fn stored_durations_are_read(text: Seq<char>, items: Seq<JsonView>)
    requires
        json_of_text(text) == Some(JsonView::List(items)),
    ensures
        (forall|i: int| 0 <= i < items.len() ==> (#[trigger] items[i]).unsigned() is Some) ==> (
        stored_durations(text) matches Some(d) && d.len() == items.len() && forall|i: int|
            0 <= i < d.len() ==> items[i].unsigned() == Some(#[trigger] d[i])),
        stored_durations(text) is Some ==> forall|i: int|
            0 <= i < items.len() ==> (#[trigger] items[i]).unsigned() is Some,
{
}

/// Each column counts once, with as many durations as it holds.
pub proof fn durations_are_counted(columns: Seq<Option<Seq<u64>>>, more: Seq<u64>)
    ensures
        total_durations(columns.push(Some(more))) == total_durations(columns) + more.len(),
        total_durations(columns.push(None)) == total_durations(columns),
        total_durations(Seq::empty()) == 0,
{
    assert(columns.push(Some(more)).drop_last() =~= columns);
    assert(columns.push(None).drop_last() =~= columns);
}

/// The time at which a workflow was completed is read as a date and a time in UTC.
pub proof fn completion_is_in_utc(date: Seq<char>, time: Seq<char>)
    requires
        !date.contains(' '),
        !time.contains(' '),
    ensures
        completion_time(date + seq![' '] + time) == instant_of(date + seq!['T'] + time + seq!['Z']),
{
    reveal_strlit("Z");
    let column = date + seq![' '] + time;
    swapped_is_char_by_char(column, ' ', 'T');
    assert forall|i: int| 0 <= i < date.len() implies date[i] != ' ' by {
        assert(date.contains(date[i]));
    }
    assert forall|i: int| 0 <= i < time.len() implies time[i] != ' ' by {
        assert(time.contains(time[i]));
    }
    assert(swapped(column, ' ', 'T') + "Z"@ =~= date + seq!['T'] + time + seq!['Z']);
}

/// Settings are the defaults until some are stored; then they are the stored ones, with the stored
/// credentials, and the defaults for the rest.
pub proof fn stored_settings_prevail(row: SettingsRow, c: CredentialsView)
    ensures
        stored_settings(None, Some(c)) == default_settings(),
        ({
            let s = stored_settings(Some(row), Some(c));
            &&& s.require_login == row.require_login
            &&& s.default_os == row.default_os.deep_view()
            &&& s.setup_completed == row.setup_completed
            &&& s.admin_username == c.username
            &&& s.admin_password_hash == c.password_hash
            &&& s.proxmox_host == default_settings().proxmox_host
            &&& s.oauth_enabled == default_settings().oauth_enabled
            &&& s.admin_email == default_settings().admin_email
        }),
        stored_settings(Some(row), None).admin_username == default_settings().admin_username,
        stored_settings(Some(row), None).require_login == row.require_login,
{
}

} // verus!
