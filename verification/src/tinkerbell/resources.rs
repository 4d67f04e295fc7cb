//! The resources that describe machines and installations to Tinkerbell.

use vstd::prelude::*;

use crate::json::{Json, JsonView};
use crate::machine::{Machine, MachineView};
use crate::text::{
    begins, lowercase, starts_with, swap_char, swapped, swapped_is_char_by_char, tail, to_lowercase,
};

verus! {

/// A name made from a hardware address, with hyphens for its colons.
pub open spec fn resource_name(prefix: Seq<char>, mac: Seq<char>) -> Seq<char> {
    prefix + swapped(mac, ':', '-')
}

/// The name of the resource that describes a machine.
pub fn hardware_name(mac_address: &str) -> (r: String)
    ensures
        r@ == resource_name("machine-"@, mac_address@),
{
    "machine-".to_owned().concat(swap_char(mac_address, ':', '-').as_str())
}

/// The name of the workflow that installs an operating system on a machine.
pub fn workflow_name(mac_address: &str) -> (r: String)
    ensures
        r@ == resource_name("os-install-"@, mac_address@),
{
    "os-install-".to_owned().concat(swap_char(mac_address, ':', '-').as_str())
}

/// The disks of a machine as Tinkerbell knows them: by their devices.
pub open spec fn disk_list(m: MachineView) -> JsonView {
    JsonView::List(
        Seq::new(
            m.disks.len(),
            |i: int| JsonView::nothing().with("device"@, JsonView::Text(m.disks[i].device)),
        ),
    )
}

/// The interface of a machine as Tinkerbell knows it.
pub open spec fn interface(m: MachineView) -> JsonView {
    let hostname = m.hostname.unwrap_or(resource_name("machine-"@, m.mac_address));
    JsonView::nothing().with(
        "dhcp"@,
        JsonView::nothing().with("arch"@, JsonView::Text("x86_64"@)).with(
            "hostname"@,
            JsonView::Text(hostname),
        ).with(
            "ip"@,
            JsonView::nothing().with("address"@, JsonView::Text(m.ip_address)),
        ).with("lease_time"@, JsonView::number(86400)).with(
            "mac"@,
            JsonView::Text(m.mac_address),
        ).with("name_servers"@, JsonView::texts(m.nameservers)).with(
            "uefi"@,
            JsonView::Bool(true),
        ),
    ).with(
        "netboot"@,
        JsonView::nothing().with("allowPXE"@, JsonView::Bool(true)).with(
            "allowWorkflow"@,
            JsonView::Bool(true),
        ),
    )
}

/// The resource that describes a machine.
pub open spec fn hardware(m: MachineView) -> JsonView {
    let name = resource_name("machine-"@, m.mac_address);
    let instance = JsonView::nothing().with(
        "id"@,
        JsonView::Text(m.memorable_name.unwrap_or(name)),
    ).with("hostname"@, JsonView::Text(m.hostname.unwrap_or(name)));
    JsonView::nothing().with("apiVersion"@, JsonView::Text("tinkerbell.org/v1alpha1"@)).with(
        "kind"@,
        JsonView::Text("Hardware"@),
    ).with(
        "metadata"@,
        JsonView::nothing().with("name"@, JsonView::Text(name)).with(
            "namespace"@,
            JsonView::Text("tink"@),
        ),
    ).with(
        "spec"@,
        JsonView::nothing().with(
            "metadata"@,
            JsonView::nothing().with("instance"@, instance),
        ).with("disks"@, disk_list(m)).with("interfaces"@, JsonView::only(interface(m))),
    )
}

fn list_disks(machine: &Machine) -> (r: Json)
    ensures
        r.deep_view() == disk_list(machine.deep_view()),
{
    let mut list: Vec<Json> = Vec::new();
    let mut i: usize = 0;
    while i < machine.disks.len()
        invariant
            i <= machine.disks.len(),
            list@.len() == i,
            forall|j: int|
                0 <= j < i ==> (#[trigger] list@[j]).deep_view() == JsonView::nothing().with(
                    "device"@,
                    JsonView::Text(machine.disks@[j].device@),
                ),
        decreases machine.disks.len() - i,
    {
        list.push(Json::nothing().with("device", Json::text(machine.disks[i].device.as_str())));
        i = i + 1;
    }
    let r = Json::List(list);
    assert(r.deep_view()->List_0 =~= disk_list(machine.deep_view())->List_0);
    r
}

fn describe_interface(machine: &Machine, hostname: &str) -> (r: Json)
    requires
        hostname@ == machine.deep_view().hostname.unwrap_or(
            resource_name("machine-"@, machine.mac_address@),
        ),
    ensures
        r.deep_view() == interface(machine.deep_view()),
{
    let dhcp = Json::nothing().with("arch", Json::text("x86_64")).with(
        "hostname",
        Json::text(hostname),
    ).with(
        "ip",
        Json::nothing().with("address", Json::text(machine.ip_address.as_str())),
    ).with("lease_time", Json::number(86400)).with(
        "mac",
        Json::text(machine.mac_address.as_str()),
    ).with("name_servers", Json::texts(&machine.nameservers)).with("uefi", Json::Bool(true));
    let netboot = Json::nothing().with("allowPXE", Json::Bool(true)).with(
        "allowWorkflow",
        Json::Bool(true),
    );
    Json::nothing().with("dhcp", dhcp).with("netboot", netboot)
}

/// The resource that describes a machine.
pub fn register_machine(machine: &Machine) -> (r: Json)
    ensures
        r.deep_view() == hardware(machine.deep_view()),
{
    let name = hardware_name(machine.mac_address.as_str());
    let hostname: String = match &machine.hostname {
        Some(h) => h.clone(),
        None => name.clone(),
    };
    let id: String = match &machine.memorable_name {
        Some(n) => n.clone(),
        None => name.clone(),
    };
    let instance = Json::nothing().with("id", Json::text(id.as_str())).with(
        "hostname",
        Json::text(hostname.as_str()),
    );
    let metadata = Json::nothing().with("name", Json::text(name.as_str())).with(
        "namespace",
        Json::text("tink"),
    );
    let spec_part = Json::nothing().with(
        "metadata",
        Json::nothing().with("instance", instance),
    ).with("disks", list_disks(machine)).with(
        "interfaces",
        Json::only(describe_interface(machine, hostname.as_str())),
    );
    Json::nothing().with("apiVersion", Json::text("tinkerbell.org/v1alpha1")).with(
        "kind",
        Json::text("Hardware"),
    ).with("metadata", metadata).with("spec", spec_part)
}

/// The template by which an operating system is installed.
pub open spec fn template_for(os_choice: Option<Seq<char>>) -> Seq<char> {
    os_choice.unwrap_or("ubuntu-2204"@)
}

/// The workflow that installs the chosen operating system on a machine.
pub open spec fn install_workflow(m: MachineView) -> JsonView {
    JsonView::nothing().with("apiVersion"@, JsonView::Text("tinkerbell.org/v1alpha1"@)).with(
        "kind"@,
        JsonView::Text("Workflow"@),
    ).with(
        "metadata"@,
        JsonView::nothing().with(
            "name"@,
            JsonView::Text(resource_name("os-install-"@, m.mac_address)),
        ).with("namespace"@, JsonView::Text("tink"@)),
    ).with(
        "spec"@,
        JsonView::nothing().with(
            "templateRef"@,
            JsonView::Text(template_for(m.os_choice)),
        ).with(
            "hardwareRef"@,
            JsonView::Text(resource_name("machine-"@, m.mac_address)),
        ).with(
            "hardwareMap"@,
            JsonView::nothing().with("device_1"@, JsonView::Text(m.mac_address)),
        ),
    )
}

/// The workflow that installs the chosen operating system on a machine.
pub fn create_workflow(machine: &Machine) -> (r: Json)
    ensures
        r.deep_view() == install_workflow(machine.deep_view()),
{
    let mac = machine.mac_address.as_str();
    let template: String = match &machine.os_choice {
        Some(os) => os.clone(),
        None => "ubuntu-2204".to_owned(),
    };
    let metadata = Json::nothing().with("name", Json::text(workflow_name(mac).as_str())).with(
        "namespace",
        Json::text("tink"),
    );
    let spec_part = Json::nothing().with("templateRef", Json::text(template.as_str())).with(
        "hardwareRef",
        Json::text(hardware_name(mac).as_str()),
    ).with("hardwareMap", Json::nothing().with("device_1", Json::text(mac)));
    Json::nothing().with("apiVersion", Json::text("tinkerbell.org/v1alpha1")).with(
        "kind",
        Json::text("Workflow"),
    ).with("metadata", metadata).with("spec", spec_part)
}

/// The workflow of a machine refers to the resource that describes it.
pub proof fn workflow_refers_to_its_machine(m: MachineView)
    ensures
        install_workflow(m).field("spec"@) matches Some(s) && s.text_at("hardwareRef"@)
            == match hardware(
            m,
        ).field("metadata"@) {
            Some(metadata) => metadata.text_at("name"@),
            None => None,
        },
{
    reveal_strlit("apiVersion");
    reveal_strlit("kind");
    reveal_strlit("metadata");
    reveal_strlit("spec");
    reveal_strlit("templateRef");
    reveal_strlit("hardwareRef");
    reveal_strlit("name");
    assert("apiVersion"@.len() != "spec"@.len() && "kind"@[0] != "spec"@[0] && "metadata"@.len()
        != "spec"@.len());
    assert("apiVersion"@.len() != "metadata"@.len() && "kind"@.len() != "metadata"@.len());
    assert("templateRef"@[0] != "hardwareRef"@[0]);
    reveal_with_fuel(crate::json::field_place, 5);
}

/// Whether a resource was found.
#[derive(Debug, PartialEq, Eq)]
pub enum Lookup {
    Found,
    NotFound,
    Failed(String),
}

/// How a resource is brought up to date.
#[derive(Clone, Copy, Debug, PartialEq, Eq, Structural)]
pub enum Apply {
    /// Change the one that is there.
    Patch,
    /// Make a new one.
    Create,
}

/// Decides how a resource of a kind, `Hardware` or `Workflow`, is brought up to date.
pub fn how_to_apply(kind: &str, lookup: Lookup) -> (r: Result<Apply, String>)
    ensures
        (match r {
            Ok(a) => Ok(a),
            Err(e) => Err(e@),
        }) == (match lookup {
            Lookup::Found => Ok(Apply::Patch),
            Lookup::NotFound => Ok(Apply::Create),
            Lookup::Failed(e) => Err("Error checking "@ + kind@ + " resource: "@ + e@),
        }),
{
    match lookup {
        Lookup::Found => Ok(Apply::Patch),
        Lookup::NotFound => Ok(Apply::Create),
        Lookup::Failed(e) => Err(
            "Error checking ".to_owned().concat(kind).concat(" resource: ").concat(e.as_str()),
        ),
    }
}

/// What is said where a resource of a kind could not be brought up to date.
pub fn apply_failed(kind: &str, how: Apply, e: &str) -> (r: String)
    ensures
        r@ == (match how {
            Apply::Patch => "Failed to update "@,
            Apply::Create => "Failed to create "@,
        }) + kind@ + " resource: "@ + e@,
{
    let start = match how {
        Apply::Patch => "Failed to update ",
        Apply::Create => "Failed to create ",
    };
    start.to_owned().concat(kind).concat(" resource: ").concat(e)
}

/// How the deletion of a resource ended. The texts are those of the errors.
#[derive(Debug, PartialEq, Eq)]
pub enum Deletion {
    Deleted,
    NotFound(String),
    Failed(String),
}

/// What the deletion of a machine's resource and of its workflow amounts to: a resource that was
/// not there is as good as deleted, as long as the other one is no failure.
pub open spec fn deletion_result(hardware: Deletion, workflow: Deletion) -> Result<(), Seq<char>> {
    match (hardware, workflow) {
        (Deletion::Failed(e), _) => Err("Failed to delete hardware resource: "@ + e@),
        (Deletion::NotFound(e), Deletion::Failed(_)) => Err(
            "Failed to delete hardware resource: "@ + e@,
        ),
        (Deletion::Deleted, Deletion::Failed(e)) => Err(
            "Failed to delete workflow resource: "@ + e@,
        ),
        _ => Ok(()),
    }
}

/// Judges the deletion of a machine's resource and of its workflow.
pub fn delete_hardware(hardware: Deletion, workflow: Deletion) -> (r: Result<(), String>)
    ensures
        (match r {
            Ok(()) => Ok(()),
            Err(e) => Err(e@),
        }) == deletion_result(hardware, workflow),
{
    match (hardware, workflow) {
        (Deletion::Failed(e), _) => Err(
            "Failed to delete hardware resource: ".to_owned().concat(e.as_str()),
        ),
        (Deletion::NotFound(e), Deletion::Failed(_)) => Err(
            "Failed to delete hardware resource: ".to_owned().concat(e.as_str()),
        ),
        (Deletion::Deleted, Deletion::Failed(e)) => Err(
            "Failed to delete workflow resource: ".to_owned().concat(e.as_str()),
        ),
        _ => Ok(()),
    }
}

/// Deleting what is not there any more succeeds.
pub proof fn deleting_twice_succeeds(e: String, f: String)
    ensures
        deletion_result(Deletion::NotFound(e), Deletion::NotFound(f)) is Ok,
{
}

/// The name under which the resource of a machine is deleted, by what is given for it.
pub fn deleted_name(given: &str) -> (r: String)
    ensures
        r@ == lowercase(given@),
{
    to_lowercase(given)
}

/// The path of a configuration file that was given with a tilde for the home directory: nothing
/// where it was not, or where there is none.
pub open spec fn expanded(path: Seq<char>, home: Option<Seq<char>>) -> Option<Seq<char>> {
    if begins(path, "~"@) && home is Some {
        Some(home->0 + path.skip(1))
    } else {
        None
    }
}

/// Expands the tilde at the head of a path.
pub fn expand_tilde(path: &str, home: Option<&str>) -> (r: Option<String>)
    ensures
        r.deep_view() == expanded(
            path@,
            match home {
                Some(h) => Some(h@),
                None => None,
            },
        ),
{
    if !starts_with(path, "~") {
        return None;
    }
    proof {
        reveal_strlit("~");
        assert(path@.subrange(1, path@.len() as int) =~= path@.skip(1));
    }
    match home {
        Some(h) => Some(h.to_owned().concat(tail(path, 1).as_str())),
        None => None,
    }
}

/// `name` is made from a hardware address: a prefix, and then the address character for character,
/// with a hyphen for each colon.
pub open spec fn is_named_after(name: Seq<char>, prefix: Seq<char>, mac: Seq<char>) -> bool {
    &&& name.len() == prefix.len() + mac.len()
    &&& forall|i: int| 0 <= i < prefix.len() ==> name[i] == prefix[i]
    &&& forall|i: int|
        0 <= i < mac.len() ==> #[trigger] name[prefix.len() + i] == (if mac[i] == ':' {
            '-'
        } else {
            mac[i]
        })
}

/// The names of the resources of a machine are made from its hardware address, and tell machines
/// apart as the address with hyphens does.
pub proof fn resources_are_named_after_the_address(mac: Seq<char>)
    ensures
        is_named_after(resource_name("machine-"@, mac), "machine-"@, mac),
        is_named_after(resource_name("os-install-"@, mac), "os-install-"@, mac),
{
    swapped_is_char_by_char(mac, ':', '-');
}

/// The resource that describes a machine, read by its paths, says of the machine what is known of
/// it: the name after its hardware address, the memorable name and the host name, its disks in order,
/// and one interface with its own hardware and network address, its name servers, and leave to boot
/// from the network and to run workflows.
pub proof fn hardware_describes_the_machine(m: MachineView)
    ensures
        hardware(m).text_at("apiVersion"@) == Some("tinkerbell.org/v1alpha1"@),
        hardware(m).text_at("kind"@) == Some("Hardware"@),
        hardware(m).field("metadata"@) matches Some(metadata) && metadata.text_at("namespace"@)
            == Some("tink"@) && (metadata.text_at("name"@) matches Some(name) && is_named_after(
            name,
            "machine-"@,
            m.mac_address,
        )),
        hardware(m).field("spec"@) matches Some(told) && {
            let name = hardware(m).field("metadata"@)->0.text_at("name"@)->0;
            &&& told.field2("metadata"@, "instance"@) matches Some(instance) && instance.text_at(
                "id"@,
            ) == Some(
                match m.memorable_name {
                    Some(n) => n,
                    None => name,
                },
            ) && instance.text_at("hostname"@) == Some(
                match m.hostname {
                    Some(n) => n,
                    None => name,
                },
            )
            &&& told.items_at("disks"@) matches Some(disks) && disks.len() == m.disks.len()
                && forall|i: int|
                0 <= i < disks.len() ==> (#[trigger] disks[i]).text_at("device"@) == Some(
                    m.disks[i].device,
                )
            &&& told.items_at("interfaces"@) matches Some(interfaces) && interfaces.len() == 1
                && interfaces[0].field("dhcp"@) is Some && interfaces[0].field("netboot"@) is Some
        },
        ({
            let shown = hardware(m).field("spec"@)->0.items_at("interfaces"@)->0[0];
            let dhcp = shown.field("dhcp"@)->0;
            let netboot = shown.field("netboot"@)->0;
            let name = hardware(m).field("metadata"@)->0.text_at("name"@)->0;
            &&& dhcp.field2("ip"@, "address"@) == Some(JsonView::Text(m.ip_address))
            &&& dhcp.text_at("mac"@) == Some(m.mac_address)
            &&& dhcp.text_at("hostname"@) == Some(
                match m.hostname {
                    Some(n) => n,
                    None => name,
                },
            )
            &&& dhcp.text_at("arch"@) == Some("x86_64"@)
            &&& dhcp.unsigned_at("lease_time"@) == Some(86400u64)
            &&& dhcp.items_at("name_servers"@) matches Some(servers) && servers.len()
                == m.nameservers.len() && forall|i: int|
                0 <= i < servers.len() ==> (#[trigger] servers[i]).text() == Some(m.nameservers[i])
            &&& dhcp.field("uefi"@) == Some(JsonView::Bool(true))
            &&& netboot.field("allowPXE"@) == Some(JsonView::Bool(true))
            &&& netboot.field("allowWorkflow"@) == Some(JsonView::Bool(true))
        }),
{
    resources_are_named_after_the_address(m.mac_address);
    reveal_strlit("apiVersion");
    reveal_strlit("kind");
    reveal_strlit("metadata");
    reveal_strlit("spec");
    reveal_strlit("name");
    reveal_strlit("namespace");
    reveal_strlit("disks");
    reveal_strlit("interfaces");
    reveal_strlit("id");
    reveal_strlit("hostname");
    reveal_strlit("arch");
    reveal_strlit("ip");
    reveal_strlit("lease_time");
    reveal_strlit("mac");
    reveal_strlit("name_servers");
    reveal_strlit("uefi");
    reveal_strlit("allowPXE");
    reveal_strlit("allowWorkflow");
    reveal_strlit("dhcp");
    reveal_strlit("netboot");
    reveal_strlit("instance");
    reveal_strlit("device");
    reveal_strlit("address");
    assert("apiVersion"@.len() != "kind"@.len());
    assert("apiVersion"@.len() != "metadata"@.len());
    assert("kind"@.len() != "metadata"@.len());
    assert("apiVersion"@.len() != "spec"@.len());
    assert("kind"@[0] != "spec"@[0]);
    assert("metadata"@.len() != "spec"@.len());
    assert("name"@.len() != "namespace"@.len());
    assert("metadata"@.len() != "disks"@.len());
    assert("metadata"@.len() != "interfaces"@.len());
    assert("disks"@.len() != "interfaces"@.len());
    assert("id"@.len() != "hostname"@.len());
    assert("arch"@.len() != "hostname"@.len());
    assert("arch"@.len() != "ip"@.len());
    assert("hostname"@.len() != "ip"@.len());
    assert("arch"@.len() != "lease_time"@.len());
    assert("hostname"@.len() != "lease_time"@.len());
    assert("ip"@.len() != "lease_time"@.len());
    assert("arch"@.len() != "mac"@.len());
    assert("hostname"@.len() != "mac"@.len());
    assert("ip"@.len() != "mac"@.len());
    assert("lease_time"@.len() != "mac"@.len());
    assert("arch"@.len() != "name_servers"@.len());
    assert("hostname"@.len() != "name_servers"@.len());
    assert("ip"@.len() != "name_servers"@.len());
    assert("lease_time"@.len() != "name_servers"@.len());
    assert("mac"@.len() != "name_servers"@.len());
    assert("arch"@[0] != "uefi"@[0]);
    assert("hostname"@.len() != "uefi"@.len());
    assert("ip"@.len() != "uefi"@.len());
    assert("lease_time"@.len() != "uefi"@.len());
    assert("mac"@.len() != "uefi"@.len());
    assert("name_servers"@.len() != "uefi"@.len());
    assert("allowPXE"@.len() != "allowWorkflow"@.len());
    assert("dhcp"@.len() != "netboot"@.len());
    reveal_with_fuel(crate::json::field_place, 8);
    let disks = disk_list(m)->List_0;
    assert forall|i: int| 0 <= i < disks.len() implies (#[trigger] disks[i]).text_at("device"@)
        == Some(m.disks[i].device) by {
        assert(disks[i] == JsonView::nothing().with("device"@, JsonView::Text(m.disks[i].device)));
    }
    let servers = JsonView::texts(m.nameservers)->List_0;
    assert forall|i: int| 0 <= i < servers.len() implies (#[trigger] servers[i]).text() == Some(
        m.nameservers[i],
    ) by {}
}

/// The workflow of a machine, read by its paths, installs the operating system that was chosen for
/// it, or else the standard one, on that machine and on no other.
pub proof fn workflow_installs_the_choice(m: MachineView)
    ensures
        install_workflow(m).text_at("apiVersion"@) == Some("tinkerbell.org/v1alpha1"@),
        install_workflow(m).text_at("kind"@) == Some("Workflow"@),
        install_workflow(m).field("metadata"@) matches Some(metadata) && metadata.text_at(
            "namespace"@,
        ) == Some("tink"@) && (metadata.text_at("name"@) matches Some(name) && is_named_after(
            name,
            "os-install-"@,
            m.mac_address,
        )),
        install_workflow(m).field("spec"@) matches Some(told) && {
            &&& told.text_at("templateRef"@) == Some(
                match m.os_choice {
                    Some(os) => os,
                    None => "ubuntu-2204"@,
                },
            )
            &&& told.text_at("hardwareRef"@) matches Some(name) && is_named_after(
                name,
                "machine-"@,
                m.mac_address,
            )
            &&& told.field2("hardwareMap"@, "device_1"@) == Some(JsonView::Text(m.mac_address))
        },
{
    resources_are_named_after_the_address(m.mac_address);
    reveal_strlit("apiVersion");
    reveal_strlit("kind");
    reveal_strlit("metadata");
    reveal_strlit("spec");
    reveal_strlit("name");
    reveal_strlit("namespace");
    reveal_strlit("templateRef");
    reveal_strlit("hardwareRef");
    reveal_strlit("hardwareMap");
    reveal_strlit("device_1");
    assert("apiVersion"@.len() != "kind"@.len());
    assert("apiVersion"@.len() != "metadata"@.len());
    assert("kind"@.len() != "metadata"@.len());
    assert("apiVersion"@.len() != "spec"@.len());
    assert("kind"@[0] != "spec"@[0]);
    assert("metadata"@.len() != "spec"@.len());
    assert("name"@.len() != "namespace"@.len());
    assert("templateRef"@[0] != "hardwareRef"@[0]);
    assert("templateRef"@[0] != "hardwareMap"@[0]);
    assert("hardwareRef"@[8] != "hardwareMap"@[8]);
    reveal_with_fuel(crate::json::field_place, 8);
}

/// Deleting a machine succeeds exactly where neither of its resources is left: each was deleted, or
/// was not there.
pub proof fn deletion_succeeds_when_nothing_is_left(hardware: Deletion, workflow: Deletion)
    ensures
        deletion_result(hardware, workflow) is Ok <==> !(hardware is Failed) && !(
        workflow is Failed),
        hardware matches Deletion::Failed(e) ==> deletion_result(hardware, workflow) == Err::<
            (),
            Seq<char>,
        >("Failed to delete hardware resource: "@ + e@),
        hardware is Deleted ==> (workflow matches Deletion::Failed(e) ==> deletion_result(
            hardware,
            workflow,
        ) == Err::<(), Seq<char>>("Failed to delete workflow resource: "@ + e@)),
{
}

/// A path is expanded exactly where it begins with a tilde and the home directory is known: what
/// stood behind the tilde then stands behind the home directory.
pub proof fn tilde_stands_for_home(path: Seq<char>, rest: Seq<char>, home: Seq<char>)
    ensures
        expanded(seq!['~'] + rest, Some(home)) == Some(home + rest),
        expanded(seq!['~'] + rest, None) is None,
        path.len() == 0 || path[0] != '~' ==> expanded(path, Some(home)) is None,
{
    reveal_strlit("~");
    let whole = seq!['~'] + rest;
    assert(whole.skip(1) =~= rest);
    assert(whole.subrange(0, 1) =~= "~"@);
    if begins(path, "~"@) {
        assert(path.subrange(0, 1)[0] == "~"@[0]);
    }
}

} // verus!
