//! What the replies of the Proxmox API say.

use vstd::prelude::*;

use crate::json::{Json, JsonView, list_view};
use crate::seqs::{
    ends_of, first_is_first, first_some, first_some_step, somes, somes_come_in_order, somes_step,
    this_is_first,
};
use crate::text::{
    all_ascii, begins, byte_count, byte_len, capitals_become_small, contains, count,
    counted_is_held, cut, cut_is_at_the_first, decimal, decimal_of, holds, is_part, lowercase,
    lowercase_of_ascii, numeral, parse_number, parts_make_up_the_text, pieces, pieces_of_two, same,
    split, split_once, stands_at, starts_with, tally, to_lowercase,
};

verus! {

// ---------------------------------------------------------------------------------------------
// Nodes
// ---------------------------------------------------------------------------------------------

/// The names of the nodes in a node list, with a gap for a node that has none.
pub open spec fn node_list(value: JsonView) -> Option<Seq<Option<Seq<char>>>> {
    match value.items_at("data"@) {
        Some(items) => Some(items.map_values(|n: JsonView| n.text_at("node"@))),
        None => None,
    }
}

/// Reads the names of the nodes from a node list.
pub fn read_node_list(value: &Json) -> (r: Option<Vec<Option<String>>>)
    ensures
        r.deep_view() == node_list(value.deep_view()),
{
    match value.items_at("data") {
        Some(items) => {
            let ghost want = list_view(items@).map_values(|n: JsonView| n.text_at("node"@));
            let mut names: Vec<Option<String>> = Vec::new();
            let mut i: usize = 0;
            while i < items.len()
                invariant
                    i <= items.len(),
                    want == list_view(items@).map_values(|n: JsonView| n.text_at("node"@)),
                    names.deep_view() == want.take(i as int),
                decreases items.len() - i,
            {
                let name: Option<String> = match items[i].text_at("node") {
                    Some(s) => Some(s.to_owned()),
                    None => None,
                };
                assert(name.deep_view() == want[i as int]);
                let ghost before = names.deep_view();
                names.push(name);
                i = i + 1;
                assert(names.deep_view() =~= before.push(name.deep_view()));
                assert(names.deep_view() =~= want.take(i as int));
            }
            proof {
                ends_of(want);
            }
            Some(names)
        },
        None => None,
    }
}

/// The address that a node reports of itself.
pub open spec fn host_ip(value: JsonView) -> Option<Seq<char>> {
    match value.field("data"@) {
        Some(data) => data.text_at("ip"@),
        None => None,
    }
}

/// The name under which a node is recorded: its own, with the version it runs where it says so.
pub open spec fn host_label(node: Seq<char>, value: JsonView) -> Seq<char> {
    match value.field("data"@) {
        Some(data) => match data.text_at("pveversion"@) {
            Some(version) => node + " (PVE "@ + version + ")"@,
            None => node,
        },
        None => node,
    }
}

/// Reads the address that a node reports of itself.
pub fn read_host_ip(value: &Json) -> (r: Option<String>)
    ensures
        r.deep_view() == host_ip(value.deep_view()),
{
    match value.get("data") {
        Some(data) => match data.text_at("ip") {
            Some(ip) => Some(ip.to_owned()),
            None => None,
        },
        None => None,
    }
}

/// Reads the name under which a node is recorded.
pub fn read_host_label(node: &str, value: &Json) -> (r: String)
    ensures
        r@ == host_label(node@, value.deep_view()),
{
    match value.get("data") {
        Some(data) => match data.text_at("pveversion") {
            Some(version) => {
                let mut label = node.to_owned();
                label.append(" (PVE ");
                label.append(version);
                label.append(")");
                label
            },
            None => node.to_owned(),
        },
        None => node.to_owned(),
    }
}

/// The text in the first of the fields that a network interface can keep its hardware address
/// in; nothing where that field holds no text.
pub open spec fn interface_hwaddr(iface: JsonView) -> Option<Seq<char>> {
    if iface.field("hwaddr"@) is Some {
        iface.text_at("hwaddr"@)
    } else if iface.field("ether"@) is Some {
        iface.text_at("ether"@)
    } else {
        iface.text_at("address"@)
    }
}

/// The hardware address by which one of its interfaces identifies a node: that of an Ethernet
/// port, a bond or a bridge, seventeen bytes long with a colon in it, in small letters.
pub open spec fn identifying_mac(iface: JsonView) -> Option<Seq<char>> {
    let kind = iface.text_at("type"@);
    let name = iface.text_at("iface"@).unwrap_or(""@);
    match interface_hwaddr(iface) {
        Some(mac) => if (kind == Some("eth"@) || kind == Some("bond"@) || begins(name, "vmbr"@))
            && byte_count(mac) == 17 && holds(mac, ":"@) {
            Some(lowercase(mac))
        } else {
            None
        },
        None => None,
    }
}

/// The hardware address of a node: that of its first interface which identifies it.
pub open spec fn host_mac(value: JsonView) -> Option<Seq<char>> {
    match value.items_at("data"@) {
        Some(items) => first_some(items.map_values(|i: JsonView| identifying_mac(i))),
        None => None,
    }
}

fn read_identifying_mac(iface: &Json) -> (r: Option<String>)
    ensures
        r.deep_view() == identifying_mac(iface.deep_view()),
{
    let kind_fits = match iface.text_at("type") {
        Some(kind) => same(kind, "eth") || same(kind, "bond"),
        None => false,
    };
    let name = match iface.text_at("iface") {
        Some(name) => name,
        None => "",
    };
    let mac = if iface.get("hwaddr").is_some() {
        iface.text_at("hwaddr")
    } else if iface.get("ether").is_some() {
        iface.text_at("ether")
    } else {
        iface.text_at("address")
    };
    match mac {
        Some(mac) => if (kind_fits || starts_with(name, "vmbr")) && byte_len(mac) == 17 && contains(
            mac,
            ":",
        ) {
            Some(to_lowercase(mac))
        } else {
            None
        },
        None => None,
    }
}

/// Reads the hardware address of a node from its network configuration.
pub fn read_host_mac(value: &Json) -> (r: Option<String>)
    ensures
        r.deep_view() == host_mac(value.deep_view()),
{
    match value.items_at("data") {
        Some(items) => {
            let ghost found = list_view(items@).map_values(|i: JsonView| identifying_mac(i));
            let mut i: usize = 0;
            proof {
                ends_of(found);
            }
            while i < items.len()
                invariant
                    i <= items.len(),
                    found == list_view(items@).map_values(|i: JsonView| identifying_mac(i)),
                    first_some(found) == first_some(found.skip(i as int)),
                    host_mac(value.deep_view()) == first_some(found),
                decreases items.len() - i,
            {
                proof {
                    first_some_step(found, i as int);
                }
                let mac = read_identifying_mac(&items[i]);
                assert(mac.deep_view() == found[i as int]);
                if mac.is_some() {
                    return mac;
                }
                i = i + 1;
            }
            proof {
                ends_of(found);
            }
            None
        },
        None => None,
    }
}

// ---------------------------------------------------------------------------------------------
// Virtual machines
// ---------------------------------------------------------------------------------------------

/// A virtual machine as the list of a node names it.
#[derive(Clone, Debug, PartialEq, Eq)]
pub struct VmEntry {
    pub vmid: u32,
    pub name: String,
    pub status: String,
}

/// A virtual machine in a list, as a mathematical value.
pub struct VmEntryView {
    pub vmid: u32,
    pub name: Seq<char>,
    pub status: Seq<char>,
}

impl DeepView for VmEntry {
    type V = VmEntryView;

    open spec fn deep_view(&self) -> VmEntryView {
        VmEntryView { vmid: self.vmid, name: self.name@, status: self.status@ }
    }
}

/// The virtual machine that an item of the list stands for: none without a number.
pub open spec fn vm_entry(item: JsonView) -> Option<VmEntryView> {
    match item.unsigned_at("vmid"@) {
        Some(id) => Some(
            VmEntryView {
                vmid: id as u32,
                name: item.text_at("name"@).unwrap_or("unknown"@),
                status: item.text_at("status"@).unwrap_or("unknown"@),
            },
        ),
        None => None,
    }
}

/// The virtual machines in the list of a node.
pub open spec fn vm_list(value: JsonView) -> Option<Seq<VmEntryView>> {
    match value.items_at("data"@) {
        Some(items) => Some(somes(items.map_values(|i: JsonView| vm_entry(i)))),
        None => None,
    }
}

#[verifier::truncate]
fn low_half(n: u64) -> (r: u32)
    ensures
        r == n as u32,
{
    n as u32
}

fn read_vm_entry(item: &Json) -> (r: Option<VmEntry>)
    ensures
        r.deep_view() == vm_entry(item.deep_view()),
{
    match item.unsigned_at("vmid") {
        Some(id) => {
            let name = match item.text_at("name") {
                Some(s) => s,
                None => "unknown",
            };
            let status = match item.text_at("status") {
                Some(s) => s,
                None => "unknown",
            };
            Some(VmEntry { vmid: low_half(id), name: name.to_owned(), status: status.to_owned() })
        },
        None => None,
    }
}

/// Reads the virtual machines in the list of a node.
pub fn read_vm_list(value: &Json) -> (r: Option<Vec<VmEntry>>)
    ensures
        r.deep_view() == vm_list(value.deep_view()),
{
    match value.items_at("data") {
        Some(items) => {
            let ghost found = list_view(items@).map_values(|i: JsonView| vm_entry(i));
            let mut vms: Vec<VmEntry> = Vec::new();
            let mut i: usize = 0;
            proof {
                ends_of(found);
                assert(vms.deep_view() =~= somes(found.take(0)));
            }
            while i < items.len()
                invariant
                    i <= items.len(),
                    found == list_view(items@).map_values(|i: JsonView| vm_entry(i)),
                    vms.deep_view() == somes(found.take(i as int)),
                decreases items.len() - i,
            {
                proof {
                    somes_step(found, i as int);
                }
                let ghost before = vms.deep_view();
                let entry = read_vm_entry(&items[i]);
                assert(entry.deep_view() == found[i as int]);
                match entry {
                    Some(vm) => {
                        vms.push(vm);
                        assert(vms.deep_view() =~= before.push(vm.deep_view()));
                    },
                    None => {},
                }
                i = i + 1;
            }
            proof {
                ends_of(found);
            }
            Some(vms)
        },
        None => None,
    }
}

/// The operating system that the name of a virtual machine suggests.
pub open spec fn guessed_os(name: Seq<char>) -> Seq<char> {
    let small = lowercase(name);
    if holds(small, "ubuntu"@) {
        "Ubuntu 22.04"@
    } else if holds(small, "debian"@) {
        "Debian 12"@
    } else if holds(small, "centos"@) {
        "CentOS 7"@
    } else if holds(small, "windows"@) {
        "Windows Server"@
    } else {
        "Unknown OS"@
    }
}

/// Guesses the operating system of a virtual machine from its name.
pub fn guess_os(name: &str) -> (r: String)
    ensures
        r@ == guessed_os(name@),
{
    let small = to_lowercase(name);
    let os = if contains(small.as_str(), "ubuntu") {
        "Ubuntu 22.04"
    } else if contains(small.as_str(), "debian") {
        "Debian 12"
    } else if contains(small.as_str(), "centos") {
        "CentOS 7"
    } else if contains(small.as_str(), "windows") {
        "Windows Server"
    } else {
        "Unknown OS"
    };
    os.to_owned()
}

/// The memory in bytes and the processor count in the state of a virtual machine; 0 where it
/// does not say.
pub open spec fn vm_resources(value: JsonView) -> (u64, u32) {
    match value.field("data"@) {
        Some(data) => (
            data.unsigned_at("maxmem"@).unwrap_or(0),
            data.unsigned_at("cpus"@).unwrap_or(0) as u32,
        ),
        None => (0, 0),
    }
}

/// Reads the memory and the processor count from the state of a virtual machine.
pub fn read_vm_resources(value: &Json) -> (r: (u64, u32))
    ensures
        r == vm_resources(value.deep_view()),
{
    match value.get("data") {
        Some(data) => {
            let memory: u64 = match data.unsigned_at("maxmem") {
                Some(n) => n,
                None => 0,
            };
            let cpus: u64 = match data.unsigned_at("cpus") {
                Some(n) => n,
                None => 0,
            };
            (memory, low_half(cpus))
        },
        None => (0, 0),
    }
}

/// The configuration switches the guest agent on.
pub open spec fn agent_enabled(config: JsonView) -> bool {
    match config.text_at("agent"@) {
        Some(agent) => holds(agent, "enabled=1"@) || holds(agent, "enabled=true"@),
        None => false,
    }
}

/// Reads whether the configuration switches the guest agent on.
pub fn read_agent_enabled(config: &Json) -> (r: bool)
    ensures
        r == agent_enabled(config.deep_view()),
{
    match config.text_at("agent") {
        Some(agent) => contains(agent, "enabled=1") || contains(agent, "enabled=true"),
        None => false,
    }
}

/// The operating system after a look at the configuration; `os` is what was known before.
pub open spec fn configured_os(config: JsonView, os: Seq<char>) -> Seq<char> {
    match config.text_at("ostype"@) {
        Some(kind) => if kind == "l26"@ {
            "Unknown"@
        } else if kind == "win10"@ || kind == "win11"@ {
            "windows-10"@
        } else if kind == "win8"@ || kind == "win7"@ {
            "windows-7"@
        } else if kind == "other"@ {
            os
        } else {
            "unknown"@
        },
        None => os,
    }
}

/// Reads the operating system from the configuration.
pub fn read_configured_os(config: &Json, os: &str) -> (r: String)
    ensures
        r@ == configured_os(config.deep_view(), os@),
{
    match config.text_at("ostype") {
        Some(kind) => {
            if same(kind, "l26") {
                "Unknown".to_owned()
            } else if same(kind, "win10") || same(kind, "win11") {
                "windows-10".to_owned()
            } else if same(kind, "win8") || same(kind, "win7") {
                "windows-7".to_owned()
            } else if same(kind, "other") {
                os.to_owned()
            } else {
                "unknown".to_owned()
            }
        },
        None => os.to_owned(),
    }
}

/// The hardware address that a part `model=address` of a network setting holds: seventeen bytes
/// with five colons, in small letters.
pub open spec fn mac_in_part(part: Seq<char>) -> Option<Seq<char>> {
    match cut(part, '=') {
        Some((_, mac)) => if byte_count(mac) == 17 && tally(mac, ':') == 5 {
            Some(lowercase(mac))
        } else {
            None
        },
        None => None,
    }
}

/// The hardware address in a network setting: that of the first part, between commas, which
/// holds one.
pub open spec fn net_config_mac(net_config: Seq<char>) -> Option<Seq<char>> {
    first_some(pieces(net_config, ',').map_values(|p: Seq<char>| mac_in_part(p)))
}

fn find_mac_in_part(part: &str) -> (r: Option<String>)
    ensures
        r.deep_view() == mac_in_part(part@),
{
    match split_once(part, '=') {
        Some((_, mac)) => {
            if byte_len(mac.as_str()) == 17 && count(mac.as_str(), ':') == 5 {
                Some(to_lowercase(mac.as_str()))
            } else {
                None
            }
        },
        None => None,
    }
}

/// The hardware address in a network setting such as `virtio=AA:BB:CC:DD:EE:FF,bridge=vmbr0`.
pub fn extract_mac_from_net_config(net_config: &str) -> (r: Option<String>)
    ensures
        r.deep_view() == net_config_mac(net_config@),
{
    let parts: Vec<String> = split(net_config, ',');
    let ghost found = pieces(net_config@, ',').map_values(|p: Seq<char>| mac_in_part(p));
    let mut i: usize = 0;
    proof {
        ends_of(found);
    }
    while i < parts.len()
        invariant
            i <= parts.len(),
            parts.deep_view() == pieces(net_config@, ','),
            found == pieces(net_config@, ',').map_values(|p: Seq<char>| mac_in_part(p)),
            first_some(found) == first_some(found.skip(i as int)),
        decreases parts.len() - i,
    {
        proof {
            first_some_step(found, i as int);
            assert(parts.deep_view()[i as int] == parts@[i as int]@);
        }
        let mac = find_mac_in_part(parts[i].as_str());
        if mac.is_some() {
            return mac;
        }
        i = i + 1;
    }
    proof {
        ends_of(found);
    }
    None
}

/// The hardware address in the network setting number `i` of a configuration.
pub open spec fn net_mac(config: JsonView, i: nat) -> Option<Seq<char>> {
    match config.text_at("net"@ + decimal(i)) {
        Some(net) => net_config_mac(net),
        None => None,
    }
}

/// The hardware address of a virtual machine: the first among its network settings 0 to 7.
pub open spec fn vm_mac(config: JsonView) -> Option<Seq<char>> {
    match first_some(Seq::new(8, |i: int| net_mac(config, i as nat))) {
        Some(mac) => Some(lowercase(mac)),
        None => None,
    }
}

/// Reads the hardware address of a virtual machine from its configuration.
pub fn read_vm_mac(config: &Json) -> (r: Option<String>)
    ensures
        r.deep_view() == vm_mac(config.deep_view()),
{
    let ghost found = Seq::new(8, |i: int| net_mac(config.deep_view(), i as nat));
    let mut i: u64 = 0;
    proof {
        ends_of(found);
    }
    while i < 8
        invariant
            i <= 8,
            found == Seq::new(8, |i: int| net_mac(config.deep_view(), i as nat)),
            first_some(found) == first_some(found.skip(i as int)),
        decreases 8 - i,
    {
        proof {
            first_some_step(found, i as int);
        }
        let mut key = "net".to_owned();
        key.append(decimal_of(i).as_str());
        let mac = match config.text_at(key.as_str()) {
            Some(net) => extract_mac_from_net_config(net),
            None => None,
        };
        assert(mac.deep_view() == found[i as int]);
        match mac {
            Some(mac) => {
                return Some(to_lowercase(mac.as_str()));
            },
            None => {},
        }
        i = i + 1;
    }
    proof {
        ends_of(found);
    }
    None
}

// ---------------------------------------------------------------------------------------------
// The guest agent
// ---------------------------------------------------------------------------------------------

/// The reply to a ping shows a guest agent at work: there is data, and no error in it.
pub open spec fn agent_alive(value: JsonView) -> bool {
    value.field("data"@) is Some && value.field2("data"@, "error"@) is None
}

/// Reads whether the reply to a ping shows a guest agent at work.
pub fn read_agent_alive(value: &Json) -> (r: bool)
    ensures
        r == agent_alive(value.deep_view()),
{
    value.get("data").is_some() && value.get2("data", "error").is_none()
}

/// What a guest calls its own operating system.
pub open spec fn detected_os(result: JsonView) -> Seq<char> {
    let name = result.text_at("id"@).unwrap_or("Unknown"@);
    let version = result.text_at("version"@).unwrap_or(""@);
    match result.text_at("pretty-name"@) {
        Some(pretty) => pretty,
        None => if version.len() > 0 {
            name + " "@ + version
        } else {
            name
        },
    }
}

/// The number that `s` stands for, if it fits into thirty-two bits.
pub open spec fn numeral32(s: Seq<char>) -> Option<u64> {
    match numeral(s, 10) {
        Some(n) => if n <= u32::MAX {
            Some(n)
        } else {
            None
        },
        None => None,
    }
}

/// The name that the library has for the operating system of a guest.
pub open spec fn standard_os(result: JsonView) -> Seq<char> {
    let name = lowercase(result.text_at("id"@).unwrap_or("Unknown"@));
    let version = result.text_at("version"@).unwrap_or(""@);
    let detected = detected_os(result);
    let small = lowercase(detected);
    if holds(name, "ubuntu"@) || holds(small, "ubuntu"@) {
        let parts = pieces(version, '.');
        if parts.len() >= 2 {
            "ubuntu-"@ + parts[0] + parts[1]
        } else if holds(detected, "22.04"@) {
            "ubuntu-2204"@
        } else if holds(detected, "24.04"@) {
            "ubuntu-2404"@
        } else {
            "ubuntu"@
        }
    } else if holds(name, "debian"@) || holds(small, "debian"@) {
        if holds(detected, "12"@) || holds(detected, "bookworm"@) {
            "debian-12"@
        } else {
            match numeral32(pieces(version, ' ')[0]) {
                Some(n) => "debian-"@ + decimal(n as nat),
                None => "debian"@,
            }
        }
    } else {
        detected
    }
}

/// The operating system after a look at what the guest agent says of it; `os` is what was known
/// before.
pub open spec fn guest_os(value: JsonView, os: Seq<char>) -> Seq<char> {
    match value.field2("data"@, "result"@) {
        Some(result) => standard_os(result),
        None => os,
    }
}

fn read_standard_os(result: &Json) -> (r: String)
    ensures
        r@ == standard_os(result.deep_view()),
{
    let name = match result.text_at("id") {
        Some(s) => s,
        None => "Unknown",
    };
    let version = match result.text_at("version") {
        Some(s) => s,
        None => "",
    };
    proof {
        reveal_strlit("");
    }
    let detected: String = match result.text_at("pretty-name") {
        Some(pretty) => pretty.to_owned(),
        None => if !version.is_empty() {
            let mut s = name.to_owned();
            s.append(" ");
            s.append(version);
            s
        } else {
            name.to_owned()
        },
    };
    assert(detected@ == detected_os(result.deep_view()));
    let name_small = to_lowercase(name);
    let small = to_lowercase(detected.as_str());
    if contains(name_small.as_str(), "ubuntu") || contains(small.as_str(), "ubuntu") {
        let parts: Vec<String> = split(version, '.');
        if parts.len() >= 2 {
            assert(parts.deep_view()[0] == parts@[0]@);
            assert(parts.deep_view()[1] == parts@[1]@);
            let mut os = "ubuntu-".to_owned();
            os.append(parts[0].as_str());
            os.append(parts[1].as_str());
            os
        } else if contains(detected.as_str(), "22.04") {
            "ubuntu-2204".to_owned()
        } else if contains(detected.as_str(), "24.04") {
            "ubuntu-2404".to_owned()
        } else {
            "ubuntu".to_owned()
        }
    } else if contains(name_small.as_str(), "debian") || contains(small.as_str(), "debian") {
        if contains(detected.as_str(), "12") || contains(detected.as_str(), "bookworm") {
            "debian-12".to_owned()
        } else {
            let parts: Vec<String> = split(version, ' ');
            assert(parts.deep_view()[0] == parts@[0]@);
            match parse_number(parts[0].as_str(), 10) {
                Ok(n) => {
                    if n <= 0xFFFF_FFFF {
                        let mut os = "debian-".to_owned();
                        os.append(decimal_of(n).as_str());
                        os
                    } else {
                        "debian".to_owned()
                    }
                },
                Err(_) => "debian".to_owned(),
            }
        }
    } else {
        detected
    }
}

/// Reads the operating system from what the guest agent says of it.
pub fn read_guest_os(value: &Json, os: &str) -> (r: String)
    ensures
        r@ == guest_os(value.deep_view(), os@),
{
    match value.get2("data", "result") {
        Some(result) => read_standard_os(result),
        None => os.to_owned(),
    }
}

/// The address that an entry of an interface offers: IPv4, neither link-local nor loopback.
pub open spec fn usable_ipv4(entry: JsonView) -> Option<Seq<char>> {
    if entry.text_at("ip-address-type"@) == Some("ipv4"@) {
        match entry.text_at("ip-address"@) {
            Some(addr) => if begins(addr, "169.254."@) || begins(addr, "127."@) {
                None
            } else {
                Some(addr)
            },
            None => None,
        }
    } else {
        None
    }
}

/// The first usable address of an interface.
pub open spec fn interface_ip(iface: JsonView) -> Option<Seq<char>> {
    match iface.items_at("ip-addresses"@) {
        Some(items) => first_some(items.map_values(|e: JsonView| usable_ipv4(e))),
        None => None,
    }
}

/// The interface is one whose address is taken before all others.
pub open spec fn is_preferred_interface(name: Seq<char>) -> bool {
    begins(name, "eth"@) || begins(name, "ens"@) || begins(name, "eno"@)
}

/// The interface is one whose address is taken where no preferred one has any: neither the
/// loopback nor a preferred nor a virtual one.
pub open spec fn is_fallback_interface(name: Seq<char>) -> bool {
    !(begins(name, "lo"@) || is_preferred_interface(name) || begins(name, "tailscale"@) || begins(
        name,
        "docker"@,
    ) || begins(name, "veth"@) || begins(name, "virbr"@) || begins(name, "br-"@))
}

/// The address that an interface offers to the search that is after preferred interfaces, or
/// after the others.
pub open spec fn offered_ip(iface: JsonView, preferred: bool) -> Option<Seq<char>> {
    match iface.text_at("name"@) {
        Some(name) => if preferred && is_preferred_interface(name) || !preferred
            && is_fallback_interface(name) {
            interface_ip(iface)
        } else {
            None
        },
        None => None,
    }
}

/// The address chosen among interfaces: the first on a preferred one, else the first on another.
pub open spec fn chosen_ip(interfaces: Seq<JsonView>) -> Option<Seq<char>> {
    match first_some(interfaces.map_values(|i: JsonView| offered_ip(i, true))) {
        Some(ip) => Some(ip),
        None => first_some(interfaces.map_values(|i: JsonView| offered_ip(i, false))),
    }
}

/// What the guest agent says of the addresses: nothing where it lists no interfaces, else the
/// chosen address, if there is one.
pub open spec fn guest_ip(value: JsonView) -> Option<Option<Seq<char>>> {
    match value.field2("data"@, "result"@) {
        Some(result) => match result.items() {
            Some(interfaces) => Some(chosen_ip(interfaces)),
            None => None,
        },
        None => None,
    }
}

fn read_usable_ipv4(entry: &Json) -> (r: Option<String>)
    ensures
        r.deep_view() == usable_ipv4(entry.deep_view()),
{
    let is_v4 = match entry.text_at("ip-address-type") {
        Some(kind) => same(kind, "ipv4"),
        None => false,
    };
    if !is_v4 {
        return None;
    }
    match entry.text_at("ip-address") {
        Some(addr) => if starts_with(addr, "169.254.") || starts_with(addr, "127.") {
            None
        } else {
            Some(addr.to_owned())
        },
        None => None,
    }
}

/// The first usable address of an interface.
pub fn find_valid_ipv4_in_interface(iface: &Json) -> (r: Option<String>)
    ensures
        r.deep_view() == interface_ip(iface.deep_view()),
{
    match iface.items_at("ip-addresses") {
        Some(items) => {
            let ghost found = list_view(items@).map_values(|e: JsonView| usable_ipv4(e));
            let mut i: usize = 0;
            proof {
                ends_of(found);
            }
            while i < items.len()
                invariant
                    i <= items.len(),
                    found == list_view(items@).map_values(|e: JsonView| usable_ipv4(e)),
                    first_some(found) == first_some(found.skip(i as int)),
                    interface_ip(iface.deep_view()) == first_some(found),
                decreases items.len() - i,
            {
                proof {
                    first_some_step(found, i as int);
                }
                let addr = read_usable_ipv4(&items[i]);
                assert(addr.deep_view() == found[i as int]);
                if addr.is_some() {
                    return addr;
                }
                i = i + 1;
            }
            proof {
                ends_of(found);
            }
            None
        },
        None => None,
    }
}

fn is_preferred(name: &str) -> (r: bool)
    ensures
        r == is_preferred_interface(name@),
{
    starts_with(name, "eth") || starts_with(name, "ens") || starts_with(name, "eno")
}

fn is_fallback(name: &str) -> (r: bool)
    ensures
        r == is_fallback_interface(name@),
{
    !(starts_with(name, "lo") || is_preferred(name) || starts_with(name, "tailscale")
        || starts_with(name, "docker") || starts_with(name, "veth") || starts_with(name, "virbr")
        || starts_with(name, "br-"))
}

fn find_offered_ip(interfaces: &Vec<Json>, preferred: bool) -> (r: Option<String>)
    ensures
        r.deep_view() == first_some(
            list_view(interfaces@).map_values(|i: JsonView| offered_ip(i, preferred)),
        ),
{
    let ghost found = list_view(interfaces@).map_values(|i: JsonView| offered_ip(i, preferred));
    let mut i: usize = 0;
    proof {
        ends_of(found);
    }
    while i < interfaces.len()
        invariant
            i <= interfaces.len(),
            found == list_view(interfaces@).map_values(|i: JsonView| offered_ip(i, preferred)),
            first_some(found) == first_some(found.skip(i as int)),
        decreases interfaces.len() - i,
    {
        proof {
            first_some_step(found, i as int);
        }
        let wanted = match interfaces[i].text_at("name") {
            Some(name) => (preferred && is_preferred(name)) || (!preferred && is_fallback(name)),
            None => false,
        };
        if wanted {
            let ip = find_valid_ipv4_in_interface(&interfaces[i]);
            assert(ip.deep_view() == found[i as int]);
            if ip.is_some() {
                return ip;
            }
        }
        i = i + 1;
    }
    proof {
        ends_of(found);
    }
    None
}

/// Chooses an address among interfaces.
pub fn choose_ip(interfaces: &Vec<Json>) -> (r: Option<String>)
    ensures
        r.deep_view() == chosen_ip(list_view(interfaces@)),
{
    match find_offered_ip(interfaces, true) {
        Some(ip) => Some(ip),
        None => find_offered_ip(interfaces, false),
    }
}

/// Reads what the guest agent says of the addresses.
pub fn read_guest_ip(value: &Json) -> (r: Option<Option<String>>)
    ensures
        r.deep_view() == guest_ip(value.deep_view()),
{
    match value.get2("data", "result") {
        Some(result) => match result.as_array() {
            Some(interfaces) => Some(choose_ip(interfaces)),
            None => None,
        },
        None => None,
    }
}

// ---------------------------------------------------------------------------------------------
// What the replies amount to
// ---------------------------------------------------------------------------------------------

/// The names of the nodes are those in the items of the list, one for one.
pub proof fn nodes_are_read_in_order(value: JsonView, items: Seq<JsonView>)
    requires
        value.items_at("data"@) == Some(items),
    ensures
        node_list(value) matches Some(nodes) && nodes.len() == items.len() && forall|i: int|
            0 <= i < items.len() ==> #[trigger] nodes[i] == (match items[i].field("node"@) {
                Some(JsonView::Text(name)) => Some(name),
                _ => None,
            }),
{
}

/// A reply without a list of nodes or of virtual machines holds none.
pub proof fn no_list_without_data(value: JsonView)
    ensures
        value.items_at("data"@) is None <==> node_list(value) is None,
        value.items_at("data"@) is None <==> vm_list(value) is None,
{
}

/// Every item of a list that has a number is a virtual machine, with its own number, name and state,
/// and they come in the order of the list; an item without a number is none.
pub proof fn vms_are_read_in_order(
    value: JsonView,
    longer: JsonView,
    items: Seq<JsonView>,
    item: JsonView,
)
    requires
        value.items_at("data"@) == Some(items),
        longer.items_at("data"@) == Some(items.push(item)),
    ensures
        items.len() == 0 ==> vm_list(value)->0.len() == 0,
        match item.field("vmid"@) {
            Some(JsonView::Number { unsigned: Some(id), .. }) => {
                let all = vm_list(longer)->0;
                &&& all.len() == vm_list(value)->0.len() + 1
                &&& all.drop_last() == vm_list(value)->0
                &&& id <= u32::MAX ==> all.last().vmid == id
                &&& item.text_at("name"@) matches Some(name) ==> all.last().name == name
                &&& item.text_at("status"@) matches Some(status) ==> all.last().status == status
                &&& item.text_at("name"@) is None ==> all.last().name == "unknown"@
                &&& item.text_at("status"@) is None ==> all.last().status == "unknown"@
            },
            _ => vm_list(longer) == vm_list(value),
        },
{
    let f = |i: JsonView| vm_entry(i);
    assert(items.push(item).map_values(f) =~= items.map_values(f).push(f(item)));
    if let Some(vm) = vm_entry(item) {
        somes_come_in_order(items.map_values(f), vm);
        assert(somes(items.map_values(f)).push(vm).drop_last() =~= somes(items.map_values(f)));
    } else {
        somes_come_in_order(items.map_values(f), VmEntryView { vmid: 0, name: ""@, status: ""@ });
    }
}

/// What a node says of itself: its address, and its name with the version that it runs.
pub proof fn node_describes_itself(value: JsonView, data: JsonView, node: Seq<char>)
    requires
        value.field("data"@) == Some(data),
    ensures
        host_ip(value) == (match data.field("ip"@) {
            Some(JsonView::Text(ip)) => Some(ip),
            _ => None,
        }),
        host_label(node, value) == (match data.field("pveversion"@) {
            Some(JsonView::Text(version)) => node + " (PVE "@ + version + ")"@,
            _ => node,
        }),
{
}

/// The hardware address of a node is that of its first interface that is a port, a bond or a bridge
/// with a proper address, in small letters: no earlier one identifies it.
pub proof fn node_goes_by_its_first_interface(value: JsonView, items: Seq<JsonView>, i: int)
    requires
        value.items_at("data"@) == Some(items),
        0 <= i < items.len(),
        identifying_mac(items[i]) is Some,
        forall|j: int| 0 <= j < i ==> identifying_mac(#[trigger] items[j]) is None,
    ensures
        host_mac(value) == identifying_mac(items[i]),
{
    let s = items.map_values(|i: JsonView| identifying_mac(i));
    assert forall|j: int| 0 <= j < i implies (#[trigger] s[j]) is None by {
        assert(identifying_mac(items[j]) is None);
    }
    this_is_first(s, i);
}

/// An interface identifies its node exactly where it is of a kind that does, and has a hardware address
/// of seventeen bytes with a colon; the field `hwaddr` counts before `ether`, and that before `address`.
pub proof fn ports_bonds_and_bridges_identify(iface: JsonView, mac: Seq<char>)
    requires
        iface.field("hwaddr"@) == Some(JsonView::Text(mac)) || (iface.field("hwaddr"@) is None
            && iface.field("ether"@) == Some(JsonView::Text(mac))) || (iface.field(
            "hwaddr"@,
        ) is None && iface.field("ether"@) is None && iface.field("address"@) == Some(
            JsonView::Text(mac),
        )),
    ensures
        ({
            let kind = iface.text_at("type"@);
            let bridge = iface.text_at("iface"@) matches Some(name) && begins(name, "vmbr"@);
            if (kind == Some("eth"@) || kind == Some("bond"@) || bridge) && byte_count(mac) == 17
                && mac.contains(':') {
                identifying_mac(iface) == Some(lowercase(mac))
            } else {
                identifying_mac(iface) is None
            }
        }),
{
    reveal_strlit(":");
    assert(":"@ =~= seq![':']);
    counted_is_held(mac, ':');
    reveal_strlit("");
    reveal_strlit("vmbr");
    if iface.text_at("iface"@) is None {
        assert(!begins(""@, "vmbr"@));
    }
}

/// The hardware address in a network setting such as `virtio=<address>,bridge=vmbr0` is the one behind
/// the kind of the card, in small letters.
pub proof fn card_tells_its_address(card: Seq<char>, mac: Seq<char>, rest: Seq<char>)
    requires
        !card.contains('='),
        !card.contains(','),
        !mac.contains(','),
        byte_count(mac) == 17,
        tally(mac, ':') == 5,
    ensures
        net_config_mac(card + seq!['='] + mac + seq![','] + rest) == Some(lowercase(mac)),
        net_config_mac(card + seq!['='] + mac) == Some(lowercase(mac)),
{
    let part = card + seq!['='] + mac;
    assert forall|i: int| 0 <= i < part.len() implies part[i] != ',' by {
        if i < card.len() {
            assert(card.contains(card[i]));
        } else if i > card.len() {
            assert(mac.contains(mac[i - card.len() - 1]));
        }
    }
    assert(!part.contains(','));
    pieces_of_two(part, ',', rest);
    cut_is_at_the_first(card, '=', mac);
    let f = |p: Seq<char>| mac_in_part(p);
    let one = pieces(part, ',').map_values(f);
    let all = pieces(part + seq![','] + rest, ',').map_values(f);
    assert(mac_in_part(part) == Some(lowercase(mac)));
    assert(pieces(part + seq![','] + rest, ',')[0] == part);
    this_is_first(one, 0);
    this_is_first(all, 0);
}

/// The hardware address of a virtual machine is that of the first of its eight network settings that
/// holds one.
pub proof fn vm_goes_by_its_first_card(config: JsonView, k: nat, mac: Seq<char>)
    requires
        k < 8,
        all_ascii(mac),
        config.text_at("net"@ + decimal(k)) matches Some(net) && net_config_mac(net) == Some(
            lowercase(mac),
        ),
        forall|j: nat|
            j < k ==> match config.text_at("net"@ + #[trigger] decimal(j)) {
                Some(net) => net_config_mac(net) is None,
                None => true,
            },
    ensures
        vm_mac(config) == Some(lowercase(mac)),
{
    let s = Seq::new(8, |i: int| net_mac(config, i as nat));
    assert forall|j: int| 0 <= j < k implies (#[trigger] s[j]) is None by {
        assert(decimal(j as nat) == decimal(j as nat));
    }
    this_is_first(s, k as int);
    capitals_become_small(mac);
}

/// A virtual machine without an address in any of its network settings has none.
pub proof fn no_card_no_address(config: JsonView)
    requires
        forall|j: nat|
            j < 8 ==> match config.text_at("net"@ + #[trigger] decimal(j)) {
                Some(net) => net_config_mac(net) is None,
                None => true,
            },
    ensures
        vm_mac(config) is None,
{
    let s = Seq::new(8, |i: int| net_mac(config, i as nat));
    assert forall|j: int| 0 <= j < 8 implies (#[trigger] s[j]) is None by {
        assert(decimal(j as nat) == decimal(j as nat));
    }
    first_is_first(s);
}

/// The memory and the processors of a virtual machine are those that its state names.
pub proof fn resources_are_those_of_the_state(value: JsonView, data: JsonView)
    requires
        value.field("data"@) == Some(data),
    ensures
        vm_resources(value).0 == (match data.field("maxmem"@) {
            Some(JsonView::Number { unsigned: Some(n), .. }) => n,
            _ => 0,
        }),
        match data.field("cpus"@) {
            Some(JsonView::Number { unsigned: Some(n), .. }) => n <= u32::MAX ==> vm_resources(
                value,
            ).1 == n,
            _ => vm_resources(value).1 == 0,
        },
{
}

/// The guest agent is switched on exactly where its setting says so, and is at work exactly where its
/// answer holds data without an error.
pub proof fn agent_is_on_or_off(config: JsonView, reply: JsonView)
    ensures
        agent_enabled(config) <==> (config.text_at("agent"@) matches Some(setting) && (is_part(
            "enabled=1"@,
            setting,
        ) || is_part("enabled=true"@, setting))),
        agent_alive(reply) <==> (reply.field("data"@) matches Some(data) && data.field(
            "error"@,
        ) is None),
{
    if let Some(setting) = config.text_at("agent"@) {
        parts_make_up_the_text(setting, "enabled=1"@);
        parts_make_up_the_text(setting, "enabled=true"@);
    }
}

/// An address of a guest is usable exactly where it is one of the fourth version that is neither local
/// to a link nor to the guest.
pub proof fn addresses_that_can_be_used(entry: JsonView, addr: Seq<char>)
    requires
        entry.text_at("ip-address"@) == Some(addr),
    ensures
        usable_ipv4(entry) == (if entry.text_at("ip-address-type"@) == Some("ipv4"@) && !(exists|
            t: Seq<char>,
        |
            addr == #[trigger] ("169.254."@ + t)) && !(exists|t: Seq<char>|
            addr == #[trigger] ("127."@ + t)) {
            Some(addr)
        } else {
            None
        }),
{
    parts_make_up_the_text(addr, "169.254."@);
    parts_make_up_the_text(addr, "127."@);
}

/// The address of an interface is the first of its addresses that can be used.
pub proof fn interface_has_its_first_address(iface: JsonView, items: Seq<JsonView>, i: int)
    requires
        iface.items_at("ip-addresses"@) == Some(items),
        0 <= i < items.len(),
        usable_ipv4(items[i]) is Some,
        forall|j: int| 0 <= j < i ==> usable_ipv4(#[trigger] items[j]) is None,
    ensures
        interface_ip(iface) == usable_ipv4(items[i]),
{
    let s = items.map_values(|e: JsonView| usable_ipv4(e));
    assert forall|j: int| 0 <= j < i implies (#[trigger] s[j]) is None by {
        assert(usable_ipv4(items[j]) is None);
    }
    this_is_first(s, i);
}

/// The interface is called like a port of a machine.
pub open spec fn is_port(iface: JsonView) -> bool {
    iface.text_at("name"@) matches Some(name) && (begins(name, "eth"@) || begins(name, "ens"@)
        || begins(name, "eno"@))
}

/// The interface is neither called like a port nor like one that is local or virtual.
pub open spec fn is_other_interface(iface: JsonView) -> bool {
    !is_port(iface) && (iface.text_at("name"@) matches Some(name) && !begins(name, "lo"@)
        && !begins(name, "tailscale"@) && !begins(name, "docker"@) && !begins(name, "veth"@)
        && !begins(name, "virbr"@) && !begins(name, "br-"@))
}

/// The address of a guest is that of the first of its ports that has one. Where none has, it is that of
/// the first other interface that has one, if that is neither local nor virtual.
pub proof fn guest_goes_by_its_ports(value: JsonView, interfaces: Seq<JsonView>, i: int)
    requires
        value.field2("data"@, "result"@) == Some(JsonView::List(interfaces)),
        0 <= i < interfaces.len(),
        interface_ip(interfaces[i]) is Some,
    ensures
        is_port(interfaces[i]) && (forall|j: int|
            0 <= j < i && is_port(#[trigger] interfaces[j]) ==> interface_ip(
                interfaces[j],
            ) is None) ==> guest_ip(value) == Some(interface_ip(interfaces[i])),
        is_other_interface(interfaces[i]) && (forall|j: int|
            0 <= j < interfaces.len() && is_port(#[trigger] interfaces[j]) ==> interface_ip(
                interfaces[j],
            ) is None) && (forall|j: int|
            0 <= j < i && is_other_interface(#[trigger] interfaces[j]) ==> interface_ip(
                interfaces[j],
            ) is None) ==> guest_ip(value) == Some(interface_ip(interfaces[i])),
{
    let ports = interfaces.map_values(|i: JsonView| offered_ip(i, true));
    let others = interfaces.map_values(|i: JsonView| offered_ip(i, false));
    if is_port(interfaces[i]) && (forall|j: int|
        0 <= j < i && is_port(#[trigger] interfaces[j]) ==> interface_ip(interfaces[j]) is None) {
        assert forall|j: int| 0 <= j < i implies (#[trigger] ports[j]) is None by {
            assert(ports[j] == offered_ip(interfaces[j], true));
        }
        this_is_first(ports, i);
    }
    if is_other_interface(interfaces[i]) && (forall|j: int|
        0 <= j < interfaces.len() && is_port(#[trigger] interfaces[j]) ==> interface_ip(
            interfaces[j],
        ) is None) && (forall|j: int|
        0 <= j < i && is_other_interface(#[trigger] interfaces[j]) ==> interface_ip(
            interfaces[j],
        ) is None) {
        assert forall|j: int| 0 <= j < ports.len() implies (#[trigger] ports[j]) is None by {
            assert(ports[j] == offered_ip(interfaces[j], true));
        }
        first_is_first(ports);
        assert forall|j: int| 0 <= j < i implies (#[trigger] others[j]) is None by {
            assert(others[j] == offered_ip(interfaces[j], false));
        }
        this_is_first(others, i);
    }
}

/// A guest whose interfaces are all local or virtual, or have no usable address, has none; one that
/// lists no interfaces says nothing of its addresses.
pub proof fn guest_without_an_address(value: JsonView, interfaces: Seq<JsonView>)
    ensures
        value.field2("data"@, "result"@) == Some(JsonView::List(interfaces)) && (forall|j: int|
            0 <= j < interfaces.len() ==> interface_ip(#[trigger] interfaces[j]) is None || (
            !is_port(interfaces[j]) && !is_other_interface(interfaces[j]))) ==> guest_ip(value)
            == Some(None::<Seq<char>>),
        value.field2("data"@, "result"@) is None ==> guest_ip(value) is None,
{
    let ports = interfaces.map_values(|i: JsonView| offered_ip(i, true));
    let others = interfaces.map_values(|i: JsonView| offered_ip(i, false));
    if forall|j: int|
        0 <= j < interfaces.len() ==> interface_ip(#[trigger] interfaces[j]) is None || (!is_port(
            interfaces[j],
        ) && !is_other_interface(interfaces[j])) {
        assert forall|j: int| 0 <= j < ports.len() implies (#[trigger] ports[j]) is None by {
            assert(ports[j] == offered_ip(interfaces[j], true));
        }
        assert forall|j: int| 0 <= j < others.len() implies (#[trigger] others[j]) is None by {
            assert(others[j] == offered_ip(interfaces[j], false));
        }
        first_is_first(ports);
        first_is_first(others);
    }
}

/// The operating system that a name suggests is the first of those known that it names, in whatever
/// letters.
pub proof fn names_suggest_systems(name: Seq<char>)
    ensures
        ({
            let small = lowercase(name);
            let ubuntu = is_part("ubuntu"@, small);
            let debian = is_part("debian"@, small);
            let centos = is_part("centos"@, small);
            let windows = is_part("windows"@, small);
            &&& ubuntu ==> guessed_os(name) == "Ubuntu 22.04"@
            &&& debian && !ubuntu ==> guessed_os(name) == "Debian 12"@
            &&& centos && !ubuntu && !debian ==> guessed_os(name) == "CentOS 7"@
            &&& windows && !ubuntu && !debian && !centos ==> guessed_os(name) == "Windows Server"@
            &&& !ubuntu && !debian && !centos && !windows ==> guessed_os(name) == "Unknown OS"@
        }),
{
    let small = lowercase(name);
    parts_make_up_the_text(small, "ubuntu"@);
    parts_make_up_the_text(small, "debian"@);
    parts_make_up_the_text(small, "centos"@);
    parts_make_up_the_text(small, "windows"@);
}

/// A guest that says which version of Ubuntu it runs goes by that, without the dot; one that runs the
/// twelfth Debian goes by that.
pub proof fn guests_have_standard_names(
    value: JsonView,
    result: JsonView,
    os: Seq<char>,
    major: Seq<char>,
    minor: Seq<char>,
)
    requires
        value.field2("data"@, "result"@) == Some(result),
    ensures
        result.text_at("id"@) == Some("ubuntu"@) && result.text_at("version"@) == Some(
            major + seq!['.'] + minor,
        ) && !major.contains('.') && !minor.contains('.') ==> guest_os(value, os) == "ubuntu-"@
            + major + minor,
        result.text_at("id"@) == Some("debian"@) && (result.text_at("pretty-name"@)
            matches Some(pretty) && is_part("12"@, pretty) && !is_part(
            "ubuntu"@,
            lowercase(pretty),
        )) ==> guest_os(value, os) == "debian-12"@,
{
    reveal_strlit("ubuntu");
    reveal_strlit("debian");
    let u = "ubuntu"@;
    let d = "debian"@;
    lowercase_of_ascii(u);
    lowercase_of_ascii(d);
    assert(u.subrange(0, 6) =~= u);
    assert(d.subrange(0, 6) =~= d);
    assert(stands_at(u, u, 0));
    assert(stands_at(d, d, 0));
    if result.text_at("id"@) == Some(u) && result.text_at("version"@) == Some(
        major + seq!['.'] + minor,
    ) && !major.contains('.') && !minor.contains('.') {
        pieces_of_two(major, '.', minor);
        pieces_of_two(minor, '.', Seq::empty());
    }
    if result.text_at("id"@) == Some(d) {
        assert(!holds(d, u)) by {
            if holds(d, u) {
                let i = choose|i: int| stands_at(d, u, i);
                assert(i == 0);
                assert(d.subrange(0, 6)[0] == u[0]);
            }
        }
        if let Some(pretty) = result.text_at("pretty-name"@) {
            parts_make_up_the_text(pretty, "12"@);
            parts_make_up_the_text(lowercase(pretty), u);
        }
    }
}

} // verus!
