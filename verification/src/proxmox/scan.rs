//! Searching the local networks for Proxmox hosts.

use vstd::prelude::*;
use vstd::arithmetic::power2::{lemma2_to64, pow2};

use crate::proxmox::connect::PROXMOX_PORT;
use crate::proxmox::discovery::{DiscoveredProxmox, DiscoveredView};
use crate::text::{begins, same, starts_with};

verus! {

/// An address of a network interface, with the length of its network prefix.
#[derive(Clone, Copy, Debug, PartialEq, Eq, Structural)]
pub struct Ipv4Config {
    pub addr: u32,
    pub prefix_len: u8,
}

/// A network interface.
#[derive(Clone, Debug, PartialEq, Eq)]
pub struct NetInterface {
    pub name: String,
    pub is_loopback: bool,
    pub ipv4: Vec<Ipv4Config>,
}

/// The name is one that virtual interfaces have.
pub open spec fn is_virtual_name(name: Seq<char>) -> bool {
    begins(name, "docker"@) || begins(name, "virbr"@) || begins(name, "veth"@) || begins(
        name,
        "cni"@,
    ) || begins(name, "flannel"@) || begins(name, "br-"@) || begins(name, "vnet"@) || name
        == "cni0"@ || name == "docker0"@ || name == "podman0"@ || name == "podman1"@ || name
        == "virbr0"@ || name == "k3s0"@ || name == "k3s1"@
}

/// The name is one that physical interfaces have.
pub open spec fn is_physical_name(name: Seq<char>) -> bool {
    begins(name, "eth"@) || begins(name, "en"@) || begins(name, "wl"@) || begins(name, "bond"@)
        || begins(name, "br0"@)
}

/// The networks of the interface are searched.
pub open spec fn is_searched(name: Seq<char>, is_loopback: bool, addresses: nat) -> bool {
    !is_loopback && !is_virtual_name(name) && (is_physical_name(name) || addresses > 0)
}

/// How many addresses of a network are considered.
pub open spec fn host_count(prefix_len: u8) -> nat {
    if prefix_len >= 30 {
        4
    } else if prefix_len >= 24 {
        pow2((32 - prefix_len) as nat)
    } else {
        256
    }
}

/// The first address of the network that an address belongs to.
pub open spec fn network_of(ip: u32, prefix_len: u8) -> int {
    ip - ip as int % pow2((32 - prefix_len) as nat) as int
}

/// The network has a prefix of a possible length, and its addresses do not run over the end of
/// the address space.
pub open spec fn is_searchable(config: Ipv4Config) -> bool {
    1 <= config.prefix_len <= 32 && network_of(config.addr, config.prefix_len) + host_count(
        config.prefix_len,
    ) - 2 <= u32::MAX
}

/// The addresses of a network that are searched: all that are considered, but for the first and
/// the last.
pub open spec fn network_targets(config: Ipv4Config) -> Seq<u32> {
    Seq::new(
        (host_count(config.prefix_len) - 2) as nat,
        |i: int| (network_of(config.addr, config.prefix_len) + i + 1) as u32,
    )
}

/// The addresses of several networks that are searched.
pub open spec fn all_targets(configs: Seq<Ipv4Config>) -> Seq<u32>
    decreases configs.len(),
{
    if configs.len() == 0 {
        Seq::empty()
    } else {
        all_targets(configs.drop_last()) + network_targets(configs.last())
    }
}

proof fn host_count_bounds(prefix_len: u8)
    ensures
        4 <= host_count(prefix_len) <= 256,
{
    lemma2_to64();
    if 24 <= prefix_len < 30 {
        assert(prefix_len == 24 || prefix_len == 25 || prefix_len == 26 || prefix_len == 27
            || prefix_len == 28 || prefix_len == 29);
    }
}

fn count_hosts(prefix_len: u8) -> (r: u32)
    ensures
        r == host_count(prefix_len),
        4 <= r <= 256,
{
    proof {
        lemma2_to64();
    }
    if prefix_len >= 30 {
        4
    } else if prefix_len >= 29 {
        8
    } else if prefix_len >= 28 {
        16
    } else if prefix_len >= 27 {
        32
    } else if prefix_len >= 26 {
        64
    } else if prefix_len >= 25 {
        128
    } else {
        256
    }
}

/// The first address of the network that an address belongs to.
pub fn calculate_network_address(ip: u32, prefix_len: u8) -> (r: u32)
    requires
        1 <= prefix_len <= 32,
    ensures
        r == network_of(ip, prefix_len),
{
    let host_bits: u32 = 32 - prefix_len as u32;
    let size: u32 = 1u32 << host_bits;
    proof {
        vstd::arithmetic::power2::lemma_pow2_strictly_increases(host_bits as nat, 32);
        lemma2_to64();
        assert(pow2(32) == 0x1_0000_0000);
        vstd::bits::lemma_u32_shl_is_mul(1, host_bits);
        assert(size == pow2(host_bits as nat));
        vstd::arithmetic::power2::lemma_pow2_pos(host_bits as nat);
        vstd::bits::lemma_u32_low_bits_mask_is_mod(ip, host_bits as nat);
        vstd::bits::lemma_low_bits_mask_values();
        assert(vstd::bits::low_bits_mask(host_bits as nat) == size - 1);
    }
    let low: u32 = size - 1;
    assert(ip & low == ip as nat % pow2(host_bits as nat));
    assert(ip & !low == ip - (ip & low)) by (bit_vector);
    ip & !low
}

/// The address with the given number in a network.
pub fn generate_ip_in_subnet(network_addr: u32, host_num: u32) -> (r: u32)
    requires
        network_addr + host_num <= u32::MAX,
    ensures
        r == network_addr + host_num,
{
    network_addr + host_num
}

/// Whether the networks of the interface are searched.
pub fn wants_search(interface: &NetInterface) -> (r: bool)
    ensures
        r == is_searched(interface.name@, interface.is_loopback, interface.ipv4@.len()),
{
    let name = interface.name.as_str();
    let virt = starts_with(name, "docker") || starts_with(name, "virbr") || starts_with(name, "veth")
        || starts_with(name, "cni") || starts_with(name, "flannel") || starts_with(name, "br-")
        || starts_with(name, "vnet") || same(name, "cni0") || same(name, "docker0") || same(
        name,
        "podman0",
    ) || same(name, "podman1") || same(name, "virbr0") || same(name, "k3s0") || same(name, "k3s1");
    let physical = starts_with(name, "eth") || starts_with(name, "en") || starts_with(name, "wl")
        || starts_with(name, "bond") || starts_with(name, "br0");
    !interface.is_loopback && !virt && (physical || interface.ipv4.len() > 0)
}

/// Whether the addresses of a network can be enumerated.
pub fn searchable(config: &Ipv4Config) -> (r: bool)
    ensures
        r == is_searchable(*config),
{
    if config.prefix_len < 1 || config.prefix_len > 32 {
        return false;
    }
    let network: u32 = calculate_network_address(config.addr, config.prefix_len);
    let count: u32 = count_hosts(config.prefix_len);
    network <= 0xFFFF_FFFF - (count - 2)
}

/// The addresses of the given networks that are searched.
pub fn scan_targets(configs: &Vec<Ipv4Config>) -> (r: Vec<u32>)
    requires
        forall|i: int| 0 <= i < configs@.len() ==> is_searchable(#[trigger] configs@[i]),
    ensures
        r@ == all_targets(configs@),
{
    let mut targets: Vec<u32> = Vec::new();
    let mut k: usize = 0;
    assert(configs@.take(0) =~= Seq::empty());
    while k < configs.len()
        invariant
            k <= configs.len(),
            forall|i: int| 0 <= i < configs@.len() ==> is_searchable(#[trigger] configs@[i]),
            targets@ == all_targets(configs@.take(k as int)),
        decreases configs.len() - k,
    {
        let config = configs[k];
        assert(is_searchable(configs@[k as int]));
        let network: u32 = calculate_network_address(config.addr, config.prefix_len);
        let count: u32 = count_hosts(config.prefix_len);
        let ghost before = targets@;
        let ghost wanted = network_targets(config);
        let mut i: u32 = 1;
        assert(wanted.take(0) =~= Seq::empty());
        while i < count - 1
            invariant
                1 <= i <= count - 1,
                4 <= count <= 256,
                count == host_count(config.prefix_len),
                network == network_of(config.addr, config.prefix_len),
                network + count - 2 <= u32::MAX,
                wanted == network_targets(config),
                targets@ == before + wanted.take(i - 1),
            decreases count - i,
        {
            let target: u32 = generate_ip_in_subnet(network, i);
            assert(wanted[i - 1] == target);
            targets.push(target);
            i = i + 1;
            assert(targets@ =~= before + wanted.take(i - 1));
        }
        assert(wanted.take(i - 1) =~= wanted);
        assert(configs@.take(k + 1).drop_last() =~= configs@.take(k as int));
        assert(configs@.take(k + 1).last() == config);
        k = k + 1;
    }
    assert(configs@.take(configs@.len() as int) =~= configs@);
    targets
}

/// The targets in a network with a prefix of at most thirty bits belong to that network, and its
/// own address is not among them.
pub proof fn targets_stay_in_their_network(config: Ipv4Config, i: int)
    requires
        is_searchable(config),
        config.prefix_len <= 30,
        0 <= i < network_targets(config).len(),
    ensures
        network_of(network_targets(config)[i], config.prefix_len) == network_of(
            config.addr,
            config.prefix_len,
        ),
        network_targets(config)[i] != network_of(config.addr, config.prefix_len),
{
    let p = config.prefix_len;
    let size = pow2((32 - p) as nat) as int;
    let ip = config.addr as int;
    let net = network_of(config.addr, p);
    lemma2_to64();
    host_count_bounds(p);
    vstd::arithmetic::power2::lemma_pow2_pos((32 - p) as nat);
    if p < 24 {
        vstd::arithmetic::power2::lemma_pow2_strictly_increases(8, (32 - p) as nat);
    }
    assert(host_count(p) <= size);
    assert(net == size * (ip / size)) by {
        vstd::arithmetic::div_mod::lemma_fundamental_div_mod(ip, size);
    }
    let t = net + i + 1;
    vstd::arithmetic::div_mod::lemma_mod_multiples_vanish(ip / size, i + 1, size);
    vstd::arithmetic::div_mod::lemma_small_mod((i + 1) as nat, size as nat);
    assert(t % size == i + 1);
    assert(0 <= net) by {
        vstd::arithmetic::div_mod::lemma_mod_decreases(ip as nat, size as nat);
    }
    assert(network_targets(config)[i] == t);
}

/// A host that answers on the port of the Proxmox API. `reverse_name` is what its address
/// resolves to; it is kept where it is a name.
pub fn found_host(host: String, reverse_name: Option<String>) -> (r: DiscoveredProxmox)
    ensures
        r.deep_view() == (DiscoveredView {
            host: host@,
            port: PROXMOX_PORT,
            hostname: match reverse_name {
                Some(name) => if name@ != host@ {
                    Some(name@)
                } else {
                    None
                },
                None => None,
            },
            mac_address: None,
            machine_type: "host"@,
            vmid: None,
            parent_host: None,
        }),
{
    let hostname: Option<String> = match reverse_name {
        Some(name) => if same(name.as_str(), host.as_str()) {
            None
        } else {
            Some(name)
        },
        None => None,
    };
    DiscoveredProxmox {
        host,
        port: PROXMOX_PORT,
        hostname,
        mac_address: None,
        machine_type: "host".to_owned(),
        vmid: None,
        parent_host: None,
    }
}

/// Where a search failed.
#[derive(Clone, Copy, Debug, PartialEq, Eq, Structural)]
pub enum ScanFailure {
    /// In the search itself.
    Scan,
    /// In the task that ran it.
    Task,
}

/// What is answered where a search failed: a heading and a message.
pub fn scan_failed(failure: ScanFailure, e: &str) -> (r: (String, String))
    ensures
        (r.0@, r.1@) == (match failure {
            ScanFailure::Scan => ("Scan Error"@, "Network scan failed: "@ + e@),
            ScanFailure::Task => ("Task Error"@, "Scanner task failed: "@ + e@),
        }),
{
    match failure {
        ScanFailure::Scan => (
            "Scan Error".to_owned(),
            "Network scan failed: ".to_owned().concat(e),
        ),
        ScanFailure::Task => (
            "Task Error".to_owned(),
            "Scanner task failed: ".to_owned().concat(e),
        ),
    }
}

/// The search covers a network: in one with a prefix of 24 to 30 bits, every address but the first and
/// the last is a target, each once and in order.
pub proof fn whole_network_is_searched(config: Ipv4Config, host: int)
    requires
        is_searchable(config),
        24 <= config.prefix_len <= 30,
        0 < host < pow2((32 - config.prefix_len) as nat) - 1,
    ensures
        network_targets(config).len() == pow2((32 - config.prefix_len) as nat) - 2,
        network_targets(config)[host - 1] == config.addr - config.addr as int % pow2(
            (32 - config.prefix_len) as nat,
        ) as int + host,
{
    lemma2_to64();
    host_count_bounds(config.prefix_len);
    let size = pow2((32 - config.prefix_len) as nat) as int;
    let ip = config.addr as int;
    vstd::arithmetic::power2::lemma_pow2_pos((32 - config.prefix_len) as nat);
    vstd::arithmetic::div_mod::lemma_mod_decreases(ip as nat, size as nat);
    assert(0 <= network_of(config.addr, config.prefix_len));
}

/// Of a larger network the first 254 addresses behind its own are searched, and the targets of several
/// networks are those of the one and then those of the next.
pub proof fn large_networks_are_searched_in_part(config: Ipv4Config, configs: Seq<Ipv4Config>)
    ensures
        1 <= config.prefix_len < 24 ==> network_targets(config).len() == 254,
        all_targets(configs.push(config)) == all_targets(configs) + network_targets(config),
        all_targets(Seq::empty()).len() == 0,
{
    assert(configs.push(config).drop_last() =~= configs);
}

/// Loopbacks and virtual interfaces are never searched; a physical one always is, and any other where it
/// has an address.
pub proof fn physical_interfaces_are_searched(prefix: Seq<char>, more: Seq<char>, addresses: nat)
    ensures
        !is_searched(more, true, addresses),
        !is_searched("docker"@ + more, false, addresses),
        !is_searched("virbr"@ + more, false, addresses),
        !is_searched("veth"@ + more, false, addresses),
        !is_searched("cni"@ + more, false, addresses),
        !is_searched("flannel"@ + more, false, addresses),
        !is_searched("br-"@ + more, false, addresses),
        !is_searched("vnet"@ + more, false, addresses),
        prefix == "eth"@ || prefix == "en"@ || prefix == "wl"@ || prefix == "bond"@ || prefix
            == "br0"@ ==> is_searched(prefix + more, false, addresses),
        !is_virtual_name(more) && addresses > 0 ==> is_searched(more, false, addresses),
        !is_virtual_name(more) && !is_physical_name(more) ==> !is_searched(more, false, 0),
{
    begins_with_itself("docker"@, more);
    begins_with_itself("virbr"@, more);
    begins_with_itself("veth"@, more);
    begins_with_itself("cni"@, more);
    begins_with_itself("flannel"@, more);
    begins_with_itself("br-"@, more);
    begins_with_itself("vnet"@, more);
    begins_with_itself(prefix, more);
    if prefix == "eth"@ || prefix == "en"@ || prefix == "wl"@ || prefix == "bond"@ || prefix
        == "br0"@ {
        physical_is_not_virtual(prefix, more);
    }
}

proof fn begins_with_itself(prefix: Seq<char>, more: Seq<char>)
    ensures
        begins(prefix + more, prefix),
{
    assert((prefix + more).subrange(0, prefix.len() as int) =~= prefix);
}

proof fn physical_is_not_virtual(prefix: Seq<char>, more: Seq<char>)
    requires
        prefix == "eth"@ || prefix == "en"@ || prefix == "wl"@ || prefix == "bond"@ || prefix
            == "br0"@,
    ensures
        !is_virtual_name(prefix + more),
{
    reveal_strlit("eth");
    reveal_strlit("en");
    reveal_strlit("wl");
    reveal_strlit("bond");
    reveal_strlit("br0");
    reveal_strlit("docker");
    reveal_strlit("virbr");
    reveal_strlit("veth");
    reveal_strlit("cni");
    reveal_strlit("flannel");
    reveal_strlit("br-");
    reveal_strlit("vnet");
    reveal_strlit("cni0");
    reveal_strlit("docker0");
    reveal_strlit("podman0");
    reveal_strlit("podman1");
    reveal_strlit("virbr0");
    reveal_strlit("k3s0");
    reveal_strlit("k3s1");
    let name = prefix + more;
    assert(name[0] == prefix[0]);
    assert(name[1] == prefix[1]);
    let first = name[0];
    assert(first == 'e' || first == 'w' || first == 'b');
    if begins(name, "docker"@) {
        assert(name.subrange(0, 6)[0] == 'd');
    }
    if begins(name, "virbr"@) {
        assert(name.subrange(0, 5)[0] == 'v');
    }
    if begins(name, "veth"@) {
        assert(name.subrange(0, 4)[0] == 'v');
    }
    if begins(name, "cni"@) {
        assert(name.subrange(0, 3)[0] == 'c');
    }
    if begins(name, "flannel"@) {
        assert(name.subrange(0, 7)[0] == 'f');
    }
    if begins(name, "vnet"@) {
        assert(name.subrange(0, 4)[0] == 'v');
    }
    if begins(name, "br-"@) {
        assert(name.subrange(0, 3)[1] == 'r');
        assert(name.subrange(0, 3)[2] == '-');
        assert(name[2] == '-');
        assert(prefix == "br0"@);
        assert(name[2] == '0');
    }
    assert("cni0"@[0] == 'c');
    assert("docker0"@[0] == 'd');
    assert("podman0"@[0] == 'p');
    assert("podman1"@[0] == 'p');
    assert("virbr0"@[0] == 'v');
    assert("k3s0"@[0] == 'k');
    assert("k3s1"@[0] == 'k');
}

} // verus!
