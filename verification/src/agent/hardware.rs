//! The disks, the name servers and the addresses of a machine.

use std::collections::hash_map::DefaultHasher;
use std::hash::Hasher;

use vstd::prelude::*;
use vstd::std_specs::hash::DefaultHasherAdditionalSpecFns;
use vstd::utf8::encode_utf8;

use crate::machine::{DiskInfo, DiskView};
use crate::seqs::{
    ends_of, first_some, first_some_step, somes, somes_of_two, somes_step, this_is_first,
};
use crate::text::{
    begins, characters_are_taken_one_by_one, contains, decimal, decimals_are_plain,
    decimals_are_read_back, first_line_comes_first, held_is_a_part, hex2, holds, is_part, join,
    joined, lines, numeral, only_the_prefix_is_peeled, parse_number, part_at, parted, parted_here,
    parted_is_at_the_first, peeled, pieces, pieces_of_two, push_hex2, remove_char, same, split,
    split_lines, split_words, stands_at, starts_with, trim, trim_prefix, trimmed, without, words,
};

verus! {

// ---------------------------------------------------------------------------------------------
// Disks
// ---------------------------------------------------------------------------------------------

/// A number of bytes as a program prints it; 0 where it is no number.
pub open spec fn byte_number(s: Seq<char>) -> u64 {
    match numeral(s, 10) {
        Some(n) => n,
        None => 0,
    }
}

/// The disk on a line of `lsblk`: its name, its size, and the words of its model. Loop devices
/// and memory disks are left out.
pub open spec fn lsblk_disk(line: Seq<char>) -> Option<DiskView> {
    let parts = words(line);
    if parts.len() < 2 || begins(parts[0], "loop"@) || begins(parts[0], "ram"@) {
        None
    } else {
        Some(
            DiskView {
                device: "/dev/"@ + parts[0],
                size_bytes: byte_number(parts[1]),
                model: if parts.len() > 2 {
                    Some(joined(parts.skip(2), " "@))
                } else {
                    None
                },
                calculated_size: None,
            },
        )
    }
}

/// What stands in the second part of a line that `: ` divides.
pub open spec fn second_part(rest: Seq<char>) -> Seq<char> {
    match parted(rest, ": "@) {
        Some((part, _)) => part,
        None => rest,
    }
}

/// The size in what `fdisk` says of a disk: the number between a comma and the word for bytes.
pub open spec fn fdisk_size(info: Seq<char>) -> u64 {
    match parted(info, ", "@) {
        Some((_, rest)) => match parted(rest, " bytes"@) {
            Some((number, _)) => byte_number(without(number, ',')),
            None => 0,
        },
        None => 0,
    }
}

/// The disk on a line of `fdisk`. Loop devices and memory disks are left out.
pub open spec fn fdisk_disk(line: Seq<char>) -> Option<DiskView> {
    if holds(line, "Disk /dev/"@) && !holds(line, "loop"@) && !holds(line, "ram"@) {
        match parted(line, ": "@) {
            Some((head, rest)) => Some(
                DiskView {
                    device: trimmed(peeled(head, "Disk "@)),
                    size_bytes: fdisk_size(second_part(rest)),
                    model: None,
                    calculated_size: None,
                },
            ),
            None => None,
        }
    } else {
        None
    }
}

/// The program that a list of disks is from.
#[derive(Clone, Copy, Debug, PartialEq, Eq, Structural)]
pub enum DiskLister {
    Lsblk,
    Fdisk,
}

/// The disk on a line.
pub open spec fn disk_on(lister: DiskLister, line: Seq<char>) -> Option<DiskView> {
    match lister {
        DiskLister::Lsblk => lsblk_disk(line),
        DiskLister::Fdisk => fdisk_disk(line),
    }
}

/// What each line says of a disk.
pub open spec fn disk_lines(lister: DiskLister, text: Seq<char>) -> Seq<Option<DiskView>> {
    Seq::new(lines(text).len(), |i: int| disk_on(lister, lines(text)[i]))
}

/// The disks in what a program printed; none where it did not run with success.
pub open spec fn disks_in(lister: DiskLister, output: Option<Seq<char>>) -> Seq<DiskView> {
    match output {
        Some(text) => somes(disk_lines(lister, text)),
        None => Seq::empty(),
    }
}

/// The disks of a machine: those that `lsblk` lists, or those that `fdisk` does where there are
/// none.
pub open spec fn detected_disks(lsblk: Option<Seq<char>>, fdisk: Option<Seq<char>>) -> Seq<DiskView> {
    let listed = disks_in(DiskLister::Lsblk, lsblk);
    if listed.len() == 0 {
        disks_in(DiskLister::Fdisk, fdisk)
    } else {
        listed
    }
}

fn read_bytes(s: &str) -> (r: u64)
    ensures
        r == byte_number(s@),
{
    match parse_number(s, 10) {
        Ok(n) => n,
        Err(_) => 0,
    }
}

fn read_lsblk_line(line: &str) -> (r: Option<DiskInfo>)
    ensures
        r.deep_view() == lsblk_disk(line@),
{
    let mut parts = split_words(line);
    let ghost all = parts.deep_view();
    if parts.len() < 2 {
        return None;
    }
    assert(all[0] == parts@[0]@);
    assert(all[1] == parts@[1]@);
    if starts_with(parts[0].as_str(), "loop") || starts_with(parts[0].as_str(), "ram") {
        return None;
    }
    let device = "/dev/".to_owned().concat(parts[0].as_str());
    let size_bytes = read_bytes(parts[1].as_str());
    let model = if parts.len() > 2 {
        let rest = parts.split_off(2);
        assert(rest.deep_view() =~= all.skip(2));
        Some(join(&rest, " "))
    } else {
        None
    };
    Some(DiskInfo { device, size_bytes, model, calculated_size: None })
}

fn read_fdisk_size(info: &str) -> (r: u64)
    ensures
        r == fdisk_size(info@),
{
    match part_at(info, ", ") {
        Some((_, rest)) => match part_at(rest.as_str(), " bytes") {
            Some((number, _)) => read_bytes(remove_char(number.as_str(), ',').as_str()),
            None => 0,
        },
        None => 0,
    }
}

fn read_fdisk_line(line: &str) -> (r: Option<DiskInfo>)
    ensures
        r.deep_view() == fdisk_disk(line@),
{
    if !contains(line, "Disk /dev/") || contains(line, "loop") || contains(line, "ram") {
        return None;
    }
    match part_at(line, ": ") {
        Some((head, rest)) => {
            let info = match part_at(rest.as_str(), ": ") {
                Some((part, _)) => part,
                None => rest,
            };
            Some(
                DiskInfo {
                    device: trim(trim_prefix(head.as_str(), "Disk ").as_str()),
                    size_bytes: read_fdisk_size(info.as_str()),
                    model: None,
                    calculated_size: None,
                },
            )
        },
        None => None,
    }
}

fn read_disks(lister: DiskLister, output: &Option<String>) -> (r: Vec<DiskInfo>)
    ensures
        r.deep_view() == disks_in(lister, output.deep_view()),
{
    let mut disks: Vec<DiskInfo> = Vec::new();
    let text = match output {
        Some(text) => text,
        None => {
            assert(disks.deep_view() =~= Seq::<DiskView>::empty());
            return disks;
        },
    };
    let all = split_lines(text.as_str());
    let ghost told = disk_lines(lister, text@);
    let mut i: usize = 0;
    proof {
        ends_of(told);
        assert(disks.deep_view() =~= Seq::<DiskView>::empty());
    }
    while i < all.len()
        invariant
            i <= all.len(),
            all.deep_view() == lines(text@),
            told == disk_lines(lister, text@),
            disks.deep_view() == somes(told.take(i as int)),
        decreases all.len() - i,
    {
        proof {
            somes_step(told, i as int);
            assert(all.deep_view()[i as int] == all@[i as int]@);
        }
        let found = match lister {
            DiskLister::Lsblk => read_lsblk_line(all[i].as_str()),
            DiskLister::Fdisk => read_fdisk_line(all[i].as_str()),
        };
        let ghost before = disks.deep_view();
        match found {
            Some(disk) => {
                let ghost new = disk.deep_view();
                disks.push(disk);
                assert(disks.deep_view() =~= before.push(new));
            },
            None => {},
        }
        i = i + 1;
    }
    proof {
        assert(told.len() == all.len());
        ends_of(told);
    }
    disks
}

/// Finds the disks of a machine in what `lsblk` and `fdisk` printed, if they ran with success.
pub fn detect_disks(lsblk: &Option<String>, fdisk: &Option<String>) -> (r: Vec<DiskInfo>)
    ensures
        r.deep_view() == detected_disks(lsblk.deep_view(), fdisk.deep_view()),
{
    let listed = read_disks(DiskLister::Lsblk, lsblk);
    if listed.len() == 0 {
        read_disks(DiskLister::Fdisk, fdisk)
    } else {
        listed
    }
}

// ---------------------------------------------------------------------------------------------
// Name servers
// ---------------------------------------------------------------------------------------------

/// The name server that a line of `resolv.conf` gives.
pub open spec fn nameserver_on(line: Seq<char>) -> Option<Seq<char>> {
    if begins(line, "nameserver"@) && words(line).len() >= 2 {
        Some(words(line)[1])
    } else {
        None
    }
}

/// What each line says of a name server.
pub open spec fn nameserver_lines(text: Seq<char>) -> Seq<Option<Seq<char>>> {
    Seq::new(lines(text).len(), |i: int| nameserver_on(lines(text)[i]))
}

/// The name servers of a machine: those in `resolv.conf`, or public ones where it gives none.
pub open spec fn nameservers(resolv_conf: Option<Seq<char>>) -> Seq<Seq<char>> {
    let given = match resolv_conf {
        Some(text) => somes(nameserver_lines(text)),
        None => Seq::empty(),
    };
    if given.len() == 0 {
        seq!["8.8.8.8"@, "1.1.1.1"@]
    } else {
        given
    }
}

/// The second word of a line.
fn second_word(line: &str) -> (r: Option<String>)
    ensures
        r.deep_view() == (if words(line@).len() >= 2 {
            Some(words(line@)[1])
        } else {
            None
        }),
{
    let parts = split_words(line);
    if parts.len() >= 2 {
        assert(parts.deep_view()[1] == parts@[1]@);
        Some(parts[1].clone())
    } else {
        None
    }
}

fn read_nameservers(text: &str) -> (r: Vec<String>)
    ensures
        r.deep_view() == somes(nameserver_lines(text@)),
{
    let all = split_lines(text);
    let ghost told = nameserver_lines(text@);
    let mut servers: Vec<String> = Vec::new();
    let mut i: usize = 0;
    proof {
        ends_of(told);
        assert(servers.deep_view() =~= Seq::<Seq<char>>::empty());
    }
    while i < all.len()
        invariant
            i <= all.len(),
            all.deep_view() == lines(text@),
            told == nameserver_lines(text@),
            servers.deep_view() == somes(told.take(i as int)),
        decreases all.len() - i,
    {
        proof {
            somes_step(told, i as int);
            assert(all.deep_view()[i as int] == all@[i as int]@);
        }
        let ghost before = servers.deep_view();
        if starts_with(all[i].as_str(), "nameserver") {
            match second_word(all[i].as_str()) {
                Some(server) => {
                    let ghost new = server@;
                    servers.push(server);
                    assert(servers.deep_view() =~= before.push(new));
                },
                None => {},
            }
        }
        i = i + 1;
    }
    proof {
        assert(told.len() == all.len());
        ends_of(told);
    }
    servers
}

/// Finds the name servers of a machine in its `resolv.conf`, if that could be read.
pub fn detect_nameservers(resolv_conf: &Option<String>) -> (r: Vec<String>)
    ensures
        r.deep_view() == nameservers(resolv_conf.deep_view()),
{
    let given = match resolv_conf {
        Some(text) => read_nameservers(text.as_str()),
        None => {
            let none: Vec<String> = Vec::new();
            assert(none.deep_view() =~= Seq::<Seq<char>>::empty());
            none
        },
    };
    if given.len() > 0 {
        return given;
    }
    let mut public: Vec<String> = Vec::new();
    public.push("8.8.8.8".to_owned());
    public.push("1.1.1.1".to_owned());
    assert(public.deep_view() =~= seq!["8.8.8.8"@, "1.1.1.1"@]);
    public
}

/// A machine always has a name server to ask.
pub proof fn some_nameserver_is_known(resolv_conf: Option<Seq<char>>)
    ensures
        nameservers(resolv_conf).len() > 0,
{
}

// ---------------------------------------------------------------------------------------------
// Addresses
// ---------------------------------------------------------------------------------------------

/// The hardware address on a line that holds a mark: its second word. Lines of the loopback
/// interface are passed over.
pub open spec fn address_on(line: Seq<char>, mark: Seq<char>) -> Option<Seq<char>> {
    if holds(line, mark) && !holds(line, "lo:"@) && words(line).len() >= 2 {
        Some(words(line)[1])
    } else {
        None
    }
}

/// What each line says of a hardware address.
pub open spec fn address_lines(text: Seq<char>, mark: Seq<char>) -> Seq<Option<Seq<char>>> {
    Seq::new(lines(text).len(), |i: int| address_on(lines(text)[i], mark))
}

/// The first hardware address in what a program printed, if it ran with success.
pub open spec fn address_in(output: Option<Seq<char>>, mark: Seq<char>) -> Option<Seq<char>> {
    match output {
        Some(text) => first_some(address_lines(text, mark)),
        None => None,
    }
}

/// A network interface: its name, and what its address file holds, if that could be read.
#[derive(Clone, Debug, PartialEq, Eq)]
pub struct Interface {
    pub name: String,
    pub address: Option<String>,
}

/// `Interface` as a mathematical value.
pub struct InterfaceView {
    pub name: Seq<char>,
    pub address: Option<Seq<char>>,
}

impl DeepView for Interface {
    type V = InterfaceView;

    open spec fn deep_view(&self) -> InterfaceView {
        InterfaceView { name: self.name@, address: self.address.deep_view() }
    }
}

/// The hardware address of an interface; the loopback interface counts as having none.
pub open spec fn interface_address(i: InterfaceView) -> Option<Seq<char>> {
    if i.name == "lo"@ {
        None
    } else {
        match i.address {
            Some(address) => {
                let mac = trimmed(address);
                if mac.len() > 0 && mac != "00:00:00:00:00:00"@ {
                    Some(mac)
                } else {
                    None
                }
            },
            None => None,
        }
    }
}

/// What each of the listed interfaces says of the hardware address of the machine: that it is this
/// one, that it cannot be found out because the interface could not be listed, or nothing.
pub open spec fn interface_addresses(
    interfaces: Seq<Result<InterfaceView, Seq<char>>>,
) -> Seq<Option<Result<Seq<char>, Seq<char>>>> {
    Seq::new(
        interfaces.len(),
        |i: int|
            match interfaces[i] {
                Ok(interface) => match interface_address(interface) {
                    Some(mac) => Some(Ok(mac)),
                    None => None,
                },
                Err(why) => Some(Err(why)),
            },
    )
}

/// The address that a machine goes by if none was found: a locally administered one, made from
/// the low bits of a number.
pub open spec fn substitute_address(hash: u64) -> Seq<char> {
    "02:00:00:"@ + hex2((hash / 65536 % 256) as u8) + ":"@ + hex2((hash / 256 % 256) as u8) + ":"@
        + hex2((hash % 256) as u8)
}

/// The number of a host name: the hash of its bytes and of a byte that ends it.
pub open spec fn name_hash(hostname: Seq<char>) -> u64 {
    DefaultHasher::spec_finish(seq![encode_utf8(hostname), seq![255u8]])
}

/// What the hardware address is found by.
#[derive(Debug, PartialEq, Eq)]
pub struct AddressEvidence {
    /// What `ip link show` prints, if it ran with success.
    pub ip_link: Option<String>,
    /// What `ifconfig` prints, if it ran with success.
    pub ifconfig: Option<String>,
    /// The interfaces of the system, each or why it could not be listed.
    pub interfaces: Vec<Result<Interface, String>>,
    /// The name of the machine.
    pub hostname: Option<String>,
}

/// The interfaces as mathematical values.
pub open spec fn interfaces_view(interfaces: Seq<Result<Interface, String>>) -> Seq<
    Result<InterfaceView, Seq<char>>,
> {
    Seq::new(
        interfaces.len(),
        |i: int|
            match interfaces[i] {
                Ok(interface) => Ok(interface.deep_view()),
                Err(why) => Err(why@),
            },
    )
}

/// The name that a machine goes by.
pub open spec fn host(hostname: Option<Seq<char>>) -> Seq<char> {
    match hostname {
        Some(name) => name,
        None => "unknown"@,
    }
}

/// The hardware address of a machine: from `ip`, else from `ifconfig`, else from the interfaces
/// of the system, else one that is always the same for its name.
pub open spec fn mac_address(e: AddressEvidence) -> Result<Seq<char>, Seq<char>> {
    match address_in(e.ip_link.deep_view(), "link/ether"@) {
        Some(mac) => Ok(mac),
        None => match address_in(e.ifconfig.deep_view(), "ether"@) {
            Some(mac) => Ok(mac),
            None => match first_some(interface_addresses(interfaces_view(e.interfaces@))) {
                Some(told) => told,
                None => Ok(substitute_address(name_hash(host(e.hostname.deep_view())))),
            },
        },
    }
}

fn read_address(output: &Option<String>, mark: &str) -> (r: Option<String>)
    ensures
        r.deep_view() == address_in(output.deep_view(), mark@),
{
    let text = match output {
        Some(text) => text,
        None => { return None; },
    };
    let all = split_lines(text.as_str());
    let ghost told = address_lines(text@, mark@);
    let mut i: usize = 0;
    proof {
        ends_of(told);
    }
    while i < all.len()
        invariant
            i <= all.len(),
            all.deep_view() == lines(text@),
            told == address_lines(text@, mark@),
            first_some(told) == first_some(told.skip(i as int)),
            output.deep_view() == Some(text@),
        decreases all.len() - i,
    {
        proof {
            first_some_step(told, i as int);
            assert(all.deep_view()[i as int] == all@[i as int]@);
        }
        let line = all[i].as_str();
        if contains(line, mark) && !contains(line, "lo:") {
            let found = second_word(line);
            if found.is_some() {
                return found;
            }
        }
        i = i + 1;
    }
    proof {
        assert(told.len() == all.len());
        ends_of(told);
    }
    None
}

fn read_interface(interface: &Interface) -> (r: Option<String>)
    ensures
        r.deep_view() == interface_address(interface.deep_view()),
{
    if same(interface.name.as_str(), "lo") {
        return None;
    }
    match &interface.address {
        Some(address) => {
            let mac = trim(address.as_str());
            if mac.as_str().is_empty() || same(mac.as_str(), "00:00:00:00:00:00") {
                None
            } else {
                Some(mac)
            }
        },
        None => None,
    }
}

fn read_interfaces(interfaces: &Vec<Result<Interface, String>>) -> (r: Option<
    Result<String, String>,
>)
    ensures
        (match r {
            Some(Ok(mac)) => Some(Ok(mac@)),
            Some(Err(why)) => Some(Err(why@)),
            None => None,
        }) == first_some(interface_addresses(interfaces_view(interfaces@))),
{
    let ghost told = interface_addresses(interfaces_view(interfaces@));
    let mut i: usize = 0;
    proof {
        ends_of(told);
    }
    while i < interfaces.len()
        invariant
            i <= interfaces.len(),
            told == interface_addresses(interfaces_view(interfaces@)),
            first_some(told) == first_some(told.skip(i as int)),
        decreases interfaces.len() - i,
    {
        proof {
            first_some_step(told, i as int);
        }
        match &interfaces[i] {
            Ok(interface) => match read_interface(interface) {
                Some(mac) => {
                    return Some(Ok(mac));
                },
                None => {},
            },
            Err(why) => {
                return Some(Err(why.clone()));
            },
        }
        i = i + 1;
    }
    proof {
        assert(told.len() == interfaces.len());
        ends_of(told);
    }
    None
}

/// The number of a host name.
fn hash_name(hostname: &str) -> (r: u64)
    ensures
        r == name_hash(hostname@),
{
    let mut hasher = DefaultHasher::new();
    hasher.write(hostname.as_bytes());
    let end: [u8; 1] = [255u8];
    hasher.write(&end);
    assert(end@ =~= seq![255u8]);
    assert(hasher@ =~= seq![encode_utf8(hostname@), seq![255u8]]);
    hasher.finish()
}

/// The address that a machine goes by if none was found.
pub fn substitute_mac(hash: u64) -> (r: String)
    ensures
        r@ == substitute_address(hash),
{
    let mut mac = "02:00:00:".to_owned();
    push_hex2(&mut mac, (hash / 65536 % 256) as u8);
    mac = mac.concat(":");
    push_hex2(&mut mac, (hash / 256 % 256) as u8);
    mac = mac.concat(":");
    push_hex2(&mut mac, (hash % 256) as u8);
    mac
}

/// Finds the hardware address of a machine. It fails only where the interfaces had to be listed, and
/// one could not be before an address was found.
pub fn get_mac_address(e: &AddressEvidence) -> (r: Result<String, String>)
    ensures
        (match r {
            Ok(mac) => Ok(mac@),
            Err(why) => Err(why@),
        }) == mac_address(*e),
{
    match read_address(&e.ip_link, "link/ether") {
        Some(mac) => { return Ok(mac); },
        None => {},
    }
    match read_address(&e.ifconfig, "ether") {
        Some(mac) => { return Ok(mac); },
        None => {},
    }
    match read_interfaces(&e.interfaces) {
        Some(told) => { return told; },
        None => {},
    }
    let hostname = match &e.hostname {
        Some(name) => name.clone(),
        None => "unknown".to_owned(),
    };
    Ok(substitute_mac(hash_name(hostname.as_str())))
}

/// The address of the network on a line of `ip addr show`, without the length of its prefix.
pub open spec fn inet_on(line: Seq<char>) -> Option<Seq<char>> {
    if holds(line, "inet "@) && !holds(line, "127.0.0.1"@) && words(line).len() >= 2 {
        let address = pieces(words(line)[1], '/')[0];
        if address.len() > 0 {
            Some(address)
        } else {
            None
        }
    } else {
        None
    }
}

/// What each line says of an address of the network.
pub open spec fn inet_lines(text: Seq<char>) -> Seq<Option<Seq<char>>> {
    Seq::new(lines(text).len(), |i: int| inet_on(lines(text)[i]))
}

/// The address of a machine in the network: the first that is not of the loopback interface, or
/// that one if there is no other.
pub open spec fn ip_address(output: Option<Seq<char>>) -> Seq<char> {
    let found = match output {
        Some(text) => first_some(inet_lines(text)),
        None => None,
    };
    match found {
        Some(address) => address,
        None => "127.0.0.1"@,
    }
}

fn read_inet(line: &str) -> (r: Option<String>)
    ensures
        r.deep_view() == inet_on(line@),
{
    if !contains(line, "inet ") || contains(line, "127.0.0.1") {
        return None;
    }
    match second_word(line) {
        Some(word) => {
            let parts = split(word.as_str(), '/');
            assert(parts.deep_view()[0] == parts@[0]@);
            let address = parts[0].clone();
            if address.as_str().is_empty() {
                None
            } else {
                Some(address)
            }
        },
        None => None,
    }
}

/// Finds the address of a machine in what `ip addr show` prints, if it ran with success.
pub fn get_ip_address(output: &Option<String>) -> (r: String)
    ensures
        r@ == ip_address(output.deep_view()),
{
    let text = match output {
        Some(text) => text,
        None => { return "127.0.0.1".to_owned(); },
    };
    let all = split_lines(text.as_str());
    let ghost told = inet_lines(text@);
    let mut i: usize = 0;
    proof {
        ends_of(told);
    }
    while i < all.len()
        invariant
            i <= all.len(),
            all.deep_view() == lines(text@),
            told == inet_lines(text@),
            first_some(told) == first_some(told.skip(i as int)),
            output.deep_view() == Some(text@),
        decreases all.len() - i,
    {
        proof {
            first_some_step(told, i as int);
            assert(all.deep_view()[i as int] == all@[i as int]@);
        }
        match read_inet(all[i].as_str()) {
            Some(address) => { return address; },
            None => {},
        }
        i = i + 1;
    }
    proof {
        assert(told.len() == all.len());
        ends_of(told);
    }
    "127.0.0.1".to_owned()
}

/// A machine without a known hardware address goes by the same one each time, as long as it
/// keeps its name.
pub proof fn substitute_goes_by_the_name(a: AddressEvidence, b: AddressEvidence)
    requires
        address_in(a.ip_link.deep_view(), "link/ether"@) is None,
        address_in(a.ifconfig.deep_view(), "ether"@) is None,
        first_some(interface_addresses(interfaces_view(a.interfaces@))) is None,
        address_in(b.ip_link.deep_view(), "link/ether"@) is None,
        address_in(b.ifconfig.deep_view(), "ether"@) is None,
        first_some(interface_addresses(interfaces_view(b.interfaces@))) is None,
        a.hostname.deep_view() == b.hostname.deep_view(),
    ensures
        mac_address(a) is Ok,
        mac_address(a) == mac_address(b),
{
}

// ---------------------------------------------------------------------------------------------
// What the detection amounts to
// ---------------------------------------------------------------------------------------------

/// The disk on a line of `lsblk` has the device, the size and the model that the line names, in this
/// order; loop devices and memory disks are none.
pub proof fn lsblk_names_disks(line: Seq<char>, name: Seq<char>, size: u64, model: Seq<Seq<char>>)
    requires
        words(line) == seq![name, decimal(size as nat)] + model,
    ensures
        !begins(name, "loop"@) && !begins(name, "ram"@) ==> (lsblk_disk(line) matches Some(disk)
            && disk.device == "/dev/"@ + name && disk.size_bytes == size && (if model.len() == 0 {
            disk.model is None
        } else {
            disk.model == Some(joined(model, " "@))
        })),
        begins(name, "loop"@) || begins(name, "ram"@) ==> lsblk_disk(line) is None,
{
    decimals_are_read_back(size as nat);
    assert(words(line).skip(2) =~= model);
    assert(words(line)[0] == name);
    assert(words(line)[1] == decimal(size as nat));
}

/// The disk on a line of `fdisk` such as `Disk /dev/sda: 20 GiB, 21474836480 bytes, ...` has the device
/// and the number of bytes that the line names.
pub proof fn fdisk_names_disks(
    device: Seq<char>,
    about: Seq<char>,
    size: u64,
    rest: Seq<char>,
)
    requires
        ({
            let info = about + ", "@ + (decimal(size as nat) + " bytes"@ + rest);
            let line = ("Disk "@ + device) + ": "@ + info;
            &&& holds(line, "Disk /dev/"@)
            &&& !holds(line, "loop"@)
            &&& !holds(line, "ram"@)
            &&& !begins(device, "Disk "@)
            &&& trimmed(device) == device
            &&& !holds(info, ": "@)
            &&& forall|i: int|
                0 <= i < 5 + device.len() ==> !#[trigger] stands_at(line, ": "@, i)
            &&& forall|i: int| 0 <= i < about.len() ==> !#[trigger] stands_at(info, ", "@, i)
        }),
    ensures
        fdisk_disk(
            ("Disk "@ + device) + ": "@ + (about + ", "@ + (decimal(size as nat) + " bytes"@
                + rest)),
        ) matches Some(disk) && disk.device == device && disk.size_bytes == size
            && disk.model is None,
{
    reveal_strlit("Disk ");
    reveal_strlit(" bytes");
    let number = decimal(size as nat);
    let tail = number + " bytes"@ + rest;
    let info = about + ", "@ + tail;
    let head = "Disk "@ + device;
    let line = head + ": "@ + info;
    parted_here(head, ": "@, info);
    parted_is_at_the_first(info, ": "@);
    parted_here(about, ", "@, tail);
    decimals_are_plain(size as nat, ' ');
    decimals_are_plain(size as nat, ',');
    decimals_are_read_back(size as nat);
    assert forall|i: int| 0 <= i < number.len() implies !#[trigger] stands_at(
        tail,
        " bytes"@,
        i,
    ) by {
        if stands_at(tail, " bytes"@, i) {
            assert(tail.subrange(i, i + 6)[0] == ' ');
            assert(number[i] == ' ');
            assert(number.contains(number[i]));
        }
    }
    parted_here(number, " bytes"@, rest);
    only_the_prefix_is_peeled(device, "Disk "@);
    nothing_is_taken_out(number, ',');
}

proof fn nothing_is_taken_out(s: Seq<char>, c: char)
    requires
        !s.contains(c),
    ensures
        without(s, c) == s,
    decreases s.len(),
{
    if s.len() > 0 {
        let front = s.drop_last();
        assert forall|i: int| 0 <= i < front.len() implies front[i] != c by {
            assert(s.contains(s[i]));
        }
        nothing_is_taken_out(front, c);
        characters_are_taken_one_by_one(front, s.last(), c);
        assert(s.contains(s[s.len() - 1]));
        assert(front.push(s.last()) =~= s);
    } else {
        characters_are_taken_one_by_one(s, c, c);
        assert(s =~= Seq::empty());
    }
}

/// The disks of a machine are those on the lines, in order: a line more at the head is a disk more, if
/// it names one.
pub proof fn disks_come_line_by_line(lister: DiskLister, line: Seq<char>, rest: Seq<char>)
    requires
        !line.contains('\n'),
        line.len() > 0 ==> line.last() != '\r',
    ensures
        disks_in(lister, Some(line + seq!['\n'] + rest)) == (match disk_on(lister, line) {
            Some(disk) => seq![disk] + disks_in(lister, Some(rest)),
            None => disks_in(lister, Some(rest)),
        }),
        disks_in(lister, None).len() == 0,
{
    let text = line + seq!['\n'] + rest;
    first_line_comes_first(line, rest);
    let one = seq![disk_on(lister, line)];
    let all = disk_lines(lister, text);
    let others = disk_lines(lister, rest);
    assert forall|i: int| 0 <= i < all.len() implies all[i] == (one + others)[i] by {
        if i > 0 {
            assert(lines(text)[(i - 1) + 1] == lines(rest)[i - 1]);
        }
    }
    assert(all =~= one + others);
    somes_of_two(one, others);
    one_of_one(disk_on(lister, line));
    assert(Seq::<DiskView>::empty() + somes(others) =~= somes(others));
}

proof fn one_of_one<T>(x: Option<T>)
    ensures
        somes(seq![x]) == (match x {
            Some(v) => seq![v],
            None => Seq::empty(),
        }),
{
    assert(seq![x].drop_last() =~= Seq::empty());
    assert(somes(Seq::<Option<T>>::empty()) =~= Seq::<T>::empty());
    match x {
        Some(v) => {
            assert(somes(seq![x]) =~= seq![v]);
        },
        None => {},
    }
}

/// What `lsblk` lists counts, and `fdisk` is asked only where that is nothing.
pub proof fn lsblk_comes_first(lsblk: Option<Seq<char>>, fdisk: Option<Seq<char>>)
    ensures
        disks_in(DiskLister::Lsblk, lsblk).len() > 0 ==> detected_disks(lsblk, fdisk) == disks_in(
            DiskLister::Lsblk,
            lsblk,
        ),
        disks_in(DiskLister::Lsblk, lsblk).len() == 0 ==> detected_disks(lsblk, fdisk) == disks_in(
            DiskLister::Fdisk,
            fdisk,
        ),
{
}

/// A line such as `nameserver <address>` gives that name server, and the name servers come in the order
/// of their lines. Where there are none the two public ones are used.
pub proof fn nameservers_come_line_by_line(line: Seq<char>, rest: Seq<char>, address: Seq<char>)
    requires
        !line.contains('\n'),
        line.len() > 0 ==> line.last() != '\r',
        begins(line, "nameserver"@),
        words(line).len() >= 2,
        words(line)[1] == address,
    ensures
        nameservers(Some(line + seq!['\n'] + rest)) == seq![address] + somes(
            nameserver_lines(rest),
        ),
        nameservers(None) == seq!["8.8.8.8"@, "1.1.1.1"@],
        somes(nameserver_lines(rest)).len() == 0 ==> nameservers(Some(rest)) == nameservers(None),
        somes(nameserver_lines(rest)).len() > 0 ==> nameservers(Some(rest)) == somes(
            nameserver_lines(rest),
        ),
{
    let text = line + seq!['\n'] + rest;
    first_line_comes_first(line, rest);
    let one = seq![nameserver_on(line)];
    let all = nameserver_lines(text);
    let others = nameserver_lines(rest);
    assert forall|i: int| 0 <= i < all.len() implies all[i] == (one + others)[i] by {
        if i > 0 {
            assert(lines(text)[(i - 1) + 1] == lines(rest)[i - 1]);
        }
    }
    assert(all =~= one + others);
    somes_of_two(one, others);
    one_of_one(nameserver_on(line));
}

/// The hardware address of a machine is that on the first line that shows one, of `ip` and else of
/// `ifconfig`; only then do the interfaces of the system count, and last the name of the machine.
pub proof fn address_is_on_the_first_line(e: AddressEvidence, text: Seq<char>, i: int)
    requires
        0 <= i < lines(text).len(),
        words(lines(text)[i]).len() >= 2,
        !is_part("lo:"@, lines(text)[i]),
    ensures
        e.ip_link.deep_view() == Some(text) && is_part("link/ether"@, lines(text)[i]) && (forall|
            j: int,
        |
            0 <= j < i ==> !is_part("link/ether"@, #[trigger] lines(text)[j])) ==> mac_address(e)
            == Ok::<Seq<char>, Seq<char>>(words(lines(text)[i])[1]),
        e.ip_link is None && e.ifconfig.deep_view() == Some(text) && is_part(
            "ether"@,
            lines(text)[i],
        ) && (forall|j: int| 0 <= j < i ==> !is_part("ether"@, #[trigger] lines(text)[j]))
            ==> mac_address(e) == Ok::<Seq<char>, Seq<char>>(words(lines(text)[i])[1]),
{
    address_is_found(text, "link/ether"@, i);
    address_is_found(text, "ether"@, i);
}

proof fn address_is_found(text: Seq<char>, mark: Seq<char>, i: int)
    requires
        0 <= i < lines(text).len(),
        words(lines(text)[i]).len() >= 2,
        !is_part("lo:"@, lines(text)[i]),
    ensures
        is_part(mark, lines(text)[i]) && (forall|j: int|
            0 <= j < i ==> !is_part(mark, #[trigger] lines(text)[j])) ==> address_in(
            Some(text),
            mark,
        ) == Some(words(lines(text)[i])[1]),
{
    if is_part(mark, lines(text)[i]) && (forall|j: int|
        0 <= j < i ==> !is_part(mark, #[trigger] lines(text)[j])) {
        let all = address_lines(text, mark);
        held_is_a_part(lines(text)[i], mark);
        held_is_a_part(lines(text)[i], "lo:"@);
        assert forall|j: int| 0 <= j < i implies (#[trigger] all[j]) is None by {
            held_is_a_part(lines(text)[j], mark);
        }
        this_is_first(all, i);
    }
}

/// An interface tells its address exactly where it is not the loopback and its address is neither empty
/// nor all zeros; white space around it does not count.
pub proof fn interface_tells_its_address(i: InterfaceView)
    ensures
        interface_address(i) matches Some(mac) ==> i.name != "lo"@ && (i.address
            matches Some(text) && mac == trimmed(text)) && mac.len() > 0 && mac
            != "00:00:00:00:00:00"@,
        interface_address(i) is None ==> i.name == "lo"@ || i.address is None || trimmed(
            i.address->0,
        ).len() == 0 || trimmed(i.address->0) == "00:00:00:00:00:00"@,
{
}

/// The address of a machine in the network is that on the first line which shows one that is not local,
/// without the length of its prefix; the local one is used where there is none.
pub proof fn network_address_is_on_the_first_line(
    text: Seq<char>,
    i: int,
    address: Seq<char>,
    length: Seq<char>,
)
    requires
        0 <= i < lines(text).len(),
        words(lines(text)[i]).len() >= 2,
        words(lines(text)[i])[1] == address + seq!['/'] + length,
        !address.contains('/'),
        address.len() > 0,
        is_part("inet "@, lines(text)[i]),
        !is_part("127.0.0.1"@, lines(text)[i]),
        forall|j: int|
            0 <= j < i ==> !is_part("inet "@, #[trigger] lines(text)[j]) || is_part(
                "127.0.0.1"@,
                lines(text)[j],
            ),
    ensures
        ip_address(Some(text)) == address,
        ip_address(None) == "127.0.0.1"@,
{
    let all = inet_lines(text);
    held_is_a_part(lines(text)[i], "inet "@);
    held_is_a_part(lines(text)[i], "127.0.0.1"@);
    pieces_of_two(address, '/', length);
    assert forall|j: int| 0 <= j < i implies (#[trigger] all[j]) is None by {
        held_is_a_part(lines(text)[j], "inet "@);
        held_is_a_part(lines(text)[j], "127.0.0.1"@);
    }
    this_is_first(all, i);
}

/// An address that stands for a machine without one is a local one: six bytes in hexadecimal, the last
/// three of which are the low bytes of the number of its name.
pub proof fn substitute_is_made_of_three_bytes(hash: u64)
    ensures
        substitute_address(hash) == "02:00:00:"@ + hex2((hash / 65536 % 256) as u8) + ":"@ + hex2(
            (hash / 256 % 256) as u8,
        ) + ":"@ + hex2((hash % 256) as u8),
        substitute_address(hash).len() == 17,
{
    reveal_strlit("02:00:00:");
    reveal_strlit(":");
}

/// A line without a device, or with one that is no disk, names no disk; a line that shows no address
/// gives none.
pub proof fn other_lines_give_nothing(line: Seq<char>, mark: Seq<char>)
    ensures
        fdisk_disk(line) is Some ==> is_part("Disk /dev/"@, line) && !is_part("loop"@, line)
            && !is_part("ram"@, line) && is_part(": "@, line),
        lsblk_disk(line) is Some ==> words(line).len() >= 2,
        !begins(line, "nameserver"@) || words(line).len() < 2 ==> nameserver_on(line) is None,
        address_on(line, mark) is Some <==> is_part(mark, line) && !is_part("lo:"@, line) && words(
            line,
        ).len() >= 2,
        inet_on(line) is Some ==> is_part("inet "@, line) && !is_part("127.0.0.1"@, line) && (inet_on(
            line,
        )->0).len() > 0,
{
    held_is_a_part(line, "Disk /dev/"@);
    held_is_a_part(line, "loop"@);
    held_is_a_part(line, "ram"@);
    held_is_a_part(line, mark);
    held_is_a_part(line, "lo:"@);
    held_is_a_part(line, "inet "@);
    held_is_a_part(line, "127.0.0.1"@);
    held_is_a_part(line, ": "@);
    parted_is_at_the_first(line, ": "@);
}

} // verus!
