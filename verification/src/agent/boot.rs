//! Whether a machine has an operating system to boot, and how to boot it.

use vstd::prelude::*;

use crate::text::{contains, held_is_a_part, holds, is_part, lines, split_lines};

verus! {

/// What a boot is judged by.
#[derive(Debug, PartialEq, Eq)]
pub struct BootEvidence {
    /// The machine was started by EFI firmware.
    pub has_efi: bool,
    /// What `efibootmgr` prints, if it ran with success.
    pub efibootmgr: Option<String>,
    /// There is a `/boot/grub`.
    pub has_grub: bool,
    /// There is a `/boot/grub2`.
    pub has_grub2: bool,
    /// There is a `/boot/efi/EFI`.
    pub has_efi_directory: bool,
    /// What `blkid` prints, if it ran with success.
    pub blkid: Option<String>,
}

/// A boot entry that is not for booting from the network.
pub open spec fn is_local_entry(line: Seq<char>) -> bool {
    holds(line, "Boot"@) && !holds(line, "Network"@)
}

/// A partition with a file system that Linux is usually installed on.
pub open spec fn is_root_partition(line: Seq<char>) -> bool {
    holds(line, "TYPE=\"ext4\""@) || holds(line, "TYPE=\"xfs\""@) || holds(line, "TYPE=\"btrfs\""@)
}

/// What is looked for in a list.
#[derive(Clone, Copy, Debug, PartialEq, Eq, Structural)]
pub enum BootMark {
    LocalEntry,
    RootPartition,
}

/// A line is what is looked for.
pub open spec fn is_marked(mark: BootMark, line: Seq<char>) -> bool {
    match mark {
        BootMark::LocalEntry => is_local_entry(line),
        BootMark::RootPartition => is_root_partition(line),
    }
}

/// A line of a text is what is looked for.
pub open spec fn some_line(text: Seq<char>, mark: BootMark) -> bool {
    exists|i: int| 0 <= i < lines(text).len() && #[trigger] is_marked(mark, lines(text)[i])
}

/// A line of what a program printed is what is looked for.
pub open spec fn lists(output: Option<Seq<char>>, mark: BootMark) -> bool {
    match output {
        Some(text) => some_line(text, mark),
        None => false,
    }
}

/// There is something to boot: a boot entry, a boot loader, or a partition of Linux.
pub open spec fn is_bootable(e: BootEvidence) -> bool {
    ||| e.has_efi && lists(e.efibootmgr.deep_view(), BootMark::LocalEntry)
    ||| e.has_grub
    ||| e.has_grub2
    ||| e.has_efi_directory
    ||| lists(e.blkid.deep_view(), BootMark::RootPartition)
}

fn marked(mark: BootMark, line: &str) -> (r: bool)
    ensures
        r == is_marked(mark, line@),
{
    match mark {
        BootMark::LocalEntry => contains(line, "Boot") && !contains(line, "Network"),
        BootMark::RootPartition => contains(line, "TYPE=\"ext4\"") || contains(
            line,
            "TYPE=\"xfs\"",
        ) || contains(line, "TYPE=\"btrfs\""),
    }
}

fn look_through(output: &Option<String>, mark: BootMark) -> (r: bool)
    ensures
        r == lists(output.deep_view(), mark),
{
    let text = match output {
        Some(text) => text,
        None => { return false; },
    };
    let all = split_lines(text.as_str());
    let mut i: usize = 0;
    while i < all.len()
        invariant
            i <= all.len(),
            all.deep_view() == lines(text@),
            output.deep_view() == Some(text@),
            forall|j: int| 0 <= j < i ==> !#[trigger] is_marked(mark, lines(text@)[j]),
        decreases all.len() - i,
    {
        assert(all.deep_view()[i as int] == all@[i as int]@);
        if marked(mark, all[i].as_str()) {
            assert(is_marked(mark, lines(text@)[i as int]));
            assert(some_line(text@, mark));
            return true;
        }
        i = i + 1;
    }
    assert(lines(text@).len() == all.len());
    false
}

/// Finds out whether there is something to boot.
pub fn check_bootable_os(e: &BootEvidence) -> (r: bool)
    ensures
        r == is_bootable(*e),
{
    if e.has_efi && look_through(&e.efibootmgr, BootMark::LocalEntry) {
        return true;
    }
    if e.has_grub || e.has_grub2 || e.has_efi_directory {
        return true;
    }
    look_through(&e.blkid, BootMark::RootPartition)
}

// ---------------------------------------------------------------------------------------------
// Booting what is there
// ---------------------------------------------------------------------------------------------

/// How many places a kernel, or its initial file system, is looked for in.
pub const PLACES: usize = 3;

/// A place where a kernel was looked for: whether there is a file, and when it was last changed,
/// if that is known.
#[derive(Clone, Copy, Debug, PartialEq, Eq, Structural)]
pub struct KernelFile {
    pub is_file: bool,
    pub modified: Option<i128>,
}

/// The places to look for a kernel in.
pub open spec fn kernel_places() -> Seq<Seq<char>> {
    seq!["/boot/vmlinuz"@, "/boot/vmlinuz-linux"@, "/boot/vmlinuz-current"@]
}

/// The places to look for an initial file system in.
pub open spec fn initrd_places() -> Seq<Seq<char>> {
    seq!["/boot/initrd.img"@, "/boot/initramfs-linux.img"@, "/boot/initrd-current"@]
}

/// One kernel is known to be newer than another.
pub open spec fn is_newer(a: KernelFile, b: KernelFile) -> bool {
    match (a.modified, b.modified) {
        (Some(x), Some(y)) => x > y,
        _ => false,
    }
}

/// The kernel to boot: the first, unless a later one is known to be newer than the one so far.
pub open spec fn newest(found: Seq<KernelFile>) -> Option<int>
    decreases found.len(),
{
    if found.len() == 0 {
        None
    } else {
        let so_far = newest(found.drop_last());
        if !found.last().is_file {
            so_far
        } else {
            match so_far {
                None => Some(found.len() - 1),
                Some(i) => if is_newer(found.last(), found[i]) {
                    Some(found.len() - 1)
                } else {
                    Some(i)
                },
            }
        }
    }
}

/// The first place where something is.
pub open spec fn first_there(there: Seq<bool>) -> Option<int> {
    there.index_of_first(true)
}

/// The kernel that `newest` gives is a file that was found, and if it is known of every file when
/// it was changed, none was changed later.
pub proof fn newest_kernel_is_chosen(found: Seq<KernelFile>)
    ensures
        newest(found) matches Some(i) ==> 0 <= i < found.len() && found[i].is_file,
        newest(found) is None ==> forall|j: int| 0 <= j < found.len() ==> !found[j].is_file,
        (forall|j: int| 0 <= j < found.len() && found[j].is_file ==> found[j].modified is Some) ==> (
        newest(found) matches Some(i) ==> forall|j: int|
            0 <= j < found.len() && found[j].is_file ==> !is_newer(found[j], found[i])),
    decreases found.len(),
{
    if found.len() > 0 {
        let rest = found.drop_last();
        newest_kernel_is_chosen(rest);
        assert forall|j: int| 0 <= j < rest.len() implies rest[j] == found[j] by {}
    }
}

/// How to boot the system that is there.
#[derive(Debug, PartialEq, Eq)]
pub struct Chainload {
    /// The arguments by which `kexec` loads the kernel.
    pub load: Vec<String>,
    /// The arguments by which it then runs it.
    pub execute: Vec<String>,
}

/// The arguments by which `kexec` loads a kernel.
pub open spec fn load_arguments(kernel: Seq<char>, initrd: Option<Seq<char>>) -> Seq<Seq<char>> {
    match initrd {
        Some(i) => seq!["-l"@, kernel, "--initrd"@, i, "--append"@, "root=auto rw"@],
        None => seq!["-l"@, kernel, "--append"@, "root=auto rw"@],
    }
}

/// The place of a kernel.
pub fn kernel_place(i: usize) -> (r: &'static str)
    requires
        i < PLACES,
    ensures
        r@ == kernel_places()[i as int],
{
    if i == 0 {
        "/boot/vmlinuz"
    } else if i == 1 {
        "/boot/vmlinuz-linux"
    } else {
        "/boot/vmlinuz-current"
    }
}

/// The place of an initial file system.
pub fn initrd_place(i: usize) -> (r: &'static str)
    requires
        i < PLACES,
    ensures
        r@ == initrd_places()[i as int],
{
    if i == 0 {
        "/boot/initrd.img"
    } else if i == 1 {
        "/boot/initramfs-linux.img"
    } else {
        "/boot/initrd-current"
    }
}

fn choose_kernel(found: &[KernelFile; PLACES]) -> (r: Option<usize>)
    ensures
        (match r {
            Some(i) => Some(i as int),
            None => None,
        }) == newest(found@),
        r matches Some(i) ==> i < PLACES,
{
    let mut chosen: Option<usize> = None;
    let mut i: usize = 0;
    assert(found@.take(0) =~= Seq::<KernelFile>::empty());
    while i < PLACES
        invariant
            i <= PLACES,
            found@.len() == PLACES,
            (match chosen {
                Some(c) => Some(c as int),
                None => None,
            }) == newest(found@.take(i as int)),
            chosen matches Some(c) ==> c < i,
        decreases PLACES - i,
    {
        assert(found@.take(i + 1).drop_last() =~= found@.take(i as int));
        assert(found@.take(i + 1).last() == found@[i as int]);
        if found[i].is_file {
            match chosen {
                None => {
                    chosen = Some(i);
                },
                Some(c) => {
                    let newer = match (found[i].modified, found[c].modified) {
                        (Some(x), Some(y)) => x > y,
                        _ => false,
                    };
                    if newer {
                        chosen = Some(i);
                    }
                },
            }
        }
        i = i + 1;
    }
    assert(found@.take(PLACES as int) =~= found@);
    chosen
}

/// Plans to boot the system that is there, with the kernels that were found and the initial file
/// systems that exist. It fails if and only if no kernel was found.
pub fn chainload_existing_os(kernels: &[KernelFile; PLACES], initrds: &[bool; PLACES]) -> (r: Result<
    Chainload,
    String,
>)
    ensures
        r is Ok <==> newest(kernels@) is Some,
        r matches Ok(c) ==> {
            &&& c.load.deep_view() == load_arguments(
                kernel_places()[newest(kernels@).unwrap()],
                match first_there(initrds@) {
                    Some(i) => Some(initrd_places()[i]),
                    None => None,
                },
            )
            &&& c.execute.deep_view() == seq!["-e"@]
        },
        r matches Err(e) ==> e@ == "Could not find bootable kernel"@,
{
    let kernel = match choose_kernel(kernels) {
        Some(i) => kernel_place(i),
        None => { return Err("Could not find bootable kernel".to_owned()); },
    };
    let mut initrd: Option<&'static str> = None;
    let mut i: usize = 0;
    while i < PLACES
        invariant_except_break
            initrd is None,
        invariant
            i <= PLACES,
            initrds@.len() == PLACES,
            forall|j: int| 0 <= j < i ==> !initrds@[j],
        ensures
            initrd is None ==> i == PLACES,
            initrd matches Some(p) ==> i < PLACES && initrds@[i as int] && p@
                == initrd_places()[i as int],
            forall|j: int| 0 <= j < i ==> !initrds@[j],
        decreases PLACES - i,
    {
        if initrds[i] {
            initrd = Some(initrd_place(i));
            break;
        }
        i = i + 1;
    }
    proof {
        initrds@.index_of_first_ensures(true);
        if initrd is Some {
            assert(initrds@[i as int]);
            assert(first_there(initrds@) == Some(i as int));
        } else {
            assert(first_there(initrds@) is None);
        }
    }
    let mut load: Vec<String> = Vec::new();
    load.push("-l".to_owned());
    load.push(kernel.to_owned());
    match initrd {
        Some(place) => {
            load.push("--initrd".to_owned());
            load.push(place.to_owned());
        },
        None => {},
    }
    load.push("--append".to_owned());
    load.push("root=auto rw".to_owned());
    let mut execute: Vec<String> = Vec::new();
    execute.push("-e".to_owned());
    proof {
        assert(load.deep_view() =~= load_arguments(
            kernel@,
            match initrd {
                Some(place) => Some(place@),
                None => None,
            },
        ));
        assert(execute.deep_view() =~= seq!["-e"@]);
    }
    Ok(Chainload { load, execute })
}

/// There is something to boot exactly where there is a boot loader, a partition of a usual kind, or,
/// on a machine with EFI, a boot entry that is not for the network.
pub proof fn something_to_boot(e: BootEvidence)
    ensures
        e.has_grub || e.has_grub2 || e.has_efi_directory ==> is_bootable(e),
        is_bootable(e) && !e.has_grub && !e.has_grub2 && !e.has_efi_directory ==> (e.has_efi && (
        e.efibootmgr matches Some(text) && exists|i: int|
            0 <= i < lines(text@).len() && is_part("Boot"@, #[trigger] lines(text@)[i]) && !is_part(
                "Network"@,
                lines(text@)[i],
            ))) || (e.blkid matches Some(text) && exists|i: int|
            0 <= i < lines(text@).len() && (is_part(
                "TYPE=\"ext4\""@,
                #[trigger] lines(text@)[i],
            ) || is_part("TYPE=\"xfs\""@, lines(text@)[i]) || is_part(
                "TYPE=\"btrfs\""@,
                lines(text@)[i],
            ))),
{
    if is_bootable(e) && !e.has_grub && !e.has_grub2 && !e.has_efi_directory {
        if e.has_efi && lists(e.efibootmgr.deep_view(), BootMark::LocalEntry) {
            let all = lines(e.efibootmgr.deep_view()->0);
            let i = choose|i: int|
                0 <= i < all.len() && #[trigger] is_marked(BootMark::LocalEntry, all[i]);
            held_is_a_part(all[i], "Boot"@);
            held_is_a_part(all[i], "Network"@);
        } else {
            let all = lines(e.blkid.deep_view()->0);
            let i = choose|i: int|
                0 <= i < all.len() && #[trigger] is_marked(BootMark::RootPartition, all[i]);
            held_is_a_part(all[i], "TYPE=\"ext4\""@);
            held_is_a_part(all[i], "TYPE=\"xfs\""@);
            held_is_a_part(all[i], "TYPE=\"btrfs\""@);
        }
    }
}

/// A line that shows something to boot is enough.
pub proof fn one_line_is_enough(e: BootEvidence, text: Seq<char>, i: int)
    requires
        0 <= i < lines(text).len(),
    ensures
        e.blkid.deep_view() == Some(text) && (is_part("TYPE=\"ext4\""@, lines(text)[i]) || is_part(
            "TYPE=\"xfs\""@,
            lines(text)[i],
        ) || is_part("TYPE=\"btrfs\""@, lines(text)[i])) ==> is_bootable(e),
        e.has_efi && e.efibootmgr.deep_view() == Some(text) && is_part("Boot"@, lines(text)[i])
            && !is_part("Network"@, lines(text)[i]) ==> is_bootable(e),
{
    let line = lines(text)[i];
    held_is_a_part(line, "TYPE=\"ext4\""@);
    held_is_a_part(line, "TYPE=\"xfs\""@);
    held_is_a_part(line, "TYPE=\"btrfs\""@);
    held_is_a_part(line, "Boot"@);
    held_is_a_part(line, "Network"@);
    assert(is_marked(BootMark::RootPartition, lines(text)[i]) == is_root_partition(line));
    assert(is_marked(BootMark::LocalEntry, lines(text)[i]) == is_local_entry(line));
}

/// The kernel is loaded with the initial file system that was found, if one was, and told to find its
/// root by itself.
pub proof fn kernel_is_loaded(kernel: Seq<char>, initrd: Seq<char>)
    ensures
        ({
            let with = load_arguments(kernel, Some(initrd));
            let bare = load_arguments(kernel, None);
            &&& with[0] == "-l"@ && with[1] == kernel && with[2] == "--initrd"@ && with[3] == initrd
                && with[4] == "--append"@ && with[5] == "root=auto rw"@ && with.len() == 6
            &&& bare.len() == 4 && bare[0] == with[0] && bare[1] == kernel && bare[2] == with[4]
                && bare[3] == with[5]
        }),
{
}

} // verus!
