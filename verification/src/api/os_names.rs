//! Names and icons of operating systems.

use vstd::prelude::*;

use crate::text::same;

verus! {

/// The name and the icon of an operating system.
#[derive(Clone, Debug, PartialEq, Eq)]
pub struct OsInfo {
    pub name: String,
    pub icon: String,
}

/// The icon of an operating system.
pub open spec fn os_icon(os: Seq<char>) -> Seq<char> {
    if os == "ubuntu-2204"@ || os == "ubuntu-2404"@ {
        "<i class=\"fab fa-ubuntu text-orange-500 dark:text-orange-500 no-invert\"></i>"@
    } else if os == "debian-12"@ {
        "<i class=\"fab fa-debian text-red-500\"></i>"@
    } else if os == "proxmox"@ {
        "<i class=\"fas fa-server text-blue-500\"></i>"@
    } else if os == "talos"@ {
        "<i class=\"fas fa-robot text-purple-500\"></i>"@
    } else if os == "windows"@ {
        "<i class=\"fab fa-windows text-blue-400\"></i>"@
    } else if os == "rocky"@ || os == "rocky-9"@ {
        "<i class=\"fas fa-mountain text-green-500\"></i>"@
    } else if os == "fedora"@ {
        "<i class=\"fab fa-fedora text-blue-600\"></i>"@
    } else if os == "alma"@ || os == "almalinux"@ {
        "<i class=\"fas fa-hat-cowboy text-amber-600\"></i>"@
    } else {
        "<i class=\"fas fa-square-question text-gray-500\"></i>"@
    }
}

/// The name of an operating system as it is shown; one that is not known is shown as it is.
pub open spec fn os_name(os: Seq<char>) -> Seq<char> {
    if os == "ubuntu-2204"@ {
        "Ubuntu 22.04"@
    } else if os == "ubuntu-2404"@ {
        "Ubuntu 24.04"@
    } else if os == "debian-12"@ {
        "Debian 12"@
    } else if os == "proxmox"@ {
        "Proxmox VE"@
    } else if os == "talos"@ {
        "Talos"@
    } else {
        os
    }
}

/// The icon of an operating system.
pub fn get_os_icon(os: &str) -> (r: String)
    ensures
        r@ == os_icon(os@),
{
    let icon = if same(os, "ubuntu-2204") || same(os, "ubuntu-2404") {
        "<i class=\"fab fa-ubuntu text-orange-500 dark:text-orange-500 no-invert\"></i>"
    } else if same(os, "debian-12") {
        "<i class=\"fab fa-debian text-red-500\"></i>"
    } else if same(os, "proxmox") {
        "<i class=\"fas fa-server text-blue-500\"></i>"
    } else if same(os, "talos") {
        "<i class=\"fas fa-robot text-purple-500\"></i>"
    } else if same(os, "windows") {
        "<i class=\"fab fa-windows text-blue-400\"></i>"
    } else if same(os, "rocky") || same(os, "rocky-9") {
        "<i class=\"fas fa-mountain text-green-500\"></i>"
    } else if same(os, "fedora") {
        "<i class=\"fab fa-fedora text-blue-600\"></i>"
    } else if same(os, "alma") || same(os, "almalinux") {
        "<i class=\"fas fa-hat-cowboy text-amber-600\"></i>"
    } else {
        "<i class=\"fas fa-square-question text-gray-500\"></i>"
    };
    icon.to_owned()
}

/// The name of an operating system as it is shown.
pub fn format_os_name(os: &str) -> (r: String)
    ensures
        r@ == os_name(os@),
{
    let name = if same(os, "ubuntu-2204") {
        "Ubuntu 22.04"
    } else if same(os, "ubuntu-2404") {
        "Ubuntu 24.04"
    } else if same(os, "debian-12") {
        "Debian 12"
    } else if same(os, "proxmox") {
        "Proxmox VE"
    } else if same(os, "talos") {
        "Talos"
    } else {
        os
    };
    name.to_owned()
}

/// The name and the icon of an operating system.
pub fn get_os_info(os: &str) -> (r: OsInfo)
    ensures
        r.name@ == os_name(os@),
        r.icon@ == os_icon(os@),
{
    OsInfo { name: format_os_name(os), icon: get_os_icon(os) }
}

/// Every system that can be chosen has a name of its own, and any other is shown as it is.
pub proof fn systems_have_names(os: Seq<char>)
    ensures
        os == "ubuntu-2204"@ ==> os_name(os) == "Ubuntu "@ + "22.04"@,
        os == "ubuntu-2404"@ ==> os_name(os) == "Ubuntu "@ + "24.04"@,
        os == "debian-12"@ ==> os_name(os) == "Debian "@ + "12"@,
        os == "proxmox"@ ==> os_name(os) == "Proxmox VE"@,
        os == "talos"@ ==> os_name(os) == "Talos"@,
        os != "ubuntu-2204"@ && os != "ubuntu-2404"@ && os != "debian-12"@ && os != "proxmox"@ && os
            != "talos"@ ==> os_name(os) == os,
{
    reveal_strlit("ubuntu-2204");
    reveal_strlit("ubuntu-2404");
    reveal_strlit("debian-12");
    reveal_strlit("proxmox");
    reveal_strlit("talos");
    assert("ubuntu-2204"@[8] != "ubuntu-2404"@[8]);
    assert("ubuntu-2204"@.len() == 11);
    assert("ubuntu-2404"@.len() == 11);
    assert("debian-12"@.len() == 9);
    assert("proxmox"@.len() == 7);
    assert("talos"@.len() == 5);
    reveal_strlit("Ubuntu ");
    reveal_strlit("22.04");
    reveal_strlit("24.04");
    reveal_strlit("Debian ");
    reveal_strlit("12");
    reveal_strlit("Ubuntu 22.04");
    reveal_strlit("Ubuntu 24.04");
    reveal_strlit("Debian 12");
    assert("Ubuntu 22.04"@ =~= "Ubuntu "@ + "22.04"@);
    assert("Ubuntu 24.04"@ =~= "Ubuntu "@ + "24.04"@);
    assert("Debian 12"@ =~= "Debian "@ + "12"@);
}

} // verus!
