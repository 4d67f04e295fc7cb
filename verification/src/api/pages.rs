//! The pages and parts of pages that are answered.

use vstd::prelude::*;

use crate::machine::{Machine, MachineStatus, MachineView, StatusView};
use crate::api::os_names::{format_os_name, os_name};
use crate::text::{contains, held_is_a_part, holds, is_part, part_of_longer, stand_together};

verus! {

/// The row of a table without machines.
pub const NO_MACHINES: &'static str = r#"<tr>
                        <td colspan="6" class="px-6 py-8 text-center text-gray-500 italic">
                            No machines added or discovered yet.
                        </td>
                    </tr>"#;

/// The button that assigns an operating system, up to the machine.
pub const ASSIGN_BUTTON_1: &'static str = r#"
                                    <button
                                        @click="showOsModal('"#;

/// ... up to its end.
pub const ASSIGN_BUTTON_2: &'static str = r#"')"
                                        class="px-3 py-1 inline-flex text-sm leading-5 font-semibold rounded-full bg-indigo-600 text-white hover:bg-indigo-700 cursor-pointer"
                                    >
                                        Assign OS
                                    </button>
                                "#;

/// The buttons of an administrator, up to that which assigns an operating system.
pub const BUTTONS_1: &'static str = r#"
                                "#;

/// ... up to the machine whose status is updated.
pub const BUTTONS_2: &'static str = r#"
                                <button
                                    @click="showStatusModal('"#;

/// ... up to the machine that is deleted.
pub const BUTTONS_3: &'static str = r#"')"
                                    class="px-3 py-1 inline-flex text-sm leading-5 font-semibold rounded-full bg-blue-500 text-white hover:bg-blue-600"
                                >
                                    Update Status
                                </button>
                                <button
                                    @click="showDeleteModal('"#;

/// ... up to their end.
pub const BUTTONS_4: &'static str = r#"')"
                                    class="text-red-600 hover:text-red-900"
                                >
                                    <svg xmlns="http://www.w3.org/2000/svg" fill="none" viewBox="0 0 24 24" stroke-width="1.5" stroke="currentColor" class="w-5 h-5">
                                        <path stroke-linecap="round" stroke-linejoin="round" d="M9.75 9.75l4.5 4.5m0-4.5l-4.5 4.5M21 12a9 9 0 11-18 0 9 9 0 0118 0z" />
                                    </svg>
                                </button>
                            "#;

/// The row of a machine, up to its number.
pub const ROW_1: &'static str = r#"
                            <tr class="hover:bg-gray-50 dark:hover:bg-gradient-to-r dark:hover:from-gray-800 dark:hover:to-gray-900 dark:hover:bg-opacity-50 dark:hover:backdrop-blur-sm transition-colors duration-150 cursor-pointer" @click="window.location='/machines/"#;

/// ... up to the name that it is shown by.
pub const ROW_2: &'static str = r#"'">
                                <td class="px-6 py-4 whitespace-nowrap">
                                    <div class="text-sm font-medium text-gray-900">
                                        "#;

/// ... up to its other name.
pub const ROW_3: &'static str = r#"
                                    </div>
                                    <div class="text-xs text-gray-500">
                                        "#;

/// ... up to its hardware address.
pub const ROW_4: &'static str = r#"
                                    </div>
                                </td>
                                <td class="px-6 py-4 whitespace-nowrap">
                                    <div class="text-sm text-gray-500 tech-mono">"#;

/// ... up to its address.
pub const ROW_5: &'static str = r#"</div>
                                </td>
                                <td class="px-6 py-4 whitespace-nowrap">
                                    <div class="text-sm text-gray-500 tech-mono">"#;

/// ... up to the look of its status.
pub const ROW_6: &'static str = r#"</div>
                                </td>
                                <td class="px-6 py-4 whitespace-nowrap">
                                    <span class="px-2 inline-flex text-xs leading-5 font-semibold rounded-full "#;

/// ... up to its status.
pub const ROW_7: &'static str = r#"">
                                        "#;

/// ... up to its operating system.
pub const ROW_8: &'static str = r#"
                                    </span>
                                </td>
                                <td class="px-6 py-4 whitespace-nowrap">
                                    <div class="text-sm text-gray-500">
                                        "#;

/// ... up to the buttons.
pub const ROW_9: &'static str = r#"
                                    </div>
                                </td>
                                <td class="px-6 py-4 whitespace-nowrap text-sm font-medium">
                                    <div class="flex space-x-3" @click.stop>
                                        "#;

/// ... up to its end.
pub const ROW_10: &'static str = r#"
                                    </div>
                                </td>
                            </tr>
                        "#;

/// The notice of a missing template, up to its name.
pub const TEMPLATE_MISSING_1: &'static str = r#"
                            <div class="p-4 mb-4 text-sm text-red-700 bg-red-100 rounded-lg" role="alert">
                                <span class="font-medium">Error!</span> Template for OS ""#;

/// ... up to its end.
pub const TEMPLATE_MISSING_2: &'static str = r#"" not found in Tinkerbell. 
                                <p class="mt-2">The OS choice was saved, but you will need to create the missing Tinkerbell template 
                                before the installation can proceed.</p>
                            </div>
                        "#;

/// The notice of an assignment, up to the operating system.
pub const ASSIGNED_1: &'static str = r#"
                <div class="flex flex-col items-center justify-center p-8">
                    <div class="rounded-full bg-green-100 p-3 mb-4">
                        <svg class="h-8 w-8 text-green-600" xmlns="http://www.w3.org/2000/svg" fill="none" viewBox="0 0 24 24" stroke-width="1.5" stroke="currentColor">
                            <path stroke-linecap="round" stroke-linejoin="round" d="M9 12.75L11.25 15 15 9.75M21 12a9 9 0 11-18 0 9 9 0 0118 0z" />
                        </svg>
                    </div>
                    <h3 class="text-lg font-medium text-gray-900">Success!</h3>
                    <p class="mt-2 text-sm text-gray-500">"#;

/// ... up to the machine.
pub const ASSIGNED_2: &'static str = " has been assigned to ";

/// ... up to the operating system, a second time.
pub const ASSIGNED_3: &'static str = r#"</p>
                    <p class="mt-1 text-sm text-gray-500">A Tinkerbell workflow is being created to install the OS.</p>
                    <button 
                        type="button" 
                        class="mt-6 inline-flex justify-center rounded-md bg-indigo-600 px-3 py-2 text-sm font-semibold text-white shadow-sm hover:bg-indigo-500"
                        hx-get="/machines"
                        hx-target="body"
                        hx-swap="outerHTML"
                        onclick="document.getElementById('os-modal').classList.add('hidden');">
                        Close
                    </button>
                </div>
                
                <script>
                    // Create toast notification
                    const toast = document.createElement('div');
                    toast.innerHTML = `
                        <div class="fixed bottom-4 right-4 bg-white shadow-lg rounded-lg p-4 max-w-md transform transition-transform duration-300 ease-in-out z-50 flex items-start">
                            <div class="flex-shrink-0 mr-3">
                                <svg class="h-6 w-6 text-green-500" xmlns="http://www.w3.org/2000/svg" fill="none" viewBox="0 0 24 24" stroke="currentColor">
                                    <path stroke-linecap="round" stroke-linejoin="round" stroke-width="2" d="M9 12l2 2 4-4m6 2a9 9 0 11-18 0 9 9 0 0118 0z" />
                                </svg>
                            </div>
                            <div>
                                <h3 class="font-medium text-gray-900">Success!</h3>
                                <p class="mt-1 text-sm text-gray-500">"#;

/// ... up to the machine, a second time.
pub const ASSIGNED_4: &'static str = " has been assigned to ";

/// ... up to its end.
pub const ASSIGNED_5: &'static str = r#"</p>
                            </div>
                        </div>
                    `;
                    document.body.appendChild(toast.firstElementChild);
                    
                    // Auto remove after 5 seconds
                    setTimeout(() => {
                        const toastEl = document.querySelector('.fixed.bottom-4.right-4');
                        if (toastEl) {
                            toastEl.classList.add('translate-y-full', 'opacity-0');
                            setTimeout(() => toastEl.remove(), 300);
                        }
                    }, 5000);
                    
                    // Use HTMX to refresh the table body
                    htmx.trigger(document.querySelector('tbody'), 'refresh');
                </script>
            "#;

/// The notice that there is no such machine to assign to, up to its number.
pub const ASSIGN_NOT_FOUND_1: &'static str = r#"
                <div class="p-4 mb-4 text-sm text-red-700 bg-red-100 rounded-lg" role="alert">
                    <span class="font-medium">Error!</span> Machine with ID "#;

/// ... up to its end.
pub const ASSIGN_NOT_FOUND_2: &'static str = r#" not found.
                </div>
            "#;

/// The notice of a database error in an assignment, up to the error.
pub const ASSIGN_DB_ERROR_1: &'static str = r#"
                <div class="p-4 mb-4 text-sm text-red-700 bg-red-100 rounded-lg" role="alert">
                    <span class="font-medium">Error!</span> Database error: "#;

/// ... up to its end.
pub const ASSIGN_DB_ERROR_2: &'static str = r#".
                </div>
            "#;

/// The notice of a status that is none.
pub const STATUS_INVALID: &'static str = r#"
                <div class="p-4 mb-4 text-sm text-red-700 bg-red-100 rounded-lg" role="alert">
                    <span class="font-medium">Error!</span> Invalid or missing status field.
                </div>
            "#;

/// The notice of an updated status.
pub const STATUS_UPDATED: &'static str = r#"
                <div class="p-4 mb-4 text-sm text-green-700 bg-green-100 rounded-lg" role="alert">
                    <span class="font-medium">Success!</span> Machine status has been updated.
                </div>
                <script>
                    // Close the modal
                    statusModal = false;
                    // Refresh the machine list
                    htmx.trigger(document.querySelector('tbody'), 'refreshMachines');
                </script>
            "#;

/// The notice that there is no such machine to update, up to its number.
pub const STATUS_NOT_FOUND_1: &'static str = r#"
                <div class="p-4 mb-4 text-sm text-red-700 bg-red-100 rounded-lg" role="alert">
                    <span class="font-medium">Error!</span> Machine with ID "#;

/// ... up to its end.
pub const STATUS_NOT_FOUND_2: &'static str = r#" not found.
                </div>
            "#;

/// The notice of a database error in an update, up to the error.
pub const STATUS_DB_ERROR_1: &'static str = r#"
                <div class="p-4 mb-4 text-sm text-red-700 bg-red-100 rounded-lg" role="alert">
                    <span class="font-medium">Error!</span> Database error: "#;

/// ... up to its end.
pub const STATUS_DB_ERROR_2: &'static str = r#".
                </div>
            "#;

/// The notice of updated credentials of a management controller.
pub const BMC_UPDATED: &'static str = r#"
                <div class="p-4 mb-4 text-sm text-green-700 bg-green-100 rounded-lg" role="alert">
                    <span class="font-medium">Success!</span> BMC credentials updated.
                </div>
                <script>
                    setTimeout(function() {
                        window.location.reload();
                    }, 1500);
                </script>
            "#;

/// The notice of an error with the credentials of a management controller, up to the error.
pub const BMC_ERROR_1: &'static str = r#"
                <div class="p-4 mb-4 text-sm text-red-700 bg-red-100 rounded-lg" role="alert">
                    <span class="font-medium">Error!</span> "#;

/// ... up to its end.
pub const BMC_ERROR_2: &'static str = r#".
                </div>
            "#;

/// The form for a host name, up to the machine.
pub const HOSTNAME_FORM_1: &'static str = r#"
                <div class="sm:flex sm:items-start">
                    <div class="mt-3 text-center sm:mt-0 sm:text-left w-full">
                        <h3 class="text-base font-semibold leading-6 text-gray-900">
                            Update Machine Hostname
                        </h3>
                        <div class="mt-2">
                            <form hx-post="/machines/"#;

/// ... up to the host name.
pub const HOSTNAME_FORM_2: &'static str = r##"/hostname" hx-target="#hostname-modal">
                                <label for="hostname" class="block text-sm font-medium text-gray-700">Hostname</label>
                                <input type="text" name="hostname" id="hostname" value=""##;

/// ... up to its end.
pub const HOSTNAME_FORM_3: &'static str = r#"" class="mt-1 block w-full rounded-md border-gray-300 shadow-sm focus:border-indigo-500 focus:ring-indigo-500 sm:text-sm" placeholder="Enter hostname">
                                <div class="mt-5 sm:mt-4 sm:flex sm:flex-row-reverse">
                                    <button type="submit" class="inline-flex w-full justify-center rounded-md bg-indigo-600 px-3 py-2 text-sm font-semibold text-white shadow-sm hover:bg-indigo-500 sm:ml-3 sm:w-auto">
                                        Update
                                    </button>
                                    <button type="button" class="mt-3 inline-flex w-full justify-center rounded-md bg-white px-3 py-2 text-sm font-semibold text-gray-900 shadow-sm ring-1 ring-inset ring-gray-300 hover:bg-gray-50 sm:mt-0 sm:w-auto" onclick="document.getElementById('hostname-modal').classList.add('hidden')">
                                        Cancel
                                    </button>
                                </div>
                            </form>
                        </div>
                    </div>
                </div>
                "#;

/// The form for an operating system, up to the machine.
pub const OS_FORM_1: &'static str = r#"
        <div class="sm:flex sm:items-start">
            <div class="mt-3 text-center sm:mt-0 sm:text-left w-full">
                <h3 class="text-lg leading-6 font-medium text-gray-900">
                    Assign Operating System
                </h3>
                <div class="mt-2">
                    <form hx-post="/api/machines/"#;

/// ... up to its end.
pub const OS_FORM_2: &'static str = r#"/os" hx-swap="none" @submit="osModal = false">
                        <div class="mt-4">
                            <label for="os_choice" class="block text-sm font-medium text-gray-700">Operating System</label>
                            <select
                                id="os_choice"
                                name="os_choice"
                                class="mt-1 block w-full pl-3 pr-10 py-2 text-base border-gray-300 focus:outline-none focus:ring-indigo-500 focus:border-indigo-500 sm:text-sm rounded-md"
                            >
                                <option value="ubuntu-2204">Ubuntu 22.04</option>
                                <option value="ubuntu-2404">Ubuntu 24.04</option>
                                <option value="debian-12">Debian 12</option>
                                <option value="proxmox">Proxmox VE</option>
                                <option value="talos">Talos</option>
                            </select>
                        </div>
                        <div class="mt-5 sm:mt-4 sm:flex sm:flex-row-reverse">
                            <button
                                type="submit"
                                class="inline-flex w-full justify-center rounded-md bg-indigo-600 px-3 py-2 text-sm font-semibold text-white shadow-sm hover:bg-indigo-500 sm:ml-3 sm:w-auto"
                            >
                                Assign
                            </button>
                            <button
                                type="button"
                                class="mt-3 inline-flex w-full justify-center rounded-md bg-white px-3 py-2 text-sm font-semibold text-gray-900 shadow-sm ring-1 ring-inset ring-gray-300 hover:bg-gray-50 sm:mt-0 sm:w-auto"
                                @click="osModal = false"
                            >
                                Cancel
                            </button>
                        </div>
                    </form>
                </div>
            </div>
        </div>
    "#;

/// The form for a status, up to the machine.
pub const STATUS_FORM_1: &'static str = r#"
        <div class="sm:flex sm:items-start">
            <div class="mt-3 text-center sm:mt-0 sm:text-left w-full">
                <h3 class="text-lg leading-6 font-medium text-gray-900">
                    Update Machine Status
                </h3>
                <div class="mt-2">
                    <form hx-post="/machines/"#;

/// ... up to its end.
pub const STATUS_FORM_2: &'static str = r#"/status" hx-swap="none" @submit="statusModal = false">
                        <div class="mb-4">
                            <label for="status" class="block text-sm font-medium text-gray-700">Status</label>
                            <select name="status" id="status" class="mt-1 block w-full pl-3 pr-10 py-2 text-base border-gray-300 focus:outline-none focus:ring-indigo-500 focus:border-indigo-500 sm:text-sm rounded-md">
                                <option value="Ready">Ready</option>
                                <option value="AwaitingAssignment">Awaiting OS Assignment</option>
                                <option value="InstallingOS">Installing OS</option>
                                <option value="Error">Error</option>
                            </select>
                        </div>
                        <div class="mt-5 sm:mt-6">
                            <button type="submit" class="inline-flex justify-center w-full rounded-md border border-transparent shadow-sm px-4 py-2 bg-indigo-600 text-base font-medium text-white hover:bg-indigo-700 focus:outline-none focus:ring-2 focus:ring-offset-2 focus:ring-indigo-500 sm:text-sm">
                                Update Status
                            </button>
                        </div>
                    </form>
                </div>
            </div>
        </div>
    "#;

// ---------------------------------------------------------------------------------------------
// The table of machines
// ---------------------------------------------------------------------------------------------

/// The name that a machine is shown by: its host name, its memorable name or its number.
pub open spec fn display_name(m: MachineView, id: Seq<char>) -> Seq<char> {
    match m.hostname {
        Some(h) => h,
        None => m.memorable_name.unwrap_or(id),
    }
}

/// The other name of a machine: its memorable name, where it is shown by its host name.
pub open spec fn secondary_name(m: MachineView) -> Seq<char> {
    match (m.hostname, m.memorable_name) {
        (Some(_), Some(n)) => n,
        _ => ""@,
    }
}

/// The operating system of a machine as it is shown: the one that is installed, or the one that is
/// chosen.
pub open spec fn os_display(m: MachineView) -> Seq<char> {
    match m.os_installed {
        Some(os) => os,
        None => match m.os_choice {
            Some(os) => if m.status == StatusView::InstallingOS {
                "🚧 "@ + os_name(os)
            } else {
                os
            },
            None => if m.status == StatusView::InstallingOS {
                "🚀 Installing OS"@
            } else {
                "None"@
            },
        },
    }
}

/// The look of a status.
pub open spec fn badge(status: StatusView) -> Seq<char> {
    match status {
        StatusView::Ready =>
            "px-3 py-1 inline-flex text-sm leading-5 font-semibold rounded-full bg-green-100 text-green-800 dark:bg-green-400/10 dark:text-green-300 dark:border dark:border-green-500/20"@,
        StatusView::InstallingOS =>
            "px-3 py-1 inline-flex text-sm leading-5 font-semibold rounded-full bg-yellow-100 text-yellow-800 dark:bg-yellow-400/10 dark:text-yellow-300 dark:border dark:border-yellow-500/20"@,
        StatusView::AwaitingAssignment =>
            "px-3 py-1 inline-flex text-sm leading-5 font-semibold rounded-full bg-blue-100 text-blue-800 dark:bg-blue-400/10 dark:text-blue-300 dark:border dark:border-blue-500/20"@,
        StatusView::ExistingOS =>
            "px-3 py-1 inline-flex text-sm leading-5 font-semibold rounded-full bg-sky-100 text-sky-800 dark:bg-sky-400/10 dark:text-sky-300 dark:border dark:border-sky-500/20"@,
        _ =>
            "px-3 py-1 inline-flex text-sm leading-5 font-semibold rounded-full bg-red-100 text-red-800 dark:bg-red-400/10 dark:text-red-300 dark:border dark:border-red-500/20"@,
    }
}

/// A status in words; `other` is how one is called that has no words of its own here.
pub open spec fn status_words(status: StatusView, other: Seq<char>) -> Seq<char> {
    match status {
        StatusView::Ready => "Ready for Adoption"@,
        StatusView::InstallingOS => "Installing OS"@,
        StatusView::AwaitingAssignment => "Awaiting Assignment"@,
        _ => other,
    }
}

/// The buttons for a machine: none but for an administrator, and that which assigns an operating
/// system only where one is awaited.
pub open spec fn buttons(status: StatusView, id: Seq<char>, is_admin: bool) -> Seq<char> {
    if !is_admin {
        ""@
    } else {
        BUTTONS_1@ + (if status == StatusView::AwaitingAssignment {
            ASSIGN_BUTTON_1@ + id + ASSIGN_BUTTON_2@
        } else {
            ""@
        }) + BUTTONS_2@ + id + BUTTONS_3@ + id + BUTTONS_4@
    }
}

/// The row of a machine.
pub open spec fn row(m: MachineView, id: Seq<char>, other: Seq<char>, is_admin: bool) -> Seq<char> {
    ROW_1@ + id + ROW_2@ + display_name(m, id) + ROW_3@ + secondary_name(m) + ROW_4@ + m.mac_address
        + ROW_5@ + m.ip_address + ROW_6@ + badge(m.status) + ROW_7@ + status_words(m.status, other)
        + ROW_8@ + os_display(m) + ROW_9@ + buttons(m.status, id, is_admin) + ROW_10@
}

/// A machine to be listed, with its number as text and how its status is called.
#[derive(Debug, PartialEq, Eq)]
pub struct Listed {
    pub machine: Machine,
    pub id: String,
    pub status_name: String,
}

/// The rows of several machines.
pub open spec fn rows(list: Seq<Listed>, is_admin: bool) -> Seq<char>
    decreases list.len(),
{
    if list.len() == 0 {
        ""@
    } else {
        rows(list.drop_last(), is_admin) + row(
            list.last().machine.deep_view(),
            list.last().id@,
            list.last().status_name@,
            is_admin,
        )
    }
}

/// The table of machines.
pub open spec fn table(list: Seq<Listed>, is_admin: bool) -> Seq<char> {
    if list.len() == 0 {
        NO_MACHINES@
    } else {
        rows(list, is_admin)
    }
}

fn badge_of(status: &MachineStatus) -> (r: &'static str)
    ensures
        r@ == badge(status.deep_view()),
{
    match status {
        MachineStatus::Ready =>
            "px-3 py-1 inline-flex text-sm leading-5 font-semibold rounded-full bg-green-100 text-green-800 dark:bg-green-400/10 dark:text-green-300 dark:border dark:border-green-500/20",
        MachineStatus::InstallingOS =>
            "px-3 py-1 inline-flex text-sm leading-5 font-semibold rounded-full bg-yellow-100 text-yellow-800 dark:bg-yellow-400/10 dark:text-yellow-300 dark:border dark:border-yellow-500/20",
        MachineStatus::AwaitingAssignment =>
            "px-3 py-1 inline-flex text-sm leading-5 font-semibold rounded-full bg-blue-100 text-blue-800 dark:bg-blue-400/10 dark:text-blue-300 dark:border dark:border-blue-500/20",
        MachineStatus::ExistingOS =>
            "px-3 py-1 inline-flex text-sm leading-5 font-semibold rounded-full bg-sky-100 text-sky-800 dark:bg-sky-400/10 dark:text-sky-300 dark:border dark:border-sky-500/20",
        _ =>
            "px-3 py-1 inline-flex text-sm leading-5 font-semibold rounded-full bg-red-100 text-red-800 dark:bg-red-400/10 dark:text-red-300 dark:border dark:border-red-500/20",
    }
}

/// The name that a machine is shown by.
pub fn name_to_show(machine: &Machine, id: &str) -> (r: String)
    ensures
        r@ == display_name(machine.deep_view(), id@),
{
    match &machine.hostname {
        Some(h) => h.clone(),
        None => match &machine.memorable_name {
            Some(n) => n.clone(),
            None => id.to_owned(),
        },
    }
}

fn other_name(machine: &Machine) -> (r: String)
    ensures
        r@ == secondary_name(machine.deep_view()),
{
    match (&machine.hostname, &machine.memorable_name) {
        (Some(_), Some(n)) => n.clone(),
        _ => "".to_owned(),
    }
}

/// The operating system of a machine as it is shown.
pub fn os_to_show(machine: &Machine) -> (r: String)
    ensures
        r@ == os_display(machine.deep_view()),
{
    let installing = matches!(machine.status, MachineStatus::InstallingOS);
    match &machine.os_installed {
        Some(os) => os.clone(),
        None => match &machine.os_choice {
            Some(os) => if installing {
                "🚧 ".to_owned().concat(format_os_name(os.as_str()).as_str())
            } else {
                os.clone()
            },
            None => if installing {
                "🚀 Installing OS".to_owned()
            } else {
                "None".to_owned()
            },
        },
    }
}

fn words_of(status: &MachineStatus, other: &str) -> (r: String)
    ensures
        r@ == status_words(status.deep_view(), other@),
{
    match status {
        MachineStatus::Ready => "Ready for Adoption".to_owned(),
        MachineStatus::InstallingOS => "Installing OS".to_owned(),
        MachineStatus::AwaitingAssignment => "Awaiting Assignment".to_owned(),
        _ => other.to_owned(),
    }
}

fn buttons_of(status: &MachineStatus, id: &str, is_admin: bool) -> (r: String)
    ensures
        r@ == buttons(status.deep_view(), id@, is_admin),
{
    if !is_admin {
        return "".to_owned();
    }
    let assign: String = match status {
        MachineStatus::AwaitingAssignment => ASSIGN_BUTTON_1.to_owned().concat(id).concat(
            ASSIGN_BUTTON_2,
        ),
        _ => "".to_owned(),
    };
    let mut html = BUTTONS_1.to_owned();
    html.append(assign.as_str());
    html.append(BUTTONS_2);
    html.append(id);
    html.append(BUTTONS_3);
    html.append(id);
    html.append(BUTTONS_4);
    html
}

fn render_row(machine: &Machine, id: &str, other: &str, is_admin: bool) -> (r: String)
    ensures
        r@ == row(machine.deep_view(), id@, other@, is_admin),
{
    let mut html = ROW_1.to_owned();
    html.append(id);
    html.append(ROW_2);
    html.append(name_to_show(machine, id).as_str());
    html.append(ROW_3);
    html.append(other_name(machine).as_str());
    html.append(ROW_4);
    html.append(machine.mac_address.as_str());
    html.append(ROW_5);
    html.append(machine.ip_address.as_str());
    html.append(ROW_6);
    html.append(badge_of(&machine.status));
    html.append(ROW_7);
    html.append(words_of(&machine.status, other).as_str());
    html.append(ROW_8);
    html.append(os_to_show(machine).as_str());
    html.append(ROW_9);
    html.append(buttons_of(&machine.status, id, is_admin).as_str());
    html.append(ROW_10);
    html
}

/// The table of all machines.
pub fn get_all_machines(list: &Vec<Listed>, is_admin: bool) -> (r: String)
    ensures
        r@ == table(list@, is_admin),
{
    if list.len() == 0 {
        return NO_MACHINES.to_owned();
    }
    let mut html = "".to_owned();
    let mut i: usize = 0;
    assert(list@.take(0) =~= Seq::empty());
    while i < list.len()
        invariant
            i <= list.len(),
            html@ == rows(list@.take(i as int), is_admin),
        decreases list.len() - i,
    {
        proof {
            assert(list@.take(i + 1).drop_last() =~= list@.take(i as int));
            assert(list@.take(i + 1).last() == list@[i as int]);
        }
        let entry = &list[i];
        html.append(
            render_row(
                &entry.machine,
                entry.id.as_str(),
                entry.status_name.as_str(),
                is_admin,
            ).as_str(),
        );
        i = i + 1;
    }
    assert(list@.take(list@.len() as int) =~= list@);
    html
}

// ---------------------------------------------------------------------------------------------
// Notices and forms
// ---------------------------------------------------------------------------------------------

/// A page, with the status that it is answered with.
#[derive(Clone, Debug, PartialEq, Eq)]
pub struct Page {
    pub status: u16,
    pub html: String,
}

/// The workflow could not be made because there is no template for the operating system.
pub open spec fn is_template_error(e: Seq<char>) -> bool {
    holds(e, "Template"@) && holds(e, "not found"@)
}

/// How an assignment of an operating system went.
#[derive(Debug, PartialEq, Eq)]
pub enum Assignment {
    /// The choice was recorded for the machine of this name. Where a workflow was to be made and
    /// could not, this is the error, and the name of the template.
    Recorded { machine_name: String, failure: Option<(String, String)> },
    /// There is no such machine.
    NotFound,
    /// The choice could not be recorded.
    Failed(String),
}

/// What is answered to an assignment of an operating system to the machine with a number.
pub open spec fn assignment_page(os: Seq<char>, id: Seq<char>, a: Assignment) -> (u16, Seq<char>) {
    match a {
        Assignment::Recorded { machine_name, failure } => match failure {
            Some((e, template)) if is_template_error(e@) => (
                500,
                TEMPLATE_MISSING_1@ + template@ + TEMPLATE_MISSING_2@,
            ),
            _ => (
                200,
                ASSIGNED_1@ + os + ASSIGNED_2@ + machine_name@ + ASSIGNED_3@ + os + ASSIGNED_4@
                    + machine_name@ + ASSIGNED_5@,
            ),
        },
        Assignment::NotFound => (404, ASSIGN_NOT_FOUND_1@ + id + ASSIGN_NOT_FOUND_2@),
        Assignment::Failed(e) => (500, ASSIGN_DB_ERROR_1@ + e@ + ASSIGN_DB_ERROR_2@),
    }
}

/// Answers an assignment of an operating system to the machine with a number.
pub fn assign_os_internal(os_choice: &str, id: &str, a: &Assignment) -> (r: Page)
    ensures
        (r.status, r.html@) == assignment_page(os_choice@, id@, *a),
{
    match a {
        Assignment::Recorded { machine_name, failure } => {
            match failure {
                Some((e, template)) => {
                    if contains(e.as_str(), "Template") && contains(e.as_str(), "not found") {
                        return Page {
                            status: 500,
                            html: TEMPLATE_MISSING_1.to_owned().concat(template.as_str()).concat(
                                TEMPLATE_MISSING_2,
                            ),
                        };
                    }
                },
                None => {},
            }
            let mut html = ASSIGNED_1.to_owned();
            html.append(os_choice);
            html.append(ASSIGNED_2);
            html.append(machine_name.as_str());
            html.append(ASSIGNED_3);
            html.append(os_choice);
            html.append(ASSIGNED_4);
            html.append(machine_name.as_str());
            html.append(ASSIGNED_5);
            Page { status: 200, html }
        },
        Assignment::NotFound => Page {
            status: 404,
            html: ASSIGN_NOT_FOUND_1.to_owned().concat(id).concat(ASSIGN_NOT_FOUND_2),
        },
        Assignment::Failed(e) => Page {
            status: 500,
            html: ASSIGN_DB_ERROR_1.to_owned().concat(e.as_str()).concat(ASSIGN_DB_ERROR_2),
        },
    }
}

/// How an update of a status went.
#[derive(Debug, PartialEq, Eq)]
pub enum StatusUpdate {
    /// What was asked for is no status.
    Invalid,
    Done,
    NotFound,
    Failed(String),
}

/// What is answered to an update of the status of the machine with a number.
pub open spec fn status_page(id: Seq<char>, u: StatusUpdate) -> Seq<char> {
    match u {
        StatusUpdate::Invalid => STATUS_INVALID@,
        StatusUpdate::Done => STATUS_UPDATED@,
        StatusUpdate::NotFound => STATUS_NOT_FOUND_1@ + id + STATUS_NOT_FOUND_2@,
        StatusUpdate::Failed(e) => STATUS_DB_ERROR_1@ + e@ + STATUS_DB_ERROR_2@,
    }
}

/// Answers an update of the status of the machine with a number.
pub fn status_notice(id: &str, u: &StatusUpdate) -> (r: String)
    ensures
        r@ == status_page(id@, *u),
{
    match u {
        StatusUpdate::Invalid => STATUS_INVALID.to_owned(),
        StatusUpdate::Done => STATUS_UPDATED.to_owned(),
        StatusUpdate::NotFound => STATUS_NOT_FOUND_1.to_owned().concat(id).concat(
            STATUS_NOT_FOUND_2,
        ),
        StatusUpdate::Failed(e) => STATUS_DB_ERROR_1.to_owned().concat(e.as_str()).concat(
            STATUS_DB_ERROR_2,
        ),
    }
}

/// What is answered to an update of the credentials of a management controller: `updated` is
/// whether there was such a machine, or the error.
pub open spec fn bmc_page(id: Seq<char>, updated: Result<bool, Seq<char>>) -> (u16, Seq<char>) {
    match updated {
        Ok(true) => (200, BMC_UPDATED@),
        Ok(false) => (
            404,
            BMC_ERROR_1@ + ("Machine with ID "@ + id + " not found"@) + BMC_ERROR_2@,
        ),
        Err(e) => (500, BMC_ERROR_1@ + ("Database error: "@ + e) + BMC_ERROR_2@),
    }
}

/// Answers an update of the credentials of a management controller.
pub fn update_bmc(id: &str, updated: Result<bool, String>) -> (r: Page)
    ensures
        (r.status, r.html@) == bmc_page(
            id@,
            match updated {
                Ok(b) => Ok(b),
                Err(e) => Err(e@),
            },
        ),
{
    match updated {
        Ok(true) => Page { status: 200, html: BMC_UPDATED.to_owned() },
        Ok(false) => {
            let message = "Machine with ID ".to_owned().concat(id).concat(" not found");
            Page {
                status: 404,
                html: BMC_ERROR_1.to_owned().concat(message.as_str()).concat(BMC_ERROR_2),
            }
        },
        Err(e) => {
            let message = "Database error: ".to_owned().concat(e.as_str());
            Page {
                status: 500,
                html: BMC_ERROR_1.to_owned().concat(message.as_str()).concat(BMC_ERROR_2),
            }
        },
    }
}

/// The form for the host name of the machine with a number; `found` is its host name, if there is
/// such a machine, or the error.
pub open spec fn hostname_page(id: Seq<char>, found: Result<Option<Option<Seq<char>>>, Seq<char>>) -> (
    u16,
    Seq<char>,
) {
    match found {
        Ok(Some(hostname)) => (
            200,
            HOSTNAME_FORM_1@ + id + HOSTNAME_FORM_2@ + hostname.unwrap_or(""@) + HOSTNAME_FORM_3@,
        ),
        Ok(None) => (
            404,
            "<div class=\"p-4 text-red-500\">Machine with ID "@ + id + " not found</div>"@,
        ),
        Err(e) => (500, "<div class=\"p-4 text-red-500\">Error: "@ + e + "</div>"@),
    }
}

/// The form for the host name of the machine with a number.
pub fn get_hostname_form(id: &str, found: Result<Option<Option<String>>, String>) -> (r: Page)
    ensures
        (r.status, r.html@) == hostname_page(
            id@,
            match found {
                Ok(h) => Ok(h.deep_view()),
                Err(e) => Err(e@),
            },
        ),
{
    match found {
        Ok(Some(hostname)) => {
            let current: String = match hostname {
                Some(h) => h,
                None => "".to_owned(),
            };
            let html = HOSTNAME_FORM_1.to_owned().concat(id).concat(HOSTNAME_FORM_2).concat(
                current.as_str(),
            ).concat(HOSTNAME_FORM_3);
            Page { status: 200, html }
        },
        Ok(None) => Page {
            status: 404,
            html: "<div class=\"p-4 text-red-500\">Machine with ID ".to_owned().concat(id).concat(
                " not found</div>",
            ),
        },
        Err(e) => Page {
            status: 500,
            html: "<div class=\"p-4 text-red-500\">Error: ".to_owned().concat(e.as_str()).concat(
                "</div>",
            ),
        },
    }
}

/// The form for the operating system of the machine with a number.
pub fn get_machine_os(id: &str) -> (r: String)
    ensures
        r@ == OS_FORM_1@ + id@ + OS_FORM_2@,
{
    OS_FORM_1.to_owned().concat(id).concat(OS_FORM_2)
}

/// The form for the status of the machine with a number.
pub fn get_machine_status(id: &str) -> (r: String)
    ensures
        r@ == STATUS_FORM_1@ + id@ + STATUS_FORM_2@,
{
    STATUS_FORM_1.to_owned().concat(id).concat(STATUS_FORM_2)
}

/// What is shown of the progress of a workflow, with the status that it is answered with, or
/// nothing where the progress itself is: `machine` is whether the machine is installing, if
/// there is one, and `workflow` whether there is a workflow.
pub open spec fn progress_notice(
    machine: Result<Option<bool>, ()>,
    workflow: Result<bool, ()>,
) -> Option<
    (u16, Seq<char>),
> {
    match machine {
        Err(_) => Some((500, "<div>Database error</div>"@)),
        Ok(None) => Some((404, "<div>Machine not found</div>"@)),
        Ok(Some(false)) => Some((200, "<div></div>"@)),
        Ok(Some(true)) => match workflow {
            Ok(true) => None,
            Ok(false) => Some((200, "<div></div>"@)),
            Err(_) => Some((500, "<div>Error fetching workflow</div>"@)),
        },
    }
}

/// Decides what is shown of the progress of a workflow: the page, or nothing where the progress
/// itself is to be shown.
pub fn get_workflow_progress(
    machine: Result<Option<bool>, ()>,
    workflow: Result<bool, ()>,
) -> (r: Option<
    Page,
>)
    ensures
        (match r {
            Some(page) => Some((page.status, page.html@)),
            None => None,
        }) == progress_notice(machine, workflow),
{
    match machine {
        Err(_) => Some(Page { status: 500, html: "<div>Database error</div>".to_owned() }),
        Ok(None) => Some(Page { status: 404, html: "<div>Machine not found</div>".to_owned() }),
        Ok(Some(false)) => Some(Page { status: 200, html: "<div></div>".to_owned() }),
        Ok(Some(true)) => match workflow {
            Ok(true) => None,
            Ok(false) => Some(Page { status: 200, html: "<div></div>".to_owned() }),
            Err(_) => Some(
                Page { status: 500, html: "<div>Error fetching workflow</div>".to_owned() },
            ),
        },
    }
}

/// Nobody but an administrator is shown a button.
pub proof fn buttons_are_for_administrators(status: StatusView, id: Seq<char>)
    ensures
        buttons(status, id, false) == ""@,
{
}

// ---------------------------------------------------------------------------------------------
// What the table shows
// ---------------------------------------------------------------------------------------------

/// The first `n` of some texts, one behind the other.
spec fn strung(parts: Seq<Seq<char>>, n: int) -> Seq<char>
    decreases n,
{
    if n <= 1 {
        parts[0]
    } else {
        strung(parts, n - 1) + parts[n - 1]
    }
}

proof fn neighbours_stand_together(parts: Seq<Seq<char>>, k: int, n: int)
    requires
        0 < k,
        k + 2 <= n <= parts.len(),
    ensures
        is_part(parts[k - 1] + parts[k] + parts[k + 1], strung(parts, n)),
    decreases n,
{
    let cell = parts[k - 1] + parts[k] + parts[k + 1];
    if n > k + 2 {
        neighbours_stand_together(parts, k, n - 1);
        part_of_longer(cell, strung(parts, n - 1), parts[n - 1]);
    } else {
        assert(strung(parts, k + 2) == strung(parts, k + 1) + parts[k + 1]);
        assert(strung(parts, k + 1) == strung(parts, k) + parts[k]);
        if k == 1 {
            assert(strung(parts, n) =~= Seq::<char>::empty() + cell);
            stand_together(Seq::<char>::empty(), cell);
        } else {
            assert(strung(parts, k) == strung(parts, k - 1) + parts[k - 1]);
            assert(strung(parts, n) =~= strung(parts, k - 1) + cell);
            stand_together(strung(parts, k - 1), cell);
        }
    }
}

/// The row of a machine shows its number, its names, its addresses, its status, its operating system and
/// its buttons, each in its own cell.
pub proof fn machines_are_shown_in_their_cells(
    m: MachineView,
    id: Seq<char>,
    other: Seq<char>,
    is_admin: bool,
)
    ensures
        is_part(
            ROW_1@ + id + ROW_2@,
            row(m, id, other, is_admin),
        ),
        is_part(
            ROW_2@ + display_name(m, id) + ROW_3@,
            row(m, id, other, is_admin),
        ),
        is_part(
            ROW_3@ + secondary_name(m) + ROW_4@,
            row(m, id, other, is_admin),
        ),
        is_part(
            ROW_4@ + m.mac_address + ROW_5@,
            row(m, id, other, is_admin),
        ),
        is_part(
            ROW_5@ + m.ip_address + ROW_6@,
            row(m, id, other, is_admin),
        ),
        is_part(
            ROW_7@ + status_words(m.status, other) + ROW_8@,
            row(m, id, other, is_admin),
        ),
        is_part(
            ROW_8@ + os_display(m) + ROW_9@,
            row(m, id, other, is_admin),
        ),
        is_part(
            ROW_9@ + buttons(m.status, id, is_admin) + ROW_10@,
            row(m, id, other, is_admin),
        ),
{
    let cells = seq![
        ROW_1@,
        id,
        ROW_2@,
        display_name(m, id),
        ROW_3@,
        secondary_name(m),
        ROW_4@,
        m.mac_address,
        ROW_5@,
        m.ip_address,
        ROW_6@,
        badge(m.status),
        ROW_7@,
        status_words(m.status, other),
        ROW_8@,
        os_display(m),
        ROW_9@,
        buttons(m.status, id, is_admin),
        ROW_10@,
    ];
    assert(strung(cells, 19) == row(m, id, other, is_admin)) by {
        reveal_with_fuel(strung, 20);
    }
    neighbours_stand_together(cells, 1, 19);
    neighbours_stand_together(cells, 3, 19);
    neighbours_stand_together(cells, 5, 19);
    neighbours_stand_together(cells, 7, 19);
    neighbours_stand_together(cells, 9, 19);
    neighbours_stand_together(cells, 13, 19);
    neighbours_stand_together(cells, 15, 19);
    neighbours_stand_together(cells, 17, 19);
}

/// Machines are listed in order, one row each; where there are none, that is said.
pub proof fn machines_are_listed_in_order(list: Seq<Listed>, next: Listed, is_admin: bool)
    ensures
        rows(list.push(next), is_admin) == rows(list, is_admin) + row(
            next.machine.deep_view(),
            next.id@,
            next.status_name@,
            is_admin,
        ),
        table(list.push(next), is_admin) == rows(list.push(next), is_admin),
        table(Seq::empty(), is_admin) == NO_MACHINES@,
{
    assert(list.push(next).drop_last() =~= list);
}

/// A machine is shown by its host name, else by its memorable name, else by its number; the memorable
/// name is the second one where there is a first.
pub proof fn machines_are_shown_by_name(m: MachineView, id: Seq<char>)
    ensures
        m.hostname matches Some(h) ==> display_name(m, id) == h,
        m.hostname is None ==> (m.memorable_name matches Some(n) ==> display_name(m, id) == n),
        m.hostname is None && m.memorable_name is None ==> display_name(m, id) == id,
        m.hostname is Some ==> (m.memorable_name matches Some(n) ==> secondary_name(m) == n),
        m.hostname is None || m.memorable_name is None ==> secondary_name(m).len() == 0,
{
    reveal_strlit("");
}

/// The operating system that is installed is shown; else the one that is chosen, by its name while it is
/// being installed; else none.
pub proof fn systems_are_shown(m: MachineView, os: Seq<char>)
    ensures
        m.os_installed == Some(os) ==> os_display(m) == os,
        m.os_installed is None && m.os_choice == Some(os) && m.status != StatusView::InstallingOS
            ==> os_display(m) == os,
        m.os_installed is None && m.os_choice == Some(os) && m.status == StatusView::InstallingOS
            ==> is_part(os_name(os), os_display(m)),
        m.os_installed is None && m.os_choice is None && m.status != StatusView::InstallingOS
            ==> os_display(m) == "None"@,
{
    stand_together("🚧 "@, os_name(os));
}

/// An administrator can assign an operating system exactly to a machine that awaits one.
pub proof fn systems_are_assigned_where_awaited(status: StatusView, id: Seq<char>)
    ensures
        status == StatusView::AwaitingAssignment ==> is_part(
            ASSIGN_BUTTON_1@ + id + ASSIGN_BUTTON_2@,
            buttons(status, id, true),
        ),
        status != StatusView::AwaitingAssignment ==> buttons(status, id, true) == BUTTONS_1@
            + BUTTONS_2@ + id + BUTTONS_3@ + id + BUTTONS_4@,
{
    reveal_strlit("");
    assert(BUTTONS_1@ + ""@ =~= BUTTONS_1@);
    let button = ASSIGN_BUTTON_1@ + id + ASSIGN_BUTTON_2@;
    stand_together(BUTTONS_1@, button);
    part_of_longer(button, BUTTONS_1@ + button, BUTTONS_2@);
    part_of_longer(button, BUTTONS_1@ + button + BUTTONS_2@, id);
    part_of_longer(button, BUTTONS_1@ + button + BUTTONS_2@ + id, BUTTONS_3@);
    part_of_longer(button, BUTTONS_1@ + button + BUTTONS_2@ + id + BUTTONS_3@, id);
    part_of_longer(button, BUTTONS_1@ + button + BUTTONS_2@ + id + BUTTONS_3@ + id, BUTTONS_4@);
}

/// An assignment that was recorded is confirmed with the system and the machine, unless there is no
/// template for it, which is then named; one for a machine that is not there names that.
pub proof fn assignments_are_answered(os: Seq<char>, id: Seq<char>, a: Assignment)
    ensures
        ({
            let page = assignment_page(os, id, a);
            match a {
                Assignment::Recorded { machine_name, failure } => match failure {
                    Some((e, template)) => (if is_part("Template"@, e@) && is_part(
                        "not found"@,
                        e@,
                    ) {
                        page.0 == 500 && is_part(template@, page.1)
                    } else {
                        page.0 == 200 && is_part(os, page.1) && is_part(machine_name@, page.1)
                    }),
                    None => page.0 == 200 && is_part(os, page.1) && is_part(machine_name@, page.1),
                },
                Assignment::NotFound => page.0 == 404 && is_part(id, page.1),
                Assignment::Failed(e) => page.0 == 500 && is_part(e@, page.1),
            }
        }),
{
    match a {
        Assignment::Recorded { machine_name, failure } => {
            if failure is Some {
                let (e, template) = failure->0;
                held_is_a_part(e@, "Template"@);
                held_is_a_part(e@, "not found"@);
                stands_between(TEMPLATE_MISSING_1@, template@, TEMPLATE_MISSING_2@);
            }
            let n = machine_name@;
            stands_between(ASSIGNED_1@, os, ASSIGNED_2@);
            stand_together(ASSIGNED_1@ + os + ASSIGNED_2@, n);
            let head = ASSIGNED_1@ + os + ASSIGNED_2@ + n;
            part_of_longer(os, ASSIGNED_1@ + os + ASSIGNED_2@, n);
            part_of_longer(os, head, ASSIGNED_3@);
            part_of_longer(n, head, ASSIGNED_3@);
            part_of_longer(os, head + ASSIGNED_3@, os);
            part_of_longer(n, head + ASSIGNED_3@, os);
            part_of_longer(os, head + ASSIGNED_3@ + os, ASSIGNED_4@);
            part_of_longer(n, head + ASSIGNED_3@ + os, ASSIGNED_4@);
            part_of_longer(os, head + ASSIGNED_3@ + os + ASSIGNED_4@, n);
            part_of_longer(n, head + ASSIGNED_3@ + os + ASSIGNED_4@, n);
            part_of_longer(os, head + ASSIGNED_3@ + os + ASSIGNED_4@ + n, ASSIGNED_5@);
            part_of_longer(n, head + ASSIGNED_3@ + os + ASSIGNED_4@ + n, ASSIGNED_5@);
        },
        Assignment::NotFound => {
            stands_between(ASSIGN_NOT_FOUND_1@, id, ASSIGN_NOT_FOUND_2@);
        },
        Assignment::Failed(e) => {
            stands_between(ASSIGN_DB_ERROR_1@, e@, ASSIGN_DB_ERROR_2@);
        },
    }
}

proof fn stands_between(a: Seq<char>, x: Seq<char>, b: Seq<char>)
    ensures
        is_part(x, a + x + b),
{
}

/// The progress of a workflow is shown exactly where the machine is installing and has a workflow.
pub proof fn progress_is_shown_while_installing(
    machine: Result<Option<bool>, ()>,
    workflow: Result<bool, ()>,
)
    ensures
        progress_notice(machine, workflow) is None <==> (machine matches Ok(Some(true))) && (workflow
            matches Ok(true)),
        machine is Err ==> (progress_notice(machine, workflow) matches Some(p) && p.0 == 500),
        machine == Ok::<Option<bool>, ()>(None) ==> (progress_notice(machine, workflow) matches Some(
            p,
        ) && p.0 == 404),
        machine == Ok::<Option<bool>, ()>(Some(false)) ==> (progress_notice(machine, workflow)
            matches Some(p) && p.0 == 200),
{
}

} // verus!
