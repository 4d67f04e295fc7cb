//! The icon of the server in the status bar of macOS.

use vstd::prelude::*;

use crate::install::tasks::{Task, run2, task2};

verus! {

/// Where the program that shows the icon is written.
pub const PROGRAM_PATH: &'static str = "/tmp/dragonfly_status_bar.swift";

/// The program that shows the icon, up to the name of the mode.
pub const PROGRAM_HEAD: &'static str = r#"import Cocoa

// Set the app to be an accessory app (no dock icon)
NSApplication.shared.setActivationPolicy(.accessory)

// Set a proper application name using process info
let appName = "Dragonfly Server"
ProcessInfo.processInfo.processName = appName

class StatusBarController {
    private var statusBar: NSStatusBar
    private var statusItem: NSStatusItem
    private var menu: NSMenu
    
    init() {
        statusBar = NSStatusBar.system
        statusItem = statusBar.statusItem(withLength: NSStatusItem.variableLength)
        menu = NSMenu()
        
        // Set the title emoji
        statusItem.button?.title = "🐉"
        
        // Create menu items
        let titleItem = NSMenuItem(title: "Running in "#;

/// The program that shows the icon, behind the name of the mode.
pub const PROGRAM_TAIL: &'static str = r#" Mode", action: nil, keyEquivalent: "")
        titleItem.isEnabled = false
        menu.addItem(titleItem)
        
        menu.addItem(NSMenuItem.separator())
        
        let openDashboardItem = NSMenuItem(title: "Open Dashboard", action: #selector(openDashboard), keyEquivalent: "")
        openDashboardItem.target = self
        menu.addItem(openDashboardItem)
        
        let viewLogsItem = NSMenuItem(title: "View Logs", action: #selector(viewLogs), keyEquivalent: "l")
        viewLogsItem.target = self
        menu.addItem(viewLogsItem)
        
        menu.addItem(NSMenuItem.separator())
        
        let quitItem = NSMenuItem(title: "Quit Dragonfly", action: #selector(quitApp), keyEquivalent: "q")
        quitItem.target = self
        menu.addItem(quitItem)
        
        // Attach the menu to the status item
        statusItem.menu = menu
    }
    
    @objc func openDashboard() {
        let url = URL(string: "http://localhost:3000")!
        NSWorkspace.shared.open(url)
    }
    
    @objc func viewLogs() {
        // Open system logs filtered to show Dragonfly logs
        // This works in both macOS 12+ (log show) and older versions (Console.app)
        let task = Process()
        task.launchPath = "/usr/bin/open"
        
        // Try to use the 'log' command first
        if FileManager.default.fileExists(atPath: "/usr/bin/log") {
            // Create an AppleScript to open Terminal with log command
            let script = NSAppleScript(source: """
                tell application "Terminal"
                    do script "log stream --predicate 'processImagePath contains \"dragonfly\"' --style compact"
                    activate
                end tell
                """)
            script?.executeAndReturnError(nil)
        } else {
            // Fallback to Console.app
            task.arguments = ["-a", "Console"]
            try? task.run()
        }
    }
    
    @objc func quitApp() {
        // Create a more robust approach to quit all Dragonfly processes
        print("Quitting Dragonfly...")
        
        let cleanupTask = {
            // Run all termination logic here
            
            // First attempt to signal dragonfly processes to exit gracefully
            let mainTask = Process()
            mainTask.launchPath = "/usr/bin/pkill"
            mainTask.arguments = ["-f", "dragonfly"]
            try? mainTask.run()
            
            // Wait a moment for graceful shutdown
            Thread.sleep(forTimeInterval: 0.5)
            
            // Try to forcefully kill any remaining processes
            let forceTask = Process()
            forceTask.launchPath = "/usr/bin/pkill"
            forceTask.arguments = ["-9", "-f", "dragonfly"]
            try? forceTask.run()
            
            // Also kill any Swift UI processes we created
            let uiTask = Process()
            uiTask.launchPath = "/usr/bin/pkill"
            uiTask.arguments = ["-f", "dragonfly_status_bar.swift"]
            try? uiTask.run()
            
            // Finally try to kill any processes using port 3000
            let portTask = Process()
            portTask.launchPath = "/bin/sh"
            portTask.arguments = ["-c", "lsof -i:3000 -t | xargs kill -9 >/dev/null 2>&1 || true"]
            try? portTask.run()
        }
        
        // Run the cleanup in a background thread
        DispatchQueue.global(qos: .userInitiated).async {
            // Run cleanup
            cleanupTask()
            
            // Exit the app after a short delay
            DispatchQueue.main.asyncAfter(deadline: .now() + 0.5) {
                NSApplication.shared.terminate(nil)
            }
        }
    }
}

// Create the application
let app = NSApplication.shared
app.applicationIconImage = NSImage(named: NSImage.Name("NSApplicationIcon"))
let controller = StatusBarController()

// Run the app
app.run()
"#;

/// The program that shows the icon of a server in a mode.
pub open spec fn program(mode: Seq<char>) -> Seq<char> {
    PROGRAM_HEAD@ + mode + PROGRAM_TAIL@
}

/// The icon: whether it is shown, or about to be.
#[derive(Clone, Copy, Debug, PartialEq, Eq, Structural)]
pub struct StatusBar {
    pub initialized: bool,
}

/// How launching the program went.
#[derive(Clone, Debug, PartialEq, Eq)]
pub enum Launch {
    /// It could not be launched.
    NotLaunched,
    /// It was launched; a search for it ran with success or not, and printed something or not.
    Launched { search_success: bool, found_any: bool },
}

impl StatusBar {
    /// Sets up the icon: the program to write and run, unless the icon is set up already.
    pub fn setup_status_bar(&mut self, mode: &str) -> (r: Option<String>)
        ensures
            final(self).initialized,
            r.deep_view() == (if old(self).initialized {
                None
            } else {
                Some(program(mode@))
            }),
    {
        if self.initialized {
            return None;
        }
        self.initialized = true;
        Some(PROGRAM_HEAD.to_owned().concat(mode).concat(PROGRAM_TAIL))
    }

    /// Takes note of how launching the program went. Where the program does not run, the icon
    /// may be set up again.
    pub fn conclude(&mut self, launch: &Launch) -> (r: Result<(), String>)
        ensures
            r is Ok <==> *launch == (Launch::Launched { search_success: true, found_any: true }),
            r matches Err(e) ==> e@ == (if launch is NotLaunched {
                "Failed to launch status bar app (is Swift installed?)"@
            } else {
                "Status bar process exited immediately after launch"@
            }),
            final(self).initialized == (r is Ok && old(self).initialized),
    {
        match launch {
            Launch::NotLaunched => {
                self.initialized = false;
                Err("Failed to launch status bar app (is Swift installed?)".to_owned())
            },
            Launch::Launched { search_success, found_any } => {
                if *search_success && *found_any {
                    Ok(())
                } else {
                    self.initialized = false;
                    Err("Status bar process exited immediately after launch".to_owned())
                }
            },
        }
    }
}

/// How the program that shows the icon is searched for.
pub fn search_task() -> (r: Task)
    ensures
        r.deep_view() == run2("pgrep"@, "-f"@, "dragonfly_status_bar.swift"@),
{
    task2("pgrep", "-f", "dragonfly_status_bar.swift")
}

/// How the program that shows the icon is ended, at shutdown.
pub fn end_task() -> (r: Task)
    ensures
        r.deep_view() == run2("pkill"@, "-f"@, "dragonfly_status_bar.swift"@),
{
    task2("pkill", "-f", "dragonfly_status_bar.swift")
}

} // verus!
