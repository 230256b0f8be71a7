//! What is kept between runs: the flag to start minimized, as a small text
//! file, and the registration to start at login, as a file or a registry
//! value. The caller reads and writes; this module fixes names and contents.

use crate::platform::Platform;
use crate::text::{str_eq, trim, trim_str};
use vstd::prelude::*;
use vstd::string::*;

verus! {

/// A change to the registration to start at login, for the caller to make.
#[derive(Debug)]
pub enum StartupChange {
    /// Write `content` to the file `path`, after making the directory that
    /// holds it if `make_parent` says so.
    WriteFile { path: String, content: String, make_parent: bool },
    /// Remove the file `path`.
    RemoveFile { path: String },
    /// Set the registry value to the string `command`.
    SetRegistryValue { command: String },
    /// Delete the registry value.
    DeleteRegistryValue,
    /// Nothing can be done: the home directory or the path of the
    /// executable is not known.
    Nothing,
}

/// The flag that a setting file with this content stands for: set if the
/// content is `true` once trimmed.
pub open spec fn minimize_setting(content: Seq<char>) -> bool {
    trim(content) == "true"@
}

/// The content of the setting file for a flag.
pub open spec fn minimize_text(value: bool) -> Seq<char> {
    if value {
        "true"@
    } else {
        "false"@
    }
}

/// The registration file below the home directory, where the platform
/// registers by a file.
pub open spec fn startup_file(platform: Platform, home: Seq<char>) -> Option<Seq<char>> {
    match platform {
        Platform::MacOs => Some(home + "/Library/LaunchAgents/com.qbit-manage.desktop.plist"@),
        Platform::Linux => Some(home + "/.config/autostart/qbit-manage.desktop"@),
        Platform::Windows => None,
    }
}

pub open spec fn launch_agent_head() -> Seq<char> {
    "<?xml version=\"1.0\" encoding=\"UTF-8\"?>\n<!DOCTYPE plist PUBLIC \"-//Apple//DTD PLIST 1.0//EN\" \"http://www.apple.com/DTDs/PropertyList-1.0.dtd\">\n<plist version=\"1.0\">\n<dict>\n    <key>Label</key>\n    <string>com.qbit-manage.desktop</string>\n    <key>ProgramArguments</key>\n    <array>\n        <string>"@
}

pub open spec fn launch_agent_tail() -> Seq<char> {
    "</string>\n    </array>\n    <key>RunAtLoad</key>\n    <true/>\n</dict>\n</plist>"@
}

pub open spec fn desktop_entry_head() -> Seq<char> {
    "[Desktop Entry]\nType=Application\nExec="@
}

pub open spec fn desktop_entry_tail() -> Seq<char> {
    "\nHidden=false\nNoDisplay=false\nX-GNOME-Autostart-enabled=true\nName=qbit-manage\nComment=Start qbit-manage on login"@
}

/// The content of the registration file that starts the executable
/// `exe` at login.
pub open spec fn startup_content(platform: Platform, exe: Seq<char>) -> Option<Seq<char>> {
    match platform {
        Platform::MacOs => Some(launch_agent_head() + exe + launch_agent_tail()),
        Platform::Linux => Some(desktop_entry_head() + exe + desktop_entry_tail()),
        Platform::Windows => None,
    }
}

/// A change to the registration as plain values.
pub enum StartupChangeView {
    WriteFile { path: Seq<char>, content: Seq<char>, make_parent: bool },
    RemoveFile { path: Seq<char> },
    SetRegistryValue { command: Seq<char> },
    DeleteRegistryValue,
    Nothing,
}

impl View for StartupChange {
    type V = StartupChangeView;

    open spec fn view(&self) -> StartupChangeView {
        match self {
            StartupChange::WriteFile { path, content, make_parent } => StartupChangeView::WriteFile {
                path: path@,
                content: content@,
                make_parent: *make_parent,
            },
            StartupChange::RemoveFile { path } => StartupChangeView::RemoveFile { path: path@ },
            StartupChange::SetRegistryValue { command } => StartupChangeView::SetRegistryValue {
                command: command@,
            },
            StartupChange::DeleteRegistryValue => StartupChangeView::DeleteRegistryValue,
            StartupChange::Nothing => StartupChangeView::Nothing,
        }
    }
}

/// The change to make to the registration. On Windows the registry value
/// is set to the executable's path, or deleted. Elsewhere the registration
/// file below the home directory is written, on Linux after making its
/// directory, or removed. Where what it takes is not known, nothing is done.
pub open spec fn startup_change(
    platform: Platform,
    enabled: bool,
    home: Option<Seq<char>>,
    exe: Option<Seq<char>>,
) -> StartupChangeView {
    match platform {
        Platform::Windows => if !enabled {
            StartupChangeView::DeleteRegistryValue
        } else {
            match exe {
                Some(exe) => StartupChangeView::SetRegistryValue { command: exe },
                None => StartupChangeView::Nothing,
            }
        },
        _ => match home {
            None => StartupChangeView::Nothing,
            Some(home) => if !enabled {
                StartupChangeView::RemoveFile { path: startup_file(platform, home)->0 }
            } else {
                match exe {
                    Some(exe) => StartupChangeView::WriteFile {
                        path: startup_file(platform, home)->0,
                        content: startup_content(platform, exe)->0,
                        make_parent: platform == Platform::Linux,
                    },
                    None => StartupChangeView::Nothing,
                }
            },
        },
    }
}

/// The name of the setting file in the application's data directory.
pub fn minimize_setting_file_name() -> (name: &'static str)
    ensures
        name@ == "minimize_to_tray.txt"@,
{
    "minimize_to_tray.txt"
}

/// The registry key below the current user's hive that holds the programs
/// to start at login.
pub fn startup_registry_key() -> (key: &'static str)
    ensures
        key@ == "Software\\Microsoft\\Windows\\CurrentVersion\\Run"@,
{
    "Software\\Microsoft\\Windows\\CurrentVersion\\Run"
}

/// The name of the supervisor's value in that key.
pub fn startup_registry_value() -> (name: &'static str)
    ensures
        name@ == "qbit-manage-desktop"@,
{
    "qbit-manage-desktop"
}

/// The flag that the content of the setting file stands for.
pub fn parse_minimize_setting(content: &str) -> (value: bool)
    ensures
        value == minimize_setting(content@),
{
    str_eq(trim_str(content), "true")
}

/// The flag to start minimized, given the content of the setting file, or
/// `None` where there is no file or it cannot be read: then the flag is not
/// set.
pub fn load_minimize_setting(file: Option<&str>) -> (value: bool)
    ensures
        value == match file {
            Some(content) => minimize_setting(content@),
            None => false,
        },
{
    match file {
        Some(content) => parse_minimize_setting(content),
        None => false,
    }
}

/// The content to write to the setting file for a flag.
pub fn save_minimize_setting(value: bool) -> (content: &'static str)
    ensures
        content@ == minimize_text(value),
{
    if value {
        "true"
    } else {
        "false"
    }
}

/// What is written for a flag is read back as that flag.
pub proof fn lemma_minimize_setting_round_trip(value: bool)
    ensures
        minimize_setting(minimize_text(value)) == value,
{
    reveal_strlit("true");
    reveal_strlit("false");
    let t = "true"@;
    let f = "false"@;
    assert(t[0] == 't' && t.last() == 'e');
    assert(f[0] == 'f' && f.last() == 'e');
    assert(trim(t) == t);
    assert(trim(f) == f);
    assert(f.len() != t.len());
}

/// The registration file below the home directory `home`, where the
/// platform registers by a file.
pub fn get_startup_file_path(platform: Platform, home: &str) -> (path: Option<String>)
    ensures
        path.deep_view() == startup_file(platform, home@),
{
    match platform {
        Platform::MacOs => {
            let mut path = String::from_str(home);
            path.append("/Library/LaunchAgents/com.qbit-manage.desktop.plist");
            Some(path)
        },
        Platform::Linux => {
            let mut path = String::from_str(home);
            path.append("/.config/autostart/qbit-manage.desktop");
            Some(path)
        },
        Platform::Windows => None,
    }
}

/// The content of the registration file that starts the executable `exe`
/// at login, where the platform registers by a file.
pub fn startup_file_content(platform: Platform, exe: &str) -> (content: Option<String>)
    ensures
        content.deep_view() == startup_content(platform, exe@),
{
    match platform {
        Platform::MacOs => {
            let mut content = String::from_str(
                "<?xml version=\"1.0\" encoding=\"UTF-8\"?>\n<!DOCTYPE plist PUBLIC \"-//Apple//DTD PLIST 1.0//EN\" \"http://www.apple.com/DTDs/PropertyList-1.0.dtd\">\n<plist version=\"1.0\">\n<dict>\n    <key>Label</key>\n    <string>com.qbit-manage.desktop</string>\n    <key>ProgramArguments</key>\n    <array>\n        <string>",
            );
            content.append(exe);
            content.append(
                "</string>\n    </array>\n    <key>RunAtLoad</key>\n    <true/>\n</dict>\n</plist>",
            );
            Some(content)
        },
        Platform::Linux => {
            let mut content = String::from_str("[Desktop Entry]\nType=Application\nExec=");
            content.append(exe);
            content.append(
                "\nHidden=false\nNoDisplay=false\nX-GNOME-Autostart-enabled=true\nName=qbit-manage\nComment=Start qbit-manage on login",
            );
            Some(content)
        },
        Platform::Windows => None,
    }
}

/// The change to make so that the supervisor starts at login, or no longer
/// does. `home` is the home directory and `exe` the path of the running
/// executable, each where it is known.
pub fn set_startup_enabled(
    platform: Platform,
    enabled: bool,
    home: Option<&str>,
    exe: Option<&str>,
) -> (change: StartupChange)
    ensures
        change@ == startup_change(platform, enabled, home.deep_view(), exe.deep_view()),
{
    match platform {
        Platform::Windows => {
            if !enabled {
                return StartupChange::DeleteRegistryValue;
            }
            match exe {
                Some(exe) => StartupChange::SetRegistryValue { command: String::from_str(exe) },
                None => StartupChange::Nothing,
            }
        },
        _ => {
            let home = match home {
                Some(home) => home,
                None => {
                    return StartupChange::Nothing;
                },
            };
            let path = match get_startup_file_path(platform, home) {
                Some(path) => path,
                None => {
                    return StartupChange::Nothing;
                },
            };
            if !enabled {
                return StartupChange::RemoveFile { path };
            }
            let exe = match exe {
                Some(exe) => exe,
                None => {
                    return StartupChange::Nothing;
                },
            };
            match startup_file_content(platform, exe) {
                Some(content) => {
                    let make_parent = match platform {
                        Platform::Linux => true,
                        _ => false,
                    };
                    StartupChange::WriteFile { path, content, make_parent }
                },
                None => StartupChange::Nothing,
            }
        },
    }
}

} // verus!
