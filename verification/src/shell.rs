//! The decisions of the desktop shell around the supervisor: which instance
//! may supervise, what a tray menu entry does, when the window is shown, and
//! what a request to exit sets off.

use crate::lifecycle::Supervisor;
use crate::text::str_eq;
use vstd::prelude::*;
use vstd::string::*;

verus! {

/// What the choice of a tray menu entry asks for.
#[derive(Clone, Copy, PartialEq, Eq, Structural, Debug)]
pub enum MenuAction {
    /// Show the window, whatever the flag to start minimized says.
    Open,
    /// Restart the server.
    Restart,
    /// Flip the flag to start minimized.
    ToggleMinimize,
    /// Flip the registration to start at login.
    ToggleStartup,
    /// Stop the server and exit.
    Quit,
    /// Nothing: the entry is not one of the menu's.
    Ignore,
}

/// One entry of the tray menu.
#[derive(Clone, Copy, Debug)]
pub struct MenuEntry {
    pub id: &'static str,
    pub label: &'static str,
    /// For an entry with a check mark, whether it is set.
    pub checked: Option<bool>,
}

/// What a request to exit sets off.
#[derive(Clone, Copy, PartialEq, Eq, Structural, Debug)]
pub enum ExitAction {
    /// The first request: stop the server in the background, then exit.
    Cleanup,
    /// A later request: cleanup is under way, let the exit proceed.
    Proceed,
}

/// Whether the user or the operating system has asked the supervisor to
/// exit.
#[derive(Debug)]
pub struct ExitIntent {
    requested: bool,
}

impl View for ExitIntent {
    type V = bool;

    closed spec fn view(&self) -> bool {
        self.requested
    }
}

/// The flags that the tray menu shows and flips.
#[derive(Clone, Copy, PartialEq, Eq, Structural, Debug)]
pub struct Preferences {
    pub minimize_to_tray: bool,
    pub startup_enabled: bool,
}

/// What an instance of the supervisor is to do once it has tried to take
/// the single-instance marker.
#[derive(Debug)]
pub enum Launch {
    /// It holds the marker: it supervises, beginning without a child.
    Primary { supervisor: Supervisor },
    /// Another instance holds the marker: it hands that instance its
    /// arguments and exits. It has no supervisor, and so no child.
    Secondary { forward: Vec<String> },
}

/// The entry that an identifier names.
pub open spec fn menu_action_spec(id: Seq<char>) -> MenuAction {
    if id == "open"@ {
        MenuAction::Open
    } else if id == "restart"@ {
        MenuAction::Restart
    } else if id == "minimize_startup"@ {
        MenuAction::ToggleMinimize
    } else if id == "startup"@ {
        MenuAction::ToggleStartup
    } else if id == "quit"@ {
        MenuAction::Quit
    } else {
        MenuAction::Ignore
    }
}

/// Identifier, label and check mark of each entry of the tray menu, in
/// order.
pub open spec fn tray_menu_spec(preferences: Preferences) -> Seq<
    (Seq<char>, Seq<char>, Option<bool>),
> {
    seq![
        ("open"@, "Open"@, None),
        ("restart"@, "Restart Server"@, None),
        (
            "minimize_startup"@,
            "Minimize to Tray on Startup"@,
            Some(preferences.minimize_to_tray),
        ),
        ("startup"@, "Start on System Startup"@, Some(preferences.startup_enabled)),
        ("quit"@, "Quit"@, None),
    ]
}

impl View for MenuEntry {
    type V = (Seq<char>, Seq<char>, Option<bool>);

    open spec fn view(&self) -> (Seq<char>, Seq<char>, Option<bool>) {
        (self.id@, self.label@, self.checked)
    }
}

/// The script that sends the window to the server's address.
pub open spec fn navigation_script_spec(url: Seq<char>) -> Seq<char> {
    "window.location.replace('"@ + url + "')"@
}

/// What a request to exit sets off, given whether one was made before:
/// the flag afterwards, which is set, and the action, which is the cleanup
/// for the first request only.
pub open spec fn exit_request(requested: bool) -> (bool, ExitAction) {
    (
        true,
        if requested {
            ExitAction::Proceed
        } else {
            ExitAction::Cleanup
        },
    )
}

/// What `count` requests to exit in a row set off, beginning with the flag
/// `requested`: the flag afterwards, and how many of them begin a cleanup.
pub open spec fn exit_requests(requested: bool, count: nat) -> (bool, nat)
    decreases count,
{
    if count == 0 {
        (requested, 0)
    } else {
        let (before, cleanups) = exit_requests(requested, (count - 1) as nat);
        let (after, action) = exit_request(before);
        (
            after,
            if action == ExitAction::Cleanup {
                cleanups + 1
            } else {
                cleanups
            },
        )
    }
}

/// What the instance is to do, given whether it got the single-instance
/// marker and the arguments it was launched with.
pub fn launch(marker_acquired: bool, args: Vec<String>) -> (launch: Launch)
    ensures
        match launch {
            Launch::Primary { supervisor } => marker_acquired && supervisor@ is None,
            Launch::Secondary { forward } => !marker_acquired && forward == args,
        },
{
    if marker_acquired {
        Launch::Primary { supervisor: Supervisor::new() }
    } else {
        Launch::Secondary { forward: args }
    }
}

/// What the choice of the tray menu entry `id` asks for.
pub fn menu_action(id: &str) -> (action: MenuAction)
    ensures
        action == menu_action_spec(id@),
{
    if str_eq(id, "open") {
        MenuAction::Open
    } else if str_eq(id, "restart") {
        MenuAction::Restart
    } else if str_eq(id, "minimize_startup") {
        MenuAction::ToggleMinimize
    } else if str_eq(id, "startup") {
        MenuAction::ToggleStartup
    } else if str_eq(id, "quit") {
        MenuAction::Quit
    } else {
        MenuAction::Ignore
    }
}

/// The entries of the tray menu for the flags as they are.
pub fn build_tray_menu(preferences: Preferences) -> (entries: Vec<MenuEntry>)
    ensures
        entries@.map_values(|entry: MenuEntry| entry@) == tray_menu_spec(preferences),
{
    let mut entries: Vec<MenuEntry> = Vec::new();
    entries.push(MenuEntry { id: "open", label: "Open", checked: None });
    entries.push(MenuEntry { id: "restart", label: "Restart Server", checked: None });
    entries.push(
        MenuEntry {
            id: "minimize_startup",
            label: "Minimize to Tray on Startup",
            checked: Some(preferences.minimize_to_tray),
        },
    );
    entries.push(
        MenuEntry {
            id: "startup",
            label: "Start on System Startup",
            checked: Some(preferences.startup_enabled),
        },
    );
    entries.push(MenuEntry { id: "quit", label: "Quit", checked: None });
    assert(entries@.map_values(|entry: MenuEntry| entry@) =~= tray_menu_spec(preferences));
    entries
}

/// Every entry of the tray menu asks for something, and no two for the
/// same.
pub proof fn lemma_tray_menu_is_routed(preferences: Preferences)
    ensures
        ({
            let menu = tray_menu_spec(preferences);
            &&& menu_action_spec(menu[0].0) == MenuAction::Open
            &&& menu_action_spec(menu[1].0) == MenuAction::Restart
            &&& menu_action_spec(menu[2].0) == MenuAction::ToggleMinimize
            &&& menu_action_spec(menu[3].0) == MenuAction::ToggleStartup
            &&& menu_action_spec(menu[4].0) == MenuAction::Quit
        }),
{
    reveal_strlit("open");
    reveal_strlit("restart");
    reveal_strlit("minimize_startup");
    reveal_strlit("startup");
    reveal_strlit("quit");
    assert("open"@.len() == 4);
    assert("restart"@.len() == 7);
    assert("minimize_startup"@.len() == 16);
    assert("startup"@.len() == 7);
    assert("quit"@.len() == 4);
    assert("startup"@[0] != "restart"@[0]);
    assert("quit"@[0] != "open"@[0]);
}

impl Preferences {
    /// Flips the flag to start minimized, and gives its new value, for
    /// the caller to save.
    pub fn toggle_minimize(&mut self) -> (value: bool)
        ensures
            value == !old(self).minimize_to_tray,
            *final(self) == (Preferences { minimize_to_tray: value, ..*old(self) }),
    {
        self.minimize_to_tray = !self.minimize_to_tray;
        self.minimize_to_tray
    }

    /// Flips the registration to start at login, and gives its new value,
    /// for the caller to register.
    pub fn toggle_startup(&mut self) -> (value: bool)
        ensures
            value == !old(self).startup_enabled,
            *final(self) == (Preferences { startup_enabled: value, ..*old(self) }),
    {
        self.startup_enabled = !self.startup_enabled;
        self.startup_enabled
    }
}

/// Whether to show the window when the application opens it by itself at
/// launch: it stays hidden where the flag to start minimized is set. When the
/// user asks for the window, by the tray or by launching a second instance,
/// it is shown whatever the flag says.
pub fn open_app_window(minimize_to_tray: bool) -> (show: bool)
    ensures
        show == !minimize_to_tray,
{
    !minimize_to_tray
}

/// The script that sends the window to the server at `url`.
pub fn redirect_to_server(url: &str) -> (script: String)
    ensures
        script@ == navigation_script_spec(url@),
{
    let mut script = String::from_str("window.location.replace('");
    script.append(url);
    script.append("')");
    script
}

impl ExitIntent {
    /// No exit was asked for yet.
    pub fn new() -> (intent: ExitIntent)
        ensures
            !intent@,
    {
        ExitIntent { requested: false }
    }

    /// Whether an exit was asked for.
    pub fn is_requested(&self) -> (requested: bool)
        ensures
            requested == self@,
    {
        self.requested
    }

    /// Takes a request to exit. The first one sets the flag and begins the
    /// cleanup; each later one finds the flag set and lets the exit proceed.
    pub fn request(&mut self) -> (action: ExitAction)
        ensures
            (final(self)@, action) == exit_request(old(self)@),
    {
        if self.requested {
            ExitAction::Proceed
        } else {
            self.requested = true;
            ExitAction::Cleanup
        }
    }

    /// Whether the server is still to be stopped when the application
    /// exits: only where no request to exit began the cleanup.
    pub fn stop_on_exit(&self) -> (stop: bool)
        ensures
            stop == !self@,
    {
        !self.requested
    }
}

/// Requests to exit are idempotent: of any number of them, the first
/// begins the cleanup and no other does.
pub proof fn lemma_one_cleanup(count: nat)
    ensures
        exit_requests(false, count) == (count > 0, if count > 0 {
            1nat
        } else {
            0nat
        }),
        exit_requests(true, count) == (true, 0nat),
    decreases count,
{
    if count > 0 {
        lemma_one_cleanup((count - 1) as nat);
    }
}

} // verus!
