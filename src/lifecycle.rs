use vstd::prelude::*;

verus! {

/// Items of the tray menu.
#[derive(Clone, Copy, Debug, PartialEq, Eq, Structural)]
pub enum MenuCommand {
    Quit,
    ShowDashboard,
    SystemStatus,
    /// An identifier the dispatcher does not know.
    Unknown,
}

/// An application event delivered to the controller.
#[derive(Clone, Copy, Debug, PartialEq, Eq, Structural)]
pub enum AppEvent {
    /// The application finished launching.
    Launch,
    /// A tray menu item was chosen.
    Menu(MenuCommand),
    /// The tray icon was clicked.
    TrayClick { left: bool, released: bool },
    /// The main window asked to close.
    CloseRequested,
    /// The "start API" command was invoked.
    StartCommand,
    /// The "stop API" command was invoked.
    StopCommand,
}

/// An effect the host performs, in the order given.
#[derive(Clone, Copy, Debug, PartialEq, Eq, Structural)]
pub enum Action {
    /// Run a start request on the supervisor.
    StartServer,
    /// Run a stop request on the supervisor and terminate what it hands back.
    StopServer,
    /// Show the main window, if it exists.
    ShowWindow,
    /// Give the main window focus, if it exists.
    FocusWindow,
    /// Navigate the main window to the status view, if it exists.
    OpenStatusView,
    /// Hide the main window.
    HideWindow,
    /// Suppress the default close of the main window.
    PreventClose,
    /// Terminate the application.
    ExitApp,
}

/// The menu item named by an identifier.
pub open spec fn menu_command_spec(id: Seq<char>) -> MenuCommand {
    if id == "quit"@ {
        MenuCommand::Quit
    } else if id == "show"@ {
        MenuCommand::ShowDashboard
    } else if id == "status"@ {
        MenuCommand::SystemStatus
    } else {
        MenuCommand::Unknown
    }
}

/// Matches a tray menu identifier against the fixed ones.
pub fn menu_command(id: &str) -> (r: MenuCommand)
    ensures
        r == menu_command_spec(id@),
{
    let s = id.to_owned();
    if s == "quit".to_owned() {
        MenuCommand::Quit
    } else if s == "show".to_owned() {
        MenuCommand::ShowDashboard
    } else if s == "status".to_owned() {
        MenuCommand::SystemStatus
    } else {
        MenuCommand::Unknown
    }
}

/// The actions an event triggers, in order.
pub open spec fn actions_spec(event: AppEvent) -> Seq<Action> {
    match event {
        AppEvent::Launch => seq![Action::StartServer],
        AppEvent::Menu(MenuCommand::Quit) => seq![Action::StopServer, Action::ExitApp],
        AppEvent::Menu(MenuCommand::ShowDashboard) => seq![Action::ShowWindow, Action::FocusWindow],
        AppEvent::Menu(MenuCommand::SystemStatus) => seq![
            Action::ShowWindow,
            Action::FocusWindow,
            Action::OpenStatusView,
        ],
        AppEvent::Menu(MenuCommand::Unknown) => seq![],
        AppEvent::TrayClick { left, released } => if left && released {
            seq![Action::ShowWindow, Action::FocusWindow]
        } else {
            seq![]
        },
        AppEvent::CloseRequested => seq![Action::HideWindow, Action::PreventClose],
        AppEvent::StartCommand => seq![Action::StartServer],
        AppEvent::StopCommand => seq![Action::StopServer],
    }
}

/// Routes an event to the actions the host performs for it.
pub fn actions_for(event: AppEvent) -> (r: Vec<Action>)
    ensures
        r@ == actions_spec(event),
{
    let mut r: Vec<Action> = Vec::new();
    match event {
        AppEvent::Launch => r.push(Action::StartServer),
        AppEvent::Menu(MenuCommand::Quit) => {
            r.push(Action::StopServer);
            r.push(Action::ExitApp);
        },
        AppEvent::Menu(MenuCommand::ShowDashboard) => {
            r.push(Action::ShowWindow);
            r.push(Action::FocusWindow);
        },
        AppEvent::Menu(MenuCommand::SystemStatus) => {
            r.push(Action::ShowWindow);
            r.push(Action::FocusWindow);
            r.push(Action::OpenStatusView);
        },
        AppEvent::Menu(MenuCommand::Unknown) => {},
        AppEvent::TrayClick { left, released } => {
            if left && released {
                r.push(Action::ShowWindow);
                r.push(Action::FocusWindow);
            }
        },
        AppEvent::CloseRequested => {
            r.push(Action::HideWindow);
            r.push(Action::PreventClose);
        },
        AppEvent::StartCommand => r.push(Action::StartServer),
        AppEvent::StopCommand => r.push(Action::StopServer),
    }
    assert(r@ =~= actions_spec(event));
    r
}

/// Closing the window never stops the supervised process: among the events
/// of the window and the tray only the quit item does, and it stops the
/// process before the application exits.
pub proof fn lemma_only_quit_stops(event: AppEvent)
    requires
        !(event is StartCommand) && !(event is StopCommand),
    ensures
        actions_spec(event).contains(Action::StopServer) <==> event == AppEvent::Menu(
            MenuCommand::Quit,
        ),
        !actions_spec(AppEvent::CloseRequested).contains(Action::StopServer),
        event == AppEvent::Menu(MenuCommand::Quit) ==> actions_spec(event) == seq![
            Action::StopServer,
            Action::ExitApp,
        ],
{
    let a = actions_spec(event);
    if a.contains(Action::StopServer) {
        let i = choose|i: int| 0 <= i < a.len() && a[i] == Action::StopServer;
    }
    if event == AppEvent::Menu(MenuCommand::Quit) {
        assert(a[0] == Action::StopServer);
    }
    let c = actions_spec(AppEvent::CloseRequested);
    assert(c[0] != Action::StopServer && c[1] != Action::StopServer);
}

/// Visibility of the main window.
#[derive(Clone, Copy, Debug, PartialEq, Eq, Structural)]
pub enum Visibility {
    Hidden,
    Visible,
}

/// What is known of the supervised server.
#[derive(Clone, Copy, Debug, PartialEq, Eq, Structural)]
pub enum ServerPhase {
    /// No start has been attempted yet.
    Unknown,
    Started,
    Stopped,
}

/// The controller's observable state.
#[derive(Clone, Copy, Debug, PartialEq, Eq, Structural)]
pub struct LifecycleState {
    pub window: Visibility,
    pub server: ServerPhase,
    /// The application has been told to exit; no further event applies.
    pub exited: bool,
}

/// The state after an event. `window_exists` says whether the main window
/// could be found; `running` is what the supervisor reports once the event's
/// actions were performed.
pub open spec fn next_state_spec(
    s: LifecycleState,
    event: AppEvent,
    window_exists: bool,
    running: bool,
) -> LifecycleState {
    if s.exited {
        s
    } else {
        let phase = if running { ServerPhase::Started } else { ServerPhase::Stopped };
        let shown = if window_exists { LifecycleState { window: Visibility::Visible, ..s } } else { s };
        match event {
            AppEvent::Launch => LifecycleState { server: phase, ..s },
            AppEvent::StartCommand => LifecycleState { server: phase, ..s },
            AppEvent::StopCommand => LifecycleState { server: ServerPhase::Stopped, ..s },
            AppEvent::Menu(MenuCommand::Quit) => LifecycleState {
                server: ServerPhase::Stopped,
                exited: true,
                ..s
            },
            AppEvent::Menu(MenuCommand::ShowDashboard) => shown,
            AppEvent::Menu(MenuCommand::SystemStatus) => shown,
            AppEvent::Menu(MenuCommand::Unknown) => s,
            AppEvent::TrayClick { left, released } => if left && released { shown } else { s },
            AppEvent::CloseRequested => LifecycleState { window: Visibility::Hidden, ..s },
        }
    }
}

impl LifecycleState {
    /// The state at launch: window shown, no start attempted.
    pub fn initial() -> (r: LifecycleState)
        ensures
            r == (LifecycleState {
                window: Visibility::Visible,
                server: ServerPhase::Unknown,
                exited: false,
            }),
    {
        LifecycleState { window: Visibility::Visible, server: ServerPhase::Unknown, exited: false }
    }

    /// Applies an event to the state.
    pub fn next(self, event: AppEvent, window_exists: bool, running: bool) -> (r: LifecycleState)
        ensures
            r == next_state_spec(self, event, window_exists, running),
    {
        if self.exited {
            return self;
        }
        let phase = if running { ServerPhase::Started } else { ServerPhase::Stopped };
        let shown = if window_exists { LifecycleState { window: Visibility::Visible, ..self } } else { self };
        match event {
            AppEvent::Launch => LifecycleState { server: phase, ..self },
            AppEvent::StartCommand => LifecycleState { server: phase, ..self },
            AppEvent::StopCommand => LifecycleState { server: ServerPhase::Stopped, ..self },
            AppEvent::Menu(MenuCommand::Quit) => LifecycleState {
                server: ServerPhase::Stopped,
                exited: true,
                ..self
            },
            AppEvent::Menu(MenuCommand::ShowDashboard) => shown,
            AppEvent::Menu(MenuCommand::SystemStatus) => shown,
            AppEvent::Menu(MenuCommand::Unknown) => self,
            AppEvent::TrayClick { left, released } => if left && released { shown } else { self },
            AppEvent::CloseRequested => LifecycleState { window: Visibility::Hidden, ..self },
        }
    }
}

} // verus!
