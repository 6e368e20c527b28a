//! What the application as a whole keeps track of: the screen in front, the
//! state of the tunnels, and what a key means before any screen sees it.

use vstd::prelude::*;
use crate::screens::{Key, KeyPress, CONTROL, SHIFT};
use crate::services::chain;

verus! {

/// The screens of the application, in the order of their tabs.
#[derive(Debug, Clone, Copy, PartialEq, Eq, Structural)]
pub enum AppScreen {
    Browser,
    Generator,
    Models,
}

impl AppScreen {
    /// The position of the screen's tab.
    pub open spec fn position(self) -> int {
        match self {
            AppScreen::Browser => 0,
            AppScreen::Generator => 1,
            AppScreen::Models => 2,
        }
    }

    /// The screen whose tab is at the given position.
    pub open spec fn at(position: int) -> AppScreen {
        if position == 0 {
            AppScreen::Browser
        } else if position == 1 {
            AppScreen::Generator
        } else {
            AppScreen::Models
        }
    }

    /// The position of the screen's tab.
    pub fn index(&self) -> (r: usize)
        ensures
            r == self.position(),
    {
        match self {
            AppScreen::Browser => 0,
            AppScreen::Generator => 1,
            AppScreen::Models => 2,
        }
    }

    /// The title of the screen's tab.
    pub fn title(&self) -> (r: &'static str)
        ensures
            r@ == (match self {
                AppScreen::Browser => "Browser"@,
                AppScreen::Generator => "Generator"@,
                AppScreen::Models => "Models"@,
            }),
    {
        match self {
            AppScreen::Browser => "Browser",
            AppScreen::Generator => "Generator",
            AppScreen::Models => "Models",
        }
    }

    /// The screen of the next tab; after the last comes the first.
    pub fn next(&self) -> (r: AppScreen)
        ensures
            r == AppScreen::at((self.position() + 1) % 3),
    {
        match self {
            AppScreen::Browser => AppScreen::Generator,
            AppScreen::Generator => AppScreen::Models,
            AppScreen::Models => AppScreen::Browser,
        }
    }

    /// The screen of the previous tab; before the first comes the last.
    pub fn previous(&self) -> (r: AppScreen)
        ensures
            r == AppScreen::at((self.position() + 2) % 3),
    {
        match self {
            AppScreen::Browser => AppScreen::Models,
            AppScreen::Generator => AppScreen::Browser,
            AppScreen::Models => AppScreen::Generator,
        }
    }
}

/// Going to the next tab and back, or back and on, leads to the same screen.
pub proof fn law_tabs_go_round(screen: AppScreen)
    ensures
        AppScreen::at((AppScreen::at((screen.position() + 1) % 3).position() + 2) % 3) == screen,
        AppScreen::at((AppScreen::at((screen.position() + 2) % 3).position() + 1) % 3) == screen,
        AppScreen::at(
            (AppScreen::at(
                (AppScreen::at((screen.position() + 1) % 3).position() + 1) % 3,
            ).position() + 1) % 3,
        ) == screen,
{
}

/// How the tunnels as a whole stand.
#[derive(Debug, Clone, Copy, PartialEq, Eq, Structural)]
pub enum Connection {
    /// Both tunnels are up.
    Connected,
    /// One of the tunnels is up.
    Partial,
    /// No tunnel is up.
    Disconnected,
}

/// Which tunnels are up.
#[derive(Debug, Clone, Copy, PartialEq, Eq, Structural)]
pub struct TunnelStatus {
    pub ollama: bool,
    pub comfyui: bool,
}

impl TunnelStatus {
    /// How the tunnels as a whole stand.
    pub fn connection(&self) -> (r: Connection)
        ensures
            r == (if self.ollama && self.comfyui {
                Connection::Connected
            } else if self.ollama || self.comfyui {
                Connection::Partial
            } else {
                Connection::Disconnected
            }),
    {
        if self.ollama && self.comfyui {
            Connection::Connected
        } else if self.ollama || self.comfyui {
            Connection::Partial
        } else {
            Connection::Disconnected
        }
    }

    /// Whether any tunnel is up.
    pub fn any(&self) -> (r: bool)
        ensures
            r == (self.ollama || self.comfyui),
    {
        self.ollama || self.comfyui
    }
}

impl Default for TunnelStatus {
    fn default() -> (r: TunnelStatus)
        ensures
            !r.ollama,
            !r.comfyui,
    {
        TunnelStatus { ollama: false, comfyui: false }
    }
}

/// A remote service that is reached through a tunnel.
#[derive(Debug, Clone, Copy, PartialEq, Eq, Structural)]
pub enum RemoteService {
    Ollama,
    ComfyUi,
}

/// What the application asks its caller to do after a key.
#[derive(Debug, Clone, Copy, PartialEq, Eq, Structural)]
pub enum AppAction {
    /// Leave the application.
    Quit,
    /// The generator has come to the front: hand it the browser's reference
    /// image.
    SyncReference,
    /// Another screen has come to the front.
    Switched,
    /// Open the tunnels, or close them if any is up.
    ToggleTunnels,
    /// Hand the key to the given screen.
    Delegate(AppScreen),
}

/// What to do with the tunnels.
#[derive(Debug, Clone, Copy, PartialEq, Eq, Structural)]
pub enum TunnelToggle {
    /// Close every tunnel.
    Close,
    /// Open the tunnel of the language model server, then that of the image
    /// generation server.
    Open,
}

/// Application state.
#[derive(Debug, Clone, PartialEq, Eq)]
pub struct App {
    pub current_screen: AppScreen,
    pub should_quit: bool,
    pub status_message: String,
    pub tunnel_status: TunnelStatus,
}

impl App {
    /// The key leaves the application: on the browser, `q` with any
    /// modifiers and `c` with the control key alone.
    pub open spec fn quits(self, key: KeyPress) -> bool {
        self.current_screen == AppScreen::Browser && (key.key == Key::Char('q') || (key.modifiers
            == CONTROL && key.key == Key::Char('c')))
    }

    /// What a key means before any screen sees it. A key that leaves the
    /// application comes first. Tab brings the next screen to the front,
    /// BackTab with the shift key alone the previous one. `t` toggles the
    /// tunnels. Every other key is for the screen in front.
    pub open spec fn meaning(self, key: KeyPress) -> AppAction {
        if self.quits(key) {
            AppAction::Quit
        } else if key.key == Key::Tab {
            if AppScreen::at((self.current_screen.position() + 1) % 3) == AppScreen::Generator {
                AppAction::SyncReference
            } else {
                AppAction::Switched
            }
        } else if key.key == Key::BackTab && key.modifiers == SHIFT {
            if AppScreen::at((self.current_screen.position() + 2) % 3) == AppScreen::Generator {
                AppAction::SyncReference
            } else {
                AppAction::Switched
            }
        } else if key.key == Key::Char('t') {
            AppAction::ToggleTunnels
        } else {
            AppAction::Delegate(self.current_screen)
        }
    }

    /// The application after a key.
    pub open spec fn after_key(self, key: KeyPress) -> App {
        if self.quits(key) {
            App { should_quit: true, ..self }
        } else if key.key == Key::Tab {
            App { current_screen: AppScreen::at((self.current_screen.position() + 1) % 3), ..self }
        } else if key.key == Key::BackTab && key.modifiers == SHIFT {
            App { current_screen: AppScreen::at((self.current_screen.position() + 2) % 3), ..self }
        } else {
            self
        }
    }

    /// The application as it starts: the browser in front, no tunnel up.
    pub fn new() -> (r: App)
        ensures
            r.current_screen == AppScreen::Browser,
            !r.should_quit,
            r.status_message@ == "Ready"@,
            !r.tunnel_status.ollama,
            !r.tunnel_status.comfyui,
    {
        App {
            current_screen: AppScreen::Browser,
            should_quit: false,
            status_message: String::from_str("Ready"),
            tunnel_status: TunnelStatus::default(),
        }
    }

    /// Takes in a key and says what it asks for.
    pub fn handle_key(&mut self, key: KeyPress) -> (r: AppAction)
        ensures
            r == old(self).meaning(key),
            *final(self) == old(self).after_key(key),
    {
        let on_browser = self.current_screen == AppScreen::Browser;
        let is_q = key.key == Key::Char('q');
        let is_ctrl_c = key.modifiers == CONTROL && key.key == Key::Char('c');
        if on_browser && (is_q || is_ctrl_c) {
            self.should_quit = true;
            AppAction::Quit
        } else if key.key == Key::Tab {
            self.current_screen = self.current_screen.next();
            if self.current_screen == AppScreen::Generator {
                AppAction::SyncReference
            } else {
                AppAction::Switched
            }
        } else if key.key == Key::BackTab && key.modifiers == SHIFT {
            self.current_screen = self.current_screen.previous();
            if self.current_screen == AppScreen::Generator {
                AppAction::SyncReference
            } else {
                AppAction::Switched
            }
        } else if key.key == Key::Char('t') {
            AppAction::ToggleTunnels
        } else {
            AppAction::Delegate(self.current_screen)
        }
    }

    /// Notes that the first images are being loaded.
    pub fn load_initial_data(&mut self)
        ensures
            final(self).status_message@ == "Loading images..."@,
            final(self).current_screen == old(self).current_screen,
            final(self).should_quit == old(self).should_quit,
            final(self).tunnel_status == old(self).tunnel_status,
    {
        self.status_message = String::from_str("Loading images...");
    }

    /// Takes in how loading the first images went.
    pub fn initial_data_loaded(&mut self, failure: Option<&str>)
        ensures
            final(self).status_message@ == (match failure {
                Some(reason) => "Failed to load images: "@ + reason@,
                None => "Ready"@,
            }),
            final(self).current_screen == old(self).current_screen,
            final(self).should_quit == old(self).should_quit,
            final(self).tunnel_status == old(self).tunnel_status,
    {
        self.status_message = match failure {
            Some(reason) => chain("Failed to load images: ", reason),
            None => String::from_str("Ready"),
        };
    }

    /// Says what to do with the tunnels: close them if any is up, which is
    /// noted at once, and open them otherwise.
    pub fn toggle_tunnels(&mut self) -> (r: TunnelToggle)
        ensures
            r == (if old(self).tunnel_status.ollama || old(self).tunnel_status.comfyui {
                TunnelToggle::Close
            } else {
                TunnelToggle::Open
            }),
            final(self).status_message@ == (if r == TunnelToggle::Close {
                "Tunnels closed"@
            } else {
                "Connecting to remote..."@
            }),
            !final(self).tunnel_status.ollama,
            !final(self).tunnel_status.comfyui,
            final(self).current_screen == old(self).current_screen,
            final(self).should_quit == old(self).should_quit,
    {
        if self.tunnel_status.any() {
            self.tunnel_status = TunnelStatus::default();
            self.status_message = String::from_str("Tunnels closed");
            TunnelToggle::Close
        } else {
            self.status_message = String::from_str("Connecting to remote...");
            TunnelToggle::Open
        }
    }

    /// Takes in how opening the tunnel of a service went, and says whether
    /// to go on: a tunnel that is up is noted, and a failure is shown and
    /// ends the opening. After the second tunnel the success is shown.
    pub fn tunnel_opened(&mut self, service: RemoteService, failure: Option<&str>) -> (r: bool)
        ensures
            r == failure is None,
            final(self).current_screen == old(self).current_screen,
            final(self).should_quit == old(self).should_quit,
            final(self).tunnel_status == (match (failure, service) {
                (None, RemoteService::Ollama) => TunnelStatus {
                    ollama: true,
                    ..old(self).tunnel_status
                },
                (None, RemoteService::ComfyUi) => TunnelStatus {
                    comfyui: true,
                    ..old(self).tunnel_status
                },
                (Some(_), _) => old(self).tunnel_status,
            }),
            final(self).status_message@ == (match (failure, service) {
                (None, RemoteService::Ollama) => old(self).status_message@,
                (None, RemoteService::ComfyUi) => "Connected to remote services"@,
                (Some(reason), RemoteService::Ollama) => "Ollama tunnel failed: "@ + reason@,
                (Some(reason), RemoteService::ComfyUi) => "ComfyUI tunnel failed: "@ + reason@,
            }),
    {
        match failure {
            None => {
                match service {
                    RemoteService::Ollama => {
                        self.tunnel_status.ollama = true;
                    },
                    RemoteService::ComfyUi => {
                        self.tunnel_status.comfyui = true;
                        self.status_message = String::from_str("Connected to remote services");
                    },
                }
                true
            },
            Some(reason) => {
                self.status_message = match service {
                    RemoteService::Ollama => chain("Ollama tunnel failed: ", reason),
                    RemoteService::ComfyUi => chain("ComfyUI tunnel failed: ", reason),
                };
                false
            },
        }
    }

    /// Takes in which tunnels are active.
    pub fn update_tunnel_status(&mut self, ollama: bool, comfyui: bool)
        ensures
            *final(self) == (App { tunnel_status: TunnelStatus { ollama, comfyui }, ..*old(self) }),
    {
        self.tunnel_status = TunnelStatus { ollama, comfyui };
    }
}

} // verus!
