//! The game flow: which screen the game is on, and which screens an entity
//! may live on.

use vstd::prelude::*;

verus! {

/// The outer state: boot, the menus, or a game session.
#[derive(Clone, Copy, Debug, PartialEq, Eq, Hash, Structural)]
pub enum AppState {
    Setup,
    Menu,
    Credits,
    Game,
}

/// The state of a game session. It exists only while the outer state is
/// `AppState::Game`.
#[derive(Clone, Copy, Debug, PartialEq, Eq, Hash, Structural)]
pub enum GameState {
    Setup,
    Running,
    Paused,
    Over,
}

impl Default for AppState {
    fn default() -> (s: AppState)
        ensures
            s == AppState::Setup,
    {
        AppState::Setup
    }
}

impl Default for GameState {
    fn default() -> (s: GameState)
        ensures
            s == GameState::Setup,
    {
        GameState::Setup
    }
}

/// The outer state and the session state as one value: every screen the game
/// can be on.
#[derive(Clone, Copy, Debug, PartialEq, Eq, Hash, Structural)]
pub enum Phase {
    Setup,
    Menu,
    Credits,
    GameSetup,
    Running,
    Paused,
    Over,
}

/// What a menu system asks for in one tick.
#[derive(Clone, Copy, Debug, PartialEq, Eq, Structural)]
pub struct MenuOutcome {
    /// The outer state to move to, if any.
    pub next_app: Option<AppState>,
    /// The session state to move to, if any.
    pub next_game: Option<GameState>,
    /// `Some(true)` to let the physics clock run, `Some(false)` to halt it.
    pub physics: Option<bool>,
    /// Whether the program is asked to quit.
    pub exit: bool,
}

impl MenuOutcome {
    /// The outcome that asks for nothing.
    pub open spec fn nothing() -> MenuOutcome {
        MenuOutcome { next_app: None, next_game: None, physics: None, exit: false }
    }

    /// The outcome that asks for nothing.
    pub fn none() -> (o: MenuOutcome)
        ensures
            o == MenuOutcome::nothing(),
    {
        MenuOutcome { next_app: None, next_game: None, physics: None, exit: false }
    }
}

impl Phase {
    /// The outer state of this phase.
    pub open spec fn app(self) -> AppState {
        match self {
            Phase::Setup => AppState::Setup,
            Phase::Menu => AppState::Menu,
            Phase::Credits => AppState::Credits,
            _ => AppState::Game,
        }
    }

    /// The session state of this phase, if a session is on.
    pub open spec fn game(self) -> Option<GameState> {
        match self {
            Phase::GameSetup => Some(GameState::Setup),
            Phase::Running => Some(GameState::Running),
            Phase::Paused => Some(GameState::Paused),
            Phase::Over => Some(GameState::Over),
            _ => None,
        }
    }

    /// The phase in which a session is in state `game`.
    pub open spec fn session(game: GameState) -> Phase {
        match game {
            GameState::Setup => Phase::GameSetup,
            GameState::Running => Phase::Running,
            GameState::Paused => Phase::Paused,
            GameState::Over => Phase::Over,
        }
    }

    /// The phase reached by moving the outer state to `app`: a session starts
    /// in its setup state, and stays as it is if one is already on.
    pub open spec fn entering(self, app: AppState) -> Phase {
        match app {
            AppState::Setup => Phase::Setup,
            AppState::Menu => Phase::Menu,
            AppState::Credits => Phase::Credits,
            AppState::Game => if self.app() == AppState::Game {
                self
            } else {
                Phase::GameSetup
            },
        }
    }

    /// The phase after the state changes that `outcome` asks for. A change of
    /// the outer state comes first; a change of the session state counts only
    /// while a session is on and the outer state stays.
    pub open spec fn after(self, outcome: MenuOutcome) -> Phase {
        match outcome.next_app {
            Some(app) => self.entering(app),
            None => match outcome.next_game {
                Some(game) => if self.app() == AppState::Game {
                    Phase::session(game)
                } else {
                    self
                },
                None => self,
            },
        }
    }

    /// The outer state of this phase.
    pub fn app_state(self) -> (a: AppState)
        ensures
            a == self.app(),
    {
        match self {
            Phase::Setup => AppState::Setup,
            Phase::Menu => AppState::Menu,
            Phase::Credits => AppState::Credits,
            _ => AppState::Game,
        }
    }

    /// The session state of this phase, if a session is on.
    pub fn game_state(self) -> (g: Option<GameState>)
        ensures
            g == self.game(),
    {
        match self {
            Phase::GameSetup => Some(GameState::Setup),
            Phase::Running => Some(GameState::Running),
            Phase::Paused => Some(GameState::Paused),
            Phase::Over => Some(GameState::Over),
            _ => None,
        }
    }

    /// The phase in which a session is in state `game`.
    pub fn of_game(game: GameState) -> (p: Phase)
        ensures
            p == Phase::session(game),
            p.app() == AppState::Game,
            p.game() == Some(game),
    {
        match game {
            GameState::Setup => Phase::GameSetup,
            GameState::Running => Phase::Running,
            GameState::Paused => Phase::Paused,
            GameState::Over => Phase::Over,
        }
    }

    /// The phase reached by moving the outer state to `app`.
    pub fn enter_app(self, app: AppState) -> (p: Phase)
        ensures
            p == self.entering(app),
            p.app() == app,
    {
        match app {
            AppState::Setup => Phase::Setup,
            AppState::Menu => Phase::Menu,
            AppState::Credits => Phase::Credits,
            AppState::Game => match self {
                Phase::GameSetup | Phase::Running | Phase::Paused | Phase::Over => self,
                _ => Phase::GameSetup,
            },
        }
    }

    /// Applies the state changes that a menu system asked for.
    pub fn apply(self, outcome: MenuOutcome) -> (p: Phase)
        ensures
            p == self.after(outcome),
    {
        match outcome.next_app {
            Some(app) => self.enter_app(app),
            None => match outcome.next_game {
                Some(game) => match self {
                    Phase::GameSetup | Phase::Running | Phase::Paused | Phase::Over => {
                        Phase::of_game(game)
                    },
                    _ => self,
                },
                None => self,
            },
        }
    }
}

/// Boot is over after one tick: from `Setup` the outer state moves to `Menu`.
/// In any other state nothing is asked for.
pub fn transition_app_setup_to_menu(app: AppState) -> (next: Option<AppState>)
    ensures
        next == (if app == AppState::Setup {
            Some(AppState::Menu)
        } else {
            None
        }),
{
    match app {
        AppState::Setup => Some(AppState::Menu),
        _ => None,
    }
}

/// A session is set up after one tick: from `Setup` it moves to `Running`.
/// In any other state nothing is asked for.
pub fn transition_game_setup_to_running(game: GameState) -> (next: Option<GameState>)
    ensures
        next == (if game == GameState::Setup {
            Some(GameState::Running)
        } else {
            None
        }),
{
    match game {
        GameState::Setup => Some(GameState::Running),
        _ => None,
    }
}

/// The screens on which an entity may live. On entering a phase that is not in
/// the set, the entity is removed.
#[derive(Clone, Copy, Debug, PartialEq, Eq, Structural)]
pub struct ForState {
    pub setup: bool,
    pub menu: bool,
    pub credits: bool,
    pub game_setup: bool,
    pub running: bool,
    pub paused: bool,
    pub over: bool,
}

impl ForState {
    /// Whether `phase` is in the set.
    pub open spec fn allows(self, phase: Phase) -> bool {
        match phase {
            Phase::Setup => self.setup,
            Phase::Menu => self.menu,
            Phase::Credits => self.credits,
            Phase::GameSetup => self.game_setup,
            Phase::Running => self.running,
            Phase::Paused => self.paused,
            Phase::Over => self.over,
        }
    }

    /// The set as a mathematical set of phases.
    pub open spec fn view(self) -> Set<Phase> {
        Set::new(|p: Phase| self.allows(p))
    }

    /// The phases of one outer state.
    pub open spec fn of_app(app: AppState) -> ForState {
        ForState {
            setup: app == AppState::Setup,
            menu: app == AppState::Menu,
            credits: app == AppState::Credits,
            game_setup: app == AppState::Game,
            running: app == AppState::Game,
            paused: app == AppState::Game,
            over: app == AppState::Game,
        }
    }

    /// The one phase of a session state.
    pub open spec fn of_game(game: GameState) -> ForState {
        ForState {
            setup: false,
            menu: false,
            credits: false,
            game_setup: game == GameState::Setup,
            running: game == GameState::Running,
            paused: game == GameState::Paused,
            over: game == GameState::Over,
        }
    }

    /// The set of every phase: an entity that is never torn down.
    pub fn always() -> (s: ForState)
        ensures
            forall|p: Phase| s.allows(p),
    {
        ForState {
            setup: true,
            menu: true,
            credits: true,
            game_setup: true,
            running: true,
            paused: true,
            over: true,
        }
    }

    /// The set of the phases whose outer state is `app`.
    pub fn app(app: AppState) -> (s: ForState)
        ensures
            s == ForState::of_app(app),
            forall|p: Phase| s.allows(p) <==> p.app() == app,
    {
        let in_game = match app {
            AppState::Game => true,
            _ => false,
        };
        ForState {
            setup: match app {
                AppState::Setup => true,
                _ => false,
            },
            menu: match app {
                AppState::Menu => true,
                _ => false,
            },
            credits: match app {
                AppState::Credits => true,
                _ => false,
            },
            game_setup: in_game,
            running: in_game,
            paused: in_game,
            over: in_game,
        }
    }

    /// The set that holds only the phase of the session state `game`.
    pub fn game(game: GameState) -> (s: ForState)
        ensures
            s == ForState::of_game(game),
            forall|p: Phase| s.allows(p) <==> p.game() == Some(game),
    {
        ForState {
            setup: false,
            menu: false,
            credits: false,
            game_setup: match game {
                GameState::Setup => true,
                _ => false,
            },
            running: match game {
                GameState::Running => true,
                _ => false,
            },
            paused: match game {
                GameState::Paused => true,
                _ => false,
            },
            over: match game {
                GameState::Over => true,
                _ => false,
            },
        }
    }

    /// Whether an entity with this set may live in `phase`.
    pub fn contains(&self, phase: Phase) -> (b: bool)
        ensures
            b == self.allows(phase),
            b == self@.contains(phase),
    {
        match phase {
            Phase::Setup => self.setup,
            Phase::Menu => self.menu,
            Phase::Credits => self.credits,
            Phase::GameSetup => self.game_setup,
            Phase::Running => self.running,
            Phase::Paused => self.paused,
            Phase::Over => self.over,
        }
    }
}

} // verus!
