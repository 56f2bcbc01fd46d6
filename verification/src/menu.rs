//! Menus: what the menu keys do in each state of the game, the selection in a
//! menu, and blinking texts.

use vstd::prelude::*;
use crate::state::{AppState, ForState, GameState, MenuOutcome, Phase};
use crate::timer::{Timer, TimerMode};
use crate::world::{Entity, Kind, Record, World};

verus! {

/// Period of a blinking text, in milliseconds.
pub const BLINK_MILLIS: u32 = 500;

/// What the player can ask of the menus.
#[derive(Clone, Copy, Debug, PartialEq, Eq, Hash, Structural)]
pub enum MenuAction {
    /// Move the selection up.
    MenuUp,
    /// Move the selection down.
    MenuDown,
    /// Start the game, or take the selected entry.
    Accept,
    /// Pause the running game, or go on with the paused one.
    PauseUnpause,
    /// Leave the game for the first menu.
    ExitToMenu,
    /// Leave the program.
    Quit,
}

/// The menu actions that were pressed in this tick and not in the one before.
#[derive(Clone, Copy, Debug, PartialEq, Eq, Structural)]
pub struct MenuInput {
    pub menu_up: bool,
    pub menu_down: bool,
    pub accept: bool,
    pub pause_unpause: bool,
    pub exit_to_menu: bool,
    pub quit: bool,
}

impl MenuInput {
    /// Whether `action` was pressed in this tick.
    pub open spec fn has(self, action: MenuAction) -> bool {
        match action {
            MenuAction::MenuUp => self.menu_up,
            MenuAction::MenuDown => self.menu_down,
            MenuAction::Accept => self.accept,
            MenuAction::PauseUnpause => self.pause_unpause,
            MenuAction::ExitToMenu => self.exit_to_menu,
            MenuAction::Quit => self.quit,
        }
    }

    /// Whether `action` was pressed in this tick.
    pub fn just_pressed(&self, action: MenuAction) -> (b: bool)
        ensures
            b == self.has(action),
    {
        match action {
            MenuAction::MenuUp => self.menu_up,
            MenuAction::MenuDown => self.menu_down,
            MenuAction::Accept => self.accept,
            MenuAction::PauseUnpause => self.pause_unpause,
            MenuAction::ExitToMenu => self.exit_to_menu,
            MenuAction::Quit => self.quit,
        }
    }
}

/// A timer that makes a text blink.
#[derive(Clone, Copy, Debug, PartialEq, Eq, Structural)]
pub struct DrawBlinkTimer(pub Timer);

/// The tag of a text that can blink.
#[derive(Clone, Copy, Debug, PartialEq, Eq, Structural)]
pub struct DrawBlink {
    pub timer: Timer,
    pub enabled: bool,
}

/// The tag of a menu button: the place of its entry in the menu.
#[derive(Clone, Copy, Debug, PartialEq, Eq, Structural)]
pub struct ButtonId(pub i32);

/// Colour of a text, as red, green and blue.
#[derive(Clone, Copy, Debug, PartialEq, Eq, Structural)]
pub struct TextColor {
    pub red: u8,
    pub green: u8,
    pub blue: u8,
}

/// A menu: a title and a list of entries, one of which is selected.
#[derive(Debug)]
pub struct MenuHandler {
    pub main_text: String,
    pub main_text_color: TextColor,
    pub main_text_blink: bool,
    pub entries: Vec<String>,
    pub selected_id: i32,
}

/// The states that the old start screen, pause screen and end screen ask for.
pub open spec fn menu_request(app: AppState, input: MenuInput) -> MenuOutcome {
    if app != AppState::Menu && input.exit_to_menu {
        MenuOutcome { next_app: Some(AppState::Menu), physics: Some(true), ..MenuOutcome::nothing() }
    } else if app == AppState::Menu {
        MenuOutcome {
            next_app: if input.accept {
                Some(AppState::Game)
            } else {
                None
            },
            exit: input.quit,
            ..MenuOutcome::nothing()
        }
    } else {
        MenuOutcome::nothing()
    }
}

/// Menu keys outside a session. Anywhere but in the first menu, "exit to
/// menu" leads there and lets the physics clock run again. In the first menu,
/// "accept" starts a session and "quit" leaves the program.
pub fn menu_input_system(app: AppState, input: MenuInput) -> (outcome: MenuOutcome)
    ensures
        outcome == menu_request(app, input),
{
    let mut outcome = MenuOutcome::none();
    let in_menu = match app {
        AppState::Menu => true,
        _ => false,
    };
    if !in_menu && input.just_pressed(MenuAction::ExitToMenu) {
        outcome.next_app = Some(AppState::Menu);
        outcome.physics = Some(true);
    } else if in_menu {
        if input.just_pressed(MenuAction::Accept) {
            outcome.next_app = Some(AppState::Game);
        }
        if input.just_pressed(MenuAction::Quit) {
            outcome.exit = true;
        }
    }
    outcome
}

/// The states that a session asks for by itself and on the menu keys.
pub open spec fn in_game_request(game: GameState, input: MenuInput) -> MenuOutcome {
    match game {
        GameState::Setup => MenuOutcome {
            next_game: Some(GameState::Running),
            ..MenuOutcome::nothing()
        },
        GameState::Running => if input.pause_unpause {
            MenuOutcome {
                next_game: Some(GameState::Paused),
                physics: Some(false),
                ..MenuOutcome::nothing()
            }
        } else {
            MenuOutcome::nothing()
        },
        GameState::Paused => if input.pause_unpause {
            MenuOutcome {
                next_game: Some(GameState::Running),
                physics: Some(true),
                ..MenuOutcome::nothing()
            }
        } else {
            MenuOutcome::nothing()
        },
        GameState::Over => if input.accept {
            MenuOutcome { next_app: Some(AppState::Menu), ..MenuOutcome::nothing() }
        } else {
            MenuOutcome::nothing()
        },
    }
}

/// Menu keys in a session. Setup is over after one tick. "Pause" halts the
/// running game with its physics clock and lets the paused game go on. After
/// the end, "accept" leads to the first menu.
pub fn in_game_menu_input_system(game: GameState, input: MenuInput) -> (outcome: MenuOutcome)
    ensures
        outcome == in_game_request(game, input),
{
    let mut outcome = MenuOutcome::none();
    match game {
        GameState::Setup => {
            outcome.next_game = Some(GameState::Running);
        },
        GameState::Running => {
            if input.just_pressed(MenuAction::PauseUnpause) {
                outcome.next_game = Some(GameState::Paused);
                outcome.physics = Some(false);
            }
        },
        GameState::Paused => {
            if input.just_pressed(MenuAction::PauseUnpause) {
                outcome.next_game = Some(GameState::Running);
                outcome.physics = Some(true);
            }
        },
        GameState::Over => {
            if input.just_pressed(MenuAction::Accept) {
                outcome.next_app = Some(AppState::Menu);
            }
        },
    }
    outcome
}

/// What the menu keys ask for in `phase` when one system handles them all.
pub open spec fn ui_request(phase: Phase, input: MenuInput) -> MenuOutcome {
    if phase != Phase::Menu && input.exit_to_menu {
        MenuOutcome { next_app: Some(AppState::Menu), physics: Some(true), ..MenuOutcome::nothing() }
    } else {
        match phase {
            Phase::Menu => MenuOutcome {
                next_app: if input.accept {
                    Some(AppState::Game)
                } else {
                    None
                },
                next_game: if input.accept {
                    Some(GameState::Running)
                } else {
                    None
                },
                exit: input.quit,
                ..MenuOutcome::nothing()
            },
            Phase::Running => if input.pause_unpause {
                MenuOutcome {
                    next_game: Some(GameState::Paused),
                    physics: Some(false),
                    ..MenuOutcome::nothing()
                }
            } else {
                MenuOutcome::nothing()
            },
            Phase::Paused => if input.pause_unpause {
                MenuOutcome {
                    next_game: Some(GameState::Running),
                    physics: Some(true),
                    ..MenuOutcome::nothing()
                }
            } else {
                MenuOutcome::nothing()
            },
            Phase::Over => MenuOutcome {
                next_app: if input.accept {
                    Some(AppState::Menu)
                } else {
                    None
                },
                exit: input.quit,
                ..MenuOutcome::nothing()
            },
            _ => MenuOutcome::nothing(),
        }
    }
}

/// All menu keys in one system. "Exit to menu" comes first: anywhere but in
/// the first menu it leads there, lets the physics clock run, and nothing
/// else is looked at. Else the first menu starts a session on "accept", the
/// running and the paused game change places on "pause", and the end screen
/// leads to the first menu on "accept"; the first menu and the end screen
/// leave the program on "quit".
pub fn ui_input_system(phase: Phase, input: MenuInput) -> (outcome: MenuOutcome)
    ensures
        outcome == ui_request(phase, input),
{
    let mut outcome = MenuOutcome::none();
    let in_menu = match phase {
        Phase::Menu => true,
        _ => false,
    };
    if !in_menu && input.just_pressed(MenuAction::ExitToMenu) {
        outcome.next_app = Some(AppState::Menu);
        outcome.physics = Some(true);
        return outcome;
    }
    match phase {
        Phase::Menu => {
            if input.just_pressed(MenuAction::Accept) {
                outcome.next_app = Some(AppState::Game);
                outcome.next_game = Some(GameState::Running);
            }
            if input.just_pressed(MenuAction::Quit) {
                outcome.exit = true;
            }
        },
        Phase::Running => {
            if input.just_pressed(MenuAction::PauseUnpause) {
                outcome.next_game = Some(GameState::Paused);
                outcome.physics = Some(false);
            }
        },
        Phase::Paused => {
            if input.just_pressed(MenuAction::PauseUnpause) {
                outcome.next_game = Some(GameState::Running);
                outcome.physics = Some(true);
            }
        },
        Phase::Over => {
            if input.just_pressed(MenuAction::Accept) {
                outcome.next_app = Some(AppState::Menu);
            }
            if input.just_pressed(MenuAction::Quit) {
                outcome.exit = true;
            }
        },
        _ => {},
    }
    outcome
}

/// What "accept" asks for outside a session, by the selected entry. In the
/// first menu the entries are: play, credits, leave. On the credits screen:
/// back to the menu, leave.
pub open spec fn main_menu_request(app: AppState, accept: bool, selected: Option<i32>)
    -> MenuOutcome {
    match selected {
        Some(id) if accept => match app {
            AppState::Menu => if id == 0 {
                MenuOutcome { next_app: Some(AppState::Game), ..MenuOutcome::nothing() }
            } else if id == 1 {
                MenuOutcome { next_app: Some(AppState::Credits), ..MenuOutcome::nothing() }
            } else {
                MenuOutcome { exit: true, ..MenuOutcome::nothing() }
            },
            AppState::Credits => if id == 0 {
                MenuOutcome { next_app: Some(AppState::Menu), ..MenuOutcome::nothing() }
            } else {
                MenuOutcome { exit: true, ..MenuOutcome::nothing() }
            },
            _ => MenuOutcome::nothing(),
        },
        _ => MenuOutcome::nothing(),
    }
}

/// "Accept" outside a session, with a menu of entries. `selected` is the
/// selected entry of the menu on screen, `None` if there is no menu.
pub fn main_menu_input_system(app: AppState, input: MenuInput, selected: Option<i32>) -> (outcome:
    MenuOutcome)
    ensures
        outcome == main_menu_request(app, input.accept, selected),
{
    let mut outcome = MenuOutcome::none();
    if let Some(id) = selected {
        if input.just_pressed(MenuAction::Accept) {
            match app {
                AppState::Menu => {
                    if id == 0 {
                        outcome.next_app = Some(AppState::Game);
                    } else if id == 1 {
                        outcome.next_app = Some(AppState::Credits);
                    } else {
                        outcome.exit = true;
                    }
                },
                AppState::Credits => {
                    if id == 0 {
                        outcome.next_app = Some(AppState::Menu);
                    } else {
                        outcome.exit = true;
                    }
                },
                _ => {},
            }
        }
    }
    outcome
}

/// What the menu keys ask for in a session with menus of entries. "Pause"
/// makes the running and the paused game change places. "Accept" takes the
/// selected entry: on the pause screen go on, back to the first menu, leave;
/// on the end screen back to the first menu, leave. An accepted entry that
/// sets the session state comes after "pause" and wins.
pub open spec fn game_menu_request(game: GameState, input: MenuInput, selected: Option<i32>)
    -> MenuOutcome {
    let paused = MenuOutcome {
        next_game: if input.pause_unpause && game == GameState::Running {
            Some(GameState::Paused)
        } else if input.pause_unpause && game == GameState::Paused {
            Some(GameState::Running)
        } else {
            None
        },
        ..MenuOutcome::nothing()
    };
    match selected {
        Some(id) if input.accept => match game {
            GameState::Paused => if id == 0 {
                MenuOutcome { next_game: Some(GameState::Running), ..paused }
            } else if id == 1 {
                MenuOutcome { next_app: Some(AppState::Menu), ..paused }
            } else {
                MenuOutcome { exit: true, ..paused }
            },
            GameState::Over => if id == 0 {
                MenuOutcome { next_app: Some(AppState::Menu), ..paused }
            } else {
                MenuOutcome { exit: true, ..paused }
            },
            _ => paused,
        },
        _ => paused,
    }
}

/// The menu keys in a session, with menus of entries. `selected` is the
/// selected entry of the menu on screen, `None` if there is no menu.
pub fn game_menu_input_system(game: GameState, input: MenuInput, selected: Option<i32>) -> (outcome:
    MenuOutcome)
    ensures
        outcome == game_menu_request(game, input, selected),
{
    let mut outcome = MenuOutcome::none();
    if input.just_pressed(MenuAction::PauseUnpause) {
        match game {
            GameState::Running => {
                outcome.next_game = Some(GameState::Paused);
            },
            GameState::Paused => {
                outcome.next_game = Some(GameState::Running);
            },
            _ => {},
        }
    }
    if let Some(id) = selected {
        if input.just_pressed(MenuAction::Accept) {
            match game {
                GameState::Paused => {
                    if id == 0 {
                        outcome.next_game = Some(GameState::Running);
                    } else if id == 1 {
                        outcome.next_app = Some(AppState::Menu);
                    } else {
                        outcome.exit = true;
                    }
                },
                GameState::Over => {
                    if id == 0 {
                        outcome.next_app = Some(AppState::Menu);
                    } else {
                        outcome.exit = true;
                    }
                },
                _ => {},
            }
        }
    }
    outcome
}

/// The entry above entry `id` in a menu of `len` entries: the last one, for
/// the first.
pub open spec fn entry_above(id: int, len: int) -> int {
    if id == 0 {
        len - 1
    } else {
        id - 1
    }
}

/// The entry below entry `id` in a menu of `len` entries: the first one, for
/// the last.
pub open spec fn entry_below(id: int, len: int) -> int {
    if id == len - 1 {
        0
    } else {
        id + 1
    }
}

/// Going up and down a menu is counting modulo its length.
pub proof fn lemma_selection_goes_round(id: int, len: int)
    requires
        0 <= id < len,
    ensures
        entry_above(id, len) == (id - 1) % len,
        entry_below(id, len) == (id + 1) % len,
        0 <= entry_above(id, len) < len,
        0 <= entry_below(id, len) < len,
        entry_below(entry_above(id, len), len) == id,
        entry_above(entry_below(id, len), len) == id,
{
    if id == 0 {
        vstd::arithmetic::div_mod::lemma_fundamental_div_mod_converse(-1, len, -1, len - 1);
    } else {
        vstd::arithmetic::div_mod::lemma_small_mod((id - 1) as nat, len as nat);
    }
    if id == len - 1 {
        vstd::arithmetic::div_mod::lemma_mod_self_0(len);
    } else {
        vstd::arithmetic::div_mod::lemma_small_mod((id + 1) as nat, len as nat);
    }
}

impl MenuHandler {
    /// A menu has an entry, and one of its entries is selected.
    pub open spec fn wf(&self) -> bool {
        &&& 0 < self.entries@.len() <= i32::MAX
        &&& 0 <= self.selected_id < self.entries@.len()
    }

    /// The selection after the keys of one tick: up first, then down.
    pub open spec fn selection_after(&self, input: MenuInput) -> int {
        let len = self.entries@.len() as int;
        let up = if input.menu_up {
            entry_above(self.selected_id as int, len)
        } else {
            self.selected_id as int
        };
        if input.menu_down {
            entry_below(up, len)
        } else {
            up
        }
    }

    /// Whether the button `button` is the selected one.
    pub open spec fn selects(&self, button: ButtonId) -> bool {
        button.0 == self.selected_id
    }

    /// Whether the button `button` is drawn as the selected one.
    pub fn highlights(&self, button: ButtonId) -> (b: bool)
        ensures
            b == self.selects(button),
    {
        button.0 == self.selected_id
    }

    /// The buttons of the menu, one for each entry, in order.
    pub fn buttons(&self) -> (ids: Vec<ButtonId>)
        requires
            self.entries@.len() <= i32::MAX,
        ensures
            ids@.len() == self.entries@.len(),
            forall|i: int| 0 <= i < ids@.len() ==> (#[trigger] ids@[i]).0 == i,
    {
        let mut ids: Vec<ButtonId> = Vec::new();
        let n = self.entries.len();
        let mut i: usize = 0;
        while i < n
            invariant
                n == self.entries@.len(),
                n <= i32::MAX,
                i <= n,
                ids@.len() == i,
                forall|j: int| 0 <= j < i ==> (#[trigger] ids@[j]).0 == j,
            decreases n - i,
        {
            ids.push(ButtonId(i as i32));
            i += 1;
        }
        ids
    }

    /// The blinking of the title of the menu: twice a second, if the menu
    /// asks for it.
    pub fn title_blink(&self) -> (blink: DrawBlink)
        ensures
            blink == (DrawBlink {
                timer: Timer::fresh(500_000_000, TimerMode::Repeating),
                enabled: self.main_text_blink,
            }),
    {
        DrawBlink {
            timer: Timer::from_millis(BLINK_MILLIS, TimerMode::Repeating),
            enabled: self.main_text_blink,
        }
    }
}

/// Moves the selection of the menu: one up on "up", one down on "down",
/// going round at both ends.
pub fn menu_selection_system(menu: &mut MenuHandler, input: MenuInput)
    requires
        old(menu).wf(),
    ensures
        final(menu).wf(),
        final(menu).selected_id == old(menu).selection_after(input),
        final(menu).entries == old(menu).entries,
        final(menu).main_text == old(menu).main_text,
        final(menu).main_text_color == old(menu).main_text_color,
        final(menu).main_text_blink == old(menu).main_text_blink,
        input.menu_up == input.menu_down ==> final(menu).selected_id == old(menu).selected_id,
{
    let len: i32 = menu.entries.len() as i32;
    if input.just_pressed(MenuAction::MenuUp) {
        menu.selected_id = if menu.selected_id == 0 {
            len - 1
        } else {
            menu.selected_id - 1
        };
    }
    if input.just_pressed(MenuAction::MenuDown) {
        menu.selected_id = if menu.selected_id == len - 1 {
            0
        } else {
            menu.selected_id + 1
        };
    }
}

impl DrawBlink {
    /// The blinker after a step of `delta` nanoseconds: a disabled one stands
    /// still.
    pub open spec fn aged(self, delta: u64) -> DrawBlink {
        if self.enabled {
            DrawBlink { timer: self.timer.ticked(delta), ..self }
        } else {
            self
        }
    }

    /// Whether the text changes between shown and hidden in this step.
    pub open spec fn flips(self, delta: u64) -> bool {
        self.enabled && self.timer.ticked(delta).finished
    }
}

/// Steps the blinker of a text by `delta` nanoseconds. `visible` says
/// whether the text is shown; the result is what it becomes, if it changes.
pub fn menu_blink_system(blink: &mut DrawBlink, visible: bool, delta: u64) -> (change: Option<bool>)
    ensures
        *final(blink) == old(blink).aged(delta),
        change == (if old(blink).flips(delta) {
            Some(!visible)
        } else {
            None
        }),
{
    if blink.enabled {
        blink.timer.tick(delta);
        if blink.timer.finished() {
            return Some(!visible);
        }
    }
    None
}

/// Steps the timer of a blinking text by `delta` nanoseconds and changes the
/// text between shown and hidden when the timer fires.
pub fn draw_blink_system(timer: &mut DrawBlinkTimer, visible: &mut bool, delta: u64)
    ensures
        final(timer).0 == old(timer).0.ticked(delta),
        *final(visible) == (if old(timer).0.ticked(delta).finished {
            !*old(visible)
        } else {
            *old(visible)
        }),
{
    timer.0.tick(delta);
    if timer.0.finished() {
        *visible = !*visible;
    }
}

/// The entities that make up a menu on screen.
#[derive(Debug)]
pub struct MenuParts {
    /// The menu itself.
    pub menu: Entity,
    /// The title.
    pub title: Entity,
    /// The buttons, one for each entry, in order.
    pub buttons: Vec<Entity>,
}

/// The record of an entity of a menu: no body, and a life of `scope`.
pub open spec fn menu_part(kind: Kind, scope: ForState) -> Record {
    Record { kind, body: None, collider: None, scope, visible: true }
}

/// The records of the menu `menu` on screen: the menu, its title, which
/// blinks twice a second if the menu asks for it, and its buttons.
pub open spec fn menu_records(menu: MenuHandler, scope: ForState) -> Seq<Record> {
    Seq::new(
        menu.entries@.len() + 2,
        |i: int|
            if i == 0 {
                menu_part(Kind::Menu(menu), scope)
            } else if i == 1 {
                menu_part(
                    Kind::Blink(
                        DrawBlink {
                            timer: Timer::fresh(500_000_000, TimerMode::Repeating),
                            enabled: menu.main_text_blink,
                        },
                    ),
                    scope,
                )
            } else {
                menu_part(Kind::Button(ButtonId((i - 2) as i32)), scope)
            },
    )
}

impl MenuParts {
    /// The handles of all parts: menu, title, buttons.
    pub open spec fn handles(&self) -> Seq<Entity> {
        seq![self.menu, self.title] + self.buttons@
    }
}

impl MenuHandler {
    /// Whether the menu has the title `title` and the entries `entries`, the
    /// first of which is selected.
    pub open spec fn reads(&self, title: Seq<char>, entries: Seq<Seq<char>>) -> bool {
        &&& self.main_text@ == title
        &&& self.entries@.len() == entries.len()
        &&& forall|i: int| 0 <= i < entries.len() ==> (#[trigger] self.entries@[i])@ == entries[i]
        &&& self.selected_id == 0
    }

    /// Puts the menu on screen, to live in the phases of `scope`, and returns
    /// the handles of its parts.
    pub fn spawn(self, world: &mut World, scope: ForState) -> (parts: MenuParts)
        requires
            self.entries@.len() <= i32::MAX,
            old(world).entities.slots() + self.entries@.len() + 2 <= u32::MAX,
        ensures
            old(world).entities.grown(
                final(world).entities,
                parts.handles(),
                menu_records(self, scope),
            ),
            final(world).same_state(*old(world)),
            old(world).entities.at_most_one_ship() ==> final(world).entities.at_most_one_ship(),
    {
        let blink = self.title_blink();
        let ids = self.buttons();
        let ghost records = menu_records(self, scope);
        proof {
            old(world).entities.lemma_grown_none();
        }
        let ghost before = world.entities;
        let menu = world.entities.spawn(
            Record { kind: Kind::Menu(self), body: None, collider: None, scope, visible: true },
        );
        proof {
            old(world).entities.lemma_grown_push(
                before,
                world.entities,
                Seq::empty(),
                Seq::empty(),
                menu,
                records[0],
            );
        }
        let ghost before = world.entities;
        let title = world.entities.spawn(
            Record { kind: Kind::Blink(blink), body: None, collider: None, scope, visible: true },
        );
        proof {
            old(world).entities.lemma_grown_push(
                before,
                world.entities,
                Seq::empty().push(menu),
                Seq::empty().push(records[0]),
                title,
                records[1],
            );
            assert(seq![menu, title] =~= Seq::empty().push(menu).push(title));
            assert(records.take(2) =~= Seq::empty().push(records[0]).push(records[1]));
        }
        let mut buttons: Vec<Entity> = Vec::new();
        let n = ids.len();
        let mut i: usize = 0;
        while i < n
            invariant
                n == ids@.len(),
                n + 2 == records.len(),
                i <= n,
                old(world).entities.slots() + n + 2 <= u32::MAX,
                forall|k: int| 0 <= k < n ==> (#[trigger] ids@[k]).0 == k,
                forall|k: int| 2 <= k < n + 2 ==> (#[trigger] records[k]) == menu_part(
                    Kind::Button(ButtonId((k - 2) as i32)),
                    scope,
                ),
                old(world).entities.grown(
                    world.entities,
                    seq![menu, title] + buttons@,
                    records.take(i + 2),
                ),
                buttons@.len() == i,
                world.same_state(*old(world)),
            decreases n - i,
        {
            let ghost before = world.entities;
            let button = world.entities.spawn(
                Record { kind: Kind::Button(ids[i]), body: None, collider: None, scope, visible: true },
            );
            proof {
                assert(ids@[i as int] == ButtonId(i as i32));
                old(world).entities.lemma_grown_push(
                    before,
                    world.entities,
                    seq![menu, title] + buttons@,
                    records.take(i + 2),
                    button,
                    records[i + 2],
                );
                assert((seq![menu, title] + buttons@).push(button) =~= seq![menu, title]
                    + buttons@.push(button));
                assert(records.take(i + 3) =~= records.take(i + 2).push(records[i + 2]));
            }
            buttons.push(button);
            i += 1;
        }
        proof {
            assert(records.take(n + 2) =~= records);
        }
        MenuParts { menu, title, buttons }
    }
}

/// Whether `parts` are a menu that was put on screen in `after`, to live in
/// the phases of `scope`, with the title `title` and the entries `entries`,
/// and `after` is `before` but for that.
pub open spec fn menu_on_screen(
    before: World,
    after: World,
    parts: MenuParts,
    scope: ForState,
    title: Seq<char>,
    entries: Seq<Seq<char>>,
    blink: bool,
) -> bool {
    &&& after.same_state(before)
    &&& after.entities.live(parts.menu)
    &&& after.entities.record(parts.menu).kind matches Kind::Menu(menu)
    &&& menu.reads(title, entries)
    &&& menu.main_text_blink == blink
    &&& before.entities.grown(after.entities, parts.handles(), menu_records(menu, scope))
}

/// Puts the first menu on screen: play, credits, leave. It lives while the
/// outer state is the menu.
pub fn spawn_main_menu(world: &mut World) -> (parts: MenuParts)
    requires
        old(world).entities.slots() + 5 <= u32::MAX,
    ensures
        menu_on_screen(
            *old(world),
            *final(world),
            parts,
            ForState::of_app(AppState::Menu),
            "Kataster"@,
            seq!["Play"@, "Credits"@, "Exit"@],
            false,
        ),
        old(world).entities.at_most_one_ship() ==> final(world).entities.at_most_one_ship(),
{
    let mut entries: Vec<String> = Vec::new();
    entries.push("Play".to_owned());
    entries.push("Credits".to_owned());
    entries.push("Exit".to_owned());
    let menu = MenuHandler {
        main_text: "Kataster".to_owned(),
        main_text_color: TextColor { red: 0, green: 178, blue: 178 },
        main_text_blink: false,
        entries,
        selected_id: 0,
    };
    let parts = menu.spawn(world, ForState::app(AppState::Menu));
    proof {
        assert(parts.handles()[0] == parts.menu);
    }
    parts
}

/// Puts the menu of the end of the game on screen: back to the menu, leave.
/// It lives while the session is over.
pub fn spawn_gameover_menu(world: &mut World) -> (parts: MenuParts)
    requires
        old(world).entities.slots() + 4 <= u32::MAX,
    ensures
        menu_on_screen(
            *old(world),
            *final(world),
            parts,
            ForState::of_game(GameState::Over),
            "Game Over"@,
            seq!["Menu"@, "Exit"@],
            false,
        ),
        old(world).entities.at_most_one_ship() ==> final(world).entities.at_most_one_ship(),
{
    let mut entries: Vec<String> = Vec::new();
    entries.push("Menu".to_owned());
    entries.push("Exit".to_owned());
    let menu = MenuHandler {
        main_text: "Game Over".to_owned(),
        main_text_color: TextColor { red: 0xAA, green: 0x22, blue: 0x22 },
        main_text_blink: false,
        entries,
        selected_id: 0,
    };
    let parts = menu.spawn(world, ForState::game(GameState::Over));
    proof {
        assert(parts.handles()[0] == parts.menu);
    }
    parts
}

/// Puts the pause menu on screen, with a blinking title: go on, back to the
/// menu, leave. It lives while the session is paused.
pub fn spawn_pause_menu(world: &mut World) -> (parts: MenuParts)
    requires
        old(world).entities.slots() + 5 <= u32::MAX,
    ensures
        menu_on_screen(
            *old(world),
            *final(world),
            parts,
            ForState::of_game(GameState::Paused),
            "Pause"@,
            seq!["Resume"@, "Menu"@, "Exit"@],
            true,
        ),
        old(world).entities.at_most_one_ship() ==> final(world).entities.at_most_one_ship(),
{
    let mut entries: Vec<String> = Vec::new();
    entries.push("Resume".to_owned());
    entries.push("Menu".to_owned());
    entries.push("Exit".to_owned());
    let menu = MenuHandler {
        main_text: "Pause".to_owned(),
        main_text_color: TextColor { red: 0xF8, green: 0xE4, blue: 0x73 },
        main_text_blink: true,
        entries,
        selected_id: 0,
    };
    let parts = menu.spawn(world, ForState::game(GameState::Paused));
    proof {
        assert(parts.handles()[0] == parts.menu);
    }
    parts
}

/// Puts the menu of the credits screen on screen, without a title: back to
/// the menu, leave. It lives while the outer state is the credits.
pub fn spawn_credits_menu(world: &mut World) -> (parts: MenuParts)
    requires
        old(world).entities.slots() + 4 <= u32::MAX,
    ensures
        menu_on_screen(
            *old(world),
            *final(world),
            parts,
            ForState::of_app(AppState::Credits),
            ""@,
            seq!["Menu"@, "Exit"@],
            false,
        ),
        old(world).entities.at_most_one_ship() ==> final(world).entities.at_most_one_ship(),
{
    let mut entries: Vec<String> = Vec::new();
    entries.push("Menu".to_owned());
    entries.push("Exit".to_owned());
    let menu = MenuHandler {
        main_text: "".to_owned(),
        main_text_color: TextColor { red: 0, green: 178, blue: 178 },
        main_text_blink: false,
        entries,
        selected_id: 0,
    };
    let parts = menu.spawn(world, ForState::app(AppState::Credits));
    proof {
        assert(parts.handles()[0] == parts.menu);
    }
    parts
}

} // verus!
