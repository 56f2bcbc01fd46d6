//! The flow of the game from screen to screen: what a tick does with the menu
//! keys, and what is set up when a screen is entered.

use vstd::prelude::*;
use crate::arena::{spawn_arena, Arena};
use crate::explosion::{animate_explosion, explosion_rule};
use crate::hud::{hud_records, hud_spawn};
use crate::menu::{
    game_menu_input_system,
    game_menu_request,
    main_menu_input_system,
    main_menu_request,
    menu_blink_system,
    menu_input_system,
    menu_on_screen,
    menu_selection_system,
    spawn_credits_menu,
    spawn_gameover_menu,
    spawn_main_menu,
    spawn_pause_menu,
    MenuAction,
    MenuHandler,
    MenuInput,
    MenuParts,
};
use crate::player_ship::{ship_spawned, spawn_ship};
use crate::state::{
    transition_app_setup_to_menu,
    transition_game_setup_to_running,
    AppState,
    ForState,
    GameState,
    MenuOutcome,
    Phase,
};
use crate::world::{Entity, Kind, Record, Registry, World};

verus! {

/// What was put into the world when a phase was entered.
#[derive(Debug)]
pub struct Entered {
    /// The ship of the session.
    pub ship: Option<Entity>,
    /// The display of the session: score first, then the life markers.
    pub hud: Vec<Entity>,
    /// The menu of the screen.
    pub menu: Option<MenuParts>,
}

/// What a tick of the menus did.
#[derive(Debug)]
pub struct MenuFrame {
    /// Whether the program is asked to quit.
    pub exit: bool,
    /// What was put into the world, if a phase was entered.
    pub entered: Option<Entered>,
}

impl Entered {
    /// Whether nothing was put into the world.
    pub open spec fn nothing(&self) -> bool {
        self.ship is None && self.hud@.len() == 0 && self.menu is None
    }
}

/// Whether `after` is `before` with the menu of its phase put on screen as
/// `entered` says, and nothing else.
pub open spec fn menu_entered(
    before: World,
    after: World,
    entered: Entered,
    scope: ForState,
    title: Seq<char>,
    entries: Seq<Seq<char>>,
    blink: bool,
) -> bool {
    &&& entered.ship is None
    &&& entered.hud@.len() == 0
    &&& entered.menu matches Some(parts)
    &&& menu_on_screen(before, after, parts, scope, title, entries, blink)
}

/// Whether `after` is `before` with a session set up as `entered` says: the
/// arena is new, the ship is put in, and then the display.
pub open spec fn session_entered(before: World, mid: World, after: World, entered: Entered)
    -> bool {
    &&& entered.menu is None
    &&& entered.ship matches Some(ship)
    &&& ship_spawned(World { arena: Some(Arena::initial()), ..before }, mid, ship)
    &&& mid.entities.grown(after.entities, entered.hud@, hud_records())
    &&& after.same_state(mid)
}

/// Whether `after` is `before` with all set up that the phase of `before`
/// needs when it is entered: its menu for the menu, the credits, the pause
/// and the end of the game; arena, ship and display for the setup of a
/// session; nothing for the others.
pub open spec fn entered_phase(before: World, after: World, entered: Entered) -> bool {
    match before.phase {
        Phase::Menu => menu_entered(
            before,
            after,
            entered,
            ForState::of_app(AppState::Menu),
            "Kataster"@,
            seq!["Play"@, "Credits"@, "Exit"@],
            false,
        ),
        Phase::Credits => menu_entered(
            before,
            after,
            entered,
            ForState::of_app(AppState::Credits),
            ""@,
            seq!["Menu"@, "Exit"@],
            false,
        ),
        Phase::Paused => menu_entered(
            before,
            after,
            entered,
            ForState::of_game(GameState::Paused),
            "Pause"@,
            seq!["Resume"@, "Menu"@, "Exit"@],
            true,
        ),
        Phase::Over => menu_entered(
            before,
            after,
            entered,
            ForState::of_game(GameState::Over),
            "Game Over"@,
            seq!["Menu"@, "Exit"@],
            false,
        ),
        Phase::GameSetup => exists|mid: World| #[trigger]
            session_entered(before, mid, after, entered),
        _ => after == before && entered.nothing(),
    }
}

/// Sets up what the phase of the world needs when it is entered.
pub fn on_enter(world: &mut World) -> (entered: Entered)
    requires
        old(world).entities.slots() + 5 <= u32::MAX,
    ensures
        entered_phase(*old(world), *final(world), entered),
        final(world).phase == old(world).phase,
        final(world).physics_running == old(world).physics_running,
        final(world).entities.slots() <= old(world).entities.slots() + 5,
        old(world).entities.at_most_one_ship() ==> final(world).entities.at_most_one_ship(),
{
    match world.phase {
        Phase::Menu => {
            let parts = spawn_main_menu(world);
            Entered { ship: None, hud: Vec::new(), menu: Some(parts) }
        },
        Phase::Credits => {
            let parts = spawn_credits_menu(world);
            Entered { ship: None, hud: Vec::new(), menu: Some(parts) }
        },
        Phase::Paused => {
            let parts = spawn_pause_menu(world);
            Entered { ship: None, hud: Vec::new(), menu: Some(parts) }
        },
        Phase::Over => {
            let parts = spawn_gameover_menu(world);
            Entered { ship: None, hud: Vec::new(), menu: Some(parts) }
        },
        Phase::GameSetup => {
            spawn_arena(world);
            let ship = spawn_ship(world);
            let ghost mid = *world;
            let hud = hud_spawn(world);
            let entered = Entered { ship: Some(ship), hud, menu: None };
            proof {
                assert(session_entered(*old(world), mid, *world, entered));
            }
            entered
        },
        _ => Entered { ship: None, hud: Vec::new(), menu: None },
    }
}

/// The entry that is selected in the menu on screen, if there is exactly one
/// menu.
pub open spec fn selected_entry(registry: Registry) -> Option<i32> {
    match registry.the_menu() {
        Some(e) => Some(registry.record(e).kind->Menu_0.selected_id),
        None => None,
    }
}

/// The entry that is selected in the menu on screen, if there is exactly one
/// menu.
pub fn selection(registry: &Registry) -> (selected: Option<i32>)
    ensures
        selected == selected_entry(*registry),
{
    match registry.single_menu() {
        Some(e) => match registry.get(e) {
            Some(record) => match &record.kind {
                Kind::Menu(menu) => Some(menu.selected_id),
                _ => None,
            },
            None => None,
        },
        None => None,
    }
}

/// The entry that "accept" takes: the selected one, and the first one where
/// no menu is on screen.
pub open spec fn chosen_entry(selected: Option<i32>) -> i32 {
    match selected {
        Some(id) => id,
        None => 0,
    }
}

/// What the tick asks for in `phase`, with `selected` the selected entry of
/// the menu on screen.
///
/// Anywhere but in the menu, "exit to menu" leads there, lets the physics
/// clock run, and nothing else is looked at. Else boot and the setup of a
/// session end by themselves; the menu and the credits take the chosen entry
/// on "accept"; a session listens to "pause" and, paused or over, takes the
/// chosen entry on "accept". "Quit" leaves the program from the menu and
/// from the end of the game.
pub open spec fn frame_request(phase: Phase, input: MenuInput, selected: Option<i32>)
    -> MenuOutcome {
    let chosen = Some(chosen_entry(selected));
    if phase != Phase::Menu && input.exit_to_menu {
        MenuOutcome { next_app: Some(AppState::Menu), physics: Some(true), ..MenuOutcome::nothing() }
    } else {
        match phase {
            Phase::Setup => MenuOutcome {
                next_app: Some(AppState::Menu),
                ..MenuOutcome::nothing()
            },
            Phase::Menu => MenuOutcome {
                exit: input.quit || main_menu_request(AppState::Menu, input.accept, chosen).exit,
                ..main_menu_request(AppState::Menu, input.accept, chosen)
            },
            Phase::Credits => main_menu_request(AppState::Credits, input.accept, chosen),
            Phase::GameSetup => MenuOutcome {
                next_game: Some(GameState::Running),
                ..MenuOutcome::nothing()
            },
            Phase::Running => game_menu_request(GameState::Running, input, chosen),
            Phase::Paused => game_menu_request(GameState::Paused, input, chosen),
            Phase::Over => MenuOutcome {
                exit: input.quit || game_menu_request(GameState::Over, input, chosen).exit,
                ..game_menu_request(GameState::Over, input, chosen)
            },
        }
    }
}

/// With the keys that a game without entries to select knows, and the first
/// entry of each menu selected, the flow is this: boot leads to the menu;
/// "accept" leads from the menu into the setup of a session, which leads on
/// to the running game; "pause" halts the running game and lets the paused
/// one go on; after the end "accept" leads to the menu; and "exit to menu"
/// leads to the menu from every phase of a session. No key ends a session:
/// its end comes with the last life of the ship only.
pub proof fn lemma_flow_of_the_game(phase: Phase, input: MenuInput)
    ensures
        !input.exit_to_menu || phase == Phase::Menu ==> phase.after(
            frame_request(phase, input, Some(0)),
        ) == (match phase {
            Phase::Setup => Phase::Menu,
            Phase::Menu => if input.accept {
                Phase::GameSetup
            } else {
                Phase::Menu
            },
            Phase::Credits => if input.accept {
                Phase::Menu
            } else {
                Phase::Credits
            },
            Phase::GameSetup => Phase::Running,
            Phase::Running => if input.pause_unpause {
                Phase::Paused
            } else {
                Phase::Running
            },
            Phase::Paused => if input.pause_unpause || input.accept {
                Phase::Running
            } else {
                Phase::Paused
            },
            Phase::Over => if input.accept {
                Phase::Menu
            } else {
                Phase::Over
            },
        }),
        input.exit_to_menu && phase != Phase::Menu ==> phase.after(
            frame_request(phase, input, Some(0)),
        ) == Phase::Menu,
        phase.after(frame_request(phase, input, None)) == phase.after(
            frame_request(phase, input, Some(0)),
        ),
        phase.after(frame_request(phase, input, Some(0))) == Phase::Over ==> phase == Phase::Over,
{
}

/// Asks the menu systems what the tick leads to.
pub fn request(phase: Phase, input: MenuInput, selected: Option<i32>) -> (outcome: MenuOutcome)
    ensures
        outcome == frame_request(phase, input, selected),
{
    let app = phase.app_state();
    let chosen = match selected {
        Some(id) => Some(id),
        None => Some(0),
    };
    let outer = menu_input_system(app, input);
    match phase {
        Phase::Menu => {
            let mut outcome = main_menu_input_system(app, input, chosen);
            outcome.exit = outcome.exit || outer.exit;
            outcome
        },
        _ => {
            if outer.next_app.is_some() {
                return outer;
            }
            match phase.game_state() {
                None => {
                    let mut outcome = main_menu_input_system(app, input, chosen);
                    if let Some(next) = transition_app_setup_to_menu(app) {
                        outcome.next_app = Some(next);
                    }
                    outcome
                },
                Some(game) => {
                    let mut outcome = game_menu_input_system(game, input, chosen);
                    if let Some(next) = transition_game_setup_to_running(game) {
                        outcome.next_game = Some(next);
                    }
                    let over = match game {
                        GameState::Over => true,
                        _ => false,
                    };
                    if over && input.just_pressed(MenuAction::Quit) {
                        outcome.exit = true;
                    }
                    outcome
                },
            }
        },
    }
}

/// The record of an entity after the selection of a menu moved with `input`.
/// A menu without entries, or with a selection out of range, stays as it is.
pub open spec fn menu_moved(record: Record, input: MenuInput) -> Record {
    match record.kind {
        Kind::Menu(menu) if menu.wf() => Record {
            kind: Kind::Menu(
                MenuHandler { selected_id: menu.selection_after(input) as i32, ..menu },
            ),
            ..record
        },
        _ => record,
    }
}

/// Whether `after` is `before` with the selection of the one menu on screen
/// moved with `input`. Without exactly one menu nothing changes.
pub open spec fn selection_moved(before: World, after: World, input: MenuInput) -> bool {
    &&& after.same_state(before)
    &&& after.entities.slots() == before.entities.slots()
    &&& match before.entities.the_menu() {
        Some(e) => {
            &&& after.entities.same_but(before.entities, e)
            &&& after.entities.live(e)
            &&& after.entities.record(e) == menu_moved(before.entities.record(e), input)
        },
        None => after.entities == before.entities,
    }
}

/// Moves the selection of the one menu on screen with the keys of the tick.
pub fn select_entry(world: &mut World, input: MenuInput)
    ensures
        selection_moved(*old(world), *final(world), input),
        old(world).entities.at_most_one_ship() ==> final(world).entities.at_most_one_ship(),
{
    match world.entities.single_menu() {
        Some(e) => {
            if let Some(record) = world.entities.record_mut(e) {
                match &mut record.kind {
                    Kind::Menu(menu) => {
                        let n = menu.entries.len();
                        if 0 < n && n <= i32::MAX as usize && 0 <= menu.selected_id
                            && (menu.selected_id as usize) < n {
                            menu_selection_system(menu, input);
                        }
                    },
                    _ => {},
                }
            }
        },
        None => {},
    }
}

/// The record of an entity after a step of `delta` nanoseconds of the blinker
/// of a text, if it is one: when the blinker fires, the text changes between
/// shown and hidden.
pub open spec fn blinked(record: Record, delta: u64) -> Record {
    match record.kind {
        Kind::Blink(blink) => Record {
            kind: Kind::Blink(blink.aged(delta)),
            visible: if blink.flips(delta) {
                !record.visible
            } else {
                record.visible
            },
            ..record
        },
        _ => record,
    }
}

/// The blinking of texts as a rule on records: it removes nothing.
pub open spec fn blink_rule(delta: u64) -> spec_fn(Record) -> Option<Record> {
    |r: Record| Some(blinked(r, delta))
}

/// Steps the blinker of every text by `delta` nanoseconds.
pub fn blink_texts(world: &mut World, delta: u64)
    ensures
        old(world).entities.stepped(final(world).entities, blink_rule(delta)),
        final(world).same_state(*old(world)),
        final(world).entities.slots() == old(world).entities.slots(),
        old(world).entities.at_most_one_ship() ==> final(world).entities.at_most_one_ship(),
{
    let n = world.entities.slot_count();
    let mut i: usize = 0;
    while i < n
        invariant
            i <= n,
            n == old(world).entities.slots(),
            old(world).entities.stepped_below(world.entities, blink_rule(delta), i as int),
            world.same_state(*old(world)),
        decreases n - i,
    {
        let ghost before = world.entities;
        match world.entities.entity_at(i) {
            Some(e) => {
                if let Some(record) = world.entities.record_mut(e) {
                    let visible = record.visible;
                    let change = match &mut record.kind {
                        Kind::Blink(blink) => menu_blink_system(blink, visible, delta),
                        _ => None,
                    };
                    if let Some(shown) = change {
                        record.visible = shown;
                    }
                }
                proof {
                    old(world).entities.lemma_step_slot(before, world.entities, blink_rule(delta), e);
                }
            },
            None => {
                proof {
                    old(world).entities.lemma_skip_slot(before, blink_rule(delta), i as int);
                }
            },
        }
        i += 1;
    }
    proof {
        old(world).entities.lemma_stepped_all(world.entities, blink_rule(delta), n as int);
    }
}

/// The steps of a tick of the menus, with the worlds between them: the
/// selection moves, the texts blink, the explosions go on, what the keys
/// asked for is applied, and if that led to a new phase, the phase is set up.
pub open spec fn menu_steps(
    w0: World,
    w1: World,
    w2: World,
    w3: World,
    w4: World,
    w5: World,
    delta: u64,
    input: MenuInput,
    frame: MenuFrame,
) -> bool {
    let outcome = frame_request(w0.phase, input, selected_entry(w0.entities));
    &&& selection_moved(w0, w1, input)
    &&& w1.entities.stepped(w2.entities, blink_rule(delta)) && w2.same_state(w1)
    &&& w2.entities.stepped(w3.entities, explosion_rule(w2.phase, delta)) && w3.same_state(w2)
    &&& World::applied(w3, w4, outcome)
    &&& frame.exit == outcome.exit
    &&& if w4.phase != w3.phase {
        frame.entered matches Some(entered) && entered_phase(w4, w5, entered)
    } else {
        frame.entered is None && w5 == w4
    }
}

/// Whether `after` is `before` after a tick of the menus, and `frame` says
/// what it did. The keys are read against the selection as it was when the
/// tick began.
pub open spec fn menus_run(
    before: World,
    after: World,
    delta: u64,
    input: MenuInput,
    frame: MenuFrame,
) -> bool {
    exists|w1: World, w2: World, w3: World, w4: World| #[trigger]
        menu_steps(before, w1, w2, w3, w4, after, delta, input, frame)
}

/// Runs the systems of one tick that do not wait for the game to run: the
/// menus, the blinking texts, the explosions and the change from screen to
/// screen.
pub fn menu_frame(world: &mut World, delta: u64, input: MenuInput) -> (frame: MenuFrame)
    requires
        old(world).entities.slots() + 5 <= u32::MAX,
    ensures
        menus_run(*old(world), *final(world), delta, input, frame),
        old(world).entities.at_most_one_ship() ==> final(world).entities.at_most_one_ship(),
{
    let selected = selection(&world.entities);
    let outcome = request(world.phase, input, selected);
    select_entry(world, input);
    let ghost w1 = *world;
    blink_texts(world, delta);
    let ghost w2 = *world;
    animate_explosion(world, delta);
    let ghost w3 = *world;
    let changed = world.apply(outcome);
    let ghost w4 = *world;
    let entered = if changed {
        Some(on_enter(world))
    } else {
        None
    };
    let frame = MenuFrame { exit: outcome.exit, entered };
    proof {
        assert(menu_steps(*old(world), w1, w2, w3, w4, *world, delta, input, frame));
    }
    frame
}

} // verus!
