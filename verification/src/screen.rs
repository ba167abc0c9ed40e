//! The screens of the application and the steps between them.
//!
//! Every screen decides, from what the user did in one tick, what changes
//! and which screen comes next. Nothing here draws or waits: the caller
//! shows the screen, gathers what happened, and hands it over.

use crate::card::DirectoryCardType;
use crate::field::FieldError;
use crate::game::{DNDSelector, GameState, Table};
use crate::text::decimal;
use vstd::prelude::*;

verus! {

/// The screens.
#[derive(Clone, Copy, Debug, PartialEq, Eq, Structural)]
pub enum Screen {
    Menu,
    Setup,
    Game,
    Settings,
}

/// The buttons that lead from screen to screen.
#[derive(Clone, Copy, Debug, PartialEq, Eq, Structural)]
pub enum Event {
    /// "Start" on the menu.
    Start,
    /// "Settings" on the menu.
    Settings,
    /// "Select source" on the setup screen.
    SelectSource,
    /// "Start Game" on the setup screen.
    StartGame,
    /// "Back" on the setup and settings screens.
    Back,
    /// "Exit" on the game screen.
    Exit,
}

/// What the caller has to do after a step.
#[derive(Clone, Copy, Debug, PartialEq, Eq, Structural)]
pub enum Action {
    /// Nothing.
    Nothing,
    /// Let the user choose a directory of card images, and report the
    /// choice once it is made.
    SelectSource,
}

/// The screen that follows `from` when `event` happens. A game begins only
/// once a source of card images has been selected; a button that the
/// screen does not have changes nothing.
pub open spec fn next_screen(from: Screen, event: Event, source_selected: bool) -> Screen {
    match (from, event) {
        (Screen::Menu, Event::Start) => Screen::Setup,
        (Screen::Menu, Event::Settings) => Screen::Settings,
        (Screen::Setup, Event::StartGame) => if source_selected {
            Screen::Game
        } else {
            Screen::Setup
        },
        (Screen::Setup, Event::Back) => Screen::Menu,
        (Screen::Game, Event::Exit) => Screen::Menu,
        (Screen::Settings, Event::Back) => Screen::Menu,
        _ => from,
    }
}

/// The menu.
#[derive(Clone, Copy, Debug, PartialEq, Eq, Structural)]
pub struct MainMenu {}

impl MainMenu {
    /// The menu.
    pub fn new() -> (menu: MainMenu)
        ensures
            menu == (MainMenu {  }),
    {
        MainMenu {  }
    }

    /// The screen that follows the menu when `event` happens.
    pub fn update(&mut self, event: Event) -> (next: Screen)
        ensures
            next == next_screen(Screen::Menu, event, false),
            next == next_screen(Screen::Menu, event, true),
    {
        match event {
            Event::Start => Screen::Setup,
            Event::Settings => Screen::Settings,
            _ => Screen::Menu,
        }
    }
}

impl Default for MainMenu {
    fn default() -> (menu: MainMenu)
        ensures
            menu == (MainMenu {  }),
    {
        MainMenu::new()
    }
}

/// The setup screen: the source of the card images, once one has been
/// selected, and the number of players.
pub struct GameSetupScreen {
    directory: Option<DirectoryCardType>,
    players: usize,
}

/// What a step of the setup screen leads to.
pub struct SetupStep {
    /// The screen that comes next.
    pub next: Screen,
    /// What the caller has to do.
    pub action: Action,
    /// The game to be played, when the game screen comes next.
    pub config: Option<GameState>,
}

impl GameSetupScreen {
    /// The selected source of card images, if there is one.
    pub closed spec fn source(&self) -> Option<DirectoryCardType> {
        self.directory
    }

    /// The number of faces that the selected source offers, if there is
    /// one.
    pub open spec fn faces(&self) -> Option<nat> {
        match self.source() {
            Some(directory) => Some(directory.names().len()),
            None => None,
        }
    }

    /// The number of players.
    pub closed spec fn spec_players(&self) -> usize {
        self.players
    }

    /// Whether `config` is the fresh game that the screen stands for: none
    /// without a source, and else the deal of the source's faces to the
    /// players.
    pub open spec fn describes(&self, config: Option<GameState>) -> bool {
        match (self.faces(), config) {
            (None, None) => true,
            (Some(faces), Some(game)) => {
                &&& game.table() == Table::dealt(faces, self.spec_players() as nat)
                &&& game.labels() == Seq::new(
                    self.spec_players() as nat,
                    |seat: int| decimal(seat as nat),
                )
                &&& game.stack_layout() == GameState::fresh_stack_layout()
                &&& game.hand_layouts() == Seq::new(
                    self.spec_players() as nat,
                    |seat: int| GameState::fresh_hand_layout(),
                )
            },
            _ => false,
        }
    }

    /// The setup screen as it first appears: no source, two players.
    pub fn new() -> (setup: GameSetupScreen)
        ensures
            setup.source() is None,
            setup.spec_players() == 2,
    {
        GameSetupScreen { directory: None, players: 2 }
    }

    /// The selected source of card images, if there is one.
    pub fn directory(&self) -> (directory: Option<&DirectoryCardType>)
        ensures
            match directory {
                Some(found) => self.source() == Some(*found),
                None => self.source() is None,
            },
    {
        self.directory.as_ref()
    }

    /// Whether a source of card images has been selected.
    pub fn source_selected(&self) -> (selected: bool)
        ensures
            selected == self.source() is Some,
    {
        self.directory.is_some()
    }

    /// Takes `directory` as the source of card images, in place of any
    /// earlier one.
    pub fn select(&mut self, directory: DirectoryCardType)
        ensures
            final(self).source() == Some(directory),
            final(self).spec_players() == old(self).spec_players(),
    {
        self.directory = Some(directory);
    }

    /// The number of players.
    pub fn players(&self) -> (players: usize)
        ensures
            players == self.spec_players(),
    {
        self.players
    }

    /// Sets the number of players.
    pub fn set_players(&mut self, players: usize)
        ensures
            final(self).spec_players() == players,
            final(self).source() == old(self).source(),
    {
        self.players = players;
    }

    /// One player more, unless the count is at its largest.
    pub fn increment_players(&mut self)
        ensures
            final(self).spec_players() == if old(self).spec_players() < usize::MAX {
                (old(self).spec_players() + 1) as usize
            } else {
                old(self).spec_players()
            },
            final(self).source() == old(self).source(),
    {
        if self.players < usize::MAX {
            self.players = self.players + 1;
        }
    }

    /// One player fewer, unless there is none.
    pub fn decrement_players(&mut self)
        ensures
            final(self).spec_players() == if old(self).spec_players() > 0 {
                (old(self).spec_players() - 1) as usize
            } else {
                0usize
            },
            final(self).source() == old(self).source(),
    {
        if self.players > 0 {
            self.players = self.players - 1;
        }
    }

    /// The fresh game for the selected source and the number of players,
    /// or `None` as long as no source has been selected.
    pub fn generate_config(&self) -> (config: Option<GameState>)
        ensures
            self.describes(config),
            config is Some <==> self.source() is Some,
    {
        match &self.directory {
            None => None,
            Some(directory) => Some(GameState::deal(directory.T(), self.players)),
        }
    }

    /// The step that `event` leads to. "Select source" asks the caller to
    /// let the user choose; "Start Game" leads to the game screen with a
    /// fresh game if a source has been selected, and to nothing if not;
    /// "Back" leads to the menu. The screen itself stays as it is.
    pub fn update(&mut self, event: Event) -> (step: SetupStep)
        ensures
            final(self).source() == old(self).source(),
            final(self).spec_players() == old(self).spec_players(),
            step.next == next_screen(Screen::Setup, event, old(self).source() is Some),
            step.action == if event == Event::SelectSource {
                Action::SelectSource
            } else {
                Action::Nothing
            },
            step.config is Some <==> event == Event::StartGame && old(self).source() is Some,
            step.config is Some ==> old(self).describes(step.config),
    {
        match event {
            Event::SelectSource => SetupStep {
                next: Screen::Setup,
                action: Action::SelectSource,
                config: None,
            },
            Event::StartGame => {
                let config = self.generate_config();
                let next = if config.is_some() {
                    Screen::Game
                } else {
                    Screen::Setup
                };
                SetupStep { next, action: Action::Nothing, config }
            },
            Event::Back => SetupStep { next: Screen::Menu, action: Action::Nothing, config: None },
            _ => SetupStep { next: Screen::Setup, action: Action::Nothing, config: None },
        }
    }
}

/// What one field reports of one tick.
#[derive(Clone, Copy, Debug, PartialEq, Eq, Structural)]
pub struct FieldEvents {
    /// A dragged card was released over the field.
    pub released: bool,
    /// The slot of the card on which a drag began.
    pub dragged: Option<usize>,
    /// The slot over which a dragged card was released.
    pub dropped: Option<usize>,
}

/// What the game screen reports of one tick.
#[derive(Clone, Copy, Debug, PartialEq, Eq, Structural)]
pub struct GameEvents {
    /// "Exit" was pressed.
    pub exit: bool,
    /// What the stack reports.
    pub stack: FieldEvents,
    /// What the first of the two hands on show reports.
    pub first: FieldEvents,
    /// What the second of the two hands on show reports.
    pub second: FieldEvents,
}

/// A field on show.
#[derive(Clone, Copy, Debug, PartialEq, Eq, Structural)]
pub enum Shown {
    /// The stack.
    Stack,
    /// The hand of this player.
    Hand(usize),
}

/// The two ends of a move in the making: where a card was picked up, and
/// where it was dropped.
#[derive(Clone, Copy, Debug, PartialEq, Eq, Structural)]
pub struct Pending {
    pub drag: Option<DNDSelector>,
    pub drop: Option<DNDSelector>,
}

impl Shown {
    /// The address of slot `idx` of the field: the stack has one address,
    /// its top.
    pub open spec fn spec_address(self, idx: usize) -> DNDSelector {
        match self {
            Shown::Stack => DNDSelector::Stack,
            Shown::Hand(p) => DNDSelector::Player(p, idx),
        }
    }

    /// The address of slot `idx` of the field.
    pub fn address(self, idx: usize) -> (place: DNDSelector)
        ensures
            place == self.spec_address(idx),
    {
        match self {
            Shown::Stack => DNDSelector::Stack,
            Shown::Hand(p) => DNDSelector::Player(p, idx),
        }
    }
}

impl Pending {
    /// No end is known.
    pub open spec fn spec_none() -> Pending {
        Pending { drag: None, drop: None }
    }

    /// Whether both ends are known.
    pub open spec fn complete(self) -> bool {
        self.drag is Some && self.drop is Some
    }

    /// The ends after the field `shown`, which holds `held` cards, has
    /// reported `events`. A release over the field drops behind its last
    /// card, a release over a slot drops at that slot, and a drag that
    /// begins on a card picks it up unless a card has been picked up
    /// already. A release over a slot counts before a drag in the same
    /// tick.
    pub open spec fn spec_observe(self, shown: Shown, held: usize, events: FieldEvents) -> Pending {
        let released = if events.released {
            Pending { drag: self.drag, drop: Some(shown.spec_address(held)) }
        } else {
            self
        };
        match (events.dragged, events.dropped) {
            (_, Some(idx)) => Pending { drag: released.drag, drop: Some(shown.spec_address(idx)) },
            (Some(idx), None) => if released.drag is None {
                Pending { drag: Some(shown.spec_address(idx)), drop: released.drop }
            } else {
                released
            },
            (None, None) => released,
        }
    }

    /// The ends after the field `shown`, which holds `held` cards, has
    /// reported `events`.
    pub fn observe(self, shown: Shown, held: usize, events: &FieldEvents) -> (seen: Pending)
        ensures
            seen == self.spec_observe(shown, held, *events),
    {
        let mut seen = self;
        if events.released {
            seen.drop = Some(shown.address(held));
        }
        match (events.dragged, events.dropped) {
            (_, Some(idx)) => {
                seen.drop = Some(shown.address(idx));
            },
            (Some(idx), None) => {
                if seen.drag.is_none() {
                    seen.drag = Some(shown.address(idx));
                }
            },
            (None, None) => {},
        }
        seen
    }

    /// The ends after the stack and the two hands on show have reported
    /// `events`, in this order. A hand that no player holds reports
    /// nothing.
    pub open spec fn gathered(self, table: Table, first: usize, second: usize, events: GameEvents) -> Pending {
        let after_stack = self.spec_observe(Shown::Stack, table.stack.len() as usize, events.stack);
        let after_first = if first < table.hands.len() {
            after_stack.spec_observe(
                Shown::Hand(first),
                table.hands[first as int].len() as usize,
                events.first,
            )
        } else {
            after_stack
        };
        if second < table.hands.len() {
            after_first.spec_observe(
                Shown::Hand(second),
                table.hands[second as int].len() as usize,
                events.second,
            )
        } else {
            after_first
        }
    }
}

/// What a tick of the game screen leads to.
#[derive(Clone, Copy, Debug, PartialEq, Eq)]
pub struct Tick {
    /// The screen that comes next.
    pub next: Screen,
    /// How the move went, if both of its ends were known in this tick.
    pub moved: Option<Result<(), FieldError>>,
}

/// The game screen: the running game, the two hands on show, and the move
/// in the making.
pub struct Game {
    game_config: Option<GameState>,
    player0_idx: usize,
    player1_idx: usize,
    pending: Pending,
}

impl Game {
    /// The running game, if there is one.
    pub closed spec fn config(&self) -> Option<GameState> {
        self.game_config
    }

    /// The players whose hands are on show.
    pub closed spec fn shown(&self) -> (usize, usize) {
        (self.player0_idx, self.player1_idx)
    }

    /// The move in the making.
    pub closed spec fn pending(&self) -> Pending {
        self.pending
    }

    /// The game screen before any game: the hands of the first two players
    /// on show, no move in the making.
    pub fn new() -> (game: Game)
        ensures
            game.config() is None,
            game.shown() == (0usize, 1usize),
            game.pending() == Pending::spec_none(),
    {
        Game {
            game_config: None,
            player0_idx: 0,
            player1_idx: 1,
            pending: Pending { drag: None, drop: None },
        }
    }

    /// Begins to play `config`, with no move in the making.
    pub fn start(&mut self, config: GameState)
        ensures
            final(self).config() == Some(config),
            final(self).shown() == old(self).shown(),
            final(self).pending() == Pending::spec_none(),
    {
        self.game_config = Some(config);
        self.pending = Pending { drag: None, drop: None };
    }

    /// Puts the hands of players `first` and `second` on show.
    pub fn show(&mut self, first: usize, second: usize)
        ensures
            final(self).config() == old(self).config(),
            final(self).shown() == (first, second),
            final(self).pending() == old(self).pending(),
    {
        self.player0_idx = first;
        self.player1_idx = second;
    }

    /// The running game, if there is one.
    pub fn state(&self) -> (state: Option<&GameState>)
        ensures
            match state {
                Some(found) => self.config() == Some(*found),
                None => self.config() is None,
            },
    {
        self.game_config.as_ref()
    }

    /// The players whose hands are on show.
    pub fn players_shown(&self) -> (shown: (usize, usize))
        ensures
            shown == self.shown(),
    {
        (self.player0_idx, self.player1_idx)
    }

    /// The move in the making.
    pub fn in_flight(&self) -> (pending: Pending)
        ensures
            pending == self.pending(),
    {
        self.pending
    }

    /// Whether `after` and `tick` are what one tick with `events` makes of
    /// `before`.
    ///
    /// "Exit" leads to the menu and ends the game: the game and the move
    /// in the making are discarded. Without a game nothing happens.
    /// Otherwise the stack and the two hands on show report in turn where
    /// a card was picked up or dropped. Once both ends of a move are known
    /// the card is moved, and both ends are forgotten, whether or not the
    /// move changed anything; as long as one end is missing the move stays
    /// in the making and the table stays as it is. Labels and layouts
    /// never change.
    pub open spec fn follows(before: &Game, events: GameEvents, after: &Game, tick: Tick) -> bool {
        &&& after.shown() == before.shown()
        &&& if events.exit {
            &&& tick == (Tick { next: Screen::Menu, moved: None })
            &&& after.config() is None
            &&& after.pending() == Pending::spec_none()
        } else {
            &&& tick.next == Screen::Game
            &&& match (before.config(), after.config()) {
                (None, None) => after.pending() == before.pending() && tick.moved is None,
                (Some(was), Some(is)) => {
                    let table = was.table();
                    let seen = before.pending().gathered(
                        table,
                        before.shown().0,
                        before.shown().1,
                        events,
                    );
                    &&& is.labels() == was.labels()
                    &&& is.stack_layout() == was.stack_layout()
                    &&& is.hand_layouts() == was.hand_layouts()
                    &&& match (seen.drag, seen.drop) {
                        (Some(src), Some(dst)) => {
                            &&& is.table() == table.settled(src, dst)
                            &&& after.pending() == Pending::spec_none()
                            &&& tick.moved == Some(table.outcome(src, dst))
                        },
                        _ => {
                            &&& is.table() == table
                            &&& after.pending() == seen
                            &&& tick.moved is None
                        },
                    }
                },
                _ => false,
            }
        }
    }

    /// One tick of the game screen: takes in what the fields report,
    /// makes the move once both of its ends are known, and says which
    /// screen comes next.
    pub fn update(&mut self, events: &GameEvents) -> (tick: Tick)
        ensures
            Game::follows(old(self), *events, final(self), tick),
            tick.next == next_screen(
                Screen::Game,
                if events.exit {
                    Event::Exit
                } else {
                    Event::Start
                },
                true,
            ),
    {
        if events.exit {
            self.game_config = None;
            self.pending = Pending { drag: None, drop: None };
            return Tick { next: Screen::Menu, moved: None };
        }
        let first = self.player0_idx;
        let second = self.player1_idx;
        let mut seen = self.pending;
        let mut moved: Option<Result<(), FieldError>> = None;
        match &mut self.game_config {
            None => {},
            Some(state) => {
                let ghost before = *state;
                seen = seen.observe(Shown::Stack, state.stack().len(), &events.stack);
                match state.player(first) {
                    Some(entry) => {
                        seen = seen.observe(Shown::Hand(first), entry.1.len(), &events.first);
                    },
                    None => {},
                }
                match state.player(second) {
                    Some(entry) => {
                        seen = seen.observe(Shown::Hand(second), entry.1.len(), &events.second);
                    },
                    None => {},
                }
                assert(seen == old(self).pending().gathered(
                    before.table(),
                    first,
                    second,
                    *events,
                ));
                match (seen.drag, seen.drop) {
                    (Some(src), Some(dst)) => {
                        let done = state.move_card(src, dst);
                        moved = Some(done);
                        seen = Pending { drag: None, drop: None };
                    },
                    _ => {},
                }
            },
        }
        self.pending = seen;
        Tick { next: Screen::Game, moved }
    }
}

impl Default for Game {
    fn default() -> (game: Game)
        ensures
            game.config() is None,
            game.shown() == (0usize, 1usize),
            game.pending() == Pending::spec_none(),
    {
        Game::new()
    }
}

/// The application: the screen on show, and the screens' own states.
pub struct App {
    current_screen: Screen,
    menu: MainMenu,
    setup: GameSetupScreen,
    game: Game,
}

impl App {
    /// The screen on show.
    pub closed spec fn current(&self) -> Screen {
        self.current_screen
    }

    /// The state of the setup screen.
    pub closed spec fn setup_screen(&self) -> GameSetupScreen {
        self.setup
    }

    /// The state of the game screen.
    pub closed spec fn game_screen(&self) -> Game {
        self.game
    }

    /// A game is running exactly while the game screen is on show.
    pub open spec fn wf(&self) -> bool {
        self.current() == Screen::Game <==> self.game_screen().config() is Some
    }

    /// Whether `after` and `action` are what the button `event` makes of
    /// `before`.
    ///
    /// The screen on show changes as `next_screen` says. The step from the
    /// setup screen to the game screen begins a fresh game, dealt from the
    /// selected source to the configured number of players; the step from
    /// the game screen to the menu discards the game. "Select source" on
    /// the setup screen asks the caller to let the user choose. Nothing
    /// else changes.
    pub open spec fn follows(before: &App, event: Event, after: &App, action: Action) -> bool {
        let selected = before.setup_screen().source() is Some;
        &&& after.current() == next_screen(before.current(), event, selected)
        &&& after.setup_screen() == before.setup_screen()
        &&& action == if before.current() == Screen::Setup && event == Event::SelectSource {
            Action::SelectSource
        } else {
            Action::Nothing
        }
        &&& if before.current() == Screen::Setup && event == Event::StartGame && selected {
            &&& after.game_screen().config() is Some
            &&& before.setup_screen().describes(after.game_screen().config())
            &&& after.game_screen().shown() == before.game_screen().shown()
            &&& after.game_screen().pending() == Pending::spec_none()
        } else if before.current() == Screen::Game && event == Event::Exit {
            &&& after.game_screen().config() is None
            &&& after.game_screen().shown() == before.game_screen().shown()
            &&& after.game_screen().pending() == Pending::spec_none()
        } else {
            after.game_screen() == before.game_screen()
        }
    }

    /// The application as it starts: the menu on show, no source of card
    /// images, two players, no game.
    pub fn new() -> (app: App)
        ensures
            app.current() == Screen::Menu,
            app.setup_screen().source() is None,
            app.setup_screen().spec_players() == 2,
            app.game_screen().config() is None,
            app.game_screen().shown() == (0usize, 1usize),
            app.game_screen().pending() == Pending::spec_none(),
            app.wf(),
    {
        App {
            current_screen: Screen::Menu,
            menu: MainMenu::new(),
            setup: GameSetupScreen::new(),
            game: Game::new(),
        }
    }

    /// The screen on show.
    pub fn current_screen(&self) -> (screen: Screen)
        ensures
            screen == self.current(),
    {
        self.current_screen
    }

    /// The setup screen.
    pub fn setup(&self) -> (setup: &GameSetupScreen)
        ensures
            *setup == self.setup_screen(),
    {
        &self.setup
    }

    /// The setup screen, to choose the source and the number of players.
    pub fn setup_mut(&mut self) -> (setup: &mut GameSetupScreen)
        ensures
            *setup == old(self).setup_screen(),
            final(self).setup_screen() == *final(setup),
            final(self).current() == old(self).current(),
            final(self).game_screen() == old(self).game_screen(),
    {
        &mut self.setup
    }

    /// The game screen.
    pub fn game(&self) -> (game: &Game)
        ensures
            *game == self.game_screen(),
    {
        &self.game
    }

    /// Puts the hands of players `first` and `second` on show.
    pub fn show(&mut self, first: usize, second: usize)
        ensures
            final(self).current() == old(self).current(),
            final(self).setup_screen() == old(self).setup_screen(),
            final(self).game_screen().config() == old(self).game_screen().config(),
            final(self).game_screen().pending() == old(self).game_screen().pending(),
            final(self).game_screen().shown() == (first, second),
    {
        self.game.show(first, second);
    }

    /// Takes the button `event` on the screen on show, and says what the
    /// caller has to do.
    pub fn update(&mut self, event: Event) -> (action: Action)
        ensures
            App::follows(old(self), event, final(self), action),
            old(self).wf() ==> final(self).wf(),
    {
        let mut action = Action::Nothing;
        match self.current_screen {
            Screen::Menu => {
                self.current_screen = self.menu.update(event);
            },
            Screen::Setup => {
                let step = self.setup.update(event);
                action = step.action;
                match step.config {
                    Some(config) => {
                        self.game.start(config);
                    },
                    None => {},
                }
                self.current_screen = step.next;
            },
            Screen::Game => {
                if event == Event::Exit {
                    let quiet = FieldEvents { released: false, dragged: None, dropped: None };
                    let leave = GameEvents { exit: true, stack: quiet, first: quiet, second: quiet };
                    let tick = self.game.update(&leave);
                    self.current_screen = tick.next;
                }
            },
            Screen::Settings => {
                if event == Event::Back {
                    self.current_screen = Screen::Menu;
                }
            },
        }
        action
    }

    /// One tick of the game screen, if it is on show: see `Game::follows`.
    /// On any other screen nothing happens.
    pub fn tick(&mut self, events: &GameEvents) -> (tick: Tick)
        ensures
            final(self).setup_screen() == old(self).setup_screen(),
            final(self).current() == tick.next,
            old(self).current() == Screen::Game ==> Game::follows(
                &old(self).game_screen(),
                *events,
                &final(self).game_screen(),
                tick,
            ),
            old(self).current() != Screen::Game ==> final(self).game_screen() == old(
                self,
            ).game_screen() && tick.next == old(self).current() && tick.moved is None,
            old(self).wf() ==> final(self).wf(),
    {
        match self.current_screen {
            Screen::Game => {
                let tick = self.game.update(events);
                self.current_screen = tick.next;
                tick
            },
            _ => Tick { next: self.current_screen, moved: None },
        }
    }
}

impl Default for App {
    fn default() -> (app: App)
        ensures
            app.current() == Screen::Menu,
            app.wf(),
    {
        App::new()
    }
}

} // verus!
