use card_table::card::{DirectoryCardType, Face, SimpleCard};
use card_table::field::SimpleField;
use card_table::game::GameState;
use card_table::geometry::{Extent, Point};
use card_table::layout::{Layout, SimpleFieldKind};
use card_table::screen::{Action, App, Event, GameSetupScreen, Screen};

fn ids(field: &SimpleField<SimpleCard>) -> Vec<usize> {
    (0..field.len()).map(|i| field.get(i).unwrap().id).collect()
}

fn source(faces: usize) -> DirectoryCardType {
    DirectoryCardType::new(
        String::from("deck"),
        (0..faces).map(|i| format!("{i:03}.png")).collect(),
    )
}

fn check_deal(faces: usize, players: usize) {
    let game = GameState::deal(faces, players);
    assert_eq!(game.player_count(), players);
    let mut all = ids(game.stack());
    let mut sizes = Vec::new();
    for p in 0..players {
        let (label, hand) = game.player(p).unwrap();
        assert_eq!(label, &format!("{p}"));
        sizes.push(hand.len());
        all.extend(ids(hand));
    }
    for a in &sizes {
        for b in &sizes {
            assert!(*a <= *b + 1);
        }
    }
    for (p, size) in sizes.iter().enumerate() {
        assert_eq!(*size, faces / players + usize::from(p < faces % players));
    }
    assert_eq!(all.len(), faces);
    all.sort();
    assert_eq!(all, (0..faces).collect::<Vec<usize>>());
}

#[test]
fn deal_is_fair_and_complete() {
    for faces in 0..40 {
        for players in 0..9 {
            check_deal(faces, players);
        }
    }
    check_deal(52, 3);
    check_deal(5, 100);
}

#[test]
fn deal_goes_in_face_order() {
    let game = GameState::deal(20, 2);
    assert!(game.stack().is_empty());
    assert_eq!(ids(&game.player(0).unwrap().1), vec![0, 2, 4, 6, 8, 10, 12, 14, 16, 18]);
    assert_eq!(ids(&game.player(1).unwrap().1), vec![1, 3, 5, 7, 9, 11, 13, 15, 17, 19]);
    let odd = GameState::deal(7, 3);
    assert!(odd.stack().is_empty());
    assert_eq!(ids(&odd.player(0).unwrap().1), vec![0, 3, 6]);
    assert_eq!(ids(&odd.player(1).unwrap().1), vec![1, 4]);
    assert_eq!(ids(&odd.player(2).unwrap().1), vec![2, 5]);
}

#[test]
fn deal_to_one_player_gives_the_whole_deck() {
    let game = GameState::deal(1, 1);
    assert!(game.stack().is_empty());
    assert_eq!(ids(&game.player(0).unwrap().1), vec![0]);
    let more = GameState::deal(4, 1);
    assert!(more.stack().is_empty());
    assert_eq!(ids(&more.player(0).unwrap().1), vec![0, 1, 2, 3]);
}

#[test]
fn deal_without_players_leaves_the_deck_on_the_stack() {
    let game = GameState::deal(5, 0);
    assert_eq!(game.player_count(), 0);
    assert_eq!(ids(game.stack()), vec![0, 1, 2, 3, 4]);
}

#[test]
fn deal_without_faces_leaves_everything_empty() {
    let game = GameState::deal(0, 3);
    assert_eq!(game.player_count(), 3);
    assert!(game.stack().is_empty());
    for p in 0..3 {
        assert!(game.player(p).unwrap().1.is_empty());
    }
    let nothing = GameState::deal(0, 0);
    assert_eq!(nothing.player_count(), 0);
    assert!(nothing.stack().is_empty());
}

#[test]
fn deal_to_more_players_than_faces() {
    let game = GameState::deal(2, 4);
    assert!(game.stack().is_empty());
    assert_eq!(ids(&game.player(0).unwrap().1), vec![0]);
    assert_eq!(ids(&game.player(1).unwrap().1), vec![1]);
    assert!(game.player(2).unwrap().1.is_empty());
    assert!(game.player(3).unwrap().1.is_empty());
}

#[test]
fn dealt_cards_show_their_faces() {
    let game = GameState::deal(4, 1);
    let held = game.player(0).unwrap().1.get(3).unwrap();
    assert_eq!(*held, SimpleCard { id: 3, face: Face::Directory(3), pos: Point::new(0, 0) });
    let piled = GameState::deal(4, 0);
    let top = piled.stack().get(2).unwrap();
    assert_eq!(*top, SimpleCard { id: 2, face: Face::Directory(2), pos: Point::new(0, 0) });
}

#[test]
fn fresh_game_has_its_layouts() {
    let game = GameState::deal(3, 2);
    assert_eq!(
        game.stack().layout(),
        Layout {
            kind: SimpleFieldKind::Stack,
            max_cards: 5,
            card_size: Extent::new(100, 150),
            margin: 4,
            pos: Point::new(0, 0),
            selectable: false,
        }
    );
    for p in 0..2 {
        assert_eq!(
            game.player(p).unwrap().1.layout(),
            Layout {
                kind: SimpleFieldKind::Horizontal,
                max_cards: 4,
                card_size: Extent::new(100, 150),
                margin: 4,
                pos: Point::new(0, 0),
                selectable: true,
            }
        );
        assert!(game.player(p).unwrap().1.is_valid());
    }
    assert!(game.stack().is_valid());
}

#[test]
fn setup_to_game_guard() {
    let mut app = App::new();
    assert_eq!(app.current_screen(), Screen::Menu);
    assert_eq!(app.update(Event::Start), Action::Nothing);
    assert_eq!(app.current_screen(), Screen::Setup);
    assert!(!app.setup().source_selected());

    assert_eq!(app.update(Event::StartGame), Action::Nothing);
    assert_eq!(app.current_screen(), Screen::Setup);
    assert!(app.game().state().is_none());

    app.setup_mut().select(source(20));
    app.setup_mut().set_players(2);
    assert_eq!(app.update(Event::StartGame), Action::Nothing);
    assert_eq!(app.current_screen(), Screen::Game);

    let game = app.game().state().unwrap();
    assert_eq!(game.player_count(), 2);
    let pile = ids(game.stack());
    let first = ids(&game.player(0).unwrap().1);
    let second = ids(&game.player(1).unwrap().1);
    assert_eq!(pile.len() + first.len() + second.len(), 20);
    assert_eq!(pile, Vec::<usize>::new());
    assert_eq!(first, vec![0, 2, 4, 6, 8, 10, 12, 14, 16, 18]);
    assert_eq!(second, vec![1, 3, 5, 7, 9, 11, 13, 15, 17, 19]);
    let mut all = pile;
    all.extend(first);
    all.extend(second);
    all.sort();
    assert_eq!(all, (0..20).collect::<Vec<usize>>());
}

#[test]
fn generate_config_needs_a_source() {
    let mut setup = GameSetupScreen::new();
    assert_eq!(setup.players(), 2);
    assert!(setup.directory().is_none());
    assert!(setup.generate_config().is_none());
    setup.select(source(6));
    assert_eq!(setup.directory().unwrap().T(), 6);
    let game = setup.generate_config().unwrap();
    assert!(game.stack().is_empty());
    assert_eq!(ids(&game.player(0).unwrap().1), vec![0, 2, 4]);
    assert_eq!(ids(&game.player(1).unwrap().1), vec![1, 3, 5]);
    setup.select(source(2));
    let again = setup.generate_config().unwrap();
    assert!(again.stack().is_empty());
    assert_eq!(ids(&again.player(0).unwrap().1), vec![0]);
    assert_eq!(ids(&again.player(1).unwrap().1), vec![1]);
    setup.set_players(0);
    let alone = setup.generate_config().unwrap();
    assert_eq!(alone.player_count(), 0);
    assert_eq!(ids(alone.stack()), vec![0, 1]);
}
