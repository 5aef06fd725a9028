use rust_rocks::scene::{LogicalMenu, MenuButton, RoomTransition, SceneEvent};

#[test]
fn test_menu_navigation() {
    let mut menu = LogicalMenu::new(vec![RoomTransition::Game, RoomTransition::Quit]);

    assert_eq!(
        RoomTransition::Game,
        menu.selected(),
        "The cursor starts on the first option"
    );

    // Scroll up through all choices
    (0..menu.choices.len()).for_each(|_| {
        menu.move_cursor_up();
    });
    assert_eq!(
        RoomTransition::Game,
        menu.selected(),
        "The cursor wraps around the top"
    );

    // Scroll down through all events
    (0..menu.choices.len()).for_each(|_| {
        menu.move_cursor_down();
    });
    assert_eq!(
        RoomTransition::Game,
        menu.selected(),
        "The cursor wraps around the bottom"
    );
}

#[test]
fn menu_buttons_move_and_select() {
    let mut menu = LogicalMenu::new(vec![SceneEvent::GoToGame, SceneEvent::Quit]);
    assert_eq!(None, menu.consume_input(MenuButton::Up));
    assert_eq!(1, menu.cursor_index);
    assert_eq!(Some(SceneEvent::Quit), menu.consume_input(MenuButton::Select));
    assert_eq!(None, menu.consume_input(MenuButton::Down));
    assert_eq!(Some(SceneEvent::GoToGame), menu.consume_input(MenuButton::Select));
}

#[test]
fn single_choice_menu_stays_put() {
    let mut menu = LogicalMenu::new(vec![RoomTransition::Title]);
    menu.move_cursor_down();
    menu.move_cursor_up();
    assert_eq!(0, menu.cursor_index);
    assert_eq!(RoomTransition::Title, menu.selected());
}
