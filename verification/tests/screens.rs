use json_editor::app::{App, LoopAction, ScreenCode};
use json_editor::keys::{InputEvent, KeyCode, KeyEvent, KeyEventKind};
use json_editor::model::ExitAnswer;
use json_editor::screens::{
    AnyScreen, EditingScreen, ExitingScreen, MainScreen, Screen, ScreenRegistry,
};

#[test]
fn main_screen_opens_editing_on_e() {
    for c in ['e', 'E'] {
        let mut app = App::new();
        MainScreen.handle_key_event(&mut app, KeyCode::Char(c));
        assert_eq!(app.current_screen_code, ScreenCode::Editing);
        assert!(app.pairs.is_empty());
        assert!(!app.should_exit);
    }
}

#[test]
fn main_screen_opens_exit_prompt_on_q() {
    for c in ['q', 'Q'] {
        let mut app = App::new();
        MainScreen.handle_key_event(&mut app, KeyCode::Char(c));
        assert_eq!(app.current_screen_code, ScreenCode::Exiting);
        assert!(!app.should_exit);
        assert!(!app.should_print);
    }
}

#[test]
fn main_screen_ignores_other_keys() {
    let keys = [
        KeyCode::Char('x'),
        KeyCode::Char('y'),
        KeyCode::Enter,
        KeyCode::Esc,
        KeyCode::Tab,
        KeyCode::Backspace,
        KeyCode::Other,
    ];
    for key in keys {
        let mut app = App::new();
        MainScreen.handle_key_event(&mut app, key);
        assert_eq!(app.current_screen_code, ScreenCode::Main);
        assert!(!app.should_exit);
    }
}

#[test]
fn exit_prompt_leaves_on_y_n_q() {
    for c in ['y', 'n', 'q'] {
        let mut app = App::new();
        app.switch_screen(ScreenCode::Exiting);
        ExitingScreen.handle_key_event(&mut app, KeyCode::Char(c));
        assert!(app.should_exit);
        assert!(app.should_print);
        assert_eq!(app.current_screen_code, ScreenCode::Exiting);
    }
}

#[test]
fn exit_prompt_stays_on_other_keys() {
    let keys = [
        KeyCode::Char('Y'),
        KeyCode::Char('N'),
        KeyCode::Char('Q'),
        KeyCode::Char('e'),
        KeyCode::Enter,
        KeyCode::Esc,
        KeyCode::Other,
    ];
    for key in keys {
        let mut app = App::new();
        app.switch_screen(ScreenCode::Exiting);
        ExitingScreen.handle_key_event(&mut app, key);
        assert!(!app.should_exit);
        assert!(!app.should_print);
        assert_eq!(app.current_screen_code, ScreenCode::Exiting);
    }
}

#[test]
fn exit_answers_are_told_apart_and_both_print() {
    assert_eq!(ExitAnswer::from_key(KeyCode::Char('y')), Some(ExitAnswer::Yes));
    assert_eq!(ExitAnswer::from_key(KeyCode::Char('n')), Some(ExitAnswer::No));
    assert_eq!(ExitAnswer::from_key(KeyCode::Char('q')), Some(ExitAnswer::No));
    assert_eq!(ExitAnswer::from_key(KeyCode::Char('Y')), None);
    assert_eq!(ExitAnswer::from_key(KeyCode::Enter), None);
    assert!(ExitAnswer::Yes.should_print());
    assert!(ExitAnswer::No.should_print());
}

#[test]
fn switch_screen_changes_only_the_active_screen() {
    let mut app = App::new();
    app.pairs.insert("k".to_string(), "v".to_string());
    app.switch_screen(ScreenCode::Exiting);
    assert_eq!(app.current_screen_code, ScreenCode::Exiting);
    assert_eq!(app.pairs.len(), 1);
    assert!(!app.should_exit);
    assert!(!app.should_print);
    assert!(app.screens.is_complete());
}

#[test]
fn keys_reach_only_the_active_screen() {
    let mut app = App::new();
    app.dispatch(KeyCode::Char('y'));
    assert!(!app.should_exit);
    app.dispatch(KeyCode::Tab);
    assert_eq!(app.screens.editing.as_ref().unwrap().current_editing_section, None);
    app.dispatch(KeyCode::Char('q'));
    app.dispatch(KeyCode::Char('e'));
    assert_eq!(app.current_screen_code, ScreenCode::Exiting);
}

#[test]
fn release_and_repeat_events_are_passed_over() {
    for kind in [KeyEventKind::Release, KeyEventKind::Repeat] {
        let mut app = App::new();
        let event = KeyEvent { code: KeyCode::Char('e'), kind };
        assert!(!event.is_press());
        assert_eq!(app.handle_event(InputEvent::Key(event)), LoopAction::Wait);
        assert_eq!(app.current_screen_code, ScreenCode::Main);
    }
}

#[test]
fn a_press_is_dispatched_and_then_drawn() {
    let mut app = App::new();
    let event = KeyEvent::press(KeyCode::Char('e'));
    assert!(event.is_press());
    assert_eq!(event.kind, KeyEventKind::Press);
    assert_eq!(app.handle_event(InputEvent::Key(event)), LoopAction::Render);
    assert_eq!(app.current_screen_code, ScreenCode::Editing);
}

#[test]
fn other_events_only_draw() {
    let mut app = App::new();
    assert_eq!(app.handle_event(InputEvent::Other), LoopAction::Render);
    assert_eq!(app.current_screen_code, ScreenCode::Main);
    assert!(app.pairs.is_empty());
}

#[test]
fn the_loop_ends_without_drawing_once_the_exit_flag_is_set() {
    let mut app = App::new();
    app.switch_screen(ScreenCode::Exiting);
    let action = app.handle_event(InputEvent::Key(KeyEvent::press(KeyCode::Char('y'))));
    assert_eq!(action, LoopAction::Exit(true));
    assert_eq!(app.handle_event(InputEvent::Other), LoopAction::Exit(true));
}

#[test]
fn registry_starts_complete() {
    let registry = ScreenRegistry::new();
    assert!(registry.is_complete());
    for code in [ScreenCode::Main, ScreenCode::Editing, ScreenCode::Exiting] {
        assert!(registry.contains(code));
    }
}

#[test]
fn removing_a_screen_empties_only_its_slot() {
    let mut registry = ScreenRegistry::new();
    let screen = registry.remove(ScreenCode::Editing);
    assert!(matches!(screen, Some(AnyScreen::Editing(_))));
    assert!(!registry.contains(ScreenCode::Editing));
    assert!(registry.contains(ScreenCode::Main));
    assert!(registry.contains(ScreenCode::Exiting));
    assert!(!registry.is_complete());
    assert!(registry.remove(ScreenCode::Editing).is_none());
}

#[test]
fn a_screen_goes_back_into_the_slot_of_its_own_identity() {
    let mut registry = ScreenRegistry::new();
    let screen = registry.remove(ScreenCode::Main).unwrap();
    assert_eq!(screen.code(), ScreenCode::Main);
    assert!(registry.insert(screen).is_none());
    assert!(registry.is_complete());
}

#[test]
fn inserting_into_a_filled_slot_hands_back_the_old_screen() {
    let mut registry = ScreenRegistry::new();
    let mut typed = EditingScreen::new();
    typed.key_input = "k".to_string();
    let displaced = registry.insert(AnyScreen::Editing(typed));
    match displaced {
        Some(AnyScreen::Editing(old)) => assert_eq!(old.key_input, ""),
        _ => panic!("the editing slot was filled"),
    }
    assert_eq!(registry.editing.as_ref().unwrap().key_input, "k");
    assert!(registry.is_complete());
}

#[test]
fn any_screen_knows_its_identity() {
    assert_eq!(AnyScreen::Main(MainScreen).code(), ScreenCode::Main);
    assert_eq!(AnyScreen::Editing(EditingScreen::new()).code(), ScreenCode::Editing);
    assert_eq!(AnyScreen::Exiting(ExitingScreen).code(), ScreenCode::Exiting);
}

#[test]
fn screen_names() {
    assert_eq!(ScreenCode::Main.name(), "Main");
    assert_eq!(ScreenCode::Editing.name(), "Editing");
    assert_eq!(ScreenCode::Exiting.name(), "Exiting");
}
