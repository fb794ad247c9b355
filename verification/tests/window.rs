use oxids::window::{
    hotkey, main_window_size, secondary_window_size, Key, WindowAction, WindowSize,
};

#[test]
fn window_sizes() {
    assert_eq!(main_window_size(false), WindowSize { width: 720, height: 240 });
    assert_eq!(main_window_size(true), WindowSize { width: 400, height: 240 });
    assert_eq!(secondary_window_size(false), None);
    assert_eq!(secondary_window_size(true), Some(WindowSize { width: 320, height: 240 }));
}

#[test]
fn windows_open_at_twice_the_size_of_their_contents() {
    assert_eq!(main_window_size(false).scaled(), WindowSize { width: 1440, height: 480 });
    assert_eq!(main_window_size(true).scaled(), WindowSize { width: 800, height: 480 });
}

#[test]
fn hotkeys_act_when_pressed() {
    assert_eq!(hotkey(Key::Enter, true, false, false), Some(WindowAction::EnterFullscreen));
    assert_eq!(hotkey(Key::Escape, true, false, true), Some(WindowAction::ExitFullscreen));
    for split in [false, true] {
        assert_eq!(
            hotkey(Key::Backspace, true, false, split),
            Some(WindowAction::RestoreSize(main_window_size(split).scaled()))
        );
    }
    assert_eq!(hotkey(Key::Other, true, false, false), None);
}

#[test]
fn held_and_released_keys_do_nothing() {
    for key in [Key::Enter, Key::Escape, Key::Backspace, Key::Other] {
        assert_eq!(hotkey(key, true, true, false), None);
        assert_eq!(hotkey(key, false, false, false), None);
        assert_eq!(hotkey(key, false, true, true), None);
    }
}
