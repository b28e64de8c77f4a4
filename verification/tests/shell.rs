use tray_shell::bridge::{
    drop_event_name, drop_files, read_prefix, DropEventPayload, ReadOutcome, READ_BUFFER_CAPACITY,
};
use tray_shell::controller::{
    backdrop_for, match_tray_events, quit_app, run_tray_events, show_window, BackdropEffect,
    Platform,
};
use tray_shell::events::{
    is_fatal, Action, CursorPoint, ShellError, TrayButton, TrayButtonState, TrayEvent,
    WindowVisibility,
};

fn origin() -> CursorPoint {
    CursorPoint { x_bits: 0, y_bits: 0 }
}

fn primary_down() -> TrayEvent {
    TrayEvent::Click {
        button: TrayButton::Primary,
        state: TrayButtonState::Down,
        position: origin(),
    }
}

#[test]
fn single_primary_down_shows_hidden_window() {
    let (v, commands) = match_tray_events(WindowVisibility::Hidden, &primary_down());
    assert_eq!(v, WindowVisibility::Visible);
    assert_eq!(commands, vec![Action::MoveToTrayCenter, Action::Show]);
}

#[test]
fn single_primary_down_hides_visible_window() {
    let (v, commands) = match_tray_events(WindowVisibility::Visible, &primary_down());
    assert_eq!(v, WindowVisibility::Hidden);
    assert_eq!(commands, vec![Action::MoveToTrayCenter, Action::Hide]);
}

#[test]
fn toggle_parity_from_hidden() {
    for n in 0..6usize {
        let events = vec![primary_down(); n];
        let end = run_tray_events(WindowVisibility::Hidden, &events);
        let expected = if n % 2 == 1 {
            WindowVisibility::Visible
        } else {
            WindowVisibility::Hidden
        };
        assert_eq!(end, expected);
    }
}

#[test]
fn release_and_other_buttons_are_ignored() {
    let ignored = vec![
        TrayEvent::Click {
            button: TrayButton::Primary,
            state: TrayButtonState::Up,
            position: origin(),
        },
        TrayEvent::Click {
            button: TrayButton::Other,
            state: TrayButtonState::Down,
            position: origin(),
        },
        TrayEvent::DoubleClick { button: TrayButton::Primary, position: origin() },
        TrayEvent::Enter { position: origin() },
        TrayEvent::Leave { position: origin() },
        TrayEvent::Move { position: origin() },
    ];
    for e in &ignored {
        let (v, commands) = match_tray_events(WindowVisibility::Visible, e);
        assert_eq!(v, WindowVisibility::Visible);
        assert!(commands.is_empty());
        let (v, commands) = match_tray_events(WindowVisibility::Hidden, e);
        assert_eq!(v, WindowVisibility::Hidden);
        assert!(commands.is_empty());
    }
}

#[test]
fn relaunch_brings_window_to_front_from_any_state() {
    let (v, commands) = show_window(WindowVisibility::Hidden);
    assert_eq!(v, WindowVisibility::Visible);
    assert_eq!(commands, vec![Action::SetFocus]);
    let (v, commands) = show_window(WindowVisibility::Visible);
    assert_eq!(v, WindowVisibility::Visible);
    assert_eq!(commands, vec![Action::SetFocus]);
}

#[test]
fn relaunch_is_not_a_toggle() {
    // From a visible window a tray click hides, while a relaunch signal
    // keeps it visible and focused.
    let (after_click, _) = match_tray_events(WindowVisibility::Visible, &primary_down());
    let (after_relaunch, _) = show_window(WindowVisibility::Visible);
    assert_eq!(after_click, WindowVisibility::Hidden);
    assert_eq!(after_relaunch, WindowVisibility::Visible);
    assert_ne!(after_click, after_relaunch);
}

#[test]
fn quit_exits_with_status_zero_whatever_the_state() {
    assert_eq!(quit_app(WindowVisibility::Visible), Action::Exit { code: 0 });
    assert_eq!(quit_app(WindowVisibility::Hidden), Action::Exit { code: 0 });
}

#[test]
fn drop_batch_of_three_paths_makes_one_event_with_three_records() {
    let x_bits = 640.25f64.to_bits();
    let y_bits = 480.75f64.to_bits();
    let position = CursorPoint { x_bits, y_bits };
    let reads = vec![
        ReadOutcome::Loaded { path: String::from("/tmp/a.txt"), chunk: vec![1, 2, 3] },
        ReadOutcome::Loaded { path: String::from("/tmp/b.txt"), chunk: vec![] },
        ReadOutcome::Loaded { path: String::from("/tmp/c.txt"), chunk: vec![255] },
    ];
    let payload: DropEventPayload = drop_files(&reads, position).unwrap();
    assert_eq!(payload.records.len(), 3);
    let expected = [
        ("/tmp/a.txt", vec![1u8, 2, 3]),
        ("/tmp/b.txt", vec![]),
        ("/tmp/c.txt", vec![255u8]),
    ];
    for (record, (path, chunk)) in payload.records.iter().zip(expected.iter()) {
        assert_eq!(record.path, *path);
        assert_eq!(record.x_bits, x_bits);
        assert_eq!(record.y_bits, y_bits);
        assert_eq!(f64::from_bits(record.x_bits), 640.25);
        assert_eq!(f64::from_bits(record.y_bits), 480.75);
        assert_eq!(record.buffer, vec![chunk.clone()]);
    }
}

#[test]
fn drop_batch_with_a_failed_read_emits_nothing() {
    let reads = vec![
        ReadOutcome::Loaded { path: String::from("/tmp/a.txt"), chunk: vec![1] },
        ReadOutcome::Failed,
        ReadOutcome::Loaded { path: String::from("/tmp/c.txt"), chunk: vec![2] },
    ];
    let r = drop_files(&reads, origin());
    assert_eq!(r, Err(ShellError::DropReadFailed { index: 1 }));
}

#[test]
fn drop_error_names_the_first_failing_path() {
    let reads = vec![ReadOutcome::Failed, ReadOutcome::Loaded {
        path: String::from("/tmp/b.txt"),
        chunk: vec![9],
    }, ReadOutcome::Failed];
    let r = drop_files(&reads, origin());
    assert_eq!(r, Err(ShellError::DropReadFailed { index: 0 }));
}

#[test]
fn empty_drop_batch_makes_an_empty_event() {
    let reads: Vec<ReadOutcome> = vec![];
    let payload = drop_files(&reads, origin()).unwrap();
    assert!(payload.records.is_empty());
}

#[test]
fn drop_event_is_named_drop_files() {
    assert_eq!(drop_event_name(), "drop-files");
}

#[test]
fn small_file_is_read_whole() {
    let contents = vec![10u8, 20, 30];
    let chunk = read_prefix(&contents, READ_BUFFER_CAPACITY);
    assert_eq!(chunk, contents);
}

#[test]
fn large_file_is_truncated_to_the_buffer() {
    let contents: Vec<u8> = (0..=255u8).cycle().take(READ_BUFFER_CAPACITY + 100).collect();
    let chunk = read_prefix(&contents, READ_BUFFER_CAPACITY);
    assert_eq!(chunk.len(), READ_BUFFER_CAPACITY);
    assert!(chunk.len() < contents.len());
    assert_eq!(chunk[..], contents[..READ_BUFFER_CAPACITY]);
}

#[test]
fn truncation_at_small_capacity_is_exact() {
    let contents = vec![7u8, 8, 9, 10, 11];
    let chunk = read_prefix(&contents, 2);
    assert_eq!(chunk, vec![7u8, 8]);
}

#[test]
fn backdrop_choice_per_platform() {
    assert_eq!(backdrop_for(Platform::MacLike), Some(BackdropEffect::Vibrancy));
    assert_eq!(backdrop_for(Platform::WindowsLike), Some(BackdropEffect::Blur));
    assert_eq!(backdrop_for(Platform::OtherPlatform), None);
}

#[test]
fn every_shell_error_is_fatal() {
    assert!(is_fatal(&ShellError::MissingWindow));
    assert!(is_fatal(&ShellError::BackdropUnsupported));
    assert!(is_fatal(&ShellError::DropReadFailed { index: 4 }));
}
