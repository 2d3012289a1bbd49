use opencode_pty::error::Error;
use opencode_pty::ghostty::{
    check, check_written, formatter_options, row_selection, Effects, Format, NativeResult, Terminal,
    TerminalOptions,
};
use std::collections::VecDeque;

fn terminal() -> Terminal {
    Terminal::new(TerminalOptions { cols: 20, rows: 5, max_scrollback: 1024 }).unwrap_or_else(|e| {
        panic!("{}", e.message())
    })
}

#[test]
fn retained_userdata_survives_moves_and_repeated_drains() {
    let mut owners = Vec::with_capacity(1);
    owners.push(Effects::new());
    owners.reserve_exact(32);
    let mut owner = Box::new(owners.pop().unwrap());

    for byte in 0..8u8 {
        owner.write_pty(&[byte]);
        assert_eq!(owner.take_writes(), VecDeque::from([vec![byte]]));
        assert!(owner.take_writes().is_empty());
        owner.note_title();
        assert!(owner.take_title_changed());
        assert!(!owner.take_title_changed());
    }
}

#[test]
fn callback_bytes_are_owned_after_the_source_buffer_is_gone() {
    let mut owner = Effects::new();
    let mut bytes = vec![1, 2, 3];
    owner.write_pty(&bytes);
    bytes.fill(0);
    drop(bytes);
    assert_eq!(owner.take_writes(), VecDeque::from([vec![1, 2, 3]]));
}

#[test]
fn empty_callback_does_not_dereference_a_null_buffer() {
    let mut owner = Effects::new();
    owner.write_pty(&[]);
    assert!(owner.take_writes().is_empty());
}

#[test]
fn callbacks_survive_moves_and_return_owned_data() {
    let mut terminals = vec![terminal()];
    let mut terminal = terminals.pop().unwrap();
    terminal.effects.write_pty(b"\x1b[0n");
    terminal.effects.note_title();
    assert_eq!(terminal.take_writes(), VecDeque::from([b"\x1b[0n".to_vec()]));
    let title = terminal.take_title(Ok(b"first".to_vec())).unwrap();
    terminal.effects.note_title();
    assert_eq!(title, "first");
    assert_eq!(terminal.take_title(Ok(b"second".to_vec())).as_deref(), Some("second"));
    assert!(terminal.take_title(Ok(b"second".to_vec())).is_none());
    assert!(terminal.take_writes().is_empty());
}

#[test]
fn empty_native_values_and_small_buffers_are_safe() {
    assert!(Terminal::new(TerminalOptions { cols: 0, rows: 1, max_scrollback: 0 }).is_err());
    assert!(Terminal::new(TerminalOptions { cols: 1, rows: 0, max_scrollback: 0 }).is_err());
    let mut terminal = terminal();
    terminal.effects.note_title();
    assert_eq!(terminal.take_title(Ok(Vec::new())).as_deref(), Some(""));
    assert_eq!(check_written(0, 0).unwrap(), 0);
    assert!(check(NativeResult::OutOfSpace).is_err());
    assert_eq!(
        check_written(33, 32).unwrap_err().message(),
        "Ghostty wrote beyond the row buffer"
    );
    assert!(terminal.resize(0, 5).is_err());
    assert_eq!(
        terminal.resize(5, 0).unwrap_err().message(),
        "terminal dimensions must be positive"
    );
    assert!(terminal.resize(1, 1).is_ok());
}

#[test]
fn titles_that_are_no_text_are_dropped() {
    let mut terminal = terminal();
    terminal.effects.note_title();
    assert!(terminal.take_title(Ok(vec![0xff])).is_none());
    terminal.effects.note_title();
    assert!(terminal.take_title(Err(Error::NoValue)).is_none());
    assert!(terminal.take_title(Ok(b"late".to_vec())).is_none());
}

#[test]
fn native_results_have_words() {
    assert!(check(NativeResult::Success).is_ok());
    let words = |result: NativeResult| check(result).unwrap_err().message();
    assert_eq!(words(NativeResult::OutOfMemory), "Ghostty allocation failed");
    assert_eq!(words(NativeResult::InvalidValue), "Ghostty rejected an invalid value");
    assert_eq!(words(NativeResult::OutOfSpace), "Ghostty output buffer is too small");
    assert_eq!(words(NativeResult::NoValue), "Ghostty value is unavailable");
    assert_eq!(words(NativeResult::Other(-17)), "Ghostty failed with result -17");
    assert_eq!(words(NativeResult::Other(6)), "Ghostty failed with result 6");
}

#[test]
fn rows_are_selected_whole_and_written_bare() {
    assert_eq!(row_selection(7, 80), ((0, 7), (79, 7)));
    let row = formatter_options(Format::Plain, true);
    assert!(!row.unwrap && row.trim && !row.modes && !row.tabstops && !row.style);
    let screen = formatter_options(Format::Vt, false);
    assert!(!screen.unwrap && screen.trim && screen.modes && screen.tabstops && screen.style);
    assert!(!screen.cursor && !screen.palette);
}
