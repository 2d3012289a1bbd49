//! The terminal emulator: what it is asked for, and what it has to say in return.
use crate::encoding::text_from_utf8;
use crate::error::Error;
use crate::text::signed_decimal;
use std::collections::VecDeque;
use vstd::prelude::*;
use vstd::utf8::{decode_utf8, valid_utf8};

verus! {

/// What a new emulator is to be.
#[derive(Clone, Copy, Debug, PartialEq, Eq, Structural)]
pub struct TerminalOptions {
    pub cols: u16,
    pub rows: u16,
    pub max_scrollback: usize,
}

/// How the emulator writes a screen.
#[derive(Clone, Copy, Debug, PartialEq, Eq, Structural)]
pub enum Format {
    /// As text.
    Plain,
    /// As the bytes that restore it.
    Vt,
}

/// How a call of the emulator ended.
#[derive(Clone, Copy, Debug, PartialEq, Eq, Structural)]
pub enum NativeResult {
    Success,
    OutOfMemory,
    InvalidValue,
    OutOfSpace,
    NoValue,
    Other(i32),
}

/// What a formatter writes besides the text.
#[derive(Clone, Copy, Debug, PartialEq, Eq, Structural)]
pub struct FormatterOptions {
    pub format: Format,
    /// Join the rows that a long line was broken into.
    pub unwrap: bool,
    /// Leave out white space at the end of a row.
    pub trim: bool,
    pub palette: bool,
    pub modes: bool,
    pub scrolling_region: bool,
    pub tabstops: bool,
    pub pwd: bool,
    pub keyboard: bool,
    pub cursor: bool,
    pub style: bool,
    pub hyperlink: bool,
    pub protection: bool,
    pub kitty_keyboard: bool,
    pub charsets: bool,
}

/// What the emulator has had to say while it was fed or resized.
pub struct Effects {
    /// Answers that are to go to the child, in order.
    pub writes: VecDeque<Vec<u8>>,
    /// Whether the child has set a title since this was last asked.
    pub title_changed: bool,
}

/// An emulator, as far as the library keeps it.
pub struct Terminal {
    pub effects: Effects,
}

/// `Effects` as a mathematical value.
#[verifier::ext_equal]
pub struct EffectsView {
    pub writes: Seq<Seq<u8>>,
    pub title_changed: bool,
}

impl View for Effects {
    type V = EffectsView;

    open spec fn view(&self) -> EffectsView {
        EffectsView {
            writes: pieces(self.writes@),
            title_changed: self.title_changed,
        }
    }
}

/// The bytes of some pieces of input.
pub open spec fn pieces(writes: Seq<Vec<u8>>) -> Seq<Seq<u8>> {
    writes.map_values(|w: Vec<u8>| w@)
}

/// The error of a call that ended in this way.
pub open spec fn native_error(result: NativeResult) -> Option<Error> {
    match result {
        NativeResult::Success => None,
        NativeResult::OutOfMemory => Some(Error::OutOfMemory),
        NativeResult::InvalidValue => Some(Error::InvalidValue),
        NativeResult::OutOfSpace => Some(Error::OutOfSpace),
        NativeResult::NoValue => Some(Error::NoValue),
        NativeResult::Other(code) => Some(Error::Native { code }),
    }
}

/// Whether a call succeeded.
pub fn check(result: NativeResult) -> (r: Result<(), Error>)
    ensures
        match r {
            Ok(_) => native_error(result) is None,
            Err(e) => native_error(result) == Some(e),
        },
{
    match result {
        NativeResult::Success => Ok(()),
        NativeResult::OutOfMemory => Err(Error::OutOfMemory),
        NativeResult::InvalidValue => Err(Error::InvalidValue),
        NativeResult::OutOfSpace => Err(Error::OutOfSpace),
        NativeResult::NoValue => Err(Error::NoValue),
        NativeResult::Other(code) => Err(Error::Native { code }),
    }
}

/// Whether a formatter kept to the room it was given.
pub fn check_written(written: usize, room: usize) -> (r: Result<usize, Error>)
    ensures
        match r {
            Ok(n) => n == written && written <= room,
            Err(e) => e == Error::RowOverrun && written > room,
        },
{
    if written <= room {
        Ok(written)
    } else {
        Err(Error::RowOverrun)
    }
}

/// The corners of a whole row: column and row of its first and of its last cell.
pub fn row_selection(y: u32, cols: u16) -> (r: ((u16, u32), (u16, u32)))
    requires
        cols > 0,
    ensures
        r.0 == (0u16, y),
        r.1.0 == cols - 1,
        r.1.1 == y,
{
    ((0, y), (cols - 1, y))
}

/// What a formatter writes: for a whole screen everything that restores it but the palette and
/// the cursor, for a selection only the text. Rows are kept as they are.
pub fn formatter_options(format: Format, selected: bool) -> (r: FormatterOptions)
    ensures
        r == (FormatterOptions {
            format,
            unwrap: false,
            trim: true,
            palette: false,
            modes: !selected,
            scrolling_region: !selected,
            tabstops: !selected,
            pwd: !selected,
            keyboard: !selected,
            cursor: false,
            style: !selected,
            hyperlink: !selected,
            protection: !selected,
            kitty_keyboard: !selected,
            charsets: !selected,
        }),
{
    let extras: bool = !selected;
    FormatterOptions {
        format,
        unwrap: false,
        trim: true,
        palette: false,
        modes: extras,
        scrolling_region: extras,
        tabstops: extras,
        pwd: extras,
        keyboard: extras,
        cursor: false,
        style: extras,
        hyperlink: extras,
        protection: extras,
        kitty_keyboard: extras,
        charsets: extras,
    }
}

impl Effects {
    pub fn new() -> (r: Self)
        ensures
            r@ == (EffectsView { writes: Seq::empty(), title_changed: false }),
    {
        let r = Effects { writes: VecDeque::new(), title_changed: false };
        assert(r@.writes =~= Seq::empty());
        r
    }

    /// The emulator answers the child. An empty answer is none.
    pub fn write_pty(&mut self, data: &[u8])
        ensures
            final(self)@ == (EffectsView {
                writes: if data@.len() == 0 {
                    old(self)@.writes
                } else {
                    old(self)@.writes.push(data@)
                },
                ..old(self)@
            }),
    {
        if data.len() == 0 {
            return;
        }
        let mut copy: Vec<u8> = Vec::new();
        copy.extend_from_slice(data);
        assert(copy@ =~= data@);
        self.writes.push_back(copy);
        assert(self@.writes =~= old(self)@.writes.push(data@));
    }

    /// The child has set a title.
    pub fn note_title(&mut self)
        ensures
            final(self)@ == (EffectsView { title_changed: true, ..old(self)@ }),
    {
        self.title_changed = true;
    }

    /// The answers that have not been taken yet, in order.
    pub fn take_writes(&mut self) -> (r: VecDeque<Vec<u8>>)
        ensures
            pieces(r@) == old(self)@.writes,
            final(self)@ == (EffectsView { writes: Seq::empty(), ..old(self)@ }),
    {
        let mut taken: VecDeque<Vec<u8>> = VecDeque::new();
        std::mem::swap(&mut taken, &mut self.writes);
        assert(self@.writes =~= Seq::empty());
        taken
    }

    /// Whether the child has set a title since this was last asked.
    pub fn take_title_changed(&mut self) -> (r: bool)
        ensures
            r == old(self)@.title_changed,
            final(self)@ == (EffectsView { title_changed: false, ..old(self)@ }),
    {
        let changed: bool = self.title_changed;
        self.title_changed = false;
        changed
    }
}

impl Terminal {
    /// Whether an emulator can be made with these options; it has had nothing to say yet.
    pub fn new(options: TerminalOptions) -> (r: Result<Self, Error>)
        ensures
            match r {
                Ok(terminal) => {
                    &&& options.cols > 0 && options.rows > 0
                    &&& terminal.effects@ == (EffectsView {
                        writes: Seq::empty(),
                        title_changed: false,
                    })
                },
                Err(e) => e == Error::ZeroSize && (options.cols == 0 || options.rows == 0),
            },
    {
        if options.cols == 0 || options.rows == 0 {
            return Err(Error::ZeroSize);
        }
        Ok(Terminal { effects: Effects::new() })
    }

    /// Whether the emulator can be brought to this size.
    pub fn resize(&self, cols: u16, rows: u16) -> (r: Result<(), Error>)
        ensures
            match r {
                Ok(_) => cols > 0 && rows > 0,
                Err(e) => e == Error::ZeroSize && (cols == 0 || rows == 0),
            },
    {
        if cols == 0 || rows == 0 {
            Err(Error::ZeroSize)
        } else {
            Ok(())
        }
    }

    /// The answers for the child that have not been taken yet, in order.
    pub fn take_writes(&mut self) -> (r: VecDeque<Vec<u8>>)
        ensures
            pieces(r@) == old(self).effects@.writes,
            final(self).effects@ == (EffectsView { writes: Seq::empty(), ..old(self).effects@ }),
    {
        self.effects.take_writes()
    }

    /// The title, if the child has set one since it was last taken. `title` is what the emulator
    /// holds as the title now, where it can tell; it counts only if it is UTF-8.
    pub fn take_title(&mut self, title: Result<Vec<u8>, Error>) -> (r: Option<String>)
        ensures
            final(self).effects@ == (EffectsView { title_changed: false, ..old(self).effects@ }),
            match r {
                Some(text) => {
                    &&& old(self).effects@.title_changed
                    &&& title matches Ok(bytes) && valid_utf8(bytes@) && text@ == decode_utf8(
                        bytes@,
                    )
                },
                None => {
                    ||| !old(self).effects@.title_changed
                    ||| title is Err
                    ||| !valid_utf8(title->Ok_0@)
                },
            },
    {
        if !self.effects.take_title_changed() {
            return None;
        }
        match title {
            Ok(bytes) => match text_from_utf8(bytes.as_slice()) {
                Ok(text) => Some(text),
                Err(_) => None,
            },
            Err(_) => None,
        }
    }
}

/// What the emulator reports has these words, and success has none.
pub proof fn law_native_results_have_words(code: i32)
    ensures
        native_error(NativeResult::Success) is None,
        native_error(NativeResult::OutOfMemory) matches Some(e) && e@
            == "Ghostty allocation failed"@,
        native_error(NativeResult::InvalidValue) matches Some(e) && e@
            == "Ghostty rejected an invalid value"@,
        native_error(NativeResult::OutOfSpace) matches Some(e) && e@
            == "Ghostty output buffer is too small"@,
        native_error(NativeResult::NoValue) matches Some(e) && e@ == "Ghostty value is unavailable"@,
        native_error(NativeResult::Other(code)) matches Some(e) && e@
            == "Ghostty failed with result "@ + signed_decimal(code as int),
{
}

/// The answers for the child are those that the emulator gave, in order.
pub proof fn law_pieces_are_those_of_the_queue(writes: Seq<Vec<u8>>, i: int, effects: Effects)
    ensures
        pieces(writes).len() == writes.len(),
        0 <= i < writes.len() ==> pieces(writes)[i] == writes[i]@,
        effects@.title_changed == effects.title_changed,
        effects@.writes.len() == effects.writes@.len(),
        0 <= i < effects.writes@.len() ==> effects@.writes[i] == effects.writes@[i]@,
{
}

} // verus!
