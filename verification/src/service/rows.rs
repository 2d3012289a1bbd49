//! The last rows of a terminal, as many as one answer may carry, and the texts of its screen.
use super::actor::Screen;
use crate::encoding::{
    json_bytes, json_string, lossy_utf8, text_bytes, text_from_utf8, text_from_utf8_lossy,
    utf8_fault,
};
use crate::error::Error;
use crate::ghostty::Format;
use crate::text::{decimal, decimal_text, joined, texts};
use vstd::layout::size_of;
use vstd::prelude::*;
use vstd::utf8::{decode_utf8, encode_utf8, valid_utf8};

verus! {

/// How much the rows of one answer may take.
pub const MAX_ROWS_BYTES: usize = 1_048_576;

/// Reads the last rows of a screen one by one.
pub struct RowReader {
    pub total: usize,
    pub count: usize,
    pub lines: Vec<String>,
    pub bytes: usize,
}

/// What to do for the next row.
pub enum RowStep {
    /// Format row `y`, which may take up to `room` bytes.
    Read { y: u32, room: usize },
    /// Every row has been read.
    Done,
}

/// The lesser of two numbers.
pub open spec fn lesser(a: nat, b: nat) -> nat {
    if a < b {
        a
    } else {
        b
    }
}

/// What `count` rows are charged before anything is in them: the punctuation of a JSON list
/// and the slots of the strings.
pub open spec fn base_charge(count: nat) -> nat {
    2 + count * (size_of::<String>() + 1)
}

/// What the texts of rows are charged: their JSON strings.
pub open spec fn text_charge(lines: Seq<Seq<char>>) -> nat
    decreases lines.len(),
{
    if lines.len() == 0 {
        0
    } else {
        text_charge(lines.drop_last()) + json_string(lines.last()).len()
    }
}

/// How many rows are asked for: as many as the screen shows unless a number is given.
pub fn row_count(rows: Option<u16>, visible: u16) -> (r: Result<u16, Error>)
    ensures
        ({
            let wanted = match rows {
                Some(n) => n,
                None => visible,
            };
            match r {
                Ok(n) => n == wanted && wanted != 0,
                Err(e) => e == Error::ZeroRows && wanted == 0,
            }
        }),
{
    let wanted: u16 = match rows {
        Some(n) => n,
        None => visible,
    };
    if wanted == 0 {
        Err(Error::ZeroRows)
    } else {
        Ok(wanted)
    }
}

impl RowReader {
    pub open spec fn wf(self) -> bool {
        &&& self.count <= self.total
        &&& self.lines@.len() <= self.count
        &&& self.bytes == base_charge(self.count as nat) + text_charge(texts(self.lines@))
        &&& self.bytes <= MAX_ROWS_BYTES
    }

    /// The row that comes next, counted from the first row that the emulator holds.
    pub open spec fn next_row(self) -> int {
        self.total - self.count + self.lines@.len()
    }

    /// Prepares to read the last `rows` of `total` rows, or all there are.
    pub fn new(rows: u16, total: usize) -> (r: Result<RowReader, Error>)
        ensures
            ({
                let count = lesser(rows as nat, total as nat);
                match r {
                    Ok(reader) => {
                        &&& base_charge(count) <= MAX_ROWS_BYTES
                        &&& reader.wf()
                        &&& reader.total == total
                        &&& reader.count == count
                        &&& reader.lines@.len() == 0
                    },
                    Err(e) => e == Error::RowsTooLarge && base_charge(count) > MAX_ROWS_BYTES,
                }
            }),
    {
        let count: usize = if (rows as usize) < total {
            rows as usize
        } else {
            total
        };
        let slot: u128 = core::mem::size_of::<String>() as u128 + 1;
        assert(count * slot <= 0xffff * 0x1_0000_0000_0000_0000) by (nonlinear_arith)
            requires
                count <= 0xffff,
                slot <= 0x1_0000_0000_0000_0000,
        ;
        let charge: u128 = 2 + (count as u128) * slot;
        if charge > MAX_ROWS_BYTES as u128 {
            return Err(Error::RowsTooLarge);
        }
        let lines: Vec<String> = Vec::new();
        assert(texts(lines@) =~= Seq::empty());
        Ok(RowReader { total, count, lines, bytes: charge as usize })
    }

    /// What to do for the next row.
    pub fn next(&self) -> (r: Result<RowStep, Error>)
        requires
            self.wf(),
        ensures
            match r {
                Ok(RowStep::Done) => self.lines@.len() == self.count,
                Ok(RowStep::Read { y, room }) => {
                    &&& self.lines@.len() < self.count
                    &&& y == self.next_row()
                    &&& room == MAX_ROWS_BYTES - self.bytes
                },
                Err(e) => {
                    &&& self.lines@.len() < self.count
                    &&& self.next_row() > u32::MAX
                    &&& e == Error::RowIndexTooLarge
                },
            },
    {
        if self.lines.len() == self.count {
            return Ok(RowStep::Done);
        }
        let y: usize = self.total - self.count + self.lines.len();
        if y as u64 > u32::MAX as u64 {
            return Err(Error::RowIndexTooLarge);
        }
        Ok(RowStep::Read { y: y as u32, room: MAX_ROWS_BYTES - self.bytes })
    }

    /// Takes the formatted row, or the emulator's reason why it could not be formatted.
    pub fn take(&mut self, row: Result<Vec<u8>, Error>) -> (r: Result<(), Error>)
        requires
            old(self).wf(),
            old(self).lines@.len() < old(self).count,
        ensures
            final(self).wf(),
            final(self).total == old(self).total,
            final(self).count == old(self).count,
            r is Err ==> *final(self) == *old(self),
            match row {
                Err(cause) => r matches Err(Error::RowNotFormatted { cause: c }) && c@ == cause@,
                Ok(bytes) => if !valid_utf8(bytes@) {
                    r matches Err(Error::Failed { message }) && message@ == utf8_fault(bytes@)
                } else {
                    let line = decode_utf8(bytes@);
                    if old(self).bytes + json_string(line).len() > MAX_ROWS_BYTES {
                        r == Err::<(), Error>(Error::RowsTooLarge)
                    } else {
                        &&& r is Ok
                        &&& texts(final(self).lines@) == texts(old(self).lines@).push(line)
                    }
                },
            },
    {
        let bytes = match row {
            Ok(bytes) => bytes,
            Err(cause) => {
                return Err(Error::RowNotFormatted { cause: cause.message() });
            },
        };
        let line = match text_from_utf8(bytes.as_slice()) {
            Ok(line) => line,
            Err(message) => {
                return Err(Error::Failed { message });
            },
        };
        let charge: usize = json_bytes(line.as_str()).len();
        if charge > MAX_ROWS_BYTES - self.bytes {
            return Err(Error::RowsTooLarge);
        }
        let ghost before = texts(self.lines@);
        let ghost added = line@;
        self.lines.push(line);
        self.bytes = self.bytes + charge;
        proof {
            assert(texts(self.lines@) =~= before.push(added));
            assert(before.push(added).drop_last() =~= before);
        }
        Ok(())
    }
}

/// A reader that has read every row holds the last rows, in order, and never more than the
/// answer may carry; each row read is the one after the row before it.
pub proof fn law_rows_fit(reader: RowReader)
    requires
        reader.wf(),
    ensures
        base_charge(reader.count as nat) + text_charge(texts(reader.lines@)) <= 1024 * 1024,
        reader.lines@.len() == reader.count ==> reader.next_row() == reader.total,
        reader.lines@.len() == 0 ==> reader.next_row() == reader.total - reader.count,
{
}

/// The text of a screen. For the bytes that restore it, the cursor is put back last: the
/// emulator restores tab stops after the screen, which moves the cursor.
pub fn format_terminal(output: &[u8], format: Format, cursor_x: u16, cursor_y: u16) -> (r: String)
    requires
        format == Format::Vt ==> cursor_x < u16::MAX && cursor_y < u16::MAX,
    ensures
        r@ == if format == Format::Vt {
            checkpoint_text(output@, cursor_x, cursor_y)
        } else {
            lossy_utf8(output@)
        },
{
    let text = text_from_utf8_lossy(output);
    if format != Format::Vt {
        return text;
    }
    let text = joined(text, "\x1b[");
    let text = joined(text, decimal_text(cursor_y as u128 + 1).as_str());
    let text = joined(text, ";");
    let text = joined(text, decimal_text(cursor_x as u128 + 1).as_str());
    joined(text, "H")
}

/// The characters that restore a screen: what the emulator writes, then the way of the cursor.
pub open spec fn checkpoint_text(output: Seq<u8>, cursor_x: u16, cursor_y: u16) -> Seq<char> {
    lossy_utf8(output) + "\x1b["@ + decimal((cursor_y + 1) as nat) + ";"@ + decimal(
        (cursor_x + 1) as nat,
    ) + "H"@
}

/// A cursor that has a place on a screen.
pub open spec fn on_screen(cursor: Result<u16, Error>) -> bool {
    cursor matches Ok(n) ==> n < u16::MAX
}

/// The bytes that restore a screen, from what the emulator writes and where the cursor is.
pub fn make_checkpoint(
    output: Result<Vec<u8>, Error>,
    cursor_x: Result<u16, Error>,
    cursor_y: Result<u16, Error>,
) -> (r: Result<Vec<u8>, Error>)
    requires
        on_screen(cursor_x),
        on_screen(cursor_y),
    ensures
        match (output, cursor_y, cursor_x) {
            (Err(e), _, _) => r == Err::<Vec<u8>, Error>(e),
            (Ok(_), Err(e), _) => r == Err::<Vec<u8>, Error>(e),
            (Ok(_), Ok(_), Err(e)) => r == Err::<Vec<u8>, Error>(e),
            (Ok(bytes), Ok(y), Ok(x)) => r matches Ok(checkpoint) && checkpoint@ == encode_utf8(
                checkpoint_text(bytes@, x, y),
            ),
        },
{
    let bytes = match output {
        Ok(bytes) => bytes,
        Err(e) => {
            return Err(e);
        },
    };
    let y: u16 = match cursor_y {
        Ok(y) => y,
        Err(e) => {
            return Err(e);
        },
    };
    let x: u16 = match cursor_x {
        Ok(x) => x,
        Err(e) => {
            return Err(e);
        },
    };
    let text = format_terminal(bytes.as_slice(), Format::Vt, x, y);
    Ok(text_bytes(text.as_str()))
}

/// What a screen shows: its text, then the bytes that restore it, then the cursor. The first of
/// these that cannot be had is the error.
pub fn make_snapshot(
    plain: Result<Vec<u8>, Error>,
    output: Result<Vec<u8>, Error>,
    cursor_x: Result<u16, Error>,
    cursor_y: Result<u16, Error>,
) -> (r: Result<Screen, Error>)
    requires
        on_screen(cursor_x),
        on_screen(cursor_y),
    ensures
        match (plain, output, cursor_y, cursor_x) {
            (Err(e), _, _, _) => r == Err::<Screen, Error>(e),
            (Ok(_), Err(e), _, _) => r == Err::<Screen, Error>(e),
            (Ok(_), Ok(_), Err(e), _) => r == Err::<Screen, Error>(e),
            (Ok(_), Ok(_), Ok(_), Err(e)) => r == Err::<Screen, Error>(e),
            (Ok(text), Ok(bytes), Ok(y), Ok(x)) => r matches Ok(screen) && {
                &&& screen.text@ == lossy_utf8(text@)
                &&& screen.checkpoint@ == encode_utf8(checkpoint_text(bytes@, x, y))
                &&& screen.cursor_x == x
                &&& screen.cursor_y == y
            },
        },
{
    let text = match plain {
        Ok(bytes) => format_terminal(bytes.as_slice(), Format::Plain, 0, 0),
        Err(e) => {
            return Err(e);
        },
    };
    let bytes = match output {
        Ok(bytes) => bytes,
        Err(e) => {
            return Err(e);
        },
    };
    let y: u16 = match cursor_y {
        Ok(y) => y,
        Err(e) => {
            return Err(e);
        },
    };
    let x: u16 = match cursor_x {
        Ok(x) => x,
        Err(e) => {
            return Err(e);
        },
    };
    let vt = format_terminal(bytes.as_slice(), Format::Vt, x, y);
    let checkpoint = text_bytes(vt.as_str());
    Ok(Screen { text, checkpoint, cursor_x: x, cursor_y: y })
}

/// Rows are charged for the punctuation of a list, for the slots of their strings, and for their
/// JSON strings, each for itself.
pub proof fn law_rows_are_charged_one_by_one(lines: Seq<Seq<char>>, line: Seq<char>, count: nat)
    ensures
        text_charge(Seq::empty()) == 0,
        text_charge(lines.push(line)) == text_charge(lines) + json_string(line).len(),
        base_charge(count) == 2 + count * (size_of::<String>() + 1),
{
    assert(lines.push(line).drop_last() =~= lines);
}

/// The rows that are read are the last ones that the emulator holds, from the first of them on, and
/// there are as many as are wanted or as there are.
pub proof fn law_rows_are_the_last(reader: RowReader, rows: u16, total: usize)
    requires
        reader.wf(),
        reader.total == total,
        reader.count == lesser(rows as nat, total as nat),
    ensures
        reader.count <= rows,
        reader.count == rows || reader.count == total,
        reader.next_row() == total - reader.count + reader.lines@.len(),
        reader.lines@.len() < reader.count ==> reader.next_row() < total,
{
}

/// What restores a screen is what the emulator writes and then the way to the cursor, row first,
/// both counted from one.
pub proof fn law_checkpoint_ends_at_the_cursor(output: Seq<u8>, x: u16, y: u16)
    ensures
        ({
            let text = checkpoint_text(output, x, y);
            let way = "\x1b["@ + decimal((y + 1) as nat) + ";"@ + decimal((x + 1) as nat) + "H"@;
            text == lossy_utf8(output) + way
        }),
{
    let way = "\x1b["@ + decimal((y + 1) as nat) + ";"@ + decimal((x + 1) as nat) + "H"@;
    assert(checkpoint_text(output, x, y) =~= lossy_utf8(output) + way);
}

} // verus!
