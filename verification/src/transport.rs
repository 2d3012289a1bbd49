//! The connections between a client and the daemon on Windows: names, deadlines, and who may use
//! the files of the service.
use crate::error::Error;
use crate::text::{chars, joined, owned};
use vstd::prelude::*;

verus! {

/// The longest wait that has an end, in milliseconds.
pub const LONGEST_WAIT_MILLIS: u32 = 0xffff_fffe;

/// A wait without end.
pub const WAIT_FOREVER: u32 = 0xffff_ffff;

/// The UTF-16 units of an ASCII text.
pub open spec fn units(text: Seq<char>) -> Seq<u16> {
    text.map_values(|c: char| (c as u32) as u16)
}

/// What the name of every pipe of this service begins with.
pub open spec fn pipe_prefix() -> Seq<char> {
    "\\\\.\\pipe\\opencode-pty-"@
}

/// A unit that cannot stand in the name of a pipe: the end of a text, or a separator.
pub open spec fn is_forbidden(unit: u16) -> bool {
    unit == 0 || unit == 0x5c || unit == 0x2f
}

/// A local pipe of this service.
pub open spec fn is_endpoint(value: Seq<u16>) -> bool {
    let n = pipe_prefix().len() as int;
    &&& value.len() > n
    &&& value.take(n) == units(pipe_prefix())
    &&& forall|i: int| n <= i < value.len() ==> !is_forbidden(#[trigger] value[i])
}

/// The name of a pipe as the system takes it, if it is a local pipe of this service.
pub fn endpoint_name(value: Vec<u16>) -> (r: Result<Vec<u16>, Error>)
    ensures
        match r {
            Ok(name) => is_endpoint(value@) && name@ == value@.push(0),
            Err(e) => !is_endpoint(value@) && e == Error::InvalidEndpoint,
        },
{
    let prefix = chars("\\\\.\\pipe\\opencode-pty-");
    let n: usize = prefix.len();
    if value.len() <= n {
        return Err(Error::InvalidEndpoint);
    }
    let mut i: usize = 0;
    while i < n
        invariant
            i <= n < value@.len(),
            n == prefix@.len(),
            prefix@ == pipe_prefix(),
            forall|j: int| 0 <= j < i ==> #[trigger] value@[j] == units(pipe_prefix())[j],
        decreases n - i,
    {
        if value[i] != (prefix[i] as u32) as u16 {
            assert(value@.take(n as int)[i as int] != units(pipe_prefix())[i as int]);
            return Err(Error::InvalidEndpoint);
        }
        i += 1;
    }
    assert(value@.take(n as int) =~= units(pipe_prefix()));
    while i < value.len()
        invariant
            n <= i <= value@.len(),
            n == pipe_prefix().len(),
            forall|j: int| n <= j < i ==> !is_forbidden(#[trigger] value@[j]),
        decreases value@.len() - i,
    {
        let unit: u16 = value[i];
        if unit == 0 || unit == 0x5c || unit == 0x2f {
            return Err(Error::InvalidEndpoint);
        }
        i += 1;
    }
    let mut name = value;
    name.push(0);
    Ok(name)
}

/// The name of the pipe of a daemon.
pub fn pipe_name(instance_id: &str) -> (r: String)
    ensures
        r@ == pipe_prefix() + instance_id@,
{
    joined(owned("\\\\.\\pipe\\opencode-pty-"), instance_id)
}

/// A path as the system takes it, if the system would not take it for a shorter one.
pub fn wide_path(path: Vec<u16>) -> (r: Result<Vec<u16>, Error>)
    ensures
        match r {
            Ok(wide) => !path@.contains(0) && wide@ == path@.push(0),
            Err(e) => path@.contains(0) && e == Error::NulInPath,
        },
{
    let mut i: usize = 0;
    while i < path.len()
        invariant
            i <= path@.len(),
            forall|j: int| 0 <= j < i ==> path@[j] != 0,
        decreases path@.len() - i,
    {
        if path[i] == 0 {
            return Err(Error::NulInPath);
        }
        i += 1;
    }
    let mut wide = path;
    wide.push(0);
    Ok(wide)
}

/// How long to wait, in milliseconds: as long as asked, but not without end unless that is asked.
pub fn wait_millis(timeout: Option<u128>) -> (r: u32)
    ensures
        match timeout {
            None => r == WAIT_FOREVER,
            Some(n) => r == if n < LONGEST_WAIT_MILLIS {
                n as int
            } else {
                LONGEST_WAIT_MILLIS as int
            },
        },
{
    match timeout {
        None => WAIT_FOREVER,
        Some(n) => if n < LONGEST_WAIT_MILLIS as u128 {
            n as u32
        } else {
            LONGEST_WAIT_MILLIS
        },
    }
}

/// Whether a client took its answer: it closes its end, and sends nothing more before.
pub fn finish_response(read: usize) -> (r: Result<(), Error>)
    ensures
        match r {
            Ok(_) => read == 0,
            Err(e) => read != 0 && e == Error::UnexpectedData,
        },
{
    if read == 0 {
        Ok(())
    } else {
        Err(Error::UnexpectedData)
    }
}

/// Who may use a file of the service, as the system describes it: its owner has everything and
/// nobody else anything, whatever the directory says.
pub fn private_descriptor(sid: &str) -> (r: String)
    ensures
        r@ == "O:"@ + sid@ + "D:P(A;;GA;;;"@ + sid@ + ")\0"@,
{
    let r = joined(owned("O:"), sid);
    let r = joined(r, "D:P(A;;GA;;;");
    joined(joined(r, sid), ")\0")
}

/// Who may use a file.
pub struct Access {
    /// There is a list of grants.
    pub present: bool,
    /// The directory adds nothing to the list.
    pub protected: bool,
    /// How many grants there are.
    pub grants: u32,
    /// The kind of the first grant, where it can be read, and whether it is for the current
    /// user. The kind of a simple grant is 0.
    pub first: Option<(u8, bool)>,
}

/// Whether a file belongs to the current user.
pub fn check_owner(ours: bool) -> (r: Result<(), Error>)
    ensures
        match r {
            Ok(_) => ours,
            Err(e) => !ours && e == Error::NotOurs,
        },
{
    if ours {
        Ok(())
    } else {
        Err(Error::NotOurs)
    }
}

/// Whether only the current user may use a file: one simple grant, for the current user, to which
/// nothing is added.
pub fn check_private(access: &Access) -> (r: Result<(), Error>)
    ensures
        match r {
            Ok(_) => access.present && access.protected && access.grants == 1 && access.first
                == Some((0u8, true)),
            Err(e) => if !access.present || !access.protected {
                e == Error::Unprotected
            } else if access.grants != 1 || access.first is None {
                e == Error::SharedStorage
            } else if (access.first->0).0 != 0 {
                e == Error::UnexpectedGrant
            } else {
                e == Error::ForeignGrant && !(access.first->0).1
            },
        },
{
    if !access.present || !access.protected {
        return Err(Error::Unprotected);
    }
    match access.first {
        Some((kind, ours)) => if access.grants != 1 {
            Err(Error::SharedStorage)
        } else if kind != 0 {
            Err(Error::UnexpectedGrant)
        } else if !ours {
            Err(Error::ForeignGrant)
        } else {
            Ok(())
        },
        None => Err(Error::SharedStorage),
    }
}

/// Whether a file of the service is what it should be: no link, and a directory or not.
pub fn check_kind(link: bool, directory: bool, wanted_directory: bool) -> (r: Result<(), Error>)
    ensures
        match r {
            Ok(_) => !link && directory == wanted_directory,
            Err(e) => if link {
                e == Error::ReparsePoint
            } else {
                e == Error::WrongFileType && directory != wanted_directory
            },
        },
{
    if link {
        Err(Error::ReparsePoint)
    } else if directory != wanted_directory {
        Err(Error::WrongFileType)
    } else {
        Ok(())
    }
}

/// The sizes of a request to rename a file.
#[derive(Clone, Copy, Debug, PartialEq, Eq, Structural)]
pub struct RenameLayout {
    /// The bytes of the new name.
    pub name_bytes: u32,
    /// The bytes of the whole request.
    pub bytes: u32,
    /// How many words hold the request.
    pub words: usize,
}

/// The sizes of a request to rename a file to a name of this many units, with `header` bytes
/// before the name, in words of `word` bytes.
pub fn rename_layout(header: usize, units: usize, word: usize) -> (r: Result<RenameLayout, Error>)
    requires
        word > 0,
    ensures
        ({
            let name = 2 * units;
            match r {
                Ok(layout) => {
                    &&& layout.name_bytes == name
                    &&& layout.bytes == header + name
                    &&& layout.words * word >= header + name
                    &&& layout.words == 0 || (layout.words - 1) * word < header + name
                },
                Err(e) => if name > u32::MAX {
                    e == Error::OutOfRange
                } else if header + name > usize::MAX {
                    e == Error::RenameOverflow
                } else {
                    e == Error::OutOfRange && header + name > u32::MAX
                },
            }
        }),
{
    let name: u128 = (units as u128) * 2;
    if name > u32::MAX as u128 {
        return Err(Error::OutOfRange);
    }
    let total: u128 = (header as u128) + name;
    if total > usize::MAX as u128 {
        return Err(Error::RenameOverflow);
    }
    if total > u32::MAX as u128 {
        return Err(Error::OutOfRange);
    }
    let bytes: usize = total as usize;
    let whole: usize = bytes / word;
    let rest: usize = bytes % word;
    assert(bytes == whole * word + rest && rest < word) by (nonlinear_arith)
        requires
            word > 0,
            whole == bytes / word,
            rest == bytes % word,
    ;
    assert(whole + rest <= bytes) by (nonlinear_arith)
        requires
            bytes == whole * word + rest,
            word > 0,
            rest >= 0,
            whole >= 0,
    ;
    let words: usize = if rest > 0 {
        whole + 1
    } else {
        whole
    };
    assert(words * word >= bytes && (words == 0 || (words - 1) * word < bytes)) by (nonlinear_arith)
        requires
            bytes == whole * word + rest,
            0 <= rest < word,
            words == if rest > 0 {
                whole + 1
            } else {
                whole as int
            },
    ;
    Ok(RenameLayout { name_bytes: name as u32, bytes: total as u32, words })
}

/// The pipe of a daemon is a local pipe of this service, if its number can stand in a name.
pub proof fn law_pipe_is_an_endpoint(instance_id: Seq<char>)
    requires
        instance_id.len() > 0,
        forall|i: int|
            0 <= i < instance_id.len() ==> !is_forbidden(
                ((#[trigger] instance_id[i]) as u32) as u16,
            ),
    ensures
        is_endpoint(units(pipe_prefix() + instance_id)),
{
    let n = pipe_prefix().len() as int;
    let value = units(pipe_prefix() + instance_id);
    assert(value.take(n) =~= units(pipe_prefix()));
    assert forall|i: int| n <= i < value.len() implies !is_forbidden(#[trigger] value[i]) by {
        assert(value[i] == (instance_id[i - n] as u32) as u16);
    }
}

/// The name of a local pipe of this service begins with a fixed text and goes on with at least one
/// character, none of which ends or parts a path.
pub proof fn law_endpoints_are_local(value: Seq<u16>, i: int)
    ensures
        is_endpoint(value) ==> value.len() > 22 && value.take(22) == units(
            "\\\\.\\pipe\\opencode-pty-"@,
        ),
        is_endpoint(value) && 22 <= i < value.len() ==> value[i] != 0 && value[i] != 0x5c
            && value[i] != 0x2f,
        value.len() > 22 && value.take(22) == units("\\\\.\\pipe\\opencode-pty-"@) && (forall|
            j: int,
        |
            22 <= j < value.len() ==> (#[trigger] value[j]) != 0 && value[j] != 0x5c && value[j]
                != 0x2f) ==> is_endpoint(value),
        units("\\\\.\\pipe\\opencode-pty-"@)[0] == 0x5c,
        units("\\\\.\\pipe\\opencode-pty-"@)[2] == 0x2e,
{
    reveal_strlit("\\\\.\\pipe\\opencode-pty-");
}

} // verus!
