//! The daemon: how it is found, and how it answers.
use crate::encoding::{digest_sha256, random_u128, sha256_digest, text_bytes};
use crate::error::Error;
use crate::protocol::PROTOCOL_VERSION;
use crate::text::{
    decimal, decimal_text, digit_char, hexadecimal, hexadecimal_text, joined, law_hexadecimal_width,
    owned, same,
};
use crate::transport::{pipe_name, pipe_prefix};
use std::path::PathBuf;
use vstd::arithmetic::power::pow;
use vstd::prelude::*;
use vstd::utf8::{encode_utf8, is_ascii_chars, is_ascii_chars_encode_utf8};

pub mod server;

verus! {

/// Where a daemon writes how it is reached.
pub const REGISTRATION_FILE: &'static str = "service.json";

/// What a daemon holds as long as it runs.
pub const LOCK_FILE: &'static str = "service.lock";

/// How much of a registration is read.
pub const MAX_REGISTRATION_BYTES: usize = 16_384;

/// How a daemon is reached.
#[derive(Debug)]
pub struct Registration {
    pub instance_id: String,
    pub pid: u32,
    pub protocol: u32,
    /// The local endpoint, which need not be a file.
    pub socket: PathBuf,
    pub token: String,
}

/// What the file of a registration held.
pub enum RegistrationFile {
    Unavailable(String),
    Invalid(String),
    Registered(Registration),
}

/// Where the files of a service may be. Paths are the bytes of a Unix path.
pub struct Environment {
    pub runtime_dir: Option<Vec<u8>>,
    pub xdg_runtime_dir: Option<Vec<u8>>,
    pub temp_dir: Vec<u8>,
    pub uid: u32,
}

/// What is found where the sockets should be.
pub struct DirectoryFacts {
    pub is_dir: bool,
    pub is_symlink: bool,
    pub owner: u32,
}

impl Clone for Registration {
    fn clone(&self) -> (r: Self)
        ensures
            r == *self,
    {
        Registration {
            instance_id: self.instance_id.clone(),
            pid: self.pid,
            protocol: self.protocol,
            socket: self.socket.clone(),
            token: self.token.clone(),
        }
    }
}

/// A relative path below a directory.
pub open spec fn below(directory: Seq<u8>, name: Seq<char>) -> Seq<u8> {
    if directory.len() == 0 || directory.last() == 0x2f {
        directory + encode_utf8(name)
    } else {
        directory.push(0x2f) + encode_utf8(name)
    }
}

/// Where the files of the service are: where it is told, or in a directory of its own among the
/// user's runtime files, or in one for this user among the temporary files.
pub open spec fn service_directory(environment: Environment) -> Seq<u8> {
    match (environment.runtime_dir, environment.xdg_runtime_dir) {
        (Some(path), _) => path@,
        (None, Some(path)) => below(path@, "opencode-pty"@),
        (None, None) => below(
            environment.temp_dir@,
            "opencode-pty-"@ + decimal(environment.uid as nat),
        ),
    }
}

/// The hexadecimal text of some bytes.
pub open spec fn hex_text(bytes: Seq<u8>) -> Seq<char>
    decreases bytes.len(),
{
    if bytes.len() == 0 {
        Seq::empty()
    } else {
        hex_text(bytes.drop_last()) + hexadecimal(bytes.last() as nat, 2)
    }
}

/// The directory of the sockets of a user.
pub open spec fn socket_root(uid: u32) -> Seq<char> {
    "/tmp/opencode-pty-"@ + decimal(uid as nat)
}

/// The socket of the service whose files are in `directory`, a path without links.
pub open spec fn socket_of(directory: Seq<u8>, uid: u32) -> Seq<char> {
    socket_root(uid) + "/"@ + hex_text(sha256_digest(directory).take(16)) + ".sock"@
}

fn join(directory: &Vec<u8>, name: &str) -> (r: Vec<u8>)
    ensures
        r@ == below(directory@, name@),
{
    let mut r: Vec<u8> = Vec::new();
    r.extend_from_slice(directory.as_slice());
    assert(r@ =~= directory@);
    let n: usize = directory.len();
    if n > 0 && directory[n - 1] != 0x2f {
        r.push(0x2f);
    }
    let bytes = text_bytes(name);
    r.extend_from_slice(bytes.as_slice());
    assert(r@ =~= below(directory@, name@));
    r
}

/// Where the files of the service are.
pub fn service_dir(environment: &Environment) -> (r: Vec<u8>)
    ensures
        r@ == service_directory(*environment),
{
    match &environment.runtime_dir {
        Some(path) => {
            let mut r: Vec<u8> = Vec::new();
            r.extend_from_slice(path.as_slice());
            assert(r@ =~= path@);
            return r;
        },
        None => {},
    }
    match &environment.xdg_runtime_dir {
        Some(path) => {
            return join(path, "opencode-pty");
        },
        None => {},
    }
    let name = joined(owned("opencode-pty-"), decimal_text(environment.uid as u128).as_str());
    join(&environment.temp_dir, name.as_str())
}

/// Where the daemon writes how it is reached.
pub fn registration_path(environment: &Environment) -> (r: Vec<u8>)
    ensures
        r@ == below(service_directory(*environment), "service.json"@),
{
    join(&service_dir(environment), REGISTRATION_FILE)
}

/// What the daemon locks.
pub fn lock_path(environment: &Environment) -> (r: Vec<u8>)
    ensures
        r@ == below(service_directory(*environment), "service.lock"@),
{
    join(&service_dir(environment), LOCK_FILE)
}

/// Where a registration is written before it is put in its place at once.
pub fn temporary_path(directory: &Vec<u8>, registration: &Registration) -> (r: Vec<u8>)
    ensures
        r@ == below(directory@, "service."@ + registration.instance_id@ + ".tmp"@),
{
    let name = joined(joined(owned("service."), registration.instance_id.as_str()), ".tmp");
    join(directory, name.as_str())
}

fn hex_of(bytes: &Vec<u8>, n: usize) -> (r: String)
    requires
        n <= bytes@.len(),
    ensures
        r@ == hex_text(bytes@.take(n as int)),
{
    let mut r = String::new();
    let mut i: usize = 0;
    assert(bytes@.take(0) =~= Seq::empty());
    while i < n
        invariant
            i <= n <= bytes@.len(),
            r@ == hex_text(bytes@.take(i as int)),
        decreases n - i,
    {
        r = joined(r, hexadecimal_text(bytes[i] as u128, 2).as_str());
        assert(bytes@.take(i + 1).drop_last() =~= bytes@.take(i as int));
        i += 1;
    }
    r
}

/// The directory of the sockets of a user.
pub fn socket_directory(uid: u32) -> (r: String)
    ensures
        r@ == socket_root(uid),
{
    joined(owned("/tmp/opencode-pty-"), decimal_text(uid as u128).as_str())
}

/// The socket of the service whose files are in `directory`, a path without links.
pub fn socket_path(directory: &[u8], uid: u32) -> (r: String)
    ensures
        r@ == socket_of(directory@, uid),
        encode_utf8(r@).len() < 104,
{
    let digest = digest_sha256(directory);
    proof {
        law_socket_path_is_short(directory@, uid);
    }
    let name = hex_of(&digest, 16);
    let r = joined(socket_directory(uid), "/");
    joined(joined(r, name.as_str()), ".sock")
}

/// Whether the directory of the sockets is one, and this user's.
pub fn ensure_private_directory(facts: &DirectoryFacts, uid: u32, directory: &str) -> (r: Result<
    (),
    Error,
>)
    ensures
        match r {
            Ok(_) => facts.is_dir && !facts.is_symlink && facts.owner == uid,
            Err(Error::NotRealDirectory { directory: d }) => d@ == directory@ && (!facts.is_dir
                || facts.is_symlink),
            Err(Error::WrongOwner { directory: d, owner, expected }) => {
                &&& facts.is_dir && !facts.is_symlink && facts.owner != uid
                &&& d@ == directory@ && owner == facts.owner && expected == uid
            },
            Err(_) => false,
        },
{
    if !facts.is_dir || facts.is_symlink {
        return Err(Error::NotRealDirectory { directory: owned(directory) });
    }
    if facts.owner != uid {
        return Err(
            Error::WrongOwner { directory: owned(directory), owner: facts.owner, expected: uid },
        );
    }
    Ok(())
}

/// The registration that its file held.
pub fn read_registration(file: RegistrationFile) -> (r: Result<Registration, Error>)
    ensures
        match file {
            RegistrationFile::Registered(registration) => r == Ok::<Registration, Error>(
                registration,
            ),
            RegistrationFile::Unavailable(cause) => r == Err::<Registration, Error>(
                Error::RegistrationUnavailable { cause },
            ),
            RegistrationFile::Invalid(cause) => r == Err::<Registration, Error>(
                Error::InvalidRegistration { cause },
            ),
        },
{
    match file {
        RegistrationFile::Registered(registration) => Ok(registration),
        RegistrationFile::Unavailable(cause) => Err(Error::RegistrationUnavailable { cause }),
        RegistrationFile::Invalid(cause) => Err(Error::InvalidRegistration { cause }),
    }
}

/// Whether a file of this length can be a registration.
pub fn check_registration_size(length: usize) -> (r: Result<(), Error>)
    ensures
        match r {
            Ok(_) => length <= MAX_REGISTRATION_BYTES,
            Err(e) => length > MAX_REGISTRATION_BYTES && e == Error::RegistrationTooLarge,
        },
{
    if length > MAX_REGISTRATION_BYTES {
        Err(Error::RegistrationTooLarge)
    } else {
        Ok(())
    }
}

/// Where the files of the service are on Windows, and whether in a directory of their own there.
pub fn windows_service_dir(runtime_dir: Option<PathBuf>, local_app_data: Option<PathBuf>) -> (r:
    Result<(PathBuf, bool), Error>)
    ensures
        match (runtime_dir, local_app_data) {
            (Some(path), _) => r == Ok::<(PathBuf, bool), Error>((path, false)),
            (None, Some(path)) => r == Ok::<(PathBuf, bool), Error>((path, true)),
            (None, None) => r == Err::<(PathBuf, bool), Error>(Error::NoLocalAppData),
        },
{
    match runtime_dir {
        Some(path) => Ok((path, false)),
        None => match local_app_data {
            Some(path) => Ok((path, true)),
            None => Err(Error::NoLocalAppData),
        },
    }
}

/// Whether a runtime directory can be one.
pub fn check_runtime_dir(absolute: bool) -> (r: Result<(), Error>)
    ensures
        match r {
            Ok(_) => absolute,
            Err(e) => !absolute && e == Error::RuntimeDirNotAbsolute,
        },
{
    if absolute {
        Ok(())
    } else {
        Err(Error::RuntimeDirNotAbsolute)
    }
}

/// The text of a drawn number.
pub fn id_text(random: u128) -> (r: String)
    ensures
        r@ == hexadecimal(random as nat, 32),
        r@.len() == 32,
{
    proof {
        law_hexadecimal_width(random as nat, 32);
    }
    hexadecimal_text(random, 32)
}

/// A text that nobody can guess.
pub fn random_id() -> (r: String)
    ensures
        exists|random: u128| r@ == #[trigger] hexadecimal(random as nat, 32),
        r@.len() == 32,
{
    let random: u128 = random_u128();
    id_text(random)
}

/// The registration of a new daemon at a socket. `instance` says who it is, and `token` what it
/// asks to be shown.
pub fn register_with(socket: PathBuf, pid: u32, instance: u128, token: u128) -> (r: Registration)
    ensures
        r.socket == socket,
        r.pid == pid,
        r.protocol == PROTOCOL_VERSION,
        r.instance_id@ == hexadecimal(instance as nat, 32),
        r.token@ == hexadecimal(token as nat, 32),
{
    Registration {
        instance_id: id_text(instance),
        pid,
        protocol: PROTOCOL_VERSION,
        socket,
        token: id_text(token),
    }
}

/// The registration of a new daemon at a socket. Who it is and what it asks to be shown are
/// drawn at random.
pub fn register(socket: PathBuf, pid: u32) -> (r: Registration)
    ensures
        r.socket == socket,
        r.pid == pid,
        r.protocol == PROTOCOL_VERSION,
        exists|random: u128| r.instance_id@ == #[trigger] hexadecimal(random as nat, 32),
        exists|random: u128| r.token@ == #[trigger] hexadecimal(random as nat, 32),
{
    let instance: u128 = random_u128();
    register_as(socket, pid, instance)
}

/// The registration of a new daemon at a socket. `instance` says who it is; what it asks to be
/// shown is drawn at random.
pub fn register_as(socket: PathBuf, pid: u32, instance: u128) -> (r: Registration)
    ensures
        r.socket == socket,
        r.pid == pid,
        r.protocol == PROTOCOL_VERSION,
        r.instance_id@ == hexadecimal(instance as nat, 32),
        exists|random: u128| r.token@ == #[trigger] hexadecimal(random as nat, 32),
{
    let token: u128 = random_u128();
    register_with(socket, pid, instance, token)
}

/// A number that says who a new daemon on Windows is, drawn at random, and the name of its pipe.
pub fn register_pipe() -> (r: (u128, String))
    ensures
        r.1@ == pipe_prefix() + hexadecimal(r.0 as nat, 32),
{
    let instance: u128 = random_u128();
    (instance, pipe_name(id_text(instance).as_str()))
}

/// Whether a daemon that stops removes the registration: only its own.
pub fn owns_registration(current: &Option<Registration>, registration: &Registration) -> (r: bool)
    ensures
        r == (current matches Some(c) && c.instance_id@ == registration.instance_id@),
{
    match current {
        Some(current) => same(current.instance_id.as_str(), registration.instance_id.as_str()),
        None => false,
    }
}

/// A decimal text is no longer than the power of ten that its number is below.
proof fn lemma_decimal_length(n: nat, k: nat)
    requires
        k > 0,
        n < pow(10, k),
    ensures
        decimal(n).len() <= k,
    decreases k,
{
    reveal(pow);
    if n >= 10 {
        assert(pow(10, k) == 10 * pow(10, (k - 1) as nat));
        if k == 1 {
            assert(pow(10, 0) == 1);
        } else {
            lemma_decimal_length(n / 10, (k - 1) as nat);
        }
    }
}

proof fn lemma_hex_text_length(bytes: Seq<u8>)
    ensures
        hex_text(bytes).len() == 2 * bytes.len(),
    decreases bytes.len(),
{
    if bytes.len() > 0 {
        lemma_hex_text_length(bytes.drop_last());
        law_hexadecimal_width(bytes.last() as nat, 2);
    }
}

/// Two runs of bytes of one length with the same hexadecimal text are the same.
pub proof fn law_hex_text_is_injective(a: Seq<u8>, b: Seq<u8>)
    requires
        hex_text(a) == hex_text(b),
    ensures
        a == b,
    decreases a.len(),
{
    lemma_hex_text_length(a);
    lemma_hex_text_length(b);
    if a.len() > 0 {
        let n = hex_text(a.drop_last()).len() as int;
        lemma_hex_text_length(a.drop_last());
        lemma_hex_text_length(b.drop_last());
        law_hexadecimal_width(a.last() as nat, 2);
        law_hexadecimal_width(b.last() as nat, 2);
        assert(hex_text(a).take(n) =~= hex_text(a.drop_last()));
        assert(hex_text(b).take(n) =~= hex_text(b.drop_last()));
        assert(hex_text(a).skip(n) =~= hexadecimal(a.last() as nat, 2));
        assert(hex_text(b).skip(n) =~= hexadecimal(b.last() as nat, 2));
        law_hex_text_is_injective(a.drop_last(), b.drop_last());
        lemma_byte_hex(a.last(), b.last());
        assert(a =~= a.drop_last().push(a.last()));
        assert(b =~= b.drop_last().push(b.last()));
    } else {
        assert(a =~= b);
    }
}

proof fn lemma_byte_hex(a: u8, b: u8)
    requires
        hexadecimal(a as nat, 2) == hexadecimal(b as nat, 2),
    ensures
        a == b,
{
    lemma_byte_digits(a);
    lemma_byte_digits(b);
}

proof fn lemma_byte_digits(a: u8)
    ensures
        hexadecimal(a as nat, 2).len() == 2,
        hexadecimal(a as nat, 2)[0] == digit_char((a / 16) as int),
        hexadecimal(a as nat, 2)[1] == digit_char((a % 16) as int),
{
    reveal_with_fuel(hexadecimal, 3);
}

/// The path of a socket has fewer than 104 bytes, whatever the directory of the service, and each
/// of them is a character.
pub proof fn law_socket_path_is_short(directory: Seq<u8>, uid: u32)
    requires
        sha256_digest(directory).len() == 32,
    ensures
        encode_utf8(socket_of(directory, uid)).len() < 104,
        is_ascii_chars(socket_of(directory, uid)),
{
    reveal_strlit("/tmp/opencode-pty-");
    reveal_strlit("/");
    reveal_strlit(".sock");
    assert(pow(10, 10) == 10_000_000_000) by {
        reveal_with_fuel(pow, 11);
    }
    lemma_decimal_length(uid as nat, 10);
    lemma_hex_text_length(sha256_digest(directory).take(16));
    lemma_decimal_ascii(uid as nat);
    lemma_hex_text_ascii(sha256_digest(directory).take(16));
    is_ascii_chars_encode_utf8(socket_of(directory, uid));
}

proof fn lemma_decimal_ascii(n: nat)
    ensures
        is_ascii_chars(decimal(n)),
    decreases n,
{
    if n >= 10 {
        lemma_decimal_ascii(n / 10);
    }
}

proof fn lemma_hexadecimal_ascii(n: nat, width: nat)
    ensures
        is_ascii_chars(hexadecimal(n, width)),
    decreases width,
{
    if width > 0 {
        lemma_hexadecimal_ascii(n / 16, (width - 1) as nat);
    }
}

proof fn lemma_hex_text_ascii(bytes: Seq<u8>)
    ensures
        is_ascii_chars(hex_text(bytes)),
    decreases bytes.len(),
{
    if bytes.len() > 0 {
        lemma_hex_text_ascii(bytes.drop_last());
        lemma_hexadecimal_ascii(bytes.last() as nat, 2);
    }
}

/// Services with different digests have different sockets in the same directory.
pub proof fn law_socket_path_is_specific(a: Seq<u8>, b: Seq<u8>, uid: u32)
    requires
        sha256_digest(a).take(16) != sha256_digest(b).take(16),
    ensures
        socket_of(a, uid) != socket_of(b, uid),
        socket_of(a, uid).take(socket_root(uid).len() as int) == socket_root(uid),
        socket_of(b, uid).take(socket_root(uid).len() as int) == socket_root(uid),
{
    let da = hex_text(sha256_digest(a).take(16));
    let db = hex_text(sha256_digest(b).take(16));
    let head = socket_root(uid) + "/"@;
    let tail = ".sock"@;
    if socket_of(a, uid) == socket_of(b, uid) {
        let s = socket_of(a, uid);
        assert(s.subrange(head.len() as int, s.len() - tail.len()) =~= da);
        assert(s.subrange(head.len() as int, s.len() - tail.len()) =~= db);
        law_hex_text_is_injective(sha256_digest(a).take(16), sha256_digest(b).take(16));
    }
    assert(socket_of(a, uid).take(socket_root(uid).len() as int) =~= socket_root(uid));
    assert(socket_of(b, uid).take(socket_root(uid).len() as int) =~= socket_root(uid));
}

/// The files of the service are where the first of these says: the directory that it is told, its
/// own directory among the user's runtime files, its own directory for this user among the
/// temporary files.
pub proof fn law_service_directory_is_chosen(environment: Environment)
    ensures
        environment.runtime_dir matches Some(path) ==> service_directory(environment) == path@,
        environment.runtime_dir is None ==> (environment.xdg_runtime_dir matches Some(path)
            ==> service_directory(environment) == below(path@, "opencode-pty"@)),
        environment.runtime_dir is None && environment.xdg_runtime_dir is None
            ==> service_directory(environment) == below(
            environment.temp_dir@,
            "opencode-pty-"@ + decimal(environment.uid as nat),
        ),
{
}

/// A path below a directory is the directory, one separator, and the name.
pub proof fn law_paths_are_joined_by_one_separator(directory: Seq<u8>, name: Seq<char>)
    ensures
        directory.len() == 0 ==> below(directory, name) == encode_utf8(name),
        directory.len() > 0 && directory.last() != 47 ==> below(directory, name) == directory
            + seq![47u8] + encode_utf8(name),
        below(directory.push(47), name) == directory + seq![47u8] + encode_utf8(name),
{
    assert(directory.len() == 0 ==> below(directory, name) =~= encode_utf8(name));
    assert(directory.push(47) =~= directory + seq![47u8]);
}

/// A socket is named by the first half of the digest of its service's directory, two digits for each
/// byte, in the directory of its user.
pub proof fn law_sockets_are_named_by_digest(directory: Seq<u8>, uid: u32, i: int)
    requires
        sha256_digest(directory).len() == 32,
        0 <= i < 16,
    ensures
        ({
            let path = socket_of(directory, uid);
            let root = "/tmp/opencode-pty-"@ + decimal(uid as nat) + "/"@;
            let digits = path.skip(root.len() as int).take(32);
            let byte = sha256_digest(directory)[i];
            &&& path == root + digits + ".sock"@
            &&& digits.len() == 32
            &&& digits[2 * i] == "0123456789abcdef"@[byte as int / 16]
            &&& digits[2 * i + 1] == "0123456789abcdef"@[byte as int % 16]
        }),
{
    let half = sha256_digest(directory).take(16);
    let path = socket_of(directory, uid);
    let root = "/tmp/opencode-pty-"@ + decimal(uid as nat) + "/"@;
    lemma_hex_text_length(half);
    lemma_hex_text_digits(half, i);
    reveal_strlit(".sock");
    assert(path =~= root + hex_text(half) + ".sock"@);
    assert(path.skip(root.len() as int).take(32) =~= hex_text(half));
    assert(half[i] == sha256_digest(directory)[i]);
}

proof fn lemma_hex_text_digits(bytes: Seq<u8>, i: int)
    requires
        0 <= i < bytes.len(),
    ensures
        hex_text(bytes).len() == 2 * bytes.len(),
        hex_text(bytes)[2 * i] == "0123456789abcdef"@[bytes[i] as int / 16],
        hex_text(bytes)[2 * i + 1] == "0123456789abcdef"@[bytes[i] as int % 16],
    decreases bytes.len(),
{
    lemma_hex_text_length(bytes);
    lemma_hex_text_length(bytes.drop_last());
    lemma_byte_digits(bytes.last());
    reveal_strlit("0123456789abcdef");
    if i < bytes.len() - 1 {
        lemma_hex_text_digits(bytes.drop_last(), i);
        assert(bytes.drop_last()[i] == bytes[i]);
    }
}

} // verus!
