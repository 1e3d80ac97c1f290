use crate::error::DemoniteErr;
use vstd::prelude::*;
use vstd::string::{StrSliceExecFns, StringExecFns};

verus! {

/// The environment variable that names the runtime base directory.
pub const RUNTIME_DIR_VAR: &'static str = "XDG_RUNTIME_DIR";

/// The sub-directory of the runtime base directory that holds the sockets.
pub const PROTOCOL_DIR: &'static str = "demonite";

/// The only permission bits that the runtime base directory may have.
pub const OWNER_ONLY: u32 = 0o700;

/// The permission bits of a file mode: the low twelve bits.
pub open spec fn perm_bits(mode: u32) -> u32 {
    mode & 0o7777
}

/// `comp` appended to the path `base`, with one separator between them unless
/// `base` is empty or already ends in one.
pub open spec fn join(base: Seq<char>, comp: Seq<char>) -> Seq<char> {
    if base.len() == 0 || base.last() == '/' {
        base + comp
    } else {
        base + seq!['/'] + comp
    }
}

/// The directory that holds the sockets, under the runtime base directory.
pub open spec fn protocol_dir(runtime_dir: Seq<char>) -> Seq<char> {
    join(runtime_dir, PROTOCOL_DIR@)
}

/// Where the service named `service` listens.
pub open spec fn socket_path(runtime_dir: Seq<char>, service: Seq<char>) -> Seq<char> {
    join(protocol_dir(runtime_dir), service)
}

/// Appends the path component `comp` to `base`.
pub fn join_path(base: &str, comp: &str) -> (r: String)
    ensures
        r@ == join(base@, comp@),
{
    let n = base.unicode_len();
    let start = String::from_str(base);
    if n == 0 || base.get_char(n - 1) == '/' {
        start.concat(comp)
    } else {
        proof {
            reveal_strlit("/");
        }
        start.concat("/").concat(comp)
    }
}

/// The directory that holds the sockets, under `runtime_dir`.
pub fn protocol_dir_path(runtime_dir: &str) -> (r: String)
    ensures
        r@ == protocol_dir(runtime_dir@),
{
    join_path(runtime_dir, PROTOCOL_DIR)
}

/// Where the service named `service` listens, under `runtime_dir`.
pub fn socket_path_in(runtime_dir: &str, service: &str) -> (r: String)
    ensures
        r@ == socket_path(runtime_dir@, service@),
{
    let dir = protocol_dir_path(runtime_dir);
    join_path(dir.as_str(), service)
}

/// The runtime base directory from the outcome of reading its variable: the
/// value, or `EnvVar` with the reason it could not be read.
pub fn runtime_dir(var: Result<String, String>) -> (r: Result<String, DemoniteErr>)
    ensures
        match var {
            Ok(d) => r matches Ok(x) && x@ == d@,
            Err(m) => r matches Err(DemoniteErr::EnvVar(x)) && x@ == m@,
        },
{
    match var {
        Ok(d) => Ok(d),
        Err(m) => Err(DemoniteErr::EnvVar(m)),
    }
}

/// Where the service named `service` listens, from the outcome of reading the
/// runtime directory variable.
pub fn resolve_socket_path(var: Result<String, String>, service: &str) -> (r: Result<
    String,
    DemoniteErr,
>)
    ensures
        match var {
            Ok(d) => r matches Ok(p) && p@ == socket_path(d@, service@),
            Err(m) => r matches Err(DemoniteErr::EnvVar(x)) && x@ == m@,
        },
{
    let dir = runtime_dir(var)?;
    Ok(socket_path_in(dir.as_str(), service))
}

/// Validates the runtime base directory: it must exist, and its permission
/// bits must be exactly owner-only.
pub fn check_runtime_dir(exists: bool, mode: u32) -> (r: Result<(), DemoniteErr>)
    ensures
        !exists ==> r == Err::<(), DemoniteErr>(DemoniteErr::XdgRuntimeDirMissing),
        exists && perm_bits(mode) != OWNER_ONLY ==> r == Err::<(), DemoniteErr>(
            DemoniteErr::XdgRuntimeDirInvPerm(perm_bits(mode)),
        ),
        exists && perm_bits(mode) == OWNER_ONLY ==> r is Ok,
{
    if !exists {
        return Err(DemoniteErr::XdgRuntimeDirMissing);
    }
    let bits = mode & 0o7777;
    if bits != OWNER_ONLY {
        return Err(DemoniteErr::XdgRuntimeDirInvPerm(bits));
    }
    Ok(())
}

} // verus!
