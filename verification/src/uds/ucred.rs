//! Credentials of the peer of a connected interprocess stream socket.
//!
//! The operating system is asked in one of two ways, fixed when the program
//! is built: through a socket option that fills in a credential structure,
//! or through a primitive that writes the two ids. The asking is left to the
//! caller. What is decided here is whether the answer can be believed, and
//! what the credentials then are.

use libc::{c_int, gid_t, socklen_t, uid_t};
use vstd::prelude::*;

verus! {

/// Credentials of a process.
#[derive(Copy, Clone, Eq, PartialEq, Hash, Debug)]
pub struct UCred {
    /// UID (user ID) of the process
    pub uid: uid_t,
    /// GID (group ID) of the process
    pub gid: gid_t,
}

/// Why a lookup gave no credentials.
#[derive(Copy, Clone, Eq, PartialEq, Debug)]
pub enum LookupError {
    /// The operating system reported a failure: the socket is not connected,
    /// is no stream socket, or the call was denied.
    Refused,
    /// The operating system filled in a structure of a size other than the
    /// native one, so the ids in it cannot be trusted.
    SizeMismatch,
}

/// What the option-based lookup comes to.
pub open spec fn spec_from_option(
    status: int,
    reported_len: int,
    native_size: int,
    uid: uid_t,
    gid: gid_t,
) -> Result<UCred, LookupError> {
    if status != 0 {
        Err(LookupError::Refused)
    } else if reported_len != native_size {
        Err(LookupError::SizeMismatch)
    } else {
        Ok(UCred { uid, gid })
    }
}

/// What the lookup by the dedicated primitive comes to.
pub open spec fn spec_from_peer_ids(status: int, uid: uid_t, gid: gid_t) -> Result<
    UCred,
    LookupError,
> {
    if status != 0 {
        Err(LookupError::Refused)
    } else {
        Ok(UCred { uid, gid })
    }
}

/// The length to announce for a credential structure of `native_size`
/// bytes, or `None` where that size cannot be written as an option length.
pub fn option_len(native_size: usize) -> (len: Option<socklen_t>)
    ensures
        native_size <= socklen_t::MAX ==> len == Some(native_size as socklen_t),
        native_size > socklen_t::MAX ==> len.is_none(),
{
    if native_size <= socklen_t::MAX as usize {
        Some(native_size as socklen_t)
    } else {
        None
    }
}

/// Judges the answer to a peer-credential socket option.
///
/// `status` is what the query returned, `reported_len` the length that the
/// system wrote back, `native_size` the size of the native credential
/// structure, and `uid` and `gid` the ids found in the structure. The ids
/// are believed only if the query succeeded and the system filled in a
/// structure of exactly the native size.
pub fn from_option(
    status: c_int,
    reported_len: socklen_t,
    native_size: usize,
    uid: uid_t,
    gid: gid_t,
) -> (r: Result<UCred, LookupError>)
    ensures
        r == spec_from_option(status as int, reported_len as int, native_size as int, uid, gid),
{
    if status != 0 {
        Err(LookupError::Refused)
    } else if reported_len as usize != native_size {
        Err(LookupError::SizeMismatch)
    } else {
        Ok(UCred { uid, gid })
    }
}

/// Judges the answer of the primitive that writes the peer's two ids.
///
/// `status` is what the primitive returned, and `uid` and `gid` what it
/// wrote. Any status but zero is a failure.
pub fn from_peer_ids(status: c_int, uid: uid_t, gid: gid_t) -> (r: Result<UCred, LookupError>)
    ensures
        r == spec_from_peer_ids(status as int, uid, gid),
{
    if status != 0 {
        Err(LookupError::Refused)
    } else {
        Ok(UCred { uid, gid })
    }
}

/// The two ways of asking come to one answer. Where the system reports a
/// failure both refuse, whatever else came back; and where the option-based
/// lookup is handed a structure of the native size, it yields what the
/// primitive yields for the same status and ids.
pub proof fn lemma_the_strategies_agree(
    status: int,
    reported_len: int,
    native_size: int,
    uid: uid_t,
    gid: gid_t,
)
    ensures
        status != 0 ==> spec_from_option(status, reported_len, native_size, uid, gid)
            == spec_from_peer_ids(status, uid, gid),
        reported_len == native_size ==> spec_from_option(
            status,
            reported_len,
            native_size,
            uid,
            gid,
        ) == spec_from_peer_ids(status, uid, gid),
{
}

/// Credentials come out of a lookup only as the system wrote them: a lookup
/// that succeeds yields exactly the two ids it was handed, and it succeeds
/// only on a status of zero.
pub proof fn lemma_credentials_are_the_systems(
    status: int,
    reported_len: int,
    native_size: int,
    uid: uid_t,
    gid: gid_t,
    cred: UCred,
)
    requires
        spec_from_option(status, reported_len, native_size, uid, gid) == Ok::<UCred, LookupError>(
            cred,
        ) || spec_from_peer_ids(status, uid, gid) == Ok::<UCred, LookupError>(cred),
    ensures
        status == 0,
        cred.uid == uid,
        cred.gid == gid,
{
}

} // verus!
