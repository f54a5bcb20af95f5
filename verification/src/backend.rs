//! What all backends share: platform probing data, the command a paused
//! thread hands the outer loop, and the host executor's reply rule.

use vstd::prelude::*;

use crate::block::{Reply, Request, SYS_ENARX_BASE};

verus! {

/// A single piece of data about the host's support for a backend.
#[derive(Debug)]
pub struct Datum {
    /// The name of this datum.
    pub name: String,
    /// Whether the datum indicates support for the platform.
    pub pass: bool,
    /// Short additional information to display to the user.
    pub info: Option<String>,
    /// Longer explanatory message on how to resolve problems.
    pub mesg: Option<String>,
}

/// Why a thread paused: the block carries a Linux syscall for the host
/// executor, or everything was already answered and the Keep just needs to
/// be re-entered.
#[derive(Clone, Copy, Debug, PartialEq, Eq, Structural)]
pub enum Command {
    /// The block carries a syscall to perform.
    SysCall,
    /// Nothing to do; continue into the Keep.
    Continue,
}

/// Why a thread could not continue.
#[derive(Clone, Copy, Debug, PartialEq, Eq, Structural)]
pub struct ThreadError;

/// One execution context inside a Keep.  Entering blocks until the Keep
/// yields; the command says what the outer loop must do about it.  Backends
/// implement this over their own entry mechanism.
pub trait Thread {
    /// Enter the Keep; return when it yields.
    fn enter(&mut self) -> Result<Command, ThreadError>;
}

/// Whether every datum passes: a backend is usable only when nothing it
/// probed is missing.
pub fn have(data: &Vec<Datum>) -> (r: bool)
    ensures
        r == forall|i: int| 0 <= i < data@.len() ==> (#[trigger] data@[i].pass),
{
    let mut i: usize = 0;
    while i < data.len()
        invariant
            i <= data@.len(),
            forall|j: int| 0 <= j < i ==> (#[trigger] data@[j].pass),
        decreases data@.len() - i,
    {
        if !data[i].pass {
            return false;
        }
        i += 1;
    }
    true
}

/// The datum reporting whether the KVM device node exists.
pub fn dev_kvm(dev_exists: bool) -> (r: Datum)
    ensures
        r.name@ == "Driver"@,
        r.pass == dev_exists,
        r.info matches Some(s) && s@ == "/dev/kvm"@,
        r.mesg is None,
{
    Datum { name: "Driver".to_owned(), pass: dev_exists, info: Some("/dev/kvm".to_owned()), mesg: None }
}

/// The datum reporting the KVM API version; only version 12 passes.
/// `rendered` is the version number already formatted for display.
pub fn kvm_version(version: Option<u32>, rendered: String) -> (r: Datum)
    ensures
        r.name@ == " API Version"@,
        r.pass <==> version == Some(12u32),
        version is Some ==> r.info == Some(rendered),
        version is None ==> r.info is None,
        r.mesg is None,
{
    let (pass, info) = match version {
        Some(v) => (v == 12, Some(rendered)),
        None => (false, None),
    };
    Datum { name: " API Version".to_owned(), pass, info, mesg: None }
}

/// The host executor's reply rule.
///
/// `raw` is what the host kernel returned for the request's syscall.  Linux
/// reports failure as a negated errno in `-4095..=-1`: that becomes the
/// reply's error word.  On success the first return register carries the
/// value; for a Linux syscall (the request number is below the internal
/// range) the second return register carries the request's third argument,
/// which the ABI obliges the proxy to preserve as `rdx`.
pub fn host_reply(req: &Request, raw: i64) -> (r: Reply)
    ensures
        -4095 <= raw < 0 ==> r.err == raw && r.ret@[0] == 0 && r.ret@[1] == 0,
        !(-4095 <= raw < 0) ==> r.err == 0 && r.ret@[0] == raw as u64 && r.ret@[1] == (
        if req.num < SYS_ENARX_BASE {
            req.arg@[2]
        } else {
            0u64
        }),
{
    if -4095 <= raw && raw < 0 {
        Reply { ret: [0, 0], err: raw as i32 }
    } else {
        let ret1 = if req.num < SYS_ENARX_BASE {
            req.arg[2]
        } else {
            0
        };
        Reply { ret: [raw as u64, ret1], err: 0 }
    }
}

} // verus!
