//! Building blocks of a loader for hardware-isolated execution environments
//! ("Keeps") and of the in-Keep shim that proxies the payload's system calls
//! to the untrusted host.
//!
//! The crate covers the logic of that proxy: the shared syscall [`block`],
//! the untrusted-pointer discipline ([`untrusted`]), the shim-side syscall
//! dispatcher ([`syscall`]), the per-architecture entry/exit state machines,
//! the Keep builders' bookkeeping, and the boot-time memory-layout algebra
//! ([`bootinfo`]).  The device and socket edges around this logic (KVM and
//! SEV ioctls, enclave entry, netlink sockets) live with the embedding
//! program, which drives these state machines and performs the I/O they
//! decide on.

pub mod backend;
pub mod block;
pub mod bootinfo;
pub mod cpuid_page;
pub mod kvm;
pub mod netlink;
pub mod sev_build;
pub mod sgx;
pub mod sgx_build;
pub mod sgx_host;
pub mod snp;
pub mod span;
pub mod subnet;
pub mod syscall;
pub mod untrusted;
