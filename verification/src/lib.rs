//! Host/guest bridge runtime for a sandboxed edge-caching guest module.
//!
//! The guest reacts to lifecycle events delivered by the edge host and to
//! ad hoc named invocations.  Everything it can do to the outside world goes
//! through a narrow numeric syscall interface: header-field access over four
//! scopes, a terminal response hand-off ("forge"), host-delegated memory, and
//! a couple of leaf utilities (base64, token verification).
//!
//! `syscalls` pins the numeric opcode contract with the host; `sysalloc`
//! models the host-delegated allocator and bulk-memory primitives; `varnish`
//! holds the header-field access protocol and the request-lifecycle state
//! machine; `tokens` wraps the signed-claim-set collaborator; `guest` holds
//! the module's own handlers and named exports.

pub mod cbor;
pub mod guest;
pub mod sysalloc;
pub mod syscalls;
pub mod tokens;
pub mod varnish;
