//! Native-side bridge core for platform notification capture and
//! push-messaging state.
//!
//! The crate holds the decision logic of the bridge: which platform
//! operation each frontend command performs, what each command returns on
//! platforms that lack the capability, how the pending-notification queue
//! file is interpreted, how push-token and navigation values read from the
//! platform key-value store are normalized, and how the crash guard
//! composes its diagnostic log lines and falls back between durable log
//! locations. The platform calls themselves (the managed-runtime gateway,
//! file reads and writes, the process-wide fault hook) are performed by a
//! thin host layer around this crate, which feeds their outcomes back in
//! as plain values.

pub mod commands;
pub mod crashguard;
pub mod gateway;
pub mod queue;
pub mod record;
pub mod store;
pub mod text;
