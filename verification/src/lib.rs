//! Sans-I/O core of a telemetry recorder for pages reached over a remote
//! debugging protocol: the connection state machine, the request correlation
//! table, and the text and record handling around them.
//!
//! The library starts no process, opens no socket and touches no database. A
//! driver does that, reports what happened, and is told what to do next.
//!
//! Numbers that the protocol reports as decimal fractions (timestamps in
//! seconds, byte counts, counter samples) are kept as whole counts of
//! millionths, so that every computation here is exact integer arithmetic.
//!
//! * [`cdp`]: the connection manager, the metrics engine and the rule that
//!   joins the events of a request's life;
//! * [`adb`]: the commands of the device bridge and the reading of their
//!   output;
//! * [`storage`]: sessions, stored records, and the statements of the store;
//! * [`procedures`]: the decisions of the command layer;
//! * [`text`], [`json`], [`host`]: what the others share.

pub mod adb;
pub mod cdp;
pub mod host;
pub mod json;
pub mod procedures;
pub mod storage;
pub mod text;
