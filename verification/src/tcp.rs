//! The decisions of a TCP connect check: the address dialled, the time
//! allowed, and what a connection attempt reports.

use crate::models::TcpResult;
use crate::text::{decimal, push_decimal};
use vstd::prelude::*;

verus! {

/// How long a connection attempt may take before it counts as failed, in
/// milliseconds.
pub const TCP_CONNECT_TIMEOUT_MS: u64 = 10_000;

/// What became of a connection attempt.
#[derive(Debug, Clone, Copy, PartialEq, Eq)]
pub enum ConnectOutcome {
    /// The connection was established after `elapsed_ms` milliseconds.
    Connected { elapsed_ms: u64 },
    /// The attempt failed after `elapsed_ms` milliseconds.
    Failed { elapsed_ms: u64 },
    /// The attempt did not finish within the timeout.
    TimedOut,
}

/// The address dialled for `target` and `port`: `target:port`.
pub open spec fn address_of(target: Seq<char>, port: u16) -> Seq<char> {
    target + ":"@ + decimal(port as nat)
}

/// The address dialled is the target, a colon, and the port in decimal, so
/// the port can be read back from the end of the address.
pub proof fn lemma_address(target: Seq<char>, port: u16)
    ensures
        address_of(target, port) == target + seq![':'] + decimal(port as nat),
        address_of(target, port).take(target.len() as int) == target,
        crate::text::digits_value(
            address_of(target, port).skip((target.len() + 1) as int),
        ) == port,
{
    reveal_strlit(":");
    assert(":"@ =~= seq![':']);
    crate::text::lemma_decimal(port as nat);
    assert(address_of(target, port).take(target.len() as int) =~= target);
    assert(address_of(target, port).skip((target.len() + 1) as int) =~= decimal(port as nat));
}

/// The address to dial for `target` and `port`.
pub fn connect_address(target: &str, port: u16) -> (r: String)
    ensures
        r@ == address_of(target@, port),
{
    let mut r = target.to_owned();
    r.append(":");
    push_decimal(&mut r, port as u64);
    r
}

/// What a connection attempt to `port` reports: success only for an
/// established connection; the elapsed time, or the whole timeout when the
/// attempt timed out.
pub fn tcp_result(port: u16, outcome: ConnectOutcome) -> (r: TcpResult)
    ensures
        r.port == port,
        r.success == outcome is Connected,
        r.duration_ms == match outcome {
            ConnectOutcome::Connected { elapsed_ms } => elapsed_ms,
            ConnectOutcome::Failed { elapsed_ms } => elapsed_ms,
            ConnectOutcome::TimedOut => TCP_CONNECT_TIMEOUT_MS,
        },
{
    match outcome {
        ConnectOutcome::Connected { elapsed_ms } => TcpResult {
            port,
            success: true,
            duration_ms: elapsed_ms,
        },
        ConnectOutcome::Failed { elapsed_ms } => TcpResult {
            port,
            success: false,
            duration_ms: elapsed_ms,
        },
        ConnectOutcome::TimedOut => TcpResult {
            port,
            success: false,
            duration_ms: TCP_CONNECT_TIMEOUT_MS,
        },
    }
}

} // verus!
