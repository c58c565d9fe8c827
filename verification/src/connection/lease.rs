//! Leases: how many requests a requester may send, and until when.
use crate::error::{Error, ErrorView, Kind};
use crate::frame::codec::LeaseFrame;
use vstd::prelude::*;

verus! {

/// The lease that a requester holds. Time is counted in milliseconds from a
/// start that the caller chooses.
#[derive(Debug, Clone, Copy, PartialEq, Eq, Structural)]
pub struct Lease {
    /// Whether the connection was set up to honor leases. Where it was not,
    /// every request may be sent.
    pub enabled: bool,
    /// How many requests may still be sent under the lease.
    pub requests: u32,
    /// The time at which the lease ends.
    pub expires_at: u64,
}

impl Lease {
    /// Whether a request may be sent at time `now`.
    pub open spec fn permits(self, now: u64) -> bool {
        !self.enabled || (self.requests > 0 && now < self.expires_at)
    }

    /// The lease of a fresh connection: where leases are honored, no
    /// request may be sent until the responder grants some.
    pub fn new(enabled: bool) -> (r: Lease)
        ensures
            r == (Lease { enabled, requests: 0, expires_at: 0 }),
    {
        Lease { enabled, requests: 0, expires_at: 0 }
    }

    /// Takes a lease that came from the responder at time `now`: it grants
    /// `number_of_requests` requests for `ttl` milliseconds from now on, and
    /// takes the place of the lease that was held.
    pub fn on_lease(&mut self, ttl: u32, number_of_requests: u32, now: u64)
        ensures
            final(self).enabled == old(self).enabled,
            final(self).requests == number_of_requests,
            final(self).expires_at == if now + ttl <= u64::MAX {
                (now + ttl) as u64
            } else {
                u64::MAX
            },
    {
        self.requests = number_of_requests;
        self.expires_at = now.saturating_add(ttl as u64);
    }

    /// Asks to send one request at time `now`. Where the lease permits it,
    /// the request is counted. Where it does not, the request is turned
    /// down here with the error REJECTED, and nothing is to be sent.
    pub fn acquire(&mut self, now: u64) -> (r: Result<(), Error>)
        ensures
            r is Ok <==> old(self).permits(now),
            r is Ok ==> *final(self) == (Lease {
                requests: if old(self).enabled {
                    (old(self).requests - 1) as u32
                } else {
                    old(self).requests
                },
                ..*old(self)
            }),
            r matches Err(e) ==> *final(self) == *old(self) && e@ == (ErrorView {
                kind: Kind::Rejected,
                source: None,
            }),
    {
        if !self.enabled {
            return Ok(());
        }
        if self.requests > 0 && now < self.expires_at {
            self.requests = self.requests - 1;
            Ok(())
        } else {
            Err(Error::new(Kind::Rejected, None))
        }
    }
}

/// Takes a LEASE frame that came at time `now`: see `Lease::on_lease`.
pub fn on_lease_frame(lease: &mut Lease, frame: &LeaseFrame, now: u64)
    ensures
        final(lease).enabled == old(lease).enabled,
        final(lease).requests == frame@.number_of_requests,
        final(lease).expires_at == if now + frame@.ttl <= u64::MAX {
            (now + frame@.ttl) as u64
        } else {
            u64::MAX
        },
{
    lease.on_lease(frame.ttl_millis(), frame.number_of_requests(), now);
}

} // verus!
