//! The per-actor transfer rate limiter: a sliding-window quota on token
//! movement, keyed by actor identity and created lazily on first use.

use vstd::prelude::*;
use crate::errors::CurveLaunchpadError;

verus! {

/// Seconds an actor must wait between two transfers.
pub const COOLDOWN_PERIOD: i64 = 300;

/// Transfers an actor may make within one window.
pub const MAX_TRANSFERS_PER_HOUR: u8 = 5;

/// Length of the quota window in seconds.
pub const ONE_HOUR: i64 = 3_600;

/// One actor's transfer record.
#[derive(Clone, Copy, Debug, PartialEq, Eq, Structural)]
pub struct UserTransferData {
    pub last_transfer_timestamp: i64,
    pub transfers_in_last_hour: u8,
    pub hour_start_timestamp: i64,
}

impl UserTransferData {
    /// Timestamps never precede the epoch and the counter never exceeds
    /// the quota: established at creation, preserved by every transfer.
    pub open spec fn well_formed(self) -> bool {
        &&& 0 <= self.last_transfer_timestamp
        &&& 0 <= self.hour_start_timestamp
        &&& self.transfers_in_last_hour <= MAX_TRANSFERS_PER_HOUR
    }
}

impl Default for UserTransferData {
    /// The record an actor starts with before their first transfer.
    fn default() -> (d: UserTransferData)
        ensures
            d == (UserTransferData {
                last_transfer_timestamp: 0,
                transfers_in_last_hour: 0,
                hour_start_timestamp: 0,
            }),
            d.well_formed(),
    {
        UserTransferData { last_transfer_timestamp: 0, transfers_in_last_hour: 0, hour_start_timestamp: 0 }
    }
}

/// Decide one token movement at time `now` against the actor's record.
///
/// The transfer is rejected while the cooldown since the last transfer
/// runs, and rejected once the quota for the current window is spent; a
/// spent quota resets when the window has elapsed. An allowed transfer
/// bumps the counter (starting a new window on the first transfer of one)
/// and stamps the record; a rejected one leaves the record untouched.
pub fn transfer_hook(data: &mut UserTransferData, now: i64) -> (r: Result<
    (),
    CurveLaunchpadError,
>)
    requires
        old(data).well_formed(),
        0 <= now,
    ensures
        final(data).well_formed(),
        now - old(data).last_transfer_timestamp < COOLDOWN_PERIOD ==> {
            &&& r == Err::<(), CurveLaunchpadError>(CurveLaunchpadError::RateLimited)
            &&& *final(data) == *old(data)
        },
        now - old(data).last_transfer_timestamp >= COOLDOWN_PERIOD
            && old(data).transfers_in_last_hour >= MAX_TRANSFERS_PER_HOUR
            && now - old(data).hour_start_timestamp < ONE_HOUR ==> {
            &&& r == Err::<(), CurveLaunchpadError>(CurveLaunchpadError::RateLimited)
            &&& *final(data) == *old(data)
        },
        now - old(data).last_transfer_timestamp >= COOLDOWN_PERIOD
            && old(data).transfers_in_last_hour >= MAX_TRANSFERS_PER_HOUR
            && now - old(data).hour_start_timestamp >= ONE_HOUR ==> {
            &&& r is Ok
            &&& *final(data) == (UserTransferData {
                last_transfer_timestamp: now,
                transfers_in_last_hour: 1,
                hour_start_timestamp: now,
            })
        },
        now - old(data).last_transfer_timestamp >= COOLDOWN_PERIOD
            && old(data).transfers_in_last_hour < MAX_TRANSFERS_PER_HOUR ==> {
            &&& r is Ok
            &&& final(data).last_transfer_timestamp == now
            &&& final(data).transfers_in_last_hour == old(data).transfers_in_last_hour + 1
            &&& final(data).hour_start_timestamp == (if old(data).transfers_in_last_hour == 0 {
                now
            } else {
                old(data).hour_start_timestamp
            })
        },
{
    if now - data.last_transfer_timestamp < COOLDOWN_PERIOD {
        return Err(CurveLaunchpadError::RateLimited);
    }

    if data.transfers_in_last_hour >= MAX_TRANSFERS_PER_HOUR {
        if now - data.hour_start_timestamp >= ONE_HOUR {
            data.transfers_in_last_hour = 0;
            data.hour_start_timestamp = now;
        } else {
            return Err(CurveLaunchpadError::RateLimited);
        }
    }

    data.last_transfer_timestamp = now;
    data.transfers_in_last_hour = data.transfers_in_last_hour + 1;
    if data.transfers_in_last_hour == 1 {
        data.hour_start_timestamp = now;
    }

    Ok(())
}

} // verus!
