use curve_launchpad::errors::CurveLaunchpadError;
use curve_launchpad::rate_limiter::{transfer_hook, UserTransferData};

#[test]
fn test_five_transfers_succeed_sixth_is_limited_until_window_elapses() {
    let mut data = UserTransferData::default();

    // Five transfers inside one 3600 s window, each respecting the 300 s
    // cooldown, all succeed.
    let times = [1000, 1300, 1600, 1900, 2200];
    for now in times {
        assert!(transfer_hook(&mut data, now).is_ok());
    }
    assert_eq!(data.transfers_in_last_hour, 5);
    assert_eq!(data.hour_start_timestamp, 1000);
    assert_eq!(data.last_transfer_timestamp, 2200);

    // The sixth inside the same window is refused and changes nothing.
    let r = transfer_hook(&mut data, 2500);
    assert_eq!(r.unwrap_err(), CurveLaunchpadError::RateLimited);
    assert_eq!(data.transfers_in_last_hour, 5);
    assert_eq!(data.hour_start_timestamp, 1000);
    assert_eq!(data.last_transfer_timestamp, 2200);

    // Once the window has elapsed the counter resets and the next transfer
    // succeeds, opening a fresh window.
    assert!(transfer_hook(&mut data, 4600).is_ok());
    assert_eq!(data.transfers_in_last_hour, 1);
    assert_eq!(data.hour_start_timestamp, 4600);
    assert_eq!(data.last_transfer_timestamp, 4600);
}

#[test]
fn test_cooldown_blocks_rapid_transfers() {
    let mut data = UserTransferData::default();
    assert!(transfer_hook(&mut data, 1000).is_ok());

    let r = transfer_hook(&mut data, 1299);
    assert_eq!(r.unwrap_err(), CurveLaunchpadError::RateLimited);
    assert_eq!(data.last_transfer_timestamp, 1000);
    assert_eq!(data.transfers_in_last_hour, 1);

    assert!(transfer_hook(&mut data, 1300).is_ok());
    assert_eq!(data.transfers_in_last_hour, 2);
    // The window keeps its original start.
    assert_eq!(data.hour_start_timestamp, 1000);
}

#[test]
fn test_fresh_record_waits_out_the_epoch_cooldown() {
    // A fresh record carries timestamp zero, so a transfer within the first
    // cooldown period of the epoch is refused.
    let mut data = UserTransferData::default();
    let r = transfer_hook(&mut data, 299);
    assert_eq!(r.unwrap_err(), CurveLaunchpadError::RateLimited);
    assert!(transfer_hook(&mut data, 300).is_ok());
}
