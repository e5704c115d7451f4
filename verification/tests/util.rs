use crescent::util::get_uptime_from_seconds;

#[test]
fn unit_get_uptime_from_seconds() {
    let mut secs: u64 = 1;

    assert_eq!(get_uptime_from_seconds(secs), "1 second");
    secs = 30;
    assert_eq!(get_uptime_from_seconds(secs), "30 seconds");
    secs = 60;
    assert_eq!(get_uptime_from_seconds(secs), "1 minute");
    secs = 1800;
    assert_eq!(get_uptime_from_seconds(secs), "30 minutes");
    secs = 3600;
    assert_eq!(get_uptime_from_seconds(secs), "1 hour");
    secs = 43200;
    assert_eq!(get_uptime_from_seconds(secs), "12 hours");
    secs = 86400;
    assert_eq!(get_uptime_from_seconds(secs), "1 day");
    secs = 604_800;
    assert_eq!(get_uptime_from_seconds(secs), "7 days");
}

#[test]
fn uptime_of_zero_seconds() {
    assert_eq!(get_uptime_from_seconds(0), "0 second");
}

#[test]
fn uptime_just_below_each_unit() {
    assert_eq!(get_uptime_from_seconds(59), "59 seconds");
    assert_eq!(get_uptime_from_seconds(3599), "59 minutes");
    assert_eq!(get_uptime_from_seconds(86399), "23 hours");
    assert_eq!(get_uptime_from_seconds(172_800), "2 days");
}
