use lonis::time::civil_time;

#[test]
fn epoch_is_the_first_of_january_1970() {
    let t = civil_time(0);
    assert_eq!((t.year, t.month, t.day, t.hour, t.minute, t.second), (1970, 1, 1, 0, 0, 0));
}

#[test]
fn leap_day_of_2000() {
    let t = civil_time(951_782_400);
    assert_eq!((t.year, t.month, t.day), (2000, 2, 29));
    let next = civil_time(951_782_400 + 86_400);
    assert_eq!((next.year, next.month, next.day), (2000, 3, 1));
}

#[test]
fn a_known_instant() {
    let t = civil_time(1_700_000_000);
    assert_eq!((t.year, t.month, t.day, t.hour, t.minute, t.second), (2023, 11, 14, 22, 13, 20));
}

#[test]
fn last_second_of_a_year() {
    let t = civil_time(1_704_067_199);
    assert_eq!((t.year, t.month, t.day, t.hour, t.minute, t.second), (2023, 12, 31, 23, 59, 59));
}
