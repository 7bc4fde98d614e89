use lessons::conversion::embedded_rtc::{lesson_3, Weekday};
use lessons::conversion::{lesson_1, lesson_2, runner};

#[test]
fn lessons_succeed() {
    assert_eq!(lesson_1(), Ok(()));
    assert_eq!(lesson_2(), Ok(()));
    assert_eq!(lesson_3(), Ok(()));
    assert_eq!(runner(), Ok(()));
}

#[test]
fn tuesday_from_its_bit() {
    let weekday_num = 4 as u8;
    let weekday = Weekday::from(weekday_num);
    let weekday_value = weekday.value();
    assert_eq!(weekday_value, 4);
    assert_eq!(weekday.to_s(), "Tuesday");
    assert_eq!(weekday.to_short().unwrap(), "Tue");
}

#[test]
fn every_day_reads_back() {
    let days = [
        (1u8, Weekday::Sunday, "Sunday", "Sun"),
        (2, Weekday::Monday, "Monday", "Mon"),
        (4, Weekday::Tuesday, "Tuesday", "Tue"),
        (8, Weekday::Wednesday, "Wednesday", "Wed"),
        (16, Weekday::Thursday, "Thursday", "Thu"),
        (32, Weekday::Friday, "Friday", "Fri"),
        (64, Weekday::Saturday, "Saturday", "Sat"),
    ];
    for (bit, day, name, short) in days {
        assert_eq!(Weekday::from(bit), day);
        assert_eq!(day.value(), bit);
        assert_eq!(day.to_s(), name);
        assert_eq!(day.to_short(), Ok(String::from(short)));
    }
}

#[test]
fn other_registers_read_as_sunday() {
    assert_eq!(Weekday::from(0), Weekday::Sunday);
    assert_eq!(Weekday::from(3), Weekday::Sunday);
    assert_eq!(Weekday::from(128), Weekday::Sunday);
    assert_eq!(Weekday::from(255), Weekday::Sunday);
}
