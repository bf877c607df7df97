use chrono::{Datelike, Duration, Timelike, Utc};
use dcf77_chrono::{from_dcf77, to_dcf77, CivilDateTime, DCF77};

#[test]
fn test_process_day_of_week() {
    for fake_input in 1..=7u32 {
        let test_date = DCF77 {
            date: CivilDateTime::from_calendar(21, 11, fake_input, 10, 10).unwrap(),
            antenna: false,
            announce_daily_saving_time: false,
            daily_saving_time: false,
            standard_time: false,
            bit_leap_second: false,
        };
        match to_dcf77(test_date) {
            Ok(coded_day_of_week) => match from_dcf77(coded_day_of_week) {
                Ok(decoded_day_of_week) => {
                    assert!(test_date.date == decoded_day_of_week.date)
                }
                Err(error) => {
                    println!("Error on decoding the dcf77 {:?}", error);
                }
            },
            Err(error) => {
                println!("Error on creating the dcf77 {:?}", error);
            }
        }
    }
}

#[test]
fn test_process_day() {
    for fake_input in 1..=30u32 {
        let test_date = DCF77 {
            date: CivilDateTime::from_calendar(21, 11, fake_input, 10, 10).unwrap(),
            antenna: false,
            announce_daily_saving_time: false,
            daily_saving_time: false,
            standard_time: false,
            bit_leap_second: false,
        };
        match to_dcf77(test_date) {
            Ok(coded_date) => match from_dcf77(coded_date) {
                Ok(decoded_date) => {
                    assert!(test_date.date == decoded_date.date)
                }
                Err(error) => {
                    println!("Error on decoding the dcf77 {:?}", error);
                }
            },
            Err(error) => {
                println!("Error on creating the dcf77 {:?}", error);
            }
        }
    }
}

#[test]
fn test_process_month() {
    for fake_input in 1..=12u32 {
        let test_date = DCF77 {
            date: CivilDateTime::from_calendar(21, fake_input, 12, 21, 10).unwrap(),
            antenna: false,
            announce_daily_saving_time: false,
            daily_saving_time: false,
            standard_time: false,
            bit_leap_second: false,
        };
        match to_dcf77(test_date) {
            Ok(coded_date) => match from_dcf77(coded_date) {
                Ok(decoded_date) => {
                    assert!(test_date.date == decoded_date.date)
                }
                Err(input) => {
                    println!("Error on decoding date: {:?}", input);
                }
            },
            Err(coded_date) => {
                println!("Error on coding date: {:?}", coded_date);
            }
        }
    }
}

#[test]
fn test_process_year() {
    for fake_input in 0..=0xfffi32 {
        let test_date = DCF77 {
            date: CivilDateTime::from_calendar(fake_input, 10, 10, 21, 10).unwrap(),
            antenna: false,
            announce_daily_saving_time: false,
            daily_saving_time: false,
            standard_time: false,
            bit_leap_second: false,
        };
        match to_dcf77(test_date) {
            Ok(coded_date) => match from_dcf77(coded_date) {
                Ok(decoded_date) => {
                    assert!(test_date.date == decoded_date.date)
                }
                Err(error) => {
                    println!("Error on decoding date: {:?}", error);
                }
            },
            Err(error) => {
                println!("Error on coding date: {:?}", error);
            }
        }
    }
}

#[test]
fn test_process_minutes() {
    let now = Utc::now();
    let original_test_time = now - Duration::minutes(now.time().minute().into());
    for fake_input in 0..=0xffi64 {
        let shifted = original_test_time + Duration::minutes(fake_input);
        let test_time = DCF77 {
            date: CivilDateTime::from_calendar(
                shifted.year(),
                shifted.month(),
                shifted.day(),
                shifted.hour(),
                shifted.minute(),
            )
            .unwrap(),
            antenna: false,
            announce_daily_saving_time: false,
            daily_saving_time: false,
            standard_time: false,
            bit_leap_second: false,
        };
        match to_dcf77(test_time) {
            Ok(coded_minutes) => match from_dcf77(coded_minutes) {
                Ok(decoded_minutes) => {
                    assert!(
                        test_time.date.hour == decoded_minutes.date.hour
                            && test_time.date.minute == decoded_minutes.date.minute
                    )
                }
                Err(input) => {
                    println!(
                        "Error on decoding {:} - 0x{:X} to dcf77 {:?}",
                        fake_input, coded_minutes, input
                    );
                }
            },
            Err(coded_hour) => {
                println!("Error on creating the dcf77 {:?}", coded_hour);
            }
        }
    }
}

#[test]
fn test_process_hour() {
    let now = Utc::now();
    let original_test_time = now - Duration::hours(now.time().hour().into());
    for fake_input in 0..=0xffi64 {
        let shifted = original_test_time + Duration::hours(fake_input);
        let test_time = DCF77 {
            date: CivilDateTime::from_calendar(
                shifted.year(),
                shifted.month(),
                shifted.day(),
                shifted.hour(),
                shifted.minute(),
            )
            .unwrap(),
            antenna: false,
            announce_daily_saving_time: false,
            daily_saving_time: false,
            standard_time: false,
            bit_leap_second: false,
        };
        match to_dcf77(test_time) {
            Ok(coded_hour) => match from_dcf77(coded_hour) {
                Ok(decoded_hour) => {
                    assert!(
                        test_time.date.hour == decoded_hour.date.hour
                            && test_time.date.minute == decoded_hour.date.minute
                    )
                }
                Err(input) => {
                    println!(
                        "Error on decoding {:} - 0x{:X} to dcf77 {:?}",
                        fake_input, coded_hour, input
                    );
                }
            },
            Err(coded_hour) => {
                println!("Error on creating the dcf77 {:?}", coded_hour);
            }
        }
    }
}
