use dcf77_chrono::dcf77::date::{
    code_day, code_day_of_the_week, code_month, code_year, process_day, process_day_of_week,
    process_month, process_year,
};
use dcf77_chrono::dcf77::hour::{code_hour, code_minutes, process_hour, process_minutes};
use dcf77_chrono::dcf77::{compute_pulse as masked_compute_pulse, create_pulse as masked_create_pulse};
use dcf77_chrono::pulse::{code_generic, compute_pulse, proof_parity};
use dcf77_chrono::{
    from_dcf77, to_dcf77, CivilDateTime, CodecError, FieldName, ParityError, RangeError, DCF77,
};

fn frame(date: CivilDateTime, daily_saving_time: bool) -> DCF77 {
    DCF77 {
        date,
        antenna: false,
        announce_daily_saving_time: false,
        daily_saving_time,
        standard_time: false,
        bit_leap_second: false,
    }
}

#[test]
fn minute_zero_encodes_to_an_empty_section() {
    assert_eq!(code_minutes(0), Ok(0));
    assert_eq!(process_minutes(0), Ok(0));
}

#[test]
fn minute_thirty_seven_packs_its_weights() {
    // 37 = 20 + 10 + 4 + 2 + 1: pulse bits 0x76, odd parity, parity bit 31.
    assert_eq!(code_minutes(37), Ok(0x7680000000));
    assert_eq!(process_minutes(0x7680000000), Ok(37));
}

#[test]
fn hour_twenty_four_is_refused() {
    assert_eq!(code_hour(24), Err(RangeError { value: 24, max_value: 24 }));
    assert_eq!(code_hour(30), Err(RangeError { value: 30, max_value: 24 }));
    assert!(code_hour(23).is_ok());
}

#[test]
fn full_frame_round_trip() {
    let date = CivilDateTime {
        year: 21,
        month: 11,
        day: 12,
        weekday: 5,
        hour: 10,
        minute: 15,
    };
    let input = frame(date, true);
    let carrier = to_dcf77(input).unwrap();
    assert_eq!(carrier, 0x0454854AC610);
    let decoded = from_dcf77(carrier).unwrap();
    assert_eq!(decoded, input);
}

#[test]
fn corrupted_hour_parity_is_tagged_hour() {
    let date = CivilDateTime {
        year: 21,
        month: 11,
        day: 12,
        weekday: 5,
        hour: 10,
        minute: 15,
    };
    let carrier = to_dcf77(frame(date, true)).unwrap();
    assert!(from_dcf77(carrier).is_ok());
    let corrupted = carrier ^ 0x1000000;
    assert_eq!(
        from_dcf77(corrupted),
        Err(CodecError { field: FieldName::Hour, reason: ParityError {} })
    );
}

#[test]
fn every_field_value_round_trips_alone() {
    for v in 0..60u32 {
        let c = code_minutes(v).unwrap();
        assert_eq!(process_minutes(c), Ok(v));
        assert_eq!(c & !0x7F80000000u64, 0);
    }
    for v in 0..24u32 {
        let c = code_hour(v).unwrap();
        assert_eq!(process_hour(c), Ok(v));
        assert_eq!(c & !0x7F000000u64, 0);
    }
    for v in 0..31u32 {
        let c = code_day(v).unwrap();
        assert_eq!(process_day(c), Ok(v));
        assert_eq!(c & !0xFC0000u64, 0);
    }
    for v in 0..7u8 {
        let c = code_day_of_the_week(v).unwrap();
        assert_eq!(process_day_of_week(c), Ok(v as u32));
        assert_eq!(c & !0x38000u64, 0);
    }
    for v in 0..12u32 {
        let c = code_month(v).unwrap();
        assert_eq!(process_month(c), Ok(v));
        assert_eq!(c & !0x7C00u64, 0);
    }
    for v in 0..166i32 {
        let c = code_year(v).unwrap();
        assert_eq!(process_year(c), Ok(v as u32));
        assert_eq!(c & !0x3FEu64, 0);
    }
}

#[test]
fn every_field_refuses_its_bound() {
    assert_eq!(code_minutes(60), Err(RangeError { value: 60, max_value: 60 }));
    assert!(code_minutes(59).is_ok());
    assert_eq!(code_day(31), Err(RangeError { value: 31, max_value: 31 }));
    assert!(code_day(30).is_ok());
    assert_eq!(
        code_day_of_the_week(7),
        Err(RangeError { value: 7, max_value: 7 })
    );
    assert!(code_day_of_the_week(6).is_ok());
    assert_eq!(code_month(12), Err(RangeError { value: 12, max_value: 12 }));
    assert!(code_month(11).is_ok());
    assert_eq!(code_year(166), Err(RangeError { value: 166, max_value: 166 }));
    assert!(code_year(165).is_ok());
}

#[test]
fn single_bit_flips_are_rejected() {
    let minute_carrier = code_minutes(37).unwrap();
    for b in 32..39u32 {
        assert_eq!(
            process_minutes(minute_carrier ^ (1u64 << b)),
            Err(ParityError {})
        );
    }
    assert_eq!(
        process_minutes(minute_carrier ^ 0x80000000),
        Err(ParityError {})
    );
    let hour_carrier = code_hour(10).unwrap();
    for b in 25..31u32 {
        assert_eq!(process_hour(hour_carrier ^ (1u64 << b)), Err(ParityError {}));
    }
    let year_carrier = code_year(21).unwrap();
    for b in 2..10u32 {
        assert_eq!(process_year(year_carrier ^ (1u64 << b)), Err(ParityError {}));
    }
}

#[test]
fn fields_never_perturb_one_another() {
    let date = CivilDateTime {
        year: 99,
        month: 7,
        day: 28,
        weekday: 3,
        hour: 23,
        minute: 59,
    };
    for m in 0..60u32 {
        let mut d = date;
        d.minute = m;
        let decoded = from_dcf77(to_dcf77(frame(d, false)).unwrap()).unwrap();
        assert_eq!(decoded.date, d);
    }
    for h in 0..24u32 {
        let mut d = date;
        d.hour = h;
        let decoded = from_dcf77(to_dcf77(frame(d, false)).unwrap()).unwrap();
        assert_eq!(decoded.date, d);
    }
}

#[test]
fn encoding_refuses_the_first_out_of_range_field() {
    let date = CivilDateTime {
        year: 200,
        month: 13,
        day: 12,
        weekday: 5,
        hour: 24,
        minute: 15,
    };
    assert_eq!(
        to_dcf77(frame(date, false)),
        Err(RangeError { value: 24, max_value: 24 })
    );
    let mut rest = date;
    rest.hour = 10;
    assert_eq!(
        to_dcf77(frame(rest, false)),
        Err(RangeError { value: 13, max_value: 12 })
    );
    rest.month = 11;
    assert_eq!(
        to_dcf77(frame(rest, false)),
        Err(RangeError { value: 200, max_value: 166 })
    );
}

#[test]
fn calendar_collaborator_fills_the_weekday() {
    let d = CivilDateTime::from_calendar(2021, 11, 12, 11, 22).unwrap();
    assert_eq!(d.year, 2021);
    assert_eq!(d.month, 11);
    assert_eq!(d.day, 12);
    assert_eq!(d.weekday, 5);
    assert_eq!(d.hour, 11);
    assert_eq!(d.minute, 22);
    assert_eq!(
        CivilDateTime::from_calendar(2020, 2, 29, 0, 0).unwrap().weekday,
        6
    );
    assert!(CivilDateTime::from_calendar(2021, 2, 29, 0, 0).is_none());
    assert!(CivilDateTime::from_calendar(-1, 1, 1, 0, 0).is_none());
    assert!(CivilDateTime::from_calendar(2021, 1, 1, 24, 0).is_none());
    assert!(CivilDateTime::from_calendar(2021, 1, 1, 0, 60).is_none());
}

#[test]
fn generic_coder_places_and_protects() {
    // 37 over all eight weights: pulse bits 0xEC, five set bits, so the
    // parity bit is added.
    assert_eq!(code_generic(37, 0xFF00, 8, 0x1, 60), Ok(0xEC01));
    assert_eq!(
        code_generic(60, 0xFF00, 8, 0x1, 60),
        Err(RangeError { value: 60, max_value: 60 })
    );
    assert_eq!(compute_pulse(0xEC), 37);
}

#[test]
fn parity_proof_matches_oddness() {
    assert_eq!(proof_parity(0b111, true), true);
    assert_eq!(proof_parity(0b111, false), false);
    assert_eq!(proof_parity(0b11, true), false);
    assert_eq!(proof_parity(0, true), false);
}

#[test]
fn zero_active_bits_always_decode_to_zero() {
    assert_eq!(masked_create_pulse(5, 0), 0);
    assert_eq!(masked_compute_pulse(0x7F, 0), 0);
}
