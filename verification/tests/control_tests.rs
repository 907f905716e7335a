use rtlsdr::control::{
    eeprom_status, from_padded_bytes, sampling_mode_code, sampling_mode_from_code,
    tuner_gains_count_step, tuner_gains_fill_step, tuner_type_from_code, validate_async_params,
    SamplingMode, DEFAULT_ASYNC_BUF_NUMBER, DEFAULT_BUF_LENGTH,
};
use rtlsdr::{from_tuner_type, Error, TunerType};

#[test]
fn tuner_labels() {
    assert_eq!(from_tuner_type(TunerType::Unknown), "Unknown");
    assert_eq!(from_tuner_type(TunerType::E4000), "E4000");
    assert_eq!(from_tuner_type(TunerType::FC0012), "FC0012");
    assert_eq!(from_tuner_type(TunerType::FC0013), "FC0013");
    assert_eq!(from_tuner_type(TunerType::FC2580), "FC2580");
    assert_eq!(from_tuner_type(TunerType::R820T), "R820T");
    assert_eq!(from_tuner_type(TunerType::R828D), "R828D");
}

#[test]
fn tuner_codes() {
    assert_eq!(tuner_type_from_code(0), TunerType::Unknown);
    assert_eq!(tuner_type_from_code(1), TunerType::E4000);
    assert_eq!(tuner_type_from_code(5), TunerType::R820T);
    assert_eq!(tuner_type_from_code(6), TunerType::R828D);
    assert_eq!(tuner_type_from_code(99), TunerType::Unknown);
}

#[test]
fn sampling_mode_codes_round_trip() {
    assert_eq!(sampling_mode_from_code(0), SamplingMode::SamplingNone);
    assert_eq!(sampling_mode_from_code(1), SamplingMode::SamplingIADC);
    assert_eq!(sampling_mode_from_code(2), SamplingMode::SamplingQADC);
    assert_eq!(sampling_mode_from_code(3), SamplingMode::SamplingUnknown);
    assert_eq!(sampling_mode_from_code(-7), SamplingMode::SamplingUnknown);
    for m in [
        SamplingMode::SamplingNone,
        SamplingMode::SamplingIADC,
        SamplingMode::SamplingQADC,
        SamplingMode::SamplingUnknown,
    ] {
        assert_eq!(sampling_mode_from_code(sampling_mode_code(m)), m);
    }
}

#[test]
fn eeprom_status_normalises_non_negative() {
    assert_eq!(eeprom_status(0), Error::NoError);
    assert_eq!(eeprom_status(256), Error::NoError);
    assert_eq!(eeprom_status(-4), Error::NoDevice);
    assert_eq!(eeprom_status(-50), Error::Unknown);
}

#[test]
fn zero_gain_count_stops_without_fill_call() {
    let step = tuner_gains_count_step(0);
    assert_eq!(step, Some(Error::Unknown));
    assert_ne!(step, Some(Error::NoError));
}

#[test]
fn negative_gain_count_reports_mapped_error() {
    assert_eq!(tuner_gains_count_step(-4), Some(Error::NoDevice));
    assert_eq!(tuner_gains_count_step(-1), Some(Error::Io));
    assert_eq!(tuner_gains_count_step(-50), Some(Error::Unknown));
}

#[test]
fn positive_gain_count_proceeds_to_fill() {
    assert_eq!(tuner_gains_count_step(18), None);
    assert_eq!(tuner_gains_fill_step(18), Error::NoError);
    assert_eq!(tuner_gains_fill_step(0), Error::Unknown);
    assert_eq!(tuner_gains_fill_step(-3), Error::Unknown);
}

#[test]
fn async_buffer_length_must_be_multiple_of_512() {
    assert_eq!(validate_async_params(0, 512), Error::NoError);
    assert_eq!(validate_async_params(0, 511), Error::InvalidParam);
    assert_eq!(validate_async_params(0, 0), Error::NoError);
    assert_eq!(validate_async_params(0, 1024), Error::NoError);
    assert_eq!(validate_async_params(-1, 512), Error::InvalidParam);
    assert_eq!(validate_async_params(0, -512), Error::InvalidParam);
    assert_eq!(
        validate_async_params(DEFAULT_ASYNC_BUF_NUMBER, DEFAULT_BUF_LENGTH),
        Error::NoError
    );
}

#[test]
fn padded_buffer_stops_at_first_null() {
    assert_eq!(from_padded_bytes(&vec![b'R', b'T', b'L', 0, b'X']), "RTL");
    assert_eq!(from_padded_bytes(&vec![0; 8]), "");
    assert_eq!(from_padded_bytes(&vec![b'a', b'b']), "ab");
    assert_eq!(from_padded_bytes(&Vec::new()), "");
}
