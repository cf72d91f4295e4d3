use scd30_i2c::checksum::crc8_pair;
use scd30_i2c::error::Scd30Error;
use scd30_i2c::session::{
    on_read_result, on_write_result, MeasurementBits, Operation, OperationResult, SessionStep,
    SETTLE_DELAY_MS,
};

fn word_group_bytes(hi: u8, lo: u8) -> Vec<u8> {
    vec![hi, lo, crc8_pair(hi, lo)]
}

fn all_operations() -> Vec<Operation> {
    vec![
        Operation::CheckFirmware,
        Operation::TriggerContMeasurements,
        Operation::StopContMeasurements,
        Operation::SetMeasurementsInterval(2),
        Operation::GetDataReady,
        Operation::GetMeasurements,
        Operation::GetSelfCalibrationStatus,
        Operation::SetSelfCalibration(true),
        Operation::SoftReset,
        Operation::CheckAltitude,
        Operation::SetAltitude(1000),
        Operation::CheckTemperatureOffset,
        Operation::SetTemperatureOffset(220),
        Operation::GetForcedValue,
        Operation::SetForceRecalibrationValue(450),
    ]
}

#[test]
fn settle_delay_is_thirty_milliseconds() {
    assert_eq!(SETTLE_DELAY_MS, 30);
}

#[test]
fn set_measurement_interval_exact_frame() {
    let frame = Operation::SetMeasurementsInterval(2).command_bytes();
    assert_eq!(frame, vec![0x46, 0x00, 0x00, 0x02, crc8_pair(0x00, 0x02)]);
}

#[test]
fn command_frames_match_the_opcode_table() {
    assert_eq!(Operation::CheckFirmware.command_bytes(), vec![0xD1, 0x00]);
    assert_eq!(
        Operation::TriggerContMeasurements.command_bytes(),
        vec![0x00, 0x10, 0x00, 0x00, 0x81]
    );
    assert_eq!(Operation::StopContMeasurements.command_bytes(), vec![0x01, 0x01]);
    assert_eq!(Operation::GetDataReady.command_bytes(), vec![0x02, 0x02]);
    assert_eq!(Operation::GetMeasurements.command_bytes(), vec![0x03, 0x00]);
    assert_eq!(Operation::GetSelfCalibrationStatus.command_bytes(), vec![0x53, 0x06]);
    assert_eq!(
        Operation::SetSelfCalibration(true).command_bytes(),
        vec![0x53, 0x06, 0x00, 0x01, crc8_pair(0x00, 0x01)]
    );
    assert_eq!(
        Operation::SetSelfCalibration(false).command_bytes(),
        vec![0x53, 0x06, 0x00, 0x00, 0x81]
    );
    assert_eq!(Operation::SoftReset.command_bytes(), vec![0xD3, 0x04]);
    assert_eq!(Operation::CheckAltitude.command_bytes(), vec![0x51, 0x02]);
    assert_eq!(
        Operation::SetAltitude(0x0280).command_bytes(),
        vec![0x51, 0x02, 0x02, 0x80, crc8_pair(0x02, 0x80)]
    );
    assert_eq!(Operation::CheckTemperatureOffset.command_bytes(), vec![0x54, 0x03]);
    assert_eq!(
        Operation::SetTemperatureOffset(220).command_bytes(),
        vec![0x54, 0x03, 0x00, 0xDC, crc8_pair(0x00, 0xDC)]
    );
    assert_eq!(Operation::GetForcedValue.command_bytes(), vec![0x52, 0x04]);
    assert_eq!(
        Operation::SetForceRecalibrationValue(450).command_bytes(),
        vec![0x52, 0x04, 0x01, 0xC2, crc8_pair(0x01, 0xC2)]
    );
}

#[test]
fn response_lengths_match_the_table() {
    assert_eq!(Operation::CheckFirmware.response_len(), 3);
    assert_eq!(Operation::TriggerContMeasurements.response_len(), 0);
    assert_eq!(Operation::StopContMeasurements.response_len(), 0);
    assert_eq!(Operation::SetMeasurementsInterval(2).response_len(), 0);
    assert_eq!(Operation::GetDataReady.response_len(), 3);
    assert_eq!(Operation::GetMeasurements.response_len(), 18);
    assert_eq!(Operation::GetSelfCalibrationStatus.response_len(), 3);
    assert_eq!(Operation::SetSelfCalibration(true).response_len(), 3);
    assert_eq!(Operation::SoftReset.response_len(), 0);
    assert_eq!(Operation::CheckAltitude.response_len(), 3);
    assert_eq!(Operation::SetAltitude(1000).response_len(), 0);
    assert_eq!(Operation::CheckTemperatureOffset.response_len(), 3);
    assert_eq!(Operation::SetTemperatureOffset(220).response_len(), 0);
    assert_eq!(Operation::GetForcedValue.response_len(), 3);
    assert_eq!(Operation::SetForceRecalibrationValue(450).response_len(), 0);
}

#[test]
fn write_failure_surfaces_communication_error_and_never_reads() {
    for op in all_operations() {
        match on_write_result(&op, false) {
            SessionStep::Complete(Err(Scd30Error::ComunicationError)) => {}
            SessionStep::Complete(_) => panic!("wrong outcome after write failure"),
            SessionStep::AwaitRead(_) => panic!("read requested after write failure"),
        }
    }
}

#[test]
fn write_success_completes_write_only_commands() {
    for op in [
        Operation::TriggerContMeasurements,
        Operation::StopContMeasurements,
        Operation::SetMeasurementsInterval(2),
        Operation::SoftReset,
        Operation::SetAltitude(1000),
        Operation::SetTemperatureOffset(220),
        Operation::SetForceRecalibrationValue(450),
    ] {
        match on_write_result(&op, true) {
            SessionStep::Complete(Ok(OperationResult::Unit)) => {}
            _ => panic!("write-only command did not complete"),
        }
    }
}

#[test]
fn write_success_awaits_the_fixed_response_size() {
    match on_write_result(&Operation::CheckFirmware, true) {
        SessionStep::AwaitRead(n) => assert_eq!(n, 3),
        _ => panic!("query command did not await a read"),
    }
    match on_write_result(&Operation::GetMeasurements, true) {
        SessionStep::AwaitRead(n) => assert_eq!(n, 18),
        _ => panic!("query command did not await a read"),
    }
}

#[test]
fn read_failure_surfaces_communication_error() {
    let outcome = on_read_result(&Operation::CheckFirmware, None);
    assert!(matches!(outcome, Err(Scd30Error::ComunicationError)));
}

#[test]
fn firmware_version_word_is_decoded_big_endian() {
    let outcome = on_read_result(&Operation::CheckFirmware, Some(word_group_bytes(0x03, 0x42)));
    assert_eq!(outcome.unwrap(), OperationResult::Word(0x0342));
}

#[test]
fn corrupted_register_read_is_checksum_error() {
    let mut bytes = word_group_bytes(0x03, 0x42);
    bytes[2] ^= 0x10;
    let outcome = on_read_result(&Operation::CheckAltitude, Some(bytes));
    assert!(matches!(outcome, Err(Scd30Error::ChecksumError)));
}

#[test]
fn data_ready_low_byte_one_means_ready() {
    let outcome = on_read_result(&Operation::GetDataReady, Some(word_group_bytes(0x00, 0x01)));
    assert_eq!(outcome.unwrap(), OperationResult::Flag(true));
}

#[test]
fn data_ready_any_other_low_byte_means_not_ready() {
    for (hi, lo) in [(0x00, 0x00), (0x00, 0x02), (0x00, 0xFF), (0x01, 0x00)] {
        let outcome = on_read_result(&Operation::GetDataReady, Some(word_group_bytes(hi, lo)));
        assert_eq!(outcome.unwrap(), OperationResult::Flag(false));
    }
}

#[test]
fn data_ready_high_byte_does_not_matter() {
    let outcome = on_read_result(&Operation::GetDataReady, Some(word_group_bytes(0x01, 0x01)));
    assert_eq!(outcome.unwrap(), OperationResult::Flag(true));
}

#[test]
fn set_self_calibration_reads_the_flag_back() {
    let outcome = on_read_result(&Operation::SetSelfCalibration(true), Some(word_group_bytes(0x00, 0x01)));
    assert_eq!(outcome.unwrap(), OperationResult::Flag(true));
}

#[test]
fn self_calibration_status_reads_like_a_flag() {
    let on = on_read_result(&Operation::GetSelfCalibrationStatus, Some(word_group_bytes(0x00, 0x01)));
    assert_eq!(on.unwrap(), OperationResult::Flag(true));
    let off = on_read_result(&Operation::GetSelfCalibrationStatus, Some(word_group_bytes(0x00, 0x00)));
    assert_eq!(off.unwrap(), OperationResult::Flag(false));
}

#[test]
fn full_measurement_read_reassembles_three_channels() {
    let mut response = Vec::new();
    // CO2 439.09 ppm, and two made-up float bit patterns for the other channels
    for (hi, lo) in [(0x43, 0xDB), (0x8C, 0x2D), (0x41, 0xAF), (0x21, 0x48), (0x42, 0x21), (0x99, 0x9A)]
    {
        response.extend_from_slice(&word_group_bytes(hi, lo));
    }
    let outcome = on_read_result(&Operation::GetMeasurements, Some(response));
    assert_eq!(
        outcome.unwrap(),
        OperationResult::Measurement(MeasurementBits {
            co2_bits: 0x43DB8C2D,
            temperature_bits: 0x41AF2148,
            humidity_bits: 0x4221999A,
        })
    );
    assert!((f32::from_bits(0x43DB8C2D) - 439.09).abs() < 0.01);
}

#[test]
fn full_measurement_read_fails_on_any_bad_group() {
    for corrupted_byte in [2, 5, 8, 11, 14, 17] {
        let mut response = Vec::new();
        for (hi, lo) in
            [(0x43, 0xDB), (0x8C, 0x2D), (0x41, 0xAF), (0x21, 0x48), (0x42, 0x21), (0x99, 0x9A)]
        {
            response.extend_from_slice(&word_group_bytes(hi, lo));
        }
        response[corrupted_byte] ^= 0x01;
        let outcome = on_read_result(&Operation::GetMeasurements, Some(response));
        assert!(matches!(outcome, Err(Scd30Error::ChecksumError)));
    }
}
