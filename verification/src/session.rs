//! Device session: the decision logic of one exchange with the sensor.
//!
//! Every operation follows the same pattern: write a fixed command frame,
//! pause for the settle delay, then — for query commands — read a fixed-size
//! response and validate it through the frame codec. The bus transport
//! itself lives outside this crate; a driver writes and reads raw bytes and
//! hands each outcome to [`on_write_result`] and [`on_read_result`], which
//! decide what follows. The session keeps no client-side device state: every
//! query re-reads the device.

use vstd::prelude::*;
use crate::codec::{
    decode_measurement_channel, decode_word_group, encode_command, spec_channel_bits,
    spec_decode_word_group, spec_encode_command, valid_channel, valid_word_group,
};
use crate::error::Scd30Error;

verus! {

/// Pause between issuing a command and reading its response, in
/// milliseconds: the device's internal processing time.
pub const SETTLE_DELAY_MS: u64 = 30;

/// One named operation of the device session. A variant carries the 16-bit
/// argument its command takes, if any.
pub enum Operation {
    /// Read the firmware version word
    CheckFirmware,
    /// Start continuous measurement (ambient-pressure argument fixed at 0)
    TriggerContMeasurements,
    /// Stop continuous measurement
    StopContMeasurements,
    /// Set the measurement interval, in seconds
    SetMeasurementsInterval(u16),
    /// Poll whether a measurement is ready to be read
    GetDataReady,
    /// Read the CO2/temperature/humidity triple
    GetMeasurements,
    /// Read the automatic self-calibration flag
    GetSelfCalibrationStatus,
    /// Set the automatic self-calibration flag: transmit 1 to activate,
    /// 0 to deactivate. The opcode word is the one the status read uses and
    /// has not been confirmed against the sensor's interface description.
    SetSelfCalibration(bool),
    /// Soft-reset the device
    SoftReset,
    /// Read the configured altitude, in meters
    CheckAltitude,
    /// Set the altitude compensation, in meters above sea level
    SetAltitude(u16),
    /// Read the temperature offset, in ticks of 0.01 degrees Celsius
    CheckTemperatureOffset,
    /// Set the temperature offset, in ticks of 0.01 degrees Celsius
    SetTemperatureOffset(u16),
    /// Read the forced-recalibration reference value, in ppm
    GetForcedValue,
    /// Set a forced-recalibration reference value, in ppm
    SetForceRecalibrationValue(u16),
}

/// The three channels of a measurement read, each the big-endian bit
/// pattern of a 32-bit float: CO2 concentration in ppm, temperature in
/// degrees Celsius, relative humidity in percent.
#[derive(Clone, Copy, Debug, PartialEq, Eq, Structural)]
pub struct MeasurementBits {
    pub co2_bits: u32,
    pub temperature_bits: u32,
    pub humidity_bits: u32,
}

/// The typed result of a completed operation.
#[derive(Clone, Copy, Debug, PartialEq, Eq, Structural)]
pub enum OperationResult {
    /// A command that answers nothing
    Unit,
    /// A scalar register: firmware version, altitude, offset ticks, or ppm
    Word(u16),
    /// A boolean register: data-ready or self-calibration status
    Flag(bool),
    /// A full measurement read
    Measurement(MeasurementBits),
}

/// What the driver must do next in an exchange.
pub enum SessionStep {
    /// Read this many bytes from the bus and hand the outcome to
    /// [`on_read_result`]
    AwaitRead(usize),
    /// The operation is over with this outcome; no further bus access
    Complete(Result<OperationResult, Scd30Error>),
}

/// The exact frame an operation writes: its opcode word and, for commands
/// that take one, the argument's word group.
pub open spec fn spec_command_bytes(op: Operation) -> Seq<u8> {
    match op {
        Operation::CheckFirmware => spec_encode_command(0xD1, 0x00, None),
        Operation::TriggerContMeasurements => spec_encode_command(0x00, 0x10, Some(0x0000)),
        Operation::StopContMeasurements => spec_encode_command(0x01, 0x01, None),
        Operation::SetMeasurementsInterval(seconds) => spec_encode_command(
            0x46,
            0x00,
            Some(seconds),
        ),
        Operation::GetDataReady => spec_encode_command(0x02, 0x02, None),
        Operation::GetMeasurements => spec_encode_command(0x03, 0x00, None),
        Operation::GetSelfCalibrationStatus => spec_encode_command(0x53, 0x06, None),
        Operation::SetSelfCalibration(activate) => spec_encode_command(
            0x53,
            0x06,
            Some(if activate { 1 } else { 0 }),
        ),
        Operation::SoftReset => spec_encode_command(0xD3, 0x04, None),
        Operation::CheckAltitude => spec_encode_command(0x51, 0x02, None),
        Operation::SetAltitude(meters) => spec_encode_command(0x51, 0x02, Some(meters)),
        Operation::CheckTemperatureOffset => spec_encode_command(0x54, 0x03, None),
        Operation::SetTemperatureOffset(ticks) => spec_encode_command(0x54, 0x03, Some(ticks)),
        Operation::GetForcedValue => spec_encode_command(0x52, 0x04, None),
        Operation::SetForceRecalibrationValue(ppm) => spec_encode_command(0x52, 0x04, Some(ppm)),
    }
}

/// How many bytes an operation reads back: none for write-only commands,
/// one word group for a scalar or flag register, three channels of two word
/// groups each for a full measurement.
pub open spec fn spec_response_len(op: Operation) -> nat {
    match op {
        Operation::CheckFirmware => 3,
        Operation::GetDataReady => 3,
        Operation::GetSelfCalibrationStatus => 3,
        Operation::SetSelfCalibration(_) => 3,
        Operation::CheckAltitude => 3,
        Operation::CheckTemperatureOffset => 3,
        Operation::GetForcedValue => 3,
        Operation::GetMeasurements => 18,
        _ => 0,
    }
}

/// What a validated response means, per operation: a word register's
/// big-endian value, a flag register's low byte compared against 1, or the
/// three measurement channels; nothing when any word group fails its
/// checksum.
pub open spec fn spec_decode_response(op: Operation, bytes: Seq<u8>) -> Option<OperationResult>
    recommends
        bytes.len() == spec_response_len(op),
{
    match op {
        Operation::CheckFirmware
        | Operation::CheckAltitude
        | Operation::CheckTemperatureOffset
        | Operation::GetForcedValue => match spec_decode_word_group(bytes) {
            Some(v) => Some(OperationResult::Word(v)),
            None => None,
        },
        Operation::GetDataReady
        | Operation::GetSelfCalibrationStatus
        | Operation::SetSelfCalibration(_) => if valid_word_group(bytes) {
            Some(OperationResult::Flag(bytes[1] == 1))
        } else {
            None
        },
        Operation::GetMeasurements => if valid_channel(bytes.subrange(0, 6)) && valid_channel(
            bytes.subrange(6, 12),
        ) && valid_channel(bytes.subrange(12, 18)) {
            Some(
                OperationResult::Measurement(
                    MeasurementBits {
                        co2_bits: spec_channel_bits(bytes.subrange(0, 6)),
                        temperature_bits: spec_channel_bits(bytes.subrange(6, 12)),
                        humidity_bits: spec_channel_bits(bytes.subrange(12, 18)),
                    },
                ),
            )
        } else {
            None
        },
        _ => Some(OperationResult::Unit),
    }
}

impl Operation {
    /// Builds the frame this operation writes to the bus.
    pub fn command_bytes(&self) -> (r: Vec<u8>)
        ensures
            r@ == spec_command_bytes(*self),
    {
        match self {
            Operation::CheckFirmware => encode_command(0xD1, 0x00, None),
            Operation::TriggerContMeasurements => encode_command(0x00, 0x10, Some(0x0000)),
            Operation::StopContMeasurements => encode_command(0x01, 0x01, None),
            Operation::SetMeasurementsInterval(seconds) => encode_command(
                0x46,
                0x00,
                Some(*seconds),
            ),
            Operation::GetDataReady => encode_command(0x02, 0x02, None),
            Operation::GetMeasurements => encode_command(0x03, 0x00, None),
            Operation::GetSelfCalibrationStatus => encode_command(0x53, 0x06, None),
            Operation::SetSelfCalibration(activate) => encode_command(
                0x53,
                0x06,
                Some(if *activate { 1 } else { 0 }),
            ),
            Operation::SoftReset => encode_command(0xD3, 0x04, None),
            Operation::CheckAltitude => encode_command(0x51, 0x02, None),
            Operation::SetAltitude(meters) => encode_command(0x51, 0x02, Some(*meters)),
            Operation::CheckTemperatureOffset => encode_command(0x54, 0x03, None),
            Operation::SetTemperatureOffset(ticks) => encode_command(0x54, 0x03, Some(*ticks)),
            Operation::GetForcedValue => encode_command(0x52, 0x04, None),
            Operation::SetForceRecalibrationValue(ppm) => encode_command(0x52, 0x04, Some(*ppm)),
        }
    }

    /// How many response bytes to read after this operation's settle delay.
    pub fn response_len(&self) -> (r: usize)
        ensures
            r == spec_response_len(*self),
    {
        match self {
            Operation::CheckFirmware => 3,
            Operation::GetDataReady => 3,
            Operation::GetSelfCalibrationStatus => 3,
            Operation::SetSelfCalibration(_) => 3,
            Operation::CheckAltitude => 3,
            Operation::CheckTemperatureOffset => 3,
            Operation::GetForcedValue => 3,
            Operation::GetMeasurements => 18,
            _ => 0,
        }
    }

    /// Decodes and validates a full response buffer for this operation:
    /// every word group's checksum must pass, else `ChecksumError`.
    pub fn decode_response(&self, bytes: &Vec<u8>) -> (r: Result<OperationResult, Scd30Error>)
        requires
            bytes@.len() == spec_response_len(*self),
        ensures
            (r is Ok) <==> spec_decode_response(*self, bytes@) is Some,
            r matches Ok(res) ==> spec_decode_response(*self, bytes@) == Some(res),
            r matches Err(e) ==> e is ChecksumError,
    {
        match self {
            Operation::CheckFirmware
            | Operation::CheckAltitude
            | Operation::CheckTemperatureOffset
            | Operation::GetForcedValue => match decode_word_group(bytes.as_slice()) {
                Ok(v) => Ok(OperationResult::Word(v)),
                Err(e) => Err(e),
            },
            Operation::GetDataReady
            | Operation::GetSelfCalibrationStatus
            | Operation::SetSelfCalibration(_) => match decode_word_group(bytes.as_slice()) {
                Ok(_) => Ok(OperationResult::Flag(bytes[1] == 1)),
                Err(e) => Err(e),
            },
            Operation::GetMeasurements => {
                let s = bytes.as_slice();
                let co2_bits = match decode_measurement_channel(&s[0..6]) {
                    Ok(bits) => bits,
                    Err(e) => {
                        return Err(e);
                    },
                };
                let temperature_bits = match decode_measurement_channel(&s[6..12]) {
                    Ok(bits) => bits,
                    Err(e) => {
                        return Err(e);
                    },
                };
                let humidity_bits = match decode_measurement_channel(&s[12..18]) {
                    Ok(bits) => bits,
                    Err(e) => {
                        return Err(e);
                    },
                };
                Ok(
                    OperationResult::Measurement(
                        MeasurementBits { co2_bits, temperature_bits, humidity_bits },
                    ),
                )
            },
            _ => Ok(OperationResult::Unit),
        }
    }
}

/// Decides what follows the transport's write of the command frame. A
/// failed write surfaces `ComunicationError` at once and completes the
/// exchange: no read is ever requested after a write failure. After a
/// successful write, a write-only command is done and a query command awaits
/// a read of its fixed response size.
pub fn on_write_result(op: &Operation, write_ok: bool) -> (r: SessionStep)
    ensures
        !write_ok ==> (r matches SessionStep::Complete(out) && out matches Err(e)
            && e is ComunicationError),
        write_ok && spec_response_len(*op) == 0 ==> (r matches SessionStep::Complete(out)
            && out matches Ok(res) && res is Unit),
        write_ok && spec_response_len(*op) != 0 ==> (r matches SessionStep::AwaitRead(n) && n
            == spec_response_len(*op)),
{
    if !write_ok {
        SessionStep::Complete(Err(Scd30Error::ComunicationError))
    } else {
        let n = op.response_len();
        if n == 0 {
            SessionStep::Complete(Ok(OperationResult::Unit))
        } else {
            SessionStep::AwaitRead(n)
        }
    }
}

/// Decides the outcome of the read that an `AwaitRead` step asked for: a
/// failed read surfaces `ComunicationError`; a successful read decodes and
/// validates through the frame codec.
pub fn on_read_result(op: &Operation, read: Option<Vec<u8>>) -> (r: Result<
    OperationResult,
    Scd30Error,
>)
    requires
        read matches Some(bytes) ==> bytes@.len() == spec_response_len(*op),
    ensures
        read is None ==> (r matches Err(e) && e is ComunicationError),
        read matches Some(bytes) ==> ((r is Ok) <==> spec_decode_response(*op, bytes@) is Some),
        read matches Some(bytes) ==> (r matches Ok(res) ==> spec_decode_response(*op, bytes@)
            == Some(res)),
        read is Some ==> (r matches Err(e) ==> e is ChecksumError),
{
    match read {
        None => Err(Scd30Error::ComunicationError),
        Some(bytes) => op.decode_response(&bytes),
    }
}

} // verus!
