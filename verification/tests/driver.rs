use keller_xline::KellerXLine;
use keller_xline::TRANSPARENT_ADDRESS;
use keller_xline::base::Channels;
use keller_xline::base::Coefficients;
use keller_xline::base::ConfigurationCommands;
use keller_xline::base::FunctionCodes;
use keller_xline::base::KellerErrors;
use keller_xline::base::ProtocolError;
use keller_xline::base::XLineFrameError;
use keller_xline::base::XLineResponseFrame;
use keller_xline::base::ZeroCommands;
use keller_xline::base::crc16_hi_lo;
use keller_xline::scripted::ScriptedIo;
use keller_xline::validate_response;

fn framed(body: &[u8]) -> Vec<u8> {
    let (hi, lo) = crc16_hi_lo(body);
    let mut v = body.to_vec();
    v.push(hi);
    v.push(lo);
    v
}

#[test]
fn read_pressure_offset_coefficient_end_to_end() {
    let reply = framed(&[1, 30, 0x3F, 0x80, 0x00, 0x00]);
    assert_eq!(reply.len(), 8);
    let io = ScriptedIo::replying(vec![reply]);
    let mut session = KellerXLine::new(io, 100, 1).unwrap();
    let bits = session.read_coefficent(Coefficients::PressureOffsetP1).unwrap();
    assert_eq!(f32::from_bits(bits), 1.0);
}

#[test]
fn read_coefficient_request_bytes() {
    let reply = framed(&[1, 30, 0x3F, 0x80, 0x00, 0x00]);
    let io = ScriptedIo::replying(vec![reply]);
    let mut session = KellerXLine::new(io, 100, 1).unwrap();
    session.read_coefficent(Coefficients::PressureOffsetP1).unwrap();
    // The request on the wire: [addr, 30, 64, crc_hi, crc_lo].
    let io = session.into_transport();
    assert_eq!(io.written, vec![framed(&[1, 30, 64])]);
}

#[test]
fn write_gain_factor_encodes_identifier_and_float_bytes() {
    let reply = framed(&[1, 31, 0]);
    assert_eq!(reply.len(), 5);
    let io = ScriptedIo::replying(vec![reply]);
    let mut session = KellerXLine::new(io, 100, 1).unwrap();
    session.write_coefficent(Coefficients::GainFactorP1, 1.0f32.to_bits()).unwrap();
    // Payload inside the write-coefficient frame: [65, 0x3F, 0x80, 0x00, 0x00].
    let io = session.into_transport();
    assert_eq!(io.written, vec![framed(&[1, 31, 65, 0x3F, 0x80, 0x00, 0x00])]);
}

#[test]
fn mismatched_function_code_fails_even_with_valid_crc() {
    // Request reads a configuration (32); the reply echoes 30.
    let reply = framed(&[1, 30, 0, 0, 0, 0]);
    let io = ScriptedIo::replying(vec![reply]);
    let mut session = KellerXLine::new(io, 100, 1).unwrap();
    let r = session.read_configuration(ConfigurationCommands::CfgPressure);
    assert!(matches!(r, Err(ProtocolError::NonMatchingFunctionCode)));
}

#[test]
fn unicast_reply_from_wrong_address_fails() {
    let reply = framed(&[6, 32, 0, 0, 0, 0]);
    let io = ScriptedIo::replying(vec![reply]);
    let mut session = KellerXLine::new(io, 100, 5).unwrap();
    let r = session.read_configuration(ConfigurationCommands::CfgPressure);
    assert!(matches!(r, Err(ProtocolError::WrongAddress)));
}

#[test]
fn transparent_address_accepts_any_replier() {
    let reply = framed(&[6, 32, 42, 0, 0, 0]);
    let io = ScriptedIo::replying(vec![reply]);
    let mut session = KellerXLine::new(io, 100, TRANSPARENT_ADDRESS).unwrap();
    let v = session.read_configuration(ConfigurationCommands::CfgPressure).unwrap();
    assert_eq!(v, 42);
}

#[test]
fn device_error_reply_surfaces_as_frame_error() {
    // Error reply to a write-coefficient request: 31 + 128 = 159, code 3.
    let reply = vec![1u8, 159, 3, 0, 0];
    let io = ScriptedIo::replying(vec![reply]);
    let mut session = KellerXLine::new(io, 100, 1).unwrap();
    let r = session.write_coefficent(Coefficients::GainFactorP1, 0);
    assert!(matches!(
        r,
        Err(ProtocolError::FrameError(XLineFrameError::DeviceError(
            KellerErrors::IncorrectMessageLength
        )))
    ));
}

#[test]
fn corrupted_reply_surfaces_as_bad_crc() {
    let mut reply = framed(&[1, 32, 9, 0, 0, 0]);
    reply[2] ^= 0xFF;
    let io = ScriptedIo::replying(vec![reply]);
    let mut session = KellerXLine::new(io, 100, 1).unwrap();
    let r = session.read_configuration(ConfigurationCommands::Status);
    assert!(matches!(
        r,
        Err(ProtocolError::FrameError(XLineFrameError::BadCrc { .. }))
    ));
}

#[test]
fn transport_failures_wrap_transparently() {
    let mut io = ScriptedIo::replying(vec![]);
    io.fail_write = true;
    let mut session = KellerXLine::new(io, 100, 1).unwrap();
    let r = session.zero(ZeroCommands::SetZeroP1);
    assert!(matches!(r, Err(ProtocolError::Transport(70))));

    let mut io2 = ScriptedIo::replying(vec![]);
    io2.fail_read = true;
    let mut session2 = KellerXLine::new(io2, 100, 1).unwrap();
    let r2 = session2.zero(ZeroCommands::SetZeroP1);
    assert!(matches!(r2, Err(ProtocolError::Transport(90))));

    // Nothing reaches the wire when the write fails.
    let io = session.into_transport();
    assert!(io.written.is_empty());
}

#[test]
fn failed_write_leaves_reply_unread() {
    let mut io = ScriptedIo::replying(vec![framed(&[1, 95, 0])]);
    io.fail_write = true;
    let mut session = KellerXLine::new(io, 100, 1).unwrap();
    assert!(matches!(
        session.zero(ZeroCommands::SetZeroP1),
        Err(ProtocolError::Transport(70))
    ));
    let io = session.into_transport();
    assert_eq!(io.replies.len(), 1);
}

#[test]
fn read_serial_number_reassembles_big_endian() {
    let reply = framed(&[1, 67, 0x01, 0x02, 0x03, 0x04]);
    let io = ScriptedIo::replying(vec![reply]);
    let mut session = KellerXLine::new(io, 100, 1).unwrap();
    assert_eq!(session.read_serial_number().unwrap(), 0x01020304);
    // The request carries an empty payload: [addr, 67, crc_hi, crc_lo].
    let io = session.into_transport();
    assert_eq!(io.written, vec![framed(&[1, 67])]);
}

#[test]
fn read_channel_value_takes_first_four_payload_bytes() {
    // Reply is 9 bytes: 5 payload bytes, the float in the first 4.
    let reply = framed(&[1, 73, 0x41, 0x20, 0x00, 0x00, 0x07]);
    assert_eq!(reply.len(), 9);
    let io = ScriptedIo::replying(vec![reply]);
    let mut session = KellerXLine::new(io, 100, 1).unwrap();
    let bits = session.read_channel_value(Channels::P1).unwrap();
    assert_eq!(f32::from_bits(bits), 10.0);
}

#[test]
fn write_configuration_and_zero_commands_succeed() {
    let io = ScriptedIo::replying(vec![framed(&[1, 33, 0])]);
    let mut session = KellerXLine::new(io, 100, 1).unwrap();
    session.write_configuration(ConfigurationCommands::Uart, 4).unwrap();
    let io = session.into_transport();
    assert_eq!(io.written, vec![framed(&[1, 33, 10, 4])]);

    let io2 = ScriptedIo::replying(vec![framed(&[1, 95, 0])]);
    let mut session2 = KellerXLine::new(io2, 100, 1).unwrap();
    session2.zero(ZeroCommands::SetZeroP1).unwrap();
    let io2 = session2.into_transport();
    assert_eq!(io2.written, vec![framed(&[1, 95, 0])]);

    let io3 = ScriptedIo::replying(vec![framed(&[1, 95, 0])]);
    let mut session3 = KellerXLine::new(io3, 100, 1).unwrap();
    session3.zero_with_value(ZeroCommands::SetZeroT, 0x3F80_0000).unwrap();
    let io3 = session3.into_transport();
    assert_eq!(io3.written, vec![framed(&[1, 95, 8, 0x3F, 0x80, 0x00, 0x00])]);
}

#[test]
fn init_and_release_expects_ten_byte_reply() {
    let reply = framed(&[1, 48, 5, 20, 1, 0, 0, 0]);
    assert_eq!(reply.len(), 10);
    let io = ScriptedIo::replying(vec![reply]);
    let mut session = KellerXLine::new(io, 100, 1).unwrap();
    session.init_and_release().unwrap();
    let io = session.into_transport();
    assert_eq!(io.written, vec![framed(&[1, 48])]);
}

#[test]
fn write_address_carries_new_address_in_request() {
    // The request goes out under the address being assigned; the reply's
    // payload byte confirms it.
    let reply = framed(&[9, 66, 9]);
    let io = ScriptedIo::replying(vec![reply]);
    let mut session = KellerXLine::new(io, 100, 1).unwrap();
    assert_eq!(session.write_address(9).unwrap(), 9);
    let io = session.into_transport();
    assert_eq!(io.written, vec![framed(&[9, 66])]);
}

#[test]
fn validate_response_checks_echo_then_address() {
    let frame = XLineResponseFrame { address: 3, function_code: 30, payload: vec![0], crc: 0 };
    let ok = validate_response::<u8>(3, FunctionCodes::ReadCoefficients, frame.clone());
    assert!(ok.is_ok());

    let wrong_fc = validate_response::<u8>(3, FunctionCodes::ReadConfigurations, frame.clone());
    assert!(matches!(wrong_fc, Err(ProtocolError::NonMatchingFunctionCode)));

    let wrong_addr = validate_response::<u8>(4, FunctionCodes::ReadCoefficients, frame.clone());
    assert!(matches!(wrong_addr, Err(ProtocolError::WrongAddress)));

    let transparent =
        validate_response::<u8>(TRANSPARENT_ADDRESS, FunctionCodes::ReadCoefficients, frame);
    assert!(transparent.is_ok());
}

#[test]
fn transport_error_conversion_is_the_single_rule() {
    let e: ProtocolError<u8> = ProtocolError::from(7u8);
    assert!(matches!(e, ProtocolError::Transport(7)));
}

#[test]
fn error_taxonomy_is_complete_for_consumers() {
    // Downstream consumers can be written against the full error set,
    // including the reserved category the engine never produces.
    let all: Vec<ProtocolError<u8>> = vec![
        ProtocolError::Transport(1),
        ProtocolError::Timeout,
        ProtocolError::EchoMismatch,
        ProtocolError::FrameError(XLineFrameError::TooShort),
        ProtocolError::WrongAddress,
        ProtocolError::NonMatchingFunctionCode,
    ];
    assert!(all.iter().any(|e| matches!(e, ProtocolError::EchoMismatch)));
    assert!(all.iter().any(|e| matches!(e, ProtocolError::Timeout)));
}
