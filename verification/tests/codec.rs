use keller_xline::base::Channels;
use keller_xline::base::Coefficients;
use keller_xline::base::ConfigurationCommands;
use keller_xline::base::FunctionCodes;
use keller_xline::base::KellerErrors;
use keller_xline::base::XLineFrameError;
use keller_xline::base::XLineResponseFrame;
use keller_xline::base::ZeroCommands;
use keller_xline::base::crc16;
use keller_xline::base::crc16_hi_lo;
use keller_xline::base::encode_frame;
use keller_xline::base::u16_from_be;
use keller_xline::base::u32_from_be_bytes;
use keller_xline::base::u32_to_be_bytes;

fn framed(body: &[u8]) -> Vec<u8> {
    let (hi, lo) = crc16_hi_lo(body);
    let mut v = body.to_vec();
    v.push(hi);
    v.push(lo);
    v
}

#[test]
fn crc16_known_check_value() {
    // CRC-16 with polynomial 0xA001 and initial value 0xFFFF over "123456789".
    assert_eq!(crc16(b"123456789"), 0x4B37);
}

#[test]
fn crc16_empty_input_is_initial_register() {
    assert_eq!(crc16(&[]), 0xFFFF);
}

#[test]
fn crc16_hi_lo_splits_crc16() {
    let data = [0x01u8, 0x1E, 0x40];
    let c = crc16(&data);
    let (hi, lo) = crc16_hi_lo(&data);
    assert_eq!(hi, (c >> 8) as u8);
    assert_eq!(lo, (c & 0xFF) as u8);
    assert_eq!(u16_from_be(hi, lo), c);
}

#[test]
fn crc_round_trip_over_appended_trailer() {
    let data = vec![3u8, 30, 64, 200, 17];
    let whole = framed(&data);
    let claimed = u16_from_be(whole[data.len()], whole[data.len() + 1]);
    assert_eq!(claimed, crc16(&whole[..data.len()]));
}

#[test]
fn encode_frame_layout() {
    let payload = [64u8];
    let frame = encode_frame(1, 30, &payload);
    assert_eq!(frame.len(), 5);
    assert_eq!(&frame[..3], &[1, 30, 64]);
    let (hi, lo) = crc16_hi_lo(&[1, 30, 64]);
    assert_eq!(frame[3], hi);
    assert_eq!(frame[4], lo);
}

#[test]
fn frame_round_trip_recovers_fields() {
    let frame = encode_frame(7, 30, &[64, 9, 12]);
    let parsed = XLineResponseFrame::from_buffer(&frame).unwrap();
    assert_eq!(parsed.address, 7);
    assert_eq!(parsed.function_code, 30);
    assert_eq!(parsed.payload, vec![64, 9, 12]);
    assert_eq!(parsed.crc, crc16(&frame[..5]));
    assert_eq!(parsed.wire_len(), 7);
}

#[test]
fn short_buffers_decode_to_too_short() {
    assert_eq!(XLineResponseFrame::from_buffer(&[]), Err(XLineFrameError::TooShort));
    assert_eq!(XLineResponseFrame::from_buffer(&[1]), Err(XLineFrameError::TooShort));
    assert_eq!(XLineResponseFrame::from_buffer(&[1, 30, 0, 0]), Err(XLineFrameError::TooShort));
    // Content of a short buffer is irrelevant, even a device-error marker.
    assert_eq!(XLineResponseFrame::from_buffer(&[1, 159, 3, 0]), Err(XLineFrameError::TooShort));
}

#[test]
fn error_reply_decodes_to_device_error() {
    // Function code 31 + 128 = 159 with error byte 3.
    let buf = [1u8, 159, 3, 0, 0];
    assert_eq!(
        XLineResponseFrame::from_buffer(&buf),
        Err(XLineFrameError::DeviceError(KellerErrors::IncorrectMessageLength))
    );
}

#[test]
fn device_error_checked_before_crc() {
    // An error reply is classified by byte position even though its CRC
    // trailer would not validate.
    let buf = [9u8, 130, 32, 0xAA, 0xBB];
    assert_eq!(
        XLineResponseFrame::from_buffer(&buf),
        Err(XLineFrameError::DeviceError(KellerErrors::DeviceNotInitialized))
    );
}

#[test]
fn corrupted_crc_reports_expected_and_got() {
    let buf = [0u8, 30, 1, 0, 0];
    let expected = crc16(&buf[..3]);
    assert_eq!(
        XLineResponseFrame::from_buffer(&buf),
        Err(XLineFrameError::BadCrc { expected, got: 0 })
    );
}

#[test]
fn single_byte_flip_fails_with_bad_crc() {
    let frame = encode_frame(7, 30, &[64, 9, 12]);
    assert!(XLineResponseFrame::from_buffer(&frame).is_ok());
    for i in 0..frame.len() {
        let mut corrupt = frame.clone();
        corrupt[i] ^= 0x01;
        if corrupt[1] > 127 {
            continue;
        }
        assert!(matches!(
            XLineResponseFrame::from_buffer(&corrupt),
            Err(XLineFrameError::BadCrc { .. })
        ));
    }
}

#[test]
fn flipping_function_code_into_error_range_is_device_error() {
    // The one single-byte flip that does not yield BadCrc: setting the high
    // bit of the function code turns the frame into an error reply.
    let frame = encode_frame(7, 30, &[64, 9, 12]);
    let mut corrupt = frame.clone();
    corrupt[1] |= 0x80;
    assert!(matches!(
        XLineResponseFrame::from_buffer(&corrupt),
        Err(XLineFrameError::DeviceError(_))
    ));
}

#[test]
fn data_extraction_helpers() {
    let f = XLineResponseFrame {
        address: 1,
        function_code: 30,
        payload: vec![0x3F, 0x80, 0x00, 0x00],
        crc: 0,
    };
    assert_eq!(f.data_as_u8(), 0x3F);
    assert_eq!(f.data_as_f32_bits(), 0x3F80_0000);
    assert_eq!(f32::from_bits(f.data_as_f32_bits()), 1.0);
}

#[test]
fn u32_big_endian_round_trip() {
    for v in [0u32, 1, 0x01020304, 0x3F800000, u32::MAX] {
        let bytes = u32_to_be_bytes(v);
        assert_eq!(u32_from_be_bytes(&bytes), Some(v));
    }
    assert_eq!(u32_to_be_bytes(0x01020304), vec![1, 2, 3, 4]);
    assert_eq!(u32_from_be_bytes(&[1, 2, 3]), None);
    assert_eq!(u32_from_be_bytes(&[1, 2, 3, 4, 5]), None);
}

#[test]
fn response_len_table() {
    assert_eq!(FunctionCodes::ReadCoefficients.response_len(), 8);
    assert_eq!(FunctionCodes::WriteCoefficients.response_len(), 5);
    assert_eq!(FunctionCodes::ReadConfigurations.response_len(), 8);
    assert_eq!(FunctionCodes::WriteConfiguration.response_len(), 5);
    assert_eq!(FunctionCodes::InitializeAndRealese.response_len(), 10);
    assert_eq!(FunctionCodes::WriteAndReadNewDeviceAddress.response_len(), 5);
    assert_eq!(FunctionCodes::ReadSerialNumber.response_len(), 8);
    assert_eq!(FunctionCodes::ReadChannelValueFloat.response_len(), 9);
    assert_eq!(FunctionCodes::ReadChannelValueInteger.response_len(), 9);
    assert_eq!(FunctionCodes::ZeroCommand.response_len(), 5);
}

#[test]
fn function_code_wire_values() {
    assert_eq!(FunctionCodes::ReadCoefficients.code(), 30);
    assert_eq!(FunctionCodes::WriteCoefficients.code(), 31);
    assert_eq!(FunctionCodes::ReadConfigurations.code(), 32);
    assert_eq!(FunctionCodes::WriteConfiguration.code(), 33);
    assert_eq!(FunctionCodes::InitializeAndRealese.code(), 48);
    assert_eq!(FunctionCodes::WriteAndReadNewDeviceAddress.code(), 66);
    assert_eq!(FunctionCodes::ReadSerialNumber.code(), 67);
    assert_eq!(FunctionCodes::ReadChannelValueFloat.code(), 73);
    assert_eq!(FunctionCodes::ReadChannelValueInteger.code(), 74);
    assert_eq!(FunctionCodes::ZeroCommand.code(), 95);
}

#[test]
fn coefficient_codes_round_trip() {
    for v in 0..=255u8 {
        match Coefficients::try_from_u8(v) {
            Ok(c) => assert_eq!(c.code(), v),
            Err(()) => {}
        }
    }
    assert_eq!(Coefficients::try_from_u8(64), Ok(Coefficients::PressureOffsetP1));
    assert_eq!(Coefficients::try_from_u8(65), Ok(Coefficients::GainFactorP1));
    assert_eq!(Coefficients::try_from_u8(53), Ok(Coefficients::ThresholdSquareRoot));
    assert_eq!(Coefficients::try_from_u8(156), Ok(Coefficients::Ch0CurveP1_156));
    assert_eq!(Coefficients::try_from_u8(0), Err(()));
    assert_eq!(Coefficients::try_from_u8(75), Err(()));
    assert_eq!(Coefficients::try_from_u8(77), Err(()));
    assert_eq!(Coefficients::try_from_u8(255), Err(()));
}

#[test]
fn keller_error_classification() {
    assert_eq!(KellerErrors::from_u8(1), KellerErrors::NonImplementedFunction);
    assert_eq!(KellerErrors::from_u8(2), KellerErrors::InvalidAddress);
    assert_eq!(KellerErrors::from_u8(3), KellerErrors::IncorrectMessageLength);
    assert_eq!(KellerErrors::from_u8(4), KellerErrors::ErrorSavingValue);
    assert_eq!(KellerErrors::from_u8(32), KellerErrors::DeviceNotInitialized);
    assert_eq!(KellerErrors::from_u8(5), KellerErrors::Other(5));
    assert_eq!(KellerErrors::from_u8(255), KellerErrors::Other(255));
}

#[test]
fn auxiliary_code_tables() {
    assert_eq!(ZeroCommands::SetZeroP1.code(), 0);
    assert_eq!(ZeroCommands::ResetZeroTOB2.code(), 13);
    assert_eq!(Channels::CH0.code(), 0);
    assert_eq!(Channels::ConRaw.code(), 11);
    assert_eq!(ConfigurationCommands::CfgPressure.code(), 0);
    assert_eq!(ConfigurationCommands::SDI12Available.code(), 33);
}
