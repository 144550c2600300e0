//! Master-side driver for the Keller X-Line half-duplex sensor protocol:
//! a CRC-16 integrity check, a frame codec, and a single-shot transaction
//! engine layered on a byte-transport capability.

use vstd::assert_seqs_equal;
use vstd::prelude::*;

pub mod base;
pub mod scripted;

use crate::base::Channels;
use crate::base::Coefficients;
use crate::base::ConfigurationCommands;
use crate::base::FunctionCodes;
use crate::base::MAX_FRAME_LEN;
use crate::base::ProtocolError;
use crate::base::SpecResponseFrame;
use crate::base::XLineFrame;
use crate::base::XLineIO;
use crate::base::XLineResponseFrame;
use crate::base::ZeroCommands;
use crate::base::encode_frame;
use crate::base::frame_checks_out;
use crate::base::lemma_decode_ok;
use crate::base::spec_decode;
use crate::base::spec_encode;
use crate::base::spec_u32_from_be;
use crate::base::spec_u32_to_be;
use crate::base::u32_to_be_bytes;

verus! {

/// Requests sent to this reserved address accept a reply from any responding
/// device, used for bring-up before a unique address is assigned.
pub const TRANSPARENT_ADDRESS: u8 = 250;

pub type XLineResult<T, E> = Result<T, ProtocolError<E>>;

/// What the transaction engine demands of any reply it hands to the command
/// layer: CRC-consistent bytes, the requested function code echoed, the
/// address rule satisfied, and that function code's fixed reply length.
pub open spec fn spec_valid_reply(
    f: SpecResponseFrame,
    request_address: u8,
    function_code: FunctionCodes,
) -> bool {
    &&& frame_checks_out(f)
    &&& f.function_code == function_code.spec_code()
    &&& (request_address == TRANSPARENT_ADDRESS || f.address == request_address)
    &&& f.payload.len() + 4 == function_code.spec_response_len()
}

/// `h1` extends `h0` by at most one entry: within one call the engine never
/// retries a transport operation.
pub open spec fn spec_grows_by_at_most_one(h0: Seq<Seq<u8>>, h1: Seq<Seq<u8>>) -> bool {
    h1 == h0 || h1 == h0.push(h1.last())
}

/// One full exchange, read off the transport's ghost histories (`w0 → w1`
/// the buffers accepted in full, `r0 → r1` the buffers delivered in full):
/// exactly the encoded request frame for `function_code` with `payload` was
/// accepted under `request_address`, exactly one reply buffer of that
/// function code's fixed length was delivered, and that buffer decodes to a
/// frame satisfying the protocol rules.
pub open spec fn spec_exchange(
    w0: Seq<Seq<u8>>,
    w1: Seq<Seq<u8>>,
    r0: Seq<Seq<u8>>,
    r1: Seq<Seq<u8>>,
    request_address: u8,
    function_code: FunctionCodes,
    payload: Seq<u8>,
) -> bool {
    &&& w1 == w0.push(spec_encode(request_address, function_code.spec_code(), payload))
    &&& r1 == r0.push(r1.last())
    &&& r1.last().len() == function_code.spec_response_len()
    &&& spec_decode(r1.last()) is Ok
    &&& spec_valid_reply(spec_decode(r1.last())->Ok_0, request_address, function_code)
}

/// The reply frame of the most recent exchange: the decode of the last
/// buffer the transport delivered.
pub open spec fn spec_last_reply(reads: Seq<Seq<u8>>) -> SpecResponseFrame {
    spec_decode(reads.last())->Ok_0
}

/// Protocol-consistency validation of a decoded response against the request
/// that prompted it: the function code must be echoed back, and unless the
/// request went to the transparent address, the reply must come from the
/// addressed device.
pub fn validate_response<E>(
    request_address: u8,
    request_function_code: FunctionCodes,
    response: XLineResponseFrame,
) -> (r: Result<XLineResponseFrame, ProtocolError<E>>)
    ensures
        r is Ok <==> (response.function_code == request_function_code.spec_code() && (
        request_address == TRANSPARENT_ADDRESS || response.address == request_address)),
        r matches Ok(f) ==> f == response,
        response.function_code != request_function_code.spec_code() ==> (r matches Err(e)
            && e is NonMatchingFunctionCode),
        (response.function_code == request_function_code.spec_code() && request_address
            != TRANSPARENT_ADDRESS && response.address != request_address) ==> (r matches Err(e)
            && e is WrongAddress),
{
    if response.function_code != request_function_code.code() {
        return Err(ProtocolError::NonMatchingFunctionCode);
    }
    if request_address != TRANSPARENT_ADDRESS && response.address != request_address {
        return Err(ProtocolError::WrongAddress);
    }
    Ok(response)
}

/// One session on a physical line: the transport, a fixed per-call timeout
/// in milliseconds, and the configured device address. Transactions within
/// one session are strictly sequential.
pub struct KellerXLine<T: XLineIO> {
    transport: T,
    timeout_ms: u64,
    address: u8,
}

impl<T: XLineIO> KellerXLine<T> {
    /// Device address this session is configured for.
    pub closed spec fn spec_address(&self) -> u8 {
        self.address
    }

    /// Per-call timeout of this session, in milliseconds.
    pub closed spec fn spec_timeout_ms(&self) -> u64 {
        self.timeout_ms
    }

    /// Buffers this session's transport has accepted in full, oldest first.
    pub closed spec fn spec_written(&self) -> Seq<Seq<u8>> {
        self.transport.spec_written()
    }

    /// Buffers this session's transport has delivered in full, oldest first.
    pub closed spec fn spec_read(&self) -> Seq<Seq<u8>> {
        self.transport.spec_read()
    }

    /// Open a session over `transport` with a fixed per-call timeout and a
    /// configured device address.
    pub fn new(transport: T, timeout_ms: u64, address: u8) -> (r: XLineResult<Self, T::Error>)
        ensures
            r matches Ok(s) && s.spec_address() == address && s.spec_timeout_ms() == timeout_ms
                && s.spec_written() == transport.spec_written() && s.spec_read()
                == transport.spec_read(),
    {
        Ok(Self { transport, timeout_ms, address })
    }

    /// Hand the transport back, ending the session.
    pub fn into_transport(self) -> (r: T)
        ensures
            r.spec_written() == self.spec_written(),
            r.spec_read() == self.spec_read(),
    {
        self.transport
    }

    /// Clear stale input, then encode the request and write it in full
    /// within the session timeout. Succeeds exactly when the transport
    /// accepted the encoded frame; nothing else is ever handed down.
    fn send_frame(&mut self, frame: &XLineFrame) -> (r: XLineResult<(), T::Error>)
        requires
            frame.data@.len() + 4 <= MAX_FRAME_LEN,
        ensures
            final(self).spec_address() == old(self).spec_address(),
            final(self).spec_timeout_ms() == old(self).spec_timeout_ms(),
            final(self).spec_read() == old(self).spec_read(),
            r is Ok <==> final(self).spec_written() == old(self).spec_written().push(
                spec_encode(frame.address, frame.function_code.spec_code(), frame.data@),
            ),
            r is Err ==> final(self).spec_written() == old(self).spec_written(),
            r matches Err(e) ==> e is Transport,
    {
        let ghost wire = spec_encode(frame.address, frame.function_code.spec_code(), frame.data@);
        proof {
            assert(old(self).spec_written().push(wire).len() == old(self).spec_written().len() + 1);
        }
        match self.transport.clear_rx() {
            Ok(_) => {},
            Err(e) => {
                return Err(ProtocolError::from(e));
            },
        }
        let out = encode_frame(frame.address, frame.function_code.code(), frame.data.as_slice());
        match self.transport.write_all(out.as_slice(), self.timeout_ms) {
            Ok(_) => Ok(()),
            Err(e) => Err(ProtocolError::from(e)),
        }
    }

    /// Read exactly the expected number of bytes and run the frame codec on
    /// them; there is no partial-frame recovery. On success the returned
    /// frame is the decode of the one buffer the transport delivered.
    fn read_response(&mut self, expected_len: usize) -> (r: XLineResult<
        XLineResponseFrame,
        T::Error,
    >)
        ensures
            final(self).spec_address() == old(self).spec_address(),
            final(self).spec_timeout_ms() == old(self).spec_timeout_ms(),
            final(self).spec_written() == old(self).spec_written(),
            r matches Ok(f) ==> ({
                let raw = final(self).spec_read().last();
                &&& final(self).spec_read() == old(self).spec_read().push(raw)
                &&& raw.len() == expected_len
                &&& spec_decode(raw) == Ok::<SpecResponseFrame, crate::base::XLineFrameError>(f@)
                &&& frame_checks_out(f@)
                &&& f@.payload.len() + 4 == expected_len
            }),
            r matches Err(ProtocolError::Transport(_)) ==> final(self).spec_read() == old(
                self,
            ).spec_read(),
            r matches Err(ProtocolError::FrameError(fe)) ==> ({
                let raw = final(self).spec_read().last();
                &&& final(self).spec_read() == old(self).spec_read().push(raw)
                &&& raw.len() == expected_len
                &&& spec_decode(raw) == Err::<SpecResponseFrame, crate::base::XLineFrameError>(fe)
            }),
            r matches Err(e) ==> e is Transport || e is FrameError,
    {
        let raw = match self.transport.read_exact(expected_len, self.timeout_ms) {
            Ok(v) => v,
            Err(e) => {
                return Err(ProtocolError::from(e));
            },
        };
        match XLineResponseFrame::from_buffer(raw.as_slice()) {
            Ok(f) => {
                proof {
                    lemma_decode_ok(raw@);
                }
                Ok(f)
            },
            Err(e) => Err(ProtocolError::FrameError(e)),
        }
    }

    /// One request/response exchange: clear stale input, send, receive the
    /// function code's fixed reply length, validate. Succeeds exactly when
    /// the transport carried one full exchange whose reply passes every
    /// protocol rule. No retries: each history grows by at most one entry,
    /// and one failed transaction yields exactly one error.
    fn transaction(&mut self, req: XLineFrame, expected_reply_len: usize) -> (r: XLineResult<
        XLineResponseFrame,
        T::Error,
    >)
        requires
            req.data@.len() + 4 <= MAX_FRAME_LEN,
            expected_reply_len == req.function_code.spec_response_len(),
        ensures
            final(self).spec_address() == old(self).spec_address(),
            final(self).spec_timeout_ms() == old(self).spec_timeout_ms(),
            spec_grows_by_at_most_one(old(self).spec_written(), final(self).spec_written()),
            spec_grows_by_at_most_one(old(self).spec_read(), final(self).spec_read()),
            r is Ok <==> spec_exchange(
                old(self).spec_written(),
                final(self).spec_written(),
                old(self).spec_read(),
                final(self).spec_read(),
                req.address,
                req.function_code,
                req.data@,
            ),
            r matches Ok(f) ==> f@ == spec_last_reply(final(self).spec_read()),
            r matches Err(e) ==> (e is Transport || e is FrameError || e is NonMatchingFunctionCode
                || e is WrongAddress),
    {
        match self.send_frame(&req) {
            Ok(_) => {},
            Err(e) => {
                return Err(e);
            },
        }
        let resp = match self.read_response(expected_reply_len) {
            Ok(f) => f,
            Err(e) => {
                return Err(e);
            },
        };
        validate_response(req.address, req.function_code, resp)
    }

    /// Read a calibration coefficient. On success exactly the encoded frame
    /// carrying the coefficient identifier was sent, and the returned value
    /// is the raw bit pattern of the IEEE-754 single-precision float in the
    /// reply payload, reassembled big-endian.
    pub fn read_coefficent(&mut self, coefficient: Coefficients) -> (r: XLineResult<u32, T::Error>)
        ensures
            final(self).spec_address() == old(self).spec_address(),
            final(self).spec_timeout_ms() == old(self).spec_timeout_ms(),
            spec_grows_by_at_most_one(old(self).spec_written(), final(self).spec_written()),
            spec_grows_by_at_most_one(old(self).spec_read(), final(self).spec_read()),
            r is Ok <==> spec_exchange(
                old(self).spec_written(),
                final(self).spec_written(),
                old(self).spec_read(),
                final(self).spec_read(),
                old(self).spec_address(),
                FunctionCodes::ReadCoefficients,
                seq![coefficient.spec_code()],
            ),
            r matches Ok(v) ==> v == spec_u32_from_be(
                spec_last_reply(final(self).spec_read()).payload,
            ),
            r matches Err(e) ==> (e is Transport || e is FrameError || e is NonMatchingFunctionCode
                || e is WrongAddress),
    {
        let mut data: Vec<u8> = Vec::new();
        data.push(coefficient.code());
        proof {
            assert_seqs_equal!(data@, seq![coefficient.spec_code()]);
        }
        let req = XLineFrame {
            address: self.address,
            function_code: FunctionCodes::ReadCoefficients,
            data,
        };
        let response = match self.transaction(req, FunctionCodes::ReadCoefficients.response_len()) {
            Ok(f) => f,
            Err(e) => {
                return Err(e);
            },
        };
        Ok(response.data_as_f32_bits())
    }

    /// Write a calibration coefficient; `value_bits` is the bit pattern of
    /// the IEEE-754 single-precision float to store. On success exactly the
    /// encoded frame whose payload is the coefficient identifier followed by
    /// the four big-endian value bytes was sent.
    pub fn write_coefficent(&mut self, coefficient: Coefficients, value_bits: u32) -> (r:
        XLineResult<(), T::Error>)
        ensures
            final(self).spec_address() == old(self).spec_address(),
            final(self).spec_timeout_ms() == old(self).spec_timeout_ms(),
            spec_grows_by_at_most_one(old(self).spec_written(), final(self).spec_written()),
            spec_grows_by_at_most_one(old(self).spec_read(), final(self).spec_read()),
            r is Ok <==> spec_exchange(
                old(self).spec_written(),
                final(self).spec_written(),
                old(self).spec_read(),
                final(self).spec_read(),
                old(self).spec_address(),
                FunctionCodes::WriteCoefficients,
                seq![coefficient.spec_code()] + spec_u32_to_be(value_bits),
            ),
            r matches Err(e) ==> (e is Transport || e is FrameError || e is NonMatchingFunctionCode
                || e is WrongAddress),
    {
        let be = u32_to_be_bytes(value_bits);
        let mut data: Vec<u8> = Vec::new();
        data.push(coefficient.code());
        data.push(be[0]);
        data.push(be[1]);
        data.push(be[2]);
        data.push(be[3]);
        proof {
            assert_seqs_equal!(data@, seq![coefficient.spec_code()] + spec_u32_to_be(value_bits));
        }
        let req = XLineFrame {
            address: self.address,
            function_code: FunctionCodes::WriteCoefficients,
            data,
        };
        match self.transaction(req, FunctionCodes::WriteCoefficients.response_len()) {
            Ok(_) => Ok(()),
            Err(e) => Err(e),
        }
    }

    /// Read a single-byte configuration variable: on success exactly the
    /// encoded frame carrying the variable's identifier was sent, and the
    /// returned byte is the first payload byte of the reply.
    pub fn read_configuration(&mut self, variable: ConfigurationCommands) -> (r: XLineResult<
        u8,
        T::Error,
    >)
        ensures
            final(self).spec_address() == old(self).spec_address(),
            final(self).spec_timeout_ms() == old(self).spec_timeout_ms(),
            spec_grows_by_at_most_one(old(self).spec_written(), final(self).spec_written()),
            spec_grows_by_at_most_one(old(self).spec_read(), final(self).spec_read()),
            r is Ok <==> spec_exchange(
                old(self).spec_written(),
                final(self).spec_written(),
                old(self).spec_read(),
                final(self).spec_read(),
                old(self).spec_address(),
                FunctionCodes::ReadConfigurations,
                seq![variable.spec_code()],
            ),
            r matches Ok(v) ==> v == spec_last_reply(final(self).spec_read()).payload[0],
            r matches Err(e) ==> (e is Transport || e is FrameError || e is NonMatchingFunctionCode
                || e is WrongAddress),
    {
        let mut data: Vec<u8> = Vec::new();
        data.push(variable.code());
        proof {
            assert_seqs_equal!(data@, seq![variable.spec_code()]);
        }
        let req = XLineFrame {
            address: self.address,
            function_code: FunctionCodes::ReadConfigurations,
            data,
        };
        let response = match self.transaction(
            req,
            FunctionCodes::ReadConfigurations.response_len(),
        ) {
            Ok(f) => f,
            Err(e) => {
                return Err(e);
            },
        };
        Ok(response.data_as_u8())
    }

    /// Write a single-byte configuration variable: on success exactly the
    /// encoded frame whose payload is the variable's identifier followed by
    /// the value byte was sent.
    pub fn write_configuration(&mut self, variable: ConfigurationCommands, value: u8) -> (r:
        XLineResult<(), T::Error>)
        ensures
            final(self).spec_address() == old(self).spec_address(),
            final(self).spec_timeout_ms() == old(self).spec_timeout_ms(),
            spec_grows_by_at_most_one(old(self).spec_written(), final(self).spec_written()),
            spec_grows_by_at_most_one(old(self).spec_read(), final(self).spec_read()),
            r is Ok <==> spec_exchange(
                old(self).spec_written(),
                final(self).spec_written(),
                old(self).spec_read(),
                final(self).spec_read(),
                old(self).spec_address(),
                FunctionCodes::WriteConfiguration,
                seq![variable.spec_code(), value],
            ),
            r matches Err(e) ==> (e is Transport || e is FrameError || e is NonMatchingFunctionCode
                || e is WrongAddress),
    {
        let mut data: Vec<u8> = Vec::new();
        data.push(variable.code());
        data.push(value);
        proof {
            assert_seqs_equal!(data@, seq![variable.spec_code(), value]);
        }
        let req = XLineFrame {
            address: self.address,
            function_code: FunctionCodes::WriteConfiguration,
            data,
        };
        match self.transaction(req, FunctionCodes::WriteConfiguration.response_len()) {
            Ok(_) => Ok(()),
            Err(e) => Err(e),
        }
    }

    /// Initialize the device and release it for measurement; the request
    /// sent carries an empty payload.
    pub fn init_and_release(&mut self) -> (r: XLineResult<(), T::Error>)
        ensures
            final(self).spec_address() == old(self).spec_address(),
            final(self).spec_timeout_ms() == old(self).spec_timeout_ms(),
            spec_grows_by_at_most_one(old(self).spec_written(), final(self).spec_written()),
            spec_grows_by_at_most_one(old(self).spec_read(), final(self).spec_read()),
            r is Ok <==> spec_exchange(
                old(self).spec_written(),
                final(self).spec_written(),
                old(self).spec_read(),
                final(self).spec_read(),
                old(self).spec_address(),
                FunctionCodes::InitializeAndRealese,
                Seq::<u8>::empty(),
            ),
            r matches Err(e) ==> (e is Transport || e is FrameError || e is NonMatchingFunctionCode
                || e is WrongAddress),
    {
        let data: Vec<u8> = Vec::new();
        let req = XLineFrame {
            address: self.address,
            function_code: FunctionCodes::InitializeAndRealese,
            data,
        };
        match self.transaction(req, FunctionCodes::InitializeAndRealese.response_len()) {
            Ok(_) => Ok(()),
            Err(e) => Err(e),
        }
    }

    /// Assign a new device address: the request's address field itself
    /// carries the address being assigned (not the session's address), its
    /// payload is empty, and the returned byte — the reply's first payload
    /// byte — confirms the new address. The session's own address is
    /// unchanged.
    pub fn write_address(&mut self, address: u8) -> (r: XLineResult<u8, T::Error>)
        ensures
            final(self).spec_address() == old(self).spec_address(),
            final(self).spec_timeout_ms() == old(self).spec_timeout_ms(),
            spec_grows_by_at_most_one(old(self).spec_written(), final(self).spec_written()),
            spec_grows_by_at_most_one(old(self).spec_read(), final(self).spec_read()),
            r is Ok <==> spec_exchange(
                old(self).spec_written(),
                final(self).spec_written(),
                old(self).spec_read(),
                final(self).spec_read(),
                address,
                FunctionCodes::WriteAndReadNewDeviceAddress,
                Seq::<u8>::empty(),
            ),
            r matches Ok(v) ==> v == spec_last_reply(final(self).spec_read()).payload[0],
            r matches Err(e) ==> (e is Transport || e is FrameError || e is NonMatchingFunctionCode
                || e is WrongAddress),
    {
        let data: Vec<u8> = Vec::new();
        let req = XLineFrame {
            address,
            function_code: FunctionCodes::WriteAndReadNewDeviceAddress,
            data,
        };
        let response = match self.transaction(
            req,
            FunctionCodes::WriteAndReadNewDeviceAddress.response_len(),
        ) {
            Ok(f) => f,
            Err(e) => {
                return Err(e);
            },
        };
        Ok(response.data_as_u8())
    }

    /// Read the device serial number: the request sent carries an empty
    /// payload, and the four payload bytes of the reply are reassembled as
    /// a big-endian unsigned 32-bit integer.
    pub fn read_serial_number(&mut self) -> (r: XLineResult<u32, T::Error>)
        ensures
            final(self).spec_address() == old(self).spec_address(),
            final(self).spec_timeout_ms() == old(self).spec_timeout_ms(),
            spec_grows_by_at_most_one(old(self).spec_written(), final(self).spec_written()),
            spec_grows_by_at_most_one(old(self).spec_read(), final(self).spec_read()),
            r is Ok <==> spec_exchange(
                old(self).spec_written(),
                final(self).spec_written(),
                old(self).spec_read(),
                final(self).spec_read(),
                old(self).spec_address(),
                FunctionCodes::ReadSerialNumber,
                Seq::<u8>::empty(),
            ),
            r matches Ok(v) ==> v == spec_u32_from_be(
                spec_last_reply(final(self).spec_read()).payload,
            ),
            r matches Err(e) ==> (e is Transport || e is FrameError || e is NonMatchingFunctionCode
                || e is WrongAddress),
    {
        let data: Vec<u8> = Vec::new();
        let req = XLineFrame {
            address: self.address,
            function_code: FunctionCodes::ReadSerialNumber,
            data,
        };
        let response = match self.transaction(req, FunctionCodes::ReadSerialNumber.response_len()) {
            Ok(f) => f,
            Err(e) => {
                return Err(e);
            },
        };
        Ok(response.data_as_f32_bits())
    }

    /// Read a channel as a float: on success exactly the encoded frame
    /// carrying the channel number was sent, and the returned value is the
    /// raw bit pattern of the IEEE-754 single-precision float in the first
    /// four payload bytes of the reply.
    pub fn read_channel_value(&mut self, channel: Channels) -> (r: XLineResult<u32, T::Error>)
        ensures
            final(self).spec_address() == old(self).spec_address(),
            final(self).spec_timeout_ms() == old(self).spec_timeout_ms(),
            spec_grows_by_at_most_one(old(self).spec_written(), final(self).spec_written()),
            spec_grows_by_at_most_one(old(self).spec_read(), final(self).spec_read()),
            r is Ok <==> spec_exchange(
                old(self).spec_written(),
                final(self).spec_written(),
                old(self).spec_read(),
                final(self).spec_read(),
                old(self).spec_address(),
                FunctionCodes::ReadChannelValueFloat,
                seq![channel.spec_code()],
            ),
            r matches Ok(v) ==> v == spec_u32_from_be(
                spec_last_reply(final(self).spec_read()).payload,
            ),
            r matches Err(e) ==> (e is Transport || e is FrameError || e is NonMatchingFunctionCode
                || e is WrongAddress),
    {
        let mut data: Vec<u8> = Vec::new();
        data.push(channel.code());
        proof {
            assert_seqs_equal!(data@, seq![channel.spec_code()]);
        }
        let req = XLineFrame {
            address: self.address,
            function_code: FunctionCodes::ReadChannelValueFloat,
            data,
        };
        let response = match self.transaction(
            req,
            FunctionCodes::ReadChannelValueFloat.response_len(),
        ) {
            Ok(f) => f,
            Err(e) => {
                return Err(e);
            },
        };
        Ok(response.data_as_f32_bits())
    }

    /// Issue a zero/tare command for a channel: on success exactly the
    /// encoded frame whose payload is the command byte alone was sent.
    pub fn zero(&mut self, channel: ZeroCommands) -> (r: XLineResult<(), T::Error>)
        ensures
            final(self).spec_address() == old(self).spec_address(),
            final(self).spec_timeout_ms() == old(self).spec_timeout_ms(),
            spec_grows_by_at_most_one(old(self).spec_written(), final(self).spec_written()),
            spec_grows_by_at_most_one(old(self).spec_read(), final(self).spec_read()),
            r is Ok <==> spec_exchange(
                old(self).spec_written(),
                final(self).spec_written(),
                old(self).spec_read(),
                final(self).spec_read(),
                old(self).spec_address(),
                FunctionCodes::ZeroCommand,
                seq![channel.spec_code()],
            ),
            r matches Err(e) ==> (e is Transport || e is FrameError || e is NonMatchingFunctionCode
                || e is WrongAddress),
    {
        let mut data: Vec<u8> = Vec::new();
        data.push(channel.code());
        proof {
            assert_seqs_equal!(data@, seq![channel.spec_code()]);
        }
        let req = XLineFrame {
            address: self.address,
            function_code: FunctionCodes::ZeroCommand,
            data,
        };
        match self.transaction(req, FunctionCodes::ZeroCommand.response_len()) {
            Ok(_) => Ok(()),
            Err(e) => Err(e),
        }
    }

    /// Issue a zero/tare command with an explicit set value; on success
    /// exactly the encoded frame whose payload is the command byte followed
    /// by the four big-endian bytes of `value_bits` (the IEEE-754 bit
    /// pattern of the value) was sent.
    pub fn zero_with_value(&mut self, channel: ZeroCommands, value_bits: u32) -> (r: XLineResult<
        (),
        T::Error,
    >)
        ensures
            final(self).spec_address() == old(self).spec_address(),
            final(self).spec_timeout_ms() == old(self).spec_timeout_ms(),
            spec_grows_by_at_most_one(old(self).spec_written(), final(self).spec_written()),
            spec_grows_by_at_most_one(old(self).spec_read(), final(self).spec_read()),
            r is Ok <==> spec_exchange(
                old(self).spec_written(),
                final(self).spec_written(),
                old(self).spec_read(),
                final(self).spec_read(),
                old(self).spec_address(),
                FunctionCodes::ZeroCommand,
                seq![channel.spec_code()] + spec_u32_to_be(value_bits),
            ),
            r matches Err(e) ==> (e is Transport || e is FrameError || e is NonMatchingFunctionCode
                || e is WrongAddress),
    {
        let be = u32_to_be_bytes(value_bits);
        let mut data: Vec<u8> = Vec::new();
        data.push(channel.code());
        data.push(be[0]);
        data.push(be[1]);
        data.push(be[2]);
        data.push(be[3]);
        proof {
            assert_seqs_equal!(data@, seq![channel.spec_code()] + spec_u32_to_be(value_bits));
        }
        let req = XLineFrame {
            address: self.address,
            function_code: FunctionCodes::ZeroCommand,
            data,
        };
        match self.transaction(req, FunctionCodes::ZeroCommand.response_len()) {
            Ok(_) => Ok(()),
            Err(e) => Err(e),
        }
    }
}

} // verus!
