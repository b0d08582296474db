//! The Proxmark3 USB-serial protocol on bytes: command frames, response
//! frames and the payloads of the commands this library sends.

use vstd::prelude::*;

use crate::tlv::{append_bytes, copy_range};

verus! {

pub const CMD_MAX_DATA_SIZE: usize = 512;
/// `PM3a`, little-endian.
pub const COMMANDNG_PREAMBLE_MAGIC: u32 = 0x61334d50;
/// `PM3b`, little-endian.
pub const RESPONSENG_PREAMBLE_MAGIC: u32 = 0x62334d50;
/// `a3`, little-endian.
pub const COMMANDNG_POSTAMBLE_MAGIC: u16 = 0x3361;
/// `b3`, little-endian.
pub const RESPONSENG_POSTAMBLE_MAGIC: u16 = 0x3362;
/// The header of an NG response: magic, length and NG bit, status, reason,
/// command.
pub const RESPONSE_NG_HEADER_LEN: usize = 10;
/// The header of a MIX response: the NG header and three 64-bit arguments.
pub const RESPONSE_MIX_HEADER_LEN: usize = 34;
/// The capabilities version this library speaks.
pub const SUPPORTED_CAPABILITIES_VERSION: u8 = 6;

/// ISO 14443-A reader flags.
pub const ISO14A_CONNECT: u16 = 0x0001;
pub const ISO14A_NO_DISCONNECT: u16 = 0x0002;
pub const ISO14A_APDU: u16 = 0x0004;
/// ISO 14443-B command flags.
pub const ISO14B_CONNECT: u16 = 0x0001;
pub const ISO14B_DISCONNECT: u16 = 0x0002;
pub const ISO14B_APDU: u16 = 0x0004;
pub const ISO14B_SELECT_STD: u16 = 0x0040;
pub const ISO14B_SET_TIMEOUT: u16 = 0x0100;
pub const ISO14B_CLEARTRACE: u16 = 0x0800;

/// Status codes of Proxmark3 responses.
#[derive(Debug, Clone, Copy, PartialEq, Eq, Structural)]
pub enum Status {
    Success,
    EUndef,
    EInvArg,
    EDevNotSupp,
    ETimeout,
    EOpAborted,
    ENotImpl,
    ERFTrans,
    EIo,
    EOvflow,
    ESoft,
    EFlash,
    EMalloc,
    EFile,
    ENotty,
    EInit,
    EWrongAnswer,
    EOutOfBound,
    ECardExchange,
    EApduEncodeFail,
    EApduFail,
    EFailed,
    EPartial,
    ETearoff,
    ECrc,
    EStaticNonce,
    ENoPacs,
    ELength,
    ENoKey,
    ENoData,
    EFatal,
    SQuit,
    Reserved,
}

pub open spec fn status_value(s: Status) -> i8 {
    match s {
        Status::Success => 0i8,
        Status::EUndef => -1i8,
        Status::EInvArg => -2i8,
        Status::EDevNotSupp => -3i8,
        Status::ETimeout => -4i8,
        Status::EOpAborted => -5i8,
        Status::ENotImpl => -6i8,
        Status::ERFTrans => -7i8,
        Status::EIo => -8i8,
        Status::EOvflow => -9i8,
        Status::ESoft => -10i8,
        Status::EFlash => -11i8,
        Status::EMalloc => -12i8,
        Status::EFile => -13i8,
        Status::ENotty => -14i8,
        Status::EInit => -15i8,
        Status::EWrongAnswer => -16i8,
        Status::EOutOfBound => -17i8,
        Status::ECardExchange => -18i8,
        Status::EApduEncodeFail => -19i8,
        Status::EApduFail => -20i8,
        Status::EFailed => -21i8,
        Status::EPartial => -22i8,
        Status::ETearoff => -23i8,
        Status::ECrc => -24i8,
        Status::EStaticNonce => -25i8,
        Status::ENoPacs => -26i8,
        Status::ELength => -27i8,
        Status::ENoKey => -28i8,
        Status::ENoData => -98i8,
        Status::EFatal => -99i8,
        Status::SQuit => -100i8,
        Status::Reserved => i8::MIN,
    }
}

impl Status {
    pub fn code(&self) -> (r: i8)
        ensures
            r == status_value(*self),
    {
        match self {
            Status::Success => 0,
            Status::EUndef => -1,
            Status::EInvArg => -2,
            Status::EDevNotSupp => -3,
            Status::ETimeout => -4,
            Status::EOpAborted => -5,
            Status::ENotImpl => -6,
            Status::ERFTrans => -7,
            Status::EIo => -8,
            Status::EOvflow => -9,
            Status::ESoft => -10,
            Status::EFlash => -11,
            Status::EMalloc => -12,
            Status::EFile => -13,
            Status::ENotty => -14,
            Status::EInit => -15,
            Status::EWrongAnswer => -16,
            Status::EOutOfBound => -17,
            Status::ECardExchange => -18,
            Status::EApduEncodeFail => -19,
            Status::EApduFail => -20,
            Status::EFailed => -21,
            Status::EPartial => -22,
            Status::ETearoff => -23,
            Status::ECrc => -24,
            Status::EStaticNonce => -25,
            Status::ENoPacs => -26,
            Status::ELength => -27,
            Status::ENoKey => -28,
            Status::ENoData => -98,
            Status::EFatal => -99,
            Status::SQuit => -100,
            Status::Reserved => i8::MIN,
        }
    }

    /// The named status for a code, if it is one.
    pub fn from_repr(code: i8) -> (r: Option<Status>)
        ensures
            r matches Some(s) ==> status_value(s) == code,
            r is None ==> forall|s: Status| status_value(s) != code,
    {
        match code {
        0 => Some(Status::Success),
        -1 => Some(Status::EUndef),
        -2 => Some(Status::EInvArg),
        -3 => Some(Status::EDevNotSupp),
        -4 => Some(Status::ETimeout),
        -5 => Some(Status::EOpAborted),
        -6 => Some(Status::ENotImpl),
        -7 => Some(Status::ERFTrans),
        -8 => Some(Status::EIo),
        -9 => Some(Status::EOvflow),
        -10 => Some(Status::ESoft),
        -11 => Some(Status::EFlash),
        -12 => Some(Status::EMalloc),
        -13 => Some(Status::EFile),
        -14 => Some(Status::ENotty),
        -15 => Some(Status::EInit),
        -16 => Some(Status::EWrongAnswer),
        -17 => Some(Status::EOutOfBound),
        -18 => Some(Status::ECardExchange),
        -19 => Some(Status::EApduEncodeFail),
        -20 => Some(Status::EApduFail),
        -21 => Some(Status::EFailed),
        -22 => Some(Status::EPartial),
        -23 => Some(Status::ETearoff),
        -24 => Some(Status::ECrc),
        -25 => Some(Status::EStaticNonce),
        -26 => Some(Status::ENoPacs),
        -27 => Some(Status::ELength),
        -28 => Some(Status::ENoKey),
        -98 => Some(Status::ENoData),
        -99 => Some(Status::EFatal),
        -100 => Some(Status::SQuit),
            _ => if code == i8::MIN {
                Some(Status::Reserved)
            } else {
                None
            },
        }
    }

    pub fn name(&self) -> &'static str {
        match self {
            Status::Success => "Success",
            Status::EUndef => "EUndef",
            Status::EInvArg => "EInvArg",
            Status::EDevNotSupp => "EDevNotSupp",
            Status::ETimeout => "ETimeout",
            Status::EOpAborted => "EOpAborted",
            Status::ENotImpl => "ENotImpl",
            Status::ERFTrans => "ERFTrans",
            Status::EIo => "EIo",
            Status::EOvflow => "EOvflow",
            Status::ESoft => "ESoft",
            Status::EFlash => "EFlash",
            Status::EMalloc => "EMalloc",
            Status::EFile => "EFile",
            Status::ENotty => "ENotty",
            Status::EInit => "EInit",
            Status::EWrongAnswer => "EWrongAnswer",
            Status::EOutOfBound => "EOutOfBound",
            Status::ECardExchange => "ECardExchange",
            Status::EApduEncodeFail => "EApduEncodeFail",
            Status::EApduFail => "EApduFail",
            Status::EFailed => "EFailed",
            Status::EPartial => "EPartial",
            Status::ETearoff => "ETearoff",
            Status::ECrc => "ECrc",
            Status::EStaticNonce => "EStaticNonce",
            Status::ENoPacs => "ENoPacs",
            Status::ELength => "ELength",
            Status::ENoKey => "ENoKey",
            Status::ENoData => "ENoData",
            Status::EFatal => "EFatal",
            Status::SQuit => "SQuit",
            Status::Reserved => "Reserved",
        }
    }
}

/// The Proxmark3 commands this library sends.
#[derive(Debug, Clone, Copy, PartialEq, Eq, Structural)]
pub enum Command {
    DebugPrintString,
    Ping,
    Capabilities,
    QuitSession,
    Wtx,
    Ack,
    HfDropfield,
    HfIso14443AReader,
    HfIso14443BCommand,
}

pub open spec fn command_value(c: Command) -> u16 {
    match c {
        Command::DebugPrintString => 0x0100,
        Command::Ping => 0x0109,
        Command::Capabilities => 0x0112,
        Command::QuitSession => 0x0113,
        Command::Wtx => 0x0116,
        Command::Ack => 0x00ff,
        Command::HfDropfield => 0x0430,
        Command::HfIso14443AReader => 0x0385,
        Command::HfIso14443BCommand => 0x0305,
    }
}

impl Command {
    pub fn code(&self) -> (r: u16)
        ensures
            r == command_value(*self),
    {
        match self {
            Command::DebugPrintString => 0x0100,
            Command::Ping => 0x0109,
            Command::Capabilities => 0x0112,
            Command::QuitSession => 0x0113,
            Command::Wtx => 0x0116,
            Command::Ack => 0x00ff,
            Command::HfDropfield => 0x0430,
            Command::HfIso14443AReader => 0x0385,
            Command::HfIso14443BCommand => 0x0305,
        }
    }
}

/// No card could be selected in the field.
#[derive(Debug, Clone, Copy, PartialEq, Eq, Structural)]
pub struct CannotSelectError;

/// A response ended in a wrong postamble.
#[derive(Debug, Clone, Copy, PartialEq, Eq, Structural)]
pub struct CRCMismatchError;

/// A response began with a wrong preamble.
#[derive(Debug, Clone, Copy, PartialEq, Eq, Structural)]
pub struct PreambleMismatchError;

/// Command data longer than a frame can carry.
#[derive(Debug, Clone, Copy, PartialEq, Eq, Structural)]
pub struct DataTooLongError {
    pub found_len: usize,
    pub max_len: usize,
}

/// A status other than success, with its name when it has one.
#[derive(Debug, Clone, PartialEq)]
pub struct CommandError {
    pub error_code: i8,
    pub error_name: Option<String>,
}

/// A response that is not the one expected.
#[derive(Debug, Clone, PartialEq)]
pub struct UnexpectedResponse {
    pub additional_text: String,
}

/// A decoded response frame.
#[derive(Debug, Clone, PartialEq)]
pub struct PM3PacketResponseNG {
    pub length: u16,
    pub ng: bool,
    pub status: i8,
    pub reason: i8,
    pub cmd: u16,
    pub arg0: u64,
    pub arg1: u64,
    pub arg2: u64,
    pub data: Vec<u8>,
}

/// Why a response frame could not be decoded.
#[derive(Debug, Clone, Copy, PartialEq, Eq, Structural)]
pub enum FrameError {
    Preamble(PreambleMismatchError),
    Crc(CRCMismatchError),
    /// The frame is shorter than its header says.
    Truncated,
}


pub open spec fn le16(x: u16) -> Seq<u8> {
    seq![(x % 0x100) as u8, (x / 0x100) as u8]
}

pub open spec fn le32(x: u32) -> Seq<u8> {
    seq![
        (x % 0x100) as u8,
        ((x / 0x100) % 0x100) as u8,
        ((x / 0x1_0000) % 0x100) as u8,
        (x / 0x100_0000) as u8,
    ]
}

pub open spec fn le64(x: u64) -> Seq<u8> {
    le32((x % 0x1_0000_0000) as u32) + le32((x / 0x1_0000_0000) as u32)
}

/// A 16-bit little-endian number at `at`.
pub open spec fn u16_at(b: Seq<u8>, at: int) -> u16 {
    (b[at] as int + b[at + 1] as int * 0x100) as u16
}

/// A 64-bit little-endian number at `at`.
pub open spec fn u64_at(b: Seq<u8>, at: int) -> u64 {
    (b[at] as int + b[at + 1] as int * 0x100 + b[at + 2] as int * 0x1_0000 + b[at + 3] as int
        * 0x100_0000 + b[at + 4] as int * 0x1_0000_0000 + b[at + 5] as int * 0x100_0000_0000
        + b[at + 6] as int * 0x1_0000_0000_0000 + b[at + 7] as int * 0x100_0000_0000_0000) as u64
}

/// The 15-bit length and the NG bit packed into 16 bits.
pub open spec fn merged_len_ng(len: u16, ng: bool) -> u16 {
    (len % 0x8000 + if ng {
        0x8000int
    } else {
        0int
    }) as u16
}

/// Packs a 15-bit length and the NG bit (the top bit) into 16 bits.
pub fn merge_len_and_ng(len: u16, ng: bool) -> (r: u16)
    ensures
        r == merged_len_ng(len, ng),
{
    let l = len % 0x8000;
    if ng {
        l + 0x8000
    } else {
        l
    }
}

/// Splits 16 bits into the 15-bit length and the NG bit.
pub fn split_len_and_ng(length_and_ng: u16) -> (r: (u16, bool))
    ensures
        r == ((length_and_ng % 0x8000) as u16, length_and_ng >= 0x8000),
{
    (length_and_ng % 0x8000, length_and_ng >= 0x8000)
}

fn push_le16(out: &mut Vec<u8>, x: u16)
    ensures
        final(out)@ == old(out)@ + le16(x),
{
    out.push((x % 0x100) as u8);
    out.push((x / 0x100) as u8);
    assert(final(out)@ =~= old(out)@ + le16(x));
}

fn push_le32(out: &mut Vec<u8>, x: u32)
    ensures
        final(out)@ == old(out)@ + le32(x),
{
    out.push((x % 0x100) as u8);
    out.push(((x / 0x100) % 0x100) as u8);
    out.push(((x / 0x1_0000) % 0x100) as u8);
    out.push((x / 0x100_0000) as u8);
    assert(final(out)@ =~= old(out)@ + le32(x));
}

fn push_le64(out: &mut Vec<u8>, x: u64)
    ensures
        final(out)@ == old(out)@ + le64(x),
{
    push_le32(out, (x % 0x1_0000_0000) as u32);
    push_le32(out, (x / 0x1_0000_0000) as u32);
    assert(final(out)@ =~= old(out)@ + le64(x));
}

/// The data of a MIX command: three 64-bit arguments, little-endian, then
/// the data.
pub fn convert_mix_args_to_ng(data: &Vec<u8>, arg0: u64, arg1: u64, arg2: u64) -> (r: Vec<u8>)
    ensures
        r@ == le64(arg0) + le64(arg1) + le64(arg2) + data@,
{
    let mut out: Vec<u8> = Vec::new();
    push_le64(&mut out, arg0);
    push_le64(&mut out, arg1);
    push_le64(&mut out, arg2);
    append_bytes(&mut out, data.as_slice());
    assert(out@ =~= le64(arg0) + le64(arg1) + le64(arg2) + data@);
    out
}

/// The data of an ISO 14443-B command: flags, timeout, data length, data.
pub fn serialize_14b_command(flags: u16, timeout: u32, data: &Vec<u8>) -> (r: Vec<u8>)
    requires
        data@.len() <= 0xFFFF,
    ensures
        r@ == le16(flags) + le32(timeout) + le16(data@.len() as u16) + data@,
{
    let mut out: Vec<u8> = Vec::new();
    push_le16(&mut out, flags);
    push_le32(&mut out, timeout);
    push_le16(&mut out, data.len() as u16);
    append_bytes(&mut out, data.as_slice());
    assert(out@ =~= le16(flags) + le32(timeout) + le16(data@.len() as u16) + data@);
    out
}

/// Success, or the error for a status with its name when it has one.
pub fn check_response_status(response_status: i8) -> (r: Result<(), CommandError>)
    ensures
        r is Ok <==> response_status == 0,
        r matches Err(e) ==> e.error_code == response_status && (e.error_name is Some <==> exists|
            s: Status,
        | status_value(s) == response_status),
{
    if response_status == 0 {
        return Ok(());
    }
    let error_name = match Status::from_repr(response_status) {
        Some(s) => Some(String::from_str(s.name())),
        None => None,
    };
    Err(CommandError { error_code: response_status, error_name })
}

/// A command frame: preamble, length with NG bit, command, data, postamble.
pub open spec fn command_frame(cmd: u16, data: Seq<u8>, ng: bool) -> Seq<u8> {
    le32(COMMANDNG_PREAMBLE_MAGIC) + le16(merged_len_ng(data.len() as u16, ng)) + le16(cmd) + data
        + le16(COMMANDNG_POSTAMBLE_MAGIC)
}

/// Frames a command. Data longer than 512 bytes does not fit.
pub fn encode_command_frame(cmd: u16, data: &Vec<u8>, ng: bool) -> (r: Result<
    Vec<u8>,
    DataTooLongError,
>)
    ensures
        r is Err <==> data@.len() > CMD_MAX_DATA_SIZE,
        r matches Ok(b) ==> b@ == command_frame(cmd, data@, ng),
        r matches Err(e) ==> e.found_len == data@.len() && e.max_len == CMD_MAX_DATA_SIZE,
{
    if data.len() > CMD_MAX_DATA_SIZE {
        return Err(DataTooLongError { found_len: data.len(), max_len: CMD_MAX_DATA_SIZE });
    }
    let mut out: Vec<u8> = Vec::new();
    push_le32(&mut out, COMMANDNG_PREAMBLE_MAGIC);
    push_le16(&mut out, merge_len_and_ng(data.len() as u16, ng));
    push_le16(&mut out, cmd);
    append_bytes(&mut out, data.as_slice());
    push_le16(&mut out, COMMANDNG_POSTAMBLE_MAGIC);
    assert(out@ =~= command_frame(cmd, data@, ng));
    Ok(out)
}

/// Whether a response begins with the response preamble.
pub open spec fn has_response_preamble(b: Seq<u8>) -> bool {
    b.len() >= 4 && b.subrange(0, 4) == le32(RESPONSENG_PREAMBLE_MAGIC)
}

fn check_preamble(b: &[u8]) -> (r: bool)
    requires
        b@.len() >= 4,
    ensures
        r == has_response_preamble(b@),
{
    let ok = b[0] == 0x50 && b[1] == 0x4d && b[2] == 0x33 && b[3] == 0x62;
    assert(le32(RESPONSENG_PREAMBLE_MAGIC) =~= seq![0x50u8, 0x4du8, 0x33u8, 0x62u8]);
    if !ok {
        assert(b@.subrange(0, 4)[0] == b@[0] && b@.subrange(0, 4)[1] == b@[1] && b@.subrange(0, 4)[2]
            == b@[2] && b@.subrange(0, 4)[3] == b@[3]);
    } else {
        assert(b@.subrange(0, 4) =~= le32(RESPONSENG_PREAMBLE_MAGIC));
    }
    ok
}

/// The whole length of a response frame, from its first six bytes: header,
/// data and postamble.
pub fn response_frame_length(head: &[u8]) -> (r: Result<usize, FrameError>)
    ensures
        head@.len() < 6 ==> r == Err::<usize, FrameError>(FrameError::Truncated),
        head@.len() >= 6 && !has_response_preamble(head@) ==> r == Err::<usize, FrameError>(
            FrameError::Preamble(PreambleMismatchError),
        ),
        r matches Ok(n) ==> has_response_preamble(head@) && n == RESPONSE_NG_HEADER_LEN + (u16_at(
            head@,
            4,
        ) % 0x8000) + 2,
{
    if head.len() < 6 {
        return Err(FrameError::Truncated);
    }
    if !check_preamble(head) {
        return Err(FrameError::Preamble(PreambleMismatchError));
    }
    let (len, _) = split_len_and_ng((head[4] as u16) + (head[5] as u16) * 0x100);
    Ok(RESPONSE_NG_HEADER_LEN + len as usize + 2)
}

/// Where the data of an NG response starts and how long it is; the answer
/// to an ISO 14443-B command has three more header bytes.
pub open spec fn ng_data_span(len: u16, sent_cmd: u16) -> Option<(nat, nat)> {
    if sent_cmd == 0x0305 {
        if len < 3 {
            None
        } else {
            Some((13, (len - 3) as nat))
        }
    } else {
        Some((10, len as nat))
    }
}

/// Reads a little-endian 16-bit number.
fn read_u16(b: &[u8], at: usize) -> (r: u16)
    requires
        at + 2 <= b@.len(),
    ensures
        r == u16_at(b@, at as int),
{
    (b[at] as u16) + (b[at + 1] as u16) * 0x100
}

/// Reads a little-endian 64-bit number.
fn read_u64(b: &[u8], at: usize) -> (r: u64)
    requires
        at + 8 <= b@.len(),
    ensures
        r == u64_at(b@, at as int),
{
    (b[at] as u64) + (b[at + 1] as u64) * 0x100 + (b[at + 2] as u64) * 0x1_0000 + (b[at + 3] as u64)
        * 0x100_0000 + (b[at + 4] as u64) * 0x1_0000_0000 + (b[at + 5] as u64) * 0x100_0000_0000
        + (b[at + 6] as u64) * 0x1_0000_0000_0000 + (b[at + 7] as u64) * 0x100_0000_0000_0000
}

/// Decodes a response frame to the command `sent_cmd`. The frame must begin
/// with the response preamble and its data must end in the response
/// postamble.
pub fn decode_response_frame(buf: &[u8], sent_cmd: u16) -> (r: Result<
    PM3PacketResponseNG,
    FrameError,
>)
    ensures
        buf@.len() < RESPONSE_NG_HEADER_LEN ==> r == Err::<PM3PacketResponseNG, FrameError>(
            FrameError::Truncated,
        ),
        buf@.len() >= RESPONSE_NG_HEADER_LEN && !has_response_preamble(buf@) ==> r == Err::<
            PM3PacketResponseNG,
            FrameError,
        >(FrameError::Preamble(PreambleMismatchError)),
        r matches Ok(p) ==> {
            &&& has_response_preamble(buf@)
            &&& buf@.len() >= RESPONSE_NG_HEADER_LEN
            &&& p.ng == (u16_at(buf@, 4) >= 0x8000)
            &&& p.status == buf@[6] as i8
            &&& p.reason == buf@[7] as i8
            &&& p.cmd == u16_at(buf@, 8)
            &&& p.ng ==> match ng_data_span((u16_at(buf@, 4) % 0x8000) as u16, sent_cmd) {
                Some((off, n)) => p.data@ == buf@.subrange(off as int, (off + n) as int)
                    && p.length == n && u16_at(buf@, (off + n) as int) == RESPONSENG_POSTAMBLE_MAGIC
                    && p.arg0 == 0 && p.arg1 == 0 && p.arg2 == 0,
                None => false,
            }
            &&& !p.ng ==> buf@.len() >= RESPONSE_MIX_HEADER_LEN && p.arg0 == u64_at(buf@, 10)
                && p.arg1 == u64_at(buf@, 18) && p.arg2 == u64_at(buf@, 26) && p.length == (u16_at(
                buf@,
                4,
            ) % 0x8000) && p.length >= 24 && u16_at(buf@, 34 + p.length - 24)
                == RESPONSENG_POSTAMBLE_MAGIC && p.data@ == buf@.subrange(
                34,
                34 + (if sent_cmd == 0x0385 {
                    (p.arg0 % 0x1_0000) as int
                } else {
                    p.length - 24
                }),
            )
        },
{
    if buf.len() < RESPONSE_NG_HEADER_LEN {
        return Err(FrameError::Truncated);
    }
    if !check_preamble(buf) {
        return Err(FrameError::Preamble(PreambleMismatchError));
    }
    let (data_length, ng) = split_len_and_ng(read_u16(buf, 4));
    let status = buf[6] as i8;
    let reason = buf[7] as i8;
    let cmd = read_u16(buf, 8);
    if ng {
        let mut offset: usize = RESPONSE_NG_HEADER_LEN;
        let mut length = data_length;
        if sent_cmd == 0x0305 {
            if length < 3 {
                return Err(FrameError::Truncated);
            }
            offset = offset + 3;
            length = length - 3;
        }
        let end = offset + length as usize;
        if buf.len() < end + 2 {
            return Err(FrameError::Truncated);
        }
        if read_u16(buf, end) != RESPONSENG_POSTAMBLE_MAGIC {
            return Err(FrameError::Crc(CRCMismatchError));
        }
        let data = copy_range(buf, offset, end);
        Ok(
            PM3PacketResponseNG {
                length,
                ng: true,
                status,
                reason,
                cmd,
                arg0: 0,
                arg1: 0,
                arg2: 0,
                data,
            },
        )
    } else {
        if buf.len() < RESPONSE_MIX_HEADER_LEN || data_length < 24 {
            return Err(FrameError::Truncated);
        }
        let arg0 = read_u64(buf, 10);
        let arg1 = read_u64(buf, 18);
        let arg2 = read_u64(buf, 26);
        let actual: usize = if sent_cmd == 0x0385 {
            (arg0 % 0x1_0000) as usize
        } else {
            (data_length - 24) as usize
        };
        let field_end = RESPONSE_MIX_HEADER_LEN + (data_length - 24) as usize;
        if buf.len() < field_end + 2 || buf.len() - RESPONSE_MIX_HEADER_LEN < actual {
            return Err(FrameError::Truncated);
        }
        if read_u16(buf, field_end) != RESPONSENG_POSTAMBLE_MAGIC {
            return Err(FrameError::Crc(CRCMismatchError));
        }
        let data = copy_range(buf, RESPONSE_MIX_HEADER_LEN, RESPONSE_MIX_HEADER_LEN + actual);
        Ok(
            PM3PacketResponseNG {
                length: data_length,
                ng: false,
                status,
                reason,
                cmd,
                arg0,
                arg1,
                arg2,
                data,
            },
        )
    }
}

/// The data of a ping: the bytes 0 to 31.
pub fn ping_payload() -> (r: Vec<u8>)
    ensures
        r@.len() == 32,
        forall|i: int| 0 <= i < 32 ==> r@[i] == i,
{
    let mut v: Vec<u8> = Vec::new();
    let mut i: u8 = 0;
    while i < 32
        invariant
            i <= 32,
            v@.len() == i,
            forall|k: int| 0 <= k < i ==> v@[k] == k,
        decreases 32 - i,
    {
        v.push(i);
        i = i + 1;
    }
    v
}

} // verus!
