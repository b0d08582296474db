//! ISO/IEC 7816-4 command and response APDUs as ICAO 9303 uses them, with
//! Secure Messaging after Basic Access Control.

use vstd::prelude::*;

use crate::data_groups::DataGroup;
use crate::smartcard::Smartcard;
use crate::crypto::{
    pad2, padding_method_2_pad, padding_method_2_unpad, retail_mac, retail_mac_of,
    tdes_cbc_decrypt_of, tdes_cbc_encrypt_of, tdes_dec, tdes_enc, unpad2,
};
use crate::tlv::{
    length_bytes,    append_bytes, bytes_equal, copy_range, encode_model, get_tlv_value_bytes, lemma_parsed_models_wf, lemma_tag_map_wf,
    model_wf, models, sort_tlvs_by_tag, spec_parse_prefix, spec_value_bytes, tag_map, Tlv, TlvMap,
    TlvModel,
};

verus! {

/// Instruction bytes used with eMRTDs.
pub const INS_READ_BINARY: u8 = 0xB0;
pub const INS_SELECT_FILE: u8 = 0xA4;
pub const INS_GET_CHALLENGE: u8 = 0x84;
pub const INS_EXTERNAL_AUTHENTICATION: u8 = 0x82;

pub const P1_SELECT_BY_EF: u8 = 0x02;
pub const P1_SELECT_BY_NAME: u8 = 0x04;
pub const P2_PROPRIETARY: u8 = 0x0C;

/// The instructions that this library sends.
#[derive(Debug, Clone, Copy, PartialEq, Eq, Structural)]
pub enum Command {
    ReadBinary,
    SelectFile,
    GetChallenge,
    ExternalAuthentication,
}

impl Command {
    /// The instruction byte.
    pub fn ins(&self) -> (r: u8)
        ensures
            r == match *self {
                Command::ReadBinary => INS_READ_BINARY,
                Command::SelectFile => INS_SELECT_FILE,
                Command::GetChallenge => INS_GET_CHALLENGE,
                Command::ExternalAuthentication => INS_EXTERNAL_AUTHENTICATION,
            },
    {
        match self {
            Command::ReadBinary => INS_READ_BINARY,
            Command::SelectFile => INS_SELECT_FILE,
            Command::GetChallenge => INS_GET_CHALLENGE,
            Command::ExternalAuthentication => INS_EXTERNAL_AUTHENTICATION,
        }
    }
}

/// The status words of ISO/IEC 7816-4 that this library names.
#[derive(Debug, Clone, Copy, PartialEq, Eq, Structural)]
pub enum StatusCode {
    Success,
    BytesRemaining00,
    WarningStateUnchanged,
    DataCorrupt,
    FileEof,
    InvalidDf,
    InvalidFile,
    FileTerminated,
    AuthFailed,
    FileFilled,
    MemoryFull,
    WriteMemoryErr,
    WrongLength,
    LogicalChannelNotSupported,
    SecureMessagingNotSupported,
    LastCommandExpected,
    CommandChainingNotSupported,
    TransactionFail,
    SelectFileErr,
    SecurityStatusNotSatisfied,
    FileInvalid,
    DataInvalid,
    ConditionsNotSatisfied,
    CommandNotAllowed,
    SmDataMissing,
    SmDataIncorrect,
    AppletSelectFailed,
    InvalidP1P2,
    WrongData,
    FuncNotSupported,
    FileNotFound,
    RecordNotFound,
    FileFull,
    LcTlvConflict,
    IncorrectP1P2,
    NcInconsistentWithP1P2,
    FileExists,
    NotImplemented,
    WrongP1P2,
    CorrectLength00,
    InsNotSupported,
    ClaNotSupported,
    Unknown,
}

/// The 16-bit value of a status word.
pub open spec fn status_code_value(s: StatusCode) -> u16 {
    match s {
        StatusCode::Success => 0x9000,
        StatusCode::BytesRemaining00 => 0x6100,
        StatusCode::WarningStateUnchanged => 0x6200,
        StatusCode::DataCorrupt => 0x6281,
        StatusCode::FileEof => 0x6282,
        StatusCode::InvalidDf => 0x6283,
        StatusCode::InvalidFile => 0x6284,
        StatusCode::FileTerminated => 0x6285,
        StatusCode::AuthFailed => 0x6300,
        StatusCode::FileFilled => 0x6381,
        StatusCode::MemoryFull => 0x6501,
        StatusCode::WriteMemoryErr => 0x6581,
        StatusCode::WrongLength => 0x6700,
        StatusCode::LogicalChannelNotSupported => 0x6881,
        StatusCode::SecureMessagingNotSupported => 0x6882,
        StatusCode::LastCommandExpected => 0x6883,
        StatusCode::CommandChainingNotSupported => 0x6884,
        StatusCode::TransactionFail => 0x6900,
        StatusCode::SelectFileErr => 0x6981,
        StatusCode::SecurityStatusNotSatisfied => 0x6982,
        StatusCode::FileInvalid => 0x6983,
        StatusCode::DataInvalid => 0x6984,
        StatusCode::ConditionsNotSatisfied => 0x6985,
        StatusCode::CommandNotAllowed => 0x6986,
        StatusCode::SmDataMissing => 0x6987,
        StatusCode::SmDataIncorrect => 0x6988,
        StatusCode::AppletSelectFailed => 0x6999,
        StatusCode::InvalidP1P2 => 0x6A00,
        StatusCode::WrongData => 0x6A80,
        StatusCode::FuncNotSupported => 0x6A81,
        StatusCode::FileNotFound => 0x6A82,
        StatusCode::RecordNotFound => 0x6A83,
        StatusCode::FileFull => 0x6A84,
        StatusCode::LcTlvConflict => 0x6A85,
        StatusCode::IncorrectP1P2 => 0x6A86,
        StatusCode::NcInconsistentWithP1P2 => 0x6A87,
        StatusCode::FileExists => 0x6A89,
        StatusCode::NotImplemented => 0x6AFF,
        StatusCode::WrongP1P2 => 0x6B00,
        StatusCode::CorrectLength00 => 0x6C00,
        StatusCode::InsNotSupported => 0x6D00,
        StatusCode::ClaNotSupported => 0x6E00,
        StatusCode::Unknown => 0x6F00,
    }
}

impl StatusCode {
    /// The 16-bit value `SW1 SW2` of this status word.
    pub fn code(&self) -> (r: u16)
        ensures
            r == status_code_value(*self),
    {
        match self {
            StatusCode::Success => 0x9000,
            StatusCode::BytesRemaining00 => 0x6100,
            StatusCode::WarningStateUnchanged => 0x6200,
            StatusCode::DataCorrupt => 0x6281,
            StatusCode::FileEof => 0x6282,
            StatusCode::InvalidDf => 0x6283,
            StatusCode::InvalidFile => 0x6284,
            StatusCode::FileTerminated => 0x6285,
            StatusCode::AuthFailed => 0x6300,
            StatusCode::FileFilled => 0x6381,
            StatusCode::MemoryFull => 0x6501,
            StatusCode::WriteMemoryErr => 0x6581,
            StatusCode::WrongLength => 0x6700,
            StatusCode::LogicalChannelNotSupported => 0x6881,
            StatusCode::SecureMessagingNotSupported => 0x6882,
            StatusCode::LastCommandExpected => 0x6883,
            StatusCode::CommandChainingNotSupported => 0x6884,
            StatusCode::TransactionFail => 0x6900,
            StatusCode::SelectFileErr => 0x6981,
            StatusCode::SecurityStatusNotSatisfied => 0x6982,
            StatusCode::FileInvalid => 0x6983,
            StatusCode::DataInvalid => 0x6984,
            StatusCode::ConditionsNotSatisfied => 0x6985,
            StatusCode::CommandNotAllowed => 0x6986,
            StatusCode::SmDataMissing => 0x6987,
            StatusCode::SmDataIncorrect => 0x6988,
            StatusCode::AppletSelectFailed => 0x6999,
            StatusCode::InvalidP1P2 => 0x6A00,
            StatusCode::WrongData => 0x6A80,
            StatusCode::FuncNotSupported => 0x6A81,
            StatusCode::FileNotFound => 0x6A82,
            StatusCode::RecordNotFound => 0x6A83,
            StatusCode::FileFull => 0x6A84,
            StatusCode::LcTlvConflict => 0x6A85,
            StatusCode::IncorrectP1P2 => 0x6A86,
            StatusCode::NcInconsistentWithP1P2 => 0x6A87,
            StatusCode::FileExists => 0x6A89,
            StatusCode::NotImplemented => 0x6AFF,
            StatusCode::WrongP1P2 => 0x6B00,
            StatusCode::CorrectLength00 => 0x6C00,
            StatusCode::InsNotSupported => 0x6D00,
            StatusCode::ClaNotSupported => 0x6E00,
            StatusCode::Unknown => 0x6F00,
        }
    }

    /// The status word with the given value, if it is one that is named here.
    pub fn from_repr(code: u16) -> (r: Option<StatusCode>)
        ensures
            r matches Some(s) ==> status_code_value(s) == code,
            r is None ==> forall|s: StatusCode| status_code_value(s) != code,
    {
        match code {
        0x9000 => Some(StatusCode::Success),
        0x6100 => Some(StatusCode::BytesRemaining00),
        0x6200 => Some(StatusCode::WarningStateUnchanged),
        0x6281 => Some(StatusCode::DataCorrupt),
        0x6282 => Some(StatusCode::FileEof),
        0x6283 => Some(StatusCode::InvalidDf),
        0x6284 => Some(StatusCode::InvalidFile),
        0x6285 => Some(StatusCode::FileTerminated),
        0x6300 => Some(StatusCode::AuthFailed),
        0x6381 => Some(StatusCode::FileFilled),
        0x6501 => Some(StatusCode::MemoryFull),
        0x6581 => Some(StatusCode::WriteMemoryErr),
        0x6700 => Some(StatusCode::WrongLength),
        0x6881 => Some(StatusCode::LogicalChannelNotSupported),
        0x6882 => Some(StatusCode::SecureMessagingNotSupported),
        0x6883 => Some(StatusCode::LastCommandExpected),
        0x6884 => Some(StatusCode::CommandChainingNotSupported),
        0x6900 => Some(StatusCode::TransactionFail),
        0x6981 => Some(StatusCode::SelectFileErr),
        0x6982 => Some(StatusCode::SecurityStatusNotSatisfied),
        0x6983 => Some(StatusCode::FileInvalid),
        0x6984 => Some(StatusCode::DataInvalid),
        0x6985 => Some(StatusCode::ConditionsNotSatisfied),
        0x6986 => Some(StatusCode::CommandNotAllowed),
        0x6987 => Some(StatusCode::SmDataMissing),
        0x6988 => Some(StatusCode::SmDataIncorrect),
        0x6999 => Some(StatusCode::AppletSelectFailed),
        0x6A00 => Some(StatusCode::InvalidP1P2),
        0x6A80 => Some(StatusCode::WrongData),
        0x6A81 => Some(StatusCode::FuncNotSupported),
        0x6A82 => Some(StatusCode::FileNotFound),
        0x6A83 => Some(StatusCode::RecordNotFound),
        0x6A84 => Some(StatusCode::FileFull),
        0x6A85 => Some(StatusCode::LcTlvConflict),
        0x6A86 => Some(StatusCode::IncorrectP1P2),
        0x6A87 => Some(StatusCode::NcInconsistentWithP1P2),
        0x6A89 => Some(StatusCode::FileExists),
        0x6AFF => Some(StatusCode::NotImplemented),
        0x6B00 => Some(StatusCode::WrongP1P2),
        0x6C00 => Some(StatusCode::CorrectLength00),
        0x6D00 => Some(StatusCode::InsNotSupported),
        0x6E00 => Some(StatusCode::ClaNotSupported),
        0x6F00 => Some(StatusCode::Unknown),
            _ => None,
        }
    }

    /// The name of this status word.
    pub fn name(&self) -> &'static str {
        match self {
            StatusCode::Success => "Success",
            StatusCode::BytesRemaining00 => "BytesRemaining00",
            StatusCode::WarningStateUnchanged => "WarningStateUnchanged",
            StatusCode::DataCorrupt => "DataCorrupt",
            StatusCode::FileEof => "FileEof",
            StatusCode::InvalidDf => "InvalidDf",
            StatusCode::InvalidFile => "InvalidFile",
            StatusCode::FileTerminated => "FileTerminated",
            StatusCode::AuthFailed => "AuthFailed",
            StatusCode::FileFilled => "FileFilled",
            StatusCode::MemoryFull => "MemoryFull",
            StatusCode::WriteMemoryErr => "WriteMemoryErr",
            StatusCode::WrongLength => "WrongLength",
            StatusCode::LogicalChannelNotSupported => "LogicalChannelNotSupported",
            StatusCode::SecureMessagingNotSupported => "SecureMessagingNotSupported",
            StatusCode::LastCommandExpected => "LastCommandExpected",
            StatusCode::CommandChainingNotSupported => "CommandChainingNotSupported",
            StatusCode::TransactionFail => "TransactionFail",
            StatusCode::SelectFileErr => "SelectFileErr",
            StatusCode::SecurityStatusNotSatisfied => "SecurityStatusNotSatisfied",
            StatusCode::FileInvalid => "FileInvalid",
            StatusCode::DataInvalid => "DataInvalid",
            StatusCode::ConditionsNotSatisfied => "ConditionsNotSatisfied",
            StatusCode::CommandNotAllowed => "CommandNotAllowed",
            StatusCode::SmDataMissing => "SmDataMissing",
            StatusCode::SmDataIncorrect => "SmDataIncorrect",
            StatusCode::AppletSelectFailed => "AppletSelectFailed",
            StatusCode::InvalidP1P2 => "InvalidP1P2",
            StatusCode::WrongData => "WrongData",
            StatusCode::FuncNotSupported => "FuncNotSupported",
            StatusCode::FileNotFound => "FileNotFound",
            StatusCode::RecordNotFound => "RecordNotFound",
            StatusCode::FileFull => "FileFull",
            StatusCode::LcTlvConflict => "LcTlvConflict",
            StatusCode::IncorrectP1P2 => "IncorrectP1P2",
            StatusCode::NcInconsistentWithP1P2 => "NcInconsistentWithP1P2",
            StatusCode::FileExists => "FileExists",
            StatusCode::NotImplemented => "NotImplemented",
            StatusCode::WrongP1P2 => "WrongP1P2",
            StatusCode::CorrectLength00 => "CorrectLength00",
            StatusCode::InsNotSupported => "InsNotSupported",
            StatusCode::ClaNotSupported => "ClaNotSupported",
            StatusCode::Unknown => "Unknown",
        }
    }
}

/// A command APDU.
#[derive(Debug)]
pub struct ApduCommand {
    pub cla: u8,
    pub ins: u8,
    pub p1: u8,
    pub p2: u8,
    pub data: Vec<u8>,
    /// The expected response length `Le`; 0 when no response data is expected.
    pub max_resp_len: u16,
}

/// The `Lc` or `Le` field for a length: absent for 0, one byte up to 255,
/// else `00` followed by the length in two big-endian bytes.
pub open spec fn field_len_bytes(n: nat) -> Seq<u8> {
    if n == 0 {
        Seq::empty()
    } else if n < 256 {
        seq![n as u8]
    } else {
        seq![0u8, (n / 256) as u8, (n % 256) as u8]
    }
}

/// The four header bytes.
pub open spec fn header_bytes(cla: u8, ins: u8, p1: u8, p2: u8) -> Seq<u8> {
    seq![cla, ins, p1, p2]
}

/// The plain encoding of a command APDU.
pub open spec fn apdu_bytes(c: ApduCommand) -> Seq<u8> {
    header_bytes(c.cla, c.ins, c.p1, c.p2) + field_len_bytes(c.data@.len()) + c.data@
        + field_len_bytes(c.max_resp_len as nat)
}

/// The encoding of a primitive data object with a one-byte tag.
pub open spec fn data_object(tag: u16, value: Seq<u8>) -> Seq<u8> {
    encode_model(TlvModel { tag, value })
}

/// The class byte of a secured command: the SM bits set.
pub open spec fn secure_cla(cla: u8) -> u8 {
    cla | 0x0C
}

/// The eight big-endian bytes of the send sequence counter.
pub open spec fn ssc_bytes(ssc: u64) -> Seq<u8> {
    seq![
        (ssc / 0x100_0000_0000_0000) as u8,
        ((ssc / 0x1_0000_0000_0000) % 0x100) as u8,
        ((ssc / 0x100_0000_0000) % 0x100) as u8,
        ((ssc / 0x1_0000_0000) % 0x100) as u8,
        ((ssc / 0x100_0000) % 0x100) as u8,
        ((ssc / 0x1_0000) % 0x100) as u8,
        ((ssc / 0x100) % 0x100) as u8,
        (ssc % 0x100) as u8,
    ]
}

/// DO'87' of a secured command: padding indicator `01` and the encrypted,
/// padded data; absent when there is no data.
pub open spec fn sm_do87(c: ApduCommand, ks_enc: Seq<u8>) -> Seq<u8> {
    if c.data@.len() == 0 {
        Seq::empty()
    } else {
        data_object(0x87, seq![0x01u8] + tdes_cbc_encrypt_of(ks_enc, pad2(c.data@)))
    }
}

/// DO'97' of a secured command: the original `Le`; absent when `Le` is 0.
pub open spec fn sm_do97(c: ApduCommand) -> Seq<u8> {
    if c.max_resp_len == 0 {
        Seq::empty()
    } else {
        data_object(0x97, field_len_bytes(c.max_resp_len as nat))
    }
}

/// What the MAC of a secured command is computed over.
pub open spec fn sm_command_mac_input(c: ApduCommand, ssc: u64, ks_enc: Seq<u8>) -> Seq<u8> {
    pad2(
        ssc_bytes(ssc) + pad2(header_bytes(secure_cla(c.cla), c.ins, c.p1, c.p2)) + sm_do87(
            c,
            ks_enc,
        ) + sm_do97(c),
    )
}

/// The data field of a secured command: DO'87', DO'97' and DO'8E' (the MAC).
pub open spec fn sm_command_body(c: ApduCommand, ssc: u64, ks_enc: Seq<u8>, ks_mac: Seq<u8>) -> Seq<
    u8,
> {
    sm_do87(c, ks_enc) + sm_do97(c) + data_object(
        0x8E,
        retail_mac_of(ks_mac, sm_command_mac_input(c, ssc, ks_enc)),
    )
}

/// A secured command APDU: the header with the SM class, `Lc`, the secured
/// data field and an outer `Le` of `00`.
pub open spec fn sm_command_bytes(c: ApduCommand, ssc: u64, ks_enc: Seq<u8>, ks_mac: Seq<u8>) -> Seq<
    u8,
> {
    let body = sm_command_body(c, ssc, ks_enc, ks_mac);
    header_bytes(secure_cla(c.cla), c.ins, c.p1, c.p2) + field_len_bytes(body.len()) + body
        + seq![0u8]
}

/// Why a Secure Messaging step failed.
#[derive(Debug, Clone, Copy, PartialEq, Eq, Structural)]
pub enum SmError {
    /// An odd instruction (its data would need DO'85') or a response with
    /// DO'85'.
    NotImplemented,
    /// The send sequence counter cannot be incremented any further.
    CounterExhausted,
    /// The secured command does not fit an APDU.
    DataTooLong,
    /// The MAC of a response does not match.
    MacMismatch,
    /// A response carries no MAC (DO'8E').
    MissingMac,
    /// DO'87' of a response is malformed or its padding is.
    MalformedCryptogram,
}

impl ApduCommand {
    pub open spec fn wf(&self) -> bool {
        self.data@.len() <= 0xFFFF
    }

    fn field_len_vec(field: u16) -> (r: Vec<u8>)
        ensures
            r@ == field_len_bytes(field as nat),
    {
        let mut v: Vec<u8> = Vec::new();
        if field == 0 {
        } else if field < 256 {
            v.push(field as u8);
        } else {
            v.push(0);
            v.push((field / 256) as u8);
            v.push((field % 256) as u8);
        }
        proof {
            if field != 0 && field >= 256 {
                assert(v@ =~= field_len_bytes(field as nat));
            }
        }
        v
    }

    /// The encoding of this command APDU: header, `Lc`, data, `Le`.
    pub fn serialize(&self) -> (r: Vec<u8>)
        requires
            self.wf(),
        ensures
            r@ == apdu_bytes(*self),
    {
        let mut apdu: Vec<u8> = Vec::new();
        apdu.push(self.cla);
        apdu.push(self.ins);
        apdu.push(self.p1);
        apdu.push(self.p2);
        let lc = Self::field_len_vec(self.data.len() as u16);
        append_bytes(&mut apdu, lc.as_slice());
        append_bytes(&mut apdu, self.data.as_slice());
        let le = Self::field_len_vec(self.max_resp_len);
        append_bytes(&mut apdu, le.as_slice());
        assert(apdu@ =~= apdu_bytes(*self));
        apdu
    }
}


/// The length of the data field of a secured command, from the lengths of
/// its parts: DO'87' holds the padding indicator and the padded data (3DES
/// keeps the length), DO'97' the original `Le`, DO'8E' the 8-byte MAC.
pub open spec fn sm_body_len(c: ApduCommand) -> nat {
    (if c.data@.len() == 0 {
        0
    } else {
        1 + length_bytes(1 + pad2(c.data@).len()).len() + 1 + pad2(c.data@).len()
    }) + (if c.max_resp_len == 0 {
        0
    } else {
        2 + field_len_bytes(c.max_resp_len as nat).len()
    }) + 10
}

/// What wrapping a command for Secure Messaging gives under the counter
/// value `ssc` before the call: the counter is incremented first and the
/// secured APDU carries the incremented value in its MAC.
#[verifier::opaque]
pub open spec fn sm_wrap_result(c: ApduCommand, ssc: u64, ks_enc: Seq<u8>, ks_mac: Seq<u8>) -> Result<
    Seq<u8>,
    SmError,
> {
    if c.ins % 2 == 1 {
        Err(SmError::NotImplemented)
    } else if ssc == u64::MAX {
        Err(SmError::CounterExhausted)
    } else if sm_body_len(c) > 0xFFFF {
        Err(SmError::DataTooLong)
    } else {
        Ok(sm_command_bytes(c, (ssc + 1) as u64, ks_enc, ks_mac))
    }
}

/// The counter as eight big-endian bytes.
pub fn ssc_to_bytes(ssc: u64) -> (r: Vec<u8>)
    ensures
        r@ == ssc_bytes(ssc),
{
    let mut v: Vec<u8> = Vec::new();
    v.push((ssc / 0x100_0000_0000_0000) as u8);
    v.push(((ssc / 0x1_0000_0000_0000) % 0x100) as u8);
    v.push(((ssc / 0x100_0000_0000) % 0x100) as u8);
    v.push(((ssc / 0x1_0000_0000) % 0x100) as u8);
    v.push(((ssc / 0x100_0000) % 0x100) as u8);
    v.push(((ssc / 0x1_0000) % 0x100) as u8);
    v.push(((ssc / 0x100) % 0x100) as u8);
    v.push((ssc % 0x100) as u8);
    assert(v@ =~= ssc_bytes(ssc));
    v
}

/// A primitive data object with a one-byte tag.
fn data_object_vec(tag: u16, value: Vec<u8>) -> (r: Vec<u8>)
    requires
        tag < 256,
        tag % 32 != 31,
        value@.len() <= 0xFFFF_FFFF,
    ensures
        r@ == data_object(tag, value@),
{
    let t = Tlv { tag, value };
    t.to_vec()
}

impl ApduCommand {
    /// Wraps this command for Secure Messaging after BAC (ICAO 9303 part 11).
    ///
    /// The counter is incremented before the MAC is computed. Odd
    /// instructions (DO'85') are not implemented; they, an
    /// exhausted counter and a secured command too long for an APDU are
    /// errors that leave the counter as it was.
    pub fn bac_secure_serialize(&self, ssc: &mut u64, ks_enc: &[u8], ks_mac: &[u8]) -> (r: Result<
        Vec<u8>,
        SmError,
    >)
        requires
            self.wf(),
            ks_enc@.len() == 16,
            ks_mac@.len() == 16,
        ensures
            match sm_wrap_result(*self, *old(ssc), ks_enc@, ks_mac@) {
                Ok(b) => r is Ok && r.unwrap()@ == b && *final(ssc) == *old(ssc) + 1,
                Err(e) => r == Err::<Vec<u8>, SmError>(e) && *final(ssc) == *old(ssc),
            },
            r is Ok ==> *final(ssc) == *old(ssc) + 1,
            r is Err ==> *final(ssc) == *old(ssc),
            r is Ok ==> retail_mac_of(ks_mac@, sm_command_mac_input(*self, *final(ssc), ks_enc@)).len()
                == 8,
            r is Ok && self.data@.len() > 0 ==> tdes_cbc_encrypt_of(ks_enc@, pad2(self.data@)).len()
                == pad2(self.data@).len(),
            r is Ok ==> sm_command_body(*self, *final(ssc), ks_enc@, ks_mac@).len() == sm_body_len(
                *self,
            ),
    {
        reveal(sm_wrap_result);
        let cla = self.cla | 0x0C;
        let mut cmd: Vec<u8> = Vec::new();
        cmd.push(cla);
        cmd.push(self.ins);
        cmd.push(self.p1);
        cmd.push(self.p2);
        assert(cmd@ =~= header_bytes(secure_cla(self.cla), self.ins, self.p1, self.p2));
        let padded_cmd = padding_method_2_pad(cmd.as_slice());
        if self.ins % 2 == 1 {
            return Err(SmError::NotImplemented);
        }
        let mut secure_data: Vec<u8> = Vec::new();
        if self.data.len() > 0 {
            let padded_data = padding_method_2_pad(self.data.as_slice());
            proof {
                crate::crypto::lemma_pad2_round_trip(self.data@);
            }
            let encrypted = tdes_enc(ks_enc, padded_data.as_slice());
            let mut value: Vec<u8> = Vec::new();
            value.push(0x01);
            append_bytes(&mut value, encrypted.as_slice());
            let do87 = data_object_vec(0x87, value);
            append_bytes(&mut secure_data, do87.as_slice());
        }
        assert(secure_data@ =~= sm_do87(*self, ks_enc@));
        if self.max_resp_len != 0 {
            let le = Self::field_len_vec(self.max_resp_len);
            let do97 = data_object_vec(0x97, le);
            append_bytes(&mut secure_data, do97.as_slice());
        }
        assert(secure_data@ =~= sm_do87(*self, ks_enc@) + sm_do97(*self));
        if *ssc == u64::MAX {
            return Err(SmError::CounterExhausted);
        }
        let next = *ssc + 1;
        let mut mac_input = ssc_to_bytes(next);
        append_bytes(&mut mac_input, padded_cmd.as_slice());
        append_bytes(&mut mac_input, secure_data.as_slice());
        let padded_mac_input = padding_method_2_pad(mac_input.as_slice());
        proof {
            crate::crypto::lemma_pad2_round_trip(mac_input@);
        }
        assert(padded_mac_input@ =~= sm_command_mac_input(*self, next, ks_enc@));
        let mac = retail_mac(ks_mac, padded_mac_input.as_slice());
        let do8e = data_object_vec(0x8E, mac);
        append_bytes(&mut secure_data, do8e.as_slice());
        assert(secure_data@ =~= sm_command_body(*self, next, ks_enc@, ks_mac@));
        assert(secure_data@.len() == sm_body_len(*self));
        if secure_data.len() > 0xFFFF {
            return Err(SmError::DataTooLong);
        }
        let lc = Self::field_len_vec(secure_data.len() as u16);
        let mut apdu: Vec<u8> = Vec::new();
        append_bytes(&mut apdu, cmd.as_slice());
        append_bytes(&mut apdu, lc.as_slice());
        append_bytes(&mut apdu, secure_data.as_slice());
        apdu.push(0x00);
        assert(apdu@ =~= sm_command_bytes(*self, next, ks_enc@, ks_mac@));
        *ssc = next;
        Ok(apdu)
    }
}

/// The encoding of the TLV indexed under `tag`, or nothing.
pub open spec fn indexed_encoding(m: Map<u16, TlvModel>, tag: u16) -> Seq<u8> {
    if m.contains_key(tag) {
        encode_model(m[tag])
    } else {
        Seq::empty()
    }
}

/// What the MAC of a secured response is computed over, under the counter
/// value `ssc` it is checked with.
pub open spec fn sm_response_mac_input(rapdu: Seq<u8>, ssc: u64) -> Seq<u8> {
    let m = tag_map(spec_parse_prefix(rapdu));
    pad2(ssc_bytes(ssc) + indexed_encoding(m, 0x87) + indexed_encoding(m, 0x99))
}

/// What unwrapping a secured response (without its status word) gives under
/// the counter value `ssc` before the call: the counter is incremented
/// first; a response without DO'8E' or with a MAC that does not match is
/// an error; the data is DO'87' decrypted and unpadded, none without DO'87'.
#[verifier::opaque]
pub open spec fn sm_unwrap_result(rapdu: Seq<u8>, ssc: u64, ks_enc: Seq<u8>, ks_mac: Seq<u8>) -> Result<
    Option<Seq<u8>>,
    SmError,
> {
    let m = tag_map(spec_parse_prefix(rapdu));
    if ssc == u64::MAX {
        Err(SmError::CounterExhausted)
    } else if m.contains_key(0x85) {
        Err(SmError::NotImplemented)
    } else if !m.contains_key(0x8E) {
        Err(SmError::MissingMac)
    } else if spec_value_bytes(m[0x8E]) != Some(
        retail_mac_of(ks_mac, sm_response_mac_input(rapdu, (ssc + 1) as u64)),
    ) {
        Err(SmError::MacMismatch)
    } else if !m.contains_key(0x87) {
        Ok(None)
    } else {
        match spec_value_bytes(m[0x87]) {
            None => Err(SmError::MalformedCryptogram),
            Some(v) => if v.len() == 0 || v[0] != 0x01 || (v.len() - 1) % 8 != 0 {
                Err(SmError::MalformedCryptogram)
            } else {
                match unpad2(tdes_cbc_decrypt_of(ks_enc, v.subrange(1, v.len() as int))) {
                    None => Err(SmError::MalformedCryptogram),
                    Some(p) => Ok(Some(p)),
                }
            },
        }
    }
}

/// Appends the encoding of the TLV indexed under `tag`, if there is one.
fn append_indexed(dst: &mut Vec<u8>, m: &TlvMap, tag: u16)
    requires
        forall|k: u16| #[trigger] m@.contains_key(k) ==> model_wf(m@[k]) && m@[k].value.len()
            <= 0xFFFF,
        old(dst)@.len() <= 0x2_0000,
    ensures
        final(dst)@ == old(dst)@ + indexed_encoding(m@, tag),
        final(dst)@.len() <= old(dst)@.len() + 0xFFFF + 7,
{
    match m.get(tag) {
        Some(t) => {
            let e = t.to_vec();
            append_bytes(dst, e.as_slice());
        },
        None => {
            assert(old(dst)@ + Seq::<u8>::empty() =~= old(dst)@);
        },
    }
}

/// Unwraps a secured response APDU (without its status word) under Secure
/// Messaging after BAC: increments the counter, checks the MAC over DO'87'
/// and DO'99', and returns the decrypted, unpadded DO'87' when there is one.
pub fn parse_secure_rapdu(rapdu: &[u8], ssc: &mut u64, ks_enc: &[u8], ks_mac: &[u8]) -> (r: Result<
    Option<Vec<u8>>,
    SmError,
>)
    requires
        ks_enc@.len() == 16,
        ks_mac@.len() == 16,
        rapdu@.len() <= 0xFFFF,
    ensures
        match sm_unwrap_result(rapdu@, *old(ssc), ks_enc@, ks_mac@) {
            Ok(Some(p)) => r is Ok && r.unwrap() is Some && r.unwrap().unwrap()@ == p,
            Ok(None) => r == Ok::<Option<Vec<u8>>, SmError>(None),
            Err(e) => r == Err::<Option<Vec<u8>>, SmError>(e),
        },
        *old(ssc) == u64::MAX ==> *final(ssc) == *old(ssc),
        *old(ssc) < u64::MAX ==> *final(ssc) == *old(ssc) + 1,
        r is Ok ==> *old(ssc) < u64::MAX,
{
    reveal(sm_unwrap_result);
    if *ssc == u64::MAX {
        return Err(SmError::CounterExhausted);
    }
    *ssc = *ssc + 1;
    let tlvs = Tlv::parse_all(rapdu);
    proof {
        lemma_parsed_models_wf(rapdu@);
        lemma_tag_map_wf(models(tlvs@));
        crate::tlv::lemma_parsed_values_bounded(rapdu@);
        crate::tlv::lemma_tag_map_bounded(models(tlvs@), rapdu@.len());
    }
    let m = sort_tlvs_by_tag(tlvs);
    if m.contains_key(0x85) {
        return Err(SmError::NotImplemented);
    }
    let mut check = ssc_to_bytes(*ssc);
    append_indexed(&mut check, &m, 0x87);
    append_indexed(&mut check, &m, 0x99);
    let padded = padding_method_2_pad(check.as_slice());
    proof {
        crate::crypto::lemma_pad2_round_trip(check@);
    }
    let mac = retail_mac(ks_mac, padded.as_slice());
    let do8e = match m.get(0x8E) {
        Some(t) => t,
        None => return Err(SmError::MissingMac),
    };
    match get_tlv_value_bytes(&do8e) {
        Some(v) => {
            if !bytes_equal(mac.as_slice(), v.as_slice()) {
                return Err(SmError::MacMismatch);
            }
        },
        None => return Err(SmError::MacMismatch),
    }
    let do87 = match m.get(0x87) {
        Some(t) => t,
        None => return Ok(None),
    };
    let v = match get_tlv_value_bytes(&do87) {
        Some(v) => v,
        None => return Err(SmError::MalformedCryptogram),
    };
    if v.len() == 0 || v[0] != 0x01 || (v.len() - 1) % 8 != 0 {
        return Err(SmError::MalformedCryptogram);
    }
    let cryptogram = copy_range(v.as_slice(), 1, v.len());
    let decrypted = tdes_dec(ks_enc, cryptogram.as_slice());
    match padding_method_2_unpad(decrypted.as_slice()) {
        Some(p) => Ok(Some(p)),
        None => Err(SmError::MalformedCryptogram),
    }
}


proof fn lemma_ssc_bytes_injective(a: u64, b: u64)
    requires
        ssc_bytes(a) == ssc_bytes(b),
    ensures
        a == b,
{
    assert(ssc_bytes(a)[0] == ssc_bytes(b)[0]);
    assert(ssc_bytes(a)[1] == ssc_bytes(b)[1]);
    assert(ssc_bytes(a)[2] == ssc_bytes(b)[2]);
    assert(ssc_bytes(a)[3] == ssc_bytes(b)[3]);
    assert(ssc_bytes(a)[4] == ssc_bytes(b)[4]);
    assert(ssc_bytes(a)[5] == ssc_bytes(b)[5]);
    assert(ssc_bytes(a)[6] == ssc_bytes(b)[6]);
    assert(ssc_bytes(a)[7] == ssc_bytes(b)[7]);
    let a0 = a / 0x100_0000_0000_0000;
    let b0 = b / 0x100_0000_0000_0000;
    let a1 = (a / 0x1_0000_0000_0000) % 0x100;
    let b1 = (b / 0x1_0000_0000_0000) % 0x100;
    let a2 = (a / 0x100_0000_0000) % 0x100;
    let b2 = (b / 0x100_0000_0000) % 0x100;
    let a3 = (a / 0x1_0000_0000) % 0x100;
    let b3 = (b / 0x1_0000_0000) % 0x100;
    let a4 = (a / 0x100_0000) % 0x100;
    let b4 = (b / 0x100_0000) % 0x100;
    let a5 = (a / 0x1_0000) % 0x100;
    let b5 = (b / 0x1_0000) % 0x100;
    let a6 = (a / 0x100) % 0x100;
    let b6 = (b / 0x100) % 0x100;
    let a7 = a % 0x100;
    let b7 = b % 0x100;
    assert(a0 == b0 && a1 == b1 && a2 == b2 && a3 == b3 && a4 == b4 && a5 == b5 && a6 == b6 && a7
        == b7);
    assert(a == b) by (bit_vector)
        requires
            a / 0x100_0000_0000_0000 == b / 0x100_0000_0000_0000,
            (a / 0x1_0000_0000_0000) % 0x100 == (b / 0x1_0000_0000_0000) % 0x100,
            (a / 0x100_0000_0000) % 0x100 == (b / 0x100_0000_0000) % 0x100,
            (a / 0x1_0000_0000) % 0x100 == (b / 0x1_0000_0000) % 0x100,
            (a / 0x100_0000) % 0x100 == (b / 0x100_0000) % 0x100,
            (a / 0x1_0000) % 0x100 == (b / 0x1_0000) % 0x100,
            (a / 0x100) % 0x100 == (b / 0x100) % 0x100,
            a % 0x100 == b % 0x100,
    ;
}

/// Secure Messaging binds every MAC to the send sequence counter: under two
/// different counter values, the data that the MAC of a secured command is
/// computed over differ, and so do the data that the MAC of a secured
/// response is checked over, since both begin with the counter. A wrapped
/// command or response is thus authenticated for one counter value only.
pub proof fn lemma_mac_input_binds_ssc(
    c: ApduCommand,
    rapdu: Seq<u8>,
    s1: u64,
    s2: u64,
    ks_enc: Seq<u8>,
)
    requires
        s1 != s2,
    ensures
        sm_command_mac_input(c, s1, ks_enc) != sm_command_mac_input(c, s2, ks_enc),
        sm_response_mac_input(rapdu, s1) != sm_response_mac_input(rapdu, s2),
{
    let a = sm_command_mac_input(c, s1, ks_enc);
    let b = sm_command_mac_input(c, s2, ks_enc);
    if a == b {
        assert(a.subrange(0, 8) =~= ssc_bytes(s1));
        assert(b.subrange(0, 8) =~= ssc_bytes(s2));
        lemma_ssc_bytes_injective(s1, s2);
    }
    let x = sm_response_mac_input(rapdu, s1);
    let y = sm_response_mac_input(rapdu, s2);
    if x == y {
        assert(x.subrange(0, 8) =~= ssc_bytes(s1));
        assert(y.subrange(0, 8) =~= ssc_bytes(s2));
        lemma_ssc_bytes_injective(s1, s2);
    }
}

/// The last two bytes of a response: the status word.
pub fn get_status_code_bytes(data: &Vec<u8>) -> (r: Vec<u8>)
    requires
        data@.len() >= 2,
    ensures
        r@ == data@.subrange(data@.len() - 2, data@.len() as int),
{
    copy_range(data.as_slice(), data.len() - 2, data.len())
}

/// The status word `SW1 SW2` of a response as a number.
pub fn get_status_code(data: &Vec<u8>) -> (r: u16)
    requires
        data@.len() >= 2,
    ensures
        r as int == data@[data@.len() - 2] as int * 256 + data@[data@.len() - 1] as int,
{
    let n = data.len();
    (data[n - 2] as u16) * 256 + data[n - 1] as u16
}

/// The named status word for a value, if it is one that is named here.
pub fn get_status_code_repr(status_code_num: u16) -> (r: Option<StatusCode>)
    ensures
        r matches Some(s) ==> status_code_value(s) == status_code_num,
        r is None ==> forall|s: StatusCode| status_code_value(s) != status_code_num,
{
    StatusCode::from_repr(status_code_num)
}

/// SELECT FILE by DF name (an application identifier).
pub fn apdu_select_file_by_name(name: Vec<u8>) -> (r: ApduCommand)
    ensures
        r.cla == 0 && r.ins == INS_SELECT_FILE && r.p1 == P1_SELECT_BY_NAME && r.p2
            == P2_PROPRIETARY && r.data@ == name@ && r.max_resp_len == 0,
{
    ApduCommand {
        cla: 0,
        ins: INS_SELECT_FILE,
        p1: P1_SELECT_BY_NAME,
        p2: P2_PROPRIETARY,
        data: name,
        max_resp_len: 0,
    }
}

/// SELECT FILE by short elementary file identifier.
pub fn apdu_select_file_by_ef(file_id: u16) -> (r: ApduCommand)
    ensures
        r.cla == 0 && r.ins == INS_SELECT_FILE && r.p1 == P1_SELECT_BY_EF && r.p2 == P2_PROPRIETARY
            && r.data@ == seq![(file_id / 256) as u8, (file_id % 256) as u8] && r.max_resp_len
            == 0,
        r.wf(),
{
    let mut data: Vec<u8> = Vec::new();
    data.push((file_id / 256) as u8);
    data.push((file_id % 256) as u8);
    assert(data@ =~= seq![(file_id / 256) as u8, (file_id % 256) as u8]);
    ApduCommand {
        cla: 0,
        ins: INS_SELECT_FILE,
        p1: P1_SELECT_BY_EF,
        p2: P2_PROPRIETARY,
        data,
        max_resp_len: 0,
    }
}

/// READ BINARY of `bytes_to_read` bytes at `offset` (big-endian in P1 P2).
pub fn apdu_read_binary(offset: u16, bytes_to_read: u16) -> (r: ApduCommand)
    ensures
        r.cla == 0 && r.ins == INS_READ_BINARY && r.p1 == (offset / 256) as u8 && r.p2 == (offset
            % 256) as u8 && r.data@.len() == 0 && r.max_resp_len == bytes_to_read,
        r.wf(),
{
    ApduCommand {
        cla: 0,
        ins: INS_READ_BINARY,
        p1: (offset / 256) as u8,
        p2: (offset % 256) as u8,
        data: Vec::new(),
        max_resp_len: bytes_to_read,
    }
}

/// GET CHALLENGE for the 8-byte `RND.IC`.
pub fn apdu_get_challenge() -> (r: ApduCommand)
    ensures
        r.cla == 0 && r.ins == INS_GET_CHALLENGE && r.p1 == 0 && r.p2 == 0 && r.data@.len() == 0
            && r.max_resp_len == 8,
        r.wf(),
{
    ApduCommand {
        cla: 0,
        ins: INS_GET_CHALLENGE,
        p1: 0,
        p2: 0,
        data: Vec::new(),
        max_resp_len: 8,
    }
}

/// EXTERNAL AUTHENTICATE with `E.IFD || M.IFD`, expecting the 40-byte
/// `E.IC || M.IC`.
pub fn apdu_external_authentication(data: Vec<u8>) -> (r: ApduCommand)
    ensures
        r.cla == 0 && r.ins == INS_EXTERNAL_AUTHENTICATION && r.p1 == 0 && r.p2 == 0 && r.data@
            == data@ && r.max_resp_len == 40,
{
    ApduCommand {
        cla: 0,
        ins: INS_EXTERNAL_AUTHENTICATION,
        p1: 0,
        p2: 0,
        data,
        max_resp_len: 40,
    }
}


/// Why an exchange with the card failed.
#[derive(Debug, Clone, Copy, PartialEq, Eq, Structural)]
pub enum ExchangeError {
    /// The reader gave no response.
    Transport,
    /// The response is shorter than a status word.
    ShortResponse,
    /// The response is longer than an APDU can be.
    LongResponse,
    /// Secure Messaging failed; the session cannot go on.
    Secure(SmError),
    /// A status word other than `90 00` where success was required.
    UnexpectedStatus(u16),
    /// The card kept answering `6C` with a new length.
    TooManyRetries,
}

/// How many times a command is reissued after `SW1 = 6C`.
pub const MAX_WRONG_LENGTH_RETRIES: usize = 16;

/// A raw response split into its body and its status word `SW1 SW2`; one
/// shorter than a status word is an error.
pub open spec fn split_response_of(raw: Seq<u8>) -> Result<(Seq<u8>, u16), ExchangeError> {
    if raw.len() < 2 {
        Err(ExchangeError::ShortResponse)
    } else {
        Ok(
            (
                raw.subrange(0, raw.len() - 2),
                (raw[raw.len() - 2] as int * 256 + raw[raw.len() - 1] as int) as u16,
            ),
        )
    }
}

/// Splits a raw response into its body and its status word.
pub fn split_response(raw: &Vec<u8>) -> (r: Result<(Vec<u8>, u16), ExchangeError>)
    ensures
        match split_response_of(raw@) {
            Ok((body, sw)) => r is Ok && r.unwrap().0@ == body && r.unwrap().1 == sw,
            Err(e) => r == Err::<(Vec<u8>, u16), ExchangeError>(e),
        },
{
    let n = raw.len();
    if n < 2 {
        return Err(ExchangeError::ShortResponse);
    }
    let body = copy_range(raw.as_slice(), 0, n - 2);
    Ok((body, (raw[n - 2] as u16) * 256 + raw[n - 1] as u16))
}

/// The data of a response body: the body itself without Secure Messaging;
/// under it, the body unwrapped with the counter value `ssc`, empty when it
/// carries no DO'87'.
pub open spec fn response_data_of(
    body: Seq<u8>,
    secure_comms: bool,
    ssc: u64,
    ks_enc: Seq<u8>,
    ks_mac: Seq<u8>,
) -> Result<Seq<u8>, ExchangeError> {
    if !secure_comms {
        Ok(body)
    } else if body.len() > 0xFFFF {
        Err(ExchangeError::LongResponse)
    } else {
        match sm_unwrap_result(body, ssc, ks_enc, ks_mac) {
            Ok(Some(p)) => Ok(p),
            Ok(None) => Ok(Seq::empty()),
            Err(e) => Err(ExchangeError::Secure(e)),
        }
    }
}

/// Gives the data of a response body, unwrapping it under Secure Messaging.
pub fn response_data(
    body: Vec<u8>,
    secure_comms: bool,
    ssc: &mut u64,
    ks_enc: &[u8],
    ks_mac: &[u8],
) -> (r: Result<Vec<u8>, ExchangeError>)
    requires
        secure_comms ==> ks_enc@.len() == 16 && ks_mac@.len() == 16,
    ensures
        match response_data_of(body@, secure_comms, *old(ssc), ks_enc@, ks_mac@) {
            Ok(d) => r is Ok && r.unwrap()@ == d,
            Err(e) => r == Err::<Vec<u8>, ExchangeError>(e),
        },
        !secure_comms || body@.len() > 0xFFFF || *old(ssc) == u64::MAX ==> *final(ssc)
            == *old(ssc),
        secure_comms && body@.len() <= 0xFFFF && *old(ssc) < u64::MAX ==> *final(ssc) == *old(
            ssc,
        ) + 1,
        secure_comms && r is Ok ==> *final(ssc) == *old(ssc) + 1,
{
    if !secure_comms {
        return Ok(body);
    }
    if body.len() > 0xFFFF {
        return Err(ExchangeError::LongResponse);
    }
    match parse_secure_rapdu(body.as_slice(), ssc, ks_enc, ks_mac) {
        Ok(Some(d)) => Ok(d),
        Ok(None) => Ok(Vec::new()),
        Err(e) => Err(ExchangeError::Secure(e)),
    }
}

/// What follows an answer with status word `sw`.
#[derive(Debug, Clone, Copy, PartialEq, Eq, Structural)]
pub enum AnswerStep {
    /// `SW1 = 6C`: reissue the command with `Le = SW2`.
    Reissue(u16),
    /// A status other than `90 00` where success was required.
    Fail(u16),
    /// The answer is the result.
    Done,
}

pub open spec fn answer_step_of(sw: u16, assert_on_status: bool) -> AnswerStep {
    if sw / 256 == 0x6C {
        AnswerStep::Reissue(sw % 256)
    } else if assert_on_status && sw != 0x9000 {
        AnswerStep::Fail(sw)
    } else {
        AnswerStep::Done
    }
}

/// Decides what follows an answer: after `SW1 = 6C` the command is reissued
/// with `Le = SW2`; with `assert_on_status` a status other than `90 00` fails.
pub fn answer_step(sw: u16, assert_on_status: bool) -> (r: AnswerStep)
    ensures
        r == answer_step_of(sw, assert_on_status),
{
    if sw / 256 == 0x6C {
        AnswerStep::Reissue(sw % 256)
    } else if assert_on_status && sw != 0x9000 {
        AnswerStep::Fail(sw)
    } else {
        AnswerStep::Done
    }
}

impl ApduCommand {
    /// Sends this command to the card and returns the response data and the
    /// status word. Under Secure Messaging the command is wrapped and the
    /// response unwrapped (its data is empty when it carries no DO'87').
    ///
    /// Each answer is split by `split_response`, its data taken by
    /// `response_data`, and `answer_step` decides: on `SW1 = 6C` the command
    /// is reissued with `Le = SW2`; with `assert_on_status` any status word
    /// other than `90 00` is an error. Each secured round uses two counter
    /// values, one for the command and one for the response.
    pub fn secure_exchange<C: Smartcard>(
        &mut self,
        smartcard: &mut C,
        assert_on_status: bool,
        secure_comms: bool,
        ssc: &mut u64,
        ks_enc: &[u8],
        ks_mac: &[u8],
    ) -> (r: Result<(Vec<u8>, u16), ExchangeError>)
        requires
            old(self).wf(),
            secure_comms ==> ks_enc@.len() == 16 && ks_mac@.len() == 16,
        ensures
            final(self).wf(),
            final(self).data@ == old(self).data@,
            final(self).cla == old(self).cla && final(self).ins == old(self).ins && final(self).p1
                == old(self).p1 && final(self).p2 == old(self).p2,
            secure_comms ==> match sm_wrap_result(*old(self), *old(ssc), ks_enc@, ks_mac@) {
                Err(e) => r == Err::<(Vec<u8>, u16), ExchangeError>(ExchangeError::Secure(e))
                    && *final(ssc) == *old(ssc),
                Ok(_) => true,
            },
            !secure_comms ==> *final(ssc) == *old(ssc),
            secure_comms ==> *final(ssc) >= *old(ssc),
            secure_comms && r is Ok ==> *final(ssc) >= *old(ssc) + 2 && (*final(ssc) - *old(ssc))
                % 2 == 0,
            r is Ok ==> answer_step_of(r.unwrap().1, assert_on_status) == AnswerStep::Done,
            r is Ok && old(self).max_resp_len != final(self).max_resp_len ==> exists|sw: u16|
                #[trigger] answer_step_of(sw, assert_on_status) == AnswerStep::Reissue(
                    final(self).max_resp_len,
                ),
    {
        let mut attempts: usize = 0;
        while attempts < MAX_WRONG_LENGTH_RETRIES
            invariant
                self.wf(),
                self.data@ == old(self).data@,
                self.cla == old(self).cla && self.ins == old(self).ins && self.p1 == old(self).p1
                    && self.p2 == old(self).p2,
                secure_comms ==> ks_enc@.len() == 16 && ks_mac@.len() == 16,
                !secure_comms ==> *ssc == *old(ssc),
                secure_comms ==> *ssc >= *old(ssc) && (*ssc - *old(ssc)) % 2 == 0,
                attempts == 0 ==> *self == *old(self) && *ssc == *old(ssc),
                attempts > 0 && secure_comms ==> sm_wrap_result(
                    *old(self),
                    *old(ssc),
                    ks_enc@,
                    ks_mac@,
                ) is Ok,
                old(self).max_resp_len != self.max_resp_len ==> exists|sw: u16|
                    #[trigger] answer_step_of(sw, assert_on_status) == AnswerStep::Reissue(
                        self.max_resp_len,
                    ),
            decreases MAX_WRONG_LENGTH_RETRIES - attempts,
        {
            let ghost before = *self;
            let ghost ssc_before = *ssc;
            let (data, sw) = match self.exchange_once(
                smartcard,
                secure_comms,
                ssc,
                ks_enc,
                ks_mac,
            ) {
                Ok(x) => x,
                Err(e) => return Err(e),
            };
            assert(attempts == 0 && secure_comms ==> sm_wrap_result(
                before,
                ssc_before,
                ks_enc@,
                ks_mac@,
            ) is Ok);
            match answer_step(sw, assert_on_status) {
                AnswerStep::Reissue(le) => {
                    self.max_resp_len = le;
                    attempts = attempts + 1;
                },
                AnswerStep::Fail(code) => {
                    return Err(ExchangeError::UnexpectedStatus(code));
                },
                AnswerStep::Done => {
                    return Ok((data, sw));
                },
            }
        }
        Err(ExchangeError::TooManyRetries)
    }

    /// One round trip: sends this command (wrapped under Secure Messaging)
    /// and returns the response data and the status word, as
    /// `split_response` and `response_data` give them.
    fn exchange_once<C: Smartcard>(
        &self,
        smartcard: &mut C,
        secure_comms: bool,
        ssc: &mut u64,
        ks_enc: &[u8],
        ks_mac: &[u8],
    ) -> (r: Result<(Vec<u8>, u16), ExchangeError>)
        requires
            self.wf(),
            secure_comms ==> ks_enc@.len() == 16 && ks_mac@.len() == 16,
        ensures
            secure_comms ==> match sm_wrap_result(*self, *old(ssc), ks_enc@, ks_mac@) {
                Err(e) => r == Err::<(Vec<u8>, u16), ExchangeError>(ExchangeError::Secure(e))
                    && *final(ssc) == *old(ssc),
                Ok(_) => true,
            },
            !secure_comms ==> *final(ssc) == *old(ssc),
            secure_comms ==> *final(ssc) >= *old(ssc),
            secure_comms && r is Ok ==> *final(ssc) == *old(ssc) + 2,
    {
        let apdu = if secure_comms {
            match self.bac_secure_serialize(ssc, ks_enc, ks_mac) {
                Ok(b) => b,
                Err(e) => return Err(ExchangeError::Secure(e)),
            }
        } else {
            self.serialize()
        };
        let raw = match smartcard.exchange_apdu(&apdu) {
            Some(raw) => raw,
            None => return Err(ExchangeError::Transport),
        };
        let (body, sw) = match split_response(&raw) {
            Ok(x) => x,
            Err(e) => return Err(e),
        };
        match response_data(body, secure_comms, ssc, ks_enc, ks_mac) {
            Ok(data) => Ok((data, sw)),
            Err(e) => Err(e),
        }
    }

    /// Sends this command without Secure Messaging, as `secure_exchange`
    /// does.
    pub fn exchange<C: Smartcard>(&mut self, smartcard: &mut C, assert_on_status: bool) -> (r:
        Result<(Vec<u8>, u16), ExchangeError>)
        requires
            old(self).wf(),
        ensures
            final(self).wf(),
            final(self).data@ == old(self).data@,
            final(self).cla == old(self).cla && final(self).ins == old(self).ins && final(self).p1
                == old(self).p1 && final(self).p2 == old(self).p2,
            r is Ok ==> answer_step_of(r.unwrap().1, assert_on_status) == AnswerStep::Done,
            r is Ok && old(self).max_resp_len != final(self).max_resp_len ==> exists|sw: u16|
                #[trigger] answer_step_of(sw, assert_on_status) == AnswerStep::Reissue(
                    final(self).max_resp_len,
                ),
    {
        let mut ssc: u64 = 0;
        let no_key: Vec<u8> = Vec::new();
        self.secure_exchange(
            smartcard,
            assert_on_status,
            false,
            &mut ssc,
            no_key.as_slice(),
            no_key.as_slice(),
        )
    }
}

/// The length field of an ASN.1/BER header: the number of bytes the field
/// takes and the length it gives. The indefinite form `0x80`, the forms from
/// `0x85` on, and a field cut short give none.
pub fn asn1_parse_len(data: &[u8]) -> (r: Option<(u8, u32)>)
    ensures
        match crate::tlv::spec_parse_length(data@) {
            Some((vlen, n)) => r == Some((n as u8, vlen as u32)) && vlen <= 0xFFFF_FFFF && n <= 5,
            None => r is None,
        },
{
    assert(data@.subrange(0, data@.len() as int) =~= data@);
    match crate::tlv::parse_length_at(data, 0) {
        Some((vlen, end)) => Some((end as u8, vlen as u32)),
        None => None,
    }
}

/// The length of a file whose first bytes are `head`, from its outer BER
/// header: tag byte, length field and value. When the header cannot be read,
/// just the bytes at hand.
pub open spec fn file_len_of(head: Seq<u8>) -> nat {
    if head.len() >= 2 {
        match crate::tlv::spec_parse_length(head.subrange(1, head.len() as int)) {
            Some((vlen, n)) => 1 + n + vlen,
            None => head.len(),
        }
    } else {
        head.len()
    }
}

/// What the file-read loop does after a READ BINARY.
#[derive(Debug, Clone, Copy, PartialEq, Eq, Structural)]
pub enum ReadStep {
    /// Read this many more bytes.
    Continue(u16),
    /// The file is complete.
    Done,
    /// The card refused; the file is not read.
    Failed,
}

/// The next step of the read loop, given the bytes read so far (this answer
/// included), the file length and the status word: after `61 XX` read `XX`
/// more; after `90 00` read up to 0x80 more until the file is complete; any
/// other status ends the read in failure.
pub open spec fn read_step_of(read: nat, file_len: nat, sw1: u8, sw2: u8) -> ReadStep {
    if sw1 == 0x61 {
        if sw2 == 0 {
            ReadStep::Done
        } else {
            ReadStep::Continue(sw2 as u16)
        }
    } else if sw1 == 0x90 {
        if read < file_len {
            ReadStep::Continue(
                if file_len - read < 0x80 {
                    (file_len - read) as u16
                } else {
                    0x80
                },
            )
        } else {
            ReadStep::Done
        }
    } else {
        ReadStep::Failed
    }
}

/// Decides the next step of the read loop.
pub fn next_read_step(read: usize, file_len: u64, sw1: u8, sw2: u8) -> (r: ReadStep)
    ensures
        r == read_step_of(read as nat, file_len as nat, sw1, sw2),
{
    if sw1 == 0x61 {
        if sw2 == 0 {
            ReadStep::Done
        } else {
            ReadStep::Continue(sw2 as u16)
        }
    } else if sw1 == 0x90 {
        if (read as u64) < file_len {
            let left = file_len - read as u64;
            ReadStep::Continue(
                if left < 0x80 {
                    left as u16
                } else {
                    0x80
                },
            )
        } else {
            ReadStep::Done
        }
    } else {
        ReadStep::Failed
    }
}

/// Computes the file length from the first answer of a read.
pub fn file_len_from_header(head: &[u8]) -> (r: u64)
    ensures
        r as nat == file_len_of(head@),
{
    if head.len() < 2 {
        return head.len() as u64;
    }
    let rest = copy_range(head, 1, head.len());
    match asn1_parse_len(rest.as_slice()) {
        Some((n, vlen)) => 1 + n as u64 + vlen as u64,
        None => head.len() as u64,
    }
}

/// What the file-read loop does after a READ BINARY answer.
#[derive(Debug, Clone, Copy, PartialEq, Eq, Structural)]
pub enum ReadPlan {
    /// Keep the answer and read `Le` more bytes at the offset.
    Next(u16, u16),
    /// Keep the answer: the file is complete.
    Complete,
    /// The card refused, gave nothing where more was due, or the file goes
    /// past what READ BINARY can address: the file is not read.
    Refused,
}

/// The file length after an answer: the first successful answer gives it
/// from its BER header.
pub open spec fn file_len_after(read: nat, file_len: nat, data: Seq<u8>, sw: u16) -> nat {
    if read == 0 && sw / 256 == 0x90 {
        file_len_of(data)
    } else {
        file_len
    }
}

/// The plan after an answer `data` with status word `sw`, when `read` bytes
/// were read before it.
pub open spec fn read_plan_of(read: nat, file_len: nat, data: Seq<u8>, sw: u16) -> ReadPlan {
    let got = read + data.len();
    if data.len() > 0xFFFF {
        ReadPlan::Refused
    } else {
        match read_step_of(
            got,
            file_len_after(read, file_len, data, sw),
            (sw / 256) as u8,
            (sw % 256) as u8,
        ) {
            ReadStep::Continue(n) => if data.len() == 0 || got > 0x7FFF {
                ReadPlan::Refused
            } else {
                ReadPlan::Next(got as u16, n)
            },
            ReadStep::Done => ReadPlan::Complete,
            ReadStep::Failed => ReadPlan::Refused,
        }
    }
}

/// Plans the next READ BINARY after an answer; gives the file length too.
pub fn plan_read(read: usize, file_len: u64, data: &Vec<u8>, sw: u16) -> (r: (u64, ReadPlan))
    requires
        read <= 0x7FFF,
    ensures
        r.0 as nat == file_len_after(read as nat, file_len as nat, data@, sw),
        r.1 == read_plan_of(read as nat, file_len as nat, data@, sw),
{
    let sw1 = (sw / 256) as u8;
    let sw2 = (sw % 256) as u8;
    let fl = if read == 0 && sw1 == 0x90 {
        file_len_from_header(data.as_slice())
    } else {
        file_len
    };
    if data.len() > 0xFFFF {
        return (fl, ReadPlan::Refused);
    }
    let got = read + data.len();
    let plan = match next_read_step(got, fl, sw1, sw2) {
        ReadStep::Continue(n) => if data.len() == 0 || got > 0x7FFF {
            ReadPlan::Refused
        } else {
            ReadPlan::Next(got as u16, n)
        },
        ReadStep::Done => ReadPlan::Complete,
        ReadStep::Failed => ReadPlan::Refused,
    };
    (fl, plan)
}

/// Selects an elementary file and reads it whole. A SELECT answered with
/// another status than `90 00` gives none and nothing is read. Then a first
/// READ BINARY of 5 bytes at offset 0 gives the outer BER header, and after
/// each answer `plan_read` decides: read `Le` more bytes at the offset just
/// past what was read (chunks of at most 0x80, or `SW2` after `61 XX`), keep
/// the file when complete, or give none when the card refuses. The bytes
/// returned are the answers in order; none when nothing was read.
pub fn select_and_read_file<C: Smartcard>(
    smartcard: &mut C,
    dg_info: &DataGroup,
    secure_comms: bool,
    ssc: &mut u64,
    ks_enc: &[u8],
    ks_mac: &[u8],
) -> (r: Result<Option<Vec<u8>>, ExchangeError>)
    requires
        secure_comms ==> ks_enc@.len() == 16 && ks_mac@.len() == 16,
    ensures
        r matches Ok(Some(d)) ==> d@.len() > 0,
        secure_comms && *old(ssc) == u64::MAX ==> r == Err::<Option<Vec<u8>>, ExchangeError>(
            ExchangeError::Secure(SmError::CounterExhausted),
        ),
        !secure_comms ==> *final(ssc) == *old(ssc),
        secure_comms ==> *final(ssc) >= *old(ssc),
{
    let mut select = apdu_select_file_by_ef(dg_info.file_id);
    proof {
        reveal(sm_wrap_result);
    }
    let (_, status) = match select.secure_exchange(
        smartcard,
        false,
        secure_comms,
        ssc,
        ks_enc,
        ks_mac,
    ) {
        Ok(x) => x,
        Err(e) => return Err(e),
    };
    assert(secure_comms ==> *old(ssc) != u64::MAX);
    if status != 0x9000 {
        return Ok(None);
    }
    let mut total: Vec<u8> = Vec::new();
    let mut offset: u16 = 0;
    let mut le: u16 = 5;
    let mut file_len: u64 = 0;
    let mut done = false;
    while !done
        invariant
            secure_comms ==> ks_enc@.len() == 16 && ks_mac@.len() == 16,
            !secure_comms ==> *ssc == *old(ssc),
            secure_comms ==> *ssc >= *old(ssc),
            !done ==> total@.len() <= 0x7FFF && offset == total@.len(),
            total@.len() <= 0x7FFF + 0xFFFF,
            secure_comms ==> *old(ssc) != u64::MAX,
        decreases 0x20000 - total@.len() + (if done { 0int } else { 0x10000int }),
    {
        let mut read = apdu_read_binary(offset, le);
        let (data, status) = match read.secure_exchange(
            smartcard,
            false,
            secure_comms,
            ssc,
            ks_enc,
            ks_mac,
        ) {
            Ok(x) => x,
            Err(e) => return Err(e),
        };
        let (fl, plan) = plan_read(total.len(), file_len, &data, status);
        file_len = fl;
        match plan {
            ReadPlan::Next(o, n) => {
                append_bytes(&mut total, data.as_slice());
                offset = o;
                le = n;
            },
            ReadPlan::Complete => {
                append_bytes(&mut total, data.as_slice());
                done = true;
            },
            ReadPlan::Refused => {
                return Ok(None);
            },
        }
    }
    if total.len() == 0 {
        Ok(None)
    } else {
        Ok(Some(total))
    }
}

} // verus!
