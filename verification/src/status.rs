//! Status values of the public HRX API and their conversion from IREE codes.
use vstd::prelude::*;

verus! {

/// `hrx_status_code_t`; the numeric values follow IREE's status codes.
#[derive(Clone, Copy, PartialEq, Eq, Structural, Debug)]
pub enum HrxStatusCode {
    Success,
    Cancelled,
    Unknown,
    InvalidArgument,
    DeadlineExceeded,
    NotFound,
    AlreadyExists,
    PermissionDenied,
    OutOfMemory,
    FailedPrecondition,
    Aborted,
    OutOfRange,
    Unimplemented,
    Internal,
    Unavailable,
    DataLoss,
}

/// The numeric value of each status code.
pub open spec fn code_value(c: HrxStatusCode) -> i32 {
    match c {
        HrxStatusCode::Success => 0,
        HrxStatusCode::Cancelled => 1,
        HrxStatusCode::Unknown => 2,
        HrxStatusCode::InvalidArgument => 3,
        HrxStatusCode::DeadlineExceeded => 4,
        HrxStatusCode::NotFound => 5,
        HrxStatusCode::AlreadyExists => 6,
        HrxStatusCode::PermissionDenied => 7,
        HrxStatusCode::OutOfMemory => 8,
        HrxStatusCode::FailedPrecondition => 9,
        HrxStatusCode::Aborted => 10,
        HrxStatusCode::OutOfRange => 11,
        HrxStatusCode::Unimplemented => 12,
        HrxStatusCode::Internal => 13,
        HrxStatusCode::Unavailable => 14,
        HrxStatusCode::DataLoss => 15,
    }
}

impl HrxStatusCode {
    /// The numeric value of the code.
    pub fn value(self) -> (r: i32)
        ensures
            r == code_value(self),
    {
        match self {
            HrxStatusCode::Success => 0,
            HrxStatusCode::Cancelled => 1,
            HrxStatusCode::Unknown => 2,
            HrxStatusCode::InvalidArgument => 3,
            HrxStatusCode::DeadlineExceeded => 4,
            HrxStatusCode::NotFound => 5,
            HrxStatusCode::AlreadyExists => 6,
            HrxStatusCode::PermissionDenied => 7,
            HrxStatusCode::OutOfMemory => 8,
            HrxStatusCode::FailedPrecondition => 9,
            HrxStatusCode::Aborted => 10,
            HrxStatusCode::OutOfRange => 11,
            HrxStatusCode::Unimplemented => 12,
            HrxStatusCode::Internal => 13,
            HrxStatusCode::Unavailable => 14,
            HrxStatusCode::DataLoss => 15,
        }
    }
}

pub const HRX_STATUS_OK: i32 = 0;

/// Payload of an error status: its code and the message it was made with.
#[derive(Clone, Debug)]
pub struct HrxStatusS {
    pub code: i32,
    pub message: Option<String>,
}

/// `hrx_status_t`: `None` is OK, `Some` carries an error payload.
pub type HrxStatus = Option<HrxStatusS>;

/// The OK status.
pub fn hrx_ok_status() -> (r: HrxStatus)
    ensures
        r is None,
{
    None
}

/// Whether a status is OK.
pub fn hrx_status_is_ok(s: &HrxStatus) -> (r: bool)
    ensures
        r == (*s is None),
{
    s.is_none()
}

/// Makes a status: the OK code gives the OK status, any other code an error
/// payload holding the code and a copy of the message.
pub fn hrx_make_status(code: i32, message: Option<&str>) -> (r: HrxStatus)
    ensures
        code == HRX_STATUS_OK ==> r is None,
        code != HRX_STATUS_OK ==> r is Some && r->0.code == code
            && (r->0.message is Some <==> message is Some)
            && (message is Some ==> r->0.message->0@ == message->0@),
{
    if code == HRX_STATUS_OK {
        return None;
    }
    let msg = match message {
        Some(m) => Some(m.to_owned()),
        None => None,
    };
    Some(HrxStatusS { code, message: msg })
}

/// An error payload with `code` and the literal message `msg`.
pub open spec fn is_error(s: HrxStatusS, code: HrxStatusCode, msg: Seq<char>) -> bool {
    s.code == code_value(code) && s.message is Some && s.message->0@ == msg
}

/// The error payload with `code` and message `msg`.
pub fn status_error(code: HrxStatusCode, msg: &str) -> (r: HrxStatusS)
    ensures
        r.code == code_value(code),
        r.message is Some && r.message->0@ == msg@,
{
    HrxStatusS { code: code.value(), message: Some(msg.to_owned()) }
}

/// `hrx_status_code`: the code of a status; OK for the OK status.
pub fn hrx_status_code(status: &HrxStatus) -> (r: i32)
    ensures
        status is None ==> r == HRX_STATUS_OK,
        status is Some ==> r == status->0.code,
{
    match status {
        None => HRX_STATUS_OK,
        Some(s) => s.code,
    }
}

/// `hrx_status_ignore`: discards a status and its payload.
pub fn hrx_status_ignore(status: HrxStatus) {
}

/// The HRX code for an IREE status code: the codes coincide for
/// invalid argument, not found, already exists, out of range, unimplemented,
/// unavailable and deadline exceeded; resource exhaustion is out of memory;
/// every other code is internal.
pub open spec fn code_from_iree_spec(iree_code: i32) -> i32 {
    if iree_code == 3 {
        3
    } else if iree_code == 5 {
        5
    } else if iree_code == 6 {
        6
    } else if iree_code == 11 {
        11
    } else if iree_code == 12 {
        12
    } else if iree_code == 14 {
        14
    } else if iree_code == 8 {
        8
    } else if iree_code == 4 {
        4
    } else {
        13
    }
}

pub fn hrx_code_from_iree(iree_code: i32) -> (r: i32)
    ensures
        r == code_from_iree_spec(iree_code),
{
    match iree_code {
        3 => HrxStatusCode::InvalidArgument.value(),
        5 => HrxStatusCode::NotFound.value(),
        6 => HrxStatusCode::AlreadyExists.value(),
        11 => HrxStatusCode::OutOfRange.value(),
        12 => HrxStatusCode::Unimplemented.value(),
        14 => HrxStatusCode::Unavailable.value(),
        8 => HrxStatusCode::OutOfMemory.value(),
        4 => HrxStatusCode::DeadlineExceeded.value(),
        _ => HrxStatusCode::Internal.value(),
    }
}

/// An error returned by an IREE call: its status code and the text IREE
/// formats for it (`None` when formatting failed).
#[derive(Clone, Debug)]
pub struct IreeError {
    pub code: i32,
    pub formatted: Option<String>,
}

/// What an IREE call returned: `None` is OK.
pub type IreeStatus = Option<IreeError>;

/// The HRX status for an IREE status (`hrx_status_from_iree`).
pub open spec fn status_from_iree_spec(s: IreeStatus) -> Option<(i32, Seq<char>)> {
    match s {
        None => None,
        Some(e) => Some(
            (
                code_from_iree_spec(e.code),
                match e.formatted {
                    Some(m) => m@,
                    None => "IREE error (could not format message)"@,
                },
            ),
        ),
    }
}

/// Whether `h` is the HRX status for the IREE status `s`.
pub open spec fn converts(s: IreeStatus, h: HrxStatus) -> bool {
    match status_from_iree_spec(s) {
        None => h is None,
        Some((c, m)) => h is Some && h->0.code == c && h->0.message is Some && h->0.message->0@ == m,
    }
}

/// `hrx_status_from_iree`: OK stays OK; an error keeps its message (or a note
/// that it could not be formatted) under the HRX code for its IREE code.
pub fn hrx_status_from_iree(s: IreeStatus) -> (r: HrxStatus)
    ensures
        converts(s, r),
{
    match s {
        None => None,
        Some(e) => {
            let code = hrx_code_from_iree(e.code);
            match e.formatted {
                Some(m) => Some(HrxStatusS { code, message: Some(m) }),
                None => Some(
                    HrxStatusS { code, message: Some("IREE error (could not format message)".to_owned()) },
                ),
            }
        },
    }
}

/// `hrx_status_from_iree` of a borrowed IREE status.
pub fn hrx_status_from_iree_ref(s: &IreeStatus) -> (r: HrxStatus)
    ensures
        converts(*s, r),
{
    match s {
        None => None,
        Some(e) => {
            let code = hrx_code_from_iree(e.code);
            match &e.formatted {
                Some(m) => Some(HrxStatusS { code, message: Some(m.clone()) }),
                None => Some(
                    HrxStatusS { code, message: Some("IREE error (could not format message)".to_owned()) },
                ),
            }
        },
    }
}

/// `hrx_status_to_string`: `OK` for the OK status, else the status message
/// (`(no message)` when it has none), with its length in bytes.
pub fn hrx_status_to_string(status: &HrxStatus) -> (r: (String, usize))
    ensures
        status is None ==> r.0@ == "OK"@,
        status is Some && status->0.message is Some ==> r.0@ == status->0.message->0@,
        status is Some && status->0.message is None ==> r.0@ == "(no message)"@,
        r.1 == vstd::utf8::encode_utf8(r.0@).len() as usize,
{
    let s = match status {
        None => "OK".to_owned(),
        Some(p) => match &p.message {
            Some(m) => m.clone(),
            None => "(no message)".to_owned(),
        },
    };
    let n = s.as_str().len();
    (s, n)
}

/// Converting an IREE error never gives OK, and every HRX code it gives is a
/// known status code other than OK.
pub proof fn law_iree_errors_stay_errors(e: IreeError)
    ensures
        status_from_iree_spec(Some(e)) is Some,
        code_from_iree_spec(e.code) != HRX_STATUS_OK,
        1 <= code_from_iree_spec(e.code) <= 15,
{
}

} // verus!
