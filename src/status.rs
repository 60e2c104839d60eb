//! The status codes of server replies.
use vstd::prelude::*;

verus! {

/// The status word that a server sends at the head of most replies.
#[derive(Debug, Clone, Copy, PartialEq, Eq, Structural)]
pub enum Status {
    Success,
    Unsupported,
    Canceled,
    DeviceBusy,
    Invalid,
    EndOfFile,
    Jammed,
    NoDocuments,
    CoverOpen,
    IOError,
    OutOfMemory,
    AccessDenied,
}

/// The wire code of each status.
pub open spec fn status_code(s: Status) -> i32 {
    match s {
        Status::Success => 0,
        Status::Unsupported => 1,
        Status::Canceled => 2,
        Status::DeviceBusy => 3,
        Status::Invalid => 4,
        Status::EndOfFile => 5,
        Status::Jammed => 6,
        Status::NoDocuments => 7,
        Status::CoverOpen => 8,
        Status::IOError => 9,
        Status::OutOfMemory => 10,
        Status::AccessDenied => 11,
    }
}

/// The status that a wire code stands for; codes outside 0..=11 stand for none.
pub open spec fn status_of_code(c: i32) -> Option<Status> {
    if c == 0 {
        Some(Status::Success)
    } else if c == 1 {
        Some(Status::Unsupported)
    } else if c == 2 {
        Some(Status::Canceled)
    } else if c == 3 {
        Some(Status::DeviceBusy)
    } else if c == 4 {
        Some(Status::Invalid)
    } else if c == 5 {
        Some(Status::EndOfFile)
    } else if c == 6 {
        Some(Status::Jammed)
    } else if c == 7 {
        Some(Status::NoDocuments)
    } else if c == 8 {
        Some(Status::CoverOpen)
    } else if c == 9 {
        Some(Status::IOError)
    } else if c == 10 {
        Some(Status::OutOfMemory)
    } else if c == 11 {
        Some(Status::AccessDenied)
    } else {
        None
    }
}

impl Status {
    /// Maps a wire code to its status; `None` for an unknown code.
    pub fn from_code(c: i32) -> (r: Option<Status>)
        ensures
            r == status_of_code(c),
    {
        match c {
            0 => Some(Status::Success),
            1 => Some(Status::Unsupported),
            2 => Some(Status::Canceled),
            3 => Some(Status::DeviceBusy),
            4 => Some(Status::Invalid),
            5 => Some(Status::EndOfFile),
            6 => Some(Status::Jammed),
            7 => Some(Status::NoDocuments),
            8 => Some(Status::CoverOpen),
            9 => Some(Status::IOError),
            10 => Some(Status::OutOfMemory),
            11 => Some(Status::AccessDenied),
            _ => None,
        }
    }

    /// The wire code of this status.
    pub fn code(&self) -> (r: i32)
        ensures
            r == status_code(*self),
    {
        match self {
            Status::Success => 0,
            Status::Unsupported => 1,
            Status::Canceled => 2,
            Status::DeviceBusy => 3,
            Status::Invalid => 4,
            Status::EndOfFile => 5,
            Status::Jammed => 6,
            Status::NoDocuments => 7,
            Status::CoverOpen => 8,
            Status::IOError => 9,
            Status::OutOfMemory => 10,
            Status::AccessDenied => 11,
        }
    }
}

/// The codes 0 to 11 and the twelve statuses correspond one to one: each status
/// is the status of its own code, each code in that range names a status whose
/// code it is, and every other code names none.
pub proof fn lemma_status_code_bijection(s: Status, c: i32)
    ensures
        status_of_code(status_code(s)) == Some(s),
        0 <= status_code(s) <= 11,
        (0 <= c <= 11) <==> status_of_code(c) is Some,
        status_of_code(c) is Some ==> status_code(status_of_code(c)->Some_0) == c,
{
}

} // verus!
