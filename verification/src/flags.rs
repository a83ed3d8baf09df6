//! Enumerations from the MAPI interface. The numeric values cross the
//! boundary as plain integers; each enum maps to its wire value through
//! `code`.

use vstd::prelude::*;

verus! {

/// The code page a message declares, carried in its reserved field.
#[derive(Clone, Copy, Debug, PartialEq, Eq, Structural)]
pub enum MessageCodePage {
    Ansi,
    Utf8,
}

impl MessageCodePage {
    pub open spec fn code_spec(&self) -> u32 {
        match self {
            MessageCodePage::Ansi => 0,
            MessageCodePage::Utf8 => 65001,
        }
    }

    /// The wire value of this code page.
    pub fn code(&self) -> (c: u32)
        ensures
            c == self.code_spec(),
    {
        match self {
            MessageCodePage::Ansi => 0,
            MessageCodePage::Utf8 => 65001,
        }
    }
}

/// The class of a recipient record.
#[derive(Clone, Copy, Debug, PartialEq, Eq, Structural)]
pub enum MapiRecipClass {
    Orig,
    To,
    Cc,
    Bcc,
}

impl MapiRecipClass {
    pub open spec fn code_spec(&self) -> u32 {
        match self {
            MapiRecipClass::Orig => 0,
            MapiRecipClass::To => 1,
            MapiRecipClass::Cc => 2,
            MapiRecipClass::Bcc => 3,
        }
    }

    /// The wire value of this recipient class.
    pub fn code(&self) -> (c: u32)
        ensures
            c == self.code_spec(),
    {
        match self {
            MapiRecipClass::Orig => 0,
            MapiRecipClass::To => 1,
            MapiRecipClass::Cc => 2,
            MapiRecipClass::Bcc => 3,
        }
    }
}

/// The status a boundary entry point reports back to the caller.
#[derive(Clone, Copy, Debug, PartialEq, Eq, Structural)]
pub enum MapiStatusCode {
    Success,
    UserAbort,
    Failure,
    LogonFailure,
    DiskFull,
    InsufficientMemory,
    AccessDenied,
    TooManySessions,
    TooManyFiles,
    TooManyRecipients,
    AttachmentNotFound,
    AttachmentOpenFailure,
    AttachmentWriteFailure,
    UnknownRecipient,
    BadRecipType,
    NoMessages,
    InvalidMessage,
    TextTooLarge,
    InvalidSession,
    TypeNotSupported,
    AmbiguousRecipient,
    MessageInUse,
    NetworkFailure,
    InvalidEditfields,
    InvalidRecips,
    NotSupported,
}

impl MapiStatusCode {
    pub open spec fn code_spec(&self) -> u32 {
        match self {
            MapiStatusCode::Success => 0,
            MapiStatusCode::UserAbort => 1,
            MapiStatusCode::Failure => 2,
            MapiStatusCode::LogonFailure => 3,
            MapiStatusCode::DiskFull => 4,
            MapiStatusCode::InsufficientMemory => 5,
            MapiStatusCode::AccessDenied => 6,
            MapiStatusCode::TooManySessions => 8,
            MapiStatusCode::TooManyFiles => 9,
            MapiStatusCode::TooManyRecipients => 10,
            MapiStatusCode::AttachmentNotFound => 11,
            MapiStatusCode::AttachmentOpenFailure => 12,
            MapiStatusCode::AttachmentWriteFailure => 13,
            MapiStatusCode::UnknownRecipient => 14,
            MapiStatusCode::BadRecipType => 15,
            MapiStatusCode::NoMessages => 16,
            MapiStatusCode::InvalidMessage => 17,
            MapiStatusCode::TextTooLarge => 18,
            MapiStatusCode::InvalidSession => 19,
            MapiStatusCode::TypeNotSupported => 20,
            MapiStatusCode::AmbiguousRecipient => 21,
            MapiStatusCode::MessageInUse => 22,
            MapiStatusCode::NetworkFailure => 23,
            MapiStatusCode::InvalidEditfields => 24,
            MapiStatusCode::InvalidRecips => 25,
            MapiStatusCode::NotSupported => 26,
        }
    }

    /// The wire value of this status, as the MAPI interface defines it
    /// (the value 7 is not assigned).
    pub fn code(&self) -> (c: u32)
        ensures
            c == self.code_spec(),
    {
        match self {
            MapiStatusCode::Success => 0,
            MapiStatusCode::UserAbort => 1,
            MapiStatusCode::Failure => 2,
            MapiStatusCode::LogonFailure => 3,
            MapiStatusCode::DiskFull => 4,
            MapiStatusCode::InsufficientMemory => 5,
            MapiStatusCode::AccessDenied => 6,
            MapiStatusCode::TooManySessions => 8,
            MapiStatusCode::TooManyFiles => 9,
            MapiStatusCode::TooManyRecipients => 10,
            MapiStatusCode::AttachmentNotFound => 11,
            MapiStatusCode::AttachmentOpenFailure => 12,
            MapiStatusCode::AttachmentWriteFailure => 13,
            MapiStatusCode::UnknownRecipient => 14,
            MapiStatusCode::BadRecipType => 15,
            MapiStatusCode::NoMessages => 16,
            MapiStatusCode::InvalidMessage => 17,
            MapiStatusCode::TextTooLarge => 18,
            MapiStatusCode::InvalidSession => 19,
            MapiStatusCode::TypeNotSupported => 20,
            MapiStatusCode::AmbiguousRecipient => 21,
            MapiStatusCode::MessageInUse => 22,
            MapiStatusCode::NetworkFailure => 23,
            MapiStatusCode::InvalidEditfields => 24,
            MapiStatusCode::InvalidRecips => 25,
            MapiStatusCode::NotSupported => 26,
        }
    }
}

} // verus!
