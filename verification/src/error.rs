//! The library's error type and its rendered messages.

use vstd::prelude::*;

use crate::text::{decimal_text, i64_to_decimal};

verus! {

/// Everything that can go wrong while classifying or formatting a date.
#[derive(Debug, Clone, PartialEq, Eq)]
pub enum TimelineDateError {
    InvalidTimestamp(i64),
    InvalidTimezone(String),
    InvalidLocale(String),
    I18nInit(String),
    I18nFormat(String),
    FormattingUnsupported(String),
    LocaleDataUnavailable(String),
    Internal(String),
}

/// Result of every fallible operation of the library.
pub type TimelineDateResult<T> = Result<T, TimelineDateError>;

} // verus!

verus! {

/// The rendered message of an error.
pub open spec fn error_message(error: TimelineDateError) -> Seq<char> {
    match error {
        TimelineDateError::InvalidTimestamp(v) => "invalid timestamp: "@ + decimal_text(v as int),
        TimelineDateError::InvalidTimezone(s) => "invalid timezone: "@ + s@,
        TimelineDateError::InvalidLocale(s) => "invalid locale: "@ + s@,
        TimelineDateError::I18nInit(s) => "i18n runtime initialization failed: "@ + s@,
        TimelineDateError::I18nFormat(s) => "i18n formatting failed: "@ + s@,
        TimelineDateError::FormattingUnsupported(s) => "formatting unsupported: "@ + s@,
        TimelineDateError::LocaleDataUnavailable(s) => "locale data unavailable: "@ + s@,
        TimelineDateError::Internal(s) => "internal error: "@ + s@,
    }
}

impl TimelineDateError {
    /// The human-readable message of the error.
    pub fn message(&self) -> (text: String)
        ensures
            text@ == error_message(*self),
    {
        match self {
            TimelineDateError::InvalidTimestamp(v) => {
                let digits = i64_to_decimal(*v);
                String::from_str("invalid timestamp: ").concat(digits.as_str())
            },
            TimelineDateError::InvalidTimezone(s) => String::from_str("invalid timezone: ").concat(
                s.as_str(),
            ),
            TimelineDateError::InvalidLocale(s) => String::from_str("invalid locale: ").concat(
                s.as_str(),
            ),
            TimelineDateError::I18nInit(s) => String::from_str(
                "i18n runtime initialization failed: ",
            ).concat(s.as_str()),
            TimelineDateError::I18nFormat(s) => String::from_str("i18n formatting failed: ").concat(
                s.as_str(),
            ),
            TimelineDateError::FormattingUnsupported(s) => String::from_str(
                "formatting unsupported: ",
            ).concat(s.as_str()),
            TimelineDateError::LocaleDataUnavailable(s) => String::from_str(
                "locale data unavailable: ",
            ).concat(s.as_str()),
            TimelineDateError::Internal(s) => String::from_str("internal error: ").concat(
                s.as_str(),
            ),
        }
    }
}

} // verus!
