use vstd::prelude::*;
use vstd::string::*;

verus! {

/// Why a docs export could not be turned into a raw document.
#[derive(Clone, Debug)]
pub enum DocsError {
    /// No export file exists for the requested locale.
    UnknownLocale { locale: String },
    /// The export file exists but could not be read; `reason` is the OS error text.
    FailedRead { path: String, reason: String },
    /// The bytes are not UTF-16 text, or the text is not a JSON document of
    /// the expected shape.
    InvalidFormat { reason: String },
}

/// The library's error, grouped by the component that raised it.
#[derive(Clone, Debug)]
pub enum CommonError {
    Docs { error: DocsError },
}

impl DocsError {
    /// The locale carried by an `UnknownLocale` error.
    pub open spec fn is_unknown_locale(&self, locale: Seq<char>) -> bool {
        self matches DocsError::UnknownLocale { locale: l } && l@ == locale
    }

    /// An `InvalidFormat` error whose reason is exactly `reason`.
    pub open spec fn is_invalid_format(&self, reason: Seq<char>) -> bool {
        self matches DocsError::InvalidFormat { reason: r } && r@ == reason
    }

    pub fn unknown_locale(locale: &str) -> (r: Self)
        ensures
            r.is_unknown_locale(locale@),
    {
        DocsError::UnknownLocale { locale: String::from_str(locale) }
    }

    pub fn failed_read(path: &str, reason: &str) -> (r: Self)
        ensures
            r matches DocsError::FailedRead { path: p, reason: m } && p@ == path@ && m@ == reason@,
    {
        DocsError::FailedRead { path: String::from_str(path), reason: String::from_str(reason) }
    }

    pub fn invalid_format(reason: &str) -> (r: Self)
        ensures
            r.is_invalid_format(reason@),
    {
        DocsError::InvalidFormat { reason: String::from_str(reason) }
    }
}

impl From<DocsError> for CommonError {
    fn from(value: DocsError) -> (r: Self) {
        CommonError::Docs { error: value }
    }
}

impl vstd::std_specs::convert::FromSpecImpl<DocsError> for CommonError {
    open spec fn obeys_from_spec() -> bool {
        true
    }

    open spec fn from_spec(v: DocsError) -> CommonError {
        CommonError::Docs { error: v }
    }
}

} // verus!
