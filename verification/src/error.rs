use crate::text::{decimal, push_decimal, push_str, string_of};
use vstd::prelude::*;

verus! {

/// What can go wrong while checking for updates or installing them.
#[derive(Debug)]
pub enum Error {
    /// A request did not get through; the text says why.
    Network(String),
    /// The catalog asked to slow down.
    RateLimited,
    /// The catalog answered with a status code that means failure.
    ApiError(u16),
    XmlParse(String),
    MetadataParse(String),
    Io(String),
    ComponentNotFound(String),
    ExtractionFailed(String),
    InstallFailed(String),
    IdResolutionFailed(String),
    Config(String),
    InvalidVersion(String),
    DownloadFailed(String),
    ChecksumMismatch { expected: String, actual: String },
    MetadataNotFound,
    BackupFailed(String),
    RestartFailed(String),
    Other(String),
    RequiresSudo,
    SudoWithoutSystem,
    NoUpdatesAvailable,
}

impl Error {
    /// An expected condition that a caller can pass over.
    pub open spec fn skippable(self) -> bool {
        self is NoUpdatesAvailable || self is ComponentNotFound
    }

    /// A failure that may go away when the operation is tried again.
    pub open spec fn transient(self) -> bool {
        self is Network || self is RateLimited
    }

    /// A failure that trying again will not mend.
    pub open spec fn fatal(self) -> bool {
        !self.skippable() && !self.transient()
    }

    /// The text that describes the error.
    pub open spec fn text(self) -> Seq<char> {
        match self {
            Error::Network(m) => "network request failed: "@ + m@,
            Error::RateLimited => "api rate limited, retry after backoff"@,
            Error::ApiError(code) => "api returned error status: "@ + decimal(code as nat),
            Error::XmlParse(m) => "failed to parse xml: "@ + m@,
            Error::MetadataParse(m) => "failed to parse metadata.json: "@ + m@,
            Error::Io(m) => "io error: "@ + m@,
            Error::ComponentNotFound(m) => "component not found: "@ + m@,
            Error::ExtractionFailed(m) => "extraction failed: "@ + m@,
            Error::InstallFailed(m) => "installation failed: "@ + m@,
            Error::IdResolutionFailed(m) => "could not resolve content id for: "@ + m@,
            Error::Config(m) => "config error: "@ + m@,
            Error::InvalidVersion(m) => "invalid version: "@ + m@,
            Error::DownloadFailed(m) => "download failed: "@ + m@,
            Error::ChecksumMismatch { expected, actual } => "checksum mismatch: expected "@
                + expected@ + ", got "@ + actual@,
            Error::MetadataNotFound => "metadata not found in package"@,
            Error::BackupFailed(m) => "backup failed: "@ + m@,
            Error::RestartFailed(m) => "restart failed: "@ + m@,
            Error::Other(m) => m@,
            Error::RequiresSudo => "system operations require root privileges"@,
            Error::SudoWithoutSystem => "running as root requires --system flag"@,
            Error::NoUpdatesAvailable => "no updates available"@,
        }
    }

    pub fn xml_parse(msg: &str) -> (e: Self)
        ensures
            e matches Error::XmlParse(m) && m@ == msg@,
    {
        Error::XmlParse(msg.to_owned())
    }

    pub fn extraction(msg: &str) -> (e: Self)
        ensures
            e matches Error::ExtractionFailed(m) && m@ == msg@,
    {
        Error::ExtractionFailed(msg.to_owned())
    }

    pub fn install(msg: &str) -> (e: Self)
        ensures
            e matches Error::InstallFailed(m) && m@ == msg@,
    {
        Error::InstallFailed(msg.to_owned())
    }

    pub fn id_resolution(msg: &str) -> (e: Self)
        ensures
            e matches Error::IdResolutionFailed(m) && m@ == msg@,
    {
        Error::IdResolutionFailed(msg.to_owned())
    }

    pub fn config(msg: &str) -> (e: Self)
        ensures
            e matches Error::Config(m) && m@ == msg@,
    {
        Error::Config(msg.to_owned())
    }

    pub fn download(msg: &str) -> (e: Self)
        ensures
            e matches Error::DownloadFailed(m) && m@ == msg@,
    {
        Error::DownloadFailed(msg.to_owned())
    }

    pub fn backup(msg: &str) -> (e: Self)
        ensures
            e matches Error::BackupFailed(m) && m@ == msg@,
    {
        Error::BackupFailed(msg.to_owned())
    }

    pub fn restart(msg: &str) -> (e: Self)
        ensures
            e matches Error::RestartFailed(m) && m@ == msg@,
    {
        Error::RestartFailed(msg.to_owned())
    }

    pub fn other(msg: &str) -> (e: Self)
        ensures
            e matches Error::Other(m) && m@ == msg@,
    {
        Error::Other(msg.to_owned())
    }

    pub fn checksum(expected: &str, actual: &str) -> (e: Self)
        ensures
            e matches Error::ChecksumMismatch { expected: x, actual: a } && x@ == expected@ && a@
                == actual@,
    {
        Error::ChecksumMismatch { expected: expected.to_owned(), actual: actual.to_owned() }
    }

    /// Whether the error is an expected condition that can be passed over.
    pub fn is_skippable(&self) -> (r: bool)
        ensures
            r == self.skippable(),
    {
        match self {
            Error::NoUpdatesAvailable => true,
            Error::ComponentNotFound(_) => true,
            _ => false,
        }
    }

    /// Whether the operation may succeed when tried again.
    pub fn is_transient(&self) -> (r: bool)
        ensures
            r == self.transient(),
    {
        match self {
            Error::Network(_) => true,
            Error::RateLimited => true,
            _ => false,
        }
    }

    /// Whether the error is final.
    pub fn is_fatal(&self) -> (r: bool)
        ensures
            r == self.fatal(),
    {
        !self.is_skippable() && !self.is_transient()
    }

    /// The text that describes the error.
    pub fn message(&self) -> (r: String)
        ensures
            r@ == self.text(),
    {
        let mut v: Vec<char> = Vec::new();
        match self {
            Error::Network(m) => {
                push_str(&mut v, "network request failed: ");
                push_str(&mut v, m.as_str());
            },
            Error::RateLimited => {
                push_str(&mut v, "api rate limited, retry after backoff");
            },
            Error::ApiError(code) => {
                push_str(&mut v, "api returned error status: ");
                push_decimal(&mut v, *code as u64);
            },
            Error::XmlParse(m) => {
                push_str(&mut v, "failed to parse xml: ");
                push_str(&mut v, m.as_str());
            },
            Error::MetadataParse(m) => {
                push_str(&mut v, "failed to parse metadata.json: ");
                push_str(&mut v, m.as_str());
            },
            Error::Io(m) => {
                push_str(&mut v, "io error: ");
                push_str(&mut v, m.as_str());
            },
            Error::ComponentNotFound(m) => {
                push_str(&mut v, "component not found: ");
                push_str(&mut v, m.as_str());
            },
            Error::ExtractionFailed(m) => {
                push_str(&mut v, "extraction failed: ");
                push_str(&mut v, m.as_str());
            },
            Error::InstallFailed(m) => {
                push_str(&mut v, "installation failed: ");
                push_str(&mut v, m.as_str());
            },
            Error::IdResolutionFailed(m) => {
                push_str(&mut v, "could not resolve content id for: ");
                push_str(&mut v, m.as_str());
            },
            Error::Config(m) => {
                push_str(&mut v, "config error: ");
                push_str(&mut v, m.as_str());
            },
            Error::InvalidVersion(m) => {
                push_str(&mut v, "invalid version: ");
                push_str(&mut v, m.as_str());
            },
            Error::DownloadFailed(m) => {
                push_str(&mut v, "download failed: ");
                push_str(&mut v, m.as_str());
            },
            Error::ChecksumMismatch { expected, actual } => {
                push_str(&mut v, "checksum mismatch: expected ");
                push_str(&mut v, expected.as_str());
                push_str(&mut v, ", got ");
                push_str(&mut v, actual.as_str());
            },
            Error::MetadataNotFound => {
                push_str(&mut v, "metadata not found in package");
            },
            Error::BackupFailed(m) => {
                push_str(&mut v, "backup failed: ");
                push_str(&mut v, m.as_str());
            },
            Error::RestartFailed(m) => {
                push_str(&mut v, "restart failed: ");
                push_str(&mut v, m.as_str());
            },
            Error::Other(m) => {
                push_str(&mut v, m.as_str());
            },
            Error::RequiresSudo => {
                push_str(&mut v, "system operations require root privileges");
            },
            Error::SudoWithoutSystem => {
                push_str(&mut v, "running as root requires --system flag");
            },
            Error::NoUpdatesAvailable => {
                push_str(&mut v, "no updates available");
            },
        }
        proof {
            assert(v@ =~= self.text());
        }
        string_of(&v)
    }
}

/// Every error is of exactly one class: skippable, transient or fatal.
pub proof fn error_classes_partition(e: Error)
    ensures
        e.skippable() || e.transient() || e.fatal(),
        !(e.skippable() && e.transient()),
        !(e.skippable() && e.fatal()),
        !(e.transient() && e.fatal()),
{
}

} // verus!
