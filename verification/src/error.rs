use vstd::prelude::*;

verus! {

/// Errors raised across the proxy stack. Every variant carries its detail
/// as text; `message` renders the error the way it is reported.
#[derive(Debug, PartialEq, Eq)]
pub enum Error {
    Io(String),
    Tls(String),
    Configuration(String),
    System(String),
    NotImplemented(String),
    /// An error raised by a plugin, held by its rendered text.
    Anyhow(String),
}

impl Error {
    /// The label that opens the rendered form of each variant.
    pub open spec fn label(&self) -> Seq<char> {
        match self {
            Error::Io(_) => "IO Error: "@,
            Error::Tls(_) => "TLS Error: "@,
            Error::Configuration(_) => "Configuration Error: "@,
            Error::System(_) => "System Error: "@,
            Error::NotImplemented(_) => "Not Implemented: "@,
            Error::Anyhow(_) => "Anyhow: "@,
        }
    }

    /// The detail text the variant carries.
    pub open spec fn detail(&self) -> Seq<char> {
        match self {
            Error::Io(s) => s@,
            Error::Tls(s) => s@,
            Error::Configuration(s) => s@,
            Error::System(s) => s@,
            Error::NotImplemented(s) => s@,
            Error::Anyhow(s) => s@,
        }
    }

    /// Renders the error: its label followed by its detail,
    /// e.g. `IO Error: connection reset`.
    pub fn message(&self) -> (text: String)
        ensures
            text@ == self.label() + self.detail(),
            *self matches Error::Io(s) ==> text@ == "IO Error: "@ + s@,
            *self matches Error::Tls(s) ==> text@ == "TLS Error: "@ + s@,
            *self matches Error::Configuration(s) ==> text@ == "Configuration Error: "@ + s@,
            *self matches Error::System(s) ==> text@ == "System Error: "@ + s@,
            *self matches Error::NotImplemented(s) ==> text@ == "Not Implemented: "@ + s@,
            *self matches Error::Anyhow(s) ==> text@ == "Anyhow: "@ + s@,
    {
        match self {
            Error::Io(s) => String::from_str("IO Error: ").concat(s.as_str()),
            Error::Tls(s) => String::from_str("TLS Error: ").concat(s.as_str()),
            Error::Configuration(s) => String::from_str("Configuration Error: ").concat(s.as_str()),
            Error::System(s) => String::from_str("System Error: ").concat(s.as_str()),
            Error::NotImplemented(s) => String::from_str("Not Implemented: ").concat(s.as_str()),
            Error::Anyhow(s) => String::from_str("Anyhow: ").concat(s.as_str()),
        }
    }
}

} // verus!
