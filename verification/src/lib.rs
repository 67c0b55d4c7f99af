use vstd::prelude::*;

pub mod channel;
pub mod lwip;
pub mod mutex;
pub mod output;
pub mod script;
pub mod stack;
pub mod stack_impl;
pub mod tcp_listener;
pub mod tcp_listener_impl;
pub mod tcp_stream;
pub mod udp;
pub mod text;
pub mod util;

verus! {

/// Failure reported by the embedded stack, carrying its numeric reason.
#[derive(Debug, Clone, Copy, PartialEq, Eq, Structural)]
pub enum Error {
    LwIP(i8),
}

impl Error {
    /// The stack's numeric reason.
    pub open spec fn spec_code(&self) -> i8 {
        match *self {
            Error::LwIP(code) => code,
        }
    }

    /// The stack's numeric reason.
    #[verifier::when_used_as_spec(spec_code)]
    pub fn code(&self) -> (code: i8)
        ensures
            code == self.spec_code(),
    {
        match *self {
            Error::LwIP(code) => code,
        }
    }

    /// The text of the error: `LwIP error (N)` with the reason in decimal.
    pub open spec fn spec_message(&self) -> Seq<char> {
        "LwIP error ("@ + text::decimal(self.code() as int) + ")"@
    }

    /// The text of the error.
    pub fn to_string(&self) -> (s: String)
        ensures
            s@ == self.spec_message(),
    {
        let mut s = String::new();
        s.push_str("LwIP error (");
        text::push_code(&mut s, self.code());
        s.push_str(")");
        assert(s@ =~= self.spec_message());
        s
    }
}

/// The kind under which an I/O error is reported.
#[derive(Debug, Clone, Copy, PartialEq, Eq, Structural)]
pub enum IoErrorKind {
    Interrupted,
    Other,
}

/// Failure on one of the packet or datagram surfaces.
#[derive(Debug, Clone, Copy, PartialEq, Eq, Structural)]
pub enum IoError {
    /// The interface has no input entry point.
    InputFnNotSet,
    /// The stack rejected an ingress packet with this code.
    Input(i8),
    /// The stack refused to send a datagram with this code.
    UdpSendto(i8),
}

impl IoError {
    /// The kind of the error: a failed ingress is an interruption, the rest
    /// is unclassified.
    pub open spec fn spec_kind(&self) -> IoErrorKind {
        match *self {
            IoError::InputFnNotSet => IoErrorKind::Interrupted,
            IoError::Input(_) => IoErrorKind::Interrupted,
            IoError::UdpSendto(_) => IoErrorKind::Other,
        }
    }

    /// The kind of the error.
    #[verifier::when_used_as_spec(spec_kind)]
    pub fn kind(&self) -> (kind: IoErrorKind)
        ensures
            kind == self.spec_kind(),
    {
        match *self {
            IoError::InputFnNotSet => IoErrorKind::Interrupted,
            IoError::Input(_) => IoErrorKind::Interrupted,
            IoError::UdpSendto(_) => IoErrorKind::Other,
        }
    }

    /// The text of the error, with the stack's code in decimal where it
    /// carries one.
    pub open spec fn spec_message(&self) -> Seq<char> {
        match *self {
            IoError::InputFnNotSet => "input fn not set"@,
            IoError::Input(code) => "input error: "@ + text::decimal(code as int),
            IoError::UdpSendto(code) => "udp_sendto error: "@ + text::decimal(code as int),
        }
    }

    /// The text of the error.
    pub fn to_string(&self) -> (s: String)
        ensures
            s@ == self.spec_message(),
    {
        let mut s = String::new();
        match *self {
            IoError::InputFnNotSet => {
                s.push_str("input fn not set");
            },
            IoError::Input(code) => {
                s.push_str("input error: ");
                text::push_code(&mut s, code);
            },
            IoError::UdpSendto(code) => {
                s.push_str("udp_sendto error: ");
                text::push_code(&mut s, code);
            },
        }
        assert(s@ =~= self.spec_message());
        s
    }
}

/// `std::task::Poll`, with its two variants in plain sight.
#[verifier::external_type_specification]
#[verifier::reject_recursive_types(T)]
pub struct ExPoll<T>(std::task::Poll<T>);

} // verus!
