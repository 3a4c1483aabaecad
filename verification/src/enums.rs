use crate::text::str_eq;
use crate::xpc_error::XPCError;
use crate::xpc_object::TryXPCValue;
use crate::xpc_object::XPCObject;
use crate::xpc_object::XPCValue;
use vstd::prelude::*;
use vstd::utf8::decode_utf8;
use vstd::utf8::valid_utf8;

verus! {

/// The scope under which the daemon keeps a service.
#[derive(Clone, Copy, Debug, PartialEq, Eq, Structural)]
pub enum DomainType {
    System,
    User,
    UserLogin,
    Session,
    PID,
    RequestorUserDomain,
    RequestorDomain,
    Unknown,
}

impl DomainType {
    /// The number that stands for the domain on the wire; 0 for `Unknown`,
    /// which the daemon does not know.
    pub open spec fn spec_code(self) -> u64 {
        match self {
            DomainType::System => 1,
            DomainType::User => 2,
            DomainType::UserLogin => 3,
            DomainType::Session => 4,
            DomainType::PID => 5,
            DomainType::RequestorUserDomain => 6,
            DomainType::RequestorDomain => 7,
            DomainType::Unknown => 0,
        }
    }

    /// The domain that a number stands for; `Unknown` for a number that stands
    /// for none.
    pub open spec fn spec_from_code(code: u64) -> DomainType {
        if code == 1 {
            DomainType::System
        } else if code == 2 {
            DomainType::User
        } else if code == 3 {
            DomainType::UserLogin
        } else if code == 4 {
            DomainType::Session
        } else if code == 5 {
            DomainType::PID
        } else if code == 6 {
            DomainType::RequestorUserDomain
        } else if code == 7 {
            DomainType::RequestorDomain
        } else {
            DomainType::Unknown
        }
    }

    #[verifier::when_used_as_spec(spec_code)]
    pub fn code(self) -> (r: u64)
        ensures
            r == self.spec_code(),
    {
        match self {
            DomainType::System => 1,
            DomainType::User => 2,
            DomainType::UserLogin => 3,
            DomainType::Session => 4,
            DomainType::PID => 5,
            DomainType::RequestorUserDomain => 6,
            DomainType::RequestorDomain => 7,
            DomainType::Unknown => 0,
        }
    }

    #[verifier::when_used_as_spec(spec_from_code)]
    pub fn from_code(code: u64) -> (r: DomainType)
        ensures
            r == DomainType::spec_from_code(code),
    {
        if code == 1 {
            DomainType::System
        } else if code == 2 {
            DomainType::User
        } else if code == 3 {
            DomainType::UserLogin
        } else if code == 4 {
            DomainType::Session
        } else if code == 5 {
            DomainType::PID
        } else if code == 6 {
            DomainType::RequestorUserDomain
        } else if code == 7 {
            DomainType::RequestorDomain
        } else {
            DomainType::Unknown
        }
    }
}

/// The kind of login session to which a service is limited.
#[derive(Clone, Copy, Debug, PartialEq, Eq, Structural)]
pub enum SessionType {
    Aqua,
    StandardIO,
    Background,
    LoginWindow,
    System,
    Unknown,
}

impl SessionType {
    /// The session type that the daemon writes as `name`; `Unknown` for any
    /// other text.
    pub open spec fn spec_from_name(name: Seq<char>) -> SessionType {
        if name == "Aqua"@ {
            SessionType::Aqua
        } else if name == "StandardIO"@ {
            SessionType::StandardIO
        } else if name == "Background"@ {
            SessionType::Background
        } else if name == "LoginWindow"@ {
            SessionType::LoginWindow
        } else if name == "System"@ {
            SessionType::System
        } else {
            SessionType::Unknown
        }
    }

    /// The session type that a native value names: that of its text when it is
    /// a string of valid text, `Unknown` for anything else.
    pub open spec fn spec_of_value(value: XPCValue) -> SessionType {
        match value {
            XPCValue::Text(bytes) => if valid_utf8(bytes) {
                SessionType::spec_from_name(decode_utf8(bytes))
            } else {
                SessionType::Unknown
            },
            _ => SessionType::Unknown,
        }
    }

    pub fn from_name(name: &str) -> (r: SessionType)
        ensures
            r == SessionType::spec_from_name(name@),
    {
        if str_eq(name, "Aqua") {
            SessionType::Aqua
        } else if str_eq(name, "StandardIO") {
            SessionType::StandardIO
        } else if str_eq(name, "Background") {
            SessionType::Background
        } else if str_eq(name, "LoginWindow") {
            SessionType::LoginWindow
        } else if str_eq(name, "System") {
            SessionType::System
        } else {
            SessionType::Unknown
        }
    }

    /// The text that the daemon writes for the session type.
    pub open spec fn spec_name(self) -> Seq<char> {
        match self {
            SessionType::Aqua => "Aqua"@,
            SessionType::StandardIO => "StandardIO"@,
            SessionType::Background => "Background"@,
            SessionType::LoginWindow => "LoginWindow"@,
            SessionType::System => "System"@,
            SessionType::Unknown => "Unknown"@,
        }
    }

    /// The text that the daemon writes for the session type.
    pub fn name(self) -> (r: &'static str)
        ensures
            r@ == self.spec_name(),
    {
        match self {
            SessionType::Aqua => "Aqua",
            SessionType::StandardIO => "StandardIO",
            SessionType::Background => "Background",
            SessionType::LoginWindow => "LoginWindow",
            SessionType::System => "System",
            SessionType::Unknown => "Unknown",
        }
    }

    /// The session type that a native object names.
    pub fn of_object(object: &XPCObject) -> (r: SessionType)
        ensures
            r == SessionType::spec_of_value(object@),
    {
        let text: Result<String, XPCError> = object.xpc_value();
        match text {
            Ok(name) => SessionType::from_name(name.as_str()),
            Err(_) => SessionType::Unknown,
        }
    }
}

} // verus!
