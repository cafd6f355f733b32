use vstd::prelude::*;

verus! {

/// Failures that the device's supervisor reports for a system call.
#[derive(Debug, Clone, Copy, PartialEq, Eq, Structural)]
pub enum SystemError {
    Exception,
    InvalidParameter,
    Overflow,
    Security,
    InvalidCrc,
    InvalidChecksum,
    InvalidCounter,
    NotSupported,
    InvalidState,
    Timeout,
    Pic,
    AppExit,
    IoOverflow,
    IoHeader,
    IoState,
    IoReset,
    CxPort,
    System,
}

impl SystemError {
    /// The numeric code under which the supervisor reports this error.
    pub open spec fn code(self) -> u16 {
        match self {
            SystemError::Exception => 1,
            SystemError::InvalidParameter => 2,
            SystemError::Overflow => 3,
            SystemError::Security => 4,
            SystemError::InvalidCrc => 5,
            SystemError::InvalidChecksum => 6,
            SystemError::InvalidCounter => 7,
            SystemError::NotSupported => 8,
            SystemError::InvalidState => 9,
            SystemError::Timeout => 10,
            SystemError::Pic => 11,
            SystemError::AppExit => 12,
            SystemError::IoOverflow => 13,
            SystemError::IoHeader => 14,
            SystemError::IoState => 15,
            SystemError::IoReset => 16,
            SystemError::CxPort => 17,
            SystemError::System => 18,
        }
    }

    /// The error that the supervisor reports under `value`, if any.
    pub fn from_u16(value: u16) -> (r: Option<SystemError>)
        ensures
            1 <= value <= 18 ==> (r matches Some(e) && e.code() == value),
            !(1 <= value <= 18) ==> r is None,
    {
        match value {
            1 => Some(SystemError::Exception),
            2 => Some(SystemError::InvalidParameter),
            3 => Some(SystemError::Overflow),
            4 => Some(SystemError::Security),
            5 => Some(SystemError::InvalidCrc),
            6 => Some(SystemError::InvalidChecksum),
            7 => Some(SystemError::InvalidCounter),
            8 => Some(SystemError::NotSupported),
            9 => Some(SystemError::InvalidState),
            10 => Some(SystemError::Timeout),
            11 => Some(SystemError::Pic),
            12 => Some(SystemError::AppExit),
            13 => Some(SystemError::IoOverflow),
            14 => Some(SystemError::IoHeader),
            15 => Some(SystemError::IoState),
            16 => Some(SystemError::IoReset),
            17 => Some(SystemError::CxPort),
            18 => Some(SystemError::System),
            _ => None,
        }
    }

    /// The numeric code of this error.
    pub fn to_u16(&self) -> (r: u16)
        ensures
            r == self.code(),
    {
        match self {
            SystemError::Exception => 1,
            SystemError::InvalidParameter => 2,
            SystemError::Overflow => 3,
            SystemError::Security => 4,
            SystemError::InvalidCrc => 5,
            SystemError::InvalidChecksum => 6,
            SystemError::InvalidCounter => 7,
            SystemError::NotSupported => 8,
            SystemError::InvalidState => 9,
            SystemError::Timeout => 10,
            SystemError::Pic => 11,
            SystemError::AppExit => 12,
            SystemError::IoOverflow => 13,
            SystemError::IoHeader => 14,
            SystemError::IoState => 15,
            SystemError::IoReset => 16,
            SystemError::CxPort => 17,
            SystemError::System => 18,
        }
    }
}

} // verus!
