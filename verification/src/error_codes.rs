use vstd::prelude::*;

verus! {

/// Fault codes that the node reports on the bus.
#[derive(Clone, Copy, Debug, PartialEq, Eq, Structural)]
pub enum ErrorCode {
    /// Nothing is wrong.
    NoFault,
    /// The motor driver signalled a fault.
    MotorDriverFault,
    /// The bus controller signalled an error.
    CanError,
    /// Any other fault.
    Other,
}

impl ErrorCode {
    /// The byte that stands for this code on the wire.
    pub open spec fn byte(self) -> u8 {
        match self {
            ErrorCode::NoFault => 0,
            ErrorCode::MotorDriverFault => 1,
            ErrorCode::CanError => 2,
            ErrorCode::Other => 3,
        }
    }
}

impl From<ErrorCode> for u8 {
    fn from(code: ErrorCode) -> (byte: u8) {
        match code {
            ErrorCode::NoFault => 0,
            ErrorCode::MotorDriverFault => 1,
            ErrorCode::CanError => 2,
            ErrorCode::Other => 3,
        }
    }
}

impl vstd::std_specs::convert::FromSpecImpl<ErrorCode> for u8 {
    open spec fn obeys_from_spec() -> bool {
        true
    }

    open spec fn from_spec(code: ErrorCode) -> u8 {
        code.byte()
    }
}

} // verus!
