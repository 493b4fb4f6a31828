use vstd::prelude::*;

verus! {

/// ISO 7816-4 status word, the two bytes (SW1, SW2) that trail every
/// response. The variants are the interindustry codes the dispatcher and
/// its applications use.
#[derive(Clone, Copy, Debug, PartialEq, Eq, Structural)]
pub enum Status {
    VerificationFailed,
    UnspecifiedNonpersistentExecutionError,
    UnspecifiedPersistentExecutionError,
    WrongLength,
    LogicalChannelNotSupported,
    SecureMessagingNotSupported,
    CommandChainingNotSupported,
    SecurityStatusNotSatisfied,
    ConditionsOfUseNotSatisfied,
    OperationBlocked,
    IncorrectDataParameter,
    FunctionNotSupported,
    NotFound,
    NotEnoughMemory,
    IncorrectP1OrP2Parameter,
    KeyReferenceNotFound,
    InstructionNotSupportedOrInvalid,
    ClassNotSupported,
    UnspecifiedCheckingError,
    Success,
    /// `0x6100 | n`: more response data is pending; `n == 0` stands for
    /// "more than 255 bytes remain".
    MoreAvailable(u8),
}

/// The 16-bit SW1/SW2 code of a status word.
pub open spec fn spec_code(s: Status) -> int {
    match s {
        Status::VerificationFailed => 0x6300,
        Status::UnspecifiedNonpersistentExecutionError => 0x6400,
        Status::UnspecifiedPersistentExecutionError => 0x6500,
        Status::WrongLength => 0x6700,
        Status::LogicalChannelNotSupported => 0x6881,
        Status::SecureMessagingNotSupported => 0x6882,
        Status::CommandChainingNotSupported => 0x6884,
        Status::SecurityStatusNotSatisfied => 0x6982,
        Status::ConditionsOfUseNotSatisfied => 0x6985,
        Status::OperationBlocked => 0x6983,
        Status::IncorrectDataParameter => 0x6a80,
        Status::FunctionNotSupported => 0x6a81,
        Status::NotFound => 0x6a82,
        Status::NotEnoughMemory => 0x6a84,
        Status::IncorrectP1OrP2Parameter => 0x6a86,
        Status::KeyReferenceNotFound => 0x6a88,
        Status::InstructionNotSupportedOrInvalid => 0x6d00,
        Status::ClassNotSupported => 0x6e00,
        Status::UnspecifiedCheckingError => 0x6f00,
        Status::Success => 0x9000,
        Status::MoreAvailable(n) => 0x6100 + n,
    }
}

/// The two-byte big-endian encoding of a 16-bit status code.
pub open spec fn spec_code_bytes(code: int) -> Seq<u8> {
    seq![(code / 0x100) as u8, (code % 0x100) as u8]
}

impl Status {
    pub fn code(&self) -> (r: u16)
        ensures
            r == spec_code(*self),
    {
        match self {
            Status::VerificationFailed => 0x6300,
            Status::UnspecifiedNonpersistentExecutionError => 0x6400,
            Status::UnspecifiedPersistentExecutionError => 0x6500,
            Status::WrongLength => 0x6700,
            Status::LogicalChannelNotSupported => 0x6881,
            Status::SecureMessagingNotSupported => 0x6882,
            Status::CommandChainingNotSupported => 0x6884,
            Status::SecurityStatusNotSatisfied => 0x6982,
            Status::ConditionsOfUseNotSatisfied => 0x6985,
            Status::OperationBlocked => 0x6983,
            Status::IncorrectDataParameter => 0x6a80,
            Status::FunctionNotSupported => 0x6a81,
            Status::NotFound => 0x6a82,
            Status::NotEnoughMemory => 0x6a84,
            Status::IncorrectP1OrP2Parameter => 0x6a86,
            Status::KeyReferenceNotFound => 0x6a88,
            Status::InstructionNotSupportedOrInvalid => 0x6d00,
            Status::ClassNotSupported => 0x6e00,
            Status::UnspecifiedCheckingError => 0x6f00,
            Status::Success => 0x9000,
            Status::MoreAvailable(n) => 0x6100 + (*n as u16),
        }
    }

    /// The status-word-only outbound message: exactly SW1 then SW2.
    pub fn to_bytes(&self) -> (r: Vec<u8>)
        ensures
            r@ == spec_code_bytes(spec_code(*self)),
    {
        let code = self.code();
        let mut out: Vec<u8> = Vec::new();
        out.push((code / 0x100) as u8);
        out.push((code % 0x100) as u8);
        proof {
            assert(out@ =~= spec_code_bytes(spec_code(*self)));
        }
        out
    }
}

/// Appends the big-endian encoding of `code` to `message`, as the
/// dispatcher does when trailing a data chunk with its status word.
pub fn push_code_bytes(message: &mut Vec<u8>, code: u16)
    ensures
        final(message)@ == old(message)@ + spec_code_bytes(code as int),
{
    message.push((code / 0x100) as u8);
    message.push((code % 0x100) as u8);
    proof {
        assert(message@ =~= old(message)@ + spec_code_bytes(code as int));
    }
}

} // verus!
