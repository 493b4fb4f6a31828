use vstd::prelude::*;

use crate::command::Command as ApduCommand;
use crate::command::append_bytes;
use crate::cose::EcdhEsHkdf256PublicKey;

pub use crate::status::Status as Error;

verus! {

/// The status word a successful CTAP1 exchange trails its data with.
pub const NO_ERROR: u16 = 0x9000;

/// The U2F authenticate control byte, P1 of an authenticate APDU.
#[derive(Copy, Clone, Debug, Eq, PartialEq, Structural)]
pub enum ControlByte {
    /// `0x07`: only check whether the credential is present.
    CheckOnly,
    /// `0x03`: require user presence and sign.
    EnforceUserPresenceAndSign,
    /// `0x08`: sign without requiring user presence.
    DontEnforceUserPresenceAndSign,
}

/// The control byte a P1 value decodes to, if any.
pub open spec fn spec_control_byte(byte: u8) -> Option<ControlByte> {
    if byte == 0x07 {
        Some(ControlByte::CheckOnly)
    } else if byte == 0x03 {
        Some(ControlByte::EnforceUserPresenceAndSign)
    } else if byte == 0x08 {
        Some(ControlByte::DontEnforceUserPresenceAndSign)
    } else {
        None
    }
}

impl ControlByte {
    pub fn try_from(byte: u8) -> (r: Result<ControlByte, Error>)
        ensures
            match spec_control_byte(byte) {
                Some(b) => r == Ok::<ControlByte, Error>(b),
                None => r == Err::<ControlByte, Error>(Error::IncorrectDataParameter),
            },
    {
        match byte {
            0x07 => Ok(ControlByte::CheckOnly),
            0x03 => Ok(ControlByte::EnforceUserPresenceAndSign),
            0x08 => Ok(ControlByte::DontEnforceUserPresenceAndSign),
            _ => Err(Error::IncorrectDataParameter),
        }
    }
}

/// A U2F REGISTER request: a 32-byte challenge and a 32-byte application
/// parameter.
#[derive(Clone, Debug)]
pub struct Register {
    pub challenge: Vec<u8>,
    pub app_id: Vec<u8>,
}

/// A U2F REGISTER reply.
#[derive(Clone, Debug)]
pub struct RegisterResponse {
    pub header_byte: u8,
    pub public_key: Vec<u8>,
    pub key_handle: Vec<u8>,
    pub attestation_certificate: Vec<u8>,
    pub signature: Vec<u8>,
}

/// A U2F AUTHENTICATE request.
#[derive(Clone, Debug)]
pub struct Authenticate {
    pub control_byte: ControlByte,
    pub challenge: Vec<u8>,
    pub app_id: Vec<u8>,
    pub key_handle: Vec<u8>,
}

/// A U2F AUTHENTICATE reply.
#[derive(Clone, Debug)]
pub struct AuthenticateResponse {
    pub user_presence: u8,
    pub count: u32,
    pub signature: Vec<u8>,
}

/// A decoded CTAP1 request.
#[derive(Clone, Debug)]
pub enum Command {
    Register(Register),
    Authenticate(Authenticate),
    Version,
}

/// A CTAP1 reply, before wire serialization.
#[derive(Clone, Debug)]
pub enum Response {
    Register(RegisterResponse),
    Authenticate(AuthenticateResponse),
    Version([u8; 6]),
}

/// Instruction bytes that decode to a named ISO 7816-4 instruction; the
/// CTAP1 layer sees any of them as instruction zero and so rejects them.
pub open spec fn spec_reserved_ins(ins: u8) -> bool {
    ins == 0x20 || ins == 0x24 || ins == 0x2c || ins == 0x47 || ins == 0x87 || ins == 0xa4 || ins
        == 0xc0 || ins == 0xcb || ins == 0xdb || ins == 0xb0 || ins == 0xd0
}

/// The instruction byte as the CTAP1 layer reads it.
pub open spec fn spec_effective_ins(ins: u8) -> u8 {
    if spec_reserved_ins(ins) {
        0
    } else {
        ins
    }
}

/// The big-endian four-byte encoding of a 32-bit counter.
pub open spec fn spec_be32(n: u32) -> Seq<u8> {
    seq![
        ((n / 0x1000000) % 0x100) as u8,
        ((n / 0x10000) % 0x100) as u8,
        ((n / 0x100) % 0x100) as u8,
        (n % 0x100) as u8,
    ]
}

/// The wire form of a REGISTER reply: header byte, the 65-byte public
/// key, the key-handle length and bytes, the attestation certificate,
/// and the signature.
pub open spec fn spec_serialize_register(r: RegisterResponse) -> Seq<u8> {
    seq![r.header_byte] + r.public_key@ + seq![r.key_handle@.len() as u8] + r.key_handle@
        + r.attestation_certificate@ + r.signature@
}

/// The wire form of an AUTHENTICATE reply: user-presence byte, big-endian
/// counter, signature.
pub open spec fn spec_serialize_authenticate(a: AuthenticateResponse) -> Seq<u8> {
    seq![a.user_presence] + spec_be32(a.count) + a.signature@
}

/// The wire form of a CTAP1 reply, without the trailing status word.
pub open spec fn spec_serialize(resp: Response) -> Seq<u8> {
    match resp {
        Response::Register(r) => spec_serialize_register(r),
        Response::Authenticate(a) => spec_serialize_authenticate(a),
        Response::Version(v) => v@,
    }
}

impl RegisterResponse {
    pub fn new(
        header_byte: u8,
        public_key: &EcdhEsHkdf256PublicKey,
        key_handle: &[u8],
        signature: Vec<u8>,
        attestation_certificate: &[u8],
    ) -> (r: Self)
        requires
            public_key.x@.len() == 32,
            public_key.y@.len() == 32,
            key_handle@.len() <= 255,
            attestation_certificate@.len() <= 1024,
            signature@.len() <= 72,
        ensures
            r.header_byte == header_byte,
            r.public_key@ == seq![0x04u8] + public_key.x@ + public_key.y@,
            r.key_handle@ == key_handle@,
            r.attestation_certificate@ == attestation_certificate@,
            r.signature@ == signature@,
    {
        let mut public_key_bytes: Vec<u8> = Vec::new();
        public_key_bytes.push(0x04);
        append_bytes(&mut public_key_bytes, &public_key.x);
        append_bytes(&mut public_key_bytes, &public_key.y);
        proof {
            assert(public_key_bytes@ =~= seq![0x04u8] + public_key.x@ + public_key.y@);
        }
        let key_handle_bytes = vstd::slice::slice_to_vec(key_handle);
        let cert_bytes = vstd::slice::slice_to_vec(attestation_certificate);
        Self {
            header_byte: header_byte,
            public_key: public_key_bytes,
            key_handle: key_handle_bytes,
            attestation_certificate: cert_bytes,
            signature: signature,
        }
    }
}

impl AuthenticateResponse {
    pub fn new(user_presence: u8, count: u32, signature: Vec<u8>) -> (r: Self)
        requires
            signature@.len() <= 72,
        ensures
            r.user_presence == user_presence,
            r.count == count,
            r.signature@ == signature@,
    {
        Self { user_presence: user_presence, count: count, signature: signature }
    }
}

impl Response {
    /// Appends the wire form of this reply to `buf`; see `spec_serialize`.
    pub fn serialize(&self, buf: &mut Vec<u8>) -> (r: Result<(), ()>)
        requires
            self matches Response::Register(reg) ==> reg.key_handle@.len() <= 255,
        ensures
            r is Ok,
            final(buf)@ == old(buf)@ + spec_serialize(*self),
    {
        match self {
            Response::Register(reg) => {
                buf.push(reg.header_byte);
                append_bytes(buf, &reg.public_key);
                buf.push(reg.key_handle.len() as u8);
                append_bytes(buf, &reg.key_handle);
                append_bytes(buf, &reg.attestation_certificate);
                append_bytes(buf, &reg.signature);
                proof {
                    assert(buf@ =~= old(buf)@ + spec_serialize(*self));
                }
                Ok(())
            },
            Response::Authenticate(auth) => {
                buf.push(auth.user_presence);
                buf.push(((auth.count / 0x1000000) % 0x100) as u8);
                buf.push(((auth.count / 0x10000) % 0x100) as u8);
                buf.push(((auth.count / 0x100) % 0x100) as u8);
                buf.push((auth.count % 0x100) as u8);
                append_bytes(buf, &auth.signature);
                proof {
                    assert(buf@ =~= old(buf)@ + spec_serialize(*self));
                }
                Ok(())
            },
            Response::Version(version) => {
                let mut i: usize = 0;
                while i < 6
                    invariant
                        i <= 6,
                        version@.len() == 6,
                        buf@ == old(buf)@ + version@.take(i as int),
                    decreases 6 - i,
                {
                    buf.push(version[i]);
                    i = i + 1;
                    proof {
                        assert(buf@ =~= old(buf)@ + version@.take(i as int));
                    }
                }
                proof {
                    assert(version@.take(6) =~= version@);
                }
                Ok(())
            },
        }
    }
}

impl Command {
    /// Decodes an APDU as a CTAP1 request: class must be zero, the
    /// instruction picks REGISTER (1), AUTHENTICATE (2) or VERSION (3),
    /// and the data field must carry exactly the lengths U2F fixes for
    /// each. Instruction bytes naming another ISO 7816-4 instruction are
    /// rejected as unsupported.
    pub fn try_from(apdu: &ApduCommand) -> (r: Result<Command, Error>)
        ensures
            apdu@.class != 0 ==> r == Err::<Command, Error>(Error::ClassNotSupported),
            apdu@.class == 0 && spec_effective_ins(apdu@.instruction) == 3 ==> (r matches Ok(c)
                && c is Version),
            apdu@.class == 0 && spec_effective_ins(apdu@.instruction) == 1 && apdu@.data.len()
                != 64 ==> r == Err::<Command, Error>(Error::IncorrectDataParameter),
            apdu@.class == 0 && spec_effective_ins(apdu@.instruction) == 1 && apdu@.data.len()
                == 64 ==> (r matches Ok(c) && c matches Command::Register(reg) && reg.challenge@
                == apdu@.data.take(32) && reg.app_id@ == apdu@.data.skip(32)),
            apdu@.class == 0 && spec_effective_ins(apdu@.instruction) == 2 && spec_control_byte(
                apdu@.p1,
            ) is None ==> r == Err::<Command, Error>(Error::IncorrectDataParameter),
            apdu@.class == 0 && spec_effective_ins(apdu@.instruction) == 2 && spec_control_byte(
                apdu@.p1,
            ) is Some && apdu@.data.len() < 65 ==> r == Err::<Command, Error>(
                Error::IncorrectDataParameter,
            ),
            apdu@.class == 0 && spec_effective_ins(apdu@.instruction) == 2 && spec_control_byte(
                apdu@.p1,
            ) is Some && apdu@.data.len() >= 65 && apdu@.data.len() != 65 + apdu@.data[64] ==> r
                == Err::<Command, Error>(Error::IncorrectDataParameter),
            apdu@.class == 0 && spec_effective_ins(apdu@.instruction) == 2 && spec_control_byte(
                apdu@.p1,
            ) is Some && apdu@.data.len() >= 65 && apdu@.data.len() == 65 + apdu@.data[64] ==> (r
                matches Ok(c) && c matches Command::Authenticate(a) && Some(a.control_byte)
                == spec_control_byte(apdu@.p1) && a.challenge@ == apdu@.data.take(32) && a.app_id@
                == apdu@.data.subrange(32, 64) && a.key_handle@ == apdu@.data.skip(65)),
            apdu@.class == 0 && !(spec_effective_ins(apdu@.instruction) == 1 || spec_effective_ins(
                apdu@.instruction,
            ) == 2 || spec_effective_ins(apdu@.instruction) == 3) ==> r == Err::<Command, Error>(
                Error::InstructionNotSupportedOrInvalid,
            ),
    {
        let cla = apdu.class;
        let raw_ins = apdu.instruction;
        let reserved = raw_ins == 0x20 || raw_ins == 0x24 || raw_ins == 0x2c || raw_ins == 0x47
            || raw_ins == 0x87 || raw_ins == 0xa4 || raw_ins == 0xc0 || raw_ins == 0xcb || raw_ins
            == 0xdb || raw_ins == 0xb0 || raw_ins == 0xd0;
        let ins: u8 = if reserved {
            0
        } else {
            raw_ins
        };
        let p1 = apdu.p1;

        if cla != 0 {
            return Err(Error::ClassNotSupported);
        }
        if ins == 0x3 {
            // for historical reasons a bare header with instruction 3 is
            // a valid version request
            return Ok(Command::Version);
        }
        let request = &apdu.data;
        match ins {
            0x1 => {
                if request.len() != 64 {
                    return Err(Error::IncorrectDataParameter);
                }
                Ok(
                    Command::Register(
                        Register {
                            challenge: crate::dispatch::copy_range(request, 0, 32),
                            app_id: crate::dispatch::copy_range(request, 32, 64),
                        },
                    ),
                )
            },
            0x2 => {
                let control_byte = match ControlByte::try_from(p1) {
                    Ok(b) => b,
                    Err(e) => {
                        return Err(e);
                    },
                };
                if request.len() < 65 {
                    return Err(Error::IncorrectDataParameter);
                }
                let key_handle_length = request[64] as usize;
                if request.len() != 65 + key_handle_length {
                    return Err(Error::IncorrectDataParameter);
                }
                Ok(
                    Command::Authenticate(
                        Authenticate {
                            control_byte,
                            challenge: crate::dispatch::copy_range(request, 0, 32),
                            app_id: crate::dispatch::copy_range(request, 32, 64),
                            key_handle: crate::dispatch::copy_range(request, 65, request.len()),
                        },
                    ),
                )
            },
            _ => Err(Error::InstructionNotSupportedOrInvalid),
        }
    }
}

} // verus!
