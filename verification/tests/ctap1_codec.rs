use apdu_dispatch::command::Command as ApduCommand;
use apdu_dispatch::cose::EcdhEsHkdf256PublicKey;
use apdu_dispatch::ctap1::AuthenticateResponse;
use apdu_dispatch::ctap1::Command;
use apdu_dispatch::ctap1::ControlByte;
use apdu_dispatch::ctap1::Error;
use apdu_dispatch::ctap1::RegisterResponse;
use apdu_dispatch::ctap1::Response;

fn apdu(class: u8, instruction: u8, p1: u8, data: &[u8]) -> ApduCommand {
    ApduCommand {
        class,
        instruction,
        p1,
        p2: 0,
        data: data.to_vec(),
        le: 0,
        extended: false,
    }
}

#[test]
fn control_byte_decodes_the_three_values() {
    assert_eq!(ControlByte::try_from(0x07), Ok(ControlByte::CheckOnly));
    assert_eq!(
        ControlByte::try_from(0x03),
        Ok(ControlByte::EnforceUserPresenceAndSign)
    );
    assert_eq!(
        ControlByte::try_from(0x08),
        Ok(ControlByte::DontEnforceUserPresenceAndSign)
    );
    assert_eq!(
        ControlByte::try_from(0x00),
        Err(Error::IncorrectDataParameter)
    );
}

#[test]
fn version_command_parses() {
    assert!(matches!(
        Command::try_from(&apdu(0, 0x03, 0, &[])),
        Ok(Command::Version)
    ));
    // data is allowed on the historical version form
    assert!(matches!(
        Command::try_from(&apdu(0, 0x03, 0, &[0, 0, 0, 0])),
        Ok(Command::Version)
    ));
}

#[test]
fn nonzero_class_is_rejected() {
    assert!(matches!(
        Command::try_from(&apdu(0x80, 0x03, 0, &[])),
        Err(Error::ClassNotSupported)
    ));
}

#[test]
fn reserved_instruction_is_rejected() {
    // 0xA4 names SELECT at the ISO layer, so CTAP1 reads it as zero
    assert!(matches!(
        Command::try_from(&apdu(0, 0xA4, 0, &[])),
        Err(Error::InstructionNotSupportedOrInvalid)
    ));
    assert!(matches!(
        Command::try_from(&apdu(0, 0x42, 0, &[])),
        Err(Error::InstructionNotSupportedOrInvalid)
    ));
}

#[test]
fn register_command_splits_challenge_and_app_id() {
    let mut data = Vec::new();
    data.extend(std::iter::repeat(0x11u8).take(32));
    data.extend(std::iter::repeat(0x22u8).take(32));
    match Command::try_from(&apdu(0, 0x01, 0, &data)) {
        Ok(Command::Register(reg)) => {
            assert_eq!(reg.challenge, vec![0x11; 32]);
            assert_eq!(reg.app_id, vec![0x22; 32]);
        }
        other => panic!("expected a register command, got {:?}", other),
    }
    // any other data length is rejected
    assert!(matches!(
        Command::try_from(&apdu(0, 0x01, 0, &data[..63])),
        Err(Error::IncorrectDataParameter)
    ));
}

#[test]
fn authenticate_command_reads_key_handle() {
    let mut data = Vec::new();
    data.extend(std::iter::repeat(0x11u8).take(32));
    data.extend(std::iter::repeat(0x22u8).take(32));
    data.push(3);
    data.extend([0xA1, 0xA2, 0xA3]);
    match Command::try_from(&apdu(0, 0x02, 0x03, &data)) {
        Ok(Command::Authenticate(auth)) => {
            assert_eq!(auth.control_byte, ControlByte::EnforceUserPresenceAndSign);
            assert_eq!(auth.challenge, vec![0x11; 32]);
            assert_eq!(auth.app_id, vec![0x22; 32]);
            assert_eq!(auth.key_handle, vec![0xA1, 0xA2, 0xA3]);
        }
        other => panic!("expected an authenticate command, got {:?}", other),
    }
    // a wrong key-handle length is rejected
    data.push(0xA4);
    assert!(matches!(
        Command::try_from(&apdu(0, 0x02, 0x03, &data)),
        Err(Error::IncorrectDataParameter)
    ));
    // a bad control byte is rejected before the length checks
    assert!(matches!(
        Command::try_from(&apdu(0, 0x02, 0x01, &[])),
        Err(Error::IncorrectDataParameter)
    ));
    // too short to carry the key-handle length byte
    assert!(matches!(
        Command::try_from(&apdu(0, 0x02, 0x03, &[0u8; 64])),
        Err(Error::IncorrectDataParameter)
    ));
}

#[test]
fn register_response_collects_the_key() {
    let key = EcdhEsHkdf256PublicKey {
        x: vec![0x0A; 32],
        y: vec![0x0B; 32],
    };
    let r = RegisterResponse::new(0x05, &key, &[0xC1, 0xC2], vec![0xD1; 70], &[0xE1; 100]);
    assert_eq!(r.header_byte, 0x05);
    assert_eq!(r.public_key.len(), 65);
    assert_eq!(r.public_key[0], 0x04);
    assert_eq!(&r.public_key[1..33], &[0x0A; 32]);
    assert_eq!(&r.public_key[33..], &[0x0B; 32]);
    assert_eq!(r.key_handle, vec![0xC1, 0xC2]);
    assert_eq!(r.attestation_certificate, vec![0xE1; 100]);
    assert_eq!(r.signature, vec![0xD1; 70]);
}

#[test]
fn serialize_register_response() {
    let key = EcdhEsHkdf256PublicKey {
        x: vec![0x0A; 32],
        y: vec![0x0B; 32],
    };
    let r = RegisterResponse::new(0x05, &key, &[0xC1, 0xC2], vec![0xD1, 0xD2], &[0xE1, 0xE2]);
    let mut buf = Vec::new();
    assert!(Response::Register(r).serialize(&mut buf).is_ok());
    let mut expected = vec![0x05, 0x04];
    expected.extend(std::iter::repeat(0x0A).take(32));
    expected.extend(std::iter::repeat(0x0B).take(32));
    expected.extend([0x02, 0xC1, 0xC2, 0xE1, 0xE2, 0xD1, 0xD2]);
    assert_eq!(buf, expected);
}

#[test]
fn serialize_authenticate_response() {
    let a = AuthenticateResponse::new(0x01, 0x01020304, vec![0x51, 0x52]);
    let mut buf = Vec::new();
    assert!(Response::Authenticate(a).serialize(&mut buf).is_ok());
    assert_eq!(buf, vec![0x01, 0x01, 0x02, 0x03, 0x04, 0x51, 0x52]);
}

#[test]
fn serialize_version_response() {
    let mut buf = Vec::new();
    assert!(Response::Version([0x55, 0x32, 0x46, 0x5F, 0x56, 0x32])
        .serialize(&mut buf)
        .is_ok());
    assert_eq!(buf, vec![0x55, 0x32, 0x46, 0x5F, 0x56, 0x32]);
}
