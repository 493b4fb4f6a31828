use apdu_dispatch::channel::Channel;
use apdu_dispatch::channel::ChannelState;
use apdu_dispatch::status::Status;

#[test]
fn rendezvous_walks_its_four_states() {
    let mut c = Channel::new();
    assert!(matches!(c.state(), ChannelState::Idle));
    // nothing to take while idle
    assert!(c.take_request().is_none());
    assert!(c.take_response().is_none());

    assert!(c.post_request(vec![1, 2, 3]));
    assert!(matches!(c.state(), ChannelState::Requested));
    // a second request must wait for the slot
    assert!(!c.post_request(vec![9]));

    let taken = c.take_request().unwrap();
    assert_eq!(taken, vec![1, 2, 3]);
    assert!(matches!(c.state(), ChannelState::Processing));
    assert!(c.take_request().is_none());
    assert!(c.take_response().is_none());

    c.respond(vec![4, 5]);
    assert!(matches!(c.state(), ChannelState::Responded));
    assert!(!c.post_request(vec![9]));

    let answer = c.take_response().unwrap();
    assert_eq!(answer, vec![4, 5]);
    assert!(matches!(c.state(), ChannelState::Idle));
}

#[test]
fn status_words_encode_their_codes() {
    assert_eq!(Status::Success.code(), 0x9000);
    assert_eq!(Status::NotFound.code(), 0x6A82);
    assert_eq!(Status::UnspecifiedCheckingError.code(), 0x6F00);
    assert_eq!(Status::MoreAvailable(0).code(), 0x6100);
    assert_eq!(Status::MoreAvailable(0x5A).code(), 0x615A);
    assert_eq!(Status::IncorrectDataParameter.code(), 0x6A80);
    assert_eq!(Status::ClassNotSupported.code(), 0x6E00);
    assert_eq!(Status::InstructionNotSupportedOrInvalid.code(), 0x6D00);
    assert_eq!(Status::ConditionsOfUseNotSatisfied.code(), 0x6985);

    assert_eq!(Status::Success.to_bytes(), vec![0x90, 0x00]);
    assert_eq!(Status::MoreAvailable(0x5A).to_bytes(), vec![0x61, 0x5A]);
}
