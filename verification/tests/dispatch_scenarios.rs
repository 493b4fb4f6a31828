use apdu_dispatch::channel::Channel;
use apdu_dispatch::channel::ChannelState;
use apdu_dispatch::command::Command;
use apdu_dispatch::dispatch::Aid;
use apdu_dispatch::dispatch::ApduDispatch;
use apdu_dispatch::dispatch::App;
use apdu_dispatch::dispatch::Interface;
use apdu_dispatch::status::Status;

/// A scriptable application that records every interaction.
struct TestApp {
    aid: Vec<u8>,
    select_result: Result<(), Status>,
    select_response: Vec<u8>,
    call_result: Result<(), Status>,
    call_response: Vec<u8>,
    selects: usize,
    deselects: usize,
    calls: usize,
    last_call_data: Vec<u8>,
    last_interface: Option<Interface>,
}

impl TestApp {
    fn new(aid: &[u8]) -> TestApp {
        TestApp {
            aid: aid.to_vec(),
            select_result: Ok(()),
            select_response: Vec::new(),
            call_result: Ok(()),
            call_response: Vec::new(),
            selects: 0,
            deselects: 0,
            calls: 0,
            last_call_data: Vec::new(),
            last_interface: None,
        }
    }
}

impl App for TestApp {
    fn aid(&self) -> Aid {
        Aid { bytes: self.aid.clone() }
    }

    fn select(&mut self, _apdu: &Command, reply: &mut Vec<u8>) -> Result<(), Status> {
        self.selects += 1;
        if self.select_result.is_ok() {
            for b in self.select_response.iter() {
                reply.push(*b);
            }
        }
        self.select_result
    }

    fn deselect(&mut self) {
        self.deselects += 1;
    }

    fn call(&mut self, interface: Interface, apdu: &Command, reply: &mut Vec<u8>) -> Result<
        (),
        Status,
    > {
        self.calls += 1;
        self.last_interface = Some(interface);
        self.last_call_data = apdu.data.clone();
        if self.call_result.is_ok() {
            for b in self.call_response.iter() {
                reply.push(*b);
            }
        }
        self.call_result
    }
}

fn dispatcher() -> ApduDispatch {
    ApduDispatch::new(Channel::new(), Channel::new())
}

fn post(d: &mut ApduDispatch, iface: Interface, msg: &[u8]) {
    let ok = match iface {
        Interface::Contact => d.contact.post_request(msg.to_vec()),
        Interface::Contactless => d.contactless.post_request(msg.to_vec()),
    };
    assert!(ok, "channel was not idle");
}

fn take(d: &mut ApduDispatch, iface: Interface) -> Vec<u8> {
    let r = match iface {
        Interface::Contact => d.contact.take_response(),
        Interface::Contactless => d.contactless.take_response(),
    };
    r.expect("no response posted")
}

/// One full exchange on the contact channel.
fn exchange(d: &mut ApduDispatch, apps: &mut Vec<TestApp>, msg: &[u8]) -> Vec<u8> {
    post(d, Interface::Contact, msg);
    let served = d.poll(apps);
    assert_eq!(served, Some(Interface::Contact));
    take(d, Interface::Contact)
}

const SELECT_U2F: [u8; 13] = [
    0x00, 0xA4, 0x04, 0x00, 0x08, 0xA0, 0x00, 0x00, 0x06, 0x47, 0x2F, 0x00, 0x01,
];
const U2F_V2: [u8; 6] = [0x55, 0x32, 0x46, 0x5F, 0x56, 0x32];

#[test]
fn select_then_version_u2f() {
    let mut d = dispatcher();
    let mut app = TestApp::new(&[0xA0, 0x00, 0x00, 0x06, 0x47]);
    app.select_response = U2F_V2.to_vec();
    app.call_response = U2F_V2.to_vec();
    let mut apps = vec![app];

    let reply = exchange(&mut d, &mut apps, &SELECT_U2F);
    assert_eq!(reply, vec![0x55, 0x32, 0x46, 0x5F, 0x56, 0x32, 0x90, 0x00]);
    assert_eq!(apps[0].selects, 1);
    assert_eq!(apps[0].deselects, 0);
    // the accepted select makes the requested AID the selection
    assert_eq!(
        d.current_aid.as_ref().unwrap().bytes,
        vec![0xA0, 0x00, 0x00, 0x06, 0x47, 0x2F, 0x00, 0x01]
    );

    let reply = exchange(&mut d, &mut apps, &[0x00, 0x03, 0x00, 0x00, 0x00]);
    assert_eq!(reply, vec![0x55, 0x32, 0x46, 0x5F, 0x56, 0x32, 0x90, 0x00]);
    assert_eq!(apps[0].calls, 1);
    assert_eq!(apps[0].deselects, 0);
}

#[test]
fn unknown_aid_is_not_found() {
    let mut d = dispatcher();
    let mut apps = vec![TestApp::new(&[0xA0, 0x00, 0x00, 0x06, 0x47])];

    // from cold start: no selection before, none after
    assert!(d.current_aid.is_none());
    let reply = exchange(
        &mut d,
        &mut apps,
        &[0x00, 0xA4, 0x04, 0x00, 0x05, 0xFF, 0xFF, 0xFF, 0xFF, 0xFF],
    );
    assert_eq!(reply, vec![0x6A, 0x82]);
    assert!(d.current_aid.is_none());
    assert_eq!(apps[0].selects, 0);
    assert_eq!(apps[0].deselects, 0);
}

#[test]
fn empty_registry_answers_not_found() {
    let mut d = dispatcher();
    let mut apps: Vec<TestApp> = Vec::new();

    // a SELECT with no applications registered cannot be accepted
    let reply = exchange(&mut d, &mut apps, &SELECT_U2F);
    assert_eq!(reply, vec![0x6A, 0x82]);
    assert!(d.current_aid.is_none());

    // an ordinary command finds nothing either
    let reply = exchange(&mut d, &mut apps, &[0x00, 0x20, 0x00, 0x00, 0x00]);
    assert_eq!(reply, vec![0x6A, 0x82]);
}

#[test]
fn commit_selection_follows_the_outcome() {
    let mut d = dispatcher();
    assert!(d.current_aid.is_none());

    // a refused select leaves the selection as it was
    d.commit_selection(false, Aid { bytes: vec![0xA0, 0x00, 0x00, 0x06, 0x47] });
    assert!(d.current_aid.is_none());

    // an accepted select makes the requested AID the selection
    d.commit_selection(true, Aid { bytes: vec![0xA0, 0x00, 0x00, 0x06, 0x47] });
    assert_eq!(
        d.current_aid.as_ref().unwrap().bytes,
        vec![0xA0, 0x00, 0x00, 0x06, 0x47]
    );

    // a refusal after a selection keeps the previous selection
    d.commit_selection(false, Aid { bytes: vec![0xA0, 0x00, 0x00, 0x03, 0x08] });
    assert_eq!(
        d.current_aid.as_ref().unwrap().bytes,
        vec![0xA0, 0x00, 0x00, 0x06, 0x47]
    );
}

#[test]
fn command_with_no_selection() {
    let mut d = dispatcher();
    let mut apps = vec![TestApp::new(&[0xA0, 0x00, 0x00, 0x06, 0x47])];
    let reply = exchange(&mut d, &mut apps, &[0x00, 0x20, 0x00, 0x00, 0x00]);
    assert_eq!(reply, vec![0x6A, 0x82]);
    assert_eq!(apps[0].calls, 0);
}

#[test]
fn request_chaining_assembles_one_call() {
    let mut d = dispatcher();
    let mut app = TestApp::new(&[0xA0, 0x00, 0x00, 0x06, 0x47]);
    app.select_response = U2F_V2.to_vec();
    let mut apps = vec![app];
    exchange(&mut d, &mut apps, &SELECT_U2F);

    // chaining bit set: acknowledged, nothing reaches the application
    let reply = exchange(
        &mut d,
        &mut apps,
        &[0x10, 0x01, 0x00, 0x00, 0x04, 0xAA, 0xBB, 0xCC, 0xDD],
    );
    assert_eq!(reply, vec![0x90, 0x00]);
    assert_eq!(apps[0].calls, 0);

    // last block: the application sees one call with the whole data
    let reply = exchange(
        &mut d,
        &mut apps,
        &[0x00, 0x01, 0x00, 0x00, 0x04, 0xEE, 0xFF, 0x00, 0x11],
    );
    assert_eq!(apps[0].calls, 1);
    assert_eq!(
        apps[0].last_call_data,
        vec![0xAA, 0xBB, 0xCC, 0xDD, 0xEE, 0xFF, 0x00, 0x11]
    );
    // an empty reply to a chained request drains to a bare success word
    assert_eq!(reply, vec![0x90, 0x00]);
}

#[test]
fn chained_request_forces_chained_response() {
    let mut d = dispatcher();
    let mut app = TestApp::new(&[0xA0, 0x00, 0x00, 0x06, 0x47]);
    app.select_response = U2F_V2.to_vec();
    let body: Vec<u8> = (0..300u32).map(|i| i as u8).collect();
    app.call_response = body.clone();
    let mut apps = vec![app];
    exchange(&mut d, &mut apps, &SELECT_U2F);

    // the request arrives in two blocks, so even a response that would
    // fit one frame is drained in chained style
    let reply = exchange(
        &mut d,
        &mut apps,
        &[0x10, 0x01, 0x00, 0x00, 0x02, 0xAA, 0xBB],
    );
    assert_eq!(reply, vec![0x90, 0x00]);
    let reply = exchange(
        &mut d,
        &mut apps,
        &[0x00, 0x01, 0x00, 0x00, 0x02, 0xCC, 0xDD],
    );
    assert_eq!(apps[0].last_call_data, vec![0xAA, 0xBB, 0xCC, 0xDD]);
    assert_eq!(reply.len(), 258);
    assert_eq!(&reply[..256], &body[..256]);
    // 44 bytes remain
    assert_eq!(&reply[256..], &[0x61, 0x2C]);

    let reply = exchange(&mut d, &mut apps, &[0x00, 0xC0, 0x00, 0x00, 0x00]);
    assert_eq!(reply.len(), 46);
    assert_eq!(&reply[..44], &body[256..]);
    assert_eq!(&reply[44..], &[0x90, 0x00]);
}

#[test]
fn response_chaining_via_get_response() {
    let mut d = ApduDispatch::with_transport_max(Channel::new(), Channel::new(), 256);
    let mut app = TestApp::new(&[0xA0, 0x00, 0x00, 0x06, 0x47]);
    app.select_response = U2F_V2.to_vec();
    let body: Vec<u8> = (0..600u32).map(|i| (i % 251) as u8).collect();
    app.call_response = body.clone();
    let mut apps = vec![app];
    exchange(&mut d, &mut apps, &SELECT_U2F);

    // the command whose response is 600 bytes: the first frame carries
    // 254 data bytes and says more than 255 remain
    let reply = exchange(&mut d, &mut apps, &[0x00, 0x01, 0x00, 0x00, 0x00]);
    assert_eq!(reply.len(), 256);
    assert_eq!(&reply[..254], &body[..254]);
    assert_eq!(&reply[254..], &[0x61, 0x00]);

    // GET RESPONSE: 256 more data bytes, 90 remaining
    let reply = exchange(&mut d, &mut apps, &[0x00, 0xC0, 0x00, 0x00, 0x00]);
    assert_eq!(reply.len(), 258);
    assert_eq!(&reply[..256], &body[254..510]);
    assert_eq!(&reply[256..], &[0x61, 0x5A]);

    // final GET RESPONSE: the last 90 bytes and success
    let reply = exchange(&mut d, &mut apps, &[0x00, 0xC0, 0x00, 0x00, 0x00]);
    assert_eq!(reply.len(), 92);
    assert_eq!(&reply[..90], &body[510..]);
    assert_eq!(&reply[90..], &[0x90, 0x00]);

    assert_eq!(apps[0].calls, 1);
}

#[test]
fn interface_isolation() {
    let mut d = dispatcher();
    let mut app = TestApp::new(&[0xA0, 0x00, 0x00, 0x06, 0x47]);
    app.select_response = U2F_V2.to_vec();
    let mut apps = vec![app];

    // both channels post a request at once
    post(&mut d, Interface::Contactless, &SELECT_U2F);
    post(&mut d, Interface::Contact, &[0x00, 0x20, 0x00, 0x00, 0x00]);

    // contactless wins; contact is left pending
    let served = d.poll(&mut apps);
    assert_eq!(served, Some(Interface::Contactless));
    assert!(matches!(d.contact.phase, ChannelState::Requested));
    assert!(matches!(d.contactless.phase, ChannelState::Responded));

    // while the contactless answer is unreclaimed, nothing moves
    let served = d.poll(&mut apps);
    assert_eq!(served, Some(Interface::Contactless));
    assert!(matches!(d.contact.phase, ChannelState::Requested));

    let reply = take(&mut d, Interface::Contactless);
    assert_eq!(reply, vec![0x55, 0x32, 0x46, 0x5F, 0x56, 0x32, 0x90, 0x00]);

    // only now is the contact request served
    let served = d.poll(&mut apps);
    assert_eq!(served, Some(Interface::Contact));
    let reply = take(&mut d, Interface::Contact);
    assert_eq!(apps[0].last_interface, Some(Interface::Contact));
    assert_eq!(apps[0].calls, 1);
    assert!(!reply.is_empty());
}

#[test]
fn select_switch_deselects_previous() {
    let mut d = dispatcher();
    let mut first = TestApp::new(&[0xA0, 0x00, 0x00, 0x06, 0x47]);
    first.select_response = U2F_V2.to_vec();
    let mut second = TestApp::new(&[0xA0, 0x00, 0x00, 0x03, 0x08]);
    second.select_response = vec![0x01];
    let mut apps = vec![first, second];

    exchange(&mut d, &mut apps, &SELECT_U2F);
    assert_eq!(apps[0].selects, 1);
    assert_eq!(apps[0].deselects, 0);

    // selecting the other application deselects the first exactly once
    let reply = exchange(
        &mut d,
        &mut apps,
        &[0x00, 0xA4, 0x04, 0x00, 0x05, 0xA0, 0x00, 0x00, 0x03, 0x08],
    );
    assert_eq!(reply, vec![0x01, 0x90, 0x00]);
    assert_eq!(apps[0].deselects, 1);
    assert_eq!(apps[1].selects, 1);
    assert_eq!(apps[1].deselects, 0);

    // re-selecting the same AID is an ordinary select, with no deselect
    let reply = exchange(
        &mut d,
        &mut apps,
        &[0x00, 0xA4, 0x04, 0x00, 0x05, 0xA0, 0x00, 0x00, 0x03, 0x08],
    );
    assert_eq!(reply, vec![0x01, 0x90, 0x00]);
    assert_eq!(apps[1].selects, 2);
    assert_eq!(apps[1].deselects, 0);
    assert_eq!(apps[0].deselects, 1);
}

#[test]
fn first_matching_application_wins() {
    let mut d = dispatcher();
    let mut first = TestApp::new(&[0xA0, 0x00, 0x00, 0x06, 0x47]);
    first.select_response = vec![0xAA];
    let mut second = TestApp::new(&[0xA0, 0x00, 0x00, 0x06, 0x47, 0x2F, 0x00, 0x01]);
    second.select_response = vec![0xBB];
    let mut apps = vec![first, second];

    // both claim a prefix of the queried AID; list order decides
    let reply = exchange(&mut d, &mut apps, &SELECT_U2F);
    assert_eq!(reply, vec![0xAA, 0x90, 0x00]);
    assert_eq!(apps[0].selects, 1);
    assert_eq!(apps[1].selects, 0);
}

#[test]
fn parse_error_answers_6f00() {
    let mut d = dispatcher();
    let mut apps = vec![TestApp::new(&[0xA0, 0x00, 0x00, 0x06, 0x47])];
    // too short to carry a header
    let reply = exchange(&mut d, &mut apps, &[0x00, 0xA4]);
    assert_eq!(reply, vec![0x6F, 0x00]);
    // reserved invalid class byte
    let reply = exchange(&mut d, &mut apps, &[0xFF, 0x20, 0x00, 0x00]);
    assert_eq!(reply, vec![0x6F, 0x00]);
}

#[test]
fn spurious_get_response_answers_6f00() {
    let mut d = dispatcher();
    let mut app = TestApp::new(&[0xA0, 0x00, 0x00, 0x06, 0x47]);
    app.select_response = U2F_V2.to_vec();
    let mut apps = vec![app];
    exchange(&mut d, &mut apps, &SELECT_U2F);

    // nothing is being drained: GET RESPONSE is protocol misuse
    let reply = exchange(&mut d, &mut apps, &[0x00, 0xC0, 0x00, 0x00, 0x00]);
    assert_eq!(reply, vec![0x6F, 0x00]);
    // the selection survives
    let reply = exchange(&mut d, &mut apps, &[0x00, 0x03, 0x00, 0x00, 0x00]);
    assert_eq!(reply, vec![0x90, 0x00]);
    assert_eq!(apps[0].calls, 1);
}

#[test]
fn application_error_is_echoed_and_clears_buffer() {
    let mut d = dispatcher();
    let mut app = TestApp::new(&[0xA0, 0x00, 0x00, 0x06, 0x47]);
    app.select_response = U2F_V2.to_vec();
    app.call_result = Err(Status::ConditionsOfUseNotSatisfied);
    let mut apps = vec![app];
    exchange(&mut d, &mut apps, &SELECT_U2F);

    let reply = exchange(&mut d, &mut apps, &[0x00, 0x20, 0x00, 0x00, 0x00]);
    assert_eq!(reply, vec![0x69, 0x85]);
    // the error did not deselect the application
    assert!(d.current_aid.is_some());
}

#[test]
fn failed_select_keeps_previous_selection_cleared() {
    let mut d = dispatcher();
    let mut app = TestApp::new(&[0xA0, 0x00, 0x00, 0x06, 0x47]);
    app.select_result = Err(Status::NotFound);
    let mut apps = vec![app];

    let reply = exchange(&mut d, &mut apps, &SELECT_U2F);
    assert_eq!(reply, vec![0x6A, 0x82]);
    assert_eq!(apps[0].selects, 1);
    assert!(d.current_aid.is_none());
}

#[test]
fn stale_response_is_discarded_for_new_request() {
    let mut d = ApduDispatch::with_transport_max(Channel::new(), Channel::new(), 256);
    let mut app = TestApp::new(&[0xA0, 0x00, 0x00, 0x06, 0x47]);
    app.select_response = U2F_V2.to_vec();
    app.call_response = (0..400u32).map(|i| i as u8).collect();
    let mut apps = vec![app];
    exchange(&mut d, &mut apps, &SELECT_U2F);

    // start a chained drain, then abandon it with a fresh command
    let reply = exchange(&mut d, &mut apps, &[0x00, 0x01, 0x00, 0x00, 0x00]);
    assert_eq!(&reply[254..], &[0x61, 0x92]);

    apps[0].call_response = vec![0x07];
    let reply = exchange(&mut d, &mut apps, &[0x00, 0x02, 0x07, 0x00, 0x00]);
    // the fresh command is served and the stale drain is gone
    assert_eq!(reply, vec![0x07, 0x90, 0x00]);
    assert_eq!(apps[0].calls, 2);
}
