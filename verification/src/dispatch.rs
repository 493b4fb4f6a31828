use vstd::prelude::*;

use crate::channel::Channel;
use crate::channel::ChannelState;
use crate::command::Command;
use crate::command::CommandModel;
use crate::command::spec_blank;
use crate::command::spec_extended_with;
use crate::command::spec_not_the_last;
use crate::command::spec_parse;
use crate::status::Status;
use crate::status::spec_code;
use crate::status::spec_code_bytes;
use crate::status::push_code_bytes;

verus! {

/// One of the two physical channels a request can arrive on.
#[derive(Clone, Copy, Debug, PartialEq, Eq, Structural)]
pub enum Interface {
    Contact,
    Contactless,
}

/// An application identifier: an opaque byte string, 5 to 16 bytes under
/// ISO 7816-4, compared bytewise from offset 0.
#[derive(Clone, Debug)]
pub struct Aid {
    pub bytes: Vec<u8>,
}

/// The byte string of an optional selection.
pub open spec fn aid_bytes_of(aid: Option<Aid>) -> Option<Seq<u8>> {
    match aid {
        Some(a) => Some(a.bytes@),
        None => None,
    }
}

/// How a freshly assembled command is to be handled.
pub enum RequestType {
    /// SELECT by DF name (`INS 0xA4`, `P1 & 0x04` set): switch to the
    /// application claiming this AID.
    Select(Aid),
    /// GET RESPONSE (`INS 0xC0`): pull the next chunk of a pending reply.
    GetResponse,
    /// Anything else: forward to the selected application.
    NewCommand,
}

/// A resident application. The dispatcher guarantees that `select`
/// precedes any `call`, that `deselect` is called exactly once per switch
/// away from a selected application, and that `call` receives the fully
/// assembled, post-chaining command.
pub trait App {
    /// The AID (or RID prefix) this application claims.
    fn aid(&self) -> Aid;

    /// Called once per selection attempt that reaches this application.
    fn select(&mut self, apdu: &Command, reply: &mut Vec<u8>) -> Result<(), Status>;

    /// Called when another AID is about to be selected. Infallible.
    fn deselect(&mut self);

    /// Called for every non-SELECT, non-GET-RESPONSE command while
    /// selected; `interface` lets an application refuse a channel.
    fn call(&mut self, interface: Interface, apdu: &Command, reply: &mut Vec<u8>) -> Result<
        (),
        Status,
    >;
}

/// The dispatcher's single buffer: exactly one of empty, a request being
/// assembled, or a response being drained.
pub enum RawApduBuffer {
    Empty,
    Request(Command),
    Response(Vec<u8>),
}

pub struct ApduBuffer {
    pub raw: RawApduBuffer,
}

/// The command a buffered request grows from: the buffered one if a
/// request is in progress, the blank command otherwise.
pub open spec fn spec_request_base(raw: RawApduBuffer) -> CommandModel {
    match raw {
        RawApduBuffer::Request(b) => b@,
        _ => spec_blank(),
    }
}

impl ApduBuffer {
    /// Feeds one more command block into the buffer: appended to a
    /// request in progress, otherwise starting a fresh request (silently
    /// discarding a stale response the reader abandoned).
    pub fn request(&mut self, command: &Command)
        ensures
            (final(self).raw matches RawApduBuffer::Request(c) && c@ == spec_extended_with(
                spec_request_base(old(self).raw),
                command@,
            )),
    {
        match &mut self.raw {
            RawApduBuffer::Request(buffered) => {
                buffered.extend_from_command(command);
            },
            _ => {
                let mut fresh = Command::blank();
                fresh.extend_from_command(command);
                self.raw = RawApduBuffer::Request(fresh);
            },
        }
    }

    /// Stages an application's reply for draining, replacing whatever the
    /// buffer held.
    pub fn response(&mut self, response: &Vec<u8>)
        ensures
            (final(self).raw matches RawApduBuffer::Response(r) && r@ == response@),
    {
        self.raw = RawApduBuffer::Response(copy_bytes(response));
    }
}

/// A fresh copy of a byte vector.
pub fn copy_bytes(src: &Vec<u8>) -> (r: Vec<u8>)
    ensures
        r@ == src@,
{
    vstd::slice::slice_to_vec(src.as_slice())
}

/// A fresh copy of `src[start..end]`.
pub fn copy_range(src: &Vec<u8>, start: usize, end: usize) -> (r: Vec<u8>)
    requires
        start <= end <= src@.len(),
    ensures
        r@ == src@.subrange(start as int, end as int),
{
    vstd::slice::slice_to_vec(vstd::slice::slice_subrange(src.as_slice(), start, end))
}

/// Bytewise equality of two byte strings.
pub fn bytes_eq(a: &Vec<u8>, b: &Vec<u8>) -> (r: bool)
    ensures
        r == (a@ == b@),
{
    if a.len() != b.len() {
        proof {
            assert(a@.len() != b@.len());
        }
        return false;
    }
    let mut i: usize = 0;
    while i < a.len()
        invariant
            i <= a@.len(),
            a@.len() == b@.len(),
            forall|j: int| 0 <= j < i ==> a@[j] == b@[j],
        decreases a@.len() - i,
    {
        if a[i] != b[i] {
            return false;
        }
        i = i + 1;
    }
    proof {
        assert(a@ =~= b@);
    }
    true
}

/// `prefix` is a prefix of `s`: compared bytewise from offset 0.
pub open spec fn spec_is_prefix(prefix: Seq<u8>, s: Seq<u8>) -> bool {
    prefix.len() <= s.len() && s.take(prefix.len() as int) == prefix
}

pub fn is_prefix_of(prefix: &Vec<u8>, s: &Vec<u8>) -> (r: bool)
    ensures
        r == spec_is_prefix(prefix@, s@),
{
    if prefix.len() > s.len() {
        return false;
    }
    let mut i: usize = 0;
    while i < prefix.len()
        invariant
            i <= prefix@.len() <= s@.len(),
            forall|j: int| 0 <= j < i ==> s@[j] == prefix@[j],
        decreases prefix@.len() - i,
    {
        if s[i] != prefix[i] {
            proof {
                assert(s@.take(prefix@.len() as int)[i as int] != prefix@[i as int]);
            }
            return false;
        }
        i = i + 1;
    }
    proof {
        assert(s@.take(prefix@.len() as int) =~= prefix@);
    }
    true
}

/// The front-to-back registry lookup: the index of the first AID in
/// `aids` that is a prefix of `target`; ties go to the lower index.
pub fn index_of_first_prefix(aids: &Vec<Aid>, target: &Vec<u8>) -> (r: Option<usize>)
    ensures
        match r {
            Some(i) => i < aids@.len() && spec_is_prefix(aids@[i as int].bytes@, target@) && (forall|
                j: int,
            |
                0 <= j < i ==> !spec_is_prefix(aids@[j].bytes@, target@)),
            None => forall|j: int| 0 <= j < aids@.len() ==> !spec_is_prefix(aids@[j].bytes@, target@),
        },
{
    let mut i: usize = 0;
    while i < aids.len()
        invariant
            i <= aids@.len(),
            forall|j: int| 0 <= j < i ==> !spec_is_prefix(aids@[j].bytes@, target@),
        decreases aids@.len() - i,
    {
        if is_prefix_of(&aids[i].bytes, target) {
            return Some(i);
        }
        i = i + 1;
    }
    None
}

/// The APDU dispatch engine: owns the two transport channels, the single
/// command/response buffer, and the selection state. Everything runs to
/// completion inside `poll`.
pub struct ApduDispatch {
    /// The selected application's advertised AID; none means no selection.
    pub current_aid: Option<Aid>,
    pub contact: Channel,
    pub contactless: Channel,
    /// The channel the in-flight transaction belongs to.
    pub current_interface: Interface,
    pub buffer: ApduBuffer,
    /// Set while assembling a multi-block request; forces a chained-style
    /// response drain.
    pub was_request_chained: bool,
    /// Per-message byte cap of the transports, the `N` of the drain rules.
    pub transport_max: usize,
}

/// A channel is free for a new transaction while `Idle` or `Requested`.
pub open spec fn spec_channel_free(s: ChannelState) -> bool {
    s is Idle || s is Requested
}

/// An outbound message is pending on some channel, so no new request may
/// be taken.
pub open spec fn spec_busy(d: ApduDispatch) -> bool {
    !spec_channel_free(d.contactless.phase) || !spec_channel_free(d.contact.phase)
}

/// The channel belonging to an interface.
pub open spec fn spec_channel(d: ApduDispatch, i: Interface) -> Channel {
    match i {
        Interface::Contact => d.contact,
        Interface::Contactless => d.contactless,
    }
}

/// The other interface.
pub open spec fn spec_other(i: Interface) -> Interface {
    match i {
        Interface::Contact => Interface::Contactless,
        Interface::Contactless => Interface::Contact,
    }
}

/// Which channel intake would serve: contactless first, and only while
/// neither channel has an outbound pending.
pub open spec fn spec_intake_iface(d: ApduDispatch) -> Option<Interface> {
    if spec_busy(d) {
        None
    } else if d.contactless.phase is Requested {
        Some(Interface::Contactless)
    } else if d.contact.phase is Requested {
        Some(Interface::Contact)
    } else {
        None
    }
}

/// The message intake would pick up.
pub open spec fn spec_intake_message(d: ApduDispatch) -> Seq<u8> {
    match spec_intake_iface(d) {
        Some(Interface::Contactless) => d.contactless.slot@,
        Some(Interface::Contact) => d.contact.slot@,
        None => Seq::empty(),
    }
}

/// SELECT by DF name: instruction `0xA4` with `P1 & 0x04` set.
pub open spec fn spec_is_select(c: CommandModel) -> bool {
    c.instruction == 0xa4 && c.p1 & 0x04 != 0
}

/// GET RESPONSE: instruction `0xC0`.
pub open spec fn spec_is_get_response(c: CommandModel) -> bool {
    c.instruction == 0xc0
}

/// The AID a poll on state `d` would try to select: present exactly when
/// the pending intake parses, ends a chain with nothing buffered, and
/// classifies as SELECT.
pub open spec fn spec_taken_select_aid(d: ApduDispatch) -> Option<Seq<u8>> {
    if spec_intake_iface(d) is Some {
        match spec_parse(spec_intake_message(d)) {
            Ok(c) => if !spec_not_the_last(c.class) && !(d.buffer.raw is Request) && spec_is_select(
                c,
            ) {
                Some(c.data)
            } else {
                None
            },
            Err(_) => None,
        }
    } else {
        None
    }
}

pub open spec fn spec_min(a: int, b: int) -> int {
    if a <= b {
        a
    } else {
        b
    }
}

/// How many data bytes one drain step may carry. A step answering the
/// command itself must leave room for the status word within the
/// transport frame; a GET RESPONSE step is capped by the 256 bytes a
/// short Le can ask for.
pub open spec fn spec_chunk_cap(transport_max: int, initial: bool) -> int {
    if initial {
        spec_min(256, if transport_max >= 2 {
            transport_max - 2
        } else {
            0
        })
    } else {
        spec_min(256, transport_max)
    }
}

/// The response is drained chained (61XX pull sequence) rather than in
/// one frame: forced while the request was chained, or whenever the
/// payload plus status word exceeds the transport frame.
pub open spec fn spec_use_chaining(d: ApduDispatch, res_len: int) -> bool {
    d.was_request_chained || res_len + 2 > d.transport_max
}

/// The data bytes one chained drain step emits.
pub open spec fn spec_drain_take(res: Seq<u8>, cap: int) -> Seq<u8> {
    res.take(spec_min(cap, res.len() as int))
}

/// What stays buffered after one chained drain step.
pub open spec fn spec_drain_rest(res: Seq<u8>, cap: int) -> Seq<u8> {
    res.skip(spec_min(cap, res.len() as int))
}

/// The status word of one chained drain step: `0x6100` for more than 255
/// bytes remaining, `0x6100 | n` for `n` remaining, `0x9000` when done.
pub open spec fn spec_drain_status(res: Seq<u8>, cap: int) -> int {
    let rem = res.len() - spec_min(cap, res.len() as int);
    if rem > 255 {
        0x6100
    } else if rem > 0 {
        0x6100 + rem
    } else {
        0x9000
    }
}

/// The full outbound message one drain step emits from response `res`.
pub open spec fn spec_drain_message(d: ApduDispatch, res: Seq<u8>, initial: bool) -> Seq<u8> {
    let cap = spec_chunk_cap(d.transport_max as int, initial);
    if spec_use_chaining(d, res.len() as int) {
        spec_drain_take(res, cap) + spec_code_bytes(spec_drain_status(res, cap))
    } else {
        res + spec_code_bytes(0x9000)
    }
}

/// Whether one drain step finishes the response and clears the buffer.
pub open spec fn spec_drain_clears(d: ApduDispatch, res: Seq<u8>, initial: bool) -> bool {
    let cap = spec_chunk_cap(d.transport_max as int, initial);
    !spec_use_chaining(d, res.len() as int) || spec_drain_status(res, cap) == 0x9000
}

/// What stays buffered when a drain step does not finish.
pub open spec fn spec_drain_rest_of(d: ApduDispatch, res: Seq<u8>, initial: bool) -> Seq<u8> {
    spec_drain_rest(res, spec_chunk_cap(d.transport_max as int, initial))
}

/// The concatenation of the data bytes that successive chained drain
/// steps with chunk cap `cap` emit from `res`, following each step's
/// remainder until the step whose status word is `0x9000`.
pub open spec fn spec_drained_data(res: Seq<u8>, cap: int) -> Seq<u8>
    decreases res.len(),
    when cap >= 1
{
    if spec_drain_status(res, cap) == 0x9000 {
        spec_drain_take(res, cap)
    } else {
        spec_drain_take(res, cap) + spec_drained_data(spec_drain_rest(res, cap), cap)
    }
}

/// Drain completeness: for any response, the data bytes emitted across the
/// successive GET RESPONSE exchanges, in order and with each step's status
/// word ignored, concatenate to exactly the original response; the
/// sequence stops at the step whose status word is `0x9000`, and such a
/// step is reached because every step before it moves at least one byte.
pub proof fn lemma_drain_completeness(res: Seq<u8>, cap: int)
    requires
        cap >= 1,
    ensures
        spec_drained_data(res, cap) == res,
        spec_drain_status(res, cap) == 0x9000 <==> res.len() <= cap,
    decreases res.len(),
{
    if spec_drain_status(res, cap) == 0x9000 {
        assert(spec_drain_take(res, cap) =~= res);
    } else {
        lemma_drain_completeness(spec_drain_rest(res, cap), cap);
        assert(spec_drain_take(res, cap) + spec_drain_rest(res, cap) =~= res);
    }
}

/// The buffer now holds a request grown from what it held before by one
/// more block.
pub open spec fn spec_buffer_appended(d0: ApduDispatch, d1: ApduDispatch, c: CommandModel) -> bool {
    d1.buffer.raw matches RawApduBuffer::Request(b) && b@ == spec_extended_with(
        spec_request_base(d0.buffer.raw),
        c,
    )
}

/// Outcome of taking a non-final chain block: acknowledged with `9000`,
/// buffered, chained flag untouched.
pub open spec fn spec_chain_ack_outcome(
    d0: ApduDispatch,
    d1: ApduDispatch,
    iface: Interface,
    c: CommandModel,
) -> bool {
    &&& spec_channel(d1, iface).phase is Responded
    &&& spec_channel(d1, iface).slot@ == spec_code_bytes(0x9000)
    &&& spec_buffer_appended(d0, d1, c)
    &&& d1.was_request_chained == d0.was_request_chained
}

/// Outcome of classifying a standalone block (nothing was being
/// assembled): the chained flag is cleared exactly when the buffer was
/// empty, GET RESPONSE leaves the buffer alone, and everything else
/// replaces it with a fresh request.
pub open spec fn spec_standalone_outcome(
    d0: ApduDispatch,
    d1: ApduDispatch,
    r: Option<RequestType>,
    c: CommandModel,
) -> bool {
    &&& d1.was_request_chained == (if d0.buffer.raw is Empty {
        false
    } else {
        d0.was_request_chained
    })
    &&& (spec_is_select(c) ==> (r matches Some(t) && t matches RequestType::Select(a) && a.bytes@
        == c.data))
    &&& (!spec_is_select(c) && spec_is_get_response(c) ==> (r matches Some(t) && t is GetResponse)
        && d1.buffer == d0.buffer)
    &&& (!spec_is_select(c) && !spec_is_get_response(c) ==> (r matches Some(t) && t is NewCommand))
    &&& (!(!spec_is_select(c) && spec_is_get_response(c)) ==> (d1.buffer.raw
        matches RawApduBuffer::Request(b) && b@ == spec_extended_with(spec_blank(), c)))
}

/// Outcome of an intake whose message parsed as command `c` on interface
/// `iface`, covering the chain-acknowledge, chain-final and standalone
/// cases.
pub open spec fn spec_intake_command_outcome(
    d0: ApduDispatch,
    d1: ApduDispatch,
    r: Option<RequestType>,
    iface: Interface,
    c: CommandModel,
) -> bool {
    &&& d1.current_interface == iface
    &&& (spec_not_the_last(c.class) ==> r is None && spec_chain_ack_outcome(d0, d1, iface, c))
    &&& (!spec_not_the_last(c.class) ==> spec_channel(d1, iface).phase is Processing)
    &&& (!spec_not_the_last(c.class) && d0.buffer.raw is Request ==> (r matches Some(t)
        && t is NewCommand) && spec_buffer_appended(d0, d1, c) && d1.was_request_chained)
    &&& (!spec_not_the_last(c.class) && !(d0.buffer.raw is Request) ==> spec_standalone_outcome(
        d0,
        d1,
        r,
        c,
    ))
}

/// The pending intake, were a poll to run on state `d`, would classify
/// as a GET RESPONSE pull: it parses, ends no chain, nothing is being
/// assembled, and the instruction asks for the next chunk.
pub open spec fn spec_poll_is_get_response(d: ApduDispatch) -> bool {
    spec_intake_iface(d) is Some && match spec_parse(spec_intake_message(d)) {
        Ok(c) => !spec_not_the_last(c.class) && !(d.buffer.raw is Request) && !spec_is_select(c)
            && spec_is_get_response(c),
        Err(_) => false,
    }
}

/// The pending intake would deliver an ordinary command to the selected
/// application: the last block of a chain in progress, or a standalone
/// block that is neither SELECT nor GET RESPONSE.
pub open spec fn spec_poll_is_new_command(d: ApduDispatch) -> bool {
    spec_intake_iface(d) is Some && match spec_parse(spec_intake_message(d)) {
        Ok(c) => !spec_not_the_last(c.class) && (d.buffer.raw is Request || (!spec_is_select(c)
            && !spec_is_get_response(c))),
        Err(_) => false,
    }
}

/// Outcome of an intake whose message failed to parse: `6F00` on the
/// originating channel and no other state touched.
pub open spec fn spec_intake_error_outcome(
    d0: ApduDispatch,
    d1: ApduDispatch,
    iface: Interface,
) -> bool {
    &&& spec_channel(d1, iface).phase is Responded
    &&& spec_channel(d1, iface).slot@ == spec_code_bytes(0x6f00)
    &&& d1.buffer == d0.buffer
    &&& d1.was_request_chained == d0.was_request_chained
    &&& d1.current_interface == d0.current_interface
}

impl ApduDispatch {
    pub fn new(contact: Channel, contactless: Channel) -> (d: ApduDispatch)
        ensures
            d.current_aid is None,
            d.contact == contact,
            d.contactless == contactless,
            d.current_interface is Contact,
            d.buffer.raw is Empty,
            !d.was_request_chained,
            d.transport_max == crate::TRANSPORT_MAX,
    {
        Self::with_transport_max(contact, contactless, crate::TRANSPORT_MAX)
    }

    /// A dispatcher for transports with a different per-message byte cap.
    pub fn with_transport_max(contact: Channel, contactless: Channel, transport_max: usize) -> (d:
        ApduDispatch)
        ensures
            d.current_aid is None,
            d.contact == contact,
            d.contactless == contactless,
            d.current_interface is Contact,
            d.buffer.raw is Empty,
            !d.was_request_chained,
            d.transport_max == transport_max,
    {
        ApduDispatch {
            current_aid: None,
            contact: contact,
            contactless: contactless,
            current_interface: Interface::Contact,
            was_request_chained: false,
            buffer: ApduBuffer { raw: RawApduBuffer::Empty },
            transport_max: transport_max,
        }
    }

    /// Classifies an assembled command whose chaining bit has already been
    /// consumed.
    pub fn apdu_type(apdu: &Command) -> (r: RequestType)
        ensures
            spec_is_select(apdu@) ==> (r matches RequestType::Select(a) && a.bytes@ == apdu@.data),
            !spec_is_select(apdu@) && spec_is_get_response(apdu@) ==> r is GetResponse,
            !spec_is_select(apdu@) && !spec_is_get_response(apdu@) ==> r is NewCommand,
    {
        if apdu.instruction == 0xa4 && (apdu.p1 & 0x04) != 0 {
            RequestType::Select(Aid { bytes: copy_bytes(&apdu.data) })
        } else if apdu.instruction == 0xc0 {
            RequestType::GetResponse
        } else {
            RequestType::NewCommand
        }
    }

    /// The registry lookup: the first application, front to back, whose
    /// claimed AID is a prefix of the queried one. The order-of-matching
    /// rule itself is the contract of `index_of_first_prefix`, applied to
    /// the AIDs the applications advertise at this very call.
    fn find_app<A: App>(aid: Option<&Aid>, apps: &Vec<A>) -> (r: Option<usize>)
        ensures
            r matches Some(i) ==> i < apps@.len(),
            aid is None ==> r is None,
    {
        match aid {
            None => None,
            Some(aid) => {
                let mut aids: Vec<Aid> = Vec::new();
                let mut i: usize = 0;
                while i < apps.len()
                    invariant
                        i <= apps@.len(),
                        aids@.len() == i,
                    decreases apps@.len() - i,
                {
                    aids.push(apps[i].aid());
                    i = i + 1;
                }
                index_of_first_prefix(&aids, &aid.bytes)
            },
        }
    }

    /// No new request may be taken while either channel still holds an
    /// outbound message in flight.
    pub fn busy(&self) -> (r: bool)
        ensures
            r == spec_busy(*self),
    {
        let contactless_busy = match self.contactless.phase {
            ChannelState::Idle | ChannelState::Requested => false,
            _ => true,
        };
        let contact_busy = match self.contact.phase {
            ChannelState::Idle | ChannelState::Requested => false,
            _ => true,
        };
        contactless_busy || contact_busy
    }

    /// Sends an outbound message on the channel the in-flight transaction
    /// belongs to.
    fn respond(&mut self, message: Vec<u8>)
        requires
            spec_channel(*old(self), old(self).current_interface).phase is Processing,
        ensures
            final(self).current_aid == old(self).current_aid,
            final(self).current_interface == old(self).current_interface,
            final(self).buffer == old(self).buffer,
            final(self).was_request_chained == old(self).was_request_chained,
            final(self).transport_max == old(self).transport_max,
            spec_channel(*final(self), old(self).current_interface).phase is Responded,
            spec_channel(*final(self), old(self).current_interface).slot@ == message@,
            spec_channel(*final(self), spec_other(old(self).current_interface)) == spec_channel(
                *old(self),
                spec_other(old(self).current_interface),
            ),
    {
        match self.current_interface {
            Interface::Contactless => self.contactless.respond(message),
            Interface::Contact => self.contact.respond(message),
        }
    }

    /// Answers the in-flight request with a status word alone and drops
    /// whatever the buffer held.
    fn reply_error(&mut self, status: Status)
        requires
            spec_channel(*old(self), old(self).current_interface).phase is Processing,
        ensures
            final(self).current_aid == old(self).current_aid,
            final(self).current_interface == old(self).current_interface,
            final(self).buffer.raw is Empty,
            final(self).was_request_chained == old(self).was_request_chained,
            final(self).transport_max == old(self).transport_max,
            spec_channel(*final(self), old(self).current_interface).phase is Responded,
            spec_channel(*final(self), old(self).current_interface).slot@ == spec_code_bytes(
                spec_code(status),
            ),
            spec_channel(*final(self), spec_other(old(self).current_interface)) == spec_channel(
                *old(self),
                spec_other(old(self).current_interface),
            ),
    {
        let message = status.to_bytes();
        self.respond(message);
        self.buffer.raw = RawApduBuffer::Empty;
    }

    /// One step of response drain, the ISO 7816-4 GET RESPONSE scheme: in
    /// chain mode it emits up to a frame's worth of data followed by
    /// `61XX`/`9000`, leaving the remainder buffered; in single-shot mode
    /// it emits the whole payload with `9000`. A drain with no response
    /// buffered answers `6F00` and clears the buffer. `initial` says
    /// whether this step answers the command itself rather than a
    /// GET RESPONSE pull.
    fn handle_reply(&mut self, initial: bool)
        requires
            spec_channel(*old(self), old(self).current_interface).phase is Processing,
        ensures
            final(self).current_aid == old(self).current_aid,
            final(self).current_interface == old(self).current_interface,
            final(self).was_request_chained == old(self).was_request_chained,
            final(self).transport_max == old(self).transport_max,
            spec_channel(*final(self), old(self).current_interface).phase is Responded,
            spec_channel(*final(self), spec_other(old(self).current_interface)) == spec_channel(
                *old(self),
                spec_other(old(self).current_interface),
            ),
            !(old(self).buffer.raw is Response) ==> final(self).buffer.raw is Empty
                && spec_channel(*final(self), old(self).current_interface).slot@ == spec_code_bytes(
                0x6f00,
            ),
            (old(self).buffer.raw matches RawApduBuffer::Response(res) ==> spec_channel(
                *final(self),
                old(self).current_interface,
            ).slot@ == spec_drain_message(*old(self), res@, initial) && (spec_drain_clears(
                *old(self),
                res@,
                initial,
            ) ==> final(self).buffer.raw is Empty) && (!spec_drain_clears(*old(self), res@, initial)
                ==> (final(self).buffer.raw matches RawApduBuffer::Response(rest) && rest@
                == spec_drain_rest_of(*old(self), res@, initial)))),
    {
        let ghost d_old = *old(self);
        let (new_raw, message): (RawApduBuffer, Vec<u8>) = match &self.buffer.raw {
            RawApduBuffer::Request(_) | RawApduBuffer::Empty => {
                (RawApduBuffer::Empty, Status::UnspecifiedCheckingError.to_bytes())
            },
            RawApduBuffer::Response(res) => {
                let use_chaining = self.was_request_chained || self.transport_max < 2 || res.len()
                    > self.transport_max - 2;
                proof {
                    assert(use_chaining == spec_use_chaining(d_old, res@.len() as int));
                }
                if use_chaining {
                    let cap_frame: usize = if initial {
                        if self.transport_max >= 2 {
                            self.transport_max - 2
                        } else {
                            0
                        }
                    } else {
                        self.transport_max
                    };
                    let cap: usize = if 256 <= cap_frame {
                        256
                    } else {
                        cap_frame
                    };
                    proof {
                        assert(cap == spec_chunk_cap(d_old.transport_max as int, initial));
                    }
                    let boundary: usize = if cap <= res.len() {
                        cap
                    } else {
                        res.len()
                    };
                    let remaining_len = res.len() - boundary;
                    let mut message = copy_range(res, 0, boundary);
                    let return_code: u16 = if remaining_len > 255 {
                        0x6100
                    } else if remaining_len > 0 {
                        0x6100 + (remaining_len as u16)
                    } else {
                        0x9000
                    };
                    proof {
                        assert(return_code == spec_drain_status(res@, cap as int));
                        assert(message@ =~= spec_drain_take(res@, cap as int));
                    }
                    push_code_bytes(&mut message, return_code);
                    if return_code == 0x9000 {
                        (RawApduBuffer::Empty, message)
                    } else {
                        let rest = copy_range(res, boundary, res.len());
                        proof {
                            assert(rest@ =~= spec_drain_rest(res@, cap as int));
                        }
                        (RawApduBuffer::Response(rest), message)
                    }
                } else {
                    let mut message = copy_bytes(res);
                    push_code_bytes(&mut message, 0x9000);
                    (RawApduBuffer::Empty, message)
                }
            },
        };
        self.buffer.raw = new_raw;
        self.respond(message);
    }

    /// ISO 7816-4 §5.1.1 request chaining. A block whose chaining bit says
    /// more will follow is acknowledged with `9000` at once and buffered;
    /// nothing reaches an application yet. The last block of a chain is
    /// appended and delivered as one command; a standalone block is
    /// classified on its own, a fresh one clearing the chained flag and
    /// (except for GET RESPONSE) replacing the buffer.
    fn buffer_chained_apdu_if_needed(&mut self, command: Command, interface: Interface) -> (r:
        Option<RequestType>)
        requires
            spec_channel(*old(self), interface).phase is Processing,
        ensures
            final(self).current_interface == interface,
            final(self).current_aid == old(self).current_aid,
            final(self).transport_max == old(self).transport_max,
            spec_channel(*final(self), spec_other(interface)) == spec_channel(
                *old(self),
                spec_other(interface),
            ),
            spec_not_the_last(command@.class) ==> r is None && spec_chain_ack_outcome(
                *old(self),
                *final(self),
                interface,
                command@,
            ),
            !spec_not_the_last(command@.class) && old(self).buffer.raw is Request ==> (r
                matches Some(t) && t is NewCommand) && spec_buffer_appended(
                *old(self),
                *final(self),
                command@,
            ) && final(self).was_request_chained && spec_channel(*final(self), interface)
                == spec_channel(*old(self), interface),
            !spec_not_the_last(command@.class) && !(old(self).buffer.raw is Request)
                ==> spec_channel(*final(self), interface) == spec_channel(*old(self), interface)
                && spec_standalone_outcome(*old(self), *final(self), r, command@),
    {
        self.current_interface = interface;
        if !command.not_the_last() {
            let is_chaining = match &self.buffer.raw {
                RawApduBuffer::Request(_) => true,
                _ => false,
            };
            if is_chaining {
                self.buffer.request(&command);
                // the response must now be drained in chained style too
                self.was_request_chained = true;
                Some(RequestType::NewCommand)
            } else {
                if matches!(&self.buffer.raw, RawApduBuffer::Empty) {
                    self.was_request_chained = false;
                }
                let apdu_type = Self::apdu_type(&command);
                match apdu_type {
                    // keep the buffer as it is for GET RESPONSE
                    RequestType::GetResponse => (),
                    // overwrite for everything else
                    _ => self.buffer.request(&command),
                }
                Some(apdu_type)
            }
        } else {
            // acknowledge the non-final block right away
            let ack = Status::Success.to_bytes();
            match interface {
                Interface::Contact => self.contact.respond(ack),
                Interface::Contactless => self.contactless.respond(ack),
            }
            self.buffer.request(&command);
            // nothing for an application to consume yet
            None
        }
    }

    /// Decodes a taken message, mapping every decode error onto the
    /// status-word reply `6F00`.
    fn parse_apdu(message: &Vec<u8>) -> (r: Result<Command, Status>)
        ensures
            match r {
                Ok(c) => spec_parse(message@) matches Ok(m) && m == c@,
                Err(s) => spec_parse(message@) is Err && s == Status::UnspecifiedCheckingError,
            },
    {
        match Command::try_from(message.as_slice()) {
            Ok(command) => Ok(command),
            Err(_error) => Err(Status::UnspecifiedCheckingError),
        }
    }

    /// Intake: while no transaction is in flight, take a pending
    /// request, contactless first, and run it through parsing and
    /// chaining. A message that fails to parse is answered `6F00` on its
    /// own channel with all other state untouched.
    fn check_for_request(&mut self) -> (r: Option<RequestType>)
        ensures
            final(self).current_aid == old(self).current_aid,
            final(self).transport_max == old(self).transport_max,
            spec_intake_iface(*old(self)) is None ==> *final(self) == *old(self) && r is None,
            spec_intake_iface(*old(self)) == Some(Interface::Contactless) ==> final(self).contact
                == old(self).contact,
            spec_intake_iface(*old(self)) == Some(Interface::Contact) ==> final(self).contactless
                == old(self).contactless,
            (spec_intake_iface(*old(self)) matches Some(iface) ==> match spec_parse(
                spec_intake_message(*old(self)),
            ) {
                Err(_) => r is None && spec_intake_error_outcome(*old(self), *final(self), iface),
                Ok(c) => spec_intake_command_outcome(*old(self), *final(self), r, iface, c),
            }),
            r is Some ==> spec_channel(*final(self), final(self).current_interface).phase
                is Processing,
            (r matches Some(t) && (t is NewCommand || t is Select)) ==> final(self).buffer.raw
                is Request,
            r matches Some(RequestType::Select(a)) ==> spec_taken_select_aid(*old(self)) == Some(
                a.bytes@,
            ),
    {
        if self.busy() {
            return None;
        }
        let (message, interface) = if let Some(message) = self.contactless.take_request() {
            (message, Interface::Contactless)
        } else if let Some(message) = self.contact.take_request() {
            (message, Interface::Contact)
        } else {
            return None;
        };
        match Self::parse_apdu(&message) {
            Ok(command) => self.buffer_chained_apdu_if_needed(command, interface),
            Err(status) => {
                // not a valid APDU: answer the error, touch nothing else
                let reply = status.to_bytes();
                match interface {
                    Interface::Contactless => self.contactless.respond(reply),
                    Interface::Contact => self.contact.respond(reply),
                }
                None
            },
        }
    }

    /// Stages what an application handed back: a payload enters the
    /// buffer and its first drain step is answered at once; an error is
    /// echoed as a status word and clears the buffer. The selection is
    /// never touched here.
    fn handle_app_response(&mut self, response: &Result<(), Status>, data: &Vec<u8>)
        requires
            spec_channel(*old(self), old(self).current_interface).phase is Processing,
        ensures
            final(self).current_aid == old(self).current_aid,
            final(self).current_interface == old(self).current_interface,
            final(self).was_request_chained == old(self).was_request_chained,
            final(self).transport_max == old(self).transport_max,
            spec_channel(*final(self), old(self).current_interface).phase is Responded,
            spec_channel(*final(self), spec_other(old(self).current_interface)) == spec_channel(
                *old(self),
                spec_other(old(self).current_interface),
            ),
            response is Ok ==> spec_channel(*final(self), old(self).current_interface).slot@
                == spec_drain_message(*old(self), data@, true),
            response is Ok && spec_drain_clears(*old(self), data@, true) ==> final(self).buffer.raw is Empty,
            response is Ok && !spec_drain_clears(*old(self), data@, true) ==> (final(self).buffer.raw matches RawApduBuffer::Response(rest) && rest@ == spec_drain_rest_of(
                *old(self),
                data@,
                true,
            )),
            (response matches Err(status) ==> spec_channel(
                *final(self),
                old(self).current_interface,
            ).slot@ == spec_code_bytes(spec_code(*status)) && final(self).buffer.raw is Empty),
    {
        match response {
            Ok(()) => {
                self.buffer.response(data);
                self.handle_reply(true);
            },
            Err(status) => {
                // just echo the error right away
                self.reply_error(*status);
            },
        }
    }

    /// Records the outcome of a selection attempt for `aid`: an accepted
    /// select makes `aid` the selection, a refused one leaves the
    /// selection as it was. The application decides acceptance; this
    /// pins what each outcome does to the selection.
    pub fn commit_selection(&mut self, accepted: bool, aid: Aid)
        ensures
            accepted ==> aid_bytes_of(final(self).current_aid) == Some(aid.bytes@),
            !accepted ==> final(self).current_aid == old(self).current_aid,
            final(self).contact == old(self).contact,
            final(self).contactless == old(self).contactless,
            final(self).current_interface == old(self).current_interface,
            final(self).buffer == old(self).buffer,
            final(self).was_request_chained == old(self).was_request_chained,
            final(self).transport_max == old(self).transport_max,
    {
        if accepted {
            self.current_aid = Some(aid);
        }
    }

    /// SELECT handling. A selected application with a different AID is
    /// deselected first, so it can clear sensitive state; a SELECT of the
    /// already selected AID reaches the application as an ordinary
    /// select, without a deselect. An AID no application claims is
    /// answered `6A82`. The selection moves to the requested AID exactly
    /// when the application accepts the select; `commit_selection` pins
    /// that commit for each outcome, and `handle_app_response` the reply.
    /// Should the caller's list no longer contain the selected
    /// application, the deselect call is skipped and the selection is
    /// still cleared.
    fn handle_app_select<A: App>(&mut self, apps: &mut Vec<A>, aid: Aid)
        requires
            spec_channel(*old(self), old(self).current_interface).phase is Processing,
            old(self).buffer.raw is Request,
        ensures
            final(self).current_interface == old(self).current_interface,
            final(self).was_request_chained == old(self).was_request_chained,
            final(self).transport_max == old(self).transport_max,
            spec_channel(*final(self), old(self).current_interface).phase is Responded,
            spec_channel(*final(self), spec_other(old(self).current_interface)) == spec_channel(
                *old(self),
                spec_other(old(self).current_interface),
            ),
            aid_bytes_of(final(self).current_aid) == Some(aid.bytes@) || aid_bytes_of(
                final(self).current_aid,
            ) == (if aid_bytes_of(old(self).current_aid) == Some(aid.bytes@) {
                aid_bytes_of(old(self).current_aid)
            } else {
                None::<Seq<u8>>
            }),
            // with no applications registered, no select can be accepted:
            // the answer is not-found and the selection gains nothing
            old(apps)@.len() == 0 ==> spec_channel(
                *final(self),
                old(self).current_interface,
            ).slot@ == spec_code_bytes(0x6a82) && final(self).buffer.raw is Empty && !(
            aid_bytes_of(old(self).current_aid) != Some(aid.bytes@) && aid_bytes_of(
                final(self).current_aid,
            ) == Some(aid.bytes@)),
            final(apps)@.len() == old(apps)@.len(),
    {
        // a selected application with a different AID gets the chance to
        // clear sensitive state before the switch
        let needs_deselect = match &self.current_aid {
            Some(cur) => !bytes_eq(&cur.bytes, &aid.bytes),
            None => false,
        };
        if needs_deselect {
            let idx = Self::find_app(self.current_aid.as_ref(), &*apps);
            if let Some(i) = idx {
                apps[i].deselect();
            }
            self.current_aid = None;
        }
        let found = Self::find_app(Some(&aid), &*apps);
        match found {
            Some(i) => {
                let mut response: Vec<u8> = Vec::new();
                let result = match &self.buffer.raw {
                    RawApduBuffer::Request(apdu) => apps[i].select(apdu, &mut response),
                    _ => {
                        proof {
                            assert(false);
                        }
                        Err(Status::NotFound)
                    },
                };
                self.commit_selection(result.is_ok(), aid);
                self.handle_app_response(&result, &response);
            },
            None => {
                self.reply_error(Status::NotFound);
            },
        }
    }

    /// Forwards the assembled command to the selected application, or
    /// answers `6A82` when nothing is selected. The selection is never
    /// touched here.
    fn handle_app_command<A: App>(&mut self, apps: &mut Vec<A>)
        requires
            spec_channel(*old(self), old(self).current_interface).phase is Processing,
            old(self).buffer.raw is Request,
        ensures
            final(self).current_aid == old(self).current_aid,
            final(self).current_interface == old(self).current_interface,
            final(self).was_request_chained == old(self).was_request_chained,
            final(self).transport_max == old(self).transport_max,
            spec_channel(*final(self), old(self).current_interface).phase is Responded,
            spec_channel(*final(self), spec_other(old(self).current_interface)) == spec_channel(
                *old(self),
                spec_other(old(self).current_interface),
            ),
            old(self).current_aid is None || old(apps)@.len() == 0 ==> spec_channel(
                *final(self),
                old(self).current_interface,
            ).slot@ == spec_code_bytes(0x6a82) && final(self).buffer.raw is Empty,
            final(apps)@.len() == old(apps)@.len(),
    {
        let found = Self::find_app(self.current_aid.as_ref(), &*apps);
        match found {
            Some(i) => {
                let mut response: Vec<u8> = Vec::new();
                let result = match &self.buffer.raw {
                    RawApduBuffer::Request(apdu) => apps[i].call(
                        self.current_interface,
                        apdu,
                        &mut response,
                    ),
                    _ => {
                        proof {
                            assert(false);
                        }
                        Err(Status::NotFound)
                    },
                };
                self.handle_app_response(&result, &response);
            },
            None => {
                self.reply_error(Status::NotFound);
            },
        }
    }

    /// One full tick: take at most one pending request (contactless
    /// first, and only while no transaction is in flight), assemble or
    /// classify it, dispatch it to the applications, and answer on the
    /// originating channel. The result names the channel now holding an
    /// answer for the reader, contactless first.
    pub fn poll<A: App>(&mut self, apps: &mut Vec<A>) -> (r: Option<Interface>)
        ensures
            r == (if final(self).contactless.phase is Responded {
                Some(Interface::Contactless)
            } else if final(self).contact.phase is Responded {
                Some(Interface::Contact)
            } else {
                None::<Interface>
            }),
            final(self).transport_max == old(self).transport_max,
            // nothing to take, nothing changes
            spec_intake_iface(*old(self)) is None ==> *final(self) == *old(self),
            // channel fidelity and progress: the served channel answers,
            // the other channel is never touched
            spec_intake_iface(*old(self)) == Some(Interface::Contactless) ==> final(self).contact
                == old(self).contact && final(self).contactless.phase is Responded,
            spec_intake_iface(*old(self)) == Some(Interface::Contact) ==> final(self).contactless
                == old(self).contactless && final(self).contact.phase is Responded,
            // single selection: the selection moves only on a fresh
            // SELECT, and then to the requested AID or to none
            aid_bytes_of(final(self).current_aid) != aid_bytes_of(old(self).current_aid) ==> (
            spec_taken_select_aid(*old(self)) matches Some(b) && (aid_bytes_of(
                final(self).current_aid,
            ) == Some(b) || aid_bytes_of(final(self).current_aid) is None)),
            final(apps)@.len() == old(apps)@.len(),
            // a message that fails to parse is answered 6F00 in place
            spec_intake_iface(*old(self)) matches Some(iface) ==> (spec_parse(
                spec_intake_message(*old(self)),
            ) is Err ==> spec_intake_error_outcome(*old(self), *final(self), iface)),
            // a non-final chain block is acknowledged and buffered
            spec_intake_iface(*old(self)) matches Some(iface) ==> (match spec_parse(
                spec_intake_message(*old(self)),
            ) {
                Ok(c) => spec_not_the_last(c.class) ==> spec_chain_ack_outcome(
                    *old(self),
                    *final(self),
                    iface,
                    c,
                ),
                Err(_) => true,
            }),
            // a GET RESPONSE drains one more chunk of the buffered
            // response, and is protocol misuse when none is buffered
            spec_intake_iface(*old(self)) matches Some(iface) ==> (spec_poll_is_get_response(
                *old(self),
            ) ==> match old(self).buffer.raw {
                RawApduBuffer::Response(res) => spec_channel(*final(self), iface).slot@
                    == spec_drain_message(*old(self), res@, false) && (spec_drain_clears(
                    *old(self),
                    res@,
                    false,
                ) ==> final(self).buffer.raw is Empty) && (!spec_drain_clears(
                    *old(self),
                    res@,
                    false,
                ) ==> (final(self).buffer.raw matches RawApduBuffer::Response(rest) && rest@
                    == spec_drain_rest_of(*old(self), res@, false))),
                _ => spec_channel(*final(self), iface).slot@ == spec_code_bytes(0x6f00) && final(self).buffer.raw is Empty,
            }),
            // an ordinary command with nothing selected, and any command
            // or SELECT with no applications registered, is not found
            spec_intake_iface(*old(self)) matches Some(iface) ==> (spec_poll_is_new_command(
                *old(self),
            ) && (old(self).current_aid is None || old(apps)@.len() == 0) ==> spec_channel(
                *final(self),
                iface,
            ).slot@ == spec_code_bytes(0x6a82) && final(self).buffer.raw is Empty),
            spec_intake_iface(*old(self)) matches Some(iface) ==> (spec_taken_select_aid(
                *old(self),
            ) is Some && old(apps)@.len() == 0 ==> spec_channel(*final(self), iface).slot@
                == spec_code_bytes(0x6a82) && final(self).buffer.raw is Empty && (aid_bytes_of(
                old(self).current_aid,
            ) != spec_taken_select_aid(*old(self)) ==> aid_bytes_of(final(self).current_aid)
                != spec_taken_select_aid(*old(self)))),
    {
        // only one transaction at a time
        let request_type = self.check_for_request();
        match request_type {
            Some(RequestType::Select(aid)) => {
                self.handle_app_select(apps, aid);
            },
            Some(RequestType::GetResponse) => {
                self.handle_reply(false);
            },
            Some(RequestType::NewCommand) => {
                self.handle_app_command(apps);
            },
            None => {},
        }
        // slight priority to contactless
        if matches!(self.contactless.phase, ChannelState::Responded) {
            Some(Interface::Contactless)
        } else if matches!(self.contact.phase, ChannelState::Responded) {
            Some(Interface::Contact)
        } else {
            None
        }
    }
}

} // verus!
