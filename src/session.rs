//! The worker's session: handshake, request loop and cleanup as a state
//! machine. The caller performs each action it returns (connect, read,
//! write, attach) and hands back what came of it as the next event.
use vstd::prelude::*;

use crate::buffer::{view_outcome, BufferError, ExternalBuffer, Mapping, Role};
use crate::compute::{compute, compute_post, Backend, ComputeError};
use crate::selector::{is_trimmed_of, selector_from_field, utf8_lossy, SELECTOR_FIELD_LEN};

verus! {

/// Frame sent in place of a reply length when a computation failed and the
/// session goes on.
pub const ERROR_FRAME: u32 = 0xffff_ffff;

/// Where the session stands.
#[derive(Clone, Copy, Debug, PartialEq, Eq, Structural)]
pub enum Phase {
    /// Not yet connected.
    Connecting,
    /// Connected; the identity is being sent.
    Greeting,
    /// Waiting for the input segment's key.
    AwaitInputKey,
    /// Attaching the input segment of this key.
    AttachingInput(u32),
    /// Waiting for the output segment's key.
    AwaitOutputKey,
    /// Attaching the output segment of this key.
    AttachingOutput(u32),
    /// Waiting for the selector field.
    AwaitSelector,
    /// Waiting for a request frame.
    Ready,
    /// A request was accepted; waiting for its result.
    Computing,
    /// A reply frame is being sent.
    Replying,
    /// The session is over.
    Closed,
}

/// Why a session ended.
#[derive(Clone, Copy, Debug, PartialEq, Eq, Structural)]
pub enum Exit {
    /// The driver closed the connection between requests.
    Finished,
    /// Cancellation was observed between requests.
    Cancelled,
    /// The connection could not be opened.
    ConnectFailed,
    /// A segment could not be attached.
    AttachFailed,
    /// The driver closed the connection before the exchange was complete.
    Incomplete,
    /// A transport failure other than a clean close.
    IoError,
    /// A length beyond a segment's capacity, or an event out of order.
    ProtocolViolation,
    /// A computation failed and the session does not go on after one.
    ComputeFailed,
}

impl Exit {
    /// Whether the process should report failure.
    pub fn is_error(&self) -> (r: bool)
        ensures
            r == !(*self is Finished || *self is Cancelled),
    {
        !matches!(self, Exit::Finished | Exit::Cancelled)
    }
}

/// What the caller reports.
#[derive(Debug)]
pub enum Event {
    Connected,
    ConnectFailed,
    /// The last send completed.
    Sent,
    /// A four-byte frame was read, with this value.
    Frame(u32),
    /// The selector field was read.
    Field(Vec<u8>),
    Attached,
    AttachFailed,
    /// The peer closed the stream cleanly.
    EndOfStream,
    /// Any other transport failure.
    IoFailed,
    /// The cancellation flag was found set before reading the next request.
    Cancelled,
    /// The computation of the current request came to this.
    Computed(Result<Vec<u8>, ComputeError>),
}

/// What the caller does next.
#[derive(Debug)]
pub enum Action {
    /// Send the identity string.
    SendIdentity(String),
    /// Read one four-byte frame.
    ReadFrame,
    /// Attach the segment of this role and key.
    Attach(Role, u32),
    /// Read the fixed-width selector field of this many bytes.
    ReadField(usize),
    /// Read this many bytes from the input segment and compute on them.
    Compute(u32),
    /// Write these bytes at the start of the output segment, then send
    /// their length as a frame.
    Reply(Vec<u8>, u32),
    /// Send this frame alone.
    SendFrame(u32),
    /// Stop serving and release the segments.
    Shutdown(Exit),
    /// Nothing more to do.
    Idle,
}

/// What to do with a computation that failed.
#[derive(Clone, Copy, Debug, PartialEq, Eq, Structural)]
pub enum ErrorPolicy {
    /// End the session.
    Abort,
    /// Send `ERROR_FRAME` and go on serving.
    Sentinel,
}

/// One release step of the cleanup.
#[derive(Clone, Copy, Debug, PartialEq, Eq, Structural)]
pub enum Release {
    /// Unmap the segment of this key from this process.
    Detach(u32),
    /// Remove the segment of this key from the system.
    Destroy(u32),
}

/// What a session is set up with.
pub struct Config {
    /// Announced to the driver right after connecting.
    pub identity: String,
    /// Capacity of each segment.
    pub capacity: usize,
    /// Whether this process owns the output segment, and so destroys it.
    pub owns_output: bool,
    /// Whether a selector field follows the keys.
    pub multi_method: bool,
    pub policy: ErrorPolicy,
}

/// The part of a session that the state machine moves.
#[derive(Clone, Copy, Debug)]
pub struct Status {
    pub phase: Phase,
    pub input: Option<ExternalBuffer>,
    pub output: Option<ExternalBuffer>,
}

/// Shuts the session down for a reason.
pub open spec fn close(st: Status, why: Exit) -> (Status, Action) {
    (Status { phase: Phase::Closed, ..st }, Action::Shutdown(why))
}

/// The state machine: the next status and action for an event.
pub open spec fn next(c: Config, st: Status, e: Event) -> (Status, Action) {
    match (st.phase, e) {
        (Phase::Closed, _) => (st, Action::Idle),
        (_, Event::IoFailed) => close(st, Exit::IoError),
        (Phase::Connecting, Event::Connected) => (
            Status { phase: Phase::Greeting, ..st },
            Action::SendIdentity(c.identity),
        ),
        (Phase::Connecting, Event::ConnectFailed) => close(st, Exit::ConnectFailed),
        (Phase::Greeting, Event::Sent) => (
            Status { phase: Phase::AwaitInputKey, ..st },
            Action::ReadFrame,
        ),
        (Phase::AwaitInputKey, Event::Frame(k)) => (
            Status { phase: Phase::AttachingInput(k), ..st },
            Action::Attach(Role::Input, k),
        ),
        (Phase::AttachingInput(k), Event::Attached) => (
            Status {
                phase: Phase::AwaitOutputKey,
                input: Some(
                    ExternalBuffer {
                        role: Role::Input,
                        key: k,
                        capacity: c.capacity,
                        owner: false,
                        mapping: Mapping::Attached,
                    },
                ),
                ..st
            },
            Action::ReadFrame,
        ),
        (Phase::AwaitOutputKey, Event::Frame(k)) => (
            Status { phase: Phase::AttachingOutput(k), ..st },
            Action::Attach(Role::Output, k),
        ),
        (Phase::AttachingOutput(k), Event::Attached) => {
            let out = Some(
                ExternalBuffer {
                    role: Role::Output,
                    key: k,
                    capacity: c.capacity,
                    owner: c.owns_output,
                    mapping: Mapping::Attached,
                },
            );
            if c.multi_method {
                (
                    Status { phase: Phase::AwaitSelector, output: out, ..st },
                    Action::ReadField(SELECTOR_FIELD_LEN),
                )
            } else {
                (Status { phase: Phase::Ready, output: out, ..st }, Action::ReadFrame)
            }
        },
        (Phase::AttachingInput(_), Event::AttachFailed) => close(st, Exit::AttachFailed),
        (Phase::AttachingOutput(_), Event::AttachFailed) => close(st, Exit::AttachFailed),
        (Phase::AwaitSelector, Event::Field(_)) => (
            Status { phase: Phase::Ready, ..st },
            Action::ReadFrame,
        ),
        (Phase::Ready, Event::Frame(len)) => match st.input {
            Some(b) => match view_outcome(b, len as usize) {
                Ok(_) => (Status { phase: Phase::Computing, ..st }, Action::Compute(len)),
                Err(_) => close(st, Exit::ProtocolViolation),
            },
            None => close(st, Exit::ProtocolViolation),
        },
        (Phase::Ready, Event::EndOfStream) => close(st, Exit::Finished),
        (Phase::Ready, Event::Cancelled) => close(st, Exit::Cancelled),
        (Phase::Computing, Event::Computed(Ok(out))) => match st.output {
            Some(b) => if out@.len() <= u32::MAX && view_outcome(b, out@.len() as usize) is Ok {
                (Status { phase: Phase::Replying, ..st }, Action::Reply(out, out@.len() as u32))
            } else {
                close(st, Exit::ProtocolViolation)
            },
            None => close(st, Exit::ProtocolViolation),
        },
        (Phase::Computing, Event::Computed(Err(_))) => match c.policy {
            ErrorPolicy::Abort => close(st, Exit::ComputeFailed),
            ErrorPolicy::Sentinel => (
                Status { phase: Phase::Replying, ..st },
                Action::SendFrame(ERROR_FRAME),
            ),
        },
        (Phase::Replying, Event::Sent) => (Status { phase: Phase::Ready, ..st }, Action::ReadFrame),
        (_, Event::EndOfStream) => close(st, Exit::Incomplete),
        _ => close(st, Exit::ProtocolViolation),
    }
}

} // verus!

verus! {

/// The cleanup steps for one segment: release the local mapping if there
/// is one, then remove the segment if this process owns it.
pub open spec fn release_plan(b: Option<ExternalBuffer>) -> Seq<Release> {
    match b {
        None => Seq::empty(),
        Some(b) => {
            let detach = if b.mapping == Mapping::Attached {
                seq![Release::Detach(b.key)]
            } else {
                Seq::empty()
            };
            let destroy = if b.owner && b.mapping != Mapping::Destroyed {
                seq![Release::Destroy(b.key)]
            } else {
                Seq::empty()
            };
            detach + destroy
        },
    }
}

/// A segment after its cleanup.
pub open spec fn released(b: Option<ExternalBuffer>) -> Option<ExternalBuffer> {
    match b {
        None => None,
        Some(b) => Some(
            ExternalBuffer {
                mapping: if b.owner && b.mapping != Mapping::Destroyed {
                    Mapping::Destroyed
                } else if b.mapping == Mapping::Attached {
                    Mapping::Detached
                } else {
                    b.mapping
                },
                ..b
            },
        ),
    }
}

/// One worker session.
pub struct Session {
    pub config: Config,
    pub status: Status,
    /// The method name bound by the handshake; empty until then.
    pub selector: String,
}

impl Session {
    /// A session that has not connected yet.
    pub fn new(config: Config) -> (r: Self)
        ensures
            r.config == config,
            r.status == (Status { phase: Phase::Connecting, input: None, output: None }),
            r.selector@.len() == 0,
            status_wf(r.config, r.status),
    {
        Session {
            config,
            status: Status { phase: Phase::Connecting, input: None, output: None },
            selector: String::new(),
        }
    }

    /// Moves the state machine by one event and returns the next action.
    /// The selector field, when one is awaited, binds the session's selector.
    pub fn step(&mut self, e: Event) -> (r: Action)
        ensures
            (final(self).status, r) == next(old(self).config, old(self).status, e),
            final(self).config == old(self).config,
            status_wf(old(self).config, old(self).status) ==> status_wf(
                final(self).config,
                final(self).status,
            ),
            old(self).status.phase is AwaitSelector && e is Field ==> exists|t: Seq<u8>|
                is_trimmed_of(e->Field_0@, t) && final(self).selector@ == utf8_lossy(t),
            !(old(self).status.phase is AwaitSelector && e is Field)
                ==> final(self).selector == old(self).selector,
    {
        proof {
            if status_wf(self.config, self.status) {
                lemma_next_keeps_wf(self.config, self.status, e);
            }
        }
        let st = self.status;
        match st.phase {
            Phase::Closed => return Action::Idle,
            _ => {},
        }
        match e {
            Event::IoFailed => self.close(Exit::IoError),
            Event::Connected => match st.phase {
                Phase::Connecting => {
                    self.status.phase = Phase::Greeting;
                    Action::SendIdentity(self.config.identity.clone())
                },
                _ => self.close(Exit::ProtocolViolation),
            },
            Event::ConnectFailed => match st.phase {
                Phase::Connecting => self.close(Exit::ConnectFailed),
                _ => self.close(Exit::ProtocolViolation),
            },
            Event::Sent => match st.phase {
                Phase::Greeting => {
                    self.status.phase = Phase::AwaitInputKey;
                    Action::ReadFrame
                },
                Phase::Replying => {
                    self.status.phase = Phase::Ready;
                    Action::ReadFrame
                },
                _ => self.close(Exit::ProtocolViolation),
            },
            Event::Frame(v) => match st.phase {
                Phase::AwaitInputKey => {
                    self.status.phase = Phase::AttachingInput(v);
                    Action::Attach(Role::Input, v)
                },
                Phase::AwaitOutputKey => {
                    self.status.phase = Phase::AttachingOutput(v);
                    Action::Attach(Role::Output, v)
                },
                Phase::Ready => match st.input {
                    Some(b) => match b.view(v as usize) {
                        Ok(_) => {
                            self.status.phase = Phase::Computing;
                            Action::Compute(v)
                        },
                        Err(_) => self.close(Exit::ProtocolViolation),
                    },
                    None => self.close(Exit::ProtocolViolation),
                },
                _ => self.close(Exit::ProtocolViolation),
            },
            Event::Attached => match st.phase {
                Phase::AttachingInput(k) => {
                    self.status.input = Some(
                        ExternalBuffer::attached(k, Role::Input, self.config.capacity, false),
                    );
                    self.status.phase = Phase::AwaitOutputKey;
                    Action::ReadFrame
                },
                Phase::AttachingOutput(k) => {
                    self.status.output = Some(
                        ExternalBuffer::attached(
                            k,
                            Role::Output,
                            self.config.capacity,
                            self.config.owns_output,
                        ),
                    );
                    if self.config.multi_method {
                        self.status.phase = Phase::AwaitSelector;
                        Action::ReadField(SELECTOR_FIELD_LEN)
                    } else {
                        self.status.phase = Phase::Ready;
                        Action::ReadFrame
                    }
                },
                _ => self.close(Exit::ProtocolViolation),
            },
            Event::AttachFailed => match st.phase {
                Phase::AttachingInput(_) => self.close(Exit::AttachFailed),
                Phase::AttachingOutput(_) => self.close(Exit::AttachFailed),
                _ => self.close(Exit::ProtocolViolation),
            },
            Event::Field(f) => match st.phase {
                Phase::AwaitSelector => {
                    self.selector = selector_from_field(f.as_slice());
                    self.status.phase = Phase::Ready;
                    Action::ReadFrame
                },
                _ => self.close(Exit::ProtocolViolation),
            },
            Event::EndOfStream => match st.phase {
                Phase::Ready => self.close(Exit::Finished),
                _ => self.close(Exit::Incomplete),
            },
            Event::Cancelled => match st.phase {
                Phase::Ready => self.close(Exit::Cancelled),
                _ => self.close(Exit::ProtocolViolation),
            },
            Event::Computed(res) => match st.phase {
                Phase::Computing => match res {
                    Ok(out) => match st.output {
                        Some(b) => {
                            let n = out.len();
                            if n as u64 <= 0xffff_ffffu64 && b.view(n).is_ok() {
                                self.status.phase = Phase::Replying;
                                Action::Reply(out, n as u32)
                            } else {
                                self.close(Exit::ProtocolViolation)
                            }
                        },
                        None => self.close(Exit::ProtocolViolation),
                    },
                    Err(_) => match self.config.policy {
                        ErrorPolicy::Abort => self.close(Exit::ComputeFailed),
                        ErrorPolicy::Sentinel => {
                            self.status.phase = Phase::Replying;
                            Action::SendFrame(ERROR_FRAME)
                        },
                    },
                },
                _ => self.close(Exit::ProtocolViolation),
            },
        }
    }

    fn close(&mut self, why: Exit) -> (r: Action)
        ensures
            (final(self).status, r) == close(old(self).status, why),
            final(self).config == old(self).config,
            final(self).selector == old(self).selector,
    {
        self.status.phase = Phase::Closed;
        Action::Shutdown(why)
    }

    /// Computes on the bytes of the current request with the session's
    /// selector, and moves the state machine by the result.
    pub fn serve(&mut self, backend: &Backend, input: &[u8]) -> (r: Action)
        ensures
            exists|res: Result<Vec<u8>, ComputeError>|
                compute_post(backend, old(self).selector@, input@, res) && (final(self).status, r)
                    == next(old(self).config, old(self).status, Event::Computed(res)),
            final(self).config == old(self).config,
            final(self).selector == old(self).selector,
    {
        let res = compute(backend, self.selector.as_str(), input);
        let ghost g = res;
        let r = self.step(Event::Computed(res));
        assert(compute_post(backend, old(self).selector@, input@, g));
        r
    }

    /// Releases every segment of the session: detaches each local mapping,
    /// then destroys the segments this process owns. Returns the steps for
    /// the caller to carry out, in order.
    pub fn release(&mut self) -> (r: Vec<Release>)
        ensures
            r@ == release_plan(old(self).status.input) + release_plan(old(self).status.output),
            final(self).status.input == released(old(self).status.input),
            final(self).status.output == released(old(self).status.output),
            final(self).status.phase == old(self).status.phase,
            final(self).config == old(self).config,
            final(self).selector == old(self).selector,
    {
        let mut steps: Vec<Release> = Vec::new();
        let input = release_one(self.status.input, &mut steps);
        let output = release_one(self.status.output, &mut steps);
        self.status.input = input;
        self.status.output = output;
        steps
    }
}

fn release_one(b: Option<ExternalBuffer>, steps: &mut Vec<Release>) -> (r: Option<ExternalBuffer>)
    ensures
        final(steps)@ == old(steps)@ + release_plan(b),
        r == released(b),
{
    match b {
        None => {
            assert(old(steps)@ + release_plan(b) =~= old(steps)@);
            None
        },
        Some(seg) => {
            let mut seg = seg;
            let key = seg.key;
            if seg.detach() {
                steps.push(Release::Detach(key));
            }
            if seg.owner {
                if seg.destroy().is_ok() {
                    steps.push(Release::Destroy(key));
                }
            }
            assert(steps@ =~= old(steps)@ + release_plan(b));
            Some(seg)
        },
    }
}

} // verus!

verus! {

/// A clean close of the stream while waiting for a request ends the session
/// normally, whatever the driver has sent before.
pub proof fn lemma_close_between_requests(c: Config, st: Status)
    requires
        st.phase == Phase::Ready,
    ensures
        next(c, st, Event::EndOfStream).0.phase == Phase::Closed,
        next(c, st, Event::EndOfStream).1 == Action::Shutdown(Exit::Finished),
{
}

/// A request longer than the input segment ends the session as a protocol
/// violation; no computation is asked for.
pub proof fn lemma_oversized_request(c: Config, st: Status, b: ExternalBuffer, len: u32)
    requires
        st.phase == Phase::Ready,
        st.input == Some(b),
        len as usize > b.capacity,
    ensures
        next(c, st, Event::Frame(len)).1 == Action::Shutdown(Exit::ProtocolViolation),
{
}

/// Cleanup destroys a segment only if this process owns it, and detaches
/// every segment that is still attached.
pub proof fn lemma_release_only_owned(b: Option<ExternalBuffer>)
    ensures
        forall|i: int|
            0 <= i < release_plan(b).len() && release_plan(b)[i] is Destroy ==> (b matches Some(s)
                && s.owner),
        b is Some && b->0.mapping == Mapping::Attached ==> release_plan(b).len() > 0
            && release_plan(b)[0] == Release::Detach(b->0.key),
        released(b) matches Some(s) ==> s.mapping != Mapping::Attached,
{
}

} // verus!

verus! {

/// A segment attached by the handshake, as the session keeps it.
pub open spec fn attached_as(b: Option<ExternalBuffer>, role: Role, c: Config) -> bool {
    b matches Some(s) && s.role == role && s.capacity == c.capacity && s.mapping == Mapping::Attached
        && (role == Role::Input ==> !s.owner) && (role == Role::Output ==> s.owner == c.owns_output)
}

/// Which segments a session holds in each phase.
pub open spec fn status_wf(c: Config, st: Status) -> bool {
    match st.phase {
        Phase::Connecting | Phase::Greeting | Phase::AwaitInputKey | Phase::AttachingInput(_) => st.input
            is None && st.output is None,
        Phase::AwaitOutputKey | Phase::AttachingOutput(_) => attached_as(st.input, Role::Input, c)
            && st.output is None,
        Phase::AwaitSelector | Phase::Ready | Phase::Computing | Phase::Replying => attached_as(
            st.input,
            Role::Input,
            c,
        ) && attached_as(st.output, Role::Output, c),
        Phase::Closed => true,
    }
}

/// Every event keeps the session well formed: requests are served only
/// with both segments attached.
pub proof fn lemma_next_keeps_wf(c: Config, st: Status, e: Event)
    requires
        status_wf(c, st),
    ensures
        status_wf(c, next(c, st, e).0),
{
}

} // verus!
