//! The connection state machine: the authentication handshake, request id
//! assignment and correlation, and the reassembly of one logical command
//! response from one or more wire packets, under an immutable per-dialect
//! quirk configuration.
//!
//! The machine is pure. It produces the packets to send and judges the
//! packets received; the caller owns the stream, writes each produced frame,
//! reads each response frame, decodes it with the packet codec, and feeds the
//! packet back in.

use crate::error::Error;
use crate::packet::{Packet, PacketModel, PacketType};
use vstd::prelude::*;
use vstd::string::StringExecFns;
use vstd::utf8::encode_utf8;

verus! {

/// The named deviations from baseline protocol behavior that a server
/// dialect may need, fixed before the session connects and immutable after.
#[derive(Debug, Clone, Copy, PartialEq, Eq, Structural)]
pub struct Quirks {
    /// When set (the baseline), large command output may arrive split over
    /// several packets sharing the request id, and the session sends an
    /// empty marker request after each command so the marker's echo
    /// delimits the end of the sequence. When cleared, the dialect never
    /// splits responses: exactly one response packet is read per command
    /// and no marker round-trip is made, since a marker echo would never
    /// arrive to distinguish itself.
    pub multi_packet_responses: bool,
}

/// Collects the per-dialect quirk toggles before a session is created.
/// Unset toggles leave the strict baseline behavior in place.
#[derive(Debug, Clone, Copy, PartialEq, Eq, Structural)]
pub struct Builder {
    /// Tolerate the Minecraft dialect's deviations.
    pub minecraft_quirks: bool,
    /// Tolerate the Factorio dialect's deviations.
    pub factorio_quirks: bool,
}

impl Builder {
    /// A builder with every quirk off: strict baseline protocol behavior.
    pub fn new() -> (b: Builder)
        ensures
            b == (Builder { minecraft_quirks: false, factorio_quirks: false }),
    {
        Builder { minecraft_quirks: false, factorio_quirks: false }
    }

    /// Tolerates the deviations of servers of the Minecraft dialect. Their
    /// one demand on this core — a whole packet per stream write — is met
    /// unconditionally by the codec, so the toggle changes no decision here;
    /// it is kept as a named configuration point for the transport.
    pub fn enable_minecraft_quirks(self, enabled: bool) -> (b: Builder)
        ensures
            b == (Builder { minecraft_quirks: enabled, ..self }),
    {
        Builder { minecraft_quirks: enabled, ..self }
    }

    /// Tolerates the deviations of servers of the Factorio dialect, which
    /// never split a response over several packets: multi-packet collection
    /// and the marker round-trip are disabled.
    pub fn enable_factorio_quirks(self, enabled: bool) -> (b: Builder)
        ensures
            b == (Builder { factorio_quirks: enabled, ..self }),
    {
        Builder { factorio_quirks: enabled, ..self }
    }

    /// The quirk configuration these toggles select.
    pub open spec fn spec_quirks(self) -> Quirks {
        Quirks { multi_packet_responses: !self.factorio_quirks }
    }

    /// Fixes the configuration a session built from these toggles will use.
    pub fn quirks(self) -> (q: Quirks)
        ensures
            q == self.spec_quirks(),
    {
        Quirks { multi_packet_responses: !self.factorio_quirks }
    }
}

/// The lifecycle of a session. `Failed` and `Closed` are terminal.
#[derive(Debug, Clone, Copy, PartialEq, Eq, Structural)]
pub enum SessionState {
    /// Created, handshake not yet begun.
    Unauthenticated,
    /// The authentication request is in flight.
    Authenticating,
    /// The handshake succeeded; commands may be issued.
    Authenticated,
    /// The server rejected the credential, or the handshake desynchronized.
    Failed,
    /// Disposed, or torn down after a fatal stream error.
    Closed,
}

/// The mathematical content of a session: its lifecycle state, its quirk
/// configuration, the next request id to assign, and the id of the
/// authentication request while one is in flight.
pub ghost struct SessionModel {
    pub state: SessionState,
    pub quirks: Quirks,
    pub next_id: i32,
    pub auth_id: i32,
}

/// The id following `n` in the request id sequence: ids count up from zero
/// and wrap back to zero at the top of the signed 32-bit range, so an
/// assigned id is never negative (a negative id is the wire's error signal).
pub open spec fn spec_next_id(n: i32) -> i32 {
    if n == i32::MAX {
        0
    } else {
        (n + 1) as i32
    }
}

/// The connection-scoped state machine. One logical stream, strictly
/// sequential request/response pairs: ids serve desynchronization detection,
/// not reordering.
#[derive(Debug)]
pub struct Session {
    state: SessionState,
    quirks: Quirks,
    next_id: i32,
    auth_id: i32,
}

impl View for Session {
    type V = SessionModel;

    closed spec fn view(&self) -> SessionModel {
        SessionModel {
            state: self.state,
            quirks: self.quirks,
            next_id: self.next_id,
            auth_id: self.auth_id,
        }
    }
}

impl Session {
    /// Assigned request ids are never negative.
    #[verifier::type_invariant]
    pub closed spec fn wf(&self) -> bool {
        self.next_id >= 0 && self.auth_id >= 0
    }

    /// A fresh session under the given quirk configuration, not yet
    /// authenticated, assigning ids from zero.
    pub fn new(quirks: Quirks) -> (s: Session)
        ensures
            s@ == (SessionModel {
                state: SessionState::Unauthenticated,
                quirks,
                next_id: 0,
                auth_id: 0,
            }),
    {
        Session { state: SessionState::Unauthenticated, quirks, next_id: 0, auth_id: 0 }
    }

    /// The current lifecycle state.
    pub fn state(&self) -> (st: SessionState)
        ensures
            st == self@.state,
    {
        self.state
    }

    /// Hands out the next request id and advances the counter.
    fn alloc_id(&mut self) -> (id: i32)
        ensures
            id == old(self)@.next_id,
            final(self)@ == (SessionModel { next_id: spec_next_id(old(self)@.next_id), ..old(
                self,
            )@ }),
    {
        proof {
            use_type_invariant(&*self);
        }
        let id = self.next_id;
        self.next_id = if self.next_id == i32::MAX {
            0
        } else {
            self.next_id + 1
        };
        id
    }

    /// Begins the handshake: on a fresh session, assigns a request id,
    /// records it for correlation, moves to `Authenticating`, and returns
    /// the `Auth` packet carrying the credential, to be written to the
    /// stream. On a session in any other state the call is a protocol
    /// error and changes nothing.
    pub fn begin_auth(&mut self, credential: &str) -> (r: Result<Packet, Error>)
        requires
            10 + encode_utf8(credential@).len() <= i32::MAX,
        ensures
            old(self)@.state is Unauthenticated ==> {
                &&& r matches Ok(p) && p@ == (PacketModel {
                    id: old(self)@.next_id,
                    ptype: PacketType::Auth,
                    body: credential@,
                })
                &&& final(self)@ == (SessionModel {
                    state: SessionState::Authenticating,
                    next_id: spec_next_id(old(self)@.next_id),
                    auth_id: old(self)@.next_id,
                    ..old(self)@
                })
            },
            !(old(self)@.state is Unauthenticated) ==> r == Err::<Packet, Error>(Error::Protocol)
                && final(self)@ == old(self)@,
    {
        proof {
            use_type_invariant(&*self);
        }
        match self.state {
            SessionState::Unauthenticated => {
                let id = self.alloc_id();
                self.auth_id = id;
                self.state = SessionState::Authenticating;
                Ok(Packet::new(id, PacketType::Auth, credential.to_owned()))
            },
            _ => Err(Error::Protocol),
        }
    }

    /// Judges the packet read in answer to the `Auth` request. A negative
    /// response id is the server rejecting the credential: the handshake
    /// fails with an authentication error, distinguishable from stream
    /// failures. A non-negative id other than the one the request carried
    /// is desynchronized framing: a protocol violation. Either failure is
    /// terminal. On the matching id the session becomes `Authenticated`.
    /// Outside the handshake the call is a protocol error and changes
    /// nothing.
    pub fn finish_auth(&mut self, response: &Packet) -> (r: Result<(), Error>)
        ensures
            !(old(self)@.state is Authenticating) ==> r == Err::<(), Error>(Error::Protocol)
                && final(self)@ == old(self)@,
            old(self)@.state is Authenticating && response@.id < 0 ==> r == Err::<(), Error>(
                Error::Auth,
            ) && final(self)@ == (SessionModel { state: SessionState::Failed, ..old(self)@ }),
            old(self)@.state is Authenticating && response@.id >= 0 && response@.id != old(
                self,
            )@.auth_id ==> r == Err::<(), Error>(Error::Protocol) && final(self)@ == (SessionModel {
                state: SessionState::Failed,
                ..old(self)@
            }),
            old(self)@.state is Authenticating && response@.id == old(self)@.auth_id && response@.id
                >= 0 ==> r == Ok::<(), Error>(()) && final(self)@ == (SessionModel {
                state: SessionState::Authenticated,
                ..old(self)@
            }),
    {
        proof {
            use_type_invariant(&*self);
        }
        match self.state {
            SessionState::Authenticating => {
                if response.is_error() {
                    self.state = SessionState::Failed;
                    Err(Error::Auth)
                } else if response.get_id() != self.auth_id {
                    self.state = SessionState::Failed;
                    Err(Error::Protocol)
                } else {
                    self.state = SessionState::Authenticated;
                    Ok(())
                }
            },
            _ => Err(Error::Protocol),
        }
    }

    /// Opens a command exchange on an authenticated session: assigns a fresh
    /// id, builds the `ExecCommand` packet, and, when the dialect splits
    /// responses, a second empty marker request under the next id, whose
    /// echo will delimit the end of the response sequence. Returns the
    /// packets to write, in order, and the collector that folds the read
    /// packets into the logical response. In any state but `Authenticated`
    /// the call fails with a not-connected error and changes nothing.
    pub fn begin_cmd(&mut self, command_text: &str) -> (r: Result<CommandExchange, Error>)
        requires
            10 + encode_utf8(command_text@).len() <= i32::MAX,
        ensures
            !(old(self)@.state is Authenticated) ==> r == Err::<CommandExchange, Error>(
                Error::NotConnected,
            ) && final(self)@ == old(self)@,
            old(self)@.state is Authenticated ==> {
                let cmd_id = old(self)@.next_id;
                let marker_id = spec_next_id(cmd_id);
                &&& r matches Ok(ex) && {
                    &&& ex.request@ == (PacketModel {
                        id: cmd_id,
                        ptype: PacketType::ExecCommand,
                        body: command_text@,
                    })
                    &&& old(self)@.quirks.multi_packet_responses ==> {
                        &&& ex.marker matches Some(mp) && mp@ == (PacketModel {
                            id: marker_id,
                            ptype: PacketType::ExecCommand,
                            body: Seq::<char>::empty(),
                        })
                        &&& ex.collector@ == (CollectorModel {
                            cmd_id,
                            marker_id,
                            multi: true,
                            acc: Seq::<char>::empty(),
                            done: false,
                        })
                        &&& final(self)@ == (SessionModel {
                            next_id: spec_next_id(marker_id),
                            ..old(self)@
                        })
                    }
                    &&& !old(self)@.quirks.multi_packet_responses ==> {
                        &&& ex.marker is None
                        &&& ex.collector@ == (CollectorModel {
                            cmd_id,
                            marker_id: cmd_id,
                            multi: false,
                            acc: Seq::<char>::empty(),
                            done: false,
                        })
                        &&& final(self)@ == (SessionModel { next_id: marker_id, ..old(self)@ })
                    }
                }
            },
    {
        proof {
            use_type_invariant(&*self);
        }
        match self.state {
            SessionState::Authenticated => {
                let cmd_id = self.alloc_id();
                let request = Packet::new(
                    cmd_id,
                    PacketType::ExecCommand,
                    command_text.to_owned(),
                );
                if self.quirks.multi_packet_responses {
                    let marker_id = self.alloc_id();
                    proof {
                        assert(encode_utf8(Seq::<char>::empty()) =~= Seq::<u8>::empty());
                    }
                    let marker = Packet::new(marker_id, PacketType::ExecCommand, String::new());
                    Ok(
                        CommandExchange {
                            request,
                            marker: Some(marker),
                            collector: ResponseCollector {
                                cmd_id,
                                marker_id,
                                multi: true,
                                acc: String::new(),
                                done: false,
                            },
                        },
                    )
                } else {
                    Ok(
                        CommandExchange {
                            request,
                            marker: None,
                            collector: ResponseCollector {
                                cmd_id,
                                marker_id: cmd_id,
                                multi: false,
                                acc: String::new(),
                                done: false,
                            },
                        },
                    )
                }
            },
            _ => Err(Error::NotConnected),
        }
    }

    /// Disposes the session: any state moves to `Closed`, idempotently. The
    /// caller tears the stream down alongside, on explicit disposal or
    /// after a fatal stream error.
    pub fn close(&mut self)
        ensures
            final(self)@ == (SessionModel { state: SessionState::Closed, ..old(self)@ }),
    {
        proof {
            use_type_invariant(&*self);
        }
        self.state = SessionState::Closed;
    }
}

/// One command round-trip: the request packet, the optional marker request,
/// and the collector that folds response packets into the logical answer.
#[derive(Debug)]
pub struct CommandExchange {
    /// The `ExecCommand` packet to write first.
    pub request: Packet,
    /// The empty marker request to write right after the command, present
    /// exactly when the dialect splits responses over several packets.
    pub marker: Option<Packet>,
    /// Folds each packet read from the stream into the accumulated answer.
    pub collector: ResponseCollector,
}

/// The mathematical content of a collector: the two ids it correlates
/// against, whether multi-packet collection is on, the output accumulated so
/// far, and whether the answer is complete.
pub ghost struct CollectorModel {
    pub cmd_id: i32,
    pub marker_id: i32,
    pub multi: bool,
    pub acc: Seq<char>,
    pub done: bool,
}

/// What one collected packet does to a collector, and what the collection
/// step returns: the complete answer, nothing yet, or a failure.
///
/// A finished collector accepts nothing further. With multi-packet
/// collection off, the first packet's body is the whole answer. Otherwise a
/// packet under the command id appends its body to the accumulated output, a
/// packet under the marker id completes the answer and is itself discarded,
/// and any other id is desynchronized framing: a protocol violation.
pub open spec fn spec_absorb(c: CollectorModel, id: i32, body: Seq<char>) -> (CollectorModel, Result<
    Option<Seq<char>>,
    Error,
>) {
    if c.done {
        (c, Err(Error::Protocol))
    } else if !c.multi {
        (CollectorModel { done: true, acc: body, ..c }, Ok(Some(body)))
    } else if id == c.cmd_id {
        (CollectorModel { acc: c.acc + body, ..c }, Ok(None))
    } else if id == c.marker_id {
        (CollectorModel { done: true, ..c }, Ok(Some(c.acc)))
    } else {
        (c, Err(Error::Protocol))
    }
}

/// The model of an absorb result: the answer replaced by its character
/// sequence, the error kept.
pub open spec fn absorb_result_model(r: Result<Option<String>, Error>) -> Result<
    Option<Seq<char>>,
    Error,
> {
    match r {
        Ok(Some(s)) => Ok(Some(s@)),
        Ok(None) => Ok(None),
        Err(e) => Err(e),
    }
}

/// The answer a whole run of collection steps reaches on the given packets,
/// each packet its id and body, in arrival order. A run that consumes every
/// packet without completing is a short read: the stream ended before the
/// answer did.
pub open spec fn spec_collect(c: CollectorModel, packets: Seq<(i32, Seq<char>)>) -> Result<
    Seq<char>,
    Error,
>
    decreases packets.len(),
{
    if packets.len() == 0 {
        Err(Error::Io)
    } else {
        let step = spec_absorb(c, packets[0].0, packets[0].1);
        match step.1 {
            Ok(Some(out)) => Ok(out),
            Ok(None) => spec_collect(step.0, packets.drop_first()),
            Err(e) => Err(e),
        }
    }
}

/// Accumulates the packets of one command response as the caller reads them.
#[derive(Debug)]
pub struct ResponseCollector {
    cmd_id: i32,
    marker_id: i32,
    multi: bool,
    acc: String,
    done: bool,
}

impl View for ResponseCollector {
    type V = CollectorModel;

    closed spec fn view(&self) -> CollectorModel {
        CollectorModel {
            cmd_id: self.cmd_id,
            marker_id: self.marker_id,
            multi: self.multi,
            acc: self.acc@,
            done: self.done,
        }
    }
}

impl ResponseCollector {
    /// Folds one packet read from the stream into the collector, exactly as
    /// `spec_absorb` says: `Ok(Some(answer))` when the answer is complete,
    /// `Ok(None)` when more packets must be read, an error on a packet no
    /// outstanding request explains.
    pub fn absorb(&mut self, p: &Packet) -> (r: Result<Option<String>, Error>)
        ensures
            final(self)@ == spec_absorb(old(self)@, p@.id, p@.body).0,
            absorb_result_model(r) == spec_absorb(old(self)@, p@.id, p@.body).1,
    {
        if self.done {
            Err(Error::Protocol)
        } else if !self.multi {
            self.acc = p.get_body().to_owned();
            self.done = true;
            Ok(Some(self.acc.clone()))
        } else if p.get_id() == self.cmd_id {
            self.acc.append(p.get_body());
            Ok(None)
        } else if p.get_id() == self.marker_id {
            self.done = true;
            Ok(Some(self.acc.clone()))
        } else {
            Err(Error::Protocol)
        }
    }

    /// True once the answer is complete and no further packet is expected.
    pub fn is_done(&self) -> (r: bool)
        ensures
            r == self@.done,
    {
        self.done
    }
}

/// Multi-packet reassembly: when a command's response arrives as any number
/// of packets under the command's id followed by the marker echo, the run of
/// collection steps consumes exactly those packets and answers with the
/// concatenation of their bodies in arrival order, appended to whatever the
/// collector already held.
pub proof fn lemma_multi_packet_reassembly(c: CollectorModel, bodies: Seq<Seq<char>>)
    requires
        c.multi,
        !c.done,
        c.cmd_id != c.marker_id,
    ensures
        spec_collect(
            c,
            bodies.map_values(|b: Seq<char>| (c.cmd_id, b)).push(
                (c.marker_id, Seq::<char>::empty()),
            ),
        ) == Ok::<Seq<char>, Error>(c.acc + bodies.flatten()),
    decreases bodies.len(),
{
    let packets = bodies.map_values(|b: Seq<char>| (c.cmd_id, b)).push(
        (c.marker_id, Seq::<char>::empty()),
    );
    if bodies.len() == 0 {
        assert(packets[0].0 == c.marker_id);
        assert(c.acc + bodies.flatten() =~= c.acc);
    } else {
        assert(packets[0] == (c.cmd_id, bodies[0]));
        let c2 = CollectorModel { acc: c.acc + bodies[0], ..c };
        lemma_multi_packet_reassembly(c2, bodies.drop_first());
        assert(packets.drop_first() =~= bodies.drop_first().map_values(
            |b: Seq<char>| (c.cmd_id, b),
        ).push((c.marker_id, Seq::<char>::empty())));
        assert(bodies.flatten() == bodies[0] + bodies.drop_first().flatten());
        assert(c.acc + bodies[0] + bodies.drop_first().flatten() =~= c.acc + bodies.flatten());
    }
}

/// Single-packet dialect: with multi-packet collection disabled, the run of
/// collection steps answers with the body of exactly the first packet read,
/// whatever its id, and reads no further.
pub proof fn lemma_single_packet_dialect(c: CollectorModel, packets: Seq<(i32, Seq<char>)>)
    requires
        !c.multi,
        !c.done,
        packets.len() >= 1,
    ensures
        spec_collect(c, packets) == Ok::<Seq<char>, Error>(packets[0].1),
{
}

/// Desynchronization detection: a packet whose id matches neither the
/// command nor the marker is a protocol violation, never a silent mismatch,
/// and leaves the collector unchanged.
pub proof fn lemma_desync_detection(c: CollectorModel, id: i32, body: Seq<char>)
    requires
        c.multi,
        !c.done,
        id != c.cmd_id,
        id != c.marker_id,
    ensures
        spec_absorb(c, id, body).1 == Err::<Option<Seq<char>>, Error>(Error::Protocol),
        spec_absorb(c, id, body).0 == c,
{
}

} // verus!
