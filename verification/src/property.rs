//! The fallback transport over windowing-system property-change
//! notifications, as a protocol state machine.
//!
//! The caller owns the windowing connection and performs every call on
//! it; this module decides what to ask for next and how to interpret
//! what came back.  Connection establishment is a sequence of typestate
//! values ([`Discovery`] → [`DiscoveryWithServer`] → [`DiscoveryReady`] →
//! [`Discovered`] → [`Session`]): the portal window is created only once
//! discovery has fully succeeded, so a failed discovery never leaves a
//! portal window allocated.  Each request is then driven by a
//! [`PropertyEval`] machine that hands out [`PropCmd`]s.

use vstd::prelude::*;

use crate::codec;
use crate::error::ConnError;
use crate::error::EvalError;

verus! {

/// Version constant carried in the request message sent to the server.
pub const PROTOCOL_X11_VERSION: u32 = 1;

/// The predefined atom for cardinal (32-bit integer) property values.
pub const ATOM_CARDINAL: u32 = 6;

/// The predefined atom for string property values.
pub const ATOM_STRING: u32 = 31;

/// The bit-format of a property holding window identifiers.
pub const WINDOW_FORMAT: u8 = 32;

/// The window length (in 32-bit units) of the first incremental read of
/// a response property.
pub const INITIAL_LONG_LENGTH: u32 = 16;

/// Name of the root-window property (and atom) under which a running
/// server advertises its request window.  It is interned without
/// creating, so its absence means no server is listening.
pub fn request_win_atom_name() -> (r: &'static str)
    ensures
        r@ == "_SAWFISH_REQUEST_WIN"@,
{
    "_SAWFISH_REQUEST_WIN"
}

/// Name of the communication-property atom used for the per-session data
/// exchange on the portal window.  It is interned creating it if needed.
pub fn request_atom_name() -> (r: &'static str)
    ensures
        r@ == "_SAWFISH_REQUEST"@,
{
    "_SAWFISH_REQUEST"
}

/// Connection establishment, first stage: the screen has been resolved
/// to its root window.
#[derive(Clone, Copy)]
pub struct Discovery {
    /// The root window of the chosen screen.
    pub root: u32,
}

/// Second stage: the discovery atom exists, so a server may be present.
#[derive(Clone, Copy)]
pub struct DiscoveryWithServer {
    /// The root window of the chosen screen.
    pub root: u32,
    /// The atom naming the discovery property on the root window.
    pub req_win_atom: u32,
}

/// Third stage: the communication-property atom has been interned; the
/// discovery property can now be read off the root window.
#[derive(Clone, Copy)]
pub struct DiscoveryReady {
    /// The root window of the chosen screen.
    pub root: u32,
    /// The atom naming the discovery property on the root window.
    pub req_win_atom: u32,
    /// The atom naming the communication property.
    pub property: u32,
}

/// Final discovery stage: the server's request window is known.  No
/// portal window exists yet; [`Discovered::with_portal`] turns this into
/// a [`Session`] once the caller has created one.
#[derive(Clone, Copy)]
pub struct Discovered {
    /// The server's request window, read from the discovery property.
    pub req_win: u32,
    /// The atom naming the communication property.
    pub property: u32,
}

/// An established property-protocol session.
#[derive(Clone, Copy)]
pub struct Session {
    /// The server's request window.
    pub req_win: u32,
    /// The private portal window owned by this session.
    pub portal: u32,
    /// The atom naming the communication property.
    pub property: u32,
}

/// Resolves the screen number to its root window: the screen must be an
/// index into the connection's list of roots.
pub fn begin_discovery(roots: &Vec<u32>, screen: i32) -> (r: Result<Discovery, ConnError>)
    ensures
        0 <= screen && screen < roots@.len() ==> r == Ok::<Discovery, ConnError>(
            Discovery { root: roots@[screen as int] },
        ),
        !(0 <= screen && screen < roots@.len()) ==> r == Err::<Discovery, ConnError>(
            ConnError::BadScreen(screen),
        ),
{
    if 0 <= screen && (screen as usize) < roots.len() {
        Ok(Discovery { root: roots[screen as usize] })
    } else {
        Err(ConnError::BadScreen(screen))
    }
}

impl Discovery {
    /// Takes the interned discovery atom.  An atom of zero means the
    /// atom does not exist, hence no compatible server is listening.
    pub fn server_atom(self, atom: u32) -> (r: Result<DiscoveryWithServer, ConnError>)
        ensures
            atom != 0 ==> r == Ok::<DiscoveryWithServer, ConnError>(
                DiscoveryWithServer { root: self.root, req_win_atom: atom },
            ),
            atom == 0 ==> r == Err::<DiscoveryWithServer, ConnError>(ConnError::ServerNotFound),
    {
        if atom == 0 {
            Err(ConnError::ServerNotFound)
        } else {
            Ok(DiscoveryWithServer { root: self.root, req_win_atom: atom })
        }
    }
}

impl DiscoveryWithServer {
    /// Takes the interned communication-property atom.
    pub fn comm_atom(self, atom: u32) -> (r: DiscoveryReady)
        ensures
            r == (DiscoveryReady {
                root: self.root,
                req_win_atom: self.req_win_atom,
                property: atom,
            }),
    {
        DiscoveryReady { root: self.root, req_win_atom: self.req_win_atom, property: atom }
    }
}

impl DiscoveryReady {
    /// Validates the discovery property read off the root window.  The
    /// property must hold exactly one cardinal in window format; its
    /// value is the server's request window.  Anything else means no
    /// compatible server is present.
    pub fn request_win_property(
        self,
        typ: u32,
        format: u8,
        length: u32,
        value: &Vec<u32>,
    ) -> (r: Result<Discovered, ConnError>)
        ensures
            typ == ATOM_CARDINAL && format == WINDOW_FORMAT && length == 1 && value@.len() == 1
                ==> r == Ok::<Discovered, ConnError>(
                Discovered { req_win: value@[0], property: self.property },
            ),
            !(typ == ATOM_CARDINAL && format == WINDOW_FORMAT && length == 1 && value@.len() == 1)
                ==> r == Err::<Discovered, ConnError>(ConnError::ServerNotFound),
    {
        if typ == ATOM_CARDINAL && format == WINDOW_FORMAT && length == 1 && value.len() == 1 {
            Ok(Discovered { req_win: value[0], property: self.property })
        } else {
            Err(ConnError::ServerNotFound)
        }
    }
}

impl Discovered {
    /// Completes connection establishment with the portal window the
    /// caller has created.  The portal is the session's own: destroying
    /// the session must destroy it again.
    pub fn with_portal(self, portal: u32) -> (r: Session)
        ensures
            r == (Session { req_win: self.req_win, portal, property: self.property }),
    {
        Session { req_win: self.req_win, portal, property: self.property }
    }
}

impl Session {
    /// Ends the session: the returned window is the portal the caller
    /// must destroy.  It is exactly the one the session was created
    /// with, so a session never leaks or destroys any other window.
    pub fn close(self) -> (w: u32)
        ensures
            w == self.portal,
    {
        self.portal
    }
}

/// The phases of one request on an established session.
pub enum Phase {
    /// The form is being written into the communication property.
    SetProperty,
    /// Waiting for the property-change notification caused by our own
    /// write, which must be consumed and discarded.
    SwallowNotify,
    /// The request message is being sent to the server's window.
    SendRequest,
    /// Fire-and-forget only: the connection is being flushed.
    Flushing,
    /// Waiting for the property-change notification announcing the
    /// server's reply.
    AwaitReply,
    /// The reply property is being read, `long_length` 32-bit units at a
    /// time.
    ReadReply { long_length: u32 },
    /// The request is over.
    Done,
}

/// What the caller must do next to drive a [`PropertyEval`].
pub enum PropCmd {
    /// Replace the given property on the given window with `data`, typed
    /// with the atom `typ`, then call [`PropertyEval::property_set`].
    ChangeProperty { window: u32, property: u32, typ: u32, data: Vec<u8> },
    /// Wait for the next windowing event; on a property-change
    /// notification call [`PropertyEval::notify`] with its window and
    /// atom (other events are not for this machine and are dropped).
    AwaitNotify,
    /// Send the request message to `window`: the protocol version, the
    /// portal window, the communication atom and the synchronicity flag,
    /// carried on the atom `atom`.  Then call
    /// [`PropertyEval::message_sent`].
    SendMessage { window: u32, atom: u32, version: u32, portal: u32, property: u32, sync: u32 },
    /// Flush the connection, then call [`PropertyEval::flushed`].
    Flush,
    /// Read the given property — `long_length` 32-bit units from offset
    /// `long_offset`, expecting type `typ` — and hand the reply to
    /// [`PropertyEval::property_data`].
    GetProperty { window: u32, property: u32, typ: u32, long_offset: u32, long_length: u32 },
    /// The request is finished with this outcome.
    Finish(Result<crate::EvalResponse, EvalError>),
}

/// One request being evaluated over the property protocol.
pub struct PropertyEval {
    /// The server's request window.
    pub req_win: u32,
    /// The session's portal window.
    pub portal: u32,
    /// The atom naming the communication property.
    pub property: u32,
    /// Whether the request is fire-and-forget.
    pub is_async: bool,
    /// Where in the request this machine stands.
    pub phase: Phase,
}

/// The read window used for the next incremental read when `bytes_after`
/// bytes of the reply property are still unread: it grows by a quarter
/// of the remainder (in 32-bit units) plus one, capped at the largest
/// representable window.
pub open spec fn spec_grown_length(long_length: u32, bytes_after: u32) -> u32 {
    if long_length + bytes_after / 4 + 1 <= u32::MAX {
        (long_length + bytes_after / 4 + 1) as u32
    } else {
        u32::MAX
    }
}

/// Model of what a read of the reply property returns when the property
/// holds `value`: the first `4 * long_length` bytes (or all of `value`
/// if it is shorter), together with the number of bytes left unread.
pub open spec fn spec_property_reply(value: Seq<u8>, long_length: u32) -> (Seq<u8>, u32)
    recommends
        value.len() <= u32::MAX,
{
    let cap = 4 * (long_length as int);
    if value.len() <= cap {
        (value, 0u32)
    } else {
        (value.take(cap), (value.len() - cap) as u32)
    }
}

/// Law: the incremental read completes after one enlarged read.  If a
/// read with some window leaves `bytes_after > 0` bytes unread, then the
/// re-issued read with the grown window retrieves the entire property
/// value in one reply — complete, with no truncation and no bytes left
/// over.
pub proof fn lemma_incremental_read_completes(value: Seq<u8>, long_length: u32)
    requires
        value.len() <= u32::MAX,
    ensures
        ({
            let (data, after) = spec_property_reply(value, long_length);
            after > 0 ==> spec_property_reply(value, spec_grown_length(long_length, after)) == (
                value,
                0u32,
            )
        }),
{
    let (data, after) = spec_property_reply(value, long_length);
    if after > 0 {
        vstd::arithmetic::div_mod::lemma_fundamental_div_mod(after as int, 4);
        assert(4 * (after as int) / 4 >= 0);
        let grown = spec_grown_length(long_length, after);
        assert(4 * (grown as int) > value.len());
        assert(spec_property_reply(value, grown) == (value, 0u32));
    }
}

impl PropertyEval {
    /// Starts one request on the session: the first command writes the
    /// form into the communication property on the portal window.
    pub fn begin(session: &Session, form: &[u8], is_async: bool) -> (r: (PropertyEval, PropCmd))
        ensures
            r.0 == (PropertyEval {
                req_win: session.req_win,
                portal: session.portal,
                property: session.property,
                is_async,
                phase: Phase::SetProperty,
            }),
            r.1 matches PropCmd::ChangeProperty { window, property, typ, data } && window
                == session.portal && property == session.property && typ == ATOM_STRING && data@
                == form@,
    {
        let machine = PropertyEval {
            req_win: session.req_win,
            portal: session.portal,
            property: session.property,
            is_async,
            phase: Phase::SetProperty,
        };
        let cmd = PropCmd::ChangeProperty {
            window: session.portal,
            property: session.property,
            typ: ATOM_STRING,
            data: vstd::slice::slice_to_vec(form),
        };
        (machine, cmd)
    }

    /// The caller reports that the property write went through.  Next
    /// comes the notification caused by that very write, which must be
    /// consumed before the server is asked anything.
    pub fn property_set(self) -> (r: (PropertyEval, PropCmd))
        requires
            self.phase is SetProperty,
        ensures
            r.0 == (PropertyEval { phase: Phase::SwallowNotify, ..self }),
            r.1 == PropCmd::AwaitNotify,
    {
        (PropertyEval { phase: Phase::SwallowNotify, ..self }, PropCmd::AwaitNotify)
    }

    /// The caller reports a property-change notification for `window`
    /// and `atom`.  Notifications that are not for this session's portal
    /// window and communication property are ignored and waiting
    /// continues.  The session's own echo advances to sending the
    /// request message; the server's reply notification starts the
    /// incremental read with the initial window.
    pub fn notify(self, window: u32, atom: u32) -> (r: (PropertyEval, PropCmd))
        requires
            self.phase is SwallowNotify || self.phase is AwaitReply,
        ensures
            !(window == self.portal && atom == self.property) ==> r.0 == self && r.1
                == PropCmd::AwaitNotify,
            window == self.portal && atom == self.property && self.phase is SwallowNotify ==> {
                &&& r.0 == (PropertyEval { phase: Phase::SendRequest, ..self })
                &&& r.1 == (PropCmd::SendMessage {
                    window: self.req_win,
                    atom: self.property,
                    version: PROTOCOL_X11_VERSION,
                    portal: self.portal,
                    property: self.property,
                    sync: if self.is_async {
                        0u32
                    } else {
                        1u32
                    },
                })
            },
            window == self.portal && atom == self.property && self.phase is AwaitReply ==> {
                &&& r.0 == (PropertyEval {
                    phase: Phase::ReadReply { long_length: INITIAL_LONG_LENGTH },
                    ..self
                })
                &&& r.1 == (PropCmd::GetProperty {
                    window: self.portal,
                    property: self.property,
                    typ: ATOM_STRING,
                    long_offset: 0,
                    long_length: INITIAL_LONG_LENGTH,
                })
            },
    {
        if !(window == self.portal && atom == self.property) {
            (self, PropCmd::AwaitNotify)
        } else {
            match self.phase {
                Phase::SwallowNotify => {
                    let sync: u32 = if self.is_async {
                        0
                    } else {
                        1
                    };
                    let cmd = PropCmd::SendMessage {
                        window: self.req_win,
                        atom: self.property,
                        version: PROTOCOL_X11_VERSION,
                        portal: self.portal,
                        property: self.property,
                        sync,
                    };
                    (PropertyEval { phase: Phase::SendRequest, ..self }, cmd)
                },
                _ => {
                    let cmd = PropCmd::GetProperty {
                        window: self.portal,
                        property: self.property,
                        typ: ATOM_STRING,
                        long_offset: 0,
                        long_length: INITIAL_LONG_LENGTH,
                    };
                    (
                        PropertyEval {
                            phase: Phase::ReadReply { long_length: INITIAL_LONG_LENGTH },
                            ..self
                        },
                        cmd,
                    )
                },
            }
        }
    }

    /// The caller reports that the request message reached the server.
    ///
    /// Law: a fire-and-forget request never waits for a reply — it only
    /// flushes and finishes; a synchronous request waits for the reply
    /// notification.
    pub fn message_sent(self) -> (r: (PropertyEval, PropCmd))
        requires
            self.phase is SendRequest,
        ensures
            self.is_async ==> r.0 == (PropertyEval { phase: Phase::Flushing, ..self }) && r.1
                == PropCmd::Flush,
            !self.is_async ==> r.0 == (PropertyEval { phase: Phase::AwaitReply, ..self }) && r.1
                == PropCmd::AwaitNotify,
    {
        if self.is_async {
            (PropertyEval { phase: Phase::Flushing, ..self }, PropCmd::Flush)
        } else {
            (PropertyEval { phase: Phase::AwaitReply, ..self }, PropCmd::AwaitNotify)
        }
    }

    /// The caller reports that the flush went through: a fire-and-forget
    /// request finishes with the empty success response.
    pub fn flushed(self) -> (r: (PropertyEval, PropCmd))
        requires
            self.phase is Flushing,
        ensures
            r.0 == (PropertyEval { phase: Phase::Done, ..self }),
            r.1 matches PropCmd::Finish(Ok(Ok(d))) && d@ == Seq::<u8>::empty(),
    {
        (PropertyEval { phase: Phase::Done, ..self }, PropCmd::Finish(Ok(Ok(Vec::new()))))
    }

    /// The caller hands over one reply of the incremental property read.
    ///
    /// A reply of unexpected type or bit-format is a protocol mismatch
    /// and fails the request.  A reply with bytes left over re-issues
    /// the read with the grown window.  A complete reply of length zero
    /// means the response is absent; otherwise its first byte is the
    /// status byte and the rest is the payload, kept byte for byte.
    pub fn property_data(self, typ: u32, format: u8, bytes_after: u32, data: Vec<u8>) -> (r: (
        PropertyEval,
        PropCmd,
    ))
        requires
            self.phase matches Phase::ReadReply { .. },
        ensures
            typ != ATOM_STRING || format != 8 ==> r.0 == (PropertyEval {
                phase: Phase::Done,
                ..self
            }) && r.1 == PropCmd::Finish(
                Err(
                    EvalError::BadResponse {
                        window: self.portal,
                        atom: self.property,
                        typ,
                        format,
                    },
                ),
            ),
            typ == ATOM_STRING && format == 8 && bytes_after > 0 ==> {
                let grown = spec_grown_length(self.phase->ReadReply_long_length, bytes_after);
                &&& r.0 == (PropertyEval { phase: Phase::ReadReply { long_length: grown }, ..self })
                &&& r.1 == (PropCmd::GetProperty {
                    window: self.portal,
                    property: self.property,
                    typ: ATOM_STRING,
                    long_offset: 0,
                    long_length: grown,
                })
            },
            typ == ATOM_STRING && format == 8 && bytes_after == 0 && data@.len() == 0 ==> r.0 == (
            PropertyEval { phase: Phase::Done, ..self }) && r.1 == PropCmd::Finish(
                Err(EvalError::NoResponse),
            ),
            typ == ATOM_STRING && format == 8 && bytes_after == 0 && data@.len() > 0 ==> r.0 == (
            PropertyEval { phase: Phase::Done, ..self }) && (r.1 matches PropCmd::Finish(Ok(resp))
                && codec::view_response(resp) == codec::spec_eval_response(
                data@[0],
                data@.skip(1),
            )),
    {
        if typ != ATOM_STRING || format != 8 {
            let err = EvalError::BadResponse {
                window: self.portal,
                atom: self.property,
                typ,
                format,
            };
            (PropertyEval { phase: Phase::Done, ..self }, PropCmd::Finish(Err(err)))
        } else if bytes_after > 0 {
            let long_length = match self.phase {
                Phase::ReadReply { long_length } => long_length,
                _ => 0,
            };
            let inc = bytes_after / 4 + 1;
            let grown: u32 = if long_length <= u32::MAX - inc {
                long_length + inc
            } else {
                u32::MAX
            };
            let cmd = PropCmd::GetProperty {
                window: self.portal,
                property: self.property,
                typ: ATOM_STRING,
                long_offset: 0,
                long_length: grown,
            };
            (PropertyEval { phase: Phase::ReadReply { long_length: grown }, ..self }, cmd)
        } else if data.len() == 0 {
            (PropertyEval { phase: Phase::Done, ..self }, PropCmd::Finish(Err(EvalError::NoResponse)))
        } else {
            let status = *vstd::slice::slice_index_get(data.as_slice(), 0);
            let payload = vstd::slice::slice_to_vec(
                vstd::slice::slice_subrange(data.as_slice(), 1, data.len()),
            );
            let resp = codec::finish_response(status, payload);
            proof {
                assert(data@.subrange(1, data@.len() as int) =~= data@.skip(1));
            }
            (PropertyEval { phase: Phase::Done, ..self }, PropCmd::Finish(Ok(resp)))
        }
    }
}

} // verus!
