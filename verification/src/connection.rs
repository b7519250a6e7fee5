//! The connection driver: one state machine that takes each incoming driver
//! message and routes it — a response resumes its waiter, a create or
//! dispose notification maintains the registry, anything else fans out to
//! subscribers. The loop around it, which reads frames and resumes futures,
//! lives outside the library and only performs what the outcome says.
use vstd::prelude::*;
use crate::codec::{obj_get, str_eq, json_clone, IncomingMessage, Request, ResponseOutcome};
use crate::json::JsonValue;
use crate::registry::{
    dispatched_all, has_guid, marked_guids, remove_marked, subs_wf, subtree_marks, wf, ObjectType,
    Registry, RegistryError,
};
use crate::rpc::{engine_wf, guid_listed, has_waiter, RpcEngine, Waiter};
use vstd::string::StringExecFns;

verus! {

broadcast use vstd::seq::group_seq_axioms, vstd::std_specs::vec::group_vec_axioms;

/// How a failure surfaces to the caller.
#[derive(Debug)]
pub enum Error {
    TransportClosed,
    ConnectionClosed,
    ObjectGone,
    ObjectDisposed,
    ErrorResponded(crate::codec::ErrorPayload),
    Serde,
    TimedOut,
    InitializationFailed,
}

/// Whether the connection still runs. A terminal failure or an explicit
/// close moves it to `Closed`, where it stays.
#[derive(Clone, Copy, PartialEq, Eq, Structural, Debug)]
pub enum ConnectionState {
    Running,
    Closed,
}

/// What one dispatched message did, and what the caller owes for it.
pub enum DispatchOutcome {
    /// A waiter was outstanding for the response's id: resume it with the
    /// outcome. The guid names the object the request was sent on.
    ResponseDelivered { guid: String, outcome: ResponseOutcome },
    /// No waiter for this id: the request was cancelled, the response is
    /// dropped.
    ResponseDropped,
    /// A create notification registered this new object.
    Created { guid: String },
    /// A dispose notification removed these objects; the returned waiters
    /// were parked on them and must be failed with `ObjectDisposed`.
    Disposed { removed: Vec<String>, failed: Vec<Waiter> },
    /// An event was fanned out to the object's subscribers.
    EventDelivered,
    /// An event or dispose named a guid that is not in the registry.
    UnknownObject,
    /// A malformed notification: a create with bad params, for a guid
    /// already taken, or under a missing parent.
    Rejected,
}

/// One connection: its state, object table and request correlation.
pub struct Connection {
    pub state: ConnectionState,
    pub registry: Registry,
    pub engine: RpcEngine,
}

/// The connection's invariant: both tables well formed.
pub open spec fn conn_wf(c: Connection) -> bool {
    &&& wf(c.registry.objects@)
    &&& subs_wf(c.registry.objects@)
    &&& engine_wf(c.engine)
}

/// The object kind a create notification's type name denotes.
pub open spec fn object_type_of(n: Seq<char>) -> ObjectType {
    if n == "Playwright"@ {
        ObjectType::Playwright
    } else if n == "Browser"@ {
        ObjectType::Browser
    } else if n == "BrowserType"@ {
        ObjectType::BrowserType
    } else if n == "BrowserContext"@ {
        ObjectType::BrowserContext
    } else if n == "Page"@ {
        ObjectType::Page
    } else if n == "Frame"@ {
        ObjectType::Frame
    } else if n == "ElementHandle"@ {
        ObjectType::ElementHandle
    } else if n == "JSHandle"@ {
        ObjectType::JsHandle
    } else if n == "Worker"@ {
        ObjectType::Worker
    } else if n == "Request"@ {
        ObjectType::Request
    } else if n == "Response"@ {
        ObjectType::Response
    } else if n == "Route"@ {
        ObjectType::Route
    } else if n == "ConsoleMessage"@ {
        ObjectType::ConsoleMessage
    } else if n == "Dialog"@ {
        ObjectType::Dialog
    } else if n == "Download"@ {
        ObjectType::Download
    } else if n == "Selectors"@ {
        ObjectType::Selectors
    } else if n == "BindingCall"@ {
        ObjectType::BindingCall
    } else if n == "Stream"@ {
        ObjectType::Stream
    } else if n == "CDPSession"@ {
        ObjectType::CdpSession
    } else if n == "Video"@ {
        ObjectType::Video
    } else if n == "Accessibility"@ {
        ObjectType::Accessibility
    } else {
        ObjectType::Other
    }
}

/// The `{type, guid, initializer}` fields of a create notification's
/// params, if they are well formed; a missing initializer reads as null.
pub open spec fn create_params_of(params: JsonValue) -> Option<(Seq<char>, Seq<char>, JsonValue)> {
    if params matches JsonValue::Obj(fv) {
        let fs = params->Obj_0@;
        let ty = obj_get(fs, "type"@);
        let g = obj_get(fs, "guid"@);
        let init = obj_get(fs, "initializer"@);
        if {
            &&& ty is Some && ty->Some_0 is Str
            &&& g is Some && g->Some_0 is Str && g->Some_0->Str_0@.len() > 0
        } {
            Option::Some(
                (
                    ty->Some_0->Str_0@,
                    g->Some_0->Str_0@,
                    if init is Some {
                        init->Some_0
                    } else {
                        JsonValue::Null
                    },
                ),
            )
        } else {
            Option::None
        }
    } else {
        Option::None
    }
}

/// The kind an exec type name maps to.
fn object_type_from(name: &str) -> (r: ObjectType)
    ensures
        r == object_type_of(name@),
{
    if str_eq(name, "Playwright") {
        ObjectType::Playwright
    } else if str_eq(name, "Browser") {
        ObjectType::Browser
    } else if str_eq(name, "BrowserType") {
        ObjectType::BrowserType
    } else if str_eq(name, "BrowserContext") {
        ObjectType::BrowserContext
    } else if str_eq(name, "Page") {
        ObjectType::Page
    } else if str_eq(name, "Frame") {
        ObjectType::Frame
    } else if str_eq(name, "ElementHandle") {
        ObjectType::ElementHandle
    } else if str_eq(name, "JSHandle") {
        ObjectType::JsHandle
    } else if str_eq(name, "Worker") {
        ObjectType::Worker
    } else if str_eq(name, "Request") {
        ObjectType::Request
    } else if str_eq(name, "Response") {
        ObjectType::Response
    } else if str_eq(name, "Route") {
        ObjectType::Route
    } else if str_eq(name, "ConsoleMessage") {
        ObjectType::ConsoleMessage
    } else if str_eq(name, "Dialog") {
        ObjectType::Dialog
    } else if str_eq(name, "Download") {
        ObjectType::Download
    } else if str_eq(name, "Selectors") {
        ObjectType::Selectors
    } else if str_eq(name, "BindingCall") {
        ObjectType::BindingCall
    } else if str_eq(name, "Stream") {
        ObjectType::Stream
    } else if str_eq(name, "CDPSession") {
        ObjectType::CdpSession
    } else if str_eq(name, "Video") {
        ObjectType::Video
    } else if str_eq(name, "Accessibility") {
        ObjectType::Accessibility
    } else {
        ObjectType::Other
    }
}

/// Everything a successful dispose leaves behind: the registry has shed
/// exactly the marked subtree, the removed guids are reported in table
/// order, and the waiter table has been split so that precisely the
/// waiters parked on removed guids came back to be failed.
#[verifier::opaque]
pub open spec fn disposed_post(
    c0: Connection,
    c1: Connection,
    g: Seq<char>,
    removed: Seq<String>,
    failed: Seq<Waiter>,
) -> bool {
    &&& g.len() > 0
    &&& has_guid(c0.registry.objects@, g)
    &&& c1.registry.objects@ == remove_marked(
        c0.registry.objects@,
        subtree_marks(c0.registry.objects@, g),
    )
    &&& removed.len() == marked_guids(
        c0.registry.objects@,
        subtree_marks(c0.registry.objects@, g),
    ).len()
    &&& (forall|k: int|
        0 <= k < removed.len() ==> #[trigger] removed[k]@ == marked_guids(
            c0.registry.objects@,
            subtree_marks(c0.registry.objects@, g),
        )[k])
    &&& (forall|t: int|
        0 <= t < failed.len() ==> guid_listed(removed, (#[trigger] failed[t]).guid@))
    &&& (forall|t: int|
        0 <= t < c1.engine.waiters@.len() ==> !guid_listed(
            removed,
            (#[trigger] c1.engine.waiters@[t]).guid@,
        ))
    &&& (forall|id: u32|
        has_waiter(c0.engine.waiters@, id) ==> has_waiter(c1.engine.waiters@, id) || has_waiter(
            failed,
            id,
        ))
    &&& (forall|t: int|
        0 <= t < c0.engine.waiters@.len() && guid_listed(
            removed,
            (#[trigger] c0.engine.waiters@[t]).guid@,
        ) ==> exists|z: int| 0 <= z < failed.len() && failed[z] == c0.engine.waiters@[t])
}

impl Connection {
    /// A fresh running connection: only the root object, no waiter, first
    /// request id 1.
    pub fn new() -> (r: Connection)
        ensures
            conn_wf(r),
            r.state == ConnectionState::Running,
            r.registry.objects@.len() == 1,
            r.engine.waiters@.len() == 0,
            r.engine.next_id == 1,
    {
        Connection { state: ConnectionState::Running, registry: Registry::new(), engine: RpcEngine::new() }
    }

    /// Builds the next outgoing request on the object carrying `guid` and
    /// parks its waiter: the id is the next one in sequence, never reused.
    /// Refused when the connection is closed (`ConnectionClosed`) or the
    /// object is gone (`ObjectGone`).
    pub fn send_request(&mut self, guid: &str, method: &str, params: JsonValue) -> (r: Result<
        Request,
        Error,
    >)
        requires
            conn_wf(*old(self)),
            old(self).engine.next_id < u32::MAX,
        ensures
            conn_wf(*final(self)),
            final(self).state == old(self).state,
            final(self).registry.objects@ == old(self).registry.objects@,
            match r {
                Ok(req) => {
                    &&& old(self).state == ConnectionState::Running
                    &&& has_guid(old(self).registry.objects@, guid@)
                    &&& req.id == old(self).engine.next_id
                    &&& req.guid@ == guid@
                    &&& req.method@ == method@
                    &&& req.params == params
                    &&& final(self).engine.next_id == old(self).engine.next_id + 1
                    &&& final(self).engine.issued@ == old(self).engine.issued@.push(req.id)
                    &&& final(self).engine.waiters@.len() == old(self).engine.waiters@.len() + 1
                    &&& final(self).engine.waiters@.drop_last() == old(self).engine.waiters@
                    &&& final(self).engine.waiters@.last().id == req.id
                    &&& final(self).engine.waiters@.last().guid@ == guid@
                    &&& !has_waiter(old(self).engine.waiters@, req.id)
                },
                Err(Error::ConnectionClosed) => {
                    &&& old(self).state == ConnectionState::Closed
                    &&& final(self).engine == old(self).engine
                },
                Err(Error::ObjectGone) => {
                    &&& old(self).state == ConnectionState::Running
                    &&& !has_guid(old(self).registry.objects@, guid@)
                    &&& final(self).engine == old(self).engine
                },
                Err(_) => false,
            },
    {
        if matches!(self.state, ConnectionState::Closed) {
            return Err(Error::ConnectionClosed);
        }
        match self.registry.lookup(guid) {
            Some(_) => {},
            None => {
                return Err(Error::ObjectGone);
            },
        }
        proof {
            assert(has_guid(self.registry.objects@, guid@));
        }
        let id = match self.engine.register(guid) {
            Some(id) => id,
            None => {
                // Unreachable: registration fails only at the id-space
                // limit, which the precondition rules out.
                proof {
                    assert(false);
                }
                return Err(Error::ConnectionClosed);
            },
        };
        Ok(Request { id, guid: guid.to_owned(), method: method.to_owned(), params })
    }

    /// Handles one create notification: the params must carry a type, a
    /// nonempty guid and an optional initializer, the guid must be fresh
    /// and the parent — the object the event arrived on — live. Exactly
    /// otherwise the notification is rejected, registry untouched.
    fn on_create(&mut self, parent: &str, params: &JsonValue) -> (r: DispatchOutcome)
        requires
            conn_wf(*old(self)),
        ensures
            conn_wf(*final(self)),
            final(self).state == old(self).state,
            final(self).engine == old(self).engine,
            match r {
                DispatchOutcome::Created { guid: made } => {
                    &&& create_params_of(*params) matches Option::Some(p)
                    &&& made@ == p.1
                    &&& !has_guid(old(self).registry.objects@, p.1)
                    &&& has_guid(old(self).registry.objects@, parent@)
                    &&& final(self).registry.objects@.len() == old(self).registry.objects@.len()
                        + 1
                    &&& final(self).registry.objects@.drop_last() == old(self).registry.objects@
                    &&& final(self).registry.objects@.last().guid@ == p.1
                    &&& final(self).registry.objects@.last().kind == object_type_of(p.0)
                    &&& final(self).registry.objects@.last().parent@ == parent@
                },
                DispatchOutcome::Rejected => {
                    &&& final(self).registry.objects@ == old(self).registry.objects@
                    &&& {
                        ||| create_params_of(*params) is None
                        ||| has_guid(
                            old(self).registry.objects@,
                            create_params_of(*params)->Some_0.1,
                        )
                        ||| !has_guid(old(self).registry.objects@, parent@)
                    }
                },
                _ => false,
            },
    {
        let fs = match params {
            JsonValue::Obj(fs) => fs,
            _ => {
                return DispatchOutcome::Rejected;
            },
        };
        let ty_name: String = match crate::codec::obj_find(fs, "type") {
            Some(i) => {
                match &fs[i].1 {
                    JsonValue::Str(s) => s.clone(),
                    _ => {
                        return DispatchOutcome::Rejected;
                    },
                }
            },
            None => {
                return DispatchOutcome::Rejected;
            },
        };
        let new_guid: String = match crate::codec::obj_find(fs, "guid") {
            Some(i) => {
                match &fs[i].1 {
                    JsonValue::Str(s) => s.clone(),
                    _ => {
                        return DispatchOutcome::Rejected;
                    },
                }
            },
            None => {
                return DispatchOutcome::Rejected;
            },
        };
        if new_guid.as_str().unicode_len() == 0 {
            return DispatchOutcome::Rejected;
        }
        let init: JsonValue = match crate::codec::obj_find(fs, "initializer") {
            Some(i) => json_clone(&fs[i].1),
            None => JsonValue::Null,
        };
        let kind = object_type_from(ty_name.as_str());
        match self.registry.create(parent, kind, new_guid.as_str(), init) {
            Ok(()) => DispatchOutcome::Created { guid: new_guid },
            Err(_) => DispatchOutcome::Rejected,
        }
    }

    /// Handles one dispose notification: the named object's subtree leaves
    /// the registry, and every waiter parked on a removed guid comes back to
    /// be failed. An unknown guid is reported; the root is refused.
    #[verifier::spinoff_prover]
    #[verifier::rlimit(100)]
    fn on_dispose(&mut self, guid: &str) -> (r: DispatchOutcome)
        requires
            conn_wf(*old(self)),
        ensures
            conn_wf(*final(self)),
            final(self).state == old(self).state,
            final(self).engine.next_id == old(self).engine.next_id,
            final(self).engine.issued@ == old(self).engine.issued@,
            match r {
                DispatchOutcome::Disposed { removed, failed } => disposed_post(
                    *old(self),
                    *final(self),
                    guid@,
                    removed@,
                    failed@,
                ),
                DispatchOutcome::UnknownObject => {
                    &&& !has_guid(old(self).registry.objects@, guid@)
                    &&& final(self).registry.objects@ == old(self).registry.objects@
                    &&& final(self).engine.waiters@ == old(self).engine.waiters@
                },
                DispatchOutcome::Rejected => {
                    &&& guid@.len() == 0
                    &&& final(self).registry.objects@ == old(self).registry.objects@
                    &&& final(self).engine.waiters@ == old(self).engine.waiters@
                },
                _ => false,
            },
    {
        match self.registry.dispose(guid) {
            Ok(removed) => {
                let ghost eng0 = self.engine;
                let failed = self.engine.take_by_guids(&removed);
                proof {
                    assert(eng0 == old(self).engine);
                    assert forall|t: int|
                        0 <= t < old(self).engine.waiters@.len() && guid_listed(
                            removed@,
                            (#[trigger] old(self).engine.waiters@[t]).guid@,
                        ) implies exists|z: int|
                        0 <= z < failed@.len() && failed@[z] == old(self).engine.waiters@[t] by {
                        assert(eng0.waiters@[t] == old(self).engine.waiters@[t]);
                        let z = choose|z: int|
                            0 <= z < failed@.len() && failed@[z] == eng0.waiters@[t];
                        assert(failed@[z] == old(self).engine.waiters@[t]);
                    }
                    assert(disposed_post(*old(self), *self, guid@, removed@, failed@)) by {
                        reveal(disposed_post);
                    }
                }
                DispatchOutcome::Disposed { removed, failed }
            },
            Err(RegistryError::NotFound) => DispatchOutcome::UnknownObject,
            Err(_) => DispatchOutcome::Rejected,
        }
    }

    /// Routes one incoming message. A response takes its waiter out of the
    /// table, so each waiter is resumed at most once; a create notification
    /// registers the object under its parent; a dispose notification drops
    /// the whole subtree and hands back the waiters that were parked on it;
    /// any other event goes to the subscribers of its object.
    #[verifier::spinoff_prover]
    #[verifier::rlimit(100)]
    pub fn dispatch(&mut self, msg: IncomingMessage) -> (r: DispatchOutcome)
        requires
            conn_wf(*old(self)),
        ensures
            conn_wf(*final(self)),
            final(self).state == old(self).state,
            final(self).engine.next_id == old(self).engine.next_id,
            final(self).engine.issued@ == old(self).engine.issued@,
            match msg {
                IncomingMessage::Response { id, outcome } => {
                    &&& final(self).registry.objects@ == old(self).registry.objects@
                    &&& !has_waiter(final(self).engine.waiters@, id)
                    &&& match r {
                        DispatchOutcome::ResponseDelivered { guid, outcome: out } => {
                            &&& has_waiter(old(self).engine.waiters@, id)
                            &&& out == outcome
                            &&& (exists|k: int|
                                {
                                    &&& 0 <= k < old(self).engine.waiters@.len()
                                    &&& (#[trigger] old(self).engine.waiters@[k]).id == id
                                    &&& guid@ == old(self).engine.waiters@[k].guid@
                                    &&& final(self).engine.waiters@ == old(
                                        self,
                                    ).engine.waiters@.remove(k)
                                })
                        },
                        DispatchOutcome::ResponseDropped => {
                            &&& !has_waiter(old(self).engine.waiters@, id)
                            &&& final(self).engine.waiters@ == old(self).engine.waiters@
                        },
                        _ => false,
                    }
                },
                IncomingMessage::Event { guid, method, params } => {
                    &&& final(self).engine.waiters@ == old(self).engine.waiters@ || method@
                        == "__dispose__"@
                    &&& if method@ == "__create__"@ {
                        match r {
                            DispatchOutcome::Created { guid: made } => {
                                &&& create_params_of(params) matches Option::Some(p)
                                &&& made@ == p.1
                                &&& !has_guid(old(self).registry.objects@, p.1)
                                &&& has_guid(old(self).registry.objects@, guid@)
                                &&& final(self).registry.objects@.len() == old(
                                    self,
                                ).registry.objects@.len() + 1
                                &&& final(self).registry.objects@.drop_last() == old(
                                    self,
                                ).registry.objects@
                                &&& final(self).registry.objects@.last().guid@ == p.1
                                &&& final(self).registry.objects@.last().kind == object_type_of(
                                    p.0,
                                )
                                &&& final(self).registry.objects@.last().parent@ == guid@
                            },
                            DispatchOutcome::Rejected => {
                                &&& final(self).registry.objects@ == old(self).registry.objects@
                                &&& {
                                    ||| create_params_of(params) is None
                                    ||| has_guid(
                                        old(self).registry.objects@,
                                        create_params_of(params)->Some_0.1,
                                    )
                                    ||| !has_guid(old(self).registry.objects@, guid@)
                                }
                            },
                            _ => false,
                        }
                    } else if method@ == "__dispose__"@ {
                        match r {
                            DispatchOutcome::Disposed { removed, failed } => disposed_post(
                                *old(self),
                                *final(self),
                                guid@,
                                removed@,
                                failed@,
                            ),
                            DispatchOutcome::UnknownObject => {
                                &&& !has_guid(old(self).registry.objects@, guid@)
                                &&& final(self).registry.objects@ == old(self).registry.objects@
                                &&& final(self).engine.waiters@ == old(self).engine.waiters@
                            },
                            DispatchOutcome::Rejected => {
                                &&& guid@.len() == 0
                                &&& final(self).registry.objects@ == old(self).registry.objects@
                                &&& final(self).engine.waiters@ == old(self).engine.waiters@
                            },
                            _ => false,
                        }
                    } else {
                        match r {
                            DispatchOutcome::EventDelivered => {
                                &&& has_guid(old(self).registry.objects@, guid@)
                                &&& dispatched_all(
                                    old(self).registry.objects@,
                                    final(self).registry.objects@,
                                    guid@,
                                    method@,
                                    params,
                                )
                            },
                            DispatchOutcome::UnknownObject => {
                                &&& !has_guid(old(self).registry.objects@, guid@)
                                &&& final(self).registry.objects@ == old(self).registry.objects@
                            },
                            _ => false,
                        }
                    }
                },
            },
    {
        match msg {
            IncomingMessage::Response { id, outcome } => {
                match self.engine.take_waiter(id) {
                    Some(guid) => DispatchOutcome::ResponseDelivered { guid, outcome },
                    None => DispatchOutcome::ResponseDropped,
                }
            },
            IncomingMessage::Event { guid, method, params } => {
                if str_eq(method.as_str(), "__create__") {
                    self.on_create(guid.as_str(), &params)
                } else if str_eq(method.as_str(), "__dispose__") {
                    self.on_dispose(guid.as_str())
                } else {
                    if self.registry.dispatch_event(guid.as_str(), method.as_str(), &params) {
                        DispatchOutcome::EventDelivered
                    } else {
                        DispatchOutcome::UnknownObject
                    }
                }
            },
        }
    }

    /// Closes the connection and hands back every outstanding waiter, to be
    /// failed with `ConnectionClosed`. Closing an already-closed connection
    /// succeeds and returns nothing.
    pub fn close(&mut self) -> (r: Vec<Waiter>)
        requires
            conn_wf(*old(self)),
        ensures
            conn_wf(*final(self)),
            final(self).state == ConnectionState::Closed,
            final(self).registry.objects@ == old(self).registry.objects@,
            final(self).engine.waiters@.len() == 0,
            r@ == old(self).engine.waiters@,
    {
        self.state = ConnectionState::Closed;
        self.engine.take_all()
    }
}

} // verus!
