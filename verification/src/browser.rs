//! The browser object kernel: built from a create notification's
//! initializer, it tracks its contexts and prepares its own protocol
//! requests. The transport work around each request stays outside; the
//! decisions — what is sent, how responses and driver errors are read —
//! are all here.
use vstd::prelude::*;
use crate::codec::{obj_find, obj_get, Request, ResponseOutcome};
use crate::connection::{conn_wf, Connection, ConnectionState, Error};
use crate::json::JsonValue;
use crate::params::ParamList;
use crate::registry::has_guid;
use crate::types::{color_scheme_wire, ColorScheme, HttpCredentials, ProxySettings, Viewport};
use vstd::string::StringExecFns;

verus! {

broadcast use vstd::seq::group_seq_axioms, vstd::std_specs::vec::group_vec_axioms;

/// A browser object: its guid, the version the driver reported in the
/// initializer, and the guids of the contexts created through it.
pub struct Browser {
    pub guid: String,
    pub version: String,
    pub contexts: Vec<String>,
}

/// Whether an initializer carries a string `version` field, as a browser's
/// must.
pub open spec fn has_version(init: JsonValue) -> bool {
    &&& init matches JsonValue::Obj(fv)
    &&& (obj_get(init->Obj_0@, "version"@) matches Option::Some(JsonValue::Str(s)))
}

/// The `{context: {guid}}` reference inside a `newContext` response, if it
/// is well formed.
pub open spec fn context_guid_of(result: JsonValue) -> Option<Seq<char>> {
    if result matches JsonValue::Obj(fv) {
        let c = obj_get(result->Obj_0@, "context"@);
        if c is Some && c->Some_0 is Obj {
            let g = obj_get(c->Some_0->Obj_0@, "guid"@);
            if g is Some && g->Some_0 is Str {
                Option::Some(g->Some_0->Str_0@)
            } else {
                Option::None
            }
        } else {
            Option::None
        }
    } else {
        Option::None
    }
}

impl Browser {
    /// Builds the browser from its create notification: the initializer
    /// must carry the driver's `version` string, else the payload is
    /// malformed (`Serde`).
    pub fn try_new(guid: String, initializer: &JsonValue) -> (r: Result<Browser, Error>)
        ensures
            match r {
                Ok(b) => {
                    &&& has_version(*initializer)
                    &&& b.guid@ == guid@
                    &&& b.version@ == obj_get(
                        initializer->Obj_0@,
                        "version"@,
                    )->Some_0->Str_0@
                    &&& b.contexts@.len() == 0
                },
                Err(Error::Serde) => !has_version(*initializer),
                Err(_) => false,
            },
    {
        let fs = match initializer {
            JsonValue::Obj(fs) => fs,
            _ => {
                return Err(Error::Serde);
            },
        };
        let version = match obj_find(fs, "version") {
            Some(i) => {
                match &fs[i].1 {
                    JsonValue::Str(s) => s.clone(),
                    _ => {
                        return Err(Error::Serde);
                    },
                }
            },
            None => {
                return Err(Error::Serde);
            },
        };
        Ok(Browser { guid, version, contexts: Vec::new() })
    }

    /// The version string the driver reported.
    pub fn version(&self) -> (r: &str)
        ensures
            r@ == self.version@,
    {
        self.version.as_str()
    }

    /// The guids of the contexts created through this browser, oldest
    /// first.
    pub fn contexts(&self) -> (r: Vec<String>)
        ensures
            r@.len() == self.contexts@.len(),
            forall|i: int| 0 <= i < r@.len() ==> (#[trigger] r@[i])@ == self.contexts@[i]@,
    {
        let mut out: Vec<String> = Vec::new();
        let mut i: usize = 0;
        while i < self.contexts.len()
            invariant
                i <= self.contexts@.len(),
                out@.len() == i,
                forall|k: int| 0 <= k < i ==> (#[trigger] out@[k])@ == self.contexts@[k]@,
            decreases self.contexts@.len() - i,
        {
            out.push(self.contexts[i].clone());
            i += 1;
        }
        out
    }

    /// Prepares a `newContext` request on this browser and parks its
    /// waiter.
    pub fn new_context(&self, conn: &mut Connection, params: JsonValue) -> (r: Result<
        Request,
        Error,
    >)
        requires
            conn_wf(*old(conn)),
            old(conn).engine.next_id < u32::MAX,
        ensures
            conn_wf(*final(conn)),
            final(conn).state == old(conn).state,
            final(conn).registry.objects@ == old(conn).registry.objects@,
            match r {
                Ok(req) => {
                    &&& old(conn).state == ConnectionState::Running
                    &&& has_guid(old(conn).registry.objects@, self.guid@)
                    &&& req.method@ == "newContext"@
                    &&& req.guid@ == self.guid@
                    &&& req.id == old(conn).engine.next_id
                    &&& req.params == params
                    &&& final(conn).engine.next_id == old(conn).engine.next_id + 1
                    &&& final(conn).engine.waiters@.len() == old(conn).engine.waiters@.len() + 1
                    &&& final(conn).engine.waiters@.drop_last() == old(conn).engine.waiters@
                    &&& final(conn).engine.waiters@.last().id == req.id
                    &&& final(conn).engine.waiters@.last().guid@ == self.guid@
                },
                Err(Error::ConnectionClosed) => {
                    &&& old(conn).state == ConnectionState::Closed
                    &&& final(conn).engine == old(conn).engine
                },
                Err(Error::ObjectGone) => {
                    &&& !has_guid(old(conn).registry.objects@, self.guid@)
                    &&& final(conn).engine == old(conn).engine
                },
                Err(_) => false,
            },
    {
        conn.send_request(self.guid.as_str(), "newContext", params)
    }

    /// Reads a `newContext` response: the result names the new context by
    /// guid; the context must already be registered — its create
    /// notification precedes the response — and is recorded here. A
    /// malformed result is `Serde`; an unregistered guid is `ObjectGone`.
    pub fn on_new_context(&mut self, conn: &Connection, result: &JsonValue) -> (r: Result<
        String,
        Error,
    >)
        ensures
            match r {
                Ok(g) => {
                    &&& context_guid_of(*result) == Option::Some(g@)
                    &&& has_guid(conn.registry.objects@, g@)
                    &&& final(self).contexts@.len() == old(self).contexts@.len() + 1
                    &&& final(self).contexts@.last()@ == g@
                    &&& final(self).contexts@.drop_last() == old(self).contexts@
                    &&& final(self).guid == old(self).guid
                    &&& final(self).version == old(self).version
                },
                Err(Error::Serde) => context_guid_of(*result) is None && *final(self) == *old(
                    self,
                ),
                Err(Error::ObjectGone) => {
                    &&& (context_guid_of(*result) matches Option::Some(g) && !has_guid(
                        conn.registry.objects@,
                        g,
                    ))
                    &&& *final(self) == *old(self)
                },
                Err(_) => false,
            },
    {
        let fs = match result {
            JsonValue::Obj(fs) => fs,
            _ => {
                return Err(Error::Serde);
            },
        };
        let inner = match obj_find(fs, "context") {
            Some(i) => {
                match &fs[i].1 {
                    JsonValue::Obj(o) => o,
                    _ => {
                        return Err(Error::Serde);
                    },
                }
            },
            None => {
                return Err(Error::Serde);
            },
        };
        let g: String = match obj_find(inner, "guid") {
            Some(i) => {
                match &inner[i].1 {
                    JsonValue::Str(s) => s.clone(),
                    _ => {
                        return Err(Error::Serde);
                    },
                }
            },
            None => {
                return Err(Error::Serde);
            },
        };
        match conn.registry.lookup(g.as_str()) {
            Some(_) => {},
            None => {
                return Err(Error::ObjectGone);
            },
        }
        proof {
            assert(has_guid(conn.registry.objects@, g@));
        }
        let ghost before = self.contexts@;
        self.contexts.push(g.clone());
        proof {
            assert(self.contexts@.drop_last() =~= before);
        }
        Ok(g)
    }

    /// Prepares this browser's `close` request, with empty params.
    pub fn close(&self, conn: &mut Connection) -> (r: Result<Request, Error>)
        requires
            conn_wf(*old(conn)),
            old(conn).engine.next_id < u32::MAX,
        ensures
            conn_wf(*final(conn)),
            final(conn).state == old(conn).state,
            final(conn).registry.objects@ == old(conn).registry.objects@,
            match r {
                Ok(req) => {
                    &&& old(conn).state == ConnectionState::Running
                    &&& has_guid(old(conn).registry.objects@, self.guid@)
                    &&& req.method@ == "close"@
                    &&& req.guid@ == self.guid@
                    &&& req.id == old(conn).engine.next_id
                    &&& (req.params matches JsonValue::Obj(fv) && fv@.len() == 0)
                    &&& final(conn).engine.next_id == old(conn).engine.next_id + 1
                    &&& final(conn).engine.waiters@.len() == old(conn).engine.waiters@.len() + 1
                    &&& final(conn).engine.waiters@.drop_last() == old(conn).engine.waiters@
                    &&& final(conn).engine.waiters@.last().id == req.id
                    &&& final(conn).engine.waiters@.last().guid@ == self.guid@
                },
                Err(Error::ConnectionClosed) => {
                    &&& old(conn).state == ConnectionState::Closed
                    &&& final(conn).engine == old(conn).engine
                },
                Err(Error::ObjectGone) => {
                    &&& !has_guid(old(conn).registry.objects@, self.guid@)
                    &&& final(conn).engine == old(conn).engine
                },
                Err(_) => false,
            },
    {
        let fields: Vec<(String, JsonValue)> = Vec::new();
        conn.send_request(self.guid.as_str(), "close", JsonValue::Obj(fields))
    }

    /// Reads a `close` response. A driver-side failure is swallowed: a
    /// browser that already went away counts as closed. Every other
    /// outcome of the waiter passes through.
    pub fn close_outcome(outcome: &ResponseOutcome) -> (r: Result<(), Error>)
        ensures
            r is Ok,
    {
        match outcome {
            ResponseOutcome::Success(_) => Ok(()),
            ResponseOutcome::Failure(_) => Ok(()),
        }
    }
}


/// Collects the optional params of one `newContext` request. The fixed
/// `sdkLanguage` field is always sent first; every other field appears
/// only when set, under its wire name, in the driver's field order.
pub struct NewContextBuilder {
    pub proxy: Option<ProxySettings>,
    pub viewport: Option<Viewport>,
    pub no_default_viewport: Option<bool>,
    pub js_enabled: Option<bool>,
    pub user_agent: Option<String>,
    pub locale: Option<String>,
    pub offline: Option<bool>,
    pub http_credentials: Option<HttpCredentials>,
    pub color_scheme: Option<ColorScheme>,
    pub accept_downloads: Option<bool>,
    pub chromium_sandbox: Option<bool>,
}

/// The wire object of a proxy setting: the server, and each credential
/// field only when set.
pub open spec fn proxy_json(p: ProxySettings, vf: Seq<(String, JsonValue)>) -> bool {
    &&& vf.len() == 1 + (if p.bypass is Some { 1int } else { 0int })
        + (if p.username is Some { 1int } else { 0int })
        + (if p.password is Some { 1int } else { 0int })
    &&& (obj_get(vf, "server"@) matches Option::Some(JsonValue::Str(sv)) && sv@ == p.server@)
    &&& match p.bypass {
        Option::Some(x) => (obj_get(vf, "bypass"@) matches Option::Some(JsonValue::Str(sv)) && sv@
            == x@),
        Option::None => obj_get(vf, "bypass"@) is None,
    }
    &&& match p.username {
        Option::Some(x) => (obj_get(vf, "username"@) matches Option::Some(JsonValue::Str(sv))
            && sv@ == x@),
        Option::None => obj_get(vf, "username"@) is None,
    }
    &&& match p.password {
        Option::Some(x) => (obj_get(vf, "password"@) matches Option::Some(JsonValue::Str(sv))
            && sv@ == x@),
        Option::None => obj_get(vf, "password"@) is None,
    }
}

/// The wire object of HTTP credentials.
pub open spec fn credentials_json(c: HttpCredentials, vf: Seq<(String, JsonValue)>) -> bool {
    &&& vf.len() == 2
    &&& (obj_get(vf, "username"@) matches Option::Some(JsonValue::Str(sv)) && sv@ == c.username@)
    &&& (obj_get(vf, "password"@) matches Option::Some(JsonValue::Str(sv)) && sv@ == c.password@)
}

/// The param object a `newContext` builder sends: `sdkLanguage` is always
/// `"rust"`, each set field appears under its wire name, nothing else.
pub open spec fn new_context_params(b: NewContextBuilder, fv: Seq<(String, JsonValue)>) -> bool {
    &&& fv.len() == 1 + (if b.proxy is Some { 1int } else { 0int })
        + (if b.viewport is Some { 1int } else { 0int })
        + (if b.no_default_viewport is Some { 1int } else { 0int })
        + (if b.js_enabled is Some { 1int } else { 0int })
        + (if b.user_agent is Some { 1int } else { 0int })
        + (if b.locale is Some { 1int } else { 0int })
        + (if b.offline is Some { 1int } else { 0int })
        + (if b.http_credentials is Some { 1int } else { 0int })
        + (if b.color_scheme is Some { 1int } else { 0int })
        + (if b.accept_downloads is Some { 1int } else { 0int })
        + (if b.chromium_sandbox is Some { 1int } else { 0int })
    &&& (obj_get(fv, "sdkLanguage"@) matches Option::Some(JsonValue::Str(s)) && s@ == "rust"@)
    &&& match b.proxy {
        Option::Some(p) => (obj_get(fv, "proxy"@) matches Option::Some(JsonValue::Obj(vf))
            && proxy_json(p, vf@)),
        Option::None => obj_get(fv, "proxy"@) is None,
    }
    &&& match b.viewport {
        Option::Some(v) => (obj_get(fv, "viewport"@) matches Option::Some(JsonValue::Obj(vf))
            && vf@.len() == 2 && obj_get(vf@, "width"@) == Option::Some(
            JsonValue::Int(v.width as i64),
        ) && obj_get(vf@, "height"@) == Option::Some(JsonValue::Int(v.height as i64))),
        Option::None => obj_get(fv, "viewport"@) is None,
    }
    &&& match b.no_default_viewport {
        Option::Some(x) => obj_get(fv, "noDefaultViewport"@) == Option::Some(JsonValue::Bool(x)),
        Option::None => obj_get(fv, "noDefaultViewport"@) is None,
    }
    &&& match b.js_enabled {
        Option::Some(x) => obj_get(fv, "javaScriptEnabled"@) == Option::Some(JsonValue::Bool(x)),
        Option::None => obj_get(fv, "javaScriptEnabled"@) is None,
    }
    &&& match b.user_agent {
        Option::Some(x) => (obj_get(fv, "userAgent"@) matches Option::Some(JsonValue::Str(s))
            && s@ == x@),
        Option::None => obj_get(fv, "userAgent"@) is None,
    }
    &&& match b.locale {
        Option::Some(x) => (obj_get(fv, "locale"@) matches Option::Some(JsonValue::Str(s)) && s@
            == x@),
        Option::None => obj_get(fv, "locale"@) is None,
    }
    &&& match b.offline {
        Option::Some(x) => obj_get(fv, "offline"@) == Option::Some(JsonValue::Bool(x)),
        Option::None => obj_get(fv, "offline"@) is None,
    }
    &&& match b.http_credentials {
        Option::Some(c) => (obj_get(fv, "httpCredentials"@) matches Option::Some(
            JsonValue::Obj(vf),
        ) && credentials_json(c, vf@)),
        Option::None => obj_get(fv, "httpCredentials"@) is None,
    }
    &&& match b.color_scheme {
        Option::Some(x) => (obj_get(fv, "colorScheme"@) matches Option::Some(JsonValue::Str(s))
            && s@ == color_scheme_wire(x)),
        Option::None => obj_get(fv, "colorScheme"@) is None,
    }
    &&& match b.accept_downloads {
        Option::Some(x) => obj_get(fv, "acceptDownloads"@) == Option::Some(JsonValue::Bool(x)),
        Option::None => obj_get(fv, "acceptDownloads"@) is None,
    }
    &&& match b.chromium_sandbox {
        Option::Some(x) => obj_get(fv, "chromiumSandbox"@) == Option::Some(JsonValue::Bool(x)),
        Option::None => obj_get(fv, "chromiumSandbox"@) is None,
    }
}


/// The proxy settings as their wire object.
fn proxy_value(p: &ProxySettings) -> (r: JsonValue)
    ensures
        r matches JsonValue::Obj(vf) && proxy_json(*p, vf@),
{
    proof {
        reveal_strlit("server");
        reveal_strlit("bypass");
        reveal_strlit("username");
        reveal_strlit("password");
        assert("server"@.len() == 6);
        assert("bypass"@.len() == 6);
        assert("username"@.len() == 8);
        assert("password"@.len() == 8);
        assert("server"@[0] == 's' && "bypass"@[0] == 'b');
        assert("username"@[0] == 'u' && "password"@[0] == 'p');
    }
    let mut pp = ParamList::new();
    pp.add("server", JsonValue::Str(p.server.clone()));
    pp.add_opt_string("bypass", &p.bypass);
    pp.add_opt_string("username", &p.username);
    pp.add_opt_string("password", &p.password);
    pp.finish()
}

/// The credentials as their wire object.
fn credentials_value(c: &HttpCredentials) -> (r: JsonValue)
    ensures
        r matches JsonValue::Obj(vf) && credentials_json(*c, vf@),
{
    proof {
        reveal_strlit("username");
        reveal_strlit("password");
        assert("username"@.len() == 8);
        assert("password"@.len() == 8);
        assert("username"@[0] == 'u' && "password"@[0] == 'p');
    }
    let mut cp = ParamList::new();
    cp.add("username", JsonValue::Str(c.username.clone()));
    cp.add("password", JsonValue::Str(c.password.clone()));
    cp.finish()
}

/// The viewport as its wire object.
fn viewport_value(v: &Viewport) -> (r: JsonValue)
    ensures
        r matches JsonValue::Obj(vf) && vf@.len() == 2 && obj_get(vf@, "width"@) == Option::Some(
            JsonValue::Int(v.width as i64),
        ) && obj_get(vf@, "height"@) == Option::Some(JsonValue::Int(v.height as i64)),
{
    proof {
        reveal_strlit("width");
        reveal_strlit("height");
        assert("width"@.len() == 5);
        assert("height"@.len() == 6);
    }
    let mut vp = ParamList::new();
    vp.add("width", JsonValue::Int(v.width as i64));
    vp.add("height", JsonValue::Int(v.height as i64));
    vp.finish()
}

impl NewContextBuilder {
    /// A builder with nothing set: only `sdkLanguage` will be sent.
    pub fn new() -> (r: Self)
        ensures
            r.proxy is None,
            r.viewport is None,
            r.no_default_viewport is None,
            r.js_enabled is None,
            r.user_agent is None,
            r.locale is None,
            r.offline is None,
            r.http_credentials is None,
            r.color_scheme is None,
            r.accept_downloads is None,
            r.chromium_sandbox is None,
    {
        NewContextBuilder {
            proxy: None,
            viewport: None,
            no_default_viewport: None,
            js_enabled: None,
            user_agent: None,
            locale: None,
            offline: None,
            http_credentials: None,
            color_scheme: None,
            accept_downloads: None,
            chromium_sandbox: None,
        }
    }

    /// Sets the proxy.
    pub fn proxy(self, x: ProxySettings) -> (r: Self)
        ensures
            r == (Self { proxy: Some(x), ..self }),
    {
        Self { proxy: Some(x), ..self }
    }

    /// Sets the viewport.
    pub fn viewport(self, x: Viewport) -> (r: Self)
        ensures
            r == (Self { viewport: Some(x), ..self }),
    {
        Self { viewport: Some(x), ..self }
    }

    /// Sets the `javaScriptEnabled` field.
    pub fn js_enabled(self, x: bool) -> (r: Self)
        ensures
            r == (Self { js_enabled: Some(x), ..self }),
    {
        Self { js_enabled: Some(x), ..self }
    }

    /// Sets the `offline` field.
    pub fn offline(self, x: bool) -> (r: Self)
        ensures
            r == (Self { offline: Some(x), ..self }),
    {
        Self { offline: Some(x), ..self }
    }

    /// Sets the HTTP credentials.
    pub fn http_credentials(self, x: HttpCredentials) -> (r: Self)
        ensures
            r == (Self { http_credentials: Some(x), ..self }),
    {
        Self { http_credentials: Some(x), ..self }
    }

    /// Sets the `colorScheme` field.
    pub fn color_scheme(self, x: ColorScheme) -> (r: Self)
        ensures
            r == (Self { color_scheme: Some(x), ..self }),
    {
        Self { color_scheme: Some(x), ..self }
    }

    /// Sets the `acceptDownloads` field.
    pub fn accept_downloads(self, x: bool) -> (r: Self)
        ensures
            r == (Self { accept_downloads: Some(x), ..self }),
    {
        Self { accept_downloads: Some(x), ..self }
    }

    /// The param object this builder sends.
    #[verifier::spinoff_prover]
    #[verifier::rlimit(100)]
    pub fn params(&self) -> (r: JsonValue)
        ensures
            r matches JsonValue::Obj(fv) && new_context_params(*self, fv@),
    {
        proof {
            reveal_strlit("sdkLanguage");
            reveal_strlit("rust");
            reveal_strlit("proxy");
            reveal_strlit("viewport");
            reveal_strlit("noDefaultViewport");
            reveal_strlit("javaScriptEnabled");
            reveal_strlit("userAgent");
            reveal_strlit("locale");
            reveal_strlit("offline");
            reveal_strlit("httpCredentials");
            reveal_strlit("colorScheme");
            reveal_strlit("acceptDownloads");
            reveal_strlit("chromiumSandbox");
            assert("sdkLanguage"@.len() == 11);
            assert("rust"@.len() == 4);
            assert("proxy"@.len() == 5);
            assert("viewport"@.len() == 8);
            assert("noDefaultViewport"@.len() == 17);
            assert("javaScriptEnabled"@.len() == 17);
            assert("userAgent"@.len() == 9);
            assert("locale"@.len() == 6);
            assert("offline"@.len() == 7);
            assert("httpCredentials"@.len() == 15);
            assert("colorScheme"@.len() == 11);
            assert("acceptDownloads"@.len() == 15);
            assert("chromiumSandbox"@.len() == 15);
            assert("noDefaultViewport"@[0] == 'n' && "javaScriptEnabled"@[0] == 'j');
            assert("viewport"@[0] == 'v');
            assert("sdkLanguage"@[0] == 's' && "colorScheme"@[0] == 'c');
            assert("httpCredentials"@[0] == 'h' && "acceptDownloads"@[0] == 'a'
                && "chromiumSandbox"@[0] == 'c');
            assert("locale"@[0] == 'l' && "proxy"@[0] == 'p');
        }
        let mut p = ParamList::new();
        p.add("sdkLanguage", JsonValue::Str(String::from_str("rust")));
        match &self.proxy {
            Some(pr) => {
                p.add("proxy", proxy_value(pr));
            },
            None => {},
        }
        match &self.viewport {
            Some(v) => {
                p.add("viewport", viewport_value(v));
            },
            None => {},
        }
        p.add_opt_bool("noDefaultViewport", &self.no_default_viewport);
        p.add_opt_bool("javaScriptEnabled", &self.js_enabled);
        p.add_opt_string("userAgent", &self.user_agent);
        p.add_opt_string("locale", &self.locale);
        p.add_opt_bool("offline", &self.offline);
        match &self.http_credentials {
            Some(c) => {
                p.add("httpCredentials", credentials_value(c));
            },
            None => {},
        }
        match &self.color_scheme {
            Some(x) => {
                p.add("colorScheme", JsonValue::Str(String::from_str(x.wire_name())));
            },
            None => {},
        }
        p.add_opt_bool("acceptDownloads", &self.accept_downloads);
        p.add_opt_bool("chromiumSandbox", &self.chromium_sandbox);
        p.finish()
    }
}

} // verus!
