//! The user-facing page handle and its builder-style request
//! constructors. A handle holds only the guid of its registry object — the
//! weak-reference idiom — so every built request goes through the
//! connection, which refuses it once the object is gone. Each builder
//! collects the optional params of one protocol method; building the
//! request pins down exactly which fields are sent, and unset fields are
//! omitted.
use vstd::prelude::*;
use crate::codec::{obj_get, Request};
use crate::connection::{conn_wf, Connection, ConnectionState, Error};
use crate::json::JsonValue;
use crate::params::ParamList;
use crate::registry::has_guid;
use crate::types::{
    element_state_wire, load_state_wire, mouse_button_wire, screenshot_type_wire, DocumentLoadState,
    ElementState, MouseButton, ScreenshotType,
};
use vstd::string::{StringExecFns, StrSliceExecFns};

verus! {

broadcast use vstd::seq::group_seq_axioms, vstd::std_specs::vec::group_vec_axioms;


/// The `{value}` string inside a result object, as title and content
/// responses carry it, if it is well formed.
pub open spec fn string_result_of(result: JsonValue) -> Option<Seq<char>> {
    if result matches JsonValue::Obj(fv) {
        let v = obj_get(result->Obj_0@, "value"@);
        if v is Some && v->Some_0 is Str {
            Option::Some(v->Some_0->Str_0@)
        } else {
            Option::None
        }
    } else {
        Option::None
    }
}

/// Reads a string-valued result (`{value: ...}`); a malformed payload is
/// `Serde`, exactly when the field is missing or not a string.
pub fn read_string_result(result: &JsonValue) -> (r: Result<String, Error>)
    ensures
        match r {
            Ok(s) => string_result_of(*result) == Option::Some(s@),
            Err(Error::Serde) => string_result_of(*result) is None,
            Err(_) => false,
        },
{
    let fs = match result {
        JsonValue::Obj(fs) => fs,
        _ => {
            return Err(Error::Serde);
        },
    };
    match crate::codec::obj_find(fs, "value") {
        Some(i) => {
            match &fs[i].1 {
                JsonValue::Str(s) => Ok(s.clone()),
                _ => Err(Error::Serde),
            }
        },
        None => Err(Error::Serde),
    }
}


/// The `{response: {guid}}` reference inside a navigation result, if any:
/// `Some(None)` when the result is well formed but carries no response.
pub open spec fn navigation_result_of(result: JsonValue) -> Option<Option<Seq<char>>> {
    if result matches JsonValue::Obj(fv) {
        let v = obj_get(result->Obj_0@, "response"@);
        if v is None {
            Option::Some(Option::None)
        } else if v->Some_0 is Obj {
            let g = obj_get(v->Some_0->Obj_0@, "guid"@);
            if g is Some && g->Some_0 is Str {
                Option::Some(Option::Some(g->Some_0->Str_0@))
            } else {
                Option::None
            }
        } else {
            Option::None
        }
    } else {
        Option::None
    }
}

/// Reads a navigation result: the guid of the response object when the
/// driver sent one, nothing when navigation produced none, `Serde` exactly
/// when the payload is malformed.
pub fn read_navigation_result(result: &JsonValue) -> (r: Result<Option<String>, Error>)
    ensures
        match r {
            Ok(Some(g)) => navigation_result_of(*result) == Option::Some(
                Option::Some(g@),
            ),
            Ok(None) => navigation_result_of(*result) == Option::Some(
                Option::<Seq<char>>::None,
            ),
            Err(Error::Serde) => navigation_result_of(*result) is None,
            Err(_) => false,
        },
{
    let fs = match result {
        JsonValue::Obj(fs) => fs,
        _ => {
            return Err(Error::Serde);
        },
    };
    match crate::codec::obj_find(fs, "response") {
        Some(i) => {
            let inner = match &fs[i].1 {
                JsonValue::Obj(o) => o,
                _ => {
                    return Err(Error::Serde);
                },
            };
            match crate::codec::obj_find(inner, "guid") {
                Some(gi) => {
                    match &inner[gi].1 {
                        JsonValue::Str(g) => Ok(Some(g.clone())),
                        _ => Err(Error::Serde),
                    }
                },
                None => Err(Error::Serde),
            }
        },
        None => Ok(None),
    }
}

/// The `{binary}` payload of a screenshot result, if it is well formed.
pub open spec fn screenshot_result_of(result: JsonValue) -> Option<Seq<char>> {
    if result matches JsonValue::Obj(fv) {
        let v = obj_get(result->Obj_0@, "binary"@);
        if v is Some && v->Some_0 is Str {
            Option::Some(v->Some_0->Str_0@)
        } else {
            Option::None
        }
    } else {
        Option::None
    }
}

/// Reads a screenshot result: the base64 text of the image bytes, `Serde`
/// exactly when the payload is malformed. Decoding the text to bytes is an
/// outside concern.
pub fn read_screenshot_result(result: &JsonValue) -> (r: Result<String, Error>)
    ensures
        match r {
            Ok(b) => screenshot_result_of(*result) == Option::Some(b@),
            Err(Error::Serde) => screenshot_result_of(*result) is None,
            Err(_) => false,
        },
{
    let fs = match result {
        JsonValue::Obj(fs) => fs,
        _ => {
            return Err(Error::Serde);
        },
    };
    match crate::codec::obj_find(fs, "binary") {
        Some(i) => {
            match &fs[i].1 {
                JsonValue::Str(b) => Ok(b.clone()),
                _ => Err(Error::Serde),
            }
        },
        None => Err(Error::Serde),
    }
}


/// The optional `{value}` string of a result, as text-content and
/// attribute responses carry it: `Some(None)` when the result is well
/// formed but has no value.
pub open spec fn optional_string_result_of(result: JsonValue) -> Option<Option<Seq<char>>> {
    if result matches JsonValue::Obj(fv) {
        let v = obj_get(result->Obj_0@, "value"@);
        if v is None {
            Option::Some(Option::None)
        } else if v->Some_0 is Str {
            Option::Some(Option::Some(v->Some_0->Str_0@))
        } else {
            Option::None
        }
    } else {
        Option::None
    }
}

/// Reads an optional string result: the value when present, nothing when
/// the driver sent none, `Serde` exactly when the payload is malformed.
pub fn read_optional_string_result(result: &JsonValue) -> (r: Result<Option<String>, Error>)
    ensures
        match r {
            Ok(Some(v)) => optional_string_result_of(*result) == Option::Some(
                Option::Some(v@),
            ),
            Ok(None) => optional_string_result_of(*result) == Option::Some(
                Option::<Seq<char>>::None,
            ),
            Err(Error::Serde) => optional_string_result_of(*result) is None,
            Err(_) => false,
        },
{
    let fs = match result {
        JsonValue::Obj(fs) => fs,
        _ => {
            return Err(Error::Serde);
        },
    };
    match crate::codec::obj_find(fs, "value") {
        Some(i) => {
            match &fs[i].1 {
                JsonValue::Str(v) => Ok(Some(v.clone())),
                _ => Err(Error::Serde),
            }
        },
        None => Ok(None),
    }
}

/// The `{element: {guid}}` reference of a query result, if any:
/// `Some(None)` when the selector matched nothing.
pub open spec fn element_result_of(result: JsonValue) -> Option<Option<Seq<char>>> {
    if result matches JsonValue::Obj(fv) {
        let v = obj_get(result->Obj_0@, "element"@);
        if v is None {
            Option::Some(Option::None)
        } else if v->Some_0 is Obj {
            let g = obj_get(v->Some_0->Obj_0@, "guid"@);
            if g is Some && g->Some_0 is Str {
                Option::Some(Option::Some(g->Some_0->Str_0@))
            } else {
                Option::None
            }
        } else {
            Option::None
        }
    } else {
        Option::None
    }
}

/// Reads a query result: the guid of the matched element handle, nothing
/// when the selector matched no element, `Serde` exactly when the payload
/// is malformed.
pub fn read_element_result(result: &JsonValue) -> (r: Result<Option<String>, Error>)
    ensures
        match r {
            Ok(Some(g)) => element_result_of(*result) == Option::Some(Option::Some(g@)),
            Ok(None) => element_result_of(*result) == Option::Some(
                Option::<Seq<char>>::None,
            ),
            Err(Error::Serde) => element_result_of(*result) is None,
            Err(_) => false,
        },
{
    let fs = match result {
        JsonValue::Obj(fs) => fs,
        _ => {
            return Err(Error::Serde);
        },
    };
    match crate::codec::obj_find(fs, "element") {
        Some(i) => {
            let inner = match &fs[i].1 {
                JsonValue::Obj(o) => o,
                _ => {
                    return Err(Error::Serde);
                },
            };
            match crate::codec::obj_find(inner, "guid") {
                Some(gi) => {
                    match &inner[gi].1 {
                        JsonValue::Str(g) => Ok(Some(g.clone())),
                        _ => Err(Error::Serde),
                    }
                },
                None => Err(Error::Serde),
            }
        },
        None => Ok(None),
    }
}

/// A page handle: the page's own guid and its main frame's guid.
pub struct Page {
    pub guid: String,
    pub main_frame_guid: String,
}

/// A frame handle.
pub struct Frame {
    pub guid: String,
}

impl Frame {
    /// A handle on the frame with this guid.
    pub fn new(guid: String) -> (r: Frame)
        ensures
            r.guid_chars() == guid@,
    {
        Frame { guid }
    }

    /// The guid this handle points at.
    pub open spec fn guid_chars(&self) -> Seq<char> {
        self.guid@
    }
}

impl Page {
    /// A handle on the page with this guid, whose main frame carries the
    /// other guid.
    pub fn new(guid: String, main_frame_guid: String) -> (r: Page)
        ensures
            r.guid_chars() == guid@,
            r.main_frame_chars() == main_frame_guid@,
    {
        Page { guid, main_frame_guid }
    }

    /// The page's guid.
    pub open spec fn guid_chars(&self) -> Seq<char> {
        self.guid@
    }

    /// The main frame's guid.
    pub open spec fn main_frame_chars(&self) -> Seq<char> {
        self.main_frame_guid@
    }

    /// The guid of the page's main frame, as the weak handle the frame
    /// façade wraps.
    pub fn main_frame_weak(&self) -> (r: String)
        ensures
            r@ == self.main_frame_chars(),
    {
        self.main_frame_guid.clone()
    }

    /// The page's main frame.
    pub fn main_frame(&self) -> (r: Frame)
        ensures
            r.guid_chars() == self.main_frame_chars(),
    {
        Frame::new(self.main_frame_weak())
    }

    /// Builds the main frame's `title` request and parks its waiter; the
    /// response's `{value}` string is read back with `read_string_result`.
    pub fn title(&mut self, conn: &mut Connection) -> (r: Result<Request, Error>)
        requires
            conn_wf(*old(conn)),
            old(conn).engine.next_id < u32::MAX,
        ensures
            conn_wf(*final(conn)),
            *final(self) == *old(self),
            match r {
                Ok(req) => {
                    &&& req.method@ == "title"@
                    &&& req.guid@ == old(self).main_frame_chars()
                    &&& req.id == old(conn).engine.next_id
                    &&& (req.params matches JsonValue::Obj(fv) && fv@.len() == 0)
                    &&& final(conn).engine.next_id == old(conn).engine.next_id + 1
                    &&& final(conn).engine.waiters@.len() == old(conn).engine.waiters@.len() + 1
                    &&& final(conn).engine.waiters@.last().id == req.id
                    &&& final(conn).engine.waiters@.last().guid@ == old(self).main_frame_chars()
                },
                Err(Error::ConnectionClosed) => old(conn).state == ConnectionState::Closed,
                Err(Error::ObjectGone) => !has_guid(
                    old(conn).registry.objects@,
                    old(self).main_frame_chars(),
                ),
                Err(_) => false,
            },
    {
        let target = self.main_frame_weak();
        let fields: Vec<(String, JsonValue)> = Vec::new();
        conn.send_request(target.as_str(), "title", JsonValue::Obj(fields))
    }

    /// Builds the main frame's `content` request and parks its waiter; the
    /// response's `{value}` string is read back with `read_string_result`.
    pub fn content(&mut self, conn: &mut Connection) -> (r: Result<Request, Error>)
        requires
            conn_wf(*old(conn)),
            old(conn).engine.next_id < u32::MAX,
        ensures
            conn_wf(*final(conn)),
            *final(self) == *old(self),
            match r {
                Ok(req) => {
                    &&& req.method@ == "content"@
                    &&& req.guid@ == old(self).main_frame_chars()
                    &&& req.id == old(conn).engine.next_id
                    &&& (req.params matches JsonValue::Obj(fv) && fv@.len() == 0)
                    &&& final(conn).engine.next_id == old(conn).engine.next_id + 1
                    &&& final(conn).engine.waiters@.len() == old(conn).engine.waiters@.len() + 1
                    &&& final(conn).engine.waiters@.last().id == req.id
                    &&& final(conn).engine.waiters@.last().guid@ == old(self).main_frame_chars()
                },
                Err(Error::ConnectionClosed) => old(conn).state == ConnectionState::Closed,
                Err(Error::ObjectGone) => !has_guid(
                    old(conn).registry.objects@,
                    old(self).main_frame_chars(),
                ),
                Err(_) => false,
            },
    {
        let target = self.main_frame_weak();
        let fields: Vec<(String, JsonValue)> = Vec::new();
        conn.send_request(target.as_str(), "content", JsonValue::Obj(fields))
    }


    /// Builds the main frame's `focus` request and parks its waiter. The driver's per-call timeout is left to its default.
    pub fn focus(&mut self, conn: &mut Connection, selector: &str) -> (r: Result<Request, Error>)
        requires
            conn_wf(*old(conn)),
            old(conn).engine.next_id < u32::MAX,
        ensures
            conn_wf(*final(conn)),
            *final(self) == *old(self),
            match r {
                Ok(req) => {
                    &&& req.method@ == "focus"@
                    &&& req.guid@ == old(self).main_frame_chars()
                    &&& req.id == old(conn).engine.next_id
                    &&& (req.params matches JsonValue::Obj(fv) && fv@.len() == 1)
                    &&& (obj_get(req.params->Obj_0@, "selector"@) matches Option::Some(
                        JsonValue::Str(sv),
                    ) && sv@ == selector@)
                    &&& final(conn).engine.next_id == old(conn).engine.next_id + 1
                    &&& final(conn).engine.waiters@.len() == old(conn).engine.waiters@.len() + 1
                    &&& final(conn).engine.waiters@.last().id == req.id
                    &&& final(conn).engine.waiters@.last().guid@ == old(self).main_frame_chars()
                },
                Err(Error::ConnectionClosed) => old(conn).state == ConnectionState::Closed,
                Err(Error::ObjectGone) => !has_guid(
                    old(conn).registry.objects@,
                    old(self).main_frame_chars(),
                ),
                Err(_) => false,
            },
    {
        let mut p = ParamList::new();
        proof {
            reveal_strlit("selector");
        }
        p.add("selector", JsonValue::Str(selector.to_owned()));
        let target = self.main_frame_weak();
        conn.send_request(target.as_str(), "focus", p.finish())
    }

    /// Builds the main frame's `textContent` request and parks its waiter. The response's optional
    /// `{value}` is read back with `read_optional_string_result`.
    pub fn text_content(&mut self, conn: &mut Connection, selector: &str) -> (r: Result<Request, Error>)
        requires
            conn_wf(*old(conn)),
            old(conn).engine.next_id < u32::MAX,
        ensures
            conn_wf(*final(conn)),
            *final(self) == *old(self),
            match r {
                Ok(req) => {
                    &&& req.method@ == "textContent"@
                    &&& req.guid@ == old(self).main_frame_chars()
                    &&& req.id == old(conn).engine.next_id
                    &&& (req.params matches JsonValue::Obj(fv) && fv@.len() == 1)
                    &&& (obj_get(req.params->Obj_0@, "selector"@) matches Option::Some(
                        JsonValue::Str(sv),
                    ) && sv@ == selector@)
                    &&& final(conn).engine.next_id == old(conn).engine.next_id + 1
                    &&& final(conn).engine.waiters@.len() == old(conn).engine.waiters@.len() + 1
                    &&& final(conn).engine.waiters@.last().id == req.id
                    &&& final(conn).engine.waiters@.last().guid@ == old(self).main_frame_chars()
                },
                Err(Error::ConnectionClosed) => old(conn).state == ConnectionState::Closed,
                Err(Error::ObjectGone) => !has_guid(
                    old(conn).registry.objects@,
                    old(self).main_frame_chars(),
                ),
                Err(_) => false,
            },
    {
        let mut p = ParamList::new();
        proof {
            reveal_strlit("selector");
        }
        p.add("selector", JsonValue::Str(selector.to_owned()));
        let target = self.main_frame_weak();
        conn.send_request(target.as_str(), "textContent", p.finish())
    }

    /// Builds the main frame's `innerText` request and parks its waiter. The response's `{value}`
    /// is read back with `read_string_result`.
    pub fn inner_text(&mut self, conn: &mut Connection, selector: &str) -> (r: Result<Request, Error>)
        requires
            conn_wf(*old(conn)),
            old(conn).engine.next_id < u32::MAX,
        ensures
            conn_wf(*final(conn)),
            *final(self) == *old(self),
            match r {
                Ok(req) => {
                    &&& req.method@ == "innerText"@
                    &&& req.guid@ == old(self).main_frame_chars()
                    &&& req.id == old(conn).engine.next_id
                    &&& (req.params matches JsonValue::Obj(fv) && fv@.len() == 1)
                    &&& (obj_get(req.params->Obj_0@, "selector"@) matches Option::Some(
                        JsonValue::Str(sv),
                    ) && sv@ == selector@)
                    &&& final(conn).engine.next_id == old(conn).engine.next_id + 1
                    &&& final(conn).engine.waiters@.len() == old(conn).engine.waiters@.len() + 1
                    &&& final(conn).engine.waiters@.last().id == req.id
                    &&& final(conn).engine.waiters@.last().guid@ == old(self).main_frame_chars()
                },
                Err(Error::ConnectionClosed) => old(conn).state == ConnectionState::Closed,
                Err(Error::ObjectGone) => !has_guid(
                    old(conn).registry.objects@,
                    old(self).main_frame_chars(),
                ),
                Err(_) => false,
            },
    {
        let mut p = ParamList::new();
        proof {
            reveal_strlit("selector");
        }
        p.add("selector", JsonValue::Str(selector.to_owned()));
        let target = self.main_frame_weak();
        conn.send_request(target.as_str(), "innerText", p.finish())
    }

    /// Builds the main frame's `innerHTML` request and parks its waiter. The response's `{value}`
    /// is read back with `read_string_result`.
    pub fn inner_html(&mut self, conn: &mut Connection, selector: &str) -> (r: Result<Request, Error>)
        requires
            conn_wf(*old(conn)),
            old(conn).engine.next_id < u32::MAX,
        ensures
            conn_wf(*final(conn)),
            *final(self) == *old(self),
            match r {
                Ok(req) => {
                    &&& req.method@ == "innerHTML"@
                    &&& req.guid@ == old(self).main_frame_chars()
                    &&& req.id == old(conn).engine.next_id
                    &&& (req.params matches JsonValue::Obj(fv) && fv@.len() == 1)
                    &&& (obj_get(req.params->Obj_0@, "selector"@) matches Option::Some(
                        JsonValue::Str(sv),
                    ) && sv@ == selector@)
                    &&& final(conn).engine.next_id == old(conn).engine.next_id + 1
                    &&& final(conn).engine.waiters@.len() == old(conn).engine.waiters@.len() + 1
                    &&& final(conn).engine.waiters@.last().id == req.id
                    &&& final(conn).engine.waiters@.last().guid@ == old(self).main_frame_chars()
                },
                Err(Error::ConnectionClosed) => old(conn).state == ConnectionState::Closed,
                Err(Error::ObjectGone) => !has_guid(
                    old(conn).registry.objects@,
                    old(self).main_frame_chars(),
                ),
                Err(_) => false,
            },
    {
        let mut p = ParamList::new();
        proof {
            reveal_strlit("selector");
        }
        p.add("selector", JsonValue::Str(selector.to_owned()));
        let target = self.main_frame_weak();
        conn.send_request(target.as_str(), "innerHTML", p.finish())
    }

    /// Builds the main frame's `getAttribute` request and parks its waiter. The response's optional
    /// `{value}` is read back with `read_optional_string_result`.
    pub fn get_attribute(&mut self, conn: &mut Connection, selector: &str, name: &str) -> (r: Result<Request, Error>)
        requires
            conn_wf(*old(conn)),
            old(conn).engine.next_id < u32::MAX,
        ensures
            conn_wf(*final(conn)),
            *final(self) == *old(self),
            match r {
                Ok(req) => {
                    &&& req.method@ == "getAttribute"@
                    &&& req.guid@ == old(self).main_frame_chars()
                    &&& req.id == old(conn).engine.next_id
                    &&& (req.params matches JsonValue::Obj(fv) && fv@.len() == 2)
                    &&& (obj_get(req.params->Obj_0@, "selector"@) matches Option::Some(
                        JsonValue::Str(sv),
                    ) && sv@ == selector@)
                    &&& (obj_get(req.params->Obj_0@, "name"@) matches Option::Some(
                        JsonValue::Str(xv),
                    ) && xv@ == name@)
                    &&& final(conn).engine.next_id == old(conn).engine.next_id + 1
                    &&& final(conn).engine.waiters@.len() == old(conn).engine.waiters@.len() + 1
                    &&& final(conn).engine.waiters@.last().id == req.id
                    &&& final(conn).engine.waiters@.last().guid@ == old(self).main_frame_chars()
                },
                Err(Error::ConnectionClosed) => old(conn).state == ConnectionState::Closed,
                Err(Error::ObjectGone) => !has_guid(
                    old(conn).registry.objects@,
                    old(self).main_frame_chars(),
                ),
                Err(_) => false,
            },
    {
        let mut p = ParamList::new();
        proof {
            reveal_strlit("selector");
            reveal_strlit("name");
            assert("name"@.len() == 4);
            assert("selector"@.len() == 8);
        }
        p.add("selector", JsonValue::Str(selector.to_owned()));
        p.add("name", JsonValue::Str(name.to_owned()));
        let target = self.main_frame_weak();
        conn.send_request(target.as_str(), "getAttribute", p.finish())
    }

    /// Builds the main frame's `querySelector` request and parks its waiter. The response's element
    /// reference is read back with `read_element_result`.
    pub fn query_selector(&mut self, conn: &mut Connection, selector: &str) -> (r: Result<Request, Error>)
        requires
            conn_wf(*old(conn)),
            old(conn).engine.next_id < u32::MAX,
        ensures
            conn_wf(*final(conn)),
            *final(self) == *old(self),
            match r {
                Ok(req) => {
                    &&& req.method@ == "querySelector"@
                    &&& req.guid@ == old(self).main_frame_chars()
                    &&& req.id == old(conn).engine.next_id
                    &&& (req.params matches JsonValue::Obj(fv) && fv@.len() == 1)
                    &&& (obj_get(req.params->Obj_0@, "selector"@) matches Option::Some(
                        JsonValue::Str(sv),
                    ) && sv@ == selector@)
                    &&& final(conn).engine.next_id == old(conn).engine.next_id + 1
                    &&& final(conn).engine.waiters@.len() == old(conn).engine.waiters@.len() + 1
                    &&& final(conn).engine.waiters@.last().id == req.id
                    &&& final(conn).engine.waiters@.last().guid@ == old(self).main_frame_chars()
                },
                Err(Error::ConnectionClosed) => old(conn).state == ConnectionState::Closed,
                Err(Error::ObjectGone) => !has_guid(
                    old(conn).registry.objects@,
                    old(self).main_frame_chars(),
                ),
                Err(_) => false,
            },
    {
        let mut p = ParamList::new();
        proof {
            reveal_strlit("selector");
        }
        p.add("selector", JsonValue::Str(selector.to_owned()));
        let target = self.main_frame_weak();
        conn.send_request(target.as_str(), "querySelector", p.finish())
    }

    /// Builds the main frame's `querySelectorAll` request and parks its waiter.
    pub fn query_selector_all(&mut self, conn: &mut Connection, selector: &str) -> (r: Result<Request, Error>)
        requires
            conn_wf(*old(conn)),
            old(conn).engine.next_id < u32::MAX,
        ensures
            conn_wf(*final(conn)),
            *final(self) == *old(self),
            match r {
                Ok(req) => {
                    &&& req.method@ == "querySelectorAll"@
                    &&& req.guid@ == old(self).main_frame_chars()
                    &&& req.id == old(conn).engine.next_id
                    &&& (req.params matches JsonValue::Obj(fv) && fv@.len() == 1)
                    &&& (obj_get(req.params->Obj_0@, "selector"@) matches Option::Some(
                        JsonValue::Str(sv),
                    ) && sv@ == selector@)
                    &&& final(conn).engine.next_id == old(conn).engine.next_id + 1
                    &&& final(conn).engine.waiters@.len() == old(conn).engine.waiters@.len() + 1
                    &&& final(conn).engine.waiters@.last().id == req.id
                    &&& final(conn).engine.waiters@.last().guid@ == old(self).main_frame_chars()
                },
                Err(Error::ConnectionClosed) => old(conn).state == ConnectionState::Closed,
                Err(Error::ObjectGone) => !has_guid(
                    old(conn).registry.objects@,
                    old(self).main_frame_chars(),
                ),
                Err(_) => false,
            },
    {
        let mut p = ParamList::new();
        proof {
            reveal_strlit("selector");
        }
        p.add("selector", JsonValue::Str(selector.to_owned()));
        let target = self.main_frame_weak();
        conn.send_request(target.as_str(), "querySelectorAll", p.finish())
    }


    /// Builds the main frame's `addStyleTag` request: the stylesheet text,
    /// and its source url only when given. The response's element reference
    /// is read back with `read_element_result`.
    pub fn add_style_tag(
        &mut self,
        conn: &mut Connection,
        content: &str,
        url: Option<&str>,
    ) -> (r: Result<Request, Error>)
        requires
            conn_wf(*old(conn)),
            old(conn).engine.next_id < u32::MAX,
        ensures
            conn_wf(*final(conn)),
            *final(self) == *old(self),
            match r {
                Ok(req) => {
                    &&& req.method@ == "addStyleTag"@
                    &&& req.guid@ == old(self).main_frame_chars()
                    &&& req.id == old(conn).engine.next_id
                    &&& (req.params matches JsonValue::Obj(fv) && fv@.len() == 1 + (if url
                        is Some {
                        1int
                    } else {
                        0int
                    }))
                    &&& (obj_get(req.params->Obj_0@, "content"@) matches Option::Some(
                        JsonValue::Str(cv),
                    ) && cv@ == content@)
                    &&& match url {
                        Some(u) => (obj_get(req.params->Obj_0@, "url"@) matches Option::Some(
                            JsonValue::Str(uv),
                        ) && uv@ == u@),
                        None => obj_get(req.params->Obj_0@, "url"@) is None,
                    }
                    &&& final(conn).engine.next_id == old(conn).engine.next_id + 1
                    &&& final(conn).engine.waiters@.len() == old(conn).engine.waiters@.len() + 1
                    &&& final(conn).engine.waiters@.last().id == req.id
                    &&& final(conn).engine.waiters@.last().guid@ == old(self).main_frame_chars()
                },
                Err(Error::ConnectionClosed) => old(conn).state == ConnectionState::Closed,
                Err(Error::ObjectGone) => !has_guid(
                    old(conn).registry.objects@,
                    old(self).main_frame_chars(),
                ),
                Err(_) => false,
            },
    {
        let mut p = ParamList::new();
        proof {
            reveal_strlit("content");
            reveal_strlit("url");
            assert("content"@.len() == 7);
            assert("url"@.len() == 3);
        }
        p.add("content", JsonValue::Str(content.to_owned()));
        match url {
            Some(u) => {
                p.add("url", JsonValue::Str(u.to_owned()));
            },
            None => {},
        }
        let target = self.main_frame_weak();
        conn.send_request(target.as_str(), "addStyleTag", p.finish())
    }

    /// Builds the page's `bringToFront` request, with empty params.
    pub fn bring_to_front(&mut self, conn: &mut Connection) -> (r: Result<Request, Error>)
        requires
            conn_wf(*old(conn)),
            old(conn).engine.next_id < u32::MAX,
        ensures
            conn_wf(*final(conn)),
            *final(self) == *old(self),
            match r {
                Ok(req) => {
                    &&& req.method@ == "bringToFront"@
                    &&& req.guid@ == old(self).guid_chars()
                    &&& req.id == old(conn).engine.next_id
                    &&& (req.params matches JsonValue::Obj(fv) && fv@.len() == 0)
                    &&& final(conn).engine.next_id == old(conn).engine.next_id + 1
                    &&& final(conn).engine.waiters@.len() == old(conn).engine.waiters@.len() + 1
                    &&& final(conn).engine.waiters@.last().id == req.id
                    &&& final(conn).engine.waiters@.last().guid@ == old(self).guid_chars()
                },
                Err(Error::ConnectionClosed) => old(conn).state == ConnectionState::Closed,
                Err(Error::ObjectGone) => !has_guid(
                    old(conn).registry.objects@,
                    old(self).guid_chars(),
                ),
                Err(_) => false,
            },
    {
        let target = self.guid.clone();
        let fields: Vec<(String, JsonValue)> = Vec::new();
        conn.send_request(target.as_str(), "bringToFront", JsonValue::Obj(fields))
    }

    /// Builds the page's `addInitScript` request: the script source travels
    /// as the one `source` param.
    pub fn add_init_script(&mut self, conn: &mut Connection, source: &str) -> (r: Result<
        Request,
        Error,
    >)
        requires
            conn_wf(*old(conn)),
            old(conn).engine.next_id < u32::MAX,
        ensures
            conn_wf(*final(conn)),
            *final(self) == *old(self),
            match r {
                Ok(req) => {
                    &&& req.method@ == "addInitScript"@
                    &&& req.guid@ == old(self).guid_chars()
                    &&& req.id == old(conn).engine.next_id
                    &&& (req.params matches JsonValue::Obj(fv) && fv@.len() == 1 && (obj_get(
                        fv@,
                        "source"@,
                    ) matches Option::Some(JsonValue::Str(sv)) && sv@ == source@))
                    &&& final(conn).engine.next_id == old(conn).engine.next_id + 1
                    &&& final(conn).engine.waiters@.len() == old(conn).engine.waiters@.len() + 1
                    &&& final(conn).engine.waiters@.last().id == req.id
                    &&& final(conn).engine.waiters@.last().guid@ == old(self).guid_chars()
                },
                Err(Error::ConnectionClosed) => old(conn).state == ConnectionState::Closed,
                Err(Error::ObjectGone) => !has_guid(
                    old(conn).registry.objects@,
                    old(self).guid_chars(),
                ),
                Err(_) => false,
            },
    {
        let mut p = ParamList::new();
        proof {
            reveal_strlit("source");
        }
        p.add("source", JsonValue::Str(source.to_owned()));
        let target = self.guid.clone();
        conn.send_request(target.as_str(), "addInitScript", p.finish())
    }

    /// Builds the page's own `close` request. A page whose registry object
    /// is already gone counts as closed: that is success, and nothing is
    /// sent. `runBeforeUnload` is included only when the caller chose it.
    pub fn close(&mut self, conn: &mut Connection, run_before_unload: Option<bool>) -> (r: Result<
        Option<Request>,
        Error,
    >)
        requires
            conn_wf(*old(conn)),
            old(conn).engine.next_id < u32::MAX,
        ensures
            conn_wf(*final(conn)),
            *final(self) == *old(self),
            final(conn).state == old(conn).state,
            final(conn).registry.objects@ == old(conn).registry.objects@,
            match r {
                Ok(Some(req)) => {
                    &&& old(conn).state == ConnectionState::Running
                    &&& has_guid(old(conn).registry.objects@, old(self).guid_chars())
                    &&& req.method@ == "close"@
                    &&& req.guid@ == old(self).guid_chars()
                    &&& req.id == old(conn).engine.next_id
                    &&& (req.params matches JsonValue::Obj(fv) && {
                        match run_before_unload {
                            Some(x) => fv@.len() == 1 && obj_get(fv@, "runBeforeUnload"@)
                                == Option::Some(JsonValue::Bool(x)),
                            None => fv@.len() == 0,
                        }
                    })
                    &&& final(conn).engine.next_id == old(conn).engine.next_id + 1
                    &&& final(conn).engine.waiters@.len() == old(conn).engine.waiters@.len() + 1
                    &&& final(conn).engine.waiters@.drop_last() == old(conn).engine.waiters@
                    &&& final(conn).engine.waiters@.last().id == req.id
                    &&& final(conn).engine.waiters@.last().guid@ == old(self).guid_chars()
                },
                Ok(None) => {
                    &&& !has_guid(old(conn).registry.objects@, old(self).guid_chars())
                    &&& final(conn).engine == old(conn).engine
                },
                Err(Error::ConnectionClosed) => {
                    &&& old(conn).state == ConnectionState::Closed
                    &&& final(conn).engine == old(conn).engine
                },
                Err(_) => false,
            },
    {
        if matches!(conn.state, ConnectionState::Closed) {
            return Err(Error::ConnectionClosed);
        }
        match conn.registry.lookup(self.guid.as_str()) {
            Some(_) => {},
            None => {
                return Ok(None);
            },
        }
        let mut p = ParamList::new();
        proof {
            reveal_strlit("runBeforeUnload");
        }
        match run_before_unload {
            Some(x) => {
                p.add("runBeforeUnload", JsonValue::Bool(x));
            },
            None => {},
        }
        let guid = self.guid.clone();
        match conn.send_request(guid.as_str(), "close", p.finish()) {
            Ok(req) => Ok(Some(req)),
            Err(e) => Err(e),
        }
    }

    /// Starts a `reload` request on this page.
    pub fn reload_builder(&mut self) -> (r: ReloadBuilder)
        ensures
            *final(self) == *old(self),
            r.target_chars() == old(self).guid_chars(),
            r.wait_until is None,
    {
        ReloadBuilder::new(self.guid.clone())
    }

    /// Starts a `goBack` request on this page.
    pub fn go_back_builder(&mut self) -> (r: GoBackBuilder)
        ensures
            *final(self) == *old(self),
            r.target_chars() == old(self).guid_chars(),
            r.wait_until is None,
    {
        GoBackBuilder::new(self.guid.clone())
    }

    /// Starts a `goForward` request on this page.
    pub fn go_forward_builder(&mut self) -> (r: GoForwardBuilder)
        ensures
            *final(self) == *old(self),
            r.target_chars() == old(self).guid_chars(),
            r.wait_until is None,
    {
        GoForwardBuilder::new(self.guid.clone())
    }

    /// Starts a `pdf` request on this page.
    pub fn pdf_builder(&mut self) -> (r: PdfBuilder)
        ensures
            *final(self) == *old(self),
            r.target_chars() == old(self).guid_chars(),
            r.display_header_footer is None,
            r.header_template is None,
            r.footer_template is None,
            r.print_background is None,
            r.landscape is None,
            r.page_ranges is None,
            r.format is None,
            r.prefer_css_page_size is None,
    {
        PdfBuilder::new(self.guid.clone())
    }

    /// Starts a `screenshot` request on this page.
    pub fn screenshot_builder(&mut self) -> (r: ScreenshotBuilder)
        ensures
            *final(self) == *old(self),
            r.target_chars() == old(self).guid_chars(),
            r.screenshot_type is None,
            r.quality is None,
            r.omit_background is None,
            r.full_page is None,
    {
        ScreenshotBuilder::new(self.guid.clone())
    }

    /// Starts a `goto` request on this page's main frame.
    pub fn goto_builder(&mut self, url: &str) -> (r: GotoBuilder)
        ensures
            *final(self) == *old(self),
            r.target_chars() == old(self).main_frame_chars(),
            r.url_chars() == url@,
            r.wait_until is None,
            r.referer is None,
    {
        GotoBuilder::new(self.main_frame_weak(), url)
    }

    /// Starts a `click` request on this page's main frame.
    pub fn click_builder(&mut self, selector: &str) -> (r: ClickBuilder)
        ensures
            *final(self) == *old(self),
            r.target_chars() == old(self).main_frame_chars(),
            r.selector_chars() == selector@,
            r.button is None,
            r.click_count is None,
            r.force is None,
            r.no_wait_after is None,
    {
        ClickBuilder::new(self.main_frame_weak(), selector)
    }

    /// Starts a `dblclick` request on this page's main frame.
    pub fn dblclick_builder(&mut self, selector: &str) -> (r: DblClickBuilder)
        ensures
            *final(self) == *old(self),
            r.target_chars() == old(self).main_frame_chars(),
            r.selector_chars() == selector@,
            r.button is None,
            r.force is None,
            r.no_wait_after is None,
    {
        DblClickBuilder::new(self.main_frame_weak(), selector)
    }

    /// Starts a `tap` request on this page's main frame.
    pub fn tap_builder(&mut self, selector: &str) -> (r: TapBuilder)
        ensures
            *final(self) == *old(self),
            r.target_chars() == old(self).main_frame_chars(),
            r.selector_chars() == selector@,
            r.force is None,
            r.no_wait_after is None,
    {
        TapBuilder::new(self.main_frame_weak(), selector)
    }

    /// Starts a `fill` request on this page's main frame.
    pub fn fill_builder(&mut self, selector: &str, value: &str) -> (r: FillBuilder)
        ensures
            *final(self) == *old(self),
            r.target_chars() == old(self).main_frame_chars(),
            r.selector_chars() == selector@,
            r.value_chars() == value@,
            r.no_wait_after is None,
    {
        FillBuilder::new(self.main_frame_weak(), selector, value)
    }

    /// Starts a `hover` request on this page's main frame.
    pub fn hover_builder(&mut self, selector: &str) -> (r: HoverBuilder)
        ensures
            *final(self) == *old(self),
            r.target_chars() == old(self).main_frame_chars(),
            r.selector_chars() == selector@,
            r.force is None,
    {
        HoverBuilder::new(self.main_frame_weak(), selector)
    }

    /// Starts a `type` request on this page's main frame.
    pub fn type_builer(&mut self, selector: &str, text: &str) -> (r: TypeBuilder)
        ensures
            *final(self) == *old(self),
            r.target_chars() == old(self).main_frame_chars(),
            r.selector_chars() == selector@,
            r.text_chars() == text@,
            r.no_wait_after is None,
    {
        TypeBuilder::new(self.main_frame_weak(), selector, text)
    }

    /// Starts a `press` request on this page's main frame.
    pub fn press_builder(&mut self, selector: &str, key: &str) -> (r: PressBuilder)
        ensures
            *final(self) == *old(self),
            r.target_chars() == old(self).main_frame_chars(),
            r.selector_chars() == selector@,
            r.key_chars() == key@,
            r.no_wait_after is None,
    {
        PressBuilder::new(self.main_frame_weak(), selector, key)
    }

    /// Starts a `check` request on this page's main frame.
    pub fn check_builder(&mut self, selector: &str) -> (r: CheckBuilder)
        ensures
            *final(self) == *old(self),
            r.target_chars() == old(self).main_frame_chars(),
            r.selector_chars() == selector@,
            r.force is None,
            r.no_wait_after is None,
    {
        CheckBuilder::new(self.main_frame_weak(), selector)
    }

    /// Starts a `uncheck` request on this page's main frame.
    pub fn uncheck_builder(&mut self, selector: &str) -> (r: UncheckBuilder)
        ensures
            *final(self) == *old(self),
            r.target_chars() == old(self).main_frame_chars(),
            r.selector_chars() == selector@,
            r.force is None,
            r.no_wait_after is None,
    {
        UncheckBuilder::new(self.main_frame_weak(), selector)
    }

    /// Starts a `waitForSelector` request on this page's main frame.
    pub fn wait_for_selector_builder(&mut self, selector: &str) -> (r: WaitForSelectorBuilder)
        ensures
            *final(self) == *old(self),
            r.target_chars() == old(self).main_frame_chars(),
            r.selector_chars() == selector@,
            r.state is None,
    {
        WaitForSelectorBuilder::new(self.main_frame_weak(), selector)
    }

    /// Starts a `setContent` request on this page's main frame.
    pub fn set_content_builder(&mut self, html: &str) -> (r: SetContentBuilder)
        ensures
            *final(self) == *old(self),
            r.target_chars() == old(self).main_frame_chars(),
            r.html_chars() == html@,
            r.wait_until is None,
    {
        SetContentBuilder::new(self.main_frame_weak(), html)
    }

    /// Starts a `addScriptTag` request on this page's main frame.
    pub fn add_script_tag_builder(&mut self, content: &str) -> (r: AddScriptTagBuilder)
        ensures
            *final(self) == *old(self),
            r.target_chars() == old(self).main_frame_chars(),
            r.content_chars() == content@,
            r.url is None,
            r.script_type is None,
    {
        AddScriptTagBuilder::new(self.main_frame_weak(), content)
    }
}

/// The param object a `reload` builder sends: its set fields and no others.
pub open spec fn reload_params(b: ReloadBuilder, fv: Seq<(String, JsonValue)>) -> bool {
    &&& fv.len() == 0 + (if b.wait_until is Some { 1int } else { 0int })
    &&& match b.wait_until {
        Option::Some(x) => (obj_get(fv, "waitUntil"@) matches Option::Some(JsonValue::Str(s)) && s@ == load_state_wire(x)),
        Option::None => obj_get(fv, "waitUntil"@) is None,
    }
}

/// Collects the optional params of one `reload` request.
pub struct ReloadBuilder {
    pub target: String,
    pub wait_until: Option<DocumentLoadState>,
}

impl ReloadBuilder {
    /// A builder aimed at the object carrying `target`.
    pub fn new(target: String) -> (r: Self)
        ensures
            r.target_chars() == target@,
            r.wait_until is None,
    {
        Self {
            target,
            wait_until: None,
        }
    }

    /// The guid the request will be sent on.
    pub open spec fn target_chars(&self) -> Seq<char> {
        self.target@
    }

    /// Sets the `waitUntil` field.
    pub fn wait_until(self, x: DocumentLoadState) -> (r: Self)
        ensures
            r == (Self { wait_until: Some(x), ..self }),
    {
        Self { wait_until: Some(x), ..self }
    }

    /// The param object this builder sends: every set field under its wire
    /// name, nothing else.
    pub fn params(&self) -> (r: JsonValue)
        ensures
            r matches JsonValue::Obj(fv) && reload_params(*self, fv@),
    {
        proof {
            reveal_strlit("waitUntil");
            assert("waitUntil"@.len() == 9);
        }
        let mut p = ParamList::new();
        match &self.wait_until {
            Some(x) => {
                p.add("waitUntil", JsonValue::Str(String::from_str(x.wire_name())));
            },
            None => {},
        }
        p.finish()
    }

    /// Builds the `reload` request and parks its waiter on the connection. The
    /// outgoing loop frames and writes it; the response resumes the waiter.
    pub fn reload(self, conn: &mut Connection) -> (r: Result<Request, Error>)
        requires
            conn_wf(*old(conn)),
            old(conn).engine.next_id < u32::MAX,
        ensures
            conn_wf(*final(conn)),
            final(conn).state == old(conn).state,
            final(conn).registry.objects@ == old(conn).registry.objects@,
            match r {
                Ok(req) => {
                    &&& old(conn).state == ConnectionState::Running
                    &&& has_guid(old(conn).registry.objects@, self.target_chars())
                    &&& req.id == old(conn).engine.next_id
                    &&& req.guid@ == self.target_chars()
                    &&& req.method@ == "reload"@
                    &&& (req.params matches JsonValue::Obj(fv) && reload_params(self, fv@))
                    &&& final(conn).engine.next_id == old(conn).engine.next_id + 1
                    &&& final(conn).engine.waiters@.len() == old(conn).engine.waiters@.len() + 1
                    &&& final(conn).engine.waiters@.last().id == req.id
                    &&& final(conn).engine.waiters@.last().guid@ == self.target_chars()
                },
                Err(Error::ConnectionClosed) => old(conn).state == ConnectionState::Closed,
                Err(Error::ObjectGone) => {
                    &&& old(conn).state == ConnectionState::Running
                    &&& !has_guid(old(conn).registry.objects@, self.target_chars())
                },
                Err(_) => false,
            },
    {
        let target = self.target.clone();
        let params = self.params();
        conn.send_request(target.as_str(), "reload", params)
    }
}

/// The param object a `goBack` builder sends: its set fields and no others.
pub open spec fn go_back_params(b: GoBackBuilder, fv: Seq<(String, JsonValue)>) -> bool {
    &&& fv.len() == 0 + (if b.wait_until is Some { 1int } else { 0int })
    &&& match b.wait_until {
        Option::Some(x) => (obj_get(fv, "waitUntil"@) matches Option::Some(JsonValue::Str(s)) && s@ == load_state_wire(x)),
        Option::None => obj_get(fv, "waitUntil"@) is None,
    }
}

/// Collects the optional params of one `goBack` request.
pub struct GoBackBuilder {
    pub target: String,
    pub wait_until: Option<DocumentLoadState>,
}

impl GoBackBuilder {
    /// A builder aimed at the object carrying `target`.
    pub fn new(target: String) -> (r: Self)
        ensures
            r.target_chars() == target@,
            r.wait_until is None,
    {
        Self {
            target,
            wait_until: None,
        }
    }

    /// The guid the request will be sent on.
    pub open spec fn target_chars(&self) -> Seq<char> {
        self.target@
    }

    /// Sets the `waitUntil` field.
    pub fn wait_until(self, x: DocumentLoadState) -> (r: Self)
        ensures
            r == (Self { wait_until: Some(x), ..self }),
    {
        Self { wait_until: Some(x), ..self }
    }

    /// The param object this builder sends: every set field under its wire
    /// name, nothing else.
    pub fn params(&self) -> (r: JsonValue)
        ensures
            r matches JsonValue::Obj(fv) && go_back_params(*self, fv@),
    {
        proof {
            reveal_strlit("waitUntil");
            assert("waitUntil"@.len() == 9);
        }
        let mut p = ParamList::new();
        match &self.wait_until {
            Some(x) => {
                p.add("waitUntil", JsonValue::Str(String::from_str(x.wire_name())));
            },
            None => {},
        }
        p.finish()
    }

    /// Builds the `goBack` request and parks its waiter on the connection. The
    /// outgoing loop frames and writes it; the response resumes the waiter.
    pub fn go_back(self, conn: &mut Connection) -> (r: Result<Request, Error>)
        requires
            conn_wf(*old(conn)),
            old(conn).engine.next_id < u32::MAX,
        ensures
            conn_wf(*final(conn)),
            final(conn).state == old(conn).state,
            final(conn).registry.objects@ == old(conn).registry.objects@,
            match r {
                Ok(req) => {
                    &&& old(conn).state == ConnectionState::Running
                    &&& has_guid(old(conn).registry.objects@, self.target_chars())
                    &&& req.id == old(conn).engine.next_id
                    &&& req.guid@ == self.target_chars()
                    &&& req.method@ == "goBack"@
                    &&& (req.params matches JsonValue::Obj(fv) && go_back_params(self, fv@))
                    &&& final(conn).engine.next_id == old(conn).engine.next_id + 1
                    &&& final(conn).engine.waiters@.len() == old(conn).engine.waiters@.len() + 1
                    &&& final(conn).engine.waiters@.last().id == req.id
                    &&& final(conn).engine.waiters@.last().guid@ == self.target_chars()
                },
                Err(Error::ConnectionClosed) => old(conn).state == ConnectionState::Closed,
                Err(Error::ObjectGone) => {
                    &&& old(conn).state == ConnectionState::Running
                    &&& !has_guid(old(conn).registry.objects@, self.target_chars())
                },
                Err(_) => false,
            },
    {
        let target = self.target.clone();
        let params = self.params();
        conn.send_request(target.as_str(), "goBack", params)
    }
}

/// The param object a `goForward` builder sends: its set fields and no others.
pub open spec fn go_forward_params(b: GoForwardBuilder, fv: Seq<(String, JsonValue)>) -> bool {
    &&& fv.len() == 0 + (if b.wait_until is Some { 1int } else { 0int })
    &&& match b.wait_until {
        Option::Some(x) => (obj_get(fv, "waitUntil"@) matches Option::Some(JsonValue::Str(s)) && s@ == load_state_wire(x)),
        Option::None => obj_get(fv, "waitUntil"@) is None,
    }
}

/// Collects the optional params of one `goForward` request.
pub struct GoForwardBuilder {
    pub target: String,
    pub wait_until: Option<DocumentLoadState>,
}

impl GoForwardBuilder {
    /// A builder aimed at the object carrying `target`.
    pub fn new(target: String) -> (r: Self)
        ensures
            r.target_chars() == target@,
            r.wait_until is None,
    {
        Self {
            target,
            wait_until: None,
        }
    }

    /// The guid the request will be sent on.
    pub open spec fn target_chars(&self) -> Seq<char> {
        self.target@
    }

    /// Sets the `waitUntil` field.
    pub fn wait_until(self, x: DocumentLoadState) -> (r: Self)
        ensures
            r == (Self { wait_until: Some(x), ..self }),
    {
        Self { wait_until: Some(x), ..self }
    }

    /// The param object this builder sends: every set field under its wire
    /// name, nothing else.
    pub fn params(&self) -> (r: JsonValue)
        ensures
            r matches JsonValue::Obj(fv) && go_forward_params(*self, fv@),
    {
        proof {
            reveal_strlit("waitUntil");
            assert("waitUntil"@.len() == 9);
        }
        let mut p = ParamList::new();
        match &self.wait_until {
            Some(x) => {
                p.add("waitUntil", JsonValue::Str(String::from_str(x.wire_name())));
            },
            None => {},
        }
        p.finish()
    }

    /// Builds the `goForward` request and parks its waiter on the connection. The
    /// outgoing loop frames and writes it; the response resumes the waiter.
    pub fn go_forward(self, conn: &mut Connection) -> (r: Result<Request, Error>)
        requires
            conn_wf(*old(conn)),
            old(conn).engine.next_id < u32::MAX,
        ensures
            conn_wf(*final(conn)),
            final(conn).state == old(conn).state,
            final(conn).registry.objects@ == old(conn).registry.objects@,
            match r {
                Ok(req) => {
                    &&& old(conn).state == ConnectionState::Running
                    &&& has_guid(old(conn).registry.objects@, self.target_chars())
                    &&& req.id == old(conn).engine.next_id
                    &&& req.guid@ == self.target_chars()
                    &&& req.method@ == "goForward"@
                    &&& (req.params matches JsonValue::Obj(fv) && go_forward_params(self, fv@))
                    &&& final(conn).engine.next_id == old(conn).engine.next_id + 1
                    &&& final(conn).engine.waiters@.len() == old(conn).engine.waiters@.len() + 1
                    &&& final(conn).engine.waiters@.last().id == req.id
                    &&& final(conn).engine.waiters@.last().guid@ == self.target_chars()
                },
                Err(Error::ConnectionClosed) => old(conn).state == ConnectionState::Closed,
                Err(Error::ObjectGone) => {
                    &&& old(conn).state == ConnectionState::Running
                    &&& !has_guid(old(conn).registry.objects@, self.target_chars())
                },
                Err(_) => false,
            },
    {
        let target = self.target.clone();
        let params = self.params();
        conn.send_request(target.as_str(), "goForward", params)
    }
}

/// The param object a `pdf` builder sends: its set fields and no others.
pub open spec fn pdf_params(b: PdfBuilder, fv: Seq<(String, JsonValue)>) -> bool {
    &&& fv.len() == 0 + (if b.display_header_footer is Some { 1int } else { 0int }) + (if b.header_template is Some { 1int } else { 0int }) + (if b.footer_template is Some { 1int } else { 0int }) + (if b.print_background is Some { 1int } else { 0int }) + (if b.landscape is Some { 1int } else { 0int }) + (if b.page_ranges is Some { 1int } else { 0int }) + (if b.format is Some { 1int } else { 0int }) + (if b.prefer_css_page_size is Some { 1int } else { 0int })
    &&& match b.display_header_footer {
        Option::Some(x) => obj_get(fv, "displayHeaderFooter"@) == Option::Some(JsonValue::Bool(x)),
        Option::None => obj_get(fv, "displayHeaderFooter"@) is None,
    }
    &&& match b.header_template {
        Option::Some(x) => (obj_get(fv, "headerTemplate"@) matches Option::Some(JsonValue::Str(s)) && s@ == x@),
        Option::None => obj_get(fv, "headerTemplate"@) is None,
    }
    &&& match b.footer_template {
        Option::Some(x) => (obj_get(fv, "footerTemplate"@) matches Option::Some(JsonValue::Str(s)) && s@ == x@),
        Option::None => obj_get(fv, "footerTemplate"@) is None,
    }
    &&& match b.print_background {
        Option::Some(x) => obj_get(fv, "printBackground"@) == Option::Some(JsonValue::Bool(x)),
        Option::None => obj_get(fv, "printBackground"@) is None,
    }
    &&& match b.landscape {
        Option::Some(x) => obj_get(fv, "landscape"@) == Option::Some(JsonValue::Bool(x)),
        Option::None => obj_get(fv, "landscape"@) is None,
    }
    &&& match b.page_ranges {
        Option::Some(x) => (obj_get(fv, "pageRanges"@) matches Option::Some(JsonValue::Str(s)) && s@ == x@),
        Option::None => obj_get(fv, "pageRanges"@) is None,
    }
    &&& match b.format {
        Option::Some(x) => (obj_get(fv, "format"@) matches Option::Some(JsonValue::Str(s)) && s@ == x@),
        Option::None => obj_get(fv, "format"@) is None,
    }
    &&& match b.prefer_css_page_size {
        Option::Some(x) => obj_get(fv, "preferCSSPageSize"@) == Option::Some(JsonValue::Bool(x)),
        Option::None => obj_get(fv, "preferCSSPageSize"@) is None,
    }
}

/// Collects the optional params of one `pdf` request.
pub struct PdfBuilder {
    pub target: String,
    pub display_header_footer: Option<bool>,
    pub header_template: Option<String>,
    pub footer_template: Option<String>,
    pub print_background: Option<bool>,
    pub landscape: Option<bool>,
    pub page_ranges: Option<String>,
    pub format: Option<String>,
    pub prefer_css_page_size: Option<bool>,
}

impl PdfBuilder {
    /// A builder aimed at the object carrying `target`.
    pub fn new(target: String) -> (r: Self)
        ensures
            r.target_chars() == target@,
            r.display_header_footer is None,
            r.header_template is None,
            r.footer_template is None,
            r.print_background is None,
            r.landscape is None,
            r.page_ranges is None,
            r.format is None,
            r.prefer_css_page_size is None,
    {
        Self {
            target,
            display_header_footer: None,
            header_template: None,
            footer_template: None,
            print_background: None,
            landscape: None,
            page_ranges: None,
            format: None,
            prefer_css_page_size: None,
        }
    }

    /// The guid the request will be sent on.
    pub open spec fn target_chars(&self) -> Seq<char> {
        self.target@
    }

    /// Sets the `displayHeaderFooter` field.
    pub fn display_header_footer(self, x: bool) -> (r: Self)
        ensures
            r == (Self { display_header_footer: Some(x), ..self }),
    {
        Self { display_header_footer: Some(x), ..self }
    }

    /// Sets the `headerTemplate` field.
    pub fn header_template(self, x: &str) -> (r: Self)
        ensures
            r.header_template matches Some(v) && v@ == x@,
            r.target == self.target,
            r.display_header_footer == self.display_header_footer,
            r.footer_template == self.footer_template,
            r.print_background == self.print_background,
            r.landscape == self.landscape,
            r.page_ranges == self.page_ranges,
            r.format == self.format,
            r.prefer_css_page_size == self.prefer_css_page_size,
    {
        Self { header_template: Some(x.to_owned()), ..self }
    }

    /// Sets the `footerTemplate` field.
    pub fn footer_template(self, x: &str) -> (r: Self)
        ensures
            r.footer_template matches Some(v) && v@ == x@,
            r.target == self.target,
            r.display_header_footer == self.display_header_footer,
            r.header_template == self.header_template,
            r.print_background == self.print_background,
            r.landscape == self.landscape,
            r.page_ranges == self.page_ranges,
            r.format == self.format,
            r.prefer_css_page_size == self.prefer_css_page_size,
    {
        Self { footer_template: Some(x.to_owned()), ..self }
    }

    /// Sets the `printBackground` field.
    pub fn print_background(self, x: bool) -> (r: Self)
        ensures
            r == (Self { print_background: Some(x), ..self }),
    {
        Self { print_background: Some(x), ..self }
    }

    /// Sets the `landscape` field.
    pub fn landscape(self, x: bool) -> (r: Self)
        ensures
            r == (Self { landscape: Some(x), ..self }),
    {
        Self { landscape: Some(x), ..self }
    }

    /// Sets the `pageRanges` field.
    pub fn page_ranges(self, x: &str) -> (r: Self)
        ensures
            r.page_ranges matches Some(v) && v@ == x@,
            r.target == self.target,
            r.display_header_footer == self.display_header_footer,
            r.header_template == self.header_template,
            r.footer_template == self.footer_template,
            r.print_background == self.print_background,
            r.landscape == self.landscape,
            r.format == self.format,
            r.prefer_css_page_size == self.prefer_css_page_size,
    {
        Self { page_ranges: Some(x.to_owned()), ..self }
    }

    /// Sets the `format` field.
    pub fn format(self, x: &str) -> (r: Self)
        ensures
            r.format matches Some(v) && v@ == x@,
            r.target == self.target,
            r.display_header_footer == self.display_header_footer,
            r.header_template == self.header_template,
            r.footer_template == self.footer_template,
            r.print_background == self.print_background,
            r.landscape == self.landscape,
            r.page_ranges == self.page_ranges,
            r.prefer_css_page_size == self.prefer_css_page_size,
    {
        Self { format: Some(x.to_owned()), ..self }
    }

    /// Sets the `preferCSSPageSize` field.
    pub fn prefer_css_page_size(self, x: bool) -> (r: Self)
        ensures
            r == (Self { prefer_css_page_size: Some(x), ..self }),
    {
        Self { prefer_css_page_size: Some(x), ..self }
    }

    /// The param object this builder sends: every set field under its wire
    /// name, nothing else.
    pub fn params(&self) -> (r: JsonValue)
        ensures
            r matches JsonValue::Obj(fv) && pdf_params(*self, fv@),
    {
        proof {
            reveal_strlit("displayHeaderFooter");
            reveal_strlit("headerTemplate");
            reveal_strlit("footerTemplate");
            reveal_strlit("printBackground");
            reveal_strlit("landscape");
            reveal_strlit("pageRanges");
            reveal_strlit("format");
            reveal_strlit("preferCSSPageSize");
            assert("displayHeaderFooter"@.len() == 19);
            assert("headerTemplate"@.len() == 14);
            assert("footerTemplate"@.len() == 14);
            assert("printBackground"@.len() == 15);
            assert("landscape"@.len() == 9);
            assert("pageRanges"@.len() == 10);
            assert("format"@.len() == 6);
            assert("preferCSSPageSize"@.len() == 17);
            assert("headerTemplate"@[0] == 'h');
            assert("footerTemplate"@[0] == 'f');
        }
        let mut p = ParamList::new();
        match &self.display_header_footer {
            Some(x) => {
                p.add("displayHeaderFooter", JsonValue::Bool(*x));
            },
            None => {},
        }
        match &self.header_template {
            Some(x) => {
                p.add("headerTemplate", JsonValue::Str(x.clone()));
            },
            None => {},
        }
        match &self.footer_template {
            Some(x) => {
                p.add("footerTemplate", JsonValue::Str(x.clone()));
            },
            None => {},
        }
        match &self.print_background {
            Some(x) => {
                p.add("printBackground", JsonValue::Bool(*x));
            },
            None => {},
        }
        match &self.landscape {
            Some(x) => {
                p.add("landscape", JsonValue::Bool(*x));
            },
            None => {},
        }
        match &self.page_ranges {
            Some(x) => {
                p.add("pageRanges", JsonValue::Str(x.clone()));
            },
            None => {},
        }
        match &self.format {
            Some(x) => {
                p.add("format", JsonValue::Str(x.clone()));
            },
            None => {},
        }
        match &self.prefer_css_page_size {
            Some(x) => {
                p.add("preferCSSPageSize", JsonValue::Bool(*x));
            },
            None => {},
        }
        p.finish()
    }

    /// Builds the `pdf` request and parks its waiter on the connection. The
    /// outgoing loop frames and writes it; the response resumes the waiter.
    pub fn pdf(self, conn: &mut Connection) -> (r: Result<Request, Error>)
        requires
            conn_wf(*old(conn)),
            old(conn).engine.next_id < u32::MAX,
        ensures
            conn_wf(*final(conn)),
            final(conn).state == old(conn).state,
            final(conn).registry.objects@ == old(conn).registry.objects@,
            match r {
                Ok(req) => {
                    &&& old(conn).state == ConnectionState::Running
                    &&& has_guid(old(conn).registry.objects@, self.target_chars())
                    &&& req.id == old(conn).engine.next_id
                    &&& req.guid@ == self.target_chars()
                    &&& req.method@ == "pdf"@
                    &&& (req.params matches JsonValue::Obj(fv) && pdf_params(self, fv@))
                    &&& final(conn).engine.next_id == old(conn).engine.next_id + 1
                    &&& final(conn).engine.waiters@.len() == old(conn).engine.waiters@.len() + 1
                    &&& final(conn).engine.waiters@.last().id == req.id
                    &&& final(conn).engine.waiters@.last().guid@ == self.target_chars()
                },
                Err(Error::ConnectionClosed) => old(conn).state == ConnectionState::Closed,
                Err(Error::ObjectGone) => {
                    &&& old(conn).state == ConnectionState::Running
                    &&& !has_guid(old(conn).registry.objects@, self.target_chars())
                },
                Err(_) => false,
            },
    {
        let target = self.target.clone();
        let params = self.params();
        conn.send_request(target.as_str(), "pdf", params)
    }
}

/// The param object a `screenshot` builder sends: its set fields and no others.
pub open spec fn screenshot_params(b: ScreenshotBuilder, fv: Seq<(String, JsonValue)>) -> bool {
    &&& fv.len() == 0 + (if b.screenshot_type is Some { 1int } else { 0int }) + (if b.quality is Some { 1int } else { 0int }) + (if b.omit_background is Some { 1int } else { 0int }) + (if b.full_page is Some { 1int } else { 0int })
    &&& match b.screenshot_type {
        Option::Some(x) => (obj_get(fv, "type"@) matches Option::Some(JsonValue::Str(s)) && s@ == screenshot_type_wire(x)),
        Option::None => obj_get(fv, "type"@) is None,
    }
    &&& match b.quality {
        Option::Some(x) => obj_get(fv, "quality"@) == Option::Some(JsonValue::Int(x as i64)),
        Option::None => obj_get(fv, "quality"@) is None,
    }
    &&& match b.omit_background {
        Option::Some(x) => obj_get(fv, "omitBackground"@) == Option::Some(JsonValue::Bool(x)),
        Option::None => obj_get(fv, "omitBackground"@) is None,
    }
    &&& match b.full_page {
        Option::Some(x) => obj_get(fv, "fullPage"@) == Option::Some(JsonValue::Bool(x)),
        Option::None => obj_get(fv, "fullPage"@) is None,
    }
}

/// Collects the optional params of one `screenshot` request.
pub struct ScreenshotBuilder {
    pub target: String,
    pub screenshot_type: Option<ScreenshotType>,
    pub quality: Option<i32>,
    pub omit_background: Option<bool>,
    pub full_page: Option<bool>,
}

impl ScreenshotBuilder {
    /// A builder aimed at the object carrying `target`.
    pub fn new(target: String) -> (r: Self)
        ensures
            r.target_chars() == target@,
            r.screenshot_type is None,
            r.quality is None,
            r.omit_background is None,
            r.full_page is None,
    {
        Self {
            target,
            screenshot_type: None,
            quality: None,
            omit_background: None,
            full_page: None,
        }
    }

    /// The guid the request will be sent on.
    pub open spec fn target_chars(&self) -> Seq<char> {
        self.target@
    }

    /// Sets the `type` field.
    pub fn screenshot_type(self, x: ScreenshotType) -> (r: Self)
        ensures
            r == (Self { screenshot_type: Some(x), ..self }),
    {
        Self { screenshot_type: Some(x), ..self }
    }

    /// Sets the `quality` field.
    pub fn quality(self, x: i32) -> (r: Self)
        ensures
            r == (Self { quality: Some(x), ..self }),
    {
        Self { quality: Some(x), ..self }
    }

    /// Sets the `omitBackground` field.
    pub fn omit_background(self, x: bool) -> (r: Self)
        ensures
            r == (Self { omit_background: Some(x), ..self }),
    {
        Self { omit_background: Some(x), ..self }
    }

    /// Sets the `fullPage` field.
    pub fn full_page(self, x: bool) -> (r: Self)
        ensures
            r == (Self { full_page: Some(x), ..self }),
    {
        Self { full_page: Some(x), ..self }
    }

    /// Clears the image format back to the driver default.
    pub fn clear_type(self) -> (r: Self)
        ensures
            r == (Self { screenshot_type: None, ..self }),
    {
        Self { screenshot_type: None, ..self }
    }

    /// The param object this builder sends: every set field under its wire
    /// name, nothing else.
    pub fn params(&self) -> (r: JsonValue)
        ensures
            r matches JsonValue::Obj(fv) && screenshot_params(*self, fv@),
    {
        proof {
            reveal_strlit("type");
            reveal_strlit("quality");
            reveal_strlit("omitBackground");
            reveal_strlit("fullPage");
            assert("type"@.len() == 4);
            assert("quality"@.len() == 7);
            assert("omitBackground"@.len() == 14);
            assert("fullPage"@.len() == 8);
        }
        let mut p = ParamList::new();
        match &self.screenshot_type {
            Some(x) => {
                p.add("type", JsonValue::Str(String::from_str(x.wire_name())));
            },
            None => {},
        }
        match &self.quality {
            Some(x) => {
                p.add("quality", JsonValue::Int(*x as i64));
            },
            None => {},
        }
        match &self.omit_background {
            Some(x) => {
                p.add("omitBackground", JsonValue::Bool(*x));
            },
            None => {},
        }
        match &self.full_page {
            Some(x) => {
                p.add("fullPage", JsonValue::Bool(*x));
            },
            None => {},
        }
        p.finish()
    }

    /// Builds the `screenshot` request and parks its waiter on the connection. The
    /// outgoing loop frames and writes it; the response resumes the waiter.
    pub fn screenshot(self, conn: &mut Connection) -> (r: Result<Request, Error>)
        requires
            conn_wf(*old(conn)),
            old(conn).engine.next_id < u32::MAX,
        ensures
            conn_wf(*final(conn)),
            final(conn).state == old(conn).state,
            final(conn).registry.objects@ == old(conn).registry.objects@,
            match r {
                Ok(req) => {
                    &&& old(conn).state == ConnectionState::Running
                    &&& has_guid(old(conn).registry.objects@, self.target_chars())
                    &&& req.id == old(conn).engine.next_id
                    &&& req.guid@ == self.target_chars()
                    &&& req.method@ == "screenshot"@
                    &&& (req.params matches JsonValue::Obj(fv) && screenshot_params(self, fv@))
                    &&& final(conn).engine.next_id == old(conn).engine.next_id + 1
                    &&& final(conn).engine.waiters@.len() == old(conn).engine.waiters@.len() + 1
                    &&& final(conn).engine.waiters@.last().id == req.id
                    &&& final(conn).engine.waiters@.last().guid@ == self.target_chars()
                },
                Err(Error::ConnectionClosed) => old(conn).state == ConnectionState::Closed,
                Err(Error::ObjectGone) => {
                    &&& old(conn).state == ConnectionState::Running
                    &&& !has_guid(old(conn).registry.objects@, self.target_chars())
                },
                Err(_) => false,
            },
    {
        let target = self.target.clone();
        let params = self.params();
        conn.send_request(target.as_str(), "screenshot", params)
    }
}

/// The param object a `goto` builder sends: its set fields and no others.
pub open spec fn goto_params(b: GotoBuilder, fv: Seq<(String, JsonValue)>) -> bool {
    &&& fv.len() == 1 + (if b.wait_until is Some { 1int } else { 0int }) + (if b.referer is Some { 1int } else { 0int })
    &&& (obj_get(fv, "url"@) matches Option::Some(JsonValue::Str(s)) && s@ == b.url_chars())
    &&& match b.wait_until {
        Option::Some(x) => (obj_get(fv, "waitUntil"@) matches Option::Some(JsonValue::Str(s)) && s@ == load_state_wire(x)),
        Option::None => obj_get(fv, "waitUntil"@) is None,
    }
    &&& match b.referer {
        Option::Some(x) => (obj_get(fv, "referer"@) matches Option::Some(JsonValue::Str(s)) && s@ == x@),
        Option::None => obj_get(fv, "referer"@) is None,
    }
}

/// Collects the optional params of one `goto` request.
pub struct GotoBuilder {
    pub target: String,
    pub url: String,
    pub wait_until: Option<DocumentLoadState>,
    pub referer: Option<String>,
}

impl GotoBuilder {
    /// A builder aimed at the object carrying `target`.
    pub fn new(target: String, url: &str) -> (r: Self)
        ensures
            r.target_chars() == target@,
            r.url_chars() == url@,
            r.wait_until is None,
            r.referer is None,
    {
        Self {
            target,
            url: url.to_owned(),
            wait_until: None,
            referer: None,
        }
    }

    /// The guid the request will be sent on.
    pub open spec fn target_chars(&self) -> Seq<char> {
        self.target@
    }

    /// The `url` argument.
    pub open spec fn url_chars(&self) -> Seq<char> {
        self.url@
    }

    /// Sets the `waitUntil` field.
    pub fn wait_until(self, x: DocumentLoadState) -> (r: Self)
        ensures
            r == (Self { wait_until: Some(x), ..self }),
    {
        Self { wait_until: Some(x), ..self }
    }

    /// Sets the `referer` field.
    pub fn referer(self, x: &str) -> (r: Self)
        ensures
            r.referer matches Some(v) && v@ == x@,
            r.target == self.target,
            r.wait_until == self.wait_until,
            r.url_chars() == self.url_chars(),
    {
        Self { referer: Some(x.to_owned()), ..self }
    }

    /// The param object this builder sends: every set field under its wire
    /// name, nothing else.
    pub fn params(&self) -> (r: JsonValue)
        ensures
            r matches JsonValue::Obj(fv) && goto_params(*self, fv@),
    {
        proof {
            reveal_strlit("url");
            reveal_strlit("waitUntil");
            reveal_strlit("referer");
            assert("url"@.len() == 3);
            assert("waitUntil"@.len() == 9);
            assert("referer"@.len() == 7);
        }
        let mut p = ParamList::new();
        p.add("url", JsonValue::Str(self.url.clone()));
        match &self.wait_until {
            Some(x) => {
                p.add("waitUntil", JsonValue::Str(String::from_str(x.wire_name())));
            },
            None => {},
        }
        match &self.referer {
            Some(x) => {
                p.add("referer", JsonValue::Str(x.clone()));
            },
            None => {},
        }
        p.finish()
    }

    /// Builds the `goto` request and parks its waiter on the connection. The
    /// outgoing loop frames and writes it; the response resumes the waiter.
    pub fn goto(self, conn: &mut Connection) -> (r: Result<Request, Error>)
        requires
            conn_wf(*old(conn)),
            old(conn).engine.next_id < u32::MAX,
        ensures
            conn_wf(*final(conn)),
            final(conn).state == old(conn).state,
            final(conn).registry.objects@ == old(conn).registry.objects@,
            match r {
                Ok(req) => {
                    &&& old(conn).state == ConnectionState::Running
                    &&& has_guid(old(conn).registry.objects@, self.target_chars())
                    &&& req.id == old(conn).engine.next_id
                    &&& req.guid@ == self.target_chars()
                    &&& req.method@ == "goto"@
                    &&& (req.params matches JsonValue::Obj(fv) && goto_params(self, fv@))
                    &&& final(conn).engine.next_id == old(conn).engine.next_id + 1
                    &&& final(conn).engine.waiters@.len() == old(conn).engine.waiters@.len() + 1
                    &&& final(conn).engine.waiters@.last().id == req.id
                    &&& final(conn).engine.waiters@.last().guid@ == self.target_chars()
                },
                Err(Error::ConnectionClosed) => old(conn).state == ConnectionState::Closed,
                Err(Error::ObjectGone) => {
                    &&& old(conn).state == ConnectionState::Running
                    &&& !has_guid(old(conn).registry.objects@, self.target_chars())
                },
                Err(_) => false,
            },
    {
        let target = self.target.clone();
        let params = self.params();
        conn.send_request(target.as_str(), "goto", params)
    }
}

/// The param object a `click` builder sends: its set fields and no others.
pub open spec fn click_params(b: ClickBuilder, fv: Seq<(String, JsonValue)>) -> bool {
    &&& fv.len() == 1 + (if b.button is Some { 1int } else { 0int }) + (if b.click_count is Some { 1int } else { 0int }) + (if b.force is Some { 1int } else { 0int }) + (if b.no_wait_after is Some { 1int } else { 0int })
    &&& (obj_get(fv, "selector"@) matches Option::Some(JsonValue::Str(s)) && s@ == b.selector_chars())
    &&& match b.button {
        Option::Some(x) => (obj_get(fv, "button"@) matches Option::Some(JsonValue::Str(s)) && s@ == mouse_button_wire(x)),
        Option::None => obj_get(fv, "button"@) is None,
    }
    &&& match b.click_count {
        Option::Some(x) => obj_get(fv, "clickCount"@) == Option::Some(JsonValue::Int(x as i64)),
        Option::None => obj_get(fv, "clickCount"@) is None,
    }
    &&& match b.force {
        Option::Some(x) => obj_get(fv, "force"@) == Option::Some(JsonValue::Bool(x)),
        Option::None => obj_get(fv, "force"@) is None,
    }
    &&& match b.no_wait_after {
        Option::Some(x) => obj_get(fv, "noWaitAfter"@) == Option::Some(JsonValue::Bool(x)),
        Option::None => obj_get(fv, "noWaitAfter"@) is None,
    }
}

/// Collects the optional params of one `click` request.
pub struct ClickBuilder {
    pub target: String,
    pub selector: String,
    pub button: Option<MouseButton>,
    pub click_count: Option<i32>,
    pub force: Option<bool>,
    pub no_wait_after: Option<bool>,
}

impl ClickBuilder {
    /// A builder aimed at the object carrying `target`.
    pub fn new(target: String, selector: &str) -> (r: Self)
        ensures
            r.target_chars() == target@,
            r.selector_chars() == selector@,
            r.button is None,
            r.click_count is None,
            r.force is None,
            r.no_wait_after is None,
    {
        Self {
            target,
            selector: selector.to_owned(),
            button: None,
            click_count: None,
            force: None,
            no_wait_after: None,
        }
    }

    /// The guid the request will be sent on.
    pub open spec fn target_chars(&self) -> Seq<char> {
        self.target@
    }

    /// The `selector` argument.
    pub open spec fn selector_chars(&self) -> Seq<char> {
        self.selector@
    }

    /// Sets the `button` field.
    pub fn button(self, x: MouseButton) -> (r: Self)
        ensures
            r == (Self { button: Some(x), ..self }),
    {
        Self { button: Some(x), ..self }
    }

    /// Sets the `clickCount` field.
    pub fn click_count(self, x: i32) -> (r: Self)
        ensures
            r == (Self { click_count: Some(x), ..self }),
    {
        Self { click_count: Some(x), ..self }
    }

    /// Sets the `force` field.
    pub fn force(self, x: bool) -> (r: Self)
        ensures
            r == (Self { force: Some(x), ..self }),
    {
        Self { force: Some(x), ..self }
    }

    /// Sets the `noWaitAfter` field.
    pub fn no_wait_after(self, x: bool) -> (r: Self)
        ensures
            r == (Self { no_wait_after: Some(x), ..self }),
    {
        Self { no_wait_after: Some(x), ..self }
    }

    /// The param object this builder sends: every set field under its wire
    /// name, nothing else.
    pub fn params(&self) -> (r: JsonValue)
        ensures
            r matches JsonValue::Obj(fv) && click_params(*self, fv@),
    {
        proof {
            reveal_strlit("selector");
            reveal_strlit("button");
            reveal_strlit("clickCount");
            reveal_strlit("force");
            reveal_strlit("noWaitAfter");
            assert("selector"@.len() == 8);
            assert("button"@.len() == 6);
            assert("clickCount"@.len() == 10);
            assert("force"@.len() == 5);
            assert("noWaitAfter"@.len() == 11);
        }
        let mut p = ParamList::new();
        p.add("selector", JsonValue::Str(self.selector.clone()));
        match &self.button {
            Some(x) => {
                p.add("button", JsonValue::Str(String::from_str(x.wire_name())));
            },
            None => {},
        }
        match &self.click_count {
            Some(x) => {
                p.add("clickCount", JsonValue::Int(*x as i64));
            },
            None => {},
        }
        match &self.force {
            Some(x) => {
                p.add("force", JsonValue::Bool(*x));
            },
            None => {},
        }
        match &self.no_wait_after {
            Some(x) => {
                p.add("noWaitAfter", JsonValue::Bool(*x));
            },
            None => {},
        }
        p.finish()
    }

    /// Builds the `click` request and parks its waiter on the connection. The
    /// outgoing loop frames and writes it; the response resumes the waiter.
    pub fn click(self, conn: &mut Connection) -> (r: Result<Request, Error>)
        requires
            conn_wf(*old(conn)),
            old(conn).engine.next_id < u32::MAX,
        ensures
            conn_wf(*final(conn)),
            final(conn).state == old(conn).state,
            final(conn).registry.objects@ == old(conn).registry.objects@,
            match r {
                Ok(req) => {
                    &&& old(conn).state == ConnectionState::Running
                    &&& has_guid(old(conn).registry.objects@, self.target_chars())
                    &&& req.id == old(conn).engine.next_id
                    &&& req.guid@ == self.target_chars()
                    &&& req.method@ == "click"@
                    &&& (req.params matches JsonValue::Obj(fv) && click_params(self, fv@))
                    &&& final(conn).engine.next_id == old(conn).engine.next_id + 1
                    &&& final(conn).engine.waiters@.len() == old(conn).engine.waiters@.len() + 1
                    &&& final(conn).engine.waiters@.last().id == req.id
                    &&& final(conn).engine.waiters@.last().guid@ == self.target_chars()
                },
                Err(Error::ConnectionClosed) => old(conn).state == ConnectionState::Closed,
                Err(Error::ObjectGone) => {
                    &&& old(conn).state == ConnectionState::Running
                    &&& !has_guid(old(conn).registry.objects@, self.target_chars())
                },
                Err(_) => false,
            },
    {
        let target = self.target.clone();
        let params = self.params();
        conn.send_request(target.as_str(), "click", params)
    }
}

/// The param object a `dblclick` builder sends: its set fields and no others.
pub open spec fn dblclick_params(b: DblClickBuilder, fv: Seq<(String, JsonValue)>) -> bool {
    &&& fv.len() == 1 + (if b.button is Some { 1int } else { 0int }) + (if b.force is Some { 1int } else { 0int }) + (if b.no_wait_after is Some { 1int } else { 0int })
    &&& (obj_get(fv, "selector"@) matches Option::Some(JsonValue::Str(s)) && s@ == b.selector_chars())
    &&& match b.button {
        Option::Some(x) => (obj_get(fv, "button"@) matches Option::Some(JsonValue::Str(s)) && s@ == mouse_button_wire(x)),
        Option::None => obj_get(fv, "button"@) is None,
    }
    &&& match b.force {
        Option::Some(x) => obj_get(fv, "force"@) == Option::Some(JsonValue::Bool(x)),
        Option::None => obj_get(fv, "force"@) is None,
    }
    &&& match b.no_wait_after {
        Option::Some(x) => obj_get(fv, "noWaitAfter"@) == Option::Some(JsonValue::Bool(x)),
        Option::None => obj_get(fv, "noWaitAfter"@) is None,
    }
}

/// Collects the optional params of one `dblclick` request.
pub struct DblClickBuilder {
    pub target: String,
    pub selector: String,
    pub button: Option<MouseButton>,
    pub force: Option<bool>,
    pub no_wait_after: Option<bool>,
}

impl DblClickBuilder {
    /// A builder aimed at the object carrying `target`.
    pub fn new(target: String, selector: &str) -> (r: Self)
        ensures
            r.target_chars() == target@,
            r.selector_chars() == selector@,
            r.button is None,
            r.force is None,
            r.no_wait_after is None,
    {
        Self {
            target,
            selector: selector.to_owned(),
            button: None,
            force: None,
            no_wait_after: None,
        }
    }

    /// The guid the request will be sent on.
    pub open spec fn target_chars(&self) -> Seq<char> {
        self.target@
    }

    /// The `selector` argument.
    pub open spec fn selector_chars(&self) -> Seq<char> {
        self.selector@
    }

    /// Sets the `button` field.
    pub fn button(self, x: MouseButton) -> (r: Self)
        ensures
            r == (Self { button: Some(x), ..self }),
    {
        Self { button: Some(x), ..self }
    }

    /// Sets the `force` field.
    pub fn force(self, x: bool) -> (r: Self)
        ensures
            r == (Self { force: Some(x), ..self }),
    {
        Self { force: Some(x), ..self }
    }

    /// Sets the `noWaitAfter` field.
    pub fn no_wait_after(self, x: bool) -> (r: Self)
        ensures
            r == (Self { no_wait_after: Some(x), ..self }),
    {
        Self { no_wait_after: Some(x), ..self }
    }

    /// The param object this builder sends: every set field under its wire
    /// name, nothing else.
    pub fn params(&self) -> (r: JsonValue)
        ensures
            r matches JsonValue::Obj(fv) && dblclick_params(*self, fv@),
    {
        proof {
            reveal_strlit("selector");
            reveal_strlit("button");
            reveal_strlit("force");
            reveal_strlit("noWaitAfter");
            assert("selector"@.len() == 8);
            assert("button"@.len() == 6);
            assert("force"@.len() == 5);
            assert("noWaitAfter"@.len() == 11);
        }
        let mut p = ParamList::new();
        p.add("selector", JsonValue::Str(self.selector.clone()));
        match &self.button {
            Some(x) => {
                p.add("button", JsonValue::Str(String::from_str(x.wire_name())));
            },
            None => {},
        }
        match &self.force {
            Some(x) => {
                p.add("force", JsonValue::Bool(*x));
            },
            None => {},
        }
        match &self.no_wait_after {
            Some(x) => {
                p.add("noWaitAfter", JsonValue::Bool(*x));
            },
            None => {},
        }
        p.finish()
    }

    /// Builds the `dblclick` request and parks its waiter on the connection. The
    /// outgoing loop frames and writes it; the response resumes the waiter.
    pub fn dblclick(self, conn: &mut Connection) -> (r: Result<Request, Error>)
        requires
            conn_wf(*old(conn)),
            old(conn).engine.next_id < u32::MAX,
        ensures
            conn_wf(*final(conn)),
            final(conn).state == old(conn).state,
            final(conn).registry.objects@ == old(conn).registry.objects@,
            match r {
                Ok(req) => {
                    &&& old(conn).state == ConnectionState::Running
                    &&& has_guid(old(conn).registry.objects@, self.target_chars())
                    &&& req.id == old(conn).engine.next_id
                    &&& req.guid@ == self.target_chars()
                    &&& req.method@ == "dblclick"@
                    &&& (req.params matches JsonValue::Obj(fv) && dblclick_params(self, fv@))
                    &&& final(conn).engine.next_id == old(conn).engine.next_id + 1
                    &&& final(conn).engine.waiters@.len() == old(conn).engine.waiters@.len() + 1
                    &&& final(conn).engine.waiters@.last().id == req.id
                    &&& final(conn).engine.waiters@.last().guid@ == self.target_chars()
                },
                Err(Error::ConnectionClosed) => old(conn).state == ConnectionState::Closed,
                Err(Error::ObjectGone) => {
                    &&& old(conn).state == ConnectionState::Running
                    &&& !has_guid(old(conn).registry.objects@, self.target_chars())
                },
                Err(_) => false,
            },
    {
        let target = self.target.clone();
        let params = self.params();
        conn.send_request(target.as_str(), "dblclick", params)
    }
}

/// The param object a `tap` builder sends: its set fields and no others.
pub open spec fn tap_params(b: TapBuilder, fv: Seq<(String, JsonValue)>) -> bool {
    &&& fv.len() == 1 + (if b.force is Some { 1int } else { 0int }) + (if b.no_wait_after is Some { 1int } else { 0int })
    &&& (obj_get(fv, "selector"@) matches Option::Some(JsonValue::Str(s)) && s@ == b.selector_chars())
    &&& match b.force {
        Option::Some(x) => obj_get(fv, "force"@) == Option::Some(JsonValue::Bool(x)),
        Option::None => obj_get(fv, "force"@) is None,
    }
    &&& match b.no_wait_after {
        Option::Some(x) => obj_get(fv, "noWaitAfter"@) == Option::Some(JsonValue::Bool(x)),
        Option::None => obj_get(fv, "noWaitAfter"@) is None,
    }
}

/// Collects the optional params of one `tap` request.
pub struct TapBuilder {
    pub target: String,
    pub selector: String,
    pub force: Option<bool>,
    pub no_wait_after: Option<bool>,
}

impl TapBuilder {
    /// A builder aimed at the object carrying `target`.
    pub fn new(target: String, selector: &str) -> (r: Self)
        ensures
            r.target_chars() == target@,
            r.selector_chars() == selector@,
            r.force is None,
            r.no_wait_after is None,
    {
        Self {
            target,
            selector: selector.to_owned(),
            force: None,
            no_wait_after: None,
        }
    }

    /// The guid the request will be sent on.
    pub open spec fn target_chars(&self) -> Seq<char> {
        self.target@
    }

    /// The `selector` argument.
    pub open spec fn selector_chars(&self) -> Seq<char> {
        self.selector@
    }

    /// Sets the `force` field.
    pub fn force(self, x: bool) -> (r: Self)
        ensures
            r == (Self { force: Some(x), ..self }),
    {
        Self { force: Some(x), ..self }
    }

    /// Sets the `noWaitAfter` field.
    pub fn no_wait_after(self, x: bool) -> (r: Self)
        ensures
            r == (Self { no_wait_after: Some(x), ..self }),
    {
        Self { no_wait_after: Some(x), ..self }
    }

    /// The param object this builder sends: every set field under its wire
    /// name, nothing else.
    pub fn params(&self) -> (r: JsonValue)
        ensures
            r matches JsonValue::Obj(fv) && tap_params(*self, fv@),
    {
        proof {
            reveal_strlit("selector");
            reveal_strlit("force");
            reveal_strlit("noWaitAfter");
            assert("selector"@.len() == 8);
            assert("force"@.len() == 5);
            assert("noWaitAfter"@.len() == 11);
        }
        let mut p = ParamList::new();
        p.add("selector", JsonValue::Str(self.selector.clone()));
        match &self.force {
            Some(x) => {
                p.add("force", JsonValue::Bool(*x));
            },
            None => {},
        }
        match &self.no_wait_after {
            Some(x) => {
                p.add("noWaitAfter", JsonValue::Bool(*x));
            },
            None => {},
        }
        p.finish()
    }

    /// Builds the `tap` request and parks its waiter on the connection. The
    /// outgoing loop frames and writes it; the response resumes the waiter.
    pub fn tap(self, conn: &mut Connection) -> (r: Result<Request, Error>)
        requires
            conn_wf(*old(conn)),
            old(conn).engine.next_id < u32::MAX,
        ensures
            conn_wf(*final(conn)),
            final(conn).state == old(conn).state,
            final(conn).registry.objects@ == old(conn).registry.objects@,
            match r {
                Ok(req) => {
                    &&& old(conn).state == ConnectionState::Running
                    &&& has_guid(old(conn).registry.objects@, self.target_chars())
                    &&& req.id == old(conn).engine.next_id
                    &&& req.guid@ == self.target_chars()
                    &&& req.method@ == "tap"@
                    &&& (req.params matches JsonValue::Obj(fv) && tap_params(self, fv@))
                    &&& final(conn).engine.next_id == old(conn).engine.next_id + 1
                    &&& final(conn).engine.waiters@.len() == old(conn).engine.waiters@.len() + 1
                    &&& final(conn).engine.waiters@.last().id == req.id
                    &&& final(conn).engine.waiters@.last().guid@ == self.target_chars()
                },
                Err(Error::ConnectionClosed) => old(conn).state == ConnectionState::Closed,
                Err(Error::ObjectGone) => {
                    &&& old(conn).state == ConnectionState::Running
                    &&& !has_guid(old(conn).registry.objects@, self.target_chars())
                },
                Err(_) => false,
            },
    {
        let target = self.target.clone();
        let params = self.params();
        conn.send_request(target.as_str(), "tap", params)
    }
}

/// The param object a `fill` builder sends: its set fields and no others.
pub open spec fn fill_params(b: FillBuilder, fv: Seq<(String, JsonValue)>) -> bool {
    &&& fv.len() == 2 + (if b.no_wait_after is Some { 1int } else { 0int })
    &&& (obj_get(fv, "selector"@) matches Option::Some(JsonValue::Str(s)) && s@ == b.selector_chars())
    &&& (obj_get(fv, "value"@) matches Option::Some(JsonValue::Str(s)) && s@ == b.value_chars())
    &&& match b.no_wait_after {
        Option::Some(x) => obj_get(fv, "noWaitAfter"@) == Option::Some(JsonValue::Bool(x)),
        Option::None => obj_get(fv, "noWaitAfter"@) is None,
    }
}

/// Collects the optional params of one `fill` request.
pub struct FillBuilder {
    pub target: String,
    pub selector: String,
    pub value: String,
    pub no_wait_after: Option<bool>,
}

impl FillBuilder {
    /// A builder aimed at the object carrying `target`.
    pub fn new(target: String, selector: &str, value: &str) -> (r: Self)
        ensures
            r.target_chars() == target@,
            r.selector_chars() == selector@,
            r.value_chars() == value@,
            r.no_wait_after is None,
    {
        Self {
            target,
            selector: selector.to_owned(),
            value: value.to_owned(),
            no_wait_after: None,
        }
    }

    /// The guid the request will be sent on.
    pub open spec fn target_chars(&self) -> Seq<char> {
        self.target@
    }

    /// The `selector` argument.
    pub open spec fn selector_chars(&self) -> Seq<char> {
        self.selector@
    }

    /// The `value` argument.
    pub open spec fn value_chars(&self) -> Seq<char> {
        self.value@
    }

    /// Sets the `noWaitAfter` field.
    pub fn no_wait_after(self, x: bool) -> (r: Self)
        ensures
            r == (Self { no_wait_after: Some(x), ..self }),
    {
        Self { no_wait_after: Some(x), ..self }
    }

    /// The param object this builder sends: every set field under its wire
    /// name, nothing else.
    pub fn params(&self) -> (r: JsonValue)
        ensures
            r matches JsonValue::Obj(fv) && fill_params(*self, fv@),
    {
        proof {
            reveal_strlit("selector");
            reveal_strlit("value");
            reveal_strlit("noWaitAfter");
            assert("selector"@.len() == 8);
            assert("value"@.len() == 5);
            assert("noWaitAfter"@.len() == 11);
        }
        let mut p = ParamList::new();
        p.add("selector", JsonValue::Str(self.selector.clone()));
        p.add("value", JsonValue::Str(self.value.clone()));
        match &self.no_wait_after {
            Some(x) => {
                p.add("noWaitAfter", JsonValue::Bool(*x));
            },
            None => {},
        }
        p.finish()
    }

    /// Builds the `fill` request and parks its waiter on the connection. The
    /// outgoing loop frames and writes it; the response resumes the waiter.
    pub fn fill(self, conn: &mut Connection) -> (r: Result<Request, Error>)
        requires
            conn_wf(*old(conn)),
            old(conn).engine.next_id < u32::MAX,
        ensures
            conn_wf(*final(conn)),
            final(conn).state == old(conn).state,
            final(conn).registry.objects@ == old(conn).registry.objects@,
            match r {
                Ok(req) => {
                    &&& old(conn).state == ConnectionState::Running
                    &&& has_guid(old(conn).registry.objects@, self.target_chars())
                    &&& req.id == old(conn).engine.next_id
                    &&& req.guid@ == self.target_chars()
                    &&& req.method@ == "fill"@
                    &&& (req.params matches JsonValue::Obj(fv) && fill_params(self, fv@))
                    &&& final(conn).engine.next_id == old(conn).engine.next_id + 1
                    &&& final(conn).engine.waiters@.len() == old(conn).engine.waiters@.len() + 1
                    &&& final(conn).engine.waiters@.last().id == req.id
                    &&& final(conn).engine.waiters@.last().guid@ == self.target_chars()
                },
                Err(Error::ConnectionClosed) => old(conn).state == ConnectionState::Closed,
                Err(Error::ObjectGone) => {
                    &&& old(conn).state == ConnectionState::Running
                    &&& !has_guid(old(conn).registry.objects@, self.target_chars())
                },
                Err(_) => false,
            },
    {
        let target = self.target.clone();
        let params = self.params();
        conn.send_request(target.as_str(), "fill", params)
    }
}

/// The param object a `hover` builder sends: its set fields and no others.
pub open spec fn hover_params(b: HoverBuilder, fv: Seq<(String, JsonValue)>) -> bool {
    &&& fv.len() == 1 + (if b.force is Some { 1int } else { 0int })
    &&& (obj_get(fv, "selector"@) matches Option::Some(JsonValue::Str(s)) && s@ == b.selector_chars())
    &&& match b.force {
        Option::Some(x) => obj_get(fv, "force"@) == Option::Some(JsonValue::Bool(x)),
        Option::None => obj_get(fv, "force"@) is None,
    }
}

/// Collects the optional params of one `hover` request.
pub struct HoverBuilder {
    pub target: String,
    pub selector: String,
    pub force: Option<bool>,
}

impl HoverBuilder {
    /// A builder aimed at the object carrying `target`.
    pub fn new(target: String, selector: &str) -> (r: Self)
        ensures
            r.target_chars() == target@,
            r.selector_chars() == selector@,
            r.force is None,
    {
        Self {
            target,
            selector: selector.to_owned(),
            force: None,
        }
    }

    /// The guid the request will be sent on.
    pub open spec fn target_chars(&self) -> Seq<char> {
        self.target@
    }

    /// The `selector` argument.
    pub open spec fn selector_chars(&self) -> Seq<char> {
        self.selector@
    }

    /// Sets the `force` field.
    pub fn force(self, x: bool) -> (r: Self)
        ensures
            r == (Self { force: Some(x), ..self }),
    {
        Self { force: Some(x), ..self }
    }

    /// The param object this builder sends: every set field under its wire
    /// name, nothing else.
    pub fn params(&self) -> (r: JsonValue)
        ensures
            r matches JsonValue::Obj(fv) && hover_params(*self, fv@),
    {
        proof {
            reveal_strlit("selector");
            reveal_strlit("force");
            assert("selector"@.len() == 8);
            assert("force"@.len() == 5);
        }
        let mut p = ParamList::new();
        p.add("selector", JsonValue::Str(self.selector.clone()));
        match &self.force {
            Some(x) => {
                p.add("force", JsonValue::Bool(*x));
            },
            None => {},
        }
        p.finish()
    }

    /// Builds the `hover` request and parks its waiter on the connection. The
    /// outgoing loop frames and writes it; the response resumes the waiter.
    pub fn hover(self, conn: &mut Connection) -> (r: Result<Request, Error>)
        requires
            conn_wf(*old(conn)),
            old(conn).engine.next_id < u32::MAX,
        ensures
            conn_wf(*final(conn)),
            final(conn).state == old(conn).state,
            final(conn).registry.objects@ == old(conn).registry.objects@,
            match r {
                Ok(req) => {
                    &&& old(conn).state == ConnectionState::Running
                    &&& has_guid(old(conn).registry.objects@, self.target_chars())
                    &&& req.id == old(conn).engine.next_id
                    &&& req.guid@ == self.target_chars()
                    &&& req.method@ == "hover"@
                    &&& (req.params matches JsonValue::Obj(fv) && hover_params(self, fv@))
                    &&& final(conn).engine.next_id == old(conn).engine.next_id + 1
                    &&& final(conn).engine.waiters@.len() == old(conn).engine.waiters@.len() + 1
                    &&& final(conn).engine.waiters@.last().id == req.id
                    &&& final(conn).engine.waiters@.last().guid@ == self.target_chars()
                },
                Err(Error::ConnectionClosed) => old(conn).state == ConnectionState::Closed,
                Err(Error::ObjectGone) => {
                    &&& old(conn).state == ConnectionState::Running
                    &&& !has_guid(old(conn).registry.objects@, self.target_chars())
                },
                Err(_) => false,
            },
    {
        let target = self.target.clone();
        let params = self.params();
        conn.send_request(target.as_str(), "hover", params)
    }
}

/// The param object a `type` builder sends: its set fields and no others.
pub open spec fn type_text_params(b: TypeBuilder, fv: Seq<(String, JsonValue)>) -> bool {
    &&& fv.len() == 2 + (if b.no_wait_after is Some { 1int } else { 0int })
    &&& (obj_get(fv, "selector"@) matches Option::Some(JsonValue::Str(s)) && s@ == b.selector_chars())
    &&& (obj_get(fv, "text"@) matches Option::Some(JsonValue::Str(s)) && s@ == b.text_chars())
    &&& match b.no_wait_after {
        Option::Some(x) => obj_get(fv, "noWaitAfter"@) == Option::Some(JsonValue::Bool(x)),
        Option::None => obj_get(fv, "noWaitAfter"@) is None,
    }
}

/// Collects the optional params of one `type` request.
pub struct TypeBuilder {
    pub target: String,
    pub selector: String,
    pub text: String,
    pub no_wait_after: Option<bool>,
}

impl TypeBuilder {
    /// A builder aimed at the object carrying `target`.
    pub fn new(target: String, selector: &str, text: &str) -> (r: Self)
        ensures
            r.target_chars() == target@,
            r.selector_chars() == selector@,
            r.text_chars() == text@,
            r.no_wait_after is None,
    {
        Self {
            target,
            selector: selector.to_owned(),
            text: text.to_owned(),
            no_wait_after: None,
        }
    }

    /// The guid the request will be sent on.
    pub open spec fn target_chars(&self) -> Seq<char> {
        self.target@
    }

    /// The `selector` argument.
    pub open spec fn selector_chars(&self) -> Seq<char> {
        self.selector@
    }

    /// The `text` argument.
    pub open spec fn text_chars(&self) -> Seq<char> {
        self.text@
    }

    /// Sets the `noWaitAfter` field.
    pub fn no_wait_after(self, x: bool) -> (r: Self)
        ensures
            r == (Self { no_wait_after: Some(x), ..self }),
    {
        Self { no_wait_after: Some(x), ..self }
    }

    /// The param object this builder sends: every set field under its wire
    /// name, nothing else.
    pub fn params(&self) -> (r: JsonValue)
        ensures
            r matches JsonValue::Obj(fv) && type_text_params(*self, fv@),
    {
        proof {
            reveal_strlit("selector");
            reveal_strlit("text");
            reveal_strlit("noWaitAfter");
            assert("selector"@.len() == 8);
            assert("text"@.len() == 4);
            assert("noWaitAfter"@.len() == 11);
        }
        let mut p = ParamList::new();
        p.add("selector", JsonValue::Str(self.selector.clone()));
        p.add("text", JsonValue::Str(self.text.clone()));
        match &self.no_wait_after {
            Some(x) => {
                p.add("noWaitAfter", JsonValue::Bool(*x));
            },
            None => {},
        }
        p.finish()
    }

    /// Builds the `type` request and parks its waiter on the connection. The
    /// outgoing loop frames and writes it; the response resumes the waiter.
    pub fn type_text(self, conn: &mut Connection) -> (r: Result<Request, Error>)
        requires
            conn_wf(*old(conn)),
            old(conn).engine.next_id < u32::MAX,
        ensures
            conn_wf(*final(conn)),
            final(conn).state == old(conn).state,
            final(conn).registry.objects@ == old(conn).registry.objects@,
            match r {
                Ok(req) => {
                    &&& old(conn).state == ConnectionState::Running
                    &&& has_guid(old(conn).registry.objects@, self.target_chars())
                    &&& req.id == old(conn).engine.next_id
                    &&& req.guid@ == self.target_chars()
                    &&& req.method@ == "type"@
                    &&& (req.params matches JsonValue::Obj(fv) && type_text_params(self, fv@))
                    &&& final(conn).engine.next_id == old(conn).engine.next_id + 1
                    &&& final(conn).engine.waiters@.len() == old(conn).engine.waiters@.len() + 1
                    &&& final(conn).engine.waiters@.last().id == req.id
                    &&& final(conn).engine.waiters@.last().guid@ == self.target_chars()
                },
                Err(Error::ConnectionClosed) => old(conn).state == ConnectionState::Closed,
                Err(Error::ObjectGone) => {
                    &&& old(conn).state == ConnectionState::Running
                    &&& !has_guid(old(conn).registry.objects@, self.target_chars())
                },
                Err(_) => false,
            },
    {
        let target = self.target.clone();
        let params = self.params();
        conn.send_request(target.as_str(), "type", params)
    }
}

/// The param object a `press` builder sends: its set fields and no others.
pub open spec fn press_params(b: PressBuilder, fv: Seq<(String, JsonValue)>) -> bool {
    &&& fv.len() == 2 + (if b.no_wait_after is Some { 1int } else { 0int })
    &&& (obj_get(fv, "selector"@) matches Option::Some(JsonValue::Str(s)) && s@ == b.selector_chars())
    &&& (obj_get(fv, "key"@) matches Option::Some(JsonValue::Str(s)) && s@ == b.key_chars())
    &&& match b.no_wait_after {
        Option::Some(x) => obj_get(fv, "noWaitAfter"@) == Option::Some(JsonValue::Bool(x)),
        Option::None => obj_get(fv, "noWaitAfter"@) is None,
    }
}

/// Collects the optional params of one `press` request.
pub struct PressBuilder {
    pub target: String,
    pub selector: String,
    pub key: String,
    pub no_wait_after: Option<bool>,
}

impl PressBuilder {
    /// A builder aimed at the object carrying `target`.
    pub fn new(target: String, selector: &str, key: &str) -> (r: Self)
        ensures
            r.target_chars() == target@,
            r.selector_chars() == selector@,
            r.key_chars() == key@,
            r.no_wait_after is None,
    {
        Self {
            target,
            selector: selector.to_owned(),
            key: key.to_owned(),
            no_wait_after: None,
        }
    }

    /// The guid the request will be sent on.
    pub open spec fn target_chars(&self) -> Seq<char> {
        self.target@
    }

    /// The `selector` argument.
    pub open spec fn selector_chars(&self) -> Seq<char> {
        self.selector@
    }

    /// The `key` argument.
    pub open spec fn key_chars(&self) -> Seq<char> {
        self.key@
    }

    /// Sets the `noWaitAfter` field.
    pub fn no_wait_after(self, x: bool) -> (r: Self)
        ensures
            r == (Self { no_wait_after: Some(x), ..self }),
    {
        Self { no_wait_after: Some(x), ..self }
    }

    /// The param object this builder sends: every set field under its wire
    /// name, nothing else.
    pub fn params(&self) -> (r: JsonValue)
        ensures
            r matches JsonValue::Obj(fv) && press_params(*self, fv@),
    {
        proof {
            reveal_strlit("selector");
            reveal_strlit("key");
            reveal_strlit("noWaitAfter");
            assert("selector"@.len() == 8);
            assert("key"@.len() == 3);
            assert("noWaitAfter"@.len() == 11);
        }
        let mut p = ParamList::new();
        p.add("selector", JsonValue::Str(self.selector.clone()));
        p.add("key", JsonValue::Str(self.key.clone()));
        match &self.no_wait_after {
            Some(x) => {
                p.add("noWaitAfter", JsonValue::Bool(*x));
            },
            None => {},
        }
        p.finish()
    }

    /// Builds the `press` request and parks its waiter on the connection. The
    /// outgoing loop frames and writes it; the response resumes the waiter.
    pub fn press(self, conn: &mut Connection) -> (r: Result<Request, Error>)
        requires
            conn_wf(*old(conn)),
            old(conn).engine.next_id < u32::MAX,
        ensures
            conn_wf(*final(conn)),
            final(conn).state == old(conn).state,
            final(conn).registry.objects@ == old(conn).registry.objects@,
            match r {
                Ok(req) => {
                    &&& old(conn).state == ConnectionState::Running
                    &&& has_guid(old(conn).registry.objects@, self.target_chars())
                    &&& req.id == old(conn).engine.next_id
                    &&& req.guid@ == self.target_chars()
                    &&& req.method@ == "press"@
                    &&& (req.params matches JsonValue::Obj(fv) && press_params(self, fv@))
                    &&& final(conn).engine.next_id == old(conn).engine.next_id + 1
                    &&& final(conn).engine.waiters@.len() == old(conn).engine.waiters@.len() + 1
                    &&& final(conn).engine.waiters@.last().id == req.id
                    &&& final(conn).engine.waiters@.last().guid@ == self.target_chars()
                },
                Err(Error::ConnectionClosed) => old(conn).state == ConnectionState::Closed,
                Err(Error::ObjectGone) => {
                    &&& old(conn).state == ConnectionState::Running
                    &&& !has_guid(old(conn).registry.objects@, self.target_chars())
                },
                Err(_) => false,
            },
    {
        let target = self.target.clone();
        let params = self.params();
        conn.send_request(target.as_str(), "press", params)
    }
}

/// The param object a `check` builder sends: its set fields and no others.
pub open spec fn check_params(b: CheckBuilder, fv: Seq<(String, JsonValue)>) -> bool {
    &&& fv.len() == 1 + (if b.force is Some { 1int } else { 0int }) + (if b.no_wait_after is Some { 1int } else { 0int })
    &&& (obj_get(fv, "selector"@) matches Option::Some(JsonValue::Str(s)) && s@ == b.selector_chars())
    &&& match b.force {
        Option::Some(x) => obj_get(fv, "force"@) == Option::Some(JsonValue::Bool(x)),
        Option::None => obj_get(fv, "force"@) is None,
    }
    &&& match b.no_wait_after {
        Option::Some(x) => obj_get(fv, "noWaitAfter"@) == Option::Some(JsonValue::Bool(x)),
        Option::None => obj_get(fv, "noWaitAfter"@) is None,
    }
}

/// Collects the optional params of one `check` request.
pub struct CheckBuilder {
    pub target: String,
    pub selector: String,
    pub force: Option<bool>,
    pub no_wait_after: Option<bool>,
}

impl CheckBuilder {
    /// A builder aimed at the object carrying `target`.
    pub fn new(target: String, selector: &str) -> (r: Self)
        ensures
            r.target_chars() == target@,
            r.selector_chars() == selector@,
            r.force is None,
            r.no_wait_after is None,
    {
        Self {
            target,
            selector: selector.to_owned(),
            force: None,
            no_wait_after: None,
        }
    }

    /// The guid the request will be sent on.
    pub open spec fn target_chars(&self) -> Seq<char> {
        self.target@
    }

    /// The `selector` argument.
    pub open spec fn selector_chars(&self) -> Seq<char> {
        self.selector@
    }

    /// Sets the `force` field.
    pub fn force(self, x: bool) -> (r: Self)
        ensures
            r == (Self { force: Some(x), ..self }),
    {
        Self { force: Some(x), ..self }
    }

    /// Sets the `noWaitAfter` field.
    pub fn no_wait_after(self, x: bool) -> (r: Self)
        ensures
            r == (Self { no_wait_after: Some(x), ..self }),
    {
        Self { no_wait_after: Some(x), ..self }
    }

    /// The param object this builder sends: every set field under its wire
    /// name, nothing else.
    pub fn params(&self) -> (r: JsonValue)
        ensures
            r matches JsonValue::Obj(fv) && check_params(*self, fv@),
    {
        proof {
            reveal_strlit("selector");
            reveal_strlit("force");
            reveal_strlit("noWaitAfter");
            assert("selector"@.len() == 8);
            assert("force"@.len() == 5);
            assert("noWaitAfter"@.len() == 11);
        }
        let mut p = ParamList::new();
        p.add("selector", JsonValue::Str(self.selector.clone()));
        match &self.force {
            Some(x) => {
                p.add("force", JsonValue::Bool(*x));
            },
            None => {},
        }
        match &self.no_wait_after {
            Some(x) => {
                p.add("noWaitAfter", JsonValue::Bool(*x));
            },
            None => {},
        }
        p.finish()
    }

    /// Builds the `check` request and parks its waiter on the connection. The
    /// outgoing loop frames and writes it; the response resumes the waiter.
    pub fn check(self, conn: &mut Connection) -> (r: Result<Request, Error>)
        requires
            conn_wf(*old(conn)),
            old(conn).engine.next_id < u32::MAX,
        ensures
            conn_wf(*final(conn)),
            final(conn).state == old(conn).state,
            final(conn).registry.objects@ == old(conn).registry.objects@,
            match r {
                Ok(req) => {
                    &&& old(conn).state == ConnectionState::Running
                    &&& has_guid(old(conn).registry.objects@, self.target_chars())
                    &&& req.id == old(conn).engine.next_id
                    &&& req.guid@ == self.target_chars()
                    &&& req.method@ == "check"@
                    &&& (req.params matches JsonValue::Obj(fv) && check_params(self, fv@))
                    &&& final(conn).engine.next_id == old(conn).engine.next_id + 1
                    &&& final(conn).engine.waiters@.len() == old(conn).engine.waiters@.len() + 1
                    &&& final(conn).engine.waiters@.last().id == req.id
                    &&& final(conn).engine.waiters@.last().guid@ == self.target_chars()
                },
                Err(Error::ConnectionClosed) => old(conn).state == ConnectionState::Closed,
                Err(Error::ObjectGone) => {
                    &&& old(conn).state == ConnectionState::Running
                    &&& !has_guid(old(conn).registry.objects@, self.target_chars())
                },
                Err(_) => false,
            },
    {
        let target = self.target.clone();
        let params = self.params();
        conn.send_request(target.as_str(), "check", params)
    }
}

/// The param object a `uncheck` builder sends: its set fields and no others.
pub open spec fn uncheck_params(b: UncheckBuilder, fv: Seq<(String, JsonValue)>) -> bool {
    &&& fv.len() == 1 + (if b.force is Some { 1int } else { 0int }) + (if b.no_wait_after is Some { 1int } else { 0int })
    &&& (obj_get(fv, "selector"@) matches Option::Some(JsonValue::Str(s)) && s@ == b.selector_chars())
    &&& match b.force {
        Option::Some(x) => obj_get(fv, "force"@) == Option::Some(JsonValue::Bool(x)),
        Option::None => obj_get(fv, "force"@) is None,
    }
    &&& match b.no_wait_after {
        Option::Some(x) => obj_get(fv, "noWaitAfter"@) == Option::Some(JsonValue::Bool(x)),
        Option::None => obj_get(fv, "noWaitAfter"@) is None,
    }
}

/// Collects the optional params of one `uncheck` request.
pub struct UncheckBuilder {
    pub target: String,
    pub selector: String,
    pub force: Option<bool>,
    pub no_wait_after: Option<bool>,
}

impl UncheckBuilder {
    /// A builder aimed at the object carrying `target`.
    pub fn new(target: String, selector: &str) -> (r: Self)
        ensures
            r.target_chars() == target@,
            r.selector_chars() == selector@,
            r.force is None,
            r.no_wait_after is None,
    {
        Self {
            target,
            selector: selector.to_owned(),
            force: None,
            no_wait_after: None,
        }
    }

    /// The guid the request will be sent on.
    pub open spec fn target_chars(&self) -> Seq<char> {
        self.target@
    }

    /// The `selector` argument.
    pub open spec fn selector_chars(&self) -> Seq<char> {
        self.selector@
    }

    /// Sets the `force` field.
    pub fn force(self, x: bool) -> (r: Self)
        ensures
            r == (Self { force: Some(x), ..self }),
    {
        Self { force: Some(x), ..self }
    }

    /// Sets the `noWaitAfter` field.
    pub fn no_wait_after(self, x: bool) -> (r: Self)
        ensures
            r == (Self { no_wait_after: Some(x), ..self }),
    {
        Self { no_wait_after: Some(x), ..self }
    }

    /// The param object this builder sends: every set field under its wire
    /// name, nothing else.
    pub fn params(&self) -> (r: JsonValue)
        ensures
            r matches JsonValue::Obj(fv) && uncheck_params(*self, fv@),
    {
        proof {
            reveal_strlit("selector");
            reveal_strlit("force");
            reveal_strlit("noWaitAfter");
            assert("selector"@.len() == 8);
            assert("force"@.len() == 5);
            assert("noWaitAfter"@.len() == 11);
        }
        let mut p = ParamList::new();
        p.add("selector", JsonValue::Str(self.selector.clone()));
        match &self.force {
            Some(x) => {
                p.add("force", JsonValue::Bool(*x));
            },
            None => {},
        }
        match &self.no_wait_after {
            Some(x) => {
                p.add("noWaitAfter", JsonValue::Bool(*x));
            },
            None => {},
        }
        p.finish()
    }

    /// Builds the `uncheck` request and parks its waiter on the connection. The
    /// outgoing loop frames and writes it; the response resumes the waiter.
    pub fn uncheck(self, conn: &mut Connection) -> (r: Result<Request, Error>)
        requires
            conn_wf(*old(conn)),
            old(conn).engine.next_id < u32::MAX,
        ensures
            conn_wf(*final(conn)),
            final(conn).state == old(conn).state,
            final(conn).registry.objects@ == old(conn).registry.objects@,
            match r {
                Ok(req) => {
                    &&& old(conn).state == ConnectionState::Running
                    &&& has_guid(old(conn).registry.objects@, self.target_chars())
                    &&& req.id == old(conn).engine.next_id
                    &&& req.guid@ == self.target_chars()
                    &&& req.method@ == "uncheck"@
                    &&& (req.params matches JsonValue::Obj(fv) && uncheck_params(self, fv@))
                    &&& final(conn).engine.next_id == old(conn).engine.next_id + 1
                    &&& final(conn).engine.waiters@.len() == old(conn).engine.waiters@.len() + 1
                    &&& final(conn).engine.waiters@.last().id == req.id
                    &&& final(conn).engine.waiters@.last().guid@ == self.target_chars()
                },
                Err(Error::ConnectionClosed) => old(conn).state == ConnectionState::Closed,
                Err(Error::ObjectGone) => {
                    &&& old(conn).state == ConnectionState::Running
                    &&& !has_guid(old(conn).registry.objects@, self.target_chars())
                },
                Err(_) => false,
            },
    {
        let target = self.target.clone();
        let params = self.params();
        conn.send_request(target.as_str(), "uncheck", params)
    }
}

/// The param object a `waitForSelector` builder sends: its set fields and no others.
pub open spec fn wait_for_selector_params(b: WaitForSelectorBuilder, fv: Seq<(String, JsonValue)>) -> bool {
    &&& fv.len() == 1 + (if b.state is Some { 1int } else { 0int })
    &&& (obj_get(fv, "selector"@) matches Option::Some(JsonValue::Str(s)) && s@ == b.selector_chars())
    &&& match b.state {
        Option::Some(x) => (obj_get(fv, "state"@) matches Option::Some(JsonValue::Str(s)) && s@ == element_state_wire(x)),
        Option::None => obj_get(fv, "state"@) is None,
    }
}

/// Collects the optional params of one `waitForSelector` request.
pub struct WaitForSelectorBuilder {
    pub target: String,
    pub selector: String,
    pub state: Option<ElementState>,
}

impl WaitForSelectorBuilder {
    /// A builder aimed at the object carrying `target`.
    pub fn new(target: String, selector: &str) -> (r: Self)
        ensures
            r.target_chars() == target@,
            r.selector_chars() == selector@,
            r.state is None,
    {
        Self {
            target,
            selector: selector.to_owned(),
            state: None,
        }
    }

    /// The guid the request will be sent on.
    pub open spec fn target_chars(&self) -> Seq<char> {
        self.target@
    }

    /// The `selector` argument.
    pub open spec fn selector_chars(&self) -> Seq<char> {
        self.selector@
    }

    /// Sets the `state` field.
    pub fn state(self, x: ElementState) -> (r: Self)
        ensures
            r == (Self { state: Some(x), ..self }),
    {
        Self { state: Some(x), ..self }
    }

    /// The param object this builder sends: every set field under its wire
    /// name, nothing else.
    pub fn params(&self) -> (r: JsonValue)
        ensures
            r matches JsonValue::Obj(fv) && wait_for_selector_params(*self, fv@),
    {
        proof {
            reveal_strlit("selector");
            reveal_strlit("state");
            assert("selector"@.len() == 8);
            assert("state"@.len() == 5);
        }
        let mut p = ParamList::new();
        p.add("selector", JsonValue::Str(self.selector.clone()));
        match &self.state {
            Some(x) => {
                p.add("state", JsonValue::Str(String::from_str(x.wire_name())));
            },
            None => {},
        }
        p.finish()
    }

    /// Builds the `waitForSelector` request and parks its waiter on the connection. The
    /// outgoing loop frames and writes it; the response resumes the waiter.
    pub fn wait_for_selector(self, conn: &mut Connection) -> (r: Result<Request, Error>)
        requires
            conn_wf(*old(conn)),
            old(conn).engine.next_id < u32::MAX,
        ensures
            conn_wf(*final(conn)),
            final(conn).state == old(conn).state,
            final(conn).registry.objects@ == old(conn).registry.objects@,
            match r {
                Ok(req) => {
                    &&& old(conn).state == ConnectionState::Running
                    &&& has_guid(old(conn).registry.objects@, self.target_chars())
                    &&& req.id == old(conn).engine.next_id
                    &&& req.guid@ == self.target_chars()
                    &&& req.method@ == "waitForSelector"@
                    &&& (req.params matches JsonValue::Obj(fv) && wait_for_selector_params(self, fv@))
                    &&& final(conn).engine.next_id == old(conn).engine.next_id + 1
                    &&& final(conn).engine.waiters@.len() == old(conn).engine.waiters@.len() + 1
                    &&& final(conn).engine.waiters@.last().id == req.id
                    &&& final(conn).engine.waiters@.last().guid@ == self.target_chars()
                },
                Err(Error::ConnectionClosed) => old(conn).state == ConnectionState::Closed,
                Err(Error::ObjectGone) => {
                    &&& old(conn).state == ConnectionState::Running
                    &&& !has_guid(old(conn).registry.objects@, self.target_chars())
                },
                Err(_) => false,
            },
    {
        let target = self.target.clone();
        let params = self.params();
        conn.send_request(target.as_str(), "waitForSelector", params)
    }
}

/// The param object a `setContent` builder sends: its set fields and no others.
pub open spec fn set_content_params(b: SetContentBuilder, fv: Seq<(String, JsonValue)>) -> bool {
    &&& fv.len() == 1 + (if b.wait_until is Some { 1int } else { 0int })
    &&& (obj_get(fv, "html"@) matches Option::Some(JsonValue::Str(s)) && s@ == b.html_chars())
    &&& match b.wait_until {
        Option::Some(x) => (obj_get(fv, "waitUntil"@) matches Option::Some(JsonValue::Str(s)) && s@ == load_state_wire(x)),
        Option::None => obj_get(fv, "waitUntil"@) is None,
    }
}

/// Collects the optional params of one `setContent` request.
pub struct SetContentBuilder {
    pub target: String,
    pub html: String,
    pub wait_until: Option<DocumentLoadState>,
}

impl SetContentBuilder {
    /// A builder aimed at the object carrying `target`.
    pub fn new(target: String, html: &str) -> (r: Self)
        ensures
            r.target_chars() == target@,
            r.html_chars() == html@,
            r.wait_until is None,
    {
        Self {
            target,
            html: html.to_owned(),
            wait_until: None,
        }
    }

    /// The guid the request will be sent on.
    pub open spec fn target_chars(&self) -> Seq<char> {
        self.target@
    }

    /// The `html` argument.
    pub open spec fn html_chars(&self) -> Seq<char> {
        self.html@
    }

    /// Sets the `waitUntil` field.
    pub fn wait_until(self, x: DocumentLoadState) -> (r: Self)
        ensures
            r == (Self { wait_until: Some(x), ..self }),
    {
        Self { wait_until: Some(x), ..self }
    }

    /// The param object this builder sends: every set field under its wire
    /// name, nothing else.
    pub fn params(&self) -> (r: JsonValue)
        ensures
            r matches JsonValue::Obj(fv) && set_content_params(*self, fv@),
    {
        proof {
            reveal_strlit("html");
            reveal_strlit("waitUntil");
            assert("html"@.len() == 4);
            assert("waitUntil"@.len() == 9);
        }
        let mut p = ParamList::new();
        p.add("html", JsonValue::Str(self.html.clone()));
        match &self.wait_until {
            Some(x) => {
                p.add("waitUntil", JsonValue::Str(String::from_str(x.wire_name())));
            },
            None => {},
        }
        p.finish()
    }

    /// Builds the `setContent` request and parks its waiter on the connection. The
    /// outgoing loop frames and writes it; the response resumes the waiter.
    pub fn set_content(self, conn: &mut Connection) -> (r: Result<Request, Error>)
        requires
            conn_wf(*old(conn)),
            old(conn).engine.next_id < u32::MAX,
        ensures
            conn_wf(*final(conn)),
            final(conn).state == old(conn).state,
            final(conn).registry.objects@ == old(conn).registry.objects@,
            match r {
                Ok(req) => {
                    &&& old(conn).state == ConnectionState::Running
                    &&& has_guid(old(conn).registry.objects@, self.target_chars())
                    &&& req.id == old(conn).engine.next_id
                    &&& req.guid@ == self.target_chars()
                    &&& req.method@ == "setContent"@
                    &&& (req.params matches JsonValue::Obj(fv) && set_content_params(self, fv@))
                    &&& final(conn).engine.next_id == old(conn).engine.next_id + 1
                    &&& final(conn).engine.waiters@.len() == old(conn).engine.waiters@.len() + 1
                    &&& final(conn).engine.waiters@.last().id == req.id
                    &&& final(conn).engine.waiters@.last().guid@ == self.target_chars()
                },
                Err(Error::ConnectionClosed) => old(conn).state == ConnectionState::Closed,
                Err(Error::ObjectGone) => {
                    &&& old(conn).state == ConnectionState::Running
                    &&& !has_guid(old(conn).registry.objects@, self.target_chars())
                },
                Err(_) => false,
            },
    {
        let target = self.target.clone();
        let params = self.params();
        conn.send_request(target.as_str(), "setContent", params)
    }
}

/// The param object a `addScriptTag` builder sends: its set fields and no others.
pub open spec fn add_script_tag_params(b: AddScriptTagBuilder, fv: Seq<(String, JsonValue)>) -> bool {
    &&& fv.len() == 1 + (if b.url is Some { 1int } else { 0int }) + (if b.script_type is Some { 1int } else { 0int })
    &&& (obj_get(fv, "content"@) matches Option::Some(JsonValue::Str(s)) && s@ == b.content_chars())
    &&& match b.url {
        Option::Some(x) => (obj_get(fv, "url"@) matches Option::Some(JsonValue::Str(s)) && s@ == x@),
        Option::None => obj_get(fv, "url"@) is None,
    }
    &&& match b.script_type {
        Option::Some(x) => (obj_get(fv, "type"@) matches Option::Some(JsonValue::Str(s)) && s@ == x@),
        Option::None => obj_get(fv, "type"@) is None,
    }
}

/// Collects the optional params of one `addScriptTag` request.
pub struct AddScriptTagBuilder {
    pub target: String,
    pub content: String,
    pub url: Option<String>,
    pub script_type: Option<String>,
}

impl AddScriptTagBuilder {
    /// A builder aimed at the object carrying `target`.
    pub fn new(target: String, content: &str) -> (r: Self)
        ensures
            r.target_chars() == target@,
            r.content_chars() == content@,
            r.url is None,
            r.script_type is None,
    {
        Self {
            target,
            content: content.to_owned(),
            url: None,
            script_type: None,
        }
    }

    /// The guid the request will be sent on.
    pub open spec fn target_chars(&self) -> Seq<char> {
        self.target@
    }

    /// The `content` argument.
    pub open spec fn content_chars(&self) -> Seq<char> {
        self.content@
    }

    /// Sets the `url` field.
    pub fn url(self, x: &str) -> (r: Self)
        ensures
            r.url matches Some(v) && v@ == x@,
            r.target == self.target,
            r.script_type == self.script_type,
            r.content_chars() == self.content_chars(),
    {
        Self { url: Some(x.to_owned()), ..self }
    }

    /// Sets the `type` field.
    pub fn script_type(self, x: &str) -> (r: Self)
        ensures
            r.script_type matches Some(v) && v@ == x@,
            r.target == self.target,
            r.url == self.url,
            r.content_chars() == self.content_chars(),
    {
        Self { script_type: Some(x.to_owned()), ..self }
    }

    /// The param object this builder sends: every set field under its wire
    /// name, nothing else.
    pub fn params(&self) -> (r: JsonValue)
        ensures
            r matches JsonValue::Obj(fv) && add_script_tag_params(*self, fv@),
    {
        proof {
            reveal_strlit("content");
            reveal_strlit("url");
            reveal_strlit("type");
            assert("content"@.len() == 7);
            assert("url"@.len() == 3);
            assert("type"@.len() == 4);
        }
        let mut p = ParamList::new();
        p.add("content", JsonValue::Str(self.content.clone()));
        match &self.url {
            Some(x) => {
                p.add("url", JsonValue::Str(x.clone()));
            },
            None => {},
        }
        match &self.script_type {
            Some(x) => {
                p.add("type", JsonValue::Str(x.clone()));
            },
            None => {},
        }
        p.finish()
    }

    /// Builds the `addScriptTag` request and parks its waiter on the connection. The
    /// outgoing loop frames and writes it; the response resumes the waiter.
    pub fn add_script_tag(self, conn: &mut Connection) -> (r: Result<Request, Error>)
        requires
            conn_wf(*old(conn)),
            old(conn).engine.next_id < u32::MAX,
        ensures
            conn_wf(*final(conn)),
            final(conn).state == old(conn).state,
            final(conn).registry.objects@ == old(conn).registry.objects@,
            match r {
                Ok(req) => {
                    &&& old(conn).state == ConnectionState::Running
                    &&& has_guid(old(conn).registry.objects@, self.target_chars())
                    &&& req.id == old(conn).engine.next_id
                    &&& req.guid@ == self.target_chars()
                    &&& req.method@ == "addScriptTag"@
                    &&& (req.params matches JsonValue::Obj(fv) && add_script_tag_params(self, fv@))
                    &&& final(conn).engine.next_id == old(conn).engine.next_id + 1
                    &&& final(conn).engine.waiters@.len() == old(conn).engine.waiters@.len() + 1
                    &&& final(conn).engine.waiters@.last().id == req.id
                    &&& final(conn).engine.waiters@.last().guid@ == self.target_chars()
                },
                Err(Error::ConnectionClosed) => old(conn).state == ConnectionState::Closed,
                Err(Error::ObjectGone) => {
                    &&& old(conn).state == ConnectionState::Running
                    &&& !has_guid(old(conn).registry.objects@, self.target_chars())
                },
                Err(_) => false,
            },
    {
        let target = self.target.clone();
        let params = self.params();
        conn.send_request(target.as_str(), "addScriptTag", params)
    }
}

} // verus!
