//! The message codec: typed outgoing requests and incoming driver messages,
//! translated to and from the JSON value model. Field lookup is by name, so
//! unknown fields are passed over; the contracts pin down exactly which JSON
//! shapes decode, and to what.
use vstd::prelude::*;
use crate::json::{json_eq, JsonValue};
use vstd::string::{StringExecFns, StrSliceExecFns};

verus! {

broadcast use vstd::seq::group_seq_axioms, vstd::std_specs::vec::group_vec_axioms;

/// An outgoing request: `{id, guid, method, params}`.
pub struct Request {
    pub id: u32,
    pub guid: String,
    pub method: String,
    pub params: JsonValue,
}

/// What a response carries: exactly one of a result or a driver-side error.
pub enum ResponseOutcome {
    Success(JsonValue),
    Failure(ErrorPayload),
}

/// A driver-side failure, surfaced verbatim.
#[derive(Debug)]
pub struct ErrorPayload {
    pub name: String,
    pub message: String,
    pub stack: String,
}

/// An incoming driver message: a response correlated by request id, or an
/// event on an object's guid. Create and Dispose notifications travel as
/// events with their well-known method names.
pub enum IncomingMessage {
    Response { id: u32, outcome: ResponseOutcome },
    Event { guid: String, method: String, params: JsonValue },
}

/// First value stored under `name` in an object's field list.
pub open spec fn obj_get(fs: Seq<(String, JsonValue)>, name: Seq<char>) -> Option<JsonValue>
    decreases fs.len(),
{
    if fs.len() == 0 {
        Option::None
    } else if fs.first().0@ == name {
        Option::Some(fs.first().1)
    } else {
        obj_get(fs.drop_first(), name)
    }
}

/// The request a JSON object denotes, field by field.
pub open spec fn req_matches_json(q: Request, j: JsonValue) -> bool {
    &&& j matches JsonValue::Obj(fv)
    &&& obj_get(fv@, "id"@) == Option::Some(JsonValue::Int(q.id as i64))
    &&& (obj_get(fv@, "guid"@) matches Option::Some(JsonValue::Str(g)) && g@ == q.guid@)
    &&& (obj_get(fv@, "method"@) matches Option::Some(JsonValue::Str(m)) && m@ == q.method@)
    &&& (obj_get(fv@, "params"@) matches Option::Some(p) && json_eq(p, q.params))
}

/// Whether a JSON value has the shape of a request.
pub open spec fn json_is_request(j: JsonValue) -> bool {
    &&& j matches JsonValue::Obj(fv)
    &&& (obj_get(fv@, "id"@) matches Option::Some(JsonValue::Int(i)) && 0 <= i <= u32::MAX)
    &&& (obj_get(fv@, "guid"@) matches Option::Some(JsonValue::Str(g)))
    &&& (obj_get(fv@, "method"@) matches Option::Some(JsonValue::Str(m)))
    &&& (obj_get(fv@, "params"@) matches Option::Some(p))
}

/// The in-range request id a response object carries, if any.
pub open spec fn resp_id_of(fs: Seq<(String, JsonValue)>) -> Option<u32> {
    if obj_get(fs, "id"@) matches Option::Some(JsonValue::Int(i)) && 0 <= i <= u32::MAX {
        Option::Some(obj_get(fs, "id"@)->Some_0->Int_0 as u32)
    } else {
        Option::None
    }
}

/// The `{error:{error:{name,message,stack}}}` payload of a response object,
/// as character sequences, if it is well formed.
pub open spec fn error_payload_of(fs: Seq<(String, JsonValue)>) -> Option<
    (Seq<char>, Seq<char>, Seq<char>),
> {
    let outer_opt = obj_get(fs, "error"@);
    if outer_opt is Some && outer_opt->Some_0 is Obj {
        let inner_opt = obj_get(outer_opt->Some_0->Obj_0@, "error"@);
        if inner_opt is Some && inner_opt->Some_0 is Obj {
            let inner = inner_opt->Some_0->Obj_0;
            let n = obj_get(inner@, "name"@);
            let m = obj_get(inner@, "message"@);
            let s = obj_get(inner@, "stack"@);
            if {
                &&& n is Some && n->Some_0 is Str
                &&& m is Some && m->Some_0 is Str
                &&& s is Some && s->Some_0 is Str
            } {
                Option::Some((n->Some_0->Str_0@, m->Some_0->Str_0@, s->Some_0->Str_0@))
            } else {
                Option::None
            }
        } else {
            Option::None
        }
    } else {
        Option::None
    }
}

/// The incoming message a JSON object denotes. A response is recognized by an
/// in-range integer `id`; its error payload wins over any `result`; a missing
/// `result` reads as null. Everything else with `guid`, `method` and `params`
/// is an event.
pub open spec fn msg_matches_json(m: IncomingMessage, j: JsonValue) -> bool {
    match m {
        IncomingMessage::Response { id, outcome } => {
            &&& j matches JsonValue::Obj(fv)
            &&& resp_id_of(fv@) == Option::Some(id)
            &&& match outcome {
                ResponseOutcome::Failure(e) => error_payload_of(fv@) == Option::Some(
                    (e.name@, e.message@, e.stack@),
                ),
                ResponseOutcome::Success(v) => {
                    &&& obj_get(fv@, "error"@) is None
                    &&& match obj_get(fv@, "result"@) {
                        Option::Some(rv) => json_eq(v, rv),
                        Option::None => v is Null,
                    }
                },
            }
        },
        IncomingMessage::Event { guid, method, params } => {
            &&& j matches JsonValue::Obj(fv)
            &&& resp_id_of(fv@) is None
            &&& (obj_get(fv@, "guid"@) matches Option::Some(JsonValue::Str(g)) && g@ == guid@)
            &&& (obj_get(fv@, "method"@) matches Option::Some(JsonValue::Str(mm)) && mm@
                == method@)
            &&& (obj_get(fv@, "params"@) matches Option::Some(p) && json_eq(params, p))
        },
    }
}

/// Whether a JSON value has the shape of some incoming message.
pub open spec fn json_is_message(j: JsonValue) -> bool {
    &&& j matches JsonValue::Obj(fv)
    &&& {
        ||| (resp_id_of(fv@) is Some && (obj_get(fv@, "error"@) is None || error_payload_of(fv@)
            is Some))
        ||| (resp_id_of(fv@) is None && (obj_get(fv@, "guid"@) matches Option::Some(
            JsonValue::Str(g),
        )) && (obj_get(fv@, "method"@) matches Option::Some(JsonValue::Str(mm))) && (obj_get(
            fv@,
            "params"@,
        ) is Some))
    }
}

/// Character-for-character equality of two string slices.
pub fn str_eq(a: &str, b: &str) -> (r: bool)
    ensures
        r == (a@ == b@),
{
    let la = a.unicode_len();
    let lb = b.unicode_len();
    if la != lb {
        return false;
    }
    let mut i: usize = 0;
    while i < la
        invariant
            i <= la,
            la == a@.len(),
            la == b@.len(),
            forall|k: int| 0 <= k < i ==> a@[k] == b@[k],
        decreases la - i,
    {
        if a.get_char(i) != b.get_char(i) {
            return false;
        }
        i += 1;
    }
    proof {
        assert(a@ =~= b@);
    }
    true
}

/// A deep copy of a JSON value.
pub fn json_clone(v: &JsonValue) -> (r: JsonValue)
    ensures
        json_eq(r, *v),
    decreases *v,
{
    match v {
        JsonValue::Null => JsonValue::Null,
        JsonValue::Bool(b) => JsonValue::Bool(*b),
        JsonValue::Int(i) => JsonValue::Int(*i),
        JsonValue::Str(s) => JsonValue::Str(s.clone()),
        JsonValue::Arr(xs) => {
            let mut out: Vec<JsonValue> = Vec::new();
            let mut i: usize = 0;
            while i < xs.len()
                invariant
                    *v == JsonValue::Arr(*xs),
                    i <= xs@.len(),
                    out@.len() == i,
                    crate::json::arr_eq(out@, xs@.subrange(0, i as int)),
                decreases xs@.len() - i,
            {
                proof {
                    assert(*xs == (*v)->Arr_0);
                    assert(decreases_to!(*v => (*v)->Arr_0));
                    assert(decreases_to!(*xs => xs@));
                    assert(decreases_to!(xs@ => xs@[i as int]));
                    assert(decreases_to!(*v => xs@[i as int]));
                }
                let c = json_clone(&xs[i]);
                let ghost out_before = out@;
                out.push(c);
                i += 1;
                proof {
                    let pre = xs@.subrange(0, i as int);
                    assert(pre.drop_last() =~= xs@.subrange(0, i - 1));
                    assert(out@.drop_last() =~= out_before);
                    lemma_arr_eq_push(out@, pre);
                }
            }
            proof {
                assert(xs@.subrange(0, xs@.len() as int) =~= xs@);
            }
            JsonValue::Arr(out)
        },
        JsonValue::Obj(fs) => {
            let mut out: Vec<(String, JsonValue)> = Vec::new();
            let mut i: usize = 0;
            while i < fs.len()
                invariant
                    *v == JsonValue::Obj(*fs),
                    i <= fs@.len(),
                    out@.len() == i,
                    crate::json::obj_eq(out@, fs@.subrange(0, i as int)),
                decreases fs@.len() - i,
            {
                proof {
                    assert(*fs == (*v)->Obj_0);
                    assert(decreases_to!(*v => (*v)->Obj_0));
                    assert(decreases_to!(*fs => fs@));
                    assert(decreases_to!(fs@ => fs@[i as int]));
                    assert(decreases_to!(fs@[i as int] => fs@[i as int].1));
                    assert(decreases_to!(*v => fs@[i as int].1));
                }
                let name = fs[i].0.clone();
                let c = json_clone(&fs[i].1);
                let ghost out_before = out@;
                out.push((name, c));
                i += 1;
                proof {
                    let pre = fs@.subrange(0, i as int);
                    assert(pre.drop_last() =~= fs@.subrange(0, i - 1));
                    assert(out@.drop_last() =~= out_before);
                    lemma_obj_eq_push(out@, pre);
                }
            }
            proof {
                assert(fs@.subrange(0, fs@.len() as int) =~= fs@);
            }
            JsonValue::Obj(out)
        },
    }
}

/// Array equality extends by one matching element.
proof fn lemma_arr_eq_push(xs: Seq<JsonValue>, ys: Seq<JsonValue>)
    requires
        xs.len() == ys.len(),
        xs.len() > 0,
        crate::json::arr_eq(xs.drop_last(), ys.drop_last()),
        json_eq(xs.last(), ys.last()),
    ensures
        crate::json::arr_eq(xs, ys),
{
}

/// Object equality extends by one matching field.
proof fn lemma_obj_eq_push(xs: Seq<(String, JsonValue)>, ys: Seq<(String, JsonValue)>)
    requires
        xs.len() == ys.len(),
        xs.len() > 0,
        crate::json::obj_eq(xs.drop_last(), ys.drop_last()),
        xs.last().0@ == ys.last().0@,
        json_eq(xs.last().1, ys.last().1),
    ensures
        crate::json::obj_eq(xs, ys),
{
}

/// Index of the first field named `name`, with the lookup's meaning tied to
/// `obj_get`.
pub fn obj_find(fs: &Vec<(String, JsonValue)>, name: &str) -> (r: Option<usize>)
    ensures
        match r {
            Some(i) => {
                &&& i < fs@.len()
                &&& fs@[i as int].0@ == name@
                &&& obj_get(fs@, name@) == Option::Some(fs@[i as int].1)
            },
            None => obj_get(fs@, name@) is None,
        },
{
    let mut i: usize = 0;
    proof {
        assert(fs@.skip(0) =~= fs@);
    }
    while i < fs.len()
        invariant
            i <= fs@.len(),
            obj_get(fs@, name@) == obj_get(fs@.skip(i as int), name@),
            forall|k: int| 0 <= k < i ==> fs@[k].0@ != name@,
        decreases fs@.len() - i,
    {
        if str_eq(fs[i].0.as_str(), name) {
            proof {
                let rest = fs@.skip(i as int);
                assert(rest.first() == fs@[i as int]);
                assert(obj_get(rest, name@) == Option::Some(fs@[i as int].1));
            }
            return Some(i);
        }
        i += 1;
        proof {
            let prev = fs@.skip(i - 1);
            assert(prev.first().0@ != name@);
            assert(prev.drop_first() =~= fs@.skip(i as int));
        }
    }
    proof {
        assert(fs@.skip(fs@.len() as int) =~= Seq::<(String, JsonValue)>::empty());
    }
    None
}

/// `json_eq` is symmetric.
pub proof fn lemma_json_eq_sym(a: JsonValue, b: JsonValue)
    requires
        json_eq(a, b),
    ensures
        json_eq(b, a),
    decreases a,
{
    match (a, b) {
        (JsonValue::Arr(xs), JsonValue::Arr(ys)) => {
            lemma_arr_eq_sym(xs@, ys@);
        },
        (JsonValue::Obj(xs), JsonValue::Obj(ys)) => {
            lemma_obj_eq_sym(xs@, ys@);
        },
        _ => {},
    }
}

proof fn lemma_arr_eq_sym(xs: Seq<JsonValue>, ys: Seq<JsonValue>)
    requires
        crate::json::arr_eq(xs, ys),
    ensures
        crate::json::arr_eq(ys, xs),
    decreases xs,
{
    if xs.len() > 0 {
        lemma_arr_eq_sym(xs.drop_last(), ys.drop_last());
        lemma_json_eq_sym(xs.last(), ys.last());
    }
}

proof fn lemma_obj_eq_sym(xs: Seq<(String, JsonValue)>, ys: Seq<(String, JsonValue)>)
    requires
        crate::json::obj_eq(xs, ys),
    ensures
        crate::json::obj_eq(ys, xs),
    decreases xs,
{
    if xs.len() > 0 {
        lemma_obj_eq_sym(xs.drop_last(), ys.drop_last());
        lemma_json_eq_sym(xs.last().1, ys.last().1);
    }
}

/// `json_eq` is transitive.
pub proof fn lemma_json_eq_trans(a: JsonValue, b: JsonValue, c: JsonValue)
    requires
        json_eq(a, b),
        json_eq(b, c),
    ensures
        json_eq(a, c),
    decreases a,
{
    match (a, b, c) {
        (JsonValue::Arr(xs), JsonValue::Arr(ys), JsonValue::Arr(zs)) => {
            lemma_arr_eq_trans(xs@, ys@, zs@);
        },
        (JsonValue::Obj(xs), JsonValue::Obj(ys), JsonValue::Obj(zs)) => {
            lemma_obj_eq_trans(xs@, ys@, zs@);
        },
        _ => {},
    }
}

proof fn lemma_arr_eq_trans(xs: Seq<JsonValue>, ys: Seq<JsonValue>, zs: Seq<JsonValue>)
    requires
        crate::json::arr_eq(xs, ys),
        crate::json::arr_eq(ys, zs),
    ensures
        crate::json::arr_eq(xs, zs),
    decreases xs,
{
    if xs.len() > 0 {
        lemma_arr_eq_trans(xs.drop_last(), ys.drop_last(), zs.drop_last());
        lemma_json_eq_trans(xs.last(), ys.last(), zs.last());
    }
}

proof fn lemma_obj_eq_trans(
    xs: Seq<(String, JsonValue)>,
    ys: Seq<(String, JsonValue)>,
    zs: Seq<(String, JsonValue)>,
)
    requires
        crate::json::obj_eq(xs, ys),
        crate::json::obj_eq(ys, zs),
    ensures
        crate::json::obj_eq(xs, zs),
    decreases xs,
{
    if xs.len() > 0 {
        lemma_obj_eq_trans(xs.drop_last(), ys.drop_last(), zs.drop_last());
        lemma_json_eq_trans(xs.last().1, ys.last().1, zs.last().1);
    }
}

/// `json_eq` is reflexive.
pub proof fn lemma_json_eq_refl(a: JsonValue)
    ensures
        json_eq(a, a),
    decreases a,
{
    match a {
        JsonValue::Arr(xs) => {
            lemma_arr_eq_refl(xs@);
        },
        JsonValue::Obj(xs) => {
            lemma_obj_eq_refl(xs@);
        },
        _ => {},
    }
}

proof fn lemma_arr_eq_refl(xs: Seq<JsonValue>)
    ensures
        crate::json::arr_eq(xs, xs),
    decreases xs,
{
    if xs.len() > 0 {
        lemma_arr_eq_refl(xs.drop_last());
        lemma_json_eq_refl(xs.last());
    }
}

proof fn lemma_obj_eq_refl(xs: Seq<(String, JsonValue)>)
    ensures
        crate::json::obj_eq(xs, xs),
    decreases xs,
{
    if xs.len() > 0 {
        lemma_obj_eq_refl(xs.drop_last());
        lemma_json_eq_refl(xs.last().1);
    }
}


/// The canonical serialized shape of a request: exactly the four fields
/// `id`, `guid`, `method`, `params`, in that order.
pub open spec fn req_canonical(q: Request, fv: Seq<(String, JsonValue)>) -> bool {
    &&& fv.len() == 4
    &&& fv[0].0@ == "id"@ && fv[0].1 == (JsonValue::Int(q.id as i64))
    &&& fv[1].0@ == "guid"@ && (fv[1].1 matches JsonValue::Str(g) && g@ == q.guid@)
    &&& fv[2].0@ == "method"@ && (fv[2].1 matches JsonValue::Str(m) && m@ == q.method@)
    &&& fv[3].0@ == "params"@ && json_eq(fv[3].1, q.params)
}

/// The canonical serialized shape of an incoming message: a success is
/// `{id, result}`, a failure is `{id, error: {error: {name, message,
/// stack}}}`, an event is `{guid, method, params}`, each with its fields in
/// exactly that order.
pub open spec fn msg_canonical(m: IncomingMessage, fv: Seq<(String, JsonValue)>) -> bool {
    match m {
        IncomingMessage::Response { id, outcome } => {
            &&& fv.len() == 2
            &&& fv[0].0@ == "id"@ && fv[0].1 == (JsonValue::Int(id as i64))
            &&& match outcome {
                ResponseOutcome::Success(v) => fv[1].0@ == "result"@ && json_eq(fv[1].1, v),
                ResponseOutcome::Failure(e) => {
                    &&& fv[1].0@ == "error"@
                    &&& (fv[1].1 matches JsonValue::Obj(outer) && outer@.len() == 1
                        && outer@[0].0@ == "error"@ && (outer@[0].1 matches JsonValue::Obj(inner)
                        && inner@.len() == 3 && inner@[0].0@ == "name"@ && (inner@[0].1 matches
                        JsonValue::Str(nm) && nm@ == e.name@) && inner@[1].0@ == "message"@ && (
                        inner@[1].1 matches JsonValue::Str(ms) && ms@ == e.message@)
                        && inner@[2].0@ == "stack"@ && (inner@[2].1 matches JsonValue::Str(st)
                        && st@ == e.stack@)))
                },
            }
        },
        IncomingMessage::Event { guid, method, params } => {
            &&& fv.len() == 3
            &&& fv[0].0@ == "guid"@ && (fv[0].1 matches JsonValue::Str(g) && g@ == guid@)
            &&& fv[1].0@ == "method"@ && (fv[1].1 matches JsonValue::Str(mm) && mm@ == method@)
            &&& fv[2].0@ == "params"@ && json_eq(fv[2].1, params)
        },
    }
}

/// Encodes a request as its canonical four-field JSON object, the fields
/// in the order they travel.
pub fn encode_request(q: &Request) -> (r: JsonValue)
    ensures
        req_matches_json(*q, r),
        json_is_request(r),
        r matches JsonValue::Obj(fv) && req_canonical(*q, fv@),
{
    let mut fields: Vec<(String, JsonValue)> = Vec::new();
    fields.push((String::from_str("id"), JsonValue::Int(q.id as i64)));
    fields.push((String::from_str("guid"), JsonValue::Str(q.guid.clone())));
    fields.push((String::from_str("method"), JsonValue::Str(q.method.clone())));
    fields.push((String::from_str("params"), json_clone(&q.params)));
    proof {
        reveal_strlit("id");
        reveal_strlit("guid");
        reveal_strlit("method");
        reveal_strlit("params");
        let fs = fields@;
        assert(fs.len() == 4);
        assert(obj_get(fs, "id"@) == Option::Some(fs[0].1));
        assert(fs.drop_first().first() == fs[1]);
        assert(fs.drop_first().drop_first().first() == fs[2]);
        assert(fs.drop_first().drop_first().drop_first().first() == fs[3]);
        assert(fs.drop_first().drop_first().drop_first().drop_first().len() == 0);
        let t1 = fs.drop_first();
        let t2 = t1.drop_first();
        let t3 = t2.drop_first();
        assert("id"@.len() == 2);
        assert("guid"@.len() == 4);
        assert("method"@.len() == 6);
        assert("params"@.len() == 6);
        assert("method"@[0] == 'm' && "params"@[0] == 'p');
        assert(fs.first() == fs[0]);
        assert(fs[0].0@ == "id"@);
        assert(obj_get(fs, "guid"@) == obj_get(t1, "guid"@));
        assert(obj_get(t1, "guid"@) == Option::Some(fs[1].1));
        assert(obj_get(fs, "method"@) == obj_get(t1, "method"@));
        assert(obj_get(t1, "method"@) == obj_get(t2, "method"@));
        assert(obj_get(t2, "method"@) == Option::Some(fs[2].1));
        assert(obj_get(fs, "params"@) == obj_get(t1, "params"@));
        assert(obj_get(t1, "params"@) == obj_get(t2, "params"@));
        assert(obj_get(t2, "params"@) == obj_get(t3, "params"@));
        assert(obj_get(t3, "params"@) == Option::Some(fs[3].1));
        lemma_json_eq_sym(fs[3].1, q.params);
    }
    JsonValue::Obj(fields)
}

/// Decodes a JSON value as a request; `None` exactly when it does not have
/// the request shape.
pub fn decode_request(j: &JsonValue) -> (r: Option<Request>)
    ensures
        match r {
            Some(q) => req_matches_json(q, *j) && json_is_request(*j),
            None => !json_is_request(*j),
        },
{
    let fs = match j {
        JsonValue::Obj(fs) => fs,
        _ => {
            return None;
        },
    };
    let id_val: i64 = match obj_find(fs, "id") {
        Some(i) => {
            match &fs[i].1 {
                JsonValue::Int(x) => *x,
                _ => {
                    return None;
                },
            }
        },
        None => {
            return None;
        },
    };
    if id_val < 0 || id_val > 0xffff_ffffi64 {
        return None;
    }
    let guid: String = match obj_find(fs, "guid") {
        Some(i) => {
            match &fs[i].1 {
                JsonValue::Str(s) => s.clone(),
                _ => {
                    return None;
                },
            }
        },
        None => {
            return None;
        },
    };
    let method: String = match obj_find(fs, "method") {
        Some(i) => {
            match &fs[i].1 {
                JsonValue::Str(s) => s.clone(),
                _ => {
                    return None;
                },
            }
        },
        None => {
            return None;
        },
    };
    let params: JsonValue = match obj_find(fs, "params") {
        Some(i) => json_clone(&fs[i].1),
        None => {
            return None;
        },
    };
    proof {
        lemma_json_eq_sym(params, obj_get(fs@, "params"@)->Some_0);
    }
    Some(Request { id: id_val as u32, guid, method, params })
}

/// Equality of two response outcomes, comparing payload strings by their
/// characters.
pub open spec fn outcome_eq(a: ResponseOutcome, b: ResponseOutcome) -> bool {
    match (a, b) {
        (ResponseOutcome::Success(x), ResponseOutcome::Success(y)) => json_eq(x, y),
        (ResponseOutcome::Failure(x), ResponseOutcome::Failure(y)) => x.name@ == y.name@
            && x.message@ == y.message@ && x.stack@ == y.stack@,
        _ => false,
    }
}

/// Equality of two incoming messages.
pub open spec fn msg_eq(a: IncomingMessage, b: IncomingMessage) -> bool {
    match (a, b) {
        (
            IncomingMessage::Response { id: ia, outcome: oa },
            IncomingMessage::Response { id: ib, outcome: ob },
        ) => ia == ib && outcome_eq(oa, ob),
        (
            IncomingMessage::Event { guid: ga, method: ma, params: pa },
            IncomingMessage::Event { guid: gb, method: mb, params: pb },
        ) => ga@ == gb@ && ma@ == mb@ && json_eq(pa, pb),
        _ => false,
    }
}

/// Equality of two requests.
pub open spec fn req_eq(a: Request, b: Request) -> bool {
    a.id == b.id && a.guid@ == b.guid@ && a.method@ == b.method@ && json_eq(a.params, b.params)
}

/// A JSON value denotes at most one request: encoding then decoding, or any
/// two ways of reading the same object as a request, agree.
pub proof fn lemma_request_round_trip(j: JsonValue, a: Request, b: Request)
    requires
        req_matches_json(a, j),
        req_matches_json(b, j),
    ensures
        req_eq(a, b),
{
    let fv = j->Obj_0;
    let p = obj_get(fv@, "params"@)->Some_0;
    lemma_json_eq_sym(p, a.params);
    lemma_json_eq_trans(a.params, p, b.params);
}

/// A JSON value denotes at most one incoming message: encoding then decoding,
/// or any two ways of reading the same object as a message, agree.
pub proof fn lemma_codec_round_trip(j: JsonValue, a: IncomingMessage, b: IncomingMessage)
    requires
        msg_matches_json(a, j),
        msg_matches_json(b, j),
    ensures
        msg_eq(a, b),
{
    let fv = j->Obj_0;
    match (a, b) {
        (
            IncomingMessage::Response { id: ia, outcome: oa },
            IncomingMessage::Response { id: ib, outcome: ob },
        ) => {
            match (oa, ob) {
                (ResponseOutcome::Success(x), ResponseOutcome::Success(y)) => {
                    match obj_get(fv@, "result"@) {
                        Option::Some(rv) => {
                            lemma_json_eq_sym(y, rv);
                            lemma_json_eq_trans(x, rv, y);
                        },
                        Option::None => {},
                    }
                },
                _ => {},
            }
        },
        (
            IncomingMessage::Event { guid: ga, method: ma, params: pa },
            IncomingMessage::Event { guid: gb, method: mb, params: pb },
        ) => {
            let p = obj_get(fv@, "params"@)->Some_0;
            lemma_json_eq_sym(pb, p);
            lemma_json_eq_trans(pa, p, pb);
        },
        _ => {},
    }
}

/// Encodes an incoming message as its canonical JSON object. Mainly for
/// loopback checks: the driver is the usual author of these.
pub fn encode_message(m: &IncomingMessage) -> (r: JsonValue)
    ensures
        msg_matches_json(*m, r),
        json_is_message(r),
        r matches JsonValue::Obj(fv) && msg_canonical(*m, fv@),
{
    match m {
        IncomingMessage::Response { id, outcome } => {
            let mut fields: Vec<(String, JsonValue)> = Vec::new();
            fields.push((String::from_str("id"), JsonValue::Int(*id as i64)));
            match outcome {
                ResponseOutcome::Success(v) => {
                    fields.push((String::from_str("result"), json_clone(v)));
                    proof {
                        reveal_strlit("id");
                        reveal_strlit("result");
                        reveal_strlit("error");
                        let fs = fields@;
                        assert("id"@.len() == 2 && "result"@.len() == 6 && "error"@.len() == 5);
                        assert(fs.first() == fs[0]);
                        let t1 = fs.drop_first();
                        assert(t1.first() == fs[1]);
                        assert(t1.drop_first().len() == 0);
                        assert(obj_get(fs, "id"@) == Option::Some(fs[0].1));
                        assert(obj_get(fs, "error"@) == obj_get(t1, "error"@));
                        assert(obj_get(t1, "error"@) == obj_get(t1.drop_first(), "error"@));
                        assert(obj_get(fs, "result"@) == obj_get(t1, "result"@));
                        assert(obj_get(t1, "result"@) == Option::Some(fs[1].1));
                        lemma_json_eq_sym(fs[1].1, *v);
                        assert(resp_id_of(fs) == Option::Some(*id));
                    }
                    JsonValue::Obj(fields)
                },
                ResponseOutcome::Failure(e) => {
                    let mut inner: Vec<(String, JsonValue)> = Vec::new();
                    inner.push((String::from_str("name"), JsonValue::Str(e.name.clone())));
                    inner.push((String::from_str("message"), JsonValue::Str(e.message.clone())));
                    inner.push((String::from_str("stack"), JsonValue::Str(e.stack.clone())));
                    let ghost inner_view = inner@;
                    let mut outer: Vec<(String, JsonValue)> = Vec::new();
                    outer.push((String::from_str("error"), JsonValue::Obj(inner)));
                    let ghost outer_view = outer@;
                    fields.push((String::from_str("error"), JsonValue::Obj(outer)));
                    proof {
                        reveal_strlit("id");
                        reveal_strlit("error");
                        reveal_strlit("name");
                        reveal_strlit("message");
                        reveal_strlit("stack");
                        let fs = fields@;
                        assert("id"@.len() == 2 && "error"@.len() == 5);
                        assert("name"@.len() == 4 && "message"@.len() == 7 && "stack"@.len()
                            == 5);
                        assert("name"@[0] == 'n' && "stack"@[0] == 's' && "error"@[0] == 'e');
                        assert(fs.first() == fs[0]);
                        let t1 = fs.drop_first();
                        assert(t1.first() == fs[1]);
                        assert(obj_get(fs, "id"@) == Option::Some(fs[0].1));
                        assert(resp_id_of(fs) == Option::Some(*id));
                        assert(obj_get(fs, "error"@) == obj_get(t1, "error"@));
                        assert(obj_get(t1, "error"@) == Option::Some(fs[1].1));
                        assert(fs[1].1 == JsonValue::Obj(outer));
                        assert(outer_view.first() == outer_view[0]);
                        assert(obj_get(outer_view, "error"@) == Option::Some(outer_view[0].1));
                        let iv = inner_view;
                        assert(iv.first() == iv[0]);
                        let i1 = iv.drop_first();
                        let i2 = i1.drop_first();
                        assert(i1.first() == iv[1]);
                        assert(i2.first() == iv[2]);
                        assert(obj_get(iv, "name"@) == Option::Some(iv[0].1));
                        assert(obj_get(iv, "message"@) == obj_get(i1, "message"@));
                        assert(obj_get(i1, "message"@) == Option::Some(iv[1].1));
                        assert(obj_get(iv, "stack"@) == obj_get(i1, "stack"@));
                        assert(obj_get(i1, "stack"@) == obj_get(i2, "stack"@));
                        assert(obj_get(i2, "stack"@) == Option::Some(iv[2].1));
                        assert(error_payload_of(fs) == Option::Some(
                            (e.name@, e.message@, e.stack@),
                        ));
                    }
                    JsonValue::Obj(fields)
                },
            }
        },
        IncomingMessage::Event { guid, method, params } => {
            let mut fields: Vec<(String, JsonValue)> = Vec::new();
            fields.push((String::from_str("guid"), JsonValue::Str(guid.clone())));
            fields.push((String::from_str("method"), JsonValue::Str(method.clone())));
            fields.push((String::from_str("params"), json_clone(params)));
            proof {
                reveal_strlit("id");
                reveal_strlit("guid");
                reveal_strlit("method");
                reveal_strlit("params");
                let fs = fields@;
                assert("id"@.len() == 2 && "guid"@.len() == 4);
                assert("method"@.len() == 6 && "params"@.len() == 6);
                assert("method"@[0] == 'm' && "params"@[0] == 'p');
                assert(fs.first() == fs[0]);
                let t1 = fs.drop_first();
                let t2 = t1.drop_first();
                assert(t1.first() == fs[1]);
                assert(t2.first() == fs[2]);
                assert(t2.drop_first().len() == 0);
                assert(obj_get(fs, "id"@) == obj_get(t1, "id"@));
                assert(obj_get(t1, "id"@) == obj_get(t2, "id"@));
                assert(obj_get(t2, "id"@) == obj_get(t2.drop_first(), "id"@));
                assert(obj_get(fs, "id"@) is None);
                assert(resp_id_of(fs) is None);
                assert(obj_get(fs, "guid"@) == Option::Some(fs[0].1));
                assert(obj_get(fs, "method"@) == obj_get(t1, "method"@));
                assert(obj_get(t1, "method"@) == Option::Some(fs[1].1));
                assert(obj_get(fs, "params"@) == obj_get(t1, "params"@));
                assert(obj_get(t1, "params"@) == obj_get(t2, "params"@));
                assert(obj_get(t2, "params"@) == Option::Some(fs[2].1));
                lemma_json_eq_sym(fs[2].1, *params);
            }
            JsonValue::Obj(fields)
        },
    }
}

/// Decodes a JSON value as an incoming message; `None` exactly when it has
/// neither the response nor the event shape.
pub fn decode_message(j: &JsonValue) -> (r: Option<IncomingMessage>)
    ensures
        match r {
            Some(m) => msg_matches_json(m, *j) && json_is_message(*j),
            None => !json_is_message(*j),
        },
{
    let fs = match j {
        JsonValue::Obj(fs) => fs,
        _ => {
            return None;
        },
    };
    let mut response_id: Option<u32> = None;
    if let Some(i) = obj_find(fs, "id") {
        if let JsonValue::Int(x) = &fs[i].1 {
            if 0i64 <= *x && *x <= 0xffff_ffffi64 {
                response_id = Some(*x as u32);
            }
        }
    }
    proof {
        match response_id {
            Option::Some(id) => {
                assert(resp_id_of(fs@) == Option::Some(id));
            },
            Option::None => {
                assert(resp_id_of(fs@) is None);
            },
        }
    }
    match response_id {
        Some(id) => {
            match obj_find(fs, "error") {
                Some(ei) => {
                    let outer = match &fs[ei].1 {
                        JsonValue::Obj(o) => o,
                        _ => {
                            return None;
                        },
                    };
                    let inner = match obj_find(outer, "error") {
                        Some(oi) => {
                            match &outer[oi].1 {
                                JsonValue::Obj(o) => o,
                                _ => {
                                    return None;
                                },
                            }
                        },
                        None => {
                            return None;
                        },
                    };
                    let name = match obj_find(inner, "name") {
                        Some(ni) => {
                            match &inner[ni].1 {
                                JsonValue::Str(s) => s.clone(),
                                _ => {
                                    return None;
                                },
                            }
                        },
                        None => {
                            return None;
                        },
                    };
                    let message = match obj_find(inner, "message") {
                        Some(mi) => {
                            match &inner[mi].1 {
                                JsonValue::Str(s) => s.clone(),
                                _ => {
                                    return None;
                                },
                            }
                        },
                        None => {
                            return None;
                        },
                    };
                    let stack = match obj_find(inner, "stack") {
                        Some(si) => {
                            match &inner[si].1 {
                                JsonValue::Str(s) => s.clone(),
                                _ => {
                                    return None;
                                },
                            }
                        },
                        None => {
                            return None;
                        },
                    };
                    Some(
                        IncomingMessage::Response {
                            id,
                            outcome: ResponseOutcome::Failure(
                                ErrorPayload { name, message, stack },
                            ),
                        },
                    )
                },
                None => {
                    let outcome = match obj_find(fs, "result") {
                        Some(ri) => ResponseOutcome::Success(json_clone(&fs[ri].1)),
                        None => ResponseOutcome::Success(JsonValue::Null),
                    };
                    proof {
                        if obj_get(fs@, "result"@) is Some {
                            lemma_json_eq_sym(
                                outcome->Success_0,
                                obj_get(fs@, "result"@)->Some_0,
                            );
                        }
                    }
                    Some(IncomingMessage::Response { id, outcome })
                },
            }
        },
        None => {
            let guid = match obj_find(fs, "guid") {
                Some(gi) => {
                    match &fs[gi].1 {
                        JsonValue::Str(s) => s.clone(),
                        _ => {
                            return None;
                        },
                    }
                },
                None => {
                    return None;
                },
            };
            let method = match obj_find(fs, "method") {
                Some(mi) => {
                    match &fs[mi].1 {
                        JsonValue::Str(s) => s.clone(),
                        _ => {
                            return None;
                        },
                    }
                },
                None => {
                    return None;
                },
            };
            let params = match obj_find(fs, "params") {
                Some(pi) => json_clone(&fs[pi].1),
                None => {
                    return None;
                },
            };
            proof {
                lemma_json_eq_sym(params, obj_get(fs@, "params"@)->Some_0);
            }
            Some(IncomingMessage::Event { guid, method, params })
        },
    }
}


/// Looking a name up after appending a field: an earlier field still wins;
/// otherwise the new field answers exactly for its own name.
pub proof fn lemma_obj_get_push(fs: Seq<(String, JsonValue)>, f: (String, JsonValue), name: Seq<char>)
    ensures
        obj_get(fs.push(f), name) == if obj_get(fs, name) is Some {
            obj_get(fs, name)
        } else if f.0@ == name {
            Option::<JsonValue>::Some(f.1)
        } else {
            Option::<JsonValue>::None
        },
    decreases fs.len(),
{
    if fs.len() == 0 {
        assert(fs.push(f).first() == f);
        assert(fs.push(f).drop_first() =~= Seq::<(String, JsonValue)>::empty());
        assert(obj_get(Seq::<(String, JsonValue)>::empty(), name) is None);
        assert(obj_get(fs, name) is None);
    } else {
        assert(fs.push(f).first() == fs.first());
        assert(fs.push(f).drop_first() =~= fs.drop_first().push(f));
        lemma_obj_get_push(fs.drop_first(), f, name);
    }
}

} // verus!
