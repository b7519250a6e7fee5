//! The remote-object registry: the guid-keyed object table with
//! parent/child ownership, cascading disposal, and event fan-out to
//! subscribers. Objects are stored parent-before-child, which makes the
//! disposal cascade a single forward sweep.
use vstd::prelude::*;
use crate::json::{json_eq, JsonValue};
use crate::codec::{json_clone, str_eq};
use vstd::string::{StringExecFns, StrSliceExecFns};

verus! {

broadcast use vstd::seq::group_seq_axioms, vstd::std_specs::vec::group_vec_axioms;

/// The closed set of remote-object kinds the driver can create.
#[derive(Clone, Copy, PartialEq, Eq, Structural, Debug)]
pub enum ObjectType {
    Root,
    Playwright,
    Browser,
    BrowserType,
    BrowserContext,
    Page,
    Frame,
    ElementHandle,
    JsHandle,
    Worker,
    Request,
    Response,
    Route,
    ConsoleMessage,
    Dialog,
    Download,
    Selectors,
    BindingCall,
    Stream,
    CdpSession,
    Video,
    Accessibility,
    Other,
}

/// A multi-shot event subscription: events whose method matches are queued
/// in arrival order until the subscriber takes them.
pub struct Subscriber {
    pub sub_id: u32,
    pub method: String,
    pub queue: Vec<JsonValue>,
    pub joined: Ghost<nat>,
    pub served: Ghost<nat>,
}

/// One remote object: its protocol identity, kind, owner, creation payload,
/// and its event subscribers.
pub struct RemoteObject {
    pub guid: String,
    pub kind: ObjectType,
    pub parent: String,
    pub initializer: JsonValue,
    pub next_sub: u32,
    pub subscribers: Vec<Subscriber>,
    pub emitted: Ghost<Seq<(Seq<char>, JsonValue)>>,
}

/// Why a registry operation was refused.
#[derive(Clone, Copy, PartialEq, Eq, Structural, Debug)]
pub enum RegistryError {
    GuidExists,
    ParentMissing,
    NotFound,
    RootDisposal,
    Exhausted,
}

/// Some object in the table carries this guid.
pub open spec fn has_guid(objs: Seq<RemoteObject>, g: Seq<char>) -> bool {
    exists|i: int| 0 <= i < objs.len() && objs[i].guid@ == g
}

/// Each object's parent stands somewhere before it in the table.
pub open spec fn parent_before(objs: Seq<RemoteObject>, j: int) -> bool {
    exists|i: int| 0 <= i < j && objs[i].guid@ == objs[j].parent@
}

/// Well-formedness of the object table: the root sits first under the empty
/// guid, guids never repeat, and every other object's parent precedes it.
pub open spec fn wf(objs: Seq<RemoteObject>) -> bool {
    &&& objs.len() >= 1
    &&& objs[0].guid@ == ""@
    &&& objs[0].parent@ == ""@
    &&& (forall|i: int, j: int|
        0 <= i < j < objs.len() ==> objs[i].guid@ != objs[j].guid@)
    &&& (forall|j: int| 1 <= j < objs.len() ==> #[trigger] parent_before(objs, j))
}

/// Which table entries fall inside the subtree rooted at guid `g`: an entry
/// is marked when it carries `g` itself or its parent is marked before it.
pub open spec fn subtree_marks(objs: Seq<RemoteObject>, g: Seq<char>) -> Seq<bool>
    decreases objs.len(),
{
    if objs.len() == 0 {
        Seq::empty()
    } else {
        let prev = subtree_marks(objs.drop_last(), g);
        let o = objs.last();
        prev.push(
            o.guid@ == g || exists|i: int|
                0 <= i < objs.len() - 1 && objs[i].guid@ == o.parent@ && prev[i],
        )
    }
}

/// The table with the marked entries removed, order kept.
pub open spec fn remove_marked(objs: Seq<RemoteObject>, marks: Seq<bool>) -> Seq<RemoteObject>
    decreases objs.len(),
{
    if objs.len() == 0 {
        Seq::empty()
    } else {
        let prev = remove_marked(objs.drop_last(), marks.drop_last());
        if marks.last() {
            prev
        } else {
            prev.push(objs.last())
        }
    }
}

/// The guids of the marked entries, in table order.
pub open spec fn marked_guids(objs: Seq<RemoteObject>, marks: Seq<bool>) -> Seq<Seq<char>>
    decreases objs.len(),
{
    if objs.len() == 0 {
        Seq::empty()
    } else {
        let prev = marked_guids(objs.drop_last(), marks.drop_last());
        if marks.last() {
            prev.push(objs.last().guid@)
        } else {
            prev
        }
    }
}

/// The params of the emitted events that carry `method`, in emission order.
pub open spec fn events_for(log: Seq<(Seq<char>, JsonValue)>, method: Seq<char>) -> Seq<JsonValue>
    decreases log.len(),
{
    if log.len() == 0 {
        Seq::empty()
    } else {
        let prev = events_for(log.drop_last(), method);
        if log.last().0 == method {
            prev.push(log.last().1)
        } else {
            prev
        }
    }
}

/// What a subscriber's queue holds: exactly the events for its method that
/// the object emitted since the subscription was made, minus those already
/// taken, in emission order.
pub open spec fn sub_in_order(o: RemoteObject, k: int) -> bool {
    let s = o.subscribers@[k];
    let since = events_for(o.emitted@.skip(s.joined@ as int), s.method@);
    &&& s.joined@ <= o.emitted@.len()
    &&& s.served@ <= since.len()
    &&& crate::json::arr_eq(s.queue@, since.skip(s.served@ as int))
}

/// Subscriber bookkeeping of one object: ids are unique and below the
/// counter, and every queue reflects the emission order.
pub open spec fn obj_subs_wf(o: RemoteObject) -> bool {
    &&& (forall|k: int| 0 <= k < o.subscribers@.len() ==> (#[trigger] o.subscribers@[k]).sub_id
        < o.next_sub)
    &&& (forall|k1: int, k2: int|
        0 <= k1 < k2 < o.subscribers@.len() ==> o.subscribers@[k1].sub_id
            != o.subscribers@[k2].sub_id)
    &&& (forall|k: int| 0 <= k < o.subscribers@.len() ==> #[trigger] sub_in_order(o, k))
}

/// Subscriber bookkeeping of the whole table.
pub open spec fn subs_wf(objs: Seq<RemoteObject>) -> bool {
    forall|i: int| 0 <= i < objs.len() ==> obj_subs_wf(#[trigger] objs[i])
}

/// Appending one event extends each method's filtered view by at most that
/// event.
proof fn lemma_events_for_push(
    log: Seq<(Seq<char>, JsonValue)>,
    e: (Seq<char>, JsonValue),
    method: Seq<char>,
)
    ensures
        events_for(log.push(e), method) == if e.0 == method {
            events_for(log, method).push(e.1)
        } else {
            events_for(log, method)
        },
{
    assert(log.push(e).drop_last() =~= log);
    assert(log.push(e).last() == e);
}


/// How one object changes when a subscription is added: everything else
/// stays, one fresh subscriber with an empty queue is appended.
pub open spec fn subscribed_obj(o0: RemoteObject, o1: RemoteObject, sid: u32, method: Seq<char>) -> bool {
    &&& o1.guid == o0.guid
    &&& o1.kind == o0.kind
    &&& o1.parent == o0.parent
    &&& o1.initializer == o0.initializer
    &&& o1.emitted == o0.emitted
    &&& o1.subscribers@.len() == o0.subscribers@.len() + 1
    &&& o1.subscribers@.drop_last() == o0.subscribers@
    &&& o1.subscribers@.last().sub_id == sid
    &&& o1.subscribers@.last().method@ == method
    &&& o1.subscribers@.last().queue@.len() == 0
}

/// Some live object carries this guid with a subscription under this id.
pub open spec fn has_subscription(objs: Seq<RemoteObject>, g: Seq<char>, sub_id: u32) -> bool {
    exists|k: int, t: int|
        {
            &&& 0 <= k < objs.len()
            &&& objs[k].guid@ == g
            &&& 0 <= t < objs[k].subscribers@.len()
            &&& (#[trigger] objs[k].subscribers@[t]).sub_id == sub_id
        }
}

/// That subscription exists and holds at least one untaken event.
pub open spec fn event_ready(objs: Seq<RemoteObject>, g: Seq<char>, sub_id: u32) -> bool {
    exists|k: int, t: int|
        {
            &&& 0 <= k < objs.len()
            &&& objs[k].guid@ == g
            &&& 0 <= t < objs[k].subscribers@.len()
            &&& (#[trigger] objs[k].subscribers@[t]).sub_id == sub_id
            &&& objs[k].subscribers@[t].queue@.len() > 0
        }
}

/// How one object changes when a subscription is cancelled: everything
/// else stays, the one subscriber with that id leaves, order kept.
pub open spec fn unsubscribed_obj(o0: RemoteObject, o1: RemoteObject, sub_id: u32) -> bool {
    &&& o1.guid == o0.guid
    &&& o1.kind == o0.kind
    &&& o1.parent == o0.parent
    &&& o1.initializer == o0.initializer
    &&& o1.next_sub == o0.next_sub
    &&& o1.emitted == o0.emitted
    &&& exists|t: int|
        {
            &&& 0 <= t < o0.subscribers@.len()
            &&& (#[trigger] o0.subscribers@[t]).sub_id == sub_id
            &&& o1.subscribers@ == o0.subscribers@.remove(t)
        }
}

/// How one subscriber changes when an event is delivered: a matching method
/// receives the params at the tail of its queue, any other queue stays.
pub open spec fn delivered_sub(s0: Subscriber, s1: Subscriber, method: Seq<char>, params: JsonValue) -> bool {
    &&& s1.sub_id == s0.sub_id
    &&& s1.method == s0.method
    &&& (s0.method@ == method ==> s1.queue@.len() == s0.queue@.len() + 1
        && s1.queue@.drop_last() == s0.queue@ && json_eq(s1.queue@.last(), params))
    &&& (s0.method@ != method ==> s1.queue@ == s0.queue@)
}

/// How one object changes when an event is delivered to it.
pub open spec fn dispatched_obj(o0: RemoteObject, o1: RemoteObject, method: Seq<char>, params: JsonValue) -> bool {
    &&& o1.guid == o0.guid
    &&& o1.kind == o0.kind
    &&& o1.parent == o0.parent
    &&& o1.initializer == o0.initializer
    &&& o1.next_sub == o0.next_sub
    &&& o1.emitted@ == o0.emitted@.push((method, params))
    &&& o1.subscribers@.len() == o0.subscribers@.len()
    &&& (forall|t: int|
        0 <= t < o0.subscribers@.len() ==> delivered_sub(
            #[trigger] o0.subscribers@[t],
            o1.subscribers@[t],
            method,
            params,
        ))
}

/// The oldest untaken event of subscription `t` on object `k` was handed
/// out: the queue lost its head and nothing else changed places.
pub open spec fn took_event(
    objs0: Seq<RemoteObject>,
    objs1: Seq<RemoteObject>,
    g: Seq<char>,
    sub_id: u32,
    v: JsonValue,
    k: int,
    t: int,
) -> bool {
    &&& 0 <= k < objs0.len()
    &&& objs0[k].guid@ == g
    &&& 0 <= t < objs0[k].subscribers@.len()
    &&& objs0[k].subscribers@[t].sub_id == sub_id
    &&& objs0[k].subscribers@[t].queue@.len() > 0
    &&& json_eq(v, objs0[k].subscribers@[t].queue@.first())
    &&& objs1[k].subscribers@[t].queue@ == objs0[k].subscribers@[t].queue@.drop_first()
}


/// Table-level effect of adding a subscription on the object with guid `g`.
pub open spec fn subscribed_all(
    objs0: Seq<RemoteObject>,
    objs1: Seq<RemoteObject>,
    g: Seq<char>,
    sid: u32,
    method: Seq<char>,
) -> bool {
    &&& objs1.len() == objs0.len()
    &&& (forall|k: int|
        0 <= k < objs0.len() && (#[trigger] objs0[k]).guid@ != g ==> objs1[k] == objs0[k])
    &&& (forall|k: int|
        0 <= k < objs0.len() && (#[trigger] objs0[k]).guid@ == g ==> subscribed_obj(
            objs0[k],
            objs1[k],
            sid,
            method,
        ))
}

/// Table-level effect of delivering an event to the object with guid `g`.
pub open spec fn dispatched_all(
    objs0: Seq<RemoteObject>,
    objs1: Seq<RemoteObject>,
    g: Seq<char>,
    method: Seq<char>,
    params: JsonValue,
) -> bool {
    &&& objs1.len() == objs0.len()
    &&& (forall|k: int|
        0 <= k < objs0.len() && (#[trigger] objs0[k]).guid@ != g ==> objs1[k] == objs0[k])
    &&& (forall|k: int|
        0 <= k < objs0.len() && (#[trigger] objs0[k]).guid@ == g ==> dispatched_obj(
            objs0[k],
            objs1[k],
            method,
            params,
        ))
}

/// The marks have the same length as the table.
proof fn lemma_subtree_marks_len(objs: Seq<RemoteObject>, g: Seq<char>)
    ensures
        subtree_marks(objs, g).len() == objs.len(),
    decreases objs.len(),
{
    if objs.len() > 0 {
        lemma_subtree_marks_len(objs.drop_last(), g);
    }
}

/// What survives removal: exactly the entries left unmarked.
proof fn lemma_remove_marked_membership(objs: Seq<RemoteObject>, marks: Seq<bool>)
    requires
        marks.len() == objs.len(),
    ensures
        forall|x: Seq<char>|
            has_guid(remove_marked(objs, marks), x) <==> exists|j: int|
                0 <= j < objs.len() && objs[j].guid@ == x && !marks[j],
        forall|k: int|
            0 <= k < remove_marked(objs, marks).len() ==> exists|j: int|
                0 <= j < objs.len() && objs[j] == #[trigger] remove_marked(objs, marks)[k]
                    && !marks[j],
    decreases objs.len(),
{
    let res = remove_marked(objs, marks);
    if objs.len() == 0 {
        assert forall|x: Seq<char>| !has_guid(res, x) by {
            assert(res.len() == 0);
        }
    } else {
        let po = objs.drop_last();
        let pm = marks.drop_last();
        lemma_remove_marked_membership(po, pm);
        let prev = remove_marked(po, pm);
        assert forall|x: Seq<char>|
            has_guid(res, x) <==> exists|j: int|
                0 <= j < objs.len() && objs[j].guid@ == x && !marks[j] by {
            if has_guid(res, x) {
                let k = choose|k: int| 0 <= k < res.len() && res[k].guid@ == x;
                if marks.last() {
                    assert(res == prev);
                    assert(has_guid(prev, x));
                    let j = choose|j: int| 0 <= j < po.len() && po[j].guid@ == x && !pm[j];
                    assert(objs[j].guid@ == x && !marks[j]);
                } else {
                    if k < prev.len() {
                        assert(prev[k] == res[k]);
                        assert(has_guid(prev, x));
                        let j = choose|j: int| 0 <= j < po.len() && po[j].guid@ == x && !pm[j];
                        assert(objs[j].guid@ == x && !marks[j]);
                    } else {
                        assert(res[k] == objs.last());
                        assert(objs[objs.len() - 1].guid@ == x && !marks[objs.len() - 1]);
                    }
                }
            }
            if exists|j: int| 0 <= j < objs.len() && objs[j].guid@ == x && !marks[j] {
                let j = choose|j: int| 0 <= j < objs.len() && objs[j].guid@ == x && !marks[j];
                if j < objs.len() - 1 {
                    assert(po[j].guid@ == x && !pm[j]);
                    assert(has_guid(prev, x));
                    let k = choose|k: int| 0 <= k < prev.len() && prev[k].guid@ == x;
                    if marks.last() {
                        assert(res[k].guid@ == x);
                    } else {
                        assert(res[k] == prev[k]);
                    }
                    assert(has_guid(res, x));
                } else {
                    assert(!marks.last());
                    assert(res.last().guid@ == x);
                    assert(has_guid(res, x));
                }
            }
        }
        assert forall|k: int|
            0 <= k < res.len() implies exists|j: int|
                0 <= j < objs.len() && objs[j] == #[trigger] res[k] && !marks[j] by {
            if marks.last() {
                assert(res == prev);
                let j = choose|j: int| 0 <= j < po.len() && po[j] == res[k] && !pm[j];
                assert(objs[j] == res[k] && !marks[j]);
            } else {
                if k < prev.len() {
                    assert(res[k] == prev[k]);
                    let j = choose|j: int| 0 <= j < po.len() && po[j] == prev[k] && !pm[j];
                    assert(objs[j] == res[k] && !marks[j]);
                } else {
                    assert(res[k] == objs.last());
                    assert(objs[objs.len() - 1] == res[k] && !marks[objs.len() - 1]);
                }
            }
        }
    }
}

/// Marking is closed downward: a child of a marked parent is marked.
proof fn lemma_subtree_marks_closed(objs: Seq<RemoteObject>, g: Seq<char>, j: int)
    requires
        0 <= j < objs.len(),
        parent_before(objs, j),
        exists|i: int|
            0 <= i < j && objs[i].guid@ == objs[j].parent@ && subtree_marks(objs, g)[i],
    ensures
        subtree_marks(objs, g)[j],
    decreases objs.len(),
{
    lemma_subtree_marks_len(objs, g);
    if j == objs.len() - 1 {
        let prev = subtree_marks(objs.drop_last(), g);
        let i = choose|i: int|
            0 <= i < j && objs[i].guid@ == objs[j].parent@ && subtree_marks(objs, g)[i];
        lemma_subtree_marks_prefix(objs, g, i);
        assert(prev[i]);
    } else {
        lemma_subtree_marks_prefix(objs, g, j);
        let po = objs.drop_last();
        let i = choose|i: int|
            0 <= i < j && objs[i].guid@ == objs[j].parent@ && subtree_marks(objs, g)[i];
        lemma_subtree_marks_prefix(objs, g, i);
        assert(po[i].guid@ == po[j].parent@ && subtree_marks(po, g)[i]);
        lemma_subtree_marks_closed(po, g, j);
    }
}

/// A mark depends only on the table up to its own position.
proof fn lemma_subtree_marks_prefix(objs: Seq<RemoteObject>, g: Seq<char>, j: int)
    requires
        0 <= j < objs.len() - 1,
    ensures
        subtree_marks(objs, g)[j] == subtree_marks(objs.drop_last(), g)[j],
{
    lemma_subtree_marks_len(objs, g);
    lemma_subtree_marks_len(objs.drop_last(), g);
}

/// An order-preserving index map from the surviving table back into the
/// original: survivors keep their relative order and are exactly the
/// unmarked entries.
proof fn lemma_remove_marked_map(objs: Seq<RemoteObject>, marks: Seq<bool>) -> (m: Seq<int>)
    requires
        marks.len() == objs.len(),
    ensures
        m.len() == remove_marked(objs, marks).len(),
        forall|k: int|
            0 <= k < m.len() ==> 0 <= #[trigger] m[k] < objs.len() && remove_marked(objs, marks)[k]
                == objs[m[k]] && !marks[m[k]],
        forall|k1: int, k2: int| 0 <= k1 < k2 < m.len() ==> m[k1] < m[k2],
        forall|j: int|
            0 <= j < objs.len() && !marks[j] ==> exists|k: int| 0 <= k < m.len() && m[k] == j,
    decreases objs.len(),
{
    if objs.len() == 0 {
        Seq::empty()
    } else {
        let po = objs.drop_last();
        let pm = marks.drop_last();
        let prev = lemma_remove_marked_map(po, pm);
        if marks.last() {
            assert forall|j: int|
                0 <= j < objs.len() && !marks[j] implies exists|k: int|
                    0 <= k < prev.len() && prev[k] == j by {
                assert(j < objs.len() - 1 && !pm[j]);
            }
            prev
        } else {
            let m = prev.push(objs.len() - 1);
            assert forall|j: int|
                0 <= j < objs.len() && !marks[j] implies exists|k: int|
                    0 <= k < m.len() && m[k] == j by {
                if j < objs.len() - 1 {
                    assert(!pm[j]);
                    let k = choose|k: int| 0 <= k < prev.len() && prev[k] == j;
                    assert(m[k] == j);
                } else {
                    assert(m[m.len() - 1] == j);
                }
            }
            m
        }
    }
}

/// The first entry's mark looks only at its own guid.
proof fn lemma_subtree_marks_first(objs: Seq<RemoteObject>, g: Seq<char>)
    requires
        objs.len() > 0,
    ensures
        subtree_marks(objs, g)[0] == (objs[0].guid@ == g),
    decreases objs.len(),
{
    lemma_subtree_marks_len(objs, g);
    if objs.len() == 1 {
    } else {
        lemma_subtree_marks_prefix(objs, g, 0);
        lemma_subtree_marks_first(objs.drop_last(), g);
    }
}

/// Disposal keeps the table well formed: the root is never inside a disposed
/// subtree, survivors keep their order, and a survivor's parent survives
/// with it.
proof fn lemma_remove_marked_wf(objs: Seq<RemoteObject>, g: Seq<char>)
    requires
        wf(objs),
        g.len() > 0,
    ensures
        wf(remove_marked(objs, subtree_marks(objs, g))),
{
    let marks = subtree_marks(objs, g);
    lemma_subtree_marks_len(objs, g);
    let res = remove_marked(objs, marks);
    let m = lemma_remove_marked_map(objs, marks);
    lemma_subtree_marks_first(objs, g);
    assert(!marks[0]) by {
        reveal_strlit("");
        assert(""@.len() == 0);
    }
    let k0 = choose|k: int| 0 <= k < m.len() && m[k] == 0;
    assert(0 <= k0 < m.len());
    assert(k0 == 0) by {
        if k0 > 0 {
            assert(m[0] < m[k0]);
        }
    }
    assert(res.len() >= 1);
    assert(res[0] == objs[0]);
    assert forall|k1: int, k2: int|
        0 <= k1 < k2 < res.len() implies res[k1].guid@ != res[k2].guid@ by {
        assert(m[k1] < m[k2]);
        assert(res[k1] == objs[m[k1]] && res[k2] == objs[m[k2]]);
    }
    assert forall|k: int| 1 <= k < res.len() implies #[trigger] parent_before(res, k) by {
        let j = m[k];
        assert(m[0] < m[k]) by {
            assert(0 < k);
        }
        assert(1 <= j < objs.len());
        assert(parent_before(objs, j));
        let i = choose|i: int| 0 <= i < j && objs[i].guid@ == objs[j].parent@;
        assert(!marks[i]) by {
            if marks[i] {
                lemma_subtree_marks_closed(objs, g, j);
            }
        }
        let ki = choose|kk: int| 0 <= kk < m.len() && m[kk] == i;
        assert(ki < k) by {
            if ki > k {
                assert(m[k] < m[ki]);
            }
        }
        assert(res[ki].guid@ == objs[i].guid@);
        assert(res[ki].guid@ == res[k].parent@);
    }
}

/// Creating an object adds exactly its guid to the live set.
pub proof fn lemma_create_live_set(objs: Seq<RemoteObject>, o: RemoteObject)
    ensures
        forall|x: Seq<char>|
            has_guid(objs.push(o), x) <==> (has_guid(objs, x) || o.guid@ == x),
{
    assert forall|x: Seq<char>|
        has_guid(objs.push(o), x) <==> (has_guid(objs, x) || o.guid@ == x) by {
        if has_guid(objs.push(o), x) {
            let i = choose|i: int| 0 <= i < objs.push(o).len() && objs.push(o)[i].guid@ == x;
            if i < objs.len() {
                assert(objs[i].guid@ == x);
            }
        }
        if has_guid(objs, x) {
            let i = choose|i: int| 0 <= i < objs.len() && objs[i].guid@ == x;
            assert(objs.push(o)[i].guid@ == x);
        }
        if o.guid@ == x {
            assert(objs.push(o)[objs.len() as int].guid@ == x);
        }
    }
}

/// Disposal removes exactly the marked subtree from the live set: a guid
/// stays exactly when its entry was not marked.
pub proof fn lemma_dispose_live_set(objs: Seq<RemoteObject>, g: Seq<char>)
    ensures
        forall|x: Seq<char>|
            has_guid(remove_marked(objs, subtree_marks(objs, g)), x) <==> exists|j: int|
                0 <= j < objs.len() && objs[j].guid@ == x && !subtree_marks(objs, g)[j],
{
    lemma_subtree_marks_len(objs, g);
    lemma_remove_marked_membership(objs, subtree_marks(objs, g));
}

/// The disposal cascade: every entry inside the disposed subtree — the
/// object itself and, transitively, every descendant — is gone from the
/// table afterwards.
pub proof fn lemma_dispose_cascade(objs: Seq<RemoteObject>, g: Seq<char>, j: int)
    requires
        wf(objs),
        0 <= j < objs.len(),
        subtree_marks(objs, g)[j],
    ensures
        !has_guid(remove_marked(objs, subtree_marks(objs, g)), objs[j].guid@),
{
    lemma_subtree_marks_len(objs, g);
    lemma_remove_marked_membership(objs, subtree_marks(objs, g));
    if has_guid(remove_marked(objs, subtree_marks(objs, g)), objs[j].guid@) {
        let jj = choose|jj: int|
            0 <= jj < objs.len() && objs[jj].guid@ == objs[j].guid@ && !subtree_marks(objs, g)[jj];
        assert(jj == j);
    }
}

/// One registry step of a notification sequence: a create (`true`, the new
/// object) appends, a dispose (`false`, a guid) removes the marked subtree.
pub open spec fn apply_op(
    objs: Seq<RemoteObject>,
    op: (bool, RemoteObject, Seq<char>),
) -> Seq<RemoteObject> {
    if op.0 {
        objs.push(op.1)
    } else {
        remove_marked(objs, subtree_marks(objs, op.2))
    }
}

/// The table after a whole sequence of creates and disposes.
pub open spec fn apply_ops(
    objs: Seq<RemoteObject>,
    ops: Seq<(bool, RemoteObject, Seq<char>)>,
) -> Seq<RemoteObject>
    decreases ops.len(),
{
    if ops.len() == 0 {
        objs
    } else {
        apply_op(apply_ops(objs, ops.drop_last()), ops.last())
    }
}

/// A sequence respects the protocol's ordering: each created guid is fresh
/// and nonempty and its parent is live; each disposed guid is live and not
/// the root.
pub open spec fn ops_valid(objs: Seq<RemoteObject>, ops: Seq<(bool, RemoteObject, Seq<char>)>) -> bool
    decreases ops.len(),
{
    if ops.len() == 0 {
        true
    } else {
        let prev = apply_ops(objs, ops.drop_last());
        let op = ops.last();
        &&& ops_valid(objs, ops.drop_last())
        &&& if op.0 {
            &&& op.1.guid@.len() > 0
            &&& !has_guid(prev, op.1.guid@)
            &&& has_guid(prev, op.1.parent@)
        } else {
            &&& op.2.len() > 0
            &&& has_guid(prev, op.2)
        }
    }
}

/// The guid set a sequence leaves live: each create contributes its guid,
/// each dispose subtracts every guid inside the subtree it found.
pub open spec fn live_after(
    objs: Seq<RemoteObject>,
    ops: Seq<(bool, RemoteObject, Seq<char>)>,
    x: Seq<char>,
) -> bool
    decreases ops.len(),
{
    if ops.len() == 0 {
        has_guid(objs, x)
    } else {
        let prev = apply_ops(objs, ops.drop_last());
        let op = ops.last();
        if op.0 {
            live_after(objs, ops.drop_last(), x) || op.1.guid@ == x
        } else {
            live_after(objs, ops.drop_last(), x) && !(exists|j: int|
                0 <= j < prev.len() && prev[j].guid@ == x && subtree_marks(prev, op.2)[j])
        }
    }
}

/// The registry round trip: for every sequence of create and dispose
/// notifications that respects parent-before-child ordering, the final live
/// set is exactly the created guids minus the disposed subtrees, and the
/// table stays well formed throughout.
pub proof fn lemma_registry_round_trip(
    objs: Seq<RemoteObject>,
    ops: Seq<(bool, RemoteObject, Seq<char>)>,
)
    requires
        wf(objs),
        ops_valid(objs, ops),
    ensures
        wf(apply_ops(objs, ops)),
        forall|x: Seq<char>| has_guid(apply_ops(objs, ops), x) <==> live_after(objs, ops, x),
    decreases ops.len(),
{
    if ops.len() > 0 {
        lemma_registry_round_trip(objs, ops.drop_last());
        let prev = apply_ops(objs, ops.drop_last());
        let op = ops.last();
        let cur = apply_ops(objs, ops);
        if op.0 {
            lemma_create_live_set(prev, op.1);
            assert(cur == prev.push(op.1));
            assert forall|x: Seq<char>| has_guid(cur, x) <==> live_after(objs, ops, x) by {
                assert(has_guid(cur, x) <==> (has_guid(prev, x) || op.1.guid@ == x));
                assert(has_guid(prev, x) <==> live_after(objs, ops.drop_last(), x));
            }
            assert(wf(cur)) by {
                assert(cur.drop_last() =~= prev);
                assert(cur[0].guid@ == ""@ && cur[0].parent@ == ""@);
                assert forall|i: int, j: int|
                    0 <= i < j < cur.len() implies cur[i].guid@ != cur[j].guid@ by {
                    if j < cur.len() - 1 {
                        assert(prev[i].guid@ != prev[j].guid@);
                    } else {
                        if cur[i].guid@ == op.1.guid@ {
                            assert(has_guid(prev, op.1.guid@));
                        }
                    }
                }
                assert forall|j: int| 1 <= j < cur.len() implies #[trigger] parent_before(
                    cur,
                    j,
                ) by {
                    if j < cur.len() - 1 {
                        assert(parent_before(prev, j));
                        let i = choose|i: int| 0 <= i < j && prev[i].guid@ == prev[j].parent@;
                        assert(cur[i].guid@ == cur[j].parent@);
                    } else {
                        let i = choose|i: int|
                            0 <= i < prev.len() && prev[i].guid@ == op.1.parent@;
                        assert(cur[i].guid@ == cur[j].parent@);
                    }
                }
            }
        } else {
            lemma_dispose_live_set(prev, op.2);
            lemma_remove_marked_wf(prev, op.2);
            lemma_subtree_marks_len(prev, op.2);
            assert forall|x: Seq<char>| has_guid(cur, x) <==> live_after(objs, ops, x) by {
                if has_guid(cur, x) {
                    let j = choose|j: int|
                        0 <= j < prev.len() && prev[j].guid@ == x && !subtree_marks(prev, op.2)[j];
                    assert(has_guid(prev, x));
                    assert(live_after(objs, ops.drop_last(), x));
                    if exists|k: int|
                        0 <= k < prev.len() && prev[k].guid@ == x && subtree_marks(prev, op.2)[k] {
                        let k = choose|k: int|
                            0 <= k < prev.len() && prev[k].guid@ == x && subtree_marks(
                                prev,
                                op.2,
                            )[k];
                        assert(k == j);
                    }
                    assert(live_after(objs, ops, x));
                }
                if live_after(objs, ops, x) {
                    assert(live_after(objs, ops.drop_last(), x));
                    assert(has_guid(prev, x));
                    let j = choose|j: int| 0 <= j < prev.len() && prev[j].guid@ == x;
                    assert(!subtree_marks(prev, op.2)[j]) by {
                        if subtree_marks(prev, op.2)[j] {
                            assert(exists|k: int|
                                0 <= k < prev.len() && prev[k].guid@ == x && subtree_marks(
                                    prev,
                                    op.2,
                                )[k]);
                        }
                    }
                    assert(has_guid(cur, x));
                }
            }
        }
    }
}

/// The object table. `objects` is kept well formed (`wf`) by every
/// operation: root first, unique guids, parents before children; and each
/// object's subscriber bookkeeping stays consistent (`subs_wf`).
pub struct Registry {
    pub objects: Vec<RemoteObject>,
}

impl Registry {
    /// A fresh registry holding only the root object under the empty guid.
    pub fn new() -> (r: Registry)
        ensures
            wf(r.objects@),
            subs_wf(r.objects@),
            r.objects@.len() == 1,
            r.objects@[0].kind == ObjectType::Root,
    {
        let root = RemoteObject {
            guid: String::new(),
            kind: ObjectType::Root,
            parent: String::new(),
            initializer: JsonValue::Null,
            next_sub: 0,
            subscribers: Vec::new(),
            emitted: Ghost(Seq::empty()),
        };
        let mut objects: Vec<RemoteObject> = Vec::new();
        objects.push(root);
        proof {
            reveal_strlit("");
            assert(objects@[0].guid@ =~= ""@);
            assert(objects@[0].parent@ =~= ""@);
        }
        Registry { objects }
    }

    /// Index of the object carrying `guid`, if it is live.
    pub fn lookup(&self, guid: &str) -> (r: Option<usize>)
        ensures
            match r {
                Some(i) => i < self.objects@.len() && self.objects@[i as int].guid@ == guid@,
                None => !has_guid(self.objects@, guid@),
            },
    {
        let mut i: usize = 0;
        while i < self.objects.len()
            invariant
                i <= self.objects@.len(),
                forall|k: int| 0 <= k < i ==> self.objects@[k].guid@ != guid@,
            decreases self.objects@.len() - i,
        {
            if str_eq(self.objects[i].guid.as_str(), guid) {
                return Some(i);
            }
            i += 1;
        }
        None
    }

    /// Registers a new object under `guid`, owned by the object carrying
    /// `parent_guid`. Refuses a guid already in the table — guids are unique
    /// for the life of a connection — and a parent that is not there, since
    /// the driver always announces parents first.
    pub fn create(
        &mut self,
        parent_guid: &str,
        kind: ObjectType,
        guid: &str,
        initializer: JsonValue,
    ) -> (r: Result<(), RegistryError>)
        requires
            wf(old(self).objects@),
            subs_wf(old(self).objects@),
        ensures
            wf(final(self).objects@),
            subs_wf(final(self).objects@),
            match r {
                Ok(()) => {
                    &&& !has_guid(old(self).objects@, guid@)
                    &&& has_guid(old(self).objects@, parent_guid@)
                    &&& final(self).objects@.len() == old(self).objects@.len() + 1
                    &&& final(self).objects@.drop_last() == old(self).objects@
                    &&& final(self).objects@.last().guid@ == guid@
                    &&& final(self).objects@.last().kind == kind
                    &&& final(self).objects@.last().parent@ == parent_guid@
                    &&& final(self).objects@.last().initializer == initializer
                    &&& final(self).objects@.last().subscribers@.len() == 0
                },
                Err(RegistryError::GuidExists) => {
                    &&& has_guid(old(self).objects@, guid@)
                    &&& final(self).objects@ == old(self).objects@
                },
                Err(RegistryError::ParentMissing) => {
                    &&& !has_guid(old(self).objects@, guid@)
                    &&& !has_guid(old(self).objects@, parent_guid@)
                    &&& final(self).objects@ == old(self).objects@
                },
                Err(_) => false,
            },
    {
        match self.lookup(guid) {
            Some(i) => {
                proof {
                    assert(has_guid(self.objects@, guid@));
                }
                return Err(RegistryError::GuidExists);
            },
            None => {},
        }
        let parent_idx = match self.lookup(parent_guid) {
            Some(i) => i,
            None => {
                return Err(RegistryError::ParentMissing);
            },
        };
        let o = RemoteObject {
            guid: guid.to_owned(),
            kind,
            parent: parent_guid.to_owned(),
            initializer,
            next_sub: 0,
            subscribers: Vec::new(),
            emitted: Ghost(Seq::empty()),
        };
        let ghost old_objs = self.objects@;
        self.objects.push(o);
        proof {
            let objs = self.objects@;
            assert(objs.drop_last() =~= old_objs);
            assert(objs[0].guid@ == ""@ && objs[0].parent@ == ""@);
            assert forall|i: int, j: int|
                0 <= i < j < objs.len() implies objs[i].guid@ != objs[j].guid@ by {
                if j < objs.len() - 1 {
                    assert(old_objs[i].guid@ != old_objs[j].guid@);
                } else {
                    if objs[i].guid@ == guid@ {
                        assert(old_objs[i].guid@ == guid@);
                        assert(has_guid(old_objs, guid@));
                    }
                }
            }
            assert forall|j: int| 1 <= j < objs.len() implies #[trigger] parent_before(objs, j) by {
                if j < objs.len() - 1 {
                    assert(parent_before(old_objs, j));
                    let i = choose|i: int| 0 <= i < j && old_objs[i].guid@ == old_objs[j].parent@;
                    assert(objs[i].guid@ == objs[j].parent@);
                } else {
                    assert(objs[parent_idx as int].guid@ == objs[j].parent@);
                }
            }
            assert forall|i: int| 0 <= i < objs.len() implies obj_subs_wf(#[trigger] objs[i]) by {
                if i < objs.len() - 1 {
                    assert(obj_subs_wf(old_objs[i]));
                }
            }
        }
        Ok(())
    }

    /// Disposes the object carrying `guid` together with its whole subtree:
    /// a single forward sweep marks the object and every entry whose parent
    /// is marked, then the marked entries are dropped, subscribers and all.
    /// Returns the removed guids in table order. The root cannot be
    /// disposed.
    pub fn dispose(&mut self, guid: &str) -> (r: Result<Vec<String>, RegistryError>)
        requires
            wf(old(self).objects@),
            subs_wf(old(self).objects@),
        ensures
            wf(final(self).objects@),
            subs_wf(final(self).objects@),
            match r {
                Ok(removed) => {
                    &&& guid@.len() > 0
                    &&& has_guid(old(self).objects@, guid@)
                    &&& final(self).objects@ == remove_marked(
                        old(self).objects@,
                        subtree_marks(old(self).objects@, guid@),
                    )
                    &&& removed@.len() == marked_guids(
                        old(self).objects@,
                        subtree_marks(old(self).objects@, guid@),
                    ).len()
                    &&& (forall|k: int|
                        0 <= k < removed@.len() ==> #[trigger] removed@[k]@ == marked_guids(
                            old(self).objects@,
                            subtree_marks(old(self).objects@, guid@),
                        )[k])
                },
                Err(RegistryError::RootDisposal) => {
                    &&& guid@.len() == 0
                    &&& final(self).objects@ == old(self).objects@
                },
                Err(RegistryError::NotFound) => {
                    &&& guid@.len() > 0
                    &&& !has_guid(old(self).objects@, guid@)
                    &&& final(self).objects@ == old(self).objects@
                },
                Err(_) => false,
            },
    {
        if guid.unicode_len() == 0 {
            return Err(RegistryError::RootDisposal);
        }
        match self.lookup(guid) {
            Some(_) => {},
            None => {
                return Err(RegistryError::NotFound);
            },
        }
        let ghost old_objs = self.objects@;
        let n = self.objects.len();
        let mut marks: Vec<bool> = Vec::new();
        let mut j: usize = 0;
        proof {
            assert(old_objs.take(0) =~= Seq::<RemoteObject>::empty());
        }
        while j < n
            invariant
                j <= n,
                n == self.objects@.len(),
                self.objects@ == old_objs,
                marks@ == subtree_marks(old_objs.take(j as int), guid@),
                marks@.len() == j,
            decreases n - j,
        {
            let mut hit: bool = str_eq(self.objects[j].guid.as_str(), guid);
            if !hit {
                let mut i: usize = 0;
                while i < j
                    invariant
                        i <= j,
                        j < n,
                        n == self.objects@.len(),
                        self.objects@ == old_objs,
                        marks@.len() == j,
                        !hit ==> forall|k: int|
                            0 <= k < i ==> !(old_objs[k].guid@ == old_objs[j as int].parent@
                                && marks@[k]),
                        hit ==> exists|k: int|
                            0 <= k < j && old_objs[k].guid@ == old_objs[j as int].parent@
                                && marks@[k],
                    decreases j - i,
                {
                    if marks[i] && str_eq(
                        self.objects[i].guid.as_str(),
                        self.objects[j].parent.as_str(),
                    ) {
                        hit = true;
                    }
                    i += 1;
                }
            }
            let ghost marks_before = marks@;
            marks.push(hit);
            j += 1;
            proof {
                let pre = old_objs.take(j as int);
                assert(pre.drop_last() =~= old_objs.take(j - 1));
                assert(pre.last() == old_objs[j - 1]);
                lemma_subtree_marks_len(pre.drop_last(), guid@);
                assert(hit == (pre.last().guid@ == guid@ || exists|i: int|
                    0 <= i < j - 1 && pre.drop_last()[i].guid@ == pre.last().parent@
                        && marks_before[i])) by {
                    if !(pre.last().guid@ == guid@) && hit {
                        let k = choose|k: int|
                            0 <= k < j - 1 && old_objs[k].guid@ == old_objs[j - 1].parent@
                                && marks_before[k];
                        assert(pre.drop_last()[k].guid@ == pre.last().parent@ && marks_before[k]);
                    }
                    if (exists|i: int|
                        0 <= i < j - 1 && pre.drop_last()[i].guid@ == pre.last().parent@
                            && marks_before[i]) && !hit {
                        let k = choose|i: int|
                            0 <= i < j - 1 && pre.drop_last()[i].guid@ == pre.last().parent@
                                && marks_before[i];
                        assert(old_objs[k].guid@ == old_objs[j - 1].parent@ && marks_before[k]);
                    }
                }
                assert(marks@ =~= subtree_marks(pre, guid@));
            }
        }
        proof {
            assert(old_objs.take(n as int) =~= old_objs);
        }
        let mut kept: Vec<RemoteObject> = Vec::new();
        let mut removed: Vec<String> = Vec::new();
        let mut j2: usize = 0;
        proof {
            assert(old_objs.take(0) =~= Seq::<RemoteObject>::empty());
            assert(marks@.take(0) =~= Seq::<bool>::empty());
            assert(old_objs.skip(0) =~= old_objs);
        }
        while j2 < n
            invariant
                j2 <= n,
                n == marks@.len(),
                marks@ == subtree_marks(old_objs, guid@),
                old_objs.len() == n,
                self.objects@ == old_objs.skip(j2 as int),
                kept@ == remove_marked(old_objs.take(j2 as int), marks@.take(j2 as int)),
                removed@.len() == marked_guids(
                    old_objs.take(j2 as int),
                    marks@.take(j2 as int),
                ).len(),
                forall|k: int|
                    0 <= k < removed@.len() ==> #[trigger] removed@[k]@ == marked_guids(
                        old_objs.take(j2 as int),
                        marks@.take(j2 as int),
                    )[k],
            decreases n - j2,
        {
            let o = self.objects.remove(0);
            proof {
                assert(old_objs.skip(j2 as int)[0] == old_objs[j2 as int]);
                assert(old_objs.skip(j2 as int).remove(0) =~= old_objs.skip(j2 + 1));
            }
            let ghost kept_before = kept@;
            let ghost removed_before = removed@;
            if marks[j2] {
                removed.push(o.guid);
            } else {
                kept.push(o);
            }
            j2 += 1;
            proof {
                let po = old_objs.take(j2 as int);
                let pm = marks@.take(j2 as int);
                assert(po.drop_last() =~= old_objs.take(j2 - 1));
                assert(pm.drop_last() =~= marks@.take(j2 - 1));
                assert(po.last() == old_objs[j2 - 1]);
                assert(pm.last() == marks@[j2 - 1]);
                if pm.last() {
                    assert(removed@.last()@ == po.last().guid@);
                    assert(kept@ == remove_marked(po, pm));
                } else {
                    assert(kept@ =~= remove_marked(po, pm));
                }
                assert forall|k: int|
                    0 <= k < removed@.len() implies #[trigger] removed@[k]@ == marked_guids(
                        po,
                        pm,
                    )[k] by {
                    if k < removed_before.len() {
                        assert(removed@[k] == removed_before[k]);
                        assert(removed_before[k]@ == marked_guids(
                            old_objs.take(j2 - 1),
                            marks@.take(j2 - 1),
                        )[k]);
                    }
                }
            }
        }
        self.objects = kept;
        proof {
            assert(old_objs.take(n as int) =~= old_objs);
            assert(marks@.take(n as int) =~= marks@);
            lemma_remove_marked_wf(old_objs, guid@);
            lemma_subtree_marks_len(old_objs, guid@);
            lemma_remove_marked_membership(old_objs, marks@);
            assert forall|i: int|
                0 <= i < self.objects@.len() implies obj_subs_wf(#[trigger] self.objects@[i]) by {
                let jj = choose|jj: int|
                    0 <= jj < old_objs.len() && old_objs[jj] == self.objects@[i] && !marks@[jj];
                assert(obj_subs_wf(old_objs[jj]));
            }
        }
        Ok(removed)
    }

    /// Position of the subscription with this id, if any.
    fn find_sub(subs: &Vec<Subscriber>, sub_id: u32) -> (r: Option<usize>)
        ensures
            match r {
                Some(t) => t < subs@.len() && subs@[t as int].sub_id == sub_id,
                None => forall|k: int| 0 <= k < subs@.len() ==> (#[trigger] subs@[k]).sub_id
                    != sub_id,
            },
    {
        let mut t: usize = 0;
        while t < subs.len()
            invariant
                t <= subs@.len(),
                forall|k: int| 0 <= k < t ==> (#[trigger] subs@[k]).sub_id != sub_id,
            decreases subs@.len() - t,
        {
            if subs[t].sub_id == sub_id {
                return Some(t);
            }
            t += 1;
        }
        None
    }

    /// Subscribes to events named `method` on the object carrying `guid`.
    /// Returns the subscription id used to take events and to cancel.
    pub fn subscribe(&mut self, guid: &str, method: &str) -> (r: Result<u32, RegistryError>)
        requires
            wf(old(self).objects@),
            subs_wf(old(self).objects@),
        ensures
            wf(final(self).objects@),
            subs_wf(final(self).objects@),
            match r {
                Ok(sid) => {
                    &&& has_guid(old(self).objects@, guid@)
                    &&& subscribed_all(old(self).objects@, final(self).objects@, guid@, sid, method@)
                },
                Err(RegistryError::NotFound) => {
                    &&& !has_guid(old(self).objects@, guid@)
                    &&& final(self).objects@ == old(self).objects@
                },
                Err(RegistryError::Exhausted) => {
                    &&& final(self).objects@ == old(self).objects@
                    &&& (exists|k: int|
                        0 <= k < old(self).objects@.len() && (#[trigger] old(self).objects@[k]).guid@
                            == guid@ && old(self).objects@[k].next_sub == u32::MAX)
                },
                Err(_) => false,
            },
    {
        let idx = match self.lookup(guid) {
            Some(i) => i,
            None => {
                return Err(RegistryError::NotFound);
            },
        };
        if self.objects[idx].next_sub == u32::MAX {
            proof {
                assert((#[trigger] self.objects@[idx as int]).guid@ == guid@ && self.objects@[
                    idx as int
                ].next_sub == u32::MAX);
            }
            return Err(RegistryError::Exhausted);
        }
        let ghost old_objs = self.objects@;
        let mut o = self.objects.remove(idx);
        let sid = o.next_sub;
        let sub = Subscriber {
            sub_id: sid,
            method: method.to_owned(),
            queue: Vec::new(),
            joined: Ghost(o.emitted@.len()),
            served: Ghost(0),
        };
        o.next_sub = sid + 1;
        o.subscribers.push(sub);
        proof {
            let os = o.subscribers@;
            assert(os.drop_last() =~= old_objs[idx as int].subscribers@);
            assert(obj_subs_wf(old_objs[idx as int]));
            assert forall|k: int| 0 <= k < os.len() implies #[trigger] sub_in_order(o, k) by {
                if k < os.len() - 1 {
                    assert(sub_in_order(old_objs[idx as int], k));
                    assert(os[k] == old_objs[idx as int].subscribers@[k]);
                } else {
                    let s = os[k];
                    assert(o.emitted@.skip(s.joined@ as int) =~= Seq::<
                        (Seq<char>, JsonValue),
                    >::empty());
                    assert(events_for(o.emitted@.skip(s.joined@ as int), s.method@).skip(0)
                        =~= Seq::<JsonValue>::empty());
                }
            }
            assert(obj_subs_wf(o));
        }
        self.objects.insert(idx, o);
        proof {
            assert(self.objects@ =~= old_objs.update(idx as int, o));
            assert forall|k: int|
                0 <= k < old_objs.len() && old_objs[k].guid@ != guid@ implies self.objects@[k]
                == old_objs[k] by {}
            assert(wf(self.objects@)) by {
                assert forall|j: int|
                    1 <= j < self.objects@.len() implies #[trigger] parent_before(
                    self.objects@,
                    j,
                ) by {
                    assert(parent_before(old_objs, j));
                    let i = choose|i: int| 0 <= i < j && old_objs[i].guid@ == old_objs[j].parent@;
                    assert(self.objects@[i].guid@ == self.objects@[j].parent@);
                }
            }
            assert forall|i: int|
                0 <= i < self.objects@.len() implies obj_subs_wf(
                #[trigger] self.objects@[i],
            ) by {
                if i != idx {
                    assert(obj_subs_wf(old_objs[i]));
                }
            }
        }
        Ok(sid)
    }

    /// Cancels a subscription: the queue is dropped and nothing more is
    /// delivered to it. Reports whether the subscription existed.
    pub fn unsubscribe(&mut self, guid: &str, sub_id: u32) -> (r: bool)
        requires
            wf(old(self).objects@),
            subs_wf(old(self).objects@),
        ensures
            wf(final(self).objects@),
            subs_wf(final(self).objects@),
            r == has_subscription(old(self).objects@, guid@, sub_id),
            !r ==> final(self).objects@ == old(self).objects@,
            r ==> {
                &&& final(self).objects@.len() == old(self).objects@.len()
                &&& (forall|k: int|
                    0 <= k < old(self).objects@.len() && (#[trigger] old(self).objects@[k]).guid@
                        != guid@ ==> final(self).objects@[k] == old(self).objects@[k])
                &&& (forall|k: int|
                    0 <= k < old(self).objects@.len() && (#[trigger] old(self).objects@[k]).guid@
                        == guid@ ==> unsubscribed_obj(
                        old(self).objects@[k],
                        final(self).objects@[k],
                        sub_id
                    ))
            },
    {
        let idx = match self.lookup(guid) {
            Some(i) => i,
            None => {
                proof {
                    if has_subscription(self.objects@, guid@, sub_id) {
                        let (k, t) = choose|k: int, t: int|
                            {
                                &&& 0 <= k < self.objects@.len()
                                &&& self.objects@[k].guid@ == guid@
                                &&& 0 <= t < self.objects@[k].subscribers@.len()
                                &&& (#[trigger] self.objects@[k].subscribers@[t]).sub_id == sub_id
                            };
                        assert(has_guid(self.objects@, guid@));
                    }
                }
                return false;
            },
        };
        let ghost old_objs = self.objects@;
        let pos = match Self::find_sub(&self.objects[idx].subscribers, sub_id) {
            Some(p) => p,
            None => {
                proof {
                    if has_subscription(self.objects@, guid@, sub_id) {
                        let (k, t) = choose|k: int, t: int|
                            {
                                &&& 0 <= k < self.objects@.len()
                                &&& self.objects@[k].guid@ == guid@
                                &&& 0 <= t < self.objects@[k].subscribers@.len()
                                &&& (#[trigger] self.objects@[k].subscribers@[t]).sub_id == sub_id
                            };
                        assert(k == idx) by {
                            if k < idx {
                                assert(self.objects@[k].guid@ != self.objects@[idx as int].guid@);
                            }
                            if k > idx {
                                assert(self.objects@[idx as int].guid@ != self.objects@[k].guid@);
                            }
                        }
                    }
                }
                return false;
            },
        };
        let mut o = self.objects.remove(idx);
        let _ = o.subscribers.remove(pos);
        proof {
            let os = o.subscribers@;
            let old_subs = old_objs[idx as int].subscribers@;
            assert(obj_subs_wf(old_objs[idx as int]));
            assert forall|k: int| 0 <= k < os.len() implies #[trigger] sub_in_order(o, k) by {
                if k < pos {
                    assert(sub_in_order(old_objs[idx as int], k));
                    assert(os[k] == old_subs[k]);
                } else {
                    assert(sub_in_order(old_objs[idx as int], k + 1));
                    assert(os[k] == old_subs[k + 1]);
                }
            }
            assert forall|k: int| 0 <= k < os.len() implies (#[trigger] os[k]).sub_id
                < o.next_sub by {
                if k < pos {
                    assert(os[k] == old_subs[k]);
                } else {
                    assert(os[k] == old_subs[k + 1]);
                }
            }
            assert forall|k1: int, k2: int|
                0 <= k1 < k2 < os.len() implies os[k1].sub_id != os[k2].sub_id by {
                let j1 = if k1 < pos {
                    k1
                } else {
                    k1 + 1
                };
                let j2 = if k2 < pos {
                    k2
                } else {
                    k2 + 1
                };
                assert(os[k1] == old_subs[j1] && os[k2] == old_subs[j2]);
            }
            assert(obj_subs_wf(o));
        }
        self.objects.insert(idx, o);
        proof {
            assert(self.objects@ =~= old_objs.update(idx as int, o));
            assert(wf(self.objects@)) by {
                assert forall|j: int|
                    1 <= j < self.objects@.len() implies #[trigger] parent_before(
                    self.objects@,
                    j,
                ) by {
                    assert(parent_before(old_objs, j));
                    let i = choose|i: int| 0 <= i < j && old_objs[i].guid@ == old_objs[j].parent@;
                    assert(self.objects@[i].guid@ == self.objects@[j].parent@);
                }
            }
            assert forall|i: int|
                0 <= i < self.objects@.len() implies obj_subs_wf(
                #[trigger] self.objects@[i],
            ) by {
                if i != idx {
                    assert(obj_subs_wf(old_objs[i]));
                }
            }
        }
        true
    }

    /// Delivers an event to the object carrying `guid`: every subscriber to
    /// that method receives the params at the tail of its queue, so all
    /// subscribers see events in the order the driver emitted them. Returns
    /// whether the object was found.
    pub fn dispatch_event(&mut self, guid: &str, method: &str, params: &JsonValue) -> (r: bool)
        requires
            wf(old(self).objects@),
            subs_wf(old(self).objects@),
        ensures
            wf(final(self).objects@),
            subs_wf(final(self).objects@),
            r == has_guid(old(self).objects@, guid@),
            !r ==> final(self).objects@ == old(self).objects@,
            r ==> dispatched_all(old(self).objects@, final(self).objects@, guid@, method@, *params),
    {
        let idx = match self.lookup(guid) {
            Some(i) => i,
            None => {
                return false;
            },
        };
        proof {
            assert(has_guid(self.objects@, guid@));
        }
        let ghost old_objs = self.objects@;
        let mut o = self.objects.remove(idx);
        let ghost old_o = old_objs[idx as int];
        let n = o.subscribers.len();
        proof {
            assert(old_o.subscribers@.skip(0) =~= old_o.subscribers@);
        }
        let mut new_subs: Vec<Subscriber> = Vec::new();
        let mut t: usize = 0;
        while t < n
            invariant
                t <= n,
                n == old_o.subscribers@.len(),
                o.guid == old_o.guid,
                o.kind == old_o.kind,
                o.parent == old_o.parent,
                o.initializer == old_o.initializer,
                o.next_sub == old_o.next_sub,
                o.emitted == old_o.emitted,
                o.subscribers@ == old_o.subscribers@.skip(t as int),
                new_subs@.len() == t,
                forall|k: int|
                    0 <= k < t ==> {
                        let s0 = #[trigger] old_o.subscribers@[k];
                        let s1 = new_subs@[k];
                        &&& s1.sub_id == s0.sub_id
                        &&& s1.method == s0.method
                        &&& s1.joined == s0.joined
                        &&& s1.served == s0.served
                        &&& (s0.method@ == method@ ==> s1.queue@.len() == s0.queue@.len() + 1
                            && s1.queue@.drop_last() == s0.queue@ && json_eq(
                            s1.queue@.last(),
                            *params,
                        ))
                        &&& (s0.method@ != method@ ==> s1.queue@ == s0.queue@)
                    },
            decreases n - t,
        {
            proof {
                assert(old_o.subscribers@.skip(t as int)[0] == old_o.subscribers@[t as int]);
                assert(old_o.subscribers@.skip(t as int).remove(0) =~= old_o.subscribers@.skip(
                    t + 1,
                ));
            }
            let mut s = o.subscribers.remove(0);
            if str_eq(s.method.as_str(), method) {
                let ghost q0 = s.queue@;
                let c = json_clone(params);
                s.queue.push(c);
                proof {
                    assert(s.queue@.drop_last() =~= q0);
                }
            }
            new_subs.push(s);
            t += 1;
        }
        o.subscribers = new_subs;
        o.emitted = Ghost(old_o.emitted@.push((method@, *params)));
        proof {
            assert(obj_subs_wf(old_o));
            assert forall|k: int|
                0 <= k < o.subscribers@.len() implies #[trigger] sub_in_order(o, k) by {
                let s0 = old_o.subscribers@[k];
                let s1 = o.subscribers@[k];
                assert(sub_in_order(old_o, k));
                lemma_events_for_push(
                    old_o.emitted@.skip(s0.joined@ as int),
                    (method@, *params),
                    s0.method@,
                );
                assert(o.emitted@.skip(s1.joined@ as int) =~= old_o.emitted@.skip(
                    s0.joined@ as int,
                ).push((method@, *params)));
                let since0 = events_for(old_o.emitted@.skip(s0.joined@ as int), s0.method@);
                let since1 = events_for(o.emitted@.skip(s1.joined@ as int), s1.method@);
                if s0.method@ == method@ {
                    assert(since1 == since0.push(*params));
                    assert(since1.skip(s1.served@ as int) =~= since0.skip(s0.served@ as int).push(
                        *params,
                    ));
                    crate::json::lemma_arr_eq_pointwise(
                        s0.queue@,
                        since0.skip(s0.served@ as int),
                    );
                    crate::json::lemma_arr_eq_pointwise(
                        s1.queue@,
                        since1.skip(s1.served@ as int),
                    );
                    assert forall|z: int|
                        0 <= z < s1.queue@.len() implies json_eq(
                        #[trigger] s1.queue@[z],
                        since1.skip(s1.served@ as int)[z],
                    ) by {
                        if z < s1.queue@.len() - 1 {
                            assert(s1.queue@[z] == s0.queue@[z]);
                            assert(json_eq(s0.queue@[z], since0.skip(s0.served@ as int)[z]));
                        }
                    }
                } else {
                    assert(since1 == since0);
                }
            }
            assert forall|k: int| 0 <= k < o.subscribers@.len() implies (#[trigger] o.subscribers@[
                k
            ]).sub_id < o.next_sub by {
                assert(o.subscribers@[k].sub_id == old_o.subscribers@[k].sub_id);
                assert(old_o.subscribers@[k].sub_id < old_o.next_sub);
            }
            assert forall|k1: int, k2: int|
                0 <= k1 < k2 < o.subscribers@.len() implies o.subscribers@[k1].sub_id
                != o.subscribers@[k2].sub_id by {
                assert(o.subscribers@[k1].sub_id == old_o.subscribers@[k1].sub_id);
                assert(o.subscribers@[k2].sub_id == old_o.subscribers@[k2].sub_id);
                assert(old_o.subscribers@[k1].sub_id != old_o.subscribers@[k2].sub_id);
            }
            assert(obj_subs_wf(o));
        }
        self.objects.insert(idx, o);
        proof {
            assert(self.objects@ =~= old_objs.update(idx as int, o));
            assert(o.guid == old_objs[idx as int].guid);
            assert(o.parent == old_objs[idx as int].parent);
            assert(wf(self.objects@)) by {
                assert forall|j: int|
                    1 <= j < self.objects@.len() implies #[trigger] parent_before(
                    self.objects@,
                    j,
                ) by {
                    assert(parent_before(old_objs, j));
                    let i = choose|i: int| 0 <= i < j && old_objs[i].guid@ == old_objs[j].parent@;
                    assert(self.objects@[i].guid@ == self.objects@[j].parent@);
                }
            }
            assert forall|i: int|
                0 <= i < self.objects@.len() implies obj_subs_wf(
                #[trigger] self.objects@[i],
            ) by {
                if i != idx {
                    assert(obj_subs_wf(old_objs[i]));
                }
            }
        }
        true
    }

    /// Hands out the oldest untaken event of a subscription, keeping the
    /// rest in arrival order.
    pub fn take_event(&mut self, guid: &str, sub_id: u32) -> (r: Option<JsonValue>)
        requires
            wf(old(self).objects@),
            subs_wf(old(self).objects@),
        ensures
            wf(final(self).objects@),
            subs_wf(final(self).objects@),
            match r {
                Some(v) => exists|k: int, t: int|
                    (#[trigger] took_event(
                        old(self).objects@,
                        final(self).objects@,
                        guid@,
                        sub_id,
                        v,
                        k,
                        t
                    )),
                None => final(self).objects@ == old(self).objects@ && !event_ready(
                    old(self).objects@,
                    guid@,
                    sub_id,
                ),
            },
    {
        let idx = match self.lookup(guid) {
            Some(i) => i,
            None => {
                proof {
                    if event_ready(self.objects@, guid@, sub_id) {
                        let (k, t) = choose|k: int, t: int|
                            {
                                &&& 0 <= k < self.objects@.len()
                                &&& self.objects@[k].guid@ == guid@
                                &&& 0 <= t < self.objects@[k].subscribers@.len()
                                &&& (#[trigger] self.objects@[k].subscribers@[t]).sub_id == sub_id
                                &&& self.objects@[k].subscribers@[t].queue@.len() > 0
                            };
                        assert(has_guid(self.objects@, guid@));
                    }
                }
                return None;
            },
        };
        let ghost old_objs = self.objects@;
        let pos = match Self::find_sub(&self.objects[idx].subscribers, sub_id) {
            Some(p) => p,
            None => {
                proof {
                    if event_ready(self.objects@, guid@, sub_id) {
                        let (k, t) = choose|k: int, t: int|
                            {
                                &&& 0 <= k < self.objects@.len()
                                &&& self.objects@[k].guid@ == guid@
                                &&& 0 <= t < self.objects@[k].subscribers@.len()
                                &&& (#[trigger] self.objects@[k].subscribers@[t]).sub_id == sub_id
                                &&& self.objects@[k].subscribers@[t].queue@.len() > 0
                            };
                        assert(k == idx) by {
                            if k < idx {
                                assert(self.objects@[k].guid@ != self.objects@[idx as int].guid@);
                            }
                            if k > idx {
                                assert(self.objects@[idx as int].guid@ != self.objects@[k].guid@);
                            }
                        }
                    }
                }
                return None;
            },
        };
        if self.objects[idx].subscribers[pos].queue.len() == 0 {
            proof {
                if event_ready(self.objects@, guid@, sub_id) {
                    let (k, t) = choose|k: int, t: int|
                        {
                            &&& 0 <= k < self.objects@.len()
                            &&& self.objects@[k].guid@ == guid@
                            &&& 0 <= t < self.objects@[k].subscribers@.len()
                            &&& (#[trigger] self.objects@[k].subscribers@[t]).sub_id == sub_id
                            &&& self.objects@[k].subscribers@[t].queue@.len() > 0
                        };
                    assert(k == idx) by {
                        if k < idx {
                            assert(self.objects@[k].guid@ != self.objects@[idx as int].guid@);
                        }
                        if k > idx {
                            assert(self.objects@[idx as int].guid@ != self.objects@[k].guid@);
                        }
                    }
                    assert(obj_subs_wf(self.objects@[idx as int]));
                    assert(t == pos as int) by {
                        if t < pos {
                            assert(self.objects@[idx as int].subscribers@[t].sub_id
                                != self.objects@[idx as int].subscribers@[pos as int].sub_id);
                        }
                        if t > pos {
                            assert(self.objects@[idx as int].subscribers@[pos as int].sub_id
                                != self.objects@[idx as int].subscribers@[t].sub_id);
                        }
                    }
                }
            }
            return None;
        }
        let mut o = self.objects.remove(idx);
        let ghost old_o = old_objs[idx as int];
        let mut s = o.subscribers.remove(pos);
        let v = s.queue.remove(0);
        s.served = Ghost((s.served@ + 1) as nat);
        let ghost new_s = s;
        o.subscribers.insert(pos, s);
        proof {
            assert(o.subscribers@ =~= old_o.subscribers@.update(pos as int, new_s));
            assert(obj_subs_wf(old_o));
            let s0 = old_o.subscribers@[pos as int];
            let since = events_for(old_o.emitted@.skip(s0.joined@ as int), s0.method@);
            assert(sub_in_order(old_o, pos as int));
            crate::json::lemma_arr_eq_pointwise(s0.queue@, since.skip(s0.served@ as int));
            assert forall|k: int|
                0 <= k < o.subscribers@.len() implies #[trigger] sub_in_order(o, k) by {
                if k != pos {
                    assert(sub_in_order(old_o, k));
                    assert(o.subscribers@[k] == old_o.subscribers@[k]);
                } else {
                    assert(new_s.queue@ =~= s0.queue@.drop_first());
                    assert(since.skip(new_s.served@ as int) =~= since.skip(
                        s0.served@ as int,
                    ).drop_first());
                    crate::json::lemma_arr_eq_pointwise(
                        new_s.queue@,
                        since.skip(new_s.served@ as int),
                    );
                    assert forall|z: int|
                        0 <= z < new_s.queue@.len() implies json_eq(
                        #[trigger] new_s.queue@[z],
                        since.skip(new_s.served@ as int)[z],
                    ) by {
                        assert(new_s.queue@[z] == s0.queue@[z + 1]);
                        assert(json_eq(s0.queue@[z + 1], since.skip(s0.served@ as int)[z + 1]));
                    }
                }
            }
            assert forall|k: int| 0 <= k < o.subscribers@.len() implies (#[trigger] o.subscribers@[
                k
            ]).sub_id < o.next_sub by {
                if k != pos {
                    assert(o.subscribers@[k] == old_o.subscribers@[k]);
                }
            }
            assert forall|k1: int, k2: int|
                0 <= k1 < k2 < o.subscribers@.len() implies o.subscribers@[k1].sub_id
                != o.subscribers@[k2].sub_id by {
                assert(old_o.subscribers@[k1].sub_id != old_o.subscribers@[k2].sub_id);
            }
            assert(obj_subs_wf(o));
        }
        self.objects.insert(idx, o);
        proof {
            assert(self.objects@ =~= old_objs.update(idx as int, o));
            assert(wf(self.objects@)) by {
                assert forall|j: int|
                    1 <= j < self.objects@.len() implies #[trigger] parent_before(
                    self.objects@,
                    j,
                ) by {
                    assert(parent_before(old_objs, j));
                    let i = choose|i: int| 0 <= i < j && old_objs[i].guid@ == old_objs[j].parent@;
                    assert(self.objects@[i].guid@ == self.objects@[j].parent@);
                }
            }
            assert forall|i: int|
                0 <= i < self.objects@.len() implies obj_subs_wf(
                #[trigger] self.objects@[i],
            ) by {
                if i != idx {
                    assert(obj_subs_wf(old_objs[i]));
                }
            }
            assert(json_eq(v, old_objs[idx as int].subscribers@[pos as int].queue@.first())) by {
                crate::codec::lemma_json_eq_refl(v);
            }
            assert(self.objects@[idx as int].subscribers@[pos as int].queue@ == old_objs[
                idx as int
            ].subscribers@[pos as int].queue@.drop_first());
            assert(took_event(
                old(self).objects@,
                self.objects@,
                guid@,
                sub_id,
                v,
                idx as int,
                pos as int,
            ));
        }
        Some(v)
    }
}

} // verus!
