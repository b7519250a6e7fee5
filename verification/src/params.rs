//! A small builder for request param objects: fields are appended under
//! distinct names, and every lookup the contracts speak of is pinned down
//! as the fields go in.
use vstd::prelude::*;
use crate::codec::{lemma_obj_get_push, obj_get};
use crate::json::JsonValue;
use vstd::string::StringExecFns;

verus! {

broadcast use vstd::seq::group_seq_axioms, vstd::std_specs::vec::group_vec_axioms;

/// An in-progress param object.
pub struct ParamList {
    pub fields: Vec<(String, JsonValue)>,
}

impl ParamList {
    /// An empty param object: every lookup misses.
    pub fn new() -> (r: ParamList)
        ensures
            r.fields@.len() == 0,
            forall|n: Seq<char>| #[trigger] obj_get(r.fields@, n) is None,
    {
        let r = ParamList { fields: Vec::new() };
        proof {
            assert forall|n: Seq<char>| #[trigger] obj_get(r.fields@, n) is None by {}
        }
        r
    }

    /// Appends one field under a name not yet present: afterwards that name
    /// answers with the value, every other name answers as before.
    pub fn add(&mut self, key: &str, v: JsonValue)
        requires
            obj_get(old(self).fields@, key@) is None,
        ensures
            final(self).fields@.len() == old(self).fields@.len() + 1,
            obj_get(final(self).fields@, key@) == Option::Some(v),
            forall|n: Seq<char>|
                n != key@ ==> #[trigger] obj_get(final(self).fields@, n) == obj_get(
                    old(self).fields@,
                    n,
                ),
    {
        self.fields.push((key.to_owned(), v));
        proof {
            let fs0 = old(self).fields@;
            let f = self.fields@.last();
            assert(self.fields@ =~= fs0.push(f));
            assert forall|n: Seq<char>| true implies #[trigger] obj_get(self.fields@, n) == (if n
                == key@ {
                Option::Some(f.1)
            } else {
                obj_get(fs0, n)
            }) by {
                lemma_obj_get_push(fs0, f, n);
            }
        }
    }


    /// Appends a boolean field when it is set; a `None` leaves the object
    /// untouched.
    pub fn add_opt_bool(&mut self, key: &str, v: &Option<bool>)
        requires
            obj_get(old(self).fields@, key@) is None,
        ensures
            final(self).fields@.len() == old(self).fields@.len() + (if v is Some {
                1int
            } else {
                0int
            }),
            obj_get(final(self).fields@, key@) == match *v {
                Some(x) => Option::Some(JsonValue::Bool(x)),
                None => Option::<JsonValue>::None,
            },
            forall|n: Seq<char>|
                n != key@ ==> #[trigger] obj_get(final(self).fields@, n) == obj_get(
                    old(self).fields@,
                    n,
                ),
    {
        match v {
            Some(x) => {
                self.add(key, JsonValue::Bool(*x));
            },
            None => {},
        }
    }

    /// Appends a string field when it is set; a `None` leaves the object
    /// untouched.
    pub fn add_opt_string(&mut self, key: &str, v: &Option<String>)
        requires
            obj_get(old(self).fields@, key@) is None,
        ensures
            final(self).fields@.len() == old(self).fields@.len() + (if v is Some {
                1int
            } else {
                0int
            }),
            (v matches Some(x) ==> (obj_get(final(self).fields@, key@) matches Option::Some(
                JsonValue::Str(sv),
            ) && sv@ == x@)),
            (v is None ==> obj_get(final(self).fields@, key@) is None),
            forall|n: Seq<char>|
                n != key@ ==> #[trigger] obj_get(final(self).fields@, n) == obj_get(
                    old(self).fields@,
                    n,
                ),
    {
        match v {
            Some(x) => {
                self.add(key, JsonValue::Str(x.clone()));
            },
            None => {},
        }
    }

    /// Wraps the fields up as a JSON object.
    pub fn finish(self) -> (r: JsonValue)
        ensures
            r == (JsonValue::Obj(self.fields)),
            r matches JsonValue::Obj(fv) && fv@ == self.fields@,
    {
        JsonValue::Obj(self.fields)
    }
}

} // verus!
