//! The bridge itself: every operation of the host as a typed method.

use vstd::prelude::*;
use crate::buffer::{UTF8Buffer, ValueBuffer};
use crate::cache::{after_query, known_answer, Answers, SubclassCache};
use crate::handles::{Field, Id, Key, TypeId, Value};
use crate::host::Host;
use crate::text::{decode_or_placeholder, renders_as};

verus! {

/// The handles that a sequence of borrowed handles refers to, in order.
pub open spec fn referents(values: Seq<&Value>) -> Seq<Value> {
    Seq::new(values.len(), |i: int| *values[i])
}

/// A host together with the memo of its subclass relation. Each bridge has a
/// memo of its own: two bridges share nothing.
pub struct Externs<H: Host> {
    host: H,
    issubclass_cache: SubclassCache,
}

impl<H: Host + Clone> Clone for Externs<H> {
    /// A second bridge to a copy of the host, with the same answers on file.
    /// The two are independent from then on.
    fn clone(&self) -> (copy: Externs<H>)
        ensures
            cloned(self.host(), copy.host()),
            copy.cache() == self.cache(),
    {
        Externs { host: self.host.clone(), issubclass_cache: self.issubclass_cache.clone() }
    }
}

impl<H: Host> Externs<H> {
    /// The host that this bridge calls.
    pub closed spec fn host(&self) -> H {
        self.host
    }

    /// The subclass answers that this bridge has on file.
    pub closed spec fn cache(&self) -> Answers {
        self.issubclass_cache@
    }

    /// A bridge to `host`, with nothing on file yet.
    pub fn new(host: H) -> (bridge: Externs<H>)
        ensures
            bridge.host() == host,
            bridge.cache() == Answers::empty(),
    {
        Externs { host, issubclass_cache: SubclassCache::new() }
    }

    /// The host, to look at.
    pub fn host_ref(&self) -> (host: &H)
        ensures
            *host == self.host(),
    {
        &self.host
    }

    /// What the bridge can say about the pair as it stands, without crossing
    /// the boundary: `None` where only the host can tell.
    pub fn known(&self, cls: &TypeId, super_cls: &TypeId) -> (found: Option<bool>)
        ensures
            found == known_answer(self.cache(), *cls, *super_cls),
    {
        self.issubclass_cache.lookup(cls, super_cls)
    }

    /// The host's identity for `val`: one crossing, answer handed on as it is.
    pub fn key_for(&self, val: &Value) -> (key: Key)
        ensures
            call_ensures(H::key_for, (&self.host(), val), key),
    {
        self.host.key_for(val)
    }

    /// The host's value for `key`: one crossing, answer handed on as it is.
    pub fn val_for(&self, key: &Key) -> (val: Value)
        ensures
            call_ensures(H::val_for, (&self.host(), key), val),
    {
        self.host.val_for(key)
    }

    /// Whether `cls` is a subclass of `super_cls`.
    ///
    /// A type is a subclass of itself, and a pair that was asked before has
    /// its answer on file: neither crosses the boundary nor changes the memo.
    /// Any other pair is put to the host once, and the host's answer is both
    /// returned and filed.
    pub fn issubclass(&mut self, cls: &TypeId, super_cls: &TypeId) -> (answer: bool)
        ensures
            final(self).host() == old(self).host(),
            *cls == *super_cls ==> answer,
            known_answer(old(self).cache(), *cls, *super_cls) matches Some(known) ==> answer
                == known && final(self).cache() == old(self).cache(),
            known_answer(old(self).cache(), *cls, *super_cls) is None ==> call_ensures(
                H::issubclass,
                (&old(self).host(), cls, super_cls),
                answer,
            ) && final(self).cache() == old(self).cache().insert((*cls, *super_cls), answer),
            (answer, final(self).cache()) == after_query(
                old(self).cache(),
                *cls,
                *super_cls,
                answer,
            ),
            known_answer(final(self).cache(), *cls, *super_cls) == Some(answer),
            old(self).cache().submap_of(final(self).cache()),
    {
        if cls.0 == super_cls.0 {
            return true;
        }
        match self.issubclass_cache.get(cls, super_cls) {
            Some(answer) => answer,
            None => {
                let answer: bool = self.host.issubclass(cls, super_cls);
                self.issubclass_cache.insert(cls, super_cls, answer);
                answer
            },
        }
    }

    /// Has the host store `values`, in order, as one collection. The host is
    /// handed copies of exactly these handles and the `merge` flag as given.
    pub fn store_list(&self, values: Vec<&Value>, merge: bool) -> (stored: Value)
        ensures
            exists|handed: &[Value]|
                handed@ == referents(values@) && #[trigger] call_ensures(
                    H::store_list,
                    (&self.host(), handed, merge),
                    stored,
                ),
    {
        let mut handed: Vec<Value> = Vec::new();
        let mut i: usize = 0;
        while i < values.len()
            invariant
                i <= values.len(),
                handed@ == referents(values@.take(i as int)),
            decreases values.len() - i,
        {
            handed.push(*values[i]);
            i = i + 1;
        }
        let run: &[Value] = handed.as_slice();
        let stored: Value = self.host.store_list(run, merge);
        assert(run@ == referents(values@) && call_ensures(
            H::store_list,
            (&self.host(), run, merge),
            stored,
        ));
        stored
    }

    /// The content of `field` of `value`, coerced by the host to `type_id`:
    /// one crossing, answer handed on as it is.
    pub fn project(&self, value: &Value, field: &Field, type_id: &TypeId) -> (content: Value)
        ensures
            call_ensures(H::project, (&self.host(), value, field, type_id), content),
    {
        self.host.project(value, field, type_id)
    }

    /// The values that `field` of `value` holds: as many as the host's buffer
    /// counts, in the order in which the host supplied them.
    pub fn project_multi(&self, value: &Value, field: &Field) -> (values: Vec<Value>)
        ensures
            exists|buf: ValueBuffer| #[trigger]
                call_ensures(H::project_multi, (&self.host(), value, field), buf) && values@
                    == buf@,
    {
        let buf: ValueBuffer = self.host.project_multi(value, field);
        buf.into_vec()
    }

    /// The host's rendering of a digest. If the host's bytes are not text,
    /// the result is the placeholder that names the digest.
    pub fn id_to_str(&self, digest: &Id) -> (text: String)
        ensures
            exists|buf: UTF8Buffer| #[trigger]
                call_ensures(H::id_to_str, (&self.host(), digest), buf) && renders_as(
                    buf@,
                    digest.debug_spec(),
                    text@,
                ),
    {
        let buf: UTF8Buffer = self.host.id_to_str(digest);
        let subject: String = digest.debug_text();
        decode_or_placeholder(buf.into_bytes(), subject.as_str())
    }

    /// The host's rendering of a value. If the host's bytes are not text,
    /// the result is the placeholder that names the value.
    pub fn val_to_str(&self, val: &Value) -> (text: String)
        ensures
            exists|buf: UTF8Buffer| #[trigger]
                call_ensures(H::val_to_str, (&self.host(), val), buf) && renders_as(
                    buf@,
                    val.debug_spec(),
                    text@,
                ),
    {
        let buf: UTF8Buffer = self.host.val_to_str(val);
        let subject: String = val.debug_text();
        decode_or_placeholder(buf.into_bytes(), subject.as_str())
    }
}

} // verus!
