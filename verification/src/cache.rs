//! The memo of the host's subclass relation.
//!
//! Asking the host whether one type is a subclass of another may be costly,
//! and the answer for a pair of types never changes. So each answer is kept,
//! under the ordered pair it was asked for. Entries are only ever added.

use vstd::prelude::*;
use std::collections::HashMap;
use crate::handles::TypeId;

verus! {

broadcast use vstd::std_specs::hash::group_hash_axioms;

/// What the memo holds: the answer that was given for each pair asked so far.
pub type Answers = Map<(TypeId, TypeId), bool>;

/// The number under which the answer for an ordered pair is filed: the first
/// token in the upper 64 bits, the second in the lower. Different pairs are
/// filed under different numbers.
spec fn pair_key(cls: TypeId, super_cls: TypeId) -> u128 {
    (cls.0 as int * 0x1_0000_0000_0000_0000 + super_cls.0 as int) as u128
}

/// What is known about a pair without asking the host: every type is a
/// subclass of itself, and a pair that was asked before has its answer on
/// file. `None` means that only the host can tell.
pub open spec fn known_answer(answers: Answers, cls: TypeId, super_cls: TypeId) -> Option<bool> {
    if cls == super_cls {
        Some(true)
    } else if answers.contains_key((cls, super_cls)) {
        Some(answers[(cls, super_cls)])
    } else {
        None
    }
}

/// One subclass query as a step: the answer returned and the memo left
/// behind. `host_answer` is what the host would say if it were asked; it
/// matters only where `known_answer` is `None`.
pub open spec fn after_query(
    answers: Answers,
    cls: TypeId,
    super_cls: TypeId,
    host_answer: bool,
) -> (bool, Answers) {
    match known_answer(answers, cls, super_cls) {
        Some(answer) => (answer, answers),
        None => (host_answer, answers.insert((cls, super_cls), host_answer)),
    }
}

/// Every answer on file is the one that the relation `rel` gives.
pub open spec fn agrees_with(answers: Answers, rel: spec_fn(TypeId, TypeId) -> bool) -> bool {
    forall|cls: TypeId, super_cls: TypeId| #[trigger]
        answers.contains_key((cls, super_cls)) ==> answers[(cls, super_cls)] == rel(
            cls,
            super_cls,
        )
}

/// Every type is a subclass of itself, whatever is on file and whatever the
/// host would say: the query on a type and itself answers `true` and leaves
/// the memo as it was.
pub proof fn lemma_reflexive(answers: Answers, cls: TypeId, host_answer: bool)
    ensures
        known_answer(answers, cls, cls) == Some(true),
        after_query(answers, cls, cls, host_answer) == (true, answers),
{
}

/// A pair that was asked once is answered from the memo from then on: the
/// second query returns what the first returned and changes nothing, whatever
/// the host would say the second time. The host's word has no part in it.
pub proof fn lemma_second_query_is_served_from_memo(
    answers: Answers,
    cls: TypeId,
    super_cls: TypeId,
    first_host_answer: bool,
    second_host_answer: bool,
)
    ensures
        ({
            let first = after_query(answers, cls, super_cls, first_host_answer);
            &&& known_answer(first.1, cls, super_cls) == Some(first.0)
            &&& after_query(first.1, cls, super_cls, second_host_answer) == first
        }),
{
}

/// The memo only grows: a query leaves every answer that was on file on file,
/// unchanged, and adds at most the pair that was asked.
pub proof fn lemma_answers_are_permanent(
    answers: Answers,
    cls: TypeId,
    super_cls: TypeId,
    host_answer: bool,
)
    ensures
        ({
            let after = after_query(answers, cls, super_cls, host_answer).1;
            &&& answers.submap_of(after)
            &&& after.dom() == answers.dom() || after.dom() == answers.dom().insert(
                (cls, super_cls),
            )
        }),
{
}

/// Two queries leave the same memo in either order, provided that the host
/// says the same each time it is asked about the same pair. So the order in
/// which callers take their turns cannot make a pair resolve two ways.
pub proof fn lemma_queries_commute(
    answers: Answers,
    cls_a: TypeId,
    super_a: TypeId,
    host_a: bool,
    cls_b: TypeId,
    super_b: TypeId,
    host_b: bool,
)
    requires
        (cls_a, super_a) == (cls_b, super_b) ==> host_a == host_b,
    ensures
        ({
            let a_first = after_query(
                after_query(answers, cls_a, super_a, host_a).1,
                cls_b,
                super_b,
                host_b,
            );
            let b_first = after_query(
                after_query(answers, cls_b, super_b, host_b).1,
                cls_a,
                super_a,
                host_a,
            );
            &&& a_first.1 == b_first.1
            &&& a_first.0 == after_query(answers, cls_b, super_b, host_b).0
            &&& b_first.0 == after_query(answers, cls_a, super_a, host_a).0
        }),
{
}

/// A memo that agrees with a relation keeps agreeing with it, and gives the
/// relation's own answers: if the host answers by `rel`, a query returns
/// `true` for a type and itself and `rel`'s answer for any other pair, no
/// matter what was asked before.
pub proof fn lemma_memo_stays_true_to_host(
    answers: Answers,
    rel: spec_fn(TypeId, TypeId) -> bool,
    cls: TypeId,
    super_cls: TypeId,
)
    requires
        agrees_with(answers, rel),
    ensures
        ({
            let after = after_query(answers, cls, super_cls, rel(cls, super_cls));
            &&& after.0 == (cls == super_cls || rel(cls, super_cls))
            &&& agrees_with(after.1, rel)
        }),
{
}

/// The answers given so far, by ordered pair of types.
pub struct SubclassCache {
    filed: HashMap<u128, bool>,
}

impl View for SubclassCache {
    type V = Answers;

    closed spec fn view(&self) -> Answers {
        Map::new(
            |pair: (TypeId, TypeId)| self.filed@.contains_key(pair_key(pair.0, pair.1)),
            |pair: (TypeId, TypeId)| self.filed@[pair_key(pair.0, pair.1)],
        )
    }
}

fn key_of(cls: &TypeId, super_cls: &TypeId) -> (key: u128)
    ensures
        key == pair_key(*cls, *super_cls),
{
    let upper: u128 = cls.0 as u128;
    let lower: u128 = super_cls.0 as u128;
    upper * 0x1_0000_0000_0000_0000u128 + lower
}

impl Clone for SubclassCache {
    /// A second memo with the same answers on file. The two are independent
    /// from then on.
    fn clone(&self) -> (copy: SubclassCache)
        ensures
            copy@ == self@,
    {
        SubclassCache { filed: self.filed.clone() }
    }
}

impl SubclassCache {
    /// A memo with nothing on file.
    pub fn new() -> (cache: SubclassCache)
        ensures
            cache@ == Answers::empty(),
    {
        SubclassCache { filed: HashMap::new() }
    }

    /// The answer on file for the pair, if it was asked before.
    pub fn get(&self, cls: &TypeId, super_cls: &TypeId) -> (found: Option<bool>)
        ensures
            found == (if self@.contains_key((*cls, *super_cls)) {
                Some(self@[(*cls, *super_cls)])
            } else {
                None
            }),
    {
        let key: u128 = key_of(cls, super_cls);
        match self.filed.get(&key) {
            Some(answer) => Some(*answer),
            None => None,
        }
    }

    /// Files `answer` under the pair. Every other pair keeps what it had.
    pub fn insert(&mut self, cls: &TypeId, super_cls: &TypeId, answer: bool)
        ensures
            final(self)@ == old(self)@.insert((*cls, *super_cls), answer),
    {
        let key: u128 = key_of(cls, super_cls);
        self.filed.insert(key, answer);
    }

    /// What the bridge can say about the pair without crossing the boundary.
    pub fn lookup(&self, cls: &TypeId, super_cls: &TypeId) -> (found: Option<bool>)
        ensures
            found == known_answer(self@, *cls, *super_cls),
    {
        if cls.0 == super_cls.0 {
            Some(true)
        } else {
            self.get(cls, super_cls)
        }
    }
}

} // verus!
