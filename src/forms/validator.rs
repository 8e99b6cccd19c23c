//! The validator interface and the metadata that a failure carries.
use crate::keyed::KeyedVec;
use vstd::prelude::*;

verus! {

/// The name under which a validator files its failure.
pub type ValidatorKey = String;

/// What a validator reports: success, or its name with the failure's metadata.
pub type ControlValidatorResult = Result<(), (ValidatorKey, ValidatorMetadata)>;

/// A rule over one optional value of type `T`.
pub trait ControlValidator<T> {
    /// The metadata of the failure this validator reports for `value`, or
    /// `None` when it passes.
    spec fn failure(&self, value: Option<T>) -> Option<Map<Seq<char>, i32>>;

    /// The name under which this validator files its failures.
    spec fn name(&self) -> Seq<char>;

    /// Judges `value`.
    fn validate(&self, value: &Option<T>) -> (r: ControlValidatorResult)
        ensures
            match r {
                Ok(()) => self.failure(*value) is None,
                Err(e) => e.0@ == self.name() && self.failure(*value) == Some(e.1@),
            },
    ;
}

/// Integer-valued details of one validation failure, looked up by key.
#[derive(Debug)]
pub struct ValidatorMetadata {
    meta: KeyedVec<i32>,
}

impl ValidatorMetadata {
    /// The metadata as a map from key to value.
    pub closed spec fn view(&self) -> Map<Seq<char>, i32> {
        self.meta@
    }

    pub fn new() -> (r: Self)
        ensures
            r@ == Map::<Seq<char>, i32>::empty(),
    {
        ValidatorMetadata { meta: KeyedVec::new() }
    }

    /// Stores `value` under `key`, replacing any earlier value.
    pub fn add(&mut self, key: String, value: i32)
        ensures
            final(self)@ == old(self)@.insert(key@, value),
    {
        self.meta.insert(key, value);
    }

    /// The value under `key`, if there is one.
    pub fn get(&self, key: &str) -> (r: Option<i32>)
        ensures
            r == (if self@.contains_key(key@) {
                Some(self@[key@])
            } else {
                None
            }),
    {
        match self.meta.get(key) {
            Some(v) => Some(*v),
            None => None,
        }
    }

    /// Whether every entry of `self` stands in `other` with the same value.
    fn included_in(&self, other: &ValidatorMetadata) -> (r: bool)
        ensures
            r == (forall|k: Seq<char>| #[trigger] self@.contains_key(k) ==> other@.contains_key(k)
                && other@[k] == self@[k]),
    {
        let n = self.meta.len();
        let mut i: usize = 0;
        while i < n
            invariant
                n == self.meta.entries().len(),
                i <= n,
                forall|j: int| 0 <= j < i ==> {
                    let k = (#[trigger] self.meta.entries()[j]).0@;
                    other@.contains_key(k) && other@[k] == self@[k]
                },
            decreases n - i,
        {
            let (key, value) = self.meta.entry(i);
            let found = other.meta.get(key.as_str());
            let ghost k = key@;
            match found {
                Some(v) => {
                    if *v != *value {
                        proof {
                            assert(self@.contains_key(k) && !(other@[k] == self@[k]));
                        }
                        return false;
                    }
                },
                None => {
                    proof {
                        assert(self@.contains_key(k) && !other@.contains_key(k));
                    }
                    return false;
                },
            }
            i = i + 1;
        }
        proof {
            assert forall|k: Seq<char>| #[trigger] self@.contains_key(k) implies other@.contains_key(
                k,
            ) && other@[k] == self@[k] by {
                let j = choose|j: int|
                    0 <= j < self.meta.entries().len() && (#[trigger] self.meta.entries()[j]).0@
                        == k;
                assert(self.meta.entries()[j].0@ == k);
            }
        }
        true
    }

    /// A copy with the same entries.
    pub fn duplicate(&self) -> (r: Self)
        ensures
            r@ == self@,
    {
        let mut r = ValidatorMetadata::new();
        let n = self.meta.len();
        let mut i: usize = 0;
        while i < n
            invariant
                n == self.meta.entries().len(),
                i <= n,
                forall|k: Seq<char>| #[trigger] r@.contains_key(k) ==> self@.contains_key(k)
                    && r@[k] == self@[k],
                forall|j: int|
                    0 <= j < i ==> r@.contains_key((#[trigger] self.meta.entries()[j]).0@),
            decreases n - i,
        {
            let (key, value) = self.meta.entry(i);
            r.add(key.clone(), *value);
            i = i + 1;
        }
        proof {
            assert forall|k: Seq<char>| #[trigger] self@.contains_key(k) implies r@.contains_key(k) by {
                let j = choose|j: int|
                    0 <= j < self.meta.entries().len() && (#[trigger] self.meta.entries()[j]).0@
                        == k;
                assert(r@.contains_key(self.meta.entries()[j].0@));
            }
            assert(r@ =~= self@);
        }
        r
    }
}

impl Clone for ValidatorMetadata {
    fn clone(&self) -> (r: Self)
        ensures
            r@ == self@,
    {
        self.duplicate()
    }
}

impl PartialEq for ValidatorMetadata {
    fn eq(&self, other: &ValidatorMetadata) -> (r: bool) {
        let r = self.included_in(other) && other.included_in(self);
        proof {
            if r {
                assert(self@ =~= other@);
            }
        }
        r
    }
}

impl vstd::std_specs::cmp::PartialEqSpecImpl for ValidatorMetadata {
    open spec fn obeys_eq_spec() -> bool {
        true
    }

    open spec fn eq_spec(&self, other: &ValidatorMetadata) -> bool {
        self@ == other@
    }
}

impl Eq for ValidatorMetadata {}

} // verus!
