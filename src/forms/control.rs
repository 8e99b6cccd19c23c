//! A typed optional value kept together with the errors its validators report.
use crate::forms::validator::{ControlValidator, ValidatorMetadata};
use crate::keyed::KeyedVec;
use vstd::prelude::*;

verus! {

/// The errors found by running the first `n` validators of `validators`, in
/// order, against `value`: each failure is filed under its validator's name,
/// a later one replacing an earlier one of the same name.
pub open spec fn errors_upto<T, V: ControlValidator<T>>(
    validators: Seq<V>,
    value: Option<T>,
    n: int,
) -> Map<Seq<char>, Map<Seq<char>, i32>>
    decreases n,
{
    if n <= 0 {
        Map::empty()
    } else {
        let before = errors_upto(validators, value, n - 1);
        match validators[n - 1].failure(value) {
            Some(meta) => before.insert(validators[n - 1].name(), meta),
            None => before,
        }
    }
}

/// The errors found by running every validator of `validators` against `value`.
pub open spec fn errors_for<T, V: ControlValidator<T>>(
    validators: Seq<V>,
    value: Option<T>,
) -> Map<Seq<char>, Map<Seq<char>, i32>> {
    errors_upto(validators, value, validators.len() as int)
}

/// The error table as a map from validator name to metadata map.
pub open spec fn error_view(errs: KeyedVec<ValidatorMetadata>) -> Map<
    Seq<char>,
    Map<Seq<char>, i32>,
> {
    errs@.map_values(|m: ValidatorMetadata| m@)
}

/// Runs every validator, in order, against `value` and collects the failures.
fn collect_errors<T, V: ControlValidator<T>>(validators: &Vec<V>, value: &Option<T>) -> (r:
    KeyedVec<ValidatorMetadata>)
    ensures
        error_view(r) == errors_for(validators@, *value),
{
    let mut errs = KeyedVec::new();
    assert(error_view(errs) =~= errors_upto(validators@, *value, 0));
    let mut i: usize = 0;
    while i < validators.len()
        invariant
            i <= validators.len(),
            error_view(errs) == errors_upto(validators@, *value, i as int),
        decreases validators.len() - i,
    {
        let ghost before = errs;
        match validators[i].validate(value) {
            Ok(()) => {},
            Err(failure) => {
                let (name, meta) = failure;
                errs.insert(name, meta);
                proof {
                    assert(error_view(errs) =~= error_view(before).insert(name@, meta@));
                }
            },
        }
        i = i + 1;
    }
    errs
}

/// Read and write access to a control's value and to its validity.
pub trait AbstractFormControl<T, V: ControlValidator<T>> {
    /// The current value.
    spec fn current(&self) -> Option<T>;

    /// The validators, in the order they run.
    spec fn rules(&self) -> Seq<V>;

    /// The current errors, by validator name.
    spec fn errors(&self) -> Map<Seq<char>, Map<Seq<char>, i32>>;

    /// Recomputes the errors from the current value.
    fn update_and_validity(&mut self)
        ensures
            final(self).current() == old(self).current(),
            final(self).rules() == old(self).rules(),
            final(self).errors() == errors_for(old(self).rules(), old(self).current()),
    ;

    /// Replaces the value and recomputes the errors.
    fn set_value(&mut self, new_value: Option<T>)
        ensures
            final(self).current() == new_value,
            final(self).rules() == old(self).rules(),
            final(self).errors() == errors_for(old(self).rules(), new_value),
    ;

    /// Whether a failure is filed under `name`.
    fn has_err(&self, name: &str) -> (r: bool)
        ensures
            r == self.errors().contains_key(name@),
    ;

    /// The metadata of the failure filed under `name`, if there is one.
    fn err(&self, name: &str) -> (r: Option<ValidatorMetadata>)
        ensures
            match r {
                Some(m) => self.errors().contains_key(name@) && m@ == self.errors()[name@],
                None => !self.errors().contains_key(name@),
            },
    ;

    /// Whether any failure is filed.
    fn has_errs(&self) -> (r: bool)
        ensures
            r == (self.errors() != Map::<Seq<char>, Map<Seq<char>, i32>>::empty()),
    ;

    /// Whether no failure is filed.
    fn is_valid(&self) -> (r: bool)
        ensures
            r == (self.errors() == Map::<Seq<char>, Map<Seq<char>, i32>>::empty()),
    ;
}

/// An optional value of type `T` with its validators and the errors they
/// report on it; the errors always match the value.
#[verifier::reject_recursive_types(T)]
#[verifier::reject_recursive_types(V)]
pub struct FormControl<T, V: ControlValidator<T>> {
    value: Option<T>,
    errs: KeyedVec<ValidatorMetadata>,
    validators: Vec<V>,
}

impl<T, V: ControlValidator<T>> FormControl<T, V> {
    /// The errors are those the validators report on the value.
    #[verifier::type_invariant]
    closed spec fn errors_match_value(self) -> bool {
        error_view(self.errs) == errors_for(self.validators@, self.value)
    }

    /// A control on `value`, with its errors computed.
    fn validated(value: Option<T>, validators: Vec<V>) -> (r: Self)
        ensures
            r.current() == value,
            r.rules() == validators@,
            r.errors() == errors_for(validators@, value),
    {
        let errs = collect_errors(&validators, &value);
        FormControl { value, errs, validators }
    }

    /// Takes the value and the validators out, leaving a control with
    /// neither.
    fn take_parts(&mut self) -> (r: (Option<T>, Vec<V>))
        ensures
            r.0 == old(self).current(),
            r.1@ == old(self).rules(),
    {
        let mut taken = FormControl::validated(None, Vec::new());
        std::mem::swap(self, &mut taken);
        let FormControl { value, errs: _, validators } = taken;
        (value, validators)
    }

    /// A control on `default_value` whose errors are already those its
    /// validators report.
    pub fn new(default_value: Option<T>, validators: Vec<V>) -> (r:
        Self)
        ensures
            r.current() == default_value,
            r.rules() == validators@,
            r.errors() == errors_for(validators@, default_value),
    {
        FormControl::validated(default_value, validators)
    }

    /// The errors of a control are always those its validators report on its
    /// value.
    pub proof fn lemma_errors_match(&self)
        ensures
            self.errors() == errors_for(self.rules(), self.current()),
    {
    }

    /// The current value.
    pub fn value(&self) -> (r: &Option<T>)
        ensures
            *r == self.current(),
    {
        &self.value
    }
}

impl<T, V: ControlValidator<T>> AbstractFormControl<T, V> for FormControl<T, V> {
    closed spec fn current(&self) -> Option<T> {
        self.value
    }

    closed spec fn rules(&self) -> Seq<V> {
        self.validators@
    }

    closed spec fn errors(&self) -> Map<Seq<char>, Map<Seq<char>, i32>> {
        errors_for(self.validators@, self.value)
    }

    fn update_and_validity(&mut self) {
        let (value, validators) = self.take_parts();
        *self = FormControl::validated(value, validators);
    }

    fn set_value(&mut self, new_value: Option<T>) {
        let (_, validators) = self.take_parts();
        *self = FormControl::validated(new_value, validators);
    }


    fn has_err(&self, name: &str) -> (r: bool) {
        proof {
            use_type_invariant(self);
        }
        self.errs.contains_key(name)
    }

    fn err(&self, name: &str) -> (r: Option<ValidatorMetadata>) {
        proof {
            use_type_invariant(self);
        }
        match self.errs.get(name) {
            Some(m) => Some(m.duplicate()),
            None => None,
        }
    }

    fn has_errs(&self) -> (r: bool) {
        let empty = self.errs.is_empty();
        proof {
            use_type_invariant(self);
            lemma_error_view_empty(self.errs);
        }
        !empty
    }

    fn is_valid(&self) -> (r: bool) {
        let empty = self.errs.is_empty();
        proof {
            use_type_invariant(self);
            lemma_error_view_empty(self.errs);
        }
        empty
    }
}

proof fn lemma_error_view_empty(errs: KeyedVec<ValidatorMetadata>)
    ensures
        (error_view(errs) == Map::<Seq<char>, Map<Seq<char>, i32>>::empty()) == (errs@
            == Map::<Seq<char>, ValidatorMetadata>::empty()),
{
    if errs@ == Map::<Seq<char>, ValidatorMetadata>::empty() {
        assert(error_view(errs) =~= Map::<Seq<char>, Map<Seq<char>, i32>>::empty());
    }
    if error_view(errs) == Map::<Seq<char>, Map<Seq<char>, i32>>::empty() {
        assert(errs@ =~= Map::<Seq<char>, ValidatorMetadata>::empty()) by {
            assert forall|k| !errs@.contains_key(k) by {
                assert(!error_view(errs).contains_key(k));
            }
        }
    }
}

/// A control with no validators has no errors, whatever its value.
pub proof fn no_validators_no_errors<T, V: ControlValidator<T>>(value: Option<T>)
    ensures
        errors_for(Seq::<V>::empty(), value) == Map::<
            Seq<char>,
            Map<Seq<char>, i32>,
        >::empty(),
{
}

/// A name is filed exactly when some validator of that name fails on the
/// value: every validator runs, and nothing else is filed.
pub proof fn errors_are_failing_names<T, V: ControlValidator<T>>(
    validators: Seq<V>,
    value: Option<T>,
    name: Seq<char>,
)
    ensures
        errors_for(validators, value).contains_key(name) <==> exists|i: int|
            0 <= i < validators.len() && (#[trigger] validators[i]).name() == name
                && validators[i].failure(value) is Some,
{
    lemma_errors_upto_names(validators, value, name, validators.len() as int);
}

proof fn lemma_errors_upto_names<T, V: ControlValidator<T>>(
    validators: Seq<V>,
    value: Option<T>,
    name: Seq<char>,
    n: int,
)
    requires
        0 <= n <= validators.len(),
    ensures
        errors_upto(validators, value, n).contains_key(name) <==> exists|i: int|
            0 <= i < n && (#[trigger] validators[i]).name() == name && validators[i].failure(
                value,
            ) is Some,
    decreases n,
{
    if n > 0 {
        lemma_errors_upto_names(validators, value, name, n - 1);
        if errors_upto(validators, value, n).contains_key(name) && !errors_upto(
            validators,
            value,
            n - 1,
        ).contains_key(name) {
            assert(validators[n - 1].name() == name);
        }
    }
}

/// Asking for a name that no validator carries finds nothing.
pub proof fn unconfigured_name_has_no_error<T, V: ControlValidator<T>>(
    validators: Seq<V>,
    value: Option<T>,
    name: Seq<char>,
)
    requires
        forall|i: int| 0 <= i < validators.len() ==> (#[trigger] validators[i]).name() != name,
    ensures
        !errors_for(validators, value).contains_key(name),
{
    errors_are_failing_names(validators, value, name);
}

/// Setting the same value twice leaves the same errors both times: when `b`
/// is `a` after `set_value(v)` and `c` is `b` after `set_value(v)`, `b` and
/// `c` agree.
pub proof fn set_value_twice_same_errors<T, V: ControlValidator<T>>(
    a: FormControl<T, V>,
    b: FormControl<T, V>,
    c: FormControl<T, V>,
    v: Option<T>,
)
    requires
        b.current() == v,
        b.rules() == a.rules(),
        b.errors() == errors_for(a.rules(), v),
        c.current() == v,
        c.rules() == b.rules(),
        c.errors() == errors_for(b.rules(), v),
    ensures
        c.current() == b.current(),
        c.errors() == b.errors(),
{
}

} // verus!
