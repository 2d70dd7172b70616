//! The cascade: candidates are asked from the most specific to the most
//! general, and the first one that has a value gives it.
//!
//! A three-level cascade asks the instance, then the type default, then the
//! inherited template.

use vstd::prelude::*;

verus! {

/// The first candidate that is defined, or `fallback` where none is.
pub open spec fn first_defined<T>(candidates: Seq<Option<T>>, fallback: Option<T>) -> Option<T>
    decreases candidates.len(),
{
    if candidates.len() == 0 {
        fallback
    } else if candidates[0] is Some {
        candidates[0]
    } else {
        first_defined(candidates.drop_first(), fallback)
    }
}

/// The first candidate list that has an element, or the empty list where
/// none has: an empty list counts as absent.
pub open spec fn first_non_empty<T>(candidates: Seq<Seq<T>>) -> Seq<T>
    decreases candidates.len(),
{
    if candidates.len() == 0 {
        Seq::empty()
    } else if candidates[0].len() > 0 {
        candidates[0]
    } else {
        first_non_empty(candidates.drop_first())
    }
}

/// Skipping candidates that are not defined does not change the outcome.
pub proof fn lemma_first_defined_skip<T>(candidates: Seq<Option<T>>, fallback: Option<T>, n: int)
    requires
        0 <= n <= candidates.len(),
        forall|j: int| 0 <= j < n ==> candidates[j] is None,
    ensures
        first_defined(candidates, fallback) == first_defined(candidates.skip(n), fallback),
    decreases n,
{
    if n == 0 {
        assert(candidates.skip(0) == candidates);
    } else {
        let rest = candidates.drop_first();
        assert forall|j: int| 0 <= j < n - 1 implies rest[j] is None by {
            assert(rest[j] == candidates[j + 1]);
        }
        lemma_first_defined_skip(rest, fallback, n - 1);
        assert(rest.skip(n - 1) == candidates.skip(n));
    }
}

/// Skipping candidate lists that are empty does not change the outcome.
pub proof fn lemma_first_non_empty_skip<T>(candidates: Seq<Seq<T>>, n: int)
    requires
        0 <= n <= candidates.len(),
        forall|j: int| 0 <= j < n ==> candidates[j].len() == 0,
    ensures
        first_non_empty(candidates) == first_non_empty(candidates.skip(n)),
    decreases n,
{
    if n == 0 {
        assert(candidates.skip(0) == candidates);
    } else {
        let rest = candidates.drop_first();
        assert forall|j: int| 0 <= j < n - 1 implies rest[j].len() == 0 by {
            assert(rest[j] == candidates[j + 1]);
        }
        lemma_first_non_empty_skip(rest, n - 1);
        assert(rest.skip(n - 1) == candidates.skip(n));
    }
}

/// Override precedence: where the instance has a value, the cascade gives
/// that value, whatever the type default, the template and the fallback hold.
pub proof fn lemma_instance_overrides<T>(
    instance: T,
    type_default: Option<T>,
    template: Option<T>,
    fallback: Option<T>,
)
    ensures
        first_defined(seq![Some(instance), type_default, template], fallback) == Some(instance),
{
}

/// Where the instance and the type default have no value, the cascade gives
/// the template's value.
pub proof fn lemma_template_is_last_resort<T>(template: T, fallback: Option<T>)
    ensures
        first_defined(seq![None, None, Some(template)], fallback) == Some(template),
{
    let c = seq![None, None, Some(template)];
    lemma_first_defined_skip(c, fallback, 2);
    assert(c.skip(2)[0] == Some(template));
}

/// Override precedence for lists: a non-empty instance list is the outcome,
/// whatever the other two levels hold.
pub proof fn lemma_instance_list_overrides<T>(
    instance: Seq<T>,
    type_default: Seq<T>,
    template: Seq<T>,
)
    requires
        instance.len() > 0,
    ensures
        first_non_empty(seq![instance, type_default, template]) == instance,
{
}

/// Where the instance list and the type-default list are empty, the outcome
/// is the template's list.
pub proof fn lemma_template_list_is_last_resort<T>(template: Seq<T>)
    ensures
        first_non_empty(seq![Seq::empty(), Seq::empty(), template]) == template,
{
    let c = seq![Seq::<T>::empty(), Seq::<T>::empty(), template];
    lemma_first_non_empty_skip(c, 2);
    let rest = c.skip(2);
    assert(rest[0] == template);
    if template.len() == 0 {
        assert(rest.drop_first().len() == 0);
        assert(first_non_empty(rest.drop_first()) == Seq::<T>::empty());
        assert(template == Seq::<T>::empty());
    }
}

/// A three-level cascade over lists, level by level.
pub proof fn lemma_three_lists<T>(instance: Seq<T>, type_default: Seq<T>, template: Seq<T>)
    ensures
        first_non_empty(seq![instance, type_default, template]) == if instance.len() > 0 {
            instance
        } else if type_default.len() > 0 {
            type_default
        } else {
            template
        },
{
    let c = seq![instance, type_default, template];
    if instance.len() > 0 {
    } else if type_default.len() > 0 {
        lemma_first_non_empty_skip(c, 1);
        assert(c.skip(1)[0] == type_default);
    } else {
        lemma_first_non_empty_skip(c, 2);
        let rest = c.skip(2);
        assert(rest[0] == template);
        if template.len() == 0 {
            assert(rest.drop_first().len() == 0);
            assert(first_non_empty(rest.drop_first()).len() == 0);
            assert(first_non_empty(rest) == first_non_empty(rest.drop_first()));
            assert(first_non_empty(c) =~= template);
        }
    }
}

/// Resolves an attribute: the first candidate that is defined, else
/// `fallback`.
pub fn resolve_attribute<T>(candidates: Vec<Option<T>>, fallback: Option<T>) -> (r: Option<T>)
    ensures
        r == first_defined(candidates@, fallback),
{
    let ghost all = candidates@;
    let mut rest = candidates;
    // Walks from the most general candidate to the most specific one, so
    // that the most specific defined value is the one that stays.
    let mut found = fallback;
    proof {
        assert(all.skip(all.len() as int).len() == 0);
    }
    while rest.len() > 0
        invariant
            rest@ == all.take(rest@.len() as int),
            rest@.len() <= all.len(),
            found == first_defined(all.skip(rest@.len() as int), fallback),
        decreases rest@.len(),
    {
        let ghost k = rest@.len() - 1;
        let candidate = rest.pop().unwrap();
        proof {
            assert(candidate == all[k]);
            assert(all.skip(k)[0] == all[k]);
            assert(all.skip(k).drop_first() == all.skip(k + 1));
            assert(rest@ == all.take(k));
        }
        if candidate.is_some() {
            found = candidate;
        }
    }
    proof {
        assert(all.skip(0) == all);
    }
    found
}

/// Resolves a list attribute over three levels: the first list that has an
/// element, or `None` where all three are empty.
pub fn resolve_list<'a, T>(
    instance: &'a Vec<T>,
    type_default: &'a Vec<T>,
    template: &'a Vec<T>,
) -> (r: Option<&'a Vec<T>>)
    ensures
        match r {
            Some(list) => list@ == first_non_empty(seq![instance@, type_default@, template@])
                && list@.len() > 0,
            None => first_non_empty(seq![instance@, type_default@, template@]) == Seq::<
                T,
            >::empty(),
        },
{
    let ghost c = seq![instance@, type_default@, template@];
    if instance.len() > 0 {
        Some(instance)
    } else if type_default.len() > 0 {
        proof {
            lemma_first_non_empty_skip(c, 1);
            assert(c.skip(1)[0] == type_default@);
        }
        Some(type_default)
    } else if template.len() > 0 {
        proof {
            lemma_first_non_empty_skip(c, 2);
            assert(c.skip(2)[0] == template@);
        }
        Some(template)
    } else {
        proof {
            lemma_first_non_empty_skip(c, 3);
        }
        None
    }
}

/// Whether the extractor is known to give nothing for every one of the
/// first `n` candidates that are present.
pub open spec fn nothing_before<R, T, E: Fn(&R) -> Option<T>>(
    candidates: Seq<Option<&R>>,
    extractor: E,
    n: int,
) -> bool {
    forall|j: int|
        0 <= j < n ==> match #[trigger] candidates[j] {
            Some(record) => call_ensures(extractor, (record,), None::<T>),
            None => true,
        }
}

/// Whether the extractor may be asked for every candidate that is present.
pub open spec fn askable<R, T, E: Fn(&R) -> Option<T>>(
    candidates: Seq<Option<&R>>,
    extractor: E,
) -> bool {
    forall|j: int|
        0 <= j < candidates.len() ==> match #[trigger] candidates[j] {
            Some(record) => call_requires(extractor, (record,)),
            None => true,
        }
}

/// Whether `value` is what the extractor yields for the candidate at `i`,
/// after it has given nothing for the candidates before.
pub open spec fn yields_at<R, T, E: Fn(&R) -> Option<T>>(
    candidates: Seq<Option<&R>>,
    extractor: E,
    i: int,
    value: Option<T>,
) -> bool {
    &&& 0 <= i < candidates.len()
    &&& value is Some
    &&& nothing_before(candidates, extractor, i)
    &&& match candidates[i] {
        Some(record) => call_ensures(extractor, (record,), value),
        None => false,
    }
}

/// Resolves an attribute over candidate records: asks the extractor for
/// each record that is present, in order, and gives the first value it
/// yields; `fallback` where it yields none.
pub fn resolve_with<R, T, E: Fn(&R) -> Option<T>>(
    candidates: &Vec<Option<&R>>,
    extractor: E,
    fallback: Option<T>,
) -> (r: Option<T>)
    requires
        askable(candidates@, extractor),
    ensures
        (exists|i: int| yields_at(candidates@, extractor, i, r)) || (r == fallback
            && nothing_before(candidates@, extractor, candidates@.len() as int)),
{
    let mut i: usize = 0;
    while i < candidates.len()
        invariant
            i <= candidates.len(),
            nothing_before(candidates@, extractor, i as int),
            askable(candidates@, extractor),
        decreases candidates.len() - i,
    {
        if let Some(record) = candidates[i] {
            let value = extractor(record);
            if value.is_some() {
                proof {
                    assert(yields_at(candidates@, extractor, i as int, value));
                }
                return value;
            }
        }
        i += 1;
    }
    fallback
}

} // verus!
