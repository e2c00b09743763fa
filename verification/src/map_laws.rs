//! What is found in a map after it was changed.

use crate::string_map::StringMap;
use vstd::prelude::*;

verus! {

/// A new map has nothing under any key.
pub proof fn law_new_map_is_empty<V>(
    map: StringMap<V>,
    key: String,
    found: Option<&V>,
)
    requires
        call_ensures(StringMap::<V>::new, (), map),
        call_ensures(StringMap::<V>::get, (&map, &key), found),
    ensures
        found is None,
{
}

/// What was put under a key is found under it, and under every other key what was there.
pub proof fn law_inserted_value_is_found<V>(
    map: &mut StringMap<V>,
    key: String,
    value: V,
    asked: String,
    before: Option<&V>,
    after: Option<&V>,
)
    requires
        call_ensures(StringMap::<V>::insert, (map, key, value), ()),
        call_ensures(StringMap::<V>::get, (&*old(map), &asked), before),
        call_ensures(StringMap::<V>::get, (&*final(map), &asked), after),
    ensures
        asked@ == key@ ==> after is Some && *after->0 == value,
        asked@ != key@ ==> (after is Some <==> before is Some),
        asked@ != key@ && before is Some ==> *after->0 == *before->0,
{
}

/// What was taken out is what was there, and is not found any more. Nothing else is taken out.
pub proof fn law_removed_value_is_gone<V>(
    map: &mut StringMap<V>,
    key: String,
    removed: Option<V>,
    asked: String,
    before: Option<&V>,
    after: Option<&V>,
)
    requires
        call_ensures(StringMap::<V>::remove, (map, &key), removed),
        call_ensures(StringMap::<V>::get, (&*old(map), &asked), before),
        call_ensures(StringMap::<V>::get, (&*final(map), &asked), after),
    ensures
        asked@ == key@ ==> after is None,
        asked@ == key@ ==> (removed is Some <==> before is Some),
        asked@ == key@ && before is Some ==> removed->0 == *before->0,
        asked@ != key@ ==> (after is Some <==> before is Some),
        asked@ != key@ && before is Some ==> *after->0 == *before->0,
{
}

/// After one map was put into another, what the first had is found, and elsewhere what was there.
pub proof fn law_extended_map_prefers_what_came_last<V>(
    map: &mut StringMap<V>,
    other: StringMap<V>,
    asked: String,
    before: Option<&V>,
    after: Option<&V>,
    added: Option<&V>,
)
    requires
        call_ensures(StringMap::<V>::extend, (map, other), ()),
        call_ensures(StringMap::<V>::get, (&*old(map), &asked), before),
        call_ensures(StringMap::<V>::get, (&*final(map), &asked), after),
        call_ensures(StringMap::<V>::get, (&other, &asked), added),
    ensures
        added is Some ==> after is Some && *after->0 == *added->0,
        added is None ==> (after is Some <==> before is Some),
        added is None && before is Some ==> *after->0 == *before->0,
{
}

/// A map has a key exactly if there is a value under it.
pub proof fn law_present_keys_have_values<V>(
    map: StringMap<V>,
    key: String,
    present: bool,
    found: Option<&V>,
)
    requires
        call_ensures(StringMap::<V>::contains_key, (&map, &key), present),
        call_ensures(StringMap::<V>::get, (&map, &key), found),
    ensures
        present <==> found is Some,
{
}

} // verus!
