use vstd::prelude::*;
use crate::property::{Property, PropertyFailure, check_created, check_removed};

verus! {

/// Checks a kind of item end to end: creating one and adding it makes it
/// the only item listed, and removing it leaves none. Stops at the first
/// failure.
pub fn test_property<T: Property, C: Fn() -> T, A: Fn(&T), L: Fn() -> Vec<T>, R: Fn(T)>(
    create: C,
    add_item: A,
    list: L,
    remove: R,
) -> (r: Result<(), PropertyFailure>)
    requires
        call_requires(create, ()),
        forall|item: &T| call_requires(add_item, (item,)),
        call_requires(list, ()),
        forall|item: T| call_requires(remove, (item,)),
    ensures
        r is Ok ==> exists|item: T, found: Vec<T>, after: Vec<T>|
            #![trigger call_ensures(create, (), item), call_ensures(list, (), found), call_ensures(list, (), after)]
            {
                &&& call_ensures(create, (), item) && call_ensures(add_item, (&item,), ())
                &&& call_ensures(list, (), found)
                &&& found.len() == 1
                &&& exists|id: u32| call_ensures(T::id, (&found@[0],), id) && call_ensures(T::id, (&item,), id)
                &&& call_ensures(remove, (item,), ())
                &&& call_ensures(list, (), after)
                &&& after.len() == 0
            },
        r matches Err(PropertyFailure::NotCreated { found: n }) ==> n != 1 && exists|item: T, found: Vec<T>|
            #![trigger call_ensures(create, (), item), call_ensures(list, (), found)]
            call_ensures(create, (), item) && call_ensures(add_item, (&item,), ()) && call_ensures(list, (), found) && found.len() == n,
        r matches Err(PropertyFailure::WrongItem { found: f, expected: e }) ==> f != e && exists|item: T, found: Vec<T>|
            #![trigger call_ensures(create, (), item), call_ensures(list, (), found)]
            {
                &&& call_ensures(create, (), item) && call_ensures(add_item, (&item,), ())
                &&& call_ensures(list, (), found)
                &&& found.len() == 1
                &&& call_ensures(T::id, (&found@[0],), f)
                &&& call_ensures(T::id, (&item,), e)
            },
        r matches Err(PropertyFailure::NotRemoved { remaining: n }) ==> n != 0 && exists|item: T, found: Vec<T>, after: Vec<T>|
            #![trigger call_ensures(create, (), item), call_ensures(list, (), found), call_ensures(list, (), after)]
            {
                &&& call_ensures(create, (), item) && call_ensures(add_item, (&item,), ())
                &&& call_ensures(list, (), found)
                &&& found.len() == 1
                &&& exists|id: u32| call_ensures(T::id, (&found@[0],), id) && call_ensures(T::id, (&item,), id)
                &&& call_ensures(remove, (item,), ())
                &&& call_ensures(list, (), after)
                &&& after.len() == n
            },
{
    let item = create();
    add_item(&item);
    let found = list();
    check_created(&found, &item)?;
    remove(item);
    let found = list();
    check_removed(found.len())
}

} // verus!
