use vstd::prelude::*;

verus! {

/// An item that the host can create, list and remove, known by its id.
pub trait Property: Sized {
    /// Reads the item's id.
    fn id(&self) -> u32;
}

/// How a property check failed.
#[derive(Clone, Copy, Debug, PartialEq, Eq, Structural)]
pub enum PropertyFailure {
    /// After creating one item the listing held this many, not one.
    NotCreated { found: usize },
    /// The listed item is not the one that was created.
    WrongItem { found: u32, expected: u32 },
    /// After removing the item the listing still held this many.
    NotRemoved { remaining: usize },
}

/// Checks how many items were listed right after creating one: exactly one.
pub fn check_created_count(found: usize) -> (r: Result<(), PropertyFailure>)
    ensures
        found == 1 ==> r is Ok,
        found != 1 ==> r == Err::<(), PropertyFailure>(PropertyFailure::NotCreated { found }),
{
    if found != 1 {
        Err(PropertyFailure::NotCreated { found })
    } else {
        Ok(())
    }
}

/// Checks that the listed item is the created one, by id.
pub fn check_created_id(found: u32, expected: u32) -> (r: Result<(), PropertyFailure>)
    ensures
        found == expected ==> r is Ok,
        found != expected ==> r == Err::<(), PropertyFailure>(PropertyFailure::WrongItem { found, expected }),
{
    if found != expected {
        Err(PropertyFailure::WrongItem { found, expected })
    } else {
        Ok(())
    }
}

/// Checks how many items were listed right after removing the item: none.
pub fn check_removed(remaining: usize) -> (r: Result<(), PropertyFailure>)
    ensures
        remaining == 0 ==> r is Ok,
        remaining != 0 ==> r == Err::<(), PropertyFailure>(PropertyFailure::NotRemoved { remaining }),
{
    if remaining != 0 {
        Err(PropertyFailure::NotRemoved { remaining })
    } else {
        Ok(())
    }
}

/// Checks the listing taken after `item` was created: it holds exactly one
/// item, and that item has the created one's id.
pub fn check_created<T: Property>(found: &Vec<T>, item: &T) -> (r: Result<(), PropertyFailure>)
    ensures
        found.len() != 1 ==> r == Err::<(), PropertyFailure>(PropertyFailure::NotCreated { found: found.len() }),
        r matches Err(PropertyFailure::NotCreated { found: n }) ==> n == found.len() && n != 1,
        r matches Err(PropertyFailure::WrongItem { found: f, expected: e }) ==> {
            &&& found.len() == 1
            &&& f != e
            &&& call_ensures(T::id, (&found@[0],), f)
            &&& call_ensures(T::id, (item,), e)
        },
        r is Ok ==> found.len() == 1 && exists|a: u32|
            call_ensures(T::id, (&found@[0],), a) && call_ensures(T::id, (item,), a),
        r is Err ==> r matches Err(PropertyFailure::NotCreated { .. }) || r matches Err(PropertyFailure::WrongItem { .. }),
{
    check_created_count(found.len())?;
    check_created_id(found[0].id(), item.id())
}

} // verus!
