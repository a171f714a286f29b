//! The mutating commands of the event loop, as pure collection transforms:
//! append a fresh placeholder, delete the selected record, commit an edited
//! name, and shift the selected record's age. The store read and write around
//! each command stay with the caller.

use vstd::prelude::*;

verus! {

use crate::ext;
use crate::pet::Pet;
use crate::text::is_ascii_alnum;
use crate::text::lemma_alnum_is_quote_safe;
use crate::text::quote_safe;
use crate::text::quote_safe_char;

/// Append a freshly generated placeholder record: the collection keeps its
/// records and order, and gains one storable record with a non-empty name.
pub fn add_placeholder(pets: &mut Vec<Pet>)
    ensures
        final(pets)@.len() == old(pets)@.len() + 1,
        final(pets)@.subrange(0, old(pets)@.len() as int) == old(pets)@,
        final(pets)@.last()@.valid(),
        final(pets)@.last()@.name.len() == 10,
        0 <= final(pets)@.last()@.id < 9999999,
        1 <= final(pets)@.last()@.age < 15,
{
    let p = Pet::random_placeholder();
    pets.push(p);
    assert(pets@.subrange(0, old(pets)@.len() as int) =~= old(pets)@);
}

/// Delete the record at the selection and move the selection one row up,
/// stopping at the first row. A selection out of bounds (in particular, any
/// selection on an empty collection) changes nothing.
pub fn remove_at(pets: &mut Vec<Pet>, sel: usize) -> (new_sel: usize)
    ensures
        sel < old(pets)@.len() ==> final(pets)@ == old(pets)@.remove(sel as int),
        sel < old(pets)@.len() ==> new_sel as int == if sel > 0 {
            sel - 1
        } else {
            0
        },
        sel >= old(pets)@.len() ==> final(pets)@ == old(pets)@ && new_sel == sel,
{
    if sel < pets.len() {
        pets.remove(sel);
        if sel > 0 {
            sel - 1
        } else {
            0
        }
    } else {
        sel
    }
}

/// Appending a record and then deleting it at its own index restores the
/// collection: the original elements stand in their original order.
pub proof fn lemma_add_then_delete<T>(ps: Seq<T>, x: T)
    ensures
        ps.push(x).remove(ps.len() as int) == ps,
{
    assert(ps.push(x).remove(ps.len() as int) =~= ps);
}

/// Commit the final rename buffer to the record at the selection. An empty
/// buffer never stores an empty name: a fresh random ten-letter name stands
/// in for it. The buffer holds name characters, so it never carries a quote
/// or a backslash and the stored name stays store-safe. Every other record,
/// and every other field of the renamed record, is untouched; a selection
/// out of bounds changes nothing.
pub fn commit_name(pets: &mut Vec<Pet>, sel: usize, buf: &Vec<char>)
    requires
        forall|i: int| 0 <= i < buf@.len() ==> quote_safe_char(#[trigger] buf@[i]),
    ensures
        sel < old(pets)@.len() ==> {
            &&& final(pets)@.len() == old(pets)@.len()
            &&& (forall|j: int|
                0 <= j < old(pets)@.len() && j != sel ==> final(pets)@[j] == old(pets)@[j])
            &&& final(pets)@[sel as int]@.name.len() > 0
            &&& (buf@.len() > 0 ==> final(pets)@[sel as int]@.name == buf@)
            &&& (buf@.len() == 0 ==> final(pets)@[sel as int]@.name.len() == 10
                && (forall|i: int|
                0 <= i < final(pets)@[sel as int]@.name.len() ==> is_ascii_alnum(
                    #[trigger] final(pets)@[sel as int]@.name[i],
                )))
            &&& quote_safe(final(pets)@[sel as int]@.name)
            &&& final(pets)@[sel as int]@.id == old(pets)@[sel as int]@.id
            &&& final(pets)@[sel as int]@.category == old(pets)@[sel as int]@.category
            &&& final(pets)@[sel as int]@.age == old(pets)@[sel as int]@.age
            &&& final(pets)@[sel as int]@.created_at == old(pets)@[sel as int]@.created_at
        },
        sel >= old(pets)@.len() ==> final(pets)@ == old(pets)@,
{
    if sel < pets.len() {
        let name: String = if buf.len() > 0 {
            ext::chars_to_string(buf)
        } else {
            let fallback = ext::random_name(10);
            proof {
                assert forall|i: int| 0 <= i < fallback@.len() implies
                    crate::text::quote_safe_char(#[trigger] fallback@[i]) by {
                    lemma_alnum_is_quote_safe(fallback@[i]);
                }
            }
            fallback
        };
        pets[sel].name = name;
    }
}

/// Shift the age of the record at the selection by one: up is a pure
/// increment, down stops at zero. Every other record, and every other field,
/// is untouched; a selection out of bounds changes nothing.
pub fn shift_age_at(pets: &mut Vec<Pet>, sel: usize, up: bool)
    requires
        up && sel < old(pets)@.len() ==> old(pets)@[sel as int]@.age < usize::MAX as int,
    ensures
        sel < old(pets)@.len() ==> {
            &&& final(pets)@.len() == old(pets)@.len()
            &&& (forall|j: int|
                0 <= j < old(pets)@.len() && j != sel ==> final(pets)@[j] == old(pets)@[j])
            &&& (up ==> final(pets)@[sel as int]@.age == old(pets)@[sel as int]@.age + 1)
            &&& (!up ==> final(pets)@[sel as int]@.age == vstd::math::max(
                old(pets)@[sel as int]@.age - 1,
                0,
            ))
            &&& final(pets)@[sel as int]@.id == old(pets)@[sel as int]@.id
            &&& final(pets)@[sel as int]@.name == old(pets)@[sel as int]@.name
            &&& final(pets)@[sel as int]@.category == old(pets)@[sel as int]@.category
            &&& final(pets)@[sel as int]@.created_at == old(pets)@[sel as int]@.created_at
        },
        sel >= old(pets)@.len() ==> final(pets)@ == old(pets)@,
{
    if sel < pets.len() {
        if up {
            let a = pets[sel].age;
            pets[sel].age = a + 1;
        } else {
            let a = pets[sel].age;
            if a > 0 {
                pets[sel].age = a - 1;
            }
        }
    }
}

} // verus!
