//! The capability contract every displayable record type satisfies, plus the
//! optional ageing capability with its zero-clamped decrement.

use vstd::prelude::*;

verus! {

/// The mnemonic key bound to each top-level command for one record kind.
#[derive(Clone, Copy, PartialEq, Eq, Debug)]
pub struct KeyMap {
    pub quit: char,
    pub home: char,
    pub data: char,
    pub add: char,
    pub del: char,
    pub edit: char,
}

/// The detail pane of one record: a header row and a matching row of cell
/// texts, both the same width.
pub struct DetailTable {
    pub header: Vec<String>,
    pub cells: Vec<String>,
}

/// What every record kind offers the renderer and the event loop: a mutable
/// display name, a tabular detail row, chrome texts, key bindings, and a
/// generator for a fresh placeholder instance.
pub trait DataRow: Sized {
    /// The record's display name, as the renderer sees it.
    spec fn spec_name(&self) -> Seq<char>;

    /// The cell texts of the record's detail row, in column order.
    spec fn spec_cells(&self) -> Seq<Seq<char>>;

    /// The application's chrome name, as a character sequence.
    spec fn spec_cli_name() -> Seq<char>;

    /// The help lines of this record kind, as character sequences.
    spec fn spec_help() -> Seq<Seq<char>>;

    /// The header labels of the detail table, in column order.
    spec fn spec_headers() -> Seq<Seq<char>>;

    /// The tab titles, in menu order.
    spec fn spec_menu_titles() -> Seq<Seq<char>>;

    /// The two records agree on every field but the display name.
    spec fn same_but_name(&self, other: &Self) -> bool;

    fn name(&self) -> (r: String)
        ensures
            r@ == self.spec_name(),
    ;

    fn set_name(&mut self, new_name: String)
        ensures
            final(self).spec_name() == new_name@,
            final(self).same_but_name(old(self)),
    ;

    /// The detail pane for this record; one cell per column, each header
    /// labelling the cell below it.
    fn to_table(&self) -> (r: DetailTable)
        ensures
            r.cells@.len() == self.spec_cells().len(),
            r.header@.len() == Self::spec_headers().len(),
            r.header@.len() == self.spec_cells().len(),
            forall|i: int|
                0 <= i < r.cells@.len() ==> r.cells@[i]@ == self.spec_cells()[i],
            forall|i: int|
                0 <= i < r.header@.len() ==> (#[trigger] r.header@[i])@ == Self::spec_headers()[i],
    ;

    /// The application's chrome name, shown on the home screen and the footer.
    fn cli_name() -> (r: String)
        ensures
            r@ == Self::spec_cli_name(),
            r@.len() > 0,
    ;

    /// The help lines listed on the home screen for this record kind.
    fn help_part() -> (r: Vec<String>)
        ensures
            r@.len() == Self::spec_help().len(),
            forall|i: int|
                0 <= i < r@.len() ==> (#[trigger] r@[i])@ == Self::spec_help()[i],
    ;

    /// The tab titles, in menu order. Every title is non-empty so the
    /// renderer can underline its first character as the mnemonic hint.
    fn menu_titles() -> (r: Vec<String>)
        ensures
            r@.len() == Self::spec_menu_titles().len(),
            r@.len() > 0,
            forall|i: int|
                0 <= i < r@.len() ==> (#[trigger] r@[i])@ == Self::spec_menu_titles()[i],
            forall|i: int| 0 <= i < r@.len() ==> (#[trigger] r@[i])@.len() > 0,
    ;

    /// The title of the data pane.
    fn title() -> (r: String);

    /// The singular noun used in messages about one record.
    fn row_name() -> (r: String);

    /// Which keys trigger which top-level command for this record kind.
    fn key_map() -> (r: KeyMap);

    /// A fresh, randomly populated record with a non-empty name.
    fn create_placeholder() -> (r: Self)
        ensures
            r.spec_name().len() > 0,
    ;
}

/// The optional ageing capability: records with a small stored age that can be
/// shifted up and down, never dropping below zero.
pub trait Aged {
    spec fn spec_age(&self) -> u8;

    /// The two records agree on every field but the age.
    spec fn same_but_age(&self, other: &Self) -> bool;

    fn age(&self) -> (r: u8)
        ensures
            r == self.spec_age(),
    ;

    fn set_age(&mut self, new_age: u8)
        ensures
            final(self).spec_age() == new_age,
            final(self).same_but_age(old(self)),
    ;

    /// Lower the age by `decr_amt`, clamping at zero: the stored value is
    /// never negative, whatever the decrement.
    fn decr_age(&mut self, decr_amt: u8)
        ensures
            final(self).spec_age() as int == vstd::math::max(
                old(self).spec_age() - decr_amt,
                0,
            ),
            final(self).same_but_age(old(self)),
    {
        if self.age() <= decr_amt {
            self.set_age(0);
        } else {
            let new_age = self.age() - decr_amt;
            self.set_age(new_age);
        }
    }

    /// Raise the age by `incr_amt`: a pure addition with no upper clamp, so
    /// the sum must fit in the stored width.
    fn incr_age(&mut self, incr_amt: u8)
        requires
            old(self).spec_age() + incr_amt <= u8::MAX,
        ensures
            final(self).spec_age() == old(self).spec_age() + incr_amt,
            final(self).same_but_age(old(self)),
    {
        let new_age = self.age() + incr_amt;
        self.set_age(new_age);
    }
}

} // verus!
