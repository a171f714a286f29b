//! The pet record: the concrete record kind the dashboard manages by
//! default, with its detail table, chrome texts, key bindings and random
//! placeholder generator.

use vstd::prelude::*;

verus! {

use crate::data_row::DataRow;
use crate::data_row::DetailTable;
use crate::data_row::KeyMap;
use crate::ext;
use crate::text::dec_string;
use crate::text::is_ascii_alnum;
use crate::text::lemma_alnum_is_quote_safe;
use crate::text::quote_safe;
use crate::text::spec_dec;

/// One pet: an identifier, a mutable display name, a category, an age, and
/// the creation time in whole seconds.
#[derive(Clone, Debug, PartialEq)]
pub struct Pet {
    pub id: usize,
    pub name: String,
    pub category: String,
    pub age: usize,
    pub created_at: u64,
}

/// The mathematical content of a pet: its fields as integers and character
/// sequences.
pub struct PetView {
    pub id: int,
    pub name: Seq<char>,
    pub category: Seq<char>,
    pub age: int,
    pub created_at: int,
}

impl View for Pet {
    type V = PetView;

    open spec fn view(&self) -> PetView {
        PetView {
            id: self.id as int,
            name: self.name@,
            category: self.category@,
            age: self.age as int,
            created_at: self.created_at as int,
        }
    }
}

impl PetView {
    /// A pet the store can hold losslessly: fields within their machine
    /// bounds, strings free of quotes and backslashes.
    pub open spec fn valid(self) -> bool {
        &&& 0 <= self.id <= usize::MAX as int
        &&& 0 <= self.age <= usize::MAX as int
        &&& 0 <= self.created_at <= u64::MAX as int
        &&& quote_safe(self.name)
        &&& quote_safe(self.category)
    }
}

impl DataRow for Pet {
    open spec fn spec_name(&self) -> Seq<char> {
        self.name@
    }

    open spec fn spec_cells(&self) -> Seq<Seq<char>> {
        seq![
            spec_dec(self.id as int),
            self.name@,
            self.category@,
            spec_dec(self.age as int),
            spec_dec(self.created_at as int),
        ]
    }

    open spec fn spec_cli_name() -> Seq<char> {
        "pet CLI"@
    }

    open spec fn spec_help() -> Seq<Seq<char>> {
        seq![
            "Press 'p' to access pets, 'a' to add random new pets,"@,
            "'e' to edit the name of currently selected pet"@,
            "and 'd' to delete the currently selected pet."@,
        ]
    }

    open spec fn spec_headers() -> Seq<Seq<char>> {
        seq!["ID"@, "Name"@, "Category"@, "Age"@, "Created At"@]
    }

    open spec fn spec_menu_titles() -> Seq<Seq<char>> {
        seq!["Home"@, "Pets"@, "Add"@, "Edit Name"@, "Delete"@, "Quit"@]
    }

    open spec fn same_but_name(&self, other: &Self) -> bool {
        &&& self.id == other.id
        &&& self.category == other.category
        &&& self.age == other.age
        &&& self.created_at == other.created_at
    }

    fn name(&self) -> (r: String) {
        self.name.clone()
    }

    fn set_name(&mut self, new_name: String) {
        self.name = new_name;
    }

    fn to_table(&self) -> (r: DetailTable) {
        let header: Vec<String> = vec![
            "ID".to_owned(),
            "Name".to_owned(),
            "Category".to_owned(),
            "Age".to_owned(),
            "Created At".to_owned(),
        ];
        let cells: Vec<String> = vec![
            dec_string(self.id as u64),
            self.name.clone(),
            self.category.clone(),
            dec_string(self.age as u64),
            dec_string(self.created_at),
        ];
        proof {
            assert forall|i: int| 0 <= i < header@.len() implies (#[trigger] header@[i])@
                == Self::spec_headers()[i] by {
                if i == 0 {
                } else if i == 1 {
                } else if i == 2 {
                } else if i == 3 {
                } else {
                }
            }
        }
        DetailTable { header, cells }
    }

    fn cli_name() -> (r: String) {
        let r = "pet CLI".to_owned();
        proof {
            reveal_strlit("pet CLI");
        }
        r
    }

    fn help_part() -> (r: Vec<String>) {
        let r: Vec<String> = vec![
            "Press 'p' to access pets, 'a' to add random new pets,".to_owned(),
            "'e' to edit the name of currently selected pet".to_owned(),
            "and 'd' to delete the currently selected pet.".to_owned(),
        ];
        proof {
            assert forall|i: int| 0 <= i < r@.len() implies (#[trigger] r@[i])@
                == Self::spec_help()[i] by {
                if i == 0 {
                } else if i == 1 {
                } else {
                }
            }
        }
        r
    }

    fn menu_titles() -> (r: Vec<String>) {
        let r: Vec<String> = vec![
            "Home".to_owned(),
            "Pets".to_owned(),
            "Add".to_owned(),
            "Edit Name".to_owned(),
            "Delete".to_owned(),
            "Quit".to_owned(),
        ];
        proof {
            reveal_strlit("Home");
            reveal_strlit("Pets");
            reveal_strlit("Add");
            reveal_strlit("Edit Name");
            reveal_strlit("Delete");
            reveal_strlit("Quit");
            assert forall|i: int| 0 <= i < r@.len() implies (#[trigger] r@[i])@
                == Self::spec_menu_titles()[i] by {
                if i == 0 {
                } else if i == 1 {
                } else if i == 2 {
                } else if i == 3 {
                } else if i == 4 {
                } else {
                }
            }
        }
        r
    }

    fn title() -> (r: String)
        ensures
            r@ == "Pets"@,
    {
        "Pets".to_owned()
    }

    fn row_name() -> (r: String)
        ensures
            r@ == "pet"@,
    {
        "pet".to_owned()
    }

    fn key_map() -> (r: KeyMap)
        ensures
            r == (KeyMap { quit: 'q', home: 'h', data: 'p', add: 'a', del: 'd', edit: 'e' }),
    {
        KeyMap { quit: 'q', home: 'h', data: 'p', add: 'a', del: 'd', edit: 'e' }
    }

    fn create_placeholder() -> (r: Self)
        ensures
            r@.valid(),
            r@.name.len() == 10,
            forall|i: int| 0 <= i < r@.name.len() ==> is_ascii_alnum(#[trigger] r@.name[i]),
            r@.category == "cats"@ || r@.category == "dogs"@,
            0 <= r@.id < 9999999,
            1 <= r@.age < 15,
    {
        Pet::random_placeholder()
    }
}

impl Pet {
    /// A syntactically valid pet with a random identifier, a random ten-letter
    /// alphanumeric name, a random category, a bounded random age, and the
    /// current time truncated to whole seconds (clamped at the epoch).
    pub fn random_placeholder() -> (r: Pet)
        ensures
            r@.valid(),
            r@.name.len() == 10,
            forall|i: int| 0 <= i < r@.name.len() ==> is_ascii_alnum(#[trigger] r@.name[i]),
            r@.category == "cats"@ || r@.category == "dogs"@,
            0 <= r@.id < 9999999,
            1 <= r@.age < 15,
    {
        let id64 = ext::random_in_range(0, 9999999);
        let id: usize = id64 as usize;
        let name = ext::random_name(10);
        let category: String = if ext::random_in_range(0, 2) == 0 {
            "cats".to_owned()
        } else {
            "dogs".to_owned()
        };
        let age64 = ext::random_in_range(1, 15);
        let age: usize = age64 as usize;
        let ts = ext::now_timestamp();
        let created_at: u64 = if ts < 0 {
            0
        } else {
            ts as u64
        };
        proof {
            reveal_strlit("cats");
            reveal_strlit("dogs");
            assert forall|i: int| 0 <= i < name@.len() implies crate::text::quote_safe_char(
                #[trigger] name@[i],
            ) by {
                lemma_alnum_is_quote_safe(name@[i]);
            }
        }
        Pet { id, name, category, age, created_at }
    }
}

} // verus!
