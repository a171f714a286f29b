//! The child record: a second record kind showing that the dashboard core is
//! generic, and the one that carries the ageing capability.

use vstd::prelude::*;

verus! {

use crate::data_row::Aged;
use crate::data_row::DataRow;
use crate::data_row::DetailTable;
use crate::data_row::KeyMap;
use crate::ext;
use crate::text::dec_string;
use crate::text::is_ascii_alnum;
use crate::text::lemma_alnum_is_quote_safe;
use crate::text::quote_safe;
use crate::text::spec_dec;

/// One child: an identifier, a mutable display name, a small age, and the
/// birth time in whole seconds.
#[derive(Clone, Debug, PartialEq)]
pub struct Child {
    pub id: usize,
    pub name: String,
    pub age: u8,
    pub birthdate: u64,
}

/// The mathematical content of a child: its fields as integers and character
/// sequences.
pub struct ChildView {
    pub id: int,
    pub name: Seq<char>,
    pub age: int,
    pub birthdate: int,
}

impl View for Child {
    type V = ChildView;

    open spec fn view(&self) -> ChildView {
        ChildView {
            id: self.id as int,
            name: self.name@,
            age: self.age as int,
            birthdate: self.birthdate as int,
        }
    }
}

impl DataRow for Child {
    open spec fn spec_name(&self) -> Seq<char> {
        self.name@
    }

    open spec fn spec_cells(&self) -> Seq<Seq<char>> {
        seq![
            spec_dec(self.id as int),
            self.name@,
            spec_dec(self.age as int),
            spec_dec(self.birthdate as int),
        ]
    }

    open spec fn spec_cli_name() -> Seq<char> {
        "Child CLI"@
    }

    open spec fn spec_help() -> Seq<Seq<char>> {
        seq![
            "Press 'c' to access children, 'a' to add random new children,"@,
            "'e' to edit the name of currently selected child"@,
            "and 'd' to delete the currently selected child."@,
        ]
    }

    open spec fn spec_headers() -> Seq<Seq<char>> {
        seq!["ID"@, "Name"@, "Age"@, "Created At"@]
    }

    open spec fn spec_menu_titles() -> Seq<Seq<char>> {
        seq!["Home"@, "Children"@, "Add"@, "Edit Name"@, "Delete"@, "Quit"@]
    }

    open spec fn same_but_name(&self, other: &Self) -> bool {
        &&& self.id == other.id
        &&& self.age == other.age
        &&& self.birthdate == other.birthdate
    }

    fn name(&self) -> (r: String) {
        self.name.clone()
    }

    fn set_name(&mut self, new_name: String) {
        self.name = new_name;
    }

    fn to_table(&self) -> (r: DetailTable) {
        let header: Vec<String> = vec![
            "ID".to_owned(),
            "Name".to_owned(),
            "Age".to_owned(),
            "Created At".to_owned(),
        ];
        let cells: Vec<String> = vec![
            dec_string(self.id as u64),
            self.name.clone(),
            dec_string(self.age as u64),
            dec_string(self.birthdate),
        ];
        proof {
            assert forall|i: int| 0 <= i < header@.len() implies (#[trigger] header@[i])@
                == Self::spec_headers()[i] by {
                if i == 0 {
                } else if i == 1 {
                } else if i == 2 {
                } else {
                }
            }
        }
        DetailTable { header, cells }
    }

    fn cli_name() -> (r: String) {
        let r = "Child CLI".to_owned();
        proof {
            reveal_strlit("Child CLI");
        }
        r
    }

    fn help_part() -> (r: Vec<String>) {
        let r: Vec<String> = vec![
            "Press 'c' to access children, 'a' to add random new children,".to_owned(),
            "'e' to edit the name of currently selected child".to_owned(),
            "and 'd' to delete the currently selected child.".to_owned(),
        ];
        proof {
            assert forall|i: int| 0 <= i < r@.len() implies (#[trigger] r@[i])@
                == Self::spec_help()[i] by {
                if i == 0 {
                } else if i == 1 {
                } else {
                }
            }
        }
        r
    }

    fn menu_titles() -> (r: Vec<String>) {
        let r: Vec<String> = vec![
            "Home".to_owned(),
            "Children".to_owned(),
            "Add".to_owned(),
            "Edit Name".to_owned(),
            "Delete".to_owned(),
            "Quit".to_owned(),
        ];
        proof {
            reveal_strlit("Home");
            reveal_strlit("Children");
            reveal_strlit("Add");
            reveal_strlit("Edit Name");
            reveal_strlit("Delete");
            reveal_strlit("Quit");
            assert forall|i: int| 0 <= i < r@.len() implies (#[trigger] r@[i])@
                == Self::spec_menu_titles()[i] by {
                if i == 0 {
                } else if i == 1 {
                } else if i == 2 {
                } else if i == 3 {
                } else if i == 4 {
                } else {
                }
            }
        }
        r
    }

    fn title() -> (r: String)
        ensures
            r@ == "Children"@,
    {
        "Children".to_owned()
    }

    fn row_name() -> (r: String)
        ensures
            r@ == "Child"@,
    {
        "Child".to_owned()
    }

    fn key_map() -> (r: KeyMap)
        ensures
            r == (KeyMap { quit: 'q', home: 'h', data: 'c', add: 'a', del: 'd', edit: 'e' }),
    {
        KeyMap { quit: 'q', home: 'h', data: 'c', add: 'a', del: 'd', edit: 'e' }
    }

    fn create_placeholder() -> (r: Self)
        ensures
            r@.name.len() == 10,
            forall|i: int| 0 <= i < r@.name.len() ==> is_ascii_alnum(#[trigger] r@.name[i]),
            quote_safe(r@.name),
            0 <= r@.id < 9999999,
            1 <= r@.age < 15,
    {
        let id64 = ext::random_in_range(0, 9999999);
        let id: usize = id64 as usize;
        let name = ext::random_name(10);
        let age64 = ext::random_in_range(1, 15);
        let age: u8 = age64 as u8;
        let ts = ext::now_timestamp();
        let birthdate: u64 = if ts < 0 {
            0
        } else {
            ts as u64
        };
        proof {
            assert forall|i: int| 0 <= i < name@.len() implies crate::text::quote_safe_char(
                #[trigger] name@[i],
            ) by {
                lemma_alnum_is_quote_safe(name@[i]);
            }
        }
        Child { id, name, age, birthdate }
    }
}

impl Aged for Child {
    open spec fn spec_age(&self) -> u8 {
        self.age
    }

    open spec fn same_but_age(&self, other: &Self) -> bool {
        &&& self.id == other.id
        &&& self.name == other.name
        &&& self.birthdate == other.birthdate
    }

    fn age(&self) -> (r: u8) {
        self.age
    }

    fn set_age(&mut self, new_age: u8) {
        self.age = new_age;
    }
}

} // verus!
