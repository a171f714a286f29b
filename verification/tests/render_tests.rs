//! The view model: tab splitting, the home screen, the guarded data view,
//! and the detail table of a record.

use pet_cli::child::Child;
use pet_cli::data_row::DataRow;
use pet_cli::generic_tui::MenuItem;
use pet_cli::pet::Pet;
use pet_cli::render::{render, render_data, render_home, tab_labels, Body};

fn pet(id: usize, name: &str, age: usize) -> Pet {
    Pet { id, name: name.to_owned(), category: "cats".to_owned(), age, created_at: 0 }
}

#[test]
fn tab_labels_split_first_character() {
    let titles = <Pet as DataRow>::menu_titles();
    let tabs = tab_labels(&titles);
    assert_eq!(tabs.len(), titles.len());
    assert_eq!(tabs[1].first, "P");
    assert_eq!(tabs[1].rest, "ets");
    for (tab, title) in tabs.iter().zip(titles.iter()) {
        assert_eq!(format!("{}{}", tab.first, tab.rest), *title);
    }
}

#[test]
fn home_screen_welcome_block() {
    let lines = render_home::<Pet>();
    assert!(lines.len() >= 7);
    assert_eq!(lines[0], "");
    assert_eq!(lines[1], "Welcome");
    assert_eq!(lines[3], "to");
    assert_eq!(lines[5], "pet CLI");
    assert_eq!(lines[7], "Press 'p' to access pets, 'a' to add random new pets,");
}

#[test]
fn data_view_lists_names_and_detail() {
    let pets = vec![pet(1, "Rex", 3), pet(2, "Mia", 5)];
    let dv = render_data(&pets, 1);
    assert_eq!(dv.names, vec!["Rex", "Mia"]);
    let detail = dv.detail.expect("an in-bounds selection has a detail pane");
    assert_eq!(detail.header, vec!["ID", "Name", "Category", "Age", "Created At"]);
    assert_eq!(detail.cells, vec!["2", "Mia", "cats", "5", "0"]);
}

#[test]
fn data_view_on_empty_collection_has_no_detail() {
    let pets: Vec<Pet> = Vec::new();
    let dv = render_data(&pets, 0);
    assert!(dv.names.is_empty());
    assert!(dv.detail.is_none());
}

#[test]
fn full_screen_home_and_data() {
    let pets = vec![pet(1, "Rex", 3)];
    let titles = <Pet as DataRow>::menu_titles();
    let screen = render(&titles, MenuItem::Home, 0, &pets);
    assert_eq!(screen.active_tab, 0);
    assert!(matches!(screen.body, Body::Home(_)));
    assert_eq!(screen.footer, "pet CLI 2020 - all rights reserved");
    let screen = render(&titles, MenuItem::Data, 0, &pets);
    assert_eq!(screen.active_tab, 1);
    match screen.body {
        Body::Data(dv) => {
            assert_eq!(dv.names, vec!["Rex"]);
            assert!(dv.detail.is_some());
        }
        Body::Home(_) => panic!("the data view was asked for"),
    }
}

#[test]
fn menu_titles_are_the_six_commands() {
    assert_eq!(
        <Pet as DataRow>::menu_titles(),
        vec!["Home", "Pets", "Add", "Edit Name", "Delete", "Quit"]
    );
    assert_eq!(
        <Child as DataRow>::menu_titles(),
        vec!["Home", "Children", "Add", "Edit Name", "Delete", "Quit"]
    );
}

#[test]
fn child_detail_table() {
    let c = Child { id: 5, name: "Ann".to_owned(), age: 4, birthdate: 9 };
    let table = c.to_table();
    assert_eq!(table.header, vec!["ID", "Name", "Age", "Created At"]);
    assert_eq!(table.cells, vec!["5", "Ann", "4", "9"]);
}

#[test]
fn detail_table_of_a_record() {
    let p = pet(42, "Rex", 7);
    let table = p.to_table();
    assert_eq!(table.cells, vec!["42", "Rex", "cats", "7", "0"]);
    assert_eq!(table.header.len(), table.cells.len());
}
