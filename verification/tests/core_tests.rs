//! The event-loop core: selection navigation, key dispatch, the inline
//! rename loop, and the ageing capability.

use pet_cli::commands::{add_placeholder, commit_name, remove_at, shift_age_at};
use pet_cli::data_row::{Aged, DataRow, KeyMap};
use pet_cli::generic_tui::{
    handle_key, select_down, select_up, word_input_step, Action, EditStep, Event, Key, MenuItem,
    UiState,
};
use pet_cli::child::Child;
use pet_cli::pet::Pet;

fn pet(id: usize, name: &str, age: usize) -> Pet {
    Pet {
        id,
        name: name.to_owned(),
        category: "cats".to_owned(),
        age,
        created_at: 0,
    }
}

fn pet_km() -> KeyMap {
    <Pet as DataRow>::key_map()
}

#[test]
fn down_then_up_restores_selection() {
    for len in 1..5usize {
        for sel in 0..len {
            assert_eq!(select_up(select_down(sel, len), len), sel);
            assert_eq!(select_down(select_up(sel, len), len), sel);
        }
    }
}

#[test]
fn down_from_last_wraps_to_first() {
    assert_eq!(select_down(2, 3), 0);
}

#[test]
fn up_from_first_wraps_to_last() {
    assert_eq!(select_up(0, 3), 2);
}

#[test]
fn dispatch_quit_home_data() {
    let km = pet_km();
    let mut st = UiState { active: MenuItem::Home, selection: 0 };
    assert_eq!(handle_key(&mut st, Key::Char('q'), 3, km), Action::Quit);
    assert_eq!(handle_key(&mut st, Key::Char('p'), 3, km), Action::Idle);
    assert_eq!(st.active, MenuItem::Data);
    assert_eq!(handle_key(&mut st, Key::Char('h'), 3, km), Action::Idle);
    assert_eq!(st.active, MenuItem::Home);
}

#[test]
fn dispatch_navigation_moves_selection() {
    let km = pet_km();
    let mut st = UiState { active: MenuItem::Data, selection: 2 };
    assert_eq!(handle_key(&mut st, Key::Down, 3, km), Action::Idle);
    assert_eq!(st.selection, 0);
    assert_eq!(handle_key(&mut st, Key::Up, 3, km), Action::Idle);
    assert_eq!(st.selection, 2);
}

#[test]
fn dispatch_commands() {
    let km = pet_km();
    let mut st = UiState { active: MenuItem::Data, selection: 0 };
    assert_eq!(handle_key(&mut st, Key::Char('a'), 1, km), Action::AddRecord);
    assert_eq!(handle_key(&mut st, Key::Char('d'), 1, km), Action::DeleteSelected);
    assert_eq!(handle_key(&mut st, Key::Char('e'), 1, km), Action::BeginEdit);
    assert_eq!(handle_key(&mut st, Key::Left, 1, km), Action::AgeDown);
    assert_eq!(handle_key(&mut st, Key::Right, 1, km), Action::AgeUp);
    assert_eq!(handle_key(&mut st, Key::Char('z'), 1, km), Action::Idle);
}

#[test]
fn empty_collection_keys_are_harmless() {
    let km = pet_km();
    let mut st = UiState { active: MenuItem::Data, selection: 0 };
    assert_eq!(handle_key(&mut st, Key::Down, 0, km), Action::Idle);
    assert_eq!(st.selection, 0);
    assert_eq!(handle_key(&mut st, Key::Up, 0, km), Action::Idle);
    assert_eq!(st.selection, 0);
    assert_eq!(handle_key(&mut st, Key::Char('e'), 0, km), Action::Idle);
    assert_eq!(handle_key(&mut st, Key::Left, 0, km), Action::Idle);
    assert_eq!(handle_key(&mut st, Key::Right, 0, km), Action::Idle);
    let mut pets: Vec<Pet> = Vec::new();
    assert_eq!(remove_at(&mut pets, 0), 0);
    assert!(pets.is_empty());
}

#[test]
fn edit_scenario_rover() {
    let mut pets = vec![pet(1, "Rex", 3)];
    let mut buf: Vec<char> = Vec::new();
    for c in ['R', 'o', 'v', 'e', 'r'] {
        assert_eq!(word_input_step(&mut buf, Key::Char(c)), EditStep::Continue);
    }
    assert_eq!(word_input_step(&mut buf, Key::Enter), EditStep::Done);
    assert_eq!(buf.iter().collect::<String>(), "Rover");
    commit_name(&mut pets, 0, &buf);
    assert_eq!(pets[0].name, "Rover");
    assert_eq!(pets[0].id, 1);
    assert_eq!(pets[0].age, 3);
}

#[test]
fn edit_accepts_any_unicode_letter() {
    let mut pets = vec![pet(1, "Rex", 3)];
    let mut buf: Vec<char> = Vec::new();
    for c in ['J', 'o', 's', '\u{e9}'] {
        assert_eq!(word_input_step(&mut buf, Key::Char(c)), EditStep::Continue);
    }
    assert_eq!(buf.iter().collect::<String>(), "Jos\u{e9}");
    assert_eq!(word_input_step(&mut buf, Key::Char('.')), EditStep::Done);
    assert_eq!(buf.iter().collect::<String>(), "Jos\u{e9}");
    commit_name(&mut pets, 0, &buf);
    assert_eq!(pets[0].name, "Jos\u{e9}");
}

#[test]
fn edit_backspace_and_terminator() {
    let mut buf: Vec<char> = vec!['a', 'b'];
    assert_eq!(word_input_step(&mut buf, Key::Backspace), EditStep::Continue);
    assert_eq!(buf, vec!['a']);
    assert_eq!(word_input_step(&mut buf, Key::Backspace), EditStep::Continue);
    assert!(buf.is_empty());
    assert_eq!(word_input_step(&mut buf, Key::Backspace), EditStep::Continue);
    assert!(buf.is_empty());
    assert_eq!(word_input_step(&mut buf, Key::Char('!')), EditStep::Done);
    assert!(buf.is_empty());
}

#[test]
fn empty_buffer_never_stores_empty_name() {
    let mut pets = vec![pet(7, "Rex", 2)];
    let buf: Vec<char> = Vec::new();
    commit_name(&mut pets, 0, &buf);
    assert!(!pets[0].name.is_empty());
    assert_eq!(pets[0].name.chars().count(), 10);
    assert!(pets[0].name.chars().all(|c| c.is_ascii_alphanumeric()));
    assert_eq!(pets[0].id, 7);
}

#[test]
fn add_then_delete_restores_collection() {
    let mut pets = vec![pet(1, "Rex", 3), pet(2, "Mia", 5)];
    let orig = pets.clone();
    add_placeholder(&mut pets);
    assert_eq!(pets.len(), 3);
    let new_sel = remove_at(&mut pets, 2);
    assert_eq!(new_sel, 1);
    assert_eq!(pets, orig);
}

#[test]
fn add_placeholder_fields_are_bounded() {
    let mut pets: Vec<Pet> = Vec::new();
    add_placeholder(&mut pets);
    let p = &pets[0];
    assert!(p.id < 9999999);
    assert!((1..15).contains(&p.age));
    assert_eq!(p.name.chars().count(), 10);
    assert!(p.name.chars().all(|c| c.is_ascii_alphanumeric()));
    assert!(p.category == "cats" || p.category == "dogs");
}

#[test]
fn delete_moves_selection_up() {
    let mut pets = vec![pet(1, "a", 1), pet(2, "b", 2), pet(3, "c", 3)];
    let new_sel = remove_at(&mut pets, 1);
    assert_eq!(new_sel, 0);
    assert_eq!(pets.len(), 2);
    assert_eq!(pets[0].id, 1);
    assert_eq!(pets[1].id, 3);
    let new_sel = remove_at(&mut pets, 0);
    assert_eq!(new_sel, 0);
    assert_eq!(pets[0].id, 3);
}

#[test]
fn shift_age_clamps_at_zero() {
    let mut pets = vec![pet(1, "Rex", 0)];
    shift_age_at(&mut pets, 0, false);
    assert_eq!(pets[0].age, 0);
    shift_age_at(&mut pets, 0, true);
    assert_eq!(pets[0].age, 1);
    shift_age_at(&mut pets, 0, false);
    assert_eq!(pets[0].age, 0);
}

#[test]
fn aged_decrement_clamps_at_zero() {
    let mut c = Child { id: 1, name: "Ann".to_owned(), age: 0, birthdate: 0 };
    c.decr_age(1);
    assert_eq!(c.age(), 0);
    c.set_age(5);
    c.decr_age(2);
    assert_eq!(c.age(), 3);
    c.decr_age(9);
    assert_eq!(c.age(), 0);
}

#[test]
fn aged_increment_is_pure_addition() {
    let mut c = Child { id: 1, name: "Ann".to_owned(), age: 3, birthdate: 0 };
    c.incr_age(4);
    assert_eq!(c.age(), 7);
    c.incr_age(0);
    assert_eq!(c.age(), 7);
}

#[test]
fn setters_touch_only_their_field() {
    let mut c = Child { id: 5, name: "Ann".to_owned(), age: 4, birthdate: 9 };
    c.set_name("Bea".to_owned());
    assert_eq!(c, Child { id: 5, name: "Bea".to_owned(), age: 4, birthdate: 9 });
    c.set_age(7);
    assert_eq!(c, Child { id: 5, name: "Bea".to_owned(), age: 7, birthdate: 9 });
    c.decr_age(2);
    assert_eq!(c, Child { id: 5, name: "Bea".to_owned(), age: 5, birthdate: 9 });
}

#[test]
fn child_placeholder_is_bounded() {
    let c = <Child as DataRow>::create_placeholder();
    assert!(c.id < 9999999);
    assert!((1..15).contains(&c.age));
    assert_eq!(c.name.chars().count(), 10);
    assert!(c.name.chars().all(|c| c.is_ascii_alphanumeric()));
}

#[test]
fn key_maps_carry_the_fixed_mnemonics() {
    let km = <Pet as DataRow>::key_map();
    assert_eq!((km.quit, km.home, km.data, km.add, km.del, km.edit), ('q', 'h', 'p', 'a', 'd', 'e'));
    let km = <Child as DataRow>::key_map();
    assert_eq!((km.quit, km.home, km.data, km.add, km.del, km.edit), ('q', 'h', 'c', 'a', 'd', 'e'));
}

#[test]
fn chrome_texts_name_the_record_kind() {
    assert_eq!(<Pet as DataRow>::title(), "Pets");
    assert_eq!(<Pet as DataRow>::row_name(), "pet");
    assert_eq!(<Child as DataRow>::title(), "Children");
    assert_eq!(<Child as DataRow>::row_name(), "Child");
}

#[test]
fn menu_item_tab_indices() {
    assert_eq!(usize::from(MenuItem::Home), 0);
    assert_eq!(usize::from(MenuItem::Data), 1);
}

#[test]
fn events_carry_keys_or_ticks() {
    let e: Event<Key> = Event::Input(Key::Enter);
    match e {
        Event::Input(k) => assert_eq!(k, Key::Enter),
        Event::Tick => panic!("a key event was built"),
    }
    let t: Event<Key> = Event::Tick;
    assert!(matches!(t, Event::Tick));
}

#[test]
fn commit_name_out_of_bounds_is_harmless() {
    let mut pets = vec![pet(1, "Rex", 3)];
    let buf: Vec<char> = vec!['Z'];
    commit_name(&mut pets, 5, &buf);
    assert_eq!(pets[0].name, "Rex");
}
