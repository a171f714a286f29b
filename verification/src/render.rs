//! The view model: what each region of the screen shows, computed as plain
//! text from the current state and the loaded records. Drawing these texts
//! with widgets, colors and borders is left to the binary around the library.

use vstd::prelude::*;

verus! {

use crate::data_row::DataRow;
use crate::data_row::DetailTable;
use crate::generic_tui::MenuItem;
use vstd::string::StringExecFns;

/// One menu tab, split so the first character can carry the mnemonic
/// highlight.
pub struct TabLabel {
    pub first: String,
    pub rest: String,
}

/// The content region of the data view: every record's name in list order,
/// and the detail table of the selected record. The detail pane is present
/// exactly when the selection is in bounds, so an empty collection shows an
/// empty list and no detail.
pub struct DataView {
    pub names: Vec<String>,
    pub detail: Option<DetailTable>,
}

/// What the middle region shows.
pub enum Body {
    Home(Vec<String>),
    Data(DataView),
}

/// The whole screen: the tab row, which tab is highlighted, the middle
/// region, and the footer line.
pub struct ScreenModel {
    pub tabs: Vec<TabLabel>,
    pub active_tab: usize,
    pub body: Body,
    pub footer: String,
}

/// The tab labels split the titles: first character apart, nothing lost.
pub open spec fn tabs_ok(tabs: Seq<TabLabel>, titles: Seq<String>) -> bool {
    &&& tabs.len() == titles.len()
    &&& (forall|i: int|
        0 <= i < tabs.len() ==> (#[trigger] tabs[i]).first@ == titles[i]@.take(1))
    &&& (forall|i: int| 0 <= i < tabs.len() ==> (#[trigger] tabs[i]).rest@ == titles[i]@.skip(1))
}

/// The data view shows every record's name in order, and the detail cells of
/// the selected record exactly when the selection is in bounds.
pub open spec fn data_view_ok<T: DataRow>(dv: &DataView, list: Seq<T>, sel: int) -> bool {
    &&& dv.names@.len() == list.len()
    &&& (forall|i: int|
        0 <= i < list.len() ==> (#[trigger] dv.names@[i])@ == list[i].spec_name())
    &&& (0 <= sel < list.len() ==> (dv.detail matches Some(t)
        && t.cells@.len() == list[sel].spec_cells().len()
        && t.header@.len() == T::spec_headers().len()
        && (forall|i: int|
            0 <= i < t.cells@.len() ==> (#[trigger] t.cells@[i])@ == list[sel].spec_cells()[i])
        && (forall|i: int|
            0 <= i < t.header@.len() ==> (#[trigger] t.header@[i])@ == T::spec_headers()[i])))
    &&& (!(0 <= sel < list.len()) ==> dv.detail is None)
}

/// Split each menu title for the tab row.
pub fn tab_labels(menu_titles: &Vec<String>) -> (r: Vec<TabLabel>)
    requires
        forall|i: int|
            0 <= i < menu_titles@.len() ==> (#[trigger] menu_titles@[i])@.len() > 0,
    ensures
        tabs_ok(r@, menu_titles@),
{
    let mut tabs: Vec<TabLabel> = Vec::new();
    let mut i: usize = 0;
    while i < menu_titles.len()
        invariant
            i <= menu_titles@.len(),
            tabs@.len() == i,
            forall|j: int|
                0 <= j < menu_titles@.len() ==> (#[trigger] menu_titles@[j])@.len() > 0,
            forall|j: int| 0 <= j < i ==> (#[trigger] tabs@[j]).first@ == menu_titles@[j]@.take(1),
            forall|j: int| 0 <= j < i ==> (#[trigger] tabs@[j]).rest@ == menu_titles@[j]@.skip(1),
        decreases menu_titles@.len() - i,
    {
        let t = menu_titles[i].as_str();
        let n = t.unicode_len();
        let first = t.substring_char(0, 1).to_owned();
        let rest = t.substring_char(1, n).to_owned();
        proof {
            assert(first@ =~= menu_titles@[i as int]@.take(1));
            assert(rest@ =~= menu_titles@[i as int]@.skip(1));
        }
        tabs.push(TabLabel { first, rest });
        i = i + 1;
    }
    tabs
}

/// The home screen shows the welcome block, the application name, and then
/// every help line of the record kind.
pub open spec fn home_ok<T: DataRow>(lines: Seq<String>) -> bool {
    &&& lines.len() == 7 + T::spec_help().len()
    &&& lines[0]@.len() == 0
    &&& lines[1]@ == "Welcome"@
    &&& lines[2]@.len() == 0
    &&& lines[3]@ == "to"@
    &&& lines[4]@.len() == 0
    &&& lines[5]@ == T::spec_cli_name()
    &&& lines[6]@.len() == 0
    &&& (forall|i: int|
        0 <= i < T::spec_help().len() ==> (#[trigger] lines[7 + i])@ == T::spec_help()[i])
}

/// The home screen: a welcome block naming the application, then the help
/// lines of the record kind.
pub fn render_home<T: DataRow>() -> (r: Vec<String>)
    ensures
        home_ok::<T>(r@),
{
    proof {
        reveal_strlit("");
    }
    let mut lines: Vec<String> = Vec::new();
    lines.push("".to_owned());
    lines.push("Welcome".to_owned());
    lines.push("".to_owned());
    lines.push("to".to_owned());
    lines.push("".to_owned());
    lines.push(T::cli_name());
    lines.push("".to_owned());
    let help = T::help_part();
    let mut i: usize = 0;
    while i < help.len()
        invariant
            lines@.len() == 7 + i,
            i <= help@.len(),
            help@.len() == T::spec_help().len(),
            forall|j: int| 0 <= j < help@.len() ==> (#[trigger] help@[j])@ == T::spec_help()[j],
            lines@[0]@.len() == 0,
            lines@[1]@ == "Welcome"@,
            lines@[2]@.len() == 0,
            lines@[3]@ == "to"@,
            lines@[4]@.len() == 0,
            lines@[5]@ == T::spec_cli_name(),
            lines@[6]@.len() == 0,
            forall|j: int| 0 <= j < i ==> (#[trigger] lines@[7 + j])@ == T::spec_help()[j],
        decreases help@.len() - i,
    {
        lines.push(help[i].clone());
        i = i + 1;
    }
    lines
}

/// The data screen: the name list and the guarded detail pane.
pub fn render_data<T: DataRow>(data_list: &Vec<T>, selection: usize) -> (r: DataView)
    ensures
        data_view_ok(&r, data_list@, selection as int),
{
    let mut names: Vec<String> = Vec::new();
    let mut i: usize = 0;
    while i < data_list.len()
        invariant
            i <= data_list@.len(),
            names@.len() == i,
            forall|j: int| 0 <= j < i ==> (#[trigger] names@[j])@ == data_list@[j].spec_name(),
        decreases data_list@.len() - i,
    {
        names.push(data_list[i].name());
        i = i + 1;
    }
    let detail: Option<DetailTable> = if selection < data_list.len() {
        Some(data_list[selection].to_table())
    } else {
        None
    };
    DataView { names, detail }
}

/// The highlighted tab of each view, in menu order.
pub open spec fn spec_tab_index(m: MenuItem) -> int {
    match m {
        MenuItem::Home => 0,
        MenuItem::Data => 1,
    }
}

/// Build the whole screen from the current state and the loaded records:
/// the split tab row, the highlighted tab, the home or data body, and the
/// footer line.
pub fn render<T: DataRow>(
    menu_titles: &Vec<String>,
    active_menu_item: MenuItem,
    selection: usize,
    loaded_data: &Vec<T>,
) -> (r: ScreenModel)
    requires
        forall|i: int|
            0 <= i < menu_titles@.len() ==> (#[trigger] menu_titles@[i])@.len() > 0,
    ensures
        tabs_ok(r.tabs@, menu_titles@),
        r.active_tab as int == spec_tab_index(active_menu_item),
        (match r.body {
            Body::Home(lines) => active_menu_item == MenuItem::Home && home_ok::<T>(lines@),
            Body::Data(dv) => active_menu_item == MenuItem::Data && data_view_ok(
                &dv,
                loaded_data@,
                selection as int,
            ),
        }),
        r.footer@ == T::spec_cli_name() + " 2020 - all rights reserved"@,
{
    let tabs = tab_labels(menu_titles);
    let active_tab: usize = usize::from(active_menu_item);
    let body: Body = match active_menu_item {
        MenuItem::Home => Body::Home(render_home::<T>()),
        MenuItem::Data => Body::Data(render_data(loaded_data, selection)),
    };
    let footer = T::cli_name().concat(" 2020 - all rights reserved");
    ScreenModel { tabs, active_tab, body, footer }
}

} // verus!
