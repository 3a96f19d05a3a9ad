//! The decisions of the console front end: the menu of named instruments,
//! what a line of input asks for, and which lines are shown of a record.
//! Reading the line, fetching the page and printing are the caller's.

use vstd::prelude::*;
use vstd::string::*;
use crate::quote::{copy_text, text_view, FinancialData, InstrumentKind, QuoteModel};
use crate::text::{trimmed, trimmed_equals};

verus! {

/// One line of the menu: the key to type, the instrument's name and its code.
pub struct MenuEntry {
    pub key: String,
    pub name: String,
    pub code: String,
}

/// What a line of input asks for.
#[derive(Clone, Copy, Debug, PartialEq, Eq, Structural)]
pub enum MenuAction {
    /// Leave the loop.
    Quit,
    /// Fetch and show the entry at this place of the menu.
    Fetch(usize),
    /// Warn and ask again.
    Invalid,
}

/// The model of a menu entry: key, name and code.
pub open spec fn entry_view(entry: MenuEntry) -> (Seq<char>, Seq<char>, Seq<char>) {
    (entry.key@, entry.name@, entry.code@)
}

/// The models of the entries of a menu.
pub open spec fn menu_view(entries: Seq<MenuEntry>) -> Seq<(Seq<char>, Seq<char>, Seq<char>)> {
    entries.map_values(|e: MenuEntry| entry_view(e))
}

/// The built-in menu.
pub open spec fn default_menu() -> Seq<(Seq<char>, Seq<char>, Seq<char>)> {
    seq![
        ("1"@, "Dow Jones Industrial Average"@, "^DJI"@),
        ("2"@, "Nikkei 225"@, "998407.O"@),
        ("3"@, "Sony Group Corp."@, "6758"@),
        ("4"@, "USD/JPY"@, "USDJPY=FX"@),
    ]
}

/// The input that leaves the loop.
pub open spec fn quit_key() -> Seq<char> {
    "q"@
}

/// The place of the first entry from `from` on whose key is `choice`.
pub open spec fn key_place(
    menu: Seq<(Seq<char>, Seq<char>, Seq<char>)>,
    choice: Seq<char>,
    from: nat,
) -> Option<nat>
    decreases menu.len() - from,
{
    if from >= menu.len() {
        None
    } else if menu[from as int].0 == choice {
        Some(from)
    } else {
        key_place(menu, choice, from + 1)
    }
}

/// What a line of input asks for: the line is taken without the white space
/// around it; the quit key leaves, the key of an entry fetches that entry,
/// anything else is invalid.
pub open spec fn menu_action(
    menu: Seq<(Seq<char>, Seq<char>, Seq<char>)>,
    input: Seq<char>,
) -> MenuAction {
    if trimmed(input) == quit_key() {
        MenuAction::Quit
    } else {
        match key_place(menu, trimmed(input), 0) {
            Some(place) => MenuAction::Fetch(place as usize),
            None => MenuAction::Invalid,
        }
    }
}

/// A place that `key_place` gives lies in the menu and holds the key asked
/// for.
pub proof fn lemma_key_place_holds(
    menu: Seq<(Seq<char>, Seq<char>, Seq<char>)>,
    choice: Seq<char>,
    from: nat,
)
    ensures
        match key_place(menu, choice, from) {
            Some(place) => from <= place < menu.len() && menu[place as int].0 == choice,
            None => forall|i: int| from <= i < menu.len() ==> (#[trigger] menu[i]).0 != choice,
        },
    decreases menu.len() - from,
{
    if from < menu.len() && menu[from as int].0 != choice {
        lemma_key_place_holds(menu, choice, from + 1);
    }
}

/// No key stands twice in the built-in menu, and none is the quit key: each
/// key leads to one entry.
pub proof fn lemma_menu_keys_distinct()
    ensures
        default_menu().len() == 4,
        forall|i: int, j: int|
            0 <= i < j < 4 ==> (#[trigger] default_menu()[i]).0 != (#[trigger] default_menu()[j]).0,
        forall|i: int| 0 <= i < 4 ==> (#[trigger] default_menu()[i]).0 != quit_key(),
        forall|i: int|
            0 <= i < 4 ==> key_place(default_menu(), (#[trigger] default_menu()[i]).0, 0) == Some(
                i as nat,
            ),
{
    reveal_strlit("1");
    reveal_strlit("2");
    reveal_strlit("3");
    reveal_strlit("4");
    reveal_strlit("q");
    let menu = default_menu();
    assert(menu[0].0[0] == '1' && menu[1].0[0] == '2' && menu[2].0[0] == '3' && menu[3].0[0] == '4');
    assert(quit_key()[0] == 'q');
    reveal_with_fuel(key_place, 5);
    assert(key_place(menu, menu[0].0, 0) == Some(0nat));
    assert(key_place(menu, menu[1].0, 0) == Some(1nat));
    assert(key_place(menu, menu[2].0, 0) == Some(2nat));
    assert(key_place(menu, menu[3].0, 0) == Some(3nat));
}

/// The entries of the built-in menu, in the order of their keys.
pub fn menu_entries() -> (entries: Vec<MenuEntry>)
    ensures
        menu_view(entries@) == default_menu(),
{
    let mut entries: Vec<MenuEntry> = Vec::new();
    entries.push(
        MenuEntry {
            key: String::from_str("1"),
            name: String::from_str("Dow Jones Industrial Average"),
            code: String::from_str("^DJI"),
        },
    );
    entries.push(
        MenuEntry {
            key: String::from_str("2"),
            name: String::from_str("Nikkei 225"),
            code: String::from_str("998407.O"),
        },
    );
    entries.push(
        MenuEntry {
            key: String::from_str("3"),
            name: String::from_str("Sony Group Corp."),
            code: String::from_str("6758"),
        },
    );
    entries.push(
        MenuEntry {
            key: String::from_str("4"),
            name: String::from_str("USD/JPY"),
            code: String::from_str("USDJPY=FX"),
        },
    );
    proof {
        assert(menu_view(entries@) =~= default_menu());
    }
    entries
}

/// Decides what a line of input asks of a menu.
pub fn decide(entries: &Vec<MenuEntry>, input: &str) -> (action: MenuAction)
    ensures
        action == menu_action(menu_view(entries@), input@),
{
    if trimmed_equals(input, "q") {
        return MenuAction::Quit;
    }
    let mut i: usize = 0;
    while i < entries.len()
        invariant
            i <= entries.len(),
            trimmed(input@) != quit_key(),
            key_place(menu_view(entries@), trimmed(input@), 0) == key_place(
                menu_view(entries@),
                trimmed(input@),
                i as nat,
            ),
        decreases entries.len() - i,
    {
        if trimmed_equals(input, entries[i].key.as_str()) {
            proof {
                assert(menu_view(entries@)[i as int].0 == entries[i as int].key@);
            }
            return MenuAction::Fetch(i);
        }
        i += 1;
    }
    MenuAction::Invalid
}

/// One line of the report on a record. A line whose value is absent is
/// shown as a notice that nothing was found.
pub enum ReportLine {
    Name(Option<String>),
    Code(Option<String>),
    UpdateTime(Option<String>),
    CurrentValue(Option<String>),
    /// The change against the previous day.
    Change(Option<String>),
    /// The rate of change.
    Rate(Option<String>),
    Bid(Option<String>),
}

/// The model of a line of the report.
pub enum LineModel {
    Name(Option<Seq<char>>),
    Code(Option<Seq<char>>),
    UpdateTime(Option<Seq<char>>),
    CurrentValue(Option<Seq<char>>),
    Change(Option<Seq<char>>),
    Rate(Option<Seq<char>>),
    Bid(Option<Seq<char>>),
}

impl View for ReportLine {
    type V = LineModel;

    open spec fn view(&self) -> LineModel {
        match *self {
            ReportLine::Name(text) => LineModel::Name(text_view(text)),
            ReportLine::Code(text) => LineModel::Code(text_view(text)),
            ReportLine::UpdateTime(text) => LineModel::UpdateTime(text_view(text)),
            ReportLine::CurrentValue(text) => LineModel::CurrentValue(text_view(text)),
            ReportLine::Change(text) => LineModel::Change(text_view(text)),
            ReportLine::Rate(text) => LineModel::Rate(text_view(text)),
            ReportLine::Bid(text) => LineModel::Bid(text_view(text)),
        }
    }
}

/// The models of the lines of a report.
pub open spec fn report_view(lines: Seq<ReportLine>) -> Seq<LineModel> {
    lines.map_values(|l: ReportLine| l@)
}

/// The lines shown of a record, in their order: the name, the code unless
/// the instrument is a foreign-exchange pair, the time of update, and then
/// the bid of a pair, or the current value, the change and the rate of any
/// other. Each line shows its own field, present or absent, whatever the
/// other fields hold.
pub open spec fn report_of(kind: InstrumentKind, quote: QuoteModel) -> Seq<LineModel> {
    match kind {
        InstrumentKind::FxPair => seq![
            LineModel::Name(quote.name),
            LineModel::UpdateTime(quote.update_time),
            LineModel::Bid(quote.bid_value),
        ],
        InstrumentKind::EquityOrIndex => seq![
            LineModel::Name(quote.name),
            LineModel::Code(quote.code),
            LineModel::UpdateTime(quote.update_time),
            LineModel::CurrentValue(quote.current_value),
            LineModel::Change(quote.previous_day_change),
            LineModel::Rate(quote.change_rate),
        ],
    }
}

/// The lines to show of a record of the given kind.
pub fn report(kind: InstrumentKind, data: &FinancialData) -> (lines: Vec<ReportLine>)
    ensures
        report_view(lines@) == report_of(kind, data@),
{
    let mut lines: Vec<ReportLine> = Vec::new();
    lines.push(ReportLine::Name(copy_text(&data.name)));
    match kind {
        InstrumentKind::FxPair => {
            lines.push(ReportLine::UpdateTime(copy_text(&data.update_time)));
            lines.push(ReportLine::Bid(copy_text(&data.bid_value)));
        },
        InstrumentKind::EquityOrIndex => {
            lines.push(ReportLine::Code(copy_text(&data.code)));
            lines.push(ReportLine::UpdateTime(copy_text(&data.update_time)));
            lines.push(ReportLine::CurrentValue(copy_text(&data.current_value)));
            lines.push(ReportLine::Change(copy_text(&data.previous_day_change)));
            lines.push(ReportLine::Rate(copy_text(&data.change_rate)));
        },
    }
    proof {
        assert(report_view(lines@) =~= report_of(kind, data@));
    }
    lines
}

} // verus!
