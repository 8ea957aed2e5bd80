use vstd::prelude::*;
use crate::applets::applet::{AppState, Key};

verus! {

/// How many entries the top menu offers.
pub const MENU_ENTRIES: usize = 7;

/// The screen that each menu entry opens, in menu order; the last entry quits.
pub open spec fn menu_choice(i: int) -> AppState {
    if i == 0 {
        AppState::ListLocations
    } else if i == 1 {
        AppState::ListItems
    } else if i == 2 {
        AppState::CreateLocation
    } else if i == 3 {
        AppState::CreateItem
    } else if i == 4 {
        AppState::LocationLookup
    } else if i == 5 {
        AppState::ItemLookup
    } else {
        AppState::Exit
    }
}

fn choice(i: usize) -> (r: AppState)
    ensures
        r == menu_choice(i as int),
{
    match i {
        0 => AppState::ListLocations,
        1 => AppState::ListItems,
        2 => AppState::CreateLocation,
        3 => AppState::CreateItem,
        4 => AppState::LocationLookup,
        5 => AppState::ItemLookup,
        _ => AppState::Exit,
    }
}

/// The first screen: a menu of the other screens.
pub struct TopMenuApplet {
    /// The highlighted entry.
    pub selected: usize,
    pub next_state: AppState,
}

impl Default for TopMenuApplet {
    fn default() -> (r: Self)
        ensures
            r.selected == 0,
            r.next_state is NoChange,
    {
        TopMenuApplet { selected: 0, next_state: AppState::NoChange }
    }
}

impl TopMenuApplet {
    /// The highlighted entry is one of the menu's.
    pub open spec fn wf(&self) -> bool {
        self.selected < MENU_ENTRIES
    }

    /// Handles one key: Down and Up move the highlight within the menu, Enter opens the
    /// highlighted entry, `q` and Esc quit.
    pub fn handle_key(&mut self, key: Key)
        requires
            old(self).wf(),
        ensures
            final(self).wf(),
            final(self).selected == match key {
                Key::Down => if old(self).selected + 1 < MENU_ENTRIES {
                    old(self).selected + 1
                } else {
                    old(self).selected as int
                },
                Key::Up => if old(self).selected > 0 {
                    old(self).selected - 1
                } else {
                    0
                },
                _ => old(self).selected as int,
            },
            final(self).next_state == match key {
                Key::Esc | Key::Char('q') => AppState::Exit,
                Key::Enter => menu_choice(old(self).selected as int),
                _ => AppState::NoChange,
            },
    {
        self.next_state = AppState::NoChange;
        match key {
            Key::Esc | Key::Char('q') => self.next_state = AppState::Exit,
            Key::Down => {
                if self.selected + 1 < MENU_ENTRIES {
                    self.selected = self.selected + 1;
                }
            },
            Key::Up => {
                if self.selected > 0 {
                    self.selected = self.selected - 1;
                }
            },
            Key::Enter => self.next_state = choice(self.selected),
            _ => {},
        }
    }

    /// The transition requested by the last key.
    pub fn get_next_state(&self) -> (r: AppState)
        ensures
            r == self.next_state,
    {
        self.next_state.clone()
    }
}

} // verus!
