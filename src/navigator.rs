use vstd::prelude::*;
use crate::applets::applet::{AppState, Key, TableCursor};
use crate::applets::create_item::{CreateItemApplet, CreateItemSelection};
use crate::applets::create_location::{CreateLocationApplet, CreateLocationSelection};
use crate::applets::edit_item::{EditItemApplet, EditItemSelection};
use crate::applets::edit_location::{EditLocationApplet, EditLocationSelection};
use crate::applets::error::ErrorApplet;
use crate::applets::item_lookup::ItemLookupApplet;
use crate::applets::list_items::ListItemsApplet;
use crate::applets::list_locations::ListLocationsApplet;
use crate::applets::location_lookup::LocationLookupApplet;
use crate::applets::top_menu::TopMenuApplet;
use crate::store::Inventory;

verus! {

/// One screen of the catalog, with its own state.
pub enum Applet {
    TopMenu(TopMenuApplet),
    ListLocations(ListLocationsApplet),
    ListItems(ListItemsApplet),
    CreateLocation(CreateLocationApplet),
    CreateItem(CreateItemApplet),
    LocationLookup(LocationLookupApplet),
    ItemLookup(ItemLookupApplet),
    EditLocation(EditLocationApplet),
    EditItem(EditItemApplet),
    Error(ErrorApplet),
}

/// How a transition changes the depth of the screen stack.
pub open spec fn depth_change(t: AppState) -> int {
    match t {
        AppState::NoChange => 0,
        AppState::Exit => -1,
        _ => 1,
    }
}

/// `a` is the freshly made screen that the push transition `t` asks for.
pub open spec fn opened_by(t: AppState, a: Applet) -> bool {
    &&& a.next_state() is NoChange
    &&& match (t, a) {
        (AppState::TopMenu, Applet::TopMenu(m)) => m.selected == 0,
        (AppState::ListLocations, Applet::ListLocations(l)) => {
            &&& l.locations@.len() == 0
            &&& l.search@.len() == 0
            &&& l.cursor_position == 0
            &&& l.table_state == (TableCursor { row: 0, column: 0 })
            &&& !l.read_failed
        },
        (AppState::ListItems, Applet::ListItems(l)) => {
            &&& l.items@.len() == 0
            &&& l.location_strings@.len() == 0
            &&& l.table_state == (TableCursor { row: 0, column: 0 })
            &&& !l.read_failed
        },
        (AppState::CreateLocation, Applet::CreateLocation(c)) => {
            &&& c.id@.len() == 0
            &&& c.name@.len() == 0
            &&& c.comment@.len() == 0
            &&& c.selection == CreateLocationSelection::Id
            &&& c.cursor_position == 0
            &&& c.last_error is None
        },
        (AppState::CreateItem, Applet::CreateItem(c)) => {
            &&& c.id@.len() == 0
            &&& c.name@.len() == 0
            &&& c.comment@.len() == 0
            &&& c.location_id@.len() == 0
            &&& c.selection == CreateItemSelection::Id
            &&& c.cursor_position == 0
            &&& c.last_error is None
        },
        (AppState::LocationLookup, Applet::LocationLookup(l)) => {
            &&& l.id@.len() == 0
            &&& l.cursor_position == 0
            &&& l.last_error is None
        },
        (AppState::ItemLookup, Applet::ItemLookup(l)) => {
            &&& l.id@.len() == 0
            &&& l.cursor_position == 0
            &&& l.last_error is None
        },
        (AppState::EditLocation(id), Applet::EditLocation(e)) => {
            &&& e.id == id
            &&& e.loc.id != id
            &&& e.loc.name@.len() == 0
            &&& e.loc.comment is None
            &&& e.selection == EditLocationSelection::Name
            &&& e.cursor_position == 0
            &&& e.last_error is None
        },
        (AppState::EditItem(id), Applet::EditItem(e)) => {
            &&& e.id == id
            &&& e.item.id != id
            &&& e.item.name@.len() == 0
            &&& e.item.comment is None
            &&& e.item.location_id is None
            &&& e.loc_id_str@.len() == 0
            &&& e.selection == EditItemSelection::Name
            &&& e.cursor_position == 0
            &&& e.last_error is None
        },
        (AppState::Error(msg), Applet::Error(e)) => e.error_text == msg,
        _ => false,
    }
}

/// The screen on top of a non-empty stack.
pub open spec fn top_of(stack: Seq<Applet>) -> Applet {
    stack[stack.len() - 1]
}

/// The two values are the same kind of screen.
pub open spec fn same_kind(a: Applet, b: Applet) -> bool {
    match (a, b) {
        (Applet::TopMenu(_), Applet::TopMenu(_)) => true,
        (Applet::ListLocations(_), Applet::ListLocations(_)) => true,
        (Applet::ListItems(_), Applet::ListItems(_)) => true,
        (Applet::CreateLocation(_), Applet::CreateLocation(_)) => true,
        (Applet::CreateItem(_), Applet::CreateItem(_)) => true,
        (Applet::LocationLookup(_), Applet::LocationLookup(_)) => true,
        (Applet::ItemLookup(_), Applet::ItemLookup(_)) => true,
        (Applet::EditLocation(x), Applet::EditLocation(y)) => x.id == y.id,
        (Applet::EditItem(x), Applet::EditItem(y)) => x.id == y.id,
        (Applet::Error(x), Applet::Error(y)) => x.error_text == y.error_text,
        _ => false,
    }
}

impl Applet {
    /// What `refresh` does to this screen, starting from `before`: the screens that show data
    /// from the store read it again, the others stay as they are.
    pub open spec fn refreshed(self, before: Applet, db: Inventory) -> bool {
        match (before, self) {
            (Applet::ListLocations(a), Applet::ListLocations(b)) => b.refreshed(&a, db.locations()),
            (Applet::ListItems(a), Applet::ListItems(b)) => b.refreshed(
                &a,
                db.locations(),
                db.items(),
            ),
            (Applet::EditLocation(a), Applet::EditLocation(b)) => b.refreshed(&a, db.locations()),
            (Applet::EditItem(a), Applet::EditItem(b)) => b.refreshed(&a, db.items()),
            (Applet::ListLocations(_), _) => false,
            (Applet::ListItems(_), _) => false,
            (Applet::EditLocation(_), _) => false,
            (Applet::EditItem(_), _) => false,
            _ => self == before,
        }
    }

    /// The screen's own invariant.
    pub open spec fn wf(&self) -> bool {
        match self {
            Applet::TopMenu(a) => a.wf(),
            Applet::ListLocations(a) => a.wf(),
            Applet::ListItems(a) => a.wf(),
            Applet::CreateLocation(a) => a.wf(),
            Applet::CreateItem(a) => a.wf(),
            Applet::LocationLookup(a) => a.wf(),
            Applet::ItemLookup(a) => a.wf(),
            Applet::EditLocation(a) => a.wf(),
            Applet::EditItem(a) => a.wf(),
            Applet::Error(_) => true,
        }
    }

    /// The transition the screen asked for with the last key.
    pub open spec fn next_state(&self) -> AppState {
        match self {
            Applet::TopMenu(a) => a.next_state,
            Applet::ListLocations(a) => a.next_state,
            Applet::ListItems(a) => a.next_state,
            Applet::CreateLocation(a) => a.next_state,
            Applet::CreateItem(a) => a.next_state,
            Applet::LocationLookup(a) => a.next_state,
            Applet::ItemLookup(a) => a.next_state,
            Applet::EditLocation(a) => a.next_state,
            Applet::EditItem(a) => a.next_state,
            Applet::Error(a) => a.next_state,
        }
    }

    /// The screen a push transition asks for; `None` for `NoChange` and `Exit`.
    pub fn open(t: &AppState) -> (r: Option<Applet>)
        ensures
            r is None <==> (t is NoChange || t is Exit),
            r matches Some(a) ==> a.wf() && opened_by(*t, a),
    {
        match t {
            AppState::NoChange | AppState::Exit => None,
            AppState::TopMenu => Some(Applet::TopMenu(TopMenuApplet::default())),
            AppState::ListLocations => Some(Applet::ListLocations(ListLocationsApplet::default())),
            AppState::ListItems => Some(Applet::ListItems(ListItemsApplet::default())),
            AppState::CreateLocation => Some(Applet::CreateLocation(CreateLocationApplet::new())),
            AppState::CreateItem => Some(Applet::CreateItem(CreateItemApplet::new())),
            AppState::LocationLookup => Some(Applet::LocationLookup(LocationLookupApplet::new())),
            AppState::ItemLookup => Some(Applet::ItemLookup(ItemLookupApplet::new())),
            AppState::EditLocation(id) => Some(Applet::EditLocation(EditLocationApplet::new(*id))),
            AppState::EditItem(id) => Some(Applet::EditItem(EditItemApplet::new(*id))),
            AppState::Error(msg) => Some(Applet::Error(ErrorApplet::new(msg.clone()))),
        }
    }

    /// Lets the screen handle one key; only the form screens write to the store.
    pub fn handle_key(&mut self, key: Key, db: &mut Inventory)
        requires
            old(self).wf(),
        ensures
            final(self).wf(),
            same_kind(*old(self), *final(self)),
            !(*old(self) is CreateLocation || *old(self) is CreateItem || *old(self) is EditLocation
                || *old(self) is EditItem) ==> final(db).locations() == old(db).locations()
                && final(db).items() == old(db).items(),
    {
        match self {
            Applet::TopMenu(a) => a.handle_key(key),
            Applet::ListLocations(a) => a.handle_key(key, db),
            Applet::ListItems(a) => a.handle_key(key),
            Applet::CreateLocation(a) => a.handle_key(key, db),
            Applet::CreateItem(a) => a.handle_key(key, db),
            Applet::LocationLookup(a) => a.handle_key(key, db),
            Applet::ItemLookup(a) => a.handle_key(key, db),
            Applet::EditLocation(a) => a.handle_key(key, db),
            Applet::EditItem(a) => a.handle_key(key, db),
            Applet::Error(a) => a.handle_key(key),
        }
    }

    /// Lets the screen read fresh data from the store; screens that show none ignore it.
    pub fn refresh(&mut self, db: &Inventory)
        requires
            old(self).wf(),
        ensures
            final(self).wf(),
            same_kind(*old(self), *final(self)),
            final(self).next_state() == old(self).next_state(),
            final(self).refreshed(*old(self), *db),
    {
        match self {
            Applet::ListLocations(a) => a.refresh(db),
            Applet::ListItems(a) => a.refresh(db),
            Applet::EditLocation(a) => a.refresh(db),
            Applet::EditItem(a) => a.refresh(db),
            _ => {},
        }
    }

    /// The transition the screen asked for with the last key.
    pub fn get_next_state(&self) -> (r: AppState)
        ensures
            r == self.next_state(),
    {
        match self {
            Applet::TopMenu(a) => a.get_next_state(),
            Applet::ListLocations(a) => a.get_next_state(),
            Applet::ListItems(a) => a.get_next_state(),
            Applet::CreateLocation(a) => a.get_next_state(),
            Applet::CreateItem(a) => a.get_next_state(),
            Applet::LocationLookup(a) => a.get_next_state(),
            Applet::ItemLookup(a) => a.get_next_state(),
            Applet::EditLocation(a) => a.get_next_state(),
            Applet::EditItem(a) => a.get_next_state(),
            Applet::Error(a) => a.get_next_state(),
        }
    }
}

/// The navigator: a stack of screens, newest on top, and the store they share.
pub struct App {
    pub applets: Vec<Applet>,
    pub db: Inventory,
}

impl App {
    /// Every screen on the stack keeps its invariant.
    pub open spec fn wf(&self) -> bool {
        forall|i: int| 0 <= i < self.applets@.len() ==> (#[trigger] self.applets@[i]).wf()
    }

    /// A navigator over `db` showing the top menu.
    pub fn new(db: Inventory) -> (r: App)
        ensures
            r.wf(),
            r.applets@.len() == 1,
            opened_by(AppState::TopMenu, r.applets@[0]),
            r.db == db,
    {
        let mut applets: Vec<Applet> = Vec::new();
        applets.push(Applet::TopMenu(TopMenuApplet::default()));
        App { applets, db }
    }

    /// The run loop goes on while a screen is left.
    pub fn is_running(&self) -> (r: bool)
        ensures
            r == (self.applets@.len() > 0),
    {
        self.applets.len() > 0
    }

    /// The screen on top of the stack, if any: the one to draw.
    pub fn top(&self) -> (r: Option<&Applet>)
        ensures
            self.applets@.len() == 0 ==> r is None,
            self.applets@.len() > 0 ==> r == Some(&self.applets@[self.applets@.len() - 1]),
    {
        let n = self.applets.len();
        if n == 0 {
            None
        } else {
            Some(&self.applets[n - 1])
        }
    }

    /// Acts on a transition: `NoChange` leaves the stack alone, `Exit` pops the top screen and
    /// any other transition pushes the screen it names; after a pop or a push the new top, if
    /// any, reads fresh data once.
    pub fn apply(&mut self, t: AppState)
        requires
            old(self).wf(),
            old(self).applets@.len() > 0,
            old(self).applets@.len() < usize::MAX,
        ensures
            final(self).wf(),
            final(self).applets@.len() == old(self).applets@.len() + depth_change(t),
            t is NoChange ==> final(self).applets == old(self).applets,
            forall|i: int|
                0 <= i < final(self).applets@.len() - 1 ==> final(self).applets@[i]
                    == old(self).applets@[i],
            t is Exit && final(self).applets@.len() > 0 ==> top_of(final(self).applets@).refreshed(
                old(self).applets@[final(self).applets@.len() - 1],
                old(self).db,
            ),
            !(t is NoChange || t is Exit) ==> exists|a: Applet|
                opened_by(t, a) && #[trigger] top_of(final(self).applets@).refreshed(
                    a,
                    old(self).db,
                ),
            final(self).db == old(self).db,
    {
        let ghost mut pushed: Option<Applet> = None;
        match Applet::open(&t) {
            Some(a) => {
                proof {
                    pushed = Some(a);
                }
                self.applets.push(a);
            },
            None => match t {
                AppState::Exit => {
                    self.applets.pop();
                },
                _ => return ,
            },
        }
        if let Some(mut top) = self.applets.pop() {
            proof {
                assert(top.wf());
            }
            let ghost before = top;
            top.refresh(&self.db);
            self.applets.push(top);
            proof {
                if pushed is Some {
                    assert(before == pushed->Some_0);
                    assert(opened_by(t, before) && top.refreshed(before, self.db));
                }
            }
        }
    }

    /// One cycle of the run loop after a key: the top screen handles it, then the navigator
    /// acts on the transition it asked for, which is returned.
    pub fn handle_key(&mut self, key: Key) -> (t: AppState)
        requires
            old(self).wf(),
            old(self).applets@.len() > 0,
            old(self).applets@.len() < usize::MAX,
        ensures
            final(self).wf(),
            final(self).applets@.len() == old(self).applets@.len() + depth_change(t),
            final(self).applets@.len() == 0 <==> (old(self).applets@.len() == 1 && t is Exit),
            forall|i: int|
                0 <= i < final(self).applets@.len() - 1 && i < old(self).applets@.len() - 1
                    ==> final(self).applets@[i] == old(self).applets@[i],
    {
        let mut top = self.applets.pop().unwrap();
        proof {
            assert(top.wf());
        }
        top.handle_key(key, &mut self.db);
        let t = top.get_next_state();
        self.applets.push(top);
        proof {
            assert forall|i: int| 0 <= i < self.applets@.len() implies (
            #[trigger] self.applets@[i]).wf() by {
                if i < self.applets@.len() - 1 {
                    assert(self.applets@[i] == old(self).applets@[i]);
                }
            }
        }
        self.apply(t.clone());
        t
    }
}

/// The depth of a stack of `start` screens after the transitions `ts`, in order.
pub open spec fn depth_after(start: int, ts: Seq<AppState>) -> int
    decreases ts.len(),
{
    if ts.len() == 0 {
        start
    } else {
        depth_after(start, ts.drop_last()) + depth_change(ts.last())
    }
}

/// The stack stays non-empty until the very last `Exit`: when the run loop acts on each
/// transition only while a screen is left, the stack never goes below empty, and it becomes
/// empty only through an `Exit` taken with a single screen left, after which the loop stops.
pub proof fn lemma_stack_nonempty_until_last_exit(start: int, ts: Seq<AppState>)
    requires
        start >= 1,
        forall|k: int| 0 <= k < ts.len() ==> #[trigger] depth_after(start, ts.take(k)) >= 1,
    ensures
        depth_after(start, ts) >= 0,
        depth_after(start, ts) == 0 ==> ts.len() > 0 && ts.last() is Exit && depth_after(
            start,
            ts.drop_last(),
        ) == 1,
{
    if ts.len() > 0 {
        let k = ts.len() - 1;
        assert(ts.take(k) =~= ts.drop_last());
        assert(depth_after(start, ts.take(k)) >= 1);
    }
}

} // verus!
