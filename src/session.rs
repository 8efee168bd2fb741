use evdev::KeyCode;
use vstd::prelude::*;

use crate::protocol::{IconRef, LauncherRequest, LauncherResponse, LauncherResult, TransportError};

verus! {

/// How many result slots the launcher shows.
pub const SLOT_COUNT: usize = 8;

/// What one result slot shows.
#[derive(Debug)]
pub struct LauncherItem {
    pub name: String,
    pub description: String,
    /// The name of the result's icon, where it gives one by name.
    pub icon: Option<String>,
    /// The name of the icon of the result's category, where it gives one by
    /// name.
    pub category_icon: Option<String>,
    /// Whether the slot holds a result of the latest search.
    pub active: bool,
}

/// The icon name that a slot shows for `icon`.
pub open spec fn icon_name(icon: Option<IconRef>) -> Option<String> {
    match icon {
        Some(IconRef::Name(name)) => Some(name),
        _ => None,
    }
}

/// The slot that shows `result`.
pub open spec fn item_of(result: LauncherResult) -> LauncherItem {
    LauncherItem {
        name: result.name,
        description: result.description,
        icon: icon_name(result.icon),
        category_icon: icon_name(result.category_icon),
        active: true,
    }
}

/// The slot shows nothing.
pub open spec fn is_blank(item: LauncherItem) -> bool {
    &&& item.name@.len() == 0
    &&& item.description@.len() == 0
    &&& item.icon is None
    &&& item.category_icon is None
    &&& !item.active
}

fn icon_name_of(icon: &Option<IconRef>) -> (r: Option<String>)
    ensures
        r == icon_name(*icon),
{
    match icon {
        Some(IconRef::Name(name)) => Some(name.clone()),
        _ => None,
    }
}

impl LauncherItem {
    /// An empty slot.
    pub fn new() -> (r: LauncherItem)
        ensures
            is_blank(r),
    {
        LauncherItem {
            name: String::new(),
            description: String::new(),
            icon: None,
            category_icon: None,
            active: false,
        }
    }

    /// Empties the slot.
    pub fn clear(&mut self)
        ensures
            is_blank(*final(self)),
    {
        self.category_icon = None;
        self.icon = None;
        self.name = String::new();
        self.description = String::new();
        self.active = false;
    }

    /// Whether the slot is highlighted when `selected` says whether the
    /// cursor is on it: only a slot that holds a result is.
    pub fn select(&self, selected: bool) -> (r: bool)
        ensures
            r == (selected && self.active),
    {
        selected && self.active
    }

    /// Shows `result` in the slot.
    pub fn set(&mut self, result: &LauncherResult)
        ensures
            *final(self) == item_of(*result),
    {
        self.category_icon = icon_name_of(&result.category_icon);
        self.icon = icon_name_of(&result.icon);
        self.name = result.name.clone();
        self.description = result.description.clone();
        self.active = true;
    }
}

/// The slots after the results of an update are placed, in order, each in
/// the slot that its `id` names; a result whose `id` names no slot is left
/// out.
pub open spec fn apply_results(items: Seq<LauncherItem>, results: Seq<LauncherResult>) -> Seq<
    LauncherItem,
>
    decreases results.len(),
{
    if results.len() == 0 {
        items
    } else {
        let before = apply_results(items, results.drop_last());
        let last = results.last();
        if (last.id as int) < before.len() {
            before.update(last.id as int, item_of(last))
        } else {
            before
        }
    }
}

/// The ids of the results that name no slot among `n`, in order.
pub open spec fn dropped_ids(results: Seq<LauncherResult>, n: int) -> Seq<u32>
    decreases results.len(),
{
    if results.len() == 0 {
        Seq::empty()
    } else {
        let before = dropped_ids(results.drop_last(), n);
        if results.last().id >= n {
            before.push(results.last().id)
        } else {
            before
        }
    }
}

/// Placing results keeps the number of slots.
pub proof fn lemma_apply_results_len(items: Seq<LauncherItem>, results: Seq<LauncherResult>)
    ensures
        apply_results(items, results).len() == items.len(),
    decreases results.len(),
{
    if results.len() > 0 {
        lemma_apply_results_len(items, results.drop_last());
    }
}

/// A result whose id names no slot changes no slot: not the one that its id
/// names modulo the number of slots, nor any other.
pub proof fn lemma_out_of_range_result_dropped(
    items: Seq<LauncherItem>,
    results: Seq<LauncherResult>,
    extra: LauncherResult,
)
    requires
        extra.id >= items.len(),
    ensures
        apply_results(items, results.push(extra)) == apply_results(items, results),
        dropped_ids(results.push(extra), items.len() as int) == dropped_ids(
            results,
            items.len() as int,
        ).push(extra.id),
{
    lemma_apply_results_len(items, results);
    assert(results.push(extra).drop_last() == results);
}

/// A key that the launcher's input reacts to.
#[derive(Clone, Copy, Debug, PartialEq, Eq, Structural)]
pub enum LauncherKey {
    Escape,
    Tab,
    Up,
    Down,
    Other,
}

/// The launcher key of an evdev key code: escape is 1, tab 15, up 103 and
/// down 108.
pub open spec fn key_of_code(code: u16) -> LauncherKey {
    if code == 1 {
        LauncherKey::Escape
    } else if code == 15 {
        LauncherKey::Tab
    } else if code == 103 {
        LauncherKey::Up
    } else if code == 108 {
        LauncherKey::Down
    } else {
        LauncherKey::Other
    }
}

/// Relies on evdev's `KeyCode::KEY_ESC`, `KEY_TAB`, `KEY_UP` and `KEY_DOWN`
/// and on `KeyCode::code`, which returns the number that a key code holds.
#[verifier::external_body]
fn key_codes() -> (r: (u16, u16, u16, u16))
    ensures
        r == (1u16, 15u16, 103u16, 108u16),
{
    (KeyCode::KEY_ESC.code(), KeyCode::KEY_TAB.code(), KeyCode::KEY_UP.code(), KeyCode::KEY_DOWN.code())
}

impl LauncherKey {
    /// The launcher key of the evdev key code `code`.
    pub fn from_code(code: u16) -> (r: LauncherKey)
        ensures
            r == key_of_code(code),
    {
        let (escape, tab, up, down) = key_codes();
        if code == escape {
            LauncherKey::Escape
        } else if code == tab {
            LauncherKey::Tab
        } else if code == up {
            LauncherKey::Up
        } else if code == down {
            LauncherKey::Down
        } else {
            LauncherKey::Other
        }
    }
}

/// What the caller does after a key press.
#[derive(Debug)]
pub enum KeyAction {
    /// Close the launcher.
    Close,
    /// Send the request to the backend and hand its response to the launcher.
    Send(LauncherRequest),
    /// The key was handled; redraw the highlighting.
    Handled,
    /// The key is not the launcher's: let the input handle it.
    Ignored,
}

/// The cursor one slot up, from the first slot to the last.
pub open spec fn cursor_up(cursor: int) -> int {
    if cursor == 0 {
        SLOT_COUNT - 1
    } else {
        cursor - 1
    }
}

/// The cursor one slot down, from the last slot to the first.
pub open spec fn cursor_down(cursor: int) -> int {
    if cursor == SLOT_COUNT - 1 {
        0
    } else {
        cursor + 1
    }
}

/// What a key press does to an open launcher `ui`: `next` is the launcher
/// after it and `r` what the caller is to do.
pub open spec fn key_step(ui: LauncherUi, key: LauncherKey, next: LauncherUi, r: KeyAction) -> bool {
    &&& next.wf()
    &&& next.items() == ui.items()
    &&& next.query() == ui.query()
    &&& next.cursor() == match key {
        LauncherKey::Up => cursor_up(ui.cursor()),
        LauncherKey::Down => cursor_down(ui.cursor()),
        _ => ui.cursor(),
    }
    &&& r == match key {
        LauncherKey::Escape => KeyAction::Close,
        LauncherKey::Tab => KeyAction::Send(LauncherRequest::Complete(ui.cursor() as u32)),
        LauncherKey::Up | LauncherKey::Down => KeyAction::Handled,
        LauncherKey::Other => KeyAction::Ignored,
    }
}

/// The state of an open launcher: its result slots, the slot that the cursor
/// is on, and the text of the latest search.
#[derive(Debug)]
pub struct LauncherUi {
    items: Vec<LauncherItem>,
    selected: usize,
    query: String,
}

impl LauncherUi {
    pub closed spec fn items(&self) -> Seq<LauncherItem> {
        self.items@
    }

    pub closed spec fn cursor(&self) -> int {
        self.selected as int
    }

    pub closed spec fn query(&self) -> Seq<char> {
        self.query@
    }

    /// There are `SLOT_COUNT` slots and the cursor is on one of them.
    pub open spec fn wf(&self) -> bool {
        &&& self.items().len() == SLOT_COUNT
        &&& 0 <= self.cursor() < SLOT_COUNT
    }

    /// A launcher just opened: every slot empty, the cursor on the first
    /// one, no search made.
    pub fn new() -> (r: LauncherUi)
        ensures
            r.wf(),
            r.cursor() == 0,
            r.query().len() == 0,
            forall|i: int| 0 <= i < SLOT_COUNT ==> is_blank(#[trigger] r.items()[i]),
    {
        let mut items: Vec<LauncherItem> = Vec::new();
        while items.len() < SLOT_COUNT
            invariant
                items@.len() <= SLOT_COUNT,
                forall|i: int| 0 <= i < items@.len() ==> is_blank(#[trigger] items@[i]),
            decreases SLOT_COUNT - items@.len(),
        {
            items.push(LauncherItem::new());
        }
        LauncherUi { items, selected: 0, query: String::new() }
    }

    /// The slot that the cursor is on.
    pub fn selected(&self) -> (r: usize)
        ensures
            r == self.cursor(),
    {
        self.selected
    }

    /// The slot numbered `i`.
    pub fn item(&self, i: usize) -> (r: &LauncherItem)
        requires
            self.wf(),
            i < SLOT_COUNT,
        ensures
            *r == self.items()[i as int],
    {
        &self.items[i]
    }

    /// The text of the latest search.
    pub fn query_text(&self) -> (r: &String)
        ensures
            r@ == self.query(),
    {
        &self.query
    }

    /// Empties every slot.
    pub fn clear(&mut self)
        requires
            old(self).wf(),
        ensures
            final(self).wf(),
            final(self).cursor() == old(self).cursor(),
            final(self).query() == old(self).query(),
            forall|i: int| 0 <= i < SLOT_COUNT ==> is_blank(#[trigger] final(self).items()[i]),
    {
        let mut i: usize = 0;
        while i < self.items.len()
            invariant
                self.wf(),
                self.cursor() == old(self).cursor(),
                self.query() == old(self).query(),
                0 <= i <= SLOT_COUNT,
                forall|j: int| 0 <= j < i ==> is_blank(#[trigger] self.items()[j]),
            decreases SLOT_COUNT - i,
        {
            self.items[i].clear();
            i += 1;
        }
    }

    /// The last slot.
    fn max_selected(&self) -> (r: usize)
        requires
            self.wf(),
        ensures
            r == SLOT_COUNT - 1,
    {
        self.items.len() - 1
    }

    /// Moves the cursor up, from the first slot to the last.
    pub fn key_up(&mut self)
        requires
            old(self).wf(),
        ensures
            final(self).wf(),
            final(self).cursor() == cursor_up(old(self).cursor()),
            final(self).items() == old(self).items(),
            final(self).query() == old(self).query(),
    {
        if self.selected > 0 {
            self.selected = self.selected - 1;
        } else {
            self.selected = self.max_selected();
        }
    }

    /// Moves the cursor down, from the last slot to the first.
    pub fn key_down(&mut self)
        requires
            old(self).wf(),
        ensures
            final(self).wf(),
            final(self).cursor() == cursor_down(old(self).cursor()),
            final(self).items() == old(self).items(),
            final(self).query() == old(self).query(),
    {
        if self.selected < self.max_selected() {
            self.selected = self.selected + 1;
        } else {
            self.selected = 0;
        }
    }

    /// Places the results of an update in their slots and returns the ids of
    /// those that name no slot, which are left out.
    pub fn set(&mut self, results: &Vec<LauncherResult>) -> (dropped: Vec<u32>)
        requires
            old(self).wf(),
        ensures
            final(self).wf(),
            final(self).items() == apply_results(old(self).items(), results@),
            final(self).cursor() == old(self).cursor(),
            final(self).query() == old(self).query(),
            dropped@ == dropped_ids(results@, SLOT_COUNT as int),
    {
        let mut dropped: Vec<u32> = Vec::new();
        let mut k: usize = 0;
        while k < results.len()
            invariant
                0 <= k <= results@.len(),
                self.wf(),
                self.items() == apply_results(old(self).items(), results@.take(k as int)),
                self.cursor() == old(self).cursor(),
                self.query() == old(self).query(),
                dropped@ == dropped_ids(results@.take(k as int), SLOT_COUNT as int),
            decreases results@.len() - k,
        {
            let result = &results[k];
            proof {
                assert(results@.take(k + 1).drop_last() == results@.take(k as int));
                lemma_apply_results_len(old(self).items(), results@.take(k as int));
            }
            if (result.id as usize) < self.items.len() {
                self.items[result.id as usize].set(result);
            } else {
                dropped.push(result.id);
            }
            k += 1;
        }
        proof {
            assert(results@.take(results@.len() as int) == results@);
        }
        dropped
    }

    /// Which slots are highlighted: the one under the cursor, where it holds
    /// a result.
    pub fn select(&self) -> (r: Vec<bool>)
        requires
            self.wf(),
        ensures
            r@.len() == SLOT_COUNT,
            forall|i: int| 0 <= i < SLOT_COUNT ==> #[trigger] r@[i] == (i == self.cursor()
                && self.items()[i].active),
    {
        let mut r: Vec<bool> = Vec::new();
        let mut i: usize = 0;
        while i < self.items.len()
            invariant
                self.wf(),
                0 <= i <= SLOT_COUNT,
                r@.len() == i,
                forall|j: int| 0 <= j < i ==> #[trigger] r@[j] == (j == self.cursor()
                    && self.items()[j].active),
            decreases SLOT_COUNT - i,
        {
            r.push(self.items[i].select(self.selected == i));
            i += 1;
        }
        r
    }

    /// The input text changed to `text`: empties every slot, records `text`
    /// as the latest search and returns the request for it.
    pub fn search(&mut self, text: String) -> (r: LauncherRequest)
        requires
            old(self).wf(),
        ensures
            final(self).wf(),
            final(self).cursor() == old(self).cursor(),
            final(self).query() == text@,
            forall|i: int| 0 <= i < SLOT_COUNT ==> is_blank(#[trigger] final(self).items()[i]),
            r == LauncherRequest::Search(text),
    {
        self.clear();
        self.query = text.clone();
        LauncherRequest::Search(text)
    }

    /// Applies the response to the search for `text`. An update places its
    /// results and returns the ids left out; any other response, an error,
    /// or a response to a search that a newer one has replaced changes
    /// nothing.
    pub fn apply_search(
        &mut self,
        text: &String,
        response: Result<LauncherResponse, TransportError>,
    ) -> (dropped: Vec<u32>)
        requires
            old(self).wf(),
        ensures
            final(self).wf(),
            final(self).cursor() == old(self).cursor(),
            final(self).query() == old(self).query(),
            if text@ == old(self).query() && response is Ok && response->Ok_0 is Update {
                &&& final(self).items() == apply_results(
                    old(self).items(),
                    response->Ok_0->Update_0@,
                )
                &&& dropped@ == dropped_ids(response->Ok_0->Update_0@, SLOT_COUNT as int)
            } else {
                &&& final(self).items() == old(self).items()
                &&& dropped@.len() == 0
            },
    {
        if *text != self.query {
            return Vec::new();
        }
        match response {
            Ok(LauncherResponse::Update(results)) => self.set(&results),
            _ => Vec::new(),
        }
    }

    /// The request to complete the input from the slot under the cursor.
    pub fn complete(&self) -> (r: LauncherRequest)
        requires
            self.wf(),
        ensures
            r == LauncherRequest::Complete(self.cursor() as u32),
    {
        LauncherRequest::Complete(self.selected as u32)
    }

    /// Applies the response to a completion: a fill puts the cursor back on
    /// the first slot and returns the text that replaces the input, which
    /// the caller then searches for; anything else changes nothing.
    pub fn apply_complete(&mut self, response: Result<LauncherResponse, TransportError>) -> (r:
        Option<String>)
        requires
            old(self).wf(),
        ensures
            final(self).wf(),
            final(self).items() == old(self).items(),
            final(self).query() == old(self).query(),
            if response is Ok && response->Ok_0 is Fill {
                &&& r == Some(response->Ok_0->Fill_0)
                &&& final(self).cursor() == 0
            } else {
                &&& r is None
                &&& final(self).cursor() == old(self).cursor()
            },
    {
        match response {
            Ok(LauncherResponse::Fill(text)) => {
                self.selected = 0;
                Some(text)
            },
            _ => None,
        }
    }

    /// The request to launch the result in the slot under the cursor.
    pub fn activate(&self) -> (r: LauncherRequest)
        requires
            self.wf(),
        ensures
            r == LauncherRequest::Activate(self.cursor() as u32),
    {
        LauncherRequest::Activate(self.selected as u32)
    }

    /// Reacts to a key: escape closes the launcher, tab asks to complete
    /// from the slot under the cursor, the arrows move the cursor, and any
    /// other key is left to the input.
    pub fn key_press(&mut self, key: LauncherKey) -> (r: KeyAction)
        requires
            old(self).wf(),
        ensures
            key_step(*old(self), key, *final(self), r),
    {
        match key {
            LauncherKey::Escape => KeyAction::Close,
            LauncherKey::Tab => KeyAction::Send(self.complete()),
            LauncherKey::Up => {
                self.key_up();
                KeyAction::Handled
            },
            LauncherKey::Down => {
                self.key_down();
                KeyAction::Handled
            },
            LauncherKey::Other => KeyAction::Ignored,
        }
    }
}

/// The desktop entry that a response to an activation asks to launch.
pub fn entry_to_launch(response: &Result<LauncherResponse, TransportError>) -> (r: Option<String>)
    ensures
        if *response is Ok && response->Ok_0 is DesktopEntry {
            r == Some(response->Ok_0->DesktopEntry_path)
        } else {
            r is None
        },
{
    match response {
        Ok(LauncherResponse::DesktopEntry { path, .. }) => Some(path.clone()),
        _ => None,
    }
}

/// The launcher overlay: closed, or open with the state of its slots.
///
/// The link to the backend lives apart from it and outlasts it: closing the
/// launcher only drops this state.
#[derive(Debug)]
pub struct LauncherSession {
    ui: Option<LauncherUi>,
}

impl LauncherSession {
    pub closed spec fn state(&self) -> Option<LauncherUi> {
        self.ui
    }

    /// An open launcher is well formed.
    pub open spec fn wf(&self) -> bool {
        self.state() is Some ==> self.state()->0.wf()
    }

    /// A closed launcher.
    pub fn new() -> (r: LauncherSession)
        ensures
            r.wf(),
            r.state() is None,
    {
        LauncherSession { ui: None }
    }

    pub fn is_open(&self) -> (r: bool)
        ensures
            r == self.state() is Some,
    {
        self.ui.is_some()
    }

    /// The state of the open launcher, for drawing it.
    pub fn ui(&self) -> (r: Option<&LauncherUi>)
        ensures
            match self.state() {
                Some(ui) => r is Some && *r->0 == ui,
                None => r is None,
            },
    {
        match &self.ui {
            Some(ui) => Some(ui),
            None => None,
        }
    }

    /// Opens a closed launcher, with every slot empty and the cursor on the
    /// first one, or closes an open one. Returns whether it is open now.
    pub fn toggle(&mut self) -> (r: bool)
        requires
            old(self).wf(),
        ensures
            final(self).wf(),
            r == (old(self).state() is None),
            r == (final(self).state() is Some),
            r ==> {
                &&& final(self).state()->0.cursor() == 0
                &&& final(self).state()->0.query().len() == 0
                &&& forall|i: int|
                    0 <= i < SLOT_COUNT ==> is_blank(#[trigger] final(self).state()->0.items()[i])
            },
    {
        if self.ui.is_some() {
            self.ui = None;
            false
        } else {
            self.ui = Some(LauncherUi::new());
            true
        }
    }

    /// Reacts to a key on the open launcher; escape closes it. A closed
    /// launcher ignores keys.
    pub fn key_press(&mut self, key: LauncherKey) -> (r: KeyAction)
        requires
            old(self).wf(),
        ensures
            final(self).wf(),
            match old(self).state() {
                None => final(self).state() is None && r == KeyAction::Ignored,
                Some(ui) => if key == LauncherKey::Escape {
                    final(self).state() is None && r == KeyAction::Close
                } else {
                    final(self).state() is Some && key_step(ui, key, final(self).state()->0, r)
                },
            },
    {
        match self.ui {
            None => KeyAction::Ignored,
            Some(ref mut ui) => {
                let action = ui.key_press(key);
                if key == LauncherKey::Escape {
                    self.ui = None;
                }
                action
            },
        }
    }

    /// The input text changed: returns the search to send, where the
    /// launcher is open.
    pub fn text_changed(&mut self, text: String) -> (r: Option<LauncherRequest>)
        requires
            old(self).wf(),
        ensures
            final(self).wf(),
            match old(self).state() {
                None => final(self).state() is None && r is None,
                Some(ui) => {
                    let next = final(self).state()->0;
                    &&& final(self).state() is Some
                    &&& next.cursor() == ui.cursor()
                    &&& next.query() == text@
                    &&& forall|i: int| 0 <= i < SLOT_COUNT ==> is_blank(#[trigger] next.items()[i])
                    &&& r == Some(LauncherRequest::Search(text))
                },
            },
    {
        match self.ui {
            None => None,
            Some(ref mut ui) => Some(ui.search(text)),
        }
    }

    /// Applies the response to the search for `text`, where the launcher is
    /// open; returns the ids of the results left out.
    pub fn search_response(
        &mut self,
        text: &String,
        response: Result<LauncherResponse, TransportError>,
    ) -> (dropped: Vec<u32>)
        requires
            old(self).wf(),
        ensures
            final(self).wf(),
            match old(self).state() {
                None => final(self).state() is None && dropped@.len() == 0,
                Some(ui) => {
                    let next = final(self).state()->0;
                    &&& final(self).state() is Some
                    &&& next.cursor() == ui.cursor()
                    &&& next.query() == ui.query()
                    &&& if text@ == ui.query() && response is Ok && response->Ok_0 is Update {
                        &&& next.items() == apply_results(ui.items(), response->Ok_0->Update_0@)
                        &&& dropped@ == dropped_ids(response->Ok_0->Update_0@, SLOT_COUNT as int)
                    } else {
                        &&& next.items() == ui.items()
                        &&& dropped@.len() == 0
                    }
                },
            },
    {
        match self.ui {
            None => Vec::new(),
            Some(ref mut ui) => ui.apply_search(text, response),
        }
    }

    /// Applies the response to a completion, where the launcher is open;
    /// returns the text that replaces the input.
    pub fn complete_response(&mut self, response: Result<LauncherResponse, TransportError>) -> (r:
        Option<String>)
        requires
            old(self).wf(),
        ensures
            final(self).wf(),
            match old(self).state() {
                None => final(self).state() is None && r is None,
                Some(ui) => {
                    let next = final(self).state()->0;
                    &&& final(self).state() is Some
                    &&& next.items() == ui.items()
                    &&& next.query() == ui.query()
                    &&& if response is Ok && response->Ok_0 is Fill {
                        r == Some(response->Ok_0->Fill_0) && next.cursor() == 0
                    } else {
                        r is None && next.cursor() == ui.cursor()
                    }
                },
            },
    {
        match self.ui {
            None => None,
            Some(ref mut ui) => ui.apply_complete(response),
        }
    }

    /// The request to launch the result under the cursor, where the
    /// launcher is open.
    pub fn activate(&self) -> (r: Option<LauncherRequest>)
        requires
            self.wf(),
        ensures
            match self.state() {
                None => r is None,
                Some(ui) => r == Some(LauncherRequest::Activate(ui.cursor() as u32)),
            },
    {
        match &self.ui {
            None => None,
            Some(ui) => Some(ui.activate()),
        }
    }

    /// Applies the response to an activation: the launcher closes whatever
    /// came back, and the desktop entry to launch, if any, is returned.
    pub fn activate_response(&mut self, response: &Result<LauncherResponse, TransportError>) -> (r:
        Option<String>)
        ensures
            final(self).wf(),
            final(self).state() is None,
            if old(self).state() is Some && *response is Ok && response->Ok_0 is DesktopEntry {
                r == Some(response->Ok_0->DesktopEntry_path)
            } else {
                r is None
            },
    {
        let was_open = self.ui.is_some();
        self.ui = None;
        if was_open {
            entry_to_launch(response)
        } else {
            None
        }
    }
}

} // verus!
