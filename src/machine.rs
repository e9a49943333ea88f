use vstd::prelude::*;

use crate::item::{items_view, ItemModel, TodoItem};
use crate::text::{pop_char, push_char};

verus! {

/// The single active mode; which keys mean what depends on it.
#[derive(Clone, Copy, Debug, PartialEq, Eq, Structural)]
pub enum Mode {
    Browsing,
    Adding,
    Editing,
    ConfirmingDelete,
    Viewing,
}

/// Which draft field receives typed characters.
#[derive(Clone, Copy, Debug, PartialEq, Eq, Structural)]
pub enum Focus {
    Name,
    Description,
}

/// A logical key press, independent of any terminal library.
#[derive(Clone, Copy, Debug, PartialEq, Eq, Structural)]
pub enum Key {
    Char(char),
    Backspace,
    Enter,
    Esc,
    Tab,
    Other,
}

/// What the event loop must do after a key has been handled.
#[derive(Clone, Copy, Debug, PartialEq, Eq, Structural)]
pub enum Effect {
    /// Nothing beyond redrawing.
    Continue,
    /// The collection changed: save it before reading the next key.
    Persist,
    /// Leave the event loop.
    Quit,
}

/// The whole application state as a mathematical value.
pub struct AppModel {
    pub items: Seq<ItemModel>,
    pub selected: Option<int>,
    pub mode: Mode,
    pub name_draft: Seq<char>,
    pub description_draft: Seq<char>,
    pub focus: Focus,
}

impl AppModel {
    /// The draft buffer is empty and its focus is on the name.
    pub open spec fn draft_is_clear(self) -> bool {
        &&& self.name_draft.len() == 0
        &&& self.description_draft.len() == 0
        &&& self.focus == Focus::Name
    }

    /// A selection, if any, points into the list; the modes that act on an
    /// item have one; outside the two forms the draft buffer is clear.
    pub open spec fn wf(self) -> bool {
        &&& (self.items.len() == 0 ==> self.selected is None)
        &&& (self.selected matches Some(i) ==> 0 <= i < self.items.len())
        &&& (self.mode == Mode::Editing || self.mode == Mode::ConfirmingDelete || self.mode
            == Mode::Viewing) ==> self.selected is Some
        &&& (self.mode == Mode::Browsing || self.mode == Mode::ConfirmingDelete || self.mode
            == Mode::Viewing) ==> self.draft_is_clear()
    }

    /// The same state with an empty draft buffer focused on the name.
    pub open spec fn cleared(self) -> AppModel {
        AppModel { name_draft: Seq::empty(), description_draft: Seq::empty(), focus: Focus::Name, ..self }
    }

    /// The same state in another mode.
    pub open spec fn in_mode(self, mode: Mode) -> AppModel {
        AppModel { mode, ..self }
    }
}

/// The selection after moving down one place, kept inside a list of `len` items.
pub open spec fn next_selection(len: int, selected: Option<int>) -> Option<int> {
    if len == 0 {
        None
    } else {
        match selected {
            None => Some(0),
            Some(i) => Some(if i + 1 < len { i + 1 } else { len - 1 }),
        }
    }
}

/// The selection after moving up one place, kept inside a list of `len` items.
pub open spec fn previous_selection(len: int, selected: Option<int>) -> Option<int> {
    if len == 0 {
        None
    } else {
        match selected {
            None => Some(len - 1),
            Some(i) => Some(if i > 0 { i - 1 } else { 0 }),
        }
    }
}

/// Position `i` brought back inside a list of `len` items.
pub open spec fn clamp_selection(len: int, i: int) -> Option<int> {
    if len == 0 {
        None
    } else if i < len {
        Some(i)
    } else {
        Some(len - 1)
    }
}

/// A key pressed while browsing the list.
pub open spec fn browse_step(m: AppModel, k: Key) -> (AppModel, Effect) {
    match k {
        Key::Esc => (m, Effect::Quit),
        Key::Enter => if m.selected is Some {
            (m.in_mode(Mode::Viewing), Effect::Continue)
        } else {
            (m, Effect::Continue)
        },
        Key::Char(c) => if c == 'a' {
            (m.cleared().in_mode(Mode::Adding), Effect::Continue)
        } else if c == 'd' && m.selected is Some {
            (m.in_mode(Mode::ConfirmingDelete), Effect::Continue)
        } else if c == 'e' && m.selected is Some {
            let i = m.selected->0;
            (
                AppModel {
                    mode: Mode::Editing,
                    name_draft: m.items[i].name,
                    description_draft: m.items[i].description,
                    focus: Focus::Name,
                    ..m
                },
                Effect::Continue,
            )
        } else if c == 'c' && m.selected is Some {
            let i = m.selected->0;
            (
                AppModel {
                    items: m.items.update(i, ItemModel { is_done: !m.items[i].is_done, ..m.items[i] }),
                    ..m
                },
                Effect::Persist,
            )
        } else if c == 'j' {
            (AppModel { selected: next_selection(m.items.len() as int, m.selected), ..m }, Effect::Continue)
        } else if c == 'k' {
            (
                AppModel { selected: previous_selection(m.items.len() as int, m.selected), ..m },
                Effect::Continue,
            )
        } else {
            (m, Effect::Continue)
        },
        _ => (m, Effect::Continue),
    }
}

/// The state after a confirmed submission of the add or edit form.
pub open spec fn submitted(m: AppModel) -> AppModel {
    let done = m.cleared().in_mode(Mode::Browsing);
    if m.mode == Mode::Adding {
        AppModel {
            items: m.items.push(
                ItemModel { is_done: false, name: m.name_draft, description: m.description_draft },
            ),
            ..done
        }
    } else {
        match m.selected {
            Some(i) => AppModel {
                items: m.items.update(
                    i,
                    ItemModel {
                        is_done: m.items[i].is_done,
                        name: m.name_draft,
                        description: m.description_draft,
                    },
                ),
                ..done
            },
            None => done,
        }
    }
}

/// A key pressed while the add or edit form is open.
pub open spec fn form_step(m: AppModel, k: Key) -> (AppModel, Effect) {
    match k {
        Key::Char(c) => if m.focus == Focus::Name {
            (AppModel { name_draft: m.name_draft.push(c), ..m }, Effect::Continue)
        } else {
            (AppModel { description_draft: m.description_draft.push(c), ..m }, Effect::Continue)
        },
        Key::Backspace => if m.focus == Focus::Name {
            if m.name_draft.len() > 0 {
                (AppModel { name_draft: m.name_draft.drop_last(), ..m }, Effect::Continue)
            } else {
                (m, Effect::Continue)
            }
        } else {
            if m.description_draft.len() > 0 {
                (AppModel { description_draft: m.description_draft.drop_last(), ..m }, Effect::Continue)
            } else {
                (m, Effect::Continue)
            }
        },
        Key::Tab => if m.focus == Focus::Name {
            (AppModel { focus: Focus::Description, ..m }, Effect::Continue)
        } else {
            (AppModel { focus: Focus::Name, ..m }, Effect::Continue)
        },
        Key::Esc => (m.cleared().in_mode(Mode::Browsing), Effect::Continue),
        Key::Enter => if m.name_draft.len() == 0 {
            (m, Effect::Continue)
        } else {
            (submitted(m), Effect::Persist)
        },
        Key::Other => (m, Effect::Continue),
    }
}

/// A key pressed while the delete prompt is shown.
pub open spec fn delete_step(m: AppModel, k: Key) -> (AppModel, Effect) {
    if k == Key::Char('y') {
        match m.selected {
            Some(i) => (
                AppModel {
                    items: m.items.remove(i),
                    selected: clamp_selection(m.items.len() - 1, i),
                    mode: Mode::Browsing,
                    ..m
                },
                Effect::Persist,
            ),
            None => (m.in_mode(Mode::Browsing), Effect::Continue),
        }
    } else if k == Key::Char('n') {
        (m.in_mode(Mode::Browsing), Effect::Continue)
    } else {
        (m, Effect::Continue)
    }
}

/// A key pressed while one item is shown in full.
pub open spec fn view_step(m: AppModel, k: Key) -> (AppModel, Effect) {
    if k == Key::Esc {
        (m.in_mode(Mode::Browsing), Effect::Continue)
    } else {
        (m, Effect::Continue)
    }
}

/// The transition table: the next state and the effect of one key.
pub open spec fn step(m: AppModel, k: Key) -> (AppModel, Effect) {
    match m.mode {
        Mode::Browsing => browse_step(m, k),
        Mode::Adding => form_step(m, k),
        Mode::Editing => form_step(m, k),
        Mode::ConfirmingDelete => delete_step(m, k),
        Mode::Viewing => view_step(m, k),
    }
}

/// The running application: the list, the highlighted position, the mode
/// and the draft buffer of the add and edit forms.
pub struct AppState {
    items: Vec<TodoItem>,
    selected: Option<usize>,
    mode: Mode,
    name_draft: String,
    description_draft: String,
    focus: Focus,
}

impl View for AppState {
    type V = AppModel;

    closed spec fn view(&self) -> AppModel {
        AppModel {
            items: items_view(self.items@),
            selected: match self.selected {
                Some(i) => Some(i as int),
                None => None,
            },
            mode: self.mode,
            name_draft: self.name_draft@,
            description_draft: self.description_draft@,
            focus: self.focus,
        }
    }
}

impl AppState {
    pub open spec fn wf(&self) -> bool {
        self@.wf()
    }

    /// A browsing state over `items`, with nothing highlighted.
    pub fn new(items: Vec<TodoItem>) -> (r: AppState)
        ensures
            r.wf(),
            r@ == (AppModel {
                items: items_view(items@),
                selected: None,
                mode: Mode::Browsing,
                name_draft: Seq::empty(),
                description_draft: Seq::empty(),
                focus: Focus::Name,
            }),
    {
        AppState {
            items,
            selected: None,
            mode: Mode::Browsing,
            name_draft: String::new(),
            description_draft: String::new(),
            focus: Focus::Name,
        }
    }

    /// The list, in display order.
    pub fn items(&self) -> (r: &Vec<TodoItem>)
        ensures
            items_view(r@) == self@.items,
    {
        &self.items
    }

    /// The highlighted position, if any.
    pub fn selected(&self) -> (r: Option<usize>)
        ensures
            r matches Some(i) ==> self@.selected == Some(i as int),
            r is None ==> self@.selected is None,
    {
        self.selected
    }

    /// The active mode.
    pub fn mode(&self) -> (r: Mode)
        ensures
            r == self@.mode,
    {
        self.mode
    }

    /// The name field of the draft buffer.
    pub fn name_draft(&self) -> (r: &String)
        ensures
            r@ == self@.name_draft,
    {
        &self.name_draft
    }

    /// The description field of the draft buffer.
    pub fn description_draft(&self) -> (r: &String)
        ensures
            r@ == self@.description_draft,
    {
        &self.description_draft
    }

    /// The draft field that receives typed characters.
    pub fn focus(&self) -> (r: Focus)
        ensures
            r == self@.focus,
    {
        self.focus
    }

    /// Empties the draft buffer and puts the focus on the name.
    fn clear_draft(&mut self)
        ensures
            final(self)@ == old(self)@.cleared(),
    {
        self.name_draft = String::new();
        self.description_draft = String::new();
        self.focus = Focus::Name;
        proof {
            assert(self@.name_draft =~= Seq::<char>::empty());
            assert(self@.description_draft =~= Seq::<char>::empty());
        }
    }

    /// Handles a key while browsing the list.
    pub fn handle_key(&mut self, k: Key) -> (r: Effect)
        requires
            old(self).wf(),
            old(self)@.mode == Mode::Browsing,
        ensures
            (final(self)@, r) == browse_step(old(self)@, k),
    {
        let ghost m = self@;
        match k {
            Key::Esc => Effect::Quit,
            Key::Enter => {
                if self.selected.is_some() {
                    self.mode = Mode::Viewing;
                }
                Effect::Continue
            },
            Key::Char(c) => {
                if c == 'a' {
                    self.clear_draft();
                    self.mode = Mode::Adding;
                    Effect::Continue
                } else if c == 'd' && self.selected.is_some() {
                    self.mode = Mode::ConfirmingDelete;
                    Effect::Continue
                } else if c == 'e' && self.selected.is_some() {
                    let i = self.selected.unwrap();
                    self.name_draft = self.items[i].name.clone();
                    self.description_draft = self.items[i].description.clone();
                    self.focus = Focus::Name;
                    self.mode = Mode::Editing;
                    Effect::Continue
                } else if c == 'c' && self.selected.is_some() {
                    let i = self.selected.unwrap();
                    let flipped = self.items[i].with_done(!self.items[i].is_done);
                    self.items.set(i, flipped);
                    proof {
                        assert(self@.items =~= m.items.update(
                            i as int,
                            ItemModel { is_done: !m.items[i as int].is_done, ..m.items[i as int] },
                        ));
                    }
                    Effect::Persist
                } else if c == 'j' {
                    self.select_next();
                    Effect::Continue
                } else if c == 'k' {
                    self.select_previous();
                    Effect::Continue
                } else {
                    Effect::Continue
                }
            },
            _ => Effect::Continue,
        }
    }

    /// Moves the highlight down one place, stopping at the last item.
    fn select_next(&mut self)
        requires
            old(self).wf(),
        ensures
            final(self)@ == (AppModel {
                selected: next_selection(old(self)@.items.len() as int, old(self)@.selected),
                ..old(self)@
            }),
    {
        let len = self.items.len();
        if len > 0 {
            self.selected = match self.selected {
                None => Some(0),
                Some(i) => Some(if i + 1 < len { i + 1 } else { len - 1 }),
            };
        }
    }

    /// Moves the highlight up one place, stopping at the first item.
    fn select_previous(&mut self)
        requires
            old(self).wf(),
        ensures
            final(self)@ == (AppModel {
                selected: previous_selection(old(self)@.items.len() as int, old(self)@.selected),
                ..old(self)@
            }),
    {
        let len = self.items.len();
        if len > 0 {
            self.selected = match self.selected {
                None => Some(len - 1),
                Some(i) => Some(if i > 0 { i - 1 } else { 0 }),
            };
        }
    }

    /// Handles a key that the add and edit forms treat alike: typing,
    /// erasing, switching the focus, cancelling and submitting. A submission
    /// with an empty name is refused and changes nothing.
    fn handle_form(&mut self, k: Key) -> (r: Effect)
        requires
            old(self).wf(),
            old(self)@.mode == Mode::Adding || old(self)@.mode == Mode::Editing,
        ensures
            (final(self)@, r) == form_step(old(self)@, k),
    {
        let ghost m = self@;
        match k {
            Key::Char(c) => {
                if self.focus == Focus::Name {
                    push_char(&mut self.name_draft, c);
                } else {
                    push_char(&mut self.description_draft, c);
                }
                Effect::Continue
            },
            Key::Backspace => {
                if self.focus == Focus::Name {
                    pop_char(&mut self.name_draft);
                } else {
                    pop_char(&mut self.description_draft);
                }
                proof {
                    if m.focus == Focus::Name && m.name_draft.len() == 0 {
                        assert(self@ == m);
                    }
                    if m.focus == Focus::Description && m.description_draft.len() == 0 {
                        assert(self@ == m);
                    }
                }
                Effect::Continue
            },
            Key::Tab => {
                if self.focus == Focus::Name {
                    self.focus = Focus::Description;
                } else {
                    self.focus = Focus::Name;
                }
                Effect::Continue
            },
            Key::Esc => {
                self.clear_draft();
                self.mode = Mode::Browsing;
                Effect::Continue
            },
            Key::Enter => {
                if self.name_draft.as_str().is_empty() {
                    Effect::Continue
                } else {
                    self.submit();
                    Effect::Persist
                }
            },
            Key::Other => Effect::Continue,
        }
    }

    /// Commits the draft: appends a new item when adding, overwrites the
    /// selected item's name and description when editing; then clears the
    /// draft and goes back to browsing.
    fn submit(&mut self)
        requires
            old(self).wf(),
            old(self)@.mode == Mode::Adding || old(self)@.mode == Mode::Editing,
        ensures
            final(self)@ == submitted(old(self)@),
    {
        let ghost m = self@;
        let name = self.name_draft.clone();
        let description = self.description_draft.clone();
        if self.mode == Mode::Adding {
            self.items.push(TodoItem::new(false, name, description));
            proof {
                assert(items_view(self.items@) =~= m.items.push(
                    ItemModel { is_done: false, name: m.name_draft, description: m.description_draft },
                ));
            }
        } else {
            match self.selected {
                Some(i) => {
                    let is_done = self.items[i].is_done;
                    self.items.set(i, TodoItem::new(is_done, name, description));
                    proof {
                        assert(items_view(self.items@) =~= m.items.update(
                            i as int,
                            ItemModel {
                                is_done: m.items[i as int].is_done,
                                name: m.name_draft,
                                description: m.description_draft,
                            },
                        ));
                    }
                },
                None => {},
            }
        }
        self.clear_draft();
        self.mode = Mode::Browsing;
    }

    /// Handles a key while the add form is open.
    pub fn handle_add_new(&mut self, k: Key) -> (r: Effect)
        requires
            old(self).wf(),
            old(self)@.mode == Mode::Adding,
        ensures
            (final(self)@, r) == form_step(old(self)@, k),
    {
        self.handle_form(k)
    }

    /// Handles a key while the edit form is open.
    pub fn handle_edit(&mut self, k: Key) -> (r: Effect)
        requires
            old(self).wf(),
            old(self)@.mode == Mode::Editing,
        ensures
            (final(self)@, r) == form_step(old(self)@, k),
    {
        self.handle_form(k)
    }

    /// Handles a key while the delete prompt is shown: `y` removes the
    /// selected item and keeps the highlight inside the shorter list, `n`
    /// goes back without change.
    pub fn handle_delete(&mut self, k: Key) -> (r: Effect)
        requires
            old(self).wf(),
            old(self)@.mode == Mode::ConfirmingDelete,
        ensures
            (final(self)@, r) == delete_step(old(self)@, k),
    {
        let ghost m = self@;
        if k == Key::Char('y') {
            match self.selected {
                Some(i) => {
                    self.items.remove(i);
                    let len = self.items.len();
                    self.selected = if len == 0 {
                        None
                    } else if i < len {
                        Some(i)
                    } else {
                        Some(len - 1)
                    };
                    self.mode = Mode::Browsing;
                    proof {
                        assert(items_view(self.items@) =~= m.items.remove(i as int));
                    }
                    Effect::Persist
                },
                None => {
                    self.mode = Mode::Browsing;
                    Effect::Continue
                },
            }
        } else if k == Key::Char('n') {
            self.mode = Mode::Browsing;
            Effect::Continue
        } else {
            Effect::Continue
        }
    }

    /// Handles a key while one item is shown in full: `Esc` closes it.
    pub fn handle_open(&mut self, k: Key) -> (r: Effect)
        requires
            old(self).wf(),
            old(self)@.mode == Mode::Viewing,
        ensures
            (final(self)@, r) == view_step(old(self)@, k),
    {
        if k == Key::Esc {
            self.mode = Mode::Browsing;
        }
        Effect::Continue
    }

    /// Handles one key in whatever mode is active.
    pub fn handle_input(&mut self, k: Key) -> (r: Effect)
        requires
            old(self).wf(),
        ensures
            (final(self)@, r) == step(old(self)@, k),
            final(self).wf(),
    {
        proof {
            lemma_step_preserves_wf(self@, k);
        }
        match self.mode {
            Mode::Browsing => self.handle_key(k),
            Mode::Adding => self.handle_add_new(k),
            Mode::Editing => self.handle_edit(k),
            Mode::ConfirmingDelete => self.handle_delete(k),
            Mode::Viewing => self.handle_open(k),
        }
    }
}

/// Every transition keeps the state well formed: a selection stays inside the
/// list, the modes that act on an item keep one, and no draft text survives
/// outside the forms. With the mode a single value, exactly one mode holds
/// at every point of any sequence of keys.
pub proof fn lemma_step_preserves_wf(m: AppModel, k: Key)
    requires
        m.wf(),
    ensures
        step(m, k).0.wf(),
{
}

/// Submitting the add form with an empty name is refused: the mode, the
/// list, the selection and the draft buffer all stay as they were, and
/// nothing is saved.
pub proof fn lemma_add_rejects_empty_name(m: AppModel)
    requires
        m.wf(),
        m.mode == Mode::Adding,
        m.name_draft.len() == 0,
    ensures
        step(m, Key::Enter) == (m, Effect::Continue),
{
}

/// Confirming the deletion of the last item of a list of two or more leaves
/// the highlight on the new last item.
pub proof fn lemma_delete_last_reclamps(m: AppModel)
    requires
        m.wf(),
        m.mode == Mode::ConfirmingDelete,
        m.items.len() >= 2,
        m.selected == Some(m.items.len() - 1),
    ensures
        step(m, Key::Char('y')).0.items == m.items.drop_last(),
        step(m, Key::Char('y')).0.selected == Some(m.items.len() - 2),
        step(m, Key::Char('y')).0.mode == Mode::Browsing,
        step(m, Key::Char('y')).1 == Effect::Persist,
{
    assert(m.items.remove(m.items.len() - 1) =~= m.items.drop_last());
}

/// Deleting never leaves the highlight past the end of the list.
pub proof fn lemma_delete_keeps_selection_in_range(m: AppModel)
    requires
        m.wf(),
        m.mode == Mode::ConfirmingDelete,
    ensures
        ({
            let n = step(m, Key::Char('y')).0;
            &&& n.items.len() == m.items.len() - 1
            &&& (n.selected matches Some(j) ==> 0 <= j < n.items.len())
            &&& (n.items.len() == 0 <==> n.selected is None)
        }),
{
}

/// Completing the same item twice while browsing gives back the state one
/// started from; each press asks for a save, and the first save sees the
/// item with its flag flipped.
pub proof fn lemma_toggle_twice(m: AppModel)
    requires
        m.wf(),
        m.mode == Mode::Browsing,
        m.selected is Some,
    ensures
        ({
            let (once, e1) = step(m, Key::Char('c'));
            let (twice, e2) = step(once, Key::Char('c'));
            let i = m.selected->0;
            &&& e1 == Effect::Persist
            &&& e2 == Effect::Persist
            &&& once.items[i].is_done == !m.items[i].is_done
            &&& twice == m
        }),
{
    let i = m.selected->0;
    let once = step(m, Key::Char('c')).0;
    let twice = step(once, Key::Char('c')).0;
    assert(twice.items =~= m.items);
}

/// Submitting the edit form of the item at position `i` with a non-empty
/// name changes that item's name and description to the draft, keeps its
/// flag, and leaves every other item and the order of the list as it was.
pub proof fn lemma_edit_preserves_identity(m: AppModel, i: int)
    requires
        m.wf(),
        m.mode == Mode::Editing,
        m.selected == Some(i),
        m.name_draft.len() > 0,
    ensures
        ({
            let n = step(m, Key::Enter).0;
            &&& n.items.len() == m.items.len()
            &&& n.items[i] == (ItemModel {
                is_done: m.items[i].is_done,
                name: m.name_draft,
                description: m.description_draft,
            })
            &&& forall|j: int| 0 <= j < m.items.len() && j != i ==> n.items[j] == m.items[j]
            &&& n.selected == m.selected
            &&& n.mode == Mode::Browsing
            &&& n.draft_is_clear()
        }),
{
}

/// Submitting the add form with a non-empty name appends one undone item
/// built from the draft at the end of the list, asks for a save, clears the
/// draft and goes back to browsing.
pub proof fn lemma_add_appends(m: AppModel)
    requires
        m.wf(),
        m.mode == Mode::Adding,
        m.name_draft.len() > 0,
    ensures
        ({
            let (n, e) = step(m, Key::Enter);
            &&& e == Effect::Persist
            &&& n.items == m.items.push(
                ItemModel { is_done: false, name: m.name_draft, description: m.description_draft },
            )
            &&& n.mode == Mode::Browsing
            &&& n.draft_is_clear()
            &&& n.selected == m.selected
        }),
{
}

} // verus!
