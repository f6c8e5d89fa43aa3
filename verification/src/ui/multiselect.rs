use vstd::prelude::*;
use crate::text::{
    chars_of, contains_chars, contains_seq, is_blank, lowercase, str_eq, string_from_chars,
    to_lowercase, trim, trim_chars,
};

verus! {

/// One choice of a multi-select box.
#[derive(Debug, Clone)]
pub struct MultiselectChild {
    pub id: usize,
    pub name: String,
    pub selected: bool,
}

/// What the box is given: its choices, and whether someone listens for new
/// entries and for toggles.
pub struct MultiselectProps {
    pub children: Vec<MultiselectChild>,
    pub has_create_callback: bool,
    pub has_toggle_callback: bool,
}

/// The state of the box: focus, whether the drop-down is open, and which
/// entry of the drop-down is highlighted.
#[derive(Debug, Clone, Copy, PartialEq, Eq, Structural)]
pub struct MultiselectState {
    pub is_focused: bool,
    pub is_opened: bool,
    pub selected_index: usize,
}

/// What the box receives.
#[derive(Debug, Clone)]
pub enum MultiselectMsg {
    Update,
    Ignore,
    OnUnfocus,
    OnFocus,
    SetFocus,
    OnSelectItem(usize),
    OnUnselectItem(usize),
    OnCreate,
    OnHover(usize),
    OnKeyDown(String),
    OnPressEnter,
    OnInputChange(String),
}

/// What the box asks its surroundings to do, in order.
#[derive(Debug, Clone)]
pub enum MultiselectAction {
    /// Report that the choice `id` was turned on (`true`) or off.
    Toggle(bool, usize),
    /// Empty the text field.
    ClearInput,
    /// Report a new entry with this name.
    Create(String),
    /// Move the keyboard focus to the text field.
    FocusInput,
}

/// The view of an action.
pub ghost enum ActionView {
    Toggle(bool, usize),
    ClearInput,
    Create(Seq<char>),
    FocusInput,
}

pub open spec fn action_view(a: MultiselectAction) -> ActionView {
    match a {
        MultiselectAction::Toggle(b, id) => ActionView::Toggle(b, id),
        MultiselectAction::ClearInput => ActionView::ClearInput,
        MultiselectAction::Create(s) => ActionView::Create(s@),
        MultiselectAction::FocusInput => ActionView::FocusInput,
    }
}

pub open spec fn actions_view(a: Seq<MultiselectAction>) -> Seq<ActionView> {
    a.map_values(|x: MultiselectAction| action_view(x))
}

/// A choice shows in the drop-down: it is not chosen, and its name holds the
/// typed text (both in lower case).
pub open spec fn child_viewable(c: MultiselectChild, input: Option<Seq<char>>) -> bool {
    (match input {
        Some(v) => contains_seq(lowercase(c.name@), lowercase(v)),
        None => true,
    }) && !c.selected
}

/// The choices that show in the drop-down, in order.
pub open spec fn viewable(children: Seq<MultiselectChild>, input: Option<Seq<char>>) -> Seq<
    MultiselectChild,
>
    decreases children.len(),
{
    if children.len() == 0 {
        Seq::empty()
    } else {
        let rest = viewable(children.drop_last(), input);
        if child_viewable(children.last(), input) {
            rest.push(children.last())
        } else {
            rest
        }
    }
}

/// The first position at or after `i` of a choice with id `id`.
pub open spec fn find_child(list: Seq<MultiselectChild>, id: usize, i: int) -> Option<int>
    decreases list.len() - i,
{
    if i < 0 || i >= list.len() {
        None
    } else if list[i].id == id {
        Some(i)
    } else {
        find_child(list, id, i + 1)
    }
}

/// The text a new entry would get: the typed text, trimmed, unless blank.
pub open spec fn create_value(input: Option<Seq<char>>) -> Option<Seq<char>> {
    match input {
        Some(v) => if is_blank(v) {
            None
        } else {
            Some(trim(v))
        },
        None => None,
    }
}

/// Whether the drop-down is open: the box has focus, and there are choices or
/// typed text.
pub open spec fn opened(focused: bool, children_len: nat, input: Option<Seq<char>>) -> bool {
    focused && (children_len != 0 || match input {
        Some(v) => !is_blank(v),
        None => false,
    })
}

/// The actions of turning choice `id` on or off: a report, when a listener is
/// there and some choice has that id.
pub open spec fn toggle_actions(children: Seq<MultiselectChild>, has_cb: bool, on: bool, id: usize) -> Seq<
    ActionView,
> {
    if has_cb && find_child(children, id, 0) is Some {
        seq![ActionView::Toggle(on, id)]
    } else {
        Seq::empty()
    }
}

/// The actions of creating an entry from the typed text.
pub open spec fn create_actions(input: Option<Seq<char>>, has_cb: bool) -> Seq<ActionView> {
    match create_value(input) {
        Some(v) => if has_cb {
            seq![ActionView::ClearInput, ActionView::Create(v)]
        } else {
            Seq::empty()
        },
        None => Seq::empty(),
    }
}

/// The typed text after the actions: emptied when they empty it.
pub open spec fn input_after(input: Option<Seq<char>>, actions: Seq<ActionView>) -> Option<Seq<char>> {
    if actions.contains(ActionView::ClearInput) {
        Some(Seq::empty())
    } else {
        input
    }
}

pub open spec fn is_arrow_up(key: Seq<char>) -> bool {
    key == "ArrowUp"@
}

pub open spec fn is_arrow_down(key: Seq<char>) -> bool {
    key == "ArrowDown"@
}

/// The highlighted entry after a key press.
pub open spec fn key_down_index(sel: usize, count: nat, input: Option<Seq<char>>, key: Seq<char>) -> usize {
    if is_arrow_up(key) {
        if sel != 0 {
            (sel - 1) as usize
        } else {
            sel
        }
    } else if is_arrow_down(key) {
        let cc: nat = if create_value(input) is Some {
            count
        } else if count == 0 {
            0
        } else {
            (count - 1) as nat
        };
        if cc > sel {
            (sel + 1) as usize
        } else {
            cc as usize
        }
    } else {
        sel
    }
}

/// The highlighted entry, the rerender flag and the actions after one
/// message: the state machine of the multi-select box.
pub open spec fn step(
    s: MultiselectState,
    children: Seq<MultiselectChild>,
    has_create: bool,
    has_toggle: bool,
    input: Option<Seq<char>>,
    msg: MultiselectMsg,
) -> (MultiselectState, bool, Seq<ActionView>) {
    let vis = viewable(children, input);
    let count = vis.len();
    if msg is Ignore {
        (s, false, Seq::empty())
    } else {
        let (focused, sel, actions): (bool, usize, Seq<ActionView>) = match msg {
            MultiselectMsg::OnHover(id) => if id != 0 {
                match find_child(vis, id, 0) {
                    Some(k) => (s.is_focused, k as usize, Seq::empty()),
                    None => (s.is_focused, s.selected_index, Seq::empty()),
                }
            } else {
                (s.is_focused, count as usize, Seq::empty())
            },
            MultiselectMsg::OnInputChange(key) => if !is_arrow_up(key@) && !is_arrow_down(key@) {
                (s.is_focused, 0usize, Seq::empty())
            } else {
                (s.is_focused, s.selected_index, Seq::empty())
            },
            MultiselectMsg::OnPressEnter => if s.selected_index < count {
                (
                    s.is_focused,
                    s.selected_index,
                    toggle_actions(children, has_toggle, true, vis[s.selected_index as int].id),
                )
            } else {
                (s.is_focused, s.selected_index, create_actions(input, has_create))
            },
            MultiselectMsg::OnKeyDown(key) => (
                s.is_focused,
                key_down_index(s.selected_index, count, input, key@),
                Seq::empty(),
            ),
            MultiselectMsg::OnSelectItem(id) => (
                s.is_focused,
                s.selected_index,
                toggle_actions(children, has_toggle, true, id),
            ),
            MultiselectMsg::OnUnselectItem(id) => (
                s.is_focused,
                s.selected_index,
                toggle_actions(children, has_toggle, false, id),
            ),
            MultiselectMsg::OnCreate => (
                s.is_focused,
                s.selected_index,
                create_actions(input, has_create),
            ),
            MultiselectMsg::SetFocus => (
                s.is_focused,
                s.selected_index,
                if input is Some {
                    seq![ActionView::FocusInput]
                } else {
                    Seq::empty()
                },
            ),
            MultiselectMsg::OnFocus => (true, s.selected_index, Seq::empty()),
            MultiselectMsg::OnUnfocus => (false, 0usize, Seq::empty()),
            _ => (s.is_focused, s.selected_index, Seq::empty()),
        };
        (
            MultiselectState {
                is_focused: focused,
                is_opened: opened(focused, children.len(), input_after(input, actions)),
                selected_index: sel,
            },
            true,
            actions,
        )
    }
}

/// The view of the typed text.
pub open spec fn input_view(input: Option<String>) -> Option<Seq<char>> {
    match input {
        Some(v) => Some(v@),
        None => None,
    }
}

proof fn lemma_find_child_ids(vis: Seq<MultiselectChild>, ids: Seq<usize>, id: usize, i: int)
    requires
        ids.len() == vis.len(),
        forall|k: int| 0 <= k < vis.len() ==> ids[k] == vis[k].id,
        0 <= i,
    ensures
        find_child(vis, id, i) == crate::book_edit::find_first(ids, id, i),
    decreases vis.len() - i,
{
    if i < vis.len() {
        lemma_find_child_ids(vis, ids, id, i + 1);
    }
}

fn child_shows(c: &MultiselectChild, lower_input: &Option<Vec<char>>, input: &Option<String>) -> (res: bool)
    requires
        match (*lower_input, *input) {
            (Some(l), Some(v)) => l@ == lowercase(v@),
            (None, None) => true,
            _ => false,
        },
    ensures
        res == child_viewable(*c, input_view(*input)),
{
    if c.selected {
        return false;
    }
    match lower_input {
        Some(l) => {
            let name = to_lowercase(c.name.as_str());
            let name_chars = chars_of(name.as_str());
            contains_chars(&name_chars, l)
        },
        None => true,
    }
}

/// The ids of the choices that show in the drop-down, in order.
fn viewable_ids(children: &Vec<MultiselectChild>, input: &Option<String>) -> (res: Vec<usize>)
    ensures
        res@.len() == viewable(children@, input_view(*input)).len(),
        forall|k: int|
            0 <= k < res@.len() ==> res@[k] == #[trigger] viewable(children@, input_view(*input))[k].id,
{
    let lower_input: Option<Vec<char>> = match input {
        Some(v) => {
            let l = to_lowercase(v.as_str());
            Some(chars_of(l.as_str()))
        },
        None => None,
    };
    let ghost inp = input_view(*input);
    let mut res: Vec<usize> = Vec::new();
    let mut i: usize = 0;
    while i < children.len()
        invariant
            0 <= i <= children.len(),
            inp == input_view(*input),
            match (lower_input, *input) {
                (Some(l), Some(v)) => l@ == lowercase(v@),
                (None, None) => true,
                _ => false,
            },
            res@.len() == viewable(children@.take(i as int), inp).len(),
            forall|k: int|
                0 <= k < res@.len() ==> res@[k] == #[trigger] viewable(children@.take(i as int), inp)[k].id,
        decreases children.len() - i,
    {
        let ghost before = viewable(children@.take(i as int), inp);
        assert(children@.take(i + 1).drop_last() =~= children@.take(i as int));
        assert(children@.take(i + 1).last() == children@[i as int]);
        if child_shows(&children[i], &lower_input, input) {
            res.push(children[i].id);
        }
        i = i + 1;
    }
    assert(children@.take(children.len() as int) =~= children@);
    res
}

fn position_of_id(ids: &Vec<usize>, id: usize) -> (res: Option<usize>)
    ensures
        match crate::book_edit::find_first(ids@, id, 0) {
            Some(k) => res == Some(k as usize),
            None => res is None,
        },
{
    let mut i: usize = 0;
    while i < ids.len()
        invariant
            0 <= i <= ids.len(),
            crate::book_edit::find_first(ids@, id, 0) == crate::book_edit::find_first(ids@, id, i as int),
        decreases ids.len() - i,
    {
        if ids[i] == id {
            return Some(i);
        }
        i = i + 1;
    }
    None
}

fn has_child(children: &Vec<MultiselectChild>, id: usize) -> (res: bool)
    ensures
        res == (find_child(children@, id, 0) is Some),
{
    let mut i: usize = 0;
    while i < children.len()
        invariant
            0 <= i <= children.len(),
            find_child(children@, id, 0) == find_child(children@, id, i as int),
        decreases children.len() - i,
    {
        if children[i].id == id {
            return true;
        }
        i = i + 1;
    }
    false
}

fn toggle_actions_exec(children: &Vec<MultiselectChild>, has_cb: bool, on: bool, id: usize) -> (res: Vec<MultiselectAction>)
    ensures
        actions_view(res@) == toggle_actions(children@, has_cb, on, id),
{
    let mut res: Vec<MultiselectAction> = Vec::new();
    if has_cb && has_child(children, id) {
        res.push(MultiselectAction::Toggle(on, id));
    }
    assert(actions_view(res@) =~= toggle_actions(children@, has_cb, on, id));
    res
}

fn create_actions_exec(input: &Option<String>, has_cb: bool) -> (res: Vec<MultiselectAction>)
    ensures
        actions_view(res@) == create_actions(input_view(*input), has_cb),
{
    let mut res: Vec<MultiselectAction> = Vec::new();
    if let Some(v) = input {
        let t = trim_chars(&chars_of(v.as_str()));
        if t.len() != 0 && has_cb {
            res.push(MultiselectAction::ClearInput);
            res.push(MultiselectAction::Create(string_from_chars(&t)));
        }
    }
    assert(actions_view(res@) =~= create_actions(input_view(*input), has_cb));
    res
}

fn clears_input(actions: &Vec<MultiselectAction>) -> (res: bool)
    ensures
        res == actions_view(actions@).contains(ActionView::ClearInput),
{
    let mut i: usize = 0;
    while i < actions.len()
        invariant
            0 <= i <= actions.len(),
            forall|k: int| 0 <= k < i ==> actions_view(actions@)[k] != ActionView::ClearInput,
        decreases actions.len() - i,
    {
        if let MultiselectAction::ClearInput = actions[i] {
            assert(actions_view(actions@)[i as int] == ActionView::ClearInput);
            return true;
        }
        i = i + 1;
    }
    false
}

fn has_text(input: &Option<String>) -> (res: bool)
    ensures
        res == match input_view(*input) {
            Some(v) => !is_blank(v),
            None => false,
        },
{
    match input {
        Some(v) => !crate::text::is_blank_str(v.as_str()),
        None => false,
    }
}

impl MultiselectState {
    /// No focus, closed, first entry highlighted.
    pub fn new() -> (res: Self)
        ensures
            !res.is_focused && !res.is_opened && res.selected_index == 0,
    {
        MultiselectState { is_focused: false, is_opened: false, selected_index: 0 }
    }

    /// Handles one message: returns whether to redraw and what to do.
    pub fn update(&mut self, props: &MultiselectProps, input: &Option<String>, msg: MultiselectMsg) -> (res: (bool, Vec<MultiselectAction>))
        ensures
            (*final(self), res.0, actions_view(res.1@)) == step(
                *old(self),
                props.children@,
                props.has_create_callback,
                props.has_toggle_callback,
                input_view(*input),
                msg,
            ),
    {
        let ghost inp = input_view(*input);
        let ghost vis = viewable(props.children@, inp);
        let ghost expected = step(
            *old(self),
            props.children@,
            props.has_create_callback,
            props.has_toggle_callback,
            inp,
            msg,
        );
        if let MultiselectMsg::Ignore = msg {
            let r: Vec<MultiselectAction> = Vec::new();
            assert(actions_view(r@) =~= Seq::<ActionView>::empty());
            return (false, r);
        }
        let ids = viewable_ids(&props.children, input);
        let count = ids.len();
        let mut actions: Vec<MultiselectAction> = Vec::new();
        match msg {
            MultiselectMsg::OnHover(id) => {
                if id != 0 {
                    proof {
                        lemma_find_child_ids(vis, ids@, id, 0);
                    }
                    if let Some(k) = position_of_id(&ids, id) {
                        self.selected_index = k;
                    }
                } else {
                    self.selected_index = count;
                }
            },
            MultiselectMsg::OnInputChange(key) => {
                if !str_eq(key.as_str(), "ArrowUp") && !str_eq(key.as_str(), "ArrowDown") {
                    self.selected_index = 0;
                }
            },
            MultiselectMsg::OnPressEnter => {
                if self.selected_index < count {
                    actions = toggle_actions_exec(&props.children, props.has_toggle_callback, true, ids[self.selected_index]);
                } else {
                    actions = create_actions_exec(input, props.has_create_callback);
                }
            },
            MultiselectMsg::OnKeyDown(key) => {
                if str_eq(key.as_str(), "ArrowUp") {
                    if self.selected_index != 0 {
                        self.selected_index = self.selected_index - 1;
                    }
                } else if str_eq(key.as_str(), "ArrowDown") {
                    let shows_create = match input {
                        Some(v) => !crate::text::is_blank_str(v.as_str()),
                        None => false,
                    };
                    let cc = if shows_create {
                        count
                    } else if count == 0 {
                        0
                    } else {
                        count - 1
                    };
                    if cc > self.selected_index {
                        self.selected_index = self.selected_index + 1;
                    } else {
                        self.selected_index = cc;
                    }
                }
            },
            MultiselectMsg::OnSelectItem(id) => {
                actions = toggle_actions_exec(&props.children, props.has_toggle_callback, true, id);
            },
            MultiselectMsg::OnUnselectItem(id) => {
                actions = toggle_actions_exec(&props.children, props.has_toggle_callback, false, id);
            },
            MultiselectMsg::OnCreate => {
                actions = create_actions_exec(input, props.has_create_callback);
            },
            MultiselectMsg::SetFocus => {
                if input.is_some() {
                    actions.push(MultiselectAction::FocusInput);
                }
            },
            MultiselectMsg::OnFocus => {
                self.is_focused = true;
            },
            MultiselectMsg::OnUnfocus => {
                self.is_focused = false;
                self.selected_index = 0;
            },
            _ => {},
        }
        let text_after = if clears_input(&actions) {
            false
        } else {
            has_text(input)
        };
        self.is_opened = self.is_focused && (props.children.len() != 0 || text_after);
        assert(actions_view(actions@) =~= expected.2);
        assert(self.selected_index == expected.0.selected_index);
        assert(self.is_focused == expected.0.is_focused);
        assert(self.is_opened == expected.0.is_opened);
        (true, actions)
    }
}

/// The drop-down is only ever open while the box has focus; losing focus
/// closes it and highlights the first entry; and the down arrow never
/// highlights past the last entry shown (counting the "create" entry).
pub proof fn law_opened_only_when_focused(
    s: MultiselectState,
    children: Seq<MultiselectChild>,
    has_create: bool,
    has_toggle: bool,
    input: Option<Seq<char>>,
    msg: MultiselectMsg,
)
    requires
        s.is_opened ==> s.is_focused,
    ensures
        step(s, children, has_create, has_toggle, input, msg).0.is_opened ==> step(
            s,
            children,
            has_create,
            has_toggle,
            input,
            msg,
        ).0.is_focused,
        msg is OnUnfocus ==> !step(s, children, has_create, has_toggle, input, msg).0.is_opened
            && step(s, children, has_create, has_toggle, input, msg).0.selected_index == 0,
        msg matches MultiselectMsg::OnKeyDown(k) && is_arrow_down(k@) ==> step(
            s,
            children,
            has_create,
            has_toggle,
            input,
            msg,
        ).0.selected_index <= viewable(children, input).len(),
{
    reveal_strlit("ArrowUp");
    reveal_strlit("ArrowDown");
    assert("ArrowUp"@.len() != "ArrowDown"@.len());
}

/// Pressing Enter while the "create" entry is highlighted (the highlighted
/// index at or past the choices shown) does what the create message does:
/// both clear the typed text and report it, trimmed, as a new entry when it is
/// not blank and someone listens for new entries, and do nothing otherwise.
pub proof fn law_enter_on_create_entry(
    s: MultiselectState,
    children: Seq<MultiselectChild>,
    has_create: bool,
    has_toggle: bool,
    input: Option<Seq<char>>,
)
    requires
        s.selected_index >= viewable(children, input).len(),
    ensures
        step(s, children, has_create, has_toggle, input, MultiselectMsg::OnPressEnter) == step(
            s,
            children,
            has_create,
            has_toggle,
            input,
            MultiselectMsg::OnCreate,
        ),
        step(s, children, has_create, has_toggle, input, MultiselectMsg::OnPressEnter).2 == (
        if has_create && (input matches Some(t) && !is_blank(t)) {
            seq![ActionView::ClearInput, ActionView::Create(trim(input.unwrap()))]
        } else {
            Seq::<ActionView>::empty()
        }),
{
}

} // verus!
