//! The selector model: the launcher's state and its intent dispatcher.
//!
//! Every transition is total and pure: [`State::update`] consumes one
//! [`Intent`], mutates the state deterministically, and returns at most one
//! [`Effect`] for the surrounding shell to execute.  The whole transition
//! relation is written down once as the specification function [`step`];
//! `update` is proved to implement it exactly.

use vstd::prelude::*;
use crate::filter::{filtered_indices, lemma_filtered_indices_characterization, filter_items};
use crate::item::Item;

verus! {

/// Row scale of the scroll-follow computation, in millionths of the full
/// scrollable range: the raw offset emitted for row `i` is
/// `i * SCROLL_SCALE_MICRO`.  The presentation layer divides by one million
/// and clamps to its own `[0, 1]` range.
pub const SCROLL_SCALE_MICRO: u64 = 7500;

/// The raw, unclamped scroll offset for a row of the filtered view.
pub open spec fn scroll_offset_micro(row: int) -> int {
    row * (SCROLL_SCALE_MICRO as int)
}

/// The working state of the launcher.
pub struct State {
    /// Current filter text; the empty string matches everything.
    pub entry_text: String,
    /// The full, unfiltered item collection, set once per load.
    pub items: Vec<Item>,
    /// Index into the filtered view, not into `items`.
    pub selected_index: usize,
    /// True once the window has received focus at least once.
    pub focused: bool,
}

/// One discrete user or system event, translated by the caller.
pub enum Intent {
    /// The item collection has been loaded.
    Load(Vec<Item>),
    /// The user changed the filter text.
    UpdateFilterText(String),
    /// The user moved the selection one row down (`1`) or up (`-1`).
    Navigate(i32),
    /// The user triggered the action on the highlighted item.
    ExecuteSelected,
    /// The window gained focus.
    FocusGained,
    /// The window lost focus.
    FocusLost,
    /// The user asked to leave (for instance with Escape).
    CancelRequested,
}

/// An instruction for the orchestrating shell; the model never executes one
/// itself.
pub enum Effect {
    /// Bring the text-entry control into focus.
    RequestFocus,
    /// Scroll so that the committed row stays visible, at the given raw
    /// offset in millionths of the scrollable range.
    ScrollTo(u128),
    /// Run the action of this item, the one visibly highlighted.
    Invoke(Item),
    /// Shut the launcher down.
    Terminate,
}

impl Intent {
    /// The domain of the dispatcher: navigation moves one row at a time.
    pub open spec fn wf(self) -> bool {
        match self {
            Intent::Navigate(delta) => delta == 1 || delta == -1,
            _ => true,
        }
    }
}

/// The filtered view of a state: original indices of the items whose titles
/// satisfy the current filter, in their original order.
pub open spec fn filtered_of(s: State) -> Seq<int> {
    filtered_indices(s.items@, s.entry_text@)
}

/// The item the selection currently rests on, if the filtered view is
/// non-empty at the selected index.
pub open spec fn selected_of(s: State) -> Option<Item> {
    if (s.selected_index as int) < filtered_of(s).len() {
        Some(s.items@[filtered_of(s)[s.selected_index as int]])
    } else {
        None
    }
}

/// The complete transition relation of the selector model: the state after
/// an intent, and the effect it emits.
pub open spec fn step(pre: State, intent: Intent) -> (State, Option<Effect>) {
    match intent {
        Intent::Load(items) => (
            (State {
                entry_text: pre.entry_text,
                items,
                selected_index: pre.selected_index,
                focused: pre.focused,
            }),
            Some(Effect::RequestFocus),
        ),
        Intent::UpdateFilterText(new_text) => (
            (State {
                entry_text: new_text,
                items: pre.items,
                selected_index: 0,
                focused: pre.focused,
            }),
            None,
        ),
        Intent::Navigate(delta) => {
            let candidate = pre.selected_index as int + delta as int;
            if 0 <= candidate < filtered_of(pre).len() {
                (
                    (State {
                        entry_text: pre.entry_text,
                        items: pre.items,
                        selected_index: candidate as usize,
                        focused: pre.focused,
                    }),
                    Some(Effect::ScrollTo(scroll_offset_micro(candidate) as u128)),
                )
            } else {
                (pre, None)
            }
        },
        Intent::ExecuteSelected => match selected_of(pre) {
            Some(it) => (pre, Some(Effect::Invoke(it))),
            None => (pre, None),
        },
        Intent::FocusGained => (
            (State {
                entry_text: pre.entry_text,
                items: pre.items,
                selected_index: pre.selected_index,
                focused: true,
            }),
            None,
        ),
        Intent::FocusLost => if pre.focused {
            (pre, Some(Effect::Terminate))
        } else {
            (pre, None)
        },
        Intent::CancelRequested => (pre, Some(Effect::Terminate)),
    }
}

/// The selection invariant: whenever the filtered view is non-empty, the
/// selected index points into it.
pub open spec fn wf(s: State) -> bool {
    filtered_of(s).len() > 0 ==> (s.selected_index as int) < filtered_of(s).len()
}

impl State {
    /// The initial state: nothing loaded, empty filter, selection at the
    /// top, focus never seen.
    pub fn new() -> (s: State)
        ensures
            s.entry_text@.len() == 0,
            s.items@.len() == 0,
            s.selected_index == 0,
            !s.focused,
    {
        State { entry_text: String::new(), items: Vec::new(), selected_index: 0, focused: false }
    }

    /// The filtered view for rendering: the original indices of the items
    /// whose titles currently satisfy the filter, in their original order.
    pub fn filtered_view(&self) -> (r: Vec<usize>)
        ensures
            r@.len() == filtered_of(*self).len(),
            forall|j: int| 0 <= j < r@.len() ==> r@[j] as int == filtered_of(*self)[j],
    {
        filter_items(&self.items, self.entry_text.as_str())
    }

    /// The item the selection rests on, after applying the filter; `None`
    /// when the filtered view is empty or the stored index is out of range.
    pub fn selected_entry(&self) -> (r: Option<&Item>)
        ensures
            match r {
                Some(it) => selected_of(*self) == Some(*it),
                None => selected_of(*self) is None,
            },
    {
        let idxs = self.filtered_view();
        proof {
            lemma_filtered_indices_characterization(self.items@, self.entry_text@);
        }
        if self.selected_index < idxs.len() {
            let original: usize = idxs[self.selected_index];
            Some(&self.items[original])
        } else {
            None
        }
    }

    /// Applies one intent: the dispatcher of the selector model.  The state
    /// after the call and the returned effect are exactly what [`step`]
    /// prescribes.
    pub fn update(&mut self, intent: Intent) -> (eff: Option<Effect>)
        requires
            intent.wf(),
        ensures
            (*final(self), eff) == step(*old(self), intent),
    {
        match intent {
            Intent::Load(items) => {
                self.items = items;
                Some(Effect::RequestFocus)
            },
            Intent::UpdateFilterText(new_text) => {
                self.entry_text = new_text;
                self.selected_index = 0;
                None
            },
            Intent::Navigate(delta) => self.navigate_items(delta),
            Intent::ExecuteSelected => match self.selected_entry() {
                Some(entry) => Some(Effect::Invoke(entry.clone())),
                None => None,
            },
            Intent::FocusGained => {
                self.focused = true;
                None
            },
            Intent::FocusLost => if self.focused {
                Some(Effect::Terminate)
            } else {
                None
            },
            Intent::CancelRequested => Some(Effect::Terminate),
        }
    }

    /// Moves the selection one row and asks the shell to keep it visible;
    /// navigation past either end of the filtered view is a no-op.
    fn navigate_items(&mut self, delta: i32) -> (eff: Option<Effect>)
        requires
            delta == 1 || delta == -1,
        ensures
            (*final(self), eff) == step(*old(self), Intent::Navigate(delta)),
    {
        let idxs = self.filtered_view();
        let n = idxs.len();
        let committed: Option<usize> = if delta == 1 {
            if self.selected_index < usize::MAX && self.selected_index + 1 < n {
                Some(self.selected_index + 1)
            } else {
                None
            }
        } else {
            if self.selected_index >= 1 && self.selected_index - 1 < n {
                Some(self.selected_index - 1)
            } else {
                None
            }
        };
        match committed {
            Some(candidate) => {
                self.selected_index = candidate;
                proof {
                    vstd::arithmetic::mul::lemma_mul_upper_bound(
                        candidate as int,
                        u64::MAX as int,
                        SCROLL_SCALE_MICRO as int,
                        u64::MAX as int,
                    );
                }
                let offset: u128 = (candidate as u128) * (SCROLL_SCALE_MICRO as u128);
                Some(Effect::ScrollTo(offset))
            },
            None => None,
        }
    }
}

} // verus!
