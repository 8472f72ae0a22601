//! Properties of the selector model, stated and proved once for all states.

use vstd::prelude::*;
use crate::model::{filtered_of, selected_of, step, wf, Effect, Intent, State};

verus! {

/// Losing focus before focus was ever gained leaves the state unchanged and
/// emits no effect.
pub proof fn lemma_focus_lost_unfocused_noop(pre: State)
    requires
        !pre.focused,
    ensures
        step(pre, Intent::FocusLost) == (pre, None::<Effect>),
{
}

/// Losing focus after focus was gained leaves the state unchanged and emits
/// exactly one `Terminate`.
pub proof fn lemma_focus_lost_focused_terminates(pre: State)
    requires
        pre.focused,
    ensures
        step(pre, Intent::FocusLost) == (pre, Some(Effect::Terminate)),
{
}

/// Any change of the filter text resets the selection to the top, whatever
/// it was before, stores the new text, and emits no effect.
pub proof fn lemma_filter_change_resets_selection(pre: State, new_text: String)
    ensures
        step(pre, Intent::UpdateFilterText(new_text)).0.selected_index == 0,
        step(pre, Intent::UpdateFilterText(new_text)).0.entry_text == new_text,
        step(pre, Intent::UpdateFilterText(new_text)).0.items == pre.items,
        step(pre, Intent::UpdateFilterText(new_text)).1 is None,
{
}

/// Navigating down at the last row of the filtered view is a no-op: the
/// state is unchanged and no effect is emitted.
pub proof fn lemma_navigate_down_at_last_noop(pre: State)
    requires
        pre.selected_index as int == filtered_of(pre).len() - 1,
    ensures
        step(pre, Intent::Navigate(1)) == (pre, None::<Effect>),
{
}

/// Navigating up at the first row is a no-op: the state is unchanged and no
/// effect is emitted.
pub proof fn lemma_navigate_up_at_first_noop(pre: State)
    requires
        pre.selected_index == 0,
    ensures
        step(pre, Intent::Navigate(-1i32)) == (pre, None::<Effect>),
{
}

/// Executing on an empty filtered view emits no `Invoke`: the intent is a
/// complete no-op.
pub proof fn lemma_execute_on_empty_no_invoke(pre: State)
    requires
        filtered_of(pre).len() == 0,
    ensures
        step(pre, Intent::ExecuteSelected) == (pre, None::<Effect>),
{
}

/// When the selection rests on an item, executing emits exactly that item,
/// the one visibly highlighted.
pub proof fn lemma_execute_emits_highlighted(pre: State)
    requires
        selected_of(pre) is Some,
    ensures
        step(pre, Intent::ExecuteSelected) == (
            pre,
            Some(Effect::Invoke(selected_of(pre)->Some_0)),
        ),
{
}

/// Every operation preserves the selection invariant, provided a load only
/// happens while the selection still sits at its initial position.
pub proof fn lemma_step_preserves_wf(pre: State, intent: Intent)
    requires
        wf(pre),
        intent is Load ==> pre.selected_index == 0,
    ensures
        wf(step(pre, intent).0),
{
}

/// Any state whose selection sits at the top satisfies the selection
/// invariant; in particular the initial state does.
pub proof fn lemma_selection_at_top_wf(s: State)
    requires
        s.selected_index == 0,
    ensures
        wf(s),
{
}

} // verus!
