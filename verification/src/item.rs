//! The selectable entries the launcher works on.

use vstd::prelude::*;

verus! {

/// A selectable entry of the launcher: a display title and the action
/// string that an outside collaborator runs when the entry is invoked
/// (a command line for an application, a window-manager command for a
/// window).  The model never interprets the action; it only hands it on.
#[derive(Debug)]
pub struct Item {
    pub title: String,
    pub action: String,
}

impl Item {
    pub fn new(title: String, action: String) -> (it: Item)
        ensures
            it.title == title,
            it.action == action,
    {
        Item { title, action }
    }
}

impl Clone for Item {
    fn clone(&self) -> (r: Self)
        ensures
            r == *self,
    {
        Item { title: self.title.clone(), action: self.action.clone() }
    }
}

/// The capability surface the selector model relies on: every entry shows a
/// title and carries an action.  [`Item`] is its canonical carrier.
pub trait ItemDescriptor {
    spec fn spec_title(&self) -> Seq<char>;

    spec fn spec_action(&self) -> Seq<char>;

    fn title(&self) -> (t: &str)
        ensures
            t@ == self.spec_title(),
    ;

    fn exec(&self) -> (a: &str)
        ensures
            a@ == self.spec_action(),
    ;
}

impl ItemDescriptor for Item {
    open spec fn spec_title(&self) -> Seq<char> {
        self.title@
    }

    open spec fn spec_action(&self) -> Seq<char> {
        self.action@
    }

    fn title(&self) -> (t: &str) {
        self.title.as_str()
    }

    fn exec(&self) -> (a: &str) {
        self.action.as_str()
    }
}

} // verus!
