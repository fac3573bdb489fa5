//! The links of the side bar.

use vstd::prelude::*;

verus! {

/// One link of the side bar.
#[derive(Debug)]
pub struct SideBarLink {
    pub text: String,
    pub href: String,
    pub selected: bool,
    pub icon: String,
}

impl SideBarLink {
    /// Whether the link leads to the page that is shown.
    pub fn is_selected(&self) -> (selected: bool)
        ensures
            selected == self.selected,
    {
        self.selected
    }

    /// The classes that set a selected link apart from the others.
    pub fn conditional_selected_styles(&self) -> (styles: String)
        ensures
            styles@ == (if self.selected {
                "bg-indigo-700 text-white"@
            } else {
                "text-indigo-200 hover:text-white hover:bg-indigo-700"@
            }),
    {
        if self.is_selected() {
            String::from_str("bg-indigo-700 text-white")
        } else {
            String::from_str("text-indigo-200 hover:text-white hover:bg-indigo-700")
        }
    }
}

} // verus!
