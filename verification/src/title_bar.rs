//! The title bar's model: the path it displays.

use vstd::prelude::*;

verus! {

/// The title bar. It displays one path.
#[derive(Clone)]
pub struct TitleBar {
    /// The path on display.
    pub path: String,
}

impl TitleBar {
    /// A title bar that displays nothing yet. The identifier is the one
    /// under which the rendering layer knows the bar; the model does not
    /// depend on it.
    pub fn new(_id: &str) -> (bar: TitleBar)
        ensures
            bar.path@ == Seq::<char>::empty(),
    {
        TitleBar { path: String::new() }
    }

    /// Brings the displayed path up to `shown`, the path of the folder on
    /// show, and tells whether anything had to change.
    pub fn sync(&mut self, shown: &str) -> (changed: bool)
        ensures
            final(self).path@ == shown@,
            changed == (old(self).path@ != shown@),
    {
        let shown = String::from_str(shown);
        if self.path == shown {
            false
        } else {
            self.path = shown;
            true
        }
    }
}

} // verus!
