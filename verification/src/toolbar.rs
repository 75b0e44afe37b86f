//! The toolbar capability trait and the values it trades in.

use vstd::prelude::*;

verus! {

/// A reference to a native toolbar object, handed to the controller
/// once the toolbar has loaded.
#[derive(Clone, Copy, PartialEq, Eq, Structural, Debug)]
pub struct ToolbarHandle {
    /// The handle of the native toolbar object.
    pub object: u64,
}

/// One toolbar item, named by the identifier it answers for.
pub struct ToolbarItem {
    /// The identifier the item was built for.
    pub identifier: String,
}

/// The toolbar capability surface: what a controller implements to act
/// as a toolbar's delegate.
pub trait ToolbarController {
    /// A hook for configuration that needs the toolbar's handle. Not
    /// strictly necessary; provided in the interest of a uniform and
    /// expectable surface.
    fn did_load(&mut self, _toolbar: ToolbarHandle) {
    }

    /// Which items are allowed in this toolbar.
    fn allowed_item_identifiers(&self) -> Vec<&'static str>;

    /// The items this toolbar shows by default.
    fn default_item_identifiers(&self) -> Vec<&'static str>;

    /// The item to show for a given identifier.
    fn item_for(&self, identifier: &str) -> ToolbarItem;
}

} // verus!
