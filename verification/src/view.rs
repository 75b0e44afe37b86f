//! The view capability trait and its trampoline set.
//!
//! A trampoline is the entry point the native runtime calls when a
//! declared selector fires. Each one does the same three things: recover
//! the owning controller through the identity slot, forward to exactly
//! one capability method, and translate the method's answer back into
//! the encoding the native caller expects. A handle that no longer names
//! a live controller is a lookup miss, answered with the encoding's
//! refusing value.

use vstd::prelude::*;

use crate::encoding::{
    bool_mask, drag_mask, encode_bool, encode_drag_operation, is_drag_mask, DragOperation,
};
use crate::identity::{recover_controller, ControllerTable, NativeInstance};

verus! {

/// The drag-and-drop capability surface a view's owning controller
/// implements. Which hooks matter is the implementer's choice; the
/// bridge only forwards.
pub trait ViewController {
    /// A drag session entered the view; the answer names the operation
    /// the view would accept.
    fn dragging_entered(&self) -> DragOperation;

    /// The view is asked to prepare for the drop.
    fn prepare_for_drag_operation(&self) -> bool;

    /// The view is asked to perform the drop.
    fn perform_drag_operation(&self) -> bool;

    /// A drag session left the view.
    fn dragging_exited(&self);
}

/// Answers the selectors that pin the view to modern behaviour:
/// top-left coordinates and layer-backed drawing are always on.
pub fn enforce_normalcy() -> (r: u8)
    ensures
        r == bool_mask(true),
{
    encode_bool(true)
}

/// The update-layer trampoline's decision: the colour to apply to the
/// backing layer, when one is cached in the auxiliary slot; nothing to
/// do otherwise.
pub fn update_layer(instance: &NativeInstance) -> (r: Option<u64>)
    ensures
        r == instance.color_slot(),
{
    instance.background_color()
}

/// The drag-entered trampoline: recovers the owner, forwards to
/// [`ViewController::dragging_entered`], and answers with the native
/// bitmask of the returned operation. A stale handle answers with the
/// refusing mask.
pub fn dragging_entered<T: ViewController>(
    table: &ControllerTable<T>,
    instance: &NativeInstance,
) -> (r: u64)
    requires
        table.wf(),
    ensures
        is_drag_mask(r),
        !table.contains_handle(instance.stored_handle()) ==> r == drag_mask(
            DragOperation::DragNone,
        ),
{
    let handle = recover_controller(instance);
    match table.lookup(handle) {
        Some(controller) => encode_drag_operation(controller.dragging_entered()),
        None => encode_drag_operation(DragOperation::DragNone),
    }
}

/// The prepare-for-drop trampoline: recovers the owner, forwards to
/// [`ViewController::prepare_for_drag_operation`], and answers in the
/// two-valued boolean encoding. A stale handle answers no.
pub fn prepare_for_drag_operation<T: ViewController>(
    table: &ControllerTable<T>,
    instance: &NativeInstance,
) -> (r: u8)
    requires
        table.wf(),
    ensures
        r == bool_mask(true) || r == bool_mask(false),
        !table.contains_handle(instance.stored_handle()) ==> r == bool_mask(false),
{
    let handle = recover_controller(instance);
    match table.lookup(handle) {
        Some(controller) => encode_bool(controller.prepare_for_drag_operation()),
        None => encode_bool(false),
    }
}

/// The perform-drop trampoline: recovers the owner, forwards to
/// [`ViewController::perform_drag_operation`], and answers in the
/// two-valued boolean encoding. A stale handle answers no.
pub fn perform_drag_operation<T: ViewController>(
    table: &ControllerTable<T>,
    instance: &NativeInstance,
) -> (r: u8)
    requires
        table.wf(),
    ensures
        r == bool_mask(true) || r == bool_mask(false),
        !table.contains_handle(instance.stored_handle()) ==> r == bool_mask(false),
{
    let handle = recover_controller(instance);
    match table.lookup(handle) {
        Some(controller) => encode_bool(controller.perform_drag_operation()),
        None => encode_bool(false),
    }
}

/// The drag-exited trampoline: recovers the owner and forwards to
/// [`ViewController::dragging_exited`]. The answer says whether a live
/// controller was found — a stale handle is a detectable miss.
pub fn dragging_exited<T: ViewController>(
    table: &ControllerTable<T>,
    instance: &NativeInstance,
) -> (forwarded: bool)
    requires
        table.wf(),
    ensures
        forwarded == table.contains_handle(instance.stored_handle()),
{
    let handle = recover_controller(instance);
    match table.lookup(handle) {
        Some(controller) => {
            controller.dragging_exited();
            true
        },
        None => false,
    }
}

} // verus!
