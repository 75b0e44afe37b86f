//! Scenario tests for the identity bridge: registration, slot recovery,
//! and the drag-and-drop trampolines.

use cacao::encoding::DragOperation;
use cacao::identity::{recover_controller, ControllerTable, NativeInstance};
use cacao::registry::{
    register_view_class, ClassKey, ClassRegistry, Role, SelectorKind, SlotKind,
};
use cacao::view::{
    dragging_entered, dragging_exited, enforce_normalcy, perform_drag_operation,
    prepare_for_drag_operation, update_layer,
};

use std::cell::Cell;

struct DropTarget {
    operation: DragOperation,
    accepts: bool,
    exits_seen: Cell<u32>,
}

impl cacao::view::ViewController for DropTarget {
    fn dragging_entered(&self) -> DragOperation {
        self.operation
    }

    fn prepare_for_drag_operation(&self) -> bool {
        self.accepts
    }

    fn perform_drag_operation(&self) -> bool {
        self.accepts
    }

    fn dragging_exited(&self) {
        self.exits_seen.set(self.exits_seen.get() + 1);
    }
}

fn copy_target() -> DropTarget {
    DropTarget { operation: DragOperation::DragCopy, accepts: true, exits_seen: Cell::new(0) }
}

#[test]
fn register_class_constructs_once() {
    let mut registry = ClassRegistry::new();
    let key = ClassKey { role: Role::View, controller_type: 7 };
    let first = registry.register_class(key);
    let again = registry.register_class(key);
    assert_eq!(first, again);
    assert_eq!(registry.entries.len(), 1);
}

#[test]
fn register_class_all_callers_agree() {
    let mut registry = ClassRegistry::new();
    let key = ClassKey { role: Role::Delegate, controller_type: 3 };
    let other = ClassKey { role: Role::View, controller_type: 3 };
    let first = registry.register_class(key);
    let second = registry.register_class(other);
    let third = registry.register_class(key);
    let fourth = registry.register_class(key);
    assert_eq!(first, third);
    assert_eq!(first, fourth);
    assert_ne!(first, second);
    assert_eq!(registry.entries.len(), 2);
}

#[test]
fn view_class_declares_slots_and_selectors() {
    let mut registry = ClassRegistry::new();
    let idx = register_view_class(&mut registry, 42);
    let descriptor = &registry.entries[idx];
    assert_eq!(
        descriptor.slots,
        vec![SlotKind::ControllerPointer, SlotKind::BackgroundColor]
    );
    assert_eq!(
        descriptor.selectors,
        vec![
            SelectorKind::IsFlipped,
            SelectorKind::WantsUpdateLayer,
            SelectorKind::UpdateLayer,
            SelectorKind::DraggingEntered,
            SelectorKind::PrepareForDragOperation,
            SelectorKind::PerformDragOperation,
            SelectorKind::DraggingExited,
        ]
    );
    let again = register_view_class(&mut registry, 42);
    assert_eq!(idx, again);
    assert_eq!(registry.entries.len(), 1);
}

#[test]
fn identity_slot_round_trip_is_bit_identical() {
    let handle: u64 = 0xDEAD_BEEF_CAFE_F00D;
    let instance = NativeInstance::new(5, handle);
    assert_eq!(recover_controller(&instance), handle);
}

#[test]
fn identity_slot_survives_auxiliary_writes() {
    let mut instance = NativeInstance::new(2, 99);
    instance.set_background_color(11);
    instance.set_background_color(12);
    assert_eq!(recover_controller(&instance), 99);
    assert_eq!(instance.background_color(), Some(12));
}

#[test]
fn update_layer_reports_cached_color() {
    let mut instance = NativeInstance::new(0, 1);
    assert_eq!(update_layer(&instance), None);
    instance.set_background_color(77);
    assert_eq!(update_layer(&instance), Some(77));
}

#[test]
fn controller_table_lookup_hit_and_miss() {
    let mut table: ControllerTable<DropTarget> = ControllerTable::new();
    let handle = table.register_controller(copy_target());
    assert!(table.lookup(handle).is_some());
    assert!(table.lookup(handle + 1).is_none());
}

#[test]
fn drag_entered_scenario_maps_to_copy() {
    // Register the view role for a drop-accepting controller type,
    // allocate one instance, and simulate a drag entering with no
    // payload: the controller's answer must come back in the copy
    // encoding.
    let mut registry = ClassRegistry::new();
    let class = register_view_class(&mut registry, 1);
    let mut table: ControllerTable<DropTarget> = ControllerTable::new();
    let handle = table.register_controller(copy_target());
    let instance = NativeInstance::new(class, handle);
    assert_eq!(dragging_entered(&table, &instance), 1);
}

#[test]
fn drag_trampolines_translate_boolean_answers() {
    let mut table: ControllerTable<DropTarget> = ControllerTable::new();
    let accepting = table.register_controller(copy_target());
    let refusing = table.register_controller(DropTarget {
        operation: DragOperation::DragNone,
        accepts: false,
        exits_seen: Cell::new(0),
    });
    let accepting_view = NativeInstance::new(0, accepting);
    let refusing_view = NativeInstance::new(0, refusing);
    assert_eq!(prepare_for_drag_operation(&table, &accepting_view), 1);
    assert_eq!(perform_drag_operation(&table, &accepting_view), 1);
    assert_eq!(prepare_for_drag_operation(&table, &refusing_view), 0);
    assert_eq!(perform_drag_operation(&table, &refusing_view), 0);
}

#[test]
fn drag_exited_forwards_exactly_once() {
    let mut table: ControllerTable<DropTarget> = ControllerTable::new();
    let handle = table.register_controller(copy_target());
    let instance = NativeInstance::new(0, handle);
    assert!(dragging_exited(&table, &instance));
    assert_eq!(table.lookup(handle).unwrap().exits_seen.get(), 1);
}

#[test]
fn stale_handle_is_a_detectable_miss() {
    let table: ControllerTable<DropTarget> = ControllerTable::new();
    let stale = NativeInstance::new(0, 12345);
    assert_eq!(dragging_entered(&table, &stale), 0);
    assert_eq!(prepare_for_drag_operation(&table, &stale), 0);
    assert_eq!(perform_drag_operation(&table, &stale), 0);
    assert!(!dragging_exited(&table, &stale));
}

#[test]
fn normalcy_selectors_always_affirm() {
    assert_eq!(enforce_normalcy(), 1);
}
