//! Tests for the caches, queues, ownership bookkeeping and the thin
//! wrappers around them.

use cacao::app::{
    activate, reply_to_open_or_print, reply_to_termination_request, set_relaunch_on_login, App,
    AppDelegate, RelaunchCommand,
};
use cacao::dispatcher::{DeliveryOutcome, DispatchQueues, Dispatcher};
use cacao::encoding::{
    encode_bool, encode_delegate_response, encode_drag_operation, encode_terminate_response,
    AppDelegateResponse, DragOperation, TerminateResponse,
};
use cacao::identity::{ControllerTable, NativeInstance};
use cacao::layout::{AnchorRelation, LayoutAnchorY};
use cacao::menu::{set_menu, ActionCache, Menu, TargetActionHandler};
use cacao::ownership::SharedObject;
use cacao::registry::ClassRegistry;
use cacao::toolbar::{ToolbarController, ToolbarHandle, ToolbarItem};

use std::cell::RefCell;

#[test]
fn boolean_encoding_is_two_valued() {
    assert_eq!(encode_bool(true), 1);
    assert_eq!(encode_bool(false), 0);
}

#[test]
fn drag_operation_masks_match_the_native_table() {
    assert_eq!(encode_drag_operation(DragOperation::DragNone), 0);
    assert_eq!(encode_drag_operation(DragOperation::DragCopy), 1);
    assert_eq!(encode_drag_operation(DragOperation::DragLink), 2);
    assert_eq!(encode_drag_operation(DragOperation::DragGeneric), 4);
    assert_eq!(encode_drag_operation(DragOperation::DragPrivate), 8);
    assert_eq!(encode_drag_operation(DragOperation::DragMove), 16);
}

#[test]
fn delegate_response_codes_match_the_native_table() {
    assert_eq!(encode_delegate_response(AppDelegateResponse::Success), 0);
    assert_eq!(encode_delegate_response(AppDelegateResponse::Cancelled), 1);
    assert_eq!(encode_delegate_response(AppDelegateResponse::Failure), 2);
}

#[test]
fn terminate_codes_match_the_native_table() {
    assert_eq!(encode_terminate_response(TerminateResponse::Cancel), 0);
    assert_eq!(encode_terminate_response(TerminateResponse::Now), 1);
    assert_eq!(encode_terminate_response(TerminateResponse::Later), 2);
}

fn menu_of(inner: u64, title: &str, actions: &[u64]) -> Menu {
    Menu {
        inner,
        title: title.to_string(),
        actions: actions.iter().map(|a| TargetActionHandler { action: *a }).collect(),
    }
}

#[test]
fn set_menu_gathers_actions_in_order() {
    let mut cache = ActionCache::new();
    let menus = vec![menu_of(10, "File", &[1, 2]), menu_of(11, "Edit", &[3])];
    let submenus = set_menu(&mut cache, &menus);
    assert_eq!(submenus, vec![10, 11]);
    let cached: Vec<u64> = cache.handlers.iter().map(|h| h.action).collect();
    assert_eq!(cached, vec![1, 2, 3]);
}

#[test]
fn second_menu_replaces_the_cache_wholesale() {
    let mut cache = ActionCache::new();
    let first = vec![menu_of(10, "File", &[1, 2]), menu_of(11, "Edit", &[3])];
    let second = vec![menu_of(12, "Help", &[9])];
    set_menu(&mut cache, &first);
    set_menu(&mut cache, &second);
    let cached: Vec<u64> = cache.handlers.iter().map(|h| h.action).collect();
    assert_eq!(cached, vec![9]);
}

#[test]
fn empty_menu_clears_the_cache() {
    let mut cache = ActionCache::new();
    let first = vec![menu_of(10, "File", &[1, 2])];
    set_menu(&mut cache, &first);
    let none: Vec<Menu> = Vec::new();
    set_menu(&mut cache, &none);
    assert!(cache.handlers.is_empty());
}

struct RecordingDelegate {
    ui_log: RefCell<Vec<u64>>,
    background_log: RefCell<Vec<u64>>,
}

impl RecordingDelegate {
    fn new() -> RecordingDelegate {
        RecordingDelegate { ui_log: RefCell::new(Vec::new()), background_log: RefCell::new(Vec::new()) }
    }
}

impl Dispatcher<u64> for RecordingDelegate {
    fn on_ui_message(&self, message: u64) {
        self.ui_log.borrow_mut().push(message);
    }

    fn on_background_message(&self, message: u64) {
        self.background_log.borrow_mut().push(message);
    }
}

#[test]
fn ui_messages_are_delivered_in_program_order() {
    let mut queues: DispatchQueues<u64> = DispatchQueues::new();
    let mut table: ControllerTable<RecordingDelegate> = ControllerTable::new();
    let handle = table.register_controller(RecordingDelegate::new());
    let instance = NativeInstance::new(0, handle);
    queues.dispatch_main(21);
    queues.dispatch_main(22);
    assert_eq!(queues.deliver_main(&table, &instance), DeliveryOutcome::Invoked);
    assert_eq!(queues.deliver_main(&table, &instance), DeliveryOutcome::Invoked);
    assert_eq!(queues.deliver_main(&table, &instance), DeliveryOutcome::Idle);
    assert_eq!(*table.lookup(handle).unwrap().ui_log.borrow(), vec![21, 22]);
}

#[test]
fn background_context_is_distinct_from_ui() {
    let mut queues: DispatchQueues<u64> = DispatchQueues::new();
    let mut table: ControllerTable<RecordingDelegate> = ControllerTable::new();
    let handle = table.register_controller(RecordingDelegate::new());
    let instance = NativeInstance::new(0, handle);
    queues.dispatch_background(5);
    assert_eq!(queues.deliver_main(&table, &instance), DeliveryOutcome::Idle);
    assert_eq!(queues.deliver_background(&table, &instance), DeliveryOutcome::Invoked);
    let delegate = table.lookup(handle).unwrap();
    assert!(delegate.ui_log.borrow().is_empty());
    assert_eq!(*delegate.background_log.borrow(), vec![5]);
}

#[test]
fn delivery_to_a_stale_delegate_is_a_miss() {
    let mut queues: DispatchQueues<u64> = DispatchQueues::new();
    let table: ControllerTable<RecordingDelegate> = ControllerTable::new();
    let stale = NativeInstance::new(0, 4);
    queues.dispatch_main(1);
    assert_eq!(queues.deliver_main(&table, &stale), DeliveryOutcome::MissingTarget);
    assert_eq!(queues.deliver_main(&table, &stale), DeliveryOutcome::Idle);
}

#[test]
fn last_owner_drop_releases_exactly_once() {
    let mut object = SharedObject::retain_new(false);
    object.clone_owner();
    object.clone_owner();
    object.drop_owner();
    object.drop_owner();
    assert_eq!(object.releases, 0);
    object.drop_owner();
    assert_eq!(object.owners, 0);
    assert_eq!(object.releases, 1);
}

#[test]
fn singleton_is_never_released() {
    let mut object = SharedObject::retain_new(true);
    object.clone_owner();
    object.drop_owner();
    object.drop_owner();
    assert_eq!(object.owners, 0);
    assert_eq!(object.releases, 0);
}

struct QuietDelegate;

impl AppDelegate for QuietDelegate {
    fn did_finish_launching(&self) {}

    fn should_terminate(&self) -> TerminateResponse {
        TerminateResponse::Now
    }
}

#[test]
fn app_construction_wires_the_delegate_instance() {
    let mut registry = ClassRegistry::new();
    let app = App::new(&mut registry, 8, QuietDelegate, 1234);
    assert_eq!(registry.entries.len(), 2);
    assert_eq!(cacao::identity::recover_controller(&app.delegate_instance), 1234);
    assert!(app.shared_app.singleton);
    assert_eq!(app.shared_app.owners, 1);
    assert_eq!(app.shared_app.releases, 0);
    assert_eq!(app.delegate.should_terminate(), TerminateResponse::Now);
}

#[test]
fn termination_and_open_replies_use_the_native_encodings() {
    assert_eq!(reply_to_termination_request(true), 1);
    assert_eq!(reply_to_termination_request(false), 0);
    assert_eq!(reply_to_open_or_print(AppDelegateResponse::Cancelled), 1);
}

#[test]
fn relaunch_command_follows_the_flag() {
    assert_eq!(set_relaunch_on_login(true), RelaunchCommand::EnableRelaunch);
    assert_eq!(set_relaunch_on_login(false), RelaunchCommand::DisableRelaunch);
}

#[test]
fn activation_parameters_are_fixed() {
    assert_eq!(activate(), (0, 2));
}

#[test]
fn anchors_pair_up_under_each_relation() {
    let top = LayoutAnchorY(Some(70));
    let bottom = LayoutAnchorY(Some(71));
    let equal = top.constraint_equal_to(&bottom);
    assert_eq!((equal.first, equal.second), (70, 71));
    assert_eq!(equal.relation, AnchorRelation::Equal);
    let ge = top.constraint_greater_than_or_equal_to(&bottom);
    assert_eq!(ge.relation, AnchorRelation::GreaterOrEqual);
    let le = bottom.constraint_less_than_or_equal_to(&top);
    assert_eq!((le.first, le.second), (71, 70));
    assert_eq!(le.relation, AnchorRelation::LessOrEqual);
}

#[test]
fn default_anchor_is_uninitialised() {
    let anchor = LayoutAnchorY::default();
    assert!(anchor.0.is_none());
}

#[test]
fn wrapped_anchor_holds_its_object() {
    let anchor = LayoutAnchorY::new(70);
    assert_eq!(anchor.0, Some(70));
    let other = LayoutAnchorY::new(71);
    let constraint = anchor.constraint_equal_to(&other);
    assert_eq!((constraint.first, constraint.second), (70, 71));
}

struct OneButtonToolbar {
    loaded: Option<ToolbarHandle>,
}

impl ToolbarController for OneButtonToolbar {
    fn did_load(&mut self, toolbar: ToolbarHandle) {
        self.loaded = Some(toolbar);
    }

    fn allowed_item_identifiers(&self) -> Vec<&'static str> {
        vec!["send", "spacer"]
    }

    fn default_item_identifiers(&self) -> Vec<&'static str> {
        vec!["send"]
    }

    fn item_for(&self, identifier: &str) -> ToolbarItem {
        ToolbarItem { identifier: identifier.to_string() }
    }
}

#[test]
fn toolbar_controller_surface_round_trips() {
    let mut toolbar = OneButtonToolbar { loaded: None };
    toolbar.did_load(ToolbarHandle { object: 400 });
    assert_eq!(toolbar.loaded, Some(ToolbarHandle { object: 400 }));
    assert_eq!(toolbar.allowed_item_identifiers(), vec!["send", "spacer"]);
    assert_eq!(toolbar.default_item_identifiers(), vec!["send"]);
    assert_eq!(toolbar.item_for("send").identifier, "send");
}
