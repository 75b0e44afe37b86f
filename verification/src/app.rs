//! The application wrapper: lifecycle bookkeeping around the shared
//! application object and its delegate.
//!
//! Constructing the wrapper mirrors what the native side needs before a
//! run loop can start: the application and delegate classes are
//! registered (or fetched, when already registered), the delegate
//! instance is allocated with its identity slot written before it is
//! handed to the runtime, and the shared application object — a true
//! process singleton — is retained. The run loop itself, and every
//! message send to the shared application, are native calls made by the
//! surrounding program; the functions at the end of this module decide
//! what those calls are given.

use vstd::prelude::*;

use crate::encoding::{
    bool_mask, delegate_response_code, encode_bool, encode_delegate_response, AppDelegateResponse,
    TerminateResponse,
};
use crate::identity::{ControllerHandle, NativeInstance};
use crate::ownership::{fresh_object, SharedObject};
use crate::registry::{key_index, spec_register, ClassKey, ClassRegistry, Role};

verus! {

/// The application lifecycle capability surface. Which hooks matter is
/// the implementer's choice; the bridge only forwards.
pub trait AppDelegate {
    /// The application finished launching; the program starts here.
    fn did_finish_launching(&self);

    /// The application was asked to terminate; the answer defers,
    /// refuses or accepts.
    fn should_terminate(&self) -> TerminateResponse;
}

/// The key of the application class for a controller type.
pub open spec fn app_key(controller_type: u64) -> ClassKey {
    ClassKey { role: Role::Application, controller_type }
}

/// The key of the delegate class for a controller type.
pub open spec fn delegate_key(controller_type: u64) -> ClassKey {
    ClassKey { role: Role::Delegate, controller_type }
}

/// The bridge's state for one application: the user's delegate, the
/// native delegate instance carrying the identity slot, and the
/// ownership record of the shared application object.
pub struct App<T> {
    /// The user's delegate, owned for the process's lifetime.
    pub delegate: T,
    /// The native delegate instance; its identity slot names the
    /// delegate's controller handle.
    pub delegate_instance: NativeInstance,
    /// The ownership record of the shared application object, which the
    /// runtime itself keeps alive as a process singleton.
    pub shared_app: SharedObject,
}

impl<T: AppDelegate> App<T> {
    /// Sets an application up: registers (or fetches) the application
    /// and delegate classes, allocates the delegate instance with its
    /// identity slot written before the runtime ever sees it, and
    /// retains the shared application object as the singleton it is.
    pub fn new(
        registry: &mut ClassRegistry,
        controller_type: u64,
        delegate: T,
        delegate_handle: ControllerHandle,
    ) -> (app: App<T>)
        requires
            old(registry).wf(),
            old(registry).entries@.len() + 2 <= usize::MAX,
        ensures
            final(registry).wf(),
            final(registry).keys() == spec_register(
                spec_register(old(registry).keys(), app_key(controller_type)),
                delegate_key(controller_type),
            ),
            app.delegate == delegate,
            app.delegate_instance.stored_handle() == delegate_handle,
            app.delegate_instance.class_id() as int == key_index(
                final(registry).keys(),
                delegate_key(controller_type),
            ),
            app.shared_app == fresh_object(true),
    {
        let app_class = registry.register_class(
            ClassKey { role: Role::Application, controller_type },
        );
        let delegate_class = registry.register_class(
            ClassKey { role: Role::Delegate, controller_type },
        );
        let delegate_instance = NativeInstance::new(delegate_class, delegate_handle);
        let shared_app = SharedObject::retain_new(true);
        App { delegate, delegate_instance, shared_app }
    }
}

/// The answer sent back for a pending termination request: the deferred
/// counterpart of [`AppDelegate::should_terminate`] answering
/// [`TerminateResponse::Later`], in the native two-valued encoding.
pub fn reply_to_termination_request(should_terminate: bool) -> (r: u8)
    ensures
        r == bool_mask(should_terminate),
{
    encode_bool(should_terminate)
}

/// The reply code sent back after an open-files or print-files request.
pub fn reply_to_open_or_print(response: AppDelegateResponse) -> (r: u64)
    ensures
        r == delegate_response_code(response),
{
    encode_delegate_response(response)
}

/// Which relaunch registration the shared application is asked for.
#[derive(Clone, Copy, PartialEq, Eq, Structural, Debug)]
pub enum RelaunchCommand {
    /// Relaunch the application at login.
    EnableRelaunch,
    /// Do not relaunch the application at login.
    DisableRelaunch,
}

/// Decides the relaunch registration the shared application is sent.
pub fn set_relaunch_on_login(relaunch: bool) -> (r: RelaunchCommand)
    ensures
        relaunch <==> r == RelaunchCommand::EnableRelaunch,
        !relaunch <==> r == RelaunchCommand::DisableRelaunch,
{
    if relaunch {
        RelaunchCommand::EnableRelaunch
    } else {
        RelaunchCommand::DisableRelaunch
    }
}

/// The parameters of the activation calls a nib-less application makes
/// after its menu is set: the regular activation policy, and the
/// activate-ignoring-other-applications option bit.
pub fn activate() -> (r: (u64, u64))
    ensures
        r.0 == 0,
        r.1 == 2,
{
    (0, 2)
}

} // verus!
