//! A verified model of the object-identity bridge at the heart of a
//! Cocoa-style GUI binding.
//!
//! The native runtime is a dynamically typed object system: classes are
//! declared at run time, objects carry named instance-variable slots, and
//! callbacks arrive through selectors with a fixed calling convention.
//! The bridge associates each such native object with a strongly typed,
//! user-owned controller, so that native callbacks can recover the owner
//! and forward to the right capability method.
//!
//! Rather than storing a raw address in the native object, this library
//! keeps a side table from small integer handles to controllers and stores
//! only the handle in the object's identity slot. A stale handle is then a
//! detectable lookup miss instead of undefined behaviour.

pub mod app;
pub mod dispatcher;
pub mod encoding;
pub mod identity;
pub mod layout;
pub mod menu;
pub mod ownership;
pub mod registry;
pub mod toolbar;
pub mod view;
