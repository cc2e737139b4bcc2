//! The traits a host type implements to hear from the engine, and the
//! dispatch that carries one engine callback to it.
//!
//! The engine calls back with raw identities.  Each dispatch function here
//! is what the boundary runs once the receiver of the callback has been
//! found: it wraps the identity into the handle that the trait speaks of,
//! makes the one call, and hands back what the call returns.
//!
//! What a listener does with a call is its own business, so nothing is
//! asked of the traits' methods.  The dispatch functions promise which call
//! the listener was given.  Each `ensures` reads: there is a call of the
//! method that began with the listener as it was before and with a handle
//! for the identity that the engine named, that ended with the listener as
//! it is now, and that returned what is handed back.  Where the listener's
//! type is known, whatever its method ensures of such a call follows.
//!
//! Each dispatch function bears the name of the native symbol through which
//! the engine's proxy reaches it, spelled as the native side spells it.

#![allow(non_snake_case)]

use vstd::prelude::*;
use crate::box2d::dynamics::contacts::contact::Contact;
use crate::box2d::dynamics::fixture::Fixture;

verus! {

/// Implement this to hear when two fixtures begin and cease to touch.
pub trait ContactListener {
    /// Called when two fixtures begin to touch.
    fn begin_contact(&mut self, contact: &mut Contact);

    /// Called when two fixtures cease to touch.
    fn end_contact(&mut self, contact: &mut Contact);
}

/// Implement this to be told the fixtures that a query of the world finds.
pub trait QueryCallback {
    /// Called for each fixture found in the query.
    /// Return false to terminate the query.
    fn report_fixture(&mut self, fixture: &mut Fixture) -> bool;
}

/// Carries the engine's "begin contact" to the listener: one call of
/// `begin_contact`, on a handle for exactly the contact the engine named.
pub fn ContantListenerTrait_BeginContact<T: ContactListener>(this: &mut T, contact: usize)
    ensures
        exists|listener: &mut T, handle: &mut Contact|
            mut_ref_current(listener) == *old(this)
            && mut_ref_future(listener) == *final(this)
            && mut_ref_current(handle) == (Contact { ptr: contact })
            && #[trigger] call_ensures(T::begin_contact, (listener, handle), ()),
{
    let mut handle = Contact { ptr: contact };
    this.begin_contact(&mut handle);
}

/// Carries the engine's "end contact" to the listener: one call of
/// `end_contact`, on a handle for exactly the contact the engine named.
pub fn ContantListenerTrait_EndContact<T: ContactListener>(this: &mut T, contact: usize)
    ensures
        exists|listener: &mut T, handle: &mut Contact|
            mut_ref_current(listener) == *old(this)
            && mut_ref_future(listener) == *final(this)
            && mut_ref_current(handle) == (Contact { ptr: contact })
            && #[trigger] call_ensures(T::end_contact, (listener, handle), ()),
{
    let mut handle = Contact { ptr: contact };
    this.end_contact(&mut handle);
}

/// Carries the engine's "fixture found" to the observer of a query: one
/// call of `report_fixture`, on a handle for exactly the fixture the engine
/// named.  The observer's answer goes back to the engine as it is: `false`
/// tells it to visit no further fixture.
pub fn QueryCallbackTrait_ReportFixture<T: QueryCallback>(this: &mut T, fixture: usize) -> (proceed: bool)
    ensures
        exists|observer: &mut T, handle: &mut Fixture|
            mut_ref_current(observer) == *old(this)
            && mut_ref_future(observer) == *final(this)
            && mut_ref_current(handle) == (Fixture { masked_ptr: fixture })
            && #[trigger] call_ensures(T::report_fixture, (observer, handle), proceed),
{
    let mut handle = Fixture { masked_ptr: fixture };
    this.report_fixture(&mut handle)
}

} // verus!
