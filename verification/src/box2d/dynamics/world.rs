//! The world and the callback bridges that are registered with it.
//!
//! A bridge pairs a host value with the native proxy through which the
//! engine reaches it.  The world keeps one slot per kind of bridge and
//! the engine calls back through whatever proxy the slot holds.  A slot
//! holds an identity, not the bridge: the world never keeps a bridge
//! alive, and a bridge that is to go away before the world must first be
//! taken out of the slot.

use vstd::prelude::*;
use crate::box2d::common::draw::{appended, cleared};
use crate::box2d::common::handle::{non_null, present, raw};
use crate::box2d::dynamics::world_callbacks::ContactListener;

verus! {

/// The proxy that a bridge hands out for deallocation when the proxy it
/// owns changes from `before` to `after`: the one it owned, unless it owns
/// it still.
pub open spec fn displaced(before: Option<usize>, after: Option<usize>) -> Option<usize> {
    if before == after {
        None
    } else {
        before
    }
}

/// A bridge never hands out for deallocation the proxy that it goes on to
/// own, and hands out the one it owned whenever it ceases to own it: no
/// proxy is deallocated while in use, and none is left behind.
pub proof fn lemma_displaced_is_owned_no_more(before: Option<usize>, after: Option<usize>)
    ensures
        displaced(before, after) matches Some(proxy) ==> before == Some(proxy) && after != before,
        before is Some && after != before ==> displaced(before, after) == before,
        displaced(before, None) == before,
        displaced(None, after) is None,
{
}

/// What a contact-listener bridge is, to a contract.
pub struct ContactListenerView<T> {
    /// The host value that receives the callbacks.
    pub listener: T,
    /// The native proxy the engine calls through, until it is released.
    pub proxy: Option<usize>,
}

/// Call ContactListenerHandle::new() to pair an instance of your type that
/// implements the ContactListener trait with its native proxy, and pass
/// the handle to World::set_contact_listener()
pub struct ContactListenerHandle<T: ContactListener> {
    trait_obj: T,
    ptr: usize,
}

impl<T: ContactListener> View for ContactListenerHandle<T> {
    type V = ContactListenerView<T>;

    closed spec fn view(&self) -> ContactListenerView<T> {
        ContactListenerView { listener: self.trait_obj, proxy: present(self.ptr) }
    }
}

impl<T: ContactListener> ContactListenerHandle<T> {
    /// Takes the listener into a new bridge.  The bridge has no native
    /// proxy yet: the engine can create one only for a listener that has
    /// found its place, and `bind` then hands it over.
    pub fn new(this: T) -> (handle: Self)
        ensures
            handle@ == (ContactListenerView { listener: this, proxy: None }),
    {
        ContactListenerHandle { trait_obj: this, ptr: 0 }
    }

    /// Hands the bridge the proxy that the engine has created for it.  The
    /// bridge owns the proxy from here on.  Returns the proxy that it owned
    /// before, if that was another one: it is the caller's to deallocate.
    /// A null `ptr` says that the engine created no proxy.
    pub fn bind(&mut self, ptr: usize) -> (doomed: Option<usize>)
        ensures
            final(self)@ == (ContactListenerView { proxy: present(ptr), ..old(self)@ }),
            doomed == displaced(old(self)@.proxy, final(self)@.proxy),
    {
        let doomed = if self.ptr == ptr {
            None
        } else {
            non_null(self.ptr)
        };
        self.ptr = ptr;
        doomed
    }

    /// Get direct access to your ContactListener instance: the very value
    /// that the callbacks act on, in the state they left it in.  Whatever
    /// is done through the reference is what the next callback finds.
    pub fn get(&mut self) -> (listener: &mut T)
        ensures
            *listener == old(self)@.listener,
            final(self)@ == (ContactListenerView { listener: *final(listener), ..old(self)@ }),
    {
        &mut self.trait_obj
    }

    /// The identity of the native proxy, to register with a world; null
    /// once the proxy has been released.
    pub fn ptr(&self) -> (ptr: usize)
        ensures
            ptr == raw(self@.proxy),
            present(ptr) == self@.proxy,
    {
        self.ptr
    }

    /// First step of tearing the bridge down: gives up the native proxy.
    /// Returns the identity to deallocate, and nothing if the proxy is
    /// gone already, so that a proxy is deallocated once and never again.
    /// The listener stays where it is until the handle itself goes.
    ///
    /// A world that has this proxy in its slot reaches for it at its next
    /// step: the bridge must outlive such a world.
    pub fn release(&mut self) -> (doomed: Option<usize>)
        ensures
            final(self)@ == (ContactListenerView { proxy: None, ..old(self)@ }),
            doomed == old(self)@.proxy,
    {
        let doomed = non_null(self.ptr);
        self.ptr = 0;
        doomed
    }

    /// Last step of tearing the bridge down: gives the listener back.
    /// The proxy must be gone by then, so that nothing on the engine's
    /// side can reach the listener while it is taken apart.
    pub fn into_inner(self) -> (listener: T)
        requires
            self@.proxy is None,
        ensures
            listener == self@.listener,
    {
        self.trait_obj
    }
}

/// What a debug-draw bridge is, to a contract.
pub struct DebugDrawView<T> {
    /// The host value that does the drawing.
    pub renderer: T,
    /// The native proxy the engine calls through, until it is released.
    pub proxy: Option<usize>,
    /// What the engine is asked to draw.
    pub flags: u32,
}

/// Call DebugDraw::new() to pair an instance of your type that does the
/// drawing with its native proxy, and pass the handle to
/// World::set_debug_draw()
pub struct DebugDraw<T> {
    trait_obj: T,
    ptr: usize,
    flags: u32,
}

impl<T> View for DebugDraw<T> {
    type V = DebugDrawView<T>;

    closed spec fn view(&self) -> DebugDrawView<T> {
        DebugDrawView { renderer: self.trait_obj, proxy: present(self.ptr), flags: self.flags }
    }
}

impl<T> DebugDraw<T> {
    /// Takes the renderer into a new bridge.  The bridge has no native
    /// proxy yet, and no category is drawn.
    pub fn new(this: T) -> (handle: Self)
        ensures
            handle@ == (DebugDrawView { renderer: this, proxy: None, flags: 0 }),
    {
        DebugDraw { trait_obj: this, ptr: 0, flags: 0 }
    }

    /// Hands the bridge the proxy that the engine has created for it.  The
    /// bridge owns the proxy from here on.  Returns the proxy that it owned
    /// before, if that was another one: it is the caller's to deallocate.
    /// A null `ptr` says that the engine created no proxy.
    pub fn bind(&mut self, ptr: usize) -> (doomed: Option<usize>)
        ensures
            final(self)@ == (DebugDrawView { proxy: present(ptr), ..old(self)@ }),
            doomed == displaced(old(self)@.proxy, final(self)@.proxy),
    {
        let doomed = if self.ptr == ptr {
            None
        } else {
            non_null(self.ptr)
        };
        self.ptr = ptr;
        doomed
    }

    /// Get direct access to your renderer: the very value that the
    /// callbacks act on, in the state they left it in.
    pub fn get(&mut self) -> (renderer: &mut T)
        ensures
            *renderer == old(self)@.renderer,
            final(self)@ == (DebugDrawView { renderer: *final(renderer), ..old(self)@ }),
    {
        &mut self.trait_obj
    }

    /// The identity of the native proxy, to register with a world; null
    /// once the proxy has been released.
    pub fn ptr(&self) -> (ptr: usize)
        ensures
            ptr == raw(self@.proxy),
            present(ptr) == self@.proxy,
    {
        self.ptr
    }

    /// Set the drawing flags.
    pub fn set_flags(&mut self, flags: u32)
        ensures
            final(self)@ == (DebugDrawView { flags, ..old(self)@ }),
    {
        self.flags = flags;
    }

    /// Get the drawing flags.
    pub fn get_flags(&mut self) -> (flags: u32)
        ensures
            flags == old(self)@.flags,
            final(self)@ == old(self)@,
    {
        self.flags
    }

    /// Append flags to the current flags.
    pub fn append_flags(&mut self, flags: u32)
        ensures
            final(self)@ == (DebugDrawView { flags: appended(old(self)@.flags, flags), ..old(self)@ }),
    {
        self.flags = self.flags | flags;
    }

    /// Clear flags from the current flags.
    pub fn clear_flags(&mut self, flags: u32)
        ensures
            final(self)@ == (DebugDrawView { flags: cleared(old(self)@.flags, flags), ..old(self)@ }),
    {
        self.flags = self.flags & !flags;
    }

    /// First step of tearing the bridge down: gives up the native proxy.
    /// Returns the identity to deallocate, and nothing if the proxy is
    /// gone already, so that a proxy is deallocated once and never again.
    /// The renderer stays where it is until the handle itself goes.
    ///
    /// A world that has this proxy in its slot reaches for it when it is
    /// next asked to draw: take the bridge out of the slot first, with
    /// World::clear_debug_draw(), or let the bridge outlive the world.
    pub fn release(&mut self) -> (doomed: Option<usize>)
        ensures
            final(self)@ == (DebugDrawView { proxy: None, ..old(self)@ }),
            doomed == old(self)@.proxy,
    {
        let doomed = non_null(self.ptr);
        self.ptr = 0;
        doomed
    }

    /// Last step of tearing the bridge down: gives the renderer back.
    /// The proxy must be gone by then, so that nothing on the engine's
    /// side can reach the renderer while it is taken apart.
    pub fn into_inner(self) -> (renderer: T)
        requires
            self@.proxy is None,
        ensures
            renderer == self@.renderer,
    {
        self.trait_obj
    }
}

/// What a world is, to a contract.
pub struct WorldView {
    /// The identity of the native world.
    pub ptr: usize,
    /// The proxy that draw calls go through, if a bridge is registered.
    pub debug_draw: Option<usize>,
    /// The proxy that contact events go through, if a bridge is registered.
    pub contact_listener: Option<usize>,
}

impl WorldView {
    /// The world after a debug-draw bridge with the given proxy has been
    /// registered, or, for `None`, after the slot has been emptied.
    pub open spec fn with_debug_draw(self, proxy: Option<usize>) -> WorldView {
        WorldView { debug_draw: proxy, ..self }
    }

    /// The world after a contact-listener bridge with the given proxy has
    /// been registered.
    pub open spec fn with_contact_listener(self, proxy: Option<usize>) -> WorldView {
        WorldView { contact_listener: proxy, ..self }
    }

    /// Whether the engine draws through the given proxy when the world is
    /// asked for its debug data.
    pub open spec fn draws_through(self, proxy: usize) -> bool {
        self.debug_draw == Some(proxy)
    }

    /// Whether the engine reports the contacts of a step through the given
    /// proxy.
    pub open spec fn reports_through(self, proxy: usize) -> bool {
        self.contact_listener == Some(proxy)
    }
}

/// The world class manages all physics entities, dynamic simulation,
/// and asynchronous queries. The world also contains efficient memory
/// management facilities.
pub struct World {
    ptr: usize,
    debug_draw: Option<usize>,
    contact_listener: Option<usize>,
}

impl View for World {
    type V = WorldView;

    closed spec fn view(&self) -> WorldView {
        WorldView {
            ptr: self.ptr,
            debug_draw: self.debug_draw,
            contact_listener: self.contact_listener,
        }
    }
}

impl World {
    /// Takes charge of a world that the engine has just constructed.  No
    /// bridge is registered with it yet.
    pub fn new(ptr: usize) -> (world: World)
        ensures
            world@ == (WorldView { ptr, debug_draw: None, contact_listener: None }),
    {
        World { ptr, debug_draw: None, contact_listener: None }
    }

    /// The identity to hand to the engine for this world.
    pub fn ptr(&self) -> (ptr: usize)
        ensures
            ptr == self@.ptr,
    {
        self.ptr
    }

    /// Register a routine for debug drawing. The debug draw functions are called
    /// inside with World::draw_debug_data() method. The debug draw object is owned
    /// by you and must remain in scope.
    ///
    /// The world has one slot for a debug-draw bridge.  Whatever was in it
    /// is replaced: from now on the engine draws through this bridge's
    /// proxy and through no other.  A bridge without a proxy leaves the
    /// slot empty.
    pub fn set_debug_draw<T>(&mut self, debug_draw: &mut DebugDraw<T>)
        ensures
            final(self)@ == old(self)@.with_debug_draw(old(debug_draw)@.proxy),
            final(debug_draw)@ == old(debug_draw)@,
    {
        self.debug_draw = non_null(debug_draw.ptr());
    }

    /// World stores the identity of a DebugDraw's proxy when you call World.set_debug_draw().
    /// You have to make sure your DebugDraw instance stays alive as long as the world.
    /// If the world outlives your DebugDraw instance, draw_debug_data() would reach
    /// for what is gone. So call this function to empty the slot: afterwards the
    /// engine draws through no proxy at all.
    pub fn clear_debug_draw(&mut self)
        ensures
            final(self)@ == old(self)@.with_debug_draw(None),
    {
        self.debug_draw = None;
    }

    /// Register a listener for the contacts that a step finds.
    ///
    /// The world has one slot for a contact-listener bridge.  Whatever was
    /// in it is replaced: from now on the engine reports through this
    /// bridge's proxy and through no other.  A bridge without a proxy
    /// leaves the slot empty.
    pub fn set_contact_listener<T: ContactListener>(
        &mut self,
        listener: &mut ContactListenerHandle<T>,
    )
        ensures
            final(self)@ == old(self)@.with_contact_listener(old(listener)@.proxy),
            final(listener)@ == old(listener)@,
    {
        self.contact_listener = non_null(listener.ptr());
    }

    /// The proxy that draw calls go through, if a bridge is registered.
    pub fn debug_draw(&self) -> (proxy: Option<usize>)
        ensures
            proxy == self@.debug_draw,
    {
        self.debug_draw
    }

    /// The proxy that contact events go through, if a bridge is registered.
    pub fn contact_listener(&self) -> (proxy: Option<usize>)
        ensures
            proxy == self@.contact_listener,
    {
        self.contact_listener
    }
}

/// A world that has just been registered with reaches through the proxy it
/// was given and through no other, whatever it reached through before.
pub proof fn lemma_registered_bridge_is_the_only_one(world: WorldView, proxy: usize, other: usize)
    ensures
        world.with_debug_draw(Some(proxy)).draws_through(other) <==> other == proxy,
        world.with_contact_listener(Some(proxy)).reports_through(other) <==> other == proxy,
{
}

/// Of two bridges registered one after the other for the same kind of
/// callback, the second takes the place of the first: the world is as if
/// the first had never been registered, and the first proxy, unless it is
/// also the second, is reached no more.
pub proof fn lemma_last_registration_wins(
    world: WorldView,
    first: Option<usize>,
    second: Option<usize>,
)
    ensures
        world.with_debug_draw(first).with_debug_draw(second) == world.with_debug_draw(second),
        world.with_contact_listener(first).with_contact_listener(second)
            == world.with_contact_listener(second),
        forall|proxy: usize|
            first == Some(proxy) && second != first ==> {
                &&& !world.with_debug_draw(first).with_debug_draw(second).draws_through(proxy)
                &&& !world.with_contact_listener(first).with_contact_listener(
                    second,
                ).reports_through(proxy)
            },
{
}

/// Once the debug-draw slot has been emptied the engine draws through no
/// proxy at all, until a bridge is registered again.
pub proof fn lemma_cleared_slot_reaches_nothing(world: WorldView, proxy: usize)
    ensures
        !world.with_debug_draw(None).draws_through(proxy),
        !world.with_contact_listener(None).reports_through(proxy),
{
}

/// The two slots do not touch each other: registering or clearing a bridge
/// of one kind leaves the bridge of the other kind registered as it was.
pub proof fn lemma_slots_are_independent(
    world: WorldView,
    draw: Option<usize>,
    listener: Option<usize>,
    proxy: usize,
)
    ensures
        world.with_debug_draw(draw).reports_through(proxy) == world.reports_through(proxy),
        world.with_contact_listener(listener).draws_through(proxy) == world.draws_through(proxy),
        world.with_debug_draw(draw).with_contact_listener(listener)
            == world.with_contact_listener(listener).with_debug_draw(draw),
{
}

} // verus!
