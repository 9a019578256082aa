//! The engine: the layout cache together with the one-shot subscription to
//! the system's "input source changed" notification.
//!
//! The engine performs no system call. It decides; its caller acts. A
//! registration or removal to carry out is handed back as a value, a
//! delivered notification is handed in as a call, and what the delegate is
//! owed comes back as an event.

use crate::cache::{outcome_keys, served, LayoutCache};
use crate::error::LayoutError;
use crate::keys::{Key, KeyMapEntry, KeyboardLayout};
use crate::resolver::can_resolve;
use crate::translation::{TranslationOutput, TranslationRequest};
use vstd::prelude::*;

verus! {

/// The stored observer token of an engine that has no registration to remove.
pub const NO_OBSERVER: usize = 0;

/// The notifications the engine subscribes to.
#[derive(Clone, Copy, Debug, PartialEq, Eq)]
pub enum Notification {
    SelectedKeyboardInputSourceChanged,
}

/// What the notification center does with notifications that arrive while
/// delivery is suspended.
#[derive(Clone, Copy, Debug, PartialEq, Eq)]
pub enum SuspensionBehavior {
    Drop,
    Coalesce,
    Hold,
    DeliverImmediately,
}

/// A registration for the caller to make with the distributed notification
/// center. `observer` is the context the center hands back on delivery.
#[derive(Clone, Copy, Debug, PartialEq, Eq)]
pub struct ObserverRegistration {
    pub observer: usize,
    pub notification: Notification,
    pub suspension_behavior: SuspensionBehavior,
}

/// A registration for the caller to remove from the notification center.
#[derive(Clone, Copy, Debug, PartialEq, Eq)]
pub struct ObserverRemoval {
    pub observer: usize,
    pub notification: Notification,
}

/// What the delegate is told.
#[derive(Clone, Copy, Debug, PartialEq, Eq)]
pub enum DelegateEvent {
    KeyboardMapChanged,
}

/// The engine as contracts see it.
pub struct EngineState {
    /// The token the engine was given for itself, once it was given one.
    pub weak_self: Option<usize>,
    /// The token registered with the notification center, or `NO_OBSERVER`.
    pub observer: usize,
    /// The keys of the cached layout.
    pub layout: Option<Seq<Key>>,
}

impl EngineState {
    /// A new engine: no token, no registration, nothing cached.
    pub open spec fn initial() -> EngineState {
        EngineState { weak_self: None, observer: NO_OBSERVER, layout: None }
    }

    /// A registration stands that has yet to be removed.
    pub open spec fn is_registered(self) -> bool {
        self.observer != NO_OBSERVER
    }

    /// A registered token is the token the engine was given.
    pub open spec fn wf(self) -> bool {
        self.is_registered() ==> self.weak_self == Some(self.observer)
    }

    /// The engine after it was given `weak` and registered under it.
    pub open spec fn assigned(self, weak: usize) -> EngineState {
        EngineState { weak_self: Some(weak), observer: weak, layout: self.layout }
    }

    /// The engine after a change notification: nothing cached, the rest as before.
    pub open spec fn invalidated(self) -> EngineState {
        EngineState { weak_self: self.weak_self, observer: self.observer, layout: None }
    }

    /// The engine after its registration was taken for removal.
    pub open spec fn released(self) -> EngineState {
        EngineState { weak_self: self.weak_self, observer: NO_OBSERVER, layout: self.layout }
    }

    /// The registration made for `weak`: for the change of the selected
    /// input source, with bursts coalesced.
    pub open spec fn registration(weak: usize) -> ObserverRegistration {
        ObserverRegistration {
            observer: weak,
            notification: Notification::SelectedKeyboardInputSourceChanged,
            suspension_behavior: SuspensionBehavior::Coalesce,
        }
    }

    /// The removal owed for the engine's registration, if one stands.
    pub open spec fn removal(self) -> Option<ObserverRemoval> {
        if self.is_registered() {
            Some(
                ObserverRemoval {
                    observer: self.observer,
                    notification: Notification::SelectedKeyboardInputSourceChanged,
                },
            )
        } else {
            None
        }
    }
}

/// The event owed to the delegate after a change: the change itself while
/// the delegate lives, nothing once it is gone.
pub open spec fn delegate_event(delegate_alive: bool) -> Option<DelegateEvent> {
    if delegate_alive {
        Some(DelegateEvent::KeyboardMapChanged)
    } else {
        None
    }
}

/// Layout cache and notification subscription of one keyboard.
pub struct PlatformKeyboardLayout {
    weak_self: Option<usize>,
    observer: usize,
    current_layout: LayoutCache,
}

impl View for PlatformKeyboardLayout {
    type V = EngineState;

    closed spec fn view(&self) -> EngineState {
        EngineState {
            weak_self: self.weak_self,
            observer: self.observer,
            layout: self.current_layout@,
        }
    }
}

impl PlatformKeyboardLayout {
    /// An engine that was given no token, has no registration and has
    /// nothing cached.
    pub fn new() -> (engine: Self)
        ensures
            engine@ == EngineState::initial(),
    {
        PlatformKeyboardLayout {
            weak_self: None,
            observer: NO_OBSERVER,
            current_layout: LayoutCache::new(),
        }
    }

    /// Whether the engine was given its token. It can be given one once.
    pub fn is_assigned(&self) -> (assigned: bool)
        ensures
            assigned == (self@.weak_self is Some),
    {
        self.weak_self.is_some()
    }

    /// Whether a registration stands that has yet to be removed.
    pub fn is_registered(&self) -> (registered: bool)
        ensures
            registered == self@.is_registered(),
    {
        self.observer != NO_OBSERVER
    }

    /// A copy of the cached layout, if there is one.
    pub fn cached_layout(&self) -> (layout: Option<KeyboardLayout>)
        ensures
            self@.layout is None <==> layout is None,
            layout matches Some(held) ==> self@.layout == Some(held@),
    {
        self.current_layout.get()
    }

    /// The current layout: the cached one, or a fresh resolution of
    /// `key_map` under `source`, which is then cached.
    ///
    /// `source` is the translation service bound to the active input source,
    /// or nothing when the system could not supply one. Nothing is required
    /// of it while a layout is cached: the service is not reached then.
    pub fn get_current_layout<F: Fn(TranslationRequest) -> TranslationOutput>(
        &mut self,
        key_map: &Vec<KeyMapEntry>,
        source: Option<&F>,
    ) -> (outcome: Result<KeyboardLayout, LayoutError>)
        requires
            old(self)@.layout is None ==> (source matches Some(translate) ==> can_resolve(
                *translate,
                key_map@,
            )),
        ensures
            served(
                old(self)@.layout,
                key_map@,
                source,
                outcome_keys(outcome),
                final(self)@.layout,
            ),
            final(self)@.weak_self == old(self)@.weak_self,
            final(self)@.observer == old(self)@.observer,
    {
        self.current_layout.get_or_build(key_map, source)
    }

    /// Gives the engine the token by which notifications find it, and hands
    /// back the registration to make under that token.
    pub fn assign_weak_self(&mut self, weak: usize) -> (registration: ObserverRegistration)
        requires
            old(self)@.weak_self is None,
            weak != NO_OBSERVER,
        ensures
            final(self)@ == old(self)@.assigned(weak),
            registration == EngineState::registration(weak),
    {
        self.weak_self = Some(weak);
        self.observer = weak;
        ObserverRegistration {
            observer: weak,
            notification: Notification::SelectedKeyboardInputSourceChanged,
            suspension_behavior: SuspensionBehavior::Coalesce,
        }
    }

    /// Takes in a change of the input source: discards the cached layout and
    /// says what the delegate is owed.
    pub fn on_layout_changed(&mut self, delegate_alive: bool) -> (event: Option<DelegateEvent>)
        ensures
            final(self)@ == old(self)@.invalidated(),
            event == delegate_event(delegate_alive),
    {
        self.current_layout.invalidate();
        if delegate_alive {
            Some(DelegateEvent::KeyboardMapChanged)
        } else {
            None
        }
    }

    /// Takes the registration out of the engine for removal, at teardown.
    /// The stored token is cleared at once, so a second call finds nothing
    /// to remove.
    pub fn take_observer(&mut self) -> (removal: Option<ObserverRemoval>)
        ensures
            final(self)@ == old(self)@.released(),
            removal == old(self)@.removal(),
    {
        let observer = self.observer;
        self.observer = NO_OBSERVER;
        if observer != NO_OBSERVER {
            Some(
                ObserverRemoval {
                    observer,
                    notification: Notification::SelectedKeyboardInputSourceChanged,
                },
            )
        } else {
            None
        }
    }
}

/// Routes a delivered notification to the engine its token stands for.
///
/// `layout` is that engine, or nothing when it no longer exists: the
/// notification is then dropped and the delegate is owed nothing.
pub fn observer(layout: Option<&mut PlatformKeyboardLayout>, delegate_alive: bool) -> (event:
    Option<DelegateEvent>)
    ensures
        layout is None ==> event is None,
        layout matches Some(engine) ==> final(engine)@ == engine@.invalidated() && event
            == delegate_event(delegate_alive),
{
    match layout {
        Some(engine) => engine.on_layout_changed(delegate_alive),
        None => None,
    }
}

} // verus!
