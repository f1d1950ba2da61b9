//! The switch controller: two de-duplicating consumer state machines.
//!
//! Notification producers may fire concurrently and several of them may
//! report the same true activation, so all raw events are funnelled into two
//! serialized streams, and each stream suppresses consecutive duplicates
//! against the last event it consumed.
//!
//! The activation stream decides, for each "application became foreground"
//! event, whether to restore a remembered input source or to adopt the one
//! currently active. The source-change stream decides, for each "input source
//! changed" event detected after the fact, whether to record the new source
//! for the foreground application. The change stream's own de-duplication is
//! what keeps a controller-issued switch from being re-interpreted as a
//! manual change.
//!
//! The platform layer performs the actual switch and the actual lookups; the
//! spec-level step functions [`activation_step`] and [`source_change_step`]
//! model one full consumption of an event, with the outcomes of those
//! platform calls as parameters.

use vstd::prelude::*;

use crate::store::InputSourceState;

verus! {

/// What the activation stream asks the platform layer to do for one event.
pub enum ActivationAction {
    /// Consecutive duplicate of the previous activation: do nothing.
    Ignore,
    /// A remembered input source exists: try to select it. If the selection
    /// fails (the source is no longer installed), fall back to saving the
    /// currently active source for the application.
    Restore(String),
    /// No remembered input source: save the currently active source as the
    /// application's preference from now on.
    Adopt,
}

/// Consumer state of the activation stream: the identifier carried by the
/// last activation event that was not suppressed as a duplicate.
pub struct ActivationStream {
    prev_app: Option<String>,
}

impl View for ActivationStream {
    type V = Option<Seq<char>>;

    closed spec fn view(&self) -> Option<Seq<char>> {
        match self.prev_app {
            Some(ref app) => Some(app@),
            None => None,
        }
    }
}

impl ActivationStream {
    /// A stream that has consumed no event yet.
    pub fn new() -> (s: Self)
        ensures
            s@ is None,
    {
        ActivationStream { prev_app: None }
    }

    /// Consumes one activation event carrying `bundle_id` and returns the
    /// action the platform layer must take, reading the remembered input
    /// source for the application from `store`.
    pub fn on_activation(&mut self, store: &InputSourceState, bundle_id: &String) -> (a:
        ActivationAction)
        ensures
            final(self)@ == Some(bundle_id@),
            a is Ignore <==> old(self)@ == Some(bundle_id@),
            a is Adopt <==> old(self)@ != Some(bundle_id@) && !store@.contains_key(bundle_id@),
            a matches ActivationAction::Restore(src) ==> old(self)@ != Some(bundle_id@)
                && store@.contains_key(bundle_id@) && src@ == store@[bundle_id@],
            old(self)@ != Some(bundle_id@) && store@.contains_key(bundle_id@) ==> a matches
                ActivationAction::Restore(_),
    {
        let duplicate = match &self.prev_app {
            Some(prev) => *prev == *bundle_id,
            None => false,
        };
        if duplicate {
            return ActivationAction::Ignore;
        }
        self.prev_app = Some(bundle_id.clone());
        match store.load(bundle_id.as_str()) {
            Some(src) => ActivationAction::Restore(src),
            None => ActivationAction::Adopt,
        }
    }
}

/// Consumer state of the input-source-change stream: the last input source
/// identifier it consumed.
pub struct SourceChangeStream {
    prev_src: Option<String>,
}

impl View for SourceChangeStream {
    type V = Option<Seq<char>>;

    closed spec fn view(&self) -> Option<Seq<char>> {
        match self.prev_src {
            Some(ref src) => Some(src@),
            None => None,
        }
    }
}

impl SourceChangeStream {
    /// A stream that has consumed no event yet.
    pub fn new() -> (s: Self)
        ensures
            s@ is None,
    {
        SourceChangeStream { prev_src: None }
    }

    /// Consumes one input-source-change event carrying `input_source`.
    /// Returns whether the change is fresh, that is, not a consecutive
    /// duplicate of the last one consumed. Only a fresh change is recorded
    /// for the foreground application; in particular, the notification that
    /// echoes a controller-issued switch finds its source already consumed
    /// and is suppressed here.
    pub fn on_change(&mut self, input_source: &String) -> (fresh: bool)
        ensures
            final(self)@ == Some(input_source@),
            fresh <==> old(self)@ != Some(input_source@),
    {
        let duplicate = match &self.prev_src {
            Some(prev) => *prev == *input_source,
            None => false,
        };
        if duplicate {
            return false;
        }
        self.prev_src = Some(input_source.clone());
        true
    }
}

/// The full effect of consuming one activation event, platform calls
/// included. `switch_ok` is what the input-source selection call would
/// report if attempted (true also when the source is already active);
/// `current` is what a read of the currently active input source would
/// return at that moment.
pub struct ActivationOutcome {
    /// The stream's memory of the last consumed activation afterwards.
    pub prev_app: Option<Seq<char>>,
    /// The store contents afterwards.
    pub store: Map<Seq<char>, Seq<char>>,
    /// The input source a selection call is issued for, if any.
    pub switch_issued: Option<Seq<char>>,
    /// Whether the store is written.
    pub store_written: bool,
}

/// One full consumption of an activation event carrying `app`: duplicate
/// suppression, then either a restore attempt from the store (falling back,
/// when the selection fails, to saving the currently active source), or the
/// adoption of the currently active source for a never-seen application.
pub open spec fn activation_step(
    prev_app: Option<Seq<char>>,
    store: Map<Seq<char>, Seq<char>>,
    app: Seq<char>,
    switch_ok: bool,
    current: Seq<char>,
) -> ActivationOutcome {
    if prev_app == Some(app) {
        ActivationOutcome { prev_app, store, switch_issued: None, store_written: false }
    } else if store.contains_key(app) {
        if switch_ok {
            ActivationOutcome {
                prev_app: Some(app),
                store,
                switch_issued: Some(store[app]),
                store_written: false,
            }
        } else {
            ActivationOutcome {
                prev_app: Some(app),
                store: store.insert(app, current),
                switch_issued: Some(store[app]),
                store_written: true,
            }
        }
    } else {
        ActivationOutcome {
            prev_app: Some(app),
            store: store.insert(app, current),
            switch_issued: None,
            store_written: true,
        }
    }
}

/// The full effect of consuming one input-source-change event. `foreground`
/// is what resolving the current foreground application would return at that
/// moment; resolution failure drops the event.
pub struct SourceChangeOutcome {
    /// The stream's memory of the last consumed change afterwards.
    pub prev_src: Option<Seq<char>>,
    /// The store contents afterwards.
    pub store: Map<Seq<char>, Seq<char>>,
    /// Whether the store is written.
    pub store_written: bool,
}

/// One full consumption of an input-source-change event carrying `src`:
/// duplicate suppression, then a store write for the resolved foreground
/// application, if one could be resolved.
pub open spec fn source_change_step(
    prev_src: Option<Seq<char>>,
    store: Map<Seq<char>, Seq<char>>,
    src: Seq<char>,
    foreground: Option<Seq<char>>,
) -> SourceChangeOutcome {
    if prev_src == Some(src) {
        SourceChangeOutcome { prev_src, store, store_written: false }
    } else {
        match foreground {
            Some(app) => SourceChangeOutcome {
                prev_src: Some(src),
                store: store.insert(app, src),
                store_written: true,
            },
            None => SourceChangeOutcome { prev_src: Some(src), store, store_written: false },
        }
    }
}

/// Law: of two identical consecutive activation events, the second changes
/// no state, issues no switch and writes nothing, whatever the platform
/// calls would have reported for it.
pub proof fn lemma_idempotent_reactivation(
    prev_app: Option<Seq<char>>,
    store: Map<Seq<char>, Seq<char>>,
    app: Seq<char>,
    ok1: bool,
    current1: Seq<char>,
    ok2: bool,
    current2: Seq<char>,
)
    ensures
        ({
            let first = activation_step(prev_app, store, app, ok1, current1);
            let second = activation_step(first.prev_app, first.store, app, ok2, current2);
            &&& second.prev_app == first.prev_app
            &&& second.store == first.store
            &&& second.switch_issued is None
            &&& !second.store_written
        }),
{
}

/// Law: activating an application the store has never seen issues no switch
/// and populates the store with the input source active at that moment.
pub proof fn lemma_unknown_app_fallback(
    prev_app: Option<Seq<char>>,
    store: Map<Seq<char>, Seq<char>>,
    app: Seq<char>,
    switch_ok: bool,
    current: Seq<char>,
)
    requires
        prev_app != Some(app),
        !store.contains_key(app),
    ensures
        ({
            let r = activation_step(prev_app, store, app, switch_ok, current);
            &&& r.switch_issued is None
            &&& r.store_written
            &&& r.store == store.insert(app, current)
            &&& r.store[app] == current
        }),
{
}

/// Law: once a change to `src` has been consumed, consuming `src` again
/// changes no state and writes nothing — so the notification that echoes a
/// controller-issued switch causes no second write beyond the one performed
/// when that switch was first observed.
pub proof fn lemma_no_feedback_loop(
    prev_src: Option<Seq<char>>,
    store: Map<Seq<char>, Seq<char>>,
    src: Seq<char>,
    foreground1: Option<Seq<char>>,
    foreground2: Option<Seq<char>>,
)
    ensures
        ({
            let first = source_change_step(prev_src, store, src, foreground1);
            let second = source_change_step(first.prev_src, first.store, src, foreground2);
            &&& second.prev_src == first.prev_src
            &&& second.store == first.store
            &&& !second.store_written
        }),
{
}

/// Law: the write that observing a change to `src` performs does not alter
/// the store's contents when the foreground application's entry already
/// holds `src` — as it does right after the activation stream restored `src`
/// for that application.
pub proof fn lemma_echoed_switch_write_is_vacuous(
    prev_src: Option<Seq<char>>,
    store: Map<Seq<char>, Seq<char>>,
    src: Seq<char>,
    app: Seq<char>,
)
    requires
        store.contains_key(app),
        store[app] == src,
    ensures
        source_change_step(prev_src, store, src, Some(app)).store == store,
{
    assert(store.insert(app, src) =~= store);
}

} // verus!
