//! The subscription registry behind the event bridge. The engine calls back
//! through a token; a detached subscription keeps its storage until no call
//! through it is still in flight.
use vstd::prelude::*;

verus! {

/// What the registry knows of one live subscription.
pub struct SlotModel {
    pub event_type: u32,
    /// Still attached: new calls through it are made.
    pub active: bool,
    /// Calls that have begun and not yet ended.
    pub in_flight: nat,
}

/// The registry as a sequence indexed by token; `None` is freed storage.
pub type RegistryModel = Seq<Option<SlotModel>>;

/// Storage is held by an attached subscription or by one with calls in flight.
pub open spec fn registry_wf(m: RegistryModel) -> bool {
    forall|t: int| 0 <= t < m.len() && (#[trigger] m[t]) is Some ==> m[t].unwrap().active
        || m[t].unwrap().in_flight > 0
}

pub open spec fn attach_model(m: RegistryModel, event_type: u32) -> RegistryModel {
    m.push(Some(SlotModel { event_type, active: true, in_flight: 0 }))
}

pub open spec fn is_active(m: RegistryModel, token: int) -> bool {
    0 <= token < m.len() && m[token] is Some && m[token].unwrap().active
}

pub open spec fn detach_model(m: RegistryModel, token: int) -> RegistryModel {
    if is_active(m, token) {
        let s = m[token].unwrap();
        if s.in_flight == 0 {
            m.update(token, None)
        } else {
            m.update(token, Some(SlotModel { active: false, ..s }))
        }
    } else {
        m
    }
}

/// Whether a call through `token` begins now: only through an attached
/// subscription, and while the in-flight count can still be counted.
pub open spec fn begins(m: RegistryModel, token: int) -> bool {
    is_active(m, token) && m[token].unwrap().in_flight < u64::MAX
}

pub open spec fn begin_model(m: RegistryModel, token: int) -> RegistryModel {
    if begins(m, token) {
        let s = m[token].unwrap();
        m.update(token, Some(SlotModel { in_flight: s.in_flight + 1, ..s }))
    } else {
        m
    }
}

pub open spec fn end_model(m: RegistryModel, token: int) -> RegistryModel {
    if 0 <= token < m.len() && m[token] is Some && m[token].unwrap().in_flight > 0 {
        let s = m[token].unwrap();
        if !s.active && s.in_flight == 1 {
            m.update(token, None)
        } else {
            m.update(token, Some(SlotModel { in_flight: (s.in_flight - 1) as nat, ..s }))
        }
    } else {
        m
    }
}

/// Storage once freed is never taken again: tokens are not reused, so no
/// operation, through any token, brings a freed subscription back.
pub proof fn lemma_freed_stays_freed(m: RegistryModel, t: int, u: int, event_type: u32)
    requires
        0 <= t < m.len(),
        m[t] is None,
    ensures
        attach_model(m, event_type)[t] is None,
        detach_model(m, u)[t] is None,
        begin_model(m, u)[t] is None,
        end_model(m, u)[t] is None,
        !begins(m, t),
{
}

/// Attaching and at once detaching, before any event fires, leaves nothing
/// to call: the storage is freed at the detach, no call through the token
/// begins, and the other subscriptions are untouched.
pub proof fn lemma_attach_then_detach(m: RegistryModel, event_type: u32)
    requires
        registry_wf(m),
    ensures
        ({
            let t = m.len() as int;
            let after = detach_model(attach_model(m, event_type), t);
            &&& after.len() == m.len() + 1
            &&& after[t] is None
            &&& !begins(after, t)
            &&& after.take(t) == m
            &&& registry_wf(after)
        }),
{
    let t = m.len() as int;
    let after = detach_model(attach_model(m, event_type), t);
    assert(after.take(t) =~= m);
}

/// Detaching while calls are in flight never frees their storage: the
/// subscription stays held with its count, no new call begins, and the
/// storage goes exactly when the last call ends.
pub proof fn lemma_detach_during_dispatch(m: RegistryModel, t: int)
    requires
        registry_wf(m),
        0 <= t < m.len(),
        m[t] is Some,
        m[t].unwrap().in_flight > 0,
    ensures
        ({
            let d = detach_model(m, t);
            &&& registry_wf(d)
            &&& d[t] is Some
            &&& d[t].unwrap().in_flight == m[t].unwrap().in_flight
            &&& !d[t].unwrap().active
            &&& !begins(d, t)
            &&& (end_model(d, t)[t] is None <==> m[t].unwrap().in_flight == 1)
        }),
{
}

/// Each step of the registry keeps its invariant.
pub proof fn lemma_steps_keep_wf(m: RegistryModel, t: int, event_type: u32)
    requires
        registry_wf(m),
    ensures
        registry_wf(attach_model(m, event_type)),
        registry_wf(detach_model(m, t)),
        registry_wf(begin_model(m, t)),
        registry_wf(end_model(m, t)),
{
}

/// A token that the engine hands back to the trampoline as its context.
#[derive(Clone, Copy, Debug, PartialEq, Eq, Structural)]
pub struct Token {
    pub index: usize,
}

#[derive(Clone, Copy)]
struct Slot {
    event_type: u32,
    active: bool,
    in_flight: u64,
}

/// The subscriptions of one owning handle, each holding a callback of type `C`.
pub struct EventRegistry<C> {
    slots: Vec<Option<Slot>>,
    callbacks: Vec<Option<C>>,
}

spec fn slot_model(s: Option<Slot>) -> Option<SlotModel> {
    match s {
        None => None,
        Some(x) => Some(SlotModel { event_type: x.event_type, active: x.active, in_flight: x.in_flight as nat }),
    }
}

impl<C> View for EventRegistry<C> {
    type V = RegistryModel;

    closed spec fn view(&self) -> RegistryModel {
        self.slots@.map_values(|s: Option<Slot>| slot_model(s))
    }
}

/// After a step, each held slot keeps the callback it had, and a freed slot
/// holds none.
pub open spec fn callbacks_kept<C>(before: Seq<Option<C>>, after: Seq<Option<C>>, m: RegistryModel) -> bool {
    &&& after.len() == before.len()
    &&& forall|t: int| 0 <= t < after.len() ==> #[trigger] after[t] == (if m[t] is Some {
        before[t]
    } else {
        None
    })
}

impl<C> EventRegistry<C> {
    /// The callbacks by token, `None` where the storage is freed.
    pub closed spec fn callbacks(&self) -> Seq<Option<C>> {
        self.callbacks@
    }

    /// The registry's invariant: storage only for attached or busy
    /// subscriptions, and a callback held exactly where a slot is.
    pub closed spec fn wf(&self) -> bool {
        &&& registry_wf(self@)
        &&& self.callbacks@.len() == self.slots@.len()
        &&& forall|t: int| 0 <= t < self.slots@.len() ==> (#[trigger] self.slots@[t] is Some
            <==> self.callbacks@[t] is Some)
    }

    pub fn new() -> (r: EventRegistry<C>)
        ensures
            r.wf(),
            r@ == Seq::<Option<SlotModel>>::empty(),
            r.callbacks() == Seq::<Option<C>>::empty(),
    {
        let r = EventRegistry { slots: Vec::new(), callbacks: Vec::new() };
        assert(r@ =~= Seq::<Option<SlotModel>>::empty());
        r
    }

    /// A well-formed registry keeps storage only for attached or busy
    /// subscriptions.
    pub proof fn lemma_wf(&self)
        requires
            self.wf(),
        ensures
            registry_wf(self@),
    {
    }

    /// Registers `callback` for `event_type`; the token is fresh, never one
    /// given out before. `None` only when no further token can be numbered.
    pub fn attach(&mut self, event_type: u32, callback: C) -> (r: Option<Token>)
        requires
            old(self).wf(),
        ensures
            final(self).wf(),
            r is None <==> old(self)@.len() >= usize::MAX,
            r is None ==> final(self)@ == old(self)@,
            r is None ==> final(self).callbacks() == old(self).callbacks(),
            r matches Some(t) ==> t.index == old(self)@.len()
                && final(self)@ == attach_model(old(self)@, event_type)
                && final(self).callbacks() == old(self).callbacks().push(Some(callback)),
    {
        if self.slots.len() == usize::MAX {
            return None;
        }
        let index = self.slots.len();
        self.slots.push(Some(Slot { event_type, active: true, in_flight: 0 }));
        self.callbacks.push(Some(callback));
        assert(self@ =~= attach_model(old(self)@, event_type));
        Some(Token { index })
    }

    /// Detaches the subscription: no call through it begins after this. Its
    /// storage is freed now if no call is in flight, else when the last one
    /// ends. Returns whether the token named an attached subscription.
    pub fn detach(&mut self, token: Token) -> (r: bool)
        requires
            old(self).wf(),
        ensures
            final(self).wf(),
            r == is_active(old(self)@, token.index as int),
            final(self)@ == detach_model(old(self)@, token.index as int),
            callbacks_kept(old(self).callbacks(), final(self).callbacks(), final(self)@),
    {
        let i = token.index;
        if i >= self.slots.len() {
            return false;
        }
        match self.slots[i] {
            None => false,
            Some(s) => {
                if !s.active {
                    false
                } else if s.in_flight == 0 {
                    self.slots.set(i, None);
                    self.callbacks.set(i, None);
                    assert(self@ =~= detach_model(old(self)@, i as int));
                    true
                } else {
                    self.slots.set(i, Some(Slot { active: false, ..s }));
                    assert(self@ =~= detach_model(old(self)@, i as int));
                    true
                }
            },
        }
    }

    /// A call from the engine through `token` starts. Returns whether the
    /// callback is to be run; a detached or freed subscription is skipped.
    pub fn begin_dispatch(&mut self, token: Token) -> (r: bool)
        requires
            old(self).wf(),
        ensures
            final(self).wf(),
            r == begins(old(self)@, token.index as int),
            final(self)@ == begin_model(old(self)@, token.index as int),
            callbacks_kept(old(self).callbacks(), final(self).callbacks(), final(self)@),
    {
        let i = token.index;
        if i >= self.slots.len() {
            return false;
        }
        match self.slots[i] {
            None => false,
            Some(s) => {
                if !s.active || s.in_flight == u64::MAX {
                    false
                } else {
                    self.slots.set(i, Some(Slot { in_flight: s.in_flight + 1, ..s }));
                    assert(self@ =~= begin_model(old(self)@, i as int));
                    true
                }
            },
        }
    }

    /// A call through `token` has returned. The storage of a detached
    /// subscription is freed with its last call.
    pub fn end_dispatch(&mut self, token: Token)
        requires
            old(self).wf(),
        ensures
            final(self).wf(),
            final(self)@ == end_model(old(self)@, token.index as int),
            callbacks_kept(old(self).callbacks(), final(self).callbacks(), final(self)@),
    {
        let i = token.index;
        if i >= self.slots.len() {
            return;
        }
        match self.slots[i] {
            None => {},
            Some(s) => {
                if s.in_flight == 0 {
                } else if !s.active && s.in_flight == 1 {
                    self.slots.set(i, None);
                    self.callbacks.set(i, None);
                    assert(self@ =~= end_model(old(self)@, i as int));
                } else {
                    self.slots.set(i, Some(Slot { in_flight: (s.in_flight - 1) as u64, ..s }));
                    assert(self@ =~= end_model(old(self)@, i as int));
                }
            },
        }
    }

    /// The callback of a subscription whose storage is held.
    pub fn callback(&self, token: Token) -> (r: Option<&C>)
        requires
            self.wf(),
        ensures
            r is Some <==> (token.index < self@.len() && self@[token.index as int] is Some),
            r matches Some(c) ==> Some(*c) == self.callbacks()[token.index as int],
    {
        if token.index >= self.callbacks.len() {
            return None;
        }
        self.callbacks[token.index].as_ref()
    }

    /// The event type a subscription was attached for, while held.
    pub fn event_type(&self, token: Token) -> (r: Option<u32>)
        requires
            self.wf(),
        ensures
            r is Some <==> (token.index < self@.len() && self@[token.index as int] is Some),
            r matches Some(ty) ==> ty == self@[token.index as int].unwrap().event_type,
    {
        if token.index >= self.slots.len() {
            return None;
        }
        match self.slots[token.index] {
            None => None,
            Some(s) => Some(s.event_type),
        }
    }

    /// The attached subscriptions, in token order: what is to be detached
    /// from the engine before the owning handle is released.
    pub fn active_tokens(&self) -> (r: Vec<Token>)
        requires
            self.wf(),
        ensures
            forall|k: int| 0 <= k < r@.len() ==> is_active(self@, (#[trigger] r@[k]).index as int),
            forall|t: int| is_active(self@, t) ==> exists|k: int| 0 <= k < r@.len() && (#[trigger] r@[k]).index == t,
            forall|k: int, l: int| 0 <= k < l < r@.len() ==> r@[k].index < r@[l].index,
    {
        let mut out: Vec<Token> = Vec::new();
        let mut i: usize = 0;
        while i < self.slots.len()
            invariant
                0 <= i <= self.slots@.len(),
                forall|k: int| 0 <= k < out@.len() ==> is_active(self@, (#[trigger] out@[k]).index as int)
                    && out@[k].index < i,
                forall|t: int| 0 <= t < i && is_active(self@, t) ==> exists|k: int| 0 <= k < out@.len() && (#[trigger] out@[k]).index == t,
                forall|k: int, l: int| 0 <= k < l < out@.len() ==> out@[k].index < out@[l].index,
            decreases self.slots@.len() - i,
        {
            let ghost before = out@;
            match self.slots[i] {
                Some(s) => {
                    if s.active {
                        out.push(Token { index: i });
                    }
                },
                None => {},
            }
            proof {
                assert forall|t: int| 0 <= t < i + 1 && is_active(self@, t) implies exists|k: int|
                    0 <= k < out@.len() && (#[trigger] out@[k]).index == t by {
                    if t < i {
                        let k = choose|k: int| 0 <= k < before.len() && (#[trigger] before[k]).index == t;
                        assert(out@[k] == before[k]);
                    } else {
                        assert(out@[out@.len() - 1].index == t);
                    }
                }
            }
            i = i + 1;
        }
        out
    }

    /// Whether no storage is held: nothing attached and nothing in flight,
    /// so the registry may be dropped.
    pub fn is_quiescent(&self) -> (r: bool)
        requires
            self.wf(),
        ensures
            r <==> forall|t: int| 0 <= t < self@.len() ==> (#[trigger] self@[t]) is None,
    {
        let mut i: usize = 0;
        while i < self.slots.len()
            invariant
                0 <= i <= self.slots@.len(),
                forall|t: int| 0 <= t < i ==> (#[trigger] self@[t]) is None,
            decreases self.slots@.len() - i,
        {
            if self.slots[i].is_some() {
                assert(self@[i as int] is Some);
                return false;
            }
            i = i + 1;
        }
        true
    }
}

} // verus!
