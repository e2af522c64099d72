//! Events: listeners register with an event and are notified through it.
//!
//! An [`Event`] owns the list of its listeners. A listener is a handle to one entry of that
//! list; it is polled against the event and given back to it when it is no longer needed.
use core::marker::PhantomData;
use core::task::{Poll, Waker};

use vstd::prelude::*;

pub mod entries;
pub mod exact;
pub mod laws;
pub mod notification;
pub mod stream;

pub use self::entries::ListenerEntry;
pub use self::notification::{
    AddtionalNotification, Notification, NotificationExt, WithNotification,
};
pub use self::stream::{EventStream, StreamView};

verus! {

/// What an event holds.
#[verifier::ext_equal]
pub struct EventView<T> {
    /// The registered listeners, the earliest first.
    pub listeners: Seq<ListenerEntry<T>>,
    /// The number that the next listener gets.
    pub next_id: usize,
    /// Whether the event itself is still held by its owner.
    pub open: bool,
}

impl<T> EventView<T> {
    /// Numbers grow from each listener to the next, and a listener with a notification has
    /// no waker left to wake.
    pub open spec fn wf(self) -> bool {
        &&& forall|i: int, j: int|
            0 <= i < j < self.listeners.len() ==> #[trigger] self.listeners[i].id
                < #[trigger] self.listeners[j].id
        &&& forall|i: int|
            0 <= i < self.listeners.len() ==> (#[trigger] self.listeners[i]).id < self.next_id
        &&& forall|i: int|
            0 <= i < self.listeners.len() && (#[trigger] self.listeners[i]).value is Some
                ==> self.listeners[i].waker is None
    }

    /// Whether a listener with this number is registered.
    pub open spec fn has(self, id: usize) -> bool {
        exists|i: int| 0 <= i < self.listeners.len() && (#[trigger] self.listeners[i]).id == id
    }

    /// Where the listener with this number stands.
    pub open spec fn position(self, id: usize) -> int {
        choose|i: int| 0 <= i < self.listeners.len() && (#[trigger] self.listeners[i]).id == id
    }

    /// The entry of the listener with this number.
    pub open spec fn entry(self, id: usize) -> ListenerEntry<T> {
        self.listeners[self.position(id)]
    }

    /// Whether the listener with this number is registered and holds a notification.
    pub open spec fn is_notified(self, id: usize) -> bool {
        self.has(id) && self.entry(id).value is Some
    }

    /// Whether something still keeps the list of listeners: its owner or a listener.
    pub open spec fn reachable(self) -> bool {
        self.open || self.listeners.len() > 0
    }

    /// How many more listeners a notification for `count` listeners is given to.
    pub open spec fn quota(self, count: usize, additional: bool) -> nat {
        if count == usize::MAX {
            self.listeners.len()
        } else if additional {
            if count <= self.listeners.len() {
                count as nat
            } else {
                self.listeners.len()
            }
        } else if count <= entries::notified_count(self.listeners) {
            0
        } else {
            (count - entries::notified_count(self.listeners)) as nat
        }
    }

    /// `self` with one more listener, which waits with the given waker.
    pub open spec fn with_listener(self, waker: Option<Waker>) -> EventView<T> {
        EventView {
            listeners: self.listeners.push(ListenerEntry { id: self.next_id, waker, value: None }),
            next_id: (self.next_id + 1) as usize,
            ..self
        }
    }

    /// `self` with another entry for the listener with this number.
    pub open spec fn with_entry(self, id: usize, entry: ListenerEntry<T>) -> EventView<T> {
        EventView { listeners: self.listeners.update(self.position(id), entry), ..self }
    }

    /// `self` where the listener with this number waits with the given waker.
    pub open spec fn with_waker(self, id: usize, waker: Waker) -> EventView<T> {
        self.with_entry(id, ListenerEntry { waker: Some(waker), ..self.entry(id) })
    }

    /// `self` after the listener with this number has taken its notification.
    pub open spec fn taken(self, id: usize) -> EventView<T> {
        self.with_entry(id, ListenerEntry { value: None, ..self.entry(id) })
    }

    /// `self` without the listener with this number.
    pub open spec fn without(self, id: usize) -> EventView<T> {
        EventView { listeners: self.listeners.remove(self.position(id)), ..self }
    }

    /// Whether giving the listener with this number back hands its notification on.
    pub open spec fn hands_on(self, id: usize) -> bool {
        &&& self.is_notified(id)
        &&& entries::first_waiting(self.without(id).listeners) < self.without(id).listeners.len()
    }

    /// `self` after the listener with this number has been given back: if it held a
    /// notification, the earliest listener without one gets it.
    pub open spec fn dropped(self, id: usize) -> EventView<T> {
        if !self.has(id) {
            self
        } else if self.hands_on(id) {
            let rest = self.without(id).listeners;
            let next = entries::first_waiting(rest);
            EventView {
                listeners: rest.update(
                    next,
                    ListenerEntry { waker: None, value: self.entry(id).value, ..rest[next] },
                ),
                ..self
            }
        } else {
            self.without(id)
        }
    }

    /// The waker that giving the listener with this number back wakes.
    pub open spec fn dropped_wakers(self, id: usize) -> Seq<Waker> {
        if self.hands_on(id) {
            let rest = self.without(id).listeners;
            match rest[entries::first_waiting(rest)].waker {
                Some(waker) => seq![waker],
                None => Seq::empty(),
            }
        } else {
            Seq::empty()
        }
    }

    /// Whether `after` is `self` with the first `k` waiting listeners notified, each with a
    /// value that `is_tag` accepts, and nothing else changed.
    pub open spec fn notifies(
        self,
        k: nat,
        is_tag: spec_fn(T) -> bool,
        after: EventView<T>,
    ) -> bool {
        &&& after.next_id == self.next_id
        &&& after.open == self.open
        &&& after.listeners.len() == self.listeners.len()
        &&& forall|i: int|
            0 <= i < self.listeners.len() ==> {
                let entry = #[trigger] after.listeners[i];
                if entries::chosen(self.listeners, k, i) {
                    &&& entry.id == self.listeners[i].id
                    &&& entry.waker is None
                    &&& entry.value is Some
                    &&& is_tag(entry.value->0)
                } else {
                    entry == self.listeners[i]
                }
            }
    }

    /// `self` after its owner has let go of it.
    pub open spec fn closed(self) -> EventView<T> {
        EventView {
            listeners: self.listeners.map_values(
                |entry: ListenerEntry<T>| ListenerEntry { waker: None, ..entry },
            ),
            open: false,
            ..self
        }
    }
}

impl EventView<()> {
    /// `self` after a notification for `n` listeners that carries nothing.
    pub open spec fn signaled(self, n: usize) -> EventView<()> {
        let k = self.quota(n, false);
        EventView {
            listeners: Seq::new(
                self.listeners.len(),
                |i: int|
                    if entries::chosen(self.listeners, k, i) {
                        ListenerEntry { id: self.listeners[i].id, waker: None, value: Some(()) }
                    } else {
                        self.listeners[i]
                    },
            ),
            ..self
        }
    }

    /// The wakers that a notification for `n` listeners wakes.
    pub open spec fn signaled_wakers(self, n: usize) -> Seq<Waker> {
        entries::chosen_wakers(self.listeners, self.quota(n, false))
    }
}

/// The listener that stands at `i` is found there.
pub proof fn lemma_position<T>(event: EventView<T>, i: int)
    requires
        event.wf(),
        0 <= i < event.listeners.len(),
    ensures
        event.has(event.listeners[i].id),
        event.position(event.listeners[i].id) == i,
{
}

/// Taking a notification and then removing the listener leaves what removing it leaves.
pub(crate) proof fn lemma_without_taken<T>(event: EventView<T>, id: usize)
    requires
        event.wf(),
        event.has(id),
    ensures
        event.taken(id).has(id),
        event.taken(id).entry(id).value is None,
        event.taken(id).without(id) == event.without(id),
{
    let i = event.position(id);
    assert(event.taken(id).wf());
    lemma_position(event.taken(id), i);
    assert(event.taken(id).without(id) =~= event.without(id));
}

/// A new listener that leaves a waker at once.
pub(crate) proof fn lemma_with_listener<T>(event: EventView<T>, waker: Waker)
    requires
        event.wf(),
        event.next_id < usize::MAX,
    ensures
        event.with_listener(None).wf(),
        event.with_listener(None).has(event.next_id),
        event.with_listener(None).entry(event.next_id).value is None,
        event.with_listener(None).with_waker(event.next_id, waker) == event.with_listener(
            Some(waker),
        ),
{
    let after = event.with_listener(None);
    lemma_position(after, event.listeners.len() as int);
    assert(after.with_waker(event.next_id, waker) =~= event.with_listener(Some(waker)));
}

/// Notifying all listeners leaves no task waiting.
pub(crate) proof fn lemma_signal_all(event: EventView<()>)
    requires
        event.wf(),
    ensures
        entries::all_wakers(event.signaled(usize::MAX).listeners) == Seq::<Waker>::empty(),
{
    let after = event.signaled(usize::MAX);
    assert forall|i: int| 0 <= i < after.listeners.len() implies (
    #[trigger] after.listeners[i]).waker is None by {
        entries::lemma_waiting_bound(event.listeners.take(i));
        assert(event.listeners[i].value is Some ==> event.listeners[i].waker is None);
    }
    entries::lemma_no_wakers(after.listeners);
}

/// After an event has been let go, giving a listener back wakes no task.
pub(crate) proof fn lemma_closed_dropped<T>(event: EventView<T>, id: usize)
    ensures
        event.closed().dropped_wakers(id) == Seq::<Waker>::empty(),
{
    let after = event.closed();
    if after.hands_on(id) {
        let rest = after.without(id).listeners;
        entries::lemma_first_waiting(rest);
        let i = entries::first_waiting(rest);
        let at = after.position(id);
        assert(rest[i] == after.listeners[if i < at {
            i
        } else {
            i + 1
        }]);
    }
}

/// An event that listeners wait for.
#[derive(Debug)]
pub struct Event<T = ()> {
    /// Listeners waiting for notification, by growing number.
    listeners: Vec<ListenerEntry<T>>,
    /// Counter for generating unique listener numbers.
    next_id: usize,
    /// Number of listeners that hold a notification that they have not taken yet.
    notified: usize,
    /// Whether the owner still holds the event.
    open: bool,
}

impl<T> View for Event<T> {
    type V = EventView<T>;

    closed spec fn view(&self) -> EventView<T> {
        EventView { listeners: self.listeners@, next_id: self.next_id, open: self.open }
    }
}

impl<T> Event<T> {
    /// The counter agrees with the entries.
    pub closed spec fn counted(&self) -> bool {
        self.notified == entries::notified_count(self.listeners@)
    }

    /// The invariant of an event.
    pub open spec fn wf(&self) -> bool {
        self@.wf() && self.counted()
    }
}

impl Default for Event<()> {
    fn default() -> (event: Self)
        ensures
            event.wf(),
            event@ == (EventView::<()> { listeners: Seq::empty(), next_id: 0, open: true }),
    {
        Self::new()
    }
}

impl Event<()> {
    /// A new event without listeners, for notifications that carry nothing.
    pub fn new() -> (event: Self)
        ensures
            event.wf(),
            event@ == (EventView::<()> { listeners: Seq::empty(), next_id: 0, open: true }),
    {
        Self::new_with()
    }
}

impl<T> Event<T> {
    /// A new event without listeners.
    pub fn new_with() -> (event: Self)
        ensures
            event.wf(),
            event@ == (EventView::<T> { listeners: Seq::empty(), next_id: 0, open: true }),
    {
        Event { listeners: Vec::new(), next_id: 0, notified: 0, open: true }
    }

    /// Registers one more listener and returns its number.
    fn register(&mut self) -> (id: usize)
        requires
            old(self).wf(),
            old(self)@.next_id < usize::MAX,
        ensures
            final(self).wf(),
            final(self)@ == old(self)@.with_listener(None),
            id == old(self)@.next_id,
    {
        let id: usize = self.next_id;
        self.next_id = self.next_id + 1;
        self.listeners.push(ListenerEntry { waker: None, id, value: None });
        proof {
            assert(self@.listeners.drop_last() =~= old(self)@.listeners);
        }
        id
    }

    /// Whether the owner still holds the event.
    pub(crate) fn is_open(&self) -> (open: bool)
        ensures
            open == self@.open,
    {
        self.open
    }

    /// Whether one more listener can get a number.
    pub fn can_listen(&self) -> (can: bool)
        ensures
            can == (self@.next_id < usize::MAX),
    {
        self.next_id < usize::MAX
    }

    /// Registers a listener.
    pub fn listen(&mut self) -> (listener: EventListener<T>)
        requires
            old(self).wf(),
            old(self)@.next_id < usize::MAX,
        ensures
            final(self).wf(),
            final(self)@ == old(self)@.with_listener(None),
            listener.id() == old(self)@.next_id,
    {
        EventListener { id: self.register(), marker: PhantomData }
    }

    /// Where the listener with the given number stands, if it is registered.
    fn find(&self, id: usize) -> (found: Option<usize>)
        requires
            self.wf(),
        ensures
            match found {
                Some(i) => self@.has(id) && i == self@.position(id) && i < self@.listeners.len(),
                None => !self@.has(id),
            },
    {
        let mut low: usize = 0;
        let mut high: usize = self.listeners.len();
        while low < high
            invariant
                self.wf(),
                low <= high <= self.listeners@.len(),
                forall|i: int| 0 <= i < low ==> (#[trigger] self.listeners@[i]).id < id,
                forall|i: int|
                    high <= i < self.listeners@.len() ==> id < (#[trigger] self.listeners@[i]).id,
            decreases high - low,
        {
            let middle: usize = low + (high - low) / 2;
            let candidate: usize = self.listeners[middle].id;
            if candidate == id {
                assert(self@.listeners[middle as int].id == id);
                return Some(middle);
            } else if candidate < id {
                low = middle + 1;
            } else {
                high = middle;
            }
        }
        None
    }
}

impl<T> Event<T> {
    /// Notifies listeners, as [`Event::notify_inner`] or [`Event::notify_additional`] does.
    ///
    /// The wakers of the notified listeners are added to `woken`, for the caller to wake.
    pub fn notify<V>(&mut self, value: V, woken: &mut Vec<Waker>) where V: Notification<Tag = T>
        requires
            old(self).wf(),
        ensures
            final(self).wf(),
            old(self)@.notifies(
                old(self)@.quota(value.how_many(), value.more()),
                |tag: T| value.is_tag(tag),
                final(self)@,
            ),
            final(woken)@ == old(woken)@ + entries::chosen_wakers(
                old(self)@.listeners,
                old(self)@.quota(value.how_many(), value.more()),
            ),
    {
        if value.is_additional() {
            self.notify_additional(value, woken);
        } else {
            self.notify_inner(value, woken);
        }
    }

    /// Notifies a number of active listeners.
    ///
    /// The number of notified listeners is determined by the notification's count `n`:
    /// - If `n` is `usize::MAX`, all active listeners are notified.
    /// - Otherwise, `n` active listeners are notified; those that already hold a notification
    ///   count among them.
    fn notify_inner<N: Notification<Tag = T>>(&mut self, notification: N, woken: &mut Vec<Waker>)
        requires
            old(self).wf(),
        ensures
            final(self).wf(),
            old(self)@.notifies(
                old(self)@.quota(notification.how_many(), false),
                |tag: T| notification.is_tag(tag),
                final(self)@,
            ),
            final(woken)@ == old(woken)@ + entries::chosen_wakers(
                old(self)@.listeners,
                old(self)@.quota(notification.how_many(), false),
            ),
    {
        let count: usize = if notification.count() == usize::MAX {
            self.listeners.len()
        } else {
            notification.count().saturating_sub(self.notified)
        };
        self.give(notification, count, woken);
    }

    /// Notifies a number of active and still waiting listeners.
    ///
    /// Unlike [`Event::notify_inner`], this only counts listeners that have not been notified
    /// yet and are still registered.
    fn notify_additional<N: Notification<Tag = T>>(
        &mut self,
        notification: N,
        woken: &mut Vec<Waker>,
    )
        requires
            old(self).wf(),
        ensures
            final(self).wf(),
            old(self)@.notifies(
                old(self)@.quota(notification.how_many(), true),
                |tag: T| notification.is_tag(tag),
                final(self)@,
            ),
            final(woken)@ == old(woken)@ + entries::chosen_wakers(
                old(self)@.listeners,
                old(self)@.quota(notification.how_many(), true),
            ),
    {
        let count: usize = if notification.count() >= self.listeners.len() {
            self.listeners.len()
        } else {
            notification.count()
        };
        self.give(notification, count, woken);
    }

    /// Gives the notification to the first `count` listeners that hold none.
    fn give<N: Notification<Tag = T>>(
        &mut self,
        notification: N,
        count: usize,
        woken: &mut Vec<Waker>,
    )
        requires
            old(self).wf(),
        ensures
            final(self).wf(),
            old(self)@.notifies(
                count as nat,
                |tag: T| notification.is_tag(tag),
                final(self)@,
            ),
            final(woken)@ == old(woken)@ + entries::chosen_wakers(
                old(self)@.listeners,
                count as nat,
            ),
    {
        let ghost before = self@.listeners;
        let ghost k = count as nat;
        let mut notified: usize = 0;
        let mut i: usize = 0;
        proof {
            assert(before.take(0) =~= Seq::empty());
            assert(woken@ =~= old(woken)@ + entries::chosen_wakers(before.take(0), k));
        }
        while i < self.listeners.len() && notified < count
            invariant
                i <= before.len(),
                k == count,
                before == old(self)@.listeners,
                self.listeners@.len() == before.len(),
                self.next_id == old(self)@.next_id,
                self.open == old(self)@.open,
                self.notified == old(self).notified,
                notified <= i,
                notified <= count,
                notified == entries::waiting(before.take(i as int)),
                forall|j: int|
                    0 <= j < i ==> {
                        let entry = #[trigger] self.listeners@[j];
                        if before[j].value is None {
                            &&& entry.id == before[j].id
                            &&& entry.waker is None
                            &&& entry.value is Some
                            &&& notification.is_tag(entry.value->0)
                        } else {
                            entry == before[j]
                        }
                    },
                forall|j: int|
                    0 <= j < i && before[j].value is None ==> entries::waiting(
                        #[trigger] before.take(j),
                    ) < k,
                forall|j: int| i <= j < before.len() ==> self.listeners@[j] == before[j],
                woken@ == old(woken)@ + entries::chosen_wakers(before.take(i as int), k),
            decreases before.len() - i,
        {
            proof {
                assert(before.take(i + 1).drop_last() =~= before.take(i as int));
                assert(before.take(i + 1).take(i as int) =~= before.take(i as int));
            }
            if !self.listeners[i].is_notified() {
                self.listeners[i].value = Some(notification.tag());
                if let Some(waker) = self.listeners[i].waker.take() {
                    woken.push(waker);
                }
                notified = notified + 1;
            }
            i = i + 1;
        }
        proof {
            entries::lemma_waiting_take(before, i as int, before.len() as int);
            entries::lemma_waiting_bound(before);
            assert(before.take(before.len() as int) =~= before);
            if i < before.len() {
                entries::lemma_chosen_wakers_stop(before, k, i as int, before.len() as int);
            }
            assert forall|j: int| i <= j < before.len() implies !entries::chosen(before, k, j) by {
                entries::lemma_waiting_take(before, i as int, j);
            }
            assert(old(self)@.notifies(k, |tag: T| notification.is_tag(tag), self@));
            entries::lemma_notified_after(before, self@.listeners, k, before.len() as int);
            assert(self@.listeners.take(before.len() as int) =~= self@.listeners);
        }
        self.notified = self.notified + notified;
    }
}

impl Event<()> {
    /// Notifies `n` listeners with nothing to carry.
    pub(crate) fn signal(&mut self, n: usize, woken: &mut Vec<Waker>)
        requires
            old(self).wf(),
        ensures
            final(self).wf(),
            final(self)@ == old(self)@.signaled(n),
            final(woken)@ == old(woken)@ + old(self)@.signaled_wakers(n),
    {
        self.notify(n, woken);
        proof {
            let after = old(self)@.signaled(n);
            assert forall|i: int| 0 <= i < after.listeners.len() implies self@.listeners[i]
                == #[trigger] after.listeners[i] by {
                assert(self@.listeners[i].id == old(self)@.listeners[i].id);
            }
            assert(self@.listeners =~= after.listeners);
        }
    }
}

impl<T> Event<T> {
    /// Lets go of the event: the tasks that still wait for it are woken, by adding their
    /// wakers to `woken`, without being notified.
    pub fn close(&mut self, woken: &mut Vec<Waker>)
        requires
            old(self).wf(),
        ensures
            final(self).wf(),
            final(self)@ == old(self)@.closed(),
            final(woken)@ == old(woken)@ + entries::all_wakers(old(self)@.listeners),
    {
        let ghost before = self@.listeners;
        let mut i: usize = 0;
        proof {
            assert(before.take(0) =~= Seq::empty());
            assert(woken@ =~= old(woken)@ + entries::all_wakers(before.take(0)));
        }
        while i < self.listeners.len()
            invariant
                i <= before.len(),
                before == old(self)@.listeners,
                self.listeners@.len() == before.len(),
                self.next_id == old(self)@.next_id,
                self.notified == old(self).notified,
                forall|j: int|
                    0 <= j < i ==> #[trigger] self.listeners@[j] == (ListenerEntry {
                        waker: None,
                        ..before[j]
                    }),
                forall|j: int| i <= j < before.len() ==> self.listeners@[j] == before[j],
                woken@ == old(woken)@ + entries::all_wakers(before.take(i as int)),
            decreases before.len() - i,
        {
            proof {
                assert(before.take(i + 1).drop_last() =~= before.take(i as int));
            }
            if let Some(waker) = self.listeners[i].waker.take() {
                woken.push(waker);
            }
            i = i + 1;
        }
        self.open = false;
        proof {
            assert(before.take(before.len() as int) =~= before);
            entries::lemma_waiting_same(before, self@.listeners);
        }
    }

    /// A stream of the notifications of one listener after another, the first of which is
    /// registered now.
    pub fn stream(&mut self) -> (stream: EventStream<T>)
        requires
            old(self).wf(),
            old(self)@.next_id < usize::MAX,
        ensures
            final(self).wf(),
            final(self)@ == old(self)@.with_listener(None),
            stream@ == StreamView::Listening(old(self)@.next_id),
    {
        EventStream::new(self.listen())
    }
}

/// A listener that is registered with an event.
pub struct EventListener<T = ()> {
    id: usize,
    marker: PhantomData<T>,
}

impl<T> EventListener<T> {
    /// The listener's number.
    pub closed spec fn id(&self) -> usize {
        self.id
    }
}

impl<T> EventListener<T> {
    /// Whether the listener holds a notification.
    pub fn is_notified(&self, event: &Event<T>) -> (b: bool)
        requires
            event.wf(),
        ensures
            b == event@.is_notified(self.id()),
    {
        match event.find(self.id) {
            Some(i) => event.listeners[i].is_notified(),
            None => false,
        }
    }

    /// Whether polling the listener makes no further progress than handing its notification
    /// out: it holds one, or it is no longer registered.
    pub fn is_terminated(&self, event: &Event<T>) -> (b: bool)
        requires
            event.wf(),
        ensures
            b == (event@.has(self.id()) ==> event@.is_notified(self.id())),
    {
        match event.find(self.id) {
            Some(i) => event.listeners[i].is_notified(),
            None => true,
        }
    }

    /// Takes the notification that the listener holds, if it holds one.
    pub(crate) fn take(&self, event: &mut Event<T>) -> (value: Option<T>)
        requires
            old(event).wf(),
            old(event)@.has(self.id()),
        ensures
            final(event).wf(),
            value == old(event)@.entry(self.id()).value,
            final(event)@ == (if value is Some {
                old(event)@.taken(self.id())
            } else {
                old(event)@
            }),
    {
        match event.find(self.id) {
            Some(i) => {
                let value = event.listeners[i].value.take();
                proof {
                    entries::lemma_waiting_update(
                        old(event)@.listeners,
                        i as int,
                        event@.listeners[i as int],
                    );
                    entries::lemma_waiting_bound(event@.listeners);
                    assert(event@.listeners =~= old(event)@.listeners.update(
                        i as int,
                        event@.listeners[i as int],
                    ));
                }
                if value.is_some() {
                    event.notified = event.notified - 1;
                }
                value
            },
            None => None,
        }
    }

    /// Leaves the waker of the task that waits for the notification.
    pub(crate) fn wait(&self, event: &mut Event<T>, waker: Waker)
        requires
            old(event).wf(),
            old(event)@.has(self.id()),
            old(event)@.entry(self.id()).value is None,
        ensures
            final(event).wf(),
            final(event)@ == old(event)@.with_waker(self.id(), waker),
    {
        if let Some(i) = event.find(self.id) {
            event.listeners[i].waker = Some(waker);
            proof {
                entries::lemma_waiting_update(
                    old(event)@.listeners,
                    i as int,
                    event@.listeners[i as int],
                );
                assert(event@.listeners =~= old(event)@.listeners.update(
                    i as int,
                    event@.listeners[i as int],
                ));
            }
        }
    }

    /// Takes the notification, or leaves `waker` to be woken when there is one.
    pub fn poll(&self, event: &mut Event<T>, waker: Waker) -> (polled: Poll<T>)
        requires
            old(event).wf(),
            old(event)@.has(self.id()),
        ensures
            final(event).wf(),
            match old(event)@.entry(self.id()).value {
                Some(value) => polled == Poll::Ready(value) && final(event)@ == old(event)@.taken(
                    self.id(),
                ),
                None => polled is Pending && final(event)@ == old(event)@.with_waker(
                    self.id(),
                    waker,
                ),
            },
    {
        match self.take(event) {
            Some(value) => Poll::Ready(value),
            None => {
                self.wait(event, waker);
                Poll::Pending
            },
        }
    }

    /// Gives the listener back. A notification that it still holds is handed on to the
    /// earliest listener that holds none, whose waker is added to `woken`.
    pub fn drop(self, event: &mut Event<T>, woken: &mut Vec<Waker>)
        requires
            old(event).wf(),
        ensures
            final(event).wf(),
            final(event)@ == old(event)@.dropped(self.id()),
            final(woken)@ == old(woken)@ + old(event)@.dropped_wakers(self.id()),
    {
        let i: usize = match event.find(self.id) {
            Some(i) => i,
            None => {
                return ;
            },
        };
        let entry = event.listeners.remove(i);
        let ghost before = old(event)@.listeners;
        let ghost rest = event@.listeners;
        proof {
            entries::lemma_waiting_remove(before, i as int);
            entries::lemma_waiting_bound(rest);
        }
        if !entry.is_notified() {
            return ;
        }
        event.notified = event.notified - 1;
        let mut next: usize = 0;
        proof {
            entries::lemma_first_waiting(rest);
        }
        while next < event.listeners.len() && event.listeners[next].is_notified()
            invariant
                next <= event.listeners@.len(),
                event.listeners@ == rest,
                forall|j: int| 0 <= j < next ==> (#[trigger] rest[j]).value is Some,
            decreases rest.len() - next,
        {
            next = next + 1;
        }
        if next == event.listeners.len() {
            return ;
        }
        proof {
            entries::lemma_waiting_update(
                rest,
                next as int,
                ListenerEntry { waker: None, value: entry.value, ..rest[next as int] },
            );
        }
        event.listeners[next].value = entry.value;
        if let Some(waker) = event.listeners[next].waker.take() {
            woken.push(waker);
        }
        event.notified = event.notified + 1;
        proof {
            assert(event@.listeners =~= rest.update(
                next as int,
                ListenerEntry { waker: None, value: entry.value, ..rest[next as int] },
            ));
        }
    }
}

impl<T> EventListener<T> {
    /// Gives back a listener that holds no notification.
    pub(crate) fn discard(self, event: &mut Event<T>)
        requires
            old(event).wf(),
            old(event)@.has(self.id()),
            old(event)@.entry(self.id()).value is None,
        ensures
            final(event).wf(),
            final(event)@ == old(event)@.without(self.id()),
    {
        if let Some(i) = event.find(self.id) {
            event.listeners.remove(i);
            proof {
                entries::lemma_waiting_remove(old(event)@.listeners, i as int);
            }
        }
    }
}

} // verus!
