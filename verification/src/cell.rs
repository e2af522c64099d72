//! A cell that tells its subscribers when its value changes.
use core::task::Waker;

use vstd::prelude::*;
use vstd::std_specs::cmp::PartialEqSpec;

use crate::emitter::EventTarget;
use crate::event::{Event, EventStream, EventView, StreamView};

verus! {

/// What an observable cell holds.
#[verifier::ext_equal]
pub struct CellView<T> {
    /// The value.
    pub value: T,
    /// Notifies the subscribers.
    pub event: EventView<()>,
}

impl<T> CellView<T> {
    /// `self` after the value has been changed.
    pub open spec fn changed(self, value: T) -> CellView<T> {
        CellView { value, event: self.event.signaled(usize::MAX) }
    }
}

/// A value whose changes can be subscribed to.
pub struct ObservableCell<T> {
    value: T,
    event: Event<()>,
}

impl<T> View for ObservableCell<T> {
    type V = CellView<T>;

    closed spec fn view(&self) -> CellView<T> {
        CellView { value: self.value, event: self.event@ }
    }
}

impl<T> ObservableCell<T> {
    /// The event's own bookkeeping is in order.
    pub closed spec fn event_wf(&self) -> bool {
        self.event.wf()
    }

    /// The invariant of a cell.
    pub open spec fn wf(&self) -> bool {
        self@.event.wf() && self.event_wf()
    }

    /// The event that the subscribers listen to, for their streams to be polled with.
    pub fn event(&mut self) -> (event: &mut Event<()>)
        requires
            old(self).wf(),
        ensures
            event.wf(),
            event@ == old(self)@.event,
            final(event).wf() ==> final(self).wf(),
            final(self)@ == (CellView { event: final(event)@, ..old(self)@ }),
    {
        &mut self.event
    }
}

impl<T: Clone> Clone for ObservableCell<T> {
    /// A cell with the same value and no subscribers.
    fn clone(&self) -> (cell: Self)
        ensures
            cell.wf(),
            cloned(self@.value, cell@.value),
            cell@.event == (EventView::<()> { listeners: Seq::empty(), next_id: 0, open: true }),
    {
        ObservableCell { value: self.value.clone(), event: Event::new() }
    }
}

impl<T: PartialEq> ObservableCell<T> {
    /// A cell without subscribers.
    pub fn new(value: T) -> (cell: Self)
        ensures
            cell.wf(),
            cell@ == (CellView {
                value,
                event: EventView { listeners: Seq::empty(), next_id: 0, open: true },
            }),
    {
        ObservableCell { value, event: Event::new() }
    }

    /// The value.
    pub fn get(&self) -> (value: &T)
        ensures
            *value == self@.value,
    {
        &self.value
    }

    /// Sets the value. If it differs from the one before, all subscribers are notified.
    pub fn set(&mut self, value: T, woken: &mut Vec<Waker>)
        requires
            old(self).wf(),
        ensures
            final(self).wf(),
            exists|differs: bool|
                #[trigger] call_ensures(T::ne, (&old(self)@.value, &value), differs) && if differs {
                    &&& final(self)@ == old(self)@.changed(value)
                    &&& final(woken)@ == old(woken)@ + old(self)@.event.signaled_wakers(usize::MAX)
                } else {
                    &&& final(self)@ == old(self)@
                    &&& final(woken)@ == old(woken)@
                },
            T::obeys_eq_spec() ==> if old(self)@.value.eq_spec(&value) {
                &&& final(self)@ == old(self)@
                &&& final(woken)@ == old(woken)@
            } else {
                &&& final(self)@ == old(self)@.changed(value)
                &&& final(woken)@ == old(woken)@ + old(self)@.event.signaled_wakers(usize::MAX)
            },
    {
        let differs: bool = self.value != value;
        assert(call_ensures(T::ne, (&old(self)@.value, &value), differs));
        if differs {
            self.value = value;
            self.event.signal(usize::MAX, woken);
        }
    }
}

impl<T> EventTarget<()> for ObservableCell<T> {
    type Stream = EventStream<()>;

    open spec fn can_subscribe(&self) -> bool {
        self.wf() && self@.event.next_id < usize::MAX
    }

    open spec fn subscribes(&self, after: &Self, stream: EventStream<()>) -> bool {
        &&& after.wf()
        &&& after@ == (CellView { event: self@.event.with_listener(None), ..self@ })
        &&& stream@ == StreamView::Listening(self@.event.next_id)
    }

    fn subscribe(&mut self) -> (stream: EventStream<()>) {
        self.event.stream()
    }
}

impl<T: PartialEq> PartialEq for ObservableCell<T> {
    fn eq(&self, other: &Self) -> (equal: bool) {
        *self.get() == *other.get()
    }
}

impl<T: PartialEq> vstd::std_specs::cmp::PartialEqSpecImpl for ObservableCell<T> {
    open spec fn obeys_eq_spec() -> bool {
        T::obeys_eq_spec()
    }

    open spec fn eq_spec(&self, other: &Self) -> bool {
        self@.value.eq_spec(&other@.value)
    }
}

/// A changed value notifies every subscriber and wakes its task if it waits.
pub proof fn law_change_notifies_all<T>(cell: CellView<T>, value: T, id: usize)
    requires
        cell.event.wf(),
        cell.event.has(id),
    ensures
        cell.changed(value).event.is_notified(id),
        cell.event.entry(id).waker matches Some(waker) ==> cell.event.signaled_wakers(
            usize::MAX,
        ).contains(waker),
{
    crate::event::laws::law_signal_all(cell.event, id);
}

/// What a change does: the cell holds the new value, and every subscriber that held no notification
/// gets one.
pub proof fn law_change_exact<T>(cell: CellView<T>, value: T, i: int)
    requires
        0 <= i < cell.event.listeners.len(),
    ensures
        cell.changed(value).value == value,
        cell.changed(value).event == cell.event.signaled(usize::MAX),
        cell.changed(value).event.listeners[i].id == cell.event.listeners[i].id,
        cell.changed(value).event.listeners[i].value is Some,
        cell.event.listeners[i].value is None && cell.event.listeners[i].waker is Some
            ==> cell.event.signaled_wakers(usize::MAX).contains(cell.event.listeners[i].waker->0),
{
    let event = cell.event;
    let after = event.signaled(usize::MAX);
    crate::event::laws::law_notify_all(event, false, |tag: ()| true, after);
    assert(after.listeners[i].id == event.listeners[i].id);
    if event.listeners[i].value is None && event.listeners[i].waker is Some {
        crate::event::exact::law_reached_is_woken(
            event,
            usize::MAX,
            i,
            event.listeners[i].waker->0,
        );
    }
}

/// What subscribing to a cell does: one more listener waits, with the stream, and the value stays.
pub proof fn law_cell_subscribe_exact<T>(
    cell: ObservableCell<T>,
    after: ObservableCell<T>,
    stream: EventStream<()>,
)
    requires
        cell.subscribes(&after, stream),
    ensures
        after@.value == cell@.value,
        after@.event == cell@.event.with_listener(None),
        stream@ == StreamView::Listening(cell@.event.next_id),
{
}

/// Cells are equal exactly when their values are.
pub proof fn law_cells_equal<T: PartialEq>(left: ObservableCell<T>, right: ObservableCell<T>)
    ensures
        left.eq_spec(&right) <==> left@.value.eq_spec(&right@.value),
        ObservableCell::<T>::obeys_eq_spec() <==> T::obeys_eq_spec(),
{
}

/// A cell that is in order takes one more subscriber whenever there is a number for it.
pub proof fn law_cell_can<T>(cell: ObservableCell<T>)
    ensures
        cell.can_subscribe() <==> cell.wf() && cell@.event.next_id < usize::MAX,
{
}

} // verus!
