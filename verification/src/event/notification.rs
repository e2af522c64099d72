//! Notifications: how many listeners to notify, and with what.
use vstd::prelude::*;

use crate::internal::Sealed;

verus! {

/// A request to notify listeners: how many, which of them count, and with what.
pub trait Notification: Sealed {
    /// What a notified listener receives.
    type Tag;

    /// The number of listeners to notify.
    spec fn how_many(&self) -> usize;

    /// Whether only listeners that hold no notification yet count.
    spec fn more(&self) -> bool;

    /// Whether a notified listener may receive this value.
    spec fn is_tag(&self, tag: Self::Tag) -> bool;

    /// The number of listeners to notify.
    fn count(&self) -> (n: usize)
        ensures
            n == self.how_many(),
    ;

    /// Whether only listeners that hold no notification yet count.
    fn is_additional(&self) -> (b: bool)
        ensures
            b == self.more(),
    ;

    /// The value for one more notified listener.
    fn tag(&self) -> (tag: Self::Tag)
        ensures
            self.is_tag(tag),
    ;
}

impl Sealed for usize {

}

impl Notification for usize {
    type Tag = ();

    open spec fn how_many(&self) -> usize {
        *self
    }

    open spec fn more(&self) -> bool {
        false
    }

    open spec fn is_tag(&self, tag: ()) -> bool {
        true
    }

    fn count(&self) -> (n: usize) {
        *self
    }

    fn is_additional(&self) -> (b: bool) {
        false
    }

    fn tag(&self) -> (tag: ()) {
    }
}

/// Ways to build a notification from another.
pub trait NotificationExt: Notification {
    /// The notification that only counts listeners that hold no notification yet.
    fn additional(self) -> (notification: AddtionalNotification<Self>) where Self: Sized
        ensures
            notification@ == self,
    {
        AddtionalNotification { inner: self }
    }

    /// The notification that carries a value.
    fn with<V>(self, value: V) -> (notification: WithNotification<V, Self>) where Self: Sized
        ensures
            notification@ == (value, self),
    {
        WithNotification { inner: self, value }
    }
}

impl<V> NotificationExt for V where V: Notification {

}

/// A notification that only counts listeners that hold no notification yet.
pub struct AddtionalNotification<T> {
    inner: T,
}

impl<T> View for AddtionalNotification<T> {
    type V = T;

    closed spec fn view(&self) -> T {
        self.inner
    }
}

impl<T> Sealed for AddtionalNotification<T> {

}

impl<V> Notification for AddtionalNotification<V> where V: Notification {
    type Tag = V::Tag;

    open spec fn how_many(&self) -> usize {
        self@.how_many()
    }

    open spec fn more(&self) -> bool {
        true
    }

    open spec fn is_tag(&self, tag: V::Tag) -> bool {
        self@.is_tag(tag)
    }

    fn count(&self) -> (n: usize) {
        self.inner.count()
    }

    fn is_additional(&self) -> (b: bool) {
        true
    }

    fn tag(&self) -> (tag: V::Tag) {
        self.inner.tag()
    }
}

/// A notification that carries a value, which every notified listener gets a clone of.
pub struct WithNotification<T, N> {
    inner: N,
    value: T,
}

impl<T, N> View for WithNotification<T, N> {
    type V = (T, N);

    closed spec fn view(&self) -> (T, N) {
        (self.value, self.inner)
    }
}

impl<T, N> Sealed for WithNotification<T, N> {

}

impl<T, N> Notification for WithNotification<T, N> where N: Notification, T: Clone {
    type Tag = T;

    open spec fn how_many(&self) -> usize {
        self@.1.how_many()
    }

    open spec fn more(&self) -> bool {
        self@.1.more()
    }

    open spec fn is_tag(&self, tag: T) -> bool {
        cloned(self@.0, tag)
    }

    fn count(&self) -> (n: usize) {
        self.inner.count()
    }

    fn is_additional(&self) -> (b: bool) {
        self.inner.is_additional()
    }

    fn tag(&self) -> (tag: T) {
        self.value.clone()
    }
}

} // verus!
