//! Values that can be let go of and, while they are still there, got back.
use vstd::prelude::*;

pub mod laws;
pub mod primitives;
pub mod tuples;

verus! {

/// A value that can be let go of.
pub trait Downgrade {
    /// What is left of the value.
    type Target: Upgrade;

    /// Whether `weak` may be what is left of the value.
    open spec fn downgrades(&self, weak: Self::Target) -> bool {
        true
    }

    /// What is left of the value when nothing keeps it through this.
    fn downgrade(&self) -> (weak: Self::Target)
        ensures
            self.downgrades(weak),
    ;
}

/// What is left of a value that has been let go of.
pub trait Upgrade {
    /// The value.
    type Target;

    /// Whether `strong` may come back.
    open spec fn upgrades(&self, strong: Option<Self::Target>) -> bool {
        true
    }

    /// The value, if it is still there.
    fn upgrade(&self) -> (strong: Option<Self::Target>)
        ensures
            self.upgrades(strong),
    ;
}

impl<'a, T> Downgrade for &'a T where T: Downgrade {
    type Target = T::Target;

    open spec fn downgrades(&self, weak: T::Target) -> bool {
        (**self).downgrades(weak)
    }

    fn downgrade(&self) -> (weak: T::Target) {
        (**self).downgrade()
    }
}

impl<'a, T> Upgrade for &'a T where T: Upgrade {
    type Target = T::Target;

    open spec fn upgrades(&self, strong: Option<T::Target>) -> bool {
        (**self).upgrades(strong)
    }

    fn upgrade(&self) -> (strong: Option<T::Target>) {
        (**self).upgrade()
    }
}

impl<'a, T> Downgrade for &'a mut T where T: Downgrade {
    type Target = T::Target;

    open spec fn downgrades(&self, weak: T::Target) -> bool {
        (**self).downgrades(weak)
    }

    fn downgrade(&self) -> (weak: T::Target) {
        (**self).downgrade()
    }
}

impl<'a, T> Upgrade for &'a mut T where T: Upgrade {
    type Target = T::Target;

    open spec fn upgrades(&self, strong: Option<T::Target>) -> bool {
        (**self).upgrades(strong)
    }

    fn upgrade(&self) -> (strong: Option<T::Target>) {
        (**self).upgrade()
    }
}

impl<T> Downgrade for Option<T> where T: Downgrade {
    type Target = Option<T::Target>;

    open spec fn downgrades(&self, weak: Option<T::Target>) -> bool {
        match (*self, weak) {
            (Some(value), Some(weak)) => value.downgrades(weak),
            (None, None) => true,
            _ => false,
        }
    }

    fn downgrade(&self) -> (weak: Option<T::Target>) {
        match self {
            Some(value) => Some(value.downgrade()),
            None => None,
        }
    }
}

impl<T> Upgrade for Option<T> where T: Upgrade {
    type Target = Option<T::Target>;

    open spec fn upgrades(&self, strong: Option<Option<T::Target>>) -> bool {
        match (*self, strong) {
            (Some(value), Some(strong)) => value.upgrades(strong),
            (None, None) => true,
            _ => false,
        }
    }

    fn upgrade(&self) -> (strong: Option<Option<T::Target>>) {
        match self {
            Some(value) => Some(value.upgrade()),
            None => None,
        }
    }
}

} // verus!
