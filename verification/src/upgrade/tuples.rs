//! Tuples: they come back if all their parts do.
use vstd::prelude::*;

use super::{Downgrade, Upgrade};

verus! {

impl<T1> Downgrade for (T1,) where T1: Downgrade {
    type Target = (T1::Target,);

    open spec fn downgrades(&self, weak: Self::Target) -> bool {
        &&& self.0.downgrades(weak.0)
    }

    fn downgrade(&self) -> (weak: Self::Target) {
        (self.0.downgrade(),)
    }
}

impl<T1> Upgrade for (T1,) where T1: Upgrade {
    type Target = (T1::Target,);

    open spec fn upgrades(&self, strong: Option<Self::Target>) -> bool {
        match strong {
            Some(strong) => {
                &&& self.0.upgrades(Some(strong.0))
            },
            None => {
                ||| self.0.upgrades(None)
            },
        }
    }

    fn upgrade(&self) -> (strong: Option<Self::Target>) {
        Some((self.0.upgrade()?,))
    }
}

impl<T1, T2> Downgrade for (T1, T2) where T1: Downgrade, T2: Downgrade {
    type Target = (T1::Target, T2::Target);

    open spec fn downgrades(&self, weak: Self::Target) -> bool {
        &&& self.0.downgrades(weak.0)
        &&& self.1.downgrades(weak.1)
    }

    fn downgrade(&self) -> (weak: Self::Target) {
        (self.0.downgrade(), self.1.downgrade())
    }
}

impl<T1, T2> Upgrade for (T1, T2) where T1: Upgrade, T2: Upgrade {
    type Target = (T1::Target, T2::Target);

    open spec fn upgrades(&self, strong: Option<Self::Target>) -> bool {
        match strong {
            Some(strong) => {
                &&& self.0.upgrades(Some(strong.0))
                &&& self.1.upgrades(Some(strong.1))
            },
            None => {
                ||| self.0.upgrades(None)
                ||| self.1.upgrades(None)
            },
        }
    }

    fn upgrade(&self) -> (strong: Option<Self::Target>) {
        Some((self.0.upgrade()?, self.1.upgrade()?))
    }
}

impl<T1, T2, T3> Downgrade for (T1, T2, T3) where T1: Downgrade, T2: Downgrade, T3: Downgrade {
    type Target = (T1::Target, T2::Target, T3::Target);

    open spec fn downgrades(&self, weak: Self::Target) -> bool {
        &&& self.0.downgrades(weak.0)
        &&& self.1.downgrades(weak.1)
        &&& self.2.downgrades(weak.2)
    }

    fn downgrade(&self) -> (weak: Self::Target) {
        (self.0.downgrade(), self.1.downgrade(), self.2.downgrade())
    }
}

impl<T1, T2, T3> Upgrade for (T1, T2, T3) where T1: Upgrade, T2: Upgrade, T3: Upgrade {
    type Target = (T1::Target, T2::Target, T3::Target);

    open spec fn upgrades(&self, strong: Option<Self::Target>) -> bool {
        match strong {
            Some(strong) => {
                &&& self.0.upgrades(Some(strong.0))
                &&& self.1.upgrades(Some(strong.1))
                &&& self.2.upgrades(Some(strong.2))
            },
            None => {
                ||| self.0.upgrades(None)
                ||| self.1.upgrades(None)
                ||| self.2.upgrades(None)
            },
        }
    }

    fn upgrade(&self) -> (strong: Option<Self::Target>) {
        Some((self.0.upgrade()?, self.1.upgrade()?, self.2.upgrade()?))
    }
}

impl<T1, T2, T3, T4> Downgrade for (T1, T2, T3, T4) where
    T1: Downgrade, T2: Downgrade, T3: Downgrade, T4: Downgrade,
{
    type Target = (T1::Target, T2::Target, T3::Target, T4::Target);

    open spec fn downgrades(&self, weak: Self::Target) -> bool {
        &&& self.0.downgrades(weak.0)
        &&& self.1.downgrades(weak.1)
        &&& self.2.downgrades(weak.2)
        &&& self.3.downgrades(weak.3)
    }

    fn downgrade(&self) -> (weak: Self::Target) {
        (self.0.downgrade(), self.1.downgrade(), self.2.downgrade(), self.3.downgrade())
    }
}

impl<T1, T2, T3, T4> Upgrade for (T1, T2, T3, T4) where
    T1: Upgrade, T2: Upgrade, T3: Upgrade, T4: Upgrade,
{
    type Target = (T1::Target, T2::Target, T3::Target, T4::Target);

    open spec fn upgrades(&self, strong: Option<Self::Target>) -> bool {
        match strong {
            Some(strong) => {
                &&& self.0.upgrades(Some(strong.0))
                &&& self.1.upgrades(Some(strong.1))
                &&& self.2.upgrades(Some(strong.2))
                &&& self.3.upgrades(Some(strong.3))
            },
            None => {
                ||| self.0.upgrades(None)
                ||| self.1.upgrades(None)
                ||| self.2.upgrades(None)
                ||| self.3.upgrades(None)
            },
        }
    }

    fn upgrade(&self) -> (strong: Option<Self::Target>) {
        Some((self.0.upgrade()?, self.1.upgrade()?, self.2.upgrade()?, self.3.upgrade()?))
    }
}

impl<T1, T2, T3, T4, T5> Downgrade for (T1, T2, T3, T4, T5) where
    T1: Downgrade, T2: Downgrade, T3: Downgrade, T4: Downgrade, T5: Downgrade,
{
    type Target = (T1::Target, T2::Target, T3::Target, T4::Target, T5::Target);

    open spec fn downgrades(&self, weak: Self::Target) -> bool {
        &&& self.0.downgrades(weak.0)
        &&& self.1.downgrades(weak.1)
        &&& self.2.downgrades(weak.2)
        &&& self.3.downgrades(weak.3)
        &&& self.4.downgrades(weak.4)
    }

    fn downgrade(&self) -> (weak: Self::Target) {
        (
            self.0.downgrade(), self.1.downgrade(), self.2.downgrade(), self.3.downgrade(),
            self.4.downgrade(),
        )
    }
}

impl<T1, T2, T3, T4, T5> Upgrade for (T1, T2, T3, T4, T5) where
    T1: Upgrade, T2: Upgrade, T3: Upgrade, T4: Upgrade, T5: Upgrade,
{
    type Target = (T1::Target, T2::Target, T3::Target, T4::Target, T5::Target);

    open spec fn upgrades(&self, strong: Option<Self::Target>) -> bool {
        match strong {
            Some(strong) => {
                &&& self.0.upgrades(Some(strong.0))
                &&& self.1.upgrades(Some(strong.1))
                &&& self.2.upgrades(Some(strong.2))
                &&& self.3.upgrades(Some(strong.3))
                &&& self.4.upgrades(Some(strong.4))
            },
            None => {
                ||| self.0.upgrades(None)
                ||| self.1.upgrades(None)
                ||| self.2.upgrades(None)
                ||| self.3.upgrades(None)
                ||| self.4.upgrades(None)
            },
        }
    }

    fn upgrade(&self) -> (strong: Option<Self::Target>) {
        Some((
            self.0.upgrade()?, self.1.upgrade()?, self.2.upgrade()?, self.3.upgrade()?,
            self.4.upgrade()?,
        ))
    }
}

impl<T1, T2, T3, T4, T5, T6> Downgrade for (T1, T2, T3, T4, T5, T6) where
    T1: Downgrade, T2: Downgrade, T3: Downgrade, T4: Downgrade, T5: Downgrade, T6: Downgrade,
{
    type Target = (T1::Target, T2::Target, T3::Target, T4::Target, T5::Target, T6::Target);

    open spec fn downgrades(&self, weak: Self::Target) -> bool {
        &&& self.0.downgrades(weak.0)
        &&& self.1.downgrades(weak.1)
        &&& self.2.downgrades(weak.2)
        &&& self.3.downgrades(weak.3)
        &&& self.4.downgrades(weak.4)
        &&& self.5.downgrades(weak.5)
    }

    fn downgrade(&self) -> (weak: Self::Target) {
        (
            self.0.downgrade(), self.1.downgrade(), self.2.downgrade(), self.3.downgrade(),
            self.4.downgrade(), self.5.downgrade(),
        )
    }
}

impl<T1, T2, T3, T4, T5, T6> Upgrade for (T1, T2, T3, T4, T5, T6) where
    T1: Upgrade, T2: Upgrade, T3: Upgrade, T4: Upgrade, T5: Upgrade, T6: Upgrade,
{
    type Target = (T1::Target, T2::Target, T3::Target, T4::Target, T5::Target, T6::Target);

    open spec fn upgrades(&self, strong: Option<Self::Target>) -> bool {
        match strong {
            Some(strong) => {
                &&& self.0.upgrades(Some(strong.0))
                &&& self.1.upgrades(Some(strong.1))
                &&& self.2.upgrades(Some(strong.2))
                &&& self.3.upgrades(Some(strong.3))
                &&& self.4.upgrades(Some(strong.4))
                &&& self.5.upgrades(Some(strong.5))
            },
            None => {
                ||| self.0.upgrades(None)
                ||| self.1.upgrades(None)
                ||| self.2.upgrades(None)
                ||| self.3.upgrades(None)
                ||| self.4.upgrades(None)
                ||| self.5.upgrades(None)
            },
        }
    }

    fn upgrade(&self) -> (strong: Option<Self::Target>) {
        Some((
            self.0.upgrade()?, self.1.upgrade()?, self.2.upgrade()?, self.3.upgrade()?,
            self.4.upgrade()?, self.5.upgrade()?,
        ))
    }
}

impl<T1, T2, T3, T4, T5, T6, T7> Downgrade for (T1, T2, T3, T4, T5, T6, T7) where
    T1: Downgrade, T2: Downgrade, T3: Downgrade, T4: Downgrade, T5: Downgrade, T6: Downgrade,
    T7: Downgrade,
{
    type Target = (
        T1::Target, T2::Target, T3::Target, T4::Target, T5::Target, T6::Target, T7::Target,
    );

    open spec fn downgrades(&self, weak: Self::Target) -> bool {
        &&& self.0.downgrades(weak.0)
        &&& self.1.downgrades(weak.1)
        &&& self.2.downgrades(weak.2)
        &&& self.3.downgrades(weak.3)
        &&& self.4.downgrades(weak.4)
        &&& self.5.downgrades(weak.5)
        &&& self.6.downgrades(weak.6)
    }

    fn downgrade(&self) -> (weak: Self::Target) {
        (
            self.0.downgrade(), self.1.downgrade(), self.2.downgrade(), self.3.downgrade(),
            self.4.downgrade(), self.5.downgrade(), self.6.downgrade(),
        )
    }
}

impl<T1, T2, T3, T4, T5, T6, T7> Upgrade for (T1, T2, T3, T4, T5, T6, T7) where
    T1: Upgrade, T2: Upgrade, T3: Upgrade, T4: Upgrade, T5: Upgrade, T6: Upgrade, T7: Upgrade,
{
    type Target = (
        T1::Target, T2::Target, T3::Target, T4::Target, T5::Target, T6::Target, T7::Target,
    );

    open spec fn upgrades(&self, strong: Option<Self::Target>) -> bool {
        match strong {
            Some(strong) => {
                &&& self.0.upgrades(Some(strong.0))
                &&& self.1.upgrades(Some(strong.1))
                &&& self.2.upgrades(Some(strong.2))
                &&& self.3.upgrades(Some(strong.3))
                &&& self.4.upgrades(Some(strong.4))
                &&& self.5.upgrades(Some(strong.5))
                &&& self.6.upgrades(Some(strong.6))
            },
            None => {
                ||| self.0.upgrades(None)
                ||| self.1.upgrades(None)
                ||| self.2.upgrades(None)
                ||| self.3.upgrades(None)
                ||| self.4.upgrades(None)
                ||| self.5.upgrades(None)
                ||| self.6.upgrades(None)
            },
        }
    }

    fn upgrade(&self) -> (strong: Option<Self::Target>) {
        Some((
            self.0.upgrade()?, self.1.upgrade()?, self.2.upgrade()?, self.3.upgrade()?,
            self.4.upgrade()?, self.5.upgrade()?, self.6.upgrade()?,
        ))
    }
}

impl<T1, T2, T3, T4, T5, T6, T7, T8> Downgrade for (T1, T2, T3, T4, T5, T6, T7, T8) where
    T1: Downgrade, T2: Downgrade, T3: Downgrade, T4: Downgrade, T5: Downgrade, T6: Downgrade,
    T7: Downgrade, T8: Downgrade,
{
    type Target = (
        T1::Target, T2::Target, T3::Target, T4::Target, T5::Target, T6::Target, T7::Target,
        T8::Target,
    );

    open spec fn downgrades(&self, weak: Self::Target) -> bool {
        &&& self.0.downgrades(weak.0)
        &&& self.1.downgrades(weak.1)
        &&& self.2.downgrades(weak.2)
        &&& self.3.downgrades(weak.3)
        &&& self.4.downgrades(weak.4)
        &&& self.5.downgrades(weak.5)
        &&& self.6.downgrades(weak.6)
        &&& self.7.downgrades(weak.7)
    }

    fn downgrade(&self) -> (weak: Self::Target) {
        (
            self.0.downgrade(), self.1.downgrade(), self.2.downgrade(), self.3.downgrade(),
            self.4.downgrade(), self.5.downgrade(), self.6.downgrade(), self.7.downgrade(),
        )
    }
}

impl<T1, T2, T3, T4, T5, T6, T7, T8> Upgrade for (T1, T2, T3, T4, T5, T6, T7, T8) where
    T1: Upgrade, T2: Upgrade, T3: Upgrade, T4: Upgrade, T5: Upgrade, T6: Upgrade, T7: Upgrade,
    T8: Upgrade,
{
    type Target = (
        T1::Target, T2::Target, T3::Target, T4::Target, T5::Target, T6::Target, T7::Target,
        T8::Target,
    );

    open spec fn upgrades(&self, strong: Option<Self::Target>) -> bool {
        match strong {
            Some(strong) => {
                &&& self.0.upgrades(Some(strong.0))
                &&& self.1.upgrades(Some(strong.1))
                &&& self.2.upgrades(Some(strong.2))
                &&& self.3.upgrades(Some(strong.3))
                &&& self.4.upgrades(Some(strong.4))
                &&& self.5.upgrades(Some(strong.5))
                &&& self.6.upgrades(Some(strong.6))
                &&& self.7.upgrades(Some(strong.7))
            },
            None => {
                ||| self.0.upgrades(None)
                ||| self.1.upgrades(None)
                ||| self.2.upgrades(None)
                ||| self.3.upgrades(None)
                ||| self.4.upgrades(None)
                ||| self.5.upgrades(None)
                ||| self.6.upgrades(None)
                ||| self.7.upgrades(None)
            },
        }
    }

    fn upgrade(&self) -> (strong: Option<Self::Target>) {
        Some((
            self.0.upgrade()?, self.1.upgrade()?, self.2.upgrade()?, self.3.upgrade()?,
            self.4.upgrade()?, self.5.upgrade()?, self.6.upgrade()?, self.7.upgrade()?,
        ))
    }
}

impl<
    T1, T2, T3, T4, T5, T6, T7, T8, T9,
> Downgrade for (
    T1, T2, T3, T4, T5, T6, T7, T8, T9,
) where
    T1: Downgrade, T2: Downgrade, T3: Downgrade, T4: Downgrade, T5: Downgrade, T6: Downgrade,
    T7: Downgrade, T8: Downgrade, T9: Downgrade,
{
    type Target = (
        T1::Target, T2::Target, T3::Target, T4::Target, T5::Target, T6::Target, T7::Target,
        T8::Target, T9::Target,
    );

    open spec fn downgrades(&self, weak: Self::Target) -> bool {
        &&& self.0.downgrades(weak.0)
        &&& self.1.downgrades(weak.1)
        &&& self.2.downgrades(weak.2)
        &&& self.3.downgrades(weak.3)
        &&& self.4.downgrades(weak.4)
        &&& self.5.downgrades(weak.5)
        &&& self.6.downgrades(weak.6)
        &&& self.7.downgrades(weak.7)
        &&& self.8.downgrades(weak.8)
    }

    fn downgrade(&self) -> (weak: Self::Target) {
        (
            self.0.downgrade(), self.1.downgrade(), self.2.downgrade(), self.3.downgrade(),
            self.4.downgrade(), self.5.downgrade(), self.6.downgrade(), self.7.downgrade(),
            self.8.downgrade(),
        )
    }
}

impl<T1, T2, T3, T4, T5, T6, T7, T8, T9> Upgrade for (T1, T2, T3, T4, T5, T6, T7, T8, T9) where
    T1: Upgrade, T2: Upgrade, T3: Upgrade, T4: Upgrade, T5: Upgrade, T6: Upgrade, T7: Upgrade,
    T8: Upgrade, T9: Upgrade,
{
    type Target = (
        T1::Target, T2::Target, T3::Target, T4::Target, T5::Target, T6::Target, T7::Target,
        T8::Target, T9::Target,
    );

    open spec fn upgrades(&self, strong: Option<Self::Target>) -> bool {
        match strong {
            Some(strong) => {
                &&& self.0.upgrades(Some(strong.0))
                &&& self.1.upgrades(Some(strong.1))
                &&& self.2.upgrades(Some(strong.2))
                &&& self.3.upgrades(Some(strong.3))
                &&& self.4.upgrades(Some(strong.4))
                &&& self.5.upgrades(Some(strong.5))
                &&& self.6.upgrades(Some(strong.6))
                &&& self.7.upgrades(Some(strong.7))
                &&& self.8.upgrades(Some(strong.8))
            },
            None => {
                ||| self.0.upgrades(None)
                ||| self.1.upgrades(None)
                ||| self.2.upgrades(None)
                ||| self.3.upgrades(None)
                ||| self.4.upgrades(None)
                ||| self.5.upgrades(None)
                ||| self.6.upgrades(None)
                ||| self.7.upgrades(None)
                ||| self.8.upgrades(None)
            },
        }
    }

    fn upgrade(&self) -> (strong: Option<Self::Target>) {
        Some((
            self.0.upgrade()?, self.1.upgrade()?, self.2.upgrade()?, self.3.upgrade()?,
            self.4.upgrade()?, self.5.upgrade()?, self.6.upgrade()?, self.7.upgrade()?,
            self.8.upgrade()?,
        ))
    }
}

impl<
    T1, T2, T3, T4, T5, T6, T7, T8, T9, T10,
> Downgrade for (
    T1, T2, T3, T4, T5, T6, T7, T8, T9, T10,
) where
    T1: Downgrade, T2: Downgrade, T3: Downgrade, T4: Downgrade, T5: Downgrade, T6: Downgrade,
    T7: Downgrade, T8: Downgrade, T9: Downgrade, T10: Downgrade,
{
    type Target = (
        T1::Target, T2::Target, T3::Target, T4::Target, T5::Target, T6::Target, T7::Target,
        T8::Target, T9::Target, T10::Target,
    );

    open spec fn downgrades(&self, weak: Self::Target) -> bool {
        &&& self.0.downgrades(weak.0)
        &&& self.1.downgrades(weak.1)
        &&& self.2.downgrades(weak.2)
        &&& self.3.downgrades(weak.3)
        &&& self.4.downgrades(weak.4)
        &&& self.5.downgrades(weak.5)
        &&& self.6.downgrades(weak.6)
        &&& self.7.downgrades(weak.7)
        &&& self.8.downgrades(weak.8)
        &&& self.9.downgrades(weak.9)
    }

    fn downgrade(&self) -> (weak: Self::Target) {
        (
            self.0.downgrade(), self.1.downgrade(), self.2.downgrade(), self.3.downgrade(),
            self.4.downgrade(), self.5.downgrade(), self.6.downgrade(), self.7.downgrade(),
            self.8.downgrade(), self.9.downgrade(),
        )
    }
}

impl<
    T1, T2, T3, T4, T5, T6, T7, T8, T9, T10,
> Upgrade for (
    T1, T2, T3, T4, T5, T6, T7, T8, T9, T10,
) where
    T1: Upgrade, T2: Upgrade, T3: Upgrade, T4: Upgrade, T5: Upgrade, T6: Upgrade, T7: Upgrade,
    T8: Upgrade, T9: Upgrade, T10: Upgrade,
{
    type Target = (
        T1::Target, T2::Target, T3::Target, T4::Target, T5::Target, T6::Target, T7::Target,
        T8::Target, T9::Target, T10::Target,
    );

    open spec fn upgrades(&self, strong: Option<Self::Target>) -> bool {
        match strong {
            Some(strong) => {
                &&& self.0.upgrades(Some(strong.0))
                &&& self.1.upgrades(Some(strong.1))
                &&& self.2.upgrades(Some(strong.2))
                &&& self.3.upgrades(Some(strong.3))
                &&& self.4.upgrades(Some(strong.4))
                &&& self.5.upgrades(Some(strong.5))
                &&& self.6.upgrades(Some(strong.6))
                &&& self.7.upgrades(Some(strong.7))
                &&& self.8.upgrades(Some(strong.8))
                &&& self.9.upgrades(Some(strong.9))
            },
            None => {
                ||| self.0.upgrades(None)
                ||| self.1.upgrades(None)
                ||| self.2.upgrades(None)
                ||| self.3.upgrades(None)
                ||| self.4.upgrades(None)
                ||| self.5.upgrades(None)
                ||| self.6.upgrades(None)
                ||| self.7.upgrades(None)
                ||| self.8.upgrades(None)
                ||| self.9.upgrades(None)
            },
        }
    }

    fn upgrade(&self) -> (strong: Option<Self::Target>) {
        Some((
            self.0.upgrade()?, self.1.upgrade()?, self.2.upgrade()?, self.3.upgrade()?,
            self.4.upgrade()?, self.5.upgrade()?, self.6.upgrade()?, self.7.upgrade()?,
            self.8.upgrade()?, self.9.upgrade()?,
        ))
    }
}

impl<
    T1, T2, T3, T4, T5, T6, T7, T8, T9, T10, T11,
> Downgrade for (
    T1, T2, T3, T4, T5, T6, T7, T8, T9, T10, T11,
) where
    T1: Downgrade, T2: Downgrade, T3: Downgrade, T4: Downgrade, T5: Downgrade, T6: Downgrade,
    T7: Downgrade, T8: Downgrade, T9: Downgrade, T10: Downgrade, T11: Downgrade,
{
    type Target = (
        T1::Target, T2::Target, T3::Target, T4::Target, T5::Target, T6::Target, T7::Target,
        T8::Target, T9::Target, T10::Target, T11::Target,
    );

    open spec fn downgrades(&self, weak: Self::Target) -> bool {
        &&& self.0.downgrades(weak.0)
        &&& self.1.downgrades(weak.1)
        &&& self.2.downgrades(weak.2)
        &&& self.3.downgrades(weak.3)
        &&& self.4.downgrades(weak.4)
        &&& self.5.downgrades(weak.5)
        &&& self.6.downgrades(weak.6)
        &&& self.7.downgrades(weak.7)
        &&& self.8.downgrades(weak.8)
        &&& self.9.downgrades(weak.9)
        &&& self.10.downgrades(weak.10)
    }

    fn downgrade(&self) -> (weak: Self::Target) {
        (
            self.0.downgrade(), self.1.downgrade(), self.2.downgrade(), self.3.downgrade(),
            self.4.downgrade(), self.5.downgrade(), self.6.downgrade(), self.7.downgrade(),
            self.8.downgrade(), self.9.downgrade(), self.10.downgrade(),
        )
    }
}

impl<
    T1, T2, T3, T4, T5, T6, T7, T8, T9, T10, T11,
> Upgrade for (
    T1, T2, T3, T4, T5, T6, T7, T8, T9, T10, T11,
) where
    T1: Upgrade, T2: Upgrade, T3: Upgrade, T4: Upgrade, T5: Upgrade, T6: Upgrade, T7: Upgrade,
    T8: Upgrade, T9: Upgrade, T10: Upgrade, T11: Upgrade,
{
    type Target = (
        T1::Target, T2::Target, T3::Target, T4::Target, T5::Target, T6::Target, T7::Target,
        T8::Target, T9::Target, T10::Target, T11::Target,
    );

    open spec fn upgrades(&self, strong: Option<Self::Target>) -> bool {
        match strong {
            Some(strong) => {
                &&& self.0.upgrades(Some(strong.0))
                &&& self.1.upgrades(Some(strong.1))
                &&& self.2.upgrades(Some(strong.2))
                &&& self.3.upgrades(Some(strong.3))
                &&& self.4.upgrades(Some(strong.4))
                &&& self.5.upgrades(Some(strong.5))
                &&& self.6.upgrades(Some(strong.6))
                &&& self.7.upgrades(Some(strong.7))
                &&& self.8.upgrades(Some(strong.8))
                &&& self.9.upgrades(Some(strong.9))
                &&& self.10.upgrades(Some(strong.10))
            },
            None => {
                ||| self.0.upgrades(None)
                ||| self.1.upgrades(None)
                ||| self.2.upgrades(None)
                ||| self.3.upgrades(None)
                ||| self.4.upgrades(None)
                ||| self.5.upgrades(None)
                ||| self.6.upgrades(None)
                ||| self.7.upgrades(None)
                ||| self.8.upgrades(None)
                ||| self.9.upgrades(None)
                ||| self.10.upgrades(None)
            },
        }
    }

    fn upgrade(&self) -> (strong: Option<Self::Target>) {
        Some((
            self.0.upgrade()?, self.1.upgrade()?, self.2.upgrade()?, self.3.upgrade()?,
            self.4.upgrade()?, self.5.upgrade()?, self.6.upgrade()?, self.7.upgrade()?,
            self.8.upgrade()?, self.9.upgrade()?, self.10.upgrade()?,
        ))
    }
}

impl<
    T1, T2, T3, T4, T5, T6, T7, T8, T9, T10, T11, T12,
> Downgrade for (
    T1, T2, T3, T4, T5, T6, T7, T8, T9, T10, T11, T12,
) where
    T1: Downgrade, T2: Downgrade, T3: Downgrade, T4: Downgrade, T5: Downgrade, T6: Downgrade,
    T7: Downgrade, T8: Downgrade, T9: Downgrade, T10: Downgrade, T11: Downgrade,
    T12: Downgrade,
{
    type Target = (
        T1::Target, T2::Target, T3::Target, T4::Target, T5::Target, T6::Target, T7::Target,
        T8::Target, T9::Target, T10::Target, T11::Target, T12::Target,
    );

    open spec fn downgrades(&self, weak: Self::Target) -> bool {
        &&& self.0.downgrades(weak.0)
        &&& self.1.downgrades(weak.1)
        &&& self.2.downgrades(weak.2)
        &&& self.3.downgrades(weak.3)
        &&& self.4.downgrades(weak.4)
        &&& self.5.downgrades(weak.5)
        &&& self.6.downgrades(weak.6)
        &&& self.7.downgrades(weak.7)
        &&& self.8.downgrades(weak.8)
        &&& self.9.downgrades(weak.9)
        &&& self.10.downgrades(weak.10)
        &&& self.11.downgrades(weak.11)
    }

    fn downgrade(&self) -> (weak: Self::Target) {
        (
            self.0.downgrade(), self.1.downgrade(), self.2.downgrade(), self.3.downgrade(),
            self.4.downgrade(), self.5.downgrade(), self.6.downgrade(), self.7.downgrade(),
            self.8.downgrade(), self.9.downgrade(), self.10.downgrade(), self.11.downgrade(),
        )
    }
}

impl<
    T1, T2, T3, T4, T5, T6, T7, T8, T9, T10, T11, T12,
> Upgrade for (
    T1, T2, T3, T4, T5, T6, T7, T8, T9, T10, T11, T12,
) where
    T1: Upgrade, T2: Upgrade, T3: Upgrade, T4: Upgrade, T5: Upgrade, T6: Upgrade, T7: Upgrade,
    T8: Upgrade, T9: Upgrade, T10: Upgrade, T11: Upgrade, T12: Upgrade,
{
    type Target = (
        T1::Target, T2::Target, T3::Target, T4::Target, T5::Target, T6::Target, T7::Target,
        T8::Target, T9::Target, T10::Target, T11::Target, T12::Target,
    );

    open spec fn upgrades(&self, strong: Option<Self::Target>) -> bool {
        match strong {
            Some(strong) => {
                &&& self.0.upgrades(Some(strong.0))
                &&& self.1.upgrades(Some(strong.1))
                &&& self.2.upgrades(Some(strong.2))
                &&& self.3.upgrades(Some(strong.3))
                &&& self.4.upgrades(Some(strong.4))
                &&& self.5.upgrades(Some(strong.5))
                &&& self.6.upgrades(Some(strong.6))
                &&& self.7.upgrades(Some(strong.7))
                &&& self.8.upgrades(Some(strong.8))
                &&& self.9.upgrades(Some(strong.9))
                &&& self.10.upgrades(Some(strong.10))
                &&& self.11.upgrades(Some(strong.11))
            },
            None => {
                ||| self.0.upgrades(None)
                ||| self.1.upgrades(None)
                ||| self.2.upgrades(None)
                ||| self.3.upgrades(None)
                ||| self.4.upgrades(None)
                ||| self.5.upgrades(None)
                ||| self.6.upgrades(None)
                ||| self.7.upgrades(None)
                ||| self.8.upgrades(None)
                ||| self.9.upgrades(None)
                ||| self.10.upgrades(None)
                ||| self.11.upgrades(None)
            },
        }
    }

    fn upgrade(&self) -> (strong: Option<Self::Target>) {
        Some((
            self.0.upgrade()?, self.1.upgrade()?, self.2.upgrade()?, self.3.upgrade()?,
            self.4.upgrade()?, self.5.upgrade()?, self.6.upgrade()?, self.7.upgrade()?,
            self.8.upgrade()?, self.9.upgrade()?, self.10.upgrade()?, self.11.upgrade()?,
        ))
    }
}

impl<
    T1, T2, T3, T4, T5, T6, T7, T8, T9, T10, T11, T12, T13,
> Downgrade for (
    T1, T2, T3, T4, T5, T6, T7, T8, T9, T10, T11, T12, T13,
) where
    T1: Downgrade, T2: Downgrade, T3: Downgrade, T4: Downgrade, T5: Downgrade, T6: Downgrade,
    T7: Downgrade, T8: Downgrade, T9: Downgrade, T10: Downgrade, T11: Downgrade,
    T12: Downgrade, T13: Downgrade,
{
    type Target = (
        T1::Target, T2::Target, T3::Target, T4::Target, T5::Target, T6::Target, T7::Target,
        T8::Target, T9::Target, T10::Target, T11::Target, T12::Target, T13::Target,
    );

    open spec fn downgrades(&self, weak: Self::Target) -> bool {
        &&& self.0.downgrades(weak.0)
        &&& self.1.downgrades(weak.1)
        &&& self.2.downgrades(weak.2)
        &&& self.3.downgrades(weak.3)
        &&& self.4.downgrades(weak.4)
        &&& self.5.downgrades(weak.5)
        &&& self.6.downgrades(weak.6)
        &&& self.7.downgrades(weak.7)
        &&& self.8.downgrades(weak.8)
        &&& self.9.downgrades(weak.9)
        &&& self.10.downgrades(weak.10)
        &&& self.11.downgrades(weak.11)
        &&& self.12.downgrades(weak.12)
    }

    fn downgrade(&self) -> (weak: Self::Target) {
        (
            self.0.downgrade(), self.1.downgrade(), self.2.downgrade(), self.3.downgrade(),
            self.4.downgrade(), self.5.downgrade(), self.6.downgrade(), self.7.downgrade(),
            self.8.downgrade(), self.9.downgrade(), self.10.downgrade(), self.11.downgrade(),
            self.12.downgrade(),
        )
    }
}

impl<
    T1, T2, T3, T4, T5, T6, T7, T8, T9, T10, T11, T12, T13,
> Upgrade for (
    T1, T2, T3, T4, T5, T6, T7, T8, T9, T10, T11, T12, T13,
) where
    T1: Upgrade, T2: Upgrade, T3: Upgrade, T4: Upgrade, T5: Upgrade, T6: Upgrade, T7: Upgrade,
    T8: Upgrade, T9: Upgrade, T10: Upgrade, T11: Upgrade, T12: Upgrade, T13: Upgrade,
{
    type Target = (
        T1::Target, T2::Target, T3::Target, T4::Target, T5::Target, T6::Target, T7::Target,
        T8::Target, T9::Target, T10::Target, T11::Target, T12::Target, T13::Target,
    );

    open spec fn upgrades(&self, strong: Option<Self::Target>) -> bool {
        match strong {
            Some(strong) => {
                &&& self.0.upgrades(Some(strong.0))
                &&& self.1.upgrades(Some(strong.1))
                &&& self.2.upgrades(Some(strong.2))
                &&& self.3.upgrades(Some(strong.3))
                &&& self.4.upgrades(Some(strong.4))
                &&& self.5.upgrades(Some(strong.5))
                &&& self.6.upgrades(Some(strong.6))
                &&& self.7.upgrades(Some(strong.7))
                &&& self.8.upgrades(Some(strong.8))
                &&& self.9.upgrades(Some(strong.9))
                &&& self.10.upgrades(Some(strong.10))
                &&& self.11.upgrades(Some(strong.11))
                &&& self.12.upgrades(Some(strong.12))
            },
            None => {
                ||| self.0.upgrades(None)
                ||| self.1.upgrades(None)
                ||| self.2.upgrades(None)
                ||| self.3.upgrades(None)
                ||| self.4.upgrades(None)
                ||| self.5.upgrades(None)
                ||| self.6.upgrades(None)
                ||| self.7.upgrades(None)
                ||| self.8.upgrades(None)
                ||| self.9.upgrades(None)
                ||| self.10.upgrades(None)
                ||| self.11.upgrades(None)
                ||| self.12.upgrades(None)
            },
        }
    }

    fn upgrade(&self) -> (strong: Option<Self::Target>) {
        Some((
            self.0.upgrade()?, self.1.upgrade()?, self.2.upgrade()?, self.3.upgrade()?,
            self.4.upgrade()?, self.5.upgrade()?, self.6.upgrade()?, self.7.upgrade()?,
            self.8.upgrade()?, self.9.upgrade()?, self.10.upgrade()?, self.11.upgrade()?,
            self.12.upgrade()?,
        ))
    }
}

impl<
    T1, T2, T3, T4, T5, T6, T7, T8, T9, T10, T11, T12, T13, T14,
> Downgrade for (
    T1, T2, T3, T4, T5, T6, T7, T8, T9, T10, T11, T12, T13, T14,
) where
    T1: Downgrade, T2: Downgrade, T3: Downgrade, T4: Downgrade, T5: Downgrade, T6: Downgrade,
    T7: Downgrade, T8: Downgrade, T9: Downgrade, T10: Downgrade, T11: Downgrade,
    T12: Downgrade, T13: Downgrade, T14: Downgrade,
{
    type Target = (
        T1::Target, T2::Target, T3::Target, T4::Target, T5::Target, T6::Target, T7::Target,
        T8::Target, T9::Target, T10::Target, T11::Target, T12::Target, T13::Target,
        T14::Target,
    );

    open spec fn downgrades(&self, weak: Self::Target) -> bool {
        &&& self.0.downgrades(weak.0)
        &&& self.1.downgrades(weak.1)
        &&& self.2.downgrades(weak.2)
        &&& self.3.downgrades(weak.3)
        &&& self.4.downgrades(weak.4)
        &&& self.5.downgrades(weak.5)
        &&& self.6.downgrades(weak.6)
        &&& self.7.downgrades(weak.7)
        &&& self.8.downgrades(weak.8)
        &&& self.9.downgrades(weak.9)
        &&& self.10.downgrades(weak.10)
        &&& self.11.downgrades(weak.11)
        &&& self.12.downgrades(weak.12)
        &&& self.13.downgrades(weak.13)
    }

    fn downgrade(&self) -> (weak: Self::Target) {
        (
            self.0.downgrade(), self.1.downgrade(), self.2.downgrade(), self.3.downgrade(),
            self.4.downgrade(), self.5.downgrade(), self.6.downgrade(), self.7.downgrade(),
            self.8.downgrade(), self.9.downgrade(), self.10.downgrade(), self.11.downgrade(),
            self.12.downgrade(), self.13.downgrade(),
        )
    }
}

impl<
    T1, T2, T3, T4, T5, T6, T7, T8, T9, T10, T11, T12, T13, T14,
> Upgrade for (
    T1, T2, T3, T4, T5, T6, T7, T8, T9, T10, T11, T12, T13, T14,
) where
    T1: Upgrade, T2: Upgrade, T3: Upgrade, T4: Upgrade, T5: Upgrade, T6: Upgrade, T7: Upgrade,
    T8: Upgrade, T9: Upgrade, T10: Upgrade, T11: Upgrade, T12: Upgrade, T13: Upgrade,
    T14: Upgrade,
{
    type Target = (
        T1::Target, T2::Target, T3::Target, T4::Target, T5::Target, T6::Target, T7::Target,
        T8::Target, T9::Target, T10::Target, T11::Target, T12::Target, T13::Target,
        T14::Target,
    );

    open spec fn upgrades(&self, strong: Option<Self::Target>) -> bool {
        match strong {
            Some(strong) => {
                &&& self.0.upgrades(Some(strong.0))
                &&& self.1.upgrades(Some(strong.1))
                &&& self.2.upgrades(Some(strong.2))
                &&& self.3.upgrades(Some(strong.3))
                &&& self.4.upgrades(Some(strong.4))
                &&& self.5.upgrades(Some(strong.5))
                &&& self.6.upgrades(Some(strong.6))
                &&& self.7.upgrades(Some(strong.7))
                &&& self.8.upgrades(Some(strong.8))
                &&& self.9.upgrades(Some(strong.9))
                &&& self.10.upgrades(Some(strong.10))
                &&& self.11.upgrades(Some(strong.11))
                &&& self.12.upgrades(Some(strong.12))
                &&& self.13.upgrades(Some(strong.13))
            },
            None => {
                ||| self.0.upgrades(None)
                ||| self.1.upgrades(None)
                ||| self.2.upgrades(None)
                ||| self.3.upgrades(None)
                ||| self.4.upgrades(None)
                ||| self.5.upgrades(None)
                ||| self.6.upgrades(None)
                ||| self.7.upgrades(None)
                ||| self.8.upgrades(None)
                ||| self.9.upgrades(None)
                ||| self.10.upgrades(None)
                ||| self.11.upgrades(None)
                ||| self.12.upgrades(None)
                ||| self.13.upgrades(None)
            },
        }
    }

    fn upgrade(&self) -> (strong: Option<Self::Target>) {
        Some((
            self.0.upgrade()?, self.1.upgrade()?, self.2.upgrade()?, self.3.upgrade()?,
            self.4.upgrade()?, self.5.upgrade()?, self.6.upgrade()?, self.7.upgrade()?,
            self.8.upgrade()?, self.9.upgrade()?, self.10.upgrade()?, self.11.upgrade()?,
            self.12.upgrade()?, self.13.upgrade()?,
        ))
    }
}

impl<
    T1, T2, T3, T4, T5, T6, T7, T8, T9, T10, T11, T12, T13, T14, T15,
> Downgrade for (
    T1, T2, T3, T4, T5, T6, T7, T8, T9, T10, T11, T12, T13, T14, T15,
) where
    T1: Downgrade, T2: Downgrade, T3: Downgrade, T4: Downgrade, T5: Downgrade, T6: Downgrade,
    T7: Downgrade, T8: Downgrade, T9: Downgrade, T10: Downgrade, T11: Downgrade,
    T12: Downgrade, T13: Downgrade, T14: Downgrade, T15: Downgrade,
{
    type Target = (
        T1::Target, T2::Target, T3::Target, T4::Target, T5::Target, T6::Target, T7::Target,
        T8::Target, T9::Target, T10::Target, T11::Target, T12::Target, T13::Target,
        T14::Target, T15::Target,
    );

    open spec fn downgrades(&self, weak: Self::Target) -> bool {
        &&& self.0.downgrades(weak.0)
        &&& self.1.downgrades(weak.1)
        &&& self.2.downgrades(weak.2)
        &&& self.3.downgrades(weak.3)
        &&& self.4.downgrades(weak.4)
        &&& self.5.downgrades(weak.5)
        &&& self.6.downgrades(weak.6)
        &&& self.7.downgrades(weak.7)
        &&& self.8.downgrades(weak.8)
        &&& self.9.downgrades(weak.9)
        &&& self.10.downgrades(weak.10)
        &&& self.11.downgrades(weak.11)
        &&& self.12.downgrades(weak.12)
        &&& self.13.downgrades(weak.13)
        &&& self.14.downgrades(weak.14)
    }

    fn downgrade(&self) -> (weak: Self::Target) {
        (
            self.0.downgrade(), self.1.downgrade(), self.2.downgrade(), self.3.downgrade(),
            self.4.downgrade(), self.5.downgrade(), self.6.downgrade(), self.7.downgrade(),
            self.8.downgrade(), self.9.downgrade(), self.10.downgrade(), self.11.downgrade(),
            self.12.downgrade(), self.13.downgrade(), self.14.downgrade(),
        )
    }
}

impl<
    T1, T2, T3, T4, T5, T6, T7, T8, T9, T10, T11, T12, T13, T14, T15,
> Upgrade for (
    T1, T2, T3, T4, T5, T6, T7, T8, T9, T10, T11, T12, T13, T14, T15,
) where
    T1: Upgrade, T2: Upgrade, T3: Upgrade, T4: Upgrade, T5: Upgrade, T6: Upgrade, T7: Upgrade,
    T8: Upgrade, T9: Upgrade, T10: Upgrade, T11: Upgrade, T12: Upgrade, T13: Upgrade,
    T14: Upgrade, T15: Upgrade,
{
    type Target = (
        T1::Target, T2::Target, T3::Target, T4::Target, T5::Target, T6::Target, T7::Target,
        T8::Target, T9::Target, T10::Target, T11::Target, T12::Target, T13::Target,
        T14::Target, T15::Target,
    );

    open spec fn upgrades(&self, strong: Option<Self::Target>) -> bool {
        match strong {
            Some(strong) => {
                &&& self.0.upgrades(Some(strong.0))
                &&& self.1.upgrades(Some(strong.1))
                &&& self.2.upgrades(Some(strong.2))
                &&& self.3.upgrades(Some(strong.3))
                &&& self.4.upgrades(Some(strong.4))
                &&& self.5.upgrades(Some(strong.5))
                &&& self.6.upgrades(Some(strong.6))
                &&& self.7.upgrades(Some(strong.7))
                &&& self.8.upgrades(Some(strong.8))
                &&& self.9.upgrades(Some(strong.9))
                &&& self.10.upgrades(Some(strong.10))
                &&& self.11.upgrades(Some(strong.11))
                &&& self.12.upgrades(Some(strong.12))
                &&& self.13.upgrades(Some(strong.13))
                &&& self.14.upgrades(Some(strong.14))
            },
            None => {
                ||| self.0.upgrades(None)
                ||| self.1.upgrades(None)
                ||| self.2.upgrades(None)
                ||| self.3.upgrades(None)
                ||| self.4.upgrades(None)
                ||| self.5.upgrades(None)
                ||| self.6.upgrades(None)
                ||| self.7.upgrades(None)
                ||| self.8.upgrades(None)
                ||| self.9.upgrades(None)
                ||| self.10.upgrades(None)
                ||| self.11.upgrades(None)
                ||| self.12.upgrades(None)
                ||| self.13.upgrades(None)
                ||| self.14.upgrades(None)
            },
        }
    }

    fn upgrade(&self) -> (strong: Option<Self::Target>) {
        Some((
            self.0.upgrade()?, self.1.upgrade()?, self.2.upgrade()?, self.3.upgrade()?,
            self.4.upgrade()?, self.5.upgrade()?, self.6.upgrade()?, self.7.upgrade()?,
            self.8.upgrade()?, self.9.upgrade()?, self.10.upgrade()?, self.11.upgrade()?,
            self.12.upgrade()?, self.13.upgrade()?, self.14.upgrade()?,
        ))
    }
}

impl<
    T1, T2, T3, T4, T5, T6, T7, T8, T9, T10, T11, T12, T13, T14, T15, T16,
> Downgrade for (
    T1, T2, T3, T4, T5, T6, T7, T8, T9, T10, T11, T12, T13, T14, T15, T16,
) where
    T1: Downgrade, T2: Downgrade, T3: Downgrade, T4: Downgrade, T5: Downgrade, T6: Downgrade,
    T7: Downgrade, T8: Downgrade, T9: Downgrade, T10: Downgrade, T11: Downgrade,
    T12: Downgrade, T13: Downgrade, T14: Downgrade, T15: Downgrade, T16: Downgrade,
{
    type Target = (
        T1::Target, T2::Target, T3::Target, T4::Target, T5::Target, T6::Target, T7::Target,
        T8::Target, T9::Target, T10::Target, T11::Target, T12::Target, T13::Target,
        T14::Target, T15::Target, T16::Target,
    );

    open spec fn downgrades(&self, weak: Self::Target) -> bool {
        &&& self.0.downgrades(weak.0)
        &&& self.1.downgrades(weak.1)
        &&& self.2.downgrades(weak.2)
        &&& self.3.downgrades(weak.3)
        &&& self.4.downgrades(weak.4)
        &&& self.5.downgrades(weak.5)
        &&& self.6.downgrades(weak.6)
        &&& self.7.downgrades(weak.7)
        &&& self.8.downgrades(weak.8)
        &&& self.9.downgrades(weak.9)
        &&& self.10.downgrades(weak.10)
        &&& self.11.downgrades(weak.11)
        &&& self.12.downgrades(weak.12)
        &&& self.13.downgrades(weak.13)
        &&& self.14.downgrades(weak.14)
        &&& self.15.downgrades(weak.15)
    }

    fn downgrade(&self) -> (weak: Self::Target) {
        (
            self.0.downgrade(), self.1.downgrade(), self.2.downgrade(), self.3.downgrade(),
            self.4.downgrade(), self.5.downgrade(), self.6.downgrade(), self.7.downgrade(),
            self.8.downgrade(), self.9.downgrade(), self.10.downgrade(), self.11.downgrade(),
            self.12.downgrade(), self.13.downgrade(), self.14.downgrade(), self.15.downgrade(),
        )
    }
}

impl<
    T1, T2, T3, T4, T5, T6, T7, T8, T9, T10, T11, T12, T13, T14, T15, T16,
> Upgrade for (
    T1, T2, T3, T4, T5, T6, T7, T8, T9, T10, T11, T12, T13, T14, T15, T16,
) where
    T1: Upgrade, T2: Upgrade, T3: Upgrade, T4: Upgrade, T5: Upgrade, T6: Upgrade, T7: Upgrade,
    T8: Upgrade, T9: Upgrade, T10: Upgrade, T11: Upgrade, T12: Upgrade, T13: Upgrade,
    T14: Upgrade, T15: Upgrade, T16: Upgrade,
{
    type Target = (
        T1::Target, T2::Target, T3::Target, T4::Target, T5::Target, T6::Target, T7::Target,
        T8::Target, T9::Target, T10::Target, T11::Target, T12::Target, T13::Target,
        T14::Target, T15::Target, T16::Target,
    );

    open spec fn upgrades(&self, strong: Option<Self::Target>) -> bool {
        match strong {
            Some(strong) => {
                &&& self.0.upgrades(Some(strong.0))
                &&& self.1.upgrades(Some(strong.1))
                &&& self.2.upgrades(Some(strong.2))
                &&& self.3.upgrades(Some(strong.3))
                &&& self.4.upgrades(Some(strong.4))
                &&& self.5.upgrades(Some(strong.5))
                &&& self.6.upgrades(Some(strong.6))
                &&& self.7.upgrades(Some(strong.7))
                &&& self.8.upgrades(Some(strong.8))
                &&& self.9.upgrades(Some(strong.9))
                &&& self.10.upgrades(Some(strong.10))
                &&& self.11.upgrades(Some(strong.11))
                &&& self.12.upgrades(Some(strong.12))
                &&& self.13.upgrades(Some(strong.13))
                &&& self.14.upgrades(Some(strong.14))
                &&& self.15.upgrades(Some(strong.15))
            },
            None => {
                ||| self.0.upgrades(None)
                ||| self.1.upgrades(None)
                ||| self.2.upgrades(None)
                ||| self.3.upgrades(None)
                ||| self.4.upgrades(None)
                ||| self.5.upgrades(None)
                ||| self.6.upgrades(None)
                ||| self.7.upgrades(None)
                ||| self.8.upgrades(None)
                ||| self.9.upgrades(None)
                ||| self.10.upgrades(None)
                ||| self.11.upgrades(None)
                ||| self.12.upgrades(None)
                ||| self.13.upgrades(None)
                ||| self.14.upgrades(None)
                ||| self.15.upgrades(None)
            },
        }
    }

    fn upgrade(&self) -> (strong: Option<Self::Target>) {
        Some((
            self.0.upgrade()?, self.1.upgrade()?, self.2.upgrade()?, self.3.upgrade()?,
            self.4.upgrade()?, self.5.upgrade()?, self.6.upgrade()?, self.7.upgrade()?,
            self.8.upgrade()?, self.9.upgrade()?, self.10.upgrade()?, self.11.upgrade()?,
            self.12.upgrade()?, self.13.upgrade()?, self.14.upgrade()?, self.15.upgrade()?,
        ))
    }
}

} // verus!
