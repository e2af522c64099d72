//! Numbers, truth values and characters: nothing has to keep them, so they always come back.
use vstd::prelude::*;

use super::{Downgrade, Upgrade};

verus! {

impl Downgrade for u8 {
    type Target = u8;

    open spec fn downgrades(&self, weak: u8) -> bool {
        weak == *self
    }

    fn downgrade(&self) -> (weak: u8) {
        *self
    }
}

impl Upgrade for u8 {
    type Target = u8;

    open spec fn upgrades(&self, strong: Option<u8>) -> bool {
        strong == Some(*self)
    }

    fn upgrade(&self) -> (strong: Option<u8>) {
        Some(*self)
    }
}

impl Downgrade for u16 {
    type Target = u16;

    open spec fn downgrades(&self, weak: u16) -> bool {
        weak == *self
    }

    fn downgrade(&self) -> (weak: u16) {
        *self
    }
}

impl Upgrade for u16 {
    type Target = u16;

    open spec fn upgrades(&self, strong: Option<u16>) -> bool {
        strong == Some(*self)
    }

    fn upgrade(&self) -> (strong: Option<u16>) {
        Some(*self)
    }
}

impl Downgrade for u32 {
    type Target = u32;

    open spec fn downgrades(&self, weak: u32) -> bool {
        weak == *self
    }

    fn downgrade(&self) -> (weak: u32) {
        *self
    }
}

impl Upgrade for u32 {
    type Target = u32;

    open spec fn upgrades(&self, strong: Option<u32>) -> bool {
        strong == Some(*self)
    }

    fn upgrade(&self) -> (strong: Option<u32>) {
        Some(*self)
    }
}

impl Downgrade for u64 {
    type Target = u64;

    open spec fn downgrades(&self, weak: u64) -> bool {
        weak == *self
    }

    fn downgrade(&self) -> (weak: u64) {
        *self
    }
}

impl Upgrade for u64 {
    type Target = u64;

    open spec fn upgrades(&self, strong: Option<u64>) -> bool {
        strong == Some(*self)
    }

    fn upgrade(&self) -> (strong: Option<u64>) {
        Some(*self)
    }
}

impl Downgrade for u128 {
    type Target = u128;

    open spec fn downgrades(&self, weak: u128) -> bool {
        weak == *self
    }

    fn downgrade(&self) -> (weak: u128) {
        *self
    }
}

impl Upgrade for u128 {
    type Target = u128;

    open spec fn upgrades(&self, strong: Option<u128>) -> bool {
        strong == Some(*self)
    }

    fn upgrade(&self) -> (strong: Option<u128>) {
        Some(*self)
    }
}

impl Downgrade for usize {
    type Target = usize;

    open spec fn downgrades(&self, weak: usize) -> bool {
        weak == *self
    }

    fn downgrade(&self) -> (weak: usize) {
        *self
    }
}

impl Upgrade for usize {
    type Target = usize;

    open spec fn upgrades(&self, strong: Option<usize>) -> bool {
        strong == Some(*self)
    }

    fn upgrade(&self) -> (strong: Option<usize>) {
        Some(*self)
    }
}

impl Downgrade for i8 {
    type Target = i8;

    open spec fn downgrades(&self, weak: i8) -> bool {
        weak == *self
    }

    fn downgrade(&self) -> (weak: i8) {
        *self
    }
}

impl Upgrade for i8 {
    type Target = i8;

    open spec fn upgrades(&self, strong: Option<i8>) -> bool {
        strong == Some(*self)
    }

    fn upgrade(&self) -> (strong: Option<i8>) {
        Some(*self)
    }
}

impl Downgrade for i16 {
    type Target = i16;

    open spec fn downgrades(&self, weak: i16) -> bool {
        weak == *self
    }

    fn downgrade(&self) -> (weak: i16) {
        *self
    }
}

impl Upgrade for i16 {
    type Target = i16;

    open spec fn upgrades(&self, strong: Option<i16>) -> bool {
        strong == Some(*self)
    }

    fn upgrade(&self) -> (strong: Option<i16>) {
        Some(*self)
    }
}

impl Downgrade for i32 {
    type Target = i32;

    open spec fn downgrades(&self, weak: i32) -> bool {
        weak == *self
    }

    fn downgrade(&self) -> (weak: i32) {
        *self
    }
}

impl Upgrade for i32 {
    type Target = i32;

    open spec fn upgrades(&self, strong: Option<i32>) -> bool {
        strong == Some(*self)
    }

    fn upgrade(&self) -> (strong: Option<i32>) {
        Some(*self)
    }
}

impl Downgrade for i64 {
    type Target = i64;

    open spec fn downgrades(&self, weak: i64) -> bool {
        weak == *self
    }

    fn downgrade(&self) -> (weak: i64) {
        *self
    }
}

impl Upgrade for i64 {
    type Target = i64;

    open spec fn upgrades(&self, strong: Option<i64>) -> bool {
        strong == Some(*self)
    }

    fn upgrade(&self) -> (strong: Option<i64>) {
        Some(*self)
    }
}

impl Downgrade for i128 {
    type Target = i128;

    open spec fn downgrades(&self, weak: i128) -> bool {
        weak == *self
    }

    fn downgrade(&self) -> (weak: i128) {
        *self
    }
}

impl Upgrade for i128 {
    type Target = i128;

    open spec fn upgrades(&self, strong: Option<i128>) -> bool {
        strong == Some(*self)
    }

    fn upgrade(&self) -> (strong: Option<i128>) {
        Some(*self)
    }
}

impl Downgrade for isize {
    type Target = isize;

    open spec fn downgrades(&self, weak: isize) -> bool {
        weak == *self
    }

    fn downgrade(&self) -> (weak: isize) {
        *self
    }
}

impl Upgrade for isize {
    type Target = isize;

    open spec fn upgrades(&self, strong: Option<isize>) -> bool {
        strong == Some(*self)
    }

    fn upgrade(&self) -> (strong: Option<isize>) {
        Some(*self)
    }
}

impl Downgrade for bool {
    type Target = bool;

    open spec fn downgrades(&self, weak: bool) -> bool {
        weak == *self
    }

    fn downgrade(&self) -> (weak: bool) {
        *self
    }
}

impl Upgrade for bool {
    type Target = bool;

    open spec fn upgrades(&self, strong: Option<bool>) -> bool {
        strong == Some(*self)
    }

    fn upgrade(&self) -> (strong: Option<bool>) {
        Some(*self)
    }
}

impl Downgrade for char {
    type Target = char;

    open spec fn downgrades(&self, weak: char) -> bool {
        weak == *self
    }

    fn downgrade(&self) -> (weak: char) {
        *self
    }
}

impl Upgrade for char {
    type Target = char;

    open spec fn upgrades(&self, strong: Option<char>) -> bool {
        strong == Some(*self)
    }

    fn upgrade(&self) -> (strong: Option<char>) {
        Some(*self)
    }
}

} // verus!
