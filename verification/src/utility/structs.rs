//! A pair of values of which one is "current" and the other is the write
//! target, with an O(1) exchange of the two roles.

use vstd::prelude::*;

verus! {

/// Which of the two values is the current one.
enum Pop {
    First,
    Second,
}

/// What a [`PingPongData`] holds, as a plain value: the two items in the
/// order in which they were given, and which of them is current.
pub ghost struct Roles<T> {
    pub first: T,
    pub second: T,
    pub first_is_current: bool,
}

impl<T> Roles<T> {
    /// The item that holds the latest committed state.
    pub open spec fn current(self) -> T {
        if self.first_is_current {
            self.first
        } else {
            self.second
        }
    }

    /// The item that the next pass writes to.
    pub open spec fn other(self) -> T {
        if self.first_is_current {
            self.second
        } else {
            self.first
        }
    }

    /// The same two items with their roles exchanged.
    pub open spec fn swapped(self) -> Roles<T> {
        Roles { first: self.first, second: self.second, first_is_current: !self.first_is_current }
    }

    /// The same roles, with `value` in place of the item that is not current.
    pub open spec fn with_other(self, value: T) -> Roles<T> {
        if self.first_is_current {
            Roles { first: self.first, second: value, first_is_current: true }
        } else {
            Roles { first: value, second: self.second, first_is_current: false }
        }
    }
}

/// Two values of one type and a flag that says which is current.
pub struct PingPongData<T> {
    first: T,
    second: T,
    current: Pop,
}

impl<T> View for PingPongData<T> {
    type V = Roles<T>;

    closed spec fn view(&self) -> Roles<T> {
        Roles {
            first: self.first,
            second: self.second,
            first_is_current: self.current is First,
        }
    }
}

impl<T> PingPongData<T> {
    /// Holds `first` and `second`; `first` starts as the current one.
    pub fn new(first: T, second: T) -> (r: Self)
        ensures
            r@ == (Roles { first, second, first_is_current: true }),
    {
        Self { first, second, current: Pop::First }
    }

    /// The current item.
    pub fn pull_current(&self) -> (r: &T)
        ensures
            *r == self@.current(),
    {
        match self.current {
            Pop::First => &self.first,
            Pop::Second => &self.second,
        }
    }

    /// The item that is not current.
    pub fn pull_other(&self) -> (r: &T)
        ensures
            *r == self@.other(),
    {
        match self.current {
            Pop::First => &self.second,
            Pop::Second => &self.first,
        }
    }

    /// Exchanges the two roles. Neither item is touched.
    pub fn ping_pong(&mut self)
        ensures
            final(self)@ == old(self)@.swapped(),
        no_unwind
    {
        self.current = match self.current {
            Pop::First => Pop::Second,
            Pop::Second => Pop::First,
        };
    }

    /// Puts `value` in the place of the item that is not current. The roles
    /// stay as they are, and so does the current item.
    pub fn set_other(&mut self, value: T)
        ensures
            final(self)@ == old(self)@.with_other(value),
        no_unwind
    {
        match self.current {
            Pop::First => {
                self.second = value;
            },
            Pop::Second => {
                self.first = value;
            },
        }
    }

    /// Two pairs with the same view are the same pair.
    pub proof fn lemma_view_injective(a: Self, b: Self)
        requires
            a@ == b@,
        ensures
            a == b,
    {
    }

    /// Exchanging the roles twice gives the pair back as it was: the items
    /// are those of before, and so are `current` and `other`.
    pub proof fn lemma_ping_pong_involution(before: Self, between: Self, after: Self)
        requires
            between@ == before@.swapped(),
            after@ == between@.swapped(),
        ensures
            after == before,
            after@.current() == before@.current(),
            after@.other() == before@.other(),
            between@.current() == before@.other(),
            between@.other() == before@.current(),
    {
        Self::lemma_view_injective(after, before);
    }
}

} // verus!
