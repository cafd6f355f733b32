use vstd::prelude::*;

verus! {

/// A span of time, counted in whole milliseconds.
#[derive(Clone, Copy, PartialEq, Eq, Debug, Hash, Default)]
pub struct Duration(usize);

impl View for Duration {
    type V = nat;

    closed spec fn view(&self) -> nat {
        self.0 as nat
    }
}

impl Duration {
    pub fn zero() -> (r: Duration)
        ensures
            r@ == 0,
    {
        Duration(0)
    }

    pub fn from_millis(millis: usize) -> (r: Duration)
        ensures
            r@ == millis,
    {
        Duration(millis)
    }

    pub fn from_secs(secs: usize) -> (r: Duration)
        requires
            secs * 1000 <= usize::MAX,
        ensures
            r@ == secs * 1000,
    {
        Duration(secs * 1000)
    }

    pub fn from_mins(mins: usize) -> (r: Duration)
        requires
            mins * 60000 <= usize::MAX,
        ensures
            r@ == mins * 60000,
    {
        Duration(mins * 60000)
    }

    pub fn as_millis(&self) -> (r: usize)
        ensures
            r == self@,
    {
        self.0
    }

    pub fn as_secs(&self) -> (r: usize)
        ensures
            r == self@ / 1000,
    {
        self.0 / 1000
    }

    pub fn as_mins(&self) -> (r: usize)
        ensures
            r == self@ / 60000,
    {
        self.0 / 60000
    }

    pub fn checked_add(self, rhs: Duration) -> (r: Option<Duration>)
        ensures
            self@ + rhs@ <= usize::MAX ==> (r matches Some(d) && d@ == self@ + rhs@),
            self@ + rhs@ > usize::MAX ==> r is None,
    {
        match self.0.checked_add(rhs.0) {
            Some(m) => Some(Duration(m)),
            None => None,
        }
    }

    pub fn checked_sub(self, rhs: Duration) -> (r: Option<Duration>)
        ensures
            rhs@ <= self@ ==> (r matches Some(d) && d@ == self@ - rhs@),
            rhs@ > self@ ==> r is None,
    {
        match self.0.checked_sub(rhs.0) {
            Some(m) => Some(Duration(m)),
            None => None,
        }
    }

    pub fn checked_mul(self, rhs: usize) -> (r: Option<Duration>)
        ensures
            self@ * rhs <= usize::MAX ==> (r matches Some(d) && d@ == self@ * rhs),
            self@ * rhs > usize::MAX ==> r is None,
    {
        match self.0.checked_mul(rhs) {
            Some(m) => Some(Duration(m)),
            None => None,
        }
    }

    pub fn checked_div(self, rhs: usize) -> (r: Option<Duration>)
        ensures
            rhs != 0 ==> (r matches Some(d) && d@ == self@ / (rhs as nat)),
            rhs == 0 ==> r is None,
    {
        match self.0.checked_div(rhs) {
            Some(m) => Some(Duration(m)),
            None => None,
        }
    }
}

} // verus!
