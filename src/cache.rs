//! A value computed on first demand and reused afterwards, as a mosaic keeps
//! its band statistics.

use vstd::prelude::*;

verus! {

/// The value held after a computation: its result when it succeeded.
pub open spec fn ok_value<T, E>(r: Result<T, E>) -> Option<T> {
    match r {
        Ok(v) => Some(v),
        Err(_) => None,
    }
}

/// Holds a computed value once a computation has succeeded; until then it
/// holds nothing and the next demand computes again.
pub struct MinMaxCache<T> {
    value: Option<T>,
    /// How many computations have been run for this cache.
    passes: Ghost<nat>,
}

impl<T: Copy> MinMaxCache<T> {
    /// The value held, if any.
    pub closed spec fn cached(&self) -> Option<T> {
        self.value
    }

    /// How many computations have been run for this cache so far.
    pub closed spec fn computations(&self) -> nat {
        self.passes@
    }

    /// The cache after one demand, where `computed` is what a computation
    /// would return: a held value stays and nothing is computed.
    pub open spec fn after_demand<E>(self, computed: Result<T, E>) -> Self {
        match self.cached() {
            Some(_) => self,
            None => self.filled(ok_value(computed)),
        }
    }

    /// What a demand returns, where `computed` is what a computation would
    /// return: the held value if there is one.
    pub open spec fn demand_result<E>(self, computed: Result<T, E>) -> Result<T, E> {
        match self.cached() {
            Some(v) => Ok(v),
            None => computed,
        }
    }

    /// The cache after one more computation that left `value` behind.
    pub closed spec fn filled(self, value: Option<T>) -> Self {
        MinMaxCache { value, passes: Ghost((self.passes@ + 1) as nat) }
    }

    /// An empty cache for which nothing has been computed.
    pub fn new() -> (c: Self)
        ensures
            c.cached() is None,
            c.computations() == 0,
    {
        MinMaxCache { value: None, passes: Ghost(0) }
    }

    /// The value held, if any, without computing anything.
    pub fn peek(&self) -> (r: Option<T>)
        ensures
            r == self.cached(),
    {
        self.value
    }

    /// The held value if there is one; otherwise runs `compute` once, keeps
    /// its value when it succeeds, and returns what it returned.
    pub fn get_or_compute<E, F: FnOnce() -> Result<T, E>>(&mut self, compute: F) -> (r: Result<
        T,
        E,
    >)
        requires
            old(self).cached() is None ==> compute.requires(()),
        ensures
            old(self).cached() is None ==> compute.ensures((), r),
            r == old(self).demand_result(r),
            *final(self) == old(self).after_demand(r),
            old(self).cached() is Some ==> final(self).cached() == old(self).cached()
                && final(self).computations() == old(self).computations(),
            old(self).cached() is None ==> final(self).cached() == ok_value(r)
                && final(self).computations() == old(self).computations() + 1,
    {
        match self.value {
            Some(v) => Ok(v),
            None => {
                let r = compute();
                self.value = match r {
                    Ok(v) => Some(v),
                    Err(_) => None,
                };
                self.passes = Ghost((self.passes@ + 1) as nat);
                r
            },
        }
    }

    /// Two demands in a row: once the first has produced a value, the second
    /// returns that same value, leaves the cache as it was, and the two
    /// together compute at most once.
    pub proof fn lemma_second_demand_reuses<E>(self, first: Result<T, E>, second: Result<T, E>)
        requires
            self.demand_result(first) is Ok,
        ensures
            self.after_demand(first).demand_result(second) == self.demand_result(first),
            self.after_demand(first).after_demand(second) == self.after_demand(first),
            self.after_demand(first).after_demand(second).computations() <= self.computations()
                + 1,
    {
    }
}

} // verus!
