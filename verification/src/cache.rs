//! A cache that runs its computation on the first retrieval and hands back the
//! remembered text on every later one.

use vstd::prelude::*;

verus! {

/// The two states of a cache. A cache starts `Empty`, becomes `Computed` on
/// its first retrieval and stays so.
#[derive(Clone, Copy, Debug, PartialEq, Eq, Structural)]
pub enum CacheState {
    /// Nothing is remembered: the next retrieval runs the computation.
    Empty,
    /// A value is remembered: the next retrieval only copies it.
    Computed,
}

/// What a cache has got from its computation so far.
struct Memo {
    value: Option<String>,
    executions: Ghost<nat>,
}

/// A computation together with its result, once that is known.
pub struct ComputeCache<T> where T: Fn() -> String {
    computation: T,
    memo: Memo,
}

impl<T> ComputeCache<T> where T: Fn() -> String {
    /// The computation that the cache was made with.
    pub closed spec fn computation(self) -> T {
        self.computation
    }

    /// The remembered text, if there is one.
    pub closed spec fn stored(self) -> Option<Seq<char>> {
        match self.memo.value {
            Some(v) => Some(v@),
            None => None,
        }
    }

    /// How many times the cache has run its computation so far.
    pub closed spec fn executions(self) -> nat {
        self.memo.executions@
    }

    /// The state that goes with what is remembered.
    pub open spec fn spec_state(&self) -> CacheState {
        if self.stored() is Some {
            CacheState::Computed
        } else {
            CacheState::Empty
        }
    }

    /// What holds of every cache: its computation may be called, and it has
    /// been run once if something is remembered and never otherwise.
    #[verifier::type_invariant]
    pub open spec fn wf(self) -> bool {
        &&& call_requires(self.computation(), ())
        &&& self.executions() == if self.stored() is Some { 1nat } else { 0nat }
    }

    /// One retrieval, as a relation between the cache before it, the cache
    /// after it and the text it returns.
    ///
    /// A cache that remembers a value returns that value and does not change
    /// in any way. An empty cache runs its computation once, returns one of
    /// its possible results and remembers it; its computation stays the same.
    pub open spec fn retrieves(self, next: Self, result: String) -> bool {
        match self.stored() {
            Some(v) => result@ == v && next == self,
            None => {
                &&& call_ensures(self.computation(), (), result)
                &&& next.stored() == Some(result@)
                &&& next.executions() == self.executions() + 1
                &&& next.computation() == self.computation()
            },
        }
    }

    /// A run of retrievals on one cache: `states` holds the cache before the
    /// first retrieval and after each one, `results` what each one returned.
    pub open spec fn is_run(states: Seq<Self>, results: Seq<String>) -> bool {
        &&& states.len() == results.len() + 1
        &&& forall|i: int|
            0 <= i < results.len() ==> states[i].retrieves(states[i + 1], #[trigger] results[i])
    }

    /// Makes an empty cache round `computation`, which has to be callable.
    pub fn new(computation: T) -> (cache: Self)
        requires
            call_requires(computation, ()),
        ensures
            cache.wf(),
            cache.computation() == computation,
            cache.stored() is None,
            cache.executions() == 0,
    {
        ComputeCache { computation, memo: Memo { value: None, executions: Ghost(0) } }
    }

    /// Tells whether the next retrieval will run the computation (`Empty`) or
    /// copy the remembered value (`Computed`).
    #[verifier::when_used_as_spec(spec_state)]
    pub fn state(&self) -> (state: CacheState)
        ensures
            state == self.spec_state(),
    {
        match &self.memo.value {
            Some(_) => CacheState::Computed,
            None => CacheState::Empty,
        }
    }

    /// Returns the cached text, running the computation first if the cache is
    /// still empty.
    pub fn get_result(&mut self) -> (result: String)
        ensures
            final(self).wf(),
            old(self).retrieves(*final(self), result),
            final(self).state() == CacheState::Computed,
    {
        proof {
            use_type_invariant(&*self);
        }
        match &self.memo.value {
            Some(v) => v.clone(),
            None => {
                let result = (self.computation)();
                let ghost executions: nat = self.memo.executions@ + 1;
                self.memo = Memo { value: Some(result.clone()), executions: Ghost(executions) };
                result
            },
        }
    }

    /// A remembered value is never replaced: however many retrievals are made
    /// on a cache that remembers a value, each returns that value and none
    /// changes the cache in any way.
    pub proof fn lemma_computed_stays(states: Seq<Self>, results: Seq<String>)
        requires
            Self::is_run(states, results),
            states[0].stored() is Some,
        ensures
            forall|i: int| 0 <= i < states.len() ==> (#[trigger] states[i]) == states[0],
            forall|i: int|
                0 <= i < results.len() ==> (#[trigger] results[i])@ == states[0].stored()->0,
        decreases results.len(),
    {
        if results.len() > 0 {
            let last: int = results.len() - 1;
            let earlier_states = states.drop_last();
            let earlier_results = results.drop_last();
            Self::lemma_computed_stays(earlier_states, earlier_results);
            assert(earlier_states[last] == earlier_states[0]);
            assert(states[last].retrieves(states[last + 1], results[last]));
            assert forall|i: int| 0 <= i < results.len() implies (#[trigger] results[i])@
                == states[0].stored()->0 by {
                if i < last {
                    assert(earlier_results[i] == results[i]);
                }
            }
            assert forall|i: int| 0 <= i < states.len() implies (#[trigger] states[i])
                == states[0] by {
                if i <= last {
                    assert(earlier_states[i] == states[i]);
                }
            }
        }
    }

    /// However often a new cache is asked, its computation runs once: the
    /// first retrieval returns a result of the computation, every retrieval
    /// returns the same text as the first, and after each of them that text
    /// is remembered and the computation has run exactly once.
    pub proof fn lemma_retrievals_agree(states: Seq<Self>, results: Seq<String>)
        requires
            Self::is_run(states, results),
            states[0].stored() is None,
            states[0].executions() == 0,
        ensures
            results.len() > 0 ==> call_ensures(states[0].computation(), (), results[0]),
            forall|i: int| 0 <= i < results.len() ==> (#[trigger] results[i])@ == results[0]@,
            forall|i: int|
                1 <= i < states.len() ==> {
                    &&& (#[trigger] states[i]).stored() == Some(results[0]@)
                    &&& states[i].executions() == 1
                    &&& states[i].computation() == states[0].computation()
                },
    {
        if results.len() > 0 {
            assert(states[0].retrieves(states[1], results[0]));
            let later_states = states.subrange(1, states.len() as int);
            let later_results = results.subrange(1, results.len() as int);
            Self::lemma_computed_stays(later_states, later_results);
            assert forall|i: int| 1 <= i < states.len() implies (#[trigger] states[i])
                == states[1] by {
                assert(later_states[i - 1] == later_states[0]);
            }
            assert forall|i: int| 1 <= i < results.len() implies (#[trigger] results[i])@
                == results[0]@ by {
                assert(later_results[i - 1] == results[i]);
            }
        }
    }
}

} // verus!
