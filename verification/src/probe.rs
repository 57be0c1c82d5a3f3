//! The search for an API level at which the platform yields a context.

use vstd::prelude::*;

verus! {

/// The search for the highest API level, at or below the one asked for, at which
/// the platform yields a native context.
///
/// The probe says which level to attempt; the caller attempts it natively and
/// records what came back. The search ends with the first context that is not
/// nil, or when level 1 has failed.
#[derive(Clone, Copy, Debug)]
pub struct VersionProbe {
    requested: u8,
    version: u8,
    valid_context: usize,
}

impl VersionProbe {
    /// No level above the requested one is left, and a context was found only
    /// after an attempt.
    #[verifier::type_invariant]
    pub closed spec fn wf(self) -> bool {
        &&& self.version <= self.requested
        &&& self.valid_context != 0 ==> self.version < self.requested
    }

    /// The level that the search started from.
    pub closed spec fn requested(self) -> u8 {
        self.requested
    }

    /// The highest level that has not been attempted.
    pub closed spec fn remaining(self) -> u8 {
        self.version
    }

    /// The context that the last attempt yielded, zero for none.
    pub closed spec fn found(self) -> usize {
        self.valid_context
    }

    /// The level to attempt next, if the search goes on.
    pub open spec fn pending_spec(&self) -> Option<u8> {
        if self.found() == 0 && self.remaining() > 0 {
            Some(self.remaining())
        } else {
            None
        }
    }

    /// The level at which the context was found.
    pub open spec fn obtained(self) -> Option<u8> {
        if self.found() != 0 {
            Some((self.remaining() + 1) as u8)
        } else {
            None
        }
    }

    /// The search that starts at `version` and has attempted nothing.
    pub closed spec fn started(version: u8) -> VersionProbe {
        VersionProbe { requested: version, version, valid_context: 0 }
    }

    /// This search after the attempt at its pending level yielded `context`;
    /// the search itself where it has ended.
    pub closed spec fn recorded(self, context: usize) -> VersionProbe {
        if self.valid_context == 0 && self.version > 0 {
            VersionProbe {
                requested: self.requested,
                version: (self.version - 1) as u8,
                valid_context: context,
            }
        } else {
            self
        }
    }

    /// This search carried to its end, where the attempt at each level yields
    /// what `yields` says.
    pub open spec fn completed(self, yields: spec_fn(u8) -> usize) -> VersionProbe
        decreases self.remaining(),
    {
        match self.pending_spec() {
            Some(level) => self.recorded(yields(level)).completed(yields),
            None => self,
        }
    }

    /// A search that starts at `version` and has attempted nothing.
    pub fn new(version: u8) -> (probe: VersionProbe)
        ensures
            probe == Self::started(version),
            probe.wf(),
            probe.requested() == version,
            probe.remaining() == version,
            probe.found() == 0,
    {
        VersionProbe { requested: version, version, valid_context: 0 }
    }

    /// The level to attempt next, or `None` when the search has ended.
    #[verifier::when_used_as_spec(pending_spec)]
    pub fn pending(&self) -> (level: Option<u8>)
        ensures
            level == self.pending_spec(),
    {
        if self.valid_context == 0 && self.version > 0 {
            Some(self.version)
        } else {
            None
        }
    }

    /// Records that the attempt at the pending level yielded `context`, zero for
    /// none. Once the search has ended the probe takes nothing more.
    pub fn record(&mut self, context: usize)
        ensures
            *final(self) == old(self).recorded(context),
            final(self).wf(),
            final(self).requested() == old(self).requested(),
            match old(self).pending_spec() {
                Some(level) => {
                    &&& final(self).found() == context
                    &&& final(self).remaining() == level - 1
                },
                None => *final(self) == *old(self),
            },
    {
        proof {
            use_type_invariant(&*self);
        }
        if self.valid_context == 0 && self.version > 0 {
            *self = VersionProbe {
                requested: self.requested,
                version: self.version - 1,
                valid_context: context,
            };
        }
    }

    /// The level at which the context was found, if one was.
    pub fn obtained_level(&self) -> (level: Option<u8>)
        ensures
            level == self.obtained(),
    {
        proof {
            use_type_invariant(self);
        }
        if self.valid_context != 0 {
            Some(self.version + 1)
        } else {
            None
        }
    }

    /// The level that the search started from.
    pub fn requested_level(&self) -> (level: u8)
        ensures
            level == self.requested(),
    {
        self.requested
    }

    /// The context that the search ended with, zero for none.
    pub fn valid_context(&self) -> (context: usize)
        ensures
            context == self.found(),
    {
        self.valid_context
    }
}

/// A search starts at the requested level with nothing found, and each recorded
/// attempt takes it one level down or ends it.
pub proof fn lemma_probe_steps(probe: VersionProbe, version: u8, context: usize)
    ensures
        VersionProbe::started(version).wf(),
        VersionProbe::started(version).requested() == version,
        VersionProbe::started(version).remaining() == version,
        VersionProbe::started(version).found() == 0,
        probe.wf() ==> probe.recorded(context).wf(),
        probe.recorded(context).requested() == probe.requested(),
        match probe.pending_spec() {
            Some(level) => {
                &&& probe.recorded(context).found() == context
                &&& probe.recorded(context).remaining() == level - 1
            },
            None => probe.recorded(context) == probe,
        },
{
}

/// A search that is carried on from any state ends with the highest level, among
/// those not yet attempted, at which the platform yields a context; it ends
/// without one only where every such level yields none.
pub proof fn lemma_search_goes_downward(probe: VersionProbe, yields: spec_fn(u8) -> usize)
    requires
        probe.wf(),
        probe.found() == 0,
    ensures
        probe.completed(yields).wf(),
        probe.completed(yields).pending_spec() is None,
        probe.completed(yields).requested() == probe.requested(),
        match probe.completed(yields).obtained() {
            Some(level) => {
                &&& 1 <= level <= probe.remaining()
                &&& yields(level) != 0
                &&& probe.completed(yields).found() == yields(level)
                &&& forall|higher: u8|
                    level < higher <= probe.remaining() ==> #[trigger] yields(higher) == 0
            },
            None => forall|level: u8|
                1 <= level <= probe.remaining() ==> #[trigger] yields(level) == 0,
        },
    decreases probe.remaining(),
{
    if probe.remaining() > 0 {
        let level = probe.remaining();
        let next = probe.recorded(yields(level));
        if yields(level) == 0 {
            lemma_search_goes_downward(next, yields);
        }
    }
}

/// A search from the requested level ends with the highest level at or below it
/// at which the platform yields a context, and fails only where none does.
pub proof fn lemma_search_finds_highest(requested: u8, yields: spec_fn(u8) -> usize)
    ensures
        match VersionProbe::started(requested).completed(yields).obtained() {
            Some(level) => {
                &&& 1 <= level <= requested
                &&& yields(level) != 0
                &&& VersionProbe::started(requested).completed(yields).found() == yields(level)
                &&& forall|higher: u8|
                    level < higher <= requested ==> #[trigger] yields(higher) == 0
            },
            None => forall|level: u8| 1 <= level <= requested ==> #[trigger] yields(level) == 0,
        },
{
    lemma_search_goes_downward(VersionProbe::started(requested), yields);
}

} // verus!
