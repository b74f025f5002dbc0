use vstd::prelude::*;

use crate::errors::ErrorCode;

verus! {

/// Where a registered circuit's executable source lives.
pub enum CircuitSource {
    /// The circuit bytes supplied directly, for small circuits.
    Inline { bytes: Vec<u8> },
    /// The circuit is fetched by the cluster from `url`; `content_hash` is the
    /// 32-byte digest the fetched bytes are expected to match. Fetching and
    /// validating against the hash are the cluster's work, not this
    /// component's: the hash is recorded here as supplied, even when it is
    /// left as all zeroes and so authenticates nothing.
    OffChain { url: String, content_hash: Vec<u8> },
}

/// One registered circuit: its identifier, the provenance of its source, and
/// whether registration completed. This component never executes or
/// interprets circuit bytes.
pub struct ComputationDefinition {
    pub circuit_id: u32,
    pub source: CircuitSource,
    pub registered: bool,
}

/// Records, per circuit identifier, where the circuit's source lives and
/// whether it is registered. A definition is created once by an
/// administrator action and never mutated afterward; registering an already
/// present identifier is rejected with `AlreadyRegistered`.
pub struct ComputationDefinitionRegistry {
    defs: Vec<ComputationDefinition>,
}

impl ComputationDefinitionRegistry {
    /// The registry's definitions, in registration order.
    pub closed spec fn defs_seq(self) -> Seq<ComputationDefinition> {
        self.defs@
    }

    /// Whether some definition carries this identifier.
    pub open spec fn contains_id(self, circuit_id: u32) -> bool {
        exists|i: int|
            0 <= i < self.defs_seq().len() && self.defs_seq()[i].circuit_id == circuit_id
    }

    /// Whether a request may reference this identifier: some definition
    /// carries it and that definition's `registered` flag is set.
    pub open spec fn spec_is_registered(self, circuit_id: u32) -> bool {
        exists|i: int|
            0 <= i < self.defs_seq().len() && self.defs_seq()[i].circuit_id == circuit_id
                && self.defs_seq()[i].registered
    }

    /// Well-formedness: no two definitions share an identifier, and every
    /// recorded definition has completed its registration (a definition is
    /// only ever created by a successful `register`).
    pub open spec fn wf(self) -> bool {
        &&& forall|i: int, j: int|
            0 <= i < self.defs_seq().len() && 0 <= j < self.defs_seq().len() && i != j
                ==> self.defs_seq()[i].circuit_id != self.defs_seq()[j].circuit_id
        &&& forall|i: int| 0 <= i < self.defs_seq().len() ==> self.defs_seq()[i].registered
    }

    /// An empty registry.
    pub fn new() -> (r: ComputationDefinitionRegistry)
        ensures
            r.wf(),
            r.defs_seq() == Seq::<ComputationDefinition>::empty(),
    {
        ComputationDefinitionRegistry { defs: Vec::new() }
    }

    fn find(&self, circuit_id: u32) -> (r: Option<usize>)
        ensures
            r matches Some(i) ==> 0 <= i < self.defs_seq().len() && self.defs_seq()[i as int].circuit_id
                == circuit_id,
            r is None ==> !self.contains_id(circuit_id),
    {
        let n = self.defs.len();
        for i in 0..n
            invariant
                n == self.defs_seq().len(),
                forall|j: int| 0 <= j < i ==> self.defs_seq()[j].circuit_id != circuit_id,
        {
            if self.defs[i].circuit_id == circuit_id {
                return Some(i);
            }
        }
        None
    }

    /// Records a new definition under `circuit_id` with its `registered` flag
    /// set; an identifier already present is rejected with
    /// `AlreadyRegistered` and the registry is left unchanged.
    pub fn register(&mut self, circuit_id: u32, source: CircuitSource) -> (r: Result<
        (),
        ErrorCode,
    >)
        requires
            old(self).wf(),
        ensures
            final(self).wf(),
            old(self).contains_id(circuit_id) ==> r == Err::<(), ErrorCode>(
                ErrorCode::AlreadyRegistered,
            ) && final(self).defs_seq() == old(self).defs_seq(),
            !old(self).contains_id(circuit_id) ==> r is Ok && final(self).defs_seq() == old(
                self,
            ).defs_seq().push(
                (ComputationDefinition { circuit_id, source, registered: true }),
            ),
            final(self).spec_is_registered(circuit_id),
    {
        if self.find(circuit_id).is_some() {
            return Err(ErrorCode::AlreadyRegistered);
        }
        self.defs.push(ComputationDefinition { circuit_id, source, registered: true });
        proof {
            let n = self.defs_seq().len() - 1;
            assert(self.defs_seq()[n].circuit_id == circuit_id && self.defs_seq()[n].registered);
        }
        Ok(())
    }

    /// Whether `circuit_id` resolves to a completed registration.
    pub fn is_registered(&self, circuit_id: u32) -> (b: bool)
        ensures
            b == self.spec_is_registered(circuit_id),
    {
        let n = self.defs.len();
        for i in 0..n
            invariant
                n == self.defs_seq().len(),
                forall|j: int|
                    0 <= j < i ==> !(self.defs_seq()[j].circuit_id == circuit_id
                        && self.defs_seq()[j].registered),
        {
            if self.defs[i].circuit_id == circuit_id && self.defs[i].registered {
                return true;
            }
        }
        false
    }

    /// Resolves `circuit_id` to its definition, or reports
    /// `UnregisteredDefinition` when no completed registration carries it.
    pub fn lookup(&self, circuit_id: u32) -> (r: Result<&ComputationDefinition, ErrorCode>)
        ensures
            r matches Ok(d) ==> self.spec_is_registered(circuit_id) && d.circuit_id == circuit_id
                && d.registered && self.defs_seq().contains(*d),
            r matches Err(e) ==> !self.spec_is_registered(circuit_id) && e
                == ErrorCode::UnregisteredDefinition,
    {
        let n = self.defs.len();
        for i in 0..n
            invariant
                n == self.defs_seq().len(),
                forall|j: int|
                    0 <= j < i ==> !(self.defs_seq()[j].circuit_id == circuit_id
                        && self.defs_seq()[j].registered),
        {
            if self.defs[i].circuit_id == circuit_id && self.defs[i].registered {
                return Ok(&self.defs[i]);
            }
        }
        Err(ErrorCode::UnregisteredDefinition)
    }
}

} // verus!
