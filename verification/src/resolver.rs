use crate::pointer::{AddressChain, AddressChainView, Hop, SymbolicPath};
use vstd::prelude::*;

verus! {

/// A question to the metadata of the game.
#[derive(Clone, Copy, Debug, PartialEq, Eq)]
pub enum Query {
    /// Where does `class` keep its static fields?
    StaticTable { class: &'static str },
    /// At which offset does `class` hold `field`?
    FieldOffset { class: &'static str, field: &'static str },
}

/// The lookup that failed: which path it belonged to, and which part of it.
#[derive(Clone, Copy, Debug, PartialEq, Eq, Structural)]
pub enum LookupError {
    StaticTable { path: usize },
    StaticField { path: usize },
    Hop { path: usize, hop: usize },
}

impl LookupError {
    /// The error for slot `slot` of path `path`: slot 0 is the static table,
    /// slot 1 the static field, the hops follow.
    pub open spec fn at(path: int, slot: int) -> LookupError {
        if slot == 0 {
            LookupError::StaticTable { path: path as usize }
        } else if slot == 1 {
            LookupError::StaticField { path: path as usize }
        } else {
            LookupError::Hop { path: path as usize, hop: (slot - 2) as usize }
        }
    }
}

/// The number of values that make up the chain of `path`: the address of
/// the static table, the offset of the static field, and one offset for
/// each hop.
pub open spec fn slots(path: SymbolicPath) -> nat {
    path.hops@.len() + 2
}

/// What has to be asked to fill slot `slot` of `path`; nothing for a literal
/// hop, whose offset is known.
pub open spec fn slot_query(path: SymbolicPath, slot: int) -> Option<Query> {
    if slot == 0 {
        Some(Query::StaticTable { class: path.static_class })
    } else if slot == 1 {
        Some(Query::FieldOffset { class: path.static_class, field: path.static_field })
    } else {
        match path.hops@[slot - 2] {
            Hop::Field { class, field } => Some(Query::FieldOffset { class, field }),
            Hop::Literal(_) => None,
        }
    }
}

/// `found` with the literal hops that come next in `path` taken in.
pub open spec fn absorb(path: SymbolicPath, found: Seq<u64>) -> Seq<u64>
    decreases slots(path) - found.len(),
{
    if 2 <= found.len() < slots(path) {
        match path.hops@[found.len() - 2] {
            Hop::Literal(offset) => absorb(path, found.push(offset)),
            Hop::Field { .. } => found,
        }
    } else {
        found
    }
}

/// The chain that a full set of values makes.
pub open spec fn chain_of(found: Seq<u64>) -> AddressChainView {
    AddressChainView {
        base_address: found[0],
        base_offset: found[1],
        hops: found.skip(2),
    }
}

/// `chain` is a chain for `path`: it has one offset for each hop, and the
/// literal hops have their offsets.
pub open spec fn fits(path: SymbolicPath, chain: AddressChainView) -> bool {
    &&& chain.hops.len() == path.hops@.len()
    &&& forall|i: int|
        0 <= i < path.hops@.len() ==> (#[trigger] path.hops@[i] matches Hop::Literal(offset)
            ==> chain.hops[i] == offset)
}

/// Turns symbolic paths into address chains, one lookup at a time.
///
/// The resolver never looks anything up itself. It says what it needs to
/// know next (`pending`), is told the answer (`supply`), and so on until
/// nothing is pending; `finish` then hands out the chains. One lookup
/// without an answer fails the whole set.
pub struct Resolver {
    paths: Vec<SymbolicPath>,
    chains: Vec<AddressChain>,
    base: Option<u64>,
    offset: Option<u64>,
    hops: Vec<u64>,
    failure: Option<LookupError>,
}

impl Resolver {
    /// The paths to resolve.
    pub closed spec fn paths(&self) -> Seq<SymbolicPath> {
        self.paths@
    }

    /// The chains of the paths resolved so far, in the order of the paths.
    pub closed spec fn chains(&self) -> Seq<AddressChainView> {
        self.chains@.map_values(|chain: AddressChain| chain@)
    }

    /// The values found so far for the path that is being resolved.
    pub closed spec fn found(&self) -> Seq<u64> {
        match (self.base, self.offset) {
            (Some(base), Some(offset)) => seq![base, offset] + self.hops@,
            (Some(base), None) => seq![base],
            _ => Seq::empty(),
        }
    }

    /// The lookup that failed, if one did.
    pub closed spec fn failure(&self) -> Option<LookupError> {
        self.failure
    }

    /// The resolver is in order: the chains made so far fit their paths, and
    /// unless the work is over, a question is pending.
    pub closed spec fn wf(&self) -> bool {
        &&& self.chains@.len() <= self.paths@.len()
        &&& self.base is None ==> self.offset is None
        &&& self.offset is None ==> self.hops@.len() == 0
        &&& forall|i: int|
            0 <= i < self.chains@.len() ==> fits(self.paths@[i], (#[trigger] self.chains@[i])@)
        &&& self.chains@.len() == self.paths@.len() ==> self.base is None
        &&& self.chains@.len() < self.paths@.len() ==> {
            let path = self.paths@[self.chains@.len() as int];
            &&& self.found().len() < slots(path)
            &&& slot_query(path, self.found().len() as int) is Some
            &&& forall|i: int|
                0 <= i < self.hops@.len() ==> (#[trigger] path.hops@[i] matches Hop::Literal(
                    offset,
                ) ==> self.hops@[i] == offset)
        }
    }

    /// The question that waits for an answer: none once a lookup has failed
    /// or every path has its chain.
    pub open spec fn pending_query(&self) -> Option<Query> {
        if self.failure() is Some || self.chains().len() >= self.paths().len() {
            None
        } else {
            slot_query(self.paths()[self.chains().len() as int], self.found().len() as int)
        }
    }

    /// The state after the pending question has been answered with `answer`.
    /// With nothing pending the answer is dropped. No answer is a failure.
    /// A value fills its slot, and the literal hops behind it with it; with
    /// the last slot filled the chain is complete and the next path begins.
    pub open spec fn answered(&self, answer: Option<u64>, next: &Resolver) -> bool {
        let path = self.paths()[self.chains().len() as int];
        &&& next.paths() == self.paths()
        &&& match (self.pending_query(), answer) {
            (None, _) => {
                &&& next.chains() == self.chains()
                &&& next.found() == self.found()
                &&& next.failure() == self.failure()
            },
            (Some(_), None) => {
                &&& next.chains() == self.chains()
                &&& next.found() == self.found()
                &&& next.failure() == Some(
                    LookupError::at(self.chains().len() as int, self.found().len() as int),
                )
            },
            (Some(_), Some(value)) => {
                let found = absorb(path, self.found().push(value));
                &&& next.failure() is None
                &&& if found.len() == slots(path) {
                    &&& next.chains() == self.chains().push(chain_of(found))
                    &&& next.found() == Seq::<u64>::empty()
                } else {
                    &&& next.chains() == self.chains()
                    &&& next.found() == found
                }
            },
        }
    }

    /// Starts on `paths`, with nothing resolved.
    pub fn new(paths: Vec<SymbolicPath>) -> (resolver: Resolver)
        ensures
            resolver.wf(),
            resolver.paths() == paths@,
            resolver.chains() == Seq::<AddressChainView>::empty(),
            resolver.found() == Seq::<u64>::empty(),
            resolver.failure() is None,
    {
        Resolver {
            paths,
            chains: Vec::new(),
            base: None,
            offset: None,
            hops: Vec::new(),
            failure: None,
        }
    }

    /// Says what has to be looked up next, if anything.
    pub fn pending(&self) -> (query: Option<Query>)
        requires
            self.wf(),
        ensures
            query == self.pending_query(),
    {
        if self.failure.is_some() || self.chains.len() >= self.paths.len() {
            return None;
        }
        let path = &self.paths[self.chains.len()];
        if self.base.is_none() {
            Some(Query::StaticTable { class: path.static_class })
        } else if self.offset.is_none() {
            Some(Query::FieldOffset { class: path.static_class, field: path.static_field })
        } else {
            match path.hops[self.hops.len()] {
                Hop::Field { class, field } => Some(Query::FieldOffset { class, field }),
                Hop::Literal(_) => None,
            }
        }
    }

    /// Takes in the literal hops that come next, and closes the chain if
    /// that fills its last slot.
    fn settle(&mut self)
        requires
            old(self).failure is None,
            old(self).chains@.len() < old(self).paths@.len(),
            old(self).base is Some,
            old(self).offset is Some,
            old(self).hops@.len() <= old(self).paths@[old(self).chains@.len() as int].hops@.len(),
            forall|i: int|
                0 <= i < old(self).chains@.len() ==> fits(
                    old(self).paths@[i],
                    (#[trigger] old(self).chains@[i])@,
                ),
            forall|i: int|
                0 <= i < old(self).hops@.len() ==> (#[trigger] old(self).paths@[old(
                    self,
                ).chains@.len() as int].hops@[i] matches Hop::Literal(offset) ==> old(
                    self,
                ).hops@[i] == offset),
        ensures
            final(self).wf(),
            final(self).paths() == old(self).paths(),
            final(self).failure() is None,
            ({
                let path = old(self).paths()[old(self).chains().len() as int];
                let found = absorb(path, old(self).found());
                if found.len() == slots(path) {
                    &&& final(self).chains() == old(self).chains().push(chain_of(found))
                    &&& final(self).found() == Seq::<u64>::empty()
                } else {
                    &&& final(self).chains() == old(self).chains()
                    &&& final(self).found() == found
                }
            }),
    {
        let index = self.chains.len();
        let ghost path = self.paths@[index as int];
        let count = self.paths[index].hops.len();
        let mut literal = true;
        while literal && self.hops.len() < count
            invariant
                !literal ==> self.hops@.len() < count && path.hops@[self.hops@.len() as int] is Field,
                self.paths == old(self).paths,
                self.chains == old(self).chains,
                self.base == old(self).base,
                self.offset == old(self).offset,
                self.failure is None,
                self.base is Some,
                self.offset is Some,
                index == self.chains@.len(),
                index < self.paths@.len(),
                path == self.paths@[index as int],
                count == path.hops@.len(),
                self.hops@.len() <= count,
                absorb(path, self.found()) == absorb(path, old(self).found()),
                forall|i: int|
                    0 <= i < self.hops@.len() ==> (#[trigger] path.hops@[i] matches Hop::Literal(
                        offset,
                    ) ==> self.hops@[i] == offset),
            decreases count - self.hops@.len() + if literal { 1nat } else { 0nat },
        {
            match self.paths[index].hops[self.hops.len()] {
                Hop::Literal(offset) => {
                    self.hops.push(offset);
                },
                Hop::Field { .. } => {
                    literal = false;
                },
            }
        }
        let ghost found = self.found();
        if self.hops.len() == count {
            let mut hops: Vec<u64> = Vec::new();
            core::mem::swap(&mut hops, &mut self.hops);
            let chain = AddressChain {
                base_address: self.base.unwrap(),
                base_offset: self.offset.unwrap(),
                hops,
            };
            assert(chain@ == chain_of(found)) by {
                assert(found.skip(2) == chain.hops@);
            }
            self.chains.push(chain);
            self.base = None;
            self.offset = None;
        }
    }

    /// Answers the pending question: `None` if the lookup found nothing.
    pub fn supply(&mut self, answer: Option<u64>)
        requires
            old(self).wf(),
        ensures
            final(self).wf(),
            old(self).answered(answer, final(self)),
    {
        if self.failure.is_some() || self.chains.len() >= self.paths.len() {
            return ;
        }
        let index = self.chains.len();
        match answer {
            None => {
                let failure = if self.base.is_none() {
                    LookupError::StaticTable { path: index }
                } else if self.offset.is_none() {
                    LookupError::StaticField { path: index }
                } else {
                    LookupError::Hop { path: index, hop: self.hops.len() }
                };
                self.failure = Some(failure);
            },
            Some(value) => {
                let ghost before = self.found();
                if self.base.is_none() {
                    self.base = Some(value);
                } else if self.offset.is_none() {
                    self.offset = Some(value);
                    assert(self.found() == before.push(value));
                    self.settle();
                } else {
                    self.hops.push(value);
                    self.settle();
                }
            },
        }
    }

    /// Ends the work. The chains come out, one for each path and in the
    /// order of the paths, if every lookup was answered; otherwise the error
    /// names the lookup that failed, or the one still waiting for its answer.
    pub fn finish(self) -> (chains: Result<Vec<AddressChain>, LookupError>)
        requires
            self.wf(),
        ensures
            chains is Ok <==> self.failure() is None && self.pending_query() is None,
            match chains {
                Ok(chains) => {
                    &&& chains@.map_values(|chain: AddressChain| chain@) == self.chains()
                    &&& chains@.len() == self.paths().len()
                    &&& forall|i: int|
                        0 <= i < chains@.len() ==> fits(self.paths()[i], (#[trigger] chains@[i])@)
                },
                Err(error) => match self.failure() {
                    Some(failure) => error == failure,
                    None => self.pending_query() is Some && error == LookupError::at(
                        self.chains().len() as int,
                        self.found().len() as int,
                    ),
                },
            },
    {
        if let Some(failure) = self.failure {
            return Err(failure);
        }
        let index = self.chains.len();
        if index < self.paths.len() {
            let waiting = if self.base.is_none() {
                LookupError::StaticTable { path: index }
            } else if self.offset.is_none() {
                LookupError::StaticField { path: index }
            } else {
                LookupError::Hop { path: index, hop: self.hops.len() }
            };
            return Err(waiting);
        }
        Ok(self.chains)
    }
}

/// The metadata of the game as a function: the answer to every question that
/// can be asked of it.
pub type Metadata = spec_fn(Query) -> Option<u64>;

/// The value that belongs in slot `slot` of the chain of `path`, going by
/// `metadata`: the offset of a literal hop, else the answer to the slot's
/// question.
pub open spec fn slot_value(path: SymbolicPath, slot: int, metadata: Metadata) -> Option<u64> {
    match slot_query(path, slot) {
        Some(query) => metadata(query),
        None => match path.hops@[slot - 2] {
            Hop::Literal(offset) => Some(offset),
            Hop::Field { .. } => None,
        },
    }
}

/// `chain` is the chain of `path`, going by `metadata`.
pub open spec fn resolves_to(path: SymbolicPath, metadata: Metadata, chain: AddressChainView) -> bool {
    &&& chain.hops.len() == path.hops@.len()
    &&& slot_value(path, 0, metadata) == Some(chain.base_address)
    &&& slot_value(path, 1, metadata) == Some(chain.base_offset)
    &&& forall|i: int|
        0 <= i < chain.hops.len() ==> slot_value(path, i + 2, metadata) == Some(
            #[trigger] chain.hops[i],
        )
}

/// `path` has no chain, going by `metadata`: one of its lookups finds
/// nothing.
pub open spec fn unresolvable(path: SymbolicPath, metadata: Metadata) -> bool {
    exists|slot: int|
        0 <= slot < slots(path) && (#[trigger] slot_value(path, slot, metadata)) is None
}

impl Resolver {
    /// Everything the resolver holds is what `metadata` says: the chains made
    /// so far, the values found for the path at hand, and, if a lookup has
    /// failed, that it finds nothing.
    pub open spec fn agrees_with(&self, metadata: Metadata) -> bool {
        let index = self.chains().len() as int;
        &&& forall|i: int|
            0 <= i < index ==> resolves_to(self.paths()[i], metadata, #[trigger] self.chains()[i])
        &&& index < self.paths().len() ==> forall|slot: int|
            0 <= slot < self.found().len() ==> slot_value(self.paths()[index], slot, metadata)
                == Some(#[trigger] self.found()[slot])
        &&& self.failure() is Some ==> index < self.paths().len() && self.failure() == Some(
            LookupError::at(index, self.found().len() as int),
        ) && slot_value(self.paths()[index], self.found().len() as int, metadata) is None
    }
}

/// What `absorb` adds are the offsets of literal hops, and it stops at the
/// end of the path or in front of a hop that has to be looked up.
proof fn lemma_absorb(path: SymbolicPath, found: Seq<u64>, metadata: Metadata)
    requires
        found.len() <= slots(path),
    ensures
        found.len() <= absorb(path, found).len() <= slots(path),
        forall|slot: int|
            0 <= slot < found.len() ==> absorb(path, found)[slot] == #[trigger] found[slot],
        forall|slot: int|
            found.len() <= slot < absorb(path, found).len() ==> slot_value(path, slot, metadata)
                == Some(#[trigger] absorb(path, found)[slot]),
    decreases slots(path) - found.len(),
{
    if 2 <= found.len() < slots(path) {
        match path.hops@[found.len() - 2] {
            Hop::Literal(offset) => {
                lemma_absorb(path, found.push(offset), metadata);
                assert forall|slot: int| 0 <= slot < found.len() implies absorb(path, found)[slot]
                    == #[trigger] found[slot] by {
                    assert(found.push(offset)[slot] == found[slot]);
                }
                assert forall|slot: int|
                    found.len() <= slot < absorb(path, found).len() implies slot_value(
                    path,
                    slot,
                    metadata,
                ) == Some(#[trigger] absorb(path, found)[slot]) by {
                    if slot == found.len() {
                        assert(found.push(offset)[slot] == offset);
                    }
                }
            },
            Hop::Field { .. } => {},
        }
    }
}

impl Resolver {
    /// A resolver that has just been made agrees with any metadata.
    pub proof fn law_starts_in_agreement(&self, metadata: Metadata)
        requires
            self.chains().len() == 0,
            self.found().len() == 0,
            self.failure() is None,
        ensures
            self.agrees_with(metadata),
    {
    }

    /// Agreement lasts: if the resolver agrees with the metadata and the
    /// pending question is answered as the metadata says, it agrees
    /// afterwards.
    pub proof fn law_stays_in_agreement(&self, metadata: Metadata, answer: Option<u64>, next: &Resolver)
        requires
            self.wf(),
            self.agrees_with(metadata),
            self.answered(answer, next),
            self.pending_query() matches Some(query) ==> answer == metadata(query),
        ensures
            next.agrees_with(metadata),
    {
        if self.pending_query() is Some && answer is Some {
            let path = self.paths()[self.chains().len() as int];
            let filled = self.found().push(answer->0);
            let found = absorb(path, filled);
            lemma_absorb(path, filled, metadata);
            assert forall|slot: int| 0 <= slot < found.len() implies slot_value(
                path,
                slot,
                metadata,
            ) == Some(#[trigger] found[slot]) by {
                if slot < filled.len() {
                    assert(found[slot] == filled[slot]);
                }
            }
        }
    }

    /// Where agreement ends up: once nothing is pending, either no lookup has
    /// failed and every path has the chain that the metadata gives it, or one
    /// has and its path has no chain in the metadata.
    pub proof fn law_agreement_decides(&self, metadata: Metadata)
        requires
            self.wf(),
            self.agrees_with(metadata),
            self.pending_query() is None,
        ensures
            self.failure() is None ==> self.chains().len() == self.paths().len() && forall|i: int|
                0 <= i < self.paths().len() ==> resolves_to(
                    #[trigger] self.paths()[i],
                    metadata,
                    self.chains()[i],
                ),
            self.failure() is Some ==> exists|i: int|
                0 <= i < self.paths().len() && unresolvable(#[trigger] self.paths()[i], metadata),
    {
    }
}

/// A lookup that finds nothing fails the whole set: the resolver asks no
/// more, and makes no chain of what it had found for the path.
pub proof fn law_unanswered_lookup_fails(resolver: Resolver, next: Resolver)
    requires
        resolver.pending_query() is Some,
        resolver.answered(None, &next),
    ensures
        next.failure() is Some,
        next.pending_query() is None,
        next.chains() == resolver.chains(),
{
}

/// A failure is final: no answer given afterwards changes anything.
pub proof fn law_failure_is_final(resolver: Resolver, answer: Option<u64>, next: Resolver)
    requires
        resolver.failure() is Some,
        resolver.answered(answer, &next),
    ensures
        next.failure() == resolver.failure(),
        next.chains() == resolver.chains(),
        next.pending_query() is None,
{
}

} // verus!
