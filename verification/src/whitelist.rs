use vstd::prelude::*;

verus! {

/// Failure modes of the collection and creator management rules.
#[derive(Clone, Copy, Debug, PartialEq, Eq, Structural)]
pub enum MPLXCoreError {
    /// The creator list is full.
    CreatorListFull,
    /// The creator is already in the list.
    CreatorAlreadyWhitelisted,
    /// The caller is not the privileged authority for this operation.
    NotAuthorized,
    /// The collection has already been initialized.
    CollectionAlreadyInitialized,
    /// The asset has already been initialized.
    AssetAlreadyInitialized,
    /// The asset is not initialized.
    AssetNotInitialized,
    /// The collection is not initialized.
    CollectionNotInitialized,
    /// The collection is invalid.
    InvalidCollection,
}

/// The registry of principals allowed to create collections: a fixed
/// ten-slot array filled from the front, with `num_creators` counting
/// the occupied slots.  Principals are the same opaque 64-bit handles
/// the rest of the library uses.
pub struct WhitelistedCreators {
    /// The slots; only the first `num_creators` are meaningful.
    pub creators: [u64; 10],
    /// How many slots are occupied.
    pub num_creators: u8,
    /// Derivation parameter for the registry's account.
    pub bump: u8,
}

impl WhitelistedCreators {
    /// The registry invariant: the fill count never exceeds the
    /// capacity.
    pub open spec fn wf(self) -> bool {
        self.num_creators <= 10
    }

    /// The occupied prefix of the slot array: the creators actually on
    /// the list.
    pub open spec fn listed(self) -> Seq<u64> {
        self.creators@.take(self.num_creators as int)
    }

    /// An empty registry.
    pub fn new(bump: u8) -> (w: WhitelistedCreators)
        ensures
            w.wf(),
            w.listed() == Seq::<u64>::empty(),
            w.bump == bump,
    {
        let w = WhitelistedCreators { creators: [0; 10], num_creators: 0, bump };
        proof {
            assert(w.listed() =~= Seq::<u64>::empty());
        }
        w
    }

    /// Whether `creator` is on the list.
    pub fn contains(&self, creator: u64) -> (r: bool)
        requires
            self.wf(),
        ensures
            r == self.listed().contains(creator),
    {
        let n = self.num_creators as usize;
        let mut i: usize = 0;
        while i < n
            invariant
                n == self.num_creators,
                self.wf(),
                0 <= i <= n,
                forall|j: int| 0 <= j < i ==> self.creators@[j] != creator,
            decreases n - i,
        {
            if self.creators[i] == creator {
                proof {
                    assert(self.listed()[i as int] == creator);
                }
                return true;
            }
            i = i + 1;
        }
        proof {
            assert(forall|j: int| 0 <= j < self.listed().len()
                ==> self.listed()[j] == self.creators@[j]);
        }
        false
    }

    /// Appends `creator` to the list, failing if the list is full or
    /// the creator is already on it.  On failure the registry is left
    /// exactly as it was.
    pub fn whitelist_creator(&mut self, creator: u64) -> (r: Result<(), MPLXCoreError>)
        requires
            old(self).wf(),
        ensures
            final(self).wf(),
            (r == Err::<(), MPLXCoreError>(MPLXCoreError::CreatorListFull)
                <==> old(self).num_creators == 10),
            (r == Err::<(), MPLXCoreError>(MPLXCoreError::CreatorAlreadyWhitelisted)
                <==> old(self).num_creators < 10 && old(self).listed().contains(creator)),
            (r is Ok <==> old(self).num_creators < 10 && !old(self).listed().contains(creator)),
            r is Ok ==> final(self).listed() == old(self).listed().push(creator)
                && final(self).num_creators == old(self).num_creators + 1
                && final(self).bump == old(self).bump,
            r is Err ==> *final(self) == *old(self),
    {
        if self.num_creators as usize >= 10 {
            return Err(MPLXCoreError::CreatorListFull);
        }
        if self.contains(creator) {
            return Err(MPLXCoreError::CreatorAlreadyWhitelisted);
        }
        let slot = self.num_creators as usize;
        self.creators[slot] = creator;
        self.num_creators = self.num_creators + 1;
        proof {
            assert(self.listed() =~= old(self).listed().push(creator));
        }
        Ok(())
    }
}

} // verus!
