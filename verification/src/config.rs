use vstd::prelude::*;

use crate::errors::ErrorCode;
use crate::key::Key;

verus! {

/// The configuration shared by pools: the guardians allowed to manage them.
#[derive(Debug)]
pub struct DunePoolConfig {
    pub bump: u8,
    pub guardians: Vec<Key>,
    pub super_guardian: Key,
}

/// Whether `guardian` occurs in `guardians`.
pub open spec fn has_guardian(guardians: Seq<Key>, guardian: Key) -> bool {
    exists|i: int| 0 <= i < guardians.len() && #[trigger] guardians[i].bytes@ == guardian.bytes@
}

/// Whether no key occurs twice in `guardians`.
pub open spec fn guardians_distinct(guardians: Seq<Key>) -> bool {
    forall|i: int, j: int|
        0 <= i < j < guardians.len() ==> #[trigger] guardians[i].bytes@ != #[trigger] guardians[j].bytes@
}

/// The guardian list after adding `guardian`, or the reason it is refused: a
/// guardian already in the list, or a list that already holds the maximum
/// (its length taken as a `u32`).
pub open spec fn guardian_added(guardians: Seq<Key>, guardian: Key) -> Result<Seq<Key>, ErrorCode> {
    if has_guardian(guardians, guardian) {
        Err(ErrorCode::ExistedGuardian)
    } else if guardians.len() as u32 >= DunePoolConfig::MAXIMUM_GUARDIANS {
        Err(ErrorCode::MaximumGuardiansExceeds)
    } else {
        Ok(guardians.push(guardian))
    }
}

impl DunePoolConfig {
    /// Account size of a configuration, with its 8-byte discriminator.
    pub const LEN: usize = 8 + 1 + (4 + 20 * 32) + 32;

    /// The most guardians a configuration accepts through `set_guardian`.
    pub const MAXIMUM_GUARDIANS: u32 = 20;

    /// Adds a guardian, unless it is already one or the list is full.
    pub fn set_guardian(&mut self, guardian: Key) -> (r: Result<(), ErrorCode>)
        ensures
            final(self).bump == old(self).bump,
            final(self).super_guardian == old(self).super_guardian,
            match guardian_added(old(self).guardians@, guardian) {
                Ok(added) => r is Ok && final(self).guardians@ == added,
                Err(e) => r == Err::<(), ErrorCode>(e) && final(self).guardians@ == old(self).guardians@,
            },
            r is Ok ==> final(self).guardians@.len() == old(self).guardians@.len() + 1,
            r is Ok ==> forall|i: int|
                0 <= i < old(self).guardians@.len() ==> #[trigger] final(self).guardians@[i] == old(
                    self,
                ).guardians@[i],
            r is Ok ==> final(self).guardians@.last() == guardian,
    {
        let mut i: usize = 0;
        while i < self.guardians.len()
            invariant
                0 <= i <= self.guardians@.len(),
                forall|j: int| 0 <= j < i ==> #[trigger] self.guardians@[j].bytes@ != guardian.bytes@,
            decreases self.guardians@.len() - i,
        {
            if self.guardians[i] == guardian {
                return Err(ErrorCode::ExistedGuardian);
            }
            i = i + 1;
        }
        if self.guardians.len() as u32 >= Self::MAXIMUM_GUARDIANS {
            return Err(ErrorCode::MaximumGuardiansExceeds);
        }
        self.guardians.push(guardian);
        Ok(())
    }

    /// Sets the bump and replaces the guardian list as given.
    pub fn initialize(&mut self, bump: u8, guardians: Vec<Key>) -> (r: Result<(), ErrorCode>)
        ensures
            r is Ok,
            final(self).bump == bump,
            final(self).guardians@ == guardians@,
            final(self).super_guardian == old(self).super_guardian,
    {
        self.bump = bump;
        self.guardians = guardians;
        Ok(())
    }
}

/// Adding guardians keeps the list free of repeats and within the maximum,
/// and an added guardian is in the list.
pub proof fn guardian_added_keeps_list_valid(guardians: Seq<Key>, guardian: Key)
    requires
        guardians_distinct(guardians),
        guardians.len() <= DunePoolConfig::MAXIMUM_GUARDIANS,
    ensures
        guardian_added(guardians, guardian) matches Ok(added) ==> {
            &&& guardians_distinct(added)
            &&& added.len() <= DunePoolConfig::MAXIMUM_GUARDIANS
            &&& has_guardian(added, guardian)
        },
{
    if let Ok(added) = guardian_added(guardians, guardian) {
        assert(added[guardians.len() as int].bytes@ == guardian.bytes@);
        assert(guardians.len() as u32 == guardians.len());
        assert forall|i: int, j: int| 0 <= i < j < added.len() implies #[trigger] added[i].bytes@
            != #[trigger] added[j].bytes@ by {
            if j == guardians.len() {
                assert(added[i] == guardians[i]);
                if added[i].bytes@ == guardian.bytes@ {
                    assert(has_guardian(guardians, guardian));
                }
            } else {
                assert(added[i] == guardians[i] && added[j] == guardians[j]);
            }
        }
    }
}

/// Adding the same guardian twice is refused the second time.
pub proof fn guardian_added_twice_is_refused(guardians: Seq<Key>, guardian: Key)
    ensures
        guardian_added(guardians, guardian) matches Ok(added) ==> guardian_added(added, guardian)
            == Err::<Seq<Key>, ErrorCode>(ErrorCode::ExistedGuardian),
{
    if let Ok(added) = guardian_added(guardians, guardian) {
        assert(added[guardians.len() as int].bytes@ == guardian.bytes@);
        assert(has_guardian(added, guardian));
    }
}

/// A successful add keeps every guardian where it was and appends the new
/// one at the end: the list grows by one, agrees with the old list on its old
/// indices, and ends with the new guardian.
pub proof fn guardian_added_appends(guardians: Seq<Key>, guardian: Key)
    ensures
        guardian_added(guardians, guardian) matches Ok(added) ==> {
            &&& added.len() == guardians.len() + 1
            &&& forall|i: int| 0 <= i < guardians.len() ==> #[trigger] added[i] == guardians[i]
            &&& added[guardians.len() as int] == guardian
            &&& forall|i: int| 0 <= i < guardians.len() ==> has_guardian(added, #[trigger] guardians[i])
        },
{
    if let Ok(added) = guardian_added(guardians, guardian) {
        assert forall|i: int| 0 <= i < guardians.len() implies has_guardian(added, #[trigger] guardians[i]) by {
            assert(added[i].bytes@ == guardians[i].bytes@);
        }
    }
}

} // verus!
