//! The reputation contract: a ledger of one score per account, each score
//! in the closed interval [0, 100]. A single admin account manages a set of
//! updater accounts; only updaters may mutate scores. Every successful
//! mutation reports a score-changed event carrying the old and new value.
//!
//! Each entry point takes the caller whose authorization the host has
//! already verified, and returns the event to publish, or the error code
//! the host aborts the transaction with.

use crate::storage::KvMap;
use vstd::prelude::*;

verus! {

/// Smallest score a ledger may hold.
pub const MIN_SCORE: u32 = 0;

/// Largest score a ledger may hold.
pub const MAX_SCORE: u32 = 100;

/// Error codes of the reputation contract, with the stable ordinals that
/// outside callers see.
#[derive(Clone, Copy, Debug, PartialEq, Eq)]
pub enum ReputationError {
    NotAdmin,
    NotUpdater,
    OutOfBounds,
    Overflow,
    Underflow,
}

impl ReputationError {
    /// The stable numeric code of this error.
    pub open spec fn spec_code(self) -> u32 {
        match self {
            ReputationError::NotAdmin => 1,
            ReputationError::NotUpdater => 2,
            ReputationError::OutOfBounds => 3,
            ReputationError::Overflow => 4,
            ReputationError::Underflow => 5,
        }
    }

    /// The stable numeric code of this error.
    pub fn code(&self) -> (r: u32)
        ensures
            r == self.spec_code(),
    {
        match self {
            ReputationError::NotAdmin => 1,
            ReputationError::NotUpdater => 2,
            ReputationError::OutOfBounds => 3,
            ReputationError::Overflow => 4,
            ReputationError::Underflow => 5,
        }
    }
}

/// The reason tag a score-changed event carries.
#[derive(Clone, Copy, Debug, PartialEq, Eq)]
pub enum ScoreReason {
    Increase,
    Decrease,
    Assign,
}

impl ScoreReason {
    /// The tag under which the event log publishes this reason.
    pub fn label(&self) -> (r: &'static str)
        ensures
            self is Increase ==> r@ == "increase"@,
            self is Decrease ==> r@ == "decrease"@,
            self is Assign ==> r@ == "set"@,
    {
        match self {
            ScoreReason::Increase => "increase",
            ScoreReason::Decrease => "decrease",
            ScoreReason::Assign => "set",
        }
    }
}

/// Event: a score changed from `old_score` to `new_score`.
#[derive(Clone, Copy, Debug, PartialEq, Eq)]
pub struct ScoreChanged {
    pub user: u64,
    pub old_score: u32,
    pub new_score: u32,
    pub reason: ScoreReason,
}

/// Event: an account was granted or stripped of updater rights.
#[derive(Clone, Copy, Debug, PartialEq, Eq)]
pub struct UpdaterChanged {
    pub updater: u64,
    pub allowed: bool,
}

/// Event: the admin changed. At bootstrap there is no prior admin and
/// `old_admin == new_admin`; callers must read that as "no previous admin".
#[derive(Clone, Copy, Debug, PartialEq, Eq)]
pub struct AdminChanged {
    pub old_admin: u64,
    pub new_admin: u64,
}

/// The abstract state of the reputation contract: the admin (if one was
/// ever set), the updater set, and the score of every account that has a
/// record. An account with no record has score 0.
#[verifier::ext_equal]
pub struct RepState {
    pub admin: Option<u64>,
    pub updaters: Map<u64, bool>,
    pub scores: Map<u64, u32>,
}

impl RepState {
    /// The state of a freshly deployed contract.
    pub open spec fn initial() -> RepState {
        RepState { admin: None, updaters: Map::empty(), scores: Map::empty() }
    }

    /// The score of `user`: its record, or 0 when it has none.
    pub open spec fn score_of(self, user: u64) -> u32 {
        if self.scores.contains_key(user) {
            self.scores[user]
        } else {
            0
        }
    }

    /// Whether `addr` holds updater rights.
    pub open spec fn is_updater(self, addr: u64) -> bool {
        self.updaters.contains_key(addr) && self.updaters[addr]
    }

    /// Every recorded score lies in [`MIN_SCORE`, `MAX_SCORE`].
    pub open spec fn scores_in_bounds(self) -> bool {
        forall|u: u64| #[trigger]
            self.scores.contains_key(u) ==> MIN_SCORE <= self.scores[u] <= MAX_SCORE
    }

    /// This state with the score of `user` set to `value`.
    pub open spec fn with_score(self, user: u64, value: u32) -> RepState {
        RepState { scores: self.scores.insert(user, value), ..self }
    }

    /// One `increase_score` call: the state after it and what it returns.
    pub open spec fn step_increase_score(self, updater: u64, user: u64, amount: u32) -> (
        RepState,
        Result<ScoreChanged, ReputationError>,
    ) {
        if !self.is_updater(updater) {
            (self, Err(ReputationError::NotUpdater))
        } else if self.score_of(user) + amount > MAX_SCORE {
            (self, Err(ReputationError::Overflow))
        } else {
            let new_score = (self.score_of(user) + amount) as u32;
            (
                self.with_score(user, new_score),
                Ok(
                    (ScoreChanged {
                        user,
                        old_score: self.score_of(user),
                        new_score,
                        reason: ScoreReason::Increase,
                    }),
                ),
            )
        }
    }

    /// One `decrease_score` call: the state after it and what it returns.
    pub open spec fn step_decrease_score(self, updater: u64, user: u64, amount: u32) -> (
        RepState,
        Result<ScoreChanged, ReputationError>,
    ) {
        if !self.is_updater(updater) {
            (self, Err(ReputationError::NotUpdater))
        } else if amount > self.score_of(user) {
            (self, Err(ReputationError::Underflow))
        } else {
            let new_score = (self.score_of(user) - amount) as u32;
            (
                self.with_score(user, new_score),
                Ok(
                    (ScoreChanged {
                        user,
                        old_score: self.score_of(user),
                        new_score,
                        reason: ScoreReason::Decrease,
                    }),
                ),
            )
        }
    }

    /// One `set_score` call: the state after it and what it returns.
    pub open spec fn step_set_score(self, updater: u64, user: u64, new_score: u32) -> (
        RepState,
        Result<ScoreChanged, ReputationError>,
    ) {
        if !self.is_updater(updater) {
            (self, Err(ReputationError::NotUpdater))
        } else if new_score < MIN_SCORE || new_score > MAX_SCORE {
            (self, Err(ReputationError::OutOfBounds))
        } else {
            (
                self.with_score(user, new_score),
                Ok(
                    (ScoreChanged {
                        user,
                        old_score: self.score_of(user),
                        new_score,
                        reason: ScoreReason::Assign,
                    }),
                ),
            )
        }
    }

    /// One `set_updater` call: the state after it and what it returns.
    pub open spec fn step_set_updater(self, caller: u64, updater: u64, allowed: bool) -> (
        RepState,
        Result<UpdaterChanged, ReputationError>,
    ) {
        if self.admin != Some(caller) {
            (self, Err(ReputationError::NotAdmin))
        } else {
            let updaters = if allowed {
                self.updaters.insert(updater, true)
            } else {
                self.updaters.remove(updater)
            };
            (
                RepState { updaters, ..self },
                Ok((UpdaterChanged { updater, allowed })),
            )
        }
    }

    /// One `set_admin` call: the state after it and the event it reports.
    /// With no admin set the call bootstraps the admin (first writer wins,
    /// no authorization needed); afterwards the host only lets the current
    /// admin authorize it.
    pub open spec fn step_set_admin(self, new_admin: u64) -> (RepState, AdminChanged) {
        match self.admin {
            Some(old_admin) => (
                RepState { admin: Some(new_admin), ..self },
                AdminChanged { old_admin, new_admin },
            ),
            None => (
                RepState { admin: Some(new_admin), ..self },
                AdminChanged { old_admin: new_admin, new_admin },
            ),
        }
    }
}

/// The reputation contract's stored state.
pub struct ReputationContract {
    admin: Option<u64>,
    updaters: KvMap<bool>,
    scores: KvMap<u32>,
}

impl View for ReputationContract {
    type V = RepState;

    closed spec fn view(&self) -> RepState {
        RepState { admin: self.admin, updaters: self.updaters@, scores: self.scores@ }
    }
}

impl ReputationContract {
    /// The contract's storage is well formed and every recorded score lies
    /// in bounds. Constructors establish this and every entry point
    /// preserves it.
    pub closed spec fn wf(&self) -> bool {
        self.updaters.wf() && self.scores.wf() && self@.scores_in_bounds()
    }

    /// A freshly deployed contract: no admin, no updaters, no scores.
    pub fn new() -> (c: Self)
        ensures
            c.wf(),
            c@ == RepState::initial(),
    {
        let c = ReputationContract {
            admin: None,
            updaters: KvMap::new(),
            scores: KvMap::new(),
        };
        proof {
            assert(c@ =~= RepState::initial());
        }
        c
    }

    /// The version identifier of this contract.
    pub fn get_version() -> (r: &'static str)
        ensures
            r@ == "v1_0_0"@,
    {
        "v1_0_0"
    }

    /// The score of `user`; 0 when no record exists. No authorization
    /// required.
    pub fn get_score(&self, user: u64) -> (r: u32)
        requires
            self.wf(),
        ensures
            r == self@.score_of(user),
            MIN_SCORE <= r <= MAX_SCORE,
    {
        match self.scores.get(user) {
            Some(s) => *s,
            None => 0,
        }
    }

    /// Raise the score of `user` by `amount`. The host has verified
    /// `updater`'s authorization. Fails with `NotUpdater` unless `updater`
    /// holds updater rights, and with `Overflow` when the sum would pass
    /// `MAX_SCORE` (or the integer width).
    pub fn increase_score(&mut self, updater: u64, user: u64, amount: u32) -> (r: Result<
        ScoreChanged,
        ReputationError,
    >)
        requires
            old(self).wf(),
        ensures
            final(self).wf(),
            final(self)@ == old(self)@.step_increase_score(updater, user, amount).0,
            r == old(self)@.step_increase_score(updater, user, amount).1,
    {
        if !self.is_updater(updater) {
            return Err(ReputationError::NotUpdater);
        }
        let old_score = self.get_score(user);
        if amount > MAX_SCORE - old_score {
            return Err(ReputationError::Overflow);
        }
        let new_score = old_score + amount;
        self.scores.set(user, new_score);
        proof {
            assert(self@ =~= old(self)@.step_increase_score(updater, user, amount).0);
        }
        Ok(ScoreChanged { user, old_score, new_score, reason: ScoreReason::Increase })
    }

    /// Lower the score of `user` by `amount`. The host has verified
    /// `updater`'s authorization. Fails with `NotUpdater` unless `updater`
    /// holds updater rights, and with `Underflow` when the difference would
    /// fall below `MIN_SCORE`.
    pub fn decrease_score(&mut self, updater: u64, user: u64, amount: u32) -> (r: Result<
        ScoreChanged,
        ReputationError,
    >)
        requires
            old(self).wf(),
        ensures
            final(self).wf(),
            final(self)@ == old(self)@.step_decrease_score(updater, user, amount).0,
            r == old(self)@.step_decrease_score(updater, user, amount).1,
    {
        if !self.is_updater(updater) {
            return Err(ReputationError::NotUpdater);
        }
        let old_score = self.get_score(user);
        if amount > old_score {
            return Err(ReputationError::Underflow);
        }
        let new_score = old_score - amount;
        self.scores.set(user, new_score);
        proof {
            assert(self@ =~= old(self)@.step_decrease_score(updater, user, amount).0);
        }
        Ok(ScoreChanged { user, old_score, new_score, reason: ScoreReason::Decrease })
    }

    /// Set the score of `user` to `new_score` outright. The host has
    /// verified `updater`'s authorization. Fails with `NotUpdater` unless
    /// `updater` holds updater rights, and with `OutOfBounds` when
    /// `new_score` lies outside [`MIN_SCORE`, `MAX_SCORE`].
    pub fn set_score(&mut self, updater: u64, user: u64, new_score: u32) -> (r: Result<
        ScoreChanged,
        ReputationError,
    >)
        requires
            old(self).wf(),
        ensures
            final(self).wf(),
            final(self)@ == old(self)@.step_set_score(updater, user, new_score).0,
            r == old(self)@.step_set_score(updater, user, new_score).1,
    {
        if !self.is_updater(updater) {
            return Err(ReputationError::NotUpdater);
        }
        if new_score > MAX_SCORE {
            return Err(ReputationError::OutOfBounds);
        }
        let old_score = self.get_score(user);
        self.scores.set(user, new_score);
        proof {
            assert(self@ =~= old(self)@.step_set_score(updater, user, new_score).0);
        }
        Ok(ScoreChanged { user, old_score, new_score, reason: ScoreReason::Assign })
    }

    /// Grant (`allowed == true`) or revoke (`allowed == false`) updater
    /// rights; revocation deletes the record rather than storing `false`.
    /// The host has verified `admin`'s authorization; an admin must have
    /// been set, or the host aborts before the contract runs. Fails with
    /// `NotAdmin` unless `admin` is the stored admin.
    pub fn set_updater(&mut self, admin: u64, updater: u64, allowed: bool) -> (r: Result<
        UpdaterChanged,
        ReputationError,
    >)
        requires
            old(self).wf(),
            old(self)@.admin is Some,
        ensures
            final(self).wf(),
            final(self)@ == old(self)@.step_set_updater(admin, updater, allowed).0,
            r == old(self)@.step_set_updater(admin, updater, allowed).1,
    {
        let stored = self.admin.unwrap();
        if stored != admin {
            return Err(ReputationError::NotAdmin);
        }
        if allowed {
            self.updaters.set(updater, true);
        } else {
            self.updaters.remove(updater);
        }
        proof {
            assert(self@ =~= old(self)@.step_set_updater(admin, updater, allowed).0);
        }
        Ok(UpdaterChanged { updater, allowed })
    }

    /// Whether `addr` holds updater rights. No authorization required.
    pub fn is_updater(&self, addr: u64) -> (r: bool)
        requires
            self.wf(),
        ensures
            r == self@.is_updater(addr),
    {
        match self.updaters.get(addr) {
            Some(b) => *b,
            None => false,
        }
    }

    /// Set the admin. With no admin stored this bootstraps the admin and
    /// needs no authorization (first writer wins); otherwise the host has
    /// verified the authorization of the stored admin, whose privileges end
    /// here. Updater rights and scores are untouched.
    pub fn set_admin(&mut self, new_admin: u64) -> (ev: AdminChanged)
        requires
            old(self).wf(),
        ensures
            final(self).wf(),
            final(self)@ == old(self)@.step_set_admin(new_admin).0,
            ev == old(self)@.step_set_admin(new_admin).1,
    {
        let ev = match self.admin {
            Some(old_admin) => {
                self.admin = Some(new_admin);
                AdminChanged { old_admin, new_admin }
            },
            None => {
                self.admin = Some(new_admin);
                AdminChanged { old_admin: new_admin, new_admin }
            },
        };
        proof {
            assert(self@.scores =~= old(self)@.scores);
            assert(self@ =~= old(self)@.step_set_admin(new_admin).0);
        }
        ev
    }

    /// The stored admin. An admin must have been set, or the host aborts
    /// the call before the contract runs.
    pub fn get_admin(&self) -> (r: u64)
        requires
            self@.admin is Some,
        ensures
            Some(r) == self@.admin,
    {
        self.admin.unwrap()
    }

    /// The stored admin as the host reads it from storage: `None` until
    /// one is set.
    pub fn current_admin(&self) -> (r: Option<u64>)
        ensures
            r == self@.admin,
    {
        self.admin
    }
}

/// Law: in a well-formed ledger every account's score lies in
/// [`MIN_SCORE`, `MAX_SCORE`] — accounts without a record read as 0. Every
/// entry point preserves well-formedness, so the bound holds after any
/// successful mutation.
pub proof fn lemma_score_in_bounds(m: &ReputationContract, user: u64)
    requires
        m.wf(),
    ensures
        MIN_SCORE <= m@.score_of(user) <= MAX_SCORE,
{
    if m@.scores.contains_key(user) {
        assert(MIN_SCORE <= m@.scores[user] <= MAX_SCORE);
    }
}

/// Law: every score mutation keeps all recorded scores within
/// [`MIN_SCORE`, `MAX_SCORE`], whether it succeeds or fails.
pub proof fn lemma_mutations_preserve_score_bounds(
    s: RepState,
    updater: u64,
    user: u64,
    amount: u32,
)
    requires
        s.scores_in_bounds(),
    ensures
        s.step_increase_score(updater, user, amount).0.scores_in_bounds(),
        s.step_decrease_score(updater, user, amount).0.scores_in_bounds(),
        s.step_set_score(updater, user, amount).0.scores_in_bounds(),
{
    let t1 = s.step_increase_score(updater, user, amount).0;
    assert forall|u: u64| #[trigger] t1.scores.contains_key(u) implies MIN_SCORE <= t1.scores[u]
        <= MAX_SCORE by {
        if u != user {
            assert(s.scores.contains_key(u));
        }
    }
    let t2 = s.step_decrease_score(updater, user, amount).0;
    assert forall|u: u64| #[trigger] t2.scores.contains_key(u) implies MIN_SCORE <= t2.scores[u]
        <= MAX_SCORE by {
        if u != user {
            assert(s.scores.contains_key(u));
        }
    }
    let t3 = s.step_set_score(updater, user, amount).0;
    assert forall|u: u64| #[trigger] t3.scores.contains_key(u) implies MIN_SCORE <= t3.scores[u]
        <= MAX_SCORE by {
        if u != user {
            assert(s.scores.contains_key(u));
        }
    }
}

/// Law: `set_score` is idempotent. Repeating a successful call with the
/// same value leaves the state exactly as after the first call, and the
/// repeat reports a no-op-shaped event whose old and new score coincide.
pub proof fn lemma_set_score_idempotent(s: RepState, updater: u64, user: u64, value: u32)
    ensures
        s.step_set_score(updater, user, value).0.step_set_score(updater, user, value).0
            == s.step_set_score(updater, user, value).0,
        ({
            let t = s.step_set_score(updater, user, value).0;
            s.step_set_score(updater, user, value).1 is Ok ==> t.step_set_score(
                updater,
                user,
                value,
            ).1 == Ok::<ScoreChanged, ReputationError>(
                (ScoreChanged { user, old_score: value, new_score: value, reason: ScoreReason::Assign }),
            )
        }),
        s.step_set_score(updater, user, value).1 is Err
            ==> s.step_set_score(updater, user, value).0.step_set_score(updater, user, value).1
            == s.step_set_score(updater, user, value).1,
{
    let t = s.step_set_score(updater, user, value).0;
    if s.is_updater(updater) && MIN_SCORE <= value <= MAX_SCORE {
        assert(t.with_score(user, value) =~= t);
    }
}

/// Law: admin transfer is exclusive. After the admin moves from
/// `old_admin` to a different `new_admin`, any admin-gated call by
/// `old_admin` fails with `NotAdmin` and changes nothing.
pub proof fn lemma_admin_transfer_exclusive(
    s: RepState,
    old_admin: u64,
    new_admin: u64,
    updater: u64,
    allowed: bool,
)
    requires
        s.admin == Some(old_admin),
        new_admin != old_admin,
    ensures
        ({
            let t = s.step_set_admin(new_admin).0;
            t.step_set_updater(old_admin, updater, allowed) == (
                t,
                Err::<UpdaterChanged, ReputationError>(ReputationError::NotAdmin),
            )
        }),
{
}

/// Law: scores and updater rights survive an admin transfer unchanged; a
/// `set_admin` call touches nothing but the admin.
pub proof fn lemma_admin_transfer_preserves_data(s: RepState, new_admin: u64)
    ensures
        s.step_set_admin(new_admin).0.scores == s.scores,
        s.step_set_admin(new_admin).0.updaters == s.updaters,
{
}

} // verus!
