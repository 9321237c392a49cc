//! The credit line contract: a ledger of loans keyed by a sequential id.
//! A loan is created only for a strictly positive amount backed by a
//! guarantee of at least 20% of the total, and only for a borrower whose
//! reputation score — read from the configured reputation contract —
//! reaches the fixed threshold. Loans are created `Active`; no later
//! transition is implemented here.
//!
//! Each entry point takes the caller whose authorization the host has
//! already verified, together with any host-supplied inputs (the borrower's
//! score as the configured reputation contract returned it, and the ledger
//! timestamp), and returns the event to publish, or the error code the
//! host aborts the transaction with.

use crate::storage::KvMap;
use vstd::prelude::*;

verus! {

/// A guarantee must cover at least this percentage of the loan total.
pub const MIN_GUARANTEE_PERCENT: i128 = 20;

/// Smallest reputation score that may take a loan.
pub const MIN_REPUTATION_THRESHOLD: u32 = 50;

/// Error codes of the credit line contract, with the stable ordinals that
/// outside callers see.
#[derive(Clone, Copy, Debug, PartialEq, Eq)]
pub enum CreditLineError {
    NotAdmin,
    InsufficientGuarantee,
    MerchantNotActive,
    InsufficientReputation,
    InsufficientLiquidity,
    LoanNotFound,
    LoanNotActive,
    NotBorrower,
    InvalidAmount,
    Overflow,
    Underflow,
}

impl CreditLineError {
    /// The stable numeric code of this error.
    pub open spec fn spec_code(self) -> u32 {
        match self {
            CreditLineError::NotAdmin => 1,
            CreditLineError::InsufficientGuarantee => 2,
            CreditLineError::MerchantNotActive => 3,
            CreditLineError::InsufficientReputation => 4,
            CreditLineError::InsufficientLiquidity => 5,
            CreditLineError::LoanNotFound => 6,
            CreditLineError::LoanNotActive => 7,
            CreditLineError::NotBorrower => 8,
            CreditLineError::InvalidAmount => 9,
            CreditLineError::Overflow => 10,
            CreditLineError::Underflow => 11,
        }
    }

    /// The stable numeric code of this error.
    pub fn code(&self) -> (r: u32)
        ensures
            r == self.spec_code(),
    {
        match self {
            CreditLineError::NotAdmin => 1,
            CreditLineError::InsufficientGuarantee => 2,
            CreditLineError::MerchantNotActive => 3,
            CreditLineError::InsufficientReputation => 4,
            CreditLineError::InsufficientLiquidity => 5,
            CreditLineError::LoanNotFound => 6,
            CreditLineError::LoanNotActive => 7,
            CreditLineError::NotBorrower => 8,
            CreditLineError::InvalidAmount => 9,
            CreditLineError::Overflow => 10,
            CreditLineError::Underflow => 11,
        }
    }
}

/// The lifecycle state of a loan. Loans are created `Active`; the other
/// states exist for off-chain consumers but no entry point reaches them.
#[derive(Clone, Copy, Debug, PartialEq, Eq)]
pub enum LoanStatus {
    Active,
    Paid,
    Defaulted,
}

/// One installment of a repayment schedule.
#[derive(Clone, Copy, Debug, PartialEq, Eq)]
pub struct RepaymentInstallment {
    pub due_date: u64,
    pub amount: i128,
}

/// A loan record.
#[derive(Clone, Debug, PartialEq, Eq)]
pub struct Loan {
    pub loan_id: u64,
    pub borrower: u64,
    pub merchant: u64,
    pub total_amount: i128,
    pub guarantee_amount: i128,
    pub remaining_balance: i128,
    pub repayment_schedule: Vec<RepaymentInstallment>,
    pub status: LoanStatus,
    pub created_at: u64,
}

/// The abstract value of a loan record, with the schedule as a sequence.
#[verifier::ext_equal]
pub struct LoanView {
    pub loan_id: u64,
    pub borrower: u64,
    pub merchant: u64,
    pub total_amount: i128,
    pub guarantee_amount: i128,
    pub remaining_balance: i128,
    pub repayment_schedule: Seq<RepaymentInstallment>,
    pub status: LoanStatus,
    pub created_at: u64,
}

impl View for Loan {
    type V = LoanView;

    open spec fn view(&self) -> LoanView {
        LoanView {
            loan_id: self.loan_id,
            borrower: self.borrower,
            merchant: self.merchant,
            total_amount: self.total_amount,
            guarantee_amount: self.guarantee_amount,
            remaining_balance: self.remaining_balance,
            repayment_schedule: self.repayment_schedule@,
            status: self.status,
            created_at: self.created_at,
        }
    }
}

/// Event: a loan was created, carrying the full repayment schedule.
#[derive(Clone, Debug, PartialEq, Eq)]
pub struct LoanCreated {
    pub user: u64,
    pub merchant: u64,
    pub loan_id: u64,
    pub total_amount: i128,
    pub guarantee_amount: i128,
    pub repayment_schedule: Vec<RepaymentInstallment>,
}

/// The abstract value of a loan-created event.
#[verifier::ext_equal]
pub struct LoanCreatedView {
    pub user: u64,
    pub merchant: u64,
    pub loan_id: u64,
    pub total_amount: i128,
    pub guarantee_amount: i128,
    pub repayment_schedule: Seq<RepaymentInstallment>,
}

impl View for LoanCreated {
    type V = LoanCreatedView;

    open spec fn view(&self) -> LoanCreatedView {
        LoanCreatedView {
            user: self.user,
            merchant: self.merchant,
            loan_id: self.loan_id,
            total_amount: self.total_amount,
            guarantee_amount: self.guarantee_amount,
            repayment_schedule: self.repayment_schedule@,
        }
    }
}

/// Event: a loan defaulted, forfeiting the guarantee. No entry point
/// reaches the `Defaulted` state in this version; the shape is fixed here
/// for the off-chain consumers that index it.
#[derive(Clone, Copy, Debug, PartialEq, Eq)]
pub struct LoanDefaulted {
    pub borrower: u64,
    pub loan_id: u64,
    pub total_amount: i128,
    pub unpaid_balance: i128,
    pub guarantee_forfeited: i128,
    pub timestamp: u64,
}

/// The least guarantee a loan of `total` needs: 20% of the total, rounded
/// down.
pub open spec fn spec_min_guarantee(total: int) -> int {
    total * (MIN_GUARANTEE_PERCENT as int) / 100
}

/// What validating the amounts of a loan yields: `InvalidAmount` unless
/// both are strictly positive, `Overflow` when 20% of the total cannot be
/// computed in the integer width, `InsufficientGuarantee` when the
/// guarantee is under 20% of the total.
pub open spec fn spec_validate_guarantee(total_amount: i128, guarantee_amount: i128) -> Result<
    (),
    CreditLineError,
> {
    if total_amount <= 0 || guarantee_amount <= 0 {
        Err(CreditLineError::InvalidAmount)
    } else if total_amount * (MIN_GUARANTEE_PERCENT as int) > i128::MAX {
        Err(CreditLineError::Overflow)
    } else if guarantee_amount < spec_min_guarantee(total_amount as int) {
        Err(CreditLineError::InsufficientGuarantee)
    } else {
        Ok(())
    }
}

/// Validate that the guarantee covers at least 20% of the loan total.
pub fn validate_guarantee(total_amount: i128, guarantee_amount: i128) -> (r: Result<
    (),
    CreditLineError,
>)
    ensures
        r == spec_validate_guarantee(total_amount, guarantee_amount),
{
    if total_amount <= 0 || guarantee_amount <= 0 {
        return Err(CreditLineError::InvalidAmount);
    }
    if total_amount > i128::MAX / MIN_GUARANTEE_PERCENT {
        return Err(CreditLineError::Overflow);
    }
    let min_guarantee = total_amount * MIN_GUARANTEE_PERCENT / 100;
    if guarantee_amount < min_guarantee {
        return Err(CreditLineError::InsufficientGuarantee);
    }
    Ok(())
}

/// What validating the liquidity yields. With no pool configured the
/// check is skipped; with one configured the pool's share is
/// `total_amount - guarantee_amount`, and a negative share fails
/// `Underflow`. Querying the pool's balance is left to a later version.
pub open spec fn spec_validate_liquidity(
    liquidity_pool: Option<u64>,
    total_amount: i128,
    guarantee_amount: i128,
) -> Result<(), CreditLineError> {
    if liquidity_pool is Some && total_amount - guarantee_amount < 0 {
        Err(CreditLineError::Underflow)
    } else {
        Ok(())
    }
}

/// Validate the liquidity the pool must cover: with a pool configured,
/// the pool's share `total_amount - guarantee_amount` must not be
/// negative, else the call fails `Underflow`.
pub fn validate_liquidity(
    liquidity_pool: Option<u64>,
    total_amount: i128,
    guarantee_amount: i128,
) -> (r: Result<(), CreditLineError>)
    requires
        total_amount > 0,
        guarantee_amount > 0,
    ensures
        r == spec_validate_liquidity(liquidity_pool, total_amount, guarantee_amount),
{
    match liquidity_pool {
        None => Ok(()),
        Some(_) => {
            if total_amount < guarantee_amount {
                return Err(CreditLineError::Underflow);
            }
            let required_from_pool: i128 = total_amount - guarantee_amount;
            let _ = required_from_pool;
            Ok(())
        },
    }
}

/// The abstract state of the credit line contract: the admin and the three
/// collaborator addresses (each unset until configured), the loan counter,
/// and every loan on record.
#[verifier::ext_equal]
pub struct CreditState {
    pub admin: Option<u64>,
    pub reputation_contract: Option<u64>,
    pub merchant_registry: Option<u64>,
    pub liquidity_pool: Option<u64>,
    pub loan_counter: u64,
    pub loans: Map<u64, LoanView>,
}

impl CreditState {
    /// The state of a freshly deployed contract.
    pub open spec fn initial() -> CreditState {
        CreditState {
            admin: None,
            reputation_contract: None,
            merchant_registry: None,
            liquidity_pool: None,
            loan_counter: 0,
            loans: Map::empty(),
        }
    }

    /// Loan ids run from 1 up to the counter, never past it, and each
    /// record carries its own id.
    pub open spec fn inv(self) -> bool {
        forall|id: u64| #[trigger]
            self.loans.contains_key(id) ==> 1 <= id <= self.loan_counter && self.loans[id].loan_id
                == id
    }

    /// One `initialize` call: the admin and all three collaborator
    /// addresses are set.
    pub open spec fn step_initialize(
        self,
        admin: u64,
        reputation_contract: u64,
        merchant_registry: u64,
        liquidity_pool: u64,
    ) -> CreditState {
        CreditState {
            admin: Some(admin),
            reputation_contract: Some(reputation_contract),
            merchant_registry: Some(merchant_registry),
            liquidity_pool: Some(liquidity_pool),
            ..self
        }
    }

    /// One `create_loan` call: the state after it and what it returns.
    /// `score` is the borrower's score as the configured reputation
    /// contract returned it; `now` is the ledger timestamp.
    pub open spec fn step_create_loan(
        self,
        user: u64,
        merchant: u64,
        total_amount: i128,
        guarantee_amount: i128,
        repayment_schedule: Seq<RepaymentInstallment>,
        score: u32,
        now: u64,
    ) -> (CreditState, Result<(u64, LoanCreatedView), CreditLineError>) {
        if spec_validate_guarantee(total_amount, guarantee_amount) is Err {
            (self, Err(spec_validate_guarantee(total_amount, guarantee_amount)->Err_0))
        } else if score < MIN_REPUTATION_THRESHOLD {
            (self, Err(CreditLineError::InsufficientReputation))
        } else if spec_validate_liquidity(self.liquidity_pool, total_amount, guarantee_amount)
            is Err {
            (self, Err(CreditLineError::Underflow))
        } else {
            let loan_id = (self.loan_counter + 1) as u64;
            let loan = LoanView {
                loan_id,
                borrower: user,
                merchant,
                total_amount,
                guarantee_amount,
                remaining_balance: total_amount,
                repayment_schedule,
                status: LoanStatus::Active,
                created_at: now,
            };
            (
                CreditState { loan_counter: loan_id, loans: self.loans.insert(loan_id, loan), ..self },
                Ok(
                    (
                        loan_id,
                        LoanCreatedView {
                            user,
                            merchant,
                            loan_id,
                            total_amount,
                            guarantee_amount,
                            repayment_schedule,
                        },
                    ),
                ),
            )
        }
    }

    /// One `set_admin` call: the stored admin (whose authorization the
    /// host verified) hands the role to `new_admin`.
    pub open spec fn step_set_admin(self, new_admin: u64) -> CreditState {
        CreditState { admin: Some(new_admin), ..self }
    }

    /// One `set_reputation_contract` call.
    pub open spec fn step_set_reputation_contract(self, admin: u64, address: u64) -> (
        CreditState,
        Result<(), CreditLineError>,
    ) {
        if self.admin != Some(admin) {
            (self, Err(CreditLineError::NotAdmin))
        } else {
            (CreditState { reputation_contract: Some(address), ..self }, Ok(()))
        }
    }

    /// One `set_merchant_registry` call.
    pub open spec fn step_set_merchant_registry(self, admin: u64, address: u64) -> (
        CreditState,
        Result<(), CreditLineError>,
    ) {
        if self.admin != Some(admin) {
            (self, Err(CreditLineError::NotAdmin))
        } else {
            (CreditState { merchant_registry: Some(address), ..self }, Ok(()))
        }
    }

    /// One `set_liquidity_pool` call.
    pub open spec fn step_set_liquidity_pool(self, admin: u64, address: u64) -> (
        CreditState,
        Result<(), CreditLineError>,
    ) {
        if self.admin != Some(admin) {
            (self, Err(CreditLineError::NotAdmin))
        } else {
            (CreditState { liquidity_pool: Some(address), ..self }, Ok(()))
        }
    }
}

/// The abstract contents of a loan store.
pub open spec fn loans_view(m: Map<u64, Loan>) -> Map<u64, LoanView> {
    Map::new(|id: u64| m.contains_key(id), |id: u64| m[id]@)
}

/// Copy a repayment schedule element by element.
fn copy_schedule(v: &Vec<RepaymentInstallment>) -> (r: Vec<RepaymentInstallment>)
    ensures
        r@ == v@,
{
    let mut r: Vec<RepaymentInstallment> = Vec::new();
    let mut i: usize = 0;
    while i < v.len()
        invariant
            i <= v@.len(),
            r@ == v@.subrange(0, i as int),
        decreases v@.len() - i,
    {
        proof {
            assert(v@.subrange(0, i as int).push(v@[i as int]) =~= v@.subrange(0, i + 1));
        }
        r.push(v[i]);
        i = i + 1;
    }
    proof {
        assert(v@.subrange(0, v@.len() as int) =~= v@);
    }
    r
}

/// The credit line contract's stored state.
pub struct CreditLineContract {
    admin: Option<u64>,
    reputation_contract: Option<u64>,
    merchant_registry: Option<u64>,
    liquidity_pool: Option<u64>,
    loan_counter: u64,
    loans: KvMap<Loan>,
}

impl View for CreditLineContract {
    type V = CreditState;

    closed spec fn view(&self) -> CreditState {
        CreditState {
            admin: self.admin,
            reputation_contract: self.reputation_contract,
            merchant_registry: self.merchant_registry,
            liquidity_pool: self.liquidity_pool,
            loan_counter: self.loan_counter,
            loans: loans_view(self.loans@),
        }
    }
}

impl CreditLineContract {
    /// The contract's storage is well formed and loan ids obey the
    /// counter. Constructors establish this and every entry point
    /// preserves it.
    pub closed spec fn wf(&self) -> bool {
        self.loans.wf() && self@.inv()
    }

    /// A freshly deployed contract: unconfigured, with no loans.
    pub fn new() -> (c: Self)
        ensures
            c.wf(),
            c@ == CreditState::initial(),
    {
        let c = CreditLineContract {
            admin: None,
            reputation_contract: None,
            merchant_registry: None,
            liquidity_pool: None,
            loan_counter: 0,
            loans: KvMap::new(),
        };
        proof {
            assert(c@ =~= CreditState::initial());
        }
        c
    }

    /// The version identifier of this contract.
    pub fn get_version() -> (r: &'static str)
        ensures
            r@ == "v1_0_0"@,
    {
        "v1_0_0"
    }

    /// Configure the contract once: the admin (whose authorization the
    /// host verified) and the three collaborator addresses. A second call
    /// aborts in the host before the contract state changes, so an admin
    /// must not yet be set here.
    pub fn initialize(
        &mut self,
        admin: u64,
        reputation_contract: u64,
        merchant_registry: u64,
        liquidity_pool: u64,
    )
        requires
            old(self).wf(),
            old(self)@.admin is None,
        ensures
            final(self).wf(),
            final(self)@ == old(self)@.step_initialize(
                admin,
                reputation_contract,
                merchant_registry,
                liquidity_pool,
            ),
    {
        self.admin = Some(admin);
        self.reputation_contract = Some(reputation_contract);
        self.merchant_registry = Some(merchant_registry);
        self.liquidity_pool = Some(liquidity_pool);
        proof {
            assert(self@ =~= old(self)@.step_initialize(
                admin,
                reputation_contract,
                merchant_registry,
                liquidity_pool,
            ));
        }
    }

    /// Create a loan for `user` (whose authorization the host verified)
    /// with merchant `merchant`, the given amounts and schedule. `score`
    /// is the borrower's score as the configured reputation contract
    /// returned it — the call aborts in the host when no reputation
    /// contract is configured — and `now` is the ledger timestamp.
    ///
    /// Fails with `InvalidAmount` unless both amounts are strictly
    /// positive, with `Overflow` when computing 20% of the total would
    /// overflow, with `InsufficientGuarantee` when the guarantee is under
    /// 20% of the total, with `InsufficientReputation` when `score` is
    /// under the threshold, and with `Underflow` when a liquidity pool is
    /// configured and the pool's share `total_amount - guarantee_amount`
    /// is negative. Otherwise the loan is stored `Active` under the next
    /// sequential id with its balance equal to the total, and the
    /// loan-created event is returned.
    ///
    /// The merchant-registry validation is a placeholder in this version:
    /// with no registry configured it is skipped, and with one configured
    /// the merchant is assumed valid. The liquidity check goes no further
    /// than the pool's share; querying the pool's balance is left to a
    /// later version.
    pub fn create_loan(
        &mut self,
        user: u64,
        merchant: u64,
        total_amount: i128,
        guarantee_amount: i128,
        repayment_schedule: Vec<RepaymentInstallment>,
        score: u32,
        now: u64,
    ) -> (r: Result<(u64, LoanCreated), CreditLineError>)
        requires
            old(self).wf(),
            old(self)@.reputation_contract is Some,
            old(self)@.loan_counter < u64::MAX,
        ensures
            final(self).wf(),
            ({
                let step = old(self)@.step_create_loan(
                    user,
                    merchant,
                    total_amount,
                    guarantee_amount,
                    repayment_schedule@,
                    score,
                    now,
                );
                &&& final(self)@ == step.0
                &&& match (r, step.1) {
                    (Ok(p), Ok(q)) => p.0 == q.0 && p.1@ == q.1,
                    (Err(e), Err(se)) => e == se,
                    _ => false,
                }
            }),
    {
        if let Err(e) = validate_guarantee(total_amount, guarantee_amount) {
            return Err(e);
        }
        if score < MIN_REPUTATION_THRESHOLD {
            return Err(CreditLineError::InsufficientReputation);
        }
        if let Err(e) = validate_liquidity(self.liquidity_pool, total_amount, guarantee_amount) {
            return Err(e);
        }
        let loan_id = self.loan_counter + 1;
        self.loan_counter = loan_id;
        let loan = Loan {
            loan_id,
            borrower: user,
            merchant,
            total_amount,
            guarantee_amount,
            remaining_balance: total_amount,
            repayment_schedule: copy_schedule(&repayment_schedule),
            status: LoanStatus::Active,
            created_at: now,
        };
        proof {
            assert(loans_view(old(self).loans@.insert(loan_id, loan)) =~= loans_view(
                old(self).loans@,
            ).insert(loan_id, loan@));
        }
        self.loans.set(loan_id, loan);
        let ev = LoanCreated {
            user,
            merchant,
            loan_id,
            total_amount,
            guarantee_amount,
            repayment_schedule,
        };
        proof {
            let step = old(self)@.step_create_loan(
                user,
                merchant,
                total_amount,
                guarantee_amount,
                ev.repayment_schedule@,
                score,
                now,
            );
            assert(self@ =~= step.0);
        }
        Ok((loan_id, ev))
    }

    /// The loan stored under `loan_id`, or `LoanNotFound`.
    pub fn get_loan(&self, loan_id: u64) -> (r: Result<&Loan, CreditLineError>)
        requires
            self.wf(),
        ensures
            match r {
                Ok(l) => self@.loans.contains_key(loan_id) && l@ == self@.loans[loan_id],
                Err(e) => !self@.loans.contains_key(loan_id) && e == CreditLineError::LoanNotFound,
            },
    {
        match self.loans.get(loan_id) {
            Some(l) => Ok(l),
            None => Err(CreditLineError::LoanNotFound),
        }
    }

    /// Hand the admin role to `new_admin`. The host verified the stored
    /// admin's authorization — an admin must have been set, or the host
    /// aborts the call before the contract runs.
    pub fn set_admin(&mut self, new_admin: u64)
        requires
            old(self).wf(),
            old(self)@.admin is Some,
        ensures
            final(self).wf(),
            final(self)@ == old(self)@.step_set_admin(new_admin),
    {
        self.admin = Some(new_admin);
        proof {
            assert(self@ =~= old(self)@.step_set_admin(new_admin));
        }
    }

    /// The stored admin. An admin must have been set, or the host aborts
    /// the call before the contract runs.
    pub fn get_admin(&self) -> (r: u64)
        requires
            self@.admin is Some,
        ensures
            Some(r) == self@.admin,
    {
        self.admin.unwrap()
    }

    /// The loan counter: the id of the newest loan, or 0 with no loans
    /// yet.
    pub fn get_loan_counter(&self) -> (r: u64)
        ensures
            r == self@.loan_counter,
    {
        self.loan_counter
    }

    /// The stored admin as the host reads it from storage: `None` until
    /// the contract is initialized.
    pub fn current_admin(&self) -> (r: Option<u64>)
        ensures
            r == self@.admin,
    {
        self.admin
    }

    /// The configured reputation contract address, if any.
    pub fn get_reputation_contract(&self) -> (r: Option<u64>)
        ensures
            r == self@.reputation_contract,
    {
        self.reputation_contract
    }

    /// The configured liquidity pool address, if any.
    pub fn get_liquidity_pool(&self) -> (r: Option<u64>)
        ensures
            r == self@.liquidity_pool,
    {
        self.liquidity_pool
    }

    /// Point the contract at another reputation contract. The host has
    /// verified `admin`'s authorization; an admin must have been set, or
    /// the host aborts before the contract runs. Fails with `NotAdmin`
    /// unless `admin` is the stored admin.
    pub fn set_reputation_contract(&mut self, admin: u64, address: u64) -> (r: Result<
        (),
        CreditLineError,
    >)
        requires
            old(self).wf(),
            old(self)@.admin is Some,
        ensures
            final(self).wf(),
            final(self)@ == old(self)@.step_set_reputation_contract(admin, address).0,
            r == old(self)@.step_set_reputation_contract(admin, address).1,
    {
        let stored = self.admin.unwrap();
        if stored != admin {
            return Err(CreditLineError::NotAdmin);
        }
        self.reputation_contract = Some(address);
        proof {
            assert(self@ =~= old(self)@.step_set_reputation_contract(admin, address).0);
        }
        Ok(())
    }

    /// Point the contract at another merchant registry. Authorization as
    /// in `set_reputation_contract`.
    pub fn set_merchant_registry(&mut self, admin: u64, address: u64) -> (r: Result<
        (),
        CreditLineError,
    >)
        requires
            old(self).wf(),
            old(self)@.admin is Some,
        ensures
            final(self).wf(),
            final(self)@ == old(self)@.step_set_merchant_registry(admin, address).0,
            r == old(self)@.step_set_merchant_registry(admin, address).1,
    {
        let stored = self.admin.unwrap();
        if stored != admin {
            return Err(CreditLineError::NotAdmin);
        }
        self.merchant_registry = Some(address);
        proof {
            assert(self@ =~= old(self)@.step_set_merchant_registry(admin, address).0);
        }
        Ok(())
    }

    /// Point the contract at another liquidity pool. Authorization as in
    /// `set_reputation_contract`.
    pub fn set_liquidity_pool(&mut self, admin: u64, address: u64) -> (r: Result<
        (),
        CreditLineError,
    >)
        requires
            old(self).wf(),
            old(self)@.admin is Some,
        ensures
            final(self).wf(),
            final(self)@ == old(self)@.step_set_liquidity_pool(admin, address).0,
            r == old(self)@.step_set_liquidity_pool(admin, address).1,
    {
        let stored = self.admin.unwrap();
        if stored != admin {
            return Err(CreditLineError::NotAdmin);
        }
        self.liquidity_pool = Some(address);
        proof {
            assert(self@ =~= old(self)@.step_set_liquidity_pool(admin, address).0);
        }
        Ok(())
    }
}

/// Law: admin transfer is exclusive. After the admin moves from
/// `old_admin` to a different `new_admin`, any admin-gated call by
/// `old_admin` fails with `NotAdmin` and changes nothing.
pub proof fn lemma_admin_transfer_exclusive(
    s: CreditState,
    old_admin: u64,
    new_admin: u64,
    address: u64,
)
    requires
        s.admin == Some(old_admin),
        new_admin != old_admin,
    ensures
        ({
            let t = s.step_set_admin(new_admin);
            &&& t.step_set_reputation_contract(old_admin, address) == (
                t,
                Err::<(), CreditLineError>(CreditLineError::NotAdmin),
            )
            &&& t.step_set_merchant_registry(old_admin, address) == (
                t,
                Err::<(), CreditLineError>(CreditLineError::NotAdmin),
            )
            &&& t.step_set_liquidity_pool(old_admin, address) == (
                t,
                Err::<(), CreditLineError>(CreditLineError::NotAdmin),
            )
        }),
{
}

/// Law: loan ids are assigned strictly increasing, starting at 1 on a
/// fresh contract, and an id is never reused: two successful `create_loan`
/// calls in a row hand out the counter's next two values.
pub proof fn lemma_loan_ids_strictly_increase(
    s: CreditState,
    user1: u64,
    merchant1: u64,
    total1: i128,
    guarantee1: i128,
    schedule1: Seq<RepaymentInstallment>,
    score1: u32,
    now1: u64,
    user2: u64,
    merchant2: u64,
    total2: i128,
    guarantee2: i128,
    schedule2: Seq<RepaymentInstallment>,
    score2: u32,
    now2: u64,
)
    requires
        s.loan_counter + 2 <= u64::MAX,
        s.step_create_loan(user1, merchant1, total1, guarantee1, schedule1, score1, now1).1 is Ok,
    ensures
        ({
            let first = s.step_create_loan(
                user1,
                merchant1,
                total1,
                guarantee1,
                schedule1,
                score1,
                now1,
            );
            let second = first.0.step_create_loan(
                user2,
                merchant2,
                total2,
                guarantee2,
                schedule2,
                score2,
                now2,
            );
            &&& first.1->Ok_0.0 == s.loan_counter + 1
            &&& first.0.loan_counter == first.1->Ok_0.0
            &&& s.loan_counter == 0 ==> first.1->Ok_0.0 == 1
            &&& s.inv() ==> !s.loans.contains_key(first.1->Ok_0.0)
            &&& s.inv() ==> first.0.inv()
            &&& second.1 is Ok ==> second.1->Ok_0.0 == s.loan_counter + 2
                > first.1->Ok_0.0
        }),
{
    let first = s.step_create_loan(user1, merchant1, total1, guarantee1, schedule1, score1, now1);
    if s.inv() {
        let id = first.1->Ok_0.0;
        assert forall|j: u64| #[trigger] first.0.loans.contains_key(j) implies 1 <= j
            <= first.0.loan_counter && first.0.loans[j].loan_id == j by {
            if j != id {
                assert(s.loans.contains_key(j));
            }
        }
    }
}

} // verus!
