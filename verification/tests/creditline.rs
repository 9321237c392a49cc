use credit_contracts::creditline::{
    CreditLineContract, CreditLineError, LoanStatus, RepaymentInstallment,
};

#[test]
fn test_initialize() {
    let mut contract = CreditLineContract::new();

    let admin: u64 = 1;
    let reputation_contract: u64 = 100;
    let merchant_registry: u64 = 101;
    let liquidity_pool: u64 = 102;

    contract.initialize(admin, reputation_contract, merchant_registry, liquidity_pool);

    assert_eq!(contract.get_admin(), admin);
}

#[test]
fn test_get_version() {
    let version = CreditLineContract::get_version();
    assert_eq!(version, "v1_0_0");
}

#[test]
fn test_get_loan_not_found() {
    let mut contract = CreditLineContract::new();

    let admin: u64 = 1;
    contract.initialize(admin, 100, 101, 102);

    // Reading a loan that does not exist fails with LoanNotFound (#6)
    let r = contract.get_loan(999);
    assert!(matches!(r, Err(CreditLineError::LoanNotFound)));
    assert_eq!(r.unwrap_err().code(), 6);
}

#[test]
fn test_set_admin() {
    let mut contract = CreditLineContract::new();

    let admin: u64 = 1;
    let new_admin: u64 = 2;
    contract.initialize(admin, 100, 101, 102);

    assert_eq!(contract.get_admin(), admin);

    // Change admin
    contract.set_admin(new_admin);

    assert_eq!(contract.get_admin(), new_admin);
}

#[test]
fn test_set_reputation_contract() {
    let mut contract = CreditLineContract::new();

    let admin: u64 = 1;
    let reputation_contract: u64 = 100;
    let new_reputation_contract: u64 = 200;
    contract.initialize(admin, reputation_contract, 101, 102);

    // Update reputation contract address
    let r = contract.set_reputation_contract(admin, new_reputation_contract);
    assert!(r.is_ok());
}

#[test]
fn test_set_merchant_registry() {
    let mut contract = CreditLineContract::new();

    let admin: u64 = 1;
    let merchant_registry: u64 = 101;
    let new_merchant_registry: u64 = 201;
    contract.initialize(admin, 100, merchant_registry, 102);

    // Update merchant registry address
    let r = contract.set_merchant_registry(admin, new_merchant_registry);
    assert!(r.is_ok());
}

#[test]
fn test_set_liquidity_pool() {
    let mut contract = CreditLineContract::new();

    let admin: u64 = 1;
    let liquidity_pool: u64 = 102;
    let new_liquidity_pool: u64 = 202;
    contract.initialize(admin, 100, 101, liquidity_pool);

    // Update liquidity pool address
    let r = contract.set_liquidity_pool(admin, new_liquidity_pool);
    assert!(r.is_ok());
}

#[test]
fn test_create_loan_with_zero_total_amount() {
    let mut contract = CreditLineContract::new();
    contract.initialize(1, 100, 101, 102);

    let user: u64 = 7;
    let merchant: u64 = 8;
    let repayment_schedule: Vec<RepaymentInstallment> = Vec::new();

    // Fails with InvalidAmount (error code 9)
    let r = contract.create_loan(user, merchant, 0, 0, repayment_schedule, 80, 0);
    assert!(matches!(r, Err(CreditLineError::InvalidAmount)));
    assert_eq!(r.unwrap_err().code(), 9);
}

#[test]
fn test_create_loan_with_negative_total_amount() {
    let mut contract = CreditLineContract::new();
    contract.initialize(1, 100, 101, 102);

    let user: u64 = 7;
    let merchant: u64 = 8;
    let repayment_schedule: Vec<RepaymentInstallment> = Vec::new();

    // Fails with InvalidAmount (error code 9)
    let r = contract.create_loan(user, merchant, -1000, -200, repayment_schedule, 80, 0);
    assert!(matches!(r, Err(CreditLineError::InvalidAmount)));
}

#[test]
fn test_create_loan_with_zero_guarantee_amount() {
    let mut contract = CreditLineContract::new();
    contract.initialize(1, 100, 101, 102);

    let user: u64 = 7;
    let merchant: u64 = 8;
    let repayment_schedule: Vec<RepaymentInstallment> = Vec::new();

    // Fails with InvalidAmount (error code 9)
    let r = contract.create_loan(user, merchant, 1000, 0, repayment_schedule, 80, 0);
    assert!(matches!(r, Err(CreditLineError::InvalidAmount)));
}

#[test]
fn test_create_loan_with_insufficient_guarantee_19_percent() {
    let mut contract = CreditLineContract::new();
    contract.initialize(1, 100, 101, 102);

    let user: u64 = 7;
    let merchant: u64 = 8;
    let repayment_schedule: Vec<RepaymentInstallment> = Vec::new();

    // 190 is 19% of 1000: fails with InsufficientGuarantee (error code 2)
    let r = contract.create_loan(user, merchant, 1000, 190, repayment_schedule, 80, 0);
    assert!(matches!(r, Err(CreditLineError::InsufficientGuarantee)));
    assert_eq!(r.unwrap_err().code(), 2);
}

#[test]
fn test_create_loan_with_insufficient_guarantee_10_percent() {
    let mut contract = CreditLineContract::new();
    contract.initialize(1, 100, 101, 102);

    let user: u64 = 7;
    let merchant: u64 = 8;
    let repayment_schedule: Vec<RepaymentInstallment> = Vec::new();

    // 100 is 10% of 1000: fails with InsufficientGuarantee (error code 2)
    let r = contract.create_loan(user, merchant, 1000, 100, repayment_schedule, 80, 0);
    assert!(matches!(r, Err(CreditLineError::InsufficientGuarantee)));
}

#[test]
fn test_create_loan_with_one_less_than_minimum_guarantee() {
    let mut contract = CreditLineContract::new();
    contract.initialize(1, 100, 101, 102);

    let user: u64 = 7;
    let merchant: u64 = 8;
    let repayment_schedule: Vec<RepaymentInstallment> = Vec::new();

    // 199 is one under 20% of 1000: fails with InsufficientGuarantee (#2)
    let r = contract.create_loan(user, merchant, 1000, 199, repayment_schedule, 80, 0);
    assert!(matches!(r, Err(CreditLineError::InsufficientGuarantee)));
}

#[test]
fn test_create_loan_with_positive_total_negative_guarantee() {
    let mut contract = CreditLineContract::new();
    contract.initialize(1, 100, 101, 102);

    let user: u64 = 7;
    let merchant: u64 = 8;
    let repayment_schedule: Vec<RepaymentInstallment> = Vec::new();

    // A positive total with a negative guarantee fails with InvalidAmount (#9)
    let r = contract.create_loan(user, merchant, 1000, -200, repayment_schedule, 80, 0);
    assert!(matches!(r, Err(CreditLineError::InvalidAmount)));
}

#[test]
fn test_loan_counter_increments() {
    let mut contract = CreditLineContract::new();

    let admin: u64 = 1;
    contract.initialize(admin, 100, 101, 102);

    // A fresh contract starts with an untouched counter; ids are handed
    // out from 1 as loans are created
    assert_eq!(contract.get_loan_counter(), 0);
}

#[test]
fn test_multiple_contract_address_updates() {
    let mut contract = CreditLineContract::new();

    let admin: u64 = 1;
    let reputation_contract_1: u64 = 100;
    let reputation_contract_2: u64 = 200;
    let reputation_contract_3: u64 = 300;

    contract.initialize(admin, reputation_contract_1, 101, 102);

    // Update the reputation contract address multiple times
    let r1 = contract.set_reputation_contract(admin, reputation_contract_2);
    assert!(r1.is_ok());
    let r2 = contract.set_reputation_contract(admin, reputation_contract_3);
    assert!(r2.is_ok());
}

#[test]
fn test_guarantee_boundary() {
    let mut contract = CreditLineContract::new();
    contract.initialize(1, 100, 101, 102);

    // total = 1000, guarantee = 200 (exactly 20%) succeeds
    let schedule: Vec<RepaymentInstallment> = Vec::new();
    let r_ok = contract.create_loan(7, 8, 1000, 200, schedule, 80, 0);
    assert!(r_ok.is_ok());

    // guarantee = 199 fails InsufficientGuarantee
    let schedule: Vec<RepaymentInstallment> = Vec::new();
    let r_low = contract.create_loan(7, 8, 1000, 199, schedule, 80, 0);
    assert!(matches!(r_low, Err(CreditLineError::InsufficientGuarantee)));

    // guarantee = 0 fails InvalidAmount
    let schedule: Vec<RepaymentInstallment> = Vec::new();
    let r_zero = contract.create_loan(7, 8, 1000, 0, schedule, 80, 0);
    assert!(matches!(r_zero, Err(CreditLineError::InvalidAmount)));
}

#[test]
fn test_create_loan_insufficient_reputation() {
    let mut contract = CreditLineContract::new();
    contract.initialize(1, 100, 101, 102);

    // A score of 49 is under the threshold of 50: InsufficientReputation (#4)
    let schedule: Vec<RepaymentInstallment> = Vec::new();
    let r = contract.create_loan(7, 8, 1000, 200, schedule, 49, 0);
    assert!(matches!(r, Err(CreditLineError::InsufficientReputation)));
    assert_eq!(r.unwrap_err().code(), 4);

    // A score of exactly 50 passes the reputation check
    let schedule: Vec<RepaymentInstallment> = Vec::new();
    let r = contract.create_loan(7, 8, 1000, 200, schedule, 50, 0);
    assert!(r.is_ok());
}

#[test]
fn test_create_loan_overflow() {
    let mut contract = CreditLineContract::new();
    contract.initialize(1, 100, 101, 102);

    // A total whose 20% computation would overflow fails with Overflow (#10)
    let too_large: i128 = i128::MAX / 20 + 1;
    let schedule: Vec<RepaymentInstallment> = Vec::new();
    let r = contract.create_loan(7, 8, too_large, too_large, schedule, 80, 0);
    assert!(matches!(r, Err(CreditLineError::Overflow)));
    assert_eq!(r.unwrap_err().code(), 10);

    // The largest total that still computes succeeds when fully guaranteed
    let largest: i128 = i128::MAX / 20;
    let schedule: Vec<RepaymentInstallment> = Vec::new();
    let r = contract.create_loan(7, 8, largest, largest, schedule, 80, 0);
    assert!(r.is_ok());
}

#[test]
fn test_create_loan_underflow_with_pool_configured() {
    let mut contract = CreditLineContract::new();
    contract.initialize(1, 100, 101, 102);

    // With a liquidity pool configured, a guarantee above the total makes
    // the pool's share negative: Underflow (#11). The guarantee check
    // itself passes, since 150 covers 20% of 100.
    let schedule: Vec<RepaymentInstallment> = Vec::new();
    let r = contract.create_loan(7, 8, 100, 150, schedule, 80, 0);
    assert!(matches!(r, Err(CreditLineError::Underflow)));
    assert_eq!(r.unwrap_err().code(), 11);
    assert_eq!(contract.get_loan_counter(), 0);

    // A guarantee equal to the total leaves the pool's share at zero,
    // which passes
    let schedule: Vec<RepaymentInstallment> = Vec::new();
    let r = contract.create_loan(7, 8, 100, 100, schedule, 80, 0);
    assert!(r.is_ok());
}

#[test]
fn test_create_loan_record_and_event() {
    let mut contract = CreditLineContract::new();
    contract.initialize(1, 100, 101, 102);

    let user: u64 = 7;
    let merchant: u64 = 8;
    let schedule = vec![
        RepaymentInstallment { due_date: 1111, amount: 600 },
        RepaymentInstallment { due_date: 2222, amount: 400 },
    ];

    let (loan_id, ev) = contract
        .create_loan(user, merchant, 1000, 250, schedule.clone(), 80, 777)
        .unwrap();
    assert_eq!(loan_id, 1);

    // The event carries the full repayment schedule
    assert_eq!(ev.user, user);
    assert_eq!(ev.merchant, merchant);
    assert_eq!(ev.loan_id, 1);
    assert_eq!(ev.total_amount, 1000);
    assert_eq!(ev.guarantee_amount, 250);
    assert_eq!(ev.repayment_schedule, schedule);

    // The stored record is Active with its balance equal to the total
    let loan = contract.get_loan(1).unwrap();
    assert_eq!(loan.loan_id, 1);
    assert_eq!(loan.borrower, user);
    assert_eq!(loan.merchant, merchant);
    assert_eq!(loan.total_amount, 1000);
    assert_eq!(loan.guarantee_amount, 250);
    assert_eq!(loan.remaining_balance, 1000);
    assert_eq!(loan.repayment_schedule, schedule);
    assert_eq!(loan.status, LoanStatus::Active);
    assert_eq!(loan.created_at, 777);
}

#[test]
fn test_loan_ids_strictly_increase() {
    let mut contract = CreditLineContract::new();
    contract.initialize(1, 100, 101, 102);

    // Ids start at 1 and grow by one per successful creation; a failed
    // creation does not consume an id
    let schedule: Vec<RepaymentInstallment> = Vec::new();
    let (id1, _) = contract.create_loan(7, 8, 1000, 200, schedule, 80, 0).unwrap();
    assert_eq!(id1, 1);

    let schedule: Vec<RepaymentInstallment> = Vec::new();
    let failed = contract.create_loan(7, 8, 1000, 10, schedule, 80, 0);
    assert!(failed.is_err());

    let schedule: Vec<RepaymentInstallment> = Vec::new();
    let (id2, _) = contract.create_loan(9, 8, 500, 100, schedule, 80, 5).unwrap();
    assert_eq!(id2, 2);
    assert!(id2 > id1);

    // Both records remain readable under their own ids
    assert_eq!(contract.get_loan(1).unwrap().total_amount, 1000);
    assert_eq!(contract.get_loan(2).unwrap().total_amount, 500);
}

#[test]
fn test_old_admin_cannot_update_addresses() {
    let mut contract = CreditLineContract::new();

    let admin1: u64 = 1;
    let admin2: u64 = 2;
    contract.initialize(admin1, 100, 101, 102);

    // Transfer admin, then the old admin fails NotAdmin (#1) on every
    // admin-gated setter
    contract.set_admin(admin2);

    let r1 = contract.set_reputation_contract(admin1, 200);
    assert!(matches!(r1, Err(CreditLineError::NotAdmin)));
    assert_eq!(r1.unwrap_err().code(), 1);
    let r2 = contract.set_merchant_registry(admin1, 201);
    assert!(matches!(r2, Err(CreditLineError::NotAdmin)));
    let r3 = contract.set_liquidity_pool(admin1, 202);
    assert!(matches!(r3, Err(CreditLineError::NotAdmin)));

    // The new admin succeeds
    assert!(contract.set_reputation_contract(admin2, 200).is_ok());
}

#[test]
fn test_creditline_error_codes() {
    assert_eq!(CreditLineError::NotAdmin.code(), 1);
    assert_eq!(CreditLineError::InsufficientGuarantee.code(), 2);
    assert_eq!(CreditLineError::MerchantNotActive.code(), 3);
    assert_eq!(CreditLineError::InsufficientReputation.code(), 4);
    assert_eq!(CreditLineError::InsufficientLiquidity.code(), 5);
    assert_eq!(CreditLineError::LoanNotFound.code(), 6);
    assert_eq!(CreditLineError::LoanNotActive.code(), 7);
    assert_eq!(CreditLineError::NotBorrower.code(), 8);
    assert_eq!(CreditLineError::InvalidAmount.code(), 9);
    assert_eq!(CreditLineError::Overflow.code(), 10);
    assert_eq!(CreditLineError::Underflow.code(), 11);
}
