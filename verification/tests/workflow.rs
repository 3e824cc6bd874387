use ghonsi_proof::account::transfer;
use ghonsi_proof::account::Account;
use ghonsi_proof::certificate::Certificate;
use ghonsi_proof::certificate::ProofStatus;
use ghonsi_proof::errors::ProofError;
use ghonsi_proof::identity::Identity;
use ghonsi_proof::registry::AdminRegistry;
use ghonsi_proof::workflow::mint_proof;
use ghonsi_proof::workflow::reject_proof;
use ghonsi_proof::workflow::verify_proof;
use ghonsi_proof::workflow::MINT_FEE;

fn id(key: u64) -> Identity {
    Identity { key }
}

fn mint_with_fields(
    proof_id: &str,
    title: &str,
    uri: &str,
    work_description: &str,
    proof_type: &str,
    payer_balance: u64,
) -> (Result<Certificate, ProofError>, Account, Account) {
    let a = id(1);
    let owner = id(7);
    let reg = AdminRegistry::initialize(a);
    let mut payer = Account { id: owner, balance: payer_balance };
    let mut primary = Account { id: a, balance: 0 };
    let r = mint_proof(
        &reg,
        &mut payer,
        &mut primary,
        owner,
        id(9),
        proof_id.to_string(),
        title.to_string(),
        uri.to_string(),
        work_description.to_string(),
        proof_type.to_string(),
        1_700_000_000,
    );
    (r, payer, primary)
}

fn pending_certificate() -> (AdminRegistry, Certificate) {
    let a = id(1);
    let owner = id(7);
    let reg = AdminRegistry::initialize(a);
    let mut payer = Account { id: owner, balance: MINT_FEE };
    let mut primary = Account { id: a, balance: 0 };
    let cert = mint_proof(
        &reg,
        &mut payer,
        &mut primary,
        owner,
        id(9),
        "WRK-001".to_string(),
        "A title".to_string(),
        "https://certificates.example/wrk-001".to_string(),
        "Prototype of the widget".to_string(),
        "design".to_string(),
        1_700_000_000,
    )
    .expect("mint with valid fields succeeds");
    (reg, cert)
}

#[test]
fn transfer_moves_the_exact_amount() {
    let mut from = Account { id: id(7), balance: 250 };
    let mut to = Account { id: id(1), balance: 5 };
    assert_eq!(transfer(&mut from, &mut to, 200), Ok(()));
    assert_eq!(from.balance, 50);
    assert_eq!(to.balance, 205);
    assert_eq!(from.id, id(7));
    assert_eq!(to.id, id(1));
}

#[test]
fn transfer_rejects_insufficient_funds_and_moves_nothing() {
    let mut from = Account { id: id(7), balance: 199 };
    let mut to = Account { id: id(1), balance: 5 };
    assert_eq!(transfer(&mut from, &mut to, 200), Err(ProofError::InsufficientFunds));
    assert_eq!(from.balance, 199);
    assert_eq!(to.balance, 5);
}

#[test]
fn mint_creates_pending_certificate_and_charges_fee() {
    let a = id(1);
    let owner = id(7);
    let mint = id(9);
    let reg = AdminRegistry::initialize(a);
    let mut payer = Account { id: owner, balance: 3 * MINT_FEE };
    let mut primary = Account { id: a, balance: 0 };
    let cert = mint_proof(
        &reg,
        &mut payer,
        &mut primary,
        owner,
        mint,
        "WRK-001".to_string(),
        "A title".to_string(),
        "https://certificates.example/wrk-001".to_string(),
        "Prototype of the widget".to_string(),
        "design".to_string(),
        1_700_000_000,
    )
    .expect("mint with valid fields succeeds");
    assert_eq!(payer.balance, 2 * MINT_FEE);
    assert_eq!(primary.balance, MINT_FEE);
    assert_eq!(cert.owner, owner);
    assert_eq!(cert.mint, mint);
    assert_eq!(cert.proof_id, "WRK-001");
    assert_eq!(cert.title, "A title");
    assert_eq!(cert.uri, "https://certificates.example/wrk-001");
    assert_eq!(cert.work_description, "Prototype of the widget");
    assert_eq!(cert.proof_type, "design");
    assert_eq!(cert.status, ProofStatus::Pending);
    assert_eq!(cert.submission_date, 1_700_000_000);
    assert_eq!(cert.verification_date, 0);
    assert_eq!(cert.verified_by, None);
    assert_eq!(cert.rejection_reason, "");
}

#[test]
fn mint_accepts_every_field_at_its_maximum_length() {
    let (r, payer, primary) = mint_with_fields(
        &"i".repeat(32),
        &"t".repeat(64),
        &"u".repeat(200),
        &"d".repeat(500),
        &"p".repeat(32),
        MINT_FEE,
    );
    let cert = r.expect("fields at the maximum lengths are accepted");
    assert_eq!(cert.proof_id.len(), 32);
    assert_eq!(cert.title.len(), 64);
    assert_eq!(cert.uri.len(), 200);
    assert_eq!(cert.work_description.len(), 500);
    assert_eq!(cert.proof_type.len(), 32);
    assert_eq!(payer.balance, 0);
    assert_eq!(primary.balance, MINT_FEE);
}

#[test]
fn mint_rejects_proof_id_one_over_its_maximum() {
    let (r, payer, primary) = mint_with_fields(&"i".repeat(33), "t", "u", "d", "p", MINT_FEE);
    assert_eq!(r.err(), Some(ProofError::IdTooLong));
    assert_eq!(payer.balance, MINT_FEE);
    assert_eq!(primary.balance, 0);
}

#[test]
fn mint_rejects_title_one_over_its_maximum() {
    let (r, payer, primary) = mint_with_fields("i", &"t".repeat(65), "u", "d", "p", MINT_FEE);
    assert_eq!(r.err(), Some(ProofError::TitleTooLong));
    assert_eq!(payer.balance, MINT_FEE);
    assert_eq!(primary.balance, 0);
}

#[test]
fn mint_rejects_uri_one_over_its_maximum() {
    let (r, payer, primary) = mint_with_fields("i", "t", &"u".repeat(201), "d", "p", MINT_FEE);
    assert_eq!(r.err(), Some(ProofError::UriTooLong));
    assert_eq!(payer.balance, MINT_FEE);
    assert_eq!(primary.balance, 0);
}

#[test]
fn mint_rejects_description_one_over_its_maximum() {
    let (r, payer, primary) = mint_with_fields("i", "t", "u", &"d".repeat(501), "p", MINT_FEE);
    assert_eq!(r.err(), Some(ProofError::DescriptionTooLong));
    assert_eq!(payer.balance, MINT_FEE);
    assert_eq!(primary.balance, 0);
}

#[test]
fn mint_rejects_proof_type_one_over_its_maximum() {
    let (r, payer, primary) = mint_with_fields("i", "t", "u", "d", &"p".repeat(33), MINT_FEE);
    assert_eq!(r.err(), Some(ProofError::ProofTypeTooLong));
    assert_eq!(payer.balance, MINT_FEE);
    assert_eq!(primary.balance, 0);
}

#[test]
fn mint_reports_the_first_failing_field() {
    let (r, _, _) = mint_with_fields(&"i".repeat(33), &"t".repeat(65), "u", "d", "p", MINT_FEE);
    assert_eq!(r.err(), Some(ProofError::IdTooLong));
}

#[test]
fn mint_rejects_insufficient_funds_and_moves_nothing() {
    let (r, payer, primary) = mint_with_fields("i", "t", "u", "d", "p", MINT_FEE - 1);
    assert_eq!(r.err(), Some(ProofError::InsufficientFunds));
    assert_eq!(payer.balance, MINT_FEE - 1);
    assert_eq!(primary.balance, 0);
}

#[test]
fn verify_marks_a_pending_certificate() {
    let (reg, mut cert) = pending_certificate();
    let a = id(1);
    assert_eq!(verify_proof(&reg, &mut cert, a, 1_700_000_100), Ok(()));
    assert_eq!(cert.status, ProofStatus::Verified);
    assert_eq!(cert.verified_by, Some(a));
    assert_eq!(cert.verification_date, 1_700_000_100);
    assert!(cert.verification_date > 0);
    assert_eq!(cert.rejection_reason, "");
}

#[test]
fn verify_rejects_a_caller_that_is_no_admin() {
    let (reg, mut cert) = pending_certificate();
    assert_eq!(verify_proof(&reg, &mut cert, id(5), 1_700_000_100), Err(ProofError::Unauthorized));
    assert_eq!(cert.status, ProofStatus::Pending);
    assert_eq!(cert.verified_by, None);
    assert_eq!(cert.verification_date, 0);
}

#[test]
fn an_added_admin_may_verify() {
    let (mut reg, mut cert) = pending_certificate();
    let b = id(2);
    assert_eq!(reg.add_admin(id(1), b), Ok(()));
    assert_eq!(verify_proof(&reg, &mut cert, b, 1_700_000_100), Ok(()));
    assert_eq!(cert.verified_by, Some(b));
}

#[test]
fn reject_records_the_reason() {
    let (reg, mut cert) = pending_certificate();
    let a = id(1);
    assert_eq!(
        reject_proof(&reg, &mut cert, a, "not the claimed author".to_string(), 1_700_000_100),
        Ok(())
    );
    assert_eq!(cert.status, ProofStatus::Rejected);
    assert_eq!(cert.verified_by, Some(a));
    assert_eq!(cert.verification_date, 1_700_000_100);
    assert_eq!(cert.rejection_reason, "not the claimed author");
}

#[test]
fn reject_accepts_a_reason_at_its_maximum_length() {
    let (reg, mut cert) = pending_certificate();
    assert_eq!(reject_proof(&reg, &mut cert, id(1), "r".repeat(200), 1_700_000_100), Ok(()));
    assert_eq!(cert.rejection_reason.len(), 200);
}

#[test]
fn reject_rejects_a_reason_one_over_its_maximum() {
    let (reg, mut cert) = pending_certificate();
    assert_eq!(
        reject_proof(&reg, &mut cert, id(1), "r".repeat(201), 1_700_000_100),
        Err(ProofError::ReasonTooLong)
    );
    assert_eq!(cert.status, ProofStatus::Pending);
    assert_eq!(cert.rejection_reason, "");
}

#[test]
fn reject_rejects_a_caller_that_is_no_admin() {
    let (reg, mut cert) = pending_certificate();
    assert_eq!(
        reject_proof(&reg, &mut cert, id(5), "reason".to_string(), 1_700_000_100),
        Err(ProofError::Unauthorized)
    );
    assert_eq!(cert.status, ProofStatus::Pending);
}

#[test]
fn verify_wins_and_a_later_reject_fails() {
    let (reg, mut cert) = pending_certificate();
    let a = id(1);
    assert_eq!(verify_proof(&reg, &mut cert, a, 1_700_000_100), Ok(()));
    assert_eq!(
        reject_proof(&reg, &mut cert, a, "too late".to_string(), 1_700_000_200),
        Err(ProofError::ProofAlreadyProcessed)
    );
    assert_eq!(cert.status, ProofStatus::Verified);
    assert_eq!(cert.verified_by, Some(a));
    assert_eq!(cert.verification_date, 1_700_000_100);
    assert_eq!(cert.rejection_reason, "");
}

#[test]
fn reject_wins_and_a_later_verify_fails() {
    let (reg, mut cert) = pending_certificate();
    let a = id(1);
    assert_eq!(reject_proof(&reg, &mut cert, a, "duplicate claim".to_string(), 1_700_000_100), Ok(()));
    assert_eq!(
        verify_proof(&reg, &mut cert, a, 1_700_000_200),
        Err(ProofError::ProofAlreadyProcessed)
    );
    assert_eq!(cert.status, ProofStatus::Rejected);
    assert_eq!(cert.verified_by, Some(a));
    assert_eq!(cert.verification_date, 1_700_000_100);
    assert_eq!(cert.rejection_reason, "duplicate claim");
}

#[test]
fn repeated_verify_fails_and_keeps_the_first_record() {
    let (reg, mut cert) = pending_certificate();
    let a = id(1);
    assert_eq!(verify_proof(&reg, &mut cert, a, 1_700_000_100), Ok(()));
    assert_eq!(
        verify_proof(&reg, &mut cert, id(1), 1_700_000_300),
        Err(ProofError::ProofAlreadyProcessed)
    );
    assert_eq!(cert.verification_date, 1_700_000_100);
}

#[test]
fn mint_then_verify_scenario() {
    let a = id(1);
    let owner = id(7);
    let reg = AdminRegistry::initialize(a);
    let mut payer = Account { id: owner, balance: MINT_FEE };
    let mut primary = Account { id: a, balance: 42 };
    let mut cert = mint_proof(
        &reg,
        &mut payer,
        &mut primary,
        owner,
        id(9),
        "WRK-001".to_string(),
        "A title".to_string(),
        "https://certificates.example/wrk-001".to_string(),
        "Prototype of the widget".to_string(),
        "design".to_string(),
        1_700_000_000,
    )
    .expect("mint with valid fields succeeds");
    assert_eq!(primary.balance, 42 + MINT_FEE);
    assert_eq!(cert.proof_id, "WRK-001");
    assert_eq!(cert.status, ProofStatus::Pending);

    assert_eq!(verify_proof(&reg, &mut cert, a, 1_700_000_100), Ok(()));
    assert_eq!(cert.status, ProofStatus::Verified);
    assert_eq!(cert.verified_by, Some(a));
    assert!(cert.verification_date > 0);

    assert_eq!(
        reject_proof(&reg, &mut cert, a, "second thoughts".to_string(), 1_700_000_200),
        Err(ProofError::ProofAlreadyProcessed)
    );
    assert_eq!(cert.status, ProofStatus::Verified);
}
