use crowdfunding::campaign::{deadline_after, RETENTION_THRESHOLD, RETENTION_WINDOW, SECONDS_PER_DAY};
use crowdfunding::{Campaign, LedgerError};

const ALICE: &str = "GA7QYNF7SOWQ3GLR2BGMZEHXAVIRZA4KVWLTJJFC7MGXUA74P7UJVSGZ";
const BOB: &str = "GCEZWKCA5VLDNRLN3RPRJMRZOX3Z6G5CHCGSNFHEYVXM3XOJMDS674JZ";
const T: u64 = 1_700_000_000;

fn launched(last_id: u64, duration_days: u64) -> Campaign {
    Campaign::launch(
        true,
        last_id,
        ALICE.to_string(),
        "Build a dApp".to_string(),
        "Funding for blockchain project".to_string(),
        1000,
        duration_days,
        T,
    )
    .unwrap()
}

#[test]
fn deadline_is_days_times_seconds_after_now() {
    assert_eq!(SECONDS_PER_DAY, 86_400);
    assert_eq!(deadline_after(0, 0), Some(0));
    assert_eq!(deadline_after(T, 0), Some(T));
    assert_eq!(deadline_after(T, 1), Some(T + 86_400));
    assert_eq!(deadline_after(T, 30), Some(1_702_592_000));
    assert_eq!(deadline_after(5, 7), Some(604_805));
    assert_eq!(deadline_after(u64::MAX, 0), Some(u64::MAX));
    assert_eq!(deadline_after(u64::MAX, 1), None);
    assert_eq!(deadline_after(0, u64::MAX / 86_400), Some(u64::MAX / 86_400 * 86_400));
    assert_eq!(deadline_after(0, u64::MAX / 86_400 + 1), None);
    assert_eq!(deadline_after(u64::MAX % 86_400 + 1, u64::MAX / 86_400), None);
    assert_eq!(deadline_after(u64::MAX % 86_400, u64::MAX / 86_400), Some(u64::MAX));
    assert_eq!(deadline_after(0, u64::MAX), None);
}

#[test]
fn retention_is_refreshed_to_five_thousand_below_five_thousand() {
    assert_eq!(RETENTION_THRESHOLD, 5000);
    assert_eq!(RETENTION_WINDOW, 5000);
}

#[test]
fn launch_builds_the_record_after_the_last_identifier() {
    let first = launched(0, 30);
    assert_eq!(
        first,
        Campaign {
            campaign_id: 1,
            creator: ALICE.to_string(),
            title: "Build a dApp".to_string(),
            description: "Funding for blockchain project".to_string(),
            goal_amount: 1000,
            raised_amount: 0,
            deadline: T + 2_592_000,
            is_active: true,
        }
    );
    let later = launched(41, 0);
    assert_eq!(later.campaign_id, 42);
    assert_eq!(later.deadline, T);
    assert!(!later.is_sentinel());
}

#[test]
fn launch_refuses_in_order() {
    let launch = |proven: bool, last_id: u64, days: u64, now: u64| {
        Campaign::launch(proven, last_id, ALICE.to_string(), "t".to_string(), "d".to_string(), 1, days, now)
    };
    assert_eq!(launch(false, 0, 1, T), Err(LedgerError::AuthorizationFailure));
    assert_eq!(launch(false, u64::MAX, u64::MAX, T), Err(LedgerError::AuthorizationFailure));
    assert_eq!(launch(true, u64::MAX, 1, T), Err(LedgerError::IdentifierOverflow));
    assert_eq!(launch(true, 0, u64::MAX, T), Err(LedgerError::DeadlineOverflow));
    assert_eq!(launch(true, 0, 1, u64::MAX), Err(LedgerError::DeadlineOverflow));
    assert!(launch(true, 0, 1, T).is_ok());
}

#[test]
fn sentinel_record_has_identifier_zero() {
    let sentinel = Campaign::not_found();
    assert_eq!(sentinel.campaign_id, 0);
    assert_eq!(sentinel.creator, "GAAAAAAAAAAAAAAAAAAAAAAAAAAAAAAAAAAAAAAAAAAAAAAAAAAAAWHF");
    assert_eq!(sentinel.title, "Not_Found");
    assert_eq!(sentinel.description, "Not_Found");
    assert_eq!(sentinel.goal_amount, 0);
    assert_eq!(sentinel.raised_amount, 0);
    assert_eq!(sentinel.deadline, 0);
    assert!(!sentinel.is_active);
    assert!(sentinel.is_sentinel());
}

#[test]
fn sentinel_record_takes_no_call() {
    let mut sentinel = Campaign::not_found();
    assert_eq!(sentinel.contribute(true, 5, 0), Err(LedgerError::CampaignNotFound));
    assert_eq!(sentinel.close(true, &ALICE.to_string(), T), Err(LedgerError::CampaignNotFound));
    let placeholder = sentinel.creator.clone();
    assert_eq!(sentinel.close(true, &placeholder, 0), Err(LedgerError::CampaignNotFound));
    assert_eq!(sentinel.contribute(false, 5, 0), Err(LedgerError::AuthorizationFailure));
    assert_eq!(sentinel, Campaign::not_found());
}

#[test]
fn record_adds_up_contributions() {
    let mut record = launched(0, 30);
    assert_eq!(record.contribute(true, 400, T), Ok(()));
    assert_eq!(record.raised_amount, 400);
    assert_eq!(record.contribute(true, 700, T + 2_592_000), Ok(()));
    assert_eq!(record.raised_amount, 1100);
    assert_eq!(record.contribute(true, 1, T + 2_592_001), Err(LedgerError::CampaignExpired));
    assert_eq!(record.contribute(false, 1, T), Err(LedgerError::AuthorizationFailure));
    assert_eq!(record.contribute(true, u64::MAX - 1099, T), Err(LedgerError::AmountOverflow));
    assert_eq!(record.raised_amount, 1100);
    assert_eq!(record.contribute(true, u64::MAX - 1100, T), Ok(()));
    assert_eq!(record.raised_amount, u64::MAX);
    assert!(record.is_active);
}

#[test]
fn record_closes_for_creator_or_after_deadline() {
    let deadline = T + 86_400;

    let mut record = launched(0, 1);
    assert_eq!(record.close(true, &BOB.to_string(), deadline), Err(LedgerError::Unauthorized));
    assert_eq!(record.close(false, &ALICE.to_string(), deadline), Err(LedgerError::AuthorizationFailure));
    assert!(record.is_active);
    assert_eq!(record.close(true, &ALICE.to_string(), 0), Ok(()));
    assert!(!record.is_active);
    assert_eq!(record.contribute(true, 1, T), Err(LedgerError::CampaignInactive));

    let mut record = launched(0, 1);
    assert_eq!(record.close(true, &BOB.to_string(), deadline + 1), Ok(()));
    assert!(!record.is_active);
    assert_eq!(record.close(true, &BOB.to_string(), deadline + 1), Ok(()));
    assert!(!record.is_active);
    assert_eq!(record.raised_amount, 0);
    assert_eq!(record.creator, ALICE);
}

#[test]
fn copy_equals_the_record() {
    let mut record = launched(6, 3);
    assert_eq!(record.contribute(true, 9, T), Ok(()));
    let copy = record.clone();
    assert_eq!(copy, record);
    assert_eq!(copy.campaign_id, 7);
    assert_eq!(copy.raised_amount, 9);
    assert_eq!(copy.title, "Build a dApp");
}
