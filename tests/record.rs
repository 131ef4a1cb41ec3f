use meraki_contract::record::{
    AccountKey, InvestmentContract, RecordError, ACTIVE_OFFSET, INVESTED_OFFSET, RECORD_LEN,
};

fn sample() -> InvestmentContract {
    let mut investor = [0u8; 32];
    let mut startup = [0u8; 32];
    for i in 0..32 {
        investor[i] = i as u8;
        startup[i] = 255 - i as u8;
    }
    InvestmentContract {
        investor: AccountKey { bytes: investor },
        startup: AccountKey { bytes: startup },
        principal_amount: 0x0102_0304_0506_0708,
        investor_return_percent: 20,
        duration_days: 365,
        start_time: -2,
        total_revenue: u64::MAX,
        total_distributed: 42,
        is_active: true,
        is_invested: false,
    }
}

#[test]
fn record_length_is_fixed() {
    assert_eq!(RECORD_LEN, 107);
    assert_eq!(InvestmentContract::LEN, 107);
    assert_eq!(sample().to_bytes().len(), RECORD_LEN);
}

#[test]
fn record_layout_is_little_endian_in_field_order() {
    let b = sample().to_bytes();
    assert_eq!(b[0], 0);
    assert_eq!(b[31], 31);
    assert_eq!(b[32], 255);
    assert_eq!(&b[64..72], &[8, 7, 6, 5, 4, 3, 2, 1]);
    assert_eq!(b[72], 20);
    assert_eq!(&b[73..81], &365u64.to_le_bytes());
    assert_eq!(&b[81..89], &[0xfe, 0xff, 0xff, 0xff, 0xff, 0xff, 0xff, 0xff]);
    assert_eq!(&b[89..97], &[0xff; 8]);
    assert_eq!(&b[97..105], &42u64.to_le_bytes());
    assert_eq!(b[105], 1);
    assert_eq!(b[106], 0);
}

#[test]
fn record_round_trips() {
    let c = sample();
    assert_eq!(InvestmentContract::from_bytes(&c.to_bytes()), Ok(c));
    let mut d = c;
    d.is_active = false;
    d.is_invested = true;
    d.start_time = i64::MIN;
    d.principal_amount = 0;
    assert_eq!(InvestmentContract::from_bytes(&d.to_bytes()), Ok(d));
}

#[test]
fn record_rejects_wrong_length() {
    let b = sample().to_bytes();
    assert_eq!(
        InvestmentContract::from_bytes(&b[..106]),
        Err(RecordError::WrongLength)
    );
    let mut longer = b.clone();
    longer.push(0);
    assert_eq!(
        InvestmentContract::from_bytes(&longer),
        Err(RecordError::WrongLength)
    );
    assert_eq!(InvestmentContract::from_bytes(&[]), Err(RecordError::WrongLength));
}

#[test]
fn record_rejects_invalid_flag_bytes() {
    let mut b = sample().to_bytes();
    b[ACTIVE_OFFSET] = 2;
    assert_eq!(InvestmentContract::from_bytes(&b), Err(RecordError::InvalidFlag));
    let mut b = sample().to_bytes();
    b[INVESTED_OFFSET] = 0xff;
    assert_eq!(InvestmentContract::from_bytes(&b), Err(RecordError::InvalidFlag));
}
