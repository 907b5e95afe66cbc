use token_ledger::{
    exec, get_uaddr, query, AllowanceResponse, BalanceResponse, ContractError, ExecuteMsg, Ledger,
    MintAuthority, Moment, QueryMsg, TokenInfoResponse,
};

fn assert_err(res: Result<(), ContractError>, expected_err: ContractError) {
    assert!(res.is_err_and(|err| err == expected_err));
}

fn load_prefix() -> (Ledger, Moment) {
    let minter = get_uaddr("minter");
    let max_supply = 1_000_000u128;
    let ledger = Ledger::instantiate(
        Some(MintAuthority { minter, cap: Some(max_supply) }),
        &vec![],
    )
    .unwrap();
    let now = Moment { height: 12_345, time: 1_571_797_419_879_305_533 };
    (ledger, now)
}

#[test]
fn should_mint_token() {
    let (mut ledger, now) = load_prefix();
    let minter = get_uaddr("minter");
    let recipient = get_uaddr("recipient");
    let mint_amount = 100_000u128;

    let res = exec(
        &mut ledger,
        &minter,
        &now,
        &(ExecuteMsg::Mint { recipient: recipient.clone(), amount: mint_amount }),
    );

    assert!(res.is_ok());

    // Check recipient balance
    let recipient_balance: BalanceResponse =
        query(&ledger, &now, &(QueryMsg::Balance { address: recipient.clone() }))
            .balance()
            .unwrap();

    assert_eq!(recipient_balance.balance, mint_amount);

    // Check total supply
    let token_info: TokenInfoResponse =
        query(&ledger, &now, &(QueryMsg::TokenInfo {})).token_info().unwrap();
    assert_eq!(token_info.total_supply, mint_amount);
}

#[test]
fn cant_mint_without_ownership() {
    let (mut ledger, now) = load_prefix();
    let fake_minter = get_uaddr("fake_minter");
    let recipient = get_uaddr("recipient");

    let res = exec(
        &mut ledger,
        &fake_minter,
        &now,
        &(ExecuteMsg::Mint { recipient: recipient.clone(), amount: 1000000u128 }),
    );

    assert_err(res, ContractError::Unauthorized {});
}

#[test]
fn cant_mint_exeeds_max_supply() {
    let (mut ledger, now) = load_prefix();
    let minter = get_uaddr("minter");
    let recipient = get_uaddr("recipient");

    let res = exec(
        &mut ledger,
        &minter,
        &now,
        &(ExecuteMsg::Mint { recipient: recipient.clone(), amount: 1000000000000000001u128 }),
    );

    assert_err(res, ContractError::CannotExceedCap {});
}

#[test]
fn should_burn_token() {
    let (mut ledger, now) = load_prefix();
    let minter = get_uaddr("minter");
    let recipient = get_uaddr("recipient");
    let burn_amount = 100_000u128;

    let res = exec(
        &mut ledger,
        &minter,
        &now,
        &(ExecuteMsg::Mint { recipient: recipient.clone(), amount: 1_000_000u128 }),
    );

    assert!(res.is_ok());

    let total_supply_before_burn: TokenInfoResponse =
        query(&ledger, &now, &(QueryMsg::TokenInfo {})).token_info().unwrap();

    let res = exec(&mut ledger, &recipient, &now, &(ExecuteMsg::Burn { amount: burn_amount }));

    assert!(res.is_ok());

    // Check recipient balance
    let recipient_balance: BalanceResponse =
        query(&ledger, &now, &(QueryMsg::Balance { address: recipient.clone() }))
            .balance()
            .unwrap();

    assert_eq!(recipient_balance.balance, total_supply_before_burn.total_supply - burn_amount);

    // Check total supply
    let token_info: TokenInfoResponse =
        query(&ledger, &now, &(QueryMsg::TokenInfo {})).token_info().unwrap();
    assert_eq!(token_info.total_supply, total_supply_before_burn.total_supply - burn_amount);
}

#[test]
fn should_burn_from_token() {
    let (mut ledger, now) = load_prefix();
    let minter = get_uaddr("minter");
    let recipient = get_uaddr("recipient");
    let burner = get_uaddr("burner");
    let burn_amount = 100_000u128;

    let res = exec(
        &mut ledger,
        &minter,
        &now,
        &(ExecuteMsg::Mint { recipient: recipient.clone(), amount: 1_000_000u128 }),
    );

    assert!(res.is_ok());

    let total_supply_before_burn: TokenInfoResponse =
        query(&ledger, &now, &(QueryMsg::TokenInfo {})).token_info().unwrap();

    // Approve burner
    exec(
        &mut ledger,
        &recipient,
        &now,
        &(ExecuteMsg::IncreaseAllowance {
            spender: burner.clone(),
            amount: burn_amount,
            expires: None,
        }),
    )
    .unwrap();

    // Burn from
    exec(
        &mut ledger,
        &burner,
        &now,
        &(ExecuteMsg::BurnFrom { owner: recipient.clone(), amount: burn_amount }),
    )
    .unwrap();

    assert!(res.is_ok());

    // Check recipient balance
    let recipient_balance: BalanceResponse =
        query(&ledger, &now, &(QueryMsg::Balance { address: recipient.clone() }))
            .balance()
            .unwrap();

    assert_eq!(recipient_balance.balance, total_supply_before_burn.total_supply - burn_amount);

    // Check total supply
    let token_info: TokenInfoResponse =
        query(&ledger, &now, &(QueryMsg::TokenInfo {})).token_info().unwrap();
    assert_eq!(token_info.total_supply, total_supply_before_burn.total_supply - burn_amount);
}

#[test]
fn cant_burn_from_exceeds_allowance() {
    let (mut ledger, now) = load_prefix();
    let minter = get_uaddr("minter");
    let recipient = get_uaddr("recipient");
    let burner = get_uaddr("burner");
    let burn_amount = 100_000u128;
    let allowance = 50_000u128;

    let res = exec(
        &mut ledger,
        &minter,
        &now,
        &(ExecuteMsg::Mint { recipient: recipient.clone(), amount: 1_000_000u128 }),
    );

    assert!(res.is_ok());

    // Approve burner
    exec(
        &mut ledger,
        &recipient,
        &now,
        &(ExecuteMsg::IncreaseAllowance { spender: burner.clone(), amount: allowance, expires: None }),
    )
    .unwrap();

    // Burn from
    let res = exec(
        &mut ledger,
        &burner,
        &now,
        &(ExecuteMsg::BurnFrom { owner: recipient.clone(), amount: burn_amount }),
    );

    assert!(res.is_err())
}

#[test]
fn should_transfer_tokens() {
    let (mut ledger, now) = load_prefix();
    let minter = get_uaddr("minter");
    let recipient = get_uaddr("recipient");
    let transfer_amount = 100_000u128;

    exec(
        &mut ledger,
        &minter,
        &now,
        &(ExecuteMsg::Mint { recipient: minter.clone(), amount: 1_000_000u128 }),
    )
    .unwrap();

    let total_supply_before_transfer: TokenInfoResponse =
        query(&ledger, &now, &(QueryMsg::TokenInfo {})).token_info().unwrap();

    // Transfer
    exec(
        &mut ledger,
        &minter,
        &now,
        &(ExecuteMsg::Transfer { recipient: recipient.clone(), amount: transfer_amount }),
    )
    .unwrap();

    // Check recipient balance
    let recipient_balance: BalanceResponse =
        query(&ledger, &now, &(QueryMsg::Balance { address: recipient.clone() }))
            .balance()
            .unwrap();

    assert_eq!(recipient_balance.balance, transfer_amount);

    // Check total supply
    let token_info: TokenInfoResponse =
        query(&ledger, &now, &(QueryMsg::TokenInfo {})).token_info().unwrap();
    assert_eq!(token_info.total_supply, total_supply_before_transfer.total_supply);
}

#[test]
fn cant_transfer_exceeds_balance() {
    let (mut ledger, now) = load_prefix();
    let minter = get_uaddr("minter");
    let recipient = get_uaddr("recipient");
    let transfer_amount = 100_000u128;

    exec(
        &mut ledger,
        &minter,
        &now,
        &(ExecuteMsg::Mint { recipient: minter.clone(), amount: 1_000u128 }),
    )
    .unwrap();

    // Transfer
    let res = exec(
        &mut ledger,
        &minter,
        &now,
        &(ExecuteMsg::Transfer { recipient: recipient.clone(), amount: transfer_amount }),
    );

    assert!(res.is_err())
}

#[test]
fn should_approve_token() {
    let (mut ledger, now) = load_prefix();
    let minter = get_uaddr("minter");
    let spender = get_uaddr("spender");
    let allowance = 100_000u128;

    exec(
        &mut ledger,
        &minter,
        &now,
        &(ExecuteMsg::Mint { recipient: minter.clone(), amount: 1_000_000u128 }),
    )
    .unwrap();

    // Approve
    exec(
        &mut ledger,
        &minter,
        &now,
        &(ExecuteMsg::IncreaseAllowance { spender: spender.clone(), amount: allowance, expires: None }),
    )
    .unwrap();

    // Check allowance
    let allowance_response: AllowanceResponse = query(
        &ledger,
        &now,
        &(QueryMsg::Allowance { owner: minter.clone(), spender: spender.clone() }),
    )
    .allowance()
    .unwrap();

    assert_eq!(allowance_response.allowance, allowance);
}

#[test]
fn should_increase_allowance() {
    let (mut ledger, now) = load_prefix();
    let minter = get_uaddr("minter");
    let spender = get_uaddr("spender");
    let allowance = 100_000u128;
    let increase_amount = 50_000u128;

    exec(
        &mut ledger,
        &minter,
        &now,
        &(ExecuteMsg::Mint { recipient: minter.clone(), amount: 1_000_000u128 }),
    )
    .unwrap();

    // Approve
    exec(
        &mut ledger,
        &minter,
        &now,
        &(ExecuteMsg::IncreaseAllowance { spender: spender.clone(), amount: allowance, expires: None }),
    )
    .unwrap();

    // Increase allowance
    exec(
        &mut ledger,
        &minter,
        &now,
        &(ExecuteMsg::IncreaseAllowance {
            spender: spender.clone(),
            amount: increase_amount,
            expires: None,
        }),
    )
    .unwrap();

    // Check allowance
    let allowance_response: AllowanceResponse = query(
        &ledger,
        &now,
        &(QueryMsg::Allowance { owner: minter.clone(), spender: spender.clone() }),
    )
    .allowance()
    .unwrap();

    assert_eq!(allowance_response.allowance, allowance + increase_amount);
}

#[test]
fn should_decrease_allowance() {
    let (mut ledger, now) = load_prefix();
    let minter = get_uaddr("minter");
    let spender = get_uaddr("spender");
    let allowance = 100_000u128;
    let decrease_amount = 50_000u128;

    exec(
        &mut ledger,
        &minter,
        &now,
        &(ExecuteMsg::Mint { recipient: minter.clone(), amount: 1_000_000u128 }),
    )
    .unwrap();

    // Approve
    exec(
        &mut ledger,
        &minter,
        &now,
        &(ExecuteMsg::IncreaseAllowance { spender: spender.clone(), amount: allowance, expires: None }),
    )
    .unwrap();

    // Decrease allowance
    exec(
        &mut ledger,
        &minter,
        &now,
        &(ExecuteMsg::DecreaseAllowance {
            spender: spender.clone(),
            amount: decrease_amount,
            expires: None,
        }),
    )
    .unwrap();

    // Check allowance
    let allowance_response: AllowanceResponse = query(
        &ledger,
        &now,
        &(QueryMsg::Allowance { owner: minter.clone(), spender: spender.clone() }),
    )
    .allowance()
    .unwrap();

    assert_eq!(allowance_response.allowance, allowance - decrease_amount);
}

#[test]
fn cant_decrease_allowance_below_zero() {
    let (mut ledger, now) = load_prefix();
    let minter = get_uaddr("minter");
    let spender = get_uaddr("spender");
    let allowance = 100_000u128;
    let decrease_amount = 150_000u128;

    exec(
        &mut ledger,
        &minter,
        &now,
        &(ExecuteMsg::Mint { recipient: minter.clone(), amount: 1_000_000u128 }),
    )
    .unwrap();

    // Approve
    exec(
        &mut ledger,
        &minter,
        &now,
        &(ExecuteMsg::IncreaseAllowance { spender: spender.clone(), amount: allowance, expires: None }),
    )
    .unwrap();

    // Decrease allowance
    exec(
        &mut ledger,
        &minter,
        &now,
        &(ExecuteMsg::DecreaseAllowance {
            spender: spender.clone(),
            amount: decrease_amount,
            expires: None,
        }),
    )
    .unwrap();

    // Check allowance
    let allowance_response: AllowanceResponse = query(
        &ledger,
        &now,
        &(QueryMsg::Allowance { owner: minter.clone(), spender: spender.clone() }),
    )
    .allowance()
    .unwrap();

    assert_eq!(allowance_response.allowance, 0u128);
}

#[test]
fn should_transfer_from() {
    let (mut ledger, now) = load_prefix();
    let minter = get_uaddr("minter");
    let spender = get_uaddr("spender");
    let recipient = get_uaddr("recipient");
    let allowance = 100_000u128;
    let transfer_amount = 50_000u128;

    exec(
        &mut ledger,
        &minter,
        &now,
        &(ExecuteMsg::Mint { recipient: minter.clone(), amount: 1_000_000u128 }),
    )
    .unwrap();

    // Approve
    exec(
        &mut ledger,
        &minter,
        &now,
        &(ExecuteMsg::IncreaseAllowance { spender: spender.clone(), amount: allowance, expires: None }),
    )
    .unwrap();

    // Transfer from
    exec(
        &mut ledger,
        &spender,
        &now,
        &(ExecuteMsg::TransferFrom {
            owner: minter.clone(),
            recipient: recipient.clone(),
            amount: transfer_amount,
        }),
    )
    .unwrap();

    // Check recipient balance
    let recipient_balance: BalanceResponse =
        query(&ledger, &now, &(QueryMsg::Balance { address: recipient.clone() }))
            .balance()
            .unwrap();

    assert_eq!(recipient_balance.balance, transfer_amount);

    // Check allowance
    let allowance_response: AllowanceResponse = query(
        &ledger,
        &now,
        &(QueryMsg::Allowance { owner: minter.clone(), spender: spender.clone() }),
    )
    .allowance()
    .unwrap();

    assert_eq!(allowance_response.allowance, allowance - transfer_amount);
}

#[test]
fn cant_transfer_from_exceeds_allowance() {
    let (mut ledger, now) = load_prefix();
    let minter = get_uaddr("minter");
    let spender = get_uaddr("spender");
    let recipient = get_uaddr("recipient");
    let allowance = 100_000u128;
    let transfer_amount = 150_000u128;

    exec(
        &mut ledger,
        &minter,
        &now,
        &(ExecuteMsg::Mint { recipient: minter.clone(), amount: 1_000_000u128 }),
    )
    .unwrap();

    // Approve
    exec(
        &mut ledger,
        &minter,
        &now,
        &(ExecuteMsg::IncreaseAllowance { spender: spender.clone(), amount: allowance, expires: None }),
    )
    .unwrap();

    // Transfer from
    let res = exec(
        &mut ledger,
        &spender,
        &now,
        &(ExecuteMsg::TransferFrom {
            owner: minter.clone(),
            recipient: recipient.clone(),
            amount: transfer_amount,
        }),
    );

    assert!(res.is_err())
}
