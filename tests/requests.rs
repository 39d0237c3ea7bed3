use vigil::{Address, Context, Error, Request, Response, RevelationSet, Vigil, ADDRESS_SIZE};

fn make_address(num: u8) -> Address {
    Address::from_bytes(vec![num; ADDRESS_SIZE].as_slice()).unwrap()
}

const BLOCK_TIMESTAMP: u64 = 100_000;

fn make_context(caller: Address) -> Context {
    Context::new(caller, BLOCK_TIMESTAMP)
}

#[test]
fn firstparty_requests() {
    let owner = make_address(0);
    let mut ctx = make_context(owner);

    Vigil::instantiate(&mut ctx, Request::Instantiate).unwrap();

    let secret_name = "test secret";
    let secret_value = "secret value";
    let revelation_set = RevelationSet::Entities(vec![make_address(1), make_address(2)]);
    let revelation_timestamp = BLOCK_TIMESTAMP + 1;

    let other_secret_name = "other test secret";
    let other_revelation_set = RevelationSet::Anyone;

    let create_secret_request = Request::CreateSecret {
        name: secret_name.into(),
        value: secret_value.into(),
        revelation_set: revelation_set.clone(),
        revelation_timestamp,
    };
    Vigil::call(&mut ctx, create_secret_request.clone()).unwrap();
    assert_eq!(
        Vigil::call(&mut ctx, create_secret_request.clone()),
        Err(Error::SecretAlreadyExists)
    );

    Vigil::call(
        &mut ctx,
        Request::CreateSecret {
            name: other_secret_name.into(),
            value: secret_value.into(),
            revelation_set: other_revelation_set.clone(),
            revelation_timestamp,
        },
    )
    .unwrap();

    assert_eq!(
        Vigil::call(
            &mut ctx,
            Request::GetRevelationSet {
                name: secret_name.into(),
            },
        )
        .unwrap(),
        Response::RevelationSet(revelation_set)
    );

    assert_eq!(
        Vigil::call(
            &mut ctx,
            Request::GetRevelationTimestamp {
                owner,
                name: secret_name.into(),
            },
        )
        .unwrap(),
        Response::RevelationTimestamp(revelation_timestamp)
    );

    let secret_value_request = Request::GetSecretValue {
        owner,
        name: secret_name.into(),
    };
    let secret_val = Vigil::call(&mut ctx, secret_value_request.clone()).unwrap();
    assert_eq!(secret_val, Response::SecretValue(secret_value.into()));

    let delete_secret_request = Request::DeleteSecret {
        name: secret_name.into(),
    };
    Vigil::call(&mut ctx, delete_secret_request.clone()).unwrap();
    Vigil::call(&mut ctx, delete_secret_request).unwrap();

    assert_eq!(
        Vigil::call(&mut ctx, secret_value_request),
        Err(Error::SecretDoesntExist)
    );

    assert_eq!(
        Vigil::call(
            &mut ctx,
            Request::GetRevelationSet {
                name: other_secret_name.into(),
            },
        )
        .unwrap(),
        Response::RevelationSet(other_revelation_set)
    );

    Vigil::call(&mut ctx, create_secret_request).unwrap();
}

#[test]
fn secondparty_requests() {
    let owner = make_address(0);
    let mut ctx = make_context(owner);

    Vigil::instantiate(&mut ctx, Request::Instantiate).unwrap();

    let beneficiary = make_address(1);

    let secret_name = "test secret";
    let secret_value = "secret value";
    let initial_revelation_timestamp = BLOCK_TIMESTAMP + 1;
    let updated_revelation_timestamp = BLOCK_TIMESTAMP - 1;

    Vigil::call(
        &mut ctx,
        Request::CreateSecret {
            name: secret_name.into(),
            value: secret_value.into(),
            revelation_set: RevelationSet::Entities(vec![beneficiary]),
            revelation_timestamp: initial_revelation_timestamp,
        },
    )
    .unwrap();

    ctx.caller_address = beneficiary;

    assert_eq!(
        Vigil::call(
            &mut ctx,
            Request::GetSecretValue {
                owner,
                name: secret_name.into(),
            },
        ),
        Err(Error::PermissionDenied)
    );

    assert_eq!(
        Vigil::call(
            &mut ctx,
            Request::GetRevelationTimestamp {
                owner,
                name: secret_name.into(),
            },
        ),
        Ok(Response::RevelationTimestamp(initial_revelation_timestamp))
    );

    ctx.caller_address = owner;
    Vigil::call(
        &mut ctx,
        Request::ResetRevelationTimestamp {
            name: secret_name.into(),
            revelation_timestamp: updated_revelation_timestamp,
        },
    )
    .unwrap();

    ctx.caller_address = beneficiary;
    assert_eq!(
        Vigil::call(
            &mut ctx,
            Request::GetSecretValue {
                owner,
                name: secret_name.into(),
            },
        )
        .unwrap(),
        Response::SecretValue(secret_value.into())
    );
}

#[test]
fn thirdparty_requests() {
    let owner = make_address(0);
    let mut ctx = make_context(owner);

    Vigil::instantiate(&mut ctx, Request::Instantiate).unwrap();

    let secret_name = "test secret";

    Vigil::call(
        &mut ctx,
        Request::CreateSecret {
            name: secret_name.into(),
            value: "secret value".into(),
            revelation_set: RevelationSet::Entities(vec![]),
            revelation_timestamp: BLOCK_TIMESTAMP - 1,
        },
    )
    .unwrap();

    let thirdparty = make_address(3);
    ctx.caller_address = thirdparty;

    assert_eq!(
        Vigil::call(
            &mut ctx,
            Request::GetRevelationTimestamp {
                owner,
                name: secret_name.into(),
            },
        ),
        Err(Error::PermissionDenied)
    );

    assert_eq!(
        Vigil::call(
            &mut ctx,
            Request::GetRevelationSet {
                name: secret_name.into(),
            },
        ),
        Err(Error::SecretDoesntExist)
    );

    assert_eq!(
        Vigil::call(
            &mut ctx,
            Request::GetSecretValue {
                owner,
                name: secret_name.into(),
            },
        ),
        Err(Error::SecretDoesntExist)
    );

    assert_eq!(
        Vigil::call(
            &mut ctx,
            Request::GetSecretValue {
                owner: thirdparty,
                name: secret_name.into(),
            },
        ),
        Err(Error::SecretDoesntExist)
    );
}
