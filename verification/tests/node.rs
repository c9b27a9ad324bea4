use stargate::access_path::AccountAddress;
use stargate::ledger::{HashValue, SignedTransactionWithProof};
use stargate::node::{
    ChannelBalanceRequest, ChannelBalanceResponse, ConnectRequest, ConnectResponse,
    ConversionError, DeployModuleRequest, DeployModuleResponse, DepositRequest, DepositResponse,
    ExecuteScriptRequest, ExecuteScriptResponse, InstallChannelScriptPackageRequest,
    InstallChannelScriptPackageResponse, OpenChannelRequest, OpenChannelResponse, PayRequest,
    PayResponse, WithdrawRequest, WithdrawResponse,
};
use stargate::proto::star_types;
use stargate::script_package::ChannelScriptPackage;
use std::convert::TryFrom;

fn address() -> AccountAddress {
    AccountAddress::new([0xab; 32])
}

#[test]
fn test_compile() {
    println!("it work");
}

#[test]
fn requests_hold_what_they_were_made_with() {
    let open = OpenChannelRequest::new(address(), 1, 2);
    assert_eq!((open.remote_addr, open.local_amount, open.remote_amount), (address(), 1, 2));
    let pay = PayRequest::new(address(), 3);
    assert_eq!((pay.remote_addr, pay.amount), (address(), 3));
    let connect = ConnectRequest::new(address(), "10.0.0.1".to_string());
    assert_eq!(connect.remote_ip, "10.0.0.1");
    let deposit = DepositRequest::new(address(), 4, 5);
    assert_eq!((deposit.local_amount, deposit.remote_amount), (4, 5));
    let withdraw = WithdrawRequest::new(address(), 6, 7);
    assert_eq!((withdraw.local_amount, withdraw.remote_amount), (6, 7));
    assert_eq!(ChannelBalanceRequest::new(address()).remote_addr, address());
    assert_eq!(ChannelBalanceResponse::new(8).balance, 8);
    assert_eq!(DeployModuleRequest::new(vec![9]).module_bytes, vec![9]);
    let run = ExecuteScriptRequest::new(
        address(),
        "scripts".to_string(),
        "do_nothing".to_string(),
        vec![vec![1], vec![]],
    );
    assert_eq!(run.package_name, "scripts");
    assert_eq!(run.script_name, "do_nothing");
    assert_eq!(run.args, vec![vec![1u8], vec![]]);
    assert_eq!(ExecuteScriptResponse::new(HashValue::new([1; 32])).hash_value.to_vec(), vec![1; 32]);
}

#[test]
fn requests_come_back_from_the_transport_as_they_went() {
    let open = OpenChannelRequest::new(address(), 1, 2);
    assert_eq!(OpenChannelRequest::try_from(star_types::OpenChannelRequest::from(open.clone())), Ok(open));
    let pay = PayRequest::new(address(), 3);
    assert_eq!(PayRequest::try_from(star_types::PayRequest::from(pay.clone())), Ok(pay));
    let connect = ConnectRequest::new(address(), "10.0.0.1:80".to_string());
    assert_eq!(ConnectRequest::try_from(star_types::ConnectRequest::from(connect.clone())), Ok(connect));
    let deposit = DepositRequest::new(address(), 4, 5);
    assert_eq!(DepositRequest::try_from(star_types::DepositRequest::from(deposit.clone())), Ok(deposit));
    let withdraw = WithdrawRequest::new(address(), 6, 7);
    assert_eq!(WithdrawRequest::try_from(star_types::WithdrawRequest::from(withdraw.clone())), Ok(withdraw));
    let balance = ChannelBalanceRequest::new(address());
    assert_eq!(
        ChannelBalanceRequest::try_from(star_types::ChannelBalanceRequest::from(balance.clone())),
        Ok(balance)
    );
    let install = InstallChannelScriptPackageRequest::new(ChannelScriptPackage::new(vec![1, 2]));
    assert_eq!(
        InstallChannelScriptPackageRequest::try_from(
            star_types::InstallChannelScriptPackageRequest::from(install.clone())
        ),
        Ok(install)
    );
    let deploy = DeployModuleRequest::new(vec![3, 4]);
    assert_eq!(
        DeployModuleRequest::try_from(star_types::DeployModuleRequest::from(deploy.clone())),
        Ok(deploy)
    );
    let run = ExecuteScriptRequest::new(
        address(),
        "scripts".to_string(),
        "transfer".to_string(),
        vec![vec![1, 2, 3], vec![], vec![9]],
    );
    assert_eq!(
        ExecuteScriptRequest::try_from(star_types::ExecuteScriptRequest::from(run.clone())),
        Ok(run)
    );
}

#[test]
fn responses_come_back_from_the_transport_as_they_went() {
    assert_eq!(
        OpenChannelResponse::try_from(star_types::OpenChannelResponse::from(OpenChannelResponse::new())),
        Ok(OpenChannelResponse::new())
    );
    assert_eq!(
        PayResponse::try_from(star_types::PayResponse::from(PayResponse::new())),
        Ok(PayResponse::new())
    );
    assert_eq!(
        ConnectResponse::try_from(star_types::ConnectResponse::from(ConnectResponse::new())),
        Ok(ConnectResponse::new())
    );
    assert_eq!(
        DepositResponse::try_from(star_types::DepositResponse::from(DepositResponse::new())),
        Ok(DepositResponse::new())
    );
    assert_eq!(
        WithdrawResponse::try_from(star_types::WithdrawResponse::from(WithdrawResponse::new())),
        Ok(WithdrawResponse::new())
    );
    assert_eq!(
        InstallChannelScriptPackageResponse::try_from(
            star_types::InstallChannelScriptPackageResponse::from(
                InstallChannelScriptPackageResponse::new()
            )
        ),
        Ok(InstallChannelScriptPackageResponse::new())
    );
    let balance = ChannelBalanceResponse::new(77);
    assert_eq!(
        ChannelBalanceResponse::try_from(star_types::ChannelBalanceResponse::from(balance.clone())),
        Ok(balance)
    );
    let deployed = DeployModuleResponse::new(SignedTransactionWithProof::new(vec![5, 6, 7]));
    assert_eq!(
        DeployModuleResponse::try_from(star_types::DeployModuleResponse::from(deployed.clone())),
        Ok(deployed)
    );
    let ran = ExecuteScriptResponse::new(HashValue::new([9; 32]));
    assert_eq!(
        ExecuteScriptResponse::try_from(star_types::ExecuteScriptResponse::from(ran.clone())),
        Ok(ran)
    );
}

#[test]
fn the_transport_form_holds_plain_bytes() {
    let carried = star_types::OpenChannelRequest::from(OpenChannelRequest::new(address(), 1, 2));
    assert_eq!(
        carried,
        star_types::OpenChannelRequest { remote_addr: vec![0xab; 32], local_amount: 1, remote_amount: 2 }
    );
    let carried = star_types::ExecuteScriptResponse::from(ExecuteScriptResponse::new(HashValue::new([3; 32])));
    assert_eq!(carried.hash_value, vec![3u8; 32]);
    let carried = star_types::InstallChannelScriptPackageRequest::from(
        InstallChannelScriptPackageRequest::new(ChannelScriptPackage::new(vec![8])),
    );
    assert_eq!(
        carried.channel_script_package,
        Some(star_types::ChannelScriptPackage { bytes: vec![8] })
    );
}

#[test]
fn an_address_of_the_wrong_length_is_refused() {
    let short = vec![1u8; 31];
    assert_eq!(
        OpenChannelRequest::try_from(star_types::OpenChannelRequest {
            remote_addr: short.clone(),
            local_amount: 1,
            remote_amount: 2
        }),
        Err(ConversionError::InvalidAddress)
    );
    assert_eq!(
        PayRequest::try_from(star_types::PayRequest { remote_addr: short.clone(), amount: 1 }),
        Err(ConversionError::InvalidAddress)
    );
    assert_eq!(
        ConnectRequest::try_from(star_types::ConnectRequest {
            remote_addr: vec![],
            remote_ip: String::new()
        }),
        Err(ConversionError::InvalidAddress)
    );
    assert_eq!(
        DepositRequest::try_from(star_types::DepositRequest::default()),
        Err(ConversionError::InvalidAddress)
    );
    assert_eq!(
        WithdrawRequest::try_from(star_types::WithdrawRequest {
            remote_addr: vec![0; 33],
            local_amount: 0,
            remote_amount: 0
        }),
        Err(ConversionError::InvalidAddress)
    );
    assert_eq!(
        ChannelBalanceRequest::try_from(star_types::ChannelBalanceRequest { remote_addr: short.clone() }),
        Err(ConversionError::InvalidAddress)
    );
    assert_eq!(
        ExecuteScriptRequest::try_from(star_types::ExecuteScriptRequest {
            remote_addr: short,
            ..Default::default()
        }),
        Err(ConversionError::InvalidAddress)
    );
}

#[test]
fn a_missing_part_is_reported() {
    assert_eq!(
        InstallChannelScriptPackageRequest::try_from(
            star_types::InstallChannelScriptPackageRequest { channel_script_package: None }
        ),
        Err(ConversionError::MissingChannelScriptPackage)
    );
    assert_eq!(
        DeployModuleResponse::try_from(star_types::DeployModuleResponse {
            transaction_with_proof: None
        }),
        Err(ConversionError::MissingTransactionWithProof)
    );
    assert_eq!(
        ExecuteScriptResponse::try_from(star_types::ExecuteScriptResponse { hash_value: vec![1; 16] }),
        Err(ConversionError::InvalidHashValue)
    );
}
