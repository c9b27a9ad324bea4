//! The requests of the channel protocol and their responses, and how each
//! is taken from and put into the form in which the transport carries it.

use vstd::prelude::*;
use crate::access_path::{AccountAddress, ADDRESS_LENGTH};
use crate::ledger::{HashValue, SignedTransactionWithProof, HASH_LENGTH};
use crate::proto::star_types;
use crate::script_package::ChannelScriptPackage;

verus! {

/// Why a request or a response could not be taken from its transport form.
#[derive(Clone, Copy, Debug, PartialEq, Eq, Structural)]
pub enum ConversionError {
    /// An address is not 32 bytes long.
    InvalidAddress,
    /// A hash is not 32 bytes long.
    InvalidHashValue,
    /// The request to install a package carries no package.
    MissingChannelScriptPackage,
    /// The response to a deployment carries no transaction.
    MissingTransactionWithProof,
}

/// What a request to open a channel, to deposit into one or to withdraw
/// from one says: the counterparty, and the amounts on the two sides.
pub struct FundsModel {
    pub remote_addr: Seq<u8>,
    pub local_amount: u64,
    pub remote_amount: u64,
}

/// What a request to pay says: the counterparty and the amount.
pub struct PayModel {
    pub remote_addr: Seq<u8>,
    pub amount: u64,
}

/// What a request to connect says: the counterparty and where to reach it.
pub struct ConnectModel {
    pub remote_addr: Seq<u8>,
    pub remote_ip: Seq<char>,
}

/// What a request to run a script says: the counterparty, the script by
/// package and name, and its arguments, each encoded.
pub struct ExecuteScriptModel {
    pub remote_addr: Seq<u8>,
    pub package_name: Seq<char>,
    pub script_name: Seq<char>,
    pub args: Seq<Seq<u8>>,
}

/// The arguments `args`, each as its bytes.
pub open spec fn args_model(args: Seq<Vec<u8>>) -> Seq<Seq<u8>> {
    Seq::new(args.len(), |i: int| args[i]@)
}

/// A request to open a channel with a counterparty, each side putting in its amount.
#[derive(Clone, Debug, PartialEq, Eq)]
pub struct OpenChannelRequest {
    pub remote_addr: AccountAddress,
    pub local_amount: u64,
    pub remote_amount: u64,
}

impl View for OpenChannelRequest {
    type V = FundsModel;

    open spec fn view(&self) -> FundsModel {
        FundsModel {
            remote_addr: self.remote_addr@,
            local_amount: self.local_amount,
            remote_amount: self.remote_amount,
        }
    }
}

impl View for star_types::OpenChannelRequest {
    type V = FundsModel;

    open spec fn view(&self) -> FundsModel {
        FundsModel {
            remote_addr: self.remote_addr@,
            local_amount: self.local_amount,
            remote_amount: self.remote_amount,
        }
    }
}

impl OpenChannelRequest {
    pub fn new(remote_addr: AccountAddress, local_amount: u64, remote_amount: u64) -> (request:
        Self)
        ensures
            request@ == (FundsModel { remote_addr: remote_addr@, local_amount, remote_amount }),
    {
        Self { remote_addr, local_amount, remote_amount }
    }
}

impl TryFrom<star_types::OpenChannelRequest> for OpenChannelRequest {
    type Error = ConversionError;

    /// Fails where the address is not 32 bytes long.
    fn try_from(value: star_types::OpenChannelRequest) -> (request: Result<Self, ConversionError>)
        ensures
            value@.remote_addr.len() == ADDRESS_LENGTH ==> request is Ok && request->Ok_0@
                == value@,
            value@.remote_addr.len() != ADDRESS_LENGTH ==> request == Err::<
                Self,
                ConversionError,
            >(ConversionError::InvalidAddress),
    {
        match AccountAddress::from_bytes(&value.remote_addr) {
            Some(remote_addr) => Ok(
                Self {
                    remote_addr,
                    local_amount: value.local_amount,
                    remote_amount: value.remote_amount,
                },
            ),
            None => Err(ConversionError::InvalidAddress),
        }
    }
}

impl vstd::std_specs::convert::TryFromSpecImpl<star_types::OpenChannelRequest> for OpenChannelRequest {
    open spec fn obeys_try_from_spec() -> bool {
        false
    }

    open spec fn try_from_spec(value: star_types::OpenChannelRequest) -> Result<Self, ConversionError> {
        arbitrary()
    }
}

impl From<OpenChannelRequest> for star_types::OpenChannelRequest {
    fn from(value: OpenChannelRequest) -> (carried: Self)
        ensures
            carried@ == value@,
            carried@.remote_addr.len() == ADDRESS_LENGTH,
    {
        proof {
            value.remote_addr.lemma_length();
        }
        Self {
            remote_addr: value.remote_addr.to_vec(),
            local_amount: value.local_amount,
            remote_amount: value.remote_amount,
        }
    }
}

impl vstd::std_specs::convert::FromSpecImpl<OpenChannelRequest> for star_types::OpenChannelRequest {
    open spec fn obeys_from_spec() -> bool {
        false
    }

    open spec fn from_spec(value: OpenChannelRequest) -> Self {
        arbitrary()
    }
}

/// The response to a request to open a channel.
#[derive(Clone, Debug, PartialEq, Eq)]
pub struct OpenChannelResponse {}

impl OpenChannelResponse {
    pub fn new() -> (response: Self)
        ensures
            response == (OpenChannelResponse {  }),
    {
        OpenChannelResponse {  }
    }
}

impl TryFrom<star_types::OpenChannelResponse> for OpenChannelResponse {
    type Error = ConversionError;

    fn try_from(value: star_types::OpenChannelResponse) -> (response: Result<Self, ConversionError>)
        ensures
            response == Ok::<Self, ConversionError>(OpenChannelResponse {  }),
    {
        Ok(Self::new())
    }
}

impl vstd::std_specs::convert::TryFromSpecImpl<star_types::OpenChannelResponse> for OpenChannelResponse {
    open spec fn obeys_try_from_spec() -> bool {
        true
    }

    open spec fn try_from_spec(value: star_types::OpenChannelResponse) -> Result<Self, ConversionError> {
        Ok(OpenChannelResponse {  })
    }
}

impl From<OpenChannelResponse> for star_types::OpenChannelResponse {
    fn from(value: OpenChannelResponse) -> (carried: Self)
        ensures
            carried == (star_types::OpenChannelResponse {  }),
    {
        star_types::OpenChannelResponse {  }
    }
}

impl vstd::std_specs::convert::FromSpecImpl<OpenChannelResponse> for star_types::OpenChannelResponse {
    open spec fn obeys_from_spec() -> bool {
        true
    }

    open spec fn from_spec(value: OpenChannelResponse) -> Self {
        star_types::OpenChannelResponse {  }
    }
}

/// A request to pay an amount to a counterparty through the channel.
#[derive(Clone, Debug, PartialEq, Eq)]
pub struct PayRequest {
    pub remote_addr: AccountAddress,
    pub amount: u64,
}

impl View for PayRequest {
    type V = PayModel;

    open spec fn view(&self) -> PayModel {
        PayModel { remote_addr: self.remote_addr@, amount: self.amount }
    }
}

impl View for star_types::PayRequest {
    type V = PayModel;

    open spec fn view(&self) -> PayModel {
        PayModel { remote_addr: self.remote_addr@, amount: self.amount }
    }
}

impl PayRequest {
    pub fn new(remote_addr: AccountAddress, amount: u64) -> (request: Self)
        ensures
            request@ == (PayModel { remote_addr: remote_addr@, amount }),
    {
        PayRequest { remote_addr, amount }
    }
}

impl TryFrom<star_types::PayRequest> for PayRequest {
    type Error = ConversionError;

    /// Fails where the address is not 32 bytes long.
    fn try_from(value: star_types::PayRequest) -> (request: Result<Self, ConversionError>)
        ensures
            value@.remote_addr.len() == ADDRESS_LENGTH ==> request is Ok && request->Ok_0@
                == value@,
            value@.remote_addr.len() != ADDRESS_LENGTH ==> request == Err::<
                Self,
                ConversionError,
            >(ConversionError::InvalidAddress),
    {
        match AccountAddress::from_bytes(&value.remote_addr) {
            Some(remote_addr) => Ok(Self { remote_addr, amount: value.amount }),
            None => Err(ConversionError::InvalidAddress),
        }
    }
}

impl vstd::std_specs::convert::TryFromSpecImpl<star_types::PayRequest> for PayRequest {
    open spec fn obeys_try_from_spec() -> bool {
        false
    }

    open spec fn try_from_spec(value: star_types::PayRequest) -> Result<Self, ConversionError> {
        arbitrary()
    }
}

impl From<PayRequest> for star_types::PayRequest {
    fn from(value: PayRequest) -> (carried: Self)
        ensures
            carried@ == value@,
            carried@.remote_addr.len() == ADDRESS_LENGTH,
    {
        proof {
            value.remote_addr.lemma_length();
        }
        Self { remote_addr: value.remote_addr.to_vec(), amount: value.amount }
    }
}

impl vstd::std_specs::convert::FromSpecImpl<PayRequest> for star_types::PayRequest {
    open spec fn obeys_from_spec() -> bool {
        false
    }

    open spec fn from_spec(value: PayRequest) -> Self {
        arbitrary()
    }
}

/// The response to a request to pay.
#[derive(Clone, Debug, PartialEq, Eq)]
pub struct PayResponse {}

impl PayResponse {
    pub fn new() -> (response: Self)
        ensures
            response == (PayResponse {  }),
    {
        PayResponse {  }
    }
}

impl TryFrom<star_types::PayResponse> for PayResponse {
    type Error = ConversionError;

    fn try_from(value: star_types::PayResponse) -> (response: Result<Self, ConversionError>)
        ensures
            response == Ok::<Self, ConversionError>(PayResponse {  }),
    {
        Ok(Self::new())
    }
}

impl vstd::std_specs::convert::TryFromSpecImpl<star_types::PayResponse> for PayResponse {
    open spec fn obeys_try_from_spec() -> bool {
        true
    }

    open spec fn try_from_spec(value: star_types::PayResponse) -> Result<Self, ConversionError> {
        Ok(PayResponse {  })
    }
}

impl From<PayResponse> for star_types::PayResponse {
    fn from(value: PayResponse) -> (carried: Self)
        ensures
            carried == (star_types::PayResponse {  }),
    {
        star_types::PayResponse {  }
    }
}

impl vstd::std_specs::convert::FromSpecImpl<PayResponse> for star_types::PayResponse {
    open spec fn obeys_from_spec() -> bool {
        true
    }

    open spec fn from_spec(value: PayResponse) -> Self {
        star_types::PayResponse {  }
    }
}

/// A request to connect to a counterparty at a network address.
#[derive(Clone, Debug, PartialEq, Eq)]
pub struct ConnectRequest {
    pub remote_addr: AccountAddress,
    pub remote_ip: String,
}

impl View for ConnectRequest {
    type V = ConnectModel;

    open spec fn view(&self) -> ConnectModel {
        ConnectModel { remote_addr: self.remote_addr@, remote_ip: self.remote_ip@ }
    }
}

impl View for star_types::ConnectRequest {
    type V = ConnectModel;

    open spec fn view(&self) -> ConnectModel {
        ConnectModel { remote_addr: self.remote_addr@, remote_ip: self.remote_ip@ }
    }
}

impl ConnectRequest {
    pub fn new(remote_addr: AccountAddress, remote_ip: String) -> (request: Self)
        ensures
            request@ == (ConnectModel { remote_addr: remote_addr@, remote_ip: remote_ip@ }),
    {
        Self { remote_addr, remote_ip }
    }
}

impl TryFrom<star_types::ConnectRequest> for ConnectRequest {
    type Error = ConversionError;

    /// Fails where the address is not 32 bytes long.
    fn try_from(value: star_types::ConnectRequest) -> (request: Result<Self, ConversionError>)
        ensures
            value@.remote_addr.len() == ADDRESS_LENGTH ==> request is Ok && request->Ok_0@
                == value@,
            value@.remote_addr.len() != ADDRESS_LENGTH ==> request == Err::<
                Self,
                ConversionError,
            >(ConversionError::InvalidAddress),
    {
        match AccountAddress::from_bytes(&value.remote_addr) {
            Some(remote_addr) => Ok(Self { remote_addr, remote_ip: value.remote_ip }),
            None => Err(ConversionError::InvalidAddress),
        }
    }
}

impl vstd::std_specs::convert::TryFromSpecImpl<star_types::ConnectRequest> for ConnectRequest {
    open spec fn obeys_try_from_spec() -> bool {
        false
    }

    open spec fn try_from_spec(value: star_types::ConnectRequest) -> Result<
        Self,
        ConversionError,
    > {
        arbitrary()
    }
}

impl From<ConnectRequest> for star_types::ConnectRequest {
    fn from(value: ConnectRequest) -> (carried: Self)
        ensures
            carried@ == value@,
            carried@.remote_addr.len() == ADDRESS_LENGTH,
    {
        proof {
            value.remote_addr.lemma_length();
        }
        Self { remote_addr: value.remote_addr.to_vec(), remote_ip: value.remote_ip }
    }
}

impl vstd::std_specs::convert::FromSpecImpl<ConnectRequest> for star_types::ConnectRequest {
    open spec fn obeys_from_spec() -> bool {
        false
    }

    open spec fn from_spec(value: ConnectRequest) -> Self {
        arbitrary()
    }
}

/// The response to a request to connect.
#[derive(Clone, Debug, PartialEq, Eq)]
pub struct ConnectResponse {}

impl ConnectResponse {
    pub fn new() -> (response: Self)
        ensures
            response == (ConnectResponse {  }),
    {
        ConnectResponse {  }
    }
}

impl TryFrom<star_types::ConnectResponse> for ConnectResponse {
    type Error = ConversionError;

    fn try_from(value: star_types::ConnectResponse) -> (response: Result<Self, ConversionError>)
        ensures
            response == Ok::<Self, ConversionError>(ConnectResponse {  }),
    {
        Ok(Self::new())
    }
}

impl vstd::std_specs::convert::TryFromSpecImpl<star_types::ConnectResponse> for ConnectResponse {
    open spec fn obeys_try_from_spec() -> bool {
        true
    }

    open spec fn try_from_spec(value: star_types::ConnectResponse) -> Result<Self, ConversionError> {
        Ok(ConnectResponse {  })
    }
}

impl From<ConnectResponse> for star_types::ConnectResponse {
    fn from(value: ConnectResponse) -> (carried: Self)
        ensures
            carried == (star_types::ConnectResponse {  }),
    {
        star_types::ConnectResponse {  }
    }
}

impl vstd::std_specs::convert::FromSpecImpl<ConnectResponse> for star_types::ConnectResponse {
    open spec fn obeys_from_spec() -> bool {
        true
    }

    open spec fn from_spec(value: ConnectResponse) -> Self {
        star_types::ConnectResponse {  }
    }
}

/// A request to deposit into the channel with a counterparty, each side its amount.
#[derive(Clone, Debug, PartialEq, Eq)]
pub struct DepositRequest {
    pub remote_addr: AccountAddress,
    pub local_amount: u64,
    pub remote_amount: u64,
}

impl View for DepositRequest {
    type V = FundsModel;

    open spec fn view(&self) -> FundsModel {
        FundsModel {
            remote_addr: self.remote_addr@,
            local_amount: self.local_amount,
            remote_amount: self.remote_amount,
        }
    }
}

impl View for star_types::DepositRequest {
    type V = FundsModel;

    open spec fn view(&self) -> FundsModel {
        FundsModel {
            remote_addr: self.remote_addr@,
            local_amount: self.local_amount,
            remote_amount: self.remote_amount,
        }
    }
}

impl DepositRequest {
    pub fn new(remote_addr: AccountAddress, local_amount: u64, remote_amount: u64) -> (request:
        Self)
        ensures
            request@ == (FundsModel { remote_addr: remote_addr@, local_amount, remote_amount }),
    {
        Self { remote_addr, local_amount, remote_amount }
    }
}

impl TryFrom<star_types::DepositRequest> for DepositRequest {
    type Error = ConversionError;

    /// Fails where the address is not 32 bytes long.
    fn try_from(value: star_types::DepositRequest) -> (request: Result<Self, ConversionError>)
        ensures
            value@.remote_addr.len() == ADDRESS_LENGTH ==> request is Ok && request->Ok_0@
                == value@,
            value@.remote_addr.len() != ADDRESS_LENGTH ==> request == Err::<
                Self,
                ConversionError,
            >(ConversionError::InvalidAddress),
    {
        match AccountAddress::from_bytes(&value.remote_addr) {
            Some(remote_addr) => Ok(
                Self {
                    remote_addr,
                    local_amount: value.local_amount,
                    remote_amount: value.remote_amount,
                },
            ),
            None => Err(ConversionError::InvalidAddress),
        }
    }
}

impl vstd::std_specs::convert::TryFromSpecImpl<star_types::DepositRequest> for DepositRequest {
    open spec fn obeys_try_from_spec() -> bool {
        false
    }

    open spec fn try_from_spec(value: star_types::DepositRequest) -> Result<Self, ConversionError> {
        arbitrary()
    }
}

impl From<DepositRequest> for star_types::DepositRequest {
    fn from(value: DepositRequest) -> (carried: Self)
        ensures
            carried@ == value@,
            carried@.remote_addr.len() == ADDRESS_LENGTH,
    {
        proof {
            value.remote_addr.lemma_length();
        }
        Self {
            remote_addr: value.remote_addr.to_vec(),
            local_amount: value.local_amount,
            remote_amount: value.remote_amount,
        }
    }
}

impl vstd::std_specs::convert::FromSpecImpl<DepositRequest> for star_types::DepositRequest {
    open spec fn obeys_from_spec() -> bool {
        false
    }

    open spec fn from_spec(value: DepositRequest) -> Self {
        arbitrary()
    }
}

/// The response to a request to deposit.
#[derive(Clone, Debug, PartialEq, Eq)]
pub struct DepositResponse {}

impl DepositResponse {
    pub fn new() -> (response: Self)
        ensures
            response == (DepositResponse {  }),
    {
        DepositResponse {  }
    }
}

impl TryFrom<star_types::DepositResponse> for DepositResponse {
    type Error = ConversionError;

    fn try_from(value: star_types::DepositResponse) -> (response: Result<Self, ConversionError>)
        ensures
            response == Ok::<Self, ConversionError>(DepositResponse {  }),
    {
        Ok(Self::new())
    }
}

impl vstd::std_specs::convert::TryFromSpecImpl<star_types::DepositResponse> for DepositResponse {
    open spec fn obeys_try_from_spec() -> bool {
        true
    }

    open spec fn try_from_spec(value: star_types::DepositResponse) -> Result<Self, ConversionError> {
        Ok(DepositResponse {  })
    }
}

impl From<DepositResponse> for star_types::DepositResponse {
    fn from(value: DepositResponse) -> (carried: Self)
        ensures
            carried == (star_types::DepositResponse {  }),
    {
        star_types::DepositResponse {  }
    }
}

impl vstd::std_specs::convert::FromSpecImpl<DepositResponse> for star_types::DepositResponse {
    open spec fn obeys_from_spec() -> bool {
        true
    }

    open spec fn from_spec(value: DepositResponse) -> Self {
        star_types::DepositResponse {  }
    }
}

/// A request to withdraw from the channel with a counterparty, each side its amount.
#[derive(Clone, Debug, PartialEq, Eq)]
pub struct WithdrawRequest {
    pub remote_addr: AccountAddress,
    pub local_amount: u64,
    pub remote_amount: u64,
}

impl View for WithdrawRequest {
    type V = FundsModel;

    open spec fn view(&self) -> FundsModel {
        FundsModel {
            remote_addr: self.remote_addr@,
            local_amount: self.local_amount,
            remote_amount: self.remote_amount,
        }
    }
}

impl View for star_types::WithdrawRequest {
    type V = FundsModel;

    open spec fn view(&self) -> FundsModel {
        FundsModel {
            remote_addr: self.remote_addr@,
            local_amount: self.local_amount,
            remote_amount: self.remote_amount,
        }
    }
}

impl WithdrawRequest {
    pub fn new(remote_addr: AccountAddress, local_amount: u64, remote_amount: u64) -> (request:
        Self)
        ensures
            request@ == (FundsModel { remote_addr: remote_addr@, local_amount, remote_amount }),
    {
        Self { remote_addr, local_amount, remote_amount }
    }
}

impl TryFrom<star_types::WithdrawRequest> for WithdrawRequest {
    type Error = ConversionError;

    /// Fails where the address is not 32 bytes long.
    fn try_from(value: star_types::WithdrawRequest) -> (request: Result<Self, ConversionError>)
        ensures
            value@.remote_addr.len() == ADDRESS_LENGTH ==> request is Ok && request->Ok_0@
                == value@,
            value@.remote_addr.len() != ADDRESS_LENGTH ==> request == Err::<
                Self,
                ConversionError,
            >(ConversionError::InvalidAddress),
    {
        match AccountAddress::from_bytes(&value.remote_addr) {
            Some(remote_addr) => Ok(
                Self {
                    remote_addr,
                    local_amount: value.local_amount,
                    remote_amount: value.remote_amount,
                },
            ),
            None => Err(ConversionError::InvalidAddress),
        }
    }
}

impl vstd::std_specs::convert::TryFromSpecImpl<star_types::WithdrawRequest> for WithdrawRequest {
    open spec fn obeys_try_from_spec() -> bool {
        false
    }

    open spec fn try_from_spec(value: star_types::WithdrawRequest) -> Result<Self, ConversionError> {
        arbitrary()
    }
}

impl From<WithdrawRequest> for star_types::WithdrawRequest {
    fn from(value: WithdrawRequest) -> (carried: Self)
        ensures
            carried@ == value@,
            carried@.remote_addr.len() == ADDRESS_LENGTH,
    {
        proof {
            value.remote_addr.lemma_length();
        }
        Self {
            remote_addr: value.remote_addr.to_vec(),
            local_amount: value.local_amount,
            remote_amount: value.remote_amount,
        }
    }
}

impl vstd::std_specs::convert::FromSpecImpl<WithdrawRequest> for star_types::WithdrawRequest {
    open spec fn obeys_from_spec() -> bool {
        false
    }

    open spec fn from_spec(value: WithdrawRequest) -> Self {
        arbitrary()
    }
}

/// The response to a request to withdraw.
#[derive(Clone, Debug, PartialEq, Eq)]
pub struct WithdrawResponse {}

impl WithdrawResponse {
    pub fn new() -> (response: Self)
        ensures
            response == (WithdrawResponse {  }),
    {
        WithdrawResponse {  }
    }
}

impl TryFrom<star_types::WithdrawResponse> for WithdrawResponse {
    type Error = ConversionError;

    fn try_from(value: star_types::WithdrawResponse) -> (response: Result<Self, ConversionError>)
        ensures
            response == Ok::<Self, ConversionError>(WithdrawResponse {  }),
    {
        Ok(Self::new())
    }
}

impl vstd::std_specs::convert::TryFromSpecImpl<star_types::WithdrawResponse> for WithdrawResponse {
    open spec fn obeys_try_from_spec() -> bool {
        true
    }

    open spec fn try_from_spec(value: star_types::WithdrawResponse) -> Result<Self, ConversionError> {
        Ok(WithdrawResponse {  })
    }
}

impl From<WithdrawResponse> for star_types::WithdrawResponse {
    fn from(value: WithdrawResponse) -> (carried: Self)
        ensures
            carried == (star_types::WithdrawResponse {  }),
    {
        star_types::WithdrawResponse {  }
    }
}

impl vstd::std_specs::convert::FromSpecImpl<WithdrawResponse> for star_types::WithdrawResponse {
    open spec fn obeys_from_spec() -> bool {
        true
    }

    open spec fn from_spec(value: WithdrawResponse) -> Self {
        star_types::WithdrawResponse {  }
    }
}

/// A request for the balance of the channel with a counterparty.
#[derive(Clone, Debug, PartialEq, Eq)]
pub struct ChannelBalanceRequest {
    pub remote_addr: AccountAddress,
}

impl ChannelBalanceRequest {
    pub fn new(remote_addr: AccountAddress) -> (request: Self)
        ensures
            request.remote_addr@ == remote_addr@,
    {
        Self { remote_addr }
    }
}

impl TryFrom<star_types::ChannelBalanceRequest> for ChannelBalanceRequest {
    type Error = ConversionError;

    /// Fails where the address is not 32 bytes long.
    fn try_from(value: star_types::ChannelBalanceRequest) -> (request: Result<
        Self,
        ConversionError,
    >)
        ensures
            value.remote_addr@.len() == ADDRESS_LENGTH ==> request is Ok
                && request->Ok_0.remote_addr@ == value.remote_addr@,
            value.remote_addr@.len() != ADDRESS_LENGTH ==> request == Err::<
                Self,
                ConversionError,
            >(ConversionError::InvalidAddress),
    {
        match AccountAddress::from_bytes(&value.remote_addr) {
            Some(remote_addr) => Ok(Self { remote_addr }),
            None => Err(ConversionError::InvalidAddress),
        }
    }
}

impl vstd::std_specs::convert::TryFromSpecImpl<star_types::ChannelBalanceRequest> for ChannelBalanceRequest {
    open spec fn obeys_try_from_spec() -> bool {
        false
    }

    open spec fn try_from_spec(value: star_types::ChannelBalanceRequest) -> Result<
        Self,
        ConversionError,
    > {
        arbitrary()
    }
}

impl From<ChannelBalanceRequest> for star_types::ChannelBalanceRequest {
    fn from(value: ChannelBalanceRequest) -> (carried: Self)
        ensures
            carried.remote_addr@ == value.remote_addr@,
            carried.remote_addr@.len() == ADDRESS_LENGTH,
    {
        proof {
            value.remote_addr.lemma_length();
        }
        Self { remote_addr: value.remote_addr.to_vec() }
    }
}

impl vstd::std_specs::convert::FromSpecImpl<ChannelBalanceRequest> for star_types::ChannelBalanceRequest {
    open spec fn obeys_from_spec() -> bool {
        false
    }

    open spec fn from_spec(value: ChannelBalanceRequest) -> Self {
        arbitrary()
    }
}

/// The balance of a channel.
#[derive(Clone, Debug, PartialEq, Eq)]
pub struct ChannelBalanceResponse {
    pub balance: u64,
}

impl ChannelBalanceResponse {
    pub fn new(balance: u64) -> (response: Self)
        ensures
            response.balance == balance,
    {
        Self { balance }
    }
}

impl TryFrom<star_types::ChannelBalanceResponse> for ChannelBalanceResponse {
    type Error = ConversionError;

    fn try_from(value: star_types::ChannelBalanceResponse) -> (response: Result<
        Self,
        ConversionError,
    >)
        ensures
            response is Ok,
            response->Ok_0.balance == value.balance,
    {
        Ok(Self { balance: value.balance })
    }
}

impl vstd::std_specs::convert::TryFromSpecImpl<star_types::ChannelBalanceResponse> for ChannelBalanceResponse {
    open spec fn obeys_try_from_spec() -> bool {
        true
    }

    open spec fn try_from_spec(value: star_types::ChannelBalanceResponse) -> Result<
        Self,
        ConversionError,
    > {
        Ok(ChannelBalanceResponse { balance: value.balance })
    }
}

impl From<ChannelBalanceResponse> for star_types::ChannelBalanceResponse {
    fn from(value: ChannelBalanceResponse) -> (carried: Self)
        ensures
            carried.balance == value.balance,
    {
        Self { balance: value.balance }
    }
}

impl vstd::std_specs::convert::FromSpecImpl<ChannelBalanceResponse> for star_types::ChannelBalanceResponse {
    open spec fn obeys_from_spec() -> bool {
        true
    }

    open spec fn from_spec(value: ChannelBalanceResponse) -> Self {
        star_types::ChannelBalanceResponse { balance: value.balance }
    }
}

/// A request to install a package of channel scripts.
#[derive(Clone, Debug, PartialEq, Eq)]
pub struct InstallChannelScriptPackageRequest {
    pub channel_script_package: ChannelScriptPackage,
}

impl InstallChannelScriptPackageRequest {
    pub fn new(channel_script_package: ChannelScriptPackage) -> (request: Self)
        ensures
            request.channel_script_package@ == channel_script_package@,
    {
        Self { channel_script_package }
    }
}

impl TryFrom<star_types::InstallChannelScriptPackageRequest> for InstallChannelScriptPackageRequest {
    type Error = ConversionError;

    /// Fails where the package is absent.
    fn try_from(value: star_types::InstallChannelScriptPackageRequest) -> (request: Result<
        Self,
        ConversionError,
    >)
        ensures
            match value.channel_script_package {
                Some(package) => request is Ok && request->Ok_0.channel_script_package@
                    == package.bytes@,
                None => request == Err::<Self, ConversionError>(
                    ConversionError::MissingChannelScriptPackage,
                ),
            },
    {
        match value.channel_script_package {
            Some(package) => Ok(
                Self { channel_script_package: ChannelScriptPackage::new(package.bytes) },
            ),
            None => Err(ConversionError::MissingChannelScriptPackage),
        }
    }
}

impl vstd::std_specs::convert::TryFromSpecImpl<star_types::InstallChannelScriptPackageRequest> for InstallChannelScriptPackageRequest {
    open spec fn obeys_try_from_spec() -> bool {
        false
    }

    open spec fn try_from_spec(value: star_types::InstallChannelScriptPackageRequest) -> Result<
        Self,
        ConversionError,
    > {
        arbitrary()
    }
}

impl From<InstallChannelScriptPackageRequest> for star_types::InstallChannelScriptPackageRequest {
    fn from(value: InstallChannelScriptPackageRequest) -> (carried: Self)
        ensures
            carried.channel_script_package is Some,
            carried.channel_script_package->0.bytes@ == value.channel_script_package@,
    {
        Self {
            channel_script_package: Some(
                star_types::ChannelScriptPackage {
                    bytes: value.channel_script_package.into_bytes(),
                },
            ),
        }
    }
}

impl vstd::std_specs::convert::FromSpecImpl<InstallChannelScriptPackageRequest> for star_types::InstallChannelScriptPackageRequest {
    open spec fn obeys_from_spec() -> bool {
        false
    }

    open spec fn from_spec(value: InstallChannelScriptPackageRequest) -> Self {
        arbitrary()
    }
}

/// The response to a request to install a package.
#[derive(Clone, Debug, PartialEq, Eq)]
pub struct InstallChannelScriptPackageResponse {}

impl InstallChannelScriptPackageResponse {
    pub fn new() -> (response: Self)
        ensures
            response == (InstallChannelScriptPackageResponse {  }),
    {
        InstallChannelScriptPackageResponse {  }
    }
}

impl TryFrom<star_types::InstallChannelScriptPackageResponse> for InstallChannelScriptPackageResponse {
    type Error = ConversionError;

    fn try_from(value: star_types::InstallChannelScriptPackageResponse) -> (response: Result<Self, ConversionError>)
        ensures
            response == Ok::<Self, ConversionError>(InstallChannelScriptPackageResponse {  }),
    {
        Ok(Self::new())
    }
}

impl vstd::std_specs::convert::TryFromSpecImpl<star_types::InstallChannelScriptPackageResponse> for InstallChannelScriptPackageResponse {
    open spec fn obeys_try_from_spec() -> bool {
        true
    }

    open spec fn try_from_spec(value: star_types::InstallChannelScriptPackageResponse) -> Result<Self, ConversionError> {
        Ok(InstallChannelScriptPackageResponse {  })
    }
}

impl From<InstallChannelScriptPackageResponse> for star_types::InstallChannelScriptPackageResponse {
    fn from(value: InstallChannelScriptPackageResponse) -> (carried: Self)
        ensures
            carried == (star_types::InstallChannelScriptPackageResponse {  }),
    {
        star_types::InstallChannelScriptPackageResponse {  }
    }
}

impl vstd::std_specs::convert::FromSpecImpl<InstallChannelScriptPackageResponse> for star_types::InstallChannelScriptPackageResponse {
    open spec fn obeys_from_spec() -> bool {
        true
    }

    open spec fn from_spec(value: InstallChannelScriptPackageResponse) -> Self {
        star_types::InstallChannelScriptPackageResponse {  }
    }
}

/// A request to deploy a module, given in compiled form.
#[derive(Clone, Debug, PartialEq, Eq)]
pub struct DeployModuleRequest {
    pub module_bytes: Vec<u8>,
}

impl DeployModuleRequest {
    pub fn new(module_bytes: Vec<u8>) -> (request: Self)
        ensures
            request.module_bytes == module_bytes,
    {
        Self { module_bytes }
    }
}

impl TryFrom<star_types::DeployModuleRequest> for DeployModuleRequest {
    type Error = ConversionError;

    fn try_from(value: star_types::DeployModuleRequest) -> (request: Result<
        Self,
        ConversionError,
    >)
        ensures
            request is Ok,
            request->Ok_0.module_bytes == value.module_bytes,
    {
        Ok(Self { module_bytes: value.module_bytes })
    }
}

impl vstd::std_specs::convert::TryFromSpecImpl<star_types::DeployModuleRequest> for DeployModuleRequest {
    open spec fn obeys_try_from_spec() -> bool {
        true
    }

    open spec fn try_from_spec(value: star_types::DeployModuleRequest) -> Result<
        Self,
        ConversionError,
    > {
        Ok(DeployModuleRequest { module_bytes: value.module_bytes })
    }
}

impl From<DeployModuleRequest> for star_types::DeployModuleRequest {
    fn from(value: DeployModuleRequest) -> (carried: Self)
        ensures
            carried.module_bytes == value.module_bytes,
    {
        Self { module_bytes: value.module_bytes }
    }
}

impl vstd::std_specs::convert::FromSpecImpl<DeployModuleRequest> for star_types::DeployModuleRequest {
    open spec fn obeys_from_spec() -> bool {
        true
    }

    open spec fn from_spec(value: DeployModuleRequest) -> Self {
        star_types::DeployModuleRequest { module_bytes: value.module_bytes }
    }
}

/// The response to a deployment: the transaction that deployed the module,
/// with its proof.
#[derive(Clone, Debug, PartialEq, Eq)]
pub struct DeployModuleResponse {
    pub transaction_with_proof: SignedTransactionWithProof,
}

impl DeployModuleResponse {
    pub fn new(transaction_with_proof: SignedTransactionWithProof) -> (response: Self)
        ensures
            response.transaction_with_proof@ == transaction_with_proof@,
    {
        Self { transaction_with_proof }
    }
}

impl TryFrom<star_types::DeployModuleResponse> for DeployModuleResponse {
    type Error = ConversionError;

    /// Fails where the transaction is absent.
    fn try_from(value: star_types::DeployModuleResponse) -> (response: Result<
        Self,
        ConversionError,
    >)
        ensures
            match value.transaction_with_proof {
                Some(record) => response is Ok && response->Ok_0.transaction_with_proof@
                    == record.bytes@,
                None => response == Err::<Self, ConversionError>(
                    ConversionError::MissingTransactionWithProof,
                ),
            },
    {
        match value.transaction_with_proof {
            Some(record) => Ok(
                Self { transaction_with_proof: SignedTransactionWithProof::new(record.bytes) },
            ),
            None => Err(ConversionError::MissingTransactionWithProof),
        }
    }
}

impl vstd::std_specs::convert::TryFromSpecImpl<star_types::DeployModuleResponse> for DeployModuleResponse {
    open spec fn obeys_try_from_spec() -> bool {
        false
    }

    open spec fn try_from_spec(value: star_types::DeployModuleResponse) -> Result<
        Self,
        ConversionError,
    > {
        arbitrary()
    }
}

impl From<DeployModuleResponse> for star_types::DeployModuleResponse {
    fn from(value: DeployModuleResponse) -> (carried: Self)
        ensures
            carried.transaction_with_proof is Some,
            carried.transaction_with_proof->0.bytes@ == value.transaction_with_proof@,
    {
        Self {
            transaction_with_proof: Some(
                star_types::SignedTransactionWithProof {
                    bytes: value.transaction_with_proof.into_bytes(),
                },
            ),
        }
    }
}

impl vstd::std_specs::convert::FromSpecImpl<DeployModuleResponse> for star_types::DeployModuleResponse {
    open spec fn obeys_from_spec() -> bool {
        false
    }

    open spec fn from_spec(value: DeployModuleResponse) -> Self {
        arbitrary()
    }
}

/// A request to run a script of an installed package in the channel with a
/// counterparty.
#[derive(Clone, Debug, PartialEq, Eq)]
pub struct ExecuteScriptRequest {
    pub remote_addr: AccountAddress,
    pub package_name: String,
    pub script_name: String,
    pub args: Vec<Vec<u8>>,
}

impl View for ExecuteScriptRequest {
    type V = ExecuteScriptModel;

    open spec fn view(&self) -> ExecuteScriptModel {
        ExecuteScriptModel {
            remote_addr: self.remote_addr@,
            package_name: self.package_name@,
            script_name: self.script_name@,
            args: args_model(self.args@),
        }
    }
}

impl View for star_types::ExecuteScriptRequest {
    type V = ExecuteScriptModel;

    open spec fn view(&self) -> ExecuteScriptModel {
        ExecuteScriptModel {
            remote_addr: self.remote_addr@,
            package_name: self.package_name@,
            script_name: self.script_name@,
            args: args_model(self.args@),
        }
    }
}

impl ExecuteScriptRequest {
    pub fn new(
        remote_addr: AccountAddress,
        package_name: String,
        script_name: String,
        args: Vec<Vec<u8>>,
    ) -> (request: Self)
        ensures
            request@ == (ExecuteScriptModel {
                remote_addr: remote_addr@,
                package_name: package_name@,
                script_name: script_name@,
                args: args_model(args@),
            }),
    {
        Self { remote_addr, package_name, script_name, args }
    }
}

impl TryFrom<star_types::ExecuteScriptRequest> for ExecuteScriptRequest {
    type Error = ConversionError;

    /// Fails where the address is not 32 bytes long.
    fn try_from(value: star_types::ExecuteScriptRequest) -> (request: Result<
        Self,
        ConversionError,
    >)
        ensures
            value@.remote_addr.len() == ADDRESS_LENGTH ==> request is Ok && request->Ok_0@
                == value@,
            value@.remote_addr.len() != ADDRESS_LENGTH ==> request == Err::<
                Self,
                ConversionError,
            >(ConversionError::InvalidAddress),
    {
        match AccountAddress::from_bytes(&value.remote_addr) {
            Some(remote_addr) => Ok(
                Self {
                    remote_addr,
                    package_name: value.package_name,
                    script_name: value.script_name,
                    args: value.args,
                },
            ),
            None => Err(ConversionError::InvalidAddress),
        }
    }
}

impl vstd::std_specs::convert::TryFromSpecImpl<star_types::ExecuteScriptRequest> for ExecuteScriptRequest {
    open spec fn obeys_try_from_spec() -> bool {
        false
    }

    open spec fn try_from_spec(value: star_types::ExecuteScriptRequest) -> Result<
        Self,
        ConversionError,
    > {
        arbitrary()
    }
}

impl From<ExecuteScriptRequest> for star_types::ExecuteScriptRequest {
    fn from(value: ExecuteScriptRequest) -> (carried: Self)
        ensures
            carried@ == value@,
            carried@.remote_addr.len() == ADDRESS_LENGTH,
    {
        proof {
            value.remote_addr.lemma_length();
        }
        Self {
            remote_addr: value.remote_addr.to_vec(),
            package_name: value.package_name,
            script_name: value.script_name,
            args: value.args,
        }
    }
}

impl vstd::std_specs::convert::FromSpecImpl<ExecuteScriptRequest> for star_types::ExecuteScriptRequest {
    open spec fn obeys_from_spec() -> bool {
        false
    }

    open spec fn from_spec(value: ExecuteScriptRequest) -> Self {
        arbitrary()
    }
}

/// The response to a request to run a script: the hash of the transaction
/// that ran it.
#[derive(Clone, Debug, PartialEq, Eq)]
pub struct ExecuteScriptResponse {
    pub hash_value: HashValue,
}

impl ExecuteScriptResponse {
    pub fn new(hash_value: HashValue) -> (response: Self)
        ensures
            response.hash_value@ == hash_value@,
    {
        Self { hash_value }
    }
}

impl TryFrom<star_types::ExecuteScriptResponse> for ExecuteScriptResponse {
    type Error = ConversionError;

    /// Fails where the hash is not 32 bytes long.
    fn try_from(value: star_types::ExecuteScriptResponse) -> (response: Result<
        Self,
        ConversionError,
    >)
        ensures
            value.hash_value@.len() == HASH_LENGTH ==> response is Ok
                && response->Ok_0.hash_value@ == value.hash_value@,
            value.hash_value@.len() != HASH_LENGTH ==> response == Err::<Self, ConversionError>(
                ConversionError::InvalidHashValue,
            ),
    {
        match HashValue::from_slice(&value.hash_value) {
            Some(hash_value) => Ok(Self::new(hash_value)),
            None => Err(ConversionError::InvalidHashValue),
        }
    }
}

impl vstd::std_specs::convert::TryFromSpecImpl<star_types::ExecuteScriptResponse> for ExecuteScriptResponse {
    open spec fn obeys_try_from_spec() -> bool {
        false
    }

    open spec fn try_from_spec(value: star_types::ExecuteScriptResponse) -> Result<
        Self,
        ConversionError,
    > {
        arbitrary()
    }
}

impl From<ExecuteScriptResponse> for star_types::ExecuteScriptResponse {
    fn from(value: ExecuteScriptResponse) -> (carried: Self)
        ensures
            carried.hash_value@ == value.hash_value@,
            carried.hash_value@.len() == HASH_LENGTH,
    {
        Self { hash_value: value.hash_value.to_vec() }
    }
}

impl vstd::std_specs::convert::FromSpecImpl<ExecuteScriptResponse> for star_types::ExecuteScriptResponse {
    open spec fn obeys_from_spec() -> bool {
        false
    }

    open spec fn from_spec(value: ExecuteScriptResponse) -> Self {
        arbitrary()
    }
}

} // verus!
