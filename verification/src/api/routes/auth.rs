//! Wallet authentication routes: handing out a nonce to sign, and logging in
//! with the signed message, step by step between the answers of the accounts
//! table.

use crate::api::auth_utils::{
    create_sign_message, generate_nonce, sign_message_text, signature_check,
    verify_wallet_signature, CheckFailure,
};
use crate::api::errors::{ApiError, ApiFailure};
use crate::api::types::{
    is_valid_login, login_faults, wallet_address_faults, ApiResponse, AuthResponse, LoginFields,
    NonceResponse, WalletConnectRequest, WalletLoginRequest,
};
use crate::auth::crypto::signer_of;
use crate::bindings::{uuid_text, uuid_to_text};
use crate::db::models::User;
use crate::text::{chars_of, join_text, string_of};
use vstd::prelude::*;

verus! {

/// Whether a response to a wallet connection carries the nonce and the
/// message to sign for it.
pub open spec fn is_connect_response(response: ApiResponse<NonceResponse>, nonce: Seq<char>) -> bool {
    &&& response.success
    &&& response.data matches Some(data) && data.nonce@ == nonce && data.message@
        == sign_message_text(nonce)
    &&& response.message matches Some(m) && m@ == "Please sign the message with your wallet."@
}

/// Initiates a wallet connection with the given nonce: a valid request gets
/// the nonce and the message to sign for it.
pub fn wallet_connect_with(payload: &WalletConnectRequest, nonce: String) -> (response: Result<
    ApiResponse<NonceResponse>,
    ApiError,
>)
    ensures
        match response {
            Ok(r) => wallet_address_faults(payload.wallet_address@).len() == 0
                && is_connect_response(r, nonce@),
            Err(e) => wallet_address_faults(payload.wallet_address@).len() > 0 && e@
                == (ApiFailure::Validation {
                message: wallet_address_faults(payload.wallet_address@),
            }),
        },
{
    match payload.validate() {
        Err(error) => Err(error),
        Ok(_) => {
            let message = create_sign_message(nonce.as_str());
            Ok(
                ApiResponse {
                    success: true,
                    data: Some(NonceResponse { nonce, message }),
                    message: Some(String::from_str("Please sign the message with your wallet.")),
                },
            )
        },
    }
}

/// Initiates a wallet connection by providing a nonce to sign. Whatever
/// nonce is drawn, the response is the one that `wallet_connect_with` has for
/// it.
pub fn wallet_connect(payload: &WalletConnectRequest) -> (response: Result<
    ApiResponse<NonceResponse>,
    ApiError,
>)
    ensures
        match response {
            Ok(r) => wallet_address_faults(payload.wallet_address@).len() == 0 && r.data is Some
                && is_connect_response(r, r.data->0.nonce@),
            Err(e) => wallet_address_faults(payload.wallet_address@).len() > 0 && e@
                == (ApiFailure::Validation {
                message: wallet_address_faults(payload.wallet_address@),
            }),
        },
{
    let nonce = generate_nonce();
    wallet_connect_with(payload, nonce)
}

/// What a wallet login asks of the accounts table, or the response that ends
/// the login.
#[derive(Debug, PartialEq, Eq)]
pub enum LoginCommand {
    /// Look up the account with the wallet address.
    FindUser { wallet_address: String },
    /// Create an account for the wallet address.
    CreateUser { wallet_address: String },
    /// The login is over: send the response or the failure.
    Respond { outcome: Result<ApiResponse<AuthResponse>, ApiError> },
}

/// What the accounts table answers to a command.
#[derive(Debug, PartialEq, Eq)]
pub enum UserReply {
    /// The answer to `FindUser`.
    Found(Option<User>),
    /// The answer to `CreateUser`.
    Created(User),
    /// The table failed.
    Failed,
}

/// How far a wallet login has come.
#[derive(Clone, Copy, Debug, PartialEq, Eq, Structural)]
pub enum WalletLoginStage {
    /// The signature is in order and the account was asked for.
    AwaitingLookup,
    /// No account exists and its creation was asked for.
    AwaitingCreation,
    /// The response was given.
    Finished,
}

/// A wallet login in progress.
#[derive(Debug, PartialEq, Eq)]
pub struct WalletLogin {
    pub wallet_address: String,
    pub stage: WalletLoginStage,
}

/// The level of an account as the response carries it: the sixteen bits of
/// the column read into an unsigned number of 32 bits, sign extended.
pub open spec fn level_field(level: i16) -> u32 {
    if level >= 0 {
        level as u32
    } else {
        (0x1_0000_0000 + level) as u32
    }
}

/// The token of a response: a fixed prefix and the first ten characters of
/// the wallet address, or all of them where it has fewer.
pub open spec fn token_text(wallet_address: Seq<char>) -> Seq<char> {
    "jwt_token_for_"@ + wallet_address.take(
        if wallet_address.len() < 10 {
            wallet_address.len() as int
        } else {
            10
        },
    )
}

/// Whether a response is the welcome of the account `user` to the wallet
/// that logged in with `wallet_address`.
pub open spec fn is_welcome(
    response: ApiResponse<AuthResponse>,
    wallet_address: Seq<char>,
    user: User,
    is_new_user: bool,
) -> bool {
    &&& response.success
    &&& response.data matches Some(data) && data.token@ == token_text(wallet_address)
        && data.user_id@ == uuid_text(user.id) && data.wallet_address@ == user.wallet_address@
        && data.level == level_field(user.level) && data.is_new_user == is_new_user
    &&& response.message matches Some(m) && m@ == (if is_new_user {
        "Welcome to Vectra DEX! Your account has been created."@
    } else {
        "Welcome back to Vectra DEX!"@
    })
}

/// Whether a command is the response that ends a login with the given failure.
pub open spec fn is_failure(command: LoginCommand, failure: ApiFailure) -> bool {
    command matches LoginCommand::Respond { outcome } && outcome matches Err(e) && e@ == failure
}

/// Whether a command asks for the account of the wallet address.
pub open spec fn is_find_user(command: LoginCommand, address: Seq<char>) -> bool {
    command matches LoginCommand::FindUser { wallet_address } && wallet_address@ == address
}

/// Whether a command asks to create an account for the wallet address.
pub open spec fn is_create_user(command: LoginCommand, address: Seq<char>) -> bool {
    command matches LoginCommand::CreateUser { wallet_address } && wallet_address@ == address
}

/// Whether a command is the response that ends a login with the welcome of
/// the account `user`.
pub open spec fn is_welcome_response(
    command: LoginCommand,
    address: Seq<char>,
    user: User,
    is_new_user: bool,
) -> bool {
    command matches LoginCommand::Respond { outcome } && outcome matches Ok(r) && is_welcome(
        r,
        address,
        user,
        is_new_user,
    )
}

/// The failure with which a login begins and ends at once, if any: the
/// request breaks a rule, the signature is not the wallet's, or the signature
/// cannot be checked.
pub open spec fn login_refusal(request: LoginFields) -> Option<ApiFailure> {
    if login_faults(request).len() > 0 {
        Some(ApiFailure::Validation { message: login_faults(request) })
    } else {
        match signature_check(
            sign_message_text(request.nonce),
            request.signature,
            request.wallet_address,
        ) {
            Ok(true) => None,
            Ok(false) => Some(
                ApiFailure::Authentication {
                    message: "Invalid signature. Please try signing the message again."@,
                },
            ),
            Err(e) => Some(
                ApiFailure::Internal { message: "Error verifying signature: "@ + e.text() },
            ),
        }
    }
}

/// Writes the level of an account into the field of the response.
fn level_to_field(level: i16) -> (field: u32)
    ensures
        field == level_field(level),
{
    if level >= 0 {
        level as u32
    } else {
        (0xFFFF_FFFFu32 - ((-(level as i32)) as u32)) + 1
    }
}

/// Makes the token of a response.
fn make_token(wallet_address: &str) -> (token: String)
    ensures
        token@ == token_text(wallet_address@),
{
    let chars = chars_of(wallet_address);
    let length: usize = if chars.len() < 10 {
        chars.len()
    } else {
        10
    };
    let mut head: Vec<char> = Vec::new();
    let mut index: usize = 0;
    while index < length
        invariant
            index <= length <= chars.len(),
            head@ == chars@.take(index as int),
        decreases length - index,
    {
        head.push(chars[index]);
        assert(chars@.take(index as int).push(chars@[index as int]) =~= chars@.take(index + 1));
        index += 1;
    }
    let head_text = string_of(&head);
    join_text("jwt_token_for_", head_text.as_str())
}

/// Makes the welcome of an account.
fn welcome(wallet_address: &str, user: User, is_new_user: bool) -> (response: ApiResponse<
    AuthResponse,
>)
    ensures
        is_welcome(response, wallet_address@, user, is_new_user),
{
    let data = AuthResponse {
        token: make_token(wallet_address),
        user_id: uuid_to_text(user.id),
        level: level_to_field(user.level),
        wallet_address: user.wallet_address,
        is_new_user,
    };
    let message = if is_new_user {
        String::from_str("Welcome to Vectra DEX! Your account has been created.")
    } else {
        String::from_str("Welcome back to Vectra DEX!")
    };
    ApiResponse { success: true, data: Some(data), message: Some(message) }
}

impl WalletLogin {
    /// Begins a wallet login: the request is validated and its signature is
    /// checked over the message for its nonce. Where both are in order the
    /// first command asks for the account of the wallet; otherwise the login
    /// ends at once with the failure.
    pub fn start(payload: &WalletLoginRequest) -> (begun: (WalletLogin, LoginCommand))
        ensures
            begun.0.wallet_address@ == payload.wallet_address@,
            match login_refusal(payload@) {
                None => begun.0.stage == WalletLoginStage::AwaitingLookup && is_find_user(
                    begun.1,
                    payload.wallet_address@,
                ),
                Some(failure) => begun.0.stage == WalletLoginStage::Finished && is_failure(
                    begun.1,
                    failure,
                ),
            },
            login_refusal(payload@) is None ==> is_valid_login(payload@),
    {
        let refusal = match payload.validate() {
            Err(error) => Some(error),
            Ok(_) => {
                let expected_message = create_sign_message(payload.nonce.as_str());
                match verify_wallet_signature(
                    expected_message.as_str(),
                    payload.signature.as_str(),
                    payload.wallet_address.as_str(),
                ) {
                    Ok(true) => None,
                    Ok(false) => Some(
                        ApiError::Authentication {
                            message: String::from_str(
                                "Invalid signature. Please try signing the message again.",
                            ),
                        },
                    ),
                    Err(e) => Some(
                        ApiError::Internal {
                            message: join_text("Error verifying signature: ", e.describe().as_str()),
                        },
                    ),
                }
            },
        };
        match refusal {
            None => (
                WalletLogin {
                    wallet_address: payload.wallet_address.clone(),
                    stage: WalletLoginStage::AwaitingLookup,
                },
                LoginCommand::FindUser { wallet_address: payload.wallet_address.clone() },
            ),
            Some(error) => (
                WalletLogin {
                    wallet_address: payload.wallet_address.clone(),
                    stage: WalletLoginStage::Finished,
                },
                LoginCommand::Respond { outcome: Err(error) },
            ),
        }
    }
}

/// Whether `next` is the step that a wallet login takes from `login` on the
/// answer `reply`. An account that exists is welcomed back; where none
/// exists, one is created and welcomed. A failure of the table while looking
/// up, or any answer but a created account while creating, ends the login with
/// an internal failure.
pub open spec fn is_login_step(login: WalletLogin, reply: UserReply, next: (WalletLogin, LoginCommand)) -> bool {
    &&& next.0.wallet_address@ == login.wallet_address@
    &&& match (login.stage, reply) {
        (WalletLoginStage::AwaitingLookup, UserReply::Found(Some(user))) => next.0.stage
            == WalletLoginStage::Finished && is_welcome_response(
            next.1,
            login.wallet_address@,
            user,
            false,
        ),
        (WalletLoginStage::AwaitingLookup, UserReply::Found(None)) => next.0.stage
            == WalletLoginStage::AwaitingCreation && is_create_user(next.1, login.wallet_address@),
        (WalletLoginStage::AwaitingLookup, _) => next.0.stage == WalletLoginStage::Finished
            && is_failure(next.1, ApiFailure::Internal { message: "Database connection failed"@ }),
        (WalletLoginStage::AwaitingCreation, UserReply::Created(user)) => next.0.stage
            == WalletLoginStage::Finished && is_welcome_response(
            next.1,
            login.wallet_address@,
            user,
            true,
        ),
        (WalletLoginStage::AwaitingCreation, _) => next.0.stage == WalletLoginStage::Finished
            && is_failure(
            next.1,
            ApiFailure::Internal { message: "Failed to create user account"@ },
        ),
        (WalletLoginStage::Finished, _) => next.0.stage == WalletLoginStage::Finished
            && is_failure(next.1, ApiFailure::Internal { message: "Login already finished"@ }),
    }
}

/// Ends a wallet login with an internal failure.
fn end_with_failure(wallet_address: String, message: &str) -> (next: (WalletLogin, LoginCommand))
    ensures
        next.0.wallet_address@ == wallet_address@,
        next.0.stage == WalletLoginStage::Finished,
        is_failure(next.1, ApiFailure::Internal { message: message@ }),
{
    (
        WalletLogin { wallet_address, stage: WalletLoginStage::Finished },
        LoginCommand::Respond {
            outcome: Err(ApiError::Internal { message: String::from_str(message) }),
        },
    )
}

/// Completes a wallet login, one step at a time: from the answer of the
/// accounts table to the next command, until the command is the response.
pub fn wallet_login(login: WalletLogin, reply: UserReply) -> (next: (WalletLogin, LoginCommand))
    ensures
        is_login_step(login, reply, next),
{
    let WalletLogin { wallet_address, stage } = login;
    match stage {
        WalletLoginStage::AwaitingLookup => match reply {
            UserReply::Found(Some(user)) => {
                let response = welcome(wallet_address.as_str(), user, false);
                (
                    WalletLogin { wallet_address, stage: WalletLoginStage::Finished },
                    LoginCommand::Respond { outcome: Ok(response) },
                )
            },
            UserReply::Found(None) => {
                let target = wallet_address.clone();
                (
                    WalletLogin { wallet_address, stage: WalletLoginStage::AwaitingCreation },
                    LoginCommand::CreateUser { wallet_address: target },
                )
            },
            _ => end_with_failure(wallet_address, "Database connection failed"),
        },
        WalletLoginStage::AwaitingCreation => match reply {
            UserReply::Created(user) => {
                let response = welcome(wallet_address.as_str(), user, true);
                (
                    WalletLogin { wallet_address, stage: WalletLoginStage::Finished },
                    LoginCommand::Respond { outcome: Ok(response) },
                )
            },
            _ => end_with_failure(wallet_address, "Failed to create user account"),
        },
        WalletLoginStage::Finished => end_with_failure(wallet_address, "Login already finished"),
    }
}

} // verus!
