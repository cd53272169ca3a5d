//! The sign-in endpoints as decisions: issuing the message that a wallet is
//! asked to sign, judging the signed message that comes back, and the steps
//! of a login and of a refresh between one answer of the store and the next.

use crate::auth::crypto::{recover_from_bytes, signer_of};
use crate::auth::error::{AuthError, Failure};
use crate::auth::message::{built_fields, canonical_text, is_message_time, SignInMessage};
use crate::auth::jwt::secret_text;
use crate::auth::service::{
    draw_entropy, hash_refresh_token, issue_tokens_with, refresh_token_hash, tokens_outcome,
    Entropy, IssuedTokens,
};
use crate::auth::types::{
    AuthResponse, NonceFields, NonceRequest, NonceResponse, RefreshFields, RefreshRequest,
    RefreshResponse, TokenPair, VerifyFields, VerifyRequest,
};
use crate::auth::utils::is_nonce;
use crate::bindings::{
    address_parsed, authority_error, authority_rejection, parse_address, siwe_parsed, unix_now,
    uri_error, uri_rejection,
};
use crate::hex::{decode_signature_text, signature_text_bytes, HexError};
use crate::storage::schema::{
    LoginSession, RecordFields, RefreshTokenRecord, SessionFields, User, UserFields,
};
use crate::text::{join_text, same_bytes};
use vstd::prelude::*;

verus! {

/// How long a challenge can be answered, in seconds: ten minutes.
pub const NONCE_TTL: i64 = 600;

/// A challenge that was made and is not stored yet.
#[derive(Clone, Debug, PartialEq, Eq)]
pub struct PendingChallenge {
    /// The wallet address that the challenge is for, as it was submitted.
    pub wallet_address: String,
    /// The nonce to store for the wallet address.
    pub nonce: String,
    /// The message for the wallet to sign.
    pub message: String,
}

/// A pending challenge as mathematical values.
pub struct ChallengeFields {
    pub wallet_address: Seq<char>,
    pub nonce: Seq<char>,
    pub message: Seq<char>,
}

impl View for PendingChallenge {
    type V = ChallengeFields;

    open spec fn view(&self) -> ChallengeFields {
        ChallengeFields {
            wallet_address: self.wallet_address@,
            nonce: self.nonce@,
            message: self.message@,
        }
    }
}

/// Whether a request for a challenge is well formed: its domain is an
/// authority, its wallet address an address and its URI a URI.
pub open spec fn is_well_formed_request(request: NonceFields) -> bool {
    &&& authority_rejection(request.domain) is None
    &&& address_parsed(request.wallet_address) is Ok
    &&& uri_rejection(request.uri) is None
}

/// The challenge for a request, a nonce and a time of issue. The fields of
/// the request are checked in the order domain, wallet address, URI, and the
/// first that is malformed makes the request a bad one.
pub open spec fn challenge_outcome(request: NonceFields, nonce: Seq<char>, now: i64) -> Result<
    ChallengeFields,
    Failure,
> {
    if authority_rejection(request.domain) is Some {
        Err(Failure::BadRequest("Invalid domain: "@ + authority_rejection(request.domain)->0))
    } else if address_parsed(request.wallet_address) is Err {
        Err(
            Failure::BadRequest(
                "Invalid wallet address: "@ + address_parsed(request.wallet_address)->Err_0,
            ),
        )
    } else if uri_rejection(request.uri) is Some {
        Err(Failure::BadRequest("Invalid URI: "@ + uri_rejection(request.uri)->0))
    } else {
        match canonical_text(
            built_fields(
                request.domain,
                address_parsed(request.wallet_address)->Ok_0,
                request.uri,
                request.chain_id,
                nonce,
                now,
            ),
        ) {
            Some(message) => Ok(
                ChallengeFields { wallet_address: request.wallet_address, nonce, message },
            ),
            None => Err(Failure::Internal("Challenge has no canonical text"@)),
        }
    }
}

/// Whether a challenge or a failure is the expected one.
pub open spec fn challenge_matches(
    result: Result<PendingChallenge, AuthError>,
    expected: Result<ChallengeFields, Failure>,
) -> bool {
    match result {
        Ok(challenge) => expected == Ok::<ChallengeFields, Failure>(challenge@),
        Err(error) => expected == Err::<ChallengeFields, Failure>(error@),
    }
}

/// Makes the challenge for a request from a nonce and the time of issue.
pub fn prepare_challenge(request: &NonceRequest, nonce: String, now: i64) -> (challenge: Result<
    PendingChallenge,
    AuthError,
>)
    ensures
        challenge_matches(challenge, challenge_outcome(request@, nonce@, now)),
        is_well_formed_request(request@) && is_message_time(now as int) ==> challenge is Ok,
        !is_well_formed_request(request@) ==> challenge is Err && challenge->Err_0 is BadRequest,
{
    if let Some(reason) = authority_error(request.domain.as_str()) {
        return Err(AuthError::BadRequest(join_text("Invalid domain: ", reason.as_str())));
    }
    let address = match parse_address(request.wallet_address.as_str()) {
        Ok(address) => address,
        Err(reason) => {
            return Err(
                AuthError::BadRequest(join_text("Invalid wallet address: ", reason.as_str())),
            );
        },
    };
    if let Some(reason) = uri_error(request.uri.as_str()) {
        return Err(AuthError::BadRequest(join_text("Invalid URI: ", reason.as_str())));
    }
    let message = SignInMessage::build(
        request.domain.as_str(),
        address,
        request.uri.as_str(),
        request.chain_id,
        nonce.as_str(),
        now,
    );
    match message.serialize() {
        Some(text) => Ok(
            PendingChallenge {
                wallet_address: request.wallet_address.clone(),
                nonce,
                message: text,
            },
        ),
        None => Err(AuthError::Internal(String::from_str("Challenge has no canonical text"))),
    }
}

/// Generates the challenge for a wallet: draws a nonce, reads the clock and
/// builds the message to sign. The caller stores the nonce for the wallet
/// address and hands the message out. Whatever nonce and time were drawn, the
/// outcome is the one that `prepare_challenge` has for them.
pub fn generate_nonce(request: &NonceRequest) -> (challenge: Result<PendingChallenge, AuthError>)
    ensures
        exists|nonce: Seq<char>, now: i64|
            is_nonce(nonce) && challenge_matches(
                challenge,
                #[trigger] challenge_outcome(request@, nonce, now),
            ),
        !is_well_formed_request(request@) ==> challenge is Err && challenge->Err_0 is BadRequest,
        challenge is Ok ==> is_nonce(challenge->Ok_0.nonce@) && challenge->Ok_0.wallet_address@
            == request.wallet_address@,
{
    let nonce = crate::auth::utils::generate_nonce();
    let now: i64 = unix_now();
    prepare_challenge(request, nonce, now)
}

/// What completing a request for a challenge gives, from the answer of the
/// store to the storing of the nonce: the message once the nonce is stored,
/// and no message otherwise.
pub open spec fn completion_outcome(challenge: ChallengeFields, reply: Reply) -> Result<
    Seq<char>,
    Failure,
> {
    match reply {
        Reply::Done => Ok(challenge.message),
        Reply::Failed(reason) => Err(Failure::Storage(reason)),
        _ => Err(unexpected_reply()),
    }
}

impl PendingChallenge {
    /// The command that stores the nonce of the challenge for its wallet
    /// address, in place of any nonce that is stored for it.
    pub fn store_command(&self) -> (command: Command)
        ensures
            command@ == (Instruction::StoreNonce {
                wallet_address: self.wallet_address@,
                nonce: self.nonce@,
            }),
    {
        Command::StoreNonce {
            wallet_address: self.wallet_address.clone(),
            nonce: self.nonce.clone(),
        }
    }

    /// Completes the request for a challenge with the answer of the store:
    /// the message is handed out only if the nonce was stored.
    pub fn complete(self, reply: StorageReply) -> (response: Result<NonceResponse, AuthError>)
        ensures
            match response {
                Ok(r) => completion_outcome(self@, reply@) == Ok::<Seq<char>, Failure>(r.message@),
                Err(e) => completion_outcome(self@, reply@) == Err::<Seq<char>, Failure>(e@),
            },
    {
        match reply {
            StorageReply::Done => Ok(NonceResponse { message: self.message }),
            StorageReply::Failed(reason) => Err(AuthError::Storage(reason)),
            _ => Err(AuthError::Internal(String::from_str("Unexpected reply from the store"))),
        }
    }
}

/// The judgement on a signed challenge.
#[derive(Clone, Debug, PartialEq, Eq)]
pub enum Verdict {
    /// Every check passed: the wallet owns the address that it claims.
    Accept,
    /// A check failed. Where `invalidate` is set the stored nonce is used up
    /// and has to be deleted; otherwise it stays for a corrected attempt.
    Reject { error: AuthError, invalidate: bool },
}

/// A judgement as mathematical values.
pub enum Ruling {
    Accept,
    Reject { failure: Failure, invalidate: bool },
}

impl View for Verdict {
    type V = Ruling;

    open spec fn view(&self) -> Ruling {
        match self {
            Verdict::Accept => Ruling::Accept,
            Verdict::Reject { error, invalidate } => Ruling::Reject {
                failure: error@,
                invalidate: *invalidate,
            },
        }
    }
}

/// The stored challenge, if any, as mathematical values.
pub open spec fn session_fields(stored: Option<LoginSession>) -> Option<SessionFields> {
    match stored {
        Some(session) => Some(session@),
        None => None,
    }
}

/// Whether a challenge issued at `created_at` can no longer be answered at `now`.
pub open spec fn is_expired(created_at: i64, now: i64) -> bool {
    now - created_at > 600
}

/// A refusal that uses the nonce up.
pub open spec fn refused(reason: Seq<char>) -> Ruling {
    Ruling::Reject { failure: Failure::Unauthorized(reason), invalidate: true }
}

/// A bad request: nothing is changed, the nonce stays.
pub open spec fn bad_request(reason: Seq<char>) -> Ruling {
    Ruling::Reject { failure: Failure::BadRequest(reason), invalidate: false }
}

/// The judgement on the signature of a request whose message was read as
/// `message` and carries the stored nonce. The signature has to be 65 bytes of
/// hexadecimal text, or the request is a bad one. Its signer has to be the
/// address in the message, and that address the one that the request claims,
/// which in turn has to be well formed.
pub open spec fn signature_ruling(request: VerifyFields, address: Seq<u8>) -> Ruling {
    match signature_text_bytes(request.signature) {
        Err(e) => bad_request("Invalid signature format: "@ + e.text()),
        Ok(signature) => if signature.len() != 65 {
            bad_request("Invalid signature format: expected 65 bytes"@)
        } else if signer_of(request.message, signature) != Some(address) {
            refused("Signature verification failed"@)
        } else {
            match address_parsed(request.wallet_address) {
                Err(reason) => bad_request("Invalid wallet address: "@ + reason),
                Ok(claimed) => if claimed != address {
                    refused("Address mismatch"@)
                } else {
                    Ruling::Accept
                },
            }
        },
    }
}

/// The judgement on a request to verify, given the challenge that is stored
/// for its wallet address and the time. The checks come in this order: a
/// challenge is stored; it has not expired; the message can be read; it
/// carries the stored nonce; the signature is in order.
pub open spec fn challenge_ruling(
    request: VerifyFields,
    stored: Option<SessionFields>,
    now: i64,
) -> Ruling {
    match stored {
        None => Ruling::Reject {
            failure: Failure::Unauthorized("Nonce not found"@),
            invalidate: false,
        },
        Some(session) => if is_expired(session.created_at, now) {
            refused("Nonce expired"@)
        } else {
            match siwe_parsed(request.message) {
                Err(reason) => Ruling::Reject {
                    failure: Failure::Unauthorized("Malformed SIWE message: "@ + reason),
                    invalidate: false,
                },
                Ok(message) => if message.nonce != session.nonce {
                    refused("Nonce mismatch"@)
                } else {
                    signature_ruling(request, message.address)
                },
            }
        },
    }
}

/// Judges the signature of a request against the address in its message.
pub fn check_signature(request: &VerifyRequest, address: &[u8; 20]) -> (verdict: Verdict)
    ensures
        verdict@ == signature_ruling(request@, address@),
{
    let signature = match decode_signature_text(request.signature.as_str()) {
        Ok(signature) => signature,
        Err(e) => {
            return Verdict::Reject {
                error: AuthError::BadRequest(join_text("Invalid signature format: ", e.describe())),
                invalidate: false,
            };
        },
    };
    if signature.len() != 65 {
        return Verdict::Reject {
            error: AuthError::BadRequest(
                String::from_str("Invalid signature format: expected 65 bytes"),
            ),
            invalidate: false,
        };
    }
    let signed_by_address = match recover_from_bytes(
        request.message.as_str(),
        signature.as_slice(),
    ) {
        Some(signer) => same_bytes(signer.as_slice(), address.as_slice()),
        None => false,
    };
    if !signed_by_address {
        return Verdict::Reject {
            error: AuthError::Unauthorized(String::from_str("Signature verification failed")),
            invalidate: true,
        };
    }
    match parse_address(request.wallet_address.as_str()) {
        Err(reason) => Verdict::Reject {
            error: AuthError::BadRequest(join_text("Invalid wallet address: ", reason.as_str())),
            invalidate: false,
        },
        Ok(claimed) => {
            if same_bytes(claimed.as_slice(), address.as_slice()) {
                Verdict::Accept
            } else {
                Verdict::Reject {
                    error: AuthError::Unauthorized(String::from_str("Address mismatch")),
                    invalidate: true,
                }
            }
        },
    }
}

/// Judges a request to verify against the challenge that is stored for its
/// wallet address, at the time `now`.
pub fn check_challenge(request: &VerifyRequest, stored: &Option<LoginSession>, now: i64) -> (verdict:
    Verdict)
    ensures
        verdict@ == challenge_ruling(request@, session_fields(*stored), now),
{
    let session = match stored {
        Some(session) => session,
        None => {
            return Verdict::Reject {
                error: AuthError::Unauthorized(String::from_str("Nonce not found")),
                invalidate: false,
            };
        },
    };
    if (now as i128) - (session.created_at as i128) > (NONCE_TTL as i128) {
        return Verdict::Reject {
            error: AuthError::Unauthorized(String::from_str("Nonce expired")),
            invalidate: true,
        };
    }
    let message = match SignInMessage::parse(request.message.as_str()) {
        Ok(message) => message,
        Err(e) => {
            return Verdict::Reject {
                error: AuthError::Unauthorized(
                    join_text("Malformed SIWE message: ", e.reason.as_str()),
                ),
                invalidate: false,
            };
        },
    };
    if message.nonce != session.nonce {
        return Verdict::Reject {
            error: AuthError::Unauthorized(String::from_str("Nonce mismatch")),
            invalidate: true,
        };
    }
    check_signature(request, &message.address)
}

/// What a handler asks of the store, or the response that ends the exchange.
#[derive(Debug, PartialEq, Eq)]
pub enum Command {
    /// Insert the nonce for the wallet address, or replace the one that is there.
    StoreNonce { wallet_address: String, nonce: String },
    /// Look up the nonce that is stored for the wallet address.
    FetchNonce { wallet_address: String },
    /// Delete the nonce that is stored for the wallet address, if any.
    DeleteNonce { wallet_address: String },
    /// Look up the user with the wallet address, or create one.
    GetOrCreateUser { wallet_address: String },
    /// Insert the record of a refresh token.
    StoreRefreshToken { record: RefreshTokenRecord },
    /// Look up the record of the user's refresh token with the given hash.
    FetchRefreshToken { user_id: u128, token_hash: String },
    /// The exchange is over: send the tokens or the failure.
    Respond { outcome: Result<AuthResponse, AuthError> },
}

/// What the store answers to a command.
#[derive(Clone, Debug, PartialEq, Eq)]
pub enum StorageReply {
    /// The answer to `FetchNonce`.
    Nonce(Option<LoginSession>),
    /// The answer to `GetOrCreateUser`.
    User(User),
    /// The answer to `FetchRefreshToken`.
    RefreshToken(Option<RefreshTokenRecord>),
    /// The answer to a command that only writes: it was carried out.
    Done,
    /// The store failed, with the text of its error.
    Failed(String),
}

/// A command as mathematical values.
pub enum Instruction {
    StoreNonce { wallet_address: Seq<char>, nonce: Seq<char> },
    FetchNonce { wallet_address: Seq<char> },
    DeleteNonce { wallet_address: Seq<char> },
    GetOrCreateUser { wallet_address: Seq<char> },
    StoreRefreshToken { record: RecordFields },
    FetchRefreshToken { user_id: u128, token_hash: Seq<char> },
    Respond { outcome: Result<TokenPair, Failure> },
}

/// An answer of the store as mathematical values.
pub enum Reply {
    Nonce(Option<SessionFields>),
    User(UserFields),
    RefreshToken(Option<RecordFields>),
    Done,
    Failed(Seq<char>),
}

/// The outcome of an exchange as mathematical values.
pub open spec fn outcome_view(outcome: Result<AuthResponse, AuthError>) -> Result<
    TokenPair,
    Failure,
> {
    match outcome {
        Ok(tokens) => Ok(tokens@),
        Err(error) => Err(error@),
    }
}

impl View for Command {
    type V = Instruction;

    open spec fn view(&self) -> Instruction {
        match self {
            Command::StoreNonce { wallet_address, nonce } => Instruction::StoreNonce {
                wallet_address: wallet_address@,
                nonce: nonce@,
            },
            Command::FetchNonce { wallet_address } => Instruction::FetchNonce {
                wallet_address: wallet_address@,
            },
            Command::DeleteNonce { wallet_address } => Instruction::DeleteNonce {
                wallet_address: wallet_address@,
            },
            Command::GetOrCreateUser { wallet_address } => Instruction::GetOrCreateUser {
                wallet_address: wallet_address@,
            },
            Command::StoreRefreshToken { record } => Instruction::StoreRefreshToken {
                record: record@,
            },
            Command::FetchRefreshToken { user_id, token_hash } => Instruction::FetchRefreshToken {
                user_id: *user_id,
                token_hash: token_hash@,
            },
            Command::Respond { outcome } => Instruction::Respond { outcome: outcome_view(*outcome) },
        }
    }
}

impl View for StorageReply {
    type V = Reply;

    open spec fn view(&self) -> Reply {
        match self {
            StorageReply::Nonce(stored) => Reply::Nonce(session_fields(*stored)),
            StorageReply::User(user) => Reply::User(user@),
            StorageReply::RefreshToken(record) => Reply::RefreshToken(
                match record {
                    Some(r) => Some(r@),
                    None => None,
                },
            ),
            StorageReply::Done => Reply::Done,
            StorageReply::Failed(reason) => Reply::Failed(reason@),
        }
    }
}

/// The response that ends an exchange with a failure.
pub open spec fn fail(failure: Failure) -> Instruction {
    Instruction::Respond { outcome: Err(failure) }
}

/// The failure for an answer that does not fit the command that was given.
pub open spec fn unexpected_reply() -> Failure {
    Failure::Internal("Unexpected reply from the store"@)
}

/// How far a login has come.
#[derive(Clone, Debug, PartialEq, Eq)]
pub enum LoginStage {
    /// The stored nonce was asked for.
    AwaitingNonce,
    /// The challenge was refused and the deletion of its nonce was asked for.
    Rejecting { error: AuthError },
    /// The challenge was accepted and the user was asked for.
    AwaitingUser,
    /// The tokens were issued and the storing of the refresh token was asked for.
    AwaitingTokenStore { tokens: AuthResponse },
    /// The refresh token is stored and the deletion of the nonce was asked for.
    AwaitingInvalidation { tokens: AuthResponse },
    /// The response was given.
    Finished,
}

/// A login in progress: the request and how far it has come.
#[derive(Clone, Debug, PartialEq, Eq)]
pub struct Login {
    pub request: VerifyRequest,
    pub stage: LoginStage,
}

/// A stage of a login as mathematical values.
pub enum StageView {
    AwaitingNonce,
    Rejecting { failure: Failure },
    AwaitingUser,
    AwaitingTokenStore { tokens: TokenPair },
    AwaitingInvalidation { tokens: TokenPair },
    Finished,
}

/// A login in progress as mathematical values.
pub struct LoginView {
    pub request: VerifyFields,
    pub stage: StageView,
}

impl View for LoginStage {
    type V = StageView;

    open spec fn view(&self) -> StageView {
        match self {
            LoginStage::AwaitingNonce => StageView::AwaitingNonce,
            LoginStage::Rejecting { error } => StageView::Rejecting { failure: error@ },
            LoginStage::AwaitingUser => StageView::AwaitingUser,
            LoginStage::AwaitingTokenStore { tokens } => StageView::AwaitingTokenStore {
                tokens: tokens@,
            },
            LoginStage::AwaitingInvalidation { tokens } => StageView::AwaitingInvalidation {
                tokens: tokens@,
            },
            LoginStage::Finished => StageView::Finished,
        }
    }
}

impl View for Login {
    type V = LoginView;

    open spec fn view(&self) -> LoginView {
        LoginView { request: self.request@, stage: self.stage@ }
    }
}

/// A login at the given stage.
pub open spec fn at_stage(login: LoginView, stage: StageView) -> LoginView {
    LoginView { request: login.request, stage }
}

/// The end of a login: the stage `Finished` and the response.
pub open spec fn finish(login: LoginView, outcome: Result<TokenPair, Failure>) -> (
    LoginView,
    Instruction,
) {
    (at_stage(login, StageView::Finished), Instruction::Respond { outcome })
}

/// The step of a login after the store answered the question for the nonce:
/// the challenge is judged. An accepted challenge leads to the user; a refusal
/// that uses the nonce up leads to its deletion; any other ends the login.
pub open spec fn login_after_nonce(login: LoginView, stored: Option<SessionFields>, now: i64) -> (
    LoginView,
    Instruction,
) {
    match challenge_ruling(login.request, stored, now) {
        Ruling::Accept => (
            at_stage(login, StageView::AwaitingUser),
            Instruction::GetOrCreateUser { wallet_address: login.request.wallet_address },
        ),
        Ruling::Reject { failure, invalidate } => if invalidate {
            (
                at_stage(login, StageView::Rejecting { failure }),
                Instruction::DeleteNonce { wallet_address: login.request.wallet_address },
            )
        } else {
            finish(login, Err(failure))
        },
    }
}

/// The step of a login after the store gave the user: the tokens are issued,
/// and the record of the refresh token goes to the store.
pub open spec fn login_after_user(
    login: LoginView,
    user: UserFields,
    secret: Option<Seq<char>>,
    entropy: Entropy,
) -> (LoginView, Instruction) {
    match tokens_outcome(user.id, secret, entropy) {
        Err(failure) => finish(login, Err(failure)),
        Ok(issued) => (
            at_stage(
                login,
                StageView::AwaitingTokenStore {
                    tokens: TokenPair {
                        access_token: issued.access_token,
                        refresh_token: issued.refresh_token,
                    },
                },
            ),
            Instruction::StoreRefreshToken { record: issued.record },
        ),
    }
}

/// One step of a login: from the stage it is at and the answer of the store
/// to the next stage and the next command. A failure of the store ends the
/// login with a storage failure, except while a refused nonce is being
/// deleted: that deletion is best effort, and the refusal is the response
/// whatever the store answered.
pub open spec fn login_step(
    login: LoginView,
    reply: Reply,
    secret: Option<Seq<char>>,
    entropy: Entropy,
) -> (LoginView, Instruction) {
    match login.stage {
        StageView::Finished => finish(login, Err(Failure::Internal("Login already finished"@))),
        StageView::Rejecting { failure } => finish(login, Err(failure)),
        _ => match reply {
            Reply::Failed(reason) => finish(login, Err(Failure::Storage(reason))),
            Reply::Nonce(stored) => if login.stage is AwaitingNonce {
                login_after_nonce(login, stored, entropy.now)
            } else {
                finish(login, Err(unexpected_reply()))
            },
            Reply::User(user) => if login.stage is AwaitingUser {
                login_after_user(login, user, secret, entropy)
            } else {
                finish(login, Err(unexpected_reply()))
            },
            Reply::Done => match login.stage {
                StageView::AwaitingTokenStore { tokens } => (
                    at_stage(login, StageView::AwaitingInvalidation { tokens }),
                    Instruction::DeleteNonce { wallet_address: login.request.wallet_address },
                ),
                StageView::AwaitingInvalidation { tokens } => finish(login, Ok(tokens)),
                _ => finish(login, Err(unexpected_reply())),
            },
            Reply::RefreshToken(_) => finish(login, Err(unexpected_reply())),
        },
    }
}

impl Login {
    /// Begins a login: the first command asks the store for the nonce of the
    /// request's wallet address.
    pub fn start(request: VerifyRequest) -> (begun: (Login, Command))
        ensures
            begun.0@ == (LoginView { request: request@, stage: StageView::AwaitingNonce }),
            begun.1@ == (Instruction::FetchNonce { wallet_address: request.wallet_address@ }),
    {
        let wallet_address = request.wallet_address.clone();
        (Login { request, stage: LoginStage::AwaitingNonce }, Command::FetchNonce { wallet_address })
    }

    /// Whether the login has given its response.
    pub fn is_finished(&self) -> (finished: bool)
        ensures
            finished == (self@.stage is Finished),
    {
        match self.stage {
            LoginStage::Finished => true,
            _ => false,
        }
    }
}

/// Ends a login with a failure.
fn end_login(request: VerifyRequest, error: AuthError) -> (next: (Login, Command))
    ensures
        next.0@ == (LoginView { request: request@, stage: StageView::Finished }),
        next.1@ == fail(error@),
{
    (Login { request, stage: LoginStage::Finished }, Command::Respond { outcome: Err(error) })
}

/// Takes a login one step further with what the clock and the generator gave.
pub fn verify_signature_with(
    login: Login,
    reply: StorageReply,
    secret: Option<&str>,
    entropy: Entropy,
) -> (next: (Login, Command))
    ensures
        (next.0@, next.1@) == login_step(login@, reply@, secret_text(secret), entropy),
{
    let Login { request, stage } = login;
    match stage {
        LoginStage::Finished => end_login(
            request,
            AuthError::Internal(String::from_str("Login already finished")),
        ),
        LoginStage::Rejecting { error } => end_login(request, error),
        LoginStage::AwaitingNonce => match reply {
            StorageReply::Failed(reason) => end_login(request, AuthError::Storage(reason)),
            StorageReply::Nonce(stored) => {
                let wallet_address = request.wallet_address.clone();
                match check_challenge(&request, &stored, entropy.now) {
                    Verdict::Accept => (
                        Login { request, stage: LoginStage::AwaitingUser },
                        Command::GetOrCreateUser { wallet_address },
                    ),
                    Verdict::Reject { error, invalidate } => {
                        if invalidate {
                            (
                                Login { request, stage: LoginStage::Rejecting { error } },
                                Command::DeleteNonce { wallet_address },
                            )
                        } else {
                            end_login(request, error)
                        }
                    },
                }
            },
            _ => end_login(
                request,
                AuthError::Internal(String::from_str("Unexpected reply from the store")),
            ),
        },
        LoginStage::AwaitingUser => match reply {
            StorageReply::Failed(reason) => end_login(request, AuthError::Storage(reason)),
            StorageReply::User(user) => match issue_tokens_with(user.id, secret, entropy) {
                Err(error) => end_login(request, error),
                Ok(issued) => {
                    let IssuedTokens { access_token, refresh_token, record } = issued;
                    (
                        Login {
                            request,
                            stage: LoginStage::AwaitingTokenStore {
                                tokens: AuthResponse { access_token, refresh_token },
                            },
                        },
                        Command::StoreRefreshToken { record },
                    )
                },
            },
            _ => end_login(
                request,
                AuthError::Internal(String::from_str("Unexpected reply from the store")),
            ),
        },
        LoginStage::AwaitingTokenStore { tokens } => match reply {
            StorageReply::Failed(reason) => end_login(request, AuthError::Storage(reason)),
            StorageReply::Done => {
                let wallet_address = request.wallet_address.clone();
                (
                    Login { request, stage: LoginStage::AwaitingInvalidation { tokens } },
                    Command::DeleteNonce { wallet_address },
                )
            },
            _ => end_login(
                request,
                AuthError::Internal(String::from_str("Unexpected reply from the store")),
            ),
        },
        LoginStage::AwaitingInvalidation { tokens } => match reply {
            StorageReply::Failed(reason) => end_login(request, AuthError::Storage(reason)),
            StorageReply::Done => (
                Login { request, stage: LoginStage::Finished },
                Command::Respond { outcome: Ok(tokens) },
            ),
            _ => end_login(
                request,
                AuthError::Internal(String::from_str("Unexpected reply from the store")),
            ),
        },
    }
}

/// Verifies a signed challenge and logs the user in, one step at a time: from
/// the answer of the store to the next command, until the command is the
/// response. The step reads the clock and draws the identifiers of the tokens
/// itself; whatever they were, it is the step that `verify_signature_with`
/// takes with them.
pub fn verify_signature(login: Login, reply: StorageReply, secret: Option<&str>) -> (next: (
    Login,
    Command,
))
    ensures
        exists|entropy: Entropy|
            (next.0@, next.1@) == #[trigger] login_step(
                login@,
                reply@,
                secret_text(secret),
                entropy,
            ),
{
    let entropy = draw_entropy();
    verify_signature_with(login, reply, secret, entropy)
}

/// How far a refresh has come.
#[derive(Clone, Debug, PartialEq, Eq)]
pub enum RefreshStage {
    /// The record of the refresh token was asked for.
    AwaitingRecord,
    /// New tokens were issued and the storing of the new refresh token was
    /// asked for.
    AwaitingTokenStore { tokens: AuthResponse },
    /// The response was given.
    Finished,
}

/// A refresh in progress: the request and how far it has come.
#[derive(Clone, Debug, PartialEq, Eq)]
pub struct Refresh {
    pub request: RefreshRequest,
    pub stage: RefreshStage,
}

/// A stage of a refresh as mathematical values.
pub enum RefreshStageView {
    AwaitingRecord,
    AwaitingTokenStore { tokens: TokenPair },
    Finished,
}

/// A refresh in progress as mathematical values.
pub struct RefreshView {
    pub request: RefreshFields,
    pub stage: RefreshStageView,
}

impl View for RefreshStage {
    type V = RefreshStageView;

    open spec fn view(&self) -> RefreshStageView {
        match self {
            RefreshStage::AwaitingRecord => RefreshStageView::AwaitingRecord,
            RefreshStage::AwaitingTokenStore { tokens } => RefreshStageView::AwaitingTokenStore {
                tokens: tokens@,
            },
            RefreshStage::Finished => RefreshStageView::Finished,
        }
    }
}

impl View for Refresh {
    type V = RefreshView;

    open spec fn view(&self) -> RefreshView {
        RefreshView { request: self.request@, stage: self.stage@ }
    }
}

/// Why a refresh token is refused against the record that the store holds
/// for it, or `None` where it is valid: the record exists, belongs to the user,
/// holds the hash of the raw token, and has not expired.
pub open spec fn refresh_refusal(
    request: RefreshFields,
    record: Option<RecordFields>,
    now: i64,
) -> Option<Failure> {
    match record {
        None => Some(Failure::Unauthorized("Invalid refresh token"@)),
        Some(r) => if r.user_id != request.user_id || r.token_hash != refresh_token_hash(
            request.refresh_token,
        ) {
            Some(Failure::Unauthorized("Invalid refresh token"@))
        } else if now >= r.expires_at {
            Some(Failure::Unauthorized("Refresh token expired"@))
        } else {
            None
        },
    }
}

/// The end of a refresh: the stage `Finished` and the response.
pub open spec fn finish_refresh(refresh: RefreshView, outcome: Result<TokenPair, Failure>) -> (
    RefreshView,
    Instruction,
) {
    (
        RefreshView { request: refresh.request, stage: RefreshStageView::Finished },
        Instruction::Respond { outcome },
    )
}

/// The step of a refresh after the store answered the question for the
/// record: a valid token gets a new pair of tokens, whose refresh token goes to
/// the store; any other ends the refresh with the refusal, and nothing is issued.
pub open spec fn refresh_after_record(
    refresh: RefreshView,
    record: Option<RecordFields>,
    secret: Option<Seq<char>>,
    entropy: Entropy,
) -> (RefreshView, Instruction) {
    match refresh_refusal(refresh.request, record, entropy.now) {
        Some(failure) => finish_refresh(refresh, Err(failure)),
        None => match tokens_outcome(refresh.request.user_id, secret, entropy) {
            Err(failure) => finish_refresh(refresh, Err(failure)),
            Ok(issued) => (
                RefreshView {
                    request: refresh.request,
                    stage: RefreshStageView::AwaitingTokenStore {
                        tokens: TokenPair {
                            access_token: issued.access_token,
                            refresh_token: issued.refresh_token,
                        },
                    },
                },
                Instruction::StoreRefreshToken { record: issued.record },
            ),
        },
    }
}

/// One step of a refresh: from the stage it is at and the answer of the
/// store to the next stage and the next command. The record of the token that
/// was presented is left as it is: that token stays valid until it expires.
pub open spec fn refresh_step(
    refresh: RefreshView,
    reply: Reply,
    secret: Option<Seq<char>>,
    entropy: Entropy,
) -> (RefreshView, Instruction) {
    match refresh.stage {
        RefreshStageView::Finished => finish_refresh(
            refresh,
            Err(Failure::Internal("Refresh already finished"@)),
        ),
        RefreshStageView::AwaitingRecord => match reply {
            Reply::Failed(reason) => finish_refresh(refresh, Err(Failure::Storage(reason))),
            Reply::RefreshToken(record) => refresh_after_record(refresh, record, secret, entropy),
            _ => finish_refresh(refresh, Err(unexpected_reply())),
        },
        RefreshStageView::AwaitingTokenStore { tokens } => match reply {
            Reply::Failed(reason) => finish_refresh(refresh, Err(Failure::Storage(reason))),
            Reply::Done => finish_refresh(refresh, Ok(tokens)),
            _ => finish_refresh(refresh, Err(unexpected_reply())),
        },
    }
}

/// Judges a refresh token against the record that the store holds for it.
pub fn check_refresh_token(
    request: &RefreshRequest,
    record: &Option<RefreshTokenRecord>,
    now: i64,
) -> (refusal: Option<AuthError>)
    ensures
        match refusal {
            Some(error) => refresh_refusal(
                request@,
                match *record {
                    Some(r) => Some(r@),
                    None => None,
                },
                now,
            ) == Some(error@),
            None => refresh_refusal(
                request@,
                match *record {
                    Some(r) => Some(r@),
                    None => None,
                },
                now,
            ) is None,
        },
{
    let held = match record {
        Some(held) => held,
        None => {
            return Some(AuthError::Unauthorized(String::from_str("Invalid refresh token")));
        },
    };
    let presented = hash_refresh_token(request.refresh_token.as_str());
    if held.user_id != request.user_id || held.token_hash != presented {
        return Some(AuthError::Unauthorized(String::from_str("Invalid refresh token")));
    }
    if now >= held.expires_at {
        return Some(AuthError::Unauthorized(String::from_str("Refresh token expired")));
    }
    None
}

impl Refresh {
    /// Begins a refresh: the first command asks the store for the record of
    /// the user's refresh token, by the hash of the raw token.
    pub fn start(request: RefreshRequest) -> (begun: (Refresh, Command))
        ensures
            begun.0@ == (RefreshView { request: request@, stage: RefreshStageView::AwaitingRecord }),
            begun.1@ == (Instruction::FetchRefreshToken {
                user_id: request.user_id,
                token_hash: refresh_token_hash(request.refresh_token@),
            }),
    {
        let token_hash = hash_refresh_token(request.refresh_token.as_str());
        let user_id = request.user_id;
        (
            Refresh { request, stage: RefreshStage::AwaitingRecord },
            Command::FetchRefreshToken { user_id, token_hash },
        )
    }

    /// Whether the refresh has given its response.
    pub fn is_finished(&self) -> (finished: bool)
        ensures
            finished == (self@.stage is Finished),
    {
        match self.stage {
            RefreshStage::Finished => true,
            _ => false,
        }
    }
}

/// Ends a refresh with a failure.
fn end_refresh(request: RefreshRequest, error: AuthError) -> (next: (Refresh, Command))
    ensures
        next.0@ == (RefreshView { request: request@, stage: RefreshStageView::Finished }),
        next.1@ == fail(error@),
{
    (Refresh { request, stage: RefreshStage::Finished }, Command::Respond { outcome: Err(error) })
}

/// Takes a refresh one step further with what the clock and the generator gave.
pub fn refresh_tokens_with(
    refresh: Refresh,
    reply: StorageReply,
    secret: Option<&str>,
    entropy: Entropy,
) -> (next: (Refresh, Command))
    ensures
        (next.0@, next.1@) == refresh_step(refresh@, reply@, secret_text(secret), entropy),
{
    let Refresh { request, stage } = refresh;
    match stage {
        RefreshStage::Finished => end_refresh(
            request,
            AuthError::Internal(String::from_str("Refresh already finished")),
        ),
        RefreshStage::AwaitingRecord => match reply {
            StorageReply::Failed(reason) => end_refresh(request, AuthError::Storage(reason)),
            StorageReply::RefreshToken(record) => {
                if let Some(error) = check_refresh_token(&request, &record, entropy.now) {
                    return end_refresh(request, error);
                }
                match issue_tokens_with(request.user_id, secret, entropy) {
                    Err(error) => end_refresh(request, error),
                    Ok(issued) => {
                        let IssuedTokens { access_token, refresh_token, record } = issued;
                        (
                            Refresh {
                                request,
                                stage: RefreshStage::AwaitingTokenStore {
                                    tokens: AuthResponse { access_token, refresh_token },
                                },
                            },
                            Command::StoreRefreshToken { record },
                        )
                    },
                }
            },
            _ => end_refresh(
                request,
                AuthError::Internal(String::from_str("Unexpected reply from the store")),
            ),
        },
        RefreshStage::AwaitingTokenStore { tokens } => match reply {
            StorageReply::Failed(reason) => end_refresh(request, AuthError::Storage(reason)),
            StorageReply::Done => (
                Refresh { request, stage: RefreshStage::Finished },
                Command::Respond { outcome: Ok(tokens) },
            ),
            _ => end_refresh(
                request,
                AuthError::Internal(String::from_str("Unexpected reply from the store")),
            ),
        },
    }
}

/// Refreshes the user's tokens, one step at a time: the refresh token that
/// is presented is checked against its record, and only a valid one gets a new
/// access token and a new refresh token. The step reads the clock and draws
/// the identifiers of the tokens itself; whatever they were, it is the step
/// that `refresh_tokens_with` takes with them.
pub fn refresh_tokens(refresh: Refresh, reply: StorageReply, secret: Option<&str>) -> (next: (
    Refresh,
    Command,
))
    ensures
        exists|entropy: Entropy|
            (next.0@, next.1@) == #[trigger] refresh_step(
                refresh@,
                reply@,
                secret_text(secret),
                entropy,
            ),
{
    let entropy = draw_entropy();
    refresh_tokens_with(refresh, reply, secret, entropy)
}

/// The response to a refresh, from the pair of tokens that it ended with.
pub fn refresh_response(tokens: AuthResponse) -> (response: RefreshResponse)
    ensures
        response@ == tokens@,
{
    RefreshResponse { access_token: tokens.access_token, refresh_token: tokens.refresh_token }
}

/// A challenge that is answered after its ten minutes is refused as expired
/// and its nonce is used up, whatever the message and the signature are.
pub proof fn lemma_expired_challenge_is_refused(
    request: VerifyFields,
    session: SessionFields,
    now: i64,
)
    requires
        now - session.created_at > 600,
    ensures
        challenge_ruling(request, Some(session), now) == refused("Nonce expired"@),
        login_after_nonce(
            LoginView { request, stage: StageView::AwaitingNonce },
            Some(session),
            now,
        ).1 == (Instruction::DeleteNonce { wallet_address: request.wallet_address }),
{
}

/// A request whose wallet address has no pending challenge is refused, and
/// nothing is asked of the store: so it is with a second answer to a
/// challenge whose nonce was deleted.
pub proof fn lemma_absent_challenge_is_refused(request: VerifyFields, now: i64)
    ensures
        challenge_ruling(request, None, now) == (Ruling::Reject {
            failure: Failure::Unauthorized("Nonce not found"@),
            invalidate: false,
        }),
        login_after_nonce(LoginView { request, stage: StageView::AwaitingNonce }, None, now).1
            == fail(Failure::Unauthorized("Nonce not found"@)),
{
}

/// A message with the pending nonce and a signature by the address in the
/// message is refused where the request claims another address, and the nonce
/// is used up.
pub proof fn lemma_wrong_claimed_address_is_refused(
    request: VerifyFields,
    session: SessionFields,
    now: i64,
    signature: Seq<u8>,
    claimed: Seq<u8>,
)
    requires
        !is_expired(session.created_at, now),
        siwe_parsed(request.message) is Ok,
        siwe_parsed(request.message)->Ok_0.nonce == session.nonce,
        signature_text_bytes(request.signature) == Ok::<Seq<u8>, HexError>(signature),
        signature.len() == 65,
        signer_of(request.message, signature) == Some(siwe_parsed(request.message)->Ok_0.address),
        address_parsed(request.wallet_address) == Ok::<Seq<u8>, Seq<char>>(claimed),
        claimed != siwe_parsed(request.message)->Ok_0.address,
    ensures
        challenge_ruling(request, Some(session), now) == refused("Address mismatch"@),
        login_after_nonce(
            LoginView { request, stage: StageView::AwaitingNonce },
            Some(session),
            now,
        ).1 == (Instruction::DeleteNonce { wallet_address: request.wallet_address }),
{
}

/// A signature that is not 65 bytes of hexadecimal text makes the request a
/// bad one, not a refused one, and the nonce stays for a corrected attempt.
pub proof fn lemma_malformed_signature_is_bad_request(
    request: VerifyFields,
    session: SessionFields,
    now: i64,
)
    requires
        !is_expired(session.created_at, now),
        siwe_parsed(request.message) is Ok,
        siwe_parsed(request.message)->Ok_0.nonce == session.nonce,
        signature_text_bytes(request.signature) is Err || signature_text_bytes(
            request.signature,
        )->Ok_0.len() != 65,
    ensures
        challenge_ruling(request, Some(session), now) matches Ruling::Reject { failure, invalidate }
            && failure is BadRequest && !invalidate,
        login_after_nonce(
            LoginView { request, stage: StageView::AwaitingNonce },
            Some(session),
            now,
        ).1 matches Instruction::Respond { outcome } && outcome is Err && outcome->Err_0
            is BadRequest,
{
}

/// A challenge is accepted only for the nonce that is pending, within its
/// ten minutes, under a signature of 65 bytes whose signer is the address in
/// the message and the address that the request claims.
pub proof fn lemma_accepted_challenge(request: VerifyFields, stored: Option<SessionFields>, now: i64)
    requires
        challenge_ruling(request, stored, now) is Accept,
    ensures
        stored is Some,
        !is_expired(stored->0.created_at, now),
        siwe_parsed(request.message) is Ok,
        siwe_parsed(request.message)->Ok_0.nonce == stored->0.nonce,
        signature_text_bytes(request.signature) is Ok,
        signature_text_bytes(request.signature)->Ok_0.len() == 65,
        signer_of(request.message, signature_text_bytes(request.signature)->Ok_0)
            == address_parsed(request.wallet_address).ok(),
        signer_of(request.message, signature_text_bytes(request.signature)->Ok_0) == Some(
            siwe_parsed(request.message)->Ok_0.address,
        ),
{
}

/// A login hands out tokens only as the answer to the deletion of its nonce:
/// the nonce of a successful login is used up before the client has the tokens.
pub proof fn lemma_tokens_follow_invalidation(
    login: LoginView,
    reply: Reply,
    secret: Option<Seq<char>>,
    entropy: Entropy,
)
    requires
        login_step(login, reply, secret, entropy).1 matches Instruction::Respond { outcome }
            && outcome is Ok,
    ensures
        login.stage is AwaitingInvalidation,
        reply is Done,
        login_step(login, reply, secret, entropy).1 == (Instruction::Respond {
            outcome: Ok(login.stage->AwaitingInvalidation_tokens),
        }),
{
}

/// A refresh issues nothing for a token that is unknown, is not the user's,
/// or has expired: it ends at once with a refusal.
pub proof fn lemma_invalid_refresh_issues_nothing(
    request: RefreshFields,
    record: Option<RecordFields>,
    secret: Option<Seq<char>>,
    entropy: Entropy,
)
    requires
        record is None || record->0.user_id != request.user_id || record->0.token_hash
            != refresh_token_hash(request.refresh_token) || entropy.now >= record->0.expires_at,
    ensures
        refresh_step(
            RefreshView { request, stage: RefreshStageView::AwaitingRecord },
            Reply::RefreshToken(record),
            secret,
            entropy,
        ).1 matches Instruction::Respond { outcome } && outcome is Err && outcome->Err_0
            is Unauthorized,
{
}

} // verus!
