//! The whole store in memory, and the sign-in exchanges run against it from
//! the request to the response.

use crate::auth::error::{AuthError, Failure};
use crate::auth::handlers::{
    challenge_outcome, challenge_ruling, login_step, outcome_view, prepare_challenge,
    refresh_refusal, refresh_step, refresh_tokens_with, verify_signature_with, Command,
    Instruction, Login, LoginView, Refresh, RefreshStageView, RefreshView, Reply, Ruling,
    StageView, StorageReply,
};
use crate::auth::jwt::secret_text;
use crate::auth::service::{refresh_token_hash, tokens_outcome, Entropy};
use crate::auth::types::{
    AuthResponse, NonceFields, NonceRequest, NonceResponse, RefreshFields, RefreshRequest,
    TokenPair, VerifyFields, VerifyRequest,
};
use crate::storage::repo::auth::{
    delete_login_session, get_nonce, upsert_nonce, wallet_key, NonceStore,
};
use crate::storage::repo::tokens::{
    find_refresh_token, first_record_of, insert_refresh_token,
    lemma_first_record_survives_push, RefreshTokenLedger,
};
use crate::storage::repo::user::{get_or_create_user, user_for, UserDirectory};
use crate::storage::schema::{
    LoginSession, RecordFields, RefreshTokenRecord, SessionFields, UserFields,
};
use vstd::prelude::*;

verus! {

/// The three tables of the sign-in protocol.
#[derive(Debug)]
pub struct MemoryStore {
    /// The pending challenges.
    pub nonces: NonceStore,
    /// The users.
    pub users: UserDirectory,
    /// The records of the refresh tokens.
    pub refresh_tokens: RefreshTokenLedger,
}

/// The tables as mathematical values.
pub struct Tables {
    pub nonces: Map<Seq<char>, (Seq<char>, i64)>,
    pub users: Map<Seq<char>, UserFields>,
    pub refresh_tokens: Seq<RecordFields>,
}

impl View for MemoryStore {
    type V = Tables;

    open spec fn view(&self) -> Tables {
        Tables {
            nonces: self.nonces@,
            users: self.users@,
            refresh_tokens: self.refresh_tokens@,
        }
    }
}

/// The challenge that is pending for a wallet address, if any.
pub open spec fn pending(nonces: Map<Seq<char>, (Seq<char>, i64)>, address: Seq<char>) -> Option<
    SessionFields,
> {
    if nonces.contains_key(wallet_key(address)) {
        Some(
            SessionFields {
                wallet_address: address,
                nonce: nonces[wallet_key(address)].0,
                created_at: nonces[wallet_key(address)].1,
            },
        )
    } else {
        None
    }
}

/// The tables without the challenge of a wallet address.
pub open spec fn without_nonce(tables: Tables, address: Seq<char>) -> Tables {
    Tables { nonces: tables.nonces.remove(wallet_key(address)), ..tables }
}

/// What a command does to the tables, at the time `now`, and what the store
/// answers. A user that has to be created gets the identifier `fresh_id`.
pub open spec fn command_effect(tables: Tables, command: Instruction, fresh_id: u128, now: i64) -> (
    Tables,
    Reply,
) {
    match command {
        Instruction::StoreNonce { wallet_address, nonce } => (
            Tables {
                nonces: tables.nonces.insert(wallet_key(wallet_address), (nonce, now)),
                ..tables
            },
            Reply::Done,
        ),
        Instruction::FetchNonce { wallet_address } => (
            tables,
            Reply::Nonce(pending(tables.nonces, wallet_address)),
        ),
        Instruction::DeleteNonce { wallet_address } => (
            without_nonce(tables, wallet_address),
            Reply::Done,
        ),
        Instruction::GetOrCreateUser { wallet_address } => (
            Tables {
                users: tables.users.insert(
                    wallet_key(wallet_address),
                    user_for(tables.users, wallet_address, fresh_id, now),
                ),
                ..tables
            },
            Reply::User(user_for(tables.users, wallet_address, fresh_id, now)),
        ),
        Instruction::StoreRefreshToken { record } => (
            Tables { refresh_tokens: tables.refresh_tokens.push(record), ..tables },
            Reply::Done,
        ),
        Instruction::FetchRefreshToken { user_id, token_hash } => (
            tables,
            Reply::RefreshToken(first_record_of(tables.refresh_tokens, user_id, token_hash)),
        ),
        Instruction::Respond { outcome } => (tables, Reply::Failed("No command for the store"@)),
    }
}

impl MemoryStore {
    /// Whether each table is in order.
    pub open spec fn wf(&self) -> bool {
        self.nonces.wf() && self.users.wf()
    }

    /// A store with empty tables.
    pub fn new() -> (store: MemoryStore)
        ensures
            store.wf(),
            store@ == (Tables {
                nonces: Map::empty(),
                users: Map::empty(),
                refresh_tokens: Seq::empty(),
            }),
    {
        MemoryStore {
            nonces: NonceStore::new(),
            users: UserDirectory::new(),
            refresh_tokens: RefreshTokenLedger::new(),
        }
    }

    /// Carries out a command at the time `now` and answers it. A user that
    /// has to be created gets the identifier `fresh_id`.
    pub fn execute(&mut self, command: &Command, fresh_id: u128, now: i64) -> (reply: StorageReply)
        requires
            old(self).wf(),
        ensures
            final(self).wf(),
            (final(self)@, reply@) == command_effect(old(self)@, command@, fresh_id, now),
    {
        match command {
            Command::StoreNonce { wallet_address, nonce } => {
                upsert_nonce(&mut self.nonces, wallet_address.as_str(), nonce.as_str(), now);
                StorageReply::Done
            },
            Command::FetchNonce { wallet_address } => {
                match get_nonce(&self.nonces, wallet_address.as_str()) {
                    Some(session) => StorageReply::Nonce(
                        Some(
                            LoginSession {
                                wallet_address: wallet_address.clone(),
                                nonce: session.nonce,
                                created_at: session.created_at,
                            },
                        ),
                    ),
                    None => StorageReply::Nonce(None),
                }
            },
            Command::DeleteNonce { wallet_address } => {
                delete_login_session(&mut self.nonces, wallet_address.as_str());
                StorageReply::Done
            },
            Command::GetOrCreateUser { wallet_address } => {
                let user = get_or_create_user(
                    &mut self.users,
                    wallet_address.as_str(),
                    fresh_id,
                    now,
                );
                StorageReply::User(user)
            },
            Command::StoreRefreshToken { record } => {
                insert_refresh_token(
                    &mut self.refresh_tokens,
                    RefreshTokenRecord {
                        user_id: record.user_id,
                        token_hash: record.token_hash.clone(),
                        expires_at: record.expires_at,
                        created_at: record.created_at,
                    },
                );
                StorageReply::Done
            },
            Command::FetchRefreshToken { user_id, token_hash } => StorageReply::RefreshToken(
                find_refresh_token(&self.refresh_tokens, *user_id, token_hash.as_str()),
            ),
            Command::Respond { .. } => StorageReply::Failed(
                String::from_str("No command for the store"),
            ),
        }
    }
}

/// The failure of an exchange that has not come to its response after as
/// many commands as an exchange can give.
pub open spec fn unfinished() -> Failure {
    Failure::Internal("Exchange did not finish"@)
}

/// A login run from a stage on: each command is carried out on the tables and
/// its answer is given to the next step, until the command is the response.
/// `steps` bounds the commands that are carried out.
pub open spec fn login_run_from(
    tables: Tables,
    login: LoginView,
    command: Instruction,
    secret: Option<Seq<char>>,
    entropy: Entropy,
    fresh_id: u128,
    steps: nat,
) -> (Tables, Result<TokenPair, Failure>)
    decreases steps,
{
    match command {
        Instruction::Respond { outcome } => (tables, outcome),
        _ => if steps == 0 {
            (tables, Err(unfinished()))
        } else {
            let (after, reply) = command_effect(tables, command, fresh_id, entropy.now);
            let (next, then) = login_step(login, reply, secret, entropy);
            login_run_from(after, next, then, secret, entropy, fresh_id, (steps - 1) as nat)
        },
    }
}

/// A whole login: from the question for the nonce to the response. A login
/// gives four commands at most.
pub open spec fn login_run(
    tables: Tables,
    request: VerifyFields,
    secret: Option<Seq<char>>,
    entropy: Entropy,
    fresh_id: u128,
) -> (Tables, Result<TokenPair, Failure>) {
    login_run_from(
        tables,
        LoginView { request, stage: StageView::AwaitingNonce },
        Instruction::FetchNonce { wallet_address: request.wallet_address },
        secret,
        entropy,
        fresh_id,
        4,
    )
}

/// What a whole login comes to. A challenge that is refused leaves the
/// tables as they are but for its nonce, which is deleted where the refusal
/// uses it up. A challenge that is accepted gets its user, looked up or
/// created; then the tokens are issued, the record of the refresh token is
/// added and the nonce is deleted. Where the tokens cannot be issued the
/// login fails after the user was looked up or created, and the nonce stays.
pub open spec fn login_effect(
    tables: Tables,
    request: VerifyFields,
    secret: Option<Seq<char>>,
    entropy: Entropy,
    fresh_id: u128,
) -> (Tables, Result<TokenPair, Failure>) {
    let address = request.wallet_address;
    match challenge_ruling(request, pending(tables.nonces, address), entropy.now) {
        Ruling::Reject { failure, invalidate } => (
            if invalidate {
                without_nonce(tables, address)
            } else {
                tables
            },
            Err(failure),
        ),
        Ruling::Accept => {
            let user = user_for(tables.users, address, fresh_id, entropy.now);
            let with_user = Tables {
                users: tables.users.insert(wallet_key(address), user),
                ..tables
            };
            match tokens_outcome(user.id, secret, entropy) {
                Err(failure) => (with_user, Err(failure)),
                Ok(issued) => (
                    without_nonce(
                        Tables {
                            refresh_tokens: tables.refresh_tokens.push(issued.record),
                            ..with_user
                        },
                        address,
                    ),
                    Ok(
                        TokenPair {
                            access_token: issued.access_token,
                            refresh_token: issued.refresh_token,
                        },
                    ),
                ),
            }
        },
    }
}

/// A refresh run from a stage on, like a login.
pub open spec fn refresh_run_from(
    tables: Tables,
    refresh: RefreshView,
    command: Instruction,
    secret: Option<Seq<char>>,
    entropy: Entropy,
    steps: nat,
) -> (Tables, Result<TokenPair, Failure>)
    decreases steps,
{
    match command {
        Instruction::Respond { outcome } => (tables, outcome),
        _ => if steps == 0 {
            (tables, Err(unfinished()))
        } else {
            let (after, reply) = command_effect(tables, command, 0, entropy.now);
            let (next, then) = refresh_step(refresh, reply, secret, entropy);
            refresh_run_from(after, next, then, secret, entropy, (steps - 1) as nat)
        },
    }
}

/// A whole refresh: from the question for the record to the response. A
/// refresh gives two commands at most.
pub open spec fn refresh_run(
    tables: Tables,
    request: RefreshFields,
    secret: Option<Seq<char>>,
    entropy: Entropy,
) -> (Tables, Result<TokenPair, Failure>) {
    refresh_run_from(
        tables,
        RefreshView { request, stage: RefreshStageView::AwaitingRecord },
        Instruction::FetchRefreshToken {
            user_id: request.user_id,
            token_hash: refresh_token_hash(request.refresh_token),
        },
        secret,
        entropy,
        2,
    )
}

/// What a whole refresh comes to. The token that is presented is judged
/// against its first record; a refusal changes nothing. A valid token gets a
/// new pair of tokens, and the record of the new refresh token is added. The
/// record of the token that was presented stays as it is.
pub open spec fn refresh_effect(
    tables: Tables,
    request: RefreshFields,
    secret: Option<Seq<char>>,
    entropy: Entropy,
) -> (Tables, Result<TokenPair, Failure>) {
    let record = first_record_of(
        tables.refresh_tokens,
        request.user_id,
        refresh_token_hash(request.refresh_token),
    );
    match refresh_refusal(request, record, entropy.now) {
        Some(failure) => (tables, Err(failure)),
        None => match tokens_outcome(request.user_id, secret, entropy) {
            Err(failure) => (tables, Err(failure)),
            Ok(issued) => (
                Tables { refresh_tokens: tables.refresh_tokens.push(issued.record), ..tables },
                Ok(
                    TokenPair {
                        access_token: issued.access_token,
                        refresh_token: issued.refresh_token,
                    },
                ),
            ),
        },
    }
}

/// What a request for a challenge comes to: a challenge that could be made is
/// stored in place of the one that was pending for the wallet address, and its
/// message is the response.
pub open spec fn challenge_effect(
    tables: Tables,
    request: NonceFields,
    nonce: Seq<char>,
    now: i64,
) -> (Tables, Result<Seq<char>, Failure>) {
    match challenge_outcome(request, nonce, now) {
        Err(failure) => (tables, Err(failure)),
        Ok(challenge) => (
            Tables {
                nonces: tables.nonces.insert(wallet_key(request.wallet_address), (nonce, now)),
                ..tables
            },
            Ok(challenge.message),
        ),
    }
}

/// The outcome of a command that is the response, or the command itself.
fn response_of(command: Command) -> (taken: Result<Result<AuthResponse, AuthError>, Command>)
    ensures
        match taken {
            Ok(outcome) => command@ == (Instruction::Respond { outcome: outcome_view(outcome) }),
            Err(other) => other@ == command@ && !(command@ is Respond),
        },
{
    match command {
        Command::Respond { outcome } => Ok(outcome),
        other => Err(other),
    }
}

/// Issues a challenge and stores its nonce, with the given nonce and time.
pub fn request_nonce(store: &mut MemoryStore, request: &NonceRequest, nonce: String, now: i64) -> (response:
    Result<NonceResponse, AuthError>)
    requires
        old(store).wf(),
    ensures
        final(store).wf(),
        final(store)@ == challenge_effect(old(store)@, request@, nonce@, now).0,
        match response {
            Ok(r) => challenge_effect(old(store)@, request@, nonce@, now).1 == Ok::<
                Seq<char>,
                Failure,
            >(r.message@),
            Err(e) => challenge_effect(old(store)@, request@, nonce@, now).1 == Err::<
                Seq<char>,
                Failure,
            >(e@),
        },
{
    let challenge = match prepare_challenge(request, nonce, now) {
        Ok(challenge) => challenge,
        Err(error) => {
            return Err(error);
        },
    };
    let reply = store.execute(&challenge.store_command(), 0, now);
    challenge.complete(reply)
}

/// Runs a login against the store, with what the clock and the generator gave.
pub fn login(
    store: &mut MemoryStore,
    request: VerifyRequest,
    secret: Option<&str>,
    entropy: Entropy,
    fresh_id: u128,
) -> (outcome: Result<AuthResponse, AuthError>)
    requires
        old(store).wf(),
    ensures
        final(store).wf(),
        (final(store)@, outcome_view(outcome)) == login_run(
            old(store)@,
            request@,
            secret_text(secret),
            entropy,
            fresh_id,
        ),
        (final(store)@, outcome_view(outcome)) == login_effect(
            old(store)@,
            request@,
            secret_text(secret),
            entropy,
            fresh_id,
        ),
{
    proof {
        lemma_login_effect(old(store)@, request@, secret_text(secret), entropy, fresh_id);
    }
    let ghost goal = login_run(old(store)@, request@, secret_text(secret), entropy, fresh_id);
    let ghost closed_form = login_effect(
        old(store)@,
        request@,
        secret_text(secret),
        entropy,
        fresh_id,
    );
    let (mut state, mut command) = Login::start(request);
    let mut steps: u8 = 4;
    loop
        invariant
            store.wf(),
            steps <= 4,
            goal == closed_form,
            goal == login_run(old(store)@, request@, secret_text(secret), entropy, fresh_id),
            closed_form == login_effect(
                old(store)@,
                request@,
                secret_text(secret),
                entropy,
                fresh_id,
            ),
            goal == login_run_from(
                store@,
                state@,
                command@,
                secret_text(secret),
                entropy,
                fresh_id,
                steps as nat,
            ),
        decreases steps,
    {
        let pending_command = match response_of(command) {
            Ok(outcome) => {
                assert((store@, outcome_view(outcome)) == goal);
                return outcome;
            },
            Err(other) => other,
        };
        if steps == 0 {
            let outcome = Err(AuthError::Internal(String::from_str("Exchange did not finish")));
            assert((store@, outcome_view(outcome)) == goal);
            return outcome;
        }
        let reply = store.execute(&pending_command, fresh_id, entropy.now);
        let next = verify_signature_with(state, reply, secret, entropy);
        state = next.0;
        command = next.1;
        steps -= 1;
    }
}

/// Runs a refresh against the store, with what the clock and the generator gave.
pub fn refresh(
    store: &mut MemoryStore,
    request: RefreshRequest,
    secret: Option<&str>,
    entropy: Entropy,
) -> (outcome: Result<AuthResponse, AuthError>)
    requires
        old(store).wf(),
    ensures
        final(store).wf(),
        (final(store)@, outcome_view(outcome)) == refresh_run(
            old(store)@,
            request@,
            secret_text(secret),
            entropy,
        ),
        (final(store)@, outcome_view(outcome)) == refresh_effect(
            old(store)@,
            request@,
            secret_text(secret),
            entropy,
        ),
{
    proof {
        lemma_refresh_effect(old(store)@, request@, secret_text(secret), entropy);
    }
    let ghost goal = refresh_run(old(store)@, request@, secret_text(secret), entropy);
    let ghost closed_form = refresh_effect(old(store)@, request@, secret_text(secret), entropy);
    let (mut state, mut command) = Refresh::start(request);
    let mut steps: u8 = 2;
    loop
        invariant
            store.wf(),
            steps <= 2,
            goal == closed_form,
            goal == refresh_run(old(store)@, request@, secret_text(secret), entropy),
            closed_form == refresh_effect(old(store)@, request@, secret_text(secret), entropy),
            goal == refresh_run_from(
                store@,
                state@,
                command@,
                secret_text(secret),
                entropy,
                steps as nat,
            ),
        decreases steps,
    {
        let pending_command = match response_of(command) {
            Ok(outcome) => {
                assert((store@, outcome_view(outcome)) == goal);
                return outcome;
            },
            Err(other) => other,
        };
        if steps == 0 {
            let outcome = Err(AuthError::Internal(String::from_str("Exchange did not finish")));
            assert((store@, outcome_view(outcome)) == goal);
            return outcome;
        }
        let reply = store.execute(&pending_command, 0, entropy.now);
        let next = refresh_tokens_with(state, reply, secret, entropy);
        state = next.0;
        command = next.1;
        steps -= 1;
    }
}

/// A login that is run step by step comes to what `login_effect` says, and
/// never runs out of steps.
pub proof fn lemma_login_effect(
    tables: Tables,
    request: VerifyFields,
    secret: Option<Seq<char>>,
    entropy: Entropy,
    fresh_id: u128,
)
    ensures
        login_run(tables, request, secret, entropy, fresh_id) == login_effect(
            tables,
            request,
            secret,
            entropy,
            fresh_id,
        ),
{
    reveal_with_fuel(login_run_from, 6);
}

/// A refresh that is run step by step comes to what `refresh_effect` says,
/// and never runs out of steps.
pub proof fn lemma_refresh_effect(
    tables: Tables,
    request: RefreshFields,
    secret: Option<Seq<char>>,
    entropy: Entropy,
)
    ensures
        refresh_run(tables, request, secret, entropy) == refresh_effect(
            tables,
            request,
            secret,
            entropy,
        ),
{
    reveal_with_fuel(refresh_run_from, 4);
}

/// For every wallet address, two requests for a challenge without a login
/// between them leave one challenge pending: the second. The nonce of the
/// first is pending no more.
pub proof fn lemma_second_challenge_replaces_first(
    tables: Tables,
    first: NonceFields,
    second: NonceFields,
    first_nonce: Seq<char>,
    second_nonce: Seq<char>,
    earlier: i64,
    later: i64,
)
    requires
        wallet_key(first.wallet_address) == wallet_key(second.wallet_address),
        challenge_effect(tables, first, first_nonce, earlier).1 is Ok,
        challenge_effect(
            challenge_effect(tables, first, first_nonce, earlier).0,
            second,
            second_nonce,
            later,
        ).1 is Ok,
    ensures
        ({
            let after = challenge_effect(
                challenge_effect(tables, first, first_nonce, earlier).0,
                second,
                second_nonce,
                later,
            ).0;
            &&& after.nonces == tables.nonces.insert(
                wallet_key(second.wallet_address),
                (second_nonce, later),
            )
            &&& pending(after.nonces, first.wallet_address) == Some(
                SessionFields {
                    wallet_address: first.wallet_address,
                    nonce: second_nonce,
                    created_at: later,
                },
            )
            &&& after.users == tables.users
            &&& after.refresh_tokens == tables.refresh_tokens
        }),
{
    let key = wallet_key(second.wallet_address);
    assert(tables.nonces.insert(key, (first_nonce, earlier)).insert(key, (second_nonce, later))
        =~= tables.nonces.insert(key, (second_nonce, later)));
}

/// A login that succeeds uses its nonce up: the same request, sent again at
/// any time, is refused because no challenge is pending, and changes nothing.
pub proof fn lemma_login_is_single_use(
    tables: Tables,
    request: VerifyFields,
    secret: Option<Seq<char>>,
    entropy: Entropy,
    fresh_id: u128,
    again_secret: Option<Seq<char>>,
    again_entropy: Entropy,
    again_fresh_id: u128,
)
    requires
        login_effect(tables, request, secret, entropy, fresh_id).1 is Ok,
    ensures
        pending(
            login_effect(tables, request, secret, entropy, fresh_id).0.nonces,
            request.wallet_address,
        ) is None,
        login_effect(
            login_effect(tables, request, secret, entropy, fresh_id).0,
            request,
            again_secret,
            again_entropy,
            again_fresh_id,
        ) == (
            login_effect(tables, request, secret, entropy, fresh_id).0,
            Err::<TokenPair, Failure>(Failure::Unauthorized("Nonce not found"@)),
        ),
{
}

/// A login that is refused in a way that uses the nonce up (the challenge
/// has expired, the message carries another nonce, the signature is not the
/// address's, or the request claims another address than the signer's)
/// deletes the nonce and changes nothing else; a login that is a bad request,
/// or whose message cannot be read, or that finds no challenge, changes
/// nothing at all. No refused login issues a token.
pub proof fn lemma_refused_login(
    tables: Tables,
    request: VerifyFields,
    secret: Option<Seq<char>>,
    entropy: Entropy,
    fresh_id: u128,
)
    requires
        challenge_ruling(request, pending(tables.nonces, request.wallet_address), entropy.now)
            is Reject,
    ensures
        ({
            let ruling = challenge_ruling(
                request,
                pending(tables.nonces, request.wallet_address),
                entropy.now,
            );
            let (after, outcome) = login_effect(tables, request, secret, entropy, fresh_id);
            &&& outcome == Err::<TokenPair, Failure>(ruling->failure)
            &&& after.users == tables.users
            &&& after.refresh_tokens == tables.refresh_tokens
            &&& ruling->invalidate ==> after.nonces == tables.nonces.remove(
                wallet_key(request.wallet_address),
            ) && pending(after.nonces, request.wallet_address) is None
            &&& !ruling->invalidate ==> after.nonces == tables.nonces
        }),
{
}

/// A login succeeds only on an accepted challenge, and then the store holds
/// the record of exactly the refresh token that was handed out, by its hash.
pub proof fn lemma_successful_login(
    tables: Tables,
    request: VerifyFields,
    secret: Option<Seq<char>>,
    entropy: Entropy,
    fresh_id: u128,
)
    requires
        login_effect(tables, request, secret, entropy, fresh_id).1 is Ok,
    ensures
        challenge_ruling(request, pending(tables.nonces, request.wallet_address), entropy.now)
            is Accept,
        ({
            let (after, outcome) = login_effect(tables, request, secret, entropy, fresh_id);
            &&& after.refresh_tokens.len() == tables.refresh_tokens.len() + 1
            &&& after.refresh_tokens.last().token_hash == refresh_token_hash(
                outcome->Ok_0.refresh_token,
            )
            &&& after.refresh_tokens.last().expires_at == entropy.now + 2_592_000
            &&& after.users.contains_key(wallet_key(request.wallet_address))
            &&& after.refresh_tokens.last().user_id == after.users[wallet_key(
                request.wallet_address,
            )].id
        }),
{
}

/// A refresh that is refused changes nothing and issues nothing.
pub proof fn lemma_refused_refresh(
    tables: Tables,
    request: RefreshFields,
    secret: Option<Seq<char>>,
    entropy: Entropy,
)
    requires
        refresh_effect(tables, request, secret, entropy).1 is Err,
    ensures
        refresh_effect(tables, request, secret, entropy).0 == tables,
{
}

/// A refresh that succeeds leaves the token that was presented valid: its
/// record is still the first of its hash, so the same token is accepted again
/// until it expires.
pub proof fn lemma_refresh_keeps_presented_token(
    tables: Tables,
    request: RefreshFields,
    secret: Option<Seq<char>>,
    entropy: Entropy,
    later: i64,
)
    requires
        refresh_effect(tables, request, secret, entropy).1 is Ok,
    ensures
        ({
            let hash = refresh_token_hash(request.refresh_token);
            let before = first_record_of(tables.refresh_tokens, request.user_id, hash);
            let after = first_record_of(
                refresh_effect(tables, request, secret, entropy).0.refresh_tokens,
                request.user_id,
                hash,
            );
            &&& before is Some
            &&& after == before
            &&& later < before->0.expires_at ==> refresh_refusal(request, after, later) is None
        }),
{
    let hash = refresh_token_hash(request.refresh_token);
    let issued = tokens_outcome(request.user_id, secret, entropy);
    lemma_first_record_survives_push(
        tables.refresh_tokens,
        issued->Ok_0.record,
        request.user_id,
        hash,
    );
}

} // verus!
