use ethers::signers::{LocalWallet, Signer};
use vectra::auth::error::AuthError;
use vectra::auth::handlers::{Command, StorageReply};
use vectra::auth::service::{hash_refresh_token, Entropy};
use vectra::auth::types::{NonceRequest, RefreshRequest, VerifyRequest};
use vectra::storage::memory::{login, refresh, request_nonce, MemoryStore};
use vectra::storage::repo::auth::get_nonce;
use vectra::storage::repo::tokens::{
    find_refresh_token, insert_refresh_token, RefreshTokenLedger,
};
use vectra::storage::repo::user::{get_or_create_user, UserDirectory};
use vectra::storage::schema::{LoginSession, RefreshTokenRecord, User};

const KEY: &str = "4c0883a69102937d6231471b5dbb6204fe5129617082792ae468d01a3f362318";
const OTHER_KEY: &str = "8f2a55949038a9610f50fb23b5883af3b4ecb3c3bb792cbcefbd1542c692be63";
const SECRET: &str = "an-access-token-secret";
const NOW: i64 = 1_700_000_000;

fn wallet(key: &str) -> LocalWallet {
    key.parse::<LocalWallet>().unwrap()
}

fn address_of(wallet: &LocalWallet) -> String {
    format!("{:?}", wallet.address())
}

fn sign(wallet: &LocalWallet, message: &str) -> String {
    let signature = wallet.sign_hash(ethers::utils::hash_message(message)).unwrap();
    format!("0x{}", signature)
}

fn entropy(now: i64, refresh_id: u128) -> Entropy {
    Entropy { now, token_id: 1, refresh_id }
}

fn challenge(store: &mut MemoryStore, address: &str, nonce: &str, now: i64) -> String {
    let request = NonceRequest {
        wallet_address: address.to_string(),
        domain: "vectra.app".to_string(),
        uri: "https://vectra.app".to_string(),
        chain_id: 1,
    };
    request_nonce(store, &request, nonce.to_string(), now).unwrap().message
}

fn unauthorized(reason: &str) -> AuthError {
    AuthError::Unauthorized(reason.to_string())
}

#[test]
fn whole_login_in_memory() {
    let signer = wallet(KEY);
    let address = address_of(&signer);
    let mut store = MemoryStore::new();
    let message = challenge(&mut store, &address, "abcdefgh12345678", NOW);
    assert_eq!(
        get_nonce(&store.nonces, &address),
        Some(LoginSession {
            wallet_address: address.clone(),
            nonce: "abcdefgh12345678".to_string(),
            created_at: NOW,
        })
    );
    let request = VerifyRequest {
        wallet_address: address.clone(),
        signature: sign(&signer, &message),
        message,
    };
    let tokens =
        login(&mut store, request.clone(), Some(SECRET), entropy(NOW + 5, 77), 1234).unwrap();
    assert!(!tokens.access_token.is_empty());
    assert_eq!(tokens.refresh_token, "00000000-0000-0000-0000-00000000004d");
    assert_eq!(get_nonce(&store.nonces, &address), None);
    assert_eq!(store.refresh_tokens.len(), 1);
    assert_eq!(
        find_refresh_token(&store.refresh_tokens, 1234, &hash_refresh_token(&tokens.refresh_token)),
        Some(RefreshTokenRecord {
            user_id: 1234,
            token_hash: hash_refresh_token(&tokens.refresh_token),
            expires_at: NOW + 5 + 2_592_000,
            created_at: NOW + 5,
        })
    );
    assert_eq!(
        login(&mut store, request, Some(SECRET), entropy(NOW + 6, 78), 99),
        Err(unauthorized("Nonce not found"))
    );
    assert_eq!(store.refresh_tokens.len(), 1);
}

#[test]
fn second_login_finds_the_same_user() {
    let signer = wallet(KEY);
    let address = address_of(&signer);
    let mut store = MemoryStore::new();
    for (round, fresh_id) in [(0i64, 500u128), (1, 600)] {
        let message = challenge(&mut store, &address, "abcdefgh12345678", NOW + round);
        let request = VerifyRequest {
            wallet_address: address.to_uppercase().replace("0X", "0x"),
            signature: sign(&signer, &message),
            message,
        };
        let tokens = login(
            &mut store,
            request,
            Some(SECRET),
            entropy(NOW + round, 10 + round as u128),
            fresh_id,
        )
        .unwrap();
        let record = find_refresh_token(
            &store.refresh_tokens,
            500,
            &hash_refresh_token(&tokens.refresh_token),
        );
        assert_eq!(record.unwrap().user_id, 500);
    }
    assert_eq!(store.refresh_tokens.len(), 2);
}

#[test]
fn second_challenge_replaces_the_first() {
    let signer = wallet(KEY);
    let address = address_of(&signer);
    let mut store = MemoryStore::new();
    let first = challenge(&mut store, &address, "abcdefgh12345678", NOW);
    let second = challenge(&mut store, &address.to_uppercase().replace("0X", "0x"), "ABCDEFGH87654321", NOW + 1);
    assert_eq!(get_nonce(&store.nonces, &address).unwrap().nonce, "ABCDEFGH87654321");
    let with_first = VerifyRequest {
        wallet_address: address.clone(),
        signature: sign(&signer, &first),
        message: first,
    };
    let mut copy = MemoryStore::new();
    challenge(&mut copy, &address, "ABCDEFGH87654321", NOW + 1);
    assert_eq!(
        login(&mut copy, with_first, Some(SECRET), entropy(NOW + 2, 1), 1),
        Err(unauthorized("Nonce mismatch"))
    );
    let with_second = VerifyRequest {
        wallet_address: address,
        signature: sign(&signer, &second),
        message: second,
    };
    assert!(login(&mut store, with_second, Some(SECRET), entropy(NOW + 2, 1), 1).is_ok());
}

#[test]
fn refused_logins_in_memory() {
    let signer = wallet(KEY);
    let address = address_of(&signer);
    let other = address_of(&wallet(OTHER_KEY));
    let mut store = MemoryStore::new();
    let message = challenge(&mut store, &address, "abcdefgh12345678", NOW);
    let good = VerifyRequest {
        wallet_address: address.clone(),
        signature: sign(&signer, &message),
        message: message.clone(),
    };

    let mut short = good.clone();
    short.signature.truncate(100);
    assert!(matches!(
        login(&mut store, short, Some(SECRET), entropy(NOW, 1), 1),
        Err(AuthError::BadRequest(_))
    ));
    assert!(get_nonce(&store.nonces, &address).is_some());

    assert_eq!(
        login(&mut store, good.clone(), None, entropy(NOW, 1), 1),
        Err(AuthError::Internal("Missing JWT secret".to_string()))
    );
    assert!(get_nonce(&store.nonces, &address).is_some());

    assert_eq!(
        login(&mut store, good.clone(), Some(SECRET), entropy(NOW + 660, 1), 1),
        Err(unauthorized("Nonce expired"))
    );
    assert_eq!(get_nonce(&store.nonces, &address), None);

    challenge(&mut store, &other, "abcdefgh12345678", NOW);
    let mut claimed = good.clone();
    claimed.wallet_address = other.clone();
    assert_eq!(
        login(&mut store, claimed, Some(SECRET), entropy(NOW, 1), 1),
        Err(unauthorized("Address mismatch"))
    );
    assert_eq!(get_nonce(&store.nonces, &other), None);
    assert_eq!(store.refresh_tokens.len(), 0);
}

#[test]
fn refused_challenge_requests_store_nothing() {
    let mut store = MemoryStore::new();
    let request = NonceRequest {
        wallet_address: "0x12".to_string(),
        domain: "vectra.app".to_string(),
        uri: "https://vectra.app".to_string(),
        chain_id: 1,
    };
    assert!(matches!(
        request_nonce(&mut store, &request, "abcdefgh12345678".to_string(), NOW),
        Err(AuthError::BadRequest(_))
    ));
    assert_eq!(get_nonce(&store.nonces, "0x12"), None);
}

#[test]
fn whole_refresh_in_memory() {
    let mut store = MemoryStore::new();
    insert_refresh_token(
        &mut store.refresh_tokens,
        RefreshTokenRecord {
            user_id: 7,
            token_hash: hash_refresh_token("raw"),
            expires_at: NOW + 100,
            created_at: NOW,
        },
    );
    let request = RefreshRequest { user_id: 7, refresh_token: "raw".to_string() };
    let first = refresh(&mut store, request.clone(), Some(SECRET), entropy(NOW + 1, 50)).unwrap();
    assert_eq!(first.refresh_token, "00000000-0000-0000-0000-000000000032");
    assert_eq!(store.refresh_tokens.len(), 2);
    assert!(refresh(&mut store, request.clone(), Some(SECRET), entropy(NOW + 99, 51)).is_ok());
    assert_eq!(store.refresh_tokens.len(), 3);
    assert_eq!(
        refresh(&mut store, request.clone(), Some(SECRET), entropy(NOW + 100, 52)),
        Err(unauthorized("Refresh token expired"))
    );
    assert_eq!(
        refresh(
            &mut store,
            RefreshRequest { user_id: 8, refresh_token: "raw".to_string() },
            Some(SECRET),
            entropy(NOW, 53)
        ),
        Err(unauthorized("Invalid refresh token"))
    );
    assert_eq!(
        refresh(&mut store, request, None, entropy(NOW, 54)),
        Err(AuthError::Internal("Missing JWT secret".to_string()))
    );
    assert_eq!(store.refresh_tokens.len(), 3);
    let rotated = RefreshRequest { user_id: 7, refresh_token: first.refresh_token };
    assert!(refresh(&mut store, rotated, Some(SECRET), entropy(NOW + 2, 55)).is_ok());
}

#[test]
fn commands_are_carried_out() {
    let mut store = MemoryStore::new();
    let address = "0xAbC".to_string();
    assert_eq!(
        store.execute(
            &Command::StoreNonce { wallet_address: address.clone(), nonce: "n".to_string() },
            0,
            5
        ),
        StorageReply::Done
    );
    assert_eq!(
        store.execute(&Command::FetchNonce { wallet_address: "0xabc".to_string() }, 0, 6),
        StorageReply::Nonce(Some(LoginSession {
            wallet_address: "0xabc".to_string(),
            nonce: "n".to_string(),
            created_at: 5,
        }))
    );
    assert_eq!(
        store.execute(&Command::GetOrCreateUser { wallet_address: address.clone() }, 42, 7),
        StorageReply::User(User { id: 42, wallet_address: address.clone(), created_at: 7 })
    );
    assert_eq!(
        store.execute(&Command::GetOrCreateUser { wallet_address: "0xABC".to_string() }, 43, 8),
        StorageReply::User(User { id: 42, wallet_address: address.clone(), created_at: 7 })
    );
    assert_eq!(
        store.execute(&Command::DeleteNonce { wallet_address: "0xABC".to_string() }, 0, 9),
        StorageReply::Done
    );
    assert_eq!(
        store.execute(&Command::FetchNonce { wallet_address: address }, 0, 9),
        StorageReply::Nonce(None)
    );
    let record = RefreshTokenRecord {
        user_id: 42,
        token_hash: "h".to_string(),
        expires_at: 20,
        created_at: 10,
    };
    assert_eq!(
        store.execute(&Command::StoreRefreshToken { record: record.clone() }, 0, 10),
        StorageReply::Done
    );
    assert_eq!(
        store.execute(
            &Command::FetchRefreshToken { user_id: 42, token_hash: "h".to_string() },
            0,
            11
        ),
        StorageReply::RefreshToken(Some(record))
    );
    assert_eq!(
        store.execute(
            &Command::FetchRefreshToken { user_id: 42, token_hash: "g".to_string() },
            0,
            11
        ),
        StorageReply::RefreshToken(None)
    );
    assert_eq!(
        store.execute(&Command::Respond { outcome: Err(unauthorized("x")) }, 0, 11),
        StorageReply::Failed("No command for the store".to_string())
    );
}

#[test]
fn users_are_looked_up_or_created() {
    let mut users = UserDirectory::new();
    let first = get_or_create_user(&mut users, "0xAA", 1, 10);
    assert_eq!(first, User { id: 1, wallet_address: "0xAA".to_string(), created_at: 10 });
    assert_eq!(get_or_create_user(&mut users, "0xaa", 2, 11), first);
    assert_eq!(
        get_or_create_user(&mut users, "0xbb", 3, 12),
        User { id: 3, wallet_address: "0xbb".to_string(), created_at: 12 }
    );
    assert_eq!(get_or_create_user(&mut users, "0xAA", 4, 13), first);
}

#[test]
fn ledger_finds_the_first_record() {
    let mut ledger = RefreshTokenLedger::new();
    assert_eq!(ledger.len(), 0);
    assert_eq!(find_refresh_token(&ledger, 1, "h"), None);
    let record = |user_id, hash: &str, expires_at| RefreshTokenRecord {
        user_id,
        token_hash: hash.to_string(),
        expires_at,
        created_at: 0,
    };
    insert_refresh_token(&mut ledger, record(1, "g", 1));
    insert_refresh_token(&mut ledger, record(2, "h", 2));
    insert_refresh_token(&mut ledger, record(1, "h", 3));
    insert_refresh_token(&mut ledger, record(1, "h", 4));
    assert_eq!(ledger.len(), 4);
    assert_eq!(find_refresh_token(&ledger, 1, "h"), Some(record(1, "h", 3)));
    assert_eq!(find_refresh_token(&ledger, 2, "h"), Some(record(2, "h", 2)));
    assert_eq!(find_refresh_token(&ledger, 2, "g"), None);
}
