use ethers::signers::{LocalWallet, Signer};
use vectra::api::auth_utils::{
    create_sign_message, generate_nonce, is_valid_wallet_address, verify_wallet_signature,
    SignatureCheckError,
};
use vectra::api::errors::{ApiError, ErrorResponse};
use vectra::api::routes::auth::{
    wallet_connect, wallet_connect_with, wallet_login, LoginCommand, UserReply, WalletLogin,
    WalletLoginStage,
};
use vectra::api::types::{
    ApiResponse, AuthResponse, NonceResponse, WalletConnectRequest, WalletLoginRequest,
};
use vectra::db::config::{DatabaseConfig, DatabaseVars};
use vectra::db::models::User;
use vectra::db::queries::{create_user, update_user_xp};

const KEY: &str = "4c0883a69102937d6231471b5dbb6204fe5129617082792ae468d01a3f362318";
const OTHER_KEY: &str = "8f2a55949038a9610f50fb23b5883af3b4ecb3c3bb792cbcefbd1542c692be63";

fn wallet(key: &str) -> LocalWallet {
    key.parse::<LocalWallet>().unwrap()
}

fn address_of(wallet: &LocalWallet) -> String {
    format!("{:?}", wallet.address())
}

fn sign(wallet: &LocalWallet, message: &str) -> String {
    let signature = wallet.sign_hash(ethers::utils::hash_message(message)).unwrap();
    format!("0x{}", signature)
}

fn account(id: u128, wallet_address: &str, level: i16) -> User {
    User {
        id,
        wallet_address: wallet_address.to_string(),
        username: None,
        xp_points: 0,
        level,
        portfolio_value_cents: 1_000_000,
        cash_balance_cents: 1_000_000,
        created_at: 1,
        updated_at: 2,
    }
}

fn validation(message: &str) -> ApiError {
    ApiError::Validation { message: message.to_string() }
}

#[test]
fn nonce_is_the_text_of_an_identifier() {
    let nonce = generate_nonce();
    assert_eq!(nonce.len(), 36);
    for (index, c) in nonce.chars().enumerate() {
        if index == 8 || index == 13 || index == 18 || index == 23 {
            assert_eq!(c, '-');
        } else {
            assert!(c.is_ascii_digit() || ('a'..='f').contains(&c));
        }
    }
    assert_ne!(nonce, generate_nonce());
}

#[test]
fn sign_message_has_the_nonce_in_it() {
    assert_eq!(
        create_sign_message("abc-123"),
        "Welcome to Vectra DEX!\n\nSign this message to authenticate your wallet.\n\nNonce: abc-123\n\nThis request will not trigger a blockchain transaction or cost any gas fees."
    );
    assert_eq!(
        create_sign_message(""),
        "Welcome to Vectra DEX!\n\nSign this message to authenticate your wallet.\n\nNonce: \n\nThis request will not trigger a blockchain transaction or cost any gas fees."
    );
}

#[test]
fn wallet_address_format() {
    assert!(is_valid_wallet_address("0x6Da01670d8fc844e736095918bbE11fE8D564163"));
    assert!(is_valid_wallet_address("0x0000000000000000000000000000000000000000"));
    assert!(is_valid_wallet_address("0xABCDEFabcdef0123456789ABCDEFabcdef012345"));
    assert!(!is_valid_wallet_address(""));
    assert!(!is_valid_wallet_address("0x"));
    assert!(!is_valid_wallet_address("0X6Da01670d8fc844e736095918bbE11fE8D564163"));
    assert!(!is_valid_wallet_address("006Da01670d8fc844e736095918bbE11fE8D564163"));
    assert!(!is_valid_wallet_address("0x6Da01670d8fc844e736095918bbE11fE8D56416"));
    assert!(!is_valid_wallet_address("0x6Da01670d8fc844e736095918bbE11fE8D5641633"));
    assert!(!is_valid_wallet_address("0x6Da01670d8fc844e736095918bbE11fE8D56416g"));
    assert!(!is_valid_wallet_address("0x6Da01670d8fc844e736095918bbE11fE8D56416\u{e9}"));
    assert!(!is_valid_wallet_address("0x6Da01670d8fc844e736095918bbE11fE8D5641\u{e9}"));
}

#[test]
fn signature_is_checked_against_the_address() {
    let signer = wallet(KEY);
    let message = create_sign_message("abc");
    let signature = sign(&signer, &message);
    assert_eq!(verify_wallet_signature(&message, &signature, &address_of(&signer)), Ok(true));
    assert_eq!(
        verify_wallet_signature(&message, &signature[2..], &address_of(&signer)[2..]),
        Ok(true)
    );
    assert_eq!(
        verify_wallet_signature(&message, &signature, &address_of(&wallet(OTHER_KEY))),
        Ok(false)
    );
    assert_eq!(
        verify_wallet_signature(&create_sign_message("abd"), &signature, &address_of(&signer))
            .unwrap_or(false),
        false
    );
}

#[test]
fn signature_that_cannot_be_checked() {
    let signer = wallet(KEY);
    let address = address_of(&signer);
    let message = create_sign_message("abc");
    let signature = sign(&signer, &message);
    assert_eq!(
        verify_wallet_signature(&message, "0xzz", &address),
        Err(SignatureCheckError::SignatureEncoding)
    );
    assert_eq!(
        verify_wallet_signature(&message, "0x0x00", &address),
        Err(SignatureCheckError::SignatureEncoding)
    );
    assert_eq!(
        verify_wallet_signature(&message, "0x00", &address),
        Err(SignatureCheckError::SignatureLength)
    );
    assert_eq!(
        verify_wallet_signature(&message, &"00".repeat(65), &address),
        Err(SignatureCheckError::Recovery)
    );
    match verify_wallet_signature(&message, &signature, "0x12") {
        Err(SignatureCheckError::Address(reason)) => assert!(!reason.is_empty()),
        other => panic!("unexpected {:?}", other),
    }
    assert_eq!(SignatureCheckError::SignatureEncoding.describe(), "invalid signature encoding");
    assert_eq!(SignatureCheckError::SignatureLength.describe(), "invalid signature length");
    assert_eq!(SignatureCheckError::Recovery.describe(), "signature recovery failed");
    assert_eq!(SignatureCheckError::Address("bad".to_string()).describe(), "bad");
}

#[test]
fn connect_request_is_validated() {
    let good = WalletConnectRequest {
        wallet_address: "0x6Da01670d8fc844e736095918bbE11fE8D564163".to_string(),
    };
    assert_eq!(good.validate(), Ok(()));
    let short = WalletConnectRequest { wallet_address: "0x1234".to_string() };
    assert_eq!(
        short.validate(),
        Err(validation(
            "wallet_address: Wallet address must be 42 characters, wallet_address: Invalid wallet address format"
        ))
    );
    let not_hex = WalletConnectRequest {
        wallet_address: "0x6Da01670d8fc844e736095918bbE11fE8D56416z".to_string(),
    };
    assert_eq!(
        not_hex.validate(),
        Err(validation("wallet_address: Invalid wallet address format"))
    );
}

#[test]
fn login_request_is_validated() {
    let good = WalletLoginRequest {
        wallet_address: "0x6Da01670d8fc844e736095918bbE11fE8D564163".to_string(),
        signature: "a".repeat(130),
        nonce: "n".to_string(),
    };
    assert_eq!(good.validate(), Ok(()));
    let mut request = good.clone();
    request.signature = "a".repeat(132);
    assert_eq!(request.validate(), Ok(()));
    request.signature = "a".repeat(129);
    assert_eq!(request.validate(), Err(validation("signature: Invalid signature length")));
    request.signature = "a".repeat(133);
    assert_eq!(request.validate(), Err(validation("signature: Invalid signature length")));
    request.nonce = String::new();
    assert_eq!(
        request.validate(),
        Err(validation("signature: Invalid signature length, nonce: Nonce cannot be empty"))
    );
    request.wallet_address = "0x".to_string();
    assert_eq!(
        request.validate(),
        Err(validation(
            "wallet_address: Wallet address must be 42 characters, wallet_address: Invalid wallet address format, signature: Invalid signature length, nonce: Nonce cannot be empty"
        ))
    );
    request = good;
    request.nonce = String::new();
    assert_eq!(request.validate(), Err(validation("nonce: Nonce cannot be empty")));
}

#[test]
fn connect_hands_out_a_nonce_and_its_message() {
    let payload = WalletConnectRequest {
        wallet_address: "0x6Da01670d8fc844e736095918bbE11fE8D564163".to_string(),
    };
    assert_eq!(
        wallet_connect_with(&payload, "abc".to_string()),
        Ok(ApiResponse {
            success: true,
            data: Some(NonceResponse {
                nonce: "abc".to_string(),
                message: create_sign_message("abc"),
            }),
            message: Some("Please sign the message with your wallet.".to_string()),
        })
    );
    let response = wallet_connect(&payload).unwrap();
    let data = response.data.unwrap();
    assert_eq!(data.nonce.len(), 36);
    assert_eq!(data.message, create_sign_message(&data.nonce));
    let bad = WalletConnectRequest { wallet_address: "me".to_string() };
    assert!(matches!(wallet_connect(&bad), Err(ApiError::Validation { .. })));
    assert!(matches!(
        wallet_connect_with(&bad, "abc".to_string()),
        Err(ApiError::Validation { .. })
    ));
}

fn signed_login(signer: &LocalWallet, claimed: &str, nonce: &str) -> WalletLoginRequest {
    WalletLoginRequest {
        wallet_address: claimed.to_string(),
        signature: sign(signer, &create_sign_message(nonce)),
        nonce: nonce.to_string(),
    }
}

#[test]
fn login_welcomes_an_account_back() {
    let signer = wallet(KEY);
    let address = address_of(&signer);
    let (state, command) = WalletLogin::start(&signed_login(&signer, &address, "abc"));
    assert_eq!(state.stage, WalletLoginStage::AwaitingLookup);
    assert_eq!(command, LoginCommand::FindUser { wallet_address: address.clone() });
    let user = account(0xff, "0xStoredAddress", 12);
    let (state, command) = wallet_login(state, UserReply::Found(Some(user)));
    assert_eq!(state.stage, WalletLoginStage::Finished);
    assert_eq!(
        command,
        LoginCommand::Respond {
            outcome: Ok(ApiResponse {
                success: true,
                data: Some(AuthResponse {
                    token: format!("jwt_token_for_{}", &address[..10]),
                    user_id: "00000000-0000-0000-0000-0000000000ff".to_string(),
                    wallet_address: "0xStoredAddress".to_string(),
                    level: 12,
                    is_new_user: false,
                }),
                message: Some("Welcome back to Vectra DEX!".to_string()),
            })
        }
    );
}

#[test]
fn login_creates_an_account() {
    let signer = wallet(KEY);
    let address = address_of(&signer);
    let (state, _) = WalletLogin::start(&signed_login(&signer, &address, "abc"));
    let (state, command) = wallet_login(state, UserReply::Found(None));
    assert_eq!(state.stage, WalletLoginStage::AwaitingCreation);
    assert_eq!(command, LoginCommand::CreateUser { wallet_address: address.clone() });
    let user = create_user(5, &address, None, 1_700_000_000);
    let (state, command) = wallet_login(state, UserReply::Created(user));
    assert_eq!(state.stage, WalletLoginStage::Finished);
    assert_eq!(
        command,
        LoginCommand::Respond {
            outcome: Ok(ApiResponse {
                success: true,
                data: Some(AuthResponse {
                    token: format!("jwt_token_for_{}", &address[..10]),
                    user_id: "00000000-0000-0000-0000-000000000005".to_string(),
                    wallet_address: address,
                    level: 1,
                    is_new_user: true,
                }),
                message: Some("Welcome to Vectra DEX! Your account has been created.".to_string()),
            })
        }
    );
}

#[test]
fn login_reports_failures_of_the_table() {
    let signer = wallet(KEY);
    let address = address_of(&signer);
    let internal = |message: &str| LoginCommand::Respond {
        outcome: Err(ApiError::Internal { message: message.to_string() }),
    };
    let (state, _) = WalletLogin::start(&signed_login(&signer, &address, "abc"));
    let (_, command) = wallet_login(state, UserReply::Failed);
    assert_eq!(command, internal("Database connection failed"));
    let (state, _) = WalletLogin::start(&signed_login(&signer, &address, "abc"));
    let (state, _) = wallet_login(state, UserReply::Found(None));
    let (state, command) = wallet_login(state, UserReply::Failed);
    assert_eq!(command, internal("Failed to create user account"));
    let (_, command) = wallet_login(state, UserReply::Found(None));
    assert_eq!(command, internal("Login already finished"));
}

#[test]
fn login_refuses_at_once() {
    let signer = wallet(KEY);
    let address = address_of(&signer);
    let other = address_of(&wallet(OTHER_KEY));
    let (state, command) = WalletLogin::start(&signed_login(&signer, &other, "abc"));
    assert_eq!(state.stage, WalletLoginStage::Finished);
    assert_eq!(
        command,
        LoginCommand::Respond {
            outcome: Err(ApiError::Authentication {
                message: "Invalid signature. Please try signing the message again.".to_string()
            })
        }
    );
    let mut request = signed_login(&signer, &address, "abc");
    request.nonce = String::new();
    let (_, command) = WalletLogin::start(&request);
    assert_eq!(
        command,
        LoginCommand::Respond { outcome: Err(validation("nonce: Nonce cannot be empty")) }
    );
    let mut request = signed_login(&signer, &address, "abc");
    request.signature = format!("0x{}", "0".repeat(130));
    let (_, command) = WalletLogin::start(&request);
    assert_eq!(
        command,
        LoginCommand::Respond {
            outcome: Err(ApiError::Internal {
                message: "Error verifying signature: signature recovery failed".to_string()
            })
        }
    );
    request.signature = "z".repeat(130);
    let (_, command) = WalletLogin::start(&request);
    assert_eq!(
        command,
        LoginCommand::Respond {
            outcome: Err(ApiError::Internal {
                message: "Error verifying signature: invalid signature encoding".to_string()
            })
        }
    );
}

#[test]
fn negative_level_is_sign_extended() {
    let login = WalletLogin {
        wallet_address: "0xabc".to_string(),
        stage: WalletLoginStage::AwaitingLookup,
    };
    let (_, command) = wallet_login(login, UserReply::Found(Some(account(1, "0xabc", -1))));
    match command {
        LoginCommand::Respond { outcome: Ok(response) } => {
            let data = response.data.unwrap();
            assert_eq!(data.level, u32::MAX);
            assert_eq!(data.token, "jwt_token_for_0xabc");
        }
        other => panic!("unexpected {:?}", other),
    }
    let login = WalletLogin {
        wallet_address: "0xabc".to_string(),
        stage: WalletLoginStage::AwaitingLookup,
    };
    let (_, command) =
        wallet_login(login, UserReply::Found(Some(account(1, "0xabc", i16::MIN))));
    match command {
        LoginCommand::Respond { outcome: Ok(response) } => {
            assert_eq!(response.data.unwrap().level, 0xFFFF_8000);
        }
        other => panic!("unexpected {:?}", other),
    }
}

#[test]
fn api_failures_become_responses() {
    let response = |message: &str, code: &str| ErrorResponse {
        success: false,
        message: message.to_string(),
        error_code: code.to_string(),
    };
    assert_eq!(
        validation("too short").into_response(),
        (400, response("too short", "VALIDATION_ERROR"))
    );
    assert_eq!(
        ApiError::Authentication { message: "no".to_string() }.into_response(),
        (401, response("no", "AUTH_ERROR"))
    );
    assert_eq!(
        ApiError::NotFound { resource: "Portfolio".to_string() }.into_response(),
        (404, response("Portfolio not found", "NOT_FOUND"))
    );
    assert_eq!(
        ApiError::Internal { message: "down".to_string() }.into_response(),
        (500, response("down", "INTERNAL_ERROR"))
    );
    assert_eq!(
        ApiError::BadRequest { message: "bad".to_string() }.into_response(),
        (400, response("bad", "BAD_REQUEST"))
    );
}

fn vars() -> DatabaseVars {
    DatabaseVars {
        rds_hostname: None,
        rds_db_name: None,
        rds_username: None,
        rds_password: None,
        rds_port: None,
        database_url: None,
    }
}

#[test]
fn database_url_from_the_server_variables() {
    let mut set = vars();
    set.rds_hostname = Some("db.internal".to_string());
    set.rds_db_name = Some("vectra".to_string());
    set.rds_username = Some("app".to_string());
    set.rds_password = Some("p@ss".to_string());
    set.database_url = Some("postgres://ignored".to_string());
    assert_eq!(
        DatabaseConfig::from_vars(&set),
        Ok(DatabaseConfig {
            database_url: "postgres://app:p@ss@db.internal:5432/vectra".to_string(),
            max_connections: 10,
            connection_timeout: 30,
        })
    );
    set.rds_port = Some("6543".to_string());
    assert_eq!(
        DatabaseConfig::from_vars(&set).unwrap().database_url,
        "postgres://app:p@ss@db.internal:6543/vectra"
    );
}

#[test]
fn database_url_as_a_whole() {
    let mut set = vars();
    set.rds_hostname = Some("db.internal".to_string());
    set.rds_port = Some("6543".to_string());
    set.database_url = Some("postgres://localhost/dev".to_string());
    assert_eq!(
        DatabaseConfig::from_vars(&set),
        Ok(DatabaseConfig {
            database_url: "postgres://localhost/dev".to_string(),
            max_connections: 10,
            connection_timeout: 30,
        })
    );
    assert_eq!(
        DatabaseConfig::from_vars(&vars()),
        Err("DATABASE_URL or RDS environment variables required".to_string())
    );
}

#[test]
fn new_account_row() {
    assert_eq!(
        create_user(9, "0xabc", Some("ada"), 77),
        User {
            id: 9,
            wallet_address: "0xabc".to_string(),
            username: Some("ada".to_string()),
            xp_points: 0,
            level: 1,
            portfolio_value_cents: 1_000_000,
            cash_balance_cents: 1_000_000,
            created_at: 77,
            updated_at: 77,
        }
    );
    assert_eq!(create_user(9, "0xabc", None, 77).username, None);
}

#[test]
fn experience_columns() {
    assert_eq!(update_user_xp(0), (0, 1));
    assert_eq!(update_user_xp(2_500), (2_500, 3));
    assert_eq!(update_user_xp(255_000), (255_000, 0));
    assert_eq!(update_user_xp(i32::MAX as u32), (i32::MAX, ((i32::MAX / 1000 + 1) % 256) as i16));
    assert_eq!(update_user_xp(0x8000_0000).0, i32::MIN);
    assert_eq!(update_user_xp(u32::MAX).0, -1);
}
