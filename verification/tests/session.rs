use matrix_sdk::ruma::{OwnedDeviceId, UserId};
use matrix_sdk::Session;
use syncrab::session::{accept_parsed, accept_written, load, save, SessionError};

fn session() -> Session {
    Session {
        access_token: "syt_Ym90_abcdefghijkl_012345".to_string(),
        user_id: UserId::parse("@bot:example.org").unwrap(),
        device_id: OwnedDeviceId::from("QWERTYUIOP"),
    }
}

#[test]
fn saved_session_loads_without_loss() {
    let original = session();
    let bytes = save(&original).unwrap();
    let restored = load(&bytes).unwrap();
    assert_eq!(restored, original);
    assert_eq!(restored.access_token, "syt_Ym90_abcdefghijkl_012345");
    assert_eq!(restored.user_id.as_str(), "@bot:example.org");
    assert_eq!(restored.device_id.as_str(), "QWERTYUIOP");
}

#[test]
fn session_is_saved_as_pretty_json() {
    let bytes = save(&session()).unwrap();
    let text = String::from_utf8(bytes).unwrap();
    assert_eq!(
        text,
        "{\n  \"access_token\": \"syt_Ym90_abcdefghijkl_012345\",\n  \"user_id\": \"@bot:example.org\",\n  \"device_id\": \"QWERTYUIOP\"\n}"
    );
}

#[test]
fn saving_twice_gives_the_same_bytes() {
    assert_eq!(save(&session()).unwrap(), save(&session()).unwrap());
}

#[test]
fn compact_session_file_loads() {
    let bytes =
        b"{\"access_token\":\"token\",\"user_id\":\"@bot:example.org\",\"device_id\":\"DEV\"}";
    let restored = load(bytes).unwrap();
    assert_eq!(restored.access_token, "token");
    assert_eq!(restored.user_id.as_str(), "@bot:example.org");
    assert_eq!(restored.device_id.as_str(), "DEV");
}

#[test]
fn corrupt_session_file_is_refused() {
    assert_eq!(load(b"").err(), Some(SessionError::Corrupt));
    assert_eq!(load(b"not json").err(), Some(SessionError::Corrupt));
    assert_eq!(load(b"[]").err(), Some(SessionError::Corrupt));
    assert_eq!(load(b"{\"access_token\":\"token\"}").err(), Some(SessionError::Corrupt));
    assert_eq!(
        load(b"{\"access_token\":\"token\",\"user_id\":\"bot\",\"device_id\":\"DEV\"}").err(),
        Some(SessionError::Corrupt)
    );
    let truncated = &save(&session()).unwrap()[..20];
    assert_eq!(load(truncated).err(), Some(SessionError::Corrupt));
}

#[test]
fn parser_error_means_corrupt() {
    let error = serde_json::from_slice::<Session>(b"{").unwrap_err();
    assert_eq!(accept_parsed(Err(error)).err(), Some(SessionError::Corrupt));
    assert_eq!(accept_parsed(Ok(session())), Ok(session()));
}

#[test]
fn writer_error_means_unwritable() {
    let error = serde_json::from_slice::<Session>(b"{").unwrap_err();
    assert_eq!(accept_written(Err(error)), Err(SessionError::Unwritable));
    assert_eq!(accept_written(Ok(vec![1, 2, 3])), Ok(vec![1, 2, 3]));
}
