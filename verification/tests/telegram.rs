use trader::asset_map::AssetMap;
use trader::telegram::control::ControlMsg;
use trader::telegram::render::{format_status, AssetStatus, HELP_TEXT};
use trader::telegram::{dispatch, take_updates, AuthConfig, ChatMessage, ChatUpdate};

fn auth() -> AuthConfig {
    AuthConfig { token: "dummy".to_string(), chat_id: 12345, user_id: 999 }
}

#[test]
fn rejects_unknown_chat() {
    assert!(!auth().is_authorized(1, 999));
}

#[test]
fn rejects_unauthorized_user_in_right_chat() {
    assert!(!auth().is_authorized(12345, 1));
}

#[test]
fn accepts_right_chat_and_user() {
    assert!(auth().is_authorized(12345, 999));
}

#[test]
fn accepts_right_chat_with_unknown_from_id_zero() {
    assert!(auth().is_authorized(12345, 0));
}

#[test]
fn discovery_mode_rejects_everything_until_chat_id_configured() {
    let a = AuthConfig { token: "dummy".to_string(), chat_id: 0, user_id: 0 };
    assert!(!a.is_authorized(12345, 999));
}

#[test]
fn dispatch_halt_produces_control_and_reply() {
    let d = dispatch("/halt BTC").unwrap();
    assert_eq!(d.control, Some(ControlMsg::Halt { asset: "BTC".to_string(), strategy: None }));
    assert!(d.reply.unwrap().contains("BTC"));
}

#[test]
fn dispatch_status_produces_no_control_and_no_canned_reply() {
    let d = dispatch("/status").unwrap();
    assert_eq!(d.control, None);
    assert_eq!(d.reply, None);
}

#[test]
fn dispatch_help_has_no_control() {
    let d = dispatch("/help").unwrap();
    assert_eq!(d.control, None);
    assert!(d.reply.unwrap().contains("/halt"));
}

#[test]
fn dispatch_blank_message_is_none() {
    assert!(dispatch("   ").is_none());
}

#[test]
fn every_change_is_answered() {
    for text in [
        "/set reversal BTC 0.6",
        "/halt",
        "/resume BTC",
        "/reset_losses",
        "/strategies BTC reversal",
        "/trade_assets BTC",
        "/delta hp 0.1",
    ] {
        let d = dispatch(text).unwrap();
        assert!(d.control.is_some(), "{text}");
        assert!(d.reply.is_some(), "{text}");
    }
    assert_eq!(dispatch("/resume").unwrap().reply.unwrap(), "▶️ Sent resume for all assets");
}

#[test]
fn empty_status_message() {
    assert_eq!(format_status(&AssetMap::new()), "No status data yet.");
}

#[test]
fn status_golden_two_assets() {
    let mut snaps = AssetMap::new();
    snaps.insert(
        "BTC".to_string(),
        AssetStatus {
            wins: 3,
            losses: 1,
            stoplosses: 2,
            unwinds: 1,
            halted: false,
            last_trade: Some("14:32:10 DOWN STOPLOSS -0.2235".to_string()),
        },
    );
    snaps.insert(
        "ETH".to_string(),
        AssetStatus {
            wins: 0,
            losses: 0,
            stoplosses: 0,
            unwinds: 0,
            halted: true,
            last_trade: None,
        },
    );

    let expected = "\
📊 <b>Status</b>
🟢 <b>BTC</b>  W:3 L:1 SL:2 UW:1  (7 trades)
    last: 14:32:10 DOWN STOPLOSS -0.2235
🛑 <b>ETH</b>  W:0 L:0 SL:0 UW:0  (0 trades)";

    assert_eq!(format_status(&snaps), expected);
}

#[test]
fn status_sorted_by_asset_name() {
    let mut snaps = AssetMap::new();
    snaps.insert("SOL".to_string(), AssetStatus::default());
    snaps.insert("BTC".to_string(), AssetStatus::default());
    let out = format_status(&snaps);
    let btc_pos = out.find("BTC").unwrap();
    let sol_pos = out.find("SOL").unwrap();
    assert!(btc_pos < sol_pos, "BTC should render before SOL");
}

#[test]
fn help_text_lists_core_commands() {
    assert!(HELP_TEXT.contains("/halt"));
    assert!(HELP_TEXT.contains("/set"));
    assert!(HELP_TEXT.contains("/status"));
}

fn update(update_id: i64, chat_id: i64, from_id: Option<i64>, text: Option<&str>) -> ChatUpdate {
    let text = text.map(|t| t.to_string());
    ChatUpdate { update_id, message: Some(ChatMessage { text, chat_id, from_id }) }
}

#[test]
fn strangers_and_empty_updates_are_passed_over() {
    let updates = vec![
        update(7, 12345, Some(999), Some("/status")),
        update(8, 1, Some(999), Some("/halt")),
        update(9, 12345, None, Some("/help")),
        update(10, 12345, Some(999), None),
        ChatUpdate { update_id: 11, message: None },
    ];
    let mut offset: i64 = 3;
    let taken = take_updates(&auth(), &mut offset, &updates);
    assert_eq!(offset, 12);
    assert_eq!(taken.len(), 2);
    assert_eq!((taken[0].text.as_str(), taken[0].chat_id, taken[0].from_id), ("/status", 12345, 999));
    assert_eq!((taken[1].text.as_str(), taken[1].chat_id, taken[1].from_id), ("/help", 12345, 0));
    assert!(take_updates(&auth(), &mut offset, &vec![]).is_empty());
    assert_eq!(offset, 12);
}
