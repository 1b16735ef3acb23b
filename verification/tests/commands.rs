use trader::telegram::commands::{
    dict_params, parse_command, resolve_alias, settable_params, Command, DeltaStrat,
};

#[test]
fn parses_status_and_help() {
    assert_eq!(parse_command("/status"), Some(Command::Status));
    assert_eq!(parse_command("/help"), Some(Command::Help));
    assert_eq!(parse_command("/start"), Some(Command::Help));
}

#[test]
fn parses_set_default_scalar() {
    assert_eq!(
        parse_command("/set trade_size_usdc 2.0"),
        Some(Command::SetParam {
            param: "trade_size_usdc".to_string(),
            key: "default".to_string(),
            value: "2.0".to_string()
        })
    );
}

#[test]
fn parses_set_per_asset_dict_param() {
    assert_eq!(
        parse_command("/set halt_rev BTC 3"),
        Some(Command::SetParam {
            param: "halt_rev".to_string(),
            key: "BTC".to_string(),
            value: "3".to_string()
        })
    );
}

#[test]
fn set_resolves_aliases() {
    assert_eq!(
        parse_command("/set delta_rev BTC 0.0005"),
        Some(Command::SetParam {
            param: "delta_pct_rev".to_string(),
            key: "BTC".to_string(),
            value: "0.0005".to_string()
        })
    );
}

#[test]
fn set_rejects_unknown_param() {
    match parse_command("/set not_a_real_param 1").unwrap() {
        Command::Invalid(_) => {}
        other => panic!("expected Invalid, got {other:?}"),
    }
}

#[test]
fn set_rejects_too_few_args() {
    match parse_command("/set trade_size_usdc").unwrap() {
        Command::Invalid(_) => {}
        other => panic!("expected Invalid, got {other:?}"),
    }
}

#[test]
fn parses_halt_resume_scoped_and_global() {
    assert_eq!(
        parse_command("/halt"),
        Some(Command::Halt { asset: "".to_string(), strategy: None })
    );
    assert_eq!(
        parse_command("/halt btc"),
        Some(Command::Halt { asset: "BTC".to_string(), strategy: None })
    );
    assert_eq!(
        parse_command("/resume ETH"),
        Some(Command::Resume { asset: "ETH".to_string(), strategy: None })
    );
}

#[test]
fn parses_reset_losses() {
    assert_eq!(
        parse_command("/reset_losses"),
        Some(Command::ResetLosses { asset: "".to_string() })
    );
    assert_eq!(
        parse_command("/reset_losses doge"),
        Some(Command::ResetLosses { asset: "DOGE".to_string() })
    );
}

#[test]
fn parses_strategies_query_and_set() {
    assert_eq!(parse_command("/strategies"), Some(Command::StrategiesQuery));
    assert_eq!(
        parse_command("/strategies BTC high_prob,reversal"),
        Some(Command::StrategiesSet {
            asset: "BTC".to_string(),
            strategies: vec!["high_prob".to_string(), "reversal".to_string()],
        })
    );
}

#[test]
fn strategies_set_rejects_invalid_strategy_name() {
    match parse_command("/strategies BTC not_real").unwrap() {
        Command::Invalid(_) => {}
        other => panic!("expected Invalid, got {other:?}"),
    }
}

#[test]
fn parses_delta_default_and_scoped() {
    assert_eq!(
        parse_command("/delta hp 0.0004"),
        Some(Command::DeltaSet {
            strat: DeltaStrat::HighProb,
            key: "default".to_string(),
            value: "0.0004".to_string()
        })
    );
    assert_eq!(
        parse_command("/delta rev BTC 0.0005"),
        Some(Command::DeltaSet {
            strat: DeltaStrat::Reversal,
            key: "BTC".to_string(),
            value: "0.0005".to_string()
        })
    );
}

#[test]
fn parses_trade_assets_query_and_set() {
    assert_eq!(parse_command("/trade_assets"), Some(Command::TradeAssetsQuery));
    assert_eq!(
        parse_command("/trade_assets BTC, ETH, doge"),
        Some(Command::TradeAssetsSet(vec![
            "BTC".to_string(),
            "ETH".to_string(),
            "DOGE".to_string()
        ]))
    );
}

#[test]
fn unknown_command_is_invalid() {
    match parse_command("/frobnicate").unwrap() {
        Command::Invalid(_) => {}
        other => panic!("expected Invalid, got {other:?}"),
    }
}

#[test]
fn blank_message_is_none() {
    assert_eq!(parse_command("   "), None);
    assert_eq!(parse_command(""), None);
}

#[test]
fn command_is_case_insensitive() {
    assert_eq!(parse_command("/STATUS"), Some(Command::Status));
    assert_eq!(
        parse_command("/HALT"),
        Some(Command::Halt { asset: "".to_string(), strategy: None })
    );
}

#[test]
fn command_words_count_by_their_small_letters() {
    assert_eq!(parse_command("/MAR\u{212A}ETS"), Some(Command::Markets));
    assert_eq!(parse_command("/LAST\u{C9} 3"), Some(Command::Last(3)));
    assert_eq!(parse_command("/last\u{E9} 3"), Some(Command::Last(3)));
    assert_eq!(parse_command("/STATUS\u{C9} x"), parse_command("/status\u{C9} x"));
    assert_eq!(
        parse_command("/STATUS\u{C9} x"),
        Some(Command::Invalid("Unknown command: /status\u{E9}".to_string()))
    );
    assert_eq!(parse_command("/A\u{3A3}"), parse_command("/a\u{3A3}"));
}

#[test]
fn a_third_word_names_the_strategy() {
    assert_eq!(
        parse_command("/halt eth high_prob"),
        Some(Command::Halt { asset: "ETH".to_string(), strategy: Some("high_prob".to_string()) })
    );
}

#[test]
fn an_unknown_command_is_named_in_the_answer() {
    assert_eq!(
        parse_command("/frobnicate now"),
        Some(Command::Invalid("Unknown command: /frobnicate".to_string()))
    );
}

#[test]
fn letters_beyond_ascii_are_raised_too() {
    assert_eq!(
        parse_command("/halt stra\u{df}e"),
        Some(Command::Halt { asset: "STRASSE".to_string(), strategy: None })
    );
}

#[test]
fn dict_params_can_be_set_and_aliases_lead_to_them() {
    let settable = settable_params();
    for name in dict_params() {
        assert!(settable.contains(&name), "{name} cannot be set");
    }
    assert_eq!(resolve_alias("delta_rev"), "delta_pct_rev");
    assert_eq!(resolve_alias("halt_rev"), "halt_rev");
}

#[test]
fn words_stand_between_white_space_of_any_kind() {
    let halt = Some(Command::Halt { asset: "BTC".to_string(), strategy: None });
    assert_eq!(parse_command("\u{3000}/HaLt\u{a0}btc\t\n"), halt);
    assert_eq!(parse_command("\u{2009}\u{85}\u{2028}"), None);
    assert!(matches!(parse_command("\u{200b}/halt"), Some(Command::Invalid(_))));
}
