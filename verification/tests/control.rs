use std::collections::{HashMap, HashSet};

use trader::num::{num, Num, Reader};
use trader::telegram::commands::{parse_command, Command};
use trader::telegram::control::{
    apply_control, command_to_control, parse_f64, parse_i64, ControlError, ControlMsg,
    ControlTarget,
};

fn n(x: f64) -> Num {
    num(x.to_bits())
}

fn reader() -> Reader<impl Fn(String) -> Option<Num>> {
    Reader::new(|t: String| t.parse::<f64>().ok().map(n))
}

#[derive(Default)]
struct MockWorker {
    params: HashMap<(String, String), String>,
    strategies: HashMap<String, Vec<String>>,
    losses_reset: Vec<String>,
    suppressed: HashSet<String>,
}

impl ControlTarget for MockWorker {
    fn set_param(&mut self, param: &str, key: &str, value: &str) -> Result<(), ControlError> {
        if param != "trade_assets" {
            parse_f64(value, &reader())
                .map_err(|_| ControlError { message: format!("bad value for {param}: {value}") })?;
        }
        self.params.insert((param.to_string(), key.to_string()), value.to_string());
        Ok(())
    }

    fn set_strategies(&mut self, asset: &str, strategies: &Vec<String>) {
        self.strategies.insert(asset.to_string(), strategies.to_vec());
    }

    fn reset_losses(&mut self, asset: &str) {
        self.losses_reset.push(asset.to_string());
    }

    fn halt(&mut self, asset: &str, strategy: Option<&str>) {
        let key = match (asset.is_empty(), strategy) {
            (true, _) => "*".to_string(),
            (false, Some(s)) => format!("{asset}:{s}"),
            (false, None) => asset.to_string(),
        };
        self.suppressed.insert(key);
    }

    fn resume(&mut self, asset: &str, strategy: Option<&str>) {
        if asset.is_empty() {
            self.suppressed.clear();
        } else {
            match strategy {
                Some(s) => {
                    self.suppressed.remove(&format!("{asset}:{s}"));
                }
                None => {
                    self.suppressed.remove(asset);
                }
            }
        }
    }
}

#[test]
fn set_param_reversal_mutates_target() {
    let cmd = parse_command("/set reversal BTC 0.6").unwrap();
    let msg = command_to_control(&cmd).expect("set_param produces a ControlMsg");
    let mut w = MockWorker::default();
    apply_control(&mut w, &msg).expect("apply succeeds");
    assert_eq!(
        w.params.get(&("reversal".to_string(), "BTC".to_string())),
        Some(&"0.6".to_string())
    );
}

#[test]
fn set_param_rejects_non_numeric_value() {
    let msg = ControlMsg::SetParam {
        param: "reversal".to_string(),
        key: "BTC".to_string(),
        value: "not_a_number".to_string(),
    };
    let mut w = MockWorker::default();
    assert!(apply_control(&mut w, &msg).is_err());
}

#[test]
fn halt_is_no_entry_gate_and_resume_clears_it() {
    let mut w = MockWorker::default();
    apply_control(&mut w, &ControlMsg::Halt { asset: "BTC".to_string(), strategy: None }).unwrap();
    assert!(w.suppressed.contains("BTC"));
    apply_control(&mut w, &ControlMsg::Resume { asset: "BTC".to_string(), strategy: None })
        .unwrap();
    assert!(!w.suppressed.contains("BTC"));
}

#[test]
fn global_halt_and_resume() {
    let mut w = MockWorker::default();
    apply_control(&mut w, &ControlMsg::Halt { asset: "".to_string(), strategy: None }).unwrap();
    assert!(w.suppressed.contains("*"));
    apply_control(&mut w, &ControlMsg::Resume { asset: "".to_string(), strategy: None }).unwrap();
    assert!(w.suppressed.is_empty());
}

#[test]
fn strategy_scoped_halt_leaves_other_strategy_running() {
    let cmd = parse_command("/halt eth high_prob").unwrap();
    let msg = command_to_control(&cmd).unwrap();
    let mut w = MockWorker::default();
    apply_control(&mut w, &msg).unwrap();
    assert!(w.suppressed.contains("ETH:high_prob"));
    assert!(!w.suppressed.contains("ETH:reversal"));

    let resume_cmd = parse_command("/resume eth high_prob").unwrap();
    let resume_msg = command_to_control(&resume_cmd).unwrap();
    apply_control(&mut w, &resume_msg).unwrap();
    assert!(!w.suppressed.contains("ETH:high_prob"));
}

#[test]
fn set_strategies_routes_correctly() {
    let cmd = parse_command("/strategies ETH high_prob,reversal").unwrap();
    let msg = command_to_control(&cmd).unwrap();
    let mut w = MockWorker::default();
    apply_control(&mut w, &msg).unwrap();
    assert_eq!(
        w.strategies.get("ETH"),
        Some(&vec!["high_prob".to_string(), "reversal".to_string()])
    );
}

#[test]
fn reset_losses_routes_correctly() {
    let cmd = parse_command("/reset_losses DOGE").unwrap();
    let msg = command_to_control(&cmd).unwrap();
    let mut w = MockWorker::default();
    apply_control(&mut w, &msg).unwrap();
    assert_eq!(w.losses_reset, vec!["DOGE".to_string()]);
}

#[test]
fn display_only_commands_produce_no_control_msg() {
    assert_eq!(command_to_control(&Command::Status), None);
    assert_eq!(command_to_control(&Command::Params), None);
    assert_eq!(command_to_control(&Command::Help), None);
    assert_eq!(command_to_control(&Command::Invalid("x".to_string())), None);
}

#[test]
fn delta_set_maps_to_correct_param_name() {
    let cmd = parse_command("/delta rev BTC 0.0005").unwrap();
    let msg = command_to_control(&cmd).unwrap();
    assert_eq!(
        msg,
        ControlMsg::SetParam {
            param: "delta_pct_rev".to_string(),
            key: "BTC".to_string(),
            value: "0.0005".to_string()
        }
    );
}

#[test]
fn trade_assets_set_joins_into_default_key() {
    let cmd = Command::TradeAssetsSet(vec!["BTC".to_string(), "ETH".to_string()]);
    let msg = command_to_control(&cmd).unwrap();
    assert_eq!(
        msg,
        ControlMsg::SetParam {
            param: "trade_assets".to_string(),
            key: "default".to_string(),
            value: "BTC,ETH".to_string()
        }
    );
}

#[test]
fn numbers_are_read_or_refused() {
    assert_eq!(parse_f64("0.25", &reader()), Ok(n(0.25)));
    assert_eq!(parse_f64("x", &reader()).unwrap_err().message, "not a number: x");
    assert_eq!(parse_i64("-12"), Ok(-12));
    assert_eq!(parse_i64("9223372036854775807"), Ok(i64::MAX));
    assert_eq!(parse_i64("9223372036854775808").unwrap_err().message, "not an integer: 9223372036854775808");
    assert_eq!(parse_i64("1.5").unwrap_err().message, "not an integer: 1.5");
}
