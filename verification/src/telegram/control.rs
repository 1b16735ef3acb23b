//! Control messages: what a command changes.

use vstd::prelude::*;
use vstd::string::StringExecFns;

use crate::num::{Num, Reader};
use crate::telegram::commands::{opt_view, Command, CommandView, DeltaStrat};
use crate::text::{copy_texts, join, joined, parse_signed, signed_of, views};

verus! {

/// A change to a worker. An empty asset means all assets, no strategy all strategies.
#[derive(Clone, Debug, PartialEq)]
pub enum ControlMsg {
    SetParam { param: String, key: String, value: String },
    SetStrategies { asset: String, strategies: Vec<String> },
    ResetLosses { asset: String },
    Halt { asset: String, strategy: Option<String> },
    Resume { asset: String, strategy: Option<String> },
}

/// A change by the characters of its parts.
pub enum ControlView {
    SetParam { param: Seq<char>, key: Seq<char>, value: Seq<char> },
    SetStrategies { asset: Seq<char>, strategies: Seq<Seq<char>> },
    ResetLosses { asset: Seq<char> },
    Halt { asset: Seq<char>, strategy: Option<Seq<char>> },
    Resume { asset: Seq<char>, strategy: Option<Seq<char>> },
}

impl View for ControlMsg {
    type V = ControlView;

    open spec fn view(&self) -> ControlView {
        match *self {
            ControlMsg::SetParam { param, key, value } => ControlView::SetParam {
                param: param@,
                key: key@,
                value: value@,
            },
            ControlMsg::SetStrategies { asset, strategies } => ControlView::SetStrategies {
                asset: asset@,
                strategies: views(strategies@),
            },
            ControlMsg::ResetLosses { asset } => ControlView::ResetLosses { asset: asset@ },
            ControlMsg::Halt { asset, strategy } => ControlView::Halt {
                asset: asset@,
                strategy: opt_view(strategy),
            },
            ControlMsg::Resume { asset, strategy } => ControlView::Resume {
                asset: asset@,
                strategy: opt_view(strategy),
            },
        }
    }
}

/// The change that a command asks for; a command that only shows something asks for none.
pub open spec fn control_of(cmd: CommandView) -> Option<ControlView> {
    match cmd {
        CommandView::SetParam { param, key, value } => Some(
            ControlView::SetParam { param, key, value },
        ),
        CommandView::DeltaSet { strat, key, value } => Some(
            ControlView::SetParam {
                param: match strat {
                    DeltaStrat::HighProb => "delta_pct_hp"@,
                    DeltaStrat::Reversal => "delta_pct_rev"@,
                },
                key,
                value,
            },
        ),
        CommandView::TradeAssetsSet(assets) => Some(
            ControlView::SetParam {
                param: "trade_assets"@,
                key: "default"@,
                value: joined(assets, ","@),
            },
        ),
        CommandView::StrategiesSet { asset, strategies } => Some(
            ControlView::SetStrategies { asset, strategies },
        ),
        CommandView::ResetLosses { asset } => Some(ControlView::ResetLosses { asset }),
        CommandView::Halt { asset, strategy } => Some(ControlView::Halt { asset, strategy }),
        CommandView::Resume { asset, strategy } => Some(ControlView::Resume { asset, strategy }),
        _ => None,
    }
}

pub open spec fn control_view(c: Option<ControlMsg>) -> Option<ControlView> {
    match c {
        Some(m) => Some(m@),
        None => None,
    }
}

fn copy_opt(t: &Option<String>) -> (r: Option<String>)
    ensures
        r == *t,
{
    match t {
        Some(s) => Some(s.clone()),
        None => None,
    }
}

/// The change that a command asks for.
pub fn command_to_control(cmd: &Command) -> (r: Option<ControlMsg>)
    ensures
        control_view(r) == control_of(cmd@),
{
    match cmd {
        Command::SetParam { param, key, value } => Some(
            ControlMsg::SetParam { param: param.clone(), key: key.clone(), value: value.clone() },
        ),
        Command::DeltaSet { strat, key, value } => {
            let param = match strat {
                DeltaStrat::HighProb => "delta_pct_hp",
                DeltaStrat::Reversal => "delta_pct_rev",
            };
            Some(
                ControlMsg::SetParam {
                    param: param.to_owned(),
                    key: key.clone(),
                    value: value.clone(),
                },
            )
        },
        Command::TradeAssetsSet(assets) => Some(
            ControlMsg::SetParam {
                param: "trade_assets".to_owned(),
                key: "default".to_owned(),
                value: join(assets, ","),
            },
        ),
        Command::StrategiesSet { asset, strategies } => Some(
            ControlMsg::SetStrategies {
                asset: asset.clone(),
                strategies: copy_texts(strategies),
            },
        ),
        Command::ResetLosses { asset } => Some(ControlMsg::ResetLosses { asset: asset.clone() }),
        Command::Halt { asset, strategy } => Some(
            ControlMsg::Halt { asset: asset.clone(), strategy: copy_opt(strategy) },
        ),
        Command::Resume { asset, strategy } => Some(
            ControlMsg::Resume { asset: asset.clone(), strategy: copy_opt(strategy) },
        ),
        _ => None,
    }
}

/// Why a change was refused.
#[derive(Clone, Debug, PartialEq)]
pub struct ControlError {
    pub message: String,
}

/// What a worker lets the control plane change. A halt only keeps the worker from entering;
/// it closes nothing. Each method has a relation that says what it does to the worker; a
/// worker that states none is free to do anything.
pub trait ControlTarget: Sized {
    open spec fn sets_param(
        before: Self,
        after: Self,
        param: Seq<char>,
        key: Seq<char>,
        value: Seq<char>,
        result: Result<(), ControlError>,
    ) -> bool {
        true
    }

    open spec fn sets_strategies(
        before: Self,
        after: Self,
        asset: Seq<char>,
        strategies: Seq<Seq<char>>,
    ) -> bool {
        true
    }

    open spec fn resets_losses(before: Self, after: Self, asset: Seq<char>) -> bool {
        true
    }

    open spec fn halts(before: Self, after: Self, asset: Seq<char>, strategy: Option<Seq<char>>) -> bool {
        true
    }

    open spec fn resumes(
        before: Self,
        after: Self,
        asset: Seq<char>,
        strategy: Option<Seq<char>>,
    ) -> bool {
        true
    }

    fn set_param(&mut self, param: &str, key: &str, value: &str) -> (r: Result<(), ControlError>)
        ensures
            Self::sets_param(*old(self), *final(self), param@, key@, value@, r),
    ;

    fn set_strategies(&mut self, asset: &str, strategies: &Vec<String>)
        ensures
            Self::sets_strategies(*old(self), *final(self), asset@, views(strategies@)),
    ;

    fn reset_losses(&mut self, asset: &str)
        ensures
            Self::resets_losses(*old(self), *final(self), asset@),
    ;

    fn halt(&mut self, asset: &str, strategy: Option<&str>)
        ensures
            Self::halts(*old(self), *final(self), asset@, str_view(strategy)),
    ;

    fn resume(&mut self, asset: &str, strategy: Option<&str>)
        ensures
            Self::resumes(*old(self), *final(self), asset@, str_view(strategy)),
    ;
}

pub open spec fn str_view(t: Option<&str>) -> Option<Seq<char>> {
    match t {
        Some(s) => Some(s@),
        None => None,
    }
}

/// The message was carried out: the one method that it names was called with its parts.
pub open spec fn carried_out<T: ControlTarget>(
    before: T,
    after: T,
    msg: ControlView,
    result: Result<(), ControlError>,
) -> bool {
    match msg {
        ControlView::SetParam { param, key, value } => T::sets_param(
            before,
            after,
            param,
            key,
            value,
            result,
        ),
        ControlView::SetStrategies { asset, strategies } => result is Ok && T::sets_strategies(
            before,
            after,
            asset,
            strategies,
        ),
        ControlView::ResetLosses { asset } => result is Ok && T::resets_losses(
            before,
            after,
            asset,
        ),
        ControlView::Halt { asset, strategy } => result is Ok && T::halts(
            before,
            after,
            asset,
            strategy,
        ),
        ControlView::Resume { asset, strategy } => result is Ok && T::resumes(
            before,
            after,
            asset,
            strategy,
        ),
    }
}

fn as_ref_text(t: &Option<String>) -> (r: Option<&str>)
    ensures
        str_view(r) == opt_view(*t),
{
    match t {
        Some(s) => Some(s.as_str()),
        None => None,
    }
}

/// Carries out a message. Only a parameter can be refused.
pub fn apply_control<T: ControlTarget>(target: &mut T, msg: &ControlMsg) -> (r: Result<
    (),
    ControlError,
>)
    ensures
        carried_out(*old(target), *final(target), msg@, r),
{
    match msg {
        ControlMsg::SetParam { param, key, value } => target.set_param(
            param.as_str(),
            key.as_str(),
            value.as_str(),
        ),
        ControlMsg::SetStrategies { asset, strategies } => {
            target.set_strategies(asset.as_str(), strategies);
            Ok(())
        },
        ControlMsg::ResetLosses { asset } => {
            target.reset_losses(asset.as_str());
            Ok(())
        },
        ControlMsg::Halt { asset, strategy } => {
            target.halt(asset.as_str(), as_ref_text(strategy));
            Ok(())
        },
        ControlMsg::Resume { asset, strategy } => {
            target.resume(asset.as_str(), as_ref_text(strategy));
            Ok(())
        },
    }
}

/// Reads a number.
pub fn parse_f64<P: Fn(String) -> Option<Num>>(value: &str, reader: &Reader<P>) -> (r: Result<
    Num,
    ControlError,
>)
    ensures
        match r {
            Ok(x) => (reader@)(value@) == Some(x),
            Err(e) => (reader@)(value@) is None && e.message@ == "not a number: "@ + value@,
        },
{
    match reader.read(value.to_owned()) {
        Some(x) => Ok(x),
        None => {
            let mut message = "not a number: ".to_owned();
            message.append(value);
            Err(ControlError { message })
        },
    }
}

/// Reads an integer.
pub fn parse_i64(value: &str) -> (r: Result<i64, ControlError>)
    ensures
        match r {
            Ok(x) => signed_of(value@) == Some(x as int),
            Err(e) => signed_of(value@) is None && e.message@ == "not an integer: "@ + value@,
        },
{
    match parse_signed(value) {
        Some(x) => Ok(x),
        None => {
            let mut message = "not an integer: ".to_owned();
            message.append(value);
            Err(ControlError { message })
        },
    }
}

} // verus!
