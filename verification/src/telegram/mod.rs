//! The control plane over chat: who may speak, and what a message brings about.

use vstd::prelude::*;
use vstd::string::StringExecFns;

use crate::telegram::commands::{command_of, opt_view, parse_command, Command, CommandView};
use crate::telegram::control::{
    command_to_control, control_of, control_view, ControlMsg,
};
use crate::telegram::render::{help_text, HELP_TEXT};
use crate::text::{join, joined, words};

pub mod commands;
pub mod control;
pub mod render;

verus! {

/// Who may speak to the bot.
#[derive(Clone, Debug)]
pub struct AuthConfig {
    pub token: String,
    /// Zero while it is not known: nobody may speak.
    pub chat_id: i64,
    /// Zero lets every user of the chat speak.
    pub user_id: i64,
}

impl AuthConfig {
    /// A message from there may be acted on. A sender that is not known (zero) passes for
    /// any user.
    pub open spec fn listens_to(self, chat_id: i64, from_id: i64) -> bool {
        self.chat_id != 0 && chat_id == self.chat_id && (self.user_id == 0 || from_id == 0
            || from_id == self.user_id)
    }

    /// Whether a message may be acted on.
    pub fn is_authorized(&self, chat_id: i64, from_id: i64) -> (r: bool)
        ensures
            r == self.listens_to(chat_id, from_id),
    {
        if self.chat_id == 0 {
            return false;
        }
        if chat_id != self.chat_id {
            return false;
        }
        if self.user_id != 0 && from_id != 0 && from_id != self.user_id {
            return false;
        }
        true
    }
}

/// What a message brings about: a change, an answer, or both.
pub struct Dispatch {
    pub control: Option<ControlMsg>,
    pub reply: Option<String>,
}

pub open spec fn scope_text(asset: Seq<char>) -> Seq<char> {
    if asset.len() == 0 {
        "all assets"@
    } else {
        asset
    }
}

/// The answer to a command. A command that shows something is answered from the live
/// state, not here.
pub open spec fn reply_of(cmd: CommandView) -> Option<Seq<char>> {
    match cmd {
        CommandView::Help => Some(HELP_TEXT@),
        CommandView::Invalid(text) => Some(text),
        CommandView::SetParam { param, key, value } => Some(
            "✅ Sent: set "@ + param + "["@ + key + "] = "@ + value,
        ),
        CommandView::Halt { asset, .. } => Some("🛑 Sent halt for "@ + scope_text(asset)),
        CommandView::Resume { asset, .. } => Some("▶️ Sent resume for "@ + scope_text(asset)),
        CommandView::ResetLosses { asset } => Some("🔄 reset_losses sent for "@ + scope_text(asset)),
        CommandView::StrategiesSet { asset, strategies } => Some(
            "✅ Sent: "@ + asset + " strategies = "@ + joined(strategies, ", "@),
        ),
        CommandView::TradeAssetsSet(assets) => Some(
            "✅ Sent: trade_assets = "@ + joined(assets, ","@),
        ),
        CommandView::DeltaSet { key, value, .. } => Some(
            "✅ Sent: set delta["@ + key + "] = "@ + value,
        ),
        _ => None,
    }
}

fn scoped(start: &str, asset: &String) -> (r: String)
    ensures
        r@ == start@ + scope_text(asset@),
{
    let mut text = start.to_owned();
    if asset.as_str().is_empty() {
        text.append("all assets");
    } else {
        text.append(asset.as_str());
    }
    text
}

/// The answer to a command.
pub fn reply_to(cmd: &Command) -> (r: Option<String>)
    ensures
        opt_view(r) == reply_of(cmd@),
{
    match cmd {
        Command::Help => Some(help_text()),
        Command::Invalid(text) => Some(text.clone()),
        Command::SetParam { param, key, value } => {
            let mut text = "✅ Sent: set ".to_owned();
            text.append(param.as_str());
            text.append("[");
            text.append(key.as_str());
            text.append("] = ");
            text.append(value.as_str());
            Some(text)
        },
        Command::Halt { asset, .. } => Some(scoped("🛑 Sent halt for ", asset)),
        Command::Resume { asset, .. } => Some(scoped("▶️ Sent resume for ", asset)),
        Command::ResetLosses { asset } => Some(scoped("🔄 reset_losses sent for ", asset)),
        Command::StrategiesSet { asset, strategies } => {
            let mut text = "✅ Sent: ".to_owned();
            text.append(asset.as_str());
            text.append(" strategies = ");
            text.append(join(strategies, ", ").as_str());
            Some(text)
        },
        Command::TradeAssetsSet(assets) => {
            let mut text = "✅ Sent: trade_assets = ".to_owned();
            text.append(join(assets, ",").as_str());
            Some(text)
        },
        Command::DeltaSet { key, value, .. } => {
            let mut text = "✅ Sent: set delta[".to_owned();
            text.append(key.as_str());
            text.append("] = ");
            text.append(value.as_str());
            Some(text)
        },
        _ => None,
    }
}

/// What a message brings about; nothing when it holds only white space.
pub fn dispatch(text: &str) -> (r: Option<Dispatch>)
    ensures
        match r {
            None => words(text@).len() == 0,
            Some(d) => {
                &&& words(text@).len() > 0
                &&& control_view(d.control) == control_of(command_of(words(text@)))
                &&& opt_view(d.reply) == reply_of(command_of(words(text@)))
            },
        },
{
    match parse_command(text) {
        None => None,
        Some(cmd) => {
            let control = command_to_control(&cmd);
            let reply = reply_to(&cmd);
            Some(Dispatch { control, reply })
        },
    }
}

/// A message that may be acted on.
#[derive(Clone, Debug)]
pub struct IncomingMessage {
    pub text: String,
    pub chat_id: i64,
    pub from_id: i64,
}

/// What a poll brings: an update may lack a message, a message its text or its sender.
#[derive(Clone, Debug)]
pub struct ChatUpdate {
    pub update_id: i64,
    pub message: Option<ChatMessage>,
}

#[derive(Clone, Debug)]
pub struct ChatMessage {
    pub text: Option<String>,
    pub chat_id: i64,
    pub from_id: Option<i64>,
}

/// The sender of a message, zero when it is not known.
pub open spec fn sender(m: ChatMessage) -> i64 {
    match m.from_id {
        Some(id) => id,
        None => 0,
    }
}

/// The message of an update that may be acted on.
pub open spec fn taken(auth: AuthConfig, u: ChatUpdate) -> Option<IncomingMessage> {
    match u.message {
        Some(m) => match m.text {
            Some(text) => if auth.listens_to(m.chat_id, sender(m)) {
                Some(IncomingMessage { text, chat_id: m.chat_id, from_id: sender(m) })
            } else {
                None
            },
            None => None,
        },
        None => None,
    }
}

/// The messages of the updates that may be acted on, in their order.
pub open spec fn all_taken(auth: AuthConfig, updates: Seq<ChatUpdate>) -> Seq<IncomingMessage>
    decreases updates.len(),
{
    if updates.len() == 0 {
        Seq::empty()
    } else {
        let before = all_taken(auth, updates.drop_last());
        match taken(auth, updates.last()) {
            Some(m) => before.push(m),
            None => before,
        }
    }
}

/// Takes what a poll brought. The next poll starts behind the last update, also where that
/// one was passed over.
pub fn take_updates(auth: &AuthConfig, offset: &mut i64, updates: &Vec<ChatUpdate>) -> (r: Vec<
    IncomingMessage,
>)
    requires
        forall|i: int| 0 <= i < updates@.len() ==> (#[trigger] updates@[i]).update_id < i64::MAX,
    ensures
        r@ == all_taken(*auth, updates@),
        *final(offset) == if updates@.len() == 0 {
            *old(offset) as int
        } else {
            updates@.last().update_id + 1
        },
{
    let mut out: Vec<IncomingMessage> = Vec::new();
    let mut i: usize = 0;
    while i < updates.len()
        invariant
            i <= updates@.len(),
            forall|k: int|
                0 <= k < updates@.len() ==> (#[trigger] updates@[k]).update_id < i64::MAX,
            out@ == all_taken(*auth, updates@.take(i as int)),
            *offset == if i == 0 {
                *old(offset) as int
            } else {
                updates@[i - 1].update_id + 1
            },
        decreases updates@.len() - i,
    {
        let u = &updates[i];
        assert(updates@.take(i + 1).drop_last() =~= updates@.take(i as int));
        *offset = u.update_id + 1;
        if let Some(m) = &u.message {
            if let Some(text) = &m.text {
                let from_id: i64 = match m.from_id {
                    Some(id) => id,
                    None => 0,
                };
                if auth.is_authorized(m.chat_id, from_id) {
                    out.push(IncomingMessage { text: text.clone(), chat_id: m.chat_id, from_id });
                }
            }
        }
        i = i + 1;
    }
    assert(updates@.take(i as int) =~= updates@);
    out
}

/// Nothing is taken from a chat that is not the bot's, nor while the bot has none.
pub proof fn strangers_are_not_heard(auth: AuthConfig, updates: Seq<ChatUpdate>, i: int)
    requires
        0 <= i < all_taken(auth, updates).len(),
    ensures
        auth.chat_id != 0,
        all_taken(auth, updates)[i].chat_id == auth.chat_id,
    decreases updates.len(),
{
    if i < all_taken(auth, updates.drop_last()).len() {
        strangers_are_not_heard(auth, updates.drop_last(), i);
    }
}

/// Every command that changes something is also answered.
pub proof fn change_is_answered(cmd: CommandView)
    ensures
        control_of(cmd) is Some ==> reply_of(cmd) is Some,
{
}

} // verus!
