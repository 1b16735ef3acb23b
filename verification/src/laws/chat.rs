//! Whom the bot hears, what it takes a message for, and what it then changes.

use vstd::prelude::*;

use crate::telegram::commands::{
    command_of, known_strategy, per_asset, resolve_alias, settable, CommandView, DeltaStrat,
};
use crate::telegram::control::{control_of, parse_f64, ControlError, ControlView};
use crate::telegram::{all_taken, take_updates, taken, AuthConfig, ChatUpdate, IncomingMessage};
use crate::num::{Num, Reader};
use crate::text::{
    after_last, is_white, joined, lowercase, same_but_for_case, same_letter, small_letter,
    split_words, stands_at, trimmed, trimmed_back, trimmed_front, unsigned_of, uppercase, views,
    words, words_from,
};

verus! {

// ── Who is heard ────────────────────────────────────────────────────────────

/// A message is acted on exactly when the bot has a chat, the message is from that chat, and the
/// bot has no user, or the sender is not known, or the sender is that user.
pub proof fn bot_hears_its_chat(auth: AuthConfig, chat_id: i64, from_id: i64)
    ensures
        forall|r: bool| #[trigger]
            call_ensures(AuthConfig::is_authorized, (&auth, chat_id, from_id), r) ==> (r
                <==> auth.chat_id != 0 && chat_id == auth.chat_id && (auth.user_id == 0 || from_id
                == 0 || from_id == auth.user_id)),
{
}

/// A message in a poll that the bot hears.
pub open spec fn heard(auth: AuthConfig, u: ChatUpdate, m: IncomingMessage) -> bool {
    let sender: i64 = if u.message->0.from_id is Some {
        u.message->0.from_id->0
    } else {
        0
    };
    &&& u.message is Some
    &&& u.message->0.text is Some
    &&& m.text == u.message->0.text->0
    &&& m.chat_id == u.message->0.chat_id
    &&& m.from_id == sender
    &&& auth.chat_id != 0
    &&& m.chat_id == auth.chat_id
    &&& auth.user_id == 0 || sender == 0 || sender == auth.user_id
}

proof fn taking_is_hearing(auth: AuthConfig, u: ChatUpdate, m: IncomingMessage)
    ensures
        taken(auth, u) == Some(m) <==> heard(auth, u, m),
{
}

/// A poll gives exactly the messages that the bot hears.
pub proof fn poll_gives_what_is_heard(auth: AuthConfig, updates: Seq<ChatUpdate>, m: IncomingMessage)
    ensures
        all_taken(auth, updates).contains(m) <==> exists|i: int|
            0 <= i < updates.len() && heard(auth, #[trigger] updates[i], m),
    decreases updates.len(),
{
    if updates.len() > 0 {
        let rest = updates.drop_last();
        let before = all_taken(auth, rest);
        let all = all_taken(auth, updates);
        poll_gives_what_is_heard(auth, rest, m);
        taking_is_hearing(auth, updates.last(), m);
        let n = updates.len() - 1;
        assert(updates[n] == updates.last());
        if before.contains(m) {
            let k = choose|k: int| 0 <= k < before.len() && before[k] == m;
            assert(all[k] == m);
            let i = choose|i: int| 0 <= i < rest.len() && heard(auth, #[trigger] rest[i], m);
            assert(heard(auth, updates[i], m));
        }
        if heard(auth, updates.last(), m) {
            assert(all.last() == m);
        }
        if all.contains(m) {
            let k = choose|k: int| 0 <= k < all.len() && all[k] == m;
            if k < before.len() {
                assert(before[k] == m);
            }
        }
        if exists|i: int| 0 <= i < updates.len() && heard(auth, #[trigger] updates[i], m) {
            let i = choose|i: int| 0 <= i < updates.len() && heard(auth, #[trigger] updates[i], m);
            if i < n {
                assert(rest[i] == updates[i]);
            }
        }
    }
}

/// The next poll begins right behind the last update, and where it was without one.
pub proof fn next_poll_begins_behind(auth: AuthConfig, updates: Vec<ChatUpdate>)
    ensures
        forall|offset: &mut i64, r: Vec<IncomingMessage>| #[trigger]
            call_ensures(take_updates, (&auth, offset, &updates), r) ==> {
                &&& updates@.len() == 0 ==> *final(offset) == *offset && r@.len() == 0
                &&& updates@.len() > 0 ==> *final(offset) == updates@[updates@.len() - 1].update_id
                    + 1
                &&& r@.len() <= updates@.len()
            },
{
    no_more_than_came(auth, updates@);
}

proof fn no_more_than_came(auth: AuthConfig, updates: Seq<ChatUpdate>)
    ensures
        all_taken(auth, updates).len() <= updates.len(),
    decreases updates.len(),
{
    if updates.len() > 0 {
        no_more_than_came(auth, updates.drop_last());
    }
}

// ── Words ───────────────────────────────────────────────────────────────────

/// A text without white space in it, and not empty.
pub open spec fn is_word(w: Seq<char>) -> bool {
    w.len() > 0 && forall|i: int| 0 <= i < w.len() ==> !is_white(#[trigger] w[i])
}

proof fn words_are_words(s: Seq<char>, start: int, from: int)
    requires
        0 <= start <= from <= s.len(),
        forall|i: int| start <= i < from ==> !is_white(#[trigger] s[i]),
    ensures
        forall|k: int| 0 <= k < words_from(s, start, from).len() ==> is_word(
            #[trigger] words_from(s, start, from)[k],
        ),
        words_from(s, start, from).len() == 0 ==> start == from && forall|i: int|
            from <= i < s.len() ==> is_white(#[trigger] s[i]),
    decreases s.len() - from,
{
    if from < s.len() {
        if is_white(s[from]) {
            words_are_words(s, from + 1, from + 1);
        } else {
            words_are_words(s, start, from + 1);
        }
    }
    let w = s.subrange(start, from);
    assert forall|i: int| 0 <= i < w.len() implies !is_white(#[trigger] w[i]) by {
        assert(w[i] == s[start + i]);
    }
}

/// The words of a text hold no white space, and a text has none exactly when it is all white.
pub proof fn words_hold_no_white_space(text: &str)
    ensures
        forall|r: Vec<String>| #[trigger]
            call_ensures(split_words, (text,), r) ==> {
                &&& forall|k: int| 0 <= k < r@.len() ==> is_word(#[trigger] views(r@)[k])
                &&& r@.len() == 0 ==> forall|i: int|
                    0 <= i < text@.len() ==> is_white(#[trigger] text@[i])
            },
{
    words_are_words(text@, 0, 0);
    assert forall|r: Vec<String>| #[trigger] call_ensures(split_words, (text,), r) implies {
        &&& forall|k: int| 0 <= k < r@.len() ==> is_word(#[trigger] views(r@)[k])
        &&& r@.len() == 0 ==> forall|i: int| 0 <= i < text@.len() ==> is_white(#[trigger] text@[i])
    } by {
        assert(views(r@) == words(text@));
        assert(views(r@).len() == r@.len());
    }
}

// ── Commands ────────────────────────────────────────────────────────────────

/// The asset that the second word names, none when there is no second word.
pub open spec fn named_asset(p: Seq<Seq<char>>) -> Seq<char> {
    if p.len() > 1 {
        uppercase(p[1])
    } else {
        Seq::empty()
    }
}

/// A halt, a resume and a reset come from the words of their names, for the asset that the second
/// word names in capital letters and the strategy that the third names, where there is one.
pub proof fn halts_name_asset_and_strategy(p: Seq<Seq<char>>)
    requires
        p.len() > 0,
    ensures
        ({
            let c = command_of(p);
            let word = lowercase(p[0]);
            &&& c is Halt ==> word == "/halt"@ && c->Halt_asset == named_asset(p)
            &&& c is Resume ==> word == "/resume"@ && c->Resume_asset == named_asset(p)
            &&& c is ResetLosses ==> word == "/reset_losses"@ && c->ResetLosses_asset
                == named_asset(p)
            &&& c is Halt ==> (c->Halt_strategy is Some <==> p.len() > 2) && (p.len() > 2
                ==> c->Halt_strategy->0 == p[2])
            &&& c is Resume ==> (c->Resume_strategy is Some <==> p.len() > 2) && (p.len() > 2
                ==> c->Resume_strategy->0 == p[2])
            &&& c is Status ==> word == "/status"@
            &&& c is Params ==> word == "/params"@
            &&& c is Help ==> word == "/help"@ || word == "/start"@
        }),
{
}

proof fn names_of_commands()
    ensures
        "/trade_hist"@.len() == 11 && "/assets"@.len() == 7 && "/trade_assets"@.len() == 13,
        "/strategies"@.len() == 11 && "/markets"@.len() == 8 && "/delta"@.len() == 6,
        "/recon_today"@.len() == 12 && "/warning_analysis"@.len() == 17 && "/sys"@.len() == 4,
        "/last"@.len() == 5 && "/live_log"@.len() == 9 && "/skipped_log"@.len() == 12,
        "/status"@.len() == 7 && "/params"@.len() == 7 && "/set"@.len() == 4,
        "/reset_losses"@.len() == 13 && "/halt"@.len() == 5 && "/resume"@.len() == 7,
        "/assets"@[1] == 'a' && "/status"@[1] == 's' && "/params"@[1] == 'p' && "/resume"@[1] == 'r',
        "/trade_assets"@[1] == 't' && "/reset_losses"@[1] == 'r',
        "/halt"@[1] == 'h' && "/last"@[1] == 'l',
        "/sys"@[2] == 'y' && "/set"@[2] == 'e',
        "/live_log"@[1] == 'l' && "/skipped_log"@[1] == 's' && "/skipped_log"@[2] == 'k',
        "/recon_today"@[1] == 'r' && "/status"@[2] == 't' && "/reset_losses"@[2] == 'e',
{
    reveal_strlit("/trade_hist");
    reveal_strlit("/assets");
    reveal_strlit("/trade_assets");
    reveal_strlit("/strategies");
    reveal_strlit("/markets");
    reveal_strlit("/delta");
    reveal_strlit("/recon_today");
    reveal_strlit("/warning_analysis");
    reveal_strlit("/sys");
    reveal_strlit("/last");
    reveal_strlit("/live_log");
    reveal_strlit("/skipped_log");
    reveal_strlit("/status");
    reveal_strlit("/params");
    reveal_strlit("/set");
    reveal_strlit("/reset_losses");
    reveal_strlit("/halt");
    reveal_strlit("/resume");
}

proof fn does_not_begin(s: Seq<char>, pattern: Seq<char>, i: int)
    requires
        0 <= i < pattern.len(),
        i < s.len() ==> s[i] != pattern[i],
    ensures
        !stands_at(s, pattern, 0),
{
    if stands_at(s, pattern, 0) {
        assert(s.subrange(0, pattern.len() as int)[i] == pattern[i]);
    }
}

/// The words `/halt`, `/resume` and `/reset_losses`, in whatever case, halt, resume and reset,
/// and `/status` asks for the status.
pub proof fn control_words_control(p: Seq<Seq<char>>)
    requires
        p.len() > 0,
    ensures
        lowercase(p[0]) == "/halt"@ ==> command_of(p) is Halt,
        lowercase(p[0]) == "/resume"@ ==> command_of(p) is Resume,
        lowercase(p[0]) == "/reset_losses"@ ==> command_of(p) is ResetLosses,
        lowercase(p[0]) == "/status"@ ==> command_of(p) is Status,
{
    names_of_commands();
    let w = lowercase(p[0]);
    if w == "/halt"@ {
        does_not_begin(w, "/last"@, 1);
        does_not_begin(w, "/live_log"@, 1);
        does_not_begin(w, "/skipped_log"@, 1);
    } else if w == "/resume"@ || w == "/reset_losses"@ {
        does_not_begin(w, "/last"@, 1);
        does_not_begin(w, "/live_log"@, 1);
        does_not_begin(w, "/skipped_log"@, 1);
    } else if w == "/status"@ {
        does_not_begin(w, "/last"@, 1);
        does_not_begin(w, "/live_log"@, 1);
        does_not_begin(w, "/skipped_log"@, 2);
    }
}

/// A parameter is set only by `/set`, under its proper name, when it can be set at all. For one
/// asset, in capital letters, when the parameter has values for assets and four words came; else
/// for all, to the third word.
pub proof fn set_names_parameter_and_value(p: Seq<Seq<char>>)
    requires
        p.len() > 0,
    ensures
        ({
            let c = command_of(p);
            c is SetParam ==> {
                &&& lowercase(p[0]) == "/set"@
                &&& p.len() >= 3
                &&& settable().contains(c->SetParam_param)
                &&& forall|r: String, w: &str|
                    w@ == lowercase(p[1]) && #[trigger] call_ensures(resolve_alias, (w,), r) ==> r@
                        == c->SetParam_param
                &&& per_asset().contains(c->SetParam_param) && p.len() == 4 ==> c->SetParam_key
                    == uppercase(p[2]) && c->SetParam_value == p[3]
                &&& !per_asset().contains(c->SetParam_param) || p.len() != 4 ==> c->SetParam_key
                    == "default"@ && c->SetParam_value == p[2]
            }
        }),
        ({
            let c = command_of(p);
            c is DeltaSet ==> {
                &&& lowercase(p[0]) == "/delta"@
                &&& p.len() >= 3
                &&& c->DeltaSet_strat == DeltaStrat::HighProb ==> lowercase(p[1]) == "hp"@
                &&& c->DeltaSet_strat == DeltaStrat::Reversal ==> lowercase(p[1]) == "rev"@
                &&& p.len() == 4 ==> c->DeltaSet_key == uppercase(p[2]) && c->DeltaSet_value == p[3]
                &&& p.len() != 4 ==> c->DeltaSet_key == "default"@ && c->DeltaSet_value == p[2]
            }
        }),
{
}

/// A list of lines is as long as the second word says, when that is a number, else of a set
/// length.
pub proof fn lists_have_their_length(p: Seq<Seq<char>>)
    requires
        p.len() > 0,
    ensures
        ({
            let c = command_of(p);
            let told = p.len() > 1 && unsigned_of(p[1]) is Some && unsigned_of(p[1])->0
                <= usize::MAX;
            &&& c is Last ==> stands_at(lowercase(p[0]), "/last"@, 0) && c->Last_0 == if told {
                unsigned_of(p[1])->0 as usize
            } else {
                20
            }
            &&& c is LiveLog ==> stands_at(lowercase(p[0]), "/live_log"@, 0) && c->LiveLog_0
                == if told {
                unsigned_of(p[1])->0 as usize
            } else {
                40
            }
            &&& c is SkippedLog ==> stands_at(lowercase(p[0]), "/skipped_log"@, 0)
                && c->SkippedLog_0 == if told {
                unsigned_of(p[1])->0 as usize
            } else {
                40
            }
        }),
{
}

/// Strategies are set for the asset that the second word names, and only to known ones.
pub proof fn only_known_strategies_are_set(p: Seq<Seq<char>>)
    requires
        p.len() > 0,
    ensures
        ({
            let c = command_of(p);
            c is StrategiesSet ==> {
                &&& lowercase(p[0]) == "/strategies"@
                &&& p.len() >= 3
                &&& c->StrategiesSet_asset == uppercase(p[1])
                &&& forall|i: int|
                    0 <= i < c->strategies.len() ==> {
                        ||| #[trigger] c->strategies[i] == "high_prob"@
                        ||| c->strategies[i] == "reversal"@
                    }
            }
        }),
{
    let c = command_of(p);
    if c is StrategiesSet {
        let names = c->strategies;
        let unknown = names.filter(
            |n: Seq<char>| !known_strategy(n),
        );
        assert(unknown.len() == 0);
        assert forall|i: int| 0 <= i < names.len() implies {
            ||| #[trigger] names[i] == "high_prob"@
            ||| names[i] == "reversal"@
        } by {
            if !known_strategy(names[i]) {
                filter_keeps(
                    names,
                    |n: Seq<char>| !known_strategy(n),
                    i,
                );
            }
        }
    }
}

proof fn filter_keeps<T>(s: Seq<T>, keep: spec_fn(T) -> bool, i: int)
    requires
        0 <= i < s.len(),
        keep(s[i]),
    ensures
        s.filter(keep).len() > 0,
    decreases s.len(),
{
    reveal(Seq::filter);
    if i < s.len() - 1 {
        filter_keeps(s.drop_last(), keep, i);
    }
}

/// The short names of the thresholds stand for their long ones, and every other name for itself.
pub proof fn short_names_stand_for_long_ones(param: &str)
    ensures
        forall|r: String| #[trigger]
            call_ensures(resolve_alias, (param,), r) ==> {
                &&& param@ == "delta_hp"@ || param@ == "min_delta_hp"@ ==> r@ == "delta_pct_hp"@
                &&& (param@ == "delta_rev"@ || param@ == "min_delta_rev"@) && param@ != "delta_hp"@
                    && param@ != "min_delta_hp"@ ==> r@ == "delta_pct_rev"@
                &&& param@ != "delta_hp"@ && param@ != "min_delta_hp"@ && param@ != "delta_rev"@
                    && param@ != "min_delta_rev"@ ==> r@ == param@
            },
{
}

// ── Changes ─────────────────────────────────────────────────────────────────

/// A command that changes something asks for just that change, for the asset and strategy that it
/// names; a command that shows something asks for none.
pub proof fn changes_are_what_was_asked(
    asset: Seq<char>,
    strategy: Option<Seq<char>>,
    strategies: Seq<Seq<char>>,
    param: Seq<char>,
    key: Seq<char>,
    value: Seq<char>,
)
    ensures
        control_of(CommandView::Halt { asset, strategy }) == Some(
            ControlView::Halt { asset, strategy },
        ),
        control_of(CommandView::Resume { asset, strategy }) == Some(
            ControlView::Resume { asset, strategy },
        ),
        control_of(CommandView::ResetLosses { asset }) == Some(ControlView::ResetLosses { asset }),
        control_of(CommandView::SetParam { param, key, value }) == Some(
            ControlView::SetParam { param, key, value },
        ),
        control_of(CommandView::StrategiesSet { asset, strategies }) == Some(
            ControlView::SetStrategies { asset, strategies },
        ),
        control_of(CommandView::DeltaSet { strat: DeltaStrat::HighProb, key, value }) == Some(
            ControlView::SetParam { param: "delta_pct_hp"@, key, value },
        ),
        control_of(CommandView::DeltaSet { strat: DeltaStrat::Reversal, key, value }) == Some(
            ControlView::SetParam { param: "delta_pct_rev"@, key, value },
        ),
        control_of(CommandView::TradeAssetsSet(strategies)) == Some(
            ControlView::SetParam {
                param: "trade_assets"@,
                key: "default"@,
                value: joined(strategies, ","@),
            },
        ),
        control_of(CommandView::Status) is None,
        control_of(CommandView::Help) is None,
        control_of(CommandView::Params) is None,
        control_of(CommandView::Invalid(value)) is None,
{
}

/// A value is taken exactly when it can be read.
pub proof fn values_are_taken_when_read<P: Fn(String) -> Option<Num>>(value: &str, reader: Reader<P>)
    ensures
        forall|r: Result<Num, ControlError>| #[trigger]
            call_ensures(parse_f64::<P>, (value, &reader), r) ==> {
                &&& r is Ok <==> (reader@)(value@) is Some
                &&& r is Ok ==> (reader@)(value@) == Some(r->Ok_0)
            },
{
}

// ── Texts ───────────────────────────────────────────────────────────────────

/// What follows the last separator holds none, and before it stands a separator, or nothing.
pub proof fn after_last_is_behind_the_last(s: Seq<char>, sep: char)
    ensures
        ({
            let tail = after_last(s, sep);
            let at = s.len() - tail.len();
            &&& 0 <= at <= s.len()
            &&& tail == s.skip(at)
            &&& forall|i: int| 0 <= i < tail.len() ==> #[trigger] tail[i] != sep
            &&& at == 0 || s[at - 1] == sep
        }),
    decreases s.len(),
{
    if s.len() > 0 && s.last() != sep {
        after_last_is_behind_the_last(s.drop_last(), sep);
        let rest = s.drop_last();
        let tail = after_last(rest, sep);
        let at = rest.len() - tail.len();
        assert(after_last(s, sep) =~= s.skip(at));
        if at > 0 {
            assert(rest[at - 1] == s[at - 1]);
        }
    } else {
        assert(after_last(s, sep) =~= s.skip(s.len() as int));
        if s.len() > 0 {
            assert(s[s.len() - 1] == sep);
        }
    }
}

/// A trimmed text is what stands between the white space at both ends, and begins and ends
/// with none.
pub proof fn trimming_takes_white_space_off(s: Seq<char>)
    ensures
        exists|a: int, b: int|
            {
                &&& 0 <= a <= b <= s.len()
                &&& #[trigger] s.subrange(a, b) == trimmed(s)
                &&& forall|i: int| 0 <= i < a ==> is_white(#[trigger] s[i])
                &&& forall|i: int| b <= i < s.len() ==> is_white(#[trigger] s[i])
            },
        trimmed(s).len() > 0 ==> !is_white(trimmed(s)[0]) && !is_white(trimmed(s).last()),
{
    let f = trimmed_front(s);
    front_is_a_tail(s);
    back_is_a_head(f);
    let a = s.len() - f.len();
    let t = trimmed_back(f);
    let b = a + t.len();
    assert(s.subrange(a, b) =~= t);
    assert forall|i: int| b <= i < s.len() implies is_white(#[trigger] s[i]) by {
        assert(f[i - a] == s[i]);
    }
}

proof fn front_is_a_tail(s: Seq<char>)
    ensures
        ({
            let f = trimmed_front(s);
            let a = s.len() - f.len();
            &&& 0 <= a <= s.len()
            &&& f == s.skip(a)
            &&& forall|i: int| 0 <= i < a ==> is_white(#[trigger] s[i])
            &&& f.len() > 0 ==> !is_white(f[0])
        }),
    decreases s.len(),
{
    if s.len() > 0 && is_white(s[0]) {
        let rest = s.drop_first();
        front_is_a_tail(rest);
        let f = trimmed_front(rest);
        let a = rest.len() - f.len();
        assert(f =~= s.skip(a + 1));
        assert forall|i: int| 0 <= i < a + 1 implies is_white(#[trigger] s[i]) by {
            if i > 0 {
                assert(rest[i - 1] == s[i]);
            }
        }
    } else {
        assert(trimmed_front(s) =~= s.skip(0));
    }
}

proof fn back_is_a_head(s: Seq<char>)
    ensures
        ({
            let t = trimmed_back(s);
            &&& t.len() <= s.len()
            &&& t == s.take(t.len() as int)
            &&& forall|i: int| t.len() <= i < s.len() ==> is_white(#[trigger] s[i])
            &&& t.len() > 0 ==> !is_white(t.last())
        }),
    decreases s.len(),
{
    if s.len() > 0 && is_white(s.last()) {
        let rest = s.drop_last();
        back_is_a_head(rest);
        let t = trimmed_back(rest);
        assert(t =~= s.take(t.len() as int));
        assert forall|i: int| t.len() <= i < s.len() implies is_white(#[trigger] s[i]) by {
            if i < rest.len() {
                assert(rest[i] == s[i]);
            }
        }
    } else {
        assert(trimmed_back(s) =~= s.take(s.len() as int));
    }
}

/// Texts that differ at most in case are as long, and their letters are the same or the small and
/// the capital form of one.
pub proof fn case_is_all_that_differs(a: &str, b: &str)
    ensures
        forall|r: bool| #[trigger]
            call_ensures(same_but_for_case, (a, b), r) ==> (r <==> a@.len() == b@.len() && forall|i: int|
                0 <= i < a@.len() ==> small_letter(#[trigger] a@[i]) == small_letter(b@[i])),
{
    assert forall|i: int| 0 <= i < a@.len() && i < b@.len() implies (small_letter(#[trigger] a@[i])
        == small_letter(b@[i]) <==> same_letter(a@[i], b@[i])) by {
        codes_tell_letters(a@[i], b@[i]);
    }
}

proof fn codes_tell_letters(x: char, y: char)
    ensures
        small_letter(x) == small_letter(y) <==> same_letter(x, y),
{
    if 0x41 <= x as u32 <= 0x5A {
        assert(small_letter(x) as u32 == x as u32 + 32);
    }
    if 0x41 <= y as u32 <= 0x5A {
        assert(small_letter(y) as u32 == y as u32 + 32);
    }
    if small_letter(x) == small_letter(y) {
        assert(small_letter(x) as u32 == small_letter(y) as u32);
    }
}

} // verus!
