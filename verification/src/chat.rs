//! Chat: pacing, the plugins' say, and the relayed line.

use crate::block_edit::PluginEventDecision;
use crate::rate_limiter::ChatRateLimiter;
use crate::text::characters;
use vstd::prelude::*;
use vstd::string::StringExecFns;

verus! {

/// The character that begins a formatting code in a client.
pub const SECTION_SIGN: char = '\u{00A7}';

/// A text without formatting characters.
pub open spec fn without_formatting(text: Seq<char>) -> Seq<char>
    decreases text.len(),
{
    if text.len() == 0 {
        Seq::empty()
    } else if text.last() == SECTION_SIGN {
        without_formatting(text.drop_last())
    } else {
        without_formatting(text.drop_last()).push(text.last())
    }
}

/// A relayed line holds no formatting character, and keeps every other character of
/// the message.
pub proof fn relayed_text_is_plain(text: Seq<char>)
    ensures
        forall|i: int|
            0 <= i < without_formatting(text).len() ==> #[trigger] without_formatting(text)[i]
                != SECTION_SIGN,
        (forall|i: int| 0 <= i < text.len() ==> #[trigger] text[i] != SECTION_SIGN)
            ==> without_formatting(text) == text,
    decreases text.len(),
{
    if text.len() > 0 {
        let front = text.drop_last();
        relayed_text_is_plain(front);
        let whole = without_formatting(text);
        assert forall|i: int| 0 <= i < whole.len() implies #[trigger] whole[i] != SECTION_SIGN by {
            if i < without_formatting(front).len() {
                assert(whole[i] == without_formatting(front)[i]);
            }
        }
        if forall|i: int| 0 <= i < text.len() ==> #[trigger] text[i] != SECTION_SIGN {
            assert forall|i: int| 0 <= i < front.len() implies #[trigger] front[i]
                != SECTION_SIGN by {
                assert(front[i] == text[i]);
            }
            assert(text.last() == text[text.len() - 1]);
            assert(front.push(text.last()) =~= text);
        }
    }
}

/// What is left of a text keeps the order of the text: what is left of two texts one behind
/// the other is what is left of each, one behind the other; a formatting character leaves
/// nothing, and every other character stays.
pub proof fn formatting_is_taken_out_in_place(a: Seq<char>, b: Seq<char>, c: char)
    ensures
        without_formatting(a + b) == without_formatting(a) + without_formatting(b),
        without_formatting(seq![c]) == if c == '\u{00A7}' {
            Seq::empty()
        } else {
            seq![c]
        },
    decreases b.len(),
{
    reveal_with_fuel(without_formatting, 2);
    assert(seq![c].drop_last() =~= Seq::<char>::empty());
    assert(Seq::<char>::empty().push(c) =~= seq![c]);
    if b.len() == 0 {
        assert(a + b =~= a);
        assert(without_formatting(a) + Seq::<char>::empty() =~= without_formatting(a));
    } else {
        formatting_is_taken_out_in_place(a, b.drop_last(), c);
        assert((a + b).drop_last() =~= a + b.drop_last());
        let front = without_formatting(b.drop_last());
        assert(without_formatting(a) + front.push(b.last()) =~= (without_formatting(a)
            + front).push(b.last()));
    }
}

/// The line that relays a message.
pub open spec fn line_of(name: Seq<char>, message: Seq<char>) -> Seq<char> {
    "<"@ + name + "> "@ + without_formatting(message)
}

/// A relayed line begins with the sender's name in angle brackets, and the rest of it is the
/// message: whoever sends the same message sends the same rest, and whatever a sender says
/// begins the same way.
pub proof fn lines_name_their_sender(name: Seq<char>, message: Seq<char>)
    ensures
        ({
            let line = line_of(name, message);
            let n = name.len() as int;
            &&& line.len() == n + 3 + without_formatting(message).len()
            &&& line[0] == '<'
            &&& line.subrange(1, n + 1) == name
            &&& line[n + 1] == '>' && line[n + 2] == ' '
            &&& line.skip(n + 3) == without_formatting(message)
        }),
{
    reveal_strlit("<");
    reveal_strlit("> ");
    let line = line_of(name, message);
    let n = name.len() as int;
    assert(line.subrange(1, n + 1) =~= name);
    assert(line.skip(n + 3) =~= without_formatting(message));
}

/// The line that relays a player's message: the name in angle brackets, and the
/// message without formatting characters.
pub fn chat_line(name: &str, message: &str) -> (r: String)
    ensures
        r@ == line_of(name@, message@),
        r@ == "<"@ + name@ + "> "@ + without_formatting(message@),
{
    let mut line = "<".to_owned();
    line.append(name);
    line.append("> ");
    let ghost head = line@;
    let chars = characters(message);
    let mut i: usize = 0;
    assert(head + without_formatting(message@.take(0)) =~= head);
    while i < chars.len()
        invariant
            i <= chars@.len(),
            chars@ == message@,
            line@ == head + without_formatting(message@.take(i as int)),
        decreases chars@.len() - i,
    {
        let ghost before = line@;
        proof {
            let more = message@.take(i + 1);
            assert(more.drop_last() =~= message@.take(i as int));
            assert(more.last() == chars@[i as int]);
        }
        if chars[i] != SECTION_SIGN {
            line.push(chars[i]);
            assert(line@ =~= head + without_formatting(message@.take(i + 1)));
        }
        i = i + 1;
    }
    assert(message@.take(i as int) =~= message@);
    line
}

/// One thing a chat handler does.
#[derive(Clone, Copy, Debug, PartialEq, Eq, Structural)]
pub enum ChatAction {
    /// Show the sender why a plugin refused, if it said so.
    DenyMessage,
    /// Route the intents that the plugins emitted.
    RouteIntents,
    /// Relay the line to everyone.
    Relay,
}

/// Whether a line goes on to the plugins: it is dropped where its sender is over the
/// rate, without ending the session.
pub fn accept_line(limiter: &mut ChatRateLimiter, now: u64) -> (r: bool)
    requires
        old(limiter).wf(),
    ensures
        final(limiter).wf(),
        *final(limiter) == old(limiter).after(now),
        r == (old(limiter).available(now) > 0),
{
    limiter.try_consume(now)
}

/// What a chat handler does, by the plugins' decision.
pub open spec fn chat_actions(decision: PluginEventDecision) -> Seq<ChatAction> {
    match decision {
        PluginEventDecision::Deny => seq![ChatAction::DenyMessage, ChatAction::RouteIntents],
        PluginEventDecision::Allow => seq![ChatAction::RouteIntents, ChatAction::Relay],
    }
}

/// A line is relayed exactly where the plugins allow it, and then last; the sender is told why
/// exactly where they do not; and what the plugins emitted is routed in either case.
pub proof fn refused_lines_are_never_relayed(decision: PluginEventDecision)
    ensures
        ({
            let actions = chat_actions(decision);
            &&& actions.contains(ChatAction::Relay) == decision is Allow
            &&& actions.contains(ChatAction::DenyMessage) == decision is Deny
            &&& actions.contains(ChatAction::RouteIntents)
            &&& decision is Allow ==> actions.last() is Relay
            &&& actions.len() == 2
        }),
{
    let actions = chat_actions(decision);
    assert(actions[0] == chat_actions(decision)[0] && actions[1] == chat_actions(decision)[1]);
    assert(actions.contains(actions[0]) && actions.contains(actions[1]));
}

/// Handles a line once the plugins have decided: a refused line is never relayed.
pub fn handle_chat(decision: PluginEventDecision) -> (r: Vec<ChatAction>)
    ensures
        r@ == chat_actions(decision),
        r@ == match decision {
            PluginEventDecision::Deny => seq![ChatAction::DenyMessage, ChatAction::RouteIntents],
            PluginEventDecision::Allow => seq![ChatAction::RouteIntents, ChatAction::Relay],
        },
{
    let mut out: Vec<ChatAction> = Vec::new();
    match decision {
        PluginEventDecision::Deny => {
            out.push(ChatAction::DenyMessage);
            out.push(ChatAction::RouteIntents);
            assert(out@ =~= seq![ChatAction::DenyMessage, ChatAction::RouteIntents]);
        },
        PluginEventDecision::Allow => {
            out.push(ChatAction::RouteIntents);
            out.push(ChatAction::Relay);
            assert(out@ =~= seq![ChatAction::RouteIntents, ChatAction::Relay]);
        },
    }
    out
}

} // verus!
