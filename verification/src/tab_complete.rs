//! Command completions: the span they replace, and what is offered.

use crate::command_tree::{CommandTree, NodeForm};
use crate::text::{characters, is_space, is_whitespace, texts};
use vstd::prelude::*;

verus! {

/// Where the unfinished token of a text begins, in characters: behind the last
/// whitespace, but not before `from`.
pub open spec fn token_begin(text: Seq<char>, from: int) -> int
    decreases text.len(),
{
    if text.len() <= from || text.len() == 0 {
        from
    } else if is_space(text.last()) {
        text.len() as int
    } else {
        token_begin(text.drop_last(), from)
    }
}

/// How many characters a leading slash takes.
pub open spec fn slash_length(text: Seq<char>) -> int {
    if text.len() > 0 && text[0] == '/' {
        1
    } else {
        0
    }
}

/// The commands of a table that a level may run and whose name begins with a prefix,
/// in order.
pub open spec fn completions(table: Seq<NodeForm>, level: int, prefix: Seq<char>) -> Seq<Seq<char>>
    decreases table.len(),
{
    if table.len() == 0 {
        Seq::empty()
    } else {
        let before = completions(table.drop_last(), level, prefix);
        let node = table.last();
        if node.level <= level && prefix.is_prefix_of(node.name) {
            before.push(node.name)
        } else {
            before
        }
    }
}

/// The whole token that a span replaces has no whitespace in it.
pub proof fn token_has_no_whitespace(text: Seq<char>, from: int)
    requires
        0 <= from <= text.len(),
    ensures
        from <= token_begin(text, from) <= text.len(),
        forall|i: int| token_begin(text, from) <= i < text.len() ==> !is_space(#[trigger] text[i]),
        token_begin(text, from) > from ==> is_space(text[token_begin(text, from) - 1]),
    decreases text.len(),
{
    if text.len() > from && !is_space(text.last()) {
        let front = text.drop_last();
        token_has_no_whitespace(front, from);
        assert forall|i: int| token_begin(text, from) <= i < text.len() implies !is_space(
            #[trigger] text[i],
        ) by {
            if i < front.len() {
                assert(front[i] == text[i]);
            }
        }
        if token_begin(text, from) > from {
            assert(front[token_begin(text, from) - 1] == text[token_begin(text, from) - 1]);
        }
    }
}

fn begins_with(chars: &Vec<char>, from: usize, name: &str) -> (r: bool)
    requires
        from <= chars.len(),
    ensures
        r == chars@.skip(from as int).is_prefix_of(name@),
{
    let letters = characters(name);
    let ghost prefix = chars@.skip(from as int);
    if chars.len() - from > letters.len() {
        return false;
    }
    let mut i: usize = from;
    while i < chars.len()
        invariant
            from <= i <= chars@.len(),
            letters@ == name@,
            prefix == chars@.skip(from as int),
            chars@.len() - from <= letters@.len(),
            forall|k: int| 0 <= k < i - from ==> prefix[k] == #[trigger] letters@[k],
        decreases chars@.len() - i,
    {
        assert(prefix[i - from] == chars@[i as int]);
        if chars[i] != letters[i - from] {
            assert(prefix[i - from] != name@[i - from]);
            assert(!(prefix =~= name@.subrange(0, prefix.len() as int))) by {
                assert(name@.subrange(0, prefix.len() as int)[i - from] == name@[i - from]);
            }
            return false;
        }
        i = i + 1;
    }
    assert(prefix =~= name@.subrange(0, prefix.len() as int));
    true
}

/// Computes the reply to a question for completions: the span of the text that they
/// replace, as its start and length in characters, and the completions.
///
/// A leading slash is not part of a command. Only names of commands that the level may
/// run are offered, and only while the name is typed: what an argument takes is never
/// offered as text to insert.
pub fn tab_complete_reply(tree: &CommandTree, level: u8, text: &str) -> (r: (
    usize,
    usize,
    Vec<String>,
))
    ensures
        (r.0 as int, r.1 as int) == replaced_span(text@),
        r.0 == token_begin(text@, slash_length(text@)),
        r.0 + r.1 == text@.len(),
        texts(r.2@) == if r.0 == slash_length(text@) {
            completions(tree@, level as int, text@.skip(slash_length(text@)))
        } else {
            Seq::empty()
        },
{
    let chars = characters(text);
    let offset: usize = if chars.len() > 0 && chars[0] == '/' {
        1
    } else {
        0
    };
    let mut start: usize = chars.len();
    assert(text@.take(start as int) =~= text@);
    while start > offset && !is_whitespace(chars[start - 1])
        invariant
            offset <= start <= chars@.len(),
            chars@ == text@,
            token_begin(text@, offset as int) == token_begin(text@.take(start as int), offset as int),
        decreases start,
    {
        proof {
            let whole = text@.take(start as int);
            assert(whole.last() == chars@[start - 1]);
            assert(whole.drop_last() =~= text@.take(start - 1));
        }
        start = start - 1;
    }
    proof {
        let whole = text@.take(start as int);
        if start > offset {
            assert(whole.last() == chars@[start - 1]);
        }
    }
    let length: usize = chars.len() - start;
    let mut matches: Vec<String> = Vec::new();
    if start == offset {
        let mut i: usize = 0;
        let ghost prefix = text@.skip(offset as int);
        assert(tree@.take(0) =~= Seq::<NodeForm>::empty());
        assert(texts(matches@) =~= Seq::<Seq<char>>::empty());
        while i < tree.nodes.len()
            invariant
                i <= tree.nodes@.len(),
                tree@.len() == tree.nodes@.len(),
                chars@ == text@,
                offset <= chars@.len(),
                prefix == text@.skip(offset as int),
                texts(matches@) == completions(tree@.take(i as int), level as int, prefix),
            decreases tree.nodes@.len() - i,
        {
            let node = tree.nodes[i];
            let ghost before = matches@;
            proof {
                let more = tree@.take(i + 1);
                assert(more.drop_last() =~= tree@.take(i as int));
                assert(more.last() == node@);
            }
            if node.level <= level && begins_with(&chars, offset, node.name) {
                matches.push(node.name.to_owned());
                assert(texts(matches@) =~= texts(before).push(node.name@));
            }
            i = i + 1;
        }
        assert(tree@.take(i as int) =~= tree@);
    } else {
        assert(texts(matches@) =~= Seq::<Seq<char>>::empty());
    }
    (start, length, matches)
}

/// A completion is always the name of a command that the level may run.
pub proof fn completions_are_permitted(table: Seq<NodeForm>, level: int, prefix: Seq<char>, i: int)
    requires
        0 <= i < completions(table, level, prefix).len(),
    ensures
        exists|k: int|
            0 <= k < table.len() && (#[trigger] table[k]).level <= level && table[k].name
                == completions(table, level, prefix)[i],
    decreases table.len(),
{
    if table.len() > 0 {
        let front = table.drop_last();
        let before = completions(front, level, prefix);
        if i < before.len() {
            completions_are_permitted(front, level, prefix, i);
            let k = choose|k: int|
                0 <= k < front.len() && (#[trigger] front[k]).level <= level && front[k].name
                    == before[i];
            assert(table[k] == front[k]);
        } else {
            assert(table[table.len() - 1].name == completions(table, level, prefix)[i]);
        }
    }
}

/// The most characters of a completion on the wire.
pub const MAX_COMPLETION_CHARS: usize = 32_767;

/// The reply to a question for completions.
#[derive(Debug)]
pub struct TabCompleteResponse {
    /// The number of the question.
    pub transaction_id: i32,
    /// Where the replaced span starts.
    pub start: i32,
    /// How long the replaced span is.
    pub length: i32,
    /// The completions.
    pub matches: Vec<String>,
}

/// A length on the wire: kept at the largest.
pub open spec fn wire_length(n: int) -> int {
    if n > i32::MAX {
        i32::MAX as int
    } else {
        n
    }
}

/// The texts that fit the wire, in order.
pub open spec fn fitting(all: Seq<Seq<char>>) -> Seq<Seq<char>>
    decreases all.len(),
{
    if all.len() == 0 {
        Seq::empty()
    } else if all.last().len() <= MAX_COMPLETION_CHARS {
        fitting(all.drop_last()).push(all.last())
    } else {
        fitting(all.drop_last())
    }
}

/// The span of a text that completions replace: where it starts, and how long it is.
pub open spec fn replaced_span(text: Seq<char>) -> (int, int) {
    let begin = token_begin(text, slash_length(text));
    (begin, text.len() - begin)
}

/// What completions replace is the unfinished word at the end of the text and all of it: the
/// span reaches to the end, holds no whitespace, and begins behind whitespace, a leading slash
/// or nothing.
pub proof fn the_last_word_is_replaced(text: Seq<char>)
    ensures
        ({
            let (start, length) = replaced_span(text);
            &&& 0 <= start && 0 <= length && start + length == text.len()
            &&& forall|i: int| start <= i < text.len() ==> !is_space(#[trigger] text[i])
            &&& start > 0 ==> is_space(text[start - 1]) || (start == 1 && text[0] == '/')
        }),
{
    token_has_no_whitespace(text, slash_length(text));
}

fn to_wire_length(n: usize) -> (r: i32)
    ensures
        r == wire_length(n as int),
{
    if n > 0x7fff_ffff {
        i32::MAX
    } else {
        n as i32
    }
}

/// Answers a question for completions.
pub fn handle_tab_complete(tree: &CommandTree, level: u8, transaction_id: i32, text: &str) -> (r:
    TabCompleteResponse)
    ensures
        r.transaction_id == transaction_id,
        r.start == wire_length(replaced_span(text@).0),
        r.length == wire_length(replaced_span(text@).1),
        ({
            let begin = token_begin(text@, slash_length(text@));
            &&& r.start == wire_length(begin)
            &&& r.length == wire_length(text@.len() - begin)
            &&& texts(r.matches@) == if begin == slash_length(text@) {
                fitting(completions(tree@, level as int, text@.skip(slash_length(text@))))
            } else {
                Seq::empty()
            }
        }),
{
    let (start, length, found) = tab_complete_reply(tree, level, text);
    let mut matches: Vec<String> = Vec::new();
    let mut i: usize = 0;
    let ghost all = texts(found@);
    assert(texts(matches@) =~= fitting(all.take(0)));
    while i < found.len()
        invariant
            i <= found@.len(),
            all == texts(found@),
            texts(matches@) == fitting(all.take(i as int)),
        decreases found@.len() - i,
    {
        let ghost before = matches@;
        proof {
            let more = all.take(i + 1);
            assert(more.drop_last() =~= all.take(i as int));
            assert(more.last() == found@[i as int]@);
        }
        if characters(found[i].as_str()).len() <= MAX_COMPLETION_CHARS {
            matches.push(found[i].clone());
            assert(texts(matches@) =~= texts(before).push(found@[i as int]@));
        }
        i = i + 1;
    }
    assert(all.take(i as int) =~= all);
    TabCompleteResponse {
        transaction_id,
        start: to_wire_length(start),
        length: to_wire_length(length),
        matches,
    }
}

/// Every command that the level may run and whose name begins with what was typed is offered,
/// and nothing else is; a higher level is offered everything that a lower one is.
pub proof fn completions_are_complete(
    table: Seq<NodeForm>,
    level: int,
    prefix: Seq<char>,
    name: Seq<char>,
)
    ensures
        completions(table, level, prefix).contains(name) <==> exists|k: int|
            0 <= k < table.len() && (#[trigger] table[k]).level <= level && table[k].name == name
                && prefix.is_prefix_of(name),
    decreases table.len(),
{
    if table.len() > 0 {
        let front = table.drop_last();
        let before = completions(front, level, prefix);
        let whole = completions(table, level, prefix);
        let last = table.len() - 1;
        completions_are_complete(front, level, prefix, name);
        if whole.contains(name) {
            let i = whole.index_of(name);
            if i < before.len() {
                assert(before[i] == name);
                let k = choose|k: int|
                    0 <= k < front.len() && (#[trigger] front[k]).level <= level && front[k].name
                        == name && prefix.is_prefix_of(name);
                assert(table[k] == front[k]);
            } else {
                assert(table[last].name == name);
            }
        }
        if exists|k: int|
            0 <= k < table.len() && (#[trigger] table[k]).level <= level && table[k].name == name
                && prefix.is_prefix_of(name) {
            let k = choose|k: int|
                0 <= k < table.len() && (#[trigger] table[k]).level <= level && table[k].name
                    == name && prefix.is_prefix_of(name);
            if k < last {
                assert(front[k] == table[k]);
                assert(before.contains(name));
                let i = before.index_of(name);
                assert(whole[i] == name);
            } else {
                assert(whole[before.len() as int] == name);
            }
        }
    }
}

/// A slash in front changes nothing but the place: the span begins one character later, is as
/// long, and what was typed of the command is the same.
pub proof fn slash_only_moves_the_span(text: Seq<char>)
    requires
        text.len() == 0 || text[0] != '/',
    ensures
        ({
            let slashed = seq!['/'] + text;
            &&& token_begin(slashed, slash_length(slashed)) == token_begin(text, slash_length(text))
                + 1
            &&& slashed.skip(slash_length(slashed)) == text.skip(slash_length(text))
        }),
    decreases text.len(),
{
    let slashed = seq!['/'] + text;
    assert(slashed.skip(1) =~= text);
    assert(text.skip(0) =~= text);
    shifted_token(text);
}

proof fn shifted_token(text: Seq<char>)
    ensures
        token_begin(seq!['/'] + text, 1) == token_begin(text, 0) + 1,
    decreases text.len(),
{
    let slashed = seq!['/'] + text;
    if text.len() > 0 {
        assert(slashed.last() == text.last());
        assert(slashed.drop_last() =~= seq!['/'] + text.drop_last());
        shifted_token(text.drop_last());
    }
}

/// Everything that fits the wire is sent, in order, and nothing else.
pub proof fn fitting_completions_are_kept(all: Seq<Seq<char>>)
    ensures
        (forall|i: int| 0 <= i < all.len() ==> (#[trigger] all[i]).len() <= 32_767) ==> fitting(all)
            == all,
        forall|i: int| 0 <= i < fitting(all).len() ==> (#[trigger] fitting(all)[i]).len() <= 32_767,
    decreases all.len(),
{
    if all.len() > 0 {
        let front = all.drop_last();
        fitting_completions_are_kept(front);
        assert forall|i: int| 0 <= i < fitting(all).len() implies (#[trigger] fitting(
            all,
        )[i]).len() <= 32_767 by {
            if i < fitting(front).len() {
                assert(fitting(all)[i] == fitting(front)[i]);
            }
        }
        if forall|i: int| 0 <= i < all.len() ==> (#[trigger] all[i]).len() <= 32_767 {
            assert forall|i: int| 0 <= i < front.len() implies (#[trigger] front[i]).len()
                <= 32_767 by {
                assert(front[i] == all[i]);
            }
            assert(all[all.len() - 1].len() <= 32_767);
            assert(front.push(all.last()) =~= all);
        }
    }
}

} // verus!
