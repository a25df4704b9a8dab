use vstd::prelude::*;
use vstd::string::*;

verus! {

/// The parts written one after the other, with `sep` between each two.
pub open spec fn joined(parts: Seq<Seq<char>>, sep: Seq<char>) -> Seq<char>
    decreases parts.len(),
{
    if parts.len() == 0 {
        Seq::empty()
    } else if parts.len() == 1 {
        parts[0]
    } else {
        joined(parts.drop_last(), sep) + sep + parts.last()
    }
}

/// The number of characters in all the parts together.
pub open spec fn total_len(parts: Seq<Seq<char>>) -> nat
    decreases parts.len(),
{
    if parts.len() == 0 {
        0
    } else {
        total_len(parts.drop_last()) + parts.last().len()
    }
}

/// The text of each string.
pub open spec fn texts(strings: Seq<String>) -> Seq<Seq<char>> {
    strings.map_values(|s: String| s@)
}

/// The separator between two module arguments.
pub open spec fn space() -> Seq<char> {
    seq![' ']
}

/// The separator between two display names in the combined prompt.
pub open spec fn or_word() -> Seq<char> {
    seq![' ', 'o', 'r', ' ']
}

/// What ends the combined prompt.
pub open spec fn prompt_end() -> Seq<char> {
    seq![':', ' ']
}

/// The text of a message from a sub-service, tagged with the service's
/// display name: `[name] message`.
pub open spec fn tagged(name: Seq<char>, msg: Seq<char>) -> Seq<char> {
    seq!['['] + name + seq![']', ' '] + msg
}

/// Joins the strings with `sep` between each two.
fn join(parts: &Vec<String>, sep: &str) -> (res: String)
    ensures
        res@ == joined(texts(parts@), sep@),
{
    let mut res = String::new();
    let ghost all = texts(parts@);
    let mut i: usize = 0;
    while i < parts.len()
        invariant
            i <= parts.len(),
            all == texts(parts@),
            all.len() == parts@.len(),
            res@ == joined(all.take(i as int), sep@),
        decreases parts.len() - i,
    {
        assert(all[i as int] == parts@[i as int]@);
        if i != 0 {
            res.append(sep);
        }
        res.append(parts[i].as_str());
        assert(all.take(i + 1).drop_last() =~= all.take(i as int));
        assert(all.take(i + 1).last() == all[i as int]);
        if i == 0 {
            assert(all.take(0) =~= Seq::<Seq<char>>::empty());
            assert(res@ =~= all.take(1)[0]);
        }
        i = i + 1;
    }
    assert(all.take(parts.len() as int) =~= all);
    res
}

/// The module's arguments as one line of text, separated by single spaces:
/// the JSON configuration that follows the module's name in a PAM file.
pub fn join_args(args: &Vec<String>) -> (line: String)
    ensures
        line@ == joined(texts(args@), space()),
{
    let sep = " ";
    proof {
        reveal_strlit(" ");
    }
    assert(sep@ =~= space());
    join(args, sep)
}

/// The prompt shown when a password is read for all sub-services at once:
/// their display names separated by ` or `, then `: `.
pub fn combined_prompt(display_names: &Vec<String>) -> (prompt: String)
    ensures
        prompt@ == joined(texts(display_names@), or_word()) + prompt_end(),
        display_names@.len() > 0 ==> prompt@.len() == total_len(texts(display_names@)) + 4 * (
        display_names@.len() - 1) + 2,
        display_names@.len() > 0 ==> prompt@.subrange(0, display_names@[0]@.len() as int)
            == display_names@[0]@,
{
    let sep = " or ";
    proof {
        reveal_strlit(" or ");
        reveal_strlit(": ");
    }
    assert(sep@ =~= or_word());
    let mut prompt = join(display_names, sep);
    prompt.append(": ");
    assert(": "@ =~= prompt_end());
    proof {
        if display_names@.len() > 0 {
            lemma_combined_prompt_len(texts(display_names@));
            lemma_joined_starts_with_first(texts(display_names@), or_word());
            assert(prompt@.subrange(0, display_names@[0]@.len() as int) =~= joined(
                texts(display_names@),
                or_word(),
            ).subrange(0, display_names@[0]@.len() as int));
        }
    }
    prompt
}

/// A message from a sub-service, tagged with the service's display name.
pub fn format_msg(service_display_name: &str, msg: &str) -> (text: String)
    ensures
        text@ == tagged(service_display_name@, msg@),
        text@.len() == service_display_name@.len() + msg@.len() + 3,
        text@[0] == '[',
        text@.subrange(1, (service_display_name@.len() + 1) as int) == service_display_name@,
        text@[(service_display_name@.len() + 1) as int] == ']',
        text@[(service_display_name@.len() + 2) as int] == ' ',
        text@.subrange((service_display_name@.len() + 3) as int, text@.len() as int) == msg@,
{
    proof {
        reveal_strlit("[");
        reveal_strlit("] ");
    }
    let mut text = String::new();
    text.append("[");
    text.append(service_display_name);
    text.append("] ");
    text.append(msg);
    assert(text@ =~= tagged(service_display_name@, msg@));
    proof {
        lemma_tagged_layout(service_display_name@, msg@);
    }
    text
}

/// A tagged message is `[`, the whole name, `] `, then the whole message,
/// whatever their lengths.
pub proof fn lemma_tagged_layout(name: Seq<char>, msg: Seq<char>)
    ensures
        tagged(name, msg).len() == name.len() + msg.len() + 3,
        tagged(name, msg)[0] == '[',
        tagged(name, msg).subrange(1, (name.len() + 1) as int) == name,
        tagged(name, msg)[(name.len() + 1) as int] == ']',
        tagged(name, msg)[(name.len() + 2) as int] == ' ',
        tagged(name, msg).subrange((name.len() + 3) as int, tagged(name, msg).len() as int) == msg,
{
    let t = tagged(name, msg);
    assert(t.subrange(1, (name.len() + 1) as int) =~= name);
    assert(t.subrange((name.len() + 3) as int, t.len() as int) =~= msg);
}

/// One part more adds the separator and the whole part at the end, for
/// every separator.
pub proof fn lemma_joined_push(parts: Seq<Seq<char>>, sep: Seq<char>, p: Seq<char>)
    requires
        parts.len() > 0,
    ensures
        joined(parts.push(p), sep) == joined(parts, sep) + sep + p,
{
    assert(parts.push(p).drop_last() =~= parts);
    assert(parts.push(p).last() == p);
}

/// The joined text starts with the whole first part.
pub proof fn lemma_joined_starts_with_first(parts: Seq<Seq<char>>, sep: Seq<char>)
    requires
        parts.len() > 0,
    ensures
        joined(parts, sep).len() >= parts[0].len(),
        joined(parts, sep).subrange(0, parts[0].len() as int) == parts[0],
    decreases parts.len(),
{
    if parts.len() > 1 {
        lemma_joined_starts_with_first(parts.drop_last(), sep);
        let j = joined(parts.drop_last(), sep);
        assert(joined(parts, sep) == j + sep + parts.last());
        assert(parts.drop_last()[0] == parts[0]);
        assert((j + sep + parts.last()).subrange(0, parts[0].len() as int) =~= j.subrange(
            0,
            parts[0].len() as int,
        ));
    }
}

/// A single part is joined to itself, and no parts to nothing.
pub proof fn lemma_joined_small(p: Seq<char>, sep: Seq<char>)
    ensures
        joined(seq![p], sep) == p,
        joined(Seq::<Seq<char>>::empty(), sep) == Seq::<char>::empty(),
{
}

/// Every part is kept whole: the joined text is as long as all the parts
/// together plus one separator between each two.
pub proof fn lemma_joined_len(parts: Seq<Seq<char>>, sep: Seq<char>)
    requires
        parts.len() > 0,
    ensures
        joined(parts, sep).len() == total_len(parts) + sep.len() * (parts.len() - 1),
    decreases parts.len(),
{
    if parts.len() == 1 {
        assert(parts.drop_last().len() == 0);
        assert(total_len(parts.drop_last()) == 0);
        assert(parts.last() == parts[0]);
        assert(sep.len() * (parts.len() - 1) == 0) by (nonlinear_arith)
            requires
                parts.len() == 1,
        ;
    } else {
        lemma_joined_len(parts.drop_last(), sep);
        assert(joined(parts, sep) == joined(parts.drop_last(), sep) + sep + parts.last());
        assert(total_len(parts) == total_len(parts.drop_last()) + parts.last().len());
        assert(sep.len() * (parts.len() - 1) == sep.len() * (parts.len() - 2) + sep.len())
            by (nonlinear_arith)
            requires
                parts.len() >= 2,
        ;
    }
}

/// The combined prompt holds every display name: with `n >= 1` names it is
/// as long as the names together plus ` or ` between each two and `: `.
pub proof fn lemma_combined_prompt_len(names: Seq<Seq<char>>)
    requires
        names.len() > 0,
    ensures
        (joined(names, or_word()) + prompt_end()).len() == total_len(names) + 4 * (names.len()
            - 1) + 2,
{
    lemma_joined_len(names, or_word());
}

} // verus!
