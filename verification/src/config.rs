//! The bot's settings, from the text of its environment variables.
use vstd::prelude::*;

use crate::bot::BotConfig;
use crate::text::{
    chars_of, decimal, is_white_space, lemma_decimal_no_white_space, lemma_trim_around, parse_i64,
    parse_i64_spec, parse_u64, parse_u64_reads_decimal, parse_u64_spec, trim, trim_spec,
};

verus! {

/// `s` cut at every comma, as `str::split(',')` cuts it: one more piece than
/// there are commas, empty pieces included.
pub open spec fn comma_pieces(s: Seq<char>) -> Seq<Seq<char>>
    decreases s.len(),
{
    if s.len() == 0 {
        seq![Seq::empty()]
    } else {
        let before = comma_pieces(s.drop_last());
        if s.last() == ',' {
            before.push(Seq::empty())
        } else {
            before.update(before.len() - 1, before.last().push(s.last()))
        }
    }
}

/// The user ids that the pieces give: each piece is trimmed and read as a
/// `u64`; pieces that are not numbers are skipped.
pub open spec fn user_ids(pieces: Seq<Seq<char>>) -> Seq<u64>
    decreases pieces.len(),
{
    if pieces.len() == 0 {
        Seq::empty()
    } else {
        let before = user_ids(pieces.drop_last());
        match parse_u64_spec(trim_spec(pieces.last())) {
            Some(id) => before.push(id),
            None => before,
        }
    }
}

fn push_user_id(ids: &mut Vec<u64>, piece: &String)
    ensures
        final(ids)@ == (match parse_u64_spec(trim_spec(piece@)) {
            Some(id) => old(ids)@.push(id),
            None => old(ids)@,
        }),
{
    let t = trim(piece.as_str());
    match parse_u64(t.as_str()) {
        Some(id) => ids.push(id),
        None => {},
    }
}

/// The whitelist that the text of `ALLOWED_USERS` gives: comma-separated user
/// ids, with white space around them allowed and anything else skipped.
pub fn parse_allowed_users(s: &str) -> (ids: Vec<u64>)
    ensures
        ids@ == user_ids(comma_pieces(s@)),
{
    let v = chars_of(s);
    let mut ids: Vec<u64> = Vec::new();
    let mut piece = String::new();
    let mut i: usize = 0;
    assert(v@.take(0) =~= Seq::<char>::empty());
    while i < v.len()
        invariant
            v@ == s@,
            i <= v@.len(),
            comma_pieces(v@.take(i as int)).len() > 0,
            piece@ == comma_pieces(v@.take(i as int)).last(),
            ids@ == user_ids(comma_pieces(v@.take(i as int)).drop_last()),
        decreases v@.len() - i,
    {
        let ghost before = comma_pieces(v@.take(i as int));
        assert(v@.take(i + 1).drop_last() =~= v@.take(i as int));
        if v[i] == ',' {
            push_user_id(&mut ids, &piece);
            piece = String::new();
            assert(comma_pieces(v@.take(i + 1)) == before.push(Seq::empty()));
            assert(before.push(Seq::empty()).drop_last() =~= before);
            assert(before.drop_last().push(before.last()) =~= before);
        } else {
            crate::text::push_char(&mut piece, v[i]);
            assert(comma_pieces(v@.take(i + 1)) == before.update(
                before.len() - 1,
                before.last().push(v@[i as int]),
            ));
            assert(before.update(before.len() - 1, before.last().push(v@[i as int])).drop_last()
                =~= before.drop_last());
        }
        i = i + 1;
    }
    assert(v@.take(v@.len() as int) =~= v@);
    let ghost all = comma_pieces(s@);
    push_user_id(&mut ids, &piece);
    assert(all.drop_last().push(all.last()) =~= all);
    ids
}

/// Why the settings cannot be used.
#[derive(Clone, Copy, Debug, PartialEq, Eq, Structural)]
pub enum ConfigError {
    /// `CHANNEL_CHAT_ID` is not set.
    ChannelChatIdMissing,
    /// `CHANNEL_CHAT_ID` is not a valid integer.
    ChannelChatIdInvalid,
}

/// The bot's settings from the values of `ALLOWED_USERS` and `CHANNEL_CHAT_ID`
/// (`None` for a variable that is not set). A missing whitelist lets everyone
/// in; the channel's chat id must be set and be an `i64`, white space around it
/// allowed.
pub fn config_from_values(allowed_users: Option<&str>, channel_chat_id: Option<&str>) -> (r: Result<
    BotConfig,
    ConfigError,
>)
    ensures
        match channel_chat_id {
            None => r == Err::<BotConfig, ConfigError>(ConfigError::ChannelChatIdMissing),
            Some(c) => match parse_i64_spec(trim_spec(c@)) {
                None => r == Err::<BotConfig, ConfigError>(ConfigError::ChannelChatIdInvalid),
                Some(id) => r matches Ok(cfg) && cfg.channel_chat_id == id
                    && cfg.allowed_users@ == user_ids(
                    comma_pieces(
                        match allowed_users {
                            Some(a) => a@,
                            None => Seq::empty(),
                        },
                    ),
                ),
            },
        },
{
    let channel = match channel_chat_id {
        Some(c) => c,
        None => return Err(ConfigError::ChannelChatIdMissing),
    };
    let t = trim(channel);
    let id = match parse_i64(t.as_str()) {
        Some(id) => id,
        None => return Err(ConfigError::ChannelChatIdInvalid),
    };
    let allowed = match allowed_users {
        Some(a) => parse_allowed_users(a),
        None => parse_allowed_users(""),
    };
    proof {
        reveal_strlit("");
    }
    Ok(BotConfig { allowed_users: allowed, channel_chat_id: id })
}

// ---------------------------------------------------------------------------
// Laws
// ---------------------------------------------------------------------------

proof fn lemma_comma_pieces_not_empty(s: Seq<char>)
    ensures
        comma_pieces(s).len() > 0,
    decreases s.len(),
{
    if s.len() > 0 {
        lemma_comma_pieces_not_empty(s.drop_last());
    }
}

proof fn lemma_comma_pieces_join(a: Seq<char>, b: Seq<char>)
    ensures
        comma_pieces(a + seq![','] + b) == comma_pieces(a) + comma_pieces(b),
    decreases b.len(),
{
    lemma_comma_pieces_not_empty(a);
    let j = a + seq![','];
    if b.len() == 0 {
        assert(j + b =~= j);
        assert(j.drop_last() =~= a);
        assert(comma_pieces(j) == comma_pieces(a).push(Seq::empty()));
        assert(comma_pieces(a).push(Seq::empty()) =~= comma_pieces(a) + comma_pieces(b));
    } else {
        lemma_comma_pieces_join(a, b.drop_last());
        lemma_comma_pieces_not_empty(b.drop_last());
        assert((j + b).drop_last() =~= j + b.drop_last());
        assert((j + b).last() == b.last());
        let pa = comma_pieces(a);
        let pb = comma_pieces(b.drop_last());
        if b.last() == ',' {
            assert((pa + pb).push(Seq::empty()) =~= pa + pb.push(Seq::empty()));
        } else {
            let x = (pa + pb).last().push(b.last());
            assert((pa + pb).last() == pb.last());
            assert((pa + pb).update((pa + pb).len() - 1, x) =~= pa + pb.update(pb.len() - 1, x));
        }
    }
}

proof fn lemma_user_ids_concat(x: Seq<Seq<char>>, y: Seq<Seq<char>>)
    ensures
        user_ids(x + y) == user_ids(x) + user_ids(y),
    decreases y.len(),
{
    if y.len() == 0 {
        assert(x + y =~= x);
        assert(user_ids(x) + user_ids(y) =~= user_ids(x));
    } else {
        lemma_user_ids_concat(x, y.drop_last());
        assert((x + y).drop_last() =~= x + y.drop_last());
        assert((x + y).last() == y.last());
        let ux = user_ids(x);
        let uy = user_ids(y.drop_last());
        match parse_u64_spec(trim_spec(y.last())) {
            Some(id) => assert((ux + uy).push(id) =~= ux + uy.push(id)),
            None => {},
        }
    }
}

/// The whitelist of two comma-separated parts lists the users of the first
/// part, then those of the second.
pub proof fn whitelist_of_joined_parts(a: Seq<char>, b: Seq<char>)
    ensures
        user_ids(comma_pieces(a + seq![','] + b)) == user_ids(comma_pieces(a)) + user_ids(
            comma_pieces(b),
        ),
{
    lemma_comma_pieces_join(a, b);
    lemma_user_ids_concat(comma_pieces(a), comma_pieces(b));
}

proof fn lemma_no_comma_one_piece(s: Seq<char>)
    requires
        forall|i: int| 0 <= i < s.len() ==> #[trigger] s[i] != ',',
    ensures
        comma_pieces(s) == seq![s],
    decreases s.len(),
{
    if s.len() > 0 {
        lemma_no_comma_one_piece(s.drop_last());
        assert(s.drop_last().push(s.last()) =~= s);
    } else {
        assert(s =~= Seq::<char>::empty());
    }
}

/// A user id written in decimal, with white space around it or not, is the
/// whole whitelist that it gives.
pub proof fn whitelist_of_one_id(id: u64, before: Seq<char>, after: Seq<char>)
    requires
        forall|i: int| 0 <= i < before.len() ==> is_white_space(#[trigger] before[i]),
        forall|i: int| 0 <= i < after.len() ==> is_white_space(#[trigger] after[i]),
    ensures
        user_ids(comma_pieces(before + decimal(id as nat) + after)) == seq![id],
{
    let d = decimal(id as nat);
    let s = before + d + after;
    lemma_decimal_no_white_space(id as nat);
    assert forall|i: int| 0 <= i < s.len() implies #[trigger] s[i] != ',' by {
        if i < before.len() {
            assert(s[i] == before[i]);
        } else if i < before.len() + d.len() {
            assert(s[i] == d[i - before.len()]);
        } else {
            assert(s[i] == after[i - before.len() - d.len()]);
        }
    }
    lemma_no_comma_one_piece(s);
    lemma_trim_around(before, d, after);
    parse_u64_reads_decimal(id);
    assert(seq![s].drop_last() =~= Seq::<Seq<char>>::empty());
    assert(user_ids(Seq::<Seq<char>>::empty()) == Seq::<u64>::empty());
    assert(Seq::<u64>::empty().push(id) =~= seq![id]);
}

} // verus!
