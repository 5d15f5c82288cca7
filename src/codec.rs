use vstd::prelude::*;
use crate::json::{json_of_pairs, json_to_pairs, pairs_of_json, pairs_to_json, pairs_view};
use crate::model::{history_view, role_name, role_of_name, lemma_role_name_round_trip, ChatMessage, Error, MessageV, Role};

verus! {

/// The stored form of a history: each message as its role's name and its content.
pub open spec fn pairs_of_history(h: Seq<MessageV>) -> Seq<(Seq<char>, Seq<char>)> {
    h.map_values(|m: MessageV| (role_name(m.role), m.content))
}

/// Every stored pair names a role.
pub open spec fn all_roles_known(p: Seq<(Seq<char>, Seq<char>)>) -> bool {
    forall|i: int| 0 <= i < p.len() ==> (#[trigger] role_of_name(p[i].0)) is Some
}

/// The history a list of stored pairs stands for, or `None` where a pair
/// names no role.
pub open spec fn history_of_pairs(p: Seq<(Seq<char>, Seq<char>)>) -> Option<Seq<MessageV>> {
    if all_roles_known(p) {
        Some(
            p.map_values(
                |q: (Seq<char>, Seq<char>)| MessageV { role: role_of_name(q.0)->Some_0, content: q.1 },
            ),
        )
    } else {
        None
    }
}

/// The history a stored text stands for, or `None` where it is corrupt.
pub open spec fn history_of_text(s: Seq<char>) -> Option<Seq<MessageV>> {
    match pairs_of_json(s) {
        Some(p) => history_of_pairs(p),
        None => None,
    }
}

/// Reading back the stored pairs of a history gives that history.
pub proof fn lemma_pairs_round_trip(h: Seq<MessageV>)
    ensures
        history_of_pairs(pairs_of_history(h)) == Some(h),
{
    let p = pairs_of_history(h);
    assert forall|i: int| 0 <= i < p.len() implies (#[trigger] role_of_name(p[i].0)) is Some by {
        lemma_role_name_round_trip(h[i].role);
    }
    let back = history_of_pairs(p)->Some_0;
    assert forall|i: int| 0 <= i < h.len() implies back[i] == h[i] by {
        lemma_role_name_round_trip(h[i].role);
    }
    assert(back =~= h);
}

/// The stored pairs of a history.
pub fn history_to_pairs(h: &Vec<ChatMessage>) -> (r: Vec<(String, String)>)
    ensures
        pairs_view(r@) == pairs_of_history(history_view(h@)),
{
    let mut r: Vec<(String, String)> = Vec::new();
    let mut i: usize = 0;
    while i < h.len()
        invariant
            i <= h.len(),
            pairs_view(r@) =~= pairs_of_history(history_view(h@.subrange(0, i as int))),
        decreases h.len() - i,
    {
        let m = &h[i];
        r.push((m.role.name(), m.content.clone()));
        i = i + 1;
        assert(pairs_of_history(history_view(h@.subrange(0, i as int))) =~= pairs_of_history(
            history_view(h@.subrange(0, i - 1 as int)),
        ).push((role_name(h@[i - 1].role), h@[i - 1].content@)));
    }
    assert(h@.subrange(0, h@.len() as int) =~= h@);
    r
}

/// The history that a list of stored pairs stands for; a pair that names
/// no role makes the history corrupt.
pub fn history_from_pairs(p: Vec<(String, String)>) -> (r: Result<Vec<ChatMessage>, Error>)
    ensures
        match history_of_pairs(pairs_view(p@)) {
            Some(h) => r matches Ok(v) && history_view(v@) == h,
            None => r == Err::<Vec<ChatMessage>, Error>(Error::HistoryCorrupted),
        },
{
    let ghost pv = pairs_view(p@);
    let mut out: Vec<ChatMessage> = Vec::new();
    let mut i: usize = 0;
    while i < p.len()
        invariant
            i <= p.len(),
            pv == pairs_view(p@),
            forall|j: int| 0 <= j < i ==> (#[trigger] role_of_name(pv[j].0)) is Some,
            history_view(out@) =~= pv.subrange(0, i as int).map_values(
                |q: (Seq<char>, Seq<char>)| MessageV { role: role_of_name(q.0)->Some_0, content: q.1 },
            ),
        decreases p.len() - i,
    {
        let role = Role::from_name(p[i].0.as_str());
        assert(pv[i as int] == (p@[i as int].0@, p@[i as int].1@));
        match role {
            Some(role) => {
                let ghost before = out@;
                out.push(ChatMessage { role, content: p[i].1.clone() });
                assert(history_view(out@) =~= history_view(before).push(
                    MessageV { role: role_of_name(pv[i as int].0)->Some_0, content: pv[i as int].1 },
                ));
            },
            None => {
                assert(role_of_name(pv[i as int].0) is None);
                assert(!all_roles_known(pv));
                return Err(Error::HistoryCorrupted);
            },
        }
        i = i + 1;
        assert(pv.subrange(0, i as int) =~= pv.subrange(0, i - 1 as int).push(pv[i - 1]));
    }
    assert(pv.subrange(0, pv.len() as int) =~= pv);
    Ok(out)
}

/// The text under which a history is stored. Reading it back gives the
/// same messages in the same order.
pub fn encode_history(h: &Vec<ChatMessage>) -> (r: String)
    ensures
        r@ == json_of_pairs(pairs_of_history(history_view(h@))),
        history_of_text(r@) == Some(history_view(h@)),
{
    let pairs = history_to_pairs(h);
    proof {
        lemma_pairs_round_trip(history_view(h@));
    }
    match pairs_to_json(&pairs) {
        Some(s) => s,
        None => {
            proof {
                assert(false);
            }
            String::new()
        },
    }
}

/// The history stored under a text; a text that is no stored history is
/// reported as corrupt.
pub fn decode_history(s: &str) -> (r: Result<Vec<ChatMessage>, Error>)
    ensures
        match history_of_text(s@) {
            Some(h) => r matches Ok(v) && history_view(v@) == h,
            None => r == Err::<Vec<ChatMessage>, Error>(Error::HistoryCorrupted),
        },
{
    match json_to_pairs(s) {
        Some(p) => history_from_pairs(p),
        None => Err(Error::HistoryCorrupted),
    }
}

} // verus!
