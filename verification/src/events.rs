use vstd::prelude::*;

use crate::records::Event;

verus! {

/// The events of `events` that belong to the group `gid`, in their order.
pub open spec fn events_of_group(events: Seq<Event>, gid: usize) -> Seq<Event> {
    events.filter(|e: Event| e.group_id == gid)
}

/// The events kept for a group are exactly its events: each kept event
/// belongs to the group and is one of the given events, every given event of
/// the group is kept, and nothing is kept beyond what was given.
pub proof fn law_events_of_group(events: Seq<Event>, gid: usize)
    ensures
        forall|i: int|
            0 <= i < events_of_group(events, gid).len() ==> {
                &&& (#[trigger] events_of_group(events, gid)[i]).group_id == gid
                &&& events.contains(events_of_group(events, gid)[i])
            },
        forall|i: int|
            0 <= i < events.len() && (#[trigger] events[i]).group_id == gid ==> events_of_group(
                events,
                gid,
            ).contains(events[i]),
        events_of_group(events, gid).len() <= events.len(),
{
    let pred = |e: Event| e.group_id == gid;
    let kept = events.filter(pred);
    assert forall|i: int| 0 <= i < kept.len() implies (#[trigger] kept[i]).group_id == gid
        && events.contains(kept[i]) by {
        events.lemma_filter_pred(pred, i);
        assert(kept.contains(kept[i]));
        events.lemma_filter_contains_rev(pred, kept[i]);
    }
    assert forall|i: int| 0 <= i < events.len() && (#[trigger] events[i]).group_id == gid implies kept.contains(
        events[i],
    ) by {
        events.lemma_filter_contains(pred, i);
    }
    events.lemma_filter_len(pred);
}

/// The positions, in `events`, of the events of the group `gid`, in
/// increasing order.
pub open spec fn group_positions(events: Seq<Event>, gid: usize) -> Seq<int>
    decreases events.len(),
{
    if events.len() == 0 {
        Seq::empty()
    } else {
        let before = group_positions(events.drop_last(), gid);
        if events.last().group_id == gid {
            before.push(events.len() - 1)
        } else {
            before
        }
    }
}

proof fn lemma_events_of_group_positions(events: Seq<Event>, gid: usize)
    ensures
        ({
            let kept = events_of_group(events, gid);
            let pos = group_positions(events, gid);
            &&& kept.len() == pos.len()
            &&& forall|k: int| 0 <= k < pos.len() ==> 0 <= #[trigger] pos[k] < events.len()
            &&& forall|k: int| 0 <= k < pos.len() ==> kept[k] == events[#[trigger] pos[k]]
            &&& forall|k: int, j: int| 0 <= k < j < pos.len() ==> #[trigger] pos[k] < #[trigger] pos[j]
            &&& forall|i: int|
                0 <= i < events.len() && (#[trigger] events[i]).group_id == gid ==> pos.contains(i)
        }),
    decreases events.len(),
{
    let pred = |e: Event| e.group_id == gid;
    if events.len() > 0 {
        let rest = events.drop_last();
        lemma_events_of_group_positions(rest, gid);
        assert(rest.push(events.last()) == events);
        rest.lemma_filter_push(events.last(), pred);
        let kept = events_of_group(events, gid);
        let pos = group_positions(events, gid);
        let kept0 = events_of_group(rest, gid);
        let pos0 = group_positions(rest, gid);
        assert forall|k: int| 0 <= k < pos.len() implies kept[k] == events[#[trigger] pos[k]] by {
            if k < pos0.len() {
                assert(kept[k] == kept0[k]);
                assert(rest[pos0[k]] == events[pos0[k]]);
            }
        }
        assert forall|i: int| 0 <= i < events.len() && (#[trigger] events[i]).group_id == gid implies pos.contains(
            i,
        ) by {
            if i < events.len() - 1 {
                assert(rest[i] == events[i]);
                assert(pos0.contains(i));
                let k = choose|k: int| 0 <= k < pos0.len() && pos0[k] == i;
                assert(pos[k] == i);
            } else {
                assert(pos[pos.len() - 1] == i);
            }
        }
    }
}

/// The events kept for a group are the events of the group, each exactly
/// once and in their order: they are the given events at increasing
/// positions, those positions are exactly the positions of the group's
/// events, and so there are as many kept events as the group has events.
pub proof fn law_events_of_group_are_its_subsequence(events: Seq<Event>, gid: usize)
    ensures
        exists|pos: Seq<int>|
            {
                &&& #[trigger] pos.len() == events_of_group(events, gid).len()
                &&& forall|k: int| 0 <= k < pos.len() ==> 0 <= #[trigger] pos[k] < events.len()
                &&& forall|k: int|
                    0 <= k < pos.len() ==> events_of_group(events, gid)[k] == events[#[trigger] pos[k]]
                &&& forall|k: int, j: int| 0 <= k < j < pos.len() ==> #[trigger] pos[k] < #[trigger] pos[j]
                &&& forall|i: int|
                    0 <= i < events.len() ==> (pos.contains(i) <==> (#[trigger] events[i]).group_id == gid)
            },
{
    lemma_events_of_group_positions(events, gid);
    let pos = group_positions(events, gid);
    let kept = events_of_group(events, gid);
    law_events_of_group(events, gid);
    assert forall|i: int| 0 <= i < events.len() implies (pos.contains(i) <==> (#[trigger] events[i]).group_id
        == gid) by {
        if pos.contains(i) {
            let k = choose|k: int| 0 <= k < pos.len() && pos[k] == i;
            assert(kept[k] == events[pos[k]]);
        }
    }
}

/// The events of the group `gid`, out of the answer to `get_events`: those
/// whose `group_id` is `gid`, in the order in which they came. A failed read
/// counts as no events at all.
pub fn get_events_by_group_id<E>(events: Result<Vec<Event>, E>, gid: usize) -> (r: Vec<Event>)
    ensures
        r@ == match events {
            Ok(all) => events_of_group(all@, gid),
            Err(_) => Seq::empty(),
        },
{
    match events {
        Ok(all) => {
            let ghost all_view = all@;
            let mut kept: Vec<Event> = Vec::new();
            for event in it: all.into_iter()
                invariant
                    it.seq() == all_view,
                    kept@ == events_of_group(all_view.take(it.index()), gid),
            {
                proof {
                    let before = all_view.take(it.index());
                    assert(all_view.take(it.index() + 1) == before.push(event));
                    before.lemma_filter_push(event, |e: Event| e.group_id == gid);
                }
                if event.group_id == gid {
                    kept.push(event);
                }
            }
            proof {
                assert(all_view.take(all_view.len() as int) == all_view);
            }
            kept
        },
        Err(_) => Vec::new(),
    }
}

} // verus!
