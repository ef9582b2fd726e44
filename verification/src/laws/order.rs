//! The order of the participants, stated on the bytes of their logins.
use vstd::prelude::*;
use vstd::utf8::encode_utf8;

use crate::elements::LeftItemView;
use crate::face_pile::{collaborator_pile, collaborator_piles};
use crate::item::CollabTitlebarItem;
use crate::order::{
    bytes_precede, login_order, login_order_exists, positions, precedes, shown_before,
};
use crate::render::{people, titlebar};
use crate::snapshot::{RemoteParticipant, Snapshot, Workspace};

verus! {

/// Byte strings that agree before `k` and differ there are ordered by what is at `k`.
proof fn lemma_first_difference(a: Seq<u8>, b: Seq<u8>, k: int)
    requires
        0 <= k <= a.len(),
        k <= b.len(),
        k < a.len() || k < b.len(),
        forall|i: int| 0 <= i < k ==> a[i] == b[i],
        k < a.len() && k < b.len() ==> a[k] != b[k],
    ensures
        bytes_precede(a, b) <==> k < b.len() && (k == a.len() || a[k] < b[k]),
    decreases k,
{
    if k > 0 {
        assert(a[0] == b[0]);
        let a_rest = a.drop_first();
        let b_rest = b.drop_first();
        assert forall|i: int| 0 <= i < k - 1 implies a_rest[i] == b_rest[i] by {
            assert(a[i + 1] == b[i + 1]);
        }
        lemma_first_difference(a_rest, b_rest, k - 1);
    }
}

/// Two strings are ordered by the first byte in which their encodings differ, the smaller number
/// first; a string whose encoding ends there comes first.
pub proof fn strings_are_ordered_by_their_first_difference(a: Seq<char>, b: Seq<char>, k: int)
    requires
        0 <= k <= encode_utf8(a).len(),
        k <= encode_utf8(b).len(),
        k < encode_utf8(a).len() || k < encode_utf8(b).len(),
        forall|i: int| 0 <= i < k ==> #[trigger] encode_utf8(a)[i] == encode_utf8(b)[i],
        k < encode_utf8(a).len() && k < encode_utf8(b).len() ==> encode_utf8(a)[k]
            != encode_utf8(b)[k],
    ensures
        precedes(a, b) <==> k < encode_utf8(b).len() && (k == encode_utf8(a).len()
            || encode_utf8(a)[k] < encode_utf8(b)[k]),
        precedes(b, a) <==> k < encode_utf8(a).len() && (k == encode_utf8(b).len()
            || encode_utf8(b)[k] < encode_utf8(a)[k]),
{
    lemma_first_difference(encode_utf8(a), encode_utf8(b), k);
    lemma_first_difference(encode_utf8(b), encode_utf8(a), k);
}

/// No string comes before itself.
pub proof fn equal_strings_are_not_ordered(a: Seq<char>, b: Seq<char>)
    requires
        encode_utf8(a) == encode_utf8(b),
    ensures
        !precedes(a, b),
{
    lemma_not_before_itself(encode_utf8(a));
}

proof fn lemma_not_before_itself(a: Seq<u8>)
    ensures
        !bytes_precede(a, a),
    decreases a.len(),
{
    if a.len() > 0 {
        lemma_not_before_itself(a.drop_first());
    }
}

/// The order lists every participant exactly once.
pub proof fn order_lists_everybody_once(participants: Seq<RemoteParticipant>, p: int)
    ensures
        login_order(participants).len() == participants.len(),
        login_order(participants).contains(p) <==> 0 <= p < participants.len(),
        forall|i: int, j: int|
            0 <= i < j < participants.len() ==> #[trigger] login_order(participants)[i]
                != #[trigger] login_order(participants)[j],
{
    login_order_exists(participants);
    let order = login_order(participants);
    assert forall|i: int, j: int| 0 <= i < j < participants.len() implies #[trigger] order[i]
        != #[trigger] order[j] by {
        equal_strings_are_not_ordered(
            participants[order[i]].user.github_login@,
            participants[order[i]].user.github_login@,
        );
    }
}

/// Of two participants, the one with the smaller byte where the encodings of their logins first
/// differ comes first, and so does one whose login ends there.
pub proof fn participants_are_ordered_by_the_bytes_of_their_logins(
    participants: Seq<RemoteParticipant>,
    p: int,
    q: int,
    k: int,
) -> (at: (int, int))
    requires
        0 <= p < participants.len(),
        0 <= q < participants.len(),
        ({
            let a = encode_utf8(participants[p].user.github_login@);
            let b = encode_utf8(participants[q].user.github_login@);
            &&& 0 <= k <= a.len()
            &&& k < b.len()
            &&& forall|i: int| 0 <= i < k ==> a[i] == b[i]
            &&& k == a.len() || a[k] < b[k]
        }),
    ensures
        0 <= at.0 < at.1 < login_order(participants).len(),
        login_order(participants)[at.0] == p,
        login_order(participants)[at.1] == q,
{
    let a = participants[p].user.github_login@;
    let b = participants[q].user.github_login@;
    let order = login_order(participants);
    login_order_exists(participants);
    assert(order.contains(p));
    assert(order.contains(q));
    let i = choose|i: int| 0 <= i < order.len() && order[i] == p;
    let j = choose|j: int| 0 <= j < order.len() && order[j] == q;
    lemma_first_difference(encode_utf8(a), encode_utf8(b), k);
    lemma_first_difference(encode_utf8(b), encode_utf8(a), k);
    assert(a != b);
    if j < i {
        assert(shown_before(participants, order[j], order[i]));
    }
    (i, j)
}

/// Participants with the same login keep the order in which the call lists them.
pub proof fn participants_with_one_login_keep_their_order(
    participants: Seq<RemoteParticipant>,
    p: int,
    q: int,
) -> (at: (int, int))
    requires
        0 <= p < q < participants.len(),
        participants[p].user.github_login@ == participants[q].user.github_login@,
    ensures
        0 <= at.0 < at.1 < login_order(participants).len(),
        login_order(participants)[at.0] == p,
        login_order(participants)[at.1] == q,
{
    let login = participants[p].user.github_login@;
    let order = login_order(participants);
    login_order_exists(participants);
    assert(order.contains(p));
    assert(order.contains(q));
    let i = choose|i: int| 0 <= i < order.len() && order[i] == p;
    let j = choose|j: int| 0 <= j < order.len() && order[j] == q;
    equal_strings_are_not_ordered(login, login);
    if j < i {
        assert(shown_before(participants, order[j], order[i]));
    }
    (i, j)
}

/// In the bar of a user in a call, the people stand in that order behind the title and the user.
pub proof fn people_stand_in_the_order_of_their_logins(
    item: &CollabTitlebarItem,
    cx: &Snapshot,
    workspace: &Workspace,
    i: int,
)
    requires
        cx.user_store.current_user is Some,
        cx.client.peer_id is Some,
        cx.room is Some,
        0 <= i < cx.room->0.remote_participants@.len(),
    ensures
        titlebar(item, cx, workspace).left.len() == cx.room->0.remote_participants@.len() + 2,
        titlebar(item, cx, workspace).left[i + 2] == LeftItemView::Person(
            collaborator_pile(
                cx.room->0.remote_participants@[login_order(cx.room->0.remote_participants@)[i]],
                workspace,
                &cx.theme,
                &cx.room,
            ),
        ),
{
    let participants = cx.room->0.remote_participants@;
    login_order_exists(participants);
    let piles = collaborator_piles(participants, workspace, &cx.theme, &cx.room);
    assert(people(cx, workspace)[i + 1] == piles[i]);
}

/// Positions are the same numbers, in the same order.
pub proof fn positions_are_kept(order: Seq<usize>, i: int)
    requires
        0 <= i < order.len(),
    ensures
        positions(order).len() == order.len(),
        positions(order)[i] == order[i],
{
}

} // verus!
