//! The order in which the participants of a call are shown: by login, as strings are
//! ordered, and participants with the same login in the order of the room.
use vstd::prelude::*;
use vstd::utf8::encode_utf8;

use crate::snapshot::RemoteParticipant;

verus! {

/// Whether `a` comes before `b` in lexicographic order.
pub open spec fn bytes_precede(a: Seq<u8>, b: Seq<u8>) -> bool
    decreases a.len(),
{
    if b.len() == 0 {
        false
    } else if a.len() == 0 {
        true
    } else if a[0] != b[0] {
        a[0] < b[0]
    } else {
        bytes_precede(a.drop_first(), b.drop_first())
    }
}

/// Whether the string `a` comes before the string `b`: strings are ordered by the bytes
/// of their encoding.
pub open spec fn precedes(a: Seq<char>, b: Seq<char>) -> bool {
    bytes_precede(encode_utf8(a), encode_utf8(b))
}

/// Whether the participant at position `p` is shown before the one at position `q`.
pub open spec fn shown_before(participants: Seq<RemoteParticipant>, p: int, q: int) -> bool {
    let p_login = participants[p].user.github_login@;
    let q_login = participants[q].user.github_login@;
    ||| precedes(p_login, q_login)
    ||| p_login == q_login && p < q
}

/// Whether `order` lists the first `count` positions, each once, in the order in which the
/// participants there are shown.
pub open spec fn is_order_of_first(
    participants: Seq<RemoteParticipant>,
    count: int,
    order: Seq<int>,
) -> bool {
    &&& order.len() == count
    &&& forall|i: int| 0 <= i < order.len() ==> 0 <= #[trigger] order[i] < count
    &&& forall|p: int| 0 <= p < count ==> #[trigger] order.contains(p)
    &&& forall|i: int, j: int|
        0 <= i < j < order.len() ==> shown_before(
            participants,
            #[trigger] order[i],
            #[trigger] order[j],
        )
}

/// Whether `order` lists the positions of all participants, each once, in the order in
/// which they are shown.
pub open spec fn is_login_order(participants: Seq<RemoteParticipant>, order: Seq<int>) -> bool {
    is_order_of_first(participants, participants.len() as int, order)
}

/// The positions of the participants, in the order in which they are shown.
pub open spec fn login_order(participants: Seq<RemoteParticipant>) -> Seq<int> {
    choose|order: Seq<int>| is_login_order(participants, order)
}

/// No byte string comes before itself.
proof fn lemma_bytes_irreflexive(a: Seq<u8>)
    ensures
        !bytes_precede(a, a),
    decreases a.len(),
{
    if a.len() > 0 {
        lemma_bytes_irreflexive(a.drop_first());
    }
}

/// The order of byte strings is transitive.
proof fn lemma_bytes_transitive(a: Seq<u8>, b: Seq<u8>, c: Seq<u8>)
    requires
        bytes_precede(a, b),
        bytes_precede(b, c),
    ensures
        bytes_precede(a, c),
    decreases a.len(),
{
    if a.len() > 0 && a[0] == b[0] && b[0] == c[0] {
        lemma_bytes_transitive(a.drop_first(), b.drop_first(), c.drop_first());
    }
}

/// Of two different byte strings, one comes before the other.
proof fn lemma_bytes_total(a: Seq<u8>, b: Seq<u8>)
    ensures
        a == b || bytes_precede(a, b) || bytes_precede(b, a),
    decreases a.len(),
{
    if a.len() > 0 && b.len() > 0 {
        if a[0] == b[0] {
            lemma_bytes_total(a.drop_first(), b.drop_first());
            if a.drop_first() == b.drop_first() {
                assert(a =~= seq![a[0]] + a.drop_first());
                assert(b =~= seq![b[0]] + b.drop_first());
            }
        }
    } else if a.len() == 0 && b.len() == 0 {
        assert(a =~= b);
    }
}

/// The order of strings is a strict total order.
pub proof fn order_of_strings_is_total(a: Seq<char>, b: Seq<char>, c: Seq<char>)
    ensures
        !precedes(a, a),
        precedes(a, b) && precedes(b, c) ==> precedes(a, c),
        a == b || precedes(a, b) || precedes(b, a),
{
    lemma_bytes_irreflexive(encode_utf8(a));
    if precedes(a, b) && precedes(b, c) {
        lemma_bytes_transitive(encode_utf8(a), encode_utf8(b), encode_utf8(c));
    }
    lemma_bytes_total(encode_utf8(a), encode_utf8(b));
    if encode_utf8(a) == encode_utf8(b) {
        vstd::utf8::encode_utf8_decode_utf8(a);
        vstd::utf8::encode_utf8_decode_utf8(b);
    }
}

/// The order in which participants are shown is a strict total order on their positions.
proof fn lemma_shown_before_is_total(
    participants: Seq<RemoteParticipant>,
    p: int,
    q: int,
    r: int,
)
    ensures
        !shown_before(participants, p, p),
        shown_before(participants, p, q) && shown_before(participants, q, r) ==> shown_before(
            participants,
            p,
            r,
        ),
        p == q || shown_before(participants, p, q) || shown_before(participants, q, p),
{
    order_of_strings_is_total(
        participants[p].user.github_login@,
        participants[q].user.github_login@,
        participants[r].user.github_login@,
    );
}

/// There is at most one order in which participants can be shown.
pub proof fn login_order_is_unique(
    participants: Seq<RemoteParticipant>,
    order1: Seq<int>,
    order2: Seq<int>,
)
    requires
        is_login_order(participants, order1),
        is_login_order(participants, order2),
    ensures
        order1 == order2,
{
    lemma_orders_agree(participants, order1, order2, participants.len() as int);
    assert(order1 =~= order2);
}

/// Two orders agree on their first `count` entries.
proof fn lemma_orders_agree(
    participants: Seq<RemoteParticipant>,
    order1: Seq<int>,
    order2: Seq<int>,
    count: int,
)
    requires
        is_login_order(participants, order1),
        is_login_order(participants, order2),
        0 <= count <= participants.len(),
    ensures
        forall|i: int| 0 <= i < count ==> order1[i] == order2[i],
    decreases count,
{
    if count > 0 {
        let last = count - 1;
        lemma_orders_agree(participants, order1, order2, last);
        let p = order1[last];
        let q = order2[last];
        if p != q {
            assert(order2.contains(p));
            assert(order1.contains(q));
            let at2 = choose|i: int| 0 <= i < order2.len() && order2[i] == p;
            let at1 = choose|i: int| 0 <= i < order1.len() && order1[i] == q;
            lemma_shown_before_is_total(participants, p, p, p);
            lemma_shown_before_is_total(participants, q, q, q);
            lemma_shown_before_is_total(participants, p, q, p);
            assert(at2 > last) by {
                if at2 < last {
                    assert(shown_before(participants, order1[at2], order1[last]));
                }
            }
            assert(at1 > last) by {
                if at1 < last {
                    assert(shown_before(participants, order2[at1], order2[last]));
                }
            }
            assert(shown_before(participants, order2[last], order2[at2]));
            assert(shown_before(participants, order1[last], order1[at1]));
        }
    }
}

/// Inserting the next position behind all positions that are shown before it keeps an order.
proof fn lemma_insert(
    participants: Seq<RemoteParticipant>,
    count: int,
    order: Seq<int>,
    at: int,
)
    requires
        is_order_of_first(participants, count, order),
        0 <= at <= order.len(),
        at > 0 ==> !precedes(
            participants[count].user.github_login@,
            participants[order[at - 1]].user.github_login@,
        ),
        forall|i: int|
            at <= i < order.len() ==> precedes(
                participants[count].user.github_login@,
                participants[#[trigger] order[i]].user.github_login@,
            ),
    ensures
        is_order_of_first(participants, count + 1, order.insert(at, count)),
{
    let longer = order.insert(at, count);
    order.insert_ensures(at, count);
    assert(longer[at] == count);
    assert forall|i: int| 0 <= i < at implies longer[i] == order[i] by {}
    assert forall|i: int| at < i < longer.len() implies longer[i] == order[i - 1] by {}
    assert forall|p: int| 0 <= p < count + 1 implies #[trigger] longer.contains(p) by {
        if p == count {
            assert(longer[at] == p);
        } else {
            assert(order.contains(p));
            let i = choose|i: int| 0 <= i < order.len() && order[i] == p;
            if i < at {
                assert(longer[i] == p);
            } else {
                assert(longer[i + 1] == p);
            }
        }
    }
    assert forall|i: int| 0 <= i < at implies #[trigger] shown_before(
        participants,
        order[i],
        count,
    ) by {
        let before = order[at - 1];
        lemma_shown_before_is_total(participants, before, count, before);
        assert(shown_before(participants, before, count));
        if i < at - 1 {
            assert(shown_before(participants, order[i], order[at - 1]));
            lemma_shown_before_is_total(participants, order[i], before, count);
        }
    }
    assert forall|i: int, j: int| 0 <= i < j < longer.len() implies shown_before(
        participants,
        #[trigger] longer[i],
        #[trigger] longer[j],
    ) by {
        if j < at {
            assert(shown_before(participants, order[i], order[j]));
        } else if j == at {
            assert(shown_before(participants, order[i], count));
        } else if i < at {
            assert(shown_before(participants, order[i], order[j - 1]));
        } else if i == at {
            assert(precedes(
                participants[count].user.github_login@,
                participants[order[j - 1]].user.github_login@,
            ));
        } else {
            assert(shown_before(participants, order[i - 1], order[j - 1]));
        }
    }
}

/// The place at which `count` belongs among the first `limit` entries of `order`.
spec fn insertion_point(
    participants: Seq<RemoteParticipant>,
    count: int,
    order: Seq<int>,
    limit: int,
) -> int
    decreases limit,
{
    if limit > 0 && precedes(
        participants[count].user.github_login@,
        participants[order[limit - 1]].user.github_login@,
    ) {
        insertion_point(participants, count, order, limit - 1)
    } else {
        limit
    }
}

proof fn lemma_insertion_point(
    participants: Seq<RemoteParticipant>,
    count: int,
    order: Seq<int>,
    limit: int,
)
    requires
        0 <= limit <= order.len(),
        forall|i: int|
            limit <= i < order.len() ==> precedes(
                participants[count].user.github_login@,
                participants[#[trigger] order[i]].user.github_login@,
            ),
    ensures
        ({
            let at = insertion_point(participants, count, order, limit);
            &&& 0 <= at <= limit
            &&& at > 0 ==> !precedes(
                participants[count].user.github_login@,
                participants[order[at - 1]].user.github_login@,
            )
            &&& forall|i: int|
                at <= i < order.len() ==> precedes(
                    participants[count].user.github_login@,
                    participants[#[trigger] order[i]].user.github_login@,
                )
        }),
    decreases limit,
{
    if limit > 0 && precedes(
        participants[count].user.github_login@,
        participants[order[limit - 1]].user.github_login@,
    ) {
        lemma_insertion_point(participants, count, order, limit - 1);
    }
}

/// An order of the first `count` positions.
proof fn lemma_order_exists(participants: Seq<RemoteParticipant>, count: int) -> (order: Seq<int>)
    requires
        0 <= count,
    ensures
        is_order_of_first(participants, count, order),
    decreases count,
{
    if count == 0 {
        Seq::empty()
    } else {
        let order = lemma_order_exists(participants, count - 1);
        lemma_insertion_point(participants, count - 1, order, order.len() as int);
        let at = insertion_point(participants, count - 1, order, order.len() as int);
        lemma_insert(participants, count - 1, order, at);
        order.insert(at, count - 1)
    }
}

/// Participants can always be put in the order in which they are shown.
pub proof fn login_order_exists(participants: Seq<RemoteParticipant>)
    ensures
        is_login_order(participants, login_order(participants)),
{
    let order = lemma_order_exists(participants, participants.len() as int);
    assert(is_login_order(participants, order));
}

/// Whether the string `a` comes before the string `b`.
pub fn str_precedes(a: &str, b: &str) -> (before: bool)
    ensures
        before == precedes(a@, b@),
{
    let a_bytes = a.as_bytes();
    let b_bytes = b.as_bytes();
    let mut i: usize = 0;
    assert(a_bytes@.skip(0) =~= a_bytes@);
    assert(b_bytes@.skip(0) =~= b_bytes@);
    while i < a_bytes.len() && i < b_bytes.len()
        invariant
            i <= a_bytes@.len(),
            i <= b_bytes@.len(),
            bytes_precede(a_bytes@, b_bytes@) == bytes_precede(
                a_bytes@.skip(i as int),
                b_bytes@.skip(i as int),
            ),
            a_bytes@ == encode_utf8(a@),
            b_bytes@ == encode_utf8(b@),
        decreases a_bytes@.len() - i,
    {
        if a_bytes[i] != b_bytes[i] {
            return a_bytes[i] < b_bytes[i];
        }
        assert(a_bytes@.skip(i as int).drop_first() =~= a_bytes@.skip(i + 1));
        assert(b_bytes@.skip(i as int).drop_first() =~= b_bytes@.skip(i + 1));
        i += 1;
    }
    i < b_bytes.len()
}

/// The positions in an exec list of positions, as integers.
pub open spec fn positions(order: Seq<usize>) -> Seq<int> {
    order.map_values(|position: usize| position as int)
}

/// The positions of the participants, in the order in which they are shown.
pub fn sort_by_login(participants: &Vec<RemoteParticipant>) -> (order: Vec<usize>)
    ensures
        is_login_order(participants@, positions(order@)),
        positions(order@) == login_order(participants@),
{
    let mut order: Vec<usize> = Vec::new();
    let mut count: usize = 0;
    while count < participants.len()
        invariant
            count <= participants@.len(),
            is_order_of_first(participants@, count as int, positions(order@)),
        decreases participants@.len() - count,
    {
        let login = participants[count].user.github_login.as_str();
        let mut at: usize = order.len();
        assert forall|i: int| 0 <= i < order@.len() implies #[trigger] order@[i] < count by {
            assert(positions(order@)[i] < count);
        }
        while at > 0 && str_precedes(
            login,
            participants[order[at - 1]].user.github_login.as_str(),
        )
            invariant
                at <= order@.len(),
                count < participants@.len(),
                login@ == participants@[count as int].user.github_login@,
                forall|i: int| 0 <= i < order@.len() ==> #[trigger] order@[i] < count,
                is_order_of_first(participants@, count as int, positions(order@)),
                forall|i: int|
                    at <= i < order@.len() ==> precedes(
                        participants@[count as int].user.github_login@,
                        participants@[#[trigger] positions(order@)[i]].user.github_login@,
                    ),
            decreases at,
        {
            at -= 1;
        }
        proof {
            lemma_insert(participants@, count as int, positions(order@), at as int);
        }
        let ghost before = order@;
        order.insert(at, count);
        assert(positions(order@) =~= positions(before).insert(at as int, count as int));
        count += 1;
    }
    proof {
        login_order_exists(participants@);
        login_order_is_unique(participants@, positions(order@), login_order(participants@));
    }
    order
}

} // verus!
