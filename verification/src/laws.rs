//! Properties that hold across the functions of this crate.
//!
//! The modules below state, part by part, what is shown and done for every state of the
//! application:
//!
//! - [`bar`]: the items of the bar;
//! - [`people`]: the people in the call;
//! - [`order`]: the order in which they stand;
//! - [`state`]: the answers to clicks, actions and signals;
//! - [`parts`]: views, layers and the ribbon.
use vstd::prelude::*;

use crate::buttons::{
    connection_status, contacts_button, microphone_button, share_button, user_menu_button,
};
use crate::color::{Paint, ReplicaId};
use crate::elements::{
    Action, Click, Face, IconButtonStyle, LeftItemView, Length, RightItem,
};
use crate::face_pile::{
    collaborator_pile, collaborator_piles, current_user_pile, face_background, face_pile,
    follower_avatar, follower_face, follower_faces, is_elsewhere, is_followed_by_self,
    located_style, marking_replica,
};
use crate::item::{
    after_click, after_reaction, click_of_action, effects_of_click, effects_of_reaction,
    notification_of, subscriptions_of, user_menu_items, CollabTitlebarItem, Effect, MenuItem,
    Reaction, Signal, Source, UserStoreEvent, WorkspaceHandles,
};
use crate::order::{
    login_order, login_order_exists, order_of_strings_is_total, precedes, shown_before,
};
use crate::render::{account_controls, call_controls, in_call, left_items, people, titlebar};
use crate::ribbon::ribbon_outline;
use crate::snapshot::{
    AvatarStyle, ImageId, ModelId, ParticipantLocation, PeerId, RemoteParticipant,
    RemoteProjectId, Room, Snapshot, Theme, User, ViewId, Workspace,
};
use crate::title::project_title;

pub mod bar;
pub mod order;
pub mod parts;
pub mod people;
pub mod state;

verus! {

/// Toggling alternates: what toggling leaves of an open popover asks for a new one when it is
/// toggled again, the new one is open once it has been made, and toggling a third time
/// leaves what the first time left.
pub proof fn toggling_the_popover_alternates(
    item: CollabTitlebarItem,
    old_popover: ViewId,
    new_popover: ViewId,
)
    requires
        item.contacts_popover == Some(old_popover),
    ensures
        item.toggle_effects() == seq![Effect::Notify],
        ({
            let closed = item.with_popover(None);
            let reopened = closed.with_popover(Some(new_popover));
            &&& closed.contacts_popover is None
            &&& closed.toggle_effects() == seq![
                Effect::AddContactsPopover {
                    project: item.project,
                    user_store: item.user_store,
                    workspace: item.workspace,
                },
            ]
            &&& reopened.contacts_popover == Some(new_popover)
            &&& reopened.toggle_effects() == seq![Effect::Notify]
            &&& reopened.with_popover(None) == closed
        }),
{
}

/// Each handled action is handled as its name says, and leaves the title bar as it was but for
/// the popover that it closes. The action for the user menu shows that, and has no effects.
pub proof fn actions_have_their_handlers(item: CollabTitlebarItem, workspace_open: bool)
    ensures
        ({
            let toggle = click_of_action(Action::ToggleContactsMenu);
            let share = click_of_action(Action::ShareProject);
            let unshare = click_of_action(Action::UnshareProject);
            let menu = click_of_action(Action::ToggleUserMenu);
            &&& toggle is Some && share is Some && unshare is Some && menu is Some
            &&& effects_of_click(item, toggle->0, workspace_open) == item.toggle_effects()
            &&& after_click(item, toggle->0) == item.with_popover(None)
            &&& effects_of_click(item, share->0, workspace_open) == seq![
                Effect::ShareProject { project: item.project },
            ]
            &&& after_click(item, share->0) == item
            &&& effects_of_click(item, unshare->0, workspace_open) == seq![
                Effect::UnshareProject { project: item.project },
            ]
            &&& after_click(item, unshare->0) == item
            &&& menu->0 is ToggleUserMenu
            &&& effects_of_click(item, menu->0, workspace_open).len() == 0
            &&& after_click(item, menu->0) == item
        }),
{
}

/// What the subscriptions of a title bar lead to: a change of the window, of its project or of
/// the user store has the bar drawn again and changes nothing of it; a change of the call has it
/// drawn again and, without a call, closes the popover; a change of the window's activation sets
/// the location accordingly; an event of the user store is shown if it is worth it. There are no
/// other subscriptions.
pub proof fn subscriptions_have_their_reactions(
    item: CollabTitlebarItem,
    handles: WorkspaceHandles,
    active_call: ModelId,
    in_room: bool,
    workspace_open: bool,
    active: bool,
    event: UserStoreEvent,
)
    requires
        item.project == handles.project,
        item.user_store == handles.user_store,
        item.subscriptions@ == subscriptions_of(handles, active_call),
    ensures
        item.subscriptions@.len() == 6,
        item.subscriptions@[0].source == Source::View(handles.workspace),
        item.subscriptions@[1].source == Source::Model(handles.project),
        item.subscriptions@[2].source == Source::Model(active_call),
        item.subscriptions@[3].source == Source::WindowActivation,
        item.subscriptions@[4].source == Source::Model(handles.user_store),
        item.subscriptions@[5].source == Source::EventsOf(handles.user_store),
        forall|i: int|
            #![trigger item.subscriptions@[i]]
            i == 0 || i == 1 || i == 4 ==> {
                let reaction = item.subscriptions@[i].reaction;
                &&& effects_of_reaction(item, reaction, Signal::Changed, workspace_open) == seq![
                    Effect::Notify,
                ]
                &&& after_reaction(item, reaction, in_room) == item
            },
        ({
            let reaction = item.subscriptions@[2].reaction;
            &&& effects_of_reaction(item, reaction, Signal::Changed, workspace_open) == seq![
                Effect::Notify,
            ]
            &&& after_reaction(item, reaction, true) == item
            &&& after_reaction(item, reaction, false) == item.with_popover(None)
        }),
        ({
            let reaction = item.subscriptions@[3].reaction;
            let signal = Signal::Activation { active };
            &&& effects_of_reaction(item, reaction, signal, workspace_open) == seq![
                Effect::SetCallLocation {
                    location: if active {
                        Some(handles.project)
                    } else {
                        None
                    },
                },
            ]
            &&& after_reaction(item, reaction, in_room) == item
        }),
        ({
            let reaction = item.subscriptions@[5].reaction;
            let effects = effects_of_reaction(
                item,
                reaction,
                Signal::Event(event),
                workspace_open,
            );
            &&& match notification_of(item, workspace_open, event) {
                Some(shown) => effects == seq![shown],
                None => effects.len() == 0,
            }
            &&& after_reaction(item, reaction, in_room) == item
        }),
{
}

/// Drawing again changes nothing, and neither does any other reaction but the one to the end of
/// a call.
pub proof fn only_the_end_of_a_call_changes_the_title_bar(
    item: CollabTitlebarItem,
    reaction: Reaction,
    in_room: bool,
)
    ensures
        after_reaction(item, Reaction::Notify, in_room) == item,
        after_reaction(item, reaction, in_room) != item ==> reaction is ActiveCallChanged
            && !in_room && item.contacts_popover is Some,
{
}

/// The popover shows up nowhere but in the contacts button: opening or closing it changes
/// no other item of the bar, and nothing at all while there is no connection.
pub proof fn popover_changes_only_the_contacts_button(
    item: CollabTitlebarItem,
    popover: Option<ViewId>,
    cx: &Snapshot,
    workspace: &Workspace,
)
    ensures
        ({
            let before = titlebar(&item, cx, workspace);
            let after = titlebar(&item.with_popover(popover), cx, workspace);
            &&& after.left == before.left
            &&& after.right_alignment == before.right_alignment
            &&& after.right_background == before.right_background
            &&& after.right.len() == before.right.len()
            &&& forall|i: int|
                0 <= i < before.right.len() && !(before.right[i] is Contacts)
                    ==> #[trigger] after.right[i] == before.right[i]
            &&& !(workspace.client.status is Connected) ==> after == before
        }),
{
    let before = titlebar(&item, cx, workspace);
    let after = titlebar(&item.with_popover(popover), cx, workspace);
    if !(workspace.client.status is Connected) {
        assert(after.right =~= before.right);
    }
}

/// While there is a connection, the contacts button is active exactly while the popover is
/// open, and exactly then the popover floats at it.
pub proof fn open_popover_is_shown(item: &CollabTitlebarItem, cx: &Snapshot, workspace: &Workspace)
    requires
        workspace.client.status is Connected,
    ensures
        exists|i: int|
            0 <= i < titlebar(item, cx, workspace).right.len() && (
            #[trigger] titlebar(item, cx, workspace).right[i] matches RightItem::Contacts(contacts)
                && contacts.button.style == (IconButtonStyle::ToggleContacts {
                active: item.contacts_popover is Some,
            }) && (contacts.popover is Some <==> item.contacts_popover is Some) && (
            item.contacts_popover matches Some(view) ==> contacts.popover->0.view == view)),
{
    let bar = titlebar(item, cx, workspace);
    let i = call_controls(cx, workspace).len() as int;
    assert(bar.right[i] == account_controls(item, cx, workspace)[0]);
}

/// Once the call has ended, no popover is shown, until one is opened again.
pub proof fn leaving_a_call_hides_the_popover(
    item: CollabTitlebarItem,
    cx: &Snapshot,
    workspace: &Workspace,
    i: int,
)
    requires
        0 <= i < titlebar(
            &after_reaction(item, Reaction::ActiveCallChanged, false),
            cx,
            workspace,
        ).right.len(),
    ensures
        titlebar(
            &after_reaction(item, Reaction::ActiveCallChanged, false),
            cx,
            workspace,
        ).right[i] matches RightItem::Contacts(contacts) ==> contacts.popover is None
            && contacts.button.style == (IconButtonStyle::ToggleContacts { active: false }),
{
}

/// Stacked parts keep their order: the contacts button lies under its badge, which lies under the
/// popover; the button for the user menu lies under the menu; the faces of a person lie under the
/// ribbon.
pub proof fn stacked_parts_keep_their_order(
    popover: Option<ViewId>,
    requests_wait: bool,
    menu: ViewId,
    avatar: Option<ImageId>,
    user: &User,
    replica_id: Option<ReplicaId>,
    peer_id: PeerId,
    location: Option<ParticipantLocation>,
    workspace: &Workspace,
    theme: &Theme,
    room: &Option<Room>,
    i: int,
    j: int,
)
    ensures
        ({
            let layers = contacts_button(popover, requests_wait).layers();
            &&& layers[0] is Button
            &&& 0 <= i < layers.len() && layers[i] is Button ==> i == 0
            &&& 0 <= i < layers.len() && 0 <= j < layers.len() && layers[i] is Badge
                && layers[j] is Popover ==> i < j
            &&& layers.len() > 1 ==> (layers.last() is Popover <==> popover is Some)
        }),
        ({
            let layers = user_menu_button(menu, avatar, theme.follower_avatar).layers();
            layers.len() == 2 && layers[0] is Button && layers[1] is Menu
        }),
        ({
            let layers = face_pile(
                user,
                replica_id,
                peer_id,
                location,
                workspace,
                theme,
                room,
            ).layers();
            0 <= i < layers.len() && 0 <= j < layers.len() && layers[i] is Faces
                && layers[j] is Ribbon ==> i < j
        }),
{
}

/// A click on a person has exactly one effect while the window is open, and none once it has
/// been closed.
pub proof fn clicks_on_people_need_a_window(
    item: CollabTitlebarItem,
    peer_id: PeerId,
    project_id: RemoteProjectId,
    user_id: u64,
)
    ensures
        effects_of_click(item, Click::ToggleFollow { peer_id }, true).len() == 1,
        effects_of_click(item, Click::JoinProject { project_id, user_id }, true).len() == 1,
        effects_of_click(item, Click::ToggleFollow { peer_id }, false).len() == 0,
        effects_of_click(item, Click::JoinProject { project_id, user_id }, false).len() == 0,
{
}

/// Everything on the right that can be clicked does something: it shows the user menu, or it
/// has exactly one effect.
pub proof fn every_control_does_something(
    item: CollabTitlebarItem,
    cx: &Snapshot,
    workspace: &Workspace,
    workspace_open: bool,
    i: int,
)
    requires
        0 <= i < titlebar(&item, cx, workspace).right.len(),
    ensures
        titlebar(&item, cx, workspace).right[i].region() matches Some(region) ==> (
        region.on_click is ToggleUserMenu <==> titlebar(&item, cx, workspace).right[i] is UserMenu)
            && (region.on_click is ToggleUserMenu || effects_of_click(
            item,
            region.on_click,
            workspace_open,
        ).len() == 1),
{
}

/// No two items on the right share a mouse region.
pub proof fn regions_on_the_right_differ(
    item: &CollabTitlebarItem,
    cx: &Snapshot,
    workspace: &Workspace,
    i: int,
    j: int,
)
    requires
        0 <= i < j < titlebar(item, cx, workspace).right.len(),
        titlebar(item, cx, workspace).right[i].region() is Some,
        titlebar(item, cx, workspace).right[j].region() is Some,
    ensures
        titlebar(item, cx, workspace).right[i].region()->0.tag != titlebar(
            item,
            cx,
            workspace,
        ).right[j].region()->0.tag,
{
    let right = titlebar(item, cx, workspace).right;
    let calls = call_controls(cx, workspace);
    let account = account_controls(item, cx, workspace);
    let count = calls.len() as int;
    if j < count {
        assert(right[i] == calls[i] && right[j] == calls[j]);
    } else if i < count {
        assert(right[i] == calls[i] && right[j] == account[j - count]);
        assert(calls[i] is Share || calls[i] is Microphone || calls[i] is ScreenSharing);
    } else {
        assert(right[i] == account[i - count] && right[j] == account[j - count]);
    }
}

/// The share button of a project that is not shared asks to share the project of the title bar,
/// and that of one that is shared asks to stop sharing the same project.
pub proof fn share_button_starts_and_stops(item: CollabTitlebarItem, workspace_open: bool)
    ensures
        ({
            let starting = share_button(false, false)->0.region.on_click;
            let stopping = share_button(false, true)->0.region.on_click;
            &&& effects_of_click(item, starting, workspace_open) == seq![
                Effect::ShareProject { project: item.project },
            ]
            &&& effects_of_click(item, stopping, workspace_open) == seq![
                Effect::UnshareProject { project: item.project },
            ]
        }),
{
}

/// The left side starts with the title, and has no other.
pub proof fn title_comes_first(cx: &Snapshot, workspace: &Workspace)
    ensures
        left_items(cx, workspace).len() > 0,
        left_items(cx, workspace)[0] == LeftItemView::Title(project_title(&cx.project)),
        forall|i: int|
            0 < i < left_items(cx, workspace).len() ==> (#[trigger] left_items(
                cx,
                workspace,
            )[i]) is Person,
{
}

/// Without a call the left side is the title alone. In a call the user and every other
/// participant are there, once each.
pub proof fn everybody_in_the_call_is_shown(cx: &Snapshot, workspace: &Workspace)
    ensures
        !in_call(cx) ==> left_items(cx, workspace).len() == 1,
        in_call(cx) ==> left_items(cx, workspace).len() == 2
            + cx.room->0.remote_participants@.len(),
        in_call(cx) ==> left_items(cx, workspace)[1] == LeftItemView::Person(
            current_user_pile(
                &cx.user_store.current_user->0,
                cx.client.peer_id->0,
                workspace,
                &cx.theme,
                &cx.room,
            ),
        ),
        in_call(cx) ==> login_order(cx.room->0.remote_participants@).no_duplicates(),
        in_call(cx) ==> forall|i: int|
            2 <= i < left_items(cx, workspace).len() ==> #[trigger] left_items(cx, workspace)[i]
                == LeftItemView::Person(
                collaborator_pile(
                    cx.room->0.remote_participants@[login_order(
                        cx.room->0.remote_participants@,
                    )[i - 2]],
                    workspace,
                    &cx.theme,
                    &cx.room,
                ),
            ),
        in_call(cx) ==> forall|p: int|
            0 <= p < cx.room->0.remote_participants@.len() ==> exists|i: int|
                2 <= i < left_items(cx, workspace).len() && #[trigger] left_items(cx, workspace)[i]
                    == LeftItemView::Person(
                    collaborator_pile(
                        #[trigger] cx.room->0.remote_participants@[p],
                        workspace,
                        &cx.theme,
                        &cx.room,
                    ),
                ),
{
    if in_call(cx) {
        let participants = cx.room->0.remote_participants@;
        let order = login_order(participants);
        login_order_exists(participants);
        assert forall|i: int, j: int| 0 <= i < j < order.len() implies order[i] != order[j] by {
            let login = participants[order[i]].user.github_login@;
            assert(shown_before(participants, order[i], order[j]));
            order_of_strings_is_total(login, login, login);
        }
        assert forall|i: int| 2 <= i < left_items(cx, workspace).len() implies #[trigger] left_items(
            cx,
            workspace,
        )[i] == LeftItemView::Person(
            collaborator_pile(participants[order[i - 2]], workspace, &cx.theme, &cx.room),
        ) by {
            let piles = collaborator_piles(participants, workspace, &cx.theme, &cx.room);
            assert(people(cx, workspace)[i - 1] == piles[i - 2]);
        }
        assert forall|p: int| 0 <= p < participants.len() implies exists|i: int|
            2 <= i < left_items(cx, workspace).len() && #[trigger] left_items(cx, workspace)[i]
                == LeftItemView::Person(
                collaborator_pile(
                    #[trigger] participants[p],
                    workspace,
                    &cx.theme,
                    &cx.room,
                ),
            ) by {
            assert(order.contains(p));
            let at = choose|at: int| 0 <= at < order.len() && order[at] == p;
            let piles = collaborator_piles(participants, workspace, &cx.theme, &cx.room);
            assert(piles[at] == collaborator_pile(participants[p], workspace, &cx.theme, &cx.room));
            assert(people(cx, workspace)[at + 1] == piles[at]);
            assert(left_items(cx, workspace)[at + 2] == LeftItemView::Person(piles[at]));
        }
    }
}

/// The other participants are shown in the order of their logins.
pub proof fn people_are_sorted_by_login(cx: &Snapshot, workspace: &Workspace, i: int, j: int)
    requires
        in_call(cx),
        2 <= i < j < left_items(cx, workspace).len(),
    ensures
        ({
            let participants = cx.room->0.remote_participants@;
            exists|p: int, q: int|
                #![trigger participants[p], participants[q]]
                {
                    &&& 0 <= p < participants.len()
                    &&& 0 <= q < participants.len()
                    &&& p != q
                    &&& left_items(cx, workspace)[i] == LeftItemView::Person(
                        collaborator_pile(participants[p], workspace, &cx.theme, &cx.room),
                    )
                    &&& left_items(cx, workspace)[j] == LeftItemView::Person(
                        collaborator_pile(participants[q], workspace, &cx.theme, &cx.room),
                    )
                    &&& !precedes(
                        participants[q].user.github_login@,
                        participants[p].user.github_login@,
                    )
                    &&& participants[p].user.github_login@ == participants[q].user.github_login@
                        ==> p < q
                }
        }),
{
    let participants = cx.room->0.remote_participants@;
    let order = login_order(participants);
    login_order_exists(participants);
    let p = order[i - 2];
    let q = order[j - 2];
    let piles = collaborator_piles(participants, workspace, &cx.theme, &cx.room);
    assert(people(cx, workspace)[i - 1] == piles[i - 2]);
    assert(people(cx, workspace)[j - 1] == piles[j - 2]);
    assert(shown_before(participants, p, q));
    let p_login = participants[p].user.github_login@;
    let q_login = participants[q].user.github_login@;
    order_of_strings_is_total(p_login, q_login, p_login);
    order_of_strings_is_total(q_login, p_login, q_login);
    assert(participants[p] == participants[order[i - 2]]);
    assert(participants[q] == participants[order[j - 2]]);
}

/// Where no two participants share a login, the order in which they are shown does not depend
/// on the order in which the call lists them.
pub proof fn order_of_the_room_does_not_matter(
    a: Seq<RemoteParticipant>,
    b: Seq<RemoteParticipant>,
    i: int,
)
    requires
        a.len() == b.len(),
        forall|participant: RemoteParticipant| a.contains(participant) <==> b.contains(participant),
        forall|p: int, q: int|
            0 <= p < q < a.len() ==> (#[trigger] a[p]).user.github_login@ != (
            #[trigger] a[q]).user.github_login@,
        forall|p: int, q: int|
            0 <= p < q < b.len() ==> (#[trigger] b[p]).user.github_login@ != (
            #[trigger] b[q]).user.github_login@,
        0 <= i < a.len(),
    ensures
        a[login_order(a)[i]] == b[login_order(b)[i]],
    decreases i,
{
    let order_a = login_order(a);
    let order_b = login_order(b);
    login_order_exists(a);
    login_order_exists(b);
    let x = a[order_a[i]];
    let y = b[order_b[i]];
    if x != y {
        let x_login = x.user.github_login@;
        let y_login = y.user.github_login@;
        // Each of the two stands behind position `i` in the other order.
        assert(a.contains(x));
        assert(b.contains(y));
        let x_in_b = choose|p: int| 0 <= p < b.len() && b[p] == x;
        let y_in_a = choose|p: int| 0 <= p < a.len() && a[p] == y;
        assert(order_b.contains(x_in_b));
        assert(order_a.contains(y_in_a));
        let x_at = choose|k: int| 0 <= k < order_b.len() && order_b[k] == x_in_b;
        let y_at = choose|k: int| 0 <= k < order_a.len() && order_a[k] == y_in_a;
        if x_at < i {
            order_of_the_room_does_not_matter(a, b, x_at);
            assert(shown_before(a, order_a[x_at], order_a[i]));
            order_of_strings_is_total(x_login, x_login, x_login);
            assert(false);
        }
        if y_at < i {
            order_of_the_room_does_not_matter(a, b, y_at);
            assert(shown_before(b, order_b[y_at], order_b[i]));
            order_of_strings_is_total(y_login, y_login, y_login);
            assert(false);
        }
        assert(shown_before(b, order_b[i], order_b[x_at]));
        assert(shown_before(a, order_a[i], order_a[y_at]));
        order_of_strings_is_total(x_login, y_login, x_login);
        assert(x_login != y_login) by {
            if order_a[i] < y_in_a {
                assert(a[order_a[i]].user.github_login@ != a[y_in_a].user.github_login@);
            } else {
                assert(a[y_in_a].user.github_login@ != a[order_a[i]].user.github_login@);
            }
        }
    }
}

/// The button for the user menu is at the right end, and nowhere else.
pub proof fn user_menu_is_at_the_right_end(
    item: &CollabTitlebarItem,
    cx: &Snapshot,
    workspace: &Workspace,
)
    ensures
        titlebar(item, cx, workspace).right.len() > 0,
        titlebar(item, cx, workspace).right.last() is UserMenu,
        forall|i: int|
            0 <= i < titlebar(item, cx, workspace).right.len() - 1 ==> !((#[trigger] titlebar(
                item,
                cx,
                workspace,
            ).right[i]) is UserMenu),
{
}

/// The right side offers the contacts while there is a connection and to sign in while there
/// is none; it speaks of the connection only in the latter case.
pub proof fn contacts_or_sign_in(item: &CollabTitlebarItem, cx: &Snapshot, workspace: &Workspace)
    ensures
        ({
            let right = titlebar(item, cx, workspace).right;
            let connected = workspace.client.status is Connected;
            &&& connected <==> exists|i: int| 0 <= i < right.len() && #[trigger] right[i] is Contacts
            &&& !connected <==> exists|i: int| 0 <= i < right.len() && #[trigger] right[i] is SignIn
            &&& (exists|i: int|
                0 <= i < right.len() && #[trigger] right[i] is ConnectionStatus) <==> !connected
                && connection_status(workspace.client.status) is Some
        }),
{
    let right = titlebar(item, cx, workspace).right;
    let calls = call_controls(cx, workspace).len() as int;
    let account = account_controls(item, cx, workspace);
    assert(right[calls] == account[0]);
    assert(right[calls + 1] == account[1]);
}

/// The controls of a call are there exactly in a call, and the one for sharing only for a
/// project that the user hosts.
pub proof fn call_controls_need_a_call(
    item: &CollabTitlebarItem,
    cx: &Snapshot,
    workspace: &Workspace,
)
    ensures
        ({
            let right = titlebar(item, cx, workspace).right;
            &&& in_call(cx) <==> exists|i: int|
                0 <= i < right.len() && #[trigger] right[i] is Microphone
            &&& in_call(cx) <==> exists|i: int|
                0 <= i < right.len() && #[trigger] right[i] is ScreenSharing
            &&& in_call(cx) && !workspace.project.is_remote <==> exists|i: int|
                0 <= i < right.len() && #[trigger] right[i] is Share
        }),
{
    let right = titlebar(item, cx, workspace).right;
    let controls = call_controls(cx, workspace);
    if in_call(cx) {
        let first = controls.len() - 2;
        assert(right[first] == controls[first]);
        assert(right[first + 1] == controls[first + 1]);
        assert(right[0] == controls[0]);
    }
}

/// The picture of a connected user is on the button for the user menu exactly while there is no
/// call, and then nobody's picture is on the left. In a call it is on the left, right after the
/// title, and not on the button.
pub proof fn own_picture_is_shown_once(
    item: &CollabTitlebarItem,
    cx: &Snapshot,
    workspace: &Workspace,
)
    ensures
        ({
            let bar = titlebar(item, cx, workspace);
            let last = bar.right.last();
            let user = cx.user_store.current_user;
            &&& last is UserMenu
            &&& last->UserMenu_0.face is Some <==> {
                &&& cx.room is None
                &&& workspace.client.status is Connected
                &&& user is Some
                &&& user->0.avatar is Some
            }
            &&& last->UserMenu_0.face is Some ==> {
                &&& user->0.avatar == Some(last->UserMenu_0.face->0.avatar)
                &&& bar.left.len() == 1
            }
            &&& in_call(cx) && user->0.avatar is Some ==> {
                &&& last->UserMenu_0.face is None
                &&& bar.left.len() > 1
                &&& bar.left[1] is Person
                &&& bar.left[1]->Person_0.pile.faces is Some
                &&& Some(bar.left[1]->Person_0.pile.faces->0.leader.avatar) == user->0.avatar
            }
        }),
{
}

/// The share button says and does the opposite of what is the case: it stops sharing exactly
/// what is shared.
pub proof fn share_button_toggles(is_shared: bool)
    ensures
        share_button(true, is_shared) is None,
        share_button(false, is_shared) matches Some(button) && (button.label == "Unshare"
            <==> is_shared) && (button.label == "Share" <==> !is_shared) && (
        button.region.on_click == Click::UnshareProject <==> is_shared) && (button.region.on_click
            == Click::ShareProject <==> !is_shared),
{
    reveal_strlit("Unshare");
    reveal_strlit("Share");
    assert("Unshare"@.len() != "Share"@.len());
}

/// A microphone of which nothing is known counts as not muted.
pub proof fn unknown_microphone_is_not_muted()
    ensures
        microphone_button(None) == microphone_button(Some(false)),
        microphone_button(None) != microphone_button(Some(true)),
{
}

/// The badge is on the contacts button exactly while requests wait.
pub proof fn badge_announces_requests(
    item: &CollabTitlebarItem,
    cx: &Snapshot,
    workspace: &Workspace,
    i: int,
)
    requires
        0 <= i < titlebar(item, cx, workspace).right.len(),
    ensures
        titlebar(item, cx, workspace).right[i] matches RightItem::Contacts(contacts) ==> (
        contacts.badge is Some <==> cx.user_store.incoming_contact_requests@.len() > 0),
{
}

/// The user menu offers to sign out exactly to somebody who is signed in, and everything else
/// to everybody.
pub proof fn sign_out_needs_a_user(signed_in: bool)
    ensures
        signed_in <==> user_menu_items(signed_in).contains(
            (MenuItem::Action { label: "Sign out", action: Action::SignOut }),
        ),
        user_menu_items(true).drop_last() == user_menu_items(false),
{
    let items = user_menu_items(signed_in);
    let sign_out = MenuItem::Action { label: "Sign out", action: Action::SignOut };
    if signed_in {
        assert(items[4] == sign_out);
    }
    assert(user_menu_items(true).drop_last() =~= user_menu_items(false));
}

/// A person is shown without colour, beyond what the theme says, exactly when known to work
/// elsewhere; and to know it twice changes nothing.
pub proof fn grayscale_means_elsewhere(
    style: AvatarStyle,
    location: Option<ParticipantLocation>,
    remote_id: Option<RemoteProjectId>,
)
    ensures
        located_style(style, location, remote_id).kind == style.kind,
        !style.grayscale ==> (located_style(style, location, remote_id).grayscale <==> is_elsewhere(
            location,
            remote_id,
        )),
        style.grayscale ==> located_style(style, location, remote_id) == style,
        located_style(located_style(style, location, remote_id), location, remote_id)
            == located_style(style, location, remote_id),
{
}

/// Whether a face is a square with round corners, both of the measures for its style.
pub open spec fn is_square(face: Face) -> bool {
    &&& face.width == face.height
    &&& face.width == Length::AvatarOuterWidth(face.style.kind)
    &&& face.corner_radius == Length::AvatarOuterCornerRadius(face.style.kind)
}

/// Every picture is on a square, wherever it is shown: for a person in the call, for one of that
/// person's followers, or on the button for the user menu.
pub proof fn every_picture_is_on_a_square(
    user: &User,
    replica_id: Option<ReplicaId>,
    peer_id: PeerId,
    location: Option<ParticipantLocation>,
    workspace: &Workspace,
    theme: &Theme,
    room: &Option<Room>,
    menu: ViewId,
    avatar: ImageId,
)
    ensures
        is_square(user_menu_button(menu, Some(avatar), theme.follower_avatar).face->0),
        face_pile(user, replica_id, peer_id, location, workspace, theme, room).faces matches Some(
            faces,
        ) ==> is_square(faces.leader) && forall|i: int|
            0 <= i < faces.followers.len() ==> is_square(#[trigger] faces.followers[i]),
{
    let marked = marking_replica(replica_id, peer_id, workspace, room);
    let background = face_background(theme, marked);
    let style = theme.follower_avatar;
    let faces = follower_faces(peer_id, workspace, room, style, background);
    assert forall|i: int| 0 <= i < faces.len() implies is_square(#[trigger] faces[i]) by {
        let followers = room->0.followers(peer_id, workspace.project.remote_id->0);
        let face_of = |follower: PeerId|
            follower_face(&room->0, workspace, style, background, follower);
        assert(faces == followers.filter_map(face_of));
        assert(faces.contains(faces[i]));
        followers.lemma_filter_map_contains(face_of, faces[i]);
    }
}

/// A participant who works in the project of the window is shown in the style of the theme.
pub proof fn people_in_the_project_keep_their_colour(
    style: AvatarStyle,
    project_id: RemoteProjectId,
)
    ensures
        located_style(
            style,
            Some(ParticipantLocation::SharedProject { project_id }),
            Some(project_id),
        ) == style,
{
}

/// The user's own pile cannot be clicked, always has a ribbon, and is never drawn as being
/// elsewhere.
pub proof fn own_pile_is_passive(
    user: &User,
    peer_id: PeerId,
    workspace: &Workspace,
    theme: &Theme,
    room: &Option<Room>,
)
    ensures
        ({
            let own = current_user_pile(user, peer_id, workspace, theme, room).pile;
            &&& own.interaction is None
            &&& own.ribbon matches Some(ribbon) && ribbon.ribbon.color == Paint::ReplicaCursor(
                workspace.project.replica_id,
            )
            &&& own.faces matches Some(faces) ==> faces.leader.style == theme.leader_avatar
        }),
{
}

/// Another participant can be clicked exactly when there is somewhere to go: into the project
/// of the window, which both have joined, or into another project that is shared.
pub proof fn clickable_people(
    participant: RemoteParticipant,
    workspace: &Workspace,
    theme: &Theme,
    room: &Option<Room>,
)
    ensures
        ({
            let pile = collaborator_pile(participant, workspace, theme, room).pile;
            let joined = workspace.project.replica_of(participant.peer_id) is Some;
            &&& pile.interaction is Some <==> joined || participant.location is SharedProject
            &&& pile.interaction is Some && joined ==> pile.interaction->0.region.on_click
                == (Click::ToggleFollow { peer_id: participant.peer_id })
            &&& pile.interaction is Some && !joined ==> pile.interaction->0.region.on_click
                == (Click::JoinProject {
                project_id: participant.location->project_id,
                user_id: participant.user.id,
            })
            &&& pile.ribbon is Some <==> joined
        }),
{
}

/// People who have joined the project as different replicas have different mouse regions, and
/// so do one who has joined and one who has not.
pub proof fn regions_of_people_differ(
    a: RemoteParticipant,
    b: RemoteParticipant,
    workspace: &Workspace,
    theme: &Theme,
    room: &Option<Room>,
)
    requires
        workspace.project.replica_of(a.peer_id) is Some,
        workspace.project.replica_of(a.peer_id) != workspace.project.replica_of(b.peer_id),
        collaborator_pile(b, workspace, theme, room).pile.interaction is Some,
    ensures
        ({
            let a_region = collaborator_pile(a, workspace, theme, room).pile.interaction->0.region;
            let b_region = collaborator_pile(b, workspace, theme, room).pile.interaction->0.region;
            a_region.tag != b_region.tag || a_region.id != b_region.id
        }),
{
}

/// People in other projects who are connected as different peers have different mouse regions,
/// as far as the numbers of the peers differ once they are cut to the width of a region's number.
pub proof fn regions_of_people_elsewhere_differ(
    a: RemoteParticipant,
    b: RemoteParticipant,
    workspace: &Workspace,
    theme: &Theme,
    room: &Option<Room>,
)
    requires
        workspace.project.replica_of(a.peer_id) is None,
        workspace.project.replica_of(b.peer_id) is None,
        a.location is SharedProject,
        b.location is SharedProject,
        a.peer_id as usize != b.peer_id as usize,
    ensures
        ({
            let a_region = collaborator_pile(a, workspace, theme, room).pile.interaction->0.region;
            let b_region = collaborator_pile(b, workspace, theme, room).pile.interaction->0.region;
            a_region.tag == b_region.tag && a_region.id != b_region.id
        }),
{
}

/// A pile is marked with the colour of a replica exactly when the user follows that person;
/// then what the pile says is how to stop that. All pictures of a pile have one background.
pub proof fn marked_people_are_followed(
    user: &User,
    replica_id: Option<ReplicaId>,
    peer_id: PeerId,
    location: Option<ParticipantLocation>,
    workspace: &Workspace,
    theme: &Theme,
    room: &Option<Room>,
)
    requires
        user.avatar is Some,
    ensures
        ({
            let pile = face_pile(user, replica_id, peer_id, location, workspace, theme, room);
            let marked = is_followed_by_self(peer_id, workspace, room) && replica_id is Some;
            &&& pile.faces->0.background is Some <==> marked
            &&& pile.faces->0.leader.background is BlendedSelection <==> marked
            &&& marked ==> pile.faces->0.background == Some(Paint::ReplicaSelection(replica_id->0))
            &&& marked && location is Some ==> pile.interaction is Some
                && pile.interaction->0.tooltip == "Unfollow "@ + user.github_login@
            &&& forall|i: int|
                0 <= i < pile.faces->0.followers.len() ==> (
                #[trigger] pile.faces->0.followers[i]).background
                    == pile.faces->0.leader.background
        }),
{
    let marked = marking_replica(replica_id, peer_id, workspace, room);
    let background = face_background(theme, marked);
    let faces = follower_faces(peer_id, workspace, room, theme.follower_avatar, background);
    assert forall|i: int| 0 <= i < faces.len() implies (#[trigger] faces[i]).background
        == background by {
        follower_faces_are_of_followers(
            peer_id,
            workspace,
            room,
            theme.follower_avatar,
            background,
            i,
        );
    }
}

/// Whoever is shown behind a person follows that person in the project of the window, and is
/// shown with their own picture.
pub proof fn follower_faces_are_of_followers(
    peer_id: PeerId,
    workspace: &Workspace,
    room: &Option<Room>,
    style: AvatarStyle,
    background: Paint,
    i: int,
)
    requires
        0 <= i < follower_faces(peer_id, workspace, room, style, background).len(),
    ensures
        ({
            let face = follower_faces(peer_id, workspace, room, style, background)[i];
            &&& face.style == style
            &&& face.background == background
            &&& room is Some
            &&& workspace.project.remote_id is Some
            &&& exists|follower: PeerId| #[trigger]
                room->0.followers(peer_id, workspace.project.remote_id->0).contains(follower)
                    && follower_avatar(&room->0, workspace, follower) == Some(face.avatar)
        }),
{
    let followers = room->0.followers(peer_id, workspace.project.remote_id->0);
    let face_of = |follower: PeerId|
        follower_face(&room->0, workspace, style, background, follower);
    let faces = follower_faces(peer_id, workspace, room, style, background);
    assert(faces == followers.filter_map(face_of));
    assert(faces.contains(faces[i]));
    followers.lemma_filter_map_contains(face_of, faces[i]);
}

/// What a function gives for an element is among what it gives for the whole sequence.
proof fn lemma_filter_map_keeps<A, B>(s: Seq<A>, f: spec_fn(A) -> Option<B>, a: A, b: B)
    requires
        s.contains(a),
        f(a) == Some(b),
    ensures
        s.filter_map(f).contains(b),
    decreases s.len(),
{
    let mapped = s.filter_map(f);
    let rest = s.drop_last();
    if s.last() == a {
        assert(mapped.last() == b);
        assert(mapped[mapped.len() - 1] == b);
    } else {
        let at = choose|i: int| 0 <= i < s.len() && s[i] == a;
        assert(rest[at] == a);
        lemma_filter_map_keeps(rest, f, a, b);
        let k = choose|k: int| 0 <= k < rest.filter_map(f).len() && rest.filter_map(f)[k] == b;
        assert(mapped[k] == b);
    }
}

/// No follower with a picture is left out.
pub proof fn followers_with_a_picture_are_shown(
    peer_id: PeerId,
    workspace: &Workspace,
    room: &Room,
    style: AvatarStyle,
    background: Paint,
    follower: PeerId,
)
    requires
        workspace.project.remote_id is Some,
        room.followers(peer_id, workspace.project.remote_id->0).contains(follower),
        follower_avatar(room, workspace, follower) is Some,
    ensures
        follower_faces(peer_id, workspace, &Some(*room), style, background).contains(
            follower_face(room, workspace, style, background, follower)->0,
        ),
{
    let followers = room.followers(peer_id, workspace.project.remote_id->0);
    let face_of = |follower: PeerId| follower_face(room, workspace, style, background, follower);
    let faces = follower_faces(peer_id, workspace, &Some(*room), style, background);
    assert(faces == followers.filter_map(face_of));
    lemma_filter_map_keeps(followers, face_of, follower, face_of(follower)->0);
}

/// The outline of a ribbon ends where it starts and, for a ribbon that is at least as wide as
/// it is high, stays within the area of the ribbon.
pub proof fn ribbon_is_closed_and_inside(x: int, y: int, width: int, height: int, i: int)
    requires
        0 <= height <= width,
        0 <= i < ribbon_outline().len(),
    ensures
        ribbon_outline()[0] is Reset,
        ribbon_outline().last().end() == ribbon_outline()[0].end(),
        ({
            let (end_x, end_y) = ribbon_outline()[i].end().position(x, y, width, height);
            let (control_x, control_y) = ribbon_outline()[i].control().position(
                x,
                y,
                width,
                height,
            );
            &&& x <= end_x <= x + width
            &&& y <= end_y <= y + height
            &&& x <= control_x <= x + width
            &&& y <= control_y <= y + height
        }),
{
    assert(1 * height == height) by (nonlinear_arith);
    assert(0 * height == 0) by (nonlinear_arith);
}

} // verus!
