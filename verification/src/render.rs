//! The whole title bar.
use vstd::prelude::*;

use crate::buttons::{
    connection_status, contacts_button, microphone_button, screen_sharing_button, share_button,
    sign_in_button, user_menu_button,
};
use crate::color::Color;
use crate::elements::{
    Alignment, LeftItem, LeftItemView, RightItem, SpacedFacePile, SpacedFacePileView, Titlebar,
    TitlebarView,
};
use crate::face_pile::{collaborator_piles, current_user_pile};
use crate::item::CollabTitlebarItem;
use crate::layers::TitlebarLayerView;
use crate::snapshot::{ImageId, Snapshot, Status, Workspace};
use crate::title::project_title;

verus! {

/// Whether the user is signed in, connected and in a call.
pub open spec fn in_call(cx: &Snapshot) -> bool {
    &&& cx.user_store.current_user is Some
    &&& cx.client.peer_id is Some
    &&& cx.room is Some
}

/// The people in the call: the user first, then the others.
pub open spec fn people(cx: &Snapshot, workspace: &Workspace) -> Seq<SpacedFacePileView>
    recommends
        in_call(cx),
{
    seq![
        current_user_pile(
            &cx.user_store.current_user->0,
            cx.client.peer_id->0,
            workspace,
            &cx.theme,
            &cx.room,
        ),
    ] + collaborator_piles(cx.room->0.remote_participants@, workspace, &cx.theme, &cx.room)
}

/// The items on the left: the title and, in a call, the people in it.
pub open spec fn left_items(cx: &Snapshot, workspace: &Workspace) -> Seq<LeftItemView> {
    let title = seq![LeftItemView::Title(project_title(&cx.project))];
    if in_call(cx) {
        title + people(cx, workspace).map_values(
            |person: SpacedFacePileView| LeftItemView::Person(person),
        )
    } else {
        title
    }
}

/// The controls of a call.
pub open spec fn call_controls(cx: &Snapshot, workspace: &Workspace) -> Seq<RightItem> {
    if in_call(cx) {
        let share = match share_button(workspace.project.is_remote, workspace.project.is_shared) {
            Some(button) => seq![RightItem::Share(button)],
            None => Seq::empty(),
        };
        share + seq![
            RightItem::Microphone(microphone_button(cx.room->0.is_muted)),
            RightItem::ScreenSharing(screen_sharing_button(cx.room->0.is_screen_sharing)),
        ]
    } else {
        Seq::empty()
    }
}

/// The picture on the button for the user menu. In a call the user's picture is on the left.
pub open spec fn menu_avatar(cx: &Snapshot) -> Option<ImageId> {
    match cx.user_store.current_user {
        Some(user) => if cx.room is None {
            user.avatar
        } else {
            None
        },
        None => None,
    }
}

/// The controls for the connection, for the contacts and for the user menu.
pub open spec fn account_controls(
    item: &CollabTitlebarItem,
    cx: &Snapshot,
    workspace: &Workspace,
) -> Seq<RightItem> {
    if workspace.client.status is Connected {
        seq![
            RightItem::Contacts(
                contacts_button(
                    item.contacts_popover,
                    cx.user_store.incoming_contact_requests@.len() > 0,
                ),
            ),
            RightItem::UserMenu(
                user_menu_button(item.user_menu, menu_avatar(cx), cx.theme.follower_avatar),
            ),
        ]
    } else {
        let status = match connection_status(workspace.client.status) {
            Some(status) => seq![RightItem::ConnectionStatus(status)],
            None => Seq::empty(),
        };
        status + seq![
            RightItem::SignIn(sign_in_button()),
            RightItem::UserMenu(user_menu_button(item.user_menu, None, cx.theme.follower_avatar)),
        ]
    }
}

/// What covers the left items under the right ones.
pub open spec fn right_background(cx: &Snapshot) -> Color {
    match cx.theme.titlebar_background {
        Some(color) => color,
        None => Color::transparent_black(),
    }
}

/// The title bar of an open window.
pub open spec fn titlebar(
    item: &CollabTitlebarItem,
    cx: &Snapshot,
    workspace: &Workspace,
) -> TitlebarView {
    TitlebarView {
        left: left_items(cx, workspace),
        right: call_controls(cx, workspace) + account_controls(item, cx, workspace),
        right_alignment: Alignment::Right,
        right_background: right_background(cx),
    }
}

/// The views of left items.
pub open spec fn left_views(items: Seq<LeftItem>) -> Seq<LeftItemView> {
    items.map_values(|item: LeftItem| item@)
}

impl CollabTitlebarItem {
    /// The title bar, or nothing once the window has been closed.
    pub fn render(&self, cx: &Snapshot) -> (bar: Option<Titlebar>)
        ensures
            match cx.workspace {
                Some(workspace) => bar matches Some(bar) && bar@ == titlebar(self, cx, &workspace)
                    && bar@.layers() == seq![
                    TitlebarLayerView::Left { items: left_items(cx, &workspace) },
                    TitlebarLayerView::Right {
                        controls: call_controls(cx, &workspace) + account_controls(
                            self,
                            cx,
                            &workspace,
                        ),
                        alignment: Alignment::Right,
                        background: right_background(cx),
                    },
                ],
                None => bar is None,
            },
    {
        let workspace = match &cx.workspace {
            Some(workspace) => workspace,
            None => {
                return None;
            },
        };
        let mut left: Vec<LeftItem> = Vec::new();
        let mut right: Vec<RightItem> = Vec::new();
        left.push(LeftItem::Title(self.collect_title_root_names(&cx.project)));
        assert(left_views(left@) =~= seq![LeftItemView::Title(project_title(&cx.project))]);
        if let (Some(user), Some(peer_id), Some(room)) = (
            &cx.user_store.current_user,
            cx.client.peer_id,
            &cx.room,
        ) {
            if let Some(button) = self.render_in_call_share_unshare_button(workspace) {
                right.push(RightItem::Share(button));
            }
            let current_user = self.render_current_user(workspace, &cx.theme, user, peer_id, cx);
            left.push(LeftItem::Person(current_user));
            let collaborators = self.render_collaborators(workspace, &cx.theme, room, cx);
            let ghost expected = collaborator_piles(
                room.remote_participants@,
                workspace,
                &cx.theme,
                &cx.room,
            );
            let ghost start = left_views(left@);
            for collaborator in iter: collaborators
                invariant
                    iter.seq().map_values(|pile: SpacedFacePile| pile@) == expected,
                    left_views(left@) == start + expected.take(iter.index() as int).map_values(
                        |person: SpacedFacePileView| LeftItemView::Person(person),
                    ),
            {
                let ghost before = left_views(left@);
                assert(collaborator@ == expected[iter.index() as int]);
                left.push(LeftItem::Person(collaborator));
                assert(left_views(left@) =~= before.push(
                    LeftItemView::Person(expected[iter.index() as int]),
                ));
                assert(expected.take(iter.index() + 1) =~= expected.take(iter.index() as int).push(
                    expected[iter.index() as int],
                ));
            }
            assert(left_views(left@) =~= left_items(cx, workspace));
            right.push(RightItem::Microphone(self.render_toggle_microphone(room)));
            right.push(RightItem::ScreenSharing(self.render_toggle_screen_sharing_button(room)));
        }
        assert(left_views(left@) =~= left_items(cx, workspace));
        assert(right@ =~= call_controls(cx, workspace));

        let status = workspace.client.status;
        if matches!(status, Status::Connected) {
            right.push(RightItem::Contacts(self.render_toggle_contacts_button(cx)));
            let avatar = match (&cx.room, &cx.user_store.current_user) {
                (None, Some(user)) => user.avatar,
                _ => None,
            };
            right.push(RightItem::UserMenu(self.render_user_menu_button(&cx.theme, avatar)));
        } else {
            if let Some(shown) = self.render_connection_status(status) {
                right.push(RightItem::ConnectionStatus(shown));
            }
            right.push(RightItem::SignIn(self.render_sign_in_button()));
            right.push(RightItem::UserMenu(self.render_user_menu_button(&cx.theme, None)));
        }
        assert(right@ =~= call_controls(cx, workspace) + account_controls(self, cx, workspace));
        let background: Color = match cx.theme.titlebar_background {
            Some(color) => color,
            None => Color::transparent_black(),
        };
        Some(
            Titlebar {
                left,
                right,
                right_alignment: Alignment::Right,
                right_background: background,
            },
        )
    }
}

} // verus!
