//! The items of the bar, stated on what the application holds.
use vstd::prelude::*;
use vstd::utf8::encode_utf8;

use crate::buttons::{
    connection_status, contacts_button, microphone_button, popover_host, screen_sharing_button,
    share_button, sign_in_button, user_menu_button,
};
use crate::color::{Color, Paint};
use crate::elements::{
    Action, Alignment, AnchorCorner, Badge, Click, ConnectionStatus, ContainerStyle, CursorStyle,
    IconButtonStyle, LeftItemView, Length, MouseRegion, OverlayFitMode, PopoverHost, RegionTag,
    RightItem, Tooltip,
};
use crate::item::CollabTitlebarItem;
use crate::render::{account_controls, call_controls, titlebar};
use crate::snapshot::{AvatarStyle, ImageId, Project, Snapshot, Status, ViewId, Workspace};
use crate::title::{project_title, title_labels};

verus! {

/// What stands at a place on the right.
proof fn lemma_right(item: &CollabTitlebarItem, cx: &Snapshot, workspace: &Workspace, i: int)
    requires
        0 <= i < titlebar(item, cx, workspace).right.len(),
    ensures
        ({
            let right = titlebar(item, cx, workspace).right;
            let calls = call_controls(cx, workspace);
            let account = account_controls(item, cx, workspace);
            &&& right.len() == calls.len() + account.len()
            &&& i < calls.len() ==> right[i] == calls[i] && (calls[i] is Share || calls[i]
                is Microphone || calls[i] is ScreenSharing)
            &&& i >= calls.len() ==> right[i] == account[i - calls.len()] && (right[i] is Contacts
                || right[i] is ConnectionStatus || right[i] is SignIn || right[i] is UserMenu)
        }),
{
}

/// Which items stand on the right, from left to right. For somebody who is signed in, connected
/// as a peer and in a call: the share button unless somebody else hosts the project, the
/// microphone and the screen sharing. Then, with a connection, the contacts and the user menu;
/// without one, what is to be said about the connection, the button for signing in and the user
/// menu.
pub proof fn items_on_the_right(item: &CollabTitlebarItem, cx: &Snapshot, workspace: &Workspace)
    ensures
        ({
            let right = titlebar(item, cx, workspace).right;
            let calling = cx.user_store.current_user is Some && cx.client.peer_id is Some
                && cx.room is Some;
            let share: int = if calling && !workspace.project.is_remote {
                1
            } else {
                0
            };
            let calls: int = if calling {
                share + 2
            } else {
                0
            };
            let words: int = match workspace.client.status {
                Status::ConnectionError => 1,
                Status::ConnectionLost => 1,
                Status::Reauthenticating => 1,
                Status::Reconnecting => 1,
                Status::ReconnectionError => 1,
                Status::UpgradeRequired => 1,
                Status::Connected => 0,
                Status::Other => 0,
            };
            &&& share == 1 ==> right[0] is Share
            &&& calling ==> right[share] is Microphone && right[share + 1] is ScreenSharing
            &&& workspace.client.status is Connected ==> {
                &&& right.len() == calls + 2
                &&& right[calls] is Contacts
                &&& right[calls + 1] is UserMenu
            }
            &&& !(workspace.client.status is Connected) ==> {
                &&& right.len() == calls + words + 2
                &&& words == 1 ==> right[calls] is ConnectionStatus
                &&& right[calls + words] is SignIn
                &&& right[calls + words + 1] is UserMenu
            }
        }),
{
    let right = titlebar(item, cx, workspace).right;
    let calls = call_controls(cx, workspace);
    let account = account_controls(item, cx, workspace);
    let count = calls.len() as int;
    assert(forall|i: int| 0 <= i < count ==> right[i] == #[trigger] calls[i]);
    assert(forall|i: int|
        0 <= i < account.len() ==> right[count + i] == #[trigger] account[i]);
    assert(account[0] == right[count]);
    assert(account[1] == right[count + 1]);
    if account.len() > 2 {
        assert(account[2] == right[count + 2]);
    }
    if calls.len() > 0 {
        assert(calls[0] == right[0]);
        assert(calls[1] == right[1]);
        if calls.len() > 2 {
            assert(calls[2] == right[2]);
        }
    }
}

/// The microphone in the bar is shown as muted, on red and with the offer to unmute it, exactly
/// if the call says that it is muted.
pub proof fn microphone_in_the_bar_shows_the_call(
    item: &CollabTitlebarItem,
    cx: &Snapshot,
    workspace: &Workspace,
    i: int,
)
    requires
        0 <= i < titlebar(item, cx, workspace).right.len(),
        titlebar(item, cx, workspace).right[i] is Microphone,
    ensures
        ({
            let button = titlebar(item, cx, workspace).right[i]->Microphone_0;
            &&& cx.room is Some
            &&& cx.room->0.is_muted == Some(true) ==> {
                &&& button.icon == "icons/microphone_inactive_12.svg"
                &&& button.background == Some(Color { r: 255, g: 0, b: 0, a: 255 })
                &&& button.tooltip.text == "Unmute microphone\nRight click for options"
            }
            &&& cx.room->0.is_muted != Some(true) ==> {
                &&& button.icon == "icons/microphone_active_12.svg"
                &&& button.background == Some(Color { r: 0, g: 0, b: 0, a: 0 })
                &&& button.tooltip.text == "Mute microphone\nRight click for options"
            }
            &&& button.region.on_click is ToggleMute
        }),
{
    lemma_right(item, cx, workspace, i);
}

/// The screen sharing in the bar is shown as on, with the offer to stop it, exactly if the call
/// says that the screen is shared.
pub proof fn screen_sharing_in_the_bar_shows_the_call(
    item: &CollabTitlebarItem,
    cx: &Snapshot,
    workspace: &Workspace,
    i: int,
)
    requires
        0 <= i < titlebar(item, cx, workspace).right.len(),
        titlebar(item, cx, workspace).right[i] is ScreenSharing,
    ensures
        ({
            let button = titlebar(item, cx, workspace).right[i]->ScreenSharing_0;
            &&& cx.room is Some
            &&& cx.room->0.is_screen_sharing ==> {
                &&& button.icon == "icons/enable_screen_sharing_12.svg"
                &&& button.tooltip.text == "Stop Sharing Screen"
            }
            &&& !cx.room->0.is_screen_sharing ==> {
                &&& button.icon == "icons/disable_screen_sharing_12.svg"
                &&& button.tooltip.text == "Share Screen"
            }
            &&& button.region.on_click is ToggleScreenSharing
        }),
{
    lemma_right(item, cx, workspace, i);
}

/// The share button in the bar offers to stop sharing exactly if the project of the window is
/// shared, and is there only for a project that nobody else hosts.
pub proof fn share_button_in_the_bar_shows_the_project(
    item: &CollabTitlebarItem,
    cx: &Snapshot,
    workspace: &Workspace,
    i: int,
)
    requires
        0 <= i < titlebar(item, cx, workspace).right.len(),
        titlebar(item, cx, workspace).right[i] is Share,
    ensures
        ({
            let button = titlebar(item, cx, workspace).right[i]->Share_0;
            &&& !workspace.project.is_remote
            &&& button.tooltip is Some
            &&& workspace.project.is_shared ==> {
                &&& button.label == "Unshare"
                &&& button.tooltip->0.text == "Unshare project from call participants"
                &&& button.region.on_click is UnshareProject
            }
            &&& !workspace.project.is_shared ==> {
                &&& button.label == "Share"
                &&& button.tooltip->0.text == "Share project with call participants"
                &&& button.region.on_click is ShareProject
            }
        }),
{
    lemma_right(item, cx, workspace, i);
}

/// What is said in the bar about the connection: that it is down, for one that has failed, is lost
/// or is being made again; that the program is outdated, where the server requires a newer one,
/// with a click that looks for it; and nothing in any other state.
pub proof fn connection_in_the_bar_shows_the_status(
    item: &CollabTitlebarItem,
    cx: &Snapshot,
    workspace: &Workspace,
    i: int,
)
    requires
        0 <= i < titlebar(item, cx, workspace).right.len(),
        titlebar(item, cx, workspace).right[i] is ConnectionStatus,
    ensures
        ({
            let shown = titlebar(item, cx, workspace).right[i]->ConnectionStatus_0;
            match workspace.client.status {
                Status::Connected => false,
                Status::Other => false,
                Status::UpgradeRequired => {
                    &&& shown is Outdated
                    &&& shown->label == "Please update Zed to collaborate"
                    &&& shown->region.on_click is CheckForUpdates
                },
                _ => shown is Offline && shown->icon == "icons/cloud_slash_12.svg",
            }
        }),
{
    lemma_right(item, cx, workspace, i);
}

/// The contacts button in the bar has a badge exactly if somebody asks to become a contact, is
/// active exactly while the popover is open, and then carries that popover.
pub proof fn contacts_in_the_bar_show_requests_and_popover(
    item: &CollabTitlebarItem,
    cx: &Snapshot,
    workspace: &Workspace,
    i: int,
)
    requires
        0 <= i < titlebar(item, cx, workspace).right.len(),
        titlebar(item, cx, workspace).right[i] is Contacts,
    ensures
        ({
            let contacts = titlebar(item, cx, workspace).right[i]->Contacts_0;
            &&& workspace.client.status is Connected
            &&& contacts.badge is Some <==> cx.user_store.incoming_contact_requests@.len() != 0
            &&& contacts.popover is Some <==> item.contacts_popover is Some
            &&& item.contacts_popover is Some ==> contacts.popover->0.view
                == item.contacts_popover->0
            &&& contacts.button.style == (IconButtonStyle::ToggleContacts {
                active: item.contacts_popover is Some,
            })
            &&& contacts.button.icon == "icons/user_plus_16.svg"
            &&& contacts.button.tooltip.text == "Show contacts menu"
            &&& contacts.button.region.on_click is ToggleContactsPopover
        }),
{
    lemma_right(item, cx, workspace, i);
}

/// The user menu in the bar is that of the title bar. Its button carries the picture of the
/// signed-in user while there is a connection and no call, in the theme's style for followers, and
/// no picture otherwise.
pub proof fn user_menu_in_the_bar_shows_the_user(
    item: &CollabTitlebarItem,
    cx: &Snapshot,
    workspace: &Workspace,
    i: int,
)
    requires
        0 <= i < titlebar(item, cx, workspace).right.len(),
        titlebar(item, cx, workspace).right[i] is UserMenu,
    ensures
        ({
            let shown = titlebar(item, cx, workspace).right[i]->UserMenu_0;
            let user = cx.user_store.current_user;
            let pictured = workspace.client.status is Connected && cx.room is None && user is Some
                && user->0.avatar is Some;
            &&& shown.menu == item.user_menu
            &&& pictured ==> {
                &&& shown.face is Some
                &&& Some(shown.face->0.avatar) == user->0.avatar
                &&& shown.face->0.style == cx.theme.follower_avatar
                &&& shown.face->0.background == Paint::Solid(Color { r: 0, g: 0, b: 0, a: 0 })
            }
            &&& !pictured ==> shown.face is None
            &&& shown.button.icon == "icons/caret_down_8.svg"
            &&& shown.button.tooltip.text == "Toggle user menu"
            &&& shown.button.region.on_click is ToggleUserMenu
        }),
{
    lemma_right(item, cx, workspace, i);
}

/// The button for signing in is there only without a connection, says so, and signs in.
pub proof fn sign_in_in_the_bar_signs_in(
    item: &CollabTitlebarItem,
    cx: &Snapshot,
    workspace: &Workspace,
    i: int,
)
    requires
        0 <= i < titlebar(item, cx, workspace).right.len(),
        titlebar(item, cx, workspace).right[i] is SignIn,
    ensures
        ({
            let button = titlebar(item, cx, workspace).right[i]->SignIn_0;
            &&& !(workspace.client.status is Connected)
            &&& button.label == "Sign In"
            &&& button.region.on_click is SignIn
        }),
{
    lemma_right(item, cx, workspace, i);
}

/// The right side lies at the right end, on the background of the title bar, or on a transparent
/// one if the title bar has none.
pub proof fn right_side_covers_the_left(
    item: &CollabTitlebarItem,
    cx: &Snapshot,
    workspace: &Workspace,
)
    ensures
        titlebar(item, cx, workspace).right_alignment is Right,
        cx.theme.titlebar_background matches Some(color) ==> titlebar(
            item,
            cx,
            workspace,
        ).right_background == color,
        cx.theme.titlebar_background is None ==> titlebar(item, cx, workspace).right_background
            == (Color { r: 0, g: 0, b: 0, a: 0 }),
{
}

/// The title is the name of the first visible folder of the project, all of it highlighted, and
/// empty without one; behind it stands, after a slash and without highlights, the branch that is
/// checked out there, if there is one.
pub proof fn title_names_the_first_folder(project: &Project)
    ensures
        ({
            let title = project_title(project);
            let folders = project.visible_worktrees@;
            let entry = folders[0].root_git_entry;
            let has_branch = folders.len() > 0 && entry is Some && entry->0.branch is Some;
            &&& folders.len() == 0 ==> title.name.text.len() == 0
            &&& folders.len() > 0 ==> title.name.text == folders[0].root_name@
            &&& title.name.highlights.len() == encode_utf8(title.name.text).len()
            &&& forall|i: int|
                0 <= i < title.name.highlights.len() ==> #[trigger] title.name.highlights[i]
                    == i as usize
            &&& title.name.margin_right is None
            &&& title.name.alignment is Left
            &&& title.name.element_name == "title-project-name"
            &&& !has_branch ==> title.branch is None
            &&& has_branch ==> {
                let label = title.branch->0;
                let branch = entry->0.branch->0@;
                &&& title.branch is Some
                &&& label.text.len() == branch.len() + 1
                &&& label.text[0] == '/'
                &&& forall|i: int|
                    0 <= i < branch.len() ==> #[trigger] branch[i] == label.text[i + 1]
                &&& label.highlights.len() == 0
                &&& label.margin_right == Some(Length::ItemSpacing)
                &&& label.alignment is Left
                &&& label.element_name == "title-project-branch"
            }
            &&& title_labels(project).len() == (if has_branch {
                2int
            } else {
                1
            })
            &&& title_labels(project)[0] == title.name
            &&& has_branch ==> Some(title_labels(project)[1]) == title.branch
        }),
{
    reveal_strlit("");
    reveal_strlit("/");
    let title = project_title(project);
    if title.branch is Some {
        let branch = project.visible_worktrees@[0].root_git_entry->0.branch->0@;
        assert(title.branch->0.text == "/"@ + branch);
        assert(title.branch->0.text[0] == "/"@[0]);
        assert forall|i: int| 0 <= i < branch.len() implies #[trigger] branch[i]
            == title.branch->0.text[i + 1] by {}
    }
}

/// The bar starts with the title of the project that the title bar was made for.
pub proof fn bar_starts_with_the_title(
    item: &CollabTitlebarItem,
    cx: &Snapshot,
    workspace: &Workspace,
)
    ensures
        titlebar(item, cx, workspace).left.len() > 0,
        titlebar(item, cx, workspace).left[0] == LeftItemView::Title(project_title(&cx.project)),
{
}

/// The microphone button, in both states. It is muted only if it is known to be.
pub proof fn microphone_button_in_both_states(is_muted: Option<bool>)
    ensures
        ({
            let button = microphone_button(is_muted);
            &&& is_muted == Some(true) ==> {
                &&& button.icon == "icons/microphone_inactive_12.svg"
                &&& button.background == Some(Color { r: 255, g: 0, b: 0, a: 255 })
                &&& button.tooltip == (Tooltip {
                    id: 0,
                    text: "Unmute microphone\nRight click for options",
                    action: Some(Action::ToggleMute),
                })
            }
            &&& is_muted != Some(true) ==> {
                &&& button.icon == "icons/microphone_active_12.svg"
                &&& button.background == Some(Color { r: 0, g: 0, b: 0, a: 0 })
                &&& button.tooltip == (Tooltip {
                    id: 0,
                    text: "Mute microphone\nRight click for options",
                    action: Some(Action::ToggleMute),
                })
            }
            &&& button.style is CallControl
            &&& button.square
            &&& button.alignment == Some(Alignment::Center)
            &&& button.region == (MouseRegion {
                tag: RegionTag::ToggleMute,
                id: 0,
                cursor: CursorStyle::PointingHand,
                on_click: Click::ToggleMute,
            })
        }),
{
}

/// The button for sharing the screen, in both states.
pub proof fn screen_sharing_button_in_both_states(is_screen_sharing: bool)
    ensures
        ({
            let button = screen_sharing_button(is_screen_sharing);
            &&& is_screen_sharing ==> {
                &&& button.icon == "icons/enable_screen_sharing_12.svg"
                &&& button.tooltip.text == "Stop Sharing Screen"
            }
            &&& !is_screen_sharing ==> {
                &&& button.icon == "icons/disable_screen_sharing_12.svg"
                &&& button.tooltip.text == "Share Screen"
            }
            &&& button.tooltip.id == 0
            &&& button.tooltip.action == Some(Action::ToggleScreenSharing)
            &&& button.style is CallControl
            &&& button.square
            &&& button.background is None
            &&& button.alignment == Some(Alignment::Center)
            &&& button.region == (MouseRegion {
                tag: RegionTag::ToggleScreenSharing,
                id: 0,
                cursor: CursorStyle::PointingHand,
                on_click: Click::ToggleScreenSharing,
            })
        }),
{
}

/// The share button, in both states, and only for a project that nobody else hosts.
pub proof fn share_button_in_both_states(is_remote: bool, is_shared: bool)
    ensures
        ({
            let shown = share_button(is_remote, is_shared);
            let button = shown->0;
            &&& shown is Some <==> !is_remote
            &&& !is_remote ==> {
                &&& button.label == (if is_shared {
                    "Unshare"
                } else {
                    "Share"
                })
                &&& button.tooltip == Some(
                    Tooltip {
                        id: 0,
                        text: if is_shared {
                            "Unshare project from call participants"
                        } else {
                            "Share project with call participants"
                        },
                        action: None,
                    },
                )
                &&& button.region == (MouseRegion {
                    tag: RegionTag::ShareUnshare,
                    id: 0,
                    cursor: CursorStyle::PointingHand,
                    on_click: if is_shared {
                        Click::UnshareProject
                    } else {
                        Click::ShareProject
                    },
                })
                &&& button.style is Share
                &&& button.alignment == Some(Alignment::Center)
                &&& button.margin_left == Some(Length::ItemSpacing)
            }
        }),
{
}

/// The contacts button: what depends on the popover, what on waiting requests, and what on neither.
pub proof fn contacts_button_in_all_states(popover: Option<ViewId>, requests_wait: bool)
    ensures
        ({
            let contacts = contacts_button(popover, requests_wait);
            let button = contacts.button;
            &&& button.style == (IconButtonStyle::ToggleContacts { active: popover is Some })
            &&& contacts.popover == popover_host(popover)
            &&& contacts.badge is Some <==> requests_wait
            &&& requests_wait ==> contacts.badge == Some(
                Badge {
                    style: ContainerStyle::ToggleContactsBadge,
                    alignment: Alignment::Center,
                    margin_left: Length::InactiveContactsIconWidth,
                    margin_top: Length::InactiveContactsIconWidth,
                },
            )
            &&& button.icon == "icons/user_plus_16.svg"
            &&& button.square
            &&& button.background is None
            &&& button.alignment is None
            &&& button.tooltip == (Tooltip {
                id: 0,
                text: "Show contacts menu",
                action: Some(Action::ToggleContactsMenu),
            })
            &&& button.region == (MouseRegion {
                tag: RegionTag::ToggleContactsMenu,
                id: 0,
                cursor: CursorStyle::PointingHand,
                on_click: Click::ToggleContactsPopover,
            })
        }),
{
}

/// An open popover floats above everything at the lower right, hanging from its upper right corner
/// unless it does not fit.
pub proof fn open_popover_floats(popover: Option<ViewId>)
    ensures
        popover_host(popover) is Some <==> popover is Some,
        popover is Some ==> popover_host(popover) == Some(
            PopoverHost {
                view: popover->0,
                fit_mode: OverlayFitMode::SwitchAnchor,
                anchor_corner: AnchorCorner::TopRight,
                z_index: 999,
                alignment: Alignment::BottomRight,
            },
        ),
{
}

/// The button for the user menu: with a picture exactly if one is given.
pub proof fn user_menu_button_with_and_without_a_picture(
    menu: ViewId,
    avatar: Option<ImageId>,
    style: AvatarStyle,
)
    ensures
        ({
            let shown = user_menu_button(menu, avatar, style);
            &&& shown.face is Some <==> avatar is Some
            &&& avatar is Some ==> {
                &&& shown.face->0.avatar == avatar->0
                &&& shown.face->0.style == style
                &&& shown.face->0.background == Paint::Solid(Color { r: 0, g: 0, b: 0, a: 0 })
                &&& shown.face->0.width == Length::AvatarOuterWidth(style.kind)
                &&& shown.face->0.height == Length::AvatarOuterWidth(style.kind)
                &&& shown.face->0.corner_radius == Length::AvatarOuterCornerRadius(style.kind)
            }
            &&& shown.menu == menu
            &&& shown.menu_alignment is BottomRight
            &&& shown.margin_left is ItemSpacing
            &&& shown.button.icon == "icons/caret_down_8.svg"
            &&& shown.button.style is CallControl
            &&& !shown.button.square
            &&& shown.button.background is None
            &&& shown.button.alignment is None
            &&& shown.button.tooltip == (Tooltip {
                id: 0,
                text: "Toggle user menu",
                action: Some(Action::ToggleUserMenu),
            })
            &&& shown.button.region == (MouseRegion {
                tag: RegionTag::ToggleUserMenu,
                id: 0,
                cursor: CursorStyle::PointingHand,
                on_click: Click::ToggleUserMenu,
            })
        }),
{
}

/// The button for signing in.
pub proof fn sign_in_button_signs_in()
    ensures
        ({
            let button = sign_in_button();
            &&& button.label == "Sign In"
            &&& button.style is SignInPrompt
            &&& button.tooltip is None
            &&& button.alignment is None
            &&& button.margin_left is None
            &&& button.region == (MouseRegion {
                tag: RegionTag::SignIn,
                id: 0,
                cursor: CursorStyle::PointingHand,
                on_click: Click::SignIn,
            })
        }),
{
}

/// What is said about each status of the connection.
pub proof fn words_for_each_status(status: Status)
    ensures
        match status {
            Status::Connected => connection_status(status) is None,
            Status::Other => connection_status(status) is None,
            Status::UpgradeRequired => connection_status(status) == Some(
                ConnectionStatus::Outdated {
                    label: "Please update Zed to collaborate",
                    style: ContainerStyle::OutdatedWarning,
                    region: MouseRegion {
                        tag: RegionTag::ConnectionStatusButton,
                        id: 0,
                        cursor: CursorStyle::PointingHand,
                        on_click: Click::CheckForUpdates,
                    },
                    alignment: Alignment::Center,
                },
            ),
            _ => connection_status(status) == Some(
                ConnectionStatus::Offline {
                    icon: "icons/cloud_slash_12.svg",
                    style: ContainerStyle::OfflineIcon,
                    alignment: Alignment::Center,
                },
            ),
        },
{
}

/// The items of the bar are the single controls, for the state that the application is in.
pub proof fn items_in_the_bar_are_the_single_controls(
    item: &CollabTitlebarItem,
    cx: &Snapshot,
    workspace: &Workspace,
    i: int,
)
    requires
        0 <= i < titlebar(item, cx, workspace).right.len(),
    ensures
        match titlebar(item, cx, workspace).right[i] {
            RightItem::Share(button) => Some(button) == share_button(
                workspace.project.is_remote,
                workspace.project.is_shared,
            ),
            RightItem::Microphone(button) => button == microphone_button(cx.room->0.is_muted),
            RightItem::ScreenSharing(button) => button == screen_sharing_button(
                cx.room->0.is_screen_sharing,
            ),
            RightItem::Contacts(contacts) => contacts == contacts_button(
                item.contacts_popover,
                cx.user_store.incoming_contact_requests@.len() != 0,
            ),
            RightItem::ConnectionStatus(shown) => Some(shown) == connection_status(
                workspace.client.status,
            ),
            RightItem::SignIn(button) => button == sign_in_button(),
            RightItem::UserMenu(shown) => shown == user_menu_button(
                item.user_menu,
                if workspace.client.status is Connected && cx.room is None
                    && cx.user_store.current_user is Some {
                    cx.user_store.current_user->0.avatar
                } else {
                    None
                },
                cx.theme.follower_avatar,
            ),
        },
{
    lemma_right(item, cx, workspace, i);
}

} // verus!
