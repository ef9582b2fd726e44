//! The controls at the right end of the title bar.
use vstd::prelude::*;

use crate::color::{Color, Paint};
use crate::elements::{
    Action, Alignment, AnchorCorner, Badge, Click, ConnectionStatus, ContactsButton,
    ContainerStyle, CursorStyle, IconButton, IconButtonStyle, Length, MouseRegion,
    OverlayFitMode, PopoverHost, RegionTag, TextButton, TextButtonStyle, Tooltip, UserMenuButton,
};
use crate::face_pile::face;
use crate::item::CollabTitlebarItem;
use crate::layers::{ContactsLayer, UserMenuContent, UserMenuLayer};
use crate::snapshot::{AvatarStyle, ImageId, Room, Snapshot, Status, Theme, ViewId, Workspace};

verus! {

/// The region of a control of which there is only one.
pub open spec fn single_region(tag: RegionTag, on_click: Click) -> MouseRegion {
    MouseRegion { tag, id: 0, cursor: CursorStyle::PointingHand, on_click }
}

/// The tooltip of a control of which there is only one.
pub open spec fn single_tooltip(text: &'static str, action: Option<Action>) -> Tooltip {
    Tooltip { id: 0, text, action }
}

/// Where an open contacts popover floats.
pub open spec fn popover_host(popover: Option<ViewId>) -> Option<PopoverHost> {
    match popover {
        Some(view) => Some(
            PopoverHost {
                view,
                fit_mode: OverlayFitMode::SwitchAnchor,
                anchor_corner: AnchorCorner::TopRight,
                z_index: 999,
                alignment: Alignment::BottomRight,
            },
        ),
        None => None,
    }
}

/// The contacts button: active while the popover is open, and with a badge while requests wait.
pub open spec fn contacts_button(popover: Option<ViewId>, requests_wait: bool) -> ContactsButton {
    ContactsButton {
        button: IconButton {
            icon: "icons/user_plus_16.svg",
            style: IconButtonStyle::ToggleContacts { active: popover is Some },
            square: true,
            background: None,
            region: single_region(RegionTag::ToggleContactsMenu, Click::ToggleContactsPopover),
            tooltip: single_tooltip("Show contacts menu", Some(Action::ToggleContactsMenu)),
            alignment: None,
        },
        badge: if requests_wait {
            Some(
                Badge {
                    style: ContainerStyle::ToggleContactsBadge,
                    alignment: Alignment::Center,
                    margin_left: Length::InactiveContactsIconWidth,
                    margin_top: Length::InactiveContactsIconWidth,
                },
            )
        } else {
            None
        },
        popover: popover_host(popover),
    }
}

/// What is stacked for the contacts, from the bottom to the top: the button, the badge while
/// requests wait, and the popover while it is open.
pub open spec fn contacts_layers(popover: Option<ViewId>, requests_wait: bool) -> Seq<
    ContactsLayer,
> {
    let contacts = contacts_button(popover, requests_wait);
    let button = ContactsLayer::Button(contacts.button);
    let badge = ContactsLayer::Badge(contacts.badge->0);
    let host = ContactsLayer::Popover(contacts.popover->0);
    if requests_wait && popover is Some {
        seq![button, badge, host]
    } else if requests_wait {
        seq![button, badge]
    } else if popover is Some {
        seq![button, host]
    } else {
        seq![button]
    }
}

/// The button for sharing the screen.
pub open spec fn screen_sharing_button(is_screen_sharing: bool) -> IconButton {
    IconButton {
        icon: if is_screen_sharing {
            "icons/enable_screen_sharing_12.svg"
        } else {
            "icons/disable_screen_sharing_12.svg"
        },
        style: IconButtonStyle::CallControl,
        square: true,
        background: None,
        region: single_region(RegionTag::ToggleScreenSharing, Click::ToggleScreenSharing),
        tooltip: single_tooltip(
            if is_screen_sharing {
                "Stop Sharing Screen"
            } else {
                "Share Screen"
            },
            Some(Action::ToggleScreenSharing),
        ),
        alignment: Some(Alignment::Center),
    }
}

/// The button for the microphone, on red while that is muted.
pub open spec fn microphone_button(is_muted: Option<bool>) -> IconButton {
    let muted = is_muted == Some(true);
    IconButton {
        icon: if muted {
            "icons/microphone_inactive_12.svg"
        } else {
            "icons/microphone_active_12.svg"
        },
        style: IconButtonStyle::CallControl,
        square: true,
        background: Some(
            if muted {
                Color::red()
            } else {
                Color::transparent_black()
            },
        ),
        region: single_region(RegionTag::ToggleMute, Click::ToggleMute),
        tooltip: single_tooltip(
            if muted {
                "Unmute microphone\nRight click for options"
            } else {
                "Mute microphone\nRight click for options"
            },
            Some(Action::ToggleMute),
        ),
        alignment: Some(Alignment::Center),
    }
}

/// The button for sharing a project, or to stop that. Nobody shares what somebody else hosts.
pub open spec fn share_button(is_remote: bool, is_shared: bool) -> Option<TextButton> {
    if is_remote {
        None
    } else {
        Some(
            TextButton {
                label: if is_shared {
                    "Unshare"
                } else {
                    "Share"
                },
                style: TextButtonStyle::Share,
                region: single_region(
                    RegionTag::ShareUnshare,
                    if is_shared {
                        Click::UnshareProject
                    } else {
                        Click::ShareProject
                    },
                ),
                tooltip: Some(
                    single_tooltip(
                        if is_shared {
                            "Unshare project from call participants"
                        } else {
                            "Share project with call participants"
                        },
                        None,
                    ),
                ),
                alignment: Some(Alignment::Center),
                margin_left: Some(Length::ItemSpacing),
            },
        )
    }
}

/// The button for the user menu, with a picture if there is one.
pub open spec fn user_menu_button(
    menu: ViewId,
    avatar: Option<ImageId>,
    follower_avatar: AvatarStyle,
) -> UserMenuButton {
    UserMenuButton {
        face: match avatar {
            Some(avatar) => Some(
                face(avatar, follower_avatar, Paint::Solid(Color::transparent_black())),
            ),
            None => None,
        },
        button: IconButton {
            icon: "icons/caret_down_8.svg",
            style: IconButtonStyle::CallControl,
            square: false,
            background: None,
            region: single_region(RegionTag::ToggleUserMenu, Click::ToggleUserMenu),
            tooltip: single_tooltip("Toggle user menu", Some(Action::ToggleUserMenu)),
            alignment: None,
        },
        margin_left: Length::ItemSpacing,
        menu,
        menu_alignment: Alignment::BottomRight,
    }
}

/// The button for signing in.
pub open spec fn sign_in_button() -> TextButton {
    TextButton {
        label: "Sign In",
        style: TextButtonStyle::SignInPrompt,
        region: single_region(RegionTag::SignIn, Click::SignIn),
        tooltip: None,
        alignment: None,
        margin_left: None,
    }
}

/// Whether a connection that has been made, or tried, is down at the moment.
pub open spec fn is_interrupted(status: Status) -> bool {
    ||| status is ConnectionError
    ||| status is ConnectionLost
    ||| status is Reauthenticating
    ||| status is Reconnecting
    ||| status is ReconnectionError
}

/// What is said about the connection.
pub open spec fn connection_status(status: Status) -> Option<ConnectionStatus> {
    if is_interrupted(status) {
        Some(
            ConnectionStatus::Offline {
                icon: "icons/cloud_slash_12.svg",
                style: ContainerStyle::OfflineIcon,
                alignment: Alignment::Center,
            },
        )
    } else if status is UpgradeRequired {
        Some(
            ConnectionStatus::Outdated {
                label: "Please update Zed to collaborate",
                style: ContainerStyle::OutdatedWarning,
                region: single_region(RegionTag::ConnectionStatusButton, Click::CheckForUpdates),
                alignment: Alignment::Center,
            },
        )
    } else {
        None
    }
}

fn pointing_region(tag: RegionTag, on_click: Click) -> (region: MouseRegion)
    ensures
        region == single_region(tag, on_click),
{
    MouseRegion { tag, id: 0, cursor: CursorStyle::PointingHand, on_click }
}

impl CollabTitlebarItem {
    /// The button that opens and closes the contacts popover, and the popover.
    pub fn render_toggle_contacts_button(&self, cx: &Snapshot) -> (button: ContactsButton)
        ensures
            button == contacts_button(
                self.contacts_popover,
                cx.user_store.incoming_contact_requests@.len() > 0,
            ),
            button.layers() == contacts_layers(
                self.contacts_popover,
                cx.user_store.incoming_contact_requests@.len() > 0,
            ),
    {
        let badge = if cx.user_store.incoming_contact_requests.is_empty() {
            None
        } else {
            Some(
                Badge {
                    style: ContainerStyle::ToggleContactsBadge,
                    alignment: Alignment::Center,
                    margin_left: Length::InactiveContactsIconWidth,
                    margin_top: Length::InactiveContactsIconWidth,
                },
            )
        };
        ContactsButton {
            button: IconButton {
                icon: "icons/user_plus_16.svg",
                style: IconButtonStyle::ToggleContacts { active: self.contacts_popover.is_some() },
                square: true,
                background: None,
                region: pointing_region(
                    RegionTag::ToggleContactsMenu,
                    Click::ToggleContactsPopover,
                ),
                tooltip: Tooltip {
                    id: 0,
                    text: "Show contacts menu",
                    action: Some(Action::ToggleContactsMenu),
                },
                alignment: None,
            },
            badge,
            popover: self.render_contacts_popover_host(),
        }
    }

    /// The button that starts and stops sharing the screen.
    pub fn render_toggle_screen_sharing_button(&self, room: &Room) -> (button: IconButton)
        ensures
            button == screen_sharing_button(room.is_screen_sharing),
    {
        let icon;
        let tooltip;
        if room.is_screen_sharing {
            icon = "icons/enable_screen_sharing_12.svg";
            tooltip = "Stop Sharing Screen";
        } else {
            icon = "icons/disable_screen_sharing_12.svg";
            tooltip = "Share Screen";
        }
        IconButton {
            icon,
            style: IconButtonStyle::CallControl,
            square: true,
            background: None,
            region: pointing_region(RegionTag::ToggleScreenSharing, Click::ToggleScreenSharing),
            tooltip: Tooltip {
                id: 0,
                text: tooltip,
                action: Some(Action::ToggleScreenSharing),
            },
            alignment: Some(Alignment::Center),
        }
    }

    /// The button that mutes and unmutes the microphone.
    pub fn render_toggle_microphone(&self, room: &Room) -> (button: IconButton)
        ensures
            button == microphone_button(room.is_muted),
    {
        let icon;
        let tooltip;
        let background: Color;
        if room.is_muted.unwrap_or(false) {
            icon = "icons/microphone_inactive_12.svg";
            tooltip = "Unmute microphone\nRight click for options";
            background = Color::red();
        } else {
            icon = "icons/microphone_active_12.svg";
            tooltip = "Mute microphone\nRight click for options";
            background = Color::transparent_black();
        }
        IconButton {
            icon,
            style: IconButtonStyle::CallControl,
            square: true,
            background: Some(background),
            region: pointing_region(RegionTag::ToggleMute, Click::ToggleMute),
            tooltip: Tooltip { id: 0, text: tooltip, action: Some(Action::ToggleMute) },
            alignment: Some(Alignment::Center),
        }
    }

    /// The button that starts and stops sharing the project of the window.
    pub fn render_in_call_share_unshare_button(&self, workspace: &Workspace) -> (button: Option<
        TextButton,
    >)
        ensures
            button == share_button(workspace.project.is_remote, workspace.project.is_shared),
    {
        if workspace.project.is_remote {
            return None;
        }
        let is_shared = workspace.project.is_shared;
        let label = if is_shared {
            "Unshare"
        } else {
            "Share"
        };
        let tooltip = if is_shared {
            "Unshare project from call participants"
        } else {
            "Share project with call participants"
        };
        let on_click = if is_shared {
            Click::UnshareProject
        } else {
            Click::ShareProject
        };
        Some(
            TextButton {
                label,
                style: TextButtonStyle::Share,
                region: pointing_region(RegionTag::ShareUnshare, on_click),
                tooltip: Some(Tooltip { id: 0, text: tooltip, action: None }),
                alignment: Some(Alignment::Center),
                margin_left: Some(Length::ItemSpacing),
            },
        )
    }

    /// The button that opens the user menu, and the menu.
    pub fn render_user_menu_button(&self, theme: &Theme, avatar: Option<ImageId>) -> (button:
        UserMenuButton)
        ensures
            button == user_menu_button(self.user_menu, avatar, theme.follower_avatar),
            button.layers() == seq![
                UserMenuLayer::Button { button: button.button, margin_left: Length::ItemSpacing },
                UserMenuLayer::Menu { view: self.user_menu, alignment: Alignment::BottomRight },
            ],
            button.contents() == (match avatar {
                Some(avatar) => seq![
                    UserMenuContent::Face(
                        face(
                            avatar,
                            theme.follower_avatar,
                            Paint::Solid(Color::transparent_black()),
                        ),
                    ),
                    UserMenuContent::Icon("icons/caret_down_8.svg"),
                ],
                None => seq![UserMenuContent::Icon("icons/caret_down_8.svg")],
            }),
    {
        let shown = match avatar {
            Some(avatar_img) => Some(
                Self::render_face(
                    avatar_img,
                    theme.follower_avatar,
                    Paint::Solid(Color::transparent_black()),
                ),
            ),
            None => None,
        };
        UserMenuButton {
            face: shown,
            button: IconButton {
                icon: "icons/caret_down_8.svg",
                style: IconButtonStyle::CallControl,
                square: false,
                background: None,
                region: pointing_region(RegionTag::ToggleUserMenu, Click::ToggleUserMenu),
                tooltip: Tooltip {
                    id: 0,
                    text: "Toggle user menu",
                    action: Some(Action::ToggleUserMenu),
                },
                alignment: None,
            },
            margin_left: Length::ItemSpacing,
            menu: self.user_menu,
            menu_alignment: Alignment::BottomRight,
        }
    }

    /// The button that signs the user in.
    pub fn render_sign_in_button(&self) -> (button: TextButton)
        ensures
            button == sign_in_button(),
    {
        TextButton {
            label: "Sign In",
            style: TextButtonStyle::SignInPrompt,
            region: pointing_region(RegionTag::SignIn, Click::SignIn),
            tooltip: None,
            alignment: None,
            margin_left: None,
        }
    }

    /// The contacts popover, while it is open.
    pub fn render_contacts_popover_host(&self) -> (host: Option<PopoverHost>)
        ensures
            host == popover_host(self.contacts_popover),
    {
        match self.contacts_popover {
            Some(view) => Some(
                PopoverHost {
                    view,
                    fit_mode: OverlayFitMode::SwitchAnchor,
                    anchor_corner: AnchorCorner::TopRight,
                    z_index: 999,
                    alignment: Alignment::BottomRight,
                },
            ),
            None => None,
        }
    }

    /// What is said about the connection, unless it is in order or has never been asked for.
    pub fn render_connection_status(&self, status: Status) -> (shown: Option<ConnectionStatus>)
        ensures
            shown == connection_status(status),
    {
        match status {
            Status::ConnectionError
            | Status::ConnectionLost
            | Status::Reauthenticating
            | Status::Reconnecting
            | Status::ReconnectionError => Some(
                ConnectionStatus::Offline {
                    icon: "icons/cloud_slash_12.svg",
                    style: ContainerStyle::OfflineIcon,
                    alignment: Alignment::Center,
                },
            ),
            Status::UpgradeRequired => Some(
                ConnectionStatus::Outdated {
                    label: "Please update Zed to collaborate",
                    style: ContainerStyle::OutdatedWarning,
                    region: pointing_region(
                        RegionTag::ConnectionStatusButton,
                        Click::CheckForUpdates,
                    ),
                    alignment: Alignment::Center,
                },
            ),
            _ => None,
        }
    }
}

} // verus!
