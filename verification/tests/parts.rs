use std::collections::{HashMap, HashSet};

use collab_titlebar::color::{Color, Paint};
use collab_titlebar::elements::{
    Action, Alignment, AnchorCorner, Click, ConnectionStatus, ContainerStyle, CursorStyle,
    IconButtonStyle, Length, OverlayFitMode, RegionTag, TextButtonStyle,
};
use collab_titlebar::item::{CollabTitlebarItem, WorkspaceHandles};
use collab_titlebar::layers::{ContactsLayer, UserMenuContent, UserMenuLayer};
use collab_titlebar::ribbon::{AvatarRibbon, Corner, PathPoint, PathStep, SizeConstraint};
use collab_titlebar::snapshot::{
    AvatarKind, AvatarStyle, Client, ClientId, ImageId, ModelId, Project, RepositoryEntry, Room,
    Snapshot, Status, Theme, UserStore, ViewId, Workspace, Worktree,
};

fn item() -> CollabTitlebarItem {
    let handles = WorkspaceHandles {
        workspace: ViewId(1),
        project: ModelId(2),
        user_store: ModelId(3),
        client: ClientId(4),
    };
    CollabTitlebarItem::new(handles, ModelId(5), ViewId(6))
}

fn project(visible_worktrees: Vec<Worktree>) -> Project {
    Project {
        visible_worktrees,
        remote_id: None,
        is_remote: false,
        is_shared: false,
        replica_id: 0,
        collaborators: HashMap::new(),
    }
}

fn worktree(name: &str, branch: Option<Option<&str>>) -> Worktree {
    Worktree {
        root_name: name.to_string(),
        root_git_entry: branch
            .map(|branch| RepositoryEntry { branch: branch.map(|name| name.to_string()) }),
    }
}

fn workspace(is_remote: bool, is_shared: bool) -> Workspace {
    let mut project = project(Vec::new());
    project.is_remote = is_remote;
    project.is_shared = is_shared;
    Workspace {
        project,
        client: Client { peer_id: None, status: Status::Connected },
        user_store: UserStore { current_user: None, incoming_contact_requests: Vec::new() },
        followed: HashSet::new(),
    }
}

fn theme() -> Theme {
    Theme {
        titlebar_background: None,
        leader_avatar: AvatarStyle { kind: AvatarKind::Leader, grayscale: false },
        follower_avatar: AvatarStyle { kind: AvatarKind::Follower, grayscale: false },
    }
}

fn snapshot(requests: Vec<u64>) -> Snapshot {
    Snapshot {
        workspace: None,
        project: project(Vec::new()),
        user_store: UserStore { current_user: None, incoming_contact_requests: requests },
        client: Client { peer_id: None, status: Status::Connected },
        room: None,
        theme: theme(),
    }
}

fn room(is_screen_sharing: bool, is_muted: Option<bool>) -> Room {
    Room { remote_participants: Vec::new(), follows: HashMap::new(), is_screen_sharing, is_muted }
}

#[test]
fn title_without_a_folder_is_empty() {
    let title = item().collect_title_root_names(&project(Vec::new()));
    assert_eq!(title.name.text, "");
    assert_eq!(title.name.highlights, Vec::<usize>::new());
    assert_eq!(title.branch, None);
}

#[test]
fn title_is_that_of_the_first_folder() {
    let project =
        project(vec![worktree("zed", Some(Some("main"))), worktree("other", Some(Some("dev")))]);
    let title = item().collect_title_root_names(&project);
    assert_eq!(title.name.text, "zed");
    assert_eq!(title.name.highlights, vec![0, 1, 2]);
    assert_eq!(title.name.margin_right, None);
    assert_eq!(title.name.alignment, Alignment::Left);
    assert_eq!(title.name.element_name, "title-project-name");
    let branch = title.branch.unwrap();
    assert_eq!(branch.text, "/main");
    assert_eq!(branch.highlights, Vec::<usize>::new());
    assert_eq!(branch.margin_right, Some(Length::ItemSpacing));
    assert_eq!(branch.alignment, Alignment::Left);
    assert_eq!(branch.element_name, "title-project-branch");
}

#[test]
fn title_highlights_are_bytes() {
    let title = item().collect_title_root_names(&project(vec![worktree("é", None)]));
    assert_eq!(title.name.highlights, vec![0, 1]);
    assert_eq!(title.branch, None);
}

#[test]
fn title_without_a_branch() {
    let title = item().collect_title_root_names(&project(vec![worktree("zed", Some(None))]));
    assert_eq!(title.name.text, "zed");
    assert_eq!(title.branch, None);
}

#[test]
fn contacts_button_while_closed() {
    let shown = item().render_toggle_contacts_button(&snapshot(Vec::new()));
    assert_eq!(shown.button.icon, "icons/user_plus_16.svg");
    assert_eq!(shown.button.style, IconButtonStyle::ToggleContacts { active: false });
    assert!(shown.button.square);
    assert_eq!(shown.button.background, None);
    assert_eq!(shown.button.region.tag, RegionTag::ToggleContactsMenu);
    assert_eq!(shown.button.region.id, 0);
    assert_eq!(shown.button.region.cursor, CursorStyle::PointingHand);
    assert_eq!(shown.button.region.on_click, Click::ToggleContactsPopover);
    assert_eq!(shown.button.tooltip.text, "Show contacts menu");
    assert_eq!(shown.button.tooltip.action, Some(Action::ToggleContactsMenu));
    assert_eq!(shown.badge, None);
    assert_eq!(shown.popover, None);
}

#[test]
fn contacts_button_while_open() {
    let mut item = item();
    item.contacts_popover_added(ViewId(10));
    let shown = item.render_toggle_contacts_button(&snapshot(vec![1]));
    assert_eq!(shown.button.style, IconButtonStyle::ToggleContacts { active: true });
    let badge = shown.badge.unwrap();
    assert_eq!(badge.style, ContainerStyle::ToggleContactsBadge);
    assert_eq!(badge.margin_left, Length::InactiveContactsIconWidth);
    assert_eq!(badge.margin_top, Length::InactiveContactsIconWidth);
    assert_eq!(badge.alignment, Alignment::Center);
    let popover = shown.popover.unwrap();
    assert_eq!(popover.view, ViewId(10));
    assert_eq!(popover.fit_mode, OverlayFitMode::SwitchAnchor);
    assert_eq!(popover.anchor_corner, AnchorCorner::TopRight);
    assert_eq!(popover.z_index, 999);
    assert_eq!(popover.alignment, Alignment::BottomRight);
    assert_eq!(item.render_contacts_popover_host(), Some(popover));
}

#[test]
fn screen_sharing_button_tells_what_it_does() {
    let sharing = item().render_toggle_screen_sharing_button(&room(true, None));
    assert_eq!(sharing.icon, "icons/enable_screen_sharing_12.svg");
    assert_eq!(sharing.tooltip.text, "Stop Sharing Screen");
    let idle = item().render_toggle_screen_sharing_button(&room(false, None));
    assert_eq!(idle.icon, "icons/disable_screen_sharing_12.svg");
    assert_eq!(idle.tooltip.text, "Share Screen");
    assert_eq!(idle.tooltip.action, Some(Action::ToggleScreenSharing));
    assert_eq!(idle.style, IconButtonStyle::CallControl);
    assert_eq!(idle.region.on_click, Click::ToggleScreenSharing);
    assert_eq!(idle.background, None);
}

#[test]
fn microphone_button_is_red_while_muted() {
    let muted = item().render_toggle_microphone(&room(false, Some(true)));
    assert_eq!(muted.icon, "icons/microphone_inactive_12.svg");
    assert_eq!(muted.tooltip.text, "Unmute microphone\nRight click for options");
    assert_eq!(muted.background, Some(Color { r: 255, g: 0, b: 0, a: 255 }));
    let live = item().render_toggle_microphone(&room(false, Some(false)));
    assert_eq!(live.icon, "icons/microphone_active_12.svg");
    assert_eq!(live.tooltip.text, "Mute microphone\nRight click for options");
    assert_eq!(live.background, Some(Color { r: 0, g: 0, b: 0, a: 0 }));
    assert_eq!(live.region.on_click, Click::ToggleMute);
    assert_eq!(item().render_toggle_microphone(&room(false, None)), live);
}

#[test]
fn share_button_toggles() {
    let share = item().render_in_call_share_unshare_button(&workspace(false, false)).unwrap();
    assert_eq!(share.label, "Share");
    assert_eq!(share.region.on_click, Click::ShareProject);
    assert_eq!(share.region.tag, RegionTag::ShareUnshare);
    assert_eq!(share.style, TextButtonStyle::Share);
    assert_eq!(share.margin_left, Some(Length::ItemSpacing));
    let tooltip = share.tooltip.unwrap();
    assert_eq!(tooltip.text, "Share project with call participants");
    assert_eq!(tooltip.action, None);
    let unshare = item().render_in_call_share_unshare_button(&workspace(false, true)).unwrap();
    assert_eq!(unshare.label, "Unshare");
    assert_eq!(unshare.region.on_click, Click::UnshareProject);
    assert_eq!(unshare.tooltip.unwrap().text, "Unshare project from call participants");
}

#[test]
fn remote_projects_cannot_be_shared() {
    assert_eq!(item().render_in_call_share_unshare_button(&workspace(true, false)), None);
    assert_eq!(item().render_in_call_share_unshare_button(&workspace(true, true)), None);
}

#[test]
fn user_menu_button_with_and_without_a_picture() {
    let plain = item().render_user_menu_button(&theme(), None);
    assert_eq!(plain.face, None);
    assert_eq!(plain.button.icon, "icons/caret_down_8.svg");
    assert!(!plain.button.square);
    assert_eq!(plain.button.tooltip.text, "Toggle user menu");
    assert_eq!(plain.button.tooltip.action, Some(Action::ToggleUserMenu));
    assert_eq!(plain.button.region.on_click, Click::ToggleUserMenu);
    assert_eq!(plain.margin_left, Length::ItemSpacing);
    assert_eq!(plain.menu, ViewId(6));
    assert_eq!(plain.menu_alignment, Alignment::BottomRight);
    let face = item().render_user_menu_button(&theme(), Some(ImageId(8))).face.unwrap();
    assert_eq!(face.avatar, ImageId(8));
    assert_eq!(face.style.kind, AvatarKind::Follower);
    assert_eq!(face.background, Paint::Solid(Color::transparent_black()));
    assert_eq!(face.width, Length::AvatarOuterWidth(AvatarKind::Follower));
}

#[test]
fn faces_are_squares_with_round_corners() {
    for kind in [AvatarKind::Leader, AvatarKind::Follower] {
        let style = AvatarStyle { kind, grayscale: true };
        let face = CollabTitlebarItem::render_face(ImageId(8), style, Paint::ReplicaCursor(2));
        assert_eq!(face.avatar, ImageId(8));
        assert_eq!(face.style, style);
        assert_eq!(face.avatar_alignment, Alignment::Center);
        assert_eq!(face.background, Paint::ReplicaCursor(2));
        assert_eq!(face.corner_radius, Length::AvatarOuterCornerRadius(kind));
        assert_eq!(face.width, Length::AvatarOuterWidth(kind));
        assert_eq!(face.height, Length::AvatarOuterWidth(kind));
        assert_eq!(face.alignment, Alignment::Center);
    }
}

#[test]
fn some_buttons_are_centred() {
    let call = room(false, None);
    let center = Some(Alignment::Center);
    assert_eq!(item().render_toggle_microphone(&call).alignment, center);
    assert_eq!(item().render_toggle_screen_sharing_button(&call).alignment, center);
    let share = item().render_in_call_share_unshare_button(&workspace(false, false)).unwrap();
    assert_eq!(share.alignment, center);
    assert_eq!(item().render_sign_in_button().alignment, None);
    let contacts = item().render_toggle_contacts_button(&snapshot(Vec::new()));
    assert_eq!(contacts.button.alignment, None);
    assert_eq!(item().render_user_menu_button(&theme(), None).button.alignment, None);
}

#[test]
fn sign_in_button_signs_in() {
    let button = item().render_sign_in_button();
    assert_eq!(button.label, "Sign In");
    assert_eq!(button.style, TextButtonStyle::SignInPrompt);
    assert_eq!(button.region.on_click, Click::SignIn);
    assert_eq!(button.tooltip, None);
    assert_eq!(button.margin_left, None);
}

#[test]
fn interrupted_connections_show_an_icon() {
    let interrupted = [
        Status::ConnectionError,
        Status::ConnectionLost,
        Status::Reauthenticating,
        Status::Reconnecting,
        Status::ReconnectionError,
    ];
    for status in interrupted {
        assert_eq!(
            item().render_connection_status(status),
            Some(ConnectionStatus::Offline {
                icon: "icons/cloud_slash_12.svg",
                style: ContainerStyle::OfflineIcon,
                alignment: Alignment::Center,
            })
        );
    }
}

#[test]
fn outdated_programs_are_told() {
    match item().render_connection_status(Status::UpgradeRequired) {
        Some(ConnectionStatus::Outdated { label, style, region, alignment }) => {
            assert_eq!(label, "Please update Zed to collaborate");
            assert_eq!(style, ContainerStyle::OutdatedWarning);
            assert_eq!(alignment, Alignment::Center);
            assert_eq!(region.on_click, Click::CheckForUpdates);
            assert_eq!(region.tag, RegionTag::ConnectionStatusButton);
        }
        other => panic!("unexpected status: {:?}", other),
    }
}

#[test]
fn other_connections_need_no_words() {
    assert_eq!(item().render_connection_status(Status::Connected), None);
    assert_eq!(item().render_connection_status(Status::Other), None);
}

#[test]
fn ribbon_outline_is_closed() {
    let ribbon = AvatarRibbon::new(Paint::ReplicaCursor(3));
    let path = ribbon.paint();
    assert_eq!(path.fill, Paint::ReplicaCursor(3));
    let lower_left = PathPoint { corner: Corner::LowerLeft, inset: 0 };
    assert_eq!(
        path.steps,
        vec![
            PathStep::Reset(lower_left),
            PathStep::CurveTo {
                to: PathPoint { corner: Corner::UpperLeft, inset: 1 },
                control: PathPoint { corner: Corner::UpperLeft, inset: 0 },
            },
            PathStep::LineTo(PathPoint { corner: Corner::UpperRight, inset: 1 }),
            PathStep::CurveTo {
                to: PathPoint { corner: Corner::LowerRight, inset: 0 },
                control: PathPoint { corner: Corner::UpperRight, inset: 0 },
            },
            PathStep::LineTo(lower_left),
        ]
    );
}

#[test]
fn ribbon_takes_all_the_room() {
    let ribbon = AvatarRibbon::new(Paint::Solid(Color::red()));
    assert_eq!(ribbon.layout(SizeConstraint { min: (0.0, 0.0), max: (24.0, 4.0) }), (24.0, 4.0));
}

#[test]
fn badge_lies_under_the_popover() {
    let mut item = item();
    let shown = item.render_toggle_contacts_button(&snapshot(vec![1]));
    let badge = ContactsLayer::Badge(shown.badge.unwrap());
    assert_eq!(shown.to_layers(), vec![ContactsLayer::Button(shown.button), badge]);
    item.contacts_popover_added(ViewId(10));
    let shown = item.render_toggle_contacts_button(&snapshot(vec![1]));
    let button = ContactsLayer::Button(shown.button);
    let popover = ContactsLayer::Popover(shown.popover.unwrap());
    assert_eq!(shown.to_layers(), vec![button, badge, popover]);
    let shown = item.render_toggle_contacts_button(&snapshot(Vec::new()));
    assert_eq!(shown.to_layers(), vec![button, popover]);
}

#[test]
fn user_menu_lies_over_its_button() {
    let shown = item().render_user_menu_button(&theme(), Some(ImageId(8)));
    assert_eq!(
        shown.to_layers(),
        vec![
            UserMenuLayer::Button { button: shown.button, margin_left: Length::ItemSpacing },
            UserMenuLayer::Menu { view: ViewId(6), alignment: Alignment::BottomRight },
        ]
    );
    let icon = UserMenuContent::Icon("icons/caret_down_8.svg");
    let face = UserMenuContent::Face(shown.face.unwrap());
    assert_eq!(shown.to_contents(), vec![face, icon]);
    assert_eq!(item().render_user_menu_button(&theme(), None).to_contents(), vec![icon]);
}

#[test]
fn name_stands_left_of_the_branch() {
    let with_branch = project(vec![worktree("zed", Some(Some("main")))]);
    let labels = item().collect_title_root_names(&with_branch).into_labels();
    let texts: Vec<&str> = labels.iter().map(|label| label.text.as_str()).collect();
    assert_eq!(texts, vec!["zed", "/main"]);
    let without = item().collect_title_root_names(&project(vec![worktree("zed", None)]));
    assert_eq!(without.into_labels().len(), 1);
}
