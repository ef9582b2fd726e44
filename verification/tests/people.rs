use std::collections::{HashMap, HashSet};

use collab_titlebar::color::{Color, Paint};
use collab_titlebar::elements::{
    Action, Alignment, Click, ConnectionStatus, ContainerStyle, CursorStyle, LeftItem, Length,
    RegionTag, RightItem, Titlebar,
};
use collab_titlebar::item::{CollabTitlebarItem, Response, WorkspaceHandles};
use collab_titlebar::layers::{PileLayer, TitlebarLayer};
use collab_titlebar::order::{sort_by_login, str_precedes};
use collab_titlebar::snapshot::{
    AvatarKind, AvatarStyle, Client, ClientId, ImageId, ModelId, ParticipantLocation, Project,
    RemoteParticipant, Room, Snapshot, Status, Theme, User, UserStore, ViewId, Workspace,
    Worktree,
};

const OWN_PEER: u64 = 100;
const PROJECT: u64 = 77;
const BACKGROUND: Color = Color { r: 1, g: 2, b: 3, a: 4 };

fn item() -> CollabTitlebarItem {
    let handles = WorkspaceHandles {
        workspace: ViewId(1),
        project: ModelId(2),
        user_store: ModelId(3),
        client: ClientId(4),
    };
    CollabTitlebarItem::new(handles, ModelId(5), ViewId(6))
}

fn user(id: u64, login: &str) -> User {
    User { id, github_login: login.to_string(), avatar: Some(ImageId(id)) }
}

fn participant(id: u64, login: &str, location: ParticipantLocation) -> RemoteParticipant {
    RemoteParticipant { user: user(id, login), peer_id: id * 10, location }
}

fn here() -> ParticipantLocation {
    ParticipantLocation::SharedProject { project_id: PROJECT }
}

fn project() -> Project {
    Project {
        visible_worktrees: vec![Worktree { root_name: "zed".to_string(), root_git_entry: None }],
        remote_id: Some(PROJECT),
        is_remote: false,
        is_shared: true,
        replica_id: 0,
        collaborators: HashMap::from([(10, 1), (20, 2)]),
    }
}

fn user_store() -> UserStore {
    UserStore { current_user: Some(user(9, "me")), incoming_contact_requests: Vec::new() }
}

fn client(status: Status) -> Client {
    Client { peer_id: Some(OWN_PEER), status }
}

fn theme() -> Theme {
    Theme {
        titlebar_background: Some(BACKGROUND),
        leader_avatar: AvatarStyle { kind: AvatarKind::Leader, grayscale: false },
        follower_avatar: AvatarStyle { kind: AvatarKind::Follower, grayscale: false },
    }
}

fn room(remote_participants: Vec<RemoteParticipant>) -> Room {
    Room {
        remote_participants,
        follows: HashMap::new(),
        is_screen_sharing: false,
        is_muted: Some(false),
    }
}

fn snapshot(room: Option<Room>, status: Status) -> Snapshot {
    Snapshot {
        workspace: Some(Workspace {
            project: project(),
            client: client(status),
            user_store: user_store(),
            followed: HashSet::new(),
        }),
        project: project(),
        user_store: user_store(),
        client: client(status),
        room,
        theme: theme(),
    }
}

/// The names of the variants on the right side.
fn kinds(bar: &Titlebar) -> Vec<&'static str> {
    bar.right
        .iter()
        .map(|item| match item {
            RightItem::Share(_) => "share",
            RightItem::Microphone(_) => "microphone",
            RightItem::ScreenSharing(_) => "screen",
            RightItem::Contacts(_) => "contacts",
            RightItem::ConnectionStatus(_) => "status",
            RightItem::SignIn(_) => "sign in",
            RightItem::UserMenu(_) => "user menu",
        })
        .collect()
}

#[test]
fn strings_are_ordered_by_bytes() {
    let words = ["", "A", "B", "a", "aa", "ab", "b", "é", "日本", "\u{10000}"];
    for (i, a) in words.iter().enumerate() {
        for (j, b) in words.iter().enumerate() {
            assert_eq!(str_precedes(a, b), i < j, "{} and {}", a, b);
            assert_eq!(str_precedes(a, b), a < b);
        }
    }
}

#[test]
fn sorting_is_stable() {
    let people = vec![
        participant(1, "bob", here()),
        participant(2, "ada", here()),
        participant(3, "bob", here()),
        participant(4, "Zoe", here()),
        participant(5, "ada", here()),
    ];
    assert_eq!(sort_by_login(&people), vec![3, 1, 4, 0, 2]);
    assert_eq!(sort_by_login(&Vec::new()), Vec::<usize>::new());
}

#[test]
fn order_of_the_room_does_not_matter() {
    let forth = vec![participant(1, "bob", here()), participant(2, "ada", here())];
    let back = vec![participant(2, "ada", here()), participant(1, "bob", here())];
    assert_eq!(forth[sort_by_login(&forth)[0]], back[sort_by_login(&back)[0]]);
    assert_eq!(forth[sort_by_login(&forth)[1]], back[sort_by_login(&back)[1]]);
}

#[test]
fn location_takes_the_colour() {
    let cx = snapshot(None, Status::Connected);
    let workspace = cx.workspace.unwrap();
    let style = theme().leader_avatar;
    let gray = AvatarStyle { kind: AvatarKind::Leader, grayscale: true };
    let elsewhere = ParticipantLocation::SharedProject { project_id: PROJECT + 1 };
    let cases = [
        (None, style),
        (Some(here()), style),
        (Some(elsewhere), gray),
        (Some(ParticipantLocation::UnsharedProject), gray),
        (Some(ParticipantLocation::External), gray),
    ];
    for (location, expected) in cases {
        assert_eq!(CollabTitlebarItem::location_style(&workspace, location, style), expected);
        assert_eq!(CollabTitlebarItem::location_style(&workspace, location, gray), gray);
    }
}

#[test]
fn everybody_is_elsewhere_from_a_project_without_a_number() {
    let mut workspace = snapshot(None, Status::Connected).workspace.unwrap();
    workspace.project.remote_id = None;
    let style = theme().leader_avatar;
    assert!(CollabTitlebarItem::location_style(&workspace, Some(here()), style).grayscale);
    assert!(!CollabTitlebarItem::location_style(&workspace, None, style).grayscale);
}

#[test]
fn collaborator_in_the_project() {
    let cx = snapshot(Some(room(Vec::new())), Status::Connected);
    let workspace = cx.workspace.as_ref().unwrap();
    let pile = item().render_face_pile(
        &user(1, "ada"),
        Some(1),
        10,
        Some(here()),
        workspace,
        &cx.theme,
        &cx,
    );
    let faces = pile.faces.unwrap();
    assert_eq!(faces.overlap, Length::FollowerAvatarOverlap);
    assert_eq!(faces.style, ContainerStyle::LeaderSelection);
    assert_eq!(faces.background, None);
    assert_eq!(faces.leader.avatar, ImageId(1));
    assert_eq!(faces.leader.style, theme().leader_avatar);
    assert_eq!(faces.leader.background, Paint::Solid(BACKGROUND));
    assert!(faces.followers.is_empty());
    let ribbon = pile.ribbon.unwrap();
    assert_eq!(ribbon.ribbon.color, Paint::ReplicaCursor(1));
    assert_eq!(ribbon.width, Length::AvatarRibbonWidth);
    assert_eq!(ribbon.height, Length::AvatarRibbonHeight);
    assert_eq!(ribbon.alignment, Alignment::Bottom);
    let interaction = pile.interaction.unwrap();
    assert_eq!(interaction.region.tag, RegionTag::ToggleFollow);
    assert_eq!(interaction.region.id, 1);
    assert_eq!(interaction.region.cursor, CursorStyle::PointingHand);
    assert_eq!(interaction.region.on_click, Click::ToggleFollow { peer_id: 10 });
    assert_eq!(interaction.tooltip_id, 10);
    assert_eq!(interaction.tooltip, "Follow ada");
    assert_eq!(interaction.action, Some(Action::FollowNextCollaborator));
}

#[test]
fn collaborator_whom_the_user_follows() {
    let mut call = room(vec![participant(2, "bob", here()), participant(3, "cyd", here())]);
    call.follows =
        HashMap::from([(10, HashMap::from([(PROJECT, vec![20, OWN_PEER, 999, 30])]))]);
    let mut cx = snapshot(Some(call), Status::Connected);
    cx.workspace.as_mut().unwrap().followed.insert(10);
    let workspace = cx.workspace.as_ref().unwrap();
    let pile = item().render_face_pile(
        &user(1, "ada"),
        Some(1),
        10,
        Some(here()),
        workspace,
        &cx.theme,
        &cx,
    );
    let blended = Paint::BlendedSelection { replica_id: 1, backdrop: BACKGROUND, alpha: 255 };
    let faces = pile.faces.unwrap();
    assert_eq!(faces.background, Some(Paint::ReplicaSelection(1)));
    assert_eq!(faces.leader.background, blended);
    // The user is among the followers with their own picture; the unknown peer has none.
    let avatars: Vec<ImageId> = faces.followers.iter().map(|face| face.avatar).collect();
    assert_eq!(avatars, vec![ImageId(2), ImageId(9), ImageId(3)]);
    for face in &faces.followers {
        assert_eq!(face.style, theme().follower_avatar);
        assert_eq!(face.background, blended);
    }
    assert_eq!(pile.interaction.unwrap().tooltip, "Unfollow ada");
}

#[test]
fn following_counts_only_where_call_and_window_agree() {
    let follows = || HashMap::from([(10, HashMap::from([(PROJECT, vec![OWN_PEER])]))]);
    // The window does not follow.
    let mut call = room(Vec::new());
    call.follows = follows();
    let cx = snapshot(Some(call), Status::Connected);
    let pile = item().render_face_pile(
        &user(1, "ada"),
        Some(1),
        10,
        Some(here()),
        cx.workspace.as_ref().unwrap(),
        &cx.theme,
        &cx,
    );
    assert_eq!(pile.faces.unwrap().background, None);
    // The call does not know of it.
    let mut cx = snapshot(Some(room(Vec::new())), Status::Connected);
    cx.workspace.as_mut().unwrap().followed.insert(10);
    let pile = item().render_face_pile(
        &user(1, "ada"),
        Some(1),
        10,
        Some(here()),
        cx.workspace.as_ref().unwrap(),
        &cx.theme,
        &cx,
    );
    assert_eq!(pile.faces.unwrap().background, None);
    assert_eq!(pile.interaction.unwrap().tooltip, "Unfollow ada");
    // The project has no number.
    let mut call = room(Vec::new());
    call.follows = follows();
    let mut cx = snapshot(Some(call), Status::Connected);
    let workspace = cx.workspace.as_mut().unwrap();
    workspace.followed.insert(10);
    workspace.project.remote_id = None;
    let pile = item().render_face_pile(
        &user(1, "ada"),
        Some(1),
        10,
        Some(here()),
        cx.workspace.as_ref().unwrap(),
        &cx.theme,
        &cx,
    );
    let faces = pile.faces.unwrap();
    assert_eq!(faces.background, None);
    assert!(faces.followers.is_empty());
}

#[test]
fn collaborator_in_another_project() {
    let cx = snapshot(Some(room(Vec::new())), Status::Connected);
    let location = ParticipantLocation::SharedProject { project_id: 5 };
    let pile = item().render_face_pile(
        &user(3, "cyd"),
        None,
        30,
        Some(location),
        cx.workspace.as_ref().unwrap(),
        &cx.theme,
        &cx,
    );
    assert!(pile.faces.unwrap().leader.style.grayscale);
    assert_eq!(pile.ribbon, None);
    let interaction = pile.interaction.unwrap();
    assert_eq!(interaction.region.tag, RegionTag::JoinProject);
    assert_eq!(interaction.region.id, 30);
    assert_eq!(interaction.region.on_click, Click::JoinProject { project_id: 5, user_id: 3 });
    assert_eq!(interaction.tooltip_id, 30);
    assert_eq!(interaction.tooltip, "Follow cyd into external project");
    assert_eq!(interaction.action, Some(Action::FollowNextCollaborator));
}

#[test]
fn collaborator_out_of_reach() {
    let cx = snapshot(Some(room(Vec::new())), Status::Connected);
    for location in [ParticipantLocation::UnsharedProject, ParticipantLocation::External] {
        let mut somebody = user(3, "cyd");
        somebody.avatar = None;
        let pile = item().render_face_pile(
            &somebody,
            None,
            30,
            Some(location),
            cx.workspace.as_ref().unwrap(),
            &cx.theme,
            &cx,
        );
        assert_eq!(pile.faces, None);
        assert_eq!(pile.ribbon, None);
        assert_eq!(pile.interaction, None);
    }
}

#[test]
fn background_defaults_to_transparent() {
    let mut cx = snapshot(Some(room(Vec::new())), Status::Connected);
    cx.theme.titlebar_background = None;
    let own = item().render_current_user(
        cx.workspace.as_ref().unwrap(),
        &cx.theme,
        &user(9, "me"),
        OWN_PEER,
        &cx,
    );
    assert_eq!(
        own.pile.faces.unwrap().leader.background,
        Paint::Solid(Color { r: 0, g: 0, b: 0, a: 0 })
    );
    let bar = item().render(&cx).unwrap();
    assert_eq!(bar.right_background, Color { r: 0, g: 0, b: 0, a: 0 });
    assert_eq!(Color::default(), Color::transparent_black());
}

#[test]
fn own_pile_is_passive() {
    let cx = snapshot(Some(room(Vec::new())), Status::Connected);
    let own = item().render_current_user(
        cx.workspace.as_ref().unwrap(),
        &cx.theme,
        &user(9, "me"),
        OWN_PEER,
        &cx,
    );
    assert_eq!(own.margin_right, Length::ItemSpacing);
    assert_eq!(own.pile.interaction, None);
    assert_eq!(own.pile.ribbon.unwrap().ribbon.color, Paint::ReplicaCursor(0));
    assert_eq!(own.pile.faces.unwrap().leader.style, theme().leader_avatar);
}

#[test]
fn collaborators_are_sorted() {
    let people = vec![
        participant(3, "cyd", ParticipantLocation::External),
        participant(1, "ada", here()),
        participant(2, "bob", here()),
    ];
    let cx = snapshot(Some(room(people)), Status::Connected);
    let piles = item().render_collaborators(
        cx.workspace.as_ref().unwrap(),
        &cx.theme,
        cx.room.as_ref().unwrap(),
        &cx,
    );
    let avatars: Vec<ImageId> = piles
        .iter()
        .map(|spaced| spaced.pile.faces.as_ref().unwrap().leader.avatar)
        .collect();
    assert_eq!(avatars, vec![ImageId(1), ImageId(2), ImageId(3)]);
    assert_eq!(piles[0].margin_right, Length::FacePileSpacing);
    assert_eq!(piles[1].pile.ribbon.unwrap().ribbon.color, Paint::ReplicaCursor(2));
    assert_eq!(piles[2].pile.ribbon, None);
    assert_eq!(piles[2].pile.interaction, None);
}

#[test]
fn closed_window_has_no_title_bar() {
    let mut cx = snapshot(None, Status::Connected);
    cx.workspace = None;
    assert_eq!(item().render(&cx), None);
}

#[test]
fn title_bar_outside_of_a_call() {
    let bar = item().render(&snapshot(None, Status::Connected)).unwrap();
    assert_eq!(bar.left.len(), 1);
    match &bar.left[0] {
        LeftItem::Title(title) => assert_eq!(title.name.text, "zed"),
        LeftItem::Person(_) => panic!("the title does not come first"),
    }
    assert_eq!(kinds(&bar), vec!["contacts", "user menu"]);
    assert_eq!(bar.right_background, BACKGROUND);
    assert_eq!(bar.right_alignment, Alignment::Right);
    match bar.right[1] {
        RightItem::UserMenu(button) => assert_eq!(button.face.unwrap().avatar, ImageId(9)),
        _ => panic!("the user menu does not come last"),
    }
}

#[test]
fn title_bar_in_a_call() {
    let people = vec![participant(2, "bob", here()), participant(1, "ada", here())];
    let bar = item().render(&snapshot(Some(room(people)), Status::Connected)).unwrap();
    assert_eq!(kinds(&bar), vec!["share", "microphone", "screen", "contacts", "user menu"]);
    match bar.right[4] {
        RightItem::UserMenu(button) => assert_eq!(button.face, None),
        _ => panic!("the user menu does not come last"),
    }
    let avatars: Vec<Option<ImageId>> = bar
        .left
        .iter()
        .map(|item| match item {
            LeftItem::Title(_) => None,
            LeftItem::Person(person) => person.pile.faces.as_ref().map(|faces| faces.leader.avatar),
        })
        .collect();
    assert_eq!(avatars, vec![None, Some(ImageId(9)), Some(ImageId(1)), Some(ImageId(2))]);
}

#[test]
fn title_bar_in_a_call_as_a_guest() {
    let mut cx = snapshot(Some(room(Vec::new())), Status::Connected);
    cx.workspace.as_mut().unwrap().project.is_remote = true;
    let bar = item().render(&cx).unwrap();
    assert_eq!(kinds(&bar), vec!["microphone", "screen", "contacts", "user menu"]);
}

#[test]
fn call_controls_need_a_user_and_a_connection() {
    let mut cx = snapshot(Some(room(Vec::new())), Status::Connected);
    cx.client.peer_id = None;
    let bar = item().render(&cx).unwrap();
    assert_eq!(kinds(&bar), vec!["contacts", "user menu"]);
    assert_eq!(bar.left.len(), 1);
    let mut cx = snapshot(Some(room(Vec::new())), Status::Connected);
    cx.user_store.current_user = None;
    assert_eq!(kinds(&item().render(&cx).unwrap()), vec!["contacts", "user menu"]);
}

#[test]
fn title_bar_without_a_connection() {
    let bar = item().render(&snapshot(None, Status::ConnectionLost)).unwrap();
    assert_eq!(kinds(&bar), vec!["status", "sign in", "user menu"]);
    match bar.right[2] {
        RightItem::UserMenu(button) => assert_eq!(button.face, None),
        _ => panic!("the user menu does not come last"),
    }
    let bar = item().render(&snapshot(None, Status::Other)).unwrap();
    assert_eq!(kinds(&bar), vec!["sign in", "user menu"]);
    let bar = item().render(&snapshot(Some(room(Vec::new())), Status::Reconnecting)).unwrap();
    assert_eq!(
        kinds(&bar),
        vec!["share", "microphone", "screen", "status", "sign in", "user menu"]
    );
}

#[test]
fn popover_changes_only_the_contacts_button() {
    let mut item = item();
    let connected = snapshot(None, Status::Connected);
    let offline = snapshot(None, Status::ConnectionLost);
    let (before, before_offline) = (item.render(&connected), item.render(&offline));
    item.contacts_popover_added(ViewId(10));
    let (after, after_offline) = (item.render(&connected), item.render(&offline));
    assert_eq!(before_offline, after_offline);
    let (before, after) = (before.unwrap(), after.unwrap());
    assert_eq!(before.left, after.left);
    assert_ne!(before.right[0], after.right[0]);
    assert_eq!(before.right[1], after.right[1]);
    item.active_call_changed(false);
    assert_eq!(item.render(&connected).unwrap(), before);
}

#[test]
fn own_picture_is_shown_once() {
    for (in_room, status) in [
        (false, Status::Connected),
        (true, Status::Connected),
        (false, Status::ConnectionLost),
    ] {
        let call = if in_room { Some(room(Vec::new())) } else { None };
        let bar = item().render(&snapshot(call, status)).unwrap();
        match bar.right[bar.right.len() - 1] {
            RightItem::UserMenu(button) => {
                assert_eq!(button.face.is_some(), !in_room && status == Status::Connected)
            }
            _ => panic!("the user menu does not come last"),
        }
        assert_eq!(bar.left.len(), if in_room { 2 } else { 1 });
    }
}

#[test]
fn people_with_one_login_are_all_shown() {
    let people = vec![participant(2, "ada", here()), participant(1, "ada", here())];
    let bar = item().render(&snapshot(Some(room(people)), Status::Connected)).unwrap();
    let clicks: Vec<Click> = bar
        .left
        .iter()
        .filter_map(|item| match item {
            LeftItem::Title(_) => None,
            LeftItem::Person(person) => {
                person.pile.interaction.as_ref().map(|shown| shown.region.on_click)
            }
        })
        .collect();
    assert_eq!(
        clicks,
        vec![Click::ToggleFollow { peer_id: 20 }, Click::ToggleFollow { peer_id: 10 }]
    );
}

#[test]
fn regions_of_people_differ() {
    let elsewhere = ParticipantLocation::SharedProject { project_id: 5 };
    let people = vec![
        participant(1, "ada", here()),
        participant(2, "bob", here()),
        participant(3, "cyd", elsewhere),
        participant(4, "dee", elsewhere),
    ];
    let bar = item().render(&snapshot(Some(room(people)), Status::Connected)).unwrap();
    let regions: Vec<(RegionTag, usize)> = bar
        .left
        .iter()
        .filter_map(|item| match item {
            LeftItem::Title(_) => None,
            LeftItem::Person(person) => person
                .pile
                .interaction
                .as_ref()
                .map(|shown| (shown.region.tag, shown.region.id)),
        })
        .collect();
    assert_eq!(
        regions,
        vec![
            (RegionTag::ToggleFollow, 1),
            (RegionTag::ToggleFollow, 2),
            (RegionTag::JoinProject, 30),
            (RegionTag::JoinProject, 40),
        ]
    );
}

#[test]
fn every_control_does_something() {
    let mut item = item();
    for status in [Status::Connected, Status::UpgradeRequired, Status::Reconnecting] {
        let cx = snapshot(Some(room(Vec::new())), status);
        let mut tags: Vec<RegionTag> = Vec::new();
        for shown in item.render(&cx).unwrap().right {
            let region = match shown {
                RightItem::Share(button) | RightItem::SignIn(button) => button.region,
                RightItem::Microphone(button) | RightItem::ScreenSharing(button) => button.region,
                RightItem::Contacts(contacts) => contacts.button.region,
                RightItem::UserMenu(button) => button.button.region,
                RightItem::ConnectionStatus(ConnectionStatus::Outdated { region, .. }) => region,
                RightItem::ConnectionStatus(ConnectionStatus::Offline { .. }) => continue,
            };
            assert!(!tags.contains(&region.tag));
            tags.push(region.tag);
            match item.clicked(region.on_click, &cx) {
                Response::Perform(effects) => assert_eq!(effects.len(), 1),
                Response::ShowUserMenu(_) => assert_eq!(region.tag, RegionTag::ToggleUserMenu),
            }
        }
    }
}

#[test]
fn faces_lie_under_the_ribbon() {
    let mut call = room(vec![participant(2, "bob", here())]);
    call.follows = HashMap::from([(10, HashMap::from([(PROJECT, vec![20])]))]);
    let cx = snapshot(Some(call), Status::Connected);
    for (picture, replica_id) in
        [(true, Some(1)), (true, None), (false, Some(1)), (false, None)]
    {
        let mut somebody = user(1, "ada");
        if !picture {
            somebody.avatar = None;
        }
        let pile = item().render_face_pile(
            &somebody,
            replica_id,
            10,
            Some(here()),
            cx.workspace.as_ref().unwrap(),
            &cx.theme,
            &cx,
        );
        let (layers, interaction) = pile.into_layers();
        assert!(interaction.is_some());
        let mut names: Vec<&str> = Vec::new();
        for layer in layers {
            match layer {
                PileLayer::Faces(faces) => {
                    names.push("faces");
                    let avatars: Vec<ImageId> =
                        faces.into_pictures().iter().map(|face| face.avatar).collect();
                    assert_eq!(avatars, vec![ImageId(1), ImageId(2)]);
                }
                PileLayer::Ribbon(ribbon) => {
                    names.push("ribbon");
                    assert_eq!(ribbon.ribbon.color, Paint::ReplicaCursor(1));
                }
            }
        }
        let mut expected: Vec<&str> = Vec::new();
        if picture {
            expected.push("faces");
        }
        if replica_id.is_some() {
            expected.push("ribbon");
        }
        assert_eq!(names, expected);
    }
}

#[test]
fn right_side_lies_over_the_left() {
    let cx = snapshot(None, Status::Connected);
    let bar = item().render(&cx).unwrap();
    let again = item().render(&cx).unwrap();
    assert_eq!(
        bar.into_layers(),
        vec![
            TitlebarLayer::Left { items: again.left },
            TitlebarLayer::Right {
                controls: again.right,
                alignment: Alignment::Right,
                background: BACKGROUND,
            },
        ]
    );
}
