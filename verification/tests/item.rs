use std::collections::{HashMap, HashSet};

use collab_titlebar::elements::{Action, AnchorCorner, Click, OverlayPositionMode};
use collab_titlebar::item::{
    init, CollabTitlebarItem, ContactEventKind, Effect, MenuItem, Reaction, Response, Signal,
    Source, Subscription, UserStoreEvent, WorkspaceHandles,
};
use collab_titlebar::snapshot::{
    AvatarKind, AvatarStyle, Client, ClientId, ModelId, Project, Room, Snapshot, Status, Theme,
    User, UserStore, ViewId, Workspace,
};

const HANDLES: WorkspaceHandles = WorkspaceHandles {
    workspace: ViewId(1),
    project: ModelId(2),
    user_store: ModelId(3),
    client: ClientId(4),
};

fn item() -> CollabTitlebarItem {
    CollabTitlebarItem::new(HANDLES, ModelId(5), ViewId(6))
}

fn project() -> Project {
    Project {
        visible_worktrees: Vec::new(),
        remote_id: None,
        is_remote: false,
        is_shared: false,
        replica_id: 0,
        collaborators: HashMap::new(),
    }
}

fn user_store(signed_in: bool) -> UserStore {
    UserStore {
        current_user: if signed_in {
            Some(User { id: 7, github_login: "ada".to_string(), avatar: None })
        } else {
            None
        },
        incoming_contact_requests: Vec::new(),
    }
}

fn snapshot(signed_in: bool, window_open: bool) -> Snapshot {
    let client = Client { peer_id: None, status: Status::Other };
    let style = AvatarStyle { kind: AvatarKind::Leader, grayscale: false };
    Snapshot {
        workspace: if window_open {
            Some(Workspace {
                project: project(),
                client,
                user_store: user_store(signed_in),
                followed: HashSet::new(),
            })
        } else {
            None
        },
        project: project(),
        user_store: user_store(signed_in),
        client,
        room: None,
        theme: Theme { titlebar_background: None, leader_avatar: style, follower_avatar: style },
    }
}

#[test]
fn handles_four_actions() {
    assert_eq!(
        init(),
        vec![
            Action::ToggleContactsMenu,
            Action::ShareProject,
            Action::UnshareProject,
            Action::ToggleUserMenu,
        ]
    );
}

#[test]
fn view_has_a_name() {
    assert_eq!(CollabTitlebarItem::ui_name(), "CollabTitlebarItem");
}

#[test]
fn user_menu_is_positioned_locally() {
    let settings = CollabTitlebarItem::user_menu_settings(ViewId(9));
    assert_eq!(settings.parent, ViewId(9));
    assert_eq!(settings.position_mode, OverlayPositionMode::Local);
}

#[test]
fn new_item_is_closed_and_subscribed() {
    let item = item();
    assert_eq!(item.project, ModelId(2));
    assert_eq!(item.user_store, ModelId(3));
    assert_eq!(item.client, ClientId(4));
    assert_eq!(item.workspace, ViewId(1));
    assert_eq!(item.contacts_popover, None);
    assert_eq!(item.user_menu, ViewId(6));
    let expected = [
        (Source::View(ViewId(1)), Reaction::Notify),
        (Source::Model(ModelId(2)), Reaction::Notify),
        (Source::Model(ModelId(5)), Reaction::ActiveCallChanged),
        (Source::WindowActivation, Reaction::WindowActivationChanged),
        (Source::Model(ModelId(3)), Reaction::Notify),
        (Source::EventsOf(ModelId(3)), Reaction::UserStoreEvent),
    ];
    let expected: Vec<Subscription> = expected
        .iter()
        .map(|&(source, reaction)| Subscription { source, reaction })
        .collect();
    assert_eq!(item.subscriptions, expected);
}

#[test]
fn requests_and_acceptances_are_notified() {
    let item = item();
    for kind in [ContactEventKind::Requested, ContactEventKind::Accepted] {
        assert_eq!(
            item.user_store_event(true, UserStoreEvent::Contact { user_id: 42, kind }),
            Some(Effect::ShowContactNotification {
                id: 42,
                user_id: 42,
                kind,
                user_store: ModelId(3),
            })
        );
    }
}

#[test]
fn other_user_store_events_are_not_notified() {
    let item = item();
    let cancelled = UserStoreEvent::Contact { user_id: 42, kind: ContactEventKind::Cancelled };
    let requested = UserStoreEvent::Contact { user_id: 42, kind: ContactEventKind::Requested };
    assert_eq!(item.user_store_event(true, cancelled), None);
    assert_eq!(item.user_store_event(true, UserStoreEvent::Other), None);
    assert_eq!(item.user_store_event(false, requested), None);
}

#[test]
fn location_follows_the_window() {
    let item = item();
    assert_eq!(
        item.window_activation_changed(true),
        vec![Effect::SetCallLocation { location: Some(ModelId(2)) }]
    );
    assert_eq!(
        item.window_activation_changed(false),
        vec![Effect::SetCallLocation { location: None }]
    );
}

#[test]
fn toggling_alternates() {
    let mut item = item();
    assert_eq!(
        item.toggle_contacts_popover(),
        vec![Effect::AddContactsPopover {
            project: ModelId(2),
            user_store: ModelId(3),
            workspace: ViewId(1),
        }]
    );
    assert_eq!(item.contacts_popover, None);
    assert_eq!(
        item.contacts_popover_added(ViewId(10)),
        vec![Effect::SubscribeToContactsPopover { popover: ViewId(10) }, Effect::Notify]
    );
    assert_eq!(item.contacts_popover, Some(ViewId(10)));
    assert_eq!(item.toggle_contacts_popover(), vec![Effect::Notify]);
    assert_eq!(item.contacts_popover, None);
}

#[test]
fn dismissing_closes_the_popover() {
    let mut item = item();
    item.contacts_popover_added(ViewId(10));
    assert_eq!(item.contacts_popover_dismissed(), vec![Effect::Notify]);
    assert_eq!(item.contacts_popover, None);
}

#[test]
fn popover_survives_until_the_call_ends() {
    let mut item = item();
    item.contacts_popover_added(ViewId(10));
    assert_eq!(item.active_call_changed(true), vec![Effect::Notify]);
    assert_eq!(item.contacts_popover, Some(ViewId(10)));
    assert_eq!(item.active_call_changed(false), vec![Effect::Notify]);
    assert_eq!(item.contacts_popover, None);
}

#[test]
fn user_menu_offers_to_sign_out() {
    let menu = item().toggle_user_menu(&snapshot(true, true));
    assert_eq!(menu.menu, ViewId(6));
    assert_eq!(menu.anchor_corner, AnchorCorner::TopRight);
    assert_eq!(
        menu.items,
        vec![
            MenuItem::Action { label: "Settings", action: Action::OpenSettings },
            MenuItem::Action { label: "Theme", action: Action::ToggleThemeSelector },
            MenuItem::Separator,
            MenuItem::Action { label: "Share Feedback", action: Action::GiveFeedback },
            MenuItem::Action { label: "Sign out", action: Action::SignOut },
        ]
    );
}

#[test]
fn user_menu_without_a_user() {
    let menu = item().toggle_user_menu(&snapshot(false, true));
    assert_eq!(menu.items.len(), 4);
    assert_eq!(
        menu.items[3],
        MenuItem::Action { label: "Share Feedback", action: Action::GiveFeedback }
    );
}

#[test]
fn sharing_concerns_the_project_of_the_title_bar() {
    let mut item = item();
    let cx = snapshot(true, true);
    let share = vec![Effect::ShareProject { project: ModelId(2) }];
    let unshare = vec![Effect::UnshareProject { project: ModelId(2) }];
    assert_eq!(item.share_project(), share);
    assert_eq!(item.unshare_project(), unshare);
    assert_eq!(item.clicked(Click::ShareProject, &cx), Response::Perform(share));
    assert_eq!(item.clicked(Click::UnshareProject, &cx), Response::Perform(unshare));
}

#[test]
fn clicks_lead_to_effects() {
    let mut item = item();
    let cx = snapshot(true, true);
    let cases = [
        (Click::ToggleScreenSharing, Effect::ToggleScreenSharing),
        (Click::ToggleMute, Effect::ToggleMute),
        (
            Click::SignIn,
            Effect::AuthenticateAndConnect { client: ClientId(4), try_keychain: true },
        ),
        (Click::ToggleFollow { peer_id: 11 }, Effect::ToggleFollow { peer_id: 11 }),
        (
            Click::JoinProject { project_id: 12, user_id: 13 },
            Effect::JoinRemoteProject { project_id: 12, user_id: 13 },
        ),
        (Click::CheckForUpdates, Effect::CheckForUpdates),
    ];
    for (click, effect) in cases {
        assert_eq!(item.clicked(click, &cx), Response::Perform(vec![effect]));
    }
    match item.clicked(Click::ToggleUserMenu, &cx) {
        Response::ShowUserMenu(menu) => assert_eq!(menu.items.len(), 5),
        Response::Perform(_) => panic!("the user menu is not shown"),
    }
    assert_eq!(
        item.clicked(Click::ToggleContactsPopover, &cx),
        Response::Perform(vec![Effect::AddContactsPopover {
            project: ModelId(2),
            user_store: ModelId(3),
            workspace: ViewId(1),
        }])
    );
}

#[test]
fn clicks_on_people_need_a_window() {
    let mut item = item();
    let cx = snapshot(true, false);
    assert_eq!(
        item.clicked(Click::ToggleFollow { peer_id: 11 }, &cx),
        Response::Perform(Vec::new())
    );
    assert_eq!(
        item.clicked(Click::JoinProject { project_id: 12, user_id: 13 }, &cx),
        Response::Perform(Vec::new())
    );
}

#[test]
fn actions_have_their_handlers() {
    let mut item = item();
    let cx = snapshot(true, true);
    assert_eq!(
        item.acted(Action::ToggleContactsMenu, &cx),
        Some(Response::Perform(vec![Effect::AddContactsPopover {
            project: ModelId(2),
            user_store: ModelId(3),
            workspace: ViewId(1),
        }]))
    );
    item.contacts_popover_added(ViewId(10));
    assert_eq!(
        item.acted(Action::ShareProject, &cx),
        Some(Response::Perform(vec![Effect::ShareProject { project: ModelId(2) }]))
    );
    assert_eq!(
        item.acted(Action::UnshareProject, &cx),
        Some(Response::Perform(vec![Effect::UnshareProject { project: ModelId(2) }]))
    );
    let menu = item.toggle_user_menu(&cx);
    assert_eq!(item.acted(Action::ToggleUserMenu, &cx), Some(Response::ShowUserMenu(menu)));
    assert_eq!(item.contacts_popover, Some(ViewId(10)));
    assert_eq!(
        item.acted(Action::ToggleContactsMenu, &cx),
        Some(Response::Perform(vec![Effect::Notify]))
    );
    assert_eq!(item.contacts_popover, None);
}

#[test]
fn other_actions_are_not_handled() {
    let mut item = item();
    item.contacts_popover_added(ViewId(10));
    let cx = snapshot(true, true);
    let others = [
        Action::ToggleScreenSharing,
        Action::ToggleMute,
        Action::FollowNextCollaborator,
        Action::OpenSettings,
        Action::ToggleThemeSelector,
        Action::GiveFeedback,
        Action::SignOut,
    ];
    for action in others {
        assert!(!init().contains(&action));
        assert_eq!(item.acted(action, &cx), None);
    }
    assert_eq!(item.contacts_popover, Some(ViewId(10)));
    for action in init() {
        assert!(item.acted(action, &cx).is_some());
    }
}

#[test]
fn subscriptions_have_their_reactions() {
    let mut item = item();
    item.contacts_popover_added(ViewId(10));
    let cx = snapshot(true, true);
    let reactions: Vec<Reaction> =
        item.subscriptions.iter().map(|subscription| subscription.reaction).collect();
    for i in [0, 1, 4] {
        assert_eq!(item.signalled(reactions[i], Signal::Changed, &cx), vec![Effect::Notify]);
        assert_eq!(item.contacts_popover, Some(ViewId(10)));
    }
    for active in [true, false] {
        let location = if active { Some(ModelId(2)) } else { None };
        assert_eq!(
            item.signalled(reactions[3], Signal::Activation { active }, &cx),
            vec![Effect::SetCallLocation { location }]
        );
    }
    let event = UserStoreEvent::Contact { user_id: 42, kind: ContactEventKind::Accepted };
    let shown = item.user_store_event(true, event).unwrap();
    assert_eq!(item.signalled(reactions[5], Signal::Event(event), &cx), vec![shown]);
    let closed = snapshot(true, false);
    assert_eq!(item.signalled(reactions[5], Signal::Event(event), &closed), Vec::new());
    assert_eq!(item.signalled(reactions[5], Signal::Event(UserStoreEvent::Other), &cx), Vec::new());
    assert_eq!(item.contacts_popover, Some(ViewId(10)));
}

#[test]
fn signal_of_a_changed_call_closes_the_popover_without_one() {
    let mut item = item();
    item.contacts_popover_added(ViewId(10));
    let mut cx = snapshot(true, true);
    cx.room = Some(Room {
        remote_participants: Vec::new(),
        follows: HashMap::new(),
        is_screen_sharing: false,
        is_muted: None,
    });
    let changed = Reaction::ActiveCallChanged;
    assert_eq!(item.signalled(changed, Signal::Changed, &cx), vec![Effect::Notify]);
    assert_eq!(item.contacts_popover, Some(ViewId(10)));
    cx.room = None;
    assert_eq!(item.signalled(changed, Signal::Changed, &cx), vec![Effect::Notify]);
    assert_eq!(item.contacts_popover, None);
}

#[test]
fn signals_without_what_a_reaction_needs_are_ignored() {
    let mut item = item();
    let cx = snapshot(true, true);
    for reaction in [Reaction::WindowActivationChanged, Reaction::UserStoreEvent] {
        assert_eq!(item.signalled(reaction, Signal::Changed, &cx), Vec::new());
    }
}
