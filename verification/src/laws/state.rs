//! What the title bar does in answer to clicks, actions and signals, stated on its fields.
use vstd::prelude::*;

use crate::elements::{Action, Click};
use crate::item::{
    after_click, after_reaction, answers, click_of_action, effects_of_click, effects_of_reaction,
    location_of, notification_of, subscriptions_of, user_menu_items, worth_a_notification,
    CollabTitlebarItem, ContactEventKind, Effect, MenuItem, Reaction, Response, Signal, Source,
    Subscription, UserStoreEvent, WorkspaceHandles,
};
use crate::snapshot::{ModelId, Snapshot, ViewId};

verus! {

/// A title bar with another popover has that popover, and everything else as before.
pub proof fn popover_is_all_that_is_replaced(item: CollabTitlebarItem, popover: Option<ViewId>)
    ensures
        ({
            let after = item.with_popover(popover);
            &&& after.contacts_popover == popover
            &&& after.project == item.project
            &&& after.user_store == item.user_store
            &&& after.client == item.client
            &&& after.workspace == item.workspace
            &&& after.user_menu == item.user_menu
            &&& after.subscriptions == item.subscriptions
        }),
{
}

/// Toggling an open popover only draws the bar again; toggling a closed one asks for a popover
/// for the project, the user store and the window of the title bar.
pub proof fn toggling_closes_or_asks(item: CollabTitlebarItem)
    ensures
        item.contacts_popover is Some ==> item.toggle_effects() == seq![Effect::Notify],
        item.contacts_popover is None ==> item.toggle_effects() == seq![
            Effect::AddContactsPopover {
                project: item.project,
                user_store: item.user_store,
                workspace: item.workspace,
            },
        ],
{
}

/// What every click asks for. A click on a person asks for nothing once the window is closed.
pub proof fn effects_of_every_click(item: CollabTitlebarItem, click: Click, workspace_open: bool)
    ensures
        ({
            let effects = effects_of_click(item, click, workspace_open);
            match click {
                Click::ToggleContactsPopover => effects.len() == 1 && (
                if item.contacts_popover is Some {
                    effects[0] is Notify
                } else {
                    effects[0] == Effect::AddContactsPopover {
                        project: item.project,
                        user_store: item.user_store,
                        workspace: item.workspace,
                    }
                }),
                Click::ToggleUserMenu => effects.len() == 0,
                Click::ToggleScreenSharing => effects == seq![Effect::ToggleScreenSharing],
                Click::ToggleMute => effects == seq![Effect::ToggleMute],
                Click::ShareProject => effects == seq![
                    Effect::ShareProject { project: item.project },
                ],
                Click::UnshareProject => effects == seq![
                    Effect::UnshareProject { project: item.project },
                ],
                Click::SignIn => effects == seq![
                    Effect::AuthenticateAndConnect { client: item.client, try_keychain: true },
                ],
                Click::ToggleFollow { peer_id } => if workspace_open {
                    effects == seq![Effect::ToggleFollow { peer_id }]
                } else {
                    effects.len() == 0
                },
                Click::JoinProject { project_id, user_id } => if workspace_open {
                    effects == seq![Effect::JoinRemoteProject { project_id, user_id }]
                } else {
                    effects.len() == 0
                },
                Click::CheckForUpdates => effects == seq![Effect::CheckForUpdates],
            }
        }),
{
}

/// A click on the contacts button leaves no popover, whether one was open or not; no other click
/// changes anything.
pub proof fn clicks_change_at_most_the_popover(item: CollabTitlebarItem, click: Click)
    ensures
        click is ToggleContactsPopover ==> after_click(item, click).contacts_popover is None,
        !(click is ToggleContactsPopover) ==> after_click(item, click) == item,
        after_click(item, click).project == item.project,
        after_click(item, click).user_store == item.user_store,
        after_click(item, click).client == item.client,
        after_click(item, click).workspace == item.workspace,
        after_click(item, click).user_menu == item.user_menu,
        after_click(item, click).subscriptions == item.subscriptions,
{
}

/// The answer to a click on the user menu's button is the menu of the title bar, hanging from its
/// upper right corner: settings, theme and, after a separator, feedback, and last signing out for
/// somebody who is signed in. The answer to any other click is a list of effects.
pub proof fn answers_to_clicks(
    response: Response,
    item: CollabTitlebarItem,
    click: Click,
    cx: &Snapshot,
)
    requires
        answers(response, item, click, cx),
    ensures
        response is ShowUserMenu <==> click is ToggleUserMenu,
        response matches Response::ShowUserMenu(menu) ==> {
            let signed_in = cx.user_store.current_user is Some;
            let items = menu.items@;
            &&& menu.menu == item.user_menu
            &&& menu.anchor_corner is TopRight
            &&& items.len() == (if signed_in {
                5int
            } else {
                4
            })
            &&& items[0] == (MenuItem::Action { label: "Settings", action: Action::OpenSettings })
            &&& items[1] == (MenuItem::Action {
                label: "Theme",
                action: Action::ToggleThemeSelector,
            })
            &&& items[2] is Separator
            &&& items[3] == (MenuItem::Action {
                label: "Share Feedback",
                action: Action::GiveFeedback,
            })
            &&& signed_in ==> items[4] == (MenuItem::Action {
                label: "Sign out",
                action: Action::SignOut,
            })
        },
        response matches Response::Perform(effects) ==> effects@ == effects_of_click(
            item,
            click,
            cx.workspace is Some,
        ),
{
}

/// The entries of the user menu, one by one.
pub proof fn entries_of_the_user_menu(signed_in: bool)
    ensures
        ({
            let items = user_menu_items(signed_in);
            &&& items.len() == (if signed_in {
                5int
            } else {
                4
            })
            &&& items[0] == (MenuItem::Action { label: "Settings", action: Action::OpenSettings })
            &&& items[1] == (MenuItem::Action {
                label: "Theme",
                action: Action::ToggleThemeSelector,
            })
            &&& items[2] is Separator
            &&& items[3] == (MenuItem::Action {
                label: "Share Feedback",
                action: Action::GiveFeedback,
            })
            &&& signed_in ==> items[4] == (MenuItem::Action {
                label: "Sign out",
                action: Action::SignOut,
            })
        }),
{
}

/// Which actions are handled, and like which click.
pub proof fn actions_are_handled_like_clicks(action: Action)
    ensures
        match action {
            Action::ToggleContactsMenu => click_of_action(action) == Some(
                Click::ToggleContactsPopover,
            ),
            Action::ShareProject => click_of_action(action) == Some(Click::ShareProject),
            Action::UnshareProject => click_of_action(action) == Some(Click::UnshareProject),
            Action::ToggleUserMenu => click_of_action(action) == Some(Click::ToggleUserMenu),
            Action::ToggleScreenSharing => click_of_action(action) is None,
            Action::ToggleMute => click_of_action(action) is None,
            Action::FollowNextCollaborator => click_of_action(action) is None,
            Action::OpenSettings => click_of_action(action) is None,
            Action::ToggleThemeSelector => click_of_action(action) is None,
            Action::GiveFeedback => click_of_action(action) is None,
            Action::SignOut => click_of_action(action) is None,
        },
{
}

/// A request for contact and the acceptance of one are shown in an open window, under the number
/// of the user; nothing else is, and nothing in a closed window.
pub proof fn notifications_of_events(
    item: CollabTitlebarItem,
    workspace_open: bool,
    event: UserStoreEvent,
)
    ensures
        match event {
            UserStoreEvent::Other => !worth_a_notification(event),
            UserStoreEvent::Contact { user_id, kind } => match kind {
                ContactEventKind::Requested => worth_a_notification(event),
                ContactEventKind::Accepted => worth_a_notification(event),
                ContactEventKind::Cancelled => !worth_a_notification(event),
            },
        },
        !workspace_open ==> notification_of(item, workspace_open, event) is None,
        workspace_open ==> match event {
            UserStoreEvent::Other => notification_of(item, workspace_open, event) is None,
            UserStoreEvent::Contact { user_id, kind } => if kind is Cancelled {
                notification_of(item, workspace_open, event) is None
            } else {
                notification_of(item, workspace_open, event) == Some(
                    Effect::ShowContactNotification {
                        id: user_id as usize,
                        user_id,
                        kind,
                        user_store: item.user_store,
                    },
                )
            },
        },
{
}

/// While its window is active the user is in the project of the title bar, and otherwise in none.
pub proof fn location_follows_the_activation(item: CollabTitlebarItem)
    ensures
        location_of(item, true) == Some(item.project),
        location_of(item, false) is None,
{
}

/// What every reaction asks for.
pub proof fn effects_of_every_reaction(
    item: CollabTitlebarItem,
    signal: Signal,
    workspace_open: bool,
)
    ensures
        effects_of_reaction(item, Reaction::Notify, signal, workspace_open) == seq![Effect::Notify],
        effects_of_reaction(item, Reaction::ActiveCallChanged, signal, workspace_open) == seq![
            Effect::Notify,
        ],
        signal matches Signal::Activation { active } ==> effects_of_reaction(
            item,
            Reaction::WindowActivationChanged,
            signal,
            workspace_open,
        ) == seq![
            Effect::SetCallLocation {
                location: if active {
                    Some(item.project)
                } else {
                    None
                },
            },
        ],
        !(signal is Activation) ==> effects_of_reaction(
            item,
            Reaction::WindowActivationChanged,
            signal,
            workspace_open,
        ).len() == 0,
        signal matches Signal::Event(event) ==> {
            let effects = effects_of_reaction(
                item,
                Reaction::UserStoreEvent,
                signal,
                workspace_open,
            );
            let shown = workspace_open && event is Contact && !(event->kind is Cancelled);
            &&& !shown ==> effects.len() == 0
            &&& shown ==> effects == seq![
                Effect::ShowContactNotification {
                    id: event->user_id as usize,
                    user_id: event->user_id,
                    kind: event->kind,
                    user_store: item.user_store,
                },
            ]
        },
        !(signal is Event) ==> effects_of_reaction(
            item,
            Reaction::UserStoreEvent,
            signal,
            workspace_open,
        ).len() == 0,
{
}

/// A change of the call closes the popover if there is no call any more. No other reaction, and no
/// change within a call, changes anything.
pub proof fn reactions_change_at_most_the_popover(
    item: CollabTitlebarItem,
    reaction: Reaction,
    in_room: bool,
)
    ensures
        reaction is ActiveCallChanged && !in_room ==> after_reaction(
            item,
            reaction,
            in_room,
        ).contacts_popover is None,
        !(reaction is ActiveCallChanged) || in_room ==> after_reaction(item, reaction, in_room)
            == item,
        after_reaction(item, reaction, in_room).project == item.project,
        after_reaction(item, reaction, in_room).user_store == item.user_store,
        after_reaction(item, reaction, in_room).client == item.client,
        after_reaction(item, reaction, in_room).workspace == item.workspace,
        after_reaction(item, reaction, in_room).user_menu == item.user_menu,
        after_reaction(item, reaction, in_room).subscriptions == item.subscriptions,
{
}

/// What a new title bar subscribes to, in order.
pub proof fn subscriptions_one_by_one(handles: WorkspaceHandles, active_call: ModelId)
    ensures
        ({
            let subscriptions = subscriptions_of(handles, active_call);
            &&& subscriptions.len() == 6
            &&& subscriptions[0] == (Subscription {
                source: Source::View(handles.workspace),
                reaction: Reaction::Notify,
            })
            &&& subscriptions[1] == (Subscription {
                source: Source::Model(handles.project),
                reaction: Reaction::Notify,
            })
            &&& subscriptions[2] == (Subscription {
                source: Source::Model(active_call),
                reaction: Reaction::ActiveCallChanged,
            })
            &&& subscriptions[3] == (Subscription {
                source: Source::WindowActivation,
                reaction: Reaction::WindowActivationChanged,
            })
            &&& subscriptions[4] == (Subscription {
                source: Source::Model(handles.user_store),
                reaction: Reaction::Notify,
            })
            &&& subscriptions[5] == (Subscription {
                source: Source::EventsOf(handles.user_store),
                reaction: Reaction::UserStoreEvent,
            })
        }),
{
}

} // verus!
