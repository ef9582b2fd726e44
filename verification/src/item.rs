//! The state of the title bar, and how it reacts to actions, clicks and events.
//!
//! A reaction changes the state and returns the effects that the caller has to perform,
//! in order.
use vstd::prelude::*;

use crate::elements::{Action, AnchorCorner, Click, OverlayPositionMode};
use crate::snapshot::{ClientId, ModelId, PeerId, RemoteProjectId, Snapshot, ViewId};

verus! {

/// What brings about a reaction of the title bar.
#[derive(Clone, Copy, Debug, PartialEq, Eq, Structural)]
pub enum Source {
    /// The view has changed.
    View(ViewId),
    /// The model has changed.
    Model(ModelId),
    /// The window has become active or inactive.
    WindowActivation,
    /// The model has emitted an event.
    EventsOf(ModelId),
}

/// How the title bar reacts to a source.
#[derive(Clone, Copy, Debug, PartialEq, Eq, Structural)]
pub enum Reaction {
    /// It is drawn again.
    Notify,
    /// See [`CollabTitlebarItem::active_call_changed`].
    ActiveCallChanged,
    /// See [`CollabTitlebarItem::window_activation_changed`].
    WindowActivationChanged,
    /// See [`CollabTitlebarItem::user_store_event`].
    UserStoreEvent,
}

/// What a source reports.
#[derive(Clone, Copy, Debug, PartialEq, Eq, Structural)]
pub enum Signal {
    /// A view or a model has changed.
    Changed,
    /// The window has become active or inactive.
    Activation { active: bool },
    /// The user store has emitted an event.
    Event(UserStoreEvent),
}

/// A source that the title bar reacts to.
#[derive(Clone, Copy, Debug, PartialEq, Eq, Structural)]
pub struct Subscription {
    pub source: Source,
    pub reaction: Reaction,
}

/// The parts of a window that its title bar refers to.
#[derive(Clone, Copy, Debug, PartialEq, Eq, Structural)]
pub struct WorkspaceHandles {
    pub workspace: ViewId,
    pub project: ModelId,
    pub user_store: ModelId,
    pub client: ClientId,
}

/// How the view of the user menu is made.
#[derive(Clone, Copy, Debug, PartialEq, Eq, Structural)]
pub struct UserMenuSettings {
    pub parent: ViewId,
    pub position_mode: OverlayPositionMode,
}

/// What has happened to a relation between two users.
#[derive(Clone, Copy, Debug, PartialEq, Eq, Structural)]
pub enum ContactEventKind {
    Requested,
    Accepted,
    Cancelled,
}

/// An event of the user store.
#[derive(Clone, Copy, Debug, PartialEq, Eq, Structural)]
pub enum UserStoreEvent {
    Contact { user_id: u64, kind: ContactEventKind },
    /// Any other event.
    Other,
}

/// Something for the caller to do. Where it can fail, a failure is logged and changes
/// nothing else.
#[derive(Clone, Copy, Debug, PartialEq, Eq, Structural)]
pub enum Effect {
    /// Draw the title bar again.
    Notify,
    /// Make a contacts popover, and report it with
    /// [`CollabTitlebarItem::contacts_popover_added`].
    AddContactsPopover { project: ModelId, user_store: ModelId, workspace: ViewId },
    /// Report with [`CollabTitlebarItem::contacts_popover_dismissed`] that the popover has
    /// been dismissed, whenever it is.
    SubscribeToContactsPopover { popover: ViewId },
    /// Tell the other participants of the call in which project the user is.
    SetCallLocation { location: Option<ModelId> },
    ShareProject { project: ModelId },
    UnshareProject { project: ModelId },
    /// Show a notification in the window, in place of one with the same number.
    ShowContactNotification {
        id: usize,
        user_id: u64,
        kind: ContactEventKind,
        user_store: ModelId,
    },
    AuthenticateAndConnect { client: ClientId, try_keychain: bool },
    ToggleScreenSharing,
    ToggleMute,
    ToggleFollow { peer_id: PeerId },
    JoinRemoteProject { project_id: RemoteProjectId, user_id: u64 },
    CheckForUpdates,
}

/// An entry of a menu.
#[derive(Clone, Copy, Debug, PartialEq, Eq)]
pub enum MenuItem {
    Action { label: &'static str, action: Action },
    Separator,
}

/// The user menu, about to be shown.
#[derive(Debug, PartialEq, Eq)]
pub struct UserMenu {
    pub menu: ViewId,
    /// The corner of the menu that is fixed to the default position.
    pub anchor_corner: AnchorCorner,
    pub items: Vec<MenuItem>,
}

/// What a click leads to.
#[derive(Debug, PartialEq, Eq)]
pub enum Response {
    Perform(Vec<Effect>),
    ShowUserMenu(UserMenu),
}

/// The title bar of a window.
#[derive(Debug, PartialEq, Eq)]
pub struct CollabTitlebarItem {
    pub project: ModelId,
    pub user_store: ModelId,
    pub client: ClientId,
    pub workspace: ViewId,
    /// The contacts popover, while it is open.
    pub contacts_popover: Option<ViewId>,
    pub user_menu: ViewId,
    pub subscriptions: Vec<Subscription>,
}

/// The click that asks for the same as an action, for the actions that a title bar handles.
pub open spec fn click_of_action(action: Action) -> Option<Click> {
    match action {
        Action::ToggleContactsMenu => Some(Click::ToggleContactsPopover),
        Action::ShareProject => Some(Click::ShareProject),
        Action::UnshareProject => Some(Click::UnshareProject),
        Action::ToggleUserMenu => Some(Click::ToggleUserMenu),
        _ => None,
    }
}

/// The actions that a title bar handles. What each of them does is said by
/// [`CollabTitlebarItem::acted`].
pub fn init() -> (actions: Vec<Action>)
    ensures
        actions@ == seq![
            Action::ToggleContactsMenu,
            Action::ShareProject,
            Action::UnshareProject,
            Action::ToggleUserMenu,
        ],
        forall|action: Action| #[trigger]
            actions@.contains(action) <==> click_of_action(action) is Some,
{
    let actions: Vec<Action> = vec![
        Action::ToggleContactsMenu,
        Action::ShareProject,
        Action::UnshareProject,
        Action::ToggleUserMenu,
    ];
    assert(actions@[0] == Action::ToggleContactsMenu);
    assert(actions@[1] == Action::ShareProject);
    assert(actions@[2] == Action::UnshareProject);
    assert(actions@[3] == Action::ToggleUserMenu);
    actions
}

/// What the title bar of a window reacts to.
pub open spec fn subscriptions_of(handles: WorkspaceHandles, active_call: ModelId) -> Seq<
    Subscription,
> {
    seq![
        Subscription { source: Source::View(handles.workspace), reaction: Reaction::Notify },
        Subscription { source: Source::Model(handles.project), reaction: Reaction::Notify },
        Subscription {
            source: Source::Model(active_call),
            reaction: Reaction::ActiveCallChanged,
        },
        Subscription {
            source: Source::WindowActivation,
            reaction: Reaction::WindowActivationChanged,
        },
        Subscription { source: Source::Model(handles.user_store), reaction: Reaction::Notify },
        Subscription {
            source: Source::EventsOf(handles.user_store),
            reaction: Reaction::UserStoreEvent,
        },
    ]
}

/// The entries of the user menu: the last one only for somebody who is signed in.
pub open spec fn user_menu_items(signed_in: bool) -> Seq<MenuItem> {
    let for_everybody = seq![
        MenuItem::Action { label: "Settings", action: Action::OpenSettings },
        MenuItem::Action { label: "Theme", action: Action::ToggleThemeSelector },
        MenuItem::Separator,
        MenuItem::Action { label: "Share Feedback", action: Action::GiveFeedback },
    ];
    if signed_in {
        for_everybody.push(MenuItem::Action { label: "Sign out", action: Action::SignOut })
    } else {
        for_everybody
    }
}

/// Whether a user is told about a contact event.
pub open spec fn worth_a_notification(event: UserStoreEvent) -> bool {
    event matches UserStoreEvent::Contact { kind, .. } && (kind is Requested || kind is Accepted)
}

/// The notification about an event of the user store, if there is one.
pub open spec fn notification_of(
    item: CollabTitlebarItem,
    workspace_open: bool,
    event: UserStoreEvent,
) -> Option<Effect> {
    if workspace_open && worth_a_notification(event) {
        Some(
            Effect::ShowContactNotification {
                id: event->user_id as usize,
                user_id: event->user_id,
                kind: event->kind,
                user_store: item.user_store,
            },
        )
    } else {
        None
    }
}

/// The project in which the user is, as long as only this window is considered.
pub open spec fn location_of(item: CollabTitlebarItem, active: bool) -> Option<ModelId> {
    if active {
        Some(item.project)
    } else {
        None
    }
}

/// The effects of a reaction to a signal. A signal that lacks what the reaction needs has none.
pub open spec fn effects_of_reaction(
    item: CollabTitlebarItem,
    reaction: Reaction,
    signal: Signal,
    workspace_open: bool,
) -> Seq<Effect> {
    match (reaction, signal) {
        (Reaction::Notify, _) => seq![Effect::Notify],
        (Reaction::ActiveCallChanged, _) => seq![Effect::Notify],
        (Reaction::WindowActivationChanged, Signal::Activation { active }) => seq![
            Effect::SetCallLocation { location: location_of(item, active) },
        ],
        (Reaction::UserStoreEvent, Signal::Event(event)) => match notification_of(
            item,
            workspace_open,
            event,
        ) {
            Some(effect) => seq![effect],
            None => seq![],
        },
        _ => seq![],
    }
}

/// What a reaction leaves of the title bar: the end of a call closes the popover, and nothing
/// else changes anything.
pub open spec fn after_reaction(
    item: CollabTitlebarItem,
    reaction: Reaction,
    in_room: bool,
) -> CollabTitlebarItem {
    if reaction is ActiveCallChanged && !in_room {
        item.with_popover(None)
    } else {
        item
    }
}

/// The effects of a click. A click on the button for the user menu has none of these: it shows
/// the menu.
pub open spec fn effects_of_click(
    item: CollabTitlebarItem,
    click: Click,
    workspace_open: bool,
) -> Seq<Effect> {
    match click {
        Click::ToggleContactsPopover => item.toggle_effects(),
        Click::ToggleUserMenu => seq![],
        Click::ToggleScreenSharing => seq![Effect::ToggleScreenSharing],
        Click::ToggleMute => seq![Effect::ToggleMute],
        Click::ShareProject => seq![Effect::ShareProject { project: item.project }],
        Click::UnshareProject => seq![Effect::UnshareProject { project: item.project }],
        Click::SignIn => seq![
            Effect::AuthenticateAndConnect { client: item.client, try_keychain: true },
        ],
        Click::ToggleFollow { peer_id } => if workspace_open {
            seq![Effect::ToggleFollow { peer_id }]
        } else {
            seq![]
        },
        Click::JoinProject { project_id, user_id } => if workspace_open {
            seq![Effect::JoinRemoteProject { project_id, user_id }]
        } else {
            seq![]
        },
        Click::CheckForUpdates => seq![Effect::CheckForUpdates],
    }
}

/// What a click leaves of the title bar. A popover that the click asks for is reported later.
pub open spec fn after_click(item: CollabTitlebarItem, click: Click) -> CollabTitlebarItem {
    if click is ToggleContactsPopover {
        item.with_popover(None)
    } else {
        item
    }
}

/// Whether `response` is what a click leads to: the user menu, or effects.
pub open spec fn answers(
    response: Response,
    item: CollabTitlebarItem,
    click: Click,
    cx: &Snapshot,
) -> bool {
    match response {
        Response::ShowUserMenu(menu) => {
            &&& click is ToggleUserMenu
            &&& menu.menu == item.user_menu
            &&& menu.anchor_corner == AnchorCorner::TopRight
            &&& menu.items@ == user_menu_items(cx.user_store.current_user is Some)
        },
        Response::Perform(effects) => {
            &&& !(click is ToggleUserMenu)
            &&& effects@ == effects_of_click(item, click, cx.workspace is Some)
        },
    }
}

impl CollabTitlebarItem {
    /// The title bar with another popover, or with none.
    pub open spec fn with_popover(self, contacts_popover: Option<ViewId>) -> CollabTitlebarItem {
        CollabTitlebarItem { contacts_popover, ..self }
    }

    /// The effects of [`Self::toggle_contacts_popover`].
    pub open spec fn toggle_effects(self) -> Seq<Effect> {
        if self.contacts_popover is Some {
            seq![Effect::Notify]
        } else {
            seq![
                Effect::AddContactsPopover {
                    project: self.project,
                    user_store: self.user_store,
                    workspace: self.workspace,
                },
            ]
        }
    }

    /// The name of this kind of view.
    pub fn ui_name() -> (name: &'static str)
        ensures
            name@ == "CollabTitlebarItem"@,
    {
        "CollabTitlebarItem"
    }

    /// How the user menu of the title bar `titlebar` is made.
    pub fn user_menu_settings(titlebar: ViewId) -> (settings: UserMenuSettings)
        ensures
            settings == (UserMenuSettings {
                parent: titlebar,
                position_mode: OverlayPositionMode::Local,
            }),
    {
        UserMenuSettings { parent: titlebar, position_mode: OverlayPositionMode::Local }
    }

    /// The title bar of a window, with its popover closed.
    pub fn new(handles: WorkspaceHandles, active_call: ModelId, user_menu: ViewId) -> (item: Self)
        ensures
            item.project == handles.project,
            item.user_store == handles.user_store,
            item.client == handles.client,
            item.workspace == handles.workspace,
            item.contacts_popover is None,
            item.user_menu == user_menu,
            item.subscriptions@ == subscriptions_of(handles, active_call),
    {
        let mut subscriptions: Vec<Subscription> = Vec::new();
        subscriptions.push(
            Subscription { source: Source::View(handles.workspace), reaction: Reaction::Notify },
        );
        subscriptions.push(
            Subscription { source: Source::Model(handles.project), reaction: Reaction::Notify },
        );
        subscriptions.push(
            Subscription {
                source: Source::Model(active_call),
                reaction: Reaction::ActiveCallChanged,
            },
        );
        subscriptions.push(
            Subscription {
                source: Source::WindowActivation,
                reaction: Reaction::WindowActivationChanged,
            },
        );
        subscriptions.push(
            Subscription { source: Source::Model(handles.user_store), reaction: Reaction::Notify },
        );
        subscriptions.push(
            Subscription {
                source: Source::EventsOf(handles.user_store),
                reaction: Reaction::UserStoreEvent,
            },
        );
        assert(subscriptions@ =~= subscriptions_of(handles, active_call));
        CollabTitlebarItem {
            project: handles.project,
            user_store: handles.user_store,
            client: handles.client,
            workspace: handles.workspace,
            contacts_popover: None,
            user_menu,
            subscriptions,
        }
    }

    /// The user store has emitted an event: a request for contact, or the acceptance of one,
    /// is shown in the window, if that is still open.
    pub fn user_store_event(&self, workspace_open: bool, event: UserStoreEvent) -> (effect: Option<
        Effect,
    >)
        ensures
            effect == notification_of(*self, workspace_open, event),
    {
        if !workspace_open {
            return None;
        }
        match event {
            UserStoreEvent::Contact { user_id, kind } => match kind {
                ContactEventKind::Requested | ContactEventKind::Accepted => Some(
                    Effect::ShowContactNotification {
                        id: user_id as usize,
                        user_id,
                        kind,
                        user_store: self.user_store,
                    },
                ),
                ContactEventKind::Cancelled => None,
            },
            UserStoreEvent::Other => None,
        }
    }

    /// The window has become active or inactive: while it is active, the user is in its project.
    pub fn window_activation_changed(&self, active: bool) -> (effects: Vec<Effect>)
        ensures
            effects@ == seq![Effect::SetCallLocation { location: location_of(*self, active) }],
    {
        let location = if active {
            Some(self.project)
        } else {
            None
        };
        vec![Effect::SetCallLocation { location }]
    }

    /// The call has changed: when there is none, the contacts popover is closed.
    pub fn active_call_changed(&mut self, in_room: bool) -> (effects: Vec<Effect>)
        ensures
            *final(self) == after_reaction(*old(self), Reaction::ActiveCallChanged, in_room),
            effects@ == seq![Effect::Notify],
    {
        if !in_room {
            self.contacts_popover = None;
        }
        vec![Effect::Notify]
    }

    /// Shares the project of the title bar into the call.
    pub fn share_project(&self) -> (effects: Vec<Effect>)
        ensures
            effects@ == seq![Effect::ShareProject { project: self.project }],
    {
        vec![Effect::ShareProject { project: self.project }]
    }

    /// Stops sharing the project of the title bar.
    pub fn unshare_project(&self) -> (effects: Vec<Effect>)
        ensures
            effects@ == seq![Effect::UnshareProject { project: self.project }],
    {
        vec![Effect::UnshareProject { project: self.project }]
    }

    /// Closes the contacts popover if it is open, and asks for one if it is closed.
    pub fn toggle_contacts_popover(&mut self) -> (effects: Vec<Effect>)
        ensures
            *final(self) == old(self).with_popover(None),
            effects@ == old(self).toggle_effects(),
    {
        if self.contacts_popover.take().is_none() {
            vec![
                Effect::AddContactsPopover {
                    project: self.project,
                    user_store: self.user_store,
                    workspace: self.workspace,
                },
            ]
        } else {
            vec![Effect::Notify]
        }
    }

    /// A contacts popover has been made: it is open now.
    pub fn contacts_popover_added(&mut self, popover: ViewId) -> (effects: Vec<Effect>)
        ensures
            *final(self) == old(self).with_popover(Some(popover)),
            effects@ == seq![Effect::SubscribeToContactsPopover { popover }, Effect::Notify],
    {
        self.contacts_popover = Some(popover);
        vec![Effect::SubscribeToContactsPopover { popover }, Effect::Notify]
    }

    /// A contacts popover has been dismissed: none is open now.
    pub fn contacts_popover_dismissed(&mut self) -> (effects: Vec<Effect>)
        ensures
            *final(self) == old(self).with_popover(None),
            effects@ == seq![Effect::Notify],
    {
        self.contacts_popover = None;
        vec![Effect::Notify]
    }

    /// Shows the user menu, with the entries for the user at hand.
    pub fn toggle_user_menu(&self, cx: &Snapshot) -> (menu: UserMenu)
        ensures
            menu.menu == self.user_menu,
            menu.anchor_corner == AnchorCorner::TopRight,
            menu.items@ == user_menu_items(cx.user_store.current_user is Some),
    {
        let mut items: Vec<MenuItem> = vec![
            MenuItem::Action { label: "Settings", action: Action::OpenSettings },
            MenuItem::Action { label: "Theme", action: Action::ToggleThemeSelector },
            MenuItem::Separator,
            MenuItem::Action { label: "Share Feedback", action: Action::GiveFeedback },
        ];
        if cx.user_store.current_user.is_some() {
            items.push(MenuItem::Action { label: "Sign out", action: Action::SignOut });
        }
        assert(items@ =~= user_menu_items(cx.user_store.current_user is Some));
        UserMenu { menu: self.user_menu, anchor_corner: AnchorCorner::TopRight, items }
    }

    /// Something in the title bar has been clicked.
    pub fn clicked(&mut self, click: Click, cx: &Snapshot) -> (response: Response)
        ensures
            *final(self) == after_click(*old(self), click),
            answers(response, *old(self), click, cx),
    {
        let effects: Vec<Effect> = match click {
            Click::ToggleContactsPopover => self.toggle_contacts_popover(),
            Click::ToggleUserMenu => {
                return Response::ShowUserMenu(self.toggle_user_menu(cx));
            },
            Click::ToggleScreenSharing => vec![Effect::ToggleScreenSharing],
            Click::ToggleMute => vec![Effect::ToggleMute],
            Click::ShareProject => self.share_project(),
            Click::UnshareProject => self.unshare_project(),
            Click::SignIn => vec![
                Effect::AuthenticateAndConnect { client: self.client, try_keychain: true },
            ],
            Click::ToggleFollow { peer_id } => if cx.workspace.is_some() {
                vec![Effect::ToggleFollow { peer_id }]
            } else {
                Vec::new()
            },
            Click::JoinProject { project_id, user_id } => if cx.workspace.is_some() {
                vec![Effect::JoinRemoteProject { project_id, user_id }]
            } else {
                Vec::new()
            },
            Click::CheckForUpdates => vec![Effect::CheckForUpdates],
        };
        assert(effects@ =~= effects_of_click(*old(self), click, cx.workspace is Some));
        Response::Perform(effects)
    }

    /// An action has been dispatched to the title bar, which handles those that [`init`] lists.
    pub fn acted(&mut self, action: Action, cx: &Snapshot) -> (response: Option<Response>)
        ensures
            response is Some <==> (action is ToggleContactsMenu || action is ShareProject
                || action is UnshareProject || action is ToggleUserMenu),
            response matches Some(response) ==> click_of_action(action) is Some && answers(
                response,
                *old(self),
                click_of_action(action)->0,
                cx,
            ),
            *final(self) == (match click_of_action(action) {
                Some(click) => after_click(*old(self), click),
                None => *old(self),
            }),
    {
        match action {
            Action::ToggleContactsMenu => Some(Response::Perform(self.toggle_contacts_popover())),
            Action::ShareProject => Some(Response::Perform(self.share_project())),
            Action::UnshareProject => Some(Response::Perform(self.unshare_project())),
            Action::ToggleUserMenu => Some(Response::ShowUserMenu(self.toggle_user_menu(cx))),
            _ => None,
        }
    }

    /// A source that the title bar reacts to has given a signal.
    pub fn signalled(&mut self, reaction: Reaction, signal: Signal, cx: &Snapshot) -> (effects: Vec<
        Effect,
    >)
        ensures
            *final(self) == after_reaction(*old(self), reaction, cx.room is Some),
            effects@ == effects_of_reaction(
                *old(self),
                reaction,
                signal,
                cx.workspace is Some,
            ),
    {
        match (reaction, signal) {
            (Reaction::Notify, _) => vec![Effect::Notify],
            (Reaction::ActiveCallChanged, _) => self.active_call_changed(cx.room.is_some()),
            (Reaction::WindowActivationChanged, Signal::Activation { active }) => {
                self.window_activation_changed(active)
            },
            (Reaction::UserStoreEvent, Signal::Event(event)) => {
                match self.user_store_event(cx.workspace.is_some(), event) {
                    Some(effect) => vec![effect],
                    None => Vec::new(),
                }
            },
            _ => Vec::new(),
        }
    }
}

} // verus!
