//! The description of a title bar: what is shown, in which order, and what it does.
//!
//! A description names the theme's styles and measures without holding them, so that the
//! theme and the position of the mouse decide the rest. How the pieces of one control lie
//! inside it is said by the doc comment of its type where no field says it, and in which
//! order they are put down by [`crate::layers`]. Types that own text or lists have a view
//! over mathematical sequences; all others are used in specifications as they are.
use vstd::prelude::*;

use crate::color::{Color, Paint};
use crate::ribbon::AvatarRibbon;
use crate::snapshot::{AvatarKind, AvatarStyle, ImageId, PeerId, RemoteProjectId, ViewId};

verus! {

/// The shape of the mouse cursor.
#[derive(Clone, Copy, Debug, PartialEq, Eq, Structural)]
pub enum CursorStyle {
    Arrow,
    PointingHand,
}

/// The corner of an overlay that is fixed to its anchor.
#[derive(Clone, Copy, Debug, PartialEq, Eq, Structural)]
pub enum AnchorCorner {
    TopLeft,
    TopRight,
    BottomLeft,
    BottomRight,
}

/// What an overlay does when it does not fit into the window.
#[derive(Clone, Copy, Debug, PartialEq, Eq, Structural)]
pub enum OverlayFitMode {
    SnapToWindow,
    SwitchAnchor,
}

/// What the position of an overlay is relative to.
#[derive(Clone, Copy, Debug, PartialEq, Eq, Structural)]
pub enum OverlayPositionMode {
    Window,
    Local,
}

/// Where an element lies in the room that it is given.
#[derive(Clone, Copy, Debug, PartialEq, Eq, Structural)]
pub enum Alignment {
    Center,
    Left,
    Right,
    Bottom,
    BottomRight,
}

/// A measure of the theme.
#[derive(Clone, Copy, Debug, PartialEq, Eq, Structural)]
pub enum Length {
    /// The space between two items of the title bar.
    ItemSpacing,
    /// The space between two face piles.
    FacePileSpacing,
    /// How far the avatars of a face pile overlap.
    FollowerAvatarOverlap,
    /// The width of the contacts icon while its popover is closed and the mouse is elsewhere.
    InactiveContactsIconWidth,
    /// The width of the ribbon below an avatar.
    AvatarRibbonWidth,
    /// The height of the ribbon below an avatar.
    AvatarRibbonHeight,
    /// The outer width of an avatar of this kind.
    AvatarOuterWidth(AvatarKind),
    /// The outer corner radius of an avatar of this kind.
    AvatarOuterCornerRadius(AvatarKind),
}

/// A style of the theme for buttons with an icon, which varies with the state of the mouse.
#[derive(Clone, Copy, Debug, PartialEq, Eq, Structural)]
pub enum IconButtonStyle {
    /// The contacts button, in the active or the inactive state.
    ToggleContacts { active: bool },
    /// The controls of a call.
    CallControl,
}

/// A style of the theme for buttons with a text, which varies with the state of the mouse.
#[derive(Clone, Copy, Debug, PartialEq, Eq, Structural)]
pub enum TextButtonStyle {
    /// The inactive state of the share button.
    Share,
    /// The inactive state of the prompt to sign in.
    SignInPrompt,
}

/// A style of the theme that does not depend on the mouse.
#[derive(Clone, Copy, Debug, PartialEq, Eq, Structural)]
pub enum ContainerStyle {
    /// The mark on the contacts button.
    ToggleContactsBadge,
    /// What surrounds the pictures of a face pile.
    LeaderSelection,
    /// The icon that says that there is no connection.
    OfflineIcon,
    /// The warning that the program is outdated.
    OutdatedWarning,
}

/// An action that can be bound to a key, and that tooltips and menus refer to.
#[derive(Clone, Copy, Debug, PartialEq, Eq, Structural)]
pub enum Action {
    ToggleContactsMenu,
    ToggleUserMenu,
    ShareProject,
    UnshareProject,
    ToggleScreenSharing,
    ToggleMute,
    FollowNextCollaborator,
    OpenSettings,
    ToggleThemeSelector,
    GiveFeedback,
    SignOut,
}

/// What a click asks for.
#[derive(Clone, Copy, Debug, PartialEq, Eq, Structural)]
pub enum Click {
    ToggleContactsPopover,
    ToggleUserMenu,
    ToggleScreenSharing,
    ToggleMute,
    ShareProject,
    UnshareProject,
    SignIn,
    /// Follow the peer, or stop following it.
    ToggleFollow { peer_id: PeerId },
    /// Join the project in which the user is working.
    JoinProject { project_id: RemoteProjectId, user_id: u64 },
    CheckForUpdates,
}

/// The kind of a mouse region. Regions of one kind are told apart by their number.
#[derive(Clone, Copy, Debug, PartialEq, Eq, Structural)]
pub enum RegionTag {
    ToggleContactsMenu,
    ToggleScreenSharing,
    ToggleMute,
    ShareUnshare,
    ToggleUserMenu,
    SignIn,
    ToggleFollow,
    JoinProject,
    ConnectionStatusButton,
}

/// An area that reacts to the mouse.
#[derive(Clone, Copy, Debug, PartialEq, Eq, Structural)]
pub struct MouseRegion {
    pub tag: RegionTag,
    pub id: usize,
    pub cursor: CursorStyle,
    /// What a click with the left button asks for.
    pub on_click: Click,
}

/// The tooltip of a control whose text is fixed.
#[derive(Clone, Copy, Debug, PartialEq, Eq)]
pub struct Tooltip {
    pub id: usize,
    pub text: &'static str,
    /// The action whose key binding is shown along with the text.
    pub action: Option<Action>,
}

/// A button with an icon on it. The colour and the width of the icon and the height of the
/// button are those of its style. What is on the button is centred.
#[derive(Clone, Copy, Debug, PartialEq, Eq)]
pub struct IconButton {
    /// The path of the icon.
    pub icon: &'static str,
    pub style: IconButtonStyle,
    /// Whether the button is as wide as it is high, or as wide as what is on it.
    pub square: bool,
    /// A background in place of the one of the style.
    pub background: Option<Color>,
    pub region: MouseRegion,
    pub tooltip: Tooltip,
    /// Where the button lies in its room, if it does not fill it.
    pub alignment: Option<Alignment>,
}

/// A button with a text on it.
#[derive(Clone, Copy, Debug, PartialEq, Eq)]
pub struct TextButton {
    pub label: &'static str,
    pub style: TextButtonStyle,
    pub region: MouseRegion,
    pub tooltip: Option<Tooltip>,
    /// Where the button lies in its room, if it does not fill it.
    pub alignment: Option<Alignment>,
    /// The space to the left of that room.
    pub margin_left: Option<Length>,
}

/// The mark on the contacts button that says that requests are waiting.
#[derive(Clone, Copy, Debug, PartialEq, Eq, Structural)]
pub struct Badge {
    pub style: ContainerStyle,
    pub alignment: Alignment,
    pub margin_left: Length,
    pub margin_top: Length,
}

/// The place where the contacts popover floats.
#[derive(Clone, Copy, Debug, PartialEq, Eq, Structural)]
pub struct PopoverHost {
    pub view: ViewId,
    pub fit_mode: OverlayFitMode,
    pub anchor_corner: AnchorCorner,
    pub z_index: usize,
    pub alignment: Alignment,
}

/// The button for the contacts, with what is stacked on it: first the badge, then the popover.
#[derive(Clone, Copy, Debug, PartialEq, Eq)]
pub struct ContactsButton {
    pub button: IconButton,
    pub badge: Option<Badge>,
    pub popover: Option<PopoverHost>,
}

/// One picture, on a background.
#[derive(Clone, Copy, Debug, PartialEq, Eq, Structural)]
pub struct Face {
    pub avatar: ImageId,
    pub style: AvatarStyle,
    /// Where the picture lies on the background.
    pub avatar_alignment: Alignment,
    pub background: Paint,
    /// The radius of the corners of the background.
    pub corner_radius: Length,
    /// The width of the background.
    pub width: Length,
    /// The height of the background.
    pub height: Length,
    /// Where the background lies in its room.
    pub alignment: Alignment,
}

/// The button for the user menu, and the menu, which is stacked after the button. What is on the
/// button stands in a row.
#[derive(Clone, Copy, Debug, PartialEq, Eq)]
pub struct UserMenuButton {
    /// The picture to the left of the icon.
    pub face: Option<Face>,
    pub button: IconButton,
    pub margin_left: Length,
    pub menu: ViewId,
    pub menu_alignment: Alignment,
}

/// What is said about a connection that is not in order.
#[derive(Clone, Copy, Debug, PartialEq, Eq)]
pub enum ConnectionStatus {
    /// An icon, aligned in a container of the style.
    Offline { icon: &'static str, style: ContainerStyle, alignment: Alignment },
    /// A text to click on, in a container of the style that is aligned in the region.
    Outdated {
        label: &'static str,
        style: ContainerStyle,
        region: MouseRegion,
        alignment: Alignment,
    },
}

/// One item at the right end of the title bar.
#[derive(Clone, Copy, Debug, PartialEq, Eq)]
pub enum RightItem {
    Share(TextButton),
    Microphone(IconButton),
    ScreenSharing(IconButton),
    Contacts(ContactsButton),
    ConnectionStatus(ConnectionStatus),
    SignIn(TextButton),
    UserMenu(UserMenuButton),
}

impl RightItem {
    /// The area of the item that reacts to the mouse, if there is one.
    pub open spec fn region(self) -> Option<MouseRegion> {
        match self {
            RightItem::Share(button) => Some(button.region),
            RightItem::Microphone(button) => Some(button.region),
            RightItem::ScreenSharing(button) => Some(button.region),
            RightItem::Contacts(contacts) => Some(contacts.button.region),
            RightItem::ConnectionStatus(ConnectionStatus::Outdated { region, .. }) => Some(region),
            RightItem::ConnectionStatus(ConnectionStatus::Offline { .. }) => None,
            RightItem::SignIn(button) => Some(button.region),
            RightItem::UserMenu(button) => Some(button.button.region),
        }
    }
}

/// A part of the project's title, in the theme's style for titles.
#[derive(Debug, PartialEq, Eq)]
pub struct TitleLabel {
    pub text: String,
    /// The byte positions of the text that are drawn in the highlight colour.
    pub highlights: Vec<usize>,
    pub margin_right: Option<Length>,
    pub alignment: Alignment,
    /// The name of the element, for debugging.
    pub element_name: &'static str,
}

/// The view of a [`TitleLabel`].
pub struct TitleLabelView {
    pub text: Seq<char>,
    pub highlights: Seq<usize>,
    pub margin_right: Option<Length>,
    pub alignment: Alignment,
    pub element_name: &'static str,
}

impl View for TitleLabel {
    type V = TitleLabelView;

    open spec fn view(&self) -> TitleLabelView {
        TitleLabelView {
            text: self.text@,
            highlights: self.highlights@,
            margin_right: self.margin_right,
            alignment: self.alignment,
            element_name: self.element_name,
        }
    }
}

/// The title of the project: its name and, to the right of that, the branch.
#[derive(Debug, PartialEq, Eq)]
pub struct ProjectTitle {
    pub name: TitleLabel,
    pub branch: Option<TitleLabel>,
}

/// The view of a [`ProjectTitle`].
pub struct ProjectTitleView {
    pub name: TitleLabelView,
    pub branch: Option<TitleLabelView>,
}

impl View for ProjectTitle {
    type V = ProjectTitleView;

    open spec fn view(&self) -> ProjectTitleView {
        ProjectTitleView {
            name: self.name@,
            branch: match self.branch {
                Some(branch) => Some(branch@),
                None => None,
            },
        }
    }
}

/// The picture of a person and, after it and overlapping, those of the person's followers.
#[derive(Debug, PartialEq, Eq)]
pub struct Faces {
    pub overlap: Length,
    pub leader: Face,
    pub followers: Vec<Face>,
    pub style: ContainerStyle,
    /// A background in place of the one of the style.
    pub background: Option<Paint>,
}

/// The view of [`Faces`].
pub struct FacesView {
    pub overlap: Length,
    pub leader: Face,
    pub followers: Seq<Face>,
    pub style: ContainerStyle,
    pub background: Option<Paint>,
}

impl View for Faces {
    type V = FacesView;

    open spec fn view(&self) -> FacesView {
        FacesView {
            overlap: self.overlap,
            leader: self.leader,
            followers: self.followers@,
            style: self.style,
            background: self.background,
        }
    }
}

/// The ribbon below an avatar, with its size.
#[derive(Clone, Copy, Debug, PartialEq, Eq, Structural)]
pub struct SizedRibbon {
    pub ribbon: AvatarRibbon,
    pub width: Length,
    pub height: Length,
    pub alignment: Alignment,
}

/// What a face pile does when it is clicked, and what it says about that.
#[derive(Debug, PartialEq, Eq)]
pub struct Interaction {
    pub region: MouseRegion,
    pub tooltip_id: usize,
    pub tooltip: String,
    /// The action whose key binding is shown along with the tooltip.
    pub action: Option<Action>,
}

/// The view of an [`Interaction`].
pub struct InteractionView {
    pub region: MouseRegion,
    pub tooltip_id: usize,
    pub tooltip: Seq<char>,
    pub action: Option<Action>,
}

impl View for Interaction {
    type V = InteractionView;

    open spec fn view(&self) -> InteractionView {
        InteractionView {
            region: self.region,
            tooltip_id: self.tooltip_id,
            tooltip: self.tooltip@,
            action: self.action,
        }
    }
}

/// A person in the call: pictures, the ribbon at their lower edge, which is stacked after them,
/// and what a click does.
#[derive(Debug, PartialEq, Eq)]
pub struct FacePile {
    pub faces: Option<Faces>,
    pub ribbon: Option<SizedRibbon>,
    pub interaction: Option<Interaction>,
}

/// The view of a [`FacePile`].
pub struct FacePileView {
    pub faces: Option<FacesView>,
    pub ribbon: Option<SizedRibbon>,
    pub interaction: Option<InteractionView>,
}

impl View for FacePile {
    type V = FacePileView;

    open spec fn view(&self) -> FacePileView {
        FacePileView {
            faces: match self.faces {
                Some(faces) => Some(faces@),
                None => None,
            },
            ribbon: self.ribbon,
            interaction: match self.interaction {
                Some(interaction) => Some(interaction@),
                None => None,
            },
        }
    }
}

/// A face pile, with the space to its right.
#[derive(Debug, PartialEq, Eq)]
pub struct SpacedFacePile {
    pub pile: FacePile,
    pub margin_right: Length,
}

/// The view of a [`SpacedFacePile`].
pub struct SpacedFacePileView {
    pub pile: FacePileView,
    pub margin_right: Length,
}

impl View for SpacedFacePile {
    type V = SpacedFacePileView;

    open spec fn view(&self) -> SpacedFacePileView {
        SpacedFacePileView { pile: self.pile@, margin_right: self.margin_right }
    }
}

/// One item at the left end of the title bar.
#[derive(Debug, PartialEq, Eq)]
pub enum LeftItem {
    Title(ProjectTitle),
    Person(SpacedFacePile),
}

/// The view of a [`LeftItem`].
pub enum LeftItemView {
    Title(ProjectTitleView),
    Person(SpacedFacePileView),
}

impl View for LeftItem {
    type V = LeftItemView;

    open spec fn view(&self) -> LeftItemView {
        match self {
            LeftItem::Title(title) => LeftItemView::Title(title@),
            LeftItem::Person(person) => LeftItemView::Person(person@),
        }
    }
}

/// The title bar.
#[derive(Debug, PartialEq, Eq)]
pub struct Titlebar {
    /// From left to right, starting at the left end.
    pub left: Vec<LeftItem>,
    /// From left to right, centred vertically, and drawn over the items on the left.
    pub right: Vec<RightItem>,
    pub right_alignment: Alignment,
    /// What covers the items on the left where the items on the right are drawn.
    pub right_background: Color,
}

/// The view of a [`Titlebar`].
pub struct TitlebarView {
    pub left: Seq<LeftItemView>,
    pub right: Seq<RightItem>,
    pub right_alignment: Alignment,
    pub right_background: Color,
}

impl View for Titlebar {
    type V = TitlebarView;

    open spec fn view(&self) -> TitlebarView {
        TitlebarView {
            left: self.left@.map_values(|item: LeftItem| item@),
            right: self.right@,
            right_alignment: self.right_alignment,
            right_background: self.right_background,
        }
    }
}

} // verus!
