//! The order in which the parts of an element are put down.
//!
//! Parts that are stacked are listed from the bottom to the top: each is drawn over those
//! before it. Parts that stand in a row are listed from left to right.
use vstd::prelude::*;

use crate::color::Color;
use crate::elements::{
    Alignment, Badge, ContactsButton, Face, FacePile, FacePileView, Faces, FacesView, IconButton,
    Interaction, LeftItem, LeftItemView, Length, PopoverHost, ProjectTitle, ProjectTitleView,
    RightItem, SizedRibbon, TitleLabel, TitleLabelView, Titlebar, TitlebarView, UserMenuButton,
};
use crate::snapshot::ViewId;

verus! {

/// One layer of a [`ContactsButton`].
#[derive(Clone, Copy, Debug, PartialEq, Eq)]
pub enum ContactsLayer {
    Button(IconButton),
    Badge(Badge),
    Popover(PopoverHost),
}

impl ContactsButton {
    /// The layers: the button, the badge on it, and the popover over both.
    pub open spec fn layers(self) -> Seq<ContactsLayer> {
        let badge = match self.badge {
            Some(badge) => seq![ContactsLayer::Badge(badge)],
            None => seq![],
        };
        let popover = match self.popover {
            Some(popover) => seq![ContactsLayer::Popover(popover)],
            None => seq![],
        };
        seq![ContactsLayer::Button(self.button)] + badge + popover
    }

    /// The layers, from the bottom to the top.
    pub fn to_layers(&self) -> (layers: Vec<ContactsLayer>)
        ensures
            layers@ == self.layers(),
    {
        let mut layers: Vec<ContactsLayer> = vec![ContactsLayer::Button(self.button)];
        if let Some(badge) = self.badge {
            layers.push(ContactsLayer::Badge(badge));
        }
        if let Some(popover) = self.popover {
            layers.push(ContactsLayer::Popover(popover));
        }
        assert(layers@ =~= self.layers());
        layers
    }
}

/// One layer of a [`UserMenuButton`].
#[derive(Clone, Copy, Debug, PartialEq, Eq)]
pub enum UserMenuLayer {
    /// The button, with the space to its left.
    Button { button: IconButton, margin_left: Length },
    Menu { view: ViewId, alignment: Alignment },
}

/// Something on the button for the user menu.
#[derive(Clone, Copy, Debug, PartialEq, Eq)]
pub enum UserMenuContent {
    Face(Face),
    /// An icon, by its path.
    Icon(&'static str),
}

impl UserMenuButton {
    /// The layers: the button, and the menu over it.
    pub open spec fn layers(self) -> Seq<UserMenuLayer> {
        seq![
            UserMenuLayer::Button { button: self.button, margin_left: self.margin_left },
            UserMenuLayer::Menu { view: self.menu, alignment: self.menu_alignment },
        ]
    }

    /// What is on the button, from left to right: the picture, and the icon.
    pub open spec fn contents(self) -> Seq<UserMenuContent> {
        let face = match self.face {
            Some(face) => seq![UserMenuContent::Face(face)],
            None => seq![],
        };
        face + seq![UserMenuContent::Icon(self.button.icon)]
    }

    /// The layers, from the bottom to the top.
    pub fn to_layers(&self) -> (layers: Vec<UserMenuLayer>)
        ensures
            layers@ == self.layers(),
    {
        vec![
            UserMenuLayer::Button { button: self.button, margin_left: self.margin_left },
            UserMenuLayer::Menu { view: self.menu, alignment: self.menu_alignment },
        ]
    }

    /// What is on the button, from left to right.
    pub fn to_contents(&self) -> (contents: Vec<UserMenuContent>)
        ensures
            contents@ == self.contents(),
    {
        let mut contents: Vec<UserMenuContent> = Vec::new();
        if let Some(face) = self.face {
            contents.push(UserMenuContent::Face(face));
        }
        contents.push(UserMenuContent::Icon(self.button.icon));
        assert(contents@ =~= self.contents());
        contents
    }
}

impl ProjectTitleView {
    /// The labels, from left to right: the name, and the branch.
    pub open spec fn labels(self) -> Seq<TitleLabelView> {
        match self.branch {
            Some(branch) => seq![self.name, branch],
            None => seq![self.name],
        }
    }
}

impl ProjectTitle {
    /// The labels, from left to right.
    pub fn into_labels(self) -> (labels: Vec<TitleLabel>)
        ensures
            labels@.map_values(|label: TitleLabel| label@) == self@.labels(),
    {
        let mut labels: Vec<TitleLabel> = Vec::new();
        labels.push(self.name);
        if let Some(branch) = self.branch {
            labels.push(branch);
        }
        assert(labels@.map_values(|label: TitleLabel| label@) =~= self@.labels());
        labels
    }
}

impl FacesView {
    /// The pictures, in the order in which they are put down: the person, and the followers.
    pub open spec fn pictures(self) -> Seq<Face> {
        seq![self.leader] + self.followers
    }
}

impl Faces {
    /// The pictures, in the order in which they are put down.
    pub fn into_pictures(self) -> (pictures: Vec<Face>)
        ensures
            pictures@ == self@.pictures(),
    {
        let mut pictures: Vec<Face> = vec![self.leader];
        let mut followers = self.followers;
        pictures.append(&mut followers);
        assert(pictures@ =~= self@.pictures());
        pictures
    }
}

/// One layer of a [`FacePile`].
#[derive(Debug, PartialEq, Eq)]
pub enum PileLayer {
    Faces(Faces),
    Ribbon(SizedRibbon),
}

/// The view of a [`PileLayer`].
pub enum PileLayerView {
    Faces(FacesView),
    Ribbon(SizedRibbon),
}

impl View for PileLayer {
    type V = PileLayerView;

    open spec fn view(&self) -> PileLayerView {
        match self {
            PileLayer::Faces(faces) => PileLayerView::Faces(faces@),
            PileLayer::Ribbon(ribbon) => PileLayerView::Ribbon(*ribbon),
        }
    }
}

impl FacePileView {
    /// The layers: the faces, and the ribbon over them.
    pub open spec fn layers(self) -> Seq<PileLayerView> {
        let faces = match self.faces {
            Some(faces) => seq![PileLayerView::Faces(faces)],
            None => seq![],
        };
        let ribbon = match self.ribbon {
            Some(ribbon) => seq![PileLayerView::Ribbon(ribbon)],
            None => seq![],
        };
        faces + ribbon
    }
}

impl FacePile {
    /// The layers, from the bottom to the top, and what a click on any of them does.
    pub fn into_layers(self) -> (parts: (Vec<PileLayer>, Option<Interaction>))
        ensures
            parts.0@.map_values(|layer: PileLayer| layer@) == self@.layers(),
            parts.1 == self.interaction,
    {
        let mut layers: Vec<PileLayer> = Vec::new();
        if let Some(faces) = self.faces {
            layers.push(PileLayer::Faces(faces));
        }
        if let Some(ribbon) = self.ribbon {
            layers.push(PileLayer::Ribbon(ribbon));
        }
        assert(layers@.map_values(|layer: PileLayer| layer@) =~= self@.layers());
        (layers, self.interaction)
    }
}

/// One layer of a [`Titlebar`].
#[derive(Debug, PartialEq, Eq)]
pub enum TitlebarLayer {
    Left { items: Vec<LeftItem> },
    Right { controls: Vec<RightItem>, alignment: Alignment, background: Color },
}

/// The view of a [`TitlebarLayer`].
pub enum TitlebarLayerView {
    Left { items: Seq<LeftItemView> },
    Right { controls: Seq<RightItem>, alignment: Alignment, background: Color },
}

impl View for TitlebarLayer {
    type V = TitlebarLayerView;

    open spec fn view(&self) -> TitlebarLayerView {
        match self {
            TitlebarLayer::Left { items } => TitlebarLayerView::Left {
                items: items@.map_values(|item: LeftItem| item@),
            },
            TitlebarLayer::Right { controls, alignment, background } => TitlebarLayerView::Right {
                controls: controls@,
                alignment: *alignment,
                background: *background,
            },
        }
    }
}

impl TitlebarView {
    /// The layers: the items on the left, and those on the right over them.
    pub open spec fn layers(self) -> Seq<TitlebarLayerView> {
        seq![
            TitlebarLayerView::Left { items: self.left },
            TitlebarLayerView::Right {
                controls: self.right,
                alignment: self.right_alignment,
                background: self.right_background,
            },
        ]
    }
}

impl Titlebar {
    /// The layers, from the bottom to the top.
    pub fn into_layers(self) -> (layers: Vec<TitlebarLayer>)
        ensures
            layers@.map_values(|layer: TitlebarLayer| layer@) == self@.layers(),
    {
        let mut layers: Vec<TitlebarLayer> = Vec::new();
        layers.push(TitlebarLayer::Left { items: self.left });
        layers.push(
            TitlebarLayer::Right {
                controls: self.right,
                alignment: self.right_alignment,
                background: self.right_background,
            },
        );
        assert(layers@.map_values(|layer: TitlebarLayer| layer@) =~= self@.layers());
        layers
    }
}

} // verus!
