//! What views hold, in which order parts are put down, and how a ribbon is drawn.
use vstd::prelude::*;

use crate::buttons::contacts_layers;
use crate::color::Color;
use crate::elements::{
    ContactsButton, FacePile, FacePileView, Faces, FacesView, Interaction, LeftItem, LeftItemView,
    ProjectTitle, ProjectTitleView, SpacedFacePile, TitleLabel, Titlebar, TitlebarView,
    UserMenuButton,
};
use crate::layers::{
    ContactsLayer, PileLayer, PileLayerView, TitlebarLayer, TitlebarLayerView, UserMenuContent,
    UserMenuLayer,
};
use crate::render::left_views;
use crate::ribbon::{ribbon_outline, Corner, PathPoint, PathStep};
use crate::snapshot::ViewId;

verus! {

/// Fully opaque red, and black that does not show.
pub proof fn colours_have_their_channels()
    ensures
        Color::red().r == 255,
        Color::red().g == 0,
        Color::red().b == 0,
        Color::red().a == 255,
        Color::transparent_black().r == 0,
        Color::transparent_black().g == 0,
        Color::transparent_black().b == 0,
        Color::transparent_black().a == 0,
{
}

/// The view of a label holds all of its fields.
pub proof fn view_of_a_label(label: TitleLabel)
    ensures
        label@.text == label.text@,
        label@.highlights == label.highlights@,
        label@.margin_right == label.margin_right,
        label@.alignment == label.alignment,
        label@.element_name == label.element_name,
{
}

/// The view of a title holds all of its fields.
pub proof fn view_of_a_title(title: ProjectTitle)
    ensures
        title@.name == title.name@,
        title@.branch is Some <==> title.branch is Some,
        title.branch is Some ==> title@.branch->0 == title.branch->0@,
{
}

/// The view of faces holds all of their fields.
pub proof fn view_of_faces(faces: Faces)
    ensures
        faces@.overlap == faces.overlap,
        faces@.leader == faces.leader,
        faces@.followers == faces.followers@,
        faces@.style == faces.style,
        faces@.background == faces.background,
{
}

/// The view of what a click does holds all of its fields.
pub proof fn view_of_an_interaction(interaction: Interaction)
    ensures
        interaction@.region == interaction.region,
        interaction@.tooltip_id == interaction.tooltip_id,
        interaction@.tooltip == interaction.tooltip@,
        interaction@.action == interaction.action,
{
}

/// The view of a pile holds all of its fields.
pub proof fn view_of_a_pile(pile: FacePile)
    ensures
        pile@.faces is Some <==> pile.faces is Some,
        pile.faces is Some ==> pile@.faces->0 == pile.faces->0@,
        pile@.ribbon == pile.ribbon,
        pile@.interaction is Some <==> pile.interaction is Some,
        pile.interaction is Some ==> pile@.interaction->0 == pile.interaction->0@,
{
}

/// The view of a pile with the space to its right holds both.
pub proof fn view_of_a_spaced_pile(spaced: SpacedFacePile)
    ensures
        spaced@.pile == spaced.pile@,
        spaced@.margin_right == spaced.margin_right,
{
}

/// The view of an item on the left holds the view of what is in it.
pub proof fn view_of_a_left_item(item: LeftItem)
    ensures
        item matches LeftItem::Title(title) ==> item@ == LeftItemView::Title(title@),
        item matches LeftItem::Person(person) ==> item@ == LeftItemView::Person(person@),
{
}

/// The view of a bar holds all of its fields, and the views of the items on the left in order.
pub proof fn view_of_a_bar(bar: Titlebar, i: int)
    ensures
        bar@.left.len() == bar.left@.len(),
        0 <= i < bar.left@.len() ==> bar@.left[i] == bar.left@[i]@,
        bar@.right == bar.right@,
        bar@.right_alignment == bar.right_alignment,
        bar@.right_background == bar.right_background,
{
}

/// The views of items are those of the same items, in order.
pub proof fn views_of_left_items(items: Seq<LeftItem>, i: int)
    ensures
        left_views(items).len() == items.len(),
        0 <= i < items.len() ==> left_views(items)[i] == items[i]@,
{
}

/// The view of a layer holds all of its fields.
pub proof fn view_of_a_pile_layer(layer: PileLayer)
    ensures
        layer matches PileLayer::Faces(faces) ==> layer@ == PileLayerView::Faces(faces@),
        layer matches PileLayer::Ribbon(ribbon) ==> layer@ == PileLayerView::Ribbon(ribbon),
{
}

/// The view of a layer of the bar holds all of its fields, and the views of the items in order.
pub proof fn view_of_a_bar_layer(layer: TitlebarLayer, i: int)
    ensures
        layer matches TitlebarLayer::Left { items } ==> {
            &&& layer@ is Left
            &&& layer@->items.len() == items@.len()
            &&& 0 <= i < items@.len() ==> layer@->items[i] == items@[i]@
        },
        layer matches TitlebarLayer::Right { controls, alignment, background } ==> layer@ == (
        TitlebarLayerView::Right { controls: controls@, alignment, background }),
{
}

/// The contacts button is put down first, then its badge, then its popover, as far as they are
/// there.
pub proof fn layers_of_the_contacts(contacts: ContactsButton)
    ensures
        ({
            let layers = contacts.layers();
            let badge: int = if contacts.badge is Some {
                1
            } else {
                0
            };
            let popover: int = if contacts.popover is Some {
                1
            } else {
                0
            };
            &&& layers.len() == 1 + badge + popover
            &&& layers[0] == ContactsLayer::Button(contacts.button)
            &&& contacts.badge is Some ==> layers[1] == ContactsLayer::Badge(contacts.badge->0)
            &&& contacts.popover is Some ==> layers[1 + badge] == ContactsLayer::Popover(
                contacts.popover->0,
            )
        }),
{
}

/// A contacts button shows a badge while requests wait and a popover while one is open, the popover
/// on top.
pub proof fn layers_of_the_contacts_by_state(popover: Option<ViewId>, requests_wait: bool)
    ensures
        ({
            let layers = contacts_layers(popover, requests_wait);
            let badge: int = if requests_wait {
                1
            } else {
                0
            };
            &&& layers.len() == 1 + badge + (if popover is Some {
                1int
            } else {
                0
            })
            &&& layers[0] is Button
            &&& requests_wait ==> layers[1] is Badge
            &&& popover is Some ==> layers[1 + badge] is Popover && layers[1
                + badge]->Popover_0.view == popover->0
        }),
{
}

/// The button is put down first, then the menu; on the button the picture stands left of the icon.
pub proof fn layers_of_the_user_menu(shown: UserMenuButton)
    ensures
        ({
            let layers = shown.layers();
            let contents = shown.contents();
            &&& layers.len() == 2
            &&& layers[0] == (UserMenuLayer::Button {
                button: shown.button,
                margin_left: shown.margin_left,
            })
            &&& layers[1] == (UserMenuLayer::Menu {
                view: shown.menu,
                alignment: shown.menu_alignment,
            })
            &&& contents.len() == (if shown.face is Some {
                2int
            } else {
                1
            })
            &&& shown.face is Some ==> contents[0] == UserMenuContent::Face(shown.face->0)
            &&& contents.last() == UserMenuContent::Icon(shown.button.icon)
        }),
{
}

/// The name stands first, then the branch if there is one.
pub proof fn labels_of_a_title(title: ProjectTitleView)
    ensures
        title.labels().len() == (if title.branch is Some {
            2int
        } else {
            1
        }),
        title.labels()[0] == title.name,
        title.branch is Some ==> title.labels()[1] == title.branch->0,
{
}

/// The picture of the person is put down first, then those of the followers, in order.
pub proof fn pictures_of_faces(faces: FacesView, i: int)
    ensures
        faces.pictures().len() == faces.followers.len() + 1,
        faces.pictures()[0] == faces.leader,
        0 <= i < faces.followers.len() ==> faces.pictures()[i + 1] == faces.followers[i],
{
}

/// The faces of a pile are put down first, then the ribbon, as far as they are there.
pub proof fn layers_of_a_pile(pile: FacePileView)
    ensures
        ({
            let layers = pile.layers();
            let faces: int = if pile.faces is Some {
                1
            } else {
                0
            };
            &&& layers.len() == faces + (if pile.ribbon is Some {
                1int
            } else {
                0
            })
            &&& pile.faces is Some ==> layers[0] == PileLayerView::Faces(pile.faces->0)
            &&& pile.ribbon is Some ==> layers[faces] == PileLayerView::Ribbon(pile.ribbon->0)
        }),
{
}

/// The left side is put down first, then the right side.
pub proof fn layers_of_a_bar(bar: TitlebarView)
    ensures
        bar.layers().len() == 2,
        bar.layers()[0] == (TitlebarLayerView::Left { items: bar.left }),
        bar.layers()[1] == (TitlebarLayerView::Right {
            controls: bar.right,
            alignment: bar.right_alignment,
            background: bar.right_background,
        }),
{
}

/// Where a point lies: at its corner, moved towards the middle by its inset times the height.
pub proof fn points_lie_at_their_corners(
    inset: u8,
    x: int,
    y: int,
    width: int,
    height: int,
)
    ensures
        (PathPoint { corner: Corner::UpperLeft, inset }).position(x, y, width, height) == (
            x + inset * height,
            y,
        ),
        (PathPoint { corner: Corner::UpperRight, inset }).position(x, y, width, height) == (
            x + width - inset * height,
            y,
        ),
        (PathPoint { corner: Corner::LowerLeft, inset }).position(x, y, width, height) == (
            x + inset * height,
            y + height,
        ),
        (PathPoint { corner: Corner::LowerRight, inset }).position(x, y, width, height) == (
            x + width - inset * height,
            y + height,
        ),
{
}

/// The outline of a ribbon at (`x`, `y`): from the lower left corner a curve, bent towards the
/// upper left one, to the upper edge at a distance of the height; a line along the edge to the
/// same distance from the upper right corner; a curve, bent towards that, to the lower right
/// corner; and a line back.
pub proof fn outline_of_a_ribbon(x: int, y: int, width: int, height: int)
    ensures
        ({
            let steps = ribbon_outline();
            let at = |step: PathStep| step.end().position(x, y, width, height);
            let bent = |step: PathStep| step.control().position(x, y, width, height);
            &&& steps.len() == 5
            &&& steps[0] is Reset && at(steps[0]) == (x, y + height)
            &&& steps[1] is CurveTo && at(steps[1]) == (x + height, y) && bent(steps[1]) == (x, y)
            &&& steps[2] is LineTo && at(steps[2]) == (x + width - height, y)
            &&& steps[3] is CurveTo && at(steps[3]) == (x + width, y + height) && bent(steps[3])
                == (x + width, y)
            &&& steps[4] is LineTo && at(steps[4]) == (x, y + height)
        }),
{
    assert(1 * height == height) by (nonlinear_arith);
    assert(0 * height == 0) by (nonlinear_arith);
}

/// A step ends at the point that it is drawn to, and only a curve is bent towards another.
pub proof fn steps_end_where_they_are_drawn_to(to: PathPoint, control: PathPoint)
    ensures
        PathStep::Reset(to).end() == to,
        PathStep::Reset(to).control() == to,
        PathStep::LineTo(to).end() == to,
        PathStep::LineTo(to).control() == to,
        (PathStep::CurveTo { to, control }).end() == to,
        (PathStep::CurveTo { to, control }).control() == control,
{
}

} // verus!
