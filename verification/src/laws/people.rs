//! The people in the call, stated on what the call, the window and the theme hold.
use vstd::prelude::*;

use crate::color::{Color, Paint, ReplicaId};
use crate::elements::{
    Action, Alignment, Click, CursorStyle, InteractionView, LeftItemView, Length, MouseRegion,
    RegionTag, SizedRibbon,
};
use crate::face_pile::{
    collaborator_pile, current_user_pile, face, face_pile, follower_avatar, follower_face,
    follower_faces, located_style,
};
use crate::item::CollabTitlebarItem;
use crate::render::titlebar;
use crate::ribbon::AvatarRibbon;
use crate::snapshot::{
    AvatarStyle, ImageId, ParticipantLocation, PeerId, Project, RemoteParticipant,
    RemoteProjectId, Room, Snapshot, Theme, User, Workspace,
};

verus! {

/// A peer that has joined the project is looked up as the replica that the project lists for it,
/// whatever its number; any other peer as none.
pub proof fn replicas_are_those_of_the_project(project: &Project, peer_id: PeerId)
    ensures
        project.collaborators@.contains_key(peer_id) ==> project.replica_of(peer_id) == Some(
            project.collaborators@[peer_id],
        ),
        !project.collaborators@.contains_key(peer_id) ==> project.replica_of(peer_id) is None,
{
}

/// The followers of a leader in a project are those that the call lists under both, in that
/// order, and nobody where it lists nothing.
pub proof fn followers_are_those_of_the_call(
    room: &Room,
    leader: PeerId,
    project_id: RemoteProjectId,
)
    ensures
        room.follows@.contains_key(leader) && room.follows@[leader]@.contains_key(project_id)
            ==> room.followers(leader, project_id) == room.follows@[leader]@[project_id]@,
        !room.follows@.contains_key(leader) ==> room.followers(leader, project_id).len() == 0,
        room.follows@.contains_key(leader) && !room.follows@[leader]@.contains_key(project_id)
            ==> room.followers(leader, project_id).len() == 0,
{
}

/// The participant for a peer is the first one in the call that is connected as that peer.
pub proof fn participant_is_the_first_with_the_peer(room: &Room, peer_id: PeerId, k: int)
    requires
        0 <= k < room.remote_participants@.len(),
        room.remote_participants@[k].peer_id == peer_id,
        forall|earlier: int|
            0 <= earlier < k ==> (#[trigger] room.remote_participants@[earlier]).peer_id
                != peer_id,
    ensures
        room.participant(peer_id) == Some(room.remote_participants@[k]),
{
    assert(room.first_at(peer_id, k));
    let chosen = choose|index: int| room.first_at(peer_id, index);
    assert(room.first_at(peer_id, chosen));
    if chosen < k {
        assert(room.remote_participants@[chosen].peer_id != peer_id);
    }
    if k < chosen {
        assert(room.remote_participants@[k].peer_id != peer_id);
    }
}

/// There is no participant for a peer that nobody in the call is connected as.
pub proof fn unknown_peers_have_no_participant(room: &Room, peer_id: PeerId)
    requires
        forall|k: int|
            0 <= k < room.remote_participants@.len() ==> (
            #[trigger] room.remote_participants@[k]).peer_id != peer_id,
    ensures
        room.participant(peer_id) is None,
{
}

/// The colour of a picture, by where the person is: kept for a person of whom no place is known;
/// kept for a person in a shared project exactly if it is the project of the window; and taken
/// away for everybody else, whether or not the project of the window has a number.
pub proof fn colour_depends_on_the_location(
    style: AvatarStyle,
    remote_id: Option<RemoteProjectId>,
    project_id: RemoteProjectId,
)
    ensures
        located_style(style, None, remote_id) == style,
        located_style(style, Some(ParticipantLocation::UnsharedProject), remote_id).grayscale,
        located_style(style, Some(ParticipantLocation::External), remote_id).grayscale,
        remote_id == Some(project_id) ==> located_style(
            style,
            Some(ParticipantLocation::SharedProject { project_id }),
            remote_id,
        ) == style,
        remote_id != Some(project_id) ==> located_style(
            style,
            Some(ParticipantLocation::SharedProject { project_id }),
            remote_id,
        ).grayscale,
        forall|location: Option<ParticipantLocation>|
            (#[trigger] located_style(style, location, remote_id)).kind == style.kind,
{
}

/// A face shows the given picture in the given style, centred on a square with round corners of
/// the measures for that style, on the given background.
pub proof fn faces_show_what_they_are_given(
    avatar: ImageId,
    style: AvatarStyle,
    background: Paint,
)
    ensures
        ({
            let shown = face(avatar, style, background);
            &&& shown.avatar == avatar
            &&& shown.style == style
            &&& shown.background == background
            &&& shown.avatar_alignment is Center
            &&& shown.alignment is Center
            &&& shown.width == Length::AvatarOuterWidth(style.kind)
            &&& shown.height == Length::AvatarOuterWidth(style.kind)
            &&& shown.corner_radius == Length::AvatarOuterCornerRadius(style.kind)
        }),
{
}

/// A person is shown with their own picture, in the theme's style for leaders, without colour if
/// the person is known to be elsewhere. A person without a picture has no faces at all, not even
/// those of followers.
pub proof fn person_is_shown_with_their_own_picture(
    user: &User,
    replica_id: Option<ReplicaId>,
    peer_id: PeerId,
    location: Option<ParticipantLocation>,
    workspace: &Workspace,
    theme: &Theme,
    room: &Option<Room>,
)
    ensures
        ({
            let pile = face_pile(user, replica_id, peer_id, location, workspace, theme, room);
            let elsewhere = match location {
                None => false,
                Some(ParticipantLocation::SharedProject { project_id }) => {
                    workspace.project.remote_id != Some(project_id)
                },
                Some(ParticipantLocation::UnsharedProject) => true,
                Some(ParticipantLocation::External) => true,
            };
            &&& user.avatar is None ==> pile.faces is None
            &&& user.avatar is Some ==> {
                &&& pile.faces is Some
                &&& pile.faces->0.overlap is FollowerAvatarOverlap
                &&& pile.faces->0.style is LeaderSelection
                &&& pile.faces->0.leader.avatar == user.avatar->0
                &&& pile.faces->0.leader.style.kind == theme.leader_avatar.kind
                &&& pile.faces->0.leader.style.grayscale == (theme.leader_avatar.grayscale
                    || elsewhere)
                &&& pile.faces->0.leader.avatar_alignment is Center
                &&& pile.faces->0.leader.alignment is Center
                &&& pile.faces->0.leader.width == Length::AvatarOuterWidth(
                    theme.leader_avatar.kind,
                )
                &&& pile.faces->0.leader.height == Length::AvatarOuterWidth(
                    theme.leader_avatar.kind,
                )
                &&& pile.faces->0.leader.corner_radius == Length::AvatarOuterCornerRadius(
                    theme.leader_avatar.kind,
                )
            }
        }),
{
}

/// A pile is marked with the selection colour of its replica exactly if it has one, some pane of
/// the window follows the peer, and the call lists the user among the followers of the peer in
/// the project of the window. A marked pile blends that colour, opaquely, over the background of
/// the title bar; any other pile shows that background, and a transparent one where there is none.
pub proof fn pile_is_marked_for_somebody_whom_the_user_follows(
    user: &User,
    replica_id: Option<ReplicaId>,
    peer_id: PeerId,
    location: Option<ParticipantLocation>,
    workspace: &Workspace,
    theme: &Theme,
    room: &Option<Room>,
)
    requires
        user.avatar is Some,
    ensures
        ({
            let faces = face_pile(
                user,
                replica_id,
                peer_id,
                location,
                workspace,
                theme,
                room,
            ).faces->0;
            let project_id = workspace.project.remote_id;
            let own_peer_id = workspace.client.peer_id;
            let marked = {
                &&& replica_id is Some
                &&& workspace.followed@.contains(peer_id)
                &&& room is Some
                &&& project_id is Some
                &&& own_peer_id is Some
                &&& room->0.follows@.contains_key(peer_id)
                &&& room->0.follows@[peer_id]@.contains_key(project_id->0)
                &&& room->0.follows@[peer_id]@[project_id->0]@.contains(own_peer_id->0)
            };
            let backdrop = match theme.titlebar_background {
                Some(color) => color,
                None => Color { r: 0, g: 0, b: 0, a: 0 },
            };
            &&& marked ==> faces.background == Some(Paint::ReplicaSelection(replica_id->0))
            &&& marked ==> faces.leader.background == (Paint::BlendedSelection {
                replica_id: replica_id->0,
                backdrop,
                alpha: 255,
            })
            &&& !marked ==> faces.background is None
            &&& !marked ==> faces.leader.background == Paint::Solid(backdrop)
            &&& forall|i: int|
                0 <= i < faces.followers.len() ==> (#[trigger] faces.followers[i]).background
                    == faces.leader.background
        }),
{
    crate::laws::marked_people_are_followed(
        user,
        replica_id,
        peer_id,
        location,
        workspace,
        theme,
        room,
    );
}

/// A follower who is a participant of the call with a picture is shown with that picture.
pub proof fn follower_has_the_picture_of_the_participant(
    room: &Room,
    workspace: &Workspace,
    follower: PeerId,
    k: int,
)
    requires
        0 <= k < room.remote_participants@.len(),
        room.remote_participants@[k].peer_id == follower,
        forall|earlier: int|
            0 <= earlier < k ==> (#[trigger] room.remote_participants@[earlier]).peer_id
                != follower,
        room.remote_participants@[k].user.avatar is Some,
    ensures
        follower_avatar(room, workspace, follower) == room.remote_participants@[k].user.avatar,
{
    participant_is_the_first_with_the_peer(room, follower, k);
}

/// Where the first participant for a follower has no picture, or there is none, the user's own
/// picture is shown if it is the user who follows, and otherwise none.
pub proof fn follower_may_be_the_user(room: &Room, workspace: &Workspace, follower: PeerId)
    requires
        forall|k: int|
            0 <= k < room.remote_participants@.len() && (
            #[trigger] room.remote_participants@[k]).peer_id == follower && (forall|earlier: int|
                0 <= earlier < k ==> (#[trigger] room.remote_participants@[earlier]).peer_id
                    != follower) ==> room.remote_participants@[k].user.avatar is None,
    ensures
        workspace.client.peer_id == Some(follower) && workspace.user_store.current_user is Some
            ==> follower_avatar(room, workspace, follower)
            == workspace.user_store.current_user->0.avatar,
        workspace.client.peer_id != Some(follower) || workspace.user_store.current_user is None
            ==> follower_avatar(room, workspace, follower) is None,
{
    if room.participant(follower) is Some {
        let chosen = choose|index: int| room.first_at(follower, index);
        assert(room.first_at(follower, chosen));
    }
}

/// The places in `s` of the elements to which `f` gives something, in order.
proof fn lemma_filter_map_places<A, B>(s: Seq<A>, f: spec_fn(A) -> Option<B>) -> (at: Seq<int>)
    ensures
        at.len() == s.filter_map(f).len(),
        forall|i: int|
            0 <= i < at.len() ==> 0 <= #[trigger] at[i] < s.len() && f(s[at[i]]) == Some(
                s.filter_map(f)[i],
            ),
        forall|i: int, j: int| 0 <= i < j < at.len() ==> #[trigger] at[i] < #[trigger] at[j],
        forall|k: int|
            0 <= k < s.len() && f(#[trigger] s[k]) is Some ==> at.contains(k),
    decreases s.len(),
{
    if s.len() == 0 {
        Seq::empty()
    } else {
        let rest = s.drop_last();
        let before = lemma_filter_map_places(rest, f);
        let last = s.len() - 1;
        if f(s.last()) is Some {
            let at = before.push(last);
            assert forall|k: int|
                0 <= k < s.len() && f(#[trigger] s[k]) is Some implies at.contains(k) by {
                if k < last {
                    assert(rest[k] == s[k]);
                    assert(before.contains(k));
                    let i = choose|i: int| 0 <= i < before.len() && before[i] == k;
                    assert(at[i] == k);
                } else {
                    assert(at[before.len() as int] == k);
                }
            }
            assert(s.filter_map(f) =~= rest.filter_map(f).push(f(s.last())->0));
            at
        } else {
            assert forall|k: int|
                0 <= k < s.len() && f(#[trigger] s[k]) is Some implies before.contains(k) by {
                assert(rest[k] == s[k]);
            }
            assert(s.filter_map(f) =~= rest.filter_map(f));
            before
        }
    }
}

/// Behind a person with a picture stand the pictures of exactly those followers in the project of
/// the window who have one, in the order in which the call lists them, in the theme's style for
/// followers. The result gives, for each picture, the place of its follower in that list.
pub proof fn followers_stand_in_the_order_of_the_call(
    user: &User,
    replica_id: Option<ReplicaId>,
    peer_id: PeerId,
    location: Option<ParticipantLocation>,
    workspace: &Workspace,
    theme: &Theme,
    room: Room,
) -> (at: Seq<int>)
    requires
        user.avatar is Some,
        workspace.project.remote_id is Some,
        room.follows@.contains_key(peer_id),
        room.follows@[peer_id]@.contains_key(workspace.project.remote_id->0),
    ensures
        ({
            let followers = room.follows@[peer_id]@[workspace.project.remote_id->0]@;
            let shown = face_pile(
                user,
                replica_id,
                peer_id,
                location,
                workspace,
                theme,
                &Some(room),
            ).faces->0.followers;
            &&& at.len() == shown.len()
            &&& forall|i: int|
                0 <= i < at.len() ==> {
                    &&& 0 <= #[trigger] at[i] < followers.len()
                    &&& follower_avatar(&room, workspace, followers[at[i]]) == Some(
                        shown[i].avatar,
                    )
                    &&& shown[i].style == theme.follower_avatar
                }
            &&& forall|i: int, j: int| 0 <= i < j < at.len() ==> #[trigger] at[i] < #[trigger] at[j]
            &&& forall|k: int|
                0 <= k < followers.len() && follower_avatar(
                    &room,
                    workspace,
                    #[trigger] followers[k],
                ) is Some ==> at.contains(k)
        }),
{
    let followers = room.follows@[peer_id]@[workspace.project.remote_id->0]@;
    let pile = face_pile(user, replica_id, peer_id, location, workspace, theme, &Some(room));
    let style = theme.follower_avatar;
    let background = pile.faces->0.leader.background;
    let face_of = |follower: PeerId| follower_face(&room, workspace, style, background, follower);
    let shown = pile.faces->0.followers;
    assert(shown == follower_faces(peer_id, workspace, &Some(room), style, background));
    assert(shown == followers.filter_map(face_of));
    let at = lemma_filter_map_places(followers, face_of);
    assert forall|i: int| 0 <= i < at.len() implies {
        &&& 0 <= #[trigger] at[i] < followers.len()
        &&& follower_avatar(&room, workspace, followers[at[i]]) == Some(shown[i].avatar)
        &&& shown[i].style == style
    } by {
        assert(face_of(followers[at[i]]) == Some(shown[i]));
    }
    assert forall|k: int|
        0 <= k < followers.len() && follower_avatar(&room, workspace, #[trigger] followers[k])
            is Some implies at.contains(k) by {
        assert(face_of(followers[k]) is Some);
    }
    at
}

/// Without a call, without a number of the project, or where the call lists no followers of the
/// person in it, nobody stands behind a person.
pub proof fn nobody_stands_behind_a_person_without_followers(
    user: &User,
    replica_id: Option<ReplicaId>,
    peer_id: PeerId,
    location: Option<ParticipantLocation>,
    workspace: &Workspace,
    theme: &Theme,
    room: &Option<Room>,
)
    requires
        user.avatar is Some,
        ({
            ||| room is None
            ||| workspace.project.remote_id is None
            ||| !room->0.follows@.contains_key(peer_id)
            ||| !room->0.follows@[peer_id]@.contains_key(workspace.project.remote_id->0)
        }),
    ensures
        face_pile(
            user,
            replica_id,
            peer_id,
            location,
            workspace,
            theme,
            room,
        ).faces->0.followers.len() == 0,
{
}

/// A pile has a ribbon, in the colour of the cursor of its replica, exactly if it has a replica.
/// It can be clicked exactly if a place is known and either the person has joined the project of
/// the window, and is then followed or no longer followed, or is in a shared project, which is
/// then joined.
pub proof fn ribbon_and_click_depend_on_the_replica_and_the_location(
    user: &User,
    replica_id: Option<ReplicaId>,
    peer_id: PeerId,
    location: Option<ParticipantLocation>,
    workspace: &Workspace,
    theme: &Theme,
    room: &Option<Room>,
)
    ensures
        ({
            let pile = face_pile(user, replica_id, peer_id, location, workspace, theme, room);
            &&& replica_id is None ==> pile.ribbon is None
            &&& replica_id is Some ==> pile.ribbon == Some(
                SizedRibbon {
                    ribbon: AvatarRibbon { color: Paint::ReplicaCursor(replica_id->0) },
                    width: Length::AvatarRibbonWidth,
                    height: Length::AvatarRibbonHeight,
                    alignment: Alignment::Bottom,
                },
            )
            &&& location is None ==> pile.interaction is None
            &&& location is Some && replica_id is Some ==> pile.interaction == Some(
                InteractionView {
                    region: MouseRegion {
                        tag: RegionTag::ToggleFollow,
                        id: replica_id->0 as usize,
                        cursor: CursorStyle::PointingHand,
                        on_click: Click::ToggleFollow { peer_id },
                    },
                    tooltip_id: peer_id as usize,
                    tooltip: if workspace.followed@.contains(peer_id) {
                        "Unfollow "@ + user.github_login@
                    } else {
                        "Follow "@ + user.github_login@
                    },
                    action: Some(Action::FollowNextCollaborator),
                },
            )
            &&& location matches Some(ParticipantLocation::SharedProject { project_id }) ==> (
            replica_id is None ==> pile.interaction == Some(
                InteractionView {
                    region: MouseRegion {
                        tag: RegionTag::JoinProject,
                        id: peer_id as usize,
                        cursor: CursorStyle::PointingHand,
                        on_click: Click::JoinProject { project_id, user_id: user.id },
                    },
                    tooltip_id: peer_id as usize,
                    tooltip: "Follow "@ + user.github_login@ + " into external project"@,
                    action: Some(Action::FollowNextCollaborator),
                },
            ))
            &&& replica_id is None && location == Some(ParticipantLocation::UnsharedProject)
                ==> pile.interaction is None
            &&& replica_id is None && location == Some(ParticipantLocation::External)
                ==> pile.interaction is None
        }),
{
}

/// Whoever has joined the project of the window, as whatever replica, has a ribbon in the colour
/// of that replica's cursor, and is followed, or no longer followed, by a click.
pub proof fn whoever_has_joined_can_be_followed(
    participant: RemoteParticipant,
    workspace: &Workspace,
    theme: &Theme,
    room: &Option<Room>,
)
    requires
        workspace.project.collaborators@.contains_key(participant.peer_id),
    ensures
        ({
            let pile = collaborator_pile(participant, workspace, theme, room).pile;
            let replica_id = workspace.project.collaborators@[participant.peer_id];
            let followed = workspace.followed@.contains(participant.peer_id);
            &&& pile.ribbon is Some
            &&& pile.ribbon->0.ribbon.color == Paint::ReplicaCursor(replica_id)
            &&& pile.interaction is Some
            &&& pile.interaction->0.region.tag is ToggleFollow
            &&& pile.interaction->0.region.id == replica_id as usize
            &&& pile.interaction->0.region.on_click == (Click::ToggleFollow {
                peer_id: participant.peer_id,
            })
            &&& followed ==> pile.interaction->0.tooltip == "Unfollow "@
                + participant.user.github_login@
            &&& !followed ==> pile.interaction->0.tooltip == "Follow "@
                + participant.user.github_login@
        }),
{
}

/// Whoever has not joined the project of the window has no ribbon; a click joins the shared
/// project that the person is in, and without one there is nothing to click.
pub proof fn whoever_has_not_joined_is_visited(
    participant: RemoteParticipant,
    workspace: &Workspace,
    theme: &Theme,
    room: &Option<Room>,
)
    requires
        !workspace.project.collaborators@.contains_key(participant.peer_id),
    ensures
        ({
            let pile = collaborator_pile(participant, workspace, theme, room).pile;
            &&& pile.ribbon is None
            &&& match participant.location {
                ParticipantLocation::SharedProject { project_id } => {
                    &&& pile.interaction is Some
                    &&& pile.interaction->0.region.tag is JoinProject
                    &&& pile.interaction->0.region.id == participant.peer_id as usize
                    &&& pile.interaction->0.region.on_click == (Click::JoinProject {
                        project_id,
                        user_id: participant.user.id,
                    })
                    &&& pile.interaction->0.tooltip == "Follow "@ + participant.user.github_login@
                        + " into external project"@
                },
                ParticipantLocation::UnsharedProject => pile.interaction is None,
                ParticipantLocation::External => pile.interaction is None,
            }
        }),
{
}

/// A participant's pile is made of the participant's own data, and of the replica that the
/// project of the window lists for the participant's peer.
pub proof fn pile_of_a_participant(
    participant: RemoteParticipant,
    workspace: &Workspace,
    theme: &Theme,
    room: &Option<Room>,
)
    ensures
        collaborator_pile(participant, workspace, theme, room).margin_right is FacePileSpacing,
        collaborator_pile(participant, workspace, theme, room).pile == face_pile(
            &participant.user,
            if workspace.project.collaborators@.contains_key(participant.peer_id) {
                Some(workspace.project.collaborators@[participant.peer_id])
            } else {
                None
            },
            participant.peer_id,
            Some(participant.location),
            workspace,
            theme,
            room,
        ),
{
}

/// The picture of a participant in the bar is drawn without colour exactly if the theme says so or
/// the participant is not in the project of the window.
pub proof fn participants_elsewhere_lose_their_colour(
    participant: RemoteParticipant,
    workspace: &Workspace,
    theme: &Theme,
    room: &Option<Room>,
)
    requires
        participant.user.avatar is Some,
        !theme.leader_avatar.grayscale,
    ensures
        ({
            let pile = collaborator_pile(participant, workspace, theme, room).pile;
            let gray = pile.faces->0.leader.style.grayscale;
            &&& pile.faces is Some
            &&& Some(pile.faces->0.leader.avatar) == participant.user.avatar
            &&& participant.location is UnsharedProject ==> gray
            &&& participant.location is External ==> gray
            &&& participant.location matches ParticipantLocation::SharedProject { project_id } ==> (
            gray <==> workspace.project.remote_id != Some(project_id))
        }),
{
}

/// The user is shown with their own picture, in colour, with the ribbon of the replica that the
/// user is in the project of the window, and without anything to click.
pub proof fn pile_of_the_user(
    user: &User,
    peer_id: PeerId,
    workspace: &Workspace,
    theme: &Theme,
    room: &Option<Room>,
)
    ensures
        ({
            let own = current_user_pile(user, peer_id, workspace, theme, room);
            &&& own.margin_right is ItemSpacing
            &&& own.pile == face_pile(
                user,
                Some(workspace.project.replica_id),
                peer_id,
                None,
                workspace,
                theme,
                room,
            )
            &&& own.pile.interaction is None
            &&& own.pile.ribbon is Some
            &&& own.pile.ribbon->0.ribbon.color == Paint::ReplicaCursor(
                workspace.project.replica_id,
            )
            &&& user.avatar is Some ==> own.pile.faces is Some && own.pile.faces->0.leader.avatar
                == user.avatar->0 && own.pile.faces->0.leader.style == theme.leader_avatar
            &&& user.avatar is None ==> own.pile.faces is None
        }),
{
}

/// People are in the bar exactly if somebody is signed in, connected as a peer, and in a call;
/// then the user comes right after the title.
pub proof fn people_are_shown_in_a_call(
    item: &CollabTitlebarItem,
    cx: &Snapshot,
    workspace: &Workspace,
)
    ensures
        ({
            let left = titlebar(item, cx, workspace).left;
            let shown = cx.user_store.current_user is Some && cx.client.peer_id is Some && cx.room
                is Some;
            &&& !shown ==> left.len() == 1
            &&& shown ==> left.len() >= 2 && left[1] == LeftItemView::Person(
                current_user_pile(
                    &cx.user_store.current_user->0,
                    cx.client.peer_id->0,
                    workspace,
                    &cx.theme,
                    &cx.room,
                ),
            )
        }),
{
}

} // verus!
