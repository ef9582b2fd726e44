//! The people in the call: their pictures, those of their followers, and what a click on
//! them does.
use vstd::prelude::*;

use crate::color::{Color, Paint, ReplicaId};
use crate::elements::{
    Action, Alignment, Click, ContainerStyle, CursorStyle, Face, FacePile, FacePileView, Faces,
    FacesView, Interaction, InteractionView, Length, MouseRegion, RegionTag, SizedRibbon,
    SpacedFacePile, SpacedFacePileView,
};
use crate::item::CollabTitlebarItem;
use crate::layers::PileLayerView;
use crate::order::{login_order, positions, sort_by_login};
use crate::ribbon::AvatarRibbon;
use crate::snapshot::{
    AvatarStyle, ImageId, ParticipantLocation, PeerId, RemoteParticipant, RemoteProjectId, Room,
    Snapshot, Theme, User, Workspace,
};

verus! {

/// Whether a person is known to work elsewhere than in the project with the given number.
pub open spec fn is_elsewhere(
    location: Option<ParticipantLocation>,
    remote_id: Option<RemoteProjectId>,
) -> bool {
    match location {
        Some(ParticipantLocation::SharedProject { project_id }) => remote_id != Some(project_id),
        Some(_) => true,
        None => false,
    }
}

/// The style of an avatar: without colour for a person who works elsewhere.
pub open spec fn located_style(
    style: AvatarStyle,
    location: Option<ParticipantLocation>,
    remote_id: Option<RemoteProjectId>,
) -> AvatarStyle {
    AvatarStyle { grayscale: style.grayscale || is_elsewhere(location, remote_id), ..style }
}

/// One picture, centred on a square background with round corners, of the measures that the
/// theme gives avatars of its kind.
pub open spec fn face(avatar: ImageId, style: AvatarStyle, background: Paint) -> Face {
    Face {
        avatar,
        style,
        avatar_alignment: Alignment::Center,
        background,
        corner_radius: Length::AvatarOuterCornerRadius(style.kind),
        width: Length::AvatarOuterWidth(style.kind),
        height: Length::AvatarOuterWidth(style.kind),
        alignment: Alignment::Center,
    }
}

/// Whether the user follows the peer, as the window and the call agree, in a project that
/// has a number.
pub open spec fn is_followed_by_self(
    peer_id: PeerId,
    workspace: &Workspace,
    room: &Option<Room>,
) -> bool {
    &&& workspace.followed@.contains(peer_id)
    &&& room is Some
    &&& workspace.project.remote_id is Some
    &&& workspace.client.peer_id is Some
    &&& room->0.followers(peer_id, workspace.project.remote_id->0).contains(
        workspace.client.peer_id->0,
    )
}

/// The replica whose selection colour marks a face pile: that of a person whom the user follows.
pub open spec fn marking_replica(
    replica_id: Option<ReplicaId>,
    peer_id: PeerId,
    workspace: &Workspace,
    room: &Option<Room>,
) -> Option<ReplicaId> {
    if is_followed_by_self(peer_id, workspace, room) {
        replica_id
    } else {
        None
    }
}

/// The background of the pictures in a face pile: that of the title bar, under an opaque
/// mixture with the selection colour if the pile is marked.
pub open spec fn face_background(theme: &Theme, marked: Option<ReplicaId>) -> Paint {
    let titlebar = match theme.titlebar_background {
        Some(color) => color,
        None => Color::transparent_black(),
    };
    match marked {
        Some(replica_id) => Paint::BlendedSelection { replica_id, backdrop: titlebar, alpha: 255 },
        None => Paint::Solid(titlebar),
    }
}

/// The picture of a follower: that of the first participant who is connected as that peer
/// and, where that gives none, the user's own if it is the user who follows.
pub open spec fn follower_avatar(room: &Room, workspace: &Workspace, follower: PeerId) -> Option<
    ImageId,
> {
    let of_participant = match room.participant(follower) {
        Some(participant) => participant.user.avatar,
        None => None,
    };
    if of_participant is Some {
        of_participant
    } else if workspace.client.peer_id == Some(follower) {
        match workspace.user_store.current_user {
            Some(user) => user.avatar,
            None => None,
        }
    } else {
        None
    }
}

/// The face of a follower who has a picture.
pub open spec fn follower_face(
    room: &Room,
    workspace: &Workspace,
    style: AvatarStyle,
    background: Paint,
    follower: PeerId,
) -> Option<Face> {
    match follower_avatar(room, workspace, follower) {
        Some(avatar) => Some(face(avatar, style, background)),
        None => None,
    }
}

/// The faces of all followers who have a picture, in the order in which the call lists them.
pub open spec fn follower_faces(
    peer_id: PeerId,
    workspace: &Workspace,
    room: &Option<Room>,
    style: AvatarStyle,
    background: Paint,
) -> Seq<Face> {
    if room is Some && workspace.project.remote_id is Some {
        room->0.followers(peer_id, workspace.project.remote_id->0).filter_map(
            |follower: PeerId|
                follower_face(&room->0, workspace, style, background, follower),
        )
    } else {
        Seq::empty()
    }
}

/// A click on a person in the same project follows that person, or stops that; a click on a
/// person in another shared project joins that project. Nothing else can be clicked.
pub open spec fn interaction(
    user: &User,
    replica_id: Option<ReplicaId>,
    peer_id: PeerId,
    location: Option<ParticipantLocation>,
    is_being_followed: bool,
) -> Option<InteractionView> {
    match (location, replica_id) {
        (Some(_), Some(replica_id)) => Some(
            InteractionView {
                region: MouseRegion {
                    tag: RegionTag::ToggleFollow,
                    id: replica_id as usize,
                    cursor: CursorStyle::PointingHand,
                    on_click: Click::ToggleFollow { peer_id },
                },
                tooltip_id: peer_id as usize,
                tooltip: if is_being_followed {
                    "Unfollow "@ + user.github_login@
                } else {
                    "Follow "@ + user.github_login@
                },
                action: Some(Action::FollowNextCollaborator),
            },
        ),
        (Some(ParticipantLocation::SharedProject { project_id }), None) => Some(
            InteractionView {
                region: MouseRegion {
                    tag: RegionTag::JoinProject,
                    id: peer_id as usize,
                    cursor: CursorStyle::PointingHand,
                    on_click: Click::JoinProject { project_id, user_id: user.id },
                },
                tooltip_id: peer_id as usize,
                tooltip: "Follow "@ + user.github_login@ + " into external project"@,
                action: Some(Action::FollowNextCollaborator),
            },
        ),
        _ => None,
    }
}

/// A person in the call.
pub open spec fn face_pile(
    user: &User,
    replica_id: Option<ReplicaId>,
    peer_id: PeerId,
    location: Option<ParticipantLocation>,
    workspace: &Workspace,
    theme: &Theme,
    room: &Option<Room>,
) -> FacePileView {
    let marked = marking_replica(replica_id, peer_id, workspace, room);
    let background = face_background(theme, marked);
    FacePileView {
        faces: match user.avatar {
            Some(avatar) => Some(
                FacesView {
                    overlap: Length::FollowerAvatarOverlap,
                    leader: face(
                        avatar,
                        located_style(theme.leader_avatar, location, workspace.project.remote_id),
                        background,
                    ),
                    followers: follower_faces(
                        peer_id,
                        workspace,
                        room,
                        theme.follower_avatar,
                        background,
                    ),
                    style: ContainerStyle::LeaderSelection,
                    background: match marked {
                        Some(replica_id) => Some(Paint::ReplicaSelection(replica_id)),
                        None => None,
                    },
                },
            ),
            None => None,
        },
        ribbon: match replica_id {
            Some(replica_id) => Some(
                SizedRibbon {
                    ribbon: AvatarRibbon { color: Paint::ReplicaCursor(replica_id) },
                    width: Length::AvatarRibbonWidth,
                    height: Length::AvatarRibbonHeight,
                    alignment: Alignment::Bottom,
                },
            ),
            None => None,
        },
        interaction: interaction(
            user,
            replica_id,
            peer_id,
            location,
            workspace.followed@.contains(peer_id),
        ),
    }
}

/// The user, as seen in the call.
pub open spec fn current_user_pile(
    user: &User,
    peer_id: PeerId,
    workspace: &Workspace,
    theme: &Theme,
    room: &Option<Room>,
) -> SpacedFacePileView {
    SpacedFacePileView {
        pile: face_pile(
            user,
            Some(workspace.project.replica_id),
            peer_id,
            None,
            workspace,
            theme,
            room,
        ),
        margin_right: Length::ItemSpacing,
    }
}

/// Another participant of the call.
pub open spec fn collaborator_pile(
    participant: RemoteParticipant,
    workspace: &Workspace,
    theme: &Theme,
    room: &Option<Room>,
) -> SpacedFacePileView {
    SpacedFacePileView {
        pile: face_pile(
            &participant.user,
            workspace.project.replica_of(participant.peer_id),
            participant.peer_id,
            Some(participant.location),
            workspace,
            theme,
            room,
        ),
        margin_right: Length::FacePileSpacing,
    }
}

/// The other participants of the call, in the order of their logins.
pub open spec fn collaborator_piles(
    participants: Seq<RemoteParticipant>,
    workspace: &Workspace,
    theme: &Theme,
    room: &Option<Room>,
) -> Seq<SpacedFacePileView> {
    login_order(participants).map_values(
        |position: int| collaborator_pile(participants[position], workspace, theme, room),
    )
}

impl CollabTitlebarItem {
    /// The other participants of the call, in the order of their logins.
    pub fn render_collaborators(
        &self,
        workspace: &Workspace,
        theme: &Theme,
        room: &Room,
        cx: &Snapshot,
    ) -> (piles: Vec<SpacedFacePile>)
        ensures
            piles@.map_values(|pile: SpacedFacePile| pile@) == collaborator_piles(
                room.remote_participants@,
                workspace,
                theme,
                &cx.room,
            ),
    {
        let participants = &room.remote_participants;
        let order = sort_by_login(participants);
        let ghost expected = collaborator_piles(participants@, workspace, theme, &cx.room);
        let mut piles: Vec<SpacedFacePile> = Vec::new();
        let mut i: usize = 0;
        while i < order.len()
            invariant
                i <= order@.len(),
                crate::order::is_login_order(participants@, positions(order@)),
                positions(order@) == login_order(participants@),
                expected == collaborator_piles(participants@, workspace, theme, &cx.room),
                piles@.map_values(|pile: SpacedFacePile| pile@) == expected.take(i as int),
            decreases order@.len() - i,
        {
            assert(positions(order@)[i as int] < participants@.len());
            let participant = &participants[order[i]];
            let replica_id = workspace.project.collaborator_replica(participant.peer_id);
            let pile = self.render_face_pile(
                &participant.user,
                replica_id,
                participant.peer_id,
                Some(participant.location),
                workspace,
                theme,
                cx,
            );
            let ghost before = piles@.map_values(|pile: SpacedFacePile| pile@);
            piles.push(SpacedFacePile { pile, margin_right: Length::FacePileSpacing });
            assert(expected[i as int] == collaborator_pile(
                participants@[order@[i as int] as int],
                workspace,
                theme,
                &cx.room,
            ));
            assert(piles@.map_values(|pile: SpacedFacePile| pile@) =~= before.push(
                expected[i as int],
            ));
            assert(expected.take(i + 1) =~= expected.take(i as int).push(expected[i as int]));
            i += 1;
        }
        assert(expected.take(i as int) =~= expected);
        piles
    }

    /// The user, as seen in the call.
    pub fn render_current_user(
        &self,
        workspace: &Workspace,
        theme: &Theme,
        user: &User,
        peer_id: PeerId,
        cx: &Snapshot,
    ) -> (pile: SpacedFacePile)
        ensures
            pile@ == current_user_pile(user, peer_id, workspace, theme, &cx.room),
    {
        let replica_id = workspace.project.replica_id;
        SpacedFacePile {
            pile: self.render_face_pile(
                user,
                Some(replica_id),
                peer_id,
                None,
                workspace,
                theme,
                cx,
            ),
            margin_right: Length::ItemSpacing,
        }
    }

    /// A person in the call.
    pub fn render_face_pile(
        &self,
        user: &User,
        replica_id: Option<ReplicaId>,
        peer_id: PeerId,
        location: Option<ParticipantLocation>,
        workspace: &Workspace,
        theme: &Theme,
        cx: &Snapshot,
    ) -> (pile: FacePile)
        ensures
            pile@ == face_pile(user, replica_id, peer_id, location, workspace, theme, &cx.room),
            pile@.layers() == (match (pile@.faces, pile@.ribbon) {
                (Some(faces), Some(ribbon)) => seq![
                    PileLayerView::Faces(faces),
                    PileLayerView::Ribbon(ribbon),
                ],
                (Some(faces), None) => seq![PileLayerView::Faces(faces)],
                (None, Some(ribbon)) => seq![PileLayerView::Ribbon(ribbon)],
                (None, None) => seq![],
            }),
    {
        let is_being_followed = workspace.is_being_followed(peer_id);
        let followed_by_self = Self::followed_by_self(peer_id, workspace, &cx.room);

        let titlebar_background: Color = match theme.titlebar_background {
            Some(color) => color,
            None => Color::default(),
        };
        let mut background = Paint::Solid(titlebar_background);
        let mut container_background: Option<Paint> = None;
        if let Some(replica_id) = replica_id {
            if followed_by_self {
                background =
                Paint::BlendedSelection { replica_id, backdrop: titlebar_background, alpha: 255 };
                container_background = Some(Paint::ReplicaSelection(replica_id));
            }
        }
        let faces = match user.avatar {
            Some(avatar) => Some(
                Faces {
                    overlap: Length::FollowerAvatarOverlap,
                    leader: Self::render_face(
                        avatar,
                        Self::location_style(workspace, location, theme.leader_avatar),
                        background,
                    ),
                    followers: Self::render_followers(
                        peer_id,
                        workspace,
                        &cx.room,
                        theme.follower_avatar,
                        background,
                    ),
                    style: ContainerStyle::LeaderSelection,
                    background: container_background,
                },
            ),
            None => None,
        };
        let ribbon = match replica_id {
            Some(replica_id) => Some(
                SizedRibbon {
                    ribbon: AvatarRibbon::new(Paint::ReplicaCursor(replica_id)),
                    width: Length::AvatarRibbonWidth,
                    height: Length::AvatarRibbonHeight,
                    alignment: Alignment::Bottom,
                },
            ),
            None => None,
        };
        FacePile {
            faces,
            ribbon,
            interaction: Self::person_interaction(
                user,
                replica_id,
                peer_id,
                location,
                is_being_followed,
            ),
        }
    }

    /// Whether the user follows the peer.
    fn followed_by_self(peer_id: PeerId, workspace: &Workspace, room: &Option<Room>) -> (followed:
        bool)
        ensures
            followed == is_followed_by_self(peer_id, workspace, room),
    {
        if !workspace.is_being_followed(peer_id) {
            return false;
        }
        match (room, workspace.project.remote_id, workspace.client.peer_id) {
            (Some(call), Some(project_id), Some(own_peer_id)) => {
                let followers = call.followers_for(peer_id, project_id);
                let mut i: usize = 0;
                while i < followers.len()
                    invariant
                        i <= followers@.len(),
                        forall|j: int| 0 <= j < i ==> #[trigger] followers@[j] != own_peer_id,
                        workspace.followed@.contains(peer_id),
                        *room == Some(*call),
                        workspace.project.remote_id == Some(project_id),
                        workspace.client.peer_id == Some(own_peer_id),
                        followers@ == call.followers(peer_id, project_id),
                    decreases followers@.len() - i,
                {
                    if followers[i] == own_peer_id {
                        assert(followers@[i as int] == own_peer_id);
                        return true;
                    }
                    i += 1;
                }
                false
            },
            _ => false,
        }
    }

    /// The faces of the followers who have a picture.
    fn render_followers(
        peer_id: PeerId,
        workspace: &Workspace,
        room: &Option<Room>,
        style: AvatarStyle,
        background: Paint,
    ) -> (faces: Vec<Face>)
        ensures
            faces@ == follower_faces(peer_id, workspace, room, style, background),
    {
        let mut faces: Vec<Face> = Vec::new();
        if let (Some(room), Some(project_id)) = (room, workspace.project.remote_id) {
            let followers = room.followers_for(peer_id, project_id);
            let ghost face_of = |follower: PeerId|
                follower_face(room, workspace, style, background, follower);
            let mut i: usize = 0;
            while i < followers.len()
                invariant
                    i <= followers@.len(),
                    face_of == (|follower: PeerId|
                        follower_face(room, workspace, style, background, follower)),
                    faces@ == followers@.take(i as int).filter_map(face_of),
                decreases followers@.len() - i,
            {
                let follower = followers[i];
                if let Some(avatar) = Self::avatar_of_follower(room, workspace, follower) {
                    faces.push(Self::render_face(avatar, style, background));
                }
                proof {
                    followers@.lemma_filter_map_take_succ(face_of, i as int);
                }
                i += 1;
            }
            assert(followers@.take(i as int) =~= followers@);
        }
        faces
    }

    /// The picture of a follower.
    fn avatar_of_follower(room: &Room, workspace: &Workspace, follower: PeerId) -> (avatar: Option<
        ImageId,
    >)
        ensures
            avatar == follower_avatar(room, workspace, follower),
    {
        if let Some(participant) = room.remote_participant_for_peer_id(follower) {
            if participant.user.avatar.is_some() {
                return participant.user.avatar;
            }
        }
        match (workspace.client.peer_id, &workspace.user_store.current_user) {
            (Some(own_peer_id), Some(user)) => if follower == own_peer_id {
                user.avatar
            } else {
                None
            },
            _ => None,
        }
    }

    /// What a click on a person does.
    fn person_interaction(
        user: &User,
        replica_id: Option<ReplicaId>,
        peer_id: PeerId,
        location: Option<ParticipantLocation>,
        is_being_followed: bool,
    ) -> (result: Option<Interaction>)
        ensures
            (match result {
                Some(result) => Some(result@),
                None => None,
            }) == interaction(user, replica_id, peer_id, location, is_being_followed),
    {
        match (location, replica_id) {
            (Some(_), Some(replica_id)) => {
                let verb = if is_being_followed {
                    "Unfollow "
                } else {
                    "Follow "
                };
                Some(
                    Interaction {
                        region: MouseRegion {
                            tag: RegionTag::ToggleFollow,
                            id: replica_id as usize,
                            cursor: CursorStyle::PointingHand,
                            on_click: Click::ToggleFollow { peer_id },
                        },
                        tooltip_id: peer_id as usize,
                        tooltip: verb.to_owned().concat(user.github_login.as_str()),
                        action: Some(Action::FollowNextCollaborator),
                    },
                )
            },
            (Some(ParticipantLocation::SharedProject { project_id }), None) => Some(
                Interaction {
                    region: MouseRegion {
                        tag: RegionTag::JoinProject,
                        id: peer_id as usize,
                        cursor: CursorStyle::PointingHand,
                        on_click: Click::JoinProject { project_id, user_id: user.id },
                    },
                    tooltip_id: peer_id as usize,
                    tooltip: "Follow ".to_owned().concat(user.github_login.as_str()).concat(
                        " into external project",
                    ),
                    action: Some(Action::FollowNextCollaborator),
                },
            ),
            _ => None,
        }
    }

    /// The style of an avatar: without colour for a person who works elsewhere than in the
    /// project of the window.
    pub fn location_style(
        workspace: &Workspace,
        location: Option<ParticipantLocation>,
        style: AvatarStyle,
    ) -> (located: AvatarStyle)
        ensures
            located == located_style(style, location, workspace.project.remote_id),
    {
        let mut style = style;
        if let Some(location) = location {
            if let ParticipantLocation::SharedProject { project_id } = location {
                match workspace.project.remote_id {
                    Some(remote_id) => {
                        if project_id != remote_id {
                            style.grayscale = true;
                        }
                    },
                    None => {
                        style.grayscale = true;
                    },
                }
            } else {
                style.grayscale = true;
            }
        }
        style
    }

    /// One picture, on a square background with round corners.
    pub fn render_face(avatar: ImageId, avatar_style: AvatarStyle, background: Paint) -> (shown:
        Face)
        ensures
            shown == face(avatar, avatar_style, background),
    {
        Face {
            avatar,
            style: avatar_style,
            avatar_alignment: Alignment::Center,
            background,
            corner_radius: Length::AvatarOuterCornerRadius(avatar_style.kind),
            width: Length::AvatarOuterWidth(avatar_style.kind),
            height: Length::AvatarOuterWidth(avatar_style.kind),
            alignment: Alignment::Center,
        }
    }
}

} // verus!
