//! What the title bar reads of the application, as plain values.
use std::collections::{HashMap, HashSet};

use vstd::prelude::*;

use crate::color::{Color, ReplicaId};

verus! {

broadcast use vstd::std_specs::hash::group_hash_axioms;

/// A connection to the collaboration server, packed into one integer.
pub type PeerId = u64;

/// The number by which the collaboration server knows a shared project.
pub type RemoteProjectId = u64;

/// A model owned by the application.
#[derive(Clone, Copy, Debug, PartialEq, Eq, Structural)]
pub struct ModelId(pub u64);

/// A view owned by the application.
#[derive(Clone, Copy, Debug, PartialEq, Eq, Structural)]
pub struct ViewId(pub u64);

/// A connection to the collaboration server, as the application knows it.
#[derive(Clone, Copy, Debug, PartialEq, Eq, Structural)]
pub struct ClientId(pub u64);

/// A decoded image owned by the application.
#[derive(Clone, Copy, Debug, PartialEq, Eq, Structural)]
pub struct ImageId(pub u64);

/// A person with an account.
#[derive(Debug, PartialEq, Eq)]
pub struct User {
    pub id: u64,
    pub github_login: String,
    /// The person's picture, once it has been fetched.
    pub avatar: Option<ImageId>,
}

/// Where a participant of a call is working.
#[derive(Clone, Copy, Debug, PartialEq, Eq, Structural)]
pub enum ParticipantLocation {
    /// In a project that is shared into the call.
    SharedProject { project_id: RemoteProjectId },
    /// In a project that is not shared.
    UnsharedProject,
    /// Outside the editor.
    External,
}

/// Somebody else in the call.
#[derive(Debug, PartialEq, Eq)]
pub struct RemoteParticipant {
    pub user: User,
    pub peer_id: PeerId,
    pub location: ParticipantLocation,
}

/// The call that the user is in.
#[derive(Debug)]
pub struct Room {
    pub remote_participants: Vec<RemoteParticipant>,
    /// For each leader, and each project in which somebody follows that leader, the followers.
    pub follows: HashMap<PeerId, HashMap<RemoteProjectId, Vec<PeerId>>>,
    pub is_screen_sharing: bool,
    /// Whether the microphone is muted, or nothing while it is not being published.
    pub is_muted: Option<bool>,
}

impl Room {
    /// The peers that follow `leader` in the project, in the order of the room.
    pub open spec fn followers(&self, leader: PeerId, project_id: RemoteProjectId) -> Seq<PeerId> {
        if self.follows@.contains_key(leader) && self.follows@[leader]@.contains_key(project_id) {
            self.follows@[leader]@[project_id]@
        } else {
            Seq::empty()
        }
    }

    /// The peers that follow `leader` in the project.
    pub fn followers_for(&self, leader: PeerId, project_id: RemoteProjectId) -> (followers: Vec<
        PeerId,
    >)
        ensures
            followers@ == self.followers(leader, project_id),
    {
        match self.follows.get(&leader) {
            Some(projects) => match projects.get(&project_id) {
                Some(followers) => {
                    let copy = followers.clone();
                    assert(copy@ =~= followers@);
                    copy
                },
                None => Vec::new(),
            },
            None => Vec::new(),
        }
    }

    /// Whether the participant at `index` is the first one that is connected as `peer_id`.
    pub open spec fn first_at(&self, peer_id: PeerId, index: int) -> bool {
        &&& 0 <= index < self.remote_participants@.len()
        &&& self.remote_participants@[index].peer_id == peer_id
        &&& forall|earlier: int|
            0 <= earlier < index ==> (#[trigger] self.remote_participants@[earlier]).peer_id
                != peer_id
    }

    /// The first participant that is connected as `peer_id`, if there is any.
    pub open spec fn participant(&self, peer_id: PeerId) -> Option<RemoteParticipant> {
        if exists|index: int| self.first_at(peer_id, index) {
            Some(self.remote_participants@[choose|index: int| self.first_at(peer_id, index)])
        } else {
            None
        }
    }

    /// The first participant that is connected as `peer_id`.
    pub fn remote_participant_for_peer_id(&self, peer_id: PeerId) -> (participant: Option<
        &RemoteParticipant,
    >)
        ensures
            match participant {
                Some(found) => self.participant(peer_id) == Some(*found),
                None => self.participant(peer_id) is None,
            },
    {
        let mut index: usize = 0;
        while index < self.remote_participants.len()
            invariant
                index <= self.remote_participants@.len(),
                forall|earlier: int|
                    0 <= earlier < index ==> (#[trigger] self.remote_participants@[earlier]).peer_id
                        != peer_id,
            decreases self.remote_participants@.len() - index,
        {
            let participant = &self.remote_participants[index];
            if participant.peer_id == peer_id {
                assert(self.first_at(peer_id, index as int));
                return Some(participant);
            }
            index += 1;
        }
        None
    }
}

/// How the connection to the collaboration server is doing.
#[derive(Clone, Copy, Debug, PartialEq, Eq, Structural)]
pub enum Status {
    Connected,
    ConnectionError,
    ConnectionLost,
    Reauthenticating,
    Reconnecting,
    ReconnectionError,
    UpgradeRequired,
    /// Signed out, or about to connect for the first time.
    Other,
}

/// The connection to the collaboration server.
#[derive(Clone, Copy, Debug, PartialEq, Eq, Structural)]
pub struct Client {
    pub peer_id: Option<PeerId>,
    pub status: Status,
}

/// What is known of the people with accounts.
#[derive(Debug, PartialEq, Eq)]
pub struct UserStore {
    /// The signed-in user.
    pub current_user: Option<User>,
    /// Who asks to become a contact, by account number.
    pub incoming_contact_requests: Vec<u64>,
}

/// The repository that holds the root of a worktree.
#[derive(Debug, PartialEq, Eq)]
pub struct RepositoryEntry {
    /// The branch that is checked out.
    pub branch: Option<String>,
}

/// A folder opened in a project.
#[derive(Debug, PartialEq, Eq)]
pub struct Worktree {
    pub root_name: String,
    pub root_git_entry: Option<RepositoryEntry>,
}

/// A project, local or joined.
#[derive(Debug)]
pub struct Project {
    pub visible_worktrees: Vec<Worktree>,
    pub remote_id: Option<RemoteProjectId>,
    pub is_remote: bool,
    pub is_shared: bool,
    pub replica_id: ReplicaId,
    /// The replica of each peer that has joined the project.
    pub collaborators: HashMap<PeerId, ReplicaId>,
}

impl Project {
    /// The replica as which the peer has joined the project.
    pub open spec fn replica_of(&self, peer_id: PeerId) -> Option<ReplicaId> {
        if self.collaborators@.contains_key(peer_id) {
            Some(self.collaborators@[peer_id])
        } else {
            None
        }
    }

    /// The replica as which the peer has joined the project.
    pub fn collaborator_replica(&self, peer_id: PeerId) -> (replica_id: Option<ReplicaId>)
        ensures
            replica_id == self.replica_of(peer_id),
    {
        match self.collaborators.get(&peer_id) {
            Some(replica_id) => Some(*replica_id),
            None => None,
        }
    }
}

/// The window that the title bar belongs to.
#[derive(Debug)]
pub struct Workspace {
    pub project: Project,
    pub client: Client,
    pub user_store: UserStore,
    /// The peers that some pane of the window follows.
    pub followed: HashSet<PeerId>,
}

impl Workspace {
    /// Whether some pane of the window follows the peer.
    pub fn is_being_followed(&self, peer_id: PeerId) -> (followed: bool)
        ensures
            followed == self.followed@.contains(peer_id),
    {
        self.followed.contains(&peer_id)
    }
}

/// Which of the theme's two avatar styles is meant.
#[derive(Clone, Copy, Debug, PartialEq, Eq, Structural)]
pub enum AvatarKind {
    Leader,
    Follower,
}

/// How an avatar is drawn: the measures that the theme gives its kind, in colour or not.
#[derive(Clone, Copy, Debug, PartialEq, Eq, Structural)]
pub struct AvatarStyle {
    pub kind: AvatarKind,
    pub grayscale: bool,
}

/// What the title bar decides by in the theme.
#[derive(Clone, Copy, Debug, PartialEq, Eq, Structural)]
pub struct Theme {
    /// The background of the title bar, if it has one of its own.
    pub titlebar_background: Option<Color>,
    /// The style for the picture of a person.
    pub leader_avatar: AvatarStyle,
    /// The style for the pictures of followers, and for the one on the user menu's button.
    pub follower_avatar: AvatarStyle,
}

/// All that a title bar reads while it is drawn.
#[derive(Debug)]
pub struct Snapshot {
    /// The window, unless it has been closed.
    pub workspace: Option<Workspace>,
    /// The project that the title bar was made for.
    pub project: Project,
    pub user_store: UserStore,
    pub client: Client,
    /// The call that the user is in.
    pub room: Option<Room>,
    pub theme: Theme,
}

} // verus!
