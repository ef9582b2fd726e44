//! The title of the project: the name of its first folder, and the branch checked out there.
use vstd::prelude::*;
use vstd::utf8::encode_utf8;

use crate::elements::{
    Alignment, Length, ProjectTitle, ProjectTitleView, TitleLabel, TitleLabelView,
};
use crate::item::CollabTitlebarItem;
use crate::snapshot::{Project, Worktree};

verus! {

/// The label for a name, with every byte of the name highlighted.
pub open spec fn name_label(name: Seq<char>) -> TitleLabelView {
    TitleLabelView {
        text: name,
        highlights: Seq::new(encode_utf8(name).len(), |i: int| i as usize),
        margin_right: None,
        alignment: Alignment::Left,
        element_name: "title-project-name",
    }
}

/// The label for a branch, with a slash in front of it.
pub open spec fn branch_label(branch: Seq<char>) -> TitleLabelView {
    TitleLabelView {
        text: "/"@ + branch,
        highlights: Seq::empty(),
        margin_right: Some(Length::ItemSpacing),
        alignment: Alignment::Left,
        element_name: "title-project-branch",
    }
}

/// The branch that is checked out at the root of a worktree.
pub open spec fn branch_of(worktree: Worktree) -> Option<Seq<char>> {
    match worktree.root_git_entry {
        Some(entry) => match entry.branch {
            Some(branch) => Some(branch@),
            None => None,
        },
        None => None,
    }
}

/// The title of a project: that of its first visible folder, and empty without one.
pub open spec fn project_title(project: &Project) -> ProjectTitleView {
    if project.visible_worktrees@.len() == 0 {
        ProjectTitleView { name: name_label(""@), branch: None }
    } else {
        let first = project.visible_worktrees@[0];
        ProjectTitleView {
            name: name_label(first.root_name@),
            branch: match branch_of(first) {
                Some(branch) => Some(branch_label(branch)),
                None => None,
            },
        }
    }
}

/// The labels of a title, from left to right: the name, and the branch if there is one.
pub open spec fn title_labels(project: &Project) -> Seq<TitleLabelView> {
    if project.visible_worktrees@.len() == 0 {
        seq![name_label(""@)]
    } else {
        let first = project.visible_worktrees@[0];
        match branch_of(first) {
            Some(branch) => seq![name_label(first.root_name@), branch_label(branch)],
            None => seq![name_label(first.root_name@)],
        }
    }
}

/// The positions of all bytes of a text.
fn byte_positions(text: &str) -> (all: Vec<usize>)
    ensures
        all@ == Seq::new(encode_utf8(text@).len(), |i: int| i as usize),
{
    let length: usize = text.as_bytes().len();
    let mut all: Vec<usize> = Vec::new();
    let mut i: usize = 0;
    while i < length
        invariant
            i <= length,
            all@ == Seq::new(i as nat, |i: int| i as usize),
        decreases length - i,
    {
        all.push(i);
        i += 1;
        assert(all@ =~= Seq::new(i as nat, |i: int| i as usize));
    }
    all
}

impl CollabTitlebarItem {
    /// The title of the project.
    pub fn collect_title_root_names(&self, project: &Project) -> (title: ProjectTitle)
        ensures
            title@ == project_title(project),
            title@.labels() == title_labels(project),
    {
        let mut name = "";
        let mut branch: Option<TitleLabel> = None;
        if project.visible_worktrees.len() > 0 {
            let first = &project.visible_worktrees[0];
            name = first.root_name.as_str();
            if let Some(entry) = &first.root_git_entry {
                if let Some(git_branch) = &entry.branch {
                    branch =
                    Some(
                        TitleLabel {
                            text: "/".to_owned().concat(git_branch.as_str()),
                            highlights: Vec::new(),
                            margin_right: Some(Length::ItemSpacing),
                            alignment: Alignment::Left,
                            element_name: "title-project-branch",
                        },
                    );
                }
            }
        }
        ProjectTitle {
            name: TitleLabel {
                text: name.to_owned(),
                highlights: byte_positions(name),
                margin_right: None,
                alignment: Alignment::Left,
                element_name: "title-project-name",
            },
            branch,
        }
    }
}

} // verus!
