//! The Git operations of the interface, each as a machine that decides,
//! from the reply to one call into the repository, which call comes next or
//! how the operation ends. The caller makes the calls and feeds the replies
//! back, one at a time.
use vstd::prelude::*;

use crate::text::{concat2, concat3, concat5};

verus! {

/// The parents that a new commit gets: none (the first commit), the commit
/// at HEAD, or that commit and the one being merged in.
#[derive(Clone, Copy, Debug, PartialEq, Eq, Structural)]
pub enum CommitParents {
    Initial,
    Head,
    HeadAndIncoming,
}

/// One call into the repository. The caller keeps what the calls before it
/// produced: the open repository, the reference and commit at HEAD, the
/// branch found, the incoming commit (of a branch or a reference) and its
/// annotated form, the index, the tree written from it, the signature, and
/// the remote found.
pub enum GitRequest {
    /// Open the repository at this path.
    OpenRepository(String),
    /// Look up the local branch of this name; `Done` where it exists,
    /// `Failed` where the lookup fails.
    LookupLocalBranch(String),
    /// Resolve the reference that HEAD points at, and keep it.
    ResolveHead,
    /// Peel that reference to the commit at HEAD.
    PeelHeadToCommit,
    /// Create a local branch of this name at the commit at HEAD, without forcing.
    CreateBranchAtHead(String),
    /// Resolve HEAD and reply with its short name (`Name`).
    ReadHeadShorthand,
    /// Find the local branch of this name and keep it.
    FindLocalBranch(String),
    /// Delete the branch found.
    DeleteFoundBranch,
    /// Peel the branch found to a commit, which becomes the incoming commit.
    PeelBranchToCommit,
    /// Resolve this reference name to an id, which becomes the incoming commit.
    ResolveReference(String),
    /// Find the annotated commit of the incoming commit.
    FindAnnotatedCommit,
    /// Point HEAD at this reference.
    SetHead(String),
    /// Check out HEAD by force, allowing conflicts or not.
    CheckoutHead { allow_conflicts: bool },
    /// Open the index of the repository.
    OpenIndex,
    /// Add the file at this path to the index.
    AddPath(String),
    /// Write the index to disk.
    WriteIndex,
    /// Reply whether the index is empty (`Flag`).
    CheckIndexEmpty,
    /// Write the index as a tree.
    WriteTree,
    /// Find the tree written.
    FindTree,
    /// Read the repository's default signature.
    ReadSignature,
    /// Commit the tree on HEAD with this message and these parents, with the
    /// signature as author and committer.
    Commit { message: String, parents: CommitParents },
    /// Analyse a merge of the annotated commit (`Analysis`).
    AnalyzeMerge,
    /// Point the reference that HEAD resolved to (the current branch) at the
    /// incoming commit, with this log message.
    SetReferenceTarget(String),
    /// Merge the annotated commit into the working tree and index.
    MergeIncoming,
    /// Open the index and reply whether it has conflicts (`Flag`).
    CheckConflicts,
    /// Find the incoming commit as a commit.
    FindIncomingCommit,
    /// Add a remote of this name and URL.
    AddRemote { name: String, url: String },
    /// Delete the remote of this name.
    DeleteRemote(String),
    /// Find the remote of this name and keep it.
    FindRemote(String),
    /// Push this refspec to the remote found.
    PushRefspec(String),
    /// Fetch this refspec from the remote found.
    FetchBranch(String),
}

/// A `GitRequest` with its text taken as characters.
pub enum GitRequestView {
    OpenRepository(Seq<char>),
    LookupLocalBranch(Seq<char>),
    ResolveHead,
    PeelHeadToCommit,
    CreateBranchAtHead(Seq<char>),
    ReadHeadShorthand,
    FindLocalBranch(Seq<char>),
    DeleteFoundBranch,
    PeelBranchToCommit,
    ResolveReference(Seq<char>),
    FindAnnotatedCommit,
    SetHead(Seq<char>),
    CheckoutHead { allow_conflicts: bool },
    OpenIndex,
    AddPath(Seq<char>),
    WriteIndex,
    CheckIndexEmpty,
    WriteTree,
    FindTree,
    ReadSignature,
    Commit { message: Seq<char>, parents: CommitParents },
    AnalyzeMerge,
    SetReferenceTarget(Seq<char>),
    MergeIncoming,
    CheckConflicts,
    FindIncomingCommit,
    AddRemote { name: Seq<char>, url: Seq<char> },
    DeleteRemote(Seq<char>),
    FindRemote(Seq<char>),
    PushRefspec(Seq<char>),
    FetchBranch(Seq<char>),
}

impl View for GitRequest {
    type V = GitRequestView;

    open spec fn view(&self) -> GitRequestView {
        match self {
            GitRequest::OpenRepository(p) => GitRequestView::OpenRepository(p@),
            GitRequest::LookupLocalBranch(n) => GitRequestView::LookupLocalBranch(n@),
            GitRequest::ResolveHead => GitRequestView::ResolveHead,
            GitRequest::PeelHeadToCommit => GitRequestView::PeelHeadToCommit,
            GitRequest::CreateBranchAtHead(n) => GitRequestView::CreateBranchAtHead(n@),
            GitRequest::ReadHeadShorthand => GitRequestView::ReadHeadShorthand,
            GitRequest::FindLocalBranch(n) => GitRequestView::FindLocalBranch(n@),
            GitRequest::DeleteFoundBranch => GitRequestView::DeleteFoundBranch,
            GitRequest::PeelBranchToCommit => GitRequestView::PeelBranchToCommit,
            GitRequest::ResolveReference(r) => GitRequestView::ResolveReference(r@),
            GitRequest::FindAnnotatedCommit => GitRequestView::FindAnnotatedCommit,
            GitRequest::SetHead(r) => GitRequestView::SetHead(r@),
            GitRequest::CheckoutHead { allow_conflicts } => GitRequestView::CheckoutHead {
                allow_conflicts: *allow_conflicts,
            },
            GitRequest::OpenIndex => GitRequestView::OpenIndex,
            GitRequest::AddPath(p) => GitRequestView::AddPath(p@),
            GitRequest::WriteIndex => GitRequestView::WriteIndex,
            GitRequest::CheckIndexEmpty => GitRequestView::CheckIndexEmpty,
            GitRequest::WriteTree => GitRequestView::WriteTree,
            GitRequest::FindTree => GitRequestView::FindTree,
            GitRequest::ReadSignature => GitRequestView::ReadSignature,
            GitRequest::Commit { message, parents } => GitRequestView::Commit {
                message: message@,
                parents: *parents,
            },
            GitRequest::AnalyzeMerge => GitRequestView::AnalyzeMerge,
            GitRequest::SetReferenceTarget(m) => GitRequestView::SetReferenceTarget(m@),
            GitRequest::MergeIncoming => GitRequestView::MergeIncoming,
            GitRequest::CheckConflicts => GitRequestView::CheckConflicts,
            GitRequest::FindIncomingCommit => GitRequestView::FindIncomingCommit,
            GitRequest::AddRemote { name, url } => GitRequestView::AddRemote {
                name: name@,
                url: url@,
            },
            GitRequest::DeleteRemote(n) => GitRequestView::DeleteRemote(n@),
            GitRequest::FindRemote(n) => GitRequestView::FindRemote(n@),
            GitRequest::PushRefspec(r) => GitRequestView::PushRefspec(r@),
            GitRequest::FetchBranch(r) => GitRequestView::FetchBranch(r@),
        }
    }
}

/// The reply to a request: success, failure with the error's text, a yes or
/// no, HEAD's short name (`None` where it does not read as text), or the
/// kinds of merge that the analysis found possible.
pub enum GitReply {
    Done,
    Failed(String),
    Flag(bool),
    Name(Option<String>),
    Analysis { up_to_date: bool, fast_forward: bool, normal: bool },
}

pub enum GitReplyView {
    Done,
    Failed(Seq<char>),
    Flag(bool),
    Name(Option<Seq<char>>),
    Analysis { up_to_date: bool, fast_forward: bool, normal: bool },
}

impl View for GitReply {
    type V = GitReplyView;

    open spec fn view(&self) -> GitReplyView {
        match self {
            GitReply::Done => GitReplyView::Done,
            GitReply::Failed(e) => GitReplyView::Failed(e@),
            GitReply::Flag(b) => GitReplyView::Flag(*b),
            GitReply::Name(n) => GitReplyView::Name(
                match n {
                    Some(s) => Some(s@),
                    None => None,
                },
            ),
            GitReply::Analysis { up_to_date, fast_forward, normal } => GitReplyView::Analysis {
                up_to_date: *up_to_date,
                fast_forward: *fast_forward,
                normal: *normal,
            },
        }
    }
}

/// Whether `reply` is of the kind that `req` is answered with: a short name
/// for `ReadHeadShorthand`, a yes or no for `CheckIndexEmpty` and
/// `CheckConflicts`, an analysis for `AnalyzeMerge`, success for the others;
/// any of them may instead fail, but `CheckIndexEmpty` only reads the index.
pub open spec fn reply_fits(req: GitRequestView, reply: GitReplyView) -> bool {
    match req {
        GitRequestView::ReadHeadShorthand => reply is Name || reply is Failed,
        GitRequestView::CheckIndexEmpty => reply is Flag,
        GitRequestView::CheckConflicts => reply is Flag || reply is Failed,
        GitRequestView::AnalyzeMerge => reply is Analysis || reply is Failed,
        _ => reply is Done || reply is Failed,
    }
}

impl GitRequest {
    /// Whether `reply` is of the kind that this request is answered with.
    pub fn fits(&self, reply: &GitReply) -> (r: bool)
        ensures
            r == reply_fits(self@, reply@),
    {
        match self {
            GitRequest::ReadHeadShorthand => match reply {
                GitReply::Name(_) | GitReply::Failed(_) => true,
                _ => false,
            },
            GitRequest::CheckIndexEmpty => match reply {
                GitReply::Flag(_) => true,
                _ => false,
            },
            GitRequest::CheckConflicts => match reply {
                GitReply::Flag(_) | GitReply::Failed(_) => true,
                _ => false,
            },
            GitRequest::AnalyzeMerge => match reply {
                GitReply::Analysis { .. } | GitReply::Failed(_) => true,
                _ => false,
            },
            _ => match reply {
                GitReply::Done | GitReply::Failed(_) => true,
                _ => false,
            },
        }
    }
}

/// What an operation does next: make a call, or end with its result.
pub enum GitStep {
    Request(GitRequest),
    Finished(Result<(), String>),
}

pub enum GitStepView {
    Request(GitRequestView),
    Finished(Result<(), Seq<char>>),
}

impl View for GitStep {
    type V = GitStepView;

    open spec fn view(&self) -> GitStepView {
        match self {
            GitStep::Request(r) => GitStepView::Request(r@),
            GitStep::Finished(Ok(u)) => GitStepView::Finished(Ok(*u)),
            GitStep::Finished(Err(e)) => GitStepView::Finished(Err(e@)),
        }
    }
}

/// The end of an operation that failed with this message.
pub open spec fn fail(message: Seq<char>) -> GitStepView {
    GitStepView::Finished(Err(message))
}

/// The end of an operation that succeeded.
pub open spec fn succeed() -> GitStepView {
    GitStepView::Finished(Ok(()))
}

/// The error reported where the repository does not open.
pub open spec fn open_error(path: Seq<char>) -> Seq<char> {
    "Failed to open repository at '"@ + path + "'"@
}

/// The reference that a fetch leaves pointing at the commit it fetched.
pub open spec fn fetched_ref() -> Seq<char> {
    "FETCH_HEAD"@
}

/// The full name of the local branch `name`.
pub open spec fn local_ref(name: Seq<char>) -> Seq<char> {
    "refs/heads/"@ + name
}

fn request(r: GitRequest) -> (s: GitStep)
    ensures
        s@ == GitStepView::Request(r@),
{
    GitStep::Request(r)
}

fn finish_err(message: String) -> (s: GitStep)
    ensures
        s@ == fail(message@),
{
    GitStep::Finished(Err(message))
}

fn finish_ok() -> (s: GitStep)
    ensures
        s@ == succeed(),
{
    GitStep::Finished(Ok(()))
}

fn open_error_text(path: &String) -> (t: String)
    ensures
        t@ == open_error(path@),
{
    concat3("Failed to open repository at '", path.as_str(), "'")
}

fn local_ref_text(name: &String) -> (t: String)
    ensures
        t@ == local_ref(name@),
{
    concat2("refs/heads/", name.as_str())
}

// ---------------------------------------------------------------------------
// create_branch
// ---------------------------------------------------------------------------

/// The call that a branch creation waits on.
#[derive(Clone, Copy, Debug, PartialEq, Eq, Structural)]
pub enum CreateBranchStage {
    Opening,
    LookingUp,
    ResolvingHead,
    Peeling,
    Creating,
    Finished,
}

/// Creates a new branch with the given name based on the current HEAD.
pub struct CreateBranch {
    pub repo_path: String,
    pub branch_name: String,
    pub stage: CreateBranchStage,
}

impl CreateBranch {
    /// The call that the operation waits on in its stage.
    pub open spec fn pending(&self) -> GitRequestView {
        match self.stage {
            CreateBranchStage::Opening => GitRequestView::OpenRepository(self.repo_path@),
            CreateBranchStage::LookingUp => GitRequestView::LookupLocalBranch(self.branch_name@),
            CreateBranchStage::ResolvingHead => GitRequestView::ResolveHead,
            CreateBranchStage::Peeling => GitRequestView::PeelHeadToCommit,
            _ => GitRequestView::CreateBranchAtHead(self.branch_name@),
        }
    }

    /// The stage after `reply`, and the step it takes.
    pub open spec fn transition(&self, reply: GitReplyView) -> (CreateBranchStage, GitStepView) {
        let name = self.branch_name@;
        match self.stage {
            CreateBranchStage::Opening => if reply is Failed {
                (CreateBranchStage::Finished, fail(open_error(self.repo_path@)))
            } else {
                (
                    CreateBranchStage::LookingUp,
                    GitStepView::Request(GitRequestView::LookupLocalBranch(name)),
                )
            },
            CreateBranchStage::LookingUp => if reply is Failed {
                (CreateBranchStage::ResolvingHead, GitStepView::Request(GitRequestView::ResolveHead))
            } else {
                (CreateBranchStage::Finished, fail("Branch '"@ + name + "' already exists."@))
            },
            CreateBranchStage::ResolvingHead => if reply is Failed {
                (CreateBranchStage::Finished, fail("Failed to get HEAD"@))
            } else {
                (CreateBranchStage::Peeling, GitStepView::Request(GitRequestView::PeelHeadToCommit))
            },
            CreateBranchStage::Peeling => if reply is Failed {
                (CreateBranchStage::Finished, fail("Failed to peel HEAD to commit"@))
            } else {
                (
                    CreateBranchStage::Creating,
                    GitStepView::Request(GitRequestView::CreateBranchAtHead(name)),
                )
            },
            _ => if reply is Failed {
                (CreateBranchStage::Finished, fail("Failed to create branch '"@ + name + "'"@))
            } else {
                (CreateBranchStage::Finished, succeed())
            },
        }
    }

    /// Starts the operation: its first call opens the repository.
    pub fn new(repo_path: String, branch_name: String) -> (r: (CreateBranch, GitRequest))
        ensures
            r.0.repo_path == repo_path && r.0.branch_name == branch_name,
            r.0.stage == CreateBranchStage::Opening,
            r.1@ == r.0.pending(),
    {
        let first = GitRequest::OpenRepository(repo_path.clone());
        (CreateBranch { repo_path, branch_name, stage: CreateBranchStage::Opening }, first)
    }

    /// Takes the reply to the pending call and returns the next step.
    pub fn next(&mut self, reply: GitReply) -> (step: GitStep)
        requires
            old(self).stage != CreateBranchStage::Finished,
            reply_fits(old(self).pending(), reply@),
        ensures
            final(self).repo_path == old(self).repo_path,
            final(self).branch_name == old(self).branch_name,
            (final(self).stage, step@) == old(self).transition(reply@),
            step is Request ==> step->Request_0@ == final(self).pending(),
    {
        let failed = match reply {
            GitReply::Failed(_) => true,
            _ => false,
        };
        match self.stage {
            CreateBranchStage::Opening => if failed {
                self.stage = CreateBranchStage::Finished;
                finish_err(open_error_text(&self.repo_path))
            } else {
                self.stage = CreateBranchStage::LookingUp;
                request(GitRequest::LookupLocalBranch(self.branch_name.clone()))
            },
            CreateBranchStage::LookingUp => if failed {
                self.stage = CreateBranchStage::ResolvingHead;
                request(GitRequest::ResolveHead)
            } else {
                self.stage = CreateBranchStage::Finished;
                finish_err(concat3("Branch '", self.branch_name.as_str(), "' already exists."))
            },
            CreateBranchStage::ResolvingHead => if failed {
                self.stage = CreateBranchStage::Finished;
                finish_err(String::from_str("Failed to get HEAD"))
            } else {
                self.stage = CreateBranchStage::Peeling;
                request(GitRequest::PeelHeadToCommit)
            },
            CreateBranchStage::Peeling => if failed {
                self.stage = CreateBranchStage::Finished;
                finish_err(String::from_str("Failed to peel HEAD to commit"))
            } else {
                self.stage = CreateBranchStage::Creating;
                request(GitRequest::CreateBranchAtHead(self.branch_name.clone()))
            },
            _ => if failed {
                self.stage = CreateBranchStage::Finished;
                finish_err(concat3("Failed to create branch '", self.branch_name.as_str(), "'"))
            } else {
                self.stage = CreateBranchStage::Finished;
                finish_ok()
            },
        }
    }
}



impl CreateBranch {
    /// The most calls that the operation can still make.
    pub open spec fn rank(self) -> nat {
        match self.stage {
            CreateBranchStage::Opening => 5,
            CreateBranchStage::LookingUp => 4,
            CreateBranchStage::ResolvingHead => 3,
            CreateBranchStage::Peeling => 2,
            CreateBranchStage::Creating => 1,
            CreateBranchStage::Finished => 0,
        }
    }

    /// The operation in another stage.
    pub open spec fn with_stage(self, stage: CreateBranchStage) -> CreateBranch {
        CreateBranch { stage, ..self }
    }

    /// The steps that the operation takes for a sequence of replies, from its
    /// current stage, until it ends or the replies run out.
    pub open spec fn run(self, replies: Seq<GitReplyView>) -> Seq<GitStepView>
        decreases replies.len(),
    {
        if replies.len() == 0 || self.stage == CreateBranchStage::Finished {
            Seq::empty()
        } else {
            let (stage, step) = self.transition(replies[0]);
            seq![step] + self.with_stage(stage).run(replies.drop_first())
        }
    }

    /// The call that reply `j` of a run answers.
    pub open spec fn asked(self, replies: Seq<GitReplyView>, j: int) -> GitRequestView {
        if j == 0 {
            self.pending()
        } else {
            self.run(replies)[j - 1]->Request_0
        }
    }
}

/// Starts creating a local branch named `branch_name` at HEAD in the
/// repository at `repo_path`.
pub fn create_branch(repo_path: &str, branch_name: &str) -> (r: (CreateBranch, GitRequest))
    ensures
        r.0.repo_path@ == repo_path@ && r.0.branch_name@ == branch_name@,
        r.0.stage == CreateBranchStage::Opening,
        r.1@ == r.0.pending(),
{
    CreateBranch::new(String::from_str(repo_path), String::from_str(branch_name))
}

// ---------------------------------------------------------------------------
// delete_branch
// ---------------------------------------------------------------------------

#[derive(Clone, Copy, Debug, PartialEq, Eq, Structural)]
pub enum DeleteBranchStage {
    Opening,
    ReadingHead,
    Finding,
    Deleting,
    Finished,
}

/// Deletes the specified branch, ensuring it's not the current branch.
pub struct DeleteBranch {
    pub repo_path: String,
    pub branch_name: String,
    pub stage: DeleteBranchStage,
}

/// HEAD's short name as a reply gives it, or the empty text where it has none.
pub open spec fn head_name_or_empty(reply: GitReplyView) -> Seq<char> {
    match reply {
        GitReplyView::Name(Some(h)) => h,
        _ => ""@,
    }
}

impl DeleteBranch {
    pub open spec fn pending(&self) -> GitRequestView {
        match self.stage {
            DeleteBranchStage::Opening => GitRequestView::OpenRepository(self.repo_path@),
            DeleteBranchStage::ReadingHead => GitRequestView::ReadHeadShorthand,
            DeleteBranchStage::Finding => GitRequestView::FindLocalBranch(self.branch_name@),
            _ => GitRequestView::DeleteFoundBranch,
        }
    }

    pub open spec fn transition(&self, reply: GitReplyView) -> (DeleteBranchStage, GitStepView) {
        let name = self.branch_name@;
        match self.stage {
            DeleteBranchStage::Opening => if reply is Failed {
                (DeleteBranchStage::Finished, fail(open_error(self.repo_path@)))
            } else {
                (DeleteBranchStage::ReadingHead, GitStepView::Request(GitRequestView::ReadHeadShorthand))
            },
            DeleteBranchStage::ReadingHead => if reply is Failed {
                (DeleteBranchStage::Finished, fail("Failed to get HEAD"@))
            } else if head_name_or_empty(reply) == name {
                (
                    DeleteBranchStage::Finished,
                    fail("Cannot delete the current active branch '"@ + name + "'."@),
                )
            } else {
                (
                    DeleteBranchStage::Finding,
                    GitStepView::Request(GitRequestView::FindLocalBranch(name)),
                )
            },
            DeleteBranchStage::Finding => if reply is Failed {
                (DeleteBranchStage::Finished, fail("Branch '"@ + name + "' not found."@))
            } else {
                (DeleteBranchStage::Deleting, GitStepView::Request(GitRequestView::DeleteFoundBranch))
            },
            _ => if reply is Failed {
                (DeleteBranchStage::Finished, fail("Failed to delete branch '"@ + name + "'"@))
            } else {
                (DeleteBranchStage::Finished, succeed())
            },
        }
    }

    pub fn next(&mut self, reply: GitReply) -> (step: GitStep)
        requires
            old(self).stage != DeleteBranchStage::Finished,
            reply_fits(old(self).pending(), reply@),
        ensures
            final(self).repo_path == old(self).repo_path,
            final(self).branch_name == old(self).branch_name,
            (final(self).stage, step@) == old(self).transition(reply@),
            step is Request ==> step->Request_0@ == final(self).pending(),
    {
        match self.stage {
            DeleteBranchStage::Opening => match reply {
                GitReply::Failed(_) => {
                    self.stage = DeleteBranchStage::Finished;
                    finish_err(open_error_text(&self.repo_path))
                },
                _ => {
                    self.stage = DeleteBranchStage::ReadingHead;
                    request(GitRequest::ReadHeadShorthand)
                },
            },
            DeleteBranchStage::ReadingHead => match reply {
                GitReply::Failed(_) => {
                    self.stage = DeleteBranchStage::Finished;
                    finish_err(String::from_str("Failed to get HEAD"))
                },
                _ => {
                    let head = match reply {
                        GitReply::Name(Some(h)) => h,
                        _ => String::from_str(""),
                    };
                    if head == self.branch_name {
                        self.stage = DeleteBranchStage::Finished;
                        finish_err(
                            concat3(
                                "Cannot delete the current active branch '",
                                self.branch_name.as_str(),
                                "'.",
                            ),
                        )
                    } else {
                        self.stage = DeleteBranchStage::Finding;
                        request(GitRequest::FindLocalBranch(self.branch_name.clone()))
                    }
                },
            },
            DeleteBranchStage::Finding => match reply {
                GitReply::Failed(_) => {
                    self.stage = DeleteBranchStage::Finished;
                    finish_err(concat3("Branch '", self.branch_name.as_str(), "' not found."))
                },
                _ => {
                    self.stage = DeleteBranchStage::Deleting;
                    request(GitRequest::DeleteFoundBranch)
                },
            },
            _ => match reply {
                GitReply::Failed(_) => {
                    self.stage = DeleteBranchStage::Finished;
                    finish_err(concat3("Failed to delete branch '", self.branch_name.as_str(), "'"))
                },
                _ => {
                    self.stage = DeleteBranchStage::Finished;
                    finish_ok()
                },
            },
        }
    }
}


impl DeleteBranch {
    /// The most calls that the operation can still make.
    pub open spec fn rank(self) -> nat {
        match self.stage {
            DeleteBranchStage::Opening => 4,
            DeleteBranchStage::ReadingHead => 3,
            DeleteBranchStage::Finding => 2,
            DeleteBranchStage::Deleting => 1,
            DeleteBranchStage::Finished => 0,
        }
    }

    /// The operation in another stage.
    pub open spec fn with_stage(self, stage: DeleteBranchStage) -> DeleteBranch {
        DeleteBranch { stage, ..self }
    }

    /// The steps that the operation takes for a sequence of replies, from its
    /// current stage, until it ends or the replies run out.
    pub open spec fn run(self, replies: Seq<GitReplyView>) -> Seq<GitStepView>
        decreases replies.len(),
    {
        if replies.len() == 0 || self.stage == DeleteBranchStage::Finished {
            Seq::empty()
        } else {
            let (stage, step) = self.transition(replies[0]);
            seq![step] + self.with_stage(stage).run(replies.drop_first())
        }
    }

    /// The call that reply `j` of a run answers.
    pub open spec fn asked(self, replies: Seq<GitReplyView>, j: int) -> GitRequestView {
        if j == 0 {
            self.pending()
        } else {
            self.run(replies)[j - 1]->Request_0
        }
    }
}

/// Starts deleting the local branch `branch_name` of the repository at `repo_path`.
pub fn delete_branch(repo_path: &str, branch_name: &str) -> (r: (DeleteBranch, GitRequest))
    ensures
        r.0.repo_path@ == repo_path@ && r.0.branch_name@ == branch_name@,
        r.0.stage == DeleteBranchStage::Opening,
        r.1@ == r.0.pending(),
{
    let op = DeleteBranch {
        repo_path: String::from_str(repo_path),
        branch_name: String::from_str(branch_name),
        stage: DeleteBranchStage::Opening,
    };
    let first = GitRequest::OpenRepository(op.repo_path.clone());
    (op, first)
}

// ---------------------------------------------------------------------------
// switch_branch
// ---------------------------------------------------------------------------

#[derive(Clone, Copy, Debug, PartialEq, Eq, Structural)]
pub enum SwitchBranchStage {
    Opening,
    Resolving,
    Annotating,
    SettingHead,
    CheckingOut,
    Finished,
}

/// Switches to the specified branch.
pub struct SwitchBranch {
    pub repo_path: String,
    pub branch_name: String,
    pub stage: SwitchBranchStage,
}

impl SwitchBranch {
    pub open spec fn pending(&self) -> GitRequestView {
        match self.stage {
            SwitchBranchStage::Opening => GitRequestView::OpenRepository(self.repo_path@),
            SwitchBranchStage::Resolving => GitRequestView::ResolveReference(
                local_ref(self.branch_name@),
            ),
            SwitchBranchStage::Annotating => GitRequestView::FindAnnotatedCommit,
            SwitchBranchStage::SettingHead => GitRequestView::SetHead(local_ref(self.branch_name@)),
            _ => GitRequestView::CheckoutHead { allow_conflicts: true },
        }
    }

    pub open spec fn transition(&self, reply: GitReplyView) -> (SwitchBranchStage, GitStepView) {
        let name = self.branch_name@;
        match self.stage {
            SwitchBranchStage::Opening => if reply is Failed {
                (SwitchBranchStage::Finished, fail(open_error(self.repo_path@)))
            } else {
                (
                    SwitchBranchStage::Resolving,
                    GitStepView::Request(GitRequestView::ResolveReference(local_ref(name))),
                )
            },
            SwitchBranchStage::Resolving => if reply is Failed {
                (SwitchBranchStage::Finished, fail("Branch '"@ + name + "' not found."@))
            } else {
                (
                    SwitchBranchStage::Annotating,
                    GitStepView::Request(GitRequestView::FindAnnotatedCommit),
                )
            },
            SwitchBranchStage::Annotating => if reply is Failed {
                (
                    SwitchBranchStage::Finished,
                    fail("Failed to find annotated commit for branch '"@ + name + "'"@),
                )
            } else {
                (
                    SwitchBranchStage::SettingHead,
                    GitStepView::Request(GitRequestView::SetHead(local_ref(name))),
                )
            },
            SwitchBranchStage::SettingHead => if reply is Failed {
                (SwitchBranchStage::Finished, fail("Failed to set HEAD to '"@ + name + "'"@))
            } else {
                (
                    SwitchBranchStage::CheckingOut,
                    GitStepView::Request(GitRequestView::CheckoutHead { allow_conflicts: true }),
                )
            },
            _ => if reply is Failed {
                (SwitchBranchStage::Finished, fail("Failed to checkout branch"@))
            } else {
                (SwitchBranchStage::Finished, succeed())
            },
        }
    }

    pub fn next(&mut self, reply: GitReply) -> (step: GitStep)
        requires
            old(self).stage != SwitchBranchStage::Finished,
            reply_fits(old(self).pending(), reply@),
        ensures
            final(self).repo_path == old(self).repo_path,
            final(self).branch_name == old(self).branch_name,
            (final(self).stage, step@) == old(self).transition(reply@),
            step is Request ==> step->Request_0@ == final(self).pending(),
    {
        let failed = match reply {
            GitReply::Failed(_) => true,
            _ => false,
        };
        match self.stage {
            SwitchBranchStage::Opening => if failed {
                self.stage = SwitchBranchStage::Finished;
                finish_err(open_error_text(&self.repo_path))
            } else {
                self.stage = SwitchBranchStage::Resolving;
                request(GitRequest::ResolveReference(local_ref_text(&self.branch_name)))
            },
            SwitchBranchStage::Resolving => if failed {
                self.stage = SwitchBranchStage::Finished;
                finish_err(concat3("Branch '", self.branch_name.as_str(), "' not found."))
            } else {
                self.stage = SwitchBranchStage::Annotating;
                request(GitRequest::FindAnnotatedCommit)
            },
            SwitchBranchStage::Annotating => if failed {
                self.stage = SwitchBranchStage::Finished;
                finish_err(
                    concat3(
                        "Failed to find annotated commit for branch '",
                        self.branch_name.as_str(),
                        "'",
                    ),
                )
            } else {
                self.stage = SwitchBranchStage::SettingHead;
                request(GitRequest::SetHead(local_ref_text(&self.branch_name)))
            },
            SwitchBranchStage::SettingHead => if failed {
                self.stage = SwitchBranchStage::Finished;
                finish_err(concat3("Failed to set HEAD to '", self.branch_name.as_str(), "'"))
            } else {
                self.stage = SwitchBranchStage::CheckingOut;
                request(GitRequest::CheckoutHead { allow_conflicts: true })
            },
            _ => if failed {
                self.stage = SwitchBranchStage::Finished;
                finish_err(String::from_str("Failed to checkout branch"))
            } else {
                self.stage = SwitchBranchStage::Finished;
                finish_ok()
            },
        }
    }
}


impl SwitchBranch {
    /// The most calls that the operation can still make.
    pub open spec fn rank(self) -> nat {
        match self.stage {
            SwitchBranchStage::Opening => 5,
            SwitchBranchStage::Resolving => 4,
            SwitchBranchStage::Annotating => 3,
            SwitchBranchStage::SettingHead => 2,
            SwitchBranchStage::CheckingOut => 1,
            SwitchBranchStage::Finished => 0,
        }
    }

    /// The operation in another stage.
    pub open spec fn with_stage(self, stage: SwitchBranchStage) -> SwitchBranch {
        SwitchBranch { stage, ..self }
    }

    /// The steps that the operation takes for a sequence of replies, from its
    /// current stage, until it ends or the replies run out.
    pub open spec fn run(self, replies: Seq<GitReplyView>) -> Seq<GitStepView>
        decreases replies.len(),
    {
        if replies.len() == 0 || self.stage == SwitchBranchStage::Finished {
            Seq::empty()
        } else {
            let (stage, step) = self.transition(replies[0]);
            seq![step] + self.with_stage(stage).run(replies.drop_first())
        }
    }

    /// The call that reply `j` of a run answers.
    pub open spec fn asked(self, replies: Seq<GitReplyView>, j: int) -> GitRequestView {
        if j == 0 {
            self.pending()
        } else {
            self.run(replies)[j - 1]->Request_0
        }
    }
}

/// Starts switching the repository at `repo_path` to the branch `branch_name`.
pub fn switch_branch(repo_path: &str, branch_name: &str) -> (r: (SwitchBranch, GitRequest))
    ensures
        r.0.repo_path@ == repo_path@ && r.0.branch_name@ == branch_name@,
        r.0.stage == SwitchBranchStage::Opening,
        r.1@ == r.0.pending(),
{
    let op = SwitchBranch {
        repo_path: String::from_str(repo_path),
        branch_name: String::from_str(branch_name),
        stage: SwitchBranchStage::Opening,
    };
    let first = GitRequest::OpenRepository(op.repo_path.clone());
    (op, first)
}


// ---------------------------------------------------------------------------
// add_files
// ---------------------------------------------------------------------------

#[derive(Clone, Copy, Debug, PartialEq, Eq, Structural)]
pub enum AddFilesStage {
    Opening,
    OpeningIndex,
    /// Adding the file at this position of the list.
    Adding(usize),
    Writing,
    Finished,
}

/// Adds files to the staging area.
pub struct AddFiles {
    pub repo_path: String,
    pub files: Vec<String>,
    pub stage: AddFilesStage,
}

impl AddFiles {
    /// A file being added is one of the list, whose positions fit a `usize`.
    pub open spec fn wf(&self) -> bool {
        &&& self.files@.len() <= usize::MAX
        &&& self.stage matches AddFilesStage::Adding(i) ==> i < self.files@.len()
    }

    pub open spec fn pending(&self) -> GitRequestView {
        match self.stage {
            AddFilesStage::Opening => GitRequestView::OpenRepository(self.repo_path@),
            AddFilesStage::OpeningIndex => GitRequestView::OpenIndex,
            AddFilesStage::Adding(i) => GitRequestView::AddPath(self.files@[i as int]@),
            _ => GitRequestView::WriteIndex,
        }
    }

    /// The stage that adds the file at position `i`, or writes the index
    /// where the list ends before it.
    pub open spec fn add_from(&self, i: int) -> (AddFilesStage, GitStepView) {
        if i < self.files@.len() {
            (
                AddFilesStage::Adding(i as usize),
                GitStepView::Request(GitRequestView::AddPath(self.files@[i]@)),
            )
        } else {
            (AddFilesStage::Writing, GitStepView::Request(GitRequestView::WriteIndex))
        }
    }

    pub open spec fn transition(&self, reply: GitReplyView) -> (AddFilesStage, GitStepView) {
        match self.stage {
            AddFilesStage::Opening => if reply is Failed {
                (AddFilesStage::Finished, fail(open_error(self.repo_path@)))
            } else {
                (AddFilesStage::OpeningIndex, GitStepView::Request(GitRequestView::OpenIndex))
            },
            AddFilesStage::OpeningIndex => if reply is Failed {
                (AddFilesStage::Finished, fail("Failed to get repository index"@))
            } else {
                self.add_from(0)
            },
            AddFilesStage::Adding(i) => if reply is Failed {
                (
                    AddFilesStage::Finished,
                    fail("Failed to add file '"@ + self.files@[i as int]@ + "'"@),
                )
            } else {
                self.add_from(i + 1)
            },
            _ => if reply is Failed {
                (AddFilesStage::Finished, fail("Failed to write to index"@))
            } else {
                (AddFilesStage::Finished, succeed())
            },
        }
    }

    fn add_from_exec(&mut self, i: usize) -> (step: GitStep)
        requires
            i <= old(self).files@.len(),
        ensures
            final(self).repo_path == old(self).repo_path,
            final(self).files == old(self).files,
            (final(self).stage, step@) == old(self).add_from(i as int),
    {
        if i < self.files.len() {
            self.stage = AddFilesStage::Adding(i);
            request(GitRequest::AddPath(self.files[i].clone()))
        } else {
            self.stage = AddFilesStage::Writing;
            request(GitRequest::WriteIndex)
        }
    }

    pub fn next(&mut self, reply: GitReply) -> (step: GitStep)
        requires
            old(self).wf(),
            old(self).stage != AddFilesStage::Finished,
            reply_fits(old(self).pending(), reply@),
        ensures
            final(self).wf(),
            final(self).repo_path == old(self).repo_path,
            final(self).files == old(self).files,
            (final(self).stage, step@) == old(self).transition(reply@),
            step is Request ==> step->Request_0@ == final(self).pending(),
    {
        let failed = match reply {
            GitReply::Failed(_) => true,
            _ => false,
        };
        match self.stage {
            AddFilesStage::Opening => if failed {
                self.stage = AddFilesStage::Finished;
                finish_err(open_error_text(&self.repo_path))
            } else {
                self.stage = AddFilesStage::OpeningIndex;
                request(GitRequest::OpenIndex)
            },
            AddFilesStage::OpeningIndex => if failed {
                self.stage = AddFilesStage::Finished;
                finish_err(String::from_str("Failed to get repository index"))
            } else {
                self.add_from_exec(0)
            },
            AddFilesStage::Adding(i) => if failed {
                self.stage = AddFilesStage::Finished;
                finish_err(concat3("Failed to add file '", self.files[i].as_str(), "'"))
            } else {
                assert(i < self.files.len());
                self.add_from_exec(i + 1)
            },
            _ => if failed {
                self.stage = AddFilesStage::Finished;
                finish_err(String::from_str("Failed to write to index"))
            } else {
                self.stage = AddFilesStage::Finished;
                finish_ok()
            },
        }
    }
}


impl AddFiles {
    /// The most calls that the operation can still make.
    pub open spec fn rank(self) -> nat {
        match self.stage {
            AddFilesStage::Opening => self.files@.len() + 3,
            AddFilesStage::OpeningIndex => self.files@.len() + 2,
            AddFilesStage::Adding(i) => if i < self.files@.len() {
                (self.files@.len() - i + 1) as nat
            } else {
                1
            },
            AddFilesStage::Writing => 1,
            AddFilesStage::Finished => 0,
        }
    }

    /// The operation in another stage.
    pub open spec fn with_stage(self, stage: AddFilesStage) -> AddFiles {
        AddFiles { stage, ..self }
    }

    /// The steps that the operation takes for a sequence of replies, from its
    /// current stage, until it ends or the replies run out.
    pub open spec fn run(self, replies: Seq<GitReplyView>) -> Seq<GitStepView>
        decreases replies.len(),
    {
        if replies.len() == 0 || self.stage == AddFilesStage::Finished {
            Seq::empty()
        } else {
            let (stage, step) = self.transition(replies[0]);
            seq![step] + self.with_stage(stage).run(replies.drop_first())
        }
    }

    /// The call that reply `j` of a run answers.
    pub open spec fn asked(self, replies: Seq<GitReplyView>, j: int) -> GitRequestView {
        if j == 0 {
            self.pending()
        } else {
            self.run(replies)[j - 1]->Request_0
        }
    }
}

/// Starts adding `files` to the index of the repository at `repo_path`.
pub fn add_files(repo_path: &str, files: &[String]) -> (r: (AddFiles, GitRequest))
    ensures
        r.0.repo_path@ == repo_path@ && r.0.files@ == files@,
        r.0.stage == AddFilesStage::Opening,
        r.0.wf(),
        r.1@ == r.0.pending(),
{
    let mut copied: Vec<String> = Vec::new();
    let mut i: usize = 0;
    while i < files.len()
        invariant
            i <= files@.len(),
            copied@ == files@.take(i as int),
        decreases files@.len() - i,
    {
        copied.push(files[i].clone());
        assert(files@.take(i + 1) =~= files@.take(i as int).push(files@[i as int]));
        i = i + 1;
    }
    assert(files@.take(files@.len() as int) =~= files@);
    assert(copied@.len() == copied.len());
    let op = AddFiles {
        repo_path: String::from_str(repo_path),
        files: copied,
        stage: AddFilesStage::Opening,
    };
    let first = GitRequest::OpenRepository(op.repo_path.clone());
    (op, first)
}

// ---------------------------------------------------------------------------
// commit_changes
// ---------------------------------------------------------------------------

#[derive(Clone, Copy, Debug, PartialEq, Eq, Structural)]
pub enum CommitStage {
    Opening,
    OpeningIndex,
    CheckingEmpty,
    WritingTree,
    FindingTree,
    ReadingSignature,
    ResolvingHead,
    Peeling,
    CommittingInitial,
    Committing,
    Finished,
}

/// Commits staged changes with the provided message.
pub struct CommitChanges {
    pub repo_path: String,
    pub message: String,
    pub stage: CommitStage,
}

impl CommitChanges {
    pub open spec fn pending(&self) -> GitRequestView {
        match self.stage {
            CommitStage::Opening => GitRequestView::OpenRepository(self.repo_path@),
            CommitStage::OpeningIndex => GitRequestView::OpenIndex,
            CommitStage::CheckingEmpty => GitRequestView::CheckIndexEmpty,
            CommitStage::WritingTree => GitRequestView::WriteTree,
            CommitStage::FindingTree => GitRequestView::FindTree,
            CommitStage::ReadingSignature => GitRequestView::ReadSignature,
            CommitStage::ResolvingHead => GitRequestView::ResolveHead,
            CommitStage::Peeling => GitRequestView::PeelHeadToCommit,
            CommitStage::CommittingInitial => GitRequestView::Commit {
                message: self.message@,
                parents: CommitParents::Initial,
            },
            _ => GitRequestView::Commit { message: self.message@, parents: CommitParents::Head },
        }
    }

    pub open spec fn transition(&self, reply: GitReplyView) -> (CommitStage, GitStepView) {
        let ask = |stage: CommitStage, r: GitRequestView| (stage, GitStepView::Request(r));
        match self.stage {
            CommitStage::Opening => if reply is Failed {
                (CommitStage::Finished, fail(open_error(self.repo_path@)))
            } else {
                ask(CommitStage::OpeningIndex, GitRequestView::OpenIndex)
            },
            CommitStage::OpeningIndex => if reply is Failed {
                (CommitStage::Finished, fail("Failed to get repository index"@))
            } else {
                ask(CommitStage::CheckingEmpty, GitRequestView::CheckIndexEmpty)
            },
            CommitStage::CheckingEmpty => if reply == GitReplyView::Flag(true) {
                (CommitStage::Finished, fail("No changes to commit."@))
            } else {
                ask(CommitStage::WritingTree, GitRequestView::WriteTree)
            },
            CommitStage::WritingTree => if reply is Failed {
                (CommitStage::Finished, fail("Failed to write tree"@))
            } else {
                ask(CommitStage::FindingTree, GitRequestView::FindTree)
            },
            CommitStage::FindingTree => if reply is Failed {
                (CommitStage::Finished, fail("Failed to find written tree"@))
            } else {
                ask(CommitStage::ReadingSignature, GitRequestView::ReadSignature)
            },
            CommitStage::ReadingSignature => if reply is Failed {
                (CommitStage::Finished, fail("Failed to get repository signature"@))
            } else {
                ask(CommitStage::ResolvingHead, GitRequestView::ResolveHead)
            },
            CommitStage::ResolvingHead => if reply is Failed {
                ask(
                    CommitStage::CommittingInitial,
                    GitRequestView::Commit {
                        message: self.message@,
                        parents: CommitParents::Initial,
                    },
                )
            } else {
                ask(CommitStage::Peeling, GitRequestView::PeelHeadToCommit)
            },
            CommitStage::Peeling => if reply is Failed {
                (CommitStage::Finished, fail("Failed to peel HEAD to commit"@))
            } else {
                ask(
                    CommitStage::Committing,
                    GitRequestView::Commit { message: self.message@, parents: CommitParents::Head },
                )
            },
            CommitStage::CommittingInitial => if reply is Failed {
                (CommitStage::Finished, fail("Failed to create initial commit"@))
            } else {
                (CommitStage::Finished, succeed())
            },
            _ => if reply is Failed {
                (CommitStage::Finished, fail("Failed to create commit"@))
            } else {
                (CommitStage::Finished, succeed())
            },
        }
    }

    pub fn next(&mut self, reply: GitReply) -> (step: GitStep)
        requires
            old(self).stage != CommitStage::Finished,
            reply_fits(old(self).pending(), reply@),
        ensures
            final(self).repo_path == old(self).repo_path,
            final(self).message == old(self).message,
            (final(self).stage, step@) == old(self).transition(reply@),
            step is Request ==> step->Request_0@ == final(self).pending(),
    {
        let failed = match reply {
            GitReply::Failed(_) => true,
            _ => false,
        };
        match self.stage {
            CommitStage::Opening => if failed {
                self.stage = CommitStage::Finished;
                finish_err(open_error_text(&self.repo_path))
            } else {
                self.stage = CommitStage::OpeningIndex;
                request(GitRequest::OpenIndex)
            },
            CommitStage::OpeningIndex => if failed {
                self.stage = CommitStage::Finished;
                finish_err(String::from_str("Failed to get repository index"))
            } else {
                self.stage = CommitStage::CheckingEmpty;
                request(GitRequest::CheckIndexEmpty)
            },
            CommitStage::CheckingEmpty => {
                let empty = match reply {
                    GitReply::Flag(b) => b,
                    _ => false,
                };
                if empty {
                    self.stage = CommitStage::Finished;
                    finish_err(String::from_str("No changes to commit."))
                } else {
                    self.stage = CommitStage::WritingTree;
                    request(GitRequest::WriteTree)
                }
            },
            CommitStage::WritingTree => if failed {
                self.stage = CommitStage::Finished;
                finish_err(String::from_str("Failed to write tree"))
            } else {
                self.stage = CommitStage::FindingTree;
                request(GitRequest::FindTree)
            },
            CommitStage::FindingTree => if failed {
                self.stage = CommitStage::Finished;
                finish_err(String::from_str("Failed to find written tree"))
            } else {
                self.stage = CommitStage::ReadingSignature;
                request(GitRequest::ReadSignature)
            },
            CommitStage::ReadingSignature => if failed {
                self.stage = CommitStage::Finished;
                finish_err(String::from_str("Failed to get repository signature"))
            } else {
                self.stage = CommitStage::ResolvingHead;
                request(GitRequest::ResolveHead)
            },
            CommitStage::ResolvingHead => if failed {
                self.stage = CommitStage::CommittingInitial;
                request(
                    GitRequest::Commit {
                        message: self.message.clone(),
                        parents: CommitParents::Initial,
                    },
                )
            } else {
                self.stage = CommitStage::Peeling;
                request(GitRequest::PeelHeadToCommit)
            },
            CommitStage::Peeling => if failed {
                self.stage = CommitStage::Finished;
                finish_err(String::from_str("Failed to peel HEAD to commit"))
            } else {
                self.stage = CommitStage::Committing;
                request(GitRequest::Commit { message: self.message.clone(), parents: CommitParents::Head })
            },
            CommitStage::CommittingInitial => if failed {
                self.stage = CommitStage::Finished;
                finish_err(String::from_str("Failed to create initial commit"))
            } else {
                self.stage = CommitStage::Finished;
                finish_ok()
            },
            _ => if failed {
                self.stage = CommitStage::Finished;
                finish_err(String::from_str("Failed to create commit"))
            } else {
                self.stage = CommitStage::Finished;
                finish_ok()
            },
        }
    }
}


impl CommitChanges {
    /// The most calls that the operation can still make.
    pub open spec fn rank(self) -> nat {
        match self.stage {
            CommitStage::Opening => 9,
            CommitStage::OpeningIndex => 8,
            CommitStage::CheckingEmpty => 7,
            CommitStage::WritingTree => 6,
            CommitStage::FindingTree => 5,
            CommitStage::ReadingSignature => 4,
            CommitStage::ResolvingHead => 3,
            CommitStage::Peeling => 2,
            CommitStage::CommittingInitial => 1,
            CommitStage::Committing => 1,
            CommitStage::Finished => 0,
        }
    }

    /// The operation in another stage.
    pub open spec fn with_stage(self, stage: CommitStage) -> CommitChanges {
        CommitChanges { stage, ..self }
    }

    /// The steps that the operation takes for a sequence of replies, from its
    /// current stage, until it ends or the replies run out.
    pub open spec fn run(self, replies: Seq<GitReplyView>) -> Seq<GitStepView>
        decreases replies.len(),
    {
        if replies.len() == 0 || self.stage == CommitStage::Finished {
            Seq::empty()
        } else {
            let (stage, step) = self.transition(replies[0]);
            seq![step] + self.with_stage(stage).run(replies.drop_first())
        }
    }

    /// The call that reply `j` of a run answers.
    pub open spec fn asked(self, replies: Seq<GitReplyView>, j: int) -> GitRequestView {
        if j == 0 {
            self.pending()
        } else {
            self.run(replies)[j - 1]->Request_0
        }
    }
}

/// Starts committing the staged changes of the repository at `repo_path`
/// with `message`.
pub fn commit_changes(repo_path: &str, message: &str) -> (r: (CommitChanges, GitRequest))
    ensures
        r.0.repo_path@ == repo_path@ && r.0.message@ == message@,
        r.0.stage == CommitStage::Opening,
        r.1@ == r.0.pending(),
{
    let op = CommitChanges {
        repo_path: String::from_str(repo_path),
        message: String::from_str(message),
        stage: CommitStage::Opening,
    };
    let first = GitRequest::OpenRepository(op.repo_path.clone());
    (op, first)
}


// ---------------------------------------------------------------------------
// merge_branch and pull_branch
// ---------------------------------------------------------------------------

/// The call that a merge or a pull waits on.
#[derive(Clone, Copy, Debug, PartialEq, Eq, Structural)]
pub enum IntegrateStage {
    Opening,
    /// Merge only: reading the name of the current branch.
    ReadingHead,
    /// Merge only: finding the branch to merge.
    FindingBranch,
    /// Merge only: peeling it to its commit.
    PeelingBranch,
    /// Pull only: finding the remote.
    FindingRemote,
    /// Pull only: resolving the local branch of the same name.
    Resolving,
    Annotating,
    /// Pull only: fetching the branch from the remote.
    Fetching,
    /// Pull only: resolving the commit just fetched, which becomes the incoming commit.
    ResolvingFetched,
    /// Pull only: finding the annotated commit of the fetched commit.
    AnnotatingFetched,
    Analyzing,
    /// Fast-forward: resolving the reference of the current branch.
    ResolvingTarget,
    SettingTarget,
    CheckingOut,
    Merging,
    CheckingConflicts,
    ReadingSignature,
    ResolvingHead,
    PeelingHead,
    FindingIncoming,
    OpeningIndex,
    WritingTree,
    FindingTree,
    Committing,
    Finished,
}

/// Merges a branch into the current one: the local branch `branch_name`
/// where `remote` is `None` (`merge_branch`), or, where `remote` names a
/// remote (`pull_branch`), the commit fetched from the branch of that name
/// on it. A pull first checks that a local branch of that name exists. A
/// fast-forward moves the current branch to the incoming commit.
pub struct Integrate {
    pub repo_path: String,
    pub branch_name: String,
    pub remote: Option<String>,
    pub stage: IntegrateStage,
}

impl Integrate {
    /// The remote's name as text (empty for a merge).
    pub open spec fn remote_text(&self) -> Seq<char> {
        match self.remote {
            Some(r) => r@,
            None => ""@,
        }
    }

    /// The message of the commit that records the merge.
    pub open spec fn commit_message(&self) -> Seq<char> {
        match self.remote {
            None => "Merge branch '"@ + self.branch_name@ + "'"@,
            Some(r) => "Pull from "@ + r@ + "/"@ + self.branch_name@,
        }
    }

    /// The call made in `stage`.
    pub open spec fn request_at(&self, stage: IntegrateStage) -> GitRequestView {
        let name = self.branch_name@;
        match stage {
            IntegrateStage::Opening => GitRequestView::OpenRepository(self.repo_path@),
            IntegrateStage::ReadingHead => GitRequestView::ReadHeadShorthand,
            IntegrateStage::FindingBranch => GitRequestView::FindLocalBranch(name),
            IntegrateStage::PeelingBranch => GitRequestView::PeelBranchToCommit,
            IntegrateStage::FindingRemote => GitRequestView::FindRemote(self.remote_text()),
            IntegrateStage::Resolving => GitRequestView::ResolveReference(local_ref(name)),
            IntegrateStage::Annotating => GitRequestView::FindAnnotatedCommit,
            IntegrateStage::Fetching => GitRequestView::FetchBranch(name),
            IntegrateStage::ResolvingFetched => GitRequestView::ResolveReference(fetched_ref()),
            IntegrateStage::AnnotatingFetched => GitRequestView::FindAnnotatedCommit,
            IntegrateStage::Analyzing => GitRequestView::AnalyzeMerge,
            IntegrateStage::ResolvingTarget => GitRequestView::ResolveHead,
            IntegrateStage::SettingTarget => GitRequestView::SetReferenceTarget(
                "Fast-Forward Merge"@,
            ),
            IntegrateStage::CheckingOut => GitRequestView::CheckoutHead { allow_conflicts: false },
            IntegrateStage::Merging => GitRequestView::MergeIncoming,
            IntegrateStage::CheckingConflicts => GitRequestView::CheckConflicts,
            IntegrateStage::ReadingSignature => GitRequestView::ReadSignature,
            IntegrateStage::ResolvingHead => GitRequestView::ResolveHead,
            IntegrateStage::PeelingHead => GitRequestView::PeelHeadToCommit,
            IntegrateStage::FindingIncoming => GitRequestView::FindIncomingCommit,
            IntegrateStage::OpeningIndex => GitRequestView::OpenIndex,
            IntegrateStage::WritingTree => GitRequestView::WriteTree,
            IntegrateStage::FindingTree => GitRequestView::FindTree,
            _ => GitRequestView::Commit {
                message: self.commit_message(),
                parents: CommitParents::HeadAndIncoming,
            },
        }
    }

    pub open spec fn pending(&self) -> GitRequestView {
        self.request_at(self.stage)
    }

    /// Moving to `stage` and making its call.
    pub open spec fn go(&self, stage: IntegrateStage) -> (IntegrateStage, GitStepView) {
        (stage, GitStepView::Request(self.request_at(stage)))
    }

    /// Ending with the error `message`.
    pub open spec fn stop(message: Seq<char>) -> (IntegrateStage, GitStepView) {
        (IntegrateStage::Finished, fail(message))
    }

    /// Going on to `stage` unless the reply is a failure, which ends the
    /// operation with `message`.
    pub open spec fn unless_failed(&self, reply: GitReplyView, message: Seq<char>, stage: IntegrateStage) -> (
        IntegrateStage,
        GitStepView,
    ) {
        if reply is Failed {
            Self::stop(message)
        } else {
            self.go(stage)
        }
    }

    pub open spec fn transition(&self, reply: GitReplyView) -> (IntegrateStage, GitStepView) {
        let name = self.branch_name@;
        let pull = self.remote is Some;
        match self.stage {
            IntegrateStage::Opening => self.unless_failed(
                reply,
                open_error(self.repo_path@),
                if pull {
                    IntegrateStage::FindingRemote
                } else {
                    IntegrateStage::ReadingHead
                },
            ),
            IntegrateStage::ReadingHead => match reply {
                GitReplyView::Name(Some(current)) => if current == name {
                    Self::stop("Cannot merge branch '"@ + name + "' into itself."@)
                } else {
                    self.go(IntegrateStage::FindingBranch)
                },
                GitReplyView::Failed(_) => Self::stop("Failed to get HEAD"@),
                _ => Self::stop("Invalid HEAD"@),
            },
            IntegrateStage::FindingBranch => self.unless_failed(
                reply,
                "Branch '"@ + name + "' not found."@,
                IntegrateStage::PeelingBranch,
            ),
            IntegrateStage::PeelingBranch => self.unless_failed(
                reply,
                "Failed to peel branch to commit"@,
                IntegrateStage::Annotating,
            ),
            IntegrateStage::FindingRemote => self.unless_failed(
                reply,
                "Remote '"@ + self.remote_text() + "' not found."@,
                IntegrateStage::Resolving,
            ),
            IntegrateStage::Resolving => self.unless_failed(
                reply,
                "Branch '"@ + name + "' not found."@,
                IntegrateStage::Annotating,
            ),
            IntegrateStage::Annotating => if pull {
                self.unless_failed(
                    reply,
                    "Failed to find annotated commit for branch '"@ + name + "'"@,
                    IntegrateStage::Fetching,
                )
            } else {
                self.unless_failed(
                    reply,
                    "Failed to find annotated commit for merge"@,
                    IntegrateStage::Analyzing,
                )
            },
            IntegrateStage::Fetching => self.unless_failed(
                reply,
                "Failed to fetch branch '"@ + name + "' from remote '"@ + self.remote_text() + "'"@,
                IntegrateStage::ResolvingFetched,
            ),
            IntegrateStage::ResolvingFetched => self.unless_failed(
                reply,
                "Failed to find fetched commit for branch '"@ + name + "'"@,
                IntegrateStage::AnnotatingFetched,
            ),
            IntegrateStage::AnnotatingFetched => self.unless_failed(
                reply,
                "Failed to find annotated commit for fetched branch '"@ + name + "'"@,
                IntegrateStage::Analyzing,
            ),
            IntegrateStage::Analyzing => match reply {
                GitReplyView::Analysis { up_to_date, fast_forward, normal } => if up_to_date {
                    Self::stop("Branch '"@ + name + "' is already up-to-date."@)
                } else if fast_forward {
                    self.go(IntegrateStage::ResolvingTarget)
                } else if normal {
                    self.go(IntegrateStage::Merging)
                } else {
                    Self::stop("Merge analysis returned unknown status."@)
                },
                _ => Self::stop("Failed to perform merge analysis"@),
            },
            IntegrateStage::ResolvingTarget => self.unless_failed(
                reply,
                "Failed to find reference for fast-forward"@,
                IntegrateStage::SettingTarget,
            ),
            IntegrateStage::SettingTarget => self.unless_failed(
                reply,
                "Failed to set target for fast-forward"@,
                IntegrateStage::CheckingOut,
            ),
            IntegrateStage::CheckingOut => if reply is Failed {
                Self::stop("Failed to checkout head after fast-forward"@)
            } else {
                (IntegrateStage::Finished, succeed())
            },
            IntegrateStage::Merging => self.unless_failed(
                reply,
                if pull {
                    "Failed to merge fetched changes"@
                } else {
                    "Failed to merge branches"@
                },
                IntegrateStage::CheckingConflicts,
            ),
            IntegrateStage::CheckingConflicts => match reply {
                GitReplyView::Failed(e) => Self::stop(e),
                GitReplyView::Flag(true) => Self::stop(
                    if pull {
                        "Merge conflicts detected during pull. Please resolve them manually."@
                    } else {
                        "Merge conflicts detected. Please resolve them manually."@
                    },
                ),
                _ => self.go(IntegrateStage::ReadingSignature),
            },
            IntegrateStage::ReadingSignature => self.unless_failed(
                reply,
                "Failed to get repository signature"@,
                IntegrateStage::ResolvingHead,
            ),
            IntegrateStage::ResolvingHead => self.unless_failed(
                reply,
                "Failed to get HEAD"@,
                IntegrateStage::PeelingHead,
            ),
            IntegrateStage::PeelingHead => self.unless_failed(
                reply,
                "Failed to peel HEAD to commit"@,
                IntegrateStage::FindingIncoming,
            ),
            IntegrateStage::FindingIncoming => self.unless_failed(
                reply,
                "Failed to find merge commit"@,
                IntegrateStage::OpeningIndex,
            ),
            IntegrateStage::OpeningIndex => match reply {
                GitReplyView::Failed(e) => Self::stop(e),
                _ => self.go(IntegrateStage::WritingTree),
            },
            IntegrateStage::WritingTree => self.unless_failed(
                reply,
                "Failed to write tree after merge"@,
                IntegrateStage::FindingTree,
            ),
            IntegrateStage::FindingTree => self.unless_failed(
                reply,
                "Failed to find tree after merge"@,
                IntegrateStage::Committing,
            ),
            _ => if reply is Failed {
                Self::stop(
                    if pull {
                        "Failed to create commit after pull"@
                    } else {
                        "Failed to create merge commit"@
                    },
                )
            } else {
                (IntegrateStage::Finished, succeed())
            },
        }
    }

    fn commit_message_text(&self) -> (t: String)
        ensures
            t@ == self.commit_message(),
    {
        match &self.remote {
            None => concat3("Merge branch '", self.branch_name.as_str(), "'"),
            Some(r) => {
                let mut t = concat3("Pull from ", r.as_str(), "/");
                t.append(self.branch_name.as_str());
                t
            },
        }
    }

    fn remote_name(&self) -> (t: &str)
        ensures
            t@ == self.remote_text(),
    {
        match &self.remote {
            Some(r) => r.as_str(),
            None => "",
        }
    }

    /// The call made in `stage`.
    fn request_for(&self, stage: IntegrateStage) -> (r: GitRequest)
        ensures
            r@ == self.request_at(stage),
    {
        match stage {
            IntegrateStage::Opening => GitRequest::OpenRepository(self.repo_path.clone()),
            IntegrateStage::ReadingHead => GitRequest::ReadHeadShorthand,
            IntegrateStage::FindingBranch => GitRequest::FindLocalBranch(self.branch_name.clone()),
            IntegrateStage::PeelingBranch => GitRequest::PeelBranchToCommit,
            IntegrateStage::FindingRemote => GitRequest::FindRemote(
                String::from_str(self.remote_name()),
            ),
            IntegrateStage::Resolving => GitRequest::ResolveReference(
                local_ref_text(&self.branch_name),
            ),
            IntegrateStage::Annotating => GitRequest::FindAnnotatedCommit,
            IntegrateStage::Fetching => GitRequest::FetchBranch(self.branch_name.clone()),
            IntegrateStage::ResolvingFetched => GitRequest::ResolveReference(
                String::from_str("FETCH_HEAD"),
            ),
            IntegrateStage::AnnotatingFetched => GitRequest::FindAnnotatedCommit,
            IntegrateStage::Analyzing => GitRequest::AnalyzeMerge,
            IntegrateStage::ResolvingTarget => GitRequest::ResolveHead,
            IntegrateStage::SettingTarget => GitRequest::SetReferenceTarget(
                String::from_str("Fast-Forward Merge"),
            ),
            IntegrateStage::CheckingOut => GitRequest::CheckoutHead { allow_conflicts: false },
            IntegrateStage::Merging => GitRequest::MergeIncoming,
            IntegrateStage::CheckingConflicts => GitRequest::CheckConflicts,
            IntegrateStage::ReadingSignature => GitRequest::ReadSignature,
            IntegrateStage::ResolvingHead => GitRequest::ResolveHead,
            IntegrateStage::PeelingHead => GitRequest::PeelHeadToCommit,
            IntegrateStage::FindingIncoming => GitRequest::FindIncomingCommit,
            IntegrateStage::OpeningIndex => GitRequest::OpenIndex,
            IntegrateStage::WritingTree => GitRequest::WriteTree,
            IntegrateStage::FindingTree => GitRequest::FindTree,
            _ => GitRequest::Commit {
                message: self.commit_message_text(),
                parents: CommitParents::HeadAndIncoming,
            },
        }
    }

    fn go_exec(&mut self, stage: IntegrateStage) -> (step: GitStep)
        ensures
            final(self).repo_path == old(self).repo_path,
            final(self).branch_name == old(self).branch_name,
            final(self).remote == old(self).remote,
            (final(self).stage, step@) == old(self).go(stage),
    {
        let r = self.request_for(stage);
        self.stage = stage;
        request(r)
    }

    fn stop_exec(&mut self, message: String) -> (step: GitStep)
        ensures
            final(self).repo_path == old(self).repo_path,
            final(self).branch_name == old(self).branch_name,
            final(self).remote == old(self).remote,
            (final(self).stage, step@) == Self::stop(message@),
    {
        self.stage = IntegrateStage::Finished;
        finish_err(message)
    }

    fn unless_failed_exec(&mut self, failed: bool, message: String, stage: IntegrateStage) -> (step:
        GitStep)
        ensures
            final(self).repo_path == old(self).repo_path,
            final(self).branch_name == old(self).branch_name,
            final(self).remote == old(self).remote,
            (final(self).stage, step@) == if failed {
                Self::stop(message@)
            } else {
                old(self).go(stage)
            },
    {
        if failed {
            self.stop_exec(message)
        } else {
            self.go_exec(stage)
        }
    }

    pub fn next(&mut self, reply: GitReply) -> (step: GitStep)
        requires
            old(self).stage != IntegrateStage::Finished,
            reply_fits(old(self).pending(), reply@),
        ensures
            final(self).repo_path == old(self).repo_path,
            final(self).branch_name == old(self).branch_name,
            final(self).remote == old(self).remote,
            (final(self).stage, step@) == old(self).transition(reply@),
            step is Request ==> step->Request_0@ == final(self).pending(),
    {
        let failed = match reply {
            GitReply::Failed(_) => true,
            _ => false,
        };
        let pull = self.remote.is_some();
        match self.stage {
            IntegrateStage::Opening => {
                let m = open_error_text(&self.repo_path);
                self.unless_failed_exec(
                    failed,
                    m,
                    if pull {
                        IntegrateStage::FindingRemote
                    } else {
                        IntegrateStage::ReadingHead
                    },
                )
            },
            IntegrateStage::ReadingHead => match reply {
                GitReply::Name(Some(current)) => if current == self.branch_name {
                    let m = concat3("Cannot merge branch '", self.branch_name.as_str(), "' into itself.");
                    self.stop_exec(m)
                } else {
                    self.go_exec(IntegrateStage::FindingBranch)
                },
                GitReply::Failed(_) => self.stop_exec(String::from_str("Failed to get HEAD")),
                _ => self.stop_exec(String::from_str("Invalid HEAD")),
            },
            IntegrateStage::FindingBranch => {
                let m = concat3("Branch '", self.branch_name.as_str(), "' not found.");
                self.unless_failed_exec(failed, m, IntegrateStage::PeelingBranch)
            },
            IntegrateStage::PeelingBranch => self.unless_failed_exec(
                failed,
                String::from_str("Failed to peel branch to commit"),
                IntegrateStage::Annotating,
            ),
            IntegrateStage::FindingRemote => {
                let m = concat3("Remote '", self.remote_name(), "' not found.");
                self.unless_failed_exec(failed, m, IntegrateStage::Resolving)
            },
            IntegrateStage::Resolving => {
                let m = concat3("Branch '", self.branch_name.as_str(), "' not found.");
                self.unless_failed_exec(failed, m, IntegrateStage::Annotating)
            },
            IntegrateStage::Annotating => if pull {
                let m = concat3(
                    "Failed to find annotated commit for branch '",
                    self.branch_name.as_str(),
                    "'",
                );
                self.unless_failed_exec(failed, m, IntegrateStage::Fetching)
            } else {
                self.unless_failed_exec(
                    failed,
                    String::from_str("Failed to find annotated commit for merge"),
                    IntegrateStage::Analyzing,
                )
            },
            IntegrateStage::Fetching => {
                let m = concat5(
                    "Failed to fetch branch '",
                    self.branch_name.as_str(),
                    "' from remote '",
                    self.remote_name(),
                    "'",
                );
                self.unless_failed_exec(failed, m, IntegrateStage::ResolvingFetched)
            },
            IntegrateStage::ResolvingFetched => {
                let m = concat3(
                    "Failed to find fetched commit for branch '",
                    self.branch_name.as_str(),
                    "'",
                );
                self.unless_failed_exec(failed, m, IntegrateStage::AnnotatingFetched)
            },
            IntegrateStage::AnnotatingFetched => {
                let m = concat3(
                    "Failed to find annotated commit for fetched branch '",
                    self.branch_name.as_str(),
                    "'",
                );
                self.unless_failed_exec(failed, m, IntegrateStage::Analyzing)
            },
            IntegrateStage::Analyzing => match reply {
                GitReply::Analysis { up_to_date, fast_forward, normal } => if up_to_date {
                    let m = concat3("Branch '", self.branch_name.as_str(), "' is already up-to-date.");
                    self.stop_exec(m)
                } else if fast_forward {
                    self.go_exec(IntegrateStage::ResolvingTarget)
                } else if normal {
                    self.go_exec(IntegrateStage::Merging)
                } else {
                    self.stop_exec(String::from_str("Merge analysis returned unknown status."))
                },
                _ => self.stop_exec(String::from_str("Failed to perform merge analysis")),
            },
            IntegrateStage::ResolvingTarget => self.unless_failed_exec(
                failed,
                String::from_str("Failed to find reference for fast-forward"),
                IntegrateStage::SettingTarget,
            ),
            IntegrateStage::SettingTarget => self.unless_failed_exec(
                failed,
                String::from_str("Failed to set target for fast-forward"),
                IntegrateStage::CheckingOut,
            ),
            IntegrateStage::CheckingOut => if failed {
                self.stop_exec(String::from_str("Failed to checkout head after fast-forward"))
            } else {
                self.stage = IntegrateStage::Finished;
                finish_ok()
            },
            IntegrateStage::Merging => {
                let m = if pull {
                    String::from_str("Failed to merge fetched changes")
                } else {
                    String::from_str("Failed to merge branches")
                };
                self.unless_failed_exec(failed, m, IntegrateStage::CheckingConflicts)
            },
            IntegrateStage::CheckingConflicts => match reply {
                GitReply::Failed(e) => self.stop_exec(e),
                GitReply::Flag(true) => {
                    let m = if pull {
                        String::from_str(
                            "Merge conflicts detected during pull. Please resolve them manually.",
                        )
                    } else {
                        String::from_str("Merge conflicts detected. Please resolve them manually.")
                    };
                    self.stop_exec(m)
                },
                _ => self.go_exec(IntegrateStage::ReadingSignature),
            },
            IntegrateStage::ReadingSignature => self.unless_failed_exec(
                failed,
                String::from_str("Failed to get repository signature"),
                IntegrateStage::ResolvingHead,
            ),
            IntegrateStage::ResolvingHead => self.unless_failed_exec(
                failed,
                String::from_str("Failed to get HEAD"),
                IntegrateStage::PeelingHead,
            ),
            IntegrateStage::PeelingHead => self.unless_failed_exec(
                failed,
                String::from_str("Failed to peel HEAD to commit"),
                IntegrateStage::FindingIncoming,
            ),
            IntegrateStage::FindingIncoming => self.unless_failed_exec(
                failed,
                String::from_str("Failed to find merge commit"),
                IntegrateStage::OpeningIndex,
            ),
            IntegrateStage::OpeningIndex => match reply {
                GitReply::Failed(e) => self.stop_exec(e),
                _ => self.go_exec(IntegrateStage::WritingTree),
            },
            IntegrateStage::WritingTree => self.unless_failed_exec(
                failed,
                String::from_str("Failed to write tree after merge"),
                IntegrateStage::FindingTree,
            ),
            IntegrateStage::FindingTree => self.unless_failed_exec(
                failed,
                String::from_str("Failed to find tree after merge"),
                IntegrateStage::Committing,
            ),
            _ => if failed {
                let m = if pull {
                    String::from_str("Failed to create commit after pull")
                } else {
                    String::from_str("Failed to create merge commit")
                };
                self.stop_exec(m)
            } else {
                self.stage = IntegrateStage::Finished;
                finish_ok()
            },
        }
    }
}


impl Integrate {
    /// The most calls that the operation can still make.
    pub open spec fn rank(self) -> nat {
        match self.stage {
            IntegrateStage::Opening => 19,
            IntegrateStage::ReadingHead => 18,
            IntegrateStage::FindingBranch => 17,
            IntegrateStage::PeelingBranch => 16,
            IntegrateStage::FindingRemote => 17,
            IntegrateStage::Resolving => 16,
            IntegrateStage::Annotating => 15,
            IntegrateStage::Fetching => 14,
            IntegrateStage::ResolvingFetched => 13,
            IntegrateStage::AnnotatingFetched => 12,
            IntegrateStage::Analyzing => 11,
            IntegrateStage::Merging => 10,
            IntegrateStage::CheckingConflicts => 9,
            IntegrateStage::ReadingSignature => 8,
            IntegrateStage::ResolvingHead => 7,
            IntegrateStage::PeelingHead => 6,
            IntegrateStage::FindingIncoming => 5,
            IntegrateStage::OpeningIndex => 4,
            IntegrateStage::WritingTree => 3,
            IntegrateStage::FindingTree => 2,
            IntegrateStage::Committing => 1,
            IntegrateStage::ResolvingTarget => 3,
            IntegrateStage::SettingTarget => 2,
            IntegrateStage::CheckingOut => 1,
            IntegrateStage::Finished => 0,
        }
    }

    /// The operation in another stage.
    pub open spec fn with_stage(self, stage: IntegrateStage) -> Integrate {
        Integrate { stage, ..self }
    }

    /// The steps that the operation takes for a sequence of replies, from its
    /// current stage, until it ends or the replies run out.
    pub open spec fn run(self, replies: Seq<GitReplyView>) -> Seq<GitStepView>
        decreases replies.len(),
    {
        if replies.len() == 0 || self.stage == IntegrateStage::Finished {
            Seq::empty()
        } else {
            let (stage, step) = self.transition(replies[0]);
            seq![step] + self.with_stage(stage).run(replies.drop_first())
        }
    }

    /// The call that reply `j` of a run answers.
    pub open spec fn asked(self, replies: Seq<GitReplyView>, j: int) -> GitRequestView {
        if j == 0 {
            self.pending()
        } else {
            self.run(replies)[j - 1]->Request_0
        }
    }
}

/// Starts merging the local branch `branch_name` into the current branch of
/// the repository at `repo_path`.
pub fn merge_branch(repo_path: &str, branch_name: &str) -> (r: (Integrate, GitRequest))
    ensures
        r.0.repo_path@ == repo_path@ && r.0.branch_name@ == branch_name@,
        r.0.remote is None,
        r.0.stage == IntegrateStage::Opening,
        r.1@ == r.0.pending(),
{
    let op = Integrate {
        repo_path: String::from_str(repo_path),
        branch_name: String::from_str(branch_name),
        remote: None,
        stage: IntegrateStage::Opening,
    };
    let first = op.request_for(IntegrateStage::Opening);
    (op, first)
}

/// Starts pulling `branch_name` from the remote `remote_name` into the
/// current branch of the repository at `repo_path`.
pub fn pull_branch(repo_path: &str, remote_name: &str, branch_name: &str) -> (r: (
    Integrate,
    GitRequest,
))
    ensures
        r.0.repo_path@ == repo_path@ && r.0.branch_name@ == branch_name@,
        r.0.remote matches Some(n) && n@ == remote_name@,
        r.0.stage == IntegrateStage::Opening,
        r.1@ == r.0.pending(),
{
    let op = Integrate {
        repo_path: String::from_str(repo_path),
        branch_name: String::from_str(branch_name),
        remote: Some(String::from_str(remote_name)),
        stage: IntegrateStage::Opening,
    };
    let first = op.request_for(IntegrateStage::Opening);
    (op, first)
}


// ---------------------------------------------------------------------------
// add_remote, remove_remote and push_branch
// ---------------------------------------------------------------------------

/// The call that a remote operation waits on: opening the repository, or
/// the one call that it then makes (for a push, finding the remote first).
#[derive(Clone, Copy, Debug, PartialEq, Eq, Structural)]
pub enum RemoteStage {
    Opening,
    FindingRemote,
    Acting,
    Finished,
}

/// What a remote operation does.
pub enum RemoteTask {
    /// Adds a remote repository.
    Add { name: String, url: String },
    /// Removes a remote repository.
    Remove { name: String },
    /// Pushes the branch `branch` to the remote `remote`.
    Push { remote: String, branch: String },
}

pub struct RemoteOp {
    pub repo_path: String,
    pub task: RemoteTask,
    pub stage: RemoteStage,
}

/// The refspec that pushes the local branch `b` to the branch of the same name.
pub open spec fn push_refspec(b: Seq<char>) -> Seq<char> {
    local_ref(b) + ":"@ + local_ref(b)
}

impl RemoteOp {
    /// The call that does the work, once the repository (and for a push, the
    /// remote) is there.
    pub open spec fn action(&self) -> GitRequestView {
        match self.task {
            RemoteTask::Add { name, url } => GitRequestView::AddRemote { name: name@, url: url@ },
            RemoteTask::Remove { name } => GitRequestView::DeleteRemote(name@),
            RemoteTask::Push { remote, branch } => GitRequestView::PushRefspec(push_refspec(branch@)),
        }
    }

    /// The error reported where that call fails.
    pub open spec fn action_error(&self) -> Seq<char> {
        match self.task {
            RemoteTask::Add { name, url } => "Failed to add remote '"@ + name@ + "' with URL '"@
                + url@ + "'"@,
            RemoteTask::Remove { name } => "Failed to remove remote '"@ + name@ + "'"@,
            RemoteTask::Push { remote, branch } => "Failed to push branch '"@ + branch@
                + "' to remote '"@ + remote@ + "'"@,
        }
    }

    pub open spec fn pending(&self) -> GitRequestView {
        match self.stage {
            RemoteStage::Opening => GitRequestView::OpenRepository(self.repo_path@),
            RemoteStage::FindingRemote => GitRequestView::FindRemote(
                match self.task {
                    RemoteTask::Push { remote, .. } => remote@,
                    _ => ""@,
                },
            ),
            _ => self.action(),
        }
    }

    pub open spec fn transition(&self, reply: GitReplyView) -> (RemoteStage, GitStepView) {
        match self.stage {
            RemoteStage::Opening => if reply is Failed {
                (RemoteStage::Finished, fail(open_error(self.repo_path@)))
            } else {
                match self.task {
                    RemoteTask::Push { remote, .. } => (
                        RemoteStage::FindingRemote,
                        GitStepView::Request(GitRequestView::FindRemote(remote@)),
                    ),
                    _ => (RemoteStage::Acting, GitStepView::Request(self.action())),
                }
            },
            RemoteStage::FindingRemote => if reply is Failed {
                (
                    RemoteStage::Finished,
                    fail(
                        "Remote '"@ + match self.task {
                            RemoteTask::Push { remote, .. } => remote@,
                            _ => ""@,
                        } + "' not found."@,
                    ),
                )
            } else {
                (RemoteStage::Acting, GitStepView::Request(self.action()))
            },
            _ => if reply is Failed {
                (RemoteStage::Finished, fail(self.action_error()))
            } else {
                (RemoteStage::Finished, succeed())
            },
        }
    }

    fn action_exec(&self) -> (r: GitRequest)
        ensures
            r@ == self.action(),
    {
        match &self.task {
            RemoteTask::Add { name, url } => GitRequest::AddRemote {
                name: name.clone(),
                url: url.clone(),
            },
            RemoteTask::Remove { name } => GitRequest::DeleteRemote(name.clone()),
            RemoteTask::Push { remote: _, branch } => {
                let r = local_ref_text(branch);
                GitRequest::PushRefspec(concat3(r.as_str(), ":", r.as_str()))
            },
        }
    }

    fn action_error_exec(&self) -> (t: String)
        ensures
            t@ == self.action_error(),
    {
        match &self.task {
            RemoteTask::Add { name, url } => concat5(
                "Failed to add remote '",
                name.as_str(),
                "' with URL '",
                url.as_str(),
                "'",
            ),
            RemoteTask::Remove { name } => concat3("Failed to remove remote '", name.as_str(), "'"),
            RemoteTask::Push { remote, branch } => concat5(
                "Failed to push branch '",
                branch.as_str(),
                "' to remote '",
                remote.as_str(),
                "'",
            ),
        }
    }

    fn remote_name(&self) -> (t: &str)
        ensures
            t@ == match self.task {
                RemoteTask::Push { remote, .. } => remote@,
                _ => ""@,
            },
    {
        match &self.task {
            RemoteTask::Push { remote, .. } => remote.as_str(),
            _ => "",
        }
    }

    pub fn next(&mut self, reply: GitReply) -> (step: GitStep)
        requires
            old(self).stage != RemoteStage::Finished,
            reply_fits(old(self).pending(), reply@),
        ensures
            final(self).repo_path == old(self).repo_path,
            final(self).task == old(self).task,
            (final(self).stage, step@) == old(self).transition(reply@),
            step is Request ==> step->Request_0@ == final(self).pending(),
    {
        let failed = match reply {
            GitReply::Failed(_) => true,
            _ => false,
        };
        match self.stage {
            RemoteStage::Opening => if failed {
                self.stage = RemoteStage::Finished;
                finish_err(open_error_text(&self.repo_path))
            } else {
                match &self.task {
                    RemoteTask::Push { remote, .. } => {
                        let r = remote.clone();
                        self.stage = RemoteStage::FindingRemote;
                        request(GitRequest::FindRemote(r))
                    },
                    _ => {
                        let r = self.action_exec();
                        self.stage = RemoteStage::Acting;
                        request(r)
                    },
                }
            },
            RemoteStage::FindingRemote => if failed {
                let m = concat3("Remote '", self.remote_name(), "' not found.");
                self.stage = RemoteStage::Finished;
                finish_err(m)
            } else {
                let r = self.action_exec();
                self.stage = RemoteStage::Acting;
                request(r)
            },
            _ => if failed {
                let m = self.action_error_exec();
                self.stage = RemoteStage::Finished;
                finish_err(m)
            } else {
                self.stage = RemoteStage::Finished;
                finish_ok()
            },
        }
    }

    fn start(repo_path: &str, task: RemoteTask) -> (r: (RemoteOp, GitRequest))
        ensures
            r.0.repo_path@ == repo_path@ && r.0.task == task,
            r.0.stage == RemoteStage::Opening,
            r.1@ == r.0.pending(),
    {
        let op = RemoteOp {
            repo_path: String::from_str(repo_path),
            task,
            stage: RemoteStage::Opening,
        };
        let first = GitRequest::OpenRepository(op.repo_path.clone());
        (op, first)
    }
}


impl RemoteOp {
    /// The most calls that the operation can still make.
    pub open spec fn rank(self) -> nat {
        match self.stage {
            RemoteStage::Opening => 3,
            RemoteStage::FindingRemote => 2,
            RemoteStage::Acting => 1,
            RemoteStage::Finished => 0,
        }
    }

    /// The operation in another stage.
    pub open spec fn with_stage(self, stage: RemoteStage) -> RemoteOp {
        RemoteOp { stage, ..self }
    }

    /// The steps that the operation takes for a sequence of replies, from its
    /// current stage, until it ends or the replies run out.
    pub open spec fn run(self, replies: Seq<GitReplyView>) -> Seq<GitStepView>
        decreases replies.len(),
    {
        if replies.len() == 0 || self.stage == RemoteStage::Finished {
            Seq::empty()
        } else {
            let (stage, step) = self.transition(replies[0]);
            seq![step] + self.with_stage(stage).run(replies.drop_first())
        }
    }

    /// The call that reply `j` of a run answers.
    pub open spec fn asked(self, replies: Seq<GitReplyView>, j: int) -> GitRequestView {
        if j == 0 {
            self.pending()
        } else {
            self.run(replies)[j - 1]->Request_0
        }
    }
}

/// Starts adding the remote `remote_name` at `remote_url` to the repository
/// at `repo_path`.
pub fn add_remote(repo_path: &str, remote_name: &str, remote_url: &str) -> (r: (RemoteOp, GitRequest))
    ensures
        r.0.repo_path@ == repo_path@,
        r.0.task matches RemoteTask::Add { name, url } && name@ == remote_name@ && url@
            == remote_url@,
        r.0.stage == RemoteStage::Opening,
        r.1@ == r.0.pending(),
{
    RemoteOp::start(
        repo_path,
        RemoteTask::Add { name: String::from_str(remote_name), url: String::from_str(remote_url) },
    )
}

/// Starts removing the remote `remote_name` from the repository at `repo_path`.
pub fn remove_remote(repo_path: &str, remote_name: &str) -> (r: (RemoteOp, GitRequest))
    ensures
        r.0.repo_path@ == repo_path@,
        r.0.task matches RemoteTask::Remove { name } && name@ == remote_name@,
        r.0.stage == RemoteStage::Opening,
        r.1@ == r.0.pending(),
{
    RemoteOp::start(repo_path, RemoteTask::Remove { name: String::from_str(remote_name) })
}

/// Starts pushing the local branch `branch_name` to the remote `remote_name`.
pub fn push_branch(repo_path: &str, remote_name: &str, branch_name: &str) -> (r: (
    RemoteOp,
    GitRequest,
))
    ensures
        r.0.repo_path@ == repo_path@,
        r.0.task matches RemoteTask::Push { remote, branch } && remote@ == remote_name@ && branch@
            == branch_name@,
        r.0.stage == RemoteStage::Opening,
        r.1@ == r.0.pending(),
{
    RemoteOp::start(
        repo_path,
        RemoteTask::Push {
            remote: String::from_str(remote_name),
            branch: String::from_str(branch_name),
        },
    )
}

} // verus!
