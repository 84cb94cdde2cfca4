//! The data model: static configuration, the inbound push event, the
//! four-value commit status, and the payload of an outbound status report.
use vstd::prelude::*;

verus! {

/// One configured pipeline step: a command with its arguments, run inside
/// the working copy.
pub struct Task {
    pub name: String,
    pub command: String,
    pub args: Vec<String>,
}

/// Mathematical image of a [`Task`]: every field as a sequence.
#[verifier::ext_equal]
pub struct TaskV {
    pub name: Seq<char>,
    pub command: Seq<char>,
    pub args: Seq<Seq<char>>,
}

impl View for Task {
    type V = TaskV;

    open spec fn view(&self) -> TaskV {
        TaskV {
            name: self.name@,
            command: self.command@,
            args: self.args@.map_values(|a: String| a@),
        }
    }
}

/// Static configuration, loaded once at startup and immutable thereafter.
pub struct Config {
    pub token: String,
    pub main_branch: String,
    pub base_url: String,
    pub tasks: Vec<Task>,
}

/// The outcome classification reported to the source-control host.
/// `Pending` is the only non-terminal state.
#[derive(Clone, Copy, PartialEq, Eq, Structural, Debug)]
pub enum CommitStatus {
    Error,
    Failure,
    Pending,
    Success,
}

/// The wire-level state string for each commit status.
pub open spec fn spec_state_str(s: CommitStatus) -> Seq<char> {
    match s {
        CommitStatus::Error => "error"@,
        CommitStatus::Failure => "failure"@,
        CommitStatus::Pending => "pending"@,
        CommitStatus::Success => "success"@,
    }
}

impl CommitStatus {
    /// Lowercase state name expected by the host's commit-status API.
    pub fn state_str(&self) -> (r: String)
        ensures
            r@ == spec_state_str(*self),
    {
        match self {
            CommitStatus::Error => String::from_str("error"),
            CommitStatus::Failure => String::from_str("failure"),
            CommitStatus::Pending => String::from_str("pending"),
            CommitStatus::Success => String::from_str("success"),
        }
    }

    /// `Pending` is non-terminal; the other three states end a build.
    pub fn is_terminal(&self) -> (r: bool)
        ensures
            r == (*self != CommitStatus::Pending),
    {
        match self {
            CommitStatus::Pending => false,
            _ => true,
        }
    }
}

/// The outcome of one pipeline stage: a status together with its
/// human-readable description.
pub struct CIResult {
    pub status: CommitStatus,
    pub msg: String,
}

/// Mathematical image of a [`CIResult`].
#[verifier::ext_equal]
pub struct CIResultV {
    pub status: CommitStatus,
    pub msg: Seq<char>,
}

impl View for CIResult {
    type V = CIResultV;

    open spec fn view(&self) -> CIResultV {
        CIResultV { status: self.status, msg: self.msg@ }
    }
}

impl CIResult {
    pub fn new(status: CommitStatus, msg: String) -> (r: CIResult)
        ensures
            r.status == status,
            r.msg@ == msg@,
    {
        CIResult { status, msg }
    }
}

/// The repository a push event belongs to.
pub struct Repository {
    pub clone_url: String,
    pub full_name: String,
}

/// A validated push event from the source-control host.
pub struct PushRequest {
    pub before: String,
    pub after: String,
    pub reference: String,
    pub repository: Repository,
}

/// Index of the first character after the last `'/'` of `s`
/// (`0` when `s` holds no `'/'`).
pub open spec fn branch_start(s: Seq<char>) -> int
    decreases s.len(),
{
    if s.len() == 0 {
        0
    } else if s[s.len() - 1] == '/' {
        s.len() as int
    } else {
        branch_start(s.drop_last())
    }
}

/// The branch name carried by a git reference: everything after the last
/// `'/'`, or the whole string when it holds none.
pub open spec fn spec_branch(s: Seq<char>) -> Seq<char> {
    s.subrange(branch_start(s), s.len() as int)
}

impl PushRequest {
    /// The name of the pushed branch, read off the event's git reference
    /// (the segment after the last `'/'`).
    pub fn branch(&self) -> (r: String)
        ensures
            r@ == spec_branch(self.reference@),
    {
        let len = self.reference.as_str().unicode_len();
        let mut start: usize = 0;
        let mut i: usize = 0;
        proof {
            assert(self.reference@.subrange(0, 0) =~= Seq::<char>::empty());
        }
        while i < len
            invariant
                len == self.reference@.len(),
                i <= len,
                start == branch_start(self.reference@.subrange(0, i as int)),
                start <= i,
            decreases len - i,
        {
            let c = self.reference.as_str().get_char(i);
            proof {
                let s = self.reference@;
                let p = s.subrange(0, i + 1);
                assert(p.drop_last() =~= s.subrange(0, i as int));
                assert(p[p.len() - 1] == s[i as int]);
            }
            if c == '/' {
                start = i + 1;
            }
            i += 1;
        }
        proof {
            assert(self.reference@.subrange(0, len as int) =~= self.reference@);
        }
        let sub = self.reference.as_str().substring_char(start, len);
        sub.to_owned()
    }
}

/// The JSON payload of one outbound commit-status report.
pub struct StatusRequestBody {
    pub state: CommitStatus,
    pub description: String,
    pub context: String,
    pub target_url: String,
}

impl StatusRequestBody {
    pub fn new(result: CIResult, context: &str, target_url: &str) -> (r: StatusRequestBody)
        ensures
            r.state == result.status,
            r.description@ == result.msg@,
            r.context@ == context@,
            r.target_url@ == target_url@,
    {
        StatusRequestBody {
            state: result.status,
            description: result.msg,
            context: String::from_str(context),
            target_url: String::from_str(target_url),
        }
    }
}

} // verus!
