//! The working-copy update sequence: clone on first use, then bring the
//! main branch up to date before checking out and refreshing the pushed
//! branch.  The commands are computed here; an unverified executor runs
//! them in order and reports each exit status back to the coordinator.
use vstd::prelude::*;

verus! {

/// Fixed local path of the working copy, relative to the process root.
pub const TARGET_DIR: &'static str = "target_repo";

/// One external command: a program name with its argument list.
pub struct Cmd {
    pub program: String,
    pub args: Vec<String>,
}

/// Mathematical image of a [`Cmd`].
#[verifier::ext_equal]
pub struct CmdV {
    pub program: Seq<char>,
    pub args: Seq<Seq<char>>,
}

impl View for Cmd {
    type V = CmdV;

    open spec fn view(&self) -> CmdV {
        CmdV { program: self.program@, args: self.args@.map_values(|a: String| a@) }
    }
}

/// The exact command sequence that updates the working copy: an initial
/// clone when no copy exists yet, then checkout of the main branch, pull,
/// checkout of the pushed branch, pull.
pub open spec fn spec_update_plan(
    have_copy: bool,
    url: Seq<char>,
    branch: Seq<char>,
    main_branch: Seq<char>,
) -> Seq<CmdV> {
    let tail = seq![
        CmdV { program: "git"@, args: seq!["checkout"@, main_branch] },
        CmdV { program: "git"@, args: seq!["pull"@] },
        CmdV { program: "git"@, args: seq!["checkout"@, branch] },
        CmdV { program: "git"@, args: seq!["pull"@] },
    ];
    if have_copy {
        tail
    } else {
        seq![CmdV { program: "git"@, args: seq!["clone"@, url, "target_repo"@] }] + tail
    }
}

fn git1(a0: &str) -> (c: Cmd)
    ensures
        c@ == (CmdV { program: "git"@, args: seq![a0@] }),
{
    let mut args: Vec<String> = Vec::new();
    args.push(String::from_str(a0));
    let c = Cmd { program: String::from_str("git"), args };
    proof {
        assert(c@.args =~= seq![a0@]);
        assert(c@ =~~= (CmdV { program: "git"@, args: seq![a0@] }));
    }
    c
}

fn git2(a0: &str, a1: &str) -> (c: Cmd)
    ensures
        c@ == (CmdV { program: "git"@, args: seq![a0@, a1@] }),
{
    let mut args: Vec<String> = Vec::new();
    args.push(String::from_str(a0));
    args.push(String::from_str(a1));
    let c = Cmd { program: String::from_str("git"), args };
    proof {
        assert(c@.args =~= seq![a0@, a1@]);
        assert(c@ =~~= (CmdV { program: "git"@, args: seq![a0@, a1@] }));
    }
    c
}

fn git3(a0: &str, a1: &str, a2: &str) -> (c: Cmd)
    ensures
        c@ == (CmdV { program: "git"@, args: seq![a0@, a1@, a2@] }),
{
    let mut args: Vec<String> = Vec::new();
    args.push(String::from_str(a0));
    args.push(String::from_str(a1));
    args.push(String::from_str(a2));
    let c = Cmd { program: String::from_str("git"), args };
    proof {
        assert(c@.args =~= seq![a0@, a1@, a2@]);
        assert(c@ =~~= (CmdV { program: "git"@, args: seq![a0@, a1@, a2@] }));
    }
    c
}

/// Builds the update command sequence, exactly as [`spec_update_plan`]
/// states it.
pub fn update_plan(have_copy: bool, url: &str, branch: &str, main_branch: &str) -> (plan: Vec<
    Cmd,
>)
    ensures
        plan@.map_values(|c: Cmd| c@) == spec_update_plan(have_copy, url@, branch@, main_branch@),
        4 <= plan@.len() <= 5,
{
    let mut plan: Vec<Cmd> = Vec::new();
    if !have_copy {
        plan.push(git3("clone", url, TARGET_DIR));
    }
    plan.push(git2("checkout", main_branch));
    plan.push(git1("pull"));
    plan.push(git2("checkout", branch));
    plan.push(git1("pull"));
    proof {
        assert(TARGET_DIR@ == "target_repo"@);
        assert(plan@.map_values(|c: Cmd| c@) =~~= spec_update_plan(
            have_copy,
            url@,
            branch@,
            main_branch@,
        ));
    }
    plan
}

} // verus!
