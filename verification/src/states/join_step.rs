use vstd::prelude::*;

use crate::command::Command;
use crate::members::Members;
use crate::outcome::Outcome;
use crate::state::{join_members, join_outcome};

verus! {

/// A membership command applied to the current members.
pub struct JoinStep {
    outcomes: Vec<Outcome>,
    members: Members,
}

impl JoinStep {
    pub closed spec fn outcomes_spec(&self) -> Seq<Outcome> {
        self.outcomes@
    }

    pub closed spec fn members_spec(&self) -> Seq<u64> {
        self.members@
    }

    pub fn new(members: Members, command: &Command) -> (r: Self)
        requires
            command.is_join(),
        ensures
            r.outcomes_spec() == seq![join_outcome(members@, *command)],
            r.members_spec() == join_members(members@, *command),
    {
        match command {
            Command::JoinRequested { peer_id } => JoinStep {
                outcomes: vec![Outcome::EmitJoinRequest { peer_id: *peer_id }],
                members,
            },
            Command::JoinApproved { peer_id } => {
                if members.is_member(*peer_id) {
                    JoinStep {
                        outcomes: vec![Outcome::DuplicateMemberIgnored { peer_id: *peer_id }],
                        members,
                    }
                } else {
                    JoinStep {
                        outcomes: vec![Outcome::MemberAdmitted { peer_id: *peer_id }],
                        members: members.with_admitted(*peer_id),
                    }
                }
            },
            Command::JoinRejected { peer_id } => JoinStep {
                outcomes: vec![Outcome::JoinDenied { peer_id: *peer_id }],
                members,
            },
            _ => JoinStep { outcomes: Vec::new(), members },
        }
    }

    pub fn outcomes(&self) -> (r: &[Outcome])
        ensures
            r@ == self.outcomes_spec(),
    {
        self.outcomes.as_slice()
    }

    pub fn members(&self) -> (r: &Members)
        ensures
            r@ == self.members_spec(),
    {
        &self.members
    }
}

} // verus!
