use vstd::prelude::*;

use crate::msg::{AddPointsMsg, PointsType};

verus! {

/// Loyalty points recorded for one token.
#[derive(Clone, Copy, Debug, PartialEq, Eq, Structural)]
pub struct PollyaAttributes {
    pub total_points: u128,
    pub poll_creation_points: u128,
    pub poll_vote_points: u128,
}

impl PollyaAttributes {
    /// The total is the sum of the two kinds of points.
    pub open spec fn is_balanced(self) -> bool {
        self.total_points == self.poll_creation_points + self.poll_vote_points
    }

    /// Adding `msg` to these points overflows no counter.
    pub open spec fn can_add(self, msg: AddPointsMsg) -> bool {
        &&& self.total_points + msg.points <= u128::MAX
        &&& match msg.points_type {
            PointsType::PollCreated => self.poll_creation_points + msg.points <= u128::MAX,
            PointsType::PollVoted => self.poll_vote_points + msg.points <= u128::MAX,
        }
    }

    /// These points with `msg` added: the total and the counter of the
    /// kind that `msg` names grow by its points, the other counter stays.
    pub open spec fn added(self, msg: AddPointsMsg) -> PollyaAttributes {
        match msg.points_type {
            PointsType::PollCreated => PollyaAttributes {
                total_points: (self.total_points + msg.points) as u128,
                poll_creation_points: (self.poll_creation_points + msg.points) as u128,
                poll_vote_points: self.poll_vote_points,
            },
            PointsType::PollVoted => PollyaAttributes {
                total_points: (self.total_points + msg.points) as u128,
                poll_creation_points: self.poll_creation_points,
                poll_vote_points: (self.poll_vote_points + msg.points) as u128,
            },
        }
    }

    pub fn can_add_points(&self, msg: &AddPointsMsg) -> (b: bool)
        ensures
            b == self.can_add(*msg),
    {
        let total_ok = self.total_points.checked_add(msg.points).is_some();
        let kind_ok = match msg.points_type {
            PointsType::PollCreated => self.poll_creation_points.checked_add(msg.points).is_some(),
            PointsType::PollVoted => self.poll_vote_points.checked_add(msg.points).is_some(),
        };
        total_ok && kind_ok
    }

    /// The points after `msg` is added to them.
    pub fn with_points(&self, msg: &AddPointsMsg) -> (r: PollyaAttributes)
        requires
            self.can_add(*msg),
        ensures
            r == self.added(*msg),
            r.total_points == self.total_points + msg.points,
            msg.points_type == PointsType::PollCreated ==> r.poll_creation_points
                == self.poll_creation_points + msg.points && r.poll_vote_points
                == self.poll_vote_points,
            msg.points_type == PointsType::PollVoted ==> r.poll_vote_points == self.poll_vote_points
                + msg.points && r.poll_creation_points == self.poll_creation_points,
            self.is_balanced() ==> r.is_balanced(),
    {
        match msg.points_type {
            PointsType::PollCreated => PollyaAttributes {
                total_points: self.total_points + msg.points,
                poll_creation_points: self.poll_creation_points + msg.points,
                poll_vote_points: self.poll_vote_points,
            },
            PointsType::PollVoted => PollyaAttributes {
                total_points: self.total_points + msg.points,
                poll_creation_points: self.poll_creation_points,
                poll_vote_points: self.poll_vote_points + msg.points,
            },
        }
    }
}

/// Adding points keeps the total equal to the sum of the two kinds of
/// points, and lowers no counter.
pub proof fn lemma_added_keeps_balance(points: PollyaAttributes, msg: AddPointsMsg)
    requires
        points.can_add(msg),
    ensures
        points.is_balanced() ==> points.added(msg).is_balanced(),
        points.added(msg).total_points >= points.total_points,
        points.added(msg).poll_creation_points >= points.poll_creation_points,
        points.added(msg).poll_vote_points >= points.poll_vote_points,
{
}

/// The contract's configuration: its admin, the public key that signs
/// points for the admin, and the key of an admin being installed.
#[derive(Clone, Debug)]
pub struct Config {
    pub admin: Option<String>,
    pub admin_pub_key: Option<String>,
    pub transition_admin_pub_key: Option<String>,
}

impl Config {
    /// This configuration with `key` as the key of the admin being
    /// installed; the admin and its key stay.
    pub open spec fn with_transition_key(self, key: String) -> Config {
        Config { transition_admin_pub_key: Some(key), ..self }
    }

    /// This configuration once `new_admin` took over: the key of the admin
    /// being installed becomes the admin's key, and none is being installed.
    pub open spec fn handed_over_to(self, new_admin: String) -> Config {
        Config {
            admin: Some(new_admin),
            admin_pub_key: self.transition_admin_pub_key,
            transition_admin_pub_key: None,
        }
    }
}

impl Default for PollyaAttributes {
    fn default() -> (r: Self)
        ensures
            r.total_points == 0,
            r.poll_creation_points == 0,
            r.poll_vote_points == 0,
    {
        PollyaAttributes { total_points: 0, poll_creation_points: 0, poll_vote_points: 0 }
    }
}

} // verus!
