//! The membership toggle: converts a decoded `join` action plus a resolved
//! circle into a role-membership change. Current role membership is the only
//! record of membership — there is no persisted join/leave table.

use vstd::prelude::*;

verus! {

use vstd::string::StringExecFns;

use crate::schema::Circle;
use crate::strutil::str_eq;

/// Membership of one user in one circle, as the role system records it.
#[derive(Debug, Clone, Copy, PartialEq, Eq, Structural)]
pub enum MembershipState {
    /// The user does not hold the circle's role.
    NotMember,
    /// The user holds the circle's role.
    Member,
}

/// The role-assignment request that completes a toggle.
#[derive(Debug, Clone, Copy, PartialEq, Eq, Structural)]
pub enum RoleAction {
    /// Grant the circle's role to the user.
    Grant,
    /// Revoke the circle's role from the user.
    Revoke,
}

/// The confirmation returned after a successful join.
pub open spec fn joined_message(name: Seq<char>) -> Seq<char> {
    "You have joined the "@ + name + " circle. Thank you for using circles"@
}

/// The confirmation returned after a successful leave.
pub open spec fn left_message(name: Seq<char>) -> Seq<char> {
    "You have left the "@ + name + " circle. Thank you for using circles"@
}

/// The public notice posted to the circle's channel when a user joins.
pub open spec fn welcome_message(name: Seq<char>, user: Seq<char>) -> Seq<char> {
    "Welcome to the "@ + name + " circle <@"@ + user + ">!"@
}

/// Everything a toggle decides: the role-assignment request to issue, the
/// state reached when that request succeeds, the confirmation for the
/// pressing user, and the public welcome notice, if one is owed.
pub struct TogglePlan {
    /// The role change to request from the role-assignment gateway.
    pub action: RoleAction,
    /// The membership state reached when the role change succeeds.
    pub new_state: MembershipState,
    /// The confirmation message for the pressing user.
    pub confirmation: String,
    /// The public notice for the circle's channel; owed only on a join.
    pub welcome: Option<String>,
}

/// The decision part of a toggle, from the current membership alone: a
/// member is to leave, a non-member is to join and to be welcomed.
pub fn toggle_plan(is_member: bool, c: &Circle, user_id: &str) -> (p: TogglePlan)
    ensures
        p.action == (if is_member { RoleAction::Revoke } else { RoleAction::Grant }),
        p.new_state == (if is_member { MembershipState::NotMember } else { MembershipState::Member }),
        is_member ==> p.confirmation@ == left_message(c.name@) && p.welcome is None,
        !is_member ==> p.confirmation@ == joined_message(c.name@)
            && (p.welcome matches Some(w) && w@ == welcome_message(c.name@, user_id@)),
{
    if is_member {
        let mut m = String::from_str("You have left the ");
        m.append(c.name.as_str());
        m.append(" circle. Thank you for using circles");
        proof {
            assert(m@ =~= left_message(c.name@));
        }
        TogglePlan {
            action: RoleAction::Revoke,
            new_state: MembershipState::NotMember,
            confirmation: m,
            welcome: None,
        }
    } else {
        let mut m = String::from_str("You have joined the ");
        m.append(c.name.as_str());
        m.append(" circle. Thank you for using circles");
        let mut w = String::from_str("Welcome to the ");
        w.append(c.name.as_str());
        w.append(" circle <@");
        w.append(user_id);
        w.append(">!");
        proof {
            assert(m@ =~= joined_message(c.name@));
            assert(w@ =~= welcome_message(c.name@, user_id@));
        }
        TogglePlan {
            action: RoleAction::Grant,
            new_state: MembershipState::Member,
            confirmation: m,
            welcome: Some(w),
        }
    }
}

/// No role identifier is held twice.
pub open spec fn roles_unique(s: Seq<String>) -> bool {
    forall|i: int, j: int|
        0 <= i < s.len() && 0 <= j < s.len() && i != j ==> s[i]@ != s[j]@
}

/// Some held role carries the identifier.
pub open spec fn holds_id(s: Seq<String>, id: Seq<char>) -> bool {
    exists|i: int| 0 <= i < s.len() && s[i]@ == id
}

/// The set of role identifiers one user currently holds. Abstractly a
/// `Set<Seq<char>>`; membership in a circle is exactly holding the role
/// whose identifier equals the circle's identifier.
pub struct RoleSet {
    roles: Vec<String>,
}

impl View for RoleSet {
    type V = Set<Seq<char>>;

    closed spec fn view(&self) -> Set<Seq<char>> {
        Set::new(|id: Seq<char>| holds_id(self.roles@, id))
    }
}

impl RoleSet {
    /// The role set's internal invariant: identifiers are unique.
    pub closed spec fn wf(&self) -> bool {
        roles_unique(self.roles@)
    }

    /// A user holding no roles.
    pub fn new() -> (r: RoleSet)
        ensures
            r.wf(),
            r@ == Set::<Seq<char>>::empty(),
    {
        let r = RoleSet { roles: Vec::new() };
        proof {
            assert(r@ =~= Set::<Seq<char>>::empty());
        }
        r
    }

    /// The index of the held role carrying the identifier, if any.
    fn find(&self, id: &str) -> (r: Option<usize>)
        ensures
            match r {
                Some(i) => i < self.roles@.len() && self.roles@[i as int]@ == id@,
                None => !holds_id(self.roles@, id@),
            },
    {
        let mut i: usize = 0;
        while i < self.roles.len()
            invariant
                i <= self.roles@.len(),
                forall|j: int| 0 <= j < i ==> self.roles@[j]@ != id@,
            decreases self.roles@.len() - i,
        {
            if str_eq(self.roles[i].as_str(), id) {
                return Some(i);
            }
            i += 1;
        }
        None
    }

    /// Whether the user currently holds the role.
    pub fn has_role(&self, id: &str) -> (r: bool)
        ensures
            r == self@.contains(id@),
    {
        self.find(id).is_some()
    }

    /// Grants the role; granting a role already held changes nothing.
    pub fn grant(&mut self, id: &str)
        requires
            old(self).wf(),
        ensures
            final(self).wf(),
            final(self)@ == old(self)@.insert(id@),
    {
        let ghost s = self.roles@;
        match self.find(id) {
            Some(_) => {
                proof {
                    assert(self@ =~= old(self)@.insert(id@));
                }
            },
            None => {
                self.roles.push(id.to_owned());
                proof {
                    let t = self.roles@;
                    let n = s.len() as int;
                    assert forall|k: Seq<char>| holds_id(t, k)
                        implies holds_id(s, k) || k == id@ by {
                        let w = choose|w: int| 0 <= w < t.len() && t[w]@ == k;
                        if w != n {
                            assert(s[w]@ == k);
                        }
                    }
                    assert forall|k: Seq<char>| holds_id(s, k) || k == id@ implies holds_id(t, k) by {
                        if k == id@ {
                            assert(t[n]@ == k);
                        } else {
                            let w = choose|w: int| 0 <= w < s.len() && s[w]@ == k;
                            assert(t[w]@ == k);
                        }
                    }
                    assert(self@ =~= old(self)@.insert(id@));
                }
            },
        }
    }

    /// Revokes the role; revoking a role not held changes nothing.
    pub fn revoke(&mut self, id: &str)
        requires
            old(self).wf(),
        ensures
            final(self).wf(),
            final(self)@ == old(self)@.remove(id@),
    {
        let ghost s = self.roles@;
        match self.find(id) {
            Some(i) => {
                self.roles.remove(i);
                proof {
                    let t = self.roles@;
                    let iv = i as int;
                    assert forall|p: int, q: int|
                        0 <= p < t.len() && 0 <= q < t.len() && p != q
                        implies t[p]@ != t[q]@ by {
                        let sp: int = if p < iv { p } else { p + 1 };
                        let sq: int = if q < iv { q } else { q + 1 };
                        assert(t[p]@ == s[sp]@);
                        assert(t[q]@ == s[sq]@);
                    }
                    assert forall|k: Seq<char>| holds_id(t, k) implies holds_id(s, k) && k != id@ by {
                        let w = choose|w: int| 0 <= w < t.len() && t[w]@ == k;
                        let sw: int = if w < iv { w } else { w + 1 };
                        assert(s[sw]@ == k);
                        assert(sw != iv);
                    }
                    assert forall|k: Seq<char>| holds_id(s, k) && k != id@ implies holds_id(t, k) by {
                        let w = choose|w: int| 0 <= w < s.len() && s[w]@ == k;
                        assert(w != iv);
                        let tw: int = if w < iv { w } else { w - 1 };
                        assert(t[tw]@ == k);
                    }
                    assert(self@ =~= old(self)@.remove(id@));
                }
            },
            None => {
                proof {
                    assert(self@ =~= old(self)@.remove(id@));
                }
            },
        }
    }
}

/// The toggle itself, against a role set: a member leaves, a non-member
/// joins and is owed a welcome notice. Either way the confirmation reflects
/// the state reached.
pub fn toggle(roles: &mut RoleSet, c: &Circle, user_id: &str) -> (p: TogglePlan)
    requires
        old(roles).wf(),
    ensures
        final(roles).wf(),
        old(roles)@.contains(c.id@) ==> {
            &&& final(roles)@ == old(roles)@.remove(c.id@)
            &&& p.action == RoleAction::Revoke
            &&& p.new_state == MembershipState::NotMember
            &&& p.confirmation@ == left_message(c.name@)
            &&& p.welcome is None
        },
        !old(roles)@.contains(c.id@) ==> {
            &&& final(roles)@ == old(roles)@.insert(c.id@)
            &&& p.action == RoleAction::Grant
            &&& p.new_state == MembershipState::Member
            &&& p.confirmation@ == joined_message(c.name@)
            &&& (p.welcome matches Some(w) && w@ == welcome_message(c.name@, user_id@))
        },
{
    let is_member = roles.has_role(c.id.as_str());
    let plan = toggle_plan(is_member, c, user_id);
    if is_member {
        roles.revoke(c.id.as_str());
    } else {
        roles.grant(c.id.as_str());
    }
    plan
}

/// Double toggle: a user who starts as a non-member of a circle and toggles
/// twice is a member after the first toggle, a non-member after the second,
/// holds exactly the roles held at the start — and the two confirmations
/// differ: a joined message followed by a left message.
pub proof fn lemma_double_toggle(roles: Set<Seq<char>>, id: Seq<char>, name: Seq<char>)
    requires
        !roles.contains(id),
    ensures
        roles.insert(id).contains(id),
        !roles.insert(id).remove(id).contains(id),
        roles.insert(id).remove(id) == roles,
        joined_message(name) != left_message(name),
{
    assert(roles.insert(id).remove(id) =~= roles);
    reveal_strlit("You have joined the ");
    reveal_strlit("You have left the ");
    assert(joined_message(name)[9] == 'j');
    assert(left_message(name)[9] == 'l');
}

} // verus!
