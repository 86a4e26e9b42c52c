//! The directory service: coordinates between the persistence gateway and
//! the cache, and is the sole caller of cache mutation from request-handling
//! code. Calls that cross the process boundary are made by the caller; their
//! outcomes are passed in, and the service decides what the cache becomes.

use vstd::prelude::*;

verus! {

use crate::cache::snapshot_map;
use crate::cache::DirectoryCache;
use crate::errors::DirectoryError;
use crate::protocol::decode;
use crate::protocol::grammar_parts;
use crate::protocol::lemma_parts_unique;
use crate::protocol::matches_grammar;
use crate::protocol::Action;
use crate::schema::Circle;
use crate::schema::CircleView;
use crate::toggle::joined_message;
use crate::toggle::left_message;
use crate::toggle::toggle;
use crate::toggle::RoleSet;

/// A persistence-gateway call failed: the gateway was unreachable, the
/// query errored, or the fetch was cut short.
#[derive(Debug, Clone, Copy, PartialEq, Eq, Structural)]
pub struct GatewayFault;

/// Coordinates between the persistence gateway and the directory cache.
/// Its abstract value is the cache's mapping.
pub struct DirectoryService {
    cache: DirectoryCache,
}

impl View for DirectoryService {
    type V = Map<Seq<char>, CircleView>;

    closed spec fn view(&self) -> Map<Seq<char>, CircleView> {
        self.cache@
    }
}

impl DirectoryService {
    /// The service's internal invariant.
    pub closed spec fn wf(&self) -> bool {
        self.cache.wf()
    }

    /// A service over an empty cache, as at process start.
    pub fn new() -> (s: DirectoryService)
        ensures
            s.wf(),
            s@ == Map::<Seq<char>, CircleView>::empty(),
    {
        DirectoryService { cache: DirectoryCache::new() }
    }

    /// Full refresh: the caller fetches the complete circle collection from
    /// the persistence gateway and passes the outcome in. On success every
    /// fetched record is merged by identifier — never deleting entries the
    /// snapshot misses — and the number of records merged is returned. On a
    /// failed or cut-short fetch nothing is merged and the call fails with
    /// `UpstreamFailure`, leaving the prior cache state intact.
    pub fn recache(&mut self, fetched: Result<Vec<Circle>, GatewayFault>) -> (r: Result<
        usize,
        DirectoryError,
    >)
        requires
            old(self).wf(),
        ensures
            final(self).wf(),
            match fetched {
                Ok(records) => {
                    &&& final(self)@ == old(self)@.union_prefer_right(snapshot_map(records@))
                    &&& (r matches Ok(n) && n as nat == records@.len())
                },
                Err(_) => {
                    &&& final(self)@ == old(self)@
                    &&& r == Err::<usize, DirectoryError>(DirectoryError::UpstreamFailure)
                },
            },
    {
        match fetched {
            Ok(records) => Ok(self.cache.merge_snapshot(&records)),
            Err(_) => Err(DirectoryError::UpstreamFailure),
        }
    }

    /// Thin cache lookup: returns a copy of the record cached under the
    /// identifier, or fails with `NotFound` — the standard error path for
    /// interaction handling. Never panics.
    pub fn resolve(&self, id: &str) -> (r: Result<Circle, DirectoryError>)
        requires
            self.wf(),
        ensures
            match r {
                Ok(c) => self@.contains_key(id@) && c@ == self@[id@] && c@.id == id@,
                Err(e) => e == DirectoryError::NotFound && !self@.contains_key(id@),
            },
    {
        match self.cache.get(id) {
            Some(c) => Ok(c),
            None => Err(DirectoryError::NotFound),
        }
    }

    /// Creation: the caller writes the record to the persistence gateway
    /// first and passes the outcome in. On gateway success the record enters
    /// the cache under its identifier; on failure the cache is untouched and
    /// the error surfaces.
    pub fn create(&mut self, outcome: Result<Circle, GatewayFault>) -> (r: Result<
        (),
        DirectoryError,
    >)
        requires
            old(self).wf(),
        ensures
            final(self).wf(),
            match outcome {
                Ok(c) => r is Ok && final(self)@ == old(self)@.insert(c.id@, c@),
                Err(_) => {
                    &&& final(self)@ == old(self)@
                    &&& r == Err::<(), DirectoryError>(DirectoryError::UpstreamFailure)
                },
            },
    {
        match outcome {
            Ok(c) => {
                self.cache.upsert(c);
                Ok(())
            },
            Err(_) => Err(DirectoryError::UpstreamFailure),
        }
    }

    /// Update of display fields: same gateway-first discipline as creation;
    /// on gateway success the returned record overwrites the cached entry.
    pub fn update(&mut self, outcome: Result<Circle, GatewayFault>) -> (r: Result<
        (),
        DirectoryError,
    >)
        requires
            old(self).wf(),
        ensures
            final(self).wf(),
            match outcome {
                Ok(c) => r is Ok && final(self)@ == old(self)@.insert(c.id@, c@),
                Err(_) => {
                    &&& final(self)@ == old(self)@
                    &&& r == Err::<(), DirectoryError>(DirectoryError::UpstreamFailure)
                },
            },
    {
        match outcome {
            Ok(c) => {
                self.cache.upsert(c);
                Ok(())
            },
            Err(_) => Err(DirectoryError::UpstreamFailure),
        }
    }

    /// Deletion: the caller deletes from the persistence gateway first and
    /// passes the outcome in. On gateway success the entry leaves the cache;
    /// deleting an identifier the cache does not hold is a no-op.
    pub fn delete(&mut self, id: &str, outcome: Result<(), GatewayFault>) -> (r: Result<
        (),
        DirectoryError,
    >)
        requires
            old(self).wf(),
        ensures
            final(self).wf(),
            match outcome {
                Ok(_) => r is Ok && final(self)@ == old(self)@.remove(id@),
                Err(_) => {
                    &&& final(self)@ == old(self)@
                    &&& r == Err::<(), DirectoryError>(DirectoryError::UpstreamFailure)
                },
            },
    {
        match outcome {
            Ok(_) => {
                self.cache.remove(id);
                Ok(())
            },
            Err(_) => Err(DirectoryError::UpstreamFailure),
        }
    }

    /// A point-in-time copy of every cached record, for the rendering
    /// component to iterate.
    pub fn list(&self) -> (r: Vec<Circle>)
        requires
            self.wf(),
        ensures
            forall|j: int|
                0 <= j < r@.len() ==> self@.contains_key(#[trigger] r@[j].id@) && r@[j]@
                    == self@[r@[j].id@],
            forall|k: Seq<char>| self@.contains_key(k) ==> exists|j: int|
                0 <= j < r@.len() && r@[j].id@ == k,
    {
        let r = self.cache.list();
        proof {
            assert forall|k: Seq<char>| self@.contains_key(k) implies exists|j: int|
                0 <= j < r@.len() && r@[j].id@ == k by {
                assert(crate::cache::has_id(r@, k));
            }
        }
        r
    }

    /// Routes a button press: decodes the identifier, resolves the circle,
    /// and applies the membership toggle to the user's role set. A press
    /// whose identifier does not match the grammar fails with
    /// `InvalidFormat`; one naming an uncached circle fails with `NotFound`;
    /// a decoded action other than the join toggle answers the default
    /// response and changes nothing.
    pub fn handle_button(&self, roles: &mut RoleSet, user_id: &str, raw: &str) -> (r: Result<
        String,
        DirectoryError,
    >)
        requires
            self.wf(),
            old(roles).wf(),
        ensures
            final(roles).wf(),
            !matches_grammar(raw@) ==> {
                &&& r == Err::<String, DirectoryError>(DirectoryError::InvalidFormat)
                &&& final(roles)@ == old(roles)@
            },
            forall|a: Seq<char>, id: Seq<char>| #[trigger] grammar_parts(raw@, a, id) ==> {
                if !self@.contains_key(id) {
                    &&& r == Err::<String, DirectoryError>(DirectoryError::NotFound)
                    &&& final(roles)@ == old(roles)@
                } else if a == "join"@ {
                    if old(roles)@.contains(id) {
                        &&& final(roles)@ == old(roles)@.remove(id)
                        &&& (r matches Ok(m) && m@ == left_message(self@[id].name))
                    } else {
                        &&& final(roles)@ == old(roles)@.insert(id)
                        &&& (r matches Ok(m) && m@ == joined_message(self@[id].name))
                    }
                } else {
                    &&& final(roles)@ == old(roles)@
                    &&& (r matches Ok(m) && m@ == "Unable to get action"@)
                }
            },
    {
        let (action, id_s) = match decode(raw) {
            Ok(x) => x,
            Err(e) => {
                return Err(e);
            },
        };
        proof {
            assert forall|a: Seq<char>, id: Seq<char>|
                #[trigger] grammar_parts(raw@, a, id) implies a == action.text() && id == id_s@ by {
                lemma_parts_unique(raw@, a, id, action.text(), id_s@);
            }
        }
        let circle = match self.resolve(id_s.as_str()) {
            Ok(c) => c,
            Err(e) => {
                return Err(e);
            },
        };
        match action {
            Action::Join => {
                let plan = toggle(roles, &circle, user_id);
                Ok(plan.confirmation)
            },
            Action::Unrecognized(_) => Ok("Unable to get action".to_owned()),
        }
    }
}

} // verus!
