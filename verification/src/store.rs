use std::collections::HashMap;

use vstd::prelude::*;

use crate::error::{ErrorModel, GixError};

verus! {

broadcast use vstd::std_specs::hash::group_hash_axioms;

/// The handle that the first repository put into a fresh table receives.
pub open spec fn first_handle() -> u32 {
    1
}

/// The handle given out after `id`: the next one, wrapping round to zero
/// after the largest.
pub open spec fn handle_after(id: u32) -> u32 {
    if id == u32::MAX {
        0
    } else {
        (id + 1) as u32
    }
}

/// What a lookup of `raw_id` in a table holding `handles` gives: the
/// repository, or the reason there is none.
pub open spec fn lookup<R>(handles: Map<u32, R>, raw_id: u64) -> Result<R, ErrorModel> {
    if raw_id > u32::MAX {
        Err(ErrorModel::IdOutOfRange(raw_id))
    } else if !handles.contains_key(raw_id as u32) {
        Err(ErrorModel::InvalidRepoId(raw_id as u32))
    } else {
        Ok(handles[raw_id as u32])
    }
}

/// What closing `raw_id` does to a table holding `handles`: the handles left,
/// or the reason nothing was closed.
pub open spec fn close_outcome<R>(handles: Map<u32, R>, raw_id: u64) -> Result<
    Map<u32, R>,
    ErrorModel,
> {
    if raw_id > u32::MAX {
        Err(ErrorModel::IdOutOfRange(raw_id))
    } else if !handles.contains_key(raw_id as u32) {
        Err(ErrorModel::InvalidRepoId(raw_id as u32))
    } else {
        Ok(handles.remove(raw_id as u32))
    }
}

/// Every handle held lies between 1 and the next handle to be given,
/// exclusive (the counter itself being at least 1).
pub open spec fn held_below<R>(handles: Map<u32, R>, next: u32) -> bool {
    &&& 1 <= next
    &&& forall|k: u32| #[trigger] handles.contains_key(k) ==> 1 <= k < next
}

/// The table of open repositories, each under the 32-bit handle that it
/// was given when it was put in.
pub struct RepoStore<R> {
    repos: HashMap<u32, R>,
    next_id: u32,
    wrapped: Ghost<bool>,
}

impl<R> RepoStore<R> {
    /// Until the handle counter has wrapped round, every handle held lies
    /// between 1 and the next handle to be given, exclusive.
    #[verifier::type_invariant]
    closed spec fn handles_below_next(self) -> bool {
        !self.wrapped@ ==> {
            &&& 1 <= self.next_id
            &&& forall|k: u32| #[trigger] self.repos@.contains_key(k) ==> 1 <= k < self.next_id
        }
    }

    /// The open repositories, by handle.
    pub closed spec fn handles(&self) -> Map<u32, R> {
        self.repos@
    }

    /// The handle that the next repository put in will receive.
    pub closed spec fn next_handle(&self) -> u32 {
        self.next_id
    }

    /// Whether the largest handle has been given out, so that the counter
    /// has started again from zero.
    pub closed spec fn has_wrapped(&self) -> bool {
        self.wrapped@
    }

    /// An empty table, whose first handle is 1.
    pub fn new() -> (store: Self)
        ensures
            store.handles() == Map::<u32, R>::empty(),
            store.next_handle() == first_handle(),
            store.next_handle() == 1,
            !store.has_wrapped(),
            held_below(store.handles(), store.next_handle()),
    {
        let store = RepoStore { repos: HashMap::new(), next_id: 1, wrapped: Ghost(false) };
        proof {
            use_type_invariant(&store);
        }
        store
    }

    /// Converts a handle as the caller passes it to a table key: one that
    /// does not fit in 32 bits is refused.
    pub fn handle_of(raw_id: u64) -> (r: Result<u32, GixError>)
        ensures
            match r {
                Ok(id) => raw_id <= u32::MAX && id == raw_id,
                Err(e) => raw_id > u32::MAX && e@ == ErrorModel::IdOutOfRange(raw_id),
            },
    {
        if raw_id <= u32::MAX as u64 {
            Ok(raw_id as u32)
        } else {
            Err(GixError::IdOutOfRange(raw_id))
        }
    }

    /// Puts a repository into the table under a fresh handle and returns the
    /// handle. Handles are handed out in order from 1 and wrap round after
    /// the largest, in which case the repository under the reused handle is
    /// replaced. Until then the handle given is held by no repository, and
    /// every handle given later is larger.
    pub fn put_repo(&mut self, repo: R) -> (id: u32)
        ensures
            id == old(self).next_handle(),
            final(self).handles() == old(self).handles().insert(id, repo),
            final(self).next_handle() == handle_after(id),
            final(self).has_wrapped() == (old(self).has_wrapped() || id == u32::MAX),
            !old(self).has_wrapped() ==> 1 <= id && !old(self).handles().contains_key(id),
            !final(self).has_wrapped() ==> id < final(self).next_handle(),
            !final(self).has_wrapped() ==> held_below(final(self).handles(), final(self).next_handle()),
    {
        proof {
            use_type_invariant(&*self);
        }
        let id = self.next_id;
        proof {
            self.wrapped@ = self.wrapped@ || id == u32::MAX;
        }
        self.next_id = self.next_id.wrapping_add(1);
        let mut repos: HashMap<u32, R> = HashMap::new();
        std::mem::swap(&mut repos, &mut self.repos);
        let ghost before = repos@;
        repos.insert(id, repo);
        assert(forall|k: u32| #[trigger] repos@.contains_key(k) ==> before.contains_key(k) || k == id);
        self.repos = repos;
        id
    }

    /// The repository under `raw_id`.
    pub fn repo(&self, raw_id: u64) -> (r: Result<&R, GixError>)
        ensures
            match r {
                Ok(repo) => lookup(self.handles(), raw_id) == Ok::<R, ErrorModel>(*repo),
                Err(e) => lookup(self.handles(), raw_id) == Err::<R, ErrorModel>(e@),
            },
    {
        let id = Self::handle_of(raw_id)?;
        match self.repos.get(&id) {
            Some(repo) => Ok(repo),
            None => Err(GixError::InvalidRepoId(id)),
        }
    }

    /// Runs `f` on the repository under `raw_id` and returns what it
    /// returns; fails without calling it where there is no such repository.
    pub fn with_repo<T, F: FnOnce(&R) -> Result<T, GixError>>(&self, raw_id: u64, f: F) -> (r:
        Result<T, GixError>)
        requires
            forall|repo: &R| f.requires((repo,)),
        ensures
            match lookup(self.handles(), raw_id) {
                Ok(repo) => f.ensures((&repo,), r),
                Err(e) => r matches Err(err) && err@ == e,
            },
    {
        let repo = self.repo(raw_id)?;
        f(repo)
    }

    /// Closes the repository under `raw_id`, taking it out of the table. The
    /// counter is untouched, so the closed handle stays below it.
    pub fn close(&mut self, raw_id: u64) -> (r: Result<(), GixError>)
        ensures
            match close_outcome(old(self).handles(), raw_id) {
                Ok(left) => r is Ok && final(self).handles() == left,
                Err(e) => r matches Err(err) && err@ == e && final(self).handles() == old(
                    self,
                ).handles(),
            },
            final(self).next_handle() == old(self).next_handle(),
            final(self).has_wrapped() == old(self).has_wrapped(),
            !final(self).has_wrapped() ==> held_below(final(self).handles(), final(self).next_handle()),
    {
        proof {
            use_type_invariant(&*self);
        }
        let id = Self::handle_of(raw_id)?;
        let mut repos: HashMap<u32, R> = HashMap::new();
        std::mem::swap(&mut repos, &mut self.repos);
        let ghost before = repos@;
        let removed = repos.remove(&id);
        assert(forall|k: u32| #[trigger] repos@.contains_key(k) ==> before.contains_key(k));
        self.repos = repos;
        match removed {
            Some(_) => Ok(()),
            None => Err(GixError::InvalidRepoId(id)),
        }
    }
}

/// A repository put into the table is found under the handle it was given.
pub proof fn law_lookup_after_put<R>(handles: Map<u32, R>, id: u32, repo: R)
    ensures
        lookup(handles.insert(id, repo), id as u64) == Ok::<R, ErrorModel>(repo),
{
}

/// Putting a repository in changes what no other handle finds.
pub proof fn law_put_keeps_other_handles<R>(handles: Map<u32, R>, id: u32, repo: R, raw_id: u64)
    requires
        raw_id != id as u64,
    ensures
        lookup(handles.insert(id, repo), raw_id) == lookup(handles, raw_id),
{
}

/// Once a handle is closed, it finds nothing, and closing it again fails.
pub proof fn law_closed_handle_is_gone<R>(handles: Map<u32, R>, raw_id: u64)
    requires
        close_outcome(handles, raw_id) is Ok,
    ensures
        ({
            let left = close_outcome(handles, raw_id)->Ok_0;
            &&& lookup(left, raw_id) == Err::<R, ErrorModel>(
                ErrorModel::InvalidRepoId(raw_id as u32),
            )
            &&& close_outcome(left, raw_id) == Err::<Map<u32, R>, ErrorModel>(
                ErrorModel::InvalidRepoId(raw_id as u32),
            )
        }),
{
}

/// Closing a handle changes what no other handle finds.
pub proof fn law_close_keeps_other_handles<R>(handles: Map<u32, R>, raw_id: u64, other: u64)
    requires
        close_outcome(handles, raw_id) is Ok,
        other != raw_id,
    ensures
        lookup(close_outcome(handles, raw_id)->Ok_0, other) == lookup(handles, other),
{
}

/// A handle can be closed exactly when a lookup finds a repository under it,
/// and both refuse it for the same reason otherwise.
pub proof fn law_close_agrees_with_lookup<R>(handles: Map<u32, R>, raw_id: u64)
    ensures
        close_outcome(handles, raw_id) is Ok <==> lookup(handles, raw_id) is Ok,
        lookup(handles, raw_id) is Err ==> close_outcome(handles, raw_id)->Err_0 == lookup(
            handles,
            raw_id,
        )->Err_0,
{
}

/// A handle that does not fit in 32 bits finds nothing and closes nothing,
/// whatever the table holds.
pub proof fn law_wide_handle_refused<R>(handles: Map<u32, R>, raw_id: u64)
    requires
        raw_id > u32::MAX,
    ensures
        lookup(handles, raw_id) == Err::<R, ErrorModel>(ErrorModel::IdOutOfRange(raw_id)),
        close_outcome(handles, raw_id) == Err::<Map<u32, R>, ErrorModel>(
            ErrorModel::IdOutOfRange(raw_id),
        ),
{
}

/// Two repositories put in one after the other receive different handles.
pub proof fn law_successive_handles_differ(id: u32)
    ensures
        handle_after(id) != id,
{
}

/// The handle that the `n`-th repository put in receives (counting from
/// zero) once the counter stands at `start`; closing a handle leaves the
/// counter as it is.
pub open spec fn handle_after_from(start: u32, n: nat) -> u32
    decreases n,
{
    if n == 0 {
        start
    } else {
        handle_after(handle_after_from(start, (n - 1) as nat))
    }
}

/// Until the counter wraps, handles are given out one after the other:
/// from a fresh table, 1, 2, 3, ...
pub proof fn law_handles_count_up(start: u32, n: nat)
    requires
        start as nat + n <= u32::MAX,
    ensures
        handle_after_from(start, n) == start + n,
    decreases n,
{
    if n > 0 {
        law_handles_count_up(start, (n - 1) as nat);
    }
}

/// A handle once given out is not given out again before the counter
/// wraps: a handle held (or closed) lies below the counter, and every
/// handle given later is at least the counter.
pub proof fn law_handle_not_reissued(given: u32, next: u32, n: nat)
    requires
        given < next,
        next as nat + n <= u32::MAX,
    ensures
        handle_after_from(next, n) != given,
{
    law_handles_count_up(next, n);
}

/// The handles held after putting `repos` in, in order, into a table
/// holding `handles` whose counter stands at `next` (each put stores its
/// repository under the counter and then advances it).
pub open spec fn handles_after_puts<R>(handles: Map<u32, R>, next: u32, repos: Seq<R>) -> Map<
    u32,
    R,
>
    decreases repos.len(),
{
    if repos.len() == 0 {
        handles
    } else {
        handles_after_puts(handles.insert(next, repos[0]), handle_after(next), repos.drop_first())
    }
}

/// A closed handle stays closed: however many repositories are put in
/// afterwards (so long as the counter does not wrap), a lookup under it
/// still finds nothing.
pub proof fn law_closed_handle_stays_closed<R>(
    handles: Map<u32, R>,
    next: u32,
    closed: u32,
    repos: Seq<R>,
)
    requires
        held_below(handles, next),
        closed < next,
        !handles.contains_key(closed),
        next as nat + repos.len() <= u32::MAX,
    ensures
        lookup(handles_after_puts(handles, next, repos), closed as u64) == Err::<R, ErrorModel>(
            ErrorModel::InvalidRepoId(closed),
        ),
    decreases repos.len(),
{
    if repos.len() > 0 {
        let h2 = handles.insert(next, repos[0]);
        let n2 = handle_after(next);
        assert(held_below(h2, n2));
        law_closed_handle_stays_closed(h2, n2, closed, repos.drop_first());
    }
}

} // verus!
