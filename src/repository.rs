use vstd::prelude::*;
use vstd::string::*;
use std::collections::HashMap;
use crate::error::AppError;
use crate::user::User;

verus! {

broadcast use vstd::std_specs::hash::group_hash_axioms;

/// A store of entities of type `T`, addressed by numeric ids.
pub trait Repository<T> {
    type Error;

    fn find_by_id(&self, id: u64) -> Result<Option<T>, Self::Error>;

    fn save(&mut self, entity: &T) -> Result<u64, Self::Error>;

    fn delete(&mut self, id: u64) -> Result<bool, Self::Error>;
}

/// An in-memory repository of users, keyed by user id. A saved user gets
/// the id one past the number of users stored at that moment.
pub struct UserRepository {
    users: HashMap<u64, User>,
}

impl View for UserRepository {
    type V = Map<u64, User>;

    closed spec fn view(&self) -> Map<u64, User> {
        self.users@
    }
}

/// A repository holds finitely many users.
pub proof fn lemma_repository_finite(repo: &UserRepository)
    ensures
        repo@.dom().finite(),
{
    assert(repo.users@.dom().finite());
}

impl UserRepository {
    /// An empty repository.
    pub fn new() -> (r: Self)
        ensures
            r@ == Map::<u64, User>::empty(),
            r@.dom().finite(),
    {
        UserRepository { users: HashMap::new() }
    }

    /// The number of stored users.
    pub fn len(&self) -> (r: usize)
        ensures
            r == self@.len(),
            self@.dom().finite(),
    {
        self.users.len()
    }
}

/// `e` is a database error.
pub open spec fn is_database_error(e: AppError) -> bool {
    e is DatabaseError
}

impl Repository<User> for UserRepository {
    type Error = AppError;

    fn find_by_id(&self, id: u64) -> (r: Result<Option<User>, AppError>)
        ensures
            r == Ok::<Option<User>, AppError>(
                if self@.contains_key(id) {
                    Some(self@[id])
                } else {
                    None
                },
            ),
            self@.dom().finite(),
    {
        match self.users.get(&id) {
            Some(user) => Ok(Some(user.clone())),
            None => Ok(None),
        }
    }

    fn save(&mut self, entity: &User) -> (r: Result<u64, AppError>)
        ensures
            !entity.is_valid() ==> {
                &&& r matches Err(e) && entity.is_validation_error(e)
                &&& final(self)@ == old(self)@
            },
            final(self)@.dom().finite(),
            entity.is_valid() ==> {
                if old(self)@.len() < u64::MAX {
                    let id = (old(self)@.len() + 1) as u64;
                    &&& r == Ok::<u64, AppError>(id)
                    &&& final(self)@ == old(self)@.insert(id, User { id, ..*entity })
                } else {
                    &&& r matches Err(e) && is_database_error(e)
                    &&& final(self)@ == old(self)@
                }
            },
    {
        match entity.validate() {
            Err(e) => {
                return Err(e);
            },
            Ok(()) => {},
        }
        let len = self.users.len();
        if len as u64 >= u64::MAX {
            return Err(AppError::DatabaseError(String::from_str("the user id space is exhausted")));
        }
        let id = len as u64 + 1;
        let mut user = entity.clone();
        user.id = id;
        self.users.insert(id, user);
        Ok(id)
    }

    fn delete(&mut self, id: u64) -> (r: Result<bool, AppError>)
        ensures
            r == Ok::<bool, AppError>(old(self)@.contains_key(id)),
            final(self)@ == old(self)@.remove(id),
            final(self)@.dom().finite(),
    {
        let removed = self.users.remove(&id);
        Ok(removed.is_some())
    }
}

} // verus!
