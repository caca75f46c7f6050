use vstd::prelude::*;

verus! {

/// A record as downloaded: either a tombstone or a record of some type.
#[derive(Debug, Clone, PartialEq, Eq)]
pub enum MaybeTombstone<T> {
    Tombstone { id: String, deleted: bool },
    Record(T),
}

impl<T> MaybeTombstone<T> {
    /// A tombstone for the record `id`.
    pub fn tombstone(id: String) -> (r: MaybeTombstone<T>)
        ensures
            r matches MaybeTombstone::Tombstone { id: i, deleted } && i == id && deleted,
    {
        MaybeTombstone::Tombstone { id, deleted: true }
    }

    pub fn is_tombstone(&self) -> (r: bool)
        ensures
            r == !(self is Record),
    {
        match self {
            MaybeTombstone::Record(_) => false,
            _ => true,
        }
    }

    /// The record; only called on a record.
    pub fn unwrap(self) -> (r: T)
        requires
            self is Record,
        ensures
            self == MaybeTombstone::<T>::Record(r),
    {
        match self {
            MaybeTombstone::Record(record) => record,
            MaybeTombstone::Tombstone { .. } => vstd::pervasive::unreached(),
        }
    }

    /// The record; only called on a record. `msg` describes the expectation.
    pub fn expect(self, msg: &str) -> (r: T)
        requires
            self is Record,
        ensures
            self == MaybeTombstone::<T>::Record(r),
    {
        self.unwrap()
    }

    /// The record, or `err` for a tombstone.
    pub fn ok_or<E>(self, err: E) -> (r: Result<T, E>)
        ensures
            match self {
                MaybeTombstone::Record(x) => r == Ok::<T, E>(x),
                MaybeTombstone::Tombstone { .. } => r == Err::<T, E>(err),
            },
    {
        match self {
            MaybeTombstone::Record(record) => Ok(record),
            _ => Err(err),
        }
    }

    /// The record, or nothing for a tombstone.
    pub fn record(self) -> (r: Option<T>)
        ensures
            match self {
                MaybeTombstone::Record(x) => r == Some(x),
                MaybeTombstone::Tombstone { .. } => r.is_none(),
            },
    {
        match self {
            MaybeTombstone::Record(record) => Some(record),
            _ => None,
        }
    }
}

/// A saved login as synced.
#[derive(Debug, Clone)]
pub struct PasswordRecord {
    pub id: String,
    pub hostname: Option<String>,
    pub form_submit_url: Option<String>,
    pub http_realm: Option<String>,
    pub username: String,
    pub password: String,
    pub username_field: String,
    pub password_field: String,
    pub time_created: i64,
    pub time_password_changed: i64,
    pub time_last_used: Option<i64>,
    pub times_used: Option<i64>,
}

} // verus!
