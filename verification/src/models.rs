//! Model records: lifecycle status, the record itself, and its wire shapes.

use vstd::prelude::*;
use vstd::string::StringExecFns;

verus! {

/// Milliseconds timestamps the registry stores are kept within this bound
/// (the last millisecond of year 9999), so that refreshing a timestamp can
/// always move it strictly forward without overflow and so that it can be
/// rendered as a calendar date.
pub const MAX_TIMESTAMP_MILLIS: i64 = 253402300799999;

/// Lifecycle status of a model record.
#[derive(Debug)]
pub enum ModelStatus {
    Created,
    Uploading,
    Active,
    Inactive,
    Error(String),
}

/// The text the registry reports for a status.
pub open spec fn status_label(s: ModelStatus) -> Seq<char> {
    match s {
        ModelStatus::Created => "CREATED"@,
        ModelStatus::Uploading => "UPLOADING"@,
        ModelStatus::Active => "ACTIVE"@,
        ModelStatus::Inactive => "INACTIVE"@,
        ModelStatus::Error(msg) => "ERROR: "@ + msg@,
    }
}

impl ModelStatus {
    pub fn to_string(&self) -> (r: String)
        ensures
            r@ == status_label(*self),
    {
        match self {
            ModelStatus::Created => "CREATED".to_owned(),
            ModelStatus::Uploading => "UPLOADING".to_owned(),
            ModelStatus::Active => "ACTIVE".to_owned(),
            ModelStatus::Inactive => "INACTIVE".to_owned(),
            ModelStatus::Error(msg) => {
                let mut r = "ERROR: ".to_owned();
                r.append(msg.as_str());
                r
            },
        }
    }
}

impl Clone for ModelStatus {
    fn clone(&self) -> (r: Self)
        ensures
            r == *self,
    {
        match self {
            ModelStatus::Created => ModelStatus::Created,
            ModelStatus::Uploading => ModelStatus::Uploading,
            ModelStatus::Active => ModelStatus::Active,
            ModelStatus::Inactive => ModelStatus::Inactive,
            ModelStatus::Error(msg) => ModelStatus::Error(msg.clone()),
        }
    }
}

/// One tracked model artifact: identity, caller-supplied metadata, lifecycle
/// status, and the millisecond timestamps of its creation and last mutation.
#[derive(Debug)]
pub struct Model {
    pub id: String,
    pub name: String,
    pub version: String,
    pub status: ModelStatus,
    pub created_at: i64,
    pub updated_at: i64,
}

impl Model {
    /// Both timestamps lie in the representable range.
    pub open spec fn wf(self) -> bool {
        &&& 0 <= self.created_at <= MAX_TIMESTAMP_MILLIS
        &&& 0 <= self.updated_at <= MAX_TIMESTAMP_MILLIS
    }
}

impl Clone for Model {
    fn clone(&self) -> (r: Self)
        ensures
            r == *self,
    {
        Model {
            id: self.id.clone(),
            name: self.name.clone(),
            version: self.version.clone(),
            status: self.status.clone(),
            created_at: self.created_at,
            updated_at: self.updated_at,
        }
    }
}

/// What a caller supplies to create a record: the id is never theirs to pick.
#[derive(Debug)]
pub struct CreateModelRequest {
    pub name: String,
    pub version: String,
}

/// A clock reading forced into the representable timestamp range.
pub open spec fn clamp_timestamp(ms: i64) -> i64 {
    if ms < 0 {
        0
    } else if ms > MAX_TIMESTAMP_MILLIS {
        MAX_TIMESTAMP_MILLIS
    } else {
        ms
    }
}

/// What `updated_at` becomes when a record is mutated at clock reading
/// `now`: the reading itself when the clock moved past the old value, else
/// one step past the old value, never beyond the cap.
pub open spec fn refreshed(prev: i64, now: i64) -> i64 {
    if prev < now {
        now
    } else if prev < MAX_TIMESTAMP_MILLIS {
        (prev + 1) as i64
    } else {
        prev
    }
}

pub(crate) fn clamp_timestamp_exec(ms: i64) -> (r: i64)
    ensures
        r == clamp_timestamp(ms),
{
    if ms < 0 {
        0
    } else if ms > MAX_TIMESTAMP_MILLIS {
        MAX_TIMESTAMP_MILLIS
    } else {
        ms
    }
}

pub(crate) fn refresh_timestamp(prev: i64, now: i64) -> (r: i64)
    requires
        0 <= prev <= MAX_TIMESTAMP_MILLIS,
        0 <= now <= MAX_TIMESTAMP_MILLIS,
    ensures
        r == refreshed(prev, now),
{
    if prev < now {
        now
    } else if prev < MAX_TIMESTAMP_MILLIS {
        prev + 1
    } else {
        prev
    }
}

/// Refreshing a timestamp never moves it backwards, keeps it in range, and
/// moves it strictly forward whenever the old value lies below the cap.
pub proof fn lemma_refresh_monotonic(prev: i64, now: i64)
    requires
        0 <= prev <= MAX_TIMESTAMP_MILLIS,
        0 <= now <= MAX_TIMESTAMP_MILLIS,
    ensures
        refreshed(prev, now) >= prev,
        prev < MAX_TIMESTAMP_MILLIS ==> refreshed(prev, now) > prev,
        0 <= refreshed(prev, now) <= MAX_TIMESTAMP_MILLIS,
{
}

/// The wire shape of a record: status and timestamps rendered as text.
#[derive(Debug)]
pub struct ModelResponse {
    pub id: String,
    pub name: String,
    pub version: String,
    pub status: String,
    pub created_at: String,
    pub updated_at: String,
}

impl ModelResponse {
    /// Renders a record for the transport boundary; the timestamps come out
    /// in their RFC 3339 form.
    pub fn from(model: &Model) -> (r: ModelResponse)
        requires
            model.wf(),
        ensures
            r.id@ == model.id@,
            r.name@ == model.name@,
            r.version@ == model.version@,
            r.status@ == status_label(model.status),
            r.created_at@ == crate::clock::rfc3339_of(model.created_at as int),
            r.updated_at@ == crate::clock::rfc3339_of(model.updated_at as int),
    {
        ModelResponse {
            id: model.id.clone(),
            name: model.name.clone(),
            version: model.version.clone(),
            status: model.status.to_string(),
            created_at: crate::clock::rfc3339_millis(model.created_at),
            updated_at: crate::clock::rfc3339_millis(model.updated_at),
        }
    }
}

} // verus!
