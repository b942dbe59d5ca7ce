use vstd::prelude::*;

use crate::error::{Error, ErrorKind, OCIError, OCIErrorKind};
use crate::specs::{Spec, State, OCI_VERSION};
use crate::status::{lemma_status_name_round_trip, parse_status, rank, status_name, Status};

verus! {

/// A container: a bundle, its configuration, and where it stands in its
/// lifecycle.
#[derive(Clone, Debug)]
pub struct Container {
    pub id: String,
    pub spec: Spec,
    pub bundle: String,
    pub status: Status,
    pub pid: Option<i32>,
    /// When the container's process was launched, as an RFC 3339 date and time.
    pub created: Option<String>,
}

/// Relies on chrono's `Utc::now` and `DateTime::to_rfc3339`: the current
/// time, written as an RFC 3339 date and time. Nothing is promised of its
/// value, which depends on the clock.
#[verifier::external_body]
fn now_rfc3339() -> (r: String) {
    chrono::Utc::now().to_rfc3339()
}

fn copy_option_string(s: &Option<String>) -> (r: Option<String>)
    ensures
        r is Some <==> s is Some,
        r matches Some(t) ==> t@ == s->Some_0@,
{
    match s {
        Some(t) => Some(t.clone()),
        None => None,
    }
}

/// The container that a persisted record describes, its status being
/// stored under its reported name; `None` when that name is no status's.
pub open spec fn restored(
    id: String,
    spec: Spec,
    bundle: String,
    status: Seq<char>,
    pid: Option<i32>,
    created: Option<String>,
) -> Option<Container> {
    match parse_status(status) {
        Some(s) => Some(Container { id, spec, bundle, status: s, pid, created }),
        None => None,
    }
}

impl Container {
    /// A container that is being created from `spec`; `bundle` is the
    /// absolute path of its bundle directory.
    pub fn new(id: &str, bundle: &str, spec: Spec) -> (r: Container)
        ensures
            r.id@ == id@,
            r.bundle@ == bundle@,
            r.spec == spec,
            r.status == Status::Creating,
            r.pid is None,
            r.created is None,
    {
        Container {
            id: String::from_str(id),
            bundle: String::from_str(bundle),
            spec,
            status: Status::Creating,
            pid: None,
            created: None,
        }
    }

    /// Records that the container's process was launched as `child_pid`:
    /// the container becomes `Created`, with its pid and the time of
    /// creation set. A container that is not `Creating` is left as it is
    /// and the result is an invalid-status error.
    pub fn mark_created(&mut self, child_pid: i32) -> (r: Result<(), Error>)
        ensures
            r is Ok <==> old(self).status == Status::Creating,
            r is Ok ==> final(self).status == Status::Created,
            r is Ok ==> final(self).pid == Some(child_pid),
            r is Ok ==> final(self).created is Some,
            r is Ok ==> final(self).id == old(self).id && final(self).bundle == old(self).bundle
                && final(self).spec == old(self).spec,
            r is Ok ==> rank(old(self).status) < rank(final(self).status),
            r matches Err(e) ==> *final(self) == *old(self) && (e.inner matches ErrorKind::OCI {
                error,
            } && error.kind == OCIErrorKind::InvaliedStatus),
    {
        if self.status != Status::Creating {
            let error = OCIError::new(
                OCIErrorKind::InvaliedStatus,
                "container must be creating to be marked created",
            );
            return Err(Error { inner: ErrorKind::OCI { error } });
        }
        self.status = Status::Created;
        self.created = Some(now_rfc3339());
        self.pid = Some(child_pid);
        Ok(())
    }

    /// Rebuilds a container from the fields of its persisted record, where
    /// the status is stored under its reported name. An unknown status name
    /// gives `None`.
    pub fn restore(
        id: String,
        spec: Spec,
        bundle: String,
        status: &str,
        pid: Option<i32>,
        created: Option<String>,
    ) -> (r: Option<Container>)
        ensures
            r == restored(id, spec, bundle, status@, pid, created),
    {
        match Status::from_name(status) {
            Some(s) => Some(Container { id, spec, bundle, status: s, pid, created }),
            None => None,
        }
    }

    /// The container's state report. `owner` is the name of the user who
    /// runs the runtime and `rootfs` the resolved path of the container's
    /// root filesystem; both are facts of the host that the caller looks up.
    pub fn state(&self, owner: String, rootfs: String) -> (r: State)
        ensures
            r.oci_version@ == OCI_VERSION@,
            r.id@ == self.id@,
            r.status == self.status,
            r.pid == self.pid,
            r.bundle@ == self.bundle@,
            r.rootfs == rootfs,
            r.owner == owner,
            r.annotation is None,
            r.created is Some <==> self.created is Some,
            r.created matches Some(c) ==> c@ == self.created->Some_0@,
    {
        State {
            oci_version: String::from_str(OCI_VERSION),
            id: self.id.clone(),
            status: self.status,
            pid: self.pid,
            bundle: self.bundle.clone(),
            rootfs,
            owner,
            annotation: None,
            created: copy_option_string(&self.created),
        }
    }
}

/// Writing a container's record, with its status under its reported
/// name, and restoring it gives back the same container: the same id,
/// bundle, status, pid and creation time.
pub proof fn lemma_record_round_trip(c: Container)
    ensures
        restored(c.id, c.spec, c.bundle, status_name(c.status), c.pid, c.created) == Some(c),
{
    lemma_status_name_round_trip(c.status);
}

} // verus!
