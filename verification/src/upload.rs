//! Delivering an artifact: which way each file goes, and what the outcome of
//! the transfer means.

use crate::archive::{join_path, path_in, sidecar_name_of};
use crate::error::PackError;
use crate::text::{after_last, begins_with, last_segment, starts_with_char};
use vstd::prelude::*;
use vstd::string::*;

verus! {

/// The way one file takes to its destination.
#[derive(Debug, Clone, PartialEq, Eq)]
pub enum UploadRoute {
    /// A copy within the local file system: `directory` is created where
    /// it is missing, and the file is copied to `destination` inside it.
    LocalCopy { source: String, directory: String, destination: String },
    /// A transfer to a remote endpoint, which is handed on as it is.
    RemoteTransfer { source: String, endpoint: String },
}

/// What an [`UploadRoute`] stands for.
pub enum RouteView {
    LocalCopy { source: Seq<char>, directory: Seq<char>, destination: Seq<char> },
    RemoteTransfer { source: Seq<char>, endpoint: Seq<char> },
}

impl View for UploadRoute {
    type V = RouteView;

    open spec fn view(&self) -> RouteView {
        match self {
            UploadRoute::LocalCopy { source, directory, destination } => RouteView::LocalCopy {
                source: source@,
                directory: directory@,
                destination: destination@,
            },
            UploadRoute::RemoteTransfer { source, endpoint } => RouteView::RemoteTransfer {
                source: source@,
                endpoint: endpoint@,
            },
        }
    }
}

/// The way `source` takes to `destination`. A destination that begins with
/// a slash is a local directory, and the file keeps its name inside it; any
/// other destination is a remote endpoint.
pub open spec fn route_of(source: Seq<char>, destination: Seq<char>) -> RouteView {
    if begins_with(destination, '/') {
        RouteView::LocalCopy {
            source,
            directory: destination,
            destination: path_in(destination, after_last(source, '/')),
        }
    } else {
        RouteView::RemoteTransfer { source, endpoint: destination }
    }
}

/// Decides which way `source` takes to `destination`.
pub fn route_upload(source: &str, destination: &str) -> (route: UploadRoute)
    ensures
        route@ == route_of(source@, destination@),
{
    if starts_with_char(destination, '/') {
        let file_name = last_segment(source, '/');
        let target = join_path(destination, file_name.as_str());
        UploadRoute::LocalCopy {
            source: String::from_str(source),
            directory: String::from_str(destination),
            destination: target,
        }
    } else {
        UploadRoute::RemoteTransfer {
            source: String::from_str(source),
            endpoint: String::from_str(destination),
        }
    }
}

/// Whether an upload is due: it was asked for, and a destination was given.
pub open spec fn upload_is_due(upload: bool, destination: Option<Seq<char>>) -> bool {
    upload && destination is Some
}

/// Tells whether an upload is due.
pub fn upload_due(upload: bool, destination: Option<&str>) -> (due: bool)
    ensures
        due == upload_is_due(
            upload,
            match destination {
                Some(d) => Some(d@),
                None => None,
            },
        ),
{
    upload && destination.is_some()
}

/// The routes of an artifact: none where no upload is due; else the
/// archive, and behind it the sidecar where it exists.
pub open spec fn routes_of(
    upload: bool,
    destination: Option<Seq<char>>,
    archive: Seq<char>,
    sidecar_exists: bool,
) -> Seq<RouteView> {
    if upload_is_due(upload, destination) {
        if sidecar_exists {
            seq![route_of(archive, destination->0), route_of(sidecar_name_of(archive), destination->0)]
        } else {
            seq![route_of(archive, destination->0)]
        }
    } else {
        Seq::empty()
    }
}

/// The routes that a vector of them stands for.
pub open spec fn routes_view(routes: Seq<UploadRoute>) -> Seq<RouteView> {
    routes.map_values(|r: UploadRoute| r@)
}

/// Lists the uploads of an artifact, the archive first.
pub fn plan_uploads(upload: bool, destination: Option<&str>, archive: &str, sidecar_exists: bool) -> (routes:
    Vec<UploadRoute>)
    ensures
        routes_view(routes@) == routes_of(
            upload,
            match destination {
                Some(d) => Some(d@),
                None => None,
            },
            archive@,
            sidecar_exists,
        ),
{
    let mut routes: Vec<UploadRoute> = Vec::new();
    if !upload {
        assert(routes_view(routes@) =~= Seq::<RouteView>::empty());
        return routes;
    }
    match destination {
        None => {
            assert(routes_view(routes@) =~= Seq::<RouteView>::empty());
        },
        Some(to) => {
            let first = route_upload(archive, to);
            routes.push(first);
            if sidecar_exists {
                let mut sidecar = String::from_str(archive);
                sidecar.append(".sha256");
                let second = route_upload(sidecar.as_str(), to);
                routes.push(second);
                assert(routes_view(routes@) =~= seq![first@, second@]);
            } else {
                assert(routes_view(routes@) =~= seq![first@]);
            }
        },
    }
    routes
}

/// What the end of one upload means: success, or the failure that belongs
/// to the route taken.
pub open spec fn upload_result_of(route: RouteView, succeeded: bool) -> Result<(), PackError> {
    if succeeded {
        Ok(())
    } else {
        match route {
            RouteView::LocalCopy { .. } => Err(PackError::IoError),
            RouteView::RemoteTransfer { .. } => Err(PackError::UploadFailed),
        }
    }
}

/// Judges the end of one upload.
pub fn upload_result(route: &UploadRoute, succeeded: bool) -> (out: Result<(), PackError>)
    ensures
        out == upload_result_of(route@, succeeded),
{
    if succeeded {
        Ok(())
    } else {
        match route {
            UploadRoute::LocalCopy { .. } => Err(PackError::IoError),
            UploadRoute::RemoteTransfer { .. } => Err(PackError::UploadFailed),
        }
    }
}

/// A destination is local exactly when it begins with a slash, and remote
/// in every other case.
pub proof fn lemma_routing(source: Seq<char>, destination: Seq<char>)
    ensures
        route_of(source, destination) is LocalCopy <==> begins_with(destination, '/'),
        route_of(source, destination) is RemoteTransfer <==> !begins_with(destination, '/'),
        route_of(source, destination) is RemoteTransfer ==> route_of(
            source,
            destination,
        )->endpoint == destination,
        route_of(source, destination) is LocalCopy ==> route_of(source, destination)->directory
            == destination,
{
}

} // verus!
