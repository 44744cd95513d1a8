/*
 This Source Code Form is subject to the terms of the Mozilla Public
 License, v. 2.0. If a copy of the MPL was not distributed with this
 file, You can obtain one at http://mozilla.org/MPL/2.0/.
*/

//! The tagged wrapper that keys heterogeneous records into the store.

use vstd::prelude::*;

use crate::album::Album;
use crate::folder::Folder;
use crate::master::Master;
use crate::version::Version;
use crate::volume::Volume;

verus! {

/// Wrap a library object to key it into the store. `Empty` stands for an
/// object kind that is not stored.
#[derive(Debug)]
pub enum Wrapper {
    Album(Box<Album>),
    Folder(Box<Folder>),
    Master(Box<Master>),
    Version(Box<Version>),
    Volume(Box<Volume>),
    Empty,
}

impl Wrapper {
    /// The uuid of the wrapped object.
    pub open spec fn spec_uuid(self) -> Option<String> {
        match self {
            Wrapper::Album(o) => o.uuid,
            Wrapper::Folder(o) => o.uuid,
            Wrapper::Master(o) => o.uuid,
            Wrapper::Version(o) => o.uuid,
            Wrapper::Volume(o) => o.uuid,
            Wrapper::Empty => None,
        }
    }

    /// The parent uuid of the wrapped object.
    pub open spec fn spec_parent(self) -> Option<String> {
        match self {
            Wrapper::Album(o) => o.folder_uuid,
            Wrapper::Folder(o) => o.parent_uuid,
            Wrapper::Master(o) => o.project_uuid,
            Wrapper::Version(o) => o.master_uuid,
            Wrapper::Volume(o) => None,
            Wrapper::Empty => None,
        }
    }

    /// Extract the uuid from the wrapper.
    pub fn uuid(&self) -> (r: Option<String>)
        ensures
            r == self.spec_uuid(),
    {
        match self {
            Wrapper::Album(o) => clone_opt_string(&o.uuid),
            Wrapper::Folder(o) => clone_opt_string(&o.uuid),
            Wrapper::Master(o) => clone_opt_string(&o.uuid),
            Wrapper::Version(o) => clone_opt_string(&o.uuid),
            Wrapper::Volume(o) => clone_opt_string(&o.uuid),
            Wrapper::Empty => None,
        }
    }

    /// Extract the parent uuid from the wrapper.
    pub fn parent_uuid(&self) -> (r: Option<String>)
        ensures
            r == self.spec_parent(),
    {
        match self {
            Wrapper::Album(o) => clone_opt_string(&o.folder_uuid),
            Wrapper::Folder(o) => clone_opt_string(&o.parent_uuid),
            Wrapper::Master(o) => clone_opt_string(&o.project_uuid),
            Wrapper::Version(o) => clone_opt_string(&o.master_uuid),
            Wrapper::Volume(o) => None,
            Wrapper::Empty => None,
        }
    }
}

/// An owned copy of an optional string.
pub fn clone_opt_string(s: &Option<String>) -> (r: Option<String>)
    ensures
        r == *s,
{
    match s {
        Some(s) => Some(s.clone()),
        None => None,
    }
}

} // verus!
