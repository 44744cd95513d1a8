/*
 This Source Code Form is subject to the terms of the Mozilla Public
 License, v. 2.0. If a copy of the MPL was not distributed with this
 file, You can obtain one at http://mozilla.org/MPL/2.0/.
*/

//! Reader for Apple Aperture photo-library bundles.
//!
//! An Aperture library is a directory tree of property-list files plus an
//! embedded database. This crate models the property-list value tree,
//! decodes the per-object plist dictionaries into typed records (folders,
//! albums, masters, versions, keywords, volumes) while auditing which keys
//! were parsed, skipped or ignored, and translates the legacy Exif/IPTC
//! metadata bags into an XMP metadata object.
//!
//! All file and database reading lives outside this crate: callers hand in
//! already-parsed plist values and database row values as plain data.

pub mod album;
pub mod audit;
pub mod collections;
pub mod custominfo;
pub mod decimal;
pub mod exif;
pub mod folder;
pub mod iptc;
pub mod keyword;
pub mod library;
pub mod master;
pub mod notes;
pub mod plutils;
pub mod store;
pub mod strutil;
pub mod version;
pub mod volume;
pub mod xmp;

pub use album::Album;
pub use album::Subclass as AlbumSubclass;
pub use audit::SkipReason;
pub use folder::Folder;
pub use folder::Type as FolderType;
pub use keyword::Keyword;
pub use library::{Library, ModelInfo};
pub use master::Master;
pub use store::Wrapper as StoreWrapper;
pub use version::Version;

use vstd::prelude::*;

verus! {

/// The kinds of objects an Aperture library stores.
#[derive(Clone, Copy, Debug, PartialEq, Eq, Structural)]
pub enum AplibType {
    /// Album
    Album,
    /// Folder (or Project)
    Folder,
    /// Keyword
    Keyword,
    /// Master image
    Master,
    /// Version
    Version,
    /// Volume
    Volume,
}

/// Object that can be loaded from the parsed root value of a plist
/// document.
pub trait PlistLoadable: Sized {
    /// Load the object from `plist`, recording every audited key into
    /// `report`. A caller not interested in the audit passes a fresh
    /// report and drops it.
    fn from_plist(plist: &plutils::Value, report: &mut audit::Report) -> Option<Self>;
}

/// Basic trait for the library objects.
pub trait AplibObject: Sized {
    /// The object's uuid.
    spec fn spec_uuid(&self) -> Option<String>;

    /// The uuid of the parent object.
    spec fn spec_parent(&self) -> Option<String>;

    /// The numerical model id, when the source held one.
    spec fn spec_model_id(&self) -> Option<i64>;

    /// The kind of object.
    spec fn spec_obj_type(&self) -> AplibType;

    /// How the object wraps for storage.
    spec fn spec_wrapped(&self, w: store::Wrapper) -> bool;

    /// Wrap it for storage.
    fn wrap(obj: Self) -> (w: store::Wrapper)
        ensures
            obj.spec_wrapped(w),
    ;

    /// Type of object.
    fn obj_type(&self) -> (t: AplibType)
        ensures
            t == self.spec_obj_type(),
    ;

    /// Is the object valid: it is exactly when it has a uuid.
    fn is_valid(&self) -> (r: bool)
        ensures
            r == (self.spec_uuid() is Some),
    ;

    /// Object uuid.
    fn uuid(&self) -> (r: &Option<String>)
        ensures
            *r == self.spec_uuid(),
    ;

    /// uuid of the parent object.
    fn parent(&self) -> (r: &Option<String>)
        ensures
            *r == self.spec_parent(),
    ;

    /// Model id (numerical id); zero when the source held none.
    fn model_id(&self) -> (r: i64)
        ensures
            r == match self.spec_model_id() {
                Some(i) => i,
                None => 0,
            },
    ;
}

} // verus!
