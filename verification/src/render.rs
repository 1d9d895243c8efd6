//! Capability interfaces: one narrow trait per rendering concern.
//!
//! A renderer depends only on the trait for its concern, never on the
//! theme's concrete layout, so a new concern means a new trait and one
//! implementation — existing renderers are untouched — and a renderer can
//! be tested against a stand-in implementing a single trait.
//!
//! Each trait pairs every accessor with a `spec fn` naming its result, so
//! an implementation's choice of style is visible in contracts while
//! callers stay independent of where the style is stored.

use vstd::prelude::*;

use crate::style::Style;

verus! {

/// Styles for the block-count column.
pub trait BlocksColours {
    spec fn spec_block_count(&self) -> Style;

    spec fn spec_no_blocks(&self) -> Style;

    /// Style for a nonzero block count.
    fn block_count(&self) -> (r: Style)
        ensures
            r == self.spec_block_count(),
    ;

    /// Style for an entry with no blocks.
    fn no_blocks(&self) -> (r: Style)
        ensures
            r == self.spec_no_blocks(),
    ;
}

/// Styles for the filesystem-kind indicator of an entry.
pub trait FiletypeColours {
    spec fn spec_normal(&self) -> Style;

    spec fn spec_directory(&self) -> Style;

    spec fn spec_pipe(&self) -> Style;

    spec fn spec_symlink(&self) -> Style;

    spec fn spec_device(&self) -> Style;

    spec fn spec_socket(&self) -> Style;

    spec fn spec_special(&self) -> Style;

    fn normal(&self) -> (r: Style)
        ensures
            r == self.spec_normal(),
    ;

    fn directory(&self) -> (r: Style)
        ensures
            r == self.spec_directory(),
    ;

    fn pipe(&self) -> (r: Style)
        ensures
            r == self.spec_pipe(),
    ;

    fn symlink(&self) -> (r: Style)
        ensures
            r == self.spec_symlink(),
    ;

    fn device(&self) -> (r: Style)
        ensures
            r == self.spec_device(),
    ;

    fn socket(&self) -> (r: Style)
        ensures
            r == self.spec_socket(),
    ;

    fn special(&self) -> (r: Style)
        ensures
            r == self.spec_special(),
    ;
}

/// Styles for the version-control status column.
pub trait GitColours {
    spec fn spec_not_modified(&self) -> Style;

    spec fn spec_new(&self) -> Style;

    spec fn spec_modified(&self) -> Style;

    spec fn spec_deleted(&self) -> Style;

    spec fn spec_renamed(&self) -> Style;

    spec fn spec_type_change(&self) -> Style;

    fn not_modified(&self) -> (r: Style)
        ensures
            r == self.spec_not_modified(),
    ;

    fn new(&self) -> (r: Style)
        ensures
            r == self.spec_new(),
    ;

    fn modified(&self) -> (r: Style)
        ensures
            r == self.spec_modified(),
    ;

    fn deleted(&self) -> (r: Style)
        ensures
            r == self.spec_deleted(),
    ;

    fn renamed(&self) -> (r: Style)
        ensures
            r == self.spec_renamed(),
    ;

    fn type_change(&self) -> (r: Style)
        ensures
            r == self.spec_type_change(),
    ;
}

/// Styles for the group-ownership column.
pub trait GroupColours {
    spec fn spec_yours(&self) -> Style;

    spec fn spec_not_yours(&self) -> Style;

    /// Style for a group the current user belongs to.
    fn yours(&self) -> (r: Style)
        ensures
            r == self.spec_yours(),
    ;

    /// Style for any other group.
    fn not_yours(&self) -> (r: Style)
        ensures
            r == self.spec_not_yours(),
    ;
}

/// Styles for the hard-link-count column.
pub trait LinksColours {
    spec fn spec_normal(&self) -> Style;

    spec fn spec_multi_link_file(&self) -> Style;

    /// Style for an ordinary link count.
    fn normal(&self) -> (r: Style)
        ensures
            r == self.spec_normal(),
    ;

    /// Style for a regular file with several hard links.
    fn multi_link_file(&self) -> (r: Style)
        ensures
            r == self.spec_multi_link_file(),
    ;
}

/// Styles for the permission-bits column, one accessor per bit role.
pub trait PermissionsColours {
    spec fn spec_dash(&self) -> Style;

    spec fn spec_user_read(&self) -> Style;

    spec fn spec_user_write(&self) -> Style;

    spec fn spec_user_execute_file(&self) -> Style;

    spec fn spec_user_execute_other(&self) -> Style;

    spec fn spec_group_read(&self) -> Style;

    spec fn spec_group_write(&self) -> Style;

    spec fn spec_group_execute(&self) -> Style;

    spec fn spec_other_read(&self) -> Style;

    spec fn spec_other_write(&self) -> Style;

    spec fn spec_other_execute(&self) -> Style;

    spec fn spec_special_user_file(&self) -> Style;

    spec fn spec_special_other(&self) -> Style;

    spec fn spec_attribute(&self) -> Style;

    /// Style for an absent permission bit.
    fn dash(&self) -> (r: Style)
        ensures
            r == self.spec_dash(),
    ;

    fn user_read(&self) -> (r: Style)
        ensures
            r == self.spec_user_read(),
    ;

    fn user_write(&self) -> (r: Style)
        ensures
            r == self.spec_user_write(),
    ;

    /// Style for the user-execute bit on a regular file.
    fn user_execute_file(&self) -> (r: Style)
        ensures
            r == self.spec_user_execute_file(),
    ;

    /// Style for the user-execute bit on any other entry kind.
    fn user_execute_other(&self) -> (r: Style)
        ensures
            r == self.spec_user_execute_other(),
    ;

    fn group_read(&self) -> (r: Style)
        ensures
            r == self.spec_group_read(),
    ;

    fn group_write(&self) -> (r: Style)
        ensures
            r == self.spec_group_write(),
    ;

    fn group_execute(&self) -> (r: Style)
        ensures
            r == self.spec_group_execute(),
    ;

    fn other_read(&self) -> (r: Style)
        ensures
            r == self.spec_other_read(),
    ;

    fn other_write(&self) -> (r: Style)
        ensures
            r == self.spec_other_write(),
    ;

    fn other_execute(&self) -> (r: Style)
        ensures
            r == self.spec_other_execute(),
    ;

    /// Style for a set-user-id-like bit on a regular file.
    fn special_user_file(&self) -> (r: Style)
        ensures
            r == self.spec_special_user_file(),
    ;

    /// Style for a set-user-id-like bit elsewhere.
    fn special_other(&self) -> (r: Style)
        ensures
            r == self.spec_special_other(),
    ;

    /// Style for the extended-attributes marker.
    fn attribute(&self) -> (r: Style)
        ensures
            r == self.spec_attribute(),
    ;
}

/// Styles for the size column. The size accessor is the one accessor that
/// branches on a runtime value: the byte count it is given.
pub trait SizeColours {
    spec fn spec_size(&self, size: u64) -> Style;

    spec fn spec_unit(&self) -> Style;

    spec fn spec_no_size(&self) -> Style;

    spec fn spec_major(&self) -> Style;

    spec fn spec_comma(&self) -> Style;

    spec fn spec_minor(&self) -> Style;

    /// Style for a size of `size` bytes.
    fn size(&self, size: u64) -> (r: Style)
        ensures
            r == self.spec_size(size),
    ;

    /// Style for a size unit suffix.
    fn unit(&self) -> (r: Style)
        ensures
            r == self.spec_unit(),
    ;

    /// Style for an entry with no size.
    fn no_size(&self) -> (r: Style)
        ensures
            r == self.spec_no_size(),
    ;

    /// Style for a device's major number.
    fn major(&self) -> (r: Style)
        ensures
            r == self.spec_major(),
    ;

    /// Style for a thousands separator.
    fn comma(&self) -> (r: Style)
        ensures
            r == self.spec_comma(),
    ;

    /// Style for a device's minor number.
    fn minor(&self) -> (r: Style)
        ensures
            r == self.spec_minor(),
    ;
}

/// Styles for the user-ownership column.
pub trait UserColours {
    spec fn spec_you(&self) -> Style;

    spec fn spec_someone_else(&self) -> Style;

    /// Style for the current user.
    fn you(&self) -> (r: Style)
        ensures
            r == self.spec_you(),
    ;

    /// Style for any other user.
    fn someone_else(&self) -> (r: Style)
        ensures
            r == self.spec_someone_else(),
    ;
}

} // verus!
