//! The guarantees the theme makes to its consumers, stated as proof
//! functions over the constructors' and accessors' specifications.

use vstd::prelude::*;

use crate::colours::Colours;
use crate::render::BlocksColours;
use crate::render::FiletypeColours;
use crate::render::GitColours;
use crate::render::GroupColours;
use crate::render::LinksColours;
use crate::render::PermissionsColours;
use crate::render::SizeColours;
use crate::render::UserColours;
use crate::style::Style;

verus! {

/// A plain theme answers every capability query with the neutral style —
/// every category, every field, and the size query for every byte count.
pub proof fn lemma_plain_all_accessors_neutral(t: Colours)
    requires
        t == Colours::spec_default(),
    ensures
        t.spec_block_count() == Style::spec_default(),
        t.spec_no_blocks() == Style::spec_default(),
        <Colours as FiletypeColours>::spec_normal(&t) == Style::spec_default(),
        t.spec_directory() == Style::spec_default(),
        t.spec_pipe() == Style::spec_default(),
        t.spec_symlink() == Style::spec_default(),
        t.spec_device() == Style::spec_default(),
        t.spec_socket() == Style::spec_default(),
        t.spec_special() == Style::spec_default(),
        t.spec_not_modified() == Style::spec_default(),
        t.spec_new() == Style::spec_default(),
        t.spec_modified() == Style::spec_default(),
        t.spec_deleted() == Style::spec_default(),
        t.spec_renamed() == Style::spec_default(),
        t.spec_type_change() == Style::spec_default(),
        t.spec_yours() == Style::spec_default(),
        t.spec_not_yours() == Style::spec_default(),
        <Colours as LinksColours>::spec_normal(&t) == Style::spec_default(),
        t.spec_multi_link_file() == Style::spec_default(),
        t.spec_dash() == Style::spec_default(),
        t.spec_user_read() == Style::spec_default(),
        t.spec_user_write() == Style::spec_default(),
        t.spec_user_execute_file() == Style::spec_default(),
        t.spec_user_execute_other() == Style::spec_default(),
        t.spec_group_read() == Style::spec_default(),
        t.spec_group_write() == Style::spec_default(),
        t.spec_group_execute() == Style::spec_default(),
        t.spec_other_read() == Style::spec_default(),
        t.spec_other_write() == Style::spec_default(),
        t.spec_other_execute() == Style::spec_default(),
        t.spec_special_user_file() == Style::spec_default(),
        t.spec_special_other() == Style::spec_default(),
        t.spec_attribute() == Style::spec_default(),
        forall|n: u64| t.spec_size(n) == Style::spec_default(),
        t.spec_unit() == Style::spec_default(),
        t.spec_no_size() == Style::spec_default(),
        t.spec_major() == Style::spec_default(),
        t.spec_comma() == Style::spec_default(),
        t.spec_minor() == Style::spec_default(),
        t.spec_you() == Style::spec_default(),
        t.spec_someone_else() == Style::spec_default(),
{
}

/// Theme construction is deterministic: any two plain themes are
/// value-equal, and any two colourful themes built with the same `scale`
/// flag are value-equal — each constructor's contract pins its result to
/// one fixed value.
pub proof fn lemma_construction_deterministic(a: Colours, b: Colours, scale: bool)
    ensures
        a == Colours::spec_default() && b == Colours::spec_default() ==> a == b,
        a == Colours::spec_colourful(scale) && b == Colours::spec_colourful(scale) ==> a == b,
{
}

/// The `scale` flag sets nothing but the `scale` field: every style field
/// of the colourful theme is the same whichever flag was passed. The flag
/// only chooses which branch the size accessor takes at query time.
pub proof fn lemma_scale_flag_touches_no_style(s1: bool, s2: bool)
    ensures
        Colours::spec_colourful(s1).scale == s1,
        Colours::spec_colourful(s1).filekinds == Colours::spec_colourful(s2).filekinds,
        Colours::spec_colourful(s1).filetypes == Colours::spec_colourful(s2).filetypes,
        Colours::spec_colourful(s1).perms == Colours::spec_colourful(s2).perms,
        Colours::spec_colourful(s1).size == Colours::spec_colourful(s2).size,
        Colours::spec_colourful(s1).users == Colours::spec_colourful(s2).users,
        Colours::spec_colourful(s1).links == Colours::spec_colourful(s2).links,
        Colours::spec_colourful(s1).git == Colours::spec_colourful(s2).git,
        Colours::spec_colourful(s1).punctuation == Colours::spec_colourful(s2).punctuation,
        Colours::spec_colourful(s1).date == Colours::spec_colourful(s2).date,
        Colours::spec_colourful(s1).inode == Colours::spec_colourful(s2).inode,
        Colours::spec_colourful(s1).blocks == Colours::spec_colourful(s2).blocks,
        Colours::spec_colourful(s1).header == Colours::spec_colourful(s2).header,
        Colours::spec_colourful(s1).symlink_path == Colours::spec_colourful(s2).symlink_path,
        Colours::spec_colourful(s1).broken_arrow == Colours::spec_colourful(s2).broken_arrow,
        Colours::spec_colourful(s1).broken_filename == Colours::spec_colourful(
            s2,
        ).broken_filename,
        Colours::spec_colourful(s1).control_char == Colours::spec_colourful(s2).control_char,
{
}

/// With `scale` off, the size accessor ignores magnitude entirely: every
/// byte count is answered with the plain number style.
pub proof fn lemma_no_scale_ignores_magnitude(t: Colours, a: u64, b: u64)
    requires
        !t.scale,
    ensures
        t.spec_size(a) == t.size.numbers,
        t.spec_size(a) == t.spec_size(b),
{
}

/// With `scale` on, the size accessor picks the bucket by binary
/// thresholds, strict less-than, ascending, first match wins; zero lands in
/// the byte bucket and nothing lies beyond the huge one.
pub proof fn lemma_size_buckets(t: Colours, n: u64)
    requires
        t.scale,
    ensures
        n < 1024 ==> t.spec_size(n) == t.size.scale_byte,
        1024 <= n < 1024 * 1024 ==> t.spec_size(n) == t.size.scale_kilo,
        1024 * 1024 <= n < 1024 * 1024 * 1024 ==> t.spec_size(n) == t.size.scale_mega,
        1024 * 1024 * 1024 <= n < 1024 * 1024 * 1024 * 1024 ==> t.spec_size(n)
            == t.size.scale_giga,
        1024 * 1024 * 1024 * 1024 <= n ==> t.spec_size(n) == t.size.scale_huge,
{
}

/// Every accessor but the size one is a pure projection: it returns
/// precisely the field it exposes, and the dash, comma, no-size, no-blocks
/// and not-modified accessors all share the single `punctuation` field.
pub proof fn lemma_accessors_are_projections(t: Colours)
    ensures
        t.spec_block_count() == t.blocks,
        t.spec_no_blocks() == t.punctuation,
        <Colours as FiletypeColours>::spec_normal(&t) == t.filekinds.normal,
        t.spec_directory() == t.filekinds.directory,
        t.spec_pipe() == t.filekinds.pipe,
        t.spec_symlink() == t.filekinds.symlink,
        t.spec_device() == t.filekinds.device,
        t.spec_socket() == t.filekinds.socket,
        t.spec_special() == t.filekinds.special,
        t.spec_not_modified() == t.punctuation,
        t.spec_new() == t.git.new,
        t.spec_modified() == t.git.modified,
        t.spec_deleted() == t.git.deleted,
        t.spec_renamed() == t.git.renamed,
        t.spec_type_change() == t.git.typechange,
        t.spec_yours() == t.users.group_yours,
        t.spec_not_yours() == t.users.group_not_yours,
        <Colours as LinksColours>::spec_normal(&t) == t.links.normal,
        t.spec_multi_link_file() == t.links.multi_link_file,
        t.spec_dash() == t.punctuation,
        t.spec_user_read() == t.perms.user_read,
        t.spec_user_write() == t.perms.user_write,
        t.spec_user_execute_file() == t.perms.user_execute_file,
        t.spec_user_execute_other() == t.perms.user_execute_other,
        t.spec_group_read() == t.perms.group_read,
        t.spec_group_write() == t.perms.group_write,
        t.spec_group_execute() == t.perms.group_execute,
        t.spec_other_read() == t.perms.other_read,
        t.spec_other_write() == t.perms.other_write,
        t.spec_other_execute() == t.perms.other_execute,
        t.spec_special_user_file() == t.perms.special_user_file,
        t.spec_special_other() == t.perms.special_other,
        t.spec_attribute() == t.perms.attribute,
        t.spec_unit() == t.size.unit,
        t.spec_no_size() == t.punctuation,
        t.spec_major() == t.size.major,
        t.spec_comma() == t.punctuation,
        t.spec_minor() == t.size.minor,
        t.spec_you() == t.users.user_you,
        t.spec_someone_else() == t.users.user_someone_else,
{
}

/// A plain theme is never value-equal to a colourful one, whichever way
/// the `scale` flag went: the directory style alone already differs.
pub proof fn lemma_plain_differs_from_colourful(scale: bool)
    ensures
        Colours::spec_default() != Colours::spec_colourful(scale),
{
    assert(Colours::spec_default().filekinds.directory != Colours::spec_colourful(
        scale,
    ).filekinds.directory);
}

} // verus!
