//! The theme aggregate: every display category's style, plus the `scale`
//! flag that opts into magnitude-coloured sizes.
//!
//! A `Colours` value is built once — all-neutral by [`Colours::plain`] or
//! fully coloured by [`Colours::colourful`] — and read thereafter. Every
//! field always holds a defined style; there is no unset state.

use vstd::prelude::*;

use crate::render::BlocksColours;
use crate::render::FiletypeColours;
use crate::render::GitColours;
use crate::render::GroupColours;
use crate::render::LinksColours;
use crate::render::PermissionsColours;
use crate::render::SizeColours;
use crate::render::UserColours;
use crate::style::Colour;
use crate::style::Style;

verus! {

/// The complete theme: one style per category field, a handful of
/// standalone styles, and the `scale` flag read by the size accessor.
///
/// Several accessors intentionally share the single `punctuation` field
/// (dash, comma, no-size, no-blocks, not-modified): one stored value,
/// several named views of it.
#[derive(Clone, Copy, Debug, PartialEq, Eq, Structural)]
pub struct Colours {
    pub scale: bool,
    pub filekinds: FileKinds,
    pub filetypes: FileTypes,
    pub perms: Permissions,
    pub size: Size,
    pub users: Users,
    pub links: Links,
    pub git: Git,
    pub punctuation: Style,
    pub date: Style,
    pub inode: Style,
    pub blocks: Style,
    pub header: Style,
    pub symlink_path: Style,
    pub broken_arrow: Style,
    pub broken_filename: Style,
    pub control_char: Style,
}

/// Styles for entries by filesystem kind.
#[derive(Clone, Copy, Debug, PartialEq, Eq, Structural)]
pub struct FileKinds {
    pub normal: Style,
    pub directory: Style,
    pub symlink: Style,
    pub pipe: Style,
    pub device: Style,
    pub socket: Style,
    pub special: Style,
    pub executable: Style,
}

/// Styles for files by name or extension classification.
#[derive(Clone, Copy, Debug, PartialEq, Eq, Structural)]
pub struct FileTypes {
    pub image: Style,
    pub video: Style,
    pub music: Style,
    pub lossless: Style,
    pub crypto: Style,
    pub document: Style,
    pub compressed: Style,
    pub temp: Style,
    pub immediate: Style,
    pub compiled: Style,
}

/// Styles for the permission bits, one per role.
#[derive(Clone, Copy, Debug, PartialEq, Eq, Structural)]
pub struct Permissions {
    pub user_read: Style,
    pub user_write: Style,
    pub user_execute_file: Style,
    pub user_execute_other: Style,
    pub group_read: Style,
    pub group_write: Style,
    pub group_execute: Style,
    pub other_read: Style,
    pub other_write: Style,
    pub other_execute: Style,
    pub special_user_file: Style,
    pub special_other: Style,
    pub attribute: Style,
}

/// Styles for the size column: plain numbers, device numbers, and the five
/// magnitude buckets used when `scale` is on.
#[derive(Clone, Copy, Debug, PartialEq, Eq, Structural)]
pub struct Size {
    pub numbers: Style,
    pub unit: Style,
    pub major: Style,
    pub minor: Style,
    pub scale_byte: Style,
    pub scale_kilo: Style,
    pub scale_mega: Style,
    pub scale_giga: Style,
    pub scale_huge: Style,
}

/// Styles for user and group ownership, by relation to the current user.
#[derive(Clone, Copy, Debug, PartialEq, Eq, Structural)]
pub struct Users {
    pub user_you: Style,
    pub user_someone_else: Style,
    pub group_yours: Style,
    pub group_not_yours: Style,
}

/// Styles for the hard-link count.
#[derive(Clone, Copy, Debug, PartialEq, Eq, Structural)]
pub struct Links {
    pub normal: Style,
    pub multi_link_file: Style,
}

/// Styles for version-control statuses.
#[derive(Clone, Copy, Debug, PartialEq, Eq, Structural)]
pub struct Git {
    pub new: Style,
    pub modified: Style,
    pub deleted: Style,
    pub renamed: Style,
    pub typechange: Style,
}

impl FileKinds {
    /// Every kind styled neutrally.
    pub open spec fn spec_default() -> FileKinds {
        FileKinds {
            normal: Style::spec_default(),
            directory: Style::spec_default(),
            symlink: Style::spec_default(),
            pipe: Style::spec_default(),
            device: Style::spec_default(),
            socket: Style::spec_default(),
            special: Style::spec_default(),
            executable: Style::spec_default(),
        }
    }
}

impl Default for FileKinds {
    fn default() -> (r: FileKinds)
        ensures
            r == FileKinds::spec_default(),
    {
        FileKinds {
            normal: Style::default(),
            directory: Style::default(),
            symlink: Style::default(),
            pipe: Style::default(),
            device: Style::default(),
            socket: Style::default(),
            special: Style::default(),
            executable: Style::default(),
        }
    }
}

impl FileTypes {
    /// Every classification styled neutrally.
    pub open spec fn spec_default() -> FileTypes {
        FileTypes {
            image: Style::spec_default(),
            video: Style::spec_default(),
            music: Style::spec_default(),
            lossless: Style::spec_default(),
            crypto: Style::spec_default(),
            document: Style::spec_default(),
            compressed: Style::spec_default(),
            temp: Style::spec_default(),
            immediate: Style::spec_default(),
            compiled: Style::spec_default(),
        }
    }
}

impl Default for FileTypes {
    fn default() -> (r: FileTypes)
        ensures
            r == FileTypes::spec_default(),
    {
        FileTypes {
            image: Style::default(),
            video: Style::default(),
            music: Style::default(),
            lossless: Style::default(),
            crypto: Style::default(),
            document: Style::default(),
            compressed: Style::default(),
            temp: Style::default(),
            immediate: Style::default(),
            compiled: Style::default(),
        }
    }
}

impl Permissions {
    /// Every permission role styled neutrally.
    pub open spec fn spec_default() -> Permissions {
        Permissions {
            user_read: Style::spec_default(),
            user_write: Style::spec_default(),
            user_execute_file: Style::spec_default(),
            user_execute_other: Style::spec_default(),
            group_read: Style::spec_default(),
            group_write: Style::spec_default(),
            group_execute: Style::spec_default(),
            other_read: Style::spec_default(),
            other_write: Style::spec_default(),
            other_execute: Style::spec_default(),
            special_user_file: Style::spec_default(),
            special_other: Style::spec_default(),
            attribute: Style::spec_default(),
        }
    }
}

impl Default for Permissions {
    fn default() -> (r: Permissions)
        ensures
            r == Permissions::spec_default(),
    {
        Permissions {
            user_read: Style::default(),
            user_write: Style::default(),
            user_execute_file: Style::default(),
            user_execute_other: Style::default(),
            group_read: Style::default(),
            group_write: Style::default(),
            group_execute: Style::default(),
            other_read: Style::default(),
            other_write: Style::default(),
            other_execute: Style::default(),
            special_user_file: Style::default(),
            special_other: Style::default(),
            attribute: Style::default(),
        }
    }
}

impl Size {
    /// Every size style neutral, buckets included.
    pub open spec fn spec_default() -> Size {
        Size {
            numbers: Style::spec_default(),
            unit: Style::spec_default(),
            major: Style::spec_default(),
            minor: Style::spec_default(),
            scale_byte: Style::spec_default(),
            scale_kilo: Style::spec_default(),
            scale_mega: Style::spec_default(),
            scale_giga: Style::spec_default(),
            scale_huge: Style::spec_default(),
        }
    }
}

impl Default for Size {
    fn default() -> (r: Size)
        ensures
            r == Size::spec_default(),
    {
        Size {
            numbers: Style::default(),
            unit: Style::default(),
            major: Style::default(),
            minor: Style::default(),
            scale_byte: Style::default(),
            scale_kilo: Style::default(),
            scale_mega: Style::default(),
            scale_giga: Style::default(),
            scale_huge: Style::default(),
        }
    }
}

impl Users {
    /// Every ownership relation styled neutrally.
    pub open spec fn spec_default() -> Users {
        Users {
            user_you: Style::spec_default(),
            user_someone_else: Style::spec_default(),
            group_yours: Style::spec_default(),
            group_not_yours: Style::spec_default(),
        }
    }
}

impl Default for Users {
    fn default() -> (r: Users)
        ensures
            r == Users::spec_default(),
    {
        Users {
            user_you: Style::default(),
            user_someone_else: Style::default(),
            group_yours: Style::default(),
            group_not_yours: Style::default(),
        }
    }
}

impl Links {
    /// Both link-count styles neutral.
    pub open spec fn spec_default() -> Links {
        Links { normal: Style::spec_default(), multi_link_file: Style::spec_default() }
    }
}

impl Default for Links {
    fn default() -> (r: Links)
        ensures
            r == Links::spec_default(),
    {
        Links { normal: Style::default(), multi_link_file: Style::default() }
    }
}

impl Git {
    /// Every status styled neutrally.
    pub open spec fn spec_default() -> Git {
        Git {
            new: Style::spec_default(),
            modified: Style::spec_default(),
            deleted: Style::spec_default(),
            renamed: Style::spec_default(),
            typechange: Style::spec_default(),
        }
    }
}

impl Default for Git {
    fn default() -> (r: Git)
        ensures
            r == Git::spec_default(),
    {
        Git {
            new: Style::default(),
            modified: Style::default(),
            deleted: Style::default(),
            renamed: Style::default(),
            typechange: Style::default(),
        }
    }
}

impl Colours {
    /// The all-neutral theme: every field holds the neutral style and
    /// `scale` is off.
    pub open spec fn spec_default() -> Colours {
        Colours {
            scale: false,
            filekinds: FileKinds::spec_default(),
            filetypes: FileTypes::spec_default(),
            perms: Permissions::spec_default(),
            size: Size::spec_default(),
            users: Users::spec_default(),
            links: Links::spec_default(),
            git: Git::spec_default(),
            punctuation: Style::spec_default(),
            date: Style::spec_default(),
            inode: Style::spec_default(),
            blocks: Style::spec_default(),
            header: Style::spec_default(),
            symlink_path: Style::spec_default(),
            broken_arrow: Style::spec_default(),
            broken_filename: Style::spec_default(),
            control_char: Style::spec_default(),
        }
    }

    /// The theme used when colour output is disabled: all-neutral.
    pub fn plain() -> (r: Colours)
        ensures
            r == Colours::spec_default(),
    {
        Colours::default()
    }

    /// The fixed assignment of colours that [`Colours::colourful`] builds.
    /// A hand-curated table, not derived by any rule; `scale` is the only
    /// part taken from the argument.
    pub open spec fn spec_colourful(scale: bool) -> Colours {
        Colours {
            scale: scale,
            filekinds: FileKinds {
                normal: Style::spec_default(),
                directory: Colour::Blue.bold(),
                symlink: Colour::Cyan.normal(),
                pipe: Colour::Yellow.normal(),
                device: Colour::Yellow.bold(),
                socket: Colour::Red.bold(),
                special: Colour::Yellow.normal(),
                executable: Colour::Green.bold(),
            },
            filetypes: FileTypes {
                image: Colour::Fixed(133).normal(),
                video: Colour::Fixed(135).normal(),
                music: Colour::Fixed(92).normal(),
                lossless: Colour::Fixed(93).normal(),
                crypto: Colour::Fixed(109).normal(),
                document: Colour::Fixed(105).normal(),
                compressed: Colour::Red.normal(),
                temp: Colour::Fixed(244).normal(),
                immediate: Colour::Yellow.bold().underline(),
                compiled: Colour::Fixed(137).normal(),
            },
            perms: Permissions {
                user_read: Colour::Yellow.bold(),
                user_write: Colour::Red.bold(),
                user_execute_file: Colour::Green.bold().underline(),
                user_execute_other: Colour::Green.bold(),
                group_read: Colour::Yellow.normal(),
                group_write: Colour::Red.normal(),
                group_execute: Colour::Green.normal(),
                other_read: Colour::Yellow.normal(),
                other_write: Colour::Red.normal(),
                other_execute: Colour::Green.normal(),
                special_user_file: Colour::Purple.normal(),
                special_other: Colour::Purple.normal(),
                attribute: Style::spec_default(),
            },
            size: Size {
                numbers: Colour::Green.bold(),
                unit: Colour::Green.normal(),
                major: Colour::Green.bold(),
                minor: Colour::Green.normal(),
                scale_byte: Colour::Fixed(118).normal(),
                scale_kilo: Colour::Fixed(190).normal(),
                scale_mega: Colour::Fixed(226).normal(),
                scale_giga: Colour::Fixed(220).normal(),
                scale_huge: Colour::Fixed(214).normal(),
            },
            users: Users {
                user_you: Colour::Yellow.bold(),
                user_someone_else: Style::spec_default(),
                group_yours: Colour::Yellow.bold(),
                group_not_yours: Style::spec_default(),
            },
            links: Links {
                normal: Colour::Red.bold(),
                multi_link_file: Colour::Red.on(Colour::Yellow),
            },
            git: Git {
                new: Colour::Green.normal(),
                modified: Colour::Blue.normal(),
                deleted: Colour::Red.normal(),
                renamed: Colour::Yellow.normal(),
                typechange: Colour::Purple.normal(),
            },
            punctuation: Colour::Fixed(244).normal(),
            date: Colour::Blue.normal(),
            inode: Colour::Purple.normal(),
            blocks: Colour::Cyan.normal(),
            header: Style::spec_default().spec_underline(),
            symlink_path: Colour::Cyan.normal(),
            broken_arrow: Colour::Red.normal(),
            broken_filename: Colour::Red.underline(),
            control_char: Colour::Red.normal(),
        }
    }

    /// The fully coloured theme, with magnitude-coloured sizes switched on
    /// or off by `scale`. Deterministic: the result is the one fixed table,
    /// with `scale` its only varying part.
    pub fn colourful(scale: bool) -> (r: Colours)
        ensures
            r == Colours::spec_colourful(scale),
            r.scale == scale,
    {
        Colours {
            scale: scale,
            filekinds: FileKinds {
                normal: Style::default(),
                directory: Colour::Blue.bold(),
                symlink: Colour::Cyan.normal(),
                pipe: Colour::Yellow.normal(),
                device: Colour::Yellow.bold(),
                socket: Colour::Red.bold(),
                special: Colour::Yellow.normal(),
                executable: Colour::Green.bold(),
            },
            filetypes: FileTypes {
                image: Colour::Fixed(133).normal(),
                video: Colour::Fixed(135).normal(),
                music: Colour::Fixed(92).normal(),
                lossless: Colour::Fixed(93).normal(),
                crypto: Colour::Fixed(109).normal(),
                document: Colour::Fixed(105).normal(),
                compressed: Colour::Red.normal(),
                temp: Colour::Fixed(244).normal(),
                immediate: Colour::Yellow.bold().underline(),
                compiled: Colour::Fixed(137).normal(),
            },
            perms: Permissions {
                user_read: Colour::Yellow.bold(),
                user_write: Colour::Red.bold(),
                user_execute_file: Colour::Green.bold().underline(),
                user_execute_other: Colour::Green.bold(),
                group_read: Colour::Yellow.normal(),
                group_write: Colour::Red.normal(),
                group_execute: Colour::Green.normal(),
                other_read: Colour::Yellow.normal(),
                other_write: Colour::Red.normal(),
                other_execute: Colour::Green.normal(),
                special_user_file: Colour::Purple.normal(),
                special_other: Colour::Purple.normal(),
                attribute: Style::default(),
            },
            size: Size {
                numbers: Colour::Green.bold(),
                unit: Colour::Green.normal(),
                major: Colour::Green.bold(),
                minor: Colour::Green.normal(),
                scale_byte: Colour::Fixed(118).normal(),
                scale_kilo: Colour::Fixed(190).normal(),
                scale_mega: Colour::Fixed(226).normal(),
                scale_giga: Colour::Fixed(220).normal(),
                scale_huge: Colour::Fixed(214).normal(),
            },
            users: Users {
                user_you: Colour::Yellow.bold(),
                user_someone_else: Style::default(),
                group_yours: Colour::Yellow.bold(),
                group_not_yours: Style::default(),
            },
            links: Links {
                normal: Colour::Red.bold(),
                multi_link_file: Colour::Red.on(Colour::Yellow),
            },
            git: Git {
                new: Colour::Green.normal(),
                modified: Colour::Blue.normal(),
                deleted: Colour::Red.normal(),
                renamed: Colour::Yellow.normal(),
                typechange: Colour::Purple.normal(),
            },
            punctuation: Colour::Fixed(244).normal(),
            date: Colour::Blue.normal(),
            inode: Colour::Purple.normal(),
            blocks: Colour::Cyan.normal(),
            header: Style::default().underline(),
            symlink_path: Colour::Cyan.normal(),
            broken_arrow: Colour::Red.normal(),
            broken_filename: Colour::Red.underline(),
            control_char: Colour::Red.normal(),
        }
    }
}

impl BlocksColours for Colours {
    open spec fn spec_block_count(&self) -> Style {
        self.blocks
    }

    open spec fn spec_no_blocks(&self) -> Style {
        self.punctuation
    }

    fn block_count(&self) -> Style {
        self.blocks
    }

    fn no_blocks(&self) -> Style {
        self.punctuation
    }
}

impl FiletypeColours for Colours {
    open spec fn spec_normal(&self) -> Style {
        self.filekinds.normal
    }

    open spec fn spec_directory(&self) -> Style {
        self.filekinds.directory
    }

    open spec fn spec_pipe(&self) -> Style {
        self.filekinds.pipe
    }

    open spec fn spec_symlink(&self) -> Style {
        self.filekinds.symlink
    }

    open spec fn spec_device(&self) -> Style {
        self.filekinds.device
    }

    open spec fn spec_socket(&self) -> Style {
        self.filekinds.socket
    }

    open spec fn spec_special(&self) -> Style {
        self.filekinds.special
    }

    fn normal(&self) -> Style {
        self.filekinds.normal
    }

    fn directory(&self) -> Style {
        self.filekinds.directory
    }

    fn pipe(&self) -> Style {
        self.filekinds.pipe
    }

    fn symlink(&self) -> Style {
        self.filekinds.symlink
    }

    fn device(&self) -> Style {
        self.filekinds.device
    }

    fn socket(&self) -> Style {
        self.filekinds.socket
    }

    fn special(&self) -> Style {
        self.filekinds.special
    }
}

impl GitColours for Colours {
    open spec fn spec_not_modified(&self) -> Style {
        self.punctuation
    }

    open spec fn spec_new(&self) -> Style {
        self.git.new
    }

    open spec fn spec_modified(&self) -> Style {
        self.git.modified
    }

    open spec fn spec_deleted(&self) -> Style {
        self.git.deleted
    }

    open spec fn spec_renamed(&self) -> Style {
        self.git.renamed
    }

    open spec fn spec_type_change(&self) -> Style {
        self.git.typechange
    }

    fn not_modified(&self) -> Style {
        self.punctuation
    }

    fn new(&self) -> Style {
        self.git.new
    }

    fn modified(&self) -> Style {
        self.git.modified
    }

    fn deleted(&self) -> Style {
        self.git.deleted
    }

    fn renamed(&self) -> Style {
        self.git.renamed
    }

    fn type_change(&self) -> Style {
        self.git.typechange
    }
}

impl GroupColours for Colours {
    open spec fn spec_yours(&self) -> Style {
        self.users.group_yours
    }

    open spec fn spec_not_yours(&self) -> Style {
        self.users.group_not_yours
    }

    fn yours(&self) -> Style {
        self.users.group_yours
    }

    fn not_yours(&self) -> Style {
        self.users.group_not_yours
    }
}

impl LinksColours for Colours {
    open spec fn spec_normal(&self) -> Style {
        self.links.normal
    }

    open spec fn spec_multi_link_file(&self) -> Style {
        self.links.multi_link_file
    }

    fn normal(&self) -> Style {
        self.links.normal
    }

    fn multi_link_file(&self) -> Style {
        self.links.multi_link_file
    }
}

impl PermissionsColours for Colours {
    open spec fn spec_dash(&self) -> Style {
        self.punctuation
    }

    open spec fn spec_user_read(&self) -> Style {
        self.perms.user_read
    }

    open spec fn spec_user_write(&self) -> Style {
        self.perms.user_write
    }

    open spec fn spec_user_execute_file(&self) -> Style {
        self.perms.user_execute_file
    }

    open spec fn spec_user_execute_other(&self) -> Style {
        self.perms.user_execute_other
    }

    open spec fn spec_group_read(&self) -> Style {
        self.perms.group_read
    }

    open spec fn spec_group_write(&self) -> Style {
        self.perms.group_write
    }

    open spec fn spec_group_execute(&self) -> Style {
        self.perms.group_execute
    }

    open spec fn spec_other_read(&self) -> Style {
        self.perms.other_read
    }

    open spec fn spec_other_write(&self) -> Style {
        self.perms.other_write
    }

    open spec fn spec_other_execute(&self) -> Style {
        self.perms.other_execute
    }

    open spec fn spec_special_user_file(&self) -> Style {
        self.perms.special_user_file
    }

    open spec fn spec_special_other(&self) -> Style {
        self.perms.special_other
    }

    open spec fn spec_attribute(&self) -> Style {
        self.perms.attribute
    }

    fn dash(&self) -> Style {
        self.punctuation
    }

    fn user_read(&self) -> Style {
        self.perms.user_read
    }

    fn user_write(&self) -> Style {
        self.perms.user_write
    }

    fn user_execute_file(&self) -> Style {
        self.perms.user_execute_file
    }

    fn user_execute_other(&self) -> Style {
        self.perms.user_execute_other
    }

    fn group_read(&self) -> Style {
        self.perms.group_read
    }

    fn group_write(&self) -> Style {
        self.perms.group_write
    }

    fn group_execute(&self) -> Style {
        self.perms.group_execute
    }

    fn other_read(&self) -> Style {
        self.perms.other_read
    }

    fn other_write(&self) -> Style {
        self.perms.other_write
    }

    fn other_execute(&self) -> Style {
        self.perms.other_execute
    }

    fn special_user_file(&self) -> Style {
        self.perms.special_user_file
    }

    fn special_other(&self) -> Style {
        self.perms.special_other
    }

    fn attribute(&self) -> Style {
        self.perms.attribute
    }
}

impl SizeColours for Colours {
    /// The one styling decision that depends on a runtime value. With
    /// `scale` off, magnitude is ignored and the plain number style is
    /// returned. With `scale` on, the byte count picks one of five buckets
    /// at binary (1024-based) thresholds, strict less-than, first match
    /// wins; everything from 1024⁴ up collapses into the huge bucket.
    open spec fn spec_size(&self, size: u64) -> Style {
        if !self.scale {
            self.size.numbers
        } else if size < 1024 {
            self.size.scale_byte
        } else if size < 1024 * 1024 {
            self.size.scale_kilo
        } else if size < 1024 * 1024 * 1024 {
            self.size.scale_mega
        } else if size < 1024 * 1024 * 1024 * 1024 {
            self.size.scale_giga
        } else {
            self.size.scale_huge
        }
    }

    open spec fn spec_unit(&self) -> Style {
        self.size.unit
    }

    open spec fn spec_no_size(&self) -> Style {
        self.punctuation
    }

    open spec fn spec_major(&self) -> Style {
        self.size.major
    }

    open spec fn spec_comma(&self) -> Style {
        self.punctuation
    }

    open spec fn spec_minor(&self) -> Style {
        self.size.minor
    }

    fn size(&self, size: u64) -> Style {
        if self.scale {
            if size < 1024 {
                self.size.scale_byte
            } else if size < 1024 * 1024 {
                self.size.scale_kilo
            } else if size < 1024 * 1024 * 1024 {
                self.size.scale_mega
            } else if size < 1024 * 1024 * 1024 * 1024 {
                self.size.scale_giga
            } else {
                self.size.scale_huge
            }
        } else {
            self.size.numbers
        }
    }

    fn unit(&self) -> Style {
        self.size.unit
    }

    fn no_size(&self) -> Style {
        self.punctuation
    }

    fn major(&self) -> Style {
        self.size.major
    }

    fn comma(&self) -> Style {
        self.punctuation
    }

    fn minor(&self) -> Style {
        self.size.minor
    }
}

impl UserColours for Colours {
    open spec fn spec_you(&self) -> Style {
        self.users.user_you
    }

    open spec fn spec_someone_else(&self) -> Style {
        self.users.user_someone_else
    }

    fn you(&self) -> Style {
        self.users.user_you
    }

    fn someone_else(&self) -> Style {
        self.users.user_someone_else
    }
}

impl Default for Colours {
    fn default() -> (r: Colours)
        ensures
            r == Colours::spec_default(),
    {
        Colours {
            scale: false,
            filekinds: FileKinds::default(),
            filetypes: FileTypes::default(),
            perms: Permissions::default(),
            size: Size::default(),
            users: Users::default(),
            links: Links::default(),
            git: Git::default(),
            punctuation: Style::default(),
            date: Style::default(),
            inode: Style::default(),
            blocks: Style::default(),
            header: Style::default(),
            symlink_path: Style::default(),
            broken_arrow: Style::default(),
            broken_filename: Style::default(),
            control_char: Style::default(),
        }
    }
}

} // verus!
