use exa_theme::colours::Colours;
use exa_theme::render::BlocksColours;
use exa_theme::render::FiletypeColours;
use exa_theme::render::GitColours;
use exa_theme::render::GroupColours;
use exa_theme::render::LinksColours;
use exa_theme::render::PermissionsColours;
use exa_theme::render::SizeColours;
use exa_theme::render::UserColours;
use exa_theme::style::Colour;
use exa_theme::style::Style;

#[test]
fn style_builders_set_the_named_parts() {
    let bold = Colour::Red.bold();
    assert_eq!(bold.foreground, Colour::Red);
    assert_eq!(bold.background, Colour::Unset);
    assert!(bold.is_bold);
    assert!(!bold.is_underline);

    let plain_green = Colour::Green.normal();
    assert_eq!(plain_green.foreground, Colour::Green);
    assert!(!plain_green.is_bold && !plain_green.is_underline);

    let underlined = Colour::Red.underline();
    assert!(underlined.is_underline && !underlined.is_bold);

    let on_yellow = Colour::Red.on(Colour::Yellow);
    assert_eq!(on_yellow.foreground, Colour::Red);
    assert_eq!(on_yellow.background, Colour::Yellow);

    let neutral = Style::default();
    assert_eq!(neutral.foreground, Colour::Unset);
    assert_eq!(neutral.background, Colour::Unset);
    assert!(!neutral.is_bold && !neutral.is_underline);
    assert_eq!(neutral.underline(), Colour::Unset.underline());
}

#[test]
fn plain_answers_every_query_with_the_neutral_style() {
    let t = Colours::plain();
    let neutral = Style::default();

    assert_eq!(t.block_count(), neutral);
    assert_eq!(t.no_blocks(), neutral);

    assert_eq!(FiletypeColours::normal(&t), neutral);
    assert_eq!(t.directory(), neutral);
    assert_eq!(t.pipe(), neutral);
    assert_eq!(t.symlink(), neutral);
    assert_eq!(t.device(), neutral);
    assert_eq!(t.socket(), neutral);
    assert_eq!(t.special(), neutral);

    assert_eq!(t.not_modified(), neutral);
    assert_eq!(t.new(), neutral);
    assert_eq!(t.modified(), neutral);
    assert_eq!(t.deleted(), neutral);
    assert_eq!(t.renamed(), neutral);
    assert_eq!(t.type_change(), neutral);

    assert_eq!(t.yours(), neutral);
    assert_eq!(t.not_yours(), neutral);

    assert_eq!(LinksColours::normal(&t), neutral);
    assert_eq!(t.multi_link_file(), neutral);

    assert_eq!(t.dash(), neutral);
    assert_eq!(t.user_read(), neutral);
    assert_eq!(t.user_write(), neutral);
    assert_eq!(t.user_execute_file(), neutral);
    assert_eq!(t.user_execute_other(), neutral);
    assert_eq!(t.group_read(), neutral);
    assert_eq!(t.group_write(), neutral);
    assert_eq!(t.group_execute(), neutral);
    assert_eq!(t.other_read(), neutral);
    assert_eq!(t.other_write(), neutral);
    assert_eq!(t.other_execute(), neutral);
    assert_eq!(t.special_user_file(), neutral);
    assert_eq!(t.special_other(), neutral);
    assert_eq!(t.attribute(), neutral);

    assert_eq!(t.size(0), neutral);
    assert_eq!(t.size(1023), neutral);
    assert_eq!(t.size(1024), neutral);
    assert_eq!(t.size(u64::MAX), neutral);
    assert_eq!(t.unit(), neutral);
    assert_eq!(t.no_size(), neutral);
    assert_eq!(t.major(), neutral);
    assert_eq!(t.comma(), neutral);
    assert_eq!(t.minor(), neutral);

    assert_eq!(t.you(), neutral);
    assert_eq!(t.someone_else(), neutral);
}

#[test]
fn construction_is_deterministic() {
    assert_eq!(Colours::plain(), Colours::plain());
    assert_eq!(Colours::colourful(true), Colours::colourful(true));
    assert_eq!(Colours::colourful(false), Colours::colourful(false));
}

#[test]
fn scale_flag_is_taken_from_the_argument() {
    assert!(Colours::colourful(true).scale);
    assert!(!Colours::colourful(false).scale);
    assert!(!Colours::plain().scale);
}

#[test]
fn scale_flag_touches_no_style_field() {
    let a = Colours::colourful(true);
    let b = Colours::colourful(false);
    assert_eq!(a.filekinds, b.filekinds);
    assert_eq!(a.filetypes, b.filetypes);
    assert_eq!(a.perms, b.perms);
    assert_eq!(a.size, b.size);
    assert_eq!(a.users, b.users);
    assert_eq!(a.links, b.links);
    assert_eq!(a.git, b.git);
    assert_eq!(a.punctuation, b.punctuation);
    assert_eq!(a.date, b.date);
    assert_eq!(a.inode, b.inode);
    assert_eq!(a.blocks, b.blocks);
    assert_eq!(a.header, b.header);
    assert_eq!(a.symlink_path, b.symlink_path);
    assert_eq!(a.broken_arrow, b.broken_arrow);
    assert_eq!(a.broken_filename, b.broken_filename);
    assert_eq!(a.control_char, b.control_char);
}

#[test]
fn size_buckets_change_at_binary_thresholds() {
    let t = Colours::colourful(true);
    let kibi: u64 = 1024;

    assert_eq!(t.size(0), t.size.scale_byte);
    assert_eq!(t.size(1023), t.size.scale_byte);
    assert_eq!(t.size(1024), t.size.scale_kilo);
    assert_eq!(t.size(kibi.pow(2) - 1), t.size.scale_kilo);
    assert_eq!(t.size(kibi.pow(2)), t.size.scale_mega);
    assert_eq!(t.size(kibi.pow(3) - 1), t.size.scale_mega);
    assert_eq!(t.size(kibi.pow(3)), t.size.scale_giga);
    assert_eq!(t.size(kibi.pow(4) - 1), t.size.scale_giga);
    assert_eq!(t.size(kibi.pow(4)), t.size.scale_huge);
    assert_eq!(t.size(kibi.pow(5)), t.size.scale_huge);
    assert_eq!(t.size(u64::MAX), t.size.scale_huge);
}

#[test]
fn without_scale_magnitude_has_no_effect() {
    let t = Colours::colourful(false);
    let kibi: u64 = 1024;

    assert_eq!(t.size(0), t.size.numbers);
    assert_eq!(t.size(1023), t.size.numbers);
    assert_eq!(t.size(1024), t.size.numbers);
    assert_eq!(t.size(kibi.pow(4)), t.size.numbers);
    assert_eq!(t.size(u64::MAX), t.size.numbers);
}

#[test]
fn accessors_project_the_named_fields() {
    let t = Colours::colourful(true);

    assert_eq!(t.block_count(), t.blocks);
    assert_eq!(t.no_blocks(), t.punctuation);

    assert_eq!(FiletypeColours::normal(&t), t.filekinds.normal);
    assert_eq!(t.directory(), t.filekinds.directory);
    assert_eq!(t.pipe(), t.filekinds.pipe);
    assert_eq!(t.symlink(), t.filekinds.symlink);
    assert_eq!(t.device(), t.filekinds.device);
    assert_eq!(t.socket(), t.filekinds.socket);
    assert_eq!(t.special(), t.filekinds.special);

    assert_eq!(t.not_modified(), t.punctuation);
    assert_eq!(t.new(), t.git.new);
    assert_eq!(t.modified(), t.git.modified);
    assert_eq!(t.deleted(), t.git.deleted);
    assert_eq!(t.renamed(), t.git.renamed);
    assert_eq!(t.type_change(), t.git.typechange);

    assert_eq!(t.yours(), t.users.group_yours);
    assert_eq!(t.not_yours(), t.users.group_not_yours);

    assert_eq!(LinksColours::normal(&t), t.links.normal);
    assert_eq!(t.multi_link_file(), t.links.multi_link_file);

    assert_eq!(t.dash(), t.punctuation);
    assert_eq!(t.user_read(), t.perms.user_read);
    assert_eq!(t.user_write(), t.perms.user_write);
    assert_eq!(t.user_execute_file(), t.perms.user_execute_file);
    assert_eq!(t.user_execute_other(), t.perms.user_execute_other);
    assert_eq!(t.group_read(), t.perms.group_read);
    assert_eq!(t.group_write(), t.perms.group_write);
    assert_eq!(t.group_execute(), t.perms.group_execute);
    assert_eq!(t.other_read(), t.perms.other_read);
    assert_eq!(t.other_write(), t.perms.other_write);
    assert_eq!(t.other_execute(), t.perms.other_execute);
    assert_eq!(t.special_user_file(), t.perms.special_user_file);
    assert_eq!(t.special_other(), t.perms.special_other);
    assert_eq!(t.attribute(), t.perms.attribute);

    assert_eq!(t.unit(), t.size.unit);
    assert_eq!(t.no_size(), t.punctuation);
    assert_eq!(t.major(), t.size.major);
    assert_eq!(t.comma(), t.punctuation);
    assert_eq!(t.minor(), t.size.minor);

    assert_eq!(t.you(), t.users.user_you);
    assert_eq!(t.someone_else(), t.users.user_someone_else);
}

#[test]
fn punctuation_is_one_shared_value() {
    let t = Colours::colourful(false);
    assert_eq!(t.dash(), t.comma());
    assert_eq!(t.comma(), t.no_size());
    assert_eq!(t.no_size(), t.no_blocks());
    assert_eq!(t.no_blocks(), t.not_modified());
    assert_eq!(t.not_modified(), Colour::Fixed(244).normal());
}

#[test]
fn plain_and_colourful_are_never_equal() {
    assert_ne!(Colours::plain(), Colours::colourful(true));
    assert_ne!(Colours::plain(), Colours::colourful(false));
}

#[test]
fn colourful_palette_spot_checks() {
    let t = Colours::colourful(false);
    assert_eq!(t.filekinds.normal, Style::default());
    assert_eq!(t.directory(), Colour::Blue.bold());
    assert_eq!(t.symlink(), Colour::Cyan.normal());
    assert_eq!(t.socket(), Colour::Red.bold());
    assert_eq!(t.filekinds.executable, Colour::Green.bold());
    assert_eq!(t.filetypes.image, Colour::Fixed(133).normal());
    assert_eq!(t.filetypes.immediate, Colour::Yellow.bold().underline());
    assert_eq!(t.user_execute_file(), Colour::Green.bold().underline());
    assert_eq!(t.attribute(), Style::default());
    assert_eq!(t.size.numbers, Colour::Green.bold());
    assert_eq!(t.size.scale_byte, Colour::Fixed(118).normal());
    assert_eq!(t.size.scale_huge, Colour::Fixed(214).normal());
    assert_eq!(t.multi_link_file(), Colour::Red.on(Colour::Yellow));
    assert_eq!(t.header, Style::default().underline());
    assert_eq!(t.you(), Colour::Yellow.bold());
    assert_eq!(t.someone_else(), Style::default());
    assert_eq!(t.date, Colour::Blue.normal());
    assert_eq!(t.broken_filename, Colour::Red.underline());
}
