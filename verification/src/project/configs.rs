//! The configuration files a project generates: which files, where, and
//! what stands in them.

use crate::fspath::{join, joined};
use crate::plugins::{Definition, DefinitionView};
use crate::project::{
    clone_options, Package, Project, ProjectError, ProjectErrorView, SimpleConfig,
    SimpleConfigView, TemplateSet, VERSION,
};
use crate::repo::{LocalRepo, PluginDefinitionProvider};
use crate::templates::StartSh;
use std::fmt::Write;
use vstd::prelude::*;
use vstd::string::*;

verus! {

/// How the comment that signs a generated file is written.
#[derive(Debug, Clone, Copy, PartialEq, Eq, Structural)]
pub enum TagFormat {
    /// `#` comments.
    Shell,
    /// `//` comments.
    Ini,
}

impl TagFormat {
    /// What starts a comment line.
    pub open spec fn comment(self) -> Seq<char> {
        match self {
            TagFormat::Shell => "# "@,
            TagFormat::Ini => "// "@,
        }
    }
}

/// The first part of the signature, up to the time stamp.
pub open spec fn tag_head(format: TagFormat) -> Seq<char> {
    format.comment() + "Generated by sm-pkg-"@ + VERSION@ + " - "@
}

/// The second part of the signature, from the end of the time stamp on.
pub open spec fn tag_tail(format: TagFormat) -> Seq<char> {
    "\n"@ + format.comment() + "DO NOT EDIT THIS FILE MANUALLY\n"@
}

/// The two comment lines that sign a generated file. The first names the
/// version and the time of generation, the second warns the reader off.
pub open spec fn tag_text(format: TagFormat, stamp: Seq<char>) -> Seq<char> {
    tag_head(format) + stamp + tag_tail(format)
}

/// The signature of a file generated at the time `stamp`.
pub fn write_tag(format: &TagFormat, stamp: &str) -> (r: String)
    ensures
        r@ == tag_text(*format, stamp@),
{
    let comment = match format {
        TagFormat::Shell => "# ",
        TagFormat::Ini => "// ",
    };
    let mut r = String::from_str(comment);
    r.append("Generated by sm-pkg-");
    r.append(VERSION);
    r.append(" - ");
    r.append(stamp);
    r.append("\n");
    r.append(comment);
    r.append("DO NOT EDIT THIS FILE MANUALLY\n");
    assert(r@ =~= tag_text(*format, stamp@));
    r
}

/// How the time of generation is written: `YYYY-MM-DD hh:mm:ss`.
pub const STAMP_FORMAT: &'static str = "%Y-%m-%d %H:%M:%S";

/// The time `secs` seconds after the epoch, in UTC, written in the format
/// `format` as chrono reads formats; `None` for a time outside the
/// calendar's range and for a format that cannot be written.
pub uninterp spec fn utc_stamp(secs: int, format: Seq<char>) -> Option<Seq<char>>;

/// Calls `chrono::DateTime::from_timestamp` for the time and writes what
/// `chrono::DateTime::format` makes of it into a text. Both depend on the
/// number of seconds and on the format alone; a format that chrono cannot
/// write gives `None`, as a time out of range does.
#[verifier::external_body]
pub(crate) fn format_utc(secs: i64, format: &str) -> (r: Option<String>)
    ensures
        r.deep_view() == utc_stamp(secs as int, format@),
{
    let time = chrono::DateTime::from_timestamp(secs, 0)?;
    let mut stamp = String::new();
    write!(stamp, "{}", time.format(format)).ok()?;
    Some(stamp)
}

/// The signature of a file generated `now` seconds after the epoch, with the
/// time written as `STAMP_FORMAT` says; `None` where that time is outside
/// the calendar's range.
pub fn tag_at(format: &TagFormat, now: i64) -> (r: Option<String>)
    ensures
        r.deep_view() == match utc_stamp(now as int, STAMP_FORMAT@) {
            Some(stamp) => Some(tag_text(*format, stamp)),
            None => None,
        },
{
    match format_utc(now, STAMP_FORMAT) {
        Some(stamp) => Some(write_tag(format, stamp.as_str())),
        None => None,
    }
}

/// The generated files that come from a template.
#[derive(Debug, Clone, Copy, PartialEq, Eq, Structural)]
pub enum TemplateKind {
    SourcemodCfg,
    CoreCfg,
    DatabasesCfg,
    MaplistsCfg,
    AdminsCfg,
    AdminGroupsCfg,
    AdminOverridesCfg,
    AdminsSimpleIni,
    StartSh,
}

impl TemplateKind {
    /// Where the file goes, relative to the project root.
    pub open spec fn file(self) -> Seq<char> {
        match self {
            TemplateKind::SourcemodCfg => "tf/cfg/sourcemod/sourcemod.cfg"@,
            TemplateKind::CoreCfg => "tf/addons/sourcemod/configs/core.cfg"@,
            TemplateKind::DatabasesCfg => "tf/addons/sourcemod/configs/databases.cfg"@,
            TemplateKind::MaplistsCfg => "tf/addons/sourcemod/configs/maplists.cfg"@,
            TemplateKind::AdminsCfg => "tf/addons/sourcemod/configs/admins.cfg"@,
            TemplateKind::AdminGroupsCfg => "tf/addons/sourcemod/configs/admin_groups.cfg"@,
            TemplateKind::AdminOverridesCfg => "tf/addons/sourcemod/configs/admin_overrides.cfg"@,
            TemplateKind::AdminsSimpleIni => "tf/addons/sourcemod/configs/admins_simple.ini"@,
            TemplateKind::StartSh => "start.sh"@,
        }
    }

    /// How the file is signed. Only the start script is a shell file.
    pub open spec fn format(self) -> TagFormat {
        match self {
            TemplateKind::StartSh => TagFormat::Shell,
            _ => TagFormat::Ini,
        }
    }

    /// Where the file goes, relative to the project root.
    pub fn path(&self) -> (r: &'static str)
        ensures
            r@ == self.file(),
    {
        match self {
            TemplateKind::SourcemodCfg => "tf/cfg/sourcemod/sourcemod.cfg",
            TemplateKind::CoreCfg => "tf/addons/sourcemod/configs/core.cfg",
            TemplateKind::DatabasesCfg => "tf/addons/sourcemod/configs/databases.cfg",
            TemplateKind::MaplistsCfg => "tf/addons/sourcemod/configs/maplists.cfg",
            TemplateKind::AdminsCfg => "tf/addons/sourcemod/configs/admins.cfg",
            TemplateKind::AdminGroupsCfg => "tf/addons/sourcemod/configs/admin_groups.cfg",
            TemplateKind::AdminOverridesCfg => "tf/addons/sourcemod/configs/admin_overrides.cfg",
            TemplateKind::AdminsSimpleIni => "tf/addons/sourcemod/configs/admins_simple.ini",
            TemplateKind::StartSh => "start.sh",
        }
    }
}

/// What a generated file holds after its signature.
#[derive(Debug)]
pub enum ConfigSource {
    /// The rendering of a template with the values of the manifest.
    Template(TemplateKind),
    /// One `key "value"` line for each option.
    Options(Vec<(String, String)>),
}

pub enum ConfigSourceView {
    Template(TemplateKind),
    Options(Seq<(Seq<char>, Seq<char>)>),
}

impl DeepView for ConfigSource {
    type V = ConfigSourceView;

    open spec fn deep_view(&self) -> ConfigSourceView {
        match self {
            ConfigSource::Template(kind) => ConfigSourceView::Template(*kind),
            ConfigSource::Options(options) => ConfigSourceView::Options(options.deep_view()),
        }
    }
}

/// One file to generate. Nothing in it depends on the time of generation.
#[derive(Debug)]
pub struct ConfigWrite {
    /// Where the file goes.
    pub path: String,
    /// How its signature is written.
    pub format: TagFormat,
    /// What follows the signature.
    pub source: ConfigSource,
    /// Whether the file is made executable.
    pub executable: bool,
}

pub struct ConfigWriteView {
    pub path: Seq<char>,
    pub format: TagFormat,
    pub source: ConfigSourceView,
    pub executable: bool,
}

impl DeepView for ConfigWrite {
    type V = ConfigWriteView;

    open spec fn deep_view(&self) -> ConfigWriteView {
        ConfigWriteView {
            path: self.path@,
            format: self.format,
            source: self.source.deep_view(),
            executable: self.executable,
        }
    }
}

/// The lines of a list of options: `key "value"`, one line each, in order.
pub open spec fn option_lines(options: Seq<(Seq<char>, Seq<char>)>) -> Seq<char>
    decreases options.len(),
{
    if options.len() == 0 {
        Seq::empty()
    } else {
        option_lines(options.drop_last()) + options.last().0 + " \""@ + options.last().1 + "\"\n"@
    }
}

impl ConfigWriteView {
    /// The text of the file as generated at the time `stamp`, where the
    /// library renders it: the signature, then the option lines. `None` for a
    /// template, which the caller renders after the signature.
    pub open spec fn text(self, stamp: Seq<char>) -> Option<Seq<char>> {
        match self.source {
            ConfigSourceView::Template(_) => None,
            ConfigSourceView::Options(options) => Some(
                tag_text(self.format, stamp) + option_lines(options),
            ),
        }
    }
}

/// Two generations of the same file differ in the time stamp alone: what
/// stands before it and what stands after it are the same.
pub proof fn lemma_text_differs_only_in_stamp(
    write: ConfigWriteView,
    first: Seq<char>,
    second: Seq<char>,
)
    requires
        write.source is Options,
    ensures
        write.text(first) == Some(
            tag_head(write.format) + first + (tag_tail(write.format) + option_lines(
                write.source->Options_0,
            )),
        ),
        write.text(second) == Some(
            tag_head(write.format) + second + (tag_tail(write.format) + option_lines(
                write.source->Options_0,
            )),
        ),
{
    let rest = option_lines(write.source->Options_0);
    assert(tag_text(write.format, first) + rest =~= tag_head(write.format) + first + (tag_tail(
        write.format,
    ) + rest));
    assert(tag_text(write.format, second) + rest =~= tag_head(write.format) + second + (tag_tail(
        write.format,
    ) + rest));
}

/// The lines of a list of options.
pub fn render_options(options: &Vec<(String, String)>) -> (r: String)
    ensures
        r@ == option_lines(options.deep_view()),
{
    let ghost all = options.deep_view();
    let mut r = String::new();
    let mut i: usize = 0;
    assert(all.take(0) =~= Seq::empty());
    while i < options.len()
        invariant
            i <= options.len(),
            all == options.deep_view(),
            r@ == option_lines(all.take(i as int)),
        decreases options.len() - i,
    {
        let ghost before = r@;
        r.append(options[i].0.as_str());
        r.append(" \"");
        r.append(options[i].1.as_str());
        r.append("\"\n");
        proof {
            assert(all.take(i + 1).drop_last() =~= all.take(i as int));
            assert(all.take(i + 1).last() == options@[i as int].deep_view());
            assert(r@ =~= before + options@[i as int].0@ + " \""@ + options@[i as int].1@ + "\"\n"@);
        }
        i += 1;
    }
    assert(all.take(i as int) =~= all);
    r
}

impl ConfigWrite {
    /// The signature of the file as generated at the time `stamp`.
    pub fn tag(&self, stamp: &str) -> (r: String)
        ensures
            r@ == tag_text(self.format, stamp@),
    {
        write_tag(&self.format, stamp)
    }

    /// What follows the signature, where the library renders it: the option
    /// lines. `None` for a template.
    pub fn body(&self) -> (r: Option<String>)
        ensures
            r.deep_view() == match self.deep_view().source {
                ConfigSourceView::Template(_) => None,
                ConfigSourceView::Options(options) => Some(option_lines(options)),
            },
    {
        match &self.source {
            ConfigSource::Template(_) => None,
            ConfigSource::Options(options) => Some(render_options(options)),
        }
    }

    /// The text of the file as generated at the time `stamp`; `None` for a
    /// template, which the caller renders after the signature.
    pub fn render(&self, stamp: &str) -> (r: Option<String>)
        ensures
            r.deep_view() == self.deep_view().text(stamp@),
    {
        match &self.source {
            ConfigSource::Template(_) => None,
            ConfigSource::Options(options) => {
                let mut text = write_tag(&self.format, stamp);
                let lines = render_options(options);
                text.append(lines.as_str());
                Some(text)
            },
        }
    }
}

/// The options with `key` set to `value`: the first option of that key is
/// replaced where there is one, and the option is appended otherwise.
pub open spec fn set_option(
    options: Seq<(Seq<char>, Seq<char>)>,
    key: Seq<char>,
    value: Seq<char>,
) -> Seq<(Seq<char>, Seq<char>)>
    decreases options.len(),
{
    if options.len() == 0 {
        seq![(key, value)]
    } else if options[0].0 == key {
        seq![(key, value)] + options.drop_first()
    } else {
        seq![options[0]] + set_option(options.drop_first(), key, value)
    }
}

/// The options of `base` with each option of `overrides` set, in the order
/// of `overrides`.
pub open spec fn merged_options(
    base: Seq<(Seq<char>, Seq<char>)>,
    overrides: Seq<(Seq<char>, Seq<char>)>,
) -> Seq<(Seq<char>, Seq<char>)>
    decreases overrides.len(),
{
    if overrides.len() == 0 {
        base
    } else {
        merged_options(
            set_option(base, overrides[0].0, overrides[0].1),
            overrides.drop_first(),
        )
    }
}

/// The options that the project sets for the file at `path`: those of the
/// first of `local` that is for that path, none where there is no such file.
pub open spec fn overrides_for(local: Seq<SimpleConfigView>, path: Seq<char>) -> Seq<
    (Seq<char>, Seq<char>),
>
    decreases local.len(),
{
    if local.len() == 0 {
        Seq::empty()
    } else if local[0].path == path {
        local[0].options
    } else {
        overrides_for(local.drop_first(), path)
    }
}

/// Setting a key that the first `i` options do not have and option `i` has
/// replaces option `i`.
pub proof fn lemma_set_option_at(
    options: Seq<(Seq<char>, Seq<char>)>,
    key: Seq<char>,
    value: Seq<char>,
    i: int,
)
    requires
        0 <= i < options.len(),
        options[i].0 == key,
        forall|j: int| 0 <= j < i ==> (#[trigger] options[j]).0 != key,
    ensures
        set_option(options, key, value) == options.update(i, (key, value)),
    decreases i,
{
    if i == 0 {
        assert(seq![(key, value)] + options.drop_first() =~= options.update(0, (key, value)));
    } else {
        assert(options[0].0 != key);
        let rest = options.drop_first();
        assert forall|j: int| 0 <= j < i - 1 implies (#[trigger] rest[j]).0 != key by {
            assert(rest[j] == options[j + 1]);
        }
        lemma_set_option_at(rest, key, value, i - 1);
        assert(seq![options[0]] + rest.update(i - 1, (key, value)) =~= options.update(
            i,
            (key, value),
        ));
    }
}

/// Setting a key that no option has appends the option.
pub proof fn lemma_set_option_absent(
    options: Seq<(Seq<char>, Seq<char>)>,
    key: Seq<char>,
    value: Seq<char>,
)
    requires
        forall|j: int| 0 <= j < options.len() ==> (#[trigger] options[j]).0 != key,
    ensures
        set_option(options, key, value) == options.push((key, value)),
    decreases options.len(),
{
    if options.len() == 0 {
        assert(seq![(key, value)] =~= options.push((key, value)));
    } else {
        assert(options[0].0 != key);
        let rest = options.drop_first();
        assert forall|j: int| 0 <= j < rest.len() implies (#[trigger] rest[j]).0 != key by {
            assert(rest[j] == options[j + 1]);
        }
        lemma_set_option_absent(rest, key, value);
        assert(seq![options[0]] + rest.push((key, value)) =~= options.push((key, value)));
    }
}

/// Files of `local` that are not for `path` can be skipped.
pub proof fn lemma_overrides_skip(local: Seq<SimpleConfigView>, path: Seq<char>, n: int)
    requires
        0 <= n <= local.len(),
        forall|k: int| 0 <= k < n ==> (#[trigger] local[k]).path != path,
    ensures
        overrides_for(local, path) == overrides_for(local.skip(n), path),
    decreases n,
{
    if n == 0 {
        assert(local.skip(0) =~= local);
    } else {
        assert(local[0].path != path);
        let rest = local.drop_first();
        assert forall|k: int| 0 <= k < n - 1 implies (#[trigger] rest[k]).path != path by {
            assert(rest[k] == local[k + 1]);
        }
        lemma_overrides_skip(rest, path, n - 1);
        assert(rest.skip(n - 1) =~= local.skip(n));
    }
}

/// No key occurs twice among the options.
pub open spec fn unique_keys(options: Seq<(Seq<char>, Seq<char>)>) -> bool {
    forall|i: int, j: int| 0 <= i < j < options.len() ==> options[i].0 != options[j].0
}

/// The value that the options give `key`: that of the first option of that
/// key; none where no option has the key.
pub open spec fn value_of(options: Seq<(Seq<char>, Seq<char>)>, key: Seq<char>) -> Option<
    Seq<char>,
>
    decreases options.len(),
{
    if options.len() == 0 {
        None
    } else if options[0].0 == key {
        Some(options[0].1)
    } else {
        value_of(options.drop_first(), key)
    }
}

/// The value that the last option of `key` gives it; none where no option
/// has the key.
pub open spec fn last_value(options: Seq<(Seq<char>, Seq<char>)>, key: Seq<char>) -> Option<
    Seq<char>,
>
    decreases options.len(),
{
    if options.len() == 0 {
        None
    } else if options.last().0 == key {
        Some(options.last().1)
    } else {
        last_value(options.drop_last(), key)
    }
}

/// A key has a value exactly where some option has the key.
pub proof fn lemma_value_of_key(options: Seq<(Seq<char>, Seq<char>)>, key: Seq<char>)
    ensures
        value_of(options, key) is Some <==> exists|i: int|
            0 <= i < options.len() && (#[trigger] options[i]).0 == key,
    decreases options.len(),
{
    if options.len() > 0 {
        let rest = options.drop_first();
        lemma_value_of_key(rest, key);
        if options[0].0 != key {
            if value_of(rest, key) is Some {
                let i = choose|i: int| 0 <= i < rest.len() && (#[trigger] rest[i]).0 == key;
                assert(options[i + 1].0 == key);
            }
            if exists|i: int| 0 <= i < options.len() && (#[trigger] options[i]).0 == key {
                let i = choose|i: int| 0 <= i < options.len() && (#[trigger] options[i]).0 == key;
                assert(rest[i - 1].0 == key);
            }
        }
    }
}

/// Setting a key gives that key the value and leaves the value of every
/// other key as it was.
pub proof fn lemma_set_option_value(
    options: Seq<(Seq<char>, Seq<char>)>,
    key: Seq<char>,
    value: Seq<char>,
    other: Seq<char>,
)
    ensures
        value_of(set_option(options, key, value), other) == if other == key {
            Some(value)
        } else {
            value_of(options, other)
        },
    decreases options.len(),
{
    if options.len() == 0 {
        let set = seq![(key, value)];
        assert(set_option(options, key, value) == set);
        assert(set[0] == (key, value));
        assert(set.drop_first() =~= Seq::empty());
        assert(value_of(set.drop_first(), other) is None);
    } else if options[0].0 == key {
        let set = seq![(key, value)] + options.drop_first();
        assert(set_option(options, key, value) == set);
        assert(set[0] == (key, value));
        assert(set.drop_first() =~= options.drop_first());
    } else {
        let rest = options.drop_first();
        lemma_set_option_value(rest, key, value, other);
        let set = seq![options[0]] + set_option(rest, key, value);
        assert(set_option(options, key, value) == set);
        assert(set[0] == options[0]);
        assert(set.drop_first() =~= set_option(rest, key, value));
    }
}

/// Setting a key among options without duplicate keys leaves none.
pub proof fn lemma_set_option_unique(
    options: Seq<(Seq<char>, Seq<char>)>,
    key: Seq<char>,
    value: Seq<char>,
)
    requires
        unique_keys(options),
    ensures
        unique_keys(set_option(options, key, value)),
    decreases options.len(),
{
    if options.len() > 0 {
        let rest = options.drop_first();
        assert forall|i: int, j: int| 0 <= i < j < rest.len() implies rest[i].0 != rest[j].0 by {
            assert(rest[i] == options[i + 1] && rest[j] == options[j + 1]);
        }
        if options[0].0 == key {
            let set = seq![(key, value)] + rest;
            assert forall|i: int, j: int| 0 <= i < j < set.len() implies set[i].0 != set[j].0 by {
                assert(set[j] == options[j]);
                if i > 0 {
                    assert(set[i] == options[i]);
                }
            }
        } else {
            lemma_set_option_unique(rest, key, value);
            let tail = set_option(rest, key, value);
            let set = seq![options[0]] + tail;
            assert forall|i: int, j: int| 0 <= i < j < set.len() implies set[i].0 != set[j].0 by {
                assert(set[j] == tail[j - 1]);
                if i == 0 {
                    // The first key is not the one set, and no later option had it.
                    lemma_set_option_value(rest, key, value, options[0].0);
                    lemma_value_of_key(rest, options[0].0);
                    lemma_value_of_key(tail, options[0].0);
                    if tail[j - 1].0 == options[0].0 {
                        let k = choose|k: int|
                            0 <= k < rest.len() && (#[trigger] rest[k]).0 == options[0].0;
                        assert(options[k + 1].0 == options[0].0);
                    }
                } else {
                    assert(set[i] == tail[i - 1]);
                }
            }
        }
    }
}

/// The last value of a key, seen from the front of the options.
pub proof fn lemma_last_value_front(options: Seq<(Seq<char>, Seq<char>)>, key: Seq<char>)
    requires
        options.len() > 0,
    ensures
        last_value(options, key) == match last_value(options.drop_first(), key) {
            Some(v) => Some(v),
            None => if options[0].0 == key {
                Some(options[0].1)
            } else {
                None
            },
        },
    decreases options.len(),
{
    if options.len() == 1 {
        assert(options.drop_first() =~= Seq::empty());
        assert(options.drop_last() =~= Seq::empty());
    } else {
        let rest = options.drop_first();
        assert(rest.last() == options.last());
        if options.last().0 != key {
            lemma_last_value_front(options.drop_last(), key);
            assert(options.drop_last().drop_first() =~= rest.drop_last());
        }
    }
}

/// Merging works as on a map: each key gets the last value that the
/// overrides give it, and keeps the value of the base where the overrides
/// give it none.
pub proof fn lemma_merged_value(
    base: Seq<(Seq<char>, Seq<char>)>,
    overrides: Seq<(Seq<char>, Seq<char>)>,
    key: Seq<char>,
)
    ensures
        value_of(merged_options(base, overrides), key) == match last_value(overrides, key) {
            Some(v) => Some(v),
            None => value_of(base, key),
        },
    decreases overrides.len(),
{
    if overrides.len() > 0 {
        let first = overrides[0];
        lemma_merged_value(set_option(base, first.0, first.1), overrides.drop_first(), key);
        lemma_set_option_value(base, first.0, first.1, key);
        lemma_last_value_front(overrides, key);
    }
}

/// Merging into options without duplicate keys leaves none.
pub proof fn lemma_merged_unique(
    base: Seq<(Seq<char>, Seq<char>)>,
    overrides: Seq<(Seq<char>, Seq<char>)>,
)
    requires
        unique_keys(base),
    ensures
        unique_keys(merged_options(base, overrides)),
    decreases overrides.len(),
{
    if overrides.len() > 0 {
        let first = overrides[0];
        lemma_set_option_unique(base, first.0, first.1);
        lemma_merged_unique(set_option(base, first.0, first.1), overrides.drop_first());
    }
}

/// Sets `key` to `value` among the options.
pub fn put_option(options: &mut Vec<(String, String)>, key: String, value: String)
    ensures
        final(options).deep_view() == set_option(old(options).deep_view(), key@, value@),
        unique_keys(old(options).deep_view()) ==> unique_keys(final(options).deep_view()),
{
    let ghost before = options.deep_view();
    proof {
        if unique_keys(before) {
            lemma_set_option_unique(before, key@, value@);
        }
    }
    let mut i: usize = 0;
    while i < options.len()
        invariant
            i <= options.len(),
            options.deep_view() == before,
            before == old(options).deep_view(),
            forall|j: int| 0 <= j < i ==> (#[trigger] before[j]).0 != key@,
        decreases options.len() - i,
    {
        assert(before[i as int] == options@[i as int].deep_view());
        if options[i].0 == key {
            proof {
                lemma_set_option_at(before, key@, value@, i as int);
            }
            options.set(i, (key, value));
            assert(options.deep_view() =~= before.update(i as int, (key@, value@)));
            return ;
        }
        i += 1;
    }
    proof {
        lemma_set_option_absent(before, key@, value@);
    }
    options.push((key, value));
    assert(options.deep_view() =~= before.push((key@, value@)));
}

/// Sets each option of `overrides` among the options of `base`.
pub fn merge_options(base: &mut Vec<(String, String)>, overrides: &Vec<(String, String)>)
    ensures
        final(base).deep_view() == merged_options(old(base).deep_view(), overrides.deep_view()),
        unique_keys(old(base).deep_view()) ==> unique_keys(final(base).deep_view()),
{
    let ghost start = base.deep_view();
    proof {
        if unique_keys(start) {
            lemma_merged_unique(start, overrides.deep_view());
        }
    }
    let ghost all = overrides.deep_view();
    let mut i: usize = 0;
    assert(all.skip(0) =~= all);
    while i < overrides.len()
        invariant
            i <= overrides.len(),
            all == overrides.deep_view(),
            merged_options(base.deep_view(), all.skip(i as int)) == merged_options(start, all),
        decreases overrides.len() - i,
    {
        proof {
            assert(all.skip(i as int)[0] == overrides@[i as int].deep_view());
            assert(all.skip(i as int).drop_first() =~= all.skip(i + 1));
        }
        put_option(base, overrides[i].0.clone(), overrides[i].1.clone());
        i += 1;
    }
}

/// The options that the project sets for the file at `path`.
fn find_overrides<'a>(local: &'a Vec<SimpleConfig>, path: &String) -> (r: Option<&'a SimpleConfig>)
    ensures
        match r {
            Some(config) => config.options.deep_view() == overrides_for(local.deep_view(), path@),
            None => overrides_for(local.deep_view(), path@) == Seq::<
                (Seq<char>, Seq<char>),
            >::empty(),
        },
{
    let ghost all = local.deep_view();
    let mut i: usize = 0;
    while i < local.len()
        invariant
            i <= local.len(),
            all == local.deep_view(),
            forall|k: int| 0 <= k < i ==> (#[trigger] all[k]).path != path@,
        decreases local.len() - i,
    {
        assert(all[i as int] == local@[i as int].deep_view());
        if local[i].path == *path {
            proof {
                lemma_overrides_skip(all, path@, i as int);
                assert(all.skip(i as int)[0] == all[i as int]);
            }
            return Some(&local[i]);
        }
        i += 1;
    }
    proof {
        lemma_overrides_skip(all, path@, all.len() as int);
    }
    None
}

/// The file that holds the options of `config` as lines.
pub open spec fn raw_write(root: Seq<char>, config: SimpleConfigView) -> ConfigWriteView {
    ConfigWriteView {
        path: joined(root, config.path),
        format: TagFormat::Ini,
        source: ConfigSourceView::Options(config.options),
        executable: false,
    }
}

/// One file for each of `configs`, in order.
pub open spec fn raw_writes(root: Seq<char>, configs: Seq<SimpleConfigView>) -> Seq<
    ConfigWriteView,
> {
    Seq::new(configs.len(), |i: int| raw_write(root, configs[i]))
}

/// A plugin's configuration file with the options that the project sets for
/// it.
pub open spec fn merged_config(config: SimpleConfigView, local: Seq<SimpleConfigView>) -> SimpleConfigView {
    SimpleConfigView {
        path: config.path,
        options: merged_options(config.options, overrides_for(local, config.path)),
    }
}

/// The files of one plugin: each configuration file that its definition
/// declares, with the options that the project sets for it.
pub open spec fn definition_writes(
    root: Seq<char>,
    local: Seq<SimpleConfigView>,
    d: DefinitionView,
) -> Seq<ConfigWriteView> {
    match d.configs {
        Some(configs) => merged_writes(root, local, configs),
        None => Seq::empty(),
    }
}

/// One file for each of a plugin's `configs`, in order, each with the options
/// that the project sets for it.
pub open spec fn merged_writes(
    root: Seq<char>,
    local: Seq<SimpleConfigView>,
    configs: Seq<SimpleConfigView>,
) -> Seq<ConfigWriteView> {
    Seq::new(configs.len(), |i: int| raw_write(root, merged_config(configs[i], local)))
}

/// The file that comes from the template `kind`.
pub open spec fn template_write(root: Seq<char>, kind: TemplateKind) -> ConfigWriteView {
    ConfigWriteView {
        path: joined(root, kind.file()),
        format: kind.format(),
        source: ConfigSourceView::Template(kind),
        executable: kind == TemplateKind::StartSh,
    }
}

/// The file of a template where the manifest sets its values.
pub open spec fn optional_write(root: Seq<char>, kind: TemplateKind, present: bool) -> Seq<
    ConfigWriteView,
> {
    if present {
        seq![template_write(root, kind)]
    } else {
        Seq::empty()
    }
}

/// The files of the templates that the manifest sets values for, in the order
/// they are written.
pub open spec fn template_writes(root: Seq<char>, templates: Option<TemplateSet>) -> Seq<
    ConfigWriteView,
> {
    match templates {
        Some(t) => optional_write(root, TemplateKind::SourcemodCfg, t.sourcemod_cfg is Some)
            + optional_write(root, TemplateKind::CoreCfg, t.core_cfg is Some) + optional_write(
            root,
            TemplateKind::DatabasesCfg,
            t.databases_cfg is Some,
        ) + optional_write(root, TemplateKind::MaplistsCfg, t.maplists_cfg is Some)
            + optional_write(root, TemplateKind::AdminsCfg, t.admins_cfg is Some) + optional_write(
            root,
            TemplateKind::AdminGroupsCfg,
            t.admin_groups_cfg is Some,
        ) + optional_write(root, TemplateKind::AdminOverridesCfg, t.admin_overrides_cfg is Some)
            + optional_write(root, TemplateKind::AdminsSimpleIni, t.admins_simple_ini is Some),
        None => Seq::empty(),
    }
}

/// The files to generate, in order, and the error that ends the generation,
/// if there is one: the files before it are written all the same.
#[derive(Debug)]
pub struct ConfigPlan {
    pub writes: Vec<ConfigWrite>,
    pub failure: Option<ProjectError>,
}

pub struct ConfigPlanView {
    pub writes: Seq<ConfigWriteView>,
    pub failure: Option<ProjectErrorView>,
}

impl DeepView for ConfigPlan {
    type V = ConfigPlanView;

    open spec fn deep_view(&self) -> ConfigPlanView {
        ConfigPlanView { writes: self.writes.deep_view(), failure: self.failure.deep_view() }
    }
}

/// The plugin files of a project: those of each plugin of the manifest, in
/// order, up to the first plugin that the repository does not know.
pub open spec fn plugins_plan(
    repo: LocalRepo,
    root: Seq<char>,
    local: Seq<SimpleConfigView>,
    plugins: Seq<Seq<char>>,
) -> ConfigPlanView
    decreases plugins.len(),
{
    if plugins.len() == 0 {
        ConfigPlanView { writes: Seq::empty(), failure: None }
    } else {
        let before = plugins_plan(repo, root, local, plugins.drop_last());
        if before.failure is Some {
            before
        } else {
            match repo.resolution(plugins.last()) {
                Some(d) => ConfigPlanView {
                    writes: before.writes + definition_writes(root, local, d),
                    failure: None,
                },
                None => ConfigPlanView {
                    writes: before.writes,
                    failure: Some(ProjectErrorView::UnknownPlugin(plugins.last())),
                },
            }
        }
    }
}

/// The configurations of an optional list.
pub open spec fn configs_or_none(configs: Option<Seq<SimpleConfigView>>) -> Seq<SimpleConfigView> {
    match configs {
        Some(c) => c,
        None => Seq::empty(),
    }
}

/// Everything a project generates: the template files, the files given as
/// plain options, the start script where it is asked for, and the files of
/// the plugins. Without a manifest nothing is written; a start script
/// without options ends the generation before the plugin files.
pub open spec fn config_plan(repo: LocalRepo, root: Seq<char>, package: Option<Package>) -> ConfigPlanView {
    match package {
        None => ConfigPlanView { writes: Seq::empty(), failure: Some(ProjectErrorView::NoPackage) },
        Some(p) => {
            let head = template_writes(root, p.templates) + raw_writes(
                root,
                configs_or_none(p.raw_configs.deep_view()),
            );
            if p.create_startup_script == Some(true) {
                if p.startup_opts is None {
                    ConfigPlanView {
                        writes: head,
                        failure: Some(ProjectErrorView::NoStartupOptions),
                    }
                } else {
                    let rest = plugins_plan(
                        repo,
                        root,
                        configs_or_none(p.plugin_configs.deep_view()),
                        p.plugins.deep_view(),
                    );
                    ConfigPlanView {
                        writes: head + seq![template_write(root, TemplateKind::StartSh)]
                            + rest.writes,
                        failure: rest.failure,
                    }
                }
            } else {
                let rest = plugins_plan(
                    repo,
                    root,
                    configs_or_none(p.plugin_configs.deep_view()),
                    p.plugins.deep_view(),
                );
                ConfigPlanView { writes: head + rest.writes, failure: rest.failure }
            }
        },
    }
}

impl<'p> Project<'p> {
    /// The options that the project sets for the files of its plugins.
    pub open spec fn local_configs(&self) -> Seq<SimpleConfigView> {
        match self.package {
            Some(p) => configs_or_none(p.plugin_configs.deep_view()),
            None => Seq::empty(),
        }
    }

    /// The file of the template `kind`.
    fn write_template(&self, kind: TemplateKind) -> (r: ConfigWrite)
        ensures
            r.deep_view() == template_write(self.spec_root(), kind),
    {
        let (format, executable) = match kind {
            TemplateKind::StartSh => (TagFormat::Shell, true),
            _ => (TagFormat::Ini, false),
        };
        ConfigWrite {
            path: join(self.project_root.as_str(), kind.path()),
            format,
            source: ConfigSource::Template(kind),
            executable,
        }
    }

    /// Appends the file of the template `kind` where the manifest sets its
    /// values.
    fn write_optional(&self, writes: &mut Vec<ConfigWrite>, kind: TemplateKind, present: bool)
        ensures
            final(writes).deep_view() == old(writes).deep_view() + optional_write(
                self.spec_root(),
                kind,
                present,
            ),
    {
        let ghost before = writes.deep_view();
        if present {
            writes.push(self.write_template(kind));
            assert(writes.deep_view() =~= before + seq![template_write(self.spec_root(), kind)]);
        } else {
            assert(writes.deep_view() =~= before + Seq::<ConfigWriteView>::empty());
        }
    }

    /// Appends one file for each of `raw_configs`.
    pub fn write_raw_configs(&self, writes: &mut Vec<ConfigWrite>, raw_configs: &Vec<SimpleConfig>)
        ensures
            final(writes).deep_view() == old(writes).deep_view() + raw_writes(
                self.spec_root(),
                raw_configs.deep_view(),
            ),
    {
        let ghost before = writes.deep_view();
        let ghost all = raw_configs.deep_view();
        let mut i: usize = 0;
        assert(writes.deep_view() =~= before + raw_writes(self.spec_root(), all.take(0)));
        while i < raw_configs.len()
            invariant
                i <= raw_configs.len(),
                all == raw_configs.deep_view(),
                writes.deep_view() == before + raw_writes(self.spec_root(), all.take(i as int)),
            decreases raw_configs.len() - i,
        {
            let config = &raw_configs[i];
            let ghost so_far = writes.deep_view();
            writes.push(
                ConfigWrite {
                    path: join(self.project_root.as_str(), config.path.as_str()),
                    format: TagFormat::Ini,
                    source: ConfigSource::Options(clone_options(&config.options)),
                    executable: false,
                },
            );
            assert(writes.deep_view() =~= so_far.push(
                raw_write(self.spec_root(), config.deep_view()),
            ));
            assert(all.take(i + 1)[i as int] == config.deep_view());
            assert(writes.deep_view() =~= before + raw_writes(self.spec_root(), all.take(i + 1)));
            i += 1;
        }
        assert(all.take(i as int) =~= all);
    }

    /// The start script, where its options are given. Fails with
    /// `NoStartupOptions` where they are not.
    pub fn write_startup_script(&self, config: &Option<StartSh>) -> (r: Result<
        ConfigWrite,
        ProjectError,
    >)
        ensures
            match r {
                Ok(write) => config is Some && write.deep_view() == template_write(
                    self.spec_root(),
                    TemplateKind::StartSh,
                ),
                Err(e) => config is None && e.deep_view() == ProjectErrorView::NoStartupOptions,
            },
    {
        match config {
            None => Err(ProjectError::NoStartupOptions),
            Some(_) => Ok(self.write_template(TemplateKind::StartSh)),
        }
    }

    /// Appends the files of one plugin: each configuration file that its
    /// definition declares, with the options that the project sets for the
    /// file of the same path put over the plugin's own.
    pub fn write_plugin_config(&self, writes: &mut Vec<ConfigWrite>, def: &Definition)
        ensures
            final(writes).deep_view() == old(writes).deep_view() + definition_writes(
                self.spec_root(),
                self.local_configs(),
                def.deep_view(),
            ),
    {
        let ghost before = writes.deep_view();
        let ghost local_view = self.local_configs();
        let base_configs = match &def.configs {
            Some(configs) => configs,
            None => {
                assert(writes.deep_view() =~= before + Seq::<ConfigWriteView>::empty());
                return ;
            },
        };
        let empty: Vec<SimpleConfig> = Vec::new();
        assert(empty.deep_view() =~= Seq::<SimpleConfigView>::empty());
        let local_configs: &Vec<SimpleConfig> = match &self.package {
            Some(p) => match &p.plugin_configs {
                None => &empty,
                Some(configs) => configs,
            },
            None => &empty,
        };
        assert(local_configs.deep_view() == local_view);
        let ghost all = base_configs.deep_view();
        let mut i: usize = 0;
        assert(writes.deep_view() =~= before + merged_writes(self.spec_root(), local_view, all.take(0)));
        while i < base_configs.len()
            invariant
                i <= base_configs.len(),
                all == base_configs.deep_view(),
                local_configs.deep_view() == local_view,
                writes.deep_view() == before + merged_writes(
                    self.spec_root(),
                    local_view,
                    all.take(i as int),
                ),
            decreases base_configs.len() - i,
        {
            let base = &base_configs[i];
            let mut options = clone_options(&base.options);
            match find_overrides(local_configs, &base.path) {
                Some(local_config) => merge_options(&mut options, &local_config.options),
                None => {},
            }
            let ghost so_far = writes.deep_view();
            writes.push(
                ConfigWrite {
                    path: join(self.project_root.as_str(), base.path.as_str()),
                    format: TagFormat::Ini,
                    source: ConfigSource::Options(options),
                    executable: false,
                },
            );
            assert(writes.deep_view() =~= so_far.push(
                raw_write(self.spec_root(), merged_config(base.deep_view(), local_view)),
            ));
            assert(all.take(i + 1)[i as int] == base.deep_view());
            assert(writes.deep_view() =~= before + merged_writes(
                self.spec_root(),
                local_view,
                all.take(i + 1),
            ));
            i += 1;
        }
        assert(all.take(i as int) =~= all);
    }

    /// Everything the project generates, in the order it is written: the
    /// template files, the files given as plain options, the start script
    /// where it is asked for, and the files of each plugin. An error ends the
    /// list: `NoPackage` where no manifest is loaded, `NoStartupOptions` where
    /// a start script is asked for without options, `UnknownPlugin` where the
    /// repository does not know a plugin of the manifest.
    pub fn write_configs(&self) -> (r: ConfigPlan)
        ensures
            r.deep_view() == config_plan(self.spec_repo(), self.spec_root(), self.package),
    {
        let mut writes: Vec<ConfigWrite> = Vec::new();
        assert(writes.deep_view() =~= Seq::<ConfigWriteView>::empty());
        let pkg = match &self.package {
            None => {
                return ConfigPlan { writes, failure: Some(ProjectError::NoPackage) };
            },
            Some(pkg) => pkg,
        };
        let ghost root = self.spec_root();
        match &pkg.templates {
            Some(t) => {
                self.write_optional(
                    &mut writes,
                    TemplateKind::SourcemodCfg,
                    t.sourcemod_cfg.is_some(),
                );
                self.write_optional(&mut writes, TemplateKind::CoreCfg, t.core_cfg.is_some());
                self.write_optional(
                    &mut writes,
                    TemplateKind::DatabasesCfg,
                    t.databases_cfg.is_some(),
                );
                self.write_optional(&mut writes, TemplateKind::MaplistsCfg, t.maplists_cfg.is_some());
                self.write_optional(&mut writes, TemplateKind::AdminsCfg, t.admins_cfg.is_some());
                self.write_optional(
                    &mut writes,
                    TemplateKind::AdminGroupsCfg,
                    t.admin_groups_cfg.is_some(),
                );
                self.write_optional(
                    &mut writes,
                    TemplateKind::AdminOverridesCfg,
                    t.admin_overrides_cfg.is_some(),
                );
                self.write_optional(
                    &mut writes,
                    TemplateKind::AdminsSimpleIni,
                    t.admins_simple_ini.is_some(),
                );
            },
            None => {},
        }
        assert(writes.deep_view() =~= template_writes(root, pkg.templates));
        match &pkg.raw_configs {
            Some(raw_configs) => self.write_raw_configs(&mut writes, raw_configs),
            None => {
                assert(writes.deep_view() =~= writes.deep_view() + raw_writes(
                    root,
                    Seq::<SimpleConfigView>::empty(),
                ));
            },
        }
        let ghost head = writes.deep_view();
        assert(head == template_writes(root, pkg.templates) + raw_writes(
            root,
            configs_or_none(pkg.raw_configs.deep_view()),
        ));
        let wants_script = match pkg.create_startup_script {
            Some(create) => create,
            None => false,
        };
        if wants_script {
            match self.write_startup_script(&pkg.startup_opts) {
                Ok(write) => {
                    writes.push(write);
                    assert(writes.deep_view() =~= head + seq![
                        template_write(root, TemplateKind::StartSh),
                    ]);
                },
                Err(e) => {
                    return ConfigPlan { writes, failure: Some(e) };
                },
            }
        }
        let ghost fixed = writes.deep_view();
        let ghost local = configs_or_none(pkg.plugin_configs.deep_view());
        let ghost names = pkg.plugins.deep_view();
        let mut failure: Option<ProjectError> = None;
        let mut i: usize = 0;
        assert(names.take(0) =~= Seq::<Seq<char>>::empty());
        assert(writes.deep_view() =~= fixed + Seq::<ConfigWriteView>::empty());
        while i < pkg.plugins.len() && failure.is_none()
            invariant
                i <= pkg.plugins.len(),
                self.package == Some(*pkg),
                names == pkg.plugins.deep_view(),
                local == configs_or_none(pkg.plugin_configs.deep_view()),
                root == self.spec_root(),
                writes.deep_view() == fixed + plugins_plan(
                    self.spec_repo(),
                    root,
                    local,
                    names.take(i as int),
                ).writes,
                failure.deep_view() == plugins_plan(
                    self.spec_repo(),
                    root,
                    local,
                    names.take(i as int),
                ).failure,
            decreases pkg.plugins.len() - i,
        {
            proof {
                assert(names.take(i + 1).drop_last() =~= names.take(i as int));
                assert(names.take(i + 1).last() == pkg.plugins@[i as int]@);
            }
            let ghost so_far = writes.deep_view();
            match self.repo.find_plugin_definition(&pkg.plugins[i]) {
                Ok(def) => {
                    self.write_plugin_config(&mut writes, &def);
                    assert(writes.deep_view() =~= fixed + (plugins_plan(
                        self.spec_repo(),
                        root,
                        local,
                        names.take(i as int),
                    ).writes + definition_writes(root, local, def.deep_view())));
                },
                Err(_) => {
                    failure = Some(ProjectError::UnknownPlugin(pkg.plugins[i].clone()));
                },
            }
            i += 1;
        }
        proof {
            lemma_plan_stops(self.spec_repo(), root, local, names, i as int);
        }
        ConfigPlan { writes, failure }
    }
}

/// Once the plugin files end in an error, the plugins that follow add
/// nothing.
pub proof fn lemma_plan_stops(
    repo: LocalRepo,
    root: Seq<char>,
    local: Seq<SimpleConfigView>,
    plugins: Seq<Seq<char>>,
    n: int,
)
    requires
        0 <= n <= plugins.len(),
        n == plugins.len() || plugins_plan(repo, root, local, plugins.take(n)).failure is Some,
    ensures
        plugins_plan(repo, root, local, plugins) == plugins_plan(repo, root, local, plugins.take(n)),
    decreases plugins.len() - n,
{
    if n == plugins.len() {
        assert(plugins.take(n) =~= plugins);
    } else {
        assert(plugins.take(n + 1).drop_last() =~= plugins.take(n));
        lemma_plan_stops(repo, root, local, plugins, n + 1);
    }
}

} // verus!
