//! The build coordinator's configuration, the driver arguments it assembles,
//! the diagnostics it keeps, and the artifact paths it resolves.

use vstd::prelude::*;
use crate::config::{CrateType, MessageFormat, Profile, profile_name};
use crate::error::BuildErrorKind;
use crate::source::{DASH, UNDERSCORE, SourceCrate, join, join_path, resolve_crate_type};
use crate::text::{
    contains,
    seq_contains,
    split_on,
    split_seq,
    starts_with,
    trim,
    trim_char_seq,
    trim_matches,
    trim_seq,
};

verus! {

/// The target that every artifact is built for.
pub const TARGET_NAME: &'static str = "nvptx64-nvidia-cuda";

/// Appended to the module name to form the canonical entry-point name.
pub const CANONICAL_SUFFIX: &'static str = "-ptx-builder";

/// The name of the lock file that holds the naming slot.
pub const LOCK_FILE_NAME: &'static str = ".ptx-builder.lock";

pub const MANIFEST_NAME: &'static str = "Cargo.toml";

pub const LOCK_MANIFEST_NAME: &'static str = "Cargo.lock";

pub const EXAMPLES_DIR: &'static str = "examples";

pub const ASSEMBLY_EXT: &'static str = ".ptx";

pub const DEPS_EXT: &'static str = ".d";

pub const ARG_RUSTC: &'static str = "rustc";

pub const ARG_RELEASE: &'static str = "--release";

pub const ARG_COLOR: &'static str = "--color";

pub const ARG_ALWAYS: &'static str = "always";

pub const ARG_NEVER: &'static str = "never";

pub const ARG_HUMAN: &'static str = "--message-format=human";

pub const ARG_SHORT: &'static str = "--message-format=short";

pub const ARG_JSON: &'static str = "--message-format=json";

pub const ARG_JSON_RENDER: &'static str = ",json-render-diagnostics";

pub const ARG_JSON_SHORT: &'static str = ",json-diagnostic-short";

pub const ARG_JSON_ANSI: &'static str = ",json-diagnostic-rendered-ansi";

pub const ARG_TARGET: &'static str = "--target";

pub const ARG_EXAMPLE: &'static str = "--example";

pub const ARG_VERBOSE: &'static str = "-v";

pub const ARG_SEPARATOR: &'static str = "--";

pub const ARG_CRATE_TYPE: &'static str = "--crate-type";

pub const ARG_BIN: &'static str = "bin";

pub const ARG_CDYLIB: &'static str = "cdylib";

pub const NOISE_COMMAND: &'static str = "+ ";

pub const NOISE_RUNNING: &'static str = "Running";

pub const NOISE_FRESH: &'static str = "Fresh";

pub const NOISE_CAUSED_BY: &'static str = "Caused by:";

pub const NOISE_EXIT: &'static str = "  process didn't exit successfully: ";

/// A diagnostic line worth showing: not an echoed command, a progress or
/// cache-hit notice, a "Caused by:" continuation or the exit-wrapper line.
pub open spec fn is_signal(line: Seq<char>) -> bool {
    &&& !NOISE_COMMAND@.is_prefix_of(line)
    &&& !seq_contains(line, NOISE_RUNNING@)
    &&& !seq_contains(line, NOISE_FRESH@)
    &&& !NOISE_CAUSED_BY@.is_prefix_of(line)
    &&& !NOISE_EXIT@.is_prefix_of(line)
}

/// The diagnostic lines of a failed build's error stream: the stream without
/// surrounding newlines, cut at each newline, noise dropped, order kept.
pub open spec fn diagnostic_lines(stderr: Seq<char>) -> Seq<Seq<char>> {
    split_seq(trim_char_seq(stderr, '\n'), '\n').filter(|l: Seq<char>| is_signal(l))
}

/// The entry-point name that a build selects: module name, a dash, prefix.
pub open spec fn example_name_of(name: Seq<char>, prefix: Seq<char>) -> Seq<char> {
    name + DASH@ + prefix
}

/// The entry-point name that the manifest holds between builds.
pub open spec fn canonical_name_of(name: Seq<char>) -> Seq<char> {
    name + CANONICAL_SUFFIX@
}

/// The message-format argument of the driver.
pub open spec fn format_arg(f: MessageFormat) -> Seq<char> {
    match f {
        MessageFormat::Human => ARG_HUMAN@,
        MessageFormat::Short => ARG_SHORT@,
        MessageFormat::Json { render_diagnostics, short, ansi } => ARG_JSON@ + (
        if render_diagnostics {
            ARG_JSON_RENDER@
        } else {
            Seq::<char>::empty()
        }) + (if short {
            ARG_JSON_SHORT@
        } else {
            Seq::<char>::empty()
        }) + (if ansi {
            ARG_JSON_ANSI@
        } else {
            Seq::<char>::empty()
        }),
    }
}

pub open spec fn crate_type_arg(t: CrateType) -> Seq<char> {
    match t {
        CrateType::Binary => ARG_BIN@,
        CrateType::Library => ARG_CDYLIB@,
    }
}

/// The driver's argument vector, in order.
pub open spec fn build_args_of(
    profile: Profile,
    colors: bool,
    format: MessageFormat,
    example: Seq<char>,
    crate_type: CrateType,
) -> Seq<Seq<char>> {
    seq![ARG_RUSTC@] + (if profile == Profile::Release {
        seq![ARG_RELEASE@]
    } else {
        Seq::<Seq<char>>::empty()
    }) + seq![
        ARG_COLOR@,
        if colors {
            ARG_ALWAYS@
        } else {
            ARG_NEVER@
        },
        format_arg(format),
        ARG_TARGET@,
        TARGET_NAME@,
        ARG_EXAMPLE@,
        example,
        ARG_VERBOSE@,
        ARG_SEPARATOR@,
        ARG_CRATE_TYPE@,
        crate_type_arg(crate_type),
    ]
}

/// The directory that the driver writes a profile's example artifacts to.
pub open spec fn artifact_dir_of(output_path: Seq<char>, profile: Profile) -> Seq<char> {
    join_path(join_path(join_path(output_path, TARGET_NAME@), profile_name(profile)), EXAMPLES_DIR@)
}

/// The file name of an artifact with extension `ext`: module name and a dash
/// for a binary, output-file prefix and an underscore for a library, then the
/// invocation prefix.
pub open spec fn artifact_file_of(
    crate_type: CrateType,
    name: Seq<char>,
    file_prefix: Seq<char>,
    prefix: Seq<char>,
    ext: Seq<char>,
) -> Seq<char> {
    match crate_type {
        CrateType::Binary => name + DASH@ + prefix + ext,
        CrateType::Library => file_prefix + UNDERSCORE@ + prefix + ext,
    }
}

/// What follows the target label of a dependency listing: three characters
/// are skipped (room for a drive letter), then everything up to and including
/// the first colon.
pub open spec fn deps_body(contents: Seq<char>) -> Seq<char> {
    after_colon(
        if contents.len() <= 3 {
            Seq::<char>::empty()
        } else {
            contents.subrange(3, contents.len() as int)
        },
    )
}

pub open spec fn after_colon(s: Seq<char>) -> Seq<char>
    decreases s.len(),
{
    if s.len() == 0 {
        s
    } else if s[0] == ':' {
        s.drop_first()
    } else {
        after_colon(s.drop_first())
    }
}

/// The paths that a dependency listing names, each trimmed, in order.
pub open spec fn listed_paths(contents: Seq<char>) -> Seq<Seq<char>> {
    split_seq(trim_seq(deps_body(contents)), ' ').map_values(|p: Seq<char>| trim_seq(p))
}

/// The nested-build marker is set: its value is "1".
pub open spec fn marks_nested(marker: Option<&str>) -> bool {
    marker is Some && marker->0@ == seq!['1']
}

/// Core of the crate: the build configuration of one source module.
#[derive(Debug)]
pub struct Builder {
    source_crate: SourceCrate,
    profile: Profile,
    colors: bool,
    crate_type: Option<CrateType>,
    message_format: MessageFormat,
    prefix: String,
}

impl Builder {
    pub closed spec fn spec_source(&self) -> SourceCrate {
        self.source_crate
    }

    pub closed spec fn spec_profile(&self) -> Profile {
        self.profile
    }

    pub closed spec fn spec_colors(&self) -> bool {
        self.colors
    }

    pub closed spec fn spec_crate_type(&self) -> Option<CrateType> {
        self.crate_type
    }

    pub closed spec fn spec_message_format(&self) -> MessageFormat {
        self.message_format
    }

    pub closed spec fn spec_prefix(&self) -> Seq<char> {
        self.prefix@
    }

    /// The entry-point name that this builder's builds select.
    pub open spec fn spec_example_name(&self) -> Seq<char> {
        example_name_of(self.spec_source().spec_name(), self.spec_prefix())
    }

    /// The entry-point name that the manifest holds between builds.
    pub open spec fn spec_canonical_name(&self) -> Seq<char> {
        canonical_name_of(self.spec_source().spec_name())
    }

    /// A builder for `source_crate`: release profile, colours on, no crate
    /// type override, human messages, empty prefix.
    pub fn new(source_crate: SourceCrate) -> (r: Builder)
        ensures
            r.spec_source() == source_crate,
            r.spec_profile() == Profile::Release,
            r.spec_colors(),
            r.spec_crate_type() is None,
            r.spec_message_format() == MessageFormat::Human,
            r.spec_prefix() == Seq::<char>::empty(),
    {
        Builder {
            source_crate,
            profile: Profile::Release,
            colors: true,
            crate_type: None,
            message_format: MessageFormat::Human,
            prefix: String::new(),
        }
    }

    /// Whether a real build is needed, given the nested-build marker (the
    /// value of the marker variable, if set): not when it is "1".
    pub fn is_build_needed(marker: Option<&str>) -> (r: bool)
        ensures
            r == !marks_nested(marker),
    {
        match marker {
            None => true,
            Some(m) => {
                let n = m.unicode_len();
                if n == 1 {
                    let c = m.get_char(0);
                    assert(m@ =~= seq![c]);
                    c != '1'
                } else {
                    true
                }
            },
        }
    }

    /// The source module.
    pub fn source_crate_ref(&self) -> (r: &SourceCrate)
        ensures
            *r == self.spec_source(),
    {
        &self.source_crate
    }

    /// The name of the source module.
    pub fn get_crate_name(&self) -> (r: &str)
        ensures
            r@ == self.spec_source().spec_name(),
    {
        self.source_crate.get_name()
    }

    /// The same configuration with colours off.
    pub fn disable_colors(self) -> (r: Self)
        ensures
            r.spec_source() == self.spec_source(),
            r.spec_profile() == self.spec_profile(),
            !r.spec_colors(),
            r.spec_crate_type() == self.spec_crate_type(),
            r.spec_message_format() == self.spec_message_format(),
            r.spec_prefix() == self.spec_prefix(),
    {
        Builder { colors: false, ..self }
    }

    /// The same configuration with `profile`.
    pub fn set_profile(self, profile: Profile) -> (r: Self)
        ensures
            r.spec_source() == self.spec_source(),
            r.spec_profile() == profile,
            r.spec_colors() == self.spec_colors(),
            r.spec_crate_type() == self.spec_crate_type(),
            r.spec_message_format() == self.spec_message_format(),
            r.spec_prefix() == self.spec_prefix(),
    {
        Builder { profile, ..self }
    }

    /// The same configuration with a crate type override.
    pub fn set_crate_type(self, crate_type: CrateType) -> (r: Self)
        ensures
            r.spec_source() == self.spec_source(),
            r.spec_profile() == self.spec_profile(),
            r.spec_colors() == self.spec_colors(),
            r.spec_crate_type() == Some(crate_type),
            r.spec_message_format() == self.spec_message_format(),
            r.spec_prefix() == self.spec_prefix(),
    {
        Builder { crate_type: Some(crate_type), ..self }
    }

    /// The same configuration with `message_format`.
    pub fn set_message_format(self, message_format: MessageFormat) -> (r: Self)
        ensures
            r.spec_source() == self.spec_source(),
            r.spec_profile() == self.spec_profile(),
            r.spec_colors() == self.spec_colors(),
            r.spec_crate_type() == self.spec_crate_type(),
            r.spec_message_format() == message_format,
            r.spec_prefix() == self.spec_prefix(),
    {
        Builder { message_format, ..self }
    }

    /// The same configuration with the invocation prefix `prefix`.
    pub fn set_prefix(self, prefix: String) -> (r: Self)
        ensures
            r.spec_source() == self.spec_source(),
            r.spec_profile() == self.spec_profile(),
            r.spec_colors() == self.spec_colors(),
            r.spec_crate_type() == self.spec_crate_type(),
            r.spec_message_format() == self.spec_message_format(),
            r.spec_prefix() == prefix@,
    {
        Builder { prefix, ..self }
    }

    /// Whether an error-stream line is a diagnostic rather than noise.
    pub fn output_is_not_verbose(line: &str) -> (r: bool)
        ensures
            r == is_signal(line@),
    {
        !starts_with(line, NOISE_COMMAND) && !contains(line, NOISE_RUNNING) && !contains(
            line,
            NOISE_FRESH,
        ) && !starts_with(line, NOISE_CAUSED_BY) && !starts_with(line, NOISE_EXIT)
    }

    /// The crate type that a build uses: the override, else the declared
    /// kind; a mixed module without an override is refused.
    pub fn resolve_crate_type(&self) -> (r: Result<CrateType, BuildErrorKind>)
        ensures
            r == resolve_crate_type(self.spec_source().spec_declared(), self.spec_crate_type()),
    {
        self.source_crate.get_crate_type(self.crate_type)
    }

    /// The entry-point name that this builder's builds select.
    pub fn example_name(&self) -> (r: String)
        ensures
            r@ == self.spec_example_name(),
    {
        let mut r = String::from_str(self.source_crate.get_name());
        r.append(DASH);
        r.append(self.prefix.as_str());
        r
    }

    /// The entry-point name that the manifest holds between builds.
    pub fn canonical_name(&self) -> (r: String)
        ensures
            r@ == self.spec_canonical_name(),
    {
        let mut r = String::from_str(self.source_crate.get_name());
        r.append(CANONICAL_SUFFIX);
        r
    }

    /// The driver's argument vector for a build of `crate_type`.
    pub fn build_args(&self, crate_type: CrateType) -> (r: Vec<String>)
        ensures
            r@.map_values(|a: String| a@) == build_args_of(
                self.spec_profile(),
                self.spec_colors(),
                self.spec_message_format(),
                self.spec_example_name(),
                crate_type,
            ),
    {
        let mut args: Vec<String> = Vec::new();
        args.push(String::from_str(ARG_RUSTC));
        if self.profile == Profile::Release {
            args.push(String::from_str(ARG_RELEASE));
        }
        args.push(String::from_str(ARG_COLOR));
        args.push(String::from_str(if self.colors { ARG_ALWAYS } else { ARG_NEVER }));
        let format = match self.message_format {
            MessageFormat::Human => String::from_str(ARG_HUMAN),
            MessageFormat::Short => String::from_str(ARG_SHORT),
            MessageFormat::Json { render_diagnostics, short, ansi } => {
                let mut f = String::from_str(ARG_JSON);
                if render_diagnostics {
                    f.append(ARG_JSON_RENDER);
                }
                if short {
                    f.append(ARG_JSON_SHORT);
                }
                if ansi {
                    f.append(ARG_JSON_ANSI);
                }
                assert(f@ =~= format_arg(self.message_format));
                f
            },
        };
        args.push(format);
        args.push(String::from_str(ARG_TARGET));
        args.push(String::from_str(TARGET_NAME));
        args.push(String::from_str(ARG_EXAMPLE));
        args.push(self.example_name());
        args.push(String::from_str(ARG_VERBOSE));
        args.push(String::from_str(ARG_SEPARATOR));
        args.push(String::from_str(ARG_CRATE_TYPE));
        args.push(
            String::from_str(
                match crate_type {
                    CrateType::Binary => ARG_BIN,
                    CrateType::Library => ARG_CDYLIB,
                },
            ),
        );
        assert(args@.map_values(|a: String| a@) =~= build_args_of(
            self.profile,
            self.colors,
            self.message_format,
            self.spec_example_name(),
            crate_type,
        ));
        args
    }

    /// The ordered diagnostic lines of a failed build's error stream.
    pub fn diagnostics(stderr: &str) -> (r: Vec<String>)
        ensures
            r@.map_values(|l: String| l@) == diagnostic_lines(stderr@),
    {
        let body = trim_matches(stderr, '\n');
        let lines = split_on(body.as_str(), '\n');
        let ghost all = lines@.map_values(|l: String| l@);
        let ghost pred = |l: Seq<char>| is_signal(l);
        let mut kept: Vec<String> = Vec::new();
        let mut i: usize = 0;
        reveal(Seq::filter);
        assert(all.subrange(0, 0).filter(pred) =~= Seq::<Seq<char>>::empty());
        assert(kept@.map_values(|l: String| l@) =~= Seq::<Seq<char>>::empty());
        while i < lines.len()
            invariant
                all == lines@.map_values(|l: String| l@),
                all == split_seq(trim_char_seq(stderr@, '\n'), '\n'),
                pred == (|l: Seq<char>| is_signal(l)),
                i <= lines@.len(),
                kept@.map_values(|l: String| l@) == all.subrange(0, i as int).filter(pred),
            decreases lines@.len() - i,
        {
            assert(all.subrange(0, i + 1).drop_last() =~= all.subrange(0, i as int));
            assert(all.subrange(0, i + 1).last() == lines@[i as int]@);
            reveal(Seq::filter);
            if Self::output_is_not_verbose(lines[i].as_str()) {
                kept.push(lines[i].clone());
                assert(kept@.map_values(|l: String| l@) =~= all.subrange(0, i + 1).filter(pred));
            } else {
                assert(kept@.map_values(|l: String| l@) =~= all.subrange(0, i + 1).filter(pred));
            }
            i = i + 1;
        }
        assert(all.subrange(0, i as int) =~= all);
        kept
    }
}

/// Successful build output.
#[derive(Debug)]
pub struct BuildOutput<'a> {
    builder: &'a Builder,
    output_path: String,
    crate_type: CrateType,
}

/// Non-failed build status.
#[derive(Debug)]
pub enum BuildStatus<'a> {
    /// The build ran and its artifact is on disk.
    Success(BuildOutput<'a>),
    /// No build is needed: this is a nested build of the same tool.
    NotNeeded,
}

impl<'a> BuildOutput<'a> {
    pub closed spec fn spec_builder(&self) -> Builder {
        *self.builder
    }

    pub closed spec fn spec_output_path(&self) -> Seq<char> {
        self.output_path@
    }

    pub closed spec fn spec_crate_type(&self) -> CrateType {
        self.crate_type
    }

    /// The path of an artifact with extension `ext` of a build of `b` into
    /// `output_path` as `crate_type`.
    pub open spec fn spec_artifact_path_of(
        b: Builder,
        output_path: Seq<char>,
        crate_type: CrateType,
        ext: Seq<char>,
    ) -> Seq<char> {
        join_path(
            artifact_dir_of(output_path, b.spec_profile()),
            artifact_file_of(
                crate_type,
                b.spec_source().spec_name(),
                b.spec_source().spec_output_file_prefix(),
                b.spec_prefix(),
                ext,
            ),
        )
    }

    /// The path of this build's artifact with extension `ext`.
    pub open spec fn spec_artifact_path(&self, ext: Seq<char>) -> Seq<char> {
        Self::spec_artifact_path_of(
            self.spec_builder(),
            self.spec_output_path(),
            self.spec_crate_type(),
            ext,
        )
    }

    /// The output of a build of `builder` into `output_path` as `crate_type`.
    pub fn new(builder: &'a Builder, output_path: String, crate_type: CrateType) -> (r: Self)
        ensures
            r.spec_builder() == *builder,
            r.spec_output_path() == output_path@,
            r.spec_crate_type() == crate_type,
    {
        BuildOutput { builder, output_path, crate_type }
    }

    /// The builder whose build this is.
    pub fn get_builder(&self) -> (r: &'a Builder)
        ensures
            *r == self.spec_builder(),
    {
        self.builder
    }

    fn artifact_path(&self, ext: &str) -> (r: String)
        ensures
            r@ == self.spec_artifact_path(ext@),
    {
        let source = &self.builder.source_crate;
        let profile = self.builder.profile.to_string();
        let dir = join(self.output_path.as_str(), TARGET_NAME);
        let dir = join(dir.as_str(), profile.as_str());
        let dir = join(dir.as_str(), EXAMPLES_DIR);
        let mut file = match self.crate_type {
            CrateType::Binary => {
                let mut f = String::from_str(source.get_name());
                f.append(DASH);
                f
            },
            CrateType::Library => {
                let mut f = String::from_str(source.get_output_file_prefix());
                f.append(UNDERSCORE);
                f
            },
        };
        file.append(self.builder.prefix.as_str());
        file.append(ext);
        join(dir.as_str(), file.as_str())
    }

    /// The path of the assembly file.
    pub fn get_assembly_path(&self) -> (r: String)
        ensures
            r@ == self.spec_artifact_path(ASSEMBLY_EXT@),
    {
        self.artifact_path(ASSEMBLY_EXT)
    }

    /// The path of the dependency listing that the driver writes beside the
    /// assembly file.
    pub fn get_deps_file_path(&self) -> (r: String)
        ensures
            r@ == self.spec_artifact_path(DEPS_EXT@),
    {
        self.artifact_path(DEPS_EXT)
    }

    /// The files whose change calls for a rebuild: those that the dependency
    /// listing `deps_contents` names, then the module's manifest, then the
    /// lock manifest in `lock_dir`. An empty listing is an internal error.
    pub fn dependencies(&self, deps_contents: &str, lock_dir: &str) -> (r: Result<
        Vec<String>,
        BuildErrorKind,
    >)
        ensures
            deps_contents@.len() == 0 <==> r is Err,
            r is Err ==> r->Err_0 is InternalError,
            r is Ok ==> r->Ok_0@.map_values(|p: String| p@) == listed_paths(deps_contents@)
                + seq![
                join_path(self.spec_builder().spec_source().spec_path(), MANIFEST_NAME@),
                join_path(lock_dir@, LOCK_MANIFEST_NAME@),
            ],
    {
        let sc = crate::text::chars_of(deps_contents);
        let n = sc.len();
        if n == 0 {
            return Err(BuildErrorKind::InternalError(String::from_str("Empty deps file")));
        }
        let mut i: usize = if n <= 3 { n } else { 3 };
        let ghost rest = if n <= 3 {
            Seq::<char>::empty()
        } else {
            deps_contents@.subrange(3, n as int)
        };
        assert(rest =~= deps_contents@.subrange(i as int, n as int));
        while i < n && sc[i] != ':'
            invariant
                n == deps_contents@.len(),
                sc@ == deps_contents@,
                i <= n,
                deps_body(deps_contents@) == after_colon(deps_contents@.subrange(i as int, n as int)),
            decreases n - i,
        {
            assert(deps_contents@.subrange(i as int, n as int).drop_first() =~= deps_contents@.subrange(i + 1, n as int));
            i = i + 1;
        }
        let body = if i < n {
            assert(deps_contents@.subrange(i as int, n as int).drop_first() =~= deps_contents@.subrange(i + 1, n as int));
            deps_contents.substring_char(i + 1, n)
        } else {
            deps_contents.substring_char(n, n)
        };
        assert(body@ == deps_body(deps_contents@));
        let trimmed = trim(body);
        let pieces = split_on(trimmed.as_str(), ' ');
        let ghost all = pieces@.map_values(|p: String| p@);
        let mut out: Vec<String> = Vec::new();
        let mut k: usize = 0;
        while k < pieces.len()
            invariant
                all == pieces@.map_values(|p: String| p@),
                all == split_seq(trim_seq(deps_body(deps_contents@)), ' '),
                k <= pieces@.len(),
                out@.map_values(|p: String| p@) == all.subrange(0, k as int).map_values(
                    |p: Seq<char>| trim_seq(p),
                ),
            decreases pieces@.len() - k,
        {
            let t = trim(pieces[k].as_str());
            assert(t@ == trim_seq(all[k as int]));
            let ghost prev = out@;
            out.push(t);
            assert(out@.map_values(|p: String| p@) =~= prev.map_values(|p: String| p@).push(t@));
            k = k + 1;
            assert(out@.map_values(|p: String| p@) =~= all.subrange(0, k as int).map_values(
                |p: Seq<char>| trim_seq(p),
            ));
        }
        assert(all.subrange(0, k as int) =~= all);
        let ghost listed = out@.map_values(|p: String| p@);
        out.push(join(self.builder.source_crate.get_path(), MANIFEST_NAME));
        out.push(join(lock_dir, LOCK_MANIFEST_NAME));
        assert(out@.map_values(|p: String| p@) =~= listed + seq![
            join_path(self.spec_builder().spec_source().spec_path(), MANIFEST_NAME@),
            join_path(lock_dir@, LOCK_MANIFEST_NAME@),
        ]);
        Ok(out)
    }
}

} // verus!
