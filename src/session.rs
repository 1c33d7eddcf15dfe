//! One build as a state machine. The session decides; the caller performs
//! each action it hands out (a lock, a file read or write, a process run) and
//! hands back what came of it. The manifest is patched under the lock and
//! restored whatever the driver did, and a lock once taken is released.

use vstd::prelude::*;
use crate::builder::{
    BuildOutput,
    ASSEMBLY_EXT,
    BuildStatus,
    Builder,
    LOCK_FILE_NAME,
    MANIFEST_NAME,
    build_args_of,
    diagnostic_lines,
    marks_nested,
};
use crate::config::CrateType;
use crate::error::BuildErrorKind;
use crate::source::{join, join_path, resolve_crate_type};
use crate::text::{replace_all, replaced};

verus! {

/// The environment variable that marks a nested build.
pub const NESTED_MARKER: &'static str = "PTX_CRATE_BUILDING";

pub const NESTED_MARKER_VALUE: &'static str = "1";

/// The environment variable that points the driver at the output directory.
pub const TARGET_DIR_VAR: &'static str = "CARGO_TARGET_DIR";

/// The version-query argument of the linking tool.
pub const VERSION_ARG: &'static str = "-V";

/// Where a session stands.
#[derive(PartialEq, Eq, Structural, Clone, Copy, Debug)]
pub enum Stage {
    CheckingTool,
    Locking,
    ReadingSlot,
    WritingSlot,
    ReadingManifest,
    Patching,
    Running,
    Restoring,
    Unlocking,
    CheckingArtifact,
    Finished,
}

/// What the caller is to do next.
#[derive(Debug)]
pub enum BuildAction<'a> {
    /// Run the linking tool with these arguments (its version query).
    CheckTool(Vec<String>),
    /// Open the lock file at this path and acquire it, blocking.
    Lock(String),
    /// Read the naming slot: the text of the lock file at this path.
    ReadSlot(String),
    /// Overwrite the naming slot at the path (first) with the text (second).
    WriteSlot(String, String),
    /// Read the manifest at this path.
    ReadManifest(String),
    /// Overwrite the manifest at the path (first) with the text (second).
    WriteManifest(String, String),
    /// Run the driver with the arguments, in the directory, with the
    /// environment variables (name, value) set for it alone.
    RunDriver(Vec<String>, String, Vec<(String, String)>),
    /// Release the lock.
    Unlock,
    /// Tell whether a file exists at this path.
    CheckArtifact(String),
    /// The build is over, with this result.
    Finish(Result<BuildStatus<'a>, BuildErrorKind>),
}

/// What came of the last action.
#[derive(Debug)]
pub enum BuildEvent {
    /// The action succeeded and yields nothing.
    Done,
    /// The action failed.
    Failed(BuildErrorKind),
    /// The text that a read action found.
    Text(String),
    /// The driver ran: whether it exited successfully, and its error stream.
    DriverExited(bool, String),
    /// Whether the file asked about exists.
    Exists(bool),
}

/// The state of one build of one builder.
pub struct Session<'a> {
    builder: &'a Builder,
    stage: Stage,
    crate_type: CrateType,
    example: String,
    canonical: String,
    output_path: String,
    lock_path: String,
    manifest_path: String,
    prior: String,
    restored: String,
    pending: Option<BuildErrorKind>,
    aborting: bool,
    manifest: Ghost<Seq<char>>,
}

/// The slot text read under the lock names the entry point that the manifest
/// holds now; an empty slot means the canonical name.
pub open spec fn prior_name_of(slot: Seq<char>, canonical: Seq<char>) -> Seq<char> {
    if slot.len() == 0 {
        canonical
    } else {
        slot
    }
}

impl<'a> Session<'a> {
    pub closed spec fn spec_builder(&self) -> Builder {
        *self.builder
    }

    pub closed spec fn spec_stage(&self) -> Stage {
        self.stage
    }

    pub closed spec fn spec_crate_type(&self) -> CrateType {
        self.crate_type
    }

    /// The entry-point name that the manifest held when it was read.
    pub closed spec fn spec_prior(&self) -> Seq<char> {
        self.prior@
    }

    /// The manifest text as it was read under the lock.
    pub closed spec fn spec_manifest(&self) -> Seq<char> {
        self.manifest@
    }

    /// The manifest text that the restore step writes.
    pub closed spec fn spec_restored(&self) -> Seq<char> {
        self.restored@
    }

    pub closed spec fn spec_pending(&self) -> Option<BuildErrorKind> {
        self.pending
    }

    pub closed spec fn spec_aborting(&self) -> bool {
        self.aborting
    }

    pub open spec fn spec_lock_path(&self) -> Seq<char> {
        join_path(self.spec_builder().spec_source().spec_output_path(), LOCK_FILE_NAME@)
    }

    pub open spec fn spec_manifest_path(&self) -> Seq<char> {
        join_path(self.spec_builder().spec_source().spec_path(), MANIFEST_NAME@)
    }

    /// The session's fixed facts agree with its builder, and what it learnt
    /// under the lock is kept consistently.
    pub closed spec fn wf(&self) -> bool {
        &&& resolve_crate_type(
            self.builder.spec_source().spec_declared(),
            self.builder.spec_crate_type(),
        ) == Ok::<CrateType, BuildErrorKind>(self.crate_type)
        &&& self.example@ == self.builder.spec_example_name()
        &&& self.canonical@ == self.builder.spec_canonical_name()
        &&& self.output_path@ == self.builder.spec_source().spec_output_path()
        &&& self.lock_path@ == self.spec_lock_path()
        &&& self.manifest_path@ == self.spec_manifest_path()
        &&& self.aborting ==> self.pending is Some
        &&& (self.stage == Stage::Patching || self.stage == Stage::Running || self.stage
            == Stage::Restoring) ==> self.restored@ == replaced(
            self.manifest@,
            self.prior@,
            self.canonical@,
        )
    }
}

/// The session gave up after taking the lock: it releases the lock and keeps
/// `e` to report.
pub open spec fn releases_with<'a>(s: Session<'a>, r: BuildAction<'a>, e: BuildErrorKind) -> bool {
    &&& r is Unlock
    &&& s.spec_stage() == Stage::Unlocking
    &&& s.spec_aborting()
    &&& s.spec_pending() == Some(e)
}

/// The environment of the driver: the nested-build marker, and the output
/// directory.
pub open spec fn driver_env_of(output_path: Seq<char>) -> Seq<(Seq<char>, Seq<char>)> {
    seq![(NESTED_MARKER@, NESTED_MARKER_VALUE@), (TARGET_DIR_VAR@, output_path)]
}

/// The error that an unexpected event stands for.
pub open spec fn is_unexpected(e: BuildErrorKind) -> bool {
    e is InternalError
}

impl<'a> Session<'a> {
    /// Begins a build of `builder`. `marker` is the nested-build marker as
    /// the caller found it. A nested build is over at once and needs nothing;
    /// so is a build whose crate type cannot be resolved, before any process
    /// runs. Otherwise the first action is the linking tool's version query.
    pub fn start(builder: &'a Builder, marker: Option<&str>) -> (r: (Session<'a>, BuildAction<'a>))
        ensures
            r.0.spec_builder() == *builder,
            marks_nested(marker) ==> {
                &&& r.0.spec_stage() == Stage::Finished
                &&& r.1 matches BuildAction::Finish(Ok(BuildStatus::NotNeeded))
            },
            !marks_nested(marker) && resolve_crate_type(
                builder.spec_source().spec_declared(),
                builder.spec_crate_type(),
            ) is Err ==> {
                &&& r.0.spec_stage() == Stage::Finished
                &&& r.1 matches BuildAction::Finish(Err(BuildErrorKind::MissingCrateType))
            },
            !marks_nested(marker) && resolve_crate_type(
                builder.spec_source().spec_declared(),
                builder.spec_crate_type(),
            ) is Ok ==> {
                &&& r.0.wf()
                &&& r.0.spec_stage() == Stage::CheckingTool
                &&& r.1 is CheckTool
                &&& r.1->CheckTool_0@.map_values(|a: String| a@) == seq![VERSION_ARG@]
            },
    {
        let needed = Builder::is_build_needed(marker);
        let resolved = builder.resolve_crate_type();
        let (stage, crate_type, action) = if !needed {
            (Stage::Finished, CrateType::Library, BuildAction::Finish(Ok(BuildStatus::NotNeeded)))
        } else {
            match resolved {
                Err(e) => (Stage::Finished, CrateType::Library, BuildAction::Finish(Err(e))),
                Ok(t) => {
                    let mut args: Vec<String> = Vec::new();
                    args.push(String::from_str(VERSION_ARG));
                    assert(args@.map_values(|a: String| a@) =~= seq![VERSION_ARG@]);
                    (Stage::CheckingTool, t, BuildAction::CheckTool(args))
                },
            }
        };
        let output_path = String::from_str(builder.source_crate_ref().get_output_path());
        let lock_path = join(output_path.as_str(), LOCK_FILE_NAME);
        let manifest_path = join(builder.source_crate_ref().get_path(), MANIFEST_NAME);
        let session = Session {
            builder,
            stage,
            crate_type,
            example: builder.example_name(),
            canonical: builder.canonical_name(),
            output_path,
            lock_path,
            manifest_path,
            prior: String::new(),
            restored: String::new(),
            pending: None,
            aborting: false,
            manifest: Ghost(Seq::empty()),
        };
        (session, action)
    }

    fn release_with(&mut self, e: BuildErrorKind) -> (r: BuildAction<'a>)
        requires
            old(self).wf(),
            old(self).spec_stage() != Stage::Patching,
            old(self).spec_stage() != Stage::Running,
            old(self).spec_stage() != Stage::Restoring,
        ensures
            final(self).wf(),
            releases_with(*final(self), r, e),
            final(self).spec_builder() == old(self).spec_builder(),
            final(self).spec_crate_type() == old(self).spec_crate_type(),
    {
        self.pending = Some(e);
        self.aborting = true;
        self.stage = Stage::Unlocking;
        BuildAction::Unlock
    }

    fn unexpected() -> (r: BuildErrorKind)
        ensures
            is_unexpected(r),
    {
        BuildErrorKind::InternalError(String::from_str("Unexpected event"))
    }
}

impl<'a> Session<'a> {
    /// Takes what came of the last action and returns the next one.
    pub fn step(&mut self, ev: BuildEvent) -> (r: BuildAction<'a>)
        requires
            old(self).wf(),
            old(self).spec_stage() != Stage::Finished,
        ensures
            final(self).wf(),
            final(self).spec_builder() == old(self).spec_builder(),
            final(self).spec_crate_type() == old(self).spec_crate_type(),
            // The version query failed: nothing was taken, the build is over.
            old(self).spec_stage() == Stage::CheckingTool ==> if ev is Failed {
                &&& final(self).spec_stage() == Stage::Finished
                &&& r == BuildAction::<'a>::Finish(Err(ev->Failed_0))
            } else {
                &&& final(self).spec_stage() == Stage::Locking
                &&& r is Lock
                &&& r->Lock_0@ == old(self).spec_lock_path()
            },
            old(self).spec_stage() == Stage::Locking ==> if ev is Failed {
                &&& final(self).spec_stage() == Stage::Finished
                &&& r == BuildAction::<'a>::Finish(Err(ev->Failed_0))
            } else {
                &&& final(self).spec_stage() == Stage::ReadingSlot
                &&& r is ReadSlot
                &&& r->ReadSlot_0@ == old(self).spec_lock_path()
            },
            // The slot names the entry point to swap out; it now names ours.
            old(self).spec_stage() == Stage::ReadingSlot ==> if ev is Text {
                &&& final(self).spec_stage() == Stage::WritingSlot
                &&& final(self).spec_prior() == prior_name_of(
                    ev->Text_0@,
                    old(self).spec_builder().spec_canonical_name(),
                )
                &&& r is WriteSlot
                &&& r->WriteSlot_0@ == old(self).spec_lock_path()
                &&& r->WriteSlot_1@ == old(self).spec_builder().spec_example_name()
            } else if ev is Failed {
                releases_with(*final(self), r, ev->Failed_0)
            } else {
                releases_with(*final(self), r, final(self).spec_pending()->0) && is_unexpected(
                    final(self).spec_pending()->0,
                )
            },
            old(self).spec_stage() == Stage::WritingSlot ==> if ev is Failed {
                releases_with(*final(self), r, ev->Failed_0)
            } else {
                &&& final(self).spec_stage() == Stage::ReadingManifest
                &&& final(self).spec_prior() == old(self).spec_prior()
                &&& r is ReadManifest
                &&& r->ReadManifest_0@ == old(self).spec_manifest_path()
            },
            // The manifest is patched to our name, and its restored text is
            // fixed now: the prior name swapped for the canonical one.
            old(self).spec_stage() == Stage::ReadingManifest ==> if ev is Text {
                &&& final(self).spec_stage() == Stage::Patching
                &&& final(self).spec_prior() == old(self).spec_prior()
                &&& final(self).spec_manifest() == ev->Text_0@
                &&& final(self).spec_restored() == replaced(
                    ev->Text_0@,
                    old(self).spec_prior(),
                    old(self).spec_builder().spec_canonical_name(),
                )
                &&& r is WriteManifest
                &&& r->WriteManifest_0@ == old(self).spec_manifest_path()
                &&& r->WriteManifest_1@ == replaced(
                    ev->Text_0@,
                    old(self).spec_prior(),
                    old(self).spec_builder().spec_example_name(),
                )
            } else if ev is Failed {
                releases_with(*final(self), r, ev->Failed_0)
            } else {
                releases_with(*final(self), r, final(self).spec_pending()->0) && is_unexpected(
                    final(self).spec_pending()->0,
                )
            },
            old(self).spec_stage() == Stage::Patching ==> if ev is Failed {
                releases_with(*final(self), r, ev->Failed_0)
            } else {
                &&& final(self).spec_stage() == Stage::Running
                &&& final(self).spec_restored() == old(self).spec_restored()
                &&& final(self).spec_manifest() == old(self).spec_manifest()
                &&& final(self).spec_prior() == old(self).spec_prior()
                &&& r is RunDriver
                &&& r->RunDriver_0@.map_values(|a: String| a@) == build_args_of(
                    old(self).spec_builder().spec_profile(),
                    old(self).spec_builder().spec_colors(),
                    old(self).spec_builder().spec_message_format(),
                    old(self).spec_builder().spec_example_name(),
                    old(self).spec_crate_type(),
                )
                &&& r->RunDriver_1@ == old(self).spec_builder().spec_source().spec_path()
                &&& r->RunDriver_2@.map_values(|p: (String, String)| (p.0@, p.1@))
                    == driver_env_of(old(self).spec_builder().spec_source().spec_output_path())
            },
            // Whatever the driver did, the manifest is restored next.
            old(self).spec_stage() == Stage::Running ==> {
                &&& final(self).spec_stage() == Stage::Restoring
                &&& !final(self).spec_aborting()
                &&& r is WriteManifest
                &&& r->WriteManifest_0@ == old(self).spec_manifest_path()
                &&& r->WriteManifest_1@ == old(self).spec_restored()
                &&& r->WriteManifest_1@ == replaced(
                    old(self).spec_manifest(),
                    old(self).spec_prior(),
                    old(self).spec_builder().spec_canonical_name(),
                )
                &&& (ev matches BuildEvent::DriverExited(true, _) ==> final(self).spec_pending() is None)
                &&& (ev matches BuildEvent::DriverExited(false, _) ==> {
                    &&& final(self).spec_pending() is Some
                    &&& final(self).spec_pending()->0 is BuildFailed
                    &&& final(self).spec_pending()->0->BuildFailed_0@.map_values(|l: String| l@)
                        == diagnostic_lines(ev->DriverExited_1@)
                })
                &&& (ev is Failed ==> final(self).spec_pending() == Some(ev->Failed_0))
                &&& (!(ev is Failed) && !(ev is DriverExited) ==> final(self).spec_pending() is Some
                    && is_unexpected(final(self).spec_pending()->0))
            },
            old(self).spec_stage() == Stage::Restoring ==> if ev is Failed {
                releases_with(*final(self), r, ev->Failed_0)
            } else {
                &&& final(self).spec_stage() == Stage::Unlocking
                &&& !final(self).spec_aborting()
                &&& final(self).spec_pending() == old(self).spec_pending()
                &&& r is Unlock
            },
            // After the lock is released: the error kept, else the unlock's
            // own error, else the artifact is looked for.
            old(self).spec_stage() == Stage::Unlocking ==> if old(self).spec_aborting() {
                &&& final(self).spec_stage() == Stage::Finished
                &&& r == BuildAction::<'a>::Finish(Err(old(self).spec_pending()->0))
            } else if ev is Failed {
                &&& final(self).spec_stage() == Stage::Finished
                &&& r == BuildAction::<'a>::Finish(Err(ev->Failed_0))
            } else if old(self).spec_pending() is Some {
                &&& final(self).spec_stage() == Stage::Finished
                &&& r == BuildAction::<'a>::Finish(Err(old(self).spec_pending()->0))
            } else {
                &&& final(self).spec_stage() == Stage::CheckingArtifact
                &&& r is CheckArtifact
                &&& r->CheckArtifact_0@ == BuildOutput::spec_artifact_path_of(
                    old(self).spec_builder(),
                    old(self).spec_builder().spec_source().spec_output_path(),
                    old(self).spec_crate_type(),
                    ASSEMBLY_EXT@,
                )
            },
            old(self).spec_stage() == Stage::CheckingArtifact ==> {
                &&& final(self).spec_stage() == Stage::Finished
                &&& if ev matches BuildEvent::Exists(true) {
                    &&& r matches BuildAction::Finish(Ok(BuildStatus::Success(_)))
                    &&& r->Finish_0->Ok_0->Success_0.spec_builder() == old(self).spec_builder()
                    &&& r->Finish_0->Ok_0->Success_0.spec_output_path() == old(self).spec_builder().spec_source().spec_output_path()
                    &&& r->Finish_0->Ok_0->Success_0.spec_crate_type() == old(self).spec_crate_type()
                } else {
                    r matches BuildAction::Finish(Err(BuildErrorKind::InternalError(_)))
                }
            },
    {
        match self.stage {
            Stage::CheckingTool => match ev {
                BuildEvent::Failed(e) => {
                    self.stage = Stage::Finished;
                    BuildAction::Finish(Err(e))
                },
                _ => {
                    self.stage = Stage::Locking;
                    BuildAction::Lock(self.lock_path.clone())
                },
            },
            Stage::Locking => match ev {
                BuildEvent::Failed(e) => {
                    self.stage = Stage::Finished;
                    BuildAction::Finish(Err(e))
                },
                _ => {
                    self.stage = Stage::ReadingSlot;
                    BuildAction::ReadSlot(self.lock_path.clone())
                },
            },
            Stage::ReadingSlot => match ev {
                BuildEvent::Text(t) => {
                    self.prior = if t.as_str().unicode_len() == 0 {
                        self.canonical.clone()
                    } else {
                        t
                    };
                    self.stage = Stage::WritingSlot;
                    BuildAction::WriteSlot(self.lock_path.clone(), self.example.clone())
                },
                BuildEvent::Failed(e) => self.release_with(e),
                _ => self.release_with(Self::unexpected()),
            },
            Stage::WritingSlot => match ev {
                BuildEvent::Failed(e) => self.release_with(e),
                _ => {
                    self.stage = Stage::ReadingManifest;
                    BuildAction::ReadManifest(self.manifest_path.clone())
                },
            },
            Stage::ReadingManifest => match ev {
                BuildEvent::Text(m) => {
                    let patched = replace_all(m.as_str(), self.prior.as_str(), self.example.as_str());
                    self.restored = replace_all(
                        m.as_str(),
                        self.prior.as_str(),
                        self.canonical.as_str(),
                    );
                    self.manifest = Ghost(m@);
                    self.stage = Stage::Patching;
                    BuildAction::WriteManifest(self.manifest_path.clone(), patched)
                },
                BuildEvent::Failed(e) => self.release_with(e),
                _ => self.release_with(Self::unexpected()),
            },
            Stage::Patching => match ev {
                BuildEvent::Failed(e) => {
                    self.stage = Stage::ReadingSlot;
                    self.release_with(e)
                },
                _ => {
                    self.stage = Stage::Running;
                    let args = self.builder.build_args(self.crate_type);
                    let mut env: Vec<(String, String)> = Vec::new();
                    env.push((String::from_str(NESTED_MARKER), String::from_str(NESTED_MARKER_VALUE)));
                    env.push((String::from_str(TARGET_DIR_VAR), self.output_path.clone()));
                    assert(env@.map_values(|p: (String, String)| (p.0@, p.1@)) =~= driver_env_of(
                        self.output_path@,
                    ));
                    BuildAction::RunDriver(
                        args,
                        String::from_str(self.builder.source_crate_ref().get_path()),
                        env,
                    )
                },
            },
            Stage::Running => {
                self.pending = match ev {
                    BuildEvent::DriverExited(ok, stderr) => if ok {
                        None
                    } else {
                        Some(BuildErrorKind::BuildFailed(Builder::diagnostics(stderr.as_str())))
                    },
                    BuildEvent::Failed(e) => Some(e),
                    _ => Some(Self::unexpected()),
                };
                self.aborting = false;
                self.stage = Stage::Restoring;
                BuildAction::WriteManifest(self.manifest_path.clone(), self.restored.clone())
            },
            Stage::Restoring => match ev {
                BuildEvent::Failed(e) => {
                    self.stage = Stage::Unlocking;
                    self.release_with(e)
                },
                _ => {
                    self.stage = Stage::Unlocking;
                    self.aborting = false;
                    BuildAction::Unlock
                },
            },
            Stage::Unlocking => {
                self.stage = Stage::Finished;
                let aborting = self.aborting;
                let pending = self.pending.take();
                self.aborting = false;
                match pending {
                    Some(p) => if aborting {
                        BuildAction::Finish(Err(p))
                    } else {
                        match ev {
                            BuildEvent::Failed(e) => BuildAction::Finish(Err(e)),
                            _ => BuildAction::Finish(Err(p)),
                        }
                    },
                    None => match ev {
                        BuildEvent::Failed(e) => BuildAction::Finish(Err(e)),
                        _ => {
                            self.stage = Stage::CheckingArtifact;
                            let output = BuildOutput::new(
                                self.builder,
                                self.output_path.clone(),
                                self.crate_type,
                            );
                            BuildAction::CheckArtifact(output.get_assembly_path())
                        },
                    },
                }
            },
            Stage::CheckingArtifact => {
                self.stage = Stage::Finished;
                match ev {
                    BuildEvent::Exists(true) => BuildAction::Finish(
                        Ok(
                            BuildStatus::Success(
                                BuildOutput::new(
                                    self.builder,
                                    self.output_path.clone(),
                                    self.crate_type,
                                ),
                            ),
                        ),
                    ),
                    _ => BuildAction::Finish(
                        Err(BuildErrorKind::InternalError(String::from_str("Unable to find PTX assembly output"))),
                    ),
                }
            },
            Stage::Finished => BuildAction::Unlock,
        }
    }
}

} // verus!
