//! Laws of the naming-slot protocol and of artifact paths.

use vstd::prelude::*;
use crate::builder::{Builder, BuildOutput, EXAMPLES_DIR, TARGET_NAME, artifact_file_of};
use crate::config::{CrateType, DEBUG_NAME, Profile, RELEASE_NAME, profile_name};
use crate::session::prior_name_of;
use crate::source::PATH_SEP;
use crate::text::replaced;

verus! {

/// Replacing a name by itself changes nothing.
pub proof fn lemma_replace_same(s: Seq<char>, p: Seq<char>)
    ensures
        replaced(s, p, p) == s,
    decreases s.len(),
{
    if s.len() == 0 {
    } else if p.len() > 0 && p.is_prefix_of(s) {
        lemma_replace_same(s.subrange(p.len() as int, s.len() as int), p);
        assert(p + s.subrange(p.len() as int, s.len() as int) =~= s);
    } else {
        lemma_replace_same(s.subrange(1, s.len() as int), p);
        assert(seq![s[0]] + s.subrange(1, s.len() as int) =~= s);
    }
}

/// A build that finds the naming slot empty (as it is whenever the previous
/// holder released the lock, which empties the lock file) restores exactly
/// the manifest it read: so two builds in a row, with no change between
/// them, leave the manifest as it was before the first.
pub proof fn lemma_rebuild_restores_manifest(b: Builder, manifest: Seq<char>)
    ensures
        ({
            let c = b.spec_canonical_name();
            let prior = prior_name_of(Seq::<char>::empty(), c);
            &&& replaced(manifest, prior, c) == manifest
            &&& replaced(replaced(manifest, prior, c), prior, c) == manifest
        }),
{
    let c = b.spec_canonical_name();
    lemma_replace_same(manifest, c);
}

/// The manifest texts that a series of builds with entry-point names
/// `names`, one after another under the lock, write while their drivers run.
pub open spec fn patched_history(
    manifest: Seq<char>,
    canonical: Seq<char>,
    names: Seq<Seq<char>>,
) -> Seq<Seq<char>>
    decreases names.len(),
{
    if names.len() == 0 {
        Seq::empty()
    } else {
        let prior = prior_name_of(Seq::<char>::empty(), canonical);
        let restored = replaced(manifest, prior, canonical);
        seq![replaced(manifest, prior, names[0])] + patched_history(
            restored,
            canonical,
            names.drop_first(),
        )
    }
}

/// The manifest text after a series of builds, one after another under the
/// lock, each restoring what it patched.
pub open spec fn manifest_after(manifest: Seq<char>, canonical: Seq<char>, names: Seq<Seq<char>>) -> Seq<char>
    decreases names.len(),
{
    if names.len() == 0 {
        manifest
    } else {
        let prior = prior_name_of(Seq::<char>::empty(), canonical);
        manifest_after(replaced(manifest, prior, canonical), canonical, names.drop_first())
    }
}

/// Builds of one manifest serialised by the lock, each with its own
/// entry-point name, each finding the naming slot empty because its
/// predecessor's release emptied the lock file: while build `i` runs, the manifest holds the canonical
/// name swapped for build `i`'s name and for no other; once all are done,
/// the manifest is the one they started from.
pub proof fn lemma_serialised_builds(manifest: Seq<char>, canonical: Seq<char>, names: Seq<Seq<char>>)
    ensures
        manifest_after(manifest, canonical, names) == manifest,
        patched_history(manifest, canonical, names).len() == names.len(),
        forall|i: int|
            0 <= i < names.len() ==> #[trigger] patched_history(manifest, canonical, names)[i]
                == replaced(manifest, canonical, names[i]),
    decreases names.len(),
{
    if names.len() > 0 {
        lemma_replace_same(manifest, canonical);
        lemma_serialised_builds(manifest, canonical, names.drop_first());
        let h = patched_history(manifest, canonical, names);
        assert forall|i: int| 0 <= i < names.len() implies #[trigger] h[i] == replaced(
            manifest,
            canonical,
            names[i],
        ) by {
            if i > 0 {
                assert(h[i] == patched_history(manifest, canonical, names.drop_first())[i - 1]);
            }
        }
    }
}

/// The artifact path of any build has the configured profile's canonical
/// name as the segment after the target directory: "debug" or "release".
pub proof fn lemma_profile_segment(b: Builder, output_path: Seq<char>, crate_type: CrateType, ext: Seq<char>)
    ensures
        BuildOutput::spec_artifact_path_of(b, output_path, crate_type, ext) == output_path
            + PATH_SEP@ + TARGET_NAME@ + PATH_SEP@ + profile_name(b.spec_profile()) + PATH_SEP@
            + EXAMPLES_DIR@ + PATH_SEP@ + artifact_file_of(
            crate_type,
            b.spec_source().spec_name(),
            b.spec_source().spec_output_file_prefix(),
            b.spec_prefix(),
            ext,
        ),
        profile_name(Profile::Debug) == seq!['d', 'e', 'b', 'u', 'g'],
        profile_name(Profile::Release) == seq!['r', 'e', 'l', 'e', 'a', 's', 'e'],
{
    reveal_strlit("debug");
    reveal_strlit("release");
    assert(DEBUG_NAME@ =~= seq!['d', 'e', 'b', 'u', 'g']);
    assert(RELEASE_NAME@ =~= seq!['r', 'e', 'l', 'e', 'a', 's', 'e']);
    let file = artifact_file_of(
        crate_type,
        b.spec_source().spec_name(),
        b.spec_source().spec_output_file_prefix(),
        b.spec_prefix(),
        ext,
    );
    assert(BuildOutput::spec_artifact_path_of(b, output_path, crate_type, ext) =~= output_path
        + PATH_SEP@ + TARGET_NAME@ + PATH_SEP@ + profile_name(b.spec_profile()) + PATH_SEP@
        + EXAMPLES_DIR@ + PATH_SEP@ + file);
}

} // verus!
