use vstd::prelude::*;
use vstd::string::StringExecFns;
use crate::digest::{spec_digest, DigestAlgorithm};
use crate::error::Error;
use crate::text::{join_path, spec_extension, spec_join, spec_target_name, str_eq, target_name};

verus! {

/// Why a candidate was left alone.
#[derive(Debug, Copy, Clone, PartialEq, Eq, Structural)]
pub enum SkipReason {
    /// The file already carries its content-addressed name.
    AlreadyNamed,
    /// The target name is taken by a file with different content.
    Collision,
}

/// What to do with one candidate once its digest is known.
#[derive(Debug, Clone)]
pub enum RenamePlan {
    /// The name is already the content-addressed one: touch nothing.
    AlreadyNamed,
    /// The target name is free: move the file there.
    Rename(String),
    /// The target name is taken by a byte-identical file: moving onto it
    /// loses nothing, so the rename is idempotent.
    OverwriteIdentical(String),
    /// The target name is taken by different content: never clobber it.
    KeepBoth,
}

/// What processing one candidate came to.
#[derive(Debug, Clone)]
pub enum OutcomeRecord {
    Renamed { old_path: String, new_path: String, digest: String },
    Skipped { path: String, reason: SkipReason },
    Failed { path: String, error: Error },
}

/// Decides the rename for a candidate: `source_name` is its name within its
/// directory, `digest` the hex digest of its content, `target_exists` whether
/// its content-addressed name is already taken there, and `same_content`
/// whether what holds that name has byte-identical content.
///
/// A file that already carries its content-addressed name is left alone; an
/// occupied target is only moved onto when the occupant is byte-identical,
/// so no content is ever overwritten by different content.
pub fn plan_rename(source_name: &str, digest: &str, target_exists: bool, same_content: bool) -> (p:
    RenamePlan)
    ensures
        spec_target_name(digest@, source_name@) == source_name@ ==> p == RenamePlan::AlreadyNamed,
        spec_target_name(digest@, source_name@) != source_name@ && !target_exists ==> (p matches
        RenamePlan::Rename(t) && t@ == spec_target_name(digest@, source_name@)),
        spec_target_name(digest@, source_name@) != source_name@ && target_exists && same_content
            ==> (p matches RenamePlan::OverwriteIdentical(t) && t@ == spec_target_name(
            digest@,
            source_name@,
        )),
        spec_target_name(digest@, source_name@) != source_name@ && target_exists && !same_content
            ==> p == RenamePlan::KeepBoth,
{
    let t = target_name(digest, source_name);
    if str_eq(t.as_str(), source_name) {
        RenamePlan::AlreadyNamed
    } else if !target_exists {
        RenamePlan::Rename(t)
    } else if same_content {
        RenamePlan::OverwriteIdentical(t)
    } else {
        RenamePlan::KeepBoth
    }
}

/// Turns a plan and the result of the one filesystem move it may have asked
/// for into the record handed to the presentation layer. `move_result` is
/// what the move returned, and is only read where the plan asked for one.
pub fn conclude_rename(
    dir: &str,
    source_name: &str,
    digest: &str,
    plan: &RenamePlan,
    move_result: &Result<(), String>,
) -> (r: OutcomeRecord)
    ensures
        plan is AlreadyNamed ==> (r matches OutcomeRecord::Skipped { path, reason } && path@
            == spec_join(dir@, source_name@) && reason == SkipReason::AlreadyNamed),
        plan is KeepBoth ==> (r matches OutcomeRecord::Skipped { path, reason } && path@
            == spec_join(dir@, source_name@) && reason == SkipReason::Collision),
        plan matches RenamePlan::Rename(t) ==> ((move_result is Ok ==> (r matches
        OutcomeRecord::Renamed { old_path, new_path, digest: d } && old_path@ == spec_join(
            dir@,
            source_name@,
        ) && new_path@ == spec_join(dir@, t@) && d@ == digest@)) && (move_result matches Err(m)
            ==> (r matches OutcomeRecord::Failed { path, error } && path@ == spec_join(
            dir@,
            source_name@,
        ) && (error matches Error::Io(s) && s@ == m@)))),
        plan matches RenamePlan::OverwriteIdentical(t) ==> ((move_result is Ok ==> (r matches
        OutcomeRecord::Renamed { old_path, new_path, digest: d } && old_path@ == spec_join(
            dir@,
            source_name@,
        ) && new_path@ == spec_join(dir@, t@) && d@ == digest@)) && (move_result matches Err(m)
            ==> (r matches OutcomeRecord::Failed { path, error } && path@ == spec_join(
            dir@,
            source_name@,
        ) && (error matches Error::Io(s) && s@ == m@)))),
{
    let source_path = join_path(dir, source_name);
    match plan {
        RenamePlan::AlreadyNamed => OutcomeRecord::Skipped {
            path: source_path,
            reason: SkipReason::AlreadyNamed,
        },
        RenamePlan::KeepBoth => OutcomeRecord::Skipped {
            path: source_path,
            reason: SkipReason::Collision,
        },
        RenamePlan::Rename(t) => match move_result {
            Ok(_) => OutcomeRecord::Renamed {
                old_path: source_path,
                new_path: join_path(dir, t.as_str()),
                digest: String::from_str(digest),
            },
            Err(m) => OutcomeRecord::Failed {
                path: source_path,
                error: Error::Io(m.clone()),
            },
        },
        RenamePlan::OverwriteIdentical(t) => match move_result {
            Ok(_) => OutcomeRecord::Renamed {
                old_path: source_path,
                new_path: join_path(dir, t.as_str()),
                digest: String::from_str(digest),
            },
            Err(m) => OutcomeRecord::Failed {
                path: source_path,
                error: Error::Io(m.clone()),
            },
        },
    }
}

/// Idempotent convergence for identical content: two files with equal bytes
/// get the same digest under any one algorithm, and when their names carry
/// the same extension, the same content-addressed name — so once one of them
/// holds that name, the other's plan for an occupied, byte-identical target
/// is the idempotent overwrite, and exactly one file survives there.
pub proof fn lemma_identical_content_converges(
    alg: DigestAlgorithm,
    data: Seq<u8>,
    name1: Seq<char>,
    name2: Seq<char>,
)
    requires
        spec_extension(name1) == spec_extension(name2),
    ensures
        spec_target_name(spec_digest(alg, data), name1) == spec_target_name(
            spec_digest(alg, data),
            name2,
        ),
{
}

} // verus!
