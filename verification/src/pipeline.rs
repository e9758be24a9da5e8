use vstd::prelude::*;
use crate::release;
use crate::release::{ReleaseArgs, ReleaseTarget};
use crate::text;

verus! {

/// One step of building and packaging a release, in the order a release runs them.
#[derive(PartialEq, Eq, Structural, Clone, Copy, Debug)]
pub enum ReleaseStep {
    /// `xcodebuild archive`, when the archive is not there yet.
    Archive,
    /// `xcodebuild -exportArchive` with Developer ID signing.
    ExportArchive,
    /// With `--skip-sign`: the app is copied out of the archive instead of exported.
    CopyAppFromArchive,
    /// `codesign --verify` on the exported app.
    VerifySignature,
    /// `hdiutil create` of the DMG.
    CreateDmg,
    /// `xcrun notarytool submit` of the DMG.
    Notarize,
    /// `xcrun stapler staple` of the DMG.
    Staple,
    /// `ditto` of the app into the ZIP.
    CreateZip,
    /// `shasum -a 256` of the DMG and the ZIP into the checksum file.
    CreateChecksums,
}

/// The steps of a release, in order: the archive when it does not exist yet; then
/// export and signature check, or with `--skip-sign` a copy of the app out of the
/// archive; the DMG; notarization and stapling unless signing or notarization is
/// skipped; the ZIP; the SHA-256 checksums of the DMG and the ZIP last.
pub open spec fn release_plan(skip_sign: bool, skip_notarize: bool, archive_exists: bool) -> Seq<ReleaseStep> {
    (if archive_exists { seq![] } else { seq![ReleaseStep::Archive] })
        + (if skip_sign {
        seq![ReleaseStep::CopyAppFromArchive]
    } else {
        seq![ReleaseStep::ExportArchive, ReleaseStep::VerifySignature]
    }) + seq![ReleaseStep::CreateDmg] + (if !skip_sign && !skip_notarize {
        seq![ReleaseStep::Notarize, ReleaseStep::Staple]
    } else {
        seq![]
    }) + seq![ReleaseStep::CreateZip, ReleaseStep::CreateChecksums]
}

/// The steps a release runs for its flags, given whether the archive already exists.
pub fn plan_release(args: &ReleaseArgs, archive_exists: bool) -> (steps: Vec<ReleaseStep>)
    ensures
        steps@ == release_plan(args.skip_sign, args.skip_notarize, archive_exists),
{
    let mut steps: Vec<ReleaseStep> = Vec::new();
    if !archive_exists {
        steps.push(ReleaseStep::Archive);
    }
    if args.skip_sign {
        steps.push(ReleaseStep::CopyAppFromArchive);
    } else {
        steps.push(ReleaseStep::ExportArchive);
        steps.push(ReleaseStep::VerifySignature);
    }
    steps.push(ReleaseStep::CreateDmg);
    if !args.skip_sign && !args.skip_notarize {
        steps.push(ReleaseStep::Notarize);
        steps.push(ReleaseStep::Staple);
    }
    steps.push(ReleaseStep::CreateZip);
    steps.push(ReleaseStep::CreateChecksums);
    assert(steps@ =~= release_plan(args.skip_sign, args.skip_notarize, archive_exists));
    steps
}

/// Where a step stands in the order of a release.
pub open spec fn step_rank(step: ReleaseStep) -> nat {
    match step {
        ReleaseStep::Archive => 0,
        ReleaseStep::ExportArchive => 1,
        ReleaseStep::CopyAppFromArchive => 2,
        ReleaseStep::VerifySignature => 3,
        ReleaseStep::CreateDmg => 4,
        ReleaseStep::Notarize => 5,
        ReleaseStep::Staple => 6,
        ReleaseStep::CreateZip => 7,
        ReleaseStep::CreateChecksums => 8,
    }
}

/// Law: a release archives iff the archive is missing; it exports and checks the
/// signature iff signing is on, and copies the app out of the archive iff it is
/// off; it notarizes and staples iff neither signing nor notarization is skipped;
/// it always builds the DMG and the ZIP, ends with the checksums of both, runs no
/// step twice and keeps the steps in their order.
pub proof fn law_release_plan(skip_sign: bool, skip_notarize: bool, archive_exists: bool)
    ensures
        release_plan(skip_sign, skip_notarize, archive_exists).contains(ReleaseStep::Archive) <==> !archive_exists,
        release_plan(skip_sign, skip_notarize, archive_exists).contains(ReleaseStep::ExportArchive) <==> !skip_sign,
        release_plan(skip_sign, skip_notarize, archive_exists).contains(ReleaseStep::VerifySignature) <==> !skip_sign,
        release_plan(skip_sign, skip_notarize, archive_exists).contains(ReleaseStep::CopyAppFromArchive) <==> skip_sign,
        release_plan(skip_sign, skip_notarize, archive_exists).contains(ReleaseStep::Notarize) <==> !skip_sign
            && !skip_notarize,
        release_plan(skip_sign, skip_notarize, archive_exists).contains(ReleaseStep::Staple) <==> !skip_sign
            && !skip_notarize,
        release_plan(skip_sign, skip_notarize, archive_exists).contains(ReleaseStep::CreateDmg),
        release_plan(skip_sign, skip_notarize, archive_exists).contains(ReleaseStep::CreateZip),
        release_plan(skip_sign, skip_notarize, archive_exists).last() == ReleaseStep::CreateChecksums,
        forall|i: int, j: int|
            0 <= i < j < release_plan(skip_sign, skip_notarize, archive_exists).len() ==> step_rank(
                #[trigger] release_plan(skip_sign, skip_notarize, archive_exists)[i],
            ) < step_rank(#[trigger] release_plan(skip_sign, skip_notarize, archive_exists)[j]),
{
    let plan = release_plan(skip_sign, skip_notarize, archive_exists);
    let a: Seq<ReleaseStep> = if archive_exists { seq![] } else { seq![ReleaseStep::Archive] };
    let e: Seq<ReleaseStep> = if skip_sign {
        seq![ReleaseStep::CopyAppFromArchive]
    } else {
        seq![ReleaseStep::ExportArchive, ReleaseStep::VerifySignature]
    };
    let n: Seq<ReleaseStep> = if !skip_sign && !skip_notarize {
        seq![ReleaseStep::Notarize, ReleaseStep::Staple]
    } else {
        seq![]
    };
    assert(plan =~= a + e + seq![ReleaseStep::CreateDmg] + n + seq![ReleaseStep::CreateZip, ReleaseStep::CreateChecksums]);
    let k: int = (a.len() + e.len()) as int;
    // Every index of the plan falls into one of the five parts.
    assert forall|i: int| 0 <= i < plan.len() implies {
        ||| (i < a.len() && plan[i] == a[i])
        ||| (a.len() <= i < k && plan[i] == e[i - a.len()])
        ||| (i == k && plan[i] == ReleaseStep::CreateDmg)
        ||| (k < i < k + 1 + n.len() && plan[i] == n[i - k - 1])
        ||| (i == plan.len() - 2 && plan[i] == ReleaseStep::CreateZip)
        ||| (i == plan.len() - 1 && plan[i] == ReleaseStep::CreateChecksums)
    } by {}
    assert(plan[k] == ReleaseStep::CreateDmg);
    assert(plan[plan.len() - 2] == ReleaseStep::CreateZip);
    if !archive_exists {
        assert(plan[0] == ReleaseStep::Archive);
    }
    if skip_sign {
        assert(plan[a.len() as int] == ReleaseStep::CopyAppFromArchive);
    } else {
        assert(plan[a.len() as int] == ReleaseStep::ExportArchive);
        assert(plan[a.len() + 1int] == ReleaseStep::VerifySignature);
    }
    if !skip_sign && !skip_notarize {
        assert(plan[k + 1] == ReleaseStep::Notarize);
        assert(plan[k + 2] == ReleaseStep::Staple);
    }
}

/// Where the files of a release go once the target is settled.
pub struct ReleasePaths {
    /// `build/export`, where the app is exported to.
    pub export_dir: String,
    /// `build/export/ExportOptions.plist`, the export options.
    pub export_options: String,
    /// The exported app bundle.
    pub app_path: String,
    /// The app's name: its bundle name without `.app`.
    pub app_name: String,
    /// `<temp>/app-dist-dmg-<id>`, the folder the DMG is made from.
    pub dmg_staging: String,
    /// `<staging>/<app name>`, where the app is copied inside that folder.
    pub staged_app: String,
    /// `<out dir>/<app>-<version>-<build>.dmg`.
    pub dmg_path: String,
    /// `<out dir>/<app>-<version>-<build>.zip`.
    pub zip_path: String,
    /// The output folder (`--out-dir`).
    pub out_dir: String,
    /// `<app>-<version>-<build>.dmg`.
    pub dmg_name: String,
    /// `<app>-<version>-<build>.zip`.
    pub zip_name: String,
    /// `<out dir>/<app>-<version>-<build>.sha256`, the SHA-256 checksums of both.
    pub checksum_path: String,
}

/// `build/export`.
pub open spec fn export_dir() -> Seq<char> {
    release::path_join("build"@, "export"@)
}

/// `<temp>/app-dist-dmg-<id>`.
pub open spec fn dmg_staging_dir(temp_dir: Seq<char>, staging_id: Seq<char>) -> Seq<char> {
    release::path_join(temp_dir, "app-dist-dmg-"@ + staging_id)
}

/// Lays out the files of a release: the export folder and its options file, the
/// DMG staging folder under `temp_dir` (named with `staging_id`), and the DMG and
/// the ZIP and their checksum file in the output folder of `args` (`--out-dir`),
/// named after the app, the
/// version and the build number. Before the app is exported, `app_path` and
/// `app_name` are empty.
pub fn release_paths(
    args: &ReleaseArgs,
    app_path: &str,
    app_name: &str,
    version: &str,
    build: u32,
    temp_dir: &str,
    staging_id: &str,
) -> (r: ReleasePaths)
    ensures
        r.export_dir@ == export_dir(),
        r.export_options@ == release::path_join(export_dir(), "ExportOptions.plist"@),
        r.app_path@ == app_path@,
        r.app_name@ == app_name@,
        r.dmg_staging@ == dmg_staging_dir(temp_dir@, staging_id@),
        r.staged_app@ == release::path_join(dmg_staging_dir(temp_dir@, staging_id@), app_name@),
        r.dmg_path@ == release::path_join(args.out_dir@, release::artifact_name(app_name@, version@, build, "dmg"@)),
        r.zip_path@ == release::path_join(args.out_dir@, release::artifact_name(app_name@, version@, build, "zip"@)),
        r.out_dir@ == args.out_dir@,
        r.dmg_name@ == release::artifact_name(app_name@, version@, build, "dmg"@),
        r.zip_name@ == release::artifact_name(app_name@, version@, build, "zip"@),
        r.checksum_path@ == release::path_join(
            args.out_dir@,
            release::artifact_name(app_name@, version@, build, "sha256"@),
        ),
{
    let export_dir = release::path_join_exec("build", "export");
    let export_options = release::path_join_exec(export_dir.as_str(), "ExportOptions.plist");
    let staging_name = release::concat_str("app-dist-dmg-", staging_id);
    let dmg_staging = release::path_join_exec(temp_dir, staging_name.as_str());
    let staged_app = release::path_join_exec(dmg_staging.as_str(), app_name);
    let dmg_name = release::artifact_file_name(app_name, version, build, "dmg");
    let zip_name = release::artifact_file_name(app_name, version, build, "zip");
    let dmg_path = release::path_join_exec(args.out_dir.as_str(), dmg_name.as_str());
    let zip_path = release::path_join_exec(args.out_dir.as_str(), zip_name.as_str());
    let checksum_name = release::artifact_file_name(app_name, version, build, "sha256");
    let checksum_path = release::path_join_exec(args.out_dir.as_str(), checksum_name.as_str());
    ReleasePaths {
        export_dir,
        export_options,
        app_path: app_path.to_owned(),
        app_name: app_name.to_owned(),
        dmg_staging,
        staged_app,
        dmg_path,
        zip_path,
        out_dir: args.out_dir.clone(),
        dmg_name,
        zip_name,
        checksum_path,
    }
}

/// A program to run, its arguments, the folder it runs in (the current one when
/// `None`) and the file its output is written to (discarded when `None`).
pub struct ToolCommand {
    pub program: String,
    pub args: Vec<String>,
    pub dir: Option<String>,
    pub output: Option<String>,
}

/// The program a step runs; none for the copy of the app out of the archive,
/// which is a file copy.
pub open spec fn step_program(step: ReleaseStep) -> Option<Seq<char>> {
    match step {
        ReleaseStep::Archive => Some("xcodebuild"@),
        ReleaseStep::ExportArchive => Some("xcodebuild"@),
        ReleaseStep::CopyAppFromArchive => None,
        ReleaseStep::VerifySignature => Some("codesign"@),
        ReleaseStep::CreateDmg => Some("hdiutil"@),
        ReleaseStep::Notarize => Some("xcrun"@),
        ReleaseStep::Staple => Some("xcrun"@),
        ReleaseStep::CreateZip => Some("ditto"@),
        ReleaseStep::CreateChecksums => Some("shasum"@),
    }
}

/// The arguments of the program a step runs.
pub open spec fn step_args(step: ReleaseStep, target: ReleaseTarget, paths: ReleasePaths) -> Seq<Seq<char>> {
    match step {
        ReleaseStep::Archive => seq![
            "archive"@, "-project"@, target.project@, "-scheme"@, target.scheme@,
            "-configuration"@, "Release"@, "-archivePath"@, target.archive_path@,
            "-destination"@, "generic/platform=macOS"@, "-quiet"@,
        ],
        ReleaseStep::ExportArchive => seq![
            "-exportArchive"@, "-archivePath"@, target.archive_path@, "-exportPath"@,
            paths.export_dir@, "-exportOptionsPlist"@, paths.export_options@, "-quiet"@,
        ],
        ReleaseStep::CopyAppFromArchive => seq![],
        ReleaseStep::VerifySignature => seq![
            "--verify"@, "--deep"@, "--strict"@, "--verbose=2"@, paths.app_path@,
        ],
        ReleaseStep::CreateDmg => seq![
            "create"@, "-volname"@, paths.app_name@, "-srcfolder"@, paths.dmg_staging@,
            "-ov"@, "-format"@, "UDZO"@, paths.dmg_path@,
        ],
        ReleaseStep::Notarize => seq!["notarytool"@, "submit"@, paths.dmg_path@, "--wait"@],
        ReleaseStep::Staple => seq!["stapler"@, "staple"@, paths.dmg_path@],
        ReleaseStep::CreateZip => seq![
            "-c"@, "-k"@, "--sequesterRsrc"@, "--keepParent"@, paths.app_path@, paths.zip_path@,
        ],
        ReleaseStep::CreateChecksums => seq!["-a"@, "256"@, paths.dmg_name@, paths.zip_name@],
    }
}

/// The folder a step's program runs in: the output folder for the checksums, so
/// that the checksum file names the artifacts by their file names alone.
pub open spec fn step_dir(step: ReleaseStep, paths: ReleasePaths) -> Option<Seq<char>> {
    match step {
        ReleaseStep::CreateChecksums => Some(paths.out_dir@),
        _ => None,
    }
}

/// The file a step's output is kept in: the checksum file for the checksums.
pub open spec fn step_output(step: ReleaseStep, paths: ReleasePaths) -> Option<Seq<char>> {
    match step {
        ReleaseStep::CreateChecksums => Some(paths.checksum_path@),
        _ => None,
    }
}

/// The view of an optional string.
pub open spec fn opt_view(o: Option<String>) -> Option<Seq<char>> {
    match o {
        Some(s) => Some(s@),
        None => None,
    }
}

fn push_arg(args: &mut Vec<String>, a: &str)
    ensures
        text::string_views(final(args)@) == text::string_views(old(args)@).push(a@),
{
    args.push(a.to_owned());
    assert(text::string_views(args@) =~= text::string_views(old(args)@).push(a@));
}

/// The command a step runs, or `None` for the copy of the app out of the archive.
pub fn step_command(step: &ReleaseStep, target: &ReleaseTarget, paths: &ReleasePaths) -> (r: Option<ToolCommand>)
    ensures
        match step_program(*step) {
            None => r is None,
            Some(p) => r is Some && r->0.program@ == p && text::string_views(r->0.args@) == step_args(
                *step,
                *target,
                *paths,
            ) && opt_view(r->0.dir) == step_dir(*step, *paths) && opt_view(r->0.output) == step_output(
                *step,
                *paths,
            ),
        },
{
    let mut a: Vec<String> = Vec::new();
    let program = match step {
        ReleaseStep::Archive => {
            push_arg(&mut a, "archive");
            push_arg(&mut a, "-project");
            push_arg(&mut a, target.project.as_str());
            push_arg(&mut a, "-scheme");
            push_arg(&mut a, target.scheme.as_str());
            push_arg(&mut a, "-configuration");
            push_arg(&mut a, "Release");
            push_arg(&mut a, "-archivePath");
            push_arg(&mut a, target.archive_path.as_str());
            push_arg(&mut a, "-destination");
            push_arg(&mut a, "generic/platform=macOS");
            push_arg(&mut a, "-quiet");
            "xcodebuild"
        },
        ReleaseStep::ExportArchive => {
            push_arg(&mut a, "-exportArchive");
            push_arg(&mut a, "-archivePath");
            push_arg(&mut a, target.archive_path.as_str());
            push_arg(&mut a, "-exportPath");
            push_arg(&mut a, paths.export_dir.as_str());
            push_arg(&mut a, "-exportOptionsPlist");
            push_arg(&mut a, paths.export_options.as_str());
            push_arg(&mut a, "-quiet");
            "xcodebuild"
        },
        ReleaseStep::CopyAppFromArchive => {
            return None;
        },
        ReleaseStep::VerifySignature => {
            push_arg(&mut a, "--verify");
            push_arg(&mut a, "--deep");
            push_arg(&mut a, "--strict");
            push_arg(&mut a, "--verbose=2");
            push_arg(&mut a, paths.app_path.as_str());
            "codesign"
        },
        ReleaseStep::CreateDmg => {
            push_arg(&mut a, "create");
            push_arg(&mut a, "-volname");
            push_arg(&mut a, paths.app_name.as_str());
            push_arg(&mut a, "-srcfolder");
            push_arg(&mut a, paths.dmg_staging.as_str());
            push_arg(&mut a, "-ov");
            push_arg(&mut a, "-format");
            push_arg(&mut a, "UDZO");
            push_arg(&mut a, paths.dmg_path.as_str());
            "hdiutil"
        },
        ReleaseStep::Notarize => {
            push_arg(&mut a, "notarytool");
            push_arg(&mut a, "submit");
            push_arg(&mut a, paths.dmg_path.as_str());
            push_arg(&mut a, "--wait");
            "xcrun"
        },
        ReleaseStep::Staple => {
            push_arg(&mut a, "stapler");
            push_arg(&mut a, "staple");
            push_arg(&mut a, paths.dmg_path.as_str());
            "xcrun"
        },
        ReleaseStep::CreateZip => {
            push_arg(&mut a, "-c");
            push_arg(&mut a, "-k");
            push_arg(&mut a, "--sequesterRsrc");
            push_arg(&mut a, "--keepParent");
            push_arg(&mut a, paths.app_path.as_str());
            push_arg(&mut a, paths.zip_path.as_str());
            "ditto"
        },
        ReleaseStep::CreateChecksums => {
            push_arg(&mut a, "-a");
            push_arg(&mut a, "256");
            push_arg(&mut a, paths.dmg_name.as_str());
            push_arg(&mut a, paths.zip_name.as_str());
            "shasum"
        },
    };
    let (dir, output) = match step {
        ReleaseStep::CreateChecksums => (Some(paths.out_dir.clone()), Some(paths.checksum_path.clone())),
        _ => (None, None),
    };
    assert(text::string_views(a@) =~= step_args(*step, *target, *paths));
    Some(ToolCommand { program: program.to_owned(), args: a, dir, output })
}

/// Why a release stopped at one of its steps.
#[derive(PartialEq, Eq, Structural, Clone, Copy, Debug)]
pub enum ReleaseStepError {
    ArchiveFailed,
    ExportFailed,
    CopyFailed,
    SignatureInvalid,
    DmgFailed,
    NotarizationFailed,
    ZipFailed,
    ChecksumsFailed,
}

/// What a step's result means for the release: it goes on after a success; after
/// a failure it stops with the step's error, except that a failed stapling is
/// passed over.
pub open spec fn step_outcome(step: ReleaseStep, succeeded: bool) -> Result<(), ReleaseStepError> {
    if succeeded {
        Ok(())
    } else {
        match step {
            ReleaseStep::Archive => Err(ReleaseStepError::ArchiveFailed),
            ReleaseStep::ExportArchive => Err(ReleaseStepError::ExportFailed),
            ReleaseStep::CopyAppFromArchive => Err(ReleaseStepError::CopyFailed),
            ReleaseStep::VerifySignature => Err(ReleaseStepError::SignatureInvalid),
            ReleaseStep::CreateDmg => Err(ReleaseStepError::DmgFailed),
            ReleaseStep::Notarize => Err(ReleaseStepError::NotarizationFailed),
            ReleaseStep::Staple => Ok(()),
            ReleaseStep::CreateZip => Err(ReleaseStepError::ZipFailed),
            ReleaseStep::CreateChecksums => Err(ReleaseStepError::ChecksumsFailed),
        }
    }
}

/// Decides, from whether a step succeeded, whether the release goes on.
pub fn after_step(step: &ReleaseStep, succeeded: bool) -> (r: Result<(), ReleaseStepError>)
    ensures
        r == step_outcome(*step, succeeded),
{
    if succeeded {
        return Ok(());
    }
    match step {
        ReleaseStep::Archive => Err(ReleaseStepError::ArchiveFailed),
        ReleaseStep::ExportArchive => Err(ReleaseStepError::ExportFailed),
        ReleaseStep::CopyAppFromArchive => Err(ReleaseStepError::CopyFailed),
        ReleaseStep::VerifySignature => Err(ReleaseStepError::SignatureInvalid),
        ReleaseStep::CreateDmg => Err(ReleaseStepError::DmgFailed),
        ReleaseStep::Notarize => Err(ReleaseStepError::NotarizationFailed),
        ReleaseStep::Staple => Ok(()),
        ReleaseStep::CreateZip => Err(ReleaseStepError::ZipFailed),
        ReleaseStep::CreateChecksums => Err(ReleaseStepError::ChecksumsFailed),
    }
}

/// Law: a release goes on after every step that succeeds; a failed step stops
/// it, whichever step it is, except stapling, whose result never stops it.
pub proof fn law_step_outcome(step: ReleaseStep, succeeded: bool)
    ensures
        succeeded ==> step_outcome(step, succeeded) is Ok,
        !succeeded ==> (step_outcome(step, succeeded) is Err <==> step != ReleaseStep::Staple),
        step == ReleaseStep::Staple ==> step_outcome(step, succeeded) is Ok,
{
}

/// The message a release stops with.
pub open spec fn step_error_text(e: ReleaseStepError) -> Seq<char> {
    match e {
        ReleaseStepError::ArchiveFailed => "xcodebuild archive failed"@,
        ReleaseStepError::ExportFailed => "xcodebuild export failed"@,
        ReleaseStepError::CopyFailed => "copying the app out of the archive failed"@,
        ReleaseStepError::SignatureInvalid => "codesign verification failed"@,
        ReleaseStepError::DmgFailed => "hdiutil create failed"@,
        ReleaseStepError::NotarizationFailed => "Notarization failed"@,
        ReleaseStepError::ZipFailed => "ditto (ZIP) failed"@,
        ReleaseStepError::ChecksumsFailed => "shasum (SHA-256) failed"@,
    }
}

impl ReleaseStepError {
    /// The message a release stops with (see `step_error_text`).
    pub fn message(&self) -> (r: String)
        ensures
            r@ == step_error_text(*self),
    {
        let t = match self {
            ReleaseStepError::ArchiveFailed => "xcodebuild archive failed",
            ReleaseStepError::ExportFailed => "xcodebuild export failed",
            ReleaseStepError::CopyFailed => "copying the app out of the archive failed",
            ReleaseStepError::SignatureInvalid => "codesign verification failed",
            ReleaseStepError::DmgFailed => "hdiutil create failed",
            ReleaseStepError::NotarizationFailed => "Notarization failed",
            ReleaseStepError::ZipFailed => "ditto (ZIP) failed",
            ReleaseStepError::ChecksumsFailed => "shasum (SHA-256) failed",
        };
        t.to_owned()
    }
}

/// What a release shows while a step runs.
pub open spec fn step_status_text(step: ReleaseStep, scheme: Seq<char>) -> Seq<char> {
    match step {
        ReleaseStep::Archive => "Archiving "@ + scheme + " (Release)..."@,
        ReleaseStep::ExportArchive => "Exporting for Developer ID..."@,
        ReleaseStep::CopyAppFromArchive => "Exporting for Developer ID..."@,
        ReleaseStep::VerifySignature => "Verifying code signature..."@,
        ReleaseStep::CreateDmg => "Creating DMG..."@,
        ReleaseStep::Notarize => "Notarizing (this may take a few minutes)..."@,
        ReleaseStep::Staple => "Stapling notarization ticket..."@,
        ReleaseStep::CreateZip => "Creating ZIP..."@,
        ReleaseStep::CreateChecksums => "Writing SHA-256 checksums..."@,
    }
}

/// What a release shows while `step` runs (see `step_status_text`).
pub fn step_message(step: &ReleaseStep, scheme: &str) -> (r: String)
    ensures
        r@ == step_status_text(*step, scheme@),
{
    match step {
        ReleaseStep::Archive => {
            let mut r = "Archiving ".to_owned();
            r.append(scheme);
            r.append(" (Release)...");
            r
        },
        ReleaseStep::ExportArchive => "Exporting for Developer ID...".to_owned(),
        ReleaseStep::CopyAppFromArchive => "Exporting for Developer ID...".to_owned(),
        ReleaseStep::VerifySignature => "Verifying code signature...".to_owned(),
        ReleaseStep::CreateDmg => "Creating DMG...".to_owned(),
        ReleaseStep::Notarize => "Notarizing (this may take a few minutes)...".to_owned(),
        ReleaseStep::Staple => "Stapling notarization ticket...".to_owned(),
        ReleaseStep::CreateZip => "Creating ZIP...".to_owned(),
        ReleaseStep::CreateChecksums => "Writing SHA-256 checksums...".to_owned(),
    }
}

/// One artifact to upload: what it is, where it goes and which file it is.
pub struct Upload {
    pub label: String,
    pub url: String,
    pub file: String,
}

/// The uploads of a release, in order: the DMG to `<base>/<dmg key>`, then the ZIP
/// to `<base>/<zip key>`.
pub fn upload_plan(upload_base_url: &str, dmg_key: &str, zip_key: &str, paths: &ReleasePaths) -> (r: Vec<Upload>)
    ensures
        r@.len() == 2,
        r@[0].label@ == "DMG"@,
        r@[0].url@ == upload_base_url@ + "/"@ + dmg_key@,
        r@[0].file@ == paths.dmg_path@,
        r@[1].label@ == "ZIP"@,
        r@[1].url@ == upload_base_url@ + "/"@ + zip_key@,
        r@[1].file@ == paths.zip_path@,
{
    let mut r: Vec<Upload> = Vec::new();
    r.push(Upload {
        label: "DMG".to_owned(),
        url: release::upload_object_url(upload_base_url, dmg_key),
        file: paths.dmg_path.clone(),
    });
    r.push(Upload {
        label: "ZIP".to_owned(),
        url: release::upload_object_url(upload_base_url, zip_key),
        file: paths.zip_path.clone(),
    });
    r
}

/// File work a release does around a step, besides running its tool.
#[derive(PartialEq, Eq, Structural, Clone, Copy, Debug)]
pub enum StepChore {
    /// Empty `build/export` and write the export options into it.
    PrepareExportDir,
    /// Create the DMG staging folder and copy the app into it.
    StageApp,
    /// Find the exported app in `build/export`; the paths that depend on it follow.
    LocateApp,
    /// Remove the DMG staging folder.
    RemoveStaging,
}

/// The file work before a step: the export folder is prepared before the app is
/// exported or copied out of the archive, and the app is staged before the DMG.
pub open spec fn chore_before_step(step: ReleaseStep) -> Option<StepChore> {
    match step {
        ReleaseStep::ExportArchive => Some(StepChore::PrepareExportDir),
        ReleaseStep::CopyAppFromArchive => Some(StepChore::PrepareExportDir),
        ReleaseStep::CreateDmg => Some(StepChore::StageApp),
        _ => None,
    }
}

/// The file work after a step succeeded: the app is located once it has been
/// exported or copied, and the staging folder is removed once the DMG exists.
pub open spec fn chore_after_step(step: ReleaseStep) -> Option<StepChore> {
    match step {
        ReleaseStep::ExportArchive => Some(StepChore::LocateApp),
        ReleaseStep::CopyAppFromArchive => Some(StepChore::LocateApp),
        ReleaseStep::CreateDmg => Some(StepChore::RemoveStaging),
        _ => None,
    }
}

/// The file work before `step` (see `chore_before_step`).
pub fn chore_before(step: &ReleaseStep) -> (r: Option<StepChore>)
    ensures
        r == chore_before_step(*step),
{
    match step {
        ReleaseStep::ExportArchive => Some(StepChore::PrepareExportDir),
        ReleaseStep::CopyAppFromArchive => Some(StepChore::PrepareExportDir),
        ReleaseStep::CreateDmg => Some(StepChore::StageApp),
        _ => None,
    }
}

/// The file work after `step` succeeded (see `chore_after_step`).
pub fn chore_after(step: &ReleaseStep) -> (r: Option<StepChore>)
    ensures
        r == chore_after_step(*step),
{
    match step {
        ReleaseStep::ExportArchive => Some(StepChore::LocateApp),
        ReleaseStep::CopyAppFromArchive => Some(StepChore::LocateApp),
        ReleaseStep::CreateDmg => Some(StepChore::RemoveStaging),
        _ => None,
    }
}

/// Whether a step works on the exported app (its path or its name).
pub open spec fn uses_app(step: ReleaseStep) -> bool {
    step == ReleaseStep::VerifySignature || step == ReleaseStep::CreateDmg || step == ReleaseStep::CreateZip
}

/// Law: every release plan locates the app after exactly one of its steps, and
/// every step that works on the app comes after that one.
pub proof fn law_app_located_before_use(skip_sign: bool, skip_notarize: bool, archive_exists: bool)
    ensures
        exists|k: int|
            #![trigger release_plan(skip_sign, skip_notarize, archive_exists)[k]]
            0 <= k < release_plan(skip_sign, skip_notarize, archive_exists).len()
                && chore_after_step(release_plan(skip_sign, skip_notarize, archive_exists)[k])
                == Some(StepChore::LocateApp) && (forall|i: int|
                0 <= i < release_plan(skip_sign, skip_notarize, archive_exists).len() && i != k
                    ==> chore_after_step(#[trigger] release_plan(skip_sign, skip_notarize, archive_exists)[i])
                    != Some(StepChore::LocateApp)) && (forall|i: int|
                0 <= i < release_plan(skip_sign, skip_notarize, archive_exists).len() && uses_app(
                    #[trigger] release_plan(skip_sign, skip_notarize, archive_exists)[i],
                ) ==> k < i),
{
    let plan = release_plan(skip_sign, skip_notarize, archive_exists);
    law_release_plan(skip_sign, skip_notarize, archive_exists);
    let k: int = if archive_exists { 0 } else { 1 };
    let a: Seq<ReleaseStep> = if archive_exists { seq![] } else { seq![ReleaseStep::Archive] };
    let e: Seq<ReleaseStep> = if skip_sign {
        seq![ReleaseStep::CopyAppFromArchive]
    } else {
        seq![ReleaseStep::ExportArchive, ReleaseStep::VerifySignature]
    };
    let n: Seq<ReleaseStep> = if !skip_sign && !skip_notarize {
        seq![ReleaseStep::Notarize, ReleaseStep::Staple]
    } else {
        seq![]
    };
    assert(plan =~= a + e + seq![ReleaseStep::CreateDmg] + n + seq![ReleaseStep::CreateZip, ReleaseStep::CreateChecksums]);
    assert(plan[k] == e[0]);
    assert forall|i: int| 0 <= i < plan.len() && i != k implies chore_after_step(#[trigger] plan[i]) != Some(
        StepChore::LocateApp,
    ) by {
        if i < k {
            assert(step_rank(plan[i]) < step_rank(plan[k]));
        } else {
            assert(step_rank(plan[k]) < step_rank(plan[i]));
        }
    }
    assert forall|i: int| 0 <= i < plan.len() && uses_app(#[trigger] plan[i]) implies k < i by {
        if i <= k {
            if i < k {
                assert(step_rank(plan[i]) < step_rank(plan[k]));
            }
        }
    }
}

/// The message a release stops with when the storage refused an upload.
pub open spec fn upload_error_text(label: Seq<char>) -> Seq<char> {
    "Upload of "@ + label + " failed"@
}

/// Decides, from whether the storage accepted an upload, whether the release
/// goes on: it stops with a message naming the artifact when the upload was refused.
pub fn after_upload(upload: &Upload, accepted: bool) -> (r: Result<(), String>)
    ensures
        r is Ok <==> accepted,
        r matches Err(m) ==> m@ == upload_error_text(upload.label@),
{
    if accepted {
        Ok(())
    } else {
        let mut m = "Upload of ".to_owned();
        m.append(upload.label.as_str());
        m.append(" failed");
        Err(m)
    }
}

/// Law: the DMG is a volume named after the app (the stem of the exported bundle)
/// and made from the staging folder into the DMG path; like every step after the
/// export, its command line does not depend on the target (scheme, project,
/// archive or app id), only on the paths of the release.
pub proof fn law_dmg_named_after_app(step: ReleaseStep, t1: ReleaseTarget, t2: ReleaseTarget, paths: ReleasePaths)
    ensures
        step_args(ReleaseStep::CreateDmg, t1, paths).len() == 9,
        step_args(ReleaseStep::CreateDmg, t1, paths)[1] == "-volname"@,
        step_args(ReleaseStep::CreateDmg, t1, paths)[2] == paths.app_name@,
        step_args(ReleaseStep::CreateDmg, t1, paths)[4] == paths.dmg_staging@,
        step_args(ReleaseStep::CreateDmg, t1, paths)[8] == paths.dmg_path@,
        step != ReleaseStep::Archive && step != ReleaseStep::ExportArchive ==> step_args(step, t1, paths)
            == step_args(step, t2, paths),
{
}

/// Law: each tool works on the right files. The archive is built from the
/// target's project and scheme into its archive path; the export reads that
/// archive into the export folder; the signature check, the DMG staging and the
/// ZIP read the exported app; notarization and stapling act on the DMG; the ZIP is
/// written to the ZIP path; the checksums cover the DMG and then the ZIP, by name,
/// in the output folder, into the checksum file.
pub proof fn law_tools_work_on_the_right_files(target: ReleaseTarget, paths: ReleasePaths)
    ensures
        step_args(ReleaseStep::Archive, target, paths)[2] == target.project@,
        step_args(ReleaseStep::Archive, target, paths)[4] == target.scheme@,
        step_args(ReleaseStep::Archive, target, paths)[8] == target.archive_path@,
        step_args(ReleaseStep::ExportArchive, target, paths)[2] == target.archive_path@,
        step_args(ReleaseStep::ExportArchive, target, paths)[4] == paths.export_dir@,
        step_args(ReleaseStep::ExportArchive, target, paths)[6] == paths.export_options@,
        step_args(ReleaseStep::VerifySignature, target, paths).last() == paths.app_path@,
        step_args(ReleaseStep::Notarize, target, paths)[2] == paths.dmg_path@,
        step_args(ReleaseStep::Staple, target, paths).last() == paths.dmg_path@,
        step_args(ReleaseStep::CreateZip, target, paths).len() == 6,
        step_args(ReleaseStep::CreateZip, target, paths)[4] == paths.app_path@,
        step_args(ReleaseStep::CreateZip, target, paths)[5] == paths.zip_path@,
        step_args(ReleaseStep::CreateChecksums, target, paths).len() == 4,
        step_args(ReleaseStep::CreateChecksums, target, paths)[2] == paths.dmg_name@,
        step_args(ReleaseStep::CreateChecksums, target, paths)[3] == paths.zip_name@,
        step_dir(ReleaseStep::CreateChecksums, paths) == Some(paths.out_dir@),
        step_output(ReleaseStep::CreateChecksums, paths) == Some(paths.checksum_path@),
        forall|step: ReleaseStep|
            step != ReleaseStep::CreateChecksums ==> #[trigger] step_output(step, paths) is None && step_dir(
                step,
                paths,
            ) is None,
        step_program(ReleaseStep::Archive) == Some("xcodebuild"@),
        step_program(ReleaseStep::ExportArchive) == Some("xcodebuild"@),
        step_program(ReleaseStep::VerifySignature) == Some("codesign"@),
        step_program(ReleaseStep::CreateDmg) == Some("hdiutil"@),
        step_program(ReleaseStep::Notarize) == Some("xcrun"@),
        step_program(ReleaseStep::Staple) == Some("xcrun"@),
        step_program(ReleaseStep::CreateZip) == Some("ditto"@),
        step_program(ReleaseStep::CreateChecksums) == Some("shasum"@),
        step_program(ReleaseStep::CopyAppFromArchive) is None,
{
}

} // verus!
