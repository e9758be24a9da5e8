use app_dist::pipeline::{
    after_step, after_upload, chore_after, chore_before, plan_release, StepChore, release_paths, step_command, step_message, upload_plan, ReleasePaths,
    ReleaseStep, ReleaseStepError,
};
use app_dist::release::{ReleaseArgs, ReleaseTarget};

fn release_args(skip_sign: bool, skip_notarize: bool) -> ReleaseArgs {
    ReleaseArgs {
        app: None,
        version: None,
        build: None,
        archive_path: None,
        project: None,
        scheme: None,
        out_dir: "dist".to_string(),
        skip_notarize,
        skip_sign,
    }
}

fn target() -> ReleaseTarget {
    ReleaseTarget {
        app_id: "app_1".to_string(),
        scheme: "MyApp".to_string(),
        project: "MyApp.xcodeproj".to_string(),
        archive_path: "build/MyApp.xcarchive".to_string(),
    }
}

fn paths() -> ReleasePaths {
    release_paths(&release_args(false, false), "build/export/MyApp.app", "MyApp", "1.2.0", 42, "/tmp", "abc")
}

fn argv(step: ReleaseStep) -> (String, Vec<String>) {
    let c = step_command(&step, &target(), &paths()).expect("a tool runs for this step");
    if step != ReleaseStep::CreateChecksums {
        assert_eq!(c.dir, None);
        assert_eq!(c.output, None);
    }
    (c.program, c.args)
}

#[test]
fn full_release_runs_every_step_in_order() {
    assert_eq!(
        plan_release(&release_args(false, false), false),
        vec![
            ReleaseStep::Archive,
            ReleaseStep::ExportArchive,
            ReleaseStep::VerifySignature,
            ReleaseStep::CreateDmg,
            ReleaseStep::Notarize,
            ReleaseStep::Staple,
            ReleaseStep::CreateZip,
            ReleaseStep::CreateChecksums,
        ]
    );
}

#[test]
fn existing_archive_is_reused() {
    let plan = plan_release(&release_args(false, false), true);
    assert!(!plan.contains(&ReleaseStep::Archive));
    assert_eq!(plan[0], ReleaseStep::ExportArchive);
}

#[test]
fn skip_sign_copies_the_app_and_skips_notarization() {
    assert_eq!(
        plan_release(&release_args(true, false), true),
        vec![
            ReleaseStep::CopyAppFromArchive,
            ReleaseStep::CreateDmg,
            ReleaseStep::CreateZip,
            ReleaseStep::CreateChecksums,
        ]
    );
}

#[test]
fn skip_notarize_keeps_signing() {
    assert_eq!(
        plan_release(&release_args(false, true), false),
        vec![
            ReleaseStep::Archive,
            ReleaseStep::ExportArchive,
            ReleaseStep::VerifySignature,
            ReleaseStep::CreateDmg,
            ReleaseStep::CreateZip,
            ReleaseStep::CreateChecksums,
        ]
    );
}

#[test]
fn archive_command_line() {
    let (program, args) = argv(ReleaseStep::Archive);
    assert_eq!(program, "xcodebuild");
    assert_eq!(
        args,
        vec![
            "archive", "-project", "MyApp.xcodeproj", "-scheme", "MyApp", "-configuration", "Release",
            "-archivePath", "build/MyApp.xcarchive", "-destination", "generic/platform=macOS", "-quiet",
        ]
    );
}

#[test]
fn export_command_line() {
    let (program, args) = argv(ReleaseStep::ExportArchive);
    assert_eq!(program, "xcodebuild");
    assert_eq!(
        args,
        vec![
            "-exportArchive", "-archivePath", "build/MyApp.xcarchive", "-exportPath", "build/export",
            "-exportOptionsPlist", "build/export/ExportOptions.plist", "-quiet",
        ]
    );
}

#[test]
fn signature_check_command_line() {
    let (program, args) = argv(ReleaseStep::VerifySignature);
    assert_eq!(program, "codesign");
    assert_eq!(args, vec!["--verify", "--deep", "--strict", "--verbose=2", "build/export/MyApp.app"]);
}

#[test]
fn dmg_command_line() {
    let (program, args) = argv(ReleaseStep::CreateDmg);
    assert_eq!(program, "hdiutil");
    assert_eq!(
        args,
        vec![
            "create", "-volname", "MyApp", "-srcfolder", "/tmp/app-dist-dmg-abc", "-ov", "-format", "UDZO",
            "dist/MyApp-1.2.0-42.dmg",
        ]
    );
}

#[test]
fn notarize_and_staple_command_lines() {
    let (program, args) = argv(ReleaseStep::Notarize);
    assert_eq!(program, "xcrun");
    assert_eq!(args, vec!["notarytool", "submit", "dist/MyApp-1.2.0-42.dmg", "--wait"]);
    let (program, args) = argv(ReleaseStep::Staple);
    assert_eq!(program, "xcrun");
    assert_eq!(args, vec!["stapler", "staple", "dist/MyApp-1.2.0-42.dmg"]);
}

#[test]
fn zip_command_line() {
    let (program, args) = argv(ReleaseStep::CreateZip);
    assert_eq!(program, "ditto");
    assert_eq!(
        args,
        vec!["-c", "-k", "--sequesterRsrc", "--keepParent", "build/export/MyApp.app", "dist/MyApp-1.2.0-42.zip"]
    );
}

#[test]
fn copying_out_of_the_archive_runs_no_tool() {
    assert!(step_command(&ReleaseStep::CopyAppFromArchive, &target(), &paths()).is_none());
}

#[test]
fn release_paths_layout() {
    let p = paths();
    assert_eq!(p.export_dir, "build/export");
    assert_eq!(p.export_options, "build/export/ExportOptions.plist");
    assert_eq!(p.app_path, "build/export/MyApp.app");
    assert_eq!(p.app_name, "MyApp");
    assert_eq!(p.dmg_staging, "/tmp/app-dist-dmg-abc");
    assert_eq!(p.staged_app, "/tmp/app-dist-dmg-abc/MyApp");
    assert_eq!(p.dmg_path, "dist/MyApp-1.2.0-42.dmg");
    assert_eq!(p.zip_path, "dist/MyApp-1.2.0-42.zip");
    assert_eq!(p.out_dir, "dist");
    assert_eq!(p.dmg_name, "MyApp-1.2.0-42.dmg");
    assert_eq!(p.zip_name, "MyApp-1.2.0-42.zip");
    assert_eq!(p.checksum_path, "dist/MyApp-1.2.0-42.sha256");
}

#[test]
fn checksum_command_line() {
    let c = step_command(&ReleaseStep::CreateChecksums, &target(), &paths()).expect("shasum runs");
    assert_eq!(c.program, "shasum");
    assert_eq!(c.args, vec!["-a", "256", "MyApp-1.2.0-42.dmg", "MyApp-1.2.0-42.zip"]);
    assert_eq!(c.dir, Some("dist".to_string()));
    assert_eq!(c.output, Some("dist/MyApp-1.2.0-42.sha256".to_string()));
}

#[test]
fn checksums_come_last_after_the_zip() {
    for skip_sign in [false, true] {
        let plan = plan_release(&release_args(skip_sign, false), true);
        assert_eq!(plan[plan.len() - 1], ReleaseStep::CreateChecksums);
        assert_eq!(plan[plan.len() - 2], ReleaseStep::CreateZip);
    }
}

#[test]
fn refused_upload_stops_the_release() {
    let uploads = upload_plan("https://uploads.example.com", "r/1.dmg", "r/1.zip", &paths());
    assert_eq!(after_upload(&uploads[0], true), Ok(()));
    assert_eq!(after_upload(&uploads[0], false), Err("Upload of DMG failed".to_string()));
    assert_eq!(after_upload(&uploads[1], false), Err("Upload of ZIP failed".to_string()));
}

#[test]
fn release_paths_follow_path_join() {
    let mut args = release_args(false, false);
    args.out_dir = "/out/".to_string();
    let p = release_paths(&args, "", "", "0.0.0", 7, "/var/tmp/", "x");
    assert_eq!(p.dmg_staging, "/var/tmp/app-dist-dmg-x");
    assert_eq!(p.dmg_path, "/out/-0.0.0-7.dmg");
    assert_eq!(p.staged_app, "/var/tmp/app-dist-dmg-x/");
    let q = std::path::Path::new("/out/").join("-0.0.0-7.dmg");
    assert_eq!(p.dmg_path, q.to_string_lossy());
}

#[test]
fn failed_steps_stop_the_release() {
    assert_eq!(after_step(&ReleaseStep::Archive, false), Err(ReleaseStepError::ArchiveFailed));
    assert_eq!(after_step(&ReleaseStep::ExportArchive, false), Err(ReleaseStepError::ExportFailed));
    assert_eq!(after_step(&ReleaseStep::CopyAppFromArchive, false), Err(ReleaseStepError::CopyFailed));
    assert_eq!(after_step(&ReleaseStep::VerifySignature, false), Err(ReleaseStepError::SignatureInvalid));
    assert_eq!(after_step(&ReleaseStep::CreateDmg, false), Err(ReleaseStepError::DmgFailed));
    assert_eq!(after_step(&ReleaseStep::Notarize, false), Err(ReleaseStepError::NotarizationFailed));
    assert_eq!(after_step(&ReleaseStep::CreateZip, false), Err(ReleaseStepError::ZipFailed));
    assert_eq!(after_step(&ReleaseStep::CreateChecksums, false), Err(ReleaseStepError::ChecksumsFailed));
}

#[test]
fn failed_stapling_is_passed_over() {
    assert_eq!(after_step(&ReleaseStep::Staple, false), Ok(()));
    assert_eq!(after_step(&ReleaseStep::Staple, true), Ok(()));
    assert_eq!(after_step(&ReleaseStep::Notarize, true), Ok(()));
}

#[test]
fn step_error_messages() {
    assert_eq!(ReleaseStepError::ArchiveFailed.message(), "xcodebuild archive failed");
    assert_eq!(ReleaseStepError::ExportFailed.message(), "xcodebuild export failed");
    assert_eq!(ReleaseStepError::SignatureInvalid.message(), "codesign verification failed");
    assert_eq!(ReleaseStepError::DmgFailed.message(), "hdiutil create failed");
    assert_eq!(ReleaseStepError::NotarizationFailed.message(), "Notarization failed");
    assert_eq!(ReleaseStepError::ZipFailed.message(), "ditto (ZIP) failed");
    assert_eq!(ReleaseStepError::ChecksumsFailed.message(), "shasum (SHA-256) failed");
}

#[test]
fn step_status_messages() {
    assert_eq!(step_message(&ReleaseStep::Archive, "MyApp"), "Archiving MyApp (Release)...");
    assert_eq!(step_message(&ReleaseStep::ExportArchive, "MyApp"), "Exporting for Developer ID...");
    assert_eq!(step_message(&ReleaseStep::CopyAppFromArchive, "MyApp"), "Exporting for Developer ID...");
    assert_eq!(step_message(&ReleaseStep::VerifySignature, "MyApp"), "Verifying code signature...");
    assert_eq!(step_message(&ReleaseStep::CreateDmg, "MyApp"), "Creating DMG...");
    assert_eq!(step_message(&ReleaseStep::Notarize, "MyApp"), "Notarizing (this may take a few minutes)...");
    assert_eq!(step_message(&ReleaseStep::Staple, "MyApp"), "Stapling notarization ticket...");
    assert_eq!(step_message(&ReleaseStep::CreateZip, "MyApp"), "Creating ZIP...");
    assert_eq!(step_message(&ReleaseStep::CreateChecksums, "MyApp"), "Writing SHA-256 checksums...");
}

#[test]
fn uploads_dmg_then_zip() {
    let uploads = upload_plan("https://uploads.example.com", "r/1.dmg", "r/1.zip", &paths());
    assert_eq!(uploads.len(), 2);
    assert_eq!(uploads[0].label, "DMG");
    assert_eq!(uploads[0].url, "https://uploads.example.com/r/1.dmg");
    assert_eq!(uploads[0].file, "dist/MyApp-1.2.0-42.dmg");
    assert_eq!(uploads[1].label, "ZIP");
    assert_eq!(uploads[1].url, "https://uploads.example.com/r/1.zip");
    assert_eq!(uploads[1].file, "dist/MyApp-1.2.0-42.zip");
}

#[test]
fn file_work_around_steps() {
    assert_eq!(chore_before(&ReleaseStep::ExportArchive), Some(StepChore::PrepareExportDir));
    assert_eq!(chore_before(&ReleaseStep::CopyAppFromArchive), Some(StepChore::PrepareExportDir));
    assert_eq!(chore_before(&ReleaseStep::CreateDmg), Some(StepChore::StageApp));
    assert_eq!(chore_before(&ReleaseStep::Notarize), None);
    assert_eq!(chore_after(&ReleaseStep::ExportArchive), Some(StepChore::LocateApp));
    assert_eq!(chore_after(&ReleaseStep::CopyAppFromArchive), Some(StepChore::LocateApp));
    assert_eq!(chore_after(&ReleaseStep::CreateDmg), Some(StepChore::RemoveStaging));
    assert_eq!(chore_after(&ReleaseStep::CreateZip), None);
}

#[test]
fn app_is_located_once_before_it_is_used() {
    for skip_sign in [false, true] {
        for skip_notarize in [false, true] {
            for exists in [false, true] {
                let plan = plan_release(&release_args(skip_sign, skip_notarize), exists);
                let located: Vec<usize> = (0..plan.len())
                    .filter(|&i| chore_after(&plan[i]) == Some(StepChore::LocateApp))
                    .collect();
                assert_eq!(located.len(), 1);
                for (i, step) in plan.iter().enumerate() {
                    if matches!(step, ReleaseStep::VerifySignature | ReleaseStep::CreateDmg | ReleaseStep::CreateZip) {
                        assert!(located[0] < i);
                    }
                }
            }
        }
    }
}
