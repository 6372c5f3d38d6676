use m4b_maker::job::{JobRequest, RunAction, RunEvent};
use m4b_maker::manifest::BuildError;
use m4b_maker::outcome::RunOutcome;
use m4b_maker::status::StatusLog;

fn owned(items: &[&str]) -> Vec<String> {
    let mut v = Vec::new();
    for a in items {
        v.push(a.to_string());
    }
    v
}

fn request(files: &[&str], title: &str, author: &str, output: &str) -> JobRequest {
    match JobRequest::new(owned(files), title.to_string(), author.to_string(), output.to_string())
    {
        Some(job) => job,
        None => panic!("a request with input files was refused"),
    }
}

fn failure(reason: &str, exit_code: Option<i32>) -> RunOutcome {
    RunOutcome::Failure { reason: reason.to_string(), exit_code }
}

#[test]
fn request_needs_an_input_file() {
    assert!(JobRequest::new(Vec::new(), "t".to_string(), "a".to_string(), "o".to_string())
        .is_none());
    assert!(JobRequest::new(owned(&["a.mp3"]), String::new(), String::new(), String::new())
        .is_some());
}

#[test]
fn request_keeps_what_it_was_given() {
    let job = request(&["a.mp3", "b.mp3"], "Title", "Author", "out.m4b");
    assert_eq!(job.files(), &owned(&["a.mp3", "b.mp3"]));
    assert_eq!(job.title(), "Title");
    assert_eq!(job.author(), "Author");
    assert_eq!(job.output_path(), "out.m4b");
}

#[test]
fn request_writes_its_manifest() {
    let job = request(&["a.mp3", "b.mp3"], "", "", "out.m4b");
    assert_eq!(job.manifest(), "file 'a.mp3'\nfile 'b.mp3'\n");
}

#[test]
fn request_builds_its_arguments() {
    let job = request(&["a.mp3"], "", "My Book", "out.m4b");
    assert_eq!(
        job.args("/tmp/m"),
        owned(&[
            "-y", "-f", "concat", "-safe", "0", "-i", "/tmp/m", "-c:a", "aac", "-b:a", "128k",
            "-movflags", "+faststart", "-progress", "-", "-metadata", "artist=My Book", "out.m4b",
        ])
    );
}

#[test]
fn written_manifest_lists_the_inputs_and_launches() {
    let job = request(&["a.mp3", "b.mp3"], "T", "", "out.m4b");
    let mut log = StatusLog::new();
    log.reset("🔄 Generating m4b...\n");
    log.take_redraw();
    let action = job.advance(&mut log, RunEvent::ManifestWritten("/tmp/list".to_string()));
    assert_eq!(
        log.snapshot(),
        "🔄 Generating m4b...\n🔍 FFmpeg input list:\nfile 'a.mp3'\nfile 'b.mp3'\n"
    );
    assert!(log.take_redraw());
    assert_eq!(
        action,
        RunAction::Launch(owned(&[
            "-y", "-f", "concat", "-safe", "0", "-i", "/tmp/list", "-c:a", "aac", "-b:a", "128k",
            "-movflags", "+faststart", "-progress", "-", "-metadata", "title=T", "out.m4b",
        ]))
    );
}

#[test]
fn failed_manifest_finishes_the_run() {
    let job = request(&["a.mp3"], "", "", "out.m4b");
    let mut log = StatusLog::new();
    log.reset("🔄 Generating m4b...\n");
    let action = job.advance(
        &mut log,
        RunEvent::ManifestFailed(BuildError::CreateFailed("denied".to_string())),
    );
    assert_eq!(log.snapshot(), "🔄 Generating m4b...\n❌ Failed to create temp file: denied\n");
    assert_eq!(action, RunAction::Finish(failure("Failed to create temp file: denied", None)));
}

#[test]
fn failed_write_and_failed_keep_are_reported() {
    let job = request(&["a.mp3"], "", "", "out.m4b");
    let mut log = StatusLog::new();
    let first = job.advance(
        &mut log,
        RunEvent::ManifestFailed(BuildError::WriteFailed("full".to_string())),
    );
    assert_eq!(log.snapshot(), "❌ Failed to write to temp file: full\n");
    assert_eq!(first, RunAction::Finish(failure("Failed to write to temp file: full", None)));
    let mut other = StatusLog::new();
    let second = job.advance(
        &mut other,
        RunEvent::ManifestFailed(BuildError::PersistFailed("gone".to_string())),
    );
    assert_eq!(other.snapshot(), "❌ Failed to keep temp file: gone\n");
    assert_eq!(second, RunAction::Finish(failure("Failed to keep temp file: gone", None)));
}

#[test]
fn failed_launch_finishes_the_run() {
    let job = request(&["a.mp3"], "", "", "out.m4b");
    let mut log = StatusLog::new();
    log.reset("🔄 Generating m4b...\n");
    let action = job.advance(&mut log, RunEvent::LaunchFailed("not found".to_string()));
    assert_eq!(log.snapshot(), "🔄 Generating m4b...\n❌ Failed to launch ffmpeg: not found\n");
    assert_eq!(action, RunAction::Finish(failure("Failed to launch ffmpeg: not found", None)));
    assert!(log.take_redraw());
}

#[test]
fn output_is_appended_line_by_line() {
    let job = request(&["a.mp3"], "", "", "out.m4b");
    let mut log = StatusLog::new();
    assert_eq!(job.advance(&mut log, RunEvent::Output("frame=1".to_string())), RunAction::Continue);
    assert!(log.take_redraw());
    assert_eq!(job.advance(&mut log, RunEvent::Output(String::new())), RunAction::Continue);
    assert_eq!(job.advance(&mut log, RunEvent::Output("progress=end".to_string())), RunAction::Continue);
    assert_eq!(log.snapshot(), "frame=1\n\nprogress=end\n");
    assert!(log.take_redraw());
}

#[test]
fn exit_zero_ends_with_the_success_marker() {
    let job = request(&["a.mp3", "b.mp3"], "", "", "out.m4b");
    let mut log = StatusLog::new();
    log.reset("🔄 Generating m4b...\n");
    job.advance(&mut log, RunEvent::ManifestWritten("/tmp/list".to_string()));
    job.advance(&mut log, RunEvent::Output("Input #0, concat, from '/tmp/list':".to_string()));
    job.advance(&mut log, RunEvent::Output("progress=end".to_string()));
    let action = job.advance(&mut log, RunEvent::Exited(Some(0)));
    assert_eq!(action, RunAction::Finish(RunOutcome::Success));
    let text = log.snapshot();
    assert!(text.ends_with("✅ FFmpeg finished successfully.\n"));
    assert!(!text.contains("❌"));
    assert_eq!(
        text,
        "🔄 Generating m4b...\n🔍 FFmpeg input list:\nfile 'a.mp3'\nfile 'b.mp3'\n\
         Input #0, concat, from '/tmp/list':\nprogress=end\n✅ FFmpeg finished successfully.\n"
    );
}

#[test]
fn exit_one_ends_with_the_failure_marker_and_the_code() {
    let job = request(&["a.mp3", "b.mp3"], "", "", "out.m4b");
    let mut log = StatusLog::new();
    log.reset("🔄 Generating m4b...\n");
    job.advance(&mut log, RunEvent::ManifestWritten("/tmp/list".to_string()));
    job.advance(&mut log, RunEvent::Output("a.mp3: No such file or directory".to_string()));
    let action = job.advance(&mut log, RunEvent::Exited(Some(1)));
    assert_eq!(action, RunAction::Finish(failure("FFmpeg failed with code 1", Some(1))));
    let text = log.snapshot();
    assert!(text.ends_with("❌ FFmpeg failed with code 1\n"));
    assert!(!text.contains("✅"));
}

#[test]
fn end_without_a_code_is_reported_as_minus_one() {
    let job = request(&["a.mp3"], "", "", "out.m4b");
    let mut log = StatusLog::new();
    let action = job.advance(&mut log, RunEvent::Exited(None));
    assert_eq!(action, RunAction::Finish(failure("FFmpeg failed with code -1", None)));
    assert_eq!(log.snapshot(), "❌ FFmpeg failed with code -1\n");
}

#[test]
fn output_after_the_end_is_still_appended() {
    let job = request(&["a.mp3"], "", "", "out.m4b");
    let mut log = StatusLog::new();
    job.advance(&mut log, RunEvent::Exited(Some(0)));
    job.advance(&mut log, RunEvent::Output("late line".to_string()));
    assert_eq!(log.snapshot(), "✅ FFmpeg finished successfully.\nlate line\n");
}

#[test]
fn every_event_keeps_what_the_log_held() {
    let job = request(&["a.mp3"], "t", "a", "out.m4b");
    let events = vec![
        RunEvent::ManifestWritten("/tmp/x".to_string()),
        RunEvent::ManifestFailed(BuildError::WriteFailed("w".to_string())),
        RunEvent::LaunchFailed("l".to_string()),
        RunEvent::Output("o".to_string()),
        RunEvent::Exited(Some(3)),
        RunEvent::Exited(None),
    ];
    let mut log = StatusLog::new();
    log.reset("before\n");
    for event in events {
        let before = log.snapshot();
        log.take_redraw();
        job.advance(&mut log, event);
        let after = log.snapshot();
        assert!(after.starts_with(&before));
        assert!(after.len() > before.len());
        assert!(after.ends_with('\n'));
        assert!(log.take_redraw());
    }
}
