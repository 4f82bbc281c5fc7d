use xivloader::process::{
    launcher_next, start_launch, LaunchFailure, LaunchMode, LauncherState, ProcessAction, ProcessEvent,
};

/// A stand-in for the operating system that counts closed handles.
struct FakeOs {
    create: Result<u32, String>,
    resume_ok: bool,
    thread_closes: u32,
    process_closes: u32,
    resumes: u32,
}

impl FakeOs {
    fn run(&mut self, mode: LaunchMode) -> Result<u32, LaunchFailure> {
        let mut state: LauncherState = start_launch(mode);
        let mut event = match &self.create {
            Ok(pid) => ProcessEvent::Created { pid: *pid },
            Err(m) => ProcessEvent::CreateFailed(m.clone()),
        };
        loop {
            let (next, action) = launcher_next(state, event);
            state = next;
            event = match action {
                ProcessAction::Resume => {
                    self.resumes += 1;
                    if self.resume_ok {
                        ProcessEvent::Resumed
                    } else {
                        ProcessEvent::ResumeFailed("access denied".to_string())
                    }
                }
                ProcessAction::CloseThread => {
                    self.thread_closes += 1;
                    ProcessEvent::HandleClosed
                }
                ProcessAction::CloseProcess => {
                    self.process_closes += 1;
                    ProcessEvent::HandleClosed
                }
                ProcessAction::Finish(r) => return r,
                ProcessAction::Ignore => panic!("event ignored"),
            };
        }
    }
}

fn fake(create: Result<u32, String>, resume_ok: bool) -> FakeOs {
    FakeOs { create, resume_ok, thread_closes: 0, process_closes: 0, resumes: 0 }
}

#[test]
fn direct_launch_resumes_and_closes_both_handles() {
    let mut os = fake(Ok(4242), true);
    let r = os.run(LaunchMode::Direct);
    assert!(matches!(r, Ok(4242)));
    assert_eq!((os.resumes, os.thread_closes, os.process_closes), (1, 1, 1));
}

#[test]
fn resume_failure_still_closes_both_handles() {
    let mut os = fake(Ok(7), false);
    match os.run(LaunchMode::Direct) {
        Err(e) => assert_eq!(e.message(), "Failed to resume process: access denied"),
        Ok(_) => panic!("expected a failure"),
    }
    assert_eq!((os.thread_closes, os.process_closes), (1, 1));
}

#[test]
fn creation_failure_closes_nothing() {
    let mut os = fake(Err("file not found".to_string()), true);
    match os.run(LaunchMode::Direct) {
        Err(e) => assert_eq!(e.message(), "Failed to create process: file not found"),
        Ok(_) => panic!("expected a failure"),
    }
    assert_eq!((os.resumes, os.thread_closes, os.process_closes), (0, 0, 0));
}

#[test]
fn zero_process_id_is_a_failure_with_handles_closed() {
    let mut os = fake(Ok(0), true);
    assert!(matches!(os.run(LaunchMode::Direct), Err(LaunchFailure::NoProcessId)));
    assert_eq!((os.resumes, os.thread_closes, os.process_closes), (0, 1, 1));
}

#[test]
fn attach_mode_leaves_process_suspended() {
    let mut os = fake(Ok(99), true);
    assert!(matches!(os.run(LaunchMode::Attach), Ok(99)));
    assert_eq!((os.resumes, os.thread_closes, os.process_closes), (0, 1, 1));
}

#[test]
fn stray_events_are_ignored() {
    let (state, action) = launcher_next(LauncherState::Finished { created: true }, ProcessEvent::HandleClosed);
    assert!(matches!(action, ProcessAction::Ignore));
    assert!(matches!(state, LauncherState::Finished { created: true }));
}
