//! A whole-engine scenario: ten tasks under a concurrency limit of
//! three, against a controllable in-test server and filesystem model,
//! with interrupted transfers resumed by byte range.

use std::collections::HashMap;

use bowerbird_downloader::engine::{Action, Execution};
use bowerbird_downloader::scheduler::Downloader;
use bowerbird_downloader::task::{Task, TaskHooks, TaskOptions, TaskStatus};

struct Runtime {
    exec: Execution,
    pending_action: Action,
    interrupted_once: bool,
}

fn final_path(exec: &Execution) -> Vec<u8> {
    exec.task.options.path.clone().expect("resolved")
}

fn temp_path(exec: &Execution) -> Vec<u8> {
    let mut p = final_path(exec);
    p.extend_from_slice(b".part");
    p
}

#[test]
fn ten_tasks_concurrency_three_all_complete_without_temp_leftovers() {
    let mut server: HashMap<Vec<u8>, Vec<u8>> = HashMap::new();
    let mut files: HashMap<Vec<u8>, Vec<u8>> = HashMap::new();
    let mut batch = Vec::new();
    for i in 0..10u8 {
        let url = format!("http://h/f{}", i).into_bytes();
        let body: Vec<u8> = (0..(100 + i as usize)).map(|j| (j as u8) ^ i).collect();
        server.insert(url.clone(), body);
        let options = TaskOptions {
            path: Some(format!("/out/f{}.bin", i).into_bytes()),
            dir: None,
            skip_exists: false,
            retries: 5,
        };
        batch.push(Task::new(url, options, TaskHooks::default()));
    }

    let mut d = Downloader::new(3);
    let started = d.send(batch).expect("not shut down");
    assert_eq!(started.len(), 3);
    assert!(d.running.len() <= 3);

    let mut active: Vec<Runtime> = Vec::new();
    for t in started {
        let (exec, action) = Execution::start(t);
        active.push(Runtime { exec, pending_action: action, interrupted_once: false });
    }

    let mut now: u64 = 0;
    let mut step: usize = 0;
    while !active.is_empty() {
        assert!(d.running.len() <= 3, "running partition exceeded the limit");
        let idx = step % active.len();
        step += 1;
        let rt = &mut active[idx];
        let action = std::mem::replace(&mut rt.pending_action, Action::Probe);
        match action {
            Action::OpenTemp { path } => {
                let len = files.entry(path).or_insert_with(Vec::new).len() as u64;
                rt.pending_action = rt.exec.on_temp_opened(len);
            },
            Action::Transfer { from } => {
                let url = rt.exec.task.url.clone();
                let body = server.get(&url).expect("known url").clone();
                let offset = from.unwrap_or(0) as usize;
                assert_eq!(offset, files.get(&temp_path(&rt.exec)).map_or(0, |f| f.len()));
                let rest = &body[offset..];
                // Interrupt every third task once, halfway through what
                // is left, to exercise ranged resumption.
                if rt.exec.task.id() % 3 == 0 && !rt.interrupted_once {
                    rt.interrupted_once = true;
                    let half = rest.len() / 2;
                    files
                        .entry(temp_path(&rt.exec))
                        .or_insert_with(Vec::new)
                        .extend_from_slice(&rest[..half]);
                    rt.pending_action = rt.exec.on_transfer_transport(half as u64, now);
                } else {
                    files
                        .entry(temp_path(&rt.exec))
                        .or_insert_with(Vec::new)
                        .extend_from_slice(rest);
                    rt.pending_action = rt.exec.on_transfer_complete(rest.len() as u64);
                }
            },
            Action::Backoff { seconds } => {
                now += seconds;
                rt.pending_action = rt.exec.on_backoff_elapsed();
            },
            Action::Commit { temp, path } => {
                let data = files.remove(&temp).expect("temp artifact present");
                files.insert(path, data);
                rt.pending_action = rt.exec.on_committed();
            },
            Action::Finish => {
                let rt = active.remove(idx);
                assert!(matches!(rt.exec.task.status, TaskStatus::Success));
                let out = d.finish(rt.exec.task);
                assert!(d.running.len() <= 3);
                if let Some(t) = out.started {
                    let (exec, action) = Execution::start(t);
                    active.push(Runtime { exec, pending_action: action, interrupted_once: false });
                }
            },
            Action::CheckExists { .. } | Action::Probe => {
                panic!("explicit non-skipping tasks neither probe nor check");
            },
        }
    }

    assert!(d.wait(), "drain must be ready once all tasks are terminal");
    assert_eq!(d.finished.len(), 10);
    for t in &d.finished {
        assert!(matches!(t.status, TaskStatus::Success));
    }
    for name in files.keys() {
        assert!(!name.ends_with(b".part"), "no temp artifact may remain");
    }
    for i in 0..10u8 {
        let url = format!("http://h/f{}", i).into_bytes();
        let path = format!("/out/f{}.bin", i).into_bytes();
        assert_eq!(
            files.get(&path).expect("artifact present"),
            server.get(&url).expect("source present"),
            "artifact must be byte-identical to the source"
        );
    }
}
