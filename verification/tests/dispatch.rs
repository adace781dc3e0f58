use std::sync::mpsc::channel;
use std::sync::mpsc::Sender;

use ezcfg::checker::PathFacts;
use ezcfg::config::Config;
use ezcfg::linker::link_all;
use ezcfg::linker::link_all_with_config;
use ezcfg::linker::link_all_with_filter;
use ezcfg::thread_pool::ThreadPool;

type Report = Sender<(String, String, bool)>;

fn fresh_facts() -> PathFacts {
    PathFacts {
        source_exists: true,
        target_exists: false,
        target_is_file: false,
        target_is_symlink: false,
        target_is_dir: false,
    }
}

fn report_started(_token: &Report, _source: &str, _target: &str, _idx: usize, _len: usize) {}

fn report_success(token: Report, source: &str, target: &str, _idx: usize, _len: usize) {
    token.send((source.to_string(), target.to_string(), true)).unwrap();
}

fn report_failure(
    token: Report,
    source: &str,
    target: &str,
    _idx: usize,
    _len: usize,
    _err: String,
) {
    token.send((source.to_string(), target.to_string(), false)).unwrap();
}

fn link_ok(_source: &str, _target: &str) -> Result<(), String> {
    Ok(())
}

#[test]
fn smoke() {
    let config = Config {
        links: vec![
            ("a.txt".to_string(), "a.txt".to_string()),
            ("b.txt".to_string(), "b.txt".to_string()),
            ("c.txt".to_string(), "c.txt".to_string()),
            ("d.txt".to_string(), "d.txt".to_string()),
            ("anywhere/a.txt".to_string(), "e.txt".to_string()),
            ("anywhere/b.txt".to_string(), "f.txt".to_string()),
            ("anywhere/c.txt".to_string(), "g.txt".to_string()),
            ("anywhere/d.txt".to_string(), "h.txt".to_string()),
            ("anywhere/e.txt".to_string(), "i.txt".to_string()),
            ("anywhere/f.txt".to_string(), "j.txt".to_string()),
        ],
        rewrite: false,
    };
    let pool = ThreadPool::new(4);
    let (tx, _rx) = channel::<(String, String, bool)>();
    link_all_with_config(
        &config,
        &pool,
        |_source: &str, _target: &str| fresh_facts(),
        |_target: &str| {},
        |_target: &str| {},
        link_ok,
        move |_s: &str, _t: &str, _i: usize, _l: usize| tx.clone(),
        report_started,
        report_success,
        report_failure,
    );
}

#[test]
fn end_to_end_dispatch_links_every_pair() {
    let links = vec![
        ("a.txt".to_string(), "a.txt".to_string()),
        ("b.txt".to_string(), "b.txt".to_string()),
    ];
    let pool = ThreadPool::new(4);
    let (tx, rx) = channel::<(String, String, bool)>();
    link_all(
        &pool,
        &links,
        link_ok,
        move |_s: &str, _t: &str, _i: usize, _l: usize| tx.clone(),
        report_started,
        report_success,
        report_failure,
    );
    // The dispatch has returned, so both outcomes are already reported.
    let mut seen: Vec<(String, String, bool)> = rx.try_iter().collect();
    seen.sort();
    assert_eq!(
        seen,
        vec![
            ("a.txt".to_string(), "a.txt".to_string(), true),
            ("b.txt".to_string(), "b.txt".to_string(), true),
        ]
    );
}

#[test]
fn a_failing_link_stays_local_to_its_pair() {
    let links = vec![
        ("good".to_string(), "t1".to_string()),
        ("bad".to_string(), "t2".to_string()),
        ("good".to_string(), "t3".to_string()),
    ];
    let pool = ThreadPool::new(2);
    let (tx, rx) = channel::<(String, String, bool)>();
    link_all(
        &pool,
        &links,
        |source: &str, _target: &str| -> Result<(), String> {
            if source == "bad" {
                Err("refused".to_string())
            } else {
                Ok(())
            }
        },
        move |_s: &str, _t: &str, _i: usize, _l: usize| tx.clone(),
        report_started,
        report_success,
        report_failure,
    );
    let mut seen: Vec<(String, String, bool)> = rx.try_iter().collect();
    seen.sort();
    assert_eq!(
        seen,
        vec![
            ("bad".to_string(), "t2".to_string(), false),
            ("good".to_string(), "t1".to_string(), true),
            ("good".to_string(), "t3".to_string(), true),
        ]
    );
    assert_eq!(pool.panicing_count(), 0);
}

#[test]
fn a_rejected_pair_is_skipped_entirely() {
    let links = vec![
        ("keep".to_string(), "t1".to_string()),
        ("drop".to_string(), "t2".to_string()),
    ];
    let pool = ThreadPool::new(2);
    let (tx, rx) = channel::<(String, String, bool)>();
    link_all_with_filter(
        &pool,
        &links,
        |source: &str, _target: &str, _idx: usize, _len: usize| source != "drop",
        link_ok,
        move |_s: &str, _t: &str, _i: usize, _l: usize| tx.clone(),
        report_started,
        report_success,
        report_failure,
    );
    let seen: Vec<(String, String, bool)> = rx.try_iter().collect();
    assert_eq!(seen, vec![("keep".to_string(), "t1".to_string(), true)]);
}

#[test]
fn rejected_sources_submit_no_job() {
    let config = Config {
        links: vec![("missing".to_string(), "t".to_string())],
        rewrite: false,
    };
    let pool = ThreadPool::new(2);
    let (tx, rx) = channel::<(String, String, bool)>();
    let mut absent = fresh_facts();
    absent.source_exists = false;
    link_all_with_config(
        &config,
        &pool,
        move |_source: &str, _target: &str| absent,
        |_target: &str| {},
        |_target: &str| {},
        link_ok,
        move |_s: &str, _t: &str, _i: usize, _l: usize| tx.clone(),
        report_started,
        report_success,
        report_failure,
    );
    assert_eq!(rx.try_iter().count(), 0);
    assert_eq!(pool.pending_count(), 0);
}
