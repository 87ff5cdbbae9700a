use vllm_report::ranks::{
    advance, begin_processing, build_multi_rank_context, current_job, discover_rank_logs,
    processing_order, rank_of_filename, rank_subdir, should_emit_landing, sorted_ranks,
    DiscoveryError, RankLog, RunPhase,
};

fn listing(names: &[&str]) -> Vec<String> {
    names.iter().map(|n| (*n).to_owned()).collect()
}

#[test]
fn discovery_filters_and_sorts() {
    let names = listing(&[
        "dedicated_log_torch_trace_rank_3_abcdef.log",
        "dedicated_log_torch_trace_rank_1_xyz.log",
        "notes.txt",
    ]);
    let logs = discover_rank_logs(&names).expect("two rank logs qualify");
    assert_eq!(logs.len(), 2);
    assert_eq!(logs[0], RankLog { file_index: 0, rank: 3 });
    assert_eq!(logs[1], RankLog { file_index: 1, rank: 1 });
    let sorted = sorted_ranks(&logs);
    assert_eq!(sorted, vec![1, 3]);
}

#[test]
fn discovery_of_nothing_is_an_error() {
    let names = listing(&["notes.txt", "dedicated_log_torch_trace_rank_x.log"]);
    assert_eq!(discover_rank_logs(&names), Err(DiscoveryError::NoRankLogFiles));
}

#[test]
fn rank_token_must_be_an_integer() {
    assert_eq!(rank_of_filename("dedicated_log_torch_trace_rank_12_host.log"), Some(12));
    assert_eq!(rank_of_filename("dedicated_log_torch_trace_rank_0.log"), Some(0));
    assert_eq!(rank_of_filename("dedicated_log_torch_trace_rank_+7_x.log"), Some(7));
    assert_eq!(rank_of_filename("dedicated_log_torch_trace_rank__5.log"), None);
    assert_eq!(rank_of_filename("dedicated_log_torch_trace_rank_ab.log"), None);
    assert_eq!(rank_of_filename("dedicated_log_torch_trace_rank_5.txt"), None);
    assert_eq!(rank_of_filename("dedicated_log_torch_trace_rank_99999999999_x.log"), None);
    assert_eq!(rank_of_filename("other_rank_5_x.log"), None);
}

#[test]
fn duplicate_ranks_are_kept() {
    let names = listing(&[
        "dedicated_log_torch_trace_rank_2_a.log",
        "dedicated_log_torch_trace_rank_2_b.log",
    ]);
    let logs = discover_rank_logs(&names).expect("both files qualify");
    assert_eq!(logs.len(), 2);
    let sorted = sorted_ranks(&logs);
    assert_eq!(sorted, vec![2, 2]);
}

#[test]
fn rank_subdir_is_deterministic() {
    assert_eq!(rank_subdir(0), "rank_0");
    assert_eq!(rank_subdir(17), "rank_17");
}

#[test]
fn landing_context_uses_sorted_labels() {
    let header = "<p>hi</p>".to_owned();
    let ctx = build_multi_rank_context(&vec![1, 3], &header);
    assert_eq!(ctx.ranks, vec!["1".to_owned(), "3".to_owned()]);
    assert_eq!(ctx.num_ranks, 2);
    assert_eq!(ctx.custom_header_html, "<p>hi</p>");
    assert_eq!(ctx.css, "");
    assert_eq!(ctx.qps, "");
    assert!(!ctx.has_chromium_events);
    assert!(!ctx.show_desync_warning);
    assert!(!ctx.compile_id_divergence);
}

#[test]
fn ranks_process_in_ascending_order() {
    // Discovery order is whatever the directory yields; processing
    // order is ascending by rank, stably for equal ranks.
    let discovered = vec![
        RankLog { file_index: 0, rank: 5 },
        RankLog { file_index: 1, rank: 1 },
        RankLog { file_index: 2, rank: 5 },
        RankLog { file_index: 3, rank: 0 },
    ];
    let jobs = processing_order(&discovered);
    assert_eq!(
        jobs,
        vec![
            RankLog { file_index: 3, rank: 0 },
            RankLog { file_index: 1, rank: 1 },
            RankLog { file_index: 0, rank: 5 },
            RankLog { file_index: 2, rank: 5 },
        ]
    );
}

#[test]
fn failed_rank_aborts_before_landing() {
    let discovered = vec![
        RankLog { file_index: 2, rank: 2 },
        RankLog { file_index: 0, rank: 0 },
        RankLog { file_index: 1, rank: 1 },
    ];
    let jobs = processing_order(&discovered);
    let mut phase = begin_processing(&jobs);
    let mut processed: Vec<u32> = Vec::new();

    // Ranks 0 and 1 succeed and leave their output behind; rank 2 fails.
    for ok in [true, true, false] {
        let job = current_job(&jobs, &phase).expect("a job is owed");
        if ok {
            processed.push(job.rank);
        }
        phase = advance(&jobs, phase, ok);
    }

    assert_eq!(processed, vec![0, 1]);
    assert_eq!(phase, RunPhase::Failed { at: 2 });
    assert!(!should_emit_landing(&phase));
    assert!(current_job(&jobs, &phase).is_none());
}

#[test]
fn all_ranks_ok_completes_and_lands() {
    let jobs = vec![RankLog { file_index: 0, rank: 0 }, RankLog { file_index: 1, rank: 1 }];
    let mut phase = begin_processing(&jobs);
    while let Some(_job) = current_job(&jobs, &phase) {
        phase = advance(&jobs, phase, true);
    }
    assert_eq!(phase, RunPhase::Complete);
    assert!(should_emit_landing(&phase));
}
