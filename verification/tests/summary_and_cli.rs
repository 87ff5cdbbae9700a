use vllm_report::cli::{Cli, CliError};
use vllm_report::state::VllmState;
use vllm_report::summary::{build_summary_context, VLLM_CSS, VLLM_SUMMARY_TEMPLATE};
use vllm_report::types::{VllmCompilationConfig, VllmSubgraphInfo};

fn base_cli() -> Cli {
    Cli {
        path: "trace.log".to_owned(),
        latest: false,
        out: "tl_out".to_owned(),
        overwrite: false,
        strict: false,
        strict_compile_id: false,
        no_browser: false,
        custom_header_html: String::new(),
        verbose: false,
        plain_text: false,
        export: false,
        inductor_provenance: false,
        all_ranks_html: false,
        serve: false,
        port: None,
    }
}

#[test]
fn latest_and_all_ranks_do_not_mix() {
    let mut cli = base_cli();
    assert!(cli.validate().is_ok());
    cli.latest = true;
    cli.all_ranks_html = true;
    assert_eq!(cli.validate(), Err(CliError::LatestWithAllRanks));
    cli.latest = false;
    assert!(cli.validate().is_ok());
}

#[test]
fn serving_implies_no_browser() {
    let mut cli = base_cli();
    assert!(cli.open_browser());
    cli.serve = true;
    assert!(!cli.open_browser());
    cli.serve = false;
    cli.no_browser = true;
    assert!(!cli.open_browser());
}

#[test]
fn run_config_mirrors_flags() {
    let mut cli = base_cli();
    cli.strict = true;
    cli.custom_header_html = "<b>x</b>".to_owned();
    cli.plain_text = true;
    let rc = cli.run_config();
    assert!(rc.strict);
    assert!(!rc.strict_compile_id);
    assert_eq!(rc.custom_header_html, "<b>x</b>");
    assert!(rc.plain_text);
    assert!(!rc.export);
}

#[test]
fn summary_context_gates_missing_sections() {
    let state = VllmState::new();
    let ctx = build_summary_context(&state, "", "qps");
    assert!(!ctx.has_config);
    assert!(ctx.config.model.is_none());
    assert!(!ctx.has_dynamo_artifacts);
    assert!(ctx.dynamo_artifacts.is_empty());
    assert!(!ctx.has_piecewise);
    assert!(ctx.piecewise_graph_file.is_none());
    assert!(ctx.compile_range_groups.is_empty());
    assert_eq!(ctx.css, VLLM_CSS);
    assert_eq!(ctx.qps, "qps");
}

#[test]
fn summary_context_reflects_the_run() {
    let mut state = VllmState::new();
    let mut c = VllmCompilationConfig::empty();
    c.backend = Some("inductor".to_owned());
    state.set_config(c);
    state.add_artifact("unknown_1/dynamo_output_graph_0.txt", String::new());
    state.add_artifact("unknown_2/vllm_piecewise_split_graph.txt", String::new());
    state.push_subgraph(VllmSubgraphInfo {
        index: 0,
        submod_name: None,
        compile_range_start: 8,
        compile_range_end: 8,
        is_single_size: true,
        is_cudagraph_size: false,
        artifacts: Vec::new(),
    });

    let ctx = build_summary_context(&state, "<hr>", "");
    assert!(ctx.has_config);
    assert_eq!(ctx.config.backend.as_deref(), Some("inductor"));
    assert!(ctx.has_dynamo_artifacts);
    assert_eq!(ctx.dynamo_artifacts.len(), 1);
    assert!(ctx.has_piecewise);
    assert_eq!(ctx.piecewise_graph_file.as_deref(), Some("unknown_2/vllm_piecewise_split_graph.txt"));
    assert_eq!(ctx.compile_range_groups.len(), 1);
    assert_eq!(ctx.compile_range_groups[0].size_or_range, "size 8");
    assert_eq!(ctx.custom_header_html, "<hr>");
}

#[test]
fn template_shows_each_gated_section() {
    assert!(VLLM_SUMMARY_TEMPLATE.contains("{{ if has_config }}"));
    assert!(VLLM_SUMMARY_TEMPLATE.contains("{{ if has_dynamo_artifacts }}"));
    assert!(VLLM_SUMMARY_TEMPLATE.contains("{{ if has_piecewise }}"));
    assert!(VLLM_SUMMARY_TEMPLATE.contains("{{ for group in compile_range_groups }}"));
    assert!(!VLLM_CSS.is_empty());
}
