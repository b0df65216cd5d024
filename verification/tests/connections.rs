use heracles::dashboard::{find_graph, Dashboard, Graph, GraphSpan, LookupError, SubPlot};
use heracles::duration::TimeDelta;
use heracles::instant::UtcInstant;
use heracles::query::{PlotMeta, QueryConn, QueryType, ResolvedSpan};

fn span(end: &str, duration: &str, step: &str) -> Option<GraphSpan> {
    Some(GraphSpan {
        end: end.to_string(),
        duration: duration.to_string(),
        step_duration: step.to_string(),
    })
}

fn seconds(secs: i64) -> TimeDelta {
    TimeDelta { secs, nanos: 0 }
}

fn meta(label: &str) -> PlotMeta {
    PlotMeta {
        name_prefix: None,
        name_suffix: Some(" load".to_string()),
        name_label: Some(label.to_string()),
    }
}

fn plot(source: &str, query: &str, label: &str) -> SubPlot {
    SubPlot { source: source.to_string(), query: query.to_string(), meta: meta(label) }
}

fn two_plot_graph(own: Option<GraphSpan>) -> Graph {
    Graph {
        title: "Node cpu".to_string(),
        plots: vec![
            plot("http://heimdall:9001", "sum(node_cpu_seconds_total)", "instance"),
            plot("http://heimdall:9002", "node_load1", "job"),
        ],
        span: own,
        query_type: QueryType::Range,
        d3_tick_format: Some("~s".to_string()),
    }
}

fn clock() -> i64 {
    chrono::Utc::now().timestamp()
}

#[test]
fn a_new_connection_has_no_window() {
    let conn = QueryConn::new("http://heimdall:9001", "up", QueryType::Scalar, meta("job"));
    assert_eq!(conn.source, "http://heimdall:9001");
    assert_eq!(conn.query, "up");
    assert_eq!(conn.query_type, QueryType::Scalar);
    assert_eq!(conn.meta, meta("job"));
    assert_eq!(conn.span, None);
}

#[test]
fn with_span_sets_the_window_and_nothing_else() {
    let end = UtcInstant { secs: 1_704_067_200, nanos: 5 };
    let conn = QueryConn::new("http://heimdall:9001", "up", QueryType::Range, meta("job"))
        .with_span(end, seconds(3_600), seconds(60));
    assert_eq!(conn.span, Some(ResolvedSpan { end, duration: seconds(3_600), step: seconds(60) }));
    assert_eq!(conn.source, "http://heimdall:9001");
    assert_eq!(conn.query, "up");
    assert_eq!(conn.query_type, QueryType::Range);
    assert_eq!(conn.meta, meta("job"));
}

#[test]
fn with_span_replaces_an_earlier_window() {
    let first = UtcInstant { secs: 1, nanos: 0 };
    let second = UtcInstant { secs: 2, nanos: 0 };
    let conn = QueryConn::new("s", "q", QueryType::Range, meta("job"))
        .with_span(first, seconds(10), seconds(1))
        .with_span(second, seconds(20), seconds(2));
    assert_eq!(
        conn.span,
        Some(ResolvedSpan { end: second, duration: seconds(20), step: seconds(2) })
    );
}

#[test]
fn metadata_is_copied_unchanged() {
    let hints = PlotMeta {
        name_prefix: Some("cpu ".to_string()),
        name_suffix: None,
        name_label: Some("instance".to_string()),
    };
    assert_eq!(hints.clone(), hints);
    let bare = PlotMeta { name_prefix: None, name_suffix: None, name_label: None };
    assert_eq!(bare.clone(), bare);
}

#[test]
fn two_plots_without_any_span_give_two_bare_connections() {
    let dashboard =
        Dashboard { title: "Test".to_string(), graphs: vec![two_plot_graph(None)], span: None };
    let graph = &dashboard.graphs[0];
    let conns = graph.get_query_connections(&dashboard.span, &None);
    assert_eq!(conns.len(), 2);
    assert_eq!(conns[0].source, "http://heimdall:9001");
    assert_eq!(conns[0].query, "sum(node_cpu_seconds_total)");
    assert_eq!(conns[0].meta, meta("instance"));
    assert_eq!(conns[0].query_type, QueryType::Range);
    assert_eq!(conns[0].span, None);
    assert_eq!(conns[1].source, "http://heimdall:9002");
    assert_eq!(conns[1].query, "node_load1");
    assert_eq!(conns[1].meta, meta("job"));
    assert_eq!(conns[1].query_type, QueryType::Range);
    assert_eq!(conns[1].span, None);
}

#[test]
fn a_graph_span_that_ends_now_reaches_both_plots() {
    let graph = two_plot_graph(span("now", "1h", "1m"));

    let now = UtcInstant { secs: 1_700_000_000, nanos: 17 };
    let window = Some(ResolvedSpan { end: now, duration: seconds(3_600), step: seconds(60) });
    let conns = graph.query_connections_at(&None, &None, now);
    assert_eq!(conns.len(), 2);
    assert_eq!(conns[0].span, window);
    assert_eq!(conns[1].span, window);

    let before = clock();
    let conns = graph.get_query_connections(&None, &None);
    let after = clock();
    assert_eq!(conns.len(), 2);
    let first = conns[0].span.expect("the graph's span is usable");
    assert!(before <= first.end.secs && first.end.secs <= after);
    assert_eq!(first.duration, seconds(3_600));
    assert_eq!(first.step, seconds(60));
    assert_eq!(conns[1].span, Some(first));
    assert_eq!(conns[0].query, "sum(node_cpu_seconds_total)");
    assert_eq!(conns[1].query, "node_load1");
}

#[test]
fn the_builder_attaches_the_given_window_to_every_plot() {
    let graph = two_plot_graph(span("now", "1h", "1m"));
    let end = UtcInstant { secs: 1_704_067_200, nanos: 0 };
    let conns = graph.connections_with(Some((end, seconds(300), seconds(15))));
    let window = Some(ResolvedSpan { end, duration: seconds(300), step: seconds(15) });
    assert_eq!(conns.len(), 2);
    assert_eq!(conns[0].span, window);
    assert_eq!(conns[1].span, window);
    assert_eq!(conns[0].source, "http://heimdall:9001");
    assert_eq!(conns[1].source, "http://heimdall:9002");
    assert_eq!(conns[0].meta, meta("instance"));
    assert_eq!(conns[1].meta, meta("job"));
}

#[test]
fn the_builder_attaches_nothing_without_a_window() {
    let graph = two_plot_graph(span("now", "1h", "1m"));
    let conns = graph.connections_with(None);
    assert_eq!(conns.len(), 2);
    assert_eq!(conns[0].span, None);
    assert_eq!(conns[1].span, None);
}

#[test]
fn a_graph_without_plots_gives_no_connections() {
    let graph = Graph {
        title: "Empty".to_string(),
        plots: vec![],
        span: span("now", "1h", "1m"),
        query_type: QueryType::Scalar,
        d3_tick_format: None,
    };
    assert_eq!(graph.get_query_connections(&None, &None).len(), 0);
    assert_eq!(graph.connections_with(None).len(), 0);
}

#[test]
fn connections_keep_the_order_of_many_plots() {
    let plots: Vec<SubPlot> =
        (0..25).map(|i| plot(&format!("source-{i}"), &format!("query-{i}"), "job")).collect();
    let graph = Graph {
        title: "Many".to_string(),
        plots,
        span: None,
        query_type: QueryType::Scalar,
        d3_tick_format: None,
    };
    let conns = graph.get_query_connections(&None, &None);
    assert_eq!(conns.len(), 25);
    for (i, conn) in conns.iter().enumerate() {
        assert_eq!(conn.source, format!("source-{i}"));
        assert_eq!(conn.query, format!("query-{i}"));
        assert_eq!(conn.query_type, QueryType::Scalar);
        assert_eq!(conn.span, None);
    }
}

#[test]
fn the_request_span_overrides_the_graph_span() {
    let graph = two_plot_graph(span("now", "1h", "1m"));
    let request = span("2024-01-01T00:00:00Z", "5m", "15s");
    let dashboard = span("now", "1d", "10min");
    let window = Some(ResolvedSpan {
        end: UtcInstant { secs: 1_704_067_200, nanos: 0 },
        duration: seconds(300),
        step: seconds(15),
    });
    let conns = graph.get_query_connections(&dashboard, &request);
    assert_eq!(conns[0].span, window);
    assert_eq!(conns[1].span, window);
}

#[test]
fn an_invalid_request_span_leaves_the_graph_span_in_force() {
    let graph = two_plot_graph(span("2024-01-01T00:00:00Z", "1h", "1m"));
    let request = span("2024-01-01T00:00:00Z", "not-a-duration", "1m");
    let dashboard = span("now", "1d", "10min");
    let window = Some(ResolvedSpan {
        end: UtcInstant { secs: 1_704_067_200, nanos: 0 },
        duration: seconds(3_600),
        step: seconds(60),
    });
    let conns = graph.get_query_connections(&dashboard, &request);
    assert_eq!(conns[0].span, window);
    assert_eq!(conns[1].span, window);
}

#[test]
fn the_dashboard_span_serves_a_graph_without_one() {
    let graph = two_plot_graph(None);
    let dashboard = span("2024-01-01T00:00:00Z", "1d", "10min");
    let window = Some(ResolvedSpan {
        end: UtcInstant { secs: 1_704_067_200, nanos: 0 },
        duration: seconds(86_400),
        step: seconds(600),
    });
    let conns = graph.get_query_connections(&dashboard, &None);
    assert_eq!(conns[0].span, window);
    assert_eq!(conns[1].span, window);
    let at = UtcInstant { secs: 9, nanos: 9 };
    assert_eq!(graph.query_connections_at(&dashboard, &None, at), conns);
}

#[test]
fn spans_that_cannot_be_used_leave_the_connections_bare() {
    let graph = two_plot_graph(span("now", "1h", "soon"));
    let request = span("now", "", "1m");
    let dashboard = span("2024-01-01T00:00:00Z", "1e10000s", "1m");
    let conns = graph.get_query_connections(&dashboard, &request);
    assert_eq!(conns.len(), 2);
    assert_eq!(conns[0].span, None);
    assert_eq!(conns[1].span, None);
}

#[test]
fn a_graph_is_found_by_its_two_indices() {
    let mut second = two_plot_graph(None);
    second.title = "Second".to_string();
    let dashboards = vec![
        Dashboard { title: "One".to_string(), graphs: vec![], span: None },
        Dashboard {
            title: "Two".to_string(),
            graphs: vec![two_plot_graph(None), second],
            span: span("now", "1d", "10min"),
        },
    ];
    let (dashboard, graph) = find_graph(&dashboards, 1, 1).expect("both indices are in range");
    assert_eq!(dashboard.title, "Two");
    assert_eq!(graph.title, "Second");
    let (dashboard, graph) = find_graph(&dashboards, 1, 0).expect("both indices are in range");
    assert_eq!(dashboard, &dashboards[1]);
    assert_eq!(graph, &dashboards[1].graphs[0]);
}

#[test]
fn indices_out_of_range_find_nothing() {
    let dashboards = vec![
        Dashboard { title: "One".to_string(), graphs: vec![], span: None },
        Dashboard { title: "Two".to_string(), graphs: vec![two_plot_graph(None)], span: None },
    ];
    assert_eq!(find_graph(&dashboards, 2, 0), Err(LookupError::NoSuchDashboard));
    assert_eq!(find_graph(&dashboards, usize::MAX, usize::MAX), Err(LookupError::NoSuchDashboard));
    assert_eq!(find_graph(&dashboards, 0, 0), Err(LookupError::NoSuchGraph));
    assert_eq!(find_graph(&dashboards, 1, 1), Err(LookupError::NoSuchGraph));
    assert_eq!(find_graph(&Vec::new(), 0, 0), Err(LookupError::NoSuchDashboard));
}
