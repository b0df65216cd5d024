//! Dashboards, their graphs and plots, and the window of time that the
//! queries of a graph are given.
//!
//! A window is configured as three texts. Up to three such spans bear on one
//! graph: that of the request, that of the graph and that of the dashboard.
//! The first of them that can be used decides, in this order.

use vstd::prelude::*;
use crate::duration::{duration_from_string, duration_of, DurationError, TimeDelta};
use crate::instant::{
    end_at, end_from_string, resolve_end, span_end_of, utc_now, SpanEnd, UtcInstant,
};
use crate::query::{
    text_view, PlotMeta, PlotMetaView, QueryConn, QueryConnView, QueryType, ResolvedSpan,
};

verus! {

/// A window of time as it is configured: where it ends, as an RFC 3339
/// timestamp or the word `now`, how long it is, and how far apart its samples
/// lie, both as durations.
#[derive(Debug, PartialEq, Eq)]
pub struct GraphSpan {
    pub end: String,
    pub duration: String,
    pub step_duration: String,
}

/// A `GraphSpan` as plain values.
pub struct GraphSpanView {
    pub end: Seq<char>,
    pub duration: Seq<char>,
    pub step_duration: Seq<char>,
}

impl View for GraphSpan {
    type V = GraphSpanView;

    open spec fn view(&self) -> GraphSpanView {
        GraphSpanView {
            end: self.end@,
            duration: self.duration@,
            step_duration: self.step_duration@,
        }
    }
}

/// A span that may be absent, as plain values.
pub open spec fn span_view(span: Option<GraphSpan>) -> Option<GraphSpanView> {
    match span {
        Some(s) => Some(s@),
        None => None,
    }
}

/// One query of a graph.
#[derive(Debug, PartialEq, Eq)]
pub struct SubPlot {
    pub source: String,
    pub query: String,
    pub meta: PlotMeta,
}

/// A `SubPlot` as plain values.
pub struct SubPlotView {
    pub source: Seq<char>,
    pub query: Seq<char>,
    pub meta: PlotMetaView,
}

impl View for SubPlot {
    type V = SubPlotView;

    open spec fn view(&self) -> SubPlotView {
        SubPlotView { source: self.source@, query: self.query@, meta: self.meta@ }
    }
}

/// A graph: its plots in the order in which they are drawn, and the span
/// that it sets for them, if it sets one.
#[derive(Debug, PartialEq, Eq)]
pub struct Graph {
    pub title: String,
    pub plots: Vec<SubPlot>,
    pub span: Option<GraphSpan>,
    pub query_type: QueryType,
    pub d3_tick_format: Option<String>,
}

/// A `Graph` as plain values.
pub struct GraphView {
    pub title: Seq<char>,
    pub plots: Seq<SubPlotView>,
    pub span: Option<GraphSpanView>,
    pub query_type: QueryType,
    pub d3_tick_format: Option<Seq<char>>,
}

impl View for Graph {
    type V = GraphView;

    open spec fn view(&self) -> GraphView {
        GraphView {
            title: self.title@,
            plots: self.plots@.map_values(|plot: SubPlot| plot@),
            span: span_view(self.span),
            query_type: self.query_type,
            d3_tick_format: text_view(self.d3_tick_format),
        }
    }
}

/// A dashboard: its graphs in order, and the span for those graphs that set
/// none.
#[derive(Debug, PartialEq, Eq)]
pub struct Dashboard {
    pub title: String,
    pub graphs: Vec<Graph>,
    pub span: Option<GraphSpan>,
}

/// A `Dashboard` as plain values.
pub struct DashboardView {
    pub title: Seq<char>,
    pub graphs: Seq<GraphView>,
    pub span: Option<GraphSpanView>,
}

impl View for Dashboard {
    type V = DashboardView;

    open spec fn view(&self) -> DashboardView {
        DashboardView {
            title: self.title@,
            graphs: self.graphs@.map_values(|graph: Graph| graph@),
            span: span_view(self.span),
        }
    }
}

/// Why a pair of indices names no graph.
#[derive(Clone, Copy, Debug, PartialEq, Eq, Structural)]
pub enum LookupError {
    /// There is no dashboard at the first index.
    NoSuchDashboard,
    /// There is that dashboard, and it has no graph at the second index.
    NoSuchGraph,
}

/// A resolved window: its end, its length and its step.
pub type SpanTuple = (UtcInstant, TimeDelta, TimeDelta);

/// The window that the three parts of a span give when it is resolved at
/// `now`. Without a length or without a step there is none. An end that
/// could not be read is no hindrance: the window then ends at `now`.
pub open spec fn resolved_parts(
    duration: Result<TimeDelta, DurationError>,
    step: Result<TimeDelta, DurationError>,
    end: Option<SpanEnd>,
    now: UtcInstant,
) -> Option<SpanTuple> {
    match (duration, step) {
        (Ok(d), Ok(s)) => Some((end_at(end, now), d, s)),
        _ => None,
    }
}

/// Whether a span gives a window: it is there, and its length and its step
/// can be read.
pub open spec fn is_usable(span: Option<GraphSpanView>) -> bool {
    match span {
        Some(s) => duration_of(s.duration) is Ok && duration_of(s.step_duration) is Ok,
        None => false,
    }
}

/// The window that a span gives when it is resolved at `now`.
pub open spec fn resolved_span(span: Option<GraphSpanView>, now: UtcInstant) -> Option<SpanTuple> {
    match span {
        Some(s) => resolved_parts(
            duration_of(s.duration),
            duration_of(s.step_duration),
            span_end_of(s.end),
            now,
        ),
        None => None,
    }
}

/// The window for a graph when a request is handled at `now`: that of the
/// first span that gives one, the request's before the graph's before the
/// dashboard's.
pub open spec fn selected_span(
    request: Option<GraphSpanView>,
    graph: Option<GraphSpanView>,
    dashboard: Option<GraphSpanView>,
    now: UtcInstant,
) -> Option<SpanTuple> {
    if resolved_span(request, now) is Some {
        resolved_span(request, now)
    } else if resolved_span(graph, now) is Some {
        resolved_span(graph, now)
    } else {
        resolved_span(dashboard, now)
    }
}

/// The connection for one plot of a graph.
pub open spec fn connection_of(
    plot: SubPlotView,
    query_type: QueryType,
    span: Option<SpanTuple>,
) -> QueryConnView {
    QueryConnView {
        source: plot.source,
        query: plot.query,
        span: match span {
            Some((end, duration, step)) => Some(ResolvedSpan { end, duration, step }),
            None => None,
        },
        query_type,
        meta: plot.meta,
    }
}

/// The connections for a graph: one for each plot, in the order of the plots,
/// all with the same window.
pub open spec fn connections_of(graph: GraphView, span: Option<SpanTuple>) -> Seq<QueryConnView> {
    graph.plots.map_values(|plot: SubPlotView| connection_of(plot, graph.query_type, span))
}

/// A list of connections as plain values.
pub open spec fn connection_views<'conn>(conns: Seq<QueryConn<'conn>>) -> Seq<QueryConnView> {
    conns.map_values(|conn: QueryConn<'conn>| conn@)
}

/// The graph at index `graph_idx` of the dashboard at index `dash_idx`,
/// with that dashboard, or which of the two is not there.
pub open spec fn found_graph(dashboards: Seq<Dashboard>, dash_idx: int, graph_idx: int) -> Result<
    (Dashboard, Graph),
    LookupError,
> {
    if !(0 <= dash_idx < dashboards.len()) {
        Err(LookupError::NoSuchDashboard)
    } else if !(0 <= graph_idx < dashboards[dash_idx].graphs.len()) {
        Err(LookupError::NoSuchGraph)
    } else {
        Ok((dashboards[dash_idx], dashboards[dash_idx].graphs[graph_idx]))
    }
}

/// Puts the parts of a span together, once each has been read.
pub fn span_from_parts(
    duration: Result<TimeDelta, DurationError>,
    step: Result<TimeDelta, DurationError>,
    end: Option<SpanEnd>,
    now: UtcInstant,
) -> (r: Option<SpanTuple>)
    ensures
        r == resolved_parts(duration, step, end, now),
{
    match (duration, step) {
        (Ok(d), Ok(s)) => Some((resolve_end(end, now), d, s)),
        _ => None,
    }
}

/// Resolves a span at the point in time `now`.
pub fn resolve_span_at(span: &Option<GraphSpan>, now: UtcInstant) -> (r: Option<SpanTuple>)
    ensures
        r == resolved_span(span_view(*span), now),
        r is Some <==> is_usable(span_view(*span)),
{
    match span {
        None => None,
        Some(s) => {
            let duration = duration_from_string(s.duration.as_str());
            if duration.is_err() {
                return None;
            }
            let step = duration_from_string(s.step_duration.as_str());
            if step.is_err() {
                return None;
            }
            span_from_parts(duration, step, end_from_string(s.end.as_str()), now)
        },
    }
}

/// Resolves a span at the moment of the call.
pub fn graph_span_to_tuple(span: &Option<GraphSpan>) -> (r: Option<SpanTuple>)
    ensures
        r is Some <==> is_usable(span_view(*span)),
        exists|now: UtcInstant| r == #[trigger] resolved_span(span_view(*span), now),
{
    let now = utc_now();
    resolve_span_at(span, now)
}

/// Picks the window for a graph when a request is handled at `now`.
pub fn select_span(
    query_span: &Option<GraphSpan>,
    own_span: &Option<GraphSpan>,
    graph_span: &Option<GraphSpan>,
    now: UtcInstant,
) -> (r: Option<SpanTuple>)
    ensures
        r == selected_span(
            span_view(*query_span),
            span_view(*own_span),
            span_view(*graph_span),
            now,
        ),
{
    let requested = resolve_span_at(query_span, now);
    if requested.is_some() {
        return requested;
    }
    let own = resolve_span_at(own_span, now);
    if own.is_some() {
        return own;
    }
    resolve_span_at(graph_span, now)
}

/// Finds graph number `graph_idx` of dashboard number `dash_idx`, and hands
/// out that dashboard with it.
pub fn find_graph(dashboards: &Vec<Dashboard>, dash_idx: usize, graph_idx: usize) -> (r: Result<
    (&Dashboard, &Graph),
    LookupError,
>)
    ensures
        match r {
            Ok((dashboard, graph)) => found_graph(dashboards@, dash_idx as int, graph_idx as int)
                == Ok::<(Dashboard, Graph), LookupError>((*dashboard, *graph)),
            Err(e) => found_graph(dashboards@, dash_idx as int, graph_idx as int) == Err::<
                (Dashboard, Graph),
                LookupError,
            >(e),
        },
{
    if dash_idx >= dashboards.len() {
        return Err(LookupError::NoSuchDashboard);
    }
    let dashboard = &dashboards[dash_idx];
    if graph_idx >= dashboard.graphs.len() {
        return Err(LookupError::NoSuchGraph);
    }
    Ok((dashboard, &dashboard.graphs[graph_idx]))
}

impl Graph {
    /// Builds the connections for the plots of this graph, all with the
    /// window `span`, or all without one.
    pub fn connections_with<'conn, 'graph: 'conn>(&'graph self, span: Option<SpanTuple>) -> (conns:
        Vec<QueryConn<'conn>>)
        ensures
            connection_views(conns@) == connections_of(self@, span),
            conns.len() == self.plots.len(),
            forall|i: int|
                0 <= i < conns.len() ==> (#[trigger] conns[i])@ == connection_of(
                    self.plots[i]@,
                    self.query_type,
                    span,
                ),
    {
        let mut conns: Vec<QueryConn<'conn>> = Vec::new();
        let mut i: usize = 0;
        while i < self.plots.len()
            invariant
                i <= self.plots.len(),
                conns.len() == i,
                forall|j: int|
                    0 <= j < i ==> (#[trigger] conns[j])@ == connection_of(
                        self.plots[j]@,
                        self.query_type,
                        span,
                    ),
            decreases self.plots.len() - i,
        {
            let plot = &self.plots[i];
            let mut conn = QueryConn::new(
                plot.source.as_str(),
                plot.query.as_str(),
                self.query_type,
                plot.meta.clone(),
            );
            if let Some((end, duration, step)) = span {
                conn = conn.with_span(end, duration, step);
            }
            conns.push(conn);
            i += 1;
        }
        assert(connection_views(conns@) =~= connections_of(self@, span));
        conns
    }

    /// Builds the connections for a request that is handled at `now`.
    /// `query_span` is the span of the request, `graph_span` that of the
    /// dashboard.
    pub fn query_connections_at<'conn, 'graph: 'conn>(
        &'graph self,
        graph_span: &'graph Option<GraphSpan>,
        query_span: &'graph Option<GraphSpan>,
        now: UtcInstant,
    ) -> (conns: Vec<QueryConn<'conn>>)
        ensures
            connection_views(conns@) == connections_of(
                self@,
                selected_span(span_view(*query_span), self@.span, span_view(*graph_span), now),
            ),
            conns.len() == self.plots.len(),
            forall|i: int|
                0 <= i < conns.len() ==> (#[trigger] conns[i])@ == connection_of(
                    self.plots[i]@,
                    self.query_type,
                    selected_span(span_view(*query_span), self@.span, span_view(*graph_span), now),
                ),
    {
        self.connections_with(select_span(query_span, &self.span, graph_span, now))
    }

    /// Builds the connections for a request that is handled at the moment of
    /// the call. `query_span` is the span of the request, `graph_span` that
    /// of the dashboard.
    pub fn get_query_connections<'conn, 'graph: 'conn>(
        &'graph self,
        graph_span: &'graph Option<GraphSpan>,
        query_span: &'graph Option<GraphSpan>,
    ) -> (conns: Vec<QueryConn<'conn>>)
        ensures
            conns.len() == self.plots.len(),
            forall|i: int|
                0 <= i < conns.len() ==> ((#[trigger] conns[i]).span is Some <==> is_usable(
                    span_view(*query_span),
                ) || is_usable(self@.span) || is_usable(span_view(*graph_span))),
            exists|now: UtcInstant|
                connection_views(conns@) == connections_of(
                    self@,
                    #[trigger] selected_span(
                        span_view(*query_span),
                        self@.span,
                        span_view(*graph_span),
                        now,
                    ),
                ),
    {
        let now = utc_now();
        self.query_connections_at(graph_span, query_span, now)
    }
}

/// Resolving a span twice at the same point in time gives the same window.
pub proof fn lemma_same_instant_same_window(
    span: Option<GraphSpanView>,
    first: UtcInstant,
    second: UtcInstant,
)
    requires
        first == second,
    ensures
        resolved_span(span, first) == resolved_span(span, second),
{
}

/// A span whose end is a timestamp that can be read gives the same window at
/// every point in time.
pub proof fn lemma_fixed_end_ignores_clock(
    span: GraphSpanView,
    first: UtcInstant,
    second: UtcInstant,
)
    requires
        span_end_of(span.end) matches Some(SpanEnd::At(_)),
    ensures
        resolved_span(Some(span), first) == resolved_span(Some(span), second),
{
}

/// A window whose end is the word `now`, or cannot be read, ends at the
/// point in time at which it is resolved: two calls may differ in it, and in
/// nothing else.
pub proof fn lemma_open_end_follows_clock(span: GraphSpanView, now: UtcInstant)
    requires
        !(span_end_of(span.end) matches Some(SpanEnd::At(_))),
        is_usable(Some(span)),
    ensures
        resolved_span(Some(span), now) == Some(
            (now, duration_of(span.duration)->Ok_0, duration_of(span.step_duration)->Ok_0),
        ),
{
}

/// Whether a span gives a window does not depend on when it is resolved.
pub proof fn lemma_usable_at_every_instant(span: Option<GraphSpanView>, now: UtcInstant)
    ensures
        resolved_span(span, now) is Some <==> is_usable(span),
{
}

/// A span of the request that can be used decides the window, whatever the
/// graph and the dashboard set.
pub proof fn lemma_request_span_wins(
    request: Option<GraphSpanView>,
    graph: Option<GraphSpanView>,
    dashboard: Option<GraphSpanView>,
    now: UtcInstant,
)
    requires
        is_usable(request),
    ensures
        selected_span(request, graph, dashboard, now) == resolved_span(request, now),
{
}

/// Where the request has no span that can be used and the graph has one, the
/// graph's decides the window.
pub proof fn lemma_graph_span_is_fallback(
    request: Option<GraphSpanView>,
    graph: Option<GraphSpanView>,
    dashboard: Option<GraphSpanView>,
    now: UtcInstant,
)
    requires
        !is_usable(request),
        is_usable(graph),
    ensures
        selected_span(request, graph, dashboard, now) == resolved_span(graph, now),
{
}

/// Where neither the request nor the graph has a span that can be used, the
/// dashboard's decides: there is a window if and only if that span gives one.
pub proof fn lemma_dashboard_span_is_last(
    request: Option<GraphSpanView>,
    graph: Option<GraphSpanView>,
    dashboard: Option<GraphSpanView>,
    now: UtcInstant,
)
    requires
        !is_usable(request),
        !is_usable(graph),
    ensures
        selected_span(request, graph, dashboard, now) == resolved_span(dashboard, now),
        selected_span(request, graph, dashboard, now) is Some <==> is_usable(dashboard),
{
}

/// Every plot of a graph gets a connection, at the plot's place in the list,
/// and all of them carry the same window.
pub proof fn lemma_connections_follow_plots(graph: GraphView, span: Option<SpanTuple>, i: int)
    requires
        0 <= i < graph.plots.len(),
    ensures
        connections_of(graph, span).len() == graph.plots.len(),
        connections_of(graph, span)[i].source == graph.plots[i].source,
        connections_of(graph, span)[i].query == graph.plots[i].query,
        connections_of(graph, span)[i].meta == graph.plots[i].meta,
        connections_of(graph, span)[i].query_type == graph.query_type,
        connections_of(graph, span)[i].span == connections_of(graph, span)[0].span,
        connections_of(graph, span)[i].span is Some <==> span is Some,
{
}

} // verus!
