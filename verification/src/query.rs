//! What is handed to the metrics backend: one connection for each plot.

use vstd::prelude::*;
use crate::duration::TimeDelta;
use crate::instant::UtcInstant;

verus! {

/// How the backend is to evaluate a query.
#[derive(Clone, Copy, Debug, PartialEq, Eq, Structural)]
pub enum QueryType {
    /// Over a window of time, one value for each step.
    Range,
    /// At one point in time.
    Scalar,
}

/// How the series of a plot are to be named. The library hands these hints
/// on and never reads them.
#[derive(Debug, PartialEq, Eq)]
pub struct PlotMeta {
    pub name_prefix: Option<String>,
    pub name_suffix: Option<String>,
    pub name_label: Option<String>,
}

/// A `PlotMeta` as plain values.
pub struct PlotMetaView {
    pub name_prefix: Option<Seq<char>>,
    pub name_suffix: Option<Seq<char>>,
    pub name_label: Option<Seq<char>>,
}

/// The characters of a text that may be absent.
pub open spec fn text_view(text: Option<String>) -> Option<Seq<char>> {
    match text {
        Some(t) => Some(t@),
        None => None,
    }
}

impl View for PlotMeta {
    type V = PlotMetaView;

    open spec fn view(&self) -> PlotMetaView {
        PlotMetaView {
            name_prefix: text_view(self.name_prefix),
            name_suffix: text_view(self.name_suffix),
            name_label: text_view(self.name_label),
        }
    }
}

/// A copy of a text that may be absent.
fn clone_text(text: &Option<String>) -> (copy: Option<String>)
    ensures
        copy == *text,
{
    match text {
        Some(t) => Some(t.clone()),
        None => None,
    }
}

impl Clone for PlotMeta {
    fn clone(&self) -> (copy: Self)
        ensures
            copy == *self,
    {
        PlotMeta {
            name_prefix: clone_text(&self.name_prefix),
            name_suffix: clone_text(&self.name_suffix),
            name_label: clone_text(&self.name_label),
        }
    }
}

/// A window of time for a query: where it ends, how long it is, and how far
/// apart its samples lie.
#[derive(Clone, Copy, Debug, PartialEq, Eq, Structural)]
pub struct ResolvedSpan {
    pub end: UtcInstant,
    pub duration: TimeDelta,
    pub step: TimeDelta,
}

/// One query for the backend: where to send it, what to ask, how to evaluate
/// it, the hints of its plot, and the window of time, if one was settled.
#[derive(Debug, PartialEq, Eq)]
pub struct QueryConn<'conn> {
    pub source: &'conn str,
    pub query: &'conn str,
    pub span: Option<ResolvedSpan>,
    pub query_type: QueryType,
    pub meta: PlotMeta,
}

/// A `QueryConn` as plain values.
pub struct QueryConnView {
    pub source: Seq<char>,
    pub query: Seq<char>,
    pub span: Option<ResolvedSpan>,
    pub query_type: QueryType,
    pub meta: PlotMetaView,
}

impl<'conn> View for QueryConn<'conn> {
    type V = QueryConnView;

    open spec fn view(&self) -> QueryConnView {
        QueryConnView {
            source: self.source@,
            query: self.query@,
            span: self.span,
            query_type: self.query_type,
            meta: self.meta@,
        }
    }
}

impl<'conn> QueryConn<'conn> {
    /// A connection without a window of time: the backend then takes its own.
    pub fn new(
        source: &'conn str,
        query: &'conn str,
        query_type: QueryType,
        meta: PlotMeta,
    ) -> (conn: Self)
        ensures
            conn@ == (QueryConnView {
                source: source@,
                query: query@,
                span: None,
                query_type,
                meta: meta@,
            }),
    {
        QueryConn { source, query, span: None, query_type, meta }
    }

    /// The same connection with the window that ends at `end`, is `duration`
    /// long and has a sample every `step`.
    pub fn with_span(self, end: UtcInstant, duration: TimeDelta, step: TimeDelta) -> (conn: Self)
        ensures
            conn@ == (QueryConnView { span: Some(ResolvedSpan { end, duration, step }), ..self@ }),
    {
        QueryConn {
            source: self.source,
            query: self.query,
            span: Some(ResolvedSpan { end, duration, step }),
            query_type: self.query_type,
            meta: self.meta,
        }
    }
}

} // verus!
