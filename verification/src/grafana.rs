//! The target model, and the translation of source widgets into panels.

use crate::graylog;
use crate::graylog::{
    text_view, ChartRenderer, ContentPack, ContentPackView, DashboardWidget,
    DashboardWidgetConfigStackedChartSerie, DashboardWidgetType, DashboardWidgetView, SerieView,
    SourceDashboardView, SourceWidget, SourceWidgetView, WidgetSettings, WidgetSettingsView,
};
use crate::options::{ApplicationArguments, RenderOptions};
use crate::text::{
    append_form_pair, decimal, decimal_string, div_toward_zero, divide_toward_zero,
    form_pair_appended, lowercase, owned, replace_char, replaced, to_lowercase,
};
use vstd::prelude::*;
use vstd::string::*;

verus! {

/// The kind of a panel.
#[derive(Clone, Copy, Debug, PartialEq, Eq, Structural)]
pub enum PanelType {
    Graph,
    SingleStat,
    PieChart,
}

/// The place and size of a panel in the target grid.
#[derive(Clone, Copy, Debug, PartialEq, Eq, Structural)]
pub struct GridPos {
    pub h: i64,
    pub w: i64,
    pub y: i64,
    pub x: i64,
}

/// The mathematical content of a [`GridPos`].
pub struct GridPosView {
    pub x: int,
    pub y: int,
    pub width: int,
    pub height: int,
}

impl View for GridPos {
    type V = GridPosView;

    open spec fn view(&self) -> GridPosView {
        GridPosView {
            x: self.x as int,
            y: self.y as int,
            width: self.w as int,
            height: self.h as int,
        }
    }
}

/// The target grid position of a widget placed at `row` and `col` (counted
/// from one) with the given size: rows and heights scale by six, columns
/// and widths by five. Nothing is clamped.
pub open spec fn layout(row: int, col: int, width: int, height: int) -> GridPosView {
    GridPosView { x: (col - 1) * 5, y: row * 6, width: width * 5, height: height * 6 }
}

impl GridPos {
    /// The grid position of a checked widget.
    pub fn new_with_widget(widget: &SourceWidget) -> (r: GridPos)
        requires
            widget@.layout_in_range(),
        ensures
            r@ == layout(widget@.row, widget@.col, widget@.width, widget@.height),
    {
        GridPos::new(widget.row, widget.col, widget.width, widget.height)
    }

    /// The grid position for source coordinates; see [`layout`].
    pub fn new(row: i64, col: i64, width: i64, height: i64) -> (r: GridPos)
        requires
            i64::MIN <= height * 6 <= i64::MAX,
            i64::MIN <= width * 5 <= i64::MAX,
            i64::MIN <= row * 6 <= i64::MAX,
            i64::MIN <= (col - 1) * 5 <= i64::MAX,
        ensures
            r@ == layout(row as int, col as int, width as int, height as int),
    {
        GridPos { h: height * 6, w: width * 5, y: row * 6, x: (col - 1) * 5 }
    }
}

/// The settings of a bucket aggregation.
#[derive(Clone, Debug)]
pub struct PanelBucketAggSettings {
    pub interval: Option<String>,
    pub order: Option<String>,
    pub size: Option<String>,
    /// For a terms aggregation this slot carries the result limit.
    pub min_doc_count: i64,
    pub trim_edges: i64,
    pub order_by: Option<String>,
}

/// The mathematical content of a [`PanelBucketAggSettings`].
pub struct SettingsView {
    pub interval: Option<Seq<char>>,
    pub order: Option<Seq<char>>,
    pub size: Option<Seq<char>>,
    pub min_doc_count: int,
    pub trim_edges: int,
    pub order_by: Option<Seq<char>>,
}

impl View for PanelBucketAggSettings {
    type V = SettingsView;

    open spec fn view(&self) -> SettingsView {
        SettingsView {
            interval: text_view(self.interval),
            order: text_view(self.order),
            size: text_view(self.size),
            min_doc_count: self.min_doc_count as int,
            trim_edges: self.trim_edges as int,
            order_by: text_view(self.order_by),
        }
    }
}

/// A bucket aggregation: a grouping by time interval or by term.
#[derive(Clone, Debug)]
pub struct PanelBucketAgg {
    pub kind: String,
    pub id: String,
    pub settings: PanelBucketAggSettings,
    pub field: String,
    pub fake: Option<bool>,
}

/// The mathematical content of a [`PanelBucketAgg`].
pub struct BucketAggView {
    pub kind: Seq<char>,
    pub id: Seq<char>,
    pub settings: SettingsView,
    pub field: Seq<char>,
    pub fake: Option<bool>,
}

impl View for PanelBucketAgg {
    type V = BucketAggView;

    open spec fn view(&self) -> BucketAggView {
        BucketAggView {
            kind: self.kind@,
            id: self.id@,
            settings: self.settings@,
            field: self.field@,
            fake: self.fake,
        }
    }
}

/// The date-histogram aggregation on the time field, with id `"2"`.
pub open spec fn date_histogram(interval: Option<Seq<char>>, fake: Option<bool>) -> BucketAggView {
    BucketAggView {
        kind: "date_histogram"@,
        id: "2"@,
        settings: SettingsView {
            interval,
            order: None,
            size: None,
            min_doc_count: 0,
            trim_edges: 0,
            order_by: None,
        },
        field: "timestamp"@,
        fake,
    }
}

/// The terms aggregation on `field`, with id `"1"`: size `"0"`, ordered by
/// `"_term"`, the limit in the `min_doc_count` slot, and no placeholder
/// marker.
pub open spec fn terms(field: Seq<char>, order: Option<Seq<char>>, limit: int) -> BucketAggView {
    BucketAggView {
        kind: "terms"@,
        id: "1"@,
        settings: SettingsView {
            interval: None,
            order,
            size: Some("0"@),
            min_doc_count: limit,
            trim_edges: 0,
            order_by: Some("_term"@),
        },
        field,
        fake: None,
    }
}

impl PanelBucketAgg {
    /// Builds the date-histogram aggregation. An absent interval stays
    /// absent.
    pub fn new_date_histogram(interval: Option<String>, fake: Option<bool>) -> (r: PanelBucketAgg)
        ensures
            r@ == date_histogram(text_view(interval), fake),
    {
        PanelBucketAgg {
            kind: owned("date_histogram"),
            id: owned("2"),
            settings: PanelBucketAggSettings {
                interval,
                order: None,
                size: None,
                min_doc_count: 0,
                trim_edges: 0,
                order_by: None,
            },
            field: owned("timestamp"),
            fake,
        }
    }

    /// Builds the terms aggregation on `field`. It carries no placeholder
    /// marker: that belongs to the date histogram beneath it.
    pub fn new_terms(field: &str, order: Option<String>, limit: i64) -> (r: PanelBucketAgg)
        ensures
            r@ == terms(field@, text_view(order), limit as int),
            r.fake is None,
    {
        PanelBucketAgg {
            kind: owned("terms"),
            field: owned(field),
            id: owned("1"),
            settings: PanelBucketAggSettings {
                interval: None,
                order,
                size: Some(owned("0")),
                min_doc_count: limit,
                trim_edges: 0,
                order_by: Some(owned("_term")),
            },
            fake: None,
        }
    }
}

/// The views of a list of bucket aggregations, in order.
pub open spec fn bucket_aggs_view(aggs: Seq<PanelBucketAgg>) -> Seq<BucketAggView> {
    aggs.map_values(|a: PanelBucketAgg| a@)
}

/// A metric: the aggregation computed within each bucket.
#[derive(Clone, Debug)]
pub struct PanelTargetMetric {
    pub kind: String,
    pub id: String,
    pub field: String,
}

/// The mathematical content of a [`PanelTargetMetric`].
pub struct MetricView {
    pub kind: Seq<char>,
    pub id: Seq<char>,
    pub field: Seq<char>,
}

impl View for PanelTargetMetric {
    type V = MetricView;

    open spec fn view(&self) -> MetricView {
        MetricView { kind: self.kind@, id: self.id@, field: self.field@ }
    }
}

/// The views of a list of metrics, in order.
pub open spec fn metrics_view(metrics: Seq<PanelTargetMetric>) -> Seq<MetricView> {
    metrics.map_values(|m: PanelTargetMetric| m@)
}

/// A query target of a panel.
#[derive(Clone, Debug)]
pub struct PanelTarget {
    pub ref_id: String,
    pub metrics: Vec<PanelTargetMetric>,
    pub bucket_aggs: Vec<PanelBucketAgg>,
    pub time_field: String,
    pub query: String,
    pub alias: Option<String>,
}

/// The mathematical content of a [`PanelTarget`].
pub struct PanelTargetView {
    pub ref_id: Seq<char>,
    pub metrics: Seq<MetricView>,
    pub bucket_aggs: Seq<BucketAggView>,
    pub time_field: Seq<char>,
    pub query: Seq<char>,
    pub alias: Option<Seq<char>>,
}

impl View for PanelTarget {
    type V = PanelTargetView;

    open spec fn view(&self) -> PanelTargetView {
        PanelTargetView {
            ref_id: self.ref_id@,
            metrics: metrics_view(self.metrics@),
            bucket_aggs: bucket_aggs_view(self.bucket_aggs@),
            time_field: self.time_field@,
            query: self.query@,
            alias: text_view(self.alias),
        }
    }
}

/// The metric type for a value type: `"count"` stays, anything else is
/// summed.
pub open spec fn metric_type(valuetype: Seq<char>) -> Seq<char> {
    if valuetype == "count"@ {
        "count"@
    } else {
        "sum"@
    }
}

/// The target of the metric path: one metric on `field`, one date histogram
/// at `interval`, and the query as alias.
pub open spec fn metric_target(
    query: Seq<char>,
    interval: Seq<char>,
    ref_id: Seq<char>,
    field: Seq<char>,
    valuetype: Seq<char>,
) -> PanelTargetView {
    PanelTargetView {
        ref_id,
        metrics: seq![MetricView { kind: metric_type(valuetype), id: "1"@, field }],
        bucket_aggs: seq![date_histogram(Some(interval), None)],
        time_field: "timestamp"@,
        query,
        alias: Some(query),
    }
}

/// The sort order of a terms aggregation: `"desc"` unless one is given.
pub open spec fn sort_order_or_default(sort_order: Option<Seq<char>>) -> Seq<char> {
    match sort_order {
        Some(order) => order,
        None => "desc"@,
    }
}

/// The result limit of a terms aggregation: five unless one is given.
pub open spec fn limit_or_default(limit: Option<int>) -> int {
    match limit {
        Some(limit) => limit,
        None => 5,
    }
}

/// The target of the bucket path: a count on the stand-in field, split by
/// terms of `field` and then by a secondary one-hour date histogram; no
/// alias.
pub open spec fn bucket_target(
    query: Seq<char>,
    field: Seq<char>,
    sort_order: Option<Seq<char>>,
    limit: Option<int>,
) -> PanelTargetView {
    PanelTargetView {
        ref_id: "A"@,
        metrics: seq![MetricView { kind: "count"@, id: "1"@, field: "select field"@ }],
        bucket_aggs: seq![
            terms(field, Some(sort_order_or_default(sort_order)), limit_or_default(limit)),
            date_histogram(Some("1h"@), Some(true)),
        ],
        time_field: "timestamp"@,
        query,
        alias: None,
    }
}

impl PanelTarget {
    /// Builds the target of the metric path.
    pub fn new(
        query: &str,
        interval: &str,
        ref_id: &str,
        field: String,
        valuetype: String,
    ) -> (r: PanelTarget)
        ensures
            r@ == metric_target(query@, interval@, ref_id@, field@, valuetype@),
            r@.metrics.len() == 1,
            valuetype@ == "count"@ ==> r@.metrics[0].kind == "count"@,
            valuetype@ != "count"@ ==> r@.metrics[0].kind == "sum"@,
    {
        let count = owned("count");
        let kind = if valuetype == count {
            count
        } else {
            owned("sum")
        };
        let metrics = vec![PanelTargetMetric { kind, id: owned("1"), field }];
        let bucket_aggs = vec![PanelBucketAgg::new_date_histogram(Some(owned(interval)), None)];
        let r = PanelTarget {
            ref_id: owned(ref_id),
            metrics,
            bucket_aggs,
            time_field: owned("timestamp"),
            query: owned(query),
            alias: Some(owned(query)),
        };
        let ghost expected = metric_target(query@, interval@, ref_id@, field@, valuetype@);
        assert(r@.metrics =~= expected.metrics);
        assert(r@.bucket_aggs =~= expected.bucket_aggs);
        r
    }

    /// Builds the target of the bucket path.
    pub fn new_buckets(
        query: &str,
        field: &str,
        sort_order: Option<String>,
        limit: Option<i64>,
    ) -> (r: PanelTarget)
        ensures
            r@ == bucket_target(
                query@,
                field@,
                text_view(sort_order),
                match limit {
                    Some(l) => Some(l as int),
                    None => None,
                },
            ),
            r@.bucket_aggs.len() == 2,
            r@.bucket_aggs[0].kind == "terms"@,
            r@.bucket_aggs[0].fake is None,
            r@.bucket_aggs[1].kind == "date_histogram"@,
            r@.bucket_aggs[1].fake == Some(true),
    {
        let order = match sort_order {
            Some(order) => order,
            None => owned("desc"),
        };
        let count: i64 = match limit {
            Some(l) => l,
            None => 5,
        };
        let metrics = vec![
            PanelTargetMetric {
                kind: owned("count"),
                id: owned("1"),
                field: owned("select field"),
            },
        ];
        let bucket_aggs = vec![
            PanelBucketAgg::new_terms(field, Some(order), count),
            PanelBucketAgg::new_date_histogram(Some(owned("1h")), Some(true)),
        ];
        let r = PanelTarget {
            ref_id: owned("A"),
            metrics,
            bucket_aggs,
            time_field: owned("timestamp"),
            query: owned(query),
            alias: None,
        };
        let ghost expected = bucket_target(
            query@,
            field@,
            text_view(sort_order),
            match limit {
                Some(l) => Some(l as int),
                None => None,
            },
        );
        assert(r@.metrics =~= expected.metrics);
        assert(r@.bucket_aggs =~= expected.bucket_aggs);
        r
    }
}

/// The views of a list of targets, in order.
pub open spec fn targets_view(targets: Seq<PanelTarget>) -> Seq<PanelTargetView> {
    targets.map_values(|t: PanelTarget| t@)
}

/// A link from a panel back to the search it was made from.
#[derive(Clone, Debug)]
pub struct Link {
    pub title: String,
    pub kind: String,
    pub url: String,
    pub target_blank: bool,
}

/// The mathematical content of a [`Link`].
pub struct LinkView {
    pub title: Seq<char>,
    pub kind: Seq<char>,
    pub url: Seq<char>,
    pub target_blank: bool,
}

impl View for Link {
    type V = LinkView;

    open spec fn view(&self) -> LinkView {
        LinkView {
            title: self.title@,
            kind: self.kind@,
            url: self.url@,
            target_blank: self.target_blank,
        }
    }
}

/// The views of a list of links, in order.
pub open spec fn links_view(links: Seq<Link>) -> Seq<LinkView> {
    links.map_values(|l: Link| l@)
}

/// The encoded parameters of a search link, in their fixed order:
/// `rangetype`, `fields`, `width`, `highlightMessage`, `relative` and `q`.
pub open spec fn link_parameters(query: Seq<char>, seconds: int) -> Seq<char> {
    let p1 = form_pair_appended(Seq::<char>::empty(), "rangetype"@, "relative"@);
    let p2 = form_pair_appended(p1, "fields"@, "message,source"@);
    let p3 = form_pair_appended(p2, "width"@, "1920"@);
    let p4 = form_pair_appended(p3, "highlightMessage"@, ""@);
    let p5 = form_pair_appended(p4, "relative"@, decimal(seconds));
    form_pair_appended(p5, "q"@, query)
}

/// The link to the search for `query` over the last `seconds` seconds on
/// the server at `base`.
pub open spec fn search_link(base: Seq<char>, query: Seq<char>, seconds: int) -> LinkView {
    LinkView {
        title: "Go to Graylog"@,
        kind: "absolute"@,
        url: base + "/search?"@ + link_parameters(query, seconds),
        target_blank: true,
    }
}

impl Link {
    /// Builds the link back to the search; it always opens in a new tab.
    pub fn new(url: &str, query: &str, seconds: i64) -> (r: Link)
        ensures
            r@ == search_link(url@, query@, seconds as int),
            r.target_blank,
    {
        let relative = decimal_string(seconds);
        let encoded = append_form_pair(String::new(), "rangetype", "relative");
        let encoded = append_form_pair(encoded, "fields", "message,source");
        let encoded = append_form_pair(encoded, "width", "1920");
        let encoded = append_form_pair(encoded, "highlightMessage", "");
        let encoded = append_form_pair(encoded, "relative", relative.as_str());
        let encoded = append_form_pair(encoded, "q", query);
        Link {
            title: owned("Go to Graylog"),
            kind: owned("absolute"),
            url: owned(url).concat("/search?").concat(encoded.as_str()),
            target_blank: true,
        }
    }
}

/// The trend indicator of a single-value panel.
#[derive(Clone, Debug)]
pub struct Sparkline {
    pub show: bool,
    pub full: bool,
    pub line_color: String,
    pub fill_color: String,
}

/// The mathematical content of a [`Sparkline`].
pub struct SparklineView {
    pub show: bool,
    pub full: bool,
    pub line_color: Seq<char>,
    pub fill_color: Seq<char>,
}

impl View for Sparkline {
    type V = SparklineView;

    open spec fn view(&self) -> SparklineView {
        SparklineView {
            show: self.show,
            full: self.full,
            line_color: self.line_color@,
            fill_color: self.fill_color@,
        }
    }
}

/// The sparkline for a trend flag: shown exactly when the flag is set,
/// never full height, in the fixed colours.
pub open spec fn sparkline(trend: bool) -> SparklineView {
    SparklineView {
        show: trend,
        full: false,
        line_color: "rgb(31, 120, 193)"@,
        fill_color: "rgba(31, 118, 189, 0.18)"@,
    }
}

impl Sparkline {
    /// Builds the sparkline for a trend flag.
    pub fn new(trend: bool) -> (r: Sparkline)
        ensures
            r@ == sparkline(trend),
    {
        Sparkline {
            show: trend,
            full: false,
            line_color: owned("rgb(31, 120, 193)"),
            fill_color: owned("rgba(31, 118, 189, 0.18)"),
        }
    }
}

/// The view of an optional sparkline.
pub open spec fn sparkline_view(sparkline: Option<Sparkline>) -> Option<SparklineView> {
    match sparkline {
        Some(s) => Some(s@),
        None => None,
    }
}

/// A panel of a target dashboard.
#[derive(Clone, Debug)]
pub struct Panel {
    pub kind: PanelType,
    pub title: String,
    pub links: Vec<Link>,
    pub datasource: String,
    pub targets: Vec<PanelTarget>,
    pub bars: Option<bool>,
    pub lines: Option<bool>,
    pub points: Option<bool>,
    pub sparkline: Option<Sparkline>,
    pub grid_pos: GridPos,
    pub value_name: Option<String>,
    pub time_from: Option<String>,
}

/// The mathematical content of a [`Panel`].
pub struct PanelView {
    pub kind: PanelType,
    pub title: Seq<char>,
    pub links: Seq<LinkView>,
    pub datasource: Seq<char>,
    pub targets: Seq<PanelTargetView>,
    pub bars: Option<bool>,
    pub lines: Option<bool>,
    pub points: Option<bool>,
    pub sparkline: Option<SparklineView>,
    pub grid_pos: GridPosView,
    pub value_name: Option<Seq<char>>,
    pub time_from: Option<Seq<char>>,
}

impl View for Panel {
    type V = PanelView;

    open spec fn view(&self) -> PanelView {
        PanelView {
            kind: self.kind,
            title: self.title@,
            links: links_view(self.links@),
            datasource: self.datasource@,
            targets: targets_view(self.targets@),
            bars: self.bars,
            lines: self.lines,
            points: self.points,
            sparkline: sparkline_view(self.sparkline),
            grid_pos: self.grid_pos@,
            value_name: text_view(self.value_name),
            time_from: text_view(self.time_from),
        }
    }
}

/// The views of a list of panels, in order.
pub open spec fn panels_view(panels: Seq<Panel>) -> Seq<PanelView> {
    panels.map_values(|p: Panel| p@)
}

/// A graph panel: bars for the bar renderer, lines for line and area,
/// points for area; no sparkline, value name, time window or link.
pub open spec fn graph_panel(
    title: Seq<char>,
    targets: Seq<PanelTargetView>,
    renderer: ChartRenderer,
    grid_pos: GridPosView,
    opt: RenderOptions,
) -> PanelView {
    PanelView {
        kind: PanelType::Graph,
        title,
        links: Seq::empty(),
        datasource: opt.datasource,
        targets,
        bars: Some(renderer == ChartRenderer::Bar),
        lines: Some(renderer == ChartRenderer::Line || renderer == ChartRenderer::Area),
        points: Some(renderer == ChartRenderer::Area),
        sparkline: None,
        grid_pos,
        value_name: None,
        time_from: None,
    }
}

/// The display window of a single-value or pie-chart panel: the range in
/// whole hours, rounded toward zero, followed by `h`.
pub open spec fn time_window(range: int) -> Seq<char> {
    decimal(div_toward_zero(range, 3600)) + "h"@
}

/// The links of a single-value or pie-chart panel: the search link when a
/// base URL is configured, none otherwise.
pub open spec fn panel_links(query: Seq<char>, range: int, opt: RenderOptions) -> Seq<LinkView> {
    match opt.graylog_url {
        Some(base) => seq![search_link(base, query, range)],
        None => Seq::empty(),
    }
}

/// A single-value or pie-chart panel: value name `"total"`, the display
/// window of the range, and the search link if one is configured.
pub open spec fn value_panel(
    title: Seq<char>,
    kind: PanelType,
    query: Seq<char>,
    sparkline: Option<SparklineView>,
    targets: Seq<PanelTargetView>,
    grid_pos: GridPosView,
    range: int,
    opt: RenderOptions,
) -> PanelView {
    PanelView {
        kind,
        title,
        links: panel_links(query, range, opt),
        datasource: opt.datasource,
        targets,
        bars: None,
        lines: None,
        points: None,
        sparkline,
        grid_pos,
        value_name: Some("total"@),
        time_from: Some(time_window(range)),
    }
}

/// The targets of a stacked chart: one metric target per series, in order,
/// all at the chart's interval.
pub open spec fn series_targets(series: Seq<SerieView>, interval: Seq<char>) -> Seq<
    PanelTargetView,
> {
    series.map_values(
        |s: SerieView| metric_target(s.query, interval, "A"@, s.field, s.statistical_function),
    )
}

/// The panel of a checked widget: none for the unsupported kind, otherwise
/// the panel that the widget's kind calls for.
pub open spec fn panel_of(widget: SourceWidgetView, opt: RenderOptions) -> Option<PanelView> {
    let title = widget.description;
    let grid_pos = layout(widget.row, widget.col, widget.width, widget.height);
    match widget.settings {
        WidgetSettingsView::FieldChart { query, interval, field, valuetype, renderer } => Some(
            graph_panel(
                title,
                seq![metric_target(query, interval.grafana_text(), "A"@, field, valuetype)],
                renderer,
                grid_pos,
                opt,
            ),
        ),
        WidgetSettingsView::StackedChart { interval, series, renderer } => Some(
            graph_panel(
                title,
                series_targets(series, interval.grafana_text()),
                renderer,
                grid_pos,
                opt,
            ),
        ),
        WidgetSettingsView::SearchResultCount { query, trend, range } => Some(
            value_panel(
                title,
                PanelType::SingleStat,
                query,
                Some(sparkline(trend)),
                seq![metric_target(query, "1m"@, "A"@, "select field"@, "count"@)],
                grid_pos,
                range,
                opt,
            ),
        ),
        WidgetSettingsView::SearchResultChart { query, interval } => Some(
            graph_panel(
                title,
                seq![
                    metric_target(query, interval.grafana_text(), "A"@, "select field"@, "count"@),
                ],
                ChartRenderer::Bar,
                grid_pos,
                opt,
            ),
        ),
        WidgetSettingsView::QuickValues { query, field, sort_order, limit, range } => Some(
            value_panel(
                title,
                PanelType::PieChart,
                query,
                None,
                seq![bucket_target(query, field, sort_order, limit)],
                grid_pos,
                range,
                opt,
            ),
        ),
        WidgetSettingsView::QuickValuesHistogram => None,
    }
}

/// The panel of a complete widget: the panel of its checked form.
pub open spec fn panel_for(widget: DashboardWidgetView, opt: RenderOptions) -> Option<PanelView> {
    panel_of(widget.source(), opt)
}

/// The warning for a widget that has no panel: it names the widget's kind
/// and its description. Supported widgets give none.
pub open spec fn warning_for(widget: DashboardWidgetView) -> Option<Seq<char>> {
    if widget.is_supported() {
        None
    } else {
        Some("Not Supported QuickValuesHistogram graph: "@ + widget.description)
    }
}

impl Panel {
    /// Builds a graph panel.
    pub fn new_graph(
        title: String,
        targets: Vec<PanelTarget>,
        renderer: ChartRenderer,
        grid_pos: GridPos,
        opt: &ApplicationArguments,
    ) -> (r: Panel)
        ensures
            r@ == graph_panel(title@, targets_view(targets@), renderer, grid_pos@, opt@),
    {
        let r = Panel {
            title,
            kind: PanelType::Graph,
            datasource: opt.datasource.clone(),
            targets,
            bars: Some(renderer == ChartRenderer::Bar),
            lines: Some(renderer == ChartRenderer::Line || renderer == ChartRenderer::Area),
            points: Some(renderer == ChartRenderer::Area),
            sparkline: None,
            grid_pos,
            value_name: None,
            time_from: None,
            links: Vec::new(),
        };
        assert(r@.links =~= Seq::empty());
        r
    }

    /// Builds a single-value or pie-chart panel.
    pub fn new(
        title: String,
        kind: PanelType,
        query: &str,
        sparkline: Option<Sparkline>,
        targets: Vec<PanelTarget>,
        grid_pos: GridPos,
        range: i64,
        opt: &ApplicationArguments,
    ) -> (r: Panel)
        ensures
            r@ == value_panel(
                title@,
                kind,
                query@,
                sparkline_view(sparkline),
                targets_view(targets@),
                grid_pos@,
                range as int,
                opt@,
            ),
    {
        let mut links: Vec<Link> = Vec::new();
        match &opt.graylog_url {
            Some(base) => {
                links.push(Link::new(base.as_str(), query, range));
            },
            None => {},
        }
        assert(links_view(links@) =~= panel_links(query@, range as int, opt@));
        Panel {
            title,
            kind,
            value_name: Some(owned("total")),
            datasource: opt.datasource.clone(),
            targets,
            bars: None,
            lines: None,
            points: None,
            sparkline,
            grid_pos,
            time_from: Some(decimal_string(divide_toward_zero(range, 3600)).concat("h")),
            links,
        }
    }

    /// Builds the targets of a stacked chart, one per series.
    pub fn new_series_targets(
        series: &Vec<DashboardWidgetConfigStackedChartSerie>,
        interval: &str,
    ) -> (r: Vec<PanelTarget>)
        ensures
            targets_view(r@) == series_targets(graylog::series_view(series@), interval@),
    {
        let mut targets: Vec<PanelTarget> = Vec::new();
        let mut i: usize = 0;
        while i < series.len()
            invariant
                i <= series.len(),
                targets_view(targets@) == series_targets(
                    graylog::series_view(series@).take(i as int),
                    interval@,
                ),
            decreases series.len() - i,
        {
            let s = &series[i];
            let ghost before = targets_view(targets@);
            let target = PanelTarget::new(
                s.query.as_str(),
                interval,
                "A",
                s.field.clone(),
                s.statistical_function.clone(),
            );
            targets.push(target);
            assert(targets_view(targets@) =~= before.push(target@));
            assert(graylog::series_view(series@).take(i + 1) =~= graylog::series_view(
                series@,
            ).take(i as int).push(series@[i as int]@));
            assert(series_targets(graylog::series_view(series@).take(i + 1), interval@)
                =~= before.push(target@));
            i = i + 1;
        }
        assert(graylog::series_view(series@).take(i as int) =~= graylog::series_view(series@));
        targets
    }

    /// Translates one checked widget: the panel its kind calls for, or
    /// nothing for the unsupported kind.
    pub fn from_source(widget: SourceWidget, opt: &ApplicationArguments) -> (r: Option<Panel>)
        requires
            widget@.is_supported() ==> widget@.layout_in_range(),
        ensures
            r is Some <==> widget@.is_supported(),
            (match r {
                Some(panel) => Some(panel@),
                None => None,
            }) == panel_of(widget@, opt@),
    {
        let ghost expected = panel_of(widget@, opt@);
        if matches!(widget.settings, WidgetSettings::QuickValuesHistogram) {
            return None;
        }
        let grid_pos = GridPos::new_with_widget(&widget);
        let SourceWidget { description, settings, row: _, col: _, height: _, width: _ } = widget;
        let panel = match settings {
            // Left above, before the grid position is computed.
            WidgetSettings::QuickValuesHistogram => {
                return None;
            },
            WidgetSettings::FieldChart { query, interval, field, valuetype, renderer } => {
                let targets = vec![
                    PanelTarget::new(
                        query.as_str(),
                        interval.grafana().as_str(),
                        "A",
                        field,
                        valuetype,
                    ),
                ];
                assert(targets_view(targets@) =~= expected->0.targets);
                Panel::new_graph(description, targets, renderer, grid_pos, opt)
            },
            WidgetSettings::StackedChart { interval, series, renderer } => {
                let targets = Panel::new_series_targets(&series, interval.grafana().as_str());
                Panel::new_graph(description, targets, renderer, grid_pos, opt)
            },
            WidgetSettings::SearchResultCount { query, trend, range } => {
                let targets = vec![
                    PanelTarget::new(
                        query.as_str(),
                        "1m",
                        "A",
                        owned("select field"),
                        owned("count"),
                    ),
                ];
                assert(targets_view(targets@) =~= expected->0.targets);
                Panel::new(
                    description,
                    PanelType::SingleStat,
                    query.as_str(),
                    Some(Sparkline::new(trend)),
                    targets,
                    grid_pos,
                    range,
                    opt,
                )
            },
            WidgetSettings::SearchResultChart { query, interval } => {
                let targets = vec![
                    PanelTarget::new(
                        query.as_str(),
                        interval.grafana().as_str(),
                        "A",
                        owned("select field"),
                        owned("count"),
                    ),
                ];
                assert(targets_view(targets@) =~= expected->0.targets);
                Panel::new_graph(description, targets, ChartRenderer::Bar, grid_pos, opt)
            },
            WidgetSettings::QuickValues { query, field, sort_order, limit, range } => {
                let targets = vec![
                    PanelTarget::new_buckets(query.as_str(), field.as_str(), sort_order, limit),
                ];
                assert(targets_view(targets@) =~= expected->0.targets);
                Panel::new(
                    description,
                    PanelType::PieChart,
                    query.as_str(),
                    None,
                    targets,
                    grid_pos,
                    range,
                    opt,
                )
            },
        };
        Some(panel)
    }

    /// Translates one widget: the panel its kind calls for, or nothing for
    /// the unsupported kind.
    pub fn create_panel(widget: DashboardWidget, opt: &ApplicationArguments) -> (r: Option<Panel>)
        requires
            widget@.is_translatable(),
        ensures
            r is Some <==> widget@.is_supported(),
            (match r {
                Some(panel) => Some(panel@),
                None => None,
            }) == panel_for(widget@, opt@),
    {
        match widget.into_source() {
            Ok(source) => Panel::from_source(source, opt),
            // A translatable widget is complete, so it has a checked form.
            Err(_) => None,
        }
    }

    /// The warning to report for a widget that has no panel; nothing for a
    /// supported widget.
    pub fn unsupported_warning(widget: &DashboardWidget) -> (r: Option<String>)
        ensures
            text_view(r) == warning_for(widget@),
            r is Some <==> !widget@.is_supported(),
    {
        match widget.kind {
            DashboardWidgetType::QuickValuesHistogram => Some(
                owned("Not Supported QuickValuesHistogram graph: ").concat(
                    widget.description.as_str(),
                ),
            ),
            _ => None,
        }
    }
}

/// The panels of a list of widgets: the panel of each supported widget,
/// in the widgets' order.
pub open spec fn panels_for(widgets: Seq<DashboardWidgetView>, opt: RenderOptions) -> Seq<
    PanelView,
> {
    widgets.filter_map(|w: DashboardWidgetView| panel_for(w, opt))
}

/// The warnings of a list of widgets: one for each unsupported widget, in
/// the widgets' order.
pub open spec fn warnings_for(widgets: Seq<DashboardWidgetView>) -> Seq<Seq<char>> {
    widgets.filter_map(|w: DashboardWidgetView| warning_for(w))
}

/// The relative time window of a dashboard.
#[derive(Clone, Debug)]
pub struct TimeRange {
    pub from: String,
    pub to: String,
}

/// A target dashboard: a title, its panels in order and its time window.
#[derive(Clone, Debug)]
pub struct Dashboard {
    pub title: String,
    pub panels: Vec<Panel>,
    pub time: TimeRange,
}

/// The mathematical content of a target [`Dashboard`].
pub struct DashboardView {
    pub title: Seq<char>,
    pub panels: Seq<PanelView>,
    pub from: Seq<char>,
    pub to: Seq<char>,
}

impl View for Dashboard {
    type V = DashboardView;

    open spec fn view(&self) -> DashboardView {
        DashboardView {
            title: self.title@,
            panels: panels_view(self.panels@),
            from: self.time.from@,
            to: self.time.to@,
        }
    }
}

/// The translation of a source dashboard: its title, the panels of its
/// supported widgets, and the window of the last two days.
pub open spec fn dashboard_for(dash: SourceDashboardView, opt: RenderOptions) -> DashboardView {
    DashboardView {
        title: dash.title,
        panels: panels_for(dash.widgets, opt),
        from: "now-2d"@,
        to: "now"@,
    }
}

/// The name of the file that a dashboard with this title is written to:
/// spaces and slashes become underscores, the result is lower-cased, and
/// `.json` follows.
pub open spec fn filename_for(title: Seq<char>) -> Seq<char> {
    lowercase(replaced(replaced(title, ' ', '_'), '/', '_')) + ".json"@
}

impl Dashboard {
    /// Translates a source dashboard.
    pub fn create_dashboard_from_graylog(
        dash: graylog::Dashboard,
        opt: &ApplicationArguments,
    ) -> (r: Dashboard)
        requires
            dash@.is_translatable(),
        ensures
            r@ == dashboard_for(dash@, opt@),
    {
        let ghost source = dash@;
        let graylog::Dashboard { title, description: _, dashboard_widgets } = dash;
        let ghost widgets = dashboard_widgets@;
        let mut panels: Vec<Panel> = Vec::new();
        assert(graylog::widgets_view(widgets).take(0) =~= Seq::empty());
        for widget in iter: dashboard_widgets.into_iter()
            invariant
                iter.seq() == widgets,
                source.widgets == graylog::widgets_view(widgets),
                source.is_translatable(),
                panels_view(panels@) == panels_for(
                    graylog::widgets_view(widgets).take(iter.index() as int),
                    opt@,
                ),
        {
            let ghost done = graylog::widgets_view(widgets).take(iter.index() as int);
            let ghost next = graylog::widgets_view(widgets).take(iter.index() + 1);
            let ghost before = panels_view(panels@);
            assert(source.widgets[iter.index() as int].is_translatable());
            assert(next.drop_last() =~= done);
            assert(next.last() == widget@);
            match Panel::create_panel(widget, opt) {
                Some(panel) => {
                    panels.push(panel);
                    assert(panels_view(panels@) =~= before + seq![panel@]);
                },
                None => {},
            }
        }
        assert(graylog::widgets_view(widgets).take(widgets.len() as int) =~= graylog::widgets_view(
            widgets,
        ));
        Dashboard { title, panels, time: TimeRange { from: owned("now-2d"), to: owned("now") } }
    }

    /// The warnings to report for a source dashboard: one for each widget
    /// that has no panel, in the widgets' order.
    pub fn unsupported_warnings(dash: &graylog::Dashboard) -> (r: Vec<String>)
        ensures
            r@.map_values(|s: String| s@) == warnings_for(dash@.widgets),
    {
        let mut warnings: Vec<String> = Vec::new();
        let mut i: usize = 0;
        assert(dash@.widgets.take(0) =~= Seq::empty());
        while i < dash.dashboard_widgets.len()
            invariant
                i <= dash.dashboard_widgets.len(),
                warnings@.map_values(|s: String| s@) == warnings_for(dash@.widgets.take(i as int)),
            decreases dash.dashboard_widgets.len() - i,
        {
            let ghost before = warnings@.map_values(|s: String| s@);
            assert(dash@.widgets.take(i + 1).drop_last() =~= dash@.widgets.take(i as int));
            assert(dash@.widgets.take(i + 1).last() == dash.dashboard_widgets[i as int]@);
            match Panel::unsupported_warning(&dash.dashboard_widgets[i]) {
                Some(warning) => {
                    warnings.push(warning);
                    assert(warnings@.map_values(|s: String| s@) =~= before + seq![warning@]);
                },
                None => {},
            }
            i = i + 1;
        }
        assert(dash@.widgets.take(i as int) =~= dash@.widgets);
        warnings
    }

    /// The name of the file that this dashboard is written to.
    pub fn output_filename(&self) -> (r: String)
        ensures
            r@ == filename_for(self.title@),
    {
        let spaced = replace_char(self.title.as_str(), ' ', '_');
        let slashed = replace_char(spaced.as_str(), '/', '_');
        to_lowercase(slashed.as_str()).concat(".json")
    }
}

/// A dashboard wrapped for the import endpoint.
#[derive(Clone, Debug)]
pub struct ApiDashboard {
    pub dashboard: Dashboard,
    pub folder_id: i64,
    pub overwrite: bool,
}

impl ApiDashboard {
    /// Wraps a dashboard for import into a folder; an existing dashboard
    /// of the same name is always overwritten.
    pub fn new(dashboard: Dashboard, folder_id: i64) -> (r: ApiDashboard)
        ensures
            r.dashboard == dashboard,
            r.folder_id == folder_id,
            r.overwrite,
    {
        ApiDashboard { dashboard, folder_id, overwrite: true }
    }
}

/// The views of a list of dashboards, in order.
pub open spec fn dashboards_view(dashboards: Seq<Dashboard>) -> Seq<DashboardView> {
    dashboards.map_values(|d: Dashboard| d@)
}

/// The translation of a content pack: the translation of each of its
/// dashboards, in order.
pub open spec fn dashboards_for(pack: ContentPackView, opt: RenderOptions) -> Seq<DashboardView> {
    pack.dashboards.map_values(|d: SourceDashboardView| dashboard_for(d, opt))
}

/// Translates every dashboard of a content pack, in order.
pub fn translate_content_pack(pack: ContentPack, opt: &ApplicationArguments) -> (r: Vec<Dashboard>)
    requires
        pack@.is_translatable(),
    ensures
        dashboards_view(r@) == dashboards_for(pack@, opt@),
{
    let ghost source = pack@;
    let ContentPack { name: _, dashboards } = pack;
    let ghost sources = dashboards@;
    let mut translated: Vec<Dashboard> = Vec::new();
    for dash in iter: dashboards.into_iter()
        invariant
            iter.seq() == sources,
            source.dashboards == sources.map_values(|d: graylog::Dashboard| d@),
            source.is_translatable(),
            translated.len() == iter.index(),
            forall|j: int|
                0 <= j < iter.index() ==> (#[trigger] translated[j])@ == dashboard_for(
                    sources[j]@,
                    opt@,
                ),
    {
        assert(source.dashboards[iter.index() as int].is_translatable());
        translated.push(Dashboard::create_dashboard_from_graylog(dash, opt));
    }
    assert(dashboards_view(translated@) =~= dashboards_for(source, opt@));
    translated
}

} // verus!
