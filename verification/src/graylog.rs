//! The source model: a Graylog content pack, its dashboards and widgets.

use crate::text::owned;
use vstd::prelude::*;

verus! {

/// The view of an optional string.
pub open spec fn text_view(text: Option<String>) -> Option<Seq<char>> {
    match text {
        Some(s) => Some(s@),
        None => None,
    }
}

/// The kinds of widget a dashboard can hold.
#[derive(Clone, Copy, Debug, PartialEq, Eq, Structural)]
pub enum DashboardWidgetType {
    SearchResultCount,
    SearchResultChart,
    QuickValues,
    FieldChart,
    StackedChart,
    QuickValuesHistogram,
}

/// The visual style of a chart.
#[derive(Clone, Copy, Debug, PartialEq, Eq, Structural)]
pub enum ChartRenderer {
    Bar,
    Line,
    Area,
}

/// The granularity of a chart's time buckets.
#[derive(Clone, Copy, Debug, PartialEq, Eq, Structural)]
pub enum DashboardWidgetConfigSearchResultChartInterval {
    Week,
    Minute,
    Day,
    Hour,
}

impl DashboardWidgetConfigSearchResultChartInterval {
    /// The Grafana interval string for this granularity.
    pub open spec fn grafana_text(self) -> Seq<char> {
        match self {
            DashboardWidgetConfigSearchResultChartInterval::Week => "7d"@,
            DashboardWidgetConfigSearchResultChartInterval::Minute => "1m"@,
            DashboardWidgetConfigSearchResultChartInterval::Day => "1d"@,
            DashboardWidgetConfigSearchResultChartInterval::Hour => "1h"@,
        }
    }

    /// The Grafana interval string for this granularity: `"7d"`, `"1m"`,
    /// `"1d"` or `"1h"`.
    pub fn grafana(&self) -> (r: String)
        ensures
            r@ == self.grafana_text(),
    {
        match self {
            DashboardWidgetConfigSearchResultChartInterval::Week => owned("7d"),
            DashboardWidgetConfigSearchResultChartInterval::Minute => owned("1m"),
            DashboardWidgetConfigSearchResultChartInterval::Day => owned("1d"),
            DashboardWidgetConfigSearchResultChartInterval::Hour => owned("1h"),
        }
    }
}

/// A relative time range, in seconds.
#[derive(Clone, Copy, Debug, PartialEq, Eq, Structural)]
pub struct TimeRange {
    pub range: i64,
}

/// One series of a stacked chart.
#[derive(Clone, Debug)]
pub struct DashboardWidgetConfigStackedChartSerie {
    pub query: String,
    pub field: String,
    pub statistical_function: String,
}

/// The mathematical content of a [`DashboardWidgetConfigStackedChartSerie`].
pub struct SerieView {
    pub query: Seq<char>,
    pub field: Seq<char>,
    pub statistical_function: Seq<char>,
}

impl View for DashboardWidgetConfigStackedChartSerie {
    type V = SerieView;

    open spec fn view(&self) -> SerieView {
        SerieView {
            query: self.query@,
            field: self.field@,
            statistical_function: self.statistical_function@,
        }
    }
}

/// The views of a list of series, in order.
pub open spec fn series_view(series: Seq<DashboardWidgetConfigStackedChartSerie>) -> Seq<
    SerieView,
> {
    series.map_values(|s: DashboardWidgetConfigStackedChartSerie| s@)
}

/// The configuration of a widget. Which fields must be present depends on
/// the widget's kind, see [`DashboardWidgetView::is_complete`].
#[derive(Clone, Debug)]
pub struct DashboardWidgetConfiguration {
    pub query: Option<String>,
    pub valuetype: Option<String>,
    pub interval: Option<DashboardWidgetConfigSearchResultChartInterval>,
    pub renderer: Option<ChartRenderer>,
    pub field: Option<String>,
    pub series: Option<Vec<DashboardWidgetConfigStackedChartSerie>>,
    pub timerange: TimeRange,
    pub trend: Option<bool>,
    pub sort_order: Option<String>,
    pub limit: Option<i64>,
}

/// The mathematical content of a [`DashboardWidgetConfiguration`].
pub struct ConfigurationView {
    pub query: Option<Seq<char>>,
    pub valuetype: Option<Seq<char>>,
    pub interval: Option<DashboardWidgetConfigSearchResultChartInterval>,
    pub renderer: Option<ChartRenderer>,
    pub field: Option<Seq<char>>,
    pub series: Option<Seq<SerieView>>,
    pub range: int,
    pub trend: Option<bool>,
    pub sort_order: Option<Seq<char>>,
    pub limit: Option<int>,
}

impl View for DashboardWidgetConfiguration {
    type V = ConfigurationView;

    open spec fn view(&self) -> ConfigurationView {
        ConfigurationView {
            query: text_view(self.query),
            valuetype: text_view(self.valuetype),
            interval: self.interval,
            renderer: self.renderer,
            field: text_view(self.field),
            series: match self.series {
                Some(series) => Some(series_view(series@)),
                None => None,
            },
            range: self.timerange.range as int,
            trend: self.trend,
            sort_order: text_view(self.sort_order),
            limit: match self.limit {
                Some(limit) => Some(limit as int),
                None => None,
            },
        }
    }
}

/// A field of the configuration that some kind of widget cannot do
/// without.
#[derive(Clone, Copy, Debug, PartialEq, Eq, Structural)]
pub enum ConfigurationField {
    Query,
    Interval,
    Field,
    ValueType,
    Renderer,
    Series,
    Trend,
}

/// Why a widget has no checked form: its configuration lacks a field that
/// its kind reads.
#[derive(Clone, Copy, Debug, PartialEq, Eq, Structural)]
pub struct WidgetError {
    pub kind: DashboardWidgetType,
    pub missing: ConfigurationField,
}

/// What a widget of each kind is configured with: every variant holds the
/// fields that its kind reads, and no others.
#[derive(Clone, Debug)]
pub enum WidgetSettings {
    SearchResultCount { query: String, trend: bool, range: i64 },
    SearchResultChart { query: String, interval: DashboardWidgetConfigSearchResultChartInterval },
    QuickValues {
        query: String,
        field: String,
        sort_order: Option<String>,
        limit: Option<i64>,
        range: i64,
    },
    FieldChart {
        query: String,
        interval: DashboardWidgetConfigSearchResultChartInterval,
        field: String,
        valuetype: String,
        renderer: ChartRenderer,
    },
    StackedChart {
        interval: DashboardWidgetConfigSearchResultChartInterval,
        series: Vec<DashboardWidgetConfigStackedChartSerie>,
        renderer: ChartRenderer,
    },
    QuickValuesHistogram,
}

/// The mathematical content of a [`WidgetSettings`].
pub enum WidgetSettingsView {
    SearchResultCount { query: Seq<char>, trend: bool, range: int },
    SearchResultChart {
        query: Seq<char>,
        interval: DashboardWidgetConfigSearchResultChartInterval,
    },
    QuickValues {
        query: Seq<char>,
        field: Seq<char>,
        sort_order: Option<Seq<char>>,
        limit: Option<int>,
        range: int,
    },
    FieldChart {
        query: Seq<char>,
        interval: DashboardWidgetConfigSearchResultChartInterval,
        field: Seq<char>,
        valuetype: Seq<char>,
        renderer: ChartRenderer,
    },
    StackedChart {
        interval: DashboardWidgetConfigSearchResultChartInterval,
        series: Seq<SerieView>,
        renderer: ChartRenderer,
    },
    QuickValuesHistogram,
}

impl View for WidgetSettings {
    type V = WidgetSettingsView;

    open spec fn view(&self) -> WidgetSettingsView {
        match *self {
            WidgetSettings::SearchResultCount { query, trend, range } => {
                WidgetSettingsView::SearchResultCount { query: query@, trend, range: range as int }
            },
            WidgetSettings::SearchResultChart { query, interval } => {
                WidgetSettingsView::SearchResultChart { query: query@, interval }
            },
            WidgetSettings::QuickValues { query, field, sort_order, limit, range } => {
                WidgetSettingsView::QuickValues {
                    query: query@,
                    field: field@,
                    sort_order: text_view(sort_order),
                    limit: match limit {
                        Some(limit) => Some(limit as int),
                        None => None,
                    },
                    range: range as int,
                }
            },
            WidgetSettings::FieldChart { query, interval, field, valuetype, renderer } => {
                WidgetSettingsView::FieldChart {
                    query: query@,
                    interval,
                    field: field@,
                    valuetype: valuetype@,
                    renderer,
                }
            },
            WidgetSettings::StackedChart { interval, series, renderer } => {
                WidgetSettingsView::StackedChart {
                    interval,
                    series: series_view(series@),
                    renderer,
                }
            },
            WidgetSettings::QuickValuesHistogram => WidgetSettingsView::QuickValuesHistogram,
        }
    }
}

/// A checked widget: its settings by kind, and its place in the
/// dashboard's grid, in grid units counted from one.
#[derive(Clone, Debug)]
pub struct SourceWidget {
    pub description: String,
    pub settings: WidgetSettings,
    pub row: i64,
    pub col: i64,
    pub height: i64,
    pub width: i64,
}

/// The mathematical content of a [`SourceWidget`].
pub struct SourceWidgetView {
    pub description: Seq<char>,
    pub settings: WidgetSettingsView,
    pub row: int,
    pub col: int,
    pub height: int,
    pub width: int,
}

/// Whether the grid position scaled from these source coordinates fits
/// the 64-bit fields of the target schema.
pub open spec fn layout_fits(row: int, col: int, width: int, height: int) -> bool {
    &&& i64::MIN <= height * 6 <= i64::MAX
    &&& i64::MIN <= width * 5 <= i64::MAX
    &&& i64::MIN <= row * 6 <= i64::MAX
    &&& i64::MIN <= (col - 1) * 5 <= i64::MAX
}

impl SourceWidgetView {
    /// Whether the widget is of a kind that has a panel.
    pub open spec fn is_supported(self) -> bool {
        !(self.settings is QuickValuesHistogram)
    }

    /// Whether the scaled grid position fits the target schema.
    pub open spec fn layout_in_range(self) -> bool {
        layout_fits(self.row, self.col, self.width, self.height)
    }
}

impl View for SourceWidget {
    type V = SourceWidgetView;

    open spec fn view(&self) -> SourceWidgetView {
        SourceWidgetView {
            description: self.description@,
            settings: self.settings@,
            row: self.row as int,
            col: self.col as int,
            height: self.height as int,
            width: self.width as int,
        }
    }
}

/// A widget of a source dashboard: its kind, its configuration and its
/// place in the dashboard's grid, in grid units counted from one.
#[derive(Clone, Debug)]
pub struct DashboardWidget {
    pub description: String,
    pub kind: DashboardWidgetType,
    pub configuration: DashboardWidgetConfiguration,
    pub row: i64,
    pub col: i64,
    pub height: i64,
    pub width: i64,
}

/// The mathematical content of a [`DashboardWidget`].
pub struct DashboardWidgetView {
    pub description: Seq<char>,
    pub kind: DashboardWidgetType,
    pub configuration: ConfigurationView,
    pub row: int,
    pub col: int,
    pub height: int,
    pub width: int,
}

impl DashboardWidgetView {
    /// Whether the widget is of a kind that has a panel.
    pub open spec fn is_supported(self) -> bool {
        self.kind != DashboardWidgetType::QuickValuesHistogram
    }

    /// The first field, in the order in which the widget's kind reads them,
    /// that the configuration lacks; none if it lacks none.
    pub open spec fn missing_field(self) -> Option<ConfigurationField> {
        let c = self.configuration;
        match self.kind {
            DashboardWidgetType::FieldChart => if c.query is None {
                Some(ConfigurationField::Query)
            } else if c.interval is None {
                Some(ConfigurationField::Interval)
            } else if c.field is None {
                Some(ConfigurationField::Field)
            } else if c.valuetype is None {
                Some(ConfigurationField::ValueType)
            } else if c.renderer is None {
                Some(ConfigurationField::Renderer)
            } else {
                None
            },
            DashboardWidgetType::StackedChart => if c.interval is None {
                Some(ConfigurationField::Interval)
            } else if c.series is None {
                Some(ConfigurationField::Series)
            } else if c.renderer is None {
                Some(ConfigurationField::Renderer)
            } else {
                None
            },
            DashboardWidgetType::SearchResultCount => if c.query is None {
                Some(ConfigurationField::Query)
            } else if c.trend is None {
                Some(ConfigurationField::Trend)
            } else {
                None
            },
            DashboardWidgetType::SearchResultChart => if c.query is None {
                Some(ConfigurationField::Query)
            } else if c.interval is None {
                Some(ConfigurationField::Interval)
            } else {
                None
            },
            DashboardWidgetType::QuickValues => if c.query is None {
                Some(ConfigurationField::Query)
            } else if c.field is None {
                Some(ConfigurationField::Field)
            } else {
                None
            },
            DashboardWidgetType::QuickValuesHistogram => None,
        }
    }

    /// Whether the configuration holds every field that the widget's kind
    /// reads.
    pub open spec fn is_complete(self) -> bool {
        self.missing_field() is None
    }

    /// The settings of a complete widget, by its kind.
    pub open spec fn settings(self) -> WidgetSettingsView {
        let c = self.configuration;
        match self.kind {
            DashboardWidgetType::FieldChart => WidgetSettingsView::FieldChart {
                query: c.query->0,
                interval: c.interval->0,
                field: c.field->0,
                valuetype: c.valuetype->0,
                renderer: c.renderer->0,
            },
            DashboardWidgetType::StackedChart => WidgetSettingsView::StackedChart {
                interval: c.interval->0,
                series: c.series->0,
                renderer: c.renderer->0,
            },
            DashboardWidgetType::SearchResultCount => WidgetSettingsView::SearchResultCount {
                query: c.query->0,
                trend: c.trend->0,
                range: c.range,
            },
            DashboardWidgetType::SearchResultChart => WidgetSettingsView::SearchResultChart {
                query: c.query->0,
                interval: c.interval->0,
            },
            DashboardWidgetType::QuickValues => WidgetSettingsView::QuickValues {
                query: c.query->0,
                field: c.field->0,
                sort_order: c.sort_order,
                limit: c.limit,
                range: c.range,
            },
            DashboardWidgetType::QuickValuesHistogram => WidgetSettingsView::QuickValuesHistogram,
        }
    }

    /// The checked form of a complete widget.
    pub open spec fn source(self) -> SourceWidgetView {
        SourceWidgetView {
            description: self.description,
            settings: self.settings(),
            row: self.row,
            col: self.col,
            height: self.height,
            width: self.width,
        }
    }

    /// Whether the scaled grid position fits the 64-bit fields of the
    /// target schema.
    pub open spec fn layout_in_range(self) -> bool {
        layout_fits(self.row, self.col, self.width, self.height)
    }

    /// Whether the widget can be translated: an unsupported widget always
    /// can (it is skipped); any other must be complete and fit the grid.
    pub open spec fn is_translatable(self) -> bool {
        self.is_supported() ==> self.is_complete() && self.layout_in_range()
    }
}

impl View for DashboardWidget {
    type V = DashboardWidgetView;

    open spec fn view(&self) -> DashboardWidgetView {
        DashboardWidgetView {
            description: self.description@,
            kind: self.kind,
            configuration: self.configuration@,
            row: self.row as int,
            col: self.col as int,
            height: self.height as int,
            width: self.width as int,
        }
    }
}

impl DashboardWidget {
    /// The first field, in the order in which the widget's kind reads them,
    /// that the configuration lacks; none if it lacks none.
    pub fn missing_field(&self) -> (r: Option<ConfigurationField>)
        ensures
            r == self@.missing_field(),
    {
        let c = &self.configuration;
        match self.kind {
            DashboardWidgetType::FieldChart => if c.query.is_none() {
                Some(ConfigurationField::Query)
            } else if c.interval.is_none() {
                Some(ConfigurationField::Interval)
            } else if c.field.is_none() {
                Some(ConfigurationField::Field)
            } else if c.valuetype.is_none() {
                Some(ConfigurationField::ValueType)
            } else if c.renderer.is_none() {
                Some(ConfigurationField::Renderer)
            } else {
                None
            },
            DashboardWidgetType::StackedChart => if c.interval.is_none() {
                Some(ConfigurationField::Interval)
            } else if c.series.is_none() {
                Some(ConfigurationField::Series)
            } else if c.renderer.is_none() {
                Some(ConfigurationField::Renderer)
            } else {
                None
            },
            DashboardWidgetType::SearchResultCount => if c.query.is_none() {
                Some(ConfigurationField::Query)
            } else if c.trend.is_none() {
                Some(ConfigurationField::Trend)
            } else {
                None
            },
            DashboardWidgetType::SearchResultChart => if c.query.is_none() {
                Some(ConfigurationField::Query)
            } else if c.interval.is_none() {
                Some(ConfigurationField::Interval)
            } else {
                None
            },
            DashboardWidgetType::QuickValues => if c.query.is_none() {
                Some(ConfigurationField::Query)
            } else if c.field.is_none() {
                Some(ConfigurationField::Field)
            } else {
                None
            },
            DashboardWidgetType::QuickValuesHistogram => None,
        }
    }

    /// Tells whether the configuration holds every field that the widget's
    /// kind reads.
    pub fn is_complete(&self) -> (b: bool)
        ensures
            b == self@.is_complete(),
    {
        self.missing_field().is_none()
    }

    /// Checks the widget: a complete widget gives its checked form, an
    /// incomplete one the first field that it lacks.
    pub fn into_source(self) -> (r: Result<SourceWidget, WidgetError>)
        ensures
            r is Ok <==> self@.is_complete(),
            r is Ok ==> r->Ok_0@ == self@.source(),
            r is Err ==> r->Err_0.kind == self.kind && self@.missing_field() == Some(
                r->Err_0.missing,
            ),
    {
        match self.missing_field() {
            Some(missing) => {
                return Err(WidgetError { kind: self.kind, missing });
            },
            None => {},
        }
        let DashboardWidget { description, kind, configuration, row, col, height, width } = self;
        let DashboardWidgetConfiguration {
            query,
            valuetype,
            interval,
            renderer,
            field,
            series,
            timerange,
            trend,
            sort_order,
            limit,
        } = configuration;
        let settings = match kind {
            DashboardWidgetType::FieldChart => WidgetSettings::FieldChart {
                query: query.unwrap(),
                interval: interval.unwrap(),
                field: field.unwrap(),
                valuetype: valuetype.unwrap(),
                renderer: renderer.unwrap(),
            },
            DashboardWidgetType::StackedChart => WidgetSettings::StackedChart {
                interval: interval.unwrap(),
                series: series.unwrap(),
                renderer: renderer.unwrap(),
            },
            DashboardWidgetType::SearchResultCount => WidgetSettings::SearchResultCount {
                query: query.unwrap(),
                trend: trend.unwrap(),
                range: timerange.range,
            },
            DashboardWidgetType::SearchResultChart => WidgetSettings::SearchResultChart {
                query: query.unwrap(),
                interval: interval.unwrap(),
            },
            DashboardWidgetType::QuickValues => WidgetSettings::QuickValues {
                query: query.unwrap(),
                field: field.unwrap(),
                sort_order,
                limit,
                range: timerange.range,
            },
            DashboardWidgetType::QuickValuesHistogram => WidgetSettings::QuickValuesHistogram,
        };
        Ok(SourceWidget { description, settings, row, col, height, width })
    }

    /// Tells whether the scaled grid position fits the target schema.
    pub fn layout_in_range(&self) -> (b: bool)
        ensures
            b == self@.layout_in_range(),
    {
        -1537228672809129301 <= self.height && self.height <= 1537228672809129301
            && -1844674407370955161 <= self.width && self.width <= 1844674407370955161
            && -1537228672809129301 <= self.row && self.row <= 1537228672809129301
            && -1844674407370955160 <= self.col && self.col <= 1844674407370955162
    }

    /// Tells whether the widget can be translated.
    pub fn is_translatable(&self) -> (b: bool)
        ensures
            b == self@.is_translatable(),
    {
        match self.kind {
            DashboardWidgetType::QuickValuesHistogram => true,
            _ => self.is_complete() && self.layout_in_range(),
        }
    }
}

/// The views of a list of widgets, in order.
pub open spec fn widgets_view(widgets: Seq<DashboardWidget>) -> Seq<DashboardWidgetView> {
    widgets.map_values(|w: DashboardWidget| w@)
}

/// A source dashboard: a title, a description and its widgets in order.
#[derive(Clone, Debug)]
pub struct Dashboard {
    pub title: String,
    pub description: String,
    pub dashboard_widgets: Vec<DashboardWidget>,
}

/// The mathematical content of a source [`Dashboard`].
pub struct SourceDashboardView {
    pub title: Seq<char>,
    pub description: Seq<char>,
    pub widgets: Seq<DashboardWidgetView>,
}

impl SourceDashboardView {
    /// Whether every widget of the dashboard can be translated.
    pub open spec fn is_translatable(self) -> bool {
        forall|i: int|
            0 <= i < self.widgets.len() ==> (#[trigger] self.widgets[i]).is_translatable()
    }
}

impl View for Dashboard {
    type V = SourceDashboardView;

    open spec fn view(&self) -> SourceDashboardView {
        SourceDashboardView {
            title: self.title@,
            description: self.description@,
            widgets: widgets_view(self.dashboard_widgets@),
        }
    }
}

impl Dashboard {
    /// Tells whether every widget of the dashboard can be translated.
    pub fn is_translatable(&self) -> (b: bool)
        ensures
            b == self@.is_translatable(),
    {
        let mut i: usize = 0;
        while i < self.dashboard_widgets.len()
            invariant
                i <= self.dashboard_widgets.len(),
                forall|j: int| 0 <= j < i ==> (#[trigger] self@.widgets[j]).is_translatable(),
            decreases self.dashboard_widgets.len() - i,
        {
            if !self.dashboard_widgets[i].is_translatable() {
                assert(!self@.widgets[i as int].is_translatable());
                return false;
            }
            i = i + 1;
        }
        true
    }
}

/// A content pack: a name and its dashboards in order.
#[derive(Clone, Debug)]
pub struct ContentPack {
    pub name: String,
    pub dashboards: Vec<Dashboard>,
}

/// The mathematical content of a [`ContentPack`].
pub struct ContentPackView {
    pub name: Seq<char>,
    pub dashboards: Seq<SourceDashboardView>,
}

impl ContentPackView {
    /// Whether every dashboard of the pack can be translated.
    pub open spec fn is_translatable(self) -> bool {
        forall|i: int|
            0 <= i < self.dashboards.len() ==> (#[trigger] self.dashboards[i]).is_translatable()
    }
}

impl View for ContentPack {
    type V = ContentPackView;

    open spec fn view(&self) -> ContentPackView {
        ContentPackView {
            name: self.name@,
            dashboards: self.dashboards@.map_values(|d: Dashboard| d@),
        }
    }
}

impl ContentPack {
    /// Tells whether every dashboard of the pack can be translated.
    pub fn is_translatable(&self) -> (b: bool)
        ensures
            b == self@.is_translatable(),
    {
        let mut i: usize = 0;
        while i < self.dashboards.len()
            invariant
                i <= self.dashboards.len(),
                forall|j: int| 0 <= j < i ==> (#[trigger] self@.dashboards[j]).is_translatable(),
            decreases self.dashboards.len() - i,
        {
            if !self.dashboards[i].is_translatable() {
                assert(!self@.dashboards[i as int].is_translatable());
                return false;
            }
            i = i + 1;
        }
        true
    }
}

} // verus!
