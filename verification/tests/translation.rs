use graylog_to_grafana::grafana::{
    translate_content_pack, ApiDashboard, Dashboard, GridPos, Link, Panel, PanelType, Sparkline,
};
use graylog_to_grafana::graylog;
use graylog_to_grafana::graylog::{
    ChartRenderer, ConfigurationField, ContentPack, DashboardWidget,
    DashboardWidgetConfigSearchResultChartInterval, DashboardWidgetConfigStackedChartSerie,
    DashboardWidgetConfiguration, DashboardWidgetType, SourceWidget, TimeRange, WidgetError,
    WidgetSettings,
};
use graylog_to_grafana::options::{
    AddArguments, ApplicationArguments, Command, GenerateArguments,
};

fn options(graylog_url: Option<&str>) -> ApplicationArguments {
    ApplicationArguments {
        input: "pack.json".to_string(),
        datasource: "graylog".to_string(),
        graylog_url: graylog_url.map(|u| u.to_string()),
        command: Command::Generate(GenerateArguments { output: "out".to_string() }),
    }
}

fn empty_configuration() -> DashboardWidgetConfiguration {
    DashboardWidgetConfiguration {
        query: None,
        valuetype: None,
        interval: None,
        renderer: None,
        field: None,
        series: None,
        timerange: TimeRange { range: 28800 },
        trend: None,
        sort_order: None,
        limit: None,
    }
}

fn widget(kind: DashboardWidgetType, configuration: DashboardWidgetConfiguration) -> DashboardWidget {
    DashboardWidget {
        description: "A widget".to_string(),
        kind,
        configuration,
        row: 2,
        col: 3,
        height: 2,
        width: 4,
    }
}

fn field_chart(renderer: ChartRenderer, valuetype: &str) -> DashboardWidget {
    let mut c = empty_configuration();
    c.query = Some("level:3".to_string());
    c.interval = Some(DashboardWidgetConfigSearchResultChartInterval::Hour);
    c.field = Some("took_ms".to_string());
    c.valuetype = Some(valuetype.to_string());
    c.renderer = Some(renderer);
    widget(DashboardWidgetType::FieldChart, c)
}

fn stacked_chart() -> DashboardWidget {
    let mut c = empty_configuration();
    c.interval = Some(DashboardWidgetConfigSearchResultChartInterval::Day);
    c.renderer = Some(ChartRenderer::Area);
    c.series = Some(vec![
        DashboardWidgetConfigStackedChartSerie {
            query: "a:1".to_string(),
            field: "f1".to_string(),
            statistical_function: "count".to_string(),
        },
        DashboardWidgetConfigStackedChartSerie {
            query: "b:2".to_string(),
            field: "f2".to_string(),
            statistical_function: "mean".to_string(),
        },
        DashboardWidgetConfigStackedChartSerie {
            query: "c:3".to_string(),
            field: "f3".to_string(),
            statistical_function: "total".to_string(),
        },
    ]);
    widget(DashboardWidgetType::StackedChart, c)
}

fn result_count(trend: bool) -> DashboardWidget {
    let mut c = empty_configuration();
    c.query = Some("q=1 AND b".to_string());
    c.trend = Some(trend);
    widget(DashboardWidgetType::SearchResultCount, c)
}

fn result_chart() -> DashboardWidget {
    let mut c = empty_configuration();
    c.query = Some("*".to_string());
    c.interval = Some(DashboardWidgetConfigSearchResultChartInterval::Minute);
    c.renderer = Some(ChartRenderer::Line);
    widget(DashboardWidgetType::SearchResultChart, c)
}

fn quick_values() -> DashboardWidget {
    let mut c = empty_configuration();
    c.query = Some("source:web".to_string());
    c.field = Some("http_response_code".to_string());
    c.limit = Some(8);
    widget(DashboardWidgetType::QuickValues, c)
}

fn histogram(description: &str) -> DashboardWidget {
    let mut w = widget(DashboardWidgetType::QuickValuesHistogram, empty_configuration());
    w.description = description.to_string();
    w
}

fn source_dashboard() -> graylog::Dashboard {
    graylog::Dashboard {
        title: "My Report".to_string(),
        description: "All kinds".to_string(),
        dashboard_widgets: vec![
            histogram("first"),
            field_chart(ChartRenderer::Bar, "mean"),
            stacked_chart(),
            histogram("second"),
            result_count(true),
            result_chart(),
            quick_values(),
            histogram("third"),
        ],
    }
}

#[test]
fn layout_scales_rows_by_six_and_columns_by_five() {
    let pos = GridPos::new(2, 3, 4, 2);

    assert_eq!(10, pos.x);
    assert_eq!(12, pos.y);
    assert_eq!(20, pos.w);
    assert_eq!(12, pos.h);
    assert_eq!(GridPos { h: 12, w: 20, y: 12, x: 10 }, pos);
}

#[test]
fn layout_passes_non_positive_values_through() {
    let pos = GridPos::new(0, 0, -1, -2);

    assert_eq!(GridPos { h: -12, w: -5, y: 0, x: -5 }, pos);
}

#[test]
fn layout_of_a_widget() {
    let w = field_chart(ChartRenderer::Bar, "mean");
    assert!(w.layout_in_range());
    let source = w.into_source().unwrap();

    assert_eq!(GridPos { h: 12, w: 20, y: 12, x: 10 }, GridPos::new_with_widget(&source));
}

#[test]
fn layout_range_limits() {
    let mut w = field_chart(ChartRenderer::Bar, "mean");
    w.height = i64::MAX / 6;
    w.row = i64::MIN / 6;
    w.width = i64::MAX / 5;
    w.col = i64::MAX / 5 + 1;
    assert!(w.layout_in_range());
    let pos = GridPos::new_with_widget(&w.clone().into_source().unwrap());
    assert_eq!((i64::MAX / 6) * 6, pos.h);
    assert_eq!((i64::MAX / 5) * 5, pos.x);

    w.height = i64::MAX / 6 + 1;
    assert!(!w.layout_in_range());
    assert!(!w.is_translatable());
    w.height = 1;
    w.col = i64::MIN;
    assert!(!w.layout_in_range());
    w.col = i64::MIN / 5 + 1;
    assert!(w.layout_in_range());
    w.col = i64::MIN / 5;
    assert!(!w.layout_in_range());
    w.col = i64::MAX / 5 + 2;
    assert!(!w.layout_in_range());
    w.col = 1;
    w.width = i64::MIN / 5 - 1;
    assert!(!w.layout_in_range());
    w.width = 1;
    w.row = i64::MIN / 6 - 1;
    assert!(!w.layout_in_range());
}

#[test]
fn interval_strings() {
    assert_eq!("7d", DashboardWidgetConfigSearchResultChartInterval::Week.grafana());
    assert_eq!("1m", DashboardWidgetConfigSearchResultChartInterval::Minute.grafana());
    assert_eq!("1d", DashboardWidgetConfigSearchResultChartInterval::Day.grafana());
    assert_eq!("1h", DashboardWidgetConfigSearchResultChartInterval::Hour.grafana());
}

#[test]
fn sparkline_follows_trend() {
    let shown = Sparkline::new(true);
    assert!(shown.show);
    assert!(!shown.full);
    assert_eq!("rgb(31, 120, 193)", shown.line_color);
    assert_eq!("rgba(31, 118, 189, 0.18)", shown.fill_color);
    assert!(!Sparkline::new(false).show);
}

#[test]
fn link_url_is_encoded() {
    let link = Link::new("http://graylog.example", "q=1 AND b", 300);

    assert_eq!("Go to Graylog", link.title);
    assert_eq!("absolute", link.kind);
    assert!(link.target_blank);
    assert_eq!(
        "http://graylog.example/search?rangetype=relative&fields=message%2Csource&width=1920\
         &highlightMessage=&relative=300&q=q%3D1+AND+b",
        link.url
    );
}

#[test]
fn link_query_round_trips() {
    let query = "q=1 AND b";
    let link = Link::new("http://graylog.example", query, 7200);

    let (_, encoded) = link.url.split_once("/search?").unwrap();
    let q_raw = encoded.split('&').find(|p| p.starts_with("q=")).unwrap();
    assert_ne!(format!("q={}", query), q_raw);
    assert!(!q_raw[2..].contains(' '));
    assert!(!q_raw[2..].contains('='));

    let pairs: Vec<(String, String)> =
        url::form_urlencoded::parse(encoded.as_bytes()).into_owned().collect();
    let expected: Vec<(String, String)> = vec![
        ("rangetype".to_string(), "relative".to_string()),
        ("fields".to_string(), "message,source".to_string()),
        ("width".to_string(), "1920".to_string()),
        ("highlightMessage".to_string(), "".to_string()),
        ("relative".to_string(), "7200".to_string()),
        ("q".to_string(), query.to_string()),
    ];
    assert_eq!(expected, pairs);
}

#[test]
fn link_round_trips_reserved_and_non_ascii_text() {
    for query in ["", "a&b=c", "source:\"web 1\" AND took_ms:>100", "été + hiver?", "100%"] {
        let link = Link::new("base", query, -5);
        let (_, encoded) = link.url.split_once("/search?").unwrap();
        let pairs: Vec<(String, String)> =
            url::form_urlencoded::parse(encoded.as_bytes()).into_owned().collect();
        assert_eq!(6, pairs.len());
        assert_eq!(("relative".to_string(), "-5".to_string()), pairs[4]);
        assert_eq!(("q".to_string(), query.to_string()), pairs[5]);
    }
}

#[test]
fn graph_flags_follow_renderer() {
    let cases = [
        (ChartRenderer::Bar, true, false, false),
        (ChartRenderer::Line, false, true, false),
        (ChartRenderer::Area, false, true, true),
    ];
    for (renderer, bars, lines, points) in cases {
        let panel = Panel::new_graph(
            "t".to_string(),
            vec![],
            renderer,
            GridPos::new(1, 1, 1, 1),
            &options(Some("http://g")),
        );
        assert_eq!(PanelType::Graph, panel.kind);
        assert_eq!(Some(bars), panel.bars);
        assert_eq!(Some(lines), panel.lines);
        assert_eq!(Some(points), panel.points);
        assert!(panel.sparkline.is_none());
        assert_eq!(None, panel.value_name);
        assert_eq!(None, panel.time_from);
        assert!(panel.links.is_empty());
        assert_eq!("graylog", panel.datasource);
    }
}

#[test]
fn value_panel_has_total_window_and_link() {
    let panel = Panel::new(
        "t".to_string(),
        PanelType::PieChart,
        "a b",
        None,
        vec![],
        GridPos::new(1, 1, 1, 1),
        7300,
        &options(Some("http://g")),
    );

    assert_eq!(PanelType::PieChart, panel.kind);
    assert_eq!(Some("total".to_string()), panel.value_name);
    assert_eq!(Some("2h".to_string()), panel.time_from);
    assert_eq!(None, panel.bars);
    assert_eq!(None, panel.lines);
    assert_eq!(None, panel.points);
    assert_eq!(1, panel.links.len());
    assert_eq!(Link::new("http://g", "a b", 7300).url, panel.links[0].url);
    assert!(panel.links[0].url.ends_with("&relative=7300&q=a+b"));
}

#[test]
fn value_panel_without_base_url_has_no_link() {
    let panel = Panel::new(
        "t".to_string(),
        PanelType::SingleStat,
        "a",
        Some(Sparkline::new(true)),
        vec![],
        GridPos::new(1, 1, 1, 1),
        -7300,
        &options(None),
    );

    assert!(panel.links.is_empty());
    assert_eq!(Some("-2h".to_string()), panel.time_from);
    assert!(panel.sparkline.unwrap().show);
}

#[test]
fn field_chart_becomes_graph() {
    let panel =
        Panel::create_panel(field_chart(ChartRenderer::Line, "mean"), &options(None)).unwrap();

    assert_eq!(PanelType::Graph, panel.kind);
    assert_eq!("A widget", panel.title);
    assert_eq!(GridPos { h: 12, w: 20, y: 12, x: 10 }, panel.grid_pos);
    assert_eq!(Some(false), panel.bars);
    assert_eq!(Some(true), panel.lines);
    assert_eq!(1, panel.targets.len());
    let target = &panel.targets[0];
    assert_eq!("A", target.ref_id);
    assert_eq!("level:3", target.query);
    assert_eq!("sum", target.metrics[0].kind);
    assert_eq!("took_ms", target.metrics[0].field);
    assert_eq!(Some("1h".to_string()), target.bucket_aggs[0].settings.interval);
}

#[test]
fn stacked_chart_has_one_target_per_series() {
    let panel = Panel::create_panel(stacked_chart(), &options(None)).unwrap();

    assert_eq!(PanelType::Graph, panel.kind);
    assert_eq!(Some(true), panel.points);
    assert_eq!(3, panel.targets.len());
    let queries: Vec<&str> = panel.targets.iter().map(|t| t.query.as_str()).collect();
    assert_eq!(vec!["a:1", "b:2", "c:3"], queries);
    let kinds: Vec<&str> = panel.targets.iter().map(|t| t.metrics[0].kind.as_str()).collect();
    assert_eq!(vec!["count", "sum", "sum"], kinds);
    let fields: Vec<&str> = panel.targets.iter().map(|t| t.metrics[0].field.as_str()).collect();
    assert_eq!(vec!["f1", "f2", "f3"], fields);
    for target in &panel.targets {
        assert_eq!("A", target.ref_id);
        assert_eq!(Some("1d".to_string()), target.bucket_aggs[0].settings.interval);
    }
}

#[test]
fn stacked_chart_without_series_has_no_target() {
    let mut w = stacked_chart();
    w.configuration.series = Some(vec![]);
    let panel = Panel::create_panel(w, &options(None)).unwrap();

    assert!(panel.targets.is_empty());
}

#[test]
fn search_result_chart_is_a_bar_graph_of_counts() {
    let panel = Panel::create_panel(result_chart(), &options(None)).unwrap();

    assert_eq!(PanelType::Graph, panel.kind);
    assert_eq!(Some(true), panel.bars);
    assert_eq!(Some(false), panel.lines);
    assert_eq!(Some(false), panel.points);
    assert_eq!("count", panel.targets[0].metrics[0].kind);
    assert_eq!("select field", panel.targets[0].metrics[0].field);
    assert_eq!(Some("1m".to_string()), panel.targets[0].bucket_aggs[0].settings.interval);
}

#[test]
fn search_result_count_is_a_single_stat() {
    for trend in [true, false] {
        let panel =
            Panel::create_panel(result_count(trend), &options(Some("http://g"))).unwrap();

        assert_eq!(PanelType::SingleStat, panel.kind);
        assert_eq!(trend, panel.sparkline.unwrap().show);
        assert_eq!(Some("total".to_string()), panel.value_name);
        assert_eq!(Some("8h".to_string()), panel.time_from);
        assert_eq!("count", panel.targets[0].metrics[0].kind);
        assert_eq!(Some("1m".to_string()), panel.targets[0].bucket_aggs[0].settings.interval);
        assert_eq!(1, panel.links.len());
        assert!(panel.links[0].url.ends_with("&relative=28800&q=q%3D1+AND+b"));
    }
}

#[test]
fn quick_values_is_a_pie_chart() {
    let panel = Panel::create_panel(quick_values(), &options(None)).unwrap();

    assert_eq!(PanelType::PieChart, panel.kind);
    assert!(panel.sparkline.is_none());
    assert_eq!(Some("8h".to_string()), panel.time_from);
    assert_eq!(1, panel.targets.len());
    let target = &panel.targets[0];
    assert_eq!(None, target.alias);
    assert_eq!(2, target.bucket_aggs.len());
    assert_eq!("http_response_code", target.bucket_aggs[0].field);
    assert_eq!(8, target.bucket_aggs[0].settings.min_doc_count);
    assert_eq!(Some("desc".to_string()), target.bucket_aggs[0].settings.order);
}

#[test]
fn quick_values_histogram_has_no_panel_but_a_warning() {
    let w = histogram("Response codes over time");

    assert!(w.is_translatable());
    assert_eq!(
        Some("Not Supported QuickValuesHistogram graph: Response codes over time".to_string()),
        Panel::unsupported_warning(&w)
    );
    assert!(Panel::create_panel(w, &options(None)).is_none());
}

#[test]
fn supported_widgets_have_no_warning() {
    for w in [
        field_chart(ChartRenderer::Bar, "count"),
        stacked_chart(),
        result_count(false),
        result_chart(),
        quick_values(),
    ] {
        assert_eq!(None, Panel::unsupported_warning(&w));
        assert!(w.is_complete());
        assert!(w.is_translatable());
    }
}

#[test]
fn incomplete_widgets_are_recognised() {
    let kinds = [
        DashboardWidgetType::FieldChart,
        DashboardWidgetType::StackedChart,
        DashboardWidgetType::SearchResultCount,
        DashboardWidgetType::SearchResultChart,
        DashboardWidgetType::QuickValues,
    ];
    for kind in kinds {
        let w = widget(kind, empty_configuration());
        assert!(!w.is_complete());
        assert!(!w.is_translatable());
    }
    let mut w = field_chart(ChartRenderer::Bar, "count");
    w.configuration.renderer = None;
    assert!(!w.is_complete());
    let mut w = quick_values();
    w.configuration.field = None;
    assert!(!w.is_complete());
    let mut w = result_count(true);
    w.configuration.trend = None;
    assert!(!w.is_complete());
    assert!(widget(DashboardWidgetType::QuickValuesHistogram, empty_configuration()).is_complete());
}

#[test]
fn dashboard_drops_unsupported_widgets_and_keeps_order() {
    let source = source_dashboard();
    assert!(source.is_translatable());
    let warnings = Dashboard::unsupported_warnings(&source);
    let dashboard = Dashboard::create_dashboard_from_graylog(source, &options(None));

    assert_eq!("My Report", dashboard.title);
    assert_eq!("now-2d", dashboard.time.from);
    assert_eq!("now", dashboard.time.to);
    let kinds: Vec<PanelType> = dashboard.panels.iter().map(|p| p.kind).collect();
    assert_eq!(
        vec![
            PanelType::Graph,
            PanelType::Graph,
            PanelType::SingleStat,
            PanelType::Graph,
            PanelType::PieChart
        ],
        kinds
    );
    assert_eq!(3, dashboard.panels[1].targets.len());
    assert_eq!(
        vec![
            "Not Supported QuickValuesHistogram graph: first".to_string(),
            "Not Supported QuickValuesHistogram graph: second".to_string(),
            "Not Supported QuickValuesHistogram graph: third".to_string(),
        ],
        warnings
    );
    assert_eq!(8, dashboard.panels.len() + warnings.len());
}

#[test]
fn dashboard_of_only_unsupported_widgets_is_empty() {
    let source = graylog::Dashboard {
        title: "t".to_string(),
        description: "d".to_string(),
        dashboard_widgets: vec![histogram("a"), histogram("b")],
    };
    let dashboard = Dashboard::create_dashboard_from_graylog(source, &options(None));

    assert!(dashboard.panels.is_empty());
}

#[test]
fn dashboard_with_incomplete_widget_is_not_translatable() {
    let mut source = source_dashboard();
    source.dashboard_widgets[4].configuration.query = None;

    assert!(!source.is_translatable());
    let pack = ContentPack { name: "p".to_string(), dashboards: vec![source_dashboard(), source] };
    assert!(!pack.is_translatable());
}

#[test]
fn translating_twice_gives_the_same_dashboards() {
    let pack = ContentPack {
        name: "pack".to_string(),
        dashboards: vec![source_dashboard(), source_dashboard()],
    };
    assert!(pack.is_translatable());
    let opt = options(Some("http://graylog.example"));

    let first = translate_content_pack(pack.clone(), &opt);
    let second = translate_content_pack(pack, &opt);

    assert_eq!(2, first.len());
    assert_eq!(5, first[0].panels.len());
    assert_eq!(format!("{:?}", first), format!("{:?}", second));
}

#[test]
fn output_filenames() {
    let mut dashboard = Dashboard::create_dashboard_from_graylog(source_dashboard(), &options(None));
    assert_eq!("my_report.json", dashboard.output_filename());
    dashboard.title = "A/B Test".to_string();
    assert_eq!("a_b_test.json", dashboard.output_filename());
    dashboard.title = "".to_string();
    assert_eq!(".json", dashboard.output_filename());
    dashboard.title = "ÉTÉ / Hiver".to_string();
    assert_eq!("été___hiver.json", dashboard.output_filename());
}

#[test]
fn api_dashboard_always_overwrites() {
    let dashboard = Dashboard::create_dashboard_from_graylog(source_dashboard(), &options(None));
    let api = ApiDashboard::new(dashboard, 17);

    assert_eq!(17, api.folder_id);
    assert!(api.overwrite);
    assert_eq!("My Report", api.dashboard.title);
    assert_eq!(5, api.dashboard.panels.len());
}

#[test]
fn upload_endpoint_and_authorization() {
    let add = AddArguments {
        url: "http://grafana.example".to_string(),
        token: "SECRET".to_string(),
        folder: 0,
    };

    assert_eq!("http://grafana.example/api/dashboards/db/", add.endpoint());
    assert_eq!("Bearer SECRET", add.authorization());
}

#[test]
fn checked_form_keeps_what_the_kind_reads() {
    let source = field_chart(ChartRenderer::Area, "mean").into_source().unwrap();
    assert_eq!("A widget", source.description);
    assert_eq!((2, 3, 2, 4), (source.row, source.col, source.height, source.width));
    match source.settings {
        WidgetSettings::FieldChart { query, interval, field, valuetype, renderer } => {
            assert_eq!("level:3", query);
            assert_eq!(DashboardWidgetConfigSearchResultChartInterval::Hour, interval);
            assert_eq!("took_ms", field);
            assert_eq!("mean", valuetype);
            assert_eq!(ChartRenderer::Area, renderer);
        }
        other => panic!("unexpected settings {:?}", other),
    }

    match quick_values().into_source().unwrap().settings {
        WidgetSettings::QuickValues { query, field, sort_order, limit, range } => {
            assert_eq!("source:web", query);
            assert_eq!("http_response_code", field);
            assert_eq!(None, sort_order);
            assert_eq!(Some(8), limit);
            assert_eq!(28800, range);
        }
        other => panic!("unexpected settings {:?}", other),
    }

    match result_count(true).into_source().unwrap().settings {
        WidgetSettings::SearchResultCount { query, trend, range } => {
            assert_eq!("q=1 AND b", query);
            assert!(trend);
            assert_eq!(28800, range);
        }
        other => panic!("unexpected settings {:?}", other),
    }

    match stacked_chart().into_source().unwrap().settings {
        WidgetSettings::StackedChart { interval, series, renderer } => {
            assert_eq!(DashboardWidgetConfigSearchResultChartInterval::Day, interval);
            assert_eq!(3, series.len());
            assert_eq!(ChartRenderer::Area, renderer);
        }
        other => panic!("unexpected settings {:?}", other),
    }

    assert!(matches!(
        result_chart().into_source().unwrap().settings,
        WidgetSettings::SearchResultChart { .. }
    ));
    assert!(matches!(
        histogram("h").into_source().unwrap().settings,
        WidgetSettings::QuickValuesHistogram
    ));
}

#[test]
fn first_missing_field_is_reported() {
    let cases = [
        (DashboardWidgetType::FieldChart, ConfigurationField::Query),
        (DashboardWidgetType::StackedChart, ConfigurationField::Interval),
        (DashboardWidgetType::SearchResultCount, ConfigurationField::Query),
        (DashboardWidgetType::SearchResultChart, ConfigurationField::Query),
        (DashboardWidgetType::QuickValues, ConfigurationField::Query),
    ];
    for (kind, missing) in cases {
        let w = widget(kind, empty_configuration());
        assert_eq!(Some(missing), w.missing_field());
        assert_eq!(WidgetError { kind, missing }, w.into_source().unwrap_err());
    }
}

#[test]
fn each_required_field_is_missed_in_turn() {
    let kind = DashboardWidgetType::FieldChart;
    let mut w = field_chart(ChartRenderer::Bar, "count");
    assert_eq!(None, w.missing_field());
    w.configuration.renderer = None;
    assert_eq!(Some(ConfigurationField::Renderer), w.missing_field());
    w.configuration.valuetype = None;
    assert_eq!(Some(ConfigurationField::ValueType), w.missing_field());
    w.configuration.field = None;
    assert_eq!(Some(ConfigurationField::Field), w.missing_field());
    w.configuration.interval = None;
    assert_eq!(Some(ConfigurationField::Interval), w.missing_field());
    assert_eq!(
        WidgetError { kind, missing: ConfigurationField::Interval },
        w.into_source().unwrap_err()
    );

    let mut w = stacked_chart();
    w.configuration.renderer = None;
    assert_eq!(Some(ConfigurationField::Renderer), w.missing_field());
    w.configuration.series = None;
    assert_eq!(Some(ConfigurationField::Series), w.missing_field());

    let mut w = result_count(false);
    w.configuration.trend = None;
    assert_eq!(Some(ConfigurationField::Trend), w.missing_field());

    let mut w = result_chart();
    w.configuration.interval = None;
    assert_eq!(Some(ConfigurationField::Interval), w.missing_field());

    let mut w = quick_values();
    w.configuration.field = None;
    assert_eq!(Some(ConfigurationField::Field), w.missing_field());
}

#[test]
fn checked_widget_translates_like_the_widget_itself() {
    let opt = options(Some("http://g"));
    for w in [
        field_chart(ChartRenderer::Bar, "count"),
        stacked_chart(),
        result_count(true),
        result_chart(),
        quick_values(),
        histogram("h"),
    ] {
        let direct = Panel::create_panel(w.clone(), &opt);
        let checked = Panel::from_source(w.into_source().unwrap(), &opt);
        assert_eq!(format!("{:?}", direct), format!("{:?}", checked));
    }
}

#[test]
fn checked_widget_built_by_hand() {
    let source = SourceWidget {
        description: "Counts".to_string(),
        settings: WidgetSettings::SearchResultChart {
            query: "*".to_string(),
            interval: DashboardWidgetConfigSearchResultChartInterval::Week,
        },
        row: 1,
        col: 1,
        height: 1,
        width: 1,
    };
    let panel = Panel::from_source(source, &options(None)).unwrap();

    assert_eq!("Counts", panel.title);
    assert_eq!(GridPos { h: 6, w: 5, y: 6, x: 0 }, panel.grid_pos);
    assert_eq!(Some("7d".to_string()), panel.targets[0].bucket_aggs[0].settings.interval);
}

#[test]
fn link_query_is_encoded_byte_by_byte() {
    let cases = [
        ("", ""),
        ("AZaz09*-._", "AZaz09*-._"),
        ("a b", "a+b"),
        ("a+b", "a%2Bb"),
        ("a=b&c", "a%3Db%26c"),
        ("~!'()", "%7E%21%27%28%29"),
        ("/?#%", "%2F%3F%23%25"),
        ("\u{0}\u{7f}", "%00%7F"),
        ("é", "%C3%A9"),
        ("€", "%E2%82%AC"),
        ("😀", "%F0%9F%98%80"),
    ];
    for (query, encoded) in cases {
        let link = Link::new("http://g", query, 60);
        let expected = format!(
            "http://g/search?rangetype=relative&fields=message%2Csource&width=1920\
             &highlightMessage=&relative=60&q={}",
            encoded
        );
        assert_eq!(expected, link.url);
    }
}

#[test]
fn encoded_query_holds_no_reserved_character() {
    let query = "a&b=c d#e?f/g";
    let link = Link::new("http://g", query, 60);
    let (_, value) = link.url.rsplit_once("&q=").unwrap();

    for reserved in ['&', '=', ' ', '#', '?', '/'] {
        assert!(!value.contains(reserved));
    }
    assert_eq!("a%26b%3Dc+d%23e%3Ff%2Fg", value);
}
