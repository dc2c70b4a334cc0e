//! What holds of the translation as a whole, and of the encoding of its
//! links.

use crate::grafana::{
    dashboard_for, dashboards_for, dashboards_view, link_parameters, panel_for, panels_for,
    search_link, warning_for, warnings_for, Dashboard,
};
use crate::graylog::{ContentPackView, DashboardWidgetView, SourceDashboardView};
use crate::options::RenderOptions;
use crate::text::{
    form_byte_encoded, form_bytes_encoded, form_decoded, form_decoded_bytes, form_encoded,
    is_form_safe,
};
use vstd::prelude::*;
use vstd::utf8::{encode_utf8, encode_utf8_decode_utf8};

verus! {

/// The supported widgets of a list, in order.
pub open spec fn supported_widgets(widgets: Seq<DashboardWidgetView>) -> Seq<DashboardWidgetView> {
    widgets.filter(|w: DashboardWidgetView| w.is_supported())
}

/// The unsupported widgets of a list, in order.
pub open spec fn unsupported_widgets(widgets: Seq<DashboardWidgetView>) -> Seq<
    DashboardWidgetView,
> {
    widgets.filter(|w: DashboardWidgetView| !w.is_supported())
}

/// Unsupported widgets leave no panel, and each leaves a warning: the
/// panels of a list of widgets are exactly the panels of its supported
/// widgets, one each and in order, and its warnings are exactly the
/// warnings of its unsupported widgets, one each and in order. So every
/// widget accounts for one panel or one warning.
pub proof fn lemma_unsupported_widgets_are_dropped(
    widgets: Seq<DashboardWidgetView>,
    opt: RenderOptions,
)
    ensures
        panels_for(widgets, opt) == supported_widgets(widgets).map_values(
            |w: DashboardWidgetView| panel_for(w, opt)->0,
        ),
        warnings_for(widgets) == unsupported_widgets(widgets).map_values(
            |w: DashboardWidgetView| warning_for(w)->0,
        ),
        panels_for(widgets, opt) == panels_for(supported_widgets(widgets), opt),
        panels_for(unsupported_widgets(widgets), opt).len() == 0,
        panels_for(widgets, opt).len() + warnings_for(widgets).len() == widgets.len(),
    decreases widgets.len(),
{
    reveal(Seq::filter);
    if widgets.len() > 0 {
        let rest = widgets.drop_last();
        let last = widgets.last();
        lemma_unsupported_widgets_are_dropped(rest, opt);
        let kept = supported_widgets(widgets);
        let skipped = unsupported_widgets(widgets);
        if last.is_supported() {
            assert(kept == supported_widgets(rest).push(last));
            assert(kept.drop_last() =~= supported_widgets(rest));
            assert(skipped == unsupported_widgets(rest));
            assert(panels_for(widgets, opt) =~= kept.map_values(
                |w: DashboardWidgetView| panel_for(w, opt)->0,
            ));
            assert(panels_for(kept, opt) =~= panels_for(widgets, opt));
        } else {
            assert(kept == supported_widgets(rest));
            assert(skipped == unsupported_widgets(rest).push(last));
            assert(skipped.drop_last() =~= unsupported_widgets(rest));
            assert(warnings_for(widgets) =~= skipped.map_values(
                |w: DashboardWidgetView| warning_for(w)->0,
            ));
            assert(panels_for(skipped, opt) =~= panels_for(unsupported_widgets(rest), opt));
        }
    } else {
        assert(panels_for(widgets, opt) =~= supported_widgets(widgets).map_values(
            |w: DashboardWidgetView| panel_for(w, opt)->0,
        ));
        assert(warnings_for(widgets) =~= unsupported_widgets(widgets).map_values(
            |w: DashboardWidgetView| warning_for(w)->0,
        ));
    }
}

/// A widget has a panel exactly when it is supported, and a warning
/// exactly when it is not.
pub proof fn lemma_panel_or_warning(widget: DashboardWidgetView, opt: RenderOptions)
    ensures
        panel_for(widget, opt) is Some <==> widget.is_supported(),
        warning_for(widget) is Some <==> !widget.is_supported(),
{
}

/// The outcome is a function of the inputs: two dashboards that each are
/// the outcome for a source and options of equal content have equal
/// content, field for field.
pub proof fn lemma_dashboard_translation_is_repeatable(
    first: Dashboard,
    second: Dashboard,
    first_source: SourceDashboardView,
    second_source: SourceDashboardView,
    first_opt: RenderOptions,
    second_opt: RenderOptions,
)
    requires
        first_source == second_source,
        first_opt == second_opt,
        first@ == dashboard_for(first_source, first_opt),
        second@ == dashboard_for(second_source, second_opt),
    ensures
        first@ == second@,
{
}

/// Translating the same content pack twice under the same options gives
/// the same dashboards, in the same order.
pub proof fn lemma_pack_translation_is_repeatable(
    first: Seq<Dashboard>,
    second: Seq<Dashboard>,
    pack: ContentPackView,
    opt: RenderOptions,
)
    requires
        dashboards_view(first) == dashboards_for(pack, opt),
        dashboards_view(second) == dashboards_for(pack, opt),
    ensures
        dashboards_view(first) == dashboards_view(second),
        first.len() == second.len(),
        forall|i: int| 0 <= i < first.len() ==> (#[trigger] first[i])@ == second[i]@,
{
    assert(dashboards_view(first).len() == first.len());
    assert(dashboards_view(second).len() == second.len());
    assert forall|i: int| 0 <= i < first.len() implies (#[trigger] first[i])@ == second[i]@ by {
        assert(dashboards_view(first)[i] == first[i]@);
        assert(dashboards_view(second)[i] == second[i]@);
    }
}

/// Decoding undoes the encoding of one byte, whatever follows it.
pub proof fn lemma_form_byte_round_trips(b: u8, rest: Seq<char>)
    ensures
        form_decoded_bytes(form_byte_encoded(b) + rest) == seq![b] + form_decoded_bytes(rest),
{
    let encoded = form_byte_encoded(b) + rest;
    assert(encoded.skip(form_byte_encoded(b).len() as int) =~= rest);
}

/// Decoding undoes the encoding of a sequence of bytes, whatever follows
/// it.
pub proof fn lemma_form_bytes_round_trip(bytes: Seq<u8>, rest: Seq<char>)
    ensures
        form_decoded_bytes(form_bytes_encoded(bytes) + rest) == bytes + form_decoded_bytes(rest),
    decreases bytes.len(),
{
    if bytes.len() == 0 {
        assert(form_bytes_encoded(bytes) + rest =~= rest);
        assert(bytes + form_decoded_bytes(rest) =~= form_decoded_bytes(rest));
    } else {
        let front = bytes.drop_last();
        let last = bytes.last();
        assert(form_bytes_encoded(bytes) + rest =~= form_bytes_encoded(front) + (form_byte_encoded(
            last,
        ) + rest));
        lemma_form_bytes_round_trip(front, form_byte_encoded(last) + rest);
        lemma_form_byte_round_trips(last, rest);
        assert(front + (seq![last] + form_decoded_bytes(rest)) =~= bytes + form_decoded_bytes(
            rest,
        ));
    }
}

/// The form encoding loses nothing: decoding an encoded text gives the
/// text back.
pub proof fn lemma_form_encoding_round_trips(text: Seq<char>)
    ensures
        form_decoded(form_encoded(text)) == text,
{
    let bytes = encode_utf8(text);
    lemma_form_bytes_round_trip(bytes, Seq::empty());
    assert(form_bytes_encoded(bytes) + Seq::<char>::empty() =~= form_bytes_encoded(bytes));
    assert(bytes + form_decoded_bytes(Seq::<char>::empty()) =~= bytes);
    encode_utf8_decode_utf8(text);
}

/// The form encoding of any bytes holds only characters that are left
/// unchanged, `+`, `%` and hexadecimal digits.
pub proof fn lemma_form_bytes_encoded_are_safe(bytes: Seq<u8>)
    ensures
        forall|i: int|
            0 <= i < form_bytes_encoded(bytes).len() ==> is_form_safe(
                #[trigger] form_bytes_encoded(bytes)[i],
            ),
    decreases bytes.len(),
{
    if bytes.len() > 0 {
        lemma_form_bytes_encoded_are_safe(bytes.drop_last());
        let front = form_bytes_encoded(bytes.drop_last());
        let last = form_byte_encoded(bytes.last());
        let all = form_bytes_encoded(bytes);
        assert(forall|j: int| 0 <= j < last.len() ==> is_form_safe(#[trigger] last[j]));
        assert forall|i: int| 0 <= i < all.len() implies is_form_safe(#[trigger] all[i]) by {
            if i < front.len() {
                assert(all[i] == front[i]);
            } else {
                assert(all[i] == last[i - front.len()]);
            }
        }
    }
}

/// Every reserved character is escaped: an encoded name or value holds
/// only characters that are left unchanged, `+`, `%` and hexadecimal
/// digits, so neither `&`, `=`, `#`, `?`, `/` nor a space occurs in it.
pub proof fn lemma_form_encoding_is_safe(text: Seq<char>)
    ensures
        forall|i: int|
            0 <= i < form_encoded(text).len() ==> is_form_safe(#[trigger] form_encoded(text)[i]),
        !form_encoded(text).contains('&'),
        !form_encoded(text).contains('='),
        !form_encoded(text).contains(' '),
        !form_encoded(text).contains('#'),
        !form_encoded(text).contains('?'),
        !form_encoded(text).contains('/'),
{
    lemma_form_bytes_encoded_are_safe(encode_utf8(text));
}

/// The search link ends with the query's parameter: `=` and then the
/// encoded query, in which every reserved character is escaped and which
/// decodes to the query.
pub proof fn lemma_link_query_round_trips(base: Seq<char>, query: Seq<char>, seconds: int)
    ensures
        ({
            let url = search_link(base, query, seconds).url;
            let value = form_encoded(query);
            &&& url.len() > value.len()
            &&& url.subrange(url.len() - value.len(), url.len() as int) == value
            &&& url[url.len() - value.len() - 1] == '='
            &&& forall|i: int| 0 <= i < value.len() ==> is_form_safe(#[trigger] value[i])
            &&& form_decoded(value) == query
        }),
{
    let url = search_link(base, query, seconds).url;
    let value = form_encoded(query);
    lemma_form_encoding_round_trips(query);
    lemma_form_encoding_is_safe(query);
    assert(url.subrange(url.len() - value.len(), url.len() as int) =~= value);
}

} // verus!
