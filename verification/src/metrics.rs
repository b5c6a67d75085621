//! The metrics customizer: takes the base metrics configuration the engine
//! was started with and adds the pipeline's entries to it — the engine's own
//! relay-progress metrics, namespaced by the pipeline identity, and any
//! standalone metrics polled from external endpoints. Registration is
//! additive and fails as a whole on the first name conflict; no partial
//! configuration is ever returned.

use vstd::prelude::*;
use vstd::string::StringExecFns;

use crate::errors::BindingError;

verus! {

/// A named external data source polled independently of relay activity.
pub struct StandaloneMetric {
    /// The HTTPS JSON endpoint to poll.
    pub url: String,
    /// The JSON-path expression extracting the value from the response.
    pub json_path: String,
    /// The metric name registered in the configuration.
    pub name: String,
    /// A human-readable description.
    pub label: String,
}

/// Specification-level image of a standalone metric.
#[verifier::ext_equal]
pub struct StandaloneMetricView {
    /// The HTTPS JSON endpoint to poll.
    pub url: Seq<char>,
    /// The JSON-path expression extracting the value from the response.
    pub json_path: Seq<char>,
    /// The metric name registered in the configuration.
    pub name: Seq<char>,
    /// A human-readable description.
    pub label: Seq<char>,
}

impl View for StandaloneMetric {
    type V = StandaloneMetricView;

    open spec fn view(&self) -> StandaloneMetricView {
        StandaloneMetricView {
            url: self.url@,
            json_path: self.json_path@,
            name: self.name@,
            label: self.label@,
        }
    }
}

/// Where a registered metric takes its value from.
pub enum MetricSource {
    /// A relay-progress gauge maintained by the engine itself.
    RelayProgress,
    /// A value polled from an external JSON endpoint.
    ExternalJson {
        /// The HTTPS JSON endpoint to poll.
        url: String,
        /// The JSON-path expression extracting the value.
        json_path: String,
        /// A human-readable description.
        label: String,
    },
}

/// Specification-level image of a metric source.
#[verifier::ext_equal]
pub enum MetricSourceView {
    /// A relay-progress gauge maintained by the engine itself.
    RelayProgress,
    /// A value polled from an external JSON endpoint.
    ExternalJson {
        /// The HTTPS JSON endpoint to poll.
        url: Seq<char>,
        /// The JSON-path expression extracting the value.
        json_path: Seq<char>,
        /// A human-readable description.
        label: Seq<char>,
    },
}

impl View for MetricSource {
    type V = MetricSourceView;

    open spec fn view(&self) -> MetricSourceView {
        match self {
            MetricSource::RelayProgress => MetricSourceView::RelayProgress,
            MetricSource::ExternalJson { url, json_path, label } => MetricSourceView::ExternalJson {
                url: url@,
                json_path: json_path@,
                label: label@,
            },
        }
    }
}

/// One registered metric: a unique name bound to a data source.
pub struct MetricEntry {
    /// The metric name; unique within a configuration.
    pub name: String,
    /// Where the value comes from.
    pub source: MetricSource,
}

/// Specification-level image of a metric entry.
#[verifier::ext_equal]
pub struct MetricEntryView {
    /// The metric name; unique within a configuration.
    pub name: Seq<char>,
    /// Where the value comes from.
    pub source: MetricSourceView,
}

impl View for MetricEntry {
    type V = MetricEntryView;

    open spec fn view(&self) -> MetricEntryView {
        MetricEntryView { name: self.name@, source: self.source@ }
    }
}

/// The metrics configuration: the address the metrics endpoint serves on and
/// the registered metrics, each under a unique name.
pub struct MetricsParams {
    /// The network address the metrics endpoint is served on.
    pub address: String,
    /// The registered metrics.
    pub metrics: Vec<MetricEntry>,
}

/// Specification-level image of a metrics configuration.
#[verifier::ext_equal]
pub struct MetricsParamsView {
    /// The network address the metrics endpoint is served on.
    pub address: Seq<char>,
    /// The registered metrics.
    pub metrics: Seq<MetricEntryView>,
}

impl View for MetricsParams {
    type V = MetricsParamsView;

    open spec fn view(&self) -> MetricsParamsView {
        MetricsParamsView {
            address: self.address@,
            metrics: self.metrics@.map_values(|e: MetricEntry| e@),
        }
    }
}

/// Whether some entry carries `name`.
pub open spec fn spec_contains_name(metrics: Seq<MetricEntryView>, name: Seq<char>) -> bool {
    exists|i: int| 0 <= i < metrics.len() && metrics[i].name == name
}

/// Whether all entry names are pairwise distinct.
pub open spec fn spec_names_unique(metrics: Seq<MetricEntryView>) -> bool {
    forall|i: int, j: int|
        0 <= i < j < metrics.len() ==> metrics[i].name != metrics[j].name
}

/// A configuration is well formed when each metric name is registered once.
impl MetricsParams {
    /// Each metric name occurs once.
    pub open spec fn wf(&self) -> bool {
        spec_names_unique(self@.metrics)
    }
}

/// The engine's own relay-progress metrics, namespaced by the pipeline
/// identity.
pub open spec fn spec_engine_metric_entries(prefix: Seq<char>) -> Seq<MetricEntryView> {
    seq![
        MetricEntryView { name: prefix + "_best_source_block"@, source: MetricSourceView::RelayProgress },
        MetricEntryView { name: prefix + "_best_target_block"@, source: MetricSourceView::RelayProgress },
    ]
}

/// The configuration entry a standalone metric registers as.
pub open spec fn spec_standalone_entry(m: StandaloneMetricView) -> MetricEntryView {
    MetricEntryView {
        name: m.name,
        source: MetricSourceView::ExternalJson { url: m.url, json_path: m.json_path, label: m.label },
    }
}

/// The views of a sequence of standalone metrics.
pub open spec fn spec_standalone_views(standalone: Seq<StandaloneMetric>) -> Seq<
    StandaloneMetricView,
> {
    standalone.map_values(|m: StandaloneMetric| m@)
}

/// The configuration entries a sequence of standalone metrics registers as.
pub open spec fn spec_standalone_entries(standalone: Seq<StandaloneMetricView>) -> Seq<
    MetricEntryView,
> {
    standalone.map_values(|m: StandaloneMetricView| spec_standalone_entry(m))
}

/// Everything `customize_metrics` adds: the engine metrics first, then the
/// declared standalone metrics in order.
pub open spec fn spec_added_entries(
    prefix: Seq<char>,
    standalone: Seq<StandaloneMetricView>,
) -> Seq<MetricEntryView> {
    spec_engine_metric_entries(prefix) + spec_standalone_entries(standalone)
}

/// How `spec_standalone_views` acts on one element.
pub proof fn lemma_standalone_views_index(standalone: Seq<StandaloneMetric>, i: int)
    requires
        0 <= i < standalone.len(),
    ensures
        spec_standalone_views(standalone).len() == standalone.len(),
        spec_standalone_views(standalone)[i] == standalone[i]@,
{
}

/// How `spec_added_entries` lays its entries out.
pub proof fn lemma_added_entries_index(prefix: Seq<char>, standalone: Seq<StandaloneMetricView>)
    ensures
        spec_added_entries(prefix, standalone).len() == 2 + standalone.len(),
        spec_added_entries(prefix, standalone)[0] == spec_engine_metric_entries(prefix)[0],
        spec_added_entries(prefix, standalone)[1] == spec_engine_metric_entries(prefix)[1],
        forall|i: int|
            0 <= i < standalone.len() ==> spec_added_entries(prefix, standalone)[2 + i]
                == spec_standalone_entry(#[trigger] standalone[i]),
{
    assert forall|i: int| 0 <= i < standalone.len() implies spec_added_entries(prefix, standalone)[2
        + i] == spec_standalone_entry(#[trigger] standalone[i]) by {
        assert(spec_standalone_entries(standalone)[i] == spec_standalone_entry(standalone[i]));
    }
}

/// How the view of a configuration relates to its entries.
pub proof fn lemma_metrics_view_index(params: MetricsParams)
    ensures
        params@.metrics.len() == params.metrics@.len(),
        forall|i: int|
            0 <= i < params.metrics@.len() ==> params@.metrics[i] == (
            #[trigger] params.metrics@[i])@,
{
}

/// No added name collides with the base configuration or with another added
/// name.
pub open spec fn spec_no_conflict(base: Seq<MetricEntryView>, added: Seq<MetricEntryView>) -> bool {
    &&& forall|i: int| 0 <= i < added.len() ==> !spec_contains_name(base, #[trigger] added[i].name)
    &&& spec_names_unique(added)
}

/// Augments `params` with the engine's relay-progress metrics under
/// `metrics_prefix` and with the declared standalone metrics. Succeeds
/// exactly when no name conflict arises; on a conflict the whole call fails
/// and no partial configuration is returned.
#[verifier::loop_isolation(false)]
pub fn customize_metrics(
    metrics_prefix: &String,
    standalone_metrics: &Vec<StandaloneMetric>,
    params: MetricsParams,
) -> (r: Result<MetricsParams, BindingError>)
    ensures
        r is Ok <==> spec_no_conflict(
            params@.metrics,
            spec_added_entries(metrics_prefix@, spec_standalone_views(standalone_metrics@)),
        ),
        r matches Ok(out) ==> (out@ == MetricsParamsView {
            address: params@.address,
            metrics: params@.metrics + spec_added_entries(
                metrics_prefix@,
                spec_standalone_views(standalone_metrics@),
            ),
        }),
        r matches Err(e) ==> e == BindingError::DuplicateMetricName,
{
    let ghost standalone_views = spec_standalone_views(standalone_metrics@);
    let ghost added_views = spec_added_entries(metrics_prefix@, standalone_views);
    proof {
        assert(standalone_views.len() == standalone_metrics@.len());
        lemma_added_entries_index(metrics_prefix@, standalone_views);
        assert(added_views.len() == 2 + standalone_metrics@.len());
    }
    let mut added: Vec<MetricEntry> = Vec::new();
    let first_name = metrics_prefix.clone().concat("_best_source_block");
    added.push(MetricEntry { name: first_name, source: MetricSource::RelayProgress });
    let second_name = metrics_prefix.clone().concat("_best_target_block");
    added.push(MetricEntry { name: second_name, source: MetricSource::RelayProgress });
    proof {
        assert(added@[0]@ =~= added_views[0]);
        assert(added@[1]@ =~= added_views[1]);
    }
    let mut k: usize = 0;
    while k < standalone_metrics.len()
        invariant
            k <= standalone_metrics@.len(),
            added_views.len() == 2 + standalone_metrics@.len(),
            added@.len() == 2 + k,
            forall|i: int| 0 <= i < added@.len() ==> (#[trigger] added@[i])@ == added_views[i],
        decreases standalone_metrics@.len() - k,
    {
        let m = &standalone_metrics[k];
        added.push(MetricEntry {
            name: m.name.clone(),
            source: MetricSource::ExternalJson {
                url: m.url.clone(),
                json_path: m.json_path.clone(),
                label: m.label.clone(),
            },
        });
        proof {
            lemma_standalone_views_index(standalone_metrics@, k as int);
            lemma_added_entries_index(metrics_prefix@, standalone_views);
            assert(standalone_views[k as int] == standalone_metrics@[k as int]@);
            assert(added_views[2 + k] == spec_standalone_entry(standalone_views[k as int]));
            assert(added@[2 + k]@ =~= added_views[2 + k]);
        }
        k = k + 1;
    }
    let ghost base_views = params@.metrics;
    proof {
        lemma_metrics_view_index(params);
        assert(base_views.len() == params.metrics@.len());
    }
    let address = params.address;
    let mut result = params.metrics;
    let mut t: usize = 0;
    while t < added.len()
        invariant
            t <= added@.len(),
            added@.len() == added_views.len(),
            forall|i: int| 0 <= i < added@.len() ==> (#[trigger] added@[i])@ == added_views[i],
            result@.len() == base_views.len() + t,
            forall|i: int|
                0 <= i < base_views.len() ==> (#[trigger] result@[i])@ == base_views[i],
            forall|i: int|
                0 <= i < t ==> (#[trigger] result@[base_views.len() + i])@ == added_views[i],
            forall|i: int|
                0 <= i < t ==> !spec_contains_name(base_views, #[trigger] added_views[i].name),
            forall|i: int, j: int|
                0 <= i < j < t ==> added_views[i].name != added_views[j].name,
        decreases added@.len() - t,
    {
        let candidate = &added[t];
        let mut s: usize = 0;
        while s < result.len()
            invariant
                s <= result@.len(),
                t < added@.len(),
                added@.len() == added_views.len(),
                candidate@ == added_views[t as int],
                result@.len() == base_views.len() + t,
                forall|i: int|
                    0 <= i < base_views.len() ==> (#[trigger] result@[i])@ == base_views[i],
                forall|i: int|
                    0 <= i < t ==> (#[trigger] result@[base_views.len() + i])@ == added_views[i],
                forall|i: int|
                    0 <= i < s ==> (#[trigger] result@[i]).name@ != added_views[t as int].name,
            decreases result@.len() - s,
        {
            let found = result[s].name == candidate.name;
            if found {
                proof {
                    assert(result@[s as int]@.name == added_views[t as int].name);
                    if s < base_views.len() {
                        assert(base_views[s as int].name == added_views[t as int].name);
                        assert(spec_contains_name(base_views, added_views[t as int].name));
                        assert(!spec_no_conflict(base_views, added_views));
                    } else {
                        let j = s - base_views.len();
                        assert(result@[base_views.len() + j]@ == added_views[j]);
                        assert(added_views[j].name == added_views[t as int].name);
                        assert(0 <= j < t < added_views.len());
                        assert(spec_names_unique(added_views) ==> added_views[j].name
                            != added_views[t as int].name);
                        assert(!spec_names_unique(added_views));
                        assert(!spec_no_conflict(base_views, added_views));
                    }
                }
                return Err(BindingError::DuplicateMetricName);
            }
            s = s + 1;
        }
        let entry = MetricEntry {
            name: candidate.name.clone(),
            source: match &candidate.source {
                MetricSource::RelayProgress => MetricSource::RelayProgress,
                MetricSource::ExternalJson { url, json_path, label } => MetricSource::ExternalJson {
                    url: url.clone(),
                    json_path: json_path.clone(),
                    label: label.clone(),
                },
            },
        };
        proof {
            assert(entry@ =~= added_views[t as int]);
            assert forall|i: int| 0 <= i < base_views.len() implies base_views[i].name
                != added_views[t as int].name by {
                assert(result@[i]@ == base_views[i]);
            }
            assert(!spec_contains_name(base_views, added_views[t as int].name));
            assert forall|i: int| 0 <= i < t implies added_views[i].name
                != added_views[t as int].name by {
                assert(result@[base_views.len() + i]@ == added_views[i]);
            }
        }
        result.push(entry);
        t = t + 1;
    }
    proof {
        assert(spec_no_conflict(base_views, added_views));
    }
    let out = MetricsParams { address, metrics: result };
    proof {
        lemma_metrics_view_index(out);
        let outm = out@.metrics;
        assert(outm.len() == result@.len());
        assert forall|i: int| 0 <= i < outm.len() implies outm[i] == (base_views + added_views)[i] by {
            assert(outm[i] == result@[i]@);
            if i < base_views.len() {
                assert(result@[i]@ == base_views[i]);
            } else {
                assert(result@[base_views.len() + (i - base_views.len())]@ == added_views[i
                    - base_views.len()]);
            }
        }
        assert(outm.len() == (base_views + added_views).len());
        assert(outm =~= base_views + added_views);
        assert(out@ =~= (MetricsParamsView {
            address: out.address@,
            metrics: base_views + added_views,
        }));
    }
    Ok(out)
}

/// Customizing is additive: the returned configuration keeps every base
/// entry at its place and under its name, and appends the added entries.
pub proof fn lemma_customize_is_superset(
    base: Seq<MetricEntryView>,
    added: Seq<MetricEntryView>,
    out: Seq<MetricEntryView>,
)
    requires
        out == base + added,
    ensures
        out.len() == base.len() + added.len(),
        forall|i: int| 0 <= i < base.len() ==> out[i] == base[i],
        forall|name: Seq<char>|
            #[trigger] spec_contains_name(base, name) ==> spec_contains_name(out, name),
{
    assert forall|name: Seq<char>| spec_contains_name(base, name) implies spec_contains_name(
        out,
        name,
    ) by {
        let i = choose|i: int| 0 <= i < base.len() && base[i].name == name;
        assert(out[i].name == name);
    }
}

/// Customizing keeps names unique: a well-formed base configuration with no
/// conflict yields a well-formed configuration.
pub proof fn lemma_customize_preserves_uniqueness(
    base: Seq<MetricEntryView>,
    added: Seq<MetricEntryView>,
)
    requires
        spec_names_unique(base),
        spec_no_conflict(base, added),
    ensures
        spec_names_unique(base + added),
{
    let out = base + added;
    assert forall|i: int, j: int| 0 <= i < j < out.len() implies out[i].name != out[j].name by {
        if j < base.len() {
            assert(out[i] == base[i] && out[j] == base[j]);
        } else if i < base.len() {
            assert(out[j] == added[j - base.len()]);
            assert(!spec_contains_name(base, added[j - base.len()].name));
            assert(out[i] == base[i]);
        } else {
            assert(out[i] == added[i - base.len()] && out[j] == added[j - base.len()]);
        }
    }
}

} // verus!
