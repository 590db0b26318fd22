//! A label-keyed gauge registry.
//!
//! The registry owns every gauge series of the process. A gauge is registered
//! once under a unique name together with a fixed, ordered list of label
//! dimensions; registering a taken name again is refused, never silently
//! merged. Writing under a label tuple whose length matches the gauge's
//! dimensionality creates that series on first use and overwrites it
//! afterwards.
//!
//! The model of a gauge is a [`GaugeModel`]: its name, help text, label
//! dimensions and a map from concrete label tuples to the stored value bits.
//! The registry's view is the sequence of gauge models in registration order.

use vstd::prelude::*;

verus! {

/// Mathematical model of one gauge.
#[verifier::ext_equal]
pub ghost struct GaugeModel {
    /// The gauge's unique name.
    pub name: Seq<char>,
    /// The help text given at registration.
    pub help: Seq<char>,
    /// The ordered label dimensions fixed at registration.
    pub dims: Seq<Seq<char>>,
    /// The current value of each series, keyed by its label tuple.
    pub series: Map<Seq<Seq<char>>, GaugeValue>,
}

/// A stored gauge value: either the bit pattern of a 64-bit IEEE-754
/// number, or an exact whole number. The registry never interprets values;
/// the split only records which conversion produced them.
#[derive(Clone, Copy, PartialEq, Eq, Structural, Debug)]
pub enum GaugeValue {
    /// The bits of a 64-bit IEEE-754 number.
    Bits(u64),
    /// An exact whole number.
    Int(u64),
}

/// Why a registry operation was refused.
#[derive(Clone, Copy, PartialEq, Eq, Structural, Debug)]
pub enum RegistryError {
    /// A gauge with the requested name is already registered.
    DuplicateName,
    /// The handle does not refer to a registered gauge.
    UnknownGauge,
    /// The number of label values differs from the gauge's dimensionality.
    LabelCardinality,
}

/// A handle to one registered gauge: its index in registration order.
#[derive(Clone, Copy, PartialEq, Eq, Structural, Debug)]
pub struct GaugeHandle(pub usize);

/// One stored series: a concrete label tuple and its current value.
struct SeriesEntry {
    labels: Vec<String>,
    value: GaugeValue,
}

/// One registered gauge.
pub struct Gauge {
    name: String,
    help: String,
    label_dims: Vec<String>,
    series: Vec<SeriesEntry>,
}

/// The registry: all gauges of the process, in registration order.
pub struct Registry {
    gauges: Vec<Gauge>,
}

/// The map stored in a sequence of series entries: later entries win,
/// though under the registry's invariant the label tuples are distinct.
spec fn series_model(s: Seq<SeriesEntry>) -> Map<Seq<Seq<char>>, GaugeValue>
    decreases s.len(),
{
    if s.len() == 0 {
        Map::empty()
    } else {
        series_model(s.drop_last()).insert(s.last().labels.deep_view(), s.last().value)
    }
}

/// The label tuples of a series list are pairwise distinct and each has
/// exactly `dims` values.
spec fn entries_wf(s: Seq<SeriesEntry>, dims: nat) -> bool {
    &&& forall|i: int, j: int|
        #![trigger s[i], s[j]]
        0 <= i < j < s.len() ==> s[i].labels.deep_view() != s[j].labels.deep_view()
    &&& forall|i: int| 0 <= i < s.len() ==> (#[trigger] s[i]).labels@.len() == dims
}

impl View for Gauge {
    type V = GaugeModel;

    closed spec fn view(&self) -> GaugeModel {
        GaugeModel {
            name: self.name@,
            help: self.help@,
            dims: self.label_dims.deep_view(),
            series: series_model(self.series@),
        }
    }
}

impl View for Registry {
    type V = Seq<GaugeModel>;

    closed spec fn view(&self) -> Seq<GaugeModel> {
        Seq::new(self.gauges@.len(), |i: int| self.gauges@[i]@)
    }
}

/// Whether a gauge of the given name is registered.
pub open spec fn contains_name(r: Seq<GaugeModel>, name: Seq<char>) -> bool {
    exists|i: int| 0 <= i < r.len() && (#[trigger] r[i]).name == name
}

/// What registering a gauge does: refused if the name is taken, otherwise
/// the registry grows by one empty gauge and the handle is its index.
pub open spec fn spec_register(
    r: Seq<GaugeModel>,
    name: Seq<char>,
    help: Seq<char>,
    dims: Seq<Seq<char>>,
) -> (Result<GaugeHandle, RegistryError>, Seq<GaugeModel>) {
    if contains_name(r, name) {
        (Err(RegistryError::DuplicateName), r)
    } else {
        (
            Ok(GaugeHandle(r.len() as usize)),
            r.push(GaugeModel { name, help, dims, series: Map::empty() }),
        )
    }
}

/// What writing a series does: refused on an unknown handle or a label tuple
/// of the wrong length, otherwise the one series entry is created or
/// overwritten and everything else is unchanged.
pub open spec fn spec_set(
    r: Seq<GaugeModel>,
    h: GaugeHandle,
    labels: Seq<Seq<char>>,
    value: GaugeValue,
) -> (Result<(), RegistryError>, Seq<GaugeModel>) {
    if h.0 >= r.len() {
        (Err(RegistryError::UnknownGauge), r)
    } else if labels.len() != r[h.0 as int].dims.len() {
        (Err(RegistryError::LabelCardinality), r)
    } else {
        (
            Ok(()),
            r.update(
                h.0 as int,
                GaugeModel { series: r[h.0 as int].series.insert(labels, value), ..r[h.0 as int] },
            ),
        )
    }
}

/// A key is in the model exactly when some entry carries it.
proof fn lemma_series_model_contains(s: Seq<SeriesEntry>, k: Seq<Seq<char>>)
    ensures
        series_model(s).contains_key(k) <==> exists|i: int|
            0 <= i < s.len() && (#[trigger] s[i]).labels.deep_view() == k,
    decreases s.len(),
{
    if s.len() > 0 {
        lemma_series_model_contains(s.drop_last(), k);
        if s.last().labels.deep_view() == k {
            assert(s[s.len() - 1].labels.deep_view() == k);
        } else if series_model(s.drop_last()).contains_key(k) {
            let i = choose|i: int|
                0 <= i < s.drop_last().len() && (#[trigger] s.drop_last()[i]).labels.deep_view()
                    == k;
            assert(s[i].labels.deep_view() == k);
        } else {
            assert forall|i: int|
                0 <= i < s.len() && (#[trigger] s[i]).labels.deep_view() == k implies false by {
                if i < s.len() - 1 {
                    assert(s.drop_last()[i].labels.deep_view() == k);
                }
            }
        }
    }
}

/// Under distinct label tuples, the model maps each entry's tuple to its value.
proof fn lemma_series_model_value(s: Seq<SeriesEntry>, i: int)
    requires
        entries_wf(s, s[i].labels@.len()),
        0 <= i < s.len(),
    ensures
        series_model(s).contains_key(s[i].labels.deep_view()),
        series_model(s)[s[i].labels.deep_view()] == s[i].value,
    decreases s.len(),
{
    lemma_series_model_contains(s, s[i].labels.deep_view());
    if i < s.len() - 1 {
        assert(s[i].labels.deep_view() != s.last().labels.deep_view());
        assert(s.drop_last()[i] == s[i]);
        assert(entries_wf(s.drop_last(), s[i].labels@.len())) by {
            assert forall|p: int, q: int|
                #![trigger s.drop_last()[p], s.drop_last()[q]]
                0 <= p < q < s.drop_last().len() implies s.drop_last()[p].labels.deep_view()
                != s.drop_last()[q].labels.deep_view() by {
                assert(s[p] == s.drop_last()[p]);
                assert(s[q] == s.drop_last()[q]);
            }
            assert forall|p: int| 0 <= p < s.drop_last().len() implies (#[trigger] s.drop_last()[p]).labels@.len()
                == s[i].labels@.len() by {
                assert(s[p] == s.drop_last()[p]);
            }
        }
        lemma_series_model_value(s.drop_last(), i);
    }
}

/// Overwriting the entry at `i` with the same label tuple updates the model
/// at exactly that key.
proof fn lemma_series_model_update(s: Seq<SeriesEntry>, i: int, e: SeriesEntry)
    requires
        0 <= i < s.len(),
        entries_wf(s, s[i].labels@.len()),
        e.labels.deep_view() == s[i].labels.deep_view(),
    ensures
        series_model(s.update(i, e)) == series_model(s).insert(e.labels.deep_view(), e.value),
    decreases s.len(),
{
    let k = e.labels.deep_view();
    if i == s.len() - 1 {
        assert(s.update(i, e).drop_last() =~= s.drop_last());
        assert(s.update(i, e).last() == e);
        assert(series_model(s.update(i, e)) == series_model(s.drop_last()).insert(k, e.value));
        assert(series_model(s).insert(k, e.value) == series_model(s.drop_last()).insert(
            k,
            s.last().value,
        ).insert(k, e.value));
        assert(series_model(s.drop_last()).insert(k, s.last().value).insert(k, e.value)
            =~= series_model(s.drop_last()).insert(k, e.value));
    } else {
        let t = s.update(i, e);
        assert(t.drop_last() =~= s.drop_last().update(i, e));
        assert(t.last() == s.last());
        assert(entries_wf(s.drop_last(), s[i].labels@.len())) by {
            assert forall|p: int, q: int|
                #![trigger s.drop_last()[p], s.drop_last()[q]]
                0 <= p < q < s.drop_last().len() implies s.drop_last()[p].labels.deep_view()
                != s.drop_last()[q].labels.deep_view() by {
                assert(s[p] == s.drop_last()[p]);
                assert(s[q] == s.drop_last()[q]);
            }
            assert forall|p: int| 0 <= p < s.drop_last().len() implies (#[trigger] s.drop_last()[p]).labels@.len()
                == s[i].labels@.len() by {
                assert(s[p] == s.drop_last()[p]);
            }
        }
        assert(s.drop_last()[i] == s[i]);
        lemma_series_model_update(s.drop_last(), i, e);
        let last_k = s.last().labels.deep_view();
        assert(last_k != k);
        assert(series_model(t) == series_model(s.drop_last()).insert(k, e.value).insert(
            last_k,
            s.last().value,
        ));
        assert(series_model(s.drop_last()).insert(k, e.value).insert(
            last_k,
            s.last().value,
        ) =~= series_model(s.drop_last()).insert(last_k, s.last().value).insert(
            k,
            e.value,
        ));
    }
}

/// Appending an entry inserts its label tuple into the model.
proof fn lemma_series_model_push(s: Seq<SeriesEntry>, e: SeriesEntry)
    ensures
        series_model(s.push(e)) == series_model(s).insert(e.labels.deep_view(), e.value),
{
    assert(s.push(e).drop_last() =~= s);
    assert(s.push(e).last() == e);
}

/// Under distinct label tuples, the model has exactly one key per entry.
proof fn lemma_series_model_len(s: Seq<SeriesEntry>, dims: nat)
    requires
        entries_wf(s, dims),
    ensures
        series_model(s).dom().finite(),
        series_model(s).dom().len() == s.len(),
    decreases s.len(),
{
    if s.len() > 0 {
        assert(entries_wf(s.drop_last(), dims)) by {
            assert forall|p: int, q: int|
                #![trigger s.drop_last()[p], s.drop_last()[q]]
                0 <= p < q < s.drop_last().len() implies s.drop_last()[p].labels.deep_view()
                != s.drop_last()[q].labels.deep_view() by {
                assert(s[p] == s.drop_last()[p]);
                assert(s[q] == s.drop_last()[q]);
            }
            assert forall|p: int| 0 <= p < s.drop_last().len() implies (#[trigger] s.drop_last()[p]).labels@.len()
                == dims by {
                assert(s[p] == s.drop_last()[p]);
            }
        }
        lemma_series_model_len(s.drop_last(), dims);
        lemma_series_model_contains(s.drop_last(), s.last().labels.deep_view());
        assert forall|i: int|
            0 <= i < s.drop_last().len() implies (#[trigger] s.drop_last()[i]).labels.deep_view()
            != s.last().labels.deep_view() by {
            assert(s[i] == s.drop_last()[i]);
            assert(s[i].labels.deep_view() != s[s.len() - 1].labels.deep_view());
        }
        assert(!series_model(s.drop_last()).contains_key(s.last().labels.deep_view()));
    }
}

/// Two label vectors are equal exactly when their character views are.
#[verifier::loop_isolation(false)]
fn labels_eq(a: &Vec<String>, b: &Vec<String>) -> (r: bool)
    ensures
        r == (a.deep_view() == b.deep_view()),
{
    if a.len() != b.len() {
        assert(a.deep_view().len() != b.deep_view().len());
        return false;
    }
    let n = a.len();
    let mut i: usize = 0;
    while i < n
        invariant
            i <= n,
            n == a@.len(),
            n == b@.len(),
            forall|j: int| 0 <= j < i ==> a.deep_view()[j] == b.deep_view()[j],
        decreases n - i,
    {
        if !(a[i] == b[i]) {
            assert(a.deep_view()[i as int] != b.deep_view()[i as int]);
            return false;
        }
        assert(a.deep_view()[i as int] == b.deep_view()[i as int]);
        i += 1;
    }
    proof {
        assert(a.deep_view() =~= b.deep_view());
    }
    true
}

impl Gauge {
    /// Label tuples distinct, each of the gauge's dimensionality.
    spec fn wf(&self) -> bool {
        entries_wf(self.series@, self.label_dims@.len())
    }

    /// Create or overwrite one series of this gauge.
    #[verifier::loop_isolation(false)]
    fn set_series(&mut self, labels: Vec<String>, value: GaugeValue) -> (r: Result<
        (),
        RegistryError,
    >)
        requires
            old(self).wf(),
        ensures
            final(self).wf(),
            labels@.len() != old(self)@.dims.len() ==> r == Err::<(), RegistryError>(
                RegistryError::LabelCardinality,
            ) && *final(self) == *old(self),
            labels@.len() == old(self)@.dims.len() ==> r == Ok::<(), RegistryError>(())
                && final(self)@ == (GaugeModel {
                series: old(self)@.series.insert(labels.deep_view(), value),
                ..old(self)@
            }),
    {
        if labels.len() != self.label_dims.len() {
            return Err(RegistryError::LabelCardinality);
        }
        let n = self.series.len();
        let mut i: usize = 0;
        while i < n
            invariant
                i <= n,
                n == self.series@.len(),
                *self == *old(self),
                forall|j: int|
                    0 <= j < i ==> (#[trigger] self.series@[j]).labels.deep_view()
                        != labels.deep_view(),
            decreases n - i,
        {
            if labels_eq(&self.series[i].labels, &labels) {
                let e = SeriesEntry { labels, value };
                proof {
                    assert(self.series@[i as int].labels@.len() == self.label_dims@.len());
                    lemma_series_model_update(self.series@, i as int, e);
                }
                let ghost s1 = self.series@;
                self.series[i] = e;
                proof {
                    let s2 = self.series@;
                    assert forall|p: int, q: int|
                        #![trigger s2[p], s2[q]]
                        0 <= p < q < s2.len() implies s2[p].labels.deep_view()
                        != s2[q].labels.deep_view() by {
                        if p != i && q != i {
                            assert(s2[p] == s1[p]);
                            assert(s2[q] == s1[q]);
                        }
                    }
                }
                return Ok(());
            }
            i += 1;
        }
        let e = SeriesEntry { labels, value };
        proof {
            lemma_series_model_push(self.series@, e);
        }
        self.series.push(e);
        Ok(())
    }
}

impl Registry {
    /// Gauge names pairwise distinct and every gauge well formed.
    pub closed spec fn wf(&self) -> bool {
        &&& forall|i: int, j: int|
            #![trigger self.gauges@[i], self.gauges@[j]]
            0 <= i < j < self.gauges@.len() ==> self.gauges@[i].name@ != self.gauges@[j].name@
        &&& forall|i: int| 0 <= i < self.gauges@.len() ==> (#[trigger] self.gauges@[i]).wf()
    }

    /// An empty registry.
    pub fn new() -> (r: Registry)
        ensures
            r.wf(),
            r@ == Seq::<GaugeModel>::empty(),
    {
        let r = Registry { gauges: Vec::new() };
        proof {
            assert(r@ =~= Seq::<GaugeModel>::empty());
        }
        r
    }

    /// Register a gauge under a unique name with a fixed list of label
    /// dimensions. Refused with [`RegistryError::DuplicateName`], and without
    /// any other effect, when the name is taken.
    #[verifier::loop_isolation(false)]
    pub fn register_gauge(&mut self, name: String, help: String, label_dims: Vec<String>) -> (r:
        Result<GaugeHandle, RegistryError>)
        requires
            old(self).wf(),
        ensures
            final(self).wf(),
            r == spec_register(old(self)@, name@, help@, label_dims.deep_view()).0,
            final(self)@ == spec_register(old(self)@, name@, help@, label_dims.deep_view()).1,
    {
        let n = self.gauges.len();
        let mut i: usize = 0;
        while i < n
            invariant
                i <= n,
                n == self.gauges@.len(),
                *self == *old(self),
                forall|j: int| 0 <= j < i ==> (#[trigger] self.gauges@[j]).name@ != name@,
            decreases n - i,
        {
            if self.gauges[i].name == name {
                assert(self@[i as int].name == name@);
                assert(contains_name(self@, name@));
                return Err(RegistryError::DuplicateName);
            }
            i += 1;
        }
        assert(!contains_name(self@, name@)) by {
            assert forall|j: int| 0 <= j < self@.len() implies (#[trigger] self@[j]).name != name@ by {
                assert(self.gauges@[j].name@ != name@);
            }
        }
        let h = GaugeHandle(self.gauges.len());
        let g = Gauge { name, help, label_dims, series: Vec::new() };
        self.gauges.push(g);
        proof {
            assert(self@ =~= old(self)@.push(self@[old(self)@.len() as int]));
        }
        Ok(h)
    }

    /// Write value bits under a label tuple of one gauge, creating the series
    /// on first use. Refused, and without any other effect, on an unknown
    /// handle or a tuple whose length is not the gauge's dimensionality.
    #[verifier::loop_isolation(false)]
    pub fn set(&mut self, h: GaugeHandle, labels: Vec<String>, value: GaugeValue) -> (r: Result<
        (),
        RegistryError,
    >)
        requires
            old(self).wf(),
        ensures
            final(self).wf(),
            r == spec_set(old(self)@, h, labels.deep_view(), value).0,
            final(self)@ == spec_set(old(self)@, h, labels.deep_view(), value).1,
    {
        if h.0 >= self.gauges.len() {
            return Err(RegistryError::UnknownGauge);
        }
        let ghost pre = *self;
        let g = &mut self.gauges[h.0];
        let r = g.set_series(labels, value);
        proof {
            assert(self.gauges@ =~= pre.gauges@.update(h.0 as int, self.gauges@[h.0 as int]));
            if labels.deep_view().len() == pre@[h.0 as int].dims.len() {
                assert(self@ =~= spec_set(pre@, h, labels.deep_view(), value).1);
            } else {
                assert(self@ =~= pre@);
            }
        }
        r
    }

    /// The stored value bits of one series, `None` where the gauge or the
    /// series does not exist.
    #[verifier::loop_isolation(false)]
    pub fn get(&self, h: GaugeHandle, labels: &Vec<String>) -> (r: Option<GaugeValue>)
        requires
            self.wf(),
        ensures
            r == (if h.0 < self@.len() && self@[h.0 as int].series.contains_key(labels.deep_view()) {
                Some(self@[h.0 as int].series[labels.deep_view()])
            } else {
                None::<GaugeValue>
            }),
    {
        if h.0 >= self.gauges.len() {
            return None;
        }
        let g = &self.gauges[h.0];
        let n = g.series.len();
        let mut i: usize = 0;
        while i < n
            invariant
                i <= n,
                n == g.series@.len(),
                g == &self.gauges[h.0 as int],
                h.0 < self.gauges@.len(),
                self.wf(),
                forall|j: int|
                    0 <= j < i ==> (#[trigger] g.series@[j]).labels.deep_view()
                        != labels.deep_view(),
            decreases n - i,
        {
            if labels_eq(&g.series[i].labels, labels) {
                proof {
                    assert(g.wf());
                    lemma_series_model_value(g.series@, i as int);
                }
                return Some(g.series[i].value);
            }
            i += 1;
        }
        proof {
            lemma_series_model_contains(g.series@, labels.deep_view());
        }
        None
    }

    /// Find a gauge by name.
    #[verifier::loop_isolation(false)]
    pub fn lookup(&self, name: &String) -> (r: Option<GaugeHandle>)
        ensures
            r is Some <==> contains_name(self@, name@),
            r matches Some(h) ==> h.0 < self@.len() && self@[h.0 as int].name == name@,
    {
        let n = self.gauges.len();
        let mut i: usize = 0;
        while i < n
            invariant
                i <= n,
                n == self.gauges@.len(),
                forall|j: int| 0 <= j < i ==> (#[trigger] self.gauges@[j]).name@ != name@,
            decreases n - i,
        {
            if self.gauges[i].name == *name {
                assert(self@[i as int].name == name@);
                return Some(GaugeHandle(i));
            }
            i += 1;
        }
        assert forall|j: int| 0 <= j < self@.len() implies (#[trigger] self@[j]).name != name@ by {
            assert(self.gauges@[j].name@ != name@);
        }
        None
    }

    /// How many gauges are registered.
    pub fn gauge_count(&self) -> (n: usize)
        ensures
            n == self@.len(),
    {
        self.gauges.len()
    }

    /// The name of a gauge.
    pub fn gauge_name(&self, h: GaugeHandle) -> (r: &String)
        requires
            h.0 < self@.len(),
        ensures
            r@ == self@[h.0 as int].name,
    {
        &self.gauges[h.0].name
    }

    /// The help text of a gauge.
    pub fn gauge_help(&self, h: GaugeHandle) -> (r: &String)
        requires
            h.0 < self@.len(),
        ensures
            r@ == self@[h.0 as int].help,
    {
        &self.gauges[h.0].help
    }

    /// The label dimensions of a gauge.
    pub fn gauge_dims(&self, h: GaugeHandle) -> (r: &Vec<String>)
        requires
            h.0 < self@.len(),
        ensures
            r.deep_view() == self@[h.0 as int].dims,
    {
        &self.gauges[h.0].label_dims
    }

    /// How many series a gauge currently holds.
    pub fn series_count(&self, h: GaugeHandle) -> (n: usize)
        requires
            self.wf(),
            h.0 < self@.len(),
        ensures
            n == self@[h.0 as int].series.dom().len(),
    {
        proof {
            assert(self.gauges@[h.0 as int].wf());
            lemma_series_model_len(self.gauges@[h.0 as int].series@, self.gauges@[h.0 as int].label_dims@.len());
        }
        self.gauges[h.0].series.len()
    }

    /// One stored series of a gauge: its label tuple and its value bits.
    pub fn series_at(&self, h: GaugeHandle, i: usize) -> (r: (&Vec<String>, GaugeValue))
        requires
            self.wf(),
            h.0 < self@.len(),
            i < self@[h.0 as int].series.dom().len(),
        ensures
            self@[h.0 as int].series.contains_key(r.0.deep_view()),
            self@[h.0 as int].series[r.0.deep_view()] == r.1,
    {
        proof {
            assert(self.gauges@[h.0 as int].wf());
            lemma_series_model_len(self.gauges@[h.0 as int].series@, self.gauges@[h.0 as int].label_dims@.len());
            lemma_series_model_value(self.gauges@[h.0 as int].series@, i as int);
        }
        let g = &self.gauges[h.0];
        (&g.series[i].labels, g.series[i].value)
    }
}

/// Registering a name a second time is refused and leaves the registry
/// exactly as the first registration left it, whatever help text or label
/// dimensions the second attempt brings.
pub proof fn lemma_duplicate_registration_fails(
    r0: Seq<GaugeModel>,
    name: Seq<char>,
    help1: Seq<char>,
    dims1: Seq<Seq<char>>,
    help2: Seq<char>,
    dims2: Seq<Seq<char>>,
)
    requires
        !contains_name(r0, name),
    ensures
        spec_register(r0, name, help1, dims1).0 is Ok,
        spec_register(spec_register(r0, name, help1, dims1).1, name, help2, dims2).0 == Err::<
            GaugeHandle,
            RegistryError,
        >(RegistryError::DuplicateName),
        spec_register(spec_register(r0, name, help1, dims1).1, name, help2, dims2).1
            == spec_register(r0, name, help1, dims1).1,
{
    let r1 = spec_register(r0, name, help1, dims1).1;
    assert(r1[r0.len() as int].name == name);
    assert(contains_name(r1, name));
}

} // verus!
