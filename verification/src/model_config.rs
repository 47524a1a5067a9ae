//! A model's configuration as published with it, and the checks that decide
//! whether the model can recognise the entity types a user asks for.
use vstd::prelude::*;

use crate::text::{
    contains_str, contains_string, has_prefix, lemma_occurs_in_concat, lemma_occurs_in_split, occurs_in,
    starts_with_str, strs,
};

verus! {

/// Why a model configuration cannot serve a redaction request.
#[derive(Debug)]
pub enum ModelConfigError {
    /// No architecture of the model is a token classifier.
    NotTokenClassifier,
    /// The configuration maps no label ids to labels.
    NoLabelMappings,
    /// No label marks the beginning of a named entity.
    NoNerLabels,
    /// The requested entity types that the model does not recognise, in request order.
    UnsupportedEntityTypes(Vec<String>),
}

/// The contents of a model configuration: its architecture names and its
/// label-id to label mapping, as (id, label) entries with pairwise distinct ids.
pub struct ModelConfigView {
    pub architectures: Seq<Seq<char>>,
    pub id2label: Seq<(Seq<char>, Seq<char>)>,
}

/// No two entries share an id.
pub open spec fn keys_distinct(entries: Seq<(Seq<char>, Seq<char>)>) -> bool {
    forall|i: int, j: int| 0 <= i < j < entries.len() ==> entries[i].0 != entries[j].0
}

/// The part of an architecture name that marks a token classifier.
pub open spec fn classifier_marker() -> Seq<char> {
    "ForTokenClassification"@
}

/// The prefix of a label that begins a named entity.
pub open spec fn begin_tag() -> Seq<char> {
    "B-"@
}

/// Some architecture name contains the token-classifier marker.
pub open spec fn is_token_classifier_of(architectures: Seq<Seq<char>>) -> bool {
    exists|i: int| 0 <= i < architectures.len() && occurs_in(classifier_marker(), #[trigger] architectures[i])
}

/// The entity types named by the entity-beginning labels, in entry order:
/// each label that starts with `B-`, without that prefix.
pub open spec fn ner_labels_of(entries: Seq<(Seq<char>, Seq<char>)>) -> Seq<Seq<char>>
    decreases entries.len(),
{
    if entries.len() == 0 {
        seq![]
    } else {
        let rest = ner_labels_of(entries.drop_last());
        let label = entries.last().1;
        if has_prefix(label, begin_tag()) {
            rest.push(label.skip(begin_tag().len() as int))
        } else {
            rest
        }
    }
}

/// The requested types that are not among the supported ones, in request order.
pub open spec fn unsupported_of(requested: Seq<Seq<char>>, supported: Seq<Seq<char>>) -> Seq<Seq<char>>
    decreases requested.len(),
{
    if requested.len() == 0 {
        seq![]
    } else {
        let rest = unsupported_of(requested.drop_last(), supported);
        if supported.contains(requested.last()) {
            rest
        } else {
            rest.push(requested.last())
        }
    }
}

/// What reading the entity types of a configuration gives.
pub open spec fn ner_labels_result(cfg: ModelConfigView) -> Result<Seq<Seq<char>>, ModelConfigError> {
    if !is_token_classifier_of(cfg.architectures) {
        Err(ModelConfigError::NotTokenClassifier)
    } else if cfg.id2label.len() == 0 {
        Err(ModelConfigError::NoLabelMappings)
    } else if ner_labels_of(cfg.id2label).len() == 0 {
        Err(ModelConfigError::NoNerLabels)
    } else {
        Ok(ner_labels_of(cfg.id2label))
    }
}

/// The outcome of checking requested entity types against a configuration.
pub enum Validation {
    /// The configuration itself is unusable.
    Refused(ModelConfigError),
    /// These requested types (in request order, never empty) are not recognised.
    Unsupported(Seq<Seq<char>>),
    /// Every requested type is recognised.
    Accepted,
}

/// What checking `requested` against `cfg` gives.
pub open spec fn validation_of(cfg: ModelConfigView, requested: Seq<Seq<char>>) -> Validation {
    match ner_labels_result(cfg) {
        Err(e) => Validation::Refused(e),
        Ok(supported) => {
            let unsupported = unsupported_of(requested, supported);
            if unsupported.len() == 0 {
                Validation::Accepted
            } else {
                Validation::Unsupported(unsupported)
            }
        },
    }
}

/// The configuration of a model.
pub struct ModelConfig {
    architectures: Vec<String>,
    id2label: Vec<(String, String)>,
}

/// The (id, label) entries of a vector of string pairs.
pub open spec fn entries_of(v: Seq<(String, String)>) -> Seq<(Seq<char>, Seq<char>)> {
    v.map_values(|p: (String, String)| (p.0@, p.1@))
}

impl View for ModelConfig {
    type V = ModelConfigView;

    closed spec fn view(&self) -> ModelConfigView {
        ModelConfigView { architectures: strs(self.architectures@), id2label: entries_of(self.id2label@) }
    }
}

impl ModelConfig {
    #[verifier::type_invariant]
    spec fn ids_distinct(self) -> bool {
        keys_distinct(entries_of(self.id2label@))
    }

    /// A configuration with the given architectures and no label mappings.
    pub fn new(architectures: Vec<String>) -> (cfg: ModelConfig)
        ensures
            cfg@.architectures == strs(architectures@),
            cfg@.id2label == Seq::<(Seq<char>, Seq<char>)>::empty(),
    {
        let cfg = ModelConfig { architectures, id2label: Vec::new() };
        assert(entries_of(cfg.id2label@) =~= Seq::<(Seq<char>, Seq<char>)>::empty());
        cfg
    }

    /// Maps `id` to `label`, replacing the label that `id` had, if any.
    pub fn insert_label(&mut self, id: String, label: String)
        ensures
            final(self)@.architectures == old(self)@.architectures,
            keys_distinct(final(self)@.id2label),
            forall|k: int|
                0 <= k < old(self)@.id2label.len() && old(self)@.id2label[k].0 == id@
                    ==> final(self)@.id2label == old(self)@.id2label.update(k, (id@, label@)),
            (forall|k: int| 0 <= k < old(self)@.id2label.len() ==> old(self)@.id2label[k].0 != id@)
                ==> final(self)@.id2label == old(self)@.id2label.push((id@, label@)),
    {
        proof {
            use_type_invariant(&*self);
        }
        let ghost old_entries = entries_of(self.id2label@);
        assert(old_entries == old(self)@.id2label);
        let n = self.id2label.len();
        let mut i: usize = 0;
        while i < n
            invariant
                n == self.id2label@.len(),
                i <= n,
                old_entries == entries_of(self.id2label@),
                old_entries == old(self)@.id2label,
                keys_distinct(old_entries),
                self.architectures == old(self).architectures,
                forall|k: int| 0 <= k < i ==> old_entries[k].0 != id@,
            decreases n - i,
        {
            if self.id2label[i].0 == id {
                let ghost k = i as int;
                assert(old_entries[k] == (self.id2label@[k].0@, self.id2label@[k].1@));
                let mut entries: Vec<(String, String)> = Vec::new();
                std::mem::swap(&mut entries, &mut self.id2label);
                entries.set(i, (id, label));
                proof {
                    assert(entries_of(entries@) =~= old_entries.update(k, (id@, label@)));
                    assert forall|k2: int| 0 <= k2 < old_entries.len() && old_entries[k2].0 == id@
                        implies k2 == k by {
                        if k2 != k {
                            assert(old_entries[k].0 == id@);
                        }
                    }
                    assert(old_entries[k].0 == id@);
                }
                self.id2label = entries;
                assert(self@.id2label == old(self)@.id2label.update(k, (id@, label@)));
                return;
            }
            i = i + 1;
        }
        let mut entries: Vec<(String, String)> = Vec::new();
        std::mem::swap(&mut entries, &mut self.id2label);
        entries.push((id, label));
        assert(entries_of(entries@) =~= old_entries.push((id@, label@)));
        self.id2label = entries;
    }

    /// Whether some architecture of the model classifies tokens.
    pub fn is_token_classifier(&self) -> (r: bool)
        ensures
            r == is_token_classifier_of(self@.architectures),
    {
        let n = self.architectures.len();
        let mut i: usize = 0;
        while i < n
            invariant
                n == self.architectures@.len(),
                i <= n,
                forall|k: int| 0 <= k < i ==> !occurs_in(classifier_marker(), #[trigger] strs(self.architectures@)[k]),
            decreases n - i,
        {
            if contains_str(self.architectures[i].as_str(), "ForTokenClassification") {
                assert(occurs_in(classifier_marker(), strs(self.architectures@)[i as int]));
                return true;
            }
            i = i + 1;
        }
        false
    }

    /// The entity types that the model recognises: each label that begins an
    /// entity (`B-` followed by the type), without its prefix.
    pub fn get_ner_labels(&self) -> (r: Result<Vec<String>, ModelConfigError>)
        ensures
            match ner_labels_result(self@) {
                Ok(labels) => r matches Ok(v) && strs(v@) == labels,
                Err(e) => r == Err::<Vec<String>, ModelConfigError>(e),
            },
    {
        if !self.is_token_classifier() {
            return Err(ModelConfigError::NotTokenClassifier);
        }
        if self.id2label.len() == 0 {
            return Err(ModelConfigError::NoLabelMappings);
        }
        proof {
            reveal_strlit("B-");
        }
        let n = self.id2label.len();
        let mut out: Vec<String> = Vec::new();
        let mut i: usize = 0;
        while i < n
            invariant
                n == self.id2label@.len(),
                i <= n,
                begin_tag().len() == 2,
                strs(out@) == ner_labels_of(entries_of(self.id2label@).take(i as int)),
            decreases n - i,
        {
            let ghost prefix = entries_of(self.id2label@).take(i as int);
            assert(entries_of(self.id2label@).take(i + 1).drop_last() =~= prefix);
            let label = self.id2label[i].1.as_str();
            if starts_with_str(label, "B-") {
                let len = label.unicode_len();
                let rest = label.substring_char(2, len);
                out.push(String::from_str(rest));
                assert(strs(out@) =~= ner_labels_of(prefix).push(label@.skip(2)));
            }
            i = i + 1;
        }
        assert(entries_of(self.id2label@).take(n as int) =~= entries_of(self.id2label@));
        if out.len() == 0 {
            return Err(ModelConfigError::NoNerLabels);
        }
        Ok(out)
    }

    /// Checks that the model recognises every requested entity type.
    /// Fails with the reason the configuration is unusable, or with the
    /// requested types it does not recognise, in request order.
    pub fn validate_entity_types(&self, requested_types: &[String]) -> (r: Result<(), ModelConfigError>)
        ensures
            match validation_of(self@, strs(requested_types@)) {
                Validation::Refused(e) => r == Err::<(), ModelConfigError>(e),
                Validation::Unsupported(u) => r matches Err(ModelConfigError::UnsupportedEntityTypes(v)) && strs(v@) == u,
                Validation::Accepted => r is Ok,
            },
    {
        let supported = match self.get_ner_labels() {
            Ok(s) => s,
            Err(e) => return Err(e),
        };
        let ghost sup = strs(supported@);
        let n = requested_types.len();
        let mut unsupported: Vec<String> = Vec::new();
        let mut i: usize = 0;
        while i < n
            invariant
                n == requested_types@.len(),
                i <= n,
                sup == strs(supported@),
                strs(unsupported@) == unsupported_of(strs(requested_types@).take(i as int), sup),
            decreases n - i,
        {
            let ghost prefix = strs(requested_types@).take(i as int);
            assert(strs(requested_types@).take(i + 1).drop_last() =~= prefix);
            if !contains_string(&supported, &requested_types[i]) {
                unsupported.push(requested_types[i].clone());
                assert(strs(unsupported@) =~= unsupported_of(prefix, sup).push(requested_types@[i as int]@));
            }
            i = i + 1;
        }
        assert(strs(requested_types@).take(n as int) =~= strs(requested_types@));
        if unsupported.len() != 0 {
            return Err(ModelConfigError::UnsupportedEntityTypes(unsupported));
        }
        Ok(())
    }
}

/// A requested type is reported unsupported exactly when it was requested and
/// is not among the supported types.
pub proof fn lemma_unsupported_members(requested: Seq<Seq<char>>, supported: Seq<Seq<char>>)
    ensures
        forall|t: Seq<char>| #[trigger]
            unsupported_of(requested, supported).contains(t) <==> (requested.contains(t)
                && !supported.contains(t)),
    decreases requested.len(),
{
    broadcast use vstd::seq_lib::lemma_seq_contains_after_push;
    broadcast use vstd::seq_lib::lemma_seq_empty_contains_nothing;

    if requested.len() == 0 {
        assert(requested =~= Seq::<Seq<char>>::empty());
    } else {
        let init = requested.drop_last();
        let last = requested.last();
        lemma_unsupported_members(init, supported);
        assert(requested =~= init.push(last));
        let rest = unsupported_of(init, supported);
        assert forall|t: Seq<char>| #[trigger]
            unsupported_of(requested, supported).contains(t) <==> (requested.contains(t)
                && !supported.contains(t)) by {
            assert(init.push(last).contains(t) <==> (last == t || init.contains(t)));
            assert(rest.push(last).contains(t) <==> (last == t || rest.contains(t)));
        }
    }
}

/// A request is accepted exactly when the configuration yields entity types
/// and every requested type is among them.
pub proof fn lemma_accepted_iff_all_supported(cfg: ModelConfigView, requested: Seq<Seq<char>>)
    ensures
        validation_of(cfg, requested) is Accepted <==> (ner_labels_result(cfg) matches Ok(supported)
            && forall|i: int| 0 <= i < requested.len() ==> supported.contains(#[trigger] requested[i])),
{
    if let Ok(supported) = ner_labels_result(cfg) {
        let u = unsupported_of(requested, supported);
        lemma_unsupported_members(requested, supported);
        if u.len() == 0 {
            assert forall|i: int| 0 <= i < requested.len() implies supported.contains(#[trigger] requested[i]) by {
                assert(requested.contains(requested[i]));
                if !supported.contains(requested[i]) {
                    assert(u.contains(requested[i]));
                }
            }
        } else {
            assert(u.contains(u[0]));
            let t = u[0];
            let i = choose|i: int| 0 <= i < requested.len() && requested[i] == t;
            assert(!supported.contains(requested[i]));
        }
    }
}

/// Dropping requested types never turns an accepted request into a refused one.
pub proof fn lemma_accepted_subrequest(cfg: ModelConfigView, requested: Seq<Seq<char>>, fewer: Seq<Seq<char>>)
    requires
        validation_of(cfg, requested) is Accepted,
        forall|i: int| 0 <= i < fewer.len() ==> requested.contains(#[trigger] fewer[i]),
    ensures
        validation_of(cfg, fewer) is Accepted,
{
    lemma_accepted_iff_all_supported(cfg, requested);
    lemma_accepted_iff_all_supported(cfg, fewer);
    if let Ok(supported) = ner_labels_result(cfg) {
        assert forall|i: int| 0 <= i < fewer.len() implies supported.contains(#[trigger] fewer[i]) by {
            let j = choose|j: int| 0 <= j < requested.len() && requested[j] == fewer[i];
            assert(supported.contains(requested[j]));
        }
    }
}

/// Whenever a configuration yields entity types, requesting exactly those
/// types, or none at all, is accepted.
pub proof fn lemma_recognised_types_accepted(cfg: ModelConfigView)
    requires
        ner_labels_result(cfg) is Ok,
    ensures
        validation_of(cfg, ner_labels_of(cfg.id2label)) is Accepted,
        validation_of(cfg, Seq::<Seq<char>>::empty()) is Accepted,
{
    let supported = ner_labels_of(cfg.id2label);
    lemma_accepted_iff_all_supported(cfg, supported);
    lemma_accepted_iff_all_supported(cfg, Seq::<Seq<char>>::empty());
    assert forall|i: int| 0 <= i < supported.len() implies supported.contains(#[trigger] supported[i]) by {}
}

/// The entity types of a configuration are exactly the labels that begin with
/// `B-`, without that prefix, whatever order the entries come in.
pub proof fn lemma_ner_labels_members(entries: Seq<(Seq<char>, Seq<char>)>)
    ensures
        forall|t: Seq<char>| #[trigger]
            ner_labels_of(entries).contains(t) <==> exists|i: int|
                0 <= i < entries.len() && has_prefix(#[trigger] entries[i].1, begin_tag())
                    && entries[i].1.skip(begin_tag().len() as int) == t,
    decreases entries.len(),
{
    broadcast use vstd::seq_lib::lemma_seq_contains_after_push;
    broadcast use vstd::seq_lib::lemma_seq_empty_contains_nothing;

    if entries.len() > 0 {
        let init = entries.drop_last();
        lemma_ner_labels_members(init);
        let last = entries.last();
        assert(init.len() < entries.len());
        assert forall|t: Seq<char>| #[trigger] ner_labels_of(entries).contains(t) <==> exists|i: int|
            0 <= i < entries.len() && has_prefix(#[trigger] entries[i].1, begin_tag())
                && entries[i].1.skip(begin_tag().len() as int) == t by {
            if ner_labels_of(entries).contains(t) {
                if ner_labels_of(init).contains(t) {
                    let i = choose|i: int|
                        0 <= i < init.len() && has_prefix(#[trigger] init[i].1, begin_tag())
                            && init[i].1.skip(begin_tag().len() as int) == t;
                    assert(entries[i] == init[i]);
                } else {
                    assert(has_prefix(last.1, begin_tag()));
                    assert(last.1.skip(begin_tag().len() as int) == t);
                    assert(entries[entries.len() - 1] == last);
                }
            }
            if exists|i: int|
                0 <= i < entries.len() && has_prefix(#[trigger] entries[i].1, begin_tag())
                    && entries[i].1.skip(begin_tag().len() as int) == t {
                let i = choose|i: int|
                    0 <= i < entries.len() && has_prefix(#[trigger] entries[i].1, begin_tag())
                        && entries[i].1.skip(begin_tag().len() as int) == t;
                if i < entries.len() - 1 {
                    assert(init[i] == entries[i]);
                    assert(ner_labels_of(init).contains(t));
                } else {
                    assert(entries[i] == last);
                    assert(ner_labels_of(entries) == ner_labels_of(init).push(t));
                }
            }
        }
    }
}

/// A configuration with an architecture named anything, then
/// `ForTokenClassification`, then anything, is a token classifier.
pub proof fn lemma_token_classifier_named(
    architectures: Seq<Seq<char>>,
    i: int,
    before: Seq<char>,
    after: Seq<char>,
)
    requires
        0 <= i < architectures.len(),
        architectures[i] == before + "ForTokenClassification"@ + after,
    ensures
        is_token_classifier_of(architectures),
{
    lemma_occurs_in_concat(before, "ForTokenClassification"@, after);
    assert(occurs_in(classifier_marker(), architectures[i]));
}

/// A token classifier has an architecture whose name contains `ForTokenClassification`.
pub proof fn lemma_token_classifier_has_marker(architectures: Seq<Seq<char>>)
    requires
        is_token_classifier_of(architectures),
    ensures
        exists|i: int, before: Seq<char>, after: Seq<char>|
            #![auto]
            0 <= i < architectures.len() && architectures[i] == before + "ForTokenClassification"@ + after,
{
    let i = choose|i: int| 0 <= i < architectures.len() && occurs_in(classifier_marker(), #[trigger] architectures[i]);
    lemma_occurs_in_split(classifier_marker(), architectures[i]);
    let (before, after) = choose|before: Seq<char>, after: Seq<char>|
        #![auto]
        architectures[i] == before + classifier_marker() + after;
    assert(architectures[i] == before + "ForTokenClassification"@ + after);
}

/// A label starts with `B-` exactly when its first two characters are `B` and `-`.
proof fn lemma_begin_tag_chars(label: Seq<char>)
    ensures
        has_prefix(label, begin_tag()) <==> (label.len() >= 2 && label[0] == 'B' && label[1] == '-'),
        begin_tag().len() == 2,
{
    reveal_strlit("B-");
    if label.len() >= 2 && label[0] == 'B' && label[1] == '-' {
        assert(label.subrange(0, 2) =~= begin_tag());
    }
    if has_prefix(label, begin_tag()) {
        assert(label.subrange(0, 2)[0] == label[0]);
        assert(label.subrange(0, 2)[1] == label[1]);
    }
}

/// The entity types of a configuration are its labels whose first two
/// characters are `B-`, each without those two characters, in entry order.
pub proof fn lemma_ner_labels_in_entry_order(entries: Seq<(Seq<char>, Seq<char>)>)
    ensures
        ner_labels_of(entries) == entries.filter(
            |e: (Seq<char>, Seq<char>)| e.1.len() >= 2 && e.1[0] == 'B' && e.1[1] == '-',
        ).map_values(|e: (Seq<char>, Seq<char>)| e.1.skip(2)),
    decreases entries.len(),
{
    let pred = |e: (Seq<char>, Seq<char>)| e.1.len() >= 2 && e.1[0] == 'B' && e.1[1] == '-';
    let f = |e: (Seq<char>, Seq<char>)| e.1.skip(2);
    reveal_with_fuel(Seq::filter, 1);
    if entries.len() == 0 {
        assert(entries.filter(pred).map_values(f) =~= Seq::<Seq<char>>::empty());
    } else {
        let init = entries.drop_last();
        let last = entries.last();
        lemma_ner_labels_in_entry_order(init);
        lemma_begin_tag_chars(last.1);
        if pred(last) {
            init.filter(pred).lemma_push_map_commute(f, last);
            assert(entries.filter(pred) == init.filter(pred).push(last));
            assert(ner_labels_of(entries) =~= entries.filter(pred).map_values(f));
        } else {
            assert(entries.filter(pred) == init.filter(pred));
        }
    }
}

/// Reading the entity types of a configuration: refused when no architecture is
/// a token classifier; then when it has no labels; then when no label starts with
/// `B-`; otherwise those labels without their first two characters, in entry
/// order, however many labels there are.
pub proof fn lemma_ner_labels_result_cases(cfg: ModelConfigView)
    ensures
        !is_token_classifier_of(cfg.architectures) ==> ner_labels_result(cfg)
            == Err::<Seq<Seq<char>>, ModelConfigError>(ModelConfigError::NotTokenClassifier),
        is_token_classifier_of(cfg.architectures) && cfg.id2label.len() == 0 ==> ner_labels_result(cfg)
            == Err::<Seq<Seq<char>>, ModelConfigError>(ModelConfigError::NoLabelMappings),
        is_token_classifier_of(cfg.architectures) && cfg.id2label.len() > 0 && (forall|i: int|
            0 <= i < cfg.id2label.len() ==> !(cfg.id2label[i].1.len() >= 2 && cfg.id2label[i].1[0] == 'B'
                && #[trigger] cfg.id2label[i].1[1] == '-')) ==> ner_labels_result(cfg)
            == Err::<Seq<Seq<char>>, ModelConfigError>(ModelConfigError::NoNerLabels),
        is_token_classifier_of(cfg.architectures) && (exists|i: int|
            0 <= i < cfg.id2label.len() && cfg.id2label[i].1.len() >= 2 && cfg.id2label[i].1[0] == 'B'
                && #[trigger] cfg.id2label[i].1[1] == '-') ==> ner_labels_result(cfg)
            == Ok::<Seq<Seq<char>>, ModelConfigError>(
            cfg.id2label.filter(
                |e: (Seq<char>, Seq<char>)| e.1.len() >= 2 && e.1[0] == 'B' && e.1[1] == '-',
            ).map_values(|e: (Seq<char>, Seq<char>)| e.1.skip(2)),
        ),
{
    let entries = cfg.id2label;
    lemma_ner_labels_in_entry_order(entries);
    lemma_ner_labels_members(entries);
    if exists|i: int|
        0 <= i < entries.len() && entries[i].1.len() >= 2 && entries[i].1[0] == 'B'
            && #[trigger] entries[i].1[1] == '-' {
        let i = choose|i: int|
            0 <= i < entries.len() && entries[i].1.len() >= 2 && entries[i].1[0] == 'B'
                && #[trigger] entries[i].1[1] == '-';
        lemma_begin_tag_chars(entries[i].1);
        assert(ner_labels_of(entries).contains(entries[i].1.skip(begin_tag().len() as int)));
    }
    if ner_labels_of(entries).len() > 0 {
        assert(ner_labels_of(entries).contains(ner_labels_of(entries)[0]));
        let t = ner_labels_of(entries)[0];
        let i = choose|i: int|
            0 <= i < entries.len() && has_prefix(#[trigger] entries[i].1, begin_tag())
                && entries[i].1.skip(begin_tag().len() as int) == t;
        lemma_begin_tag_chars(entries[i].1);
    }
}

/// The unsupported types are the requested types not among the supported ones,
/// kept in request order, each as often as requested.
pub proof fn lemma_unsupported_in_request_order(requested: Seq<Seq<char>>, supported: Seq<Seq<char>>)
    ensures
        unsupported_of(requested, supported) == requested.filter(|t: Seq<char>| !supported.contains(t)),
    decreases requested.len(),
{
    let pred = |t: Seq<char>| !supported.contains(t);
    reveal_with_fuel(Seq::filter, 1);
    if requested.len() > 0 {
        lemma_unsupported_in_request_order(requested.drop_last(), supported);
    }
}

/// Checking requested types: refused with the configuration's own error when it
/// yields no entity types; otherwise accepted when every requested type is
/// supported, and else refused with the unsupported ones in request order.
pub proof fn lemma_validation_cases(cfg: ModelConfigView, requested: Seq<Seq<char>>)
    ensures
        ner_labels_result(cfg) matches Err(e) ==> validation_of(cfg, requested) == Validation::Refused(e),
        ner_labels_result(cfg) matches Ok(supported) ==> ({
            let unsupported = requested.filter(|t: Seq<char>| !supported.contains(t));
            &&& unsupported.len() == 0 ==> validation_of(cfg, requested) is Accepted
            &&& unsupported.len() > 0 ==> validation_of(cfg, requested) == Validation::Unsupported(unsupported)
        }),
{
    if let Ok(supported) = ner_labels_result(cfg) {
        lemma_unsupported_in_request_order(requested, supported);
    }
}

} // verus!
