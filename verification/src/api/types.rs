//! The records that travel between the client and the tracking server, as
//! plain values.
use vstd::prelude::*;

verus! {

/// Tags of a card: at most one value for each name. The pairs keep the order
/// in which their names were first given.
#[derive(Debug, Clone, PartialEq, Eq)]
pub struct Tags {
    entries: Vec<(String, String)>,
}

/// The tags that the first `n` pairs define, a later pair replacing an
/// earlier one of the same name.
pub open spec fn tags_of(pairs: Seq<(Seq<char>, Seq<char>)>, n: int) -> Map<Seq<char>, Seq<char>>
    decreases n,
{
    if n <= 0 {
        Map::empty()
    } else {
        tags_of(pairs, n - 1).insert(pairs[n - 1].0, pairs[n - 1].1)
    }
}

/// The pairs as sequences of characters.
pub open spec fn pairs_text(entries: Seq<(String, String)>) -> Seq<(Seq<char>, Seq<char>)> {
    Seq::new(entries.len(), |i: int| (entries[i].0@, entries[i].1@))
}

/// No name stands in two of the pairs.
pub open spec fn distinct_names(pairs: Seq<(Seq<char>, Seq<char>)>) -> bool {
    forall|i: int, j: int| 0 <= i < j < pairs.len() ==> pairs[i].0 != pairs[j].0
}

/// Whether one of the pairs has the name `name`.
pub open spec fn names(pairs: Seq<(Seq<char>, Seq<char>)>, name: Seq<char>) -> bool {
    exists|i: int| 0 <= i < pairs.len() && #[trigger] pairs[i].0 == name
}

/// The pairs once `name` has been given `value`: a name that is known keeps
/// its place and takes the new value, a new name goes behind the others.
pub open spec fn with_pair(
    pairs: Seq<(Seq<char>, Seq<char>)>,
    name: Seq<char>,
    value: Seq<char>,
) -> Seq<(Seq<char>, Seq<char>)> {
    if names(pairs, name) {
        Seq::new(
            pairs.len(),
            |i: int|
                if pairs[i].0 == name {
                    (name, value)
                } else {
                    pairs[i]
                },
        )
    } else {
        pairs.push((name, value))
    }
}

/// The first `n` pairs define no name that is not among them.
pub proof fn lemma_tags_domain(pairs: Seq<(Seq<char>, Seq<char>)>, n: int, name: Seq<char>)
    requires
        0 <= n <= pairs.len(),
    ensures
        tags_of(pairs, n).dom().contains(name) <==> exists|i: int|
            0 <= i < n && #[trigger] pairs[i].0 == name,
    decreases n,
{
    if n > 0 {
        lemma_tags_domain(pairs, n - 1, name);
        if pairs[n - 1].0 == name {
            assert(0 <= n - 1 < n && pairs[n - 1].0 == name);
        }
    }
}

/// Among pairs of distinct names each pair defines its own name.
pub proof fn lemma_tags_value(pairs: Seq<(Seq<char>, Seq<char>)>, n: int, i: int)
    requires
        0 <= i < n <= pairs.len(),
        distinct_names(pairs),
    ensures
        tags_of(pairs, n).dom().contains(pairs[i].0),
        tags_of(pairs, n)[pairs[i].0] == pairs[i].1,
    decreases n,
{
    if i < n - 1 {
        lemma_tags_value(pairs, n - 1, i);
    }
}

/// What the pairs define depends on nothing behind the `n`th.
pub proof fn lemma_tags_prefix(
    a: Seq<(Seq<char>, Seq<char>)>,
    b: Seq<(Seq<char>, Seq<char>)>,
    n: int,
)
    requires
        0 <= n <= a.len(),
        n <= b.len(),
        forall|i: int| 0 <= i < n ==> a[i] == b[i],
    ensures
        tags_of(a, n) == tags_of(b, n),
    decreases n,
{
    if n > 0 {
        lemma_tags_prefix(a, b, n - 1);
    }
}

/// Replacing the value of the pair at `at` replaces the value of its name.
proof fn lemma_tags_replace(
    a: Seq<(Seq<char>, Seq<char>)>,
    b: Seq<(Seq<char>, Seq<char>)>,
    n: int,
    at: int,
)
    requires
        0 <= at < a.len(),
        0 <= n <= a.len(),
        a.len() == b.len(),
        distinct_names(a),
        b[at].0 == a[at].0,
        forall|i: int| 0 <= i < a.len() && i != at ==> a[i] == b[i],
    ensures
        n <= at ==> tags_of(b, n) == tags_of(a, n),
        n > at ==> tags_of(b, n) =~= tags_of(a, n).insert(a[at].0, b[at].1),
    decreases n,
{
    if n > 0 {
        lemma_tags_replace(a, b, n - 1, at);
    }
}

impl Tags {
    /// No name has two values.
    pub open spec fn wf(&self) -> bool {
        distinct_names(self.pairs())
    }

    /// The pairs in the order in which their names were first given.
    pub closed spec fn pairs(&self) -> Seq<(Seq<char>, Seq<char>)> {
        pairs_text(self.entries@)
    }

    pub fn new() -> (tags: Tags)
        ensures
            tags.wf(),
            tags@ == Map::<Seq<char>, Seq<char>>::empty(),
            tags.pairs().len() == 0,
    {
        let tags = Tags { entries: Vec::new() };
        assert(tags.pairs() =~= Seq::empty());
        tags
    }

    /// The position of the pair named `name`, if there is one.
    fn position(&self, name: &String) -> (at: Option<usize>)
        ensures
            match at {
                Some(i) => i < self.pairs().len() && self.pairs()[i as int].0 == name@,
                None => forall|i: int| 0 <= i < self.pairs().len() ==> self.pairs()[i].0 != name@,
            },
    {
        let mut i: usize = 0;
        while i < self.entries.len()
            invariant
                i <= self.entries.len(),
                forall|k: int| 0 <= k < i ==> self.pairs()[k].0 != name@,
            decreases self.entries.len() - i,
        {
            if self.entries[i].0 == *name {
                return Some(i);
            }
            i = i + 1;
        }
        None
    }

    /// Gives `name` the value `value`, in place of any value it had.
    pub fn insert(&mut self, name: String, value: String)
        requires
            old(self).wf(),
        ensures
            final(self).wf(),
            final(self)@ == old(self)@.insert(name@, value@),
            final(self).pairs() == with_pair(old(self).pairs(), name@, value@),
    {
        let ghost before = self.pairs();
        match self.position(&name) {
            Some(at) => {
                self.entries.set(at, (name, value));
                proof {
                    let after = pairs_text(self.entries@);
                    assert(after.len() == before.len());
                    assert(after[at as int].0 == before[at as int].0);
                    assert forall|i: int| 0 <= i < before.len() && i != at implies before[i]
                        == after[i] by {}
                    lemma_tags_replace(before, after, before.len() as int, at as int);
                    assert(before[at as int].0 == name@);
                    assert(after =~= with_pair(before, name@, value@));
                    assert forall|i: int, j: int| 0 <= i < j < after.len() implies after[i].0
                        != after[j].0 by {
                        assert(before[i].0 != before[j].0);
                    }
                }
            },
            None => {
                self.entries.push((name, value));
                proof {
                    let after = pairs_text(self.entries@);
                    assert(after.len() == before.len() + 1);
                    assert(after[before.len() as int] == (name@, value@));
                    assert forall|i: int| 0 <= i < before.len() implies after[i] == before[i] by {}
                    lemma_tags_prefix(before, after, before.len() as int);
                    assert(after =~= with_pair(before, name@, value@));
                    assert forall|i: int, j: int| 0 <= i < j < after.len() implies after[i].0
                        != after[j].0 by {
                        if j < before.len() {
                            assert(before[i].0 != before[j].0);
                        } else {
                            assert(before[i].0 != name@);
                        }
                    }
                }
            },
        }
    }

    /// The value of `name`, if it has one.
    pub fn get(&self, name: &String) -> (value: Option<&String>)
        requires
            self.wf(),
        ensures
            match value {
                Some(v) => self@.dom().contains(name@) && self@[name@] == v@,
                None => !self@.dom().contains(name@),
            },
    {
        proof {
            lemma_tags_domain(self.pairs(), self.pairs().len() as int, name@);
        }
        match self.position(name) {
            Some(at) => {
                proof {
                    lemma_tags_value(self.pairs(), self.pairs().len() as int, at as int);
                }
                Some(&self.entries[at].1)
            },
            None => None,
        }
    }

    /// The number of names that have a value.
    pub fn len(&self) -> (n: usize)
        ensures
            n == self.pairs().len(),
    {
        self.entries.len()
    }

    /// The name and the value of the pair at `at`.
    pub fn entry(&self, at: usize) -> (pair: (&String, &String))
        requires
            self.wf(),
            at < self.pairs().len(),
        ensures
            (pair.0@, pair.1@) == self.pairs()[at as int],
            self@.dom().contains(pair.0@),
            self@[pair.0@] == pair.1@,
    {
        proof {
            lemma_tags_value(self.pairs(), self.pairs().len() as int, at as int);
        }
        (&self.entries[at].0, &self.entries[at].1)
    }

}

impl View for Tags {
    type V = Map<Seq<char>, Seq<char>>;

    /// The value of each name: what the pairs define.
    open spec fn view(&self) -> Map<Seq<char>, Seq<char>> {
        tags_of(self.pairs(), self.pairs().len() as int)
    }
}

/// The body of a request for the metadata of one model.
#[derive(Debug, Clone, Copy, PartialEq, Eq)]
pub struct ModelMetadataRequest<'a> {
    pub name: Option<&'a str>,
    pub version: Option<&'a str>,
    pub repository: Option<&'a str>,
    pub uid: Option<&'a str>,
    pub ignore_release_candidates: &'a bool,
}

/// The body of a request for the cards of a registry.
#[derive(Debug, Clone, Copy, PartialEq, Eq)]
pub struct ListTableRequest<'a> {
    pub registry_type: &'a str,
    pub name: Option<&'a str>,
    pub repository: Option<&'a str>,
    pub version: Option<&'a str>,
    pub uid: Option<&'a str>,
    pub limit: Option<&'a i16>,
    pub tags: &'a Tags,
    pub max_date: Option<&'a str>,
    pub ignore_release_candidates: &'a bool,
}

/// A catalog record of a versioned artifact.
#[derive(Debug, Clone, PartialEq, Eq)]
pub struct Card {
    pub name: String,
    pub repository: String,
    pub date: Option<String>,
    pub contact: String,
    pub version: String,
    pub uid: String,
    pub tags: Tags,
}

/// The cards that the server lists for a request.
#[derive(Debug, Clone, PartialEq, Eq)]
pub struct ListCardResponse {
    pub cards: Vec<Card>,
}

/// One row of the table of cards.
#[derive(Debug, Clone, PartialEq, Eq)]
pub struct CardTable {
    pub name: String,
    pub repository: String,
    pub date: String,
    pub contact: String,
    pub version: String,
    pub uid: String,
}

/// The remote files below one remote path, in the order of the listing.
#[derive(Debug, Clone, PartialEq, Eq)]
pub struct ListFileResponse {
    pub files: Vec<String>,
}

/// One recorded metric of a run. The value, the step and the timestamp are
/// held as the JSON text in which the server gave them.
#[derive(Debug, Clone, PartialEq, Eq)]
pub struct Metric {
    pub run_uid: String,
    pub name: String,
    pub value: String,
    pub step: Option<String>,
    pub timestamp: Option<String>,
}

/// The metrics that the server lists for a run.
#[derive(Debug, Clone, PartialEq, Eq)]
pub struct ListMetricResponse {
    pub metric: Vec<Metric>,
}

/// One row of the table of metrics.
#[derive(Debug, Clone, PartialEq, Eq)]
pub struct MetricTable {
    pub metric: String,
    pub value: String,
    pub step: String,
    pub timestamp: String,
}

/// One row of the table that compares a challenger with its champions. The
/// version and the two values are held as the JSON text in which the server
/// gave them.
#[derive(Debug, Clone, PartialEq, Eq)]
pub struct CompareMetricTable {
    pub champion_name: String,
    pub champion_version: String,
    pub metric: String,
    pub champion_value: String,
    pub challenger_value: String,
    pub challenger_win: bool,
}

/// What the server records of one model version: its identity and where its
/// files are stored. The data schema of the record is no part of any
/// decision and stays with the wire form of the record.
#[derive(Debug, Clone, PartialEq, Eq)]
pub struct ModelMetadata {
    pub model_name: String,
    pub model_class: String,
    pub model_type: String,
    pub model_interface: String,
    pub onnx_uri: Option<String>,
    pub onnx_version: Option<String>,
    pub model_uri: String,
    pub model_version: String,
    pub model_repository: String,
    pub sample_data_uri: String,
    pub preprocessor_uri: Option<String>,
    pub preprocessor_name: Option<String>,
    pub tokenizer_uri: Option<String>,
    pub tokenizer_name: Option<String>,
    pub feature_extractor_uri: Option<String>,
    pub feature_extractor_name: Option<String>,
    pub quantized_model_uri: Option<String>,
}

/// A short-lived permission to fetch one remote file once.
#[derive(Debug, PartialEq, Eq)]
pub struct PresignedUrl {
    pub url: String,
}

} // verus!
