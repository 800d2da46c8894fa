//! Dictionaries: named, typed, origin-tagged bundles of parsed vocabulary
//! entries together with the report of malformed source lines, and the
//! materialization of fetched dictionary bodies into the two type buckets.

use vstd::pervasive::VecAdditionalExecFns;
use vstd::prelude::*;

use crate::parser::{entries_of, invalid_of, parse_dictionary_body, split_lines};

verus! {

/// The kind of text a dictionary holds, which decides the query rules
/// applied to it.
#[derive(Clone, Copy, Debug, PartialEq, Eq, Hash, Structural)]
pub enum DictionaryType {
    /// Individual words.
    Word,
    /// Complete sentences or phrases.
    Sentence,
}

/// Where a dictionary comes from; part of its identity.
#[derive(Clone, Copy, Debug, PartialEq, Eq, Hash, Structural)]
pub enum DictionaryOrigin {
    /// Shipped with the application.
    Builtin,
    /// Created or imported by the user.
    UserDefined,
}

/// The mathematical value of a dictionary.
#[verifier::ext_equal]
pub ghost struct DictionaryModel {
    pub name: Seq<char>,
    pub dictionary_type: DictionaryType,
    pub origin: DictionaryOrigin,
    pub entries: Seq<typing_engine::VocabularyEntry>,
    pub invalid_lines: Seq<int>,
}

/// A dictionary: immutable once constructed; its identity within a type
/// bucket is the pair of origin and name.
pub struct Dictionary {
    /// Name of the dictionary.
    pub name: String,
    /// The bucket the dictionary belongs to.
    pub dictionary_type: DictionaryType,
    /// Where the dictionary came from.
    pub origin: DictionaryOrigin,
    /// The parsed entries, in source order.
    pub vocabulary_entries: Vec<typing_engine::VocabularyEntry>,
    /// The 1-indexed numbers of the source lines that did not parse,
    /// ascending.
    pub invalid_line_numbers: Vec<usize>,
}

impl View for Dictionary {
    type V = DictionaryModel;

    open spec fn view(&self) -> DictionaryModel {
        DictionaryModel {
            name: self.name@,
            dictionary_type: self.dictionary_type,
            origin: self.origin,
            entries: self.vocabulary_entries@,
            invalid_lines: self.invalid_line_numbers@.map_values(|u: usize| u as int),
        }
    }
}

/// The dictionary a parsed body produces.
pub open spec fn body_dictionary(
    name: Seq<char>,
    dictionary_type: DictionaryType,
    origin: DictionaryOrigin,
    body: Seq<char>,
) -> DictionaryModel {
    DictionaryModel {
        name,
        dictionary_type,
        origin,
        entries: entries_of(split_lines(body)),
        invalid_lines: invalid_of(split_lines(body)),
    }
}

/// The displayable metadata of one dictionary: everything but the entries
/// themselves, of which only the count remains.
pub struct DictionaryInfo {
    /// Name of the dictionary.
    pub name: String,
    /// The bucket the dictionary belongs to.
    pub dictionary_type: DictionaryType,
    /// Where the dictionary came from.
    pub origin: DictionaryOrigin,
    /// The 1-indexed numbers of the source lines that did not parse.
    pub invalid_line_numbers: Vec<usize>,
    /// How many entries parsed.
    pub valid_vocabulary_count: usize,
}

fn copy_line_numbers(v: &Vec<usize>) -> (r: Vec<usize>)
    ensures
        r@ == v@,
{
    let mut r: Vec<usize> = Vec::new();
    let mut i: usize = 0;
    while i < v.len()
        invariant
            i <= v@.len(),
            r@ == v@.take(i as int),
        decreases v@.len() - i,
    {
        r.push(v[i]);
        i = i + 1;
        proof {
            assert(r@ =~= v@.take(i as int));
        }
    }
    proof {
        assert(v@.take(v@.len() as int) =~= v@);
    }
    r
}

impl Dictionary {
    /// Builds a dictionary from the fetched text body of its source file.
    /// Parsing never fails: malformed lines only extend the invalid-line
    /// report.
    pub fn from_body(
        name: String,
        dictionary_type: DictionaryType,
        origin: DictionaryOrigin,
        body: &str,
    ) -> (d: Dictionary)
        ensures
            d@ == body_dictionary(name@, dictionary_type, origin, body@),
    {
        let (vocabulary_entries, invalid_line_numbers) = parse_dictionary_body(body);
        let d = Dictionary { name, dictionary_type, origin, vocabulary_entries, invalid_line_numbers };
        proof {
            assert(d@ =~= body_dictionary(d.name@, dictionary_type, origin, body@));
        }
        d
    }

    /// Projects the dictionary to its displayable metadata: name, type,
    /// origin and the invalid-line report are kept exactly; of the entries
    /// only their count is exposed.
    pub fn construct_dictionary_info(&self) -> (info: DictionaryInfo)
        ensures
            info.name@ == self@.name,
            info.dictionary_type == self@.dictionary_type,
            info.origin == self@.origin,
            info.invalid_line_numbers@.map_values(|u: usize| u as int) == self@.invalid_lines,
            info.valid_vocabulary_count as int == self@.entries.len(),
    {
        DictionaryInfo {
            name: self.name.clone(),
            dictionary_type: self.dictionary_type,
            origin: self.origin,
            invalid_line_numbers: copy_line_numbers(&self.invalid_line_numbers),
            valid_vocabulary_count: self.vocabulary_entries.len(),
        }
    }
}

/// The metadata catalog of all loaded dictionaries, split by type.
pub struct DictionaryCatalog {
    /// Word dictionaries.
    pub word: Vec<DictionaryInfo>,
    /// Sentence dictionaries.
    pub sentence: Vec<DictionaryInfo>,
}

impl DictionaryCatalog {
    pub fn new(word: Vec<DictionaryInfo>, sentence: Vec<DictionaryInfo>) -> (c: DictionaryCatalog)
        ensures
            c.word == word,
            c.sentence == sentence,
    {
        DictionaryCatalog { word, sentence }
    }
}

/// A pointer to a remotely fetchable dictionary source file; not yet parsed.
pub struct DictionaryIndexEntry {
    /// Path of the dictionary file on the server.
    pub path: String,
}

/// The manifest of all known dictionaries: for each bucket, the dictionary
/// names and where their source files live. Transient; it is consumed once
/// to fetch and materialize the library contents.
pub struct DictionaryIndex {
    /// Word dictionaries, by name.
    pub word: Vec<(String, DictionaryIndexEntry)>,
    /// Sentence dictionaries, by name.
    pub sentence: Vec<(String, DictionaryIndexEntry)>,
}

/// Why fetching or decoding one dictionary body failed.
#[derive(Clone, Copy, Debug, PartialEq, Eq, Structural)]
pub enum FetchFailure {
    /// The fetch itself failed.
    Transport,
    /// The payload was not valid text.
    Decode,
}

/// The settled outcome of fetching one dictionary's source file.
pub struct FetchOutcome {
    /// Name of the dictionary.
    pub name: String,
    /// The bucket the dictionary was indexed under.
    pub dictionary_type: DictionaryType,
    /// The fetched text body, or why there is none.
    pub body: Result<String, FetchFailure>,
}

/// First position holding the key, or the length when none does.
pub open spec fn key_index(
    dicts: Seq<DictionaryModel>,
    origin: DictionaryOrigin,
    name: Seq<char>,
) -> int
    decreases dicts.len(),
{
    if dicts.len() == 0 {
        0
    } else if dicts[0].origin == origin && dicts[0].name == name {
        0
    } else {
        1 + key_index(dicts.drop_first(), origin, name)
    }
}

pub proof fn lemma_key_index(dicts: Seq<DictionaryModel>, origin: DictionaryOrigin, name: Seq<char>)
    ensures
        0 <= key_index(dicts, origin, name) <= dicts.len(),
        forall|k: int|
            0 <= k < key_index(dicts, origin, name) ==> !(dicts[k].origin == origin
                && dicts[k].name == name),
        key_index(dicts, origin, name) < dicts.len() ==> dicts[key_index(dicts, origin, name)].origin
            == origin && dicts[key_index(dicts, origin, name)].name == name,
    decreases dicts.len(),
{
    if dicts.len() == 0 {
    } else if dicts[0].origin == origin && dicts[0].name == name {
    } else {
        lemma_key_index(dicts.drop_first(), origin, name);
        let i = key_index(dicts, origin, name);
        assert forall|k: int| 0 <= k < i implies !(dicts[k].origin == origin && dicts[k].name
            == name) by {
            if k > 0 {
                assert(dicts.drop_first()[k - 1] == dicts[k]);
            }
        }
        if i < dicts.len() {
            assert(dicts.drop_first()[i - 1] == dicts[i]);
        }
    }
}

/// `key_index` is the unique position with no key match before it and a
/// match (or the end) at it.
proof fn lemma_key_index_is(
    dicts: Seq<DictionaryModel>,
    origin: DictionaryOrigin,
    name: Seq<char>,
    j: int,
)
    requires
        0 <= j <= dicts.len(),
        forall|k: int| 0 <= k < j ==> !(dicts[k].origin == origin && dicts[k].name == name),
        j < dicts.len() ==> dicts[j].origin == origin && dicts[j].name == name,
    ensures
        key_index(dicts, origin, name) == j,
    decreases j,
{
    if j == 0 {
    } else {
        assert(!(dicts[0].origin == origin && dicts[0].name == name));
        assert forall|k: int| 0 <= k < j - 1 implies !(dicts.drop_first()[k].origin == origin
            && dicts.drop_first()[k].name == name) by {
            assert(dicts.drop_first()[k] == dicts[k + 1]);
        }
        if j - 1 < dicts.drop_first().len() {
            assert(dicts.drop_first()[j - 1] == dicts[j]);
        }
        lemma_key_index_is(dicts.drop_first(), origin, name, j - 1);
    }
}

/// Inserting a dictionary into a bucket: a dictionary already holding the
/// same key is replaced in place (last write wins); otherwise the new one
/// is appended.
pub open spec fn upsert(dicts: Seq<DictionaryModel>, d: DictionaryModel) -> Seq<DictionaryModel> {
    let i = key_index(dicts, d.origin, d.name);
    if i < dicts.len() {
        dicts.update(i, d)
    } else {
        dicts.push(d)
    }
}

/// The bucket of the given type that a sequence of settled fetch outcomes
/// materializes: every failed fetch is skipped, every successful body is
/// parsed into a built-in dictionary, and a later outcome with an already
/// used key replaces the earlier dictionary.
pub open spec fn materialize_bucket(
    outcomes: Seq<FetchOutcome>,
    t: DictionaryType,
) -> Seq<DictionaryModel>
    decreases outcomes.len(),
{
    if outcomes.len() == 0 {
        Seq::empty()
    } else {
        let prev = materialize_bucket(outcomes.drop_last(), t);
        let last = outcomes.last();
        match last.body {
            Ok(body) => if last.dictionary_type == t {
                upsert(prev, body_dictionary(last.name@, t, DictionaryOrigin::Builtin, body@))
            } else {
                prev
            },
            Err(_) => prev,
        }
    }
}

/// No two dictionaries of the bucket share a key.
pub open spec fn keys_unique(dicts: Seq<DictionaryModel>) -> bool {
    forall|a: int, b: int|
        0 <= a < b < dicts.len() ==> !(dicts[a].origin == dicts[b].origin && dicts[a].name
            == dicts[b].name)
}

/// Every dictionary of the bucket has the bucket's type.
pub open spec fn bucket_of_type(dicts: Seq<DictionaryModel>, t: DictionaryType) -> bool {
    forall|a: int| 0 <= a < dicts.len() ==> dicts[a].dictionary_type == t
}

proof fn lemma_upsert_preserves(
    dicts: Seq<DictionaryModel>,
    d: DictionaryModel,
    t: DictionaryType,
)
    requires
        keys_unique(dicts),
        bucket_of_type(dicts, t),
        d.dictionary_type == t,
    ensures
        keys_unique(upsert(dicts, d)),
        bucket_of_type(upsert(dicts, d), t),
{
    lemma_key_index(dicts, d.origin, d.name);
    let i = key_index(dicts, d.origin, d.name);
    if i < dicts.len() {
        let r = dicts.update(i, d);
        assert forall|a: int, b: int| 0 <= a < b < r.len() implies !(r[a].origin == r[b].origin
            && r[a].name == r[b].name) by {
            if a != i && b != i {
                assert(r[a] == dicts[a] && r[b] == dicts[b]);
            } else if a == i {
                assert(r[b] == dicts[b]);
                assert(!(dicts[b].origin == d.origin && dicts[b].name == d.name));
            } else {
                assert(r[a] == dicts[a]);
                assert(!(dicts[a].origin == d.origin && dicts[a].name == d.name));
            }
        }
    }
}

/// The dictionaries a materialized bucket holds are all of the bucket's
/// type and no two of them share a key.
pub proof fn lemma_materialize_bucket_wf(outcomes: Seq<FetchOutcome>, t: DictionaryType)
    ensures
        keys_unique(materialize_bucket(outcomes, t)),
        bucket_of_type(materialize_bucket(outcomes, t), t),
    decreases outcomes.len(),
{
    if outcomes.len() == 0 {
    } else {
        lemma_materialize_bucket_wf(outcomes.drop_last(), t);
        let last = outcomes.last();
        match last.body {
            Ok(body) => {
                if last.dictionary_type == t {
                    lemma_upsert_preserves(
                        materialize_bucket(outcomes.drop_last(), t),
                        body_dictionary(last.name@, t, DictionaryOrigin::Builtin, body@),
                        t,
                    );
                }
            },
            Err(_) => {},
        }
    }
}

/// The outcomes whose fetch succeeded, in order.
pub open spec fn successful_outcomes(outcomes: Seq<FetchOutcome>) -> Seq<FetchOutcome>
    decreases outcomes.len(),
{
    if outcomes.len() == 0 {
        Seq::empty()
    } else {
        successful_outcomes(outcomes.drop_last()) + (if outcomes.last().body is Ok {
            seq![outcomes.last()]
        } else {
            Seq::empty()
        })
    }
}

/// A failed fetch is isolated: it is excluded from the result, and the
/// remaining outcomes materialize exactly the dictionaries they would
/// materialize on their own, in either bucket.
pub proof fn lemma_failures_isolated(outcomes: Seq<FetchOutcome>, t: DictionaryType)
    ensures
        materialize_bucket(outcomes, t) == materialize_bucket(successful_outcomes(outcomes), t),
    decreases outcomes.len(),
{
    if outcomes.len() == 0 {
    } else {
        lemma_failures_isolated(outcomes.drop_last(), t);
        if outcomes.last().body is Ok {
            let succ = successful_outcomes(outcomes);
            assert(succ.drop_last() =~= successful_outcomes(outcomes.drop_last()));
            assert(succ.last() == outcomes.last());
        }
    }
}

/// The views of a bucket of dictionaries.
pub open spec fn dictionary_views(dicts: Seq<Dictionary>) -> Seq<DictionaryModel> {
    dicts.map_values(|d: Dictionary| d@)
}

/// Position of the dictionary with the given key, if the bucket holds one.
pub(crate) fn find_key(bucket: &Vec<Dictionary>, origin: DictionaryOrigin, name: &String) -> (r:
    Option<usize>)
    ensures
        r matches Some(k) ==> k < bucket@.len() && k as int == key_index(
            dictionary_views(bucket@),
            origin,
            name@,
        ),
        r is None ==> key_index(dictionary_views(bucket@), origin, name@)
            == bucket@.len() as int,
{
    let ghost models = dictionary_views(bucket@);
    let mut i: usize = 0;
    while i < bucket.len()
        invariant
            models == dictionary_views(bucket@),
            i <= bucket@.len(),
            forall|k: int|
                0 <= k < i ==> !(models[k].origin == origin && models[k].name == name@),
        decreases bucket@.len() - i,
    {
        let d = &bucket[i];
        if d.origin == origin && d.name == *name {
            proof {
                assert(models[i as int] == bucket@[i as int]@);
                lemma_key_index_is(models, origin, name@, i as int);
            }
            return Some(i);
        }
        proof {
            assert(models[i as int] == bucket@[i as int]@);
        }
        i = i + 1;
    }
    proof {
        lemma_key_index_is(models, origin, name@, bucket@.len() as int);
    }
    None
}

/// Puts one dictionary into a bucket, replacing the dictionary with the
/// same key if the bucket holds one.
fn upsert_dictionary(bucket: &mut Vec<Dictionary>, d: Dictionary)
    ensures
        dictionary_views(final(bucket)@) == upsert(dictionary_views(old(bucket)@), d@),
{
    let found = find_key(bucket, d.origin, &d.name);
    match found {
        Some(i) => {
            bucket.set(i, d);
            proof {
                assert(dictionary_views(bucket@) =~= upsert(
                    dictionary_views(old(bucket)@),
                    bucket@[i as int]@,
                ));
            }
        },
        None => {
            bucket.push(d);
            proof {
                assert(dictionary_views(bucket@) =~= upsert(
                    dictionary_views(old(bucket)@),
                    bucket@[bucket@.len() - 1]@,
                ));
            }
        },
    }
}

/// Materializes the settled fetch outcomes into the two dictionary buckets.
///
/// Each successful body is parsed into a built-in dictionary of its indexed
/// type; each failure is skipped without affecting its siblings; when two
/// outcomes collide on a key, the later one wins.
pub fn materialize(outcomes: &Vec<FetchOutcome>) -> (r: (Vec<Dictionary>, Vec<Dictionary>))
    ensures
        dictionary_views(r.0@) == materialize_bucket(outcomes@, DictionaryType::Word),
        dictionary_views(r.1@) == materialize_bucket(outcomes@, DictionaryType::Sentence),
{
    let mut word: Vec<Dictionary> = Vec::new();
    let mut sentence: Vec<Dictionary> = Vec::new();
    let mut i: usize = 0;
    proof {
        assert(outcomes@.take(0) =~= Seq::<FetchOutcome>::empty());
        assert(dictionary_views(word@) =~= Seq::<DictionaryModel>::empty());
        assert(dictionary_views(sentence@) =~= Seq::<DictionaryModel>::empty());
    }
    while i < outcomes.len()
        invariant
            i <= outcomes@.len(),
            dictionary_views(word@) == materialize_bucket(
                outcomes@.take(i as int),
                DictionaryType::Word,
            ),
            dictionary_views(sentence@) == materialize_bucket(
                outcomes@.take(i as int),
                DictionaryType::Sentence,
            ),
        decreases outcomes@.len() - i,
    {
        let outcome = &outcomes[i];
        match &outcome.body {
            Ok(body) => {
                let d = Dictionary::from_body(
                    outcome.name.clone(),
                    outcome.dictionary_type,
                    DictionaryOrigin::Builtin,
                    body.as_str(),
                );
                match outcome.dictionary_type {
                    DictionaryType::Word => upsert_dictionary(&mut word, d),
                    DictionaryType::Sentence => upsert_dictionary(&mut sentence, d),
                }
            },
            Err(_) => {},
        }
        proof {
            let iplus = (i + 1) as int;
            assert(outcomes@.take(iplus).drop_last() =~= outcomes@.take(i as int));
            assert(outcomes@.take(iplus).last() == outcomes@[i as int]);
        }
        i = i + 1;
    }
    proof {
        assert(outcomes@.take(outcomes@.len() as int) =~= outcomes@);
    }
    (word, sentence)
}

} // verus!
