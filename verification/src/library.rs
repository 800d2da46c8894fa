//! The library: owner of the loaded word and sentence dictionaries, keyed
//! by origin and name; exposes the read-only catalog view and resolves a
//! user's dictionary selection into a flat entry list.

use vstd::prelude::*;

use crate::dictionary::{
    bucket_of_type, dictionary_views, key_index, keys_unique, lemma_key_index,
    lemma_materialize_bucket_wf, materialize, materialize_bucket, Dictionary, DictionaryCatalog,
    DictionaryInfo, DictionaryModel, DictionaryOrigin, DictionaryType, FetchOutcome,
};
use crate::dictionary::find_key;
use crate::errors::CoreError;

verus! {

/// A validated request from the UI to build a typing query.
pub struct QueryRequestFromUI {
    /// Which bucket the selection refers to.
    pub dictionary_type: DictionaryType,
    /// The selected dictionaries, as (origin, name) pairs, in the order the
    /// user chose them.
    pub used_dictionaries: Vec<(DictionaryOrigin, String)>,
    /// An optional positive key-stroke budget.
    pub key_stroke_count_threshold: Option<usize>,
}

impl QueryRequestFromUI {
    /// A threshold, when present, is a positive count.
    pub open spec fn wf(&self) -> bool {
        self.key_stroke_count_threshold matches Some(t) ==> t > 0
    }

    pub fn new(
        dictionary_type: DictionaryType,
        used_dictionaries: Vec<(DictionaryOrigin, String)>,
        key_stroke_count_threshold: Option<usize>,
    ) -> (r: QueryRequestFromUI)
        requires
            key_stroke_count_threshold matches Some(t) ==> t > 0,
        ensures
            r.dictionary_type == dictionary_type,
            r.used_dictionaries == used_dictionaries,
            r.key_stroke_count_threshold == key_stroke_count_threshold,
            r.wf(),
    {
        QueryRequestFromUI { dictionary_type, used_dictionaries, key_stroke_count_threshold }
    }

    pub fn dictionary_type(&self) -> (t: DictionaryType)
        ensures
            t == self.dictionary_type,
    {
        self.dictionary_type
    }

    pub fn used_dictionaries(&self) -> (r: &Vec<(DictionaryOrigin, String)>)
        ensures
            *r == self.used_dictionaries,
    {
        &self.used_dictionaries
    }

    pub fn key_stroke_count_threshold(&self) -> (r: Option<usize>)
        ensures
            r == self.key_stroke_count_threshold,
    {
        self.key_stroke_count_threshold
    }
}

/// Whether the bucket holds a dictionary with the key.
pub open spec fn found_dictionary(
    dicts: Seq<DictionaryModel>,
    origin: DictionaryOrigin,
    name: Seq<char>,
) -> bool {
    key_index(dicts, origin, name) < dicts.len()
}

/// The entries of the dictionary holding the key, or nothing when the
/// bucket holds none.
pub open spec fn lookup_entries(
    dicts: Seq<DictionaryModel>,
    origin: DictionaryOrigin,
    name: Seq<char>,
) -> Seq<typing_engine::VocabularyEntry> {
    if found_dictionary(dicts, origin, name) {
        dicts[key_index(dicts, origin, name)].entries
    } else {
        Seq::empty()
    }
}

/// Whether every selected pair is present in the bucket.
pub open spec fn selection_found(
    dicts: Seq<DictionaryModel>,
    selection: Seq<(DictionaryOrigin, String)>,
) -> bool {
    forall|k: int|
        0 <= k < selection.len() ==> found_dictionary(dicts, selection[k].0, selection[k].1@)
}

/// The flat entry list a selection resolves to: the selected dictionaries'
/// entries concatenated in selection order, each dictionary's entries in
/// their own order.
pub open spec fn selection_entries(
    dicts: Seq<DictionaryModel>,
    selection: Seq<(DictionaryOrigin, String)>,
) -> Seq<typing_engine::VocabularyEntry>
    decreases selection.len(),
{
    if selection.len() == 0 {
        Seq::empty()
    } else {
        selection_entries(dicts, selection.drop_last()) + lookup_entries(
            dicts,
            selection.last().0,
            selection.last().1@,
        )
    }
}

/// Resolving a selection concatenates: a selection made of two parts yields
/// the first part's entries followed by the second part's, so the overall
/// selection order and each dictionary's internal order are both preserved.
pub proof fn lemma_selection_order(
    dicts: Seq<DictionaryModel>,
    s1: Seq<(DictionaryOrigin, String)>,
    s2: Seq<(DictionaryOrigin, String)>,
)
    ensures
        selection_entries(dicts, s1 + s2) == selection_entries(dicts, s1) + selection_entries(
            dicts,
            s2,
        ),
    decreases s2.len(),
{
    if s2.len() == 0 {
        assert(s1 + s2 =~= s1);
        assert(selection_entries(dicts, s1) + selection_entries(dicts, s2) =~= selection_entries(
            dicts,
            s1,
        ));
    } else {
        lemma_selection_order(dicts, s1, s2.drop_last());
        assert((s1 + s2).drop_last() =~= s1 + s2.drop_last());
        assert((s1 + s2).last() == s2.last());
        assert(selection_entries(dicts, s1) + selection_entries(dicts, s2) =~= selection_entries(
            dicts,
            s1,
        ) + selection_entries(dicts, s2.drop_last()) + lookup_entries(
            dicts,
            s2.last().0,
            s2.last().1@,
        ));
    }
}

/// Which dictionary a key resolves to does not depend on the bucket's
/// order: in a bucket without duplicate keys, the key of any dictionary the
/// bucket holds resolves to exactly that dictionary's entries.
pub proof fn lemma_lookup_by_key(dicts: Seq<DictionaryModel>, j: int)
    requires
        keys_unique(dicts),
        0 <= j < dicts.len(),
    ensures
        lookup_entries(dicts, dicts[j].origin, dicts[j].name) == dicts[j].entries,
{
    lemma_key_index(dicts, dicts[j].origin, dicts[j].name);
    let i = key_index(dicts, dicts[j].origin, dicts[j].name);
    assert(i <= j);
    if i < j {
        assert(!(dicts[i].origin == dicts[j].origin && dicts[i].name == dicts[j].name));
    }
}

/// Process-wide owner of the two dictionary buckets. Empty at creation,
/// replaced wholesale by each successful load, read any number of times in
/// between; never partially mutated.
pub struct Library {
    word_dictionaries: Vec<Dictionary>,
    sentence_dictionaries: Vec<Dictionary>,
}

impl Library {
    /// The word bucket's contents.
    pub closed spec fn word_view(&self) -> Seq<DictionaryModel> {
        dictionary_views(self.word_dictionaries@)
    }

    /// The sentence bucket's contents.
    pub closed spec fn sentence_view(&self) -> Seq<DictionaryModel> {
        dictionary_views(self.sentence_dictionaries@)
    }

    /// The bucket holding dictionaries of the given type.
    pub open spec fn bucket_view(&self, t: DictionaryType) -> Seq<DictionaryModel> {
        match t {
            DictionaryType::Word => self.word_view(),
            DictionaryType::Sentence => self.sentence_view(),
        }
    }

    /// Each bucket holds only dictionaries of its type, and an (origin,
    /// name) pair denotes at most one dictionary per bucket.
    pub open spec fn wf(&self) -> bool {
        &&& keys_unique(self.word_view())
        &&& keys_unique(self.sentence_view())
        &&& bucket_of_type(self.word_view(), DictionaryType::Word)
        &&& bucket_of_type(self.sentence_view(), DictionaryType::Sentence)
    }

    /// Creates an empty library.
    pub fn new() -> (lib: Library)
        ensures
            lib.wf(),
            lib.word_view() == Seq::<DictionaryModel>::empty(),
            lib.sentence_view() == Seq::<DictionaryModel>::empty(),
    {
        let lib = Library { word_dictionaries: Vec::new(), sentence_dictionaries: Vec::new() };
        proof {
            assert(lib.word_view() =~= Seq::<DictionaryModel>::empty());
            assert(lib.sentence_view() =~= Seq::<DictionaryModel>::empty());
        }
        lib
    }

    /// Replaces both buckets with what the settled fetch outcomes
    /// materialize. The caller reaches this only once every per-dictionary
    /// fetch has settled; a failed outcome excludes that one dictionary and
    /// nothing else. On an index-level failure the caller never reaches
    /// this, so the previous contents stay untouched.
    pub fn load(&mut self, outcomes: &Vec<FetchOutcome>)
        ensures
            final(self).wf(),
            final(self).word_view() == materialize_bucket(outcomes@, DictionaryType::Word),
            final(self).sentence_view() == materialize_bucket(outcomes@, DictionaryType::Sentence),
    {
        let (word, sentence) = materialize(outcomes);
        self.word_dictionaries = word;
        self.sentence_dictionaries = sentence;
        proof {
            lemma_materialize_bucket_wf(outcomes@, DictionaryType::Word);
            lemma_materialize_bucket_wf(outcomes@, DictionaryType::Sentence);
        }
    }

    /// Builds the catalog of the current load: the metadata projection of
    /// every dictionary, bucket by bucket, in bucket order. Pure; reflects
    /// only the most recent completed load.
    pub fn construct_dictionary_catalog(&self) -> (catalog: DictionaryCatalog)
        ensures
            catalog.word@.len() == self.word_view().len(),
            forall|k: int|
                0 <= k < catalog.word@.len() ==> info_matches(
                    #[trigger] catalog.word@[k],
                    self.word_view()[k],
                ),
            catalog.sentence@.len() == self.sentence_view().len(),
            forall|k: int|
                0 <= k < catalog.sentence@.len() ==> info_matches(
                    #[trigger] catalog.sentence@[k],
                    self.sentence_view()[k],
                ),
    {
        DictionaryCatalog::new(
            bucket_infos(&self.word_dictionaries),
            bucket_infos(&self.sentence_dictionaries),
        )
    }

    /// Resolves a selection into the flat entry list: for each selected
    /// (origin, name) pair, in selection order, the entries of that
    /// dictionary of the requested type, in their own order. Fails with
    /// `DictionaryNotFound` exactly when some selected pair is absent from
    /// that bucket.
    pub fn construct_vocabulary_entries_for_request(&self, request: &QueryRequestFromUI) -> (r:
        Result<Vec<typing_engine::VocabularyEntry>, CoreError>)
        ensures
            r is Ok <==> selection_found(
                self.bucket_view(request.dictionary_type),
                request.used_dictionaries@,
            ),
            r matches Ok(entries) ==> entries@ == selection_entries(
                self.bucket_view(request.dictionary_type),
                request.used_dictionaries@,
            ),
            r is Err ==> r matches Err(CoreError::DictionaryNotFound),
    {
        let bucket: &Vec<Dictionary> = match request.dictionary_type {
            DictionaryType::Word => &self.word_dictionaries,
            DictionaryType::Sentence => &self.sentence_dictionaries,
        };
        let ghost models = self.bucket_view(request.dictionary_type);
        let selection = &request.used_dictionaries;
        let mut entries: Vec<typing_engine::VocabularyEntry> = Vec::new();
        let mut i: usize = 0;
        proof {
            assert(selection@.take(0) =~= Seq::<(DictionaryOrigin, String)>::empty());
        }
        while i < selection.len()
            invariant
                models == dictionary_views(bucket@),
                models == self.bucket_view(request.dictionary_type),
                selection@ == request.used_dictionaries@,
                i <= selection@.len(),
                selection_found(models, selection@.take(i as int)),
                entries@ == selection_entries(models, selection@.take(i as int)),
            decreases selection@.len() - i,
        {
            let pair = &selection[i];
            match find_key(bucket, pair.0, &pair.1) {
                Some(k) => {
                    append_entries(&mut entries, &bucket[k].vocabulary_entries);
                    proof {
                        let iplus = (i + 1) as int;
                        assert(selection@.take(iplus).drop_last() =~= selection@.take(i as int));
                        assert(selection@.take(iplus).last() == selection@[i as int]);
                        assert(models[k as int] == bucket@[k as int]@);
                        assert(entries@ == selection_entries(models, selection@.take(iplus)));
                        assert forall|t: int| 0 <= t < iplus implies found_dictionary(
                            models,
                            #[trigger] selection@.take(iplus)[t].0,
                            selection@.take(iplus)[t].1@,
                        ) by {
                            if t < i {
                                assert(selection@.take(i as int)[t] == selection@.take(iplus)[t]);
                            }
                        }
                    }
                },
                None => {
                    proof {
                        let pair_i = selection@[i as int];
                        assert(!found_dictionary(models, pair_i.0, pair_i.1@));
                        assert(!selection_found(models, selection@)) by {
                            if selection_found(models, selection@) {
                                assert(found_dictionary(
                                    models,
                                    selection@[i as int].0,
                                    selection@[i as int].1@,
                                ));
                            }
                        }
                    }
                    return Err(CoreError::DictionaryNotFound);
                },
            }
            i = i + 1;
        }
        proof {
            assert(selection@.take(selection@.len() as int) =~= selection@);
        }
        Ok(entries)
    }
}

/// Whether an info record is exactly the metadata projection of a
/// dictionary.
pub open spec fn info_matches(info: DictionaryInfo, d: DictionaryModel) -> bool {
    &&& info.name@ == d.name
    &&& info.dictionary_type == d.dictionary_type
    &&& info.origin == d.origin
    &&& info.invalid_line_numbers@.map_values(|u: usize| u as int) == d.invalid_lines
    &&& info.valid_vocabulary_count as int == d.entries.len()
}

fn bucket_infos(bucket: &Vec<Dictionary>) -> (infos: Vec<DictionaryInfo>)
    ensures
        infos@.len() == bucket@.len(),
        forall|k: int|
            0 <= k < infos@.len() ==> info_matches(#[trigger] infos@[k], bucket@[k]@),
{
    let mut infos: Vec<DictionaryInfo> = Vec::new();
    let mut i: usize = 0;
    while i < bucket.len()
        invariant
            i <= bucket@.len(),
            infos@.len() == i,
            forall|k: int|
                0 <= k < i ==> info_matches(#[trigger] infos@[k], bucket@[k]@),
        decreases bucket@.len() - i,
    {
        infos.push(bucket[i].construct_dictionary_info());
        i = i + 1;
    }
    infos
}

fn append_entries(
    dst: &mut Vec<typing_engine::VocabularyEntry>,
    src: &Vec<typing_engine::VocabularyEntry>,
)
    ensures
        final(dst)@ == old(dst)@ + src@,
{
    let mut k: usize = 0;
    proof {
        assert(dst@ =~= old(dst)@ + src@.take(0));
    }
    while k < src.len()
        invariant
            k <= src@.len(),
            dst@ == old(dst)@ + src@.take(k as int),
        decreases src@.len() - k,
    {
        dst.push(src[k].clone());
        k = k + 1;
        proof {
            assert(dst@ =~= old(dst)@ + src@.take(k as int));
        }
    }
    proof {
        assert(old(dst)@ + src@.take(src@.len() as int) =~= old(dst)@ + src@);
    }
}

} // verus!
