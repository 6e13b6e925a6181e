//! Model catalog: classifies the files of a managed directory against the
//! known-model set of a task family and appends the known models that are not
//! yet on disk.
//!
//! The surrounding application enumerates the directory and hands the plain
//! `(name, size)` pairs in; everything that decides what the listing contains
//! is verified here.

use vstd::prelude::*;

use crate::fsutil::{pretty_size, spec_pretty_size};

verus! {

/// How one catalog entry relates to the known-model set.
#[derive(Clone, Copy, PartialEq, Eq, Structural, Debug)]
pub enum ModelStatus {
    /// The file is present and its name is in the known-model set.
    Downloaded,
    /// The file is present but its name is not in the known-model set.
    Imported,
    /// The name is in the known-model set but no such file is present.
    Undownloaded,
}

/// One regular file of the managed directory, as the application found it.
pub struct FileEntry {
    pub name: String,
    pub size_bytes: u64,
}

/// One row of a model listing.
pub struct ModelItem {
    /// Identifier for referencing this entry within one listing; fresh on
    /// every listing call.
    pub uuid: String,
    pub name: String,
    /// Human-scale size, or `-` for an entry with no file behind it.
    pub size: String,
    pub status: ModelStatus,
}

/// Relative directory (below the cache directory) holding the model files of
/// one task family: voice-to-text for task index 0, text-to-voice otherwise.
pub fn model_relative_path(type_index: i32) -> (r: String)
    ensures
        type_index == 0 ==> r@ == "v2t/model"@,
        type_index != 0 ==> r@ == "t2v/model"@,
{
    if type_index == 0 {
        String::from_str("v2t/model")
    } else {
        String::from_str("t2v/model")
    }
}

/// The known-model set of a task family, in its declared order. Only the
/// voice-to-text family (task index 0) has fetchable models.
pub open spec fn spec_known_models(type_index: int) -> Seq<Seq<char>> {
    if type_index == 0 {
        seq![
            "ggml-tiny.bin"@,
            "ggml-base.bin"@,
            "ggml-small.bin"@,
            "ggml-medium.bin"@,
            "ggml-large.bin"@,
        ]
    } else {
        Seq::empty()
    }
}

/// The views of a sequence of strings.
pub open spec fn spec_string_views(v: Seq<String>) -> Seq<Seq<char>> {
    v.map_values(|s: String| s@)
}

/// The names of a file listing.
pub open spec fn spec_file_names(files: Seq<FileEntry>) -> Seq<Seq<char>> {
    files.map_values(|f: FileEntry| f.name@)
}

/// The names of a model listing.
pub open spec fn spec_names(items: Seq<ModelItem>) -> Seq<Seq<char>> {
    items.map_values(|it: ModelItem| it.name@)
}

/// The known models that `present` does not account for, in declared order.
pub open spec fn spec_missing(known: Seq<Seq<char>>, present: Seq<Seq<char>>) -> Seq<Seq<char>> {
    known.filter(|m: Seq<char>| !present.contains(m))
}

/// The known-model names of a task family.
pub fn predefined_models(type_index: i32) -> (v: Vec<String>)
    ensures
        spec_string_views(v@) == spec_known_models(type_index as int),
{
    let mut v: Vec<String> = Vec::new();
    if type_index == 0 {
        v.push(String::from_str("ggml-tiny.bin"));
        v.push(String::from_str("ggml-base.bin"));
        v.push(String::from_str("ggml-small.bin"));
        v.push(String::from_str("ggml-medium.bin"));
        v.push(String::from_str("ggml-large.bin"));
    }
    proof {
        assert(spec_string_views(v@) =~= spec_known_models(type_index as int));
    }
    v
}

fn str_eq(a: &str, b: &str) -> (r: bool)
    ensures
        r == (a@ == b@),
{
    let x = a.to_owned();
    let y = b.to_owned();
    x == y
}

pub(crate) fn is_name_in(names: &Vec<String>, name: &str) -> (r: bool)
    ensures
        r == spec_string_views(names@).contains(name@),
{
    let mut i: usize = 0;
    while i < names.len()
        invariant
            i <= names.len(),
            forall|j: int| 0 <= j < i ==> (#[trigger] names@[j])@ != name@,
        decreases names.len() - i,
    {
        if str_eq(names[i].as_str(), name) {
            proof {
                assert(spec_string_views(names@)[i as int] == name@);
            }
            return true;
        }
        i = i + 1;
    }
    proof {
        assert forall|j: int| 0 <= j < names@.len() implies #[trigger] spec_string_views(
            names@,
        )[j] != name@ by {
            assert(spec_string_views(names@)[j] == names@[j]@);
        }
    }
    false
}

/// Exact membership of `name` in the known-model set of a task family.
pub fn is_in_predefined_models(type_index: i32, name: &str) -> (r: bool)
    ensures
        r == spec_known_models(type_index as int).contains(name@),
{
    let known = predefined_models(type_index);
    is_name_in(&known, name)
}

/// Whether some listed entry bears `name`.
pub fn is_in_models(items: &Vec<ModelItem>, name: &str) -> (r: bool)
    ensures
        r == spec_names(items@).contains(name@),
{
    let mut i: usize = 0;
    while i < items.len()
        invariant
            i <= items.len(),
            forall|j: int| 0 <= j < i ==> (#[trigger] items@[j]).name@ != name@,
        decreases items.len() - i,
    {
        if str_eq(items[i].name.as_str(), name) {
            proof {
                assert(spec_names(items@)[i as int] == name@);
            }
            return true;
        }
        i = i + 1;
    }
    proof {
        assert forall|j: int| 0 <= j < items@.len() implies #[trigger] spec_names(items@)[j]
            != name@ by {
            assert(spec_names(items@)[j] == items@[j].name@);
        }
    }
    false
}

/// Relies on `uuid::Uuid::new_v4` and the hyphenated `Display` form of
/// `uuid::Uuid`: whatever value is drawn, its rendering is 36 characters.
#[verifier::external_body]
fn fresh_display_id() -> (r: String)
    ensures
        r@.len() == 36,
{
    uuid::Uuid::new_v4().to_string()
}

/// Appends one `Undownloaded` entry for every known model of the task family
/// that the listing does not already name, in the set's declared order.
pub fn append_undownload_model(type_index: i32, models: &mut Vec<ModelItem>)
    ensures
        final(models)@.len() == old(models)@.len() + spec_missing(
            spec_known_models(type_index as int),
            spec_names(old(models)@),
        ).len(),
        forall|i: int| 0 <= i < old(models)@.len() ==> final(models)@[i] == old(models)@[i],
        forall|i: int|
            old(models)@.len() <= i < final(models)@.len() ==> {
                &&& (#[trigger] final(models)@[i]).status == ModelStatus::Undownloaded
                &&& final(models)@[i].size@ == "-"@
                &&& final(models)@[i].uuid@.len() == 36
            },
        spec_names(final(models)@) == spec_names(old(models)@) + spec_missing(
            spec_known_models(type_index as int),
            spec_names(old(models)@),
        ),
{
    let ghost known_spec = spec_known_models(type_index as int);
    let ghost old_names = spec_names(models@);
    let known = predefined_models(type_index);
    let mut tmp: Vec<ModelItem> = Vec::new();
    let mut k: usize = 0;
    proof {
        reveal(Seq::filter);
        assert(known_spec.take(0) =~= Seq::<Seq<char>>::empty());
        assert(spec_names(tmp@) =~= spec_missing(known_spec.take(0), old_names));
    }
    while k < known.len()
        invariant
            k <= known.len(),
            spec_string_views(known@) == known_spec,
            known_spec.len() == known@.len(),
            models@ == old(models)@,
            old_names == spec_names(old(models)@),
            spec_names(tmp@) == spec_missing(known_spec.take(k as int), old_names),
            forall|i: int|
                0 <= i < tmp@.len() ==> {
                    &&& (#[trigger] tmp@[i]).status == ModelStatus::Undownloaded
                    &&& tmp@[i].size@ == "-"@
                    &&& tmp@[i].uuid@.len() == 36
                },
        decreases known.len() - k,
    {
        let ghost tmp_pre = tmp@;
        proof {
            assert(spec_string_views(known@)[k as int] == known@[k as int]@);
        }
        if !is_in_models(models, known[k].as_str()) {
            tmp.push(
                ModelItem {
                    uuid: fresh_display_id(),
                    name: known[k].clone(),
                    size: String::from_str("-"),
                    status: ModelStatus::Undownloaded,
                },
            );
        }
        proof {
            reveal(Seq::filter);
            let taken = known_spec.take(k + 1);
            assert(taken.drop_last() =~= known_spec.take(k as int));
            assert(taken.last() == known_spec[k as int]);
            if !old_names.contains(known_spec[k as int]) {
                assert(spec_names(tmp@) =~= spec_names(tmp_pre).push(known_spec[k as int]));
            } else {
                assert(spec_names(tmp@) =~= spec_names(tmp_pre));
            }
        }
        k = k + 1;
    }
    proof {
        assert(known_spec.take(known@.len() as int) =~= known_spec);
    }
    let ghost pre = models@;
    let ghost tmp_final = tmp@;
    models.append(&mut tmp);
    proof {
        assert(spec_names(models@) =~= spec_names(pre) + spec_names(tmp_final));
    }
}

/// What a listing of `files` under the known-model set of `type_index` must
/// look like: one entry per present file in order, classified `Downloaded`
/// or `Imported` by exact name membership and sized by `spec_pretty_size`,
/// followed by one `Undownloaded` entry per known model that no file names,
/// in the set's declared order.
pub open spec fn catalog_lists(files: Seq<FileEntry>, type_index: int, items: Seq<ModelItem>) -> bool {
    let known = spec_known_models(type_index);
    let present = spec_file_names(files);
    &&& items.len() == files.len() + spec_missing(known, present).len()
    &&& forall|i: int|
        0 <= i < files.len() ==> {
            &&& (#[trigger] items[i]).name@ == files[i].name@
            &&& items[i].size@ == spec_pretty_size(files[i].size_bytes)
            &&& items[i].status == (if known.contains(files[i].name@) {
                ModelStatus::Downloaded
            } else {
                ModelStatus::Imported
            })
            &&& items[i].uuid@.len() == 36
        }
    &&& forall|i: int|
        files.len() <= i < items.len() ==> {
            &&& (#[trigger] items[i]).status == ModelStatus::Undownloaded
            &&& items[i].size@ == "-"@
            &&& items[i].uuid@.len() == 36
        }
    &&& spec_names(items) == present + spec_missing(known, present)
}

/// Builds the model listing for one task family from the files the
/// application found in the managed directory.
pub fn model_items(files: &Vec<FileEntry>, type_index: i32) -> (items: Vec<ModelItem>)
    ensures
        catalog_lists(files@, type_index as int, items@),
{
    let mut items: Vec<ModelItem> = Vec::new();
    let mut i: usize = 0;
    while i < files.len()
        invariant
            i <= files.len(),
            items@.len() == i,
            forall|j: int|
                0 <= j < i ==> {
                    &&& (#[trigger] items@[j]).name@ == files@[j].name@
                    &&& items@[j].size@ == spec_pretty_size(files@[j].size_bytes)
                    &&& items@[j].status == (if spec_known_models(type_index as int).contains(
                        files@[j].name@,
                    ) {
                        ModelStatus::Downloaded
                    } else {
                        ModelStatus::Imported
                    })
                    &&& items@[j].uuid@.len() == 36
                },
        decreases files.len() - i,
    {
        let status = if is_in_predefined_models(type_index, files[i].name.as_str()) {
            ModelStatus::Downloaded
        } else {
            ModelStatus::Imported
        };
        items.push(
            ModelItem {
                uuid: fresh_display_id(),
                name: files[i].name.clone(),
                size: pretty_size(files[i].size_bytes),
                status,
            },
        );
        i = i + 1;
    }
    let ghost pre = items@;
    proof {
        assert(spec_names(pre) =~= spec_file_names(files@));
    }
    append_undownload_model(type_index, &mut items);
    items
}

} // verus!

verus! {

broadcast use vstd::seq_lib::seq_to_set_is_finite;

proof fn lemma_filter_members<A>(s: Seq<A>, pred: spec_fn(A) -> bool)
    ensures
        forall|x: A| #[trigger] s.filter(pred).contains(x) ==> s.contains(x) && pred(x),
    decreases s.len(),
{
    reveal(Seq::filter);
    if s.len() > 0 {
        lemma_filter_members(s.drop_last(), pred);
        assert forall|x: A| #[trigger] s.filter(pred).contains(x) implies s.contains(x) && pred(
            x,
        ) by {
            let sub = s.drop_last().filter(pred);
            if !(pred(s.last()) && x == s.last()) {
                assert(sub.contains(x));
                assert(s.drop_last().contains(x));
                let j = choose|j: int|
                    0 <= j < s.drop_last().len() && s.drop_last()[j] == x;
                assert(s[j] == x);
            } else {
                assert(s[s.len() - 1] == x);
            }
        }
    }
}

proof fn lemma_filter_no_dup<A>(s: Seq<A>, pred: spec_fn(A) -> bool)
    requires
        s.no_duplicates(),
    ensures
        s.filter(pred).no_duplicates(),
    decreases s.len(),
{
    reveal(Seq::filter);
    if s.len() > 0 {
        assert(s.drop_last().no_duplicates());
        lemma_filter_no_dup(s.drop_last(), pred);
        let sub = s.drop_last().filter(pred);
        if pred(s.last()) {
            lemma_filter_members(s.drop_last(), pred);
            if sub.contains(s.last()) {
                assert(s.drop_last().contains(s.last()));
                let j = choose|j: int|
                    0 <= j < s.drop_last().len() && s.drop_last()[j] == s.last();
                assert(s[j] == s[s.len() - 1]);
                assert(false);
            }
            assert forall|i: int, j: int|
                0 <= i < sub.push(s.last()).len() && 0 <= j < sub.push(s.last()).len() && i
                    != j implies sub.push(s.last())[i] != sub.push(s.last())[j] by {
                if i < sub.len() && j < sub.len() {
                } else if i == sub.len() {
                    assert(sub.contains(sub[j]));
                } else if j == sub.len() {
                    assert(sub.contains(sub[i]));
                }
            }
        }
    }
}

proof fn lemma_len_diff_subset<A>(a: Set<A>, b: Set<A>)
    requires
        a.finite(),
        b.finite(),
        b.subset_of(a),
    ensures
        a.difference(b).len() == a.len() - b.len(),
    decreases b.len(),
{
    if b.len() == 0 {
        b.lemma_len0_is_empty();
        assert(a.difference(b) =~= a);
    } else {
        let x = b.choose();
        assert(b.contains(x));
        assert(a.contains(x));
        assert(a.difference(b) =~= a.remove(x).difference(b.remove(x)));
        assert(b.remove(x).subset_of(a.remove(x)));
        lemma_len_diff_subset(a.remove(x), b.remove(x));
    }
}

/// The known models not accounted for by a duplicate-free `present` listing
/// drawn from `known` are exactly the rest of `known`.
proof fn lemma_missing_len(known: Seq<Seq<char>>, present: Seq<Seq<char>>)
    requires
        known.no_duplicates(),
        present.no_duplicates(),
        forall|i: int| 0 <= i < present.len() ==> known.contains(#[trigger] present[i]),
    ensures
        spec_missing(known, present).len() == known.len() - present.len(),
{
    let pred = |m: Seq<char>| !present.contains(m);
    let missing = spec_missing(known, present);
    lemma_filter_members(known, pred);
    lemma_filter_no_dup(known, pred);
    known.unique_seq_to_set();
    present.unique_seq_to_set();
    missing.unique_seq_to_set();
    assert(missing.to_set() =~= known.to_set().difference(present.to_set())) by {
        assert forall|x: Seq<char>|
            known.to_set().difference(present.to_set()).contains(x) implies missing.to_set()
            .contains(x) by {
            let i = choose|i: int| 0 <= i < known.len() && known[i] == x;
            known.lemma_filter_contains(pred, i);
        }
    }
    assert(present.to_set().subset_of(known.to_set()));
    lemma_len_diff_subset(known.to_set(), present.to_set());
}

/// The known-model set of every task family names each model once.
pub proof fn lemma_known_models_no_dup(type_index: int)
    ensures
        spec_known_models(type_index).no_duplicates(),
{
    if type_index == 0 {
        reveal_strlit("ggml-tiny.bin");
        reveal_strlit("ggml-base.bin");
        reveal_strlit("ggml-small.bin");
        reveal_strlit("ggml-medium.bin");
        reveal_strlit("ggml-large.bin");
        let k = spec_known_models(0);
        assert(k[0][5] == 't' && k[1][5] == 'b' && k[2][5] == 's' && k[3][5] == 'm' && k[4][5]
            == 'l');
        assert forall|i: int, j: int|
            0 <= i < k.len() && 0 <= j < k.len() && i != j implies k[i] != k[j] by {
            assert(k[i][5] != k[j][5]);
        }
    }
}

/// Classification correctness: a listed entry backed by a present file is
/// `Downloaded` exactly when its name is in the known-model set, `Imported`
/// exactly otherwise, and never `Undownloaded`.
pub proof fn lemma_classification_correct(
    files: Seq<FileEntry>,
    type_index: int,
    items: Seq<ModelItem>,
    i: int,
)
    requires
        catalog_lists(files, type_index, items),
        0 <= i < files.len(),
    ensures
        (items[i].status == ModelStatus::Downloaded) <==> spec_known_models(type_index).contains(
            files[i].name@,
        ),
        (items[i].status == ModelStatus::Imported) <==> !spec_known_models(type_index).contains(
            files[i].name@,
        ),
        items[i].status != ModelStatus::Undownloaded,
{
}

/// Catalog completeness: a listing holds one entry per present file, each
/// with a present-file status, and one `Undownloaded` entry per known model
/// that no file names — nothing else.
pub proof fn lemma_catalog_completeness(
    files: Seq<FileEntry>,
    type_index: int,
    items: Seq<ModelItem>,
)
    requires
        catalog_lists(files, type_index, items),
    ensures
        items.len() == files.len() + spec_missing(
            spec_known_models(type_index),
            spec_file_names(files),
        ).len(),
        forall|i: int|
            0 <= i < items.len() ==> (((#[trigger] items[i]).status != ModelStatus::Undownloaded)
                <==> i < files.len()),
{
}

/// Catalog completeness on a subset directory: when the present files are
/// pairwise distinct names all drawn from the known-model set, the listing
/// has exactly one entry per known model.
pub proof fn lemma_catalog_completeness_subset(
    files: Seq<FileEntry>,
    type_index: int,
    items: Seq<ModelItem>,
)
    requires
        catalog_lists(files, type_index, items),
        spec_file_names(files).no_duplicates(),
        forall|i: int|
            0 <= i < files.len() ==> spec_known_models(type_index).contains(
                #[trigger] spec_file_names(files)[i],
            ),
    ensures
        items.len() == spec_known_models(type_index).len(),
{
    lemma_known_models_no_dup(type_index);
    lemma_missing_len(spec_known_models(type_index), spec_file_names(files));
}

} // verus!

verus! {

/// Index of the first entry bearing `uuid`, if any.
pub open spec fn spec_find_uuid(items: Seq<ModelItem>, uuid: Seq<char>) -> Option<int>
    decreases items.len(),
{
    if items.len() == 0 {
        None
    } else if items[0].uuid@ == uuid {
        Some(0int)
    } else {
        match spec_find_uuid(items.drop_first(), uuid) {
            None => None,
            Some(i) => Some(i + 1),
        }
    }
}

proof fn lemma_find_uuid_at(items: Seq<ModelItem>, uuid: Seq<char>, i: int)
    requires
        0 <= i < items.len(),
        items[i].uuid@ == uuid,
        forall|j: int| 0 <= j < i ==> (#[trigger] items[j]).uuid@ != uuid,
    ensures
        spec_find_uuid(items, uuid) == Some(i),
    decreases i,
{
    if i > 0 {
        assert(items.drop_first()[i - 1] == items[i]);
        assert forall|j: int| 0 <= j < i - 1 implies (#[trigger] items.drop_first()[j]).uuid@
            != uuid by {
            assert(items.drop_first()[j] == items[j + 1]);
        }
        lemma_find_uuid_at(items.drop_first(), uuid, i - 1);
    }
}

proof fn lemma_find_uuid_none(items: Seq<ModelItem>, uuid: Seq<char>)
    requires
        forall|j: int| 0 <= j < items.len() ==> (#[trigger] items[j]).uuid@ != uuid,
    ensures
        spec_find_uuid(items, uuid) is None,
    decreases items.len(),
{
    if items.len() > 0 {
        assert forall|j: int|
            0 <= j < items.drop_first().len() implies (#[trigger] items.drop_first()[j]).uuid@
            != uuid by {
            assert(items.drop_first()[j] == items[j + 1]);
        }
        lemma_find_uuid_none(items.drop_first(), uuid);
    }
}

fn find_by_uuid(items: &Vec<ModelItem>, uuid: &str) -> (r: Option<usize>)
    ensures
        match r {
            None => spec_find_uuid(items@, uuid@) is None,
            Some(i) => i < items@.len() && spec_find_uuid(items@, uuid@) == Some(i as int),
        },
{
    let mut i: usize = 0;
    while i < items.len()
        invariant
            i <= items.len(),
            forall|j: int| 0 <= j < i ==> (#[trigger] items@[j]).uuid@ != uuid@,
        decreases items.len() - i,
    {
        if str_eq(items[i].uuid.as_str(), uuid) {
            proof {
                lemma_find_uuid_at(items@, uuid@, i as int);
            }
            return Some(i);
        }
        i = i + 1;
    }
    proof {
        lemma_find_uuid_none(items@, uuid@);
    }
    None
}

/// The listed entry a caller referenced by its display identifier, if the
/// identifier names one; the first such entry if several do.
pub fn get_model_data<'a>(items: &'a Vec<ModelItem>, uuid: &str) -> (r: Option<&'a ModelItem>)
    ensures
        match r {
            None => spec_find_uuid(items@, uuid@) is None,
            Some(it) => {
                &&& spec_find_uuid(items@, uuid@) is Some
                &&& *it == items@[spec_find_uuid(items@, uuid@)->0]
            },
        },
{
    match find_by_uuid(items, uuid) {
        None => None,
        Some(i) => Some(&items[i]),
    }
}

/// What to do about a request to remove the entry `uuid` references.
pub enum RemoveDecision {
    /// The identifier references no entry of this listing.
    NotFound,
    /// The entry has no file behind it, so there is nothing to remove.
    NotOnDisk,
    /// Remove the file of this name from the managed directory.
    Remove(String),
}

/// Decides a removal request against the current listing: only an entry that
/// is backed by a file may be removed, and what is removed is the file
/// bearing the entry's name.
pub fn remove_model_decision(items: &Vec<ModelItem>, uuid: &str) -> (r: RemoveDecision)
    ensures
        match spec_find_uuid(items@, uuid@) {
            None => r is NotFound,
            Some(i) => {
                if items@[i].status == ModelStatus::Undownloaded {
                    r is NotOnDisk
                } else {
                    r matches RemoveDecision::Remove(name) && name@ == items@[i].name@
                }
            },
        },
{
    match find_by_uuid(items, uuid) {
        None => RemoveDecision::NotFound,
        Some(i) => {
            if matches!(items[i].status, ModelStatus::Undownloaded) {
                RemoveDecision::NotOnDisk
            } else {
                RemoveDecision::Remove(items[i].name.clone())
            }
        },
    }
}

/// What to do about a request to download the entry `uuid` references.
pub enum DownloadDecision {
    /// The identifier references no entry of this listing.
    NotFound,
    /// The entry's name is not in the known-model set, so there is no origin
    /// to fetch it from.
    NotSupported,
    /// Fetch the model of this name.
    Download(String),
}

/// Decides a download request against the current listing: only a model
/// named in the family's known-model set can be fetched.
pub fn download_model_decision(items: &Vec<ModelItem>, uuid: &str, type_index: i32) -> (r:
    DownloadDecision)
    ensures
        match spec_find_uuid(items@, uuid@) {
            None => r is NotFound,
            Some(i) => {
                if spec_known_models(type_index as int).contains(items@[i].name@) {
                    r matches DownloadDecision::Download(name) && name@ == items@[i].name@
                } else {
                    r is NotSupported
                }
            },
        },
{
    match find_by_uuid(items, uuid) {
        None => DownloadDecision::NotFound,
        Some(i) => {
            if is_in_predefined_models(type_index, items[i].name.as_str()) {
                DownloadDecision::Download(items[i].name.clone())
            } else {
                DownloadDecision::NotSupported
            }
        },
    }
}

/// The listed names, in listing order, for a chooser widget.
pub fn model_names(items: &Vec<ModelItem>) -> (r: Vec<String>)
    ensures
        spec_string_views(r@) == spec_names(items@),
{
    let mut r: Vec<String> = Vec::new();
    let mut i: usize = 0;
    while i < items.len()
        invariant
            i <= items.len(),
            r@.len() == i,
            forall|j: int| 0 <= j < i ==> (#[trigger] r@[j])@ == items@[j].name@,
        decreases items.len() - i,
    {
        r.push(items[i].name.clone());
        i = i + 1;
    }
    proof {
        assert(spec_string_views(r@) =~= spec_names(items@));
    }
    r
}

} // verus!
