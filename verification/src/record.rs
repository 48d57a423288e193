//! Catalog records: the fields the pipeline reads, the open-ended side table
//! of everything else, and the URL rewriting rule.

use crate::text::{slug_spec, slugify, underscore_space};
use vstd::prelude::*;
use vstd::string::StringExecFns;

verus! {

/// `serde_json::Value`: a JSON value, carried through without looking inside.
#[verifier::external_type_specification]
#[verifier::external_body]
pub struct ExJsonValue(serde_json::Value);

/// The text of a JSON value that is a string; `None` for every other kind of
/// value.
pub uninterp spec fn json_text(value: serde_json::Value) -> Option<Seq<char>>;

/// `serde_json::Value::as_str` hands out the text of a string value and
/// `None` for any other value.
pub assume_specification[ serde_json::Value::as_str ](
    value: &serde_json::Value,
) -> (text: Option<&str>)
    ensures
        text is Some <==> json_text(*value) is Some,
        text matches Some(t) ==> json_text(*value) == Some(t@),
;

/// Scheme and host of every rewritten URL.
pub const BASE_HOST: &'static str = "https://portal.framescloud.optiserver.co.uk";

/// First path segment of every rewritten URL.
pub const IMAGES_ROOT: &'static str = "images";

/// Key of the side-table entry that carries the brand name.
pub const BRAND_KEY: &'static str = "$iBrand";

/// Extension of the file name synthesised from a content hash.
pub const FALLBACK_EXTENSION: &'static str = ".jpg";

/// One entry of a record's side table: a catalog key the pipeline does not
/// model, with its value kept as it came.
#[derive(Debug)]
pub struct ExtraField {
    pub key: String,
    pub value: serde_json::Value,
}

impl View for ExtraField {
    type V = (Seq<char>, serde_json::Value);

    open spec fn view(&self) -> (Seq<char>, serde_json::Value) {
        (self.key@, self.value)
    }
}

impl DeepView for ExtraField {
    type V = (Seq<char>, serde_json::Value);

    open spec fn deep_view(&self) -> (Seq<char>, serde_json::Value) {
        self@
    }
}

/// The value stored under `key`, if an entry has that key.
pub open spec fn lookup(
    fields: Seq<(Seq<char>, serde_json::Value)>,
    key: Seq<char>,
) -> Option<serde_json::Value>
    decreases fields.len(),
{
    if fields.len() == 0 {
        None
    } else if fields[0].0 == key {
        Some(fields[0].1)
    } else {
        lookup(fields.drop_first(), key)
    }
}

/// No key occurs twice.
pub open spec fn distinct_keys(fields: Seq<(Seq<char>, serde_json::Value)>) -> bool {
    forall|i: int, j: int| 0 <= i < j < fields.len() ==> fields[i].0 != fields[j].0
}

/// The side table after storing `value` under `key`: the entry with that key
/// takes the new value where it stands, and a new key goes to the end.
pub open spec fn with_entry(
    fields: Seq<(Seq<char>, serde_json::Value)>,
    key: Seq<char>,
    value: serde_json::Value,
) -> Seq<(Seq<char>, serde_json::Value)> {
    if lookup(fields, key) is Some {
        fields.map_values(
            |entry: (Seq<char>, serde_json::Value)|
                if entry.0 == key {
                    (key, value)
                } else {
                    entry
                },
        )
    } else {
        fields.push((key, value))
    }
}

/// A key that no entry has looks up to nothing.
pub proof fn lemma_lookup_absent(fields: Seq<(Seq<char>, serde_json::Value)>, key: Seq<char>)
    ensures
        lookup(fields, key) is None <==> forall|i: int|
            0 <= i < fields.len() ==> (#[trigger] fields[i]).0 != key,
    decreases fields.len(),
{
    if fields.len() > 0 {
        let rest = fields.drop_first();
        lemma_lookup_absent(rest, key);
        if fields[0].0 != key {
            if lookup(rest, key) is None {
                assert forall|i: int| 0 <= i < fields.len() implies (#[trigger] fields[i]).0
                    != key by {
                    if i > 0 {
                        assert(fields[i] == rest[i - 1]);
                    }
                }
            } else {
                let i = choose|i: int| 0 <= i < rest.len() && (#[trigger] rest[i]).0 == key;
                assert(fields[i + 1] == rest[i]);
            }
        }
    }
}

/// The first entry with the key is the one that a lookup finds.
pub proof fn lemma_lookup_first(
    fields: Seq<(Seq<char>, serde_json::Value)>,
    key: Seq<char>,
    at: int,
)
    requires
        0 <= at < fields.len(),
        fields[at].0 == key,
        forall|i: int| 0 <= i < at ==> (#[trigger] fields[i]).0 != key,
    ensures
        lookup(fields, key) == Some(fields[at].1),
    decreases fields.len(),
{
    if at > 0 {
        let rest = fields.drop_first();
        assert(fields[0].0 != key);
        assert forall|i: int| 0 <= i < at - 1 implies (#[trigger] rest[i]).0 != key by {
            assert(rest[i] == fields[i + 1]);
        }
        lemma_lookup_first(rest, key, at - 1);
    }
}

/// Position of the entry with the given key.
fn find(fields: &Vec<ExtraField>, key: &String) -> (found: Option<usize>)
    ensures
        found is None ==> forall|i: int|
            0 <= i < fields.len() ==> (#[trigger] fields[i]).key@ != key@,
        found matches Some(at) ==> ({
            &&& at < fields.len()
            &&& fields[at as int].key@ == key@
            &&& forall|i: int| 0 <= i < at ==> (#[trigger] fields[i]).key@ != key@
        }),
{
    let mut at: usize = 0;
    while at < fields.len()
        invariant
            at <= fields.len(),
            forall|i: int| 0 <= i < at ==> (#[trigger] fields[i]).key@ != key@,
        decreases fields.len() - at,
    {
        if fields[at].key == *key {
            return Some(at);
        }
        at += 1;
    }
    None
}

/// What a record is, as plain values.
pub struct RecordView {
    pub source_image_url: Option<Seq<char>>,
    pub local_filename: Seq<char>,
    pub content_hash: Seq<char>,
    pub rewritten_image_url: Option<Seq<char>>,
    pub extra_fields: Seq<(Seq<char>, serde_json::Value)>,
}

/// One catalog entry.
///
/// The side table keeps every catalog key the pipeline does not model, each
/// key once, in the order in which the keys were first stored.
#[derive(Debug)]
pub struct Record {
    source_image_url: Option<String>,
    local_filename: String,
    content_hash: String,
    rewritten_image_url: Option<String>,
    extra_fields: Vec<ExtraField>,
}

impl View for Record {
    type V = RecordView;

    closed spec fn view(&self) -> RecordView {
        RecordView {
            source_image_url: self.source_image_url.deep_view(),
            local_filename: self.local_filename@,
            content_hash: self.content_hash@,
            rewritten_image_url: self.rewritten_image_url.deep_view(),
            extra_fields: self.extra_fields.deep_view(),
        }
    }
}

impl DeepView for Record {
    type V = RecordView;

    open spec fn deep_view(&self) -> RecordView {
        self@
    }
}

/// The brand of a record: the text stored under the brand key, absent when
/// the key is missing or its value is not a string.
pub open spec fn brand_of(record: RecordView) -> Option<Seq<char>> {
    match lookup(record.extra_fields, BRAND_KEY@) {
        Some(value) => json_text(value),
        None => None,
    }
}

/// The directory segment of a brand; an absent brand gives the empty segment.
pub open spec fn brand_segment(brand: Option<Seq<char>>) -> Seq<char> {
    match brand {
        Some(name) => slug_spec(name),
        None => Seq::empty(),
    }
}

/// The URL of an asset under a given directory segment: host, images root,
/// segment and file name, joined by slashes.
pub open spec fn asset_url_spec(segment: Seq<char>, local_filename: Seq<char>) -> Seq<char> {
    BASE_HOST@ + "/"@ + IMAGES_ROOT@ + "/"@ + segment + "/"@ + local_filename
}

/// The canonical URL of an asset: the URL under the directory segment of its
/// brand.
pub open spec fn rewritten_url_spec(
    brand: Option<Seq<char>>,
    local_filename: Seq<char>,
) -> Seq<char> {
    asset_url_spec(brand_segment(brand), local_filename)
}

/// A record after rewriting: the rewritten URL is set exactly when a source
/// URL is present, and nothing else changes.
pub open spec fn rewritten(record: RecordView) -> RecordView {
    RecordView {
        rewritten_image_url: if record.source_image_url is Some {
            Some(rewritten_url_spec(brand_of(record), record.local_filename))
        } else {
            None
        },
        ..record
    }
}

/// The name of the file that holds an asset: the local file name, or the
/// content hash with the fallback extension where that name is empty.
pub open spec fn target_filename_spec(
    local_filename: Seq<char>,
    content_hash: Seq<char>,
) -> Seq<char> {
    if local_filename.len() == 0 {
        content_hash + FALLBACK_EXTENSION@
    } else {
        local_filename
    }
}

/// The path of a file inside a brand directory, relative to the output
/// directory: the directory segment, a slash, the file name.
pub open spec fn path_in_spec(segment: Seq<char>, filename: Seq<char>) -> Seq<char> {
    segment + "/"@ + filename
}

/// The path of the file that holds an asset: its file name inside the
/// directory of its brand.
pub open spec fn target_path_spec(
    brand: Seq<char>,
    local_filename: Seq<char>,
    content_hash: Seq<char>,
) -> Seq<char> {
    path_in_spec(slug_spec(brand), target_filename_spec(local_filename, content_hash))
}

/// Joins host, images root, directory segment and file name into a URL.
pub fn asset_url(segment: &str, local_filename: &str) -> (url: String)
    ensures
        url@ == asset_url_spec(segment@, local_filename@),
{
    let mut url = BASE_HOST.to_owned();
    url.append("/");
    url.append(IMAGES_ROOT);
    url.append("/");
    url.append(segment);
    url.append("/");
    url.append(local_filename);
    url
}

/// Derives the canonical URL of an asset from its brand and file name.
pub fn rewritten_url(brand: Option<&str>, local_filename: &str) -> (url: String)
    ensures
        url@ == rewritten_url_spec(brand.deep_view(), local_filename@),
{
    let segment = match brand {
        Some(name) => slugify(name),
        None => String::new(),
    };
    asset_url(segment.as_str(), local_filename)
}

/// Joins a directory segment and a file name into a path.
pub fn path_in(segment: &str, filename: &str) -> (path: String)
    ensures
        path@ == path_in_spec(segment@, filename@),
{
    let mut path = segment.to_owned();
    path.append("/");
    path.append(filename);
    path
}

impl Record {
    #[verifier::type_invariant]
    spec fn well_formed(self) -> bool {
        distinct_keys(self.extra_fields.deep_view())
    }

    /// A record as the loader first sees it: no rewritten URL, an empty side
    /// table.
    pub fn new(
        source_image_url: Option<String>,
        local_filename: String,
        content_hash: String,
    ) -> (record: Record)
        ensures
            record@ == (RecordView {
                source_image_url: source_image_url.deep_view(),
                local_filename: local_filename@,
                content_hash: content_hash@,
                rewritten_image_url: None,
                extra_fields: Seq::empty(),
            }),
    {
        let record = Record {
            source_image_url,
            local_filename,
            content_hash,
            rewritten_image_url: None,
            extra_fields: Vec::new(),
        };
        assert(record.extra_fields.deep_view() =~= Seq::empty());
        record
    }

    /// The record with `value` stored under `key` in the side table, in place
    /// of the value that the key had, if it had one.
    pub fn with_extra(self, key: String, value: serde_json::Value) -> (record: Record)
        ensures
            record@ == (RecordView {
                extra_fields: with_entry(self@.extra_fields, key@, value),
                ..self@
            }),
    {
        proof {
            use_type_invariant(&self);
            lemma_lookup_absent(self.extra_fields.deep_view(), key@);
        }
        let ghost before = self.extra_fields.deep_view();
        let mut extra_fields = self.extra_fields;
        match find(&extra_fields, &key) {
            Some(at) => {
                proof {
                    lemma_lookup_first(before, key@, at as int);
                }
                extra_fields.set(at, ExtraField { key, value });
            },
            None => {
                extra_fields.push(ExtraField { key, value });
            },
        }
        assert(extra_fields.deep_view() =~= with_entry(before, key@, value));
        Record {
            source_image_url: self.source_image_url,
            local_filename: self.local_filename,
            content_hash: self.content_hash,
            rewritten_image_url: self.rewritten_image_url,
            extra_fields,
        }
    }

    /// The URL the asset is fetched from, where the record has an asset.
    pub fn source_image_url(&self) -> (url: Option<&str>)
        ensures
            url.deep_view() == self@.source_image_url,
    {
        match &self.source_image_url {
            Some(url) => Some(url.as_str()),
            None => None,
        }
    }

    /// The file name the catalog gives the asset; may be empty.
    pub fn local_filename(&self) -> (name: &str)
        ensures
            name@ == self@.local_filename,
    {
        self.local_filename.as_str()
    }

    /// The content hash of the asset.
    pub fn content_hash(&self) -> (hash: &str)
        ensures
            hash@ == self@.content_hash,
    {
        self.content_hash.as_str()
    }

    /// The URL computed by rewriting, if the record has been rewritten and
    /// has an asset.
    pub fn rewritten_image_url(&self) -> (url: Option<&str>)
        ensures
            url.deep_view() == self@.rewritten_image_url,
    {
        match &self.rewritten_image_url {
            Some(url) => Some(url.as_str()),
            None => None,
        }
    }

    /// The side table, each key once.
    pub fn extra_fields(&self) -> (fields: &Vec<ExtraField>)
        ensures
            fields.deep_view() == self@.extra_fields,
            distinct_keys(self@.extra_fields),
    {
        proof {
            use_type_invariant(self);
        }
        &self.extra_fields
    }

    /// The brand name, where the side table has one.
    pub fn brand(&self) -> (brand: Option<&str>)
        ensures
            brand.deep_view() == brand_of(self@),
    {
        let key = BRAND_KEY.to_owned();
        proof {
            lemma_lookup_absent(self.extra_fields.deep_view(), key@);
        }
        match find(&self.extra_fields, &key) {
            Some(at) => {
                proof {
                    lemma_lookup_first(self.extra_fields.deep_view(), key@, at as int);
                }
                self.extra_fields[at].value.as_str()
            },
            None => None,
        }
    }

    /// Sets the rewritten URL from the brand and the local file name if the
    /// record has a source URL, and clears it otherwise.
    pub fn rewrite(&mut self)
        ensures
            final(self)@ == rewritten(old(self)@),
    {
        proof {
            use_type_invariant(&*self);
        }
        if self.source_image_url.is_some() {
            let url = rewritten_url(self.brand(), self.local_filename.as_str());
            self.rewritten_image_url = Some(url);
        } else {
            self.rewritten_image_url = None;
        }
    }

    /// The name of the file that the record's asset is stored under.
    pub fn target_filename(&self) -> (name: String)
        ensures
            name@ == target_filename_spec(self@.local_filename, self@.content_hash),
    {
        if self.local_filename.as_str().is_empty() {
            let mut name = self.content_hash.clone();
            name.append(FALLBACK_EXTENSION);
            name
        } else {
            self.local_filename.clone()
        }
    }
}

/// A catalog after rewriting: every record rewritten, none added, dropped or
/// moved.
pub open spec fn rewritten_catalog(records: Seq<RecordView>) -> Seq<RecordView> {
    records.map_values(|record: RecordView| rewritten(record))
}

/// Rewrites every record of a catalog, in place and in order.
pub fn rewrite_all(records: &mut Vec<Record>)
    ensures
        final(records).deep_view() == rewritten_catalog(old(records).deep_view()),
{
    let mut at: usize = 0;
    while at < records.len()
        invariant
            at <= records.len(),
            records.len() == old(records).len(),
            forall|i: int| 0 <= i < at ==> (#[trigger] records[i])@ == rewritten(old(records)[i]@),
            forall|i: int| at <= i < records.len() ==> (#[trigger] records[i]) == old(records)[i],
        decreases records.len() - at,
    {
        records[at].rewrite();
        at += 1;
    }
    assert(records.deep_view() =~= rewritten_catalog(old(records).deep_view()));
}

/// Rewriting touches nothing but the rewritten URL, which it sets exactly on
/// the records that have a source URL: every entry of every side table, and
/// the number and order of the records, stay as they were.
pub proof fn lemma_rewriting_preserves_input(records: Seq<RecordView>)
    ensures
        rewritten_catalog(records).len() == records.len(),
        forall|i: int|
            #![trigger rewritten_catalog(records)[i]]
            0 <= i < records.len() ==> ({
                let before = records[i];
                let after = rewritten_catalog(records)[i];
                &&& after.extra_fields == before.extra_fields
                &&& after.source_image_url == before.source_image_url
                &&& after.local_filename == before.local_filename
                &&& after.content_hash == before.content_hash
                &&& after.rewritten_image_url is Some <==> before.source_image_url is Some
            }),
{
}

/// Rewriting a rewritten catalog changes nothing.
pub proof fn lemma_rewriting_is_idempotent(records: Seq<RecordView>)
    ensures
        rewritten_catalog(rewritten_catalog(records)) == rewritten_catalog(records),
{
    assert(rewritten_catalog(rewritten_catalog(records)) =~= rewritten_catalog(records));
}

/// A missing brand gives the empty directory segment: the rewritten URL then
/// has nothing between the slash after the images root and the slash before
/// the file name.
pub proof fn lemma_missing_brand_gives_empty_segment(local_filename: Seq<char>)
    ensures
        rewritten_url_spec(None, local_filename) == BASE_HOST@ + "/"@ + IMAGES_ROOT@ + "/"@ + "/"@
            + local_filename,
        slug_spec(Seq::empty()) == Seq::<char>::empty(),
{
    reveal(Seq::filter);
    assert(BASE_HOST@ + "/"@ + IMAGES_ROOT@ + "/"@ + Seq::<char>::empty() =~= BASE_HOST@ + "/"@
        + IMAGES_ROOT@ + "/"@);
    assert(Seq::<char>::empty().map_values(|c: char| underscore_space(c)) =~= Seq::<char>::empty());
}

} // verus!
