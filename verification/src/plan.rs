//! Download planning: which records get a fetch task, and what the task
//! holds.

use crate::fetch::{FetchTask, FetchTaskView};
use crate::record::{brand_of, path_in, target_path_spec, Record, RecordView};
use crate::text::{slug_spec, slugify};
use vstd::prelude::*;

verus! {

/// A record is eligible for a fetch task if it has a source URL and a brand.
pub open spec fn eligible(record: RecordView) -> bool {
    record.source_image_url is Some && brand_of(record) is Some
}

/// Whether a record has an asset to fetch.
pub open spec fn has_source(record: RecordView) -> bool {
    record.source_image_url is Some
}

/// The fetch task of a record: its source URL, the directory named by the
/// slug of its brand, and the target file inside that directory. A record
/// that is not eligible has no task.
pub open spec fn task_of(record: RecordView) -> Option<FetchTaskView> {
    if eligible(record) {
        let brand = brand_of(record)->0;
        Some(
            FetchTaskView {
                url: record.source_image_url->0,
                directory: slug_spec(brand),
                path: target_path_spec(brand, record.local_filename, record.content_hash),
            },
        )
    } else {
        None
    }
}

/// The tasks of a catalog: one for each eligible record, in catalog order.
pub open spec fn plan_spec(records: Seq<RecordView>) -> Seq<FetchTaskView> {
    records.filter_map(|record: RecordView| task_of(record))
}

/// Builds the fetch task of a record, if the record is eligible.
pub fn task_for(record: &Record) -> (task: Option<FetchTask>)
    ensures
        task.deep_view() == task_of(record@),
{
    match record.source_image_url() {
        Some(url) => match record.brand() {
            Some(brand) => {
                let directory = slugify(brand);
                let path = path_in(directory.as_str(), record.target_filename().as_str());
                Some(FetchTask { url: url.to_owned(), directory, path })
            },
            None => None,
        },
        None => None,
    }
}

/// Plans the downloads of a catalog.
pub fn plan(records: &Vec<Record>) -> (tasks: Vec<FetchTask>)
    ensures
        tasks.deep_view() == plan_spec(records.deep_view()),
{
    let ghost all = records.deep_view();
    let mut tasks: Vec<FetchTask> = Vec::new();
    let mut at: usize = 0;
    assert(tasks.deep_view() =~= plan_spec(all.take(0)));
    while at < records.len()
        invariant
            at <= records.len(),
            all == records.deep_view(),
            tasks.deep_view() == plan_spec(all.take(at as int)),
        decreases records.len() - at,
    {
        proof {
            all.lemma_filter_map_take_succ(|record: RecordView| task_of(record), at as int);
        }
        let ghost before = tasks.deep_view();
        match task_for(&records[at]) {
            Some(task) => {
                tasks.push(task);
                assert(tasks.deep_view() =~= before + seq![task@]);
            },
            None => {
                assert(before + Seq::<FetchTaskView>::empty() =~= before);
            },
        }
        at += 1;
    }
    assert(all.take(records.len() as int) =~= all);
    tasks
}

/// One task for each eligible record: the plan is as long as the number of
/// eligible records.
pub proof fn lemma_plan_counts_eligible(records: Seq<RecordView>)
    ensures
        plan_spec(records).len() == records.filter(|record: RecordView| eligible(record)).len(),
    decreases records.len(),
{
    reveal(Seq::filter);
    if records.len() > 0 {
        lemma_plan_counts_eligible(records.drop_last());
    }
}

/// In a catalog where every record with a source URL has a brand, the plan
/// holds one task for each record with a source URL.
pub proof fn lemma_plan_counts_sources(records: Seq<RecordView>)
    requires
        forall|i: int|
            0 <= i < records.len() && has_source(#[trigger] records[i]) ==> brand_of(records[i])
                is Some,
    ensures
        plan_spec(records).len() == records.filter(|record: RecordView| has_source(record)).len(),
    decreases records.len(),
{
    reveal(Seq::filter);
    if records.len() > 0 {
        let rest = records.drop_last();
        assert forall|i: int|
            0 <= i < rest.len() && has_source(#[trigger] rest[i]) implies brand_of(rest[i])
            is Some by {
            assert(rest[i] == records[i]);
        }
        lemma_plan_counts_sources(rest);
        assert(records.last() == records[records.len() - 1]);
    }
}

/// Every eligible record has its task in the plan, wherever in the catalog
/// the record stands.
pub proof fn lemma_plan_holds_task(records: Seq<RecordView>, at: int)
    requires
        0 <= at < records.len(),
        eligible(records[at]),
    ensures
        plan_spec(records).contains(task_of(records[at])->0),
    decreases records.len(),
{
    let rest = records.drop_last();
    let tasks = plan_spec(records);
    if at == records.len() - 1 {
        assert(tasks[tasks.len() - 1] == task_of(records[at])->0);
    } else {
        lemma_plan_holds_task(rest, at);
        let task = task_of(records[at])->0;
        let k = choose|k: int| 0 <= k < plan_spec(rest).len() && plan_spec(rest)[k] == task;
        assert(tasks[k] == task);
    }
}

} // verus!
