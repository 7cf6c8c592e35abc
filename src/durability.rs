//! What the store's protocol does to a file system. The file system is a map
//! from paths to contents; writing a file may fail part way and leave any content
//! at that path, but a rename either happens whole or not at all.
use vstd::prelude::*;
use crate::error::ErrorModel;
use crate::settings::{decode, default_model, encodes, lemma_round_trip, stores, ConfigModel};
use crate::json::json_pretty;
use crate::store::{
    expects, job_wf, next, op_of, temp_path, EventModel, JobModel, Op, PhaseModel, TEMP_SUFFIX,
};

verus! {

pub type Files = Map<Seq<char>, Seq<char>>;

/// `a` and `b` hold the same thing at `p`: both nothing, or the same content.
pub open spec fn same_at(a: Files, b: Files, p: Seq<char>) -> bool {
    &&& a.contains_key(p) == b.contains_key(p)
    &&& a.contains_key(p) ==> a[p] == b[p]
}

/// Performing `op` on `fs` can report `e` and leave `after`.
pub open spec fn performs(fs: Files, op: Op, e: EventModel, after: Files) -> bool {
    match op {
        Op::Check(p) => e == EventModel::Exists(fs.contains_key(p)) && after == fs,
        Op::Write(p, d) => match e {
            EventModel::Succeeded => after == fs.insert(p, d),
            EventModel::Failed(_) => forall|q: Seq<char>| q != p ==> same_at(fs, after, q),
            EventModel::Exists(_) => false,
        },
        Op::Rename(from, to) => match e {
            EventModel::Succeeded => fs.contains_key(from) && after == fs.remove(from).insert(
                to,
                fs[from],
            ),
            EventModel::Failed(_) => after == fs,
            EventModel::Exists(_) => false,
        },
        Op::Finish => false,
    }
}

/// Starting from `j` on `fs`, each step of `trace` is an event and the files it
/// left, and each fits the operation the job asked for.
pub open spec fn runs(j: JobModel, fs: Files, trace: Seq<(EventModel, Files)>) -> bool
    decreases trace.len(),
{
    trace.len() == 0 || {
        &&& expects(j, trace[0].0)
        &&& performs(fs, op_of(j), trace[0].0, trace[0].1)
        &&& runs(next(j, trace[0].0), trace[0].1, trace.drop_first())
    }
}

/// The job after a trace.
pub open spec fn job_after(j: JobModel, trace: Seq<(EventModel, Files)>) -> JobModel
    decreases trace.len(),
{
    if trace.len() == 0 {
        j
    } else {
        job_after(next(j, trace[0].0), trace.drop_first())
    }
}

/// The files after a trace.
pub open spec fn files_after(fs: Files, trace: Seq<(EventModel, Files)>) -> Files {
    if trace.len() == 0 {
        fs
    } else {
        trace.last().1
    }
}

/// What holds of the files in each phase of a job that started on `fs0`.
pub open spec fn holds(j: JobModel, fs0: Files, fs: Files) -> bool {
    match j.phase {
        PhaseModel::Checking | PhaseModel::Writing => fs == fs0,
        PhaseModel::Renaming => same_at(fs, fs0, j.target) && fs.contains_key(j.temp) && fs[j.temp]
            == j.data->Some_0,
        PhaseModel::Done(Ok(false)) => fs == fs0 && fs0.contains_key(j.target),
        PhaseModel::Done(Ok(true)) => j.data is Some && fs.contains_key(j.target) && fs[j.target]
            == j.data->Some_0 && !fs.contains_key(j.temp),
        PhaseModel::Done(Err(_)) => same_at(fs, fs0, j.target),
    }
}

proof fn lemma_temp_differs(target: Seq<char>)
    ensures
        temp_path(target) != target,
{
    assert(temp_path(target).len() == target.len() + TEMP_SUFFIX@.len());
    reveal_strlit(".tmp");
    assert(TEMP_SUFFIX@.len() == 4);
}

proof fn lemma_step(j: JobModel, fs0: Files, fs: Files, e: EventModel, after: Files)
    requires
        job_wf(j),
        holds(j, fs0, fs),
        expects(j, e),
        performs(fs, op_of(j), e, after),
    ensures
        job_wf(next(j, e)),
        holds(next(j, e), fs0, after),
        next(j, e).target == j.target,
        next(j, e).temp == j.temp,
        next(j, e).data == j.data,
{
    lemma_temp_differs(j.target);
    match j.phase {
        PhaseModel::Writing => {
            if e is Failed {
                assert(same_at(fs, after, j.target));
            }
        },
        PhaseModel::Renaming => {
            if e is Succeeded {
                assert(after.contains_key(j.target));
            }
        },
        _ => {},
    }
}

proof fn lemma_run(j: JobModel, fs0: Files, fs: Files, trace: Seq<(EventModel, Files)>)
    requires
        job_wf(j),
        holds(j, fs0, fs),
        runs(j, fs, trace),
    ensures
        job_wf(job_after(j, trace)),
        holds(job_after(j, trace), fs0, files_after(fs, trace)),
        job_after(j, trace).target == j.target,
        job_after(j, trace).temp == j.temp,
        job_after(j, trace).data == j.data,
    decreases trace.len(),
{
    if trace.len() > 0 {
        let e = trace[0].0;
        let after = trace[0].1;
        lemma_step(j, fs0, fs, e, after);
        let rest = trace.drop_first();
        lemma_run(next(j, e), fs0, after, rest);
        if rest.len() > 0 {
            assert(rest.last() == trace.last());
        }
    }
}

/// A job that has just started, by `Config::save` or `Config::init`.
pub open spec fn fresh(j: JobModel) -> bool {
    job_wf(j) && (j.phase is Checking || j.phase is Writing || j.phase == PhaseModel::Done(
        Err(ErrorModel::Serialization),
    ))
}

/// A save or init that fails leaves the settings file as it was: whatever goes
/// wrong, and wherever the steps stop, before the rename the target is untouched,
/// and a failed job has not touched it at all.
pub proof fn target_untouched_until_renamed(
    j: JobModel,
    fs0: Files,
    trace: Seq<(EventModel, Files)>,
)
    requires
        fresh(j),
        runs(j, fs0, trace),
    ensures
        !(job_after(j, trace).phase is Done && job_after(j, trace).phase->Done_0 is Ok)
            ==> same_at(files_after(fs0, trace), fs0, j.target),
{
    lemma_run(j, fs0, fs0, trace);
}

/// A save or init that succeeds in writing leaves the target holding exactly the
/// text it was given, and no temporary file behind.
pub proof fn saved_file_holds_text(j: JobModel, fs0: Files, trace: Seq<(EventModel, Files)>)
    requires
        fresh(j),
        runs(j, fs0, trace),
        job_after(j, trace).phase == PhaseModel::Done(Ok::<bool, ErrorModel>(true)),
    ensures
        files_after(fs0, trace).contains_key(j.target),
        files_after(fs0, trace)[j.target] == j.data->Some_0,
        !files_after(fs0, trace).contains_key(temp_path(j.target)),
{
    lemma_run(j, fs0, fs0, trace);
}

/// Once an init has succeeded, a second init on the files it left changes
/// nothing, whatever comes of it.
pub proof fn init_twice_changes_nothing(
    first: JobModel,
    second: JobModel,
    fs0: Files,
    trace1: Seq<(EventModel, Files)>,
    trace2: Seq<(EventModel, Files)>,
)
    requires
        first.phase is Checking,
        second.phase is Checking,
        job_wf(first),
        job_wf(second),
        second.target == first.target,
        runs(first, fs0, trace1),
        job_after(first, trace1).phase matches PhaseModel::Done(Ok(_)),
        runs(second, files_after(fs0, trace1), trace2),
    ensures
        files_after(fs0, trace1).contains_key(first.target),
        files_after(files_after(fs0, trace1), trace2) == files_after(fs0, trace1),
{
    lemma_run(first, fs0, fs0, trace1);
    let fs1 = files_after(fs0, trace1);
    assert(fs1.contains_key(first.target));
    if trace2.len() > 0 {
        let e = trace2[0].0;
        assert(performs(fs1, op_of(second), e, trace2[0].1));
        assert(e == EventModel::Exists(true));
        assert(trace2[0].1 == fs1);
        let rest = trace2.drop_first();
        assert(next(second, e).phase == PhaseModel::Done(Ok::<bool, ErrorModel>(false)));
        assert(runs(next(second, e), trace2[0].1, rest));
        if rest.len() > 0 {
            assert(!expects(next(second, e), rest[0].0));
        }
        assert(rest.len() == 0);
        assert(trace2.last() == trace2[0]);
    }
}

/// An init on files without the target that succeeds leaves there the text of
/// a document that reads back as the default settings.
pub proof fn init_writes_defaults(j: JobModel, fs0: Files, trace: Seq<(EventModel, Files)>)
    requires
        j.phase is Checking,
        job_wf(j),
        j.data matches Some(d) ==> stores(d, default_model()),
        !fs0.contains_key(j.target),
        runs(j, fs0, trace),
        job_after(j, trace).phase matches PhaseModel::Done(Ok(_)),
    ensures
        job_after(j, trace).phase == PhaseModel::Done(Ok::<bool, ErrorModel>(true)),
        exists|v: serde_json::Value|
            encodes(v, default_model()) && json_pretty(v) == files_after(fs0, trace)[j.target]
                && decode(v) == Ok::<ConfigModel, crate::settings::Fault>(default_model()),
{
    lemma_run(j, fs0, fs0, trace);
    let v = choose|v: serde_json::Value|
        encodes(v, default_model()) && json_pretty(v) == j.data->Some_0;
    lemma_round_trip(v, default_model());
}

} // verus!
