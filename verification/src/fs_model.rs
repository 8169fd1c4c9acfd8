use vstd::prelude::*;

use crate::pipeline::StreamItem;
use crate::run_model::planned_writes;

verus! {

/// The output directory modeled as a map from filename to file content.
/// Applying a run's writes in order overwrites on collision, as the pipeline
/// does: no collision handling, the later write wins.
pub open spec fn apply_writes(
    fs: Map<Seq<char>, Seq<u8>>,
    ps: Seq<(Seq<char>, Seq<u8>)>,
) -> Map<Seq<char>, Seq<u8>>
    decreases ps.len(),
{
    if ps.len() == 0 {
        fs
    } else {
        apply_writes(fs.insert(ps[0].0, ps[0].1), ps.drop_first())
    }
}

/// The content the last write in `ps` targeting filename `k` carries, if any
/// write targets it.
pub open spec fn last_write(ps: Seq<(Seq<char>, Seq<u8>)>, k: Seq<char>) -> Option<Seq<u8>>
    decreases ps.len(),
{
    if ps.len() == 0 {
        None
    } else {
        let rest = last_write(ps.drop_first(), k);
        if rest is Some {
            rest
        } else if ps[0].0 == k {
            Some(ps[0].1)
        } else {
            None
        }
    }
}

/// After a run of writes, a file holds the content of the last write that
/// targeted it; files no write targeted are untouched.
pub proof fn lemma_apply_writes_characterization(
    fs: Map<Seq<char>, Seq<u8>>,
    ps: Seq<(Seq<char>, Seq<u8>)>,
    k: Seq<char>,
)
    ensures
        apply_writes(fs, ps).contains_key(k) <==> (fs.contains_key(k) || last_write(ps, k)
            is Some),
        last_write(ps, k) is Some ==> apply_writes(fs, ps)[k] == last_write(ps, k)->0,
        last_write(ps, k) is None && fs.contains_key(k) ==> apply_writes(fs, ps)[k] == fs[k],
    decreases ps.len(),
{
    if ps.len() > 0 {
        lemma_apply_writes_characterization(fs.insert(ps[0].0, ps[0].1), ps.drop_first(), k);
    }
}

/// Law (content idempotence): replaying the same writes over the directory a
/// first run left behind changes nothing. Every file a second identical run
/// touches is overwritten with identical content, so the directory's final
/// state is that of a single run.
pub proof fn lemma_content_idempotent(
    fs: Map<Seq<char>, Seq<u8>>,
    ps: Seq<(Seq<char>, Seq<u8>)>,
)
    ensures
        apply_writes(apply_writes(fs, ps), ps) == apply_writes(fs, ps),
{
    let fs1 = apply_writes(fs, ps);
    let fs2 = apply_writes(fs1, ps);
    assert forall|k: Seq<char>| #[trigger]
        fs2.contains_key(k) <==> fs1.contains_key(k) by {
        lemma_apply_writes_characterization(fs, ps, k);
        lemma_apply_writes_characterization(fs1, ps, k);
    }
    assert forall|k: Seq<char>| fs1.contains_key(k) implies #[trigger] fs2[k] == fs1[k] by {
        lemma_apply_writes_characterization(fs, ps, k);
        lemma_apply_writes_characterization(fs1, ps, k);
    }
    assert(fs2 =~= fs1);
}

/// Law: running the whole pipeline twice over the same stream, with the same
/// write outcomes, leaves the output directory exactly as one run leaves it:
/// the second run overwrites each of its files with identical content.
pub proof fn lemma_run_content_idempotent(
    fs: Map<Seq<char>, Seq<u8>>,
    items: Seq<StreamItem>,
    ok: Seq<bool>,
)
    ensures
        apply_writes(apply_writes(fs, planned_writes(items, ok)), planned_writes(items, ok))
            == apply_writes(fs, planned_writes(items, ok)),
{
    lemma_content_idempotent(fs, planned_writes(items, ok));
}

} // verus!
