//! The decisions of the installation worker: what it answers to each
//! request, and the sizes that its progress is measured in.
use vstd::prelude::*;

verus! {

/// What the window asks the installation worker to do.
#[derive(Debug)]
pub enum Request {
    /// Add the installation that a `.flatpakref` file describes.
    AddRefFile(String),
    /// Add the installation of a `.flatpak` bundle file.
    AddBundleFile(String),
    /// Run the transaction.
    RunTransaction,
}

/// What the worker tells the window after carrying out a request.
#[derive(Debug)]
pub enum Reply {
    /// The transaction ran to its end.
    Done,
    /// The request failed, with the failure's text.
    Failed(String),
}

/// The reply owed for carrying out `request` with `outcome`, if any: a
/// failure is always reported; of the successes only that of running the
/// transaction is.
pub fn reply_to(request: &Request, outcome: Result<(), String>) -> (r: Option<Reply>)
    ensures
        outcome matches Err(e) ==> (r matches Some(Reply::Failed(m)) && m@ == e@),
        outcome is Ok ==> (r matches Some(Reply::Done) <==> request is RunTransaction),
        outcome is Ok ==> (r is None <==> !(request is RunTransaction)),
{
    match outcome {
        Err(e) => Some(Reply::Failed(e)),
        Ok(()) => match request {
            Request::RunTransaction => Some(Reply::Done),
            _ => None,
        },
    }
}

/// One operation of a transaction: its installed and download sizes, and
/// whether it is the operation whose progress is being reported.
#[derive(Clone, Copy)]
pub struct OperationSize {
    pub installed: u64,
    pub download: u64,
    pub is_current: bool,
}

/// The bytes that an operation accounts for.
pub open spec fn op_size(op: OperationSize) -> int {
    op.installed + op.download
}

/// The bytes of all the operations.
pub open spec fn total_size(ops: Seq<OperationSize>) -> int
    decreases ops.len(),
{
    if ops.len() == 0 {
        0
    } else {
        total_size(ops.drop_last()) + op_size(ops.last())
    }
}

/// How many operations come before the first current one (all of them when
/// none is current).
pub open spec fn leading_others(ops: Seq<OperationSize>) -> nat
    decreases ops.len(),
{
    if ops.len() == 0 || ops[0].is_current {
        0
    } else {
        1 + leading_others(ops.skip(1))
    }
}

/// The bytes of the operations before the current one.
pub open spec fn size_before_current(ops: Seq<OperationSize>) -> int {
    total_size(ops.take(leading_others(ops) as int))
}

/// The byte counts from which the window's progress fraction is made.
#[derive(Debug)]
pub struct ProgressSizes {
    /// All operations together.
    pub total: u64,
    /// The operations before the current one.
    pub before: u64,
    /// The current operation.
    pub current: u64,
}

proof fn lemma_total_size_nonneg(ops: Seq<OperationSize>)
    ensures
        total_size(ops) >= 0,
    decreases ops.len(),
{
    if ops.len() > 0 {
        lemma_total_size_nonneg(ops.drop_last());
    }
}

/// A prefix never weighs more than the whole.
pub proof fn lemma_total_size_prefix(ops: Seq<OperationSize>, k: int)
    requires
        0 <= k <= ops.len(),
    ensures
        0 <= total_size(ops.take(k)) <= total_size(ops),
    decreases ops.len() - k,
{
    lemma_total_size_nonneg(ops.take(k));
    if k < ops.len() {
        lemma_total_size_prefix(ops, k + 1);
        assert(ops.take(k + 1).drop_last() =~= ops.take(k));
    } else {
        assert(ops.take(k) =~= ops);
    }
}

proof fn lemma_leading_others(ops: Seq<OperationSize>, k: int)
    requires
        0 <= k <= ops.len(),
        forall|j: int| 0 <= j < k ==> !(#[trigger] ops[j]).is_current,
        k == ops.len() || ops[k].is_current,
    ensures
        leading_others(ops) == k,
    decreases k,
{
    if k > 0 {
        assert(!ops[0].is_current);
        assert forall|j: int| 0 <= j < k - 1 implies !(#[trigger] ops.skip(1)[j]).is_current by {
            assert(ops.skip(1)[j] == ops[j + 1]);
        }
        if k < ops.len() {
            assert(ops.skip(1)[k - 1] == ops[k]);
        }
        lemma_leading_others(ops.skip(1), k - 1);
    }
}

/// The total, preceding and current sizes for reporting the progress of
/// the current operation (`current_installed` and `current_download` are its
/// sizes).
pub fn progress_sizes(ops: &Vec<OperationSize>, current_installed: u64, current_download: u64) -> (r: ProgressSizes)
    requires
        total_size(ops@) <= u64::MAX,
        current_installed + current_download <= u64::MAX,
    ensures
        r.total == total_size(ops@),
        r.before == size_before_current(ops@),
        r.current == current_installed + current_download,
{
    let n = ops.len();
    let mut total: u64 = 0;
    let mut before: u64 = 0;
    let mut seen_current = false;
    let mut i: usize = 0;
    while i < n
        invariant
            n == ops@.len(),
            i <= n,
            total_size(ops@) <= u64::MAX,
            total == total_size(ops@.take(i as int)),
            !seen_current ==> forall|j: int| 0 <= j < i ==> !(#[trigger] ops@[j]).is_current,
            !seen_current ==> before == total,
            seen_current ==> before == size_before_current(ops@),
        decreases n - i,
    {
        let op = ops[i];
        if !seen_current && op.is_current {
            proof {
                lemma_leading_others(ops@, i as int);
            }
            seen_current = true;
        }
        proof {
            lemma_total_size_prefix(ops@, i + 1);
            assert(ops@.take(i + 1).drop_last() =~= ops@.take(i as int));
            assert(ops@.take(i + 1).last() == ops@[i as int]);
        }
        total = total + op.installed + op.download;
        if !seen_current {
            before = total;
        }
        i = i + 1;
    }
    proof {
        assert(ops@.take(n as int) =~= ops@);
        if !seen_current {
            lemma_leading_others(ops@, n as int);
        }
    }
    ProgressSizes { total, before, current: current_installed + current_download }
}

/// The operations before the current one never weigh more than all of them.
pub proof fn law_before_within_total(ops: Seq<OperationSize>)
    ensures
        0 <= size_before_current(ops) <= total_size(ops),
{
    assert(leading_others(ops) <= ops.len()) by {
        lemma_leading_others_bound(ops);
    }
    lemma_total_size_prefix(ops, leading_others(ops) as int);
}

proof fn lemma_leading_others_bound(ops: Seq<OperationSize>)
    ensures
        leading_others(ops) <= ops.len(),
    decreases ops.len(),
{
    if ops.len() > 0 && !ops[0].is_current {
        lemma_leading_others_bound(ops.skip(1));
    }
}

/// The size of a single operation is its installed plus its download size,
/// and the size of operations taken together is the sum of their parts.
pub proof fn law_total_size_adds_up(a: Seq<OperationSize>, b: Seq<OperationSize>, o: OperationSize)
    ensures
        total_size(Seq::empty()) == 0,
        total_size(seq![o]) == o.installed + o.download,
        total_size(a + b) == total_size(a) + total_size(b),
    decreases b.len(),
{
    assert(seq![o].drop_last() =~= Seq::<OperationSize>::empty());
    assert(total_size(seq![o].drop_last()) == 0);
    assert(seq![o].last() == o);
    if b.len() == 0 {
        assert(a + b =~= a);
    } else {
        law_total_size_adds_up(a, b.drop_last(), o);
        assert((a + b).drop_last() =~= a + b.drop_last());
        assert((a + b).last() == b.last());
    }
}

/// The operations counted before the current one are exactly those ahead
/// of the first current operation: none of them is current, and the next
/// one, if any, is.
pub proof fn law_leading_others(ops: Seq<OperationSize>)
    ensures
        leading_others(ops) <= ops.len(),
        forall|j: int| 0 <= j < leading_others(ops) ==> !(#[trigger] ops[j]).is_current,
        leading_others(ops) < ops.len() ==> ops[leading_others(ops) as int].is_current,
        size_before_current(ops) == total_size(ops.take(leading_others(ops) as int)),
    decreases ops.len(),
{
    if ops.len() > 0 && !ops[0].is_current {
        law_leading_others(ops.skip(1));
        assert forall|j: int| 0 <= j < leading_others(ops) implies !(#[trigger] ops[j]).is_current by {
            if j > 0 {
                assert(ops[j] == ops.skip(1)[j - 1]);
            }
        }
        if leading_others(ops) < ops.len() {
            assert(ops[leading_others(ops) as int] == ops.skip(1)[leading_others(ops.skip(1)) as int]);
        }
    }
}

} // verus!
