//! Telling new messages from old ones by a watermark: the highest UID that
//! the user has been told about.

use vstd::prelude::*;
use vstd::string::StringExecFns;
use crate::account::Account;
use crate::account::AccountView;
use crate::decimal::append_decimal;
use crate::decimal::decimal;
use crate::headers::subject;
use crate::headers::subject_of;
use crate::notification::new_mail;
use crate::notification::views;
use crate::notification::Notification;
use crate::notification::NotificationView;

verus! {

/// The highest of `uids`, or 0 where there is none.
pub open spec fn max_uid(uids: Seq<u32>) -> u32
    decreases uids.len(),
{
    if uids.len() == 0 {
        0
    } else {
        let before = max_uid(uids.drop_last());
        if uids.last() > before {
            uids.last()
        } else {
            before
        }
    }
}

/// The watermark after a pass that saw `uids`: the old one, or the highest
/// UID seen where that is higher.
pub open spec fn raised(watermark: u32, uids: Seq<u32>) -> u32 {
    if max_uid(uids) > watermark {
        max_uid(uids)
    } else {
        watermark
    }
}

/// Those of `uids` that lie above the watermark, in the order given.
pub open spec fn unseen(watermark: u32, uids: Seq<u32>) -> Seq<u32> {
    uids.filter(|uid: u32| uid > watermark)
}

/// The UIDs in decimal, separated by commas.
pub open spec fn uid_set(uids: Seq<u32>) -> Seq<char>
    decreases uids.len(),
{
    if uids.len() == 0 {
        Seq::empty()
    } else if uids.len() == 1 {
        decimal(uids[0] as nat)
    } else {
        uid_set(uids.drop_last()) + seq![','] + decimal(uids.last() as nat)
    }
}

/// A fetched header block as plain values: `None` for a message that came
/// back without one.
pub open spec fn block_view(block: Option<Vec<u8>>) -> Option<Seq<u8>> {
    match block {
        Some(raw) => Some(raw@),
        None => None,
    }
}

/// Fetched header blocks as plain values.
pub open spec fn blocks_view(blocks: Seq<Option<Vec<u8>>>) -> Seq<Option<Seq<u8>>> {
    blocks.map_values(|b: Option<Vec<u8>>| block_view(b))
}

/// The notifications raised for a batch of fetched header blocks: one for
/// each block that is there and can be parsed, in the order of the blocks.
pub open spec fn announcements(account: AccountView, blocks: Seq<Option<Seq<u8>>>) -> Seq<
    NotificationView,
>
    decreases blocks.len(),
{
    if blocks.len() == 0 {
        Seq::empty()
    } else {
        let before = announcements(account, blocks.drop_last());
        match blocks.last() {
            Some(raw) => match subject(raw) {
                Some(s) => before.push(new_mail(account, s)),
                None => before,
            },
            None => before,
        }
    }
}

/// The watermark after the passes `passes`, each given by the UIDs it saw.
pub open spec fn watermark_after(watermark: u32, passes: Seq<Seq<u32>>) -> u32
    decreases passes.len(),
{
    if passes.len() == 0 {
        watermark
    } else {
        raised(watermark_after(watermark, passes.drop_last()), passes.last())
    }
}

/// What one look at the mailbox comes to.
#[derive(Debug)]
pub struct Survey {
    /// The watermark from now on.
    pub watermark: u32,
    /// The UIDs whose headers are to be fetched.
    pub fetch: Vec<u32>,
}

/// Looks at the UIDs that a search returned: raises the watermark to the
/// highest of them and picks out those above the old watermark. The UIDs may
/// come in any order.
pub fn survey(watermark: u32, uids: &Vec<u32>) -> (s: Survey)
    ensures
        s.watermark == raised(watermark, uids@),
        s.fetch@ == unseen(watermark, uids@),
{
    let mut top: u32 = 0;
    let mut fetch: Vec<u32> = Vec::new();
    let mut i: usize = 0;
    proof {
        reveal(Seq::filter);
        assert(uids@.take(0) =~= Seq::<u32>::empty());
    }
    while i < uids.len()
        invariant
            i <= uids.len(),
            top == max_uid(uids@.take(i as int)),
            fetch@ == unseen(watermark, uids@.take(i as int)),
        decreases uids.len() - i,
    {
        let uid: u32 = uids[i];
        proof {
            reveal(Seq::filter);
            let next = uids@.take(i + 1);
            assert(next.drop_last() =~= uids@.take(i as int));
            assert(next.last() == uid);
        }
        if uid > top {
            top = uid;
        }
        if uid > watermark {
            fetch.push(uid);
        }
        i = i + 1;
    }
    assert(uids@.take(i as int) =~= uids@);
    Survey { watermark: if top > watermark { top } else { watermark }, fetch }
}

/// Writes UIDs as the set that a fetch command takes.
pub fn uid_set_text(uids: &Vec<u32>) -> (s: String)
    ensures
        s@ == uid_set(uids@),
{
    let mut s = String::new();
    let mut i: usize = 0;
    assert(uids@.take(0) =~= Seq::<u32>::empty());
    while i < uids.len()
        invariant
            i <= uids.len(),
            s@ == uid_set(uids@.take(i as int)),
        decreases uids.len() - i,
    {
        proof {
            let next = uids@.take(i + 1);
            assert(next.drop_last() =~= uids@.take(i as int));
            assert(next.last() == uids@[i as int]);
            assert(next[0] == uids@[0]);
        }
        if i > 0 {
            s.append(",");
            proof {
                reveal_strlit(",");
                assert(","@ =~= seq![',']);
            }
        }
        append_decimal(&mut s, uids[i] as u64);
        assert(s@ =~= uid_set(uids@.take(i + 1)));
        i = i + 1;
    }
    assert(uids@.take(i as int) =~= uids@);
    s
}

/// Turns fetched header blocks into notifications. A message that came back
/// without a header block, or with one that cannot be parsed, is passed over
/// and does not hold up the others.
pub fn announce(account: &Account, blocks: &Vec<Option<Vec<u8>>>) -> (out: Vec<Notification>)
    ensures
        views(out@) == announcements(account@, blocks_view(blocks@)),
{
    let mut out: Vec<Notification> = Vec::new();
    let mut i: usize = 0;
    assert(blocks_view(blocks@).take(0) =~= Seq::<Option<Seq<u8>>>::empty());
    assert(views(out@) =~= Seq::<NotificationView>::empty());
    while i < blocks.len()
        invariant
            i <= blocks.len(),
            views(out@) == announcements(account@, blocks_view(blocks@).take(i as int)),
        decreases blocks.len() - i,
    {
        proof {
            let next = blocks_view(blocks@).take(i + 1);
            assert(next.drop_last() =~= blocks_view(blocks@).take(i as int));
            assert(next.last() == block_view(blocks@[i as int]));
        }
        let ghost before = out@;
        match &blocks[i] {
            Some(raw) => match subject_of(raw.as_slice()) {
                Ok(s) => {
                    let n = Notification::new_mail(account, s.as_str());
                    out.push(n);
                    assert(views(out@) =~= views(before).push(n@));
                },
                Err(_) => {},
            },
            None => {},
        }
        i = i + 1;
    }
    assert(blocks_view(blocks@).take(i as int) =~= blocks_view(blocks@));
    out
}

/// The highest UID is at least each of the UIDs, and is one of them unless
/// there is none.
pub proof fn lemma_max_uid(uids: Seq<u32>)
    ensures
        forall|i: int| 0 <= i < uids.len() ==> #[trigger] uids[i] <= max_uid(uids),
        uids.len() > 0 ==> uids.contains(max_uid(uids)),
        uids.len() == 0 ==> max_uid(uids) == 0,
    decreases uids.len(),
{
    if uids.len() > 0 {
        let front = uids.drop_last();
        lemma_max_uid(front);
        assert forall|i: int| 0 <= i < uids.len() implies #[trigger] uids[i] <= max_uid(uids) by {
            if i < front.len() {
                assert(front[i] == uids[i]);
            }
        }
        if uids.last() > max_uid(front) {
            assert(uids[uids.len() - 1] == max_uid(uids));
        } else if front.len() > 0 {
            let j = choose|j: int| 0 <= j < front.len() && front[j] == max_uid(front);
            assert(uids[j] == max_uid(uids));
        }
    }
}

/// What is fetched is exactly what lies above the watermark: every UID
/// picked was seen and is above it, and every UID seen above it is picked.
pub proof fn lemma_unseen(watermark: u32, uids: Seq<u32>)
    ensures
        forall|i: int|
            0 <= i < unseen(watermark, uids).len() ==> #[trigger] unseen(watermark, uids)[i]
                > watermark,
        forall|uid: u32| #[trigger]
            unseen(watermark, uids).contains(uid) <==> uids.contains(uid) && uid > watermark,
        unseen(watermark, uids).len() <= uids.len(),
{
    let pred = |uid: u32| uid > watermark;
    let picked = unseen(watermark, uids);
    uids.lemma_filter_len(pred);
    assert forall|i: int| 0 <= i < picked.len() implies #[trigger] picked[i] > watermark by {
        uids.lemma_filter_pred(pred, i);
    }
    assert forall|uid: u32| #[trigger]
        picked.contains(uid) <==> uids.contains(uid) && uid > watermark by {
        if picked.contains(uid) {
            let i = choose|i: int| 0 <= i < picked.len() && picked[i] == uid;
            uids.lemma_filter_pred(pred, i);
            uids.lemma_filter_contains_rev(pred, uid);
        }
        if uids.contains(uid) && uid > watermark {
            let i = choose|i: int| 0 <= i < uids.len() && uids[i] == uid;
            uids.lemma_filter_contains(pred, i);
        }
    }
}

/// The watermark never goes down: after each pass it is the higher of what
/// it was and the highest UID that the pass saw, and a pass that saw nothing
/// leaves it as it was.
pub proof fn lemma_watermark_monotonic(watermark: u32, passes: Seq<Seq<u32>>, k: int)
    requires
        0 <= k < passes.len(),
    ensures
        watermark_after(watermark, passes.take(k + 1)) == raised(
            watermark_after(watermark, passes.take(k)),
            passes[k],
        ),
        watermark_after(watermark, passes.take(k + 1)) >= watermark_after(
            watermark,
            passes.take(k),
        ),
        watermark_after(watermark, passes.take(k)) >= watermark,
        passes[k].len() == 0 ==> watermark_after(watermark, passes.take(k + 1))
            == watermark_after(watermark, passes.take(k)),
    decreases k,
{
    assert(passes.take(k + 1).drop_last() =~= passes.take(k));
    assert(passes.take(k + 1).last() == passes[k]);
    if k > 0 {
        lemma_watermark_monotonic(watermark, passes, k - 1);
    } else {
        assert(passes.take(0).len() == 0);
    }
}

/// No message is announced twice: a UID at or below the watermark at the
/// start of a pass is not fetched in it, and a UID seen in one pass is not
/// fetched in any later one.
pub proof fn lemma_no_double_notification(
    watermark: u32,
    passes: Seq<Seq<u32>>,
    earlier: int,
    later: int,
    uid: u32,
)
    requires
        0 <= earlier < later < passes.len(),
    ensures
        uid <= watermark_after(watermark, passes.take(later)) ==> !unseen(
            watermark_after(watermark, passes.take(later)),
            passes[later],
        ).contains(uid),
        passes[earlier].contains(uid) ==> !unseen(
            watermark_after(watermark, passes.take(later)),
            passes[later],
        ).contains(uid),
{
    let at_later = watermark_after(watermark, passes.take(later));
    lemma_unseen(at_later, passes[later]);
    if passes[earlier].contains(uid) {
        lemma_max_uid(passes[earlier]);
        lemma_watermark_monotonic(watermark, passes, earlier);
        lemma_watermark_grows(watermark, passes, earlier + 1, later);
    }
}

/// The watermark after more passes is at least the watermark after fewer.
pub proof fn lemma_watermark_grows(watermark: u32, passes: Seq<Seq<u32>>, fewer: int, more: int)
    requires
        0 <= fewer <= more <= passes.len(),
    ensures
        watermark_after(watermark, passes.take(fewer)) <= watermark_after(
            watermark,
            passes.take(more),
        ),
    decreases more - fewer,
{
    if fewer < more {
        lemma_watermark_grows(watermark, passes, fewer, more - 1);
        lemma_watermark_monotonic(watermark, passes, more - 1);
    }
}

/// A pass that sees nothing above the watermark fetches nothing, announces
/// nothing and leaves the watermark as it was; and a pass repeated at once
/// on the same UIDs is such a pass.
pub proof fn lemma_empty_pass(account: AccountView, watermark: u32, uids: Seq<u32>)
    ensures
        (forall|i: int| 0 <= i < uids.len() ==> uids[i] <= watermark) ==> {
            &&& unseen(watermark, uids).len() == 0
            &&& raised(watermark, uids) == watermark
            &&& uid_set(unseen(watermark, uids)).len() == 0
        },
        unseen(raised(watermark, uids), uids).len() == 0,
        raised(raised(watermark, uids), uids) == raised(watermark, uids),
        announcements(account, Seq::empty()).len() == 0,
{
    lemma_max_uid(uids);
    lemma_unseen(watermark, uids);
    lemma_unseen(raised(watermark, uids), uids);
    if forall|i: int| 0 <= i < uids.len() ==> uids[i] <= watermark {
        if unseen(watermark, uids).len() > 0 {
            let uid = unseen(watermark, uids)[0];
            assert(unseen(watermark, uids).contains(uid));
            let i = choose|i: int| 0 <= i < uids.len() && uids[i] == uid;
            assert(uids[i] <= watermark);
        }
        if uids.len() > 0 {
            let j = choose|j: int| 0 <= j < uids.len() && uids[j] == max_uid(uids);
            assert(uids[j] <= watermark);
        }
    }
    let again = unseen(raised(watermark, uids), uids);
    if again.len() > 0 {
        let uid = again[0];
        assert(again.contains(uid));
        let i = choose|i: int| 0 <= i < uids.len() && uids[i] == uid;
        assert(uids[i] <= max_uid(uids));
    }
}

} // verus!
