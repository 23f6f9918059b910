//! The receipt journal of a store: the most recent purchases, oldest first,
//! in a window of bounded length.

use crate::identity::Identity;
use vstd::prelude::*;

verus! {

/// The record of one purchase. The name and the price are those of the
/// product at the time of the purchase; only `was_delivered` ever changes.
#[derive(Debug, PartialEq, Eq)]
pub struct Receipt {
    pub receipt_id: u64,
    pub buyer: Identity,
    pub was_delivered: bool,
    pub price: u64,
    pub timestamp: i64,
    pub table_number: u8,
    pub product_name: String,
}

/// What a receipt is, with the product's name as a sequence of characters.
pub struct ReceiptView {
    pub receipt_id: u64,
    pub buyer: Identity,
    pub was_delivered: bool,
    pub price: u64,
    pub timestamp: i64,
    pub table_number: u8,
    pub product_name: Seq<char>,
}

impl View for Receipt {
    type V = ReceiptView;

    open spec fn view(&self) -> ReceiptView {
        ReceiptView {
            receipt_id: self.receipt_id,
            buyer: self.buyer,
            was_delivered: self.was_delivered,
            price: self.price,
            timestamp: self.timestamp,
            table_number: self.table_number,
            product_name: self.product_name@,
        }
    }
}

impl DeepView for Receipt {
    type V = ReceiptView;

    open spec fn deep_view(&self) -> ReceiptView {
        self@
    }
}

impl Clone for Receipt {
    fn clone(&self) -> (copy: Receipt)
        ensures
            copy@ == self@,
    {
        Receipt {
            receipt_id: self.receipt_id,
            buyer: self.buyer,
            was_delivered: self.was_delivered,
            price: self.price,
            timestamp: self.timestamp,
            table_number: self.table_number,
            product_name: self.product_name.clone(),
        }
    }
}

/// The journal after `receipt` is appended: a journal that has reached
/// `capacity` first loses its oldest entry.
pub open spec fn appended(journal: Seq<ReceiptView>, receipt: ReceiptView, capacity: nat) -> Seq<
    ReceiptView,
> {
    if journal.len() >= capacity {
        journal.skip(1).push(receipt)
    } else {
        journal.push(receipt)
    }
}

/// The entry that leaves when one more receipt is appended.
pub open spec fn evicted(journal: Seq<ReceiptView>, capacity: nat) -> Option<ReceiptView> {
    if journal.len() >= capacity {
        Some(journal[0])
    } else {
        None
    }
}

/// `receipt` with its delivery flag set.
pub open spec fn delivered(receipt: ReceiptView) -> ReceiptView {
    ReceiptView { was_delivered: true, ..receipt }
}

/// A receipt numbered `receipt_id` is at index `i`, and none is before it.
pub open spec fn first_under(journal: Seq<ReceiptView>, receipt_id: u64, i: int) -> bool {
    &&& 0 <= i < journal.len()
    &&& journal[i].receipt_id == receipt_id
    &&& forall|j: int| 0 <= j < i ==> (#[trigger] journal[j]).receipt_id != receipt_id
}

/// Some receipt in the journal is numbered `receipt_id`.
pub open spec fn recorded(journal: Seq<ReceiptView>, receipt_id: u64) -> bool {
    exists|i: int| 0 <= i < journal.len() && (#[trigger] journal[i]).receipt_id == receipt_id
}

/// The index of the first receipt numbered `receipt_id`, if there is one.
pub open spec fn slot(journal: Seq<ReceiptView>, receipt_id: u64) -> Option<int> {
    if exists|i: int| first_under(journal, receipt_id, i) {
        Some(choose|i: int| first_under(journal, receipt_id, i))
    } else {
        None
    }
}

/// The journal after the first receipt numbered `receipt_id` is marked as
/// delivered. Nothing else changes, and where no receipt bears the number
/// nothing changes at all.
pub open spec fn marked(journal: Seq<ReceiptView>, receipt_id: u64) -> Seq<ReceiptView> {
    match slot(journal, receipt_id) {
        Some(i) => journal.update(i, delivered(journal[i])),
        None => journal,
    }
}

/// A journal in step with the count of purchases: it holds the latest
/// `capacity` receipts ever issued, or all of them where they are fewer,
/// oldest first and numbered consecutively up to `purchases - 1`.
pub open spec fn in_step(journal: Seq<ReceiptView>, purchases: nat, capacity: nat) -> bool {
    &&& journal.len() == if purchases < capacity {
        purchases
    } else {
        capacity
    }
    &&& forall|i: int|
        0 <= i < journal.len() ==> (#[trigger] journal[i]).receipt_id == purchases - journal.len()
            + i
}

/// Appends `receipt`, after evicting the oldest entry of a journal that has
/// reached `capacity`. Returns the evicted entry.
pub fn append(journal: &mut Vec<Receipt>, receipt: Receipt, capacity: usize) -> (out:
    Option<Receipt>)
    requires
        capacity > 0,
    ensures
        final(journal).deep_view() == appended(
            old(journal).deep_view(),
            receipt@,
            capacity as nat,
        ),
        match out {
            Some(gone) => evicted(old(journal).deep_view(), capacity as nat) == Some(gone@),
            None => evicted(old(journal).deep_view(), capacity as nat) is None,
        },
{
    let out = if journal.len() >= capacity {
        Some(journal.remove(0))
    } else {
        None
    };
    journal.push(receipt);
    assert(journal.deep_view() =~= appended(old(journal).deep_view(), receipt@, capacity as nat));
    out
}

/// The index of the first receipt numbered `receipt_id`.
pub fn locate(journal: &Vec<Receipt>, receipt_id: u64) -> (at: Option<usize>)
    ensures
        match at {
            Some(i) => slot(journal.deep_view(), receipt_id) == Some(i as int),
            None => slot(journal.deep_view(), receipt_id) is None,
        },
{
    let mut i: usize = 0;
    while i < journal.len()
        invariant
            i <= journal.len(),
            forall|j: int|
                0 <= j < i ==> (#[trigger] journal.deep_view()[j]).receipt_id != receipt_id,
        decreases journal.len() - i,
    {
        if journal[i].receipt_id == receipt_id {
            proof {
                assert(first_under(journal.deep_view(), receipt_id, i as int));
                slot_is_first(journal.deep_view(), receipt_id);
            }
            return Some(i);
        }
        i += 1;
    }
    proof {
        slot_is_first(journal.deep_view(), receipt_id);
    }
    None
}

/// Marks the first receipt numbered `receipt_id` as delivered. Where the
/// journal holds none, nothing changes.
pub fn mark_delivered(journal: &mut Vec<Receipt>, receipt_id: u64)
    ensures
        final(journal).deep_view() == marked(old(journal).deep_view(), receipt_id),
{
    match locate(journal, receipt_id) {
        Some(i) => {
            journal[i].was_delivered = true;
            assert(journal.deep_view() =~= marked(old(journal).deep_view(), receipt_id));
        },
        None => {},
    }
}

/// The journal after each of `receipts` was appended to it in turn.
pub open spec fn append_all(
    journal: Seq<ReceiptView>,
    receipts: Seq<ReceiptView>,
    capacity: nat,
) -> Seq<ReceiptView>
    decreases receipts.len(),
{
    if receipts.len() == 0 {
        journal
    } else {
        appended(append_all(journal, receipts.drop_last(), capacity), receipts.last(), capacity)
    }
}

/// The last `capacity` of `entries`, or all of them where they are fewer.
pub open spec fn latest(entries: Seq<ReceiptView>, capacity: nat) -> Seq<ReceiptView> {
    if entries.len() > capacity {
        entries.skip(entries.len() - capacity)
    } else {
        entries
    }
}

/// Appending to the latest of some entries gives the latest of the entries
/// with the new one at their end.
pub proof fn latest_moves_on(entries: Seq<ReceiptView>, receipt: ReceiptView, capacity: nat)
    requires
        capacity > 0,
    ensures
        appended(latest(entries, capacity), receipt, capacity) == latest(
            entries.push(receipt),
            capacity,
        ),
{
    assert(appended(latest(entries, capacity), receipt, capacity) =~= latest(
        entries.push(receipt),
        capacity,
    ));
}

/// However many receipts are appended, the journal holds exactly the
/// latest `capacity` of all that ever entered it, oldest first: each
/// append beyond the capacity evicts the oldest entry and no other.
pub proof fn journal_holds_latest(
    journal: Seq<ReceiptView>,
    receipts: Seq<ReceiptView>,
    capacity: nat,
)
    requires
        capacity > 0,
        journal.len() <= capacity,
    ensures
        append_all(journal, receipts, capacity) == latest(journal + receipts, capacity),
    decreases receipts.len(),
{
    if receipts.len() == 0 {
        assert(journal + receipts =~= journal);
    } else {
        let earlier = receipts.drop_last();
        journal_holds_latest(journal, earlier, capacity);
        latest_moves_on(journal + earlier, receipts.last(), capacity);
        assert((journal + earlier).push(receipts.last()) =~= journal + receipts);
    }
}

/// Appending the receipt numbered by the count of purchases, and counting
/// it, keeps the journal in step.
pub proof fn append_keeps_step(
    journal: Seq<ReceiptView>,
    receipt: ReceiptView,
    purchases: nat,
    capacity: nat,
)
    requires
        capacity > 0,
        in_step(journal, purchases, capacity),
        receipt.receipt_id == purchases,
    ensures
        in_step(appended(journal, receipt, capacity), purchases + 1, capacity),
{
    let next = appended(journal, receipt, capacity);
    assert forall|i: int| 0 <= i < next.len() implies (#[trigger] next[i]).receipt_id == purchases
        + 1 - next.len() + i by {
        if journal.len() >= capacity {
            if i < next.len() - 1 {
                assert(next[i] == journal[i + 1]);
            }
        } else {
            if i < next.len() - 1 {
                assert(next[i] == journal[i]);
            }
        }
    }
}

/// At most one index is the first under a number, and `slot` is that
/// index; a number is recorded exactly when it has a slot.
pub proof fn slot_is_first(journal: Seq<ReceiptView>, receipt_id: u64)
    ensures
        recorded(journal, receipt_id) <==> slot(journal, receipt_id) is Some,
        forall|i: int|
            first_under(journal, receipt_id, i) <==> slot(journal, receipt_id) == Some(i),
{
    if recorded(journal, receipt_id) {
        let k = choose|i: int|
            0 <= i < journal.len() && (#[trigger] journal[i]).receipt_id == receipt_id;
        first_slot_exists(journal, receipt_id, k);
    }
    if exists|i: int| first_under(journal, receipt_id, i) {
        let p = choose|i: int| first_under(journal, receipt_id, i);
        assert forall|i: int| first_under(journal, receipt_id, i) implies i == p by {
            if i < p {
                assert(journal[i].receipt_id != receipt_id);
            } else if p < i {
                assert(journal[p].receipt_id != receipt_id);
            }
        }
    }
}

/// Below any index under a number lies the first one.
proof fn first_slot_exists(journal: Seq<ReceiptView>, receipt_id: u64, k: int)
    requires
        0 <= k < journal.len(),
        journal[k].receipt_id == receipt_id,
    ensures
        exists|i: int| first_under(journal, receipt_id, i),
    decreases k,
{
    if forall|j: int| 0 <= j < k ==> (#[trigger] journal[j]).receipt_id != receipt_id {
        assert(first_under(journal, receipt_id, k));
    } else {
        let j = choose|j: int| 0 <= j < k && (#[trigger] journal[j]).receipt_id == receipt_id;
        first_slot_exists(journal, receipt_id, j);
    }
}

/// Marking a delivery keeps the journal in step: no receipt enters or
/// leaves, and none changes its number.
pub proof fn mark_keeps_step(
    journal: Seq<ReceiptView>,
    receipt_id: u64,
    purchases: nat,
    capacity: nat,
)
    requires
        in_step(journal, purchases, capacity),
    ensures
        in_step(marked(journal, receipt_id), purchases, capacity),
{
    let next = marked(journal, receipt_id);
    assert forall|i: int| 0 <= i < next.len() implies (#[trigger] next[i]).receipt_id
        == purchases - next.len() + i by {
        assert(next[i].receipt_id == journal[i].receipt_id);
    }
}

/// Marking a number that no receipt in the journal bears changes nothing.
pub proof fn unrecorded_mark_changes_nothing(journal: Seq<ReceiptView>, receipt_id: u64)
    requires
        !recorded(journal, receipt_id),
    ensures
        marked(journal, receipt_id) == journal,
{
    slot_is_first(journal, receipt_id);
}

/// Marking a delivery touches the delivery flag of the first receipt that
/// bears the number and nothing else.
pub proof fn mark_sets_the_flag_only(journal: Seq<ReceiptView>, receipt_id: u64, i: int)
    requires
        0 <= i < journal.len(),
    ensures
        marked(journal, receipt_id).len() == journal.len(),
        marked(journal, receipt_id)[i] == (ReceiptView {
            was_delivered: journal[i].was_delivered || first_under(journal, receipt_id, i),
            ..journal[i]
        }),
{
    slot_is_first(journal, receipt_id);
}

/// In a journal whose receipts all bear different numbers, marking a
/// delivery marks every receipt under the number: there is at most one.
pub proof fn mark_reaches_every_receipt(journal: Seq<ReceiptView>, receipt_id: u64, i: int)
    requires
        forall|a: int, b: int|
            0 <= a < b < journal.len() ==> (#[trigger] journal[a]).receipt_id != (
            #[trigger] journal[b]).receipt_id,
        0 <= i < journal.len(),
        journal[i].receipt_id == receipt_id,
    ensures
        marked(journal, receipt_id)[i].was_delivered,
{
    slot_is_first(journal, receipt_id);
    let at = slot(journal, receipt_id).unwrap();
    assert(first_under(journal, receipt_id, at));
    if at != i {
        assert(journal[at].receipt_id != journal[i].receipt_id);
    }
}

} // verus!
