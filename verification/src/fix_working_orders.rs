//! Working-order bookkeeping of a live FIX adapter: the original-order
//! context each live order needs for cancel and cancel/replace messages,
//! tracked by current and pending-replacement client order id within a
//! configured bound.

use vstd::prelude::*;
use crate::fix_live::FixWorkingOrderContext;
use crate::ids::ClientOrderId;
use crate::orders::{ExecutionEvent, ExecutionType, OrderStatus};

verus! {

/// One locally tracked working order.
#[derive(Debug, Clone, Copy, PartialEq, Eq)]
pub struct FixWorkingOrder {
    /// Client order id of the live order.
    pub current_id: ClientOrderId,
    /// Client order id of a cancel/replace awaiting its answer.
    pub pending_replace_id: Option<ClientOrderId>,
    /// Context of the original order.
    pub context: FixWorkingOrderContext,
}

/// Working-order bookkeeping error.
#[derive(Debug, Clone, Copy, PartialEq, Eq, Structural)]
pub enum FixWorkingOrderError {
    /// The configured working-order bound is reached.
    BufferFull,
    /// The client order id is already tracked.
    DuplicateClientOrderId,
    /// No tracked order has the original client order id.
    UnknownOrder,
    /// A cancel/replace is already pending for the order.
    AmendPending,
    /// A restored order conflicts with the tracked one.
    ConflictingRecoveryContext,
}

/// Whether `o` is tracked under `id`, as its current or its pending
/// replacement client order id.
pub open spec fn spec_order_matches(o: FixWorkingOrder, id: ClientOrderId) -> bool {
    o.current_id@ == id@ || (o.pending_replace_id matches Some(p) && p@ == id@)
}

/// The index of the first order tracked under `id`.
pub open spec fn spec_first_working(orders: Seq<FixWorkingOrder>, id: ClientOrderId) -> Option<
    int,
>
    decreases orders.len(),
{
    if orders.len() == 0 {
        None
    } else if spec_order_matches(orders[0], id) {
        Some(0)
    } else {
        match spec_first_working(orders.drop_first(), id) {
            Some(i) => Some(i + 1),
            None => None,
        }
    }
}

/// Removal of index `i` by moving the last order into its place.
pub open spec fn spec_swap_remove(orders: Seq<FixWorkingOrder>, i: int) -> Seq<FixWorkingOrder> {
    orders.update(i, orders.last()).drop_last()
}

/// Whether an order status ends the order's life.
pub open spec fn spec_status_final(status: OrderStatus) -> bool {
    status == OrderStatus::Filled || status == OrderStatus::Cancelled || status
        == OrderStatus::Rejected || status == OrderStatus::Expired
}

/// The orders after an execution event: the order it is about (by original
/// client order id when present, else by client order id) takes a
/// confirmed replacement id or drops a rejected one, and leaves the table
/// once its status is final; events about untracked orders change nothing.
pub open spec fn spec_after_event(orders: Seq<FixWorkingOrder>, e: ExecutionEvent) -> Seq<
    FixWorkingOrder,
> {
    let lookup = if e.orig_client_order_id@.len() != 0 {
        e.orig_client_order_id
    } else {
        e.client_order_id
    };
    match spec_first_working(orders, lookup) {
        None => orders,
        Some(i) => {
            let o = orders[i];
            let updated = if e.exec_type == ExecutionType::ReplaceAck {
                FixWorkingOrder { current_id: e.client_order_id, pending_replace_id: None, ..o }
            } else if e.exec_type == ExecutionType::ReplaceReject {
                FixWorkingOrder { pending_replace_id: None, ..o }
            } else {
                o
            };
            let next = orders.update(i, updated);
            if spec_status_final(e.order_status) {
                spec_swap_remove(next, i)
            } else {
                next
            }
        },
    }
}

/// Restoring `(id, context)` into `orders` bounded by `max`: the answer and
/// the orders after it. An exact duplicate is accepted unchanged, another
/// order under the id conflicts, a full table refuses, else the order is
/// appended.
pub open spec fn spec_restore(
    orders: Seq<FixWorkingOrder>,
    max: usize,
    id: ClientOrderId,
    context: FixWorkingOrderContext,
) -> (Result<(), FixWorkingOrderError>, Seq<FixWorkingOrder>) {
    match spec_first_working(orders, id) {
        Some(i) => {
            let o = orders[i];
            if o.current_id@ == id@ && o.pending_replace_id is None && o.context == context {
                (Ok(()), orders)
            } else {
                (Err(FixWorkingOrderError::ConflictingRecoveryContext), orders)
            }
        },
        None => if orders.len() >= max {
            (Err(FixWorkingOrderError::BufferFull), orders)
        } else {
            (
                Ok(()),
                orders.push(
                    FixWorkingOrder { current_id: id, pending_replace_id: None, context },
                ),
            )
        },
    }
}

/// No order matches when there is no first match.
proof fn lemma_first_working_none(orders: Seq<FixWorkingOrder>, id: ClientOrderId)
    requires
        spec_first_working(orders, id) is None,
    ensures
        forall|k: int| 0 <= k < orders.len() ==> !spec_order_matches(#[trigger] orders[k], id),
    decreases orders.len(),
{
    if orders.len() > 0 {
        let rest = orders.drop_first();
        lemma_first_working_none(rest, id);
        assert forall|k: int| 0 <= k < orders.len() implies !spec_order_matches(
            #[trigger] orders[k],
            id,
        ) by {
            if k > 0 {
                assert(orders[k] == rest[k - 1]);
            }
        }
    }
}

/// The first matching order is at `i` when none before it matches.
proof fn lemma_first_working(orders: Seq<FixWorkingOrder>, id: ClientOrderId, i: int)
    requires
        0 <= i <= orders.len(),
        forall|k: int| 0 <= k < i ==> !spec_order_matches(#[trigger] orders[k], id),
    ensures
        i < orders.len() && spec_order_matches(orders[i], id) ==> spec_first_working(orders, id)
            == Some(i),
        i == orders.len() ==> spec_first_working(orders, id) is None,
    decreases i,
{
    if i > 0 {
        let rest = orders.drop_first();
        assert forall|k: int| 0 <= k < i - 1 implies !spec_order_matches(#[trigger] rest[k], id) by {
            assert(rest[k] == orders[k + 1]);
        }
        lemma_first_working(rest, id, i - 1);
        assert(!spec_order_matches(orders[0], id));
        if i < orders.len() {
            assert(rest[i - 1] == orders[i]);
        }
    } else if orders.len() > 0 {
    }
}

/// A first match is a match, within bounds.
proof fn lemma_first_working_bounds(orders: Seq<FixWorkingOrder>, id: ClientOrderId)
    ensures
        spec_first_working(orders, id) matches Some(i) ==> 0 <= i < orders.len()
            && spec_order_matches(orders[i], id),
    decreases orders.len(),
{
    if orders.len() > 0 && !spec_order_matches(orders[0], id) {
        lemma_first_working_bounds(orders.drop_first(), id);
    }
}

/// Bounded working-order table of a live FIX adapter.
#[derive(Debug, Clone)]
pub struct FixWorkingOrders {
    orders: Vec<FixWorkingOrder>,
    max_working_orders: usize,
}

impl FixWorkingOrders {
    /// The tracked orders, oldest first (removal moves the last order into
    /// the freed place).
    pub closed spec fn spec_orders(&self) -> Seq<FixWorkingOrder> {
        self.orders@
    }

    /// The configured bound.
    pub closed spec fn spec_max(&self) -> usize {
        self.max_working_orders
    }

    /// The table holds no more orders than its bound.
    pub open spec fn wf(&self) -> bool {
        self.spec_orders().len() <= self.spec_max()
    }

    /// Creates an empty table holding at most `max_working_orders` orders.
    pub fn new(max_working_orders: usize) -> (r: Self)
        ensures
            r.spec_orders().len() == 0,
            r.spec_max() == max_working_orders,
            r.wf(),
    {
        Self { orders: Vec::new(), max_working_orders }
    }

    /// Returns the locally tracked working-order count.
    pub fn working_order_count(&self) -> (r: usize)
        ensures
            r == self.spec_orders().len(),
    {
        self.orders.len()
    }

    /// The index of the first order tracked under `id`, as its current or
    /// pending replacement client order id.
    pub fn find_working(&self, id: ClientOrderId) -> (r: Option<usize>)
        ensures
            r is None <==> spec_first_working(self.spec_orders(), id) is None,
            r matches Some(k) ==> spec_first_working(self.spec_orders(), id) == Some(k as int) && k
                < self.spec_orders().len(),
    {
        let mut i: usize = 0;
        while i < self.orders.len()
            invariant
                i <= self.orders@.len(),
                forall|k: int| 0 <= k < i ==> !spec_order_matches(#[trigger] self.orders@[k], id),
            decreases self.orders@.len() - i,
        {
            let o = self.orders[i];
            let pending_match = match o.pending_replace_id {
                Some(p) => p == id,
                None => false,
            };
            if o.current_id == id || pending_match {
                proof {
                    lemma_first_working(self.orders@, id, i as int);
                }
                return Some(i);
            }
            i = i + 1;
        }
        proof {
            lemma_first_working(self.orders@, id, i as int);
        }
        None
    }

    /// Returns the tracked order at `index`.
    pub fn order(&self, index: usize) -> (r: FixWorkingOrder)
        requires
            index < self.spec_orders().len(),
        ensures
            r == self.spec_orders()[index as int],
    {
        self.orders[index]
    }

    /// Starts tracking a newly submitted order; a client order id already
    /// tracked is `DuplicateClientOrderId`, and a full table is
    /// `BufferFull` (both without change).
    pub fn track_submitted(&mut self, client_order_id: ClientOrderId, context: FixWorkingOrderContext)
        -> (r: Result<(), FixWorkingOrderError>)
        ensures
            spec_first_working(old(self).spec_orders(), client_order_id) is Some ==> r == Err::<
                (),
                FixWorkingOrderError,
            >(FixWorkingOrderError::DuplicateClientOrderId) && *final(self) == *old(self),
            spec_first_working(old(self).spec_orders(), client_order_id) is None
                && old(self).spec_orders().len() >= old(self).spec_max() ==> r == Err::<
                (),
                FixWorkingOrderError,
            >(FixWorkingOrderError::BufferFull) && *final(self) == *old(self),
            spec_first_working(old(self).spec_orders(), client_order_id) is None
                && old(self).spec_orders().len() < old(self).spec_max() ==> r is Ok
                && final(self).spec_orders() == old(self).spec_orders().push(
                FixWorkingOrder { current_id: client_order_id, pending_replace_id: None, context },
            ) && final(self).spec_max() == old(self).spec_max(),
            old(self).wf() ==> final(self).wf(),
    {
        if self.find_working(client_order_id).is_some() {
            return Err(FixWorkingOrderError::DuplicateClientOrderId);
        }
        if self.orders.len() >= self.max_working_orders {
            return Err(FixWorkingOrderError::BufferFull);
        }
        self.orders.push(
            FixWorkingOrder { current_id: client_order_id, pending_replace_id: None, context },
        );
        Ok(())
    }

    /// The context of the order tracked under `orig_client_order_id`, for a
    /// cancel; `UnknownOrder` when none is.
    pub fn cancel_context(&self, orig_client_order_id: ClientOrderId) -> (r: Result<
        FixWorkingOrderContext,
        FixWorkingOrderError,
    >)
        ensures
            match spec_first_working(self.spec_orders(), orig_client_order_id) {
                Some(i) => r == Ok::<FixWorkingOrderContext, FixWorkingOrderError>(
                    self.spec_orders()[i].context,
                ),
                None => r == Err::<FixWorkingOrderContext, FixWorkingOrderError>(
                    FixWorkingOrderError::UnknownOrder,
                ),
            },
    {
        proof {
            lemma_first_working_bounds(self.orders@, orig_client_order_id);
        }
        match self.find_working(orig_client_order_id) {
            Some(index) => Ok(self.orders[index].context),
            None => Err(FixWorkingOrderError::UnknownOrder),
        }
    }

    /// The index and context of the order tracked under
    /// `orig_client_order_id`, for a cancel/replace: `UnknownOrder` when none
    /// is, `AmendPending` when it already awaits a replacement.
    pub fn replace_context(&self, orig_client_order_id: ClientOrderId) -> (r: Result<
        (usize, FixWorkingOrderContext),
        FixWorkingOrderError,
    >)
        ensures
            match spec_first_working(self.spec_orders(), orig_client_order_id) {
                Some(i) => if self.spec_orders()[i].pending_replace_id is Some {
                    r == Err::<(usize, FixWorkingOrderContext), FixWorkingOrderError>(
                        FixWorkingOrderError::AmendPending,
                    )
                } else {
                    r == Ok::<(usize, FixWorkingOrderContext), FixWorkingOrderError>(
                        (i as usize, self.spec_orders()[i].context),
                    )
                },
                None => r == Err::<(usize, FixWorkingOrderContext), FixWorkingOrderError>(
                    FixWorkingOrderError::UnknownOrder,
                ),
            },
    {
        proof {
            lemma_first_working_bounds(self.orders@, orig_client_order_id);
        }
        match self.find_working(orig_client_order_id) {
            Some(index) => {
                if self.orders[index].pending_replace_id.is_some() {
                    return Err(FixWorkingOrderError::AmendPending);
                }
                Ok((index, self.orders[index].context))
            },
            None => Err(FixWorkingOrderError::UnknownOrder),
        }
    }

    /// Records that the order at `index` awaits the replacement
    /// `client_order_id`.
    pub fn mark_replace_pending(&mut self, index: usize, client_order_id: ClientOrderId)
        requires
            index < old(self).spec_orders().len(),
        ensures
            final(self).spec_orders() == old(self).spec_orders().update(
                index as int,
                FixWorkingOrder {
                    pending_replace_id: Some(client_order_id),
                    ..old(self).spec_orders()[index as int]
                },
            ),
            final(self).spec_max() == old(self).spec_max(),
            old(self).wf() ==> final(self).wf(),
    {
        let mut o = self.orders[index];
        o.pending_replace_id = Some(client_order_id);
        self.orders.set(index, o);
    }

    /// Restores original-order context from a checkpoint: an exact
    /// duplicate (same current id, no pending replacement, same context) is
    /// accepted without change, any other order tracked under the id is
    /// `ConflictingRecoveryContext`, and a full table is `BufferFull`.
    pub fn restore_working_order(
        &mut self,
        client_order_id: ClientOrderId,
        context: FixWorkingOrderContext,
    ) -> (r: Result<(), FixWorkingOrderError>)
        ensures
            (r, final(self).spec_orders()) == spec_restore(
                old(self).spec_orders(),
                old(self).spec_max(),
                client_order_id,
                context,
            ),
            final(self).spec_max() == old(self).spec_max(),
            old(self).wf() ==> final(self).wf(),
    {
        proof {
            lemma_first_working_bounds(self.orders@, client_order_id);
        }
        match self.find_working(client_order_id) {
            Some(index) => {
                let o = self.orders[index];
                if o.current_id == client_order_id && o.pending_replace_id.is_none() && o.context
                    == context {
                    return Ok(());
                }
                Err(FixWorkingOrderError::ConflictingRecoveryContext)
            },
            None => {
                if self.orders.len() >= self.max_working_orders {
                    return Err(FixWorkingOrderError::BufferFull);
                }
                self.orders.push(
                    FixWorkingOrder { current_id: client_order_id, pending_replace_id: None, context },
                );
                Ok(())
            },
        }
    }

    /// Applies an execution event to the tracked orders.
    pub fn update_working_order(&mut self, event: &ExecutionEvent)
        ensures
            final(self).spec_orders() == spec_after_event(old(self).spec_orders(), *event),
            final(self).spec_max() == old(self).spec_max(),
            old(self).wf() ==> final(self).wf(),
    {
        let lookup = if !event.orig_client_order_id.is_empty() {
            event.orig_client_order_id
        } else {
            event.client_order_id
        };
        proof {
            lemma_first_working_bounds(self.orders@, lookup);
        }
        let index = match self.find_working(lookup) {
            Some(index) => index,
            None => {
                return;
            },
        };
        let mut o = self.orders[index];
        match event.exec_type {
            ExecutionType::ReplaceAck => {
                o.current_id = event.client_order_id;
                o.pending_replace_id = None;
            },
            ExecutionType::ReplaceReject => {
                o.pending_replace_id = None;
            },
            _ => {},
        }
        self.orders.set(index, o);
        match event.order_status {
            OrderStatus::Filled | OrderStatus::Cancelled | OrderStatus::Rejected
            | OrderStatus::Expired => {
                self.orders.swap_remove(index);
            },
            _ => {},
        }
    }
}

/// Restoring a working order is idempotent: once a restore of an order and
/// its context is accepted, restoring the same pair again is accepted and
/// changes nothing.
pub proof fn law_restore_is_idempotent(
    orders: Seq<FixWorkingOrder>,
    max: usize,
    id: ClientOrderId,
    context: FixWorkingOrderContext,
)
    requires
        spec_restore(orders, max, id, context).0 is Ok,
    ensures
        spec_restore(spec_restore(orders, max, id, context).1, max, id, context) == (
            Ok::<(), FixWorkingOrderError>(()),
            spec_restore(orders, max, id, context).1,
        ),
{
    lemma_first_working_bounds(orders, id);
    if spec_first_working(orders, id) is None {
        lemma_first_working_none(orders, id);
        let next = spec_restore(orders, max, id, context).1;
        assert forall|k: int| 0 <= k < orders.len() implies !spec_order_matches(
            #[trigger] next[k],
            id,
        ) by {
            assert(next[k] == orders[k]);
        }
        lemma_first_working(next, id, orders.len() as int);
    }
}

/// An order whose status becomes final leaves the table: an event about a
/// tracked order with a filled, cancelled, rejected or expired status
/// removes exactly one order.
pub proof fn law_final_event_untracks(orders: Seq<FixWorkingOrder>, e: ExecutionEvent)
    requires
        spec_status_final(e.order_status),
        spec_first_working(
            orders,
            if e.orig_client_order_id@.len() != 0 {
                e.orig_client_order_id
            } else {
                e.client_order_id
            },
        ) is Some,
    ensures
        spec_after_event(orders, e).len() == orders.len() - 1,
{
    lemma_first_working_bounds(
        orders,
        if e.orig_client_order_id@.len() != 0 {
            e.orig_client_order_id
        } else {
            e.client_order_id
        },
    );
}

} // verus!
