//! The decisions of the order service: checking a request, locking the
//! ordered products one by one, pricing the order, writing orders on the
//! wire, and paging.
use crate::ids::{parse_uuid_text, parses_back_to, uuid_parse_str, uuid_text, uuid_to_text};
use crate::instant::{rfc3339_reads_back, four_digit_year, utc_rfc3339};
use crate::money::{money_text, reads_back_as, to_text, Money};
use crate::order_model::{
    CreateOrderRequest, LockedProductRow, Order, OrderItem, OrderItemInput, OrderItemRow, OrderRow,
};
use crate::rpc::{RpcCode, RpcStatus};
use crate::sort::{same_lines_per_product, sort_by_product, sorted_by_product};
use crate::text::{int_text, int_to_text};
use crate::totals::{lines_fit, lines_scale, lines_total, lines_wf, exact_lines_sum, sum_lines};
use vstd::prelude::*;

verus! {

broadcast use vstd::string::group_string_axioms;

/// A failed call seen as its code and the text of its message.
pub open spec fn status_view(s: RpcStatus) -> (RpcCode, Seq<char>) {
    (s.code, s.message@)
}

/// The message of a rejected identifier: `invalid <field>: <raw>`.
pub open spec fn invalid_field_message(field: Seq<char>, raw: Seq<char>) -> Seq<char> {
    "invalid "@ + field + ": "@ + raw
}

/// Reads an identifier from a request field; an unreadable one is an invalid
/// argument naming the field and the text.
pub fn parse_uuid(raw: &str, field: &str) -> (r: Result<u128, RpcStatus>)
    ensures
        match uuid_parse_str(raw@) {
            Ok(u) => r matches Ok(v) && v == u,
            Err(_) => r matches Err(s) && status_view(s) == (RpcCode::InvalidArgument, invalid_field_message(field@, raw@)),
        },
{
    match parse_uuid_text(raw) {
        Ok(u) => Ok(u),
        Err(_) => {
            let mut m = "invalid ".to_string();
            m.append(field);
            m.append(": ");
            m.append(raw);
            Err(RpcStatus::invalid_argument(m))
        },
    }
}

/// The outcome of checking one requested line: its quantity must be positive
/// and then its product id must be readable.
pub open spec fn line_check(item: OrderItemInput) -> Result<(u128, i32), (RpcCode, Seq<char>)> {
    if item.quantity <= 0 {
        Err((RpcCode::InvalidArgument, "item quantity must be greater than 0"@))
    } else {
        match uuid_parse_str(item.product_id@) {
            Ok(u) => Ok((u, item.quantity)),
            Err(_) => Err((RpcCode::InvalidArgument, invalid_field_message("product_id"@, item.product_id@))),
        }
    }
}

/// The outcome of checking the requested lines in order: the first failure,
/// or all lines read.
pub open spec fn lines_check(items: Seq<OrderItemInput>) -> Result<Seq<(u128, i32)>, (RpcCode, Seq<char>)>
    decreases items.len(),
{
    if items.len() == 0 {
        Ok(Seq::empty())
    } else {
        match lines_check(items.drop_last()) {
            Err(e) => Err(e),
            Ok(prefix) => match line_check(items.last()) {
                Err(e) => Err(e),
                Ok(x) => Ok(prefix.push(x)),
            },
        }
    }
}

/// The outcome of checking a request to place an order: the user id first,
/// then that there is at least one line, then the lines.
pub open spec fn order_request_check(req: CreateOrderRequest) -> Result<(u128, Seq<(u128, i32)>), (RpcCode, Seq<char>)> {
    match uuid_parse_str(req.user_id@) {
        Err(_) => Err((RpcCode::InvalidArgument, invalid_field_message("user_id"@, req.user_id@))),
        Ok(user) => if req.items@.len() == 0 {
            Err((RpcCode::InvalidArgument, "order must contain at least one item"@))
        } else {
            match lines_check(req.items@) {
                Err(e) => Err(e),
                Ok(lines) => Ok((user, lines)),
            }
        },
    }
}

proof fn lemma_lines_check_err_stays(items: Seq<OrderItemInput>, i: int)
    requires
        0 <= i <= items.len(),
        lines_check(items.take(i)) is Err,
    ensures
        lines_check(items) == lines_check(items.take(i)),
    decreases items.len() - i,
{
    if i < items.len() {
        assert(items.take(i + 1).drop_last() =~= items.take(i));
        lemma_lines_check_err_stays(items, i + 1);
    } else {
        assert(items.take(i) =~= items);
    }
}

/// A requested line whose quantity is positive and whose product id reads.
pub open spec fn line_accepted(item: OrderItemInput) -> bool {
    item.quantity > 0 && uuid_parse_str(item.product_id@) is Ok
}

proof fn lemma_lines_check_ok(items: Seq<OrderItemInput>)
    requires
        forall|j: int| 0 <= j < items.len() ==> line_accepted(#[trigger] items[j]),
    ensures
        lines_check(items) is Ok,
    decreases items.len(),
{
    if items.len() > 0 {
        assert forall|j: int| 0 <= j < items.drop_last().len() implies line_accepted(
            #[trigger] items.drop_last()[j],
        ) by {
            assert(items.drop_last()[j] == items[j]);
        }
        lemma_lines_check_ok(items.drop_last());
        assert(line_accepted(items[items.len() - 1]));
    }
}

proof fn lemma_lines_check_quantities(items: Seq<OrderItemInput>)
    ensures
        lines_check(items) matches Ok(ls) ==> ls.len() == items.len() && forall|i: int|
            0 <= i < items.len() ==> (#[trigger] items[i]).quantity > 0 && ls[i].1 == items[i].quantity,
        forall|i: int|
            0 <= i < items.len() && (#[trigger] items[i]).quantity <= 0 && (forall|j: int|
                0 <= j < i ==> line_accepted(#[trigger] items[j])) ==> lines_check(items) == Err::<
                Seq<(u128, i32)>,
                (RpcCode, Seq<char>),
            >((RpcCode::InvalidArgument, "item quantity must be greater than 0"@)),
    decreases items.len(),
{
    if items.len() > 0 {
        let p = items.drop_last();
        let n = p.len() as int;
        lemma_lines_check_quantities(p);
        assert(forall|j: int| 0 <= j < n ==> #[trigger] p[j] == items[j]);
        assert(items.last() == items[n]);
        if let Ok(ls) = lines_check(items) {
            let pl = lines_check(p)->Ok_0;
            let x = line_check(items[n])->Ok_0;
            assert(ls == pl.push(x));
            assert(items[n].quantity > 0 && x.1 == items[n].quantity);
            assert forall|i: int| 0 <= i < items.len() implies (#[trigger] items[i]).quantity > 0 && ls[i].1
                == items[i].quantity by {
                if i < n {
                    assert(p[i] == items[i]);
                    assert(ls[i] == pl[i]);
                }
            }
        }
        assert forall|i: int|
            0 <= i < items.len() && (#[trigger] items[i]).quantity <= 0 && (forall|j: int|
                0 <= j < i ==> line_accepted(#[trigger] items[j])) implies lines_check(items) == Err::<
            Seq<(u128, i32)>,
            (RpcCode, Seq<char>),
        >((RpcCode::InvalidArgument, "item quantity must be greater than 0"@)) by {
            if i < n {
                assert(p[i] == items[i]);
                assert(forall|j: int| 0 <= j < i ==> line_accepted(#[trigger] p[j]));
            } else {
                assert forall|j: int| 0 <= j < p.len() implies line_accepted(#[trigger] p[j]) by {
                    assert(line_accepted(items[j]));
                }
                lemma_lines_check_ok(p);
            }
        }
    }
}

/// An order request with a line whose quantity is not positive is refused
/// for that quantity, whatever the line's product id, unless an earlier check
/// (the user id, or an earlier line) failed first; every line of an accepted
/// request has a positive quantity, kept as requested.
pub proof fn lemma_order_request_quantities(req: CreateOrderRequest)
    ensures
        order_request_check(req) matches Ok((u, lines)) ==> lines.len() == req.items@.len() && forall|i: int|
            0 <= i < req.items@.len() ==> (#[trigger] req.items@[i]).quantity > 0 && lines[i].1
                == req.items@[i].quantity,
        forall|i: int|
            0 <= i < req.items@.len() && (#[trigger] req.items@[i]).quantity <= 0 && uuid_parse_str(req.user_id@) is Ok
                && (forall|j: int| 0 <= j < i ==> line_accepted(#[trigger] req.items@[j])) ==> order_request_check(req)
                == Err::<(u128, Seq<(u128, i32)>), (RpcCode, Seq<char>)>(
                (RpcCode::InvalidArgument, "item quantity must be greater than 0"@),
            ),
{
    lemma_lines_check_quantities(req.items@);
}

/// Checks a request to place an order and puts its lines in the order in
/// which their products are locked: ascending product id, lines of one
/// product in request order.
pub fn check_order_request(req: &CreateOrderRequest) -> (r: Result<(u128, Vec<(u128, i32)>), RpcStatus>)
    ensures
        match order_request_check(*req) {
            Err(e) => r matches Err(s) && status_view(s) == e,
            Ok((user, lines)) => r matches Ok((u, sorted)) && u == user && sorted_by_product(sorted@)
                && sorted@.to_multiset() == lines.to_multiset() && same_lines_per_product(sorted@, lines),
        },
        r is Ok ==> forall|i: int| 0 <= i < req.items@.len() ==> (#[trigger] req.items@[i]).quantity > 0,
        r matches Ok((u, sorted)) ==> forall|j: int| 0 <= j < sorted@.len() ==> (#[trigger] sorted@[j]).1 > 0,
        forall|i: int|
            0 <= i < req.items@.len() && (#[trigger] req.items@[i]).quantity <= 0 && uuid_parse_str(req.user_id@) is Ok
                && (forall|j: int| 0 <= j < i ==> line_accepted(#[trigger] req.items@[j])) ==> (r matches Err(s)
                && status_view(s) == (RpcCode::InvalidArgument, "item quantity must be greater than 0"@)),
{
    proof {
        lemma_order_request_quantities(*req);
    }
    let user = match parse_uuid(req.user_id.as_str(), "user_id") {
        Ok(u) => u,
        Err(e) => {
            proof {
                reveal_strlit("user_id");
            }
            return Err(e);
        },
    };
    if req.items.len() == 0 {
        return Err(RpcStatus::invalid_argument("order must contain at least one item".to_string()));
    }
    let mut requested: Vec<(u128, i32)> = Vec::new();
    let mut i: usize = 0;
    assert(req.items@.take(0) =~= Seq::<OrderItemInput>::empty());
    while i < req.items.len()
        invariant
            0 <= i <= req.items@.len(),
            req.items@.len() > 0,
            uuid_parse_str(req.user_id@) == Ok::<u128, Seq<char>>(user),
            lines_check(req.items@.take(i as int)) == Ok::<Seq<(u128, i32)>, (RpcCode, Seq<char>)>(
                requested@,
            ),
        decreases req.items.len() - i,
    {
        let item = &req.items[i];
        proof {
            assert(req.items@.take(i + 1).drop_last() =~= req.items@.take(i as int));
            assert(req.items@.take(i + 1).last() == *item);
        }
        if item.quantity <= 0 {
            let e = RpcStatus::invalid_argument("item quantity must be greater than 0".to_string());
            proof {
                reveal_strlit("item quantity must be greater than 0");
                assert(line_check(*item) == Err::<(u128, i32), (RpcCode, Seq<char>)>(status_view(e)));
                assert(lines_check(req.items@.take(i + 1)) == Err::<Seq<(u128, i32)>, (RpcCode, Seq<char>)>(status_view(e)));
                lemma_lines_check_err_stays(req.items@, i + 1);
                lemma_order_request_quantities(*req);
            }
            return Err(e);
        }
        let product = match parse_uuid(item.product_id.as_str(), "product_id") {
            Ok(u) => u,
            Err(e) => {
                proof {
                    reveal_strlit("product_id");
                    lemma_lines_check_err_stays(req.items@, i + 1);
                    lemma_order_request_quantities(*req);
                }
                return Err(e);
            },
        };
        requested.push((product, item.quantity));
        i = i + 1;
    }
    assert(req.items@.take(req.items@.len() as int) =~= req.items@);
    let sorted = sort_by_product(&requested);
    proof {
        broadcast use vstd::seq_lib::group_to_multiset_ensures;
        assert forall|j: int| 0 <= j < sorted@.len() implies (#[trigger] sorted@[j]).1 > 0 by {
            assert(sorted@.contains(sorted@[j]));
            assert(requested@.to_multiset().count(sorted@[j]) > 0);
            assert(requested@.contains(sorted@[j]));
            let k = choose|k: int| 0 <= k < requested@.len() && requested@[k] == sorted@[j];
            assert(requested@[k].1 == req.items@[k].quantity);
        }
    }
    Ok((user, sorted))
}

/// `product <id> not found`
pub open spec fn product_missing_message(id: u128) -> Seq<char> {
    "product "@ + uuid_text(id) + " not found"@
}

/// `insufficient stock for product '<name>': requested <q>, available <s>`
pub open spec fn short_stock_message(name: Seq<char>, requested: i32, available: i32) -> Seq<char> {
    "insufficient stock for product '"@ + name + "': requested "@ + int_text(requested as int)
        + ", available "@ + int_text(available as int)
}

/// The line an order records for a locked product: the product's id, name
/// and current price, and the requested quantity.
pub open spec fn locked_line(p: LockedProductRow, quantity: i32) -> OrderItemRow {
    OrderItemRow { product_id: p.id, product_name: p.name, unit_price: p.price, quantity }
}

/// Placing an order, product by product.  The requested lines are locked in
/// turn; each lookup either fails the order (missing product, short stock)
/// or adds a line priced at the product's current price.
pub struct OrderLocking {
    requested: Vec<(u128, i32)>,
    locked: Vec<OrderItemRow>,
    stocks: Ghost<Seq<i32>>,
}

impl OrderLocking {
    /// The requested lines, in locking order.
    pub closed spec fn requested(&self) -> Seq<(u128, i32)> {
        self.requested@
    }

    /// The lines locked so far.
    pub closed spec fn locked(&self) -> Seq<OrderItemRow> {
        self.locked@
    }

    /// The stock of each locked product when it was locked.
    pub closed spec fn stocks_seen(&self) -> Seq<i32> {
        self.stocks@
    }

    /// Every line is locked.
    pub open spec fn is_done(&self) -> bool {
        self.locked().len() == self.requested().len()
    }

    /// The locked lines are the first requested lines, with their
    /// quantities, and no line takes more than the stock its product had
    /// when that line was locked (a product listed twice is checked line by
    /// line).
    pub open spec fn wf(&self) -> bool {
        &&& self.locked().len() <= self.requested().len()
        &&& self.stocks_seen().len() == self.locked().len()
        &&& forall|i: int|
            0 <= i < self.locked().len() ==> (#[trigger] self.locked()[i]).quantity
                == self.requested()[i].1 && self.locked()[i].quantity <= self.stocks_seen()[i]
    }

    /// Starts placing an order for the given lines.
    pub fn new(requested: Vec<(u128, i32)>) -> (r: OrderLocking)
        ensures
            r.wf(),
            r.requested() == requested@,
            r.locked() == Seq::<OrderItemRow>::empty(),
            r.stocks_seen() == Seq::<i32>::empty(),
    {
        OrderLocking { requested, locked: Vec::new(), stocks: Ghost(Seq::empty()) }
    }

    /// The product to look up (and lock) next, if any line is left.
    pub fn next_product(&self) -> (r: Option<u128>)
        requires
            self.wf(),
        ensures
            self.is_done() ==> r is None,
            !self.is_done() ==> r == Some(self.requested()[self.locked().len() as int].0),
    {
        let k = self.locked.len();
        if k < self.requested.len() {
            Some(self.requested[k].0)
        } else {
            None
        }
    }

    /// Takes the lookup of the next product.  A missing product is not
    /// found; a product with less stock than requested is a failed
    /// precondition; otherwise the line is added.  After a failure nothing is
    /// added.
    pub fn record(&mut self, product: Option<LockedProductRow>) -> (r: Result<(), RpcStatus>)
        requires
            old(self).wf(),
            !old(self).is_done(),
        ensures
            final(self).wf(),
            final(self).requested() == old(self).requested(),
            ({
                let (id, quantity) = old(self).requested()[old(self).locked().len() as int];
                match product {
                    None => r matches Err(s) && status_view(s) == (RpcCode::NotFound, product_missing_message(id))
                        && final(self).locked() == old(self).locked() && final(self).stocks_seen() == old(self).stocks_seen(),
                    Some(p) => if p.stock_quantity < quantity {
                        r matches Err(s) && status_view(s) == (
                            RpcCode::FailedPrecondition,
                            short_stock_message(p.name@, quantity, p.stock_quantity),
                        ) && final(self).locked() == old(self).locked() && final(self).stocks_seen()
                            == old(self).stocks_seen()
                    } else {
                        r is Ok && final(self).locked() == old(self).locked().push(locked_line(p, quantity))
                            && final(self).stocks_seen() == old(self).stocks_seen().push(p.stock_quantity)
                    },
                }
            }),
    {
        let k = self.locked.len();
        let (id, quantity) = self.requested[k];
        match product {
            None => {
                let mut m = "product ".to_string();
                let t = uuid_to_text(id);
                m.append(t.as_str());
                m.append(" not found");
                Err(RpcStatus::not_found(m))
            },
            Some(p) => {
                if p.stock_quantity < quantity {
                    let mut m = "insufficient stock for product '".to_string();
                    m.append(p.name.as_str());
                    m.append("': requested ");
                    let q = int_to_text(quantity as i64);
                    m.append(q.as_str());
                    m.append(", available ");
                    let s = int_to_text(p.stock_quantity as i64);
                    m.append(s.as_str());
                    Err(RpcStatus::failed_precondition(m))
                } else {
                    let line = OrderItemRow {
                        product_id: p.id,
                        product_name: p.name,
                        unit_price: p.price,
                        quantity,
                    };
                    self.locked.push(line);
                    proof {
                        self.stocks@ = self.stocks@.push(p.stock_quantity);
                        assert forall|i: int| 0 <= i < self.locked().len() implies (
                        #[trigger] self.locked()[i]).quantity == self.requested()[i].1
                            && self.locked()[i].quantity <= self.stocks_seen()[i] by {
                            if i < k {
                                assert(self.locked()[i] == old(self).locked()[i]);
                                assert(self.stocks_seen()[i] == old(self).stocks_seen()[i]);
                            }
                        }
                    }
                    Ok(())
                }
            },
        }
    }

    /// The locked lines, once every line is locked.
    pub fn into_lines(self) -> (r: Vec<OrderItemRow>)
        requires
            self.wf(),
            self.is_done(),
        ensures
            r@ == self.locked(),
            r@.len() == self.requested().len(),
            forall|i: int|
                0 <= i < r@.len() ==> (#[trigger] r@[i]).quantity == self.requested()[i].1 && r@[i].quantity
                    <= self.stocks_seen()[i],
    {
        self.locked
    }
}

/// The (price, quantity) pairs of order lines.
pub open spec fn priced_lines(items: Seq<OrderItemRow>) -> Seq<(Money, i32)> {
    items.map_values(|it: OrderItemRow| (it.unit_price, it.quantity))
}

/// The exact sum of an order's priced lines, at any scale, is the sum over
/// its items of unit price times that item's own quantity, each item counted
/// once and in order.
pub proof fn lemma_order_lines_sum(items: Seq<OrderItemRow>, s: nat)
    ensures
        exact_lines_sum(priced_lines(items), s) == items.fold_left(
            0int,
            |acc: int, it: OrderItemRow| acc + it.unit_price.at_scale(s) * it.quantity,
        ),
    decreases items.len(),
{
    if items.len() > 0 {
        lemma_order_lines_sum(items.drop_last(), s);
        assert(priced_lines(items).drop_last() =~= priced_lines(items.drop_last()));
        assert(priced_lines(items).last() == (items.last().unit_price, items.last().quantity));
    }
}

/// The total amount of an order: the sum of unit price times quantity over
/// its lines, computed as `rust_decimal` sums it.  `None` where that
/// arithmetic overflows (where summing with `Decimal`'s `+` panics).  When
/// nothing overflows the total is exact.
pub fn order_total(items: &Vec<OrderItemRow>) -> (r: Option<Money>)
    requires
        forall|i: int| 0 <= i < items@.len() ==> (#[trigger] items@[i]).unit_price.wf(),
    ensures
        r == lines_total(priced_lines(items@)),
        r matches Some(t) ==> t.wf(),
        lines_fit(priced_lines(items@)) ==> (r matches Some(t) && t.scale <= lines_scale(
            priced_lines(items@),
        ) && t.at_scale(lines_scale(priced_lines(items@))) == exact_lines_sum(
            priced_lines(items@),
            lines_scale(priced_lines(items@)),
        )),
        lines_fit(priced_lines(items@)) ==> (r matches Some(t) && t.at_scale(lines_scale(priced_lines(items@)))
            == items@.fold_left(
            0int,
            |acc: int, it: OrderItemRow| acc + it.unit_price.at_scale(lines_scale(priced_lines(items@))) * it.quantity,
        )),
{
    proof {
        lemma_order_lines_sum(items@, lines_scale(priced_lines(items@)));
    }
    let mut lines: Vec<(Money, i32)> = Vec::new();
    let mut i: usize = 0;
    while i < items.len()
        invariant
            0 <= i <= items@.len(),
            lines@ == priced_lines(items@.take(i as int)),
        decreases items.len() - i,
    {
        lines.push((items[i].unit_price, items[i].quantity));
        proof {
            assert(priced_lines(items@.take(i + 1)) =~= priced_lines(items@.take(i as int)).push(
                (items@[i as int].unit_price, items@[i as int].quantity),
            ));
        }
        i = i + 1;
    }
    assert(items@.take(items@.len() as int) =~= items@);
    proof {
        assert forall|j: int| 0 <= j < lines@.len() implies (#[trigger] lines@[j]).0.wf() by {
            assert(lines@[j].0 == items@[j].unit_price);
        }
        assert(lines_wf(lines@));
    }
    sum_lines(&lines)
}

/// An order line as written on the wire, and read back from it.
pub open spec fn wire_item(it: OrderItemRow, out: OrderItem) -> bool {
    &&& out.product_id@ == uuid_text(it.product_id)
    &&& parses_back_to(out.product_id@, it.product_id)
    &&& out.product_name@ == it.product_name@
    &&& out.unit_price@ == money_text(it.unit_price.mantissa as int, it.unit_price.scale as nat)
    &&& reads_back_as(out.unit_price@, it.unit_price)
    &&& out.quantity == it.quantity
}

/// A stored order and its lines as written on the wire: ids hyphenated,
/// amounts as decimal text, times in RFC 3339; and each field reads back as
/// what was written (the times when they are of the years 0 to 9999).
pub open spec fn written_as(order: OrderRow, items: Seq<OrderItemRow>, r: Order) -> bool {
    &&& r.id@ == uuid_text(order.id)
    &&& parses_back_to(r.id@, order.id)
    &&& r.user_id@ == uuid_text(order.user_id)
    &&& parses_back_to(r.user_id@, order.user_id)
    &&& r.status@ == order.status@
    &&& r.total_amount@ == money_text(order.total_amount.mantissa as int, order.total_amount.scale as nat)
    &&& reads_back_as(r.total_amount@, order.total_amount)
    &&& r.items@.len() == items.len()
    &&& forall|i: int| 0 <= i < items.len() ==> wire_item(#[trigger] items[i], r.items@[i])
    &&& r.created_at@ == utc_rfc3339(order.created_at.spec_secs(), order.created_at.spec_nanos())
    &&& four_digit_year(order.created_at.spec_secs()) ==> rfc3339_reads_back(
        r.created_at@,
        order.created_at.spec_secs(),
        order.created_at.spec_nanos(),
    )
    &&& r.updated_at@ == utc_rfc3339(order.updated_at.spec_secs(), order.updated_at.spec_nanos())
    &&& four_digit_year(order.updated_at.spec_secs()) ==> rfc3339_reads_back(
        r.updated_at@,
        order.updated_at.spec_secs(),
        order.updated_at.spec_nanos(),
    )
}

/// Writes a stored order and its lines as the wire message
/// (`to_proto_order`).
pub fn to_proto_order(order: OrderRow, items: Vec<OrderItemRow>) -> (r: Order)
    requires
        order.total_amount.wf(),
        forall|i: int| 0 <= i < items@.len() ==> (#[trigger] items@[i]).unit_price.wf(),
    ensures
        written_as(order, items@, r),
{
    let mut out: Vec<OrderItem> = Vec::new();
    let mut i: usize = 0;
    while i < items.len()
        invariant
            0 <= i <= items@.len(),
            out@.len() == i,
            forall|j: int| 0 <= j < items@.len() ==> (#[trigger] items@[j]).unit_price.wf(),
            forall|j: int| 0 <= j < i ==> wire_item(#[trigger] items@[j], out@[j]),
        decreases items.len() - i,
    {
        let it = &items[i];
        let w = OrderItem {
            product_id: uuid_to_text(it.product_id),
            product_name: it.product_name.clone(),
            unit_price: to_text(it.unit_price),
            quantity: it.quantity,
        };
        out.push(w);
        i = i + 1;
    }
    Order {
        id: uuid_to_text(order.id),
        user_id: uuid_to_text(order.user_id),
        status: order.status,
        total_amount: to_text(order.total_amount),
        items: out,
        created_at: order.created_at.to_rfc3339(),
        updated_at: order.updated_at.to_rfc3339(),
    }
}

/// `order <id> not found`
pub open spec fn order_missing_message(id: u128) -> Seq<char> {
    "order "@ + uuid_text(id) + " not found"@
}

/// An order that was looked up (the order, or just its id): a missing one
/// is not found.
pub fn require_order<T>(order: Option<T>, order_id: u128) -> (r: Result<T, RpcStatus>)
    ensures
        match order {
            Some(o) => r matches Ok(v) && v == o,
            None => r matches Err(s) && status_view(s) == (RpcCode::NotFound, order_missing_message(order_id)),
        },
{
    match order {
        Some(o) => Ok(o),
        None => {
            let mut m = "order ".to_string();
            let t = uuid_to_text(order_id);
            m.append(t.as_str());
            m.append(" not found");
            Err(RpcStatus::not_found(m))
        },
    }
}

/// The page of a user's orders that a list request asks for: a positive
/// limit is used as given and anything else means 10; a positive offset is
/// used as given and anything else means 0.
pub fn order_page_bounds(limit: i32, offset: i32) -> (r: (i64, i64))
    ensures
        r.0 == (if limit > 0 { limit as i64 } else { 10 }),
        r.1 == (if offset > 0 { offset as i64 } else { 0 }),
        r.0 >= 1,
        r.1 >= 0,
{
    let l: i64 = if limit > 0 { limit as i64 } else { 10 };
    let o: i64 = if offset > 0 { offset as i64 } else { 0 };
    (l, o)
}

} // verus!
