//! Business records: orders, their store, and the structured partial
//! update that replaces ad hoc field-by-field statements.

use vstd::prelude::*;

verus! {

/// One order record. Identifiers are assigned serially from 1 in
/// creation order, so a larger identifier means a more recent order.
pub struct Order {
    pub id: i64,
    pub user_id: i64,
    pub username: String,
    pub name: String,
    pub contacts: String,
    pub text: String,
    pub created_at: i64,
}

/// The mathematical value of an [`Order`].
pub struct OrderModel {
    pub id: i64,
    pub user_id: i64,
    pub username: Seq<char>,
    pub name: Seq<char>,
    pub contacts: Seq<char>,
    pub text: Seq<char>,
    pub created_at: i64,
}

impl View for Order {
    type V = OrderModel;

    open spec fn view(&self) -> OrderModel {
        OrderModel {
            id: self.id,
            user_id: self.user_id,
            username: self.username@,
            name: self.name@,
            contacts: self.contacts@,
            text: self.text@,
            created_at: self.created_at,
        }
    }
}

impl Order {
    /// Copies the record.
    pub fn duplicate(&self) -> (o: Order)
        ensures
            o@ == self@,
    {
        Order {
            id: self.id,
            user_id: self.user_id,
            username: self.username.clone(),
            name: self.name.clone(),
            contacts: self.contacts.clone(),
            text: self.text.clone(),
            created_at: self.created_at,
        }
    }
}

/// A test-author record: a user registering as an author of tests, with
/// the channel they named and their contact string. The registration flow
/// shares the order record's shape.
pub struct TestAuthor {
    pub id: i64,
    pub user_id: i64,
    pub username: String,
    pub name: String,
    pub contacts: String,
    pub text: String,
    pub created_at: i64,
}

/// A pupil record, shaped like the other business records.
pub struct Pupil {
    pub id: i64,
    pub user_id: i64,
    pub username: String,
    pub name: String,
    pub contacts: String,
    pub text: String,
    pub created_at: i64,
}

/// A partial update: only the fields that are present are written, the
/// others are left untouched. Absence means "no change", never "set
/// empty".
pub struct OrderUpdate {
    pub username: Option<String>,
    pub name: Option<String>,
    pub contacts: Option<String>,
    pub text: Option<String>,
}

/// The mathematical value of an [`OrderUpdate`].
pub struct OrderUpdateModel {
    pub username: Option<Seq<char>>,
    pub name: Option<Seq<char>>,
    pub contacts: Option<Seq<char>>,
    pub text: Option<Seq<char>>,
}

impl View for OrderUpdate {
    type V = OrderUpdateModel;

    open spec fn view(&self) -> OrderUpdateModel {
        OrderUpdateModel {
            username: match self.username {
                Some(ref u) => Some(u@),
                None => None,
            },
            name: match self.name {
                Some(ref n) => Some(n@),
                None => None,
            },
            contacts: match self.contacts {
                Some(ref c) => Some(c@),
                None => None,
            },
            text: match self.text {
                Some(ref t) => Some(t@),
                None => None,
            },
        }
    }
}

/// The record `update` turns `o` into: present fields replaced, absent
/// fields kept, identifier, owner and creation time always kept.
pub open spec fn spec_apply_update(o: OrderModel, update: OrderUpdateModel) -> OrderModel {
    OrderModel {
        id: o.id,
        user_id: o.user_id,
        username: match update.username {
            Some(u) => u,
            None => o.username,
        },
        name: match update.name {
            Some(n) => n,
            None => o.name,
        },
        contacts: match update.contacts {
            Some(c) => c,
            None => o.contacts,
        },
        text: match update.text {
            Some(t) => t,
            None => o.text,
        },
        created_at: o.created_at,
    }
}

/// Applies a partial update to one record.
pub fn apply_update(o: Order, update: OrderUpdate) -> (r: Order)
    ensures
        r@ == spec_apply_update(o@, update@),
{
    Order {
        id: o.id,
        user_id: o.user_id,
        username: match update.username {
            Some(u) => u,
            None => o.username,
        },
        name: match update.name {
            Some(n) => n,
            None => o.name,
        },
        contacts: match update.contacts {
            Some(c) => c,
            None => o.contacts,
        },
        text: match update.text {
            Some(t) => t,
            None => o.text,
        },
        created_at: o.created_at,
    }
}

/// The index of the user's most recent order, if any: the largest index
/// whose record belongs to the user.
pub open spec fn spec_latest_order_index(orders: Seq<OrderModel>, user_id: i64) -> Option<int>
    decreases orders.len(),
{
    if orders.len() == 0 {
        None
    } else if orders.last().user_id == user_id {
        Some(orders.len() - 1)
    } else {
        spec_latest_order_index(orders.drop_last(), user_id)
    }
}

/// The order list after the user's most recent order gets a new contact
/// string; unchanged when the user has no order.
pub open spec fn spec_update_latest_contacts(
    orders: Seq<OrderModel>,
    user_id: i64,
    contacts: Seq<char>,
) -> Seq<OrderModel> {
    match spec_latest_order_index(orders, user_id) {
        None => orders,
        Some(i) => orders.update(
            i,
            OrderModel {
                id: orders[i].id,
                user_id: orders[i].user_id,
                username: orders[i].username,
                name: orders[i].name,
                contacts: contacts,
                text: orders[i].text,
                created_at: orders[i].created_at,
            },
        ),
    }
}

/// The durable order store, in creation order.
pub struct OrderStore {
    orders: Vec<Order>,
}

impl View for OrderStore {
    type V = Seq<OrderModel>;

    closed spec fn view(&self) -> Seq<OrderModel> {
        self.orders@.map_values(|o: Order| o@)
    }
}

impl OrderStore {
    /// Identifiers are the creation positions, counted from 1.
    pub open spec fn wf(self) -> bool {
        forall|i: int| 0 <= i < self@.len() ==> (#[trigger] self@[i]).id == i + 1
    }

    /// Creates an empty store.
    pub fn new() -> (s: OrderStore)
        ensures
            s@ == Seq::<OrderModel>::empty(),
            s.wf(),
    {
        let s = OrderStore { orders: Vec::new() };
        proof {
            assert(s@ =~= Seq::<OrderModel>::empty());
        }
        s
    }

    /// Creates a new record with the next serial identifier and returns
    /// that identifier.
    pub fn create_order(
        &mut self,
        user_id: i64,
        username: &str,
        name: &str,
        contacts: &str,
        text: &str,
        created_at: i64,
    ) -> (id: i64)
        requires
            old(self)@.len() + 1 < 0x7fff_ffff_ffff_ffff,
        ensures
            id == old(self)@.len() + 1,
            final(self)@ == old(self)@.push(
                OrderModel {
                    id: (old(self)@.len() + 1) as i64,
                    user_id: user_id,
                    username: username@,
                    name: name@,
                    contacts: contacts@,
                    text: text@,
                    created_at: created_at,
                },
            ),
            old(self).wf() ==> final(self).wf(),
    {
        let n = self.orders.len();
        let id: i64 = n as i64 + 1;
        self.orders.push(
            Order {
                id: id,
                user_id: user_id,
                username: username.to_owned(),
                name: name.to_owned(),
                contacts: contacts.to_owned(),
                text: text.to_owned(),
                created_at: created_at,
            },
        );
        proof {
            assert(self@ =~= old(self)@.push(
                OrderModel {
                    id: (old(self)@.len() + 1) as i64,
                    user_id: user_id,
                    username: username@,
                    name: name@,
                    contacts: contacts@,
                    text: text@,
                    created_at: created_at,
                },
            ));
        }
        id
    }

    /// Looks a record up by identifier; identifiers never handed out find
    /// nothing.
    pub fn get_order_by_id(&self, id: i64) -> (r: Option<Order>)
        requires
            self.wf(),
        ensures
            match r {
                Some(o) => 1 <= id <= self@.len() && o@ == self@[id - 1],
                None => !(1 <= id <= self@.len()),
            },
    {
        let n = self.orders.len();
        let mut i: usize = 0;
        while i < n
            invariant
                n == self.orders@.len(),
                i <= n,
                self.wf(),
                forall|j: int| 0 <= j < i ==> (#[trigger] self@[j]).id != id,
            decreases n - i,
        {
            if self.orders[i].id == id {
                proof {
                    assert(self@[i as int].id == i + 1);
                }
                return Some(self.orders[i].duplicate());
            }
            i += 1;
        }
        proof {
            if 1 <= id <= self@.len() {
                assert(self@[id - 1].id == id);
            }
        }
        None
    }

    /// Finds the index of the user's most recent order, if any.
    pub fn latest_order_index(&self, user_id: i64) -> (r: Option<usize>)
        ensures
            match r {
                Some(i) => i < self@.len() && spec_latest_order_index(self@, user_id) == Some(
                    i as int,
                ),
                None => spec_latest_order_index(self@, user_id) is None,
            },
    {
        let n = self.orders.len();
        let mut i: usize = 0;
        let mut found: Option<usize> = None;
        while i < n
            invariant
                n == self.orders@.len(),
                i <= n,
                match found {
                    Some(k) => k < i && spec_latest_order_index(self@.take(i as int), user_id)
                        == Some(k as int),
                    None => spec_latest_order_index(self@.take(i as int), user_id) is None,
                },
            decreases n - i,
        {
            proof {
                assert(self@.take(i + 1).drop_last() =~= self@.take(i as int));
                assert(self@.take(i + 1).last() == self@[i as int]);
            }
            if self.orders[i].user_id == user_id {
                found = Some(i);
            }
            i += 1;
        }
        proof {
            assert(self@.take(n as int) =~= self@);
        }
        found
    }

    /// Gives the user's most recent order a new contact string; does
    /// nothing and reports it when the user has no order.
    pub fn update_latest_contacts(&mut self, user_id: i64, contacts: &str) -> (updated: bool)
        ensures
            final(self)@ == spec_update_latest_contacts(old(self)@, user_id, contacts@),
            updated == spec_latest_order_index(old(self)@, user_id) is Some,
            old(self).wf() ==> final(self).wf(),
    {
        match self.latest_order_index(user_id) {
            Some(i) => {
                let mut o = self.orders[i].duplicate();
                o.contacts = contacts.to_owned();
                self.orders.set(i, o);
                proof {
                    assert(self@ =~= spec_update_latest_contacts(old(self)@, user_id, contacts@));
                }
                true
            },
            None => false,
        }
    }

    /// Applies a partial update to the record with the given identifier;
    /// does nothing and reports it when no record has it.
    pub fn update_order(&mut self, id: i64, update: OrderUpdate) -> (updated: bool)
        requires
            old(self).wf(),
        ensures
            updated == (1 <= id <= old(self)@.len()),
            updated ==> final(self)@ == old(self)@.update(
                id - 1,
                spec_apply_update(old(self)@[id - 1], update@),
            ),
            !updated ==> final(self)@ == old(self)@,
            final(self).wf(),
    {
        let n = self.orders.len();
        let mut i: usize = 0;
        while i < n
            invariant
                n == self.orders@.len(),
                i <= n,
                self.wf(),
                *self == *old(self),
                forall|j: int| 0 <= j < i ==> (#[trigger] self@[j]).id != id,
            decreases n - i,
        {
            if self.orders[i].id == id {
                proof {
                    assert(self@[i as int].id == i + 1);
                }
                let o = self.orders[i].duplicate();
                self.orders.set(i, apply_update(o, update));
                proof {
                    assert(self@ =~= old(self)@.update(
                        id - 1,
                        spec_apply_update(old(self)@[id - 1], update@),
                    ));
                }
                return true;
            }
            i += 1;
        }
        proof {
            if 1 <= id <= self@.len() {
                assert(self@[id - 1].id == id);
            }
        }
        false
    }

    /// Returns the user's orders, most recent first.
    pub fn get_orders_by_user(&self, user_id: i64) -> (r: Vec<Order>)
        ensures
            r@.map_values(|o: Order| o@) == self@.filter(
                |o: OrderModel| o.user_id == user_id,
            ).reverse(),
    {
        let ghost pred = |o: OrderModel| o.user_id == user_id;
        let n = self.orders.len();
        let mut r: Vec<Order> = Vec::new();
        let mut i: usize = n;
        while i > 0
            invariant
                n == self.orders@.len(),
                i <= n,
                r@.map_values(|o: Order| o@) == self@.skip(i as int).filter(pred).reverse(),
                pred == (|o: OrderModel| o.user_id == user_id),
            decreases i,
        {
            i -= 1;
            let ghost prev = r@.map_values(|o: Order| o@);
            proof {
                assert(self@.skip(i as int).drop_first() =~= self@.skip(i + 1));
                assert(self@.skip(i as int)[0] == self@[i as int]);
                lemma_filter_reverse_first(self@.skip(i as int), pred);
            }
            if self.orders[i].user_id == user_id {
                r.push(self.orders[i].duplicate());
                proof {
                    assert(r@.map_values(|o: Order| o@) =~= prev.push(self@[i as int]));
                }
            }
        }
        proof {
            assert(self@.skip(0) =~= self@);
        }
        r
    }
}

/// Filtering then reversing a non-empty sequence deals with the first
/// element last: it equals the filtered reversed rest, extended by the
/// first element when that element passes the filter.
proof fn lemma_filter_reverse_first(s: Seq<OrderModel>, pred: spec_fn(OrderModel) -> bool)
    requires
        s.len() > 0,
    ensures
        pred(s[0]) ==> s.filter(pred).reverse() == s.drop_first().filter(pred).reverse().push(
            s[0],
        ),
        !pred(s[0]) ==> s.filter(pred).reverse() == s.drop_first().filter(pred).reverse(),
{
    let x = s[0];
    let rest = s.drop_first();
    assert(s =~= seq![x] + rest);
    Seq::filter_distributes_over_add(seq![x], rest, pred);
    reveal_with_fuel(Seq::filter, 2);
    assert(seq![x].drop_last() =~= Seq::<OrderModel>::empty());
    if pred(x) {
        assert(seq![x].filter(pred) =~= seq![x]);
        assert(s.filter(pred) == seq![x] + rest.filter(pred));
        assert(s.filter(pred).reverse() =~= rest.filter(pred).reverse().push(x));
    } else {
        assert(seq![x].filter(pred) =~= Seq::<OrderModel>::empty());
        assert(s.filter(pred) == Seq::<OrderModel>::empty() + rest.filter(pred));
        assert(s.filter(pred) =~= rest.filter(pred));
        assert(s.filter(pred).reverse() == rest.filter(pred).reverse());
    }
}

} // verus!
