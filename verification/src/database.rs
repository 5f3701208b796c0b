use vstd::prelude::*;

verus! {

/// One listener's persisted statistics; the stay duration is held in whole
/// seconds.
#[derive(Debug, Clone, PartialEq)]
pub struct ListenerEntity {
    pub id: usize,
    pub name: String,
    pub visit_count: usize,
    pub stay_duration: u64,
}

/// The mathematical content of one row.
#[verifier::ext_equal]
pub ghost struct EntityView {
    pub id: nat,
    pub name: Seq<char>,
    pub visit_count: nat,
    pub stay_duration: nat,
}

impl View for ListenerEntity {
    type V = EntityView;

    open spec fn view(&self) -> EntityView {
        EntityView {
            id: self.id as nat,
            name: self.name@,
            visit_count: self.visit_count as nat,
            stay_duration: self.stay_duration as nat,
        }
    }
}

impl DeepView for ListenerEntity {
    type V = EntityView;

    open spec fn deep_view(&self) -> EntityView {
        self.view()
    }
}

impl ListenerEntity {
    pub fn new(id: usize, name: String, visit_count: usize, stay_duration: u64) -> (r:
        ListenerEntity)
        ensures
            r.id == id,
            r.name@ == name@,
            r.visit_count == visit_count,
            r.stay_duration == stay_duration,
    {
        ListenerEntity { id, name, visit_count, stay_duration }
    }
}

/// Rows stand in strictly increasing id order, as the backing store keyed by
/// id returns them; in particular ids are unique.
pub open spec fn ids_sorted(rows: Seq<EntityView>) -> bool {
    forall|i: int, j: int| 0 <= i < j < rows.len() ==> rows[i].id < rows[j].id
}

/// The index of the row with the given id, or `-1` when there is none.
pub open spec fn index_of_id(rows: Seq<EntityView>, id: nat) -> int
    decreases rows.len(),
{
    if rows.len() == 0 {
        -1
    } else if rows[0].id == id {
        0
    } else {
        let r = index_of_id(rows.drop_first(), id);
        if r < 0 {
            -1
        } else {
            r + 1
        }
    }
}

/// `e` placed before the first row with a greater id.
pub open spec fn insert_sorted(rows: Seq<EntityView>, e: EntityView) -> Seq<EntityView>
    decreases rows.len(),
{
    if rows.len() == 0 {
        seq![e]
    } else if e.id < rows[0].id {
        seq![e] + rows
    } else {
        seq![rows[0]] + insert_sorted(rows.drop_first(), e)
    }
}

pub proof fn lemma_index_of_id_none(rows: Seq<EntityView>, id: nat)
    requires
        index_of_id(rows, id) == -1,
    ensures
        forall|i: int| 0 <= i < rows.len() ==> (#[trigger] rows[i]).id != id,
    decreases rows.len(),
{
    if rows.len() > 0 {
        lemma_index_of_id_none(rows.drop_first(), id);
        assert forall|i: int| 0 <= i < rows.len() implies (#[trigger] rows[i]).id != id by {
            if i >= 1 {
                assert(rows[i] == rows.drop_first()[i - 1]);
            }
        }
    }
}

proof fn lemma_insert_sorted_at(rows: Seq<EntityView>, e: EntityView, k: int)
    requires
        0 <= k <= rows.len(),
        forall|i: int| 0 <= i < k ==> (#[trigger] rows[i]).id < e.id,
        k < rows.len() ==> e.id < rows[k].id,
    ensures
        insert_sorted(rows, e) == rows.insert(k, e),
    decreases rows.len(),
{
    if rows.len() == 0 {
        assert(insert_sorted(rows, e) =~= rows.insert(0, e));
    } else if e.id < rows[0].id {
        assert(k == 0);
        assert(seq![e] + rows =~= rows.insert(0, e));
    } else {
        assert(k >= 1);
        lemma_insert_sorted_at(rows.drop_first(), e, k - 1);
        assert(seq![rows[0]] + rows.drop_first().insert(k - 1, e) =~= rows.insert(k, e));
    }
}

/// The listener statistics table: rows keyed by listener id, held in id
/// order, one row per id.
pub struct Database {
    rows: Vec<ListenerEntity>,
}

impl View for Database {
    type V = Seq<EntityView>;

    closed spec fn view(&self) -> Seq<EntityView> {
        self.rows.deep_view()
    }
}

impl Database {
    pub open spec fn wf(&self) -> bool {
        ids_sorted(self@)
    }

    pub fn new() -> (r: Self)
        ensures
            r.wf(),
            r@ =~= Seq::<EntityView>::empty(),
    {
        let r = Database { rows: Vec::new() };
        proof {
            assert(r@ =~= Seq::<EntityView>::empty());
        }
        r
    }

    /// Adds a row for an id the table does not hold yet, keeping the rows in
    /// id order.
    #[verifier::loop_isolation(false)]
    pub fn insert(&mut self, entity: ListenerEntity)
        requires
            old(self).wf(),
            index_of_id(old(self)@, entity.id as nat) == -1,
        ensures
            final(self).wf(),
            final(self)@ == insert_sorted(old(self)@, entity@),
    {
        proof {
            lemma_index_of_id_none(self@, entity.id as nat);
        }
        let mut k: usize = 0;
        while k < self.rows.len() && self.rows[k].id < entity.id
            invariant
                k <= self@.len(),
                forall|i: int| 0 <= i < k ==> (#[trigger] self@[i]).id < entity.id as nat,
            decreases self@.len() - k,
        {
            k += 1;
        }
        proof {
            if k < self@.len() {
                assert(self@[k as int].id != entity.id as nat);
                assert((entity.id as nat) < self@[k as int].id);
            }
            lemma_insert_sorted_at(self@, entity@, k as int);
        }
        let ghost rows0 = self@;
        self.rows.insert(k, entity);
        proof {
            assert(self@ =~~= rows0.insert(k as int, entity@));
            assert forall|i: int, j: int| 0 <= i < j < self@.len() implies self@[i].id
                < self@[j].id by {
                assert(ids_sorted(rows0));
            }
        }
    }

    /// Replaces the row whose id matches the given entity's, or does nothing
    /// when there is none.
    #[verifier::loop_isolation(false)]
    pub fn update(&mut self, entity: ListenerEntity)
        requires
            old(self).wf(),
        ensures
            final(self).wf(),
            final(self)@ == (if index_of_id(old(self)@, entity.id as nat) >= 0 {
                old(self)@.update(index_of_id(old(self)@, entity.id as nat), entity@)
            } else {
                old(self)@
            }),
    {
        let mut k: usize = 0;
        while k < self.rows.len()
            invariant
                k <= self@.len(),
                self@ == old(self)@,
                forall|i: int| 0 <= i < k ==> (#[trigger] self@[i]).id != entity.id as nat,
            decreases self@.len() - k,
        {
            if self.rows[k].id == entity.id {
                let ghost rows0 = self@;
                self.rows.set(k, entity);
                proof {
                    lemma_index_of_id_from(rows0, entity.id as nat, k as int);
                    assert(self@ =~~= rows0.update(k as int, entity@));
                    assert forall|i: int, j: int| 0 <= i < j < self@.len() implies self@[i].id
                        < self@[j].id by {
                        assert(ids_sorted(rows0));
                        assert(rows0[k as int].id == entity.id as nat);
                    }
                }
                return ;
            }
            k += 1;
        }
        proof {
            lemma_index_of_id_from(self@, entity.id as nat, self@.len() as int);
        }
    }

    /// The row with the given id, when the table holds one.
    #[verifier::loop_isolation(false)]
    pub fn select_by_id(&self, id: usize) -> (r: Option<ListenerEntity>)
        ensures
            match r {
                Some(e) => index_of_id(self@, id as nat) >= 0 && e@ == self@[index_of_id(
                    self@,
                    id as nat,
                )],
                None => index_of_id(self@, id as nat) == -1,
            },
    {
        let mut k: usize = 0;
        while k < self.rows.len()
            invariant
                k <= self@.len(),
                forall|i: int| 0 <= i < k ==> (#[trigger] self@[i]).id != id as nat,
            decreases self@.len() - k,
        {
            if self.rows[k].id == id {
                let e = ListenerEntity {
                    id: self.rows[k].id,
                    name: self.rows[k].name.clone(),
                    visit_count: self.rows[k].visit_count,
                    stay_duration: self.rows[k].stay_duration,
                };
                proof {
                    lemma_index_of_id_from(self@, id as nat, k as int);
                }
                return Some(e);
            }
            k += 1;
        }
        proof {
            lemma_index_of_id_from(self@, id as nat, self@.len() as int);
        }
        None
    }

    /// Every row, in id order.
    #[verifier::loop_isolation(false)]
    pub fn select_all(&self) -> (r: Vec<ListenerEntity>)
        ensures
            r.deep_view() == self@,
    {
        let mut out: Vec<ListenerEntity> = Vec::new();
        let mut k: usize = 0;
        while k < self.rows.len()
            invariant
                k <= self@.len(),
                out.deep_view() =~= self@.take(k as int),
            decreases self@.len() - k,
        {
            let ghost d0 = out.deep_view();
            out.push(
                ListenerEntity {
                    id: self.rows[k].id,
                    name: self.rows[k].name.clone(),
                    visit_count: self.rows[k].visit_count,
                    stay_duration: self.rows[k].stay_duration,
                },
            );
            proof {
                assert(out.deep_view() =~~= d0.push(self@[k as int]));
                assert(out.deep_view() =~= self@.take(k + 1));
            }
            k += 1;
        }
        proof {
            assert(self@.take(self@.len() as int) =~= self@);
        }
        out
    }
}

/// When no row below `k` has the id and row `k` (if any) has it, `k` (or the
/// absence) is exactly what `index_of_id` names.
proof fn lemma_index_of_id_from(rows: Seq<EntityView>, id: nat, k: int)
    requires
        0 <= k <= rows.len(),
        forall|i: int| 0 <= i < k ==> (#[trigger] rows[i]).id != id,
        k < rows.len() ==> rows[k].id == id,
    ensures
        k < rows.len() ==> index_of_id(rows, id) == k,
        k == rows.len() ==> index_of_id(rows, id) == -1,
    decreases rows.len(),
{
    if rows.len() > 0 {
        if rows[0].id == id {
        } else {
            assert(forall|i: int|
                1 <= i < rows.len() ==> rows[i] == #[trigger] rows.drop_first()[i - 1]);
            lemma_index_of_id_from(rows.drop_first(), id, k - 1);
        }
    }
}

} // verus!
