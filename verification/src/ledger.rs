//! The vesting ledger's store: one ordered list of grants per beneficiary
//! address, kept sorted by the address's byte encoding so that paginated
//! walks see beneficiaries in ascending order.

use vstd::prelude::*;

use crate::bonding::BondingRecord;
use vstd::utf8::encode_utf8;
use vstd::utf8::encode_utf8_decode_utf8;

verus! {

/// The byte encoding of an address, which orders the ledger's entries.
pub open spec fn addr_key(address: String) -> Seq<u8> {
    encode_utf8(address@)
}

/// Strict lexicographic order on byte strings.
pub open spec fn lex_lt(a: Seq<u8>, b: Seq<u8>) -> bool
    decreases a.len(),
{
    if b.len() == 0 {
        false
    } else if a.len() == 0 {
        true
    } else if a[0] < b[0] {
        true
    } else if a[0] > b[0] {
        false
    } else {
        lex_lt(a.drop_first(), b.drop_first())
    }
}

/// Two byte strings that neither precede one another are equal.
pub proof fn lemma_lex_lt_total(a: Seq<u8>, b: Seq<u8>)
    requires
        !lex_lt(a, b),
        !lex_lt(b, a),
    ensures
        a == b,
    decreases a.len(),
{
    if a.len() == 0 || b.len() == 0 {
        assert(a =~= b);
    } else {
        lemma_lex_lt_total(a.drop_first(), b.drop_first());
        assert(a =~= seq![a[0]] + a.drop_first());
        assert(b =~= seq![b[0]] + b.drop_first());
    }
}

/// Lexicographic order is transitive.
pub proof fn lemma_lex_lt_trans(a: Seq<u8>, b: Seq<u8>, c: Seq<u8>)
    requires
        lex_lt(a, b),
        lex_lt(b, c),
    ensures
        lex_lt(a, c),
    decreases a.len(),
{
    if a.len() == 0 || b.len() == 0 || c.len() == 0 {
    } else {
        if a[0] == b[0] && b[0] == c[0] {
            lemma_lex_lt_trans(a.drop_first(), b.drop_first(), c.drop_first());
        }
    }
}

/// Nothing precedes itself.
pub proof fn lemma_lex_lt_irrefl(a: Seq<u8>)
    ensures
        !lex_lt(a, a),
    decreases a.len(),
{
    if a.len() > 0 {
        lemma_lex_lt_irrefl(a.drop_first());
    }
}

/// Addresses with the same byte encoding are the same address.
pub proof fn lemma_addr_key_injective(a: String, b: String)
    requires
        addr_key(a) == addr_key(b),
    ensures
        a@ == b@,
{
    encode_utf8_decode_utf8(a@);
    encode_utf8_decode_utf8(b@);
}

/// Whether the byte string `a` lexicographically precedes `b`.
pub fn bytes_lt(a: &[u8], b: &[u8]) -> (r: bool)
    ensures
        r == lex_lt(a@, b@),
{
    let mut i: usize = 0;
    proof {
        assert(a@.subrange(0, a@.len() as int) =~= a@);
        assert(b@.subrange(0, b@.len() as int) =~= b@);
    }
    loop
        invariant
            i <= a@.len(),
            i <= b@.len(),
            lex_lt(a@, b@) == lex_lt(
                a@.subrange(i as int, a@.len() as int),
                b@.subrange(i as int, b@.len() as int),
            ),
        decreases a@.len() - i,
    {
        if i >= a.len() || i >= b.len() {
            proof {
                if i >= b.len() {
                    assert(b@.subrange(i as int, b@.len() as int).len() == 0);
                } else {
                    assert(a@.subrange(i as int, a@.len() as int).len() == 0);
                    assert(b@.subrange(i as int, b@.len() as int).len() > 0);
                }
            }
            return a.len() < b.len();
        }
        let x = a[i];
        let y = b[i];
        if x < y {
            return true;
        }
        if x > y {
            return false;
        }
        proof {
            assert(a@.subrange(i as int, a@.len() as int).drop_first() =~= a@.subrange(
                i + 1,
                a@.len() as int,
            ));
            assert(b@.subrange(i as int, b@.len() as int).drop_first() =~= b@.subrange(
                i + 1,
                b@.len() as int,
            ));
        }
        i = i + 1;
    }
}

/// Whether `a`'s byte encoding precedes `b`'s.
pub fn addr_lt(a: &String, b: &String) -> (r: bool)
    ensures
        r == lex_lt(addr_key(*a), addr_key(*b)),
{
    bytes_lt(a.as_str().as_bytes(), b.as_str().as_bytes())
}

/// A fresh copy of a grant list.
pub fn copy_records(v: &Vec<BondingRecord>) -> (r: Vec<BondingRecord>)
    ensures
        r@ == v@,
{
    let mut r: Vec<BondingRecord> = Vec::new();
    let n = v.len();
    let mut i: usize = 0;
    while i < n
        invariant
            i <= n,
            n == v@.len(),
            r@ == v@.subrange(0, i as int),
        decreases n - i,
    {
        r.push(v[i]);
        proof {
            assert(r@ =~= v@.subrange(0, i + 1));
        }
        i = i + 1;
    }
    proof {
        assert(v@.subrange(0, n as int) =~= v@);
    }
    r
}

/// One beneficiary's row: the address and its ordered grant list.
pub struct BondingEntry {
    pub address: String,
    pub records: Vec<BondingRecord>,
}

/// The per-beneficiary grant store, ordered by address bytes.
pub struct BondingLedger {
    pub entries: Vec<BondingEntry>,
}

/// The grant list stored under `key`, if any.
pub open spec fn spec_get(entries: Seq<BondingEntry>, key: Seq<u8>) -> Option<Vec<BondingRecord>>
    decreases entries.len(),
{
    if entries.len() == 0 {
        None
    } else if addr_key(entries[0].address) == key {
        Some(entries[0].records)
    } else {
        spec_get(entries.drop_first(), key)
    }
}

/// The entry rows after storing `records` under `address`: the existing row
/// is replaced, or a new row is inserted at its ordered position.
pub open spec fn spec_save(
    entries: Seq<BondingEntry>,
    address: String,
    records: Vec<BondingRecord>,
) -> Seq<BondingEntry>
    decreases entries.len(),
{
    if entries.len() == 0 {
        seq![BondingEntry { address, records }]
    } else if lex_lt(addr_key(entries[0].address), addr_key(address)) {
        seq![entries[0]] + spec_save(entries.drop_first(), address, records)
    } else if addr_key(entries[0].address) == addr_key(address) {
        seq![BondingEntry { address, records }] + entries.drop_first()
    } else {
        seq![BondingEntry { address, records }] + entries
    }
}

/// The rows are strictly ascending by address bytes (so addresses are
/// pairwise distinct).
pub open spec fn entries_sorted(entries: Seq<BondingEntry>) -> bool {
    forall|i: int, j: int|
        0 <= i < j < entries.len() ==> lex_lt(
            #[trigger] addr_key(entries[i].address),
            #[trigger] addr_key(entries[j].address),
        )
}

impl BondingLedger {
    /// The store is well-formed when its rows are strictly ordered.
    pub open spec fn wf(self) -> bool {
        entries_sorted(self.entries@)
    }

    /// An empty store.
    pub fn new() -> (r: BondingLedger)
        ensures
            r.wf(),
            r.entries@.len() == 0,
    {
        BondingLedger { entries: Vec::new() }
    }

    /// The grant list of `address`, if the store has a row for it.
    pub fn load(&self, address: &String) -> (r: Option<&Vec<BondingRecord>>)
        ensures
            match r {
                Some(v) => spec_get(self.entries@, addr_key(*address)) == Some(*v),
                None => spec_get(self.entries@, addr_key(*address)) is None,
            },
    {
        let n = self.entries.len();
        let mut i: usize = 0;
        proof {
            assert(self.entries@.subrange(0, n as int) =~= self.entries@);
        }
        while i < n
            invariant
                i <= n,
                n == self.entries@.len(),
                spec_get(self.entries@, addr_key(*address)) == spec_get(
                    self.entries@.subrange(i as int, n as int),
                    addr_key(*address),
                ),
            decreases n - i,
        {
            proof {
                assert(self.entries@.subrange(i as int, n as int).drop_first() =~= self.entries@
                    .subrange(i + 1, n as int));
            }
            if self.entries[i].address.eq(address) {
                return Some(&self.entries[i].records);
            }
            proof {
                if addr_key(self.entries@[i as int].address) == addr_key(*address) {
                    lemma_addr_key_injective(self.entries@[i as int].address, *address);
                }
            }
            i = i + 1;
        }
        proof {
            assert(self.entries@.subrange(i as int, n as int).len() == 0);
        }
        None
    }

    /// Stores `records` as the whole grant list of `address`, replacing any
    /// previous list and keeping the rows ordered.
    pub fn save(&mut self, address: String, records: Vec<BondingRecord>)
        requires
            old(self).wf(),
        ensures
            final(self).wf(),
            final(self).entries@ == spec_save(old(self).entries@, address, records),
    {
        let ghost orig = self.entries@;
        let n = self.entries.len();
        let mut i: usize = 0;
        proof {
            assert(orig.subrange(0, n as int) =~= orig);
            assert(orig.subrange(0, 0) + spec_save(orig.subrange(0, n as int), address, records)
                =~= spec_save(orig, address, records));
        }
        while i < n
            invariant
                i <= n,
                n == self.entries@.len(),
                self.entries@ == orig,
                entries_sorted(orig),
                forall|k: int|
                    0 <= k < i ==> lex_lt(#[trigger] addr_key(orig[k].address), addr_key(address)),
                spec_save(orig, address, records) == orig.subrange(0, i as int) + spec_save(
                    orig.subrange(i as int, n as int),
                    address,
                    records,
                ),
            decreases n - i,
        {
            proof {
                assert(orig.subrange(i as int, n as int).drop_first() =~= orig.subrange(
                    i + 1,
                    n as int,
                ));
            }
            let here_lt = addr_lt(&self.entries[i].address, &address);
            if !here_lt {
                let eq_here = self.entries[i].address.eq(&address);
                proof {
                    if eq_here {
                        assert(addr_key(orig[i as int].address) == addr_key(address));
                    } else {
                        if addr_key(orig[i as int].address) == addr_key(address) {
                            lemma_addr_key_injective(orig[i as int].address, address);
                            assert(false);
                        }
                        if !lex_lt(addr_key(address), addr_key(orig[i as int].address)) {
                            lemma_lex_lt_total(
                                addr_key(orig[i as int].address),
                                addr_key(address),
                            );
                            lemma_addr_key_injective(orig[i as int].address, address);
                            assert(false);
                        }
                    }
                }
                if eq_here {
                    // replace the row in place
                    let entry = BondingEntry { address, records };
                    proof {
                        lemma_sorted_after_save(orig, entry.address, entry.records, i as int);
                    }
                    self.entries.set(i, entry);
                    proof {
                        assert(spec_save(orig.subrange(i as int, n as int), address, records)
                            =~= seq![orig.update(i as int, entry)[i as int]] + orig.subrange(
                            i + 1,
                            n as int,
                        ));
                        assert(self.entries@ =~= spec_save(orig, address, records));
                        assert(self.entries@ =~= orig.update(i as int, entry));
                    }
                } else {
                    // the new address orders strictly before this row
                    let entry = BondingEntry { address, records };
                    proof {
                        lemma_sorted_after_save(orig, entry.address, entry.records, i as int);
                    }
                    self.entries.insert(i, entry);
                    proof {
                        assert(spec_save(orig.subrange(i as int, n as int), address, records)
                            =~= seq![entry] + orig.subrange(i as int, n as int));
                        assert(self.entries@ =~= spec_save(orig, address, records));
                        assert(self.entries@ =~= orig.insert(i as int, entry));
                    }
                }
                return ;
            }
            proof {
                assert(orig.subrange(0, i as int) + (seq![orig[i as int]] + spec_save(
                    orig.subrange(i + 1, n as int),
                    address,
                    records,
                )) =~= orig.subrange(0, i + 1) + spec_save(
                    orig.subrange(i + 1, n as int),
                    address,
                    records,
                ));
            }
            i = i + 1;
        }
        // every row orders before the new address: append at the end
        proof {
            assert(orig.subrange(i as int, n as int).len() == 0);
        }
        let entry = BondingEntry { address, records };
        proof {
            lemma_sorted_after_save(orig, entry.address, entry.records, i as int);
        }
        self.entries.push(entry);
        proof {
            assert(spec_save(orig.subrange(i as int, n as int), address, records) =~= seq![entry]);
            assert(self.entries@ =~= spec_save(orig, address, records));
            assert(self.entries@ =~= orig.insert(n as int, entry));
        }
    }
}

/// After a store, the stored address holds exactly the stored records.
pub proof fn lemma_spec_save_get_same(
    entries: Seq<BondingEntry>,
    address: String,
    records: Vec<BondingRecord>,
)
    ensures
        spec_get(spec_save(entries, address, records), addr_key(address)) == Some(records),
    decreases entries.len(),
{
    if entries.len() == 0 {
    } else if lex_lt(addr_key(entries[0].address), addr_key(address)) {
        lemma_lex_lt_irrefl(addr_key(entries[0].address));
        if addr_key(entries[0].address) == addr_key(address) {
            assert(false);
        }
        lemma_spec_save_get_same(entries.drop_first(), address, records);
        assert((seq![entries[0]] + spec_save(entries.drop_first(), address, records)).drop_first()
            =~= spec_save(entries.drop_first(), address, records));
    } else {
        assert((seq![BondingEntry { address, records }] + entries.drop_first())[0]
            == BondingEntry { address, records });
        assert((seq![BondingEntry { address, records }] + entries)[0] == BondingEntry {
            address,
            records,
        });
    }
}

/// A store leaves every other address's grant list untouched.
pub proof fn lemma_spec_save_get_other(
    entries: Seq<BondingEntry>,
    address: String,
    records: Vec<BondingRecord>,
    key: Seq<u8>,
)
    requires
        key != addr_key(address),
    ensures
        spec_get(spec_save(entries, address, records), key) == spec_get(entries, key),
    decreases entries.len(),
{
    if entries.len() == 0 {
        assert(spec_save(entries, address, records) == seq![BondingEntry { address, records }]);
        assert(seq![BondingEntry { address, records }].drop_first()
            =~= Seq::<BondingEntry>::empty());
        reveal_with_fuel(spec_get, 2);
        assert(spec_get(seq![BondingEntry { address, records }], key) is None);
    } else if lex_lt(addr_key(entries[0].address), addr_key(address)) {
        lemma_spec_save_get_other(entries.drop_first(), address, records, key);
        assert((seq![entries[0]] + spec_save(entries.drop_first(), address, records)).drop_first()
            =~= spec_save(entries.drop_first(), address, records));
        assert((seq![entries[0]] + spec_save(entries.drop_first(), address, records))[0]
            == entries[0]);
    } else if addr_key(entries[0].address) == addr_key(address) {
        assert((seq![BondingEntry { address, records }] + entries.drop_first()).drop_first()
            =~= entries.drop_first());
    } else {
        assert((seq![BondingEntry { address, records }] + entries).drop_first() =~= entries);
    }
}

/// Storing under an address keeps the rows strictly ordered, provided every
/// row before position `i` orders before the address and, if the address is
/// not replacing row `i`, the address orders before row `i`.
proof fn lemma_sorted_after_save(
    orig: Seq<BondingEntry>,
    address: String,
    records: Vec<BondingRecord>,
    i: int,
)
    requires
        entries_sorted(orig),
        0 <= i <= orig.len(),
        forall|k: int| 0 <= k < i ==> lex_lt(#[trigger] addr_key(orig[k].address), addr_key(address)),
        i < orig.len() ==> (addr_key(orig[i].address) == addr_key(address) || lex_lt(
            addr_key(address),
            addr_key(orig[i].address),
        )),
    ensures
        i < orig.len() && addr_key(orig[i].address) == addr_key(address) ==> entries_sorted(
            orig.update(i, BondingEntry { address, records }),
        ),
        !(i < orig.len() && addr_key(orig[i].address) == addr_key(address)) ==> entries_sorted(
            orig.insert(i, BondingEntry { address, records }),
        ),
{
    let e = BondingEntry { address, records };
    if i < orig.len() && addr_key(orig[i].address) == addr_key(address) {
        let s = orig.update(i, e);
        assert forall|p: int, q: int| 0 <= p < q < s.len() implies lex_lt(
            #[trigger] addr_key(s[p].address),
            #[trigger] addr_key(s[q].address),
        ) by {
            assert(lex_lt(addr_key(orig[p].address), addr_key(orig[q].address)));
        }
    } else {
        let s = orig.insert(i, e);
        assert forall|p: int, q: int| 0 <= p < q < s.len() implies lex_lt(
            #[trigger] addr_key(s[p].address),
            #[trigger] addr_key(s[q].address),
        ) by {
            if p < i && q > i {
                assert(s[p] == orig[p]);
                assert(s[q] == orig[q - 1]);
                if q - 1 == p {
                    assert(lex_lt(addr_key(orig[p].address), addr_key(address)));
                    assert(lex_lt(addr_key(address), addr_key(orig[q - 1].address)));
                    lemma_lex_lt_trans(
                        addr_key(orig[p].address),
                        addr_key(address),
                        addr_key(orig[q - 1].address),
                    );
                } else {
                    assert(lex_lt(addr_key(orig[p].address), addr_key(orig[q - 1].address)));
                }
            } else if q == i {
                assert(s[p] == orig[p]);
            } else if p == i && q > i {
                assert(s[q] == orig[q - 1]);
                if q - 1 > i {
                    assert(lex_lt(addr_key(orig[i].address), addr_key(orig[q - 1].address)));
                    lemma_lex_lt_trans(
                        addr_key(address),
                        addr_key(orig[i].address),
                        addr_key(orig[q - 1].address),
                    );
                }
            } else if q < i {
                assert(s[p] == orig[p]);
                assert(s[q] == orig[q]);
            } else if p > i {
                assert(s[p] == orig[p - 1]);
                assert(s[q] == orig[q - 1]);
            }
        }
    }
}

} // verus!
