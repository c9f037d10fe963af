//! Key derivation: every contract of a transaction contributes a type key,
//! then a `from` and a `to` key when its kind defines the address field and
//! the payload decodes; receipt metadata with a non-empty deployed-contract
//! address contributes one more key. Keys are collected without duplicates,
//! in first-occurrence order.

use vstd::prelude::*;
use vstd::string::StringExecFns;
use crate::codec::{base58check_of, tron_address_to_base58};
use crate::extract::{
    extract_from_address, extract_to_address, spec_extract_receiver, spec_extract_sender,
};
use crate::kinds::{kind_from_tag, kind_name, spec_kind_from_tag, spec_kind_name};
use crate::model::{Contract, Keys, Transaction, Transactions};

verus! {

/// The label in a contract's type key: the kind's canonical name, or
/// `Unknown` for a tag outside the enumeration.
pub open spec fn spec_kind_label(tag: i32) -> Seq<char> {
    match spec_kind_from_tag(tag) {
        Some(k) => spec_kind_name(k),
        None => "Unknown"@,
    }
}

/// The type key of a contract tag.
pub open spec fn spec_type_key(tag: i32) -> Seq<char> {
    "contract_type:"@ + spec_kind_label(tag)
}

/// The key naming a sending address.
pub open spec fn spec_from_key(addr: Seq<u8>) -> Seq<char> {
    "from:"@ + base58check_of(addr)
}

/// The key naming a receiving address.
pub open spec fn spec_to_key(addr: Seq<u8>) -> Seq<char> {
    "to:"@ + base58check_of(addr)
}

/// The key naming a deployed contract's address.
pub open spec fn spec_address_key(addr: Seq<u8>) -> Seq<char> {
    "contract_address:"@ + base58check_of(addr)
}

/// The sender address a contract yields, when its parameter is present and
/// the extraction finds one.
pub open spec fn spec_contract_sender(c: Contract) -> Option<Seq<u8>> {
    match c.parameter {
        None => None,
        Some(p) => spec_extract_sender(c.contract_type, p.value@),
    }
}

/// The receiver address a contract yields.
pub open spec fn spec_contract_receiver(c: Contract) -> Option<Seq<u8>> {
    match c.parameter {
        None => None,
        Some(p) => spec_extract_receiver(c.contract_type, p.value@),
    }
}

/// The keys one contract contributes, in order: its type key, then the
/// `from` and `to` keys that its addresses give.
pub open spec fn spec_contract_keys(c: Contract) -> Seq<Seq<char>> {
    seq![spec_type_key(c.contract_type)] + (match spec_contract_sender(c) {
        Some(a) => seq![spec_from_key(a)],
        None => Seq::empty(),
    }) + (match spec_contract_receiver(c) {
        Some(a) => seq![spec_to_key(a)],
        None => Seq::empty(),
    })
}

/// The keys a sequence of contracts contributes, in order.
pub open spec fn spec_contracts_keys(cs: Seq<Contract>) -> Seq<Seq<char>>
    decreases cs.len(),
{
    if cs.len() == 0 {
        Seq::empty()
    } else {
        spec_contracts_keys(cs.drop_last()) + spec_contract_keys(cs.last())
    }
}

/// All keys of a transaction in derivation order, duplicates included: its
/// contracts' keys, then the deployed-contract key when the receipt carries
/// a non-empty address.
pub open spec fn spec_transaction_key_seq(tx: Transaction) -> Seq<Seq<char>> {
    spec_contracts_keys(tx.contracts@) + (match tx.info {
        Some(info) => if info.contract_address@.len() > 0 {
            seq![spec_address_key(info.contract_address@)]
        } else {
            Seq::empty()
        },
        None => Seq::empty(),
    })
}

/// `s` with every element dropped that already occurred earlier: the
/// deduplicated key list, first occurrences kept in order.
pub open spec fn spec_dedup(s: Seq<Seq<char>>) -> Seq<Seq<char>>
    decreases s.len(),
{
    if s.len() == 0 {
        Seq::empty()
    } else {
        let d = spec_dedup(s.drop_last());
        if d.contains(s.last()) {
            d
        } else {
            d.push(s.last())
        }
    }
}

/// A pushed element is found exactly when it is the new last element or was
/// already present.
proof fn lemma_push_contains<A>(s: Seq<A>, x: A, y: A)
    ensures
        s.push(x).contains(y) <==> (s.contains(y) || x == y),
{
    if s.contains(y) {
        let i = choose|i: int| 0 <= i < s.len() && s[i] == y;
        assert(s.push(x)[i] == y);
    }
    assert(s.push(x)[s.len() as int] == x);
    if s.push(x).contains(y) && x != y {
        let i = choose|i: int| 0 <= i < s.push(x).len() && s.push(x)[i] == y;
        assert(s[i] == y);
    }
}

/// Membership distributes over concatenation.
proof fn lemma_add_contains<A>(a: Seq<A>, b: Seq<A>, y: A)
    ensures
        (a + b).contains(y) <==> (a.contains(y) || b.contains(y)),
{
    if a.contains(y) {
        let i = choose|i: int| 0 <= i < a.len() && a[i] == y;
        assert((a + b)[i] == y);
    }
    if b.contains(y) {
        let i = choose|i: int| 0 <= i < b.len() && b[i] == y;
        assert((a + b)[a.len() + i] == y);
    }
    if (a + b).contains(y) {
        let i = choose|i: int| 0 <= i < (a + b).len() && (a + b)[i] == y;
        if i < a.len() {
            assert(a[i] == y);
        } else {
            assert(b[i - a.len()] == y);
        }
    }
}

/// One deduplication step: extending the input by one element extends the
/// output only when the element is new.
proof fn lemma_dedup_step(s: Seq<Seq<char>>, x: Seq<char>)
    ensures
        spec_dedup(s.push(x)) == (if spec_dedup(s).contains(x) {
            spec_dedup(s)
        } else {
            spec_dedup(s).push(x)
        }),
{
    assert(s.push(x).drop_last() =~= s);
    assert(s.push(x).last() == x);
}

/// Deduplication keeps exactly the elements of its input.
pub proof fn lemma_dedup_contains(s: Seq<Seq<char>>, y: Seq<char>)
    ensures
        spec_dedup(s).contains(y) <==> s.contains(y),
    decreases s.len(),
{
    if s.len() == 0 {
        assert(!s.contains(y));
        assert(!spec_dedup(s).contains(y));
    } else {
        lemma_dedup_contains(s.drop_last(), y);
        lemma_push_contains(spec_dedup(s.drop_last()), s.last(), y);
        lemma_push_contains(s.drop_last(), s.last(), y);
        assert(s.drop_last().push(s.last()) =~= s);
        if spec_dedup(s.drop_last()).contains(s.last()) && y == s.last() {
            lemma_dedup_contains(s.drop_last(), s.last());
        }
    }
}

/// The deduplicated key list never repeats an element: a transaction
/// contributes each key once, however many of its contracts give rise to
/// it.
pub proof fn lemma_dedup_no_duplicates(s: Seq<Seq<char>>)
    ensures
        spec_dedup(s).no_duplicates(),
    decreases s.len(),
{
    if s.len() > 0 {
        lemma_dedup_no_duplicates(s.drop_last());
        let d = spec_dedup(s.drop_last());
        if !d.contains(s.last()) {
            assert forall|i: int, j: int|
                0 <= i < j < d.push(s.last()).len() implies d.push(s.last())[i] != d.push(
                s.last(),
            )[j] by {
                if j < d.len() {
                    assert(d[i] != d[j]);
                } else {
                    assert(!d.contains(s.last()));
                    assert(d[i] == d.push(s.last())[i]);
                }
            }
        }
    }
}

/// Extending a contract list by one contract appends that contract's keys.
proof fn lemma_contracts_keys_snoc(cs: Seq<Contract>, i: int)
    requires
        0 <= i < cs.len(),
    ensures
        spec_contracts_keys(cs.take(i + 1)) == spec_contracts_keys(cs.take(i))
            + spec_contract_keys(cs[i]),
{
    assert(cs.take(i + 1).drop_last() =~= cs.take(i));
    assert(cs.take(i + 1).last() == cs[i]);
}

/// What one contract's key list holds: its type key, and the `from` and
/// `to` keys of the addresses it yields.
pub proof fn lemma_contract_keys_contains(c: Contract, y: Seq<char>)
    ensures
        spec_contract_keys(c).contains(y) <==> (y == spec_type_key(c.contract_type) || (
        spec_contract_sender(c) matches Some(a) && y == spec_from_key(a)) || (
        spec_contract_receiver(c) matches Some(a) && y == spec_to_key(a))),
{
    let t = seq![spec_type_key(c.contract_type)];
    let f = (match spec_contract_sender(c) {
        Some(a) => seq![spec_from_key(a)],
        None => Seq::<Seq<char>>::empty(),
    });
    let r = (match spec_contract_receiver(c) {
        Some(a) => seq![spec_to_key(a)],
        None => Seq::<Seq<char>>::empty(),
    });
    lemma_add_contains(t + f, r, y);
    lemma_add_contains(t, f, y);
    assert(t.contains(y) <==> y == spec_type_key(c.contract_type)) by {
        if t.contains(y) {
            let i = choose|i: int| 0 <= i < t.len() && t[i] == y;
            assert(t[0] == spec_type_key(c.contract_type));
        }
        assert(t[0] == spec_type_key(c.contract_type));
    }
    match spec_contract_sender(c) {
        Some(a) => {
            assert(f[0] == spec_from_key(a));
            if f.contains(y) {
                let i = choose|i: int| 0 <= i < f.len() && f[i] == y;
            }
        },
        None => {
            assert(!f.contains(y));
        },
    }
    match spec_contract_receiver(c) {
        Some(a) => {
            assert(r[0] == spec_to_key(a));
            if r.contains(y) {
                let i = choose|i: int| 0 <= i < r.len() && r[i] == y;
            }
        },
        None => {
            assert(!r.contains(y));
        },
    }
}

/// A contract whose tag is outside the enumeration contributes exactly its
/// `Unknown` type key: no `from` and no `to` key, whatever its payload.
pub proof fn lemma_unknown_kind_keys(c: Contract)
    requires
        spec_kind_from_tag(c.contract_type) is None,
    ensures
        spec_contract_keys(c) == seq![spec_type_key(c.contract_type)],
        spec_kind_label(c.contract_type) == "Unknown"@,
{
    match c.parameter {
        None => {},
        Some(p) => {
            crate::extract::lemma_extract_unknown_tag(c.contract_type, p.value@);
        },
    }
    assert(spec_contract_keys(c) =~= seq![spec_type_key(c.contract_type)]);
}

/// Appends `k` unless an equal key is already there, as one
/// `spec_dedup` step does.
fn push_if_absent(keys: &mut Vec<String>, k: String)
    ensures
        final(keys).deep_view() == (if old(keys).deep_view().contains(k@) {
            old(keys).deep_view()
        } else {
            old(keys).deep_view().push(k@)
        }),
{
    let ghost dv0 = keys.deep_view();
    let mut i: usize = 0;
    while i < keys.len()
        invariant
            i <= keys@.len(),
            keys.deep_view() == dv0,
            dv0.len() == keys@.len(),
            forall|j: int| 0 <= j < i ==> dv0[j] != k@,
        decreases keys@.len() - i,
    {
        proof {
            assert(dv0[i as int] == keys@[i as int]@);
        }
        if keys[i].eq(&k) {
            proof {
                assert(dv0.contains(k@));
            }
            return ;
        }
        i = i + 1;
    }
    proof {
        assert(!dv0.contains(k@));
    }
    keys.push(k);
    proof {
        assert(keys.deep_view() =~= dv0.push(k@));
    }
}

/// Derives the index keys of one transaction: for each contract, in the
/// transaction's own contract order, its type key and the `from` and `to`
/// keys its addresses give; then the deployed-contract key when the receipt
/// carries a non-empty address. Each key appears once, first occurrences in
/// order.
pub fn transaction_keys(transaction: &Transaction) -> (r: Vec<String>)
    ensures
        r.deep_view() == spec_dedup(spec_transaction_key_seq(*transaction)),
{
    let mut keys: Vec<String> = Vec::new();
    let ghost cs = transaction.contracts@;
    let mut ci: usize = 0;
    proof {
        assert(keys.deep_view() =~= spec_dedup(spec_contracts_keys(cs.take(0))));
        assert(spec_contracts_keys(cs.take(0)) =~= Seq::<Seq<char>>::empty());
    }
    while ci < transaction.contracts.len()
        invariant
            ci <= cs.len(),
            transaction.contracts@ == cs,
            keys.deep_view() == spec_dedup(spec_contracts_keys(cs.take(ci as int))),
        decreases cs.len() - ci,
    {
        let c = &transaction.contracts[ci];
        let ghost sofar = spec_contracts_keys(cs.take(ci as int));

        let mut tk: String = "contract_type:".to_owned();
        let name: &str = match kind_from_tag(c.contract_type) {
            Some(k) => kind_name(k),
            None => "Unknown",
        };
        tk.append(name);
        proof {
            assert(tk@ == spec_type_key(c.contract_type));
            lemma_dedup_step(sofar, tk@);
            lemma_dedup_contains(sofar, tk@);
        }
        push_if_absent(&mut keys, tk);
        let ghost s1 = sofar.push(spec_type_key(c.contract_type));
        proof {
            assert(keys.deep_view() == spec_dedup(s1));
        }

        let from_addr = match &c.parameter {
            None => None,
            Some(p) => extract_from_address(c.contract_type, p),
        };
        let ghost s2 = (match spec_contract_sender(*c) {
            Some(a) => s1.push(spec_from_key(a)),
            None => s1,
        });
        match from_addr {
            None => {},
            Some(owner_bytes) => {
                let encoded = tron_address_to_base58(&owner_bytes);
                let mut fk: String = "from:".to_owned();
                fk.append(encoded.as_str());
                proof {
                    assert(spec_contract_sender(*c) == Some(owner_bytes@));
                    assert(fk@ == spec_from_key(owner_bytes@));
                    lemma_dedup_step(s1, fk@);
                    lemma_dedup_contains(s1, fk@);
                }
                push_if_absent(&mut keys, fk);
            },
        }
        proof {
            assert(keys.deep_view() == spec_dedup(s2));
        }

        let to_addr = match &c.parameter {
            None => None,
            Some(p) => extract_to_address(c.contract_type, p),
        };
        let ghost s3 = (match spec_contract_receiver(*c) {
            Some(a) => s2.push(spec_to_key(a)),
            None => s2,
        });
        match to_addr {
            None => {},
            Some(to_bytes) => {
                let encoded = tron_address_to_base58(&to_bytes);
                let mut tok: String = "to:".to_owned();
                tok.append(encoded.as_str());
                proof {
                    assert(spec_contract_receiver(*c) == Some(to_bytes@));
                    assert(tok@ == spec_to_key(to_bytes@));
                    lemma_dedup_step(s2, tok@);
                    lemma_dedup_contains(s2, tok@);
                }
                push_if_absent(&mut keys, tok);
            },
        }
        proof {
            assert(keys.deep_view() == spec_dedup(s3));
            lemma_contracts_keys_snoc(cs, ci as int);
            assert(s3 =~= spec_contracts_keys(cs.take(ci + 1)));
        }
        ci = ci + 1;
    }
    proof {
        assert(cs.take(cs.len() as int) =~= cs);
    }
    match &transaction.info {
        None => {
            proof {
                assert(spec_transaction_key_seq(*transaction) =~= spec_contracts_keys(cs));
            }
        },
        Some(info) => {
            if info.contract_address.len() > 0 {
                let encoded = tron_address_to_base58(&info.contract_address);
                let mut ak: String = "contract_address:".to_owned();
                ak.append(encoded.as_str());
                proof {
                    assert(ak@ == spec_address_key(info.contract_address@));
                    lemma_dedup_step(spec_contracts_keys(cs), ak@);
                    lemma_dedup_contains(spec_contracts_keys(cs), ak@);
                }
                push_if_absent(&mut keys, ak);
                proof {
                    assert(spec_transaction_key_seq(*transaction) =~= spec_contracts_keys(
                        cs,
                    ).push(spec_address_key(info.contract_address@)));
                }
            } else {
                proof {
                    assert(spec_transaction_key_seq(*transaction) =~= spec_contracts_keys(cs));
                }
            }
        },
    }
    keys
}

/// A transaction's key collection holds each key once, however many of its
/// contracts give rise to it — two contracts of one kind still contribute
/// that kind's type key a single time — and it holds exactly the keys its
/// contracts and receipt derive.
pub proof fn lemma_keys_unique(tx: Transaction)
    ensures
        spec_dedup(spec_transaction_key_seq(tx)).no_duplicates(),
        forall|y: Seq<char>| #[trigger]
            spec_dedup(spec_transaction_key_seq(tx)).contains(y) <==> spec_transaction_key_seq(
                tx,
            ).contains(y),
{
    lemma_dedup_no_duplicates(spec_transaction_key_seq(tx));
    assert forall|y: Seq<char>| #[trigger]
        spec_dedup(spec_transaction_key_seq(tx)).contains(y) <==> spec_transaction_key_seq(
            tx,
        ).contains(y) by {
        lemma_dedup_contains(spec_transaction_key_seq(tx), y);
    }
}

/// The keys a batch of transactions contributes, in order, duplicates
/// included.
pub open spec fn spec_batch_key_seq(txs: Seq<Transaction>) -> Seq<Seq<char>>
    decreases txs.len(),
{
    if txs.len() == 0 {
        Seq::empty()
    } else {
        spec_batch_key_seq(txs.drop_last()) + spec_transaction_key_seq(txs.last())
    }
}

/// Extending a batch by one transaction appends that transaction's keys.
proof fn lemma_batch_keys_snoc(txs: Seq<Transaction>, i: int)
    requires
        0 <= i < txs.len(),
    ensures
        spec_batch_key_seq(txs.take(i + 1)) == spec_batch_key_seq(txs.take(i))
            + spec_transaction_key_seq(txs[i]),
{
    assert(txs.take(i + 1).drop_last() =~= txs.take(i));
    assert(txs.take(i + 1).last() == txs[i]);
}

/// Derives the index of a whole batch: the union of the transactions' key
/// collections, each key once, first occurrences in order.
pub fn index_transactions(transactions: Transactions) -> (r: Keys)
    ensures
        r.keys.deep_view() == spec_dedup(spec_batch_key_seq(transactions.transactions@)),
        r.keys.deep_view().no_duplicates(),
        forall|y: Seq<char>| #[trigger]
            r.keys.deep_view().contains(y) <==> spec_batch_key_seq(
                transactions.transactions@,
            ).contains(y),
{
    let mut keys: Vec<String> = Vec::new();
    let ghost txs = transactions.transactions@;
    let mut ti: usize = 0;
    proof {
        assert(keys.deep_view() =~= spec_dedup(spec_batch_key_seq(txs.take(0))));
        assert(spec_batch_key_seq(txs.take(0)) =~= Seq::<Seq<char>>::empty());
    }
    while ti < transactions.transactions.len()
        invariant
            ti <= txs.len(),
            transactions.transactions@ == txs,
            keys.deep_view() == spec_dedup(spec_batch_key_seq(txs.take(ti as int))),
        decreases txs.len() - ti,
    {
        let tkeys = transaction_keys(&transactions.transactions[ti]);
        let ghost tseq = spec_transaction_key_seq(txs[ti as int]);
        let ghost base = spec_batch_key_seq(txs.take(ti as int));
        let mut j: usize = 0;
        while j < tkeys.len()
            invariant
                j <= tkeys@.len(),
                tkeys.deep_view() == spec_dedup(tseq),
                tkeys.deep_view().len() == tkeys@.len(),
                keys.deep_view() == spec_dedup(base + spec_dedup(tseq).take(j as int)),
            decreases tkeys@.len() - j,
        {
            let k = tkeys[j].clone();
            proof {
                assert(k@ == spec_dedup(tseq)[j as int]);
                lemma_dedup_step(base + spec_dedup(tseq).take(j as int), k@);
                lemma_dedup_contains(base + spec_dedup(tseq).take(j as int), k@);
                assert((base + spec_dedup(tseq).take(j as int)).push(k@) =~= base + spec_dedup(
                    tseq,
                ).take(j + 1));
            }
            push_if_absent(&mut keys, k);
            j = j + 1;
        }
        proof {
            assert(spec_dedup(tseq).take(j as int) =~= spec_dedup(tseq));
            lemma_dedup_same_elements_concat(base, tseq);
            lemma_batch_keys_snoc(txs, ti as int);
        }
        ti = ti + 1;
    }
    proof {
        assert(txs.take(txs.len() as int) =~= txs);
        lemma_dedup_no_duplicates(spec_batch_key_seq(txs));
        assert forall|y: Seq<char>| #[trigger]
            keys.deep_view().contains(y) <==> spec_batch_key_seq(txs).contains(y) by {
            lemma_dedup_contains(spec_batch_key_seq(txs), y);
        }
    }
    Keys { keys }
}

/// Deduplicating a list extended by an already-deduplicated copy of `t`
/// gives the same result as deduplicating the list extended by `t` itself.
proof fn lemma_dedup_same_elements_concat(base: Seq<Seq<char>>, t: Seq<Seq<char>>)
    ensures
        spec_dedup(base + spec_dedup(t)) == spec_dedup(base + t),
{
    lemma_dedup_concat_same(base, t, spec_dedup(t));
}

/// Two extensions with the same elements in the same first-occurrence
/// order deduplicate alike.
proof fn lemma_dedup_concat_same(base: Seq<Seq<char>>, t: Seq<Seq<char>>, u: Seq<Seq<char>>)
    requires
        u == spec_dedup(t),
    ensures
        spec_dedup(base + u) == spec_dedup(base + t),
    decreases t.len(),
{
    if t.len() == 0 {
        assert(spec_dedup(t) =~= Seq::<Seq<char>>::empty());
        assert(base + spec_dedup(t) =~= base);
        assert(base + t =~= base);
    } else {
        let tp = t.drop_last();
        let x = t.last();
        lemma_dedup_step(base + tp, x);
        assert((base + tp).push(x) =~= base + t);
        lemma_dedup_contains_concat(base, tp, x);
        if spec_dedup(tp).contains(x) {
            lemma_dedup_concat_same(base, tp, spec_dedup(tp));
            assert(spec_dedup(t) == spec_dedup(tp));
            lemma_dedup_contains(tp, x);
            lemma_dedup_contains_concat(base, tp, x);
        } else {
            lemma_dedup_concat_same(base, tp, spec_dedup(tp));
            assert(spec_dedup(t) == spec_dedup(tp).push(x));
            assert(base + spec_dedup(t) =~= (base + spec_dedup(tp)).push(x));
            lemma_dedup_step(base + spec_dedup(tp), x);
            lemma_dedup_contains_concat(base, spec_dedup(tp), x);
            lemma_dedup_contains(tp, x);
        }
    }
}

/// Deduplicated membership of a concatenation, element by element.
proof fn lemma_dedup_contains_concat(a: Seq<Seq<char>>, b: Seq<Seq<char>>, y: Seq<char>)
    ensures
        spec_dedup(a + b).contains(y) <==> (a.contains(y) || b.contains(y)),
{
    lemma_dedup_contains(a + b, y);
    lemma_add_contains(a, b, y);
}

} // verus!
