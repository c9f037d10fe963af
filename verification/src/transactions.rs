//! Batch handling: collecting the successful transactions of a block with
//! its clock, and filtering a batch by a query over each transaction's
//! derived key collection. Query evaluation itself is an outside
//! collaborator: this library hands it a query string and a key list and
//! receives a yes or a no.

use vstd::prelude::*;
use crate::index::{lemma_dedup_contains, spec_dedup, spec_transaction_key_seq, transaction_keys};
use crate::model::{Block, Clock, QueryError, Transaction, Transactions, spec_transaction_failed};

verus! {

/// The transactions of a block that executed successfully, in their block
/// order.
pub open spec fn spec_successful(txs: Seq<Transaction>) -> Seq<Transaction> {
    txs.filter(|tx: Transaction| !spec_transaction_failed(tx.code))
}

/// Whether the query matcher accepts a key list for a query: named but not
/// written out, since the query grammar belongs to the outside
/// collaborator. The trusted wrapper below ties it to that implementation.
pub uninterp spec fn spec_query_matches(q: Seq<char>, keys: Seq<Seq<char>>) -> bool;

/// A character that can only be part of one bare query term: a letter, a
/// digit, or one of `:`, `_`, `.`, `-`. None of these is an operator, a
/// quote, a parenthesis or whitespace in the query grammar.
pub open spec fn spec_plain_term_char(c: char) -> bool {
    (('a' as u32) <= (c as u32) && (c as u32) <= ('z' as u32)) || (('A' as u32) <= (c as u32) && (
    c as u32) <= ('Z' as u32)) || (('0' as u32) <= (c as u32) && (c as u32) <= ('9' as u32)) || c
        == ':' || c == '_' || c == '.' || c == '-'
}

/// A query that is one bare term: non-empty, not starting with `-`, made of
/// plain term characters only. Such a query always parses, and matches a
/// key list exactly when the list contains the term itself.
pub open spec fn spec_plain_term(q: Seq<char>) -> bool {
    q.len() > 0 && q[0] != '-' && (forall|i: int|
        0 <= i < q.len() ==> spec_plain_term_char(#[trigger] q[i]))
}

/// The error the outside query matcher reports for a query its grammar
/// rejects; opaque to this library and mapped to `QueryError`.
#[verifier::external_type_specification]
#[verifier::external_body]
pub struct ExMatcherError(substreams::errors::Error);

/// Relies on `substreams::expr_parser::matches_keys_in_parsed_expr`: it
/// parses the query expression and evaluates it against the key list,
/// erring only on a query its grammar rejects. A plain term always parses,
/// and matches exactly when the key list contains it.
#[verifier::external_body]
fn match_keys(query: &String, keys: &Vec<String>) -> (r: Result<bool, substreams::errors::Error>)
    ensures
        (match r {
            Ok(b) => b == spec_query_matches(query@, keys.deep_view()),
            Err(_) => true,
        }),
        (match r {
            Ok(b) => spec_plain_term(query@) ==> b == keys.deep_view().contains(query@),
            Err(_) => !spec_plain_term(query@),
        }),
{
    substreams::expr_parser::matches_keys_in_parsed_expr(keys, query)
}

/// Whether the query matcher retains a transaction: it accepts the
/// transaction's deduplicated key list.
pub open spec fn spec_query_keeps(q: Seq<char>, tx: Transaction) -> bool {
    spec_query_matches(q, spec_dedup(spec_transaction_key_seq(tx)))
}

/// The transactions of a batch that the query matcher retains, in their
/// batch order.
pub open spec fn spec_filtered(q: Seq<char>, txs: Seq<Transaction>) -> Seq<Transaction> {
    txs.filter(|tx: Transaction| spec_query_keeps(q, tx))
}

/// The transactions whose key collection holds the key `q` itself, in
/// their batch order: what filtering by a plain term retains.
pub open spec fn spec_filtered_by_key(q: Seq<char>, txs: Seq<Transaction>) -> Seq<Transaction> {
    txs.filter(|tx: Transaction| spec_transaction_key_seq(tx).contains(q))
}

/// One step of `spec_successful` along a prefix.
proof fn lemma_successful_snoc(txs: Seq<Transaction>, i: int)
    requires
        0 <= i < txs.len(),
    ensures
        spec_successful(txs.take(i + 1)) == (if !spec_transaction_failed(txs[i].code) {
            spec_successful(txs.take(i)).push(txs[i])
        } else {
            spec_successful(txs.take(i))
        }),
{
    reveal(Seq::filter);
    assert(txs.take(i + 1).drop_last() =~= txs.take(i));
    assert(txs.take(i + 1).last() == txs[i]);
}

/// One step of `spec_filtered` along a prefix.
proof fn lemma_filtered_snoc(q: Seq<char>, txs: Seq<Transaction>, i: int)
    requires
        0 <= i < txs.len(),
    ensures
        spec_filtered(q, txs.take(i + 1)) == (if spec_query_keeps(q, txs[i]) {
            spec_filtered(q, txs.take(i)).push(txs[i])
        } else {
            spec_filtered(q, txs.take(i))
        }),
{
    reveal(Seq::filter);
    assert(txs.take(i + 1).drop_last() =~= txs.take(i));
    assert(txs.take(i + 1).last() == txs[i]);
}

/// One step of `spec_filtered_by_key` along a prefix.
proof fn lemma_filtered_by_key_snoc(q: Seq<char>, txs: Seq<Transaction>, i: int)
    requires
        0 <= i < txs.len(),
    ensures
        spec_filtered_by_key(q, txs.take(i + 1)) == (if spec_transaction_key_seq(
            txs[i],
        ).contains(q) {
            spec_filtered_by_key(q, txs.take(i)).push(txs[i])
        } else {
            spec_filtered_by_key(q, txs.take(i))
        }),
{
    reveal(Seq::filter);
    assert(txs.take(i + 1).drop_last() =~= txs.take(i));
    assert(txs.take(i + 1).last() == txs[i]);
}

/// Reverses a vector of transactions by moving its elements.
fn reverse_vec(src: Vec<Transaction>) -> (r: Vec<Transaction>)
    ensures
        r@ == src@.reverse(),
{
    let mut src = src;
    let ghost orig = src@;
    let mut rev: Vec<Transaction> = Vec::new();
    proof {
        assert(orig.take(orig.len() as int) =~= orig);
        assert(orig.skip(orig.len() as int).reverse() =~= Seq::<Transaction>::empty());
    }
    while src.len() > 0
        invariant
            src@.len() <= orig.len(),
            src@ == orig.take(src@.len() as int),
            rev@ == orig.skip(src@.len() as int).reverse(),
        decreases src@.len(),
    {
        let ghost n = src@.len() as int;
        let tx = src.pop().unwrap();
        proof {
            assert(orig.take(n).drop_last() =~= orig.take(n - 1));
            assert(tx == orig[n - 1]);
            assert(rev@.push(tx) =~= orig.skip(n - 1).reverse());
        }
        rev.push(tx);
    }
    proof {
        assert(orig.skip(0) =~= orig);
    }
    rev
}

/// Collects the successful transactions of a block with the block's clock:
/// every transaction whose status code is not the success value is
/// dropped, and the relative order of the rest is kept.
pub fn map_transactions(clock: Clock, block: Block) -> (r: Transactions)
    ensures
        r.transactions@ == spec_successful(block.transactions@),
        r.clock == Some(clock),
{
    let ghost orig = block.transactions@;
    let mut rev = reverse_vec(block.transactions);
    let mut kept: Vec<Transaction> = Vec::new();
    proof {
        assert(orig.skip(0) =~= orig);
        assert(orig.take(0) =~= Seq::<Transaction>::empty());
        reveal(Seq::filter);
        assert(kept@ =~= spec_successful(orig.take(0)));
    }
    while rev.len() > 0
        invariant
            rev@.len() <= orig.len(),
            rev@ == orig.skip((orig.len() - rev@.len()) as int).reverse(),
            kept@ == spec_successful(orig.take((orig.len() - rev@.len()) as int)),
        decreases rev@.len(),
    {
        let ghost p = (orig.len() - rev@.len()) as int;
        let tx = rev.pop().unwrap();
        proof {
            assert(rev@ =~= orig.skip(p + 1).reverse());
            assert(tx == orig[p]);
            lemma_successful_snoc(orig, p);
        }
        if !crate::model::transaction_failed(tx.code) {
            kept.push(tx);
        }
    }
    proof {
        assert(orig.take(orig.len() as int) =~= orig);
    }
    Transactions { transactions: kept, clock: Some(clock) }
}

/// Filters a batch by a query over each transaction's derived keys: a
/// transaction is retained exactly when the matcher accepts its key list.
/// A query the matcher's grammar rejects is the one hard failure; a query
/// that is one plain term never fails, and retains exactly the
/// transactions whose key collection holds that term as a key.
pub fn filtered_transactions(query: String, transactions: Transactions) -> (r: Result<
    Transactions,
    QueryError,
>)
    ensures
        r matches Ok(out) ==> out.transactions@ == spec_filtered(
            query@,
            transactions.transactions@,
        ) && out.clock == transactions.clock,
        spec_plain_term(query@) ==> r is Ok,
        spec_plain_term(query@) ==> (r matches Ok(out) ==> out.transactions@
            == spec_filtered_by_key(query@, transactions.transactions@)),
{
    let ghost orig = transactions.transactions@;
    let clock = transactions.clock;
    let mut rev = reverse_vec(transactions.transactions);
    let mut kept: Vec<Transaction> = Vec::new();
    proof {
        assert(orig.skip(0) =~= orig);
        assert(orig.take(0) =~= Seq::<Transaction>::empty());
        reveal(Seq::filter);
        assert(kept@ =~= spec_filtered(query@, orig.take(0)));
        assert(kept@ =~= spec_filtered_by_key(query@, orig.take(0)));
    }
    while rev.len() > 0
        invariant
            rev@.len() <= orig.len(),
            rev@ == orig.skip((orig.len() - rev@.len()) as int).reverse(),
            kept@ == spec_filtered(query@, orig.take((orig.len() - rev@.len()) as int)),
            spec_plain_term(query@) ==> kept@ == spec_filtered_by_key(
                query@,
                orig.take((orig.len() - rev@.len()) as int),
            ),
        decreases rev@.len(),
    {
        let ghost p = (orig.len() - rev@.len()) as int;
        let tx = rev.pop().unwrap();
        proof {
            assert(rev@ =~= orig.skip(p + 1).reverse());
            assert(tx == orig[p]);
        }
        let keys = transaction_keys(&tx);
        let matched = match match_keys(&query, &keys) {
            Ok(b) => b,
            Err(_) => {
                return Err(QueryError);
            },
        };
        proof {
            lemma_filtered_snoc(query@, orig, p);
            lemma_filtered_by_key_snoc(query@, orig, p);
            if spec_plain_term(query@) {
                lemma_dedup_contains(spec_transaction_key_seq(tx), query@);
            }
        }
        if matched {
            kept.push(tx);
        }
    }
    proof {
        assert(orig.take(orig.len() as int) =~= orig);
    }
    Ok(Transactions { transactions: kept, clock })
}

} // verus!
